//! The state behind the two timers: the caret flag window (which flag image it
//! holds, where it stands, when to rebuild, move or leave it alone) and the
//! flagged system cursor (which images are loaded, when to compose a new
//! cursor, when to restore the system's cursors).
//!
//! Handles of the window system (device contexts, bitmaps) are kept as plain
//! integers, zero standing for none. The caller performs each action and hands
//! the results back.

use vstd::prelude::*;
use std::collections::HashMap;
use crate::geometry::{CursorKind, DX, DY, FLAG_W, FLAG_H};

verus! {

broadcast use vstd::std_specs::hash::group_hash_axioms;

/// The state as the contracts see it.
pub struct OverlayModel {
    /// The layout whose flag the caret window holds.
    pub last_caret_layout: u32,
    /// Memory device context holding the scaled caret flag (0: none).
    pub flag_dc: usize,
    /// The scaled caret flag bitmap (0: none).
    pub flag_bmp: usize,
    /// Where the caret window was last shown (`None`: it is hidden).
    pub caret_shown_at: Option<(i32, i32)>,
    /// Source flag bitmaps by layout, each loaded once.
    pub flag_sources: Map<u32, usize>,
    /// The loaded I-beam image (0: not loaded).
    pub ibeam_draft: usize,
    /// The loaded arrow image (0: not loaded).
    pub arrow_draft: usize,
    /// Kind of the flagged cursor installed (`None`: the system's own cursors).
    pub cursor_kind: Option<CursorKind>,
    /// Layout of the flagged cursor installed.
    pub cursor_layout: u32,
}

/// The state of the overlay.
pub struct Overlay {
    last_caret_layout: u32,
    flag_dc: usize,
    flag_bmp: usize,
    caret_shown_at: Option<(i32, i32)>,
    src_cache: HashMap<u32, usize>,
    ibeam_draft: usize,
    arrow_draft: usize,
    cursor_kind: Option<CursorKind>,
    cursor_layout: u32,
}

impl View for Overlay {
    type V = OverlayModel;

    closed spec fn view(&self) -> OverlayModel {
        OverlayModel {
            last_caret_layout: self.last_caret_layout,
            flag_dc: self.flag_dc,
            flag_bmp: self.flag_bmp,
            caret_shown_at: self.caret_shown_at,
            flag_sources: self.src_cache@,
            ibeam_draft: self.ibeam_draft,
            arrow_draft: self.arrow_draft,
            cursor_kind: self.cursor_kind,
            cursor_layout: self.cursor_layout,
        }
    }
}

/// What the window system says on a caret tick, besides the caret position.
#[derive(Clone, Copy, Debug, PartialEq, Eq, Structural)]
pub struct CaretGuards {
    /// The current layout (0: unknown).
    pub langid: u32,
    /// The foreground window covers the screen.
    pub fullscreen: bool,
    /// The foreground window is a popup menu.
    pub menu_open: bool,
    /// The secure desktop (sign-in, elevation prompt) has the input.
    pub secure_desktop: bool,
}

/// What to do with the caret flag window on a tick.
#[derive(Clone, Copy, Debug, PartialEq, Eq, Structural)]
pub enum CaretAction {
    /// Hide the window.
    Hide,
    /// Leave the window as it is: the caret has not moved and the flag is
    /// current.
    Keep,
    /// Show the window topmost at (`x`, `y`) with size (`w`, `h`) and repaint
    /// it, after building the flag of the current layout first when `rebuild`
    /// is set.
    Show { x: i32, y: i32, w: i32, h: i32, rebuild: bool },
}

/// A cursor to compose: its kind and layout, and which cursor images have to
/// be loaded first.
#[derive(Clone, Copy, Debug, PartialEq, Eq, Structural)]
pub struct CursorRequest {
    pub kind: CursorKind,
    pub langid: u32,
    pub load_ibeam_draft: bool,
    pub load_arrow_draft: bool,
}

/// What to do with the system cursors on a tick.
#[derive(Clone, Copy, Debug, PartialEq, Eq, Structural)]
pub enum CursorAction {
    /// Nothing.
    Nothing,
    /// Restore the system's own cursors: the layout became unknown while a
    /// flagged cursor was installed.
    Restore,
    /// Compose and install a flagged cursor.
    Compose(CursorRequest),
}

/// The state at start: no flag built, the caret window hidden, nothing
/// loaded, no flagged cursor installed.
pub open spec fn initial_model() -> OverlayModel {
    OverlayModel {
        last_caret_layout: 0,
        flag_dc: 0,
        flag_bmp: 0,
        caret_shown_at: None,
        flag_sources: Map::empty(),
        ibeam_draft: 0,
        arrow_draft: 0,
        cursor_kind: None,
        cursor_layout: 0,
    }
}

/// The caret is looked for only while a layout is known, no window covers
/// the screen, no popup menu is in front and the secure desktop is not
/// active.
pub open spec fn spec_caret_needs_position(g: CaretGuards) -> bool {
    g.langid != 0 && !g.fullscreen && !g.menu_open && !g.secure_desktop
}

/// The caret position plus the flag offset stays within `i32`.
pub open spec fn caret_offset_fits(pos: Option<(i32, i32)>) -> bool {
    pos matches Some((x, y)) ==> (i32::MIN <= x + DX <= i32::MAX && i32::MIN <= y + DY <= i32::MAX)
}

/// Where the caret flag stands for a caret at (`x`, `y`).
pub open spec fn flag_position(x: i32, y: i32) -> (i32, i32) {
    ((x + DX) as i32, (y + DY) as i32)
}

/// The flag must be built: the layout changed or no flag was built.
pub open spec fn needs_rebuild(m: OverlayModel, langid: u32) -> bool {
    m.last_caret_layout != langid || m.flag_dc == 0
}

/// The caret window's action for a tick: hidden when a guard holds or there
/// is no caret; left alone when it already stands at the caret plus the
/// offset with the current flag; otherwise shown there (22 by 16), with the
/// flag rebuilt when the layout changed or no flag was built.
pub open spec fn spec_caret_action(m: OverlayModel, g: CaretGuards, pos: Option<(i32, i32)>) -> CaretAction {
    if !spec_caret_needs_position(g) {
        CaretAction::Hide
    } else {
        match pos {
            None => CaretAction::Hide,
            Some((x, y)) => {
                let rebuild = needs_rebuild(m, g.langid);
                if !rebuild && m.caret_shown_at == Some(flag_position(x, y)) {
                    CaretAction::Keep
                } else {
                    CaretAction::Show {
                        x: flag_position(x, y).0,
                        y: flag_position(x, y).1,
                        w: FLAG_W,
                        h: FLAG_H,
                        rebuild,
                    }
                }
            },
        }
    }
}

/// The state after a caret tick: a hidden window stands nowhere, a shown one
/// where it was shown.
pub open spec fn spec_after_caret_tick(m: OverlayModel, g: CaretGuards, pos: Option<(i32, i32)>) -> OverlayModel {
    match spec_caret_action(m, g, pos) {
        CaretAction::Hide => OverlayModel { caret_shown_at: None, ..m },
        CaretAction::Keep => m,
        CaretAction::Show { x, y, .. } => OverlayModel { caret_shown_at: Some((x, y)), ..m },
    }
}

/// The state after the caret flag of `langid` was built into `dc` and `bmp`.
pub open spec fn spec_install_caret_flag(m: OverlayModel, langid: u32, dc: usize, bmp: usize) -> OverlayModel {
    OverlayModel { last_caret_layout: langid, flag_dc: dc, flag_bmp: bmp, ..m }
}

/// What to do with the cursors on a tick: nothing over a full-screen window
/// or for a cursor other than the I-beam and the arrow; with an unknown
/// layout, restore the system's cursors once if a flagged one is installed;
/// nothing when the flagged cursor of this kind and layout is installed;
/// otherwise compose one, requesting the images not loaded yet.
pub open spec fn spec_cursor_action(m: OverlayModel, fullscreen: bool, kind: Option<CursorKind>, langid: u32) -> CursorAction {
    if fullscreen {
        CursorAction::Nothing
    } else {
        match kind {
            None => CursorAction::Nothing,
            Some(k) => if langid == 0 {
                if m.cursor_kind is Some {
                    CursorAction::Restore
                } else {
                    CursorAction::Nothing
                }
            } else if m.cursor_kind == Some(k) && m.cursor_layout == langid {
                CursorAction::Nothing
            } else {
                CursorAction::Compose(
                    CursorRequest {
                        kind: k,
                        langid,
                        load_ibeam_draft: m.ibeam_draft == 0,
                        load_arrow_draft: m.arrow_draft == 0,
                    },
                )
            },
        }
    }
}

/// The state after the images were loaded for a request: a requested image
/// takes the loaded handle, another keeps its own.
pub open spec fn spec_store_drafts(m: OverlayModel, request: CursorRequest, ibeam: usize, arrow: usize) -> OverlayModel {
    OverlayModel {
        ibeam_draft: if request.load_ibeam_draft { ibeam } else { m.ibeam_draft },
        arrow_draft: if request.load_arrow_draft { arrow } else { m.arrow_draft },
        ..m
    }
}

/// The image that the flag of a cursor of this kind is drawn with.
pub open spec fn spec_draft_for(m: OverlayModel, kind: CursorKind) -> usize {
    match kind {
        CursorKind::IBeam => m.ibeam_draft,
        CursorKind::Arrow => m.arrow_draft,
    }
}

/// The state after a flagged cursor of `kind` and `langid` was installed.
pub open spec fn spec_cursor_installed(m: OverlayModel, kind: CursorKind, langid: u32) -> OverlayModel {
    OverlayModel { cursor_kind: Some(kind), cursor_layout: langid, ..m }
}

/// The state after the system's own cursors were restored.
pub open spec fn spec_cursors_restored(m: OverlayModel) -> OverlayModel {
    OverlayModel { cursor_kind: None, cursor_layout: 0, ..m }
}

/// When a guard holds, the caret window is hidden, whatever the caret
/// position.
pub proof fn lemma_hidden_when_guarded(m: OverlayModel, g: CaretGuards, pos: Option<(i32, i32)>)
    requires
        g.langid == 0 || g.fullscreen || g.menu_open || g.secure_desktop,
    ensures
        spec_caret_action(m, g, pos) == CaretAction::Hide,
        spec_after_caret_tick(m, g, pos).caret_shown_at is None,
{
}

/// A shown caret window is always 22 by 16, at the caret plus the offset.
pub proof fn lemma_shown_window_geometry(m: OverlayModel, g: CaretGuards, pos: Option<(i32, i32)>)
    requires
        caret_offset_fits(pos),
    ensures
        spec_caret_action(m, g, pos) matches CaretAction::Show { x, y, w, h, .. } ==> (w == 22
            && h == 16 && (pos matches Some((cx, cy)) && x == cx + 16 && y == cy - 12)),
{
}

/// While the caret stays put and the layout stays the same, the caret window
/// is left alone: after a tick that showed it, and the flag built for that
/// tick, the same tick again neither moves nor repaints it.
pub proof fn lemma_still_caret_is_left_alone(m: OverlayModel, g: CaretGuards, x: i32, y: i32, dc: usize, bmp: usize)
    requires
        spec_caret_needs_position(g),
        caret_offset_fits(Some((x, y))),
        dc != 0,
    ensures
        ({
            let first = spec_caret_action(m, g, Some((x, y)));
            let after = spec_after_caret_tick(m, g, Some((x, y)));
            let built = if first matches CaretAction::Show { rebuild, .. } && rebuild {
                spec_install_caret_flag(after, g.langid, dc, bmp)
            } else {
                after
            };
            spec_caret_action(built, g, Some((x, y))) == CaretAction::Keep
        }),
{
}

/// A caret that moved is followed, without building the flag again.
pub proof fn lemma_moved_caret_is_followed(m: OverlayModel, g: CaretGuards, x: i32, y: i32)
    requires
        spec_caret_needs_position(g),
        caret_offset_fits(Some((x, y))),
        !needs_rebuild(m, g.langid),
        m.caret_shown_at != Some(flag_position(x, y)),
    ensures
        spec_caret_action(m, g, Some((x, y))) == (CaretAction::Show {
            x: flag_position(x, y).0,
            y: flag_position(x, y).1,
            w: FLAG_W,
            h: FLAG_H,
            rebuild: false,
        }),
{
}

/// A change of layout, or a flag never built, makes the next caret tick show
/// the window with a newly built flag.
pub proof fn lemma_layout_change_rebuilds(m: OverlayModel, g: CaretGuards, x: i32, y: i32)
    requires
        spec_caret_needs_position(g),
        needs_rebuild(m, g.langid),
    ensures
        spec_caret_action(m, g, Some((x, y))) matches CaretAction::Show { rebuild, .. } && rebuild,
{
}

/// A flagged cursor is not composed again while its kind and (known) layout
/// stay the same, however many ticks pass.
pub proof fn lemma_cursor_not_rebaked(m: OverlayModel, kind: CursorKind, langid: u32, fullscreen: bool)
    requires
        langid != 0,
    ensures
        spec_cursor_action(spec_cursor_installed(m, kind, langid), fullscreen, Some(kind), langid)
            == CursorAction::Nothing,
{
}

/// Another cursor kind, or another known layout, is composed at once.
pub proof fn lemma_change_is_composed(m: OverlayModel, kind: CursorKind, langid: u32, other_kind: CursorKind, other_langid: u32)
    requires
        other_langid != 0,
        other_kind != kind || other_langid != langid,
    ensures
        spec_cursor_action(spec_cursor_installed(m, kind, langid), false, Some(other_kind), other_langid)
            matches CursorAction::Compose(r) && r.kind == other_kind && r.langid == other_langid,
{
}

/// An unknown layout tears an installed flagged cursor down once: the first
/// such tick restores the system's cursors, and after the restore the same
/// tick does nothing.
pub proof fn lemma_unknown_layout_restores_once(m: OverlayModel, kind: CursorKind)
    requires
        m.cursor_kind is Some,
    ensures
        spec_cursor_action(m, false, Some(kind), 0) == CursorAction::Restore,
        spec_cursor_action(spec_cursors_restored(m), false, Some(kind), 0) == CursorAction::Nothing,
{
}

/// Images that were loaded are not requested again.
pub proof fn lemma_drafts_load_once(m: OverlayModel, request: CursorRequest, ibeam: usize, arrow: usize, fullscreen: bool, kind: Option<CursorKind>, langid: u32)
    requires
        request.load_ibeam_draft ==> ibeam != 0,
        request.load_arrow_draft ==> arrow != 0,
        request.load_ibeam_draft == (m.ibeam_draft == 0),
        request.load_arrow_draft == (m.arrow_draft == 0),
    ensures
        ({
            let next = spec_cursor_action(spec_store_drafts(m, request, ibeam, arrow), fullscreen, kind, langid);
            next matches CursorAction::Compose(r) ==> !r.load_ibeam_draft && !r.load_arrow_draft
        }),
{
}

/// A source flag remembered for a layout is found for it afterwards, and the
/// sources of other layouts stay as they were.
pub proof fn lemma_flag_source_remembered(m: OverlayModel, langid: u32, bmp: usize, other: u32)
    requires
        other != langid,
    ensures
        m.flag_sources.insert(langid, bmp).contains_key(langid),
        m.flag_sources.insert(langid, bmp)[langid] == bmp,
        m.flag_sources.insert(langid, bmp).contains_key(other) == m.flag_sources.contains_key(other),
        m.flag_sources.contains_key(other) ==> m.flag_sources.insert(langid, bmp)[other]
            == m.flag_sources[other],
{
}

/// What a caret tick does, case by case, in terms of its inputs: it hides the
/// window exactly when a guard holds or there is no caret; it leaves the
/// window alone exactly when the flag built is that of the current layout and
/// the window already stands 16 to the right of and 12 above the caret;
/// otherwise it shows the 22 by 16 window there, rebuilding the flag exactly
/// when the built flag belongs to another layout or none was built. The tick
/// changes only where the window is recorded to stand.
pub proof fn lemma_caret_tick_cases(m: OverlayModel, g: CaretGuards, pos: Option<(i32, i32)>)
    requires
        caret_offset_fits(pos),
    ensures
        (spec_caret_action(m, g, pos) == CaretAction::Hide) <==> (g.langid == 0 || g.fullscreen
            || g.menu_open || g.secure_desktop || pos is None),
        (spec_caret_action(m, g, pos) == CaretAction::Keep) <==> (g.langid != 0 && !g.fullscreen
            && !g.menu_open && !g.secure_desktop && (pos matches Some((x, y))
            && m.last_caret_layout == g.langid && m.flag_dc != 0 && m.caret_shown_at == Some(
            ((x + 16) as i32, (y - 12) as i32),
        ))),
        spec_caret_action(m, g, pos) matches CaretAction::Show { x, y, w, h, rebuild } ==> (
        pos matches Some((cx, cy)) && x == cx + 16 && y == cy - 12 && w == 22 && h == 16 && rebuild
            == (m.last_caret_layout != g.langid || m.flag_dc == 0)),
        spec_after_caret_tick(m, g, pos) == (OverlayModel {
            caret_shown_at: match spec_caret_action(m, g, pos) {
                CaretAction::Hide => None,
                CaretAction::Keep => m.caret_shown_at,
                CaretAction::Show { x, y, .. } => Some((x, y)),
            },
            ..m
        }),
{
}

/// A flag built for another layout is never kept on screen: on an unguarded
/// tick with a caret, a layout different from that of the built flag makes
/// the window show with the flag rebuilt.
pub proof fn lemma_other_layout_is_rebuilt(m: OverlayModel, g: CaretGuards, x: i32, y: i32)
    requires
        g.langid != 0,
        !g.fullscreen,
        !g.menu_open,
        !g.secure_desktop,
        m.last_caret_layout != g.langid,
        caret_offset_fits(Some((x, y))),
    ensures
        spec_caret_action(m, g, Some((x, y))) == (CaretAction::Show {
            x: (x + 16) as i32,
            y: (y - 12) as i32,
            w: 22,
            h: 16,
            rebuild: true,
        }),
{
}

/// A pointer that is neither the I-beam nor the arrow (a hand, a resize
/// arrow) leaves the cursors alone, in every state, with every layout and
/// whether or not a window covers the screen; so does a full-screen window.
pub proof fn lemma_other_pointers_leave_cursors_alone(m: OverlayModel, fullscreen: bool, kind: Option<CursorKind>, langid: u32)
    ensures
        spec_cursor_action(m, fullscreen, None, langid) == CursorAction::Nothing,
        spec_cursor_action(m, true, kind, langid) == CursorAction::Nothing,
{
}

/// What a cursor tick does, case by case, in terms of its inputs: it restores
/// the system's cursors exactly when, over no full-screen window and with the
/// I-beam or the arrow shown, the layout is unknown and a flagged cursor is
/// installed; it composes a cursor exactly when, in the same situation with a
/// known layout, the installed cursor is not of the shown kind and the
/// current layout, asking for the shown kind and layout and for the images
/// that are not loaded.
pub proof fn lemma_cursor_tick_cases(m: OverlayModel, fullscreen: bool, kind: Option<CursorKind>, langid: u32)
    ensures
        (spec_cursor_action(m, fullscreen, kind, langid) == CursorAction::Restore) <==> (!fullscreen
            && kind is Some && langid == 0 && m.cursor_kind is Some),
        (spec_cursor_action(m, fullscreen, kind, langid) is Compose) <==> (!fullscreen && kind is Some
            && langid != 0 && !(m.cursor_kind == kind && m.cursor_layout == langid)),
        spec_cursor_action(m, fullscreen, kind, langid) matches CursorAction::Compose(r) ==> (kind
            == Some(r.kind) && r.langid == langid && r.load_ibeam_draft == (m.ibeam_draft == 0)
            && r.load_arrow_draft == (m.arrow_draft == 0)),
{
}

/// Storing the loaded images gives back, for the requested kind, the image
/// just loaded when it was requested and the one already held otherwise.
pub proof fn lemma_store_drafts_result(m: OverlayModel, request: CursorRequest, ibeam: usize, arrow: usize)
    ensures
        request.kind == CursorKind::IBeam ==> spec_draft_for(spec_store_drafts(m, request, ibeam, arrow), request.kind)
            == (if request.load_ibeam_draft { ibeam } else { m.ibeam_draft }),
        request.kind == CursorKind::Arrow ==> spec_draft_for(spec_store_drafts(m, request, ibeam, arrow), request.kind)
            == (if request.load_arrow_draft { arrow } else { m.arrow_draft }),
        spec_store_drafts(m, request, ibeam, arrow).cursor_kind == m.cursor_kind,
        spec_store_drafts(m, request, ibeam, arrow).flag_sources == m.flag_sources,
{
}

/// At start no flag is built and the window is recorded hidden, no image is
/// loaded, and no flagged cursor is installed.
pub proof fn lemma_initial_state()
    ensures
        initial_model().last_caret_layout == 0,
        initial_model().flag_dc == 0,
        initial_model().flag_bmp == 0,
        initial_model().caret_shown_at is None,
        initial_model().flag_sources == Map::<u32, usize>::empty(),
        initial_model().ibeam_draft == 0,
        initial_model().arrow_draft == 0,
        initial_model().cursor_kind is None,
{
}

/// Installing a caret flag records its layout and handles and nothing else;
/// recording an installed cursor records its kind and layout and nothing
/// else; restoring the cursors forgets the installed cursor and nothing else.
pub proof fn lemma_records_change_only_their_fields(m: OverlayModel, langid: u32, dc: usize, bmp: usize, kind: CursorKind)
    ensures
        spec_install_caret_flag(m, langid, dc, bmp) == (OverlayModel {
            last_caret_layout: langid,
            flag_dc: dc,
            flag_bmp: bmp,
            ..m
        }),
        spec_cursor_installed(m, kind, langid) == (OverlayModel {
            cursor_kind: Some(kind),
            cursor_layout: langid,
            ..m
        }),
        spec_cursors_restored(m).cursor_kind is None,
        spec_cursors_restored(m) == (OverlayModel { cursor_kind: None, cursor_layout: 0, ..m }),
{
}

/// Whether the caret must be looked for on this tick.
pub fn caret_needs_position(g: CaretGuards) -> (r: bool)
    ensures
        r == spec_caret_needs_position(g),
{
    g.langid != 0 && !g.fullscreen && !g.menu_open && !g.secure_desktop
}

impl Overlay {
    /// The state at start.
    pub fn new() -> (o: Overlay)
        ensures
            o@ == initial_model(),
    {
        Overlay {
            last_caret_layout: 0,
            flag_dc: 0,
            flag_bmp: 0,
            caret_shown_at: None,
            src_cache: HashMap::new(),
            ibeam_draft: 0,
            arrow_draft: 0,
            cursor_kind: None,
            cursor_layout: 0,
        }
    }

    /// The caret window's action for a tick, recording where the window now
    /// stands. `pos` is the caret position when it was looked for (see
    /// `caret_needs_position`), `None` otherwise.
    pub fn caret_tick(&mut self, g: CaretGuards, pos: Option<(i32, i32)>) -> (a: CaretAction)
        requires
            caret_offset_fits(pos),
        ensures
            a == spec_caret_action(old(self)@, g, pos),
            final(self)@ == spec_after_caret_tick(old(self)@, g, pos),
    {
        if !caret_needs_position(g) {
            self.caret_shown_at = None;
            return CaretAction::Hide;
        }
        match pos {
            None => {
                self.caret_shown_at = None;
                CaretAction::Hide
            },
            Some((x, y)) => {
                let target = (x + DX, y + DY);
                let rebuild = self.last_caret_layout != g.langid || self.flag_dc == 0;
                let unmoved = match self.caret_shown_at {
                    Some((sx, sy)) => sx == target.0 && sy == target.1,
                    None => false,
                };
                if !rebuild && unmoved {
                    CaretAction::Keep
                } else {
                    self.caret_shown_at = Some(target);
                    CaretAction::Show { x: target.0, y: target.1, w: FLAG_W, h: FLAG_H, rebuild }
                }
            },
        }
    }

    /// The device context and bitmap of the current caret flag that have to be
    /// released before a new flag is installed (`None` where there is none).
    pub fn caret_flag_to_release(&self) -> (r: (Option<usize>, Option<usize>))
        ensures
            r.0 == (if self@.flag_dc != 0 {
                Some(self@.flag_dc)
            } else {
                None
            }),
            r.1 == (if self@.flag_bmp != 0 {
                Some(self@.flag_bmp)
            } else {
                None
            }),
    {
        let dc = if self.flag_dc != 0 {
            Some(self.flag_dc)
        } else {
            None
        };
        let bmp = if self.flag_bmp != 0 {
            Some(self.flag_bmp)
        } else {
            None
        };
        (dc, bmp)
    }

    /// Records the caret flag just built for `langid`.
    pub fn install_caret_flag(&mut self, langid: u32, dc: usize, bmp: usize)
        ensures
            final(self)@ == spec_install_caret_flag(old(self)@, langid, dc, bmp),
    {
        self.flag_dc = dc;
        self.flag_bmp = bmp;
        self.last_caret_layout = langid;
    }

    /// What the caret window paints: the flag's device context and size (22
    /// by 16), when a flag was built.
    pub fn caret_paint_source(&self) -> (r: Option<(usize, i32, i32)>)
        ensures
            r == (if self@.flag_dc != 0 {
                Some((self@.flag_dc, FLAG_W, FLAG_H))
            } else {
                None
            }),
    {
        if self.flag_dc != 0 {
            Some((self.flag_dc, FLAG_W, FLAG_H))
        } else {
            None
        }
    }

    /// The source flag bitmap already loaded for `langid`.
    pub fn cached_flag_source(&self, langid: u32) -> (r: Option<usize>)
        ensures
            r == (if self@.flag_sources.contains_key(langid) {
                Some(self@.flag_sources[langid])
            } else {
                None
            }),
    {
        match self.src_cache.get(&langid) {
            Some(p) => Some(*p),
            None => None,
        }
    }

    /// Records the source flag bitmap loaded for `langid`.
    pub fn remember_flag_source(&mut self, langid: u32, bmp: usize)
        ensures
            final(self)@ == (OverlayModel {
                flag_sources: old(self)@.flag_sources.insert(langid, bmp),
                ..old(self)@
            }),
    {
        self.src_cache.insert(langid, bmp);
    }

    /// What to do with the cursors on this tick; `kind` is the kind of the
    /// cursor shown now, if it is the I-beam or the arrow.
    pub fn cursor_tick(&self, fullscreen: bool, kind: Option<CursorKind>, langid: u32) -> (a: CursorAction)
        ensures
            a == spec_cursor_action(self@, fullscreen, kind, langid),
    {
        if fullscreen {
            return CursorAction::Nothing;
        }
        let k = match kind {
            Some(k) => k,
            None => return CursorAction::Nothing,
        };
        if langid == 0 {
            return if self.cursor_kind.is_some() {
                CursorAction::Restore
            } else {
                CursorAction::Nothing
            };
        }
        if self.cursor_kind == Some(k) && self.cursor_layout == langid {
            return CursorAction::Nothing;
        }
        CursorAction::Compose(
            CursorRequest {
                kind: k,
                langid,
                load_ibeam_draft: self.ibeam_draft == 0,
                load_arrow_draft: self.arrow_draft == 0,
            },
        )
    }

    /// Records the images loaded for `request` (a handle passed for an image
    /// that was not requested is ignored) and returns the image for the
    /// requested kind (0: it could not be loaded, and nothing is composed).
    pub fn store_drafts(&mut self, request: &CursorRequest, ibeam: usize, arrow: usize) -> (draft: usize)
        ensures
            final(self)@ == spec_store_drafts(old(self)@, *request, ibeam, arrow),
            draft == spec_draft_for(final(self)@, request.kind),
    {
        if request.load_ibeam_draft {
            self.ibeam_draft = ibeam;
        }
        if request.load_arrow_draft {
            self.arrow_draft = arrow;
        }
        match request.kind {
            CursorKind::IBeam => self.ibeam_draft,
            CursorKind::Arrow => self.arrow_draft,
        }
    }

    /// Records that a flagged cursor of `kind` and `langid` was installed.
    pub fn cursor_installed(&mut self, kind: CursorKind, langid: u32)
        ensures
            final(self)@ == spec_cursor_installed(old(self)@, kind, langid),
    {
        self.cursor_kind = Some(kind);
        self.cursor_layout = langid;
    }

    /// Records that the system's own cursors were restored.
    pub fn cursors_restored(&mut self)
        ensures
            final(self)@ == spec_cursors_restored(old(self)@),
    {
        self.cursor_kind = None;
        self.cursor_layout = 0;
    }
}

} // verus!
