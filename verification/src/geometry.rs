//! Fixed parameters of the overlay, the layout identifier of a keyboard
//! layout handle, the file names of the images, the full-screen test and the
//! composition of a flagged cursor.

use vstd::prelude::*;

verus! {

broadcast use vstd::string::group_string_axioms;

/// Horizontal offset of the caret flag from the caret.
pub const DX: i32 = 16;

/// Vertical offset of the caret flag from the caret.
pub const DY: i32 = -12;

/// Width of the caret flag.
pub const FLAG_W: i32 = 22;

/// Height of the caret flag (three quarters of its width).
pub const FLAG_H: i32 = 16;

/// Side of a cursor image; a composed cursor is three times as large, with
/// the cursor drawn in its middle.
pub const CURSOR_SIZE: i32 = 32;

/// Width of the flag on a cursor, for a cursor of side 32.
pub const CFLAG_W: i32 = 18;

/// Height of the flag on a cursor, for a cursor of side 32.
pub const CFLAG_H: i32 = 12;

/// Offset of the flag from the cursor's left edge, for a cursor of side 32.
pub const CFLAG_X: i32 = 4;

/// Offset of the flag from the cursor's top edge, for a cursor of side 32.
pub const CFLAG_Y: i32 = 22;

/// The system identifier of the normal (arrow) cursor.
pub const OCR_NORMAL: u32 = 32512;

/// The system identifier of the text-selection (I-beam) cursor.
pub const OCR_IBEAM: u32 = 32513;

/// Which system cursor is shown.
#[derive(Clone, Copy, Debug, PartialEq, Eq, Structural)]
pub enum CursorKind {
    IBeam,
    Arrow,
}

/// What a step of a cursor composition draws.
#[derive(Clone, Copy, Debug, PartialEq, Eq, Structural)]
pub enum CursorLayer {
    /// The cursor image itself.
    Draft,
    /// The layout flag.
    Flag,
}

/// One image drawn onto the cursor canvas, scaled into the given rectangle.
#[derive(Clone, Copy, Debug, PartialEq, Eq, Structural)]
pub struct CursorDraw {
    pub layer: CursorLayer,
    pub x: i32,
    pub y: i32,
    pub w: i32,
    pub h: i32,
}

/// The language identifier of a keyboard layout handle: its low word.
pub fn langid_from_hkl(hkl: usize) -> (langid: u32)
    ensures
        langid == hkl % 0x10000,
{
    let low: u32 = (hkl as u32) & 0xFFFF;
    assert((hkl as u32) & 0xFFFF == hkl % 0x10000) by (bit_vector);
    low
}

/// The file name of the flag image of a locale: the locale name and ".png".
pub fn flag_file_name(locale: &str) -> (name: String)
    ensures
        name@ == locale@ + ".png"@,
{
    let mut name = String::from_str(locale);
    name.append(".png");
    name
}

/// The file name of the cursor image that the flag is drawn onto.
pub fn draft_file_name(kind: CursorKind) -> (name: &'static str)
    ensures
        kind == CursorKind::IBeam ==> name@ == "cursor.png"@,
        kind == CursorKind::Arrow ==> name@ == "arrow.png"@,
{
    match kind {
        CursorKind::IBeam => "cursor.png",
        CursorKind::Arrow => "arrow.png",
    }
}

/// The system cursor that a composed cursor of this kind replaces.
pub fn system_cursor_id(kind: CursorKind) -> (id: u32)
    ensures
        id == (if kind == CursorKind::IBeam {
            OCR_IBEAM
        } else {
            OCR_NORMAL
        }),
{
    match kind {
        CursorKind::IBeam => OCR_IBEAM,
        CursorKind::Arrow => OCR_NORMAL,
    }
}

/// The kind of the cursor shown now, given its handle and the handles of the
/// system's I-beam and arrow cursors; `None` for any other cursor.
pub fn classify_cursor(current: usize, ibeam: usize, arrow: usize) -> (kind: Option<CursorKind>)
    ensures
        kind == (if current == ibeam {
            Some(CursorKind::IBeam)
        } else if current == arrow {
            Some(CursorKind::Arrow)
        } else {
            None
        }),
{
    if current == ibeam {
        Some(CursorKind::IBeam)
    } else if current == arrow {
        Some(CursorKind::Arrow)
    } else {
        None
    }
}

/// Whether a window with this rectangle covers a screen of this size: it is
/// at least as wide and at least as high.
pub fn covers_screen(left: i32, top: i32, right: i32, bottom: i32, screen_w: i32, screen_h: i32) -> (full: bool)
    requires
        i32::MIN <= right - left <= i32::MAX,
        i32::MIN <= bottom - top <= i32::MAX,
    ensures
        full == (right - left >= screen_w && bottom - top >= screen_h),
{
    (right - left) >= screen_w && (bottom - top) >= screen_h
}

/// Side of a composed cursor canvas.
pub open spec fn spec_canvas_side() -> int {
    CURSOR_SIZE * 3
}

/// The rectangle of the flag on a composed cursor: the cursor sits at one and
/// a half cursor sides from the canvas origin, and the flag at its offset,
/// all scaled from a cursor of side 32.
pub open spec fn spec_flag_draw() -> CursorDraw {
    CursorDraw {
        layer: CursorLayer::Flag,
        x: (CURSOR_SIZE * (48 + CFLAG_X) / 32) as i32,
        y: (CURSOR_SIZE * (48 + CFLAG_Y) / 32) as i32,
        w: (CURSOR_SIZE * CFLAG_W / 32) as i32,
        h: (CURSOR_SIZE * CFLAG_H / 32) as i32,
    }
}

/// What a composed cursor of this kind draws, in order: the I-beam first and
/// the flag over it, or the flag first and the arrow over it.
pub open spec fn spec_cursor_composition(kind: CursorKind) -> Seq<CursorDraw> {
    match kind {
        CursorKind::IBeam => seq![
            CursorDraw {
                layer: CursorLayer::Draft,
                x: CURSOR_SIZE,
                y: CURSOR_SIZE,
                w: CURSOR_SIZE,
                h: CURSOR_SIZE,
            },
            spec_flag_draw(),
        ],
        CursorKind::Arrow => seq![
            spec_flag_draw(),
            CursorDraw {
                layer: CursorLayer::Draft,
                x: (CURSOR_SIZE * 3 / 2) as i32,
                y: (CURSOR_SIZE * 3 / 2) as i32,
                w: CURSOR_SIZE,
                h: CURSOR_SIZE,
            },
        ],
    }
}

/// The numbers of a composed cursor: a 96-pixel canvas, the cursor at (32, 32)
/// for the I-beam and at (48, 48) for the arrow, the flag 18 by 12 at
/// (52, 70); and the caret flag three quarters as high as it is wide.
pub proof fn lemma_composition_numbers()
    ensures
        spec_canvas_side() == 96,
        spec_flag_draw() == (CursorDraw { layer: CursorLayer::Flag, x: 52, y: 70, w: 18, h: 12 }),
        spec_cursor_composition(CursorKind::IBeam)[0] == (CursorDraw {
            layer: CursorLayer::Draft,
            x: 32,
            y: 32,
            w: 32,
            h: 32,
        }),
        spec_cursor_composition(CursorKind::Arrow)[1] == (CursorDraw {
            layer: CursorLayer::Draft,
            x: 48,
            y: 48,
            w: 32,
            h: 32,
        }),
        FLAG_H == FLAG_W * 3 / 4,
        FLAG_W == 22,
        FLAG_H == 16,
        spec_cursor_composition(CursorKind::IBeam).len() == 2,
        spec_cursor_composition(CursorKind::IBeam)[1] == spec_flag_draw(),
        spec_cursor_composition(CursorKind::Arrow).len() == 2,
        spec_cursor_composition(CursorKind::Arrow)[0] == spec_flag_draw(),
{
}

/// The I-beam replaces system cursor 32513 and the arrow system cursor 32512;
/// the offset of the caret flag is 16 to the right and 12 up.
pub proof fn lemma_system_cursor_numbers()
    ensures
        OCR_IBEAM == 32513,
        OCR_NORMAL == 32512,
        DX == 16,
        DY == -12,
{
}

/// The side of the square canvas of a composed cursor.
pub fn cursor_canvas_side() -> (side: i32)
    ensures
        side == spec_canvas_side(),
{
    CURSOR_SIZE * 3
}

fn flag_draw() -> (d: CursorDraw)
    ensures
        d == spec_flag_draw(),
{
    CursorDraw {
        layer: CursorLayer::Flag,
        x: CURSOR_SIZE * (48 + CFLAG_X) / 32,
        y: CURSOR_SIZE * (48 + CFLAG_Y) / 32,
        w: CURSOR_SIZE * CFLAG_W / 32,
        h: CURSOR_SIZE * CFLAG_H / 32,
    }
}

/// The drawing steps of a composed cursor of this kind.
pub fn cursor_composition(kind: CursorKind) -> (draws: Vec<CursorDraw>)
    ensures
        draws@ == spec_cursor_composition(kind),
{
    let mut draws: Vec<CursorDraw> = Vec::new();
    match kind {
        CursorKind::IBeam => {
            draws.push(
                CursorDraw {
                    layer: CursorLayer::Draft,
                    x: CURSOR_SIZE,
                    y: CURSOR_SIZE,
                    w: CURSOR_SIZE,
                    h: CURSOR_SIZE,
                },
            );
            draws.push(flag_draw());
        },
        CursorKind::Arrow => {
            draws.push(flag_draw());
            let off = CURSOR_SIZE * 3 / 2;
            draws.push(
                CursorDraw { layer: CursorLayer::Draft, x: off, y: off, w: CURSOR_SIZE, h: CURSOR_SIZE },
            );
        },
    }
    proof {
        assert(draws@ =~= spec_cursor_composition(kind));
    }
    draws
}

} // verus!
