use flag_on_caret::geometry::{CursorKind, FLAG_H, FLAG_W};
use flag_on_caret::overlay::{
    caret_needs_position, CaretAction, CaretGuards, CursorAction, CursorRequest, Overlay,
};

fn guards(langid: u32) -> CaretGuards {
    CaretGuards { langid, fullscreen: false, menu_open: false, secure_desktop: false }
}

#[test]
fn caret_looked_for_only_without_guards() {
    assert!(caret_needs_position(guards(0x0409)));
    assert!(!caret_needs_position(guards(0)));
    assert!(!caret_needs_position(CaretGuards { fullscreen: true, ..guards(0x0409) }));
    assert!(!caret_needs_position(CaretGuards { menu_open: true, ..guards(0x0409) }));
    assert!(!caret_needs_position(CaretGuards { secure_desktop: true, ..guards(0x0409) }));
}

#[test]
fn caret_hidden_when_guarded_or_without_position() {
    let mut o = Overlay::new();
    assert_eq!(o.caret_tick(guards(0), Some((10, 10))), CaretAction::Hide);
    assert_eq!(o.caret_tick(CaretGuards { fullscreen: true, ..guards(0x0419) }, Some((10, 10))), CaretAction::Hide);
    assert_eq!(o.caret_tick(CaretGuards { menu_open: true, ..guards(0x0419) }, Some((10, 10))), CaretAction::Hide);
    assert_eq!(o.caret_tick(CaretGuards { secure_desktop: true, ..guards(0x0419) }, Some((10, 10))), CaretAction::Hide);
    assert_eq!(o.caret_tick(guards(0x0419), None), CaretAction::Hide);
}

#[test]
fn first_show_builds_flag_at_offset() {
    let mut o = Overlay::new();
    assert_eq!(
        o.caret_tick(guards(0x0419), Some((100, 200))),
        CaretAction::Show { x: 116, y: 188, w: FLAG_W, h: FLAG_H, rebuild: true }
    );
}

#[test]
fn still_caret_is_left_alone() {
    let mut o = Overlay::new();
    assert_eq!(
        o.caret_tick(guards(0x0419), Some((5, 5))),
        CaretAction::Show { x: 21, y: -7, w: 22, h: 16, rebuild: true }
    );
    o.install_caret_flag(0x0419, 11, 12);
    assert_eq!(o.caret_paint_source(), Some((11, 22, 16)));
    assert_eq!(o.caret_tick(guards(0x0419), Some((5, 5))), CaretAction::Keep);
    assert_eq!(o.caret_tick(guards(0x0419), Some((5, 5))), CaretAction::Keep);
}

#[test]
fn moved_caret_is_followed_without_rebuild() {
    let mut o = Overlay::new();
    o.caret_tick(guards(0x0419), Some((5, 5)));
    o.install_caret_flag(0x0419, 11, 12);
    assert_eq!(
        o.caret_tick(guards(0x0419), Some((6, 5))),
        CaretAction::Show { x: 22, y: -7, w: 22, h: 16, rebuild: false }
    );
    assert_eq!(o.caret_tick(guards(0x0419), Some((6, 5))), CaretAction::Keep);
}

#[test]
fn hidden_window_is_shown_again_at_same_place() {
    let mut o = Overlay::new();
    o.caret_tick(guards(0x0419), Some((5, 5)));
    o.install_caret_flag(0x0419, 11, 12);
    assert_eq!(o.caret_tick(guards(0x0419), None), CaretAction::Hide);
    assert_eq!(
        o.caret_tick(guards(0x0419), Some((5, 5))),
        CaretAction::Show { x: 21, y: -7, w: 22, h: 16, rebuild: false }
    );
}

#[test]
fn layout_change_rebuilds_in_place() {
    let mut o = Overlay::new();
    o.caret_tick(guards(0x0419), Some((5, 5)));
    o.install_caret_flag(0x0419, 11, 12);
    assert_eq!(
        o.caret_tick(guards(0x0409), Some((5, 5))),
        CaretAction::Show { x: 21, y: -7, w: 22, h: 16, rebuild: true }
    );
    assert_eq!(o.caret_flag_to_release(), (Some(11), Some(12)));
}

#[test]
fn failed_flag_build_is_retried() {
    let mut o = Overlay::new();
    assert_eq!(o.caret_flag_to_release(), (None, None));
    o.caret_tick(guards(0x0419), Some((5, 5)));
    o.install_caret_flag(0x0419, 0, 12);
    assert_eq!(o.caret_paint_source(), None);
    assert_eq!(
        o.caret_tick(guards(0x0419), Some((5, 5))),
        CaretAction::Show { x: 21, y: -7, w: 22, h: 16, rebuild: true }
    );
    assert_eq!(o.caret_flag_to_release(), (None, Some(12)));
}

#[test]
fn flag_sources_are_cached_per_layout() {
    let mut o = Overlay::new();
    assert_eq!(o.cached_flag_source(0x0419), None);
    o.remember_flag_source(0x0419, 77);
    o.remember_flag_source(0x0409, 88);
    assert_eq!(o.cached_flag_source(0x0419), Some(77));
    assert_eq!(o.cached_flag_source(0x0409), Some(88));
    assert_eq!(o.cached_flag_source(0x0407), None);
}

#[test]
fn cursor_not_composed_when_not_applicable() {
    let o = Overlay::new();
    assert_eq!(o.cursor_tick(true, Some(CursorKind::Arrow), 0x0409), CursorAction::Nothing);
    assert_eq!(o.cursor_tick(false, None, 0x0409), CursorAction::Nothing);
    assert_eq!(o.cursor_tick(false, Some(CursorKind::Arrow), 0), CursorAction::Nothing);
}

#[test]
fn first_cursor_requests_both_drafts() {
    let o = Overlay::new();
    assert_eq!(
        o.cursor_tick(false, Some(CursorKind::IBeam), 0x0409),
        CursorAction::Compose(CursorRequest {
            kind: CursorKind::IBeam,
            langid: 0x0409,
            load_ibeam_draft: true,
            load_arrow_draft: true
        })
    );
}

fn compose(o: &Overlay, kind: CursorKind, langid: u32) -> CursorRequest {
    match o.cursor_tick(false, Some(kind), langid) {
        CursorAction::Compose(r) => r,
        other => panic!("expected a cursor to compose, got {:?}", other),
    }
}

#[test]
fn drafts_are_loaded_once() {
    let mut o = Overlay::new();
    let r = compose(&o, CursorKind::Arrow, 0x0409);
    assert_eq!(o.store_drafts(&r, 5, 6), 6);
    let r2 = compose(&o, CursorKind::IBeam, 0x0409);
    assert!(!r2.load_ibeam_draft && !r2.load_arrow_draft);
    assert_eq!(o.store_drafts(&r2, 99, 98), 5);
}

#[test]
fn missing_draft_stays_requested() {
    let mut o = Overlay::new();
    let r = compose(&o, CursorKind::IBeam, 0x0409);
    assert_eq!(o.store_drafts(&r, 0, 6), 0);
    let r2 = compose(&o, CursorKind::IBeam, 0x0409);
    assert!(r2.load_ibeam_draft && !r2.load_arrow_draft);
}

#[test]
fn cursor_not_rebaked_for_same_kind_and_layout() {
    let mut o = Overlay::new();
    o.cursor_installed(CursorKind::Arrow, 0x0409);
    assert_eq!(o.cursor_tick(false, Some(CursorKind::Arrow), 0x0409), CursorAction::Nothing);
    assert_eq!(o.cursor_tick(false, Some(CursorKind::Arrow), 0x0409), CursorAction::Nothing);
    assert!(matches!(o.cursor_tick(false, Some(CursorKind::IBeam), 0x0409), CursorAction::Compose(_)));
    assert!(matches!(o.cursor_tick(false, Some(CursorKind::Arrow), 0x0419), CursorAction::Compose(_)));
}

#[test]
fn unknown_layout_restores_cursors_once() {
    let mut o = Overlay::new();
    o.cursor_installed(CursorKind::IBeam, 0x0409);
    assert_eq!(o.cursor_tick(false, Some(CursorKind::IBeam), 0), CursorAction::Restore);
    o.cursors_restored();
    assert_eq!(o.cursor_tick(false, Some(CursorKind::IBeam), 0), CursorAction::Nothing);
    assert!(matches!(o.cursor_tick(false, Some(CursorKind::IBeam), 0x0409), CursorAction::Compose(_)));
}
