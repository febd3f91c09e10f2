use flag_on_caret::geometry::{
    classify_cursor, covers_screen, cursor_canvas_side, cursor_composition, draft_file_name,
    flag_file_name, langid_from_hkl, system_cursor_id, CursorDraw, CursorKind, CursorLayer,
    FLAG_H, FLAG_W, OCR_IBEAM, OCR_NORMAL,
};

#[test]
fn langid_is_low_word() {
    assert_eq!(langid_from_hkl(0x0419_0419), 0x0419);
    assert_eq!(langid_from_hkl(0xF002_0409), 0x0409);
    assert_eq!(langid_from_hkl(0), 0);
    assert_eq!(langid_from_hkl(0x1_0000), 0);
}

#[test]
fn flag_file_name_appends_png() {
    assert_eq!(flag_file_name("ru-RU"), "ru-RU.png");
    assert_eq!(flag_file_name(""), ".png");
}

#[test]
fn draft_files() {
    assert_eq!(draft_file_name(CursorKind::IBeam), "cursor.png");
    assert_eq!(draft_file_name(CursorKind::Arrow), "arrow.png");
}

#[test]
fn system_cursor_ids() {
    assert_eq!(system_cursor_id(CursorKind::IBeam), OCR_IBEAM);
    assert_eq!(system_cursor_id(CursorKind::Arrow), OCR_NORMAL);
    assert_eq!(OCR_NORMAL, 32512);
    assert_eq!(OCR_IBEAM, 32513);
}

#[test]
fn classify_prefers_ibeam() {
    assert_eq!(classify_cursor(7, 7, 9), Some(CursorKind::IBeam));
    assert_eq!(classify_cursor(9, 7, 9), Some(CursorKind::Arrow));
    assert_eq!(classify_cursor(5, 5, 5), Some(CursorKind::IBeam));
    assert_eq!(classify_cursor(4, 7, 9), None);
}

#[test]
fn fullscreen_window() {
    assert!(covers_screen(0, 0, 1920, 1080, 1920, 1080));
    assert!(covers_screen(-8, -8, 1928, 1088, 1920, 1080));
    assert!(!covers_screen(0, 0, 1919, 1080, 1920, 1080));
    assert!(!covers_screen(0, 0, 1920, 1000, 1920, 1080));
}

#[test]
fn caret_flag_size() {
    assert_eq!((FLAG_W, FLAG_H), (22, 16));
}

#[test]
fn ibeam_composition() {
    assert_eq!(cursor_canvas_side(), 96);
    assert_eq!(
        cursor_composition(CursorKind::IBeam),
        vec![
            CursorDraw { layer: CursorLayer::Draft, x: 32, y: 32, w: 32, h: 32 },
            CursorDraw { layer: CursorLayer::Flag, x: 52, y: 70, w: 18, h: 12 },
        ]
    );
}

#[test]
fn arrow_composition() {
    assert_eq!(
        cursor_composition(CursorKind::Arrow),
        vec![
            CursorDraw { layer: CursorLayer::Flag, x: 52, y: 70, w: 18, h: 12 },
            CursorDraw { layer: CursorLayer::Draft, x: 48, y: 48, w: 32, h: 32 },
        ]
    );
}

#[test]
fn composition_matches_float_formulas() {
    let cs = 32i32;
    let fx = (cs as f32 * (1.5 + 4.0 / 32.0)) as i32;
    let fy = (cs as f32 * (1.5 + 22.0 / 32.0)) as i32;
    let off = (cs as f32 * 1.5) as i32;
    let draws = cursor_composition(CursorKind::Arrow);
    assert_eq!((draws[0].x, draws[0].y), (fx, fy));
    assert_eq!((draws[1].x, draws[1].y), (off, off));
}
