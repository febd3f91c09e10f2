use flag_on_caret::layout::{console_layout_langid, is_console_class, is_menu_class, resolve_layout};

fn units(s: &str) -> Vec<u16> {
    let mut v: Vec<u16> = s.encode_utf16().collect();
    v.push(0);
    v
}

#[test]
fn console_layout_name_gives_low_word() {
    assert_eq!(console_layout_langid(&units("00000419")), Some(0x0419));
    assert_eq!(console_layout_langid(&units("00010409")), Some(0x0409));
    assert_eq!(console_layout_langid(&units("F002040c")), Some(0x040C));
    assert_eq!(console_layout_langid(&units("0000FFFF")), Some(0xFFFF));
}

#[test]
fn console_layout_name_rejected() {
    assert_eq!(console_layout_langid(&units("0000041")), None);
    assert_eq!(console_layout_langid(&units("000004190")), None);
    assert_eq!(console_layout_langid(&units("0000041G")), None);
    assert_eq!(console_layout_langid(&units("x0000419")), None);
    assert_eq!(console_layout_langid(&[]), None);
    assert_eq!(console_layout_langid(&[0u16; 9]), None);
}

#[test]
fn console_layout_name_ignores_tail_after_terminator() {
    let mut buf = units("00000422");
    buf.extend_from_slice(&[0x41, 0x42]);
    assert_eq!(console_layout_langid(&buf), Some(0x0422));
}

#[test]
fn console_and_menu_classes() {
    assert!(is_console_class("ConsoleWindowClass"));
    assert!(!is_console_class("consolewindowclass"));
    assert!(is_menu_class("#32768"));
    assert!(!is_menu_class("#32770"));
}

#[test]
fn console_layout_is_trusted_alone() {
    assert_eq!(resolve_layout(true, Some(0x0419), 0x0409), 0x0419);
    assert_eq!(resolve_layout(true, None, 0x0409), 0);
    assert_eq!(resolve_layout(false, None, 0x0409), 0x0409);
    assert_eq!(resolve_layout(false, Some(0x0419), 0x0409), 0x0409);
}
