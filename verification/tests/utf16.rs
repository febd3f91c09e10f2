use flag_on_caret::utf16::{
    class_name_from_buffer, decode_utf16_lossy, locale_name_from_buffer, wide, REPLACEMENT_CHAR,
};

#[test]
fn wide_ascii_is_terminated() {
    assert_eq!(wide("ab"), vec![97u16, 98, 0]);
}

#[test]
fn wide_empty_is_only_the_terminator() {
    assert_eq!(wide(""), vec![0u16]);
}

#[test]
fn wide_encodes_surrogate_pairs() {
    assert_eq!(wide("é😀"), vec![0xE9u16, 0xD83D, 0xDE00, 0]);
}

#[test]
fn wide_matches_std_encoding() {
    let s = "FlagOnCaretWnd Привет 😀 ∑";
    let mut expected: Vec<u16> = s.encode_utf16().collect();
    expected.push(0);
    assert_eq!(wide(s), expected);
}

#[test]
fn decode_round_trips_wide() {
    let s = "C:\\flags\\ru-RU.png Ж 𝄞";
    let w = wide(s);
    assert_eq!(decode_utf16_lossy(&w[..w.len() - 1]), s);
}

#[test]
fn decode_joins_surrogate_pair() {
    assert_eq!(decode_utf16_lossy(&[0xD83D, 0xDE00]), "😀");
}

#[test]
fn decode_replaces_unpaired_high_surrogate() {
    let expected: String = [REPLACEMENT_CHAR, 'A'].iter().collect();
    assert_eq!(decode_utf16_lossy(&[0xD800, 0x41]), expected);
}

#[test]
fn decode_replaces_lone_low_surrogate() {
    assert_eq!(decode_utf16_lossy(&[0x41, 0xDC00, 0x42]), "A\u{FFFD}B");
}

#[test]
fn decode_high_surrogate_at_end() {
    assert_eq!(decode_utf16_lossy(&[0x42, 0xDBFF]), "B\u{FFFD}");
}

#[test]
fn decode_matches_std_lossy() {
    let units = [0x48u16, 0xD834, 0xDD1E, 0xDC00, 0xD800, 0xD800, 0xDFFF, 0x0416, 0xFFFF];
    assert_eq!(decode_utf16_lossy(&units), String::from_utf16_lossy(&units));
}

#[test]
fn class_name_reads_reported_prefix() {
    let mut buf = [0u16; 256];
    for (i, u) in "Notepad".encode_utf16().enumerate() {
        buf[i] = u;
    }
    buf[7] = 0x58;
    assert_eq!(class_name_from_buffer(&buf, 7), "Notepad");
}

#[test]
fn class_name_on_failure_is_empty() {
    let buf = [0x41u16; 256];
    assert_eq!(class_name_from_buffer(&buf, 0), "");
    assert_eq!(class_name_from_buffer(&buf, -1), "");
}

#[test]
fn locale_name_drops_terminator() {
    let mut buf = [0u16; 85];
    for (i, u) in "ru-RU".encode_utf16().enumerate() {
        buf[i] = u;
    }
    assert_eq!(locale_name_from_buffer(&buf, 6), Some("ru-RU".to_string()));
}

#[test]
fn locale_name_missing() {
    let buf = [0u16; 85];
    assert_eq!(locale_name_from_buffer(&buf, 1), None);
    assert_eq!(locale_name_from_buffer(&buf, 0), None);
}
