use mujs::{c_string, c_string_prefix, is_c_compatible, text};

#[test]
fn c_compatible_strings() {
    assert!(is_c_compatible("Hello World!"));
    assert!(is_c_compatible(""));
    assert!(is_c_compatible("Hello Båsse!"));
    assert!(!is_c_compatible("a\0b"));
    assert!(!is_c_compatible("\0"));
}

#[test]
fn c_string_appends_terminator() {
    assert_eq!(c_string("Hi"), b"Hi\0".to_vec());
    assert_eq!(c_string(""), vec![0u8]);
    assert_eq!(c_string("Båsse"), vec![b'B', 0xc3, 0xa5, b's', b's', b'e', 0]);
}

#[test]
fn c_string_prefix_stops_at_nul() {
    assert_eq!(c_string_prefix("ab\0cd"), b"ab\0".to_vec());
    assert_eq!(c_string_prefix("\0"), vec![0u8]);
    assert_eq!(c_string_prefix("This is an error"), b"This is an error\0".to_vec());
}

#[test]
fn text_decodes_utf8() {
    assert_eq!(text(b"Hello World!"), "Hello World!");
    assert_eq!(text(b"Hello B\xc3\xa5sse!"), "Hello B\u{e5}sse!");
    assert_eq!(text(b""), "");
}

#[test]
fn text_replaces_invalid_utf8() {
    assert_eq!(text(b"a\xffb"), "a\u{fffd}b");
    assert_eq!(text(b"\xc3"), "\u{fffd}");
}

#[test]
fn string_round_trip() {
    for s in ["Hello World!", "Hello Båsse!", "", "240.32"] {
        let bytes = c_string(s);
        assert_eq!(text(&bytes[..bytes.len() - 1]), s);
    }
}
