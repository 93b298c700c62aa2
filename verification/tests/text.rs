use rosin::text::{decode_clipboard_text, utf8_to_utf16};

#[test]
fn utf8_to_utf16_appends_a_terminating_zero() {
    assert_eq!(utf8_to_utf16(""), vec![0]);
    assert_eq!(utf8_to_utf16("open"), vec![0x6F, 0x70, 0x65, 0x6E, 0]);
}

#[test]
fn utf8_to_utf16_encodes_every_plane() {
    assert_eq!(utf8_to_utf16("é€"), vec![0xE9, 0x20AC, 0]);
    assert_eq!(utf8_to_utf16("\u{1F600}"), vec![0xD83D, 0xDE00, 0]);
    assert_eq!(utf8_to_utf16("\u{10FFFF}"), vec![0xDBFF, 0xDFFF, 0]);
    let s = "a\u{1F600}b\u{FFFF}";
    let mut expected: Vec<u16> = s.encode_utf16().collect();
    expected.push(0);
    assert_eq!(utf8_to_utf16(s), expected);
}

fn units(s: &str) -> Vec<u16> {
    let mut v: Vec<u16> = s.encode_utf16().collect();
    v.push(0);
    v
}

#[test]
fn clipboard_crlf_becomes_lf() {
    assert_eq!(decode_clipboard_text(&units("one\r\ntwo\r\n")), "one\ntwo\n");
}

#[test]
fn clipboard_text_without_cr_is_unchanged() {
    assert_eq!(decode_clipboard_text(&units("plain\ntext é")), "plain\ntext é");
}

#[test]
fn clipboard_lone_cr_before_a_character_is_kept() {
    assert_eq!(decode_clipboard_text(&units("a\rb")), "a\rb");
}

#[test]
fn clipboard_cr_at_the_end_or_before_cr_is_dropped() {
    assert_eq!(decode_clipboard_text(&units("a\r")), "a");
    assert_eq!(decode_clipboard_text(&units("a\r\rb")), "a\rb");
    assert_eq!(decode_clipboard_text(&units("\r\r\n")), "\n");
}

#[test]
fn clipboard_text_ends_at_the_first_zero() {
    assert_eq!(decode_clipboard_text(&[0x68, 0x69, 0, 0x78]), "hi");
    assert_eq!(decode_clipboard_text(&[0x68, 0x69]), "hi");
    assert_eq!(decode_clipboard_text(&[]), "");
}
