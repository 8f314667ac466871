use solix_monitor::text::{decode_string, finish_text, text_bytes_of};

#[test]
fn decodes_strings() {
    assert_eq!(decode_string(&[0x4131, 0x3758, 0x3800]), "A17X8");
}

#[test]
fn text_stops_at_first_zero_byte() {
    assert_eq!(text_bytes_of(&[0x4142, 0x0043, 0x4445]), vec![0x41, 0x42]);
    assert_eq!(decode_string(&[0x4142, 0x0043, 0x4445]), "AB");
    assert_eq!(decode_string(&[0x0041]), "");
}

#[test]
fn text_without_zero_byte_runs_to_the_end() {
    assert_eq!(text_bytes_of(&[0x4142, 0x4344]), vec![0x41, 0x42, 0x43, 0x44]);
    assert_eq!(decode_string(&[0x4142, 0x4344]), "ABCD");
}

#[test]
fn empty_registers_give_empty_text() {
    assert_eq!(decode_string(&[]), "");
    assert_eq!(text_bytes_of(&[]), Vec::<u8>::new());
}

#[test]
fn surrounding_white_space_is_trimmed() {
    assert_eq!(decode_string(&[0x2041, 0x4220, 0x2000]), "AB");
    assert_eq!(decode_string(&[0x0920, 0x2020]), "");
    assert_eq!(finish_text("  v1.2\t\n"), "v1.2");
    assert_eq!(finish_text("a b"), "a b");
}

#[test]
fn invalid_utf8_is_replaced() {
    assert_eq!(decode_string(&[0x41FF, 0x4200]), "A\u{FFFD}B");
}

#[test]
fn multibyte_utf8_is_decoded() {
    // "ä" is 0xC3 0xA4 in UTF-8
    assert_eq!(decode_string(&[0xC3A4, 0x0000]), "ä");
}
