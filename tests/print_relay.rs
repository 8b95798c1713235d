use hyperlight_python::relay::{hl_print_char, hl_print_str};

#[test]
fn ascii_byte_is_forwarded_as_itself() {
    assert_eq!(hl_print_char(b'A'), "A");
    assert_eq!(hl_print_char(b'\n'), "\n");
}

#[test]
fn non_ascii_byte_becomes_a_question_mark() {
    assert_eq!(hl_print_char(0xc3), "?");
    assert_eq!(hl_print_char(0xff), "?");
}

#[test]
fn c_string_is_cut_at_the_terminator() {
    assert_eq!(hl_print_str(b"hello\0world"), "hello");
    assert_eq!(hl_print_str(b"\0"), "");
    assert_eq!(hl_print_str(b"no terminator"), "no terminator");
}

#[test]
fn multibyte_text_is_decoded() {
    assert_eq!(hl_print_str("grüße\0".as_bytes()), "grüße");
}

#[test]
fn invalid_utf8_is_replaced_by_the_marker() {
    assert_eq!(hl_print_str(&[0x66, 0xff, 0x6f, 0]), "Invalid UTF-8 string");
    assert_eq!(hl_print_str(&[0xff, 0, 0x41]), "Invalid UTF-8 string");
    assert_eq!(hl_print_str(&[0x41, 0, 0xff]), "A");
}
