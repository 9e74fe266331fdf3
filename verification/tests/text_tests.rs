use juge_launcher::text::{chars_string, parse_u32, str_chars, u32_string};

#[test]
fn decimal_parsing_accepts_digit_strings_in_range() {
    assert_eq!(parse_u32(&str_chars("0")), Some(0));
    assert_eq!(parse_u32(&str_chars("1234")), Some(1234));
    assert_eq!(parse_u32(&str_chars("0008")), Some(8));
    assert_eq!(parse_u32(&str_chars("4294967295")), Some(u32::MAX));
}

#[test]
fn decimal_parsing_rejects_junk_and_overflow() {
    assert_eq!(parse_u32(&str_chars("")), None);
    assert_eq!(parse_u32(&str_chars("12a")), None);
    assert_eq!(parse_u32(&str_chars("-3")), None);
    assert_eq!(parse_u32(&str_chars("4294967296")), None);
    assert_eq!(parse_u32(&str_chars("99999999999999999999")), None);
}

#[test]
fn decimal_formatting_renders_exact_digits() {
    assert_eq!(u32_string(0), "0");
    assert_eq!(u32_string(7), "7");
    assert_eq!(u32_string(1024), "1024");
    assert_eq!(u32_string(u32::MAX), "4294967295");
}

#[test]
fn char_round_trip_preserves_text() {
    let text = "versions/1.20.1/natives — caminho";
    assert_eq!(chars_string(&str_chars(text)), text);
}
