use lunar_security::validate::{char_is_plain, decide, has_only_plain_chars, validate_text};

#[test]
fn validate_rejects_long_text() {
    let long = "1".repeat(1001);
    assert!(!validate_text(&long));
    let wide = "\u{e9}".repeat(501);
    assert!(!validate_text(&wide));
}

#[test]
fn validate_rejects_markup() {
    assert!(!validate_text("<"));
    assert!(!validate_text("SELECT '<b>'"));
    assert!(!validate_text("\"a\""));
    assert!(!validate_text("SELECT 'a'"));
}

#[test]
fn validate_rejects_what_a_guard_rejects() {
    assert!(!validate_text("SELECT * FROM users"));
    assert!(!validate_text("1"));
    assert!(!validate_text(""));
    assert!(!validate_text("hello"));
}

#[test]
fn decide_accepts_when_all_checks_pass() {
    assert!(decide("hello", true, true));
    assert!(decide("", true, true));
    assert!(decide("line one\nline two\r\n\ttabbed", true, true));
    let longest = "a".repeat(1000);
    assert!(decide(&longest, true, true));
}

#[test]
fn decide_rejects_on_any_failed_check() {
    assert!(!decide("hello", false, true));
    assert!(!decide("hello", true, false));
    assert!(!decide("hello", false, false));
    let long = "a".repeat(1001);
    assert!(!decide(&long, true, true));
    let wide = "\u{4e16}".repeat(334);
    assert_eq!(wide.len(), 1002);
    assert!(!decide(&wide, true, true));
    let fits = "\u{4e16}".repeat(333);
    assert!(decide(&fits, true, true));
    assert!(!decide("a<b", true, true));
    assert!(!decide("a>b", true, true));
    assert!(!decide("it's", true, true));
    assert!(!decide("say \"hi\"", true, true));
    assert!(!decide("a\0b", true, true));
    assert!(!decide("a\u{1b}b", true, true));
}

#[test]
fn plain_text_holds_no_markup_null_or_control() {
    assert!(has_only_plain_chars(""));
    assert!(has_only_plain_chars("abc 123 &;?/"));
    assert!(has_only_plain_chars("a\nb\rc\td"));
    assert!(has_only_plain_chars("h\u{e9}llo \u{4e16}\u{754c}"));
    assert!(!has_only_plain_chars("<"));
    assert!(!has_only_plain_chars(">"));
    assert!(!has_only_plain_chars("'"));
    assert!(!has_only_plain_chars("\""));
    assert!(!has_only_plain_chars("\0"));
    assert!(!has_only_plain_chars("abc\u{7}"));
    assert!(!has_only_plain_chars("\u{7f}"));
    assert!(!has_only_plain_chars("\u{85}"));
    assert!(!has_only_plain_chars("\u{9f}"));
    assert!(has_only_plain_chars("\u{a0}"));
    assert!(has_only_plain_chars("~"));
    assert!(has_only_plain_chars(" "));
}

#[test]
fn plain_chars_agree_with_the_control_category() {
    let mut code: u32 = 0;
    while code < 0x300 {
        let c = char::from_u32(code).unwrap();
        let markup = c == '<' || c == '>' || c == '\'' || c == '"';
        let control = c.is_control() && c != '\n' && c != '\r' && c != '\t';
        assert_eq!(char_is_plain(c), !markup && !control);
        code += 1;
    }
}
