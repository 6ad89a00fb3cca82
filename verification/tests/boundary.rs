use lunar_security::boundary;
use lunar_security::{PreparedStatement, RateLimiter};

#[test]
fn decode_reads_utf8_and_rejects_the_rest() {
    assert_eq!(boundary::decode(Some(b"hello")), Some("hello"));
    assert_eq!(boundary::decode(Some(b"")), Some(""));
    assert_eq!(boundary::decode(Some("h\u{e9}".as_bytes())), Some("h\u{e9}"));
    assert_eq!(boundary::decode(None), None);
    assert_eq!(boundary::decode(Some(&[0xff, 0xfe])), None);
    assert_eq!(boundary::decode(Some(&[0xc3])), None);
    assert_eq!(boundary::decode(Some(&[0xed, 0xa0, 0x80])), None);
}

#[test]
fn terminate_appends_a_zero_byte() {
    assert_eq!(boundary::terminate("abc"), Some(vec![b'a', b'b', b'c', 0]));
    assert_eq!(boundary::terminate(""), Some(vec![0]));
    assert_eq!(boundary::terminate("\u{e9}"), Some(vec![0xc3, 0xa9, 0]));
    assert_eq!(boundary::terminate("a\0b"), None);
    assert_eq!(boundary::terminate("\0"), None);
}

#[test]
fn boundary_validate_rejects_missing_and_invalid_input() {
    assert!(!boundary::validate_input(None));
    assert!(!boundary::validate_input(Some(&[0xff])));
    let long = vec![b'1'; 1001];
    assert!(!boundary::validate_input(Some(&long)));
    assert!(!boundary::validate_input(Some(b"<script>")));
    assert!(!boundary::validate_input(Some(b"SELECT * FROM users")));
}

#[test]
fn boundary_guards_reject_missing_and_invalid_input() {
    assert!(boundary::prevent_sql_injection(Some(b"SELECT * FROM users")));
    assert!(!boundary::prevent_sql_injection(Some(b"SELECT * FROM")));
    assert!(!boundary::prevent_sql_injection(None));
    assert!(!boundary::prevent_sql_injection(Some(&[0x80])));
    assert!(boundary::prevent_nosql_injection(Some(b"{\"name\": \"John\"}")));
    assert!(!boundary::prevent_nosql_injection(Some(b"{\"$where\": 1}")));
    assert!(!boundary::prevent_nosql_injection(None));
    assert!(!boundary::prevent_nosql_injection(Some(&[0x80])));
}

#[test]
fn boundary_sanitize_returns_a_terminated_buffer() {
    assert_eq!(boundary::sanitize_input(Some(b"a<b")), Some(b"a&lt;b\0".to_vec()));
    assert_eq!(boundary::sanitize_input(Some(b"")), Some(vec![0]));
    assert_eq!(boundary::sanitize_input(None), None);
    assert_eq!(boundary::sanitize_input(Some(&[0xff])), None);
    assert_eq!(boundary::sanitize_input(Some(&[b'a', 0, b'b'])), None);
}

#[test]
fn boundary_statement_round_trip() {
    let mut stmt = boundary::prepared_statement_new(Some(b"SELECT * FROM t WHERE id = ?")).unwrap();
    boundary::bind_param(&mut stmt, Some(b"1"));
    assert_eq!(boundary::execute(&stmt), Some(b"SELECT * FROM t WHERE id = 1\0".to_vec()));
}

#[test]
fn boundary_statement_construction_fails_cleanly() {
    assert!(boundary::prepared_statement_new(Some(b"")).is_none());
    assert!(boundary::prepared_statement_new(None).is_none());
    assert!(boundary::prepared_statement_new(Some(&[0xff])).is_none());
    let long = vec![b'a'; 1001];
    assert!(boundary::prepared_statement_new(Some(&long)).is_none());
    let longest = vec![b'a'; 1000];
    assert!(boundary::prepared_statement_new(Some(&longest)).is_some());
}

#[test]
fn boundary_bind_ignores_missing_and_invalid_parameters() {
    let mut stmt = PreparedStatement::new("? ?").unwrap();
    boundary::bind_param(&mut stmt, None);
    boundary::bind_param(&mut stmt, Some(&[0xff]));
    boundary::bind_param(&mut stmt, Some(b"x"));
    assert_eq!(stmt.execute(), "x ?");
}

#[test]
fn boundary_execute_refuses_a_zero_byte() {
    let mut stmt = PreparedStatement::new("v = ?").unwrap();
    stmt.bind_param("a\0b");
    assert_eq!(boundary::execute(&stmt), None);
}

#[test]
fn boundary_admission_rejects_missing_and_invalid_identifiers() {
    let mut limiter = RateLimiter::new(2);
    assert!(!boundary::check_rate_limit(&mut limiter, None));
    assert!(!boundary::check_rate_limit(&mut limiter, Some(&[0xff])));
    assert!(boundary::check_rate_limit(&mut limiter, Some(b"A")));
    assert!(boundary::check_rate_limit(&mut limiter, Some(b"B")));
    assert!(!boundary::check_rate_limit(&mut limiter, Some(b"C")));
    assert!(!boundary::check_rate_limit(&mut limiter, Some(b"A")));
}
