use lunar_security::PreparedStatement;

#[test]
fn test_prepared_statement() {
    let mut stmt = PreparedStatement::new("SELECT * FROM users WHERE id = ?").unwrap();
    stmt.bind_param("1");
    assert_eq!(stmt.execute(), "SELECT * FROM users WHERE id = 1");
}

#[test]
fn statement_fills_one_placeholder() {
    let mut stmt = PreparedStatement::new("SELECT * FROM t WHERE id = ?").unwrap();
    stmt.bind_param("1");
    assert_eq!(stmt.execute(), "SELECT * FROM t WHERE id = 1");
}

#[test]
fn statement_rejects_empty_query() {
    assert!(PreparedStatement::new("").is_err());
}

#[test]
fn statement_bounds_the_query_at_a_thousand_characters() {
    let longest = "a".repeat(1000);
    let too_long = "a".repeat(1001);
    assert!(PreparedStatement::new(&longest).is_ok());
    assert!(PreparedStatement::new(&too_long).is_err());
    assert!(PreparedStatement::new("a").is_ok());
}

#[test]
fn statement_counts_characters_not_bytes() {
    let wide = "\u{e9}".repeat(1000);
    assert_eq!(wide.len(), 2000);
    assert!(PreparedStatement::new(&wide).is_ok());
    let wider = "\u{e9}".repeat(1001);
    assert!(PreparedStatement::new(&wider).is_err());
}

#[test]
fn statement_without_parameters_is_its_query() {
    let stmt = PreparedStatement::new("SELECT ? FROM ?").unwrap();
    assert_eq!(stmt.execute(), "SELECT ? FROM ?");
}

#[test]
fn statement_fills_in_bind_order() {
    let mut stmt = PreparedStatement::new("INSERT INTO t VALUES (?, ?, ?)").unwrap();
    stmt.bind_param("a");
    stmt.bind_param("b");
    stmt.bind_param("c");
    assert_eq!(stmt.execute(), "INSERT INTO t VALUES (a, b, c)");
}

#[test]
fn statement_leaves_unfilled_placeholders() {
    let mut stmt = PreparedStatement::new("? and ? and ?").unwrap();
    stmt.bind_param("x");
    assert_eq!(stmt.execute(), "x and ? and ?");
}

#[test]
fn statement_ignores_excess_parameters() {
    let mut stmt = PreparedStatement::new("id = ?").unwrap();
    stmt.bind_param("1");
    stmt.bind_param("2");
    stmt.bind_param("3");
    assert_eq!(stmt.execute(), "id = 1");
    let mut bare = PreparedStatement::new("SELECT 1").unwrap();
    bare.bind_param("unused");
    assert_eq!(bare.execute(), "SELECT 1");
}

#[test]
fn statement_sanitises_what_it_binds() {
    let mut stmt = PreparedStatement::new("name = ?").unwrap();
    stmt.bind_param("<b>'x' & \"y\"</b>");
    assert_eq!(stmt.execute(), "name = &lt;b&gt;&#x27;x&#x27; &amp; &quot;y&quot;&lt;/b&gt;");
}

#[test]
fn statement_fills_placeholders_of_the_query_only() {
    let mut stmt = PreparedStatement::new("a = ? and b = ?").unwrap();
    stmt.bind_param("?");
    stmt.bind_param("2");
    assert_eq!(stmt.execute(), "a = ? and b = 2");
}

#[test]
fn statement_execute_can_be_repeated() {
    let mut stmt = PreparedStatement::new("x = ?").unwrap();
    stmt.bind_param("1");
    assert_eq!(stmt.execute(), "x = 1");
    assert_eq!(stmt.execute(), "x = 1");
    stmt.bind_param("2");
    assert_eq!(stmt.execute(), "x = 1");
}
