//! The SQL guard: a text passes when it parses as SQL.

use vstd::prelude::*;

verus! {

/// Whether `sqlparser` parses `text` in its generic dialect into a list of
/// statements. The grammar is the parser's own; nothing is stated of it here
/// but that the same text always gives the same answer.
pub uninterp spec fn sql_parse_succeeds(text: Seq<char>) -> bool;

/// `sqlparser::parser::Parser::parse_sql` with `GenericDialect`: `true` where
/// it returns `Ok`, `false` where it returns an error. The statements that it
/// parsed are dropped.
#[verifier::external_body]
fn parses_as_sql(text: &str) -> (ok: bool)
    ensures
        ok == sql_parse_succeeds(text@),
{
    sqlparser::parser::Parser::parse_sql(&sqlparser::dialect::GenericDialect {}, text).is_ok()
}

/// Accepts `input` exactly when it is grammatically well-formed SQL, and
/// rejects it on any parse failure.
///
/// Well-formedness is the whole test: a statement that parses is accepted
/// whatever it would do, a second statement after a semicolon included.
pub fn prevent_sql_injection(input: &str) -> (safe: bool)
    ensures
        safe == sql_parse_succeeds(input@),
{
    parses_as_sql(input)
}

} // verus!
