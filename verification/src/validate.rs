//! The combined validator: a length bound, the two guards, and three checks
//! on the characters, all of which a text has to pass.

use crate::document::{document_query_safe, prevent_nosql_injection};
use crate::sql::{prevent_sql_injection, sql_parse_succeeds};
use crate::text::chars_of;
use vstd::prelude::*;
use vstd::string::StringSliceAdditionalSpecFns;
use vstd::utf8::encode_utf8;

verus! {

/// The greatest length of an accepted text, in bytes of its UTF-8 encoding.
pub const MAX_INPUT_BYTES: usize = 1000;

/// The characters that can open or close markup: `<`, `>`, `'` and `"`.
pub open spec fn is_markup_char(c: char) -> bool {
    c == '<' || c == '>' || c == '\'' || c == '"'
}

/// The control codes: U+0000 to U+001F and U+007F to U+009F.
pub open spec fn is_control_char(c: char) -> bool {
    c <= '\u{1f}' || ('\u{7f}' <= c && c <= '\u{9f}')
}

/// The control codes that a text may hold: newline, carriage return, tab.
pub open spec fn is_layout_char(c: char) -> bool {
    c == '\n' || c == '\r' || c == '\t'
}

/// Whether a text may hold `c`: it is no markup character, not the null
/// character, and no control code other than the three layout characters.
pub open spec fn is_plain_char(c: char) -> bool {
    !is_markup_char(c) && c != '\0' && !(is_control_char(c) && !is_layout_char(c))
}

/// Whether every character of `text` is plain.
pub open spec fn text_is_plain(text: Seq<char>) -> bool {
    forall|i: int| 0 <= i < text.len() ==> is_plain_char(#[trigger] text[i])
}

/// Whether `text` holds a markup character.
pub open spec fn holds_markup(text: Seq<char>) -> bool {
    exists|i: int| 0 <= i < text.len() && is_markup_char(#[trigger] text[i])
}

/// The verdict of the validator on `text`, given what the two guards said.
pub open spec fn verdict(text: Seq<char>, sql_safe: bool, document_safe: bool) -> bool {
    &&& encode_utf8(text).len() <= MAX_INPUT_BYTES
    &&& sql_safe
    &&& document_safe
    &&& text_is_plain(text)
}

/// Whether the validator accepts `text`.
pub open spec fn input_is_accepted(text: Seq<char>) -> bool {
    verdict(text, sql_parse_succeeds(text), document_query_safe(text))
}

/// Whether `c` is plain.
pub fn char_is_plain(c: char) -> (plain: bool)
    ensures
        plain == is_plain_char(c),
{
    if c == '<' || c == '>' || c == '\'' || c == '"' {
        return false;
    }
    if c == '\0' {
        return false;
    }
    let control = c <= '\u{1f}' || ('\u{7f}' <= c && c <= '\u{9f}');
    !(control && c != '\n' && c != '\r' && c != '\t')
}

/// Whether every character of `text` is plain: the three checks on the
/// characters, which a text has to pass after the two guards.
pub fn has_only_plain_chars(text: &str) -> (plain: bool)
    ensures
        plain == text_is_plain(text@),
{
    let chars = chars_of(text);
    let mut at: usize = 0;
    while at < chars.len()
        invariant
            chars@ == text@,
            at <= chars.len(),
            forall|i: int| 0 <= i < at ==> is_plain_char(#[trigger] chars@[i]),
        decreases chars.len() - at,
    {
        if !char_is_plain(chars[at]) {
            return false;
        }
        at += 1;
    }
    true
}

/// Puts the answers of the checks together: the text is accepted when it
/// is short enough, both guards passed it and its characters are plain.
pub fn decide(text: &str, sql_safe: bool, document_safe: bool) -> (accepted: bool)
    ensures
        accepted == verdict(text@, sql_safe, document_safe),
{
    text.as_bytes().len() <= MAX_INPUT_BYTES && sql_safe && document_safe && has_only_plain_chars(text)
}

/// Accepts `text` when it passes every check, in this order: it has at
/// most a thousand bytes, it parses as SQL, it is JSON without an operator
/// key, and it holds no markup character, no null character and no control
/// code but newline, carriage return and tab. The first failure rejects it.
pub fn validate_text(text: &str) -> (accepted: bool)
    ensures
        accepted == input_is_accepted(text@),
        encode_utf8(text@).len() > MAX_INPUT_BYTES ==> !accepted,
        holds_markup(text@) ==> !accepted,
{
    if text.as_bytes().len() > MAX_INPUT_BYTES {
        return false;
    }
    if !prevent_sql_injection(text) {
        return false;
    }
    if !prevent_nosql_injection(text) {
        return false;
    }
    has_only_plain_chars(text)
}

/// A text of more than a thousand bytes is rejected, whatever it holds.
pub proof fn lemma_long_text_is_rejected(text: Seq<char>)
    requires
        encode_utf8(text).len() > MAX_INPUT_BYTES,
    ensures
        !input_is_accepted(text),
{
}

/// A text that holds `<`, `>`, `'` or `"` is rejected, even where every
/// other check would pass.
pub proof fn lemma_markup_is_rejected(text: Seq<char>, sql_safe: bool, document_safe: bool)
    requires
        holds_markup(text),
    ensures
        !verdict(text, sql_safe, document_safe),
        !input_is_accepted(text),
{
}

} // verus!
