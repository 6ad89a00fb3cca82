//! The call boundary, in plain values. A foreign caller hands over texts as
//! byte buffers that may be missing or may not be UTF-8, and takes texts
//! back as buffers that end in a zero byte. Here each operation of the
//! boundary decides on such values; reading and releasing the memory behind
//! them is left to the code that owns the pointers.

use crate::document::document_query_safe;
use crate::limiter::RateLimiter;
use crate::sanitize::encoded;
use crate::sql::sql_parse_succeeds;
use crate::statement::{query_is_valid, substituted, PreparedStatement};
use crate::validate::{holds_markup, input_is_accepted, validate_text, MAX_INPUT_BYTES};
use vstd::prelude::*;
use vstd::string::{StrSliceExecFns, StringSliceAdditionalSpecFns};
use vstd::utf8::{decode_utf8, encode_utf8, valid_utf8};

verus! {

/// `std::str::from_utf8`: the bytes as a text where they are valid UTF-8,
/// `None` where they are not. The text is the very bytes, reinterpreted.
#[verifier::external_body]
fn text_of_bytes<'a>(bytes: &'a [u8]) -> (text: Option<&'a str>)
    ensures
        text is Some <==> valid_utf8(bytes@),
        text matches Some(found) ==> found.spec_bytes() == bytes@,
{
    match std::str::from_utf8(bytes) {
        Ok(found) => Some(found),
        Err(_) => None,
    }
}

/// The text that an incoming buffer holds: none where the buffer is
/// missing, none where its bytes are not UTF-8.
pub open spec fn incoming_text(input: Option<&[u8]>) -> Option<Seq<char>> {
    match input {
        Some(bytes) => if valid_utf8(bytes@) {
            Some(decode_utf8(bytes@))
        } else {
            None
        },
        None => None,
    }
}

/// The buffer that carries `text` to the caller: its UTF-8 bytes and a zero
/// byte after them. A text whose bytes hold a zero has no such buffer.
pub open spec fn outgoing_buffer(text: Seq<char>) -> Option<Seq<u8>> {
    if encode_utf8(text).contains(0u8) {
        None
    } else {
        Some(encode_utf8(text).push(0u8))
    }
}

/// Reads an incoming buffer as text. Fails, with `None`, on a missing
/// buffer and on bytes that are not UTF-8.
pub fn decode<'a>(input: Option<&'a [u8]>) -> (text: Option<&'a str>)
    ensures
        match text {
            Some(found) => incoming_text(input) == Some(found@),
            None => incoming_text(input) is None,
        },
{
    broadcast use vstd::utf8::encode_utf8_decode_utf8;

    match input {
        Some(bytes) => text_of_bytes(bytes),
        None => None,
    }
}

/// Makes the buffer that carries `text` to the caller. Fails, with `None`,
/// where the bytes of the text hold a zero, which would end the buffer
/// early.
pub fn terminate(text: &str) -> (buffer: Option<Vec<u8>>)
    ensures
        match buffer {
            Some(bytes) => outgoing_buffer(text@) == Some(bytes@),
            None => outgoing_buffer(text@) is None,
        },
{
    let mut bytes = text.as_bytes_vec();
    let mut at: usize = 0;
    while at < bytes.len()
        invariant
            bytes@ == encode_utf8(text@),
            at <= bytes.len(),
            forall|i: int| 0 <= i < at ==> #[trigger] bytes@[i] != 0u8,
        decreases bytes.len() - at,
    {
        if bytes[at] == 0u8 {
            return None;
        }
        at += 1;
    }
    bytes.push(0u8);
    Some(bytes)
}

/// The full validation of an incoming buffer: a missing buffer and one
/// that is not UTF-8 are rejected before anything else is looked at; a
/// text is accepted when the validator accepts it.
pub fn validate_input(input: Option<&[u8]>) -> (accepted: bool)
    ensures
        accepted == match incoming_text(input) {
            Some(text) => input_is_accepted(text),
            None => false,
        },
        input matches Some(bytes) && bytes@.len() > MAX_INPUT_BYTES ==> !accepted,
        incoming_text(input) matches Some(text) && holds_markup(text) ==> !accepted,
{
    broadcast use vstd::utf8::decode_utf8_encode_utf8;

    match decode(input) {
        Some(text) => validate_text(text),
        None => false,
    }
}

/// The SQL guard on an incoming buffer; `false` where no text came in.
pub fn prevent_sql_injection(input: Option<&[u8]>) -> (safe: bool)
    ensures
        safe == match incoming_text(input) {
            Some(text) => sql_parse_succeeds(text),
            None => false,
        },
{
    match decode(input) {
        Some(text) => crate::sql::prevent_sql_injection(text),
        None => false,
    }
}

/// The document-query guard on an incoming buffer; `false` where no text
/// came in.
pub fn prevent_nosql_injection(input: Option<&[u8]>) -> (safe: bool)
    ensures
        safe == match incoming_text(input) {
            Some(text) => document_query_safe(text),
            None => false,
        },
{
    match decode(input) {
        Some(text) => crate::document::prevent_nosql_injection(text),
        None => false,
    }
}

/// Sanitises an incoming text and hands it back as an outgoing buffer.
/// `None` where no text came in, and where the text holds a zero byte.
pub fn sanitize_input(input: Option<&[u8]>) -> (buffer: Option<Vec<u8>>)
    ensures
        match buffer {
            Some(bytes) => incoming_text(input) matches Some(text) && outgoing_buffer(
                encoded(text),
            ) == Some(bytes@),
            None => incoming_text(input) matches Some(text) ==> outgoing_buffer(encoded(text))
                is None,
        },
{
    match decode(input) {
        Some(text) => {
            let clean = crate::sanitize::sanitize_input(text);
            terminate(clean.as_str())
        },
        None => None,
    }
}

/// Makes a statement of an incoming query. `None` where no text came in,
/// and where the query is empty or longer than a thousand characters.
pub fn prepared_statement_new(query: Option<&[u8]>) -> (made: Option<PreparedStatement>)
    ensures
        made is Some <==> (incoming_text(query) matches Some(text) && query_is_valid(text)),
        made matches Some(statement) ==> incoming_text(query) == Some(statement@.query)
            && statement@.params == Seq::<Seq<char>>::empty(),
{
    match decode(query) {
        Some(text) => match PreparedStatement::new(text) {
            Ok(statement) => Some(statement),
            Err(_) => None,
        },
        None => None,
    }
}

/// Binds an incoming parameter to `statement`. Where no text came in the
/// statement stays as it is.
pub fn bind_param(statement: &mut PreparedStatement, param: Option<&[u8]>)
    ensures
        final(statement)@.query == old(statement)@.query,
        final(statement)@.params == match incoming_text(param) {
            Some(text) => old(statement)@.params.push(encoded(text)),
            None => old(statement)@.params,
        },
{
    match decode(param) {
        Some(text) => {
            statement.bind_param(text);
        },
        None => {},
    }
}

/// Executes `statement` and hands the result back as an outgoing buffer.
/// `None` where the result holds a zero byte.
pub fn execute(statement: &PreparedStatement) -> (buffer: Option<Vec<u8>>)
    ensures
        match buffer {
            Some(bytes) => outgoing_buffer(substituted(statement@.query, statement@.params))
                == Some(bytes@),
            None => outgoing_buffer(substituted(statement@.query, statement@.params)) is None,
        },
{
    let result = statement.execute();
    terminate(result.as_str())
}

/// Checks an incoming identifier against `limiter`. Where no text came in
/// the check is rejected and the list stays as it is.
pub fn check_rate_limit(limiter: &mut RateLimiter, ip_address: Option<&[u8]>) -> (admitted: bool)
    ensures
        admitted == match incoming_text(ip_address) {
            Some(text) => old(limiter)@.admits(text),
            None => false,
        },
        final(limiter)@ == match incoming_text(ip_address) {
            Some(text) => old(limiter)@.after_check(text),
            None => old(limiter)@,
        },
        old(limiter)@.well_formed() ==> final(limiter)@.well_formed(),
{
    match decode(ip_address) {
        Some(text) => limiter.check_rate_limit(text),
        None => false,
    }
}

} // verus!
