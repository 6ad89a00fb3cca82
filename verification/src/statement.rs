//! A simulated parameterised statement: a query template with positional
//! placeholders, and the sanitised parameters that fill them in bind order.

use crate::sanitize::{encoded, sanitize_input};
use crate::text::chars_of;
use vstd::prelude::*;
use vstd::string::StringExecFns;

verus! {

/// The character that marks the place of a parameter in a query.
pub const PLACEHOLDER: char = '?';

/// The least number of characters in a query.
pub const MIN_QUERY_CHARS: u64 = 1;

/// The greatest number of characters in a query.
pub const MAX_QUERY_CHARS: u64 = 1000;

/// `validator::ValidationError`, the error of a failed validation. Nothing
/// inside it is visible here.
#[verifier::external_type_specification]
#[verifier::external_body]
pub struct ExValidationError(validator::ValidationError);

/// `validator::ValidateLength::validate_length` on a string, with a least
/// and a greatest length and no exact one: the crate counts the characters
/// of the string and accepts it when the count lies within the two bounds.
#[verifier::external_body]
fn length_is_between(text: &str, min: u64, max: u64) -> (ok: bool)
    ensures
        ok == (min <= text@.len() <= max),
{
    validator::ValidateLength::validate_length(text, Some(min), Some(max), None)
}

/// `validator::ValidationError::new` with the code `validation_error`: the
/// one error that construction reports.
#[verifier::external_body]
fn validation_error() -> validator::ValidationError {
    validator::ValidationError::new("validation_error")
}

/// Whether a query may be made into a statement: it is not empty and has at
/// most a thousand characters.
pub open spec fn query_is_valid(query: Seq<char>) -> bool {
    MIN_QUERY_CHARS <= query.len() <= MAX_QUERY_CHARS
}

/// The query with its placeholders filled: going from left to right, each
/// placeholder takes the next parameter; placeholders that find none left
/// stay as they are, and parameters that find no placeholder are unused.
pub open spec fn substituted(query: Seq<char>, params: Seq<Seq<char>>) -> Seq<char>
    decreases query.len(),
{
    if query.len() == 0 {
        Seq::empty()
    } else if query[0] == PLACEHOLDER && params.len() > 0 {
        params[0] + substituted(query.skip(1), params.skip(1))
    } else {
        seq![query[0]] + substituted(query.skip(1), params)
    }
}

/// The mathematical value of a statement.
pub struct StatementView {
    pub query: Seq<char>,
    pub params: Seq<Seq<char>>,
}

/// A query template and the parameters bound to it so far. The query is
/// fixed at construction; binding appends to the parameters and nothing
/// removes or reorders them.
pub struct PreparedStatement {
    query: String,
    params: Vec<String>,
}

impl View for PreparedStatement {
    type V = StatementView;

    closed spec fn view(&self) -> StatementView {
        StatementView {
            query: self.query@,
            params: self.params@.map_values(|param: String| param@),
        }
    }
}

impl PreparedStatement {
    /// Makes a statement of `query`, with no parameter bound. Fails exactly
    /// when the query is empty or longer than a thousand characters.
    pub fn new(query: &str) -> (made: Result<Self, validator::ValidationError>)
        ensures
            made is Ok <==> query_is_valid(query@),
            made matches Ok(statement) ==> statement@.query == query@ && statement@.params
                == Seq::<Seq<char>>::empty(),
    {
        if !length_is_between(query, MIN_QUERY_CHARS, MAX_QUERY_CHARS) {
            return Err(validation_error());
        }
        let statement = PreparedStatement { query: query.to_owned(), params: Vec::new() };
        assert(statement@.params =~= Seq::<Seq<char>>::empty());
        Ok(statement)
    }

    /// Sanitises `param` and appends it to the parameters. The query and the
    /// parameters bound before stay as they are.
    pub fn bind_param(&mut self, param: &str)
        ensures
            final(self)@.query == old(self)@.query,
            final(self)@.params == old(self)@.params.push(encoded(param@)),
    {
        self.params.push(sanitize_input(param));
        assert(self@.params =~= old(self)@.params.push(encoded(param@)));
    }

    /// The query with each placeholder, from left to right, replaced by the
    /// next bound parameter.
    pub fn execute(&self) -> (out: String)
        ensures
            out@ == substituted(self@.query, self@.params),
    {
        let query = chars_of(self.query.as_str());
        let mut out = String::new();
        let mut used: usize = 0;
        let mut at: usize = 0;
        proof {
            assert(query@.skip(0) =~= query@);
            assert(self@.params.skip(0) =~= self@.params);
            assert(out@ + substituted(self@.query, self@.params) =~= substituted(
                self@.query,
                self@.params,
            ));
        }
        while at < query.len()
            invariant
                query@ == self@.query,
                at <= query.len(),
                used <= self.params.len(),
                substituted(self@.query, self@.params) == out@ + substituted(
                    query@.skip(at as int),
                    self@.params.skip(used as int),
                ),
            decreases query.len() - at,
        {
            let c = query[at];
            proof {
                let rest = query@.skip(at as int);
                let left = self@.params.skip(used as int);
                assert(rest[0] == c);
                assert(rest.skip(1) =~= query@.skip(at + 1));
                if used < self.params.len() {
                    assert(left[0] == self.params@[used as int]@);
                    assert(left.skip(1) =~= self@.params.skip(used + 1));
                }
            }
            if c == PLACEHOLDER && used < self.params.len() {
                out.append(self.params[used].as_str());
                used += 1;
            } else {
                out.push(c);
            }
            at += 1;
            assert(substituted(self@.query, self@.params) =~= out@ + substituted(
                query@.skip(at as int),
                self@.params.skip(used as int),
            ));
        }
        assert(query@.skip(at as int).len() == 0);
        assert(out@ + Seq::<char>::empty() =~= out@);
        out
    }
}

/// How many placeholders `query` holds.
pub open spec fn placeholder_count(query: Seq<char>) -> nat
    decreases query.len(),
{
    if query.len() == 0 {
        0
    } else if query[0] == PLACEHOLDER {
        1 + placeholder_count(query.skip(1))
    } else {
        placeholder_count(query.skip(1))
    }
}

/// Parameters beyond the number of placeholders are unused: with them or
/// without them the result is the same.
pub proof fn lemma_excess_params_unused(
    query: Seq<char>,
    params: Seq<Seq<char>>,
    excess: Seq<Seq<char>>,
)
    requires
        placeholder_count(query) <= params.len(),
    ensures
        substituted(query, params + excess) == substituted(query, params),
    decreases query.len(),
{
    if query.len() > 0 {
        if query[0] == PLACEHOLDER {
            assert((params + excess).skip(1) =~= params.skip(1) + excess);
            lemma_excess_params_unused(query.skip(1), params.skip(1), excess);
        } else {
            lemma_excess_params_unused(query.skip(1), params, excess);
        }
    }
}

/// With no parameter bound, every placeholder stays and the result is the
/// query itself.
pub proof fn lemma_no_params_keeps_query(query: Seq<char>)
    ensures
        substituted(query, Seq::empty()) == query,
    decreases query.len(),
{
    if query.len() > 0 {
        lemma_no_params_keeps_query(query.skip(1));
        assert(seq![query[0]] + query.skip(1) =~= query);
    } else {
        assert(query =~= Seq::<char>::empty());
    }
}

/// A query without placeholders is its own result, whatever was bound.
pub proof fn lemma_no_placeholder_keeps_query(query: Seq<char>, params: Seq<Seq<char>>)
    requires
        placeholder_count(query) == 0,
    ensures
        substituted(query, params) == query,
{
    lemma_excess_params_unused(query, Seq::empty(), params);
    assert(Seq::<Seq<char>>::empty() + params =~= params);
    lemma_no_params_keeps_query(query);
}

/// Where placeholders outnumber the parameters, the result still holds the
/// placeholders that found none: as many as the difference.
pub proof fn lemma_unfilled_placeholders_stay(query: Seq<char>, params: Seq<Seq<char>>)
    requires
        forall|i: int, j: int|
            0 <= i < params.len() && 0 <= j < params[i].len() ==> params[i][j] != PLACEHOLDER,
    ensures
        placeholder_count(substituted(query, params)) == if placeholder_count(query)
            >= params.len() {
            placeholder_count(query) - params.len()
        } else {
            0
        },
    decreases query.len(),
{
    if query.len() > 0 {
        let rest = query.skip(1);
        if query[0] == PLACEHOLDER && params.len() > 0 {
            lemma_unfilled_placeholders_stay(rest, params.skip(1));
            lemma_placeholder_count_concat(params[0], substituted(rest, params.skip(1)));
            lemma_count_without_placeholder(params[0]);
        } else {
            lemma_unfilled_placeholders_stay(rest, params);
            lemma_placeholder_count_concat(seq![query[0]], substituted(rest, params));
            assert(seq![query[0]].skip(1) =~= Seq::<char>::empty());
            reveal_with_fuel(placeholder_count, 2);
        }
    }
}

/// The placeholders of a concatenation are those of its two parts.
pub proof fn lemma_placeholder_count_concat(a: Seq<char>, b: Seq<char>)
    ensures
        placeholder_count(a + b) == placeholder_count(a) + placeholder_count(b),
    decreases a.len(),
{
    if a.len() == 0 {
        assert(a + b =~= b);
    } else {
        assert((a + b).skip(1) =~= a.skip(1) + b);
        lemma_placeholder_count_concat(a.skip(1), b);
    }
}

/// A text in which no character is the placeholder holds none.
pub proof fn lemma_count_without_placeholder(text: Seq<char>)
    requires
        forall|j: int| 0 <= j < text.len() ==> text[j] != PLACEHOLDER,
    ensures
        placeholder_count(text) == 0,
    decreases text.len(),
{
    if text.len() > 0 {
        assert forall|j: int| 0 <= j < text.skip(1).len() implies text.skip(1)[j]
            != PLACEHOLDER by {
            assert(text.skip(1)[j] == text[j + 1]);
        }
        lemma_count_without_placeholder(text.skip(1));
    }
}

} // verus!
