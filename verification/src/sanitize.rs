//! Entity encoding of the characters that carry meaning in markup.

use vstd::prelude::*;

verus! {

/// The characters that are replaced: `&`, `<`, `>`, `"` and `'`.
pub open spec fn is_encoded_char(c: char) -> bool {
    c == '&' || c == '<' || c == '>' || c == '"' || c == '\''
}

/// The text that stands for `c` in the encoded output: its entity where `c`
/// is one of the five encoded characters, `c` itself otherwise.
pub open spec fn entity_of(c: char) -> Seq<char> {
    if c == '&' {
        seq!['&', 'a', 'm', 'p', ';']
    } else if c == '<' {
        seq!['&', 'l', 't', ';']
    } else if c == '>' {
        seq!['&', 'g', 't', ';']
    } else if c == '"' {
        seq!['&', 'q', 'u', 'o', 't', ';']
    } else if c == '\'' {
        seq!['&', '#', 'x', '2', '7', ';']
    } else {
        seq![c]
    }
}

/// The encoded form of `text`: the entities of its characters, in order.
pub open spec fn encoded(text: Seq<char>) -> Seq<char>
    decreases text.len(),
{
    if text.len() == 0 {
        Seq::empty()
    } else {
        entity_of(text[0]) + encoded(text.skip(1))
    }
}

/// `html_escape::encode_quoted_attribute`, made into an owned string. The
/// crate replaces `&` by `&amp;`, `<` by `&lt;`, `>` by `&gt;`, `"` by
/// `&quot;` and `'` by `&#x27;`, and copies every other byte unchanged; the
/// five are ASCII, so the same holds character by character.
#[verifier::external_body]
fn encode_entities(text: &str) -> (out: String)
    ensures
        out@ == encoded(text@),
{
    html_escape::encode_quoted_attribute(text).into_owned()
}

/// Replaces each of `&`, `<`, `>`, `"` and `'` by its entity and keeps all
/// other characters. Total: every text, the empty one too, has an encoding.
pub fn sanitize_input(input: &str) -> (out: String)
    ensures
        out@ == encoded(input@),
{
    encode_entities(input)
}

/// Encoding distributes over concatenation.
pub proof fn lemma_encoded_concat(a: Seq<char>, b: Seq<char>)
    ensures
        encoded(a + b) == encoded(a) + encoded(b),
    decreases a.len(),
{
    if a.len() == 0 {
        assert(a + b =~= b);
        assert(encoded(a) + encoded(b) =~= encoded(b));
    } else {
        assert((a + b).skip(1) =~= a.skip(1) + b);
        lemma_encoded_concat(a.skip(1), b);
        assert(entity_of(a[0]) + (encoded(a.skip(1)) + encoded(b)) =~= (entity_of(a[0]) + encoded(
            a.skip(1),
        )) + encoded(b));
    }
}

/// A text without any of the five encoded characters is its own encoding.
pub proof fn lemma_encoded_keeps_plain_text(text: Seq<char>)
    requires
        forall|i: int| 0 <= i < text.len() ==> !is_encoded_char(#[trigger] text[i]),
    ensures
        encoded(text) == text,
    decreases text.len(),
{
    if text.len() == 0 {
        assert(text =~= Seq::<char>::empty());
    } else {
        let rest = text.skip(1);
        assert forall|i: int| 0 <= i < rest.len() implies !is_encoded_char(#[trigger] rest[i]) by {
            assert(rest[i] == text[i + 1]);
        }
        lemma_encoded_keeps_plain_text(rest);
        assert(!is_encoded_char(text[0]));
        assert(seq![text[0]] + rest =~= text);
    }
}

/// Encoding is idempotent on texts that hold none of the five encoded
/// characters: a second pass changes nothing that the first produced.
pub proof fn lemma_sanitize_idempotent_on_plain_text(text: Seq<char>)
    requires
        forall|i: int| 0 <= i < text.len() ==> !is_encoded_char(#[trigger] text[i]),
    ensures
        encoded(encoded(text)) == encoded(text),
{
    lemma_encoded_keeps_plain_text(text);
}

/// An encoded text holds none of `<`, `>`, `"` and `'`: whatever was bound
/// or sanitised cannot open a tag or close a quoted attribute.
pub proof fn lemma_encoded_has_no_markup(text: Seq<char>)
    ensures
        forall|i: int|
            0 <= i < encoded(text).len() ==> {
                let c = #[trigger] encoded(text)[i];
                c != '<' && c != '>' && c != '"' && c != '\''
            },
    decreases text.len(),
{
    if text.len() > 0 {
        lemma_encoded_has_no_markup(text.skip(1));
        let head = entity_of(text[0]);
        let tail = encoded(text.skip(1));
        assert forall|i: int| 0 <= i < encoded(text).len() implies {
            let c = #[trigger] encoded(text)[i];
            c != '<' && c != '>' && c != '"' && c != '\''
        } by {
            if i < head.len() {
                assert(encoded(text)[i] == head[i]);
            } else {
                assert(encoded(text)[i] == tail[i - head.len()]);
            }
        }
    }
}

/// Encoding never shortens a text, and at most multiplies its length by six.
pub proof fn lemma_encoded_len(text: Seq<char>)
    ensures
        text.len() <= encoded(text).len() <= 6 * text.len(),
    decreases text.len(),
{
    if text.len() > 0 {
        lemma_encoded_len(text.skip(1));
    }
}

} // verus!
