//! The document-query guard: a JSON text passes when it parses and no object
//! in it, at any depth, has a key that begins with the operator marker.

use vstd::prelude::*;

verus! {

/// The character that begins the name of a document-query operator.
pub const OPERATOR_MARKER: char = '$';

/// What the guard reads of a JSON value: its nesting and the keys of its
/// objects. Numbers, strings, booleans and `null` are all `Scalar`.
pub enum Document {
    Scalar,
    Array(Vec<Document>),
    Object(Vec<Member>),
}

/// One member of a JSON object: a key and the value under it.
pub struct Member {
    pub key: String,
    pub value: Document,
}

/// The mathematical value of a `Document`.
pub enum DocumentShape {
    Scalar,
    Array(Seq<DocumentShape>),
    Object(Seq<MemberShape>),
}

/// The mathematical value of a `Member`.
pub struct MemberShape {
    pub key: Seq<char>,
    pub value: DocumentShape,
}

impl View for Document {
    type V = DocumentShape;

    open spec fn view(&self) -> DocumentShape
        decreases self,
    {
        match self {
            Document::Scalar => DocumentShape::Scalar,
            Document::Array(items) => DocumentShape::Array(
                Seq::new(
                    items@.len(),
                    |i: int|
                        if 0 <= i < items@.len() {
                            items@[i]@
                        } else {
                            DocumentShape::Scalar
                        },
                ),
            ),
            Document::Object(fields) => DocumentShape::Object(
                Seq::new(
                    fields@.len(),
                    |i: int|
                        if 0 <= i < fields@.len() {
                            MemberShape { key: fields@[i].key@, value: fields@[i].value@ }
                        } else {
                            MemberShape { key: Seq::empty(), value: DocumentShape::Scalar }
                        },
                ),
            ),
        }
    }
}

/// Whether `key` names an operator: it begins with the marker.
pub open spec fn is_operator_key(key: Seq<char>) -> bool {
    key.len() > 0 && key[0] == OPERATOR_MARKER
}

impl DocumentShape {
    /// Whether an object anywhere in this value has an operator key.
    pub open spec fn holds_operator(self) -> bool
        decreases self,
    {
        match self {
            DocumentShape::Scalar => false,
            DocumentShape::Array(items) => exists|i: int|
                0 <= i < items.len() && (#[trigger] items[i]).holds_operator(),
            DocumentShape::Object(fields) => exists|i: int|
                0 <= i < fields.len() && (is_operator_key((#[trigger] fields[i]).key)
                    || fields[i].value.holds_operator()),
        }
    }
}

/// Whether `key` begins with the operator marker.
pub fn key_is_operator(key: &str) -> (found: bool)
    ensures
        found == is_operator_key(key@),
{
    broadcast use vstd::string::group_string_axioms;

    let mut rest = key.chars();
    match rest.next() {
        Some(first) => first == OPERATOR_MARKER,
        None => false,
    }
}

impl Document {
    /// Walks the value and reports whether any object in it, at any depth,
    /// has a key that begins with the operator marker.
    pub fn contains_operator(&self) -> (found: bool)
        ensures
            found == self@.holds_operator(),
        decreases self,
    {
        broadcast use vstd::std_specs::vec::axiom_vec_index_decreases;

        match self {
            Document::Scalar => false,
            Document::Array(items) => {
                let mut i: usize = 0;
                while i < items.len()
                    invariant
                        *self == Document::Array(*items),
                        i <= items.len(),
                        forall|j: int| 0 <= j < i ==> !(#[trigger] items@[j])@.holds_operator(),
                    decreases items.len() - i,
                {
                    if items[i].contains_operator() {
                        assert(self@->Array_0[i as int] == items@[i as int]@);
                        return true;
                    }
                    i += 1;
                }
                false
            },
            Document::Object(fields) => {
                let mut i: usize = 0;
                while i < fields.len()
                    invariant
                        *self == Document::Object(*fields),
                        i <= fields.len(),
                        forall|j: int|
                            0 <= j < i ==> !is_operator_key((#[trigger] fields@[j]).key@)
                                && !fields@[j].value@.holds_operator(),
                    decreases fields.len() - i,
                {
                    if key_is_operator(fields[i].key.as_str()) || fields[i].value.contains_operator() {
                        assert(self@->Object_0[i as int] == (MemberShape {
                            key: fields@[i as int].key@,
                            value: fields@[i as int].value@,
                        }));
                        return true;
                    }
                    i += 1;
                }
                false
            },
        }
    }
}

/// `serde_json::Value`, a parsed JSON value. Nothing inside it is visible
/// here; it is only carried from the parser to the copy into a `Document`.
#[verifier::external_type_specification]
#[verifier::external_body]
pub struct ExJsonValue(serde_json::Value);

/// What `serde_json` makes of `text`: the shape of the value that it parses
/// it into, or `None` where it reports an error. The grammar, the depth at
/// which the parser gives up and the order in which it keeps an object's
/// members are its own.
pub uninterp spec fn json_shape_of_text(text: Seq<char>) -> Option<DocumentShape>;

/// The shape of a parsed JSON value: its arrays' elements in order, its
/// objects' members in the order in which the value walks them, and
/// `Scalar` for everything else.
pub uninterp spec fn json_value_shape(value: serde_json::Value) -> DocumentShape;

/// `serde_json::from_str` at the type `serde_json::Value`: the value where
/// the text is JSON, `None` where the parser returns an error.
#[verifier::external_body]
fn json_from_text(text: &str) -> (parsed: Option<serde_json::Value>)
    ensures
        match parsed {
            Some(value) => json_shape_of_text(text@) == Some(json_value_shape(value)),
            None => json_shape_of_text(text@) is None,
        },
{
    match serde_json::from_str::<serde_json::Value>(text) {
        Ok(value) => Some(value),
        Err(_) => None,
    }
}

/// Copies a `serde_json::Value` into a `Document`, variant by variant: the
/// elements of `Value::Array`, the keys and values of `Value::Object` as its
/// map walks them, and `Scalar` for the four remaining variants.
#[verifier::external_body]
fn document_of_value(value: &serde_json::Value) -> (document: Document)
    ensures
        document@ == json_value_shape(*value),
{
    match value {
        serde_json::Value::Array(items) => Document::Array(
            items.iter().map(document_of_value).collect(),
        ),
        serde_json::Value::Object(members) => Document::Object(
            members.iter().map(|(k, v)| Member { key: k.clone(), value: document_of_value(v) }).collect(),
        ),
        _ => Document::Scalar,
    }
}

/// Parses `text` as JSON. `None` means that the text is not JSON.
pub fn parse_document(text: &str) -> (parsed: Option<Document>)
    ensures
        match parsed {
            Some(document) => json_shape_of_text(text@) == Some(document@),
            None => json_shape_of_text(text@) is None,
        },
{
    match json_from_text(text) {
        Some(value) => Some(document_of_value(&value)),
        None => None,
    }
}

/// The verdict on a parse result: unsafe where nothing was parsed, and
/// unsafe where the parsed value holds an operator key.
pub open spec fn shape_is_safe(parsed: Option<DocumentShape>) -> bool {
    match parsed {
        Some(shape) => !shape.holds_operator(),
        None => false,
    }
}

/// Whether `text` is JSON without an operator key at any depth.
pub open spec fn document_query_safe(text: Seq<char>) -> bool {
    shape_is_safe(json_shape_of_text(text))
}

/// Judges a parse result: `false` for a text that did not parse, else
/// whether the document is free of operator keys.
pub fn judge_document(parsed: &Option<Document>) -> (safe: bool)
    ensures
        safe == match parsed {
            Some(document) => !document@.holds_operator(),
            None => false,
        },
{
    match parsed {
        Some(document) => !document.contains_operator(),
        None => false,
    }
}

/// Accepts `input` exactly when it is JSON and no object in it, at any
/// depth, has a key that begins with `$`. Malformed JSON is rejected.
pub fn prevent_nosql_injection(input: &str) -> (safe: bool)
    ensures
        safe == document_query_safe(input@),
{
    let parsed = parse_document(input);
    judge_document(&parsed)
}

impl DocumentShape {
    /// Whether `key` is the key of an object anywhere in this value.
    pub open spec fn has_key(self, key: Seq<char>) -> bool
        decreases self,
    {
        match self {
            DocumentShape::Scalar => false,
            DocumentShape::Array(items) => exists|i: int|
                0 <= i < items.len() && (#[trigger] items[i]).has_key(key),
            DocumentShape::Object(fields) => exists|i: int|
                0 <= i < fields.len() && ((#[trigger] fields[i]).key == key
                    || fields[i].value.has_key(key)),
        }
    }

    /// A value holds an operator exactly when one of its keys, at whatever
    /// depth, begins with the marker.
    pub proof fn lemma_operator_is_a_key(self)
        ensures
            self.holds_operator() <==> exists|key: Seq<char>|
                #[trigger] self.has_key(key) && is_operator_key(key),
        decreases self,
    {
        match self {
            DocumentShape::Scalar => {},
            DocumentShape::Array(items) => {
                if self.holds_operator() {
                    let i = choose|i: int|
                        0 <= i < items.len() && (#[trigger] items[i]).holds_operator();
                    items[i].lemma_operator_is_a_key();
                    let key = choose|key: Seq<char>|
                        #[trigger] items[i].has_key(key) && is_operator_key(key);
                    assert(self.has_key(key));
                }
                if exists|key: Seq<char>| #[trigger] self.has_key(key) && is_operator_key(key) {
                    let key = choose|key: Seq<char>|
                        #[trigger] self.has_key(key) && is_operator_key(key);
                    let i = choose|i: int| 0 <= i < items.len() && (#[trigger] items[i]).has_key(key);
                    items[i].lemma_operator_is_a_key();
                }
            },
            DocumentShape::Object(fields) => {
                if self.holds_operator() {
                    let i = choose|i: int|
                        0 <= i < fields.len() && (is_operator_key((#[trigger] fields[i]).key)
                            || fields[i].value.holds_operator());
                    if is_operator_key(fields[i].key) {
                        assert(self.has_key(fields[i].key));
                    } else {
                        fields[i].value.lemma_operator_is_a_key();
                        let key = choose|key: Seq<char>|
                            #[trigger] fields[i].value.has_key(key) && is_operator_key(key);
                        assert(self.has_key(key));
                    }
                }
                if exists|key: Seq<char>| #[trigger] self.has_key(key) && is_operator_key(key) {
                    let key = choose|key: Seq<char>|
                        #[trigger] self.has_key(key) && is_operator_key(key);
                    let i = choose|i: int|
                        0 <= i < fields.len() && ((#[trigger] fields[i]).key == key
                            || fields[i].value.has_key(key));
                    if fields[i].key != key {
                        fields[i].value.lemma_operator_is_a_key();
                    }
                }
            },
        }
    }
}

/// A JSON text with an operator key at any depth is rejected, and a JSON
/// text without one is accepted.
pub proof fn lemma_guard_follows_keys(text: Seq<char>)
    requires
        json_shape_of_text(text) is Some,
    ensures
        document_query_safe(text) <==> forall|key: Seq<char>|
            #[trigger] json_shape_of_text(text)->0.has_key(key) ==> !is_operator_key(key),
{
    json_shape_of_text(text)->0.lemma_operator_is_a_key();
}

} // verus!
