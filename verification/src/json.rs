//! JSON documents: the tree that a JSON text stands for, and its reading
//! and writing by serde_json.

use vstd::prelude::*;

verus! {

/// A JSON document. A number is a whole number from zero up as far as 64
/// bits hold it; any other number is kept as the digits it was written
/// with.
#[derive(Debug)]
pub enum Json {
    Null,
    Bool(bool),
    Number(u64),
    Decimal(String),
    Text(String),
    List(Vec<Json>),
    Object(Vec<(String, Json)>),
}

/// The tree that a JSON document is, as mathematical values.
pub enum JsonView {
    Null,
    Bool(bool),
    Number(u64),
    Decimal(Seq<char>),
    Text(Seq<char>),
    List(Seq<JsonView>),
    Object(Seq<(Seq<char>, JsonView)>),
}

impl Json {
    /// The tree that the document is.
    pub open spec fn tree(&self) -> JsonView
        decreases self,
    {
        match self {
            Json::Null => JsonView::Null,
            Json::Bool(b) => JsonView::Bool(*b),
            Json::Number(n) => JsonView::Number(*n),
            Json::Decimal(s) => JsonView::Decimal(s@),
            Json::Text(s) => JsonView::Text(s@),
            Json::List(items) => JsonView::List(
                Seq::new(
                    items@.len(),
                    |i: int|
                        if 0 <= i < items@.len() {
                            items@[i].tree()
                        } else {
                            JsonView::Null
                        },
                ),
            ),
            Json::Object(fields) => JsonView::Object(
                Seq::new(
                    fields@.len(),
                    |i: int|
                        if 0 <= i < fields@.len() {
                            (fields@[i].0@, fields@[i].1.tree())
                        } else {
                            (Seq::empty(), JsonView::Null)
                        },
                ),
            ),
        }
    }
}

impl View for Json {
    type V = JsonView;

    open spec fn view(&self) -> JsonView {
        self.tree()
    }
}

/// The views of the items of a list.
pub open spec fn items_view(items: Seq<Json>) -> Seq<JsonView> {
    Seq::new(items.len(), |i: int| items[i]@)
}

/// The views of the fields of an object.
pub open spec fn fields_view(fields: Seq<(String, Json)>) -> Seq<(Seq<char>, JsonView)> {
    Seq::new(fields.len(), |i: int| (fields[i].0@, fields[i].1@))
}

/// The view of a list is the list of the views of its items.
pub proof fn lemma_list_view(items: Vec<Json>)
    ensures
        Json::List(items)@ == JsonView::List(items_view(items@)),
{
    reveal_with_fuel(Json::tree, 2);
    assert(Json::List(items)@->List_0 =~= items_view(items@));
}

/// The view of an object is the object of the views of its fields.
pub proof fn lemma_object_view(fields: Vec<(String, Json)>)
    ensures
        Json::Object(fields)@ == JsonView::Object(fields_view(fields@)),
{
    reveal_with_fuel(Json::tree, 2);
    assert(Json::Object(fields)@->Object_0 =~= fields_view(fields@));
}

/// `serde_json::Value` of serde_json, the tree that it reads a text into
/// and writes a text from.
#[verifier::external_type_specification]
#[verifier::external_body]
pub struct ExValue(serde_json::Value);

/// The document that serde_json reads from a JSON text, or nothing where
/// the text is not JSON.
pub uninterp spec fn document_of_text(text: Seq<char>) -> Option<JsonView>;

/// The JSON text that serde_json writes for a document, pretty-printed.
pub uninterp spec fn text_of_document(doc: JsonView) -> Seq<char>;

/// Turns a `serde_json::Value` into a document, variant by variant, taking
/// a number apart with `Number::as_u64` and, where that gives nothing,
/// keeping its `Display` form. Nothing is claimed of the result.
#[verifier::external_body]
fn lift(value: serde_json::Value) -> (doc: Json) {
    match value {
        serde_json::Value::Null => Json::Null,
        serde_json::Value::Bool(b) => Json::Bool(b),
        serde_json::Value::Number(n) => n.as_u64().map_or_else(
            || Json::Decimal(n.to_string()),
            Json::Number,
        ),
        serde_json::Value::String(s) => Json::Text(s),
        serde_json::Value::Array(items) => Json::List(items.into_iter().map(lift).collect()),
        serde_json::Value::Object(fields) => Json::Object(
            fields.into_iter().map(|(k, v)| (k, lift(v))).collect(),
        ),
    }
}

/// Turns a document into a `serde_json::Value`, variant by variant; the
/// digits of a number kept as text are read by `serde_json::from_str`.
/// Nothing is claimed of the result.
#[verifier::external_body]
fn lower(doc: &Json) -> (value: serde_json::Value) {
    match doc {
        Json::Null => serde_json::Value::Null,
        Json::Bool(b) => serde_json::Value::Bool(*b),
        Json::Number(n) => serde_json::Value::from(*n),
        Json::Decimal(s) => serde_json::from_str(s).unwrap_or(serde_json::Value::Null),
        Json::Text(s) => serde_json::Value::String(s.clone()),
        Json::List(items) => serde_json::Value::Array(items.iter().map(lower).collect()),
        Json::Object(fields) => serde_json::Value::Object(
            fields.iter().map(|(k, v)| (k.clone(), lower(v))).collect(),
        ),
    }
}

/// `serde_json::from_str` of serde_json, reading a `Value`, which is then
/// turned into a document; a failure comes back as the text of
/// serde_json's error. The contract names the document read, says that the
/// call fails exactly where there is none, and claims nothing of the
/// error's text.
#[verifier::external_body]
pub(crate) fn parse_document(text: &str) -> (r: Result<Json, String>)
    ensures
        match r {
            Ok(doc) => document_of_text(text@) == Some(doc@),
            Err(_) => document_of_text(text@) is None,
        },
{
    serde_json::from_str::<serde_json::Value>(text).map(lift).map_err(|e| e.to_string())
}

/// `serde_json::to_string_pretty` of serde_json, on the `Value` made of a
/// document. The contract says that the call succeeds, and names the text
/// written. It succeeds because serde_json writes a `Value` into memory:
/// the keys of its objects are strings, a number that is not finite is
/// written as null, and no write into a byte vector fails. The result keeps
/// the shape of serde_json's own, with the text of its error where it had
/// one.
#[verifier::external_body]
pub(crate) fn render_document(doc: &Json) -> (r: Result<String, String>)
    ensures
        r is Ok,
        r matches Ok(text) ==> text@ == text_of_document(doc@),
{
    serde_json::to_string_pretty(&lower(doc)).map_err(|e| e.to_string())
}

} // verus!
