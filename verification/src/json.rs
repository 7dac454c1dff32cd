//! The JSON structure that a record is reshaped into, and its text.
//!
//! An object is a list of named fields in a fixed order. A field holds a string,
//! a list of strings, a whole number or a flag: nothing that is sent needs more.

use vstd::prelude::*;

verus! {

/// The value of one field.
#[derive(Clone, Debug, PartialEq, Eq)]
pub enum JsonValue {
    Text(String),
    TextList(Vec<String>),
    Number(i64),
    Flag(bool),
}

/// One named field.
#[derive(Clone, Debug, PartialEq, Eq)]
pub struct JsonField {
    pub name: String,
    pub value: JsonValue,
}

/// An object: named fields, in the order in which they are written.
#[derive(Clone, Debug, PartialEq, Eq)]
pub struct JsonObject {
    pub fields: Vec<JsonField>,
}

/// What a [`JsonValue`] holds.
pub enum JsonValueView {
    Text(Seq<char>),
    TextList(Seq<Seq<char>>),
    Number(int),
    Flag(bool),
}

/// What a [`JsonField`] holds.
pub struct JsonFieldView {
    pub name: Seq<char>,
    pub value: JsonValueView,
}

impl View for JsonValue {
    type V = JsonValueView;

    open spec fn view(&self) -> JsonValueView {
        match self {
            JsonValue::Text(s) => JsonValueView::Text(s@),
            JsonValue::TextList(items) => JsonValueView::TextList(items.deep_view()),
            JsonValue::Number(n) => JsonValueView::Number(*n as int),
            JsonValue::Flag(b) => JsonValueView::Flag(*b),
        }
    }
}

impl View for JsonField {
    type V = JsonFieldView;

    open spec fn view(&self) -> JsonFieldView {
        JsonFieldView { name: self.name@, value: self.value@ }
    }
}

impl View for JsonObject {
    type V = Seq<JsonFieldView>;

    open spec fn view(&self) -> Seq<JsonFieldView> {
        Seq::new(self.fields@.len(), |i: int| self.fields@[i]@)
    }
}

/// The object could not be written as text.
#[derive(Clone, Copy, Debug, PartialEq, Eq, Structural)]
pub struct JsonError;

/// `serde_json::Error`: why `serde_json::to_string` gave no text. It is taken
/// from the call and dropped; nothing is read from it.
#[verifier::external_type_specification]
#[verifier::external_body]
pub struct ExSerdeJsonError(serde_json::Error);

/// What `serde_json::to_string` returns for the `serde_json::Map` that holds
/// the object's fields, inserted in their order: the compact JSON text of the
/// object, or nothing where it fails. The map keeps the order of insertion:
/// `serde_json` is built with `preserve_order`.
pub uninterp spec fn json_text(object: Seq<JsonFieldView>) -> Option<Seq<char>>;

/// `serde_json::to_string`, on a `serde_json::Map` filled with the fields in
/// their order. What comes back, a text or an error, is determined by the
/// fields; which of the two it is, is left open.
#[verifier::external_body]
fn to_json_text(object: &JsonObject) -> (r: Result<String, serde_json::Error>)
    ensures
        r matches Ok(text) ==> json_text(object@) == Some(text@),
        r is Err ==> json_text(object@) is None,
{
    let mut map = serde_json::Map::new();
    for field in object.fields.iter() {
        let value = match &field.value {
            JsonValue::Text(s) => serde_json::Value::from(s.as_str()),
            JsonValue::TextList(items) => serde_json::Value::from(items.as_slice()),
            JsonValue::Number(n) => serde_json::Value::from(*n),
            JsonValue::Flag(b) => serde_json::Value::from(*b),
        };
        map.insert(field.name.clone(), value);
    }
    serde_json::to_string(&map)
}

impl JsonField {
    /// The field with the given name and value.
    pub fn new(name: &str, value: JsonValue) -> (field: JsonField)
        ensures
            field@ == (JsonFieldView { name: name@, value: value@ }),
    {
        JsonField { name: name.to_owned(), value }
    }
}

impl JsonObject {
    /// The object with no field.
    pub fn new() -> (object: JsonObject)
        ensures
            object@ == Seq::<JsonFieldView>::empty(),
    {
        JsonObject { fields: Vec::new() }
    }

    /// Adds a field after those that the object has.
    pub fn push(&mut self, field: JsonField)
        ensures
            final(self)@ == old(self)@.push(field@),
    {
        self.fields.push(field);
    }

    /// Writes the object as compact JSON text.
    pub fn to_text(&self) -> (r: Result<String, JsonError>)
        ensures
            r matches Ok(text) ==> json_text(self@) == Some(text@),
            r is Err ==> json_text(self@) is None,
    {
        match to_json_text(self) {
            Ok(text) => Ok(text),
            Err(_) => Err(JsonError),
        }
    }
}

} // verus!
