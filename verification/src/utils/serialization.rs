use crate::error::{WebullError, WebullResult};
use vstd::prelude::*;

verus! {

/// `serde_json::Error`: why a value could not be written or read as JSON.
#[verifier::external_type_specification]
#[verifier::external_body]
pub struct ExJsonError(serde_json::Error);

/// A name and the text under it: a member of a JSON object whose values are
/// all strings, or a header of a request.
#[derive(Debug, PartialEq, Eq)]
pub struct TextField {
    pub name: String,
    pub value: String,
}

impl View for TextField {
    type V = (Seq<char>, Seq<char>);

    open spec fn view(&self) -> (Seq<char>, Seq<char>) {
        (self.name@, self.value@)
    }
}

impl Clone for TextField {
    fn clone(&self) -> (copy: Self)
        ensures
            copy == *self,
    {
        TextField { name: self.name.clone(), value: self.value.clone() }
    }
}

impl TextField {
    /// A field with the given name and value.
    pub fn new(name: &str, value: &str) -> (field: Self)
        ensures
            field@ == (name@, value@),
    {
        TextField { name: name.to_owned(), value: value.to_owned() }
    }
}

/// The names and texts of a list of fields, in their order.
pub open spec fn texts(fields: Seq<TextField>) -> Seq<(Seq<char>, Seq<char>)> {
    Seq::new(fields.len(), |i: int| fields[i]@)
}

/// The JSON text of the object whose members are the given names with the
/// given texts as string values: what `serde_json::to_string` returns for
/// that object, a later member replacing an earlier one of the same name.
/// `None` where the object cannot be written.
pub uninterp spec fn json_object_text(fields: Seq<(Seq<char>, Seq<char>)>) -> Option<Seq<char>>;

/// Builds a `serde_json::Map` with `Map::insert`, one string value for each
/// field in turn, and calls `serde_json::to_string` on the object.
#[verifier::external_body]
pub(crate) fn json_object_string(fields: &Vec<TextField>) -> (r: Result<String, serde_json::Error>)
    ensures
        match r {
            Ok(text) => json_object_text(texts(fields@)) == Some(text@),
            Err(_) => json_object_text(texts(fields@)) is None,
        },
{
    let mut object = serde_json::Map::new();
    for field in fields.iter() {
        object.insert(field.name.clone(), serde_json::Value::String(field.value.clone()));
    }
    serde_json::to_string(&serde_json::Value::Object(object))
}

/// Calls `to_string` on a `serde_json::Error`: its description, of which
/// nothing is claimed.
#[verifier::external_body]
pub(crate) fn json_error_text(error: &serde_json::Error) -> String {
    error.to_string()
}

/// Write an object of string members as JSON text.
pub fn object_to_json(fields: &Vec<TextField>) -> (r: WebullResult<String>)
    ensures
        match r {
            Ok(text) => json_object_text(texts(fields@)) == Some(text@),
            Err(e) => json_object_text(texts(fields@)) is None && e is SerializationError,
        },
{
    match json_object_string(fields) {
        Ok(text) => Ok(text),
        Err(e) => Err(WebullError::SerializationError(json_error_text(&e))),
    }
}

} // verus!
