//! The payload type of an API: what is stored, returned and read from request
//! bodies.

use crate::json::JsonValue;
use vstd::prelude::*;

verus! {

/// What reading a document as a record gave, with the reason of a refusal as
/// characters.
pub open spec fn read_view<A>(read: Result<A, String>) -> Result<A, Seq<char>> {
    match read {
        Ok(item) => Ok(item),
        Err(reason) => Err(reason@),
    }
}

/// A record type that can travel through the API.
///
/// What a payload type is called and whether a document describes a record
/// is the payload's own business, so nothing is promised of either here. A
/// payload type that knows more says so in `may_be_named` and `may_read`:
/// `entity_name` and `from_document` return only what these admit. A payload
/// type that says nothing admits every outcome.
pub trait ApiEntity: Sized {
    /// Whether `from_document` may return `read` for `document`.
    open spec fn may_read(document: JsonValue, read: Result<Self, Seq<char>>) -> bool {
        true
    }

    /// Whether `entity_name` may return `name`.
    open spec fn may_be_named(name: Seq<char>) -> bool {
        true
    }

    /// The name under which datasources know this type where no entity name
    /// is handed to them.
    fn entity_name() -> (r: String)
        ensures
            Self::may_be_named(r@),
    ;

    /// The record that a JSON document describes.
    fn from_document(document: JsonValue) -> (r: Result<Self, String>)
        ensures
            Self::may_read(document, read_view(r)),
    ;
}

/// A JSON document is its own payload: every document is accepted as it is.
impl ApiEntity for JsonValue {
    open spec fn may_read(document: JsonValue, read: Result<Self, Seq<char>>) -> bool {
        read == Ok::<JsonValue, Seq<char>>(document)
    }

    open spec fn may_be_named(name: Seq<char>) -> bool {
        name == "JsonValue"@
    }

    fn entity_name() -> (r: String) {
        String::from_str("JsonValue")
    }

    fn from_document(document: JsonValue) -> (r: Result<Self, String>) {
        Ok(document)
    }
}

} // verus!
