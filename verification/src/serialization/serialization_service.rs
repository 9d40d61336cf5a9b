//! The one place through which records are turned into JSON text and back.

use crate::json::{parse, parse_result, render, render_result, JsonModel, JsonValue};
use vstd::prelude::*;

verus! {

/// Reads and writes records as JSON text.
pub struct SerializationService;

impl SerializationService {
    /// Serializes the given data into a JSON string.
    pub fn serialize(data: &JsonValue) -> (r: Result<String, String>)
        ensures
            match r {
                Ok(text) => render_result(data@) == Ok::<Seq<char>, Seq<char>>(text@),
                Err(message) => render_result(data@) == Err::<Seq<char>, Seq<char>>(message@),
            },
    {
        render(data)
    }

    /// Deserializes the given JSON string.
    pub fn deserialize(json_str: &str) -> (r: Result<JsonValue, String>)
        ensures
            match r {
                Ok(document) => parse_result(json_str@) == Ok::<JsonModel, Seq<char>>(document@),
                Err(message) => parse_result(json_str@) == Err::<JsonModel, Seq<char>>(message@),
            },
    {
        parse(json_str)
    }
}

} // verus!
