//! The response as it goes on the wire: status, headers, content type and
//! body text.

use crate::api::adapters::api_adapter::{pairs_view, ApiResponse, ApiResponseBody};
use crate::json::{
    items_view, lemma_view_of_parts, members_view, render, render_result, JsonModel, JsonValue,
};
use vstd::prelude::*;

verus! {

/// The state that a transport keeps for its routes: the router, behind the
/// face that it shows to a transport.
pub struct RocketApiState<A> {
    pub api_adapter: A,
}

/// A response on its way to the transport.
pub struct ApiResponseWrapper<T>(pub ApiResponse<T>);

/// A response as the transport sends it.
#[derive(Debug, PartialEq, Eq)]
pub struct WireResponse {
    pub status: u16,
    /// The content type; set if and only if the body is not empty.
    pub content_type: Option<String>,
    /// The headers of the response, in order.
    pub headers: Vec<(String, String)>,
    /// The body text; empty for a response without a body.
    pub body: String,
}

/// The body text that stands for a payload that cannot be written.
pub open spec fn serialization_fallback() -> Seq<char> {
    "{\"error\": \"Failed to serialize response\"}"@
}

/// The JSON text of a document, or the fallback where it has none.
pub open spec fn body_text(document: JsonModel) -> Seq<char> {
    match render_result(document) {
        Ok(text) => text,
        Err(_) => serialization_fallback(),
    }
}

/// The document that is written for a single record: the record under the key
/// `Single`.
pub open spec fn single_document(record: JsonModel) -> JsonModel {
    JsonModel::Object(seq![("Single"@, record)])
}

/// The document that is written for a list of records: the records under the
/// key `List`.
pub open spec fn list_document(records: Seq<JsonModel>) -> JsonModel {
    JsonModel::Object(seq![("List"@, JsonModel::Array(records))])
}

/// Writes a document as a body text.
pub fn write_document(document: &JsonValue) -> (r: String)
    ensures
        r@ == body_text(document@),
{
    body_of_rendered(render(document))
}

/// The body text for what the printer made of a payload: the text, or the
/// fallback where the payload could not be written.
pub fn body_of_rendered(rendered: Result<String, String>) -> (r: String)
    ensures
        r@ == match rendered {
            Ok(text) => text@,
            Err(_) => serialization_fallback(),
        },
{
    match rendered {
        Ok(text) => text,
        Err(_) => String::from_str("{\"error\": \"Failed to serialize response\"}"),
    }
}

/// The content type that goes with a body text: JSON, if there is a body at
/// all.
pub fn content_type_of(body: &str) -> (r: Option<String>)
    ensures
        match r {
            Some(content_type) => wire_content_type(body@) == Some(content_type@),
            None => wire_content_type(body@) is None,
        },
{
    if body.unicode_len() > 0 {
        Some(String::from_str("application/json"))
    } else {
        None
    }
}

/// Wraps a record for the wire.
pub fn wrap_single(record: JsonValue) -> (r: JsonValue)
    ensures
        r@ == single_document(record@),
{
    let mut members: Vec<(String, JsonValue)> = Vec::new();
    members.push((String::from_str("Single"), record));
    let r = JsonValue::Object(members);
    proof {
        lemma_view_of_parts(r);
        assert(members_view(members@) =~= seq![("Single"@, record@)]);
    }
    r
}

/// Wraps a list of records for the wire.
pub fn wrap_list(records: Vec<JsonValue>) -> (r: JsonValue)
    ensures
        r@ == list_document(items_view(records@)),
{
    let list = JsonValue::Array(records);
    proof {
        lemma_view_of_parts(list);
    }
    let mut members: Vec<(String, JsonValue)> = Vec::new();
    members.push((String::from_str("List"), list));
    let r = JsonValue::Object(members);
    proof {
        lemma_view_of_parts(r);
        assert(members_view(members@) =~= seq![("List"@, list@)]);
    }
    r
}

/// The pairs of a list with their mathematical content.
pub open spec fn header_pairs(headers: Seq<(String, String)>) -> Seq<(Seq<char>, Seq<char>)> {
    Seq::new(headers.len(), |i: int| (headers[i].0@, headers[i].1@))
}

/// The body text of a response: nothing for a response without a payload;
/// a `Json` payload as it is; a `Single` or a `List` payload under its key.
pub open spec fn wire_text(body: Option<ApiResponseBody<JsonValue>>) -> Seq<char> {
    match body {
        None => Seq::empty(),
        Some(ApiResponseBody::Json(value)) => body_text(value@),
        Some(ApiResponseBody::Single(value)) => body_text(single_document(value@)),
        Some(ApiResponseBody::List(values)) => body_text(list_document(items_view(values@))),
    }
}

/// The content type of a response with the given body text: JSON, if there is
/// a body at all.
pub open spec fn wire_content_type(text: Seq<char>) -> Option<Seq<char>> {
    if text.len() > 0 {
        Some("application/json"@)
    } else {
        None
    }
}

impl ApiResponseWrapper<JsonValue> {
    /// The response as it goes on the wire: the status and the headers of the
    /// response, the payload as JSON text, and the JSON content type if and
    /// only if there is a body.
    pub fn into_wire(self) -> (r: WireResponse)
        ensures
            r.status == self.0.status,
            header_pairs(r.headers@) == pairs_view(self.0.headers@),
            r.body@ == wire_text(self.0.body),
            match r.content_type {
                Some(content_type) => wire_content_type(r.body@) == Some(content_type@),
                None => wire_content_type(r.body@) is None,
            },
    {
        let response = self.0;
        let mut headers: Vec<(String, String)> = Vec::new();
        let mut i: usize = 0;
        while i < response.headers.len()
            invariant
                i <= response.headers@.len(),
                headers@.len() == i,
                forall|j: int|
                    0 <= j < i ==> headers@[j].0@ == response.headers@[j].0 && headers@[j].1@
                        == response.headers@[j].1@,
            decreases response.headers@.len() - i,
        {
            headers.push(
                (response.headers.key_at(i).clone(), response.headers.value_at(i).clone()),
            );
            i = i + 1;
        }
        let status = response.status;
        let body = match response.body {
            Some(ApiResponseBody::Json(value)) => write_document(&value),
            Some(ApiResponseBody::Single(value)) => write_document(&wrap_single(value)),
            Some(ApiResponseBody::List(values)) => write_document(&wrap_list(values)),
            None => String::new(),
        };
        let content_type = content_type_of(body.as_str());
        WireResponse { status, content_type, headers, body }
    }
}

} // verus!
