//! The catch-all routes of a transport: every request goes to the router, and
//! every outcome, a refusal, a crash or a timeout included, becomes a
//! response.

use crate::api::adapters::api_adapter::{pairs_view, ApiRequest, ApiResponse, ApiResponseBody};
use crate::api::handlers::common::utils::{default_headers, default_headers_view};
use crate::config::specific::entity_config::HttpMethod;
use crate::error::{api_error_text, status_of_kind, RusterApiError};
use crate::json::{lemma_view_of_parts, members_view, JsonModel, JsonValue};
use crate::string_map::StringMap;
use vstd::prelude::*;

verus! {

/// The number of seconds that a transport waits for the router before it
/// answers for it.
pub const REQUEST_TIMEOUT_SECONDS: u64 = 30;

/// The largest request body, in mebibytes, that a transport reads.
pub const MAX_BODY_MEBIBYTES: u64 = 2;

/// Builds the request that a transport hands to the router: the method, the
/// path as the transport saw it, the body if the method carries one; no
/// parameters and no headers.
pub fn build_request(method: HttpMethod, path: String, body: Option<String>) -> (r: ApiRequest)
    ensures
        r.method == method,
        r.path == path,
        r.body == body,
        r.params@.len() == 0,
        r.headers@.len() == 0,
{
    ApiRequest { method, path, params: StringMap::new(), headers: StringMap::new(), body }
}

/// How a dispatch ended, as the transport saw it.
#[derive(Debug)]
pub enum Completion {
    /// The router answered.
    Answered(Result<ApiResponse<JsonValue>, RusterApiError>),
    /// The task that ran the router did not come back.
    Crashed,
    /// The router did not answer in time.
    TimedOut,
}

/// The body of an error response: `{"error": "<message>"}`.
pub open spec fn error_document(message: Seq<char>) -> JsonModel {
    JsonModel::Object(seq![("error"@, JsonModel::Text(message))])
}

/// The status and the message with which a dispatch that gave no response is
/// answered for.
pub open spec fn failure_of(completion: Completion) -> Option<(u16, Seq<char>)> {
    match completion {
        Completion::Answered(Ok(_)) => None,
        Completion::Answered(Err(error)) => Some(
            (status_of_kind(error@.0), api_error_text(error@)),
        ),
        Completion::Crashed => Some(
            (500, "Internal server error: Request processing failed"@),
        ),
        Completion::TimedOut => Some(
            (504, "Request timed out - database operation may be taking too long"@),
        ),
    }
}

/// Builds the body of an error response.
pub fn error_body(message: String) -> (r: JsonValue)
    ensures
        r@ == error_document(message@),
{
    let mut members: Vec<(String, JsonValue)> = Vec::new();
    members.push((String::from_str("error"), JsonValue::Text(message)));
    let r = JsonValue::Object(members);
    proof {
        lemma_view_of_parts(r);
        assert(members_view(members@) =~= seq![("error"@, JsonModel::Text(message@))]);
    }
    r
}

/// Builds an error response: the status, the default headers and the message
/// in a JSON body.
pub fn error_response(status: u16, message: String) -> (r: ApiResponse<JsonValue>)
    ensures
        r.status == status,
        pairs_view(r.headers@) == default_headers_view(),
        r.body matches Some(ApiResponseBody::Json(body)) && body@ == error_document(message@),
{
    ApiResponse {
        status,
        headers: default_headers(),
        body: Some(ApiResponseBody::Json(error_body(message))),
    }
}

/// Turns the end of a dispatch into the response that the transport sends. A
/// response of the router goes through as it is. An error is answered with
/// the status of its kind, a crash with 500 and a timeout with 504, each with
/// its message in a JSON body.
pub fn process_result(completion: Completion) -> (r: ApiResponse<JsonValue>)
    ensures
        match failure_of(completion) {
            None => completion matches Completion::Answered(Ok(response)) && r == response,
            Some((status, message)) => {
                &&& r.status == status
                &&& pairs_view(r.headers@) == default_headers_view()
                &&& r.body matches Some(ApiResponseBody::Json(body)) && body@ == error_document(
                    message,
                )
            },
        },
{
    match completion {
        Completion::Answered(Ok(response)) => response,
        Completion::Answered(Err(error)) => error_response(error.status_code(), error.to_text()),
        Completion::Crashed => error_response(
            500,
            String::from_str("Internal server error: Request processing failed"),
        ),
        Completion::TimedOut => error_response(
            504,
            String::from_str("Request timed out - database operation may be taking too long"),
        ),
    }
}

} // verus!
