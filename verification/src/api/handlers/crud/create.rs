//! The create endpoint: `POST <entity>`.

use crate::api::adapters::api_adapter::{
    outcome_view, ApiRequest, ApiResponse, ApiResponseBody, EndpointHandler, Outcome,
};
use crate::api::common::api_entity::{read_view, ApiEntity};
use crate::api::handlers::common::utils::{
    endpoint_keys, invalid_format, json_response, missing_body, overwritten, refused,
    register_generated, registered, required_body, respond,
};
use crate::config::specific::entity_config::{Entity, HttpMethod};
use crate::data::datasource::base::{
    datasource_error_text, stored_view, DataSource, DataSourceError, Failure,
};
use crate::error::{status_of_kind, ApiErrorKind, Refusal, RusterApiError};
use crate::json::{parse, parse_result, JsonValue};
use crate::string_map::StringMap;
use crate::text::concat2;
use vstd::prelude::*;

verus! {

/// Registers the create endpoint of an entity under `POST:<name>` and
/// `POST:api/<name>`. Returns the keys that were taken before: the caller owes
/// a warning for each, and the new registration stands.
pub fn register_create_endpoint(
    entity: &Entity,
    endpoints: &mut StringMap<EndpointHandler>,
) -> (warnings: Vec<String>)
    ensures
        final(endpoints)@ == registered(
            old(endpoints)@,
            endpoint_keys(HttpMethod::POST, entity.name@),
            EndpointHandler::Create,
        ),
        warnings.deep_view() == overwritten(
            old(endpoints)@,
            endpoint_keys(HttpMethod::POST, entity.name@),
            EndpointHandler::Create,
        ),
{
    register_generated(endpoints, HttpMethod::POST, entity.name.as_str(), EndpointHandler::Create)
}

/// What the create endpoint answers to what the datasource returned: 201 with
/// the created record, or a server error that wraps the datasource's message.
pub open spec fn create_outcome<T>(stored: Result<T, Failure>) -> Outcome<T> {
    match stored {
        Ok(item) => Ok(json_response(201, Some(ApiResponseBody::Single(item)))),
        Err(error) => Err(
            (ApiErrorKind::ServerError, "Failed to create item: "@ + datasource_error_text(error)),
        ),
    }
}

/// Answers a create request from what the datasource returned.
pub fn create_response<T>(stored: Result<T, DataSourceError>) -> (r: Result<
    ApiResponse<T>,
    RusterApiError,
>)
    ensures
        outcome_view(r) == create_outcome(stored_view(stored)),
{
    match stored {
        Ok(item) => Ok(respond(201, Some(ApiResponseBody::Single(item)))),
        Err(error) => {
            let text = error.to_text();
            Err(RusterApiError::ServerError(concat2("Failed to create item: ", text.as_str())))
        },
    }
}

/// The record of a request body, or the refusal of the request, from what the
/// payload type made of the document in the body.
pub open spec fn record_or_refusal<T>(read: Result<T, Seq<char>>) -> Result<T, Refusal> {
    match read {
        Ok(item) => Ok(item),
        Err(reason) => Err(invalid_format(reason)),
    }
}

/// What reading the record of a request body may give. A request without a
/// body, or with an empty one, is refused; so is a body that is no JSON. A
/// body that is JSON gives what the payload type makes of its document: the
/// record, or a refusal with the payload type's reason.
pub open spec fn body_answer<T: ApiEntity>(request: ApiRequest, record: Result<T, Refusal>) -> bool {
    match required_body(request) {
        None => record == Err::<T, Refusal>(missing_body()),
        Some(body) => match parse_result(body) {
            Err(message) => record == Err::<T, Refusal>(invalid_format(message)),
            Ok(content) => exists|document: JsonValue, read: Result<T, Seq<char>>|
                document@ == content && #[trigger] T::may_read(document, read) && record
                    == record_or_refusal(read),
        },
    }
}

/// The result of reading a request body, with the error as kind and message.
pub open spec fn record_view<T>(record: Result<T, RusterApiError>) -> Result<T, Refusal> {
    match record {
        Ok(item) => Ok(item),
        Err(error) => Err(error@),
    }
}

/// Reads the record that the body of a request describes.
pub fn read_body<T: ApiEntity>(request: &ApiRequest) -> (r: Result<T, RusterApiError>)
    ensures
        body_answer(*request, record_view(r)),
{
    let body = match &request.body {
        Some(b) => {
            if b.as_str().unicode_len() == 0 {
                return Err(
                    RusterApiError::BadRequest(String::from_str("Request body is required")),
                );
            }
            b
        },
        None => {
            return Err(RusterApiError::BadRequest(String::from_str("Request body is required")));
        },
    };
    record_of_parsed(parse(body.as_str()))
}

/// What the record of a parsed body may be: a body that is no JSON is
/// refused with the parser's message; a document gives what the payload type
/// makes of it, the record or a refusal with the payload type's reason.
pub open spec fn parsed_answer<T: ApiEntity>(
    parsed: Result<JsonValue, String>,
    record: Result<T, Refusal>,
) -> bool {
    match parsed {
        Err(message) => record == Err::<T, Refusal>(invalid_format(message@)),
        Ok(document) => exists|read: Result<T, Seq<char>>| #[trigger]
            T::may_read(document, read) && record == record_or_refusal(read),
    }
}

/// Turns what the parser made of a request body into the record that the
/// body describes, or into the refusal of the request.
pub fn record_of_parsed<T: ApiEntity>(parsed: Result<JsonValue, String>) -> (r: Result<
    T,
    RusterApiError,
>)
    ensures
        parsed_answer(parsed, record_view(r)),
{
    let document = match parsed {
        Ok(document) => document,
        Err(message) => {
            return Err(
                RusterApiError::BadRequest(
                    concat2("Invalid request format: ", message.as_str()),
                ),
            );
        },
    };
    let read = T::from_document(document);
    let r = match read {
        Ok(item) => Ok(item),
        Err(message) => Err(
            RusterApiError::BadRequest(concat2("Invalid request format: ", message.as_str())),
        ),
    };
    proof {
        assert(T::may_read(document, read_view(read)));
        assert(record_view(r) == record_or_refusal(read_view(read)));
    }
    r
}

/// What the create endpoint may answer once the record of the body is read:
/// what the datasource may return for the record and the entity's name,
/// turned into a response.
pub open spec fn stored_answer<T, D: DataSource<T>>(
    datasource: D,
    entity_name: Seq<char>,
    item: T,
    outcome: Outcome<T>,
) -> bool {
    exists|stored: Result<T, Failure>| #[trigger]
        datasource.may_create(item, Some(entity_name), stored) && outcome == create_outcome(
            stored,
        )
}

/// What the create endpoint may answer to a request. A request whose body
/// gives no record is refused before the datasource is touched; else the
/// record is handed to the datasource under the entity's name, and the answer
/// follows from what the datasource returns.
pub open spec fn create_answer<T: ApiEntity, D: DataSource<T>>(
    datasource: D,
    entity_name: Seq<char>,
    request: ApiRequest,
    outcome: Outcome<T>,
) -> bool {
    exists|record: Result<T, Refusal>| #[trigger]
        body_answer(request, record) && match record {
            Err(error) => outcome == refused::<T>(error),
            Ok(item) => stored_answer(datasource, entity_name, item, outcome),
        }
}

/// Serves a create request: reads the record from the body, stores it under
/// the entity's name and answers with what was stored.
pub fn handle_create<T: ApiEntity, D: DataSource<T>>(
    datasource: &D,
    entity_name: &str,
    request: &ApiRequest,
) -> (r: Result<ApiResponse<T>, RusterApiError>)
    ensures
        create_answer(*datasource, entity_name@, *request, outcome_view(r)),
{
    let record = read_body::<T>(request);
    let item = match record {
        Ok(item) => item,
        Err(error) => {
            let r: Result<ApiResponse<T>, RusterApiError> = Err(error);
            return r;
        },
    };
    let stored = datasource.create(item, Some(entity_name));
    create_response(stored)
}

/// A create request without a body, or with an empty one, has one answer
/// whatever the datasource holds: the bad request error, with status 400.
pub proof fn lemma_create_without_body<T: ApiEntity, D: DataSource<T>>(
    datasource: D,
    entity_name: Seq<char>,
    request: ApiRequest,
    outcome: Outcome<T>,
)
    requires
        required_body(request) is None,
    ensures
        create_answer(datasource, entity_name, request, outcome) <==> outcome == refused::<T>(
            missing_body(),
        ),
        status_of_kind(missing_body().0) == 400,
{
    let refusal: Result<T, Refusal> = Err(missing_body());
    assert(body_answer(request, refusal));
}

} // verus!
