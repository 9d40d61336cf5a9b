//! The headers that every generated response carries and the error that a
//! failed datasource call becomes.

use crate::api::adapters::api_adapter::{
    pairs_view, ApiRequest, ApiResponse, ApiResponseBody, EndpointHandler, Outcome, ResponseView,
};
use crate::config::specific::entity_config::{method_tag, HttpMethod};
use crate::data::datasource::base::{datasource_error_text, DataSourceError, Failure};
use crate::error::{ApiErrorKind, Refusal, RusterApiError};
use crate::string_map::{lookup, put, StringMap};
use crate::text::{concat2, concat3};
use vstd::prelude::*;

verus! {

/// The default response headers: `Content-Type: application/json`.
pub open spec fn default_headers_view() -> Seq<(Seq<char>, Seq<char>)> {
    seq![("Content-Type"@, "application/json"@)]
}

/// Returns default headers for API responses.
pub fn default_headers() -> (r: StringMap<String>)
    ensures
        pairs_view(r@) == default_headers_view(),
{
    let mut headers: StringMap<String> = StringMap::new();
    let value = String::from_str("application/json");
    headers.insert(String::from_str("Content-Type"), value);
    headers
}

/// The request-layer error that a failed datasource call becomes.
pub open spec fn datasource_failure(error: Failure) -> Refusal {
    (
        ApiErrorKind::EndpointGenerationError,
        "Error retrieving items: "@ + datasource_error_text(error),
    )
}

/// Handles errors from the datasource and formats them into an API error.
pub fn handle_datasource_error(err: &DataSourceError) -> (r: RusterApiError)
    ensures
        r@ == datasource_failure(err@),
{
    let text = err.to_text();
    RusterApiError::EndpointGenerationError(concat2("Error retrieving items: ", text.as_str()))
}

/// The answer that refuses a request with an error.
pub open spec fn refused<T>(error: Refusal) -> Outcome<T> {
    Err(error)
}

/// A response with the default headers.
pub open spec fn json_response<T>(status: u16, body: Option<ApiResponseBody<T>>) -> ResponseView<
    T,
> {
    ResponseView { status, headers: default_headers_view(), body }
}

/// A response with the given status and body and the default headers.
pub fn respond<T>(status: u16, body: Option<ApiResponseBody<T>>) -> (r: ApiResponse<T>)
    ensures
        r@ == json_response(status, body),
{
    ApiResponse { status, headers: default_headers(), body }
}

/// The error for a request that lacks the `id` path parameter.
pub open spec fn missing_id() -> Refusal {
    (ApiErrorKind::ValidationError, "ID parameter missing"@)
}

/// The error for a request without a body.
pub open spec fn missing_body() -> Refusal {
    (ApiErrorKind::BadRequest, "Request body is required"@)
}

/// The error for a body that does not describe a record.
pub open spec fn invalid_format(message: Seq<char>) -> Refusal {
    (ApiErrorKind::BadRequest, "Invalid request format: "@ + message)
}

/// The error for an id under which nothing is stored.
pub open spec fn item_not_found(id: Seq<char>) -> Refusal {
    (ApiErrorKind::EntityNotFound, "Item with ID "@ + id + " not found"@)
}

/// The `id` path parameter of a request.
pub open spec fn id_param(request: ApiRequest) -> Option<Seq<char>> {
    match lookup(request.params@, "id"@) {
        Some(id) => Some(id@),
        None => None,
    }
}

/// The body of a request, if it has one that is not empty.
pub open spec fn required_body(request: ApiRequest) -> Option<Seq<char>> {
    match request.body {
        Some(body) => if body@.len() > 0 {
            Some(body@)
        } else {
            None
        },
        None => None,
    }
}

/// The `id` path parameter of a request; a request without one is rejected.
pub fn require_id(request: &ApiRequest) -> (r: Result<&String, RusterApiError>)
    ensures
        match r {
            Ok(id) => id_param(*request) == Some(id@),
            Err(e) => id_param(*request) is None && e@ == missing_id(),
        },
{
    match request.params.get("id") {
        Some(id) => Ok(id),
        None => Err(RusterApiError::ValidationError(String::from_str("ID parameter missing"))),
    }
}

/// The error for an id under which nothing is stored.
pub fn not_found_error(id: &str) -> (r: RusterApiError)
    ensures
        r@ == item_not_found(id@),
{
    RusterApiError::EntityNotFound(concat3("Item with ID ", id, " not found"))
}

/// The key under which a handler is registered: the method tag, a colon and
/// the path without a leading slash.
pub open spec fn endpoint_key(method: HttpMethod, path: Seq<char>) -> Seq<char> {
    method_tag(method) + ":"@ + path
}

/// Builds the endpoint key of a method and a path.
pub fn make_endpoint_key(method: HttpMethod, path: &str) -> (r: String)
    ensures
        r@ == endpoint_key(method, path@),
{
    concat3(method.tag(), ":", path)
}

/// The keys of `keys` that are taken in `endpoints` at the moment they are
/// registered, one after the other, for `handler`.
pub open spec fn overwritten(
    endpoints: Seq<(Seq<char>, EndpointHandler)>,
    keys: Seq<Seq<char>>,
    handler: EndpointHandler,
) -> Seq<Seq<char>>
    decreases keys.len(),
{
    if keys.len() == 0 {
        Seq::empty()
    } else {
        let rest = overwritten(put(endpoints, keys[0], handler), keys.drop_first(), handler);
        if lookup(endpoints, keys[0]) is Some {
            seq![keys[0]] + rest
        } else {
            rest
        }
    }
}

/// The registry after `handler` was registered under each of `keys`.
pub open spec fn registered(
    endpoints: Seq<(Seq<char>, EndpointHandler)>,
    keys: Seq<Seq<char>>,
    handler: EndpointHandler,
) -> Seq<(Seq<char>, EndpointHandler)>
    decreases keys.len(),
{
    if keys.len() == 0 {
        endpoints
    } else {
        registered(put(endpoints, keys[0], handler), keys.drop_first(), handler)
    }
}

/// The warning that registering under `key` owes: the key itself where it is
/// taken, nothing where it is free.
pub open spec fn put_warning(endpoints: Seq<(Seq<char>, EndpointHandler)>, key: Seq<char>) -> Seq<
    Seq<char>,
> {
    if lookup(endpoints, key) is Some {
        seq![key]
    } else {
        Seq::empty()
    }
}

/// Registers `handler` under `key`. A handler that was registered under the
/// key before is overwritten, and the key is added to `warnings`.
pub fn register_endpoint(
    endpoints: &mut StringMap<EndpointHandler>,
    key: String,
    handler: EndpointHandler,
    warnings: &mut Vec<String>,
)
    ensures
        final(endpoints)@ == put(old(endpoints)@, key@, handler),
        final(warnings).deep_view() == old(warnings).deep_view() + put_warning(
            old(endpoints)@,
            key@,
        ),
{
    let kept = key.clone();
    match endpoints.insert(key, handler) {
        Some(_) => {
            warnings.push(kept);
        },
        None => {},
    }
}

/// The two keys of a generated endpoint: the canonical one, and the one that
/// keeps a literal `api/` in front of the path.
pub open spec fn endpoint_keys(method: HttpMethod, path: Seq<char>) -> Seq<Seq<char>> {
    seq![endpoint_key(method, path), endpoint_key(method, "api/"@ + path)]
}

/// Registers `handler` under the two keys of `method` and `path`, and returns
/// the keys that were taken before.
pub fn register_generated(
    endpoints: &mut StringMap<EndpointHandler>,
    method: HttpMethod,
    path: &str,
    handler: EndpointHandler,
) -> (warnings: Vec<String>)
    ensures
        final(endpoints)@ == registered(old(endpoints)@, endpoint_keys(method, path@), handler),
        warnings.deep_view() == overwritten(
            old(endpoints)@,
            endpoint_keys(method, path@),
            handler,
        ),
{
    let mut warnings: Vec<String> = Vec::new();
    let ghost start = endpoints@;
    let ghost keys = endpoint_keys(method, path@);
    register_endpoint(endpoints, make_endpoint_key(method, path), handler, &mut warnings);
    let api_path = concat2("api/", path);
    register_endpoint(
        endpoints,
        make_endpoint_key(method, api_path.as_str()),
        handler,
        &mut warnings,
    );
    proof {
        let middle = put(start, keys[0], handler);
        let rest = keys.drop_first();
        assert(registered(put(middle, rest[0], handler), rest.drop_first(), handler) == put(
            middle,
            rest[0],
            handler,
        ));
        assert(registered(middle, rest, handler) == put(middle, rest[0], handler));
        assert(overwritten(put(middle, rest[0], handler), rest.drop_first(), handler)
            == Seq::<Seq<char>>::empty());
        let second = if lookup(middle, keys[1]) is Some {
            seq![keys[1]]
        } else {
            Seq::<Seq<char>>::empty()
        };
        assert(overwritten(middle, rest, handler) =~= second);
    }
    warnings
}

} // verus!
