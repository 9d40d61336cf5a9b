//! The read endpoint: `GET <entity>/:id`.

use crate::api::adapters::api_adapter::{
    outcome_view, ApiRequest, ApiResponse, ApiResponseBody, EndpointHandler, Outcome,
};
use crate::api::handlers::common::utils::{
    datasource_failure, endpoint_keys, handle_datasource_error, id_param, item_not_found,
    json_response, missing_id, not_found_error, overwritten, refused, register_generated,
    registered, require_id, respond,
};
use crate::config::specific::entity_config::{Entity, HttpMethod};
use crate::data::datasource::base::{stored_view, DataSource, DataSourceError, Failure};
use crate::error::RusterApiError;
use crate::string_map::StringMap;
use crate::text::concat2;
use vstd::prelude::*;

verus! {

/// The path of the endpoints that work on one record: `<name>/:id`.
pub open spec fn record_path(name: Seq<char>) -> Seq<char> {
    name + "/:id"@
}

/// Builds the path of the endpoints that work on one record.
pub fn make_record_path(name: &str) -> (r: String)
    ensures
        r@ == record_path(name@),
{
    concat2(name, "/:id")
}

/// Registers the read endpoint of an entity under `GET:<name>/:id` and
/// `GET:api/<name>/:id`. Returns the keys that were taken before.
pub fn register_read_endpoint(
    entity: &Entity,
    endpoints: &mut StringMap<EndpointHandler>,
) -> (warnings: Vec<String>)
    ensures
        final(endpoints)@ == registered(
            old(endpoints)@,
            endpoint_keys(HttpMethod::GET, record_path(entity.name@)),
            EndpointHandler::Read,
        ),
        warnings.deep_view() == overwritten(
            old(endpoints)@,
            endpoint_keys(HttpMethod::GET, record_path(entity.name@)),
            EndpointHandler::Read,
        ),
{
    let path = make_record_path(entity.name.as_str());
    register_generated(endpoints, HttpMethod::GET, path.as_str(), EndpointHandler::Read)
}

/// What the read endpoint answers to what the datasource returned: 200 with
/// the record, not found where there is none, or the datasource's failure.
pub open spec fn read_outcome<T>(id: Seq<char>, found: Result<Option<T>, Failure>) -> Outcome<T> {
    match found {
        Ok(Some(item)) => Ok(json_response(200, Some(ApiResponseBody::Single(item)))),
        Ok(None) => Err(item_not_found(id)),
        Err(error) => Err(datasource_failure(error)),
    }
}

/// Answers a read request from what the datasource returned.
pub fn read_response<T>(id: &str, found: Result<Option<T>, DataSourceError>) -> (r: Result<
    ApiResponse<T>,
    RusterApiError,
>)
    ensures
        outcome_view(r) == read_outcome(id@, stored_view(found)),
{
    match found {
        Ok(Some(item)) => Ok(respond(200, Some(ApiResponseBody::Single(item)))),
        Ok(None) => Err(not_found_error(id)),
        Err(error) => Err(handle_datasource_error(&error)),
    }
}

/// What the read endpoint may answer to a request: a request without `id` is
/// refused; else the datasource is asked for the record with that id under
/// the entity's name, and the answer follows from what it returns.
pub open spec fn read_answer<T, D: DataSource<T>>(
    datasource: D,
    entity_name: Seq<char>,
    request: ApiRequest,
    outcome: Outcome<T>,
) -> bool {
    match id_param(request) {
        None => outcome == refused::<T>(missing_id()),
        Some(id) => exists|found: Result<Option<T>, Failure>| #[trigger]
            datasource.may_find(id, Some(entity_name), found) && outcome == read_outcome(
                id,
                found,
            ),
    }
}

/// Serves a read request: looks the record up by the `id` path parameter.
pub fn handle_read<T, D: DataSource<T>>(
    datasource: &D,
    entity_name: &str,
    request: &ApiRequest,
) -> (r: Result<ApiResponse<T>, RusterApiError>)
    ensures
        read_answer(*datasource, entity_name@, *request, outcome_view(r)),
{
    let id = match require_id(request) {
        Ok(id) => id,
        Err(error) => {
            let r: Result<ApiResponse<T>, RusterApiError> = Err(error);
            return r;
        },
    };
    let found = datasource.get_by_id(id.as_str(), Some(entity_name));
    read_response(id.as_str(), found)
}

} // verus!
