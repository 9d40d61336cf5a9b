//! The delete endpoint: `DELETE <entity>/:id`.

use crate::api::adapters::api_adapter::{
    outcome_view, ApiRequest, ApiResponse, EndpointHandler, Outcome,
};
use crate::api::handlers::common::utils::{
    datasource_failure, endpoint_keys, handle_datasource_error, id_param, item_not_found,
    json_response, missing_id, not_found_error, overwritten, refused, register_generated,
    registered, require_id, respond,
};
use crate::api::handlers::crud::read::{make_record_path, record_path};
use crate::config::specific::entity_config::{Entity, HttpMethod};
use crate::data::datasource::base::{stored_view, DataSource, DataSourceError, Failure};
use crate::error::RusterApiError;
use crate::string_map::StringMap;
use vstd::prelude::*;

verus! {

/// Registers the delete endpoint of an entity under `DELETE:<name>/:id` and
/// `DELETE:api/<name>/:id`. Returns the keys that were taken before.
pub fn register_delete_endpoint(
    entity: &Entity,
    endpoints: &mut StringMap<EndpointHandler>,
) -> (warnings: Vec<String>)
    ensures
        final(endpoints)@ == registered(
            old(endpoints)@,
            endpoint_keys(HttpMethod::DELETE, record_path(entity.name@)),
            EndpointHandler::Delete,
        ),
        warnings.deep_view() == overwritten(
            old(endpoints)@,
            endpoint_keys(HttpMethod::DELETE, record_path(entity.name@)),
            EndpointHandler::Delete,
        ),
{
    let path = make_record_path(entity.name.as_str());
    register_generated(endpoints, HttpMethod::DELETE, path.as_str(), EndpointHandler::Delete)
}

/// What the delete endpoint answers to what the datasource returned: 204
/// without a body where a record was removed, not found where none was, or
/// the datasource's failure.
pub open spec fn delete_outcome<T>(id: Seq<char>, removed: Result<bool, Failure>) -> Outcome<T> {
    match removed {
        Ok(true) => Ok(json_response(204, None)),
        Ok(false) => Err(item_not_found(id)),
        Err(error) => Err(datasource_failure(error)),
    }
}

/// Answers a delete request from what the datasource returned.
pub fn delete_response<T>(id: &str, removed: Result<bool, DataSourceError>) -> (r: Result<
    ApiResponse<T>,
    RusterApiError,
>)
    ensures
        outcome_view(r) == delete_outcome::<T>(id@, stored_view(removed)),
{
    match removed {
        Ok(true) => Ok(respond(204, None)),
        Ok(false) => Err(not_found_error(id)),
        Err(error) => Err(handle_datasource_error(&error)),
    }
}

/// What the delete endpoint may answer to a request: a request without `id`
/// is refused; else the datasource is asked to remove the record with that id
/// under the entity's name, and the answer follows from what it returns.
pub open spec fn delete_answer<T, D: DataSource<T>>(
    datasource: D,
    entity_name: Seq<char>,
    request: ApiRequest,
    outcome: Outcome<T>,
) -> bool {
    match id_param(request) {
        None => outcome == refused::<T>(missing_id()),
        Some(id) => exists|removed: Result<bool, Failure>| #[trigger]
            datasource.may_delete(id, Some(entity_name), removed) && outcome == delete_outcome::<
                T,
            >(id, removed),
    }
}

/// Serves a delete request: removes the record named by the `id` path
/// parameter.
pub fn handle_delete<T, D: DataSource<T>>(
    datasource: &D,
    entity_name: &str,
    request: &ApiRequest,
) -> (r: Result<ApiResponse<T>, RusterApiError>)
    ensures
        delete_answer(*datasource, entity_name@, *request, outcome_view(r)),
{
    let id = match require_id(request) {
        Ok(id) => id,
        Err(error) => {
            let r: Result<ApiResponse<T>, RusterApiError> = Err(error);
            return r;
        },
    };
    let removed = datasource.delete(id.as_str(), Some(entity_name));
    delete_response::<T>(id.as_str(), removed)
}

} // verus!
