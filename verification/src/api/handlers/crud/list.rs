//! The list endpoint: `GET <entity>`.

use crate::api::adapters::api_adapter::{
    outcome_view, ApiRequest, ApiResponse, ApiResponseBody, EndpointHandler, Outcome,
};
use crate::api::handlers::common::utils::{
    datasource_failure, endpoint_keys, handle_datasource_error, json_response, overwritten,
    register_generated, registered, respond,
};
use crate::config::specific::entity_config::HttpMethod;
use crate::data::datasource::base::{stored_view, DataSource, DataSourceError, Failure};
use crate::error::RusterApiError;
use crate::string_map::StringMap;
use vstd::prelude::*;

verus! {

/// Registers the list endpoint of an entity under `GET:<base_path>` and
/// `GET:api/<base_path>`. Returns the keys that were taken before.
pub fn register_list_endpoint(
    base_path: &str,
    endpoints: &mut StringMap<EndpointHandler>,
) -> (warnings: Vec<String>)
    ensures
        final(endpoints)@ == registered(
            old(endpoints)@,
            endpoint_keys(HttpMethod::GET, base_path@),
            EndpointHandler::List,
        ),
        warnings.deep_view() == overwritten(
            old(endpoints)@,
            endpoint_keys(HttpMethod::GET, base_path@),
            EndpointHandler::List,
        ),
{
    register_generated(endpoints, HttpMethod::GET, base_path, EndpointHandler::List)
}

/// What the list endpoint answers to what the datasource returned: 200 with
/// the records, however few, or the datasource's failure.
pub open spec fn list_outcome<T>(listed: Result<Vec<T>, Failure>) -> Outcome<T> {
    match listed {
        Ok(items) => Ok(json_response(200, Some(ApiResponseBody::List(items)))),
        Err(error) => Err(datasource_failure(error)),
    }
}

/// Answers a list request from what the datasource returned.
pub fn list_response<T>(listed: Result<Vec<T>, DataSourceError>) -> (r: Result<
    ApiResponse<T>,
    RusterApiError,
>)
    ensures
        outcome_view(r) == list_outcome(stored_view(listed)),
{
    match listed {
        Ok(items) => Ok(respond(200, Some(ApiResponseBody::List(items)))),
        Err(error) => Err(handle_datasource_error(&error)),
    }
}

/// What the list endpoint may answer: whatever the request holds, the
/// datasource is asked for all records under the entity's name, and the
/// answer follows from what it returns.
pub open spec fn list_answer<T, D: DataSource<T>>(
    datasource: D,
    entity_name: Seq<char>,
    outcome: Outcome<T>,
) -> bool {
    exists|listed: Result<Vec<T>, Failure>| #[trigger]
        datasource.may_list(Some(entity_name), listed) && outcome == list_outcome(listed)
}

/// Serves a list request.
pub fn handle_list<T, D: DataSource<T>>(
    datasource: &D,
    entity_name: &str,
    request: &ApiRequest,
) -> (r: Result<ApiResponse<T>, RusterApiError>)
    ensures
        list_answer(*datasource, entity_name@, outcome_view(r)),
{
    let listed = datasource.get_all(Some(entity_name));
    list_response(listed)
}

/// Listing never turns records into an error. Where the datasource returns
/// records, none at all included, the answer is 200 with those records; so a
/// list request to a backend that has nothing to report but its records, be
/// it empty, is never answered with an error.
pub proof fn lemma_list_of_records<T, D: DataSource<T>>(
    datasource: D,
    entity_name: Seq<char>,
    outcome: Outcome<T>,
)
    requires
        list_answer(datasource, entity_name, outcome),
        forall|listed: Result<Vec<T>, Failure>| #[trigger]
            datasource.may_list(Some(entity_name), listed) ==> listed is Ok,
    ensures
        outcome matches Ok(response) && (response.status == 200 && (response.body matches Some(
            ApiResponseBody::List(items),
        ) && datasource.may_list(Some(entity_name), Ok(items)))),
{
}

/// Listing an empty backend is no error. Where the datasource can only
/// report that it holds no records, the answer is 200 with an empty list.
pub proof fn lemma_list_on_empty_backend<T, D: DataSource<T>>(
    datasource: D,
    entity_name: Seq<char>,
    outcome: Outcome<T>,
)
    requires
        list_answer(datasource, entity_name, outcome),
        forall|listed: Result<Vec<T>, Failure>| #[trigger]
            datasource.may_list(Some(entity_name), listed) ==> (listed matches Ok(items)
                && items@.len() == 0),
    ensures
        outcome matches Ok(response) && (response.status == 200 && (response.body matches Some(
            ApiResponseBody::List(items),
        ) && items@.len() == 0)),
{
}

} // verus!
