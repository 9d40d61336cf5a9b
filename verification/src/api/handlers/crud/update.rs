//! The update endpoint: `PUT <entity>/:id`.
//!
//! The handler first asks the datasource whether the record exists and writes
//! only if it does. Check and write are two calls: a concurrent delete may
//! fall between them.

use crate::api::adapters::api_adapter::{
    outcome_view, ApiRequest, ApiResponse, ApiResponseBody, EndpointHandler, Outcome,
};
use crate::api::common::api_entity::ApiEntity;
use crate::api::handlers::common::utils::{
    datasource_failure, endpoint_keys, handle_datasource_error, id_param, item_not_found,
    json_response, missing_body, missing_id, not_found_error, overwritten, refused,
    register_generated, registered, require_id, required_body, respond,
};
use crate::api::handlers::crud::create::{body_answer, read_body};
use crate::api::handlers::crud::read::{make_record_path, record_path};
use crate::config::specific::entity_config::{Entity, HttpMethod};
use crate::data::datasource::base::{stored_view, DataSource, DataSourceError, Failure};
use crate::error::{status_of_kind, Refusal, RusterApiError};
use crate::string_map::StringMap;
use vstd::prelude::*;

verus! {

/// Registers the update endpoint of an entity under `PUT:<name>/:id` and
/// `PUT:api/<name>/:id`. Returns the keys that were taken before.
pub fn register_update_endpoint(
    entity: &Entity,
    endpoints: &mut StringMap<EndpointHandler>,
) -> (warnings: Vec<String>)
    ensures
        final(endpoints)@ == registered(
            old(endpoints)@,
            endpoint_keys(HttpMethod::PUT, record_path(entity.name@)),
            EndpointHandler::Update,
        ),
        warnings.deep_view() == overwritten(
            old(endpoints)@,
            endpoint_keys(HttpMethod::PUT, record_path(entity.name@)),
            EndpointHandler::Update,
        ),
{
    let path = make_record_path(entity.name.as_str());
    register_generated(endpoints, HttpMethod::PUT, path.as_str(), EndpointHandler::Update)
}

/// What the update endpoint does once the datasource has said whether the
/// record exists.
#[derive(Debug, PartialEq, Eq)]
pub enum UpdateStep {
    /// The record exists: write.
    Write,
    /// Nothing is written; this is the answer.
    Refuse(RusterApiError),
}

/// The step after the existence check: write if the record is there, refuse
/// with not found if it is not, refuse with the datasource's failure if the
/// check itself failed.
pub open spec fn step_after_lookup<T>(id: Seq<char>, found: Result<Option<T>, Failure>) -> Option<
    Refusal,
> {
    match found {
        Ok(Some(_)) => None,
        Ok(None) => Some(item_not_found(id)),
        Err(error) => Some(datasource_failure(error)),
    }
}

/// Decides, from the result of the existence check, whether the update is
/// written.
pub fn update_step<T>(id: &str, found: &Result<Option<T>, DataSourceError>) -> (r: UpdateStep)
    ensures
        match r {
            UpdateStep::Write => step_after_lookup(id@, stored_view(*found)) is None,
            UpdateStep::Refuse(error) => step_after_lookup(id@, stored_view(*found)) == Some(
                error@,
            ),
        },
{
    match found {
        Ok(Some(_)) => UpdateStep::Write,
        Ok(None) => UpdateStep::Refuse(not_found_error(id)),
        Err(error) => UpdateStep::Refuse(handle_datasource_error(error)),
    }
}

/// What the update endpoint answers to a write: 200 with the updated record,
/// or the datasource's failure.
pub open spec fn write_outcome<T>(written: Result<T, Failure>) -> Outcome<T> {
    match written {
        Ok(item) => Ok(json_response(200, Some(ApiResponseBody::Single(item)))),
        Err(error) => Err(datasource_failure(error)),
    }
}

/// Answers an update request from what the write returned.
pub fn update_response<T>(written: Result<T, DataSourceError>) -> (r: Result<
    ApiResponse<T>,
    RusterApiError,
>)
    ensures
        outcome_view(r) == write_outcome(stored_view(written)),
{
    match written {
        Ok(item) => Ok(respond(200, Some(ApiResponseBody::Single(item)))),
        Err(error) => Err(handle_datasource_error(&error)),
    }
}

/// What the update endpoint may answer once the existence check has said that
/// the record is there: what the datasource may return for the write of the
/// record under that id and the entity's name, turned into a response.
pub open spec fn written_answer<T, D: DataSource<T>>(
    datasource: D,
    entity_name: Seq<char>,
    id: Seq<char>,
    item: T,
    outcome: Outcome<T>,
) -> bool {
    exists|written: Result<T, Failure>| #[trigger]
        datasource.may_update(id, item, Some(entity_name), written) && outcome == write_outcome(
            written,
        )
}

/// What the update endpoint may answer once id and record are read: the
/// datasource is asked whether a record with the id exists under the entity's
/// name; if not, or if the check fails, that is the answer and nothing is
/// written; if so, the record is written.
pub open spec fn checked_answer<T, D: DataSource<T>>(
    datasource: D,
    entity_name: Seq<char>,
    id: Seq<char>,
    item: T,
    outcome: Outcome<T>,
) -> bool {
    exists|found: Result<Option<T>, Failure>| #[trigger]
        datasource.may_find(id, Some(entity_name), found) && match step_after_lookup(id, found) {
            Some(error) => outcome == refused::<T>(error),
            None => written_answer(datasource, entity_name, id, item, outcome),
        }
}

/// What the update endpoint may answer to a request. The `id` is checked
/// first, then the body; both before the datasource is touched.
pub open spec fn update_answer<T: ApiEntity, D: DataSource<T>>(
    datasource: D,
    entity_name: Seq<char>,
    request: ApiRequest,
    outcome: Outcome<T>,
) -> bool {
    match id_param(request) {
        None => outcome == refused::<T>(missing_id()),
        Some(id) => exists|record: Result<T, Refusal>| #[trigger]
            body_answer(request, record) && match record {
                Err(error) => outcome == refused::<T>(error),
                Ok(item) => checked_answer(datasource, entity_name, id, item, outcome),
            },
    }
}

/// Serves an update request: checks that the record exists, then writes.
pub fn handle_update<T: ApiEntity, D: DataSource<T>>(
    datasource: &D,
    entity_name: &str,
    request: &ApiRequest,
) -> (r: Result<ApiResponse<T>, RusterApiError>)
    ensures
        update_answer(*datasource, entity_name@, *request, outcome_view(r)),
{
    let id = match require_id(request) {
        Ok(id) => id,
        Err(error) => {
            let r: Result<ApiResponse<T>, RusterApiError> = Err(error);
            return r;
        },
    };
    let record = read_body::<T>(request);
    let item = match record {
        Ok(item) => item,
        Err(error) => {
            let r: Result<ApiResponse<T>, RusterApiError> = Err(error);
            return r;
        },
    };
    let found = datasource.get_by_id(id.as_str(), Some(entity_name));
    let r = match update_step(id.as_str(), &found) {
        UpdateStep::Write => {
            let written = datasource.update(id.as_str(), item, Some(entity_name));
            update_response(written)
        },
        UpdateStep::Refuse(error) => {
            let r: Result<ApiResponse<T>, RusterApiError> = Err(error);
            r
        },
    };
    r
}

/// An update request without a body, or with an empty one, has one answer
/// whatever the datasource holds: the bad request error if the request names
/// an id, the validation error if it does not.
pub proof fn lemma_update_without_body<T: ApiEntity, D: DataSource<T>>(
    datasource: D,
    entity_name: Seq<char>,
    request: ApiRequest,
    outcome: Outcome<T>,
)
    requires
        required_body(request) is None,
    ensures
        update_answer(datasource, entity_name, request, outcome) <==> outcome == refused::<T>(
            if id_param(request) is Some {
                missing_body()
            } else {
                missing_id()
            },
        ),
{
    let refusal: Result<T, Refusal> = Err(missing_body());
    assert(body_answer(request, refusal));
}

/// An update of a record that the backend does not have is answered with not
/// found, status 404, and nothing is written. Take a request that names an id
/// for which the datasource can only report that there is no record. Unless
/// the request was refused for its body, the answer is the not found error;
/// it is never the answer to a write. And whatever a write would return, the
/// step after such a lookup is a refusal.
pub proof fn lemma_update_of_absent_record<T: ApiEntity, D: DataSource<T>>(
    datasource: D,
    entity_name: Seq<char>,
    request: ApiRequest,
    outcome: Outcome<T>,
)
    requires
        id_param(request) is Some,
        forall|found: Result<Option<T>, Failure>| #[trigger]
            datasource.may_find(id_param(request)->Some_0, Some(entity_name), found) ==> found
                == Ok::<Option<T>, Failure>(None),
        update_answer(datasource, entity_name, request, outcome),
    ensures
        outcome == refused::<T>(item_not_found(id_param(request)->Some_0)) || exists|
            error: Refusal,
        |
            body_answer::<T>(request, Err(error)) && outcome == #[trigger] refused::<T>(error),
        step_after_lookup::<T>(id_param(request)->Some_0, Ok(None)) == Some(
            item_not_found(id_param(request)->Some_0),
        ),
        status_of_kind(item_not_found(id_param(request)->Some_0).0) == 404,
{
    let id = id_param(request)->Some_0;
    let record = choose|record: Result<T, Refusal>| #[trigger]
        body_answer(request, record) && match record {
            Err(error) => outcome == refused::<T>(error),
            Ok(item) => checked_answer(datasource, entity_name, id, item, outcome),
        };
}

} // verus!
