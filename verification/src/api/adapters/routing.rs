//! How the router finds its way: from the path to the entity, from the
//! entity and the method to the handler.

use crate::api::adapters::api_adapter::{
    outcome_view, pairs_view, ApiRequest, ApiResponse, EndpointHandler, EntityApi, Outcome,
    ResponseView,
};
use crate::api::common::api_entity::ApiEntity;
use crate::api::handlers::common::utils::{endpoint_key, make_endpoint_key, registered};
use crate::api::handlers::crud::read::{make_record_path, record_path};
use crate::api::handlers::manager::handler_answer;
use crate::config::specific::entity_config::{method_tag, HttpMethod};
use crate::data::datasource::base::DataSource;
use crate::error::{ApiErrorKind, Refusal, RusterApiError};
use crate::string_map::{keys_of, lookup, StringMap};
use crate::text::{
    concat2, contains, contains_text, debug_list_text, first_index, lemma_first_index_is,
    lemma_first_index_none, lowercase, lowercase_text, path_segments, path_segments_text,
    same_text, starts_with, starts_with_text, trim_slashes, trim_slashes_text,
};
use vstd::prelude::*;

verus! {

/// The error for a path without segments.
pub open spec fn empty_path() -> Refusal {
    (ApiErrorKind::ValidationError, "Invalid path: empty path"@)
}

/// The error for a path that ends after the API prefix.
pub open spec fn missing_entity_name() -> Refusal {
    (ApiErrorKind::ValidationError, "Invalid path: missing entity name"@)
}

/// The entity that a path names, in lower case: the second segment where the
/// first one is the configured prefix, else the first segment.
pub open spec fn requested_entity(api_prefix: Option<String>, path: Seq<char>) -> Result<
    Seq<char>,
    Refusal,
> {
    let parts = path_segments_text(path);
    if parts.len() == 0 {
        Err(empty_path())
    } else {
        match api_prefix {
            Some(prefix) => if parts[0] == trim_slashes_text(prefix@) {
                if parts.len() < 2 {
                    Err(missing_entity_name())
                } else {
                    Ok(lowercase_text(parts[1]))
                }
            } else {
                Ok(lowercase_text(parts[0]))
            },
            None => Ok(lowercase_text(parts[0])),
        }
    }
}

/// Position of the first registered entity whose key, in lower case, is
/// `name`.
pub open spec fn entity_index<V>(entities: Seq<(Seq<char>, V)>, name: Seq<char>) -> Option<int> {
    first_index(entities, |entry: (Seq<char>, V)| lowercase_text(entry.0) == name)
}

/// The endpoint keys that the router tries for a method and an entity, in the
/// order in which it tries them.
pub open spec fn candidate_keys(method: HttpMethod, name: Seq<char>) -> Seq<Seq<char>> {
    seq![
        endpoint_key(method, name),
        endpoint_key(method, record_path(name)),
        endpoint_key(method, "api/"@ + name),
        endpoint_key(method, "api/"@ + record_path(name)),
    ]
}

/// The handler under the first candidate key that is registered.
pub open spec fn exact_match(
    endpoints: Seq<(Seq<char>, EndpointHandler)>,
    method: HttpMethod,
    name: Seq<char>,
) -> Option<EndpointHandler> {
    let keys = candidate_keys(method, name);
    match first_index(keys, |key: Seq<char>| lookup(endpoints, key) is Some) {
        Some(i) => lookup(endpoints, keys[i]),
        None => None,
    }
}

/// The handler of the first registered key that contains the entity name and
/// starts with the method tag.
pub open spec fn loose_match(
    endpoints: Seq<(Seq<char>, EndpointHandler)>,
    method: HttpMethod,
    name: Seq<char>,
) -> Option<EndpointHandler> {
    match first_index(
        endpoints,
        |entry: (Seq<char>, EndpointHandler)|
            contains_text(entry.0, name) && starts_with_text(entry.0, method_tag(method)),
    ) {
        Some(i) => Some(endpoints[i].1),
        None => None,
    }
}

/// The handler that serves a method on an entity: an exact match where there
/// is one, else a loose match.
pub open spec fn resolved_handler(
    endpoints: Seq<(Seq<char>, EndpointHandler)>,
    method: HttpMethod,
    name: Seq<char>,
) -> Option<EndpointHandler> {
    match exact_match(endpoints, method, name) {
        Some(handler) => Some(handler),
        None => loose_match(endpoints, method, name),
    }
}

/// The error for a path that names no registered entity. It names the entity
/// that was asked for and the entities that are there.
pub open spec fn unknown_entity(name: Seq<char>, known: Seq<Seq<char>>) -> Refusal {
    (
        ApiErrorKind::EntityNotFound,
        "Entity not found: "@ + name + ". Available entities: "@ + debug_list_text(known),
    )
}

/// The error for a request that no endpoint of its entity serves. It names
/// the method, the path and the endpoints that are there.
pub open spec fn unknown_endpoint(
    method: HttpMethod,
    path: Seq<char>,
    known: Seq<Seq<char>>,
) -> Refusal {
    (
        ApiErrorKind::EntityNotFound,
        "Endpoint not found for "@ + method_tag(method) + " "@ + path
            + ". Available endpoints: "@ + debug_list_text(known),
    )
}

/// The answer of the router to the answer of a handler: a handler that could
/// not do its work against the datasource is answered for with a bare 500;
/// every other answer goes through.
pub open spec fn isolated<T>(raw: Outcome<T>) -> Outcome<T> {
    match raw {
        Err(error) => if error.0 == ApiErrorKind::EndpointGenerationError {
            Ok(ResponseView { status: 500, headers: Seq::empty(), body: None })
        } else {
            raw
        },
        Ok(_) => raw,
    }
}

/// Where a request is routed to.
pub ghost enum Route {
    /// The path names no entity.
    Invalid(Refusal),
    /// The path names an entity that is not registered.
    UnknownEntity(Seq<char>),
    /// No endpoint of the entity at `entity` serves the method.
    UnknownEndpoint { entity: int },
    /// The handler that serves the request, with the entity it belongs to.
    Handler { entity: int, handler: EndpointHandler },
}

/// The route of a request: a function of the configured prefix, the entity
/// table and the request's method and path, and of nothing else.
pub open spec fn route_of<D>(
    api_prefix: Option<String>,
    entities: Seq<(Seq<char>, EntityApi<D>)>,
    method: HttpMethod,
    path: Seq<char>,
) -> Route {
    match requested_entity(api_prefix, path) {
        Err(error) => Route::Invalid(error),
        Ok(name) => match entity_index(entities, name) {
            None => Route::UnknownEntity(name),
            Some(i) => match resolved_handler(
                entities[i].1.endpoints@,
                method,
                entities[i].1.entity_name@,
            ) {
                None => Route::UnknownEndpoint { entity: i },
                Some(handler) => Route::Handler { entity: i, handler },
            },
        },
    }
}

/// What the router may answer to a request. The three refusals are fixed by
/// the route; where a handler serves the request, the answer is the handler's,
/// isolated, when it works on the entity's datasource under the entity's
/// name.
pub open spec fn dispatch_answer<T: ApiEntity, D: DataSource<T>>(
    api_prefix: Option<String>,
    entities: Seq<(Seq<char>, EntityApi<D>)>,
    request: ApiRequest,
    outcome: Outcome<T>,
) -> bool {
    match route_of(api_prefix, entities, request.method, request.path@) {
        Route::Invalid(error) => outcome == Err::<ResponseView<T>, _>(error),
        Route::UnknownEntity(name) => outcome == Err::<ResponseView<T>, _>(
            unknown_entity(name, keys_of(entities)),
        ),
        Route::UnknownEndpoint { entity } => outcome == Err::<ResponseView<T>, _>(
            unknown_endpoint(
                request.method,
                request.path@,
                keys_of(entities[entity].1.endpoints@),
            ),
        ),
        Route::Handler { entity, handler } => exists|raw: Outcome<T>|
            handler_answer(
                handler,
                entities[entity].1.datasource,
                entities[entity].1.entity_name@,
                request,
                raw,
            ) && outcome == #[trigger] isolated(raw),
    }
}

/// The entity that a path names.
pub fn entity_name_of(api_prefix: &Option<String>, path: &str) -> (r: Result<
    String,
    RusterApiError,
>)
    ensures
        match r {
            Ok(name) => requested_entity(*api_prefix, path@) == Ok::<Seq<char>, Refusal>(name@),
            Err(error) => requested_entity(*api_prefix, path@) == Err::<Seq<char>, Refusal>(error@),
        },
{
    let parts = path_segments(path);
    if parts.len() == 0 {
        return Err(RusterApiError::ValidationError(String::from_str("Invalid path: empty path")));
    }
    match api_prefix {
        Some(api_prefix) => {
            let prefix = trim_slashes(api_prefix.as_str());
            if same_text(parts[0].as_str(), prefix.as_str()) {
                if parts.len() < 2 {
                    return Err(
                        RusterApiError::ValidationError(
                            String::from_str("Invalid path: missing entity name"),
                        ),
                    );
                }
                Ok(lowercase(parts[1].as_str()))
            } else {
                Ok(lowercase(parts[0].as_str()))
            }
        },
        None => Ok(lowercase(parts[0].as_str())),
    }
}

/// Finds the registered entity whose key, in lower case, is `name`.
pub fn find_entity<V>(entities: &StringMap<V>, name: &str) -> (r: Option<usize>)
    ensures
        match r {
            Some(i) => entity_index(entities@, name@) == Some(i as int) && i < entities@.len(),
            None => entity_index(entities@, name@) is None,
        },
{
    let ghost meets = |entry: (Seq<char>, V)| lowercase_text(entry.0) == name@;
    let mut i: usize = 0;
    while i < entities.len()
        invariant
            i <= entities@.len(),
            meets == |entry: (Seq<char>, V)| lowercase_text(entry.0) == name@,
            forall|j: int| 0 <= j < i ==> !meets(#[trigger] entities@[j]),
        decreases entities@.len() - i,
    {
        let key = lowercase(entities.key_at(i).as_str());
        if same_text(key.as_str(), name) {
            proof {
                lemma_first_index_is(entities@, meets, i as int);
            }
            return Some(i);
        }
        i = i + 1;
    }
    proof {
        lemma_first_index_none(entities@, meets);
    }
    None
}

/// Finds the handler that serves a method on an entity.
pub fn find_handler(endpoints: &StringMap<EndpointHandler>, method: HttpMethod, name: &str) -> (r:
    Option<EndpointHandler>)
    ensures
        r == resolved_handler(endpoints@, method, name@),
{
    let record = make_record_path(name);
    let api_name = concat2("api/", name);
    let api_record = concat2("api/", record.as_str());
    let mut keys: Vec<String> = Vec::new();
    keys.push(make_endpoint_key(method, name));
    keys.push(make_endpoint_key(method, record.as_str()));
    keys.push(make_endpoint_key(method, api_name.as_str()));
    keys.push(make_endpoint_key(method, api_record.as_str()));
    let ghost registered = |key: Seq<char>| lookup(endpoints@, key) is Some;
    let mut k: usize = 0;
    while k < keys.len()
        invariant
            k <= keys.len(),
            keys.deep_view() == candidate_keys(method, name@),
            registered == |key: Seq<char>| lookup(endpoints@, key) is Some,
            forall|j: int| 0 <= j < k ==> !registered(#[trigger] keys.deep_view()[j]),
        decreases keys.len() - k,
    {
        match endpoints.get(keys[k].as_str()) {
            Some(handler) => {
                proof {
                    lemma_first_index_is(keys.deep_view(), registered, k as int);
                }
                return Some(*handler);
            },
            None => {},
        }
        k = k + 1;
    }
    proof {
        lemma_first_index_none(keys.deep_view(), registered);
    }
    let ghost loose = |entry: (Seq<char>, EndpointHandler)|
        contains_text(entry.0, name@) && starts_with_text(entry.0, method_tag(method));
    let mut i: usize = 0;
    while i < endpoints.len()
        invariant
            i <= endpoints@.len(),
            exact_match(endpoints@, method, name@) is None,
            loose == |entry: (Seq<char>, EndpointHandler)|
                contains_text(entry.0, name@) && starts_with_text(entry.0, method_tag(method)),
            forall|j: int| 0 <= j < i ==> !loose(#[trigger] endpoints@[j]),
        decreases endpoints@.len() - i,
    {
        let key = endpoints.key_at(i);
        if contains(key.as_str(), name) && starts_with(key.as_str(), method.tag()) {
            proof {
                lemma_first_index_is(endpoints@, loose, i as int);
            }
            return Some(*endpoints.value_at(i));
        }
        i = i + 1;
    }
    proof {
        lemma_first_index_none(endpoints@, loose);
    }
    None
}

/// Keeps a failing endpoint from failing the dispatch: an endpoint generation
/// error becomes a bare 500 response.
pub fn isolate<T>(raw: Result<ApiResponse<T>, RusterApiError>) -> (r: Result<
    ApiResponse<T>,
    RusterApiError,
>)
    ensures
        outcome_view(r) == isolated(outcome_view(raw)),
{
    match raw {
        Ok(response) => Ok(response),
        Err(RusterApiError::EndpointGenerationError(_)) => {
            let headers: StringMap<String> = StringMap::new();
            assert(pairs_view(headers@) =~= Seq::<(Seq<char>, Seq<char>)>::empty());
            Ok(ApiResponse { status: 500, headers, body: None })
        },
        Err(error) => Err(error),
    }
}

} // verus!
