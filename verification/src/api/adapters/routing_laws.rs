//! What holds of routing, whatever the entity table and the request.

use crate::api::adapters::api_adapter::{
    pairs_view, ApiRequest, EndpointHandler, EntityApi, Outcome,
};
use crate::api::adapters::entity_mapping::plan_of;
use crate::api::adapters::routing::{
    candidate_keys, dispatch_answer, entity_index, isolated, requested_entity, resolved_handler,
    route_of, unknown_entity, Route,
};
use crate::api::common::api_entity::ApiEntity;
use crate::api::handlers::common::utils::{endpoint_key, id_param, refused, required_body};
use crate::api::handlers::crud::create::{body_answer, stored_answer};
use crate::api::handlers::crud::update::checked_answer;
use crate::api::handlers::manager::handler_answer;
use crate::config::specific::entity_config::HttpMethod;
use crate::data::datasource::base::DataSource;
use crate::error::{status_of_kind, ApiErrorKind, Refusal};
use crate::string_map::{
    key_index, keys_of, lemma_key_index, lemma_key_index_is, lemma_key_index_none, lookup,
};
use crate::text::{
    contains_text, debug_list_text, first_index, lemma_contains_middle, lemma_first_index,
    lemma_first_index_is, lemma_first_index_none, lowercase_text, path_segments_text,
    trim_slashes_text,
};
use vstd::prelude::*;

verus! {

/// Two requests are the same: same method, path, parameters, headers and
/// body.
pub open spec fn same_request(first: ApiRequest, second: ApiRequest) -> bool {
    &&& first.method == second.method
    &&& first.path@ == second.path@
    &&& pairs_view(first.params@) == pairs_view(second.params@)
    &&& pairs_view(first.headers@) == pairs_view(second.headers@)
    &&& match (first.body, second.body) {
        (Some(a), Some(b)) => a@ == b@,
        (None, None) => true,
        _ => false,
    }
}

proof fn lemma_same_parameters(
    first: Seq<(Seq<char>, String)>,
    second: Seq<(Seq<char>, String)>,
    key: Seq<char>,
)
    requires
        pairs_view(first) == pairs_view(second),
    ensures
        match (lookup(first, key), lookup(second, key)) {
            (Some(a), Some(b)) => a@ == b@,
            (None, None) => true,
            _ => false,
        },
{
    assert(first.len() == pairs_view(first).len());
    lemma_key_index(first, key);
    match key_index(first, key) {
        Some(i) => {
            assert forall|j: int| 0 <= j < i implies (#[trigger] second[j]).0 != key by {
                assert(pairs_view(first)[j] == pairs_view(second)[j]);
            }
            assert(pairs_view(first)[i] == pairs_view(second)[i]);
            lemma_key_index_is(second, key, i);
        },
        None => {
            assert forall|j: int| 0 <= j < second.len() implies (#[trigger] second[j]).0
                != key by {
                assert(pairs_view(first)[j] == pairs_view(second)[j]);
            }
            lemma_key_index_none(second, key);
        },
    }
}

/// Routing is deterministic. For a fixed entity table and prefix, two
/// requests that are the same have the same route, and every answer that the
/// router may give to the one it may give to the other: the answer depends on
/// the request and on what the datasource returns, and on nothing else.
pub proof fn lemma_dispatch_deterministic<T: ApiEntity, D: DataSource<T>>(
    api_prefix: Option<String>,
    entities: Seq<(Seq<char>, EntityApi<D>)>,
    first: ApiRequest,
    second: ApiRequest,
    outcome: Outcome<T>,
)
    requires
        same_request(first, second),
    ensures
        route_of(api_prefix, entities, first.method, first.path@) == route_of(
            api_prefix,
            entities,
            second.method,
            second.path@,
        ),
        dispatch_answer(api_prefix, entities, first, outcome) == dispatch_answer(
            api_prefix,
            entities,
            second,
            outcome,
        ),
{
    lemma_same_parameters(first.params@, second.params@, "id"@);
    match route_of(api_prefix, entities, first.method, first.path@) {
        Route::Handler { entity, handler } => {
            let datasource = entities[entity].1.datasource;
            let name = entities[entity].1.entity_name@;
            assert forall|raw: Outcome<T>|
                handler_answer(handler, datasource, name, first, raw) == handler_answer(
                    handler,
                    datasource,
                    name,
                    second,
                    raw,
                ) by {
                if handler_answer(handler, datasource, name, first, raw) {
                    lemma_same_answers(handler, datasource, name, first, second, raw);
                }
                if handler_answer(handler, datasource, name, second, raw) {
                    lemma_same_answers(handler, datasource, name, second, first, raw);
                }
            }
            if dispatch_answer(api_prefix, entities, first, outcome) {
                let raw = choose|raw: Outcome<T>|
                    handler_answer(handler, datasource, name, first, raw) && outcome
                        == #[trigger] isolated(raw);
            }
            if dispatch_answer(api_prefix, entities, second, outcome) {
                let raw = choose|raw: Outcome<T>|
                    handler_answer(handler, datasource, name, second, raw) && outcome
                        == #[trigger] isolated(raw);
            }
        },
        _ => {},
    }
}

proof fn lemma_same_answers<T: ApiEntity, D: DataSource<T>>(
    handler: EndpointHandler,
    datasource: D,
    name: Seq<char>,
    first: ApiRequest,
    second: ApiRequest,
    raw: Outcome<T>,
)
    requires
        id_param(first) == id_param(second),
        required_body(first) == required_body(second),
        handler_answer(handler, datasource, name, first, raw),
    ensures
        handler_answer(handler, datasource, name, second, raw),
{
    assert forall|record: Result<T, Refusal>|
        body_answer(first, record) == body_answer(second, record) by {}
    match handler {
        EndpointHandler::Create => {
            let record = choose|record: Result<T, Refusal>| #[trigger]
                body_answer(first, record) && match record {
                    Err(error) => raw == refused::<T>(error),
                    Ok(item) => stored_answer(datasource, name, item, raw),
                };
        },
        EndpointHandler::Update => {
            if id_param(first) is Some {
                let id = id_param(first)->Some_0;
                let record = choose|record: Result<T, Refusal>| #[trigger]
                    body_answer(first, record) && match record {
                        Err(error) => raw == refused::<T>(error),
                        Ok(item) => checked_answer(datasource, name, id, item, raw),
                    };
            }
        },
        _ => {},
    }
}

/// Whether a path starts with the configured prefix.
pub open spec fn under_prefix(api_prefix: Option<String>, path: Seq<char>) -> bool {
    api_prefix matches Some(prefix) && path_segments_text(path).len() > 0 && path_segments_text(
        path,
    )[0] == trim_slashes_text(prefix@)
}

/// The entity match ignores case. Two paths whose segments are the same when
/// put in lower case, and of which both or neither start with the configured
/// prefix, have the same route.
pub proof fn lemma_entity_match_ignores_case<D>(
    api_prefix: Option<String>,
    entities: Seq<(Seq<char>, EntityApi<D>)>,
    method: HttpMethod,
    first: Seq<char>,
    second: Seq<char>,
)
    requires
        path_segments_text(first).len() == path_segments_text(second).len(),
        forall|i: int|
            0 <= i < path_segments_text(first).len() ==> lowercase_text(
                #[trigger] path_segments_text(first)[i],
            ) == lowercase_text(path_segments_text(second)[i]),
        under_prefix(api_prefix, first) == under_prefix(api_prefix, second),
    ensures
        requested_entity(api_prefix, first) == requested_entity(api_prefix, second),
        route_of(api_prefix, entities, method, first) == route_of(
            api_prefix,
            entities,
            method,
            second,
        ),
{
}

/// The prefix is optional in a path. With a prefix configured, a path that
/// names an entity after the prefix and a path that names it at once have the
/// same route, unless the entity is named like the prefix; and a path that
/// starts with another segment is taken to name that segment as its entity.
pub proof fn lemma_prefix_is_optional<D>(
    prefix: String,
    entities: Seq<(Seq<char>, EntityApi<D>)>,
    method: HttpMethod,
    with_prefix: Seq<char>,
    without_prefix: Seq<char>,
)
    requires
        path_segments_text(with_prefix).len() >= 2,
        path_segments_text(with_prefix)[0] == trim_slashes_text(prefix@),
        path_segments_text(without_prefix).len() >= 1,
        path_segments_text(without_prefix)[0] == path_segments_text(with_prefix)[1],
        path_segments_text(without_prefix)[0] != trim_slashes_text(prefix@),
    ensures
        requested_entity(Some(prefix), with_prefix) == Ok::<Seq<char>, Refusal>(
            lowercase_text(path_segments_text(with_prefix)[1]),
        ),
        requested_entity(Some(prefix), without_prefix) == requested_entity(
            Some(prefix),
            with_prefix,
        ),
        route_of(Some(prefix), entities, method, with_prefix) == route_of(
            Some(prefix),
            entities,
            method,
            without_prefix,
        ),
{
}

/// A request that names a registered entity reaches its handler. Take a path
/// that names an entity, and the first entry of the entity table whose key, in
/// lower case, is that name. If the entry has a handler under the canonical
/// key of the method and the entity's name as configured, the request is
/// routed to that entry and that handler, whatever else is registered and in
/// whatever case the path spells the name; so the answer is the handler's,
/// and never the error for an unknown entity or endpoint.
pub proof fn lemma_request_reaches_handler<T: ApiEntity, D: DataSource<T>>(
    api_prefix: Option<String>,
    entities: Seq<(Seq<char>, EntityApi<D>)>,
    request: ApiRequest,
    name: Seq<char>,
    at: int,
    handler: EndpointHandler,
    outcome: Outcome<T>,
)
    requires
        requested_entity(api_prefix, request.path@) == Ok::<Seq<char>, Refusal>(name),
        0 <= at < entities.len(),
        lowercase_text(entities[at].0) == name,
        forall|j: int| 0 <= j < at ==> lowercase_text((#[trigger] entities[j]).0) != name,
        lookup(
            entities[at].1.endpoints@,
            endpoint_key(request.method, entities[at].1.entity_name@),
        ) == Some(handler),
    ensures
        entity_index(entities, name) == Some(at),
        resolved_handler(
            entities[at].1.endpoints@,
            request.method,
            entities[at].1.entity_name@,
        ) == Some(handler),
        route_of(api_prefix, entities, request.method, request.path@) == (Route::Handler {
            entity: at,
            handler,
        }),
        dispatch_answer(api_prefix, entities, request, outcome) <==> exists|raw: Outcome<T>|
            handler_answer(
                handler,
                entities[at].1.datasource,
                entities[at].1.entity_name@,
                request,
                raw,
            ) && outcome == #[trigger] isolated(raw),
{
    lemma_first_index_is(
        entities,
        |entry: (Seq<char>, EntityApi<D>)| lowercase_text(entry.0) == name,
        at,
    );
    let endpoints = entities[at].1.endpoints@;
    let keys = candidate_keys(request.method, entities[at].1.entity_name@);
    lemma_first_index_is(keys, |key: Seq<char>| lookup(endpoints, key) is Some, 0);
}

/// A request for an entity that is not registered is answered with not found,
/// status 404, and the message names the entity that was asked for.
pub proof fn lemma_unknown_entity_is_named<T: ApiEntity, D: DataSource<T>>(
    api_prefix: Option<String>,
    entities: Seq<(Seq<char>, EntityApi<D>)>,
    request: ApiRequest,
    outcome: Outcome<T>,
)
    requires
        route_of(api_prefix, entities, request.method, request.path@) is UnknownEntity,
        dispatch_answer(api_prefix, entities, request, outcome),
    ensures
        outcome matches Err(error) && error.0 == ApiErrorKind::EntityNotFound && status_of_kind(
            error.0,
        ) == 404 && contains_text(
            error.1,
            route_of(api_prefix, entities, request.method, request.path@)->UnknownEntity_0,
        ),
{
    let name = route_of(api_prefix, entities, request.method, request.path@)->UnknownEntity_0;
    let known = keys_of(entities);
    lemma_contains_middle(
        "Entity not found: "@,
        name,
        ". Available entities: "@ + debug_list_text(known),
    );
    assert("Entity not found: "@ + name + (". Available entities: "@ + debug_list_text(known))
        =~= unknown_entity(name, known).1);
}

proof fn lemma_entity_index_of_plan<D, E>(
    first: Seq<(Seq<char>, EntityApi<D>)>,
    second: Seq<(Seq<char>, EntityApi<E>)>,
    name: Seq<char>,
)
    requires
        plan_of(first) == plan_of(second),
    ensures
        entity_index(first, name) == entity_index(second, name),
{
    let meets_first = |entry: (Seq<char>, EntityApi<D>)| lowercase_text(entry.0) == name;
    let meets_second = |entry: (Seq<char>, EntityApi<E>)| lowercase_text(entry.0) == name;
    assert(first.len() == plan_of(first).len());
    lemma_first_index(first, meets_first);
    match first_index(first, meets_first) {
        Some(i) => {
            assert forall|j: int| 0 <= j < i implies !meets_second(#[trigger] second[j]) by {
                assert(plan_of(first)[j] == plan_of(second)[j]);
            }
            assert(plan_of(first)[i] == plan_of(second)[i]);
            lemma_first_index_is(second, meets_second, i);
        },
        None => {
            assert forall|j: int| 0 <= j < second.len() implies !meets_second(
                #[trigger] second[j],
            ) by {
                assert(plan_of(first)[j] == plan_of(second)[j]);
            }
            lemma_first_index_none(second, meets_second);
        },
    }
}

/// Routing looks at the keys and the endpoints of the entity table and at
/// nothing else. Two routers with the same prefix whose tables register the
/// same entities with the same endpoints, such as a router and its copy,
/// route every request alike, whatever handles on datasources they hold; and
/// a request that no handler serves gets the same answer from both.
pub proof fn lemma_copies_route_alike<T: ApiEntity, D: DataSource<T>, E: DataSource<T>>(
    api_prefix: Option<String>,
    first: Seq<(Seq<char>, EntityApi<D>)>,
    second: Seq<(Seq<char>, EntityApi<E>)>,
    request: ApiRequest,
    outcome: Outcome<T>,
)
    requires
        plan_of(first) == plan_of(second),
    ensures
        route_of(api_prefix, first, request.method, request.path@) == route_of(
            api_prefix,
            second,
            request.method,
            request.path@,
        ),
        !(route_of(api_prefix, first, request.method, request.path@) is Handler)
            ==> dispatch_answer(api_prefix, first, request, outcome) == dispatch_answer(
            api_prefix,
            second,
            request,
            outcome,
        ),
{
    assert(keys_of(first) =~= keys_of(second)) by {
        assert(first.len() == plan_of(first).len());
        assert forall|j: int| 0 <= j < first.len() implies keys_of(first)[j] == keys_of(
            second,
        )[j] by {
            assert(plan_of(first)[j] == plan_of(second)[j]);
        }
    }
    match requested_entity(api_prefix, request.path@) {
        Ok(name) => {
            lemma_entity_index_of_plan(first, second, name);
            match entity_index(first, name) {
                Some(i) => {
                    lemma_first_index(
                        first,
                        |entry: (Seq<char>, EntityApi<D>)| lowercase_text(entry.0) == name,
                    );
                    assert(plan_of(first)[i] == plan_of(second)[i]);
                },
                None => {},
            }
        },
        Err(_) => {},
    }
}

} // verus!
