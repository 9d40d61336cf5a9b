//! Custom routes. Their business logic is a hook that the application plugs
//! in; where none is plugged in, the route answers 200 without a body.

use crate::api::adapters::api_adapter::{
    outcome_view, ApiRequest, ApiResponse, EndpointHandler, Outcome,
};
use crate::api::handlers::common::utils::{
    endpoint_key, json_response, make_endpoint_key, put_warning, register_endpoint, respond,
};
use crate::config::specific::entity_config::{CustomRoute, Entity, HttpMethod};
use crate::error::RusterApiError;
use crate::string_map::{put, StringMap};
use crate::text::concat2;
use vstd::prelude::*;

verus! {

/// The key of a custom route: the route's method, then the entity name with
/// the route's path appended.
pub open spec fn custom_key(entity_name: Seq<char>, route: CustomRoute) -> Seq<char> {
    endpoint_key(route.method, entity_name + route.path@)
}

/// Registers a custom endpoint for an entity. Returns the key if it was taken
/// before.
pub fn register_custom_endpoint(
    entity: &Entity,
    custom_route: &CustomRoute,
    endpoints: &mut StringMap<EndpointHandler>,
) -> (warnings: Vec<String>)
    ensures
        final(endpoints)@ == put(
            old(endpoints)@,
            custom_key(entity.name@, *custom_route),
            EndpointHandler::Custom(custom_route.method),
        ),
        warnings.deep_view() == put_warning(
            old(endpoints)@,
            custom_key(entity.name@, *custom_route),
        ),
{
    let path = concat2(entity.name.as_str(), custom_route.path.as_str());
    let mut warnings: Vec<String> = Vec::new();
    register_endpoint(
        endpoints,
        make_endpoint_key(custom_route.method, path.as_str()),
        EndpointHandler::Custom(custom_route.method),
        &mut warnings,
    );
    warnings
}

/// What a custom route without a hook answers: 200, no body.
pub open spec fn custom_outcome<T>() -> Outcome<T> {
    Ok(json_response(200, None))
}

/// Serves a request to a custom route that has no hook.
pub fn handle_custom<T>(method: HttpMethod, request: &ApiRequest) -> (r: Result<
    ApiResponse<T>,
    RusterApiError,
>)
    ensures
        outcome_view(r) == custom_outcome::<T>(),
{
    Ok(respond(200, None))
}

} // verus!
