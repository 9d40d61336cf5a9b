//! The handler registry of one entity: which handler answers under which
//! endpoint key.

use crate::api::adapters::api_adapter::{
    outcome_view, ApiRequest, ApiResponse, EndpointHandler, Outcome,
};
use crate::api::common::api_entity::ApiEntity;
use crate::api::handlers::common::utils::{
    endpoint_key, endpoint_keys, overwritten, put_warning, registered,
};
use crate::api::handlers::crud::create::{create_answer, handle_create, register_create_endpoint};
use crate::api::handlers::crud::delete::{delete_answer, handle_delete, register_delete_endpoint};
use crate::api::handlers::crud::list::{handle_list, list_answer, register_list_endpoint};
use crate::api::handlers::crud::read::{
    handle_read, read_answer, record_path, register_read_endpoint,
};
use crate::api::handlers::crud::update::{handle_update, register_update_endpoint, update_answer};
use crate::api::handlers::custom::routes::{
    custom_key, custom_outcome, handle_custom, register_custom_endpoint,
};
use crate::config::configuration::Config;
use crate::config::specific::entity_config::{CustomRoute, Entity, HttpMethod};
use crate::data::datasource::base::DataSource;
use crate::error::RusterApiError;
use crate::string_map::{lemma_put_keeps_keys, lookup, put, StringMap};
use crate::text::append_all;
use vstd::prelude::*;

verus! {

/// A registry in the making: the endpoints registered so far and the keys
/// that were overwritten on the way.
pub ghost struct Registry {
    pub endpoints: Seq<(Seq<char>, EndpointHandler)>,
    pub warnings: Seq<Seq<char>>,
}

/// The registry after a generated endpoint was registered, if it is enabled.
pub open spec fn with_generated(
    state: Registry,
    enabled: bool,
    method: HttpMethod,
    path: Seq<char>,
    handler: EndpointHandler,
) -> Registry {
    if enabled {
        Registry {
            endpoints: registered(state.endpoints, endpoint_keys(method, path), handler),
            warnings: state.warnings + overwritten(
                state.endpoints,
                endpoint_keys(method, path),
                handler,
            ),
        }
    } else {
        state
    }
}

/// The registry after a custom route was registered.
pub open spec fn with_custom(
    state: Registry,
    entity_name: Seq<char>,
    route: CustomRoute,
) -> Registry {
    Registry {
        endpoints: put(
            state.endpoints,
            custom_key(entity_name, route),
            EndpointHandler::Custom(route.method),
        ),
        warnings: state.warnings + put_warning(state.endpoints, custom_key(entity_name, route)),
    }
}

/// The registry after the custom routes were registered, in order.
pub open spec fn with_custom_routes(
    state: Registry,
    entity_name: Seq<char>,
    routes: Seq<CustomRoute>,
) -> Registry
    decreases routes.len(),
{
    if routes.len() == 0 {
        state
    } else {
        with_custom(
            with_custom_routes(state, entity_name, routes.drop_last()),
            entity_name,
            routes.last(),
        )
    }
}

/// The registry made of the generated endpoints that are enabled (create,
/// read, update, delete, list, in this order) and of the custom routes. A
/// later registration under a taken key overwrites the earlier one.
pub open spec fn generated_registry(
    name: Seq<char>,
    create: bool,
    read: bool,
    update: bool,
    delete: bool,
    list: bool,
    routes: Seq<CustomRoute>,
) -> Registry {
    let start = Registry { endpoints: Seq::empty(), warnings: Seq::empty() };
    let created = with_generated(start, create, HttpMethod::POST, name, EndpointHandler::Create);
    let with_read = with_generated(
        created,
        read,
        HttpMethod::GET,
        record_path(name),
        EndpointHandler::Read,
    );
    let updated = with_generated(
        with_read,
        update,
        HttpMethod::PUT,
        record_path(name),
        EndpointHandler::Update,
    );
    let deleted = with_generated(
        updated,
        delete,
        HttpMethod::DELETE,
        record_path(name),
        EndpointHandler::Delete,
    );
    let listed = with_generated(deleted, list, HttpMethod::GET, name, EndpointHandler::List);
    with_custom_routes(listed, name, routes)
}

/// The registry of an entity.
pub open spec fn entity_registry(entity: Entity) -> Registry {
    generated_registry(
        entity.name@,
        entity.endpoints.generate_create,
        entity.endpoints.generate_read,
        entity.endpoints.generate_update,
        entity.endpoints.generate_delete,
        entity.endpoints.generate_list,
        entity.endpoints.custom_routes@,
    )
}

/// Builds the handler registries of the entities served by one datasource.
pub struct ApiHandlerManager<D> {
    config: Config,
    datasource: D,
}

impl<D> ApiHandlerManager<D> {
    /// Creates a new ApiHandlerManager for a specific entity.
    pub fn new(config: Config, datasource: D) -> (r: Self)
        ensures
            r.datasource() == datasource,
            r.config() == config,
    {
        ApiHandlerManager { config, datasource }
    }

    /// The datasource that the registered handlers work on.
    pub closed spec fn datasource(&self) -> D {
        self.datasource
    }

    /// The configuration that the manager was made with.
    pub closed spec fn config(&self) -> Config {
        self.config
    }

    /// Hands the datasource out.
    pub fn into_datasource(self) -> (r: D)
        ensures
            r == self.datasource(),
    {
        self.datasource
    }

    /// Initializes all endpoints for a specific entity based on its
    /// configuration. Returns the registry and the keys that were overwritten
    /// while it was built.
    pub fn initialize_endpoints(&self, entity: &Entity) -> (r: (
        StringMap<EndpointHandler>,
        Vec<String>,
    ))
        ensures
            r.0@ == entity_registry(*entity).endpoints,
            r.1.deep_view() == entity_registry(*entity).warnings,
    {
        let mut endpoints: StringMap<EndpointHandler> = StringMap::new();
        let mut warnings: Vec<String> = Vec::new();
        let ghost name = entity.name@;
        let ghost flags = entity.endpoints;
        let ghost start = Registry { endpoints: Seq::empty(), warnings: Seq::empty() };
        assert(warnings.deep_view() =~= start.warnings);
        if entity.endpoints.generate_create {
            let more = register_create_endpoint(entity, &mut endpoints);
            append_all(&mut warnings, more);
        }
        let ghost created = with_generated(
            start,
            flags.generate_create,
            HttpMethod::POST,
            name,
            EndpointHandler::Create,
        );
        if entity.endpoints.generate_read {
            let more = register_read_endpoint(entity, &mut endpoints);
            append_all(&mut warnings, more);
        }
        let ghost read = with_generated(
            created,
            flags.generate_read,
            HttpMethod::GET,
            record_path(name),
            EndpointHandler::Read,
        );
        if entity.endpoints.generate_update {
            let more = register_update_endpoint(entity, &mut endpoints);
            append_all(&mut warnings, more);
        }
        let ghost updated = with_generated(
            read,
            flags.generate_update,
            HttpMethod::PUT,
            record_path(name),
            EndpointHandler::Update,
        );
        if entity.endpoints.generate_delete {
            let more = register_delete_endpoint(entity, &mut endpoints);
            append_all(&mut warnings, more);
        }
        let ghost deleted = with_generated(
            updated,
            flags.generate_delete,
            HttpMethod::DELETE,
            record_path(name),
            EndpointHandler::Delete,
        );
        if entity.endpoints.generate_list {
            let more = register_list_endpoint(entity.name.as_str(), &mut endpoints);
            append_all(&mut warnings, more);
        }
        let ghost listed = with_generated(
            deleted,
            flags.generate_list,
            HttpMethod::GET,
            name,
            EndpointHandler::List,
        );
        let routes = &entity.endpoints.custom_routes;
        let mut i: usize = 0;
        while i < routes.len()
            invariant
                i <= routes.len(),
                routes@ == entity.endpoints.custom_routes@,
                name == entity.name@,
                (Registry { endpoints: endpoints@, warnings: warnings.deep_view() })
                    == with_custom_routes(listed, name, routes@.take(i as int)),
            decreases routes.len() - i,
        {
            let more = register_custom_endpoint(entity, &routes[i], &mut endpoints);
            append_all(&mut warnings, more);
            proof {
                let next = routes@.take(i + 1);
                assert(next.drop_last() =~= routes@.take(i as int));
            }
            i = i + 1;
        }
        assert(routes@.take(routes.len() as int) =~= routes@);
        (endpoints, warnings)
    }
}

/// What a handler may answer to a request, when it works on the given
/// datasource for the entity of the given name.
pub open spec fn handler_answer<T: ApiEntity, D: DataSource<T>>(
    handler: EndpointHandler,
    datasource: D,
    entity_name: Seq<char>,
    request: ApiRequest,
    outcome: Outcome<T>,
) -> bool {
    match handler {
        EndpointHandler::Create => create_answer(datasource, entity_name, request, outcome),
        EndpointHandler::Read => read_answer(datasource, entity_name, request, outcome),
        EndpointHandler::Update => update_answer(datasource, entity_name, request, outcome),
        EndpointHandler::Delete => delete_answer(datasource, entity_name, request, outcome),
        EndpointHandler::List => list_answer(datasource, entity_name, outcome),
        EndpointHandler::Custom(_) => outcome == custom_outcome::<T>(),
    }
}

/// Runs a handler for a request, against the datasource of the entity with
/// the given name.
pub fn invoke<T: ApiEntity, D: DataSource<T>>(
    handler: EndpointHandler,
    datasource: &D,
    entity_name: &str,
    request: &ApiRequest,
) -> (r: Result<ApiResponse<T>, RusterApiError>)
    ensures
        handler_answer(handler, *datasource, entity_name@, *request, outcome_view(r)),
{
    match handler {
        EndpointHandler::Create => handle_create(datasource, entity_name, request),
        EndpointHandler::Read => handle_read(datasource, entity_name, request),
        EndpointHandler::Update => handle_update(datasource, entity_name, request),
        EndpointHandler::Delete => handle_delete(datasource, entity_name, request),
        EndpointHandler::List => handle_list(datasource, entity_name, request),
        EndpointHandler::Custom(method) => handle_custom(method, request),
    }
}

proof fn lemma_generated_is_registered(
    state: Registry,
    method: HttpMethod,
    path: Seq<char>,
    handler: EndpointHandler,
    other: Seq<char>,
)
    ensures
        lookup(
            with_generated(state, true, method, path, handler).endpoints,
            endpoint_key(method, path),
        ) is Some,
        forall|enabled: bool|
            lookup(state.endpoints, other) is Some ==> lookup(
                #[trigger] with_generated(state, enabled, method, path, handler).endpoints,
                other,
            ) is Some,
{
    let keys = endpoint_keys(method, path);
    let first = put(state.endpoints, keys[0], handler);
    let rest = keys.drop_first();
    let second = put(first, keys[1], handler);
    assert(registered(second, rest.drop_first(), handler) == second);
    assert(registered(first, rest, handler) == second);
    lemma_put_keeps_keys(state.endpoints, keys[0], handler, other);
    lemma_put_keeps_keys(first, keys[1], handler, other);
    lemma_put_keeps_keys(first, keys[1], handler, keys[0]);
}

proof fn lemma_custom_routes_keep_keys(
    state: Registry,
    entity_name: Seq<char>,
    routes: Seq<CustomRoute>,
    other: Seq<char>,
)
    requires
        lookup(state.endpoints, other) is Some,
    ensures
        lookup(with_custom_routes(state, entity_name, routes).endpoints, other) is Some,
    decreases routes.len(),
{
    if routes.len() > 0 {
        lemma_custom_routes_keep_keys(state, entity_name, routes.drop_last(), other);
        let before = with_custom_routes(state, entity_name, routes.drop_last());
        lemma_put_keeps_keys(
            before.endpoints,
            custom_key(entity_name, routes.last()),
            EndpointHandler::Custom(routes.last().method),
            other,
        );
    }
}

/// Every enabled endpoint is registered. In the registry of an entity, the
/// canonical key of each generated endpoint that is enabled is taken, whatever
/// was registered after it: `POST:<name>` for create, `GET:<name>/:id` for
/// read, `PUT:<name>/:id` for update, `DELETE:<name>/:id` for delete and
/// `GET:<name>` for list.
pub proof fn lemma_enabled_endpoints_are_registered(entity: Entity)
    ensures
        entity.endpoints.generate_create ==> lookup(
            entity_registry(entity).endpoints,
            endpoint_key(HttpMethod::POST, entity.name@),
        ) is Some,
        entity.endpoints.generate_read ==> lookup(
            entity_registry(entity).endpoints,
            endpoint_key(HttpMethod::GET, record_path(entity.name@)),
        ) is Some,
        entity.endpoints.generate_update ==> lookup(
            entity_registry(entity).endpoints,
            endpoint_key(HttpMethod::PUT, record_path(entity.name@)),
        ) is Some,
        entity.endpoints.generate_delete ==> lookup(
            entity_registry(entity).endpoints,
            endpoint_key(HttpMethod::DELETE, record_path(entity.name@)),
        ) is Some,
        entity.endpoints.generate_list ==> lookup(
            entity_registry(entity).endpoints,
            endpoint_key(HttpMethod::GET, entity.name@),
        ) is Some,
{
    let name = entity.name@;
    let flags = entity.endpoints;
    let routes = flags.custom_routes@;
    let start = Registry { endpoints: Seq::empty(), warnings: Seq::empty() };
    let created = with_generated(
        start,
        flags.generate_create,
        HttpMethod::POST,
        name,
        EndpointHandler::Create,
    );
    let read = with_generated(
        created,
        flags.generate_read,
        HttpMethod::GET,
        record_path(name),
        EndpointHandler::Read,
    );
    let updated = with_generated(
        read,
        flags.generate_update,
        HttpMethod::PUT,
        record_path(name),
        EndpointHandler::Update,
    );
    let deleted = with_generated(
        updated,
        flags.generate_delete,
        HttpMethod::DELETE,
        record_path(name),
        EndpointHandler::Delete,
    );
    let listed = with_generated(
        deleted,
        flags.generate_list,
        HttpMethod::GET,
        name,
        EndpointHandler::List,
    );
    let create_key = endpoint_key(HttpMethod::POST, name);
    let read_key = endpoint_key(HttpMethod::GET, record_path(name));
    let update_key = endpoint_key(HttpMethod::PUT, record_path(name));
    let delete_key = endpoint_key(HttpMethod::DELETE, record_path(name));
    let list_key = endpoint_key(HttpMethod::GET, name);
    if flags.generate_create {
        lemma_generated_is_registered(
            start,
            HttpMethod::POST,
            name,
            EndpointHandler::Create,
            create_key,
        );
        lemma_generated_is_registered(
            created,
            HttpMethod::GET,
            record_path(name),
            EndpointHandler::Read,
            create_key,
        );
        lemma_generated_is_registered(
            read,
            HttpMethod::PUT,
            record_path(name),
            EndpointHandler::Update,
            create_key,
        );
        lemma_generated_is_registered(
            updated,
            HttpMethod::DELETE,
            record_path(name),
            EndpointHandler::Delete,
            create_key,
        );
        lemma_generated_is_registered(
            deleted,
            HttpMethod::GET,
            name,
            EndpointHandler::List,
            create_key,
        );
        lemma_custom_routes_keep_keys(listed, name, routes, create_key);
    }
    if flags.generate_read {
        lemma_generated_is_registered(
            created,
            HttpMethod::GET,
            record_path(name),
            EndpointHandler::Read,
            read_key,
        );
        lemma_generated_is_registered(
            read,
            HttpMethod::PUT,
            record_path(name),
            EndpointHandler::Update,
            read_key,
        );
        lemma_generated_is_registered(
            updated,
            HttpMethod::DELETE,
            record_path(name),
            EndpointHandler::Delete,
            read_key,
        );
        lemma_generated_is_registered(
            deleted,
            HttpMethod::GET,
            name,
            EndpointHandler::List,
            read_key,
        );
        lemma_custom_routes_keep_keys(listed, name, routes, read_key);
    }
    if flags.generate_update {
        lemma_generated_is_registered(
            read,
            HttpMethod::PUT,
            record_path(name),
            EndpointHandler::Update,
            update_key,
        );
        lemma_generated_is_registered(
            updated,
            HttpMethod::DELETE,
            record_path(name),
            EndpointHandler::Delete,
            update_key,
        );
        lemma_generated_is_registered(
            deleted,
            HttpMethod::GET,
            name,
            EndpointHandler::List,
            update_key,
        );
        lemma_custom_routes_keep_keys(listed, name, routes, update_key);
    }
    if flags.generate_delete {
        lemma_generated_is_registered(
            updated,
            HttpMethod::DELETE,
            record_path(name),
            EndpointHandler::Delete,
            delete_key,
        );
        lemma_generated_is_registered(
            deleted,
            HttpMethod::GET,
            name,
            EndpointHandler::List,
            delete_key,
        );
        lemma_custom_routes_keep_keys(listed, name, routes, delete_key);
    }
    if flags.generate_list {
        lemma_generated_is_registered(
            deleted,
            HttpMethod::GET,
            name,
            EndpointHandler::List,
            list_key,
        );
        lemma_custom_routes_keep_keys(listed, name, routes, list_key);
    }
}

} // verus!
