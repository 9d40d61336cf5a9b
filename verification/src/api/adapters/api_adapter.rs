//! Requests, responses and the router that dispatches a request to the
//! handler of the entity it names.

use crate::api::adapters::entity_mapping::{
    entity_mapper, keyed_by_name, mapped, one_entry_per_name, plan_of, well_served, EntityPlan,
    MappingReport,
};
use crate::api::adapters::routing::{
    dispatch_answer, entity_name_of, find_entity, find_handler, isolate,
};
use crate::api::common::api_entity::ApiEntity;
use crate::api::handlers::manager::invoke;
use crate::config::configuration::{same_config, Config};
use crate::config::specific::entity_config::HttpMethod;
use crate::data::datasource::base::DataSource;
use crate::error::{Refusal, RusterApiError};
use crate::string_map::{distinct_keys, keys_of, lemma_key_index_none, StringMap};
use crate::text::{concat3, debug_list};
use std::marker::PhantomData;
use vstd::prelude::*;

verus! {

/// An inbound request, already stripped of scheme and host.
#[derive(Debug)]
pub struct ApiRequest {
    pub method: HttpMethod,
    pub path: String,
    /// Path parameters, such as `id`.
    pub params: StringMap<String>,
    pub headers: StringMap<String>,
    pub body: Option<String>,
}

/// The payload of a response.
#[derive(Debug, PartialEq, Eq)]
pub enum ApiResponseBody<T> {
    Single(T),
    List(Vec<T>),
    Json(T),
}

/// A response with its typed payload.
#[derive(Debug)]
pub struct ApiResponse<T> {
    pub status: u16,
    pub headers: StringMap<String>,
    pub body: Option<ApiResponseBody<T>>,
}

/// Name-value pairs with the values as character sequences.
pub open spec fn pairs_view(pairs: Seq<(Seq<char>, String)>) -> Seq<(Seq<char>, Seq<char>)> {
    Seq::new(pairs.len(), |i: int| (pairs[i].0, pairs[i].1@))
}

/// The mathematical content of an [`ApiResponse`].
pub ghost struct ResponseView<T> {
    pub status: u16,
    pub headers: Seq<(Seq<char>, Seq<char>)>,
    pub body: Option<ApiResponseBody<T>>,
}

impl<T> View for ApiResponse<T> {
    type V = ResponseView<T>;

    open spec fn view(&self) -> ResponseView<T> {
        ResponseView { status: self.status, headers: pairs_view(self.headers@), body: self.body }
    }
}

/// What a handler or the router answers: a response, or the kind and message
/// of an error.
pub type Outcome<T> = Result<ResponseView<T>, Refusal>;

/// The mathematical content of the result of a handler or of the router.
pub open spec fn outcome_view<T>(result: Result<ApiResponse<T>, RusterApiError>) -> Outcome<T> {
    match result {
        Ok(response) => Ok(response@),
        Err(error) => Err(error@),
    }
}

/// A generated endpoint handler: which of the generated operations answers
/// under an endpoint key. The handler works on the datasource of the entity it
/// is registered for.
#[derive(Clone, Copy, Debug, PartialEq, Eq, Structural)]
pub enum EndpointHandler {
    Create,
    Read,
    Update,
    Delete,
    List,
    /// A custom route with its declared method.
    Custom(HttpMethod),
}

/// Defines the API adapter interface for handling API operations. It is the
/// face that a transport sees of the router.
pub trait ApiAdapterTrait<T> {
    /// Handles an API request and returns a response.
    fn handle_request(&self, request: ApiRequest) -> Result<ApiResponse<T>, RusterApiError>;
}

/// The API of one entity: its datasource and its handler registry.
#[derive(Debug)]
pub struct EntityApi<D> {
    /// The name under which the entity is configured; the handlers hand it to
    /// the datasource.
    pub entity_name: String,
    pub datasource: D,
    pub endpoints: StringMap<EndpointHandler>,
}

/// ApiAdapter serves as the main interface for handling API operations: the
/// router. It owns the handler registries of all entities and is read-only
/// while requests are served.
pub struct ApiAdapter<T, D> {
    pub config: Config,
    pub entities: StringMap<EntityApi<D>>,
    /// Marks the payload type that the handlers carry.
    pub payload: PhantomData<T>,
}

impl<T: ApiEntity, D: DataSource<T>> ApiAdapter<T, D> {
    /// Routes a request to the handler of the entity that its path names and
    /// answers with what the handler answers.
    pub fn dispatch(&self, request: ApiRequest) -> (r: Result<ApiResponse<T>, RusterApiError>)
        ensures
            dispatch_answer(self.config.api_prefix, self.entities@, request, outcome_view(r)),
    {
        let name = match entity_name_of(&self.config.api_prefix, request.path.as_str()) {
            Ok(name) => name,
            Err(error) => {
                let r: Result<ApiResponse<T>, RusterApiError> = Err(error);
                return r;
            },
        };
        let at = match find_entity(&self.entities, name.as_str()) {
            Some(at) => at,
            None => {
                let known = debug_list(&self.entities.keys());
                let mut message = concat3(
                    "Entity not found: ",
                    name.as_str(),
                    ". Available entities: ",
                );
                message.append(known.as_str());
                let r: Result<ApiResponse<T>, RusterApiError> = Err(
                    RusterApiError::EntityNotFound(message),
                );
                return r;
            },
        };
        let entity_api = self.entities.value_at(at);
        match find_handler(
            &entity_api.endpoints,
            request.method,
            entity_api.entity_name.as_str(),
        ) {
            Some(handler) => {
                let raw = invoke(
                    handler,
                    &entity_api.datasource,
                    entity_api.entity_name.as_str(),
                    &request,
                );
                isolate(raw)
            },
            None => {
                let known = debug_list(&entity_api.endpoints.keys());
                let mut message = concat3(
                    "Endpoint not found for ",
                    request.method.tag(),
                    " ",
                );
                message.append(request.path.as_str());
                message.append(". Available endpoints: ");
                message.append(known.as_str());
                let r: Result<ApiResponse<T>, RusterApiError> = Err(
                    RusterApiError::EntityNotFound(message),
                );
                r
            },
        }
    }
}

impl<T: ApiEntity, D: DataSource<T>> ApiAdapterTrait<T> for ApiAdapter<T, D> {
    /// Handles an API request and returns a response.
    fn handle_request(&self, request: ApiRequest) -> (r: Result<ApiResponse<T>, RusterApiError>)
        ensures
            dispatch_answer(self.config.api_prefix, self.entities@, request, outcome_view(r)),
    {
        self.dispatch(request)
    }
}

impl<T: ApiEntity, D: DataSource<T>> ApiAdapter<T, D> {
    /// Creates a new ApiAdapter with the provided configuration and data
    /// sources: every configured entity that has a datasource is registered
    /// under its name in lower case, with its handlers and a copy of that
    /// datasource. No two entries answer to one name: of two entities whose
    /// names are equal but for case the first stands.
    pub fn new(config: Config, datasources: StringMap<D>) -> (r: Self)
        ensures
            r.config == config,
            plan_of(r.entities@) == mapped(Seq::empty(), config, keys_of(datasources@)).entities,
            well_served::<T, D>(datasources@, r.entities@),
            one_entry_per_name(r.entities@),
            keyed_by_name(plan_of(r.entities@)),
    {
        ApiAdapter::new_with_report(config, datasources).0
    }

    /// Creates a new ApiAdapter as [`ApiAdapter::new`] does, and hands out
    /// what is owed a warning: the entities that were skipped for want of a
    /// datasource, and the endpoint keys that were overwritten.
    pub fn new_with_report(config: Config, datasources: StringMap<D>) -> (r: (
        Self,
        MappingReport,
    ))
        ensures
            r.0.config == config,
            plan_of(r.0.entities@) == mapped(
                Seq::empty(),
                config,
                keys_of(datasources@),
            ).entities,
            well_served::<T, D>(datasources@, r.0.entities@),
            one_entry_per_name(r.0.entities@),
            keyed_by_name(plan_of(r.0.entities@)),
            r.1.skipped.deep_view() == mapped(Seq::empty(), config, keys_of(datasources@)).skipped,
            r.1.overwritten.deep_view() == mapped(
                Seq::empty(),
                config,
                keys_of(datasources@),
            ).warnings,
    {
        let mut entities: StringMap<EntityApi<D>> = StringMap::new();
        assert(plan_of(entities@) =~= Seq::<(Seq<char>, EntityPlan)>::empty());
        let report = entity_mapper::<T, D>(&config, &datasources, &mut entities);
        (ApiAdapter { config, entities, payload: PhantomData }, report)
    }
}

impl<D: Clone> Clone for EntityApi<D> {
    /// A copy with the same name and endpoints and with a copy of the
    /// datasource, as the datasource's own `clone` makes it.
    fn clone(&self) -> (r: Self)
        ensures
            r.entity_name@ == self.entity_name@,
            r.endpoints@ == self.endpoints@,
            cloned::<D>(self.datasource, r.datasource),
    {
        EntityApi {
            entity_name: self.entity_name.clone(),
            datasource: self.datasource.clone(),
            endpoints: self.endpoints.duplicate(),
        }
    }
}

/// Whether every entry of `copy` works on a copy of the datasource of the
/// entry of `original` at the same place.
pub open spec fn shares_datasources<T, D: DataSource<T>>(
    original: Seq<(Seq<char>, EntityApi<D>)>,
    copy: Seq<(Seq<char>, EntityApi<D>)>,
) -> bool {
    &&& copy.len() == original.len()
    &&& forall|i: int|
        0 <= i < original.len() ==> DataSource::<T>::may_copy(
            &(#[trigger] original[i]).1.datasource,
            copy[i].1.datasource,
        )
}

impl<T, D: DataSource<T>> Clone for ApiAdapter<T, D> {
    /// A copy of the router for another worker: the same configuration, the
    /// same entities with the same endpoints, each with a handle of its own
    /// on its datasource.
    fn clone(&self) -> (r: Self)
        ensures
            same_config(self.config, r.config),
            plan_of(r.entities@) == plan_of(self.entities@),
            shares_datasources::<T, D>(self.entities@, r.entities@),
    {
        let mut entities: StringMap<EntityApi<D>> = StringMap::new();
        let count = self.entities.len();
        let mut i: usize = 0;
        while i < count
            invariant
                i <= count,
                count == self.entities@.len(),
                distinct_keys(self.entities@),
                entities@.len() == i,
                plan_of(entities@) == plan_of(self.entities@).take(i as int),
                forall|j: int|
                    0 <= j < i ==> DataSource::<T>::may_copy(
                        &(#[trigger] self.entities@[j]).1.datasource,
                        entities@[j].1.datasource,
                    ),
            decreases count - i,
        {
            let original = self.entities.value_at(i);
            let api = EntityApi {
                entity_name: original.entity_name.clone(),
                datasource: original.datasource.box_clone(),
                endpoints: original.endpoints.duplicate(),
            };
            let key = self.entities.key_at(i).clone();
            proof {
                let plans = plan_of(entities@);
                assert forall|j: int| 0 <= j < entities@.len() implies (#[trigger] entities@[j]).0
                    != key@ by {
                    assert(plans[j] == plan_of(self.entities@)[j]);
                }
                lemma_key_index_none(entities@, key@);
            }
            entities.insert(key, api);
            i = i + 1;
        }
        ApiAdapter { config: self.config.clone(), entities, payload: PhantomData }
    }
}

} // verus!
