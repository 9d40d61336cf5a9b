//! Builds the entity table of the router from the configuration and the
//! datasources.

use crate::api::adapters::api_adapter::{EndpointHandler, EntityApi};
use crate::api::adapters::routing::{entity_index, find_entity};
use crate::api::common::api_entity::ApiEntity;
use crate::api::handlers::common::utils::{overwritten, registered};
use crate::api::handlers::manager::{
    entity_registry, generated_registry, ApiHandlerManager, Registry,
};
use crate::config::configuration::Config;
use crate::config::shared::EntityBasic;
use crate::config::specific::entity_config::{CustomRoute, Entity};
use crate::data::datasource::base::DataSource;
use crate::string_map::{
    key_index, keys_of, lemma_key_index, lemma_key_index_is, lemma_key_index_none, put, StringMap,
};
use crate::text::{
    append_all, first_index, lemma_first_index, lemma_first_index_is, lemma_first_index_none,
    lemma_lowercase_of_ascii, lowercase, lowercase_text, same_text,
};
use vstd::prelude::*;

verus! {

/// What is registered for one entity: its configured name and its endpoints.
pub ghost struct EntityPlan {
    pub entity_name: Seq<char>,
    pub endpoints: Seq<(Seq<char>, EndpointHandler)>,
}

/// The entity table, without the datasources.
pub open spec fn plan_of<D>(entities: Seq<(Seq<char>, EntityApi<D>)>) -> Seq<
    (Seq<char>, EntityPlan),
> {
    Seq::new(
        entities.len(),
        |i: int|
            (
                entities[i].0,
                EntityPlan {
                    entity_name: entities[i].1.entity_name@,
                    endpoints: entities[i].1.endpoints@,
                },
            ),
    )
}

/// The state of mapping entities to datasources and handlers.
pub ghost struct Mapping {
    /// The entity table so far.
    pub entities: Seq<(Seq<char>, EntityPlan)>,
    /// The entities that have no datasource and were passed over.
    pub skipped: Seq<Seq<char>>,
    /// The endpoint keys that were overwritten while registries were built.
    pub warnings: Seq<Seq<char>>,
}

/// Position of the datasource that serves an entity: the first one whose key
/// equals the entity's name when both are put in lower case.
pub open spec fn serving_datasource(keys: Seq<Seq<char>>, name: Seq<char>) -> Option<int> {
    first_index(keys, |key: Seq<char>| lowercase_text(key) == lowercase_text(name))
}

/// The key under which an entity is registered: its name in lower case.
pub open spec fn entity_key(name: Seq<char>) -> Seq<char> {
    lowercase_text(name)
}

/// The entry of the table that a request for `key` reaches, if there is one:
/// the first whose key equals `key` when both are put in lower case.
pub open spec fn serving_entry<V>(entities: Seq<(Seq<char>, V)>, key: Seq<char>) -> Option<int> {
    entity_index(entities, lowercase_text(key))
}

/// One step of the mapping. The entity is registered under its name in lower
/// case. An entity whose key the table serves already is passed over in
/// silence, so the entity that comes first stands; one without a datasource
/// is skipped and reported.
pub open spec fn map_entity(
    state: Mapping,
    datasources: Seq<Seq<char>>,
    name: Seq<char>,
    registry: Registry,
) -> Mapping {
    if serving_entry(state.entities, entity_key(name)) is Some {
        state
    } else if serving_datasource(datasources, name) is None {
        Mapping { skipped: state.skipped.push(name), ..state }
    } else {
        Mapping {
            entities: put(
                state.entities,
                entity_key(name),
                EntityPlan { entity_name: name, endpoints: registry.endpoints },
            ),
            skipped: state.skipped,
            warnings: state.warnings + registry.warnings,
        }
    }
}

/// The mapping after the entities in full form, in order.
pub open spec fn map_advanced(
    state: Mapping,
    datasources: Seq<Seq<char>>,
    entities: Seq<Entity>,
) -> Mapping
    decreases entities.len(),
{
    if entities.len() == 0 {
        state
    } else {
        let entity = entities.last();
        map_entity(
            map_advanced(state, datasources, entities.drop_last()),
            datasources,
            entity.name@,
            entity_registry(entity),
        )
    }
}

/// The mapping after the entities in short form, in order: each is
/// registered with every CRUD endpoint.
pub open spec fn map_basic(
    state: Mapping,
    datasources: Seq<Seq<char>>,
    entities: Seq<EntityBasic>,
) -> Mapping
    decreases entities.len(),
{
    if entities.len() == 0 {
        state
    } else {
        let entity = entities.last();
        map_entity(
            map_basic(state, datasources, entities.drop_last()),
            datasources,
            entity.name@,
            generated_registry(
                entity.name@,
                true,
                true,
                true,
                true,
                true,
                Seq::<CustomRoute>::empty(),
            ),
        )
    }
}

/// The mapping of a configuration onto the datasources with the given keys,
/// on top of the entities that are registered already: first the entities in
/// full form, then those in short form.
pub open spec fn mapped(
    registered: Seq<(Seq<char>, EntityPlan)>,
    config: Config,
    datasources: Seq<Seq<char>>,
) -> Mapping {
    let start = Mapping { entities: registered, skipped: Seq::empty(), warnings: Seq::empty() };
    map_basic(
        map_advanced(start, datasources, config.entities_advanced@),
        datasources,
        config.entities_basic@,
    )
}

/// No two entries answer to one name: no two keys are equal when put in
/// lower case.
pub open spec fn one_entry_per_name<V>(entities: Seq<(Seq<char>, V)>) -> bool {
    forall|i: int, j: int|
        0 <= i < j < entities.len() ==> lowercase_text((#[trigger] entities[i]).0)
            != lowercase_text((#[trigger] entities[j]).0)
}

/// Every entry stands under the key of its entity: the configured name in
/// lower case.
pub open spec fn keyed_by_name(entities: Seq<(Seq<char>, EntityPlan)>) -> bool {
    forall|i: int|
        0 <= i < entities.len() ==> (#[trigger] entities[i]).0 == entity_key(
            entities[i].1.entity_name,
        )
}

/// A step of the mapping keeps the table in order: if no two entries answer
/// to one name before, none do after, and every entry stands under the key
/// of its entity if every entry did before.
pub proof fn lemma_map_entity_keeps_order(
    state: Mapping,
    datasources: Seq<Seq<char>>,
    name: Seq<char>,
    registry: Registry,
)
    ensures
        one_entry_per_name(state.entities) ==> one_entry_per_name(
            map_entity(state, datasources, name, registry).entities,
        ),
        keyed_by_name(state.entities) ==> keyed_by_name(
            map_entity(state, datasources, name, registry).entities,
        ),
{
    let key = entity_key(name);
    let entities = state.entities;
    let meets = |entry: (Seq<char>, EntityPlan)| lowercase_text(entry.0) == lowercase_text(key);
    lemma_first_index(entities, meets);
    if serving_entry(entities, key) is None {
        assert forall|j: int| 0 <= j < entities.len() implies (#[trigger] entities[j]).0
            != key by {
            assert(!meets(entities[j]));
        }
        lemma_key_index_none(entities, key);
        let after = entities.push(
            (key, EntityPlan { entity_name: name, endpoints: registry.endpoints }),
        );
        if one_entry_per_name(entities) {
            assert forall|i: int, j: int| 0 <= i < j < after.len() implies lowercase_text(
                (#[trigger] after[i]).0,
            ) != lowercase_text((#[trigger] after[j]).0) by {
                assert(!meets(entities[i]));
            }
        }
    }
}

/// The mapping keeps the table in order. Mapping a configuration onto a
/// table in which no two entries answer to one name gives such a table; so
/// of two configured entities whose names are equal but for case the first
/// stands and the second is passed over. And every new entry stands under its
/// entity's name in lower case.
pub proof fn lemma_mapping_keeps_order(
    registered: Seq<(Seq<char>, EntityPlan)>,
    config: Config,
    datasources: Seq<Seq<char>>,
)
    ensures
        one_entry_per_name(registered) ==> one_entry_per_name(
            mapped(registered, config, datasources).entities,
        ),
        keyed_by_name(registered) ==> keyed_by_name(
            mapped(registered, config, datasources).entities,
        ),
{
    let start = Mapping { entities: registered, skipped: Seq::empty(), warnings: Seq::empty() };
    lemma_advanced_keeps_order(start, datasources, config.entities_advanced@);
    lemma_basic_keeps_order(
        map_advanced(start, datasources, config.entities_advanced@),
        datasources,
        config.entities_basic@,
    );
}

/// Mapping entities in full form keeps the table in order.
pub proof fn lemma_advanced_keeps_order(
    state: Mapping,
    datasources: Seq<Seq<char>>,
    entities: Seq<Entity>,
)
    ensures
        one_entry_per_name(state.entities) ==> one_entry_per_name(
            map_advanced(state, datasources, entities).entities,
        ),
        keyed_by_name(state.entities) ==> keyed_by_name(
            map_advanced(state, datasources, entities).entities,
        ),
    decreases entities.len(),
{
    if entities.len() > 0 {
        lemma_advanced_keeps_order(state, datasources, entities.drop_last());
        lemma_map_entity_keeps_order(
            map_advanced(state, datasources, entities.drop_last()),
            datasources,
            entities.last().name@,
            entity_registry(entities.last()),
        );
    }
}

proof fn lemma_basic_keeps_order(
    state: Mapping,
    datasources: Seq<Seq<char>>,
    entities: Seq<EntityBasic>,
)
    ensures
        one_entry_per_name(state.entities) ==> one_entry_per_name(
            map_basic(state, datasources, entities).entities,
        ),
        keyed_by_name(state.entities) ==> keyed_by_name(
            map_basic(state, datasources, entities).entities,
        ),
    decreases entities.len(),
{
    if entities.len() > 0 {
        lemma_basic_keeps_order(state, datasources, entities.drop_last());
        lemma_map_entity_keeps_order(
            map_basic(state, datasources, entities.drop_last()),
            datasources,
            entities.last().name@,
            generated_registry(
                entities.last().name@,
                true,
                true,
                true,
                true,
                true,
                Seq::<CustomRoute>::empty(),
            ),
        );
    }
}

/// The key of an entity with an ASCII name is settled: it is an ASCII text,
/// and putting it in lower case again changes nothing.
pub proof fn lemma_ascii_key_is_settled(name: Seq<char>)
    requires
        vstd::utf8::is_ascii_chars(name),
    ensures
        vstd::utf8::is_ascii_chars(entity_key(name)),
        lowercase_text(entity_key(name)) == entity_key(name),
{
    lemma_lowercase_of_ascii(name, name);
}

/// The plan of a table answers to the names that the table answers to.
pub proof fn lemma_plan_answers_alike<D>(entities: Seq<(Seq<char>, EntityApi<D>)>, name: Seq<char>)
    ensures
        entity_index(plan_of(entities), name) == entity_index(entities, name),
        one_entry_per_name(plan_of(entities)) == one_entry_per_name(entities),
{
    let plans = plan_of(entities);
    let meets = |entry: (Seq<char>, EntityApi<D>)| lowercase_text(entry.0) == name;
    let meets_plan = |entry: (Seq<char>, EntityPlan)| lowercase_text(entry.0) == name;
    lemma_first_index(entities, meets);
    match first_index(entities, meets) {
        Some(i) => {
            assert forall|j: int| 0 <= j < i implies !meets_plan(#[trigger] plans[j]) by {
                assert(!meets(entities[j]));
            }
            assert(meets_plan(plans[i]));
            lemma_first_index_is(plans, meets_plan, i);
        },
        None => {
            assert forall|j: int| 0 <= j < plans.len() implies !meets_plan(
                #[trigger] plans[j],
            ) by {
                assert(!meets(entities[j]));
            }
            lemma_first_index_none(plans, meets_plan);
        },
    }
    if one_entry_per_name(entities) {
        assert forall|i: int, j: int| 0 <= i < j < plans.len() implies lowercase_text(
            (#[trigger] plans[i]).0,
        ) != lowercase_text((#[trigger] plans[j]).0) by {
            assert(plans[i].0 == entities[i].0 && plans[j].0 == entities[j].0);
        }
    }
    if one_entry_per_name(plans) {
        assert forall|i: int, j: int| 0 <= i < j < entities.len() implies lowercase_text(
            (#[trigger] entities[i]).0,
        ) != lowercase_text((#[trigger] entities[j]).0) by {
            assert(plans[i].0 == entities[i].0 && plans[j].0 == entities[j].0);
        }
    }
}

/// Whether an entry of the entity table works on a copy of the datasource
/// that serves its entity.
pub open spec fn served_by<T, D: DataSource<T>>(
    datasources: Seq<(Seq<char>, D)>,
    api: EntityApi<D>,
) -> bool {
    serving_datasource(keys_of(datasources), api.entity_name@) matches Some(at)
        && DataSource::<T>::may_copy(&datasources[at].1, api.datasource)
}

/// Whether every entry of the entity table works on a copy of the datasource
/// that serves its entity.
pub open spec fn well_served<T, D: DataSource<T>>(
    datasources: Seq<(Seq<char>, D)>,
    entities: Seq<(Seq<char>, EntityApi<D>)>,
) -> bool {
    forall|i: int|
        0 <= i < entities.len() ==> served_by::<T, D>(datasources, (#[trigger] entities[i]).1)
}

/// What the mapping has to report: the entities that were skipped for want of
/// a datasource, and the endpoint keys that were overwritten.
#[derive(Debug)]
pub struct MappingReport {
    pub skipped: Vec<String>,
    pub overwritten: Vec<String>,
}

/// Putting an entry into the entity table puts its plan into the plan of the
/// table.
pub proof fn lemma_plan_of_put<D>(
    entities: Seq<(Seq<char>, EntityApi<D>)>,
    key: Seq<char>,
    api: EntityApi<D>,
)
    ensures
        plan_of(put(entities, key, api)) == put(
            plan_of(entities),
            key,
            EntityPlan { entity_name: api.entity_name@, endpoints: api.endpoints@ },
        ),
{
    let plans = plan_of(entities);
    lemma_key_index(entities, key);
    match key_index(entities, key) {
        Some(i) => {
            lemma_key_index_is(plans, key, i);
        },
        None => {
            lemma_key_index_none(plans, key);
        },
    }
}

fn find_datasource<D>(datasources: &StringMap<D>, name: &str) -> (r: Option<usize>)
    ensures
        match r {
            Some(i) => serving_datasource(keys_of(datasources@), name@) == Some(i as int) && i
                < datasources@.len(),
            None => serving_datasource(keys_of(datasources@), name@) is None,
        },
{
    let wanted = lowercase(name);
    let ghost keys = keys_of(datasources@);
    let ghost meets = |key: Seq<char>| lowercase_text(key) == lowercase_text(name@);
    let mut i: usize = 0;
    while i < datasources.len()
        invariant
            i <= datasources@.len(),
            keys == keys_of(datasources@),
            wanted@ == lowercase_text(name@),
            meets == |key: Seq<char>| lowercase_text(key) == lowercase_text(name@),
            forall|j: int| 0 <= j < i ==> !meets(#[trigger] keys[j]),
        decreases datasources@.len() - i,
    {
        let key = lowercase(datasources.key_at(i).as_str());
        if same_text(key.as_str(), wanted.as_str()) {
            proof {
                lemma_first_index_is(keys, meets, i as int);
            }
            return Some(i);
        }
        i = i + 1;
    }
    proof {
        lemma_first_index_none(keys, meets);
    }
    None
}

fn push_name(names: &mut Vec<String>, name: String)
    ensures
        final(names).deep_view() == old(names).deep_view().push(name@),
{
    names.push(name);
}

/// Maps one entity: the step that [`map_entity`] describes.
pub fn map_one<T: ApiEntity, D: DataSource<T>>(
    config: &Config,
    datasources: &StringMap<D>,
    entities: &mut StringMap<EntityApi<D>>,
    skipped: &mut Vec<String>,
    warnings: &mut Vec<String>,
    entity: &Entity,
)
    ensures
        (Mapping {
            entities: plan_of(final(entities)@),
            skipped: final(skipped).deep_view(),
            warnings: final(warnings).deep_view(),
        }) == map_entity(
            Mapping {
                entities: plan_of(old(entities)@),
                skipped: old(skipped).deep_view(),
                warnings: old(warnings).deep_view(),
            },
            keys_of(datasources@),
            entity.name@,
            entity_registry(*entity),
        ),
        well_served::<T, D>(datasources@, old(entities)@) ==> well_served::<T, D>(
            datasources@,
            final(entities)@,
        ),
{
    let key = lowercase(entity.name.as_str());
    let wanted = lowercase(key.as_str());
    proof {
        lemma_plan_answers_alike(entities@, wanted@);
    }
    if find_entity(entities, wanted.as_str()).is_some() {
        return ;
    }
    match find_datasource(datasources, entity.name.as_str()) {
        None => {
            push_name(skipped, entity.name.clone());
        },
        Some(at) => {
            let manager = ApiHandlerManager::new(
                config.clone(),
                datasources.value_at(at).box_clone(),
            );
            let (endpoints, more) = manager.initialize_endpoints(entity);
            let api = EntityApi {
                entity_name: entity.name.clone(),
                datasource: manager.into_datasource(),
                endpoints,
            };
            proof {
                lemma_plan_of_put(entities@, key@, api);
                lemma_key_index(entities@, key@);
            }
            entities.insert(key, api);
            append_all(warnings, more);
        },
    }
}

/// Maps the entities from the configuration to their respective data sources
/// and handlers.
///
/// An entity is registered under its name in lower case, with a copy of the
/// datasource whose key equals its name without regard to case. Of two
/// entities whose names are equal but for case the first stands. An entity
/// without a datasource is skipped and reported; the others are still served.
pub fn entity_mapper<T: ApiEntity, D: DataSource<T>>(
    config: &Config,
    datasources: &StringMap<D>,
    entities: &mut StringMap<EntityApi<D>>,
) -> (report: MappingReport)
    ensures
        plan_of(final(entities)@) == mapped(
            plan_of(old(entities)@),
            *config,
            keys_of(datasources@),
        ).entities,
        report.skipped.deep_view() == mapped(
            plan_of(old(entities)@),
            *config,
            keys_of(datasources@),
        ).skipped,
        report.overwritten.deep_view() == mapped(
            plan_of(old(entities)@),
            *config,
            keys_of(datasources@),
        ).warnings,
        well_served::<T, D>(datasources@, old(entities)@) ==> well_served::<T, D>(
            datasources@,
            final(entities)@,
        ),
        one_entry_per_name(old(entities)@) ==> one_entry_per_name(final(entities)@),
        keyed_by_name(plan_of(old(entities)@)) ==> keyed_by_name(plan_of(final(entities)@)),
{
    let mut skipped: Vec<String> = Vec::new();
    let mut warnings: Vec<String> = Vec::new();
    let ghost keys = keys_of(datasources@);
    let ghost start = Mapping {
        entities: plan_of(entities@),
        skipped: Seq::empty(),
        warnings: Seq::empty(),
    };
    assert(skipped.deep_view() =~= Seq::<Seq<char>>::empty());
    assert(warnings.deep_view() =~= Seq::<Seq<char>>::empty());
    let advanced = &config.entities_advanced;
    let mut i: usize = 0;
    assert(advanced@.take(0) =~= Seq::<Entity>::empty());
    while i < advanced.len()
        invariant
            i <= advanced.len(),
            advanced@ == config.entities_advanced@,
            keys == keys_of(datasources@),
            (Mapping {
                entities: plan_of(entities@),
                skipped: skipped.deep_view(),
                warnings: warnings.deep_view(),
            }) == map_advanced(start, keys, advanced@.take(i as int)),
            well_served::<T, D>(datasources@, old(entities)@) ==> well_served::<T, D>(
                datasources@,
                entities@,
            ),
        decreases advanced.len() - i,
    {
        let entity = &advanced[i];
        proof {
            let next = advanced@.take(i + 1);
            assert(next.drop_last() =~= advanced@.take(i as int));
        }
        map_one::<T, D>(config, datasources, entities, &mut skipped, &mut warnings, entity);
        i = i + 1;
    }
    assert(advanced@.take(advanced.len() as int) =~= advanced@);
    let ghost middle = map_advanced(start, keys, config.entities_advanced@);
    let basic = &config.entities_basic;
    let mut k: usize = 0;
    assert(basic@.take(0) =~= Seq::<EntityBasic>::empty());
    while k < basic.len()
        invariant
            k <= basic.len(),
            basic@ == config.entities_basic@,
            keys == keys_of(datasources@),
            (Mapping {
                entities: plan_of(entities@),
                skipped: skipped.deep_view(),
                warnings: warnings.deep_view(),
            }) == map_basic(middle, keys, basic@.take(k as int)),
            well_served::<T, D>(datasources@, old(entities)@) ==> well_served::<T, D>(
                datasources@,
                entities@,
            ),
        decreases basic.len() - k,
    {
        let entity = basic[k].to_entity();
        proof {
            let next = basic@.take(k + 1);
            assert(next.drop_last() =~= basic@.take(k as int));
            assert(entity.endpoints.custom_routes@ =~= Seq::<CustomRoute>::empty());
        }
        map_one::<T, D>(config, datasources, entities, &mut skipped, &mut warnings, &entity);
        k = k + 1;
    }
    assert(basic@.take(basic.len() as int) =~= basic@);
    proof {
        lemma_mapping_keeps_order(plan_of(old(entities)@), *config, keys);
        lemma_plan_answers_alike(old(entities)@, Seq::empty());
        lemma_plan_answers_alike(entities@, Seq::empty());
    }
    MappingReport { skipped, overwritten: warnings }
}

} // verus!
