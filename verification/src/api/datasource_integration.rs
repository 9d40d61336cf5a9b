//! Pairs the configured entities with the datasources that a factory built.

use crate::api::adapters::api_adapter::EntityApi;
use crate::api::adapters::entity_mapping::{
    keyed_by_name, lemma_advanced_keeps_order, lemma_plan_answers_alike, map_advanced, map_one,
    one_entry_per_name, plan_of, well_served, EntityPlan, Mapping, MappingReport,
};
use crate::api::common::api_entity::ApiEntity;
use crate::config::configuration::Config;
use crate::config::specific::entity_config::Entity;
use crate::data::datasource::base::DataSource;
use crate::string_map::{keys_of, lookup, StringMap};
use vstd::prelude::*;

verus! {

/// This module integrates datasources with the API system.
pub struct DatasourceIntegration;

/// The mapping of the entities in full form onto the datasources with the
/// given keys, starting from an empty table: each entity is registered under
/// its name in lower case, of two entities whose names are equal but for case
/// the first stands, and an entity without a datasource is left out.
pub open spec fn integrated(datasources: Seq<Seq<char>>, entities: Seq<Entity>) -> Mapping {
    map_advanced(
        Mapping { entities: Seq::empty(), skipped: Seq::empty(), warnings: Seq::empty() },
        datasources,
        entities,
    )
}

impl DatasourceIntegration {
    /// Sets up the entities in full form with their handlers, each on a copy
    /// of the datasource whose key equals its name without regard to case.
    pub fn setup_entity_datasources<T: ApiEntity, D: DataSource<T>>(
        config: &Config,
        datasources: &StringMap<D>,
    ) -> (r: StringMap<EntityApi<D>>)
        ensures
            plan_of(r@) == integrated(keys_of(datasources@), config.entities_advanced@).entities,
            well_served::<T, D>(datasources@, r@),
            one_entry_per_name(r@),
            keyed_by_name(plan_of(r@)),
    {
        DatasourceIntegration::setup_with_report::<T, D>(config, datasources).0
    }

    /// Sets up the entities as [`DatasourceIntegration::setup_entity_datasources`]
    /// does, and hands out what is owed a warning: the entities that were
    /// left out for want of a datasource, and the endpoint keys that were
    /// overwritten.
    pub fn setup_with_report<T: ApiEntity, D: DataSource<T>>(
        config: &Config,
        datasources: &StringMap<D>,
    ) -> (r: (StringMap<EntityApi<D>>, MappingReport))
        ensures
            plan_of(r.0@) == integrated(
                keys_of(datasources@),
                config.entities_advanced@,
            ).entities,
            r.1.skipped.deep_view() == integrated(
                keys_of(datasources@),
                config.entities_advanced@,
            ).skipped,
            r.1.overwritten.deep_view() == integrated(
                keys_of(datasources@),
                config.entities_advanced@,
            ).warnings,
            well_served::<T, D>(datasources@, r.0@),
            one_entry_per_name(r.0@),
            keyed_by_name(plan_of(r.0@)),
    {
        let mut entity_apis: StringMap<EntityApi<D>> = StringMap::new();
        let mut skipped: Vec<String> = Vec::new();
        let mut overwritten: Vec<String> = Vec::new();
        let entities = &config.entities_advanced;
        let ghost keys = keys_of(datasources@);
        let ghost start = Mapping {
            entities: Seq::empty(),
            skipped: Seq::empty(),
            warnings: Seq::empty(),
        };
        let mut i: usize = 0;
        assert(plan_of(entity_apis@) =~= Seq::<(Seq<char>, EntityPlan)>::empty());
        assert(skipped.deep_view() =~= Seq::<Seq<char>>::empty());
        assert(overwritten.deep_view() =~= Seq::<Seq<char>>::empty());
        assert(entities@.take(0) =~= Seq::<Entity>::empty());
        while i < entities.len()
            invariant
                i <= entities.len(),
                entities@ == config.entities_advanced@,
                keys == keys_of(datasources@),
                (Mapping {
                    entities: plan_of(entity_apis@),
                    skipped: skipped.deep_view(),
                    warnings: overwritten.deep_view(),
                }) == map_advanced(start, keys, entities@.take(i as int)),
                well_served::<T, D>(datasources@, entity_apis@),
            decreases entities.len() - i,
        {
            proof {
                let next = entities@.take(i + 1);
                assert(next.drop_last() =~= entities@.take(i as int));
            }
            map_one::<T, D>(
                config,
                datasources,
                &mut entity_apis,
                &mut skipped,
                &mut overwritten,
                &entities[i],
            );
            i = i + 1;
        }
        assert(entities@.take(entities.len() as int) =~= entities@);
        proof {
            lemma_advanced_keeps_order(start, keys, entities@);
            lemma_plan_answers_alike(entity_apis@, Seq::empty());
        }
        (entity_apis, MappingReport { skipped, overwritten })
    }

    /// Get datasource for specific entity from the datasources map.
    pub fn get_entity_datasource<'a, D>(entity_name: &str, datasources: &'a StringMap<D>) -> (r:
        Option<&'a D>)
        ensures
            match r {
                Some(datasource) => lookup(datasources@, entity_name@) == Some(*datasource),
                None => lookup(datasources@, entity_name@) is None,
            },
    {
        datasources.get(entity_name)
    }
}

} // verus!
