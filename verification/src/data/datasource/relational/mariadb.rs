//! The relational mapping engine for MariaDB and MySQL: the table of entity
//! mappings and the lookup of an entity in it.
//!
//! The engine prepares statements and reads rows; sending a statement to the
//! server is left to the caller.

use crate::config::specific::database_config::DatabaseConfig;
use crate::config::specific::entity_config::Entity;
use crate::data::datasource::base::{DataSourceError, DataSourceErrorKind, Failure};
use crate::data::datasource::relational::base::{
    create_table_mapping, table_mapping_of, TableMapping, TableMappingView,
};
use crate::string_map::{
    key_index, keys_of, lemma_key_index, lemma_key_index_is, lemma_key_index_none, lemma_put,
    lookup, put, StringMap,
};
use crate::text::{
    concat2, concat3, debug_list, debug_list_text, first_index, lemma_first_index_is,
    lemma_first_index_none, lowercase, lowercase_text, same_text, trim, trimmed_text,
};
use vstd::prelude::*;

verus! {

/// The name under which an entity is looked up: in lower case, without
/// surrounding white space.
pub open spec fn normalized_name(name: Seq<char>) -> Seq<char> {
    trimmed_text(lowercase_text(name))
}

/// Normalizes an entity name by converting to lowercase and trimming
/// whitespace.
pub fn normalize_entity_name(name: &str) -> (r: String)
    ensures
        r@ == normalized_name(name@),
{
    let lowered = lowercase(name);
    trim(lowered.as_str())
}

/// The mapping table after a mapping was registered for an entity name: under
/// the normalized name, under the name as configured where that differs, and
/// under the table name where that differs from both.
pub open spec fn register_under(
    table: Seq<(Seq<char>, TableMappingView)>,
    name: Seq<char>,
    mapping: TableMappingView,
) -> Seq<(Seq<char>, TableMappingView)> {
    let normalized = normalized_name(name);
    let first = put(table, normalized, mapping);
    let second = if name != normalized {
        put(first, name, mapping)
    } else {
        first
    };
    if mapping.table_name != normalized && mapping.table_name != name {
        put(second, mapping.table_name, mapping)
    } else {
        second
    }
}

/// The mapping table after an entity was registered.
pub open spec fn register_mapping(
    table: Seq<(Seq<char>, TableMappingView)>,
    entity: Entity,
) -> Seq<(Seq<char>, TableMappingView)> {
    register_under(table, entity.name@, table_mapping_of(entity))
}

/// The mapping table after the entities were registered, in order.
pub open spec fn register_mappings(
    table: Seq<(Seq<char>, TableMappingView)>,
    entities: Seq<Entity>,
) -> Seq<(Seq<char>, TableMappingView)>
    decreases entities.len(),
{
    if entities.len() == 0 {
        table
    } else {
        register_mapping(register_mappings(table, entities.drop_last()), entities.last())
    }
}

/// The mapping that serves an entity name: the one under the normalized
/// name; else the one under the name as given; else the first one whose table
/// name, normalized, is the normalized name.
pub open spec fn found_mapping(
    table: Seq<(Seq<char>, TableMappingView)>,
    name: Seq<char>,
) -> Option<TableMappingView> {
    match lookup(table, normalized_name(name)) {
        Some(mapping) => Some(mapping),
        None => match lookup(table, name) {
            Some(mapping) => Some(mapping),
            None => match first_index(
                table,
                |entry: (Seq<char>, TableMappingView)|
                    normalized_name(entry.1.table_name) == normalized_name(name),
            ) {
                Some(i) => Some(table[i].1),
                None => None,
            },
        },
    }
}

/// The error for an entity without a mapping. It names the entity and the
/// keys under which mappings are known.
pub open spec fn no_mapping(name: Seq<char>, known: Seq<Seq<char>>) -> Failure {
    (
        DataSourceErrorKind::NotFound,
        "No mapping found for entity '"@ + name + "'. Known entities: "@ + debug_list_text(known),
    )
}

/// The error for a connection that could not be made. It carries the reason
/// that the attempt gave.
pub open spec fn connection_failed(reason: Seq<char>) -> Failure {
    (DataSourceErrorKind::ConnectionError, "Error connecting to MariaDB: "@ + reason)
}

/// MariaDB datasource implementation that provides CRUD operations against
/// MariaDB/MySQL databases, with flexible entity-table mapping.
#[derive(Debug)]
pub struct MariaDbDatasource {
    pub config: DatabaseConfig,
    mappings: Vec<TableMapping>,
    names: StringMap<usize>,
}

/// The mapping table that a list of mappings and an index of names stand for.
pub open spec fn table_of(mappings: Seq<TableMapping>, names: Seq<(Seq<char>, usize)>) -> Seq<
    (Seq<char>, TableMappingView),
> {
    Seq::new(names.len(), |i: int| (names[i].0, mappings[names[i].1 as int]@))
}

/// Every name points at a mapping.
pub open spec fn names_in_range(
    mappings: Seq<TableMapping>,
    names: Seq<(Seq<char>, usize)>,
) -> bool {
    forall|i: int| 0 <= i < names.len() ==> (#[trigger] names[i]).1 < mappings.len()
}

proof fn lemma_table_put(
    mappings: Seq<TableMapping>,
    names: Seq<(Seq<char>, usize)>,
    key: Seq<char>,
    at: usize,
)
    requires
        names_in_range(mappings, names),
        at < mappings.len(),
    ensures
        table_of(mappings, put(names, key, at)) == put(
            table_of(mappings, names),
            key,
            mappings[at as int]@,
        ),
        names_in_range(mappings, put(names, key, at)),
{
    let table = table_of(mappings, names);
    lemma_key_index(names, key);
    match key_index(names, key) {
        Some(i) => {
            lemma_key_index_is(table, key, i);
        },
        None => {
            lemma_key_index_none(table, key);
        },
    }
}

proof fn lemma_table_grows(
    mappings: Seq<TableMapping>,
    names: Seq<(Seq<char>, usize)>,
    mapping: TableMapping,
)
    requires
        names_in_range(mappings, names),
    ensures
        table_of(mappings.push(mapping), names) == table_of(mappings, names),
        names_in_range(mappings.push(mapping), names),
{
}

impl MariaDbDatasource {
    #[verifier::type_invariant]
    spec fn names_point_at_mappings(&self) -> bool {
        names_in_range(self.mappings@, self.names@)
    }

    /// The mapping table: the keys under which mappings are registered, in the
    /// order of registration, each with its mapping.
    pub closed spec fn table(&self) -> Seq<(Seq<char>, TableMappingView)> {
        table_of(self.mappings@, self.names@)
    }

    /// The configuration that the datasource was made with.
    pub closed spec fn configuration(&self) -> DatabaseConfig {
        self.config
    }

    /// Creates a new MariaDbDatasource instance with the provided
    /// configuration. No entity is mapped yet.
    pub fn new(config: &DatabaseConfig) -> (r: Self)
        ensures
            r.configuration() == *config,
            r.table() == Seq::<(Seq<char>, TableMappingView)>::empty(),
    {
        let r = MariaDbDatasource {
            config: config.clone(),
            mappings: Vec::new(),
            names: StringMap::new(),
        };
        r
    }

    fn register(&mut self, entity: &Entity)
        ensures
            final(self).table() == register_mapping(old(self).table(), *entity),
            final(self).configuration() == old(self).configuration(),
    {
        proof {
            use_type_invariant(&*self);
        }
        let mut mappings: Vec<TableMapping> = Vec::new();
        let mut names: StringMap<usize> = StringMap::new();
        core::mem::swap(&mut self.names, &mut names);
        core::mem::swap(&mut self.mappings, &mut mappings);
        let ghost table = table_of(mappings@, names@);
        let ghost before = mappings@;
        let mapping = create_table_mapping(entity);
        let table_name = mapping.table_name.clone();
        let normalized = normalize_entity_name(entity.name.as_str());
        let at = mappings.len();
        mappings.push(mapping);
        proof {
            lemma_table_grows(before, names@, mapping);
            lemma_table_put(mappings@, names@, normalized@, at);
        }
        let differs = !same_text(entity.name.as_str(), normalized.as_str());
        let table_differs = !same_text(table_name.as_str(), normalized.as_str()) && !same_text(
            table_name.as_str(),
            entity.name.as_str(),
        );
        names.insert(normalized, at);
        if differs {
            proof {
                lemma_table_put(mappings@, names@, entity.name@, at);
            }
            names.insert(entity.name.clone(), at);
        }
        if table_differs {
            proof {
                lemma_table_put(mappings@, names@, table_name@, at);
            }
            names.insert(table_name, at);
        }
        core::mem::swap(&mut self.mappings, &mut mappings);
        core::mem::swap(&mut self.names, &mut names);
    }

    /// Configures the mappings between entities and database tables.
    ///
    /// `connection` is the outcome of the attempt to connect. An attempt is
    /// owed whenever no connection stands, also for an empty list of
    /// entities; where a connection stands already, the outcome is `Ok`.
    /// After a failed attempt nothing is registered and the connection error
    /// is returned. Else every entity is registered, in order, on top of what
    /// is registered already.
    pub fn configure_entity_mappings(
        &mut self,
        entities: &Vec<Entity>,
        connection: Result<(), String>,
    ) -> (r: Result<(), DataSourceError>)
        ensures
            final(self).configuration() == old(self).configuration(),
            match connection {
                Ok(()) => r is Ok && final(self).table() == register_mappings(
                    old(self).table(),
                    entities@,
                ),
                Err(reason) => final(self).table() == old(self).table() && (r matches Err(e)
                    && e@ == connection_failed(reason@)),
            },
    {
        match connection {
            Ok(()) => {},
            Err(reason) => {
                return Err(
                    DataSourceError::ConnectionError(
                        concat2("Error connecting to MariaDB: ", reason.as_str()),
                    ),
                );
            },
        }
        let mut i: usize = 0;
        while i < entities.len()
            invariant
                i <= entities.len(),
                self.table() == register_mappings(old(self).table(), entities@.take(i as int)),
                self.configuration() == old(self).configuration(),
            decreases entities.len() - i,
        {
            proof {
                let next = entities@.take(i + 1);
                assert(next.drop_last() =~= entities@.take(i as int));
            }
            self.register(&entities[i]);
            i = i + 1;
        }
        assert(entities@.take(entities.len() as int) =~= entities@);
        Ok(())
    }

    /// The keys under which mappings are registered.
    pub fn known_entities(&self) -> (r: Vec<String>)
        ensures
            r.deep_view() == keys_of(self.table()),
    {
        self.names.keys()
    }

    /// Finds an entity mapping using a flexible lookup strategy with multiple
    /// fallbacks: normalized name, name as given, and matching by table name.
    pub fn find_entity_mapping(&self, entity_name: &str) -> (r: Option<&TableMapping>)
        ensures
            match r {
                Some(mapping) => found_mapping(self.table(), entity_name@) == Some(mapping@),
                None => found_mapping(self.table(), entity_name@) is None,
            },
    {
        proof {
            use_type_invariant(self);
        }
        let ghost table = self.table();
        let normalized = normalize_entity_name(entity_name);
        proof {
            lemma_lookup_table(self.mappings@, self.names@, normalized@);
            lemma_lookup_table(self.mappings@, self.names@, entity_name@);
        }
        match self.names.get(normalized.as_str()) {
            Some(at) => {
                return Some(&self.mappings[*at]);
            },
            None => {},
        }
        match self.names.get(entity_name) {
            Some(at) => {
                return Some(&self.mappings[*at]);
            },
            None => {},
        }
        let ghost meets = |entry: (Seq<char>, TableMappingView)|
            normalized_name(entry.1.table_name) == normalized_name(entity_name@);
        let mut i: usize = 0;
        while i < self.names.len()
            invariant
                i <= self.names@.len(),
                table == self.table(),
                table.len() == self.names@.len(),
                names_in_range(self.mappings@, self.names@),
                normalized@ == normalized_name(entity_name@),
                lookup(table, normalized_name(entity_name@)) is None,
                lookup(table, entity_name@) is None,
                meets == |entry: (Seq<char>, TableMappingView)|
                    normalized_name(entry.1.table_name) == normalized_name(entity_name@),
                forall|j: int| 0 <= j < i ==> !meets(#[trigger] table[j]),
            decreases self.names@.len() - i,
        {
            let at = *self.names.value_at(i);
            let mapping = &self.mappings[at];
            let candidate = normalize_entity_name(mapping.table_name.as_str());
            if same_text(candidate.as_str(), normalized.as_str()) {
                proof {
                    lemma_first_index_is(table, meets, i as int);
                }
                return Some(mapping);
            }
            i = i + 1;
        }
        proof {
            lemma_first_index_none(table, meets);
        }
        None
    }

    /// The mapping that serves an entity name, or the error that says that
    /// there is none.
    pub fn require_mapping(&self, entity_name: &str) -> (r: Result<&TableMapping, DataSourceError>)
        ensures
            match r {
                Ok(mapping) => found_mapping(self.table(), entity_name@) == Some(mapping@),
                Err(error) => found_mapping(self.table(), entity_name@) is None && error@
                    == no_mapping(entity_name@, keys_of(self.table())),
            },
    {
        match self.find_entity_mapping(entity_name) {
            Some(mapping) => Ok(mapping),
            None => {
                let known = debug_list(&self.known_entities());
                let mut message = concat3(
                    "No mapping found for entity '",
                    entity_name,
                    "'. Known entities: ",
                );
                message.append(known.as_str());
                Err(DataSourceError::NotFound(message))
            },
        }
    }
}

impl Clone for MariaDbDatasource {
    /// A datasource with the same configuration and the same mappings.
    fn clone(&self) -> (r: Self)
        ensures
            r.configuration() == self.configuration(),
            r.table() == self.table(),
    {
        proof {
            use_type_invariant(self);
        }
        let mut mappings: Vec<TableMapping> = Vec::new();
        let mut i: usize = 0;
        while i < self.mappings.len()
            invariant
                i <= self.mappings.len(),
                mappings@.len() == i,
                forall|j: int| 0 <= j < i ==> mappings@[j]@ == self.mappings@[j]@,
            decreases self.mappings.len() - i,
        {
            mappings.push(self.mappings[i].clone());
            i = i + 1;
        }
        let names = self.names.duplicate();
        MariaDbDatasource { config: self.config.clone(), mappings, names }
    }
}

proof fn lemma_lookup_table(
    mappings: Seq<TableMapping>,
    names: Seq<(Seq<char>, usize)>,
    key: Seq<char>,
)
    requires
        names_in_range(mappings, names),
    ensures
        match lookup(names, key) {
            Some(at) => at < mappings.len() && lookup(table_of(mappings, names), key) == Some(
                mappings[at as int]@,
            ),
            None => lookup(table_of(mappings, names), key) is None,
        },
{
    let table = table_of(mappings, names);
    lemma_key_index(names, key);
    match key_index(names, key) {
        Some(i) => {
            lemma_key_index_is(table, key, i);
        },
        None => {
            lemma_key_index_none(table, key);
        },
    }
}

/// A registered entity is found under every form of its name. Right after an
/// entity was registered, a lookup by its name as configured gives its
/// mapping, and lookups by its normalized name and by its table name find a
/// mapping.
pub proof fn lemma_registered_entity_is_found(
    table: Seq<(Seq<char>, TableMappingView)>,
    entity: Entity,
)
    ensures
        found_mapping(register_mapping(table, entity), entity.name@) == Some(
            table_mapping_of(entity),
        ),
        found_mapping(register_mapping(table, entity), normalized_name(entity.name@)) is Some,
        found_mapping(register_mapping(table, entity), table_mapping_of(entity).table_name)
            is Some,
{
    let mapping = table_mapping_of(entity);
    let name = entity.name@;
    let normalized = normalized_name(name);
    let first = put(table, normalized, mapping);
    let second = if name != normalized {
        put(first, name, mapping)
    } else {
        first
    };
    lemma_put(table, normalized, mapping, name);
    lemma_put(first, name, mapping, normalized);
    lemma_put(second, mapping.table_name, mapping, normalized);
}

} // verus!
