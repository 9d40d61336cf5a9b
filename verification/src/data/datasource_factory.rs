//! Builds the datasources of the configured entities.

use crate::config::configuration::Config;
use crate::config::shared::{stands_for, EntityBasic};
use crate::config::specific::database_config::DatabaseType;
use crate::config::specific::entity_config::Entity;
use crate::data::datasource::base::{DataSource, DataSourceError};
use crate::data::datasource::relational::base::{
    data_type_text, lemma_primary_key_without_unique, table_mapping_of, FieldMappingView,
    TableMappingView,
};
use crate::data::datasource::relational::mariadb::{
    connection_failed, register_mappings, register_under, MariaDbDatasource,
};
use crate::string_map::{key_index, keys_of, lemma_key_index, put, StringMap};
use vstd::prelude::*;

verus! {

/// Factory responsible for creating and managing datasources for entities.
pub struct DataSourceFactory;

/// The names after one more was noted, unless it was noted already.
pub open spec fn with_name(names: Seq<Seq<char>>, name: Seq<char>) -> Seq<Seq<char>> {
    if names.contains(name) {
        names
    } else {
        names.push(name)
    }
}

/// The names after the names of the entities in full form were noted, in
/// order.
pub open spec fn with_advanced_names(names: Seq<Seq<char>>, entities: Seq<Entity>) -> Seq<Seq<char>>
    decreases entities.len(),
{
    if entities.len() == 0 {
        names
    } else {
        with_name(with_advanced_names(names, entities.drop_last()), entities.last().name@)
    }
}

/// The names after the names of the entities in short form were noted, in
/// order.
pub open spec fn with_basic_names(names: Seq<Seq<char>>, entities: Seq<EntityBasic>) -> Seq<
    Seq<char>,
>
    decreases entities.len(),
{
    if entities.len() == 0 {
        names
    } else {
        with_name(with_basic_names(names, entities.drop_last()), entities.last().name@)
    }
}

/// The entities that get a datasource: every configured name once, those of
/// the entities in full form first.
pub open spec fn datasource_names(config: Config) -> Seq<Seq<char>> {
    with_basic_names(
        with_advanced_names(Seq::empty(), config.entities_advanced@),
        config.entities_basic@,
    )
}

/// The table mapping of an entity in short form: its table (the entity name
/// where none is configured), the primary key `id`, and every field under a
/// column of its own name.
pub open spec fn basic_mapping(entity: EntityBasic) -> TableMappingView {
    TableMappingView {
        table_name: match entity.table_name {
            Some(table) => table@,
            None => entity.name@,
        },
        primary_key: "id"@,
        fields: Seq::new(
            entity.fields@.len(),
            |i: int|
                FieldMappingView {
                    field_name: entity.fields@[i].name@,
                    column_name: entity.fields@[i].name@,
                    field_type: data_type_text(entity.fields@[i].data_type),
                },
        ),
    }
}

/// The mapping table after the entities in short form were registered, in
/// order.
pub open spec fn register_basic(
    table: Seq<(Seq<char>, TableMappingView)>,
    entities: Seq<EntityBasic>,
) -> Seq<(Seq<char>, TableMappingView)>
    decreases entities.len(),
{
    if entities.len() == 0 {
        table
    } else {
        register_under(
            register_basic(table, entities.drop_last()),
            entities.last().name@,
            basic_mapping(entities.last()),
        )
    }
}

/// The full form of an entity in short form is mapped as the short form says.
pub proof fn lemma_basic_mapping(entity: Entity, basic: EntityBasic)
    requires
        stands_for(entity, basic),
    ensures
        table_mapping_of(entity) == basic_mapping(basic),
{
    lemma_primary_key_without_unique(entity.fields@);
    assert(table_mapping_of(entity).fields =~= basic_mapping(basic).fields);
}

proof fn lemma_register_basic(
    table: Seq<(Seq<char>, TableMappingView)>,
    entities: Seq<Entity>,
    basics: Seq<EntityBasic>,
)
    requires
        entities.len() == basics.len(),
        forall|i: int| 0 <= i < basics.len() ==> stands_for(#[trigger] entities[i], basics[i]),
    ensures
        register_mappings(table, entities) == register_basic(table, basics),
    decreases entities.len(),
{
    if entities.len() > 0 {
        lemma_register_basic(table, entities.drop_last(), basics.drop_last());
        lemma_basic_mapping(entities.last(), basics.last());
    }
}

proof fn lemma_keys_after_put<V>(entries: Seq<(Seq<char>, V)>, key: Seq<char>, value: V)
    ensures
        keys_of(put(entries, key, value)) == with_name(keys_of(entries), key),
{
    lemma_key_index(entries, key);
    let keys = keys_of(entries);
    match key_index(entries, key) {
        Some(i) => {
            assert(keys[i] == key);
        },
        None => {},
    }
}

impl DataSourceFactory {
    /// Whether a database type has a backend: only MySQL, which serves
    /// MariaDB too, has one.
    pub fn supports(db_type: DatabaseType) -> (r: bool)
        ensures
            r == (db_type == DatabaseType::MySQL),
    {
        match db_type {
            DatabaseType::MySQL => true,
            _ => false,
        }
    }

    /// Creates datasources for all entities defined in the configuration:
    /// each configured entity gets a handle of its own on the one connection,
    /// under its name. Without a connection no entity gets a datasource.
    pub fn create_datasources<T, D: DataSource<T>>(config: &Config, connection: Option<&D>) -> (r:
        StringMap<D>)
        ensures
            keys_of(r@) == match connection {
                Some(_) => datasource_names(*config),
                None => Seq::<Seq<char>>::empty(),
            },
            connection matches Some(db) ==> forall|i: int|
                0 <= i < r@.len() ==> DataSource::<T>::may_copy(db, (#[trigger] r@[i]).1),
    {
        let mut datasources: StringMap<D> = StringMap::new();
        let db = match connection {
            Some(db) => db,
            None => {
                return datasources;
            },
        };
        let advanced = &config.entities_advanced;
        let mut i: usize = 0;
        while i < advanced.len()
            invariant
                i <= advanced.len(),
                advanced@ == config.entities_advanced@,
                keys_of(datasources@) == with_advanced_names(
                    Seq::empty(),
                    advanced@.take(i as int),
                ),
                forall|j: int|
                    0 <= j < datasources@.len() ==> DataSource::<T>::may_copy(
                        db,
                        (#[trigger] datasources@[j]).1,
                    ),
            decreases advanced.len() - i,
        {
            proof {
                let next = advanced@.take(i + 1);
                assert(next.drop_last() =~= advanced@.take(i as int));
            }
            let ghost before = datasources@;
            let handle = db.box_clone();
            proof {
                lemma_keys_after_put(before, advanced@[i as int].name@, handle);
                lemma_key_index(before, advanced@[i as int].name@);
            }
            datasources.insert(advanced[i].name.clone(), handle);
            i = i + 1;
        }
        assert(advanced@.take(advanced.len() as int) =~= advanced@);
        let ghost middle = with_advanced_names(Seq::empty(), config.entities_advanced@);
        let basic = &config.entities_basic;
        let mut k: usize = 0;
        while k < basic.len()
            invariant
                k <= basic.len(),
                basic@ == config.entities_basic@,
                keys_of(datasources@) == with_basic_names(middle, basic@.take(k as int)),
                forall|j: int|
                    0 <= j < datasources@.len() ==> DataSource::<T>::may_copy(
                        db,
                        (#[trigger] datasources@[j]).1,
                    ),
            decreases basic.len() - k,
        {
            proof {
                let next = basic@.take(k + 1);
                assert(next.drop_last() =~= basic@.take(k as int));
            }
            let ghost before = datasources@;
            let handle = db.box_clone();
            proof {
                lemma_keys_after_put(before, basic@[k as int].name@, handle);
                lemma_key_index(before, basic@[k as int].name@);
            }
            datasources.insert(basic[k].name.clone(), handle);
            k = k + 1;
        }
        assert(basic@.take(basic.len() as int) =~= basic@);
        datasources
    }

    /// Creates a MariaDB datasource with entity mappings configured: the
    /// entities in full form first, then those in short form.
    ///
    /// `connection` is the outcome of the attempt to connect to the
    /// configured database. After a failed attempt no datasource is made and
    /// the connection error is returned.
    pub fn create_mariadb_datasource(config: &Config, connection: Result<(), String>) -> (r: Result<
        MariaDbDatasource,
        DataSourceError,
    >)
        ensures
            match connection {
                Ok(()) => r matches Ok(db) && db.configuration() == config.database && db.table()
                    == register_basic(
                    register_mappings(Seq::empty(), config.entities_advanced@),
                    config.entities_basic@,
                ),
                Err(reason) => r matches Err(e) && e@ == connection_failed(reason@),
            },
    {
        let mut db = MariaDbDatasource::new(&config.database);
        match db.configure_entity_mappings(&config.entities_advanced, connection) {
            Ok(()) => {},
            Err(error) => {
                return Err(error);
            },
        }
        let mut converted: Vec<Entity> = Vec::new();
        let mut i: usize = 0;
        while i < config.entities_basic.len()
            invariant
                i <= config.entities_basic.len(),
                converted@.len() == i,
                forall|j: int|
                    0 <= j < i ==> stands_for(#[trigger] converted@[j], config.entities_basic@[j]),
            decreases config.entities_basic.len() - i,
        {
            converted.push(config.entities_basic[i].to_entity());
            i = i + 1;
        }
        proof {
            lemma_register_basic(db.table(), converted@, config.entities_basic@);
        }
        match db.configure_entity_mappings(&converted, Ok(())) {
            Ok(()) => Ok(db),
            Err(error) => Err(error),
        }
    }
}

} // verus!
