//! The short form in which the configuration editor describes an entity.

use crate::config::specific::entity_config::{
    Authorization, DataType, EndpointConfig, Entity, Field,
};
use vstd::prelude::*;

verus! {

/// An entity described by its name, table and fields alone. Every endpoint is
/// generated for it.
#[derive(Debug)]
pub struct EntityBasic {
    pub name: String,
    pub table_name: Option<String>,
    pub fields: Vec<FieldBasic>,
    pub authentication: bool,
}

/// A field of a basic entity. Its column carries the field's name.
#[derive(Debug)]
pub struct FieldBasic {
    pub name: String,
    pub data_type: DataType,
    pub required: bool,
}

/// Whether `field` is the full form of the basic field `basic`: same name,
/// type and requiredness, the column named like the field, searchable, not
/// unique, without default or description.
pub open spec fn field_stands_for(field: Field, basic: FieldBasic) -> bool {
    &&& field.name@ == basic.name@
    &&& field.column_name matches Some(column) && column@ == basic.name@
    &&& field.data_type == basic.data_type
    &&& field.required == basic.required
    &&& !field.unique
    &&& field.searchable
    &&& field.default_value is None
    &&& field.description is None
}

/// Whether `entity` is the full form of the basic entity `basic`: same name,
/// table, fields and authentication; every CRUD endpoint generated; no custom
/// route, relationship, validation, pagination or authorization.
pub open spec fn stands_for(entity: Entity, basic: EntityBasic) -> bool {
    &&& entity.name@ == basic.name@
    &&& match (entity.table_name, basic.table_name) {
        (Some(a), Some(b)) => a@ == b@,
        (None, None) => true,
        _ => false,
    }
    &&& entity.fields@.len() == basic.fields@.len()
    &&& forall|i: int|
        0 <= i < basic.fields@.len() ==> field_stands_for(
            #[trigger] entity.fields@[i],
            basic.fields@[i],
        )
    &&& entity.relationships@.len() == 0
    &&& entity.endpoints.generate_create
    &&& entity.endpoints.generate_read
    &&& entity.endpoints.generate_update
    &&& entity.endpoints.generate_delete
    &&& entity.endpoints.generate_list
    &&& entity.endpoints.custom_routes@.len() == 0
    &&& entity.authentication == basic.authentication
    &&& !entity.authorization.active
    &&& entity.authorization.roles@.len() == 0
    &&& entity.authorization.permissions@.len() == 0
    &&& entity.validations@.len() == 0
    &&& entity.pagination is None
}

impl Clone for FieldBasic {
    fn clone(&self) -> (r: Self)
        ensures
            r == *self,
    {
        FieldBasic { name: self.name.clone(), data_type: self.data_type, required: self.required }
    }
}

/// Whether two entities in short form hold the same: every setting is equal,
/// and the fields are equal and in the same order.
pub open spec fn same_basic_entity(a: EntityBasic, b: EntityBasic) -> bool {
    &&& a.name == b.name
    &&& a.table_name == b.table_name
    &&& a.fields@ == b.fields@
    &&& a.authentication == b.authentication
}

/// Whether two lists of entities in short form hold the same entities in the
/// same order.
pub open spec fn same_basic_entities(a: Seq<EntityBasic>, b: Seq<EntityBasic>) -> bool {
    &&& a.len() == b.len()
    &&& forall|i: int| 0 <= i < a.len() ==> same_basic_entity(#[trigger] a[i], b[i])
}

impl Clone for EntityBasic {
    fn clone(&self) -> (r: Self)
        ensures
            same_basic_entity(*self, r),
    {
        EntityBasic {
            name: self.name.clone(),
            table_name: self.table_name.clone(),
            fields: self.fields.clone(),
            authentication: self.authentication,
        }
    }
}

impl EntityBasic {
    /// The entity in full form.
    pub fn to_entity(&self) -> (r: Entity)
        ensures
            stands_for(r, *self),
    {
        let mut fields: Vec<Field> = Vec::new();
        let mut i: usize = 0;
        while i < self.fields.len()
            invariant
                i <= self.fields.len(),
                fields@.len() == i,
                forall|j: int|
                    0 <= j < i ==> field_stands_for(#[trigger] fields@[j], self.fields@[j]),
            decreases self.fields.len() - i,
        {
            let basic = &self.fields[i];
            fields.push(
                Field {
                    name: basic.name.clone(),
                    column_name: Some(basic.name.clone()),
                    data_type: basic.data_type,
                    required: basic.required,
                    unique: false,
                    searchable: true,
                    default_value: None,
                    description: None,
                },
            );
            i = i + 1;
        }
        Entity {
            name: self.name.clone(),
            table_name: match &self.table_name {
                Some(table) => Some(table.clone()),
                None => None,
            },
            fields,
            relationships: Vec::new(),
            endpoints: EndpointConfig {
                generate_create: true,
                generate_read: true,
                generate_update: true,
                generate_delete: true,
                generate_list: true,
                custom_routes: Vec::new(),
            },
            authentication: self.authentication,
            authorization: Authorization {
                active: false,
                roles: Vec::new(),
                permissions: Vec::new(),
            },
            validations: Vec::new(),
            pagination: None,
        }
    }
}

} // verus!
