//! The schema of one exposed entity: fields, relationships, generated
//! endpoints, validation and access rules.

use vstd::prelude::*;

verus! {

/// Configuration for an API entity.
#[derive(Debug)]
pub struct Entity {
    /// Logical name, used in routing and as the default table name.
    pub name: String,
    /// Table name, where it differs from the entity name.
    pub table_name: Option<String>,
    /// The fields, in declaration order.
    pub fields: Vec<Field>,
    /// Relationships with other entities.
    pub relationships: Vec<Relationship>,
    /// Which endpoints are generated.
    pub endpoints: EndpointConfig,
    /// Whether authentication is required for this entity.
    pub authentication: bool,
    /// Roles and permissions.
    pub authorization: Authorization,
    /// Validation rules.
    pub validations: Vec<Validation>,
    /// Pagination settings.
    pub pagination: Option<PaginationConfig>,
}

/// Configuration for a field in an entity.
#[derive(Debug)]
pub struct Field {
    /// Name of the field.
    pub name: String,
    /// Column name, where it differs from the field name.
    pub column_name: Option<String>,
    /// Data type of the field.
    pub data_type: DataType,
    /// Whether the field is required.
    pub required: bool,
    /// Whether the field must be unique.
    pub unique: bool,
    /// Whether the field is searchable.
    pub searchable: bool,
    /// Default value for the field.
    pub default_value: Option<String>,
    /// Description of the field.
    pub description: Option<String>,
}

/// Supported data types for fields.
#[derive(Clone, Copy, Debug, PartialEq, Eq, Structural)]
pub enum DataType {
    String,
    Integer,
    Float,
    Boolean,
    Date,
    DateTime,
    Binary,
    JSON,
}

/// Configuration for a relationship between entities.
#[derive(Debug)]
pub struct Relationship {
    /// Name of the relationship.
    pub name: String,
    /// Name of the related entity.
    pub related_entity: String,
    /// Cardinality of the relationship.
    pub type_: RelationshipType,
    /// Foreign key for the relationship.
    pub foreign_key: String,
    /// Whether to include the relationship in responses.
    pub include_in_responses: bool,
}

/// Supported types of relationships.
#[derive(Clone, Copy, Debug, PartialEq, Eq, Structural)]
pub enum RelationshipType {
    OneToOne,
    OneToMany,
    ManyToOne,
    ManyToMany,
}

/// Which endpoints are generated for an entity.
#[derive(Debug)]
pub struct EndpointConfig {
    pub generate_create: bool,
    pub generate_read: bool,
    pub generate_update: bool,
    pub generate_delete: bool,
    pub generate_list: bool,
    /// Custom routes, in declaration order.
    pub custom_routes: Vec<CustomRoute>,
}

/// Configuration for a custom route.
#[derive(Debug)]
pub struct CustomRoute {
    /// Path of the route, appended to the entity name.
    pub path: String,
    /// HTTP method of the route.
    pub method: HttpMethod,
    /// Name of the handler hook.
    pub handler: String,
}

/// Supported HTTP methods.
#[derive(Clone, Copy, Debug, PartialEq, Eq, Structural)]
pub enum HttpMethod {
    GET,
    POST,
    PUT,
    PATCH,
    DELETE,
}

/// The upper-case tag of a method, as it stands in endpoint keys.
pub open spec fn method_tag(method: HttpMethod) -> Seq<char> {
    match method {
        HttpMethod::GET => "GET"@,
        HttpMethod::POST => "POST"@,
        HttpMethod::PUT => "PUT"@,
        HttpMethod::PATCH => "PATCH"@,
        HttpMethod::DELETE => "DELETE"@,
    }
}

impl HttpMethod {
    /// The upper-case tag of the method.
    pub fn tag(&self) -> (r: &'static str)
        ensures
            r@ == method_tag(*self),
    {
        match self {
            HttpMethod::GET => "GET",
            HttpMethod::POST => "POST",
            HttpMethod::PUT => "PUT",
            HttpMethod::PATCH => "PATCH",
            HttpMethod::DELETE => "DELETE",
        }
    }
}

/// Authorization settings of an entity.
#[derive(Debug)]
pub struct Authorization {
    /// Whether authorization is active.
    pub active: bool,
    pub roles: Vec<Role>,
    pub permissions: Vec<Permission>,
}

/// A role.
#[derive(Debug)]
pub struct Role {
    pub name: String,
    pub description: Option<String>,
}

/// A permission.
#[derive(Debug)]
pub struct Permission {
    pub action: String,
    pub subject: String,
}

/// A validation rule of an entity.
#[derive(Debug)]
pub struct Validation {
    /// Field to validate.
    pub field: String,
    /// Kind of validation.
    pub validation_type: ValidationType,
    /// Message reported when the rule fails.
    pub error_message: Option<String>,
}

/// Supported kinds of validation.
#[derive(Debug)]
pub enum ValidationType {
    /// Length between a minimum and an optional maximum.
    Length(u32, Option<u32>),
    /// Match against a regular expression.
    Regex(String),
    /// A well-formed e-mail address.
    Email,
    /// A numeric value.
    Numeric,
    /// A value between two bounds, each held in its decimal notation.
    Range(String, String),
}

/// Pagination settings of an entity.
#[derive(Debug)]
pub struct PaginationConfig {
    pub default_page_size: u32,
    pub max_page_size: u32,
    pub page_param_name: String,
    pub size_param_name: String,
}

impl Clone for Field {
    fn clone(&self) -> (r: Self)
        ensures
            r == *self,
    {
        Field {
            name: self.name.clone(),
            column_name: self.column_name.clone(),
            data_type: self.data_type,
            required: self.required,
            unique: self.unique,
            searchable: self.searchable,
            default_value: self.default_value.clone(),
            description: self.description.clone(),
        }
    }
}

impl Clone for Relationship {
    fn clone(&self) -> (r: Self)
        ensures
            r == *self,
    {
        Relationship {
            name: self.name.clone(),
            related_entity: self.related_entity.clone(),
            type_: self.type_,
            foreign_key: self.foreign_key.clone(),
            include_in_responses: self.include_in_responses,
        }
    }
}

impl Clone for CustomRoute {
    fn clone(&self) -> (r: Self)
        ensures
            r == *self,
    {
        CustomRoute {
            path: self.path.clone(),
            method: self.method,
            handler: self.handler.clone(),
        }
    }
}

impl Clone for Role {
    fn clone(&self) -> (r: Self)
        ensures
            r == *self,
    {
        Role {
            name: self.name.clone(),
            description: self.description.clone(),
        }
    }
}

impl Clone for Permission {
    fn clone(&self) -> (r: Self)
        ensures
            r == *self,
    {
        Permission {
            action: self.action.clone(),
            subject: self.subject.clone(),
        }
    }
}

impl Clone for Validation {
    fn clone(&self) -> (r: Self)
        ensures
            r == *self,
    {
        Validation {
            field: self.field.clone(),
            validation_type: self.validation_type.clone(),
            error_message: self.error_message.clone(),
        }
    }
}

impl Clone for PaginationConfig {
    fn clone(&self) -> (r: Self)
        ensures
            r == *self,
    {
        PaginationConfig {
            default_page_size: self.default_page_size,
            max_page_size: self.max_page_size,
            page_param_name: self.page_param_name.clone(),
            size_param_name: self.size_param_name.clone(),
        }
    }
}

impl Clone for ValidationType {
    fn clone(&self) -> (r: Self)
        ensures
            r == *self,
    {
        match self {
            ValidationType::Length(least, most) => ValidationType::Length(*least, *most),
            ValidationType::Regex(pattern) => ValidationType::Regex(pattern.clone()),
            ValidationType::Email => ValidationType::Email,
            ValidationType::Numeric => ValidationType::Numeric,
            ValidationType::Range(least, most) => ValidationType::Range(
                least.clone(),
                most.clone(),
            ),
        }
    }
}

/// Whether two endpoint configurations hold the same: the same switches and
/// the same custom routes in the same order.
pub open spec fn same_endpoints(a: EndpointConfig, b: EndpointConfig) -> bool {
    &&& a.generate_create == b.generate_create
    &&& a.generate_read == b.generate_read
    &&& a.generate_update == b.generate_update
    &&& a.generate_delete == b.generate_delete
    &&& a.generate_list == b.generate_list
    &&& a.custom_routes@ == b.custom_routes@
}

/// Whether two authorization settings hold the same.
pub open spec fn same_authorization(a: Authorization, b: Authorization) -> bool {
    &&& a.active == b.active
    &&& a.roles@ == b.roles@
    &&& a.permissions@ == b.permissions@
}

/// Whether two entities hold the same: every setting is equal, and every list
/// holds equal items in the same order.
pub open spec fn same_entity(a: Entity, b: Entity) -> bool {
    &&& a.name == b.name
    &&& a.table_name == b.table_name
    &&& a.fields@ == b.fields@
    &&& a.relationships@ == b.relationships@
    &&& same_endpoints(a.endpoints, b.endpoints)
    &&& a.authentication == b.authentication
    &&& same_authorization(a.authorization, b.authorization)
    &&& a.validations@ == b.validations@
    &&& a.pagination == b.pagination
}

/// Whether two lists of entities hold the same entities in the same order.
pub open spec fn same_entities(a: Seq<Entity>, b: Seq<Entity>) -> bool {
    &&& a.len() == b.len()
    &&& forall|i: int| 0 <= i < a.len() ==> same_entity(#[trigger] a[i], b[i])
}

impl Clone for EndpointConfig {
    fn clone(&self) -> (r: Self)
        ensures
            same_endpoints(*self, r),
    {
        EndpointConfig {
            generate_create: self.generate_create,
            generate_read: self.generate_read,
            generate_update: self.generate_update,
            generate_delete: self.generate_delete,
            generate_list: self.generate_list,
            custom_routes: self.custom_routes.clone(),
        }
    }
}

impl Clone for Authorization {
    fn clone(&self) -> (r: Self)
        ensures
            same_authorization(*self, r),
    {
        Authorization {
            active: self.active,
            roles: self.roles.clone(),
            permissions: self.permissions.clone(),
        }
    }
}

impl Clone for Entity {
    fn clone(&self) -> (r: Self)
        ensures
            same_entity(*self, r),
    {
        Entity {
            name: self.name.clone(),
            table_name: self.table_name.clone(),
            fields: self.fields.clone(),
            relationships: self.relationships.clone(),
            endpoints: self.endpoints.clone(),
            authentication: self.authentication,
            authorization: self.authorization.clone(),
            validations: self.validations.clone(),
            pagination: self.pagination.clone(),
        }
    }
}

} // verus!
