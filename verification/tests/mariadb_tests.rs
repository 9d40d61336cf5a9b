use rawst::api::common::api_entity::ApiEntity;
use rawst::config::configuration::Config;
use rawst::config::shared::{EntityBasic, FieldBasic};
use rawst::config::specific::database_config::{DatabaseConfig, DatabaseType};
use rawst::config::specific::entity_config::{
    Authorization, DataType, EndpointConfig, Entity, Field,
};
use rawst::data::data_error::DataError;
use rawst::data::datasource::base::{DataSource, DataSourceError};
use rawst::data::datasource::file::base::FileFormat;
use rawst::data::datasource::file::csv::CsvDatasource;
use rawst::data::datasource::relational::base::{
    create_table_mapping, data_type_to_string, detect_primary_key, FieldMapping, TableMapping,
};
use rawst::data::datasource::relational::mariadb::{normalize_entity_name, MariaDbDatasource};
use rawst::data::datasource::relational::queries::{
    delete_query, insert_query, primary_key_column, select_by_id_query, select_query, update_query,
};
use rawst::data::datasource::relational::rows::{
    column_kind, row_to_document, try_get, ColumnKind, SqlRow, SqlValue,
};
use rawst::data::datasource::relational::statements::{
    check_execution, connection_failure, no_connection, query_failure, query_timeout, removed,
    resolve_entity_name, rows_removed, written, Execution, PreparedStatement,
    DEFAULT_QUERY_TIMEOUT_SECONDS,
};
use rawst::data::datasource::relational::values::{
    bind_value, bind_values, document_id, document_to_update_values, document_to_values,
    signed_decimal, validate_document,
};
use rawst::data::datasource::relationaldb_ds::{DatabaseSource, RelationalDatabase};
use rawst::data::datasource_factory::DataSourceFactory;
use rawst::json::{JsonNumber, JsonValue};

fn text(s: &str) -> JsonValue {
    JsonValue::Text(s.to_string())
}

fn number(i: i64) -> JsonValue {
    JsonValue::Number(JsonNumber::Int(i))
}

fn decimal_number(s: &str) -> JsonValue {
    JsonValue::Number(JsonNumber::Real(s.to_string()))
}

fn object(members: Vec<(&str, JsonValue)>) -> JsonValue {
    JsonValue::Object(
        members
            .into_iter()
            .map(|(k, v)| (k.to_string(), v))
            .collect(),
    )
}

/// Creates a test database configuration for MariaDB
fn create_test_config() -> DatabaseConfig {
    DatabaseConfig {
        db_type: DatabaseType::MySQL,
        host: "localhost".to_string(),
        port: Some(3306),
        username: "test_user".to_string(),
        password: "test_password".to_string(),
        database_name: "test_db".to_string(),
        max_connections: Some(5),
        timeout_seconds: Some(30),
        ssl_enabled: false,
        connection_string: String::new(),
    }
}

fn test_field(
    name: &str,
    column: &str,
    data_type: DataType,
    required: bool,
    unique: bool,
) -> Field {
    Field {
        name: name.to_string(),
        column_name: Some(column.to_string()),
        data_type,
        required,
        unique,
        searchable: true,
        default_value: None,
        description: None,
    }
}

/// Creates test entity configurations
fn create_test_entities() -> Vec<Entity> {
    vec![Entity {
        name: "users".to_string(),
        table_name: Some("user_table".to_string()),
        fields: vec![
            test_field("id", "user_id", DataType::String, true, true),
            test_field("name", "user_name", DataType::String, true, false),
            test_field("age", "user_age", DataType::Integer, false, false),
            test_field("active", "is_active", DataType::Boolean, true, false),
        ],
        relationships: vec![],
        endpoints: EndpointConfig {
            generate_create: true,
            generate_read: true,
            generate_update: true,
            generate_delete: true,
            generate_list: true,
            custom_routes: vec![],
        },
        authentication: false,
        authorization: Authorization {
            active: false,
            roles: vec![],
            permissions: vec![],
        },
        validations: vec![],
        pagination: None,
    }]
}

fn create_custom_test_user(id: &str, name: &str, age: i64, active: bool) -> JsonValue {
    object(vec![
        ("id", text(id)),
        ("name", text(name)),
        ("age", number(age)),
        ("active", JsonValue::Bool(active)),
    ])
}

fn configured() -> MariaDbDatasource {
    let mut datasource = MariaDbDatasource::new(&create_test_config());
    datasource
        .configure_entity_mappings(&create_test_entities(), Ok(()))
        .unwrap();
    datasource
}

fn users_mapping() -> TableMapping {
    create_table_mapping(&create_test_entities()[0])
}

fn row(cells: Vec<(&str, SqlValue)>) -> SqlRow {
    SqlRow {
        cells: cells.into_iter().map(|(c, v)| (c.to_string(), v)).collect(),
    }
}

fn not_found(name: &str, known: &str) -> DataSourceError {
    DataSourceError::NotFound(format!(
        "No mapping found for entity '{}'. Known entities: {}",
        name, known
    ))
}

#[test]
fn test_new_mariadb_datasource() {
    let config = create_test_config();

    let datasource = MariaDbDatasource::new(&config);

    assert_eq!(datasource.config.host, "localhost");
    assert_eq!(datasource.config.port, Some(3306));
    assert_eq!(datasource.config.database_name, "test_db");
    assert_eq!(datasource.config.username, "test_user");
    assert_eq!(datasource.config.password, "test_password");
}

#[test]
fn test_config_with_different_values() {
    let mut config = create_test_config();
    config.host = "testdb.example.com".to_string();
    config.port = Some(3307);
    config.max_connections = Some(10);

    let datasource = MariaDbDatasource::new(&config);

    assert_eq!(datasource.config.host, "testdb.example.com");
    assert_eq!(datasource.config.port, Some(3307));
    assert_eq!(datasource.config.max_connections, Some(10));
}

#[test]
fn test_new_with_empty_string_config_values() {
    let config = DatabaseConfig {
        db_type: DatabaseType::MySQL,
        host: "".to_string(),
        port: None,
        username: "".to_string(),
        password: "".to_string(),
        database_name: "".to_string(),
        max_connections: None,
        timeout_seconds: None,
        ssl_enabled: false,
        connection_string: String::new(),
    };

    let datasource = MariaDbDatasource::new(&config);

    assert_eq!(datasource.config.host, "");
    assert_eq!(datasource.config.port, None);
    assert_eq!(datasource.config.username, "");
    assert_eq!(datasource.config.password, "");
    assert_eq!(datasource.config.database_name, "");
}

struct TestUser {
    id: String,
    name: String,
    age: i64,
    active: bool,
}

impl ApiEntity for TestUser {
    fn entity_name() -> String {
        "users".to_string()
    }

    fn from_document(document: JsonValue) -> Result<Self, String> {
        let id = match document.get("id") {
            Some(JsonValue::Text(id)) => id.clone(),
            _ => return Err("missing field `id`".to_string()),
        };
        let name = match document.get("name") {
            Some(JsonValue::Text(name)) => name.clone(),
            _ => return Err("missing field `name`".to_string()),
        };
        let age = match document.get("age") {
            Some(JsonValue::Number(JsonNumber::Int(age))) => *age,
            _ => return Err("missing field `age`".to_string()),
        };
        let active = match document.get("active") {
            Some(JsonValue::Bool(active)) => *active,
            _ => return Err("missing field `active`".to_string()),
        };
        Ok(TestUser {
            id,
            name,
            age,
            active,
        })
    }
}

#[test]
fn test_partial_user_deserialization_fails() {
    let json_data = object(vec![
        ("id", text("partial_fail")),
        ("name", text("Partial User Fail")),
    ]);

    let result = TestUser::from_document(json_data);
    assert!(
        result.is_err(),
        "Deserialization should fail for missing required fields."
    );

    let datasource = configured();
    let partial = row(vec![
        ("user_id", SqlValue::Text("partial_fail".into())),
        ("user_name", SqlValue::Text("Partial User Fail".into())),
    ]);
    match datasource.map_row_to_entity::<TestUser>(&partial, "users") {
        Err(DataSourceError::MappingError(message)) => assert_eq!(
            message,
            "Error deserializing entity 'users': missing field `age`. Fields available: id, name"
        ),
        _ => panic!("a row without the required columns should not map to a user"),
    }
}

#[test]
fn a_full_row_maps_to_the_payload_type() {
    let datasource = configured();
    let full = row(vec![
        ("user_id", SqlValue::Text("u1".into())),
        ("user_name", SqlValue::Text("Ann".into())),
        ("user_age", SqlValue::Integer(33)),
        ("is_active", SqlValue::Boolean(true)),
    ]);
    let user = datasource
        .map_row_to_entity::<TestUser>(&full, "users")
        .ok()
        .unwrap();
    assert_eq!(user.id, "u1");
    assert_eq!(user.name, "Ann");
    assert_eq!(user.age, 33);
    assert!(user.active);
    let document = datasource
        .map_row_to_entity::<JsonValue>(&full, "USERS ")
        .unwrap();
    assert_eq!(document, create_custom_test_user("u1", "Ann", 33, true));
    assert_eq!(
        datasource
            .map_row_to_entity::<JsonValue>(&full, "orders")
            .unwrap_err(),
        not_found("orders", "[\"users\", \"user_table\"]")
    );
}

#[test]
fn table_mapping_of_the_test_entity() {
    let mapping = users_mapping();
    assert_eq!(mapping.table_name, "user_table");
    assert_eq!(mapping.primary_key, "id");
    let fields: Vec<(&str, &str, &str)> = mapping
        .fields
        .iter()
        .map(|f| {
            (
                f.field_name.as_str(),
                f.column_name.as_str(),
                f.field_type.as_str(),
            )
        })
        .collect();
    assert_eq!(
        fields,
        vec![
            ("id", "user_id", "string"),
            ("name", "user_name", "string"),
            ("age", "user_age", "integer"),
            ("active", "is_active", "boolean"),
        ]
    );
    let copy = mapping.clone();
    assert_eq!(copy.table_name, mapping.table_name);
    assert_eq!(copy.fields.len(), 4);
}

#[test]
fn primary_key_inference() {
    let mut users = create_test_entities().remove(0);
    assert_eq!(detect_primary_key(&users), "id");
    users.fields[0].name = "uuid".to_string();
    assert_eq!(detect_primary_key(&users), "uuid");
    users.fields[0].unique = false;
    assert_eq!(detect_primary_key(&users), "id");
    users.fields[2].unique = true;
    assert_eq!(detect_primary_key(&users), "id");
    users.fields[3].unique = true;
    assert_eq!(detect_primary_key(&users), "active");
    users.fields[3].name = "id".to_string();
    users.fields[1].unique = true;
    assert_eq!(detect_primary_key(&users), "id");
    users.fields.clear();
    assert_eq!(detect_primary_key(&users), "id");
    users.table_name = None;
    assert_eq!(create_table_mapping(&users).table_name, "users");
}

#[test]
fn data_type_tags() {
    assert_eq!(data_type_to_string(&DataType::String), "string");
    assert_eq!(data_type_to_string(&DataType::Integer), "integer");
    assert_eq!(data_type_to_string(&DataType::Float), "float");
    assert_eq!(data_type_to_string(&DataType::Boolean), "boolean");
    assert_eq!(data_type_to_string(&DataType::Date), "date");
    assert_eq!(data_type_to_string(&DataType::DateTime), "datetime");
    assert_eq!(data_type_to_string(&DataType::Binary), "binary");
    assert_eq!(data_type_to_string(&DataType::JSON), "json");
}

#[test]
fn generated_statements() {
    let mapping = users_mapping();
    assert_eq!(
        select_query(&mapping),
        "SELECT `user_id`, `user_name`, `user_age`, `is_active` FROM `user_table`"
    );
    assert_eq!(
        select_by_id_query(&mapping),
        "SELECT `user_id`, `user_name`, `user_age`, `is_active` FROM `user_table` WHERE `user_id` = ?"
    );
    assert_eq!(
        insert_query(&mapping),
        "INSERT INTO `user_table` (`user_id`, `user_name`, `user_age`, `is_active`) VALUES (?, ?, ?, ?)"
    );
    assert_eq!(
        update_query(&mapping),
        "UPDATE `user_table` SET `user_name` = ?, `user_age` = ?, `is_active` = ? WHERE `user_id` = ?"
    );
    assert_eq!(
        delete_query(&mapping),
        "DELETE FROM `user_table` WHERE `user_id` = ?"
    );
    let empty = TableMapping {
        table_name: "t".into(),
        primary_key: "id".into(),
        fields: vec![],
    };
    assert_eq!(select_query(&empty), "SELECT  FROM `t`");
    assert_eq!(insert_query(&empty), "INSERT INTO `t` () VALUES ()");
    assert_eq!(update_query(&empty), "UPDATE `t` SET  WHERE `id` = ?");
    let one = TableMapping {
        table_name: "t".into(),
        primary_key: "id".into(),
        fields: vec![FieldMapping {
            field_name: "id".into(),
            column_name: "id".into(),
            field_type: "string".into(),
        }],
    };
    assert_eq!(insert_query(&one), "INSERT INTO `t` (`id`) VALUES (?)");
    assert_eq!(update_query(&one), "UPDATE `t` SET  WHERE `id` = ?");
}

#[test]
fn the_condition_names_the_column_of_the_key() {
    let mapping = users_mapping();
    assert_eq!(mapping.primary_key, "id");
    assert_eq!(primary_key_column(&mapping), "user_id");
    let keyless = TableMapping {
        table_name: "t".into(),
        primary_key: "id".into(),
        fields: vec![FieldMapping {
            field_name: "name".into(),
            column_name: "n".into(),
            field_type: "string".into(),
        }],
    };
    assert_eq!(primary_key_column(&keyless), "id");
    assert_eq!(delete_query(&keyless), "DELETE FROM `t` WHERE `id` = ?");
    let twice = TableMapping {
        table_name: "t".into(),
        primary_key: "code".into(),
        fields: vec![
            FieldMapping {
                field_name: "name".into(),
                column_name: "n".into(),
                field_type: "string".into(),
            },
            FieldMapping {
                field_name: "code".into(),
                column_name: "c1".into(),
                field_type: "string".into(),
            },
            FieldMapping {
                field_name: "code".into(),
                column_name: "c2".into(),
                field_type: "string".into(),
            },
        ],
    };
    assert_eq!(primary_key_column(&twice), "c1");
    assert_eq!(
        select_by_id_query(&twice),
        "SELECT `n`, `c1`, `c2` FROM `t` WHERE `c1` = ?"
    );
    assert_eq!(
        update_query(&twice),
        "UPDATE `t` SET `n` = ? WHERE `c1` = ?"
    );
}

#[test]
fn statements_by_entity_name() {
    let datasource = configured();
    for name in ["users", "Users", "  USERS  ", "user_table", "User_Table"] {
        assert_eq!(
            datasource.generate_delete_query(name).unwrap(),
            "DELETE FROM `user_table` WHERE `user_id` = ?",
            "{}",
            name
        );
    }
    assert_eq!(
        datasource.generate_select_query("users").unwrap(),
        select_query(&users_mapping())
    );
    assert_eq!(
        datasource.generate_select_by_id_query("users").unwrap(),
        select_by_id_query(&users_mapping())
    );
    assert_eq!(
        datasource.generate_insert_query("users").unwrap(),
        insert_query(&users_mapping())
    );
    assert_eq!(
        datasource.generate_update_query("users").unwrap(),
        update_query(&users_mapping())
    );
    let unknown = not_found("orders", "[\"users\", \"user_table\"]");
    assert_eq!(
        datasource.generate_select_query("orders").unwrap_err(),
        unknown
    );
    assert_eq!(
        datasource
            .generate_select_by_id_query("orders")
            .unwrap_err(),
        unknown
    );
    assert_eq!(
        datasource.generate_insert_query("orders").unwrap_err(),
        unknown
    );
    assert_eq!(
        datasource.generate_update_query("orders").unwrap_err(),
        unknown
    );
    assert_eq!(
        datasource.generate_delete_query("orders").unwrap_err(),
        unknown
    );
    assert_eq!(
        MariaDbDatasource::new(&create_test_config())
            .generate_select_query("users")
            .unwrap_err(),
        not_found("users", "[]")
    );
}

#[test]
fn mappings_are_registered_under_normalized_name_name_and_table() {
    let mut datasource = MariaDbDatasource::new(&create_test_config());
    let mut entities = create_test_entities();
    entities[0].name = " Users".to_string();
    entities.push({
        let mut orders = create_test_entities().remove(0);
        orders.name = "orders".to_string();
        orders.table_name = None;
        orders
    });
    datasource
        .configure_entity_mappings(&entities, Ok(()))
        .unwrap();
    assert_eq!(
        datasource.known_entities(),
        vec!["users", " Users", "user_table", "orders"]
    );
    assert_eq!(
        datasource.find_entity_mapping("ORDERS").unwrap().table_name,
        "orders"
    );
    assert_eq!(
        datasource.find_entity_mapping(" Users").unwrap().table_name,
        "user_table"
    );
    assert!(datasource.find_entity_mapping("nothing").is_none());
    assert_eq!(normalize_entity_name("  Mixed Case \t"), "mixed case");
    assert_eq!(normalize_entity_name("ÉCOLE"), "école");
}

#[test]
fn a_later_entity_of_the_same_name_wins() {
    let mut datasource = MariaDbDatasource::new(&create_test_config());
    let mut entities = create_test_entities();
    let mut second = create_test_entities().remove(0);
    second.table_name = Some("people".to_string());
    entities.push(second);
    datasource
        .configure_entity_mappings(&entities, Ok(()))
        .unwrap();
    assert_eq!(
        datasource.known_entities(),
        vec!["users", "user_table", "people"]
    );
    assert_eq!(
        datasource.find_entity_mapping("users").unwrap().table_name,
        "people"
    );
    assert_eq!(
        datasource
            .find_entity_mapping("user_table")
            .unwrap()
            .table_name,
        "user_table"
    );
}

#[test]
fn values_of_a_record_in_mapping_order() {
    let datasource = configured();
    let user = object(vec![
        ("active", JsonValue::Bool(false)),
        ("name", text("Ann")),
        ("id", text("u1")),
        ("extra", text("ignored")),
    ]);
    assert_eq!(
        datasource.entity_to_query_values(&user, "users").unwrap(),
        vec![
            text("u1"),
            text("Ann"),
            JsonValue::Null,
            JsonValue::Bool(false)
        ]
    );
    assert_eq!(
        datasource
            .prepare_update_values(&user, "users", "u1")
            .unwrap(),
        vec![
            text("Ann"),
            JsonValue::Null,
            JsonValue::Bool(false),
            text("u1")
        ]
    );
    assert_eq!(
        document_to_values(&users_mapping(), &user),
        vec![
            text("u1"),
            text("Ann"),
            JsonValue::Null,
            JsonValue::Bool(false)
        ]
    );
    assert_eq!(
        document_to_update_values(&users_mapping(), &user, "other"),
        vec![
            text("Ann"),
            JsonValue::Null,
            JsonValue::Bool(false),
            text("other")
        ]
    );
    let serialization = DataSourceError::SerializationError(
        "The entity could not be serialized as a JSON object".to_string(),
    );
    assert_eq!(
        datasource
            .entity_to_query_values(&text("x"), "users")
            .unwrap_err(),
        serialization
    );
    assert_eq!(
        datasource
            .prepare_update_values(&JsonValue::Array(vec![]), "users", "1")
            .unwrap_err(),
        serialization
    );
    assert_eq!(
        datasource
            .entity_to_query_values(&user, "orders")
            .unwrap_err(),
        not_found("orders", "[\"users\", \"user_table\"]")
    );
    assert_eq!(
        datasource
            .prepare_update_values(&user, "orders", "1")
            .unwrap_err(),
        not_found("orders", "[\"users\", \"user_table\"]")
    );
}

#[test]
fn binding_of_values() {
    assert_eq!(bind_value(&text("a")), Ok(SqlValue::Text("a".into())));
    assert_eq!(bind_value(&number(-7)), Ok(SqlValue::Integer(-7)));
    assert_eq!(
        bind_value(&JsonValue::Number(JsonNumber::UInt(u64::MAX))),
        Ok(SqlValue::Float("18446744073709551615".into()))
    );
    assert_eq!(
        bind_value(&decimal_number("2.5e3")),
        Ok(SqlValue::Float("2.5e3".into()))
    );
    assert_eq!(
        bind_value(&JsonValue::Bool(true)),
        Ok(SqlValue::Boolean(true))
    );
    assert_eq!(bind_value(&JsonValue::Null), Ok(SqlValue::Null));
    assert_eq!(
        bind_value(&JsonValue::Array(vec![number(1)])),
        Err(DataSourceError::ValidationError(
            "Unsupported value type for binding: [1]".to_string()
        ))
    );
    assert_eq!(
        bind_value(&object(vec![("a", JsonValue::Null)])),
        Err(DataSourceError::ValidationError(
            "Unsupported value type for binding: {\"a\":null}".to_string()
        ))
    );
    assert_eq!(
        bind_values(&vec![text("a"), number(1)]),
        Ok(vec![SqlValue::Text("a".into()), SqlValue::Integer(1)])
    );
    assert_eq!(
        bind_values(&vec![text("a"), JsonValue::Array(vec![]), object(vec![])]),
        Err(DataSourceError::ValidationError(
            "Unsupported value type for binding: []".to_string()
        ))
    );
    assert_eq!(bind_values(&vec![]), Ok(vec![]));
}

#[test]
fn reading_a_row_is_directed_by_the_field_type() {
    let cells = row(vec![
        ("t", SqlValue::Text("x".into())),
        ("i", SqlValue::Integer(5)),
        ("f", SqlValue::Float("1.5".into())),
        ("b", SqlValue::Boolean(true)),
        ("n", SqlValue::Null),
    ]);
    assert_eq!(try_get(&cells, "t", "string"), Some(text("x")));
    assert_eq!(try_get(&cells, "t", "date"), Some(text("x")));
    assert_eq!(try_get(&cells, "t", "integer"), None);
    assert_eq!(try_get(&cells, "i", "integer"), Some(number(5)));
    assert_eq!(try_get(&cells, "i", "float"), None);
    assert_eq!(try_get(&cells, "i", "string"), None);
    assert_eq!(try_get(&cells, "f", "float"), Some(decimal_number("1.5")));
    assert_eq!(try_get(&cells, "b", "boolean"), Some(JsonValue::Bool(true)));
    assert_eq!(try_get(&cells, "b", "json"), None);
    assert_eq!(try_get(&cells, "n", "string"), None);
    assert_eq!(try_get(&cells, "missing", "string"), None);
}

#[test]
fn a_row_becomes_a_record_keyed_by_field_name() {
    let mapping = users_mapping();
    let cells = row(vec![
        ("is_active", SqlValue::Boolean(false)),
        ("user_age", SqlValue::Null),
        ("user_name", SqlValue::Text("Ann".into())),
        ("user_id", SqlValue::Text("u1".into())),
        ("other", SqlValue::Integer(1)),
    ]);
    assert_eq!(
        row_to_document(&mapping, &cells),
        object(vec![
            ("id", text("u1")),
            ("name", text("Ann")),
            ("active", JsonValue::Bool(false))
        ])
    );
    assert_eq!(row_to_document(&mapping, &row(vec![])), object(vec![]));
}

#[test]
fn values_round_trip_through_a_row() {
    let mapping = TableMapping {
        table_name: "m".into(),
        primary_key: "id".into(),
        fields: vec![
            FieldMapping {
                field_name: "id".into(),
                column_name: "c_id".into(),
                field_type: "string".into(),
            },
            FieldMapping {
                field_name: "n".into(),
                column_name: "c_n".into(),
                field_type: "integer".into(),
            },
            FieldMapping {
                field_name: "x".into(),
                column_name: "c_x".into(),
                field_type: "float".into(),
            },
            FieldMapping {
                field_name: "b".into(),
                column_name: "c_b".into(),
                field_type: "boolean".into(),
            },
        ],
    };
    let record = object(vec![
        ("id", text("r1")),
        ("n", number(i64::MIN)),
        ("x", decimal_number("3.25")),
        ("b", JsonValue::Bool(true)),
    ]);
    let values = document_to_values(&mapping, &record);
    let bound = bind_values(&values).unwrap();
    let synthetic = SqlRow {
        cells: mapping
            .fields
            .iter()
            .map(|f| f.column_name.clone())
            .zip(bound.into_iter())
            .collect(),
    };
    assert_eq!(row_to_document(&mapping, &synthetic), record);
}

#[test]
fn validation_warns_and_never_blocks_an_object() {
    let mapping = users_mapping();
    let user = object(vec![
        ("id", number(1)),
        ("name", text("Ann")),
        ("age", decimal_number("30.5")),
        ("active", JsonValue::Null),
    ]);
    assert_eq!(
        validate_document(&mapping, &user),
        Ok(vec!["id".to_string(), "age".to_string()])
    );
    assert_eq!(
        validate_document(&mapping, &create_custom_test_user("a", "b", 1, true)),
        Ok(vec![])
    );
    assert_eq!(validate_document(&mapping, &object(vec![])), Ok(vec![]));
    assert_eq!(
        validate_document(&mapping, &text("x")),
        Err(DataSourceError::ValidationError(
            "Entity must be an object".to_string()
        ))
    );
    let floats = TableMapping {
        table_name: "m".into(),
        primary_key: "id".into(),
        fields: vec![
            FieldMapping {
                field_name: "x".into(),
                column_name: "x".into(),
                field_type: "float".into(),
            },
            FieldMapping {
                field_name: "d".into(),
                column_name: "d".into(),
                field_type: "date".into(),
            },
        ],
    };
    assert_eq!(
        validate_document(
            &floats,
            &object(vec![("x", number(3)), ("d", text("2024-01-01"))])
        ),
        Ok(vec!["d".to_string()])
    );
    let datasource = configured();
    assert_eq!(
        datasource.validate_entity(&user, " users"),
        Ok(vec!["id".into(), "age".into()])
    );
    assert_eq!(
        datasource.validate_entity(&user, "orders"),
        Err(not_found("orders", "[\"users\", \"user_table\"]"))
    );
}

#[test]
fn id_of_a_record() {
    let mapping = users_mapping();
    assert_eq!(
        document_id(&mapping, &object(vec![("id", text("u1"))])),
        Ok("u1".to_string())
    );
    assert_eq!(
        document_id(&mapping, &object(vec![("id", number(-12))])),
        Ok("-12".to_string())
    );
    assert_eq!(
        document_id(
            &mapping,
            &object(vec![("id", JsonValue::Number(JsonNumber::UInt(u64::MAX)))])
        ),
        Ok("18446744073709551615".to_string())
    );
    assert_eq!(
        document_id(&mapping, &object(vec![("id", decimal_number("1.5"))])),
        Ok("1.5".to_string())
    );
    assert_eq!(
        document_id(&mapping, &object(vec![("id", JsonValue::Bool(true))])),
        Err(DataSourceError::ValidationError(
            "The ID value is not a valid string or number: true".to_string()
        ))
    );
    assert_eq!(
        document_id(&mapping, &object(vec![("name", text("x"))])),
        Err(DataSourceError::ValidationError(
            "The ID field 'id' was not found in the entity".to_string()
        ))
    );
    assert_eq!(
        document_id(&mapping, &JsonValue::Null),
        Err(DataSourceError::SerializationError(
            "The entity could not be serialized as a JSON object".to_string()
        ))
    );
    let datasource = configured();
    assert_eq!(
        datasource.get_entity_id(&object(vec![("id", text("u1"))]), "users"),
        Ok("u1".to_string())
    );
    assert_eq!(
        datasource.get_entity_id(&object(vec![]), "orders"),
        Err(not_found("orders", "[\"users\", \"user_table\"]"))
    );
    assert_eq!(signed_decimal(0), "0");
    assert_eq!(signed_decimal(-1), "-1");
    assert_eq!(signed_decimal(i64::MIN), "-9223372036854775808");
    assert_eq!(signed_decimal(i64::MAX), "9223372036854775807");
}

#[test]
fn prepared_statements() {
    let datasource = configured();
    let user = create_custom_test_user("u1", "Ann", 30, true);
    assert_eq!(
        datasource.prepare_get_all("users"),
        Ok(PreparedStatement {
            sql: select_query(&users_mapping()),
            parameters: vec![]
        })
    );
    assert_eq!(
        datasource.prepare_get_by_id("u1", "users"),
        Ok(PreparedStatement {
            sql: select_by_id_query(&users_mapping()),
            parameters: vec![SqlValue::Text("u1".into())],
        })
    );
    assert_eq!(
        datasource.prepare_delete("u1", "users"),
        Ok(PreparedStatement {
            sql: delete_query(&users_mapping()),
            parameters: vec![SqlValue::Text("u1".into())],
        })
    );
    assert_eq!(
        datasource.prepare_create(&user, "users"),
        Ok(PreparedStatement {
            sql: insert_query(&users_mapping()),
            parameters: vec![
                SqlValue::Text("u1".into()),
                SqlValue::Text("Ann".into()),
                SqlValue::Integer(30),
                SqlValue::Boolean(true),
            ],
        })
    );
    assert_eq!(
        datasource.prepare_update("u9", &user, "users"),
        Ok(PreparedStatement {
            sql: update_query(&users_mapping()),
            parameters: vec![
                SqlValue::Text("Ann".into()),
                SqlValue::Integer(30),
                SqlValue::Boolean(true),
                SqlValue::Text("u9".into()),
            ],
        })
    );
    assert_eq!(
        datasource.prepare_create(&text("x"), "users"),
        Err(DataSourceError::ValidationError(
            "Entity must be an object".to_string()
        ))
    );
    assert_eq!(
        datasource.prepare_update(
            "1",
            &object(vec![("name", JsonValue::Array(vec![]))]),
            "users"
        ),
        Err(DataSourceError::ValidationError(
            "Unsupported value type for binding: []".to_string()
        ))
    );
    let unknown = not_found("orders", "[\"users\", \"user_table\"]");
    assert_eq!(datasource.prepare_get_all("orders"), Err(unknown.clone()));
    assert_eq!(
        datasource.prepare_get_by_id("1", "orders"),
        Err(unknown.clone())
    );
    assert_eq!(
        datasource.prepare_delete("1", "orders"),
        Err(unknown.clone())
    );
    assert_eq!(
        datasource.prepare_create(&user, "orders"),
        Err(unknown.clone())
    );
    assert_eq!(
        datasource.prepare_update("1", &user, "orders"),
        Err(unknown)
    );
}

#[test]
fn executions() {
    assert_eq!(DEFAULT_QUERY_TIMEOUT_SECONDS, 10);
    assert_eq!(check_execution(Execution::Done(3)), Ok(3));
    assert_eq!(
        check_execution(Execution::Failed("syntax error".into())),
        Err(DataSourceError::QueryError(
            "Error executing query: syntax error".into()
        ))
    );
    assert_eq!(
        check_execution(Execution::TimedOut),
        Err(DataSourceError::QueryError(
            "Query timed out after 10 seconds".into()
        ))
    );
    assert!(rows_removed(1));
    assert!(rows_removed(u64::MAX));
    assert!(!rows_removed(0));
    assert_eq!(
        connection_failure("refused"),
        DataSourceError::ConnectionError("Error connecting to MariaDB: refused".into())
    );
    assert_eq!(
        no_connection(),
        DataSourceError::ConnectionError("No database connection".into())
    );
    assert_eq!(resolve_entity_name::<JsonValue>(Some("users")), "users");
    assert_eq!(resolve_entity_name::<JsonValue>(None), "JsonValue");
    assert_eq!(resolve_entity_name::<TestUser>(None), "users");
}

#[test]
fn datasource_error_texts() {
    assert_eq!(
        DataSourceError::ConnectionError("c".into()).to_text(),
        "Connection error: c"
    );
    assert_eq!(
        DataSourceError::QueryError("q".into()).to_text(),
        "Query error: q"
    );
    assert_eq!(
        DataSourceError::NotFound("n".into()).to_text(),
        "Not found: n"
    );
    assert_eq!(
        DataSourceError::ValidationError("v".into()).to_text(),
        "Validation error: v"
    );
    assert_eq!(
        DataSourceError::MappingError("m".into()).to_text(),
        "Mapping error: m"
    );
    assert_eq!(
        DataSourceError::SerializationError("s".into()).to_text(),
        "Serialization error: s"
    );
    let error = DataError::new("broken");
    assert_eq!(error.get_message(), "broken");
}

fn basic(name: &str, fields: Vec<(&str, DataType)>) -> EntityBasic {
    EntityBasic {
        name: name.to_string(),
        table_name: None,
        fields: fields
            .into_iter()
            .map(|(n, t)| FieldBasic {
                name: n.to_string(),
                data_type: t,
                required: true,
            })
            .collect(),
        authentication: false,
    }
}

#[test]
fn factory_maps_advanced_and_basic_entities() {
    let mut config = Config::new();
    config.database = create_test_config();
    config.entities_advanced = create_test_entities();
    config.entities_basic = vec![basic(
        "Products",
        vec![("sku", DataType::String), ("price", DataType::Float)],
    )];
    let datasource = DataSourceFactory::create_mariadb_datasource(&config, Ok(())).unwrap();
    assert_eq!(datasource.config.database_name, "test_db");
    assert_eq!(
        datasource.known_entities(),
        vec!["users", "user_table", "products", "Products"]
    );
    let products = datasource.find_entity_mapping("products").unwrap();
    assert_eq!(products.table_name, "Products");
    assert_eq!(products.primary_key, "id");
    assert_eq!(products.fields[1].column_name, "price");
    assert_eq!(products.fields[1].field_type, "float");
    assert!(DataSourceFactory::supports(DatabaseType::MySQL));
    assert!(!DataSourceFactory::supports(DatabaseType::PostgreSQL));
    assert!(!DataSourceFactory::supports(DatabaseType::SQLite));
    assert!(!DataSourceFactory::supports(DatabaseType::MongoDB));
}

#[test]
fn factory_gives_every_configured_name_one_datasource() {
    let mut config = Config::new();
    config.entities_advanced = create_test_entities();
    config.entities_basic = vec![
        basic("orders", vec![]),
        basic("users", vec![]),
        basic("Users", vec![]),
    ];
    let connection = RelationalDatabase::new(create_test_config());
    let datasources =
        DataSourceFactory::create_datasources::<JsonValue, _>(&config, Some(&connection));
    assert_eq!(datasources.keys(), vec!["users", "orders", "Users"]);
    assert_eq!(datasources.get("orders").unwrap().config.host, "localhost");
    let none =
        DataSourceFactory::create_datasources::<JsonValue, RelationalDatabase>(&config, None);
    assert!(none.is_empty());
}

#[test]
fn relational_database_is_an_empty_store_that_accepts_writes() {
    let database = RelationalDatabase::new(create_test_config());
    let listed: Result<Vec<JsonValue>, DataSourceError> = database.get_all(None);
    assert_eq!(listed, Ok(vec![]));
    let found: Result<Option<JsonValue>, DataSourceError> = database.get_by_id("1", None);
    assert_eq!(found, Ok(None));
    assert_eq!(database.create(text("x"), None), Ok(text("x")));
    assert_eq!(
        database.update("1", text("y"), Some("users")),
        Ok(text("y"))
    );
    assert_eq!(
        DataSource::<JsonValue>::delete(&database, "1", None),
        Ok(true)
    );
    let copy = DataSource::<JsonValue>::box_clone(&database);
    assert_eq!(copy.config.username, "test_user");
    let structure = DatabaseSource::<JsonValue>::get_db_structure(&database);
    assert_eq!(structure.config.database_name, "test_db");
}

#[test]
fn csv_datasource_knows_its_file_and_says_what_is_not_complete() {
    let mut csv: CsvDatasource<JsonValue> = CsvDatasource::new("data/users.csv".into(), ';', true);
    assert_eq!(csv.get_file_path(), "data/users.csv");
    csv.set_file_path("data/other.csv".into());
    assert_eq!(csv.get_file_path(), "data/other.csv");
    let error = |operation: &str| {
        DataSourceError::QueryError(format!(
            "The {}() implementation for CSV is not complete",
            operation
        ))
    };
    assert_eq!(csv.get_all(None), Err(error("get_all")));
    assert_eq!(csv.get_by_id("1", None), Err(error("get_by_id")));
    assert_eq!(csv.create(text("x"), None), Err(error("create")));
    assert_eq!(csv.update("1", text("x"), None), Err(error("update")));
    assert_eq!(csv.delete("1", None), Err(error("delete")));
    assert_eq!(csv.box_clone().get_file_path(), "data/other.csv");
    let format = FileFormat::CSV {
        delimiter: ';',
        has_header: true,
    };
    assert!(matches!(
        format,
        FileFormat::CSV {
            delimiter: ';',
            has_header: true
        }
    ));
}

#[test]
fn column_kinds() {
    assert_eq!(column_kind("integer"), ColumnKind::Integer);
    assert_eq!(column_kind("float"), ColumnKind::Float);
    assert_eq!(column_kind("boolean"), ColumnKind::Boolean);
    assert_eq!(column_kind("string"), ColumnKind::Text);
    assert_eq!(column_kind("datetime"), ColumnKind::Text);
    assert_eq!(column_kind("json"), ColumnKind::Text);
    assert_eq!(column_kind(""), ColumnKind::Text);
    assert_eq!(column_kind("Integer"), ColumnKind::Text);
}

#[test]
fn a_registered_entity_is_found_under_every_form_of_its_name() {
    let mut datasource = MariaDbDatasource::new(&create_test_config());
    let mut entities = create_test_entities();
    entities[0].name = "Users ".to_string();
    datasource
        .configure_entity_mappings(&entities, Ok(()))
        .unwrap();
    for name in ["Users ", "users", "user_table", " USER_TABLE", "USERS"] {
        assert_eq!(
            datasource
                .find_entity_mapping(name)
                .map(|m| m.table_name.as_str()),
            Some("user_table"),
            "{:?}",
            name
        );
    }
    let copy = datasource.clone();
    assert_eq!(copy.known_entities(), datasource.known_entities());
    assert_eq!(copy.config.host, "localhost");
    assert_eq!(copy.find_entity_mapping("users").unwrap().primary_key, "id");
}

#[test]
fn rows_map_in_order_and_the_first_failure_fails_the_result() {
    let datasource = configured();
    let ann = row(vec![
        ("user_id", SqlValue::Text("u1".into())),
        ("user_name", SqlValue::Text("Ann".into())),
        ("user_age", SqlValue::Integer(33)),
        ("is_active", SqlValue::Boolean(true)),
    ]);
    let bob = row(vec![
        ("user_id", SqlValue::Text("u2".into())),
        ("user_name", SqlValue::Text("Bob".into())),
        ("user_age", SqlValue::Integer(44)),
        ("is_active", SqlValue::Boolean(false)),
    ]);
    let nameless = row(vec![("user_id", SqlValue::Text("u3".into()))]);
    let ageless = row(vec![
        ("user_id", SqlValue::Text("u4".into())),
        ("user_name", SqlValue::Text("Dan".into())),
    ]);

    let none: Vec<JsonValue> = datasource
        .map_rows_to_entities::<JsonValue>(&vec![], "users")
        .unwrap();
    assert!(none.is_empty());

    let rows = vec![ann, bob, nameless, ageless];
    let documents = datasource
        .map_rows_to_entities::<JsonValue>(&rows, "users")
        .unwrap();
    assert_eq!(documents.len(), 4);
    assert_eq!(documents[0], create_custom_test_user("u1", "Ann", 33, true));
    assert_eq!(
        documents[1],
        create_custom_test_user("u2", "Bob", 44, false)
    );
    assert_eq!(documents[2].get("id"), Some(&text("u3")));
    assert_eq!(documents[2].get("name"), None);

    match datasource.map_rows_to_entities::<TestUser>(&rows, "users") {
        Err(DataSourceError::MappingError(message)) => assert_eq!(
            message,
            "Error deserializing entity 'users': missing field `name`. Fields available: id"
        ),
        _ => panic!("the third row should fail the result"),
    }
    let mut rows = rows;
    rows.truncate(2);
    let users = datasource
        .map_rows_to_entities::<TestUser>(&rows, "users")
        .ok()
        .unwrap();
    assert_eq!(users.len(), 2);
    assert_eq!(users[0].name, "Ann");
    assert_eq!(users[1].name, "Bob");
    assert_eq!(
        datasource
            .map_rows_to_entities::<JsonValue>(&rows, "orders")
            .unwrap_err(),
        not_found("orders", "[\"users\", \"user_table\"]")
    );
}

#[test]
fn the_row_of_a_lookup_maps_to_a_record_or_to_none() {
    let datasource = configured();
    let ann = row(vec![
        ("user_id", SqlValue::Text("u1".into())),
        ("user_name", SqlValue::Text("Ann".into())),
        ("user_age", SqlValue::Integer(33)),
        ("is_active", SqlValue::Boolean(true)),
    ]);
    assert_eq!(
        datasource.map_optional_row::<JsonValue>(None, "users"),
        Ok(None)
    );
    assert_eq!(
        datasource.map_optional_row::<JsonValue>(Some(&ann), "users"),
        Ok(Some(create_custom_test_user("u1", "Ann", 33, true)))
    );
    let nameless = row(vec![("user_id", SqlValue::Text("u3".into()))]);
    assert!(matches!(
        datasource.map_optional_row::<TestUser>(Some(&nameless), "users"),
        Err(DataSourceError::MappingError(_))
    ));
}

#[test]
fn writes_and_deletes_answer_from_the_execution() {
    assert_eq!(written(text("x"), Execution::Done(1)), Ok(text("x")));
    assert_eq!(written(text("x"), Execution::Done(0)), Ok(text("x")));
    assert_eq!(
        written(text("x"), Execution::Failed("duplicate key".into())),
        Err(DataSourceError::QueryError(
            "Error executing query: duplicate key".into()
        ))
    );
    assert_eq!(
        written(text("x"), Execution::TimedOut),
        Err(DataSourceError::QueryError(
            "Query timed out after 10 seconds".into()
        ))
    );
    assert_eq!(removed(Execution::Done(1)), Ok(true));
    assert_eq!(removed(Execution::Done(0)), Ok(false));
    assert_eq!(removed(Execution::TimedOut), Err(query_timeout()));
    assert_eq!(
        removed(Execution::Failed("gone".into())),
        Err(query_failure("gone"))
    );
    assert_eq!(
        query_failure("gone"),
        DataSourceError::QueryError("Error executing query: gone".into())
    );
}

#[test]
fn test_configure_entity_mappings_fails_on_connection() {
    let config = create_test_config();
    let mut datasource = MariaDbDatasource::new(&config);
    let entities = create_test_entities();

    let result = datasource.configure_entity_mappings(
        &entities,
        Err("Connection refused (os error 111)".to_string()),
    );

    assert!(
        result.is_err(),
        "configure_entity_mappings should fail without a valid DB connection"
    );
    if let Err(e) = result {
        let error_message = e.to_text();
        assert!(
            error_message.to_lowercase().contains("connection refused")
                || error_message.to_lowercase().contains("access denied")
                || error_message.to_lowercase().contains("unknown database")
                || error_message
                    .to_lowercase()
                    .contains("error connecting to mariadb")
                || error_message.to_lowercase().contains("timed out"),
            "Expected a connection-related error, got: {}",
            error_message
        );
        assert_eq!(
            e,
            DataSourceError::ConnectionError(
                "Error connecting to MariaDB: Connection refused (os error 111)".to_string()
            )
        );
    }
    assert!(datasource.known_entities().is_empty());
    assert!(datasource.find_entity_mapping("users").is_none());
}

#[test]
fn test_configure_entity_mappings_empty_entities_still_tries_connection() {
    let config = create_test_config();
    let mut datasource = MariaDbDatasource::new(&config);
    let entities = vec![];

    let result = datasource.configure_entity_mappings(&entities, Err("timed out".to_string()));

    assert!(
        result.is_err(),
        "configure_entity_mappings should attempt connection even with no entities, and fail here."
    );
    assert!(datasource.known_entities().is_empty());
}

#[test]
fn a_failed_connection_leaves_the_mappings_as_they_were() {
    let mut datasource = configured();
    let before = datasource.known_entities();
    let mut orders = create_test_entities().remove(0);
    orders.name = "orders".to_string();
    orders.table_name = None;
    assert_eq!(
        datasource.configure_entity_mappings(&vec![orders], Err("access denied".to_string())),
        Err(DataSourceError::ConnectionError(
            "Error connecting to MariaDB: access denied".to_string()
        ))
    );
    assert_eq!(datasource.known_entities(), before);
    assert!(datasource.find_entity_mapping("orders").is_none());
    assert_eq!(
        datasource.configure_entity_mappings(&vec![], Ok(())),
        Ok(())
    );
    assert_eq!(datasource.known_entities(), before);

    let mut config = Config::new();
    config.database = create_test_config();
    config.entities_advanced = create_test_entities();
    assert_eq!(
        DataSourceFactory::create_mariadb_datasource(&config, Err("unknown database".into())).err(),
        Some(DataSourceError::ConnectionError(
            "Error connecting to MariaDB: unknown database".to_string()
        ))
    );
}
