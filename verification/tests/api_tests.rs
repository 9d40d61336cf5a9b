use rawst::api::adapters::api_adapter::{
    ApiAdapter, ApiAdapterTrait, ApiRequest, ApiResponse, ApiResponseBody, EndpointHandler,
    EntityApi,
};
use rawst::api::adapters::entity_mapping::entity_mapper;
use rawst::api::adapters::routing::{entity_name_of, find_entity, find_handler, isolate};
use rawst::api::common::api_entity::ApiEntity;
use rawst::api::datasource_integration::DatasourceIntegration;
use rawst::api::handlers::common::utils::{
    default_headers, handle_datasource_error, make_endpoint_key, register_endpoint,
};
use rawst::api::handlers::crud::create::{
    create_response, handle_create, record_of_parsed, register_create_endpoint,
};
use rawst::api::handlers::crud::delete::{
    delete_response, handle_delete, register_delete_endpoint,
};
use rawst::api::handlers::crud::list::{handle_list, list_response, register_list_endpoint};
use rawst::api::handlers::crud::read::{handle_read, read_response, register_read_endpoint};
use rawst::api::handlers::crud::update::{
    handle_update, register_update_endpoint, update_response, update_step, UpdateStep,
};
use rawst::api::handlers::custom::routes::{handle_custom, register_custom_endpoint};
use rawst::api::handlers::manager::{invoke, ApiHandlerManager};
use rawst::config::configuration::Config;
use rawst::config::shared::{EntityBasic, FieldBasic};
use rawst::config::specific::entity_config::{
    Authorization, CustomRoute, DataType, EndpointConfig, Entity, Field, HttpMethod,
};
use rawst::data::datasource::base::{DataSource, DataSourceError};
use rawst::error::{ApiErrorKind, RusterApiError};
use rawst::json::{JsonNumber, JsonValue};
use rawst::string_map::StringMap;
use std::cell::RefCell;
use std::rc::Rc;

fn text(s: &str) -> JsonValue {
    JsonValue::Text(s.to_string())
}

fn object(members: Vec<(&str, JsonValue)>) -> JsonValue {
    JsonValue::Object(
        members
            .into_iter()
            .map(|(k, v)| (k.to_string(), v))
            .collect(),
    )
}

fn user(id: &str, name: &str) -> JsonValue {
    object(vec![("id", text(id)), ("name", text(name))])
}

#[derive(Default)]
struct Store {
    records: Vec<(String, JsonValue)>,
    calls: Vec<String>,
    fail_with: Option<DataSourceError>,
}

#[derive(Clone, Default)]
struct MemoryDataSource {
    store: Rc<RefCell<Store>>,
}

impl MemoryDataSource {
    fn calls(&self) -> Vec<String> {
        self.store.borrow().calls.clone()
    }

    fn failing(error: DataSourceError) -> Self {
        let source = MemoryDataSource::default();
        source.store.borrow_mut().fail_with = Some(error);
        source
    }

    fn note(&self, call: String) -> Result<(), DataSourceError> {
        let mut store = self.store.borrow_mut();
        store.calls.push(call);
        match &store.fail_with {
            Some(error) => Err(error.clone()),
            None => Ok(()),
        }
    }
}

fn id_of(item: &JsonValue) -> String {
    match item.get("id") {
        Some(JsonValue::Text(id)) => id.clone(),
        other => panic!("record without a text id: {:?}", other),
    }
}

impl DataSource<JsonValue> for MemoryDataSource {
    fn get_all(&self, entity_name: Option<&str>) -> Result<Vec<JsonValue>, DataSourceError> {
        self.note(format!("get_all {:?}", entity_name))?;
        Ok(self
            .store
            .borrow()
            .records
            .iter()
            .map(|(_, r)| r.clone())
            .collect())
    }

    fn get_by_id(
        &self,
        id: &str,
        entity_name: Option<&str>,
    ) -> Result<Option<JsonValue>, DataSourceError> {
        self.note(format!("get_by_id {} {:?}", id, entity_name))?;
        Ok(self
            .store
            .borrow()
            .records
            .iter()
            .find(|(k, _)| k == id)
            .map(|(_, r)| r.clone()))
    }

    fn create(
        &self,
        item: JsonValue,
        entity_name: Option<&str>,
    ) -> Result<JsonValue, DataSourceError> {
        self.note(format!("create {:?}", entity_name))?;
        self.store
            .borrow_mut()
            .records
            .push((id_of(&item), item.clone()));
        Ok(item)
    }

    fn update(
        &self,
        id: &str,
        item: JsonValue,
        entity_name: Option<&str>,
    ) -> Result<JsonValue, DataSourceError> {
        self.note(format!("update {} {:?}", id, entity_name))?;
        for record in self.store.borrow_mut().records.iter_mut() {
            if record.0 == id {
                record.1 = item.clone();
            }
        }
        Ok(item)
    }

    fn delete(&self, id: &str, entity_name: Option<&str>) -> Result<bool, DataSourceError> {
        self.note(format!("delete {} {:?}", id, entity_name))?;
        let mut store = self.store.borrow_mut();
        let before = store.records.len();
        store.records.retain(|(k, _)| k != id);
        Ok(store.records.len() < before)
    }

    fn box_clone(&self) -> Self {
        self.clone()
    }
}

fn field(name: &str) -> Field {
    Field {
        name: name.to_string(),
        column_name: None,
        data_type: DataType::String,
        required: true,
        unique: false,
        searchable: true,
        default_value: None,
        description: None,
    }
}

fn entity(name: &str, create: bool, read: bool, update: bool, delete: bool, list: bool) -> Entity {
    Entity {
        name: name.to_string(),
        table_name: None,
        fields: vec![field("id"), field("name")],
        relationships: vec![],
        endpoints: EndpointConfig {
            generate_create: create,
            generate_read: read,
            generate_update: update,
            generate_delete: delete,
            generate_list: list,
            custom_routes: vec![],
        },
        authentication: false,
        authorization: Authorization {
            active: false,
            roles: vec![],
            permissions: vec![],
        },
        validations: vec![],
        pagination: None,
    }
}

fn crud_entity(name: &str) -> Entity {
    entity(name, true, true, true, true, true)
}

fn basic_entity(name: &str) -> EntityBasic {
    EntityBasic {
        name: name.to_string(),
        table_name: None,
        fields: vec![
            FieldBasic {
                name: "id".to_string(),
                data_type: DataType::String,
                required: true,
            },
            FieldBasic {
                name: "name".to_string(),
                data_type: DataType::String,
                required: true,
            },
        ],
        authentication: false,
    }
}

fn config(prefix: Option<&str>, advanced: Vec<Entity>, basic: Vec<EntityBasic>) -> Config {
    let mut config = Config::new();
    config.api_prefix = prefix.map(|p| p.to_string());
    config.entities_advanced = advanced;
    config.entities_basic = basic;
    config
}

fn sources(names: Vec<&str>, source: &MemoryDataSource) -> StringMap<MemoryDataSource> {
    let mut map = StringMap::new();
    for name in names {
        map.insert(name.to_string(), source.clone());
    }
    map
}

fn router(
    prefix: Option<&str>,
    advanced: Vec<Entity>,
    source: &MemoryDataSource,
) -> ApiAdapter<JsonValue, MemoryDataSource> {
    let names: Vec<String> = advanced.iter().map(|e| e.name.clone()).collect();
    let config = config(prefix, advanced, vec![]);
    ApiAdapter::new(
        config,
        sources(names.iter().map(|n| n.as_str()).collect(), source),
    )
}

fn request(method: HttpMethod, path: &str, id: Option<&str>, body: Option<&str>) -> ApiRequest {
    let mut params = StringMap::new();
    if let Some(id) = id {
        params.insert("id".to_string(), id.to_string());
    }
    ApiRequest {
        method,
        path: path.to_string(),
        params,
        headers: StringMap::new(),
        body: body.map(|b| b.to_string()),
    }
}

fn keys(endpoints: &StringMap<EndpointHandler>) -> Vec<String> {
    endpoints.keys()
}

fn content_type(response: &ApiResponse<JsonValue>) -> Option<String> {
    response.headers.get("Content-Type").cloned()
}

fn expect_error(
    result: Result<ApiResponse<JsonValue>, RusterApiError>,
    kind: ApiErrorKind,
) -> String {
    match result {
        Ok(response) => panic!("expected {:?}, got response {:?}", kind, response),
        Err(error) => {
            assert_eq!(error.kind(), kind, "{:?}", error);
            error.message().clone()
        }
    }
}

// ---- the handler registry ----

#[test]
fn registry_of_a_crud_entity_has_both_keys_of_every_endpoint() {
    let manager = ApiHandlerManager::new(Config::new(), MemoryDataSource::default());
    let (endpoints, warnings) = manager.initialize_endpoints(&crud_entity("users"));
    assert_eq!(
        keys(&endpoints),
        vec![
            "POST:users",
            "POST:api/users",
            "GET:users/:id",
            "GET:api/users/:id",
            "PUT:users/:id",
            "PUT:api/users/:id",
            "DELETE:users/:id",
            "DELETE:api/users/:id",
            "GET:users",
            "GET:api/users",
        ]
    );
    assert!(warnings.is_empty());
    assert_eq!(endpoints.get("POST:users"), Some(&EndpointHandler::Create));
    assert_eq!(endpoints.get("GET:users/:id"), Some(&EndpointHandler::Read));
    assert_eq!(
        endpoints.get("PUT:api/users/:id"),
        Some(&EndpointHandler::Update)
    );
    assert_eq!(
        endpoints.get("DELETE:users/:id"),
        Some(&EndpointHandler::Delete)
    );
    assert_eq!(endpoints.get("GET:api/users"), Some(&EndpointHandler::List));
}

#[test]
fn registry_leaves_out_what_is_disabled() {
    let manager = ApiHandlerManager::new(Config::new(), MemoryDataSource::default());
    let (endpoints, _) =
        manager.initialize_endpoints(&entity("users", false, true, false, false, false));
    assert_eq!(keys(&endpoints), vec!["GET:users/:id", "GET:api/users/:id"]);
    let (none, _) =
        manager.initialize_endpoints(&entity("users", false, false, false, false, false));
    assert!(none.is_empty());
}

#[test]
fn custom_route_that_collides_overwrites_and_warns() {
    let mut users = crud_entity("users");
    users.endpoints.custom_routes = vec![
        CustomRoute {
            path: "/stats".to_string(),
            method: HttpMethod::GET,
            handler: "stats".into(),
        },
        CustomRoute {
            path: "".to_string(),
            method: HttpMethod::POST,
            handler: "import".into(),
        },
    ];
    let manager = ApiHandlerManager::new(Config::new(), MemoryDataSource::default());
    let (endpoints, warnings) = manager.initialize_endpoints(&users);
    assert_eq!(
        endpoints.get("GET:users/stats"),
        Some(&EndpointHandler::Custom(HttpMethod::GET))
    );
    assert_eq!(
        endpoints.get("POST:users"),
        Some(&EndpointHandler::Custom(HttpMethod::POST))
    );
    assert_eq!(warnings, vec!["POST:users"]);
    assert_eq!(endpoints.len(), 11);
    assert_eq!(endpoints.key_at(0), "POST:users");
}

#[test]
fn register_functions_return_the_keys_they_overwrote() {
    let users = crud_entity("users");
    let mut endpoints = StringMap::new();
    assert!(register_create_endpoint(&users, &mut endpoints).is_empty());
    assert_eq!(
        register_create_endpoint(&users, &mut endpoints),
        vec!["POST:users", "POST:api/users"]
    );
    assert!(register_read_endpoint(&users, &mut endpoints).is_empty());
    assert!(register_update_endpoint(&users, &mut endpoints).is_empty());
    assert!(register_delete_endpoint(&users, &mut endpoints).is_empty());
    assert!(register_list_endpoint("users", &mut endpoints).is_empty());
    assert_eq!(
        register_list_endpoint("users/:id", &mut endpoints),
        vec!["GET:users/:id", "GET:api/users/:id"]
    );
    assert_eq!(endpoints.get("GET:users/:id"), Some(&EndpointHandler::List));
    let route = CustomRoute {
        path: "/x".to_string(),
        method: HttpMethod::PATCH,
        handler: "x".into(),
    };
    assert!(register_custom_endpoint(&users, &route, &mut endpoints).is_empty());
    assert_eq!(
        register_custom_endpoint(&users, &route, &mut endpoints),
        vec!["PATCH:users/x"]
    );
    let mut warnings = Vec::new();
    register_endpoint(
        &mut endpoints,
        "PATCH:users/x".to_string(),
        EndpointHandler::Delete,
        &mut warnings,
    );
    assert_eq!(warnings, vec!["PATCH:users/x"]);
    assert_eq!(
        endpoints.get("PATCH:users/x"),
        Some(&EndpointHandler::Delete)
    );
}

#[test]
fn endpoint_key_format() {
    assert_eq!(make_endpoint_key(HttpMethod::GET, "users"), "GET:users");
    assert_eq!(
        make_endpoint_key(HttpMethod::GET, "users/:id"),
        "GET:users/:id"
    );
    assert_eq!(
        make_endpoint_key(HttpMethod::POST, "api/users"),
        "POST:api/users"
    );
    assert_eq!(make_endpoint_key(HttpMethod::PATCH, ""), "PATCH:");
    assert_eq!(make_endpoint_key(HttpMethod::DELETE, "a"), "DELETE:a");
    assert_eq!(make_endpoint_key(HttpMethod::PUT, "a"), "PUT:a");
}

#[test]
fn default_headers_are_json() {
    let headers = default_headers();
    assert_eq!(headers.len(), 1);
    assert_eq!(
        headers.get("Content-Type"),
        Some(&"application/json".to_string())
    );
}

// ---- the handlers ----

#[test]
fn create_handler_answers_201_with_the_created_record() {
    let source = MemoryDataSource::default();
    let response = handle_create::<JsonValue, _>(
        &source,
        "users",
        &request(
            HttpMethod::POST,
            "users",
            None,
            Some("{\"id\":\"1\",\"name\":\"Ann\"}"),
        ),
    )
    .unwrap();
    assert_eq!(response.status, 201);
    assert_eq!(
        content_type(&response),
        Some("application/json".to_string())
    );
    assert_eq!(
        response.body,
        Some(ApiResponseBody::Single(user("1", "Ann")))
    );
    assert_eq!(source.calls(), vec!["create Some(\"users\")"]);
}

#[test]
fn create_handler_rejects_a_missing_or_empty_body_without_a_datasource_call() {
    let source = MemoryDataSource::default();
    for body in [None, Some("")] {
        let result = handle_create::<JsonValue, _>(
            &source,
            "users",
            &request(HttpMethod::POST, "users", None, body),
        );
        let error = result.unwrap_err();
        assert_eq!(
            error,
            RusterApiError::BadRequest("Request body is required".to_string())
        );
        assert_eq!(error.status_code(), 400);
    }
    assert!(source.calls().is_empty());
}

#[test]
fn create_handler_rejects_a_body_that_is_no_json() {
    let source = MemoryDataSource::default();
    let result = handle_create::<JsonValue, _>(
        &source,
        "users",
        &request(HttpMethod::POST, "users", None, Some("{not json")),
    );
    let message = expect_error(result, ApiErrorKind::BadRequest);
    assert!(
        message.starts_with("Invalid request format: "),
        "{}",
        message
    );
    assert!(message.len() > "Invalid request format: ".len());
    assert!(source.calls().is_empty());
}

struct Picky;

impl ApiEntity for Picky {
    fn entity_name() -> String {
        "picky".to_string()
    }

    fn from_document(document: JsonValue) -> Result<Self, String> {
        match document.get("ok") {
            Some(JsonValue::Bool(true)) => Ok(Picky),
            _ => Err("missing field `ok`".to_string()),
        }
    }
}

struct PickySource;

impl DataSource<Picky> for PickySource {
    fn get_all(&self, _: Option<&str>) -> Result<Vec<Picky>, DataSourceError> {
        Ok(vec![])
    }

    fn get_by_id(&self, _: &str, _: Option<&str>) -> Result<Option<Picky>, DataSourceError> {
        Ok(Some(Picky))
    }

    fn create(&self, item: Picky, _: Option<&str>) -> Result<Picky, DataSourceError> {
        Ok(item)
    }

    fn update(&self, _: &str, item: Picky, _: Option<&str>) -> Result<Picky, DataSourceError> {
        Ok(item)
    }

    fn delete(&self, _: &str, _: Option<&str>) -> Result<bool, DataSourceError> {
        Ok(true)
    }

    fn box_clone(&self) -> Self {
        PickySource
    }
}

#[test]
fn create_handler_rejects_a_document_that_the_payload_type_refuses() {
    let refused = handle_create::<Picky, _>(
        &PickySource,
        "picky",
        &request(HttpMethod::POST, "picky", None, Some("{\"ok\":false}")),
    );
    match refused {
        Err(RusterApiError::BadRequest(message)) => {
            assert_eq!(message, "Invalid request format: missing field `ok`")
        }
        _ => panic!("expected a bad request"),
    }
    let accepted = handle_create::<Picky, _>(
        &PickySource,
        "picky",
        &request(HttpMethod::POST, "picky", None, Some("{\"ok\":true}")),
    );
    assert_eq!(accepted.map(|r| r.status).map_err(|e| e.to_text()), Ok(201));
}

#[test]
fn create_response_wraps_a_datasource_failure_in_a_server_error() {
    let result =
        create_response::<JsonValue>(Err(DataSourceError::QueryError("duplicate key".into())));
    let error = result.unwrap_err();
    assert_eq!(
        error,
        RusterApiError::ServerError("Failed to create item: Query error: duplicate key".into())
    );
    assert_eq!(error.status_code(), 500);
}

#[test]
fn read_handler_needs_the_id_parameter() {
    let source = MemoryDataSource::default();
    let result = handle_read::<JsonValue, _>(
        &source,
        "users",
        &request(HttpMethod::GET, "users/1", None, None),
    );
    let error = result.unwrap_err();
    assert_eq!(
        error,
        RusterApiError::ValidationError("ID parameter missing".to_string())
    );
    assert_eq!(error.status_code(), 400);
    assert!(source.calls().is_empty());
}

#[test]
fn read_response_by_datasource_result() {
    let found = read_response("1", Ok(Some(user("1", "Ann")))).unwrap();
    assert_eq!(found.status, 200);
    assert_eq!(found.body, Some(ApiResponseBody::Single(user("1", "Ann"))));
    assert_eq!(content_type(&found), Some("application/json".to_string()));
    let missing = read_response::<JsonValue>("42", Ok(None)).unwrap_err();
    assert_eq!(
        missing,
        RusterApiError::EntityNotFound("Item with ID 42 not found".into())
    );
    assert_eq!(missing.status_code(), 404);
    let failed = read_response::<JsonValue>(
        "42",
        Err(DataSourceError::ConnectionError(
            "No database connection".into(),
        )),
    )
    .unwrap_err();
    assert_eq!(
        failed,
        RusterApiError::EndpointGenerationError(
            "Error retrieving items: Connection error: No database connection".into()
        )
    );
}

#[test]
fn update_handler_checks_id_then_body() {
    let source = MemoryDataSource::default();
    let no_id = handle_update::<JsonValue, _>(
        &source,
        "users",
        &request(HttpMethod::PUT, "users/1", None, None),
    );
    assert_eq!(
        no_id.unwrap_err(),
        RusterApiError::ValidationError("ID parameter missing".to_string())
    );
    let no_body = handle_update::<JsonValue, _>(
        &source,
        "users",
        &request(HttpMethod::PUT, "users/1", Some("1"), Some("")),
    );
    assert_eq!(
        no_body.unwrap_err(),
        RusterApiError::BadRequest("Request body is required".to_string())
    );
    let bad_body = handle_update::<JsonValue, _>(
        &source,
        "users",
        &request(HttpMethod::PUT, "users/1", Some("1"), Some("[1,")),
    );
    assert_eq!(bad_body.unwrap_err().kind(), ApiErrorKind::BadRequest);
    assert!(source.calls().is_empty());
}

#[test]
fn update_of_an_absent_id_is_not_found_and_never_writes() {
    let source = MemoryDataSource::default();
    let result = handle_update::<JsonValue, _>(
        &source,
        "users",
        &request(
            HttpMethod::PUT,
            "users/9",
            Some("9"),
            Some("{\"id\":\"9\",\"name\":\"Nobody\"}"),
        ),
    );
    let error = result.unwrap_err();
    assert_eq!(
        error,
        RusterApiError::EntityNotFound("Item with ID 9 not found".into())
    );
    assert_eq!(error.status_code(), 404);
    assert_eq!(source.calls(), vec!["get_by_id 9 Some(\"users\")"]);
    assert!(source.store.borrow().records.is_empty());
}

#[test]
fn update_step_writes_only_for_a_record_that_exists() {
    assert_eq!(
        update_step("1", &Ok(Some(user("1", "Ann")))),
        UpdateStep::Write
    );
    assert_eq!(
        update_step::<JsonValue>("1", &Ok(None)),
        UpdateStep::Refuse(RusterApiError::EntityNotFound(
            "Item with ID 1 not found".into()
        ))
    );
    assert_eq!(
        update_step::<JsonValue>("1", &Err(DataSourceError::QueryError("down".into()))),
        UpdateStep::Refuse(RusterApiError::EndpointGenerationError(
            "Error retrieving items: Query error: down".into()
        ))
    );
}

#[test]
fn update_response_by_datasource_result() {
    let ok = update_response(Ok(user("1", "Ann2"))).unwrap();
    assert_eq!(ok.status, 200);
    assert_eq!(ok.body, Some(ApiResponseBody::Single(user("1", "Ann2"))));
    let failed =
        update_response::<JsonValue>(Err(DataSourceError::QueryError("x".into()))).unwrap_err();
    assert_eq!(failed.kind(), ApiErrorKind::EndpointGenerationError);
}

#[test]
fn delete_response_by_datasource_result() {
    let removed = delete_response::<JsonValue>("1", Ok(true)).unwrap();
    assert_eq!(removed.status, 204);
    assert_eq!(removed.body, None);
    assert_eq!(content_type(&removed), Some("application/json".to_string()));
    let missing = delete_response::<JsonValue>("1", Ok(false)).unwrap_err();
    assert_eq!(
        missing,
        RusterApiError::EntityNotFound("Item with ID 1 not found".into())
    );
    let failed =
        delete_response::<JsonValue>("1", Err(DataSourceError::NotFound("t".into()))).unwrap_err();
    assert_eq!(
        failed,
        RusterApiError::EndpointGenerationError("Error retrieving items: Not found: t".into())
    );
}

#[test]
fn delete_handler_needs_the_id_parameter() {
    let source = MemoryDataSource::default();
    let result = handle_delete::<JsonValue, _>(
        &source,
        "users",
        &request(HttpMethod::DELETE, "users/1", None, None),
    );
    assert_eq!(
        result.unwrap_err(),
        RusterApiError::ValidationError("ID parameter missing".to_string())
    );
    assert!(source.calls().is_empty());
}

#[test]
fn list_of_an_empty_backend_is_200_with_an_empty_list() {
    let source = MemoryDataSource::default();
    let response = handle_list::<JsonValue, _>(
        &source,
        "users",
        &request(HttpMethod::GET, "users", None, None),
    )
    .unwrap();
    assert_eq!(response.status, 200);
    assert_eq!(response.body, Some(ApiResponseBody::List(vec![])));
    let again = list_response::<JsonValue>(Ok(vec![])).unwrap();
    assert_eq!(again.status, 200);
    assert_eq!(again.body, Some(ApiResponseBody::List(vec![])));
}

#[test]
fn list_response_hands_a_failure_on() {
    let failed =
        list_response::<JsonValue>(Err(DataSourceError::MappingError("m".into()))).unwrap_err();
    assert_eq!(
        failed,
        RusterApiError::EndpointGenerationError("Error retrieving items: Mapping error: m".into())
    );
    assert_eq!(
        handle_datasource_error(&DataSourceError::ValidationError("v".into())),
        RusterApiError::EndpointGenerationError(
            "Error retrieving items: Validation error: v".into()
        )
    );
    assert_eq!(
        handle_datasource_error(&DataSourceError::SerializationError("s".into())),
        RusterApiError::EndpointGenerationError(
            "Error retrieving items: Serialization error: s".into()
        )
    );
}

#[test]
fn custom_route_without_a_hook_answers_200_without_a_body() {
    let response = handle_custom::<JsonValue>(
        HttpMethod::PATCH,
        &request(HttpMethod::PATCH, "users/x", None, None),
    )
    .unwrap();
    assert_eq!(response.status, 200);
    assert_eq!(response.body, None);
    assert_eq!(
        content_type(&response),
        Some("application/json".to_string())
    );
}

#[test]
fn invoke_runs_the_handler_of_its_kind() {
    let source = MemoryDataSource::default();
    let list = invoke::<JsonValue, _>(
        EndpointHandler::List,
        &source,
        "users",
        &request(HttpMethod::GET, "users", None, None),
    )
    .unwrap();
    assert_eq!(list.body, Some(ApiResponseBody::List(vec![])));
    let custom = invoke::<JsonValue, _>(
        EndpointHandler::Custom(HttpMethod::GET),
        &source,
        "users",
        &request(HttpMethod::GET, "users/x", None, None),
    )
    .unwrap();
    assert_eq!(custom.status, 200);
    assert_eq!(source.calls(), vec!["get_all Some(\"users\")"]);
}

// ---- the router ----

#[test]
fn crud_happy_path() {
    let source = MemoryDataSource::default();
    let api = router(None, vec![crud_entity("users")], &source);

    let created = api
        .handle_request(request(
            HttpMethod::POST,
            "users",
            None,
            Some("{\"id\":\"1\",\"name\":\"Ann\"}"),
        ))
        .unwrap();
    assert_eq!(created.status, 201);
    assert_eq!(
        created.body,
        Some(ApiResponseBody::Single(user("1", "Ann")))
    );

    let listed = api
        .handle_request(request(HttpMethod::GET, "users", None, None))
        .unwrap();
    assert_eq!(listed.status, 200);
    assert_eq!(
        listed.body,
        Some(ApiResponseBody::List(vec![user("1", "Ann")]))
    );

    let updated = api
        .handle_request(request(
            HttpMethod::PUT,
            "users/1",
            Some("1"),
            Some("{\"id\":\"1\",\"name\":\"Ann2\"}"),
        ))
        .unwrap();
    assert_eq!(updated.status, 200);
    assert_eq!(
        updated.body,
        Some(ApiResponseBody::Single(user("1", "Ann2")))
    );

    let deleted = api
        .handle_request(request(HttpMethod::DELETE, "users/1", Some("1"), None))
        .unwrap();
    assert_eq!(deleted.status, 204);
    assert_eq!(deleted.body, None);

    let gone = api.handle_request(request(HttpMethod::DELETE, "users/1", Some("1"), None));
    let error = gone.unwrap_err();
    assert_eq!(
        error,
        RusterApiError::EntityNotFound("Item with ID 1 not found".into())
    );
    assert_eq!(error.status_code(), 404);
}

#[test]
fn crud_happy_path_read_of_one_record() {
    // With the list endpoint out of the way, `GET users/1` reaches the read
    // endpoint; with it, the first candidate key `GET:users` wins.
    let source = MemoryDataSource::default();
    let api = router(
        None,
        vec![entity("users", true, true, true, true, false)],
        &source,
    );
    api.handle_request(request(
        HttpMethod::POST,
        "users",
        None,
        Some("{\"id\":\"1\",\"name\":\"Ann\"}"),
    ))
    .unwrap();

    let read = api
        .handle_request(request(HttpMethod::GET, "users/1", Some("1"), None))
        .unwrap();
    assert_eq!(read.status, 200);
    assert_eq!(read.body, Some(ApiResponseBody::Single(user("1", "Ann"))));

    api.handle_request(request(HttpMethod::DELETE, "users/1", Some("1"), None))
        .unwrap();
    let error = api
        .handle_request(request(HttpMethod::GET, "users/1", Some("1"), None))
        .unwrap_err();
    assert_eq!(error.kind(), ApiErrorKind::EntityNotFound);
    assert_eq!(error.status_code(), 404);

    let with_list = router(
        None,
        vec![crud_entity("users")],
        &MemoryDataSource::default(),
    );
    let listed = with_list
        .handle_request(request(HttpMethod::GET, "users/1", Some("1"), None))
        .unwrap();
    assert_eq!(listed.body, Some(ApiResponseBody::List(vec![])));
}

#[test]
fn dispatch_is_deterministic() {
    let source = MemoryDataSource::default();
    let api = router(Some("/api"), vec![crud_entity("users")], &source);
    for _ in 0..2 {
        let listed = api
            .handle_request(request(HttpMethod::GET, "/api/users", None, None))
            .unwrap();
        assert_eq!(listed.status, 200);
        assert_eq!(listed.body, Some(ApiResponseBody::List(vec![])));
    }
    let first = api
        .handle_request(request(HttpMethod::GET, "/nope", None, None))
        .unwrap_err();
    let second = api
        .handle_request(request(HttpMethod::GET, "/nope", None, None))
        .unwrap_err();
    assert_eq!(first, second);
    let first = api
        .dispatch(request(HttpMethod::PATCH, "/users", None, None))
        .unwrap_err();
    let second = api
        .dispatch(request(HttpMethod::PATCH, "/users", None, None))
        .unwrap_err();
    assert_eq!(first, second);
}

#[test]
fn entity_match_ignores_case() {
    let source = MemoryDataSource::default();
    let api = router(None, vec![crud_entity("users")], &source);
    for path in ["/Users", "/users", "/USERS"] {
        let listed = api
            .handle_request(request(HttpMethod::GET, path, None, None))
            .unwrap();
        assert_eq!(listed.status, 200, "{}", path);
    }
    assert_eq!(source.calls().len(), 3);
    assert_eq!(find_entity(&api.entities, "users"), Some(0));
    assert_eq!(find_entity(&api.entities, "Users"), None);
}

#[test]
fn prefix_is_optional_and_another_prefix_is_an_entity() {
    let source = MemoryDataSource::default();
    let api = router(Some("/api"), vec![crud_entity("users")], &source);
    for path in ["/api/users", "/users", "api/users/", "users"] {
        let listed = api
            .handle_request(request(HttpMethod::GET, path, None, None))
            .unwrap();
        assert_eq!(listed.status, 200, "{}", path);
    }
    let other = api
        .handle_request(request(HttpMethod::GET, "/otherprefix/users", None, None))
        .unwrap_err();
    assert_eq!(other.kind(), ApiErrorKind::EntityNotFound);
    assert!(other.message().contains("otherprefix"));
    assert_eq!(
        other.message(),
        "Entity not found: otherprefix. Available entities: [\"users\"]"
    );
}

#[test]
fn entity_name_of_a_path() {
    let prefix = Some("/api/".to_string());
    assert_eq!(
        entity_name_of(&prefix, "/api/Users/1"),
        Ok("users".to_string())
    );
    assert_eq!(entity_name_of(&prefix, "/Users/1"), Ok("users".to_string()));
    assert_eq!(entity_name_of(&None, "/api/Users"), Ok("api".to_string()));
    assert_eq!(
        entity_name_of(&prefix, "/api"),
        Err(RusterApiError::ValidationError(
            "Invalid path: missing entity name".to_string()
        ))
    );
    assert_eq!(
        entity_name_of(&prefix, ""),
        Err(RusterApiError::ValidationError(
            "Invalid path: empty path".to_string()
        ))
    );
    assert_eq!(
        entity_name_of(&None, "///"),
        Err(RusterApiError::ValidationError(
            "Invalid path: empty path".to_string()
        ))
    );
}

#[test]
fn empty_path_and_missing_entity_are_validation_errors() {
    let api = router(
        Some("/api"),
        vec![crud_entity("users")],
        &MemoryDataSource::default(),
    );
    let empty = api
        .handle_request(request(HttpMethod::GET, "/", None, None))
        .unwrap_err();
    assert_eq!(
        empty,
        RusterApiError::ValidationError("Invalid path: empty path".to_string())
    );
    assert_eq!(empty.status_code(), 400);
    let missing = api
        .handle_request(request(HttpMethod::GET, "/api", None, None))
        .unwrap_err();
    assert_eq!(
        missing,
        RusterApiError::ValidationError("Invalid path: missing entity name".to_string())
    );
}

#[test]
fn unknown_entity_is_not_found_and_named() {
    let api = router(
        None,
        vec![crud_entity("users"), crud_entity("orders")],
        &MemoryDataSource::default(),
    );
    let error = api
        .handle_request(request(HttpMethod::GET, "nosuchentity", None, None))
        .unwrap_err();
    assert_eq!(error.kind(), ApiErrorKind::EntityNotFound);
    assert_eq!(error.status_code(), 404);
    assert!(error.message().contains("nosuchentity"));
    assert_eq!(
        error.message(),
        "Entity not found: nosuchentity. Available entities: [\"users\", \"orders\"]"
    );
}

#[test]
fn missing_body_on_create_is_a_bad_request_without_a_datasource_call() {
    let source = MemoryDataSource::default();
    let api = router(None, vec![crud_entity("users")], &source);
    for body in [None, Some("")] {
        let error = api
            .handle_request(request(HttpMethod::POST, "users", None, body))
            .unwrap_err();
        assert_eq!(
            error,
            RusterApiError::BadRequest("Request body is required".to_string())
        );
        assert_eq!(error.status_code(), 400);
    }
    assert!(source.calls().is_empty());
}

#[test]
fn update_through_the_router_of_an_absent_id_never_writes() {
    let source = MemoryDataSource::default();
    let api = router(None, vec![crud_entity("users")], &source);
    let error = api
        .handle_request(request(
            HttpMethod::PUT,
            "users/7",
            Some("7"),
            Some("{\"id\":\"7\",\"name\":\"Ghost\"}"),
        ))
        .unwrap_err();
    assert_eq!(error.kind(), ApiErrorKind::EntityNotFound);
    assert!(source
        .calls()
        .iter()
        .all(|call| !call.starts_with("update")));
    assert_eq!(source.calls().len(), 1);
}

#[test]
fn unknown_endpoint_names_method_path_and_endpoints() {
    let api = router(
        None,
        vec![entity("users", false, false, false, false, true)],
        &MemoryDataSource::default(),
    );
    let error = api
        .handle_request(request(HttpMethod::DELETE, "/users/1", None, None))
        .unwrap_err();
    assert_eq!(error.kind(), ApiErrorKind::EntityNotFound);
    assert_eq!(
        error.message(),
        "Endpoint not found for DELETE /users/1. Available endpoints: [\"GET:users\", \"GET:api/users\"]"
    );
}

#[test]
fn candidate_keys_are_tried_in_order_and_a_loose_match_comes_last() {
    let mut endpoints = StringMap::new();
    endpoints.insert("GET:api/users/:id".to_string(), EndpointHandler::Read);
    assert_eq!(
        find_handler(&endpoints, HttpMethod::GET, "users"),
        Some(EndpointHandler::Read)
    );
    endpoints.insert("GET:api/users".to_string(), EndpointHandler::List);
    assert_eq!(
        find_handler(&endpoints, HttpMethod::GET, "users"),
        Some(EndpointHandler::List)
    );
    endpoints.insert("GET:users/:id".to_string(), EndpointHandler::Update);
    assert_eq!(
        find_handler(&endpoints, HttpMethod::GET, "users"),
        Some(EndpointHandler::Update)
    );
    endpoints.insert("GET:users".to_string(), EndpointHandler::Create);
    assert_eq!(
        find_handler(&endpoints, HttpMethod::GET, "users"),
        Some(EndpointHandler::Create)
    );
    assert_eq!(find_handler(&endpoints, HttpMethod::POST, "users"), None);

    let mut custom = StringMap::new();
    custom.insert(
        "POST:users/import".to_string(),
        EndpointHandler::Custom(HttpMethod::POST),
    );
    custom.insert(
        "GET:users/stats".to_string(),
        EndpointHandler::Custom(HttpMethod::GET),
    );
    custom.insert("GET:users/export".to_string(), EndpointHandler::Delete);
    assert_eq!(
        find_handler(&custom, HttpMethod::GET, "users"),
        Some(EndpointHandler::Custom(HttpMethod::GET))
    );
    assert_eq!(
        find_handler(&custom, HttpMethod::POST, "users"),
        Some(EndpointHandler::Custom(HttpMethod::POST))
    );
    assert_eq!(find_handler(&custom, HttpMethod::GET, "orders"), None);
    assert_eq!(find_handler(&custom, HttpMethod::PUT, "users"), None);
}

#[test]
fn a_failing_endpoint_is_answered_for_with_a_bare_500() {
    let source = MemoryDataSource::failing(DataSourceError::QueryError("down".into()));
    let api = router(None, vec![crud_entity("users")], &source);
    let response = api
        .handle_request(request(HttpMethod::GET, "users", None, None))
        .unwrap();
    assert_eq!(response.status, 500);
    assert_eq!(response.body, None);
    assert!(response.headers.is_empty());

    let created = api
        .handle_request(request(
            HttpMethod::POST,
            "users",
            None,
            Some("{\"id\":\"1\"}"),
        ))
        .unwrap_err();
    assert_eq!(
        created,
        RusterApiError::ServerError("Failed to create item: Query error: down".into())
    );

    let kept = isolate::<JsonValue>(Err(RusterApiError::EntityNotFound("x".into())));
    assert_eq!(
        kept.unwrap_err(),
        RusterApiError::EntityNotFound("x".into())
    );
}

#[test]
fn entities_without_a_datasource_are_skipped_and_reported() {
    let source = MemoryDataSource::default();
    let config = config(
        None,
        vec![crud_entity("Users"), crud_entity("orders")],
        vec![
            basic_entity("Products"),
            basic_entity("users"),
            basic_entity("ghosts"),
        ],
    );
    let datasources = sources(vec!["users", "PRODUCTS"], &source);
    let mut entities: StringMap<EntityApi<MemoryDataSource>> = StringMap::new();
    let report = entity_mapper::<JsonValue, _>(&config, &datasources, &mut entities);
    assert_eq!(entities.keys(), vec!["users", "products"]);
    assert_eq!(report.skipped, vec!["orders", "ghosts"]);
    assert!(report.overwritten.is_empty());
    assert_eq!(entities.get("products").unwrap().entity_name, "Products");
    assert_eq!(entities.get("products").unwrap().endpoints.len(), 10);
    assert_eq!(
        entities
            .get("products")
            .unwrap()
            .endpoints
            .get("POST:Products"),
        Some(&EndpointHandler::Create)
    );
    assert_eq!(entities.get("users").unwrap().entity_name, "Users");
}

#[test]
fn of_two_entities_with_one_name_the_first_stands() {
    let source = MemoryDataSource::default();
    let mut first = crud_entity("Users");
    first.endpoints.generate_delete = false;
    let config = config(
        None,
        vec![first, crud_entity("USERS")],
        vec![basic_entity("users")],
    );
    let (api, report): (ApiAdapter<JsonValue, _>, _) =
        ApiAdapter::new_with_report(config, sources(vec!["users"], &source));
    assert_eq!(api.entities.keys(), vec!["users"]);
    assert!(report.skipped.is_empty());
    let entry = api.entities.get("users").unwrap();
    assert_eq!(entry.entity_name, "Users");
    assert_eq!(entry.endpoints.len(), 8);
    assert_eq!(entry.endpoints.get("DELETE:Users/:id"), None);
    let keys = api.entities.keys();
    for (i, a) in keys.iter().enumerate() {
        assert_eq!(a, &a.to_lowercase());
        for b in keys.iter().skip(i + 1) {
            assert_ne!(a.to_lowercase(), b.to_lowercase());
        }
    }
}

#[test]
fn an_entity_with_capitals_in_its_name_is_served_in_any_spelling() {
    let source = MemoryDataSource::default();
    let config = config(Some("/api"), vec![crud_entity("Users")], vec![]);
    let api: ApiAdapter<JsonValue, _> = ApiAdapter::new(config, sources(vec!["users"], &source));
    for path in ["/users", "/Users", "/USERS", "/api/users", "/api/Users"] {
        let listed = api
            .handle_request(request(HttpMethod::GET, path, None, None))
            .unwrap();
        assert_eq!(listed.status, 200, "{}", path);
    }
    let created = api
        .handle_request(request(
            HttpMethod::POST,
            "/users",
            None,
            Some("{\"id\":\"1\",\"name\":\"Ann\"}"),
        ))
        .unwrap();
    assert_eq!(created.status, 201);
    assert_eq!(source.calls().last().unwrap(), "create Some(\"Users\")");
    let removed = api
        .handle_request(request(HttpMethod::DELETE, "/USERS/1", Some("1"), None))
        .unwrap();
    assert_eq!(removed.status, 204);
}

#[test]
fn a_basic_entity_is_served_under_its_lower_case_name() {
    let source = MemoryDataSource::default();
    let config = config(Some("/api"), vec![], vec![basic_entity("users")]);
    let api: ApiAdapter<JsonValue, _> = ApiAdapter::new(config, sources(vec!["users"], &source));
    let created = api
        .handle_request(request(
            HttpMethod::POST,
            "/api/users",
            None,
            Some("{\"id\":\"1\",\"name\":\"Ann\"}"),
        ))
        .unwrap();
    assert_eq!(created.status, 201);
    assert_eq!(source.calls(), vec!["create Some(\"users\")"]);
}

#[test]
fn a_processed_entity_is_not_registered_twice() {
    let source = MemoryDataSource::default();
    let config = config(
        None,
        vec![crud_entity("users")],
        vec![basic_entity("Users")],
    );
    let api: ApiAdapter<JsonValue, _> = ApiAdapter::new(config, sources(vec!["users"], &source));
    assert_eq!(api.entities.keys(), vec!["users"]);
    assert_eq!(api.entities.get("users").unwrap().entity_name, "users");
}

#[test]
fn integration_registers_the_entities_that_have_a_datasource_of_their_name() {
    let source = MemoryDataSource::default();
    let config = config(
        None,
        vec![
            crud_entity("users"),
            crud_entity("Orders"),
            crud_entity("items"),
        ],
        vec![basic_entity("products")],
    );
    let datasources = sources(vec!["users", "orders", "products"], &source);
    let apis =
        DatasourceIntegration::setup_entity_datasources::<JsonValue, _>(&config, &datasources);
    assert_eq!(apis.keys(), vec!["users", "orders"]);
    assert_eq!(apis.get("users").unwrap().endpoints.len(), 10);
    assert_eq!(apis.get("orders").unwrap().entity_name, "Orders");
    assert!(DatasourceIntegration::get_entity_datasource("users", &datasources).is_some());
    assert!(DatasourceIntegration::get_entity_datasource("Orders", &datasources).is_none());
}

#[test]
fn json_value_reports_its_entity_name() {
    assert_eq!(<JsonValue as ApiEntity>::entity_name(), "JsonValue");
    assert_eq!(
        <JsonValue as ApiEntity>::from_document(JsonValue::Number(JsonNumber::Int(3))),
        Ok(JsonValue::Number(JsonNumber::Int(3)))
    );
}

#[test]
fn a_copy_of_the_router_routes_alike() {
    let source = MemoryDataSource::default();
    let api = router(
        Some("/api"),
        vec![crud_entity("users"), crud_entity("orders")],
        &source,
    );
    let copy = api.clone();
    assert_eq!(copy.entities.keys(), api.entities.keys());
    assert_eq!(copy.config.api_prefix, api.config.api_prefix);
    api.handle_request(request(
        HttpMethod::POST,
        "/api/users",
        None,
        Some("{\"id\":\"1\",\"name\":\"Ann\"}"),
    ))
    .unwrap();
    let listed = copy
        .handle_request(request(HttpMethod::GET, "/users", None, None))
        .unwrap();
    assert_eq!(
        listed.body,
        Some(ApiResponseBody::List(vec![user("1", "Ann")]))
    );
    let first = api
        .handle_request(request(HttpMethod::GET, "/none", None, None))
        .unwrap_err();
    let second = copy
        .handle_request(request(HttpMethod::GET, "/none", None, None))
        .unwrap_err();
    assert_eq!(first, second);
}

#[test]
fn every_enabled_endpoint_of_a_lower_case_entity_is_reached() {
    let source = MemoryDataSource::default();
    let mut users = crud_entity("users");
    users.endpoints.generate_list = false;
    users.endpoints.custom_routes = vec![CustomRoute {
        path: "/:id".to_string(),
        method: HttpMethod::PATCH,
        handler: "touch".into(),
    }];
    let api = router(None, vec![users], &source);
    let endpoints = &api.entities.get("users").unwrap().endpoints;
    assert_eq!(
        find_handler(endpoints, HttpMethod::POST, "users"),
        Some(EndpointHandler::Create)
    );
    assert_eq!(
        find_handler(endpoints, HttpMethod::GET, "users"),
        Some(EndpointHandler::Read)
    );
    assert_eq!(
        find_handler(endpoints, HttpMethod::PUT, "users"),
        Some(EndpointHandler::Update)
    );
    assert_eq!(
        find_handler(endpoints, HttpMethod::DELETE, "users"),
        Some(EndpointHandler::Delete)
    );
    assert_eq!(
        find_handler(endpoints, HttpMethod::PATCH, "users"),
        Some(EndpointHandler::Custom(HttpMethod::PATCH))
    );
}

#[test]
fn the_router_is_made_with_its_mapping_report() {
    let source = MemoryDataSource::default();
    let mut users = crud_entity("users");
    users.endpoints.custom_routes = vec![CustomRoute {
        path: "".to_string(),
        method: HttpMethod::POST,
        handler: "import".into(),
    }];
    let config = config(
        None,
        vec![users, crud_entity("orders")],
        vec![basic_entity("ghosts")],
    );
    let (api, report): (ApiAdapter<JsonValue, _>, _) =
        ApiAdapter::new_with_report(config, sources(vec!["users"], &source));
    assert_eq!(api.entities.keys(), vec!["users"]);
    assert_eq!(report.skipped, vec!["orders", "ghosts"]);
    assert_eq!(report.overwritten, vec!["POST:users"]);
    let listed = api
        .handle_request(request(HttpMethod::GET, "/Users", None, None))
        .unwrap();
    assert_eq!(listed.status, 200);
}

#[test]
fn integration_reports_what_it_left_out_and_what_it_overwrote() {
    let source = MemoryDataSource::default();
    let mut users = crud_entity("users");
    users.endpoints.custom_routes = vec![CustomRoute {
        path: "/:id".to_string(),
        method: HttpMethod::GET,
        handler: "show".into(),
    }];
    let config = config(
        None,
        vec![
            crud_entity("Orders"),
            users,
            crud_entity("items"),
            crud_entity("USERS"),
        ],
        vec![basic_entity("ghosts")],
    );
    let datasources = sources(vec!["users", "parcels"], &source);
    let (apis, report) =
        DatasourceIntegration::setup_with_report::<JsonValue, _>(&config, &datasources);
    assert_eq!(apis.keys(), vec!["users"]);
    assert_eq!(report.skipped, vec!["Orders", "items"]);
    assert_eq!(report.overwritten, vec!["GET:users/:id"]);
    assert_eq!(apis.get("users").unwrap().entity_name, "users");
    assert_eq!(
        apis.get("users").unwrap().endpoints.get("GET:users/:id"),
        Some(&EndpointHandler::Custom(HttpMethod::GET))
    );
}

#[test]
fn the_record_of_a_parsed_body() {
    let refused: Result<JsonValue, RusterApiError> =
        record_of_parsed(Err("expected value at line 1 column 1".to_string()));
    assert_eq!(
        refused,
        Err(RusterApiError::BadRequest(
            "Invalid request format: expected value at line 1 column 1".to_string()
        ))
    );
    let document = user("1", "Ann");
    assert_eq!(
        record_of_parsed::<JsonValue>(Ok(user("1", "Ann"))),
        Ok(document)
    );
    let empty: Result<JsonValue, RusterApiError> = record_of_parsed(Err(String::new()));
    assert_eq!(
        empty,
        Err(RusterApiError::BadRequest(
            "Invalid request format: ".to_string()
        ))
    );
}

#[test]
fn the_entity_segment_is_put_in_lower_case_letter_by_letter() {
    for code in 0u8..128 {
        let c = code as char;
        if c == '/' {
            continue;
        }
        let path = format!("/x{}x", c);
        let expected = format!("x{}x", c.to_ascii_lowercase());
        assert_eq!(entity_name_of(&None, &path), Ok(expected), "{:?}", c);
    }
    assert_eq!(entity_name_of(&None, "/ÉCOLE"), Ok("école".to_string()));
}
