use rawst::config::configuration::Config;
use rawst::config::shared::{EntityBasic, FieldBasic};
use rawst::config::specific::auth_config::{
    ApiKeyConfig, AuthConfig, AuthType, JWTConfig, OAuthConfig, OAuthProvider,
};
use rawst::config::specific::entity_config::{
    Authorization, CustomRoute, DataType, EndpointConfig, Entity, Field, HttpMethod,
    PaginationConfig, Permission, Relationship, RelationshipType, Role, Validation, ValidationType,
};

fn full_entity() -> Entity {
    Entity {
        name: "Users".to_string(),
        table_name: Some("user_table".to_string()),
        fields: vec![
            Field {
                name: "id".to_string(),
                column_name: Some("user_id".to_string()),
                data_type: DataType::String,
                required: true,
                unique: true,
                searchable: false,
                default_value: None,
                description: Some("the key".to_string()),
            },
            Field {
                name: "age".to_string(),
                column_name: None,
                data_type: DataType::Integer,
                required: false,
                unique: false,
                searchable: true,
                default_value: Some("0".to_string()),
                description: None,
            },
        ],
        relationships: vec![Relationship {
            name: "orders".to_string(),
            related_entity: "Order".to_string(),
            type_: RelationshipType::OneToMany,
            foreign_key: "user_id".to_string(),
            include_in_responses: true,
        }],
        endpoints: EndpointConfig {
            generate_create: true,
            generate_read: false,
            generate_update: true,
            generate_delete: false,
            generate_list: true,
            custom_routes: vec![CustomRoute {
                path: "/stats".to_string(),
                method: HttpMethod::PATCH,
                handler: "stats".to_string(),
            }],
        },
        authentication: true,
        authorization: Authorization {
            active: true,
            roles: vec![Role {
                name: "admin".to_string(),
                description: Some("all".to_string()),
            }],
            permissions: vec![Permission {
                action: "read".to_string(),
                subject: "users".to_string(),
            }],
        },
        validations: vec![
            Validation {
                field: "age".to_string(),
                validation_type: ValidationType::Range("0".to_string(), "150".to_string()),
                error_message: Some("age out of range".to_string()),
            },
            Validation {
                field: "id".to_string(),
                validation_type: ValidationType::Length(1, Some(36)),
                error_message: None,
            },
            Validation {
                field: "id".to_string(),
                validation_type: ValidationType::Regex("^[a-z]+$".to_string()),
                error_message: None,
            },
        ],
        pagination: Some(PaginationConfig {
            default_page_size: 20,
            max_page_size: 100,
            page_param_name: "page".to_string(),
            size_param_name: "size".to_string(),
        }),
    }
}

#[test]
fn a_copy_of_a_configuration_holds_the_same() {
    let mut config = Config::new();
    config.api_version = "2.1".to_string();
    config.api_prefix = Some("/v2".to_string());
    config.server.port = 9000;
    config.database.host = "db".to_string();
    config.entities_advanced = vec![full_entity()];
    config.entities_basic = vec![EntityBasic {
        name: "products".to_string(),
        table_name: None,
        fields: vec![FieldBasic {
            name: "sku".to_string(),
            data_type: DataType::String,
            required: true,
        }],
        authentication: false,
    }];
    config.auth = Some(AuthConfig {
        auth_type: AuthType::OAuth,
        jwt_config: Some(JWTConfig {
            secret: "swordfish".to_string(),
            expiration_hours: 12,
            issuer: None,
            refresh_token_enabled: true,
        }),
        oauth_config: Some(OAuthConfig {
            providers: vec![OAuthProvider {
                name: "hub".to_string(),
                client_id: "id".to_string(),
                client_secret: "swordfish".to_string(),
                auth_url: "https://hub/auth".to_string(),
                token_url: "https://hub/token".to_string(),
            }],
            callback_url: "https://me/callback".to_string(),
        }),
        api_key_config: Some(ApiKeyConfig {
            header_name: "X-Key".to_string(),
            prefix: Some("Key ".to_string()),
        }),
    });
    config.cors.allowed_origins = vec!["https://a".to_string(), "https://b".to_string()];
    config.cors.max_age_seconds = Some(60);
    config.documentation.title = "Shop".to_string();

    let copy = config.clone();
    assert_eq!(format!("{:?}", copy), format!("{:?}", config));
    let entity = copy.entities_advanced[0].clone();
    assert_eq!(format!("{:?}", entity), format!("{:?}", full_entity()));
    assert_eq!(entity.fields[0].column_name.as_deref(), Some("user_id"));
    assert_eq!(entity.endpoints.custom_routes[0].method, HttpMethod::PATCH);
    assert_eq!(copy.entities_basic[0].fields[0].name, "sku");
}
