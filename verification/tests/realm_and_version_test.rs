use proxmox::api::client::{handle_error_response, AttemptOutcome, ClientSettings, RetryAction, RetryConfig, RetryState};
use proxmox::api::error::ApiError;
use proxmox::api::version::VersionInfo;
use proxmox::data_sources::version::VersionDataSource;
use proxmox::resources::access::resource_realm::RealmAttrs;
use proxmox::resources::nodes::vm_state::{StateValue, StateWrite};
use proxmox::resources::realm::{RealmInfo, RealmResource, RealmWriteStep};
use proxmox::schema::Schema;
use proxmox::values::AttrValue;

fn create_test_client(server_url: &str) -> ClientSettings {
    ClientSettings::new(server_url, "test@pve!token=secret", true, RetryConfig::default())
}

/// What the client makes of a server that answers every attempt with
/// `status` and `body`.
fn outcome_of(status: u16, body: &str) -> Result<(), ApiError> {
    let config = RetryConfig::default();
    let (mut state, _) = RetryState::start();
    loop {
        match state.on_outcome(&config, AttemptOutcome::Response { status }) {
            RetryAction::Send { .. } => {}
            RetryAction::ParseSuccess => return Ok(()),
            RetryAction::HandleErrorResponse => {
                return Err(handle_error_response(status, Some(body.to_string()), None))
            }
            RetryAction::Fail(e) => return Err(e),
        }
    }
}

fn text(s: &str) -> Option<AttrValue> {
    Some(AttrValue::Text(s.to_string()))
}

fn create_test_config() -> RealmAttrs {
    RealmAttrs {
        realm: text("test-realm"),
        realm_type: text("openid"),
        comment: None,
        default: None,
        issuer_url: text("https://auth.example.com"),
        client_id: text("test-client"),
        client_key: text("test-secret"),
        username_claim: None,
        autocreate: None,
        groups_overwrite: None,
        groups_autocreate: None,
    }
}

fn state_with_realm() -> RealmAttrs {
    RealmAttrs {
        realm: text("test-realm"),
        realm_type: None,
        comment: None,
        default: None,
        issuer_url: None,
        client_id: None,
        client_key: None,
        username_claim: None,
        autocreate: None,
        groups_overwrite: None,
        groups_autocreate: None,
    }
}

fn written<'a>(writes: &'a [StateWrite], name: &str) -> Option<&'a StateValue> {
    writes.iter().rev().find(|w| w.name == name).map(|w| &w.value)
}

fn written_text(writes: &[StateWrite], name: &str) -> Option<String> {
    match written(writes, name) {
        Some(StateValue::Text(s)) => Some(s.clone()),
        _ => None,
    }
}

fn written_flag(writes: &[StateWrite], name: &str) -> Option<bool> {
    match written(writes, name) {
        Some(StateValue::Flag(b)) => Some(*b),
        _ => None,
    }
}

fn has_attribute(schema: &Schema, name: &str) -> bool {
    schema.attributes.iter().any(|a| a.name == name)
}

fn attribute<'a>(schema: &'a Schema, name: &str) -> &'a proxmox::schema::AttributeSchema {
    schema.attributes.iter().find(|a| a.name == name).expect("attribute declared")
}

#[test]
fn resource_creates_realm_successfully() {
    let _resource = RealmResource::new(create_test_client("http://127.0.0.1:8006"));
    let config = create_test_config();
    assert!(RealmResource::realm_config(&config).is_ok());
    let result = outcome_of(200, r#"{"data":null}"#);
    let (state, errors) = RealmResource::create_finish(&config, &result);
    assert!(errors.is_empty());
    assert_eq!(written_text(&state, "realm").as_deref(), Some("test-realm"));
}

#[test]
fn resource_handles_creation_failure() {
    let config = create_test_config();
    let result = outcome_of(400, r#"{"errors":{"realm":"domain 'test-realm' already exists"}}"#);
    let (_, errors) = RealmResource::create_finish(&config, &result);
    assert!(!errors.is_empty());
}

#[test]
fn resource_reads_existing_realm() {
    let info = RealmInfo {
        realm_type: "openid".to_string(),
        issuer_url: "https://auth.example.com".to_string(),
        client_id: "test-client".to_string(),
        username_claim: Some("email".to_string()),
        autocreate: Some(1),
        default: Some(0),
        comment: None,
        groups_overwrite: None,
        groups_autocreate: None,
    };
    let state = RealmResource::read_finish("test-realm", &state_with_realm(), &Ok(Some(info)));
    let state = state.expect("the realm is kept");
    assert_eq!(written_text(&state, "username_claim").as_deref(), Some("email"));
    assert_eq!(written_flag(&state, "autocreate"), Some(true));
}

#[test]
fn resource_handles_read_not_found() {
    let result = outcome_of(500, r#"{"errors":{"realm":"domain 'test-realm' does not exist"}}"#)
        .map(|_| None::<RealmInfo>);
    let state = RealmResource::read_finish("test-realm", &state_with_realm(), &result);
    assert!(state.is_none());
}

#[test]
fn resource_deletes_realm() {
    let errors = RealmResource::delete_finish(&outcome_of(200, r#"{"data":null}"#));
    assert!(errors.is_empty());
}

#[test]
fn resource_has_correct_schema() {
    let resource = RealmResource::new(create_test_client("http://test"));
    let schema = resource.schema();
    assert!(has_attribute(&schema, "realm"));
    assert!(attribute(&schema, "realm").required);
    assert!(has_attribute(&schema, "type"));
    assert!(attribute(&schema, "type").required);
    assert!(has_attribute(&schema, "issuer_url"));
    assert!(attribute(&schema, "issuer_url").required);
    assert!(has_attribute(&schema, "client_id"));
    assert!(attribute(&schema, "client_id").required);
    assert!(has_attribute(&schema, "client_key"));
    assert!(attribute(&schema, "client_key").required);
    assert!(attribute(&schema, "client_key").sensitive);
    assert!(has_attribute(&schema, "username_claim"));
    assert!(attribute(&schema, "username_claim").optional);
    assert!(has_attribute(&schema, "autocreate"));
    assert!(attribute(&schema, "autocreate").optional);
    assert!(has_attribute(&schema, "default"));
    assert!(attribute(&schema, "default").optional);
    assert!(has_attribute(&schema, "comment"));
    assert!(attribute(&schema, "comment").optional);
}

#[test]
fn data_source_returns_version_successfully() {
    let _data_source = VersionDataSource::new(create_test_client("http://127.0.0.1:8006"));
    let info = VersionInfo { version: "8.0.0".to_string(), release: "8.0".to_string(), repoid: "abc123".to_string() };
    let (state, errors) = VersionDataSource::read_finish(Ok(info));
    assert!(errors.is_empty());
    assert!(state.is_some());
    let state = state.unwrap();
    assert_eq!(written_text(&state, "version").as_deref(), Some("8.0.0"));
}

#[test]
fn data_source_handles_api_failure() {
    let result = outcome_of(500, r#"{"errors":{"error":"Internal server error"}}"#);
    let result = result.map(|_| VersionInfo { version: String::new(), release: String::new(), repoid: String::new() });
    assert!(result.is_err());
    let (state, errors) = VersionDataSource::read_finish(result);
    assert!(!errors.is_empty());
    assert!(state.is_none());
}

#[test]
fn data_source_schema_has_correct_attributes() {
    let data_source = VersionDataSource::new(create_test_client("http://test"));
    let schema = data_source.schema();
    assert!(has_attribute(&schema, "id"));
    assert!(has_attribute(&schema, "version"));
    assert!(has_attribute(&schema, "release"));
    assert!(has_attribute(&schema, "repoid"));
}

#[test]
fn a_realm_write_without_a_required_attribute_sends_nothing() {
    let mut config = create_test_config();
    config.client_key = None;
    match RealmResource::write_start(&config) {
        RealmWriteStep::Finish { state, errors } => {
            assert!(state.is_empty());
            assert_eq!(errors, vec!["client_key is required".to_string()]);
        }
        _ => panic!("nothing is sent"),
    }
    let mut config = create_test_config();
    config.realm = None;
    config.realm_type = None;
    match RealmResource::write_start(&config) {
        RealmWriteStep::Finish { state, errors } => {
            assert!(state.is_empty());
            assert_eq!(errors, vec!["realm is required".to_string()]);
        }
        _ => panic!("nothing is sent"),
    }
    match RealmResource::write_start(&create_test_config()) {
        RealmWriteStep::Send(c) => {
            assert_eq!(c.realm, "test-realm");
            assert_eq!(c.realm_type, "openid");
        }
        _ => panic!("a complete configuration is sent"),
    }
}
