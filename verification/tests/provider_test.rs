use proxmox::api::client::{AttemptOutcome, ClientSettings, RetryAction, RetryConfig, RetryState};
use proxmox::api::error::ApiError;
use proxmox::api::version::VersionInfo;
use proxmox::data_sources::data_source_version::VersionDataSource;
use proxmox::provider::{ConfigureStep, ProviderConfig, ProviderEnv, ProxmoxProvider, ProxmoxProviderData};
use proxmox::resources::access::resource_realm::{RealmAttrs, RealmReadStep, RealmResource, RealmStateChoice, RealmStep};
use proxmox::resources::nodes::vm_lifecycle::{ProviderDataArg, ReadState};
use proxmox::resources::nodes::vm_state::StateValue;
use proxmox::values::{AttrValue, Severity};

fn text(s: &str) -> Option<AttrValue> {
    Some(AttrValue::Text(s.to_string()))
}

fn settings() -> ClientSettings {
    ClientSettings::new("https://pve:8006", "root@pam!t=s", false, RetryConfig::default())
}

fn no_env() -> ProviderEnv {
    ProviderEnv { endpoint: None, api_token: None, insecure: None }
}

fn realm_attrs() -> RealmAttrs {
    RealmAttrs {
        realm: text("test-realm"),
        realm_type: text("openid"),
        comment: None,
        default: None,
        issuer_url: text("https://auth.example.com"),
        client_id: text("test-client"),
        client_key: text("test-secret"),
        username_claim: None,
        autocreate: Some(AttrValue::Bool(true)),
        groups_overwrite: None,
        groups_autocreate: None,
    }
}

#[test]
fn provider_names() {
    let p = ProxmoxProvider::new();
    assert_eq!(p.provider_name(), "proxmox");
    assert_eq!(p.metadata().provider_name, "proxmox");
    assert_eq!(p.resources(), vec!["proxmox_realm".to_string(), "proxmox_qemu_vm".to_string()]);
    assert_eq!(p.data_sources(), vec!["proxmox_version".to_string()]);
    let schema = p.schema();
    assert_eq!(schema.attributes.len(), 3);
    assert!(schema.attributes[1].sensitive);
}

#[test]
fn provider_configuration_from_config_and_environment() {
    let p = ProxmoxProvider::new();
    let config = ProviderConfig { endpoint: text("https://pve:8006"), api_token: text("a@pam!t=s"), insecure: None };
    let env = ProviderEnv { endpoint: Some("https://other".to_string()), api_token: None, insecure: Some("TRUE".to_string()) };
    match p.configure_start(&config, &env) {
        ConfigureStep::Connect { endpoint, api_token, insecure } => {
            assert_eq!(endpoint, "https://pve:8006");
            assert_eq!(api_token, "a@pam!t=s");
            assert!(insecure);
        }
        _ => panic!("expected to connect"),
    }
    let config = ProviderConfig { endpoint: None, api_token: None, insecure: Some(AttrValue::Bool(false)) };
    match p.configure_start(&config, &no_env()) {
        ConfigureStep::Fail(d) => assert_eq!(d[0].summary, "Missing endpoint"),
        _ => panic!("expected a missing endpoint"),
    }
    let env = ProviderEnv { endpoint: Some("https://e".to_string()), api_token: None, insecure: None };
    match p.configure_start(&config, &env) {
        ConfigureStep::Fail(d) => assert_eq!(d[0].summary, "Missing API token"),
        _ => panic!("expected a missing token"),
    }
}

#[test]
fn provider_configure_finish() {
    let mut p = ProxmoxProvider::new();
    let (d, data) = p.configure_finish(Err(ApiError::RequestError("tls".to_string())));
    assert_eq!(d[0].summary, "Failed to create API client");
    assert_eq!(d[0].detail, "Error: HTTP request failed: tls");
    assert!(data.is_none());
    let (d, data) = p.configure_finish(Ok(settings()));
    assert!(d.is_empty());
    assert_eq!(data.unwrap().client.base_url, "https://pve:8006");
    assert!(p.client.is_some());
}

#[test]
fn provider_validation_checks_endpoint_and_token() {
    let p = ProxmoxProvider::new();
    let config = ProviderConfig { endpoint: text("pve:8006"), api_token: text("no-separators"), insecure: None };
    let d = p.validate(&config);
    assert_eq!(d.len(), 2);
    assert!(d[0].severity == Severity::Error);
    assert_eq!(d[0].summary, "Invalid endpoint");
    assert!(d[1].severity == Severity::Warning);
    let config = ProviderConfig { endpoint: text("https://pve:8006"), api_token: text("a@pam!t=s"), insecure: None };
    assert!(p.validate(&config).is_empty());
}

#[test]
fn version_data_source_reads() {
    let mut ds = VersionDataSource::new();
    assert_eq!(ds.data_source_type_name(), "proxmox_version");
    let out = ds.read_start().unwrap();
    assert_eq!(out.diagnostics[0].summary, "Provider not configured");
    assert!(ds.configure(ProviderDataArg::Missing)[0].detail.contains("data source"));
    assert!(ds.configure(ProviderDataArg::Proxmox(ProxmoxProviderData::new(settings()))).is_empty());
    assert!(ds.read_start().is_none());
    let out = VersionDataSource::read_finish(Ok(VersionInfo {
        version: "7.4.1".to_string(),
        release: "7.4".to_string(),
        repoid: "12345".to_string(),
    }));
    let writes = out.writes.unwrap();
    assert_eq!(writes.len(), 4);
    match &writes[0].value {
        StateValue::Text(s) => assert_eq!(s, "proxmox-version"),
        _ => panic!("expected the id"),
    }
    let out = VersionDataSource::read_finish(Err(ApiError::AuthError));
    assert!(out.writes.is_none());
    assert_eq!(out.diagnostics[0].detail, "API error: Authentication failed");
}

#[test]
fn realm_resource_lifecycle_decisions() {
    let mut r = RealmResource::new();
    assert_eq!(r.resource_type_name(), "proxmox_realm");
    match r.write_start(&realm_attrs(), RealmStateChoice::Planned) {
        RealmStep::Finish(o) => assert_eq!(o.diagnostics[0].summary, "Provider not configured"),
        _ => panic!("not configured"),
    }
    assert!(r.configure(ProviderDataArg::Proxmox(ProxmoxProviderData::new(settings()))).is_empty());
    match r.write_start(&realm_attrs(), RealmStateChoice::Planned) {
        RealmStep::Send(c) => {
            assert_eq!(c.realm, "test-realm");
            assert_eq!(c.realm_type, "openid");
            assert_eq!(c.autocreate, Some(true));
            let req = RealmResource::create_request(&c);
            assert_eq!(req.issuer_url, Some("https://auth.example.com".to_string()));
        }
        _ => panic!("expected a request"),
    }
    let mut missing = realm_attrs();
    missing.realm_type = None;
    match r.write_start(&missing, RealmStateChoice::Prior) {
        RealmStep::Finish(o) => {
            assert!(o.new_state == RealmStateChoice::Prior);
            assert_eq!(o.diagnostics[0].summary, "Missing type");
        }
        _ => panic!("expected an error"),
    }
    match r.read_start(&realm_attrs()) {
        RealmReadStep::Fetch(name) => assert_eq!(name, "test-realm"),
        _ => panic!("expected a fetch"),
    }
    let gone = RealmResource::read_finish(&Err(ApiError::ApiError {
        status: 500,
        message: "domain 'x' does not exist".to_string(),
        details: None,
    }));
    assert!(matches!(gone.new_state, ReadState::Removed));
    let failed = RealmResource::delete_finish(&Err(ApiError::RateLimited));
    assert_eq!(failed[0].detail, "API error: Too many requests, rate limited");
}

#[test]
fn realm_validation() {
    let r = RealmResource::new();
    let mut a = realm_attrs();
    assert!(r.validate(&a).is_empty());
    a.realm_type = text("kerberos");
    let d = r.validate(&a);
    assert_eq!(d[0].summary, "Invalid realm type");
    assert_eq!(d[0].detail, "Realm type must be one of: [\"openid\", \"ldap\", \"ad\", \"pam\", \"pve\"]");
}


fn flag(b: bool) -> Option<AttrValue> {
    Some(AttrValue::Bool(b))
}

/// The provider configured against `endpoint` with `api_token`, and the
/// data it hands to resources and data sources.
fn configured_provider(endpoint: &str, api_token: &str, insecure: bool) -> (ProxmoxProvider, ProxmoxProviderData) {
    let mut provider = ProxmoxProvider::new();
    let config = ProviderConfig { endpoint: text(endpoint), api_token: text(api_token), insecure: flag(insecure) };
    let settings = match provider.configure_start(&config, &no_env()) {
        ConfigureStep::Connect { endpoint, api_token, insecure } => {
            ClientSettings::new(&endpoint, &api_token, insecure, RetryConfig::default())
        }
        ConfigureStep::Fail(d) => panic!("configuration failed: {}", d[0].summary),
    };
    let (d, data) = provider.configure_finish(Ok(settings));
    assert!(d.is_empty());
    (provider, data.expect("provider data is handed over"))
}

fn version_7_4_1() -> VersionInfo {
    VersionInfo { version: "7.4.1".to_string(), release: "7.4".to_string(), repoid: "12345".to_string() }
}

fn written_text(writes: &[proxmox::resources::nodes::vm_state::StateWrite], name: &str) -> Option<String> {
    writes.iter().rev().find(|w| w.name == name).and_then(|w| match &w.value {
        StateValue::Text(s) => Some(s.clone()),
        _ => None,
    })
}

#[test]
fn access_realm_test_provider_lifecycle_with_mock_server() {
    let (provider, data) = configured_provider("http://127.0.0.1:1234", "test@pve!test=secret123", true);
    assert_eq!(data.client.auth_header, "PVEAPIToken=test@pve!test=secret123");
    assert!(provider.data_sources().iter().any(|n| n == "proxmox_version"));
    let mut version_ds = VersionDataSource::new();
    assert!(version_ds.configure(ProviderDataArg::Proxmox(data)).is_empty());
    assert!(version_ds.read_start().is_none());
    let read = VersionDataSource::read_finish(Ok(version_7_4_1()));
    assert!(read.diagnostics.is_empty());
    let state = read.writes.expect("a state");
    assert_eq!(written_text(&state, "version").as_deref(), Some("7.4.1"));
    assert_eq!(written_text(&state, "release").as_deref(), Some("7.4"));
    assert_eq!(written_text(&state, "repoid").as_deref(), Some("12345"));
}

#[test]
fn access_realm_test_version_data_source_requires_configured_provider() {
    let provider = ProxmoxProvider::new();
    assert!(provider.data_sources().iter().any(|n| n == "proxmox_version"));
    let mut version_ds = VersionDataSource::new();
    let d = version_ds.configure(ProviderDataArg::Missing);
    assert!(!d.is_empty());
    assert!(d[0].summary.contains("No provider data"));
    let read = version_ds.read_start().expect("nothing to call");
    assert!(!read.diagnostics.is_empty());
    assert!(read.diagnostics[0].summary.contains("Provider not configured"));
}

#[test]
fn access_realm_test_realm_resource_lifecycle() {
    let (provider, data) = configured_provider("http://127.0.0.1:1234", "test@pve!test=secret123", true);
    assert!(provider.resources().iter().any(|n| n == "proxmox_realm"));
    let mut realm_resource = RealmResource::new();
    assert!(realm_resource.configure(ProviderDataArg::Proxmox(data.clone())).is_empty());
    let mut version_ds = VersionDataSource::new();
    assert!(version_ds.configure(ProviderDataArg::Proxmox(data)).is_empty());
    let read = VersionDataSource::read_finish(Ok(version_7_4_1()));
    assert!(read.diagnostics.is_empty());
}

#[test]
fn access_realm_test_handles_api_errors_gracefully() {
    let (_, data) = configured_provider("http://127.0.0.1:1234", "invalid-token", true);
    let mut version_ds = VersionDataSource::new();
    assert!(version_ds.configure(ProviderDataArg::Proxmox(data)).is_empty());
    let (mut state, _) = RetryState::start();
    let result = match state.on_outcome(&RetryConfig::default(), AttemptOutcome::Response { status: 401 }) {
        RetryAction::Fail(e) => Err(e),
        _ => panic!("a 401 ends the request"),
    };
    let read = VersionDataSource::read_finish(result);
    assert!(!read.diagnostics.is_empty());
    assert!(read.diagnostics[0].summary.contains("Failed to get version information"));
    assert!(read.writes.is_none());
}

#[test]
fn access_realm_test_provider_configuration_validation() {
    let provider = ProxmoxProvider::new();
    let config = ProviderConfig { endpoint: None, api_token: None, insecure: None };
    match provider.configure_start(&config, &no_env()) {
        ConfigureStep::Fail(d) => {
            assert!(!d.is_empty());
            assert!(d[0].summary.contains("Missing endpoint"));
        }
        _ => panic!("an endpoint is required"),
    }
}

#[test]
fn access_realm_test_respects_insecure_tls_setting() {
    let provider = ProxmoxProvider::new();
    let config = ProviderConfig {
        endpoint: text("http://127.0.0.1:1234"),
        api_token: text("test@pve!test=secret123"),
        insecure: flag(false),
    };
    match provider.configure_start(&config, &no_env()) {
        ConfigureStep::Connect { insecure, .. } => assert!(!insecure),
        _ => panic!("the configuration is complete"),
    }
    let (_, data) = configured_provider("http://127.0.0.1:1234", "test@pve!test=secret123", false);
    assert!(!data.client.insecure);
    let mut version_ds = VersionDataSource::new();
    assert!(version_ds.configure(ProviderDataArg::Proxmox(data)).is_empty());
    let read = VersionDataSource::read_finish(Ok(version_7_4_1()));
    assert!(read.diagnostics.is_empty());
    let state = read.writes.expect("a state");
    assert_eq!(written_text(&state, "version").as_deref(), Some("7.4.1"));
}

#[test]
fn access_realm_test_version_data_source_schema_is_correct() {
    let version_ds = VersionDataSource::new();
    let schema = version_ds.schema();
    let attribute_names: Vec<&str> = schema.attributes.iter().map(|a| a.name.as_str()).collect();
    assert!(attribute_names.contains(&"id"));
    assert!(attribute_names.contains(&"version"));
    assert!(attribute_names.contains(&"release"));
    assert!(attribute_names.contains(&"repoid"));
    for attr in &schema.attributes {
        assert!(attr.computed);
        assert!(!attr.required);
        assert!(!attr.optional);
    }
}

#[test]
fn insecure_environment_value_is_true_only() {
    assert!(proxmox::provider::insecure_from_env("true"));
    assert!(!proxmox::provider::insecure_from_env("yes"));
    assert!(!proxmox::provider::insecure_from_env(""));
    let p = ProxmoxProvider::new();
    let config = ProviderConfig { endpoint: text("https://pve:8006"), api_token: text("a@pam!t=s"), insecure: None };
    let env = ProviderEnv { endpoint: None, api_token: None, insecure: Some("True".to_string()) };
    match p.configure_start(&config, &env) {
        ConfigureStep::Connect { insecure, .. } => assert!(insecure),
        _ => panic!("the configuration is complete"),
    }
}
