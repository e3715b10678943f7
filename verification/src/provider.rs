//! The provider: its schema, how its configuration is checked and resolved,
//! and what it hands to resources and data sources.
use vstd::prelude::*;
use vstd::string::*;
use crate::text::{chars_of, contains_str, has_char, starts_with_seq, starts_with_str};
use crate::values::{AttrValue, Diagnostic, Severity, diag_view, diag_views, flag_of, flag_view, text_of, text_view};
use crate::api::client::ClientSettings;
use crate::api::error::{ApiError, api_error_text};
use crate::schema::{
    AttributeSchema, AttributeType, AttributeView, BlockView, Schema, SchemaView, attr_spec, attribute,
    attribute_views, push_attribute,
};

verus! {

/// What a configured provider hands to its resources and data sources: the
/// settings of the API client.
pub struct ProxmoxProviderData {
    pub client: ClientSettings,
}

impl Clone for ProxmoxProviderData {
    fn clone(&self) -> (r: Self)
        ensures
            r == *self,
    {
        ProxmoxProviderData { client: self.client.clone() }
    }
}

impl ProxmoxProviderData {
    pub fn new(client: ClientSettings) -> (r: Self)
        ensures
            r.client == client,
    {
        ProxmoxProviderData { client }
    }
}

/// The provider's configuration: `endpoint`, `api_token` and `insecure`.
pub struct ProviderConfig {
    pub endpoint: Option<AttrValue>,
    pub api_token: Option<AttrValue>,
    pub insecure: Option<AttrValue>,
}

/// The environment variables the provider falls back on:
/// `PROXMOX_ENDPOINT`, `PROXMOX_API_TOKEN` and `PROXMOX_INSECURE`.
pub struct ProviderEnv {
    pub endpoint: Option<String>,
    pub api_token: Option<String>,
    pub insecure: Option<String>,
}

/// What the provider reports of itself.
pub struct ProviderMetadata {
    pub provider_name: String,
    pub plan_destroy: bool,
    pub get_provider_schema_optional: bool,
    pub move_resource_state: bool,
}

/// The first step of configuring the provider: fail with diagnostics, or
/// connect to `endpoint` with `api_token`.
pub enum ConfigureStep {
    Fail(Vec<Diagnostic>),
    Connect { endpoint: String, api_token: String, insecure: bool },
}

/// `s` in lower case, as std's `str::to_lowercase` writes it.
pub uninterp spec fn lowercase(s: Seq<char>) -> Seq<char>;

/// Calls std's `str::to_lowercase`; its result is named `lowercase`.
#[verifier::external_body]
fn to_lowercase(s: &str) -> (r: String)
    ensures
        r@ == lowercase(s@),
{
    s.to_lowercase()
}

/// A value from the configuration, else from the environment.
pub open spec fn config_or_env(c: Option<AttrValue>, env: Option<String>) -> Option<Seq<char>> {
    match text_view(c) {
        Some(s) => Some(s),
        None => match env {
            Some(e) => Some(e@),
            None => None,
        },
    }
}

/// Whether TLS verification is skipped: the configured flag, else whether
/// `PROXMOX_INSECURE` is `true` in any case, else not.
pub open spec fn insecure_of(c: Option<AttrValue>, env: Option<String>) -> bool {
    match flag_view(c) {
        Some(b) => b,
        None => match env {
            Some(e) => insecure_text(lowercase(e@)),
            None => false,
        },
    }
}

/// Whether the lower-cased `PROXMOX_INSECURE` value turns TLS checks off:
/// it is `true`.
pub open spec fn insecure_text(lowered: Seq<char>) -> bool {
    lowered == "true"@
}

/// Whether the lower-cased `PROXMOX_INSECURE` value turns TLS checks off.
pub fn insecure_from_env(lowered: &str) -> (r: bool)
    ensures
        r == insecure_text(lowered@),
{
    let lc = chars_of(lowered);
    crate::text::eq_str(&lc, "true")
}

/// The provider's attributes.
pub open spec fn provider_attributes() -> Seq<AttributeView> {
    seq![
        attr_spec("endpoint"@, AttributeType::String, "The API endpoint URL (e.g., https://proxmox.example.com:8006)"@, false, true, false, false, None),
        attr_spec("api_token"@, AttributeType::String, "API token for authentication (format: user@realm!tokenid=secret)"@, false, true, false, true, None),
        attr_spec("insecure"@, AttributeType::Bool, "Skip TLS certificate verification"@, false, true, false, false, None),
    ]
}

/// The provider's schema.
pub open spec fn provider_schema() -> SchemaView {
    SchemaView {
        version: 0,
        description: "Proxmox VE provider configuration"@,
        attributes: provider_attributes(),
        blocks: Seq::<BlockView>::empty(),
    }
}

/// The provider's configuration checks: an error for an endpoint that is
/// not `http://` or `https://`, a warning for a token without `!` or `=`.
pub open spec fn provider_validate_spec(c: ProviderConfig) -> Seq<(Severity, Seq<char>, Seq<char>)> {
    (match text_view(c.endpoint) {
        Some(e) => if !starts_with_seq(e, "http://"@) && !starts_with_seq(e, "https://"@) {
            seq![(Severity::Error, "Invalid endpoint"@, "The endpoint must start with http:// or https://"@)]
        } else {
            Seq::empty()
        },
        None => Seq::empty(),
    }) + (match text_view(c.api_token) {
        Some(t) => if !t.contains('!') || !t.contains('=') {
            seq![
                (
                    Severity::Warning,
                    "Invalid API token format"@,
                    "API token should be in format: user@realm!tokenid=secret"@,
                ),
            ]
        } else {
            Seq::empty()
        },
        None => Seq::empty(),
    })
}

/// A configuration value, else the environment's.
fn value_or_env(c: &Option<AttrValue>, env: &Option<String>) -> (r: Option<String>)
    ensures
        crate::text::opt_view(r) == config_or_env(*c, *env),
{
    match text_of(c) {
        Some(s) => Some(s),
        None => match env {
            Some(e) => Some(e.clone()),
            None => None,
        },
    }
}

/// The Proxmox provider.
pub struct ProxmoxProvider {
    /// The API client settings, once configured.
    pub client: Option<ClientSettings>,
}

impl ProxmoxProvider {
    /// A provider that has not been configured yet.
    pub fn new() -> (r: Self)
        ensures
            r.client is None,
    {
        ProxmoxProvider { client: None }
    }

    /// The provider's type name.
    pub fn provider_name(&self) -> (r: &'static str)
        ensures
            r@ == "proxmox"@,
    {
        "proxmox"
    }

    /// The provider's type name and capabilities: none of planned destroy,
    /// optional schema or moving resource state.
    pub fn metadata(&self) -> (r: ProviderMetadata)
        ensures
            r.provider_name@ == "proxmox"@,
            !r.plan_destroy,
            !r.get_provider_schema_optional,
            !r.move_resource_state,
    {
        ProviderMetadata {
            provider_name: String::from_str(self.provider_name()),
            plan_destroy: false,
            get_provider_schema_optional: false,
            move_resource_state: false,
        }
    }

    /// The provider's schema: `endpoint`, `api_token` (sensitive) and
    /// `insecure`, all optional.
    pub fn schema(&self) -> (r: Schema)
        ensures
            r@ == provider_schema(),
    {
        let mut v: Vec<AttributeSchema> = Vec::new();
        assert(attribute_views(v@) =~= Seq::<AttributeView>::empty());
        push_attribute(&mut v, attribute("endpoint", AttributeType::String, "The API endpoint URL (e.g., https://proxmox.example.com:8006)", false, true, false, false, None));
        push_attribute(&mut v, attribute("api_token", AttributeType::String, "API token for authentication (format: user@realm!tokenid=secret)", false, true, false, true, None));
        push_attribute(&mut v, attribute("insecure", AttributeType::Bool, "Skip TLS certificate verification", false, true, false, false, None));
        assert(attribute_views(v@) =~= provider_attributes());
        let r = Schema {
            version: 0,
            description: String::from_str("Proxmox VE provider configuration"),
            attributes: v,
            blocks: Vec::new(),
        };
        assert(crate::schema::block_views(r.blocks@) =~= Seq::<BlockView>::empty());
        r
    }

    /// The first step of configuring: the endpoint, token and TLS setting
    /// from the configuration, else from the environment; an error when no
    /// endpoint or, after it, no token is given.
    pub fn configure_start(&self, config: &ProviderConfig, env: &ProviderEnv) -> (r: ConfigureStep)
        ensures
            config_or_env(config.endpoint, env.endpoint) is None ==> (r matches ConfigureStep::Fail(d)
                && diag_views(d@) == seq![
                (
                    Severity::Error,
                    "Missing endpoint"@,
                    "The 'endpoint' configuration is required. Set it in the provider config or PROXMOX_ENDPOINT environment variable."@,
                ),
            ]),
            config_or_env(config.endpoint, env.endpoint) is Some && config_or_env(
                config.api_token,
                env.api_token,
            ) is None ==> (r matches ConfigureStep::Fail(d) && diag_views(d@) == seq![
                (
                    Severity::Error,
                    "Missing API token"@,
                    "The 'api_token' configuration is required. Set it in the provider config or PROXMOX_API_TOKEN environment variable."@,
                ),
            ]),
            config_or_env(config.endpoint, env.endpoint) is Some && config_or_env(
                config.api_token,
                env.api_token,
            ) is Some ==> (r matches ConfigureStep::Connect { endpoint, api_token, insecure }
                && Some(endpoint@) == config_or_env(config.endpoint, env.endpoint) && Some(
                api_token@,
            ) == config_or_env(config.api_token, env.api_token) && insecure == insecure_of(
                config.insecure,
                env.insecure,
            )),
    {
        let endpoint = value_or_env(&config.endpoint, &env.endpoint);
        let api_token = value_or_env(&config.api_token, &env.api_token);
        let insecure = match flag_of(&config.insecure) {
            Some(b) => b,
            None => match &env.insecure {
                Some(e) => {
                    let l = to_lowercase(e.as_str());
                    insecure_from_env(l.as_str())
                },
                None => false,
            },
        };
        let endpoint = match endpoint {
            Some(e) => e,
            None => {
                let mut d: Vec<Diagnostic> = Vec::new();
                d.push(Diagnostic::error(
                    "Missing endpoint",
                    "The 'endpoint' configuration is required. Set it in the provider config or PROXMOX_ENDPOINT environment variable.",
                ));
                assert(diag_views(d@) =~= seq![
                    (
                        Severity::Error,
                        "Missing endpoint"@,
                        "The 'endpoint' configuration is required. Set it in the provider config or PROXMOX_ENDPOINT environment variable."@,
                    ),
                ]);
                return ConfigureStep::Fail(d);
            },
        };
        let api_token = match api_token {
            Some(t) => t,
            None => {
                let mut d: Vec<Diagnostic> = Vec::new();
                d.push(Diagnostic::error(
                    "Missing API token",
                    "The 'api_token' configuration is required. Set it in the provider config or PROXMOX_API_TOKEN environment variable.",
                ));
                assert(diag_views(d@) =~= seq![
                    (
                        Severity::Error,
                        "Missing API token"@,
                        "The 'api_token' configuration is required. Set it in the provider config or PROXMOX_API_TOKEN environment variable."@,
                    ),
                ]);
                return ConfigureStep::Fail(d);
            },
        };
        ConfigureStep::Connect { endpoint, api_token, insecure }
    }

    /// After building the API client: keep its settings and hand them to
    /// resources; an error when the client could not be built.
    pub fn configure_finish(&mut self, result: Result<ClientSettings, ApiError>) -> (r: (
        Vec<Diagnostic>,
        Option<ProxmoxProviderData>,
    ))
        ensures
            match result {
                Ok(c) => r.0@.len() == 0 && r.1 == Some(ProxmoxProviderData { client: c })
                    && final(self).client == Some(c),
                Err(e) => diag_views(r.0@) == seq![
                    (Severity::Error, "Failed to create API client"@, "Error: "@ + api_error_text(e)),
                ] && r.1 is None && final(self).client == old(self).client,
            },
    {
        match result {
            Ok(c) => {
                let data = ProxmoxProviderData::new(c.clone());
                self.client = Some(c);
                (Vec::new(), Some(data))
            },
            Err(e) => {
                let mut d: Vec<Diagnostic> = Vec::new();
                d.push(
                    Diagnostic {
                        severity: Severity::Error,
                        summary: String::from_str("Failed to create API client"),
                        detail: crate::resources::nodes::vm_lifecycle::api_error_detail("Error: ", &e),
                    },
                );
                assert(diag_views(d@) =~= seq![
                    (Severity::Error, "Failed to create API client"@, "Error: "@ + api_error_text(e)),
                ]);
                (d, None)
            },
        }
    }

    /// Checks the provider's configuration.
    pub fn validate(&self, config: &ProviderConfig) -> (r: Vec<Diagnostic>)
        ensures
            diag_views(r@) == provider_validate_spec(*config),
    {
        let mut d: Vec<Diagnostic> = Vec::new();
        match text_of(&config.endpoint) {
            Some(e) => {
                let ec = chars_of(e.as_str());
                if !starts_with_str(&ec, "http://") && !starts_with_str(&ec, "https://") {
                    d.push(Diagnostic::error("Invalid endpoint", "The endpoint must start with http:// or https://"));
                }
            },
            None => {},
        }
        let ghost first = diag_views(d@);
        match text_of(&config.api_token) {
            Some(t) => {
                let tc = chars_of(t.as_str());
                if !has_char(&tc, '!') || !has_char(&tc, '=') {
                    d.push(Diagnostic::warning(
                        "Invalid API token format",
                        "API token should be in format: user@realm!tokenid=secret",
                    ));
                }
            },
            None => {},
        }
        assert(diag_views(d@) =~= provider_validate_spec(*config));
        d
    }

    /// The resource types the provider offers.
    pub fn resources(&self) -> (r: Vec<String>)
        ensures
            r@.len() == 2,
            r@[0]@ == "proxmox_realm"@,
            r@[1]@ == "proxmox_qemu_vm"@,
    {
        let mut v: Vec<String> = Vec::new();
        v.push(String::from_str("proxmox_realm"));
        v.push(String::from_str("proxmox_qemu_vm"));
        v
    }

    /// The data source types the provider offers.
    pub fn data_sources(&self) -> (r: Vec<String>)
        ensures
            r@.len() == 1,
            r@[0]@ == "proxmox_version"@,
    {
        let mut v: Vec<String> = Vec::new();
        v.push(String::from_str("proxmox_version"));
        v
    }
}

} // verus!
