//! The `proxmox_realm` resource: an authentication realm.
use vstd::prelude::*;
use vstd::string::*;
use crate::text::{chars_of, clone_opt, contains_str, eq_str, opt_view};
use crate::values::{AttrValue, Diagnostic, Severity, diag_view, diag_views, flag_of, flag_view, text_of, text_view};
use crate::api::access::realms::{CreateRealmRequest, RealmConfig, UpdateRealmRequest};
use crate::api::error::{ApiError, api_error_text};
use crate::provider::ProxmoxProviderData;
use crate::schema::{
    AttributeSchema, AttributeType, AttributeView, BlockView, Schema, SchemaView, attr_spec, attribute,
    attribute_views, push_attribute,
};
use crate::resources::nodes::vm_lifecycle::{ProviderDataArg, ReadState, api_error_detail, not_configured};
use crate::resources::nodes::vm_state::{StateValue, StateValueView, StateWrite, api_write, push_write, writes_view};

verus! {

/// The `proxmox_realm` resource.
pub struct RealmResource {
    /// What the provider handed over when it configured the resource.
    pub provider_data: Option<ProxmoxProviderData>,
}

/// A configuration or state of the realm resource: each attribute it
/// holds, `None` for one it does not.
pub struct RealmAttrs {
    pub realm: Option<AttrValue>,
    pub realm_type: Option<AttrValue>,
    pub comment: Option<AttrValue>,
    pub default: Option<AttrValue>,
    pub issuer_url: Option<AttrValue>,
    pub client_id: Option<AttrValue>,
    pub client_key: Option<AttrValue>,
    pub username_claim: Option<AttrValue>,
    pub autocreate: Option<AttrValue>,
    pub groups_overwrite: Option<AttrValue>,
    pub groups_autocreate: Option<AttrValue>,
}

/// The realm configuration read from the resource's configuration, with
/// each optional setting as configured.
pub open spec fn realm_config_spec(r: RealmConfig, c: RealmAttrs) -> bool {
    &&& Some(r.realm@) == text_view(c.realm)
    &&& Some(r.realm_type@) == text_view(c.realm_type)
    &&& opt_view(r.comment) == text_view(c.comment)
    &&& r.default == flag_view(c.default)
    &&& opt_view(r.issuer_url) == text_view(c.issuer_url)
    &&& opt_view(r.client_id) == text_view(c.client_id)
    &&& opt_view(r.client_key) == text_view(c.client_key)
    &&& opt_view(r.username_claim) == text_view(c.username_claim)
    &&& r.autocreate == flag_view(c.autocreate)
    &&& r.groups_overwrite == flag_view(c.groups_overwrite)
    &&& r.groups_autocreate == flag_view(c.groups_autocreate)
}

/// The error for a configuration without `realm`, else without `type`.
pub open spec fn realm_config_error(c: RealmAttrs) -> (Severity, Seq<char>, Seq<char>) {
    if text_view(c.realm) is None {
        (Severity::Error, "Missing realm"@, "The 'realm' attribute is required"@)
    } else {
        (Severity::Error, "Missing type"@, "The 'type' attribute is required"@)
    }
}

/// The realm types the resource accepts.
pub open spec fn valid_realm_type(t: Seq<char>) -> bool {
    t == "openid"@ || t == "ldap"@ || t == "ad"@ || t == "pam"@ || t == "pve"@
}

/// The writes that refresh a realm's state from its configuration in
/// Proxmox: its type, and each other setting Proxmox returned.
pub open spec fn realm_refresh_writes(r: RealmConfig) -> Seq<(Seq<char>, StateValueView)> {
    seq![("type"@, StateValueView::Text(r.realm_type@))] + api_write(
        "comment"@,
        text_opt(r.comment),
    ) + api_write("default"@, flag_opt(r.default)) + api_write("issuer_url"@, text_opt(r.issuer_url))
        + api_write("client_id"@, text_opt(r.client_id)) + api_write(
        "username_claim"@,
        text_opt(r.username_claim),
    ) + api_write("autocreate"@, flag_opt(r.autocreate)) + api_write(
        "groups_overwrite"@,
        flag_opt(r.groups_overwrite),
    ) + api_write("groups_autocreate"@, flag_opt(r.groups_autocreate))
}

/// An optional string as a written value.
pub open spec fn text_opt(o: Option<String>) -> Option<StateValueView> {
    match o {
        Some(s) => Some(StateValueView::Text(s@)),
        None => None,
    }
}

/// An optional flag as a written value.
pub open spec fn flag_opt(o: Option<bool>) -> Option<StateValueView> {
    match o {
        Some(b) => Some(StateValueView::Flag(b)),
        None => None,
    }
}

/// How a realm operation that may call the API begins: finish at once, or
/// call it with the realm configuration.
pub enum RealmStep {
    Finish(RealmOutcome),
    Send(RealmConfig),
}

/// Which state a realm operation leaves: the planned one or the prior one.
#[derive(Clone, Copy, PartialEq, Eq, Structural)]
pub enum RealmStateChoice {
    Planned,
    Prior,
}

/// How a realm create or update ends.
pub struct RealmOutcome {
    pub new_state: RealmStateChoice,
    pub diagnostics: Vec<Diagnostic>,
}

/// A read of a realm: finish, or fetch realm `realm`.
pub enum RealmReadStep {
    Finish(RealmReadOutcome),
    Fetch(String),
}

/// How a realm read ends.
pub struct RealmReadOutcome {
    pub new_state: ReadState,
    pub diagnostics: Vec<Diagnostic>,
}

/// The attributes of the `proxmox_realm` resource.
pub open spec fn realm_attributes() -> Seq<AttributeView> {
    seq![
        attr_spec("realm"@, AttributeType::String, "The realm identifier"@, true, false, false, false, None),
        attr_spec("type"@, AttributeType::String, "The authentication type (e.g., openid, ldap, ad, pam, pve)"@, true, false, false, false, None),
        attr_spec("issuer_url"@, AttributeType::String, "OpenID Connect issuer URL"@, false, true, false, false, None),
        attr_spec("client_id"@, AttributeType::String, "OpenID Connect client ID"@, false, true, false, false, None),
        attr_spec("client_key"@, AttributeType::String, "OpenID Connect client secret"@, false, true, false, true, None),
        attr_spec("username_claim"@, AttributeType::String, "OpenID claim used to generate the unique username"@, false, true, false, false, None),
        attr_spec("autocreate"@, AttributeType::Bool, "Automatically create users if they do not exist"@, false, true, false, false, None),
        attr_spec("default"@, AttributeType::Bool, "Use this as the default realm"@, false, true, false, false, None),
        attr_spec("comment"@, AttributeType::String, "Description of the realm"@, false, true, false, false, None),
        attr_spec("groups_overwrite"@, AttributeType::Bool, "Overwrite existing groups on login"@, false, true, false, false, None),
        attr_spec("groups_autocreate"@, AttributeType::Bool, "Automatically create groups that do not exist"@, false, true, false, false, None),
    ]
}

fn realm_attribute_list() -> (r: Vec<AttributeSchema>)
    ensures
        attribute_views(r@) == realm_attributes(),
{
    let mut v: Vec<AttributeSchema> = Vec::new();
    assert(attribute_views(v@) =~= Seq::<AttributeView>::empty());
    push_attribute(&mut v, attribute("realm", AttributeType::String, "The realm identifier", true, false, false, false, None));
    push_attribute(&mut v, attribute("type", AttributeType::String, "The authentication type (e.g., openid, ldap, ad, pam, pve)", true, false, false, false, None));
    push_attribute(&mut v, attribute("issuer_url", AttributeType::String, "OpenID Connect issuer URL", false, true, false, false, None));
    push_attribute(&mut v, attribute("client_id", AttributeType::String, "OpenID Connect client ID", false, true, false, false, None));
    push_attribute(&mut v, attribute("client_key", AttributeType::String, "OpenID Connect client secret", false, true, false, true, None));
    push_attribute(&mut v, attribute("username_claim", AttributeType::String, "OpenID claim used to generate the unique username", false, true, false, false, None));
    push_attribute(&mut v, attribute("autocreate", AttributeType::Bool, "Automatically create users if they do not exist", false, true, false, false, None));
    push_attribute(&mut v, attribute("default", AttributeType::Bool, "Use this as the default realm", false, true, false, false, None));
    push_attribute(&mut v, attribute("comment", AttributeType::String, "Description of the realm", false, true, false, false, None));
    push_attribute(&mut v, attribute("groups_overwrite", AttributeType::Bool, "Overwrite existing groups on login", false, true, false, false, None));
    push_attribute(&mut v, attribute("groups_autocreate", AttributeType::Bool, "Automatically create groups that do not exist", false, true, false, false, None));
    v
}

/// The schema of the `proxmox_realm` resource.
pub open spec fn realm_schema() -> SchemaView {
    SchemaView {
        version: 0,
        description: "Manages authentication realms in Proxmox VE"@,
        attributes: realm_attributes(),
        blocks: Seq::<BlockView>::empty(),
    }
}


/// Appends a write of a string, when there is one.
fn push_opt_text(state: &mut Vec<StateWrite>, name: &str, o: &Option<String>)
    ensures
        writes_view(final(state)@) == writes_view(old(state)@) + api_write(name@, text_opt(*o)),
{
    match o {
        Some(s) => push_write(state, name, StateValue::Text(s.clone())),
        None => {},
    }
    assert(writes_view(state@) =~= writes_view(old(state)@) + api_write(name@, text_opt(*o)));
}

/// Appends a write of a flag, when there is one.
fn push_opt_flag(state: &mut Vec<StateWrite>, name: &str, o: Option<bool>)
    ensures
        writes_view(final(state)@) == writes_view(old(state)@) + api_write(name@, flag_opt(o)),
{
    match o {
        Some(b) => push_write(state, name, StateValue::Flag(b)),
        None => {},
    }
    assert(writes_view(state@) =~= writes_view(old(state)@) + api_write(name@, flag_opt(o)));
}

/// One error diagnostic.
fn single_error(summary: &str, detail: &str) -> (r: Vec<Diagnostic>)
    ensures
        diag_views(r@) == seq![(Severity::Error, summary@, detail@)],
{
    let mut d: Vec<Diagnostic> = Vec::new();
    d.push(Diagnostic::error(summary, detail));
    assert(diag_views(d@) =~= seq![(Severity::Error, summary@, detail@)]);
    d
}

/// One error whose detail is `API error: ` and the error's text.
fn api_error_diags(summary: &str, e: &ApiError) -> (r: Vec<Diagnostic>)
    ensures
        diag_views(r@) == seq![(Severity::Error, summary@, "API error: "@ + api_error_text(*e))],
{
    let mut d: Vec<Diagnostic> = Vec::new();
    d.push(Diagnostic { severity: Severity::Error, summary: String::from_str(summary), detail: api_error_detail("API error: ", e) });
    assert(diag_views(d@) =~= seq![(Severity::Error, summary@, "API error: "@ + api_error_text(*e))]);
    d
}

impl RealmResource {
    /// A resource that has not been configured yet.
    pub fn new() -> (r: Self)
        ensures
            r.provider_data is None,
    {
        RealmResource { provider_data: None }
    }

    /// The resource's type name.
    pub fn resource_type_name(&self) -> (r: &'static str)
        ensures
            r@ == "proxmox_realm"@,
    {
        "proxmox_realm"
    }

    /// The resource's schema.
    pub fn schema(&self) -> (r: Schema)
        ensures
            r@ == realm_schema(),
    {
        let r = Schema {
            version: 0,
            description: String::from_str("Manages authentication realms in Proxmox VE"),
            attributes: realm_attribute_list(),
            blocks: Vec::new(),
        };
        assert(crate::schema::block_views(r.blocks@) =~= Seq::<BlockView>::empty());
        r
    }

    /// Takes the provider's data: an error when none or other data is
    /// handed over, which leaves the resource as it was.
    pub fn configure(&mut self, data: ProviderDataArg) -> (r: Vec<Diagnostic>)
        ensures
            match data {
                ProviderDataArg::Missing => diag_views(r@) == seq![
                    (Severity::Error, "No provider data"@, "No provider data was provided to the resource"@),
                ] && final(self).provider_data == old(self).provider_data,
                ProviderDataArg::Foreign => diag_views(r@) == seq![
                    (
                        Severity::Error,
                        "Invalid provider data"@,
                        "Failed to extract ProxmoxProviderData from provider data"@,
                    ),
                ] && final(self).provider_data == old(self).provider_data,
                ProviderDataArg::Proxmox(d) => r@.len() == 0 && final(self).provider_data == Some(d),
            },
    {
        match data {
            ProviderDataArg::Missing => single_error("No provider data", "No provider data was provided to the resource"),
            ProviderDataArg::Foreign => single_error(
                "Invalid provider data",
                "Failed to extract ProxmoxProviderData from provider data",
            ),
            ProviderDataArg::Proxmox(d) => {
                self.provider_data = Some(d);
                Vec::new()
            },
        }
    }

    /// An error when the configured `type` is not one of `openid`, `ldap`,
    /// `ad`, `pam` and `pve`.
    pub fn validate(&self, config: &RealmAttrs) -> (r: Vec<Diagnostic>)
        ensures
            diag_views(r@) == match text_view(config.realm_type) {
                Some(t) => if valid_realm_type(t) {
                    Seq::empty()
                } else {
                    seq![
                        (
                            Severity::Error,
                            "Invalid realm type"@,
                            "Realm type must be one of: [\"openid\", \"ldap\", \"ad\", \"pam\", \"pve\"]"@,
                        ),
                    ]
                },
                None => Seq::empty(),
            },
    {
        match text_of(&config.realm_type) {
            Some(t) => {
                let tc = chars_of(t.as_str());
                if eq_str(&tc, "openid") || eq_str(&tc, "ldap") || eq_str(&tc, "ad") || eq_str(&tc, "pam")
                    || eq_str(&tc, "pve") {
                    let r: Vec<Diagnostic> = Vec::new();
                    assert(diag_views(r@) =~= Seq::empty());
                    r
                } else {
                    single_error(
                        "Invalid realm type",
                        "Realm type must be one of: [\"openid\", \"ldap\", \"ad\", \"pam\", \"pve\"]",
                    )
                }
            },
            None => {
                let r: Vec<Diagnostic> = Vec::new();
                assert(diag_views(r@) =~= Seq::empty());
                r
            },
        }
    }

    /// The realm configuration of a resource configuration; an error when it
    /// lacks `realm` or `type`, in that order.
    pub fn extract_realm_config(&self, config: &RealmAttrs) -> (r: Result<RealmConfig, Diagnostic>)
        ensures
            text_view(config.realm) is Some && text_view(config.realm_type) is Some ==> (r matches Ok(
                c,
            ) && realm_config_spec(c, *config)),
            text_view(config.realm) is None || text_view(config.realm_type) is None ==> (r matches Err(
                d,
            ) && diag_view(d) == realm_config_error(*config)),
    {
        let realm = match text_of(&config.realm) {
            Some(r) => r,
            None => {
                return Err(Diagnostic::error("Missing realm", "The 'realm' attribute is required"));
            },
        };
        let realm_type = match text_of(&config.realm_type) {
            Some(t) => t,
            None => {
                return Err(Diagnostic::error("Missing type", "The 'type' attribute is required"));
            },
        };
        Ok(
            RealmConfig {
                realm,
                realm_type,
                comment: text_of(&config.comment),
                default: flag_of(&config.default),
                issuer_url: text_of(&config.issuer_url),
                client_id: text_of(&config.client_id),
                client_key: text_of(&config.client_key),
                username_claim: text_of(&config.username_claim),
                autocreate: flag_of(&config.autocreate),
                groups_overwrite: flag_of(&config.groups_overwrite),
                groups_autocreate: flag_of(&config.groups_autocreate),
            },
        )
    }

    /// The first step of a create or an update: an error keeping the planned
    /// state when the resource is not configured; the configuration's error
    /// (keeping the planned state on create, the prior one on update); else
    /// the realm configuration to send.
    pub fn write_start(&self, config: &RealmAttrs, on_error: RealmStateChoice) -> (r: RealmStep)
        ensures
            self.provider_data is None ==> (r matches RealmStep::Finish(o) && o.new_state
                == RealmStateChoice::Planned && diag_views(o.diagnostics@) == seq![not_configured()]),
            self.provider_data is Some && (text_view(config.realm) is None || text_view(
                config.realm_type,
            ) is None) ==> (r matches RealmStep::Finish(o) && o.new_state == on_error && diag_views(
                o.diagnostics@,
            ) == seq![realm_config_error(*config)]),
            self.provider_data is Some && text_view(config.realm) is Some && text_view(
                config.realm_type,
            ) is Some ==> (r matches RealmStep::Send(c) && realm_config_spec(c, *config)),
    {
        if self.provider_data.is_none() {
            return RealmStep::Finish(
                RealmOutcome {
                    new_state: RealmStateChoice::Planned,
                    diagnostics: single_error("Provider not configured", "Provider data was not properly configured"),
                },
            );
        }
        match self.extract_realm_config(config) {
            Ok(c) => RealmStep::Send(c),
            Err(d) => {
                let mut diagnostics: Vec<Diagnostic> = Vec::new();
                diagnostics.push(d);
                assert(diag_views(diagnostics@) =~= seq![realm_config_error(*config)]);
                RealmStep::Finish(RealmOutcome { new_state: on_error, diagnostics })
            },
        }
    }

    /// The creation body of a realm configuration.
    pub fn create_request(config: &RealmConfig) -> (r: CreateRealmRequest)
        ensures
            r.realm@ == config.realm@,
            r.realm_type@ == config.realm_type@,
            opt_view(r.comment) == opt_view(config.comment),
            r.default == config.default,
            opt_view(r.issuer_url) == opt_view(config.issuer_url),
            opt_view(r.client_id) == opt_view(config.client_id),
            opt_view(r.client_key) == opt_view(config.client_key),
            opt_view(r.username_claim) == opt_view(config.username_claim),
            r.autocreate == config.autocreate,
            r.groups_overwrite == config.groups_overwrite,
            r.groups_autocreate == config.groups_autocreate,
    {
        CreateRealmRequest::from_config(config)
    }

    /// The update body of a realm configuration.
    pub fn update_request(config: &RealmConfig) -> (r: UpdateRealmRequest)
        ensures
            r.realm_type@ == config.realm_type@,
            opt_view(r.comment) == opt_view(config.comment),
            r.default == config.default,
            opt_view(r.issuer_url) == opt_view(config.issuer_url),
            opt_view(r.client_id) == opt_view(config.client_id),
            opt_view(r.client_key) == opt_view(config.client_key),
            opt_view(r.username_claim) == opt_view(config.username_claim),
            r.autocreate == config.autocreate,
            r.groups_overwrite == config.groups_overwrite,
            r.groups_autocreate == config.groups_autocreate,
    {
        UpdateRealmRequest::from_config(config)
    }

    /// After the create request: the planned state either way, with an error
    /// when it failed.
    pub fn create_finish(result: &Result<(), ApiError>) -> (r: RealmOutcome)
        ensures
            r.new_state == RealmStateChoice::Planned,
            match result {
                Ok(_) => r.diagnostics@.len() == 0,
                Err(e) => diag_views(r.diagnostics@) == seq![
                    (Severity::Error, "Failed to create realm"@, "API error: "@ + api_error_text(*e)),
                ],
            },
    {
        match result {
            Ok(_) => RealmOutcome { new_state: RealmStateChoice::Planned, diagnostics: Vec::new() },
            Err(e) => RealmOutcome {
                new_state: RealmStateChoice::Planned,
                diagnostics: api_error_diags("Failed to create realm", e),
            },
        }
    }

    /// After the update request: the planned state on success; an error and
    /// the prior state on failure.
    pub fn update_finish(result: &Result<(), ApiError>) -> (r: RealmOutcome)
        ensures
            match result {
                Ok(_) => r.new_state == RealmStateChoice::Planned && r.diagnostics@.len() == 0,
                Err(e) => r.new_state == RealmStateChoice::Prior && diag_views(r.diagnostics@) == seq![
                    (Severity::Error, "Failed to update realm"@, "API error: "@ + api_error_text(*e)),
                ],
            },
    {
        match result {
            Ok(_) => RealmOutcome { new_state: RealmStateChoice::Planned, diagnostics: Vec::new() },
            Err(e) => RealmOutcome {
                new_state: RealmStateChoice::Prior,
                diagnostics: api_error_diags("Failed to update realm", e),
            },
        }
    }

    /// The first step of a read: the resource is gone when the state has no
    /// `realm`; an error keeping the state when the resource is not
    /// configured; else fetch the realm.
    pub fn read_start(&self, current_state: &RealmAttrs) -> (r: RealmReadStep)
        ensures
            text_view(current_state.realm) is None ==> (r matches RealmReadStep::Finish(o)
                && o.new_state is Removed && o.diagnostics@.len() == 0),
            text_view(current_state.realm) is Some && self.provider_data is None ==> (r matches RealmReadStep::Finish(
                o,
            ) && o.new_state is Current && diag_views(o.diagnostics@) == seq![not_configured()]),
            text_view(current_state.realm) is Some && self.provider_data is Some ==> (r matches RealmReadStep::Fetch(
                name,
            ) && Some(name@) == text_view(current_state.realm)),
    {
        let realm = match text_of(&current_state.realm) {
            Some(r) => r,
            None => {
                return RealmReadStep::Finish(
                    RealmReadOutcome { new_state: ReadState::Removed, diagnostics: Vec::new() },
                );
            },
        };
        if self.provider_data.is_none() {
            return RealmReadStep::Finish(
                RealmReadOutcome {
                    new_state: ReadState::Current,
                    diagnostics: single_error("Provider not configured", "Provider data was not properly configured"),
                },
            );
        }
        RealmReadStep::Fetch(realm)
    }

    /// After fetching the realm: refresh the state from what Proxmox
    /// returned; the resource is gone when Proxmox says the realm does not
    /// exist; else an error keeping the state.
    pub fn read_finish(result: &Result<RealmConfig, ApiError>) -> (r: RealmReadOutcome)
        ensures
            match result {
                Ok(c) => r.new_state matches ReadState::Refreshed(w) && writes_view(w@)
                    == realm_refresh_writes(*c) && r.diagnostics@.len() == 0,
                Err(e) => if e matches ApiError::ApiError { message, .. } && crate::text::contains_seq(
                    message@,
                    "does not exist"@,
                ) {
                    r.new_state is Removed && r.diagnostics@.len() == 0
                } else {
                    r.new_state is Current && diag_views(r.diagnostics@) == seq![
                        (Severity::Error, "Failed to read realm"@, "API error: "@ + api_error_text(*e)),
                    ]
                },
            },
    {
        match result {
            Ok(c) => {
                let mut w: Vec<StateWrite> = Vec::new();
                push_write(&mut w, "type", StateValue::Text(c.realm_type.clone()));
                let ghost head = writes_view(w@);
                assert(head =~= seq![("type"@, StateValueView::Text(c.realm_type@))]);
                push_opt_text(&mut w, "comment", &c.comment);
                push_opt_flag(&mut w, "default", c.default);
                push_opt_text(&mut w, "issuer_url", &c.issuer_url);
                push_opt_text(&mut w, "client_id", &c.client_id);
                push_opt_text(&mut w, "username_claim", &c.username_claim);
                push_opt_flag(&mut w, "autocreate", c.autocreate);
                push_opt_flag(&mut w, "groups_overwrite", c.groups_overwrite);
                push_opt_flag(&mut w, "groups_autocreate", c.groups_autocreate);
                assert(writes_view(w@) =~= realm_refresh_writes(*c));
                RealmReadOutcome { new_state: ReadState::Refreshed(w), diagnostics: Vec::new() }
            },
            Err(e) => {
                let gone = match e {
                    ApiError::ApiError { message, .. } => {
                        let m = chars_of(message.as_str());
                        contains_str(&m, "does not exist")
                    },
                    _ => false,
                };
                if gone {
                    RealmReadOutcome { new_state: ReadState::Removed, diagnostics: Vec::new() }
                } else {
                    RealmReadOutcome { new_state: ReadState::Current, diagnostics: api_error_diags("Failed to read realm", e) }
                }
            },
        }
    }

    /// The realm a delete removes: none (and nothing to do) when the resource
    /// is not configured or the prior state has no `realm`.
    pub fn delete_target(&self, prior_state: &RealmAttrs) -> (r: Option<String>)
        ensures
            match r {
                Some(name) => self.provider_data is Some && Some(name@) == text_view(prior_state.realm),
                None => self.provider_data is None || text_view(prior_state.realm) is None,
            },
    {
        if self.provider_data.is_none() {
            return None;
        }
        text_of(&prior_state.realm)
    }

    /// After the delete request: an error when it failed.
    pub fn delete_finish(result: &Result<(), ApiError>) -> (r: Vec<Diagnostic>)
        ensures
            match result {
                Ok(_) => r@.len() == 0,
                Err(e) => diag_views(r@) == seq![
                    (Severity::Error, "Failed to delete realm"@, "API error: "@ + api_error_text(*e)),
                ],
            },
    {
        match result {
            Ok(_) => Vec::new(),
            Err(e) => api_error_diags("Failed to delete realm", e),
        }
    }
}

} // verus!
