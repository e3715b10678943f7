//! The realm resource of the provider's earlier plugin interface, which
//! holds its API client itself and reports errors as bare summaries.
use vstd::prelude::*;
use vstd::string::*;
use crate::text::{chars_of, push_str, string_of};
use crate::values::{AttrValue, attr_view, clone_attr, text_of, text_view};
use crate::api::access::realms::RealmConfig;
use crate::api::client::ClientSettings;
use crate::api::error::{ApiError, api_error_text};
use crate::schema::{
    AttributeSchema, AttributeType, AttributeView, BlockView, Schema, SchemaView, attr_spec, attribute,
    attribute_views, push_attribute,
};
use crate::resources::access::resource_realm::RealmAttrs;
use crate::resources::nodes::vm_state::{StateValue, StateValueView, StateWrite, push_write, writes_view};

verus! {

/// The realm resource, with its API client.
pub struct RealmResource {
    pub client: ClientSettings,
}

/// A realm as this interface's client returns it.
pub struct RealmInfo {
    pub realm_type: String,
    pub issuer_url: String,
    pub client_id: String,
    pub username_claim: Option<String>,
    pub autocreate: Option<i64>,
    pub default: Option<i64>,
    pub comment: Option<String>,
    pub groups_overwrite: Option<i64>,
    pub groups_autocreate: Option<i64>,
}

/// The resource's attributes, all described; the OpenID settings are
/// required.
pub open spec fn realm_v2_attributes() -> Seq<AttributeView> {
    seq![
        attr_spec("realm"@, AttributeType::String, "Realm/domain name"@, true, false, false, false, None),
        attr_spec("type"@, AttributeType::String, "Authentication type (e.g., 'openid')"@, true, false, false, false, None),
        attr_spec("issuer_url"@, AttributeType::String, "OpenID issuer URL"@, true, false, false, false, None),
        attr_spec("client_id"@, AttributeType::String, "OAuth/OpenID client ID"@, true, false, false, false, None),
        attr_spec("client_key"@, AttributeType::String, "OAuth/OpenID client secret"@, true, false, false, true, None),
        attr_spec("username_claim"@, AttributeType::String, "OpenID claim used as username"@, false, true, false, false, None),
        attr_spec("autocreate"@, AttributeType::Bool, "Automatically create users if they don't exist"@, false, true, false, false, None),
        attr_spec("default"@, AttributeType::Bool, "Set as default authentication realm"@, false, true, false, false, None),
        attr_spec("comment"@, AttributeType::String, "Description/comment for the realm"@, false, true, false, false, None),
        attr_spec("groups_overwrite"@, AttributeType::Bool, "Overwrite group membership from authentication provider"@, false, true, false, false, None),
        attr_spec("groups_autocreate"@, AttributeType::Bool, "Automatically create groups if they don't exist"@, false, true, false, false, None),
    ]
}

/// The resource's schema at `version`.
pub open spec fn realm_v2_schema(version: i64) -> SchemaView {
    SchemaView {
        version,
        description: Seq::empty(),
        attributes: realm_v2_attributes(),
        blocks: Seq::<BlockView>::empty(),
    }
}

/// The first required setting the configuration lacks, by its error.
pub open spec fn realm_v2_missing(c: RealmAttrs) -> Option<Seq<char>> {
    if text_view(c.realm) is None {
        Some("realm is required"@)
    } else if text_view(c.realm_type) is None {
        Some("type is required"@)
    } else if text_view(c.issuer_url) is None {
        Some("issuer_url is required"@)
    } else if text_view(c.client_id) is None {
        Some("client_id is required"@)
    } else if text_view(c.client_key) is None {
        Some("client_key is required"@)
    } else {
        None
    }
}

/// The realm configuration sent for a configuration with every required
/// setting.
pub open spec fn realm_v2_config(r: RealmConfig, c: RealmAttrs) -> bool {
    &&& Some(r.realm@) == text_view(c.realm)
    &&& Some(r.realm_type@) == text_view(c.realm_type)
    &&& crate::text::opt_view(r.issuer_url) == text_view(c.issuer_url)
    &&& crate::text::opt_view(r.client_id) == text_view(c.client_id)
    &&& crate::text::opt_view(r.client_key) == text_view(c.client_key)
    &&& crate::text::opt_view(r.username_claim) == text_view(c.username_claim)
    &&& r.autocreate == crate::values::flag_view(c.autocreate)
    &&& r.default == crate::values::flag_view(c.default)
    &&& r.groups_overwrite == crate::values::flag_view(c.groups_overwrite)
    &&& r.groups_autocreate == crate::values::flag_view(c.groups_autocreate)
    &&& crate::text::opt_view(r.comment) == text_view(c.comment)
}

/// A copy of an attribute the configuration holds.
pub open spec fn copy_write(name: Seq<char>, o: Option<AttrValue>) -> Seq<(Seq<char>, StateValueView)> {
    match o {
        Some(a) => seq![(name, StateValueView::Attr(attr_view(a)))],
        None => Seq::empty(),
    }
}

/// The optional settings of a configuration, copied as they are.
pub open spec fn optional_copies(c: RealmAttrs) -> Seq<(Seq<char>, StateValueView)> {
    copy_write("username_claim"@, c.username_claim) + copy_write("autocreate"@, c.autocreate)
        + copy_write("default"@, c.default) + copy_write("comment"@, c.comment) + copy_write(
        "groups_overwrite"@,
        c.groups_overwrite,
    ) + copy_write("groups_autocreate"@, c.groups_autocreate)
}

/// The state of a created realm: its required settings, then copies of the
/// optional ones the configuration holds.
pub open spec fn created_state(c: RealmAttrs) -> Seq<(Seq<char>, StateValueView)> {
    seq![
        ("realm"@, StateValueView::Text(text_view(c.realm)->0)),
        ("type"@, StateValueView::Text(text_view(c.realm_type)->0)),
        ("issuer_url"@, StateValueView::Text(text_view(c.issuer_url)->0)),
        ("client_id"@, StateValueView::Text(text_view(c.client_id)->0)),
        ("client_key"@, StateValueView::Text(text_view(c.client_key)->0)),
    ] + optional_copies(c)
}

/// The state of an updated realm: a copy of each attribute the
/// configuration holds.
pub open spec fn updated_state(c: RealmAttrs) -> Seq<(Seq<char>, StateValueView)> {
    copy_write("realm"@, c.realm) + copy_write("type"@, c.realm_type) + copy_write(
        "issuer_url"@,
        c.issuer_url,
    ) + copy_write("client_id"@, c.client_id) + copy_write("client_key"@, c.client_key)
        + optional_copies(c)
}

/// A setting Proxmox returned, else the state's own value.
pub open spec fn info_or_state(name: Seq<char>, info: Option<StateValueView>, state: Option<AttrValue>) -> Seq<
    (Seq<char>, StateValueView),
> {
    match info {
        Some(v) => seq![(name, v)],
        None => copy_write(name, state),
    }
}

/// A flag Proxmox returned as a number: set when not zero.
pub open spec fn int_flag(o: Option<i64>) -> Option<StateValueView> {
    match o {
        Some(n) => Some(StateValueView::Flag(n != 0)),
        None => None,
    }
}

/// A string Proxmox returned.
pub open spec fn opt_text(o: Option<String>) -> Option<StateValueView> {
    match o {
        Some(s) => Some(StateValueView::Text(s@)),
        None => None,
    }
}

/// The state of a read realm: its name, what Proxmox returned, the state's
/// client key, and the state's values where Proxmox returned none.
pub open spec fn read_state(realm: Seq<char>, info: RealmInfo, s: RealmAttrs) -> Seq<(Seq<char>, StateValueView)> {
    seq![
        ("realm"@, StateValueView::Text(realm)),
        ("type"@, StateValueView::Text(info.realm_type@)),
        ("issuer_url"@, StateValueView::Text(info.issuer_url@)),
        ("client_id"@, StateValueView::Text(info.client_id@)),
    ] + copy_write("client_key"@, s.client_key) + info_or_state(
        "username_claim"@,
        opt_text(info.username_claim),
        s.username_claim,
    ) + info_or_state("autocreate"@, int_flag(info.autocreate), s.autocreate) + info_or_state(
        "default"@,
        int_flag(info.default),
        s.default,
    ) + info_or_state("comment"@, opt_text(info.comment), s.comment) + info_or_state(
        "groups_overwrite"@,
        int_flag(info.groups_overwrite),
        s.groups_overwrite,
    ) + info_or_state("groups_autocreate"@, int_flag(info.groups_autocreate), s.groups_autocreate)
}

/// `prefix` followed by the error's text.
fn error_text(prefix: &str, e: &ApiError) -> (r: String)
    ensures
        r@ == prefix@ + api_error_text(*e),
{
    crate::resources::nodes::vm_lifecycle::api_error_detail(prefix, e)
}

/// Appends a copy of an attribute the configuration holds.
fn push_copy(state: &mut Vec<StateWrite>, name: &str, o: &Option<AttrValue>)
    ensures
        writes_view(final(state)@) == writes_view(old(state)@) + copy_write(name@, *o),
{
    match o {
        Some(a) => push_write(state, name, StateValue::Attr(clone_attr(a))),
        None => {},
    }
    assert(writes_view(state@) =~= writes_view(old(state)@) + copy_write(name@, *o));
}

/// Appends a returned setting, else a copy of the state's value.
fn push_info_or_state(state: &mut Vec<StateWrite>, name: &str, info: Option<StateValue>, s: &Option<AttrValue>)
    ensures
        writes_view(final(state)@) == writes_view(old(state)@) + info_or_state(
            name@,
            crate::resources::nodes::vm_state::opt_value_view(info),
            *s,
        ),
{
    let ghost iv = crate::resources::nodes::vm_state::opt_value_view(info);
    match info {
        Some(v) => {
            push_write(state, name, v);
            assert(writes_view(state@) =~= writes_view(old(state)@) + info_or_state(name@, iv, *s));
        },
        None => push_copy(state, name, s),
    }
}

/// Appends copies of the optional settings.
fn push_optional_copies(state: &mut Vec<StateWrite>, c: &RealmAttrs)
    ensures
        writes_view(final(state)@) == writes_view(old(state)@) + optional_copies(*c),
{
    let ghost start = writes_view(state@);
    push_copy(state, "username_claim", &c.username_claim);
    push_copy(state, "autocreate", &c.autocreate);
    push_copy(state, "default", &c.default);
    push_copy(state, "comment", &c.comment);
    push_copy(state, "groups_overwrite", &c.groups_overwrite);
    push_copy(state, "groups_autocreate", &c.groups_autocreate);
    assert(writes_view(state@) =~= start + optional_copies(*c));
}

fn int_flag_value(o: Option<i64>) -> (r: Option<StateValue>)
    ensures
        crate::resources::nodes::vm_state::opt_value_view(r) == int_flag(o),
{
    match o {
        Some(n) => Some(StateValue::Flag(n != 0)),
        None => None,
    }
}

fn text_value(o: &Option<String>) -> (r: Option<StateValue>)
    ensures
        crate::resources::nodes::vm_state::opt_value_view(r) == opt_text(*o),
{
    match o {
        Some(s) => Some(StateValue::Text(s.clone())),
        None => None,
    }
}

/// The first step of a create or an update: send the realm configuration,
/// or finish with the writes into an empty state and the errors.
pub enum RealmWriteStep {
    Send(RealmConfig),
    Finish { state: Vec<StateWrite>, errors: Vec<String> },
}

impl RealmResource {
    pub fn new(client: ClientSettings) -> (r: Self)
        ensures
            r.client == client,
    {
        RealmResource { client }
    }

    fn schema_at(version: i64) -> (r: Schema)
        ensures
            r@ == realm_v2_schema(version),
    {
        let mut v: Vec<AttributeSchema> = Vec::new();
        assert(attribute_views(v@) =~= Seq::<AttributeView>::empty());
        push_attribute(&mut v, attribute("realm", AttributeType::String, "Realm/domain name", true, false, false, false, None));
        push_attribute(&mut v, attribute("type", AttributeType::String, "Authentication type (e.g., 'openid')", true, false, false, false, None));
        push_attribute(&mut v, attribute("issuer_url", AttributeType::String, "OpenID issuer URL", true, false, false, false, None));
        push_attribute(&mut v, attribute("client_id", AttributeType::String, "OAuth/OpenID client ID", true, false, false, false, None));
        push_attribute(&mut v, attribute("client_key", AttributeType::String, "OAuth/OpenID client secret", true, false, false, true, None));
        push_attribute(&mut v, attribute("username_claim", AttributeType::String, "OpenID claim used as username", false, true, false, false, None));
        push_attribute(&mut v, attribute("autocreate", AttributeType::Bool, "Automatically create users if they don't exist", false, true, false, false, None));
        push_attribute(&mut v, attribute("default", AttributeType::Bool, "Set as default authentication realm", false, true, false, false, None));
        push_attribute(&mut v, attribute("comment", AttributeType::String, "Description/comment for the realm", false, true, false, false, None));
        push_attribute(&mut v, attribute("groups_overwrite", AttributeType::Bool, "Overwrite group membership from authentication provider", false, true, false, false, None));
        push_attribute(&mut v, attribute("groups_autocreate", AttributeType::Bool, "Automatically create groups if they don't exist", false, true, false, false, None));
        assert(attribute_views(v@) =~= realm_v2_attributes());
        let r = Schema { version, description: String::new(), attributes: v, blocks: Vec::new() };
        assert(crate::schema::block_views(r.blocks@) =~= Seq::<BlockView>::empty());
        assert(r.description@ =~= Seq::<char>::empty());
        r
    }

    /// The resource's schema as registered with the provider (version 1).
    pub fn schema_static() -> (r: Schema)
        ensures
            r@ == realm_v2_schema(1),
    {
        RealmResource::schema_at(1)
    }

    /// The resource's schema (version 0).
    pub fn schema(&self) -> (r: Schema)
        ensures
            r@ == realm_v2_schema(0),
    {
        RealmResource::schema_at(0)
    }

    /// The realm configuration to create or update: an error naming the
    /// first of `realm`, `type`, `issuer_url`, `client_id` and `client_key`
    /// the configuration lacks.
    pub fn realm_config(config: &RealmAttrs) -> (r: Result<RealmConfig, String>)
        ensures
            match realm_v2_missing(*config) {
                Some(m) => r matches Err(e) && e@ == m,
                None => r matches Ok(c) && realm_v2_config(c, *config),
            },
    {
        let realm = match text_of(&config.realm) {
            Some(s) => s,
            None => {
                return Err(String::from_str("realm is required"));
            },
        };
        let realm_type = match text_of(&config.realm_type) {
            Some(s) => s,
            None => {
                return Err(String::from_str("type is required"));
            },
        };
        let issuer_url = match text_of(&config.issuer_url) {
            Some(s) => s,
            None => {
                return Err(String::from_str("issuer_url is required"));
            },
        };
        let client_id = match text_of(&config.client_id) {
            Some(s) => s,
            None => {
                return Err(String::from_str("client_id is required"));
            },
        };
        let client_key = match text_of(&config.client_key) {
            Some(s) => s,
            None => {
                return Err(String::from_str("client_key is required"));
            },
        };
        Ok(
            RealmConfig {
                realm,
                realm_type,
                comment: text_of(&config.comment),
                default: crate::values::flag_of(&config.default),
                issuer_url: Some(issuer_url),
                client_id: Some(client_id),
                client_key: Some(client_key),
                username_claim: text_of(&config.username_claim),
                autocreate: crate::values::flag_of(&config.autocreate),
                groups_overwrite: crate::values::flag_of(&config.groups_overwrite),
                groups_autocreate: crate::values::flag_of(&config.groups_autocreate),
            },
        )
    }

    /// The first step of a create or an update: when the configuration lacks
    /// `realm`, `type`, `issuer_url`, `client_id` or `client_key`, an empty
    /// state and the error naming the first one missing, with no API call;
    /// else the realm configuration to send.
    pub fn write_start(config: &RealmAttrs) -> (r: RealmWriteStep)
        ensures
            match realm_v2_missing(*config) {
                Some(m) => r matches RealmWriteStep::Finish { state, errors } && state@.len() == 0
                    && errors@.len() == 1 && errors@[0]@ == m,
                None => r matches RealmWriteStep::Send(c) && realm_v2_config(c, *config),
            },
    {
        match RealmResource::realm_config(config) {
            Ok(c) => RealmWriteStep::Send(c),
            Err(e) => {
                let mut errors: Vec<String> = Vec::new();
                errors.push(e);
                RealmWriteStep::Finish { state: Vec::new(), errors }
            },
        }
    }

    /// After creating the realm: its state, or an empty state and the
    /// error `Failed to create realm: …`.
    pub fn create_finish(config: &RealmAttrs, result: &Result<(), ApiError>) -> (r: (
        Vec<StateWrite>,
        Vec<String>,
    ))
        requires
            realm_v2_missing(*config) is None,
        ensures
            match result {
                Ok(_) => writes_view(r.0@) == created_state(*config) && r.1@.len() == 0,
                Err(e) => r.0@.len() == 0 && r.1@.len() == 1 && r.1@[0]@ == "Failed to create realm: "@
                    + api_error_text(*e),
            },
    {
        match result {
            Ok(_) => {
                let mut w: Vec<StateWrite> = Vec::new();
                push_write(&mut w, "realm", StateValue::Text(text_of(&config.realm).unwrap()));
                push_write(&mut w, "type", StateValue::Text(text_of(&config.realm_type).unwrap()));
                push_write(&mut w, "issuer_url", StateValue::Text(text_of(&config.issuer_url).unwrap()));
                push_write(&mut w, "client_id", StateValue::Text(text_of(&config.client_id).unwrap()));
                push_write(&mut w, "client_key", StateValue::Text(text_of(&config.client_key).unwrap()));
                let ghost head = writes_view(w@);
                push_optional_copies(&mut w, config);
                assert(writes_view(w@) =~= created_state(*config));
                (w, Vec::new())
            },
            Err(e) => {
                let mut errs: Vec<String> = Vec::new();
                errs.push(error_text("Failed to create realm: ", e));
                (Vec::new(), errs)
            },
        }
    }

    /// After updating the realm: a copy of the configuration, or the current
    /// state (`None`) and the error `Failed to update realm: …`.
    pub fn update_finish(config: &RealmAttrs, result: &Result<(), ApiError>) -> (r: (
        Option<Vec<StateWrite>>,
        Vec<String>,
    ))
        ensures
            match result {
                Ok(_) => r.0 matches Some(w) && writes_view(w@) == updated_state(*config) && r.1@.len()
                    == 0,
                Err(e) => r.0 is None && r.1@.len() == 1 && r.1@[0]@ == "Failed to update realm: "@
                    + api_error_text(*e),
            },
    {
        match result {
            Ok(_) => {
                let mut w: Vec<StateWrite> = Vec::new();
                let ghost start = writes_view(w@);
                push_copy(&mut w, "realm", &config.realm);
                push_copy(&mut w, "type", &config.realm_type);
                push_copy(&mut w, "issuer_url", &config.issuer_url);
                push_copy(&mut w, "client_id", &config.client_id);
                push_copy(&mut w, "client_key", &config.client_key);
                push_optional_copies(&mut w, config);
                assert(writes_view(w@) =~= updated_state(*config)) by {
                    assert(start =~= Seq::empty());
                }
                (Some(w), Vec::new())
            },
            Err(e) => {
                let mut errs: Vec<String> = Vec::new();
                errs.push(error_text("Failed to update realm: ", e));
                (None, errs)
            },
        }
    }

    /// The realm a state names, for a read or a delete; the error `realm is
    /// required in state` when it names none.
    pub fn realm_in_state(state: &RealmAttrs) -> (r: Result<String, String>)
        ensures
            match text_view(state.realm) {
                Some(n) => r matches Ok(s) && s@ == n,
                None => r matches Err(e) && e@ == "realm is required in state"@,
            },
    {
        match text_of(&state.realm) {
            Some(s) => Ok(s),
            None => Err(String::from_str("realm is required in state")),
        }
    }

    /// After fetching realm `realm`: its state when Proxmox returned it;
    /// none when it did not or the fetch failed.
    pub fn read_finish(realm: &str, state: &RealmAttrs, result: &Result<Option<RealmInfo>, ApiError>) -> (r: Option<
        Vec<StateWrite>,
    >)
        ensures
            match result {
                Ok(Some(info)) => r matches Some(w) && writes_view(w@) == read_state(realm@, *info, *state),
                _ => r is None,
            },
    {
        match result {
            Ok(Some(info)) => {
                let mut w: Vec<StateWrite> = Vec::new();
                push_write(&mut w, "realm", StateValue::Text(String::from_str(realm)));
                push_write(&mut w, "type", StateValue::Text(info.realm_type.clone()));
                push_write(&mut w, "issuer_url", StateValue::Text(info.issuer_url.clone()));
                push_write(&mut w, "client_id", StateValue::Text(info.client_id.clone()));
                let ghost head = writes_view(w@);
                push_copy(&mut w, "client_key", &state.client_key);
                push_info_or_state(&mut w, "username_claim", text_value(&info.username_claim), &state.username_claim);
                push_info_or_state(&mut w, "autocreate", int_flag_value(info.autocreate), &state.autocreate);
                push_info_or_state(&mut w, "default", int_flag_value(info.default), &state.default);
                push_info_or_state(&mut w, "comment", text_value(&info.comment), &state.comment);
                push_info_or_state(&mut w, "groups_overwrite", int_flag_value(info.groups_overwrite), &state.groups_overwrite);
                push_info_or_state(&mut w, "groups_autocreate", int_flag_value(info.groups_autocreate), &state.groups_autocreate);
                assert(writes_view(w@) =~= read_state(realm@, *info, *state));
                Some(w)
            },
            _ => None,
        }
    }

    /// After deleting the realm: the error `Failed to delete realm: …` when
    /// it failed.
    pub fn delete_finish(result: &Result<(), ApiError>) -> (r: Vec<String>)
        ensures
            match result {
                Ok(_) => r@.len() == 0,
                Err(e) => r@.len() == 1 && r@[0]@ == "Failed to delete realm: "@ + api_error_text(*e),
            },
    {
        let mut errs: Vec<String> = Vec::new();
        match result {
            Ok(_) => {},
            Err(e) => errs.push(error_text("Failed to delete realm: ", e)),
        }
        errs
    }
}

} // verus!
