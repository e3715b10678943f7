//! Authentication realms (`/access/domains`).
use vstd::prelude::*;
use vstd::string::*;
use crate::api::common::ProxmoxApiResource;
use crate::text;
use crate::text::{chars_of, clone_opt, push_str, string_of};

verus! {

/// A realm's configuration.
pub struct RealmConfig {
    pub realm: String,
    pub realm_type: String,
    pub comment: Option<String>,
    pub default: Option<bool>,
    pub issuer_url: Option<String>,
    pub client_id: Option<String>,
    pub client_key: Option<String>,
    pub username_claim: Option<String>,
    pub autocreate: Option<bool>,
    pub groups_overwrite: Option<bool>,
    pub groups_autocreate: Option<bool>,
}

/// Another name for a realm's configuration.
pub type Realm = RealmConfig;

/// What `GET /access/domains/{realm}` returns: the configuration without
/// the realm's name, and a digest.
pub struct GetRealmResponse {
    pub realm_type: String,
    pub comment: Option<String>,
    pub default: Option<bool>,
    pub issuer_url: Option<String>,
    pub client_id: Option<String>,
    pub client_key: Option<String>,
    pub username_claim: Option<String>,
    pub autocreate: Option<bool>,
    pub groups_overwrite: Option<bool>,
    pub groups_autocreate: Option<bool>,
    pub digest: Option<String>,
}

/// The body of a realm creation.
pub struct CreateRealmRequest {
    pub realm: String,
    pub realm_type: String,
    pub comment: Option<String>,
    pub default: Option<bool>,
    pub issuer_url: Option<String>,
    pub client_id: Option<String>,
    pub client_key: Option<String>,
    pub username_claim: Option<String>,
    pub autocreate: Option<bool>,
    pub groups_overwrite: Option<bool>,
    pub groups_autocreate: Option<bool>,
}

/// The body of a realm update.
pub struct UpdateRealmRequest {
    pub realm_type: String,
    pub comment: Option<String>,
    pub default: Option<bool>,
    pub issuer_url: Option<String>,
    pub client_id: Option<String>,
    pub client_key: Option<String>,
    pub username_claim: Option<String>,
    pub autocreate: Option<bool>,
    pub groups_overwrite: Option<bool>,
    pub groups_autocreate: Option<bool>,
}

impl ProxmoxApiResource for RealmConfig {
    type CreateRequest = CreateRealmRequest;
    type UpdateRequest = UpdateRealmRequest;

    open spec fn spec_api_path() -> Seq<char> {
        "/api2/json/access/domains"@
    }

    fn api_path() -> (r: &'static str) {
        "/api2/json/access/domains"
    }
}

impl RealmConfig {
    /// The configuration of realm `realm` as the API returned it.
    pub fn from_response(realm: &str, response: GetRealmResponse) -> (r: RealmConfig)
        ensures
            r.realm@ == realm@,
            r.realm_type == response.realm_type,
            r.comment == response.comment,
            r.default == response.default,
            r.issuer_url == response.issuer_url,
            r.client_id == response.client_id,
            r.client_key == response.client_key,
            r.username_claim == response.username_claim,
            r.autocreate == response.autocreate,
            r.groups_overwrite == response.groups_overwrite,
            r.groups_autocreate == response.groups_autocreate,
    {
        RealmConfig {
            realm: String::from_str(realm),
            realm_type: response.realm_type,
            comment: response.comment,
            default: response.default,
            issuer_url: response.issuer_url,
            client_id: response.client_id,
            client_key: response.client_key,
            username_claim: response.username_claim,
            autocreate: response.autocreate,
            groups_overwrite: response.groups_overwrite,
            groups_autocreate: response.groups_autocreate,
        }
    }
}

impl CreateRealmRequest {
    /// The creation body for a configuration: every field as configured.
    pub fn from_config(config: &RealmConfig) -> (r: CreateRealmRequest)
        ensures
            r.realm@ == config.realm@,
            r.realm_type@ == config.realm_type@,
            text::opt_view(r.comment) == text::opt_view(config.comment),
            r.default == config.default,
            text::opt_view(r.issuer_url) == text::opt_view(config.issuer_url),
            text::opt_view(r.client_id) == text::opt_view(config.client_id),
            text::opt_view(r.client_key) == text::opt_view(config.client_key),
            text::opt_view(r.username_claim) == text::opt_view(config.username_claim),
            r.autocreate == config.autocreate,
            r.groups_overwrite == config.groups_overwrite,
            r.groups_autocreate == config.groups_autocreate,
    {
        CreateRealmRequest {
            realm: config.realm.clone(),
            realm_type: config.realm_type.clone(),
            comment: clone_opt(&config.comment),
            default: config.default,
            issuer_url: clone_opt(&config.issuer_url),
            client_id: clone_opt(&config.client_id),
            client_key: clone_opt(&config.client_key),
            username_claim: clone_opt(&config.username_claim),
            autocreate: config.autocreate,
            groups_overwrite: config.groups_overwrite,
            groups_autocreate: config.groups_autocreate,
        }
    }
}

impl UpdateRealmRequest {
    /// The update body for a configuration: every field but the name.
    pub fn from_config(config: &RealmConfig) -> (r: UpdateRealmRequest)
        ensures
            r.realm_type@ == config.realm_type@,
            text::opt_view(r.comment) == text::opt_view(config.comment),
            r.default == config.default,
            text::opt_view(r.issuer_url) == text::opt_view(config.issuer_url),
            text::opt_view(r.client_id) == text::opt_view(config.client_id),
            text::opt_view(r.client_key) == text::opt_view(config.client_key),
            text::opt_view(r.username_claim) == text::opt_view(config.username_claim),
            r.autocreate == config.autocreate,
            r.groups_overwrite == config.groups_overwrite,
            r.groups_autocreate == config.groups_autocreate,
    {
        UpdateRealmRequest {
            realm_type: config.realm_type.clone(),
            comment: clone_opt(&config.comment),
            default: config.default,
            issuer_url: clone_opt(&config.issuer_url),
            client_id: clone_opt(&config.client_id),
            client_key: clone_opt(&config.client_key),
            username_claim: clone_opt(&config.username_claim),
            autocreate: config.autocreate,
            groups_overwrite: config.groups_overwrite,
            groups_autocreate: config.groups_autocreate,
        }
    }
}

/// Realm operations over a client of type `C`.
pub struct RealmsApi<'a, C> {
    pub client: &'a C,
}

impl<'a, C> RealmsApi<'a, C> {
    pub fn new(client: &'a C) -> (r: Self)
        ensures
            r.client == client,
    {
        RealmsApi { client }
    }

    /// `/api2/json/access/domains`: where realms are listed and created.
    pub fn collection_path(&self) -> (r: &'static str)
        ensures
            r@ == "/api2/json/access/domains"@,
    {
        "/api2/json/access/domains"
    }

    /// `/api2/json/access/domains/{realm}`: where one realm is read,
    /// updated and deleted.
    pub fn realm_path(&self, realm: &str) -> (r: String)
        ensures
            r@ == "/api2/json/access/domains/"@ + realm@,
    {
        let mut out = chars_of("/api2/json/access/domains/");
        push_str(&mut out, realm);
        string_of(&out)
    }
}

/// The path of a realm as a resource of the API is the path the realm
/// operations use.
pub proof fn lemma_realm_paths_agree(realm: Seq<char>)
    ensures
        <RealmConfig as ProxmoxApiResource>::spec_api_path() + seq!['/'] + realm
            == "/api2/json/access/domains/"@ + realm,
{
    reveal_strlit("/api2/json/access/domains");
    reveal_strlit("/api2/json/access/domains/");
    assert("/api2/json/access/domains"@ + seq!['/'] =~= "/api2/json/access/domains/"@);
    assert(<RealmConfig as ProxmoxApiResource>::spec_api_path() + seq!['/'] + realm =~= "/api2/json/access/domains/"@ + realm);
}

} // verus!
