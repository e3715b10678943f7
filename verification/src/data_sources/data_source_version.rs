//! The `proxmox_version` data source: the server's version.
use vstd::prelude::*;
use vstd::string::*;
use crate::values::{Diagnostic, Severity, diag_views};
use crate::api::error::{ApiError, api_error_text};
use crate::api::version::VersionInfo;
use crate::provider::ProxmoxProviderData;
use crate::schema::{
    AttributeSchema, AttributeType, AttributeView, BlockView, Schema, SchemaView, attr_spec, attribute,
    attribute_views, push_attribute,
};
use crate::resources::nodes::vm_lifecycle::{ProviderDataArg, api_error_detail, not_configured};
use crate::resources::nodes::vm_state::{StateValue, StateValueView, StateWrite, push_write, writes_view};

verus! {

/// The `proxmox_version` data source.
pub struct VersionDataSource {
    /// What the provider handed over when it configured the data source.
    pub provider_data: Option<ProxmoxProviderData>,
}

/// How a read of the version ends: the writes into an empty state (none
/// means a null state), and the diagnostics.
pub struct VersionReadOutcome {
    pub writes: Option<Vec<StateWrite>>,
    pub diagnostics: Vec<Diagnostic>,
}

/// The data source's attributes: `id`, `version`, `release` and `repoid`,
/// all computed.
pub open spec fn version_attributes() -> Seq<AttributeView> {
    seq![
        attr_spec("id"@, AttributeType::String, "The data source ID"@, false, false, true, false, None),
        attr_spec("version"@, AttributeType::String, "The Proxmox VE version"@, false, false, true, false, None),
        attr_spec("release"@, AttributeType::String, "The Proxmox VE release"@, false, false, true, false, None),
        attr_spec("repoid"@, AttributeType::String, "The Proxmox VE repository ID"@, false, false, true, false, None),
    ]
}

/// The data source's schema.
pub open spec fn version_schema() -> SchemaView {
    SchemaView {
        version: 0,
        description: "Gets the Proxmox VE version information"@,
        attributes: version_attributes(),
        blocks: Seq::<BlockView>::empty(),
    }
}

/// The state of a read version: the id `proxmox-version` and the three
/// version strings.
pub open spec fn version_writes(v: VersionInfo) -> Seq<(Seq<char>, StateValueView)> {
    seq![
        ("id"@, StateValueView::Text("proxmox-version"@)),
        ("version"@, StateValueView::Text(v.version@)),
        ("release"@, StateValueView::Text(v.release@)),
        ("repoid"@, StateValueView::Text(v.repoid@)),
    ]
}

impl VersionDataSource {
    /// A data source that has not been configured yet.
    pub fn new() -> (r: Self)
        ensures
            r.provider_data is None,
    {
        VersionDataSource { provider_data: None }
    }

    /// The data source's type name.
    pub fn data_source_type_name(&self) -> (r: &'static str)
        ensures
            r@ == "proxmox_version"@,
    {
        "proxmox_version"
    }

    /// The data source's schema.
    pub fn schema(&self) -> (r: Schema)
        ensures
            r@ == version_schema(),
    {
        let mut v: Vec<AttributeSchema> = Vec::new();
        assert(attribute_views(v@) =~= Seq::<AttributeView>::empty());
        push_attribute(&mut v, attribute("id", AttributeType::String, "The data source ID", false, false, true, false, None));
        push_attribute(&mut v, attribute("version", AttributeType::String, "The Proxmox VE version", false, false, true, false, None));
        push_attribute(&mut v, attribute("release", AttributeType::String, "The Proxmox VE release", false, false, true, false, None));
        push_attribute(&mut v, attribute("repoid", AttributeType::String, "The Proxmox VE repository ID", false, false, true, false, None));
        assert(attribute_views(v@) =~= version_attributes());
        let r = Schema {
            version: 0,
            description: String::from_str("Gets the Proxmox VE version information"),
            attributes: v,
            blocks: Vec::new(),
        };
        assert(crate::schema::block_views(r.blocks@) =~= Seq::<BlockView>::empty());
        r
    }

    /// Any configuration is valid.
    pub fn validate(&self) -> (r: Vec<Diagnostic>)
        ensures
            r@.len() == 0,
    {
        Vec::new()
    }

    /// Takes the provider's data: an error when none or other data is
    /// handed over, which leaves the data source as it was.
    pub fn configure(&mut self, data: ProviderDataArg) -> (r: Vec<Diagnostic>)
        ensures
            match data {
                ProviderDataArg::Missing => diag_views(r@) == seq![
                    (Severity::Error, "No provider data"@, "No provider data was provided to the data source"@),
                ] && final(self).provider_data == old(self).provider_data,
                ProviderDataArg::Foreign => diag_views(r@) == seq![
                    (
                        Severity::Error,
                        "Invalid provider data"@,
                        "Failed to extract ProxmoxProviderData from provider data"@,
                    ),
                ] && final(self).provider_data == old(self).provider_data,
                ProviderDataArg::Proxmox(d) => r@.len() == 0 && final(self).provider_data == Some(d),
            },
    {
        let mut d: Vec<Diagnostic> = Vec::new();
        match data {
            ProviderDataArg::Missing => {
                d.push(Diagnostic::error("No provider data", "No provider data was provided to the data source"));
            },
            ProviderDataArg::Foreign => {
                d.push(Diagnostic::error(
                    "Invalid provider data",
                    "Failed to extract ProxmoxProviderData from provider data",
                ));
            },
            ProviderDataArg::Proxmox(p) => {
                self.provider_data = Some(p);
            },
        }
        assert(diag_views(d@) =~= d@.map_values(|x: Diagnostic| crate::values::diag_view(x)));
        d
    }

    /// Whether a read can call the API: an error and a null state when the
    /// data source is not configured.
    pub fn read_start(&self) -> (r: Option<VersionReadOutcome>)
        ensures
            self.provider_data is Some ==> r is None,
            self.provider_data is None ==> (r matches Some(o) && o.writes is None && diag_views(
                o.diagnostics@,
            ) == seq![not_configured()]),
    {
        if self.provider_data.is_some() {
            return None;
        }
        let mut d: Vec<Diagnostic> = Vec::new();
        d.push(Diagnostic::error("Provider not configured", "Provider data was not properly configured"));
        assert(diag_views(d@) =~= seq![not_configured()]);
        Some(VersionReadOutcome { writes: None, diagnostics: d })
    }

    /// After reading the version: its state, or an error and a null state.
    pub fn read_finish(result: Result<VersionInfo, ApiError>) -> (r: VersionReadOutcome)
        ensures
            match result {
                Ok(v) => r.writes matches Some(w) && writes_view(w@) == version_writes(v)
                    && r.diagnostics@.len() == 0,
                Err(e) => r.writes is None && diag_views(r.diagnostics@) == seq![
                    (Severity::Error, "Failed to get version information"@, "API error: "@ + api_error_text(e)),
                ],
            },
    {
        match result {
            Ok(v) => {
                let ghost gv = v;
                let mut w: Vec<StateWrite> = Vec::new();
                push_write(&mut w, "id", StateValue::Text(String::from_str("proxmox-version")));
                push_write(&mut w, "version", StateValue::Text(v.version));
                push_write(&mut w, "release", StateValue::Text(v.release));
                push_write(&mut w, "repoid", StateValue::Text(v.repoid));
                assert(writes_view(w@) =~= version_writes(gv));
                VersionReadOutcome { writes: Some(w), diagnostics: Vec::new() }
            },
            Err(e) => {
                let mut d: Vec<Diagnostic> = Vec::new();
                d.push(
                    Diagnostic {
                        severity: Severity::Error,
                        summary: String::from_str("Failed to get version information"),
                        detail: api_error_detail("API error: ", &e),
                    },
                );
                assert(diag_views(d@) =~= seq![
                    (Severity::Error, "Failed to get version information"@, "API error: "@ + api_error_text(e)),
                ]);
                VersionReadOutcome { writes: None, diagnostics: d }
            },
        }
    }
}

} // verus!
