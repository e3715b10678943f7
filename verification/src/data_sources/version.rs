//! The version data source of the provider's earlier plugin interface,
//! which holds its API client itself and reports errors as bare summaries.
use vstd::prelude::*;
use vstd::string::*;
use crate::api::client::ClientSettings;
use crate::api::error::{ApiError, api_error_text};
use crate::api::version::VersionInfo;
use crate::schema::{
    AttributeSchema, AttributeType, AttributeView, BlockView, Schema, SchemaView, attr_spec, attribute,
    attribute_views, push_attribute,
};
use crate::resources::nodes::vm_state::{StateValue, StateValueView, StateWrite, push_write, writes_view};

verus! {

/// The version data source, with its API client.
pub struct VersionDataSource {
    pub client: ClientSettings,
}

/// The data source's schema (version 0): `id`, `version`, `release` and
/// `repoid`, all computed.
pub open spec fn version_v2_schema() -> SchemaView {
    SchemaView {
        version: 0,
        description: Seq::empty(),
        attributes: seq![
            attr_spec("id"@, AttributeType::String, ""@, false, false, true, false, None),
            attr_spec("version"@, AttributeType::String, "Proxmox version"@, false, false, true, false, None),
            attr_spec("release"@, AttributeType::String, "Proxmox release"@, false, false, true, false, None),
            attr_spec("repoid"@, AttributeType::String, "Repository ID"@, false, false, true, false, None),
        ],
        blocks: Seq::<BlockView>::empty(),
    }
}

/// The data source's schema as registered with the provider (version 1).
pub open spec fn version_v2_static_schema() -> SchemaView {
    SchemaView {
        version: 1,
        description: Seq::empty(),
        attributes: seq![
            attr_spec("id"@, AttributeType::String, ""@, false, false, true, false, None),
            attr_spec("version"@, AttributeType::String, "Proxmox version"@, false, false, true, false, None),
            attr_spec("repoid"@, AttributeType::String, "Repository ID"@, false, false, true, false, None),
            attr_spec("release"@, AttributeType::String, "Release version"@, false, false, true, false, None),
        ],
        blocks: Seq::<BlockView>::empty(),
    }
}

impl VersionDataSource {
    pub fn new(client: ClientSettings) -> (r: Self)
        ensures
            r.client == client,
    {
        VersionDataSource { client }
    }

    /// The data source's schema as registered with the provider.
    pub fn schema_static() -> (r: Schema)
        ensures
            r@ == version_v2_static_schema(),
    {
        let mut v: Vec<AttributeSchema> = Vec::new();
        assert(attribute_views(v@) =~= Seq::<AttributeView>::empty());
        push_attribute(&mut v, attribute("id", AttributeType::String, "", false, false, true, false, None));
        push_attribute(&mut v, attribute("version", AttributeType::String, "Proxmox version", false, false, true, false, None));
        push_attribute(&mut v, attribute("repoid", AttributeType::String, "Repository ID", false, false, true, false, None));
        push_attribute(&mut v, attribute("release", AttributeType::String, "Release version", false, false, true, false, None));
        assert(attribute_views(v@) =~= version_v2_static_schema().attributes);
        let r = Schema { version: 1, description: String::new(), attributes: v, blocks: Vec::new() };
        assert(crate::schema::block_views(r.blocks@) =~= Seq::<BlockView>::empty());
        assert(r.description@ =~= Seq::<char>::empty());
        r
    }

    /// The data source's schema.
    pub fn schema(&self) -> (r: Schema)
        ensures
            r@ == version_v2_schema(),
    {
        let mut v: Vec<AttributeSchema> = Vec::new();
        assert(attribute_views(v@) =~= Seq::<AttributeView>::empty());
        push_attribute(&mut v, attribute("id", AttributeType::String, "", false, false, true, false, None));
        push_attribute(&mut v, attribute("version", AttributeType::String, "Proxmox version", false, false, true, false, None));
        push_attribute(&mut v, attribute("release", AttributeType::String, "Proxmox release", false, false, true, false, None));
        push_attribute(&mut v, attribute("repoid", AttributeType::String, "Repository ID", false, false, true, false, None));
        assert(attribute_views(v@) =~= version_v2_schema().attributes);
        let r = Schema { version: 0, description: String::new(), attributes: v, blocks: Vec::new() };
        assert(crate::schema::block_views(r.blocks@) =~= Seq::<BlockView>::empty());
        assert(r.description@ =~= Seq::<char>::empty());
        r
    }

    /// After reading the version: its state, id `proxmox_version`; or no
    /// state and the error `Failed to get version: …`.
    pub fn read_finish(result: Result<VersionInfo, ApiError>) -> (r: (Option<Vec<StateWrite>>, Vec<String>))
        ensures
            match result {
                Ok(v) => r.0 matches Some(w) && writes_view(w@) == seq![
                    ("id"@, StateValueView::Text("proxmox_version"@)),
                    ("version"@, StateValueView::Text(v.version@)),
                    ("release"@, StateValueView::Text(v.release@)),
                    ("repoid"@, StateValueView::Text(v.repoid@)),
                ] && r.1@.len() == 0,
                Err(e) => r.0 is None && r.1@.len() == 1 && r.1@[0]@ == "Failed to get version: "@
                    + api_error_text(e),
            },
    {
        match result {
            Ok(v) => {
                let ghost gv = v;
                let mut w: Vec<StateWrite> = Vec::new();
                push_write(&mut w, "id", StateValue::Text(String::from_str("proxmox_version")));
                push_write(&mut w, "version", StateValue::Text(v.version));
                push_write(&mut w, "release", StateValue::Text(v.release));
                push_write(&mut w, "repoid", StateValue::Text(v.repoid));
                assert(writes_view(w@) =~= seq![
                    ("id"@, StateValueView::Text("proxmox_version"@)),
                    ("version"@, StateValueView::Text(gv.version@)),
                    ("release"@, StateValueView::Text(gv.release@)),
                    ("repoid"@, StateValueView::Text(gv.repoid@)),
                ]);
                (Some(w), Vec::new())
            },
            Err(e) => {
                let mut errs: Vec<String> = Vec::new();
                errs.push(crate::resources::nodes::vm_lifecycle::api_error_detail("Failed to get version: ", &e));
                (None, errs)
            },
        }
    }
}

} // verus!
