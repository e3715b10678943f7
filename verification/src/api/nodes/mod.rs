//! Node-level API: the node list and each node's QEMU VMs.
pub mod qemu;

use vstd::prelude::*;
use vstd::string::*;

verus! {

/// Node operations over a client of type `C`.
pub struct NodesApi<'a, C> {
    pub client: &'a C,
}

/// Operations on one node.
pub struct NodeApi<'a, C> {
    pub client: &'a C,
    pub node: String,
}

impl<'a, C> NodesApi<'a, C> {
    pub fn new(client: &'a C) -> (r: Self)
        ensures
            r.client == client,
    {
        NodesApi { client }
    }

    /// `/api2/json/nodes`: where the nodes are listed.
    pub fn list_path(&self) -> (r: &'static str)
        ensures
            r@ == "/api2/json/nodes"@,
    {
        "/api2/json/nodes"
    }

    /// Operations on node `node`.
    pub fn node(&self, node: &str) -> (r: NodeApi<'a, C>)
        ensures
            r.client == self.client,
            r.node@ == node@,
    {
        NodeApi { client: self.client, node: String::from_str(node) }
    }
}

impl<'a, C> NodeApi<'a, C> {
    /// The node's QEMU VMs.
    pub fn qemu(&self) -> (r: qemu::QemuApi<'a, C>)
        ensures
            r.client == self.client,
            r.node@ == self.node@,
    {
        qemu::QemuApi::new(self.client, self.node.as_str())
    }
}

} // verus!
