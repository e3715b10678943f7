//! The server's version.
use vstd::prelude::*;

verus! {

/// The Proxmox VE version information.
pub struct VersionInfo {
    pub version: String,
    pub release: String,
    pub repoid: String,
}

/// The path of the version endpoint.
pub fn version_path() -> (r: &'static str)
    ensures
        r@ == "/api2/json/version"@,
{
    "/api2/json/version"
}

} // verus!
