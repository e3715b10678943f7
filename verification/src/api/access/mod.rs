//! The access API: authentication realms.
pub mod realms;

use vstd::prelude::*;

verus! {

/// Access API operations over a client of type `C`.
pub struct AccessApi<'a, C> {
    pub client: &'a C,
}

impl<'a, C> AccessApi<'a, C> {
    pub fn new(client: &'a C) -> (r: Self)
        ensures
            r.client == client,
    {
        AccessApi { client }
    }

    /// Realm operations over the same client.
    pub fn realms(&self) -> (r: realms::RealmsApi<'a, C>)
        ensures
            r.client == self.client,
    {
        realms::RealmsApi::new(self.client)
    }
}

} // verus!
