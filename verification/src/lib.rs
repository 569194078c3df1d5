//! Region management for a server panel: the data model of regions, the
//! validation of requests, the statements that create and update a region
//! inside one transaction, and the replies of the admin and client routes.

pub mod manager;
pub mod models;
pub mod permissions;
pub mod request_laws;
pub mod routes;
pub mod validation;
pub mod write_laws;

use vstd::prelude::*;

verus! {

/// The extension that adds regions to the panel.
pub struct ExtensionStruct;

impl Default for ExtensionStruct {
    fn default() -> (r: Self)
        ensures
            r == ExtensionStruct,
    {
        ExtensionStruct
    }
}

} // verus!
