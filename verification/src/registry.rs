//! The data the service hands to the discovery registry on startup: what it is
//! called, where it listens, and how to probe its health. Sending these values
//! over the network is the registry client's business, outside the library.

use vstd::prelude::*;

verus! {

/// A liveness probe the registry may run against the service.
pub struct ServiceCheck {
    pub http: String,
    pub interval: String,
    pub timeout: String,
}

/// The announcement of the service's own network location.
pub struct ServiceRegistration {
    pub id: String,
    pub name: String,
    pub tags: Vec<String>,
    pub address: String,
    pub port: u16,
    pub check: Option<ServiceCheck>,
}

} // verus!
