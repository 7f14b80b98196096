//! The bridge's own configuration resource.
//!
//! Fetched once at startup as a connectivity check: a successful answer
//! proves the bridge is reachable and names it.

use vstd::prelude::*;

verus! {

/// Request marker: fetch the bridge's configuration resource.
#[derive(Debug, Clone, Copy, PartialEq, Eq, Hash, Structural)]
pub struct Config {}

/// The bridge's self-description.
#[derive(Debug, Clone, PartialEq, Eq, Hash)]
pub struct ConfigResponse {
    pub name: String,
    pub datastoreversion: String,
    pub swversion: String,
    pub apiversion: String,
    pub mac: String,
    pub bridgeid: String,
    pub factorynew: bool,
    pub replacesbridgeid: Option<String>,
    pub modelid: String,
    pub starterkitid: Option<String>,
}

impl Config {
    /// The resource path of the bridge configuration.
    pub fn endpoint(&self) -> (r: String)
        ensures
            r@ == "/api/config"@,
    {
        String::from_str("/api/config")
    }
}

} // verus!
