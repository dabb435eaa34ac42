//! Requests to a FlareSolverr challenge-solving service.

use vstd::prelude::*;

use crate::text::{decimal, u64_to_decimal};

verus! {

/// A FlareSolverr request.
#[derive(Debug, PartialEq, Eq)]
pub struct BypassRequest {
    pub cmd: String,
    pub url: String,
    /// In milliseconds.
    pub max_timeout: u32,
}

/// A FlareSolverr reply.
#[derive(Debug, PartialEq, Eq)]
pub struct ReturnValue {
    pub test: String,
}

/// The request that fetches `url` through the service, with a one-minute
/// limit.
pub fn bypass_request(url: String) -> (r: BypassRequest)
    ensures
        r.cmd@ == "requests.get"@,
        r.url@ == url@,
        r.max_timeout == 60000,
{
    BypassRequest { cmd: String::from_str("requests.get"), url, max_timeout: 60000 }
}

/// The address of the service on the local machine at `port`.
pub fn flaresolverr_endpoint(port: u16) -> (r: String)
    ensures
        r@ == "http://localhost:"@ + decimal(port as nat) + "/"@,
{
    let mut r = String::from_str("http://localhost:");
    let p = u64_to_decimal(port as u64);
    r.append(p.as_str());
    r.append("/");
    r
}

} // verus!
