//! How the DPU agent finds the machine ID of its host: through the host's machine interface,
//! whose ID the agent's configuration or the periodically fetched configuration gives.

use vstd::prelude::*;

use crate::text::{decimal, push_decimal, push_str};

verus! {

/// The interface of the host: the configured one, else the fetched one.
pub fn host_interface_id(configured: Option<String>, fetched: Option<String>) -> (r: Option<String>)
    ensures
        match configured {
            Some(c) => r matches Some(x) && x@ == c@,
            None => match fetched {
                Some(f) => r matches Some(x) && x@ == f@,
                None => r is None,
            },
        },
{
    match configured {
        Some(c) => Some(c),
        None => fetched,
    }
}

/// Checks that an interface search found exactly one interface.
pub fn single_interface(found: usize) -> (r: Result<(), String>)
    ensures
        found == 1 ==> r is Ok,
        found != 1 ==> (r matches Err(e) && e@ == "expected exactly 1 interface, found "@ + decimal(found as nat)),
{
    if found != 1 {
        let mut m = String::from_str("expected exactly 1 interface, found ");
        push_decimal(&mut m, found as u64);
        return Err(m);
    }
    Ok(())
}

/// The error of a failed connection to the API server.
pub fn connection_error(nico_api: &str, error: &str) -> (r: String)
    ensures
        r@ == "Could not connect to NICo API server at "@ + nico_api@ + ": "@ + error@,
{
    let mut m = String::from_str("Could not connect to NICo API server at ");
    push_str(&mut m, nico_api);
    push_str(&mut m, ": ");
    push_str(&mut m, error);
    m
}

} // verus!
