//! The decisions of the DHCP paths: releasing an expired lease's allocation, and the
//! settings a discovery needs.

use vstd::prelude::*;

use crate::endpoints::{mac_parse, parse_mac};

verus! {

/// Which allocation an expired lease releases.
#[derive(Debug, Clone)]
pub enum LeaseRelease {
    /// The allocation of the address to the interface with this MAC address (six bytes).
    ByAddressAndMac(Vec<u8>),
    /// The allocation of the address, whoever holds it: an administrator releasing an
    /// address.
    ByAddress,
}

/// Which allocation an expired lease releases, given the MAC address the request names, if
/// any; a MAC address that does not read as one refuses the request with the reason.
pub fn lease_release(mac_address: Option<String>) -> (r: Result<LeaseRelease, String>)
    ensures
        match mac_address {
            None => r matches Ok(LeaseRelease::ByAddress),
            Some(m) => match mac_parse(m@) {
                Ok(bytes) => r matches Ok(LeaseRelease::ByAddressAndMac(b)) && b@ == bytes,
                Err(e) => r matches Err(x) && x@ == e,
            },
        },
{
    match mac_address {
        None => Ok(LeaseRelease::ByAddress),
        Some(m) => match parse_mac(m.as_str()) {
            Ok(bytes) => Ok(LeaseRelease::ByAddressAndMac(bytes)),
            Err(e) => Err(e),
        },
    }
}

/// What releasing an expired lease's allocation did.
#[derive(Debug, Clone, Copy, PartialEq, Eq, Structural)]
pub enum ExpireDhcpLeaseStatus {
    Released,
    NotFound,
}

/// The status of an expired lease, given whether an allocation was deleted.
pub fn lease_status(deleted: bool) -> (r: ExpireDhcpLeaseStatus)
    ensures
        r == (if deleted {
            ExpireDhcpLeaseStatus::Released
        } else {
            ExpireDhcpLeaseStatus::NotFound
        }),
{
    if deleted {
        ExpireDhcpLeaseStatus::Released
    } else {
        ExpireDhcpLeaseStatus::NotFound
    }
}

/// The API URL that a discovery is sent to, which the DHCP configuration must give.
pub fn discovery_api_url(nico_api_url: Option<String>) -> (r: Result<String, String>)
    ensures
        match nico_api_url {
            Some(u) => r matches Ok(x) && x@ == u@,
            None => r matches Err(e) && e@ == "nico_api_url in DhcpConfig"@,
        },
{
    match nico_api_url {
        Some(u) => Ok(u),
        None => Err(String::from_str("nico_api_url in DhcpConfig")),
    }
}

} // verus!
