use vstd::prelude::*;
use crate::address::{AddressFamily, is_address_of, is_ipv4, is_ipv6, is_valid_address};
use crate::http::{Reply, is_success, success};

verus! {

/// Why the public address could not be learned.
#[derive(Debug)]
pub enum DiscoveryError {
    /// The echo service could not be reached.
    Unreachable,
    /// The echo service answered with a status outside 2xx.
    HttpStatus(u16),
    /// The echo service answered with text that is no address of the family asked for.
    InvalidAddress(String),
}

/// The echo service asked for an address of `family` where none is configured.
pub fn default_endpoint(family: AddressFamily) -> (r: String)
    ensures
        family == AddressFamily::V4 ==> r@ == "https://api.ipify.org"@,
        family == AddressFamily::V6 ==> r@ == "https://api6.ipify.org"@,
{
    match family {
        AddressFamily::V4 => String::from_str("https://api.ipify.org"),
        AddressFamily::V6 => String::from_str("https://api6.ipify.org"),
    }
}

/// The address that the echo service reported, checked against `family`.
pub fn check_discovery_reply(family: AddressFamily, reply: Reply) -> (r: Result<String, DiscoveryError>)
    ensures
        reply is Unreachable ==> r matches Err(DiscoveryError::Unreachable),
        reply matches Reply::Received { status, body } ==> {
            &&& !is_success(status) ==> (r matches Err(DiscoveryError::HttpStatus(s)) && s
                == status)
            &&& is_success(status) && is_address_of(family, body@) ==> (r matches Ok(a) && a@
                == body@)
            &&& is_success(status) && !is_address_of(family, body@) ==> (r matches Err(
                DiscoveryError::InvalidAddress(b),
            ) && b@ == body@)
        },
{
    match reply {
        Reply::Unreachable => Err(DiscoveryError::Unreachable),
        Reply::Received { status, body } => {
            if !success(status) {
                Err(DiscoveryError::HttpStatus(status))
            } else if is_valid_address(family, body.as_str()) {
                Ok(body)
            } else {
                Err(DiscoveryError::InvalidAddress(body))
            }
        },
    }
}

/// The address that the echo service reported, of either family.
pub fn check_any_address_reply(reply: Reply) -> (r: Result<String, DiscoveryError>)
    ensures
        reply is Unreachable ==> r matches Err(DiscoveryError::Unreachable),
        reply matches Reply::Received { status, body } ==> {
            &&& !is_success(status) ==> (r matches Err(DiscoveryError::HttpStatus(s)) && s
                == status)
            &&& is_success(status) && (is_ipv4(body@) || is_ipv6(body@)) ==> (r matches Ok(a)
                && a@ == body@)
            &&& is_success(status) && !(is_ipv4(body@) || is_ipv6(body@)) ==> (r matches Err(
                DiscoveryError::InvalidAddress(b),
            ) && b@ == body@)
        },
{
    match reply {
        Reply::Unreachable => Err(DiscoveryError::Unreachable),
        Reply::Received { status, body } => {
            if !success(status) {
                Err(DiscoveryError::HttpStatus(status))
            } else if is_valid_address(AddressFamily::V4, body.as_str()) || is_valid_address(
                AddressFamily::V6,
                body.as_str(),
            ) {
                Ok(body)
            } else {
                Err(DiscoveryError::InvalidAddress(body))
            }
        },
    }
}

} // verus!
