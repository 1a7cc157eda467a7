//! The DNS capability a driver offers: name to address and back.
use vstd::prelude::*;

use crate::addr::{HostAddr, IpAddr};

verus! {

/// Which address family a lookup may answer with.
#[derive(Clone, Copy, Debug, PartialEq, Eq)]
pub enum AddrType {
    IPv4,
    IPv6,
    Either,
}

impl AddrType {
    /// Whether `ip` belongs to a family this hint allows.
    pub open spec fn admits(self, ip: IpAddr) -> bool {
        match self {
            AddrType::IPv4 => ip is V4,
            AddrType::IPv6 => ip is V6,
            AddrType::Either => true,
        }
    }

    /// Tells whether a resolved address may be handed back under this hint.
    pub fn accepts(&self, ip: &IpAddr) -> (r: bool)
        ensures
            r == self.admits(*ip),
    {
        match self {
            AddrType::IPv4 => matches!(ip, IpAddr::V4(_)),
            AddrType::IPv6 => matches!(ip, IpAddr::V6(_)),
            AddrType::Either => true,
        }
    }
}

/// The outcomes of a lookup that the caller must handle.
#[non_exhaustive]
#[derive(Clone, Copy, Debug, PartialEq, Eq)]
pub enum DnsError {
    /// The name does not resolve.
    NotFound,
    /// The driver has no route to a resolver.
    NoResolver,
    /// The name has no address of the family asked for.
    AddrTypeUnavailable,
    /// A driver-specific numeric code.
    ErrorCode(u32),
    Unknown,
}

/// Implemented by drivers that can resolve host names.
pub trait Dns {
    /// The driver's own error, convertible into the shared taxonomy.
    type Error: Into<DnsError> + core::fmt::Debug;

    /// Resolves `hostname` to an address of a family that `addr_type` allows.
    fn gethostbyname(&self, hostname: &str, addr_type: AddrType) -> (r: Result<
        HostAddr,
        Self::Error,
    >)
        ensures
            r matches Ok(h) ==> addr_type.admits(h.ip_spec()),
    ;

    /// Finds a host name for `addr`.
    fn gethostbyaddr(&self, addr: IpAddr) -> Result<heapless::String<256>, Self::Error>;
}

} // verus!
