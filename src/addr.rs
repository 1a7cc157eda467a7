//! Addresses: a numeric IP address, the same paired with the text it was
//! parsed from, and an address with a port.
use vstd::prelude::*;
use vstd::string::StringSliceAdditionalSpecFns;

verus! {

/// A numeric IPv4 or IPv6 address.
#[derive(Clone, Copy, Debug, PartialEq, Eq)]
pub enum IpAddr {
    V4([u8; 4]),
    V6([u8; 16]),
}

impl IpAddr {
    /// The address's octets in network order: four for IPv4, sixteen for IPv6.
    pub open spec fn octets(&self) -> Seq<u8> {
        match self {
            IpAddr::V4(a) => a@,
            IpAddr::V6(a) => a@,
        }
    }
}

/// What the IP-literal parser of no_std_net yields for a string: the octets
/// of the address it denotes, or nothing when it is no IP literal.
pub uninterp spec fn ip_literal_octets(s: Seq<char>) -> Option<Seq<u8>>;

/// Relies on `no_std_net::IpAddr::from_str`, which recognises an IPv4 or
/// IPv6 literal and nothing else, and on `Ipv4Addr::octets` and
/// `Ipv6Addr::octets`, which hand back the parsed address's bytes.
#[verifier::external_body]
fn parse_ip_literal(s: &str) -> (r: Option<IpAddr>)
    ensures
        match r {
            Some(ip) => ip_literal_octets(s@) == Some(ip.octets()),
            None => ip_literal_octets(s@) is None,
        },
{
    match <no_std_net::IpAddr as core::str::FromStr>::from_str(s) {
        Ok(no_std_net::IpAddr::V4(a)) => Some(IpAddr::V4(a.octets())),
        Ok(no_std_net::IpAddr::V6(a)) => Some(IpAddr::V6(a.octets())),
        Err(_) => None,
    }
}

/// The fixed-capacity string of heapless, which holds hostname labels.
#[verifier::external_type_specification]
#[verifier::external_body]
pub struct ExHeaplessString<const N: usize>(heapless::String<N>);

/// The characters held by a fixed-capacity hostname label.
pub uninterp spec fn label_chars(h: heapless::String<256>) -> Seq<char>;

/// Relies on `heapless::String::from_str`, which copies the text when its
/// UTF-8 bytes fit the capacity and fails otherwise.
#[verifier::external_body]
fn label_from(s: &str) -> (r: Option<heapless::String<256>>)
    ensures
        r is Some <==> s.spec_bytes().len() <= 256,
        r matches Some(h) ==> label_chars(h) == s@,
{
    <heapless::String<256> as core::str::FromStr>::from_str(s).ok()
}

/// A numeric address with a port, as transport code below this layer needs it.
#[derive(Clone, Copy, Debug, PartialEq, Eq)]
pub struct SocketAddr {
    pub ip: IpAddr,
    pub port: u16,
}

/// An IP address, with the text it was parsed from when it came from text.
#[derive(Debug)]
pub struct HostAddr {
    ip: IpAddr,
    hostname: Option<heapless::String<256>>,
}

/// The characters of an optional hostname label.
pub open spec fn label_view(l: Option<heapless::String<256>>) -> Option<Seq<char>> {
    match l {
        Some(h) => Some(label_chars(h)),
        None => None,
    }
}

impl HostAddr {
    /// The address.
    pub closed spec fn ip_spec(&self) -> IpAddr {
        self.ip
    }

    /// The address `ip` with no hostname label.
    pub closed spec fn unlabelled(ip: IpAddr) -> HostAddr {
        HostAddr { ip, hostname: None }
    }

    /// The characters of the hostname label, if there is one.
    pub closed spec fn hostname_spec(&self) -> Option<Seq<char>> {
        label_view(self.hostname)
    }

    /// An address with the given label, taken as it is.
    pub fn new(ip: IpAddr, hostname: Option<heapless::String<256>>) -> (r: HostAddr)
        ensures
            r.ip_spec() == ip,
            r.hostname_spec() == label_view(hostname),
    {
        HostAddr { ip, hostname }
    }

    /// The IPv4 address of `octets`, with no label.
    pub fn ipv4(octets: [u8; 4]) -> (r: HostAddr)
        ensures
            r.ip_spec() == IpAddr::V4(octets),
            r.ip_spec().octets() == octets@,
            r.hostname_spec() is None,
    {
        HostAddr { ip: IpAddr::V4(octets), hostname: None }
    }

    /// The IPv6 address of `octets`, with no label.
    pub fn ipv6(octets: [u8; 16]) -> (r: HostAddr)
        ensures
            r.ip_spec() == IpAddr::V6(octets),
            r.ip_spec().octets() == octets@,
            r.hostname_spec() is None,
    {
        HostAddr { ip: IpAddr::V6(octets), hostname: None }
    }

    /// The numeric address.
    pub fn ip(&self) -> (r: IpAddr)
        ensures
            r == self.ip_spec(),
    {
        self.ip
    }

    /// The text the address was parsed from, if it was.
    pub fn hostname(&self) -> (r: Option<&heapless::String<256>>)
        ensures
            match r {
                Some(h) => self.hostname_spec() == Some(label_chars(*h)),
                None => self.hostname_spec() is None,
            },
    {
        self.hostname.as_ref()
    }

    /// Reads an IPv4 or IPv6 literal and keeps the text as the hostname
    /// label. Anything else, a symbolic name included, is refused, as is a
    /// literal whose text does not fit the label's 256 bytes.
    pub fn from_str(s: &str) -> (r: Result<HostAddr, AddrParseError>)
        ensures
            r is Ok <==> ip_literal_octets(s@) is Some && s.spec_bytes().len() <= 256,
            r matches Ok(h) ==> ip_literal_octets(s@) == Some(h.ip_spec().octets())
                && h.hostname_spec() == Some(s@),
    {
        match parse_ip_literal(s) {
            None => Err(AddrParseError),
            Some(ip) => match label_from(s) {
                None => Err(AddrParseError),
                Some(label) => Ok(HostAddr::new(ip, Some(label))),
            },
        }
    }
}

impl core::str::FromStr for HostAddr {
    type Err = AddrParseError;

    fn from_str(s: &str) -> Result<HostAddr, AddrParseError> {
        HostAddr::from_str(s)
    }
}

impl From<IpAddr> for HostAddr {
    /// An address with no hostname label.
    fn from(ip: IpAddr) -> HostAddr {
        HostAddr { ip, hostname: None }
    }
}

impl vstd::std_specs::convert::FromSpecImpl<IpAddr> for HostAddr {
    open spec fn obeys_from_spec() -> bool {
        true
    }

    open spec fn from_spec(ip: IpAddr) -> HostAddr {
        HostAddr::unlabelled(ip)
    }
}

/// The text was no IP literal the address model accepts.
#[derive(Clone, Copy, Debug, PartialEq, Eq)]
pub struct AddrParseError;

/// An address, possibly with its hostname label, and a port.
#[derive(Debug)]
pub struct HostSocketAddr {
    addr: HostAddr,
    port: u16,
}

impl HostSocketAddr {
    /// The address part.
    pub closed spec fn addr_spec(&self) -> HostAddr {
        self.addr
    }

    /// The port.
    pub closed spec fn port_spec(&self) -> u16 {
        self.port
    }

    /// The socket address made of `addr` and `port`.
    pub closed spec fn spec_new(addr: HostAddr, port: u16) -> HostSocketAddr {
        HostSocketAddr { addr, port }
    }

    /// Pairs an address with a port.
    pub fn new(addr: HostAddr, port: u16) -> (r: HostSocketAddr)
        ensures
            r == HostSocketAddr::spec_new(addr, port),
            r.addr_spec() == addr,
            r.port_spec() == port,
    {
        HostSocketAddr { addr, port }
    }

    /// Reads the address part from text, as `HostAddr::from_str` does.
    pub fn from(addr: &str, port: u16) -> (r: Result<HostSocketAddr, AddrParseError>)
        ensures
            r is Ok <==> ip_literal_octets(addr@) is Some && addr.spec_bytes().len() <= 256,
            r matches Ok(a) ==> ip_literal_octets(addr@) == Some(a.addr_spec().ip_spec().octets())
                && a.addr_spec().hostname_spec() == Some(addr@)
                && a.port_spec() == port,
    {
        match HostAddr::from_str(addr) {
            Ok(h) => Ok(HostSocketAddr::new(h, port)),
            Err(e) => Err(e),
        }
    }

    /// The address part.
    pub fn addr(&self) -> (r: &HostAddr)
        ensures
            *r == self.addr_spec(),
    {
        &self.addr
    }

    /// The port.
    pub fn port(&self) -> (r: u16)
        ensures
            r == self.port_spec(),
    {
        self.port
    }

    /// The numeric address and the port, without the hostname label.
    pub fn as_socket_addr(&self) -> (r: SocketAddr)
        ensures
            r == (SocketAddr { ip: self.addr_spec().ip_spec(), port: self.port_spec() }),
    {
        SocketAddr { ip: self.addr.ip, port: self.port }
    }
}

/// An address made from a bare IP value holds that IP and has no hostname
/// label.
pub proof fn lemma_unlabelled(ip: IpAddr)
    ensures
        HostAddr::unlabelled(ip).ip_spec() == ip,
        HostAddr::unlabelled(ip).hostname_spec() is None,
{
}

/// A socket address built from an address and a port hands back that port,
/// and an address whose IP is the one it was built from.
pub proof fn lemma_socket_addr_parts(addr: HostAddr, port: u16)
    ensures
        HostSocketAddr::spec_new(addr, port).port_spec() == port,
        HostSocketAddr::spec_new(addr, port).addr_spec().ip_spec() == addr.ip_spec(),
{
}

} // verus!
