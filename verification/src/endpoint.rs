//! Socket addresses as plain integers.

use vstd::prelude::*;

verus! {

/// The address record a query asks for.
#[derive(Clone, Copy, Debug, PartialEq, Eq, Hash, Structural)]
pub enum RecordKind {
    /// An IPv4 address record.
    A,
    /// An IPv6 address record.
    Aaaa,
}

/// An IP address of either family, in host byte order.
#[derive(Clone, Copy, Debug, PartialEq, Eq, Hash, Structural)]
pub enum IpAddress {
    V4(u32),
    V6(u128),
}

/// A socket address: where queries go to and where datagrams come from.
///
/// Two endpoints are equal when every field is equal, the flow information
/// and the scope of an IPv6 endpoint included.
/// An IPv4 socket address.
#[derive(Clone, Copy, Debug, PartialEq, Eq, Hash, Structural)]
pub struct EndpointV4 {
    pub addr: u32,
    pub port: u16,
}

/// An IPv6 socket address.
#[derive(Clone, Copy, Debug, PartialEq, Eq, Hash, Structural)]
pub struct EndpointV6 {
    pub addr: u128,
    pub port: u16,
    pub flowinfo: u32,
    pub scope_id: u32,
}

/// A socket address: where queries go to and where datagrams come from.
///
/// Two endpoints are equal when every field is equal, the flow information
/// and the scope of an IPv6 endpoint included.
#[derive(Clone, Copy, Debug, PartialEq, Eq, Hash, Structural)]
pub enum Endpoint {
    V4(EndpointV4),
    V6(EndpointV6),
}

impl Endpoint {
    /// The endpoint of `ip` at `port`, with flow information and scope zero.
    pub fn new(ip: IpAddress, port: u16) -> (e: Endpoint)
        ensures
            e == Self::spec_new(ip, port),
    {
        match ip {
            IpAddress::V4(addr) => Endpoint::V4(EndpointV4 { addr, port }),
            IpAddress::V6(addr) => Endpoint::V6(EndpointV6 { addr, port, flowinfo: 0, scope_id: 0 }),
        }
    }

    pub open spec fn spec_new(ip: IpAddress, port: u16) -> Endpoint {
        match ip {
            IpAddress::V4(addr) => Endpoint::V4(EndpointV4 { addr, port }),
            IpAddress::V6(addr) => Endpoint::V6(EndpointV6 { addr, port, flowinfo: 0, scope_id: 0 }),
        }
    }

    pub open spec fn spec_ip(self) -> IpAddress {
        match self {
            Endpoint::V4(v4) => IpAddress::V4(v4.addr),
            Endpoint::V6(v6) => IpAddress::V6(v6.addr),
        }
    }

    pub open spec fn spec_port(self) -> u16 {
        match self {
            Endpoint::V4(v4) => v4.port,
            Endpoint::V6(v6) => v6.port,
        }
    }

    /// The record kind that goes with the family: `A` for IPv4, `Aaaa` for IPv6.
    pub open spec fn spec_record_kind(self) -> RecordKind {
        if self is V6 {
            RecordKind::Aaaa
        } else {
            RecordKind::A
        }
    }

    /// The wildcard address of the same family with port zero.
    pub open spec fn spec_unspecified(self) -> Endpoint {
        if self is V6 {
            Endpoint::V6(EndpointV6 { addr: 0, port: 0, flowinfo: 0, scope_id: 0 })
        } else {
            Endpoint::V4(EndpointV4 { addr: 0, port: 0 })
        }
    }

    pub fn ip(&self) -> (ip: IpAddress)
        ensures
            ip == self.spec_ip(),
    {
        match self {
            Endpoint::V4(v4) => IpAddress::V4(v4.addr),
            Endpoint::V6(v6) => IpAddress::V6(v6.addr),
        }
    }

    pub fn port(&self) -> (port: u16)
        ensures
            port == self.spec_port(),
    {
        match self {
            Endpoint::V4(v4) => v4.port,
            Endpoint::V6(v6) => v6.port,
        }
    }

    pub fn is_ipv6(&self) -> (b: bool)
        ensures
            b == (*self is V6),
    {
        match self {
            Endpoint::V4(_) => false,
            Endpoint::V6(_) => true,
        }
    }

    /// Which record a query to this endpoint asks for.
    pub fn record_kind(&self) -> (kind: RecordKind)
        ensures
            kind == self.spec_record_kind(),
    {
        if self.is_ipv6() {
            RecordKind::Aaaa
        } else {
            RecordKind::A
        }
    }

    /// Whether both endpoints belong to one IP family.
    pub fn same_family(&self, other: &Endpoint) -> (b: bool)
        ensures
            b == ((*self is V6) == (*other is V6)),
    {
        self.is_ipv6() == other.is_ipv6()
    }

    /// The local address to bind for traffic with this endpoint: the wildcard
    /// address of its family, port zero.
    pub fn unspecified(&self) -> (local: Endpoint)
        ensures
            local == self.spec_unspecified(),
    {
        if self.is_ipv6() {
            Endpoint::V6(EndpointV6 { addr: 0, port: 0, flowinfo: 0, scope_id: 0 })
        } else {
            Endpoint::V4(EndpointV4 { addr: 0, port: 0 })
        }
    }
}

} // verus!
