//! Relay addresses given as text: `host:port`, resolved to one address of
//! each IP family.

use vstd::prelude::*;
use vstd::string::StringSliceAdditionalSpecFns;
use vstd::utf8::{encode_utf8_valid_utf8, is_char_boundary_iff_not_is_continuation_byte};
use crate::endpoint::{Endpoint, EndpointV4, EndpointV6, IpAddress};
use crate::error::ProbeError;

verus! {

/// The byte `:`.
pub const COLON: u8 = 0x3a;

/// The byte `+`.
pub const PLUS: u8 = 0x2b;

/// The byte `0`.
pub const ZERO: u8 = 0x30;

/// The byte `9`.
pub const NINE: u8 = 0x39;

pub open spec fn is_digit(byte: u8) -> bool {
    ZERO <= byte <= NINE
}

/// The number that a run of decimal digits denotes.
pub open spec fn decimal_value(digits: Seq<u8>) -> nat
    decreases digits.len(),
{
    if digits.len() == 0 {
        0
    } else {
        decimal_value(digits.drop_last()) * 10 + (if is_digit(digits.last()) {
            (digits.last() - ZERO) as nat
        } else {
            0
        })
    }
}

pub open spec fn all_digits(digits: Seq<u8>) -> bool {
    forall|i: int| 0 <= i < digits.len() ==> is_digit(#[trigger] digits[i])
}

/// The text without a leading plus sign.
pub open spec fn unsigned_digits(text: Seq<u8>) -> Seq<u8> {
    if text.len() > 0 && text[0] == PLUS {
        text.skip(1)
    } else {
        text
    }
}

/// The port that a text denotes: decimal digits, at least one, after at most
/// one plus sign, with a value that fits in sixteen bits.
pub open spec fn port_value(text: Seq<u8>) -> Option<u16> {
    let digits = unsigned_digits(text);
    if digits.len() > 0 && all_digits(digits) && decimal_value(digits) <= u16::MAX {
        Some(decimal_value(digits) as u16)
    } else {
        None
    }
}

/// `text` holds exactly one colon, and it stands at `at`.
pub open spec fn splits_at(text: Seq<u8>, at: int) -> bool {
    &&& 0 <= at < text.len()
    &&& text[at] == COLON
    &&& forall|j: int| 0 <= j < text.len() && j != at ==> text[j] != COLON
}

/// A longer run of digits denotes no smaller a number than its beginning.
proof fn lemma_decimal_value_grows(digits: Seq<u8>, k: int)
    requires
        0 <= k <= digits.len(),
    ensures
        decimal_value(digits.take(k)) <= decimal_value(digits),
    decreases digits.len() - k,
{
    if k == digits.len() {
        assert(digits.take(k) =~= digits);
    } else {
        lemma_decimal_value_grows(digits, k + 1);
        assert(digits.take(k + 1).drop_last() =~= digits.take(k));
    }
}

/// Reads the port that stands in `text` from `from` to the end.
fn parse_port_from(text: &[u8], from: usize) -> (port: Option<u16>)
    requires
        from <= text.len(),
    ensures
        port == port_value(text@.skip(from as int)),
{
    let ghost whole = text@.skip(from as int);
    let mut start: usize = from;
    if start < text.len() && text[start] == PLUS {
        start = start + 1;
    }
    let ghost digits = unsigned_digits(whole);
    assert(digits =~= text@.skip(start as int));
    if start == text.len() {
        return None;
    }
    let mut value: u32 = 0;
    let mut i: usize = start;
    while i < text.len()
        invariant
            start <= i <= text.len(),
            whole == text@.skip(from as int),
            digits == text@.skip(start as int),
            digits == unsigned_digits(whole),
            digits.len() > 0,
            all_digits(digits.take(i - start)),
            value == decimal_value(digits.take(i - start)),
            value <= u16::MAX,
        decreases text.len() - i,
    {
        let byte = text[i];
        proof {
            assert(digits[i - start] == byte);
            assert(digits.take(i - start + 1).drop_last() =~= digits.take(i - start));
            assert(digits.take(i - start + 1).last() == byte);
        }
        if byte < ZERO || byte > NINE {
            assert(!is_digit(digits[i - start]));
            assert(!all_digits(digits));
            return None;
        }
        let next: u32 = value * 10 + (byte - ZERO) as u32;
        if next > 65535 {
            proof {
                lemma_decimal_value_grows(digits, i - start + 1);
            }
            return None;
        }
        assert forall|k: int| 0 <= k < i - start + 1 implies is_digit(
            #[trigger] digits.take(i - start + 1)[k],
        ) by {
            if k < i - start {
                assert(digits.take(i - start + 1)[k] == digits.take(i - start)[k]);
            }
        }
        value = next;
        i = i + 1;
    }
    assert(digits.take(i - start) =~= digits);
    Some(value as u16)
}

/// Reads a port number as the standard library reads a `u16`.
pub fn parse_port(text: &str) -> (port: Option<u16>)
    ensures
        port == port_value(text.spec_bytes()),
{
    let bytes = text.as_bytes();
    assert(bytes@.skip(0) =~= bytes@);
    parse_port_from(bytes, 0)
}

/// Divides `host:port` at its only colon: hands back the host, and the
/// port that the rest denotes.
///
/// The answer is `None` when the text holds no colon or more than one, and
/// when what follows the colon is no port.
pub fn split_host_port(text: &str) -> (parts: Option<(&str, u16)>)
    ensures
        match parts {
            Some((host, port)) => {
                &&& splits_at(text.spec_bytes(), host.spec_bytes().len() as int)
                &&& host.spec_bytes() == text.spec_bytes().take(host.spec_bytes().len() as int)
                &&& port_value(text.spec_bytes().skip(host.spec_bytes().len() as int + 1)) == Some(
                    port,
                )
            },
            None => forall|at: int|
                splits_at(text.spec_bytes(), at) ==> port_value(
                    #[trigger] text.spec_bytes().skip(at + 1),
                ) is None,
        },
{
    let bytes = text.as_bytes();
    let mut at: usize = 0;
    while at < bytes.len() && bytes[at] != COLON
        invariant
            at <= bytes.len(),
            forall|j: int| 0 <= j < at ==> bytes@[j] != COLON,
        decreases bytes.len() - at,
    {
        at = at + 1;
    }
    if at == bytes.len() {
        return None;
    }
    let mut rest: usize = at + 1;
    while rest < bytes.len()
        invariant
            at < rest <= bytes.len(),
            bytes@ == text.spec_bytes(),
            bytes@[at as int] == COLON,
            forall|j: int| 0 <= j < rest && j != at ==> bytes@[j] != COLON,
        decreases bytes.len() - rest,
    {
        if bytes[rest] == COLON {
            assert forall|k: int| !splits_at(text.spec_bytes(), k) by {
                if k == at {
                    assert(bytes@[rest as int] == COLON);
                } else {
                    assert(bytes@[at as int] == COLON);
                }
            }
            return None;
        }
        rest = rest + 1;
    }
    assert(splits_at(bytes@, at as int));
    match parse_port_from(bytes, at + 1) {
        Some(port) => {
            proof {
                // a colon is no continuation byte, so a character starts at it
                encode_utf8_valid_utf8(text@);
                is_char_boundary_iff_not_is_continuation_byte(bytes@, at as int);
            }
            let (host, _) = text.split_at(at);
            Some((host, port))
        },
        None => None,
    }
}

/// The first IPv4 address of a list, if it holds one.
pub open spec fn first_v4(addrs: Seq<IpAddress>) -> Option<u32>
    decreases addrs.len(),
{
    if addrs.len() == 0 {
        None
    } else {
        match addrs.first() {
            IpAddress::V4(addr) => Some(addr),
            IpAddress::V6(_) => first_v4(addrs.drop_first()),
        }
    }
}

/// The first IPv6 address of a list, if it holds one.
pub open spec fn first_v6(addrs: Seq<IpAddress>) -> Option<u128>
    decreases addrs.len(),
{
    if addrs.len() == 0 {
        None
    } else {
        match addrs.first() {
            IpAddress::V4(_) => first_v6(addrs.drop_first()),
            IpAddress::V6(addr) => Some(addr),
        }
    }
}

/// Picks the first IPv4 address out of what a lookup returned.
pub fn pick_v4(addrs: &Vec<IpAddress>) -> (found: Option<u32>)
    ensures
        found == first_v4(addrs@),
{
    let mut i: usize = 0;
    assert(addrs@.skip(0) =~= addrs@);
    while i < addrs.len()
        invariant
            i <= addrs.len(),
            first_v4(addrs@) == first_v4(addrs@.skip(i as int)),
        decreases addrs.len() - i,
    {
        assert(addrs@.skip(i as int).drop_first() =~= addrs@.skip(i + 1));
        match addrs[i] {
            IpAddress::V4(addr) => {
                return Some(addr);
            },
            IpAddress::V6(_) => {},
        }
        i = i + 1;
    }
    None
}

/// Picks the first IPv6 address out of what a lookup returned.
pub fn pick_v6(addrs: &Vec<IpAddress>) -> (found: Option<u128>)
    ensures
        found == first_v6(addrs@),
{
    let mut i: usize = 0;
    assert(addrs@.skip(0) =~= addrs@);
    while i < addrs.len()
        invariant
            i <= addrs.len(),
            first_v6(addrs@) == first_v6(addrs@.skip(i as int)),
        decreases addrs.len() - i,
    {
        assert(addrs@.skip(i as int).drop_first() =~= addrs@.skip(i + 1));
        match addrs[i] {
            IpAddress::V4(_) => {},
            IpAddress::V6(addr) => {
                return Some(addr);
            },
        }
        i = i + 1;
    }
    None
}

/// A relay address: at most one socket address of each family, and the text
/// it was resolved from where it was given by name.
#[derive(Debug, PartialEq, Eq, Hash)]
pub struct ResolvableSocketAddr {
    addr_v4: Option<EndpointV4>,
    addr_v6: Option<EndpointV6>,
    alias: Option<String>,
}

/// What a [`ResolvableSocketAddr`] holds.
pub ghost struct ResolvableView {
    pub addr_v4: Option<EndpointV4>,
    pub addr_v6: Option<EndpointV6>,
    pub alias: Option<Seq<char>>,
}

impl ResolvableView {
    /// An address of at least one family is known.
    pub open spec fn wf(self) -> bool {
        self.addr_v4 is Some || self.addr_v6 is Some
    }

    /// The address of the family that `server` belongs to.
    pub open spec fn toward(self, server: IpAddress) -> Option<Endpoint> {
        match server {
            IpAddress::V4(_) => match self.addr_v4 {
                Some(v4) => Some(Endpoint::V4(v4)),
                None => None,
            },
            IpAddress::V6(_) => match self.addr_v6 {
                Some(v6) => Some(Endpoint::V6(v6)),
                None => None,
            },
        }
    }

    /// What a lookup of a name gives: the first address of each family, all
    /// at one port.
    pub open spec fn of_lookup(text: Seq<char>, port: u16, addrs: Seq<IpAddress>) -> ResolvableView {
        ResolvableView {
            addr_v4: match first_v4(addrs) {
                Some(addr) => Some(EndpointV4 { addr, port }),
                None => None,
            },
            addr_v6: match first_v6(addrs) {
                Some(addr) => Some(EndpointV6 { addr, port, flowinfo: 0, scope_id: 0 }),
                None => None,
            },
            alias: Some(text),
        }
    }

    /// What a socket address written out in full gives.
    pub open spec fn of_literal(addr: Endpoint) -> ResolvableView {
        ResolvableView {
            addr_v4: match addr {
                Endpoint::V4(v4) => Some(v4),
                Endpoint::V6(_) => None,
            },
            addr_v6: match addr {
                Endpoint::V4(_) => None,
                Endpoint::V6(v6) => Some(v6),
            },
            alias: None,
        }
    }
}

impl View for ResolvableSocketAddr {
    type V = ResolvableView;

    closed spec fn view(&self) -> ResolvableView {
        ResolvableView {
            addr_v4: self.addr_v4,
            addr_v6: self.addr_v6,
            alias: match self.alias {
                Some(text) => Some(text@),
                None => None,
            },
        }
    }
}

impl Clone for ResolvableSocketAddr {
    fn clone(&self) -> (copy: ResolvableSocketAddr)
        ensures
            copy@ == self@,
    {
        ResolvableSocketAddr {
            addr_v4: self.addr_v4,
            addr_v6: self.addr_v6,
            alias: match &self.alias {
                Some(text) => Some(text.clone()),
                None => None,
            },
        }
    }
}

impl ResolvableSocketAddr {
    /// The relay at a socket address that was written out in full.
    pub fn from_literal(addr: Endpoint) -> (relay: ResolvableSocketAddr)
        ensures
            relay@ == ResolvableView::of_literal(addr),
            relay@.wf(),
    {
        match addr {
            Endpoint::V4(v4) => ResolvableSocketAddr {
                addr_v4: Some(v4),
                addr_v6: None,
                alias: None,
            },
            Endpoint::V6(v6) => ResolvableSocketAddr {
                addr_v4: None,
                addr_v6: Some(v6),
                alias: None,
            },
        }
    }

    /// The relay that `text` names, from the addresses that a lookup of its
    /// host part returned: the first of each family, at `port`. There is none
    /// when the lookup returned no address.
    pub fn from_lookup(text: String, port: u16, addrs: &Vec<IpAddress>) -> (relay: Option<
        ResolvableSocketAddr,
    >)
        ensures
            match relay {
                Some(r) => r@ == ResolvableView::of_lookup(text@, port, addrs@) && r@.wf(),
                None => first_v4(addrs@) is None && first_v6(addrs@) is None,
            },
    {
        let ip_v4 = pick_v4(addrs);
        let ip_v6 = pick_v6(addrs);
        if ip_v4.is_none() && ip_v6.is_none() {
            return None;
        }
        let addr_v4 = match ip_v4 {
            Some(addr) => Some(EndpointV4 { addr, port }),
            None => None,
        };
        let addr_v6 = match ip_v6 {
            Some(addr) => Some(EndpointV6 { addr, port, flowinfo: 0, scope_id: 0 }),
            None => None,
        };
        Some(ResolvableSocketAddr { addr_v4, addr_v6, alias: Some(text) })
    }

    pub fn addr_v4(&self) -> (addr: Option<EndpointV4>)
        ensures
            addr == self@.addr_v4,
    {
        self.addr_v4
    }

    pub fn addr_v6(&self) -> (addr: Option<EndpointV6>)
        ensures
            addr == self@.addr_v6,
    {
        self.addr_v6
    }

    /// The text that the relay was resolved from, if it was given by name.
    pub fn alias(&self) -> (alias: Option<&String>)
        ensures
            match alias {
                Some(text) => self@.alias == Some(text@),
                None => self@.alias is None,
            },
    {
        self.alias.as_ref()
    }

    /// The relay's address of the family that `server` belongs to. A relay
    /// that has none of that family cannot carry traffic for the server.
    pub fn toward(&self, server: &IpAddress) -> (relay: Result<Endpoint, ProbeError>)
        ensures
            relay == match self@.toward(*server) {
                Some(addr) => Ok::<Endpoint, ProbeError>(addr),
                None => Err(ProbeError::AddressFamilyMismatch),
            },
    {
        match server {
            IpAddress::V4(_) => match self.addr_v4 {
                Some(v4) => Ok(Endpoint::V4(v4)),
                None => Err(ProbeError::AddressFamilyMismatch),
            },
            IpAddress::V6(_) => match self.addr_v6 {
                Some(v6) => Ok(Endpoint::V6(v6)),
                None => Err(ProbeError::AddressFamilyMismatch),
            },
        }
    }
}

} // verus!
