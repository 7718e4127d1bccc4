use dnsping::endpoint::{Endpoint, EndpointV4, EndpointV6, IpAddress, RecordKind};
use dnsping::error::ProbeError;

fn v4() -> Endpoint {
    Endpoint::V4(EndpointV4 { addr: 0x08080808, port: 53 })
}

fn v6() -> Endpoint {
    Endpoint::V6(EndpointV6 { addr: 0x20010db8 << 96, port: 53, flowinfo: 0, scope_id: 0 })
}

#[test]
fn endpoint_is_built_from_address_and_port() {
    assert_eq!(Endpoint::new(IpAddress::V4(0x08080808), 53), v4());
    assert_eq!(Endpoint::new(IpAddress::V6(0x20010db8 << 96), 53), v6());
    assert_eq!(v4().ip(), IpAddress::V4(0x08080808));
    assert_eq!(v6().ip(), IpAddress::V6(0x20010db8 << 96));
    assert_eq!(v4().port(), 53);
    assert_eq!(v6().port(), 53);
}

#[test]
fn record_kind_follows_the_family() {
    assert_eq!(v4().record_kind(), RecordKind::A);
    assert_eq!(v6().record_kind(), RecordKind::Aaaa);
    assert!(!v4().is_ipv6());
    assert!(v6().is_ipv6());
}

#[test]
fn local_address_is_the_wildcard_of_the_family() {
    assert_eq!(v4().unspecified(), Endpoint::V4(EndpointV4 { addr: 0, port: 0 }));
    assert_eq!(
        v6().unspecified(),
        Endpoint::V6(EndpointV6 { addr: 0, port: 0, flowinfo: 0, scope_id: 0 })
    );
}

#[test]
fn families_are_compared() {
    assert!(v4().same_family(&v4().unspecified()));
    assert!(v6().same_family(&v6().unspecified()));
    assert!(!v4().same_family(&v6()));
    assert!(!v6().same_family(&v4()));
}

#[test]
fn endpoints_differ_in_any_field() {
    let base = EndpointV6 { addr: 1, port: 53, flowinfo: 0, scope_id: 0 };
    assert_eq!(Endpoint::V6(base), Endpoint::V6(base));
    assert_ne!(Endpoint::V6(base), Endpoint::V6(EndpointV6 { scope_id: 2, ..base }));
    assert_ne!(Endpoint::V6(base), Endpoint::V6(EndpointV6 { flowinfo: 2, ..base }));
    assert_ne!(Endpoint::V6(base), Endpoint::V6(EndpointV6 { port: 54, ..base }));
    assert_ne!(
        Endpoint::V4(EndpointV4 { addr: 1, port: 53 }),
        Endpoint::V4(EndpointV4 { addr: 1, port: 54 })
    );
}

#[test]
fn only_a_timeout_lets_a_session_go_on() {
    assert!(!ProbeError::TimedOut.ends_session());
    assert!(ProbeError::MalformedMessage.ends_session());
    assert!(ProbeError::UnexpectedEof.ends_session());
    assert!(ProbeError::Io.ends_session());
    assert!(ProbeError::Proxy.ends_session());
    assert!(ProbeError::AddressFamilyMismatch.ends_session());
}
