use std::time::Duration;

use rqbit_tunnel::egress::{EgressError, EgressPolicy, EgressTransport, ResolvedDestination};
use rqbit_tunnel::frame::{TunnelDestination, TunnelErrorCode};
use rqbit_tunnel::ip_ranges::IpRanges;
use rqbit_tunnel::net::{IpAddr, Ipv4Addr, Ipv6Addr, SocketAddr, SocketAddrV4, SocketAddrV6};
use rqbit_tunnel::options;
use rqbit_tunnel::special_use::restricted_subnets;
use rqbit_tunnel::subnet::{single_v6, subnet_v4, subnet_v6, Ipv4Range};

fn private_ip() -> IpAddr {
    IpAddr::V4(Ipv4Addr::new(192, 168, 1, 1))
}

fn public_ip() -> IpAddr {
    IpAddr::V4(Ipv4Addr::new(8, 8, 8, 8))
}

fn v4(a: u8, b: u8, c: u8, d: u8) -> IpAddr {
    IpAddr::V4(Ipv4Addr::new(a, b, c, d))
}

fn v6(bits: u128) -> IpAddr {
    IpAddr::V6(Ipv6Addr { bits })
}

fn socket(a: u8, b: u8, c: u8, d: u8, port: u16) -> SocketAddr {
    SocketAddr::V4(SocketAddrV4 { ip: Ipv4Addr::new(a, b, c, d), port })
}

fn domain(host: &str, port: u16) -> TunnelDestination {
    TunnelDestination::Domain(host.to_string(), port)
}

fn denied<T>(result: Result<T, EgressError>) -> bool {
    matches!(result, Err(EgressError::DestinationDenied))
}

fn only(kind: &str) -> options::EgressPolicy {
    options::EgressPolicy {
        allow_private: kind == "private",
        allow_loopback: kind == "loopback",
        allow_link_local: kind == "link-local",
        allow_multicast: kind == "multicast",
    }
}

#[test]
fn egress_policy_denies_resolved_private_address() {
    let policy = EgressPolicy::public_internet_only();
    assert!(matches!(
        policy.check_resolved("example.test", private_ip(), 443),
        Err(EgressError::DestinationDenied)
    ));
}

#[test]
fn egress_policy_allows_resolved_public_address() {
    let policy = EgressPolicy::public_internet_only();
    assert!(policy.check_resolved("example.test", public_ip(), 443).is_ok());
}

#[test]
fn egress_policy_denies_resolved_loopback() {
    let policy = EgressPolicy::public_internet_only();
    assert!(matches!(
        policy.check_resolved("localhost", IpAddr::V4(Ipv4Addr::localhost()), 8080),
        Err(EgressError::DestinationDenied)
    ));
}

#[test]
fn egress_policy_denies_resolved_ipv6_loopback() {
    let policy = EgressPolicy::public_internet_only();
    assert!(matches!(
        policy.check_resolved("localhost", IpAddr::V6(Ipv6Addr::localhost()), 8080),
        Err(EgressError::DestinationDenied)
    ));
}

#[test]
fn egress_policy_denies_link_local() {
    let policy = EgressPolicy::public_internet_only();
    assert!(matches!(
        policy.check_resolved("link-local.test", IpAddr::V4(Ipv4Addr::new(169, 254, 10, 5)), 80),
        Err(EgressError::DestinationDenied)
    ));
}

#[test]
fn egress_policy_denies_multicast() {
    let policy = EgressPolicy::public_internet_only();
    assert!(matches!(
        policy.check_resolved("mcast.test", IpAddr::V4(Ipv4Addr::new(224, 0, 0, 1)), 9999),
        Err(EgressError::DestinationDenied)
    ));
}

#[test]
fn egress_policy_denies_disallowed_port() {
    let mut policy = EgressPolicy::public_internet_only();
    policy.allowed_tcp_ports = vec![80..=80, 443..=443]; // only 80 and 443

    assert!(matches!(
        policy.check_hostname("example.test", 22, EgressTransport::Tcp),
        Err(EgressError::DestinationDenied)
    ));
    assert!(policy.check_hostname("example.test", 80, EgressTransport::Tcp).is_ok());
    assert!(policy.check_hostname("example.test", 443, EgressTransport::Tcp).is_ok());
}

#[test]
fn egress_error_maps_to_tunnel_error_codes() {
    assert_eq!(
        EgressError::DestinationDenied.to_error_code(),
        TunnelErrorCode::DestinationDenied
    );
    assert_eq!(
        EgressError::Resolve(anyhow::Error::msg("test")).to_error_code(),
        TunnelErrorCode::HostUnreachable
    );
    assert_eq!(
        EgressError::Connect(std::io::Error::from(std::io::ErrorKind::ConnectionRefused))
            .to_error_code(),
        TunnelErrorCode::ConnectionRefused
    );
    assert_eq!(EgressError::TimedOut.to_error_code(), TunnelErrorCode::TimedOut);
}

#[test]
fn egress_policy_from_config_respects_flags() {
    let config = options::EgressPolicy {
        allow_private: true,
        allow_loopback: true,
        allow_link_local: true,
        allow_multicast: true,
    };
    let policy = EgressPolicy::from_config(&config);
    // With all allowed, the denied networks are empty, so private and loopback addresses pass.
    assert!(policy.check_resolved("test", private_ip(), 443).is_ok());
    assert!(policy.check_resolved("test", IpAddr::V4(Ipv4Addr::localhost()), 443).is_ok());
}

#[test]
fn each_flag_opens_its_own_kind_of_address() {
    let samples = [
        ("private", vec![v4(10, 1, 2, 3), v4(172, 31, 255, 255), v6(0xfd00 << 112)]),
        ("loopback", vec![v4(127, 9, 9, 9), v6(1)]),
        ("link-local", vec![v4(169, 254, 0, 0), v6(0xfe80 << 112)]),
        ("multicast", vec![v4(239, 255, 255, 255), v6(0xff02 << 112 | 1)]),
    ];
    for (kind, _) in &samples {
        let policy = EgressPolicy::from_config(&only(kind));
        for (other, addrs) in &samples {
            for addr in addrs {
                assert_eq!(policy.check_resolved("h", *addr, 1).is_ok(), kind == other);
            }
        }
        assert!(policy.check_resolved("h", public_ip(), 1).is_ok());
    }
}

#[test]
fn strictest_configuration_denies_what_public_internet_only_denies() {
    let strict = EgressPolicy::from_config(&options::EgressPolicy::default());
    let public = EgressPolicy::public_internet_only();
    let samples = [
        v4(9, 255, 255, 255),
        v4(10, 0, 0, 0),
        v4(10, 255, 255, 255),
        v4(11, 0, 0, 0),
        v4(126, 255, 255, 255),
        v4(127, 0, 0, 0),
        v4(128, 0, 0, 0),
        v4(172, 15, 255, 255),
        v4(172, 16, 0, 0),
        v4(172, 32, 0, 0),
        v4(192, 167, 255, 255),
        v4(192, 169, 0, 0),
        v4(223, 255, 255, 255),
        v4(240, 0, 0, 0),
        v4(255, 255, 255, 255),
        v6(0),
        v6(1),
        v6(2),
        v6(0xfe00 << 112),
        v6(0xfec0 << 112),
        v6(u128::MAX),
    ];
    for addr in samples {
        assert_eq!(
            strict.check_resolved("h", addr, 1).is_ok(),
            public.check_resolved("h", addr, 1).is_ok()
        );
    }
}

#[test]
fn restricted_blocks_end_where_they_should() {
    let policy = EgressPolicy::public_internet_only();
    let inside = [
        v4(10, 0, 0, 0),
        v4(10, 255, 255, 255),
        v4(127, 255, 255, 255),
        v4(172, 16, 0, 0),
        v4(172, 31, 255, 255),
        v4(192, 168, 255, 255),
        v4(169, 254, 255, 255),
        v4(239, 255, 255, 255),
        v6(0xfc00 << 112),
        v6((0xfe00 << 112) - 1),
        v6(0xfe80 << 112),
        v6((0xfec0 << 112) - 1),
        v6(0xff00 << 112),
        v6(u128::MAX),
    ];
    let outside = [
        v4(9, 255, 255, 255),
        v4(11, 0, 0, 0),
        v4(126, 255, 255, 255),
        v4(128, 0, 0, 0),
        v4(172, 15, 255, 255),
        v4(172, 32, 0, 0),
        v4(192, 167, 255, 255),
        v4(192, 169, 0, 0),
        v4(169, 253, 255, 255),
        v4(169, 255, 0, 0),
        v4(223, 255, 255, 255),
        v4(240, 0, 0, 0),
        v6(0),
        v6(2),
        v6((0xfc00 << 112) - 1),
        v6(0xfe00 << 112),
        v6((0xfe80 << 112) - 1),
        v6(0xfec0 << 112),
        v6((0xff00 << 112) - 1),
    ];
    for addr in inside {
        assert!(denied(policy.check_resolved("h", addr, 1)));
    }
    for addr in outside {
        assert!(policy.check_resolved("h", addr, 1).is_ok());
    }
}

#[test]
fn default_policy_denies_no_address_and_only_port_zero() {
    let policy = EgressPolicy::default();
    assert!(policy.check_resolved("h", private_ip(), 1).is_ok());
    assert!(policy.check_resolved("h", v6(1), 1).is_ok());
    for transport in [EgressTransport::Tcp, EgressTransport::Udp] {
        assert!(denied(policy.check_hostname("h", 0, transport)));
        assert!(policy.check_hostname("h", 1, transport).is_ok());
        assert!(policy.check_hostname("h", 65535, transport).is_ok());
    }
    assert_eq!(policy.max_tcp_streams_per_client, 256);
    assert_eq!(policy.max_udp_associations_per_client, 64);
    assert_eq!(policy.idle_timeout, Duration::from_secs(300));
    assert_eq!(policy.idle_timeout.as_secs(), 300);
}

#[test]
fn ports_of_one_transport_do_not_bind_the_other() {
    let mut policy = EgressPolicy::default();
    policy.allowed_tcp_ports = vec![];
    policy.allowed_udp_ports = vec![53..=53, 1000..=2000];
    assert!(denied(policy.check_hostname("h", 53, EgressTransport::Tcp)));
    assert!(policy.check_hostname("h", 53, EgressTransport::Udp).is_ok());
    assert!(policy.check_hostname("h", 2000, EgressTransport::Udp).is_ok());
    assert!(denied(policy.check_hostname("h", 2001, EgressTransport::Udp)));
    assert!(denied(policy.check_hostname("h", 999, EgressTransport::Udp)));
}

#[test]
fn cloned_policy_decides_alike() {
    let mut policy = EgressPolicy::public_internet_only();
    policy.allowed_tcp_ports = vec![80..=90];
    let copy = policy.clone();
    assert_eq!(copy.allowed_tcp_ports, vec![80..=90]);
    assert_eq!(copy.idle_timeout, Duration::from_secs(300));
    assert!(denied(copy.check_resolved("h", private_ip(), 1)));
    assert!(denied(copy.check_hostname("h", 91, EgressTransport::Tcp)));
    assert!(copy.check_hostname("h", 90, EgressTransport::Tcp).is_ok());
}

#[test]
fn lookup_is_due_for_allowed_host_names_only() {
    let mut policy = EgressPolicy::public_internet_only();
    policy.allowed_tcp_ports = vec![443..=443, 8080..=8080, 7..=7];
    let tcp = EgressTransport::Tcp;
    let ask = |port| policy.lookup_target(&domain("example.test", port), tcp);
    assert_eq!(ask(443).unwrap(), Some("example.test:443".to_string()));
    assert_eq!(ask(8080).unwrap(), Some("example.test:8080".to_string()));
    assert_eq!(ask(7).unwrap(), Some("example.test:7".to_string()));
    assert!(denied(ask(22)));
    let numeric = TunnelDestination::Ip(socket(8, 8, 8, 8, 22));
    assert_eq!(policy.lookup_target(&numeric, tcp).unwrap(), None);
}

#[test]
fn lookup_text_spells_every_port() {
    let policy = EgressPolicy::default();
    for port in 1..=65535u16 {
        let target = policy.lookup_target(&domain("h", port), EgressTransport::Udp).unwrap();
        assert_eq!(target, Some(format!("h:{port}")));
    }
}

#[test]
fn authorize_selects_the_first_address_of_a_host() {
    let policy = EgressPolicy::public_internet_only();
    let wanted = domain("example.test", 443);
    let found = vec![socket(93, 184, 216, 34, 443), socket(10, 0, 0, 1, 443)];
    let resolved: ResolvedDestination =
        policy.authorize(&wanted, EgressTransport::Tcp, Ok(found)).unwrap();
    assert_eq!(resolved.requested, wanted);
    assert_eq!(resolved.selected, socket(93, 184, 216, 34, 443));
    assert_eq!(resolved.clone().requested, wanted);
}

#[test]
fn authorize_refuses_a_host_whose_first_address_is_denied() {
    let policy = EgressPolicy::public_internet_only();
    let wanted = domain("example.test", 443);
    let found = vec![socket(10, 0, 0, 1, 443), socket(93, 184, 216, 34, 443)];
    assert!(denied(policy.authorize(&wanted, EgressTransport::Tcp, Ok(found))));
    assert!(denied(policy.authorize(&wanted, EgressTransport::Tcp, Ok(vec![]))));
}

#[test]
fn authorize_refuses_a_denied_port_whatever_the_lookup_gives() {
    let mut policy = EgressPolicy::public_internet_only();
    policy.allowed_udp_ports = vec![53..=53];
    let wanted = domain("example.test", 54);
    let found = vec![socket(93, 184, 216, 34, 54)];
    assert!(denied(policy.authorize(&wanted, EgressTransport::Udp, Ok(found))));
    let failed = Err(anyhow::Error::msg("no such host"));
    assert!(denied(policy.authorize(&wanted, EgressTransport::Udp, failed)));
}

#[test]
fn authorize_reports_a_failed_lookup() {
    let policy = EgressPolicy::public_internet_only();
    let failed = Err(anyhow::Error::msg("no such host"));
    let error =
        policy.authorize(&domain("example.test", 443), EgressTransport::Tcp, failed).unwrap_err();
    assert_eq!(error.to_error_code(), TunnelErrorCode::HostUnreachable);
    match error {
        EgressError::Resolve(cause) => assert_eq!(cause.to_string(), "no such host"),
        other => panic!("{other:?}"),
    }
}

#[test]
fn authorize_checks_an_address_without_lookup() {
    let mut policy = EgressPolicy::public_internet_only();
    policy.allowed_tcp_ports = vec![443..=443];
    let tcp = EgressTransport::Tcp;
    let public = TunnelDestination::Ip(socket(8, 8, 8, 8, 443));
    let resolved = policy.authorize(&public, tcp, Ok(vec![])).unwrap();
    assert_eq!(resolved.requested, public);
    assert_eq!(resolved.selected, socket(8, 8, 8, 8, 443));
    let wrong_port = TunnelDestination::Ip(socket(8, 8, 8, 8, 80));
    assert!(denied(policy.authorize(&wrong_port, tcp, Ok(vec![]))));
    let private = TunnelDestination::Ip(socket(192, 168, 0, 1, 443));
    assert!(denied(policy.authorize(&private, tcp, Ok(vec![]))));
    let scoped = SocketAddr::V6(SocketAddrV6 {
        ip: Ipv6Addr { bits: 0x2001 << 112 | 5 },
        port: 443,
        flowinfo: 3,
        scope_id: 4,
    });
    let kept = policy.authorize(&TunnelDestination::Ip(scoped), tcp, Ok(vec![])).unwrap();
    assert_eq!(kept.selected, scoped);
}

#[test]
fn causes_convert_into_errors() {
    let from_lookup = EgressError::from(anyhow::Error::msg("lookup"));
    assert!(matches!(from_lookup, EgressError::Resolve(_)));
    let from_io = EgressError::from(std::io::Error::from(std::io::ErrorKind::TimedOut));
    assert!(matches!(from_io, EgressError::Connect(_)));
}

#[test]
fn subnets_cover_their_prefix() {
    let range = subnet_v4([172, 20, 1, 2], 12);
    assert_eq!(range.first, Ipv4Addr::new(172, 16, 0, 0));
    assert_eq!(range.last, Ipv4Addr::new(172, 31, 255, 255));
    let pair = subnet_v4([1, 2, 3, 4], 31);
    assert_eq!(pair.first, Ipv4Addr::new(1, 2, 3, 4));
    assert_eq!(pair.last, Ipv4Addr::new(1, 2, 3, 5));
    let upper_half = subnet_v4([200, 0, 0, 0], 1);
    assert_eq!(upper_half.first, Ipv4Addr::new(128, 0, 0, 0));
    assert_eq!(upper_half.last, Ipv4Addr::new(255, 255, 255, 255));
    let mut octets = [0u8; 16];
    octets[0] = 0xfe;
    octets[1] = 0xa1;
    octets[15] = 7;
    let link_local = subnet_v6(octets, 10);
    assert_eq!(link_local.first.bits, 0xfe80 << 112);
    assert_eq!(link_local.last.bits, (0xfec0 << 112) - 1);
    let pair = subnet_v6(octets, 127);
    assert_eq!(pair.first.bits, 0xfea1 << 112 | 6);
    assert_eq!(pair.last.bits, 0xfea1 << 112 | 7);
}

#[test]
fn prefix_as_long_as_the_address_selects_that_address() {
    for prefix in [32u8, 33, 255] {
        let range = subnet_v4([10, 0, 0, 1], prefix);
        assert_eq!(range.first, Ipv4Addr::new(10, 0, 0, 1));
        assert_eq!(range.last, Ipv4Addr::new(10, 0, 0, 1));
    }
    for prefix in [128u8, 129, 255] {
        let range = subnet_v6([7; 16], prefix);
        assert_eq!(range.first.bits, u128::from_be_bytes([7; 16]));
        assert_eq!(range.last, range.first);
    }
}

#[test]
fn restricted_subnets_are_the_ten_blocks() {
    let (v4_blocks, v6_blocks) = restricted_subnets();
    let v4_bounds: Vec<(u32, u32)> =
        v4_blocks.iter().map(|block| (block.first.bits, block.last.bits)).collect();
    assert_eq!(
        v4_bounds,
        vec![
            (0x7f00_0000, 0x7fff_ffff),
            (0x0a00_0000, 0x0aff_ffff),
            (0xac10_0000, 0xac1f_ffff),
            (0xc0a8_0000, 0xc0a8_ffff),
            (0xa9fe_0000, 0xa9fe_ffff),
            (0xe000_0000, 0xefff_ffff),
        ]
    );
    let v6_bounds: Vec<(u128, u128)> =
        v6_blocks.iter().map(|block| (block.first.bits, block.last.bits)).collect();
    assert_eq!(
        v6_bounds,
        vec![
            (1, 1),
            (0xfc00 << 112, (0xfe00 << 112) - 1),
            (0xfe80 << 112, (0xfec0 << 112) - 1),
            (0xff00 << 112, u128::MAX),
        ]
    );
}

#[test]
fn single_address_range_holds_that_address_only() {
    let range = single_v6(Ipv6Addr { bits: 9 });
    assert!(range.contains(Ipv6Addr { bits: 9 }));
    assert!(!range.contains(Ipv6Addr { bits: 8 }));
    assert!(!range.contains(Ipv6Addr { bits: 10 }));
}

#[test]
fn ip_ranges_are_the_union_of_their_ranges() {
    let low = Ipv4Range { first: Ipv4Addr::new(1, 0, 0, 0), last: Ipv4Addr::new(1, 0, 0, 9) };
    let high = Ipv4Range { first: Ipv4Addr::new(2, 0, 0, 0), last: Ipv4Addr::new(2, 0, 0, 0) };
    let ranges = IpRanges::new(vec![low, high], vec![]);
    assert!(ranges.has(v4(1, 0, 0, 9)));
    assert!(ranges.has(v4(2, 0, 0, 0)));
    assert!(!ranges.has(v4(1, 0, 0, 10)));
    assert!(!ranges.has(v6(0x0100_0000)));
    assert!(!IpRanges::default().has(v4(1, 0, 0, 9)));
    assert!(ranges.clone().has(v4(2, 0, 0, 0)));
}
