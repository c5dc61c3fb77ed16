use rqbit_tunnel::frame::{TunnelPrivateKey, TunnelPublicKey};
use rqbit_tunnel::net::{Ipv4Addr, Ipv6Addr, SocketAddr, SocketAddrV4, SocketAddrV6};
use rqbit_tunnel::options::{
    EgressPolicy, TunnelClientOptions, TunnelConfigError, TunnelOptions, TunnelServerOptions,
};
use rqbit_tunnel::service::TunnelService;

fn dummy_key() -> TunnelPublicKey {
    let mut key = [0u8; 32];
    key[0] = 1;
    TunnelPublicKey(key)
}

fn dummy_private() -> TunnelPrivateKey {
    let mut key = [0u8; 32];
    key[0] = 1;
    TunnelPrivateKey(key)
}

fn socket(a: u8, b: u8, c: u8, d: u8, port: u16) -> SocketAddr {
    SocketAddr::V4(SocketAddrV4 { ip: Ipv4Addr::new(a, b, c, d), port })
}

fn server(allowed_client_keys: Vec<TunnelPublicKey>) -> TunnelOptions {
    TunnelOptions::Server(TunnelServerOptions {
        peer_listen: socket(0, 0, 0, 0, 9091),
        identity_key: dummy_private(),
        allowed_client_keys,
        egress_policy: EgressPolicy::default(),
        carrier_root: "/tmp".to_string(),
    })
}

#[test]
fn start_client_with_valid_config() {
    let opts = TunnelOptions::Client(TunnelClientOptions {
        server_addr: socket(10, 0, 0, 1, 9090),
        expected_server_key: dummy_key(),
        ..Default::default()
    });
    assert!(opts.validate().is_ok());
    assert!(TunnelService::start(opts).is_ok());
}

#[test]
fn start_server_with_valid_config() {
    let opts = server(vec![dummy_key()]);
    assert!(opts.validate().is_ok());
    assert!(TunnelService::start(opts).is_ok());
}

#[test]
fn client_mode_requires_server_address_and_pinned_key() {
    let options = TunnelOptions::Client(TunnelClientOptions::default());
    assert!(matches!(options.validate(), Err(TunnelConfigError::MissingServerAddress)));
    let unpinned = TunnelOptions::Client(TunnelClientOptions {
        server_addr: socket(10, 0, 0, 1, 9090),
        ..Default::default()
    });
    assert!(matches!(unpinned.validate(), Err(TunnelConfigError::MissingServerKey)));
    assert!(matches!(
        TunnelService::start(unpinned),
        Err(TunnelConfigError::MissingServerKey)
    ));
}

#[test]
fn endpoint_needs_an_address_and_a_port() {
    let unspecified = SocketAddr::V6(SocketAddrV6 {
        ip: Ipv6Addr { bits: 0 },
        port: 9090,
        flowinfo: 0,
        scope_id: 0,
    });
    for server_addr in [socket(10, 0, 0, 1, 0), socket(0, 0, 0, 0, 9090), unspecified] {
        let options = TunnelOptions::Client(TunnelClientOptions {
            server_addr,
            expected_server_key: dummy_key(),
            ..Default::default()
        });
        assert_eq!(options.validate(), Err(TunnelConfigError::MissingServerAddress));
    }
}

#[test]
fn last_byte_of_the_key_counts() {
    let mut key = [0u8; 32];
    key[31] = 1;
    let options = TunnelOptions::Client(TunnelClientOptions {
        server_addr: socket(10, 0, 0, 1, 9090),
        expected_server_key: TunnelPublicKey(key),
        ..Default::default()
    });
    assert_eq!(options.validate(), Ok(()));
}

#[test]
fn server_without_clients_is_rejected() {
    assert_eq!(server(vec![]).validate(), Err(TunnelConfigError::EmptyClientAllowlist));
    assert!(TunnelService::start(server(vec![])).is_err());
}

#[test]
fn repeated_client_keys_change_nothing() {
    assert_eq!(server(vec![dummy_key(), dummy_key()]).validate(), Ok(()));
}

#[test]
fn client_listens_on_loopback_by_default() {
    let options = TunnelClientOptions::default();
    assert_eq!(options.socks_listen, socket(127, 0, 0, 1, 1080));
    assert_eq!(options.server_addr, socket(0, 0, 0, 0, 0));
}
