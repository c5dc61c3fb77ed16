//! Configuration of the two tunnel roles.

use vstd::prelude::*;

use crate::frame::{TunnelPrivateKey, TunnelPublicKey};
use crate::net::{IpAddr, Ipv4Addr, SocketAddr, SocketAddrV4};
use crate::special_use::is_loopback;

verus! {

/// Which kinds of non-public destinations the relay may reach.
#[derive(Clone, Copy, Debug, PartialEq, Eq, Structural)]
pub struct EgressPolicy {
    pub allow_private: bool,
    pub allow_loopback: bool,
    pub allow_link_local: bool,
    pub allow_multicast: bool,
}

impl Default for EgressPolicy {
    /// Public destinations only.
    fn default() -> (policy: Self)
        ensures
            !policy.allow_private,
            !policy.allow_loopback,
            !policy.allow_link_local,
            !policy.allow_multicast,
    {
        EgressPolicy {
            allow_private: false,
            allow_loopback: false,
            allow_link_local: false,
            allow_multicast: false,
        }
    }
}

/// The role of a tunnel endpoint.
#[derive(Clone, Debug)]
pub enum TunnelOptions {
    Client(TunnelClientOptions),
    Server(TunnelServerOptions),
}

/// The desktop side: a local SOCKS listener whose traffic goes to one server.
#[derive(Clone, Debug)]
pub struct TunnelClientOptions {
    /// Where local applications connect to.
    pub socks_listen: SocketAddr,
    /// The server to dial.
    pub server_addr: SocketAddr,
    /// The client's own key.
    pub identity_key: TunnelPrivateKey,
    /// The only key the server may have.
    pub expected_server_key: TunnelPublicKey,
}

/// The relay side: a listener for authenticated tunnel peers.
#[derive(Clone, Debug)]
pub struct TunnelServerOptions {
    /// Where tunnel peers connect to.
    pub peer_listen: SocketAddr,
    /// The server's own key.
    pub identity_key: TunnelPrivateKey,
    /// The keys of the clients that are admitted. They stand for a set: neither their order nor a
    /// repeated key matters.
    pub allowed_client_keys: Vec<TunnelPublicKey>,
    /// Which destinations the relay may reach.
    pub egress_policy: EgressPolicy,
    /// The directory of the carrier data.
    pub carrier_root: String,
}

/// Why a configuration cannot be started.
#[derive(Clone, Copy, Debug, PartialEq, Eq, Structural)]
pub enum TunnelConfigError {
    /// The client has no server to dial.
    MissingServerAddress,
    /// The client does not know the server's key.
    MissingServerKey,
    /// The server admits no client.
    EmptyClientAllowlist,
}

/// Whether an address names no endpoint that could be dialed: its address part is unspecified, or
/// its port is 0.
pub open spec fn names_no_endpoint(addr: SocketAddr) -> bool {
    ||| addr.port_part() == 0
    ||| match addr.ip_part() {
        IpAddr::V4(a) => a.bits == 0,
        IpAddr::V6(a) => a.bits == 0,
    }
}

/// Whether a key is all zeros, as one that was never set.
pub open spec fn is_blank(key: TunnelPublicKey) -> bool {
    forall|i: int| 0 <= i < 32 ==> #[trigger] key.0@[i] == 0
}

/// What is wrong with a configuration, if anything.
pub open spec fn config_fault(options: TunnelOptions) -> Option<TunnelConfigError> {
    match options {
        TunnelOptions::Client(client) => if names_no_endpoint(client.server_addr) {
            Some(TunnelConfigError::MissingServerAddress)
        } else if is_blank(client.expected_server_key) {
            Some(TunnelConfigError::MissingServerKey)
        } else {
            None
        },
        TunnelOptions::Server(server) => if server.allowed_client_keys@.len() == 0 {
            Some(TunnelConfigError::EmptyClientAllowlist)
        } else {
            None
        },
    }
}

/// Whether an address names no endpoint that could be dialed.
fn lacks_endpoint(addr: &SocketAddr) -> (lacks: bool)
    ensures
        lacks == names_no_endpoint(*addr),
{
    let unspecified: bool = match addr.ip() {
        IpAddr::V4(a) => a.bits == 0,
        IpAddr::V6(a) => a.bits == 0,
    };
    unspecified || addr.port() == 0
}

/// Whether a key is all zeros.
fn lacks_key(key: &TunnelPublicKey) -> (lacks: bool)
    ensures
        lacks == is_blank(*key),
{
    let mut i: usize = 0;
    while i < 32
        invariant
            i <= 32,
            forall|j: int| 0 <= j < i ==> #[trigger] key.0@[j] == 0,
        decreases 32 - i,
    {
        if key.0[i] != 0 {
            assert(key.0@[i as int] != 0);
            return false;
        }
        i = i + 1;
    }
    true
}

impl TunnelOptions {
    /// Checks the configuration: a client needs a server address and the server's key, a server
    /// needs a client that it admits.
    pub fn validate(&self) -> (checked: Result<(), TunnelConfigError>)
        ensures
            match config_fault(*self) {
                Some(fault) => checked == Err::<(), TunnelConfigError>(fault),
                None => checked == Ok::<(), TunnelConfigError>(()),
            },
    {
        match self {
            TunnelOptions::Client(client) => {
                if lacks_endpoint(&client.server_addr) {
                    return Err(TunnelConfigError::MissingServerAddress);
                }
                if lacks_key(&client.expected_server_key) {
                    return Err(TunnelConfigError::MissingServerKey);
                }
                Ok(())
            },
            TunnelOptions::Server(server) => {
                if server.allowed_client_keys.len() == 0 {
                    return Err(TunnelConfigError::EmptyClientAllowlist);
                }
                Ok(())
            },
        }
    }
}

impl Default for TunnelClientOptions {
    /// A local listener on the loopback interface; the server is still to be named.
    fn default() -> (options: Self)
        ensures
            options.socks_listen == SocketAddr::V4(
                (SocketAddrV4 { ip: (Ipv4Addr { bits: 0x7f00_0001 }), port: 1080 }),
            ),
            is_loopback(options.socks_listen.ip_part()),
            options.server_addr == SocketAddr::V4(
                (SocketAddrV4 { ip: (Ipv4Addr { bits: 0 }), port: 0 }),
            ),
            names_no_endpoint(options.server_addr),
            is_blank(options.expected_server_key),
            forall|i: int| 0 <= i < 32 ==> #[trigger] options.identity_key.0@[i] == 0,
    {
        TunnelClientOptions {
            socks_listen: SocketAddr::V4(SocketAddrV4 { ip: Ipv4Addr::localhost(), port: 1080 }),
            server_addr: SocketAddr::V4(SocketAddrV4 { ip: Ipv4Addr { bits: 0 }, port: 0 }),
            identity_key: TunnelPrivateKey([0u8; 32]),
            expected_server_key: TunnelPublicKey([0u8; 32]),
        }
    }
}

/// Of the admitted clients only the set counts: two lists of the same keys are judged alike,
/// whatever their order and however often they repeat a key.
pub proof fn law_only_the_set_of_clients_counts(a: TunnelServerOptions, b: TunnelServerOptions)
    requires
        forall|key: TunnelPublicKey|
            a.allowed_client_keys@.contains(key) <==> b.allowed_client_keys@.contains(key),
    ensures
        config_fault(TunnelOptions::Server(a)) == config_fault(TunnelOptions::Server(b)),
{
    if a.allowed_client_keys@.len() > 0 {
        assert(a.allowed_client_keys@.contains(a.allowed_client_keys@[0]));
    }
    if b.allowed_client_keys@.len() > 0 {
        assert(b.allowed_client_keys@.contains(b.allowed_client_keys@[0]));
    }
}

/// A client that names a server address with a port, of either family, and knows a key with a
/// byte that is not zero has a configuration without fault, whatever its other settings are.
pub proof fn law_complete_client_has_no_fault(client: TunnelClientOptions, i: int)
    requires
        match client.server_addr {
            SocketAddr::V4(addr) => addr.ip.bits != 0 && addr.port != 0,
            SocketAddr::V6(addr) => addr.ip.bits != 0 && addr.port != 0,
        },
        0 <= i < 32,
        client.expected_server_key.0@[i] != 0,
    ensures
        config_fault(TunnelOptions::Client(client)) is None,
{
    assert(!is_blank(client.expected_server_key));
}

/// A client's address is missing exactly where its port or its address bits are zero, and its key
/// is missing exactly where the address is there and every byte of the key is zero.
pub proof fn law_client_fault_names_what_is_missing(client: TunnelClientOptions)
    ensures
        ({
            let no_address = match client.server_addr {
                SocketAddr::V4(addr) => addr.ip.bits == 0 || addr.port == 0,
                SocketAddr::V6(addr) => addr.ip.bits == 0 || addr.port == 0,
            };
            let no_key = forall|i: int|
                0 <= i < 32 ==> #[trigger] client.expected_server_key.0@[i] == 0;
            let fault = config_fault(TunnelOptions::Client(client));
            &&& fault == Some(TunnelConfigError::MissingServerAddress) <==> no_address
            &&& fault == Some(TunnelConfigError::MissingServerKey) <==> !no_address && no_key
            &&& fault is None <==> !no_address && !no_key
        }),
{
}

/// A server is at fault exactly where it admits no client, and for no other reason.
pub proof fn law_server_fault_is_an_empty_allowlist(server: TunnelServerOptions)
    ensures
        ({
            let fault = config_fault(TunnelOptions::Server(server));
            &&& fault == Some(TunnelConfigError::EmptyClientAllowlist) <==> forall|key|
                !server.allowed_client_keys@.contains(key)
            &&& fault is None <==> exists|key| server.allowed_client_keys@.contains(key)
        }),
{
    let keys = server.allowed_client_keys@;
    if keys.len() > 0 {
        assert(keys.contains(keys[0]));
    }
}

} // verus!
