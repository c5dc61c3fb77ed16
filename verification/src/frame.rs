//! Values that tunnel frames carry.

use vstd::prelude::*;

use crate::net::SocketAddr;

verus! {

/// A static private key.
#[derive(Clone, Debug, PartialEq, Eq)]
pub struct TunnelPrivateKey(pub [u8; 32]);

/// A static public key, by which a peer is known.
#[derive(Clone, Debug, PartialEq, Eq, Hash)]
pub struct TunnelPublicKey(pub [u8; 32]);

/// What a client asks the relay to reach.
#[derive(Debug, PartialEq, Eq)]
pub enum TunnelDestination {
    Ip(SocketAddr),
    /// A host name, which only the relay resolves, and a port.
    Domain(String, u16),
}

impl Clone for TunnelDestination {
    fn clone(&self) -> (copy: Self)
        ensures
            copy == *self,
    {
        match self {
            TunnelDestination::Ip(addr) => TunnelDestination::Ip(*addr),
            TunnelDestination::Domain(host, port) => TunnelDestination::Domain(host.clone(), *port),
        }
    }
}

/// Why a stream or an association ended, as told to the other side.
#[derive(Clone, Copy, Debug, PartialEq, Eq, Structural)]
pub enum TunnelErrorCode {
    DestinationDenied,
    HostUnreachable,
    ConnectionRefused,
    TimedOut,
    PeerDisconnected,
    ProtocolViolation,
}

} // verus!
