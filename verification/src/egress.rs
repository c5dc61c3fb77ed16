//! Runtime egress policy: which destinations tunneled traffic may reach.
//!
//! Host rules are applied before a name is looked up, address rules after. The lookup itself
//! happens outside; its outcome comes in as a value.

use core::ops::RangeInclusive;
use core::time::Duration;

use vstd::prelude::*;
use vstd::std_specs::convert::{FromSpec, FromSpecImpl};

use crate::authority::{authority, authority_text};
use crate::frame::{TunnelDestination, TunnelErrorCode, TunnelPublicKey};
use crate::ip_ranges::{law_set_holds_what_its_ranges_reach, IpRanges};
use crate::net::{IpAddr, Ipv4Addr, Ipv6Addr, SocketAddr};
use crate::options;
use crate::special_use::{
    is_link_local, is_loopback, is_multicast, is_private, is_restricted, push_link_local,
    push_loopback, push_multicast, push_private, restricted_blocks_v4, restricted_blocks_v6,
    restricted_subnets,
};
use crate::subnet::{Ipv4Range, Ipv6Range};

verus! {

/// The transport that a destination is asked for.
#[derive(Clone, Copy, Debug, PartialEq, Eq, Structural)]
pub enum EgressTransport {
    Tcp,
    Udp,
}

/// A destination that was authorized, with the address chosen for it.
#[derive(Debug)]
pub struct ResolvedDestination {
    pub requested: TunnelDestination,
    pub selected: SocketAddr,
}

impl Clone for ResolvedDestination {
    fn clone(&self) -> (copy: Self)
        ensures
            copy == *self,
    {
        ResolvedDestination { requested: self.requested.clone(), selected: self.selected }
    }
}

/// `anyhow::Error`, carried through as the cause of a failed lookup.
#[verifier::external_type_specification]
#[verifier::external_body]
pub struct ExAnyhowError(anyhow::Error);

/// `std::io::Error`, carried through as the cause of a failed connection.
#[verifier::external_type_specification]
#[verifier::external_body]
pub struct ExIoError(std::io::Error);

/// Why a destination was not reached.
#[derive(Debug)]
pub enum EgressError {
    /// The policy denies the destination.
    DestinationDenied,
    /// The name could not be resolved.
    Resolve(anyhow::Error),
    /// The connection could not be made.
    Connect(std::io::Error),
    /// The operation took too long.
    TimedOut,
}

/// The code by which the other side learns of `error`.
pub open spec fn error_code(error: EgressError) -> TunnelErrorCode {
    match error {
        EgressError::DestinationDenied => TunnelErrorCode::DestinationDenied,
        EgressError::Resolve(_) => TunnelErrorCode::HostUnreachable,
        EgressError::Connect(_) => TunnelErrorCode::ConnectionRefused,
        EgressError::TimedOut => TunnelErrorCode::TimedOut,
    }
}

impl EgressError {
    /// The code by which the other side learns of this error.
    pub fn to_error_code(&self) -> (code: TunnelErrorCode)
        ensures
            code == error_code(*self),
    {
        match self {
            EgressError::DestinationDenied => TunnelErrorCode::DestinationDenied,
            EgressError::Resolve(_) => TunnelErrorCode::HostUnreachable,
            EgressError::Connect(_) => TunnelErrorCode::ConnectionRefused,
            EgressError::TimedOut => TunnelErrorCode::TimedOut,
        }
    }
}

impl From<anyhow::Error> for EgressError {
    fn from(cause: anyhow::Error) -> (error: Self) {
        EgressError::Resolve(cause)
    }
}

impl FromSpecImpl<anyhow::Error> for EgressError {
    open spec fn obeys_from_spec() -> bool {
        true
    }

    open spec fn from_spec(cause: anyhow::Error) -> Self {
        EgressError::Resolve(cause)
    }
}

impl From<std::io::Error> for EgressError {
    fn from(cause: std::io::Error) -> (error: Self) {
        EgressError::Connect(cause)
    }
}

impl FromSpecImpl<std::io::Error> for EgressError {
    open spec fn obeys_from_spec() -> bool {
        true
    }

    open spec fn from_spec(cause: std::io::Error) -> Self {
        EgressError::Connect(cause)
    }
}

/// The duration of `secs` whole seconds: what `Duration::from_secs` returns for `secs`.
pub uninterp spec fn duration_of_secs(secs: u64) -> Duration;

/// `Duration::from_secs` makes the duration of `secs` whole seconds, which depends on nothing but
/// that number.
pub assume_specification[ Duration::from_secs ](secs: u64) -> (duration: Duration)
    ensures
        duration == duration_of_secs(secs),
;

/// `RangeInclusive::clone` keeps both bounds, and whether the range was used up.
pub assume_specification<Idx: Clone>[ <RangeInclusive<Idx> as Clone>::clone ](
    range: &RangeInclusive<Idx>,
) -> (copy: RangeInclusive<Idx>)
    ensures
        cloned::<Idx>(range@.start, copy@.start),
        cloned::<Idx>(range@.end, copy@.end),
        copy@.exhausted == range@.exhausted,
;

/// Which destinations tunneled traffic may reach, and the limits of one client.
#[derive(Debug)]
pub struct EgressPolicy {
    /// Allowed TCP destination ports. Only checked for TCP.
    pub allowed_tcp_ports: Vec<RangeInclusive<u16>>,
    /// Allowed UDP destination ports. Only checked for UDP.
    pub allowed_udp_ports: Vec<RangeInclusive<u16>>,
    /// Networks denied once the address is known.
    pub denied_networks: IpRanges,
    /// Most TCP streams that one client may have open.
    pub max_tcp_streams_per_client: usize,
    /// Most UDP associations that one client may have open.
    pub max_udp_associations_per_client: usize,
    /// Idle timeout of TCP streams and UDP associations.
    pub idle_timeout: Duration,
}

/// Whether the range holds `port`.
pub open spec fn range_holds(range: RangeInclusive<u16>, port: u16) -> bool {
    &&& range@.start <= port
    &&& if range@.exhausted {
        port < range@.end
    } else {
        port <= range@.end
    }
}

/// Whether one of the ranges holds `port`.
pub open spec fn ports_hold(ranges: Seq<RangeInclusive<u16>>, port: u16) -> bool {
    exists|i: int| 0 <= i < ranges.len() && range_holds(#[trigger] ranges[i], port)
}

/// Whether two lists hold the same ranges in the same order.
pub open spec fn same_ranges(a: Seq<RangeInclusive<u16>>, b: Seq<RangeInclusive<u16>>) -> bool {
    &&& a.len() == b.len()
    &&& forall|i: int| 0 <= i < a.len() ==> (#[trigger] a[i])@ == b[i]@
}

/// Whether the ranges are the one range from 1 to 65535.
pub open spec fn every_port(ranges: Seq<RangeInclusive<u16>>) -> bool {
    &&& ranges.len() == 1
    &&& ranges[0]@.start == 1
    &&& ranges[0]@.end == 65535
    &&& !ranges[0]@.exhausted
}

/// Whether a configuration denies `addr`: it belongs to a kind that is not allowed.
pub open spec fn config_denies(config: options::EgressPolicy, addr: IpAddr) -> bool {
    ||| !config.allow_loopback && is_loopback(addr)
    ||| !config.allow_private && is_private(addr)
    ||| !config.allow_link_local && is_link_local(addr)
    ||| !config.allow_multicast && is_multicast(addr)
}

/// The blocks of one kind of address, unless the kind is allowed.
pub open spec fn unless_allowed<R>(allowed: bool, blocks: Seq<R>) -> Seq<R> {
    if allowed {
        Seq::empty()
    } else {
        blocks
    }
}

/// The IPv4 blocks that a configuration denies.
pub open spec fn config_blocks_v4(config: options::EgressPolicy) -> Seq<Ipv4Range> {
    unless_allowed(config.allow_loopback, restricted_blocks_v4().subrange(0, 1))
        + unless_allowed(config.allow_private, restricted_blocks_v4().subrange(1, 4))
        + unless_allowed(config.allow_link_local, restricted_blocks_v4().subrange(4, 5))
        + unless_allowed(config.allow_multicast, restricted_blocks_v4().subrange(5, 6))
}

/// The IPv6 blocks that a configuration denies.
pub open spec fn config_blocks_v6(config: options::EgressPolicy) -> Seq<Ipv6Range> {
    unless_allowed(config.allow_loopback, restricted_blocks_v6().subrange(0, 1))
        + unless_allowed(config.allow_private, restricted_blocks_v6().subrange(1, 2))
        + unless_allowed(config.allow_link_local, restricted_blocks_v6().subrange(2, 3))
        + unless_allowed(config.allow_multicast, restricted_blocks_v6().subrange(3, 4))
}

/// The range from 1 to 65535.
fn every_port_range() -> (ranges: Vec<RangeInclusive<u16>>)
    ensures
        every_port(ranges@),
{
    let mut ranges: Vec<RangeInclusive<u16>> = Vec::new();
    ranges.push(RangeInclusive::new(1, 65535));
    ranges
}

impl EgressPolicy {
    /// The ports allowed for `transport`.
    pub open spec fn port_ranges(self, transport: EgressTransport) -> Seq<RangeInclusive<u16>> {
        match transport {
            EgressTransport::Tcp => self.allowed_tcp_ports@,
            EgressTransport::Udp => self.allowed_udp_ports@,
        }
    }

    /// Whether `port` may be reached over `transport`.
    pub open spec fn allows_port(self, port: u16, transport: EgressTransport) -> bool {
        ports_hold(self.port_ranges(transport), port)
    }

    /// Whether `addr` lies in a denied network.
    pub open spec fn denies(self, addr: IpAddr) -> bool {
        self.denied_networks.holds(addr)
    }

    /// Whether the policy has the usual limits: every port but 0, 256 streams, 64 associations
    /// and five minutes of idling.
    pub open spec fn has_usual_limits(self) -> bool {
        &&& every_port(self.allowed_tcp_ports@)
        &&& every_port(self.allowed_udp_ports@)
        &&& self.max_tcp_streams_per_client == 256
        &&& self.max_udp_associations_per_client == 64
        &&& self.idle_timeout == duration_of_secs(300)
    }

    /// The policy with the usual limits that denies the given networks.
    fn with_denied_networks(denied_networks: IpRanges) -> (policy: Self)
        ensures
            policy.has_usual_limits(),
            policy.denied_networks == denied_networks,
    {
        EgressPolicy {
            allowed_tcp_ports: every_port_range(),
            allowed_udp_ports: every_port_range(),
            denied_networks,
            max_tcp_streams_per_client: 256,
            max_udp_associations_per_client: 64,
            idle_timeout: Duration::from_secs(300),
        }
    }

    /// A policy that blocks private, loopback, link-local and multicast destinations, the safe
    /// default for tunnels to the public internet only.
    pub fn public_internet_only() -> (policy: Self)
        ensures
            policy.has_usual_limits(),
            policy.denied_networks.v4_ranges() == restricted_blocks_v4(),
            policy.denied_networks.v6_ranges() == restricted_blocks_v6(),
            forall|addr: IpAddr| #[trigger] policy.denies(addr) <==> is_restricted(addr),
    {
        let (v4, v6) = restricted_subnets();
        EgressPolicy::with_denied_networks(IpRanges::new(v4, v6))
    }

    /// The runtime policy for the server's configuration flags: each kind of address that is not
    /// allowed is denied, and nothing else.
    pub fn from_config(config: &options::EgressPolicy) -> (policy: Self)
        ensures
            policy.has_usual_limits(),
            policy.denied_networks.v4_ranges() == config_blocks_v4(*config),
            policy.denied_networks.v6_ranges() == config_blocks_v6(*config),
            forall|addr: IpAddr| #[trigger] policy.denies(addr) <==> config_denies(*config, addr),
    {
        let mut v4: Vec<Ipv4Range> = Vec::new();
        let mut v6: Vec<Ipv6Range> = Vec::new();
        if !config.allow_loopback {
            push_loopback(&mut v4, &mut v6);
        }
        if !config.allow_private {
            push_private(&mut v4, &mut v6);
        }
        if !config.allow_link_local {
            push_link_local(&mut v4, &mut v6);
        }
        if !config.allow_multicast {
            push_multicast(&mut v4, &mut v6);
        }
        assert(v4@ =~= config_blocks_v4(*config));
        assert(v6@ =~= config_blocks_v6(*config));
        EgressPolicy::with_denied_networks(IpRanges::new(v4, v6))
    }

    /// Whether a resolved address may be reached. Neither the host nor the port is looked at.
    pub fn check_resolved(&self, _host: &str, addr: IpAddr, _port: u16) -> (checked: Result<
        (),
        EgressError,
    >)
        ensures
            checked == (if self.denies(addr) {
                Err::<(), EgressError>(EgressError::DestinationDenied)
            } else {
                Ok(())
            }),
    {
        if self.denied_networks.has(addr) {
            return Err(EgressError::DestinationDenied);
        }
        Ok(())
    }

    /// Whether a destination may be asked for at all, before its name is looked up: its port must
    /// be allowed for the transport. The host is not looked at.
    pub fn check_hostname(&self, _host: &str, port: u16, transport: EgressTransport) -> (checked:
        Result<(), EgressError>)
        ensures
            checked == (if self.allows_port(port, transport) {
                Ok::<(), EgressError>(())
            } else {
                Err(EgressError::DestinationDenied)
            }),
    {
        let allowed: &Vec<RangeInclusive<u16>> = match transport {
            EgressTransport::Tcp => &self.allowed_tcp_ports,
            EgressTransport::Udp => &self.allowed_udp_ports,
        };
        let mut i: usize = 0;
        while i < allowed.len()
            invariant
                i <= allowed.len(),
                allowed@ == self.port_ranges(transport),
                forall|j: int| 0 <= j < i ==> !range_holds(#[trigger] allowed@[j], port),
            decreases allowed.len() - i,
        {
            if allowed[i].contains(&port) {
                assert(range_holds(allowed@[i as int], port));
                return Ok(());
            }
            i = i + 1;
        }
        Err(EgressError::DestinationDenied)
    }

    /// The text to look up before `destination` can be authorized, if any: a host name whose port
    /// is allowed. A destination whose port is denied is refused here, before any lookup; an
    /// address needs none.
    pub fn lookup_target(
        &self,
        destination: &TunnelDestination,
        transport: EgressTransport,
    ) -> (target: Result<Option<String>, EgressError>)
        ensures
            match *destination {
                TunnelDestination::Domain(host, port) => if self.allows_port(port, transport) {
                    target matches Ok(Some(text)) && text@ == authority(host@, port)
                } else {
                    target == Err::<Option<String>, EgressError>(EgressError::DestinationDenied)
                },
                TunnelDestination::Ip(_) => target == Ok::<Option<String>, EgressError>(None),
            },
    {
        match destination {
            TunnelDestination::Domain(host, port) => {
                match self.check_hostname(host.as_str(), *port, transport) {
                    Ok(()) => Ok(Some(authority_text(host.as_str(), *port))),
                    Err(error) => Err(error),
                }
            },
            TunnelDestination::Ip(_) => Ok(None),
        }
    }

    /// What becomes of a request: the address to connect to, or why there is none.
    ///
    /// `lookup` is what the lookup of the host name gave; an address does not depend on it. Of the
    /// addresses found only the first counts.
    pub open spec fn verdict(
        self,
        destination: TunnelDestination,
        transport: EgressTransport,
        lookup: Result<Seq<SocketAddr>, anyhow::Error>,
    ) -> Result<SocketAddr, EgressError> {
        match destination {
            TunnelDestination::Domain(_, port) => if !self.allows_port(port, transport) {
                Err(EgressError::DestinationDenied)
            } else {
                match lookup {
                    Err(cause) => Err(EgressError::Resolve(cause)),
                    Ok(found) => if found.len() == 0 || self.denies(found[0].ip_part()) {
                        Err(EgressError::DestinationDenied)
                    } else {
                        Ok(found[0])
                    },
                }
            },
            TunnelDestination::Ip(addr) => if self.denies(addr.ip_part()) || !self.allows_port(
                addr.port_part(),
                transport,
            ) {
                Err(EgressError::DestinationDenied)
            } else {
                Ok(addr)
            },
        }
    }

    /// Full authorization: the host rules, the outcome of the lookup, then the address rules.
    pub fn authorize(
        &self,
        destination: &TunnelDestination,
        transport: EgressTransport,
        lookup: Result<Vec<SocketAddr>, anyhow::Error>,
    ) -> (authorized: Result<ResolvedDestination, EgressError>)
        ensures
            ({
                let verdict = self.verdict(*destination, transport, found_addresses(lookup));
                match authorized {
                    Ok(resolved) => resolved.requested == *destination && verdict == Ok::<
                        SocketAddr,
                        EgressError,
                    >(resolved.selected),
                    Err(error) => verdict == Err::<SocketAddr, EgressError>(error),
                }
            }),
    {
        match destination {
            TunnelDestination::Domain(host, port) => {
                match self.check_hostname(host.as_str(), *port, transport) {
                    Ok(()) => {},
                    Err(error) => {
                        return Err(error);
                    },
                }
                let found: Vec<SocketAddr> = match lookup {
                    Ok(found) => found,
                    Err(cause) => {
                        return Err(EgressError::Resolve(cause));
                    },
                };
                if found.len() == 0 {
                    return Err(EgressError::DestinationDenied);
                }
                let addr: SocketAddr = found[0];
                match self.check_resolved(host.as_str(), addr.ip(), *port) {
                    Ok(()) => Ok(
                        ResolvedDestination { requested: destination.clone(), selected: addr },
                    ),
                    Err(error) => Err(error),
                }
            },
            TunnelDestination::Ip(addr) => {
                match self.check_resolved("", addr.ip(), addr.port()) {
                    Ok(()) => {},
                    Err(error) => {
                        return Err(error);
                    },
                }
                match self.check_hostname("", addr.port(), transport) {
                    Ok(()) => Ok(
                        ResolvedDestination { requested: destination.clone(), selected: *addr },
                    ),
                    Err(error) => Err(error),
                }
            },
        }
    }
}

/// The outcome of a lookup, with the addresses as a sequence.
pub open spec fn found_addresses(lookup: Result<Vec<SocketAddr>, anyhow::Error>) -> Result<
    Seq<SocketAddr>,
    anyhow::Error,
> {
    match lookup {
        Ok(found) => Ok(found@),
        Err(cause) => Err(cause),
    }
}

impl Clone for EgressPolicy {
    fn clone(&self) -> (copy: Self)
        ensures
            same_ranges(copy.allowed_tcp_ports@, self.allowed_tcp_ports@),
            same_ranges(copy.allowed_udp_ports@, self.allowed_udp_ports@),
            copy.denied_networks.v4_ranges() == self.denied_networks.v4_ranges(),
            copy.denied_networks.v6_ranges() == self.denied_networks.v6_ranges(),
            copy.max_tcp_streams_per_client == self.max_tcp_streams_per_client,
            copy.max_udp_associations_per_client == self.max_udp_associations_per_client,
            copy.idle_timeout == self.idle_timeout,
    {
        EgressPolicy {
            allowed_tcp_ports: self.allowed_tcp_ports.clone(),
            allowed_udp_ports: self.allowed_udp_ports.clone(),
            denied_networks: self.denied_networks.clone(),
            max_tcp_streams_per_client: self.max_tcp_streams_per_client,
            max_udp_associations_per_client: self.max_udp_associations_per_client,
            idle_timeout: self.idle_timeout,
        }
    }
}

impl Default for EgressPolicy {
    /// The usual limits, and no network denied.
    fn default() -> (policy: Self)
        ensures
            policy.has_usual_limits(),
            policy.denied_networks.v4_ranges().len() == 0,
            policy.denied_networks.v6_ranges().len() == 0,
            forall|addr: IpAddr| !policy.denies(addr),
    {
        EgressPolicy::with_denied_networks(IpRanges::default())
    }
}

/// A TCP stream that an authenticated client has open.
#[derive(Debug)]
pub struct EgressTcp {
    pub stream_id: u64,
    pub client_key: TunnelPublicKey,
    pub destination: SocketAddr,
}

/// A UDP association that an authenticated client has open.
#[derive(Debug)]
pub struct EgressUdpAssociation {
    pub association_id: u64,
    pub client_key: TunnelPublicKey,
}

/// A configuration that allows none of the kinds denies every loopback, private, link-local and
/// multicast address and no other, just as the policy for the public internet does.
pub proof fn law_public_internet_is_the_strictest_configuration(addr: IpAddr)
    ensures
        config_denies(
            options::EgressPolicy {
                allow_private: false,
                allow_loopback: false,
                allow_link_local: false,
                allow_multicast: false,
            },
            addr,
        ) <==> is_restricted(addr),
{
}

/// A configuration that allows every kind denies nothing.
pub proof fn law_allowing_every_kind_denies_nothing(addr: IpAddr)
    ensures
        !config_denies(
            options::EgressPolicy {
                allow_private: true,
                allow_loopback: true,
                allow_link_local: true,
                allow_multicast: true,
            },
            addr,
        ),
{
}

/// A configuration that allows at least what another allows denies at most what the other denies.
pub proof fn law_allowing_more_denies_less(
    strict: options::EgressPolicy,
    lax: options::EgressPolicy,
    addr: IpAddr,
)
    requires
        strict.allow_private ==> lax.allow_private,
        strict.allow_loopback ==> lax.allow_loopback,
        strict.allow_link_local ==> lax.allow_link_local,
        strict.allow_multicast ==> lax.allow_multicast,
        config_denies(lax, addr),
    ensures
        config_denies(strict, addr),
{
}

/// The four kinds of restricted addresses have no address in common, so that each flag of a
/// configuration decides on its own kind alone.
pub proof fn law_each_flag_decides_its_own_kind(config: options::EgressPolicy, addr: IpAddr)
    ensures
        is_loopback(addr) ==> (config_denies(config, addr) <==> !config.allow_loopback),
        is_private(addr) ==> (config_denies(config, addr) <==> !config.allow_private),
        is_link_local(addr) ==> (config_denies(config, addr) <==> !config.allow_link_local),
        is_multicast(addr) ==> (config_denies(config, addr) <==> !config.allow_multicast),
        !is_restricted(addr) ==> !config_denies(config, addr),
{
}

/// With the usual limits every port but 0 is allowed, over both transports.
pub proof fn law_usual_limits_allow_every_port_but_zero(
    policy: EgressPolicy,
    port: u16,
    transport: EgressTransport,
)
    requires
        policy.has_usual_limits(),
    ensures
        policy.allows_port(port, transport) <==> port != 0,
{
    let ranges = policy.port_ranges(transport);
    if port != 0 {
        assert(range_holds(ranges[0], port));
    }
}

/// The TCP ports are only checked for TCP and the UDP ports only for UDP: what is decided for one
/// transport does not depend on the ports of the other.
pub proof fn law_ports_of_the_other_transport_do_not_matter(
    a: EgressPolicy,
    b: EgressPolicy,
    destination: TunnelDestination,
    transport: EgressTransport,
    lookup: Result<Seq<SocketAddr>, anyhow::Error>,
)
    requires
        a.port_ranges(transport) == b.port_ranges(transport),
        a.denied_networks == b.denied_networks,
    ensures
        a.verdict(destination, transport, lookup) == b.verdict(destination, transport, lookup),
{
}

/// Whatever is authorized was allowed by both rules: the port that was asked for, and the address
/// that was chosen.
pub proof fn law_authorized_destinations_are_permitted(
    policy: EgressPolicy,
    destination: TunnelDestination,
    transport: EgressTransport,
    lookup: Result<Seq<SocketAddr>, anyhow::Error>,
)
    requires
        policy.verdict(destination, transport, lookup) is Ok,
    ensures
        policy.allows_port(requested_port(destination), transport),
        !policy.denies(policy.verdict(destination, transport, lookup)->Ok_0.ip_part()),
        match destination {
            TunnelDestination::Ip(addr) => policy.verdict(destination, transport, lookup)->Ok_0
                == addr,
            TunnelDestination::Domain(_, _) => lookup is Ok && lookup->Ok_0.contains(
                policy.verdict(destination, transport, lookup)->Ok_0,
            ),
        },
{
    if destination is Domain {
        assert(lookup->Ok_0[0] == policy.verdict(destination, transport, lookup)->Ok_0);
    }
}

/// The port that a destination names.
pub open spec fn requested_port(destination: TunnelDestination) -> u16 {
    match destination {
        TunnelDestination::Ip(addr) => addr.port_part(),
        TunnelDestination::Domain(_, port) => port,
    }
}

/// Host rules come before the lookup: where the port is denied, the request is refused whatever a
/// lookup would have given.
pub proof fn law_denied_port_is_refused_whatever_the_lookup(
    policy: EgressPolicy,
    destination: TunnelDestination,
    transport: EgressTransport,
    lookup: Result<Seq<SocketAddr>, anyhow::Error>,
)
    requires
        !policy.allows_port(requested_port(destination), transport),
    ensures
        policy.verdict(destination, transport, lookup) == Err::<SocketAddr, EgressError>(
            EgressError::DestinationDenied,
        ),
{
}

/// An address needs no lookup: what is decided of it is the same whatever a lookup would give.
pub proof fn law_addresses_need_no_lookup(
    policy: EgressPolicy,
    addr: SocketAddr,
    transport: EgressTransport,
    lookup: Result<Seq<SocketAddr>, anyhow::Error>,
    other: Result<Seq<SocketAddr>, anyhow::Error>,
)
    ensures
        policy.verdict(TunnelDestination::Ip(addr), transport, lookup) == policy.verdict(
            TunnelDestination::Ip(addr),
            transport,
            other,
        ),
{
}

/// Of the addresses that a lookup gives only the first counts. If it is denied, the request is
/// refused, and no later address is tried.
pub proof fn law_only_the_first_address_counts(
    policy: EgressPolicy,
    destination: TunnelDestination,
    transport: EgressTransport,
    first: SocketAddr,
    rest: Seq<SocketAddr>,
    other_rest: Seq<SocketAddr>,
)
    ensures
        policy.verdict(
            destination,
            transport,
            Ok::<Seq<SocketAddr>, anyhow::Error>(seq![first] + rest),
        ) == policy.verdict(
            destination,
            transport,
            Ok::<Seq<SocketAddr>, anyhow::Error>(seq![first] + other_rest),
        ),
{
}

/// A refused request is answered in one of two ways: with `HostUnreachable` exactly where the
/// lookup of an allowed host failed, and with `DestinationDenied` everywhere else.
pub proof fn law_answer_to_a_refused_request(
    policy: EgressPolicy,
    destination: TunnelDestination,
    transport: EgressTransport,
    lookup: Result<Seq<SocketAddr>, anyhow::Error>,
)
    requires
        policy.verdict(destination, transport, lookup) is Err,
    ensures
        error_code(policy.verdict(destination, transport, lookup)->Err_0) == (if destination is Domain
            && policy.allows_port(requested_port(destination), transport) && lookup is Err {
            TunnelErrorCode::HostUnreachable
        } else {
            TunnelErrorCode::DestinationDenied
        }),
{
}

/// Policies with the same ranges and networks decide alike, so that a copy decides as the policy
/// that it was made from.
pub proof fn law_equal_rules_decide_alike(
    a: EgressPolicy,
    b: EgressPolicy,
    destination: TunnelDestination,
    transport: EgressTransport,
    lookup: Result<Seq<SocketAddr>, anyhow::Error>,
)
    requires
        same_ranges(a.port_ranges(transport), b.port_ranges(transport)),
        a.denied_networks.v4_ranges() == b.denied_networks.v4_ranges(),
        a.denied_networks.v6_ranges() == b.denied_networks.v6_ranges(),
    ensures
        a.verdict(destination, transport, lookup) == b.verdict(destination, transport, lookup),
{
    let p = a.port_ranges(transport);
    let q = b.port_ranges(transport);
    let port = requested_port(destination);
    if ports_hold(p, port) {
        let i = choose|i: int| 0 <= i < p.len() && range_holds(#[trigger] p[i], port);
        assert(p[i]@ == q[i]@);
        assert(range_holds(q[i], port));
    }
    if ports_hold(q, port) {
        let i = choose|i: int| 0 <= i < q.len() && range_holds(#[trigger] q[i], port);
        assert(p[i]@ == q[i]@);
        assert(range_holds(p[i], port));
    }
}

/// Lists with the same ranges have the same length and, at every place, ranges with the same
/// bounds that were used up alike. No others have the same ranges.
pub proof fn law_same_ranges_agree_at_every_place(
    a: Seq<RangeInclusive<u16>>,
    b: Seq<RangeInclusive<u16>>,
)
    ensures
        same_ranges(a, b) <==> a.len() == b.len() && forall|i: int|
            0 <= i < a.len() ==> (#[trigger] a[i])@.start == b[i]@.start && a[i]@.end == b[i]@.end
                && a[i]@.exhausted == b[i]@.exhausted,
{
}

/// Different kinds of errors are answered with different codes.
pub proof fn law_error_codes_tell_errors_apart(a: EgressError, b: EgressError)
    requires
        error_code(a) == error_code(b),
    ensures
        a is DestinationDenied <==> b is DestinationDenied,
        a is Resolve <==> b is Resolve,
        a is Connect <==> b is Connect,
        a is TimedOut <==> b is TimedOut,
{
}

/// An empty list allows no port, and one more range, however long the list is, allows exactly the
/// ports from its start to its end besides those allowed before. A range that was iterated to
/// its end has given its last port away.
pub proof fn law_port_lists_are_unions(
    ranges: Seq<RangeInclusive<u16>>,
    more: RangeInclusive<u16>,
    port: u16,
)
    ensures
        !ports_hold(Seq::empty(), port),
        ports_hold(ranges.push(more), port) <==> ports_hold(ranges, port) || (more@.start <= port
            && (port < more@.end || (port == more@.end && !more@.exhausted))),
{
    let longer = ranges.push(more);
    if ports_hold(ranges, port) {
        let i = choose|i: int| 0 <= i < ranges.len() && range_holds(#[trigger] ranges[i], port);
        assert(longer[i] == ranges[i]);
    }
    assert(longer[ranges.len() as int] == more);
    if ports_hold(longer, port) {
        let i = choose|i: int| 0 <= i < longer.len() && range_holds(#[trigger] longer[i], port);
        if i < ranges.len() {
            assert(longer[i] == ranges[i]);
        }
    }
}

/// A port may be reached over a transport exactly if some range, at any place of that transport's
/// own list, contains it.
pub proof fn law_port_is_allowed_by_any_range_of_its_transport(policy: EgressPolicy, port: u16)
    ensures
        policy.allows_port(port, EgressTransport::Tcp) <==> exists|i: int|
            #![trigger policy.allowed_tcp_ports@[i]]
            0 <= i < policy.allowed_tcp_ports@.len() && policy.allowed_tcp_ports@[i]@.start <= port
                && (port < policy.allowed_tcp_ports@[i]@.end || (port
                == policy.allowed_tcp_ports@[i]@.end && !policy.allowed_tcp_ports@[i]@.exhausted)),
        policy.allows_port(port, EgressTransport::Udp) <==> exists|i: int|
            #![trigger policy.allowed_udp_ports@[i]]
            0 <= i < policy.allowed_udp_ports@.len() && policy.allowed_udp_ports@[i]@.start <= port
                && (port < policy.allowed_udp_ports@[i]@.end || (port
                == policy.allowed_udp_ports@[i]@.end && !policy.allowed_udp_ports@[i]@.exhausted)),
{
}

/// An address is denied exactly if some denied range of its family, at any place of the list,
/// reaches from below to above it.
pub proof fn law_address_is_denied_by_any_range_of_its_family(
    policy: EgressPolicy,
    narrow: Ipv4Addr,
    wide: Ipv6Addr,
)
    ensures
        policy.denies(IpAddr::V4(narrow)) <==> exists|i: int|
            #![trigger policy.denied_networks.v4_ranges()[i]]
            0 <= i < policy.denied_networks.v4_ranges().len()
                && policy.denied_networks.v4_ranges()[i].first.bits <= narrow.bits && narrow.bits
                <= policy.denied_networks.v4_ranges()[i].last.bits,
        policy.denies(IpAddr::V6(wide)) <==> exists|i: int|
            #![trigger policy.denied_networks.v6_ranges()[i]]
            0 <= i < policy.denied_networks.v6_ranges().len()
                && policy.denied_networks.v6_ranges()[i].first.bits <= wide.bits && wide.bits
                <= policy.denied_networks.v6_ranges()[i].last.bits,
{
    law_set_holds_what_its_ranges_reach(policy.denied_networks, narrow, wide);
}

/// Every permitted request is granted, over TCP and UDP alike: if the range at `i` of the
/// transport's ports contains the port, and no denied range contains the address that was asked
/// for, or the first one that the lookup of the host found, then that address is selected.
pub proof fn law_permitted_requests_are_granted(
    policy: EgressPolicy,
    transport: EgressTransport,
    addr: SocketAddr,
    host: String,
    port: u16,
    i: int,
    lookup: Result<Vec<SocketAddr>, anyhow::Error>,
    found: Vec<SocketAddr>,
)
    requires
        match transport {
            EgressTransport::Tcp => 0 <= i < policy.allowed_tcp_ports@.len()
                && policy.allowed_tcp_ports@[i]@.start <= port && (port
                < policy.allowed_tcp_ports@[i]@.end || (port == policy.allowed_tcp_ports@[i]@.end
                && !policy.allowed_tcp_ports@[i]@.exhausted)),
            EgressTransport::Udp => 0 <= i < policy.allowed_udp_ports@.len()
                && policy.allowed_udp_ports@[i]@.start <= port && (port
                < policy.allowed_udp_ports@[i]@.end || (port == policy.allowed_udp_ports@[i]@.end
                && !policy.allowed_udp_ports@[i]@.exhausted)),
        },
        match addr {
            SocketAddr::V4(a) => forall|j: int|
                0 <= j < policy.denied_networks.v4_ranges().len() ==> a.ip.bits < (
                #[trigger] policy.denied_networks.v4_ranges()[j]).first.bits
                    || policy.denied_networks.v4_ranges()[j].last.bits < a.ip.bits,
            SocketAddr::V6(a) => forall|j: int|
                0 <= j < policy.denied_networks.v6_ranges().len() ==> a.ip.bits < (
                #[trigger] policy.denied_networks.v6_ranges()[j]).first.bits
                    || policy.denied_networks.v6_ranges()[j].last.bits < a.ip.bits,
        },
    ensures
        (match addr {
            SocketAddr::V4(a) => a.port == port,
            SocketAddr::V6(a) => a.port == port,
        }) ==> policy.verdict(TunnelDestination::Ip(addr), transport, found_addresses(lookup))
            == Ok::<SocketAddr, EgressError>(addr),
        found@.len() > 0 && found@[0] == addr ==> policy.verdict(
            TunnelDestination::Domain(host, port),
            transport,
            found_addresses(Ok(found)),
        ) == Ok::<SocketAddr, EgressError>(addr),
{
    law_port_is_allowed_by_any_range_of_its_transport(policy, port);
    match addr {
        SocketAddr::V4(a) => {
            law_address_is_denied_by_any_range_of_its_family(policy, a.ip, Ipv6Addr { bits: 0 });
        },
        SocketAddr::V6(a) => {
            law_address_is_denied_by_any_range_of_its_family(policy, Ipv4Addr { bits: 0 }, a.ip);
        },
    }
}

/// A request for a port that no range of its transport contains is refused, whatever the address,
/// the host and the lookup are.
pub proof fn law_port_outside_every_range_is_refused(
    policy: EgressPolicy,
    transport: EgressTransport,
    addr: SocketAddr,
    host: String,
    port: u16,
    lookup: Result<Vec<SocketAddr>, anyhow::Error>,
)
    requires
        match transport {
            EgressTransport::Tcp => forall|i: int|
                0 <= i < policy.allowed_tcp_ports@.len() ==> port < (
                #[trigger] policy.allowed_tcp_ports@[i])@.start
                    || policy.allowed_tcp_ports@[i]@.end < port || (port
                    == policy.allowed_tcp_ports@[i]@.end
                    && policy.allowed_tcp_ports@[i]@.exhausted),
            EgressTransport::Udp => forall|i: int|
                0 <= i < policy.allowed_udp_ports@.len() ==> port < (
                #[trigger] policy.allowed_udp_ports@[i])@.start
                    || policy.allowed_udp_ports@[i]@.end < port || (port
                    == policy.allowed_udp_ports@[i]@.end
                    && policy.allowed_udp_ports@[i]@.exhausted),
        },
    ensures
        (match addr {
            SocketAddr::V4(a) => a.port == port,
            SocketAddr::V6(a) => a.port == port,
        }) ==> policy.verdict(TunnelDestination::Ip(addr), transport, found_addresses(lookup))
            == Err::<SocketAddr, EgressError>(EgressError::DestinationDenied),
        policy.verdict(TunnelDestination::Domain(host, port), transport, found_addresses(lookup))
            == Err::<SocketAddr, EgressError>(EgressError::DestinationDenied),
{
    law_port_is_allowed_by_any_range_of_its_transport(policy, port);
}

/// An address that the denied range at `j` contains is never selected: the request is refused,
/// whether it asked for the address itself or for a host whose lookup found it first.
pub proof fn law_denied_address_is_refused(
    policy: EgressPolicy,
    transport: EgressTransport,
    addr: SocketAddr,
    host: String,
    port: u16,
    j: int,
    lookup: Result<Vec<SocketAddr>, anyhow::Error>,
    found: Vec<SocketAddr>,
)
    requires
        match addr {
            SocketAddr::V4(a) => 0 <= j < policy.denied_networks.v4_ranges().len()
                && policy.denied_networks.v4_ranges()[j].first.bits <= a.ip.bits
                <= policy.denied_networks.v4_ranges()[j].last.bits,
            SocketAddr::V6(a) => 0 <= j < policy.denied_networks.v6_ranges().len()
                && policy.denied_networks.v6_ranges()[j].first.bits <= a.ip.bits
                <= policy.denied_networks.v6_ranges()[j].last.bits,
        },
    ensures
        policy.verdict(TunnelDestination::Ip(addr), transport, found_addresses(lookup)) == Err::<
            SocketAddr,
            EgressError,
        >(EgressError::DestinationDenied),
        found@.len() > 0 && found@[0] == addr ==> policy.verdict(
            TunnelDestination::Domain(host, port),
            transport,
            found_addresses(Ok(found)),
        ) == Err::<SocketAddr, EgressError>(EgressError::DestinationDenied),
{
    match addr {
        SocketAddr::V4(a) => {
            law_address_is_denied_by_any_range_of_its_family(policy, a.ip, Ipv6Addr { bits: 0 });
        },
        SocketAddr::V6(a) => {
            law_address_is_denied_by_any_range_of_its_family(policy, Ipv4Addr { bits: 0 }, a.ip);
        },
    }
}

/// For a host with an allowed port, a lookup that failed is reported with its own cause, and a
/// lookup that found nothing is a refusal.
pub proof fn law_lookup_without_address_authorizes_nothing(
    policy: EgressPolicy,
    transport: EgressTransport,
    host: String,
    port: u16,
    cause: anyhow::Error,
    nothing: Vec<SocketAddr>,
)
    requires
        policy.allows_port(port, transport),
        nothing@.len() == 0,
    ensures
        policy.verdict(
            TunnelDestination::Domain(host, port),
            transport,
            found_addresses(Err(cause)),
        ) == Err::<SocketAddr, EgressError>(EgressError::Resolve(cause)),
        policy.verdict(
            TunnelDestination::Domain(host, port),
            transport,
            found_addresses(Ok(nothing)),
        ) == Err::<SocketAddr, EgressError>(EgressError::DestinationDenied),
{
}

/// Whatever the cause is, each kind of error has its code: a denied destination is answered as
/// denied, a failed lookup as an unreachable host, a failed connection as refused and a timeout as
/// a timeout.
pub proof fn law_each_error_has_its_code(lookup_cause: anyhow::Error, io_cause: std::io::Error)
    ensures
        error_code(EgressError::DestinationDenied) == TunnelErrorCode::DestinationDenied,
        error_code(EgressError::Resolve(lookup_cause)) == TunnelErrorCode::HostUnreachable,
        error_code(EgressError::Connect(io_cause)) == TunnelErrorCode::ConnectionRefused,
        error_code(EgressError::TimedOut) == TunnelErrorCode::TimedOut,
{
}

/// The cause of a failed lookup becomes a resolve error and the cause of a failed connection a
/// connect error, with the cause kept.
pub proof fn law_causes_become_errors(lookup_cause: anyhow::Error, io_cause: std::io::Error)
    ensures
        <EgressError as FromSpec<anyhow::Error>>::obeys_from_spec(),
        <EgressError as FromSpec<anyhow::Error>>::from_spec(lookup_cause) == EgressError::Resolve(
            lookup_cause,
        ),
        <EgressError as FromSpec<std::io::Error>>::obeys_from_spec(),
        <EgressError as FromSpec<std::io::Error>>::from_spec(io_cause) == EgressError::Connect(
            io_cause,
        ),
{
}

/// The usual limits leave nothing open: one range of ports from 1 to 65535 per transport, 256
/// streams, 64 associations and 300 seconds of idling.
pub proof fn law_usual_limits_are_fixed(policy: EgressPolicy)
    requires
        policy.has_usual_limits(),
    ensures
        policy.allowed_tcp_ports@.len() == 1,
        policy.allowed_tcp_ports@[0]@.start == 1,
        policy.allowed_tcp_ports@[0]@.end == 65535,
        !policy.allowed_tcp_ports@[0]@.exhausted,
        policy.allowed_udp_ports@.len() == 1,
        policy.allowed_udp_ports@[0]@.start == 1,
        policy.allowed_udp_ports@[0]@.end == 65535,
        !policy.allowed_udp_ports@[0]@.exhausted,
        policy.max_tcp_streams_per_client == 256,
        policy.max_udp_associations_per_client == 64,
        policy.idle_timeout == duration_of_secs(300),
{
}

/// The blocks that a configuration denies are the restricted blocks without those of the kinds
/// that it allows.
pub proof fn law_configuration_denies_the_blocks_it_does_not_allow(config: options::EgressPolicy)
    ensures
        forall|block: Ipv4Range| #[trigger]
            config_blocks_v4(config).contains(block) <==> restricted_blocks_v4().contains(block)
                && config_denies(config, IpAddr::V4(block.first)),
        forall|block: Ipv6Range| #[trigger]
            config_blocks_v6(config).contains(block) <==> restricted_blocks_v6().contains(block)
                && config_denies(config, IpAddr::V6(block.first)),
        !config.allow_loopback && !config.allow_private && !config.allow_link_local
            && !config.allow_multicast ==> config_blocks_v4(config) == restricted_blocks_v4()
            && config_blocks_v6(config) == restricted_blocks_v6(),
        config_blocks_v4(config).no_duplicates(),
        config_blocks_v6(config).no_duplicates(),
{
    let all_v4 = restricted_blocks_v4();
    let all_v6 = restricted_blocks_v6();
    let kept_v4 = config_blocks_v4(config);
    let kept_v6 = config_blocks_v6(config);
    assert forall|block: Ipv4Range| #[trigger] kept_v4.contains(block) <==> all_v4.contains(block)
        && config_denies(config, IpAddr::V4(block.first)) by {
        lemma_kept_blocks_v4(config, block);
    }
    assert forall|block: Ipv6Range| #[trigger] kept_v6.contains(block) <==> all_v6.contains(block)
        && config_denies(config, IpAddr::V6(block.first)) by {
        lemma_kept_blocks_v6(config, block);
    }
    if !config.allow_loopback && !config.allow_private && !config.allow_link_local
        && !config.allow_multicast {
        assert(kept_v4 =~= all_v4);
        assert(kept_v6 =~= all_v6);
    }
}

proof fn lemma_kept_blocks_v4(config: options::EgressPolicy, block: Ipv4Range)
    ensures
        config_blocks_v4(config).contains(block) <==> restricted_blocks_v4().contains(block)
            && config_denies(config, IpAddr::V4(block.first)),
{
    let all = restricted_blocks_v4();
    let kept = config_blocks_v4(config);
    if all.contains(block) && config_denies(config, IpAddr::V4(block.first)) {
        let i = choose|i: int| 0 <= i < all.len() && all[i] == block;
        let a: int = if config.allow_loopback { 0 } else { 1 };
        let b: int = a + if config.allow_private { 0int } else { 3 };
        let c: int = b + if config.allow_link_local { 0int } else { 1 };
        let at = if i == 0 {
            0
        } else if i < 4 {
            a + i - 1
        } else if i == 4 {
            b
        } else {
            c
        };
        assert(kept[at] == block);
    }
    if kept.contains(block) {
        let i = choose|i: int| 0 <= i < kept.len() && kept[i] == block;
        let a: int = if config.allow_loopback { 0 } else { 1 };
        let b: int = a + if config.allow_private { 0int } else { 3 };
        let c: int = b + if config.allow_link_local { 0int } else { 1 };
        let at = if i < a {
            0
        } else if i < b {
            1 + i - a
        } else if i < c {
            4
        } else {
            5
        };
        assert(all[at] == block);
    }
}

proof fn lemma_kept_blocks_v6(config: options::EgressPolicy, block: Ipv6Range)
    ensures
        config_blocks_v6(config).contains(block) <==> restricted_blocks_v6().contains(block)
            && config_denies(config, IpAddr::V6(block.first)),
{
    let all = restricted_blocks_v6();
    let kept = config_blocks_v6(config);
    let a: int = if config.allow_loopback { 0 } else { 1 };
    let b: int = a + if config.allow_private { 0int } else { 1 };
    let c: int = b + if config.allow_link_local { 0int } else { 1 };
    if all.contains(block) && config_denies(config, IpAddr::V6(block.first)) {
        let i = choose|i: int| 0 <= i < all.len() && all[i] == block;
        let at = if i == 0 {
            0
        } else if i == 1 {
            a
        } else if i == 2 {
            b
        } else {
            c
        };
        assert(kept[at] == block);
    }
    if kept.contains(block) {
        let i = choose|i: int| 0 <= i < kept.len() && kept[i] == block;
        let at = if i < a {
            0
        } else if i < b {
            1
        } else if i < c {
            2
        } else {
            3int
        };
        assert(all[at] == block);
    }
}

} // verus!
