//! Addresses as plain numbers.

use vstd::arithmetic::div_mod::*;
use vstd::arithmetic::power2::*;
use vstd::prelude::*;

verus! {

/// An IPv4 address, held as the number its four octets spell in network order.
#[derive(Clone, Copy, Debug, PartialEq, Eq, Structural)]
pub struct Ipv4Addr {
    pub bits: u32,
}

/// An IPv6 address, held as the number its sixteen octets spell in network order.
#[derive(Clone, Copy, Debug, PartialEq, Eq, Structural)]
pub struct Ipv6Addr {
    pub bits: u128,
}

/// An address of either family.
#[derive(Clone, Copy, Debug, PartialEq, Eq, Structural)]
pub enum IpAddr {
    V4(Ipv4Addr),
    V6(Ipv6Addr),
}

/// An IPv4 address with a port.
#[derive(Clone, Copy, Debug, PartialEq, Eq, Structural)]
pub struct SocketAddrV4 {
    pub ip: Ipv4Addr,
    pub port: u16,
}

/// An IPv6 address with a port, a flow label and a scope.
#[derive(Clone, Copy, Debug, PartialEq, Eq, Structural)]
pub struct SocketAddrV6 {
    pub ip: Ipv6Addr,
    pub port: u16,
    pub flowinfo: u32,
    pub scope_id: u32,
}

/// A socket address of either family.
#[derive(Clone, Copy, Debug, PartialEq, Eq, Structural)]
pub enum SocketAddr {
    V4(SocketAddrV4),
    V6(SocketAddrV6),
}

/// The number that the first `n` octets of `octets` spell, most significant octet first.
pub open spec fn big_endian(octets: Seq<u8>, n: nat) -> nat
    decreases n,
{
    if n == 0 {
        0
    } else {
        big_endian(octets, (n - 1) as nat) * 256 + octets[n - 1] as nat
    }
}

/// `2^128` as a number.
proof fn lemma_pow2_128()
    ensures
        pow2(128) == 0x1_0000_0000_0000_0000_0000_0000_0000_0000,
{
    lemma_pow2_adds(64, 64);
    lemma2_to64();
    assert(pow2(64) * pow2(64) == 0x1_0000_0000_0000_0000_0000_0000_0000_0000)
        by (nonlinear_arith)
        requires
            pow2(64) == 0x1_0000_0000_0000_0000,
    ;
}

/// `n` octets spell a number below `2^(8n)`.
proof fn lemma_big_endian_bound(octets: Seq<u8>, n: nat)
    ensures
        big_endian(octets, n) < pow2(8 * n),
    decreases n,
{
    if n == 0 {
        lemma2_to64();
    } else {
        lemma_big_endian_bound(octets, (n - 1) as nat);
        lemma_pow2_adds((8 * (n - 1)) as nat, 8);
        lemma2_to64();
    }
}

impl Ipv4Addr {
    /// The address written `a.b.c.d`.
    pub fn new(a: u8, b: u8, c: u8, d: u8) -> (addr: Self)
        ensures
            addr.bits == a * 0x100_0000 + b * 0x1_0000 + c * 0x100 + d,
    {
        Ipv4Addr { bits: a as u32 * 0x100_0000 + b as u32 * 0x1_0000 + c as u32 * 0x100 + d as u32 }
    }

    /// The address with the given octets, in network order.
    pub fn from_octets(octets: [u8; 4]) -> (addr: Self)
        ensures
            addr.bits == big_endian(octets@, 4),
    {
        proof {
            reveal_with_fuel(big_endian, 5);
        }
        Ipv4Addr::new(octets[0], octets[1], octets[2], octets[3])
    }

    /// `127.0.0.1`.
    pub fn localhost() -> (addr: Self)
        ensures
            addr.bits == 0x7f00_0001,
    {
        Ipv4Addr { bits: 0x7f00_0001 }
    }
}

impl Ipv6Addr {
    /// The address with the given octets, in network order.
    pub fn from_octets(octets: [u8; 16]) -> (addr: Self)
        ensures
            addr.bits == big_endian(octets@, 16),
    {
        let mut bits: u128 = 0;
        let mut i: usize = 0;
        while i < 16
            invariant
                i <= 16,
                bits == big_endian(octets@, i as nat),
            decreases 16 - i,
        {
            proof {
                lemma_big_endian_bound(octets@, (i + 1) as nat);
                lemma_pow2_128();
                if i < 15 {
                    lemma_pow2_strictly_increases((8 * (i + 1)) as nat, 128);
                }
            }
            bits = bits * 256 + octets[i] as u128;
            i = i + 1;
        }
        Ipv6Addr { bits }
    }

    /// `::1`.
    pub fn localhost() -> (addr: Self)
        ensures
            addr.bits == 1,
    {
        Ipv6Addr { bits: 1 }
    }
}

impl SocketAddr {
    /// The address without the port.
    pub open spec fn ip_part(self) -> IpAddr {
        match self {
            SocketAddr::V4(a) => IpAddr::V4(a.ip),
            SocketAddr::V6(a) => IpAddr::V6(a.ip),
        }
    }

    /// The port.
    pub open spec fn port_part(self) -> u16 {
        match self {
            SocketAddr::V4(a) => a.port,
            SocketAddr::V6(a) => a.port,
        }
    }

    /// The address without the port.
    pub fn ip(&self) -> (ip: IpAddr)
        ensures
            ip == self.ip_part(),
    {
        match self {
            SocketAddr::V4(a) => IpAddr::V4(a.ip),
            SocketAddr::V6(a) => IpAddr::V6(a.ip),
        }
    }

    /// The port.
    pub fn port(&self) -> (port: u16)
        ensures
            port == self.port_part(),
    {
        match self {
            SocketAddr::V4(a) => a.port,
            SocketAddr::V6(a) => a.port,
        }
    }
}

/// A socket address gives back the address and the port that it was made of, whatever its flow
/// label and scope are.
pub proof fn law_socket_address_reads_back(
    narrow: Ipv4Addr,
    wide: Ipv6Addr,
    port: u16,
    flowinfo: u32,
    scope_id: u32,
)
    ensures
        SocketAddr::V4((SocketAddrV4 { ip: narrow, port })).ip_part() == IpAddr::V4(narrow),
        SocketAddr::V4((SocketAddrV4 { ip: narrow, port })).port_part() == port,
        SocketAddr::V6((SocketAddrV6 { ip: wide, port, flowinfo, scope_id })).ip_part()
            == IpAddr::V6(wide),
        SocketAddr::V6((SocketAddrV6 { ip: wide, port, flowinfo, scope_id })).port_part() == port,
{
}

/// Every octet can be read back from the number: the octet at `i` of `n` is what is left of the
/// number after the `n - 1 - i` octets behind it are cut off, modulo 256. The number has no more
/// than `n` octets.
pub proof fn law_octets_read_back(octets: Seq<u8>, n: nat, i: int)
    requires
        0 <= i < n <= octets.len(),
    ensures
        big_endian(octets, n) < pow2(8 * n),
        big_endian(octets, n) / pow2((8 * (n - 1 - i)) as nat) % 256 == octets[i],
    decreases n,
{
    lemma_big_endian_bound(octets, n);
    let before = big_endian(octets, (n - 1) as nat);
    let number = big_endian(octets, n);
    lemma2_to64();
    if i == n - 1 {
        assert((8 * (n - 1 - i)) as nat == 0);
        assert(number / pow2(0) == number) by (nonlinear_arith)
            requires
                pow2(0) == 1,
        ;
        assert(number % 256 == octets[i]);
    } else {
        law_octets_read_back(octets, (n - 1) as nat, i);
        let cut = (8 * (n - 2 - i)) as nat;
        lemma_pow2_adds(8, cut);
        lemma_pow2_pos(cut);
        assert(number / 256 == before);
        lemma_div_denominator(number as int, 256, pow2(cut) as int);
        assert((8 * (n - 1 - i)) as nat == 8 + cut);
        assert(number / pow2(8 + cut) == before / pow2(cut));
    }
}

} // verus!
