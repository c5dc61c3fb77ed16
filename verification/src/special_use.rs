//! Address blocks that do not belong to the public internet.

use vstd::arithmetic::power2::*;
use vstd::prelude::*;

use crate::ip_ranges::{covers_v4, covers_v6, lemma_covers_push_v4, lemma_covers_push_v6};
use crate::net::{big_endian, IpAddr, Ipv4Addr, Ipv6Addr};
use crate::subnet::{single_v6, subnet_v4, subnet_v6, Ipv4Range, Ipv6Range};

verus! {

/// `127.0.0.0/8`.
pub open spec fn loopback_v4(addr: Ipv4Addr) -> bool {
    0x7f00_0000 <= addr.bits <= 0x7fff_ffff
}

/// `::1`.
pub open spec fn loopback_v6(addr: Ipv6Addr) -> bool {
    addr.bits == 1
}

/// `10.0.0.0/8`, `172.16.0.0/12` and `192.168.0.0/16`.
pub open spec fn private_v4(addr: Ipv4Addr) -> bool {
    ||| 0x0a00_0000 <= addr.bits <= 0x0aff_ffff
    ||| 0xac10_0000 <= addr.bits <= 0xac1f_ffff
    ||| 0xc0a8_0000 <= addr.bits <= 0xc0a8_ffff
}

/// `fc00::/7`, the unique local addresses.
pub open spec fn private_v6(addr: Ipv6Addr) -> bool {
    0xfc00_0000_0000_0000_0000_0000_0000_0000 <= addr.bits
        <= 0xfdff_ffff_ffff_ffff_ffff_ffff_ffff_ffff
}

/// `169.254.0.0/16`.
pub open spec fn link_local_v4(addr: Ipv4Addr) -> bool {
    0xa9fe_0000 <= addr.bits <= 0xa9fe_ffff
}

/// `fe80::/10`.
pub open spec fn link_local_v6(addr: Ipv6Addr) -> bool {
    0xfe80_0000_0000_0000_0000_0000_0000_0000 <= addr.bits
        <= 0xfebf_ffff_ffff_ffff_ffff_ffff_ffff_ffff
}

/// `224.0.0.0/4`.
pub open spec fn multicast_v4(addr: Ipv4Addr) -> bool {
    0xe000_0000 <= addr.bits <= 0xefff_ffff
}

/// `ff00::/8`.
pub open spec fn multicast_v6(addr: Ipv6Addr) -> bool {
    0xff00_0000_0000_0000_0000_0000_0000_0000 <= addr.bits
}

/// Whether `addr` is a loopback address.
pub open spec fn is_loopback(addr: IpAddr) -> bool {
    match addr {
        IpAddr::V4(a) => loopback_v4(a),
        IpAddr::V6(a) => loopback_v6(a),
    }
}

/// Whether `addr` is a private address.
pub open spec fn is_private(addr: IpAddr) -> bool {
    match addr {
        IpAddr::V4(a) => private_v4(a),
        IpAddr::V6(a) => private_v6(a),
    }
}

/// Whether `addr` is a link-local address.
pub open spec fn is_link_local(addr: IpAddr) -> bool {
    match addr {
        IpAddr::V4(a) => link_local_v4(a),
        IpAddr::V6(a) => link_local_v6(a),
    }
}

/// Whether `addr` is a multicast address.
pub open spec fn is_multicast(addr: IpAddr) -> bool {
    match addr {
        IpAddr::V4(a) => multicast_v4(a),
        IpAddr::V6(a) => multicast_v6(a),
    }
}

/// Whether `addr` lies outside the public internet.
pub open spec fn is_restricted(addr: IpAddr) -> bool {
    is_loopback(addr) || is_private(addr) || is_link_local(addr) || is_multicast(addr)
}

/// The IPv4 range from `first` to `last`.
pub open spec fn block_v4(first: u32, last: u32) -> Ipv4Range {
    Ipv4Range { first: Ipv4Addr { bits: first }, last: Ipv4Addr { bits: last } }
}

/// The IPv6 range from `first` to `last`.
pub open spec fn block_v6(first: u128, last: u128) -> Ipv6Range {
    Ipv6Range { first: Ipv6Addr { bits: first }, last: Ipv6Addr { bits: last } }
}

/// The IPv4 blocks outside the public internet.
pub open spec fn restricted_blocks_v4() -> Seq<Ipv4Range> {
    seq![
        block_v4(0x7f00_0000, 0x7fff_ffff),
        block_v4(0x0a00_0000, 0x0aff_ffff),
        block_v4(0xac10_0000, 0xac1f_ffff),
        block_v4(0xc0a8_0000, 0xc0a8_ffff),
        block_v4(0xa9fe_0000, 0xa9fe_ffff),
        block_v4(0xe000_0000, 0xefff_ffff),
    ]
}

/// The IPv6 blocks outside the public internet.
pub open spec fn restricted_blocks_v6() -> Seq<Ipv6Range> {
    seq![
        block_v6(1, 1),
        block_v6(
            0xfc00_0000_0000_0000_0000_0000_0000_0000,
            0xfdff_ffff_ffff_ffff_ffff_ffff_ffff_ffff,
        ),
        block_v6(
            0xfe80_0000_0000_0000_0000_0000_0000_0000,
            0xfebf_ffff_ffff_ffff_ffff_ffff_ffff_ffff,
        ),
        block_v6(
            0xff00_0000_0000_0000_0000_0000_0000_0000,
            0xffff_ffff_ffff_ffff_ffff_ffff_ffff_ffff,
        ),
    ]
}

/// The powers of two that the block sizes need.
proof fn lemma_block_sizes()
    ensures
        pow2(16) == 0x1_0000,
        pow2(20) == 0x10_0000,
        pow2(24) == 0x100_0000,
        pow2(28) == 0x1000_0000,
        pow2(118) == 0x0040_0000_0000_0000_0000_0000_0000_0000,
        pow2(120) == 0x0100_0000_0000_0000_0000_0000_0000_0000,
        pow2(121) == 0x0200_0000_0000_0000_0000_0000_0000_0000,
{
    lemma2_to64();
    lemma2_to64_rest();
    lemma_pow2_adds(64, 54);
    lemma_pow2_adds(64, 56);
    lemma_pow2_adds(64, 57);
}

/// Adds the loopback blocks.
pub(crate) fn push_loopback(v4: &mut Vec<Ipv4Range>, v6: &mut Vec<Ipv6Range>)
    ensures
        final(v4)@ == old(v4)@.push(block_v4(0x7f00_0000, 0x7fff_ffff)),
        final(v6)@ == old(v6)@.push(block_v6(1, 1)),
        forall|a: Ipv4Addr| #[trigger]
            covers_v4(final(v4)@, a) <==> covers_v4(old(v4)@, a) || loopback_v4(a),
        forall|a: Ipv6Addr| #[trigger]
            covers_v6(final(v6)@, a) <==> covers_v6(old(v6)@, a) || loopback_v6(a),
{
    let net: Ipv4Range = subnet_v4([127, 0, 0, 0], 8);
    let host: Ipv6Range = single_v6(Ipv6Addr::localhost());
    proof {
        lemma_block_sizes();
        reveal_with_fuel(big_endian, 5);
        lemma_covers_push_v4(v4@, net);
        lemma_covers_push_v6(v6@, host);
    }
    v4.push(net);
    v6.push(host);
}

/// Adds the private blocks.
pub(crate) fn push_private(v4: &mut Vec<Ipv4Range>, v6: &mut Vec<Ipv6Range>)
    ensures
        final(v4)@ == old(v4)@
            .push(block_v4(0x0a00_0000, 0x0aff_ffff))
            .push(block_v4(0xac10_0000, 0xac1f_ffff))
            .push(block_v4(0xc0a8_0000, 0xc0a8_ffff)),
        final(v6)@ == old(v6)@.push(
            block_v6(
                0xfc00_0000_0000_0000_0000_0000_0000_0000,
                0xfdff_ffff_ffff_ffff_ffff_ffff_ffff_ffff,
            ),
        ),
        forall|a: Ipv4Addr| #[trigger]
            covers_v4(final(v4)@, a) <==> covers_v4(old(v4)@, a) || private_v4(a),
        forall|a: Ipv6Addr| #[trigger]
            covers_v6(final(v6)@, a) <==> covers_v6(old(v6)@, a) || private_v6(a),
{
    let large: Ipv4Range = subnet_v4([10, 0, 0, 0], 8);
    let middle: Ipv4Range = subnet_v4([172, 16, 0, 0], 12);
    let small: Ipv4Range = subnet_v4([192, 168, 0, 0], 16);
    let wide: Ipv6Range = subnet_v6(
        [0xfc, 0, 0, 0, 0, 0, 0, 0, 0, 0, 0, 0, 0, 0, 0, 0],
        7,
    );
    proof {
        lemma_block_sizes();
        reveal_with_fuel(big_endian, 17);
        lemma_covers_push_v4(v4@, large);
        lemma_covers_push_v4(v4@.push(large), middle);
        lemma_covers_push_v4(v4@.push(large).push(middle), small);
        lemma_covers_push_v6(v6@, wide);
    }
    v4.push(large);
    v4.push(middle);
    v4.push(small);
    v6.push(wide);
}

/// Adds the link-local blocks.
pub(crate) fn push_link_local(v4: &mut Vec<Ipv4Range>, v6: &mut Vec<Ipv6Range>)
    ensures
        final(v4)@ == old(v4)@.push(block_v4(0xa9fe_0000, 0xa9fe_ffff)),
        final(v6)@ == old(v6)@.push(
            block_v6(
                0xfe80_0000_0000_0000_0000_0000_0000_0000,
                0xfebf_ffff_ffff_ffff_ffff_ffff_ffff_ffff,
            ),
        ),
        forall|a: Ipv4Addr| #[trigger]
            covers_v4(final(v4)@, a) <==> covers_v4(old(v4)@, a) || link_local_v4(a),
        forall|a: Ipv6Addr| #[trigger]
            covers_v6(final(v6)@, a) <==> covers_v6(old(v6)@, a) || link_local_v6(a),
{
    let net: Ipv4Range = subnet_v4([169, 254, 0, 0], 16);
    let wide: Ipv6Range = subnet_v6(
        [0xfe, 0x80, 0, 0, 0, 0, 0, 0, 0, 0, 0, 0, 0, 0, 0, 0],
        10,
    );
    proof {
        lemma_block_sizes();
        reveal_with_fuel(big_endian, 17);
        lemma_covers_push_v4(v4@, net);
        lemma_covers_push_v6(v6@, wide);
    }
    v4.push(net);
    v6.push(wide);
}

/// Adds the multicast blocks.
pub(crate) fn push_multicast(v4: &mut Vec<Ipv4Range>, v6: &mut Vec<Ipv6Range>)
    ensures
        final(v4)@ == old(v4)@.push(block_v4(0xe000_0000, 0xefff_ffff)),
        final(v6)@ == old(v6)@.push(
            block_v6(
                0xff00_0000_0000_0000_0000_0000_0000_0000,
                0xffff_ffff_ffff_ffff_ffff_ffff_ffff_ffff,
            ),
        ),
        forall|a: Ipv4Addr| #[trigger]
            covers_v4(final(v4)@, a) <==> covers_v4(old(v4)@, a) || multicast_v4(a),
        forall|a: Ipv6Addr| #[trigger]
            covers_v6(final(v6)@, a) <==> covers_v6(old(v6)@, a) || multicast_v6(a),
{
    let net: Ipv4Range = subnet_v4([224, 0, 0, 0], 4);
    let wide: Ipv6Range = subnet_v6(
        [0xff, 0, 0, 0, 0, 0, 0, 0, 0, 0, 0, 0, 0, 0, 0, 0],
        8,
    );
    proof {
        lemma_block_sizes();
        reveal_with_fuel(big_endian, 17);
        lemma_covers_push_v4(v4@, net);
        lemma_covers_push_v6(v6@, wide);
    }
    v4.push(net);
    v6.push(wide);
}

/// Every block outside the public internet: loopback, private, link-local and multicast.
pub fn restricted_subnets() -> (subnets: (Vec<Ipv4Range>, Vec<Ipv6Range>))
    ensures
        subnets.0@ == restricted_blocks_v4(),
        subnets.1@ == restricted_blocks_v6(),
        forall|a: Ipv4Addr| #[trigger]
            covers_v4(subnets.0@, a) <==> is_restricted(IpAddr::V4(a)),
        forall|a: Ipv6Addr| #[trigger]
            covers_v6(subnets.1@, a) <==> is_restricted(IpAddr::V6(a)),
{
    let mut v4: Vec<Ipv4Range> = Vec::new();
    let mut v6: Vec<Ipv6Range> = Vec::new();
    push_loopback(&mut v4, &mut v6);
    push_private(&mut v4, &mut v6);
    push_link_local(&mut v4, &mut v6);
    push_multicast(&mut v4, &mut v6);
    (v4, v6)
}

/// No restricted block is empty, and no address lies in two of them.
pub proof fn law_restricted_blocks_are_disjoint()
    ensures
        forall|i: int|
            0 <= i < restricted_blocks_v4().len() ==> (#[trigger] restricted_blocks_v4()[i]).holds(
                restricted_blocks_v4()[i].first,
            ),
        forall|i: int|
            0 <= i < restricted_blocks_v6().len() ==> (#[trigger] restricted_blocks_v6()[i]).holds(
                restricted_blocks_v6()[i].first,
            ),
        forall|i: int, j: int, a: Ipv4Addr|
            0 <= i < j < restricted_blocks_v4().len() ==> !(#[trigger] restricted_blocks_v4()[i].holds(
                a,
            ) && #[trigger] restricted_blocks_v4()[j].holds(a)),
        forall|i: int, j: int, a: Ipv6Addr|
            0 <= i < j < restricted_blocks_v6().len() ==> !(#[trigger] restricted_blocks_v6()[i].holds(
                a,
            ) && #[trigger] restricted_blocks_v6()[j].holds(a)),
{
}

/// What kind of address `a.b.c.d` is can be told from its first two octets.
pub proof fn law_kinds_of_ipv4_addresses(a: u8, b: u8, c: u8, d: u8, addr: Ipv4Addr)
    requires
        addr.bits == a * 0x100_0000 + b * 0x1_0000 + c * 0x100 + d,
    ensures
        is_loopback(IpAddr::V4(addr)) <==> a == 127,
        is_private(IpAddr::V4(addr)) <==> a == 10 || (a == 172 && 16 <= b < 32) || (a == 192 && b
            == 168),
        is_link_local(IpAddr::V4(addr)) <==> a == 169 && b == 254,
        is_multicast(IpAddr::V4(addr)) <==> 224 <= a < 240,
        is_restricted(IpAddr::V4(addr)) <==> a == 127 || a == 10 || (a == 172 && 16 <= b < 32) || (a
            == 192 && b == 168) || (a == 169 && b == 254) || 224 <= a < 240,
{
}

/// What kind an IPv6 address is can be told from its leading bits: seven for the unique local
/// addresses, ten for link-local and eight for multicast ones. Only `::1` is a loopback address.
pub proof fn law_kinds_of_ipv6_addresses(addr: Ipv6Addr)
    ensures
        is_loopback(IpAddr::V6(addr)) <==> addr.bits == 1,
        is_private(IpAddr::V6(addr)) <==> addr.bits as nat / pow2(121) == 0b1111_110,
        is_link_local(IpAddr::V6(addr)) <==> addr.bits as nat / pow2(118) == 0b1111_1110_10,
        is_multicast(IpAddr::V6(addr)) <==> addr.bits as nat / pow2(120) == 0xff,
        is_restricted(IpAddr::V6(addr)) <==> addr.bits == 1 || addr.bits as nat / pow2(121)
            == 0b1111_110 || addr.bits as nat / pow2(118) == 0b1111_1110_10 || addr.bits as nat
            / pow2(120) == 0xff,
{
    lemma_block_sizes();
}

/// The restricted blocks hold exactly the restricted addresses.
pub proof fn law_restricted_blocks_hold_the_restricted_addresses(narrow: Ipv4Addr, wide: Ipv6Addr)
    ensures
        is_restricted(IpAddr::V4(narrow)) <==> exists|i: int|
            #![trigger restricted_blocks_v4()[i]]
            0 <= i < restricted_blocks_v4().len() && restricted_blocks_v4()[i].first.bits
                <= narrow.bits && narrow.bits <= restricted_blocks_v4()[i].last.bits,
        is_restricted(IpAddr::V6(wide)) <==> exists|i: int|
            #![trigger restricted_blocks_v6()[i]]
            0 <= i < restricted_blocks_v6().len() && restricted_blocks_v6()[i].first.bits
                <= wide.bits && wide.bits <= restricted_blocks_v6()[i].last.bits,
{
    let narrow_blocks = restricted_blocks_v4();
    let wide_blocks = restricted_blocks_v6();
    assert(narrow_blocks[0] == block_v4(0x7f00_0000, 0x7fff_ffff));
    assert(narrow_blocks[1] == block_v4(0x0a00_0000, 0x0aff_ffff));
    assert(narrow_blocks[2] == block_v4(0xac10_0000, 0xac1f_ffff));
    assert(narrow_blocks[3] == block_v4(0xc0a8_0000, 0xc0a8_ffff));
    assert(narrow_blocks[4] == block_v4(0xa9fe_0000, 0xa9fe_ffff));
    assert(narrow_blocks[5] == block_v4(0xe000_0000, 0xefff_ffff));
    assert(wide_blocks[0].first.bits == 1);
    assert(private_v6(wide_blocks[1].first));
    assert(link_local_v6(wide_blocks[2].first));
    assert(multicast_v6(wide_blocks[3].first));
}

} // verus!
