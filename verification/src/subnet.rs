//! Subnets as address ranges.

use vstd::arithmetic::div_mod::*;
use vstd::arithmetic::power2::*;
use vstd::bits::*;
use vstd::prelude::*;

use crate::net::{big_endian, Ipv4Addr, Ipv6Addr};

verus! {

/// The IPv4 addresses from `first` to `last`. Both ends belong to the range, so that a range can
/// reach the very last address.
#[derive(Clone, Copy, Debug, PartialEq, Eq, Structural)]
pub struct Ipv4Range {
    pub first: Ipv4Addr,
    pub last: Ipv4Addr,
}

/// The IPv6 addresses from `first` to `last`, both included.
#[derive(Clone, Copy, Debug, PartialEq, Eq, Structural)]
pub struct Ipv6Range {
    pub first: Ipv6Addr,
    pub last: Ipv6Addr,
}

impl Ipv4Range {
    /// Whether `addr` lies in the range.
    pub open spec fn holds(self, addr: Ipv4Addr) -> bool {
        self.first.bits <= addr.bits <= self.last.bits
    }

    /// Whether `addr` lies in the range.
    pub fn contains(&self, addr: Ipv4Addr) -> (found: bool)
        ensures
            found == self.holds(addr),
    {
        self.first.bits <= addr.bits && addr.bits <= self.last.bits
    }
}

impl Ipv6Range {
    /// Whether `addr` lies in the range.
    pub open spec fn holds(self, addr: Ipv6Addr) -> bool {
        self.first.bits <= addr.bits <= self.last.bits
    }

    /// Whether `addr` lies in the range.
    pub fn contains(&self, addr: Ipv6Addr) -> (found: bool)
        ensures
            found == self.holds(addr),
    {
        self.first.bits <= addr.bits && addr.bits <= self.last.bits
    }
}

/// Whether two addresses of `width` bits agree in their first `prefix` bits.
pub open spec fn same_network(a: nat, b: nat, prefix: nat, width: nat) -> bool
    recommends
        prefix <= width,
{
    a / pow2((width - prefix) as nat) == b / pow2((width - prefix) as nat)
}

/// The lowest address that agrees with `base` in all but its last `host_bits` bits.
pub open spec fn network_start(base: nat, host_bits: nat) -> int {
    base - base % pow2(host_bits)
}

/// The highest address that agrees with `base` in all but its last `host_bits` bits.
pub open spec fn network_end(base: nat, host_bits: nat) -> int {
    network_start(base, host_bits) + pow2(host_bits) - 1
}

/// A block of `2^host_bits` addresses that starts on a multiple of its size is told by its two
/// ends having the same leading bits as `base`.
proof fn lemma_network_block(base: nat, start: nat, host_bits: nat)
    requires
        start / pow2(host_bits) == base / pow2(host_bits),
        ((start + pow2(host_bits) - 1) as nat) / pow2(host_bits) == base / pow2(host_bits),
    ensures
        start == network_start(base, host_bits),
{
    let block = pow2(host_bits) as int;
    lemma_pow2_pos(host_bits);
    lemma_fundamental_div_mod(base as int, block);
    lemma_fundamental_div_mod(start as int, block);
    lemma_fundamental_div_mod(start + block - 1, block);
    lemma_mod_bound(start as int, block);
    lemma_mod_bound(start + block - 1, block);
}

/// The mask of the low `shift` bits of a 32-bit word, as a number.
proof fn lemma_low_mask_u32(shift: u32)
    requires
        shift < 32,
    ensures
        !(u32::MAX << shift) == pow2(shift as nat) - 1,
    decreases shift,
{
    lemma2_to64();
    if shift == 0 {
        assert(!(u32::MAX << 0u32) == 0) by (bit_vector);
    } else {
        let less = (shift - 1) as u32;
        lemma_low_mask_u32(less);
        lemma_pow2_unfold(shift as nat);
        assert(!(u32::MAX << shift) == 2 * !(u32::MAX << less) + 1) by (bit_vector)
            requires
                0 < shift < 32,
                less == shift - 1,
        ;
    }
}

/// The mask of the low `shift` bits of a 128-bit word, as a number.
proof fn lemma_low_mask_u128(shift: u128)
    requires
        shift < 128,
    ensures
        !(u128::MAX << shift) == pow2(shift as nat) - 1,
    decreases shift,
{
    lemma2_to64();
    if shift == 0 {
        assert(!(u128::MAX << 0u128) == 0) by (bit_vector);
    } else {
        let less = (shift - 1) as u128;
        lemma_low_mask_u128(less);
        lemma_pow2_unfold(shift as nat);
        assert(!(u128::MAX << shift) == 2 * !(u128::MAX << less) + 1) by (bit_vector)
            requires
                0 < shift < 128,
                less == shift - 1,
        ;
    }
}

/// The IPv4 subnet that holds the address with the given octets and has a prefix of `prefix` bits.
///
/// A prefix as long as the address, or longer, selects that address alone.
pub fn subnet_v4(octets: [u8; 4], prefix: u8) -> (range: Ipv4Range)
    requires
        1 <= prefix,
    ensures
        prefix <= 32 ==> {
            &&& range.first.bits == network_start(big_endian(octets@, 4), (32 - prefix) as nat)
            &&& range.last.bits == network_end(big_endian(octets@, 4), (32 - prefix) as nat)
        },
        prefix > 32 ==> {
            &&& range.first.bits == big_endian(octets@, 4)
            &&& range.last.bits == big_endian(octets@, 4)
        },
{
    let base: u32 = Ipv4Addr::from_octets(octets).bits;
    let shift: u32 = 32u32.saturating_sub(prefix as u32);
    let mask: u32 = u32::MAX << shift;
    let start: u32 = base & mask;
    let end: u32 = start | !mask;
    proof {
        assert(start >> shift == base >> shift && end >> shift == base >> shift && end == start
            + !mask) by (bit_vector)
            requires
                shift < 32,
                mask == u32::MAX << shift,
                start == base & mask,
                end == start | !mask,
        ;
        lemma_low_mask_u32(shift);
        lemma_u32_shr_is_div(start, shift);
        lemma_u32_shr_is_div(end, shift);
        lemma_u32_shr_is_div(base, shift);
        lemma_network_block(base as nat, start as nat, shift as nat);
        lemma2_to64();
    }
    Ipv4Range { first: Ipv4Addr { bits: start }, last: Ipv4Addr { bits: end } }
}

/// The IPv6 subnet that holds the address with the given octets and has a prefix of `prefix` bits.
///
/// A prefix as long as the address, or longer, selects that address alone.
pub fn subnet_v6(octets: [u8; 16], prefix: u8) -> (range: Ipv6Range)
    requires
        1 <= prefix,
    ensures
        prefix <= 128 ==> {
            &&& range.first.bits == network_start(big_endian(octets@, 16), (128 - prefix) as nat)
            &&& range.last.bits == network_end(big_endian(octets@, 16), (128 - prefix) as nat)
        },
        prefix > 128 ==> {
            &&& range.first.bits == big_endian(octets@, 16)
            &&& range.last.bits == big_endian(octets@, 16)
        },
{
    let base: u128 = Ipv6Addr::from_octets(octets).bits;
    let shift: u32 = 128u32.saturating_sub(prefix as u32);
    let mask: u128 = u128::MAX << shift;
    let start: u128 = base & mask;
    let end: u128 = start | !mask;
    proof {
        let wide = shift as u128;
        assert(mask == u128::MAX << wide) by (bit_vector)
            requires
                shift < 128,
                wide == shift,
                mask == u128::MAX << shift,
        ;
        assert(start >> wide == base >> wide) by (bit_vector)
            requires
                wide < 128,
                mask == u128::MAX << wide,
                start == base & mask,
        ;
        assert(end >> wide == start >> wide) by (bit_vector)
            requires
                wide < 128,
                mask == u128::MAX << wide,
                end == start | !mask,
        ;
        assert(end == start + !mask) by (bit_vector)
            requires
                start == base & mask,
                end == start | !mask,
        ;
        lemma_low_mask_u128(wide);
        lemma_u128_shr_is_div(start, wide);
        lemma_u128_shr_is_div(end, wide);
        lemma_u128_shr_is_div(base, wide);
        lemma_network_block(base as nat, start as nat, shift as nat);
        lemma2_to64();
    }
    Ipv6Range { first: Ipv6Addr { bits: start }, last: Ipv6Addr { bits: end } }
}

/// The range that holds `addr` alone.
pub fn single_v6(addr: Ipv6Addr) -> (range: Ipv6Range)
    ensures
        range.first == addr,
        range.last == addr,
{
    Ipv6Range { first: addr, last: addr }
}

/// A subnet holds exactly the addresses that agree with its base address in the bits of the
/// prefix.
pub proof fn law_subnet_holds_its_prefix(base: nat, addr: nat, prefix: nat, width: nat)
    requires
        prefix <= width,
    ensures
        network_start(base, (width - prefix) as nat) <= addr <= network_end(
            base,
            (width - prefix) as nat,
        ) <==> same_network(addr, base, prefix, width),
{
    let host_bits = (width - prefix) as nat;
    let block = pow2(host_bits) as int;
    lemma_pow2_pos(host_bits);
    lemma_fundamental_div_mod(base as int, block);
    lemma_fundamental_div_mod(addr as int, block);
    lemma_mod_bound(base as int, block);
    lemma_mod_bound(addr as int, block);
    let q = base as int / block;
    let p = addr as int / block;
    if p < q {
        assert(block * (p + 1) <= block * q) by (nonlinear_arith)
            requires
                p + 1 <= q,
                block > 0,
        ;
        assert(block * (p + 1) == block * p + block) by (nonlinear_arith);
    }
    if p > q {
        assert(block * (q + 1) <= block * p) by (nonlinear_arith)
            requires
                q + 1 <= p,
                block > 0,
        ;
        assert(block * (q + 1) == block * q + block) by (nonlinear_arith);
    }
}

/// A range holds an address exactly if the address is neither below its first nor above its last
/// one.
pub proof fn law_range_holds_what_lies_between(
    range: Ipv4Range,
    addr: Ipv4Addr,
    wide_range: Ipv6Range,
    wide_addr: Ipv6Addr,
)
    ensures
        range.holds(addr) <==> !(addr.bits < range.first.bits || range.last.bits < addr.bits),
        wide_range.holds(wide_addr) <==> !(wide_addr.bits < wide_range.first.bits
            || wide_range.last.bits < wide_addr.bits),
{
}

/// Between the two ends of a network lie exactly the addresses that differ from its base address
/// in the last `host_bits` bits only, and there are `2^host_bits` of them.
pub proof fn law_network_is_a_block(base: nat, addr: nat, host_bits: nat)
    ensures
        network_start(base, host_bits) <= addr <= network_end(base, host_bits) <==> addr / pow2(
            host_bits,
        ) == base / pow2(host_bits),
        network_end(base, host_bits) - network_start(base, host_bits) + 1 == pow2(host_bits),
        0 <= network_start(base, host_bits),
{
    law_subnet_holds_its_prefix(base, addr, 0, host_bits);
    lemma_pow2_pos(host_bits);
    lemma_mod_bound(base as int, pow2(host_bits) as int);
    lemma_fundamental_div_mod(base as int, pow2(host_bits) as int);
    assert(base as int % pow2(host_bits) as int <= base) by {
        lemma_mod_decreases(base, pow2(host_bits));
    }
}

/// Two addresses are in one network exactly if each lies in the block of the other.
pub proof fn law_same_network_is_sharing_a_block(a: nat, b: nat, prefix: nat, width: nat)
    requires
        prefix <= width,
    ensures
        same_network(a, b, prefix, width) <==> a / pow2((width - prefix) as nat) == b / pow2(
            (width - prefix) as nat,
        ),
        same_network(a, b, prefix, width) <==> same_network(b, a, prefix, width),
{
}

} // verus!
