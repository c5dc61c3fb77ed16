//! Sets of addresses, given by ranges.

use vstd::prelude::*;

use crate::net::{IpAddr, Ipv4Addr, Ipv6Addr};
use crate::subnet::{Ipv4Range, Ipv6Range};

verus! {

/// A set of addresses of both families: the union of its ranges.
#[derive(Debug)]
pub struct IpRanges {
    v4: Vec<Ipv4Range>,
    v6: Vec<Ipv6Range>,
}

/// Whether one of the ranges holds `addr`.
pub open spec fn covers_v4(ranges: Seq<Ipv4Range>, addr: Ipv4Addr) -> bool {
    exists|i: int| 0 <= i < ranges.len() && (#[trigger] ranges[i]).holds(addr)
}

/// Whether one of the ranges holds `addr`.
pub open spec fn covers_v6(ranges: Seq<Ipv6Range>, addr: Ipv6Addr) -> bool {
    exists|i: int| 0 <= i < ranges.len() && (#[trigger] ranges[i]).holds(addr)
}

/// One more range covers what it holds besides what was covered before.
pub(crate) proof fn lemma_covers_push_v4(ranges: Seq<Ipv4Range>, range: Ipv4Range)
    ensures
        forall|addr: Ipv4Addr| #[trigger]
            covers_v4(ranges.push(range), addr) <==> covers_v4(ranges, addr) || range.holds(addr),
{
    let more = ranges.push(range);
    assert forall|addr: Ipv4Addr| #[trigger] covers_v4(more, addr) <==> covers_v4(ranges, addr)
        || range.holds(addr) by {
        if covers_v4(ranges, addr) {
            let i = choose|i: int| 0 <= i < ranges.len() && (#[trigger] ranges[i]).holds(addr);
            assert(more[i].holds(addr));
        }
        if range.holds(addr) {
            assert(more[ranges.len() as int].holds(addr));
        }
        if covers_v4(more, addr) {
            let i = choose|i: int| 0 <= i < more.len() && (#[trigger] more[i]).holds(addr);
            if i < ranges.len() {
                assert(ranges[i].holds(addr));
            }
        }
    }
}

/// One more range covers what it holds besides what was covered before.
pub(crate) proof fn lemma_covers_push_v6(ranges: Seq<Ipv6Range>, range: Ipv6Range)
    ensures
        forall|addr: Ipv6Addr| #[trigger]
            covers_v6(ranges.push(range), addr) <==> covers_v6(ranges, addr) || range.holds(addr),
{
    let more = ranges.push(range);
    assert forall|addr: Ipv6Addr| #[trigger] covers_v6(more, addr) <==> covers_v6(ranges, addr)
        || range.holds(addr) by {
        if covers_v6(ranges, addr) {
            let i = choose|i: int| 0 <= i < ranges.len() && (#[trigger] ranges[i]).holds(addr);
            assert(more[i].holds(addr));
        }
        if range.holds(addr) {
            assert(more[ranges.len() as int].holds(addr));
        }
        if covers_v6(more, addr) {
            let i = choose|i: int| 0 <= i < more.len() && (#[trigger] more[i]).holds(addr);
            if i < ranges.len() {
                assert(ranges[i].holds(addr));
            }
        }
    }
}

impl IpRanges {
    /// The IPv4 ranges.
    pub closed spec fn v4_ranges(self) -> Seq<Ipv4Range> {
        self.v4@
    }

    /// The IPv6 ranges.
    pub closed spec fn v6_ranges(self) -> Seq<Ipv6Range> {
        self.v6@
    }

    /// Whether `addr` belongs to the set.
    pub open spec fn holds(self, addr: IpAddr) -> bool {
        match addr {
            IpAddr::V4(a) => covers_v4(self.v4_ranges(), a),
            IpAddr::V6(a) => covers_v6(self.v6_ranges(), a),
        }
    }

    /// The union of the given ranges.
    pub fn new(v4: Vec<Ipv4Range>, v6: Vec<Ipv6Range>) -> (ranges: Self)
        ensures
            ranges.v4_ranges() == v4@,
            ranges.v6_ranges() == v6@,
    {
        IpRanges { v4, v6 }
    }

    /// Whether `addr` belongs to the set.
    pub fn has(&self, addr: IpAddr) -> (found: bool)
        ensures
            found == self.holds(addr),
    {
        match addr {
            IpAddr::V4(a) => {
                let mut i: usize = 0;
                while i < self.v4.len()
                    invariant
                        addr == IpAddr::V4(a),
                        i <= self.v4.len(),
                        forall|j: int| 0 <= j < i ==> !(#[trigger] self.v4@[j]).holds(a),
                    decreases self.v4.len() - i,
                {
                    if self.v4[i].contains(a) {
                        return true;
                    }
                    i = i + 1;
                }
                false
            },
            IpAddr::V6(a) => {
                let mut i: usize = 0;
                while i < self.v6.len()
                    invariant
                        addr == IpAddr::V6(a),
                        i <= self.v6.len(),
                        forall|j: int| 0 <= j < i ==> !(#[trigger] self.v6@[j]).holds(a),
                    decreases self.v6.len() - i,
                {
                    if self.v6[i].contains(a) {
                        return true;
                    }
                    i = i + 1;
                }
                false
            },
        }
    }
}

impl Clone for IpRanges {
    fn clone(&self) -> (copy: Self)
        ensures
            copy.v4_ranges() == self.v4_ranges(),
            copy.v6_ranges() == self.v6_ranges(),
    {
        IpRanges { v4: self.v4.clone(), v6: self.v6.clone() }
    }
}

impl Default for IpRanges {
    /// The empty set.
    fn default() -> (ranges: Self)
        ensures
            ranges.v4_ranges().len() == 0,
            ranges.v6_ranges().len() == 0,
            forall|addr: IpAddr| !ranges.holds(addr),
    {
        IpRanges { v4: Vec::new(), v6: Vec::new() }
    }
}

/// No ranges cover no address, and one more range adds exactly the addresses from its first to its
/// last.
pub proof fn law_ranges_cover_their_union_v4(ranges: Seq<Ipv4Range>, more: Ipv4Range, addr: Ipv4Addr)
    ensures
        !covers_v4(Seq::empty(), addr),
        covers_v4(ranges.push(more), addr) <==> covers_v4(ranges, addr) || (more.first.bits
            <= addr.bits && addr.bits <= more.last.bits),
{
    lemma_covers_push_v4(ranges, more);
}

/// No ranges cover no address, and one more range adds exactly the addresses from its first to its
/// last.
pub proof fn law_ranges_cover_their_union_v6(ranges: Seq<Ipv6Range>, more: Ipv6Range, addr: Ipv6Addr)
    ensures
        !covers_v6(Seq::empty(), addr),
        covers_v6(ranges.push(more), addr) <==> covers_v6(ranges, addr) || (more.first.bits
            <= addr.bits && addr.bits <= more.last.bits),
{
    lemma_covers_push_v6(ranges, more);
}

/// A set holds an address exactly if one of its ranges of that family reaches from below to above
/// it.
pub proof fn law_set_holds_what_its_ranges_reach(ranges: IpRanges, narrow: Ipv4Addr, wide: Ipv6Addr)
    ensures
        ranges.holds(IpAddr::V4(narrow)) <==> exists|i: int|
            #![trigger ranges.v4_ranges()[i]]
            0 <= i < ranges.v4_ranges().len() && ranges.v4_ranges()[i].first.bits <= narrow.bits
                && narrow.bits <= ranges.v4_ranges()[i].last.bits,
        ranges.holds(IpAddr::V6(wide)) <==> exists|i: int|
            #![trigger ranges.v6_ranges()[i]]
            0 <= i < ranges.v6_ranges().len() && ranges.v6_ranges()[i].first.bits <= wide.bits
                && wide.bits <= ranges.v6_ranges()[i].last.bits,
{
}

} // verus!
