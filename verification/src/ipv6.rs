//! Choosing which local IPv6 addresses to announce.
//!
//! The receiver tells its user which addresses a peer may send to.
//! Link-local, multicast and unique-local addresses are of no use for
//! that, and neither are interfaces that are down or loopback; the
//! enumeration itself comes from the operating system, and this module
//! holds the selection rule applied to it.

use vstd::prelude::*;

verus! {

/// An address is special — link-local (`fe80::/10`), multicast
/// (`ff00::/8`) or unique-local (`fc00::/7`) — by its first 16-bit
/// segment alone.
pub open spec fn spec_special(seg0: u16) -> bool {
    (seg0 & 0xffc0) == 0xfe80 || (seg0 & 0xff00) == 0xff00 || (seg0 & 0xfe00) == 0xfc00
}

/// Whether an address is link-local, multicast or unique-local, judged
/// by its first 16-bit segment.
pub fn is_special_ipv6_address(seg0: u16) -> (r: bool)
    ensures
        r == spec_special(seg0),
{
    (seg0 & 0xffc0) == 0xfe80 || (seg0 & 0xff00) == 0xff00 || (seg0 & 0xfe00) == 0xfc00
}

/// One address as the interface enumeration reports it: the interface's
/// flags and the address's eight 16-bit segments.
#[derive(Debug, Clone)]
pub struct CandidateAddr {
    /// Whether the owning interface is up.
    pub up: bool,
    /// Whether the owning interface is the loopback.
    pub loopback: bool,
    /// The address's segments, most significant first.
    pub segments: Vec<u16>,
}

/// The selection rule: announce an address only when its interface is
/// up and not loopback, it has the eight segments of an IPv6 address,
/// and it is not special.
pub open spec fn spec_keep(c: CandidateAddr) -> bool {
    c.up && !c.loopback && c.segments@.len() == 8 && !spec_special(c.segments@[0])
}

/// The addresses to announce, in enumeration order.
pub open spec fn spec_announce(cands: Seq<CandidateAddr>) -> Seq<Seq<u16>>
    decreases cands.len(),
{
    if cands.len() == 0 {
        Seq::empty()
    } else {
        let rest = spec_announce(cands.drop_last());
        if spec_keep(cands.last()) {
            rest.push(cands.last().segments@)
        } else {
            rest
        }
    }
}

/// Select, from the interface enumeration, the addresses worth telling
/// a user to share.
pub fn select_announce_addrs(cands: &Vec<CandidateAddr>) -> (r: Vec<Vec<u16>>)
    ensures
        r@.map_values(|v: Vec<u16>| v@) == spec_announce(cands@),
{
    let mut r: Vec<Vec<u16>> = Vec::new();
    let n = cands.len();
    for i in 0..n
        invariant
            n == cands@.len(),
            r@.map_values(|v: Vec<u16>| v@) =~= spec_announce(cands@.take(i as int)),
    {
        let c = &cands[i];
        let keep = c.up && !c.loopback && c.segments.len() == 8 && !is_special_ipv6_address(
            c.segments[0],
        );
        proof {
            assert(cands@.take(i + 1).drop_last() =~= cands@.take(i as int));
            assert(cands@.take(i + 1).last() == cands@[i as int]);
        }
        if keep {
            r.push(c.segments.clone());
        }
        proof {
            assert(r@.map_values(|v: Vec<u16>| v@) =~= spec_announce(cands@.take(i + 1)));
        }
    }
    proof {
        assert(cands@.take(n as int) =~= cands@);
    }
    r
}

} // verus!
