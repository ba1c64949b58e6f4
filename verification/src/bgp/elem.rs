//! The per-prefix element: a denormalized, flattened projection of one
//! update's attributes against a single announced or withdrawn prefix,
//! with its stable pipe-delimited line rendering.

use vstd::prelude::*;
use vstd::string::StringExecFns;
use crate::bgp::attributes::{AsPath, AtomicAggregate, Origin};
use crate::bgp::community::Community;
use crate::bgp::display::{
    append_dec_pad, append_u32_dec, lemma_join_push, spec_dec_str, spec_ip_str, spec_join,
    spec_pad_dec, spec_prefix_str, spec_render_path,
};
use crate::network::{Asn, IpAddress, IpNet, Ipv4Address, Ipv4Net, NetworkPrefix};

verus! {

/// Element type: an announced/reachable prefix or a withdrawn/unreachable
/// prefix.
#[allow(non_camel_case_types)]
#[derive(Debug, Clone, Copy, PartialEq, Eq, Structural)]
pub enum ElemType {
    ANNOUNCE,
    WITHDRAW,
}

impl ElemType {
    /// The single-character tag of the element line.
    pub open spec fn spec_tag(self) -> Seq<char> {
        match self {
            ElemType::ANNOUNCE => "A"@,
            ElemType::WITHDRAW => "W"@,
        }
    }
}

/// A record timestamp in seconds, with an optional sub-second part kept in
/// microseconds; a whole-second timestamp has a zero microsecond part.
#[derive(Debug, Clone, Copy, PartialEq, Eq, Structural)]
pub struct Timestamp {
    pub seconds: u32,
    pub microseconds: u32,
}

impl Timestamp {
    /// The microsecond part never reaches one second.
    pub open spec fn well_formed(self) -> bool {
        self.microseconds < 1000000
    }
}

/// The fractional digits of a microsecond value: six digits, zero-padded
/// on the left, with the trailing zeros dropped (so the last digit kept is
/// the last nonzero one).
pub open spec fn spec_frac_str(micro: u32) -> Seq<char> {
    if micro as int % 100000 == 0 {
        spec_pad_dec((micro as int / 100000) as nat, 1)
    } else if micro as int % 10000 == 0 {
        spec_pad_dec((micro as int / 10000) as nat, 2)
    } else if micro as int % 1000 == 0 {
        spec_pad_dec((micro as int / 1000) as nat, 3)
    } else if micro as int % 100 == 0 {
        spec_pad_dec((micro as int / 100) as nat, 4)
    } else if micro as int % 10 == 0 {
        spec_pad_dec((micro as int / 10) as nat, 5)
    } else {
        spec_pad_dec(micro as nat, 6)
    }
}

/// The text form of a timestamp: the seconds in decimal, and for a
/// sub-second timestamp a dot and the fractional digits.
pub open spec fn spec_timestamp_str(t: Timestamp) -> Seq<char> {
    if t.microseconds == 0 {
        spec_dec_str(t.seconds as nat)
    } else {
        spec_dec_str(t.seconds as nat) + "."@ + spec_frac_str(t.microseconds)
    }
}

fn append_timestamp(out: &mut String, t: &Timestamp)
    ensures
        final(out)@ == old(out)@ + spec_timestamp_str(*t),
{
    append_u32_dec(out, t.seconds);
    if t.microseconds > 0 {
        out.append(".");
        let micro = t.microseconds;
        if micro % 100000 == 0 {
            append_dec_pad(out, micro / 100000, 1);
        } else if micro % 10000 == 0 {
            append_dec_pad(out, micro / 10000, 2);
        } else if micro % 1000 == 0 {
            append_dec_pad(out, micro / 1000, 3);
        } else if micro % 100 == 0 {
            append_dec_pad(out, micro / 100, 4);
        } else if micro % 10 == 0 {
            append_dec_pad(out, micro / 10, 5);
        } else {
            append_dec_pad(out, micro, 6);
        }
        proof {
            assert(final(out)@ =~= old(out)@ + spec_timestamp_str(*t));
        }
    }
}

/// BgpElem represents a per-prefix BGP element.
///
/// The information is for one announced or withdrawn prefix: a derived,
/// throwaway view constructed fresh per (update, prefix) pair, never the
/// system of record.
#[derive(Debug, Clone)]
pub struct BgpElem {
    pub timestamp: Timestamp,
    pub elem_type: ElemType,
    pub peer_ip: IpAddress,
    pub peer_asn: Asn,
    pub prefix: NetworkPrefix,
    pub next_hop: Option<IpAddress>,
    pub as_path: Option<AsPath>,
    pub origin_asns: Option<Vec<Asn>>,
    pub origin: Option<Origin>,
    pub local_pref: Option<u32>,
    pub med: Option<u32>,
    pub communities: Option<Vec<Community>>,
    pub atomic: Option<AtomicAggregate>,
    pub aggr_asn: Option<Asn>,
    pub aggr_ip: Option<IpAddress>,
}

/// The default element: an announcement of 0.0.0.0/0 at time zero from
/// peer 0.0.0.0, AS 0, with every optional field absent.
pub open spec fn spec_default_elem() -> BgpElem {
    BgpElem {
        timestamp: Timestamp { seconds: 0, microseconds: 0 },
        elem_type: ElemType::ANNOUNCE,
        peer_ip: IpAddress::V4(Ipv4Address(0)),
        peer_asn: 0,
        prefix: NetworkPrefix {
            prefix: IpNet::V4(Ipv4Net { address: Ipv4Address(0), length: 0 }),
            path_id: 0,
        },
        next_hop: None,
        as_path: None,
        origin_asns: None,
        origin: None,
        local_pref: None,
        med: None,
        communities: None,
        atomic: None,
        aggr_asn: None,
        aggr_ip: None,
    }
}

impl Default for BgpElem {
    fn default() -> (r: Self)
        ensures
            r == spec_default_elem(),
    {
        BgpElem {
            timestamp: Timestamp { seconds: 0, microseconds: 0 },
            elem_type: ElemType::ANNOUNCE,
            peer_ip: IpAddress::V4(Ipv4Address(0)),
            peer_asn: 0,
            prefix: NetworkPrefix {
                prefix: IpNet::V4(Ipv4Net { address: Ipv4Address(0), length: 0 }),
                path_id: 0,
            },
            next_hop: None,
            as_path: None,
            origin_asns: None,
            origin: None,
            local_pref: None,
            med: None,
            communities: None,
            atomic: None,
            aggr_asn: None,
            aggr_ip: None,
        }
    }
}

/// The renderings of a community list.
pub open spec fn spec_communities_strs(v: Seq<Community>) -> Seq<Seq<char>> {
    v.map_values(|c: Community| c.spec_str())
}

/// The text of an optional community list: the communities joined with
/// single spaces, or the empty string when absent.
pub open spec fn spec_opt_communities_str(o: Option<Vec<Community>>) -> Seq<char> {
    match o {
        Some(v) => spec_join(spec_communities_strs(v@), " "@),
        None => Seq::empty(),
    }
}

/// Render an optional community list: space-joined, empty when absent.
pub fn option_to_string_communities(o: &Option<Vec<Community>>) -> (r: String)
    ensures
        r@ == spec_opt_communities_str(*o),
{
    let mut out = String::new();
    match o {
        Some(v) => {
            proof {
                assert(spec_communities_strs(v@).take(0) =~= Seq::<Seq<char>>::empty());
            }
            let mut i: usize = 0;
            while i < v.len()
                invariant
                    i <= v@.len(),
                    out@ == spec_join(spec_communities_strs(v@).take(i as int), " "@),
                decreases v@.len() - i,
            {
                if i > 0 {
                    out.append(" ");
                }
                let s = v[i].to_str();
                out.append(s.as_str());
                i += 1;
                proof {
                    assert(spec_communities_strs(v@).take(i as int)
                        =~= spec_communities_strs(v@).take(i - 1).push(v@[i - 1].spec_str()));
                    lemma_join_push(
                        spec_communities_strs(v@).take(i - 1),
                        v@[i - 1].spec_str(),
                        " "@,
                    );
                    assert(out@
                        =~= spec_join(spec_communities_strs(v@).take(i as int), " "@));
                }
            }
            proof {
                assert(spec_communities_strs(v@).take(v@.len() as int)
                    =~= spec_communities_strs(v@));
            }
        },
        None => {},
    }
    out
}

/// The text of an optional field rendered by `f`, empty when absent.
pub open spec fn spec_opt_ip_str(o: Option<IpAddress>) -> Seq<char> {
    match o {
        Some(a) => spec_ip_str(a),
        None => Seq::empty(),
    }
}

pub open spec fn spec_opt_path_str(o: Option<AsPath>) -> Seq<char> {
    match o {
        Some(p) => spec_render_path(p@),
        None => Seq::empty(),
    }
}

pub open spec fn spec_opt_origin_str(o: Option<Origin>) -> Seq<char> {
    match o {
        Some(v) => v.spec_str(),
        None => Seq::empty(),
    }
}

pub open spec fn spec_opt_u32_str(o: Option<u32>) -> Seq<char> {
    match o {
        Some(v) => spec_dec_str(v as nat),
        None => Seq::empty(),
    }
}

pub open spec fn spec_opt_atomic_str(o: Option<AtomicAggregate>) -> Seq<char> {
    match o {
        Some(v) => v.spec_str(),
        None => Seq::empty(),
    }
}

/// The element's pipe-delimited line: the stable textual interface of the
/// projection. The field order is the tag, timestamp, peer address, peer
/// ASN, prefix, AS path, origin, next hop, local preference, MED,
/// communities, atomic aggregate, aggregator ASN and aggregator address;
/// an absent optional field renders as the empty string, so the pipe
/// count is constant.
pub open spec fn spec_elem_line(e: BgpElem) -> Seq<char> {
    e.elem_type.spec_tag() + "|"@
        + spec_timestamp_str(e.timestamp) + "|"@
        + spec_ip_str(e.peer_ip) + "|"@
        + spec_dec_str(e.peer_asn as nat) + "|"@
        + spec_prefix_str(e.prefix) + "|"@
        + spec_opt_path_str(e.as_path) + "|"@
        + spec_opt_origin_str(e.origin) + "|"@
        + spec_opt_ip_str(e.next_hop) + "|"@
        + spec_opt_u32_str(e.local_pref) + "|"@
        + spec_opt_u32_str(e.med) + "|"@
        + spec_opt_communities_str(e.communities) + "|"@
        + spec_opt_atomic_str(e.atomic) + "|"@
        + spec_opt_u32_str(e.aggr_asn) + "|"@
        + spec_opt_ip_str(e.aggr_ip)
}

impl BgpElem {
    /// Render the element line.
    pub fn to_str(&self) -> (r: String)
        ensures
            r@ == spec_elem_line(*self),
    {
        let mut out = String::new();
        match self.elem_type {
            ElemType::ANNOUNCE => out.append("A"),
            ElemType::WITHDRAW => out.append("W"),
        }
        out.append("|");
        append_timestamp(&mut out, &self.timestamp);
        out.append("|");
        let s = self.peer_ip.to_str();
        out.append(s.as_str());
        out.append("|");
        append_u32_dec(&mut out, self.peer_asn);
        out.append("|");
        let s = self.prefix.to_str();
        out.append(s.as_str());
        out.append("|");
        if let Some(p) = &self.as_path {
            let s = p.to_str();
            out.append(s.as_str());
        }
        out.append("|");
        if let Some(o) = &self.origin {
            let s = o.to_str();
            out.append(s.as_str());
        }
        out.append("|");
        if let Some(a) = &self.next_hop {
            let s = a.to_str();
            out.append(s.as_str());
        }
        out.append("|");
        if let Some(v) = self.local_pref {
            append_u32_dec(&mut out, v);
        }
        out.append("|");
        if let Some(v) = self.med {
            append_u32_dec(&mut out, v);
        }
        out.append("|");
        let s = option_to_string_communities(&self.communities);
        out.append(s.as_str());
        out.append("|");
        if let Some(a) = &self.atomic {
            let s = a.to_str();
            out.append(s.as_str());
        }
        out.append("|");
        if let Some(v) = self.aggr_asn {
            append_u32_dec(&mut out, v);
        }
        out.append("|");
        if let Some(a) = &self.aggr_ip {
            let s = a.to_str();
            out.append(s.as_str());
        }
        proof {
            assert(out@ =~= spec_elem_line(*self));
        }
        out
    }
}

/// Law: a withdrawal with no optional fields present renders as the tag,
/// timestamp, peer address, peer ASN and prefix, followed by nine empty
/// fields; every absent optional renders as an empty string between the
/// constant pipes.
pub proof fn lemma_withdrawal_line(e: BgpElem)
    requires
        e.elem_type is WITHDRAW,
        e.as_path is None,
        e.origin is None,
        e.next_hop is None,
        e.local_pref is None,
        e.med is None,
        e.communities is None,
        e.atomic is None,
        e.aggr_asn is None,
        e.aggr_ip is None,
    ensures
        spec_elem_line(e) == "W|"@
            + spec_timestamp_str(e.timestamp) + "|"@
            + spec_ip_str(e.peer_ip) + "|"@
            + spec_dec_str(e.peer_asn as nat) + "|"@
            + spec_prefix_str(e.prefix) + "|||||||||"@,
{
    reveal_strlit("W");
    reveal_strlit("W|");
    reveal_strlit("|");
    reveal_strlit("|||||||||");
    assert(spec_elem_line(e) =~= "W|"@
        + spec_timestamp_str(e.timestamp) + "|"@
        + spec_ip_str(e.peer_ip) + "|"@
        + spec_dec_str(e.peer_asn as nat) + "|"@
        + spec_prefix_str(e.prefix) + "|||||||||"@);
}

} // verus!
