//! BGP attribute structs: the AS-path model with the two-octet/four-octet
//! reconciliation of RFC 6793, and the type-keyed per-update attribute
//! collection.

use vstd::prelude::*;
use std::collections::HashMap;
use crate::bgp::community::{Community, LargeCommunity};
use crate::network::{Afi, Asn, Ipv4Address, NetworkPrefix, NextHopAddress, Safi};

verus! {

broadcast use vstd::std_specs::hash::group_hash_axioms;

/// The four flag bits of the Attribute Flags octet.
///
/// The high-order bit is the Optional bit, the second the Transitive bit,
/// the third the Partial bit and the fourth the Extended Length bit.
#[derive(Debug, Clone, Copy, PartialEq, Eq, Structural)]
pub enum AttributeFlagsBit {
    OptionalBit,
    TransitiveBit,
    PartialBit,
    ExtendedLengthBit,
}

impl AttributeFlagsBit {
    /// The bit value of the flag within the Attribute Flags octet.
    pub open spec fn spec_value(self) -> u8 {
        match self {
            AttributeFlagsBit::OptionalBit => 0x80,
            AttributeFlagsBit::TransitiveBit => 0x40,
            AttributeFlagsBit::PartialBit => 0x20,
            AttributeFlagsBit::ExtendedLengthBit => 0x10,
        }
    }

    pub fn value(&self) -> (r: u8)
        ensures
            r == self.spec_value(),
    {
        match self {
            AttributeFlagsBit::OptionalBit => 0x80,
            AttributeFlagsBit::TransitiveBit => 0x40,
            AttributeFlagsBit::PartialBit => 0x20,
            AttributeFlagsBit::ExtendedLengthBit => 0x10,
        }
    }
}

/// Attribute types, keyed by the IANA-assigned BGP path-attribute-type codes.
#[allow(non_camel_case_types)]
#[derive(Debug, Clone, Copy, PartialEq, Eq, Structural, Hash)]
pub enum AttrType {
    ORIGIN,
    AS_PATH,
    NEXT_HOP,
    MULTI_EXIT_DISCRIMINATOR,
    LOCAL_PREFERENCE,
    ATOMIC_AGGREGATE,
    AGGREGATOR,
    COMMUNITIES,
    ORIGINATOR_ID,
    CLUSTER_LIST,
    CLUSTER_ID,
    MP_REACHABLE_NLRI,
    MP_UNREACHABLE_NLRI,
    EXTENDED_COMMUNITIES,
    AS4_PATH,
    AS4_AGGREGATOR,
    LARGE_COMMUNITIES,
    ATTRIBUTES_END,
    UNASSINGED,
}

impl AttrType {
    /// The IANA-assigned attribute type code (ORIGIN=1 ... LARGE_COMMUNITIES=32).
    pub open spec fn spec_code(self) -> u8 {
        match self {
            AttrType::ORIGIN => 1,
            AttrType::AS_PATH => 2,
            AttrType::NEXT_HOP => 3,
            AttrType::MULTI_EXIT_DISCRIMINATOR => 4,
            AttrType::LOCAL_PREFERENCE => 5,
            AttrType::ATOMIC_AGGREGATE => 6,
            AttrType::AGGREGATOR => 7,
            AttrType::COMMUNITIES => 8,
            AttrType::ORIGINATOR_ID => 9,
            AttrType::CLUSTER_LIST => 10,
            AttrType::CLUSTER_ID => 13,
            AttrType::MP_REACHABLE_NLRI => 14,
            AttrType::MP_UNREACHABLE_NLRI => 15,
            AttrType::EXTENDED_COMMUNITIES => 16,
            AttrType::AS4_PATH => 17,
            AttrType::AS4_AGGREGATOR => 18,
            AttrType::LARGE_COMMUNITIES => 32,
            AttrType::ATTRIBUTES_END => 33,
            AttrType::UNASSINGED => 39,
        }
    }

    pub fn code(&self) -> (r: u8)
        ensures
            r == self.spec_code(),
    {
        match self {
            AttrType::ORIGIN => 1,
            AttrType::AS_PATH => 2,
            AttrType::NEXT_HOP => 3,
            AttrType::MULTI_EXIT_DISCRIMINATOR => 4,
            AttrType::LOCAL_PREFERENCE => 5,
            AttrType::ATOMIC_AGGREGATE => 6,
            AttrType::AGGREGATOR => 7,
            AttrType::COMMUNITIES => 8,
            AttrType::ORIGINATOR_ID => 9,
            AttrType::CLUSTER_LIST => 10,
            AttrType::CLUSTER_ID => 13,
            AttrType::MP_REACHABLE_NLRI => 14,
            AttrType::MP_UNREACHABLE_NLRI => 15,
            AttrType::EXTENDED_COMMUNITIES => 16,
            AttrType::AS4_PATH => 17,
            AttrType::AS4_AGGREGATOR => 18,
            AttrType::LARGE_COMMUNITIES => 32,
            AttrType::ATTRIBUTES_END => 33,
            AttrType::UNASSINGED => 39,
        }
    }

    pub open spec fn spec_from_code(code: u8) -> Option<AttrType> {
        match code {
            1u8 => Some(AttrType::ORIGIN),
            2u8 => Some(AttrType::AS_PATH),
            3u8 => Some(AttrType::NEXT_HOP),
            4u8 => Some(AttrType::MULTI_EXIT_DISCRIMINATOR),
            5u8 => Some(AttrType::LOCAL_PREFERENCE),
            6u8 => Some(AttrType::ATOMIC_AGGREGATE),
            7u8 => Some(AttrType::AGGREGATOR),
            8u8 => Some(AttrType::COMMUNITIES),
            9u8 => Some(AttrType::ORIGINATOR_ID),
            10u8 => Some(AttrType::CLUSTER_LIST),
            13u8 => Some(AttrType::CLUSTER_ID),
            14u8 => Some(AttrType::MP_REACHABLE_NLRI),
            15u8 => Some(AttrType::MP_UNREACHABLE_NLRI),
            16u8 => Some(AttrType::EXTENDED_COMMUNITIES),
            17u8 => Some(AttrType::AS4_PATH),
            18u8 => Some(AttrType::AS4_AGGREGATOR),
            32u8 => Some(AttrType::LARGE_COMMUNITIES),
            33u8 => Some(AttrType::ATTRIBUTES_END),
            39u8 => Some(AttrType::UNASSINGED),
            _ => None,
        }
    }

    pub fn from_code(code: u8) -> (r: Option<AttrType>)
        ensures
            r == AttrType::spec_from_code(code),
    {
        match code {
            1u8 => Some(AttrType::ORIGIN),
            2u8 => Some(AttrType::AS_PATH),
            3u8 => Some(AttrType::NEXT_HOP),
            4u8 => Some(AttrType::MULTI_EXIT_DISCRIMINATOR),
            5u8 => Some(AttrType::LOCAL_PREFERENCE),
            6u8 => Some(AttrType::ATOMIC_AGGREGATE),
            7u8 => Some(AttrType::AGGREGATOR),
            8u8 => Some(AttrType::COMMUNITIES),
            9u8 => Some(AttrType::ORIGINATOR_ID),
            10u8 => Some(AttrType::CLUSTER_LIST),
            13u8 => Some(AttrType::CLUSTER_ID),
            14u8 => Some(AttrType::MP_REACHABLE_NLRI),
            15u8 => Some(AttrType::MP_UNREACHABLE_NLRI),
            16u8 => Some(AttrType::EXTENDED_COMMUNITIES),
            17u8 => Some(AttrType::AS4_PATH),
            18u8 => Some(AttrType::AS4_AGGREGATOR),
            32u8 => Some(AttrType::LARGE_COMMUNITIES),
            33u8 => Some(AttrType::ATTRIBUTES_END),
            39u8 => Some(AttrType::UNASSINGED),
            _ => None,
        }
    }
}

/// The ORIGIN attribute values.
#[allow(non_camel_case_types)]
#[derive(Debug, Clone, Copy, PartialEq, Eq, Structural, Hash)]
pub enum Origin {
    IGP,
    EGP,
    INCOMPLETE,
}

impl Origin {
    pub open spec fn spec_code(self) -> u8 {
        match self {
            Origin::IGP => 0,
            Origin::EGP => 1,
            Origin::INCOMPLETE => 2,
        }
    }

    pub fn code(&self) -> (r: u8)
        ensures
            r == self.spec_code(),
    {
        match self {
            Origin::IGP => 0,
            Origin::EGP => 1,
            Origin::INCOMPLETE => 2,
        }
    }

    pub open spec fn spec_from_code(code: u8) -> Option<Origin> {
        match code {
            0u8 => Some(Origin::IGP),
            1u8 => Some(Origin::EGP),
            2u8 => Some(Origin::INCOMPLETE),
            _ => None,
        }
    }

    pub fn from_code(code: u8) -> (r: Option<Origin>)
        ensures
            r == Origin::spec_from_code(code),
    {
        match code {
            0u8 => Some(Origin::IGP),
            1u8 => Some(Origin::EGP),
            2u8 => Some(Origin::INCOMPLETE),
            _ => None,
        }
    }
}

/// The ATOMIC_AGGREGATE attribute values: not aggregated / aggregated.
#[allow(non_camel_case_types)]
#[derive(Debug, Clone, Copy, PartialEq, Eq, Structural, Hash)]
pub enum AtomicAggregate {
    NAG,
    AG,
}

impl AtomicAggregate {
    pub open spec fn spec_code(self) -> u8 {
        match self {
            AtomicAggregate::NAG => 0,
            AtomicAggregate::AG => 1,
        }
    }

    pub fn code(&self) -> (r: u8)
        ensures
            r == self.spec_code(),
    {
        match self {
            AtomicAggregate::NAG => 0,
            AtomicAggregate::AG => 1,
        }
    }

    pub open spec fn spec_from_code(code: u8) -> Option<AtomicAggregate> {
        match code {
            0u8 => Some(AtomicAggregate::NAG),
            1u8 => Some(AtomicAggregate::AG),
            _ => None,
        }
    }

    pub fn from_code(code: u8) -> (r: Option<AtomicAggregate>)
        ensures
            r == AtomicAggregate::spec_from_code(code),
    {
        match code {
            0u8 => Some(AtomicAggregate::NAG),
            1u8 => Some(AtomicAggregate::AG),
            _ => None,
        }
    }
}

/// One tagged variant per BGP path attribute kind.
#[derive(Debug, Clone, PartialEq)]
pub enum Attribute {
    Origin(Origin),
    AsPath(AsPath),
    NextHop(Ipv4Address),
    MultiExitDiscriminator(u32),
    LocalPreference(u32),
    AtomicAggregate(AtomicAggregate),
    Aggregator(Asn, Ipv4Address),
    Communities(Vec<Community>),
    LargeCommunities(Vec<LargeCommunity>),
    OriginatorId(Ipv4Address),
    Clusters(Vec<Ipv4Address>),
    MpReachableNlri(Nlri),
    MpUnreachableNlri(Nlri),
    As4Aggregator(Asn, Ipv4Address),
    As4Path(AsPath),
}

/// The per-update attribute collection: a mapping from the attribute type
/// code to exactly one attribute value. Key uniqueness enforces BGP's
/// "each attribute type appears at most once" rule at the model level;
/// `insert` overwrites, so the last write wins.
#[derive(Debug)]
pub struct Attributes {
    pub map: AttributeMap,
}

/// The map underlying [Attributes], keyed by the attribute type code.
pub type AttributeMap = HashMap<u8, Attribute>;

impl View for Attributes {
    type V = Map<u8, Attribute>;

    open spec fn view(&self) -> Map<u8, Attribute> {
        self.map@
    }
}

impl Attributes {
    pub fn new() -> (r: Attributes)
        ensures
            r@ == Map::<u8, Attribute>::empty(),
    {
        Attributes { map: HashMap::new() }
    }

    /// Insert an attribute under its type key, overwriting any prior value
    /// for that key; flagging duplicates is the decoder's policy, not ours.
    pub fn insert(&mut self, attr_type: AttrType, attr: Attribute)
        ensures
            final(self)@ == old(self)@.insert(attr_type.spec_code(), attr),
    {
        self.map.insert(attr_type.code(), attr);
    }

    /// Read access; absence means the attribute was not present in the update.
    pub fn get(&self, attr_type: AttrType) -> (r: Option<&Attribute>)
        ensures
            match r {
                Some(a) => self@.contains_key(attr_type.spec_code())
                    && *a == self@[attr_type.spec_code()],
                None => !self@.contains_key(attr_type.spec_code()),
            },
    {
        self.map.get(&attr_type.code())
    }
}

/// Law: distinct attribute types never share a key, so one entry of the
/// collection can stand for only one attribute type.
pub proof fn lemma_attr_type_code_injective(t1: AttrType, t2: AttrType)
    ensures
        t1.spec_code() == t2.spec_code() ==> t1 == t2,
{
}

/// Law: the collection never holds two values under one key; after any
/// sequence of inserts the last write under a type key is the value held.
pub proof fn lemma_attributes_last_write_wins(
    m: Map<u8, Attribute>,
    t: AttrType,
    first: Attribute,
    second: Attribute,
)
    ensures
        m.insert(t.spec_code(), first).insert(t.spec_code(), second)
            == m.insert(t.spec_code(), second),
        m.insert(t.spec_code(), second)[t.spec_code()] == second,
{
    assert(m.insert(t.spec_code(), first).insert(t.spec_code(), second)
        =~= m.insert(t.spec_code(), second));
}

/////////////
// AS PATH //
/////////////

/// Enum of AS path segments.
#[derive(Debug, Clone, PartialEq)]
pub enum AsPathSegment {
    AsSequence(Vec<Asn>),
    AsSet(Vec<Asn>),
    ConfedSequence(Vec<Asn>),
    ConfedSet(Vec<Asn>),
}

/// The mathematical model of an AS path segment: the same four kinds over
/// a sequence of ASNs.
pub enum AsPathSegmentView {
    AsSequence(Seq<Asn>),
    AsSet(Seq<Asn>),
    ConfedSequence(Seq<Asn>),
    ConfedSet(Seq<Asn>),
}

impl View for AsPathSegment {
    type V = AsPathSegmentView;

    open spec fn view(&self) -> AsPathSegmentView {
        match self {
            AsPathSegment::AsSequence(v) => AsPathSegmentView::AsSequence(v@),
            AsPathSegment::AsSet(v) => AsPathSegmentView::AsSet(v@),
            AsPathSegment::ConfedSequence(v) => AsPathSegmentView::ConfedSequence(v@),
            AsPathSegment::ConfedSet(v) => AsPathSegmentView::ConfedSet(v@),
        }
    }
}

/// The ASN-count contribution of one segment: a sequence contributes its
/// length, a set counts as one hop, confederation segments count as none.
pub open spec fn spec_segment_count_asns(s: AsPathSegmentView) -> nat {
    match s {
        AsPathSegmentView::AsSequence(v) => v.len(),
        AsPathSegmentView::AsSet(_) => 1,
        AsPathSegmentView::ConfedSequence(_) => 0,
        AsPathSegmentView::ConfedSet(_) => 0,
    }
}

/// The ASN count of a whole path: the sum of its segments' contributions.
pub open spec fn spec_path_count_asns(s: Seq<AsPathSegmentView>) -> nat
    decreases s.len(),
{
    if s.len() == 0 {
        0
    } else {
        spec_segment_count_asns(s[0]) + spec_path_count_asns(s.drop_first())
    }
}

pub proof fn lemma_path_count_asns_push(s: Seq<AsPathSegmentView>, x: AsPathSegmentView)
    ensures
        spec_path_count_asns(s.push(x)) == spec_path_count_asns(s) + spec_segment_count_asns(x),
    decreases s.len(),
{
    if s.len() == 0 {
        assert(s.push(x).drop_first() =~= Seq::<AsPathSegmentView>::empty());
        assert(s.push(x)[0] == x);
        assert(spec_path_count_asns(s.push(x))
            == spec_segment_count_asns(x) + spec_path_count_asns(s.push(x).drop_first()));
    } else {
        lemma_path_count_asns_push(s.drop_first(), x);
        assert(s.push(x).drop_first() =~= s.drop_first().push(x));
        assert(s.push(x)[0] == s[0]);
        assert(spec_path_count_asns(s.push(x))
            == spec_segment_count_asns(s[0]) + spec_path_count_asns(s.drop_first().push(x)));
        assert(spec_path_count_asns(s)
            == spec_segment_count_asns(s[0]) + spec_path_count_asns(s.drop_first()));
    }
}

pub proof fn lemma_path_count_asns_split(s: Seq<AsPathSegmentView>, i: int)
    requires
        0 <= i <= s.len(),
    ensures
        spec_path_count_asns(s)
            == spec_path_count_asns(s.take(i)) + spec_path_count_asns(s.skip(i)),
    decreases i,
{
    if i == 0 {
        assert(s.take(0) =~= Seq::<AsPathSegmentView>::empty());
        assert(s.skip(0) =~= s);
    } else {
        let t = s.drop_first();
        lemma_path_count_asns_split(t, i - 1);
        assert(s.take(i).drop_first() =~= t.take(i - 1));
        assert(s.skip(i) =~= t.skip(i - 1));
        assert(s.take(i)[0] == s[0]);
    }
}

impl AsPathSegment {
    pub fn count_asns(&self) -> (r: usize)
        ensures
            r == spec_segment_count_asns(self@),
    {
        match self {
            AsPathSegment::AsSequence(v) => v.len(),
            AsPathSegment::AsSet(_) => 1,
            AsPathSegment::ConfedSequence(_) | AsPathSegment::ConfedSet(_) => 0,
        }
    }
}

/// The model of a whole AS path: the sequence of its segments' models.
pub open spec fn spec_segments_view(segments: Seq<AsPathSegment>) -> Seq<AsPathSegmentView> {
    segments.map_values(|s: AsPathSegment| s@)
}

/// An ordered sequence of AS path segments.
#[derive(Debug, Clone, PartialEq)]
pub struct AsPath {
    pub segments: Vec<AsPathSegment>,
}

impl View for AsPath {
    type V = Seq<AsPathSegmentView>;

    open spec fn view(&self) -> Seq<AsPathSegmentView> {
        spec_segments_view(self.segments@)
    }
}

fn copy_asns(v: &Vec<Asn>) -> (r: Vec<Asn>)
    ensures
        r@ == v@,
{
    let mut out: Vec<Asn> = Vec::new();
    let mut i: usize = 0;
    while i < v.len()
        invariant
            i <= v.len(),
            out@ == v@.take(i as int),
        decreases v.len() - i,
    {
        out.push(v[i]);
        i += 1;
        proof {
            assert(v@.take(i as int) =~= v@.take(i - 1).push(v@[i - 1]));
        }
    }
    proof {
        assert(v@.take(v@.len() as int) =~= v@);
    }
    out
}

fn copy_segment(s: &AsPathSegment) -> (r: AsPathSegment)
    ensures
        r@ == s@,
{
    match s {
        AsPathSegment::AsSequence(v) => AsPathSegment::AsSequence(copy_asns(v)),
        AsPathSegment::AsSet(v) => AsPathSegment::AsSet(copy_asns(v)),
        AsPathSegment::ConfedSequence(v) => AsPathSegment::ConfedSequence(copy_asns(v)),
        AsPathSegment::ConfedSet(v) => AsPathSegment::ConfedSet(copy_asns(v)),
    }
}

fn copy_path(p: &AsPath) -> (r: AsPath)
    ensures
        r@ == p@,
{
    let mut segments: Vec<AsPathSegment> = Vec::new();
    let mut i: usize = 0;
    while i < p.segments.len()
        invariant
            i <= p.segments.len(),
            segments@.len() == i as int,
            forall|j: int| 0 <= j < i as int
                ==> (#[trigger] segments@[j])@ == p.segments@[j]@,
        decreases p.segments.len() - i,
    {
        let seg = copy_segment(&p.segments[i]);
        segments.push(seg);
        i += 1;
    }
    let r = AsPath { segments };
    proof {
        assert forall|j: int| 0 <= j < r.segments@.len()
            implies spec_segments_view(r.segments@)[j] == p@[j] by {
            assert(r.segments@[j]@ == p.segments@[j]@);
        }
        assert(r@ =~= p@);
    }
    r
}

/// The merge of one pair of corresponding segments, per RFC 6793: when both
/// are AS_SEQUENCE, the leading ASNs of the two-octet segment that have no
/// four-octet counterpart are prepended to the four-octet segment; in every
/// other pairing the four-octet segment is structurally authoritative.
pub open spec fn spec_merge_segment(
    a: AsPathSegmentView,
    b: AsPathSegmentView,
) -> AsPathSegmentView {
    match (a, b) {
        (AsPathSegmentView::AsSequence(s), AsPathSegmentView::AsSequence(s4)) =>
            AsPathSegmentView::AsSequence(s.take(s.len() - s4.len()) + s4),
        _ => b,
    }
}

/// The merged path: AS_PATH segments paired positionally with AS4_PATH
/// segments; where the AS4_PATH is exhausted the remaining AS_PATH segments
/// are kept verbatim.
pub open spec fn spec_merge_paths(
    a: Seq<AsPathSegmentView>,
    b: Seq<AsPathSegmentView>,
) -> Seq<AsPathSegmentView> {
    Seq::new(a.len(), |i: int| if i < b.len() {
        spec_merge_segment(a[i], b[i])
    } else {
        a[i]
    })
}

/// A pair of corresponding AS_SEQUENCE segments is mergeable only when the
/// four-octet segment is no longer than its two-octet counterpart; a longer
/// one is malformed input that a caller must reject.
pub open spec fn spec_segment_pair_ok(a: AsPathSegmentView, b: AsPathSegmentView) -> bool {
    match (a, b) {
        (AsPathSegmentView::AsSequence(s), AsPathSegmentView::AsSequence(s4)) =>
            s4.len() <= s.len(),
        _ => true,
    }
}

pub open spec fn spec_sequence_pairs_ok(
    a: Seq<AsPathSegmentView>,
    b: Seq<AsPathSegmentView>,
) -> bool {
    forall|i: int|
        0 <= i < a.len() && i < b.len() ==> spec_segment_pair_ok(#[trigger] a[i], #[trigger] b[i])
}

fn merge_segment(a: &AsPathSegment, b: &AsPathSegment) -> (r: AsPathSegment)
    requires
        spec_segment_pair_ok(a@, b@),
    ensures
        r@ == spec_merge_segment(a@, b@),
{
    match (a, b) {
        (AsPathSegment::AsSequence(s), AsPathSegment::AsSequence(s4)) => {
            let diff_len = s.len() - s4.len();
            let mut merged: Vec<Asn> = Vec::new();
            let mut i: usize = 0;
            while i < diff_len
                invariant
                    i <= diff_len,
                    diff_len <= s@.len(),
                    merged@ == s@.take(i as int),
                decreases diff_len - i,
            {
                merged.push(s[i]);
                i += 1;
                proof {
                    assert(s@.take(i as int) =~= s@.take(i - 1).push(s@[i - 1]));
                }
            }
            let mut j: usize = 0;
            while j < s4.len()
                invariant
                    j <= s4.len(),
                    diff_len <= s@.len(),
                    merged@ == s@.take(diff_len as int) + s4@.take(j as int),
                decreases s4.len() - j,
            {
                merged.push(s4[j]);
                j += 1;
                proof {
                    assert(s@.take(diff_len as int) + s4@.take(j as int)
                        =~= (s@.take(diff_len as int) + s4@.take(j - 1)).push(s4@[j - 1]));
                }
            }
            proof {
                assert(s4@.take(s4@.len() as int) =~= s4@);
            }
            AsPathSegment::AsSequence(merged)
        },
        _ => copy_segment(b),
    }
}

impl AsPath {
    pub fn new() -> (r: AsPath)
        ensures
            r@ == Seq::<AsPathSegmentView>::empty(),
    {
        let p = AsPath { segments: vec![] };
        proof {
            assert(p@ =~= Seq::<AsPathSegmentView>::empty());
        }
        p
    }

    pub fn from_segments(segments: Vec<AsPathSegment>) -> (r: AsPath)
        ensures
            r@ == spec_segments_view(segments@),
    {
        AsPath { segments }
    }

    pub fn add_segment(&mut self, segment: AsPathSegment)
        ensures
            final(self)@ == old(self)@.push(segment@),
    {
        let ghost seg_view = segment@;
        self.segments.push(segment);
        proof {
            assert(self@ =~= old(self)@.push(seg_view));
        }
    }

    pub fn segments(&self) -> (r: &Vec<AsPathSegment>)
        ensures
            spec_segments_view(r@) == self@,
    {
        &self.segments
    }

    pub fn count_asns(&self) -> (r: usize)
        requires
            spec_path_count_asns(self@) <= usize::MAX,
        ensures
            r == spec_path_count_asns(self@),
    {
        let mut total: usize = 0;
        let mut i: usize = 0;
        while i < self.segments.len()
            invariant
                i <= self.segments.len(),
                spec_path_count_asns(self@) <= usize::MAX,
                total == spec_path_count_asns(self@.take(i as int)),
            decreases self.segments.len() - i,
        {
            proof {
                lemma_path_count_asns_split(self@, i as int);
                lemma_path_count_asns_split(self@, i + 1);
                lemma_path_count_asns_push(self@.take(i as int), self@[i as int]);
                assert(self@.take(i + 1) =~= self@.take(i as int).push(self@[i as int]));
            }
            total = total + self.segments[i].count_asns();
            i += 1;
        }
        proof {
            assert(self@.take(self.segments@.len() as int) =~= self@);
        }
        total
    }

    /// Construct the authoritative AS path from the AS_PATH and AS4_PATH
    /// attributes, per RFC 6793 section 4.2.3.
    ///
    /// With both attributes present and the AS_PATH carrying at least as
    /// many AS numbers as the AS4_PATH, the result pairs the two segment
    /// lists positionally; a pair of AS_SEQUENCE segments is merged by
    /// prepending the AS_PATH segment's surplus leading ASNs to the
    /// AS4_PATH segment, any other pair is resolved in favour of the
    /// AS4_PATH segment, and AS_PATH segments without a counterpart are
    /// kept verbatim. An AS4_PATH carrying more AS numbers than the
    /// AS_PATH is ignored and the AS_PATH is authoritative. With a single
    /// attribute present that attribute's path is the result, and a slot
    /// holding an attribute of the wrong kind yields no usable path.
    pub fn merge_aspath_as4path(
        aspath: Option<&Attribute>,
        as4path: Option<&Attribute>,
    ) -> (r: Option<AsPath>)
        requires
            (match (aspath, as4path) {
                (Some(a), Some(b)) => match (a, b) {
                    (Attribute::AsPath(p), Attribute::As4Path(q)) => {
                        &&& spec_path_count_asns(p@) <= usize::MAX
                        &&& spec_path_count_asns(q@) <= usize::MAX
                        &&& (spec_path_count_asns(q@) <= spec_path_count_asns(p@)
                            ==> spec_sequence_pairs_ok(p@, q@))
                    },
                    _ => true,
                },
                _ => true,
            }),
        ensures
            (match (aspath, as4path) {
                (None, None) => r is None,
                (Some(a), None) => match a {
                    Attribute::AsPath(p) => r matches Some(m) && m@ == p@,
                    _ => r is None,
                },
                (None, Some(b)) => match b {
                    Attribute::As4Path(q) => r matches Some(m) && m@ == q@,
                    _ => r is None,
                },
                (Some(a), Some(b)) => match (a, b) {
                    (Attribute::AsPath(p), Attribute::As4Path(q)) => {
                        if spec_path_count_asns(p@) < spec_path_count_asns(q@) {
                            r matches Some(m) && m@ == p@
                        } else {
                            r matches Some(m) && m@ == spec_merge_paths(p@, q@)
                        }
                    },
                    _ => r is None,
                },
            }),
    {
        match (aspath, as4path) {
            (None, None) => None,
            (Some(Attribute::AsPath(p)), None) => Some(copy_path(p)),
            (None, Some(Attribute::As4Path(q))) => Some(copy_path(q)),
            (Some(Attribute::AsPath(p)), Some(Attribute::As4Path(q))) => {
                if p.count_asns() < q.count_asns() {
                    Some(copy_path(p))
                } else {
                    let mut new_segs: Vec<AsPathSegment> = Vec::new();
                    let mut i: usize = 0;
                    while i < p.segments.len()
                        invariant
                            i <= p.segments.len(),
                            new_segs@.len() == i as int,
                            spec_sequence_pairs_ok(p@, q@),
                            forall|j: int| 0 <= j < i as int
                                ==> (#[trigger] new_segs@[j])@
                                    == spec_merge_paths(p@, q@)[j],
                        decreases p.segments.len() - i,
                    {
                        proof {
                            assert(p@[i as int] == p.segments@[i as int]@);
                        }
                        if i < q.segments.len() {
                            proof {
                                assert(q@[i as int] == q.segments@[i as int]@);
                                assert(spec_segment_pair_ok(p@[i as int], q@[i as int]));
                            }
                            new_segs.push(merge_segment(&p.segments[i], &q.segments[i]));
                        } else {
                            new_segs.push(copy_segment(&p.segments[i]));
                        }
                        i += 1;
                    }
                    let r = AsPath { segments: new_segs };
                    proof {
                        assert forall|j: int| 0 <= j < r.segments@.len()
                            implies spec_segments_view(r.segments@)[j]
                                == spec_merge_paths(p@, q@)[j] by {
                            assert((r.segments@[j])@ == spec_merge_paths(p@, q@)[j]);
                        }
                        assert(r@ =~= spec_merge_paths(p@, q@));
                    }
                    Some(r)
                }
            },
            _ => None,
        }
    }
}

proof fn lemma_merge_count_inner(a: Seq<AsPathSegmentView>, b: Seq<AsPathSegmentView>)
    requires
        forall|i: int| 0 <= i < a.len() ==> #[trigger] a[i] is AsSequence,
        forall|i: int| 0 <= i < a.len() && i < b.len() ==> #[trigger] b[i] is AsSequence,
        spec_sequence_pairs_ok(a, b),
    ensures
        spec_path_count_asns(spec_merge_paths(a, b)) == spec_path_count_asns(a),
    decreases a.len(),
{
    if a.len() == 0 {
        assert(spec_merge_paths(a, b) =~= Seq::<AsPathSegmentView>::empty());
    } else {
        let a0 = a.drop_last();
        let n = a.len() - 1;
        lemma_merge_count_inner(a0, b);
        assert(spec_merge_paths(a0, b) =~= spec_merge_paths(a, b).drop_last());
        let last = spec_merge_paths(a, b)[n];
        assert(spec_merge_paths(a, b) =~= spec_merge_paths(a, b).drop_last().push(last));
        lemma_path_count_asns_push(spec_merge_paths(a, b).drop_last(), last);
        assert(spec_segment_count_asns(last) == spec_segment_count_asns(a[n]));
        assert(a =~= a0.push(a[n]));
        lemma_path_count_asns_push(a0, a[n]);
    }
}

/// Law: for well-formed AS_PATH/AS4_PATH pairs whose AS_PATH carries at
/// least as many AS numbers as the AS4_PATH and whose corresponding
/// segments are all AS_SEQUENCE, the merged path's total ASN count equals
/// that of the AS_PATH exactly.
pub proof fn lemma_merge_preserves_asn_count(
    a: Seq<AsPathSegmentView>,
    b: Seq<AsPathSegmentView>,
)
    requires
        spec_path_count_asns(b) <= spec_path_count_asns(a),
        forall|i: int| 0 <= i < a.len() ==> #[trigger] a[i] is AsSequence,
        forall|i: int| 0 <= i < a.len() && i < b.len() ==> #[trigger] b[i] is AsSequence,
        spec_sequence_pairs_ok(a, b),
    ensures
        spec_path_count_asns(spec_merge_paths(a, b)) == spec_path_count_asns(a),
{
    lemma_merge_count_inner(a, b);
}

//////////
// NLRI //
//////////

/// Network Layer Reachability Information, used by both the reachable and
/// the unreachable multiprotocol attributes; the next hop is absent for
/// unreachable NLRI.
#[derive(Debug, Clone, PartialEq)]
pub struct Nlri {
    pub afi: Afi,
    pub safi: Safi,
    pub next_hop: Option<NextHopAddress>,
    pub prefixes: Vec<NetworkPrefix>,
}

/// The reachable multiprotocol NLRI: address family, next hop and prefixes.
#[derive(Debug, Clone, PartialEq)]
pub struct MpReachableNlri {
    pub afi: Afi,
    pub safi: Safi,
    pub next_hop: NextHopAddress,
    pub prefixes: Vec<NetworkPrefix>,
}

impl MpReachableNlri {
    pub fn new(
        afi: Afi,
        safi: Safi,
        next_hop: NextHopAddress,
        prefixes: Vec<NetworkPrefix>,
    ) -> (r: MpReachableNlri)
        ensures
            r.afi == afi,
            r.safi == safi,
            r.next_hop == next_hop,
            r.prefixes@ == prefixes@,
    {
        MpReachableNlri { afi, safi, next_hop, prefixes }
    }
}

/// The reachable multiprotocol NLRI in its reduced form: only the next hop.
#[derive(Debug, Clone, PartialEq)]
pub struct MpReachableNlriV2 {
    pub next_hop: NextHopAddress,
}

/// The unreachable multiprotocol NLRI: address family and withdrawn prefixes.
#[derive(Debug, Clone, PartialEq)]
pub struct MpUnreachableNlri {
    pub afi: Afi,
    pub safi: Safi,
    pub prefixes: Vec<NetworkPrefix>,
}

impl MpUnreachableNlri {
    pub fn new(afi: Afi, safi: Safi, prefixes: Vec<NetworkPrefix>) -> (r: MpUnreachableNlri)
        ensures
            r.afi == afi,
            r.safi == safi,
            r.prefixes@ == prefixes@,
    {
        MpUnreachableNlri { afi, safi, prefixes }
    }
}

} // verus!
