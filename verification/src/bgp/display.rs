//! Human-readable rendering of the model types.
//!
//! Every rendering function returns a `String` whose character sequence is
//! pinned exactly by a spec function, so the textual interface (a
//! compatibility surface for downstream tooling) is part of the verified
//! contract. Sequence segments render as space-separated ASNs, set segments
//! as comma-separated ASNs wrapped in braces, and segments are joined with
//! single spaces.

use vstd::prelude::*;
use vstd::string::StringExecFns;
use crate::bgp::attributes::{AsPath, AsPathSegment, AsPathSegmentView, AtomicAggregate, Origin};
use crate::network::{Asn, IpAddress, Ipv4Address, Ipv6Address, NetworkPrefix, IpNet, NextHopAddress};

verus! {

//////////////////////////
// DECIMAL AND HEXADECIMAL
//////////////////////////

/// The character of one decimal digit.
pub open spec fn spec_dec_digit(d: nat) -> char {
    if d == 0 { '0' }
    else if d == 1 { '1' }
    else if d == 2 { '2' }
    else if d == 3 { '3' }
    else if d == 4 { '4' }
    else if d == 5 { '5' }
    else if d == 6 { '6' }
    else if d == 7 { '7' }
    else if d == 8 { '8' }
    else { '9' }
}

/// The decimal rendering of a number, most significant digit first, with
/// no leading zeros (zero itself renders as one digit).
pub open spec fn spec_dec_str(n: nat) -> Seq<char>
    decreases n,
{
    if n < 10 {
        seq![spec_dec_digit(n)]
    } else {
        spec_dec_str(n / 10).push(spec_dec_digit(n % 10))
    }
}

/// The character of one hexadecimal digit, in upper case.
pub open spec fn spec_hex_digit_upper(d: nat) -> char {
    if d < 10 { spec_dec_digit(d) }
    else if d == 10 { 'A' }
    else if d == 11 { 'B' }
    else if d == 12 { 'C' }
    else if d == 13 { 'D' }
    else if d == 14 { 'E' }
    else { 'F' }
}

/// The character of one hexadecimal digit, in lower case.
pub open spec fn spec_hex_digit_lower(d: nat) -> char {
    if d < 10 { spec_dec_digit(d) }
    else if d == 10 { 'a' }
    else if d == 11 { 'b' }
    else if d == 12 { 'c' }
    else if d == 13 { 'd' }
    else if d == 14 { 'e' }
    else { 'f' }
}

/// One byte as exactly two upper-case hexadecimal digits.
pub open spec fn spec_hex_byte(b: u8) -> Seq<char> {
    seq![spec_hex_digit_upper(b as nat / 16), spec_hex_digit_upper(b as nat % 16)]
}

/// A byte string as upper-case hexadecimal with no separator.
pub open spec fn spec_hex_str(bytes: Seq<u8>) -> Seq<char>
    decreases bytes.len(),
{
    if bytes.len() == 0 {
        Seq::empty()
    } else {
        spec_hex_byte(bytes[0]) + spec_hex_str(bytes.drop_first())
    }
}

pub proof fn lemma_hex_str_push(bytes: Seq<u8>, x: u8)
    ensures
        spec_hex_str(bytes.push(x)) == spec_hex_str(bytes) + spec_hex_byte(x),
    decreases bytes.len(),
{
    if bytes.len() == 0 {
        assert(bytes.push(x)[0] == x);
        assert(bytes.push(x).drop_first() =~= Seq::<u8>::empty());
        assert(spec_hex_str(bytes.push(x).drop_first()) =~= Seq::<char>::empty());
        assert(spec_hex_str(bytes.push(x)) =~= spec_hex_str(bytes) + spec_hex_byte(x));
    } else {
        lemma_hex_str_push(bytes.drop_first(), x);
        assert(bytes.push(x)[0] == bytes[0]);
        assert(bytes.push(x).drop_first() =~= bytes.drop_first().push(x));
        assert(spec_hex_str(bytes.push(x))
            =~= spec_hex_str(bytes) + spec_hex_byte(x));
    }
}

fn push_dec_digit(out: &mut String, d: u8)
    requires
        d < 10,
    ensures
        final(out)@ == old(out)@.push(spec_dec_digit(d as nat)),
{
    if d == 0 {
        out.append("0");
        proof { reveal_strlit("0"); assert(final(out)@ =~= old(out)@.push('0')); }
    } else if d == 1 {
        out.append("1");
        proof { reveal_strlit("1"); assert(final(out)@ =~= old(out)@.push('1')); }
    } else if d == 2 {
        out.append("2");
        proof { reveal_strlit("2"); assert(final(out)@ =~= old(out)@.push('2')); }
    } else if d == 3 {
        out.append("3");
        proof { reveal_strlit("3"); assert(final(out)@ =~= old(out)@.push('3')); }
    } else if d == 4 {
        out.append("4");
        proof { reveal_strlit("4"); assert(final(out)@ =~= old(out)@.push('4')); }
    } else if d == 5 {
        out.append("5");
        proof { reveal_strlit("5"); assert(final(out)@ =~= old(out)@.push('5')); }
    } else if d == 6 {
        out.append("6");
        proof { reveal_strlit("6"); assert(final(out)@ =~= old(out)@.push('6')); }
    } else if d == 7 {
        out.append("7");
        proof { reveal_strlit("7"); assert(final(out)@ =~= old(out)@.push('7')); }
    } else if d == 8 {
        out.append("8");
        proof { reveal_strlit("8"); assert(final(out)@ =~= old(out)@.push('8')); }
    } else {
        out.append("9");
        proof { reveal_strlit("9"); assert(final(out)@ =~= old(out)@.push('9')); }
    }
}

fn push_hex_digit_upper(out: &mut String, d: u8)
    requires
        d < 16,
    ensures
        final(out)@ == old(out)@.push(spec_hex_digit_upper(d as nat)),
{
    if d < 10 {
        push_dec_digit(out, d);
    } else if d == 10 {
        out.append("A");
        proof { reveal_strlit("A"); assert(final(out)@ =~= old(out)@.push('A')); }
    } else if d == 11 {
        out.append("B");
        proof { reveal_strlit("B"); assert(final(out)@ =~= old(out)@.push('B')); }
    } else if d == 12 {
        out.append("C");
        proof { reveal_strlit("C"); assert(final(out)@ =~= old(out)@.push('C')); }
    } else if d == 13 {
        out.append("D");
        proof { reveal_strlit("D"); assert(final(out)@ =~= old(out)@.push('D')); }
    } else if d == 14 {
        out.append("E");
        proof { reveal_strlit("E"); assert(final(out)@ =~= old(out)@.push('E')); }
    } else {
        out.append("F");
        proof { reveal_strlit("F"); assert(final(out)@ =~= old(out)@.push('F')); }
    }
}

fn push_hex_digit_lower(out: &mut String, d: u8)
    requires
        d < 16,
    ensures
        final(out)@ == old(out)@.push(spec_hex_digit_lower(d as nat)),
{
    if d < 10 {
        push_dec_digit(out, d);
    } else if d == 10 {
        out.append("a");
        proof { reveal_strlit("a"); assert(final(out)@ =~= old(out)@.push('a')); }
    } else if d == 11 {
        out.append("b");
        proof { reveal_strlit("b"); assert(final(out)@ =~= old(out)@.push('b')); }
    } else if d == 12 {
        out.append("c");
        proof { reveal_strlit("c"); assert(final(out)@ =~= old(out)@.push('c')); }
    } else if d == 13 {
        out.append("d");
        proof { reveal_strlit("d"); assert(final(out)@ =~= old(out)@.push('d')); }
    } else if d == 14 {
        out.append("e");
        proof { reveal_strlit("e"); assert(final(out)@ =~= old(out)@.push('e')); }
    } else {
        out.append("f");
        proof { reveal_strlit("f"); assert(final(out)@ =~= old(out)@.push('f')); }
    }
}

/// Append the decimal form of `n` to `out`.
pub fn append_u32_dec(out: &mut String, n: u32)
    ensures
        final(out)@ == old(out)@ + spec_dec_str(n as nat),
    decreases n,
{
    if n < 10 {
        push_dec_digit(out, n as u8);
        proof {
            assert(final(out)@ =~= old(out)@ + spec_dec_str(n as nat));
        }
    } else {
        append_u32_dec(out, n / 10);
        push_dec_digit(out, (n % 10) as u8);
        proof {
            assert(final(out)@ =~= old(out)@ + spec_dec_str(n as nat));
        }
    }
}

/// The decimal rendering of a 32-bit number.
pub fn u32_to_string(n: u32) -> (r: String)
    ensures
        r@ == spec_dec_str(n as nat),
{
    let mut out = String::new();
    append_u32_dec(&mut out, n);
    proof {
        assert(out@ =~= spec_dec_str(n as nat));
    }
    out
}

/// A byte string rendered as upper-case hexadecimal, two digits per byte,
/// with no separator.
pub fn bytes_to_string(bytes: &[u8]) -> (r: String)
    ensures
        r@ == spec_hex_str(bytes@),
{
    let mut out = String::new();
    let mut i: usize = 0;
    while i < bytes.len()
        invariant
            i <= bytes@.len(),
            out@ == spec_hex_str(bytes@.take(i as int)),
        decreases bytes@.len() - i,
    {
        let b = bytes[i];
        push_hex_digit_upper(&mut out, b / 16);
        push_hex_digit_upper(&mut out, b % 16);
        i += 1;
        proof {
            assert(bytes@.take(i as int)
                =~= bytes@.take(i - 1).push(bytes@[i - 1]));
            lemma_hex_str_push(bytes@.take(i - 1), bytes@[i - 1]);
            assert(out@ =~= spec_hex_str(bytes@.take(i as int)));
        }
    }
    proof {
        assert(bytes@.take(bytes@.len() as int) =~= bytes@);
    }
    out
}

//////////
// JOIN //
//////////

/// Items joined by a separator: the items in order, the separator between
/// each adjacent pair and nowhere else.
pub open spec fn spec_join(items: Seq<Seq<char>>, sep: Seq<char>) -> Seq<char>
    decreases items.len(),
{
    if items.len() == 0 {
        Seq::empty()
    } else if items.len() == 1 {
        items[0]
    } else {
        items[0] + sep + spec_join(items.drop_first(), sep)
    }
}

pub proof fn lemma_join_push(items: Seq<Seq<char>>, x: Seq<char>, sep: Seq<char>)
    ensures
        spec_join(items.push(x), sep) == if items.len() == 0 {
            x
        } else {
            spec_join(items, sep) + sep + x
        },
    decreases items.len(),
{
    if items.len() == 0 {
        assert(items.push(x).len() == 1);
        assert(items.push(x)[0] == x);
    } else if items.len() == 1 {
        assert(items.push(x)[0] == items[0]);
        assert(items.push(x).drop_first() =~= seq![x]);
        assert(spec_join(items.push(x).drop_first(), sep) == x);
        assert(spec_join(items.push(x), sep)
            =~= spec_join(items, sep) + sep + x);
    } else {
        lemma_join_push(items.drop_first(), x, sep);
        assert(items.push(x)[0] == items[0]);
        assert(items.push(x).drop_first() =~= items.drop_first().push(x));
        assert(spec_join(items.push(x), sep)
            =~= spec_join(items, sep) + sep + x);
    }
}

/// The decimal renderings of a list of ASNs.
pub open spec fn spec_asn_strs(v: Seq<Asn>) -> Seq<Seq<char>> {
    v.map_values(|a: Asn| spec_dec_str(a as nat))
}

/// Append the ASNs of `v` in decimal, separated by `sep`.
fn append_asn_list(out: &mut String, v: &Vec<Asn>, sep: &str)
    ensures
        final(out)@ == old(out)@ + spec_join(spec_asn_strs(v@), sep@),
{
    proof {
        assert(spec_asn_strs(v@).take(0) =~= Seq::<Seq<char>>::empty());
        assert(out@ + spec_join(spec_asn_strs(v@).take(0), sep@) =~= out@);
    }
    let mut i: usize = 0;
    while i < v.len()
        invariant
            i <= v@.len(),
            out@ == old(out)@ + spec_join(spec_asn_strs(v@).take(i as int), sep@),
        decreases v@.len() - i,
    {
        if i > 0 {
            out.append(sep);
        }
        append_u32_dec(out, v[i]);
        i += 1;
        proof {
            assert(spec_asn_strs(v@).take(i as int)
                =~= spec_asn_strs(v@).take(i - 1).push(spec_dec_str(v@[i - 1] as nat)));
            lemma_join_push(
                spec_asn_strs(v@).take(i - 1),
                spec_dec_str(v@[i - 1] as nat),
                sep@,
            );
            assert(out@
                =~= old(out)@ + spec_join(spec_asn_strs(v@).take(i as int), sep@));
        }
    }
    proof {
        assert(spec_asn_strs(v@).take(v@.len() as int) =~= spec_asn_strs(v@));
    }
}

/////////////
// AS PATH //
/////////////

/// The rendering of one AS path segment: sequences as space-separated
/// ASNs, sets as comma-separated ASNs wrapped in braces.
pub open spec fn spec_render_segment(s: AsPathSegmentView) -> Seq<char> {
    match s {
        AsPathSegmentView::AsSequence(v) => spec_join(spec_asn_strs(v), " "@),
        AsPathSegmentView::ConfedSequence(v) => spec_join(spec_asn_strs(v), " "@),
        AsPathSegmentView::AsSet(v) => "{ "@ + spec_join(spec_asn_strs(v), ", "@) + " }"@,
        AsPathSegmentView::ConfedSet(v) => "{ "@ + spec_join(spec_asn_strs(v), ", "@) + " }"@,
    }
}

/// The renderings of a path's segments.
pub open spec fn spec_segment_strs(s: Seq<AsPathSegmentView>) -> Seq<Seq<char>> {
    s.map_values(|x: AsPathSegmentView| spec_render_segment(x))
}

/// The rendering of a whole AS path: its segments' renderings joined with
/// single spaces.
pub open spec fn spec_render_path(s: Seq<AsPathSegmentView>) -> Seq<char> {
    spec_join(spec_segment_strs(s), " "@)
}

impl AsPathSegment {
    /// Render this segment in its conventional textual form.
    pub fn to_str(&self) -> (r: String)
        ensures
            r@ == spec_render_segment(self@),
    {
        let mut out = String::new();
        match self {
            AsPathSegment::AsSequence(v) | AsPathSegment::ConfedSequence(v) => {
                append_asn_list(&mut out, v, " ");
            },
            AsPathSegment::AsSet(v) | AsPathSegment::ConfedSet(v) => {
                out.append("{ ");
                append_asn_list(&mut out, v, ", ");
                out.append(" }");
            },
        }
        proof {
            assert(out@ =~= spec_render_segment(self@));
        }
        out
    }
}

impl AsPath {
    /// Render the whole path: segments joined with single spaces.
    pub fn to_str(&self) -> (r: String)
        ensures
            r@ == spec_render_path(self@),
    {
        let mut out = String::new();
        proof {
            assert(spec_segment_strs(self@).take(0) =~= Seq::<Seq<char>>::empty());
        }
        let mut i: usize = 0;
        while i < self.segments.len()
            invariant
                i <= self.segments@.len(),
                self@.len() == self.segments@.len(),
                out@ == spec_join(spec_segment_strs(self@).take(i as int), " "@),
            decreases self.segments@.len() - i,
        {
            if i > 0 {
                out.append(" ");
            }
            let s = self.segments[i].to_str();
            out.append(s.as_str());
            i += 1;
            proof {
                assert(self@[i - 1] == self.segments@[i - 1]@);
                assert(spec_segment_strs(self@).take(i as int)
                    =~= spec_segment_strs(self@).take(i - 1).push(
                        spec_render_segment(self@[i - 1])));
                lemma_join_push(
                    spec_segment_strs(self@).take(i - 1),
                    spec_render_segment(self@[i - 1]),
                    " "@,
                );
                assert(out@
                    =~= spec_join(spec_segment_strs(self@).take(i as int), " "@));
            }
        }
        proof {
            assert(spec_segment_strs(self@).take(self@.len() as int)
                =~= spec_segment_strs(self@));
        }
        out
    }
}

////////////////////////
// SIMPLE ENUMERATIONS //
////////////////////////

impl Origin {
    /// The conventional textual form of the origin value.
    pub open spec fn spec_str(self) -> Seq<char> {
        match self {
            Origin::IGP => "IGP"@,
            Origin::EGP => "EGP"@,
            Origin::INCOMPLETE => "INCOMPLETE"@,
        }
    }

    pub fn to_str(&self) -> (r: String)
        ensures
            r@ == self.spec_str(),
    {
        match self {
            Origin::IGP => String::from_str("IGP"),
            Origin::EGP => String::from_str("EGP"),
            Origin::INCOMPLETE => String::from_str("INCOMPLETE"),
        }
    }
}

impl AtomicAggregate {
    /// The conventional textual form: aggregated or not aggregated.
    pub open spec fn spec_str(self) -> Seq<char> {
        match self {
            AtomicAggregate::NAG => "NAG"@,
            AtomicAggregate::AG => "AG"@,
        }
    }

    pub fn to_str(&self) -> (r: String)
        ensures
            r@ == self.spec_str(),
    {
        match self {
            AtomicAggregate::NAG => String::from_str("NAG"),
            AtomicAggregate::AG => String::from_str("AG"),
        }
    }
}

///////////////
// ADDRESSES //
///////////////

/// The dotted-quad decimal rendering of an IPv4 address value.
pub open spec fn spec_ipv4_str(a: u32) -> Seq<char> {
    spec_dec_str((a as int / 0x1000000) as nat) + "."@
        + spec_dec_str((a as int / 0x10000 % 0x100) as nat) + "."@
        + spec_dec_str((a as int / 0x100 % 0x100) as nat) + "."@
        + spec_dec_str((a as int % 0x100) as nat)
}

impl Ipv4Address {
    pub fn to_str(&self) -> (r: String)
        ensures
            r@ == spec_ipv4_str(self.0),
    {
        let mut out = String::new();
        append_u32_dec(&mut out, self.0 / 0x1000000);
        out.append(".");
        append_u32_dec(&mut out, self.0 / 0x10000 % 0x100);
        out.append(".");
        append_u32_dec(&mut out, self.0 / 0x100 % 0x100);
        out.append(".");
        append_u32_dec(&mut out, self.0 % 0x100);
        proof {
            assert(out@ =~= spec_ipv4_str(self.0));
        }
        out
    }
}

/// Group `k` (counting from the most significant) of the eight 16-bit
/// groups of an IPv6 address value.
pub open spec fn spec_v6_group(x: u128, k: int) -> u16 {
    if k == 0 { (x as int / 0x1_0000_0000_0000_0000_0000_0000_0000 % 0x10000) as u16 }
    else if k == 1 { (x as int / 0x1_0000_0000_0000_0000_0000_0000 % 0x10000) as u16 }
    else if k == 2 { (x as int / 0x1_0000_0000_0000_0000_0000 % 0x10000) as u16 }
    else if k == 3 { (x as int / 0x1_0000_0000_0000_0000 % 0x10000) as u16 }
    else if k == 4 { (x as int / 0x1_0000_0000_0000 % 0x10000) as u16 }
    else if k == 5 { (x as int / 0x1_0000_0000 % 0x10000) as u16 }
    else if k == 6 { (x as int / 0x1_0000 % 0x10000) as u16 }
    else { (x as int % 0x10000) as u16 }
}

/// The eight 16-bit groups of an IPv6 address value.
pub open spec fn spec_v6_groups(x: u128) -> Seq<u16> {
    Seq::new(8, |k: int| spec_v6_group(x, k))
}

/// The length of the run of zero groups starting at position `k`.
pub open spec fn spec_zero_run_len(g: Seq<u16>, k: int) -> int
    decreases g.len() - k when k <= g.len()
{
    if !(0 <= k < g.len()) {
        0
    } else if g[k] != 0 {
        0
    } else {
        1 + spec_zero_run_len(g, k + 1)
    }
}

/// The best zero run at or after position `k` for the shortened IPv6 text
/// form: the longest run of at least two zero groups, the leftmost of equal
/// length; `(g.len(), 0)` when there is none.
pub open spec fn spec_best_zero_run(g: Seq<u16>, k: int) -> (int, int)
    decreases g.len() - k when 0 <= k <= g.len()
{
    if !(0 <= k < g.len()) {
        (g.len() as int, 0)
    } else {
        let l = spec_zero_run_len(g, k);
        let rest = spec_best_zero_run(g, k + 1);
        if l >= 2 && l >= rest.1 {
            (k, l)
        } else {
            rest
        }
    }
}

/// The shortest hexadecimal rendering of a group, in lower case.
pub open spec fn spec_hex_min_str(n: nat) -> Seq<char>
    decreases n,
{
    if n < 16 {
        seq![spec_hex_digit_lower(n)]
    } else {
        spec_hex_min_str(n / 16).push(spec_hex_digit_lower(n % 16))
    }
}

/// The renderings of a list of IPv6 groups.
pub open spec fn spec_v6_group_strs(g: Seq<u16>) -> Seq<Seq<char>> {
    g.map_values(|h: u16| spec_hex_min_str(h as nat))
}

/// The conventional text form of an IPv6 address value: an IPv4-mapped
/// address in its mixed form, otherwise the eight groups in lower-case
/// hexadecimal joined with colons, with the best zero run (the longest of
/// length at least two, leftmost on ties) shortened to a double colon.
pub open spec fn spec_ipv6_str(x: u128) -> Seq<char> {
    let g = spec_v6_groups(x);
    if g[0] == 0 && g[1] == 0 && g[2] == 0 && g[3] == 0 && g[4] == 0 && g[5] == 0xffff {
        "::ffff:"@ + spec_ipv4_str((x as int % 0x1_0000_0000) as u32)
    } else {
        let run = spec_best_zero_run(g, 0);
        if run.1 < 2 {
            spec_join(spec_v6_group_strs(g), ":"@)
        } else {
            spec_join(spec_v6_group_strs(g.take(run.0)), ":"@) + "::"@
                + spec_join(spec_v6_group_strs(g.skip(run.0 + run.1)), ":"@)
        }
    }
}

fn v6_zero_run_len(g: &Vec<u16>, k: usize) -> (r: usize)
    requires
        g@.len() == 8,
        k <= 8,
    ensures
        r as int == spec_zero_run_len(g@, k as int),
        k + r <= 8,
    decreases 8 - k,
{
    if k >= 8 {
        0
    } else if g[k] != 0 {
        0
    } else {
        1 + v6_zero_run_len(g, k + 1)
    }
}

fn v6_best_zero_run(g: &Vec<u16>, k: usize) -> (r: (usize, usize))
    requires
        g@.len() == 8,
        k <= 8,
    ensures
        ({
            let b = spec_best_zero_run(g@, k as int);
            &&& r.0 as int == b.0
            &&& r.1 as int == b.1
            &&& r.0 <= 8
            &&& r.0 + r.1 <= 8
        }),
    decreases 8 - k,
{
    if k >= 8 {
        (8, 0)
    } else {
        let l = v6_zero_run_len(g, k);
        let rest = v6_best_zero_run(g, k + 1);
        if l >= 2 && l >= rest.1 {
            (k, l)
        } else {
            rest
        }
    }
}

/// Append the shortest lower-case hexadecimal form of `n`.
fn append_u16_hex(out: &mut String, n: u16)
    ensures
        final(out)@ == old(out)@ + spec_hex_min_str(n as nat),
    decreases n,
{
    if n < 16 {
        push_hex_digit_lower(out, n as u8);
        proof {
            assert(final(out)@ =~= old(out)@ + spec_hex_min_str(n as nat));
        }
    } else {
        append_u16_hex(out, n / 16);
        push_hex_digit_lower(out, (n % 16) as u8);
        proof {
            assert(final(out)@ =~= old(out)@ + spec_hex_min_str(n as nat));
        }
    }
}

/// Append the groups in positions `from..to`, joined with colons.
fn append_v6_groups(out: &mut String, g: &Vec<u16>, from: usize, to: usize)
    requires
        from <= to,
        to <= g@.len(),
    ensures
        final(out)@ == old(out)@
            + spec_join(spec_v6_group_strs(g@.subrange(from as int, to as int)), ":"@),
{
    proof {
        assert(g@.subrange(from as int, from as int) =~= Seq::<u16>::empty());
        assert(spec_v6_group_strs(Seq::<u16>::empty()) =~= Seq::<Seq<char>>::empty());
        assert(out@ + spec_join(Seq::<Seq<char>>::empty(), ":"@) =~= out@);
    }
    let mut i: usize = from;
    while i < to
        invariant
            from <= i <= to,
            to <= g@.len(),
            out@ == old(out)@
                + spec_join(spec_v6_group_strs(g@.subrange(from as int, i as int)), ":"@),
        decreases to - i,
    {
        if i > from {
            out.append(":");
        }
        append_u16_hex(out, g[i]);
        i += 1;
        proof {
            assert(spec_v6_group_strs(g@.subrange(from as int, i as int))
                =~= spec_v6_group_strs(g@.subrange(from as int, i - 1)).push(
                    spec_hex_min_str(g@[i - 1] as nat)));
            lemma_join_push(
                spec_v6_group_strs(g@.subrange(from as int, i - 1)),
                spec_hex_min_str(g@[i - 1] as nat),
                ":"@,
            );
            assert(out@ =~= old(out)@
                + spec_join(spec_v6_group_strs(g@.subrange(from as int, i as int)), ":"@));
        }
    }
}

fn append_ipv4(out: &mut String, a: u32)
    ensures
        final(out)@ == old(out)@ + spec_ipv4_str(a),
{
    append_u32_dec(out, a / 0x1000000);
    out.append(".");
    append_u32_dec(out, a / 0x10000 % 0x100);
    out.append(".");
    append_u32_dec(out, a / 0x100 % 0x100);
    out.append(".");
    append_u32_dec(out, a % 0x100);
    proof {
        assert(final(out)@ =~= old(out)@ + spec_ipv4_str(a));
    }
}

impl Ipv6Address {
    pub fn to_str(&self) -> (r: String)
        ensures
            r@ == spec_ipv6_str(self.0),
    {
        let x = self.0;
        let mut g: Vec<u16> = Vec::new();
        g.push((x / 0x1_0000_0000_0000_0000_0000_0000_0000 % 0x10000) as u16);
        g.push((x / 0x1_0000_0000_0000_0000_0000_0000 % 0x10000) as u16);
        g.push((x / 0x1_0000_0000_0000_0000_0000 % 0x10000) as u16);
        g.push((x / 0x1_0000_0000_0000_0000 % 0x10000) as u16);
        g.push((x / 0x1_0000_0000_0000 % 0x10000) as u16);
        g.push((x / 0x1_0000_0000 % 0x10000) as u16);
        g.push((x / 0x1_0000 % 0x10000) as u16);
        g.push((x % 0x10000) as u16);
        proof {
            assert(g@ =~= spec_v6_groups(x));
        }
        let mut out = String::new();
        if g[0] == 0 && g[1] == 0 && g[2] == 0 && g[3] == 0 && g[4] == 0 && g[5] == 0xffff {
            out.append("::ffff:");
            append_ipv4(&mut out, (x % 0x1_0000_0000) as u32);
            proof {
                assert(out@ =~= spec_ipv6_str(x));
            }
        } else {
            let run = v6_best_zero_run(&g, 0);
            if run.1 < 2 {
                append_v6_groups(&mut out, &g, 0, 8);
                proof {
                    assert(g@.subrange(0, 8) =~= g@);
                    assert(out@ =~= spec_ipv6_str(x));
                }
            } else {
                append_v6_groups(&mut out, &g, 0, run.0);
                out.append("::");
                append_v6_groups(&mut out, &g, run.0 + run.1, 8);
                proof {
                    let ghost b = spec_best_zero_run(g@, 0);
                    assert(g@.subrange(0, b.0) =~= g@.take(b.0));
                    assert(g@.subrange(b.0 + b.1, 8) =~= g@.skip(b.0 + b.1));
                    assert(out@ =~= spec_ipv6_str(x));
                }
            }
        }
        out
    }
}

/// The text form of an IP address of either family.
pub open spec fn spec_ip_str(a: IpAddress) -> Seq<char> {
    match a {
        IpAddress::V4(v) => spec_ipv4_str(v.0),
        IpAddress::V6(v) => spec_ipv6_str(v.0),
    }
}

impl IpAddress {
    pub fn to_str(&self) -> (r: String)
        ensures
            r@ == spec_ip_str(*self),
    {
        match self {
            IpAddress::V4(v) => v.to_str(),
            IpAddress::V6(v) => v.to_str(),
        }
    }
}

/// The text form of a next hop: the address, or the global address of a
/// link-local pair.
pub open spec fn spec_next_hop_str(n: NextHopAddress) -> Seq<char> {
    match n {
        NextHopAddress::Ipv4(v) => spec_ipv4_str(v.0),
        NextHopAddress::Ipv6(v) => spec_ipv6_str(v.0),
        NextHopAddress::Ipv6LinkLocal(v, _) => spec_ipv6_str(v.0),
    }
}

impl NextHopAddress {
    pub fn to_str(&self) -> (r: String)
        ensures
            r@ == spec_next_hop_str(*self),
    {
        match self {
            NextHopAddress::Ipv4(v) => v.to_str(),
            NextHopAddress::Ipv6(v) => v.to_str(),
            NextHopAddress::Ipv6LinkLocal(v, _) => v.to_str(),
        }
    }
}

/// The text form of a network: the address, a slash, and the prefix length
/// in decimal.
pub open spec fn spec_net_str(n: IpNet) -> Seq<char> {
    match n {
        IpNet::V4(v) => spec_ipv4_str(v.address.0) + "/"@ + spec_dec_str(v.length as nat),
        IpNet::V6(v) => spec_ipv6_str(v.address.0) + "/"@ + spec_dec_str(v.length as nat),
    }
}

/// A prefix renders as its network; the path identifier is not part of the
/// text form.
pub open spec fn spec_prefix_str(p: NetworkPrefix) -> Seq<char> {
    spec_net_str(p.prefix)
}

impl NetworkPrefix {
    pub fn to_str(&self) -> (r: String)
        ensures
            r@ == spec_prefix_str(*self),
    {
        let mut out = String::new();
        match self.prefix {
            IpNet::V4(v) => {
                let s = v.address.to_str();
                out.append(s.as_str());
                out.append("/");
                append_u32_dec(&mut out, v.length as u32);
            },
            IpNet::V6(v) => {
                let s = v.address.to_str();
                out.append(s.as_str());
                out.append("/");
                append_u32_dec(&mut out, v.length as u32);
            },
        }
        proof {
            assert(out@ =~= spec_prefix_str(*self));
        }
        out
    }
}

/////////////
// PADDING //
/////////////

/// `k` zero characters.
pub open spec fn spec_zeros(k: nat) -> Seq<char>
    decreases k,
{
    if k == 0 {
        Seq::empty()
    } else {
        spec_zeros((k - 1) as nat).push('0')
    }
}

/// The decimal form of `v`, zero-padded on the left to at least `w` digits.
pub open spec fn spec_pad_dec(v: nat, w: nat) -> Seq<char> {
    if spec_dec_str(v).len() >= w {
        spec_dec_str(v)
    } else {
        spec_zeros((w - spec_dec_str(v).len()) as nat) + spec_dec_str(v)
    }
}

proof fn lemma_dec_str_len_bound(n: nat)
    ensures
        spec_dec_str(n).len() <= n + 1,
    decreases n,
{
    if n >= 10 {
        lemma_dec_str_len_bound(n / 10);
    }
}

/// The number of decimal digits of `v`.
fn dec_len_u32(v: u32) -> (r: usize)
    ensures
        r == spec_dec_str(v as nat).len(),
        1 <= r,
    decreases v,
{
    if v < 10 {
        1
    } else {
        let inner = dec_len_u32(v / 10);
        proof {
            lemma_dec_str_len_bound(v as nat / 10);
        }
        1 + inner
    }
}

/// Append the decimal form of `v`, zero-padded on the left to `w` digits.
pub fn append_dec_pad(out: &mut String, v: u32, w: usize)
    requires
        w <= 6,
    ensures
        final(out)@ == old(out)@ + spec_pad_dec(v as nat, w as nat),
{
    let len = dec_len_u32(v);
    let zeros_needed: usize = if w > len { w - len } else { 0 };
    proof {
        assert(spec_zeros(0) =~= Seq::<char>::empty());
        assert(out@ + spec_zeros(0) =~= out@);
    }
    let mut z: usize = 0;
    while z < zeros_needed
        invariant
            z <= zeros_needed,
            out@ == old(out)@ + spec_zeros(z as nat),
        decreases zeros_needed - z,
    {
        out.append("0");
        z += 1;
        proof {
            reveal_strlit("0");
            assert(out@ =~= old(out)@ + spec_zeros(z as nat));
        }
    }
    append_u32_dec(out, v);
    proof {
        assert(final(out)@ =~= old(out)@ + spec_pad_dec(v as nat, w as nat));
    }
}

////////////////
// ROUND TRIP //
////////////////

/// Whether a character is a decimal digit.
pub open spec fn spec_is_digit(c: char) -> bool {
    48 <= c as int <= 57
}

/// The value of a decimal digit character.
pub open spec fn spec_digit_val(c: char) -> nat {
    (c as int - 48) as nat
}

/// Parse a separator-joined list of decimal numbers, one character at a
/// time: `acc` is the value of the digits read since the last separator,
/// `started` whether any digit has been read there. The text must consist
/// of nonempty digit runs with exactly one separator between each pair.
pub open spec fn spec_parse_dec_list(
    s: Seq<char>,
    sep: Seq<char>,
    acc: nat,
    started: bool,
) -> Option<Seq<nat>>
    decreases s.len() when sep.len() >= 1
{
    if s.len() == 0 {
        if started {
            Some(seq![acc])
        } else {
            None
        }
    } else if spec_is_digit(s[0]) {
        spec_parse_dec_list(s.drop_first(), sep, acc * 10 + spec_digit_val(s[0]), true)
    } else if started && s.len() >= sep.len() && s.take(sep.len() as int) == sep {
        match spec_parse_dec_list(s.skip(sep.len() as int), sep, 0, false) {
            Some(rest) => Some(seq![acc] + rest),
            None => None,
        }
    } else {
        None
    }
}

/// Parse a separator-joined list of decimal numbers; the empty text is the
/// empty list.
pub open spec fn spec_parse_nat_list(s: Seq<char>, sep: Seq<char>) -> Option<Seq<nat>> {
    if s.len() == 0 {
        Some(Seq::empty())
    } else {
        spec_parse_dec_list(s, sep, 0, false)
    }
}

/// The parsed numbers as ASNs, where all of them fit.
pub open spec fn spec_nats_to_asns(v: Seq<nat>) -> Option<Seq<Asn>> {
    if forall|i: int| 0 <= i < v.len() ==> #[trigger] v[i] <= u32::MAX {
        Some(v.map_values(|n: nat| n as Asn))
    } else {
        None
    }
}

/// Parse the rendering of one path segment: the brace-delimited,
/// comma-joined form yields a set, the plain space-joined form a sequence.
/// Confederation segments render exactly like their plain counterparts, so
/// a parse can only ever recover the plain kinds.
pub open spec fn spec_parse_segment(s: Seq<char>) -> Option<AsPathSegmentView> {
    if s.len() >= 4 && s.take(2) == "{ "@ && s.skip(s.len() - 2) == " }"@ {
        match spec_parse_nat_list(s.subrange(2, s.len() - 2), ", "@) {
            Some(nats) => match spec_nats_to_asns(nats) {
                Some(asns) => Some(AsPathSegmentView::AsSet(asns)),
                None => None,
            },
            None => None,
        }
    } else {
        match spec_parse_nat_list(s, " "@) {
            Some(nats) => match spec_nats_to_asns(nats) {
                Some(asns) => Some(AsPathSegmentView::AsSequence(asns)),
                None => None,
            },
            None => None,
        }
    }
}

/// Ten to the `k`.
pub open spec fn spec_pow10(k: nat) -> nat
    decreases k,
{
    if k == 0 {
        1
    } else {
        10 * spec_pow10((k - 1) as nat)
    }
}

proof fn lemma_dec_digit_is_digit(d: nat)
    requires
        d < 10,
    ensures
        spec_is_digit(spec_dec_digit(d)),
        spec_digit_val(spec_dec_digit(d)) == d,
{
}

proof fn lemma_dec_str_is_digits(n: nat)
    ensures
        forall|i: int| 0 <= i < spec_dec_str(n).len()
            ==> spec_is_digit(#[trigger] spec_dec_str(n)[i]),
    decreases n,
{
    if n < 10 {
        lemma_dec_digit_is_digit(n);
    } else {
        lemma_dec_str_is_digits(n / 10);
        lemma_dec_digit_is_digit(n % 10);
        assert forall|i: int| 0 <= i < spec_dec_str(n).len()
            implies spec_is_digit(#[trigger] spec_dec_str(n)[i]) by {
            if i < spec_dec_str(n / 10).len() {
                assert(spec_dec_str(n)[i] == spec_dec_str(n / 10)[i]);
            } else {
                assert(spec_dec_str(n)[i] == spec_dec_digit(n % 10));
            }
        }
    }
}

/// Reading the digits of `n` multiplies the accumulator by ten once per
/// digit and adds `n`, and leaves the rest of the text to read.
proof fn lemma_parse_consumes_number(
    n: nat,
    tail: Seq<char>,
    sep: Seq<char>,
    acc: nat,
    started: bool,
)
    requires
        sep.len() >= 1,
    ensures
        spec_parse_dec_list(spec_dec_str(n) + tail, sep, acc, started)
            == spec_parse_dec_list(
                tail,
                sep,
                acc * spec_pow10(spec_dec_str(n).len()) + n,
                true,
            ),
    decreases n,
{
    let s = spec_dec_str(n) + tail;
    if n < 10 {
        lemma_dec_digit_is_digit(n);
        assert(s[0] == spec_dec_digit(n));
        assert(s.drop_first() =~= tail);
        assert(spec_pow10(0) == 1);
        assert(spec_pow10(1) == 10);
        assert(acc * 10 + n == acc * spec_pow10(spec_dec_str(n).len()) + n);
    } else {
        let d = n % 10;
        let m = n / 10;
        let tail2 = seq![spec_dec_digit(d)] + tail;
        assert(spec_dec_str(n) =~= spec_dec_str(m) + seq![spec_dec_digit(d)]);
        assert(s =~= spec_dec_str(m) + tail2);
        lemma_parse_consumes_number(m, tail2, sep, acc, started);
        let accm = acc * spec_pow10(spec_dec_str(m).len()) + m;
        lemma_dec_digit_is_digit(d);
        assert(tail2[0] == spec_dec_digit(d));
        assert(tail2.drop_first() =~= tail);
        assert(spec_parse_dec_list(tail2, sep, accm, true)
            == spec_parse_dec_list(tail, sep, accm * 10 + d, true));
        assert(spec_dec_str(n).len() == spec_dec_str(m).len() + 1);
        assert(spec_pow10(spec_dec_str(n).len()) == 10 * spec_pow10(spec_dec_str(m).len()));
        assert(accm * 10 + d == acc * spec_pow10(spec_dec_str(n).len()) + n) by (nonlinear_arith)
            requires
                accm == acc * spec_pow10(spec_dec_str(m).len()) + m,
                spec_pow10(spec_dec_str(n).len()) == 10 * spec_pow10(spec_dec_str(m).len()),
                n == m * 10 + d,
        {
        }
    }
}

/// Parsing the separator-joined renderings of a list of ASNs gives the
/// list back.
#[verifier::rlimit(60)]
proof fn lemma_parse_of_join(v: Seq<Asn>, sep: Seq<char>)
    requires
        sep.len() >= 1,
        !spec_is_digit(sep[0]),
    ensures
        spec_parse_nat_list(spec_join(spec_asn_strs(v), sep), sep)
            == Some(v.map_values(|a: Asn| a as nat)),
    decreases v.len(),
{
    let strs = spec_asn_strs(v);
    let joined = spec_join(strs, sep);
    if v.len() == 0 {
        assert(joined =~= Seq::<char>::empty());
        assert(v.map_values(|a: Asn| a as nat) =~= Seq::<nat>::empty());
    } else if v.len() == 1 {
        let n = v[0] as nat;
        assert(joined == spec_dec_str(n));
        assert(joined =~= spec_dec_str(n) + Seq::<char>::empty());
        lemma_parse_consumes_number(n, Seq::empty(), sep, 0, false);
        assert(0 * spec_pow10(spec_dec_str(n).len()) + n == n) by (nonlinear_arith) {}
        assert(spec_dec_str(n).len() >= 1);
        assert(joined.len() > 0);
        assert(v.map_values(|a: Asn| a as nat) =~= seq![n]);
    } else {
        let n = v[0] as nat;
        let rest = v.drop_first();
        let rest_join = spec_join(spec_asn_strs(rest), sep);
        assert(strs.drop_first() =~= spec_asn_strs(rest));
        assert(joined == strs[0] + sep + spec_join(strs.drop_first(), sep));
        assert(joined =~= spec_dec_str(n) + (sep + rest_join));
        lemma_parse_consumes_number(n, sep + rest_join, sep, 0, false);
        assert(0 * spec_pow10(spec_dec_str(n).len()) + n == n) by (nonlinear_arith) {}
        // After the number, the text continues with the separator.
        let after = sep + rest_join;
        assert(after.len() >= sep.len());
        assert(after[0] == sep[0]);
        assert(after.take(sep.len() as int) =~= sep);
        assert(after.skip(sep.len() as int) =~= rest_join);
        lemma_parse_of_join(rest, sep);
        // The remainder is nonempty, so its list parse is the machine parse.
        let m = rest[0] as nat;
        assert(spec_asn_strs(rest)[0] == spec_dec_str(m));
        assert(spec_dec_str(m).len() >= 1);
        if rest.len() == 1 {
            assert(rest_join == spec_dec_str(m));
        } else {
            assert(rest_join == spec_dec_str(m) + sep
                + spec_join(spec_asn_strs(rest).drop_first(), sep));
        }
        assert(rest_join.len() > 0);
        assert(spec_parse_dec_list(rest_join, sep, 0, false)
            == Some(rest.map_values(|a: Asn| a as nat)));
        assert(spec_parse_dec_list(joined, sep, 0, false)
            == Some(seq![n] + rest.map_values(|a: Asn| a as nat)));
        assert(seq![n] + rest.map_values(|a: Asn| a as nat)
            =~= v.map_values(|a: Asn| a as nat));
        assert(joined.len() > 0);
    }
}

proof fn lemma_asns_round_trip(v: Seq<Asn>)
    ensures
        spec_nats_to_asns(v.map_values(|a: Asn| a as nat)) == Some(v),
{
    let nats = v.map_values(|a: Asn| a as nat);
    assert(forall|i: int| 0 <= i < nats.len() ==> #[trigger] nats[i] <= u32::MAX);
    assert(nats.map_values(|n: nat| n as Asn) =~= v);
}

/// Law: rendering a plain sequence or set segment and re-parsing the text
/// recovers the segment exactly: the set comes back from its
/// brace-delimited, comma-joined form, the sequence from its plain
/// space-joined form. (A confederation segment renders exactly like its
/// plain counterpart, so only the plain kinds can be recovered.)
pub proof fn lemma_segment_render_round_trip(seg: AsPathSegmentView)
    requires
        seg is AsSequence || seg is AsSet,
    ensures
        spec_parse_segment(spec_render_segment(seg)) == Some(seg),
{
    reveal_strlit("{ ");
    reveal_strlit(" }");
    reveal_strlit(", ");
    reveal_strlit(" ");
    match seg {
        AsPathSegmentView::AsSequence(v) => {
            let joined = spec_join(spec_asn_strs(v), " "@);
            lemma_parse_of_join(v, " "@);
            lemma_asns_round_trip(v);
            if joined.len() >= 4 && joined.take(2) == "{ "@ {
                // A sequence's text starts with a digit, never a brace.
                let n = v[0] as nat;
                assert(spec_asn_strs(v)[0] == spec_dec_str(n));
                lemma_dec_str_is_digits(n);
                assert(spec_dec_str(n).len() >= 1);
                if v.len() == 1 {
                    assert(joined[0] == spec_dec_str(n)[0]);
                } else {
                    assert(joined == spec_dec_str(n) + " "@
                        + spec_join(spec_asn_strs(v).drop_first(), " "@));
                    assert(joined[0] == spec_dec_str(n)[0]);
                }
                assert(spec_is_digit(joined[0]));
                assert(joined.take(2)[0] == joined[0]);
                assert(false);
            }
        },
        AsPathSegmentView::AsSet(v) => {
            let joined = spec_join(spec_asn_strs(v), ", "@);
            let s = spec_render_segment(seg);
            assert(s == "{ "@ + joined + " }"@);
            assert(s.len() == joined.len() + 4);
            assert(s.take(2) =~= "{ "@);
            assert(s.skip(s.len() - 2) =~= " }"@);
            assert(s.subrange(2, s.len() - 2) =~= joined);
            lemma_parse_of_join(v, ", "@);
            lemma_asns_round_trip(v);
        },
        _ => {},
    }
}

} // verus!
