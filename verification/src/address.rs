//! IP address literals: which target names spell an address, and which one.
//!
//! An IPv4 literal is four decimal numbers from 0 to 255, without leading
//! zeros, separated by dots. An IPv6 literal is eight groups of one to four
//! hexadecimal digits separated by colons; one run of zero groups may be
//! written as `::`, and the last two groups may be written as an IPv4
//! literal.

use vstd::prelude::*;
use vstd::string::StringSliceAdditionalSpecFns;
use vstd::utf8::encode_utf8;

verus! {

/// The byte that separates the numbers of an IPv4 literal.
pub const DOT: u8 = 0x2e;

/// The byte that separates the groups of an IPv6 literal.
pub const COLON: u8 = 0x3a;

/// The numeric value of an IP address literal.
#[derive(Clone, Copy, Debug, PartialEq, Eq, Structural)]
pub enum Address {
    /// An IPv4 address, first number in the highest byte.
    V4(u32),
    /// An IPv6 address, first group in the highest bits.
    V6(u128),
}

/// The pieces that `sep` cuts `s` into. There is one piece more than there
/// are separators, so a piece may be empty.
pub open spec fn fields(s: Seq<u8>, sep: u8) -> Seq<Seq<u8>>
    decreases s.len(),
{
    if s.len() == 0 {
        seq![Seq::empty()]
    } else {
        let front = fields(s.drop_last(), sep);
        if s.last() == sep {
            front.push(Seq::empty())
        } else {
            front.update(front.len() - 1, front.last().push(s.last()))
        }
    }
}

/// The value of a decimal digit.
pub open spec fn decimal_digit(b: u8) -> Option<nat> {
    if 0x30 <= b <= 0x39 {
        Some((b - 0x30) as nat)
    } else {
        None
    }
}

/// The value of a hexadecimal digit, in either case.
pub open spec fn hex_digit(b: u8) -> Option<nat> {
    if 0x30 <= b <= 0x39 {
        Some((b - 0x30) as nat)
    } else if 0x61 <= b <= 0x66 {
        Some((b - 0x61 + 10) as nat)
    } else if 0x41 <= b <= 0x46 {
        Some((b - 0x41 + 10) as nat)
    } else {
        None
    }
}

/// The number that decimal digits spell.
pub open spec fn decimal(f: Seq<u8>) -> nat
    decreases f.len(),
{
    if f.len() == 0 {
        0
    } else {
        decimal(f.drop_last()) * 10 + decimal_digit(f.last()).unwrap_or(0)
    }
}

/// The number that hexadecimal digits spell.
pub open spec fn hexadecimal(f: Seq<u8>) -> nat
    decreases f.len(),
{
    if f.len() == 0 {
        0
    } else {
        hexadecimal(f.drop_last()) * 16 + hex_digit(f.last()).unwrap_or(0)
    }
}

/// One number of an IPv4 literal: one to three decimal digits, no leading
/// zero before another digit, at most 255.
pub open spec fn octet(f: Seq<u8>) -> Option<u8> {
    if 1 <= f.len() <= 3 && (forall|i: int| 0 <= i < f.len() ==> decimal_digit(#[trigger] f[i]) is Some)
        && (f.len() == 1 || f[0] != 0x30) && decimal(f) <= 255 {
        Some(decimal(f) as u8)
    } else {
        None
    }
}

/// One group of an IPv6 literal: one to four hexadecimal digits.
pub open spec fn h16(f: Seq<u8>) -> Option<u16> {
    if 1 <= f.len() <= 4 && (forall|i: int| 0 <= i < f.len() ==> hex_digit(#[trigger] f[i]) is Some) {
        Some(hexadecimal(f) as u16)
    } else {
        None
    }
}

/// The address that an IPv4 literal spells.
pub open spec fn ipv4(s: Seq<u8>) -> Option<u32> {
    let f = fields(s, DOT);
    if f.len() == 4 && octet(f[0]) is Some && octet(f[1]) is Some && octet(f[2]) is Some && octet(
        f[3],
    ) is Some {
        Some(
            (octet(f[0])->0 * 0x100_0000 + octet(f[1])->0 * 0x1_0000 + octet(f[2])->0 * 0x100
                + octet(f[3])->0) as u32,
        )
    } else {
        None
    }
}

/// The groups that fields spell where every field is a group.
pub open spec fn hex_groups(f: Seq<Seq<u8>>) -> Option<Seq<u16>> {
    if forall|i: int| 0 <= i < f.len() ==> h16(#[trigger] f[i]) is Some {
        Some(Seq::new(f.len(), |i: int| h16(f[i])->0))
    } else {
        None
    }
}

/// The groups that fields spell where every field is a group, except that
/// the last one may be an IPv4 literal, which stands for two groups.
pub open spec fn tail_groups(f: Seq<Seq<u8>>) -> Option<Seq<u16>> {
    if f.len() == 0 {
        None
    } else {
        match hex_groups(f.drop_last()) {
            None => None,
            Some(front) => match h16(f.last()) {
                Some(group) => Some(front.push(group)),
                None => match ipv4(f.last()) {
                    Some(v) => Some(
                        front.push((v / 0x1_0000) as u16).push((v % 0x1_0000) as u16),
                    ),
                    None => None,
                },
            },
        }
    }
}

/// The position of the first empty field, or the number of fields where
/// none is empty.
pub open spec fn first_empty(f: Seq<Seq<u8>>) -> int
    decreases f.len(),
{
    if f.len() == 0 {
        0
    } else {
        let k = first_empty(f.drop_last());
        if k < f.len() - 1 {
            k
        } else if f.last().len() == 0 {
            f.len() - 1
        } else {
            f.len() as int
        }
    }
}

/// The eight groups that an IPv6 literal spells. Without `::` the fields
/// between the colons are the eight groups. With `::` the fields before it
/// are the first groups, the fields behind it the last ones, and zero groups
/// fill what is missing, which is at least one group.
pub open spec fn ipv6(s: Seq<u8>) -> Option<Seq<u16>> {
    let f = fields(s, COLON);
    let gap = first_empty(f);
    if gap == f.len() {
        match tail_groups(f) {
            Some(groups) => if groups.len() == 8 {
                Some(groups)
            } else {
                None
            },
            None => None,
        }
    } else {
        // A literal that starts with `::` has two empty fields in front.
        let rest = if gap == 0 {
            2
        } else {
            gap + 1
        };
        if rest >= f.len() || (gap == 0 && f[1].len() != 0) {
            None
        } else {
            let back = f.skip(rest);
            // A literal that ends in `::` has one empty field behind it.
            let tail = if back.len() == 1 && back[0].len() == 0 {
                Some(Seq::empty())
            } else {
                tail_groups(back)
            };
            match (hex_groups(f.take(gap)), tail) {
                (Some(h), Some(t)) => if h.len() + t.len() <= 7 {
                    Some(h + Seq::new((8 - h.len() - t.len()) as nat, |i: int| 0u16) + t)
                } else {
                    None
                },
                _ => None,
            }
        }
    }
}

/// The 128-bit value of eight groups, first group in the highest bits.
pub open spec fn ipv6_value(g: Seq<u16>) -> u128 {
    (g[0] * 0x1_0000_0000_0000_0000_0000_0000_0000 + g[1] * 0x1_0000_0000_0000_0000_0000_0000
        + g[2] * 0x1_0000_0000_0000_0000_0000 + g[3] * 0x1_0000_0000_0000_0000 + g[4]
        * 0x1_0000_0000_0000 + g[5] * 0x1_0000_0000 + g[6] * 0x1_0000 + g[7]) as u128
}

/// The address that a literal spells, if it is one.
pub open spec fn literal(s: Seq<u8>) -> Option<Address> {
    match ipv4(s) {
        Some(v) => Some(Address::V4(v)),
        None => match ipv6(s) {
            Some(groups) => Some(Address::V6(ipv6_value(groups))),
            None => None,
        },
    }
}

/// The address that a target name spells, if it spells one: the name's
/// bytes, read as a literal.
pub open spec fn address_of(name: Seq<char>) -> Option<Address> {
    literal(encode_utf8(name))
}

/// The pieces of `bytes` that `cuts` mark.
spec fn pieces(bytes: Seq<u8>, cuts: Seq<(usize, usize)>) -> Seq<Seq<u8>> {
    Seq::new(cuts.len(), |k: int| bytes.subrange(cuts[k].0 as int, cuts[k].1 as int))
}

/// Every cut lies within `bytes`.
spec fn cuts_within(bytes: Seq<u8>, cuts: Seq<(usize, usize)>) -> bool {
    forall|k: int| #![trigger cuts[k]] 0 <= k < cuts.len() ==> cuts[k].0 <= cuts[k].1 <= bytes.len()
}

proof fn lemma_first_empty(f: Seq<Seq<u8>>)
    ensures
        0 <= first_empty(f) <= f.len(),
        forall|j: int| 0 <= j < first_empty(f) ==> (#[trigger] f[j]).len() > 0,
        first_empty(f) < f.len() ==> f[first_empty(f)].len() == 0,
    decreases f.len(),
{
    if f.len() > 0 {
        lemma_first_empty(f.drop_last());
        assert forall|j: int| 0 <= j < first_empty(f) implies (#[trigger] f[j]).len() > 0 by {
            if j < f.len() - 1 {
                assert(f.drop_last()[j] == f[j]);
            }
        }
    }
}

/// Cuts `bytes[start..end]` at every `sep`: the start and end of each piece.
fn split(bytes: &[u8], start: usize, end: usize, sep: u8) -> (cuts: Vec<(usize, usize)>)
    requires
        start <= end <= bytes@.len(),
    ensures
        cuts@.len() == fields(bytes@.subrange(start as int, end as int), sep).len(),
        forall|k: int|
            #![trigger cuts@[k]]
            0 <= k < cuts@.len() ==> start <= cuts@[k].0 <= cuts@[k].1 <= end && bytes@.subrange(
                cuts@[k].0 as int,
                cuts@[k].1 as int,
            ) == fields(bytes@.subrange(start as int, end as int), sep)[k],
{
    let mut cuts: Vec<(usize, usize)> = Vec::new();
    let mut from: usize = start;
    let mut i: usize = start;
    while i < end
        invariant
            start <= from <= i <= end <= bytes@.len(),
            cuts@.len() + 1 == fields(bytes@.subrange(start as int, i as int), sep).len(),
            fields(bytes@.subrange(start as int, i as int), sep).last() == bytes@.subrange(
                from as int,
                i as int,
            ),
            forall|k: int|
                #![trigger cuts@[k]]
                0 <= k < cuts@.len() ==> start <= cuts@[k].0 <= cuts@[k].1 <= end
                    && bytes@.subrange(cuts@[k].0 as int, cuts@[k].1 as int) == fields(
                    bytes@.subrange(start as int, i as int),
                    sep,
                )[k],
        decreases end - i,
    {
        proof {
            let next = bytes@.subrange(start as int, i + 1);
            assert(next.drop_last() == bytes@.subrange(start as int, i as int));
            assert(next.last() == bytes@[i as int]);
            assert(bytes@.subrange(from as int, i as int).push(bytes@[i as int])
                == bytes@.subrange(from as int, i + 1));
            assert(bytes@.subrange(i + 1, i + 1) == Seq::<u8>::empty());
        }
        if bytes[i] == sep {
            cuts.push((from, i));
            from = i + 1;
        }
        i += 1;
    }
    cuts.push((from, end));
    cuts
}

/// Reads `bytes[start..end]` as one number of an IPv4 literal.
fn read_octet(bytes: &[u8], start: usize, end: usize) -> (value: Option<u8>)
    requires
        start <= end <= bytes@.len(),
    ensures
        value == octet(bytes@.subrange(start as int, end as int)),
{
    let ghost f = bytes@.subrange(start as int, end as int);
    let len: usize = end - start;
    if len == 0 || len > 3 {
        return None;
    }
    if len > 1 && bytes[start] == 0x30 {
        assert(f[0] == 0x30);
        return None;
    }
    let mut acc: u32 = 0;
    let mut k: usize = 0;
    while k < len
        invariant
            start + len == end <= bytes@.len(),
            f == bytes@.subrange(start as int, end as int),
            k <= len <= 3,
            acc == decimal(f.take(k as int)),
            forall|i: int| 0 <= i < k ==> decimal_digit(#[trigger] f[i]) is Some,
            k == 0 ==> acc == 0,
            k == 1 ==> acc <= 9,
            k == 2 ==> acc <= 99,
            k == 3 ==> acc <= 999,
        decreases len - k,
    {
        let b = bytes[start + k];
        assert(b == f[k as int]);
        if b < 0x30 || b > 0x39 {
            return None;
        }
        proof {
            assert(f.take(k + 1).drop_last() == f.take(k as int));
            assert(f.take(k + 1).last() == b);
        }
        acc = acc * 10 + (b - 0x30) as u32;
        k += 1;
    }
    assert(f.take(len as int) == f);
    if acc > 255 {
        None
    } else {
        Some(acc as u8)
    }
}

/// Reads `bytes[start..end]` as one group of an IPv6 literal.
fn read_h16(bytes: &[u8], start: usize, end: usize) -> (value: Option<u16>)
    requires
        start <= end <= bytes@.len(),
    ensures
        value == h16(bytes@.subrange(start as int, end as int)),
{
    let ghost f = bytes@.subrange(start as int, end as int);
    let len: usize = end - start;
    if len == 0 || len > 4 {
        return None;
    }
    let mut acc: u32 = 0;
    let mut k: usize = 0;
    while k < len
        invariant
            start + len == end <= bytes@.len(),
            f == bytes@.subrange(start as int, end as int),
            k <= len <= 4,
            acc == hexadecimal(f.take(k as int)),
            forall|i: int| 0 <= i < k ==> hex_digit(#[trigger] f[i]) is Some,
            k == 0 ==> acc == 0,
            k == 1 ==> acc <= 0xf,
            k == 2 ==> acc <= 0xff,
            k == 3 ==> acc <= 0xfff,
            k == 4 ==> acc <= 0xffff,
        decreases len - k,
    {
        let b = bytes[start + k];
        assert(b == f[k as int]);
        let digit: u32 = if 0x30 <= b && b <= 0x39 {
            (b - 0x30) as u32
        } else if 0x61 <= b && b <= 0x66 {
            (b - 0x61) as u32 + 10
        } else if 0x41 <= b && b <= 0x46 {
            (b - 0x41) as u32 + 10
        } else {
            return None;
        };
        proof {
            assert(f.take(k + 1).drop_last() == f.take(k as int));
            assert(f.take(k + 1).last() == b);
        }
        acc = acc * 16 + digit;
        k += 1;
    }
    assert(f.take(len as int) == f);
    Some(acc as u16)
}

/// Reads `bytes[start..end]` as an IPv4 literal.
fn read_ipv4(bytes: &[u8], start: usize, end: usize) -> (value: Option<u32>)
    requires
        start <= end <= bytes@.len(),
    ensures
        value == ipv4(bytes@.subrange(start as int, end as int)),
{
    let cuts = split(bytes, start, end, DOT);
    if cuts.len() != 4 {
        return None;
    }
    let a = match read_octet(bytes, cuts[0].0, cuts[0].1) {
        Some(a) => a,
        None => {
            return None;
        },
    };
    let b = match read_octet(bytes, cuts[1].0, cuts[1].1) {
        Some(b) => b,
        None => {
            return None;
        },
    };
    let c = match read_octet(bytes, cuts[2].0, cuts[2].1) {
        Some(c) => c,
        None => {
            return None;
        },
    };
    let d = match read_octet(bytes, cuts[3].0, cuts[3].1) {
        Some(d) => d,
        None => {
            return None;
        },
    };
    Some(a as u32 * 0x100_0000 + b as u32 * 0x1_0000 + c as u32 * 0x100 + d as u32)
}

/// Reads the pieces from `from` up to `to` as groups of an IPv6 literal.
fn read_hex_groups(bytes: &[u8], cuts: &Vec<(usize, usize)>, from: usize, to: usize) -> (groups:
    Option<Vec<u16>>)
    requires
        from <= to <= cuts@.len(),
        cuts_within(bytes@, cuts@),
    ensures
        match groups {
            Some(g) => hex_groups(pieces(bytes@, cuts@).subrange(from as int, to as int)) == Some(
                g@,
            ),
            None => hex_groups(pieces(bytes@, cuts@).subrange(from as int, to as int)) is None,
        },
{
    let ghost f = pieces(bytes@, cuts@).subrange(from as int, to as int);
    let mut groups: Vec<u16> = Vec::new();
    let mut k: usize = from;
    while k < to
        invariant
            from <= k <= to <= cuts@.len(),
            cuts_within(bytes@, cuts@),
            f == pieces(bytes@, cuts@).subrange(from as int, to as int),
            groups@.len() == k - from,
            forall|i: int| 0 <= i < k - from ==> h16(#[trigger] f[i]) == Some(groups@[i]),
        decreases to - k,
    {
        let cut = cuts[k];
        assert(f[k - from] == bytes@.subrange(cut.0 as int, cut.1 as int));
        match read_h16(bytes, cut.0, cut.1) {
            Some(group) => {
                groups.push(group);
            },
            None => {
                return None;
            },
        }
        k += 1;
    }
    assert(Seq::new(f.len(), |i: int| h16(f[i])->0) == groups@);
    Some(groups)
}

/// Reads the pieces from `from` up to `to` as groups of an IPv6 literal of
/// which the last may be an IPv4 literal.
fn read_tail_groups(bytes: &[u8], cuts: &Vec<(usize, usize)>, from: usize, to: usize) -> (groups:
    Option<Vec<u16>>)
    requires
        from < to <= cuts@.len(),
        cuts_within(bytes@, cuts@),
    ensures
        match groups {
            Some(g) => tail_groups(pieces(bytes@, cuts@).subrange(from as int, to as int)) == Some(
                g@,
            ),
            None => tail_groups(pieces(bytes@, cuts@).subrange(from as int, to as int)) is None,
        },
{
    let ghost f = pieces(bytes@, cuts@).subrange(from as int, to as int);
    assert(f.drop_last() == pieces(bytes@, cuts@).subrange(from as int, to - 1));
    let mut groups = match read_hex_groups(bytes, cuts, from, to - 1) {
        Some(groups) => groups,
        None => {
            return None;
        },
    };
    let cut = cuts[to - 1];
    assert(f.last() == bytes@.subrange(cut.0 as int, cut.1 as int));
    match read_h16(bytes, cut.0, cut.1) {
        Some(group) => {
            groups.push(group);
            Some(groups)
        },
        None => match read_ipv4(bytes, cut.0, cut.1) {
            Some(v) => {
                groups.push((v / 0x1_0000) as u16);
                groups.push((v % 0x1_0000) as u16);
                Some(groups)
            },
            None => None,
        },
    }
}

/// Joins eight groups into one value, first group in the highest bits.
fn join_groups(groups: &Vec<u16>) -> (value: u128)
    requires
        groups@.len() == 8,
    ensures
        value == ipv6_value(groups@),
{
    groups[0] as u128 * 0x1_0000_0000_0000_0000_0000_0000_0000 + groups[1] as u128
        * 0x1_0000_0000_0000_0000_0000_0000 + groups[2] as u128 * 0x1_0000_0000_0000_0000_0000
        + groups[3] as u128 * 0x1_0000_0000_0000_0000 + groups[4] as u128 * 0x1_0000_0000_0000
        + groups[5] as u128 * 0x1_0000_0000 + groups[6] as u128 * 0x1_0000 + groups[7] as u128
}

/// The position of the first empty piece, or the number of pieces where
/// none is empty.
fn find_gap(bytes: &[u8], cuts: &Vec<(usize, usize)>) -> (gap: usize)
    requires
        cuts_within(bytes@, cuts@),
    ensures
        gap == first_empty(pieces(bytes@, cuts@)),
{
    let ghost f = pieces(bytes@, cuts@);
    let mut gap: usize = 0;
    while gap < cuts.len() && cuts[gap].0 != cuts[gap].1
        invariant
            gap <= cuts@.len(),
            cuts_within(bytes@, cuts@),
            f == pieces(bytes@, cuts@),
            forall|j: int| 0 <= j < gap ==> (#[trigger] f[j]).len() > 0,
        decreases cuts@.len() - gap,
    {
        assert(f[gap as int].len() == cuts@[gap as int].1 - cuts@[gap as int].0);
        gap += 1;
    }
    proof {
        lemma_first_empty(f);
        if gap < cuts@.len() {
            assert(f[gap as int].len() == cuts@[gap as int].1 - cuts@[gap as int].0);
        }
        if gap < first_empty(f) {
            assert(f[gap as int].len() > 0);
        } else if gap > first_empty(f) {
            assert(f[first_empty(f)].len() == 0);
        }
    }
    gap
}

/// The groups in front, as many zero groups as eight groups need, and the
/// groups behind.
fn fill_groups(head: Vec<u16>, tail: &Vec<u16>) -> (groups: Vec<u16>)
    requires
        head@.len() + tail@.len() <= 7,
    ensures
        groups@ == head@ + Seq::new((8 - head@.len() - tail@.len()) as nat, |i: int| 0u16)
            + tail@,
        groups@.len() == 8,
{
    let zeros: usize = 8 - head.len() - tail.len();
    let ghost h = head@;
    let mut groups: Vec<u16> = head;
    let mut k: usize = 0;
    while k < zeros
        invariant
            k <= zeros,
            groups@ == h + Seq::new(k as nat, |i: int| 0u16),
        decreases zeros - k,
    {
        groups.push(0);
        k += 1;
    }
    let mut t: usize = 0;
    while t < tail.len()
        invariant
            t <= tail@.len(),
            groups@ == h + Seq::new(zeros as nat, |i: int| 0u16) + tail@.take(t as int),
        decreases tail@.len() - t,
    {
        groups.push(tail[t]);
        assert(tail@.take(t + 1) == tail@.take(t as int).push(tail@[t as int]));
        t += 1;
    }
    assert(tail@.take(tail@.len() as int) == tail@);
    groups
}

proof fn lemma_fields_nonempty(s: Seq<u8>, sep: u8)
    ensures
        fields(s, sep).len() >= 1,
    decreases s.len(),
{
    if s.len() > 0 {
        lemma_fields_nonempty(s.drop_last(), sep);
    }
}

/// Reads `bytes` as an IPv6 literal: its eight groups.
fn read_ipv6(bytes: &[u8]) -> (groups: Option<Vec<u16>>)
    ensures
        match groups {
            Some(g) => ipv6(bytes@) == Some(g@),
            None => ipv6(bytes@) is None,
        },
{
    let cuts = split(bytes, 0, bytes.len(), COLON);
    let n = cuts.len();
    let ghost f = fields(bytes@, COLON);
    proof {
        assert(bytes@.subrange(0, bytes@.len() as int) == bytes@);
        assert(pieces(bytes@, cuts@) == f);
        lemma_fields_nonempty(bytes@, COLON);
    }
    let gap = find_gap(bytes, &cuts);
    if gap == n {
        assert(f.subrange(0, n as int) == f);
        return match read_tail_groups(bytes, &cuts, 0, n) {
            Some(groups) => if groups.len() == 8 {
                Some(groups)
            } else {
                None
            },
            None => None,
        };
    }
    let rest: usize = if gap == 0 {
        2
    } else {
        gap + 1
    };
    if rest >= n {
        return None;
    }
    assert(f[1].len() == cuts@[1].1 - cuts@[1].0);
    if gap == 0 && cuts[1].0 != cuts[1].1 {
        return None;
    }
    let head = match read_hex_groups(bytes, &cuts, 0, gap) {
        Some(head) => head,
        None => {
            return None;
        },
    };
    assert(f.skip(rest as int)[0] == f[rest as int]);
    assert(f[rest as int].len() == cuts@[rest as int].1 - cuts@[rest as int].0);
    let tail = if rest + 1 == n && cuts[rest].0 == cuts[rest].1 {
        Vec::new()
    } else {
        match read_tail_groups(bytes, &cuts, rest, n) {
            Some(tail) => tail,
            None => {
                return None;
            },
        }
    };
    if head.len() + tail.len() > 7 {
        return None;
    }
    Some(fill_groups(head, &tail))
}

/// Reads a target name as an IP address literal, IPv4 first.
pub fn parse_address(target: &str) -> (address: Option<Address>)
    ensures
        address == address_of(target@),
{
    let bytes = target.as_bytes();
    assert(bytes@ == target.spec_bytes());
    assert(bytes@.subrange(0, bytes@.len() as int) == bytes@);
    match read_ipv4(bytes, 0, bytes.len()) {
        Some(v) => Some(Address::V4(v)),
        None => match read_ipv6(bytes) {
            Some(groups) => Some(Address::V6(join_groups(&groups))),
            None => None,
        },
    }
}

} // verus!
