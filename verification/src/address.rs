//! IP addresses and their textual form.
//!
//! An IPv4 address is written as four decimal numbers joined by dots. An
//! IPv6 address is written as eight groups of hexadecimal digits joined by
//! colons, where one run of zero groups may be left out and marked by two
//! colons, and where the last two groups may be written as an IPv4 address.

use vstd::prelude::*;
use crate::text::{
    bounded_number, copy_range, fields, lemma_fields_nonempty, read_number, split, views,
};

verus! {

/// An IP address: the 32 bits of an IPv4 address or the 128 bits of an IPv6
/// address, the first byte of the address being the highest.
#[derive(Clone, Copy, Debug, PartialEq, Eq, Structural)]
pub enum IpAddress {
    /// An IPv4 address.
    V4(u32),
    /// An IPv6 address.
    V6(u128),
}

impl IpAddress {
    /// Whether this is an IPv4 address.
    pub fn is_ipv4(&self) -> (v4: bool)
        ensures
            v4 == (*self is V4),
    {
        match self {
            IpAddress::V4(_) => true,
            IpAddress::V6(_) => false,
        }
    }

    /// Whether this is an IPv6 address.
    pub fn is_ipv6(&self) -> (v6: bool)
        ensures
            v6 == (*self is V6),
    {
        match self {
            IpAddress::V4(_) => false,
            IpAddress::V6(_) => true,
        }
    }
}

/// One number of an IPv4 address: one to three decimal digits that spell at
/// most 255, without a leading zero before another digit.
pub open spec fn dec_octet(s: Seq<char>) -> Option<u8> {
    if s.len() <= 3 && !(s.len() > 1 && s[0] == '0') {
        match bounded_number(s, 10, 255) {
            Some(n) => Some(n as u8),
            None => None,
        }
    } else {
        None
    }
}

/// One group of an IPv6 address: one to four hexadecimal digits.
pub open spec fn hex_group(s: Seq<char>) -> Option<u16> {
    if s.len() <= 4 {
        match bounded_number(s, 16, 0xffff) {
            Some(n) => Some(n as u16),
            None => None,
        }
    } else {
        None
    }
}

/// The IPv4 address that `s` spells, if it spells one.
pub open spec fn ipv4_value(s: Seq<char>) -> Option<u32> {
    let f = fields(s, '.');
    if f.len() == 4 && dec_octet(f[0]) is Some && dec_octet(f[1]) is Some && dec_octet(
        f[2],
    ) is Some && dec_octet(f[3]) is Some {
        Some(
            (((dec_octet(f[0])->0 as int * 256 + dec_octet(f[1])->0 as int) * 256 + dec_octet(
                f[2],
            )->0 as int) * 256 + dec_octet(f[3])->0 as int) as u32,
        )
    } else {
        None
    }
}

/// The groups that the fields spell, if each of them spells one.
pub open spec fn hex_groups(fs: Seq<Seq<char>>) -> Option<Seq<u16>> {
    if forall|i: int| 0 <= i < fs.len() ==> hex_group(#[trigger] fs[i]) is Some {
        Some(fs.map_values(|f: Seq<char>| hex_group(f)->0))
    } else {
        None
    }
}

/// The two groups that hold an IPv4 address.
pub open spec fn v4_groups(v4: u32) -> Seq<u16> {
    seq![(v4 / 65536) as u16, (v4 % 65536) as u16]
}

/// The groups that a stretch of an IPv6 address spells: none for an empty
/// stretch, else one for each of its fields between colons. Where
/// `v4_last` holds, the last field may be an IPv4 address and then gives
/// two groups.
pub open spec fn groups_of(s: Seq<char>, v4_last: bool) -> Option<Seq<u16>> {
    let fs = fields(s, ':');
    if s.len() == 0 {
        Some(Seq::empty())
    } else if v4_last && ipv4_value(fs.last()) is Some {
        match hex_groups(fs.drop_last()) {
            Some(groups) => Some(groups + v4_groups(ipv4_value(fs.last())->0)),
            None => None,
        }
    } else {
        hex_groups(fs)
    }
}

/// The position of the first two colons in a row in `s` at or after `from`,
/// or the length of `s` if there are none.
pub open spec fn first_gap_from(s: Seq<char>, from: int) -> int
    decreases s.len() - from,
{
    if from < 0 || from + 1 >= s.len() {
        s.len() as int
    } else if s[from] == ':' && s[from + 1] == ':' {
        from
    } else {
        first_gap_from(s, from + 1)
    }
}

/// A run of `n` zero groups.
pub open spec fn zero_groups(n: int) -> Seq<u16> {
    Seq::new(n as nat, |i: int| 0u16)
}

/// The eight groups of the IPv6 address that `s` spells, if it spells one.
///
/// Without two colons in a row, `s` must spell all eight groups. With them,
/// what stands before them spells the first groups, what stands after them
/// spells the last groups, there are at most seven of both together, and
/// all groups between them are zero.
pub open spec fn ipv6_groups(s: Seq<char>) -> Option<Seq<u16>> {
    let gap = first_gap_from(s, 0);
    if gap >= s.len() {
        match groups_of(s, true) {
            Some(groups) => if groups.len() == 8 {
                Some(groups)
            } else {
                None
            },
            None => None,
        }
    } else {
        match (groups_of(s.subrange(0, gap), false), groups_of(
            s.subrange(gap + 2, s.len() as int),
            true,
        )) {
            (Some(head), Some(tail)) => if head.len() + tail.len() <= 7 {
                Some(head + zero_groups(8 - head.len() - tail.len()) + tail)
            } else {
                None
            },
            _ => None,
        }
    }
}

/// The 128 bits that eight groups make up, the first group being the
/// highest.
pub open spec fn groups_value(g: Seq<u16>) -> int {
    ((((((g[0] as int * 65536 + g[1] as int) * 65536 + g[2] as int) * 65536 + g[3] as int) * 65536
        + g[4] as int) * 65536 + g[5] as int) * 65536 + g[6] as int) * 65536 + g[7] as int
}

/// The IPv6 address that `s` spells, if it spells one.
pub open spec fn ipv6_value(s: Seq<char>) -> Option<u128> {
    match ipv6_groups(s) {
        Some(groups) => Some(groups_value(groups) as u128),
        None => None,
    }
}

/// The IP address that `s` spells, if it spells one.
pub open spec fn ip_address(s: Seq<char>) -> Option<IpAddress> {
    match ipv4_value(s) {
        Some(v4) => Some(IpAddress::V4(v4)),
        None => match ipv6_value(s) {
            Some(v6) => Some(IpAddress::V6(v6)),
            None => None,
        },
    }
}

/// Reads one number of an IPv4 address.
pub fn parse_dec_octet(v: &Vec<char>) -> (octet: Option<u8>)
    ensures
        octet == dec_octet(v@),
{
    if v.len() > 3 || (v.len() > 1 && v[0] == '0') {
        return None;
    }
    match read_number(v, 10, 255) {
        Some(n) => Some(n as u8),
        None => None,
    }
}

/// Reads one group of an IPv6 address.
pub fn parse_hex_group(v: &Vec<char>) -> (group: Option<u16>)
    ensures
        group == hex_group(v@),
{
    if v.len() > 4 {
        return None;
    }
    match read_number(v, 16, 0xffff) {
        Some(n) => Some(n as u16),
        None => None,
    }
}

/// Reads an IPv4 address.
pub fn parse_ipv4(v: &Vec<char>) -> (addr: Option<u32>)
    ensures
        addr == ipv4_value(v@),
{
    let parts: Vec<Vec<char>> = split(v, '.');
    if parts.len() != 4 {
        return None;
    }
    let a: u8 = match parse_dec_octet(&parts[0]) {
        Some(a) => a,
        None => { return None; },
    };
    let b: u8 = match parse_dec_octet(&parts[1]) {
        Some(b) => b,
        None => { return None; },
    };
    let c: u8 = match parse_dec_octet(&parts[2]) {
        Some(c) => c,
        None => { return None; },
    };
    let d: u8 = match parse_dec_octet(&parts[3]) {
        Some(d) => d,
        None => { return None; },
    };
    Some((((a as u32) * 256 + (b as u32)) * 256 + (c as u32)) * 256 + (d as u32))
}

/// Reads the groups of a stretch of an IPv6 address.
pub fn parse_groups(v: &Vec<char>, v4_last: bool) -> (groups: Option<Vec<u16>>)
    ensures
        groups is Some <==> groups_of(v@, v4_last) is Some,
        groups matches Some(g) ==> Some(g@) == groups_of(v@, v4_last),
{
    if v.len() == 0 {
        return Some(Vec::new());
    }
    let parts: Vec<Vec<char>> = split(v, ':');
    let ghost fs = fields(v@, ':');
    proof {
        lemma_fields_nonempty(v@, ':', 0);
    }
    let count: usize = parts.len();
    let v4: Option<u32> = if v4_last {
        parse_ipv4(&parts[count - 1])
    } else {
        None
    };
    let hex_count: usize = if v4.is_some() {
        count - 1
    } else {
        count
    };
    let ghost hex_fields = if v4 is Some {
        fs.drop_last()
    } else {
        fs
    };
    let mut groups: Vec<u16> = Vec::new();
    let mut i: usize = 0;
    while i < hex_count
        invariant
            i <= hex_count <= parts@.len(),
            hex_fields.len() == hex_count,
            fs == views(parts@),
            fs == fields(v@, ':'),
            v@.len() > 0,
            v4 == if v4_last { ipv4_value(fs.last()) } else { None },
            hex_fields == if v4 is Some { fs.drop_last() } else { fs },
            forall|j: int| 0 <= j < hex_count ==> hex_fields[j] == fs[j],
            groups@.len() == i,
            forall|j: int| 0 <= j < i ==> hex_group(#[trigger] hex_fields[j]) == Some(groups@[j]),
        decreases hex_count - i,
    {
        match parse_hex_group(&parts[i]) {
            Some(group) => groups.push(group),
            None => {
                assert(hex_group(hex_fields[i as int]) is None);
                return None;
            },
        }
        i += 1;
    }
    assert(hex_groups(hex_fields) == Some(groups@));
    match v4 {
        Some(v4) => {
            groups.push((v4 / 65536) as u16);
            groups.push((v4 % 65536) as u16);
        },
        None => {},
    }
    Some(groups)
}

/// Finds the first two colons in a row in `v`.
pub fn find_gap(v: &Vec<char>) -> (at: usize)
    ensures
        at == first_gap_from(v@, 0),
        at <= v@.len(),
        at < v@.len() ==> at + 2 <= v@.len(),
{
    let mut i: usize = 0;
    while v.len() - i >= 2 && !(v[i] == ':' && v[i + 1] == ':')
        invariant
            i <= v@.len(),
            first_gap_from(v@, 0) == first_gap_from(v@, i as int),
        decreases v@.len() - i,
    {
        i += 1;
    }
    if v.len() - i < 2 {
        v.len()
    } else {
        i
    }
}

/// Puts eight groups together to the 128 bits of an address.
pub fn join_groups(g: &Vec<u16>) -> (bits: u128)
    requires
        g@.len() == 8,
    ensures
        bits == groups_value(g@),
{
    let a: u128 = (g[0] as u128) * 65536 + (g[1] as u128);
    let b: u128 = a * 65536 + (g[2] as u128);
    let c: u128 = b * 65536 + (g[3] as u128);
    let d: u128 = c * 65536 + (g[4] as u128);
    let e: u128 = d * 65536 + (g[5] as u128);
    let f: u128 = e * 65536 + (g[6] as u128);
    f * 65536 + (g[7] as u128)
}

/// Reads an IPv6 address.
pub fn parse_ipv6(v: &Vec<char>) -> (addr: Option<u128>)
    ensures
        addr == ipv6_value(v@),
{
    let gap: usize = find_gap(v);
    if gap >= v.len() {
        return match parse_groups(v, true) {
            Some(groups) => if groups.len() == 8 {
                Some(join_groups(&groups))
            } else {
                None
            },
            None => None,
        };
    }
    let head_text: Vec<char> = copy_range(v, 0, gap);
    let tail_text: Vec<char> = copy_range(v, gap + 2, v.len());
    let mut groups: Vec<u16> = match parse_groups(&head_text, false) {
        Some(head) => head,
        None => { return None; },
    };
    let tail: Vec<u16> = match parse_groups(&tail_text, true) {
        Some(tail) => tail,
        None => { return None; },
    };
    if groups.len() > 7 || tail.len() > 7 - groups.len() {
        return None;
    }
    let ghost head = groups@;
    let zeros: usize = 8 - groups.len() - tail.len();
    let mut i: usize = 0;
    while i < zeros
        invariant
            i <= zeros,
            zeros + head.len() + tail@.len() == 8,
            groups@ == head + zero_groups(i as int),
        decreases zeros - i,
    {
        groups.push(0);
        i += 1;
    }
    let mut j: usize = 0;
    while j < tail.len()
        invariant
            j <= tail@.len(),
            zeros + head.len() + tail@.len() == 8,
            groups@ == head + zero_groups(zeros as int) + tail@.subrange(0, j as int),
        decreases tail@.len() - j,
    {
        groups.push(tail[j]);
        j += 1;
    }
    Some(join_groups(&groups))
}

/// Reads an IP address of either kind.
pub fn parse_ip_address(v: &Vec<char>) -> (addr: Option<IpAddress>)
    ensures
        addr == ip_address(v@),
{
    match parse_ipv4(v) {
        Some(v4) => Some(IpAddress::V4(v4)),
        None => match parse_ipv6(v) {
            Some(v6) => Some(IpAddress::V6(v6)),
            None => None,
        },
    }
}

} // verus!
