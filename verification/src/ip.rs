//! IP addresses written as text.
//!
//! An IPv4 address is four decimal numbers up to 255, with dots between them
//! and without leading zeros. An IPv6 address is up to eight groups of one to
//! four hexadecimal digits with colons between them; one `::` may stand for
//! one or more groups of zero, and an IPv4 address may stand for the last two
//! groups.

use vstd::prelude::*;
use crate::digits::{
    decimal_value, digits_end, hex_digit_value, hex_end, hex_value, is_digit, is_hex_digit,
    lemma_digits_end_from, lemma_hex_end_from,
};

verus! {

/// The index behind the byte `byte` at `at`, where that byte stands there.
pub open spec fn after_byte(text: Seq<u8>, at: int, byte: u8) -> Option<int> {
    if 0 <= at < text.len() && text[at] == byte {
        Some(at + 1)
    } else {
        None
    }
}

/// The number up to 255 that is written at `from`, and the index behind it.
/// All digits at `from` belong to the number: there are one to three, and the
/// first is no zero unless it is the only one.
pub open spec fn octet_at(text: Seq<u8>, from: int) -> Option<(u8, int)> {
    let end = digits_end(text, from);
    let value = decimal_value(text.subrange(from, end));
    if 0 <= from < end && end - from <= 3 && (end - from == 1 || text[from] != 0x30) && value
        <= 255 {
        Some((value as u8, end))
    } else {
        None
    }
}

/// The number that is written behind a dot at `from`, and the index behind it.
pub open spec fn dotted_octet_at(text: Seq<u8>, from: int) -> Option<(u8, int)> {
    match after_byte(text, from, '.' as u8) {
        Some(start) => octet_at(text, start),
        None => None,
    }
}

/// The four bytes of the IPv4 address that is written at `from`, and the
/// index behind it.
pub open spec fn ipv4_at(text: Seq<u8>, from: int) -> Option<(Seq<u8>, int)> {
    match octet_at(text, from) {
        Some((a, behind_a)) => match dotted_octet_at(text, behind_a) {
            Some((b, behind_b)) => match dotted_octet_at(text, behind_b) {
                Some((c, behind_c)) => match dotted_octet_at(text, behind_c) {
                    Some((d, end)) => Some((seq![a, b, c, d], end)),
                    None => None,
                },
                None => None,
            },
            None => None,
        },
        None => None,
    }
}

/// The four bytes of the IPv4 address that `text` writes.
pub open spec fn ipv4_spec(text: Seq<u8>) -> Option<Seq<u8>> {
    match ipv4_at(text, 0) {
        Some((octets, end)) => if end == text.len() {
            Some(octets)
        } else {
            None
        },
        None => None,
    }
}

/// The group of an IPv6 address that is written at `from`, and the index
/// behind it. All hexadecimal digits at `from` belong to the group: there
/// are one to four.
pub open spec fn group_at(text: Seq<u8>, from: int) -> Option<(u16, int)> {
    let end = hex_end(text, from);
    if 0 <= from < end && end - from <= 4 {
        Some((hex_value(text.subrange(from, end)) as u16, end))
    } else {
        None
    }
}

/// The group that two bytes make, the first being the higher.
pub open spec fn group_of(high: u8, low: u8) -> u16 {
    (high * 256 + low) as u16
}

/// Groups of an IPv6 address that were read from a text.
pub struct Groups {
    /// The groups, in their order.
    pub groups: Seq<u16>,
    /// The index behind the last of them.
    pub end: int,
    /// Whether the last two were written as an IPv4 address.
    pub ipv4: bool,
}

/// The groups that are written at `from`, for the places from `index` up to
/// `limit`. Behind the first place each group follows a colon. Where two
/// places or more are left, an IPv4 address is read for two groups, and ends
/// the reading. The reading also ends where no group follows.
pub open spec fn groups_at(text: Seq<u8>, from: int, index: nat, limit: nat) -> Groups
    decreases limit - index,
{
    if index >= limit {
        Groups { groups: Seq::empty(), end: from, ipv4: false }
    } else {
        let start = if index == 0 {
            Some(from)
        } else {
            after_byte(text, from, ':' as u8)
        };
        let dotted = if index + 1 < limit && start is Some {
            ipv4_at(text, start.unwrap())
        } else {
            None
        };
        let group = if start is Some {
            group_at(text, start.unwrap())
        } else {
            None
        };
        if let Some((octets, end)) = dotted {
            Groups {
                groups: seq![group_of(octets[0], octets[1]), group_of(octets[2], octets[3])],
                end,
                ipv4: true,
            }
        } else if let Some((value, next)) = group {
            let rest = groups_at(text, next, index + 1, limit);
            Groups { groups: seq![value] + rest.groups, end: rest.end, ipv4: rest.ipv4 }
        } else {
            Groups { groups: Seq::empty(), end: from, ipv4: false }
        }
    }
}

/// As many groups of zero as `count` says.
pub open spec fn zero_groups(count: int) -> Seq<u16> {
    Seq::new(count as nat, |i: int| 0u16)
}

/// The eight groups of the IPv6 address that `text` writes: either all
/// eight are written, or some are written, then `::`, then fewer than are
/// missing, and the groups between are zero. No IPv4 address stands before `::`.
pub open spec fn ipv6_groups_spec(text: Seq<u8>) -> Option<Seq<u16>> {
    let head = groups_at(text, 0, 0, 8);
    if head.groups.len() == 8 {
        if head.end == text.len() {
            Some(head.groups)
        } else {
            None
        }
    } else if head.ipv4 || head.groups.len() > 7 {
        None
    } else {
        match after_byte(text, head.end, ':' as u8) {
            Some(colon) => match after_byte(text, colon, ':' as u8) {
                Some(start) => {
                    let tail = groups_at(text, start, 0, (7 - head.groups.len()) as nat);
                    if tail.end == text.len() && head.groups.len() + tail.groups.len() <= 7 {
                        Some(
                            head.groups + zero_groups(8 - head.groups.len() - tail.groups.len())
                                + tail.groups,
                        )
                    } else {
                        None
                    }
                },
                None => None,
            },
            None => None,
        }
    }
}

/// The bytes of `groups`: of each group the higher byte, then the lower.
pub open spec fn group_octets(groups: Seq<u16>) -> Seq<u8> {
    Seq::new(
        2 * groups.len(),
        |i: int|
            if i % 2 == 0 {
                (groups[i / 2] / 256) as u8
            } else {
                (groups[i / 2] % 256) as u8
            },
    )
}

/// The bytes of the IP address that `text` writes: four of an IPv4 address,
/// or else sixteen of an IPv6 address.
pub open spec fn ip_spec(text: Seq<u8>) -> Option<Seq<u8>> {
    match ipv4_spec(text) {
        Some(octets) => Some(octets),
        None => match ipv6_groups_spec(text) {
            Some(groups) => Some(group_octets(groups)),
            None => None,
        },
    }
}

/// Reads the number up to 255 at `from`.
fn read_octet(text: &[u8], from: usize) -> (r: Option<(u8, usize)>)
    requires
        from <= text@.len(),
    ensures
        match r {
            Some((value, end)) => octet_at(text@, from as int) == Some((value, end as int))
                && from < end <= text@.len(),
            None => octet_at(text@, from as int) is None,
        },
{
    let mut value: u16 = 0;
    let mut i: usize = from;
    proof {
        lemma_digits_end_from(text@, from as int, from as int);
    }
    while i < text.len() && text[i] >= 0x30 && text[i] <= 0x39
        invariant
            from <= i <= text@.len(),
            i - from <= 3,
            forall|j: int| from <= j < i ==> is_digit(#[trigger] text@[j]),
            value == decimal_value(text@.subrange(from as int, i as int)),
            i - from == 0 ==> value == 0,
            i - from == 1 ==> value <= 9,
            i - from == 2 ==> value <= 99,
            i - from == 3 ==> value <= 999,
        decreases text@.len() - i,
    {
        proof {
            lemma_digits_end_from(text@, from as int, i as int + 1);
            assert(text@.subrange(from as int, i as int + 1).drop_last() =~= text@.subrange(
                from as int,
                i as int,
            ));
        }
        if i - from == 3 {
            return None;
        }
        value = value * 10 + (text[i] - 0x30) as u16;
        i += 1;
    }
    proof {
        lemma_digits_end_from(text@, from as int, i as int);
    }
    if i == from || (i - from > 1 && text[from] == 0x30) || value > 255 {
        None
    } else {
        Some((value as u8, i))
    }
}

/// Reads a dot and the number up to 255 behind it.
fn read_dotted_octet(text: &[u8], from: usize) -> (r: Option<(u8, usize)>)
    requires
        from <= text@.len(),
    ensures
        match r {
            Some((value, end)) => dotted_octet_at(text@, from as int) == Some((value, end as int))
                && from < end <= text@.len(),
            None => dotted_octet_at(text@, from as int) is None,
        },
{
    if from < text.len() && text[from] == '.' as u8 {
        read_octet(text, from + 1)
    } else {
        None
    }
}

/// Reads the IPv4 address at `from`.
fn read_ipv4(text: &[u8], from: usize) -> (r: Option<([u8; 4], usize)>)
    requires
        from <= text@.len(),
    ensures
        match r {
            Some((octets, end)) => ipv4_at(text@, from as int) == Some((octets@, end as int))
                && from < end <= text@.len(),
            None => ipv4_at(text@, from as int) is None,
        },
{
    let (a, behind_a) = read_octet(text, from)?;
    let (b, behind_b) = read_dotted_octet(text, behind_a)?;
    let (c, behind_c) = read_dotted_octet(text, behind_b)?;
    let (d, end) = read_dotted_octet(text, behind_c)?;
    let octets = [a, b, c, d];
    assert(octets@ =~= seq![a, b, c, d]);
    Some((octets, end))
}

/// The number of the hexadecimal digit `byte`, where it is one.
fn hex_digit(byte: u8) -> (r: Option<u16>)
    ensures
        match r {
            Some(value) => is_hex_digit(byte) && value == hex_digit_value(byte),
            None => !is_hex_digit(byte),
        },
{
    if byte >= 0x30 && byte <= 0x39 {
        Some((byte - 0x30) as u16)
    } else if byte >= 0x61 && byte <= 0x66 {
        Some((byte - 0x61 + 10) as u16)
    } else if byte >= 0x41 && byte <= 0x46 {
        Some((byte - 0x41 + 10) as u16)
    } else {
        None
    }
}

/// Reads the group of an IPv6 address at `from`.
fn read_group(text: &[u8], from: usize) -> (r: Option<(u16, usize)>)
    requires
        from <= text@.len(),
    ensures
        match r {
            Some((value, end)) => group_at(text@, from as int) == Some((value, end as int))
                && from < end <= text@.len(),
            None => group_at(text@, from as int) is None,
        },
{
    let mut value: u16 = 0;
    let mut i: usize = from;
    proof {
        lemma_hex_end_from(text@, from as int, from as int);
    }
    let mut done = false;
    while !done && i < text.len()
        invariant
            from <= i <= text@.len(),
            i - from <= 4,
            forall|j: int| from <= j < i ==> is_hex_digit(#[trigger] text@[j]),
            value == hex_value(text@.subrange(from as int, i as int)),
            i - from == 0 ==> value == 0,
            i - from == 1 ==> value <= 0xf,
            i - from == 2 ==> value <= 0xff,
            i - from == 3 ==> value <= 0xfff,
            done ==> i < text@.len() && !is_hex_digit(text@[i as int]),
        decreases text@.len() - i + if done { 0int } else { 1int },
    {
        match hex_digit(text[i]) {
            Some(digit) => {
                proof {
                    lemma_hex_end_from(text@, from as int, i as int + 1);
                    assert(text@.subrange(from as int, i as int + 1).drop_last()
                        =~= text@.subrange(from as int, i as int));
                }
                if i - from == 4 {
                    return None;
                }
                value = value * 16 + digit;
                i += 1;
            },
            None => {
                done = true;
            },
        }
    }
    proof {
        lemma_hex_end_from(text@, from as int, i as int);
    }
    if i == from {
        None
    } else {
        Some((value, i))
    }
}

/// Reads up to `limit` groups of an IPv6 address at `from`.
fn read_groups(text: &[u8], from: usize, limit: usize) -> (r: (Vec<u16>, usize, bool))
    requires
        from <= text@.len(),
        limit <= 8,
    ensures
        groups_at(text@, from as int, 0, limit as nat) == (Groups {
            groups: r.0@,
            end: r.1 as int,
            ipv4: r.2,
        }),
        r.0@.len() <= limit,
        from <= r.1 <= text@.len(),
{
    let ghost all = groups_at(text@, from as int, 0, limit as nat);
    let mut groups: Vec<u16> = Vec::new();
    let mut at: usize = from;
    let mut index: usize = 0;
    while index < limit
        invariant
            index <= limit <= 8,
            groups@.len() == index,
            all == groups_at(text@, from as int, 0, limit as nat),
            from <= at <= text@.len(),
            all.groups == groups@ + groups_at(text@, at as int, index as nat, limit as nat).groups,
            all.end == groups_at(text@, at as int, index as nat, limit as nat).end,
            all.ipv4 == groups_at(text@, at as int, index as nat, limit as nat).ipv4,
        decreases limit - index,
    {
        let ghost here = groups_at(text@, at as int, index as nat, limit as nat);
        let start = if index == 0 {
            at
        } else if at < text.len() && text[at] == ':' as u8 {
            at + 1
        } else {
            assert(all.groups =~= groups@);
            return (groups, at, false);
        };
        if index + 1 < limit {
            if let Some((octets, end)) = read_ipv4(text, start) {
                groups.push(octets[0] as u16 * 256 + octets[1] as u16);
                groups.push(octets[2] as u16 * 256 + octets[3] as u16);
                assert(all.groups =~= groups@);
                return (groups, end, true);
            }
        }
        match read_group(text, start) {
            Some((value, next)) => {
                let ghost rest = groups_at(text@, next as int, (index + 1) as nat, limit as nat);
                assert(here.groups == seq![value] + rest.groups);
                assert(groups@.push(value) + rest.groups =~= groups@ + (seq![value] + rest.groups));
                groups.push(value);
                at = next;
                index += 1;
            },
            None => {
                assert(all.groups =~= groups@);
                return (groups, at, false);
            },
        }
    }
    assert(all.groups =~= groups@);
    (groups, at, false)
}

/// Reads the IPv4 address that `text` writes.
pub fn parse_ipv4(text: &[u8]) -> (r: Option<[u8; 4]>)
    ensures
        match r {
            Some(octets) => ipv4_spec(text@) == Some(octets@),
            None => ipv4_spec(text@) is None,
        },
{
    match read_ipv4(text, 0) {
        Some((octets, end)) => if end == text.len() {
            Some(octets)
        } else {
            None
        },
        None => None,
    }
}

/// The sixteen bytes of eight groups.
fn octets_of(groups: &Vec<u16>) -> (octets: [u8; 16])
    requires
        groups@.len() == 8,
    ensures
        octets@ == group_octets(groups@),
{
    let octets = [
        (groups[0] / 256) as u8,
        (groups[0] % 256) as u8,
        (groups[1] / 256) as u8,
        (groups[1] % 256) as u8,
        (groups[2] / 256) as u8,
        (groups[2] % 256) as u8,
        (groups[3] / 256) as u8,
        (groups[3] % 256) as u8,
        (groups[4] / 256) as u8,
        (groups[4] % 256) as u8,
        (groups[5] / 256) as u8,
        (groups[5] % 256) as u8,
        (groups[6] / 256) as u8,
        (groups[6] % 256) as u8,
        (groups[7] / 256) as u8,
        (groups[7] % 256) as u8,
    ];
    assert(octets@ =~= group_octets(groups@));
    octets
}

/// Reads the IPv6 address that `text` writes.
pub fn parse_ipv6(text: &[u8]) -> (r: Option<[u8; 16]>)
    ensures
        match r {
            Some(octets) => ipv6_groups_spec(text@) is Some && octets@ == group_octets(
                ipv6_groups_spec(text@).unwrap(),
            ),
            None => ipv6_groups_spec(text@) is None,
        },
{
    let (head, head_end, head_ipv4) = read_groups(text, 0, 8);
    if head.len() == 8 {
        if head_end == text.len() {
            return Some(octets_of(&head));
        } else {
            return None;
        }
    }
    if head_ipv4 {
        return None;
    }
    if !(head_end < text.len() && text[head_end] == ':' as u8) {
        return None;
    }
    if !(head_end + 1 < text.len() && text[head_end + 1] == ':' as u8) {
        return None;
    }
    let (tail, tail_end, _) = read_groups(text, head_end + 2, 7 - head.len());
    if tail_end != text.len() {
        return None;
    }
    let mut groups = head;
    let mut missing = 8 - groups.len() - tail.len();
    let ghost head_groups = groups@;
    while missing > 0
        invariant
            groups@ =~= head_groups + zero_groups(
                8 - head_groups.len() - tail@.len() - missing as int,
            ),
            head_groups.len() + tail@.len() + missing <= 8,
        decreases missing,
    {
        groups.push(0);
        missing -= 1;
    }
    let mut i: usize = 0;
    while i < tail.len()
        invariant
            i <= tail@.len(),
            head_groups.len() + tail@.len() <= 8,
            groups@ =~= head_groups + zero_groups(8 - head_groups.len() - tail@.len())
                + tail@.subrange(0, i as int),
        decreases tail@.len() - i,
    {
        groups.push(tail[i]);
        i += 1;
    }
    assert(tail@.subrange(0, tail@.len() as int) =~= tail@);
    Some(octets_of(&groups))
}

} // verus!
