//! IP addresses as text.
//!
//! An IPv4 address is written as four decimal numbers with dots between
//! them. An IPv6 address is written as eight groups of hexadecimal digits, in
//! lower case and without leading zeros, with colons between them; the first
//! of its longest runs of two or more groups of zero is written as `::`. An
//! IPv6 address that holds an IPv4 address behind five groups of zero and one
//! of `ffff` is written as `::ffff:` and that IPv4 address.

use vstd::prelude::*;
use vstd::string::StringExecFns;
use crate::ip::group_of;

verus! {

/// The digit for `value`, which is below 16.
pub open spec fn digit_text(value: int) -> Seq<char> {
    if value == 0 {
        "0"@
    } else if value == 1 {
        "1"@
    } else if value == 2 {
        "2"@
    } else if value == 3 {
        "3"@
    } else if value == 4 {
        "4"@
    } else if value == 5 {
        "5"@
    } else if value == 6 {
        "6"@
    } else if value == 7 {
        "7"@
    } else if value == 8 {
        "8"@
    } else if value == 9 {
        "9"@
    } else if value == 10 {
        "a"@
    } else if value == 11 {
        "b"@
    } else if value == 12 {
        "c"@
    } else if value == 13 {
        "d"@
    } else if value == 14 {
        "e"@
    } else {
        "f"@
    }
}

/// `value` in decimal digits, without leading zeros.
pub open spec fn decimal_text(value: nat) -> Seq<char>
    decreases value,
{
    if value < 10 {
        digit_text(value as int)
    } else {
        decimal_text(value / 10) + digit_text((value % 10) as int)
    }
}

/// `value` in hexadecimal digits, in lower case and without leading zeros.
pub open spec fn hex_text(value: nat) -> Seq<char>
    decreases value,
{
    if value < 16 {
        digit_text(value as int)
    } else {
        hex_text(value / 16) + digit_text((value % 16) as int)
    }
}

/// The four bytes `octets` as an IPv4 address.
pub open spec fn ipv4_text(octets: Seq<u8>) -> Seq<char> {
    decimal_text(octets[0] as nat) + "."@ + decimal_text(octets[1] as nat) + "."@ + decimal_text(
        octets[2] as nat,
    ) + "."@ + decimal_text(octets[3] as nat)
}

/// `groups` in hexadecimal, with colons between them.
pub open spec fn groups_text(groups: Seq<u16>) -> Seq<char>
    decreases groups.len(),
{
    if groups.len() == 0 {
        Seq::empty()
    } else if groups.len() == 1 {
        hex_text(groups[0] as nat)
    } else {
        groups_text(groups.drop_last()) + ":"@ + hex_text(groups.last() as nat)
    }
}

/// Whether `groups` holds `len` groups of zero from `start` on.
pub open spec fn is_zero_run(groups: Seq<u16>, start: int, len: int) -> bool {
    &&& 0 <= start
    &&& 0 <= len
    &&& start + len <= groups.len()
    &&& forall|i: int| start <= i < start + len ==> groups[i] == 0
}

/// Whether the run of `len` groups from `start` on is the first of the
/// longest runs of zero in `groups`.
pub open spec fn is_longest_zero_run(groups: Seq<u16>, start: int, len: int) -> bool {
    &&& is_zero_run(groups, start, len)
    &&& forall|s: int, l: int| #[trigger] is_zero_run(groups, s, l) ==> l <= len
    &&& forall|s: int| #[trigger] is_zero_run(groups, s, len) ==> start <= s
}

/// Whether the eight `groups` hold an IPv4 address behind five groups of
/// zero and one of `ffff`.
pub open spec fn is_ipv4_mapped(groups: Seq<u16>) -> bool {
    &&& groups[0] == 0
    &&& groups[1] == 0
    &&& groups[2] == 0
    &&& groups[3] == 0
    &&& groups[4] == 0
    &&& groups[5] == 0xffff
}

/// The groups that `octets` make: two bytes each, the first being the higher.
pub open spec fn octet_groups(octets: Seq<u8>) -> Seq<u16> {
    Seq::new(octets.len() / 2, |i: int| group_of(octets[2 * i], octets[2 * i + 1]))
}

/// The sixteen bytes `octets` as an IPv6 address.
pub open spec fn ipv6_text(octets: Seq<u8>) -> Seq<char> {
    let groups = octet_groups(octets);
    if is_ipv4_mapped(groups) {
        "::ffff:"@ + ipv4_text(octets.subrange(12, 16))
    } else {
        let (start, len) = choose|start: int, len: int| is_longest_zero_run(groups, start, len);
        if len > 1 {
            groups_text(groups.subrange(0, start)) + "::"@ + groups_text(
                groups.subrange(start + len, 8),
            )
        } else {
            groups_text(groups)
        }
    }
}

/// The digit for `value`.
fn digit(value: u16) -> (text: &'static str)
    requires
        value < 16,
    ensures
        text@ == digit_text(value as int),
{
    if value == 0 {
        "0"
    } else if value == 1 {
        "1"
    } else if value == 2 {
        "2"
    } else if value == 3 {
        "3"
    } else if value == 4 {
        "4"
    } else if value == 5 {
        "5"
    } else if value == 6 {
        "6"
    } else if value == 7 {
        "7"
    } else if value == 8 {
        "8"
    } else if value == 9 {
        "9"
    } else if value == 10 {
        "a"
    } else if value == 11 {
        "b"
    } else if value == 12 {
        "c"
    } else if value == 13 {
        "d"
    } else if value == 14 {
        "e"
    } else {
        "f"
    }
}

/// Adds `value` in decimal to `text`.
fn push_decimal(text: String, value: u8) -> (longer: String)
    ensures
        longer@ == text@ + decimal_text(value as nat),
{
    reveal_with_fuel(decimal_text, 3);
    let value = value as u16;
    let mut longer = text;
    if value >= 100 {
        longer = longer.concat(digit(value / 100));
    }
    if value >= 10 {
        longer = longer.concat(digit((value / 10) % 10));
    }
    longer = longer.concat(digit(value % 10));
    assert(longer@ =~= text@ + decimal_text(value as nat));
    longer
}

/// Adds `value` in hexadecimal to `text`.
fn push_hex(text: String, value: u16) -> (longer: String)
    ensures
        longer@ == text@ + hex_text(value as nat),
{
    reveal_with_fuel(hex_text, 4);
    let mut longer = text;
    if value >= 0x1000 {
        longer = longer.concat(digit(value / 0x1000));
    }
    if value >= 0x100 {
        longer = longer.concat(digit((value / 0x100) % 16));
    }
    if value >= 0x10 {
        longer = longer.concat(digit((value / 0x10) % 16));
    }
    longer = longer.concat(digit(value % 16));
    assert(longer@ =~= text@ + hex_text(value as nat));
    longer
}

/// Writes four bytes as an IPv4 address behind `text`.
fn push_ipv4(text: String, a: u8, b: u8, c: u8, d: u8) -> (longer: String)
    ensures
        longer@ == text@ + ipv4_text(seq![a, b, c, d]),
{
    let longer = push_decimal(text, a);
    let longer = longer.concat(".");
    let longer = push_decimal(longer, b);
    let longer = longer.concat(".");
    let longer = push_decimal(longer, c);
    let longer = longer.concat(".");
    let longer = push_decimal(longer, d);
    assert(longer@ =~= text@ + ipv4_text(seq![a, b, c, d]));
    longer
}

/// Writes four bytes as an IPv4 address.
pub fn format_ipv4(octets: &[u8; 4]) -> (text: String)
    ensures
        text@ == ipv4_text(octets@),
{
    let text = push_ipv4(String::new(), octets[0], octets[1], octets[2], octets[3]);
    assert(octets@ =~= seq![octets[0], octets[1], octets[2], octets[3]]);
    assert(text@ =~= ipv4_text(octets@));
    text
}

/// Writes the groups of `groups` from `from` up to `to` behind `text`, with
/// colons between them.
fn push_groups(text: String, groups: &[u16; 8], from: usize, to: usize) -> (longer: String)
    requires
        from <= to <= 8,
    ensures
        longer@ == text@ + groups_text(groups@.subrange(from as int, to as int)),
{
    let mut longer = text;
    let mut i = from;
    assert(groups@.subrange(from as int, from as int) =~= Seq::<u16>::empty());
    while i < to
        invariant
            from <= i <= to <= 8,
            longer@ == text@ + groups_text(groups@.subrange(from as int, i as int)),
        decreases to - i,
    {
        let ghost before = groups@.subrange(from as int, i as int);
        let ghost after = groups@.subrange(from as int, i as int + 1);
        assert(after.drop_last() =~= before);
        assert(after.last() == groups@[i as int]);
        if i > from {
            longer = longer.concat(":");
        }
        longer = push_hex(longer, groups[i]);
        assert(longer@ =~= text@ + groups_text(after));
        i += 1;
    }
    longer
}

/// Finds the first of the longest runs of zero in `groups`.
fn longest_zero_run(groups: &[u16; 8]) -> (run: (usize, usize))
    ensures
        is_longest_zero_run(groups@, run.0 as int, run.1 as int),
        run.0 + run.1 <= 8,
{
    let mut start: usize = 0;
    let mut len: usize = 0;
    let mut current: usize = 0;
    let mut i: usize = 0;
    while i < 8
        invariant
            i <= 8,
            groups@.len() == 8,
            start + len <= i,
            current <= i,
            is_zero_run(groups@, start as int, len as int),
            is_zero_run(groups@, i - current, current as int),
            i - current > 0 ==> groups@[i - current - 1] != 0,
            forall|s: int, l: int| #[trigger] is_zero_run(groups@, s, l) && s + l <= i ==> l <= len,
            forall|s: int|
                #[trigger] is_zero_run(groups@, s, len as int) && s + len <= i ==> start <= s,
        decreases 8 - i,
    {
        if groups[i] == 0 {
            current += 1;
            assert forall|s: int, l: int| #[trigger]
                is_zero_run(groups@, s, l) && s + l == i + 1 implies l <= current by {
                if s < i + 1 - current {
                    assert(groups@[i + 1 - current - 1] == 0);
                }
            }
            if current > len {
                assert forall|s: int| #[trigger]
                    is_zero_run(groups@, s, current as int) && s + current <= i + 1 implies i + 1
                    - current <= s by {
                    if s + current <= i {
                        assert(is_zero_run(groups@, s, current as int));
                    }
                }
                start = i + 1 - current;
                len = current;
            }
        } else {
            current = 0;
            assert forall|s: int, l: int| #[trigger]
                is_zero_run(groups@, s, l) && s + l == i + 1 implies l <= len by {
                if l > 0 {
                    assert(groups@[i as int] == 0);
                }
            }
        }
        i += 1;
    }
    (start, len)
}

/// No two runs are both the first of the longest.
proof fn lemma_longest_zero_run_is_one(groups: Seq<u16>, start: int, len: int, s: int, l: int)
    requires
        is_longest_zero_run(groups, start, len),
        is_longest_zero_run(groups, s, l),
    ensures
        start == s,
        len == l,
{
}

/// Writes sixteen bytes as an IPv6 address.
pub fn format_ipv6(octets: &[u8; 16]) -> (text: String)
    ensures
        text@ == ipv6_text(octets@),
{
    let groups: [u16; 8] = [
        octets[0] as u16 * 256 + octets[1] as u16,
        octets[2] as u16 * 256 + octets[3] as u16,
        octets[4] as u16 * 256 + octets[5] as u16,
        octets[6] as u16 * 256 + octets[7] as u16,
        octets[8] as u16 * 256 + octets[9] as u16,
        octets[10] as u16 * 256 + octets[11] as u16,
        octets[12] as u16 * 256 + octets[13] as u16,
        octets[14] as u16 * 256 + octets[15] as u16,
    ];
    assert(groups@ =~= octet_groups(octets@));
    if groups[0] == 0 && groups[1] == 0 && groups[2] == 0 && groups[3] == 0 && groups[4] == 0
        && groups[5] == 0xffff {
        let text = String::new().concat("::ffff:");
        let text = push_ipv4(text, octets[12], octets[13], octets[14], octets[15]);
        assert(octets@.subrange(12, 16) =~= seq![octets[12], octets[13], octets[14], octets[15]]);
        assert(text@ =~= "::ffff:"@ + ipv4_text(octets@.subrange(12, 16)));
        return text;
    }
    let (start, len) = longest_zero_run(&groups);
    proof {
        let chosen = choose|start: int, len: int| is_longest_zero_run(groups@, start, len);
        lemma_longest_zero_run_is_one(groups@, start as int, len as int, chosen.0, chosen.1);
    }
    if len > 1 {
        let text = push_groups(String::new(), &groups, 0, start);
        let text = text.concat("::");
        let text = push_groups(text, &groups, start + len, 8);
        assert(text@ =~= groups_text(groups@.subrange(0, start as int)) + "::"@ + groups_text(
            groups@.subrange(start + len, 8),
        ));
        text
    } else {
        let text = push_groups(String::new(), &groups, 0, 8);
        assert(groups@.subrange(0, 8) =~= groups@);
        assert(text@ =~= groups_text(groups@));
        text
    }
}

} // verus!
