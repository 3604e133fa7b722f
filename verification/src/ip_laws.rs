//! What reading and writing IP addresses have to do with each other.

use vstd::prelude::*;
use vstd::utf8::{encode_utf8, is_ascii_chars, is_ascii_chars_encode_utf8};
use crate::alt_name::IpAddress;
use crate::digits::{
    decimal_value, digits_end, hex_digit_value, hex_end, hex_value, is_digit, is_hex_digit,
    lemma_digits_end_from, lemma_hex_end_from,
};
use crate::ip::{
    after_byte, dotted_octet_at, group_at, group_octets, group_of, groups_at, ip_spec, ipv4_at,
    ipv4_spec, ipv6_groups_spec, octet_at, zero_groups, Groups,
};
use crate::ip_text::{
    decimal_text, digit_text, groups_text, hex_text, ipv4_text, ipv6_text, is_ipv4_mapped,
    is_longest_zero_run, is_zero_run, octet_groups,
};

verus! {

/// The character of the digit `value`, which is below ten.
spec fn digit_char(value: int) -> char {
    if value == 0 {
        '0'
    } else if value == 1 {
        '1'
    } else if value == 2 {
        '2'
    } else if value == 3 {
        '3'
    } else if value == 4 {
        '4'
    } else if value == 5 {
        '5'
    } else if value == 6 {
        '6'
    } else if value == 7 {
        '7'
    } else if value == 8 {
        '8'
    } else {
        '9'
    }
}

/// The digit for a number below ten is the one character that stands for it.
proof fn lemma_digit_text(value: int)
    requires
        0 <= value < 10,
    ensures
        digit_text(value) == seq![digit_char(value)],
        digit_char(value) as u8 == 0x30 + value,
        '0' <= digit_char(value) <= '9',
{
    reveal_strlit("0");
    reveal_strlit("1");
    reveal_strlit("2");
    reveal_strlit("3");
    reveal_strlit("4");
    reveal_strlit("5");
    reveal_strlit("6");
    reveal_strlit("7");
    reveal_strlit("8");
    reveal_strlit("9");
    assert(digit_text(value) =~= seq![digit_char(value)]);
}

/// The bytes that the ASCII characters `text` are written in.
spec fn bytes_of(text: Seq<char>) -> Seq<u8> {
    Seq::new(text.len(), |i: int| text[i] as u8)
}

/// A number up to 255 is written in one to three digits, the first of which
/// is no zero unless it is the only one, and these digits write the number.
proof fn lemma_decimal_text(value: nat)
    requires
        value <= 255,
    ensures
        1 <= decimal_text(value).len() <= 3,
        forall|i: int|
            0 <= i < decimal_text(value).len() ==> '0' <= #[trigger] decimal_text(value)[i]
                <= '9',
        decimal_text(value).len() == 1 || decimal_text(value)[0] != '0',
        decimal_value(bytes_of(decimal_text(value))) == value,
{
    reveal_with_fuel(decimal_text, 3);
    reveal_with_fuel(decimal_value, 4);
    let text = decimal_text(value);
    let bytes = bytes_of(text);
    let ones = (value % 10) as int;
    let tens = ((value / 10) % 10) as int;
    let hundreds = (value / 100) as int;
    lemma_digit_text(ones);
    lemma_digit_text(tens);
    lemma_digit_text(hundreds);
    if value < 10 {
        assert(text =~= seq![digit_char(ones)]);
        assert(bytes =~= seq![(0x30 + ones) as u8]);
        assert(bytes.drop_last() =~= Seq::<u8>::empty());
    } else if value < 100 {
        assert(text =~= seq![digit_char(tens), digit_char(ones)]);
        assert(bytes =~= seq![(0x30 + tens) as u8, (0x30 + ones) as u8]);
        assert(bytes.drop_last() =~= seq![(0x30 + tens) as u8]);
        assert(bytes.drop_last().drop_last() =~= Seq::<u8>::empty());
    } else {
        assert(value / 10 / 10 == hundreds);
        assert(text =~= seq![digit_char(hundreds), digit_char(tens), digit_char(ones)]);
        assert(bytes =~= seq![(0x30 + hundreds) as u8, (0x30 + tens) as u8, (0x30 + ones) as u8]);
        assert(bytes.drop_last() =~= seq![(0x30 + hundreds) as u8, (0x30 + tens) as u8]);
        assert(bytes.drop_last().drop_last() =~= seq![(0x30 + hundreds) as u8]);
        assert(bytes.drop_last().drop_last().drop_last() =~= Seq::<u8>::empty());
    }
}

/// Where `text` holds the digits of a number at `from`, and no digit behind
/// them, the number is read there.
proof fn lemma_octet_is_read(text: Seq<u8>, from: int, value: nat, len: int)
    requires
        value <= 255,
        0 <= from,
        len == decimal_text(value).len(),
        from + len <= text.len(),
        text.subrange(from, from + len) == bytes_of(decimal_text(value)),
        from + len == text.len() || !is_digit(text[from + len]),
    ensures
        octet_at(text, from) == Some((value as u8, from + len)),
{
    lemma_decimal_text(value);
    let digits = text.subrange(from, from + len);
    assert forall|i: int| from <= i < from + len implies is_digit(#[trigger] text[i]) by {
        assert(text[i] == digits[i - from]);
        assert('0' <= decimal_text(value)[i - from] <= '9');
    }
    lemma_digits_end_from(text, from, from + len);
    assert(digits_end(text, from + len) == from + len);
    assert(text[from] == digits[0]);
}

/// The digits of `value` as bytes.
spec fn decimal_bytes(value: u8) -> Seq<u8> {
    bytes_of(decimal_text(value as nat))
}

/// Four numbers in digits with dots between them.
#[verifier::opaque]
spec fn dotted(octets: Seq<u8>) -> Seq<u8> {
    decimal_bytes(octets[0]) + seq![0x2eu8] + decimal_bytes(octets[1]) + seq![0x2eu8]
        + decimal_bytes(octets[2]) + seq![0x2eu8] + decimal_bytes(octets[3])
}

/// The text of an IPv4 address is ASCII, and its bytes are the digits of its
/// four numbers with dots between them.
proof fn lemma_ipv4_text_bytes(octets: Seq<u8>)
    requires
        octets.len() == 4,
    ensures
        is_ascii_chars(ipv4_text(octets)),
        encode_utf8(ipv4_text(octets)) == dotted(octets),
{
    reveal(dotted);
    reveal_strlit(".");
    lemma_decimal_text(octets[0] as nat);
    lemma_decimal_text(octets[1] as nat);
    lemma_decimal_text(octets[2] as nat);
    lemma_decimal_text(octets[3] as nat);
    let a = decimal_text(octets[0] as nat);
    let b = decimal_text(octets[1] as nat);
    let c = decimal_text(octets[2] as nat);
    let d = decimal_text(octets[3] as nat);
    let dot = seq!['.'];
    let text = ipv4_text(octets);
    assert(text =~= a + dot + b + dot + c + dot + d);
    assert(is_ascii_chars(a));
    assert(is_ascii_chars(b));
    assert(is_ascii_chars(c));
    assert(is_ascii_chars(d));
    assert(is_ascii_chars(dot));
    assert(is_ascii_chars(text));
    is_ascii_chars_encode_utf8(text);
    assert(encode_utf8(text) =~= bytes_of(text));
    assert(bytes_of(text) =~= dotted(octets));
}

/// Where the four numbers stand in [`dotted`], and where the dots.
proof fn lemma_dotted_layout(octets: Seq<u8>)
    requires
        octets.len() == 4,
    ensures
        ({
            let a = decimal_bytes(octets[0]).len() as int;
            let b = a + 1 + decimal_bytes(octets[1]).len();
            let c = b + 1 + decimal_bytes(octets[2]).len();
            let d = c + 1 + decimal_bytes(octets[3]).len();
            let all = dotted(octets);
            &&& all.len() == d
            &&& all.subrange(0, a) == decimal_bytes(octets[0])
            &&& all[a] == 0x2e
            &&& all.subrange(a + 1, b) == decimal_bytes(octets[1])
            &&& all[b] == 0x2e
            &&& all.subrange(b + 1, c) == decimal_bytes(octets[2])
            &&& all[c] == 0x2e
            &&& all.subrange(c + 1, d) == decimal_bytes(octets[3])
        }),
{
    reveal(dotted);
    let a = decimal_bytes(octets[0]).len() as int;
    let b = a + 1 + decimal_bytes(octets[1]).len();
    let c = b + 1 + decimal_bytes(octets[2]).len();
    let d = c + 1 + decimal_bytes(octets[3]).len();
    let all = dotted(octets);
    assert(all.subrange(0, a) =~= decimal_bytes(octets[0]));
    assert(all.subrange(a + 1, b) =~= decimal_bytes(octets[1]));
    assert(all.subrange(b + 1, c) =~= decimal_bytes(octets[2]));
    assert(all.subrange(c + 1, d) =~= decimal_bytes(octets[3]));
}

/// A part of a part of `text` is a part of `text`.
proof fn lemma_subrange_shift(text: Seq<u8>, from: int, part: Seq<u8>, low: int, high: int)
    requires
        0 <= from,
        from + part.len() <= text.len(),
        text.subrange(from, from + part.len()) == part,
        0 <= low <= high <= part.len(),
    ensures
        text.subrange(from + low, from + high) == part.subrange(low, high),
        low < part.len() ==> text[from + low] == part[low],
        high < part.len() ==> text[from + high] == part[high],
{
    let whole = text.subrange(from, from + part.len());
    assert(text.subrange(from + low, from + high) =~= whole.subrange(low, high));
    if low < part.len() {
        assert(whole[low] == text[from + low]);
    }
    if high < part.len() {
        assert(whole[high] == text[from + high]);
    }
}

/// The second, third or fourth number of an IPv4 address is read behind its
/// dot, where the digits of the number follow the dot at `from` and a dot or
/// the end follows them.
proof fn lemma_dotted_octet_is_read(text: Seq<u8>, from: int, value: u8, len: int)
    requires
        0 <= from < text.len(),
        text[from] == 0x2e,
        len == decimal_bytes(value).len(),
        from + 1 + len <= text.len(),
        text.subrange(from + 1, from + 1 + len) == decimal_bytes(value),
        from + 1 + len == text.len() || text[from + 1 + len] == 0x2e,
    ensures
        dotted_octet_at(text, from) == Some((value, from + 1 + len)),
{
    lemma_octet_is_read(text, from + 1, value as nat, len);
}

/// Where `text` ends with the digits of four numbers with dots between
/// them, from `from` on, these numbers are read there as an IPv4 address.
proof fn lemma_ipv4_is_read(text: Seq<u8>, from: int, octets: Seq<u8>)
    requires
        octets.len() == 4,
        0 <= from,
        from + dotted(octets).len() == text.len(),
        text.subrange(from, text.len() as int) == dotted(octets),
    ensures
        ipv4_at(text, from) == Some((octets, text.len() as int)),
{
    lemma_dotted_layout(octets);
    let all = dotted(octets);
    let a = decimal_bytes(octets[0]).len() as int;
    let b = a + 1 + decimal_bytes(octets[1]).len();
    let c = b + 1 + decimal_bytes(octets[2]).len();
    let d = c + 1 + decimal_bytes(octets[3]).len();
    lemma_subrange_shift(text, from, all, 0, a);
    lemma_subrange_shift(text, from, all, a + 1, b);
    lemma_subrange_shift(text, from, all, b + 1, c);
    lemma_subrange_shift(text, from, all, c + 1, d);
    lemma_subrange_shift(text, from, all, a, a);
    lemma_subrange_shift(text, from, all, b, b);
    lemma_subrange_shift(text, from, all, c, c);
    lemma_octet_is_read(text, from, octets[0] as nat, a);
    lemma_dotted_octet_is_read(text, from + a, octets[1], b - a - 1);
    lemma_dotted_octet_is_read(text, from + b, octets[2], c - b - 1);
    lemma_dotted_octet_is_read(text, from + c, octets[3], d - c - 1);
    assert(seq![octets[0], octets[1], octets[2], octets[3]] =~= octets);
}

/// Every IPv4 address is read back from its text.
pub proof fn ipv4_text_is_read_back(octets: Seq<u8>)
    requires
        octets.len() == 4,
    ensures
        is_ascii_chars(ipv4_text(octets)),
        ipv4_spec(encode_utf8(ipv4_text(octets))) == Some(octets),
        ip_spec(encode_utf8(ipv4_text(octets))) == Some(octets),
{
    lemma_ipv4_text_bytes(octets);
    let bytes = dotted(octets);
    assert(bytes.subrange(0, bytes.len() as int) =~= bytes);
    lemma_ipv4_is_read(bytes, 0, octets);
}

/// The character of the hexadecimal digit `value`, which is below sixteen.
spec fn hex_char(value: int) -> char {
    if value < 10 {
        digit_char(value)
    } else if value == 10 {
        'a'
    } else if value == 11 {
        'b'
    } else if value == 12 {
        'c'
    } else if value == 13 {
        'd'
    } else if value == 14 {
        'e'
    } else {
        'f'
    }
}

/// The digit for a number below sixteen is the one character that stands
/// for it, and that character stands for the number.
proof fn lemma_hex_digit_text(value: int)
    requires
        0 <= value < 16,
    ensures
        digit_text(value) == seq![hex_char(value)],
        is_hex_digit(hex_char(value) as u8),
        hex_digit_value(hex_char(value) as u8) == value,
        '0' <= hex_char(value) <= 'f',
        hex_char(value) != '.',
        hex_char(value) != ':',
{
    reveal_strlit("a");
    reveal_strlit("b");
    reveal_strlit("c");
    reveal_strlit("d");
    reveal_strlit("e");
    reveal_strlit("f");
    if value < 10 {
        lemma_digit_text(value);
    }
    assert(digit_text(value) =~= seq![hex_char(value)]);
}

/// A group is written in one to four hexadecimal digits, and these digits
/// write the group.
proof fn lemma_hex_text(value: nat)
    requires
        value <= 0xffff,
    ensures
        1 <= hex_text(value).len() <= 4,
        forall|i: int|
            0 <= i < hex_text(value).len() ==> {
                &&& '0' <= #[trigger] hex_text(value)[i] <= 'f'
                &&& hex_text(value)[i] != '.'
                &&& hex_text(value)[i] != ':'
                &&& is_hex_digit(hex_text(value)[i] as u8)
            },
        hex_value(bytes_of(hex_text(value))) == value,
{
    reveal_with_fuel(hex_text, 4);
    reveal_with_fuel(hex_value, 5);
    let text = hex_text(value);
    let bytes = bytes_of(text);
    let n0 = (value % 16) as int;
    let n1 = ((value / 16) % 16) as int;
    let n2 = ((value / 256) % 16) as int;
    let n3 = (value / 4096) as int;
    lemma_hex_digit_text(n0);
    lemma_hex_digit_text(n1);
    lemma_hex_digit_text(n2);
    lemma_hex_digit_text(n3);
    assert(value / 16 / 16 == value / 256);
    assert(value / 16 / 16 / 16 == value / 4096);
    let c0 = hex_char(n0) as u8;
    let c1 = hex_char(n1) as u8;
    let c2 = hex_char(n2) as u8;
    let c3 = hex_char(n3) as u8;
    if value < 16 {
        assert(text =~= seq![hex_char(n0)]);
        assert(bytes =~= seq![c0]);
        assert(bytes.drop_last() =~= Seq::<u8>::empty());
    } else if value < 256 {
        assert(text =~= seq![hex_char(n1), hex_char(n0)]);
        assert(bytes =~= seq![c1, c0]);
        assert(bytes.drop_last() =~= seq![c1]);
        assert(bytes.drop_last().drop_last() =~= Seq::<u8>::empty());
    } else if value < 4096 {
        assert(text =~= seq![hex_char(n2), hex_char(n1), hex_char(n0)]);
        assert(bytes =~= seq![c2, c1, c0]);
        assert(bytes.drop_last() =~= seq![c2, c1]);
        assert(bytes.drop_last().drop_last() =~= seq![c2]);
        assert(bytes.drop_last().drop_last().drop_last() =~= Seq::<u8>::empty());
    } else {
        assert(text =~= seq![hex_char(n3), hex_char(n2), hex_char(n1), hex_char(n0)]);
        assert(bytes =~= seq![c3, c2, c1, c0]);
        assert(bytes.drop_last() =~= seq![c3, c2, c1]);
        assert(bytes.drop_last().drop_last() =~= seq![c3, c2]);
        assert(bytes.drop_last().drop_last().drop_last() =~= seq![c3]);
        assert(bytes.drop_last().drop_last().drop_last().drop_last() =~= Seq::<u8>::empty());
    }
}

/// The digits of the group `value` as bytes.
spec fn hex_bytes(value: u16) -> Seq<u8> {
    bytes_of(hex_text(value as nat))
}

/// Where `text` holds the digits of a group at `from`, and no hexadecimal
/// digit behind them, the group is read there.
proof fn lemma_group_is_read(text: Seq<u8>, from: int, value: u16, len: int)
    requires
        0 <= from,
        len == hex_bytes(value).len(),
        from + len <= text.len(),
        text.subrange(from, from + len) == hex_bytes(value),
        from + len == text.len() || !is_hex_digit(text[from + len]),
    ensures
        group_at(text, from) == Some((value, from + len)),
{
    lemma_hex_text(value as nat);
    let digits = text.subrange(from, from + len);
    assert forall|i: int| from <= i < from + len implies is_hex_digit(#[trigger] text[i]) by {
        assert(text[i] == digits[i - from]);
        assert(is_hex_digit(hex_text(value as nat)[i - from] as u8));
    }
    lemma_hex_end_from(text, from, from + len);
    assert(hex_end(text, from + len) == from + len);
}

/// Where no dot stands in `text` from `from` on, no IPv4 address is read there.
proof fn lemma_no_dot_no_ipv4(text: Seq<u8>, from: int)
    requires
        0 <= from <= text.len(),
        forall|i: int| from <= i < text.len() ==> #[trigger] text[i] != 0x2e,
    ensures
        ipv4_at(text, from) is None,
{
    lemma_digits_end_from(text, from, from);
}

/// Groups are written as the first of them, then a colon and the others.
proof fn lemma_groups_text_front(groups: Seq<u16>)
    requires
        groups.len() >= 2,
    ensures
        groups_text(groups) == hex_text(groups[0] as nat) + ":"@ + groups_text(
            groups.drop_first(),
        ),
    decreases groups.len(),
{
    let front = groups.drop_last();
    let rest = groups.drop_first();
    if groups.len() == 2 {
        assert(front.len() == 1 && front[0] == groups[0]);
        assert(rest.len() == 1 && rest[0] == groups[1]);
        assert(groups_text(front) == hex_text(groups[0] as nat));
        assert(groups_text(rest) == hex_text(groups[1] as nat));
    } else {
        lemma_groups_text_front(front);
        assert(front.drop_first() =~= rest.drop_last());
        assert(front[0] == groups[0]);
        assert(rest.last() == groups.last());
        assert(groups_text(groups) =~= hex_text(groups[0] as nat) + ":"@ + (groups_text(
            rest.drop_last(),
        ) + ":"@ + hex_text(rest.last() as nat)));
    }
}

/// Groups as bytes: the digits of each, with colons between them.
spec fn groups_bytes(groups: Seq<u16>) -> Seq<u8>
    decreases groups.len(),
{
    if groups.len() == 0 {
        Seq::empty()
    } else if groups.len() == 1 {
        hex_bytes(groups[0])
    } else {
        hex_bytes(groups[0]) + seq![0x3au8] + groups_bytes(groups.drop_first())
    }
}

/// The text of groups is ASCII without a dot, and its bytes are the digits
/// of each with colons between them.
proof fn lemma_groups_text_bytes(groups: Seq<u16>)
    ensures
        is_ascii_chars(groups_text(groups)),
        bytes_of(groups_text(groups)) == groups_bytes(groups),
        forall|i: int| 0 <= i < groups_bytes(groups).len() ==> #[trigger] groups_bytes(groups)[i]
            != 0x2e,
    decreases groups.len(),
{
    reveal_strlit(":");
    if groups.len() == 0 {
        assert(bytes_of(groups_text(groups)) =~= groups_bytes(groups));
    } else if groups.len() == 1 {
        lemma_hex_text(groups[0] as nat);
        assert(bytes_of(groups_text(groups)) =~= groups_bytes(groups));
    } else {
        lemma_hex_text(groups[0] as nat);
        lemma_groups_text_front(groups);
        lemma_groups_text_bytes(groups.drop_first());
        let first = hex_text(groups[0] as nat);
        let rest = groups_text(groups.drop_first());
        let text = groups_text(groups);
        assert(text =~= first + seq![':'] + rest);
        assert forall|i: int| 0 <= i < text.len() implies '\0' <= #[trigger] text[i]
            <= '\u{7f}' && text[i] as u8 != 0x2e by {
            if i < first.len() {
                assert(text[i] == first[i]);
            } else if i == first.len() {
            } else {
                assert(text[i] == rest[i - first.len() - 1]);
                assert(bytes_of(rest)[i - first.len() - 1] != 0x2e);
            }
        }
        assert(bytes_of(text) =~= bytes_of(first) + seq![0x3au8] + bytes_of(rest));
        assert forall|i: int| 0 <= i < groups_bytes(groups).len() implies #[trigger] groups_bytes(
            groups,
        )[i] != 0x2e by {
            assert(groups_bytes(groups)[i] == text[i] as u8);
        }
    }
}

/// Groups as they stand in an address at the place `index`: behind a colon
/// unless the place is the first.
spec fn separated(groups: Seq<u16>, index: nat) -> Seq<u8> {
    if groups.len() == 0 {
        Seq::empty()
    } else if index == 0 {
        groups_bytes(groups)
    } else {
        seq![0x3au8] + groups_bytes(groups)
    }
}

/// Whether `text` ends at `at`, or has `::` there.
spec fn ends_or_elides(text: Seq<u8>, at: int) -> bool {
    at == text.len() || (at + 1 < text.len() && text[at] == 0x3a && text[at + 1] == 0x3a)
}

/// Where `text` holds groups at `from`, no dot from there on, and behind the
/// groups its end or `::`, these groups are read there, and no more.
proof fn lemma_groups_are_read(
    text: Seq<u8>,
    from: int,
    groups: Seq<u16>,
    index: nat,
    limit: nat,
)
    requires
        index + groups.len() <= limit <= 8,
        0 <= from,
        from + separated(groups, index).len() <= text.len(),
        text.subrange(from, from + separated(groups, index).len()) == separated(groups, index),
        ends_or_elides(text, from + separated(groups, index).len()),
        forall|i: int| from <= i < text.len() ==> #[trigger] text[i] != 0x2e,
    ensures
        groups_at(text, from, index, limit) == (Groups {
            groups,
            end: from + separated(groups, index).len(),
            ipv4: false,
        }),
    decreases groups.len(),
{
    let here = separated(groups, index);
    if groups.len() == 0 {
        if index < limit {
            if from < text.len() {
                lemma_no_dot_no_ipv4(text, from + 1);
                lemma_no_dot_no_ipv4(text, from);
                assert(hex_end(text, from) == from);
                assert(hex_end(text, from + 1) == from + 1);
                assert(group_at(text, from) is None);
                assert(group_at(text, from + 1) is None);
            } else {
                lemma_no_dot_no_ipv4(text, from);
                assert(group_at(text, from) is None);
                assert(after_byte(text, from, ':' as u8) is None);
            }
        }
        assert(groups =~= Seq::<u16>::empty());
    } else {
        let first = groups[0];
        let rest = groups.drop_first();
        let digits = hex_bytes(first);
        let start = if index == 0 {
            from
        } else {
            from + 1
        };
        let next = start + digits.len();
        let there = separated(rest, index + 1);
        lemma_hex_text(first as nat);
        assert(here =~= (if index == 0 {
            Seq::<u8>::empty()
        } else {
            seq![0x3au8]
        }) + digits + there);
        assert(index > 0 ==> text[from] == here[0]);
        assert(text.subrange(start, next) =~= digits) by {
            assert forall|i: int| 0 <= i < digits.len() implies text[start + i] == digits[i] by {
                assert(text[start + i] == here[start + i - from]);
            }
        }
        assert(text.subrange(next, next + there.len()) =~= there) by {
            assert forall|i: int| 0 <= i < there.len() implies text[next + i] == there[i] by {
                assert(text[next + i] == here[next + i - from]);
            }
        }
        assert(next == text.len() || !is_hex_digit(text[next])) by {
            if rest.len() > 0 {
                assert(text[next] == there[0]);
            }
        }
        lemma_no_dot_no_ipv4(text, start);
        lemma_group_is_read(text, start, first, digits.len() as int);
        lemma_groups_are_read(text, next, rest, index + 1, limit);
        assert(seq![first] + rest =~= groups);
        assert(index > 0 ==> after_byte(text, from, ':' as u8) == Some(start));
        assert(ipv4_at(text, start) is None);
        assert(group_at(text, start) == Some((first, next)));
        assert(next + there.len() == from + here.len());
        assert(groups_at(text, next, (index + 1) as nat, limit) == (Groups {
            groups: rest,
            end: from + here.len(),
            ipv4: false,
        }));
    }
}

/// The bytes of the groups that sixteen bytes make are these bytes.
proof fn lemma_group_octets(octets: Seq<u8>)
    requires
        octets.len() == 16,
    ensures
        octet_groups(octets).len() == 8,
        group_octets(octet_groups(octets)) == octets,
{
    let groups = octet_groups(octets);
    assert forall|i: int| 0 <= i < 16 implies #[trigger] group_octets(groups)[i] == octets[i] by {
        let g = groups[i / 2];
        assert(g == group_of(octets[2 * (i / 2)], octets[2 * (i / 2) + 1]));
    }
    assert(group_octets(groups) =~= octets);
}

/// What is known of zero runs after looking at the first `upto` groups: the
/// first of the longest runs among them, and the run that ends there.
spec fn is_scanned(groups: Seq<u16>, upto: int, start: int, len: int, current: int) -> bool {
    &&& 0 <= upto <= groups.len()
    &&& start + len <= upto
    &&& 0 <= current <= upto
    &&& is_zero_run(groups, start, len)
    &&& is_zero_run(groups, upto - current, current)
    &&& upto - current > 0 ==> groups[upto - current - 1] != 0
    &&& forall|s: int, l: int| #[trigger] is_zero_run(groups, s, l) && s + l <= upto ==> l <= len
    &&& forall|s: int| #[trigger] is_zero_run(groups, s, len) && s + len <= upto ==> start <= s
}

/// Looks at the first `upto` groups for the first of their longest runs of zero.
proof fn lemma_scan_zero_runs(groups: Seq<u16>, upto: int) -> (found: (int, int, int))
    requires
        0 <= upto <= groups.len(),
    ensures
        is_scanned(groups, upto, found.0, found.1, found.2),
    decreases upto,
{
    if upto == 0 {
        (0, 0, 0)
    } else {
        let i = upto - 1;
        let (start, len, before) = lemma_scan_zero_runs(groups, i);
        if groups[i] == 0 {
            let current = before + 1;
            assert forall|s: int, l: int| #[trigger]
                is_zero_run(groups, s, l) && s + l == i + 1 implies l <= current by {
                if s < i + 1 - current {
                    assert(groups[i + 1 - current - 1] == 0);
                }
            }
            if current > len {
                assert forall|s: int| #[trigger]
                    is_zero_run(groups, s, current) && s + current <= i + 1 implies i + 1
                    - current <= s by {
                    if s + current <= i {
                        assert(is_zero_run(groups, s, current));
                    }
                }
                (i + 1 - current, current, current)
            } else {
                (start, len, current)
            }
        } else {
            assert forall|s: int, l: int| #[trigger]
                is_zero_run(groups, s, l) && s + l == i + 1 implies l <= len by {
                if l > 0 {
                    assert(groups[i] == 0);
                }
            }
            (start, len, 0)
        }
    }
}

/// Every sequence of groups has a first among its longest runs of zero.
proof fn lemma_longest_zero_run_exists(groups: Seq<u16>)
    ensures
        exists|start: int, len: int| is_longest_zero_run(groups, start, len),
{
    let (start, len, _) = lemma_scan_zero_runs(groups, groups.len() as int);
    assert(is_longest_zero_run(groups, start, len));
}

/// ASCII text is written in one byte for each character.
proof fn lemma_ascii_bytes(text: Seq<char>)
    requires
        is_ascii_chars(text),
    ensures
        encode_utf8(text) == bytes_of(text),
{
    is_ascii_chars_encode_utf8(text);
    assert(encode_utf8(text) =~= bytes_of(text));
}

/// Eight groups that are written in full are read back.
proof fn lemma_full_is_read(groups: Seq<u16>)
    requires
        groups.len() == 8,
    ensures
        is_ascii_chars(groups_text(groups)),
        ipv4_spec(encode_utf8(groups_text(groups))) is None,
        ipv6_groups_spec(encode_utf8(groups_text(groups))) == Some(groups),
{
    lemma_groups_text_bytes(groups);
    lemma_ascii_bytes(groups_text(groups));
    let bytes = groups_bytes(groups);
    assert(bytes.subrange(0, bytes.len() as int) =~= bytes);
    lemma_no_dot_no_ipv4(bytes, 0);
    lemma_groups_are_read(bytes, 0, groups, 0, 8);
}

/// Eight groups that are written with `::` for a run of zero are read back.
proof fn lemma_elided_is_read(groups: Seq<u16>, start: int, len: int)
    requires
        groups.len() == 8,
        is_zero_run(groups, start, len),
        len >= 1,
    ensures
        is_ascii_chars(
            groups_text(groups.subrange(0, start)) + "::"@ + groups_text(
                groups.subrange(start + len, 8),
            ),
        ),
        ipv4_spec(
            encode_utf8(
                groups_text(groups.subrange(0, start)) + "::"@ + groups_text(
                    groups.subrange(start + len, 8),
                ),
            ),
        ) is None,
        ipv6_groups_spec(
            encode_utf8(
                groups_text(groups.subrange(0, start)) + "::"@ + groups_text(
                    groups.subrange(start + len, 8),
                ),
            ),
        ) == Some(groups),
{
    reveal_strlit("::");
    let head = groups.subrange(0, start);
    let tail = groups.subrange(start + len, 8);
    let head_text = groups_text(head);
    let tail_text = groups_text(tail);
    let text = head_text + "::"@ + tail_text;
    lemma_groups_text_bytes(head);
    lemma_groups_text_bytes(tail);
    let head_bytes = groups_bytes(head);
    let tail_bytes = groups_bytes(tail);
    let at = head_bytes.len() as int;
    assert forall|i: int| 0 <= i < text.len() implies '\0' <= #[trigger] text[i]
        <= '\u{7f}' by {
        if i < at {
            assert(text[i] == head_text[i]);
        } else if i < at + 2 {
        } else {
            assert(text[i] == tail_text[i - at - 2]);
        }
    }
    lemma_ascii_bytes(text);
    let bytes = encode_utf8(text);
    assert(bytes =~= head_bytes + seq![0x3au8, 0x3au8] + tail_bytes);
    assert forall|i: int| 0 <= i < bytes.len() implies #[trigger] bytes[i] != 0x2e by {
        if i < at {
            assert(bytes[i] == head_bytes[i]);
        } else if i < at + 2 {
        } else {
            assert(bytes[i] == tail_bytes[i - at - 2]);
        }
    }
    lemma_no_dot_no_ipv4(bytes, 0);
    assert(separated(head, 0) =~= head_bytes);
    assert(separated(tail, 0) =~= tail_bytes);
    assert(bytes.subrange(0, at) =~= head_bytes);
    assert(bytes.subrange(at + 2, bytes.len() as int) =~= tail_bytes);
    lemma_groups_are_read(bytes, 0, head, 0, 8);
    lemma_groups_are_read(bytes, at + 2, tail, 0, (7 - start) as nat);
    assert(after_byte(bytes, at, ':' as u8) == Some(at + 1));
    assert(after_byte(bytes, at + 1, ':' as u8) == Some(at + 2));
    assert(head + zero_groups(8 - head.len() - tail.len()) + tail =~= groups);
}

/// The bytes of `::ffff:` and the IPv4 address of the four bytes `last`.
#[verifier::opaque]
spec fn mapped_bytes(last: Seq<u8>) -> Seq<u8> {
    seq![0x3au8, 0x3au8, 0x66u8, 0x66u8, 0x66u8, 0x66u8, 0x3au8] + dotted(last)
}

/// The text `::ffff:` and an IPv4 address is ASCII, and its bytes are those
/// of [`mapped_bytes`].
proof fn lemma_mapped_text_bytes(last: Seq<u8>)
    requires
        last.len() == 4,
    ensures
        is_ascii_chars("::ffff:"@ + ipv4_text(last)),
        encode_utf8("::ffff:"@ + ipv4_text(last)) == mapped_bytes(last),
{
    reveal(mapped_bytes);
    reveal_strlit("::ffff:");
    let text = "::ffff:"@ + ipv4_text(last);
    lemma_ipv4_text_bytes(last);
    lemma_ascii_bytes(ipv4_text(last));
    assert forall|i: int| 0 <= i < text.len() implies '\0' <= #[trigger] text[i]
        <= '\u{7f}' by {
        if i >= 7 {
            assert(text[i] == ipv4_text(last)[i - 7]);
        }
    }
    lemma_ascii_bytes(text);
    assert(bytes_of(text) =~= mapped_bytes(last));
}

/// What stands where in [`mapped_bytes`].
proof fn lemma_mapped_layout(last: Seq<u8>)
    ensures
        mapped_bytes(last).len() == 7 + dotted(last).len(),
        mapped_bytes(last)[0] == 0x3a,
        mapped_bytes(last)[1] == 0x3a,
        mapped_bytes(last)[2] == 0x66,
        mapped_bytes(last).subrange(2, 6) == hex_bytes(0xffff),
        mapped_bytes(last)[6] == 0x3a,
        mapped_bytes(last).subrange(7, mapped_bytes(last).len() as int) == dotted(last),
{
    reveal(mapped_bytes);
    reveal_strlit("f");
    reveal_with_fuel(hex_text, 4);
    assert(hex_text(0xffff) =~= seq!['f', 'f', 'f', 'f']);
    assert(hex_bytes(0xffff) =~= seq![0x66u8, 0x66u8, 0x66u8, 0x66u8]);
    let bytes = mapped_bytes(last);
    assert(bytes.subrange(2, 6) =~= seq![0x66u8, 0x66u8, 0x66u8, 0x66u8]);
    assert(bytes.subrange(7, bytes.len() as int) =~= dotted(last));
}

/// Where an IPv4 address is read at a place that is not the last, its two
/// groups are read and the reading ends.
proof fn lemma_groups_end_in_ipv4(
    text: Seq<u8>,
    from: int,
    index: nat,
    limit: nat,
    octets: Seq<u8>,
    end: int,
)
    requires
        0 < index,
        index + 1 < limit,
        after_byte(text, from, ':' as u8) == Some(from + 1),
        ipv4_at(text, from + 1) == Some((octets, end)),
    ensures
        groups_at(text, from, index, limit) == (Groups {
            groups: seq![group_of(octets[0], octets[1]), group_of(octets[2], octets[3])],
            end,
            ipv4: true,
        }),
{
}

/// Where no IPv4 address but a group is read at the first place, the groups
/// are that group and those that are read behind it.
proof fn lemma_groups_start_with_group(text: Seq<u8>, from: int, limit: nat, value: u16, next: int)
    requires
        0 < limit,
        ipv4_at(text, from) is None,
        group_at(text, from) == Some((value, next)),
    ensures
        groups_at(text, from, 0, limit) == (Groups {
            groups: seq![value] + groups_at(text, next, 1, limit).groups,
            end: groups_at(text, next, 1, limit).end,
            ipv4: groups_at(text, next, 1, limit).ipv4,
        }),
{
}

/// Behind `::` in the bytes of `::ffff:` and an IPv4 address, the group
/// `ffff` and the two groups of the IPv4 address are read.
proof fn lemma_mapped_tail_is_read(last: Seq<u8>)
    requires
        last.len() == 4,
    ensures
        groups_at(mapped_bytes(last), 2, 0, 7) == (Groups {
            groups: seq![0xffffu16, group_of(last[0], last[1]), group_of(last[2], last[3])],
            end: mapped_bytes(last).len() as int,
            ipv4: true,
        }),
{
    let bytes = mapped_bytes(last);
    lemma_mapped_layout(last);
    lemma_hex_text(0xffff);
    assert(!is_hex_digit(bytes[6]));
    lemma_group_is_read(bytes, 2, 0xffff, 4);
    lemma_ipv4_is_read(bytes, 7, last);
    assert(ipv4_at(bytes, 2) is None) by {
        lemma_digits_end_from(bytes, 2, 2);
        assert(!is_digit(bytes[2]));
        assert(octet_at(bytes, 2) is None);
    }
    assert(after_byte(bytes, 6, ':' as u8) == Some(7int));
    lemma_groups_end_in_ipv4(bytes, 6, 1, 7, last, bytes.len() as int);
    lemma_groups_start_with_group(bytes, 2, 7, 0xffff, 6);
    let mapped = seq![group_of(last[0], last[1]), group_of(last[2], last[3])];
    assert(seq![0xffffu16] + mapped =~= seq![
        0xffffu16,
        group_of(last[0], last[1]),
        group_of(last[2], last[3]),
    ]);
}

/// At the start of the bytes of `::ffff:` and an IPv4 address, neither an
/// IPv4 address nor a group is read.
proof fn lemma_mapped_head_is_empty(last: Seq<u8>)
    requires
        last.len() == 4,
    ensures
        ipv4_at(mapped_bytes(last), 0) is None,
        groups_at(mapped_bytes(last), 0, 0, 8) == (Groups {
            groups: Seq::empty(),
            end: 0,
            ipv4: false,
        }),
        after_byte(mapped_bytes(last), 0, ':' as u8) == Some(1int),
        after_byte(mapped_bytes(last), 1, ':' as u8) == Some(2int),
{
    let bytes = mapped_bytes(last);
    lemma_mapped_layout(last);
    lemma_digits_end_from(bytes, 0, 0);
    assert(octet_at(bytes, 0) is None);
    assert(hex_end(bytes, 0) == 0);
    assert(group_at(bytes, 0) is None);
}

/// An IPv6 address that is written as `::ffff:` and an IPv4 address is read back.
proof fn lemma_mapped_is_read(octets: Seq<u8>)
    requires
        octets.len() == 16,
        is_ipv4_mapped(octet_groups(octets)),
    ensures
        is_ascii_chars("::ffff:"@ + ipv4_text(octets.subrange(12, 16))),
        ipv4_spec(encode_utf8("::ffff:"@ + ipv4_text(octets.subrange(12, 16)))) is None,
        ipv6_groups_spec(encode_utf8("::ffff:"@ + ipv4_text(octets.subrange(12, 16)))) == Some(
            octet_groups(octets),
        ),
{
    let groups = octet_groups(octets);
    let last = octets.subrange(12, 16);
    lemma_mapped_text_bytes(last);
    lemma_mapped_head_is_empty(last);
    lemma_mapped_tail_is_read(last);
    let read = seq![0xffffu16, group_of(last[0], last[1]), group_of(last[2], last[3])];
    assert(Seq::<u16>::empty() + zero_groups(8 - 0 - 3) + read =~= groups);
}

/// Every IPv6 address is read back from its text.
pub proof fn ipv6_text_is_read_back(octets: Seq<u8>)
    requires
        octets.len() == 16,
    ensures
        is_ascii_chars(ipv6_text(octets)),
        ipv4_spec(encode_utf8(ipv6_text(octets))) is None,
        ip_spec(encode_utf8(ipv6_text(octets))) == Some(octets),
{
    let groups = octet_groups(octets);
    lemma_group_octets(octets);
    if is_ipv4_mapped(groups) {
        lemma_mapped_is_read(octets);
    } else {
        lemma_longest_zero_run_exists(groups);
        let (start, len) = choose|start: int, len: int| is_longest_zero_run(groups, start, len);
        if len > 1 {
            lemma_elided_is_read(groups, start, len);
        } else {
            lemma_full_is_read(groups);
        }
    }
}

/// Every IP address is read back from its text: what [`IpAddress::text`]
/// writes, [`IpAddress::parse`] reads as the same address, of the same kind.
pub proof fn address_text_is_read_back(address: IpAddress)
    ensures
        is_ascii_chars(address.text_spec()),
        ip_spec(encode_utf8(address.text_spec())) == Some(address.octets_spec()),
        ipv4_spec(encode_utf8(address.text_spec())) is Some <==> address is V4,
{
    match address {
        IpAddress::V4(octets) => ipv4_text_is_read_back(octets@),
        IpAddress::V6(octets) => ipv6_text_is_read_back(octets@),
    }
}

} // verus!
