//! Numbers written in ASCII digits.

use vstd::prelude::*;

verus! {

/// Whether `byte` is an ASCII decimal digit.
pub open spec fn is_digit(byte: u8) -> bool {
    0x30 <= byte <= 0x39
}

/// The number that the decimal digits `digits` write.
pub open spec fn decimal_value(digits: Seq<u8>) -> nat
    decreases digits.len(),
{
    if digits.len() == 0 {
        0
    } else {
        (decimal_value(digits.drop_last()) * 10 + (digits.last() - 0x30)) as nat
    }
}

/// Where the digits that start at `from` end: the index of the first byte
/// at or after `from` that is no digit, or the length of `text`.
pub open spec fn digits_end(text: Seq<u8>, from: int) -> int
    decreases text.len() - from,
{
    if 0 <= from < text.len() && is_digit(text[from]) {
        digits_end(text, from + 1)
    } else {
        from
    }
}

/// A number does not shrink when digits are added behind it.
pub proof fn lemma_decimal_value_grows(text: Seq<u8>, from: int, mid: int, to: int)
    requires
        0 <= from <= mid <= to <= text.len(),
        forall|i: int| from <= i < to ==> is_digit(#[trigger] text[i]),
    ensures
        decimal_value(text.subrange(from, mid)) <= decimal_value(text.subrange(from, to)),
    decreases to - mid,
{
    if mid < to {
        lemma_decimal_value_grows(text, from, mid, to - 1);
        assert(text.subrange(from, to).drop_last() =~= text.subrange(from, to - 1));
    }
}

/// The digits that start at `from` end where the digits that start at any
/// index among them end.
pub proof fn lemma_digits_end_from(text: Seq<u8>, from: int, mid: int)
    requires
        0 <= from <= mid <= text.len(),
        forall|i: int| from <= i < mid ==> is_digit(#[trigger] text[i]),
    ensures
        digits_end(text, from) == digits_end(text, mid),
        mid <= digits_end(text, mid) <= text.len(),
        forall|i: int| mid <= i < digits_end(text, mid) ==> is_digit(#[trigger] text[i]),
    decreases text.len() - from,
{
    if from < mid {
        lemma_digits_end_from(text, from + 1, mid);
    } else if mid < text.len() && is_digit(text[mid]) {
        lemma_digits_end_from(text, mid + 1, mid + 1);
    }
}

/// Whether `byte` is an ASCII hexadecimal digit, in either case.
pub open spec fn is_hex_digit(byte: u8) -> bool {
    is_digit(byte) || 0x61 <= byte <= 0x66 || 0x41 <= byte <= 0x46
}

/// The number that the hexadecimal digit `byte` stands for.
pub open spec fn hex_digit_value(byte: u8) -> nat {
    if is_digit(byte) {
        (byte - 0x30) as nat
    } else if 0x61 <= byte <= 0x66 {
        (byte - 0x61 + 10) as nat
    } else {
        (byte - 0x41 + 10) as nat
    }
}

/// The number that the hexadecimal digits `digits` write.
pub open spec fn hex_value(digits: Seq<u8>) -> nat
    decreases digits.len(),
{
    if digits.len() == 0 {
        0
    } else {
        hex_value(digits.drop_last()) * 16 + hex_digit_value(digits.last())
    }
}

/// Where the hexadecimal digits that start at `from` end: the index of the
/// first byte at or after `from` that is no such digit, or the length of `text`.
pub open spec fn hex_end(text: Seq<u8>, from: int) -> int
    decreases text.len() - from,
{
    if 0 <= from < text.len() && is_hex_digit(text[from]) {
        hex_end(text, from + 1)
    } else {
        from
    }
}

/// The hexadecimal digits that start at `from` end where those that start
/// at any index among them end.
pub proof fn lemma_hex_end_from(text: Seq<u8>, from: int, mid: int)
    requires
        0 <= from <= mid <= text.len(),
        forall|i: int| from <= i < mid ==> is_hex_digit(#[trigger] text[i]),
    ensures
        hex_end(text, from) == hex_end(text, mid),
        mid <= hex_end(text, mid) <= text.len(),
    decreases text.len() - from,
{
    if from < mid {
        lemma_hex_end_from(text, from + 1, mid);
    } else if mid < text.len() && is_hex_digit(text[mid]) {
        lemma_hex_end_from(text, mid + 1, mid + 1);
    }
}

} // verus!
