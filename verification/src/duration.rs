//! Durations written as years, months and days: `1y`, `6m`, `2y30d`.
//!
//! A duration is up to three parts in this order: a number and `y`, a number
//! and `m`, a number and `d`. A year counts as 365 days and a month as 30.
//! The empty text is the duration of no time.

use vstd::prelude::*;
use vstd::string::StringSliceAdditionalSpecFns;
use crate::digits::{
    decimal_value, digits_end, is_digit, lemma_decimal_value_grows, lemma_digits_end_from,
};
use crate::error::GenError;

verus! {

/// The seconds of a day.
pub const SECS_PER_DAY: u64 = 86400;

/// The seconds of a month of 30 days.
pub const SECS_PER_MONTH: u64 = 2592000;

/// The seconds of a year of 365 days.
pub const SECS_PER_YEAR: u64 = 31536000;

/// The part of a duration that starts at `from` in `text` and ends with
/// `unit`: its number and the index behind it. There is none unless a digit
/// stands at `from`, the number of all digits there is at most `u64::MAX`,
/// and `unit` follows them.
pub open spec fn part_at(text: Seq<u8>, from: int, unit: u8) -> Option<(u64, int)> {
    let end = digits_end(text, from);
    let value = decimal_value(text.subrange(from, end));
    if 0 <= from < end && end < text.len() && value <= u64::MAX && text[end] == unit {
        Some((value as u64, end + 1))
    } else {
        None
    }
}

/// The number of an optional part, or 0 without one.
pub open spec fn count_of(part: Option<(u64, int)>) -> nat {
    match part {
        Some((count, _)) => count as nat,
        None => 0,
    }
}

/// The index behind an optional part that was looked for at `from`.
pub open spec fn next_of(part: Option<(u64, int)>, from: int) -> int {
    match part {
        Some((_, next)) => next,
        None => from,
    }
}

/// The seconds of the duration that `text` writes. There is none where
/// `text` is no duration, or where it is longer than `u64::MAX` seconds.
pub open spec fn duration_spec(text: Seq<u8>) -> Option<u64> {
    let years = part_at(text, 0, 'y' as u8);
    let months = part_at(text, next_of(years, 0), 'm' as u8);
    let days = part_at(text, next_of(months, next_of(years, 0)), 'd' as u8);
    let end = next_of(days, next_of(months, next_of(years, 0)));
    let seconds = count_of(years) * SECS_PER_YEAR + count_of(months) * SECS_PER_MONTH + count_of(
        days,
    ) * SECS_PER_DAY;
    if end == text.len() && seconds <= u64::MAX {
        Some(seconds as u64)
    } else {
        None
    }
}

/// Reads the part of a duration that starts at `from` and ends with `unit`.
fn parse_part(text: &[u8], from: usize, unit: u8) -> (part: Option<(u64, usize)>)
    requires
        from <= text@.len(),
    ensures
        match part {
            Some((count, next)) => part_at(text@, from as int, unit) == Some((count, next as int))
                && from < next <= text@.len(),
            None => part_at(text@, from as int, unit) is None,
        },
{
    let mut value: u64 = 0;
    let mut i: usize = from;
    proof {
        lemma_digits_end_from(text@, from as int, from as int);
    }
    while i < text.len() && text[i] >= 0x30 && text[i] <= 0x39
        invariant
            from <= i <= text@.len(),
            forall|j: int| from <= j < i ==> is_digit(#[trigger] text@[j]),
            value == decimal_value(text@.subrange(from as int, i as int)),
        decreases text@.len() - i,
    {
        let digit = (text[i] - 0x30) as u64;
        proof {
            lemma_digits_end_from(text@, from as int, i as int + 1);
            lemma_decimal_value_grows(
                text@,
                from as int,
                i as int + 1,
                digits_end(text@, from as int),
            );
            assert(text@.subrange(from as int, i as int + 1).drop_last() =~= text@.subrange(
                from as int,
                i as int,
            ));
        }
        if value > (u64::MAX - digit) / 10 {
            return None;
        }
        value = value * 10 + digit;
        i += 1;
    }
    proof {
        lemma_digits_end_from(text@, from as int, i as int);
    }
    if i > from && i < text.len() && text[i] == unit {
        Some((value, i + 1))
    } else {
        None
    }
}

/// Reads the years of a duration at `from`: a number and `y`.
fn parse_years(text: &[u8], from: usize) -> (part: Option<(u64, usize)>)
    requires
        from <= text@.len(),
    ensures
        match part {
            Some((count, next)) => part_at(text@, from as int, 'y' as u8) == Some(
                (count, next as int),
            ) && from < next <= text@.len(),
            None => part_at(text@, from as int, 'y' as u8) is None,
        },
{
    parse_part(text, from, 'y' as u8)
}

/// Reads the months of a duration at `from`: a number and `m`.
fn parse_months(text: &[u8], from: usize) -> (part: Option<(u64, usize)>)
    requires
        from <= text@.len(),
    ensures
        match part {
            Some((count, next)) => part_at(text@, from as int, 'm' as u8) == Some(
                (count, next as int),
            ) && from < next <= text@.len(),
            None => part_at(text@, from as int, 'm' as u8) is None,
        },
{
    parse_part(text, from, 'm' as u8)
}

/// Reads the days of a duration at `from`: a number and `d`.
fn parse_days(text: &[u8], from: usize) -> (part: Option<(u64, usize)>)
    requires
        from <= text@.len(),
    ensures
        match part {
            Some((count, next)) => part_at(text@, from as int, 'd' as u8) == Some(
                (count, next as int),
            ) && from < next <= text@.len(),
            None => part_at(text@, from as int, 'd' as u8) is None,
        },
{
    parse_part(text, from, 'd' as u8)
}

/// `count` times `unit` more than `seconds`, where that fits.
fn add_units(seconds: u64, count: u64, unit: u64) -> (sum: Option<u64>)
    ensures
        match sum {
            Some(sum) => sum == seconds + count * unit,
            None => seconds + count * unit > u64::MAX,
        },
{
    match count.checked_mul(unit) {
        Some(product) => seconds.checked_add(product),
        None => {
            assert(seconds + count * unit > u64::MAX);
            None
        },
    }
}

/// Reads a duration: the seconds it lasts.
fn parse_duration(text: &[u8]) -> (seconds: Option<u64>)
    ensures
        seconds == duration_spec(text@),
{
    let mut from: usize = 0;
    let mut years: u64 = 0;
    let mut months: u64 = 0;
    let mut days: u64 = 0;
    if let Some((count, next)) = parse_years(text, from) {
        years = count;
        from = next;
    }
    if let Some((count, next)) = parse_months(text, from) {
        months = count;
        from = next;
    }
    if let Some((count, next)) = parse_days(text, from) {
        days = count;
        from = next;
    }
    if from != text.len() {
        return None;
    }
    let seconds = add_units(0, years, SECS_PER_YEAR)?;
    let seconds = add_units(seconds, months, SECS_PER_MONTH)?;
    add_units(seconds, days, SECS_PER_DAY)
}

/// The seconds of the duration that `input` writes. Fails with
/// [`GenError::Parse`] where `input` is no duration, or one of more than
/// `u64::MAX` seconds.
pub fn parse_duration_str(input: &str) -> (r: Result<u64, GenError>)
    ensures
        match r {
            Ok(seconds) => duration_spec(input.spec_bytes()) == Some(seconds),
            Err(e) => e == GenError::Parse && duration_spec(input.spec_bytes()) is None,
        },
{
    match parse_duration(input.as_bytes()) {
        Some(seconds) => Ok(seconds),
        None => Err(GenError::Parse),
    }
}

} // verus!
