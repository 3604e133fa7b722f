use certgen::duration::{parse_duration_str, SECS_PER_DAY, SECS_PER_MONTH, SECS_PER_YEAR};
use certgen::error::GenError;

#[test]
fn a_year_is_365_days() {
    assert_eq!(SECS_PER_YEAR, 365 * 24 * 60 * 60);
    assert_eq!(parse_duration_str("1y"), Ok(31_536_000));
}

#[test]
fn a_month_is_30_days() {
    assert_eq!(SECS_PER_MONTH, 30 * 24 * 60 * 60);
    assert_eq!(parse_duration_str("1m"), Ok(2_592_000));
}

#[test]
fn a_day_is_86400_seconds() {
    assert_eq!(SECS_PER_DAY, 24 * 60 * 60);
    assert_eq!(parse_duration_str("1d"), Ok(86_400));
}

#[test]
fn parts_add_up() {
    assert_eq!(parse_duration_str("1y2m3d"), Ok(31_536_000 + 2 * 2_592_000 + 3 * 86_400));
    assert_eq!(parse_duration_str("2y30d"), Ok(2 * 31_536_000 + 30 * 86_400));
    assert_eq!(parse_duration_str("6m1d"), Ok(6 * 2_592_000 + 86_400));
    assert_eq!(parse_duration_str("10y12m"), Ok(10 * 31_536_000 + 12 * 2_592_000));
}

#[test]
fn the_empty_text_is_no_time() {
    assert_eq!(parse_duration_str(""), Ok(0));
    assert_eq!(parse_duration_str("0y0m0d"), Ok(0));
    assert_eq!(parse_duration_str("0d"), Ok(0));
}

#[test]
fn leading_zeros_are_read() {
    assert_eq!(parse_duration_str("007d"), Ok(7 * 86_400));
    assert_eq!(parse_duration_str("00000000000000000000000001y"), Ok(31_536_000));
}

#[test]
fn parts_stand_in_their_order_and_once() {
    assert_eq!(parse_duration_str("3d1y"), Err(GenError::Parse));
    assert_eq!(parse_duration_str("1m1y"), Err(GenError::Parse));
    assert_eq!(parse_duration_str("1d1m"), Err(GenError::Parse));
    assert_eq!(parse_duration_str("1y1y"), Err(GenError::Parse));
    assert_eq!(parse_duration_str("1d1d"), Err(GenError::Parse));
}

#[test]
fn other_text_is_refused() {
    for text in ["y", "m", "d", "1", "12", "1x", "1y2", "1 y", " 1y", "1y ", "1Y", "-1d", "+1d", "1.5d", "1y,2m", "one day", "1d\n"] {
        assert_eq!(parse_duration_str(text), Err(GenError::Parse), "{:?}", text);
    }
}

#[test]
fn digits_of_other_scripts_are_refused() {
    assert_eq!(parse_duration_str("\u{ff11}y"), Err(GenError::Parse));
    assert_eq!(parse_duration_str("\u{0661}d"), Err(GenError::Parse));
    assert_eq!(parse_duration_str("1\u{0443}"), Err(GenError::Parse));
}

#[test]
fn the_longest_durations() {
    assert_eq!(parse_duration_str("213503982334601d"), Ok(213_503_982_334_601 * 86_400));
    assert_eq!(parse_duration_str("213503982334602d"), Err(GenError::Parse));
    assert_eq!(parse_duration_str("584942417355y"), Ok(584_942_417_355 * 31_536_000));
    assert_eq!(parse_duration_str("584942417356y"), Err(GenError::Parse));
    assert_eq!(
        parse_duration_str("584942417355y26d"),
        Ok(584_942_417_355 * 31_536_000 + 26 * 86_400)
    );
    assert_eq!(parse_duration_str("584942417355y1m"), Err(GenError::Parse));
}

#[test]
fn numbers_beyond_64_bits_are_refused() {
    assert_eq!(parse_duration_str("18446744073709551615d"), Err(GenError::Parse));
    assert_eq!(parse_duration_str("18446744073709551616d"), Err(GenError::Parse));
    assert_eq!(parse_duration_str("99999999999999999999y"), Err(GenError::Parse));
    assert_eq!(parse_duration_str("99999999999999999999y1d"), Err(GenError::Parse));
}
