use ufc::duration::{parse_watch_duration, DurationError};

#[test]
fn composite_forms() {
    assert_eq!(parse_watch_duration("1.5h2m5s"), Ok(5_525_000));
    assert_eq!(parse_watch_duration("2m"), Ok(120_000));
    assert_eq!(parse_watch_duration("5s"), Ok(5_000));
    assert_eq!(parse_watch_duration("1.5h"), Ok(5_400_000));
    assert_eq!(parse_watch_duration("1H30M"), Ok(5_400_000));
}

#[test]
fn bare_seconds() {
    assert_eq!(parse_watch_duration("5"), Ok(5_000));
    assert_eq!(parse_watch_duration("0.25"), Ok(250));
    assert_eq!(parse_watch_duration(".5"), Ok(500));
    assert_eq!(parse_watch_duration("0"), Ok(0));
}

#[test]
fn fraction_past_sixth_digit_is_ignored() {
    assert_eq!(parse_watch_duration("0.0000019"), Ok(0));
    assert_eq!(parse_watch_duration("0.001h"), Ok(3_600));
}

#[test]
fn refused_inputs() {
    assert_eq!(parse_watch_duration("abc"), Err(DurationError::Invalid));
    assert_eq!(parse_watch_duration(""), Err(DurationError::Invalid));
    assert_eq!(parse_watch_duration("0h"), Err(DurationError::Invalid));
    assert_eq!(parse_watch_duration("-1"), Err(DurationError::Invalid));
    assert_eq!(parse_watch_duration("1.2.3"), Err(DurationError::Invalid));
}

#[test]
fn too_large() {
    assert_eq!(parse_watch_duration("99999999999999999999"), Err(DurationError::TooLarge));
    assert_eq!(parse_watch_duration("9999999999999999h"), Err(DurationError::TooLarge));
}
