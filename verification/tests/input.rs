use may_clack::error::ClackError;
use may_clack::input::{input, parse_i64, AsciiValidate, Input, NoValidate};
use may_clack::traits::NoCancel;

fn lines(texts: &[&str]) -> Vec<String> {
    texts.iter().map(|t| t.to_string()).collect()
}

#[test]
fn required_skips_empty_submissions() {
    let q = input("name");
    let answer = q.interact_lines(&lines(&["", "", "abc"]), true);
    assert_eq!(answer, Ok(Some("abc".to_string())));
}

#[test]
fn required_never_accepts_only_empty_lines() {
    let q = input("name");
    let answer = q.interact_lines(&lines(&["", "", ""]), true);
    assert_eq!(answer, Err(ClackError::Cancelled));
}

#[test]
fn optional_empty_submission_is_none() {
    let q = input("name");
    let answer = q.interact_lines(&lines(&[""]), false);
    assert_eq!(answer, Ok(None));
}

#[test]
fn prefilled_line_submits_immediately() {
    // An untouched submit hands the pre-filled initial value back as the
    // line itself.
    let q = input("name").initial_value("42");
    let answer = q.interact_lines(&lines(&["42"]), false);
    assert_eq!(answer, Ok(Some("42".to_string())));
}

#[test]
fn validator_rejections_keep_asking() {
    let q = input("name").validate(AsciiValidate);
    let answer = q.interact_lines(&lines(&["héllo", "wörld", "ok"]), true);
    assert_eq!(answer, Ok(Some("ok".to_string())));
}

#[test]
fn validator_rejects_to_the_end() {
    let q = input("name").validate(AsciiValidate);
    let answer = q.interact_lines(&lines(&["héllo"]), true);
    assert_eq!(answer, Err(ClackError::Cancelled));
}

#[test]
fn builders_carry_configuration() {
    let q: Input<NoValidate, NoCancel> = Input::new("m");
    let q = q.placeholder("type here").initial_value("x").maybe_initial(Some("y"));
    assert_eq!(q.placeholder, Some("type here".to_string()));
    assert_eq!(q.initial_value, Some("y".to_string()));
    let q = q.maybe_initial(None);
    assert_eq!(q.initial_value, Some("y".to_string()));
}

#[test]
fn parse_i64_reads_plain_numbers() {
    assert_eq!(parse_i64("0"), Some(0));
    assert_eq!(parse_i64("42"), Some(42));
    assert_eq!(parse_i64("-7"), Some(-7));
    assert_eq!(parse_i64("123456789"), Some(123456789));
}

#[test]
fn parse_i64_allows_leading_zeroes() {
    assert_eq!(parse_i64("0042"), Some(42));
    assert_eq!(parse_i64("-000"), Some(0));
    assert_eq!(parse_i64("00000000000000000000042"), Some(42));
}

#[test]
fn parse_i64_rejects_non_numbers() {
    assert_eq!(parse_i64(""), None);
    assert_eq!(parse_i64("-"), None);
    assert_eq!(parse_i64("12a"), None);
    assert_eq!(parse_i64("a12"), None);
    assert_eq!(parse_i64("1.5"), None);
    assert_eq!(parse_i64(" 1"), None);
    assert_eq!(parse_i64("+1"), None);
    assert_eq!(parse_i64("--1"), None);
}

#[test]
fn parse_lines_skips_bad_numbers() {
    let q = input("n");
    let answer = q.parse_lines(&lines(&["", "twelve", "1.5", "42"]), true);
    assert_eq!(answer, Ok(Some(42)));
}

#[test]
fn parse_lines_optional_empty_is_none() {
    let q = input("n");
    assert_eq!(q.parse_lines(&lines(&[""]), false), Ok(None));
}

#[test]
fn parse_lines_required_never_accepts_empty() {
    let q = input("n");
    assert_eq!(q.parse_lines(&lines(&["", ""]), true), Err(ClackError::Cancelled));
}

#[test]
fn parse_lines_respects_the_validator() {
    let q = input("n").validate(AsciiValidate);
    // a non-ascii line is rejected before parsing ever sees it
    let answer = q.parse_lines(&lines(&["４２", "7"]), true);
    assert_eq!(answer, Ok(Some(7)));
}

#[test]
fn parse_i64_honours_the_i64_range() {
    assert_eq!(parse_i64("9223372036854775807"), Some(i64::MAX));
    assert_eq!(parse_i64("9223372036854775808"), None);
    assert_eq!(parse_i64("-9223372036854775808"), Some(i64::MIN));
    assert_eq!(parse_i64("-9223372036854775809"), None);
    assert_eq!(parse_i64("99999999999999999999"), None);
    assert_eq!(parse_i64("-99999999999999999999"), None);
}
