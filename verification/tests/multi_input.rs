use may_clack::error::ClackError;
use may_clack::input::AsciiValidate;
use may_clack::multi_input::multi_input;

fn lines(texts: &[&str]) -> Vec<String> {
    texts.iter().map(|t| t.to_string()).collect()
}

#[test]
fn multi_input_empty_submission_ends_once_minimum_met() {
    let q = multi_input("m");
    let answer = q.interact_lines(&lines(&["a", ""]));
    assert_eq!(answer, Ok(lines(&["a"])));
}

#[test]
fn multi_input_minimum_keeps_rejecting_empty() {
    let q = multi_input("m").min(2);
    let answer = q.interact_lines(&lines(&["a", "", "b", ""]));
    assert_eq!(answer, Ok(lines(&["a", "b"])));
}

#[test]
fn multi_input_maximum_submits_on_its_own() {
    let q = multi_input("m").max(2);
    let answer = q.interact_lines(&lines(&["a", "b", "never read"]));
    assert_eq!(answer, Ok(lines(&["a", "b"])));
}

#[test]
fn multi_input_exhausted_lines_cancel() {
    let q = multi_input("m");
    let answer = q.interact_lines(&lines(&["a"]));
    assert_eq!(answer, Err(ClackError::Cancelled));
}

#[test]
fn multi_input_validator_rejections_are_skipped() {
    let q = multi_input("m").validate(AsciiValidate);
    let answer = q.interact_lines(&lines(&["héllo", "ok", ""]));
    assert_eq!(answer, Ok(lines(&["ok"])));
}

#[test]
fn multi_parse_lines_collects_numbers() {
    let q = multi_input("n").min(2);
    let answer = q.parse_lines(&lines(&["1", "nope", "-2", ""]));
    assert_eq!(answer, Ok(vec![1, -2]));
}

#[test]
fn multi_parse_lines_maximum_submits_on_its_own() {
    let q = multi_input("n").max(2);
    let answer = q.parse_lines(&lines(&["5", "6", "never read"]));
    assert_eq!(answer, Ok(vec![5, 6]));
}

#[test]
fn multi_parse_lines_exhausted_lines_cancel() {
    let q = multi_input("n");
    assert_eq!(q.parse_lines(&lines(&["3"])), Err(ClackError::Cancelled));
}

#[test]
fn multi_input_builders_carry_configuration() {
    let q = multi_input("m").min(2).max(5).initial_value("i").placeholder("p");
    assert_eq!(q.min, 2);
    assert_eq!(q.max, 5);
    assert_eq!(q.initial_value, Some("i".to_string()));
    assert_eq!(q.placeholder, Some("p".to_string()));
}
