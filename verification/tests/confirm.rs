use may_clack::confirm::{confirm, Confirm};
use may_clack::error::ClackError;
use may_clack::key::Key;
use may_clack::style::Glyphs;
use may_clack::traits::NoCancel;

#[test]
fn confirm_enter_submits_default_no() {
    let q = confirm("sure?");
    assert_eq!(q.interact_keys(&vec![Key::Enter]), Ok(false));
}

#[test]
fn confirm_enter_submits_initial_value() {
    let q = confirm("sure?").initial_value(true);
    assert_eq!(q.interact_keys(&vec![Key::Enter]), Ok(true));
}

#[test]
fn confirm_any_arrow_flips() {
    let q = confirm("sure?");
    assert_eq!(q.interact_keys(&vec![Key::Down, Key::Enter]), Ok(true));
    assert_eq!(q.interact_keys(&vec![Key::Left, Key::Right, Key::Enter]), Ok(false));
    assert_eq!(q.interact_keys(&vec![Key::Up, Key::Enter]), Ok(true));
}

#[test]
fn confirm_y_and_n_answer_at_once() {
    let q = confirm("sure?");
    assert_eq!(q.interact_keys(&vec![Key::Char('y')]), Ok(true));
    assert_eq!(q.interact_keys(&vec![Key::Char('Y')]), Ok(true));
    assert_eq!(q.interact_keys(&vec![Key::Char('n')]), Ok(false));
    assert_eq!(q.interact_keys(&vec![Key::Char('N')]), Ok(false));
    // y/n answer immediately even after flips
    assert_eq!(q.interact_keys(&vec![Key::Down, Key::Char('n')]), Ok(false));
}

#[test]
fn confirm_ctrl_c_and_ctrl_d_cancel() {
    let q = confirm("sure?");
    assert_eq!(q.interact_keys(&vec![Key::CtrlC]), Err(ClackError::Cancelled));
    assert_eq!(q.interact_keys(&vec![Key::CtrlD]), Err(ClackError::Cancelled));
}

#[test]
fn confirm_other_keys_are_ignored() {
    let q = confirm("sure?");
    assert_eq!(q.interact_keys(&vec![Key::Char('q'), Key::Enter]), Ok(false));
}

#[test]
fn confirm_exhausted_keys_cancel() {
    let q = confirm("sure?");
    assert_eq!(q.interact_keys(&vec![]), Err(ClackError::Cancelled));
}

#[test]
fn radio_line_marks_current_answer() {
    let q: Confirm<NoCancel> = Confirm::new("sure?");
    let g = Glyphs::new(true);
    // `radio` renders with the prompt's own glyph set; build one with a
    // known set for an exact expectation.
    let q = Confirm {
        message: q.message,
        initial_value: q.initial_value,
        prompts: q.prompts,
        cancel: q.cancel,
        glyphs: g,
    };
    assert_eq!(
        q.radio(true),
        "\u{1b}[32m\u{25cf}\u{1b}[39m yes / \u{1b}[2m\u{25cb} no\u{1b}[0m"
    );
    assert_eq!(
        q.radio(false),
        "\u{1b}[2m\u{25cb} yes\u{1b}[0m / \u{1b}[32m\u{25cf}\u{1b}[39m no"
    );
}

#[test]
fn radio_uses_configured_prompts() {
    let q = Confirm {
        message: "m".to_string(),
        initial_value: false,
        prompts: ("true".to_string(), "false".to_string()),
        cancel: NoCancel,
        glyphs: Glyphs::new(false),
    };
    assert_eq!(
        q.radio_pnt(true, "true"),
        "\u{1b}[32m>\u{1b}[39m true"
    );
    assert_eq!(q.radio_pnt(false, "false"), "\u{1b}[2m  false\u{1b}[0m");
}
