use may_clack::error::ClackError;
use may_clack::key::Key;
use may_clack::multi_select::{join, multi_select, Opt};
use may_clack::style::Glyphs;

#[test]
fn multi_select_space_then_enter_keeps_list_order() {
    let answer = multi_select::<&str>("pick")
        .option("a", "A")
        .option("b", "B")
        .interact_keys(&vec![Key::Char(' '), Key::Down, Key::Char(' '), Key::Enter]);
    assert_eq!(answer, Ok(vec!["a", "b"]));
}

#[test]
fn multi_select_order_is_list_order_not_toggle_order() {
    let answer = multi_select::<&str>("pick")
        .option("a", "A")
        .option("b", "B")
        .option("c", "C")
        .interact_keys(&vec![
            Key::Down,
            Key::Down,
            Key::Char(' '),
            Key::Up,
            Key::Up,
            Key::Char(' '),
            Key::Enter,
        ]);
    assert_eq!(answer, Ok(vec!["a", "c"]));
}

#[test]
fn multi_select_toggle_twice_excludes_option() {
    let answer = multi_select::<&str>("pick")
        .option("a", "A")
        .option("b", "B")
        .interact_keys(&vec![Key::Char(' '), Key::Char(' '), Key::Enter]);
    assert_eq!(answer, Ok(vec![]));
}

#[test]
fn multi_select_nothing_toggled_submits_empty() {
    let answer = multi_select::<&str>("pick")
        .option("a", "A")
        .interact_keys(&vec![Key::Enter]);
    assert_eq!(answer, Ok(vec![]));
}

#[test]
fn multi_select_no_options_fails_fast() {
    let answer = multi_select::<&str>("x").interact_keys(&vec![Key::Enter]);
    assert_eq!(answer, Err(ClackError::NoOptions));
}

#[test]
fn multi_select_ctrl_c_cancels() {
    let answer = multi_select::<&str>("pick")
        .option("a", "A")
        .interact_keys(&vec![Key::Char(' '), Key::CtrlC]);
    assert_eq!(answer, Err(ClackError::Cancelled));
}

#[test]
fn multi_select_paged_toggle() {
    let answer = multi_select::<u32>("pick")
        .option(0, "zero")
        .option(1, "one")
        .option(2, "two")
        .option(3, "three")
        .option(4, "four")
        .less_amt(3)
        .interact_keys(&vec![Key::PageDown, Key::Char(' '), Key::Enter]);
    assert_eq!(answer, Ok(vec![3]));
}

#[test]
fn opt_toggle_flips_active() {
    let mut opt = Opt::simple("v", "label");
    assert!(!opt.active);
    opt.toggle();
    assert!(opt.active);
    opt.toggle();
    assert!(!opt.active);
}

#[test]
fn join_inserts_commas() {
    let labels = vec!["a".to_string(), "b".to_string(), "c".to_string()];
    assert_eq!(join(&labels), "a, b, c");
    let one = vec!["only".to_string()];
    assert_eq!(join(&one), "only");
    let none: Vec<String> = vec![];
    assert_eq!(join(&none), "");
}

#[test]
fn multi_focus_line_marks_checked_green() {
    let mut opt = Opt::simple("v", "label");
    let g = Glyphs::new(true);
    assert_eq!(opt.focus(&g, None), "\u{1b}[36m\u{25fb}\u{1b}[39m label");
    opt.toggle();
    assert_eq!(opt.focus(&g, None), "\u{1b}[32m\u{25fc}\u{1b}[39m label");
}

#[test]
fn multi_unfocus_line_keeps_checked_green() {
    let mut opt = Opt::simple("v", "label");
    let g = Glyphs::new(true);
    assert_eq!(opt.unfocus(&g, None), "\u{1b}[2m\u{25fb}\u{1b}[0m \u{1b}[2mlabel\u{1b}[0m");
    opt.toggle();
    assert_eq!(opt.unfocus(&g, None), "\u{1b}[32m\u{25fc}\u{1b}[39m \u{1b}[2mlabel\u{1b}[0m");
}

#[test]
fn multi_focus_line_truncates_ascii_chrome() {
    // In the ASCII glyph set the checkbox is three cells wide, so a
    // 12-column terminal leaves 12 - 7 = 5 label cells.
    let opt = Opt::simple("v", "abcdefghij");
    let line = opt.focus(&Glyphs::new(false), Some((12, 24)));
    assert_eq!(line, "\u{1b}[36m[.]\u{1b}[39m abcde");
}
