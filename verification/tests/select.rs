use may_clack::error::ClackError;
use may_clack::key::Key;
use may_clack::select::{select, Opt, Select};
use may_clack::style::Glyphs;
use may_clack::traits::NoCancel;

#[test]
fn select_down_enter_picks_second() {
    let answer = select::<&str>("pick")
        .option("a", "Alpha")
        .option("b", "Beta")
        .interact_keys(&vec![Key::Down, Key::Enter]);
    assert_eq!(answer, Ok("b"));
}

#[test]
fn select_enter_picks_value_not_label() {
    let answer = select::<&str>("pick")
        .option("value", "label")
        .interact_keys(&vec![Key::Enter]);
    assert_eq!(answer, Ok("value"));
}

#[test]
fn select_no_options_fails_fast() {
    let answer = select::<&str>("x").interact_keys(&vec![Key::Enter]);
    assert_eq!(answer, Err(ClackError::NoOptions));
}

#[test]
fn select_up_wraps_to_last() {
    let answer = select::<u32>("pick")
        .option(1, "one")
        .option(2, "two")
        .option(3, "three")
        .interact_keys(&vec![Key::Up, Key::Enter]);
    assert_eq!(answer, Ok(3));
}

#[test]
fn select_down_wraps_to_first() {
    let answer = select::<u32>("pick")
        .option(1, "one")
        .option(2, "two")
        .interact_keys(&vec![Key::Down, Key::Down, Key::Enter]);
    assert_eq!(answer, Ok(1));
}

#[test]
fn select_ignores_unknown_keys() {
    let answer = select::<&str>("pick")
        .option("a", "A")
        .option("b", "B")
        .interact_keys(&vec![Key::Char('x'), Key::Enter]);
    assert_eq!(answer, Ok("a"));
}

#[test]
fn select_ctrl_c_cancels() {
    let answer = select::<&str>("pick")
        .option("a", "A")
        .interact_keys(&vec![Key::CtrlC]);
    assert_eq!(answer, Err(ClackError::Cancelled));
}

#[test]
fn select_exhausted_keys_cancel() {
    let answer = select::<&str>("pick")
        .option("a", "A")
        .interact_keys(&vec![]);
    assert_eq!(answer, Err(ClackError::Cancelled));
}

#[test]
fn select_page_down_clamps_to_end() {
    // window of 3 over 5 options: one page down from the top lands on
    // index 3, and a second ends on the last option.
    let answer = select::<u32>("pick")
        .option(0, "zero")
        .option(1, "one")
        .option(2, "two")
        .option(3, "three")
        .option(4, "four")
        .less_amt(3)
        .interact_keys(&vec![Key::PageDown, Key::Enter]);
    assert_eq!(answer, Ok(3));

    let answer = select::<u32>("pick")
        .option(0, "zero")
        .option(1, "one")
        .option(2, "two")
        .option(3, "three")
        .option(4, "four")
        .less_amt(3)
        .interact_keys(&vec![Key::PageDown, Key::PageDown, Key::Enter]);
    assert_eq!(answer, Ok(4));
}

#[test]
fn select_paged_navigation_wraps() {
    let answer = select::<u32>("pick")
        .option(0, "zero")
        .option(1, "one")
        .option(2, "two")
        .option(3, "three")
        .option(4, "four")
        .less_amt(2)
        .interact_keys(&vec![Key::Up, Key::Enter]);
    assert_eq!(answer, Ok(4));
}

#[test]
fn select_builders_accumulate_options() {
    let mut q: Select<&str, NoCancel> = select("m");
    q = q.option("a", "A").option_hint("b", "B", "hint");
    let answer = q.interact_keys(&vec![Key::Down, Key::Enter]);
    assert_eq!(answer, Ok("b"));
}

#[test]
fn select_options_replaces_list() {
    let opts = vec![
        Opt::simple("x", "X"),
        Opt::hint("y", "Y", "why"),
    ];
    let answer = select::<&str>("m")
        .option("dropped", "dropped")
        .options(opts)
        .interact_keys(&vec![Key::Down, Key::Enter]);
    assert_eq!(answer, Ok("y"));
}

#[test]
fn focus_line_styles_radio_and_label() {
    let opt = Opt::simple("v", "label");
    let line = opt.focus(&Glyphs::new(true), None);
    assert_eq!(line, "\u{1b}[32m\u{25cf}\u{1b}[39m label");
}

#[test]
fn focus_line_shows_dimmed_hint() {
    let opt = Opt::hint("v", "label", "hint");
    let line = opt.focus(&Glyphs::new(true), None);
    assert_eq!(line, "\u{1b}[32m\u{25cf}\u{1b}[39m label \u{1b}[2m(hint)\u{1b}[0m");
}

#[test]
fn unfocus_line_dims_everything() {
    let opt = Opt::simple("v", "label");
    let line = opt.unfocus(&Glyphs::new(false), None);
    assert_eq!(line, "\u{1b}[2m \u{1b}[0m \u{1b}[2mlabel\u{1b}[0m");
}

#[test]
fn focus_line_truncates_to_terminal_width() {
    let opt = Opt::simple("v", "abcdefghij");
    let line = opt.focus(&Glyphs::new(true), Some((10, 24)));
    assert_eq!(line, "\u{1b}[32m\u{25cf}\u{1b}[39m abcde");
}

#[test]
fn unfocus_line_on_tiny_terminal_keeps_nothing() {
    let opt = Opt::simple("v", "abcdefghij");
    let line = opt.unfocus(&Glyphs::new(true), Some((4, 24)));
    assert_eq!(line, "\u{1b}[2m\u{25cb}\u{1b}[0m \u{1b}[2m\u{1b}[0m");
}
