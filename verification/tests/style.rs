use may_clack::error::ClackError;
use may_clack::input::input;
use may_clack::style::{is_unicode, Glyphs, CLEAR_LINE};
use may_clack::traits::IsCancel;

#[test]
fn is_unicode_selects_by_capability() {
    assert_eq!(is_unicode("u", "a", true), "u");
    assert_eq!(is_unicode("u", "a", false), "a");
}

#[test]
fn unicode_glyphs() {
    let g = Glyphs::new(true);
    assert_eq!(g.bar(), "\u{2502}");
    assert_eq!(g.bar_start(), "\u{250c}");
    assert_eq!(g.bar_end(), "\u{2514}");
    assert_eq!(g.step_active(), "\u{25c6}");
    assert_eq!(g.step_cancel(), "\u{25a0}");
    assert_eq!(g.step_error(), "\u{25b2}");
    assert_eq!(g.step_submit(), "\u{25c7}");
    assert_eq!(g.radio_active(), "\u{25cf}");
    assert_eq!(g.radio_inactive(), "\u{25cb}");
    assert_eq!(g.checkbox_active(), "\u{25fb}");
    assert_eq!(g.checkbox_selected(), "\u{25fc}");
    assert_eq!(g.checkbox_inactive(), "\u{25fb}");
}

#[test]
fn ascii_fallback_glyphs() {
    let g = Glyphs::new(false);
    assert_eq!(g.bar(), "|");
    assert_eq!(g.bar_start(), "T");
    assert_eq!(g.bar_end(), "\u{2014}");
    assert_eq!(g.step_active(), "*");
    assert_eq!(g.step_cancel(), "x");
    assert_eq!(g.step_error(), "x");
    assert_eq!(g.step_submit(), "o");
    assert_eq!(g.radio_active(), ">");
    assert_eq!(g.radio_inactive(), " ");
    assert_eq!(g.checkbox_active(), "[.]");
    assert_eq!(g.checkbox_selected(), "[+]");
    assert_eq!(g.checkbox_inactive(), "[ ]");
}

#[test]
fn clear_line_is_the_ansi_sequence() {
    assert_eq!(CLEAR_LINE, "\u{1b}[2K");
}

#[test]
fn is_cancel_spots_cancellation() {
    let cancelled: Result<u32, ClackError> = Err(ClackError::Cancelled);
    let io: Result<u32, ClackError> = Err(ClackError::IoError);
    let fine: Result<u32, ClackError> = Ok(1);
    assert!(cancelled.is_cancel());
    assert!(!io.is_cancel());
    assert!(!fine.is_cancel());
}

#[test]
fn cancelled_line_run_is_cancel() {
    let q = input("m");
    let r = q.interact_lines(&vec![], true);
    assert!(r.is_cancel());
}
