//! The trusted edge to the terminal: raw key events, cursor motion, raw
//! mode, the line editor, and text styling. Every function here wraps one
//! call into an outside crate (or std) and is believed, not verified; all
//! decisions about *what* to paint or *how* to react are made by verified
//! code elsewhere.
use vstd::prelude::*;
use std::io::Write;
use crossterm::ExecutableCommand;
use crossterm::event::{read, Event, KeyCode as K, KeyModifiers as M};
use crate::key::Key::{Up, Down, Left, Right, PageUp, PageDown, Enter, Char, CtrlC, CtrlD};
use rustyline::error::ReadlineError as R;
use unicode_truncate::UnicodeTruncateStr;
use owo_colors::OwoColorize;
use crate::error::ClackError;
use crate::key::Key;

verus! {

/// What a string looks like after `unicode_truncate` cut it to a display
/// width: a function of the characters and the width alone.
pub uninterp spec fn trunc_of(s: Seq<char>, width: int) -> Seq<char>;

/// Relies on `is_unicode_supported::is_unicode_supported`: whether the
/// terminal is expected to render Unicode. Depends on the environment, so
/// nothing is promised of the answer.
#[verifier::external_body]
pub(crate) fn unicode_supported() -> bool {
    is_unicode_supported::is_unicode_supported()
}

/// Relies on `crossterm::terminal::size`: the terminal's `(columns, rows)`,
/// or `None` where it cannot be read. Depends on the terminal, so nothing is
/// promised of the answer.
#[verifier::external_body]
pub(crate) fn term_size() -> Option<(u16, u16)> {
    crossterm::terminal::size().ok()
}

/// Relies on `crossterm::terminal::enable_raw_mode`.
#[verifier::external_body]
pub(crate) fn enable_raw() -> (r: Result<(), ClackError>)
    ensures
        r matches Err(e) ==> e == ClackError::IoError,
{
    crossterm::terminal::enable_raw_mode().map_err(|_| ClackError::IoError)
}

/// Relies on `crossterm::terminal::disable_raw_mode`.
#[verifier::external_body]
pub(crate) fn disable_raw() -> (r: Result<(), ClackError>)
    ensures
        r matches Err(e) ==> e == ClackError::IoError,
{
    crossterm::terminal::disable_raw_mode().map_err(|_| ClackError::IoError)
}

/// Relies on `crossterm::event::read`, mapping key events onto [`Key`] and
/// every other event to `None`. What comes back depends on the user, so only
/// the error case is pinned down.
#[verifier::external_body]
pub(crate) fn read_key() -> (r: Result<Option<Key>, ClackError>)
    ensures
        r matches Err(e) ==> e == ClackError::IoError,
{
    match read() {
        Err(_) => Err(ClackError::IoError),
        Ok(Event::Key(k)) => Ok(match k.code {
            K::Char('c') if k.modifiers == M::CONTROL => Some(CtrlC),
            K::Char('d') if k.modifiers == M::CONTROL => Some(CtrlD),
            K::Up => Some(Up), K::Down => Some(Down),
            K::Left => Some(Left), K::Right => Some(Right),
            K::PageUp => Some(PageUp), K::PageDown => Some(PageDown),
            K::Enter => Some(Enter), K::Char(c) => Some(Char(c)),
            _ => None,
        }),
        Ok(_) => Ok(None),
    }
}

/// Relies on `rustyline`'s `DefaultEditor::new` and
/// `readline`/`readline_with_initial`: reads one line of text, pre-filling
/// the buffer with `initial` when given. `Interrupted` and `Eof` both mean
/// the user cancelled. The text itself is the user's, so nothing is promised
/// of it.
#[verifier::external_body]
pub(crate) fn read_line(prompt: &str, initial: Option<&String>) -> (r: Result<String, ClackError>)
    ensures
        r matches Err(e) ==> (e == ClackError::Cancelled || e == ClackError::ReadlineError),
{
    let mut editor = match rustyline::DefaultEditor::new() {
        Ok(editor) => editor,
        Err(_) => { return Err(ClackError::ReadlineError); },
    };
    match match initial {
        Some(init) => editor.readline_with_initial(prompt, (init.as_str(), "")),
        None => editor.readline(prompt),
    } {
        Ok(line) => Ok(line),
        Err(R::Interrupted) | Err(R::Eof) => Err(ClackError::Cancelled),
        Err(_) => Err(ClackError::ReadlineError),
    }
}

/// Relies on `std::io::Stdout::write_all` (and a flush): prints `s` as it
/// stands, with no newline added. A failed write surfaces as `IoError` so
/// the prompt can abort, as the renderer's failure semantics demand.
#[verifier::external_body]
pub(crate) fn term_write(s: &str) -> (r: Result<(), ClackError>)
    ensures
        r matches Err(e) ==> e == ClackError::IoError,
{
    let mut out = std::io::stdout();
    out.write_all(s.as_bytes()).map_err(|_| ClackError::IoError)?;
    out.flush().map_err(|_| ClackError::IoError)
}

/// Relies on `crossterm::cursor::MoveUp` executed on stdout.
#[verifier::external_body]
pub(crate) fn move_up(n: u16) {
    let _ = std::io::stdout().execute(crossterm::cursor::MoveUp(n));
}

/// Relies on `crossterm::cursor::MoveDown` executed on stdout.
#[verifier::external_body]
pub(crate) fn move_down(n: u16) {
    let _ = std::io::stdout().execute(crossterm::cursor::MoveDown(n));
}

/// Relies on `crossterm::cursor::MoveToColumn` executed on stdout.
#[verifier::external_body]
pub(crate) fn move_to_column(col: u16) {
    let _ = std::io::stdout().execute(crossterm::cursor::MoveToColumn(col));
}

/// Relies on `crossterm::cursor::MoveToPreviousLine` executed on stdout.
#[verifier::external_body]
pub(crate) fn move_to_previous_line(n: u16) {
    let _ = std::io::stdout().execute(crossterm::cursor::MoveToPreviousLine(n));
}

/// Relies on `crossterm::cursor::MoveToNextLine` executed on stdout.
#[verifier::external_body]
pub(crate) fn move_to_next_line(n: u16) {
    let _ = std::io::stdout().execute(crossterm::cursor::MoveToNextLine(n));
}

/// Relies on `crossterm::cursor::Hide` executed on stdout.
#[verifier::external_body]
pub(crate) fn hide_cursor() {
    let _ = std::io::stdout().execute(crossterm::cursor::Hide);
}

/// Relies on `crossterm::cursor::Show` executed on stdout.
#[verifier::external_body]
pub(crate) fn show_cursor() {
    let _ = std::io::stdout().execute(crossterm::cursor::Show);
}

/// Relies on `unicode_truncate::UnicodeTruncateStr::unicode_truncate`: the
/// longest prefix of `s` whose display width fits in `width`. The cut point
/// depends on display-width tables, so the result is only named; it never
/// grows the text.
#[verifier::external_body]
pub(crate) fn trunc_str(s: &str, width: usize) -> (r: String)
    ensures
        r@ == trunc_of(s@, width as int),
        r@.len() <= s@.len(),
{
    s.unicode_truncate(width).0.to_owned()
}

/// The exact text `owo_colors` produces for a cyan foreground.
pub open spec fn cyan_of(s: Seq<char>) -> Seq<char> {
    "\u{1b}[36m"@ + s + "\u{1b}[39m"@
}

/// The exact text `owo_colors` produces for a green foreground.
pub open spec fn green_of(s: Seq<char>) -> Seq<char> {
    "\u{1b}[32m"@ + s + "\u{1b}[39m"@
}

/// The exact text `owo_colors` produces for a red foreground.
pub open spec fn red_of(s: Seq<char>) -> Seq<char> {
    "\u{1b}[31m"@ + s + "\u{1b}[39m"@
}

/// The exact text `owo_colors` produces for a yellow foreground.
pub open spec fn yellow_of(s: Seq<char>) -> Seq<char> {
    "\u{1b}[33m"@ + s + "\u{1b}[39m"@
}

/// The exact text `owo_colors` produces for dimmed text.
pub open spec fn dim_of(s: Seq<char>) -> Seq<char> {
    "\u{1b}[2m"@ + s + "\u{1b}[0m"@
}

/// The exact text `owo_colors` produces for italic text.
pub open spec fn italic_of(s: Seq<char>) -> Seq<char> {
    "\u{1b}[3m"@ + s + "\u{1b}[0m"@
}

/// The exact text `owo_colors` produces for struck-through text.
pub open spec fn strike_of(s: Seq<char>) -> Seq<char> {
    "\u{1b}[9m"@ + s + "\u{1b}[0m"@
}

/// Relies on `owo_colors::OwoColorize::cyan` on `&str`: writes `ESC[36m`,
/// the text, `ESC[39m`.
#[verifier::external_body]
pub(crate) fn style_cyan(s: &str) -> (r: String)
    ensures
        r@ == cyan_of(s@),
{
    format!("{}", s.cyan())
}

/// Relies on `owo_colors::OwoColorize::green` on `&str`: writes `ESC[32m`,
/// the text, `ESC[39m`.
#[verifier::external_body]
pub(crate) fn style_green(s: &str) -> (r: String)
    ensures
        r@ == green_of(s@),
{
    format!("{}", s.green())
}

/// Relies on `owo_colors::OwoColorize::red` on `&str`: writes `ESC[31m`,
/// the text, `ESC[39m`.
#[verifier::external_body]
pub(crate) fn style_red(s: &str) -> (r: String)
    ensures
        r@ == red_of(s@),
{
    format!("{}", s.red())
}

/// Relies on `owo_colors::OwoColorize::yellow` on `&str`: writes `ESC[33m`,
/// the text, `ESC[39m`.
#[verifier::external_body]
pub(crate) fn style_yellow(s: &str) -> (r: String)
    ensures
        r@ == yellow_of(s@),
{
    format!("{}", s.yellow())
}

/// Relies on `owo_colors::OwoColorize::dimmed` on `&str`: writes `ESC[2m`,
/// the text, `ESC[0m`.
#[verifier::external_body]
pub(crate) fn style_dim(s: &str) -> (r: String)
    ensures
        r@ == dim_of(s@),
{
    format!("{}", s.dimmed())
}

/// Relies on `owo_colors::OwoColorize::italic` on `&str`: writes `ESC[3m`,
/// the text, `ESC[0m`.
#[verifier::external_body]
pub(crate) fn style_italic(s: &str) -> (r: String)
    ensures
        r@ == italic_of(s@),
{
    format!("{}", s.italic())
}

/// Relies on `owo_colors::OwoColorize::strikethrough` on `&str`: writes
/// `ESC[9m`, the text, `ESC[0m`.
#[verifier::external_body]
pub(crate) fn style_strikethrough(s: &str) -> (r: String)
    ensures
        r@ == strike_of(s@),
{
    format!("{}", s.strikethrough())
}

} // verus!
