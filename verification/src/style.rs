//! Prompt decoration glyphs and the ANSI clear-line sequence.
//!
//! Every glyph has a Unicode form and an ASCII fallback; which one is used
//! is decided once, by a terminal-capability probe, and carried in a
//! [`Glyphs`] value that the prompts hold — there is no hidden global state.
use vstd::prelude::*;

verus! {

/// The ANSI escape sequence that clears the current line.
pub const CLEAR_LINE: &'static str = "\u{1b}[2K";

/// Selects the Unicode form of a glyph, or its fallback.
pub fn is_unicode(unicode: &'static str, non_unicode: &'static str, supported: bool) -> (r:
    &'static str)
    ensures
        r@ == if supported {
            unicode@
        } else {
            non_unicode@
        },
{
    if supported {
        unicode
    } else {
        non_unicode
    }
}

/// The fixed set of prompt-decoration glyphs, keyed once on whether the
/// terminal renders Unicode.
#[derive(Clone, Copy, Debug, PartialEq, Eq, Structural)]
pub struct Glyphs {
    /// Whether the Unicode forms are used.
    pub unicode: bool,
}

/// Straight left bar.
pub open spec fn spec_bar(g: Glyphs) -> Seq<char> {
    if g.unicode {
        "│"@
    } else {
        "|"@
    }
}

/// Start bar.
pub open spec fn spec_bar_start(g: Glyphs) -> Seq<char> {
    if g.unicode {
        "┌"@
    } else {
        "T"@
    }
}

/// End bar.
pub open spec fn spec_bar_end(g: Glyphs) -> Seq<char> {
    if g.unicode {
        "└"@
    } else {
        "—"@
    }
}

/// Active step.
pub open spec fn spec_step_active(g: Glyphs) -> Seq<char> {
    if g.unicode {
        "◆"@
    } else {
        "*"@
    }
}

/// Cancelled step.
pub open spec fn spec_step_cancel(g: Glyphs) -> Seq<char> {
    if g.unicode {
        "■"@
    } else {
        "x"@
    }
}

/// Error step.
pub open spec fn spec_step_error(g: Glyphs) -> Seq<char> {
    if g.unicode {
        "▲"@
    } else {
        "x"@
    }
}

/// Submitted step.
pub open spec fn spec_step_submit(g: Glyphs) -> Seq<char> {
    if g.unicode {
        "◇"@
    } else {
        "o"@
    }
}

/// Active radio point.
pub open spec fn spec_radio_active(g: Glyphs) -> Seq<char> {
    if g.unicode {
        "●"@
    } else {
        ">"@
    }
}

/// Inactive radio point.
pub open spec fn spec_radio_inactive(g: Glyphs) -> Seq<char> {
    if g.unicode {
        "○"@
    } else {
        " "@
    }
}

/// Focused checkbox.
pub open spec fn spec_checkbox_active(g: Glyphs) -> Seq<char> {
    if g.unicode {
        "◻"@
    } else {
        "[.]"@
    }
}

/// Checked checkbox.
pub open spec fn spec_checkbox_selected(g: Glyphs) -> Seq<char> {
    if g.unicode {
        "◼"@
    } else {
        "[+]"@
    }
}

/// Unchecked checkbox.
pub open spec fn spec_checkbox_inactive(g: Glyphs) -> Seq<char> {
    if g.unicode {
        "◻"@
    } else {
        "[ ]"@
    }
}

impl Glyphs {
    /// A glyph set with the given Unicode capability.
    pub fn new(unicode: bool) -> (g: Glyphs)
        ensures
            g.unicode == unicode,
    {
        Glyphs { unicode }
    }

    /// A glyph set keyed on a probe of the running terminal.
    pub fn detect() -> Glyphs {
        Glyphs { unicode: crate::term::unicode_supported() }
    }

    /// Straight left bar.
    pub fn bar(&self) -> (r: &'static str)
        ensures
            r@ == spec_bar(*self),
    {
        is_unicode("│", "|", self.unicode)
    }

    /// Start bar.
    pub fn bar_start(&self) -> (r: &'static str)
        ensures
            r@ == spec_bar_start(*self),
    {
        is_unicode("┌", "T", self.unicode)
    }

    /// End bar.
    pub fn bar_end(&self) -> (r: &'static str)
        ensures
            r@ == spec_bar_end(*self),
    {
        is_unicode("└", "—", self.unicode)
    }

    /// Active step.
    pub fn step_active(&self) -> (r: &'static str)
        ensures
            r@ == spec_step_active(*self),
    {
        is_unicode("◆", "*", self.unicode)
    }

    /// Cancelled step.
    pub fn step_cancel(&self) -> (r: &'static str)
        ensures
            r@ == spec_step_cancel(*self),
    {
        is_unicode("■", "x", self.unicode)
    }

    /// Error step.
    pub fn step_error(&self) -> (r: &'static str)
        ensures
            r@ == spec_step_error(*self),
    {
        is_unicode("▲", "x", self.unicode)
    }

    /// Submitted step.
    pub fn step_submit(&self) -> (r: &'static str)
        ensures
            r@ == spec_step_submit(*self),
    {
        is_unicode("◇", "o", self.unicode)
    }

    /// Active radio point.
    pub fn radio_active(&self) -> (r: &'static str)
        ensures
            r@ == spec_radio_active(*self),
    {
        is_unicode("●", ">", self.unicode)
    }

    /// Inactive radio point.
    pub fn radio_inactive(&self) -> (r: &'static str)
        ensures
            r@ == spec_radio_inactive(*self),
    {
        is_unicode("○", " ", self.unicode)
    }

    /// Focused checkbox.
    pub fn checkbox_active(&self) -> (r: &'static str)
        ensures
            r@ == spec_checkbox_active(*self),
    {
        is_unicode("◻", "[.]", self.unicode)
    }

    /// Checked checkbox.
    pub fn checkbox_selected(&self) -> (r: &'static str)
        ensures
            r@ == spec_checkbox_selected(*self),
    {
        is_unicode("◼", "[+]", self.unicode)
    }

    /// Unchecked checkbox.
    pub fn checkbox_inactive(&self) -> (r: &'static str)
        ensures
            r@ == spec_checkbox_inactive(*self),
    {
        is_unicode("◻", "[ ]", self.unicode)
    }
}

} // verus!
