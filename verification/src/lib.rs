//! Interactive command-line prompts with live-redrawing feedback.
//!
//! Five prompt kinds are offered: single-line text input ([`input`]), yes/no
//! confirmation ([`confirm`]), single choice from a list ([`select`]),
//! multiple choices from a list ([`multi_select`]) and repeated line input
//! ([`multi_input`]). Each kind is configured through a builder and run with
//! `interact()`, which repaints only the terminal lines that changed while
//! the user navigates.
//!
//! The navigation and decision logic of every prompt is written as verified
//! functions over plain values; the terminal itself (raw key events, cursor
//! motion, the line editor) sits behind a thin trusted edge in one module.

pub mod confirm;
pub mod error;
pub mod input;
pub mod key;
pub mod multi_input;
pub mod multi_select;
pub mod select;
pub mod style;
mod term;
pub mod traits;
pub mod window;

pub use key::Key;
