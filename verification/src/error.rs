//! The outcomes a prompt can fail with.
use vstd::prelude::*;

verus! {

/// Everything that can end a prompt other than a submitted answer.
///
/// Only `IoError`, `Cancelled`, `ReadlineError` and `NoOptions` ever leave an
/// `interact` call; validation and parse failures are handled inside the
/// prompt loop by re-prompting.
#[derive(Clone, Copy, Debug, PartialEq, Eq, Structural)]
pub enum ClackError {
    /// A terminal read or write failed; the prompt is abandoned.
    IoError,
    /// The user cancelled the prompt (ctrl-c, or end of input).
    Cancelled,
    /// The line editor could not be set up or failed while reading.
    ReadlineError,
    /// A select prompt was started with an empty option list.
    NoOptions,
}

} // verus!
