//! Small trait extensions: cancellation checks and caller-supplied hooks.
use vstd::prelude::*;
use crate::error::ClackError;

verus! {

/// Seal for [`IsCancel`]: only `Result<T, ClackError>` implements it.
pub trait IsCancelSeal {
}

/// Asks a prompt outcome whether the user cancelled it.
pub trait IsCancel: IsCancelSeal {
    /// True exactly when the outcome is `Err(ClackError::Cancelled)`.
    fn is_cancel(&self) -> bool;
}

impl<T> IsCancelSeal for Result<T, ClackError> {
}

impl<T> IsCancel for Result<T, ClackError> {
    fn is_cancel(&self) -> (r: bool)
        ensures
            r == (self matches Err(ClackError::Cancelled)),
    {
        matches!(self, Err(ClackError::Cancelled))
    }
}

/// A side-effecting hook a caller can attach to run when a prompt is
/// cancelled, standing in for the `Fn()` closures of the builder API.
pub trait CancelHook {
    /// Called once, after the cancelled frame has been painted.
    fn on_cancel(&self);
}

/// The default hook: does nothing on cancel.
pub struct NoCancel;

impl CancelHook for NoCancel {
    fn on_cancel(&self) {
    }
}

} // verus!
