//! Error types of the backend.
//!
//! The failure modes form four classes, and each class keeps its own type so
//! that callers can branch on them:
//!
//! * construction failures, [`CreationError`], split into fatal precondition
//!   violations (caller or host misuse) and the one recoverable failure
//!   (attaching a fresh surface to a stale container);
//! * capabilities the environment lacks at runtime, [`NotSupportedError`]
//!   wrapped in [`ExternalError`], which callers may feature-detect;
//! * operations this backend does not offer at all, [`NotImplementedError`];
//!   the abstract API halts on these, so the error must not be ignored.

use vstd::prelude::*;

verus! {

/// A capability exists in the abstract API but not in this environment;
/// returned so that callers can detect the gap at runtime.
#[derive(Debug, Copy, Clone, PartialEq, Eq, Structural)]
pub struct NotSupportedError;

impl NotSupportedError {
    pub fn new() -> (r: Self)
        ensures
            r == NotSupportedError,
    {
        NotSupportedError
    }
}

/// An error reported by a window operation that talks to the environment.
#[derive(Debug, Copy, Clone, PartialEq, Eq, Structural)]
pub enum ExternalError {
    /// The operation is not supported in this environment.
    NotSupported(NotSupportedError),
}

/// The operation is not offered by this backend at all.  Where other
/// backends act, this one refuses; the caller must not ignore the refusal.
#[derive(Debug, Copy, Clone, PartialEq, Eq, Structural)]
#[must_use]
pub struct NotImplementedError;

/// Why constructing a [`crate::window::Window`] failed.
///
/// Every variant but [`CreationError::AppendFailed`] is a precondition
/// violation: the caller named an element that the document does not hold in
/// the required shape.  `AppendFailed` is the one recoverable, environmental
/// failure: the container exists but is not attached to the document, so the
/// freshly created surface cannot be appended to it.
#[derive(Debug, Copy, Clone, PartialEq, Eq, Structural)]
pub enum CreationError {
    /// No element carries the identifier given for an existing surface.
    CanvasNotFound,
    /// The identified element exists but is not a surface element.
    ElementNotCanvas,
    /// No element carries the identifier given for the container.
    ContainerNotFound,
    /// The container is not attached to the document, so the new surface
    /// could not be appended to it.
    AppendFailed,
}

impl CreationError {
    /// Whether this failure is a fatal precondition violation (caller or
    /// host misuse) rather than the recoverable append failure.
    pub fn is_precondition_violation(&self) -> (r: bool)
        ensures
            r == !(self is AppendFailed),
    {
        match self {
            CreationError::AppendFailed => false,
            _ => true,
        }
    }
}

} // verus!
