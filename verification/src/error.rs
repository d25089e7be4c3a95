//! The errors that the node reports.

use vstd::prelude::*;

verus! {

/// Why an operation of the node failed.
#[derive(Debug, Clone, Copy, PartialEq, Eq, Structural)]
pub enum TimpaniError {
    /// An argument is out of its range.
    InvalidArgs,
    /// A system call or a read of the system's state failed.
    Io,
    /// The scheduler could not be reached, or refused.
    Network,
    /// The scheduler is there and has no workload yet.
    NotReady,
    /// The caller lacks the privilege that the operation asks for.
    Permission,
    /// A shutdown signal came, or the signalled process is gone.
    Signal,
}

/// A result whose error is a [`TimpaniError`].
pub type TimpaniResult<T> = Result<T, TimpaniError>;

} // verus!
