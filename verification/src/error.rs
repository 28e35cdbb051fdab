//! What can go wrong for the caller of a handle.

use vstd::prelude::*;

verus! {

/// An error that a caller of a handle meets and can recover from.
#[derive(Clone, Copy, Debug, PartialEq, Eq, Structural)]
pub enum SumError {
    /// The request could not be enqueued: the background task is gone.
    ChannelClosed,
    /// The reply will never come: the request was dropped unanswered.
    Cancelled,
    /// The call was made outside of a task, where a channel cannot be
    /// polled: nothing was done.
    NoTask,
}

} // verus!
