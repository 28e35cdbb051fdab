//! The handle: the front end through which callers reach the background
//! task.

use crate::error::SumError;
use crate::request::{sum_of, SumFuture, SumRequest};
use futures::sync::mpsc::{SendError, UnboundedSender};
use vstd::prelude::*;

verus! {

/// A handle for talking to a background task.
///
/// It holds a producer's end of the request channel and nothing else. A
/// clone is one more producer on the same channel, independent of the
/// first; the task ends once every clone has been dropped.
#[derive(Debug)]
pub struct SumHandle {
    tx: UnboundedSender<SumRequest>,
}

impl Clone for SumHandle {
    /// One more producer on the same request channel.
    fn clone(&self) -> (twin: Self) {
        SumHandle { tx: self.tx.clone() }
    }
}

impl SumHandle {
    /// The handle over a producer's end of the request channel: it holds
    /// that end, and sends through it.
    pub(crate) fn over(tx: UnboundedSender<SumRequest>) -> (handle: SumHandle)
        ensures
            handle.sender() == tx,
    {
        SumHandle { tx }
    }

    /// The producer's end of the request channel that the handle sends
    /// through.
    pub closed spec fn sender(&self) -> UnboundedSender<SumRequest> {
        self.tx
    }

    /// What `sum` returns for each answer of the request channel: the
    /// awaitable when the request was taken, and `ChannelClosed` when it was
    /// refused because the task is gone.
    pub fn outcome(sent: Result<(), SendError<SumRequest>>, reply: SumFuture) -> (res: Result<
        SumFuture,
        SumError,
    >)
        ensures
            sent is Ok ==> res == Ok::<SumFuture, SumError>(reply),
            sent is Err ==> res == Err::<SumFuture, SumError>(SumError::ChannelClosed),
    {
        match sent {
            Ok(()) => Ok(reply),
            Err(_) => Err(SumError::ChannelClosed),
        }
    }

    /// Asks the background task for the sum of `a` and `b`.
    ///
    /// Puts one request for the two operands on the channel, without
    /// waiting, and returns the awaitable on which the reply will arrive.
    /// The channel decides whether it takes the request; the only error is
    /// `ChannelClosed`. Either way the handle is left as it was, and can be
    /// used again.
    pub fn sum(&mut self, a: usize, b: usize) -> (res: Result<SumFuture, SumError>)
        requires
            sum_of(a, b) <= usize::MAX,
        ensures
            res matches Err(e) ==> e == SumError::ChannelClosed,
            *final(self) == *old(self),
    {
        let (request, reply) = SumRequest::new(a, b);
        let sent = self.tx.unbounded_send(request);
        Self::outcome(sent, reply)
    }
}

} // verus!
