//! A request, the reply that answers it, and the awaitable that the caller
//! keeps while the request is under way.

use crate::channel::{current_task, poll_oneshot};
use crate::error::SumError;
use futures::sync::oneshot::{Canceled, Receiver, Sender};
use vstd::prelude::*;

verus! {

/// The reply owed to a request for `a` and `b`: their sum.
pub open spec fn sum_of(a: usize, b: usize) -> int {
    a + b
}

/// The work done in the background for one request. Adding two numbers
/// stands for whatever a real task would compute.
pub fn compute(a: usize, b: usize) -> (sum: usize)
    requires
        sum_of(a, b) <= usize::MAX,
    ensures
        sum == sum_of(a, b),
{
    a + b
}

/// A request that has been answered: its operands, the reply that was
/// computed, and whether the reply still found someone waiting for it.
#[derive(Clone, Copy, Debug, PartialEq, Eq, Structural)]
pub struct Exchange {
    pub a: usize,
    pub b: usize,
    pub reply: usize,
    pub delivered: bool,
}

impl Exchange {
    /// The reply is the one owed to the operands.
    pub open spec fn correct(self) -> bool {
        self.reply == sum_of(self.a, self.b)
    }
}

/// A request on its way to the background task: the two operands, and the
/// sending end of the single-use channel on which the reply goes back.
///
/// The sum of the operands fits the machine word; that is the type's
/// invariant, which `new` demands and `serve` relies on. A request is
/// answered by being consumed, so it is answered at most once.
#[derive(Debug)]
pub struct SumRequest {
    a: usize,
    b: usize,
    result_tx: Sender<usize>,
}

/// The caller's side of a request: resolves to the reply once the background
/// task has sent it.
#[derive(Debug)]
pub struct SumFuture {
    rx: Receiver<usize>,
}

impl View for SumRequest {
    type V = (usize, usize);

    /// The operands.
    closed spec fn view(&self) -> (usize, usize) {
        (self.a, self.b)
    }
}

impl SumRequest {
    #[verifier::type_invariant]
    spec fn fits(&self) -> bool {
        sum_of(self.a, self.b) <= usize::MAX
    }

    /// Makes a fresh single-use channel and pairs its sending end with the
    /// operands. The receiving end comes back as the awaitable.
    pub fn new(a: usize, b: usize) -> (pair: (SumRequest, SumFuture))
        requires
            sum_of(a, b) <= usize::MAX,
        ensures
            pair.0@ == (a, b),
    {
        let (result_tx, rx) = futures::sync::oneshot::channel();
        (SumRequest { a, b, result_tx }, SumFuture { rx })
    }

    /// Answers the request: computes the reply and sends it back on the
    /// request's own channel. That nobody waits for the reply any more is no
    /// error: the reply is dropped and the exchange says so. Whether it is
    /// delivered is decided by the awaiting end; everything else is fixed.
    pub fn serve(self) -> (done: Exchange)
        ensures
            done.a == self@.0,
            done.b == self@.1,
            done.correct(),
    {
        proof {
            use_type_invariant(&self);
        }
        let reply = compute(self.a, self.b);
        let delivered = match self.result_tx.send(reply) {
            Ok(()) => true,
            Err(_) => false,
        };
        Exchange { a: self.a, b: self.b, reply, delivered }
    }
}

impl SumFuture {
    /// What the caller is told for each answer of the reply channel: the
    /// value once it is there, `None` while it may still come, and
    /// `Cancelled` when the request was dropped unanswered.
    pub fn resolved(polled: Result<Option<usize>, Canceled>) -> (res: Result<
        Option<usize>,
        SumError,
    >)
        ensures
            polled matches Ok(value) ==> res == Ok::<Option<usize>, SumError>(value),
            polled is Err ==> res == Err::<Option<usize>, SumError>(SumError::Cancelled),
    {
        match polled {
            Ok(value) => Ok(value),
            Err(_) => Err(SumError::Cancelled),
        }
    }

    /// Looks for the reply without blocking. Inside a task, the task is
    /// woken when the reply arrives or the request is dropped, and the reply
    /// channel decides which answer comes: the only error is `Cancelled`.
    /// Outside of a task the channel is left alone and the error is
    /// `NoTask`.
    pub fn poll(&mut self) -> (res: Result<Option<usize>, SumError>)
        ensures
            res matches Err(e) ==> e == SumError::Cancelled || e == SumError::NoTask,
            res == Err::<Option<usize>, SumError>(SumError::NoTask) ==> *final(self) == *old(self),
    {
        match current_task() {
            Some(task) => Self::resolved(poll_oneshot(&mut self.rx, &task)),
            None => Err(SumError::NoTask),
        }
    }
}

} // verus!
