//! The background task: the one consumer of the request channel.
//!
//! Each look at the channel is a turn. A turn that finds a request answers
//! it and the task goes on; any other turn ends the current `poll`, with a
//! status that says whether the task waits, is done, or has failed. So the
//! task is idle between its polls, busy with one request at a time within
//! them, and ended after a turn that found the channel closed or broken.

use crate::channel::{current_task, poll_stream, reschedule, InTask, Polled};
use crate::error::SumError;
use crate::handle::SumHandle;
use crate::request::{sum_of, Exchange, SumRequest};
use futures::sync::mpsc::UnboundedReceiver;
use vstd::prelude::*;

verus! {

/// What a `poll` of the background task reports to whatever drives it.
#[derive(Clone, Copy, Debug, PartialEq, Eq, Structural)]
pub enum TaskStatus {
    /// The task has nothing to do for now; it is woken when there is more.
    NotReady,
    /// Every handle is gone and every request has been answered: the task
    /// has ended well.
    Finished,
    /// The request channel failed: the task has ended badly.
    Failed,
}

/// What the request channel hands the task at one look, with a request
/// reduced to its operands.
pub enum Arrival {
    /// The oldest request waiting.
    Request { a: usize, b: usize },
    /// Nothing waiting, while some handle is still alive.
    Empty,
    /// Nothing waiting, and no handle left: the end of the stream.
    Closed,
    /// The channel itself failed.
    Fault,
}

/// What the task did at one look at the request channel.
#[derive(Clone, Copy, Debug, PartialEq, Eq, Structural)]
pub enum Turn {
    /// It took a request off the channel and answered it.
    Served(Exchange),
    /// It found nothing, with handles still alive.
    Idle,
    /// It found the end of the stream.
    Closed,
    /// It found the channel broken.
    Fault,
}

impl View for Polled<SumRequest> {
    type V = Arrival;

    open spec fn view(&self) -> Arrival {
        match *self {
            Polled::Item(request) => Arrival::Request { a: request@.0, b: request@.1 },
            Polled::Empty => Arrival::Empty,
            Polled::Closed => Arrival::Closed,
            Polled::Fault => Arrival::Fault,
        }
    }
}

/// The turn that answers an arrival. A request is answered with the sum of
/// its operands whether or not the reply is `delivered`; nothing else about
/// the turn depends on the delivery.
pub open spec fn turn_for(arrival: Arrival, delivered: bool) -> Turn {
    match arrival {
        Arrival::Request { a, b } => Turn::Served(
            Exchange { a, b, reply: sum_of(a, b) as usize, delivered },
        ),
        Arrival::Empty => Turn::Idle,
        Arrival::Closed => Turn::Closed,
        Arrival::Fault => Turn::Fault,
    }
}

/// The status with which a turn ends the current `poll`, or `None` where the
/// task goes on to the next turn.
pub open spec fn status_of(turn: Turn) -> Option<TaskStatus> {
    match turn {
        Turn::Served(_) => None,
        Turn::Idle => Some(TaskStatus::NotReady),
        Turn::Closed => Some(TaskStatus::Finished),
        Turn::Fault => Some(TaskStatus::Failed),
    }
}

impl Turn {
    /// Whether the turn delivered a reply.
    pub open spec fn delivered(self) -> bool {
        match self {
            Turn::Served(done) => done.delivered,
            _ => false,
        }
    }

    /// See `status_of`.
    pub fn status(self) -> (status: Option<TaskStatus>)
        ensures
            status == status_of(self),
    {
        match self {
            Turn::Served(_) => None,
            Turn::Idle => Some(TaskStatus::NotReady),
            Turn::Closed => Some(TaskStatus::Finished),
            Turn::Fault => Some(TaskStatus::Failed),
        }
    }
}

/// Every one of the turns answered a request, and correctly.
pub open spec fn all_answers(turns: Seq<Turn>) -> bool {
    forall|i: int|
        0 <= i < turns.len() ==> (#[trigger] turns[i] matches Turn::Served(done) && done.correct())
}

/// What a `poll` that may answer up to `limit` requests adds to the turns
/// taken so far, and the status it then reports.
///
/// It adds requests answered one after the other, each correctly, and stops
/// in one of two ways. Either a turn finds something other than a request:
/// that turn is the last one added and decides the status. Or `limit`
/// requests have been answered: the status is `NotReady`, and the task has
/// asked to be polled again.
pub open spec fn polled_through(added: Seq<Turn>, limit: nat, status: TaskStatus) -> bool {
    ||| {
        &&& 0 < added.len() <= limit
        &&& all_answers(added.drop_last())
        &&& status_of(added.last()) == Some(status)
    }
    ||| {
        &&& added.len() == limit
        &&& all_answers(added)
        &&& status == TaskStatus::NotReady
    }
}

/// A background task that answers sum requests.
///
/// It owns the receiving end of the request channel, and nothing else that
/// runs. Its view is the sequence of turns it has taken since it was made,
/// oldest first.
pub struct SumBackground {
    rx: UnboundedReceiver<SumRequest>,
    turns: Ghost<Seq<Turn>>,
}

impl View for SumBackground {
    type V = Seq<Turn>;

    closed spec fn view(&self) -> Seq<Turn> {
        self.turns@
    }
}

impl SumBackground {
    /// A fresh request channel with its two ends: the first handle, and the
    /// task, which has taken no turn yet. The handle can be used at once; the
    /// task does nothing until it is polled.
    pub fn new() -> (pair: (SumHandle, SumBackground))
        ensures
            pair.1@ == Seq::<Turn>::empty(),
    {
        let (tx, rx) = futures::sync::mpsc::unbounded();
        (SumHandle::over(tx), SumBackground { rx, turns: Ghost(Seq::empty()) })
    }

    /// The task's answer to what the channel handed it: a request is served,
    /// and anything else is only noted. The turn is fixed by the arrival, but
    /// for whether a reply was delivered, which the awaiting caller decides.
    pub fn process(&mut self, polled: Polled<SumRequest>) -> (turn: Turn)
        ensures
            turn == turn_for(polled@, turn.delivered()),
            turn matches Turn::Served(done) ==> done.correct(),
            final(self)@ == old(self)@.push(turn),
    {
        let turn = match polled {
            Polled::Item(request) => Turn::Served(request.serve()),
            Polled::Empty => Turn::Idle,
            Polled::Closed => Turn::Closed,
            Polled::Fault => Turn::Fault,
        };
        proof {
            self.turns@ = self.turns@.push(turn);
        }
        turn
    }

    /// One turn inside a task: looks at the channel once and answers what
    /// it finds. What the channel hands over is the channel's affair;
    /// whatever it is, the turn is recorded and a request found is answered
    /// correctly.
    fn look(&mut self, task: &InTask) -> (turn: Turn)
        ensures
            turn matches Turn::Served(done) ==> done.correct(),
            final(self)@ == old(self)@.push(turn),
    {
        let polled = poll_stream(&mut self.rx, task);
        self.process(polled)
    }

    /// One turn: looks at the channel once and answers what it finds, as
    /// `process` says. Outside of a task the channel cannot be looked at:
    /// nothing is done, no turn is taken, and the error is `NoTask`.
    pub fn turn(&mut self) -> (res: Result<Turn, SumError>)
        ensures
            match res {
                Ok(turn) => {
                    &&& turn matches Turn::Served(done) ==> done.correct()
                    &&& final(self)@ == old(self)@.push(turn)
                },
                Err(error) => error == SumError::NoTask && *final(self) == *old(self),
            },
    {
        match current_task() {
            Some(task) => Ok(self.look(&task)),
            None => Err(SumError::NoTask),
        }
    }

    /// Runs the task until it has to wait or has ended, or has answered
    /// `limit` requests. Inside a task, the task is woken when there is more
    /// to do. Outside of a task nothing is done, and the error is `NoTask`.
    ///
    /// Takes turn after turn while the turns find requests, so that requests
    /// are answered in the order in which the channel hands them over, and
    /// reports the status of the first turn that finds something else. A
    /// call that has answered `limit` requests without such a turn yields:
    /// it asks the executor for another poll and reports `NotReady`, so
    /// that other tasks of the same executor get their turn.
    pub fn poll_batch(&mut self, limit: usize) -> (res: Result<TaskStatus, SumError>)
        ensures
            match res {
                Ok(status) => {
                    &&& old(self)@.is_prefix_of(final(self)@)
                    &&& polled_through(
                        final(self)@.skip(old(self)@.len() as int),
                        limit as nat,
                        status,
                    )
                },
                Err(error) => error == SumError::NoTask && *final(self) == *old(self),
            },
    {
        let task = match current_task() {
            Some(task) => task,
            None => {
                return Err(SumError::NoTask);
            },
        };
        let ghost before = self@;
        let mut served: usize = 0;
        while served < limit
            invariant
                before == old(self)@,
                served <= limit,
                self@.len() == before.len() + served,
                before.is_prefix_of(self@),
                all_answers(self@.skip(before.len() as int)),
            decreases limit - served,
        {
            let ghost earlier = self@;
            let turn = self.look(&task);
            proof {
                let added = self@.skip(before.len() as int);
                assert(added.drop_last() == earlier.skip(before.len() as int));
                assert(added.last() == turn);
            }
            match turn.status() {
                None => {
                    proof {
                        let added = self@.skip(before.len() as int);
                        assert forall|i: int| 0 <= i < added.len() implies (
                        #[trigger] added[i] matches Turn::Served(done) && done.correct()) by {
                            if i < added.len() - 1 {
                                assert(added[i] == added.drop_last()[i]);
                            }
                        }
                    }
                    served = served + 1;
                },
                Some(status) => {
                    return Ok(status);
                },
            }
        }
        reschedule(&task);
        Ok(TaskStatus::NotReady)
    }

    /// Runs the task until it has to wait or has ended. Inside a task, the
    /// task is woken when there is more to do. Outside of a task nothing is
    /// done, and the error is `NoTask`.
    ///
    /// This is `poll_batch` with the largest limit there is: the task goes
    /// on for as long as the channel hands it requests.
    pub fn poll(&mut self) -> (res: Result<TaskStatus, SumError>)
        ensures
            match res {
                Ok(status) => {
                    &&& old(self)@.is_prefix_of(final(self)@)
                    &&& polled_through(
                        final(self)@.skip(old(self)@.len() as int),
                        usize::MAX as nat,
                        status,
                    )
                },
                Err(error) => error == SumError::NoTask && *final(self) == *old(self),
            },
    {
        self.poll_batch(usize::MAX)
    }
}

} // verus!
