//! The task, its handles and the two kinds of channel between them, as one
//! state machine.
//!
//! The code of this library sees the channels from one end at a time, and
//! what it is handed there is decided elsewhere. This model says what the
//! whole is taken to do: the request channel is a queue that keeps the order
//! of arrival and reports its end once no handle is left, and a reply
//! reaches its caller unless the caller has given up. The task's part in it
//! is what the task's code is proved to do: `turn_for` and `status_of`.

use crate::background::{status_of, turn_for, Arrival, TaskStatus, Turn};
use crate::error::SumError;
use crate::request::{sum_of, Exchange};
use vstd::prelude::*;

verus! {

/// A request that the channel has taken. Tickets count the requests in the
/// order in which the channel took them, from zero.
pub struct Envelope {
    pub ticket: nat,
    /// The handle that submitted it.
    pub producer: nat,
    pub a: usize,
    pub b: usize,
}

/// A request that the task has answered.
pub struct Service {
    pub ticket: nat,
    pub done: Exchange,
}

/// What can happen to the system, one thing at a time.
pub enum Event {
    /// A call of `sum` through the handle `producer`.
    Submit { producer: nat, a: usize, b: usize },
    /// A handle is cloned.
    CloneHandle,
    /// A handle is dropped.
    DropHandle,
    /// The caller drops the awaitable of a request.
    Abandon { ticket: nat },
    /// The task takes a turn.
    Turn,
    /// The task takes a turn and finds the channel broken.
    Fault,
    /// Whoever was to drive the task drops it, and with it the consumer's
    /// end of the request channel.
    DropTask,
}

/// The state of the whole.
pub struct System {
    /// Every request taken so far, by ticket.
    pub issued: Seq<Envelope>,
    /// The requests waiting in the channel, oldest first.
    pub queue: Seq<Envelope>,
    /// How many handles are alive.
    pub handles: nat,
    /// The tickets whose awaitable has been dropped.
    pub abandoned: Set<nat>,
    /// The turns that the task has taken, oldest first: the view of its
    /// `SumBackground`.
    pub task: Seq<Turn>,
    /// The requests answered so far, in the order of answering.
    pub served: Seq<Service>,
    /// The replies that have reached an awaitable, by ticket.
    pub replies: Map<nat, usize>,
    /// The task has been dropped.
    pub dropped: bool,
}

/// The exchanges among the turns, in the order of the turns.
pub open spec fn exchanges(turns: Seq<Turn>) -> Seq<Exchange>
    decreases turns.len(),
{
    if turns.len() == 0 {
        Seq::empty()
    } else {
        let earlier = exchanges(turns.drop_last());
        match turns.last() {
            Turn::Served(done) => earlier.push(done),
            _ => earlier,
        }
    }
}

impl System {
    /// The system as `SumBackground::new` leaves it: one handle, a task that
    /// has not run, nothing under way.
    pub open spec fn start() -> System {
        System {
            issued: Seq::empty(),
            queue: Seq::empty(),
            handles: 1,
            abandoned: Set::empty(),
            task: Seq::empty(),
            served: Seq::empty(),
            replies: Map::empty(),
            dropped: false,
        }
    }

    /// The status of the task: that with which its last turn ended it, and
    /// `NotReady` as long as no turn has.
    pub open spec fn status(self) -> TaskStatus {
        if self.task.len() == 0 {
            TaskStatus::NotReady
        } else {
            match status_of(self.task.last()) {
                Some(status) => status,
                None => TaskStatus::NotReady,
            }
        }
    }

    /// The task is there to take turns: it has neither ended nor been
    /// dropped.
    pub open spec fn running(self) -> bool {
        !self.dropped && self.status() == TaskStatus::NotReady
    }

    /// What the request channel hands the task at its next look: the oldest
    /// request waiting; failing that, the end of the stream once no handle
    /// is left. A `broken` channel hands over its fault instead.
    pub open spec fn arrival(self, broken: bool) -> Arrival {
        if broken {
            Arrival::Fault
        } else if self.queue.len() > 0 {
            Arrival::Request { a: self.queue[0].a, b: self.queue[0].b }
        } else if self.handles == 0 {
            Arrival::Closed
        } else {
            Arrival::Empty
        }
    }

    /// What a call of `sum` returns: the ticket of the request, which
    /// stands for its awaitable, while the task is there, and
    /// `ChannelClosed` once the task has ended or been dropped.
    pub open spec fn submission(self) -> Result<nat, SumError> {
        if self.running() {
            Ok(self.issued.len())
        } else {
            Err(SumError::ChannelClosed)
        }
    }

    /// A call of `sum` with these operands puts a request on the channel:
    /// it is made through a live handle, meets the precondition, and is not
    /// refused.
    pub open spec fn accepts(self, a: usize, b: usize) -> bool {
        &&& self.handles > 0
        &&& sum_of(a, b) <= usize::MAX
        &&& self.submission() is Ok
    }

    /// The system after a call of `sum`. A call that is refused changes
    /// nothing.
    pub open spec fn submit(self, producer: nat, a: usize, b: usize) -> System {
        if self.accepts(a, b) {
            let envelope = Envelope { ticket: self.issued.len(), producer, a, b };
            System {
                issued: self.issued.push(envelope),
                queue: self.queue.push(envelope),
                ..self
            }
        } else {
            self
        }
    }

    /// The system after the task has taken a turn. A task that has ended
    /// or been dropped takes no turns. What the task makes of an arrival is `turn_for`: a
    /// request found is taken off the channel and answered, and the reply
    /// reaches the caller unless the caller has given up.
    pub open spec fn turn(self, broken: bool) -> System {
        if !self.running() {
            self
        } else {
            let arrival = self.arrival(broken);
            let delivered = arrival is Request && !self.abandoned.contains(self.queue[0].ticket);
            let turn = turn_for(arrival, delivered);
            match turn {
                Turn::Served(done) => System {
                    queue: self.queue.drop_first(),
                    task: self.task.push(turn),
                    served: self.served.push(Service { ticket: self.queue[0].ticket, done }),
                    replies: if delivered {
                        self.replies.insert(self.queue[0].ticket, done.reply)
                    } else {
                        self.replies
                    },
                    ..self
                },
                _ => System { task: self.task.push(turn), ..self },
            }
        }
    }

    /// The system after one event. An event that cannot happen (a call
    /// through a handle when none is left, say) changes nothing.
    pub open spec fn step(self, event: Event) -> System {
        match event {
            Event::Submit { producer, a, b } => self.submit(producer, a, b),
            Event::CloneHandle => if self.handles > 0 {
                System { handles: self.handles + 1, ..self }
            } else {
                self
            },
            Event::DropHandle => if self.handles > 0 {
                System { handles: (self.handles - 1) as nat, ..self }
            } else {
                self
            },
            Event::Abandon { ticket } => if ticket < self.issued.len() {
                System { abandoned: self.abandoned.insert(ticket), ..self }
            } else {
                self
            },
            Event::Turn => self.turn(false),
            Event::Fault => self.turn(true),
            Event::DropTask => System { dropped: true, ..self },
        }
    }

    /// The system after a sequence of events, first to last.
    pub open spec fn run(self, events: Seq<Event>) -> System
        decreases events.len(),
    {
        if events.len() == 0 {
            self
        } else {
            self.run(events.drop_last()).step(events.last())
        }
    }

    /// The system after the task has been left to run until nothing waits
    /// any more, or until it has ended; a task that has been dropped does
    /// not run.
    pub open spec fn drain(self) -> System
        decreases self.queue.len(),
    {
        if self.queue.len() == 0 || !self.running() {
            self
        } else {
            self.step(Event::Turn).drain()
        }
    }

    /// The request is in the channel.
    pub open spec fn waiting(self, ticket: nat) -> bool {
        exists|j: int| 0 <= j < self.queue.len() && #[trigger] self.queue[j].ticket == ticket
    }

    /// The task will take no more requests off the channel: it has failed
    /// or been dropped.
    pub open spec fn gone(self) -> bool {
        self.dropped || self.status() == TaskStatus::Failed
    }

    /// What a `poll` of the request's awaitable returns inside a task: the
    /// reply once it has been delivered, `Cancelled` once the task is gone
    /// with the request still in the channel, and `None` until then.
    pub open spec fn outcome(self, ticket: nat) -> Result<Option<usize>, SumError> {
        if self.replies.contains_key(ticket) {
            Ok(Some(self.replies[ticket]))
        } else if self.gone() && self.waiting(ticket) {
            Err(SumError::Cancelled)
        } else {
            Ok(None)
        }
    }

    /// What holds of every state that the system can reach.
    ///
    /// Tickets are positions in `issued`. The requests answered and the
    /// requests waiting are, in this order, the requests issued: none is
    /// lost, none is taken twice, none overtakes another. The requests
    /// answered are the exchanges among the task's turns. Every answer is
    /// the sum of its operands, and it has reached its caller unless the
    /// caller had given up. A task that has ended well has left nothing
    /// behind.
    pub open spec fn sound(self) -> bool {
        &&& self.served.len() + self.queue.len() == self.issued.len()
        &&& exchanges(self.task) == self.served.map_values(|service: Service| service.done)
        &&& forall|i: int|
            0 <= i < self.issued.len() ==> {
                &&& (#[trigger] self.issued[i]).ticket == i
                &&& sum_of(self.issued[i].a, self.issued[i].b) <= usize::MAX
            }
        &&& forall|i: int|
            0 <= i < self.served.len() ==> {
                &&& (#[trigger] self.served[i]).ticket == i
                &&& self.served[i].done.a == self.issued[i].a
                &&& self.served[i].done.b == self.issued[i].b
                &&& self.served[i].done.correct()
                &&& self.served[i].done.delivered ==> self.replies.contains_key(i as nat)
                    && self.replies[i as nat] == self.served[i].done.reply
                &&& !self.served[i].done.delivered ==> self.abandoned.contains(i as nat)
            }
        &&& forall|j: int|
            0 <= j < self.queue.len() ==> #[trigger] self.queue[j] == self.issued[self.served.len()
                + j]
        &&& forall|t: nat| #[trigger]
            self.replies.contains_key(t) ==> t < self.served.len() && self.served[t as int].done.delivered
        &&& forall|t: nat| #[trigger] self.abandoned.contains(t) ==> t < self.issued.len()
        &&& self.status() == TaskStatus::Finished ==> self.handles == 0 && self.queue.len() == 0
    }
}

} // verus!
