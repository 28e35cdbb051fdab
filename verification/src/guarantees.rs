//! What the system as a whole guarantees, proved of the model in
//! `protocol`.

use crate::background::{status_of, TaskStatus};
use crate::error::SumError;
use crate::protocol::{exchanges, Envelope, Event, Service, System};
use crate::request::sum_of;
use vstd::prelude::*;

verus! {

/// Nothing takes the task away: no event of the sequence is a fault of
/// the request channel, and none drops the task.
pub open spec fn undisturbed(events: Seq<Event>) -> bool {
    forall|i: int|
        0 <= i < events.len() ==> !(#[trigger] events[i] is Fault) && !(events[i] is DropTask)
}

/// The system starts out sound.
pub proof fn start_is_sound()
    ensures
        System::start().sound(),
{
    let s = System::start();
    assert(exchanges(s.task) == s.served.map_values(|service: Service| service.done));
}

/// A sound system is sound after any one event.
pub proof fn step_keeps_sound(s: System, event: Event)
    requires
        s.sound(),
    ensures
        s.step(event).sound(),
{
    let next = s.step(event);
    let done_of = |service: Service| service.done;
    match event {
        Event::Submit { producer, a, b } => {
            if s.accepts(a, b) {
                assert forall|j: int| 0 <= j < next.queue.len() implies #[trigger] next.queue[j]
                    == next.issued[next.served.len() + j] by {
                    if j < s.queue.len() {
                        assert(next.queue[j] == s.queue[j]);
                    }
                }
            }
        },
        Event::Turn => {
            if s.running() {
                assert(next.task.drop_last() == s.task);
                if s.queue.len() > 0 {
                    let k = s.served.len() as int;
                    assert(s.queue[0] == s.issued[k + 0]);
                    assert(next.served.map_values(done_of) == s.served.map_values(done_of).push(
                        next.served.last().done,
                    ));
                    assert forall|j: int| 0 <= j < next.queue.len() implies #[trigger] next.queue[j]
                        == next.issued[next.served.len() + j] by {
                        assert(next.queue[j] == s.queue[j + 1]);
                    }
                    assert forall|i: int| 0 <= i < next.served.len() implies {
                        &&& (#[trigger] next.served[i]).ticket == i
                        &&& next.served[i].done.a == next.issued[i].a
                        &&& next.served[i].done.b == next.issued[i].b
                        &&& next.served[i].done.correct()
                        &&& next.served[i].done.delivered ==> next.replies.contains_key(i as nat)
                            && next.replies[i as nat] == next.served[i].done.reply
                        &&& !next.served[i].done.delivered ==> next.abandoned.contains(i as nat)
                    } by {
                        if i < k {
                            assert(next.served[i] == s.served[i]);
                        }
                    }
                }
            }
        },
        Event::Fault => {
            if s.running() {
                assert(next.task.drop_last() == s.task);
            }
        },
        _ => {},
    }
}

/// Every state that the system reaches from a sound one is sound.
pub proof fn run_keeps_sound(s: System, events: Seq<Event>)
    requires
        s.sound(),
    ensures
        s.run(events).sound(),
    decreases events.len(),
{
    if events.len() > 0 {
        run_keeps_sound(s, events.drop_last());
        step_keeps_sound(s.run(events.drop_last()), events.last());
    }
}

/// Leaving the task to run loses nothing: it goes on until the channel is
/// empty, unless it has ended, and touches neither the handles nor what has
/// been issued or abandoned.
pub proof fn drain_empties_the_queue(s: System)
    requires
        s.sound(),
    ensures
        s.drain().sound(),
        s.drain().queue.len() == 0 || !s.drain().running(),
        s.drain().issued == s.issued,
        s.drain().abandoned == s.abandoned,
        s.drain().handles == s.handles,
        s.running() ==> s.drain().running(),
    decreases s.queue.len(),
{
    if s.queue.len() == 0 || !s.running() {
    } else {
        step_keeps_sound(s, Event::Turn);
        drain_empties_the_queue(s.step(Event::Turn));
    }
}

/// A task that nothing takes away is not gone.
pub proof fn undisturbed_task_stays(s: System, events: Seq<Event>)
    requires
        !s.gone(),
        undisturbed(events),
    ensures
        !s.run(events).gone(),
    decreases events.len(),
{
    if events.len() > 0 {
        assert(!(events[events.len() - 1] is Fault));
        undisturbed_task_stays(s, events.drop_last());
    }
}

/// The request has been answered at one position of `served` and at no
/// other.
pub open spec fn answered_once(s: System, ticket: nat) -> bool {
    exists|i: int|
        {
            &&& 0 <= i < s.served.len()
            &&& (#[trigger] s.served[i]).ticket == ticket
            &&& forall|j: int|
                0 <= j < s.served.len() && (#[trigger] s.served[j]).ticket == ticket ==> j == i
        }
}

/// Every request is answered, correctly and once.
///
/// Take any sequence of events in which nothing takes the task away: any
/// number of handles, cloned and dropped at will, submitting whatever they
/// like, callers giving up, the task taking turns in between. Take any request
/// that the channel took on the way and whose caller has not given up. Once
/// the task has been left to run, that request has been answered exactly
/// once, and its awaitable resolves to the sum of its operands.
pub proof fn every_request_is_answered_once(events: Seq<Event>, ticket: nat)
    requires
        undisturbed(events),
        ticket < System::start().run(events).issued.len(),
        !System::start().run(events).abandoned.contains(ticket),
    ensures
        ({
            let reached = System::start().run(events);
            let request = reached.issued[ticket as int];
            &&& sum_of(request.a, request.b) <= usize::MAX
            &&& reached.drain().outcome(ticket) == Ok::<Option<usize>, SumError>(
                Some(sum_of(request.a, request.b) as usize),
            )
            &&& answered_once(reached.drain(), ticket)
        }),
{
    let reached = System::start().run(events);
    let end = reached.drain();
    start_is_sound();
    run_keeps_sound(System::start(), events);
    undisturbed_task_stays(System::start(), events);
    drain_empties_the_queue(reached);
    drain_takes_no_task_away(reached);
    assert(end.queue.len() == 0);
    let at = ticket as int;
    assert(end.served[at].ticket == ticket);
    assert(end.served[at].done.delivered);
}

/// Leaving the task to run does not take it away.
pub proof fn drain_takes_no_task_away(s: System)
    requires
        !s.gone(),
    ensures
        !s.drain().gone(),
    decreases s.queue.len(),
{
    if s.queue.len() == 0 || !s.running() {
    } else {
        drain_takes_no_task_away(s.step(Event::Turn));
    }
}

/// The requests of one handle are answered in the order in which the handle
/// submitted them.
///
/// In any state that the system can reach, take two requests of the same
/// handle, `first` submitted before `second`. Wherever `second` has been
/// answered, `first` has been answered before it.
pub proof fn one_handle_is_answered_in_order(events: Seq<Event>, first: nat, second: nat)
    requires
        first < second < System::start().run(events).issued.len(),
        ({
            let reached = System::start().run(events);
            reached.issued[first as int].producer == reached.issued[second as int].producer
        }),
    ensures
        ({
            let reached = System::start().run(events);
            forall|at: int|
                0 <= at < reached.served.len() && (#[trigger] reached.served[at]).ticket == second
                    ==> exists|before: int|
                        0 <= before < at && (#[trigger] reached.served[before]).ticket == first
        }),
{
    let reached = System::start().run(events);
    start_is_sound();
    run_keeps_sound(System::start(), events);
    assert forall|at: int|
        0 <= at < reached.served.len() && (#[trigger] reached.served[at]).ticket == second
    implies exists|before: int|
        0 <= before < at && (#[trigger] reached.served[before]).ticket == first
    by {
        assert(reached.served[first as int].ticket == first);
    }
}

/// The task ends well if and only if every handle has been dropped and no
/// request waits.
///
/// In any state that the system can reach with the task still there, the
/// task's next turn ends it well exactly if no handle is left and the
/// channel is empty. A task that has ended well has left no handle, no
/// request in the channel and no request unanswered. And once the last
/// handle has been dropped, a task left to run ends well at the turn after
/// the last request.
pub proof fn task_ends_iff_closed_and_drained(events: Seq<Event>)
    ensures
        ({
            let reached = System::start().run(events);
            &&& reached.running() ==> {
                reached.step(Event::Turn).status() == TaskStatus::Finished
                    <==> reached.handles == 0 && reached.queue.len() == 0
            }
            &&& reached.status() == TaskStatus::Finished ==> {
                &&& reached.handles == 0
                &&& reached.queue.len() == 0
                &&& reached.served.len() == reached.issued.len()
            }
            &&& reached.running() && reached.handles == 0 ==> {
                reached.drain().step(Event::Turn).status() == TaskStatus::Finished
            }
        }),
{
    let reached = System::start().run(events);
    start_is_sound();
    run_keeps_sound(System::start(), events);
    drain_empties_the_queue(reached);
}

/// What an awaitable comes to.
///
/// In any state that the system can reach, take a request whose caller has
/// not given up. If the task has answered it, its awaitable holds the sum
/// of its operands. If it still waits in the channel, its awaitable is
/// pending while the task is there, and cancelled once the task has failed
/// or been dropped; and the task has not ended well.
pub proof fn awaitable_holds_the_sum_or_waits_or_is_cancelled(events: Seq<Event>, ticket: nat)
    requires
        ticket < System::start().run(events).issued.len(),
        !System::start().run(events).abandoned.contains(ticket),
    ensures
        ({
            let reached = System::start().run(events);
            let request = reached.issued[ticket as int];
            &&& sum_of(request.a, request.b) <= usize::MAX
            &&& reached.outcome(ticket) == if ticket < reached.served.len() {
                Ok::<Option<usize>, SumError>(Some(sum_of(request.a, request.b) as usize))
            } else if reached.gone() {
                Err::<Option<usize>, SumError>(SumError::Cancelled)
            } else {
                Ok::<Option<usize>, SumError>(None)
            }
            &&& ticket >= reached.served.len() ==> reached.status() != TaskStatus::Finished
        }),
{
    let reached = System::start().run(events);
    start_is_sound();
    run_keeps_sound(System::start(), events);
    if ticket < reached.served.len() {
        assert(reached.served[ticket as int].ticket == ticket);
    } else {
        let j = ticket - reached.served.len();
        assert(reached.queue[j] == reached.issued[reached.served.len() + j]);
        assert(reached.queue[j].ticket == ticket);
        assert(reached.waiting(ticket));
    }
}

/// When a call of `sum` is refused.
///
/// In any state that the system can reach, a call of `sum` through a live
/// handle is refused if and only if the task has failed or been dropped,
/// and then with `ChannelClosed`; a task that is there and has merely not
/// been polled yet refuses nothing. A call that is refused changes nothing;
/// one that is taken puts its request last in the channel, under the next
/// ticket, and touches nothing else.
pub proof fn sum_is_refused_iff_the_task_is_gone(
    events: Seq<Event>,
    producer: nat,
    a: usize,
    b: usize,
)
    requires
        System::start().run(events).handles > 0,
        sum_of(a, b) <= usize::MAX,
    ensures
        ({
            let reached = System::start().run(events);
            let after = reached.step(Event::Submit { producer, a, b });
            let request = Envelope { ticket: reached.issued.len(), producer, a, b };
            &&& reached.submission() is Err <==> reached.gone()
            &&& reached.submission() matches Err(error) ==> error == SumError::ChannelClosed
                && after == reached
            &&& reached.submission() matches Ok(ticket) ==> {
                &&& ticket == reached.issued.len()
                &&& after.queue == reached.queue.push(request)
                &&& after.issued == reached.issued.push(request)
                &&& after.handles == reached.handles
                &&& after.task == reached.task
                &&& after.replies == reached.replies
            }
        }),
{
    start_is_sound();
    run_keeps_sound(System::start(), events);
}

/// Two systems that differ at most in what has become of one request.
pub open spec fn same_but_for(with: System, without: System, ticket: nat) -> bool {
    &&& with.issued == without.issued
    &&& with.queue == without.queue
    &&& with.handles == without.handles
    &&& with.dropped == without.dropped
    &&& with.status() == without.status()
    &&& with.task.len() == without.task.len()
    &&& forall|i: int|
        0 <= i < with.task.len() ==> status_of(#[trigger] with.task[i]) == status_of(
            without.task[i],
        )
    &&& with.served.len() == without.served.len()
    &&& forall|i: int|
        0 <= i < with.served.len() ==> {
            &&& (#[trigger] with.served[i]).ticket == without.served[i].ticket
            &&& with.served[i].done.a == without.served[i].done.a
            &&& with.served[i].done.b == without.served[i].done.b
            &&& with.served[i].done.reply == without.served[i].done.reply
            &&& with.served[i].ticket != ticket ==> with.served[i] == without.served[i]
        }
    &&& forall|other: nat|
        other != ticket ==> (#[trigger] with.abandoned.contains(other)
            <==> without.abandoned.contains(other))
    &&& forall|other: nat|
        other != ticket ==> {
            &&& #[trigger] with.replies.contains_key(other) <==> without.replies.contains_key(other)
            &&& with.replies.contains_key(other) ==> with.replies[other] == without.replies[other]
        }
}

/// One event keeps two systems the same but for one request.
pub proof fn step_keeps_same_but_for(with: System, without: System, ticket: nat, event: Event)
    requires
        same_but_for(with, without, ticket),
    ensures
        same_but_for(with.step(event), without.step(event), ticket),
{
    let w = with.step(event);
    let o = without.step(event);
    if (event is Turn || event is Fault) && with.running() {
        assert forall|i: int| 0 <= i < w.task.len() implies status_of(#[trigger] w.task[i])
            == status_of(o.task[i]) by {
            if i < with.task.len() {
                assert(w.task[i] == with.task[i]);
                assert(o.task[i] == without.task[i]);
            }
        }
    }
    match event {
        Event::Turn => {
            if with.running() && with.queue.len() > 0 {
                assert forall|i: int| 0 <= i < w.served.len() implies {
                    &&& (#[trigger] w.served[i]).ticket == o.served[i].ticket
                    &&& w.served[i].done.a == o.served[i].done.a
                    &&& w.served[i].done.b == o.served[i].done.b
                    &&& w.served[i].done.reply == o.served[i].done.reply
                    &&& w.served[i].ticket != ticket ==> w.served[i] == o.served[i]
                } by {
                    if i < with.served.len() {
                        assert(w.served[i] == with.served[i]);
                        assert(o.served[i] == without.served[i]);
                    }
                }
            }
        },
        _ => {},
    }
}

/// A caller who gives up disturbs nobody else.
///
/// Take any state, drop the awaitable of one request there, and let
/// anything happen afterwards. Compared with the same events without the
/// drop, the task takes the same turns and ends the same way, the same
/// requests are answered in the same order with the same replies, and every
/// other request has the same outcome.
pub proof fn giving_up_disturbs_nobody_else(s: System, ticket: nat, events: Seq<Event>)
    ensures
        ({
            let with = s.step(Event::Abandon { ticket }).run(events);
            let without = s.run(events);
            &&& same_but_for(with, without, ticket)
            &&& forall|other: nat|
                other != ticket ==> #[trigger] with.outcome(other) == without.outcome(other)
        }),
    decreases events.len(),
{
    let with = s.step(Event::Abandon { ticket }).run(events);
    let without = s.run(events);
    if events.len() == 0 {
        assert(same_but_for(with, without, ticket));
    } else {
        giving_up_disturbs_nobody_else(s, ticket, events.drop_last());
        step_keeps_same_but_for(
            s.step(Event::Abandon { ticket }).run(events.drop_last()),
            s.run(events.drop_last()),
            ticket,
            events.last(),
        );
    }
    assert forall|other: nat| other != ticket implies #[trigger] with.outcome(other)
        == without.outcome(other) by {
        assert(with.waiting(other) == without.waiting(other));
    }
}

/// How many of the events are submissions through the handle `producer`.
pub open spec fn submissions(events: Seq<Event>, producer: nat) -> nat
    decreases events.len(),
{
    if events.len() == 0 {
        0
    } else {
        let earlier = submissions(events.drop_last(), producer);
        if events.last() matches Event::Submit { producer: p, .. } && p == producer {
            earlier + 1
        } else {
            earlier
        }
    }
}

/// How many of the requests came through the handle `producer`.
pub open spec fn requests_of(issued: Seq<Envelope>, producer: nat) -> nat
    decreases issued.len(),
{
    if issued.len() == 0 {
        0
    } else {
        let earlier = requests_of(issued.drop_last(), producer);
        if issued.last().producer == producer {
            earlier + 1
        } else {
            earlier
        }
    }
}

/// How many of the requests came through the handles below `producers`.
pub open spec fn requests_below(issued: Seq<Envelope>, producers: nat) -> nat
    decreases producers,
{
    if producers == 0 {
        0
    } else {
        requests_below(issued, (producers - 1) as nat) + requests_of(
            issued,
            (producers - 1) as nat,
        )
    }
}

/// Every event is a turn of the task, a handle cloned or dropped, or a
/// call of `sum` that meets its precondition and is made through one of the
/// handles below `producers` while a handle is alive.
pub open spec fn handles_at_work(events: Seq<Event>, producers: nat) -> bool {
    forall|i: int|
        0 <= i < events.len() ==> match #[trigger] events[i] {
            Event::Submit { producer, a, b } => {
                &&& producer < producers
                &&& sum_of(a, b) <= usize::MAX
                &&& System::start().run(events.take(i)).handles > 0
            },
            Event::CloneHandle => true,
            Event::DropHandle => true,
            Event::Turn => true,
            _ => false,
        }
}

/// The events are `producers` handles at work, each submitting `each`
/// requests, in any interleaving with each other and with the turns of the
/// task. Handles may be cloned and dropped on the way; no caller gives up,
/// and nothing takes the task away.
pub open spec fn producers_at_work(events: Seq<Event>, producers: nat, each: nat) -> bool {
    &&& handles_at_work(events, producers)
    &&& forall|producer: nat| producer < producers ==> submissions(events, producer) == each
}

/// With handles at work and nothing else going on, the channel takes every
/// request: what has been issued is what was submitted, handle by handle.
proof fn every_submission_is_taken(events: Seq<Event>, producers: nat)
    requires
        handles_at_work(events, producers),
    ensures
        ({
            let reached = System::start().run(events);
            &&& reached.sound()
            &&& !reached.gone()
            &&& reached.abandoned == Set::<nat>::empty()
            &&& forall|i: int|
                0 <= i < reached.issued.len() ==> (#[trigger] reached.issued[i]).producer
                    < producers
            &&& forall|producer: nat| #[trigger]
                requests_of(reached.issued, producer) == submissions(events, producer)
        }),
    decreases events.len(),
{
    let reached = System::start().run(events);
    start_is_sound();
    if events.len() > 0 {
        let before = events.drop_last();
        let earlier = System::start().run(before);
        assert forall|i: int| 0 <= i < before.len() implies match #[trigger] before[i] {
            Event::Submit { producer, a, b } => {
                &&& producer < producers
                &&& sum_of(a, b) <= usize::MAX
                &&& System::start().run(before.take(i)).handles > 0
            },
            Event::CloneHandle => true,
            Event::DropHandle => true,
            Event::Turn => true,
            _ => false,
        } by {
            assert(before[i] == events[i]);
            assert(before.take(i) == events.take(i));
        }
        every_submission_is_taken(before, producers);
        step_keeps_sound(earlier, events.last());
        let last = events[events.len() - 1];
        if let Event::Submit { producer, a, b } = last {
            assert(events.take(events.len() - 1) == before);
            assert(earlier.accepts(a, b));
            assert(reached.issued.drop_last() == earlier.issued);
            assert forall|i: int| 0 <= i < reached.issued.len() implies (
            #[trigger] reached.issued[i]).producer < producers by {
                if i < earlier.issued.len() {
                    assert(reached.issued[i] == earlier.issued[i]);
                }
            }
        } else {
            assert(reached.issued == earlier.issued);
        }
        assert forall|producer: nat| #[trigger]
            requests_of(reached.issued, producer) == submissions(events, producer) by {
            assert(requests_of(earlier.issued, producer) == submissions(before, producer));
        }
    }
}

/// One more request is one more for its handle and for no other.
proof fn one_more_request(issued: Seq<Envelope>, producers: nat)
    requires
        issued.len() > 0,
    ensures
        requests_below(issued, producers) == requests_below(issued.drop_last(), producers) + (
        if issued.last().producer < producers {
            1nat
        } else {
            0nat
        }),
    decreases producers,
{
    if producers > 0 {
        one_more_request(issued, (producers - 1) as nat);
    }
}

/// Requests that all came through the handles below `producers` are as many
/// as those handles submitted together.
proof fn requests_add_up(issued: Seq<Envelope>, producers: nat)
    requires
        forall|i: int| 0 <= i < issued.len() ==> (#[trigger] issued[i]).producer < producers,
    ensures
        requests_below(issued, producers) == issued.len(),
    decreases issued.len(),
{
    if issued.len() == 0 {
        nothing_below(issued, producers);
    } else {
        requests_add_up(issued.drop_last(), producers);
        one_more_request(issued, producers);
    }
}

/// No requests, none for any handle.
proof fn nothing_below(issued: Seq<Envelope>, producers: nat)
    requires
        issued.len() == 0,
    ensures
        requests_below(issued, producers) == 0,
    decreases producers,
{
    if producers > 0 {
        nothing_below(issued, (producers - 1) as nat);
    }
}

/// Handles with `each` requests apiece have `producers * each` together.
proof fn equal_shares_add_up(issued: Seq<Envelope>, producers: nat, each: nat)
    requires
        forall|producer: nat| producer < producers ==> #[trigger] requests_of(issued, producer)
            == each,
    ensures
        requests_below(issued, producers) == producers * each,
    decreases producers,
{
    if producers > 0 {
        equal_shares_add_up(issued, (producers - 1) as nat, each);
        assert(requests_of(issued, (producers - 1) as nat) == each);
        assert(producers * each == (producers - 1) * each + each) by (nonlinear_arith)
            requires
                producers > 0,
        ;
    } else {
        assert(producers * each == 0) by (nonlinear_arith)
            requires
                producers == 0,
        ;
    }
}

/// Many handles at once lose nothing and double nothing.
///
/// Let `producers` handles submit `each` requests apiece, interleaved in
/// any way with each other and with the turns of the task, and then leave
/// the task to run. Exactly `producers * each` requests have been answered,
/// each handle's share among them; every one has a ticket of its own and
/// was answered at one position only; and exactly that many replies have
/// been delivered, one to each request, each the sum of its operands.
pub proof fn many_handles_lose_nothing(events: Seq<Event>, producers: nat, each: nat)
    requires
        producers_at_work(events, producers, each),
    ensures
        ({
            let end = System::start().run(events).drain();
            &&& end.issued.len() == producers * each
            &&& end.served.len() == producers * each
            &&& forall|producer: nat|
                producer < producers ==> #[trigger] requests_of(end.issued, producer) == each
            &&& forall|ticket: nat|
                ticket < producers * each ==> {
                    &&& #[trigger] answered_once(end, ticket)
                    &&& sum_of(end.issued[ticket as int].a, end.issued[ticket as int].b)
                        <= usize::MAX
                }
            &&& forall|ticket: nat| #[trigger]
                end.replies.contains_key(ticket) <==> ticket < producers * each
            &&& forall|ticket: nat|
                ticket < producers * each ==> #[trigger] end.replies[ticket] == sum_of(
                    end.issued[ticket as int].a,
                    end.issued[ticket as int].b,
                )
        }),
{
    let reached = System::start().run(events);
    let end = reached.drain();
    every_submission_is_taken(events, producers);
    drain_empties_the_queue(reached);
    drain_takes_no_task_away(reached);
    requests_add_up(reached.issued, producers);
    assert forall|producer: nat| producer < producers implies #[trigger] requests_of(
        reached.issued,
        producer,
    ) == each by {
        assert(requests_of(reached.issued, producer) == submissions(events, producer));
    }
    equal_shares_add_up(reached.issued, producers, each);
    assert(end.queue.len() == 0);
    assert forall|ticket: nat| ticket < producers * each implies #[trigger] answered_once(
        end,
        ticket,
    ) by {
        assert(end.served[ticket as int].ticket == ticket);
    }
    assert forall|ticket: nat| ticket < producers * each implies #[trigger] end.replies.contains_key(
        ticket,
    ) by {
        assert(end.served[ticket as int].ticket == ticket);
        assert(!end.abandoned.contains(ticket));
    }
    assert forall|ticket: nat| ticket < producers * each implies #[trigger] end.replies[ticket]
        == sum_of(end.issued[ticket as int].a, end.issued[ticket as int].b) by {
        assert(end.served[ticket as int].ticket == ticket);
        assert(!end.abandoned.contains(ticket));
    }
}

} // verus!
