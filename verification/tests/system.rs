//! The task and its handles at work over the real channels, driven on one
//! thread.

use background_task::{
    Exchange, SumBackground, SumError, SumFuture, SumHandle, TaskStatus, Turn,
};
use futures::future::{lazy, poll_fn, Either};
use futures::{Async, Future};

/// Runs `f` inside a task, where the channels may be polled.
fn in_task<T>(f: impl FnOnce() -> T) -> T {
    lazy(move || Ok::<T, ()>(f())).wait().unwrap()
}

fn status_to_poll(polled: Result<TaskStatus, SumError>) -> Result<Async<()>, ()> {
    match polled {
        Ok(TaskStatus::NotReady) => Ok(Async::NotReady),
        Ok(TaskStatus::Finished) => Ok(Async::Ready(())),
        Ok(TaskStatus::Failed) => Err(()),
        Err(error) => panic!("polled outside of a task: {:?}", error),
    }
}

fn worker(mut task: SumBackground) -> impl Future<Item = (), Error = ()> {
    poll_fn(move || status_to_poll(task.poll()))
}

fn reply(mut awaited: SumFuture) -> impl Future<Item = usize, Error = SumError> {
    poll_fn(move || match awaited.poll() {
        Ok(Some(value)) => Ok(Async::Ready(value)),
        Ok(None) => Ok(Async::NotReady),
        Err(error) => Err(error),
    })
}

fn submit(handle: &mut SumHandle, a: usize, b: usize) -> SumFuture {
    assert!(a.checked_add(b).is_some());
    handle.sum(a, b).unwrap()
}

#[test]
fn one_plus_two_while_the_worker_runs() {
    let (mut handle, task) = SumBackground::new();
    let awaited = submit(&mut handle, 1, 2);
    match reply(awaited).select2(worker(task)).wait() {
        Ok(Either::A((sum, _still_running))) => assert_eq!(sum, 3),
        _ => panic!("the reply should arrive while the worker is still running"),
    }
}

#[test]
fn ten_plus_thirty_five() {
    let (mut handle, task) = SumBackground::new();
    let awaited = submit(&mut handle, 10, 35);
    drop(handle);
    assert_eq!(worker(task).wait(), Ok(()));
    assert_eq!(reply(awaited).wait(), Ok(45));
}

#[test]
fn worker_ends_once_all_handles_are_dropped() {
    let (handle, mut task) = SumBackground::new();
    let twin = handle.clone();
    drop(handle);
    drop(twin);
    assert_eq!(in_task(|| task.poll()), Ok(TaskStatus::Finished));
    assert_eq!(worker(task).wait(), Ok(()));
}

#[test]
fn worker_waits_while_any_handle_lives() {
    let (handle, mut task) = SumBackground::new();
    let mut twin = handle.clone();
    assert_eq!(in_task(|| task.poll()), Ok(TaskStatus::NotReady));
    drop(handle);
    assert_eq!(in_task(|| task.poll()), Ok(TaskStatus::NotReady));
    let awaited = submit(&mut twin, 6, 7);
    drop(twin);
    assert_eq!(
        in_task(|| task.turn()),
        Ok(Turn::Served(Exchange { a: 6, b: 7, reply: 13, delivered: true }))
    );
    assert_eq!(in_task(|| task.turn()), Ok(Turn::Closed));
    assert_eq!(in_task(|| task.poll()), Ok(TaskStatus::Finished));
    assert_eq!(reply(awaited).wait(), Ok(13));
}

#[test]
fn pending_requests_are_answered_before_the_worker_ends() {
    let (mut handle, mut task) = SumBackground::new();
    let first = submit(&mut handle, 1, 1);
    let second = submit(&mut handle, 2, 2);
    drop(handle);
    assert_eq!(in_task(|| task.poll()), Ok(TaskStatus::Finished));
    assert_eq!(reply(first).wait(), Ok(2));
    assert_eq!(reply(second).wait(), Ok(4));
}

#[test]
fn abandoned_request_does_not_stop_the_worker() {
    let (mut handle, mut task) = SumBackground::new();
    let mut other = handle.clone();
    let abandoned = submit(&mut handle, 1, 2);
    let kept = submit(&mut other, 3, 4);
    drop(abandoned);
    assert_eq!(
        in_task(|| task.turn()),
        Ok(Turn::Served(Exchange { a: 1, b: 2, reply: 3, delivered: false }))
    );
    assert_eq!(in_task(|| task.poll()), Ok(TaskStatus::NotReady));
    assert_eq!(reply(kept).wait(), Ok(7));
    let later = submit(&mut other, 5, 6);
    assert_eq!(in_task(|| task.poll()), Ok(TaskStatus::NotReady));
    assert_eq!(reply(later).wait(), Ok(11));
    drop(handle);
    drop(other);
    assert_eq!(worker(task).wait(), Ok(()));
}

#[test]
fn every_request_resolves_to_its_sum() {
    let (mut handle, mut task) = SumBackground::new();
    let mut twin = handle.clone();
    let mut third = twin.clone();
    let mut pending = Vec::new();
    for i in 0..10usize {
        pending.push((i + 100 * i, submit(&mut handle, i, 100 * i)));
        pending.push((i + 7, submit(&mut twin, 7, i)));
        pending.push((3 * i, submit(&mut third, 2 * i, i)));
    }
    let mut answered = 0;
    loop {
        match in_task(|| task.turn()) {
            Ok(Turn::Served(done)) => {
                assert_eq!(done.reply, done.a + done.b);
                assert!(done.delivered);
                answered += 1;
            }
            Ok(Turn::Idle) => break,
            other => panic!("unexpected turn {:?}", other),
        }
    }
    assert_eq!(answered, 30);
    for (expected, awaited) in pending {
        assert_eq!(reply(awaited).wait(), Ok(expected));
    }
}

#[test]
fn one_handle_is_answered_in_order() {
    let (mut handle, mut task) = SumBackground::new();
    let mut other = handle.clone();
    let first = submit(&mut handle, 1, 10);
    let between = submit(&mut other, 5, 50);
    let second = submit(&mut handle, 2, 20);
    let third = submit(&mut handle, 3, 30);
    let mut order = Vec::new();
    for _ in 0..4 {
        match in_task(|| task.turn()) {
            Ok(Turn::Served(done)) => order.push((done.a, done.b, done.reply)),
            other => panic!("unexpected turn {:?}", other),
        }
    }
    assert_eq!(order, vec![(1, 10, 11), (5, 50, 55), (2, 20, 22), (3, 30, 33)]);
    assert_eq!(in_task(|| task.turn()), Ok(Turn::Idle));
    assert_eq!(reply(first).wait(), Ok(11));
    assert_eq!(reply(second).wait(), Ok(22));
    assert_eq!(reply(third).wait(), Ok(33));
    assert_eq!(reply(between).wait(), Ok(55));
}

#[test]
fn many_producers_lose_nothing() {
    let producers = 4usize;
    let each = 5usize;
    let (first, task) = SumBackground::new();
    let mut handles = vec![first];
    while handles.len() < producers {
        let twin = handles[0].clone();
        handles.push(twin);
    }
    let mut awaited = Vec::new();
    for round in 0..each {
        for (producer, handle) in handles.iter_mut().enumerate() {
            let a = 1000 * producer;
            let b = round;
            awaited.push((a + b, reply(submit(handle, a, b))));
        }
    }
    drop(handles);
    let expected: Vec<usize> = awaited.iter().map(|pair| pair.0).collect();
    let replies = futures::future::join_all(awaited.into_iter().map(|pair| pair.1));
    match replies.select2(worker(task)).wait() {
        Ok(Either::A((sums, _))) => {
            assert_eq!(sums.len(), producers * each);
            assert_eq!(sums, expected);
        }
        Ok(Either::B(((), replies))) => {
            let sums = replies.wait().unwrap();
            assert_eq!(sums.len(), producers * each);
            assert_eq!(sums, expected);
        }
        Err(_) => panic!("neither the worker nor a reply may fail"),
    }
}

#[test]
fn submitting_after_the_worker_is_gone_is_refused() {
    let (mut handle, task) = SumBackground::new();
    drop(task);
    match handle.sum(1, 2) {
        Err(error) => assert_eq!(error, SumError::ChannelClosed),
        Ok(_) => panic!("a channel without its worker should refuse"),
    }
    let mut twin = handle.clone();
    assert!(matches!(twin.sum(0, 0), Err(SumError::ChannelClosed)));
}

#[test]
fn request_dropped_with_the_worker_is_cancelled() {
    let (mut handle, task) = SumBackground::new();
    let awaited = submit(&mut handle, 1, 2);
    drop(task);
    assert_eq!(reply(awaited).wait(), Err(SumError::Cancelled));
}

#[test]
fn reply_is_pending_until_the_worker_has_run() {
    let (mut handle, mut task) = SumBackground::new();
    let mut awaited = submit(&mut handle, 8, 9);
    assert_eq!(in_task(|| awaited.poll()), Ok(None));
    assert_eq!(in_task(|| task.poll()), Ok(TaskStatus::NotReady));
    assert_eq!(in_task(|| awaited.poll()), Ok(Some(17)));
}

#[test]
fn batch_limit_stops_the_poll_early() {
    let (mut handle, mut task) = SumBackground::new();
    let first = submit(&mut handle, 1, 0);
    let second = submit(&mut handle, 2, 0);
    let mut third = submit(&mut handle, 3, 0);
    assert_eq!(in_task(|| task.poll_batch(2)), Ok(TaskStatus::NotReady));
    assert_eq!(reply(first).wait(), Ok(1));
    assert_eq!(reply(second).wait(), Ok(2));
    assert_eq!(in_task(|| third.poll()), Ok(None));
    assert_eq!(in_task(|| task.poll_batch(2)), Ok(TaskStatus::NotReady));
    assert_eq!(in_task(|| third.poll()), Ok(Some(3)));
}

#[test]
fn batch_limit_asks_for_another_poll() {
    let (mut handle, mut task) = SumBackground::new();
    let mut awaited = Vec::new();
    for i in 0..5usize {
        awaited.push((i + i, submit(&mut handle, i, i)));
    }
    drop(handle);
    let mut polls = 0;
    let in_small_steps = poll_fn(|| {
        polls += 1;
        status_to_poll(task.poll_batch(1))
    });
    assert_eq!(in_small_steps.wait(), Ok(()));
    assert_eq!(polls, 6);
    for (expected, awaited) in awaited {
        assert_eq!(reply(awaited).wait(), Ok(expected));
    }
}

#[test]
fn batch_of_nothing_only_yields() {
    let (mut handle, mut task) = SumBackground::new();
    let mut awaited = submit(&mut handle, 4, 4);
    assert_eq!(in_task(|| task.poll_batch(0)), Ok(TaskStatus::NotReady));
    assert_eq!(in_task(|| awaited.poll()), Ok(None));
}

#[test]
fn largest_sums() {
    let (mut handle, task) = SumBackground::new();
    let top = submit(&mut handle, usize::MAX, 0);
    let also_top = submit(&mut handle, usize::MAX - 1, 1);
    let zero = submit(&mut handle, 0, 0);
    drop(handle);
    assert_eq!(worker(task).wait(), Ok(()));
    assert_eq!(reply(top).wait(), Ok(usize::MAX));
    assert_eq!(reply(also_top).wait(), Ok(usize::MAX));
    assert_eq!(reply(zero).wait(), Ok(0));
}

#[test]
fn clone_outlives_the_first_handle() {
    let (handle, task) = SumBackground::new();
    let mut twin = handle.clone();
    drop(handle);
    let awaited = submit(&mut twin, 20, 22);
    drop(twin);
    assert_eq!(worker(task).wait(), Ok(()));
    assert_eq!(reply(awaited).wait(), Ok(42));
}

#[test]
fn polling_the_worker_outside_a_task_is_refused() {
    let (mut handle, mut task) = SumBackground::new();
    assert_eq!(task.poll(), Err(SumError::NoTask));
    assert_eq!(task.turn(), Err(SumError::NoTask));
    assert_eq!(task.poll_batch(0), Err(SumError::NoTask));
    assert_eq!(task.poll_batch(3), Err(SumError::NoTask));
    let awaited = submit(&mut handle, 2, 3);
    assert_eq!(task.turn(), Err(SumError::NoTask));
    assert_eq!(task.poll(), Err(SumError::NoTask));
    assert_eq!(
        in_task(|| task.turn()),
        Ok(Turn::Served(Exchange { a: 2, b: 3, reply: 5, delivered: true }))
    );
    assert_eq!(reply(awaited).wait(), Ok(5));
    let later = submit(&mut handle, 4, 5);
    drop(handle);
    assert_eq!(worker(task).wait(), Ok(()));
    assert_eq!(reply(later).wait(), Ok(9));
}

#[test]
fn polling_a_reply_outside_a_task_is_refused() {
    let (mut handle, mut task) = SumBackground::new();
    let mut awaited = submit(&mut handle, 8, 9);
    assert_eq!(awaited.poll(), Err(SumError::NoTask));
    assert_eq!(in_task(|| awaited.poll()), Ok(None));
    assert_eq!(in_task(|| task.poll()), Ok(TaskStatus::NotReady));
    assert_eq!(awaited.poll(), Err(SumError::NoTask));
    assert_eq!(in_task(|| awaited.poll()), Ok(Some(17)));
}

#[test]
fn handle_is_as_before_after_a_call() {
    let (mut handle, task) = SumBackground::new();
    let first = submit(&mut handle, 1, 1);
    let second = submit(&mut handle, 2, 2);
    let third = submit(&mut handle, 3, 3);
    drop(handle);
    assert_eq!(worker(task).wait(), Ok(()));
    assert_eq!(reply(first).wait(), Ok(2));
    assert_eq!(reply(second).wait(), Ok(4));
    assert_eq!(reply(third).wait(), Ok(6));
}

#[test]
fn handle_is_as_before_after_a_refusal() {
    let (mut handle, task) = SumBackground::new();
    drop(task);
    for _ in 0..3 {
        assert!(matches!(handle.sum(1, 2), Err(SumError::ChannelClosed)));
    }
}
