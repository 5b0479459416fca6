use async_std::channel::{bounded, unbounded, Receiver, Sender};
use std::task::{Context, Waker};
use thread_watcher::adapter::{Poll, RecvWrapper};
use thread_watcher::controller::{Command, Message, ThreadWatcher};
use thread_watcher::dispatch::{dispatch, is_bounded, report, DispatchError, SendOutcome};
use thread_watcher::subscription::{Phase, Registration, Subscription};
use thread_watcher::worker::{can_respond, worker_step, WorkerAction, WorkerEvent};

/// One turn of the worker on real channels: `None` while it has to wait.
fn worker_turn(from_ui: &mut RecvWrapper<i64>, to_ui: &Sender<i64>) -> Option<WorkerAction> {
    let mut cx = Context::from_waker(Waker::noop());
    let event = match from_ui.poll_next(&mut cx) {
        Poll::Pending => return None,
        Poll::Item(request) => {
            assert!(can_respond(request));
            WorkerEvent::Request(request)
        }
        Poll::Done => WorkerEvent::Closed,
    };
    let action = worker_step(event);
    if let WorkerAction::Respond(response) = action {
        assert_eq!(dispatch(to_ui, response), Ok(()));
    }
    Some(action)
}

/// One press of the dispatch button, carried out on a real channel.
fn press(watcher: &mut ThreadWatcher, to_worker: &Sender<i64>) -> i64 {
    assert!(watcher.can_update(Message::DispatchPressed));
    match watcher.update(Message::DispatchPressed) {
        Command::Send(request) => {
            assert_eq!(dispatch(to_worker, request), Ok(()));
            assert_eq!(watcher.update(Message::Dummy), Command::Nothing);
            request
        }
        Command::Nothing => panic!("a press must issue a request"),
    }
}

fn subscribe(from_worker: &Receiver<i64>, identity: u64) -> Subscription<i64> {
    let mut subscription = Subscription::new();
    let registration = subscription.register(RecvWrapper::new(from_worker.clone(), identity));
    assert_eq!(registration, Registration::Started);
    subscription
}

#[test]
fn three_dispatches_come_back_as_one_four_nine() {
    let (to_worker, from_ui) = unbounded::<i64>();
    let (to_ui, from_worker) = unbounded::<i64>();
    let mut worker_end = RecvWrapper::new(from_ui, 0);
    let (mut watcher, _) = ThreadWatcher::new();
    let mut subscription = subscribe(&from_worker, 1);
    let mut cx = Context::from_waker(Waker::noop());

    assert_eq!(press(&mut watcher, &to_worker), 1);
    assert_eq!(press(&mut watcher, &to_worker), 2);
    assert_eq!(press(&mut watcher, &to_worker), 3);
    assert_eq!(watcher.last_sent(), 3);
    assert_eq!(watcher.last_recv(), 0);

    assert_eq!(worker_turn(&mut worker_end, &to_ui), Some(WorkerAction::Respond(1)));
    assert_eq!(worker_turn(&mut worker_end, &to_ui), Some(WorkerAction::Respond(4)));
    assert_eq!(worker_turn(&mut worker_end, &to_ui), Some(WorkerAction::Respond(9)));
    assert_eq!(worker_turn(&mut worker_end, &to_ui), None);

    let mut seen = vec![watcher.last_recv()];
    for _ in 0..3 {
        match subscription.poll_next(&mut cx) {
            Poll::Item(response) => {
                watcher.update(Message::NewValue(response));
                seen.push(watcher.last_recv());
            }
            other => panic!("expected an item, got {:?}", other),
        }
    }
    assert_eq!(seen, vec![0, 1, 4, 9]);
    assert_eq!(subscription.poll_next(&mut cx), Poll::Pending);
    assert_eq!(subscription.phase(), Phase::Active(1));
}

#[test]
fn responses_interleaved_with_dispatches_keep_their_order() {
    let (to_worker, from_ui) = unbounded::<i64>();
    let (to_ui, from_worker) = unbounded::<i64>();
    let mut worker_end = RecvWrapper::new(from_ui, 0);
    let (mut watcher, _) = ThreadWatcher::new();
    let mut subscription = subscribe(&from_worker, 1);
    let mut cx = Context::from_waker(Waker::noop());
    let mut delivered = Vec::new();

    press(&mut watcher, &to_worker);
    worker_turn(&mut worker_end, &to_ui);
    press(&mut watcher, &to_worker);
    if let Poll::Item(response) = subscription.poll_next(&mut cx) {
        delivered.push(response);
    }
    press(&mut watcher, &to_worker);
    press(&mut watcher, &to_worker);
    while worker_turn(&mut worker_end, &to_ui).is_some() {}
    while let Poll::Item(response) = subscription.poll_next(&mut cx) {
        delivered.push(response);
    }
    assert_eq!(delivered, vec![1, 4, 9, 16]);
}

#[test]
fn full_channel_hands_the_second_request_back() {
    let (to_worker, from_ui) = bounded::<i64>(1);
    let (to_ui, from_worker) = bounded::<i64>(1);
    let mut worker_end = RecvWrapper::new(from_ui, 0);
    let mut subscription = subscribe(&from_worker, 1);
    let mut cx = Context::from_waker(Waker::noop());

    assert_eq!(dispatch(&to_worker, 1), Ok(()));
    let refused = dispatch(&to_worker, 2);
    assert_eq!(refused, Err(DispatchError::ChannelFull(2)));
    let held = refused.unwrap_err().into_request();
    assert_eq!(held, 2);

    assert_eq!(worker_turn(&mut worker_end, &to_ui), Some(WorkerAction::Respond(1)));
    assert_eq!(dispatch(&to_worker, held), Ok(()));
    assert_eq!(dispatch(&to_ui, 0), Err(DispatchError::ChannelFull(0)));

    assert_eq!(subscription.poll_next(&mut cx), Poll::Item(1));
    assert_eq!(worker_turn(&mut worker_end, &to_ui), Some(WorkerAction::Respond(4)));
    assert_eq!(subscription.poll_next(&mut cx), Poll::Item(4));
    assert_eq!(subscription.poll_next(&mut cx), Poll::Pending);
}

#[test]
fn closed_channel_hands_the_request_back() {
    let (to_worker, from_ui) = unbounded::<i64>();
    drop(from_ui);
    let refused = dispatch(&to_worker, 11);
    assert_eq!(refused, Err(DispatchError::ChannelClosed(11)));
    assert_eq!(refused.unwrap_err().into_request(), 11);
}

#[test]
fn dispatch_puts_the_request_into_the_channel() {
    let (to_worker, from_ui) = unbounded::<i64>();
    assert_eq!(dispatch(&to_worker, 21), Ok(()));
    assert_eq!(dispatch(&to_worker, 22), Ok(()));
    assert_eq!(from_ui.len(), 2);
    assert_eq!(from_ui.try_recv(), Ok(21));
    assert_eq!(from_ui.try_recv(), Ok(22));
    assert!(from_ui.is_empty());
}

#[test]
fn is_bounded_tells_bounded_from_unbounded() {
    let (bounded_sender, _bounded_receiver) = bounded::<i64>(3);
    let (unbounded_sender, _unbounded_receiver) = unbounded::<i64>();
    assert!(is_bounded(&bounded_sender));
    assert!(!is_bounded(&unbounded_sender));
}

#[test]
fn unbounded_channel_never_reports_backpressure() {
    let (to_worker, from_ui) = unbounded::<i64>();
    assert!(!is_bounded(&to_worker));
    for request in 1..=1000 {
        assert_eq!(dispatch(&to_worker, request), Ok(()));
    }
    assert_eq!(from_ui.len(), 1000);
    assert_eq!(from_ui.try_recv(), Ok(1));
}

#[test]
fn report_names_each_outcome() {
    assert_eq!(report(SendOutcome::Sent), Ok(()));
    assert_eq!(report(SendOutcome::Full(5)), Err(DispatchError::ChannelFull(5)));
    assert_eq!(report(SendOutcome::Closed(6)), Err(DispatchError::ChannelClosed(6)));
}

#[test]
fn nothing_is_lost_when_the_adapter_is_rebuilt() {
    let (to_worker, from_ui) = unbounded::<i64>();
    let (to_ui, from_worker) = unbounded::<i64>();
    let mut worker_end = RecvWrapper::new(from_ui, 0);
    let (mut watcher, _) = ThreadWatcher::new();
    let mut subscription = subscribe(&from_worker, 1);
    let mut cx = Context::from_waker(Waker::noop());
    let mut delivered = Vec::new();

    press(&mut watcher, &to_worker);
    press(&mut watcher, &to_worker);
    while worker_turn(&mut worker_end, &to_ui).is_some() {}
    if let Poll::Item(response) = subscription.poll_next(&mut cx) {
        delivered.push(response);
    }

    subscription.release();
    assert_eq!(subscription.phase(), Phase::Unregistered);
    press(&mut watcher, &to_worker);
    while worker_turn(&mut worker_end, &to_ui).is_some() {}
    let registration = subscription.register(RecvWrapper::new(from_worker.clone(), 2));
    assert_eq!(registration, Registration::Started);

    press(&mut watcher, &to_worker);
    while worker_turn(&mut worker_end, &to_ui).is_some() {}
    assert_eq!(subscription.register(RecvWrapper::new(from_worker.clone(), 2)), Registration::Kept);
    while let Poll::Item(response) = subscription.poll_next(&mut cx) {
        delivered.push(response);
    }
    assert_eq!(delivered, vec![1, 4, 9, 16]);
}

#[test]
fn worker_exits_and_polling_completes_once_the_senders_are_gone() {
    let (to_worker, from_ui) = unbounded::<i64>();
    let (to_ui, from_worker) = unbounded::<i64>();
    let mut worker_end = RecvWrapper::new(from_ui, 0);
    let (mut watcher, _) = ThreadWatcher::new();
    let mut subscription = subscribe(&from_worker, 1);
    let mut cx = Context::from_waker(Waker::noop());

    press(&mut watcher, &to_worker);
    press(&mut watcher, &to_worker);
    drop(to_worker);

    assert_eq!(worker_turn(&mut worker_end, &to_ui), Some(WorkerAction::Respond(1)));
    assert_eq!(worker_turn(&mut worker_end, &to_ui), Some(WorkerAction::Respond(4)));
    assert_eq!(worker_turn(&mut worker_end, &to_ui), Some(WorkerAction::Exit));
    drop(to_ui);

    assert_eq!(subscription.poll_next(&mut cx), Poll::Item(1));
    assert_eq!(subscription.poll_next(&mut cx), Poll::Item(4));
    assert_eq!(subscription.poll_next(&mut cx), Poll::Done);
    assert_eq!(subscription.phase(), Phase::Completed(1));
    assert!(!subscription.is_active());
    assert!(from_worker.is_closed());
    assert!(from_worker.is_empty());
}

#[test]
fn dropping_the_subscription_leaves_the_channel_open() {
    let (to_worker, from_ui) = unbounded::<i64>();
    let (to_ui, from_worker) = unbounded::<i64>();
    let mut worker_end = RecvWrapper::new(from_ui, 0);
    let mut subscription = subscribe(&from_worker, 1);

    assert_eq!(dispatch(&to_worker, 6), Ok(()));
    subscription.release();
    drop(subscription);
    assert_eq!(worker_turn(&mut worker_end, &to_ui), Some(WorkerAction::Respond(36)));
    assert!(!from_worker.is_closed());
    assert_eq!(from_worker.len(), 1);
    assert_eq!(from_worker.try_recv(), Ok(36));
}
