//! Scenario tests driving the request relay the way an event-loop driver
//! would: send through producer handles, watch the wakeup line, then invoke
//! the machine's lifecycle operations and check every instruction.

use std::cell::RefCell;
use std::rc::Rc;

use netmachines::handlers::RequestHandler;
use netmachines::machines::InvalidCall;
use netmachines::machines::RequestMachine;
use netmachines::machines::Response;
use netmachines::sync::funnel_channel;
use netmachines::sync::TryRecvError;
use netmachines::sync::notifier_channel;

/// Records every request it is shown; yields the seed `request + 100` for
/// the requests listed in `spawn_on` and nothing for the rest.
struct Recorder {
    seen: Rc<RefCell<Vec<u32>>>,
    spawn_on: Vec<u32>,
}

impl Recorder {
    fn new(spawn_on: Vec<u32>) -> (Recorder, Rc<RefCell<Vec<u32>>>) {
        let seen = Rc::new(RefCell::new(Vec::new()));
        (Recorder { seen: seen.clone(), spawn_on }, seen)
    }
}

impl RequestHandler for Recorder {
    type Request = u32;
    type Seed = u32;

    fn on_request(&mut self, request: u32) -> Option<u32> {
        self.seen.borrow_mut().push(request);
        if self.spawn_on.contains(&request) {
            Some(request + 100)
        } else {
            None
        }
    }
}

#[test]
fn n_sends_one_wakeup_in_order() {
    let (notifier, mut wake) = notifier_channel();
    let (handler, seen) = Recorder::new(vec![]);
    let (mut machine, funnel) = RequestMachine::new(handler, notifier);
    for i in 1u32..=5 {
        assert!(funnel.send(i).is_ok());
    }
    // Five sends coalesce into one pending wakeup.
    assert!(wake.take_signal());
    assert!(!wake.take_signal());
    assert_eq!(machine.wakeup(), Response::Continue);
    assert_eq!(*seen.borrow(), vec![1, 2, 3, 4, 5]);
    // A second wakeup delivers nothing twice.
    assert_eq!(machine.wakeup(), Response::Continue);
    assert_eq!(*seen.borrow(), vec![1, 2, 3, 4, 5]);
}

#[test]
fn zero_sends_yield_continue() {
    let (notifier, _wake) = notifier_channel();
    let (handler, seen) = Recorder::new(vec![]);
    let (mut machine, funnel) = RequestMachine::new(handler, notifier);
    assert_eq!(machine.wakeup(), Response::Continue);
    assert!(seen.borrow().is_empty());
    drop(funnel);
}

#[test]
fn disconnection_yields_terminate() {
    let (notifier, mut wake) = notifier_channel();
    let (handler, seen) = Recorder::new(vec![]);
    let (mut machine, funnel) = RequestMachine::new(handler, notifier);
    drop(funnel);
    assert_eq!(machine.wakeup(), Response::Terminate);
    assert!(seen.borrow().is_empty());
    // Every producer handle is gone: no further wakeup can be signaled.
    assert!(!wake.take_signal());
    assert!(!wake.take_signal());
}

#[test]
fn spawn_returns_seed_and_keeps_remainder() {
    let (notifier, _wake) = notifier_channel();
    let (handler, seen) = Recorder::new(vec![2]);
    let (mut machine, funnel) = RequestMachine::new(handler, notifier);
    for i in 1u32..=4 {
        assert!(funnel.send(i).is_ok());
    }
    // The drain stops at the request that yields a seed.
    assert_eq!(machine.wakeup(), Response::Spawn(102));
    assert_eq!(*seen.borrow(), vec![1, 2]);
    // The driver re-invokes after acting on the spawn instruction; the
    // queued remainder is drained then, not lost.
    assert_eq!(machine.spawned(), Response::Continue);
    assert_eq!(*seen.borrow(), vec![1, 2, 3, 4]);
}

#[test]
fn two_handles_interleaved_each_delivered_once() {
    let (notifier, _wake) = notifier_channel();
    let (handler, seen) = Recorder::new(vec![]);
    let (mut machine, funnel) = RequestMachine::new(handler, notifier);
    let second = funnel.clone();
    assert!(funnel.send(1).is_ok());
    assert!(second.send(10).is_ok());
    assert!(funnel.send(2).is_ok());
    assert!(second.send(20).is_ok());
    assert!(funnel.send(3).is_ok());
    assert_eq!(machine.wakeup(), Response::Continue);
    // Each request arrives exactly once, and each handle's own requests
    // keep their send order.
    let all = seen.borrow().clone();
    assert_eq!(all.len(), 5);
    let first_part: Vec<u32> = all.iter().copied().filter(|v| *v < 10).collect();
    let second_part: Vec<u32> = all.iter().copied().filter(|v| *v >= 10).collect();
    assert_eq!(first_part, vec![1, 2, 3]);
    assert_eq!(second_part, vec![10, 20]);
    // Nothing is delivered a second time.
    assert_eq!(machine.wakeup(), Response::Continue);
    assert_eq!(seen.borrow().len(), 5);
}

#[test]
fn invalid_lifecycle_calls_are_fatal() {
    let err = RequestMachine::<Recorder>::create(7);
    assert!(matches!(err, Err(InvalidCall::Create)));

    let (notifier, _wake) = notifier_channel();
    let (handler, _seen) = Recorder::new(vec![]);
    let (machine, _funnel) = RequestMachine::new(handler, notifier);
    assert_eq!(machine.ready(), InvalidCall::Ready);

    let (notifier, _wake) = notifier_channel();
    let (handler, _seen) = Recorder::new(vec![]);
    let (machine, _funnel) = RequestMachine::new(handler, notifier);
    assert_eq!(machine.timeout(), InvalidCall::Timeout);
}

#[test]
fn fatal_calls_carry_a_diagnostic() {
    assert_eq!(InvalidCall::Create.message(), "request machines cannot be created");
    assert_eq!(InvalidCall::Ready.message(), "request machines cannot become ready");
    assert_eq!(InvalidCall::Timeout.message(), "request machines cannot time out");
}

#[test]
fn end_to_end_spawn_episode() {
    let (notifier, mut wake) = notifier_channel();
    let (handler, seen) = Recorder::new(vec![2]);
    let (mut machine, funnel) = RequestMachine::new(handler, notifier);
    // A producer elsewhere sends three requests through its own handle.
    let producer = funnel.clone();
    assert!(producer.send(1).is_ok());
    assert!(producer.send(2).is_ok());
    assert!(producer.send(3).is_ok());
    drop(producer);
    // The driver sees the pending signal and wakes the machine: the
    // handler is called with 1 (no seed), then 2, whose seed 102 comes
    // back as a spawn instruction at once.
    assert!(wake.take_signal());
    assert_eq!(machine.wakeup(), Response::Spawn(102));
    assert_eq!(*seen.borrow(), vec![1, 2]);
    // The follow-up drain delivers 3 (no seed) and ends in continue.
    assert_eq!(machine.spawned(), Response::Continue);
    assert_eq!(*seen.borrow(), vec![1, 2, 3]);
    assert_eq!(machine.wakeup(), Response::Continue);
}

#[test]
fn send_after_receiver_gone_returns_value() {
    let (notifier, _wake) = notifier_channel();
    let (funnel, receiver) = funnel_channel::<u32>(notifier);
    drop(receiver);
    match funnel.send(7) {
        Ok(()) => panic!("send succeeded without a receiver"),
        Err(e) => assert_eq!(e.0, 7),
    }
}

#[test]
fn receiver_reports_empty_value_disconnected() {
    let (notifier, _wake) = notifier_channel();
    let (funnel, mut receiver) = funnel_channel::<u32>(notifier);
    assert_eq!(receiver.try_recv(), Err(TryRecvError::Empty));
    assert!(funnel.send(5).is_ok());
    assert!(funnel.send(6).is_ok());
    assert_eq!(receiver.try_recv(), Ok(5));
    assert_eq!(receiver.try_recv(), Ok(6));
    assert_eq!(receiver.try_recv(), Err(TryRecvError::Empty));
    drop(funnel);
    assert_eq!(receiver.try_recv(), Err(TryRecvError::Disconnected));
}

#[test]
fn clone_keeps_channel_alive() {
    let (notifier, _wake) = notifier_channel();
    let (handler, seen) = Recorder::new(vec![]);
    let (mut machine, funnel) = RequestMachine::new(handler, notifier);
    let survivor = funnel.clone();
    drop(funnel);
    // One live handle is enough: the channel is not yet disconnected.
    assert!(survivor.send(9).is_ok());
    assert_eq!(machine.wakeup(), Response::Continue);
    assert_eq!(*seen.borrow(), vec![9]);
    drop(survivor);
    assert_eq!(machine.wakeup(), Response::Terminate);
}

#[test]
fn notify_reports_whether_loop_end_exists() {
    let (notifier, mut wake) = notifier_channel();
    assert!(notifier.notify());
    assert!(wake.take_signal());
    assert!(!wake.take_signal());
    drop(wake);
    assert!(!notifier.notify());
}

#[test]
fn cloned_notifier_signals_same_line() {
    let (notifier, mut wake) = notifier_channel();
    let other = notifier.clone();
    assert!(other.notify());
    assert!(wake.take_signal());
    drop(notifier);
    drop(other);
    assert!(!wake.take_signal());
}
