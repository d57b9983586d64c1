use std::sync::{Arc, Mutex};
use std::task::Context;

use terminal_events::{
    Change, EventHandler, Hooks, KeyCode, NextEvent, KeyEvent, KeyEventKind, KeyModifiers, TerminalEvent,
    TerminalEventBroadcast, UseTerminalEvents, UseTerminalEventsImpl,
};

struct Recorder {
    log: Arc<Mutex<Vec<TerminalEvent>>>,
}

impl EventHandler for Recorder {
    fn handle(&mut self, event: TerminalEvent) {
        self.log.lock().unwrap().push(event);
    }
}

fn recorder() -> (Recorder, Arc<Mutex<Vec<TerminalEvent>>>) {
    let log = Arc::new(Mutex::new(Vec::new()));
    (Recorder { log: log.clone() }, log)
}

fn key(c: char) -> TerminalEvent {
    TerminalEvent::Key(KeyEvent::new(KeyCode::Char(c), KeyModifiers::empty()))
}

fn poll(hooks: &mut Hooks) -> Change {
    let mut cx = Context::from_waker(futures::task::noop_waker_ref());
    hooks.poll_change(&mut cx)
}

fn component(instance: u64) -> (Hooks, Arc<Mutex<Vec<TerminalEvent>>>) {
    let mut hooks = Hooks::new(instance);
    let (handler, log) = recorder();
    hooks.use_terminal_events(handler);
    (hooks, log)
}

#[test]
fn first_poll_without_events_is_pending_and_silent() {
    let mut broadcast = TerminalEventBroadcast::new(true);
    let (mut hooks, log) = component(1);
    assert_eq!(poll(&mut hooks), Change::Pending);
    assert!(log.lock().unwrap().is_empty());
    hooks.post_component_update(&mut broadcast);
    assert_eq!(poll(&mut hooks), Change::Pending);
    assert!(log.lock().unwrap().is_empty());
}

#[test]
fn events_after_acquisition_arrive_in_order_within_one_poll() {
    let mut broadcast = TerminalEventBroadcast::new(true);
    let (mut hooks, log) = component(1);
    hooks.post_component_update(&mut broadcast);
    broadcast.emit(key('a'));
    broadcast.emit(key('b'));
    assert_eq!(poll(&mut hooks), Change::Pending);
    assert_eq!(*log.lock().unwrap(), vec![key('a'), key('b')]);
    assert_eq!(poll(&mut hooks), Change::Pending);
    assert_eq!(log.lock().unwrap().len(), 2);
}

#[test]
fn targeted_event_reaches_only_its_component() {
    let mut broadcast = TerminalEventBroadcast::new(true);
    let (mut first, first_log) = component(1);
    let (mut second, second_log) = component(2);
    first.post_component_update(&mut broadcast);
    second.post_component_update(&mut broadcast);
    broadcast.emit_to(1, key('x'));
    poll(&mut first);
    poll(&mut second);
    assert_eq!(*first_log.lock().unwrap(), vec![key('x')]);
    assert!(second_log.lock().unwrap().is_empty());
}

#[test]
fn unmounted_component_receives_nothing() {
    let mut broadcast = TerminalEventBroadcast::new(true);
    let (mut hooks, log) = component(1);
    hooks.post_component_update(&mut broadcast);
    drop(hooks);
    broadcast.emit(key('z'));
    assert!(log.lock().unwrap().is_empty());
    let (mut other, other_log) = component(2);
    other.post_component_update(&mut broadcast);
    broadcast.emit(key('y'));
    poll(&mut other);
    assert_eq!(*other_log.lock().unwrap(), vec![key('y')]);
}

#[test]
fn stream_is_granted_once_per_instance() {
    let mut broadcast = TerminalEventBroadcast::new(true);
    assert!(broadcast.terminal_events(7).is_some());
    assert!(broadcast.terminal_events(7).is_none());
    assert!(broadcast.terminal_events(7).is_none());
    assert!(broadcast.terminal_events(8).is_some());
}

#[test]
fn no_stream_when_events_unsupported() {
    let mut broadcast = TerminalEventBroadcast::new(false);
    assert!(broadcast.terminal_events(1).is_none());
    let (mut hooks, log) = component(2);
    hooks.post_component_update(&mut broadcast);
    broadcast.emit(key('q'));
    assert_eq!(poll(&mut hooks), Change::Pending);
    assert!(log.lock().unwrap().is_empty());
}

#[test]
fn repeated_updates_keep_the_first_stream() {
    let mut broadcast = TerminalEventBroadcast::new(true);
    let (mut hooks, log) = component(3);
    hooks.post_component_update(&mut broadcast);
    hooks.post_component_update(&mut broadcast);
    hooks.post_component_update(&mut broadcast);
    broadcast.emit(key('k'));
    poll(&mut hooks);
    assert_eq!(*log.lock().unwrap(), vec![key('k')]);
    assert!(broadcast.terminal_events(3).is_none());
}

#[test]
fn events_before_acquisition_are_lost() {
    let mut broadcast = TerminalEventBroadcast::new(true);
    let (mut hooks, log) = component(1);
    broadcast.emit(key('e'));
    broadcast.emit_to(1, key('f'));
    hooks.post_component_update(&mut broadcast);
    broadcast.emit(key('g'));
    poll(&mut hooks);
    assert_eq!(*log.lock().unwrap(), vec![key('g')]);
}

#[test]
fn burst_is_drained_in_fifo_order() {
    let mut broadcast = TerminalEventBroadcast::new(true);
    let (mut hooks, log) = component(1);
    hooks.post_component_update(&mut broadcast);
    let burst: Vec<TerminalEvent> = vec![
        key('1'),
        TerminalEvent::Resize(80, 24),
        TerminalEvent::FocusLost,
        TerminalEvent::Key(KeyEvent {
            code: KeyCode::Up,
            modifiers: KeyModifiers::from_bits(2),
            kind: KeyEventKind::Release,
        }),
        TerminalEvent::FocusGained,
    ];
    for e in &burst {
        broadcast.emit(*e);
    }
    assert_eq!(poll(&mut hooks), Change::Pending);
    assert_eq!(*log.lock().unwrap(), burst);
}

#[test]
fn exhausted_stream_is_never_polled_or_reacquired() {
    let mut broadcast = TerminalEventBroadcast::new(true);
    let (mut hooks, log) = component(1);
    hooks.post_component_update(&mut broadcast);
    broadcast.emit(key('a'));
    drop(broadcast);
    assert_eq!(poll(&mut hooks), Change::Pending);
    assert_eq!(*log.lock().unwrap(), vec![key('a')]);
    let mut fresh = TerminalEventBroadcast::new(true);
    hooks.post_component_update(&mut fresh);
    fresh.emit(key('b'));
    assert_eq!(poll(&mut hooks), Change::Pending);
    assert_eq!(*log.lock().unwrap(), vec![key('a')]);
    assert!(fresh.terminal_events(1).is_some());
}

#[test]
fn handler_is_fixed_at_first_use() {
    let mut broadcast = TerminalEventBroadcast::new(true);
    let (mut hooks, first_log) = component(1);
    let (second, second_log) = recorder();
    hooks.use_terminal_events(second);
    hooks.post_component_update(&mut broadcast);
    broadcast.emit(key('h'));
    poll(&mut hooks);
    assert_eq!(*first_log.lock().unwrap(), vec![key('h')]);
    assert!(second_log.lock().unwrap().is_empty());
}

#[test]
fn hook_state_can_be_driven_directly() {
    let mut broadcast = TerminalEventBroadcast::new(true);
    let (handler, log) = recorder();
    let mut hook = UseTerminalEventsImpl::new(Box::new(handler));
    let mut cx = Context::from_waker(futures::task::noop_waker_ref());
    hook.post_component_update(5, &mut broadcast);
    broadcast.emit_to(5, TerminalEvent::Resize(100, 40));
    broadcast.emit_to(6, TerminalEvent::Resize(1, 1));
    assert_eq!(hook.poll_change(&mut cx), Change::Pending);
    assert_eq!(*log.lock().unwrap(), vec![TerminalEvent::Resize(100, 40)]);
}

#[test]
fn hooks_without_terminal_events_do_nothing() {
    let mut broadcast = TerminalEventBroadcast::new(true);
    let mut hooks = Hooks::new(9);
    hooks.post_component_update(&mut broadcast);
    assert_eq!(poll(&mut hooks), Change::Pending);
    assert!(broadcast.terminal_events(9).is_some());
}

#[test]
fn outcomes_given_one_by_one() {
    let mut broadcast = TerminalEventBroadcast::new(true);
    let (handler, log) = recorder();
    let mut hook = UseTerminalEventsImpl::new(Box::new(handler));
    assert!(!hook.on_next(NextEvent::Ready(key('u'))));
    assert!(log.lock().unwrap().is_empty());
    hook.post_component_update(1, &mut broadcast);
    assert!(hook.on_next(NextEvent::Ready(key('v'))));
    assert!(hook.on_next(NextEvent::Ready(key('w'))));
    assert!(!hook.on_next(NextEvent::NotReady));
    assert_eq!(*log.lock().unwrap(), vec![key('v'), key('w')]);
    assert!(!hook.on_next(NextEvent::Exhausted));
    assert!(!hook.on_next(NextEvent::Ready(key('x'))));
    broadcast.emit(key('y'));
    let mut cx = Context::from_waker(futures::task::noop_waker_ref());
    assert_eq!(hook.poll_change(&mut cx), Change::Pending);
    assert_eq!(*log.lock().unwrap(), vec![key('v'), key('w')]);
}
