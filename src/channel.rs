use crate::event::TerminalEvent;
use futures::stream::Stream;
use vstd::prelude::*;

verus! {

/// The sending half of an unbounded channel of the futures crate.
#[verifier::external_type_specification]
#[verifier::external_body]
#[verifier::reject_recursive_types(T)]
pub struct ExUnboundedSender<T>(futures::channel::mpsc::UnboundedSender<T>);

/// The receiving half of an unbounded channel of the futures crate.
#[verifier::external_type_specification]
#[verifier::external_body]
#[verifier::reject_recursive_types(T)]
pub struct ExUnboundedReceiver<T>(futures::channel::mpsc::UnboundedReceiver<T>);

/// The task context whose waker a pending poll registers.
#[verifier::external_type_specification]
#[verifier::external_body]
pub struct ExContext<'a>(std::task::Context<'a>);

/// What one non-blocking poll of an event stream gives.
#[derive(Clone, Copy, Debug, PartialEq, Eq, Structural)]
pub enum NextEvent {
    /// The next buffered event.
    Ready(TerminalEvent),
    /// Nothing is buffered now; the caller's waker is registered.
    NotReady,
    /// The producer has shut down and the buffer is empty: no event will come.
    Exhausted,
}

/// Relies on futures::channel::mpsc::unbounded: a fresh channel, one sender
/// and its receiver.
#[verifier::external_body]
pub(crate) fn unbounded_channel() -> (
    futures::channel::mpsc::UnboundedSender<TerminalEvent>,
    futures::channel::mpsc::UnboundedReceiver<TerminalEvent>,
) {
    futures::channel::mpsc::unbounded()
}

/// Relies on UnboundedSender::unbounded_send: `true` when the event was queued,
/// `false` when the receiver is gone. Which one comes depends on the receiver,
/// so nothing is stated of it.
#[verifier::external_body]
pub(crate) fn send_event(
    tx: &futures::channel::mpsc::UnboundedSender<TerminalEvent>,
    event: TerminalEvent,
) -> (r: bool) {
    tx.unbounded_send(event).is_ok()
}

/// Relies on Stream::poll_next of UnboundedReceiver: `Ready(Some(e))` is the
/// oldest queued event, `Ready(None)` the end of the stream, `Pending` an empty
/// queue, in which case the context's waker is registered. What comes depends on
/// the senders, so nothing is stated of it.
#[verifier::external_body]
pub(crate) fn poll_next_event(
    rx: &mut futures::channel::mpsc::UnboundedReceiver<TerminalEvent>,
    cx: &mut std::task::Context<'_>,
) -> (r: NextEvent) {
    match std::pin::Pin::new(rx).poll_next(cx) {
        std::task::Poll::Ready(Some(event)) => NextEvent::Ready(event),
        std::task::Poll::Ready(None) => NextEvent::Exhausted,
        std::task::Poll::Pending => NextEvent::NotReady,
    }
}

} // verus!
