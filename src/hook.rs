use crate::broadcast::{acquire_granted, after_acquire, BroadcastView, TerminalEventBroadcast};
use crate::channel::{poll_next_event, NextEvent};
use crate::event::TerminalEvent;
use futures::channel::mpsc::UnboundedReceiver;
use vstd::prelude::*;

verus! {

/// What a component does with each terminal event that reaches it. It runs
/// synchronously, once per event, in arrival order; it makes its effects felt by
/// changing state of its own, never by a return value.
pub trait EventHandler: Send {
    fn handle(&mut self, event: TerminalEvent);
}

/// Where a hook stands with its event stream.
#[derive(Clone, Copy, Debug, PartialEq, Eq, Structural)]
pub enum Stage {
    /// No stream yet: none was asked for, or none was granted.
    Unattached,
    /// A stream is held and drained on every poll.
    Attached,
    /// The stream ended; it is never polled nor asked for again.
    Exhausted,
}

/// What a poll of a hook reports to the scheduler.
#[derive(Clone, Copy, Debug, PartialEq, Eq, Structural)]
pub enum Change {
    /// The hook's own state changed and the component should render again.
    Changed,
    /// Nothing of the hook's own changed; poll again when woken.
    Pending,
}

/// The abstract state of a terminal events hook: its stage, and every event it
/// has handed to its handler, in order.
pub struct HookView {
    pub stage: Stage,
    pub delivered: Seq<TerminalEvent>,
}

/// The hook after one outcome of a poll of its stream.
pub open spec fn after_next(h: HookView, next: NextEvent) -> HookView {
    match next {
        NextEvent::Ready(e) => HookView { delivered: h.delivered.push(e), ..h },
        NextEvent::NotReady => h,
        NextEvent::Exhausted => HookView { stage: Stage::Exhausted, ..h },
    }
}

/// The hook after the outcomes `outs`, in order.
pub open spec fn after_nexts(h: HookView, outs: Seq<NextEvent>) -> HookView
    decreases outs.len(),
{
    if outs.len() == 0 {
        h
    } else {
        after_next(after_nexts(h, outs.drop_last()), outs.last())
    }
}

/// The outcomes of one drain: events while there are some, then "not ready" or
/// "exhausted".
pub open spec fn is_tick(outs: Seq<NextEvent>) -> bool {
    &&& outs.len() >= 1
    &&& forall|k: int| 0 <= k < outs.len() - 1 ==> #[trigger] outs[k] is Ready
    &&& !(outs.last() is Ready)
}

/// The outcomes of a drain cut short after `usize::MAX` events, all ready.
pub open spec fn is_capped_tick(outs: Seq<NextEvent>) -> bool {
    &&& outs.len() == usize::MAX
    &&& forall|k: int| 0 <= k < outs.len() ==> #[trigger] outs[k] is Ready
}

/// The hook after a poll in which its stream gave `outs`; a hook without a
/// stream polls nothing.
pub open spec fn after_tick(h: HookView, outs: Seq<NextEvent>) -> HookView {
    if h.stage == Stage::Attached {
        after_nexts(h, outs)
    } else {
        h
    }
}

/// The hook after a commit of its component `instance`, with the runtime's
/// broadcast in state `v`: only a hook without a stream asks for one.
pub open spec fn after_update_hook(h: HookView, v: BroadcastView, instance: u64) -> HookView {
    if h.stage == Stage::Unattached && acquire_granted(v, instance) {
        HookView { stage: Stage::Attached, ..h }
    } else {
        h
    }
}

/// The broadcast after a commit of component `instance` whose hook is `h`.
pub open spec fn after_update_broadcast(h: HookView, v: BroadcastView, instance: u64) -> BroadcastView {
    if h.stage == Stage::Unattached {
        after_acquire(v, instance)
    } else {
        v
    }
}

enum EventStream {
    Unattached,
    Attached(UnboundedReceiver<TerminalEvent>),
    Exhausted,
}

/// The per-component state of the terminal events hook: the stream once
/// acquired, and the handler installed when the hook was created.
pub struct UseTerminalEventsImpl {
    events: EventStream,
    f: Box<dyn EventHandler>,
    delivered: Ghost<Seq<TerminalEvent>>,
}

impl View for UseTerminalEventsImpl {
    type V = HookView;

    closed spec fn view(&self) -> HookView {
        HookView {
            stage: match self.events {
                EventStream::Unattached => Stage::Unattached,
                EventStream::Attached(_) => Stage::Attached,
                EventStream::Exhausted => Stage::Exhausted,
            },
            delivered: self.delivered@,
        }
    }
}

impl UseTerminalEventsImpl {
    /// A hook with no stream yet that will hand events to `f`.
    pub fn new(f: Box<dyn EventHandler>) -> (r: UseTerminalEventsImpl)
        ensures
            r@.stage == Stage::Unattached,
            r@.delivered == Seq::<TerminalEvent>::empty(),
    {
        UseTerminalEventsImpl { events: EventStream::Unattached, f, delivered: Ghost(Seq::empty()) }
    }

    /// Acts on one outcome of a poll of the stream: a ready event goes to the
    /// handler, an end of stream lets the stream go for good, "not ready" does
    /// nothing. A hook that holds no stream ignores the outcome. Returns whether
    /// the drain should go on, which is when an event was handed over.
    pub fn on_next(&mut self, next: NextEvent) -> (more: bool)
        ensures
            more == (old(self)@.stage == Stage::Attached && next is Ready),
            final(self)@ == if old(self)@.stage == Stage::Attached {
                after_next(old(self)@, next)
            } else {
                old(self)@
            },
    {
        if !matches!(self.events, EventStream::Attached(_)) {
            return false;
        }
        match next {
            NextEvent::Ready(event) => {
                self.f.handle(event);
                self.delivered = Ghost(self.delivered@.push(event));
                true
            },
            NextEvent::NotReady => false,
            NextEvent::Exhausted => {
                self.events = EventStream::Exhausted;
                false
            },
        }
    }

    /// Hands each event that the stream has ready to the handler, in order,
    /// until the stream is not ready or has ended; an ended stream is let go
    /// and never polled again. One poll hands over at most `usize::MAX` events,
    /// more than memory can buffer. A handler that panics is not caught here:
    /// the drain stops with it and the events behind it stay queued. The hook
    /// owns no state that rendering reads, so it always reports `Pending`.
    pub fn poll_change(&mut self, cx: &mut std::task::Context<'_>) -> (r: Change)
        ensures
            r == Change::Pending,
            old(self)@.stage != Stage::Attached ==> final(self)@ == old(self)@,
            exists|outs: Seq<NextEvent>|
                (is_tick(outs) || is_capped_tick(outs)) && final(self)@ == after_tick(old(self)@, outs),
    {
        let ghost start = self@;
        if !matches!(self.events, EventStream::Attached(_)) {
            proof {
                let outs = seq![NextEvent::NotReady];
                assert(is_tick(outs));
            }
            return Change::Pending;
        }
        let ghost mut outs: Seq<NextEvent> = Seq::empty();
        let mut drained: usize = 0;
        loop
            invariant
                start == old(self)@,
                start.stage == Stage::Attached,
                outs.len() == drained,
                forall|k: int| 0 <= k < outs.len() ==> #[trigger] outs[k] is Ready,
                self@ == after_nexts(start, outs),
                self@.stage == Stage::Attached,
            decreases usize::MAX - drained,
        {
            if drained == usize::MAX {
                assert(is_capped_tick(outs));
                return Change::Pending;
            }
            let next = match &mut self.events {
                EventStream::Attached(rx) => poll_next_event(rx, cx),
                _ => NextEvent::NotReady,
            };
            let ghost prev = self@;
            assert(prev == after_nexts(start, outs));
            let more = self.on_next(next);
            proof {
                assert(outs.push(next).last() == next);
                assert(outs.push(next).drop_last() =~= outs);
                outs = outs.push(next);
            }
            if !more {
                assert(is_tick(outs));
                return Change::Pending;
            }
            drained = drained + 1;
        }
    }

    /// After a commit of component `instance`: a hook without a stream asks
    /// `updater` for one and keeps what it gets; a hook that holds a stream, or
    /// whose stream ended, asks nothing.
    pub fn post_component_update(&mut self, instance: u64, updater: &mut TerminalEventBroadcast)
        requires
            old(updater).wf(),
        ensures
            final(updater).wf(),
            final(self)@ == after_update_hook(old(self)@, old(updater)@, instance),
            final(updater)@ == after_update_broadcast(old(self)@, old(updater)@, instance),
    {
        if matches!(self.events, EventStream::Unattached) {
            match updater.terminal_events(instance) {
                Some(rx) => {
                    self.events = EventStream::Attached(rx);
                },
                None => {},
            }
        }
    }
}

/// The hooks of one component instance: the identity the runtime knows it by,
/// and the slot of its terminal events hook, filled on first use.
pub struct Hooks {
    instance: u64,
    terminal_events: Option<UseTerminalEventsImpl>,
}

/// The abstract state of a component's hooks.
pub struct HooksView {
    pub instance: u64,
    pub terminal_events: Option<HookView>,
}

impl View for Hooks {
    type V = HooksView;

    closed spec fn view(&self) -> HooksView {
        HooksView {
            instance: self.instance,
            terminal_events: match self.terminal_events {
                Some(h) => Some(h@),
                None => None,
            },
        }
    }
}

impl Hooks {
    /// The hooks of a freshly created component instance: none installed.
    pub fn new(instance: u64) -> (r: Hooks)
        ensures
            r@.instance == instance,
            r@.terminal_events is None,
    {
        Hooks { instance, terminal_events: None }
    }

    /// Polls the installed terminal events hook, if any; always `Pending`.
    pub fn poll_change(&mut self, cx: &mut std::task::Context<'_>) -> (r: Change)
        ensures
            r == Change::Pending,
            final(self)@.instance == old(self)@.instance,
            old(self)@.terminal_events is None ==> final(self)@ == old(self)@,
            old(self)@.terminal_events is Some ==> final(self)@.terminal_events is Some
                && exists|outs: Seq<NextEvent>|
                (is_tick(outs) || is_capped_tick(outs)) && final(self)@.terminal_events->0
                    == after_tick(old(self)@.terminal_events->0, outs),
    {
        match &mut self.terminal_events {
            Some(h) => h.poll_change(cx),
            None => Change::Pending,
        }
    }

    /// Runs the post-commit step of the installed terminal events hook, if any.
    pub fn post_component_update(&mut self, updater: &mut TerminalEventBroadcast)
        requires
            old(updater).wf(),
        ensures
            final(updater).wf(),
            final(self)@.instance == old(self)@.instance,
            old(self)@.terminal_events is None ==> final(self)@ == old(self)@ && final(updater)@
                == old(updater)@,
            old(self)@.terminal_events is Some ==> final(self)@.terminal_events == Some(
                after_update_hook(old(self)@.terminal_events->0, old(updater)@, old(self)@.instance),
            ) && final(updater)@ == after_update_broadcast(
                old(self)@.terminal_events->0,
                old(updater)@,
                old(self)@.instance,
            ),
    {
        let instance = self.instance;
        match &mut self.terminal_events {
            Some(h) => h.post_component_update(instance, updater),
            None => {},
        }
    }
}

/// Listening for terminal events from a component.
pub trait UseTerminalEvents {
    /// Installs `f` as the handler of the terminal events that reach this
    /// component. Only the first call installs; the handler is then fixed for
    /// the component's lifetime.
    fn use_terminal_events<F: EventHandler + 'static>(&mut self, f: F);
}

impl UseTerminalEvents for Hooks {
    fn use_terminal_events<F: EventHandler + 'static>(&mut self, f: F)
        ensures
            final(self)@.instance == old(self)@.instance,
            old(self)@.terminal_events is Some ==> final(self)@ == old(self)@,
            old(self)@.terminal_events is None ==> final(self)@.terminal_events == Some(
                HookView { stage: Stage::Unattached, delivered: Seq::empty() },
            ),
    {
        if self.terminal_events.is_none() {
            self.terminal_events = Some(UseTerminalEventsImpl::new(Box::new(f)));
        }
    }
}

} // verus!
