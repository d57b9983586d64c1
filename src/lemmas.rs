use crate::broadcast::{
    acquire_granted, after_acquire, after_acquisitions, emitted, BroadcastView,
};
use crate::channel::NextEvent;
use crate::event::TerminalEvent;
use crate::hook::{
    after_nexts, after_tick, after_update_broadcast, after_update_hook, is_tick, HookView, Stage,
};
use vstd::prelude::*;

verus! {

/// Each event of `events` as a ready outcome of a poll, in order.
pub open spec fn ready_all(events: Seq<TerminalEvent>) -> Seq<NextEvent> {
    events.map_values(|e: TerminalEvent| NextEvent::Ready(e))
}

proof fn lemma_acquisitions_keep_acquired(v: BroadcastView, requests: Seq<u64>, x: u64)
    requires
        v.acquired.contains(x),
    ensures
        after_acquisitions(v, requests).acquired.contains(x),
    decreases requests.len(),
{
    if requests.len() > 0 {
        lemma_acquisitions_keep_acquired(after_acquire(v, requests[0]), requests.drop_first(), x);
    }
}

/// A stream is granted to an instance at most once: once `instance` has asked,
/// every later request of it is refused, whatever other requests come between.
pub proof fn lemma_acquisition_at_most_once(v: BroadcastView, instance: u64, later: Seq<u64>)
    ensures
        forall|k: int|
            0 <= k < later.len() && later[k] == instance ==> !acquire_granted(
                #[trigger] after_acquisitions(after_acquire(v, instance), later.take(k)),
                instance,
            ),
{
    assert forall|k: int|
        0 <= k < later.len() && later[k] == instance implies !acquire_granted(
            #[trigger] after_acquisitions(after_acquire(v, instance), later.take(k)),
            instance,
        ) by {
        lemma_acquisitions_keep_acquired(after_acquire(v, instance), later.take(k), instance);
    }
}

/// A hook asks for a stream on commits only until it holds one: after a commit
/// that got it a stream, a further commit leaves the broadcast as it is.
pub proof fn lemma_hook_acquires_once(h: HookView, v: BroadcastView, w: BroadcastView, instance: u64)
    requires
        h.stage == Stage::Unattached,
        acquire_granted(v, instance),
    ensures
        after_update_hook(h, v, instance).stage == Stage::Attached,
        after_update_broadcast(after_update_hook(h, v, instance), w, instance) == w,
{
}

proof fn lemma_ready_events_delivered(h: HookView, events: Seq<TerminalEvent>)
    requires
        h.stage == Stage::Attached,
    ensures
        after_nexts(h, ready_all(events)) == (HookView { delivered: h.delivered + events, ..h }),
    decreases events.len(),
{
    if events.len() == 0 {
        assert(h.delivered + events =~= h.delivered);
    } else {
        let init = events.drop_last();
        lemma_ready_events_delivered(h, init);
        assert(ready_all(events).drop_last() =~= ready_all(init));
        assert(h.delivered + init.push(events.last()) =~= h.delivered + events);
        assert(init.push(events.last()) =~= events);
    }
}

/// A poll that finds `events` ready and then "not ready" or "exhausted" hands
/// exactly those events to the handler, in order, within that one poll; the
/// hook keeps its stream unless it ended.
pub proof fn lemma_drain_completeness(h: HookView, events: Seq<TerminalEvent>, last: NextEvent)
    requires
        h.stage == Stage::Attached,
        !(last is Ready),
    ensures
        is_tick(ready_all(events).push(last)),
        after_tick(h, ready_all(events).push(last)).delivered == h.delivered + events,
        after_tick(h, ready_all(events).push(last)).stage == if last is Exhausted {
            Stage::Exhausted
        } else {
            Stage::Attached
        },
{
    let outs = ready_all(events).push(last);
    assert(outs.drop_last() =~= ready_all(events));
    lemma_ready_events_delivered(h, events);
    assert forall|k: int| 0 <= k < outs.len() - 1 implies #[trigger] outs[k] is Ready by {
        assert(outs[k] == ready_all(events)[k]);
    }
}

/// Before a component instance asks for a stream, emitted events are queued
/// for it nowhere, so a stream granted later starts empty.
pub proof fn lemma_silence_before_acquisition(
    v: BroadcastView,
    w: BroadcastView,
    target: Option<u64>,
    event: TerminalEvent,
    instance: u64,
)
    requires
        v.wf(),
        !v.acquired.contains(instance),
        emitted(v, w, target, event),
    ensures
        !w.acquired.contains(instance),
        !w.subscribers.contains(instance),
        !w.sent.dom().contains(instance),
        acquire_granted(w, instance) ==> after_acquire(w, instance).sent[instance] == Seq::<
            TerminalEvent,
        >::empty(),
{
    if w.subscribers.contains(instance) {
        assert(v.subscribers.contains(instance));
    }
}

/// A hook without a live stream, one not yet granted or one that ended, hands
/// nothing to its handler on any poll; once ended it never asks for a stream
/// again.
pub proof fn lemma_silence_without_stream(
    h: HookView,
    outs: Seq<NextEvent>,
    v: BroadcastView,
    instance: u64,
)
    requires
        h.stage != Stage::Attached,
    ensures
        after_tick(h, outs) == h,
        h.stage == Stage::Exhausted ==> after_update_hook(h, v, instance) == h
            && after_update_broadcast(h, v, instance) == v,
{
}

} // verus!
