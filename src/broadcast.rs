use crate::channel::{send_event, unbounded_channel};
use crate::event::TerminalEvent;
use futures::channel::mpsc::{UnboundedReceiver, UnboundedSender};
use vstd::prelude::*;

verus! {

/// The abstract state of a broadcast: whether terminal events are supported at
/// all, which component instances have asked for a stream, the live
/// subscriptions in the order they were made, and every event queued so far
/// into each instance's stream.
pub struct BroadcastView {
    pub enabled: bool,
    pub acquired: Set<u64>,
    pub subscribers: Seq<u64>,
    pub sent: Map<u64, Seq<TerminalEvent>>,
}

/// Whether asking for a stream for `instance` yields one: only when events are
/// supported and the instance has never asked before.
pub open spec fn acquire_granted(v: BroadcastView, instance: u64) -> bool {
    v.enabled && !v.acquired.contains(instance)
}

/// The state after `instance` asks for a stream.
pub open spec fn after_acquire(v: BroadcastView, instance: u64) -> BroadcastView {
    if acquire_granted(v, instance) {
        BroadcastView {
            enabled: v.enabled,
            acquired: v.acquired.insert(instance),
            subscribers: v.subscribers.push(instance),
            sent: v.sent.insert(instance, Seq::empty()),
        }
    } else {
        BroadcastView { acquired: v.acquired.insert(instance), ..v }
    }
}

/// The state after the instances in `requests` ask for a stream, in order.
pub open spec fn after_acquisitions(v: BroadcastView, requests: Seq<u64>) -> BroadcastView
    decreases requests.len(),
{
    if requests.len() == 0 {
        v
    } else {
        after_acquisitions(after_acquire(v, requests[0]), requests.drop_first())
    }
}

/// Whether an emission aimed at `target` (every subscriber when `None`) is
/// meant for `instance`.
pub open spec fn targets(target: Option<u64>, instance: u64) -> bool {
    target is None || target == Some(instance)
}

/// What an emission aimed at `target` does, whatever each send gave: support and
/// acquisitions stay; a subscription not aimed at keeps its place and its
/// queue; one aimed at either got the event queued and stays, or found its
/// receiver gone, got nothing and is dropped; no subscription is added.
pub open spec fn emitted(
    old: BroadcastView,
    new: BroadcastView,
    target: Option<u64>,
    event: TerminalEvent,
) -> bool {
    &&& new.enabled == old.enabled
    &&& new.acquired == old.acquired
    &&& new.sent.dom() == old.sent.dom()
    &&& forall|x: u64| #[trigger]
        new.subscribers.contains(x) ==> old.subscribers.contains(x)
    &&& forall|x: u64|
        old.subscribers.contains(x) && !targets(target, x) ==> #[trigger]
        new.subscribers.contains(x)
    &&& forall|x: u64|
        #![trigger new.sent[x]]
        old.sent.dom().contains(x) && !(old.subscribers.contains(x) && targets(target, x))
            ==> new.sent[x] == old.sent[x]
    &&& forall|x: u64|
        #![trigger new.sent[x]]
        old.subscribers.contains(x) && targets(target, x) ==> {
            ||| new.sent[x] == old.sent[x].push(event) && new.subscribers.contains(x)
            ||| new.sent[x] == old.sent[x] && !new.subscribers.contains(x)
        }
}

struct Subscription {
    instance: u64,
    sender: UnboundedSender<TerminalEvent>,
}

/// The runtime's fan-out of terminal events to component instances. Each
/// instance may obtain one stream, once; an event reaches the streams that
/// are subscribed when it is emitted.
pub struct TerminalEventBroadcast {
    enabled: bool,
    acquired: Vec<u64>,
    subscribers: Vec<Subscription>,
    sent: Ghost<Map<u64, Seq<TerminalEvent>>>,
}

spec fn subscription_instances(subs: Seq<Subscription>) -> Seq<u64> {
    subs.map_values(|s: Subscription| s.instance)
}

impl View for TerminalEventBroadcast {
    type V = BroadcastView;

    closed spec fn view(&self) -> BroadcastView {
        BroadcastView {
            enabled: self.enabled,
            acquired: self.acquired@.to_set(),
            subscribers: subscription_instances(self.subscribers@),
            sent: self.sent@,
        }
    }
}

impl BroadcastView {
    /// Each subscription appears once, belongs to an instance that asked for a
    /// stream, and has a queue.
    pub open spec fn wf(self) -> bool {
        &&& self.subscribers.no_duplicates()
        &&& forall|x: u64| #[trigger]
            self.subscribers.contains(x) ==> self.sent.dom().contains(x)
        &&& forall|x: u64| #[trigger] self.sent.dom().contains(x) ==> self.acquired.contains(x)
    }
}

fn contains_instance(v: &Vec<u64>, x: u64) -> (r: bool)
    ensures
        r == v@.contains(x),
{
    let mut i: usize = 0;
    while i < v.len()
        invariant
            0 <= i <= v.len(),
            forall|k: int| 0 <= k < i ==> v@[k] != x,
        decreases v.len() - i,
    {
        if v[i] == x {
            return true;
        }
        i = i + 1;
    }
    false
}

impl TerminalEventBroadcast {
    pub open spec fn wf(&self) -> bool {
        self@.wf()
    }

    /// A broadcast with no subscription; `enabled` says whether the runtime
    /// supports terminal events at all.
    pub fn new(enabled: bool) -> (r: TerminalEventBroadcast)
        ensures
            r.wf(),
            r@.enabled == enabled,
            r@.acquired == Set::<u64>::empty(),
            r@.subscribers == Seq::<u64>::empty(),
            r@.sent == Map::<u64, Seq<TerminalEvent>>::empty(),
    {
        let r = TerminalEventBroadcast {
            enabled,
            acquired: Vec::new(),
            subscribers: Vec::new(),
            sent: Ghost(Map::empty()),
        };
        assert(r@.acquired =~= Set::<u64>::empty());
        assert(r@.subscribers =~= Seq::<u64>::empty());
        r
    }

    /// The stream of terminal events for `instance`: on its first request, and
    /// only where events are supported; `None` on every other request. A granted
    /// stream receives the events emitted from then on.
    pub fn terminal_events(&mut self, instance: u64) -> (r: Option<UnboundedReceiver<TerminalEvent>>)
        requires
            old(self).wf(),
        ensures
            final(self).wf(),
            r is Some <==> acquire_granted(old(self)@, instance),
            final(self)@ == after_acquire(old(self)@, instance),
    {
        let seen = contains_instance(&self.acquired, instance);
        proof {
            broadcast use vstd::seq_lib::group_seq_properties;
        }
        if seen {
            assert(self@.acquired.insert(instance) =~= self@.acquired);
            return None;
        }
        self.acquired.push(instance);
        if !self.enabled {
            assert(self@.acquired =~= old(self)@.acquired.insert(instance));
            assert forall|x: u64| #[trigger] self@.sent.dom().contains(x) implies self@.acquired.contains(x) by {
                assert(old(self)@.sent.dom().contains(x));
            }
            return None;
        }
        let (sender, receiver) = unbounded_channel();
        let ghost subs = self.subscribers@;
        self.subscribers.push(Subscription { instance, sender });
        self.sent = Ghost(self.sent@.insert(instance, Seq::empty()));
        assert(subscription_instances(self.subscribers@) =~= subscription_instances(subs).push(
            instance,
        ));
        assert(self@.acquired =~= old(self)@.acquired.insert(instance));
        proof {
            let s = subscription_instances(subs);
            assert(!s.contains(instance)) by {
                if s.contains(instance) {
                    assert(old(self)@.sent.dom().contains(instance));
                }
            }
            assert(self@.subscribers.no_duplicates()) by {
                assert forall|a: int, b: int|
                    0 <= a < b < self@.subscribers.len() implies self@.subscribers[a]
                    != self@.subscribers[b] by {
                    if b == s.len() {
                        assert(s.contains(s[a]));
                    }
                }
            }
        }
        assert forall|x: u64| #[trigger] self@.sent.dom().contains(x) implies self@.acquired.contains(x) by {
            if x != instance {
                assert(old(self)@.sent.dom().contains(x));
            }
        }
        assert forall|x: u64| #[trigger] self@.subscribers.contains(x) implies self@.sent.dom().contains(x) by {
            if x != instance {
                assert(old(self)@.subscribers.contains(x));
            }
        }
        Some(receiver)
    }

    /// Queues `event` into every subscription that `target` aims at (all of
    /// them when `None`), dropping each whose receiver is gone.
    fn emit_targeted(&mut self, target: Option<u64>, event: TerminalEvent)
        requires
            old(self).wf(),
        ensures
            final(self).wf(),
            emitted(old(self)@, final(self)@, target, event),
    {
        let ghost old_subs = subscription_instances(self.subscribers@);
        let ghost old_sent = self.sent@;
        let mut rest: Vec<Subscription> = Vec::new();
        core::mem::swap(&mut rest, &mut self.subscribers);
        let ghost all = rest@;
        let ghost mut j: int = 0;
        while rest.len() > 0
            invariant
                old(self)@.wf(),
                old_subs == old(self)@.subscribers,
                old_sent == old(self)@.sent,
                old_subs == subscription_instances(all),
                old_subs.no_duplicates(),
                0 <= j <= all.len(),
                rest@ == all.subrange(j, all.len() as int),
                self.enabled == old(self).enabled,
                self.acquired == old(self).acquired,
                self.sent@.dom() == old_sent.dom(),
                subscription_instances(self.subscribers@).no_duplicates(),
                forall|x: u64| #[trigger] subscription_instances(self.subscribers@).contains(x)
                    ==> old_subs.subrange(0, j).contains(x),
                forall|k: int| 0 <= k < j && !targets(target, old_subs[k])
                    ==> subscription_instances(self.subscribers@).contains(#[trigger] old_subs[k]),
                forall|x: u64| #![trigger self.sent@[x]]
                    old_sent.dom().contains(x) && !(old_subs.subrange(0, j).contains(x) && targets(target, x))
                    ==> self.sent@[x] == old_sent[x],
                forall|k: int| #![trigger old_subs[k]]
                    0 <= k < j && targets(target, old_subs[k]) ==> {
                        ||| self.sent@[old_subs[k]] == old_sent[old_subs[k]].push(event)
                            && subscription_instances(self.subscribers@).contains(old_subs[k])
                        ||| self.sent@[old_subs[k]] == old_sent[old_subs[k]]
                            && !subscription_instances(self.subscribers@).contains(old_subs[k])
                    },
            decreases rest.len(),
        {
            let sub = rest.remove(0);
            let ghost kept = subscription_instances(self.subscribers@);
            let aimed = match target {
                Some(t) => t == sub.instance,
                None => true,
            };
            proof {
                assert(old_subs[j] == sub.instance);
                assert(!old_subs.subrange(0, j).contains(sub.instance)) by {
                    if old_subs.subrange(0, j).contains(sub.instance) {
                        let k = choose|k: int| 0 <= k < j && old_subs.subrange(0, j)[k] == sub.instance;
                        assert(old_subs[k] == old_subs[j]);
                    }
                }
                assert(!kept.contains(sub.instance));
                assert(old_subs.contains(sub.instance));
            }
            let keep = if aimed {
                let delivered = send_event(&sub.sender, event);
                if delivered {
                    proof {
                        assert(old_sent.dom().contains(sub.instance));
                        assert(self.sent@[sub.instance] == old_sent[sub.instance]);
                    }
                    self.sent = Ghost(self.sent@.insert(sub.instance, self.sent@[sub.instance].push(event)));
                }
                delivered
            } else {
                true
            };
            if keep {
                self.subscribers.push(sub);
                proof {
                    assert(subscription_instances(self.subscribers@) =~= kept.push(old_subs[j]));
                }
            }
            proof {
                let now = subscription_instances(self.subscribers@);
                assert(old_subs.subrange(0, j + 1) =~= old_subs.subrange(0, j).push(old_subs[j]));
                assert(rest@ =~= all.subrange(j + 1, all.len() as int));
                assert(now.no_duplicates()) by {
                    if keep {
                        assert forall|a: int, b: int| 0 <= a < b < now.len() implies now[a] != now[b] by {
                            if b == kept.len() {
                                assert(kept.contains(kept[a]));
                            }
                        }
                    }
                }
                assert forall|k: int| 0 <= k < j + 1 && !targets(target, old_subs[k])
                    implies now.contains(#[trigger] old_subs[k]) by {
                    if k < j {
                        assert(kept.contains(old_subs[k]));
                        let m = choose|m: int| 0 <= m < kept.len() && kept[m] == old_subs[k];
                        assert(now[m] == old_subs[k]);
                    } else {
                        assert(now[now.len() - 1] == old_subs[k]);
                    }
                }
                assert forall|k: int| #![trigger old_subs[k]]
                    0 <= k < j + 1 && targets(target, old_subs[k]) implies {
                        ||| self.sent@[old_subs[k]] == old_sent[old_subs[k]].push(event)
                            && now.contains(old_subs[k])
                        ||| self.sent@[old_subs[k]] == old_sent[old_subs[k]]
                            && !now.contains(old_subs[k])
                    } by {
                    if k < j {
                        assert(old_subs[k] != old_subs[j]);
                        if kept.contains(old_subs[k]) {
                            let m = choose|m: int| 0 <= m < kept.len() && kept[m] == old_subs[k];
                            assert(now[m] == old_subs[k]);
                        }
                        if now.contains(old_subs[k]) {
                            let m = choose|m: int| 0 <= m < now.len() && now[m] == old_subs[k];
                            if m < kept.len() {
                                assert(kept[m] == old_subs[k]);
                            }
                        }
                    } else {
                        if keep {
                            assert(now[now.len() - 1] == old_subs[k]);
                        }
                    }
                }
                assert forall|x: u64| #[trigger] now.contains(x) implies old_subs.subrange(0, j + 1).contains(x) by {
                    let m = choose|m: int| 0 <= m < now.len() && now[m] == x;
                    if m < kept.len() {
                        assert(kept.contains(x));
                        let q = choose|q: int| 0 <= q < j && old_subs.subrange(0, j)[q] == x;
                        assert(old_subs.subrange(0, j + 1)[q] == x);
                    } else {
                        assert(old_subs.subrange(0, j + 1)[j] == x);
                    }
                }
                j = j + 1;
            }
        }
        proof {
            let now = subscription_instances(self.subscribers@);
            assert(old_subs.subrange(0, j) =~= old_subs);
            assert forall|x: u64| old_subs.contains(x) && !targets(target, x) implies #[trigger] now.contains(x) by {
                let k = choose|k: int| 0 <= k < old_subs.len() && old_subs[k] == x;
            }
            assert forall|x: u64| #![trigger self.sent@[x]]
                old_subs.contains(x) && targets(target, x) implies {
                    ||| self.sent@[x] == old_sent[x].push(event) && now.contains(x)
                    ||| self.sent@[x] == old_sent[x] && !now.contains(x)
                } by {
                let k = choose|k: int| 0 <= k < old_subs.len() && old_subs[k] == x;
            }
            assert forall|x: u64| #[trigger] now.contains(x) implies self@.sent.dom().contains(x) by {
                assert(old(self)@.subscribers.contains(x));
            }
            assert forall|x: u64| #[trigger] self@.sent.dom().contains(x) implies self@.acquired.contains(x) by {
                assert(old(self)@.sent.dom().contains(x));
            }
        }
    }

    /// Emits `event` to every live subscription.
    pub fn emit(&mut self, event: TerminalEvent)
        requires
            old(self).wf(),
        ensures
            final(self).wf(),
            emitted(old(self)@, final(self)@, None, event),
    {
        self.emit_targeted(None, event)
    }

    /// Emits `event` to the subscription of `instance` alone, if it has one.
    pub fn emit_to(&mut self, instance: u64, event: TerminalEvent)
        requires
            old(self).wf(),
        ensures
            final(self).wf(),
            emitted(old(self)@, final(self)@, Some(instance), event),
    {
        self.emit_targeted(Some(instance), event)
    }
}


} // verus!
