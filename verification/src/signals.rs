//! The fan-out of engine events to subscribers.
//!
//! The engine fires its events on the executor thread. For each event key
//! the dispatcher hooks into the engine once, keeps the subscriptions in the
//! order in which they were made, and says for every event which of them are
//! to be called, and in which order. The callbacks themselves stay with the
//! caller, who finds them by the subscription's number, calls them on the
//! executor thread, and keeps a failing callback from disturbing the rest.

use crate::error::ObsError;
use vstd::prelude::*;
use vstd::string::*;

verus! {

/// The caller's end of a subscription: it names the subscription when it is
/// cancelled, from whatever thread.
#[derive(Clone, Copy, Debug, PartialEq, Eq, Structural)]
pub struct SubscriptionHandle {
    /// The number of the subscription. Numbers are handed out in the order
    /// in which subscriptions are made.
    pub id: u64,
}

/// One subscription as the contracts see it.
pub struct SubscriptionView {
    /// The number of the subscription.
    pub id: u64,
    /// The event that it listens for.
    pub key: Seq<char>,
    /// Whether it still is to be called.
    pub live: bool,
}

/// The dispatcher as the contracts see it.
pub struct DispatcherView {
    /// The subscriptions, in the order in which they were made.
    pub subscriptions: Seq<SubscriptionView>,
    /// The event keys for which the dispatcher is hooked into the engine.
    pub hooked: Seq<Seq<char>>,
    /// The number that the next subscription gets.
    pub next_id: nat,
}

/// The numbers of the live subscriptions to `key` among `subscriptions`, in
/// their order: the callbacks to call when the event fires.
pub open spec fn deliveries(subscriptions: Seq<SubscriptionView>, key: Seq<char>) -> Seq<u64>
    decreases subscriptions.len(),
{
    if subscriptions.len() == 0 {
        Seq::empty()
    } else {
        let earlier = deliveries(subscriptions.drop_last(), key);
        let last = subscriptions.last();
        if last.live && last.key == key {
            earlier.push(last.id)
        } else {
            earlier
        }
    }
}

/// `subscriptions` with the subscription numbered `id` no longer live.
pub open spec fn with_cancelled(subscriptions: Seq<SubscriptionView>, id: u64) -> Seq<
    SubscriptionView,
> {
    Seq::new(
        subscriptions.len(),
        |i: int|
            if subscriptions[i].id == id {
                SubscriptionView { live: false, ..subscriptions[i] }
            } else {
                subscriptions[i]
            },
    )
}

/// Whether the subscription numbered `id` is among `subscriptions` and live.
pub open spec fn is_live_in(subscriptions: Seq<SubscriptionView>, id: u64) -> bool {
    exists|i: int|
        0 <= i < subscriptions.len() && (#[trigger] subscriptions[i]).id == id
            && subscriptions[i].live
}

/// The live subscriptions among `subscriptions`, in their order.
pub open spec fn live_only(subscriptions: Seq<SubscriptionView>) -> Seq<SubscriptionView>
    decreases subscriptions.len(),
{
    if subscriptions.len() == 0 {
        Seq::empty()
    } else if subscriptions.last().live {
        live_only(subscriptions.drop_last()).push(subscriptions.last())
    } else {
        live_only(subscriptions.drop_last())
    }
}

impl DispatcherView {
    /// What holds of every dispatcher: subscriptions stand in the order of
    /// their numbers, every number is below the next one to hand out, and no
    /// event key is hooked twice.
    pub open spec fn wf(self) -> bool {
        &&& self.next_id <= u64::MAX
        &&& forall|i: int|
            0 <= i < self.subscriptions.len() ==> (#[trigger] self.subscriptions[i]).id
                < self.next_id
        &&& forall|i: int, j: int|
            0 <= i < j < self.subscriptions.len() ==> (#[trigger] self.subscriptions[i]).id < (
            #[trigger] self.subscriptions[j]).id
        &&& forall|i: int, j: int|
            0 <= i < j < self.hooked.len() ==> #[trigger] self.hooked[i] != #[trigger] self.hooked[j]
    }
}

struct Subscription {
    id: u64,
    key: String,
    live: bool,
}

impl View for Subscription {
    type V = SubscriptionView;

    closed spec fn view(&self) -> SubscriptionView {
        SubscriptionView { id: self.id, key: self.key@, live: self.live }
    }
}

/// What a new subscription gave.
#[derive(Clone, Copy, Debug, PartialEq, Eq, Structural)]
pub struct Subscribed {
    /// The caller's end of the subscription.
    pub handle: SubscriptionHandle,
    /// Whether this is the first subscription to its event key: the caller
    /// then hooks the dispatcher into the engine for that key, by a command
    /// of its own.
    pub hook_needed: bool,
}

/// The subscriptions to the engine's events.
pub struct SignalDispatcher {
    subscriptions: Vec<Subscription>,
    hooked: Vec<String>,
    next_id: u64,
}

impl View for SignalDispatcher {
    type V = DispatcherView;

    closed spec fn view(&self) -> DispatcherView {
        DispatcherView {
            subscriptions: Seq::new(self.subscriptions@.len(), |i: int| self.subscriptions@[i]@),
            hooked: Seq::new(self.hooked@.len(), |i: int| self.hooked@[i]@),
            next_id: self.next_id as nat,
        }
    }
}

impl SignalDispatcher {
    /// What holds of every dispatcher (see [`DispatcherView::wf`]).
    pub open spec fn wf(&self) -> bool {
        self@.wf()
    }

    /// A dispatcher without subscriptions.
    pub fn new() -> (d: SignalDispatcher)
        ensures
            d.wf(),
            d@.subscriptions.len() == 0,
            d@.hooked.len() == 0,
            d@.next_id == 0,
    {
        SignalDispatcher { subscriptions: Vec::new(), hooked: Vec::new(), next_id: 0 }
    }

    /// How many subscriptions the dispatcher holds, cancelled ones included.
    pub fn len(&self) -> (n: usize)
        ensures
            n == self@.subscriptions.len(),
    {
        self.subscriptions.len()
    }

    fn is_hooked(&self, key: &String) -> (r: bool)
        ensures
            r == self@.hooked.contains(key@),
    {
        let mut i: usize = 0;
        while i < self.hooked.len()
            invariant
                i <= self.hooked.len(),
                forall|k: int| 0 <= k < i ==> self@.hooked[k] != key@,
            decreases self.hooked.len() - i,
        {
            if self.hooked[i] == *key {
                assert(self@.hooked[i as int] == key@);
                return true;
            }
            i += 1;
        }
        false
    }

    /// Subscribes to the event `key`. The subscription goes behind all
    /// earlier ones and is live. The first subscription to a key asks for the
    /// hook into the engine; no later one does. Only a dispatcher that has
    /// run out of numbers refuses.
    pub fn subscribe(&mut self, key: &str) -> (r: Result<Subscribed, ObsError>)
        requires
            old(self).wf(),
        ensures
            final(self).wf(),
            match r {
                Ok(s) => {
                    &&& old(self)@.next_id < u64::MAX
                    &&& s.handle.id == old(self)@.next_id
                    &&& s.hook_needed == !old(self)@.hooked.contains(key@)
                    &&& final(self)@.next_id == old(self)@.next_id + 1
                    &&& final(self)@.subscriptions == old(self)@.subscriptions.push(
                        SubscriptionView { id: s.handle.id, key: key@, live: true },
                    )
                    &&& final(self)@.hooked == if s.hook_needed {
                        old(self)@.hooked.push(key@)
                    } else {
                        old(self)@.hooked
                    }
                },
                Err(e) => {
                    &&& e == ObsError::InvalidOperation
                    &&& old(self)@.next_id == u64::MAX
                    &&& final(self)@ == old(self)@
                },
            },
    {
        if self.next_id == u64::MAX {
            return Err(ObsError::InvalidOperation);
        }
        let ghost before = self@;
        let id = self.next_id;
        let owned = key.to_string();
        let hook_needed = !self.is_hooked(&owned);
        if hook_needed {
            self.hooked.push(key.to_string());
        }
        self.subscriptions.push(Subscription { id, key: owned, live: true });
        self.next_id = id + 1;
        proof {
            let after = self@;
            assert(after.subscriptions =~= before.subscriptions.push(
                SubscriptionView { id, key: key@, live: true },
            ));
            if hook_needed {
                assert(after.hooked =~= before.hooked.push(key@));
            } else {
                assert(after.hooked =~= before.hooked);
            }
        }
        Ok(Subscribed { handle: SubscriptionHandle { id }, hook_needed })
    }

    /// Cancels a subscription: from now on it is not called. Says whether the
    /// subscription was live until now.
    pub fn cancel(&mut self, handle: SubscriptionHandle) -> (was_live: bool)
        requires
            old(self).wf(),
        ensures
            final(self).wf(),
            was_live == is_live_in(old(self)@.subscriptions, handle.id),
            final(self)@.subscriptions == with_cancelled(old(self)@.subscriptions, handle.id),
            final(self)@.hooked == old(self)@.hooked,
            final(self)@.next_id == old(self)@.next_id,
    {
        let ghost before = self@;
        let mut i: usize = 0;
        while i < self.subscriptions.len()
            invariant
                i <= self.subscriptions.len(),
                self@ == before,
                before == old(self)@,
                before.wf(),
                forall|k: int| 0 <= k < i ==> (#[trigger] before.subscriptions[k]).id != handle.id,
            decreases self.subscriptions.len() - i,
        {
            if self.subscriptions[i].id == handle.id {
                let was_live = self.subscriptions[i].live;
                let entry = self.subscriptions.remove(i);
                self.subscriptions.insert(i, Subscription { id: entry.id, key: entry.key, live: false });
                proof {
                    let after = self@;
                    assert(before.subscriptions[i as int].id == handle.id);
                    assert forall|k: int| 0 <= k < before.subscriptions.len() && k != i implies (
                    #[trigger] before.subscriptions[k]).id != handle.id by {
                        if k < i {
                        } else {
                            assert(before.subscriptions[i as int].id < before.subscriptions[k].id);
                        }
                    }
                    assert(after.subscriptions =~= with_cancelled(before.subscriptions, handle.id));
                    assert(after.hooked =~= before.hooked);
                    if was_live {
                        assert(is_live_in(before.subscriptions, handle.id));
                    }
                }
                return was_live;
            }
            i += 1;
        }
        proof {
            assert(self@.subscriptions =~= with_cancelled(before.subscriptions, handle.id));
        }
        false
    }

    /// Whether the subscription is still to be called.
    pub fn is_live(&self, handle: SubscriptionHandle) -> (live: bool)
        requires
            self.wf(),
        ensures
            live == is_live_in(self@.subscriptions, handle.id),
    {
        let mut i: usize = 0;
        while i < self.subscriptions.len()
            invariant
                i <= self.subscriptions.len(),
                forall|k: int|
                    0 <= k < i ==> !((#[trigger] self@.subscriptions[k]).id == handle.id
                        && self@.subscriptions[k].live),
            decreases self.subscriptions.len() - i,
        {
            if self.subscriptions[i].id == handle.id && self.subscriptions[i].live {
                assert(self@.subscriptions[i as int].id == handle.id);
                return true;
            }
            i += 1;
        }
        false
    }

    /// The subscriptions to call now that the event `key` fired: the live
    /// subscriptions to that key, in the order in which they were made.
    pub fn dispatch(&self, key: &str) -> (calls: Vec<SubscriptionHandle>)
        ensures
            calls@.len() == deliveries(self@.subscriptions, key@).len(),
            forall|i: int|
                0 <= i < calls@.len() ==> (#[trigger] calls@[i]).id == deliveries(
                    self@.subscriptions,
                    key@,
                )[i],
    {
        let wanted = key.to_string();
        let mut calls: Vec<SubscriptionHandle> = Vec::new();
        let mut i: usize = 0;
        while i < self.subscriptions.len()
            invariant
                i <= self.subscriptions.len(),
                wanted@ == key@,
                calls@.len() == deliveries(self@.subscriptions.subrange(0, i as int), key@).len(),
                forall|k: int|
                    0 <= k < calls@.len() ==> (#[trigger] calls@[k]).id == deliveries(
                        self@.subscriptions.subrange(0, i as int),
                        key@,
                    )[k],
            decreases self.subscriptions.len() - i,
        {
            proof {
                let upto = self@.subscriptions.subrange(0, i + 1);
                assert(upto.drop_last() =~= self@.subscriptions.subrange(0, i as int));
                assert(upto.last() == self@.subscriptions[i as int]);
            }
            if self.subscriptions[i].live && self.subscriptions[i].key == wanted {
                calls.push(SubscriptionHandle { id: self.subscriptions[i].id });
            }
            i += 1;
        }
        proof {
            assert(self@.subscriptions.subrange(0, i as int) =~= self@.subscriptions);
        }
        calls
    }

    /// Forgets the cancelled subscriptions. The hooks into the engine stay.
    pub fn prune(&mut self)
        requires
            old(self).wf(),
        ensures
            final(self).wf(),
            final(self)@.subscriptions == live_only(old(self)@.subscriptions),
            final(self)@.hooked == old(self)@.hooked,
            final(self)@.next_id == old(self)@.next_id,
    {
        let ghost before = self@;
        let mut kept: Vec<Subscription> = Vec::new();
        let ghost mut kept_view: Seq<SubscriptionView> = Seq::empty();
        let ghost mut taken: int = 0;
        proof {
            assert(before.subscriptions.subrange(0, 0) =~= Seq::empty());
        }
        while self.subscriptions.len() > 0
            invariant
                before.wf(),
                0 <= taken <= before.subscriptions.len(),
                self.subscriptions@.len() == before.subscriptions.len() - taken,
                forall|k: int|
                    0 <= k < self.subscriptions@.len() ==> (#[trigger] self.subscriptions@[k])@
                        == before.subscriptions[taken + k],
                kept_view == live_only(before.subscriptions.subrange(0, taken)),
                kept_view.len() == kept@.len(),
                forall|k: int| 0 <= k < kept@.len() ==> (#[trigger] kept@[k])@ == kept_view[k],
                self.next_id == before.next_id,
                self@.hooked == before.hooked,
            decreases self.subscriptions.len(),
        {
            let ghost hooked = self@.hooked;
            let entry = self.subscriptions.remove(0);
            proof {
                let upto = before.subscriptions.subrange(0, taken + 1);
                assert(upto.drop_last() =~= before.subscriptions.subrange(0, taken));
                assert(upto.last() == before.subscriptions[taken]);
                assert(entry@ == before.subscriptions[taken]);
                assert(self@.hooked =~= hooked);
            }
            if entry.live {
                proof {
                    kept_view = kept_view.push(entry@);
                }
                kept.push(entry);
            }
            proof {
                taken = taken + 1;
            }
        }
        proof {
            assert(before.subscriptions.subrange(0, taken) =~= before.subscriptions);
        }
        let ghost hooked = self@.hooked;
        self.subscriptions = kept;
        proof {
            assert(self@.subscriptions =~= live_only(before.subscriptions));
            assert(self@.hooked =~= hooked);
            lemma_live_only_is_a_selection(before.subscriptions);
            let after = self@.subscriptions;
            assert forall|i: int| 0 <= i < after.len() implies (#[trigger] after[i]).id
                < before.next_id by {
                let k = choose|k: int| 0 <= k < before.subscriptions.len() && after[i]
                    == before.subscriptions[k];
                assert(before.subscriptions[k].id < before.next_id);
            }
        }
    }
}

/// The live subscriptions are some of the subscriptions, in their order:
/// each stands among them, and their numbers still go up.
pub proof fn lemma_live_only_is_a_selection(subscriptions: Seq<SubscriptionView>)
    requires
        forall|i: int, j: int|
            0 <= i < j < subscriptions.len() ==> (#[trigger] subscriptions[i]).id < (
            #[trigger] subscriptions[j]).id,
    ensures
        live_only(subscriptions).len() <= subscriptions.len(),
        forall|i: int|
            0 <= i < live_only(subscriptions).len() ==> (#[trigger] live_only(subscriptions)[i]).live
                && exists|k: int|
                0 <= k < subscriptions.len() && live_only(subscriptions)[i] == subscriptions[k],
        forall|i: int, j: int|
            0 <= i < j < live_only(subscriptions).len() ==> (#[trigger] live_only(
                subscriptions,
            )[i]).id < (#[trigger] live_only(subscriptions)[j]).id,
    decreases subscriptions.len(),
{
    if subscriptions.len() > 0 {
        let earlier = subscriptions.drop_last();
        lemma_live_only_is_a_selection(earlier);
        let kept = live_only(subscriptions);
        let kept_earlier = live_only(earlier);
        assert forall|i: int| 0 <= i < kept.len() implies (#[trigger] kept[i]).live && exists|k: int|
            0 <= k < subscriptions.len() && kept[i] == subscriptions[k] by {
            if i < kept_earlier.len() {
                assert(kept[i] == kept_earlier[i]);
                let k = choose|k: int| 0 <= k < earlier.len() && kept_earlier[i] == earlier[k];
                assert(kept[i] == subscriptions[k]);
            } else {
                assert(kept[i] == subscriptions[subscriptions.len() - 1]);
            }
        }
        assert forall|i: int, j: int| 0 <= i < j < kept.len() implies (#[trigger] kept[i]).id < (
        #[trigger] kept[j]).id by {
            if j < kept_earlier.len() {
                assert(kept[i] == kept_earlier[i]);
                assert(kept[j] == kept_earlier[j]);
            } else {
                assert(kept[i] == kept_earlier[i]);
                let k = choose|k: int| 0 <= k < earlier.len() && kept_earlier[i] == earlier[k];
                assert(subscriptions[k].id < subscriptions[subscriptions.len() - 1].id);
            }
        }
    }
}

/// A new subscription is called last: subscribing to `key` puts the new
/// subscription behind those that are already called for `key`, and changes
/// nothing for any other key.
pub proof fn lemma_subscribing_delivers_last(
    subscriptions: Seq<SubscriptionView>,
    id: u64,
    key: Seq<char>,
    other: Seq<char>,
)
    requires
        other != key,
    ensures
        deliveries(subscriptions.push(SubscriptionView { id, key, live: true }), key)
            == deliveries(subscriptions, key).push(id),
        deliveries(subscriptions.push(SubscriptionView { id, key, live: true }), other)
            == deliveries(subscriptions, other),
{
    let longer = subscriptions.push(SubscriptionView { id, key, live: true });
    assert(longer.drop_last() =~= subscriptions);
}

/// The subscription at place `k` of `subscriptions` is a live subscription
/// to `key` with the number `id`.
pub open spec fn is_live_subscription_at(
    subscriptions: Seq<SubscriptionView>,
    key: Seq<char>,
    id: u64,
    k: int,
) -> bool {
    &&& 0 <= k < subscriptions.len()
    &&& subscriptions[k].id == id
    &&& subscriptions[k].live
    &&& subscriptions[k].key == key
}

/// Every subscription that is called for `key` is a live subscription to
/// `key`, and the calls go in the order in which the subscriptions were made.
pub proof fn lemma_deliveries_in_subscription_order(
    subscriptions: Seq<SubscriptionView>,
    key: Seq<char>,
)
    requires
        forall|i: int, j: int|
            0 <= i < j < subscriptions.len() ==> (#[trigger] subscriptions[i]).id < (
            #[trigger] subscriptions[j]).id,
    ensures
        forall|id: u64| #[trigger]
            deliveries(subscriptions, key).contains(id) ==> exists|k: int| #[trigger]
                is_live_subscription_at(subscriptions, key, id, k),
        forall|i: int, j: int|
            #![trigger deliveries(subscriptions, key)[i], deliveries(subscriptions, key)[j]]
            0 <= i < j < deliveries(subscriptions, key).len() ==> deliveries(subscriptions, key)[i]
                < deliveries(subscriptions, key)[j],
    decreases subscriptions.len(),
{
    let calls = deliveries(subscriptions, key);
    if subscriptions.len() > 0 {
        let earlier = subscriptions.drop_last();
        let last = subscriptions.last();
        let top = subscriptions.len() - 1;
        lemma_deliveries_in_subscription_order(earlier, key);
        let calls_earlier = deliveries(earlier, key);
        assert forall|id: u64| #[trigger] calls.contains(id) implies exists|k: int| #[trigger]
            is_live_subscription_at(subscriptions, key, id, k) by {
            let i = choose|i: int| 0 <= i < calls.len() && calls[i] == id;
            if i < calls_earlier.len() {
                assert(calls[i] == calls_earlier[i]);
                assert(calls_earlier.contains(id));
                let k = choose|k: int| #[trigger] is_live_subscription_at(earlier, key, id, k);
                assert(subscriptions[k] == earlier[k]);
                assert(is_live_subscription_at(subscriptions, key, id, k));
            } else {
                assert(calls[i] == last.id);
                assert(is_live_subscription_at(subscriptions, key, id, top));
            }
        }
        assert forall|i: int, j: int|
            #![trigger calls[i], calls[j]]
            0 <= i < j < calls.len() implies calls[i] < calls[j] by {
            if j >= calls_earlier.len() {
                assert(calls[i] == calls_earlier[i]);
                assert(calls_earlier.contains(calls_earlier[i]));
                let k = choose|k: int| #[trigger]
                    is_live_subscription_at(earlier, key, calls_earlier[i], k);
                assert(subscriptions[k] == earlier[k]);
                assert(subscriptions[k].id < subscriptions[top].id);
            } else {
                assert(calls[i] == calls_earlier[i]);
                assert(calls[j] == calls_earlier[j]);
            }
        }
    } else {
        assert(calls.len() == 0);
    }
}

/// Every live subscription to `key` is called when `key` fires.
pub proof fn lemma_live_subscriptions_are_called(
    subscriptions: Seq<SubscriptionView>,
    key: Seq<char>,
    k: int,
)
    requires
        0 <= k < subscriptions.len(),
        subscriptions[k].live,
        subscriptions[k].key == key,
    ensures
        deliveries(subscriptions, key).contains(subscriptions[k].id),
    decreases subscriptions.len(),
{
    let earlier = subscriptions.drop_last();
    let calls = deliveries(subscriptions, key);
    if k == subscriptions.len() - 1 {
        assert(calls[calls.len() - 1] == subscriptions[k].id);
    } else {
        lemma_live_subscriptions_are_called(earlier, key, k);
        let at = choose|i: int|
            0 <= i < deliveries(earlier, key).len() && deliveries(earlier, key)[i] == earlier[k].id;
        assert(calls[at] == subscriptions[k].id);
    }
}

/// A cancelled subscription is not called again: once the subscription
/// numbered `id` is cancelled, no event is delivered to it.
pub proof fn lemma_cancelled_is_not_called(
    subscriptions: Seq<SubscriptionView>,
    id: u64,
    key: Seq<char>,
)
    ensures
        !deliveries(with_cancelled(subscriptions, id), key).contains(id),
    decreases subscriptions.len(),
{
    let after = with_cancelled(subscriptions, id);
    if subscriptions.len() > 0 {
        lemma_cancelled_is_not_called(subscriptions.drop_last(), id, key);
        assert(after.drop_last() =~= with_cancelled(subscriptions.drop_last(), id));
        let earlier = deliveries(after.drop_last(), key);
        let calls = deliveries(after, key);
        if calls.contains(id) {
            let at = choose|i: int| 0 <= i < calls.len() && calls[i] == id;
            if at < earlier.len() {
                assert(earlier[at] == id);
            }
        }
    }
}

/// Forgetting the cancelled subscriptions changes no delivery.
pub proof fn lemma_pruning_keeps_deliveries(subscriptions: Seq<SubscriptionView>, key: Seq<char>)
    ensures
        deliveries(live_only(subscriptions), key) == deliveries(subscriptions, key),
    decreases subscriptions.len(),
{
    if subscriptions.len() > 0 {
        lemma_pruning_keeps_deliveries(subscriptions.drop_last(), key);
        if subscriptions.last().live {
            let kept = live_only(subscriptions);
            assert(kept.drop_last() =~= live_only(subscriptions.drop_last()));
        }
    }
}

} // verus!
