//! The in-memory event bus: a registry of subscriptions keyed by event
//! discriminator, with synchronous, registration-ordered delivery.
//!
//! The registry is modeled by two sequences read through `keys()` (the
//! `(discriminator, subscription id)` pair of every entry, in registration
//! order) and `handlers()` (the handler values, in the same order), plus
//! `history()`, the sequence of every delivery the bus has made: one
//! `(discriminator, subscription id)` pair per handler invocation, in
//! invocation order.

use vstd::prelude::*;

use crate::error::CoreError;
use crate::events::Event;
use crate::events::EventHandler;
use crate::events::SubscriptionHandle;
use crate::util::spec_dec_digits;
use crate::util::u64_to_dec_string;

verus! {

/// Holds when no two subscriptions share an id.
pub open spec fn distinct_sub_ids(keys: Seq<(u64, u64)>) -> bool {
    forall|i: int, j: int| 0 <= i < j < keys.len() ==> keys[i].1 != keys[j].1
}

/// The registry entries a publish with discriminator `k` delivers to,
/// in registration order.
pub open spec fn matching_subs(keys: Seq<(u64, u64)>, k: u64) -> Seq<(u64, u64)>
    decreases keys.len(),
{
    if keys.len() == 0 {
        Seq::empty()
    } else {
        let rest = matching_subs(keys.drop_last(), k);
        if keys.last().0 == k {
            rest.push(keys.last())
        } else {
            rest
        }
    }
}

/// Appending one registry entry extends the delivery sequence of a
/// matching publish by that entry and leaves any other one unchanged.
pub proof fn lemma_matching_subs_push(keys: Seq<(u64, u64)>, k: u64, p: (u64, u64))
    ensures
        p.0 == k ==> matching_subs(keys.push(p), k) == matching_subs(keys, k).push(p),
        p.0 != k ==> matching_subs(keys.push(p), k) == matching_subs(keys, k),
{
    assert(keys.push(p).drop_last() =~= keys);
    assert(keys.push(p).last() == p);
}

/// The largest subscription id in the registry, zero when it is empty.
pub open spec fn max_sub_id(keys: Seq<(u64, u64)>) -> u64
    decreases keys.len(),
{
    if keys.len() == 0 {
        0u64
    } else {
        let m = max_sub_id(keys.drop_last());
        if keys.last().1 > m {
            keys.last().1
        } else {
            m
        }
    }
}

/// Every subscription id is bounded by the registry's maximum.
pub proof fn lemma_max_sub_id_bound(keys: Seq<(u64, u64)>)
    ensures
        forall|i: int| 0 <= i < keys.len() ==> #[trigger] keys[i].1 <= max_sub_id(keys),
    decreases keys.len(),
{
    if keys.len() > 0 {
        lemma_max_sub_id_bound(keys.drop_last());
        assert forall|i: int| 0 <= i < keys.len() implies #[trigger] keys[i].1 <= max_sub_id(
            keys,
        ) by {
            if i < keys.len() - 1 {
                assert(keys.drop_last()[i] == keys[i]);
            }
        }
    }
}

/// One registry entry: the event discriminator subscribed to, the unique
/// subscription id, and the handler itself.
struct BusEntry<H> {
    kind: u64,
    id: u64,
    handler: H,
}

/// A process-local event bus. One instance is constructed at process start
/// and handed to every component that publishes or subscribes; there is no
/// hidden global instance.
pub struct InMemoryEventBus<H> {
    entries: Vec<BusEntry<H>>,
    delivered: Ghost<Seq<(u64, u64)>>,
}

impl<H> InMemoryEventBus<H> {
    /// The `(discriminator, subscription id)` pair of every registry
    /// entry, in registration order.
    pub closed spec fn keys(&self) -> Seq<(u64, u64)> {
        self.entries@.map_values(|e: BusEntry<H>| (e.kind, e.id))
    }

    /// The registered handlers, in registration order.
    pub closed spec fn handlers(&self) -> Seq<H> {
        self.entries@.map_values(|e: BusEntry<H>| e.handler)
    }

    /// Every delivery this bus has made: one `(discriminator,
    /// subscription id)` pair per handler invocation, in invocation order.
    pub closed spec fn history(&self) -> Seq<(u64, u64)> {
        self.delivered@
    }

    /// Registry well-formedness: subscription ids are unique.
    pub open spec fn wf(&self) -> bool {
        distinct_sub_ids(self.keys())
    }

    /// Creates an empty bus.
    pub fn new() -> (r: InMemoryEventBus<H>)
        ensures
            r.keys() == Seq::<(u64, u64)>::empty(),
            r.handlers() == Seq::<H>::empty(),
            r.history() == Seq::<(u64, u64)>::empty(),
            r.wf(),
    {
        let r = InMemoryEventBus { entries: Vec::new(), delivered: Ghost(Seq::empty()) };
        proof {
            assert(r.keys() =~= Seq::<(u64, u64)>::empty());
            assert(r.handlers() =~= Seq::<H>::empty());
        }
        r
    }

    /// Registers `handler` for the event discriminator it declares,
    /// appending it after every existing subscription so that existing
    /// delivery order is preserved. Always succeeds; the returned handle
    /// carries a subscription id never used by this registry before.
    pub fn subscribe<E: Event>(&mut self, handler: H) -> (r: Result<
        SubscriptionHandle,
        CoreError,
    >) where H: EventHandler<E>
        requires
            old(self).wf(),
            max_sub_id(old(self).keys()) < u64::MAX,
        ensures
            final(self).wf(),
            r matches Ok(h) && h.event_type_id == handler.spec_event_discriminator() && h.id
                == max_sub_id(old(self).keys()) + 1 && final(self).keys() == old(self).keys().push(
                (h.event_type_id, h.id),
            ) && final(self).handlers() == old(self).handlers().push(handler) && (forall|i: int|
                0 <= i < old(self).keys().len() ==> (#[trigger] old(self).keys()[i]).1 != h.id),
            final(self).history() == old(self).history(),
    {
        let kind = handler.event_discriminator();
        let n = self.entries.len();
        let mut m: u64 = 0;
        let mut i: usize = 0;
        proof {
            assert(self.keys().take(0) =~= Seq::<(u64, u64)>::empty());
        }
        while i < n
            invariant
                i <= n,
                n == self.entries.len(),
                m == max_sub_id(self.keys().take(i as int)),
            decreases n - i,
        {
            proof {
                assert(self.keys().take(i + 1).drop_last() =~= self.keys().take(i as int));
                assert(self.keys().take(i + 1).last() == self.keys()[i as int]);
            }
            if self.entries[i].id > m {
                m = self.entries[i].id;
            }
            i = i + 1;
        }
        proof {
            assert(self.keys().take(n as int) =~= self.keys());
        }
        let id = m + 1;
        let ghost pre = *self;
        self.entries.push(BusEntry { kind, id, handler });
        proof {
            assert(self.keys() =~= pre.keys().push((kind, id)));
            assert(self.handlers() =~= pre.handlers().push(handler));
            lemma_max_sub_id_bound(pre.keys());
        }
        Ok(SubscriptionHandle::new(id, kind))
    }

    /// Publishes one event: every handler registered for the event's
    /// discriminator is invoked synchronously, in registration order, on
    /// this call. A handler's failure is contained: it neither stops later
    /// handlers nor fails the publish. Publishing with no matching
    /// subscription succeeds and delivers nothing. Handlers registered for
    /// other discriminators are untouched.
    pub fn publish<E: Event>(&mut self, event: &E) -> (r: Result<(), CoreError>) where
        H: EventHandler<E>,

        requires
            old(self).wf(),
        ensures
            final(self).wf(),
            r is Ok,
            final(self).keys() == old(self).keys(),
            final(self).handlers().len() == old(self).handlers().len(),
            forall|j: int|
                0 <= j < old(self).keys().len() && old(self).keys()[j].0
                    != event.spec_discriminator() ==> final(self).handlers()[j] == old(
                    self,
                ).handlers()[j],
            final(self).history() == old(self).history() + matching_subs(
                old(self).keys(),
                event.spec_discriminator(),
            ),
    {
        let k = event.discriminator();
        let n = self.entries.len();
        let mut i: usize = 0;
        proof {
            assert(matching_subs(old(self).keys().take(0), k) =~= Seq::<(u64, u64)>::empty());
            assert(self.delivered@ =~= old(self).delivered@ + matching_subs(
                old(self).keys().take(0),
                k,
            ));
        }
        while i < n
            invariant
                i <= n,
                n == self.entries.len(),
                self.keys() == old(self).keys(),
                k == event.spec_discriminator(),
                self.delivered@ == old(self).delivered@ + matching_subs(
                    old(self).keys().take(i as int),
                    k,
                ),
                forall|j: int| i <= j < n ==> self.entries@[j] == old(self).entries@[j],
                forall|j: int|
                    0 <= j < i && old(self).keys()[j].0 != k ==> #[trigger] self.entries@[j].handler
                        == old(self).entries@[j].handler,
            decreases n - i,
        {
            let ghost pre_keys = self.keys();
            let ghost pre_entries = self.entries@;
            proof {
                assert(old(self).keys().take(i + 1).drop_last() =~= old(self).keys().take(i as int));
                assert(old(self).keys().take(i + 1).last() == old(self).keys()[i as int]);
            }
            if self.entries[i].kind == k {
                let mut entry = self.entries.remove(i);
                let _ = entry.handler.handle(event);
                self.entries.insert(i, entry);
                proof {
                    assert(self.keys() =~= pre_keys);
                    assert forall|j: int| 0 <= j < n && j != i implies self.entries@[j]
                        == pre_entries[j] by {}
                    self.delivered@ = self.delivered@ + seq![old(self).keys()[i as int]];
                    lemma_matching_subs_push(
                        old(self).keys().take(i as int),
                        k,
                        old(self).keys()[i as int],
                    );
                    assert(old(self).keys().take(i as int).push(old(self).keys()[i as int]) =~= old(
                        self,
                    ).keys().take(i + 1));
                    assert(self.delivered@ =~= old(self).delivered@ + matching_subs(
                        old(self).keys().take(i + 1),
                        k,
                    ));
                }
            } else {
                proof {
                    lemma_matching_subs_push(
                        old(self).keys().take(i as int),
                        k,
                        old(self).keys()[i as int],
                    );
                    assert(old(self).keys().take(i as int).push(old(self).keys()[i as int]) =~= old(
                        self,
                    ).keys().take(i + 1));
                }
            }
            i = i + 1;
        }
        proof {
            assert(old(self).keys().take(n as int) =~= old(self).keys());
        }
        Ok(())
    }

    /// Removes the subscription the handle names. Fails with a not-found
    /// error — leaving the registry unchanged — when no entry carries the
    /// handle's discriminator and id: already removed, never existed, or a
    /// discriminator mismatch.
    pub fn unsubscribe(&mut self, handle: &SubscriptionHandle) -> (r: Result<(), CoreError>)
        requires
            old(self).wf(),
        ensures
            final(self).wf(),
            final(self).history() == old(self).history(),
            (r is Ok) <==> old(self).keys().contains((handle.event_type_id, handle.id)),
            r is Ok ==> exists|i: int|
                0 <= i < old(self).keys().len() && old(self).keys()[i] == (
                handle.event_type_id,
                handle.id,
            ) && final(self).keys() == old(self).keys().remove(i) && final(self).handlers() == old(
                self,
            ).handlers().remove(i),
            !(r is Ok) ==> final(self).keys() == old(self).keys() && final(self).handlers() == old(
                self,
            ).handlers(),
            !(r is Ok) ==> (r matches Err(CoreError::NotFound(m)) && m@
                == "구독 핸들을 찾을 수 없음: "@ + spec_dec_digits(handle.id as nat)),
    {
        let n = self.entries.len();
        let mut i: usize = 0;
        while i < n
            invariant
                i <= n,
                n == self.entries.len(),
                *self == *old(self),
                old(self).wf(),
                forall|j: int|
                    0 <= j < i ==> #[trigger] old(self).keys()[j] != (
                    handle.event_type_id,
                    handle.id,
                ),
            decreases n - i,
        {
            if self.entries[i].kind == handle.event_type_id && self.entries[i].id == handle.id {
                let ghost pre = *self;
                let _ = self.entries.remove(i);
                proof {
                    assert(pre.keys()[i as int] == (handle.event_type_id, handle.id));
                    assert(self.keys() =~= pre.keys().remove(i as int));
                    assert(self.handlers() =~= pre.handlers().remove(i as int));
                    assert(pre.keys().contains((handle.event_type_id, handle.id)));
                    assert(distinct_sub_ids(pre.keys()));
                    assert forall|a: int, b: int|
                        0 <= a < b < self.keys().len() implies self.keys()[a].1
                        != self.keys()[b].1 by {
                        if b < i as int {
                            assert(pre.keys()[a] == self.keys()[a]);
                            assert(pre.keys()[b] == self.keys()[b]);
                            assert(pre.keys()[a].1 != pre.keys()[b].1);
                        } else if a < i as int {
                            assert(pre.keys()[a] == self.keys()[a]);
                            assert(pre.keys()[b + 1] == self.keys()[b]);
                            assert(pre.keys()[a].1 != pre.keys()[b + 1].1);
                        } else {
                            assert(pre.keys()[a + 1] == self.keys()[a]);
                            assert(pre.keys()[b + 1] == self.keys()[b]);
                            assert(pre.keys()[a + 1].1 != pre.keys()[b + 1].1);
                        }
                    }
                }
                return Ok(());
            }
            i = i + 1;
        }
        proof {
            assert forall|j: int| 0 <= j < old(self).keys().len() implies old(self).keys()[j] != (
                handle.event_type_id,
                handle.id,
            ) by {}
            assert(!old(self).keys().contains((handle.event_type_id, handle.id)));
        }
        Err(
            CoreError::NotFound(
                "구독 핸들을 찾을 수 없음: ".to_owned().concat(
                    u64_to_dec_string(handle.id).as_str(),
                ),
            ),
        )
    }
}

impl<H> Default for InMemoryEventBus<H> {
    /// An empty bus, as `new` builds it.
    fn default() -> (r: InMemoryEventBus<H>)
        ensures
            r.keys() == Seq::<(u64, u64)>::empty(),
            r.handlers() == Seq::<H>::empty(),
            r.history() == Seq::<(u64, u64)>::empty(),
            r.wf(),
    {
        InMemoryEventBus::new()
    }
}

/// Picks the event bus implementation for this process: the in-memory
/// one.
#[derive(Debug)]
pub struct EventBusFactory;

impl EventBusFactory {
    /// Creates an empty in-memory bus.
    pub fn create<H>() -> (r: InMemoryEventBus<H>)
        ensures
            r.keys() == Seq::<(u64, u64)>::empty(),
            r.handlers() == Seq::<H>::empty(),
            r.history() == Seq::<(u64, u64)>::empty(),
            r.wf(),
    {
        InMemoryEventBus::new()
    }
}

/// Publishing a discriminator for which nothing is registered delivers to
/// no handler: the delivery sequence of that publish is empty.
pub proof fn lemma_publish_no_subscribers(keys: Seq<(u64, u64)>, k: u64)
    requires
        forall|i: int| 0 <= i < keys.len() ==> (#[trigger] keys[i]).0 != k,
    ensures
        matching_subs(keys, k) == Seq::<(u64, u64)>::empty(),
    decreases keys.len(),
{
    if keys.len() > 0 {
        assert forall|i: int| 0 <= i < keys.drop_last().len() implies (#[trigger] keys.drop_last()[i]).0
            != k by {
            assert(keys.drop_last()[i] == keys[i]);
        }
        lemma_publish_no_subscribers(keys.drop_last(), k);
        assert(keys.last() == keys[keys.len() - 1]);
    }
}

/// Delivery isolation by type: a publish with discriminator `k` delivers
/// exactly to the subscriptions registered for `k` — every delivered pair
/// carries discriminator `k` and stands in the registry, and every
/// registry entry with discriminator `k` is delivered to.
pub proof fn lemma_delivery_isolation(keys: Seq<(u64, u64)>, k: u64)
    ensures
        forall|j: int|
            0 <= j < matching_subs(keys, k).len() ==> (#[trigger] matching_subs(keys, k)[j]).0 == k
                && keys.contains(matching_subs(keys, k)[j]),
        forall|i: int|
            0 <= i < keys.len() && (#[trigger] keys[i]).0 == k ==> matching_subs(keys, k).contains(
                keys[i],
            ),
    decreases keys.len(),
{
    if keys.len() > 0 {
        let prefix = keys.drop_last();
        lemma_delivery_isolation(prefix, k);
        assert forall|j: int| 0 <= j < matching_subs(keys, k).len() implies (
        #[trigger] matching_subs(keys, k)[j]).0 == k && keys.contains(matching_subs(keys, k)[j]) by {
            if j < matching_subs(prefix, k).len() {
                let p = matching_subs(prefix, k)[j];
                assert(prefix.contains(p));
                let w = choose|w: int| 0 <= w < prefix.len() && prefix[w] == p;
                assert(keys[w] == p);
            } else {
                assert(matching_subs(keys, k)[j] == keys.last());
                assert(keys[keys.len() - 1] == keys.last());
            }
        }
        assert forall|i: int|
            0 <= i < keys.len() && (#[trigger] keys[i]).0 == k implies matching_subs(
            keys,
            k,
        ).contains(keys[i]) by {
            if i < keys.len() - 1 {
                assert(prefix[i] == keys[i]);
                assert(matching_subs(prefix, k).contains(keys[i]));
                let w = choose|w: int|
                    0 <= w < matching_subs(prefix, k).len() && matching_subs(prefix, k)[w]
                        == keys[i];
                assert(matching_subs(keys, k)[w] == keys[i]);
            } else {
                assert(keys.last() == keys[i]);
                assert(matching_subs(keys, k).last() == keys[i]);
            }
        }
    }
}

/// Multi-handler fan-out and ordering: subscribing two handlers to the
/// same discriminator, in order, makes one publish of that discriminator
/// deliver first to the earlier subscription, then to the later one,
/// after every previously registered matching subscription.
pub proof fn lemma_fanout_order(keys: Seq<(u64, u64)>, k: u64, id1: u64, id2: u64)
    ensures
        matching_subs(keys.push((k, id1)).push((k, id2)), k) == matching_subs(keys, k).push(
            (k, id1),
        ).push((k, id2)),
{
    lemma_matching_subs_push(keys, k, (k, id1));
    lemma_matching_subs_push(keys.push((k, id1)), k, (k, id2));
}

/// Unsubscribe precision: with two subscriptions for the same
/// discriminator, removing the first leaves a registry whose next publish
/// of that discriminator delivers only to the second.
pub proof fn lemma_unsubscribe_precision(keys: Seq<(u64, u64)>, k: u64, id1: u64, id2: u64)
    requires
        forall|i: int| 0 <= i < keys.len() ==> (#[trigger] keys[i]).0 != k,
    ensures
        keys.push((k, id1)).push((k, id2)).remove(keys.len() as int) == keys.push((k, id2)),
        matching_subs(keys.push((k, id2)), k) == seq![(k, id2)],
{
    assert(keys.push((k, id1)).push((k, id2)).remove(keys.len() as int) =~= keys.push((k, id2)));
    lemma_publish_no_subscribers(keys, k);
    lemma_matching_subs_push(keys, k, (k, id2));
    assert(matching_subs(keys.push((k, id2)), k) =~= seq![(k, id2)]);
}

} // verus!
