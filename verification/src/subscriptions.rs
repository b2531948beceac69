//! Which deployments watch which instruments: the in-memory subscription
//! repository and the subscription manager that decides, for each
//! deployment that subscribes or unsubscribes, which market data the
//! exchange connections must start or stop.

use vstd::prelude::*;

use crate::domain::InstrumentId;
use crate::facade::{push_start_calls, push_stop_calls, start_calls, stop_calls, FacadeCall};
use crate::id_set::IdSet;

verus! {

/// A deployment's request to watch (or stop watching) instruments.
#[derive(Debug)]
pub struct Subscription {
    pub deployment_id: u128,
    pub simulation_id: Option<u128>,
    pub instruments: Vec<InstrumentId>,
}

/// An instrument and the deployments that watch it.
#[derive(Debug)]
pub struct Subscriptions {
    pub instrument_id: InstrumentId,
    pub deployment_ids: IdSet,
}

/// The mathematical value of [`Subscriptions`].
pub struct SubscriptionsView {
    pub instrument_id: InstrumentId,
    pub deployment_ids: Set<u128>,
}

impl View for Subscriptions {
    type V = SubscriptionsView;

    open spec fn view(&self) -> SubscriptionsView {
        SubscriptionsView { instrument_id: self.instrument_id, deployment_ids: self.deployment_ids@ }
    }
}

impl Subscriptions {
    /// A copy of this entry.
    pub fn duplicate(&self) -> (copy: Subscriptions)
        ensures
            copy@ == self@,
    {
        Subscriptions { instrument_id: self.instrument_id, deployment_ids: self.deployment_ids.duplicate() }
    }
}

/// The views of a sequence of entries.
pub open spec fn entry_views(s: Seq<Subscriptions>) -> Seq<SubscriptionsView> {
    s.map_values(|e: Subscriptions| e@)
}

/// The store after saving `entry`: the deployments of `entry` join those of
/// the first stored entry, whatever its instrument; an empty store takes
/// `entry` as it is.
pub open spec fn spec_save(store: Seq<SubscriptionsView>, entry: SubscriptionsView) -> Seq<
    SubscriptionsView,
> {
    if store.len() > 0 {
        store.update(
            0,
            SubscriptionsView {
                instrument_id: store[0].instrument_id,
                deployment_ids: store[0].deployment_ids.union(entry.deployment_ids),
            },
        )
    } else {
        store.push(entry)
    }
}

/// The store after saving each of `entries` in turn.
pub open spec fn spec_save_all(store: Seq<SubscriptionsView>, entries: Seq<SubscriptionsView>) -> Seq<
    SubscriptionsView,
>
    decreases entries.len(),
{
    if entries.len() == 0 {
        store
    } else {
        spec_save(spec_save_all(store, entries.drop_last()), entries.last())
    }
}

/// The store without the entries of `instrument`.
pub open spec fn spec_delete(store: Seq<SubscriptionsView>, instrument: InstrumentId) -> Seq<
    SubscriptionsView,
>
    decreases store.len(),
{
    if store.len() == 0 {
        Seq::empty()
    } else if store.last().instrument_id == instrument {
        spec_delete(store.drop_last(), instrument)
    } else {
        spec_delete(store.drop_last(), instrument).push(store.last())
    }
}

/// The entries that `deployment` watches, in store order.
pub open spec fn watched_by(store: Seq<SubscriptionsView>, deployment: u128) -> Seq<SubscriptionsView>
    decreases store.len(),
{
    if store.len() == 0 {
        Seq::empty()
    } else if store.last().deployment_ids.contains(deployment) {
        watched_by(store.drop_last(), deployment).push(store.last())
    } else {
        watched_by(store.drop_last(), deployment)
    }
}

/// The position of the first entry of `instrument`, or -1.
pub open spec fn instrument_index(store: Seq<SubscriptionsView>, instrument: InstrumentId) -> int
    decreases store.len(),
{
    if store.len() == 0 {
        -1
    } else if store[0].instrument_id == instrument {
        0
    } else {
        let rest = instrument_index(store.drop_first(), instrument);
        if rest < 0 {
            -1
        } else {
            rest + 1
        }
    }
}

/// `instrument_index` is -1 exactly when no entry is for `instrument`, and
/// otherwise the first position of an entry for it.
pub proof fn lemma_instrument_index(store: Seq<SubscriptionsView>, instrument: InstrumentId)
    ensures
        -1 <= instrument_index(store, instrument) < store.len(),
        instrument_index(store, instrument) < 0 <==> forall|i: int|
            0 <= i < store.len() ==> store[i].instrument_id != instrument,
        instrument_index(store, instrument) >= 0 ==> store[instrument_index(
            store,
            instrument,
        )].instrument_id == instrument && forall|j: int|
            0 <= j < instrument_index(store, instrument) ==> store[j].instrument_id != instrument,
    decreases store.len(),
{
    if store.len() > 0 && store[0].instrument_id != instrument {
        let t = store.drop_first();
        lemma_instrument_index(t, instrument);
        assert forall|i: int| 0 < i < store.len() implies store[i] == t[i - 1] by {}
        if instrument_index(t, instrument) < 0 {
            assert forall|i: int| 0 <= i < store.len() implies store[i].instrument_id != instrument by {
                if i > 0 {
                    assert(store[i] == t[i - 1]);
                }
            }
        }
    }
}

/// Keeps, in memory, the instruments that deployments watch.
#[derive(Debug)]
pub struct InMemorySubscriptionRepository {
    storage: Vec<Subscriptions>,
}

impl View for InMemorySubscriptionRepository {
    type V = Seq<SubscriptionsView>;

    closed spec fn view(&self) -> Seq<SubscriptionsView> {
        entry_views(self.storage@)
    }
}

impl Default for InMemorySubscriptionRepository {
    fn default() -> (repository: InMemorySubscriptionRepository)
        ensures
            repository@ == Seq::<SubscriptionsView>::empty(),
    {
        InMemorySubscriptionRepository::new()
    }
}

impl InMemorySubscriptionRepository {
    /// An empty repository.
    pub fn new() -> (repository: InMemorySubscriptionRepository)
        ensures
            repository@ == Seq::<SubscriptionsView>::empty(),
    {
        let repository = InMemorySubscriptionRepository { storage: Vec::new() };
        assert(repository@ =~= Seq::<SubscriptionsView>::empty());
        repository
    }

    /// Every entry, in store order.
    pub fn get_all(&self) -> (entries: Vec<Subscriptions>)
        ensures
            entry_views(entries@) == self@,
    {
        let mut entries: Vec<Subscriptions> = Vec::new();
        let mut i: usize = 0;
        while i < self.storage.len()
            invariant
                i <= self.storage.len(),
                self@.len() == self.storage@.len(),
                entries@.len() == i,
                entry_views(entries@) == self@.take(i as int),
            decreases self.storage.len() - i,
        {
            entries.push(self.storage[i].duplicate());
            assert(self@[i as int] == self.storage@[i as int]@);
            assert(entry_views(entries@) =~= self@.take(i + 1));
            i = i + 1;
        }
        assert(self@.take(self.storage.len() as int) =~= self@);
        entries
    }

    /// The entries that `deployment_id` watches, in store order.
    pub fn get_by_deployment(&self, deployment_id: u128) -> (entries: Vec<Subscriptions>)
        ensures
            entry_views(entries@) == watched_by(self@, deployment_id),
    {
        let ghost all = self@;
        let mut entries: Vec<Subscriptions> = Vec::new();
        let mut i: usize = 0;
        while i < self.storage.len()
            invariant
                i <= self.storage.len(),
                all == self@,
                all.len() == self.storage@.len(),
                entry_views(entries@) == watched_by(all.take(i as int), deployment_id),
            decreases self.storage.len() - i,
        {
            assert(all.take(i + 1).drop_last() =~= all.take(i as int));
            assert(all[i as int] == self.storage@[i as int]@);
            if self.storage[i].deployment_ids.contains(deployment_id) {
                entries.push(self.storage[i].duplicate());
            }
            assert(entry_views(entries@) =~= watched_by(all.take(i + 1), deployment_id));
            i = i + 1;
        }
        assert(all.take(self.storage.len() as int) =~= all);
        entries
    }

    /// A copy of the first entry of `instrument_id`, if any.
    pub fn get_be_instrument(&self, instrument_id: &InstrumentId) -> (entry: Option<Subscriptions>)
        ensures
            match entry {
                Some(e) => instrument_index(self@, *instrument_id) >= 0 && e@ == self@[instrument_index(
                    self@,
                    *instrument_id,
                )],
                None => instrument_index(self@, *instrument_id) < 0,
            },
    {
        proof {
            lemma_instrument_index(self@, *instrument_id);
        }
        let mut i: usize = 0;
        while i < self.storage.len()
            invariant
                i <= self.storage.len(),
                self@.len() == self.storage@.len(),
                forall|j: int| 0 <= j < i ==> self@[j].instrument_id != *instrument_id,
                -1 <= instrument_index(self@, *instrument_id) < self@.len(),
                instrument_index(self@, *instrument_id) < 0 <==> forall|j: int|
                    0 <= j < self@.len() ==> self@[j].instrument_id != *instrument_id,
                instrument_index(self@, *instrument_id) >= 0 ==> self@[instrument_index(
                    self@,
                    *instrument_id,
                )].instrument_id == *instrument_id && forall|j: int|
                    0 <= j < instrument_index(self@, *instrument_id) ==> self@[j].instrument_id
                        != *instrument_id,
            decreases self.storage.len() - i,
        {
            assert(self@[i as int] == self.storage@[i as int]@);
            if self.storage[i].instrument_id == *instrument_id {
                return Some(self.storage[i].duplicate());
            }
            i = i + 1;
        }
        None
    }

    /// Saves `subscription`: its deployments join those of the first stored
    /// entry, whatever that entry's instrument; into an empty repository it
    /// goes as it is.
    pub fn save(&mut self, subscription: &Subscriptions)
        ensures
            final(self)@ == spec_save(old(self)@, subscription@),
    {
        if self.storage.len() > 0 {
            let mut first = self.storage[0].duplicate();
            first.deployment_ids.extend(&subscription.deployment_ids);
            self.storage.set(0, first);
        } else {
            self.storage.push(subscription.duplicate());
        }
        assert(self@ =~= spec_save(old(self)@, subscription@));
    }

    /// Saves each of `subscriptions` in turn.
    pub fn save_many(&mut self, subscriptions: &Vec<Subscriptions>)
        ensures
            final(self)@ == spec_save_all(old(self)@, entry_views(subscriptions@)),
    {
        let ghost entries = entry_views(subscriptions@);
        let mut i: usize = 0;
        while i < subscriptions.len()
            invariant
                i <= subscriptions.len(),
                entries == entry_views(subscriptions@),
                self@ == spec_save_all(old(self)@, entries.take(i as int)),
            decreases subscriptions.len() - i,
        {
            assert(entries.take(i + 1).drop_last() =~= entries.take(i as int));
            self.save(&subscriptions[i]);
            i = i + 1;
        }
        assert(entries.take(subscriptions.len() as int) =~= entries);
    }

    /// Removes every entry of `instrument_id`.
    pub fn delete(&mut self, instrument_id: &InstrumentId)
        ensures
            final(self)@ == spec_delete(old(self)@, *instrument_id),
    {
        let ghost all = self@;
        let mut kept: Vec<Subscriptions> = Vec::new();
        let mut i: usize = 0;
        while i < self.storage.len()
            invariant
                i <= self.storage.len(),
                all == self@,
                all.len() == self.storage@.len(),
                entry_views(kept@) == spec_delete(all.take(i as int), *instrument_id),
            decreases self.storage.len() - i,
        {
            assert(all.take(i + 1).drop_last() =~= all.take(i as int));
            assert(all[i as int] == self.storage@[i as int]@);
            if self.storage[i].instrument_id != *instrument_id {
                kept.push(self.storage[i].duplicate());
            }
            assert(entry_views(kept@) =~= spec_delete(all.take(i + 1), *instrument_id));
            i = i + 1;
        }
        assert(all.take(self.storage.len() as int) =~= all);
        self.storage = kept;
    }
}


/// One instrument of a subscribing deployment: an instrument already in
/// the store needs nothing; a new one is saved with the deployment and its
/// market data is started.
pub open spec fn subscribe_step(store: Seq<SubscriptionsView>, deployment: u128, instrument: InstrumentId) -> (
    Seq<SubscriptionsView>,
    Seq<FacadeCall>,
) {
    if instrument_index(store, instrument) >= 0 {
        (store, Seq::empty())
    } else {
        (
            spec_save(
                store,
                SubscriptionsView {
                    instrument_id: instrument,
                    deployment_ids: Set::empty().insert(deployment),
                },
            ),
            start_calls(instrument),
        )
    }
}

/// The store and the calls after subscribing `deployment` to each of
/// `instruments` in turn.
pub open spec fn subscribe_all(
    store: Seq<SubscriptionsView>,
    deployment: u128,
    instruments: Seq<InstrumentId>,
) -> (Seq<SubscriptionsView>, Seq<FacadeCall>)
    decreases instruments.len(),
{
    if instruments.len() == 0 {
        (store, Seq::empty())
    } else {
        let before = subscribe_all(store, deployment, instruments.drop_last());
        let step = subscribe_step(before.0, deployment, instruments.last());
        (step.0, before.1 + step.1)
    }
}

/// The entries that `deployment` watches, with `deployment` taken out.
pub open spec fn released(store: Seq<SubscriptionsView>, deployment: u128) -> Seq<SubscriptionsView> {
    watched_by(store, deployment).map_values(
        |e: SubscriptionsView|
            SubscriptionsView {
                instrument_id: e.instrument_id,
                deployment_ids: e.deployment_ids.remove(deployment),
            },
    )
}

/// The store and the calls after dropping, in turn, each entry of
/// `entries` that no deployment watches any more, with its market data.
pub open spec fn drop_unwatched(store: Seq<SubscriptionsView>, entries: Seq<SubscriptionsView>) -> (
    Seq<SubscriptionsView>,
    Seq<FacadeCall>,
)
    decreases entries.len(),
{
    if entries.len() == 0 {
        (store, Seq::empty())
    } else {
        let before = drop_unwatched(store, entries.drop_last());
        let e = entries.last();
        if e.deployment_ids == Set::<u128>::empty() {
            (spec_delete(before.0, e.instrument_id), before.1 + stop_calls(e.instrument_id))
        } else {
            before
        }
    }
}

/// The store and the calls after `deployment` unsubscribes: its entries,
/// without it, are saved back, and those left without deployments are
/// dropped with their market data.
pub open spec fn unsubscribe_all(store: Seq<SubscriptionsView>, deployment: u128) -> (
    Seq<SubscriptionsView>,
    Seq<FacadeCall>,
) {
    let r = released(store, deployment);
    drop_unwatched(spec_save_all(store, r), r)
}

/// Decides, for the deployments that subscribe and unsubscribe, which
/// instruments are watched and which market data calls are due.
#[derive(Debug)]
pub struct SubscriptionManager {
    subscription_repository: InMemorySubscriptionRepository,
}

impl View for SubscriptionManager {
    type V = Seq<SubscriptionsView>;

    closed spec fn view(&self) -> Seq<SubscriptionsView> {
        self.subscription_repository@
    }
}

impl SubscriptionManager {
    /// A manager over `subscription_repository`.
    pub fn new(subscription_repository: InMemorySubscriptionRepository) -> (manager: SubscriptionManager)
        ensures
            manager@ == subscription_repository@,
    {
        SubscriptionManager { subscription_repository }
    }

    /// Every stored entry.
    pub fn subscriptions(&self) -> (entries: Vec<Subscriptions>)
        ensures
            entry_views(entries@) == self@,
    {
        self.subscription_repository.get_all()
    }

    /// Subscribes a deployment to its instruments and returns the market
    /// data calls that are due. Subscriptions of simulations change nothing.
    pub fn subscribe(&mut self, new_subscription: Subscription) -> (calls: Vec<FacadeCall>)
        ensures
            new_subscription.simulation_id is Some ==> final(self)@ == old(self)@ && calls@ == Seq::<
                FacadeCall,
            >::empty(),
            new_subscription.simulation_id is None ==> (final(self)@, calls@) == subscribe_all(
                old(self)@,
                new_subscription.deployment_id,
                new_subscription.instruments@,
            ),
    {
        let mut calls: Vec<FacadeCall> = Vec::new();
        if new_subscription.simulation_id.is_none() {
            let deployment = new_subscription.deployment_id;
            let instruments = &new_subscription.instruments;
            let mut i: usize = 0;
            while i < instruments.len()
                invariant
                    i <= instruments.len(),
                    (self@, calls@) == subscribe_all(old(self)@, deployment, instruments@.take(i as int)),
                decreases instruments.len() - i,
            {
                assert(instruments@.take(i + 1).drop_last() =~= instruments@.take(i as int));
                let instrument = instruments[i];
                let existing = self.subscription_repository.get_be_instrument(&instrument);
                match existing {
                    Some(mut entry) => {
                        entry.deployment_ids.insert(deployment);
                    },
                    None => {
                        push_start_calls(&mut calls, instrument);
                        let entry = Subscriptions {
                            instrument_id: instrument,
                            deployment_ids: IdSet::singleton(deployment),
                        };
                        self.subscription_repository.save(&entry);
                    },
                }
                i = i + 1;
            }
            assert(instruments@.take(instruments.len() as int) =~= instruments@);
        } else {
            assert(calls@ =~= Seq::<FacadeCall>::empty());
        }
        calls
    }

    /// Unsubscribes a deployment from every instrument and returns the
    /// market data calls that are due. Subscriptions of simulations change
    /// nothing.
    pub fn unsubscribe(&mut self, subscription: Subscription) -> (calls: Vec<FacadeCall>)
        ensures
            subscription.simulation_id is Some ==> final(self)@ == old(self)@ && calls@ == Seq::<
                FacadeCall,
            >::empty(),
            subscription.simulation_id is None ==> (final(self)@, calls@) == unsubscribe_all(
                old(self)@,
                subscription.deployment_id,
            ),
    {
        let mut calls: Vec<FacadeCall> = Vec::new();
        if subscription.simulation_id.is_none() {
            let deployment = subscription.deployment_id;
            let watched = self.subscription_repository.get_by_deployment(deployment);
            let ghost r = released(old(self)@, deployment);
            assert(r.len() == watched@.len());
            let mut updated: Vec<Subscriptions> = Vec::new();
            let mut i: usize = 0;
            while i < watched.len()
                invariant
                    i <= watched.len(),
                    entry_views(watched@) == watched_by(old(self)@, deployment),
                    r == released(old(self)@, deployment),
                    r.len() == watched@.len(),
                    updated@.len() == i,
                    entry_views(updated@) == r.take(i as int),
                decreases watched.len() - i,
            {
                let mut entry = watched[i].duplicate();
                entry.deployment_ids.remove(deployment);
                assert(watched@[i as int]@ == watched_by(old(self)@, deployment)[i as int]);
                updated.push(entry);
                assert(entry_views(updated@) =~= r.take(i + 1));
                i = i + 1;
            }
            assert(r.take(watched.len() as int) =~= r);
            self.subscription_repository.save_many(&updated);
            let ghost saved = self@;
            let mut j: usize = 0;
            while j < updated.len()
                invariant
                    j <= updated.len(),
                    entry_views(updated@) == r,
                    saved == spec_save_all(old(self)@, r),
                    (self@, calls@) == drop_unwatched(saved, r.take(j as int)),
                decreases updated.len() - j,
            {
                assert(r.take(j + 1).drop_last() =~= r.take(j as int));
                assert(r[j as int] == updated@[j as int]@);
                if updated[j].deployment_ids.is_empty() {
                    let instrument = updated[j].instrument_id;
                    push_stop_calls(&mut calls, instrument);
                    self.subscription_repository.delete(&instrument);
                }
                j = j + 1;
            }
            assert(r.take(updated.len() as int) =~= r);
        } else {
            assert(calls@ =~= Seq::<FacadeCall>::empty());
        }
        calls
    }
}


/// Law: when no instrument is watched, a deployment that subscribes to one
/// instrument and then unsubscribes leaves nothing watched; the calls start
/// the instrument's market data and then stop it.
pub proof fn law_subscribe_then_unsubscribe(deployment: u128, instrument: InstrumentId)
    ensures
        ({
            let subscribed = subscribe_all(Seq::empty(), deployment, seq![instrument]);
            let unsubscribed = unsubscribe_all(subscribed.0, deployment);
            &&& subscribed.1 == start_calls(instrument)
            &&& unsubscribed.0 == Seq::<SubscriptionsView>::empty()
            &&& unsubscribed.1 == stop_calls(instrument)
        }),
{
    let empty = Seq::<SubscriptionsView>::empty();
    let instruments = seq![instrument];
    assert(instruments.drop_last() =~= Seq::<InstrumentId>::empty());
    let ids = Set::<u128>::empty().insert(deployment);
    let entry = SubscriptionsView { instrument_id: instrument, deployment_ids: ids };
    let store = empty.push(entry);
    let none = subscribe_all(empty, deployment, instruments.drop_last());
    assert(none.0 == empty && none.1 == Seq::<FacadeCall>::empty());
    assert(instruments.last() == instrument);
    assert(instrument_index(empty, instrument) == -1);
    assert(subscribe_step(empty, deployment, instrument).0 == store);
    assert(subscribe_all(empty, deployment, instruments).0 == store);
    assert(subscribe_all(empty, deployment, instruments).1 =~= start_calls(instrument));
    assert(store.drop_last() =~= empty);
    assert(store.last() == entry);
    assert(ids.contains(deployment));
    assert(watched_by(store.drop_last(), deployment) == Seq::<SubscriptionsView>::empty());
    assert(watched_by(store, deployment) =~= seq![entry]);
    let emptied = SubscriptionsView { instrument_id: instrument, deployment_ids: ids.remove(deployment) };
    assert(ids.remove(deployment) =~= Set::<u128>::empty());
    let r = released(store, deployment);
    assert(r =~= seq![emptied]);
    assert(r.drop_last() =~= Seq::<SubscriptionsView>::empty());
    let saved = spec_save_all(store, r);
    assert(ids.union(emptied.deployment_ids) =~= ids);
    assert(spec_save_all(store, r.drop_last()) == store);
    assert(r.last() == emptied);
    assert(spec_save(store, emptied) =~= store);
    assert(saved =~= store);
    assert(spec_delete(store.drop_last(), instrument) == empty);
    assert(spec_delete(store, instrument) =~= empty);
    let before = drop_unwatched(saved, r.drop_last());
    assert(before.0 == saved && before.1 == Seq::<FacadeCall>::empty());
    assert(emptied.deployment_ids == Set::<u128>::empty());
    assert(drop_unwatched(saved, r).0 == empty);
    assert(drop_unwatched(saved, r).1 =~= stop_calls(instrument));
    assert(unsubscribe_all(store, deployment).1 =~= stop_calls(instrument));
}

/// Subscribing from an empty store leaves one entry: the first instrument,
/// watched by the deployment. Every later instrument is either that one or
/// saved into the first entry.
proof fn lemma_subscribe_from_empty(deployment: u128, instruments: Seq<InstrumentId>)
    ensures
        subscribe_all(Seq::empty(), deployment, instruments).0 == if instruments.len() == 0 {
            Seq::<SubscriptionsView>::empty()
        } else {
            seq![
                SubscriptionsView {
                    instrument_id: instruments[0],
                    deployment_ids: Set::<u128>::empty().insert(deployment),
                },
            ]
        },
    decreases instruments.len(),
{
    if instruments.len() > 0 {
        let init = instruments.drop_last();
        lemma_subscribe_from_empty(deployment, init);
        let ids = Set::<u128>::empty().insert(deployment);
        let before = subscribe_all(Seq::empty(), deployment, init).0;
        let last = instruments.last();
        if init.len() == 0 {
            assert(instrument_index(before, last) == -1);
            assert(instruments[0] == last);
        } else {
            assert(init[0] == instruments[0]);
            if instrument_index(before, last) < 0 {
                let entry = SubscriptionsView { instrument_id: last, deployment_ids: ids };
                assert(before[0].deployment_ids.union(entry.deployment_ids) =~= ids);
                assert(spec_save(before, entry) =~= before);
            }
        }
    }
}

/// Law: when no instrument is watched, a deployment that subscribes to any
/// instruments and then unsubscribes leaves nothing watched.
pub proof fn law_subscribe_then_unsubscribe_leaves_nothing(
    deployment: u128,
    instruments: Seq<InstrumentId>,
)
    ensures
        unsubscribe_all(subscribe_all(Seq::empty(), deployment, instruments).0, deployment).0
            == Seq::<SubscriptionsView>::empty(),
{
    lemma_subscribe_from_empty(deployment, instruments);
    let empty = Seq::<SubscriptionsView>::empty();
    if instruments.len() == 0 {
        assert(released(empty, deployment) =~= empty);
        assert(spec_save_all(empty, empty) == empty);
    } else {
        let instrument = instruments[0];
        let ids = Set::<u128>::empty().insert(deployment);
        let entry = SubscriptionsView { instrument_id: instrument, deployment_ids: ids };
        let store = seq![entry];
        assert(store.drop_last() =~= empty);
        assert(store.last() == entry);
        assert(ids.contains(deployment));
        assert(watched_by(store.drop_last(), deployment) == empty);
        assert(watched_by(store, deployment) =~= seq![entry]);
        let emptied = SubscriptionsView { instrument_id: instrument, deployment_ids: ids.remove(deployment) };
        assert(ids.remove(deployment) =~= Set::<u128>::empty());
        let r = released(store, deployment);
        assert(r =~= seq![emptied]);
        assert(r.drop_last() =~= empty);
        assert(spec_save_all(store, r.drop_last()) == store);
        assert(r.last() == emptied);
        assert(ids.union(emptied.deployment_ids) =~= ids);
        assert(spec_save(store, emptied) =~= store);
        let saved = spec_save_all(store, r);
        assert(saved =~= store);
        assert(spec_delete(store.drop_last(), instrument) == empty);
        assert(spec_delete(store, instrument) =~= empty);
        assert(drop_unwatched(saved, r.drop_last()).0 == saved);
        assert(emptied.deployment_ids == Set::<u128>::empty());
        assert(drop_unwatched(saved, r).0 == empty);
    }
}

/// A repository of subscriptions kept on disk; it holds no subscription and
/// offers no operation yet.
#[derive(Debug)]
pub struct EmbeddedSubscriptionRepository {}

} // verus!
