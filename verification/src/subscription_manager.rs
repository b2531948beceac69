//! The interactor's in-memory subscription bookkeeping: for each watched
//! instrument, the deployments that watch it, with the market data calls
//! that deployments coming and going make due.

use vstd::prelude::*;

use crate::domain::{Deployment, DeploymentEvent, InstrumentId};
use crate::facade::{push_start_calls, push_stop_calls, start_calls, stop_calls, FacadeCall};

verus! {

/// A deployment's request to watch instruments.
#[derive(Debug)]
pub struct Subscription {
    pub deployment_id: u128,
    pub instruments: Vec<InstrumentId>,
}

impl From<Deployment> for Subscription {
    fn from(value: Deployment) -> (subscription: Subscription) {
        Subscription { deployment_id: value.id, instruments: value.subscriptions }
    }
}

impl vstd::std_specs::convert::FromSpecImpl<Deployment> for Subscription {
    open spec fn obeys_from_spec() -> bool {
        true
    }

    open spec fn from_spec(value: Deployment) -> Subscription {
        Subscription { deployment_id: value.id, instruments: value.subscriptions }
    }
}

/// A watched instrument and the deployments that watch it, one entry per
/// subscription in arrival order.
#[derive(Debug)]
pub struct Subscriptions {
    pub instrument_id: InstrumentId,
    pub deployment_ids: Vec<u128>,
}

/// The mathematical value of [`Subscriptions`].
pub struct SubscriptionsView {
    pub instrument_id: InstrumentId,
    pub deployment_ids: Seq<u128>,
}

impl View for Subscriptions {
    type V = SubscriptionsView;

    open spec fn view(&self) -> SubscriptionsView {
        SubscriptionsView { instrument_id: self.instrument_id, deployment_ids: self.deployment_ids@ }
    }
}

/// The position of the first entry for `instrument`, or -1.
pub open spec fn entry_index(s: Seq<SubscriptionsView>, instrument: InstrumentId) -> int
    decreases s.len(),
{
    if s.len() == 0 {
        -1
    } else if s[0].instrument_id == instrument {
        0
    } else {
        let rest = entry_index(s.drop_first(), instrument);
        if rest < 0 {
            -1
        } else {
            rest + 1
        }
    }
}

/// `entry_index` is -1 exactly when no entry is for `instrument`, and
/// otherwise the first position of an entry for it.
pub proof fn lemma_entry_index(s: Seq<SubscriptionsView>, instrument: InstrumentId)
    ensures
        -1 <= entry_index(s, instrument) < s.len(),
        entry_index(s, instrument) < 0 <==> forall|i: int|
            0 <= i < s.len() ==> s[i].instrument_id != instrument,
        entry_index(s, instrument) >= 0 ==> s[entry_index(s, instrument)].instrument_id
            == instrument && forall|j: int|
            0 <= j < entry_index(s, instrument) ==> s[j].instrument_id != instrument,
    decreases s.len(),
{
    if s.len() > 0 && s[0].instrument_id != instrument {
        let t = s.drop_first();
        lemma_entry_index(t, instrument);
        assert forall|i: int| 0 < i < s.len() implies s[i] == t[i - 1] by {}
        if entry_index(t, instrument) < 0 {
            assert forall|i: int| 0 <= i < s.len() implies s[i].instrument_id != instrument by {
                if i > 0 {
                    assert(s[i] == t[i - 1]);
                }
            }
        }
    }
}

/// One instrument of a subscribing deployment: the deployment joins the
/// first entry of a watched instrument; an unwatched instrument gets a new
/// entry at the end and its market data is started.
pub open spec fn subscribe_step(s: Seq<SubscriptionsView>, deployment: u128, instrument: InstrumentId) -> (
    Seq<SubscriptionsView>,
    Seq<FacadeCall>,
) {
    let k = entry_index(s, instrument);
    if k >= 0 {
        (
            s.update(
                k,
                SubscriptionsView {
                    instrument_id: s[k].instrument_id,
                    deployment_ids: s[k].deployment_ids.push(deployment),
                },
            ),
            Seq::empty(),
        )
    } else {
        (
            s.push(SubscriptionsView { instrument_id: instrument, deployment_ids: seq![deployment] }),
            start_calls(instrument),
        )
    }
}

/// The entries and the calls after subscribing `deployment` to each of
/// `instruments` in turn.
pub open spec fn subscribe_all(
    s: Seq<SubscriptionsView>,
    deployment: u128,
    instruments: Seq<InstrumentId>,
) -> (Seq<SubscriptionsView>, Seq<FacadeCall>)
    decreases instruments.len(),
{
    if instruments.len() == 0 {
        (s, Seq::empty())
    } else {
        let before = subscribe_all(s, deployment, instruments.drop_last());
        let step = subscribe_step(before.0, deployment, instruments.last());
        (step.0, before.1 + step.1)
    }
}

/// `ids` without any occurrence of `deployment`.
pub open spec fn without(ids: Seq<u128>, deployment: u128) -> Seq<u128>
    decreases ids.len(),
{
    if ids.len() == 0 {
        Seq::empty()
    } else if ids.last() == deployment {
        without(ids.drop_last(), deployment)
    } else {
        without(ids.drop_last(), deployment).push(ids.last())
    }
}

/// The entries and the calls after `deployment` leaves every entry: the
/// entries left without deployments are dropped, in order, and their market
/// data is stopped.
pub open spec fn unsubscribe_all(s: Seq<SubscriptionsView>, deployment: u128) -> (
    Seq<SubscriptionsView>,
    Seq<FacadeCall>,
)
    decreases s.len(),
{
    if s.len() == 0 {
        (Seq::empty(), Seq::empty())
    } else {
        let before = unsubscribe_all(s.drop_last(), deployment);
        let e = s.last();
        let ids = without(e.deployment_ids, deployment);
        if ids.len() == 0 {
            (before.0, before.1 + stop_calls(e.instrument_id))
        } else {
            (before.0.push(SubscriptionsView { instrument_id: e.instrument_id, deployment_ids: ids }), before.1)
        }
    }
}

/// Keeps, for each watched instrument, the deployments that watch it.
#[derive(Debug)]
pub struct SubscriptionManager {
    subscriptions: Vec<Subscriptions>,
}

impl View for SubscriptionManager {
    type V = Seq<SubscriptionsView>;

    closed spec fn view(&self) -> Seq<SubscriptionsView> {
        self.subscriptions@.map_values(|e: Subscriptions| e@)
    }
}

/// `ids` without any occurrence of `deployment`.
fn remove_deployment(ids: &Vec<u128>, deployment: u128) -> (kept: Vec<u128>)
    ensures
        kept@ == without(ids@, deployment),
{
    let mut kept: Vec<u128> = Vec::new();
    let mut i: usize = 0;
    while i < ids.len()
        invariant
            i <= ids.len(),
            kept@ == without(ids@.take(i as int), deployment),
        decreases ids.len() - i,
    {
        assert(ids@.take(i + 1).drop_last() =~= ids@.take(i as int));
        if ids[i] != deployment {
            kept.push(ids[i]);
        }
        i = i + 1;
    }
    assert(ids@.take(ids.len() as int) =~= ids@);
    kept
}

impl SubscriptionManager {
    /// A manager that watches nothing.
    pub fn new() -> (manager: SubscriptionManager)
        ensures
            manager@ == Seq::<SubscriptionsView>::empty(),
    {
        let manager = SubscriptionManager { subscriptions: Vec::new() };
        assert(manager@ =~= Seq::<SubscriptionsView>::empty());
        manager
    }

    /// The position of the first entry for `instrument`.
    fn position(&self, instrument: InstrumentId) -> (position: Option<usize>)
        ensures
            self@.len() == self.subscriptions@.len(),
            match position {
                Some(k) => k as int == entry_index(self@, instrument),
                None => entry_index(self@, instrument) < 0,
            },
    {
        proof {
            lemma_entry_index(self@, instrument);
        }
        let mut i: usize = 0;
        while i < self.subscriptions.len()
            invariant
                i <= self.subscriptions.len(),
                self@.len() == self.subscriptions@.len(),
                forall|j: int| 0 <= j < i ==> self@[j].instrument_id != instrument,
                -1 <= entry_index(self@, instrument) < self@.len(),
                entry_index(self@, instrument) < 0 <==> forall|j: int|
                    0 <= j < self@.len() ==> self@[j].instrument_id != instrument,
                entry_index(self@, instrument) >= 0 ==> self@[entry_index(self@, instrument)].instrument_id
                    == instrument && forall|j: int|
                    0 <= j < entry_index(self@, instrument) ==> self@[j].instrument_id != instrument,
            decreases self.subscriptions.len() - i,
        {
            assert(self@[i as int] == self.subscriptions@[i as int]@);
            if self.subscriptions[i].instrument_id == instrument {
                return Some(i);
            }
            i = i + 1;
        }
        None
    }

    /// Subscribes the deployment to its instruments and returns the market
    /// data calls that are due.
    pub fn subscribe(&mut self, new_subscription: Subscription) -> (calls: Vec<FacadeCall>)
        ensures
            (final(self)@, calls@) == subscribe_all(
                old(self)@,
                new_subscription.deployment_id,
                new_subscription.instruments@,
            ),
    {
        let deployment = new_subscription.deployment_id;
        let instruments = &new_subscription.instruments;
        let mut calls: Vec<FacadeCall> = Vec::new();
        let mut i: usize = 0;
        while i < instruments.len()
            invariant
                i <= instruments.len(),
                (self@, calls@) == subscribe_all(old(self)@, deployment, instruments@.take(i as int)),
            decreases instruments.len() - i,
        {
            assert(instruments@.take(i + 1).drop_last() =~= instruments@.take(i as int));
            let instrument = instruments[i];
            let ghost before = self@;
            match self.position(instrument) {
                Some(k) => {
                    proof {
                        lemma_entry_index(before, instrument);
                    }
                    let mut ids = vstd::slice::slice_to_vec(self.subscriptions[k].deployment_ids.as_slice());
                    ids.push(deployment);
                    let entry = Subscriptions { instrument_id: self.subscriptions[k].instrument_id, deployment_ids: ids };
                    self.subscriptions.set(k, entry);
                    assert(self@ =~= subscribe_step(before, deployment, instrument).0);
                    assert(calls@ =~= calls@ + Seq::<FacadeCall>::empty());
                },
                None => {
                    push_start_calls(&mut calls, instrument);
                    let mut ids: Vec<u128> = Vec::new();
                    ids.push(deployment);
                    self.subscriptions.push(Subscriptions { instrument_id: instrument, deployment_ids: ids });
                    assert(self@ =~= subscribe_step(before, deployment, instrument).0);
                },
            }
            i = i + 1;
        }
        assert(instruments@.take(instruments.len() as int) =~= instruments@);
        calls
    }

    /// Takes the deployment out of every entry, drops the entries left
    /// without deployments, and returns the market data calls that are due.
    pub fn unsubscribe(&mut self, deployment_id: u128) -> (calls: Vec<FacadeCall>)
        ensures
            (final(self)@, calls@) == unsubscribe_all(old(self)@, deployment_id),
    {
        let ghost all = self@;
        let mut kept: Vec<Subscriptions> = Vec::new();
        let mut calls: Vec<FacadeCall> = Vec::new();
        let mut i: usize = 0;
        while i < self.subscriptions.len()
            invariant
                i <= self.subscriptions.len(),
                all == self@,
                all.len() == self.subscriptions@.len(),
                (kept@.map_values(|e: Subscriptions| e@), calls@) == unsubscribe_all(
                    all.take(i as int),
                    deployment_id,
                ),
            decreases self.subscriptions.len() - i,
        {
            assert(all.take(i + 1).drop_last() =~= all.take(i as int));
            assert(all[i as int] == self.subscriptions@[i as int]@);
            let ids = remove_deployment(&self.subscriptions[i].deployment_ids, deployment_id);
            let instrument = self.subscriptions[i].instrument_id;
            if ids.len() == 0 {
                push_stop_calls(&mut calls, instrument);
            } else {
                kept.push(Subscriptions { instrument_id: instrument, deployment_ids: ids });
            }
            assert(kept@.map_values(|e: Subscriptions| e@) =~= unsubscribe_all(
                all.take(i + 1),
                deployment_id,
            ).0);
            i = i + 1;
        }
        assert(all.take(self.subscriptions.len() as int) =~= all);
        self.subscriptions = kept;
        calls
    }

    /// Acts on a deployment event that is not a simulation's: a created
    /// deployment subscribes to its instruments, a deleted one unsubscribes.
    /// Returns the market data calls that are due.
    pub fn handle_deployment(&mut self, deployment: Deployment) -> (calls: Vec<FacadeCall>)
        ensures
            deployment.simulation_id is Some ==> final(self)@ == old(self)@ && calls@ == Seq::<
                FacadeCall,
            >::empty(),
            deployment.simulation_id is None && deployment.event == DeploymentEvent::Created ==> (
            final(self)@, calls@) == subscribe_all(old(self)@, deployment.id, deployment.subscriptions@),
            deployment.simulation_id is None && deployment.event == DeploymentEvent::Deleted ==> (
            final(self)@, calls@) == unsubscribe_all(old(self)@, deployment.id),
    {
        if deployment.simulation_id.is_none() {
            match deployment.event {
                DeploymentEvent::Created => self.subscribe(Subscription::from(deployment)),
                DeploymentEvent::Deleted => self.unsubscribe(deployment.id),
            }
        } else {
            let calls: Vec<FacadeCall> = Vec::new();
            assert(calls@ =~= Seq::<FacadeCall>::empty());
            calls
        }
    }
}


/// Each instrument has at most one entry, and every entry has a deployment.
pub open spec fn entries_well_formed(s: Seq<SubscriptionsView>) -> bool {
    &&& forall|i: int, j: int|
        0 <= i < s.len() && 0 <= j < s.len() && i != j ==> #[trigger] s[i].instrument_id
            != #[trigger] s[j].instrument_id
    &&& forall|i: int| 0 <= i < s.len() ==> #[trigger] s[i].deployment_ids.len() > 0
}

/// Law: subscribing keeps one entry per instrument, each with a deployment.
pub proof fn law_subscribe_keeps_entries_well_formed(
    s: Seq<SubscriptionsView>,
    deployment: u128,
    instruments: Seq<InstrumentId>,
)
    requires
        entries_well_formed(s),
    ensures
        entries_well_formed(subscribe_all(s, deployment, instruments).0),
    decreases instruments.len(),
{
    if instruments.len() > 0 {
        law_subscribe_keeps_entries_well_formed(s, deployment, instruments.drop_last());
        let before = subscribe_all(s, deployment, instruments.drop_last()).0;
        let instrument = instruments.last();
        lemma_entry_index(before, instrument);
        let after = subscribe_step(before, deployment, instrument).0;
        let k = entry_index(before, instrument);
        if k >= 0 {
            assert forall|i: int| 0 <= i < after.len() implies #[trigger] after[i].instrument_id
                == before[i].instrument_id by {}
            assert forall|i: int, j: int|
                0 <= i < after.len() && 0 <= j < after.len() && i != j implies #[trigger] after[i].instrument_id
                != #[trigger] after[j].instrument_id by {
                assert(after[i].instrument_id == before[i].instrument_id);
                assert(after[j].instrument_id == before[j].instrument_id);
            }
            assert forall|i: int| 0 <= i < after.len() implies #[trigger] after[i].deployment_ids.len() > 0 by {
                if i != k {
                    assert(after[i] == before[i]);
                }
            }
        } else {
            assert forall|i: int, j: int|
                0 <= i < after.len() && 0 <= j < after.len() && i != j implies #[trigger] after[i].instrument_id
                != #[trigger] after[j].instrument_id by {
                if i < before.len() && j < before.len() {
                    assert(after[i] == before[i] && after[j] == before[j]);
                } else if i < before.len() {
                    assert(after[i] == before[i]);
                } else {
                    assert(after[j] == before[j]);
                }
            }
            assert forall|i: int| 0 <= i < after.len() implies #[trigger] after[i].deployment_ids.len() > 0 by {
                if i < before.len() {
                    assert(after[i] == before[i]);
                }
            }
        }
    }
}

/// Every entry left after unsubscribing is for an instrument that had an entry.
pub proof fn lemma_unsubscribe_instruments(s: Seq<SubscriptionsView>, deployment: u128)
    ensures
        forall|i: int|
            0 <= i < unsubscribe_all(s, deployment).0.len() ==> exists|j: int|
                0 <= j < s.len() && s[j].instrument_id == #[trigger] unsubscribe_all(
                    s,
                    deployment,
                ).0[i].instrument_id,
        forall|i: int|
            0 <= i < unsubscribe_all(s, deployment).0.len() ==> #[trigger] unsubscribe_all(
                s,
                deployment,
            ).0[i].deployment_ids.len() > 0,
    decreases s.len(),
{
    if s.len() > 0 {
        let t = s.drop_last();
        lemma_unsubscribe_instruments(t, deployment);
        let r = unsubscribe_all(s, deployment).0;
        let q = unsubscribe_all(t, deployment).0;
        assert forall|i: int| 0 <= i < r.len() implies exists|j: int|
            0 <= j < s.len() && s[j].instrument_id == #[trigger] r[i].instrument_id by {
            if i < q.len() {
                assert(r[i] == q[i]);
                let j = choose|j: int| 0 <= j < t.len() && t[j].instrument_id == q[i].instrument_id;
                assert(s[j] == t[j]);
            } else {
                assert(r[i].instrument_id == s[s.len() - 1].instrument_id);
            }
        }
        assert forall|i: int| 0 <= i < r.len() implies #[trigger] r[i].deployment_ids.len() > 0 by {
            if i < q.len() {
                assert(r[i] == q[i]);
            }
        }
    }
}

/// Law: unsubscribing keeps one entry per instrument, each with a deployment.
pub proof fn law_unsubscribe_keeps_entries_well_formed(s: Seq<SubscriptionsView>, deployment: u128)
    requires
        entries_well_formed(s),
    ensures
        entries_well_formed(unsubscribe_all(s, deployment).0),
    decreases s.len(),
{
    lemma_unsubscribe_instruments(s, deployment);
    if s.len() > 0 {
        let t = s.drop_last();
        assert(entries_well_formed(t)) by {
            assert forall|i: int, j: int|
                0 <= i < t.len() && 0 <= j < t.len() && i != j implies #[trigger] t[i].instrument_id
                != #[trigger] t[j].instrument_id by {
                assert(t[i] == s[i] && t[j] == s[j]);
            }
            assert forall|i: int| 0 <= i < t.len() implies #[trigger] t[i].deployment_ids.len() > 0 by {
                assert(t[i] == s[i]);
            }
        }
        law_unsubscribe_keeps_entries_well_formed(t, deployment);
        lemma_unsubscribe_instruments(t, deployment);
        let q = unsubscribe_all(t, deployment).0;
        let r = unsubscribe_all(s, deployment).0;
        if r.len() > q.len() {
            assert forall|i: int, j: int|
                0 <= i < r.len() && 0 <= j < r.len() && i != j implies #[trigger] r[i].instrument_id
                != #[trigger] r[j].instrument_id by {
                if i < q.len() && j < q.len() {
                    assert(r[i] == q[i] && r[j] == q[j]);
                } else if i < q.len() {
                    assert(r[i] == q[i]);
                    let k = choose|k: int| 0 <= k < t.len() && t[k].instrument_id == q[i].instrument_id;
                    assert(s[k] == t[k]);
                } else {
                    assert(r[j] == q[j]);
                    let k = choose|k: int| 0 <= k < t.len() && t[k].instrument_id == q[j].instrument_id;
                    assert(s[k] == t[k]);
                }
            }
        }
    }
}

/// Law: a deployment that joins an instrument already watched causes no
/// market data call.
pub proof fn law_second_subscriber_causes_no_call(
    s: Seq<SubscriptionsView>,
    deployment: u128,
    instrument: InstrumentId,
    k: int,
)
    requires
        0 <= k < s.len(),
        s[k].instrument_id == instrument,
    ensures
        subscribe_all(s, deployment, seq![instrument]).1 == Seq::<FacadeCall>::empty(),
{
    let instruments = seq![instrument];
    assert(instruments.drop_last() =~= Seq::<InstrumentId>::empty());
    lemma_entry_index(s, instrument);
    assert(subscribe_all(s, deployment, instruments.drop_last()).0 == s);
    assert(instruments.last() == instrument);
    assert(subscribe_all(s, deployment, instruments).1 =~= Seq::<FacadeCall>::empty());
}

/// Law: when nothing is watched, a deployment that subscribes to one
/// instrument and then unsubscribes leaves nothing watched; the calls start
/// the instrument's market data and then stop it.
pub proof fn law_subscribe_then_unsubscribe(deployment: u128, instrument: InstrumentId)
    ensures
        ({
            let subscribed = subscribe_all(Seq::empty(), deployment, seq![instrument]);
            let unsubscribed = unsubscribe_all(subscribed.0, deployment);
            &&& subscribed.1 == start_calls(instrument)
            &&& unsubscribed.0 == Seq::<SubscriptionsView>::empty()
            &&& unsubscribed.1 == stop_calls(instrument)
        }),
{
    let empty = Seq::<SubscriptionsView>::empty();
    let instruments = seq![instrument];
    assert(instruments.drop_last() =~= Seq::<InstrumentId>::empty());
    let none = subscribe_all(empty, deployment, instruments.drop_last());
    assert(none.0 == empty && none.1 == Seq::<FacadeCall>::empty());
    assert(instruments.last() == instrument);
    assert(entry_index(empty, instrument) == -1);
    let entry = SubscriptionsView { instrument_id: instrument, deployment_ids: seq![deployment] };
    let store = empty.push(entry);
    assert(subscribe_all(empty, deployment, instruments).0 == store);
    assert(subscribe_all(empty, deployment, instruments).1 =~= start_calls(instrument));
    assert(store.drop_last() =~= empty);
    let single = seq![deployment];
    assert(single.drop_last() =~= Seq::<u128>::empty());
    assert(single.last() == deployment);
    assert(without(single.drop_last(), deployment) == Seq::<u128>::empty());
    assert(without(single, deployment) =~= Seq::<u128>::empty());
    assert(unsubscribe_all(store.drop_last(), deployment).0 == empty);
    assert(unsubscribe_all(store, deployment).0 =~= empty);
    assert(unsubscribe_all(store, deployment).1 =~= stop_calls(instrument));
}

/// `t` is `s` joined by `deployment`: the entries of `s`, in order, each
/// with possibly more occurrences of `deployment`, followed by entries that
/// hold nothing but `deployment`.
pub open spec fn joined_by(s: Seq<SubscriptionsView>, t: Seq<SubscriptionsView>, deployment: u128) -> bool {
    &&& s.len() <= t.len()
    &&& forall|i: int|
        0 <= i < s.len() ==> (#[trigger] t[i]).instrument_id == s[i].instrument_id && without(
            t[i].deployment_ids,
            deployment,
        ) == without(s[i].deployment_ids, deployment)
    &&& forall|i: int| s.len() <= i < t.len() ==> without((#[trigger] t[i]).deployment_ids, deployment).len() == 0
}

/// Subscribing `deployment` keeps the entries joined by it.
proof fn lemma_subscribe_joins(
    s: Seq<SubscriptionsView>,
    deployment: u128,
    instruments: Seq<InstrumentId>,
)
    ensures
        joined_by(s, subscribe_all(s, deployment, instruments).0, deployment),
    decreases instruments.len(),
{
    if instruments.len() > 0 {
        lemma_subscribe_joins(s, deployment, instruments.drop_last());
        let t = subscribe_all(s, deployment, instruments.drop_last()).0;
        let instrument = instruments.last();
        let u = subscribe_step(t, deployment, instrument).0;
        let k = entry_index(t, instrument);
        lemma_entry_index(t, instrument);
        if k >= 0 {
            let ids = t[k].deployment_ids;
            assert(ids.push(deployment).drop_last() =~= ids);
            assert(without(ids.push(deployment), deployment) == without(ids, deployment));
            assert forall|i: int| 0 <= i < s.len() implies (#[trigger] u[i]).instrument_id == s[i].instrument_id
                && without(u[i].deployment_ids, deployment) == without(s[i].deployment_ids, deployment) by {
                if i != k {
                    assert(u[i] == t[i]);
                }
            }
            assert forall|i: int| s.len() <= i < u.len() implies without(
                (#[trigger] u[i]).deployment_ids,
                deployment,
            ).len() == 0 by {
                if i != k {
                    assert(u[i] == t[i]);
                }
            }
        } else {
            let single = seq![deployment];
            assert(single.drop_last() =~= Seq::<u128>::empty());
            assert(single.last() == deployment);
            assert(without(single.drop_last(), deployment) == Seq::<u128>::empty());
            assert(without(single, deployment) =~= Seq::<u128>::empty());
            assert forall|i: int| 0 <= i < s.len() implies (#[trigger] u[i]).instrument_id == s[i].instrument_id
                && without(u[i].deployment_ids, deployment) == without(s[i].deployment_ids, deployment) by {
                assert(u[i] == t[i]);
            }
            assert forall|i: int| s.len() <= i < u.len() implies without(
                (#[trigger] u[i]).deployment_ids,
                deployment,
            ).len() == 0 by {
                if i < t.len() {
                    assert(u[i] == t[i]);
                }
            }
        }
    }
}

/// `ids` without a deployment it does not hold is `ids`.
proof fn lemma_without_absent(ids: Seq<u128>, deployment: u128)
    requires
        !ids.contains(deployment),
    ensures
        without(ids, deployment) == ids,
    decreases ids.len(),
{
    if ids.len() > 0 {
        assert(!ids.drop_last().contains(deployment)) by {
            if ids.drop_last().contains(deployment) {
                let k = choose|k: int| 0 <= k < ids.drop_last().len() && ids.drop_last()[k] == deployment;
                assert(ids[k] == deployment);
            }
        }
        lemma_without_absent(ids.drop_last(), deployment);
        assert(ids.last() != deployment) by {
            assert(ids[ids.len() - 1] == ids.last());
        }
        assert(ids.drop_last().push(ids.last()) =~= ids);
    }
}

/// Unsubscribing `deployment` from entries joined by it gives back the
/// entries it joined, when it held none of them and each had a deployment.
proof fn lemma_unsubscribe_unjoins(s: Seq<SubscriptionsView>, t: Seq<SubscriptionsView>, deployment: u128)
    requires
        joined_by(s, t, deployment),
        forall|i: int|
            0 <= i < s.len() ==> !(#[trigger] s[i]).deployment_ids.contains(deployment)
                && s[i].deployment_ids.len() > 0,
    ensures
        unsubscribe_all(t, deployment).0 == s,
    decreases t.len(),
{
    if t.len() > 0 {
        let e = t.last();
        let rest = t.drop_last();
        if t.len() > s.len() {
            assert(e == t[t.len() - 1]);
            assert(joined_by(s, rest, deployment)) by {
                assert forall|i: int| 0 <= i < s.len() implies (#[trigger] rest[i]).instrument_id
                    == s[i].instrument_id && without(rest[i].deployment_ids, deployment) == without(
                    s[i].deployment_ids,
                    deployment,
                ) by {
                    assert(rest[i] == t[i]);
                }
                assert forall|i: int| s.len() <= i < rest.len() implies without(
                    (#[trigger] rest[i]).deployment_ids,
                    deployment,
                ).len() == 0 by {
                    assert(rest[i] == t[i]);
                }
            }
            lemma_unsubscribe_unjoins(s, rest, deployment);
        } else {
            let n = s.len() - 1;
            let init = s.drop_last();
            assert(e == t[n]);
            assert(joined_by(init, rest, deployment)) by {
                assert forall|i: int| 0 <= i < init.len() implies (#[trigger] rest[i]).instrument_id
                    == init[i].instrument_id && without(rest[i].deployment_ids, deployment)
                    == without(init[i].deployment_ids, deployment) by {
                    assert(rest[i] == t[i]);
                    assert(init[i] == s[i]);
                }
            }
            assert forall|i: int| 0 <= i < init.len() implies !(#[trigger] init[i]).deployment_ids.contains(
                deployment,
            ) && init[i].deployment_ids.len() > 0 by {
                assert(init[i] == s[i]);
            }
            lemma_unsubscribe_unjoins(init, rest, deployment);
            assert(!s[n].deployment_ids.contains(deployment));
            lemma_without_absent(s[n].deployment_ids, deployment);
            assert(without(e.deployment_ids, deployment) == s[n].deployment_ids);
            assert(s[n].deployment_ids.len() > 0);
            assert(init.push(s[n]) =~= s);
        }
    }
}

/// Law: a deployment that watches nothing, subscribes to any instruments and
/// then unsubscribes leaves the entries as they were.
pub proof fn law_unsubscribe_undoes_subscribe(
    s: Seq<SubscriptionsView>,
    deployment: u128,
    instruments: Seq<InstrumentId>,
)
    requires
        entries_well_formed(s),
        forall|i: int| 0 <= i < s.len() ==> !(#[trigger] s[i]).deployment_ids.contains(deployment),
    ensures
        unsubscribe_all(subscribe_all(s, deployment, instruments).0, deployment).0 == s,
{
    lemma_subscribe_joins(s, deployment, instruments);
    lemma_unsubscribe_unjoins(s, subscribe_all(s, deployment, instruments).0, deployment);
}

/// `ids` without `deployment` no longer holds it.
proof fn lemma_without_drops(ids: Seq<u128>, deployment: u128)
    ensures
        !without(ids, deployment).contains(deployment),
    decreases ids.len(),
{
    if ids.len() > 0 {
        lemma_without_drops(ids.drop_last(), deployment);
        let rest = without(ids.drop_last(), deployment);
        if ids.last() != deployment {
            assert forall|k: int| 0 <= k < rest.push(ids.last()).len() implies rest.push(ids.last())[k]
                != deployment by {
                if k < rest.len() {
                    assert(rest.push(ids.last())[k] == rest[k]);
                }
            }
        }
    }
}

/// Law: after a deployment unsubscribes, no entry holds it, and every entry
/// left still has a deployment.
pub proof fn law_unsubscribe_releases_deployment(s: Seq<SubscriptionsView>, deployment: u128)
    ensures
        forall|i: int|
            0 <= i < unsubscribe_all(s, deployment).0.len() ==> !(#[trigger] unsubscribe_all(
                s,
                deployment,
            ).0[i]).deployment_ids.contains(deployment) && unsubscribe_all(s, deployment).0[i].deployment_ids.len() > 0,
    decreases s.len(),
{
    lemma_unsubscribe_instruments(s, deployment);
    if s.len() > 0 {
        let t = s.drop_last();
        law_unsubscribe_releases_deployment(t, deployment);
        let r = unsubscribe_all(s, deployment).0;
        let q = unsubscribe_all(t, deployment).0;
        lemma_without_drops(s.last().deployment_ids, deployment);
        assert forall|i: int| 0 <= i < r.len() implies !(#[trigger] r[i]).deployment_ids.contains(deployment)
            && r[i].deployment_ids.len() > 0 by {
            if i < q.len() {
                assert(r[i] == q[i]);
            }
        }
    }
}

} // verus!
