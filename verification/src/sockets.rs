//! The open sockets of an exchange adapter, each under an id naming what it
//! streams. A stream is opened at most once: a socket is added only under
//! an id not yet taken, and closing removes whatever is under the id.

use vstd::prelude::*;

use crate::domain::{str_eq, Timeframe};

verus! {

/// Open sockets by id.
pub struct SocketRegistry<C> {
    entries: Vec<(String, C)>,
}

/// The id of a registry entry.
pub open spec fn entry_id<C>(entry: (Seq<char>, C)) -> Seq<char> {
    entry.0
}

impl<C> SocketRegistry<C> {
    /// The sockets, in the order they were added, with their ids.
    pub closed spec fn sockets(&self) -> Seq<(Seq<char>, C)> {
        self.entries@.map_values(|e: (String, C)| (e.0@, e.1))
    }

    /// The ids of the sockets, in the order they were added.
    pub open spec fn ids(&self) -> Seq<Seq<char>> {
        self.sockets().map_values(|e: (Seq<char>, C)| e.0)
    }

    #[verifier::type_invariant]
    closed spec fn ids_unique(&self) -> bool {
        self.ids().no_duplicates()
    }

    /// No socket is open.
    pub fn new() -> (registry: Self)
        ensures
            registry.sockets() == Seq::<(Seq<char>, C)>::empty(),
    {
        let registry = SocketRegistry { entries: Vec::new() };
        assert(registry.ids() =~= Seq::<Seq<char>>::empty());
        registry
    }

    /// Whether a socket is open under `id`.
    pub fn contains(&self, id: &str) -> (found: bool)
        ensures
            found == self.ids().contains(id@),
    {
        let mut i: usize = 0;
        while i < self.entries.len()
            invariant
                i <= self.entries.len(),
                forall|j: int| 0 <= j < i ==> self.entries@[j].0@ != id@,
            decreases self.entries.len() - i,
        {
            if str_eq(self.entries[i].0.as_str(), id) {
                assert(self.ids()[i as int] == id@);
                return true;
            }
            i = i + 1;
        }
        assert forall|j: int| 0 <= j < self.ids().len() implies self.ids()[j] != id@ by {
            assert(self.ids()[j] == self.entries@[j].0@);
        }
        false
    }

    /// Adds a socket under an id that no open socket has.
    pub fn insert(&mut self, id: String, socket: C)
        requires
            !old(self).ids().contains(id@),
        ensures
            final(self).sockets() == old(self).sockets().push((id@, socket)),
            final(self).ids().no_duplicates(),
    {
        proof {
            use_type_invariant(&*self);
        }
        let ghost before = self.sockets();
        let ghost new_id = id@;
        let ghost new_socket = socket;
        let mut entries = Vec::new();
        std::mem::swap(&mut entries, &mut self.entries);
        entries.push((id, socket));
        assert(entries@.map_values(|e: (String, C)| (e.0@, e.1)) =~= before.push((new_id, new_socket)));
        assert(entries@.map_values(|e: (String, C)| (e.0@, e.1)).map_values(|e: (Seq<char>, C)| e.0)
            =~= before.map_values(|e: (Seq<char>, C)| e.0).push(new_id));
        self.entries = entries;
    }

    /// Opens a stream once: adds `socket` under `id` when no socket is open
    /// under it, and otherwise leaves the sockets as they are. Returns
    /// whether it was added.
    pub fn insert_if_absent(&mut self, id: String, socket: C) -> (added: bool)
        ensures
            added == !old(self).ids().contains(id@),
            added ==> final(self).sockets() == old(self).sockets().push((id@, socket)),
            !added ==> final(self).sockets() == old(self).sockets(),
            final(self).ids().no_duplicates(),
    {
        proof {
            use_type_invariant(&*self);
        }
        if self.contains(id.as_str()) {
            false
        } else {
            self.insert(id, socket);
            true
        }
    }

    /// Closes whatever socket is open under `id`.
    pub fn remove(&mut self, id: &str)
        ensures
            final(self).sockets() == old(self).sockets().filter(
                |e: (Seq<char>, C)| entry_id(e) != id@,
            ),
            !final(self).ids().contains(id@),
            final(self).ids().no_duplicates(),
    {
        proof {
            use_type_invariant(&*self);
        }
        let ghost before = self.sockets();
        let ghost pred = |e: (Seq<char>, C)| entry_id(e) != id@;
        let mut entries = Vec::new();
        std::mem::swap(&mut entries, &mut self.entries);
        let ghost all = entries@;
        assert(all.map_values(|e: (String, C)| (e.0@, e.1)) == before);
        let mut kept: Vec<(String, C)> = Vec::new();
        let ghost n = all.len();
        assert(n == entries.len());
        let mut rest: Vec<(String, C)> = Vec::new();
        while entries.len() > 0
            invariant
                n == all.len(),
                entries.len() + rest.len() == n,
                forall|j: int| 0 <= j < entries.len() ==> entries@[j] == all[j],
                forall|j: int| 0 <= j < rest.len() ==> rest@[j] == all[n - 1 - j],
            decreases entries.len(),
        {
            let entry = entries.pop().unwrap();
            rest.push(entry);
        }
        let mut i: usize = 0;
        while rest.len() > 0
            invariant
                n == all.len(),
                n <= usize::MAX,
                i + rest.len() == n,
                forall|j: int| 0 <= j < rest.len() ==> rest@[j] == all[n - 1 - j],
                kept@.map_values(|e: (String, C)| (e.0@, e.1)) == before.take(i as int).filter(pred),
                before == all.map_values(|e: (String, C)| (e.0@, e.1)),
                before.map_values(|e: (Seq<char>, C)| e.0).no_duplicates(),
                pred == (|e: (Seq<char>, C)| entry_id(e) != id@),
            decreases rest.len(),
        {
            let entry = rest.pop().unwrap();
            proof {
                reveal(Seq::filter);
                assert(before.take(i as int + 1).drop_last() =~= before.take(i as int));
                assert(before.take(i as int + 1).last() == before[i as int]);
                assert(entry == all[i as int]);
            }
            let keep = !str_eq(entry.0.as_str(), id);
            if keep {
                let ghost prev = kept@;
                kept.push(entry);
                assert(kept@.map_values(|e: (String, C)| (e.0@, e.1)) =~= prev.map_values(
                    |e: (String, C)| (e.0@, e.1),
                ).push(before[i as int]));
            }
            i = i + 1;
        }
        proof {
            assert(before.take(n as int) =~= before);
            let out = kept@.map_values(|e: (String, C)| (e.0@, e.1));
            assert(out == before.filter(pred));
            broadcast use vstd::seq_lib::group_filter_ensures;
            let out_ids = out.map_values(|e: (Seq<char>, C)| e.0);
            assert forall|j: int| 0 <= j < out_ids.len() implies out_ids[j] != id@ by {
                assert(pred(out[j]));
            }
            lemma_filter_keeps_unique(before, pred);
        }
        self.entries = kept;
    }
}

/// Filtering a registry's entries keeps their ids unique.
proof fn lemma_filter_keeps_unique<C>(s: Seq<(Seq<char>, C)>, pred: spec_fn((Seq<char>, C)) -> bool)
    requires
        s.map_values(|e: (Seq<char>, C)| e.0).no_duplicates(),
    ensures
        s.filter(pred).map_values(|e: (Seq<char>, C)| e.0).no_duplicates(),
    decreases s.len(),
{
    reveal(Seq::filter);
    if s.len() > 0 {
        let init = s.drop_last();
        assert(init.map_values(|e: (Seq<char>, C)| e.0) =~= s.map_values(
            |e: (Seq<char>, C)| e.0,
        ).drop_last());
        lemma_filter_keeps_unique(init, pred);
        let f = init.filter(pred);
        if pred(s.last()) {
            let sids = s.map_values(|e: (Seq<char>, C)| e.0);
            let fids = f.map_values(|e: (Seq<char>, C)| e.0);
            let ids = f.push(s.last()).map_values(|e: (Seq<char>, C)| e.0);
            assert(ids =~= fids.push(s.last().0));
            assert forall|a: int| 0 <= a < fids.len() implies fids[a] != s.last().0 by {
                init.lemma_filter_contains_rev(pred, f[a]);
                assert(f.contains(f[a]));
                assert(init.contains(f[a]));
                let k = choose|k: int| 0 <= k < init.len() && init[k] == f[a];
                assert(sids[k] == f[a].0);
                assert(sids[s.len() - 1] == s.last().0);
            }
            assert forall|a: int, b: int|
                0 <= a < ids.len() && 0 <= b < ids.len() && a != b implies ids[a] != ids[b] by {
                if a < fids.len() && b < fids.len() {
                    assert(ids[a] == fids[a]);
                    assert(ids[b] == fids[b]);
                } else if a < fids.len() {
                    assert(ids[a] == fids[a]);
                } else {
                    assert(ids[b] == fids[b]);
                }
            }
        }
    }
}

/// What a market data socket streams.
#[derive(Clone, Copy, Debug, PartialEq, Eq, Structural)]
pub enum SocketKind {
    Ticks,
    Candles,
}

/// The candle periods an adapter streams for a subscribed instrument.
pub open spec fn spec_streamed_timeframes() -> Seq<Timeframe> {
    seq![
        Timeframe::OneM,
        Timeframe::FiveM,
        Timeframe::FifteenM,
        Timeframe::ThirtyM,
        Timeframe::OneH,
        Timeframe::TwoH,
        Timeframe::FourH,
        Timeframe::OneD,
    ]
}

/// The candle periods an adapter streams for a subscribed instrument.
pub fn streamed_timeframes() -> (timeframes: Vec<Timeframe>)
    ensures
        timeframes@ == spec_streamed_timeframes(),
{
    let timeframes = vec![
        Timeframe::OneM,
        Timeframe::FiveM,
        Timeframe::FifteenM,
        Timeframe::ThirtyM,
        Timeframe::OneH,
        Timeframe::TwoH,
        Timeframe::FourH,
        Timeframe::OneD,
    ];
    assert(timeframes@ =~= spec_streamed_timeframes());
    timeframes
}

} // verus!
