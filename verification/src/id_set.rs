//! A set of 128-bit identifiers, kept as a vector without repetitions.

use vstd::prelude::*;

verus! {

/// A finite set of identifiers; each identifier is held once.
#[derive(Debug)]
pub struct IdSet {
    ids: Vec<u128>,
}

impl View for IdSet {
    type V = Set<u128>;

    closed spec fn view(&self) -> Set<u128> {
        self.ids@.to_set()
    }
}

impl IdSet {
    #[verifier::type_invariant]
    spec fn held_once(&self) -> bool {
        self.ids@.no_duplicates()
    }

    /// The empty set.
    pub fn new() -> (set: IdSet)
        ensures
            set@ == Set::<u128>::empty(),
    {
        let set = IdSet { ids: Vec::new() };
        assert(set@ =~= Set::<u128>::empty());
        set
    }

    /// The set that holds `id` alone.
    pub fn singleton(id: u128) -> (set: IdSet)
        ensures
            set@ == Set::<u128>::empty().insert(id),
    {
        let mut ids: Vec<u128> = Vec::new();
        ids.push(id);
        let set = IdSet { ids };
        assert(set@ =~= Set::<u128>::empty().insert(id)) by {
            assert(set.ids@[0] == id);
        }
        set
    }

    /// Whether `id` is in the set.
    pub fn contains(&self, id: u128) -> (found: bool)
        ensures
            found == self@.contains(id),
    {
        let mut i: usize = 0;
        while i < self.ids.len()
            invariant
                i <= self.ids.len(),
                forall|j: int| 0 <= j < i ==> self.ids@[j] != id,
            decreases self.ids.len() - i,
        {
            if self.ids[i] == id {
                assert(self.ids@.contains(id));
                return true;
            }
            i = i + 1;
        }
        false
    }

    /// Whether the set is empty.
    pub fn is_empty(&self) -> (empty: bool)
        ensures
            empty == (self@ == Set::<u128>::empty()),
    {
        if self.ids.len() == 0 {
            assert(self@ =~= Set::<u128>::empty());
            true
        } else {
            assert(self@.contains(self.ids@[0]));
            false
        }
    }

    /// Adds `id` to the set.
    pub fn insert(&mut self, id: u128)
        ensures
            final(self)@ == old(self)@.insert(id),
    {
        proof {
            use_type_invariant(&*self);
        }
        if !self.contains(id) {
            let ghost before = self.ids@;
            let mut ids: Vec<u128> = Vec::new();
            std::mem::swap(&mut ids, &mut self.ids);
            ids.push(id);
            assert(ids@.no_duplicates()) by {
                assert forall|i: int, j: int| 0 <= i < ids@.len() && 0 <= j < ids@.len() && i != j implies ids@[i] != ids@[j] by {
                    if i < before.len() && j < before.len() {
                    } else if i < before.len() {
                        assert(before.contains(ids@[i]));
                    } else {
                        assert(before.contains(ids@[j]));
                    }
                }
            }
            self.ids = ids;
            assert(self@ =~= old(self)@.insert(id)) by {
                assert forall|x: u128| self@.contains(x) <==> old(self)@.contains(x) || x == id by {
                    if x == id {
                        assert(self.ids@[before.len() as int] == id);
                    }
                    if old(self)@.contains(x) {
                        let k = choose|k: int| 0 <= k < before.len() && before[k] == x;
                        assert(self.ids@[k] == x);
                    }
                    if self@.contains(x) && x != id {
                        let k = choose|k: int| 0 <= k < self.ids@.len() && self.ids@[k] == x;
                        assert(before[k] == x);
                    }
                }
            }
        } else {
            assert(self@ =~= old(self)@.insert(id));
        }
    }

    /// Adds every identifier of `other` to the set.
    pub fn extend(&mut self, other: &IdSet)
        ensures
            final(self)@ == old(self)@.union(other@),
    {
        let mut i: usize = 0;
        while i < other.ids.len()
            invariant
                i <= other.ids.len(),
                self@ == old(self)@.union(other.ids@.take(i as int).to_set()),
            decreases other.ids.len() - i,
        {
            self.insert(other.ids[i]);
            let ghost longer = other.ids@.take(i + 1);
            let ghost shorter = other.ids@.take(i as int);
            let ghost added = other.ids@[i as int];
            assert(longer.to_set() =~= shorter.to_set().insert(added)) by {
                assert forall|x: u128| longer.contains(x) <==> shorter.contains(x) || x == added by {
                    if longer.contains(x) {
                        let k = choose|k: int| 0 <= k < longer.len() && longer[k] == x;
                        if k < i {
                            assert(shorter[k] == x);
                        }
                    }
                    if shorter.contains(x) {
                        let k = choose|k: int| 0 <= k < shorter.len() && shorter[k] == x;
                        assert(longer[k] == x);
                    }
                    if x == added {
                        assert(longer[i as int] == x);
                    }
                }
            }
            assert(self@ =~= old(self)@.union(other.ids@.take(i + 1).to_set()));
            i = i + 1;
        }
        assert(other.ids@.take(other.ids.len() as int) =~= other.ids@);
        assert(self@ =~= old(self)@.union(other@));
    }

    /// Removes `id` from the set.
    pub fn remove(&mut self, id: u128)
        ensures
            final(self)@ == old(self)@.remove(id),
    {
        proof {
            use_type_invariant(&*self);
        }
        let ghost before = self.ids@;
        let mut kept: Vec<u128> = Vec::new();
        let mut i: usize = 0;
        while i < self.ids.len()
            invariant
                i <= self.ids.len(),
                before == self.ids@,
                before.no_duplicates(),
                kept@.no_duplicates(),
                forall|x: u128| kept@.contains(x) <==> (before.take(i as int).contains(x) && x != id),
            decreases self.ids.len() - i,
        {
            let x = self.ids[i];
            let ghost prev_kept = kept@;
            if x != id {
                assert(!kept@.contains(x)) by {
                    let shorter = before.take(i as int);
                    if kept@.contains(x) {
                        let k = choose|k: int| 0 <= k < shorter.len() && shorter[k] == x;
                        assert(before[k] == before[i as int]);
                    }
                }
                kept.push(x);
            }
            let ghost longer = before.take(i + 1);
            let ghost shorter = before.take(i as int);
            assert forall|y: u128| kept@.contains(y) <==> (longer.contains(y) && y != id) by {
                if x != id {
                    assert(kept@ == prev_kept.push(x));
                    if kept@.contains(y) && y != x {
                        let k = choose|k: int| 0 <= k < kept@.len() && kept@[k] == y;
                        assert(prev_kept[k] == y);
                    }
                    if prev_kept.contains(y) {
                        let k = choose|k: int| 0 <= k < prev_kept.len() && prev_kept[k] == y;
                        assert(kept@[k] == y);
                    }
                    if y == x {
                        assert(kept@[prev_kept.len() as int] == y);
                    }
                }
                if longer.contains(y) {
                    let k = choose|k: int| 0 <= k < longer.len() && longer[k] == y;
                    if k < i {
                        assert(shorter[k] == y);
                    }
                }
                if shorter.contains(y) {
                    let k = choose|k: int| 0 <= k < shorter.len() && shorter[k] == y;
                    assert(longer[k] == y);
                }
                if y == x {
                    assert(longer[i as int] == y);
                }
            }
            i = i + 1;
        }
        assert(before.take(before.len() as int) =~= before);
        self.ids = kept;
        assert(self@ =~= old(self)@.remove(id));
    }

    /// A copy of the set.
    pub fn duplicate(&self) -> (copy: IdSet)
        ensures
            copy@ == self@,
    {
        proof {
            use_type_invariant(self);
        }
        let copy = IdSet { ids: vstd::slice::slice_to_vec(self.ids.as_slice()) };
        copy
    }

    /// The identifiers, each once, in the order they were added.
    pub fn to_vec(&self) -> (ids: Vec<u128>)
        ensures
            ids@.to_set() == self@,
            ids@.no_duplicates(),
    {
        proof {
            use_type_invariant(self);
        }
        vstd::slice::slice_to_vec(self.ids.as_slice())
    }
}

} // verus!
