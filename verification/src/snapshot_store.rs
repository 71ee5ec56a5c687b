use crate::table::{
    assoc_map, distinct_keys, lemma_assoc_map_index, lemma_assoc_map_pop, lemma_assoc_map_push,
    lemma_assoc_map_update, TableKey,
};
use crate::types::SnapshotId;
use vstd::pervasive::VecAdditionalExecFns;
use vstd::prelude::*;

verus! {

/// The counter value after one identifier is handed out: it saturates
/// instead of wrapping, so an identifier is never reused.
pub open spec fn next_counter(id: SnapshotId) -> SnapshotId {
    if id == u64::MAX {
        id
    } else {
        (id + 1) as SnapshotId
    }
}

/// Which identifiers survive `remove(id)` while the next-id counter stands
/// at `counter`: `id` itself goes, and so does every identifier in the open
/// interval (id, counter).
pub open spec fn cascade_keeps(k: SnapshotId, id: SnapshotId, counter: SnapshotId) -> bool {
    k != id && !(id < k && k < counter)
}

/// The store's contents after a cascading removal.
pub open spec fn cascade_remove<T>(
    m: Map<SnapshotId, T>,
    id: SnapshotId,
    counter: SnapshotId,
) -> Map<SnapshotId, T> {
    Map::new(|k: SnapshotId| m.dom().contains(k) && cascade_keeps(k, id, counter), |k: SnapshotId| m[k])
}

/// The registry of captured snapshots: stored snapshots keyed by identifier,
/// plus a monotonically increasing next-identifier counter. Identifiers are
/// handed out in strictly increasing order starting at 0 and are never
/// reused, not even after removal.
pub struct Snapshots<T> {
    id: SnapshotId,
    entries: Vec<(SnapshotId, T)>,
}

impl<T> View for Snapshots<T> {
    type V = Map<SnapshotId, T>;

    closed spec fn view(&self) -> Map<SnapshotId, T> {
        assoc_map(self.entries@)
    }
}

impl<T> Snapshots<T> {
    /// The identifier the next insertion receives.
    pub closed spec fn id_counter(&self) -> SnapshotId {
        self.id
    }

    #[verifier::type_invariant]
    spec fn type_inv(self) -> bool {
        &&& distinct_keys(self.entries@)
        &&& forall|i: int|
            0 <= i < self.entries@.len() ==> (#[trigger] self.entries@[i]).0 < self.id || self.id
                == u64::MAX
    }

    /// Allocates the next identifier, saturating instead of wrapping.
    fn next_id(&mut self) -> (id: SnapshotId)
        ensures
            id == old(self).id_counter(),
            final(self).id_counter() == next_counter(old(self).id_counter()),
            final(self)@ == old(self)@,
    {
        proof {
            use_type_invariant(&*self);
        }
        let id = self.id;
        self.id = if id == u64::MAX {
            u64::MAX
        } else {
            id + 1
        };
        id
    }

    /// Returns the snapshot with the given identifier, without mutation.
    #[verifier::loop_isolation(false)]
    pub fn get(&self, id: SnapshotId) -> (r: Option<&T>)
        ensures
            match r {
                Some(v) => self@.dom().contains(id) && *v == self@[id],
                None => !self@.dom().contains(id),
            },
    {
        proof {
            use_type_invariant(&*self);
            lemma_assoc_map_index(self.entries@);
        }
        let mut i: usize = 0;
        while i < self.entries.len()
            invariant
                i <= self.entries@.len(),
                forall|j: int| 0 <= j < i ==> (#[trigger] self.entries@[j]).0 != id,
            decreases self.entries@.len() - i,
        {
            if self.entries[i].0.key_eq(&id) {
                assert(self.entries@[i as int].0 == id);
                return Some(&self.entries[i].1);
            }
            i += 1;
        }
        None
    }

    /// Captures the new snapshot under the next identifier and returns that
    /// identifier.
    #[verifier::loop_isolation(false)]
    pub fn insert(&mut self, snapshot: T) -> (id: SnapshotId)
        ensures
            id == old(self).id_counter(),
            final(self).id_counter() == next_counter(old(self).id_counter()),
            final(self)@ == old(self)@.insert(id, snapshot),
    {
        let id = self.next_id();
        proof {
            use_type_invariant(&*self);
        }
        let ghost s0 = self.entries@;
        let mut entries: Vec<(SnapshotId, T)> = Vec::new();
        core::mem::swap(&mut entries, &mut self.entries);
        let n = entries.len();
        let mut i: usize = 0;
        let mut hit: Option<usize> = None;
        while i < n
            invariant
                i <= n,
                n == entries@.len(),
                entries@ == s0,
                match hit {
                    Some(j) => j < n && s0[j as int].0 == id,
                    None => forall|j: int| 0 <= j < i ==> (#[trigger] s0[j]).0 != id,
                },
            decreases n - i,
        {
            if hit.is_none() && entries[i].0.key_eq(&id) {
                hit = Some(i);
            }
            i += 1;
        }
        match hit {
            Some(j) => {
                proof {
                    assert(s0[j as int].0 == id);
                    lemma_assoc_map_update(s0, j as int, snapshot);
                }
                entries.set(j, (id, snapshot));
                proof {
                    assert forall|a: int| 0 <= a < entries@.len() implies (#[trigger] entries@[a]).0
                        < self.id || self.id == u64::MAX by {
                        assert(entries@[a].0 == s0[a].0);
                    }
                }
            },
            None => {
                proof {
                    lemma_assoc_map_push(s0, id, snapshot);
                }
                entries.push((id, snapshot));
                proof {
                    assert forall|a: int, b: int| 0 <= a < b < entries@.len() implies (
                    #[trigger] entries@[a]).0 != (#[trigger] entries@[b]).0 by {
                        if b < s0.len() {
                            assert(entries@[a] == s0[a] && entries@[b] == s0[b]);
                        } else {
                            assert(entries@[a] == s0[a] && entries@[b] == (id, snapshot));
                        }
                    }
                    assert forall|a: int| 0 <= a < entries@.len() implies (#[trigger] entries@[a]).0
                        < self.id || self.id == u64::MAX by {
                        if a < s0.len() {
                            assert(entries@[a] == s0[a]);
                        } else {
                            assert(entries@[a] == (id, snapshot));
                        }
                    }
                }
            },
        }
        self.entries = entries;
        id
    }

    /// Removes the snapshot with `id` and returns it, and additionally
    /// removes every snapshot whose identifier lies strictly between `id`
    /// and the current next-identifier; the cascade runs by numeric ordering
    /// whether or not `id` itself is present. The counter is untouched, so
    /// no identifier is ever handed out twice.
    #[verifier::loop_isolation(false)]
    pub fn remove(&mut self, id: SnapshotId) -> (r: Option<T>)
        ensures
            final(self).id_counter() == old(self).id_counter(),
            final(self)@ == cascade_remove(old(self)@, id, old(self).id_counter()),
            match r {
                Some(v) => old(self)@.dom().contains(id) && v == old(self)@[id],
                None => !old(self)@.dom().contains(id),
            },
    {
        proof {
            use_type_invariant(&*self);
            lemma_assoc_map_index(self.entries@);
        }
        let ghost s0 = self.entries@;
        let ghost m0 = assoc_map(s0);
        let ghost c0 = self.id;
        proof {
            assert forall|k: SnapshotId| #[trigger] m0.dom().contains(k) implies k < c0 || c0
                == u64::MAX by {
                let j = choose|j: int| 0 <= j < s0.len() && (#[trigger] s0[j]).0 == k;
            }
        }
        let counter = self.id;
        let mut rest: Vec<(SnapshotId, T)> = Vec::new();
        core::mem::swap(&mut rest, &mut self.entries);
        let mut kept: Vec<(SnapshotId, T)> = Vec::new();
        let mut found: Option<T> = None;
        while rest.len() > 0
            invariant
                distinct_keys(rest@),
                distinct_keys(kept@),
                counter == c0,
                forall|k: SnapshotId|
                    #[trigger] assoc_map(rest@).dom().contains(k) ==> m0.dom().contains(k)
                        && assoc_map(rest@)[k] == m0[k],
                forall|k: SnapshotId|
                    #[trigger] assoc_map(kept@).dom().contains(k) ==> m0.dom().contains(k)
                        && assoc_map(kept@)[k] == m0[k] && cascade_keeps(k, id, c0) && !assoc_map(
                        rest@,
                    ).dom().contains(k),
                forall|k: SnapshotId|
                    m0.dom().contains(k) && cascade_keeps(k, id, c0) ==> assoc_map(
                        kept@,
                    ).dom().contains(k) || assoc_map(rest@).dom().contains(k),
                match found {
                    Some(_) => m0.dom().contains(id) && !assoc_map(rest@).dom().contains(id),
                    None => m0.dom().contains(id) ==> assoc_map(rest@).dom().contains(id),
                },
                found matches Some(v) ==> m0.dom().contains(id) && v == m0[id],
            decreases rest@.len(),
        {
            proof {
                lemma_assoc_map_pop(rest@);
                lemma_assoc_map_index(rest@);
                lemma_assoc_map_index(kept@);
            }
            let ghost rest_pre = rest@;
            let entry = rest.pop().unwrap();
            let k = entry.0;
            proof {
                assert(entry == rest_pre.last());
                assert(assoc_map(rest_pre).dom().contains(k));
                assert(assoc_map(rest_pre)[k] == entry.1);
            }
            if k.key_eq(&id) {
                found = Some(entry.1);
            } else if k < id || k >= counter {
                proof {
                    lemma_assoc_map_push(kept@, entry.0, entry.1);
                    assert forall|a: int, b: int|
                        0 <= a < b < kept@.push(entry).len() implies (#[trigger] kept@.push(
                        entry,
                    )[a]).0 != (#[trigger] kept@.push(entry)[b]).0 by {
                        if b < kept@.len() {
                            assert(kept@.push(entry)[a] == kept@[a] && kept@.push(entry)[b]
                                == kept@[b]);
                        } else {
                            assert(kept@.push(entry)[a] == kept@[a] && kept@.push(entry)[b]
                                == entry);
                            assert(assoc_map(kept@).dom().contains(kept@[a].0));
                        }
                    }
                }
                kept.push(entry);
            }
        }
        proof {
            lemma_assoc_map_index(kept@);
            assert forall|i: int| 0 <= i < kept@.len() implies (#[trigger] kept@[i]).0 < self.id
                || self.id == u64::MAX by {
                let k = kept@[i].0;
                assert(assoc_map(kept@).dom().contains(k));
                assert(m0.dom().contains(k));
            }
            assert(assoc_map(kept@) =~= cascade_remove(m0, id, c0));
        }
        self.entries = kept;
        found
    }
}

impl<T> Default for Snapshots<T> {
    /// An empty store; the first snapshot inserted receives identifier 0.
    fn default() -> (s: Self)
        ensures
            s@ == Map::<SnapshotId, T>::empty(),
            s.id_counter() == 0,
    {
        Snapshots { id: 0, entries: Vec::new() }
    }
}

/// Identifier monotonicity: until the counter saturates, each insertion's
/// identifier is strictly below the identifier of the next insertion, with
/// no gap between them.
pub proof fn lemma_insert_ids_monotonic(counter: SnapshotId)
    requires
        counter < u64::MAX,
    ensures
        next_counter(counter) == counter + 1,
        counter < next_counter(counter),
{
}

/// Cascading revert: removing a snapshot also removes every snapshot taken
/// after it, so a later lookup or revert aimed at one of those finds
/// nothing.
pub proof fn lemma_cascade_removes_later<T>(
    m: Map<SnapshotId, T>,
    counter: SnapshotId,
    t1: SnapshotId,
    t2: SnapshotId,
)
    requires
        t1 < t2 < counter,
    ensures
        !cascade_remove(m, t1, counter).dom().contains(t1),
        !cascade_remove(m, t1, counter).dom().contains(t2),
{
}

} // verus!
