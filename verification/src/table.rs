use vstd::pervasive::VecAdditionalExecFns;
use vstd::prelude::*;

verus! {

/// Keys of the executable tables: fixed-width values whose executable
/// equality test agrees with mathematical equality.
pub trait TableKey: Copy + Sized {
    fn key_eq(&self, other: &Self) -> (r: bool)
        ensures
            r == (*self == *other),
    ;
}

impl TableKey for u64 {
    fn key_eq(&self, other: &Self) -> (r: bool) {
        *self == *other
    }
}

impl TableKey for u128 {
    fn key_eq(&self, other: &Self) -> (r: bool) {
        *self == *other
    }
}

/// The mathematical contents of an entry list; a later entry for a key
/// overrides an earlier one.
pub open spec fn assoc_map<K, V>(s: Seq<(K, V)>) -> Map<K, V>
    decreases s.len(),
{
    if s.len() == 0 {
        Map::empty()
    } else {
        assoc_map(s.drop_last()).insert(s.last().0, s.last().1)
    }
}

/// No key appears in two entries.
pub open spec fn distinct_keys<K, V>(s: Seq<(K, V)>) -> bool {
    forall|i: int, j: int| 0 <= i < j < s.len() ==> (#[trigger] s[i]).0 != (#[trigger] s[j]).0
}

/// In a duplicate-free entry list, every entry is reflected in the contents
/// map, and every key of the contents map comes from some entry.
pub proof fn lemma_assoc_map_index<K, V>(s: Seq<(K, V)>)
    requires
        distinct_keys(s),
    ensures
        forall|i: int| 0 <= i < s.len() ==> assoc_map(s).dom().contains((#[trigger] s[i]).0),
        forall|i: int| 0 <= i < s.len() ==> assoc_map(s)[(#[trigger] s[i]).0] == s[i].1,
        forall|k: K| #[trigger] assoc_map(s).dom().contains(k) ==> exists|i: int|
            0 <= i < s.len() && (#[trigger] s[i]).0 == k,
    decreases s.len(),
{
    if s.len() == 0 {
    } else {
        let dl = s.drop_last();
        let last = s.last();
        assert(forall|i: int| 0 <= i < dl.len() ==> #[trigger] dl[i] == s[i]);
        lemma_assoc_map_index(dl);
        assert forall|i: int| 0 <= i < s.len() implies assoc_map(s).dom().contains(
            (#[trigger] s[i]).0,
        ) && assoc_map(s)[s[i].0] == s[i].1 by {
            if i < s.len() - 1 {
                assert(dl[i] == s[i]);
                assert(s[i].0 != last.0);
            } else {
                assert(s[i] == last);
            }
        }
        assert forall|k: K| #[trigger] assoc_map(s).dom().contains(k) implies exists|i: int|
            0 <= i < s.len() && (#[trigger] s[i]).0 == k by {
            if k == last.0 {
                assert(0 <= s.len() - 1 < s.len() && s[s.len() - 1].0 == k);
            } else {
                assert(assoc_map(dl).dom().contains(k));
                let j = choose|j: int| 0 <= j < dl.len() && (#[trigger] dl[j]).0 == k;
                assert(dl[j] == s[j]);
                assert(0 <= j < s.len() && s[j].0 == k);
            }
        }
    }
}

/// Appending a fresh entry inserts its binding into the contents map.
pub proof fn lemma_assoc_map_push<K, V>(s: Seq<(K, V)>, key: K, value: V)
    ensures
        assoc_map(s.push((key, value))) == assoc_map(s).insert(key, value),
{
    let p = s.push((key, value));
    assert(p.drop_last() =~= s);
    assert(p.last() == (key, value));
}

/// Dropping the last entry of a duplicate-free entry list removes exactly
/// its binding.
pub proof fn lemma_assoc_map_pop<K, V>(s: Seq<(K, V)>)
    requires
        distinct_keys(s),
        s.len() > 0,
    ensures
        !assoc_map(s.drop_last()).dom().contains(s.last().0),
        assoc_map(s.drop_last()) == assoc_map(s).remove(s.last().0),
{
    let dl = s.drop_last();
    let last = s.last();
    assert(forall|i: int| 0 <= i < dl.len() ==> #[trigger] dl[i] == s[i]);
    lemma_assoc_map_index(dl);
    if assoc_map(dl).dom().contains(last.0) {
        let j = choose|j: int| 0 <= j < dl.len() && (#[trigger] dl[j]).0 == last.0;
        assert(s[j].0 == s[s.len() - 1].0);
        assert(false);
    }
    assert(assoc_map(dl) =~= assoc_map(dl).insert(last.0, last.1).remove(last.0));
}

/// Overwriting the entry that holds a key updates exactly its binding.
pub proof fn lemma_assoc_map_update<K, V>(s: Seq<(K, V)>, i: int, value: V)
    requires
        distinct_keys(s),
        0 <= i < s.len(),
    ensures
        distinct_keys(s.update(i, (s[i].0, value))),
        assoc_map(s.update(i, (s[i].0, value))) == assoc_map(s).insert(s[i].0, value),
{
    let key = s[i].0;
    let t = s.update(i, (key, value));
    assert(forall|j: int| 0 <= j < t.len() ==> (#[trigger] t[j]).0 == s[j].0);
    assert(distinct_keys(t));
    lemma_assoc_map_index(s);
    lemma_assoc_map_index(t);
    assert forall|k: K| assoc_map(t).dom().contains(k)
        <==> assoc_map(s).insert(key, value).dom().contains(k) by {
        if assoc_map(t).dom().contains(k) {
            let j = choose|j: int| 0 <= j < t.len() && (#[trigger] t[j]).0 == k;
            assert(s[j].0 == k);
        }
        if assoc_map(s).insert(key, value).dom().contains(k) {
            if k != key {
                let j = choose|j: int| 0 <= j < s.len() && (#[trigger] s[j]).0 == k;
                assert(t[j].0 == k);
            } else {
                assert(t[i].0 == k);
            }
        }
    }
    assert forall|k: K| #[trigger] assoc_map(t).dom().contains(k) implies assoc_map(t)[k]
        == assoc_map(s).insert(key, value)[k] by {
        let j = choose|j: int| 0 <= j < t.len() && (#[trigger] t[j]).0 == k;
        if j == i {
            assert(assoc_map(t)[k] == value);
        } else {
            assert(s[j].0 == k);
            assert(k != key);
            assert(assoc_map(t)[k] == t[j].1);
            assert(t[j].1 == s[j].1);
        }
    }
    assert(assoc_map(t) =~= assoc_map(s).insert(key, value));
}

/// An executable finite map from fixed-width keys to copyable values,
/// backed by a duplicate-free entry vector.
pub struct Table<K: TableKey, V: Copy> {
    entries: Vec<(K, V)>,
}

impl<K: TableKey, V: Copy> View for Table<K, V> {
    type V = Map<K, V>;

    closed spec fn view(&self) -> Map<K, V> {
        assoc_map(self.entries@)
    }
}

impl<K: TableKey, V: Copy> Table<K, V> {
    #[verifier::type_invariant]
    spec fn type_inv(self) -> bool {
        distinct_keys(self.entries@)
    }

    /// An empty table.
    pub fn new() -> (t: Self)
        ensures
            t@ == Map::<K, V>::empty(),
    {
        Table { entries: Vec::new() }
    }

    /// Point lookup, without mutation.
    #[verifier::loop_isolation(false)]
    pub fn get(&self, key: K) -> (r: Option<V>)
        ensures
            r == if self@.dom().contains(key) {
                Some(self@[key])
            } else {
                None::<V>
            },
    {
        proof {
            use_type_invariant(&*self);
            lemma_assoc_map_index(self.entries@);
        }
        let mut i: usize = 0;
        while i < self.entries.len()
            invariant
                i <= self.entries@.len(),
                forall|j: int| 0 <= j < i ==> (#[trigger] self.entries@[j]).0 != key,
            decreases self.entries@.len() - i,
        {
            if self.entries[i].0.key_eq(&key) {
                assert(self.entries@[i as int].0 == key);
                return Some(self.entries[i].1);
            }
            i += 1;
        }
        None
    }

    /// Binds `key` to `value`, replacing any earlier binding.
    #[verifier::loop_isolation(false)]
    pub fn insert(&mut self, key: K, value: V)
        ensures
            final(self)@ == old(self)@.insert(key, value),
    {
        proof {
            use_type_invariant(&*self);
        }
        let ghost s0 = self.entries@;
        let mut entries: Vec<(K, V)> = Vec::new();
        core::mem::swap(&mut entries, &mut self.entries);
        let mut i: usize = 0;
        while i < entries.len()
            invariant
                i <= entries@.len(),
                entries@ == s0,
                forall|j: int| 0 <= j < i ==> (#[trigger] entries@[j]).0 != key,
            decreases entries@.len() - i,
        {
            if entries[i].0.key_eq(&key) {
                proof {
                    lemma_assoc_map_update(s0, i as int, value);
                }
                entries.set(i, (key, value));
                self.entries = entries;
                return;
            }
            i += 1;
        }
        proof {
            lemma_assoc_map_push(s0, key, value);
        }
        entries.push((key, value));
        self.entries = entries;
    }

    /// An independent deep copy: the result shares no storage with the
    /// receiver.
    #[verifier::loop_isolation(false)]
    pub fn duplicate(&self) -> (t: Self)
        ensures
            t@ == self@,
    {
        proof {
            use_type_invariant(&*self);
        }
        let mut entries: Vec<(K, V)> = Vec::new();
        let n = self.entries.len();
        let mut i: usize = 0;
        while i < n
            invariant
                i <= n,
                entries@ == self.entries@.subrange(0, i as int),
            decreases n - i,
        {
            entries.push(self.entries[i]);
            proof {
                assert(entries@ =~= self.entries@.subrange(0, i as int + 1));
            }
            i += 1;
        }
        assert(entries@ =~= self.entries@);
        Table { entries }
    }
}

} // verus!
