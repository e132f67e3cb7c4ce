//! A small keyed store: an association list with unique keys whose
//! view is a finite map.
use vstd::prelude::*;

verus! {

/// Keys that can be compared in executable code with exact equality.
pub trait StoreKey: Sized + Copy {
    fn same(&self, other: &Self) -> (r: bool)
        ensures
            r == (*self == *other),
    ;
}

/// The map that a sequence of entries denotes: later entries win.
pub open spec fn entries_map<K, V>(s: Seq<(K, V)>) -> Map<K, V>
    decreases s.len(),
{
    if s.len() == 0 {
        Map::empty()
    } else {
        entries_map(s.drop_last()).insert(s.last().0, s.last().1)
    }
}

pub open spec fn keys_unique<K, V>(s: Seq<(K, V)>) -> bool {
    forall|i: int, j: int| 0 <= i < j < s.len() ==> #[trigger] s[i].0 != #[trigger] s[j].0
}

proof fn lemma_entries_map_contains<K, V>(s: Seq<(K, V)>, k: K)
    ensures
        entries_map(s).contains_key(k) <==> exists|i: int| 0 <= i < s.len() && #[trigger] s[i].0 == k,
    decreases s.len(),
{
    if s.len() > 0 {
        lemma_entries_map_contains(s.drop_last(), k);
        if entries_map(s).contains_key(k) && s.last().0 != k {
            let i = choose|i: int| 0 <= i < s.drop_last().len() && #[trigger] s.drop_last()[i].0 == k;
            assert(s[i].0 == k);
        }
        if exists|i: int| 0 <= i < s.len() && #[trigger] s[i].0 == k {
            let i = choose|i: int| 0 <= i < s.len() && #[trigger] s[i].0 == k;
            if i < s.len() - 1 {
                assert(s.drop_last()[i].0 == k);
            }
        }
    }
}

proof fn lemma_entries_map_value<K, V>(s: Seq<(K, V)>, i: int)
    requires
        keys_unique(s),
        0 <= i < s.len(),
    ensures
        entries_map(s).contains_key(s[i].0),
        entries_map(s)[s[i].0] == s[i].1,
    decreases s.len(),
{
    if i < s.len() - 1 {
        assert(s.drop_last()[i] == s[i]);
        assert(keys_unique(s.drop_last()));
        lemma_entries_map_value(s.drop_last(), i);
        assert(s[i].0 != s[s.len() - 1].0);
    }
}

proof fn lemma_entries_map_update<K, V>(s: Seq<(K, V)>, i: int, v: V)
    requires
        keys_unique(s),
        0 <= i < s.len(),
    ensures
        keys_unique(s.update(i, (s[i].0, v))),
        entries_map(s.update(i, (s[i].0, v))) == entries_map(s).insert(s[i].0, v),
{
    let t = s.update(i, (s[i].0, v));
    assert(keys_unique(t));
    let k = s[i].0;
    assert forall|x: K| #[trigger] entries_map(t).contains_key(x) <==> entries_map(s).insert(k, v).contains_key(x) by {
        lemma_entries_map_contains(t, x);
        lemma_entries_map_contains(s, x);
        assert(t.len() == s.len());
        if x == k {
            assert(t[i].0 == x);
            assert(s[i].0 == x);
        } else {
            if entries_map(s).contains_key(x) {
                let j = choose|j: int| 0 <= j < s.len() && #[trigger] s[j].0 == x;
                assert(t[j].0 == x);
            }
            if entries_map(t).contains_key(x) {
                let j = choose|j: int| 0 <= j < t.len() && #[trigger] t[j].0 == x;
                assert(s[j].0 == x);
            }
        }
    }
    assert forall|x: K| #[trigger] entries_map(t).contains_key(x) implies entries_map(t)[x] == entries_map(s).insert(k, v)[x] by {
        lemma_entries_map_contains(t, x);
        let j = choose|j: int| 0 <= j < t.len() && #[trigger] t[j].0 == x;
        lemma_entries_map_value(t, j);
        if j != i {
            assert(s[j] == t[j]);
            lemma_entries_map_value(s, j);
        }
    }
    assert(entries_map(t) =~= entries_map(s).insert(k, v));
}

/// A finite map from `K` to `V`, kept as a list of entries with distinct keys.
pub struct KeyedStore<K, V> {
    entries: Vec<(K, V)>,
}

impl<K, V> View for KeyedStore<K, V> {
    type V = Map<K, V>;

    closed spec fn view(&self) -> Map<K, V> {
        entries_map(self.entries@)
    }
}

impl<K, V> KeyedStore<K, V> {
    #[verifier::type_invariant]
    spec fn distinct_keys(self) -> bool {
        keys_unique(self.entries@)
    }
}

impl<K: StoreKey, V: Copy> KeyedStore<K, V> {
    /// An empty store.
    pub fn new() -> (r: Self)
        ensures
            r@ == Map::<K, V>::empty(),
    {
        let r = KeyedStore { entries: Vec::new() };
        assert(r@ =~= Map::<K, V>::empty());
        r
    }

    fn position(&self, key: &K) -> (r: Option<usize>)
        ensures
            match r {
                Some(i) => i < self.entries@.len() && self.entries@[i as int].0 == *key,
                None => forall|j: int| 0 <= j < self.entries@.len() ==> #[trigger] self.entries@[j].0 != *key,
            },
    {
        let mut i: usize = 0;
        while i < self.entries.len()
            invariant
                i <= self.entries@.len(),
                forall|j: int| 0 <= j < i ==> #[trigger] self.entries@[j].0 != *key,
            decreases self.entries@.len() - i,
        {
            let (k, _) = self.entries[i];
            if k.same(key) {
                return Some(i);
            }
            i = i + 1;
        }
        None
    }

    /// The value stored under `key`, if any.
    pub fn get(&self, key: &K) -> (r: Option<V>)
        ensures
            r == (if self@.contains_key(*key) { Some(self@[*key]) } else { None::<V> }),
    {
        proof {
            use_type_invariant(self);
            lemma_entries_map_contains(self.entries@, *key);
        }
        match self.position(key) {
            Some(i) => {
                proof {
                    lemma_entries_map_value(self.entries@, i as int);
                }
                let (_, v) = self.entries[i];
                Some(v)
            },
            None => None,
        }
    }

    /// Stores `value` under `key`, replacing any earlier value.
    pub fn insert(&mut self, key: K, value: V)
        ensures
            final(self)@ == old(self)@.insert(key, value),
    {
        proof {
            use_type_invariant(&*self);
        }
        let ghost old_entries = self.entries@;
        match self.position(&key) {
            Some(i) => {
                proof {
                    lemma_entries_map_update(old_entries, i as int, value);
                }
                let mut entries: Vec<(K, V)> = Vec::new();
                std::mem::swap(&mut entries, &mut self.entries);
                entries.set(i, (key, value));
                self.entries = entries;
            },
            None => {
                let mut entries: Vec<(K, V)> = Vec::new();
                std::mem::swap(&mut entries, &mut self.entries);
                entries.push((key, value));
                assert(entries@.drop_last() =~= old_entries);
                self.entries = entries;
            },
        }
    }
}

} // verus!
