//! A small map from string keys to values, kept as two parallel vectors.
//!
//! Every table of the server (agents, open connections, commands that wait
//! for a reply) is keyed by an identifier string; this type gives them one
//! verified implementation whose model is a `Map<Seq<char>, V>`.
use vstd::prelude::*;

verus! {

/// The characters of every key of `keys`, in order.
pub open spec fn key_views(keys: Seq<String>) -> Seq<Seq<char>> {
    keys.map_values(|k: String| k@)
}

proof fn lemma_take_push_contains<A>(s: Seq<A>, i: int, k: A)
    requires
        0 <= i < s.len(),
    ensures
        s.take(i + 1).contains(k) <==> (s.take(i).contains(k) || k == s[i]),
{
    let long = s.take(i + 1);
    let short = s.take(i);
    if long.contains(k) {
        let j = choose|j: int| 0 <= j < long.len() && #[trigger] long[j] == k;
        if j < i {
            assert(short[j] == k);
        }
    }
    if short.contains(k) {
        let j = choose|j: int| 0 <= j < short.len() && #[trigger] short[j] == k;
        assert(long[j] == k);
    }
    if k == s[i] {
        assert(long[i] == k);
    }
}

proof fn lemma_push_contains<A>(s: Seq<A>, x: A, k: A)
    ensures
        s.push(x).contains(k) <==> (s.contains(k) || k == x),
{
    let t = s.push(x);
    if t.contains(k) {
        let j = choose|j: int| 0 <= j < t.len() && #[trigger] t[j] == k;
        if j < s.len() {
            assert(s[j] == k);
        }
    }
    if s.contains(k) {
        let j = choose|j: int| 0 <= j < s.len() && #[trigger] s[j] == k;
        assert(t[j] == k);
    }
    if k == x {
        assert(t[s.len() as int] == k);
    }
}

pub struct KeyedList<V> {
    keys: Vec<String>,
    vals: Vec<V>,
}

impl<V> KeyedList<V> {
    /// The keys, in insertion order.
    pub closed spec fn key_seq(&self) -> Seq<Seq<char>> {
        key_views(self.keys@)
    }

    /// Both vectors have the same length and no key occurs twice.
    pub closed spec fn wf(&self) -> bool {
        &&& self.keys@.len() == self.vals@.len()
        &&& self.key_seq().no_duplicates()
    }

    /// The map from each key to its value.
    pub closed spec fn view(&self) -> Map<Seq<char>, V> {
        Map::new(
            |k: Seq<char>| self.key_seq().contains(k),
            |k: Seq<char>|
                self.vals@[choose|i: int| 0 <= i < self.key_seq().len() && self.key_seq()[i] == k],
        )
    }

    proof fn lemma_view_at(&self, i: int)
        requires
            self.wf(),
            0 <= i < self.key_seq().len(),
        ensures
            self.view().dom().contains(self.key_seq()[i]),
            self.view()[self.key_seq()[i]] == self.vals@[i],
    {
        let k = self.key_seq()[i];
        assert(self.key_seq().contains(k));
        let j = choose|j: int| 0 <= j < self.key_seq().len() && self.key_seq()[j] == k;
        assert(j == i);
    }

    proof fn lemma_dom_finite_len(&self)
        requires
            self.wf(),
        ensures
            self.view().dom() == self.key_seq().to_set(),
            self.view().dom().finite(),
            self.view().dom().len() == self.keys@.len(),
    {
        assert(self.view().dom() =~= self.key_seq().to_set());
        self.key_seq().unique_seq_to_set();
    }

    /// An empty table.
    pub fn new() -> (r: Self)
        ensures
            r.wf(),
            r.view() == Map::<Seq<char>, V>::empty(),
    {
        let r = KeyedList { keys: Vec::new(), vals: Vec::new() };
        assert(r.key_seq() =~= Seq::<Seq<char>>::empty());
        assert(r.view() =~= Map::<Seq<char>, V>::empty());
        r
    }

    /// The number of keys.
    pub fn len(&self) -> (n: usize)
        requires
            self.wf(),
        ensures
            self.view().dom().finite(),
            n == self.view().dom().len(),
    {
        proof {
            self.lemma_dom_finite_len();
        }
        self.keys.len()
    }

    /// The position of `key`, if it is present.
    fn find(&self, key: &str) -> (r: Option<usize>)
        requires
            self.wf(),
        ensures
            match r {
                Some(i) => i < self.keys@.len() && self.key_seq()[i as int] == key@,
                None => !self.view().dom().contains(key@),
            },
    {
        let n = self.keys.len();
        let mut i: usize = 0;
        while i < n
            invariant
                n == self.keys@.len(),
                i <= n,
                forall|j: int| 0 <= j < i ==> self.key_seq()[j] != key@,
            decreases n - i,
        {
            if crate::text::str_eq(self.keys[i].as_str(), key) {
                return Some(i);
            }
            i = i + 1;
        }
        None
    }

    /// Whether `key` is present.
    pub fn contains(&self, key: &str) -> (b: bool)
        requires
            self.wf(),
        ensures
            b == self.view().dom().contains(key@),
    {
        match self.find(key) {
            Some(i) => {
                proof {
                    self.lemma_view_at(i as int);
                }
                true
            },
            None => false,
        }
    }

    /// The value stored under `key`, if any.
    pub fn get(&self, key: &str) -> (r: Option<&V>)
        requires
            self.wf(),
        ensures
            match r {
                Some(v) => self.view().dom().contains(key@) && *v == self.view()[key@],
                None => !self.view().dom().contains(key@),
            },
    {
        match self.find(key) {
            Some(i) => {
                proof {
                    self.lemma_view_at(i as int);
                }
                Some(&self.vals[i])
            },
            None => None,
        }
    }

    /// Stores `value` under `key`, replacing what was there.
    pub fn insert(&mut self, key: String, value: V)
        requires
            old(self).wf(),
        ensures
            final(self).wf(),
            final(self).view() == old(self).view().insert(key@, value),
    {
        match self.find(key.as_str()) {
            Some(i) => {
                let ghost old_self = *self;
                self.vals.set(i, value);
                proof {
                    assert(self.key_seq() == old_self.key_seq());
                    assert forall|k: Seq<char>| #[trigger] self.view().dom().contains(k)
                        implies self.view()[k] == old_self.view().insert(key@, value)[k] by {
                        let j = choose|j: int| 0 <= j < self.key_seq().len() && self.key_seq()[j] == k;
                        self.lemma_view_at(j);
                        if j != i {
                            old_self.lemma_view_at(j);
                        }
                    }
                    assert(self.view() =~= old_self.view().insert(key@, value));
                }
            },
            None => {
                let ghost old_self = *self;
                self.keys.push(key);
                self.vals.push(value);
                proof {
                    assert(self.key_seq() =~= old_self.key_seq().push(key@));
                    assert(self.key_seq().no_duplicates()) by {
                        assert forall|a: int, b: int|
                            0 <= a < self.key_seq().len() && 0 <= b < self.key_seq().len() && a != b
                            implies self.key_seq()[a] != self.key_seq()[b] by {
                            if a == old_self.key_seq().len() as int {
                                assert(old_self.key_seq().contains(old_self.key_seq()[b]));
                            } else if b == old_self.key_seq().len() as int {
                                assert(old_self.key_seq().contains(old_self.key_seq()[a]));
                            }
                        }
                    }
                    assert forall|k: Seq<char>| #[trigger] self.view().dom().contains(k)
                        implies self.view()[k] == old_self.view().insert(key@, value)[k] by {
                        let j = choose|j: int| 0 <= j < self.key_seq().len() && self.key_seq()[j] == k;
                        self.lemma_view_at(j);
                        if j < old_self.key_seq().len() {
                            old_self.lemma_view_at(j);
                        }
                    }
                    assert forall|k: Seq<char>|
                        #[trigger] old_self.view().insert(key@, value).dom().contains(k)
                        implies self.view().dom().contains(k) by {
                        if k != key@ {
                            let j = choose|j: int| 0 <= j < old_self.key_seq().len() && old_self.key_seq()[j] == k;
                            assert(self.key_seq()[j] == k);
                        } else {
                            assert(self.key_seq()[old_self.key_seq().len() as int] == k);
                        }
                    }
                    assert(self.view() =~= old_self.view().insert(key@, value));
                }
            },
        }
    }

    /// Removes `key` and hands back its value, if it was present.
    pub fn remove(&mut self, key: &str) -> (r: Option<V>)
        requires
            old(self).wf(),
        ensures
            final(self).wf(),
            final(self).view() == old(self).view().remove(key@),
            match r {
                Some(v) => old(self).view().dom().contains(key@) && v == old(self).view()[key@],
                None => !old(self).view().dom().contains(key@),
            },
    {
        match self.find(key) {
            Some(i) => {
                let ghost old_self = *self;
                proof {
                    old_self.lemma_view_at(i as int);
                }
                let _k = self.keys.remove(i);
                let v = self.vals.remove(i);
                proof {
                    assert(self.key_seq() =~= old_self.key_seq().remove(i as int));
                    assert(self.key_seq().no_duplicates()) by {
                        assert forall|a: int, b: int|
                            0 <= a < self.key_seq().len() && 0 <= b < self.key_seq().len() && a != b
                            implies self.key_seq()[a] != self.key_seq()[b] by {
                            let a2 = if a < i { a } else { a + 1 };
                            let b2 = if b < i { b } else { b + 1 };
                            assert(self.key_seq()[a] == old_self.key_seq()[a2]);
                            assert(self.key_seq()[b] == old_self.key_seq()[b2]);
                        }
                    }
                    assert forall|k: Seq<char>| #[trigger] self.view().dom().contains(k)
                        implies old_self.view().remove(key@).dom().contains(k)
                            && self.view()[k] == old_self.view().remove(key@)[k] by {
                        let j = choose|j: int| 0 <= j < self.key_seq().len() && self.key_seq()[j] == k;
                        self.lemma_view_at(j);
                        let j2 = if j < i { j } else { j + 1 };
                        assert(old_self.key_seq()[j2] == k);
                        old_self.lemma_view_at(j2);
                    }
                    assert forall|k: Seq<char>|
                        #[trigger] old_self.view().remove(key@).dom().contains(k)
                        implies self.view().dom().contains(k) by {
                        let j = choose|j: int| 0 <= j < old_self.key_seq().len() && old_self.key_seq()[j] == k;
                        assert(j != i);
                        let j2 = if j < i { j } else { j - 1 };
                        assert(self.key_seq()[j2] == k);
                    }
                    assert(self.view() =~= old_self.view().remove(key@));
                }
                Some(v)
            },
            None => {
                proof {
                    assert(self.view() =~= self.view().remove(key@));
                }
                None
            },
        }
    }

    /// The keys, each once, in insertion order.
    pub fn keys(&self) -> (ks: Vec<String>)
        requires
            self.wf(),
        ensures
            key_views(ks@).no_duplicates(),
            key_views(ks@).to_set() == self.view().dom(),
            ks@.len() == self.view().dom().len(),
    {
        proof {
            self.lemma_dom_finite_len();
        }
        let n = self.keys.len();
        let mut out: Vec<String> = Vec::new();
        let mut i: usize = 0;
        while i < n
            invariant
                n == self.keys@.len(),
                i <= n,
                key_views(out@) == self.key_seq().take(i as int),
            decreases n - i,
        {
            let k = self.keys[i].clone();
            let ghost prev = out@;
            out.push(k);
            proof {
                assert(out@ == prev.push(k));
                assert(key_views(out@) =~= key_views(prev).push(k@));
                assert(key_views(out@) =~= self.key_seq().take(i + 1));
            }
            i = i + 1;
        }
        proof {
            assert(self.key_seq().take(n as int) =~= self.key_seq());
        }
        out
    }
}

impl KeyedList<u64> {
    /// Keeps exactly the keys whose value is at least `bound`, and hands back
    /// the keys that were dropped.
    pub fn retain_at_least(&mut self, bound: u64) -> (dropped: Vec<String>)
        requires
            old(self).wf(),
        ensures
            final(self).wf(),
            final(self).view() == old(self).view().restrict(
                old(self).view().dom().filter(|k: Seq<char>| old(self).view()[k] >= bound),
            ),
            key_views(dropped@).to_set() == old(self).view().dom().filter(
                |k: Seq<char>| old(self).view()[k] < bound,
            ),
    {
        let ghost old_self = *self;
        let mut kept: KeyedList<u64> = KeyedList::new();
        let mut dropped: Vec<String> = Vec::new();
        let n = self.keys.len();
        let mut i: usize = 0;
        while i < n
            invariant
                old_self == *self,
                self.wf(),
                n == self.keys@.len(),
                i <= n,
                kept.wf(),
                forall|k: Seq<char>| #[trigger] kept.view().dom().contains(k) <==> (
                    self.key_seq().take(i as int).contains(k) && self.view()[k] >= bound),
                forall|k: Seq<char>| #[trigger] kept.view().dom().contains(k) ==> kept.view()[k] == self.view()[k],
                forall|k: Seq<char>| #[trigger] key_views(dropped@).contains(k) <==> (
                    self.key_seq().take(i as int).contains(k) && self.view()[k] < bound),
            decreases n - i,
        {
            let ghost k_i = self.key_seq()[i as int];
            let ghost dropped_before = key_views(dropped@);
            proof {
                self.lemma_view_at(i as int);
            }
            let v = self.vals[i];
            if v >= bound {
                kept.insert(self.keys[i].clone(), v);
            } else {
                let k = self.keys[i].clone();
                let ghost prev = dropped@;
                dropped.push(k);
                proof {
                    assert(dropped@ == prev.push(k));
                    assert(key_views(dropped@) =~= dropped_before.push(k_i));
                }
            }
            proof {
                assert forall|k: Seq<char>| #[trigger] kept.view().dom().contains(k) <==> (
                    self.key_seq().take(i + 1).contains(k) && self.view()[k] >= bound) by {
                    lemma_take_push_contains(self.key_seq(), i as int, k);
                }
                assert forall|k: Seq<char>| #[trigger] key_views(dropped@).contains(k) <==> (
                    self.key_seq().take(i + 1).contains(k) && self.view()[k] < bound) by {
                    lemma_take_push_contains(self.key_seq(), i as int, k);
                    lemma_push_contains(dropped_before, k_i, k);
                }
            }
            i = i + 1;
        }
        proof {
            assert(self.key_seq().take(n as int) =~= self.key_seq());
            assert(kept.view() =~= old_self.view().restrict(
                old_self.view().dom().filter(|k: Seq<char>| old_self.view()[k] >= bound),
            ));
            assert(key_views(dropped@).to_set() =~= old_self.view().dom().filter(
                |k: Seq<char>| old_self.view()[k] < bound,
            ));
        }
        *self = kept;
        dropped
    }
}

} // verus!
