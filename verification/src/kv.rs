//! Small association containers over byte-string keys.
//!
//! A server's routing tables, address books and request ledger are all
//! mappings keyed by byte strings.  Universes hold few entries, so a linear
//! association list suffices; each container is specified against the
//! mathematical `Map` or `Set` it represents.

use vstd::prelude::*;
use crate::ids::bytes_eq;

verus! {

/// A sink list's deep view is its view: both are the sequence of its sinks.
pub broadcast proof fn lemma_sink_list_deep_view(v: Vec<u64>)
    ensures
        #[trigger] v.deep_view() == v@,
{
    assert(v.deep_view() =~= v@);
}

/// The mapping represented by an association sequence: later entries shadow
/// earlier ones (the containers below keep keys unique, so nothing shadows).
pub open spec fn kv_view_of<T: DeepView>(s: Seq<(Vec<u8>, T)>) -> Map<Seq<u8>, T::V>
    decreases s.len(),
{
    if s.len() == 0 {
        Map::empty()
    } else {
        kv_view_of(s.drop_last()).insert(s.last().0@, s.last().1.deep_view())
    }
}

/// Whether the association sequence holds each key at most once.
pub open spec fn kv_keys_unique<T>(s: Seq<(Vec<u8>, T)>) -> bool {
    forall|i: int, j: int| 0 <= i < j < s.len() ==> (#[trigger] s[i]).0@ != (#[trigger] s[j]).0@
}

proof fn lemma_kv_absent<T: DeepView>(s: Seq<(Vec<u8>, T)>, k: Seq<u8>)
    requires
        forall|i: int| 0 <= i < s.len() ==> (#[trigger] s[i]).0@ != k,
    ensures
        !kv_view_of(s).contains_key(k),
    decreases s.len(),
{
    if s.len() > 0 {
        lemma_kv_absent(s.drop_last(), k);
    }
}

proof fn lemma_kv_present<T: DeepView>(s: Seq<(Vec<u8>, T)>, i: int)
    requires
        kv_keys_unique(s),
        0 <= i < s.len(),
    ensures
        kv_view_of(s).contains_key(s[i].0@),
        kv_view_of(s)[s[i].0@] == s[i].1.deep_view(),
    decreases s.len(),
{
    if i == s.len() - 1 {
    } else {
        lemma_kv_present(s.drop_last(), i);
    }
}

proof fn lemma_kv_update<T: DeepView>(s: Seq<(Vec<u8>, T)>, i: int, k: Vec<u8>, v: T)
    requires
        kv_keys_unique(s),
        0 <= i < s.len(),
        k@ == s[i].0@,
    ensures
        kv_view_of(s.update(i, (k, v))) == kv_view_of(s).insert(s[i].0@, v.deep_view()),
    decreases s.len(),
{
    let s2 = s.update(i, (k, v));
    if i == s.len() - 1 {
        assert(s2.drop_last() =~= s.drop_last());
        assert(kv_view_of(s2) =~= kv_view_of(s).insert(s[i].0@, v.deep_view()));
    } else {
        assert(s2.drop_last() =~= s.drop_last().update(i, (k, v)));
        lemma_kv_update(s.drop_last(), i, k, v);
        assert(s.last().0@ != s[i].0@);
        assert(kv_view_of(s2) =~= kv_view_of(s).insert(s[i].0@, v.deep_view()));
    }
}

proof fn lemma_kv_remove<T: DeepView>(s: Seq<(Vec<u8>, T)>, i: int)
    requires
        kv_keys_unique(s),
        0 <= i < s.len(),
    ensures
        kv_view_of(s.remove(i)) == kv_view_of(s).remove(s[i].0@),
    decreases s.len(),
{
    let k = s[i].0@;
    if i == s.len() - 1 {
        assert(s.remove(i) =~= s.drop_last());
        assert(forall|j: int| 0 <= j < s.drop_last().len() ==> (#[trigger] s.drop_last()[j]).0@ != k);
        lemma_kv_absent(s.drop_last(), k);
        assert(kv_view_of(s.remove(i)) =~= kv_view_of(s).remove(k));
    } else {
        let s2 = s.remove(i);
        assert(s2.drop_last() =~= s.drop_last().remove(i));
        lemma_kv_remove(s.drop_last(), i);
        assert(s.last().0@ != k);
        assert(kv_view_of(s2) =~= kv_view_of(s).remove(k));
    }
}

proof fn lemma_kv_push<T: DeepView>(s: Seq<(Vec<u8>, T)>, k: Vec<u8>, v: T)
    ensures
        kv_view_of(s.push((k, v))) == kv_view_of(s).insert(k@, v.deep_view()),
{
    assert(s.push((k, v)).drop_last() =~= s);
}

/// An association list from byte-string keys to values, holding each key at
/// most once.  It stands in for a hash map keyed by opaque byte strings.
pub struct KvList<T> {
    entries: Vec<(Vec<u8>, T)>,
}

impl<T: DeepView> View for KvList<T> {
    type V = Map<Seq<u8>, T::V>;

    closed spec fn view(&self) -> Map<Seq<u8>, T::V> {
        kv_view_of(self.entries@)
    }
}

impl<T> KvList<T> {
    #[verifier::type_invariant]
    closed spec fn wf(&self) -> bool {
        kv_keys_unique(self.entries@)
    }
}

impl<T: DeepView> KvList<T> {
    /// An empty mapping.
    pub fn new() -> (r: Self)
        ensures
            r@ == Map::<Seq<u8>, T::V>::empty(),
    {
        KvList { entries: Vec::new() }
    }

    fn find_index(&self, k: &Vec<u8>) -> (r: Option<usize>)
        ensures
            match r {
                Some(i) => i < self.entries@.len() && self.entries@[i as int].0@ == k@,
                None => forall|j: int|
                    0 <= j < self.entries@.len() ==> (#[trigger] self.entries@[j]).0@ != k@,
            },
    {
        let mut i: usize = 0;
        while i < self.entries.len()
            invariant
                i <= self.entries@.len(),
                forall|j: int| 0 <= j < i ==> (#[trigger] self.entries@[j]).0@ != k@,
            decreases self.entries@.len() - i,
        {
            if bytes_eq(&self.entries[i].0, k) {
                return Some(i);
            }
            i = i + 1;
        }
        None
    }

    /// Whether the mapping holds `k`.
    pub fn contains_key(&self, k: &Vec<u8>) -> (r: bool)
        ensures
            r == self@.contains_key(k@),
    {
        proof {
            use_type_invariant(&*self);
        }
        let found = self.find_index(k);
        proof {
            match found {
                Some(i) => lemma_kv_present(self.entries@, i as int),
                None => lemma_kv_absent(self.entries@, k@),
            }
        }
        found.is_some()
    }

    /// The value under `k`, if any.
    pub fn get(&self, k: &Vec<u8>) -> (r: Option<&T>)
        ensures
            match r {
                Some(v) => self@.contains_key(k@) && v.deep_view() == self@[k@],
                None => !self@.contains_key(k@),
            },
    {
        proof {
            use_type_invariant(&*self);
        }
        match self.find_index(k) {
            Some(i) => {
                proof {
                    lemma_kv_present(self.entries@, i as int);
                }
                Some(&self.entries[i].1)
            }
            None => {
                proof {
                    lemma_kv_absent(self.entries@, k@);
                }
                None
            }
        }
    }

    /// Bind `k` to `v`, replacing any earlier binding.
    pub fn set(&mut self, k: Vec<u8>, v: T)
        ensures
            final(self)@ == old(self)@.insert(k@, v.deep_view()),
    {
        proof {
            use_type_invariant(&*self);
        }
        let found = self.find_index(&k);
        let mut local: Vec<(Vec<u8>, T)> = Vec::new();
        std::mem::swap(&mut local, &mut self.entries);
        let ghost pre = local@;
        match found {
            Some(i) => {
                let ghost target = pre.update(i as int, (k, v));
                proof {
                    lemma_kv_update(pre, i as int, k, v);
                    assert(forall|j: int|
                        0 <= j < target.len() ==> (#[trigger] target[j]).0@ == pre[j].0@);
                    assert forall|x: int, y: int| 0 <= x < y < target.len() implies (
                        #[trigger] target[x]).0@ != (#[trigger] target[y]).0@ by {
                        assert(pre[x].0@ != pre[y].0@);
                    }
                }
                let _removed = local.remove(i);
                local.insert(i, (k, v));
                proof {
                    assert(local@ =~= target);
                }
            }
            None => {
                let ghost target = pre.push((k, v));
                proof {
                    lemma_kv_push(pre, k, v);
                    assert forall|x: int, y: int| 0 <= x < y < target.len() implies (
                        #[trigger] target[x]).0@ != (#[trigger] target[y]).0@ by {
                        assert(target[x] == pre[x]);
                        if y < target.len() - 1 {
                            assert(target[y] == pre[y]);
                        } else {
                            assert(target[y].0@ == k@);
                            assert(pre[x].0@ != k@);
                        }
                    }
                }
                local.push((k, v));
                proof {
                    assert(local@ =~= target);
                }
            }
        }
        self.entries = local;
    }

    /// Unbind `k`, returning the value it was bound to, if any.
    pub fn remove(&mut self, k: &Vec<u8>) -> (r: Option<T>)
        ensures
            final(self)@ == old(self)@.remove(k@),
            match r {
                Some(v) => old(self)@.contains_key(k@) && v.deep_view() == old(self)@[k@],
                None => !old(self)@.contains_key(k@),
            },
    {
        proof {
            use_type_invariant(&*self);
        }
        let found = self.find_index(k);
        match found {
            Some(i) => {
                let mut local: Vec<(Vec<u8>, T)> = Vec::new();
                std::mem::swap(&mut local, &mut self.entries);
                let ghost pre = local@;
                let ghost target = pre.remove(i as int);
                proof {
                    lemma_kv_present(pre, i as int);
                    lemma_kv_remove(pre, i as int);
                    assert forall|x: int, y: int| 0 <= x < y < target.len() implies (
                        #[trigger] target[x]).0@ != (#[trigger] target[y]).0@ by {
                        let x0: int = if x < i { x } else { x + 1 };
                        let y0: int = if y < i { y } else { y + 1 };
                        assert(target[x] == pre[x0]);
                        assert(target[y] == pre[y0]);
                        assert(pre[x0].0@ != pre[y0].0@);
                    }
                }
                let pair = local.remove(i);
                self.entries = local;
                Some(pair.1)
            }
            None => {
                proof {
                    lemma_kv_absent(self.entries@, k@);
                    assert(self@.remove(k@) =~= self@);
                }
                None
            }
        }
    }

    /// Unbind every key.
    pub fn clear(&mut self)
        ensures
            final(self)@ == Map::<Seq<u8>, T::V>::empty(),
    {
        self.entries = Vec::new();
    }
}

/// A set of byte strings, held as the list of its members.
pub struct ByteSet {
    items: Vec<Vec<u8>>,
}

impl View for ByteSet {
    type V = Set<Seq<u8>>;

    closed spec fn view(&self) -> Set<Seq<u8>> {
        Set::new(|k: Seq<u8>| exists|i: int| 0 <= i < self.items@.len() && (#[trigger] self.items@[i])@ == k)
    }
}

impl ByteSet {
    /// An empty set.
    pub fn new() -> (r: Self)
        ensures
            r@ == Set::<Seq<u8>>::empty(),
    {
        let r = ByteSet { items: Vec::new() };
        proof {
            assert(r@ =~= Set::<Seq<u8>>::empty());
        }
        r
    }

    /// Whether the set holds `x`.
    pub fn contains(&self, x: &Vec<u8>) -> (r: bool)
        ensures
            r == self@.contains(x@),
    {
        let mut i: usize = 0;
        while i < self.items.len()
            invariant
                i <= self.items@.len(),
                forall|j: int| 0 <= j < i ==> (#[trigger] self.items@[j])@ != x@,
            decreases self.items@.len() - i,
        {
            if bytes_eq(&self.items[i], x) {
                return true;
            }
            i = i + 1;
        }
        false
    }

    /// Add `x` to the set.
    pub fn insert(&mut self, x: Vec<u8>)
        ensures
            final(self)@ == old(self)@.insert(x@),
    {
        let ghost gx = x@;
        let ghost pre = self.items@;
        self.items.push(x);
        proof {
            assert forall|k: Seq<u8>| #[trigger] self@.contains(k) == (old(self)@.contains(k)
                || k == gx) by {
                if old(self)@.contains(k) {
                    let i = choose|i: int| 0 <= i < pre.len() && (#[trigger] pre[i])@ == k;
                    assert(self.items@[i]@ == k);
                }
                if k == gx {
                    assert(self.items@[pre.len() as int]@ == k);
                }
                if self@.contains(k) {
                    let i = choose|i: int|
                        0 <= i < self.items@.len() && (#[trigger] self.items@[i])@ == k;
                    if i < pre.len() {
                        assert(pre[i]@ == k);
                    }
                }
            }
            assert(self@ =~= old(self)@.insert(gx));
        }
    }
}

} // verus!
