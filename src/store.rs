//! The shared data store: values live here as encoded bytes with a type tag,
//! so they keep their meaning after the module that wrote them is replaced.
use vstd::prelude::*;

verus! {

/// What the store records for one key, as plain values: the payload and its tag.
pub type StoredView = (Seq<u8>, Seq<char>);

/// A payload as it lies in the store: encoded bytes and the tag of their type.
#[derive(Clone, Debug)]
pub struct StoredValue {
    pub bytes: Vec<u8>,
    pub tag: String,
}

impl StoredValue {
    pub open spec fn view(&self) -> StoredView {
        (self.bytes@, self.tag@)
    }
}

/// One key of the store with its value.
#[derive(Clone, Debug)]
pub struct Entry {
    pub key: String,
    pub value: StoredValue,
}

/// A keyed store of tagged payloads, one value per key.
///
/// The entries are held in a vector whose keys are pairwise distinct; the
/// store is seen as the map from each key to its payload and tag.
#[derive(Debug)]
pub struct Store {
    pub entries: Vec<Entry>,
}

/// The index of `k` among the keys of `entries`, if it is there.
pub open spec fn has_key_at(entries: Seq<Entry>, k: Seq<char>, i: int) -> bool {
    0 <= i < entries.len() && entries[i].key@ == k
}

pub open spec fn keys_distinct(entries: Seq<Entry>) -> bool {
    forall|i: int, j: int|
        0 <= i < entries.len() && 0 <= j < entries.len() && i != j ==> entries[i].key@
            != entries[j].key@
}

impl Store {
    /// The keys of the entries are pairwise distinct.
    pub open spec fn wf(&self) -> bool {
        keys_distinct(self.entries@)
    }

    pub open spec fn view(&self) -> Map<Seq<char>, StoredView> {
        Map::new(
            |k: Seq<char>| exists|i: int| has_key_at(self.entries@, k, i),
            |k: Seq<char>|
                self.entries@[choose|i: int| has_key_at(self.entries@, k, i)].value@,
        )
    }

    proof fn lemma_view_at(&self, i: int)
        requires
            self.wf(),
            0 <= i < self.entries@.len(),
        ensures
            self@.contains_key(self.entries@[i].key@),
            self@[self.entries@[i].key@] == self.entries@[i].value@,
    {
        let k = self.entries@[i].key@;
        assert(has_key_at(self.entries@, k, i));
        let j = choose|j: int| has_key_at(self.entries@, k, j);
        assert(j == i);
    }

    /// An empty store.
    pub fn new() -> (r: Store)
        ensures
            r.wf(),
            r@ == Map::<Seq<char>, StoredView>::empty(),
    {
        let r = Store { entries: Vec::new() };
        assert(r@ =~= Map::<Seq<char>, StoredView>::empty());
        r
    }

    /// The position of `key` among the entries.
    fn find(&self, key: &String) -> (r: Option<usize>)
        requires
            self.wf(),
        ensures
            match r {
                Some(i) => has_key_at(self.entries@, key@, i as int),
                None => !self@.contains_key(key@),
            },
    {
        let n = self.entries.len();
        let mut i: usize = 0;
        while i < n
            invariant
                n == self.entries@.len(),
                0 <= i <= n,
                forall|j: int| 0 <= j < i ==> self.entries@[j].key@ != key@,
            decreases n - i,
        {
            if self.entries[i].key == *key {
                return Some(i);
            }
            i = i + 1;
        }
        None
    }

    /// Records `bytes` under `key` with `tag`, replacing what was there.
    pub fn put(&mut self, key: &str, bytes: Vec<u8>, tag: &str)
        requires
            old(self).wf(),
        ensures
            final(self).wf(),
            final(self)@ == old(self)@.insert(key@, (bytes@, tag@)),
    {
        let k = String::from_str(key);
        let value = StoredValue { bytes, tag: String::from_str(tag) };
        let ghost pre = self.entries@;
        match self.find(&k) {
            Some(i) => {
                self.entries.set(i, Entry { key: k, value });
                proof {
                    let post = self.entries@;
                    assert forall|a: int, b: int|
                        0 <= a < post.len() && 0 <= b < post.len() && a != b implies post[a].key@
                        != post[b].key@ by {
                        assert(pre[a].key@ != pre[b].key@);
                    }
                    assert forall|kk: Seq<char>|
                        #![auto]
                        self@.contains_key(kk) <==> old(self)@.insert(key@, (bytes@, tag@)).contains_key(
                            kk,
                        ) by {
                        if old(self)@.contains_key(kk) {
                            let j = choose|j: int| has_key_at(pre, kk, j);
                            assert(has_key_at(post, kk, j));
                        }
                        if self@.contains_key(kk) {
                            let j = choose|j: int| has_key_at(post, kk, j);
                            if j != i {
                                assert(has_key_at(pre, kk, j));
                            }
                        }
                    }
                    assert forall|kk: Seq<char>| #[trigger] self@.contains_key(kk) implies self@[kk]
                        == old(self)@.insert(key@, (bytes@, tag@))[kk] by {
                        let j = choose|j: int| has_key_at(post, kk, j);
                        self.lemma_view_at(j);
                        if j != i {
                            old(self).lemma_view_at(j);
                        }
                    }
                    assert(self@ =~= old(self)@.insert(key@, (bytes@, tag@)));
                }
            },
            None => {
                self.entries.push(Entry { key: k, value });
                proof {
                    let post = self.entries@;
                    let n = pre.len() as int;
                    assert forall|j: int| 0 <= j < n implies pre[j].key@ != key@ by {
                        if pre[j].key@ == key@ {
                            assert(has_key_at(pre, key@, j));
                        }
                    }
                    assert forall|a: int, b: int|
                        0 <= a < post.len() && 0 <= b < post.len() && a != b implies post[a].key@
                        != post[b].key@ by {
                        if a < n && b < n {
                            assert(pre[a].key@ != pre[b].key@);
                        }
                    }
                    assert forall|kk: Seq<char>|
                        #![auto]
                        self@.contains_key(kk) <==> old(self)@.insert(key@, (bytes@, tag@)).contains_key(
                            kk,
                        ) by {
                        if old(self)@.contains_key(kk) {
                            let j = choose|j: int| has_key_at(pre, kk, j);
                            assert(has_key_at(post, kk, j));
                        }
                        if kk == key@ {
                            assert(has_key_at(post, kk, n));
                        }
                        if self@.contains_key(kk) {
                            let j = choose|j: int| has_key_at(post, kk, j);
                            if j != n {
                                assert(has_key_at(pre, kk, j));
                            }
                        }
                    }
                    assert forall|kk: Seq<char>| #[trigger] self@.contains_key(kk) implies self@[kk]
                        == old(self)@.insert(key@, (bytes@, tag@))[kk] by {
                        let j = choose|j: int| has_key_at(post, kk, j);
                        self.lemma_view_at(j);
                        if j != n {
                            old(self).lemma_view_at(j);
                        }
                    }
                    assert(self@ =~= old(self)@.insert(key@, (bytes@, tag@)));
                }
            },
        }
    }

    /// A copy of the payload and tag under `key`, if any.
    pub fn get(&self, key: &str) -> (r: Option<(Vec<u8>, String)>)
        requires
            self.wf(),
        ensures
            r is None <==> !self@.contains_key(key@),
            r matches Some(p) ==> (p.0@, p.1@) == self@[key@],
    {
        let k = String::from_str(key);
        match self.find(&k) {
            Some(i) => {
                proof {
                    self.lemma_view_at(i as int);
                }
                let v = &self.entries[i].value;
                Some((copy_bytes(&v.bytes), v.tag.clone()))
            },
            None => None,
        }
    }

    /// Takes the entry under `key` out of the store, handing back its payload and tag.
    pub fn take(&mut self, key: &str) -> (r: Option<(Vec<u8>, String)>)
        requires
            old(self).wf(),
        ensures
            final(self).wf(),
            final(self)@ == old(self)@.remove(key@),
            r is None <==> !old(self)@.contains_key(key@),
            r matches Some(p) ==> (p.0@, p.1@) == old(self)@[key@],
    {
        let k = String::from_str(key);
        let ghost pre = self.entries@;
        match self.find(&k) {
            Some(i) => {
                proof {
                    self.lemma_view_at(i as int);
                }
                let e = self.entries.remove(i);
                proof {
                    let post = self.entries@;
                    assert forall|a: int, b: int|
                        0 <= a < post.len() && 0 <= b < post.len() && a != b implies post[a].key@
                        != post[b].key@ by {
                        let a0 = if a < i { a } else { a + 1 };
                        let b0 = if b < i { b } else { b + 1 };
                        assert(post[a] == pre[a0]);
                        assert(post[b] == pre[b0]);
                    }
                    assert forall|kk: Seq<char>|
                        #![auto]
                        self@.contains_key(kk) <==> old(self)@.remove(key@).contains_key(kk) by {
                        if self@.contains_key(kk) {
                            let j = choose|j: int| has_key_at(post, kk, j);
                            let j0 = if j < i { j } else { j + 1 };
                            assert(has_key_at(pre, kk, j0));
                            assert(j0 != i);
                        }
                        if old(self)@.contains_key(kk) && kk != key@ {
                            let j = choose|j: int| has_key_at(pre, kk, j);
                            assert(j != i);
                            let j1 = if j < i { j } else { j - 1 };
                            assert(has_key_at(post, kk, j1));
                        }
                    }
                    assert forall|kk: Seq<char>| #[trigger] self@.contains_key(kk) implies self@[kk]
                        == old(self)@.remove(key@)[kk] by {
                        let j = choose|j: int| has_key_at(post, kk, j);
                        let j0 = if j < i { j } else { j + 1 };
                        self.lemma_view_at(j);
                        old(self).lemma_view_at(j0);
                    }
                    assert(self@ =~= old(self)@.remove(key@));
                }
                Some((e.value.bytes, e.value.tag))
            },
            None => {
                assert(old(self)@.remove(key@) =~= old(self)@);
                None
            },
        }
    }

    /// A snapshot of every key with its tag, each key once, in no promised order.
    pub fn keys_and_tags(&self) -> (r: Vec<(String, String)>)
        requires
            self.wf(),
        ensures
            lists_store(r@, self@),
    {
        let n = self.entries.len();
        let mut out: Vec<(String, String)> = Vec::new();
        let mut i: usize = 0;
        while i < n
            invariant
                self.wf(),
                n == self.entries@.len(),
                0 <= i <= n,
                out@.len() == i,
                forall|j: int| #![auto] 0 <= j < i ==> out@[j].0@ == self.entries@[j].key@
                    && out@[j].1@ == self.entries@[j].value.tag@,
            decreases n - i,
        {
            let e = &self.entries[i];
            out.push((e.key.clone(), e.value.tag.clone()));
            i = i + 1;
        }
        proof {
            assert forall|j: int| 0 <= j < out@.len() implies self@.contains_key(#[trigger] out@[j].0@)
                && self@[out@[j].0@].1 == out@[j].1@ by {
                self.lemma_view_at(j);
            }
            assert forall|k: Seq<char>| #[trigger] self@.contains_key(k) implies exists|j: int|
                0 <= j < out@.len() && out@[j].0@ == k by {
                let j = choose|j: int| has_key_at(self.entries@, k, j);
                assert(out@[j].0@ == k);
            }
        }
        out
    }

    /// Removes every entry.
    pub fn clear(&mut self)
        ensures
            final(self).wf(),
            final(self)@ == Map::<Seq<char>, StoredView>::empty(),
    {
        self.entries.clear();
        assert(self@ =~= Map::<Seq<char>, StoredView>::empty());
    }
}

/// `l` lists each key of `m` exactly once, each with the tag stored under it.
pub open spec fn lists_store(l: Seq<(String, String)>, m: Map<Seq<char>, StoredView>) -> bool {
    &&& forall|j: int| 0 <= j < l.len() ==> m.contains_key(#[trigger] l[j].0@) && m[l[j].0@].1 == l[j].1@
    &&& forall|k: Seq<char>| #[trigger] m.contains_key(k) ==> exists|j: int| 0 <= j < l.len() && l[j].0@ == k
    &&& forall|a: int, b: int| 0 <= a < l.len() && 0 <= b < l.len() && a != b ==> l[a].0@ != l[b].0@
}

/// A byte-for-byte copy of `b`.
pub fn copy_bytes(b: &Vec<u8>) -> (r: Vec<u8>)
    ensures
        r@ == b@,
{
    let mut out: Vec<u8> = Vec::new();
    let mut i: usize = 0;
    while i < b.len()
        invariant
            0 <= i <= b@.len(),
            out@ == b@.subrange(0, i as int),
        decreases b@.len() - i,
    {
        out.push(b[i]);
        i = i + 1;
        assert(out@ =~= b@.subrange(0, i as int));
    }
    assert(out@ =~= b@);
    out
}

/// Records `bytes` under `key` with the tag `tag`, replacing any earlier value.
pub fn store_value(store: &mut Store, key: &str, bytes: Vec<u8>, tag: &str)
    requires
        old(store).wf(),
    ensures
        final(store).wf(),
        final(store)@ == old(store)@.insert(key@, (bytes@, tag@)),
{
    store.put(key, bytes, tag)
}

/// A copy of the payload and tag under `key`; `None` where the key is absent.
pub fn load_value(store: &Store, key: &str) -> (r: Option<(Vec<u8>, String)>)
    requires
        store.wf(),
    ensures
        r is None <==> !store@.contains_key(key@),
        r matches Some(p) ==> (p.0@, p.1@) == store@[key@],
{
    store.get(key)
}

/// Removes `key`, handing back its payload and tag if it was there.
pub fn remove_value(store: &mut Store, key: &str) -> (r: Option<(Vec<u8>, String)>)
    requires
        old(store).wf(),
    ensures
        final(store).wf(),
        final(store)@ == old(store)@.remove(key@),
        r is None <==> !old(store)@.contains_key(key@),
        r matches Some(p) ==> (p.0@, p.1@) == old(store)@[key@],
{
    store.take(key)
}

/// Every key of the store with its tag: a snapshot, not a live view.
pub fn list(store: &Store) -> (r: Vec<(String, String)>)
    requires
        store.wf(),
    ensures
        lists_store(r@, store@),
{
    store.keys_and_tags()
}

/// Empties the store.
pub fn clear(store: &mut Store)
    ensures
        final(store).wf(),
        final(store)@ == Map::<Seq<char>, StoredView>::empty(),
{
    store.clear()
}

} // verus!
