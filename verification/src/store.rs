//! A string-keyed store backed by a vector of pairs, viewed as a
//! `Map<Seq<char>, _>`. Both registry indexes are built on it.

use vstd::prelude::*;

verus! {

/// One stored binding: a string key and its value.
#[derive(Debug)]
pub struct KvPair<V> {
    pub key: String,
    pub value: V,
}

/// The map that a sequence of pairs denotes; later pairs win, though a
/// well-formed store never holds a key twice.
pub open spec fn kv_seq_map<V: View>(s: Seq<KvPair<V>>) -> Map<Seq<char>, V::V>
    decreases s.len(),
{
    if s.len() == 0 {
        Map::empty()
    } else {
        kv_seq_map(s.drop_last()).insert(s.last().key@, s.last().value@)
    }
}

/// No key occurs twice.
pub open spec fn distinct_keys<V>(s: Seq<KvPair<V>>) -> bool {
    forall|i: int, j: int| 0 <= i < j < s.len() ==> s[i].key@ != s[j].key@
}

/// A key is in the denoted map exactly when some pair holds it.
pub proof fn lemma_kv_contains<V: View>(s: Seq<KvPair<V>>, k: Seq<char>)
    ensures
        kv_seq_map(s).contains_key(k) <==> (exists|j: int| 0 <= j < s.len() && s[j].key@ == k),
    decreases s.len(),
{
    if s.len() == 0 {
    } else {
        lemma_kv_contains(s.drop_last(), k);
        if kv_seq_map(s).contains_key(k) {
            if k == s.last().key@ {
                assert(s[s.len() - 1].key@ == k);
            } else {
                let j = choose|j: int| 0 <= j < s.drop_last().len() && s.drop_last()[j].key@ == k;
                assert(s[j].key@ == k);
            }
        }
        if exists|j: int| 0 <= j < s.len() && s[j].key@ == k {
            let j = choose|j: int| 0 <= j < s.len() && s[j].key@ == k;
            if j < s.len() - 1 {
                assert(s.drop_last()[j].key@ == k);
            }
        }
    }
}

/// Under distinct keys, the pair at index `i` gives the map's value at its key.
pub proof fn lemma_kv_value<V: View>(s: Seq<KvPair<V>>, i: int)
    requires
        distinct_keys(s),
        0 <= i < s.len(),
    ensures
        kv_seq_map(s).contains_key(s[i].key@),
        kv_seq_map(s)[s[i].key@] == s[i].value@,
    decreases s.len(),
{
    if i == s.len() - 1 {
    } else {
        assert(distinct_keys(s.drop_last()));
        lemma_kv_value(s.drop_last(), i);
        assert(s.drop_last()[i] == s[i]);
        assert(s[i].key@ != s.last().key@);
    }
}

/// Removing the pair at index `i` removes exactly its key from the map.
pub proof fn lemma_kv_remove<V: View>(s: Seq<KvPair<V>>, i: int)
    requires
        distinct_keys(s),
        0 <= i < s.len(),
    ensures
        distinct_keys(s.remove(i)),
        kv_seq_map(s.remove(i)) == kv_seq_map(s).remove(s[i].key@),
    decreases s.len(),
{
    let k = s[i].key@;
    assert forall|p: int, q: int| 0 <= p < q < s.remove(i).len() implies s.remove(i)[p].key@
        != s.remove(i)[q].key@ by {
        let p0 = if p < i {
            p
        } else {
            p + 1
        };
        let q0 = if q < i {
            q
        } else {
            q + 1
        };
        assert(s.remove(i)[p] == s[p0]);
        assert(s.remove(i)[q] == s[q0]);
    }
    if i == s.len() - 1 {
        assert(s.remove(i) =~= s.drop_last());
        lemma_kv_contains(s.drop_last(), k);
        assert forall|j: int| 0 <= j < s.drop_last().len() implies s.drop_last()[j].key@ != k by {
            assert(s.drop_last()[j] == s[j]);
        }
        assert(!kv_seq_map(s.drop_last()).contains_key(k));
        assert(kv_seq_map(s).remove(k) =~= kv_seq_map(s.drop_last()));
    } else {
        let dl = s.drop_last();
        assert(distinct_keys(dl));
        assert(dl[i] == s[i]);
        lemma_kv_remove(dl, i);
        assert(s.remove(i).drop_last() =~= dl.remove(i));
        assert(s.remove(i).last() == s.last());
        assert(s.remove(i).len() != 0);
        assert(kv_seq_map(s.remove(i)) == kv_seq_map(dl.remove(i)).insert(
            s.last().key@,
            s.last().value@,
        ));
        assert(s.last() == s[s.len() - 1]);
        assert(k != s.last().key@);
        assert(kv_seq_map(dl).remove(k).insert(s.last().key@, s.last().value@)
            =~= kv_seq_map(dl).insert(s.last().key@, s.last().value@).remove(k));
    }
}

/// A string-keyed store with distinct keys, seen as a map from the key's
/// characters to the value's view.
#[derive(Debug)]
pub struct KvStore<V> {
    entries: Vec<KvPair<V>>,
}

impl<V: View> View for KvStore<V> {
    type V = Map<Seq<char>, V::V>;

    closed spec fn view(&self) -> Map<Seq<char>, V::V> {
        kv_seq_map(self.entries@)
    }
}

impl<V: View> KvStore<V> {
    /// Every key occurs at most once.
    pub closed spec fn wf(&self) -> bool {
        distinct_keys(self.entries@)
    }

    /// An empty store.
    pub fn new() -> (r: Self)
        ensures
            r.wf(),
            r@ == Map::<Seq<char>, V::V>::empty(),
    {
        let entries: Vec<KvPair<V>> = Vec::new();
        KvStore { entries }
    }

    /// Looks the key up; `None` exactly when the key is absent.
    pub fn get<'a>(&'a self, key: &String) -> (r: Option<&'a V>)
        requires
            self.wf(),
        ensures
            r is Some <==> self@.contains_key(key@),
            r matches Some(v) ==> v@ == self@[key@],
    {
        let n = self.entries.len();
        let mut i: usize = 0;
        while i < n
            invariant
                n == self.entries.len(),
                i <= n,
                self.wf(),
                forall|j: int| 0 <= j < i ==> self.entries@[j].key@ != key@,
            decreases n - i,
        {
            if self.entries[i].key == *key {
                proof {
                    lemma_kv_value(self.entries@, i as int);
                }
                return Some(&self.entries[i].value);
            }
            i += 1;
        }
        proof {
            lemma_kv_contains(self.entries@, key@);
        }
        None
    }

    /// Deletes the key's binding; absence is not an error.
    pub fn remove(&mut self, key: &String)
        requires
            old(self).wf(),
        ensures
            final(self).wf(),
            final(self)@ == old(self)@.remove(key@),
    {
        let n = self.entries.len();
        let mut i: usize = 0;
        while i < n
            invariant
                n == self.entries.len(),
                i <= n,
                self.wf(),
                self == old(self),
                forall|j: int| 0 <= j < i ==> self.entries@[j].key@ != key@,
            decreases n - i,
        {
            if self.entries[i].key == *key {
                proof {
                    lemma_kv_remove(self.entries@, i as int);
                }
                self.entries.remove(i);
                return ;
            }
            i += 1;
        }
        proof {
            lemma_kv_contains(self.entries@, key@);
            assert(self@.remove(key@) =~= self@);
        }
    }

    /// Binds the key to the value, replacing any earlier binding.
    pub fn insert(&mut self, key: &String, value: V)
        requires
            old(self).wf(),
        ensures
            final(self).wf(),
            final(self)@ == old(self)@.insert(key@, value@),
    {
        self.remove(key);
        let ghost mid = self.entries@;
        let pair = KvPair { key: key.clone(), value };
        self.entries.push(pair);
        proof {
            assert(self.entries@.drop_last() =~= mid);
            lemma_kv_contains(mid, key@);
            assert forall|p: int, q: int| 0 <= p < q < self.entries@.len() implies self.entries@[p].key@
                != self.entries@[q].key@ by {
                if q == self.entries@.len() - 1 {
                    assert(self.entries@[p] == mid[p]);
                } else {
                    assert(self.entries@[p] == mid[p]);
                    assert(self.entries@[q] == mid[q]);
                }
            }
            assert(kv_seq_map(mid).insert(key@, value@) =~= old(self)@.insert(key@, value@));
        }
    }
}

} // verus!
