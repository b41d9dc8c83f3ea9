//! A map with text keys.

use vstd::prelude::*;

use crate::text::same_text;

verus! {

/// The map that a sequence of key/value pairs stands for: pairs are entered
/// from first to last, so a later pair wins over an earlier one with the same
/// key.
pub open spec fn assoc_map<T>(s: Seq<(Seq<char>, T)>) -> Map<Seq<char>, T>
    decreases s.len(),
{
    if s.len() == 0 {
        Map::empty()
    } else {
        assoc_map(s.drop_last()).insert(s.last().0, s.last().1)
    }
}

/// No key occurs twice in the sequence.
pub open spec fn distinct_keys<T>(s: Seq<(Seq<char>, T)>) -> bool {
    forall|i: int, j: int| 0 <= i < j < s.len() ==> s[i].0 != s[j].0
}

/// Some pair of the sequence has the key `k`.
pub open spec fn has_key<T>(s: Seq<(Seq<char>, T)>, k: Seq<char>) -> bool {
    exists|i: int| 0 <= i < s.len() && #[trigger] s[i].0 == k
}

/// The domain of `assoc_map(s)` is the set of keys that occur in `s`.
pub proof fn lemma_assoc_map_dom<T>(s: Seq<(Seq<char>, T)>, k: Seq<char>)
    ensures
        assoc_map(s).contains_key(k) <==> has_key(s, k),
    decreases s.len(),
{
    if s.len() > 0 {
        let t = s.drop_last();
        lemma_assoc_map_dom(t, k);
        if has_key(t, k) {
            let i = choose|i: int| 0 <= i < t.len() && #[trigger] t[i].0 == k;
            assert(s[i].0 == k);
        }
        if s.last().0 == k {
            assert(s[s.len() - 1].0 == k);
        }
        if has_key(s, k) {
            let i = choose|i: int| 0 <= i < s.len() && #[trigger] s[i].0 == k;
            if i < s.len() - 1 {
                assert(t[i].0 == k);
            }
        }
    }
}

/// With distinct keys, each pair of the sequence is an entry of the map.
pub proof fn lemma_assoc_map_entry<T>(s: Seq<(Seq<char>, T)>, i: int)
    requires
        distinct_keys(s),
        0 <= i < s.len(),
    ensures
        assoc_map(s).contains_key(s[i].0),
        assoc_map(s)[s[i].0] == s[i].1,
    decreases s.len(),
{
    let t = s.drop_last();
    if i < s.len() - 1 {
        assert forall|a: int, b: int| 0 <= a < b < t.len() implies t[a].0 != t[b].0 by {
            assert(s[a].0 != s[b].0);
        }
        lemma_assoc_map_entry(t, i);
        assert(t[i] == s[i]);
        assert(s[i].0 != s[s.len() - 1].0);
    }
}

/// The map of a sequence has finitely many keys, and with distinct keys as
/// many as the sequence has pairs.
pub proof fn lemma_assoc_map_len<T>(s: Seq<(Seq<char>, T)>)
    requires
        distinct_keys(s),
    ensures
        assoc_map(s).dom().finite(),
        assoc_map(s).dom().len() == s.len(),
    decreases s.len(),
{
    if s.len() > 0 {
        let t = s.drop_last();
        assert forall|a: int, b: int| 0 <= a < b < t.len() implies t[a].0 != t[b].0 by {
            assert(s[a].0 != s[b].0);
        }
        lemma_assoc_map_len(t);
        lemma_assoc_map_dom(t, s.last().0);
        if has_key(t, s.last().0) {
            let i = choose|i: int| 0 <= i < t.len() && #[trigger] t[i].0 == s.last().0;
            assert(s[i].0 != s[s.len() - 1].0);
        }
        assert(assoc_map(s).dom() =~= assoc_map(t).dom().insert(s.last().0));
    }
}

/// Replacing the value of the pair at `i` enters that value under its key.
pub proof fn lemma_assoc_map_update<T>(s: Seq<(Seq<char>, T)>, i: int, v: T)
    requires
        distinct_keys(s),
        0 <= i < s.len(),
    ensures
        distinct_keys(s.update(i, (s[i].0, v))),
        assoc_map(s.update(i, (s[i].0, v))) == assoc_map(s).insert(s[i].0, v),
    decreases s.len(),
{
    let u = s.update(i, (s[i].0, v));
    let t = s.drop_last();
    assert forall|a: int, b: int| 0 <= a < b < u.len() implies u[a].0 != u[b].0 by {
        assert(s[a].0 != s[b].0);
    }
    if i == s.len() - 1 {
        assert(u.drop_last() =~= t);
        assert(assoc_map(u) =~= assoc_map(s).insert(s[i].0, v));
    } else {
        assert forall|a: int, b: int| 0 <= a < b < t.len() implies t[a].0 != t[b].0 by {
            assert(s[a].0 != s[b].0);
        }
        lemma_assoc_map_update(t, i, v);
        assert(u.drop_last() =~= t.update(i, (t[i].0, v)));
        assert(s[i].0 != s[s.len() - 1].0);
        assert(assoc_map(u) =~= assoc_map(s).insert(s[i].0, v));
    }
}

/// Among pairs with distinct keys, the key of the pair at `i` does not occur
/// before `i`, so the pairs before `i` with that pair at their end are the
/// pairs up to `i`.
pub proof fn lemma_next_pair<T>(s: Seq<(Seq<char>, T)>, i: int)
    requires
        distinct_keys(s),
        0 <= i < s.len(),
    ensures
        first_index(s.take(i), s[i].0) is None,
        s.take(i).push(s[i]) == s.take(i + 1),
{
    let t = s.take(i);
    if has_key(t, s[i].0) {
        let j = choose|j: int| 0 <= j < t.len() && #[trigger] t[j].0 == s[i].0;
        assert(s[j].0 != s[i].0);
    }
    assert(t.push(s[i]) =~= s.take(i + 1));
}

/// Taking the pair at `i` out of pairs with distinct keys takes its key out
/// of the map and leaves the keys distinct.
pub proof fn lemma_assoc_map_remove<T>(s: Seq<(Seq<char>, T)>, i: int)
    requires
        distinct_keys(s),
        0 <= i < s.len(),
    ensures
        distinct_keys(s.remove(i)),
        assoc_map(s.remove(i)) == assoc_map(s).remove(s[i].0),
{
    let r = s.remove(i);
    assert forall|a: int, b: int| 0 <= a < b < r.len() implies r[a].0 != r[b].0 by {
        let x = if a < i {
            a
        } else {
            a + 1
        };
        let y = if b < i {
            b
        } else {
            b + 1
        };
        assert(s[x].0 != s[y].0);
    }
    assert forall|k: Seq<char>| assoc_map(r).contains_key(k) <==> assoc_map(s).remove(
        s[i].0,
    ).contains_key(k) by {
        lemma_assoc_map_dom(r, k);
        lemma_assoc_map_dom(s, k);
        if has_key(r, k) {
            let j = choose|j: int| 0 <= j < r.len() && #[trigger] r[j].0 == k;
            let x = if j < i {
                j
            } else {
                j + 1
            };
            assert(s[x].0 == k);
            assert(s[x].0 != s[i].0);
        }
        if has_key(s, k) && k != s[i].0 {
            let j = choose|j: int| 0 <= j < s.len() && #[trigger] s[j].0 == k;
            let x = if j < i {
                j
            } else {
                j - 1
            };
            assert(r[x].0 == k);
        }
    }
    assert forall|k: Seq<char>| assoc_map(r).contains_key(k) implies assoc_map(r)[k] == assoc_map(
        s,
    ).remove(s[i].0)[k] by {
        lemma_assoc_map_dom(r, k);
        let j = choose|j: int| 0 <= j < r.len() && #[trigger] r[j].0 == k;
        let x = if j < i {
            j
        } else {
            j + 1
        };
        lemma_assoc_map_entry(r, j);
        lemma_assoc_map_entry(s, x);
    }
    assert(assoc_map(r) =~= assoc_map(s).remove(s[i].0));
}

/// A map from text keys to values, held as a list of pairs in which no key
/// occurs twice. Its view is the mathematical map from each key's characters
/// to the view of the value stored under it.
#[derive(Debug)]
pub struct StrMap<V: View> {
    entries: Vec<(String, V)>,
}

impl<V: View> StrMap<V> {
    #[verifier::type_invariant]
    spec fn inv(self) -> bool {
        distinct_keys(self.pairs())
    }

    /// The pairs of the map in the order in which `key_at` and `value_at`
    /// hand them out: each key's characters with the view of its value.
    pub closed spec fn pairs(&self) -> Seq<(Seq<char>, V::V)> {
        Seq::new(self.entries@.len(), |i: int| (self.entries@[i].0@, self.entries@[i].1@))
    }

    /// An empty map.
    pub fn new() -> (r: Self)
        ensures
            r@ == Map::<Seq<char>, V::V>::empty(),
            r.pairs().len() == 0,
    {
        let r = StrMap { entries: Vec::new() };
        assert(r.pairs() =~= Seq::empty());
        r
    }

    /// The number of entries. No key occurs twice among `pairs`, so this is
    /// also the number of keys of the view.
    pub fn len(&self) -> (r: usize)
        ensures
            r == self.pairs().len(),
            distinct_keys(self.pairs()),
            self@.dom().finite(),
            r == self@.dom().len(),
    {
        proof {
            use_type_invariant(self);
            lemma_assoc_map_len(self.pairs());
        }
        self.entries.len()
    }

    /// Whether the map has no entry.
    pub fn is_empty(&self) -> (r: bool)
        ensures
            r == (self.pairs().len() == 0),
            r == (self@ == Map::<Seq<char>, V::V>::empty()),
    {
        proof {
            use_type_invariant(self);
            if self.pairs().len() > 0 {
                lemma_assoc_map_entry(self.pairs(), 0);
            }
        }
        self.entries.len() == 0
    }

    /// The key of the entry at position `i`.
    pub fn key_at(&self, i: usize) -> (r: &String)
        requires
            i < self.pairs().len(),
        ensures
            r@ == self.pairs()[i as int].0,
    {
        &self.entries[i].0
    }

    /// The value of the entry at position `i`.
    pub fn value_at(&self, i: usize) -> (r: &V)
        requires
            i < self.pairs().len(),
        ensures
            r@ == self.pairs()[i as int].1,
    {
        &self.entries[i].1
    }

    /// The position of the entry with the given key, if there is one.
    pub fn position(&self, key: &str) -> (r: Option<usize>)
        ensures
            match r {
                Some(i) => i < self.pairs().len() && self.pairs()[i as int].0 == key@,
                None => !has_key(self.pairs(), key@),
            },
            r is Some <==> self@.contains_key(key@),
    {
        let mut i: usize = 0;
        while i < self.entries.len()
            invariant
                i <= self.entries@.len(),
                forall|j: int| 0 <= j < i ==> (#[trigger] self.pairs()[j]).0 != key@,
            decreases self.entries@.len() - i,
        {
            if same_text(self.entries[i].0.as_str(), key) {
                proof {
                    assert(self.pairs()[i as int].0 == key@);
                    lemma_assoc_map_dom(self.pairs(), key@);
                }
                return Some(i);
            }
            i += 1;
        }
        proof {
            lemma_assoc_map_dom(self.pairs(), key@);
        }
        None
    }

    /// Whether the map has an entry for the key.
    pub fn contains_key(&self, key: &str) -> (r: bool)
        ensures
            r == self@.contains_key(key@),
    {
        self.position(key).is_some()
    }

    /// The value stored under the key, if there is one.
    pub fn get(&self, key: &str) -> (r: Option<&V>)
        ensures
            r is Some <==> self@.contains_key(key@),
            r is Some ==> r.unwrap()@ == self@[key@],
    {
        match self.position(key) {
            Some(i) => {
                proof {
                    use_type_invariant(self);
                    lemma_assoc_map_entry(self.pairs(), i as int);
                }
                Some(&self.entries[i].1)
            },
            None => None,
        }
    }

    /// Stores the value under the key, in place of the value that the key had
    /// before, if any. A known key keeps its position; a new key goes last.
    pub fn insert(&mut self, key: String, value: V)
        ensures
            final(self)@ == old(self)@.insert(key@, value@),
            match old(self).index_of(key@) {
                Some(i) => final(self).pairs() == old(self).pairs().update(i, (key@, value@)),
                None => final(self).pairs() == old(self).pairs().push((key@, value@)),
            },
    {
        proof {
            use_type_invariant(&*self);
        }
        let ghost before = self.pairs();
        let found = self.position(key.as_str());
        let mut taken = StrMap { entries: Vec::new() };
        assert(taken.pairs() =~= Seq::empty());
        std::mem::swap(self, &mut taken);
        let StrMap { entries } = taken;
        let mut entries = entries;
        match found {
            Some(i) => {
                proof {
                    lemma_assoc_map_update(before, i as int, value@);
                    lemma_index_of(before, key@, i as int);
                }
                entries.set(i, (key, value));
                let ghost fresh = Seq::new(
                    entries@.len(),
                    |i: int| (entries@[i].0@, entries@[i].1@),
                );
                assert(fresh =~= before.update(i as int, (key@, value@)));
                let r = StrMap { entries };
                *self = r;
            },
            None => {
                proof {
                    lemma_index_of_none(before, key@);
                }
                entries.push((key, value));
                let ghost after = before.push((key@, value@));
                assert(after.drop_last() =~= before);
                assert forall|a: int, b: int| 0 <= a < b < after.len() implies after[a].0
                    != after[b].0 by {
                    if b < before.len() {
                        assert(before[a].0 != before[b].0);
                    } else {
                        assert(before[a].0 == after[a].0);
                    }
                }
                let ghost fresh = Seq::new(
                    entries@.len(),
                    |i: int| (entries@[i].0@, entries@[i].1@),
                );
                assert(fresh =~= after);
                let r = StrMap { entries };
                *self = r;
            },
        }
    }

    /// Takes the entry of the key out of the map and hands its value back, if
    /// there is one. The other entries keep their order.
    pub fn remove(&mut self, key: &str) -> (r: Option<V>)
        ensures
            final(self)@ == old(self)@.remove(key@),
            r is Some <==> old(self)@.contains_key(key@),
            r is Some ==> r.unwrap()@ == old(self)@[key@],
            match old(self).index_of(key@) {
                Some(i) => final(self).pairs() == old(self).pairs().remove(i),
                None => final(self).pairs() == old(self).pairs(),
            },
    {
        proof {
            use_type_invariant(&*self);
        }
        let ghost before = self.pairs();
        match self.position(key) {
            Some(i) => {
                proof {
                    lemma_assoc_map_remove(before, i as int);
                    lemma_assoc_map_entry(before, i as int);
                    lemma_index_of(before, key@, i as int);
                }
                let mut taken = StrMap { entries: Vec::new() };
                assert(taken.pairs() =~= Seq::empty());
                std::mem::swap(self, &mut taken);
                let StrMap { entries } = taken;
                let mut entries = entries;
                let entry = entries.remove(i);
                let ghost fresh = Seq::new(
                    entries@.len(),
                    |i: int| (entries@[i].0@, entries@[i].1@),
                );
                assert(fresh =~= before.remove(i as int));
                *self = StrMap { entries };
                Some(entry.1)
            },
            None => {
                proof {
                    lemma_index_of_none(before, key@);
                    assert(self@ =~= self@.remove(key@));
                }
                None
            },
        }
    }

    /// The position of the key among `pairs`, if it occurs there.
    pub open spec fn index_of(&self, k: Seq<char>) -> Option<int> {
        first_index(self.pairs(), k)
    }
}

/// The position of the first pair with the key `k`, if there is one.
pub open spec fn first_index<T>(s: Seq<(Seq<char>, T)>, k: Seq<char>) -> Option<int> {
    if has_key(s, k) {
        Some(choose|i: int| 0 <= i < s.len() && #[trigger] s[i].0 == k)
    } else {
        None
    }
}

/// With distinct keys, the position of a key is the position of the one pair
/// that has it.
pub proof fn lemma_index_of<T>(s: Seq<(Seq<char>, T)>, k: Seq<char>, i: int)
    requires
        distinct_keys(s),
        0 <= i < s.len(),
        s[i].0 == k,
    ensures
        first_index(s, k) == Some(i),
{
    let j = choose|j: int| 0 <= j < s.len() && #[trigger] s[j].0 == k;
    if j < i {
        assert(s[j].0 != s[i].0);
    }
    if i < j {
        assert(s[i].0 != s[j].0);
    }
}

/// A key that no pair has is at no position.
pub proof fn lemma_index_of_none<T>(s: Seq<(Seq<char>, T)>, k: Seq<char>)
    requires
        !has_key(s, k),
    ensures
        first_index(s, k) is None,
{
}

impl<V: View> View for StrMap<V> {
    type V = Map<Seq<char>, V::V>;

    open spec fn view(&self) -> Map<Seq<char>, V::V> {
        assoc_map(self.pairs())
    }
}

impl Clone for StrMap<String> {
    fn clone(&self) -> (r: Self)
        ensures
            r@ == self@,
            r.pairs() == self.pairs(),
    {
        let mut out: StrMap<String> = StrMap::new();
        let n = self.len();
        let mut i: usize = 0;
        assert(self.pairs().take(0) =~= out.pairs());
        while i < n
            invariant
                n == self.pairs().len(),
                distinct_keys(self.pairs()),
                i <= n,
                out.pairs() == self.pairs().take(i as int),
            decreases n - i,
        {
            proof {
                lemma_next_pair(self.pairs(), i as int);
            }
            out.insert(self.key_at(i).clone(), self.value_at(i).clone());
            i += 1;
        }
        assert(self.pairs().take(n as int) =~= self.pairs());
        out
    }
}

} // verus!
