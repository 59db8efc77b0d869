//! A string-keyed map that keeps its entries in insertion order.
use vstd::prelude::*;

verus! {

/// Values that can be copied exactly.
pub trait Duplicate: View + Sized {
    fn duplicate(&self) -> (r: Self)
        ensures
            r@ == self@,
    ;
}

/// No two entries share a key.
pub open spec fn keys_distinct<V>(s: Seq<(String, V)>) -> bool {
    forall|i: int, j: int| 0 <= i < j < s.len() ==> s[i].0@ != s[j].0@
}

/// The map that a list of entries stands for: a later entry wins over an earlier one.
pub open spec fn entries_map<V: View>(s: Seq<(String, V)>) -> Map<Seq<char>, V::V>
    decreases s.len(),
{
    if s.len() == 0 {
        Map::empty()
    } else {
        entries_map(s.drop_last()).insert(s.last().0@, s.last().1@)
    }
}

/// With distinct keys, the map holds exactly the keys of the entries, each with its
/// entry's value.
pub proof fn lemma_entries_map<V: View>(s: Seq<(String, V)>)
    requires
        keys_distinct(s),
    ensures
        forall|k: Seq<char>|
            entries_map(s).contains_key(k) <==> exists|i: int| 0 <= i < s.len() && #[trigger] s[i].0@
                == k,
        forall|i: int| 0 <= i < s.len() ==> entries_map(s)[#[trigger] s[i].0@] == s[i].1@,
        entries_map(s).dom().finite(),
        entries_map(s).dom().len() == s.len(),
    decreases s.len(),
{
    if s.len() > 0 {
        let t = s.drop_last();
        assert(keys_distinct(t));
        lemma_entries_map(t);
        let k = s.last().0@;
        assert(!entries_map(t).contains_key(k)) by {
            if entries_map(t).contains_key(k) {
                let i = choose|i: int| 0 <= i < t.len() && #[trigger] t[i].0@ == k;
                assert(s[i].0@ == s[s.len() - 1].0@);
            }
        }
        assert forall|k2: Seq<char>| entries_map(s).contains_key(k2) implies exists|i: int|
            0 <= i < s.len() && #[trigger] s[i].0@ == k2 by {
            if k2 == k {
                assert(s[s.len() - 1].0@ == k2);
            } else {
                let i = choose|i: int| 0 <= i < t.len() && #[trigger] t[i].0@ == k2;
                assert(s[i].0@ == k2);
            }
        }
        assert forall|k2: Seq<char>|
            (exists|i: int| 0 <= i < s.len() && #[trigger] s[i].0@ == k2) implies entries_map(
            s,
        ).contains_key(k2) by {
            let i = choose|i: int| 0 <= i < s.len() && #[trigger] s[i].0@ == k2;
            if i < s.len() - 1 {
                assert(t[i].0@ == k2);
            }
        }
        assert forall|i: int| 0 <= i < s.len() implies entries_map(s)[#[trigger] s[i].0@]
            == s[i].1@ by {
            if i < s.len() - 1 {
                assert(t[i] == s[i]);
                assert(s[i].0@ != k);
            }
        }
    }
}

/// Position of the entry for `key`, if any.
fn find_key<V>(entries: &Vec<(String, V)>, key: &str) -> (r: Option<usize>)
    ensures
        match r {
            Some(i) => i < entries@.len() && entries@[i as int].0@ == key@,
            None => forall|i: int|
                0 <= i < entries@.len() ==> entries@[i].0@ != key@,
        },
{
    let mut i: usize = 0;
    while i < entries.len()
        invariant
            0 <= i <= entries@.len(),
            forall|j: int| 0 <= j < i ==> entries@[j].0@ != key@,
        decreases entries@.len() - i,
    {
        if crate::text::str_eq(entries[i].0.as_str(), key) {
            return Some(i);
        }
        i = i + 1;
    }
    None
}

/// A map from strings to values whose entries keep the order in which their keys were
/// first inserted.
#[derive(Debug)]
pub struct StrMap<V: View> {
    entries: Vec<(String, V)>,
}

impl<V: View> View for StrMap<V> {
    type V = Map<Seq<char>, V::V>;

    closed spec fn view(&self) -> Map<Seq<char>, V::V> {
        entries_map(self.entries@)
    }
}

impl<V: View> StrMap<V> {
    #[verifier::type_invariant]
    spec fn wf(self) -> bool {
        keys_distinct(self.entries@)
    }

    /// An empty map.
    pub fn new() -> (r: Self)
        ensures
            r@ == Map::<Seq<char>, V::V>::empty(),
    {
        StrMap { entries: Vec::new() }
    }

    /// Number of entries.
    pub fn len(&self) -> (r: usize)
        ensures
            r == self@.dom().len(),
    {
        proof {
            use_type_invariant(self);
            lemma_entries_map(self.entries@);
        }
        self.entries.len()
    }

    /// The entries in insertion order.
    pub fn pairs(&self) -> (r: &Vec<(String, V)>)
        ensures
            keys_distinct(r@),
            entries_map(r@) == self@,
    {
        proof {
            use_type_invariant(self);
        }
        &self.entries
    }

    /// The value for `key`.
    pub fn get(&self, key: &str) -> (r: Option<&V>)
        ensures
            match r {
                Some(v) => self@.contains_key(key@) && v@ == self@[key@],
                None => !self@.contains_key(key@),
            },
    {
        proof {
            use_type_invariant(self);
            lemma_entries_map(self.entries@);
        }
        match find_key(&self.entries, key) {
            Some(i) => Some(&self.entries[i].1),
            None => None,
        }
    }

    /// Whether `key` has an entry.
    pub fn contains_key(&self, key: &str) -> (r: bool)
        ensures
            r == self@.contains_key(key@),
    {
        proof {
            use_type_invariant(self);
            lemma_entries_map(self.entries@);
        }
        find_key(&self.entries, key).is_some()
    }

    /// Sets the value for `key`; a new key goes after the existing ones.
    pub fn insert(&mut self, key: String, value: V)
        ensures
            final(self)@ == old(self)@.insert(key@, value@),
    {
        proof {
            use_type_invariant(&*self);
            lemma_entries_map(self.entries@);
        }
        let ghost old_entries = self.entries@;
        let mut es: Vec<(String, V)> = Vec::new();
        std::mem::swap(&mut es, &mut self.entries);
        match find_key(&es, key.as_str()) {
            Some(i) => {
                let ghost k = key@;
                let ghost v = value@;
                let ghost t = old_entries.update(i as int, (key, value));
                proof {
                    assert(keys_distinct(t)) by {
                        assert forall|a: int, b: int| 0 <= a < b < t.len() implies t[a].0@
                            != t[b].0@ by {
                            if a != i && b != i {
                                assert(t[a] == old_entries[a] && t[b] == old_entries[b]);
                            } else if a == i {
                                assert(t[b] == old_entries[b]);
                            } else {
                                assert(t[a] == old_entries[a]);
                            }
                        }
                    }
                    lemma_entries_map(t);
                    assert(entries_map(t) =~= entries_map(old_entries).insert(k, v)) by {
                        assert forall|k2: Seq<char>| #[trigger]
                            entries_map(t).contains_key(k2) implies entries_map(
                            old_entries,
                        ).insert(k, v).contains_key(k2) && entries_map(t)[k2] == entries_map(
                            old_entries,
                        ).insert(k, v)[k2] by {
                            let j = choose|j: int| 0 <= j < t.len() && #[trigger] t[j].0@ == k2;
                            if j != i {
                                assert(t[j] == old_entries[j]);
                            }
                        }
                        assert forall|k2: Seq<char>| #[trigger]
                            entries_map(old_entries).insert(k, v).contains_key(k2) implies entries_map(
                            t,
                        ).contains_key(k2) by {
                            if k2 != k {
                                let j = choose|j: int|
                                    0 <= j < old_entries.len() && #[trigger] old_entries[j].0@ == k2;
                                assert(t[j] == old_entries[j]);
                            } else {
                                assert(t[i as int].0@ == k);
                            }
                        }
                    }
                }
                es.set(i, (key, value));
                assert(es@ == t);
                self.entries = es;
            },
            None => {
                let ghost t = old_entries.push((key, value));
                proof {
                    assert(t.drop_last() =~= old_entries);
                }
                es.push((key, value));
                assert(es@ == t);
                self.entries = es;
            },
        }
    }
}

impl<V: Duplicate> Duplicate for StrMap<V> {
    fn duplicate(&self) -> (r: Self) {
        proof {
            use_type_invariant(self);
        }
        let mut out: Vec<(String, V)> = Vec::new();
        let mut i: usize = 0;
        while i < self.entries.len()
            invariant
                0 <= i <= self.entries@.len(),
                keys_distinct(self.entries@),
                out@.len() == i,
                forall|j: int|
                    0 <= j < i ==> (#[trigger] out@[j]).0@ == self.entries@[j].0@ && out@[j].1@
                        == self.entries@[j].1@,
            decreases self.entries@.len() - i,
        {
            let k = self.entries[i].0.clone();
            let v = self.entries[i].1.duplicate();
            out.push((k, v));
            i = i + 1;
        }
        proof {
            assert(keys_distinct(out@)) by {
                assert forall|a: int, b: int| 0 <= a < b < out@.len() implies out@[a].0@
                    != out@[b].0@ by {
                    assert(out@[a].0@ == self.entries@[a].0@);
                    assert(out@[b].0@ == self.entries@[b].0@);
                }
            }
            lemma_same_entries_map(out@, self.entries@);
        }
        StrMap { entries: out }
    }
}

/// Entry lists that agree key by key and value view by value view stand for the same map.
pub proof fn lemma_same_entries_map<V: View>(a: Seq<(String, V)>, b: Seq<(String, V)>)
    requires
        a.len() == b.len(),
        forall|j: int| 0 <= j < a.len() ==> (#[trigger] a[j]).0@ == b[j].0@ && a[j].1@ == b[j].1@,
    ensures
        entries_map(a) == entries_map(b),
    decreases a.len(),
{
    if a.len() > 0 {
        lemma_same_entries_map(a.drop_last(), b.drop_last());
        assert(a.last().0@ == b.last().0@);
    }
}

} // verus!
