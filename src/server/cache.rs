//! The tag directory: at most one entry per tag, with insert returning
//! the entry it displaces. A single owner applies the commands one at a
//! time, so every caller sees them in one order.
use vstd::prelude::*;

verus! {

/// A map from tags to entries, kept as a list of distinct keys.
pub struct Directory<V> {
    entries: Vec<(String, V)>,
}

/// Whether a list of entries holds each key at most once.
pub open spec fn keys_distinct<V>(s: Seq<(String, V)>) -> bool {
    forall|i: int, j: int|
        0 <= i < s.len() && 0 <= j < s.len() && #[trigger] s[i].0@ == #[trigger] s[j].0@ ==> i == j
}

/// Whether `k` is the key of some entry.
pub open spec fn has_key<V>(s: Seq<(String, V)>, k: Seq<char>) -> bool {
    exists|i: int| 0 <= i < s.len() && #[trigger] s[i].0@ == k
}

/// The map that a list of entries denotes.
pub open spec fn map_of<V>(s: Seq<(String, V)>) -> Map<Seq<char>, V> {
    Map::new(
        |k: Seq<char>| has_key(s, k),
        |k: Seq<char>| s[choose|i: int| 0 <= i < s.len() && #[trigger] s[i].0@ == k].1,
    )
}

proof fn lemma_value_at<V>(s: Seq<(String, V)>, i: int)
    requires
        keys_distinct(s),
        0 <= i < s.len(),
    ensures
        map_of(s).contains_key(s[i].0@),
        map_of(s)[s[i].0@] == s[i].1,
{
    let k = s[i].0@;
    assert(has_key(s, k));
    let j = choose|j: int| 0 <= j < s.len() && #[trigger] s[j].0@ == k;
    assert(s[j].0@ == s[i].0@);
}

proof fn lemma_push<V>(s: Seq<(String, V)>, k: String, v: V)
    requires
        keys_distinct(s),
        !has_key(s, k@),
    ensures
        keys_distinct(s.push((k, v))),
        map_of(s.push((k, v))) == map_of(s).insert(k@, v),
{
    let t = s.push((k, v));
    assert forall|i: int, j: int|
        0 <= i < t.len() && 0 <= j < t.len() && #[trigger] t[i].0@ == #[trigger] t[j].0@ implies i == j by {
        if i < s.len() && j < s.len() {
            assert(s[i].0@ == s[j].0@);
        } else if i < s.len() {
            assert(s[i].0@ == k@);
        } else if j < s.len() {
            assert(s[j].0@ == k@);
        }
    }
    assert forall|key: Seq<char>| has_key(t, key) <==> map_of(s).insert(k@, v).contains_key(key) by {
        if has_key(t, key) {
            let i = choose|i: int| 0 <= i < t.len() && #[trigger] t[i].0@ == key;
            if i < s.len() {
                assert(s[i].0@ == key);
            }
        }
        if has_key(s, key) {
            let i = choose|i: int| 0 <= i < s.len() && #[trigger] s[i].0@ == key;
            assert(t[i].0@ == key);
        }
        if key == k@ {
            assert(t[s.len() as int].0@ == key);
        }
    }
    assert forall|key: Seq<char>| #[trigger] map_of(t).contains_key(key) implies map_of(t)[key]
        == map_of(s).insert(k@, v)[key] by {
        let i = choose|i: int| 0 <= i < t.len() && #[trigger] t[i].0@ == key;
        lemma_value_at(t, i);
        if i < s.len() {
            assert(s[i] == t[i]);
            lemma_value_at(s, i);
        }
    }
    assert(map_of(t) =~= map_of(s).insert(k@, v));
}

proof fn lemma_remove<V>(s: Seq<(String, V)>, i: int)
    requires
        keys_distinct(s),
        0 <= i < s.len(),
    ensures
        keys_distinct(s.remove(i)),
        map_of(s.remove(i)) == map_of(s).remove(s[i].0@),
{
    let t = s.remove(i);
    let k = s[i].0@;
    assert forall|a: int| 0 <= a < t.len() implies #[trigger] t[a] == s[if a < i { a } else { a + 1 }] by {}
    assert forall|a: int, b: int|
        0 <= a < t.len() && 0 <= b < t.len() && #[trigger] t[a].0@ == #[trigger] t[b].0@ implies a == b by {
        let a1 = if a < i { a } else { a + 1 };
        let b1 = if b < i { b } else { b + 1 };
        assert(t[a] == s[a1] && t[b] == s[b1]);
        assert(s[a1].0@ == s[b1].0@);
    }
    assert forall|key: Seq<char>| has_key(t, key) <==> map_of(s).remove(k).contains_key(key) by {
        if has_key(t, key) {
            let a = choose|a: int| 0 <= a < t.len() && #[trigger] t[a].0@ == key;
            let a1 = if a < i { a } else { a + 1 };
            assert(t[a] == s[a1]);
            assert(s[a1].0@ == key);
            assert(a1 != i);
        }
        if has_key(s, key) && key != k {
            let a1 = choose|a: int| 0 <= a < s.len() && #[trigger] s[a].0@ == key;
            assert(a1 != i);
            let a = if a1 < i { a1 } else { a1 - 1 };
            assert(t[a] == s[a1]);
            assert(t[a].0@ == key);
        }
    }
    assert forall|key: Seq<char>| #[trigger] map_of(t).contains_key(key) implies map_of(t)[key]
        == map_of(s).remove(k)[key] by {
        let a = choose|a: int| 0 <= a < t.len() && #[trigger] t[a].0@ == key;
        let a1 = if a < i { a } else { a + 1 };
        assert(t[a] == s[a1]);
        lemma_value_at(t, a);
        lemma_value_at(s, a1);
    }
    assert(map_of(t) =~= map_of(s).remove(k));
}

proof fn lemma_len_of<V>(s: Seq<(String, V)>)
    requires
        keys_distinct(s),
    ensures
        map_of(s).dom().finite(),
        map_of(s).len() == s.len(),
    decreases s.len(),
{
    if s.len() == 0 {
        assert(map_of(s) =~= Map::<Seq<char>, V>::empty());
    } else {
        let i = s.len() - 1;
        let t = s.remove(i);
        let k = s[i].0@;
        lemma_remove(s, i);
        lemma_value_at(s, i);
        lemma_len_of(t);
        assert(map_of(s) =~= map_of(t).insert(k, map_of(s)[k]));
    }
}

impl<V> View for Directory<V> {
    type V = Map<Seq<char>, V>;

    closed spec fn view(&self) -> Map<Seq<char>, V> {
        map_of(self.entries@)
    }
}

impl<V> Directory<V> {
    /// The internal invariant: no tag appears twice.
    pub closed spec fn wf(&self) -> bool {
        keys_distinct(self.entries@)
    }

    /// How many entries are stored.
    pub closed spec fn entry_count(&self) -> nat {
        self.entries@.len()
    }

    /// An empty directory.
    pub fn new() -> (r: Directory<V>)
        ensures
            r.wf(),
            r@ == Map::<Seq<char>, V>::empty(),
    {
        let r = Directory { entries: Vec::new() };
        assert(r@ =~= Map::<Seq<char>, V>::empty());
        r
    }

    /// Position of `key` among the entries, if it is there.
    fn find(&self, key: &String) -> (r: Option<usize>)
        requires
            self.wf(),
        ensures
            match r {
                Some(i) => i < self.entries@.len() && self.entries@[i as int].0@ == key@,
                None => !has_key(self.entries@, key@),
            },
    {
        let mut i: usize = 0;
        while i < self.entries.len()
            invariant
                0 <= i <= self.entries@.len(),
                forall|j: int| 0 <= j < i ==> self.entries@[j].0@ != key@,
            decreases self.entries@.len() - i,
        {
            if self.entries[i].0 == *key {
                return Some(i);
            }
            i = i + 1;
        }
        None
    }

    /// The number of tags in the directory.
    pub fn len(&self) -> (r: usize)
        requires
            self.wf(),
        ensures
            r == self@.len(),
    {
        proof {
            self.lemma_len();
        }
        self.entries.len()
    }

    proof fn lemma_len(&self)
        requires
            self.wf(),
        ensures
            self@.len() == self.entries@.len(),
    {
        lemma_len_of(self.entries@);
    }

    /// The entry of `key`, if any.
    pub fn get(&self, key: &String) -> (r: Option<&V>)
        requires
            self.wf(),
        ensures
            match r {
                Some(v) => self@.contains_key(key@) && *v == self@[key@],
                None => !self@.contains_key(key@),
            },
    {
        match self.find(key) {
            Some(i) => {
                proof {
                    lemma_value_at(self.entries@, i as int);
                }
                Some(&self.entries[i].1)
            },
            None => None,
        }
    }

    /// Sets the entry of `key` to `value`, returning the entry it displaces.
    pub fn insert(&mut self, key: String, value: V) -> (r: Option<V>)
        requires
            old(self).wf(),
        ensures
            final(self).wf(),
            final(self)@ == old(self)@.insert(key@, value),
            match r {
                Some(v) => old(self)@.contains_key(key@) && v == old(self)@[key@],
                None => !old(self)@.contains_key(key@),
            },
    {
        let previous = match self.find(&key) {
            Some(i) => {
                proof {
                    lemma_value_at(self.entries@, i as int);
                    lemma_remove(self.entries@, i as int);
                }
                let (_k, v) = self.entries.remove(i);
                Some(v)
            },
            None => None,
        };
        proof {
            let s = self.entries@;
            if has_key(s, key@) {
                let j = choose|j: int| 0 <= j < s.len() && #[trigger] s[j].0@ == key@;
                assert(map_of(s).contains_key(s[j].0@));
            }
            lemma_push(self.entries@, key, value);
        }
        self.entries.push((key, value));
        proof {
            assert(self@ =~= old(self)@.insert(key@, value));
        }
        previous
    }

    /// Removes the entry of `key`, returning it.
    pub fn remove(&mut self, key: &String) -> (r: Option<V>)
        requires
            old(self).wf(),
        ensures
            final(self).wf(),
            final(self)@ == old(self)@.remove(key@),
            match r {
                Some(v) => old(self)@.contains_key(key@) && v == old(self)@[key@],
                None => !old(self)@.contains_key(key@),
            },
    {
        match self.find(key) {
            Some(i) => {
                proof {
                    lemma_value_at(self.entries@, i as int);
                    lemma_remove(self.entries@, i as int);
                }
                let (_k, v) = self.entries.remove(i);
                Some(v)
            },
            None => {
                assert(self@ =~= old(self)@.remove(key@));
                None
            },
        }
    }
}

/// The map after releasing `k` on behalf of `owner`: the entry goes only
/// when it is owned by `owner`.
pub open spec fn released<W>(m: Map<Seq<char>, (u64, W)>, k: Seq<char>, owner: u64) -> Map<
    Seq<char>,
    (u64, W),
> {
    if m.contains_key(k) && m[k].0 == owner {
        m.remove(k)
    } else {
        m
    }
}

impl<W> Directory<(u64, W)> {
    /// Removes the entry of `key` only if `owner` owns it (the first part
    /// of each value is its owner), returning it; any other entry stays.
    pub fn remove_owned(&mut self, key: &String, owner: u64) -> (r: Option<(u64, W)>)
        requires
            old(self).wf(),
        ensures
            final(self).wf(),
            final(self)@ == released(old(self)@, key@, owner),
            match r {
                Some(v) => old(self)@.contains_key(key@) && old(self)@[key@].0 == owner && v
                    == old(self)@[key@],
                None => !(old(self)@.contains_key(key@) && old(self)@[key@].0 == owner),
            },
    {
        match self.find(key) {
            Some(i) => {
                proof {
                    lemma_value_at(self.entries@, i as int);
                }
                if self.entries[i].1.0 == owner {
                    proof {
                        lemma_remove(self.entries@, i as int);
                    }
                    let (_k, v) = self.entries.remove(i);
                    Some(v)
                } else {
                    None
                }
            },
            None => None,
        }
    }
}

/// A second insert under the same tag displaces the first: a lookup then
/// finds the second value, and the second insert hands back the first.
pub proof fn lemma_insert_insert_get<V>(d: Directory<V>, k: Seq<char>, v1: V, v2: V)
    requires
        d.wf(),
    ensures
        d@.insert(k, v1).contains_key(k),
        d@.insert(k, v1)[k] == v1,
        d@.insert(k, v1).insert(k, v2).contains_key(k),
        d@.insert(k, v1).insert(k, v2)[k] == v2,
{
}

/// After an insert and a remove of the same tag, a lookup finds nothing
/// and a second remove hands back nothing.
pub proof fn lemma_insert_remove_get<V>(d: Directory<V>, k: Seq<char>, v: V)
    requires
        d.wf(),
    ensures
        d@.insert(k, v).contains_key(k),
        d@.insert(k, v)[k] == v,
        !d@.insert(k, v).remove(k).contains_key(k),
        d@.insert(k, v).remove(k).remove(k) == d@.insert(k, v).remove(k),
{
    assert(d@.insert(k, v).remove(k).remove(k) =~= d@.insert(k, v).remove(k));
}

/// A well-formed directory stores one entry per tag: its stored entries
/// are exactly as many as its distinct tags.
pub proof fn lemma_one_entry_per_tag<V>(d: Directory<V>)
    requires
        d.wf(),
    ensures
        d@.dom().finite(),
        d.entry_count() == d@.len(),
{
    lemma_len_of(d.entries@);
}

/// Releasing a tag on behalf of a channel that no longer owns its entry
/// leaves the directory as it is: the entry of a later registrant of the
/// same tag survives the end of an earlier one.
pub proof fn lemma_release_keeps_newer_owner<W>(
    d: Directory<(u64, W)>,
    k: Seq<char>,
    newer: (u64, W),
    older: u64,
)
    requires
        d.wf(),
        newer.0 != older,
    ensures
        released(d@.insert(k, newer), k, older) == d@.insert(k, newer),
        released(d@.insert(k, newer), k, newer.0) == d@.remove(k),
{
    assert(d@.insert(k, newer).remove(k) =~= d@.remove(k));
}

} // verus!
