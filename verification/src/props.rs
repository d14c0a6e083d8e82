//! `PropertyMap`: string keys mapped to string values, kept in the order in
//! which the keys were first inserted. It carries event properties and HTTP
//! headers.

use vstd::prelude::*;

verus! {

/// A key/value pair of strings, taken by the views of its parts.
pub open spec fn pair_view(e: (String, String)) -> (Seq<char>, Seq<char>) {
    (e.0@, e.1@)
}

/// A list of string pairs, each taken by `pair_view`.
pub open spec fn pairs_view(v: Seq<(String, String)>) -> Seq<(Seq<char>, Seq<char>)> {
    v.map_values(|e: (String, String)| pair_view(e))
}

/// The map that a list of entries denotes: a later entry for a key replaces an
/// earlier one.
pub open spec fn entries_map(s: Seq<(Seq<char>, Seq<char>)>) -> Map<Seq<char>, Seq<char>>
    decreases s.len(),
{
    if s.len() == 0 {
        Map::empty()
    } else {
        entries_map(s.drop_last()).insert(s.last().0, s.last().1)
    }
}

/// No key occurs twice in the list.
pub open spec fn keys_distinct(s: Seq<(Seq<char>, Seq<char>)>) -> bool {
    forall|i: int, j: int|
        #![trigger s[i], s[j]]
        0 <= i < s.len() && 0 <= j < s.len() && i != j ==> s[i].0 != s[j].0
}

/// Some entry of the list has key `k`.
pub open spec fn has_key(s: Seq<(Seq<char>, Seq<char>)>, k: Seq<char>) -> bool {
    exists|i: int| 0 <= i < s.len() && #[trigger] s[i].0 == k
}

/// The list after setting key `k` to `v`: the entry with that key is
/// replaced where it stands, or a new entry is appended at the end.
pub open spec fn insert_entry(
    s: Seq<(Seq<char>, Seq<char>)>,
    k: Seq<char>,
    v: Seq<char>,
) -> Seq<(Seq<char>, Seq<char>)> {
    if has_key(s, k) {
        s.update(choose|i: int| 0 <= i < s.len() && #[trigger] s[i].0 == k, (k, v))
    } else {
        s.push((k, v))
    }
}

/// The list after setting each key of `s` in turn, starting from `start`.
pub open spec fn insert_all(
    start: Seq<(Seq<char>, Seq<char>)>,
    s: Seq<(Seq<char>, Seq<char>)>,
) -> Seq<(Seq<char>, Seq<char>)>
    decreases s.len(),
{
    if s.len() == 0 {
        start
    } else {
        insert_entry(insert_all(start, s.drop_last()), s.last().0, s.last().1)
    }
}

pub proof fn lemma_entries_map_absent(s: Seq<(Seq<char>, Seq<char>)>, k: Seq<char>)
    requires
        !has_key(s, k),
    ensures
        !entries_map(s).contains_key(k),
    decreases s.len(),
{
    if s.len() > 0 {
        assert(!has_key(s.drop_last(), k)) by {
            if has_key(s.drop_last(), k) {
                let i = choose|i: int| 0 <= i < s.drop_last().len() && #[trigger] s.drop_last()[i].0 == k;
                assert(s[i].0 == k);
            }
        }
        lemma_entries_map_absent(s.drop_last(), k);
        assert(s[s.len() - 1].0 != k);
    }
}

pub proof fn lemma_entries_map_present(s: Seq<(Seq<char>, Seq<char>)>, k: Seq<char>)
    requires
        entries_map(s).contains_key(k),
    ensures
        has_key(s, k),
{
    if !has_key(s, k) {
        lemma_entries_map_absent(s, k);
    }
}

pub proof fn lemma_entries_map_get(s: Seq<(Seq<char>, Seq<char>)>, i: int)
    requires
        keys_distinct(s),
        0 <= i < s.len(),
    ensures
        entries_map(s).contains_key(s[i].0),
        entries_map(s)[s[i].0] == s[i].1,
    decreases s.len(),
{
    if i < s.len() - 1 {
        let t = s.drop_last();
        assert(keys_distinct(t)) by {
            assert forall|a: int, b: int|
                #![trigger t[a], t[b]]
                0 <= a < t.len() && 0 <= b < t.len() && a != b implies t[a].0 != t[b].0 by {
                assert(t[a] == s[a] && t[b] == s[b]);
            }
        }
        lemma_entries_map_get(t, i);
        assert(t[i] == s[i]);
        assert(s[s.len() - 1].0 != s[i].0);
    }
}

pub proof fn lemma_entries_map_update(s: Seq<(Seq<char>, Seq<char>)>, i: int, v: Seq<char>)
    requires
        keys_distinct(s),
        0 <= i < s.len(),
    ensures
        keys_distinct(s.update(i, (s[i].0, v))),
        entries_map(s.update(i, (s[i].0, v))) =~= entries_map(s).insert(s[i].0, v),
{
    let k = s[i].0;
    let t = s.update(i, (k, v));
    assert(keys_distinct(t)) by {
        assert forall|a: int, b: int|
            #![trigger t[a], t[b]]
            0 <= a < t.len() && 0 <= b < t.len() && a != b implies t[a].0 != t[b].0 by {
            assert(t[a].0 == s[a].0 && t[b].0 == s[b].0);
        }
    }
    let m = entries_map(s).insert(k, v);
    assert forall|key: Seq<char>| #[trigger] entries_map(t).contains_key(key) <==> m.contains_key(key) by {
        if entries_map(t).contains_key(key) {
            lemma_entries_map_present(t, key);
            let j = choose|j: int| 0 <= j < t.len() && #[trigger] t[j].0 == key;
            if j != i {
                lemma_entries_map_get(s, j);
            }
        }
        if m.contains_key(key) && key != k {
            lemma_entries_map_present(s, key);
            let j = choose|j: int| 0 <= j < s.len() && #[trigger] s[j].0 == key;
            lemma_entries_map_get(t, j);
        }
        if key == k {
            lemma_entries_map_get(t, i);
        }
    }
    assert forall|key: Seq<char>| #[trigger] entries_map(t).contains_key(key) implies entries_map(t)[key]
        == m[key] by {
        lemma_entries_map_present(t, key);
        let j = choose|j: int| 0 <= j < t.len() && #[trigger] t[j].0 == key;
        lemma_entries_map_get(t, j);
        if j != i {
            lemma_entries_map_get(s, j);
        }
    }
}

pub proof fn lemma_insert_entry(s: Seq<(Seq<char>, Seq<char>)>, k: Seq<char>, v: Seq<char>)
    requires
        keys_distinct(s),
    ensures
        keys_distinct(insert_entry(s, k, v)),
        entries_map(insert_entry(s, k, v)) =~= entries_map(s).insert(k, v),
{
    if has_key(s, k) {
        let i = choose|i: int| 0 <= i < s.len() && #[trigger] s[i].0 == k;
        lemma_entries_map_update(s, i, v);
    } else {
        let t = s.push((k, v));
        assert(t.drop_last() =~= s);
        assert forall|a: int, b: int|
            #![trigger t[a], t[b]]
            0 <= a < t.len() && 0 <= b < t.len() && a != b implies t[a].0 != t[b].0 by {
            if a < s.len() && b < s.len() {
                assert(t[a] == s[a] && t[b] == s[b]);
            } else if a < s.len() {
                assert(t[a] == s[a]);
            } else {
                assert(t[b] == s[b]);
            }
        }
    }
}

/// String keys mapped to string values, in the order in which keys were first
/// inserted. No key occurs twice.
pub struct PropertyMap {
    entries: Vec<(String, String)>,
}

impl View for PropertyMap {
    type V = Map<Seq<char>, Seq<char>>;

    open spec fn view(&self) -> Map<Seq<char>, Seq<char>> {
        entries_map(self.entries_view())
    }
}

impl PropertyMap {
    /// The entries in order, each taken by the views of key and value.
    pub closed spec fn entries_view(&self) -> Seq<(Seq<char>, Seq<char>)> {
        pairs_view(self.entries@)
    }

    #[verifier::type_invariant]
    closed spec fn wf(&self) -> bool {
        keys_distinct(self.entries_view())
    }

    /// An empty map.
    pub fn new() -> (m: Self)
        ensures
            m.entries_view() == Seq::<(Seq<char>, Seq<char>)>::empty(),
            m@ == Map::<Seq<char>, Seq<char>>::empty(),
    {
        let m = PropertyMap { entries: Vec::new() };
        assert(m.entries_view() =~= Seq::<(Seq<char>, Seq<char>)>::empty());
        m
    }

    /// Number of entries.
    pub fn len(&self) -> (n: usize)
        ensures
            n == self.entries_view().len(),
    {
        self.entries.len()
    }

    fn find(&self, key: &String) -> (r: Option<usize>)
        ensures
            match r {
                Some(i) => i < self.entries_view().len() && self.entries_view()[i as int].0 == key@,
                None => !has_key(self.entries_view(), key@),
            },
    {
        let n = self.entries.len();
        let mut i: usize = 0;
        while i < n
            invariant
                n == self.entries@.len(),
                i <= n,
                forall|j: int| 0 <= j < i ==> #[trigger] self.entries_view()[j].0 != key@,
            decreases n - i,
        {
            if self.entries[i].0 == *key {
                return Some(i);
            }
            i = i + 1;
        }
        None
    }

    /// Whether the map holds `key`.
    pub fn contains_key(&self, key: &String) -> (b: bool)
        ensures
            b == self@.contains_key(key@),
    {
        match self.find(key) {
            Some(i) => {
                proof {
                    use_type_invariant(self);
                    lemma_entries_map_get(self.entries_view(), i as int);
                }
                true
            },
            None => {
                proof {
                    lemma_entries_map_absent(self.entries_view(), key@);
                }
                false
            },
        }
    }

    /// The value stored under `key`, if any.
    pub fn get(&self, key: &String) -> (r: Option<&String>)
        ensures
            match r {
                Some(v) => self@.contains_key(key@) && self@[key@] == v@,
                None => !self@.contains_key(key@),
            },
    {
        match self.find(key) {
            Some(i) => {
                proof {
                    use_type_invariant(self);
                    lemma_entries_map_get(self.entries_view(), i as int);
                }
                Some(&self.entries[i].1)
            },
            None => {
                proof {
                    lemma_entries_map_absent(self.entries_view(), key@);
                }
                None
            },
        }
    }

    /// Sets `key` to `value`: an existing entry keeps its place, a new key
    /// goes last.
    pub fn insert(&mut self, key: String, value: String)
        ensures
            final(self).entries_view() == insert_entry(old(self).entries_view(), key@, value@),
            final(self)@ == old(self)@.insert(key@, value@),
    {
        proof {
            use_type_invariant(&*self);
        }
        let ghost s = self.entries_view();
        let ghost k = key@;
        let ghost v = value@;
        proof {
            lemma_insert_entry(s, k, v);
        }
        let found = self.find(&key);
        let mut entries: Vec<(String, String)> = Vec::new();
        std::mem::swap(&mut entries, &mut self.entries);
        assert(pairs_view(entries@) == s);
        match found {
            Some(i) => {
                proof {
                    let c = choose|j: int| 0 <= j < s.len() && #[trigger] s[j].0 == k;
                    assert(c == i as int) by {
                        if c != i as int {
                            assert(s[c].0 == s[i as int].0);
                        }
                    }
                }
                entries.set(i, (key, value));
                assert(pairs_view(entries@) =~= s.update(i as int, (k, v)));
            },
            None => {
                entries.push((key, value));
                assert(pairs_view(entries@) =~= s.push((k, v)));
            },
        }
        self.entries = entries;
    }

    /// Adds every entry of `other`, in its order; where both hold a key, the
    /// value of `other` wins.
    pub fn extend(&mut self, other: &PropertyMap)
        ensures
            final(self).entries_view() == insert_all(old(self).entries_view(), other.entries_view()),
            final(self)@ == old(self)@.union_prefer_right(other@),
    {
        let ghost start = self@;
        let ghost start_entries = self.entries_view();
        let ghost o = other.entries_view();
        let n = other.entries.len();
        let mut i: usize = 0;
        while i < n
            invariant
                n == other.entries@.len(),
                o == other.entries_view(),
                i <= n,
                self@ == start.union_prefer_right(entries_map(o.take(i as int))),
                self.entries_view() == insert_all(start_entries, o.take(i as int)),
            decreases n - i,
        {
            let k = other.entries[i].0.clone();
            let v = other.entries[i].1.clone();
            self.insert(k, v);
            proof {
                assert(insert_all(start_entries, o.take(i + 1)) == insert_entry(
                    insert_all(start_entries, o.take(i + 1).drop_last()),
                    o.take(i + 1).last().0,
                    o.take(i + 1).last().1,
                ));
                assert(o.take(i + 1).drop_last() =~= o.take(i as int));
                assert(o.take(i + 1).last() == o[i as int]);
                assert(self@ =~= start.union_prefer_right(entries_map(o.take(i + 1))));
            }
            i = i + 1;
        }
        assert(o.take(n as int) =~= o);
    }

    /// A map holding the given entries; for a key given twice the later value
    /// wins, at the place where the key first stood.
    pub fn from_entries(entries: Vec<(String, String)>) -> (m: Self)
        ensures
            m.entries_view() == insert_all(Seq::empty(), pairs_view(entries@)),
            m@ == entries_map(pairs_view(entries@)),
    {
        let ghost s = pairs_view(entries@);
        let mut m = PropertyMap::new();
        let n = entries.len();
        let mut i: usize = 0;
        while i < n
            invariant
                n == entries@.len(),
                s == pairs_view(entries@),
                i <= n,
                m@ == entries_map(s.take(i as int)),
                m.entries_view() == insert_all(Seq::empty(), s.take(i as int)),
            decreases n - i,
        {
            let k = entries[i].0.clone();
            let v = entries[i].1.clone();
            m.insert(k, v);
            proof {
                assert(insert_all(Seq::empty(), s.take(i + 1)) == insert_entry(
                    insert_all(Seq::empty(), s.take(i + 1).drop_last()),
                    s.take(i + 1).last().0,
                    s.take(i + 1).last().1,
                ));
                assert(s.take(i + 1).drop_last() =~= s.take(i as int));
                assert(s.take(i + 1).last() == s[i as int]);
            }
            i = i + 1;
        }
        assert(s.take(n as int) =~= s);
        m
    }

    /// The entries in order, as owned pairs.
    pub fn to_entries(&self) -> (v: Vec<(String, String)>)
        ensures
            pairs_view(v@) == self.entries_view(),
    {
        let mut v: Vec<(String, String)> = Vec::new();
        let n = self.entries.len();
        let mut i: usize = 0;
        while i < n
            invariant
                n == self.entries@.len(),
                i <= n,
                pairs_view(v@) =~= self.entries_view().take(i as int),
            decreases n - i,
        {
            let k = self.entries[i].0.clone();
            let val = self.entries[i].1.clone();
            let ghost before = v@;
            v.push((k, val));
            proof {
                assert(v@ == before.push((k, val)));
                assert(pairs_view(v@) =~= pairs_view(before).push(pair_view((k, val))));
                assert(pair_view((k, val)) == self.entries_view()[i as int]);
                assert(self.entries_view().take(i + 1) =~= self.entries_view().take(i as int).push(
                    self.entries_view()[i as int],
                ));
            }
            i = i + 1;
        }
        v
    }

    /// A copy of the map, with the same entries in the same order.
    pub fn duplicate(&self) -> (m: Self)
        ensures
            m.entries_view() == self.entries_view(),
            m@ == self@,
    {
        proof {
            use_type_invariant(self);
        }
        let v = self.to_entries();
        let m = PropertyMap { entries: v };
        m
    }
}

} // verus!
