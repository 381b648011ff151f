//! Collections keyed by text: a map that keeps insertion order and a set
//! that keeps its members in ascending order.

use crate::text::{chars_of, same};
use vstd::prelude::*;

verus! {

/// Some entry is for `key`.
pub open spec fn has_entry<V>(entries: Seq<(String, V)>, key: Seq<char>) -> bool {
    exists|i: int| 0 <= i < entries.len() && (#[trigger] entries[i]).0@ == key
}

/// `i` is the position of the first entry for `key`.
pub open spec fn first_entry<V>(entries: Seq<(String, V)>, key: Seq<char>, i: int) -> bool {
    &&& 0 <= i < entries.len()
    &&& entries[i].0@ == key
    &&& forall|j: int| 0 <= j < i ==> (#[trigger] entries[j]).0@ != key
}

/// The map that a list of entries stands for: the first entry for a key
/// gives its value.
pub open spec fn entries_map<V>(entries: Seq<(String, V)>) -> Map<Seq<char>, V> {
    Map::new(
        |k: Seq<char>| has_entry(entries, k),
        |k: Seq<char>| entries[choose|i: int| first_entry(entries, k, i)].1,
    )
}

/// A map from text to `V`. Keys are compared by their characters.
pub struct StrMap<V> {
    entries: Vec<(String, V)>,
}

impl<V> View for StrMap<V> {
    type V = Map<Seq<char>, V>;

    closed spec fn view(&self) -> Map<Seq<char>, V> {
        entries_map(self.entries@)
    }
}

proof fn lemma_first_entry<V>(entries: Seq<(String, V)>, key: Seq<char>, i: int)
    requires
        first_entry(entries, key, i),
    ensures
        entries_map(entries).contains_key(key),
        entries_map(entries)[key] == entries[i].1,
{
    let j = choose|j: int| first_entry(entries, key, j);
    assert(first_entry(entries, key, j));
    assert(i == j) by {
        if j < i {
            assert(entries[j].0@ != key);
        }
        if i < j {
            assert(entries[i].0@ != key);
        }
    }
}

proof fn lemma_has_first<V>(entries: Seq<(String, V)>, key: Seq<char>, n: int) -> (i: int)
    requires
        0 <= n < entries.len(),
        entries[n].0@ == key,
    ensures
        first_entry(entries, key, i),
    decreases n,
{
    if exists|j: int| 0 <= j < n && (#[trigger] entries[j]).0@ == key {
        let j = choose|j: int| 0 <= j < n && (#[trigger] entries[j]).0@ == key;
        lemma_has_first(entries, key, j)
    } else {
        n
    }
}

/// The value under `k` depends only on the entries for `k`: it is the value
/// of the first of them.
proof fn lemma_value<V>(entries: Seq<(String, V)>, key: Seq<char>) -> (i: int)
    requires
        has_entry(entries, key),
    ensures
        first_entry(entries, key, i),
        entries_map(entries)[key] == entries[i].1,
{
    let n = choose|i: int| 0 <= i < entries.len() && (#[trigger] entries[i]).0@ == key;
    let i = lemma_has_first(entries, key, n);
    lemma_first_entry(entries, key, i);
    i
}

proof fn lemma_remove_first<V>(entries: Seq<(String, V)>, key: Seq<char>, i: int)
    requires
        first_entry(entries, key, i),
    ensures
        forall|k: Seq<char>|
            k != key ==> (#[trigger] entries_map(entries.remove(i)).contains_key(k)
                <==> entries_map(entries).contains_key(k)),
        forall|k: Seq<char>|
            k != key && entries_map(entries).contains_key(k) ==> #[trigger] entries_map(
                entries.remove(i),
            )[k] == entries_map(entries)[k],
{
    let after = entries.remove(i);
    assert(forall|j: int|
        0 <= j < after.len() ==> #[trigger] after[j] == entries[if j < i {
            j
        } else {
            j + 1
        }]);
    assert forall|k: Seq<char>| k != key implies (#[trigger] entries_map(after).contains_key(k)
        <==> entries_map(entries).contains_key(k)) by {
        if has_entry(entries, k) {
            let j = lemma_value(entries, k);
            let m = if j < i { j } else { j - 1 };
            assert(after[m].0@ == k);
        }
        if has_entry(after, k) {
            let j = lemma_value(after, k);
            let m = if j < i { j } else { j + 1 };
            assert(entries[m].0@ == k);
        }
    }
    assert forall|k: Seq<char>| k != key && entries_map(entries).contains_key(k) implies
        #[trigger] entries_map(after)[k] == entries_map(entries)[k] by {
        let j = lemma_value(entries, k);
        let m = if j < i { j } else { j - 1 };
        assert(after[m].0@ == k);
        assert forall|n: int| 0 <= n < m implies (#[trigger] after[n]).0@ != k by {
            let o = if n < i { n } else { n + 1 };
            assert(entries[o].0@ != k);
        }
        lemma_first_entry(after, k, m);
    }
}

impl<V> StrMap<V> {
    /// The keys, each once, in the order of their entries.
    pub closed spec fn order(&self) -> Seq<Seq<char>> {
        distinct(keys_of(self.entries@))
    }

    /// An empty map.
    pub fn new() -> (m: Self)
        ensures
            m@ == Map::<Seq<char>, V>::empty(),
            m.order() == Seq::<Seq<char>>::empty(),
    {
        let m = StrMap { entries: Vec::new() };
        assert(m@ =~= Map::<Seq<char>, V>::empty());
        m
    }

    fn find(&self, key: &str) -> (r: Option<usize>)
        ensures
            match r {
                Some(i) => first_entry(self.entries@, key@, i as int),
                None => !has_entry(self.entries@, key@),
            },
    {
        let mut i: usize = 0;
        while i < self.entries.len()
            invariant
                i <= self.entries@.len(),
                forall|j: int| 0 <= j < i ==> (#[trigger] self.entries@[j]).0@ != key@,
            decreases self.entries@.len() - i,
        {
            if same(&self.entries[i].0, key) {
                return Some(i);
            }
            i += 1;
        }
        None
    }

    /// Whether the map has an entry for `key`.
    pub fn contains(&self, key: &str) -> (r: bool)
        ensures
            r == self@.contains_key(key@),
    {
        self.find(key).is_some()
    }

    /// The value for `key`.
    pub fn get(&self, key: &str) -> (r: Option<&V>)
        ensures
            match r {
                Some(v) => self@.contains_key(key@) && *v == self@[key@],
                None => !self@.contains_key(key@),
            },
    {
        match self.find(key) {
            Some(i) => {
                proof {
                    lemma_first_entry(self.entries@, key@, i as int);
                }
                Some(&self.entries[i].1)
            },
            None => None,
        }
    }

    /// Removes the entry for `key` and gives back its value.
    pub fn take(&mut self, key: &str) -> (r: Option<V>)
        ensures
            final(self)@ == old(self)@.remove(key@),
            match r {
                Some(v) => old(self)@.contains_key(key@) && v == old(self)@[key@],
                None => !old(self)@.contains_key(key@),
            },
    {
        let mut r: Option<V> = None;
        let ghost start = self.entries@;
        let mut next = self.find(key);
        while next.is_some()
            invariant
                match next {
                    Some(i) => first_entry(self.entries@, key@, i as int),
                    None => !has_entry(self.entries@, key@),
                },
                match r {
                    Some(v) => has_entry(start, key@) && v == entries_map(start)[key@],
                    None => self.entries@ == start,
                },
                forall|k: Seq<char>|
                    k != key@ ==> (#[trigger] entries_map(self.entries@).contains_key(k)
                        <==> entries_map(start).contains_key(k)),
                forall|k: Seq<char>|
                    k != key@ && entries_map(start).contains_key(k) ==> #[trigger] entries_map(
                        self.entries@,
                    )[k] == entries_map(start)[k],
            decreases self.entries@.len(),
        {
            let i: usize = match next {
                Some(i) => i,
                None => 0,
            };
            proof {
                lemma_first_entry(self.entries@, key@, i as int);
                lemma_remove_first(self.entries@, key@, i as int);
            }
            let (_, v) = self.entries.remove(i);
            if r.is_none() {
                r = Some(v);
            }
            next = self.find(key);
        }
        assert(!entries_map(self.entries@).contains_key(key@));
        assert(self@ =~= entries_map(start).remove(key@));
        r
    }

    /// Sets the value for `key`, replacing an earlier one.
    pub fn insert(&mut self, key: String, value: V)
        ensures
            final(self)@ == old(self)@.insert(key@, value),
    {
        let ghost start = self@;
        let _ = self.take(&key);
        let ghost before = self.entries@;
        let ghost mid = self@;
        self.entries.push((key, value));
        proof {
            let after = self.entries@;
            assert(after == before.push((key, value)));
            assert(!has_entry(before, key@)) by {
                assert(!mid.contains_key(key@));
            }
            assert(forall|j: int| 0 <= j < before.len() ==> #[trigger] after[j] == before[j]);
            assert(first_entry(after, key@, before.len() as int));
            lemma_first_entry(after, key@, before.len() as int);
            assert forall|k: Seq<char>| #[trigger] entries_map(after).contains_key(k) <==> start.insert(
                key@,
                value,
            ).contains_key(k) by {
                if k != key@ {
                    if has_entry(after, k) {
                        let j = lemma_value(after, k);
                        assert(before[j].0@ == k);
                        assert(mid.contains_key(k));
                    }
                    if start.contains_key(k) {
                        assert(mid.contains_key(k));
                        let j = lemma_value(before, k);
                        assert(after[j].0@ == k);
                    }
                }
            }
            assert forall|k: Seq<char>| #[trigger] entries_map(after).contains_key(k) implies
                entries_map(after)[k] == start.insert(key@, value)[k] by {
                if k != key@ {
                    assert(mid.contains_key(k));
                    let j = lemma_value(before, k);
                    assert(first_entry(after, k, j));
                    lemma_first_entry(after, k, j);
                    assert(mid[k] == start[k]);
                }
            }
            assert(entries_map(after) =~= start.insert(key@, value));
        }
    }

    /// Removes every entry.
    pub fn clear(&mut self)
        ensures
            final(self)@ == Map::<Seq<char>, V>::empty(),
            final(self).order() == Seq::<Seq<char>>::empty(),
    {
        self.entries = Vec::new();
        assert(self@ =~= Map::<Seq<char>, V>::empty());
    }

    /// The keys, each once, in the order of their entries.
    pub fn keys(&self) -> (r: Vec<String>)
        ensures
            texts(r@) == self.order(),
    {
        let mut r: Vec<String> = Vec::new();
        let ghost ks = keys_of(self.entries@);
        let mut i: usize = 0;
        assert(ks.take(0) =~= Seq::<Seq<char>>::empty());
        assert(texts(r@) =~= Seq::<Seq<char>>::empty());
        while i < self.entries.len()
            invariant
                i <= self.entries@.len(),
                ks == keys_of(self.entries@),
                texts(r@) == distinct(ks.take(i as int)),
            decreases self.entries@.len() - i,
        {
            assert(ks.take(i + 1).drop_last() =~= ks.take(i as int));
            assert(ks.take(i + 1).last() == self.entries@[i as int].0@);
            if !holds_text(&r, &self.entries[i].0) {
                let ghost before = texts(r@);
                r.push(self.entries[i].0.clone());
                assert(texts(r@) =~= before.push(self.entries@[i as int].0@));
            }
            i += 1;
        }
        assert(ks.take(ks.len() as int) =~= ks);
        r
    }

    /// [`StrMap::order`] lists every key of the map exactly once.
    pub proof fn order_lists_keys(&self)
        ensures
            self.order().no_duplicates(),
            forall|k: Seq<char>| #[trigger] self.order().contains(k) <==> self@.contains_key(k),
    {
        let ks = keys_of(self.entries@);
        lemma_distinct(ks);
        assert forall|k: Seq<char>| #[trigger] self.order().contains(k) <==> self@.contains_key(k) by {
            if self.order().contains(k) {
                assert(ks.contains(k));
                let i = choose|i: int| 0 <= i < ks.len() && ks[i] == k;
                assert(self.entries@[i].0@ == k);
            }
            if self@.contains_key(k) {
                let i = lemma_value(self.entries@, k);
                assert(ks[i] == k);
                assert(ks.contains(k));
            }
        }
    }
}

/// The keys of a list of entries.
pub open spec fn keys_of<V>(entries: Seq<(String, V)>) -> Seq<Seq<char>> {
    Seq::new(entries.len(), |i: int| entries[i].0@)
}

/// The members of a list in order of first appearance, each once.
pub open spec fn distinct(s: Seq<Seq<char>>) -> Seq<Seq<char>>
    decreases s.len(),
{
    if s.len() == 0 {
        Seq::empty()
    } else {
        let d = distinct(s.drop_last());
        if d.contains(s.last()) {
            d
        } else {
            d.push(s.last())
        }
    }
}

/// [`distinct`] keeps the members and has each once.
pub proof fn lemma_distinct(s: Seq<Seq<char>>)
    ensures
        distinct(s).no_duplicates(),
        forall|k: Seq<char>| #[trigger] distinct(s).contains(k) <==> s.contains(k),
    decreases s.len(),
{
    if s.len() > 0 {
        let t = s.drop_last();
        let d = distinct(t);
        lemma_distinct(t);
        assert forall|k: Seq<char>| #[trigger] distinct(s).contains(k) <==> s.contains(k) by {
            if s.contains(k) && k != s.last() {
                let i = choose|i: int| 0 <= i < s.len() && s[i] == k;
                assert(t[i] == k);
                assert(t.contains(k));
                assert(d.contains(k));
                let j = choose|j: int| 0 <= j < d.len() && d[j] == k;
                assert(distinct(s)[j] == k);
            }
            if k == s.last() {
                assert(s[s.len() - 1] == k);
                if !d.contains(k) {
                    assert(distinct(s)[d.len() as int] == k);
                }
            }
            if distinct(s).contains(k) && k != s.last() {
                let j = choose|j: int| 0 <= j < distinct(s).len() && distinct(s)[j] == k;
                assert(d[j] == k);
                assert(d.contains(k));
                assert(t.contains(k));
                let i = choose|i: int| 0 <= i < t.len() && t[i] == k;
                assert(s[i] == k);
            }
        }
    }
}

/// Whether a list of texts holds `t`.
pub fn holds_text(list: &Vec<String>, t: &str) -> (r: bool)
    ensures
        r == texts(list@).contains(t@),
{
    let ghost all = texts(list@);
    let mut i: usize = 0;
    while i < list.len()
        invariant
            i <= list@.len(),
            all == texts(list@),
            forall|j: int| 0 <= j < i ==> #[trigger] all[j] != t@,
        decreases list@.len() - i,
    {
        assert(all[i as int] == list@[i as int]@);
        if same(&list[i], t) {
            return true;
        }
        i += 1;
    }
    false
}

/// The characters of each text in a list.
pub open spec fn texts(s: Seq<String>) -> Seq<Seq<char>> {
    Seq::new(s.len(), |i: int| s[i]@)
}

/// Ascending order on texts: by the first differing character, a proper
/// prefix first.
pub open spec fn text_less(a: Seq<char>, b: Seq<char>) -> bool
    decreases a.len(),
{
    if b.len() == 0 {
        false
    } else if a.len() == 0 {
        true
    } else if a[0] != b[0] {
        a[0] < b[0]
    } else {
        text_less(a.subrange(1, a.len() as int), b.subrange(1, b.len() as int))
    }
}

/// Strictly ascending.
pub open spec fn ascending(s: Seq<Seq<char>>) -> bool {
    forall|i: int, j: int| 0 <= i < j < s.len() ==> text_less(#[trigger] s[i], #[trigger] s[j])
}

/// The order on texts is transitive.
pub proof fn lemma_less_transitive(a: Seq<char>, b: Seq<char>, c: Seq<char>)
    requires
        text_less(a, b),
        text_less(b, c),
    ensures
        text_less(a, c),
    decreases a.len(),
{
    if a.len() > 0 && b.len() > 0 && c.len() > 0 && a[0] == b[0] && b[0] == c[0] {
        lemma_less_transitive(
            a.subrange(1, a.len() as int),
            b.subrange(1, b.len() as int),
            c.subrange(1, c.len() as int),
        );
    }
}

/// Two texts are equal or one is less than the other.
pub proof fn lemma_less_total(a: Seq<char>, b: Seq<char>)
    ensures
        text_less(a, b) || a == b || text_less(b, a),
    decreases a.len(),
{
    if a.len() > 0 && b.len() > 0 && a[0] == b[0] {
        let a1 = a.subrange(1, a.len() as int);
        let b1 = b.subrange(1, b.len() as int);
        lemma_less_total(a1, b1);
        if a1 == b1 {
            assert(a =~= seq![a[0]] + a1);
            assert(b =~= seq![b[0]] + b1);
        }
    } else if a.len() == 0 && b.len() == 0 {
        assert(a =~= b);
    }
}

/// [`text_less`], computed.
pub fn less(a: &str, b: &str) -> (r: bool)
    ensures
        r == text_less(a@, b@),
{
    let v = chars_of(a);
    let w = chars_of(b);
    let mut i: usize = 0;
    assert(v@.subrange(0, v@.len() as int) =~= a@);
    assert(w@.subrange(0, w@.len() as int) =~= b@);
    while i < v.len() && i < w.len() && v[i] == w[i]
        invariant
            i <= v@.len(),
            i <= w@.len(),
            text_less(a@, b@) == text_less(
                v@.subrange(i as int, v@.len() as int),
                w@.subrange(i as int, w@.len() as int),
            ),
        decreases v@.len() - i,
    {
        let ghost p = v@.subrange(i as int, v@.len() as int);
        let ghost q = w@.subrange(i as int, w@.len() as int);
        assert(p.subrange(1, p.len() as int) =~= v@.subrange(i + 1, v@.len() as int));
        assert(q.subrange(1, q.len() as int) =~= w@.subrange(i + 1, w@.len() as int));
        i += 1;
    }
    if i >= w.len() {
        false
    } else if i >= v.len() {
        true
    } else {
        v[i] < w[i]
    }
}

/// A set of texts that lists its members in ascending order.
pub struct StrSet {
    /// The members; [`StrSet::wf`] says in which order.
    pub items: Vec<String>,
}

impl View for StrSet {
    type V = Set<Seq<char>>;

    open spec fn view(&self) -> Set<Seq<char>> {
        texts(self.items@).to_set()
    }
}

impl StrSet {
    /// The members are listed in strictly ascending order.
    pub open spec fn wf(&self) -> bool {
        ascending(texts(self.items@))
    }

    /// An empty set.
    pub fn new() -> (s: Self)
        ensures
            s.wf(),
            s.items@.len() == 0,
            s@ == Set::<Seq<char>>::empty(),
    {
        let s = StrSet { items: Vec::new() };
        assert(s@ =~= Set::<Seq<char>>::empty());
        s
    }

    /// Whether `key` is a member.
    pub fn contains(&self, key: &str) -> (r: bool)
        ensures
            r == self@.contains(key@),
    {
        let mut i: usize = 0;
        while i < self.items.len()
            invariant
                i <= self.items@.len(),
                forall|j: int| 0 <= j < i ==> (#[trigger] self.items@[j])@ != key@,
            decreases self.items@.len() - i,
        {
            if same(&self.items[i], key) {
                assert(texts(self.items@)[i as int] == key@);
                return true;
            }
            i += 1;
        }
        assert(!self@.contains(key@)) by {
            if texts(self.items@).contains(key@) {
                let j = choose|j: int| 0 <= j < texts(self.items@).len() && texts(self.items@)[j] == key@;
                assert(self.items@[j]@ == key@);
            }
        }
        false
    }

    /// Adds `key` where it is missing and removes it where it is a member.
    pub fn toggle(&mut self, key: String)
        ensures
            old(self)@.contains(key@) ==> final(self)@ == old(self)@.remove(key@),
            !old(self)@.contains(key@) ==> final(self)@ == old(self)@.insert(key@),
            old(self).wf() ==> final(self).wf(),
    {
        if self.contains(&key) {
            self.remove(&key);
        } else {
            self.add(key);
        }
    }

    fn remove(&mut self, key: &str)
        ensures
            final(self)@ == old(self)@.remove(key@),
            old(self).wf() ==> final(self).wf(),
    {
        let ghost start = texts(self.items@);
        let mut i: usize = 0;
        while i < self.items.len()
            invariant
                i <= self.items@.len(),
                forall|j: int| 0 <= j < i ==> #[trigger] texts(self.items@)[j] != key@,
                texts(self.items@).to_set().remove(key@) == start.to_set().remove(key@),
                ascending(start) ==> ascending(texts(self.items@)),
            decreases self.items@.len() - i,
        {
            if same(&self.items[i], key) {
                let ghost before = self.items@;
                let ghost t = texts(before);
                let _ = self.items.remove(i);
                proof {
                    let u = texts(self.items@);
                    assert(self.items@ == before.remove(i as int));
                    assert(forall|j: int|
                        0 <= j < u.len() ==> #[trigger] u[j] == t[if j < i {
                            j
                        } else {
                            j + 1
                        }]);
                    assert(t[i as int] == key@);
                    assert forall|k: Seq<char>|
                        u.to_set().remove(key@).contains(k) <==> t.to_set().remove(key@).contains(k) by {
                        if k != key@ {
                            if u.contains(k) {
                                let j = choose|j: int| 0 <= j < u.len() && u[j] == k;
                                assert(t[if j < i {
                                    j
                                } else {
                                    j + 1
                                }] == k);
                            }
                            if t.contains(k) {
                                let j = choose|j: int| 0 <= j < t.len() && t[j] == k;
                                assert(u[if j < i {
                                    j
                                } else {
                                    j - 1
                                }] == k);
                            }
                        }
                    }
                    assert(u.to_set().remove(key@) =~= t.to_set().remove(key@));
                }
            } else {
                i += 1;
            }
        }
        assert(!texts(self.items@).contains(key@));
        assert(self@ =~= self@.remove(key@));
    }

    fn add(&mut self, key: String)
        requires
            !old(self)@.contains(key@),
        ensures
            final(self)@ == old(self)@.insert(key@),
            old(self).wf() ==> final(self).wf(),
    {
        let ghost before = self.items@;
        let ghost t = texts(before);
        let mut i: usize = 0;
        while i < self.items.len() && less(&self.items[i], &key)
            invariant
                i <= self.items@.len(),
                self.items@ == before,
                forall|j: int| 0 <= j < i ==> text_less((#[trigger] before[j])@, key@),
            decreases self.items@.len() - i,
        {
            i += 1;
        }
        let ghost k0 = key@;
        self.items.insert(i, key);
        proof {
            let u = texts(self.items@);
            assert(self.items@ == before.insert(i as int, key));
            assert(forall|j: int|
                0 <= j < u.len() && j != i ==> #[trigger] u[j] == t[if j < i {
                    j
                } else {
                    j - 1
                }]);
            assert(u[i as int] == k0);
            if ascending(t) {
                assert forall|j: int| i <= j < t.len() implies text_less(k0, #[trigger] t[j]) by {
                    lemma_less_total(t[i as int], k0);
                    assert(t.contains(t[i as int]));
                    if i < j {
                        lemma_less_transitive(k0, t[i as int], t[j]);
                    }
                }
                assert forall|j: int| 0 <= j < i implies text_less(#[trigger] t[j], k0) by {
                    assert(text_less(before[j]@, k0));
                }
                assert forall|a: int, b: int| 0 <= a < b < u.len() implies text_less(
                    #[trigger] u[a],
                    #[trigger] u[b],
                ) by {
                    if a == i {
                        assert(u[b] == t[b - 1]);
                    } else if b == i {
                        assert(u[a] == t[a]);
                    } else {
                        let m = if a < i { a } else { a - 1 };
                        let n = if b < i { b } else { b - 1 };
                        assert(text_less(t[m], t[n]));
                    }
                }
            }
            assert forall|k: Seq<char>| u.to_set().contains(k) <==> t.to_set().insert(k0).contains(
                k,
            ) by {
                if u.contains(k) {
                    let j = choose|j: int| 0 <= j < u.len() && u[j] == k;
                    if j != i {
                        let m = if j < i { j } else { j - 1 };
                        assert(t[m] == k);
                    }
                }
                if t.contains(k) {
                    let j = choose|j: int| 0 <= j < t.len() && t[j] == k;
                    let m = if j < i { j } else { j + 1 };
                    assert(u[m] == k);
                }
                if k == k0 {
                    assert(u[i as int] == k);
                }
            }
            assert(u.to_set() =~= t.to_set().insert(k0));
        }
    }
}

} // verus!
