//! A map keyed by strings, held as a list of entries with unique keys.
use vstd::prelude::*;
use crate::json::text_eq;

verus! {

/// The map that a list of entries describes; a later entry for a key wins.
pub open spec fn map_of<V>(s: Seq<(String, V)>) -> Map<Seq<char>, V>
    decreases s.len(),
{
    if s.len() == 0 {
        Map::empty()
    } else {
        map_of(s.drop_last()).insert(s.last().0@, s.last().1)
    }
}

pub open spec fn keys_unique<V>(s: Seq<(String, V)>) -> bool {
    forall|i: int, j: int| 0 <= i < s.len() && 0 <= j < s.len() && i != j ==> s[i].0@ != s[j].0@
}

/// `a` orders before `b` when, from index `i` on, the first character where
/// they differ is smaller in `a`, or `a` ends first.
pub open spec fn key_lt_from(a: Seq<char>, b: Seq<char>, i: nat) -> bool
    decreases a.len() - i,
{
    if i >= a.len() {
        b.len() > i
    } else if i >= b.len() {
        false
    } else if a[i as int] != b[i as int] {
        a[i as int] < b[i as int]
    } else {
        key_lt_from(a, b, i + 1)
    }
}

/// The order of strings by their characters, as `String`'s `Ord` has it.
pub open spec fn key_lt(a: Seq<char>, b: Seq<char>) -> bool {
    key_lt_from(a, b, 0)
}

/// The entries' keys ascend strictly.
pub open spec fn keys_sorted<V>(s: Seq<(String, V)>) -> bool {
    forall|i: int, j: int| 0 <= i < j < s.len() ==> key_lt(s[i].0@, s[j].0@)
}

proof fn lemma_key_lt_irreflexive(a: Seq<char>, i: nat)
    ensures
        !key_lt_from(a, a, i),
    decreases a.len() - i,
{
    if i < a.len() {
        lemma_key_lt_irreflexive(a, i + 1);
    }
}

proof fn lemma_key_lt_transitive(a: Seq<char>, b: Seq<char>, c: Seq<char>, i: nat)
    requires
        key_lt_from(a, b, i),
        key_lt_from(b, c, i),
    ensures
        key_lt_from(a, c, i),
    decreases a.len() - i,
{
    if i < a.len() && i < b.len() && i < c.len() {
        if a[i as int] == b[i as int] && b[i as int] == c[i as int] {
            lemma_key_lt_transitive(a, b, c, i + 1);
        }
    }
}

/// Two different strings are ordered one way or the other, given that they
/// agree before index `i`.
proof fn lemma_key_lt_total(a: Seq<char>, b: Seq<char>, i: nat)
    requires
        i <= a.len(),
        i <= b.len(),
        forall|j: int| 0 <= j < i ==> a[j] == b[j],
        a != b,
    ensures
        key_lt_from(a, b, i) || key_lt_from(b, a, i),
    decreases a.len() - i,
{
    if i == a.len() && i == b.len() {
        assert(a =~= b);
    } else if i < a.len() && i < b.len() && a[i as int] == b[i as int] {
        lemma_key_lt_total(a, b, i + 1);
    }
}

proof fn lemma_sorted_unique<V>(s: Seq<(String, V)>)
    requires
        keys_sorted(s),
    ensures
        keys_unique(s),
{
    assert forall|i: int, j: int| 0 <= i < s.len() && 0 <= j < s.len() && i != j implies s[i].0@
        != s[j].0@ by {
        if i < j {
            assert(key_lt(s[i].0@, s[j].0@));
            lemma_key_lt_irreflexive(s[i].0@, 0);
        } else {
            assert(key_lt(s[j].0@, s[i].0@));
            lemma_key_lt_irreflexive(s[j].0@, 0);
        }
    }
}

/// Whether `a` orders before `b`.
fn text_lt(a: &str, b: &str) -> (r: bool)
    ensures
        r == key_lt(a@, b@),
{
    let na = a.unicode_len();
    let nb = b.unicode_len();
    let mut i: usize = 0;
    while i < na && i < nb
        invariant
            na == a@.len(),
            nb == b@.len(),
            i <= na,
            i <= nb,
            key_lt(a@, b@) == key_lt_from(a@, b@, i as nat),
        decreases na - i,
    {
        let ca = a.get_char(i);
        let cb = b.get_char(i);
        if ca != cb {
            return ca < cb;
        }
        i = i + 1;
    }
    i == na && i < nb
}

/// Inserting an entry with a new key is an insert into the map.
proof fn lemma_map_of_insert<V>(s: Seq<(String, V)>, p: int, e: (String, V))
    requires
        keys_unique(s),
        0 <= p <= s.len(),
        forall|i: int| 0 <= i < s.len() ==> s[i].0@ != e.0@,
    ensures
        map_of(s.insert(p, e)) == map_of(s).insert(e.0@, e.1),
    decreases s.len(),
{
    let u = s.insert(p, e);
    if p == s.len() {
        assert(u.drop_last() =~= s);
    } else {
        let t = s.drop_last();
        assert(keys_unique(t));
        lemma_map_of_insert(t, p, e);
        assert(u.drop_last() =~= t.insert(p, e));
        assert(u.last() == s.last());
        assert(s[s.len() - 1] == s.last());
        assert(map_of(u) =~= map_of(s).insert(e.0@, e.1));
    }
}

/// A key is in the map exactly when some entry has it; with unique keys that
/// entry gives the value.
proof fn lemma_map_of_entry<V>(s: Seq<(String, V)>, k: Seq<char>)
    requires
        keys_unique(s),
    ensures
        map_of(s).contains_key(k) <==> exists|i: int| 0 <= i < s.len() && s[i].0@ == k,
        forall|i: int| 0 <= i < s.len() && s[i].0@ == k ==> map_of(s)[k] == s[i].1,
    decreases s.len(),
{
    if s.len() > 0 {
        let t = s.drop_last();
        assert(keys_unique(t));
        lemma_map_of_entry(t, k);
        let n = s.len() - 1;
        assert(s[n] == s.last());
        if s.last().0@ == k {
            assert(map_of(s).contains_key(k));
        } else {
            if map_of(s).contains_key(k) {
                let i = choose|i: int| 0 <= i < t.len() && t[i].0@ == k;
                assert(s[i] == t[i]);
            }
            if exists|i: int| 0 <= i < s.len() && s[i].0@ == k {
                let i = choose|i: int| 0 <= i < s.len() && s[i].0@ == k;
                assert(s[i] == t[i]);
                assert(map_of(t).contains_key(k));
            }
        }
        assert forall|i: int| 0 <= i < s.len() && s[i].0@ == k implies map_of(s)[k] == s[i].1 by {
            if i < n {
                assert(s[i] == t[i]);
            }
        }
    }
}

proof fn lemma_map_of_len<V>(s: Seq<(String, V)>)
    requires
        keys_unique(s),
    ensures
        map_of(s).dom().finite(),
        map_of(s).len() == s.len(),
    decreases s.len(),
{
    if s.len() > 0 {
        let t = s.drop_last();
        assert(keys_unique(t));
        lemma_map_of_len(t);
        lemma_map_of_entry(t, s.last().0@);
        assert(!map_of(t).contains_key(s.last().0@)) by {
            if map_of(t).contains_key(s.last().0@) {
                let i = choose|i: int| 0 <= i < t.len() && t[i].0@ == s.last().0@;
                assert(s[i] == t[i]);
            }
        }
    }
}

/// Replacing the value of an entry in place is an insert into the map.
proof fn lemma_map_of_update<V>(s: Seq<(String, V)>, i: int, e: (String, V))
    requires
        keys_unique(s),
        0 <= i < s.len(),
        e.0@ == s[i].0@,
    ensures
        map_of(s.update(i, e)) == map_of(s).insert(e.0@, e.1),
    decreases s.len(),
{
    let u = s.update(i, e);
    if i == s.len() - 1 {
        assert(u.drop_last() =~= s.drop_last());
        assert(map_of(u) =~= map_of(s).insert(e.0@, e.1));
    } else {
        let t = s.drop_last();
        assert(keys_unique(t));
        lemma_map_of_update(t, i, e);
        assert(u.drop_last() =~= t.update(i, e));
        assert(s.last().0@ != e.0@) by {
            assert(s[s.len() - 1] == s.last());
        }
        assert(map_of(u) =~= map_of(s).insert(e.0@, e.1));
    }
}

/// A map from strings to values, held as entries in ascending key order.
#[derive(Debug, Clone, PartialEq)]
pub struct IdMap<V> {
    entries: Vec<(String, V)>,
}

impl<V> View for IdMap<V> {
    type V = Map<Seq<char>, V>;

    closed spec fn view(&self) -> Map<Seq<char>, V> {
        map_of(self.entries@)
    }
}

impl<V> IdMap<V> {
    pub closed spec fn wf(&self) -> bool {
        keys_sorted(self.entries@)
    }

    /// A well-formed map has finitely many keys.
    pub proof fn lemma_finite(&self)
        requires
            self.wf(),
        ensures
            self@.dom().finite(),
    {
        lemma_sorted_unique(self.entries@);
        lemma_map_of_len(self.entries@);
    }

    /// An empty map.
    pub fn new() -> (r: Self)
        ensures
            r.wf(),
            r@ == Map::<Seq<char>, V>::empty(),
    {
        IdMap { entries: Vec::new() }
    }

    /// The number of keys.
    pub fn len(&self) -> (r: usize)
        requires
            self.wf(),
        ensures
            self@.dom().finite(),
            r == self@.len(),
    {
        proof {
            lemma_sorted_unique(self.entries@);
            lemma_map_of_len(self.entries@);
        }
        self.entries.len()
    }

    pub fn is_empty(&self) -> (r: bool)
        requires
            self.wf(),
        ensures
            r == (self@.len() == 0),
    {
        self.len() == 0
    }

    /// The index of the entry for `k`, if there is one.
    fn find(&self, k: &str) -> (r: Option<usize>)
        requires
            self.wf(),
        ensures
            r matches Some(i) ==> i < self.entries@.len() && self.entries@[i as int].0@ == k@,
            r is None ==> !self@.contains_key(k@),
    {
        proof {
            lemma_sorted_unique(self.entries@);
            lemma_map_of_entry(self.entries@, k@);
        }
        let mut i: usize = 0;
        while i < self.entries.len()
            invariant
                i <= self.entries@.len(),
                forall|j: int| 0 <= j < i ==> self.entries@[j].0@ != k@,
            decreases self.entries@.len() - i,
        {
            if text_eq(self.entries[i].0.as_str(), k) {
                return Some(i);
            }
            i = i + 1;
        }
        None
    }

    /// The value stored for `k`.
    pub fn get(&self, k: &str) -> (r: Option<&V>)
        requires
            self.wf(),
        ensures
            r matches Some(v) ==> self@.contains_key(k@) && self@[k@] == *v,
            r is None ==> !self@.contains_key(k@),
    {
        proof {
            lemma_sorted_unique(self.entries@);
            lemma_map_of_entry(self.entries@, k@);
        }
        match self.find(k) {
            Some(i) => Some(&self.entries[i].1),
            None => None,
        }
    }

    pub fn contains_key(&self, k: &str) -> (r: bool)
        requires
            self.wf(),
        ensures
            r == self@.contains_key(k@),
    {
        proof {
            lemma_sorted_unique(self.entries@);
            lemma_map_of_entry(self.entries@, k@);
        }
        self.find(k).is_some()
    }

    /// Stores `v` under `k`, replacing what was stored there.
    pub fn insert(&mut self, k: String, v: V)
        requires
            old(self).wf(),
        ensures
            final(self).wf(),
            final(self)@ == old(self)@.insert(k@, v),
    {
        let ghost s = self.entries@;
        proof {
            lemma_sorted_unique(s);
        }
        // The first entry whose key does not order before `k`.
        let mut p: usize = 0;
        while p < self.entries.len() && text_lt(self.entries[p].0.as_str(), k.as_str())
            invariant
                self.entries@ == s,
                p <= s.len(),
                forall|j: int| 0 <= j < p ==> key_lt(#[trigger] s[j].0@, k@),
            decreases s.len() - p,
        {
            p = p + 1;
        }
        if p < self.entries.len() && text_eq(self.entries[p].0.as_str(), k.as_str()) {
            proof {
                lemma_map_of_update(s, p as int, (k, v));
            }
            self.entries.set(p, (k, v));
            assert(self.entries@ == s.update(p as int, (k, v)));
        } else {
            proof {
                if p < s.len() {
                    lemma_key_lt_total(s[p as int].0@, k@, 0);
                }
                assert forall|j: int| p <= j < s.len() implies key_lt(k@, #[trigger] s[j].0@) by {
                    if j > p {
                        assert(key_lt(s[p as int].0@, s[j].0@));
                        lemma_key_lt_transitive(k@, s[p as int].0@, s[j].0@, 0);
                    }
                }
                assert forall|j: int| 0 <= j < s.len() implies s[j].0@ != k@ by {
                    lemma_key_lt_irreflexive(k@, 0);
                    if j >= p {
                        assert(key_lt(k@, s[j].0@));
                    }
                }
                lemma_map_of_insert(s, p as int, (k, v));
            }
            self.entries.insert(p, (k, v));
            assert(self.entries@ == s.insert(p as int, (k, v)));
            assert(keys_sorted(self.entries@)) by {
                let u = self.entries@;
                assert forall|i: int, j: int| 0 <= i < j < u.len() implies key_lt(
                    u[i].0@,
                    u[j].0@,
                ) by {
                    if j < p {
                        assert(u[i] == s[i] && u[j] == s[j]);
                    } else if j == p {
                        assert(u[i] == s[i]);
                    } else if i < p {
                        assert(u[i] == s[i] && u[j] == s[j - 1]);
                        assert(key_lt(k@, s[j - 1].0@));
                        lemma_key_lt_transitive(s[i].0@, k@, s[j - 1].0@, 0);
                    } else if i == p {
                        assert(u[j] == s[j - 1]);
                        assert(key_lt(k@, s[j - 1].0@));
                    } else {
                        assert(u[i] == s[i - 1] && u[j] == s[j - 1]);
                    }
                }
            }
        }
    }

    /// The key and value of the `i`-th entry, in ascending key order.
    pub fn entry_at(&self, i: usize) -> (r: (&String, &V))
        requires
            self.wf(),
            i < self@.len(),
        ensures
            self@.contains_key(r.0@),
            self@[r.0@] == *r.1,
            forall|j: usize| j < i ==> #[trigger] key_lt(self.spec_key_at(j), r.0@),
    {
        proof {
            lemma_sorted_unique(self.entries@);
            lemma_map_of_len(self.entries@);
            lemma_map_of_entry(self.entries@, self.entries@[i as int].0@);
        }
        (&self.entries[i].0, &self.entries[i].1)
    }

    /// The key of the `i`-th entry, in ascending key order.
    pub closed spec fn spec_key_at(&self, i: usize) -> Seq<char> {
        self.entries@[i as int].0@
    }

    /// Stores every entry of `other`, each replacing what was stored under its
    /// key.
    pub fn extend(&mut self, other: IdMap<V>)
        requires
            old(self).wf(),
            other.wf(),
        ensures
            final(self).wf(),
            final(self)@ == old(self)@.union_prefer_right(other@),
    {
        proof {
            lemma_sorted_unique(other.entries@);
        }
        let mut rest = other.entries;
        while rest.len() > 0
            invariant
                self.wf(),
                keys_unique(rest@),
                old(self)@.union_prefer_right(other@) == self@.union_prefer_right(map_of(rest@)),
            decreases rest@.len(),
        {
            let ghost before = rest@;
            let (k, v) = rest.pop().unwrap();
            assert(rest@ =~= before.drop_last());
            assert(keys_unique(rest@));
            proof {
                lemma_map_of_entry(rest@, k@);
                assert(!map_of(rest@).contains_key(k@)) by {
                    if map_of(rest@).contains_key(k@) {
                        let j = choose|j: int| 0 <= j < rest@.len() && rest@[j].0@ == k@;
                        assert(before[j] == rest@[j]);
                        assert(before[before.len() - 1] == before.last());
                    }
                }
            }
            let ghost mid = self@;
            self.insert(k, v);
            assert(mid.union_prefer_right(map_of(before)) =~= self@.union_prefer_right(
                map_of(rest@),
            ));
        }
        assert(map_of(rest@) =~= Map::<Seq<char>, V>::empty());
        assert(self@.union_prefer_right(map_of(rest@)) =~= self@);
    }
}

} // verus!
