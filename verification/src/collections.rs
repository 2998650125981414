//! A set of strings and a map keyed by strings, kept in insertion order.
//!
//! Both are small vectors without repeated keys. Their views are the
//! mathematical set and map; the order is visible only through `items` and
//! `entries`, which exist so that a caller can write the contents out.

use vstd::prelude::*;
use crate::text::str_eq;

verus! {

/// The character sequences of a sequence of strings.
pub open spec fn texts(v: Seq<String>) -> Seq<Seq<char>> {
    Seq::new(v.len(), |i: int| v[i]@)
}

/// The keys of a sequence of entries, in order.
pub open spec fn entry_keys<V>(es: Seq<(String, V)>) -> Seq<Seq<char>> {
    Seq::new(es.len(), |i: int| es[i].0@)
}

/// The map that a sequence of entries stands for. Where a key occurs once,
/// it maps to the value beside it.
pub open spec fn entries_map<V>(es: Seq<(String, V)>) -> Map<Seq<char>, V> {
    Map::new(
        |k: Seq<char>| entry_keys(es).contains(k),
        |k: Seq<char>| es[entry_keys(es).index_of(k)].1,
    )
}

proof fn lemma_entry_at<V>(es: Seq<(String, V)>, i: int)
    requires
        entry_keys(es).no_duplicates(),
        0 <= i < es.len(),
    ensures
        entries_map(es).contains_key(es[i].0@),
        entries_map(es)[es[i].0@] == es[i].1,
        entry_keys(es).index_of(es[i].0@) == i,
{
    let keys = entry_keys(es);
    assert(keys[i] == es[i].0@);
    assert(keys.contains(es[i].0@));
    let j = keys.index_of(es[i].0@);
    assert(0 <= j < keys.len() && keys[j] == es[i].0@);
}

proof fn lemma_entries_push<V>(es: Seq<(String, V)>, k: String, v: V)
    requires
        entry_keys(es).no_duplicates(),
        !entry_keys(es).contains(k@),
    ensures
        entry_keys(es.push((k, v))).no_duplicates(),
        entries_map(es.push((k, v))) == entries_map(es).insert(k@, v),
{
    let next = es.push((k, v));
    let keys = entry_keys(es);
    let next_keys = entry_keys(next);
    assert(next_keys =~= keys.push(k@));
    assert forall|i: int, j: int|
        0 <= i < next_keys.len() && 0 <= j < next_keys.len() && i != j implies next_keys[i]
        != next_keys[j] by {
        if i < keys.len() {
            assert(keys[i] == next_keys[i]);
        }
        if j < keys.len() {
            assert(keys[j] == next_keys[j]);
        }
    }
    assert forall|q: Seq<char>| entries_map(next).contains_key(q) <==> entries_map(es).insert(
        k@,
        v,
    ).contains_key(q) by {
        if keys.contains(q) {
            let i = keys.index_of(q);
            assert(next_keys[i] == q);
        }
        if next_keys.contains(q) && q != k@ {
            let i = next_keys.index_of(q);
            assert(keys[i] == q);
        }
        assert(next_keys[es.len() as int] == k@);
    }
    assert forall|q: Seq<char>| entries_map(next).contains_key(q) implies entries_map(next)[q]
        == entries_map(es).insert(k@, v)[q] by {
        let i = next_keys.index_of(q);
        lemma_entry_at(next, i);
        if q != k@ {
            assert(keys[i] == q);
            lemma_entry_at(es, i);
        }
    }
    assert(entries_map(next) =~= entries_map(es).insert(k@, v));
}

proof fn lemma_entries_update<V>(es: Seq<(String, V)>, i: int, k: String, v: V)
    requires
        entry_keys(es).no_duplicates(),
        0 <= i < es.len(),
        es[i].0@ == k@,
    ensures
        entry_keys(es.update(i, (k, v))).no_duplicates(),
        entries_map(es.update(i, (k, v))) == entries_map(es).insert(k@, v),
{
    let next = es.update(i, (k, v));
    assert(entry_keys(next) =~= entry_keys(es));
    assert forall|q: Seq<char>| entries_map(next).contains_key(q) implies entries_map(next)[q]
        == entries_map(es).insert(k@, v)[q] by {
        let j = entry_keys(next).index_of(q);
        assert(entry_keys(next)[j] == q);
        assert(entry_keys(next)[i] == k@);
        lemma_entry_at(next, j);
        lemma_entry_at(es, j);
        if q != k@ {
            assert(next[j] == es[j]);
        }
    }
    lemma_entry_at(es, i);
    assert(entries_map(next) =~= entries_map(es).insert(k@, v));
}

proof fn lemma_entries_remove<V>(es: Seq<(String, V)>, i: int)
    requires
        entry_keys(es).no_duplicates(),
        0 <= i < es.len(),
    ensures
        entry_keys(es.remove(i)).no_duplicates(),
        entries_map(es.remove(i)) == entries_map(es).remove(es[i].0@),
{
    let next = es.remove(i);
    let keys = entry_keys(es);
    let next_keys = entry_keys(next);
    assert(next_keys =~= keys.remove(i));
    assert forall|a: int, b: int|
        0 <= a < next_keys.len() && 0 <= b < next_keys.len() && a != b implies next_keys[a]
        != next_keys[b] by {
        let a0 = if a < i { a } else { a + 1 };
        let b0 = if b < i { b } else { b + 1 };
        assert(next_keys[a] == keys[a0]);
        assert(next_keys[b] == keys[b0]);
    }
    assert forall|q: Seq<char>| entries_map(next).contains_key(q) <==> entries_map(es).remove(
        es[i].0@,
    ).contains_key(q) by {
        if next_keys.contains(q) {
            let a = next_keys.index_of(q);
            let a0 = if a < i { a } else { a + 1 };
            assert(keys[a0] == q);
            assert(keys[i] == es[i].0@);
        }
        if keys.contains(q) && q != es[i].0@ {
            let a0 = keys.index_of(q);
            let a = if a0 < i { a0 } else { a0 - 1 };
            assert(next_keys[a] == q);
        }
    }
    assert forall|q: Seq<char>| entries_map(next).contains_key(q) implies entries_map(next)[q]
        == entries_map(es).remove(es[i].0@)[q] by {
        let a = next_keys.index_of(q);
        let a0 = if a < i { a } else { a + 1 };
        lemma_entry_at(next, a);
        assert(keys[a0] == q);
        lemma_entry_at(es, a0);
    }
    assert(entries_map(next) =~= entries_map(es).remove(es[i].0@));
}

/// The map that results from binding the entries one after the other: where
/// a key occurs more than once, its last entry stands.
pub open spec fn bound_in_order<V>(es: Seq<(String, V)>) -> Map<Seq<char>, V>
    decreases es.len(),
{
    if es.len() == 0 {
        Map::empty()
    } else {
        bound_in_order(es.drop_last()).insert(es.last().0@, es.last().1)
    }
}

/// Entries without a repeated key stand for the map that binding them one
/// after the other gives.
pub proof fn lemma_bound_in_order<V>(es: Seq<(String, V)>)
    requires
        entry_keys(es).no_duplicates(),
    ensures
        bound_in_order(es) == entries_map(es),
    decreases es.len(),
{
    if es.len() == 0 {
        assert(entries_map(es) =~= Map::<Seq<char>, V>::empty());
    } else {
        let front = es.drop_last();
        let keys = entry_keys(es);
        assert(entry_keys(front) =~= keys.drop_last());
        assert forall|i: int, j: int|
            0 <= i < front.len() && 0 <= j < front.len() && i != j implies entry_keys(front)[i]
            != entry_keys(front)[j] by {
            assert(entry_keys(front)[i] == keys[i]);
            assert(entry_keys(front)[j] == keys[j]);
        }
        lemma_bound_in_order(front);
        if entry_keys(front).contains(es.last().0@) {
            let i = entry_keys(front).index_of(es.last().0@);
            assert(keys[i] == es.last().0@);
            assert(keys[es.len() - 1] == es.last().0@);
        }
        lemma_entries_push(front, es.last().0, es.last().1);
        assert(front.push((es.last().0, es.last().1)) =~= es);
    }
}

fn entry_position<V>(es: &Vec<(String, V)>, k: &str) -> (r: Option<usize>)
    ensures
        match r {
            Some(i) => i < es@.len() && es@[i as int].0@ == k@,
            None => !entry_keys(es@).contains(k@),
        },
{
    let mut i: usize = 0;
    while i < es.len()
        invariant
            i <= es.len(),
            forall|j: int| 0 <= j < i ==> es@[j].0@ != k@,
        decreases es.len() - i,
    {
        if str_eq(es[i].0.as_str(), k) {
            return Some(i);
        }
        i += 1;
    }
    None
}

fn text_position(v: &Vec<String>, k: &str) -> (r: Option<usize>)
    ensures
        match r {
            Some(i) => i < v@.len() && v@[i as int]@ == k@,
            None => !texts(v@).contains(k@),
        },
{
    let mut i: usize = 0;
    while i < v.len()
        invariant
            i <= v.len(),
            forall|j: int| 0 <= j < i ==> v@[j]@ != k@,
        decreases v.len() - i,
    {
        if str_eq(v[i].as_str(), k) {
            return Some(i);
        }
        i += 1;
    }
    None
}

/// A finite set of strings.
#[derive(Debug)]
pub struct StrSet {
    items: Vec<String>,
}

impl View for StrSet {
    type V = Set<Seq<char>>;

    closed spec fn view(&self) -> Set<Seq<char>> {
        texts(self.items@).to_set()
    }
}

impl StrSet {
    #[verifier::type_invariant]
    spec fn distinct(self) -> bool {
        texts(self.items@).no_duplicates()
    }

    /// The empty set.
    pub fn new() -> (s: Self)
        ensures
            s@ == Set::<Seq<char>>::empty(),
    {
        let s = StrSet { items: Vec::new() };
        assert(texts(s.items@).to_set() =~= Set::<Seq<char>>::empty());
        s
    }

    /// Every set of this type is finite.
    pub proof fn lemma_finite(self)
        ensures
            self@.finite(),
    {
        vstd::seq_lib::seq_to_set_is_finite(texts(self.items@));
    }

    /// Whether `k` is a member.
    pub fn contains(&self, k: &str) -> (r: bool)
        ensures
            r == self@.contains(k@),
    {
        match text_position(&self.items, k) {
            Some(i) => {
                assert(texts(self.items@)[i as int] == k@);
                true
            },
            None => false,
        }
    }

    /// The number of members.
    pub fn len(&self) -> (r: usize)
        ensures
            r == self@.len(),
    {
        proof {
            use_type_invariant(self);
            texts(self.items@).unique_seq_to_set();
        }
        self.items.len()
    }

    /// Whether the set has no member.
    pub fn is_empty(&self) -> (r: bool)
        ensures
            r == (self@ == Set::<Seq<char>>::empty()),
    {
        let r = self.items.len() == 0;
        proof {
            if r {
                assert(self@ =~= Set::<Seq<char>>::empty());
            } else {
                assert(texts(self.items@)[0] == self.items@[0]@);
                assert(self@.contains(self.items@[0]@));
            }
        }
        r
    }

    /// Adds `k`; returns whether it was new.
    pub fn insert(&mut self, k: String) -> (r: bool)
        ensures
            final(self)@ == old(self)@.insert(k@),
            r == !old(self)@.contains(k@),
    {
        proof {
            use_type_invariant(&*self);
        }
        let ghost before = texts(self.items@);
        match text_position(&self.items, k.as_str()) {
            Some(i) => {
                assert(before[i as int] == k@);
                assert(self@ =~= self@.insert(k@));
                false
            },
            None => {
                let mut items = Vec::new();
                std::mem::swap(&mut items, &mut self.items);
                items.push(k);
                proof {
                    let after = texts(items@);
                    assert(after =~= before.push(k@));
                    assert forall|i: int, j: int|
                        0 <= i < after.len() && 0 <= j < after.len() && i != j implies after[i]
                        != after[j] by {
                        if i < before.len() {
                            assert(before[i] == after[i]);
                        }
                        if j < before.len() {
                            assert(before[j] == after[j]);
                        }
                    }
                    assert forall|q: Seq<char>| after.to_set().contains(q) <==> before.to_set().insert(
                        k@,
                    ).contains(q) by {
                        if before.contains(q) {
                            let i = before.index_of(q);
                            assert(after[i] == q);
                        }
                        if after.contains(q) && q != k@ {
                            let i = after.index_of(q);
                            assert(before[i] == q);
                        }
                        assert(after[before.len() as int] == k@);
                    }
                    assert(after.to_set() =~= before.to_set().insert(k@));
                }
                self.items = items;
                true
            },
        }
    }

    /// Takes `k` out; returns whether it was there.
    pub fn remove(&mut self, k: &str) -> (r: bool)
        ensures
            final(self)@ == old(self)@.remove(k@),
            r == old(self)@.contains(k@),
    {
        proof {
            use_type_invariant(&*self);
        }
        let ghost before = texts(self.items@);
        match text_position(&self.items, k) {
            Some(i) => {
                let mut items = Vec::new();
                std::mem::swap(&mut items, &mut self.items);
                items.remove(i);
                proof {
                    let after = texts(items@);
                    assert(before[i as int] == k@);
                    assert(after =~= before.remove(i as int));
                    assert forall|a: int, b: int|
                        0 <= a < after.len() && 0 <= b < after.len() && a != b implies after[a]
                        != after[b] by {
                        let a0 = if a < i { a } else { a + 1 };
                        let b0 = if b < i { b } else { b + 1 };
                        assert(after[a] == before[a0]);
                        assert(after[b] == before[b0]);
                    }
                    assert forall|q: Seq<char>| after.to_set().contains(q) <==> before.to_set().remove(
                        k@,
                    ).contains(q) by {
                        if after.contains(q) {
                            let a = after.index_of(q);
                            let a0 = if a < i { a } else { a + 1 };
                            assert(before[a0] == q);
                        }
                        if before.contains(q) && q != k@ {
                            let a0 = before.index_of(q);
                            let a = if a0 < i { a0 } else { a0 - 1 };
                            assert(after[a] == q);
                        }
                    }
                    assert(after.to_set() =~= before.to_set().remove(k@));
                }
                self.items = items;
                true
            },
            None => {
                assert(self@ =~= self@.remove(k@));
                false
            },
        }
    }

    /// The set of the strings in `items`.
    pub fn from_items(items: Vec<String>) -> (s: Self)
        ensures
            s@ == texts(items@).to_set(),
    {
        let mut s = StrSet::new();
        assert(texts(items@.take(0)).to_set() =~= Set::<Seq<char>>::empty());
        for item in iter: items
            invariant
                iter.seq() == items@,
                s@ == texts(items@.take(iter.index() as int)).to_set(),
        {
            proof {
                let shorter = texts(items@.take(iter.index() as int));
                let longer = texts(items@.take(iter.index() + 1));
                assert(longer =~= shorter.push(item@));
                assert forall|q: Seq<char>| longer.to_set().contains(q) <==> shorter.to_set().insert(
                    item@,
                ).contains(q) by {
                    if longer.contains(q) {
                        let i = longer.index_of(q);
                        if i < shorter.len() {
                            assert(shorter[i] == q);
                        }
                    }
                    if shorter.contains(q) {
                        let i = shorter.index_of(q);
                        assert(longer[i] == q);
                    }
                    assert(longer[shorter.len() as int] == item@);
                }
                assert(longer.to_set() =~= shorter.to_set().insert(item@));
            }
            s.insert(item);
        }
        assert(items@.take(items@.len() as int) =~= items@);
        s
    }

    /// The members, each once, in the order in which they came in.
    pub fn items(&self) -> (r: &Vec<String>)
        ensures
            texts(r@).no_duplicates(),
            texts(r@).to_set() == self@,
    {
        proof {
            use_type_invariant(self);
        }
        &self.items
    }
}

/// A finite map from strings to `V`.
#[derive(Debug)]
pub struct StrMap<V> {
    entries: Vec<(String, V)>,
}

impl<V> View for StrMap<V> {
    type V = Map<Seq<char>, V>;

    closed spec fn view(&self) -> Map<Seq<char>, V> {
        entries_map(self.entries@)
    }
}

impl<V> StrMap<V> {
    #[verifier::type_invariant]
    spec fn distinct(self) -> bool {
        entry_keys(self.entries@).no_duplicates()
    }

    /// The empty map.
    pub fn new() -> (m: Self)
        ensures
            m@ == Map::<Seq<char>, V>::empty(),
    {
        let m = StrMap { entries: Vec::new() };
        assert(entries_map(m.entries@) =~= Map::<Seq<char>, V>::empty());
        m
    }

    /// Every map of this type has a finite domain.
    pub proof fn lemma_finite(self)
        ensures
            self@.dom().finite(),
    {
        vstd::seq_lib::seq_to_set_is_finite(entry_keys(self.entries@));
        assert(self@.dom() =~= entry_keys(self.entries@).to_set());
    }

    /// The number of keys.
    pub fn len(&self) -> (r: usize)
        ensures
            r == self@.len(),
    {
        proof {
            use_type_invariant(self);
            entry_keys(self.entries@).unique_seq_to_set();
            assert(self@.dom() =~= entry_keys(self.entries@).to_set());
        }
        self.entries.len()
    }

    /// Whether the map has no key.
    pub fn is_empty(&self) -> (r: bool)
        ensures
            r == (self@ == Map::<Seq<char>, V>::empty()),
    {
        let r = self.entries.len() == 0;
        proof {
            if r {
                assert(self@ =~= Map::<Seq<char>, V>::empty());
            } else {
                assert(entry_keys(self.entries@)[0] == self.entries@[0].0@);
                assert(self@.contains_key(self.entries@[0].0@));
            }
        }
        r
    }

    /// Whether `k` is bound.
    pub fn contains_key(&self, k: &str) -> (r: bool)
        ensures
            r == self@.contains_key(k@),
    {
        match entry_position(&self.entries, k) {
            Some(i) => {
                assert(entry_keys(self.entries@)[i as int] == k@);
                true
            },
            None => false,
        }
    }

    /// What `k` is bound to.
    pub fn get(&self, k: &str) -> (r: Option<&V>)
        ensures
            match r {
                Some(v) => self@.contains_key(k@) && *v == self@[k@],
                None => !self@.contains_key(k@),
            },
    {
        proof {
            use_type_invariant(self);
        }
        match entry_position(&self.entries, k) {
            Some(i) => {
                proof {
                    lemma_entry_at(self.entries@, i as int);
                }
                Some(&self.entries[i].1)
            },
            None => None,
        }
    }

    /// Binds `k` to `v`; returns what `k` was bound to before.
    pub fn insert(&mut self, k: String, v: V) -> (r: Option<V>)
        ensures
            final(self)@ == old(self)@.insert(k@, v),
            match r {
                Some(w) => old(self)@.contains_key(k@) && w == old(self)@[k@],
                None => !old(self)@.contains_key(k@),
            },
    {
        proof {
            use_type_invariant(&*self);
        }
        let ghost before = self.entries@;
        let found = entry_position(&self.entries, k.as_str());
        let mut entries = Vec::new();
        std::mem::swap(&mut entries, &mut self.entries);
        match found {
            Some(i) => {
                let gone = entries.remove(i);
                proof {
                    lemma_entry_at(before, i as int);
                    lemma_entries_update(before, i as int, k, v);
                    assert(before.remove(i as int).insert(i as int, (k, v)) =~= before.update(
                        i as int,
                        (k, v),
                    ));
                }
                entries.insert(i, (k, v));
                self.entries = entries;
                Some(gone.1)
            },
            None => {
                proof {
                    lemma_entries_push(before, k, v);
                }
                entries.push((k, v));
                self.entries = entries;
                None
            },
        }
    }

    /// Unbinds `k`; returns what it was bound to.
    pub fn remove(&mut self, k: &str) -> (r: Option<V>)
        ensures
            final(self)@ == old(self)@.remove(k@),
            match r {
                Some(w) => old(self)@.contains_key(k@) && w == old(self)@[k@],
                None => !old(self)@.contains_key(k@),
            },
    {
        proof {
            use_type_invariant(&*self);
        }
        let ghost before = self.entries@;
        match entry_position(&self.entries, k) {
            Some(i) => {
                let mut entries = Vec::new();
                std::mem::swap(&mut entries, &mut self.entries);
                proof {
                    lemma_entry_at(before, i as int);
                    lemma_entries_remove(before, i as int);
                }
                let gone = entries.remove(i);
                self.entries = entries;
                Some(gone.1)
            },
            None => {
                assert(self@ =~= self@.remove(k@));
                None
            },
        }
    }

    /// The map that binding `entries` one after the other gives.
    pub fn from_entries(entries: Vec<(String, V)>) -> (m: Self)
        ensures
            m@ == bound_in_order(entries@),
    {
        let mut m: StrMap<V> = StrMap::new();
        assert(entries@.take(0) =~= Seq::<(String, V)>::empty());
        for entry in iter: entries
            invariant
                iter.seq() == entries@,
                m@ == bound_in_order(entries@.take(iter.index() as int)),
        {
            proof {
                let next = entries@.take(iter.index() + 1);
                assert(next.drop_last() =~= entries@.take(iter.index() as int));
                assert(next.last() == entry);
            }
            m.insert(entry.0, entry.1);
        }
        assert(entries@.take(entries@.len() as int) =~= entries@);
        m
    }

    /// The bindings, each key once, in the order in which the keys came in.
    pub fn entries(&self) -> (r: &Vec<(String, V)>)
        ensures
            entry_keys(r@).no_duplicates(),
            entries_map(r@) == self@,
    {
        proof {
            use_type_invariant(self);
        }
        &self.entries
    }
}

} // verus!
