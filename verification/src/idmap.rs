//! A map from display ids to values, kept as a list in which no id occurs
//! twice.

use crate::text::str_eq;
use vstd::prelude::*;

verus! {

pub struct Entry<V> {
    pub key: String,
    pub value: V,
}

/// A map from ids to values. Its entries are its own: no id occurs twice
/// among them, and nothing outside this file can make one do so.
pub struct IdMap<V> {
    entries: Vec<Entry<V>>,
}

/// Some entry of `s` has the key `key`.
pub open spec fn holds_key<V>(s: Seq<Entry<V>>, key: Seq<char>) -> bool {
    exists|i: int| 0 <= i < s.len() && (#[trigger] s[i]).key@ == key
}

/// The place of an entry with the key `key`.
pub open spec fn slot_of<V>(s: Seq<Entry<V>>, key: Seq<char>) -> int {
    choose|i: int| 0 <= i < s.len() && (#[trigger] s[i]).key@ == key
}

pub open spec fn distinct_keys<V>(s: Seq<Entry<V>>) -> bool {
    forall|i: int, j: int| 0 <= i < j < s.len() ==> (#[trigger] s[i]).key@ != (#[trigger] s[j]).key@
}

/// The map that a list of entries stands for.
pub open spec fn as_map<V: View>(s: Seq<Entry<V>>) -> Map<Seq<char>, V::V> {
    Map::new(|k: Seq<char>| holds_key(s, k), |k: Seq<char>| s[slot_of(s, k)].value@)
}

/// With distinct keys each entry is what the map holds under its key.
pub proof fn lemma_entry<V: View>(s: Seq<Entry<V>>, i: int)
    requires
        distinct_keys(s),
        0 <= i < s.len(),
    ensures
        holds_key(s, s[i].key@),
        slot_of(s, s[i].key@) == i,
        as_map(s).dom().contains(s[i].key@),
        as_map(s)[s[i].key@] == s[i].value@,
{
    assert(s[i].key@ == s[i].key@);
    let j = slot_of(s, s[i].key@);
    assert(0 <= j < s.len() && s[j].key@ == s[i].key@);
    if j < i {
        assert(s[j].key@ != s[i].key@);
    } else if i < j {
        assert(s[i].key@ != s[j].key@);
    }
}

/// Appending an entry under a key that is not yet held inserts it.
pub proof fn lemma_push<V: View>(s: Seq<Entry<V>>, e: Entry<V>)
    requires
        distinct_keys(s),
        !holds_key(s, e.key@),
    ensures
        distinct_keys(s.push(e)),
        as_map(s.push(e)) == as_map(s).insert(e.key@, e.value@),
{
    let t = s.push(e);
    assert forall|i: int, j: int| 0 <= i < j < t.len() implies (#[trigger] t[i]).key@ != (
    #[trigger] t[j]).key@ by {
        if j == s.len() {
            assert(s[i].key@ != e.key@);
        } else {
            assert(s[i].key@ != s[j].key@);
        }
    }
    assert forall|k: Seq<char>| holds_key(t, k) <==> (k == e.key@ || holds_key(s, k)) by {
        if holds_key(t, k) {
            let i = slot_of(t, k);
            if i < s.len() {
                assert(s[i].key@ == k);
            }
        }
        if k == e.key@ {
            assert(t[s.len() as int].key@ == k);
        }
        if holds_key(s, k) {
            let i = slot_of(s, k);
            assert(t[i].key@ == k);
        }
    }
    assert forall|k: Seq<char>| holds_key(t, k) implies #[trigger] as_map(t)[k] == as_map(
        s,
    ).insert(e.key@, e.value@)[k] by {
        if k == e.key@ {
            lemma_entry(t, s.len() as int);
        } else {
            let i = slot_of(s, k);
            lemma_entry(s, i);
            assert(t[i] == s[i]);
            lemma_entry(t, i);
        }
    }
    assert(as_map(t) =~= as_map(s).insert(e.key@, e.value@));
}

/// Replacing the value of an entry inserts the new value under its key.
pub proof fn lemma_update<V: View>(s: Seq<Entry<V>>, i: int, e: Entry<V>)
    requires
        distinct_keys(s),
        0 <= i < s.len(),
        e.key@ == s[i].key@,
    ensures
        distinct_keys(s.update(i, e)),
        as_map(s.update(i, e)) == as_map(s).insert(e.key@, e.value@),
{
    let t = s.update(i, e);
    assert forall|a: int, b: int| 0 <= a < b < t.len() implies (#[trigger] t[a]).key@ != (
    #[trigger] t[b]).key@ by {
        assert(s[a].key@ != s[b].key@);
    }
    assert forall|k: Seq<char>| holds_key(t, k) <==> holds_key(s, k) by {
        if holds_key(t, k) {
            let j = slot_of(t, k);
            assert(s[j].key@ == k);
        }
        if holds_key(s, k) {
            let j = slot_of(s, k);
            assert(t[j].key@ == k);
        }
    }
    lemma_entry(s, i);
    assert forall|k: Seq<char>| holds_key(t, k) implies #[trigger] as_map(t)[k] == as_map(
        s,
    ).insert(e.key@, e.value@)[k] by {
        let j = slot_of(s, k);
        lemma_entry(s, j);
        lemma_entry(t, j);
    }
    assert(as_map(t) =~= as_map(s).insert(e.key@, e.value@));
}

/// Moving the last entry into the place of another removes that one's key.
pub proof fn lemma_swap_remove<V: View>(s: Seq<Entry<V>>, i: int)
    requires
        distinct_keys(s),
        0 <= i < s.len(),
    ensures
        distinct_keys(s.update(i, s.last()).drop_last()),
        as_map(s.update(i, s.last()).drop_last()) == as_map(s).remove(s[i].key@),
{
    let n = s.len() as int;
    let t = s.update(i, s.last()).drop_last();
    let gone = s[i].key@;
    assert forall|a: int, b: int| 0 <= a < b < t.len() implies (#[trigger] t[a]).key@ != (
    #[trigger] t[b]).key@ by {
        let a0 = if a == i { n - 1 } else { a };
        let b0 = if b == i { n - 1 } else { b };
        assert(t[a] == s[a0] && t[b] == s[b0]);
        if a0 < b0 {
            assert(s[a0].key@ != s[b0].key@);
        } else {
            assert(s[b0].key@ != s[a0].key@);
        }
    }
    assert forall|k: Seq<char>| holds_key(t, k) <==> (k != gone && holds_key(s, k)) by {
        if holds_key(t, k) {
            let j = slot_of(t, k);
            let j0 = if j == i { n - 1 } else { j };
            assert(t[j] == s[j0]);
            assert(s[j0].key@ == k);
            if j0 < i {
                assert(s[j0].key@ != s[i].key@);
            } else {
                assert(s[i].key@ != s[j0].key@);
            }
        }
        if k != gone && holds_key(s, k) {
            let j = slot_of(s, k);
            let j1 = if j == n - 1 { i } else { j };
            assert(t[j1] == s[j]);
            assert(t[j1].key@ == k);
        }
    }
    assert forall|k: Seq<char>| holds_key(t, k) implies #[trigger] as_map(t)[k] == as_map(
        s,
    ).remove(gone)[k] by {
        let j = slot_of(t, k);
        let j0 = if j == i { n - 1 } else { j };
        assert(t[j] == s[j0]);
        lemma_entry(t, j);
        lemma_entry(s, j0);
    }
    assert(as_map(t) =~= as_map(s).remove(gone));
}

/// A list with distinct keys stands for a finite map with one key per entry.
pub proof fn lemma_size<V: View>(s: Seq<Entry<V>>)
    requires
        distinct_keys(s),
    ensures
        as_map(s).dom().finite(),
        as_map(s).dom().len() == s.len(),
    decreases s.len(),
{
    if s.len() == 0 {
        assert(as_map(s).dom() =~= Set::<Seq<char>>::empty());
    } else {
        let head = s.drop_last();
        let e = s.last();
        assert forall|i: int, j: int| 0 <= i < j < head.len() implies (#[trigger] head[i]).key@ != (
        #[trigger] head[j]).key@ by {
            assert(s[i].key@ != s[j].key@);
        }
        if holds_key(head, e.key@) {
            let i = slot_of(head, e.key@);
            assert(s[i].key@ != s[s.len() - 1].key@);
        }
        lemma_size(head);
        lemma_push(head, e);
        assert(head.push(e) =~= s);
        assert(as_map(s).dom() =~= as_map(head).dom().insert(e.key@));
    }
}

/// Some id of the list `ids` is `id`.
pub open spec fn holds_id(ids: Seq<String>, id: Seq<char>) -> bool {
    exists|i: int| 0 <= i < ids.len() && (#[trigger] ids[i])@ == id
}

/// No id occurs twice in the list.
pub open spec fn distinct_ids(ids: Seq<String>) -> bool {
    forall|i: int, j: int| 0 <= i < j < ids.len() ==> (#[trigger] ids[i])@ != (#[trigger] ids[j])@
}

/// The entry under `key` is marked in `flags`, which has one mark for each
/// place of the list.
pub open spec fn flagged<V>(s: Seq<Entry<V>>, flags: Seq<bool>, key: Seq<char>) -> bool {
    holds_key(s, key) && flags[slot_of(s, key)]
}

impl<V> IdMap<V> {
    /// No id occurs twice.
    #[verifier::type_invariant]
    spec fn no_id_twice(self) -> bool {
        distinct_keys(self.entries@)
    }

    /// The entries in the order in which they are kept.
    pub closed spec fn entries(&self) -> Seq<Entry<V>> {
        self.entries@
    }
}

impl<V: View> View for IdMap<V> {
    type V = Map<Seq<char>, V::V>;

    closed spec fn view(&self) -> Map<Seq<char>, V::V> {
        as_map(self.entries@)
    }
}

impl<V: View> IdMap<V> {
    /// The map is the one that its entries stand for.
    pub proof fn lemma_view(&self)
        ensures
            self@ == as_map(self.entries()),
    {
    }

    pub fn new() -> (m: Self)
        ensures
            m@ == Map::<Seq<char>, V::V>::empty(),
            m.entries().len() == 0,
    {
        let m = IdMap { entries: Vec::new() };
        assert(m@ =~= Map::<Seq<char>, V::V>::empty());
        m
    }

    /// The number of ids held. The entries are as many, with distinct ids.
    pub fn len(&self) -> (n: usize)
        ensures
            n == self.entries().len(),
            n == self@.dom().len(),
            self@.dom().finite(),
            distinct_keys(self.entries()),
    {
        proof {
            use_type_invariant(self);
            lemma_size(self.entries@);
        }
        self.entries.len()
    }

    /// The entry at place `i`.
    pub fn entry(&self, i: usize) -> (e: &Entry<V>)
        requires
            i < self.entries().len(),
        ensures
            *e == self.entries()[i as int],
            self@.dom().contains(e.key@),
            self@[e.key@] == e.value@,
            distinct_keys(self.entries()),
    {
        proof {
            use_type_invariant(self);
            lemma_entry(self.entries@, i as int);
        }
        &self.entries[i]
    }

    /// The place of the entry for `key`, if there is one.
    pub fn find(&self, key: &str) -> (r: Option<usize>)
        ensures
            match r {
                Some(i) => i < self.entries().len() && self.entries()[i as int].key@ == key@
                    && self@.dom().contains(key@) && self@[key@] == self.entries()[i as int].value@,
                None => !self@.dom().contains(key@),
            },
    {
        proof {
            use_type_invariant(self);
        }
        let mut i: usize = 0;
        while i < self.entries.len()
            invariant
                distinct_keys(self.entries@),
                i <= self.entries@.len(),
                forall|j: int| 0 <= j < i ==> (#[trigger] self.entries@[j]).key@ != key@,
            decreases self.entries@.len() - i,
        {
            if str_eq(self.entries[i].key.as_str(), key) {
                proof {
                    lemma_entry(self.entries@, i as int);
                }
                return Some(i);
            }
            i += 1;
        }
        None
    }

    pub fn contains_key(&self, key: &str) -> (r: bool)
        ensures
            r == self@.dom().contains(key@),
    {
        self.find(key).is_some()
    }

    pub fn get(&self, key: &str) -> (r: Option<&V>)
        ensures
            match r {
                Some(v) => self@.dom().contains(key@) && self@[key@] == v@,
                None => !self@.dom().contains(key@),
            },
    {
        match self.find(key) {
            Some(i) => Some(&self.entries[i].value),
            None => None,
        }
    }

    /// Puts `value` under `key`, in place of what was there.
    pub fn insert(&mut self, key: String, value: V)
        ensures
            final(self)@ == old(self)@.insert(key@, value@),
    {
        proof {
            use_type_invariant(&*self);
        }
        let found = self.find(key.as_str());
        let e = Entry { key, value };
        let mut entries: Vec<Entry<V>> = Vec::new();
        core::mem::swap(&mut self.entries, &mut entries);
        match found {
            Some(i) => {
                proof {
                    lemma_update(entries@, i as int, e);
                }
                entries.set(i, e);
            },
            None => {
                proof {
                    lemma_push(entries@, e);
                }
                entries.push(e);
            },
        }
        core::mem::swap(&mut self.entries, &mut entries);
    }

    /// Takes out the entry at place `i`; the last entry moves into its place.
    pub fn remove_at(&mut self, i: usize) -> (e: Entry<V>)
        requires
            i < old(self).entries().len(),
        ensures
            e == old(self).entries()[i as int],
            final(self).entries() == old(self).entries().update(
                i as int,
                old(self).entries().last(),
            ).drop_last(),
            final(self)@ == old(self)@.remove(e.key@),
            old(self)@.dom().contains(e.key@),
            old(self)@[e.key@] == e.value@,
    {
        proof {
            use_type_invariant(&*self);
            lemma_swap_remove(self.entries@, i as int);
            lemma_entry(self.entries@, i as int);
        }
        let mut entries: Vec<Entry<V>> = Vec::new();
        core::mem::swap(&mut self.entries, &mut entries);
        let e = entries.swap_remove(i);
        core::mem::swap(&mut self.entries, &mut entries);
        e
    }

    /// The ids held, in the order of the entries.
    pub fn keys(&self) -> (ids: Vec<String>)
        ensures
            ids@.len() == self.entries().len(),
            forall|i: int| 0 <= i < ids@.len() ==> (#[trigger] ids@[i])@ == self.entries()[i].key@,
            forall|k: Seq<char>| #[trigger] holds_id(ids@, k) <==> self@.dom().contains(k),
            distinct_ids(ids@),
    {
        proof {
            use_type_invariant(self);
        }
        let mut ids: Vec<String> = Vec::new();
        let mut i: usize = 0;
        while i < self.entries.len()
            invariant
                i <= self.entries@.len(),
                ids@.len() == i,
                forall|j: int| 0 <= j < i ==> (#[trigger] ids@[j])@ == self.entries@[j].key@,
            decreases self.entries@.len() - i,
        {
            ids.push(self.entries[i].key.clone());
            i += 1;
        }
        proof {
            assert forall|k: Seq<char>| #[trigger] holds_id(ids@, k) <==> self@.dom().contains(k) by {
                if holds_id(ids@, k) {
                    let j = choose|j: int| 0 <= j < ids@.len() && (#[trigger] ids@[j])@ == k;
                    assert(self.entries@[j].key@ == k);
                }
                if self@.dom().contains(k) {
                    let j = slot_of(self.entries@, k);
                    assert(ids@[j]@ == k);
                }
            }
            assert forall|a: int, b: int| 0 <= a < b < ids@.len() implies (#[trigger] ids@[a])@ != (
            #[trigger] ids@[b])@ by {
                assert(self.entries@[a].key@ != self.entries@[b].key@);
            }
        }
        ids
    }

    /// Takes out every entry whose place is marked in `flags`, and gives the
    /// ids that were taken out.
    pub fn remove_flagged(&mut self, flags: &Vec<bool>) -> (gone: Vec<String>)
        requires
            flags@.len() == old(self).entries().len(),
        ensures
            forall|k: Seq<char>| #[trigger]
                final(self)@.dom().contains(k) <==> old(self)@.dom().contains(k) && !flagged(
                    old(self).entries(),
                    flags@,
                    k,
                ),
            forall|k: Seq<char>| #[trigger]
                final(self)@.dom().contains(k) ==> final(self)@[k] == old(self)@[k],
            forall|k: Seq<char>| #[trigger]
                holds_id(gone@, k) <==> flagged(old(self).entries(), flags@, k),
            distinct_ids(gone@),
    {
        proof {
            use_type_invariant(&*self);
        }
        let ghost orig = self.entries@;
        let mut gone: Vec<String> = Vec::new();
        let mut i: usize = self.entries.len();
        while i > 0
            invariant
                distinct_keys(self.entries@),
                distinct_keys(orig),
                flags@.len() == orig.len(),
                i <= self.entries@.len() <= orig.len(),
                forall|j: int| 0 <= j < i ==> self.entries@[j] == orig[j],
                forall|j: int|
                    i <= j < self.entries@.len() ==> {
                        let k = (#[trigger] self.entries@[j]).key@;
                        holds_key(orig, k) && !flags@[slot_of(orig, k)] && as_map(orig)[k]
                            == self.entries@[j].value@
                    },
                forall|k: Seq<char>|
                    holds_key(orig, k) ==> #[trigger] self@.dom().contains(k) || holds_id(gone@, k),
                forall|g: int|
                    0 <= g < gone@.len() ==> flagged(orig, flags@, (#[trigger] gone@[g])@)
                        && !self@.dom().contains(gone@[g]@),
                distinct_ids(gone@),
            decreases i,
        {
            i -= 1;
            proof {
                lemma_entry(orig, i as int);
                lemma_entry(self.entries@, i as int);
            }
            if flags[i] {
                let ghost before = self.entries@;
                let ghost before_map = self@;
                let ghost before_gone = gone@;
                let e = self.remove_at(i);
                gone.push(e.key);
                proof {
                    let key = e.key@;
                    assert(gone@[before_gone.len() as int]@ == key);
                    assert forall|j: int| i <= j < self.entries@.len() implies {
                        let k = (#[trigger] self.entries@[j]).key@;
                        holds_key(orig, k) && !flags@[slot_of(orig, k)] && as_map(orig)[k]
                            == self.entries@[j].value@
                    } by {
                        if j == i {
                            assert(self.entries@[j] == before[before.len() - 1]);
                        } else {
                            assert(self.entries@[j] == before[j]);
                        }
                    }
                    assert forall|k: Seq<char>| holds_key(orig, k) implies #[trigger] self@.dom().contains(
                        k,
                    ) || holds_id(gone@, k) by {
                        if k == key {
                        } else if before_map.dom().contains(k) {
                        } else {
                            let g = choose|g: int|
                                0 <= g < before_gone.len() && (#[trigger] before_gone[g])@ == k;
                            assert(gone@[g]@ == k);
                        }
                    }
                    assert forall|g: int| 0 <= g < gone@.len() implies flagged(
                        orig,
                        flags@,
                        (#[trigger] gone@[g])@,
                    ) && !self@.dom().contains(gone@[g]@) by {
                        if g < before_gone.len() {
                            assert(gone@[g] == before_gone[g]);
                        }
                    }
                    assert forall|a: int, b: int| 0 <= a < b < gone@.len() implies (
                    #[trigger] gone@[a])@ != (#[trigger] gone@[b])@ by {
                        if b < before_gone.len() {
                            assert(gone@[a] == before_gone[a] && gone@[b] == before_gone[b]);
                        } else {
                            assert(gone@[a] == before_gone[a]);
                            assert(!before_map.dom().contains(before_gone[a]@));
                        }
                    }
                }
            }
        }
        proof {
            assert forall|k: Seq<char>| #[trigger]
                self@.dom().contains(k) <==> as_map(orig).dom().contains(k) && !flagged(
                    orig,
                    flags@,
                    k,
                ) by {
                if self@.dom().contains(k) {
                    let j = slot_of(self.entries@, k);
                    assert(self.entries@[j].key@ == k);
                }
                if holds_key(orig, k) && !flagged(orig, flags@, k) {
                    if holds_id(gone@, k) {
                        let g = choose|g: int| 0 <= g < gone@.len() && (#[trigger] gone@[g])@ == k;
                        assert(flagged(orig, flags@, gone@[g]@));
                    }
                }
            }
            assert forall|k: Seq<char>| #[trigger] self@.dom().contains(k) implies self@[k] == as_map(orig)[k] by {
                let j = slot_of(self.entries@, k);
                assert(self.entries@[j].key@ == k);
                lemma_entry(self.entries@, j);
            }
            assert forall|k: Seq<char>| #[trigger]
                holds_id(gone@, k) <==> flagged(orig, flags@, k) by {
                if holds_id(gone@, k) {
                    let g = choose|g: int| 0 <= g < gone@.len() && (#[trigger] gone@[g])@ == k;
                    assert(flagged(orig, flags@, gone@[g]@));
                }
                if flagged(orig, flags@, k) {
                    if self@.dom().contains(k) {
                        let j = slot_of(self.entries@, k);
                        assert(self.entries@[j].key@ == k);
                    }
                }
            }
        }
        gone
    }

    /// Takes out what is held under `key`.
    pub fn remove(&mut self, key: &str) -> (r: Option<V>)
        ensures
            final(self)@ == old(self)@.remove(key@),
            match r {
                Some(v) => old(self)@.dom().contains(key@) && old(self)@[key@] == v@,
                None => !old(self)@.dom().contains(key@),
            },
    {
        match self.find(key) {
            Some(i) => Some(self.remove_at(i).value),
            None => {
                assert(self@ =~= self@.remove(key@));
                None
            },
        }
    }
}

} // verus!
