//! A map from strings to values.
use vstd::prelude::*;
use vstd::seq_lib::*;

use crate::runtime::text::same_text;

verus! {

/// A map keyed by text. Every key occurs at most once.
pub struct StringMap<V> {
    entries: Vec<(String, V)>,
}

impl<V> StringMap<V> {
    /// No key occurs twice.
    pub closed spec fn wf(&self) -> bool {
        forall|i: int, j: int|
            0 <= i < j < self.entries@.len() ==> #[trigger] self.entries@[i].0@
                != #[trigger] self.entries@[j].0@
    }

    /// Whether `key` is present.
    pub closed spec fn has(&self, key: Seq<char>) -> bool {
        exists|i: int| 0 <= i < self.entries@.len() && #[trigger] self.entries@[i].0@ == key
    }

    spec fn slot(&self, key: Seq<char>) -> int {
        choose|i: int| 0 <= i < self.entries@.len() && #[trigger] self.entries@[i].0@ == key
    }
}

impl<V> View for StringMap<V> {
    type V = Map<Seq<char>, V>;

    closed spec fn view(&self) -> Map<Seq<char>, V> {
        Map::new(|key: Seq<char>| self.has(key), |key: Seq<char>| self.entries@[self.slot(key)].1)
    }
}

impl<V> StringMap<V> {
    proof fn lemma_slot(&self, i: int)
        requires
            self.wf(),
            0 <= i < self.entries@.len(),
        ensures
            self.has(self.entries@[i].0@),
            self@.contains_key(self.entries@[i].0@),
            self@[self.entries@[i].0@] == self.entries@[i].1,
    {
        let key = self.entries@[i].0@;
        let k = self.slot(key);
        assert(0 <= k < self.entries@.len() && self.entries@[k].0@ == key);
        if k < i {
            assert(self.entries@[k].0@ != self.entries@[i].0@);
        } else if i < k {
            assert(self.entries@[i].0@ != self.entries@[k].0@);
        }
    }

    /// The empty map.
    pub fn new() -> (map: Self)
        ensures
            map.wf(),
            map@ == Map::<Seq<char>, V>::empty(),
    {
        let map = StringMap { entries: Vec::new() };
        assert(map@ =~= Map::<Seq<char>, V>::empty());
        map
    }

    fn find(&self, key: &str) -> (found: Option<usize>)
        requires
            self.wf(),
        ensures
            found is Some <==> self@.contains_key(key@),
            found matches Some(i) ==> i < self.entries@.len() && self.entries@[i as int].0@ == key@
                && self@[key@] == self.entries@[i as int].1,
    {
        let mut i: usize = 0;
        while i < self.entries.len()
            invariant
                self.wf(),
                i <= self.entries@.len(),
                forall|j: int| 0 <= j < i ==> #[trigger] self.entries@[j].0@ != key@,
            decreases self.entries@.len() - i,
        {
            if same_text(self.entries[i].0.as_str(), key) {
                proof {
                    self.lemma_slot(i as int);
                }
                return Some(i);
            }
            i = i + 1;
        }
        None
    }

    /// Whether the map holds `key`.
    pub fn contains_key(&self, key: &str) -> (found: bool)
        requires
            self.wf(),
        ensures
            found == self@.contains_key(key@),
    {
        self.find(key).is_some()
    }

    /// The value under `key`.
    pub fn get(&self, key: &str) -> (value: Option<&V>)
        requires
            self.wf(),
        ensures
            match value {
                Some(v) => self@.contains_key(key@) && *v == self@[key@],
                None => !self@.contains_key(key@),
            },
    {
        match self.find(key) {
            Some(i) => Some(&self.entries[i].1),
            None => None,
        }
    }

    /// All keys with their values, each key once.
    pub fn entries(&self) -> (entries: &Vec<(String, V)>)
        requires
            self.wf(),
        ensures
            forall|i: int|
                0 <= i < entries@.len() ==> self@.contains_key((#[trigger] entries@[i]).0@)
                    && self@[entries@[i].0@] == entries@[i].1,
            forall|i: int, j: int|
                0 <= i < j < entries@.len() ==> (#[trigger] entries@[i]).0@ != (
                #[trigger] entries@[j]).0@,
            forall|key: Seq<char>| #[trigger]
                self@.contains_key(key) ==> exists|i: int|
                    0 <= i < entries@.len() && (#[trigger] entries@[i]).0@ == key,
    {
        assert forall|i: int| 0 <= i < self.entries@.len() implies self@.contains_key(
            (#[trigger] self.entries@[i]).0@,
        ) && self@[self.entries@[i].0@] == self.entries@[i].1 by {
            self.lemma_slot(i);
        }
        assert forall|i: int, j: int| 0 <= i < j < self.entries@.len() implies (
        #[trigger] self.entries@[i]).0@ != (#[trigger] self.entries@[j]).0@ by {
            assert(self.entries@[i].0@ != self.entries@[j].0@);
        }
        assert forall|key: Seq<char>| #[trigger] self@.contains_key(key) implies exists|i: int|
            0 <= i < self.entries@.len() && (#[trigger] self.entries@[i]).0@ == key by {
            let i = self.slot(key);
            assert(self.entries@[i].0@ == key);
        }
        &self.entries
    }

    /// Puts `value` under `key` and hands back the value that was there.
    pub fn insert(&mut self, key: String, value: V) -> (previous: Option<V>)
        requires
            old(self).wf(),
        ensures
            final(self).wf(),
            final(self)@ == old(self)@.insert(key@, value),
            match previous {
                Some(v) => old(self)@.contains_key(key@) && v == old(self)@[key@],
                None => !old(self)@.contains_key(key@),
            },
    {
        let found = self.find(key.as_str());
        match found {
            Some(i) => {
                let ghost before = *self;
                let mut entry = (key, value);
                let ghost placed = entry;
                self.entries.set_and_swap(i, &mut entry);
                proof {
                    assert(self.entries@ =~= before.entries@.update(i as int, placed));
                    self.lemma_same_keys_updated(&before, i as int, placed);
                }
                Some(entry.1)
            },
            None => {
                let ghost before = *self;
                self.entries.push((key, value));
                proof {
                    self.lemma_pushed(&before, (key, value));
                }
                None
            },
        }
    }

    /// Takes `key` out and hands back its value.
    pub fn remove(&mut self, key: &str) -> (previous: Option<V>)
        requires
            old(self).wf(),
        ensures
            final(self).wf(),
            final(self)@ == old(self)@.remove(key@),
            match previous {
                Some(v) => old(self)@.contains_key(key@) && v == old(self)@[key@],
                None => !old(self)@.contains_key(key@),
            },
    {
        let found = self.find(key);
        match found {
            Some(i) => {
                let ghost before = *self;
                let entry = self.entries.remove(i);
                proof {
                    self.lemma_removed(&before, i as int);
                }
                Some(entry.1)
            },
            None => {
                assert(self@.remove(key@) =~= self@);
                None
            },
        }
    }

    /// How many keys the map holds.
    pub fn len(&self) -> (count: usize)
        requires
            self.wf(),
        ensures
            self@.dom().finite(),
            count == self@.dom().len(),
    {
        proof {
            self.lemma_len();
        }
        self.entries.len()
    }

    proof fn lemma_len(&self)
        requires
            self.wf(),
        ensures
            self@.dom().finite(),
            self@.dom().len() == self.entries@.len(),
    {
        let keys = Seq::new(self.entries@.len(), |i: int| self.entries@[i].0@);
        assert forall|i: int, j: int|
            0 <= i < keys.len() && 0 <= j < keys.len() && i != j implies keys[i] != keys[j] by {
            if i < j {
                assert(self.entries@[i].0@ != self.entries@[j].0@);
            } else {
                assert(self.entries@[j].0@ != self.entries@[i].0@);
            }
        }
        keys.unique_seq_to_set();
        assert forall|key: Seq<char>| self@.dom().contains(key) == keys.to_set().contains(key) by {
            if self.has(key) {
                assert(keys[self.slot(key)] == key);
            }
            if keys.contains(key) {
                let i = choose|i: int| 0 <= i < keys.len() && keys[i] == key;
                self.lemma_slot(i);
            }
        }
        assert(self@.dom() =~= keys.to_set());
        seq_to_set_is_finite(keys);
    }

    proof fn lemma_same_keys_updated(&self, before: &Self, i: int, entry: (String, V))
        requires
            before.wf(),
            0 <= i < before.entries@.len(),
            before.entries@[i].0@ == entry.0@,
            self.entries@ == before.entries@.update(i, entry),
        ensures
            self.wf(),
            self@ == before@.insert(entry.0@, entry.1),
    {
        assert(self.wf()) by {
            assert forall|a: int, b: int| 0 <= a < b < self.entries@.len() implies
                #[trigger] self.entries@[a].0@ != #[trigger] self.entries@[b].0@ by {
                assert(before.entries@[a].0@ != before.entries@[b].0@);
            }
        }
        assert forall|key: Seq<char>| self@.contains_key(key) == before@.insert(entry.0@, entry.1).contains_key(key) by {
            if self.has(key) {
                let k = self.slot(key);
                assert(self.entries@[k].0@ == key);
                before.lemma_slot(k);
                assert(before.entries@[k].0@ == key);
            }
            if before.has(key) {
                let k = before.slot(key);
                self.lemma_slot(k);
            }
            self.lemma_slot(i);
        }
        assert forall|key: Seq<char>| self@.contains_key(key) implies self@[key] == before@.insert(entry.0@, entry.1)[key] by {
            let k = self.slot(key);
            self.lemma_slot(k);
            before.lemma_slot(k);
            self.lemma_slot(i);
        }
        assert(self@ =~= before@.insert(entry.0@, entry.1));
    }

    proof fn lemma_pushed(&self, before: &Self, entry: (String, V))
        requires
            before.wf(),
            !before@.contains_key(entry.0@),
            self.entries@ == before.entries@.push(entry),
        ensures
            self.wf(),
            self@ == before@.insert(entry.0@, entry.1),
    {
        let n = before.entries@.len() as int;
        assert(self.wf()) by {
            assert forall|a: int, b: int| 0 <= a < b < self.entries@.len() implies
                #[trigger] self.entries@[a].0@ != #[trigger] self.entries@[b].0@ by {
                if b == n {
                    before.lemma_slot(a);
                } else {
                    assert(before.entries@[a].0@ != before.entries@[b].0@);
                }
            }
        }
        assert forall|key: Seq<char>| self@.contains_key(key) == before@.insert(entry.0@, entry.1).contains_key(key) by {
            if self.has(key) {
                let k = self.slot(key);
                if k < n {
                    before.lemma_slot(k);
                }
            }
            if before.has(key) {
                let k = before.slot(key);
                self.lemma_slot(k);
            }
            self.lemma_slot(n);
        }
        assert forall|key: Seq<char>| self@.contains_key(key) implies self@[key] == before@.insert(entry.0@, entry.1)[key] by {
            let k = self.slot(key);
            self.lemma_slot(k);
            if k < n {
                before.lemma_slot(k);
            }
        }
        assert(self@ =~= before@.insert(entry.0@, entry.1));
    }

    proof fn lemma_removed(&self, before: &Self, i: int)
        requires
            before.wf(),
            0 <= i < before.entries@.len(),
            self.entries@ == before.entries@.remove(i),
        ensures
            self.wf(),
            self@ == before@.remove(before.entries@[i].0@),
    {
        let gone = before.entries@[i].0@;
        assert forall|a: int| 0 <= a < self.entries@.len() implies #[trigger] self.entries@[a]
            == before.entries@[if a < i { a } else { a + 1 }] by {}
        assert(self.wf()) by {
            assert forall|a: int, b: int| 0 <= a < b < self.entries@.len() implies
                #[trigger] self.entries@[a].0@ != #[trigger] self.entries@[b].0@ by {
                let x = if a < i { a } else { a + 1 };
                let y = if b < i { b } else { b + 1 };
                assert(before.entries@[x].0@ != before.entries@[y].0@);
            }
        }
        assert forall|key: Seq<char>| self@.contains_key(key) == before@.remove(gone).contains_key(key) by {
            if self.has(key) {
                let k = self.slot(key);
                let x = if k < i { k } else { k + 1 };
                assert(self.entries@[k] == before.entries@[x]);
                before.lemma_slot(x);
                if key == gone {
                    if x < i {
                        assert(before.entries@[x].0@ != before.entries@[i].0@);
                    } else {
                        assert(before.entries@[i].0@ != before.entries@[x].0@);
                    }
                }
            }
            if before.has(key) && key != gone {
                let k = before.slot(key);
                assert(before.entries@[k].0@ == key);
                let x = if k < i { k } else { k - 1 };
                assert(self.entries@[x] == before.entries@[k]);
                self.lemma_slot(x);
            }
        }
        assert forall|key: Seq<char>| self@.contains_key(key) implies self@[key] == before@.remove(gone)[key] by {
            let k = self.slot(key);
            self.lemma_slot(k);
            let x = if k < i { k } else { k + 1 };
            assert(self.entries@[k] == before.entries@[x]);
            before.lemma_slot(x);
        }
        assert(self@ =~= before@.remove(gone));
    }
}

impl StringMap<String> {
    /// Whether `key` is among the first `count` entries.
    spec fn has_before(&self, key: Seq<char>, count: int) -> bool {
        exists|i: int| 0 <= i < count && #[trigger] self.entries@[i].0@ == key
    }

    /// Takes over all entries of another map, in place of earlier values under their
    /// keys.
    pub fn extend(&mut self, other: &StringMap<String>)
        requires
            old(self).wf(),
            other.wf(),
        ensures
            final(self).wf(),
            final(self)@ == old(self)@.union_prefer_right(other@),
    {
        let mut i: usize = 0;
        while i < other.entries.len()
            invariant
                other.wf(),
                self.wf(),
                i <= other.entries@.len(),
                forall|key: Seq<char>| #[trigger]
                    self@.contains_key(key) == (old(self)@.contains_key(key) || other.has_before(
                        key,
                        i as int,
                    )),
                forall|key: Seq<char>| #[trigger]
                    self@.contains_key(key) ==> self@[key] == (if other.has_before(
                        key,
                        i as int,
                    ) {
                        other@[key]
                    } else {
                        old(self)@[key]
                    }),
            decreases other.entries@.len() - i,
        {
            let ghost before = self@;
            let ghost added = other.entries@[i as int];
            let _previous = self.insert(other.entries[i].0.clone(), other.entries[i].1.clone());
            proof {
                other.lemma_slot(i as int);
                assert forall|key: Seq<char>| other.has_before(key, i + 1) == (other.has_before(
                    key,
                    i as int,
                ) || key == added.0@) by {
                    if key == added.0@ {
                        assert(other.entries@[i as int].0@ == key);
                    }
                    if other.has_before(key, i as int) {
                        let j = choose|j: int|
                            0 <= j < i && #[trigger] other.entries@[j].0@ == key;
                        assert(other.entries@[j].0@ == key);
                    }
                }
                assert(self@ == before.insert(added.0@, added.1));
            }
            i = i + 1;
        }
        proof {
            assert forall|key: Seq<char>| other@.contains_key(key) == other.has_before(
                key,
                i as int,
            ) by {}
            assert(self@ =~= old(self)@.union_prefer_right(other@));
        }
    }
}

/// The fields whose value is text, put in one after the other: a later value takes
/// the place of an earlier one.
pub open spec fn text_map(fields: Seq<(String, Option<String>)>) -> Map<Seq<char>, String>
    decreases fields.len(),
{
    if fields.len() == 0 {
        Map::empty()
    } else {
        let before = text_map(fields.drop_last());
        match fields.last().1 {
            Some(value) => before.insert(fields.last().0@, value),
            None => before,
        }
    }
}

/// Collects the fields whose value is text.
pub fn text_fields(fields: Vec<(String, Option<String>)>) -> (map: StringMap<String>)
    ensures
        map.wf(),
        map@ == text_map(fields@),
{
    let mut map: StringMap<String> = StringMap::new();
    for field in iter: fields
        invariant
            iter.seq() == fields@,
            map.wf(),
            map@ == text_map(fields@.take(iter.index() as int)),
    {
        proof {
            let k = iter.index() as int;
            assert(fields@.take(k + 1).drop_last() =~= fields@.take(k));
            assert(fields@.take(k + 1).last() == fields@[k]);
        }
        match field.1 {
            Some(value) => {
                let _previous = map.insert(field.0, value);
            },
            None => {},
        }
    }
    assert(fields@.take(fields@.len() as int) =~= fields@);
    map
}

/// The text under a name is that of the last field with the name that is text, and a name
/// without such a field is not there.
pub proof fn law_last_text_field_wins(fields: Seq<(String, Option<String>)>, name: Seq<char>)
    ensures
        text_map(fields).contains_key(name) ==> exists|i: int|
            {
                &&& 0 <= i < fields.len()
                &&& (#[trigger] fields[i]).0@ == name
                &&& fields[i].1 == Some(text_map(fields)[name])
                &&& forall|j: int|
                    i < j < fields.len() ==> !((#[trigger] fields[j]).0@ == name && fields[j].1
                        is Some)
            },
        !text_map(fields).contains_key(name) ==> forall|j: int|
            0 <= j < fields.len() ==> !((#[trigger] fields[j]).0@ == name && fields[j].1 is Some),
    decreases fields.len(),
{
    if fields.len() > 0 {
        let front = fields.drop_last();
        law_last_text_field_wins(front, name);
        assert forall|j: int| 0 <= j < front.len() implies fields[j] == #[trigger] front[j] by {}
        assert(fields[fields.len() - 1] == fields.last());
        if fields.last().0@ == name && fields.last().1 is Some {
            assert(text_map(fields)[name] == fields.last().1->0);
        } else if text_map(fields).contains_key(name) {
            let i = choose|i: int|
                {
                    &&& 0 <= i < front.len()
                    &&& (#[trigger] front[i]).0@ == name
                    &&& front[i].1 == Some(text_map(front)[name])
                    &&& forall|j: int|
                        i < j < front.len() ==> !((#[trigger] front[j]).0@ == name && front[j].1
                            is Some)
                };
            assert(fields[i].0@ == name);
            assert forall|j: int| i < j < fields.len() implies !((#[trigger] fields[j]).0@ == name
                && fields[j].1 is Some) by {
                if j < front.len() {
                    assert(front[j] == fields[j]);
                }
            }
        } else {
            assert forall|j: int| 0 <= j < fields.len() implies !((#[trigger] fields[j]).0@ == name
                && fields[j].1 is Some) by {
                if j < front.len() {
                    assert(front[j] == fields[j]);
                }
            }
        }
    }
}

} // verus!
