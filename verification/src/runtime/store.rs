//! The table of requests that are under way.
use vstd::prelude::*;

use crate::runtime::string_map::StringMap;

verus! {

/// Requests that are under way, by stream id. Every entry has a token of its own:
/// two requests that stand under the same id one after the other have different
/// tokens.
pub struct PendingTable {
    entries: StringMap<u64>,
    next: u64,
}

impl View for PendingTable {
    type V = Map<Seq<char>, u64>;

    closed spec fn view(&self) -> Map<Seq<char>, u64> {
        self.entries@
    }
}

impl PendingTable {
    /// The token that the next entry gets.
    pub closed spec fn spec_next(&self) -> u64 {
        self.next
    }

    /// Every token in the table was given out before the next one.
    pub closed spec fn wf(&self) -> bool {
        &&& self.entries.wf()
        &&& forall|id: Seq<char>|
            #[trigger] self.entries@.contains_key(id) ==> self.entries@[id] < self.next
    }

    /// A token in the table was given out before the next one.
    pub proof fn lemma_token_given(&self, id: Seq<char>)
        requires
            self.wf(),
            self@.contains_key(id),
        ensures
            self@[id] < self.spec_next(),
    {
        assert(self.entries@.contains_key(id));
    }

    pub fn new() -> (table: PendingTable)
        ensures
            table.wf(),
            table@ == Map::<Seq<char>, u64>::empty(),
            table.spec_next() == 0,
    {
        PendingTable { entries: StringMap::new(), next: 0 }
    }

    fn put(&mut self, id: String) -> (token: u64)
        requires
            old(self).wf(),
            old(self).spec_next() < u64::MAX,
        ensures
            final(self).wf(),
            token == old(self).spec_next(),
            final(self).spec_next() == old(self).spec_next() + 1,
            final(self)@ == old(self)@.insert(id@, token),
    {
        let token: u64 = self.next;
        self.next = token + 1;
        let _previous = self.entries.insert(id, token);
        token
    }

    /// The token under `id`; a new entry where there is none.
    pub fn get_or_create(&mut self, id: String) -> (found: (u64, bool))
        requires
            old(self).wf(),
            old(self).spec_next() < u64::MAX,
        ensures
            final(self).wf(),
            found.1 == !old(self)@.contains_key(id@),
            found.1 ==> {
                &&& found.0 == old(self).spec_next()
                &&& final(self).spec_next() == old(self).spec_next() + 1
                &&& final(self)@ == old(self)@.insert(id@, found.0)
            },
            !found.1 ==> {
                &&& found.0 == old(self)@[id@]
                &&& *final(self) == *old(self)
            },
    {
        let known: Option<u64> = self.get(id.as_str());
        match known {
            Some(token) => (token, false),
            None => (self.put(id), true),
        }
    }

    /// Enters a request; `None` where one stands under `id` already.
    pub fn set(&mut self, id: String) -> (token: Option<u64>)
        requires
            old(self).wf(),
            old(self).spec_next() < u64::MAX,
        ensures
            final(self).wf(),
            match token {
                Some(t) => {
                    &&& !old(self)@.contains_key(id@)
                    &&& t == old(self).spec_next()
                    &&& final(self).spec_next() == old(self).spec_next() + 1
                    &&& final(self)@ == old(self)@.insert(id@, t)
                },
                None => old(self)@.contains_key(id@) && *final(self) == *old(self),
            },
    {
        if self.entries.contains_key(id.as_str()) {
            None
        } else {
            Some(self.put(id))
        }
    }

    /// Enters a request in place of one that stands under `id` already.
    pub fn replace(&mut self, id: String) -> (token: u64)
        requires
            old(self).wf(),
            old(self).spec_next() < u64::MAX,
        ensures
            final(self).wf(),
            token == old(self).spec_next(),
            final(self).spec_next() == old(self).spec_next() + 1,
            final(self)@ == old(self)@.insert(id@, token),
    {
        self.put(id)
    }

    /// The token under `id`.
    pub fn get(&self, id: &str) -> (token: Option<u64>)
        requires
            self.wf(),
        ensures
            token == (if self@.contains_key(id@) {
                Some(self@[id@])
            } else {
                None
            }),
            token matches Some(t) ==> t < self.spec_next(),
    {
        match self.entries.get(id) {
            Some(token) => Some(*token),
            None => None,
        }
    }

    /// Takes out what stands under `id`.
    pub fn pop(&mut self, id: &str) -> (token: Option<u64>)
        requires
            old(self).wf(),
        ensures
            final(self).wf(),
            final(self).spec_next() == old(self).spec_next(),
            final(self)@ == old(self)@.remove(id@),
            token == (if old(self)@.contains_key(id@) {
                Some(old(self)@[id@])
            } else {
                None
            }),
    {
        self.entries.remove(id)
    }

    /// Takes out the request under `id` if it is the one with `token`.
    pub fn pop_if(&mut self, id: &str, token: u64) -> (removed: bool)
        requires
            old(self).wf(),
        ensures
            final(self).wf(),
            final(self).spec_next() == old(self).spec_next(),
            removed == (old(self)@.contains_key(id@) && old(self)@[id@] == token),
            final(self)@ == (if removed {
                old(self)@.remove(id@)
            } else {
                old(self)@
            }),
    {
        let current: Option<u64> = self.get(id);
        match current {
            Some(found) => {
                if found == token {
                    let _removed = self.entries.remove(id);
                    true
                } else {
                    false
                }
            },
            None => false,
        }
    }
}

/// A request that ends late cannot take out its successor: the token that it was
/// given is no longer that of its entry once another request stands there.
pub proof fn law_late_end_keeps_successor(
    before: PendingTable,
    after: PendingTable,
    id: Seq<char>,
    token: u64,
)
    requires
        before.wf(),
        before@.contains_key(id) && before@[id] == token,
        after@ == before@.insert(id, before.spec_next()),
    ensures
        !(after@.contains_key(id) && after@[id] == token),
{
    before.lemma_token_given(id);
}

} // verus!
