//! Callbacks by message id.
use vstd::prelude::*;

use crate::runtime::string_map::StringMap;
use crate::runtime::text::same_text;

verus! {

/// A map from message ids to callbacks. Most requests register one callback, which
/// is kept without a map; a second id brings the map in for good.
pub enum CallbackStore<C> {
    Inline(Option<(String, C)>),
    Many(StringMap<C>),
}

impl<C> View for CallbackStore<C> {
    type V = Map<Seq<char>, C>;

    open spec fn view(&self) -> Map<Seq<char>, C> {
        match self {
            CallbackStore::Inline(None) => Map::empty(),
            CallbackStore::Inline(Some(entry)) => Map::empty().insert(entry.0@, entry.1),
            CallbackStore::Many(many) => many@,
        }
    }
}

impl<C> CallbackStore<C> {
    pub open spec fn wf(&self) -> bool {
        self matches CallbackStore::Many(many) ==> many.wf()
    }

    pub fn new() -> (store: CallbackStore<C>)
        ensures
            store.wf(),
            store@ == Map::<Seq<char>, C>::empty(),
            store is Inline,
    {
        CallbackStore::Inline(None)
    }

    /// Registers a callback and hands back the one that stood under the id. The store
    /// stays inline as long as it never holds two ids.
    pub fn insert(&mut self, id: String, callback: C) -> (previous: Option<C>)
        requires
            old(self).wf(),
        ensures
            final(self).wf(),
            final(self)@ == old(self)@.insert(id@, callback),
            match previous {
                Some(earlier) => old(self)@.contains_key(id@) && earlier == old(self)@[id@],
                None => !old(self)@.contains_key(id@),
            },
            *old(self) is Inline ==> (*final(self) is Inline <==> old(self)@.dom().subset_of(
                set![id@],
            )),
            *old(self) is Many ==> *final(self) is Many,
    {
        let mut current = CallbackStore::Inline(None);
        std::mem::swap(self, &mut current);
        match current {
            CallbackStore::Inline(None) => {
                *self = CallbackStore::Inline(Some((id, callback)));
                assert(self@ =~= old(self)@.insert(id@, callback));
                None
            },
            CallbackStore::Inline(Some((key, value))) => {
                if same_text(key.as_str(), id.as_str()) {
                    *self = CallbackStore::Inline(Some((key, callback)));
                    assert(self@ =~= old(self)@.insert(id@, callback));
                    Some(value)
                } else {
                    assert(old(self)@.dom().contains(key@));
                    let mut many: StringMap<C> = StringMap::new();
                    let _first = many.insert(key, value);
                    let _second = many.insert(id, callback);
                    *self = CallbackStore::Many(many);
                    None
                }
            },
            CallbackStore::Many(mut many) => {
                let previous = many.insert(id, callback);
                *self = CallbackStore::Many(many);
                previous
            },
        }
    }

    /// The callback under an id.
    pub fn get(&self, id: &str) -> (callback: Option<&C>)
        requires
            self.wf(),
        ensures
            match callback {
                Some(found) => self@.contains_key(id@) && *found == self@[id@],
                None => !self@.contains_key(id@),
            },
    {
        match self {
            CallbackStore::Inline(None) => None,
            CallbackStore::Inline(Some(entry)) => {
                if same_text(entry.0.as_str(), id) {
                    Some(&entry.1)
                } else {
                    None
                }
            },
            CallbackStore::Many(many) => many.get(id),
        }
    }

    /// Takes the callback under an id out.
    pub fn remove(&mut self, id: &str) -> (previous: Option<C>)
        requires
            old(self).wf(),
        ensures
            final(self).wf(),
            final(self)@ == old(self)@.remove(id@),
            match previous {
                Some(earlier) => old(self)@.contains_key(id@) && earlier == old(self)@[id@],
                None => !old(self)@.contains_key(id@),
            },
            *final(self) is Inline <==> *old(self) is Inline,
    {
        let mut current = CallbackStore::Inline(None);
        std::mem::swap(self, &mut current);
        match current {
            CallbackStore::Inline(None) => {
                assert(self@ =~= old(self)@.remove(id@));
                None
            },
            CallbackStore::Inline(Some((key, value))) => {
                if same_text(key.as_str(), id) {
                    assert(self@ =~= old(self)@.remove(id@));
                    Some(value)
                } else {
                    *self = CallbackStore::Inline(Some((key, value)));
                    assert(self@ =~= old(self)@.remove(id@));
                    None
                }
            },
            CallbackStore::Many(mut many) => {
                let previous = many.remove(id);
                *self = CallbackStore::Many(many);
                previous
            },
        }
    }
}

} // verus!
