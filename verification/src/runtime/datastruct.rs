//! Values with keys.
use vstd::pervasive::*;
use vstd::prelude::*;

verus! {

/// A value under a key.
pub struct KeyValue<K, V> {
    pub key: K,
    pub value: V,
}

impl<K: Clone, V: Clone> Clone for KeyValue<K, V> {
    fn clone(&self) -> (copy: KeyValue<K, V>)
        ensures
            cloned(self.key, copy.key),
            cloned(self.value, copy.value),
    {
        KeyValue { key: self.key.clone(), value: self.value.clone() }
    }
}

} // verus!
