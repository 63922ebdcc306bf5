//! The position key of a node in a list.

use vstd::prelude::*;

verus! {

/// Tells a node apart from its siblings in a list.
#[derive(Clone, Copy, Debug, PartialEq, Eq, Structural)]
pub struct Key {
    /// The key.
    pub key: u64,
}

impl Key {
    /// The key `key`.
    pub fn new(key: u64) -> (k: Key)
        ensures
            k.key == key,
    {
        Key { key }
    }
}

} // verus!
