//! Traits of the hot-swappable resource cache.
use std::hash::Hash;
use vstd::prelude::*;

verus! {

/// Types which can be converted from mutable references to immutable references; used to
/// quantify over a value and the shared or cached handles that give access to one.
pub trait AsCached<T> {
    /// An immutable reference to a `T` from this value, possibly through a cache.
    fn as_cached(&mut self) -> &T;
}

/// Trait synonym for types which can be used as keys in a cache.
pub trait Key: Eq + Hash {}

impl<T: Eq + Hash> Key for T {}

} // verus!
