//! Maps keyed by numbers, with the identity as their hash.
//!
//! [`nohash::IntMap`] is a `std::collections::HashMap` whose hasher hands a written number
//! back as its hash. The view of such a map is vstd's view of a `HashMap`.
use std::hash::BuildHasherDefault;

use nohash::{IntMap, NoHashHasher};
use vstd::prelude::*;

verus! {

/// Declares [`nohash::NoHashHasher`], the hasher of an `IntMap`.
#[verifier::external_type_specification]
#[verifier::external_body]
#[verifier::reject_recursive_types(T)]
pub struct ExNoHashHasher<T>(NoHashHasher<T>);

/// Declares `std::hash::BuildHasherDefault`, through which an `IntMap` makes its hashers.
#[verifier::external_type_specification]
#[verifier::external_body]
#[verifier::reject_recursive_types(H)]
pub struct ExBuildHasherDefault<H>(BuildHasherDefault<H>);

/// `insert` of a [`nohash::IntMap`] with `u32` keys: afterwards the map holds `value` under
/// `key`, and what it held there before is returned. A `NoHashHasher<u32>` hashes a `u32` to
/// that number, so equal keys have equal hashes, as a `HashMap` asks.
#[verifier::external_body]
pub(crate) fn int_map_insert<V>(map: &mut IntMap<u32, V>, key: u32, value: V) -> (before: Option<V>)
    ensures
        final(map)@ == old(map)@.insert(key, value),
        match before {
            Some(v) => old(map)@.contains_key(key) && old(map)@[key] == v,
            None => !old(map)@.contains_key(key),
        },
{
    map.insert(key, value)
}

/// `remove` of a [`nohash::IntMap`] with `u32` keys: afterwards the map holds nothing under
/// `key`, and what it held there before is returned.
#[verifier::external_body]
pub(crate) fn int_map_remove<V>(map: &mut IntMap<u32, V>, key: u32) -> (before: Option<V>)
    ensures
        final(map)@ == old(map)@.remove(key),
        match before {
            Some(v) => old(map)@.contains_key(key) && old(map)@[key] == v,
            None => !old(map)@.contains_key(key),
        },
{
    map.remove(&key)
}

/// `get_mut` of a [`nohash::IntMap`] with `u32` keys: a reference to what the map holds under
/// `key`, if anything. What is written through it is what the map holds there afterwards.
#[verifier::external_body]
pub(crate) fn int_map_get_mut<V>(map: &mut IntMap<u32, V>, key: u32) -> (entry: Option<&mut V>)
    ensures
        match entry {
            Some(v) => {
                &&& old(map)@.contains_key(key)
                &&& old(map)@[key] == *v
                &&& final(map)@ == old(map)@.insert(key, *final(v))
            },
            None => !old(map)@.contains_key(key) && final(map)@ == old(map)@,
        },
{
    map.get_mut(&key)
}

/// `contains_key` of a [`nohash::IntMap`] with `u32` keys: whether the map holds something
/// under `key`.
#[verifier::external_body]
pub(crate) fn int_map_contains_key<V>(map: &IntMap<u32, V>, key: u32) -> (found: bool)
    ensures
        found == map@.contains_key(key),
{
    map.contains_key(&key)
}

} // verus!
