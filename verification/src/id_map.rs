//! Maps keyed by the tracking id of a finger.
//!
//! The maps are hash maps that hash with `fxhash::FxHasher`. What the
//! functions of this module state about them is not proved here: it is what
//! the documentation of `std::collections::HashMap` says of a map whose
//! hasher gives equal keys equal hashes. `FxHasher` starts from the same state
//! in every map and mixes in nothing but the key's bytes.

use fxhash::FxHashMap;
use vstd::prelude::*;

verus! {

/// The hasher `fxhash::FxHasher`. Nothing is said of what is in it.
#[verifier::external_type_specification]
#[verifier::external_body]
pub struct ExFxHasher(fxhash::FxHasher);

/// `std::hash::BuildHasherDefault`, which makes the hashers of a map from the
/// default value of the hasher type. Nothing is said of what is in it.
#[verifier::external_type_specification]
#[verifier::external_body]
#[verifier::reject_recursive_types(H)]
pub struct ExBuildHasherDefault<H>(std::hash::BuildHasherDefault<H>);

/// `HashMap::insert` on a map with the Fx hasher: afterwards `id` is mapped
/// to `value`, whether or not it was mapped before, and every other id is
/// mapped as it was.
#[verifier::external_body]
pub(crate) fn insert<V>(map: &mut FxHashMap<i32, V>, id: i32, value: V)
    ensures
        (final(map)@ == old(map)@.insert(id, value)),
{
    map.insert(id, value);
}

/// `HashMap::remove` on a map with the Fx hasher: afterwards `id` is not
/// mapped and every other id is mapped as it was. The result is the value
/// that `id` was mapped to, if it was mapped.
#[verifier::external_body]
pub(crate) fn remove<V>(map: &mut FxHashMap<i32, V>, id: i32) -> (removed: Option<V>)
    ensures
        (final(map)@ == old(map)@.remove(id)),
        (removed == if old(map)@.contains_key(id) {
            Some(old(map)@[id])
        } else {
            None
        }),
{
    map.remove(&id)
}

/// `HashMap::get` on a map with the Fx hasher: the value that `id` is mapped
/// to, if it is mapped.
#[verifier::external_body]
pub(crate) fn get<'a, V>(map: &'a FxHashMap<i32, V>, id: i32) -> (found: Option<&'a V>)
    ensures
        (found == if map@.contains_key(id) {
            Some(&map@[id])
        } else {
            None
        }),
{
    map.get(&id)
}

} // verus!
