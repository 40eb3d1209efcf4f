//! The identifier index: a concurrent hash map from call identifiers to slot
//! numbers, used through three operations whose behaviour is taken on trust
//! from the `scc` crate.
use vstd::prelude::*;

verus! {

/// The concurrent hash map of the `scc` crate, as an opaque value.
#[verifier::external_type_specification]
#[verifier::external_body]
#[verifier::reject_recursive_types(K)]
#[verifier::reject_recursive_types(V)]
#[verifier::reject_recursive_types(H)]
pub struct ExConcurrentMap<K, V, H: std::hash::BuildHasher>(scc::HashMap<K, V, H>);

/// The key-value pairs that an identifier index holds.
pub uninterp spec fn index_entries(index: scc::HashMap<u128, usize>) -> Map<u128, usize>;

/// `scc::HashMap::new`: an index that holds no entry.
#[verifier::external_body]
pub(crate) fn index_new() -> (made: scc::HashMap<u128, usize>)
    ensures
        index_entries(made) == (Map::<u128, usize>::empty()),
{
    scc::HashMap::new()
}

/// `scc::HashMap::insert`: adds the pair if the key is absent and returns
/// `true`; leaves the index as it was and returns `false` if the key is
/// present.
#[verifier::external_body]
pub(crate) fn index_insert(
    index: &mut scc::HashMap<u128, usize>,
    key: u128,
    value: usize,
) -> (added: bool)
    ensures
        added == !index_entries(*old(index)).contains_key(key),
        added ==> index_entries(*final(index)) == index_entries(*old(index)).insert(key, value),
        !added ==> index_entries(*final(index)) == index_entries(*old(index)),
{
    index.insert(key, value).is_ok()
}

/// `scc::HashMap::remove`: takes the key's pair out and returns its value, or
/// returns `None` and changes nothing if the key is absent.
#[verifier::external_body]
pub(crate) fn index_remove(
    index: &mut scc::HashMap<u128, usize>,
    key: u128,
) -> (removed: Option<usize>)
    ensures
        removed == (if index_entries(*old(index)).contains_key(key) {
            Some(index_entries(*old(index))[key])
        } else {
            None
        }),
        index_entries(*final(index)) == index_entries(*old(index)).remove(key),
{
    match index.remove(&key) {
        Some((_, value)) => Some(value),
        None => None,
    }
}

} // verus!
