//! Call identifiers: 128-bit values drawn at random, in the layout of a
//! version 4 UUID.
use vstd::prelude::*;

verus! {

/// The bits that every random identifier has in common: the four version
/// bits and the two variant bits.
pub const LAYOUT_MASK: u128 = 0x0000_0000_0000_f000_c000_0000_0000_0000;

/// What the bits under `LAYOUT_MASK` are in a random identifier: version 4,
/// variant `10`.
pub const LAYOUT_BITS: u128 = 0x0000_0000_0000_4000_8000_0000_0000_0000;

/// How many identifiers have the random layout: the other 122 bits are free.
pub const IDENTIFIER_SPACE: u128 = 0x0400_0000_0000_0000_0000_0000_0000_0000;

/// `identifier` has the layout of a random identifier.
pub open spec fn is_random_layout(identifier: u128) -> bool {
    identifier & LAYOUT_MASK == LAYOUT_BITS
}

/// `uuid::Uuid::new_v4` followed by `Uuid::as_u128`: a random identifier as an
/// integer. Which one comes back is not stated, only that its version and
/// variant bits are those of a version 4 UUID.
#[verifier::external_body]
pub(crate) fn fresh_identifier() -> (identifier: u128)
    ensures
        is_random_layout(identifier),
{
    uuid::Uuid::new_v4().as_u128()
}

} // verus!
