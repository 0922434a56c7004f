//! The library's only sources of nondeterminism: a uniform draw from an
//! integer range and a fresh random identifier. Every other function is
//! verified for all values these may return.

use vstd::prelude::*;

verus! {

/// Relies on rand::random_range over `lo..hi`: the rand crate documents
/// that it panics only on an empty range (ruled out here) and otherwise
/// returns a value drawn from the range.
#[verifier::external_body]
pub(crate) fn random_in_range(lo: i64, hi: i64) -> (r: i64)
    requires
        lo < hi,
    ensures
        lo <= r < hi,
{
    rand::random_range(lo..hi)
}

/// Relies on uuid::Uuid::new_v4 and Uuid::as_u128: a freshly drawn
/// random identifier. Nothing is promised of its value.
#[verifier::external_body]
pub(crate) fn fresh_id() -> u128 {
    uuid::Uuid::new_v4().as_u128()
}

} // verus!
