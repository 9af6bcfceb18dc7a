//! Random draws, and what every draw is known to satisfy.

use rand::RngExt;
use vstd::prelude::*;

verus! {

/// A draw from the half-open range `low..high`.
///
/// Calls `random_range` of `rand::RngExt` on the thread's generator. Which value of the range
/// comes back is left to chance; that it lies in the range is relied on.
#[verifier::external_body]
pub(crate) fn roll(low: i32, high: i32) -> (value: i32)
    requires
        low < high,
    ensures
        low <= value < high,
{
    rand::rng().random_range(low..high)
}

/// A draw that comes out `true` with probability `numerator / denominator`.
///
/// Calls `random_ratio` of `rand::RngExt` on the thread's generator. The outcome is left to
/// chance; relied on is only that an impossible event never happens and a certain one always
/// does.
#[verifier::external_body]
pub(crate) fn chance(numerator: u32, denominator: u32) -> (hit: bool)
    requires
        numerator <= denominator,
        0 < denominator,
    ensures
        numerator == 0 ==> !hit,
        numerator == denominator ==> hit,
{
    rand::rng().random_ratio(numerator, denominator)
}

/// Whether the version field of a 128-bit identifier says "random" and its variant field is
/// the standard one.
pub open spec fn is_random_id(id: u128) -> bool {
    &&& (id >> 76) & 0xf == 4
    &&& (id >> 62) & 0x3 == 2
}

/// A new identifier for an entity.
///
/// Calls `Uuid::new_v4` of the `uuid` crate and hands its 128 bits over. The bits are left to
/// chance, but for the version and the variant fields.
#[verifier::external_body]
pub(crate) fn fresh_id() -> (id: u128)
    ensures
        is_random_id(id),
{
    uuid::Uuid::new_v4().as_u128()
}

} // verus!
