//! Counters that move once a tick.

use vstd::prelude::*;

verus! {

/// The next value of a counter that runs up and starts over below zero after its largest value.
pub open spec fn counted_up(n: i32) -> i32 {
    if n == i32::MAX {
        i32::MIN
    } else {
        (n + 1) as i32
    }
}

/// The next value of a counter that runs up.
pub fn count_up(n: i32) -> (next: i32)
    ensures
        next == counted_up(n),
{
    if n == i32::MAX {
        i32::MIN
    } else {
        n + 1
    }
}

/// The next value of a counter that runs down to zero and stays where it is from there on.
pub open spec fn counted_down(n: i32) -> i32 {
    if n > 0 {
        (n - 1) as i32
    } else {
        n
    }
}

/// The next value of a counter that runs down.
pub fn count_down(n: i32) -> (next: i32)
    ensures
        next == counted_down(n),
{
    if n > 0 {
        n - 1
    } else {
        n
    }
}

/// Whether a counter is at a multiple of a period.
pub fn is_multiple(n: i32, period: i32) -> (multiple: bool)
    requires
        period > 0,
    ensures
        multiple == (n % period == 0),
{
    match n.checked_rem_euclid(period) {
        Some(rest) => rest == 0,
        None => false,
    }
}

/// A counter goes up by one, until there is no larger number; and down by one, until nothing is
/// left of it.
pub proof fn law_counters_go_by_one(n: i32)
    ensures
        n < i32::MAX ==> counted_up(n) == n + 1,
        n > 0 ==> counted_down(n) == n - 1,
        n <= 0 ==> counted_down(n) == n,
{
}

} // verus!
