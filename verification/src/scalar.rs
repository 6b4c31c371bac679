//! The host functions on plain values.

use vstd::prelude::*;

verus! {

/// Picks one of two values by a condition: zero picks the second.
pub fn conditional<T>(condition: i32, true_value: T, false_value: T) -> (r: T)
    ensures
        r == (if condition != 0 {
            true_value
        } else {
            false_value
        }),
{
    if condition != 0 {
        true_value
    } else {
        false_value
    }
}

/// The truth value of a whole number: zero is zero, all else is one.
pub fn integer_to_boolean(value: i32) -> (r: i32)
    ensures
        r == (if value != 0 {
            1int
        } else {
            0int
        }),
{
    if value != 0 {
        1
    } else {
        0
    }
}

/// How many milliseconds to sleep: a negative wish means not at all.
pub fn sleep_millis(ms: i64) -> (r: u64)
    ensures
        r == (if ms > 0 {
            ms as int
        } else {
            0int
        }),
{
    if ms > 0 {
        ms as u64
    } else {
        0
    }
}

} // verus!
