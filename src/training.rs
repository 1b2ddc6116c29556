pub mod person;
pub mod test;

use vstd::prelude::*;

verus! {

/// Always 999.
pub fn return_test() -> (r: i64)
    ensures
        r == 999,
{
    999
}

/// Writes `value` at position `index` of `arr`, leaving the rest as it was.
pub fn insert_into_arr(arr: &mut [i64], value: i64, index: usize)
    requires
        index < old(arr)@.len(),
    ensures
        final(arr)@ == old(arr)@.update(index as int, value),
{
    arr[index] = value;
}

/// The sum of `a` and `b`.
pub fn add_a_b_i64(a: i64, b: i64) -> (r: i64)
    requires
        i64::MIN <= a + b <= i64::MAX,
    ensures
        r == a + b,
{
    a + b
}

/// Five plus one.
pub fn five_add_one() -> (r: u8)
    ensures
        r == 6,
{
    5 + 1
}

/// Five plus `some_number`.
pub fn five_plus_something(some_number: i64) -> (r: i64)
    requires
        some_number <= i64::MAX - 5,
    ensures
        r == 5 + some_number,
{
    5 + some_number
}

} // verus!
