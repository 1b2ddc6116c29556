use rand::Rng;
use vstd::prelude::*;

verus! {

/// Relies on rand's `thread_rng` and `Rng::gen_range` over a half-open range: the
/// result lies in `[low, high)`; `gen_range` panics on an empty range.
#[verifier::external_body]
pub(crate) fn random_in_range(low: i64, high: i64) -> (r: i64)
    requires
        low < high,
    ensures
        low <= r < high,
{
    rand::thread_rng().gen_range(low..high)
}

/// Appends `items` to `arrays`.
pub fn add_items(arrays: &mut Vec<i64>, items: i64)
    ensures
        final(arrays)@ == old(arrays)@.push(items),
{
    arrays.push(items);
}

/// Whether `idx` is the position of the last occurrence of `num` in `s`, or `-1` when
/// `num` does not occur.
pub open spec fn is_last_index_of(s: Seq<i64>, num: i64, idx: int) -> bool {
    if s.contains(num) {
        0 <= idx < s.len() && s[idx] == num && forall|j: int| idx < j < s.len() ==> s[j] != num
    } else {
        idx == -1
    }
}

/// The position of the last occurrence of `num` in `arrays`, or `-1` when there is none.
/// Every element is examined.
pub fn linear_search(arrays: &Vec<i64>, num: i64) -> (r: i64)
    requires
        arrays@.len() <= i64::MAX,
    ensures
        is_last_index_of(arrays@, num, r as int),
{
    let mut idx: i64 = -1;
    let n: usize = arrays.len();
    let mut i: usize = 0;
    while i < n
        invariant
            n == arrays@.len(),
            n <= i64::MAX,
            i <= n,
            is_last_index_of(arrays@.subrange(0, i as int), num, idx as int),
        decreases n - i,
    {
        let ghost prefix = arrays@.subrange(0, i as int);
        if arrays[i] == num {
            idx = i as i64;
        }
        assert(arrays@.subrange(0, i + 1) =~= prefix.push(arrays@[i as int]));
        assert(prefix.contains(num) ==> arrays@.subrange(0, i + 1)[prefix.index_of(num)] == num);
        i = i + 1;
    }
    assert(arrays@.subrange(0, n as int) =~= arrays@);
    idx
}

/// A vector of `length` values drawn at random from `[0, max_num)`.
pub fn generate_random_vector_i64(length: usize, max_num: i64) -> (r: Vec<i64>)
    requires
        length > 0 ==> max_num > 0,
    ensures
        r@.len() == length,
        forall|k: int| 0 <= k < length ==> 0 <= #[trigger] r@[k] < max_num,
{
    let mut result_arr: Vec<i64> = Vec::new();
    let mut i: usize = 0;
    while i < length
        invariant
            i <= length,
            length > 0 ==> max_num > 0,
            result_arr@.len() == i,
            forall|k: int| 0 <= k < i ==> 0 <= #[trigger] result_arr@[k] < max_num,
        decreases length - i,
    {
        let temp_num: i64 = random_in_range(0, max_num);
        result_arr.push(temp_num);
        i = i + 1;
    }
    result_arr
}

} // verus!
