//! Linear and sub-sequence search over equality-comparable elements.

use vstd::prelude::*;
use vstd::std_specs::cmp::PartialEqSpec;

verus! {

/// `needle` occurs contiguously in `haystack` at position `i`: the needle
/// fits within the haystack there, and every element of it equals the
/// haystack element `i` positions further along.
pub open spec fn matches_at<T: PartialEq>(haystack: Seq<T>, needle: Seq<T>, i: int) -> bool {
    &&& 0 <= i
    &&& i + needle.len() <= haystack.len()
    &&& forall|k: int| 0 <= k < needle.len() ==> haystack[i + k].eq_spec(&needle[k])
}

/// Compares `needle` against the elements of `haystack` starting at `h`,
/// rejecting the position as soon as a comparison fails or would read past
/// the end of the haystack.
fn matches_prefix_at<T: PartialEq>(haystack: &[T], needle: &[T], h: usize) -> (r: bool)
    requires
        h <= haystack@.len(),
    ensures
        r ==> h + needle@.len() <= haystack@.len(),
        T::obeys_eq_spec() ==> (r <==> matches_at(haystack@, needle@, h as int)),
{
    let len: usize = haystack.len();
    let mut n: usize = 0;
    while n < needle.len()
        invariant
            len == haystack@.len(),
            n <= needle@.len(),
            h + n <= haystack@.len(),
            T::obeys_eq_spec() ==> forall|k: int|
                0 <= k < n ==> haystack@[h + k].eq_spec(&needle@[k]),
        decreases needle@.len() - n,
    {
        if h + n >= haystack.len() {
            return false;
        }
        if haystack[h + n] != needle[n] {
            return false;
        }
        n += 1;
    }
    true
}

/// Finds the first position at which `needle` occurs contiguously in
/// `haystack`, by brute-force scan of every candidate start position.
///
/// Returns the smallest index `i` with `matches_at(haystack@, needle@, i)`,
/// or `None` when the needle occurs nowhere — in particular whenever the
/// haystack is shorter than the needle. Searching for an empty needle is a
/// caller bug and is ruled out up front.
pub fn index_of<T: PartialEq>(haystack: &[T], needle: &[T]) -> (result: Option<usize>)
    requires
        needle@.len() > 0,
    ensures
        result matches Some(i) ==> i + needle@.len() <= haystack@.len(),
        haystack@.len() < needle@.len() ==> result is None,
        T::obeys_eq_spec() ==> match result {
            Some(i) => {
                &&& matches_at(haystack@, needle@, i as int)
                &&& forall|j: int| 0 <= j < i ==> !matches_at(haystack@, needle@, j)
            },
            None => forall|j: int| !matches_at(haystack@, needle@, j),
        },
{
    let mut h: usize = 0;
    while h < haystack.len()
        invariant
            h <= haystack@.len(),
            needle@.len() > 0,
            T::obeys_eq_spec() ==> forall|j: int|
                0 <= j < h ==> !matches_at(haystack@, needle@, j),
        decreases haystack@.len() - h,
    {
        if matches_prefix_at(haystack, needle, h) {
            return Some(h);
        }
        h += 1;
    }
    None
}

/// Finds the first occurrence of `needle` at or after `start_at`.
///
/// Returns the smallest index `i >= start_at` whose element equals
/// `needle`, or `None` when no element at or after `start_at` does;
/// a `start_at` at or past the end is an ordinary "not found".
pub fn index_of_from<T: PartialEq>(haystack: &Vec<T>, needle: &T, start_at: usize) -> (result:
    Option<usize>)
    ensures
        start_at >= haystack@.len() ==> result is None,
        result matches Some(i) ==> start_at <= i < haystack@.len(),
        T::obeys_eq_spec() ==> match result {
            Some(i) => {
                &&& start_at <= i < haystack@.len()
                &&& haystack@[i as int].eq_spec(needle)
                &&& forall|j: int|
                    start_at <= j < i ==> !haystack@[j].eq_spec(needle)
            },
            None => forall|j: int|
                start_at <= j < haystack@.len() ==> !haystack@[j].eq_spec(needle),
        },
{
    let mut index: usize = start_at;
    while index < haystack.len()
        invariant
            start_at <= index,
            T::obeys_eq_spec() ==> forall|j: int|
                start_at <= j < index && j < haystack@.len() ==> !haystack@[j].eq_spec(needle),
        decreases haystack@.len() - index,
    {
        if haystack[index] == *needle {
            return Some(index);
        }
        index += 1;
    }
    None
}

} // verus!
