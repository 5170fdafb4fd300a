//! Equality of numbers up to a small absolute error, for holding computed
//! outputs against expected ones.

use crate::binary64::{abs, magnitude, neg, negated, rounded_sum, sum};
use vstd::prelude::*;

verus! {

/// The pattern of `1e-15`, the error below which two numbers count as equal.
pub const TOLERANCE: u64 = 0x3CD2_03AF_9EE7_5616;

/// Whether `left` and `right` differ by less than `1e-15`: the distance from
/// zero of `left + (-right)` lies below the tolerance. The magnitudes of two
/// numbers are ordered as the numbers are, and that of a NaN lies above the
/// tolerance: a NaN is close to nothing.
pub open spec fn close(left: u64, right: u64) -> bool {
    magnitude(rounded_sum(left, negated(right))) < TOLERANCE
}

/// Whether two vectors are close at every place they both have.
pub open spec fn all_close(left: Seq<u64>, right: Seq<u64>) -> bool {
    forall|i: int| 0 <= i < left.len() && i < right.len() ==> close(left[i], right[i])
}

/// Tests whether two numbers differ by less than `1e-15`.
pub fn nearly_equal(left: u64, right: u64) -> (equal: bool)
    ensures
        equal == close(left, right),
{
    abs(sum(left, neg(right))) < TOLERANCE
}

/// Tests whether two samples are nearly equal at every place.
pub fn sample_equal<const SIZE: usize>(left: [u64; SIZE], right: [u64; SIZE]) -> (equal: bool)
    ensures
        equal == all_close(left@, right@),
{
    let mut i: usize = 0;
    while i < SIZE
        invariant
            i <= SIZE,
            forall|j: int| 0 <= j < i ==> close(left@[j], right@[j]),
        decreases SIZE - i,
    {
        if !nearly_equal(left[i], right[i]) {
            return false;
        }
        i += 1;
    }
    true
}

/// Tests whether two batches are nearly equal, sample by sample. Where one
/// batch is longer than the other, the samples it has in excess are not
/// looked at.
pub fn batch_equal<const SIZE: usize>(left: Vec<[u64; SIZE]>, right: Vec<[u64; SIZE]>) -> (equal:
    bool)
    ensures
        equal == (forall|k: int|
            0 <= k < left@.len() && k < right@.len() ==> all_close(
                (#[trigger] left@[k])@,
                right@[k]@,
            )),
{
    let mut k: usize = 0;
    while k < left.len() && k < right.len()
        invariant
            forall|j: int| 0 <= j < k ==> all_close((#[trigger] left@[j])@, right@[j]@),
        decreases left@.len() - k,
    {
        if !sample_equal(left[k], right[k]) {
            return false;
        }
        k += 1;
    }
    true
}

} // verus!
