//! Whole-buffer passes that are split over a pool of worker threads.

use vstd::prelude::*;
use rayon::iter::{
    IndexedParallelIterator, IntoParallelRefIterator, IntoParallelRefMutIterator, ParallelIterator,
};
use crate::access::{differs, overwrite};

verus! {

/// Overwrites every byte of `mass` with `value`, the bytes shared out among
/// the workers of rayon's current thread pool.
///
/// Calls `par_iter_mut` on the vector and `rayon::iter::ParallelIterator::for_each`
/// on the result, which runs the given operation once on each element. The
/// operation is [`overwrite`], so the contract claims that afterwards the
/// vector has its old length and every byte of it is `value`.
#[verifier::external_body]
pub(crate) fn fill(mass: &mut Vec<u8>, value: u8)
    ensures
        final(mass)@.len() == old(mass)@.len(),
        forall|i: int| 0 <= i < final(mass)@.len() ==> final(mass)@[i] == value,
{
    mass.par_iter_mut().for_each(|cell| overwrite(cell, value))
}

/// Looks for a byte of `mass` that differs from `expected`, the bytes shared
/// out among the workers of rayon's current thread pool.
///
/// Calls `par_iter` on the vector and
/// `rayon::iter::IndexedParallelIterator::position_any` on the result, which
/// returns the index of some element that satisfies the predicate, not
/// necessarily the first, or `None` when no element does. The predicate is
/// [`differs`], so the contract claims that a returned index is in bounds and
/// names a byte other than `expected`, and that `None` means every byte equals
/// `expected`.
#[verifier::external_body]
pub(crate) fn position_any_changed(mass: &Vec<u8>, expected: u8) -> (found: Option<usize>)
    ensures
        match found {
            Some(i) => i < mass@.len() && mass@[i as int] != expected,
            None => forall|i: int| 0 <= i < mass@.len() ==> mass@[i] == expected,
        },
{
    mass.par_iter().position_any(|cell| differs(cell, expected))
}

} // verus!
