//! Single-byte memory accesses that the compiler may not remove.
//!
//! A detector is only worth something if its reads and writes really reach
//! memory. Every access to the monitored bytes therefore goes through the two
//! volatile accessors below.

use vstd::prelude::*;
use volatile::Volatile;

verus! {

/// Reads one byte with a volatile load.
///
/// Calls `volatile::Volatile::new` on the reference and then
/// `volatile::Volatile::read`, which performs `core::ptr::read_volatile` on
/// it. The contract claims that the load yields the byte the reference points
/// to.
#[verifier::external_body]
pub(crate) fn load(cell: &u8) -> (value: u8)
    ensures
        value == *cell,
{
    Volatile::new(cell).read()
}

/// Writes one byte with a volatile store.
///
/// Calls `volatile::Volatile::new` on the reference and then
/// `volatile::Volatile::write`, which performs `core::ptr::write_volatile` on
/// it. The contract claims that afterwards the referenced byte is `value`.
#[verifier::external_body]
pub(crate) fn store(cell: &mut u8, value: u8)
    ensures
        *final(cell) == value,
{
    Volatile::new(cell).write(value)
}

/// Tells whether the byte behind `cell` is something other than `expected`.
pub(crate) fn differs(cell: &u8, expected: u8) -> (changed: bool)
    ensures
        changed == (*cell != expected),
{
    load(cell) != expected
}

/// Makes the byte behind `cell` hold `value`.
pub(crate) fn overwrite(cell: &mut u8, value: u8)
    ensures
        *final(cell) == value,
{
    store(cell, value)
}

} // verus!
