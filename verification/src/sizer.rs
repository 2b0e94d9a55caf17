//! How much physical memory the operating system says can be had.
//!
//! Nothing is cached: every query asks the operating system anew.

use vstd::prelude::*;
use sysinfo::{MemoryRefreshKind, RefreshKind, System};
use crate::{config::AllocationMode, detector::DetectorError};

verus! {

/// `sysinfo::System`, which holds the figures of one reading of the
/// operating system's memory accounting. Nothing is claimed of what is in it.
#[verifier::external_type_specification]
#[verifier::external_body]
pub struct ExSystem(sysinfo::System);

/// `sysinfo::System::available_memory`: the bytes of memory that could be
/// had without swapping, as of the reading. Nothing is claimed of the figure.
pub assume_specification[ sysinfo::System::available_memory ](system: &System) -> (bytes: u64)
;

/// `sysinfo::System::free_memory`: the bytes of memory that nothing uses, as
/// of the reading. Nothing is claimed of the figure.
pub assume_specification[ sysinfo::System::free_memory ](system: &System) -> (bytes: u64)
;

/// Takes one reading of the memory figures, and of nothing else.
///
/// Calls `sysinfo::System::new_with_specifics` with a `sysinfo::RefreshKind`
/// that asks for the RAM figures only. Nothing is claimed of the reading.
#[verifier::external_body]
fn read_memory() -> (system: System) {
    System::new_with_specifics(RefreshKind::new().with_memory(MemoryRefreshKind::new().with_ram()))
}

/// Tells whether memory figures can be had on this platform at all.
///
/// Reads the constant `sysinfo::IS_SUPPORTED_SYSTEM`. Nothing is claimed of
/// its value, which differs from platform to platform.
#[verifier::external_body]
fn platform_is_supported() -> (supported: bool) {
    sysinfo::IS_SUPPORTED_SYSTEM
}

/// Returns the bytes of memory that could be had without swapping: what is
/// unused and what is in use but can be reclaimed, such as caches.
///
/// Fails only where the platform offers no memory figures.
pub fn available_bytes() -> (bytes: Result<u64, DetectorError>)
    ensures
        bytes matches Err(error) ==> error == DetectorError::UnsupportedPlatform,
{
    bytes_in_mode(AllocationMode::Available)
}

/// Returns the bytes of memory that nothing uses.
///
/// Memory that holds caches or buffers is in use, and is not counted, though
/// it could be reclaimed: [`available_bytes`] counts it. Where the operating
/// system does not tell the two apart, both queries give the same figure.
///
/// Fails only where the platform offers no memory figures.
pub fn free_bytes() -> (bytes: Result<u64, DetectorError>)
    ensures
        bytes matches Err(error) ==> error == DetectorError::UnsupportedPlatform,
{
    bytes_in_mode(AllocationMode::Free)
}

/// Takes one reading of the memory figures and returns the one that a
/// detector of maximum size goes by in `mode`.
///
/// Fails only where the platform offers no memory figures. What is returned
/// for each thing that the operating system may say is laid down by
/// [`reported`] and [`figure_for`].
pub fn bytes_in_mode(mode: AllocationMode) -> (bytes: Result<u64, DetectorError>)
    ensures
        bytes matches Err(error) ==> error == DetectorError::UnsupportedPlatform,
{
    let system = read_memory();
    let figure = figure_for(mode, system.available_memory(), system.free_memory());
    reported(platform_is_supported(), figure)
}

/// Picks, of the two figures of one reading, the one that a detector of
/// maximum size goes by in `mode`.
pub fn figure_for(mode: AllocationMode, available: u64, free: u64) -> (bytes: u64)
    ensures
        bytes == match mode {
            AllocationMode::Available => available,
            AllocationMode::Free => free,
        },
{
    match mode {
        AllocationMode::Available => available,
        AllocationMode::Free => free,
    }
}

/// Gives the answer of a query: `figure` where the platform offers memory
/// figures, and the lack of support where it offers none.
pub fn reported(supported: bool, figure: u64) -> (bytes: Result<u64, DetectorError>)
    ensures
        bytes == if supported {
            Ok::<u64, DetectorError>(figure)
        } else {
            Err::<u64, DetectorError>(DetectorError::UnsupportedPlatform)
        },
{
    if supported {
        Ok(figure)
    } else {
        Err(DetectorError::UnsupportedPlatform)
    }
}

} // verus!
