//! A detector for spontaneous bit flips in ordinary (non-ECC) memory.
//!
//! The detector owns a block of bytes, fills it with a known value and later
//! scans it for bytes that no longer hold that value.
//!
//! - [`detector`] holds the block and the passes over it.
//! - [`sizer`] asks the operating system how much memory can be had.
//! - [`config`] holds the settings of a run and reads sizes such as `2GB`.
//! - [`laws`] states what holds of every detector.

mod access;
pub mod config;
pub mod detector;
pub mod laws;
mod parallel;
pub mod sizer;
