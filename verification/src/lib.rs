//! Configuration codec for Coolrunner-II CPLD bitstreams.
//!
//! The crate converts between a logical description of a device's per-pin
//! and per-macrocell settings and the two physical fuse encodings used by
//! vendor tooling: a flat, linearly-ordered bit sequence and a
//! two-dimensional per-device fuse bitmap.

pub mod crbit;
pub mod device;
pub mod fusearray;
pub mod iob;
pub mod jed;
pub mod mc;
pub mod pinmap;
