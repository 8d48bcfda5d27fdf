//! The device variants and their per-variant constants.

use vstd::prelude::*;

verus! {

/// Number of macrocell slots in each function block, on every device variant.
pub const MCS_PER_FB: usize = 16;

/// Number of AND terms in each function block, on every device variant.
pub const ANDTERMS_PER_FB: usize = 56;

/// Number of inputs feeding each AND term, on every device variant.
pub const INPUTS_PER_ANDTERM: usize = 40;

/// The supported device size/package variants.
#[derive(Clone, Copy, PartialEq, Eq, Structural, Debug)]
pub enum XC2Device {
    XC2C32,
    XC2C32A,
    XC2C64,
    XC2C64A,
    XC2C128,
    XC2C256,
    XC2C384,
    XC2C512,
}

impl XC2Device {
    /// Whether this is one of the "small" (32 or 64 macrocell) variants,
    /// whose I/O pins use the combined Schmitt-trigger flag layout.
    pub open spec fn is_small(self) -> bool {
        self is XC2C32 || self is XC2C32A || self is XC2C64 || self is XC2C64A
    }

    /// Whether this is one of the "large" (128 and greater macrocell)
    /// variants, whose I/O pins carry an input-buffer mode and a DataGate
    /// flag, and which may contain buried macrocells.
    pub open spec fn is_large(self) -> bool {
        !self.is_small()
    }

    /// Number of function blocks on this variant.
    pub open spec fn spec_num_fbs(self) -> int {
        match self {
            XC2Device::XC2C32 | XC2Device::XC2C32A => 2,
            XC2Device::XC2C64 | XC2Device::XC2C64A => 4,
            XC2Device::XC2C128 => 8,
            XC2Device::XC2C256 => 16,
            XC2Device::XC2C384 => 24,
            XC2Device::XC2C512 => 32,
        }
    }

    /// Number of function blocks on this variant.
    pub fn num_fbs(self) -> (n: u32)
        ensures
            n as int == self.spec_num_fbs(),
    {
        match self {
            XC2Device::XC2C32 | XC2Device::XC2C32A => 2,
            XC2Device::XC2C64 | XC2Device::XC2C64A => 4,
            XC2Device::XC2C128 => 8,
            XC2Device::XC2C256 => 16,
            XC2Device::XC2C384 => 24,
            XC2Device::XC2C512 => 32,
        }
    }

    /// Total count of bonded I/O pins on this variant. Every pin index
    /// below this count maps to a macrocell slot, and no other does.
    pub open spec fn spec_num_iobs(self) -> int {
        match self {
            XC2Device::XC2C32 | XC2Device::XC2C32A => 32,
            XC2Device::XC2C64 | XC2Device::XC2C64A => 64,
            XC2Device::XC2C128 => 100,
            XC2Device::XC2C256 => 184,
            XC2Device::XC2C384 => 240,
            XC2Device::XC2C512 => 270,
        }
    }

    /// Total count of bonded I/O pins on this variant.
    pub fn num_iobs(self) -> (n: u32)
        ensures
            n as int == self.spec_num_iobs(),
    {
        match self {
            XC2Device::XC2C32 | XC2Device::XC2C32A => 32,
            XC2Device::XC2C64 | XC2Device::XC2C64A => 64,
            XC2Device::XC2C128 => 100,
            XC2Device::XC2C256 => 184,
            XC2Device::XC2C384 => 240,
            XC2Device::XC2C512 => 270,
        }
    }
}

} // verus!
