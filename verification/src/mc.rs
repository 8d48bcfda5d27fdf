//! Configuration of the macrocells, and its bit-level encoding.

use vstd::prelude::*;

use crate::iob::XC2MCLargeIOB;
use crate::iob::XC2MCSmallIOB;
use crate::iob::spec_inmod_bits;
use crate::iob::spec_inz_bits;
use crate::iob::spec_oe_bits;
use crate::iob::spec_read_large_iob;
use crate::iob::spec_read_small_iob;

verus! {

/// Clock source for the register in a macrocell.
#[derive(Clone, Copy, PartialEq, Eq, Structural, Debug)]
pub enum XC2MCRegClkSrc {
    GCK0,
    GCK1,
    GCK2,
    PTC,
    CTC,
}

/// Reset source for the register in a macrocell.
#[derive(Clone, Copy, PartialEq, Eq, Structural, Debug)]
pub enum XC2MCRegResetSrc {
    Disabled,
    PTA,
    GSR,
    CTR,
}

/// Set source for the register in a macrocell.
#[derive(Clone, Copy, PartialEq, Eq, Structural, Debug)]
pub enum XC2MCRegSetSrc {
    Disabled,
    PTA,
    GSR,
    CTS,
}

/// Mode of the register in a macrocell.
#[derive(Clone, Copy, PartialEq, Eq, Structural, Debug)]
pub enum XC2MCRegMode {
    /// D-type flip-flop.
    DFF,
    /// Transparent latch.
    LATCH,
    /// Toggle flip-flop.
    TFF,
    /// D-type flip-flop with clock-enable pin.
    DFFCE,
}

/// Mux selection for the ZIA input from this macrocell. The ZIA input can
/// be chosen to come from either the XOR gate or from the output of the
/// register.
#[derive(Clone, Copy, PartialEq, Eq, Structural, Debug)]
pub enum XC2MCFeedbackMode {
    Disabled,
    COMB,
    REG,
}

/// Mux selection for the "not from OR gate" input to the XOR gate. The XOR
/// gate in a macrocell contains two inputs, the output of the corresponding
/// OR term from the PLA and a specific dedicated AND term from the PLA.
#[derive(Clone, Copy, PartialEq, Eq, Structural, Debug)]
pub enum XC2MCXorMode {
    /// A constant zero which results in this XOR outputting the value of
    /// the OR term.
    ZERO,
    /// A constant one which results in this XOR outputting the complement
    /// of the OR term.
    ONE,
    /// XOR the OR term with the special product term C.
    PTC,
    /// XNOR the OR term with the special product term C.
    PTCB,
}

/// The Aclk bit of a clock source: set exactly for the control-term clock.
pub open spec fn spec_aclk_bit(c: XC2MCRegClkSrc) -> bool {
    c is CTC
}

/// The fixed two-bit Clk pattern of a clock source. The product-term and
/// control-term clocks share a pattern; the Aclk bit tells them apart.
pub open spec fn spec_clk_bits(c: XC2MCRegClkSrc) -> (bool, bool) {
    match c {
        XC2MCRegClkSrc::GCK0 => (false, false),
        XC2MCRegClkSrc::GCK1 => (true, false),
        XC2MCRegClkSrc::GCK2 => (false, true),
        XC2MCRegClkSrc::PTC | XC2MCRegClkSrc::CTC => (true, true),
    }
}

/// The clock source a Clk pattern and Aclk bit decode to. Every combination
/// has a meaning.
pub open spec fn spec_clk_src_of(clk: (bool, bool), aclk: bool) -> XC2MCRegClkSrc {
    match clk {
        (false, false) => XC2MCRegClkSrc::GCK0,
        (false, true) => XC2MCRegClkSrc::GCK2,
        (true, false) => XC2MCRegClkSrc::GCK1,
        (true, true) => if aclk {
            XC2MCRegClkSrc::CTC
        } else {
            XC2MCRegClkSrc::PTC
        },
    }
}

/// The fixed two-bit R pattern of a reset source.
pub open spec fn spec_r_bits(r: XC2MCRegResetSrc) -> (bool, bool) {
    match r {
        XC2MCRegResetSrc::PTA => (false, false),
        XC2MCRegResetSrc::GSR => (false, true),
        XC2MCRegResetSrc::CTR => (true, false),
        XC2MCRegResetSrc::Disabled => (true, true),
    }
}

/// The reset source a two-bit R pattern decodes to. All four patterns are
/// assigned.
pub open spec fn spec_r_src_of(b: (bool, bool)) -> XC2MCRegResetSrc {
    match b {
        (false, false) => XC2MCRegResetSrc::PTA,
        (false, true) => XC2MCRegResetSrc::GSR,
        (true, false) => XC2MCRegResetSrc::CTR,
        (true, true) => XC2MCRegResetSrc::Disabled,
    }
}

/// The fixed two-bit P pattern of a set source.
pub open spec fn spec_p_bits(s: XC2MCRegSetSrc) -> (bool, bool) {
    match s {
        XC2MCRegSetSrc::PTA => (false, false),
        XC2MCRegSetSrc::GSR => (false, true),
        XC2MCRegSetSrc::CTS => (true, false),
        XC2MCRegSetSrc::Disabled => (true, true),
    }
}

/// The set source a two-bit P pattern decodes to. All four patterns are
/// assigned.
pub open spec fn spec_s_src_of(b: (bool, bool)) -> XC2MCRegSetSrc {
    match b {
        (false, false) => XC2MCRegSetSrc::PTA,
        (false, true) => XC2MCRegSetSrc::GSR,
        (true, false) => XC2MCRegSetSrc::CTS,
        (true, true) => XC2MCRegSetSrc::Disabled,
    }
}

/// The fixed two-bit RegMod pattern of a register mode.
pub open spec fn spec_regmod_bits(m: XC2MCRegMode) -> (bool, bool) {
    match m {
        XC2MCRegMode::DFF => (false, false),
        XC2MCRegMode::LATCH => (false, true),
        XC2MCRegMode::TFF => (true, false),
        XC2MCRegMode::DFFCE => (true, true),
    }
}

/// The register mode a two-bit RegMod pattern decodes to. All four patterns
/// are assigned.
pub open spec fn spec_reg_mode_of(b: (bool, bool)) -> XC2MCRegMode {
    match b {
        (false, false) => XC2MCRegMode::DFF,
        (false, true) => XC2MCRegMode::LATCH,
        (true, false) => XC2MCRegMode::TFF,
        (true, true) => XC2MCRegMode::DFFCE,
    }
}

/// The fixed two-bit FB pattern of a feedback mode.
pub open spec fn spec_fb_bits(m: XC2MCFeedbackMode) -> (bool, bool) {
    match m {
        XC2MCFeedbackMode::COMB => (false, false),
        XC2MCFeedbackMode::REG => (true, false),
        XC2MCFeedbackMode::Disabled => (true, true),
    }
}

/// The feedback mode a two-bit FB pattern decodes to. Every pattern has a
/// meaning: both patterns with the second bit set decode to `Disabled`.
pub open spec fn spec_fb_mode_of(b: (bool, bool)) -> XC2MCFeedbackMode {
    if b.1 {
        XC2MCFeedbackMode::Disabled
    } else if b.0 {
        XC2MCFeedbackMode::REG
    } else {
        XC2MCFeedbackMode::COMB
    }
}

/// The fixed two-bit XorIn pattern of an XOR-gate input selection.
pub open spec fn spec_xorin_bits(m: XC2MCXorMode) -> (bool, bool) {
    match m {
        XC2MCXorMode::ZERO => (false, false),
        XC2MCXorMode::PTCB => (false, true),
        XC2MCXorMode::PTC => (true, false),
        XC2MCXorMode::ONE => (true, true),
    }
}

/// The XOR-gate input selection a two-bit XorIn pattern decodes to. All
/// four patterns are assigned.
pub open spec fn spec_xor_mode_of(b: (bool, bool)) -> XC2MCXorMode {
    match b {
        (false, false) => XC2MCXorMode::ZERO,
        (false, true) => XC2MCXorMode::PTCB,
        (true, false) => XC2MCXorMode::PTC,
        (true, true) => XC2MCXorMode::ONE,
    }
}

/// Each field's bit pattern decodes back to the field value it encodes; the
/// clock source needs its Aclk bit as the tie-breaker.
pub proof fn lemma_mc_field_encodings_invert(
    c: XC2MCRegClkSrc,
    r: XC2MCRegResetSrc,
    s: XC2MCRegSetSrc,
    m: XC2MCRegMode,
    f: XC2MCFeedbackMode,
    x: XC2MCXorMode,
)
    ensures
        spec_clk_src_of(spec_clk_bits(c), spec_aclk_bit(c)) == c,
        spec_r_src_of(spec_r_bits(r)) == r,
        spec_s_src_of(spec_p_bits(s)) == s,
        spec_reg_mode_of(spec_regmod_bits(m)) == m,
        spec_fb_mode_of(spec_fb_bits(f)) == f,
        spec_xor_mode_of(spec_xorin_bits(x)) == x,
{
}

/// Represents a macrocell.
#[derive(Clone, Copy, PartialEq, Eq, Structural, Debug)]
pub struct XC2Macrocell {
    /// Clock source for the register.
    pub clk_src: XC2MCRegClkSrc,
    /// Specifies the clock polarity for the register.
    ///
    /// `false` = rising edge triggered flip-flop, transparent-when-high
    /// latch; `true` = falling edge triggered flip-flop,
    /// transparent-when-low latch.
    pub clk_invert_pol: bool,
    /// Specifies whether the flip-flop is triggered on both clock edges.
    pub is_ddr: bool,
    /// Reset source for the register.
    pub r_src: XC2MCRegResetSrc,
    /// Set source for the register.
    pub s_src: XC2MCRegSetSrc,
    /// Power-up state of the register.
    ///
    /// `false` = init to 0, `true` = init to 1.
    pub init_state: bool,
    /// Register mode.
    pub reg_mode: XC2MCRegMode,
    /// ZIA input mode for feedback from this macrocell.
    pub fb_mode: XC2MCFeedbackMode,
    /// Controls the input for the register.
    ///
    /// `false` = use the output of the XOR gate (combinatorial path),
    /// `true` = use the IOB direct path (`true` is illegal for buried
    /// macrocells in the larger devices).
    pub ff_in_ibuf: bool,
    /// Controls the "other" (not from the OR term) input to the XOR gate.
    pub xor_mode: XC2MCXorMode,
}

impl XC2Macrocell {
    /// The "default" macrocell configuration: a D flip-flop clocked by the
    /// first global clock, set/reset and feedback disabled, powering up to
    /// 1. A documented tool default, not a hardware mandate.
    pub open spec fn spec_default() -> XC2Macrocell {
        XC2Macrocell {
            clk_src: XC2MCRegClkSrc::GCK0,
            clk_invert_pol: false,
            is_ddr: false,
            r_src: XC2MCRegResetSrc::Disabled,
            s_src: XC2MCRegSetSrc::Disabled,
            init_state: true,
            reg_mode: XC2MCRegMode::DFF,
            fb_mode: XC2MCFeedbackMode::Disabled,
            ff_in_ibuf: false,
            xor_mode: XC2MCXorMode::ZERO,
        }
    }

    /// Encodes the Aclk bit.
    pub fn aclk(&self) -> (r: bool)
        ensures
            r == spec_aclk_bit(self.clk_src),
    {
        match self.clk_src {
            XC2MCRegClkSrc::CTC => true,
            _ => false,
        }
    }

    /// Encodes the Clk bits.
    pub fn clk(&self) -> (r: (bool, bool))
        ensures
            r == spec_clk_bits(self.clk_src),
    {
        match self.clk_src {
            XC2MCRegClkSrc::GCK0 => (false, false),
            XC2MCRegClkSrc::GCK1 => (true, false),
            XC2MCRegClkSrc::GCK2 => (false, true),
            XC2MCRegClkSrc::PTC | XC2MCRegClkSrc::CTC => (true, true),
        }
    }

    /// Encodes the R bits.
    pub fn r(&self) -> (r: (bool, bool))
        ensures
            r == spec_r_bits(self.r_src),
    {
        match self.r_src {
            XC2MCRegResetSrc::PTA => (false, false),
            XC2MCRegResetSrc::GSR => (false, true),
            XC2MCRegResetSrc::CTR => (true, false),
            XC2MCRegResetSrc::Disabled => (true, true),
        }
    }

    /// Encodes the P bits.
    pub fn p(&self) -> (r: (bool, bool))
        ensures
            r == spec_p_bits(self.s_src),
    {
        match self.s_src {
            XC2MCRegSetSrc::PTA => (false, false),
            XC2MCRegSetSrc::GSR => (false, true),
            XC2MCRegSetSrc::CTS => (true, false),
            XC2MCRegSetSrc::Disabled => (true, true),
        }
    }

    /// Encodes the RegMod bits.
    pub fn regmod(&self) -> (r: (bool, bool))
        ensures
            r == spec_regmod_bits(self.reg_mode),
    {
        match self.reg_mode {
            XC2MCRegMode::DFF => (false, false),
            XC2MCRegMode::LATCH => (false, true),
            XC2MCRegMode::TFF => (true, false),
            XC2MCRegMode::DFFCE => (true, true),
        }
    }

    /// Encodes the FB bits.
    pub fn fb(&self) -> (r: (bool, bool))
        ensures
            r == spec_fb_bits(self.fb_mode),
    {
        match self.fb_mode {
            XC2MCFeedbackMode::COMB => (false, false),
            XC2MCFeedbackMode::REG => (true, false),
            XC2MCFeedbackMode::Disabled => (true, true),
        }
    }

    /// Encodes the XorIn bits.
    pub fn xorin(&self) -> (r: (bool, bool))
        ensures
            r == spec_xorin_bits(self.xor_mode),
    {
        match self.xor_mode {
            XC2MCXorMode::ZERO => (false, false),
            XC2MCXorMode::PTCB => (false, true),
            XC2MCXorMode::PTC => (true, false),
            XC2MCXorMode::ONE => (true, true),
        }
    }
}

impl Default for XC2Macrocell {
    /// Returns the "default" macrocell configuration.
    fn default() -> (r: XC2Macrocell)
        ensures
            r == XC2Macrocell::spec_default(),
    {
        XC2Macrocell {
            clk_src: XC2MCRegClkSrc::GCK0,
            clk_invert_pol: false,
            is_ddr: false,
            r_src: XC2MCRegResetSrc::Disabled,
            s_src: XC2MCRegSetSrc::Disabled,
            init_state: true,
            reg_mode: XC2MCRegMode::DFF,
            fb_mode: XC2MCFeedbackMode::Disabled,
            ff_in_ibuf: false,
            xor_mode: XC2MCXorMode::ZERO,
        }
    }
}

/// The macrocell configuration encoded in the small-device 27-bit record
/// that starts at `base`. Every bit pattern decodes; the reserved patterns
/// live in the I/O fields, which `spec_read_small_iob` covers.
pub open spec fn spec_read_small_ff(fuses: Seq<bool>, base: int) -> XC2Macrocell {
    XC2Macrocell {
        clk_src: spec_clk_src_of((fuses[base + 2], fuses[base + 3]), fuses[base + 0]),
        clk_invert_pol: fuses[base + 1],
        is_ddr: fuses[base + 4],
        r_src: spec_r_src_of((fuses[base + 5], fuses[base + 6])),
        s_src: spec_s_src_of((fuses[base + 7], fuses[base + 8])),
        init_state: !fuses[base + 26],
        reg_mode: spec_reg_mode_of((fuses[base + 9], fuses[base + 10])),
        fb_mode: spec_fb_mode_of((fuses[base + 13], fuses[base + 14])),
        ff_in_ibuf: !fuses[base + 15],
        xor_mode: spec_xor_mode_of((fuses[base + 17], fuses[base + 18])),
    }
}

/// Reads only the macrocell-related bits from the macrocell configuration
/// record of a small device. The record is the `ff_idx`-th 27-bit group
/// after `block_idx`.
pub fn read_small_ff_logical(fuses: &[bool], block_idx: usize, ff_idx: usize) -> (r: XC2Macrocell)
    requires
        block_idx + ff_idx * 27 + 27 <= fuses@.len(),
    ensures
        r == spec_read_small_ff(fuses@, block_idx + ff_idx * 27),
{
    let _n = fuses.len();
    let base = block_idx + ff_idx * 27;

    let aclk = fuses[base + 0];
    let clk = (fuses[base + 2], fuses[base + 3]);
    let clk_src = match clk {
        (false, false) => XC2MCRegClkSrc::GCK0,
        (false, true) => XC2MCRegClkSrc::GCK2,
        (true, false) => XC2MCRegClkSrc::GCK1,
        (true, true) => match aclk {
            true => XC2MCRegClkSrc::CTC,
            false => XC2MCRegClkSrc::PTC,
        },
    };

    let clkop = fuses[base + 1];
    let clkfreq = fuses[base + 4];

    let r = (fuses[base + 5], fuses[base + 6]);
    let reset_mode = match r {
        (false, false) => XC2MCRegResetSrc::PTA,
        (false, true) => XC2MCRegResetSrc::GSR,
        (true, false) => XC2MCRegResetSrc::CTR,
        (true, true) => XC2MCRegResetSrc::Disabled,
    };

    let p = (fuses[base + 7], fuses[base + 8]);
    let set_mode = match p {
        (false, false) => XC2MCRegSetSrc::PTA,
        (false, true) => XC2MCRegSetSrc::GSR,
        (true, false) => XC2MCRegSetSrc::CTS,
        (true, true) => XC2MCRegSetSrc::Disabled,
    };

    let regmod = (fuses[base + 9], fuses[base + 10]);
    let reg_mode = match regmod {
        (false, false) => XC2MCRegMode::DFF,
        (false, true) => XC2MCRegMode::LATCH,
        (true, false) => XC2MCRegMode::TFF,
        (true, true) => XC2MCRegMode::DFFCE,
    };

    let fb = (fuses[base + 13], fuses[base + 14]);
    let fb_mode = match fb {
        (false, false) => XC2MCFeedbackMode::COMB,
        (true, false) => XC2MCFeedbackMode::REG,
        (_, true) => XC2MCFeedbackMode::Disabled,
    };

    let inreg = fuses[base + 15];

    let xorin = (fuses[base + 17], fuses[base + 18]);
    let xormode = match xorin {
        (false, false) => XC2MCXorMode::ZERO,
        (false, true) => XC2MCXorMode::PTCB,
        (true, false) => XC2MCXorMode::PTC,
        (true, true) => XC2MCXorMode::ONE,
    };

    let pu = fuses[base + 26];

    XC2Macrocell {
        clk_src,
        clk_invert_pol: clkop,
        is_ddr: clkfreq,
        r_src: reset_mode,
        s_src: set_mode,
        init_state: !pu,
        reg_mode,
        fb_mode,
        ff_in_ibuf: !inreg,
        xor_mode: xormode,
    }
}

/// The macrocell configuration encoded in the large-device 29-bit record
/// (a slot with an associated I/O pin) that starts at `base`.
pub open spec fn spec_read_large_ff(fuses: Seq<bool>, base: int) -> XC2Macrocell {
    XC2Macrocell {
        clk_src: spec_clk_src_of((fuses[base + 1], fuses[base + 2]), fuses[base + 0]),
        clk_invert_pol: fuses[base + 4],
        is_ddr: fuses[base + 3],
        r_src: spec_r_src_of((fuses[base + 23], fuses[base + 24])),
        s_src: spec_s_src_of((fuses[base + 17], fuses[base + 18])),
        init_state: !fuses[base + 19],
        reg_mode: spec_reg_mode_of((fuses[base + 21], fuses[base + 22])),
        fb_mode: spec_fb_mode_of((fuses[base + 6], fuses[base + 7])),
        ff_in_ibuf: !fuses[base + 10],
        xor_mode: spec_xor_mode_of((fuses[base + 27], fuses[base + 28])),
    }
}

/// Reads only the macrocell-related bits from the 29-bit configuration
/// record of a large-device macrocell that has an associated I/O pin.
pub fn read_large_ff_logical(fuses: &[bool], fuse_idx: usize) -> (r: XC2Macrocell)
    requires
        fuse_idx + 29 <= fuses@.len(),
    ensures
        r == spec_read_large_ff(fuses@, fuse_idx as int),
{
    let _n = fuses.len();

    let aclk = fuses[fuse_idx + 0];

    let clk = (fuses[fuse_idx + 1], fuses[fuse_idx + 2]);
    let clk_src = match clk {
        (false, false) => XC2MCRegClkSrc::GCK0,
        (false, true) => XC2MCRegClkSrc::GCK2,
        (true, false) => XC2MCRegClkSrc::GCK1,
        (true, true) => match aclk {
            true => XC2MCRegClkSrc::CTC,
            false => XC2MCRegClkSrc::PTC,
        },
    };

    let clkfreq = fuses[fuse_idx + 3];
    let clkop = fuses[fuse_idx + 4];

    let fb = (fuses[fuse_idx + 6], fuses[fuse_idx + 7]);
    let fb_mode = match fb {
        (false, false) => XC2MCFeedbackMode::COMB,
        (true, false) => XC2MCFeedbackMode::REG,
        (_, true) => XC2MCFeedbackMode::Disabled,
    };

    let inreg = fuses[fuse_idx + 10];

    let p = (fuses[fuse_idx + 17], fuses[fuse_idx + 18]);
    let set_mode = match p {
        (false, false) => XC2MCRegSetSrc::PTA,
        (false, true) => XC2MCRegSetSrc::GSR,
        (true, false) => XC2MCRegSetSrc::CTS,
        (true, true) => XC2MCRegSetSrc::Disabled,
    };

    let pu = fuses[fuse_idx + 19];

    let regmod = (fuses[fuse_idx + 21], fuses[fuse_idx + 22]);
    let reg_mode = match regmod {
        (false, false) => XC2MCRegMode::DFF,
        (false, true) => XC2MCRegMode::LATCH,
        (true, false) => XC2MCRegMode::TFF,
        (true, true) => XC2MCRegMode::DFFCE,
    };

    let r = (fuses[fuse_idx + 23], fuses[fuse_idx + 24]);
    let reset_mode = match r {
        (false, false) => XC2MCRegResetSrc::PTA,
        (false, true) => XC2MCRegResetSrc::GSR,
        (true, false) => XC2MCRegResetSrc::CTR,
        (true, true) => XC2MCRegResetSrc::Disabled,
    };

    let xorin = (fuses[fuse_idx + 27], fuses[fuse_idx + 28]);
    let xormode = match xorin {
        (false, false) => XC2MCXorMode::ZERO,
        (false, true) => XC2MCXorMode::PTCB,
        (true, false) => XC2MCXorMode::PTC,
        (true, true) => XC2MCXorMode::ONE,
    };

    XC2Macrocell {
        clk_src,
        clk_invert_pol: clkop,
        is_ddr: clkfreq,
        r_src: reset_mode,
        s_src: set_mode,
        init_state: !pu,
        reg_mode,
        fb_mode,
        ff_in_ibuf: !inreg,
        xor_mode: xormode,
    }
}

/// The macrocell configuration encoded in the large-device 16-bit record
/// (a buried slot, with no I/O pin) that starts at `base`. The register
/// input is forced to the XOR-gate path, since a buried macrocell has no
/// input-buffer path.
pub open spec fn spec_read_large_buried_ff(fuses: Seq<bool>, base: int) -> XC2Macrocell {
    XC2Macrocell {
        clk_src: spec_clk_src_of((fuses[base + 1], fuses[base + 2]), fuses[base + 0]),
        clk_invert_pol: fuses[base + 4],
        is_ddr: fuses[base + 3],
        r_src: spec_r_src_of((fuses[base + 12], fuses[base + 13])),
        s_src: spec_s_src_of((fuses[base + 7], fuses[base + 8])),
        init_state: !fuses[base + 9],
        reg_mode: spec_reg_mode_of((fuses[base + 10], fuses[base + 11])),
        fb_mode: spec_fb_mode_of((fuses[base + 5], fuses[base + 6])),
        ff_in_ibuf: false,
        xor_mode: spec_xor_mode_of((fuses[base + 14], fuses[base + 15])),
    }
}

/// Reads only the macrocell-related bits from the 16-bit configuration
/// record of a large-device buried macrocell.
pub fn read_large_buried_ff_logical(fuses: &[bool], fuse_idx: usize) -> (r: XC2Macrocell)
    requires
        fuse_idx + 16 <= fuses@.len(),
    ensures
        r == spec_read_large_buried_ff(fuses@, fuse_idx as int),
{
    let _n = fuses.len();

    let aclk = fuses[fuse_idx + 0];

    let clk = (fuses[fuse_idx + 1], fuses[fuse_idx + 2]);
    let clk_src = match clk {
        (false, false) => XC2MCRegClkSrc::GCK0,
        (false, true) => XC2MCRegClkSrc::GCK2,
        (true, false) => XC2MCRegClkSrc::GCK1,
        (true, true) => match aclk {
            true => XC2MCRegClkSrc::CTC,
            false => XC2MCRegClkSrc::PTC,
        },
    };

    let clkfreq = fuses[fuse_idx + 3];
    let clkop = fuses[fuse_idx + 4];

    let fb = (fuses[fuse_idx + 5], fuses[fuse_idx + 6]);
    let fb_mode = match fb {
        (false, false) => XC2MCFeedbackMode::COMB,
        (true, false) => XC2MCFeedbackMode::REG,
        (_, true) => XC2MCFeedbackMode::Disabled,
    };

    let p = (fuses[fuse_idx + 7], fuses[fuse_idx + 8]);
    let set_mode = match p {
        (false, false) => XC2MCRegSetSrc::PTA,
        (false, true) => XC2MCRegSetSrc::GSR,
        (true, false) => XC2MCRegSetSrc::CTS,
        (true, true) => XC2MCRegSetSrc::Disabled,
    };

    let pu = fuses[fuse_idx + 9];

    let regmod = (fuses[fuse_idx + 10], fuses[fuse_idx + 11]);
    let reg_mode = match regmod {
        (false, false) => XC2MCRegMode::DFF,
        (false, true) => XC2MCRegMode::LATCH,
        (true, false) => XC2MCRegMode::TFF,
        (true, true) => XC2MCRegMode::DFFCE,
    };

    let r = (fuses[fuse_idx + 12], fuses[fuse_idx + 13]);
    let reset_mode = match r {
        (false, false) => XC2MCRegResetSrc::PTA,
        (false, true) => XC2MCRegResetSrc::GSR,
        (true, false) => XC2MCRegResetSrc::CTR,
        (true, true) => XC2MCRegResetSrc::Disabled,
    };

    let xorin = (fuses[fuse_idx + 14], fuses[fuse_idx + 15]);
    let xormode = match xorin {
        (false, false) => XC2MCXorMode::ZERO,
        (false, true) => XC2MCXorMode::PTCB,
        (true, false) => XC2MCXorMode::PTC,
        (true, true) => XC2MCXorMode::ONE,
    };

    XC2Macrocell {
        clk_src,
        clk_invert_pol: clkop,
        is_ddr: clkfreq,
        r_src: reset_mode,
        s_src: set_mode,
        init_state: !pu,
        reg_mode,
        fb_mode,
        ff_in_ibuf: false,
        xor_mode: xormode,
    }
}

/// The bit at position `k` of the 27-bit linear record of one
/// small-device macrocell slot: the macrocell's fields and its I/O pin's
/// fields interleaved in the fixed hardware order.
pub open spec fn spec_small_record_bit(mc: XC2Macrocell, iob: XC2MCSmallIOB, k: int) -> bool {
    if k == 0 {
        spec_aclk_bit(mc.clk_src)
    } else if k == 1 {
        mc.clk_invert_pol
    } else if k == 2 {
        spec_clk_bits(mc.clk_src).0
    } else if k == 3 {
        spec_clk_bits(mc.clk_src).1
    } else if k == 4 {
        mc.is_ddr
    } else if k == 5 {
        spec_r_bits(mc.r_src).0
    } else if k == 6 {
        spec_r_bits(mc.r_src).1
    } else if k == 7 {
        spec_p_bits(mc.s_src).0
    } else if k == 8 {
        spec_p_bits(mc.s_src).1
    } else if k == 9 {
        spec_regmod_bits(mc.reg_mode).0
    } else if k == 10 {
        spec_regmod_bits(mc.reg_mode).1
    } else if k == 11 {
        spec_inz_bits(iob.zia_mode).0
    } else if k == 12 {
        spec_inz_bits(iob.zia_mode).1
    } else if k == 13 {
        spec_fb_bits(mc.fb_mode).0
    } else if k == 14 {
        spec_fb_bits(mc.fb_mode).1
    } else if k == 15 {
        !mc.ff_in_ibuf
    } else if k == 16 {
        iob.schmitt_trigger
    } else if k == 17 {
        spec_xorin_bits(mc.xor_mode).0
    } else if k == 18 {
        spec_xorin_bits(mc.xor_mode).1
    } else if k == 19 {
        !iob.obuf_uses_ff
    } else if k == 20 {
        spec_oe_bits(iob.obuf_mode).0
    } else if k == 21 {
        spec_oe_bits(iob.obuf_mode).1
    } else if k == 22 {
        spec_oe_bits(iob.obuf_mode).2
    } else if k == 23 {
        spec_oe_bits(iob.obuf_mode).3
    } else if k == 24 {
        iob.termination_enabled
    } else if k == 25 {
        !iob.slew_is_fast
    } else {
        !mc.init_state
    }
}

/// The 27-bit linear record of one small-device macrocell slot.
pub open spec fn spec_small_record(mc: XC2Macrocell, iob: XC2MCSmallIOB) -> Seq<bool> {
    Seq::new(27, |k: int| spec_small_record_bit(mc, iob, k))
}

/// Computes the bit at position `k` of the small-device linear record.
pub fn small_record_fuse(ff: &XC2Macrocell, iob: &XC2MCSmallIOB, k: usize) -> (b: bool)
    requires
        k < 27,
    ensures
        b == spec_small_record_bit(*ff, *iob, k as int),
{
    if k == 0 {
        ff.aclk()
    } else if k == 1 {
        ff.clk_invert_pol
    } else if k == 2 {
        ff.clk().0
    } else if k == 3 {
        ff.clk().1
    } else if k == 4 {
        ff.is_ddr
    } else if k == 5 {
        ff.r().0
    } else if k == 6 {
        ff.r().1
    } else if k == 7 {
        ff.p().0
    } else if k == 8 {
        ff.p().1
    } else if k == 9 {
        ff.regmod().0
    } else if k == 10 {
        ff.regmod().1
    } else if k == 11 {
        iob.inz().0
    } else if k == 12 {
        iob.inz().1
    } else if k == 13 {
        ff.fb().0
    } else if k == 14 {
        ff.fb().1
    } else if k == 15 {
        !ff.ff_in_ibuf
    } else if k == 16 {
        iob.schmitt_trigger
    } else if k == 17 {
        ff.xorin().0
    } else if k == 18 {
        ff.xorin().1
    } else if k == 19 {
        !iob.obuf_uses_ff
    } else if k == 20 {
        iob.oe().0
    } else if k == 21 {
        iob.oe().1
    } else if k == 22 {
        iob.oe().2
    } else if k == 23 {
        iob.oe().3
    } else if k == 24 {
        iob.termination_enabled
    } else if k == 25 {
        !iob.slew_is_fast
    } else {
        !ff.init_state
    }
}

/// Builds the 27-bit linear record of one small-device macrocell slot.
pub fn encode_small_mc_record(ff: &XC2Macrocell, iob: &XC2MCSmallIOB) -> (r: Vec<bool>)
    ensures
        r@ == spec_small_record(*ff, *iob),
{
    let mut out: Vec<bool> = Vec::new();
    let mut k: usize = 0;
    while k < 27
        invariant
            k <= 27,
            out@.len() == k,
            forall|i: int| 0 <= i < k ==> out@[i] == spec_small_record_bit(*ff, *iob, i),
        decreases 27 - k,
    {
        out.push(small_record_fuse(ff, iob, k));
        k = k + 1;
    }
    proof {
        assert(out@ =~= spec_small_record(*ff, *iob));
    }
    out
}

/// The bit at position `k` of the 29-bit linear record of one large-device
/// macrocell slot that has an associated I/O pin.
pub open spec fn spec_large_record_bit(mc: XC2Macrocell, iob: XC2MCLargeIOB, k: int) -> bool {
    if k == 0 {
        spec_aclk_bit(mc.clk_src)
    } else if k == 1 {
        spec_clk_bits(mc.clk_src).0
    } else if k == 2 {
        spec_clk_bits(mc.clk_src).1
    } else if k == 3 {
        mc.is_ddr
    } else if k == 4 {
        mc.clk_invert_pol
    } else if k == 5 {
        iob.uses_data_gate
    } else if k == 6 {
        spec_fb_bits(mc.fb_mode).0
    } else if k == 7 {
        spec_fb_bits(mc.fb_mode).1
    } else if k == 8 {
        spec_inmod_bits(iob.ibuf_mode).0
    } else if k == 9 {
        spec_inmod_bits(iob.ibuf_mode).1
    } else if k == 10 {
        !mc.ff_in_ibuf
    } else if k == 11 {
        spec_inz_bits(iob.zia_mode).0
    } else if k == 12 {
        spec_inz_bits(iob.zia_mode).1
    } else if k == 13 {
        spec_oe_bits(iob.obuf_mode).0
    } else if k == 14 {
        spec_oe_bits(iob.obuf_mode).1
    } else if k == 15 {
        spec_oe_bits(iob.obuf_mode).2
    } else if k == 16 {
        spec_oe_bits(iob.obuf_mode).3
    } else if k == 17 {
        spec_p_bits(mc.s_src).0
    } else if k == 18 {
        spec_p_bits(mc.s_src).1
    } else if k == 19 {
        !mc.init_state
    } else if k == 20 {
        !iob.obuf_uses_ff
    } else if k == 21 {
        spec_regmod_bits(mc.reg_mode).0
    } else if k == 22 {
        spec_regmod_bits(mc.reg_mode).1
    } else if k == 23 {
        spec_r_bits(mc.r_src).0
    } else if k == 24 {
        spec_r_bits(mc.r_src).1
    } else if k == 25 {
        !iob.slew_is_fast
    } else if k == 26 {
        iob.termination_enabled
    } else if k == 27 {
        spec_xorin_bits(mc.xor_mode).0
    } else {
        spec_xorin_bits(mc.xor_mode).1
    }
}

/// The 29-bit linear record of one large-device macrocell slot that has an
/// associated I/O pin.
pub open spec fn spec_large_record(mc: XC2Macrocell, iob: XC2MCLargeIOB) -> Seq<bool> {
    Seq::new(29, |k: int| spec_large_record_bit(mc, iob, k))
}

/// Computes the bit at position `k` of the large-device linear record of a
/// slot with an associated I/O pin.
pub fn large_record_fuse(ff: &XC2Macrocell, iob: &XC2MCLargeIOB, k: usize) -> (b: bool)
    requires
        k < 29,
    ensures
        b == spec_large_record_bit(*ff, *iob, k as int),
{
    if k == 0 {
        ff.aclk()
    } else if k == 1 {
        ff.clk().0
    } else if k == 2 {
        ff.clk().1
    } else if k == 3 {
        ff.is_ddr
    } else if k == 4 {
        ff.clk_invert_pol
    } else if k == 5 {
        iob.uses_data_gate
    } else if k == 6 {
        ff.fb().0
    } else if k == 7 {
        ff.fb().1
    } else if k == 8 {
        iob.inmod().0
    } else if k == 9 {
        iob.inmod().1
    } else if k == 10 {
        !ff.ff_in_ibuf
    } else if k == 11 {
        iob.inz().0
    } else if k == 12 {
        iob.inz().1
    } else if k == 13 {
        iob.oe().0
    } else if k == 14 {
        iob.oe().1
    } else if k == 15 {
        iob.oe().2
    } else if k == 16 {
        iob.oe().3
    } else if k == 17 {
        ff.p().0
    } else if k == 18 {
        ff.p().1
    } else if k == 19 {
        !ff.init_state
    } else if k == 20 {
        !iob.obuf_uses_ff
    } else if k == 21 {
        ff.regmod().0
    } else if k == 22 {
        ff.regmod().1
    } else if k == 23 {
        ff.r().0
    } else if k == 24 {
        ff.r().1
    } else if k == 25 {
        !iob.slew_is_fast
    } else if k == 26 {
        iob.termination_enabled
    } else if k == 27 {
        ff.xorin().0
    } else {
        ff.xorin().1
    }
}

/// Builds the 29-bit linear record of one large-device macrocell slot that
/// has an associated I/O pin.
pub fn encode_large_mc_record(ff: &XC2Macrocell, iob: &XC2MCLargeIOB) -> (r: Vec<bool>)
    ensures
        r@ == spec_large_record(*ff, *iob),
{
    let mut out: Vec<bool> = Vec::new();
    let mut k: usize = 0;
    while k < 29
        invariant
            k <= 29,
            out@.len() == k,
            forall|i: int| 0 <= i < k ==> out@[i] == spec_large_record_bit(*ff, *iob, i),
        decreases 29 - k,
    {
        out.push(large_record_fuse(ff, iob, k));
        k = k + 1;
    }
    proof {
        assert(out@ =~= spec_large_record(*ff, *iob));
    }
    out
}

/// The bit at position `k` of the 16-bit linear record of one large-device
/// buried macrocell slot: macrocell fields only, no I/O fields.
pub open spec fn spec_large_buried_record_bit(mc: XC2Macrocell, k: int) -> bool {
    if k == 0 {
        spec_aclk_bit(mc.clk_src)
    } else if k == 1 {
        spec_clk_bits(mc.clk_src).0
    } else if k == 2 {
        spec_clk_bits(mc.clk_src).1
    } else if k == 3 {
        mc.is_ddr
    } else if k == 4 {
        mc.clk_invert_pol
    } else if k == 5 {
        spec_fb_bits(mc.fb_mode).0
    } else if k == 6 {
        spec_fb_bits(mc.fb_mode).1
    } else if k == 7 {
        spec_p_bits(mc.s_src).0
    } else if k == 8 {
        spec_p_bits(mc.s_src).1
    } else if k == 9 {
        !mc.init_state
    } else if k == 10 {
        spec_regmod_bits(mc.reg_mode).0
    } else if k == 11 {
        spec_regmod_bits(mc.reg_mode).1
    } else if k == 12 {
        spec_r_bits(mc.r_src).0
    } else if k == 13 {
        spec_r_bits(mc.r_src).1
    } else if k == 14 {
        spec_xorin_bits(mc.xor_mode).0
    } else {
        spec_xorin_bits(mc.xor_mode).1
    }
}

/// The 16-bit linear record of one large-device buried macrocell slot.
pub open spec fn spec_large_buried_record(mc: XC2Macrocell) -> Seq<bool> {
    Seq::new(16, |k: int| spec_large_buried_record_bit(mc, k))
}

/// Computes the bit at position `k` of the large-device buried-slot linear
/// record.
pub fn large_buried_record_fuse(ff: &XC2Macrocell, k: usize) -> (b: bool)
    requires
        k < 16,
    ensures
        b == spec_large_buried_record_bit(*ff, k as int),
{
    if k == 0 {
        ff.aclk()
    } else if k == 1 {
        ff.clk().0
    } else if k == 2 {
        ff.clk().1
    } else if k == 3 {
        ff.is_ddr
    } else if k == 4 {
        ff.clk_invert_pol
    } else if k == 5 {
        ff.fb().0
    } else if k == 6 {
        ff.fb().1
    } else if k == 7 {
        ff.p().0
    } else if k == 8 {
        ff.p().1
    } else if k == 9 {
        !ff.init_state
    } else if k == 10 {
        ff.regmod().0
    } else if k == 11 {
        ff.regmod().1
    } else if k == 12 {
        ff.r().0
    } else if k == 13 {
        ff.r().1
    } else if k == 14 {
        ff.xorin().0
    } else {
        ff.xorin().1
    }
}

/// Builds the 16-bit linear record of one large-device buried macrocell
/// slot.
pub fn encode_large_buried_mc_record(ff: &XC2Macrocell) -> (r: Vec<bool>)
    ensures
        r@ == spec_large_buried_record(*ff),
{
    let mut out: Vec<bool> = Vec::new();
    let mut k: usize = 0;
    while k < 16
        invariant
            k <= 16,
            out@.len() == k,
            forall|i: int| 0 <= i < k ==> out@[i] == spec_large_buried_record_bit(*ff, i),
        decreases 16 - k,
    {
        out.push(large_buried_record_fuse(ff, k));
        k = k + 1;
    }
    proof {
        assert(out@ =~= spec_large_buried_record(*ff));
    }
    out
}

/// Round trip for the small-device record: decoding the 27-bit record a
/// macrocell and its I/O pin encode to reproduces both configurations
/// exactly, for every configuration value.
pub proof fn lemma_small_record_roundtrip(mc: XC2Macrocell, iob: XC2MCSmallIOB)
    ensures
        spec_read_small_ff(spec_small_record(mc, iob), 0) == mc,
        spec_read_small_iob(spec_small_record(mc, iob), 0) == Some(iob),
{
}

/// Round trip for the large-device record with an I/O pin: decoding the
/// 29-bit record a macrocell and its I/O pin encode to reproduces both
/// configurations exactly, for every configuration value.
pub proof fn lemma_large_record_roundtrip(mc: XC2Macrocell, iob: XC2MCLargeIOB)
    ensures
        spec_read_large_ff(spec_large_record(mc, iob), 0) == mc,
        spec_read_large_iob(spec_large_record(mc, iob), 0) == Some(iob),
{
}

/// Round trip for the large-device buried record: decoding the 16-bit
/// record a buried macrocell encodes to reproduces the configuration, for
/// every configuration whose register input uses the XOR-gate path — the
/// only reachable setting, since a buried macrocell has no input buffer.
pub proof fn lemma_large_buried_record_roundtrip(mc: XC2Macrocell)
    requires
        !mc.ff_in_ibuf,
    ensures
        spec_read_large_buried_ff(spec_large_buried_record(mc), 0) == mc,
{
}

/// Round trip at an arbitrary record offset: wherever a small-device record
/// stands inside a larger fuse sequence, decoding from that offset
/// reproduces the encoded configurations.
pub proof fn lemma_small_record_roundtrip_at(
    fuses: Seq<bool>,
    base: int,
    mc: XC2Macrocell,
    iob: XC2MCSmallIOB,
)
    requires
        0 <= base,
        base + 27 <= fuses.len(),
        fuses.subrange(base, base + 27) == spec_small_record(mc, iob),
    ensures
        spec_read_small_ff(fuses, base) == mc,
        spec_read_small_iob(fuses, base) == Some(iob),
{
    let rec = spec_small_record(mc, iob);
    assert forall|k: int| 0 <= k < 27 implies fuses[base + k] == rec[k] by {
        assert(fuses.subrange(base, base + 27)[k] == fuses[base + k]);
    }
    lemma_small_record_roundtrip(mc, iob);
}

/// Round trip at an arbitrary record offset: wherever a large-device record
/// with an I/O pin stands inside a larger fuse sequence, decoding from that
/// offset reproduces the encoded configurations.
pub proof fn lemma_large_record_roundtrip_at(
    fuses: Seq<bool>,
    base: int,
    mc: XC2Macrocell,
    iob: XC2MCLargeIOB,
)
    requires
        0 <= base,
        base + 29 <= fuses.len(),
        fuses.subrange(base, base + 29) == spec_large_record(mc, iob),
    ensures
        spec_read_large_ff(fuses, base) == mc,
        spec_read_large_iob(fuses, base) == Some(iob),
{
    let rec = spec_large_record(mc, iob);
    assert forall|k: int| 0 <= k < 29 implies fuses[base + k] == rec[k] by {
        assert(fuses.subrange(base, base + 29)[k] == fuses[base + k]);
    }
    lemma_large_record_roundtrip(mc, iob);
}

/// Round trip at an arbitrary record offset: wherever a large-device buried
/// record stands inside a larger fuse sequence, decoding from that offset
/// reproduces the encoded configuration.
pub proof fn lemma_large_buried_record_roundtrip_at(fuses: Seq<bool>, base: int, mc: XC2Macrocell)
    requires
        !mc.ff_in_ibuf,
        0 <= base,
        base + 16 <= fuses.len(),
        fuses.subrange(base, base + 16) == spec_large_buried_record(mc),
    ensures
        spec_read_large_buried_ff(fuses, base) == mc,
{
    let rec = spec_large_buried_record(mc);
    assert forall|k: int| 0 <= k < 16 implies fuses[base + k] == rec[k] by {
        assert(fuses.subrange(base, base + 16)[k] == fuses[base + k]);
    }
    lemma_large_buried_record_roundtrip(mc);
}

} // verus!
