//! Configuration of the I/O pins, and its bit-level encoding.

use vstd::prelude::*;

verus! {

/// Mux selection for the ZIA input from this I/O pin's input. The ZIA input
/// can be chosen to come from either the input pin directly or from the
/// output of the register in the macrocell corresponding to this I/O pin.
#[derive(Clone, Copy, PartialEq, Eq, Structural, Debug)]
pub enum XC2IOBZIAMode {
    Disabled,
    PAD,
    REG,
}

/// Mode selection for the I/O pin's output buffer.
#[derive(Clone, Copy, PartialEq, Eq, Structural, Debug)]
pub enum XC2IOBOBufMode {
    Disabled,
    PushPull,
    OpenDrain,
    TriStateGTS0,
    TriStateGTS1,
    TriStateGTS2,
    TriStateGTS3,
    TriStatePTB,
    TriStateCTE,
    CGND,
}

/// Input mode selection on larger parts with VREF.
#[derive(Clone, Copy, PartialEq, Eq, Structural, Debug)]
pub enum XC2IOBIbufMode {
    /// This input buffer is not using VREF, and it is also not using the
    /// Schmitt trigger.
    NoVrefNoSt,
    /// This input buffer is not using VREF, but it is using the Schmitt
    /// trigger.
    NoVrefSt,
    /// This input buffer is using VREF.
    UsesVref,
    /// This input pin is serving as VREF.
    IsVref,
}

/// The fixed two-bit pattern of a ZIA input mode.
pub open spec fn spec_inz_bits(m: XC2IOBZIAMode) -> (bool, bool) {
    match m {
        XC2IOBZIAMode::PAD => (false, false),
        XC2IOBZIAMode::REG => (true, false),
        XC2IOBZIAMode::Disabled => (true, true),
    }
}

/// The ZIA input mode a two-bit pattern decodes to. Every pattern has a
/// meaning: both patterns with the second bit set decode to `Disabled`.
pub open spec fn spec_zia_mode_of(b: (bool, bool)) -> XC2IOBZIAMode {
    if b.1 {
        XC2IOBZIAMode::Disabled
    } else if b.0 {
        XC2IOBZIAMode::REG
    } else {
        XC2IOBZIAMode::PAD
    }
}

/// The fixed four-bit pattern of an output-buffer mode. The bit order mixes
/// enable and polarity semantics and is a fixed hardware convention, not a
/// natural binary ordering.
pub open spec fn spec_oe_bits(m: XC2IOBOBufMode) -> (bool, bool, bool, bool) {
    match m {
        XC2IOBOBufMode::PushPull => (false, false, false, false),
        XC2IOBOBufMode::OpenDrain => (false, false, false, true),
        XC2IOBOBufMode::TriStateGTS1 => (false, false, true, false),
        XC2IOBOBufMode::TriStatePTB => (false, true, false, false),
        XC2IOBOBufMode::TriStateGTS3 => (false, true, true, false),
        XC2IOBOBufMode::TriStateCTE => (true, false, false, false),
        XC2IOBOBufMode::TriStateGTS2 => (true, false, true, false),
        XC2IOBOBufMode::TriStateGTS0 => (true, true, false, false),
        XC2IOBOBufMode::CGND => (true, true, true, false),
        XC2IOBOBufMode::Disabled => (true, true, true, true),
    }
}

/// The output-buffer mode a four-bit pattern decodes to, or `None` for the
/// six reserved patterns that have no assigned meaning.
pub open spec fn spec_obuf_mode_of(b: (bool, bool, bool, bool)) -> Option<XC2IOBOBufMode> {
    match b {
        (false, false, false, false) => Some(XC2IOBOBufMode::PushPull),
        (false, false, false, true) => Some(XC2IOBOBufMode::OpenDrain),
        (false, false, true, false) => Some(XC2IOBOBufMode::TriStateGTS1),
        (false, true, false, false) => Some(XC2IOBOBufMode::TriStatePTB),
        (false, true, true, false) => Some(XC2IOBOBufMode::TriStateGTS3),
        (true, false, false, false) => Some(XC2IOBOBufMode::TriStateCTE),
        (true, false, true, false) => Some(XC2IOBOBufMode::TriStateGTS2),
        (true, true, false, false) => Some(XC2IOBOBufMode::TriStateGTS0),
        (true, true, true, false) => Some(XC2IOBOBufMode::CGND),
        (true, true, true, true) => Some(XC2IOBOBufMode::Disabled),
        _ => None,
    }
}

/// The fixed two-bit pattern of an input-buffer mode.
pub open spec fn spec_inmod_bits(m: XC2IOBIbufMode) -> (bool, bool) {
    match m {
        XC2IOBIbufMode::NoVrefNoSt => (false, false),
        XC2IOBIbufMode::IsVref => (false, true),
        XC2IOBIbufMode::UsesVref => (true, false),
        XC2IOBIbufMode::NoVrefSt => (true, true),
    }
}

/// The input-buffer mode a two-bit pattern decodes to. All four patterns
/// are assigned.
pub open spec fn spec_ibuf_mode_of(b: (bool, bool)) -> XC2IOBIbufMode {
    match b {
        (false, false) => XC2IOBIbufMode::NoVrefNoSt,
        (false, true) => XC2IOBIbufMode::IsVref,
        (true, false) => XC2IOBIbufMode::UsesVref,
        (true, true) => XC2IOBIbufMode::NoVrefSt,
    }
}

/// Each field's bit pattern decodes back to the field value it encodes.
pub proof fn lemma_iob_field_encodings_invert(
    z: XC2IOBZIAMode,
    o: XC2IOBOBufMode,
    i: XC2IOBIbufMode,
)
    ensures
        spec_zia_mode_of(spec_inz_bits(z)) == z,
        spec_obuf_mode_of(spec_oe_bits(o)) == Some(o),
        spec_ibuf_mode_of(spec_inmod_bits(i)) == i,
{
}

/// Represents an I/O pin on "small" (32 and 64 macrocell) devices.
#[derive(Clone, Copy, PartialEq, Eq, Structural, Debug)]
pub struct XC2MCSmallIOB {
    /// Mux selection for the ZIA input for this pin.
    pub zia_mode: XC2IOBZIAMode,
    /// Whether the Schmitt trigger is being used on this pin's input.
    pub schmitt_trigger: bool,
    /// Selects the source used to drive this pin's output (if the output is
    /// enabled). `false` selects the XOR gate in the macrocell
    /// (combinatorial output), and `true` selects the register output
    /// (registered output).
    pub obuf_uses_ff: bool,
    /// Selects the output mode for this pin.
    pub obuf_mode: XC2IOBOBufMode,
    /// Selects if the global termination (bus hold or pull-up) is enabled
    /// on this pin.
    pub termination_enabled: bool,
    /// Selects if fast slew rate is used on this pin.
    pub slew_is_fast: bool,
}

impl XC2MCSmallIOB {
    /// The "default" I/O pin configuration: output and ZIA input disabled,
    /// Schmitt trigger and termination enabled, fast slew. The values past
    /// the disabled output and ZIA input are a documented tool default, not
    /// a hardware mandate.
    pub open spec fn spec_default() -> XC2MCSmallIOB {
        XC2MCSmallIOB {
            zia_mode: XC2IOBZIAMode::Disabled,
            schmitt_trigger: true,
            obuf_uses_ff: false,
            obuf_mode: XC2IOBOBufMode::Disabled,
            termination_enabled: true,
            slew_is_fast: true,
        }
    }

    /// Encodes the INz bits.
    pub fn inz(&self) -> (r: (bool, bool))
        ensures
            r == spec_inz_bits(self.zia_mode),
    {
        match self.zia_mode {
            XC2IOBZIAMode::PAD => (false, false),
            XC2IOBZIAMode::REG => (true, false),
            XC2IOBZIAMode::Disabled => (true, true),
        }
    }

    /// Encodes the Oe bits.
    pub fn oe(&self) -> (r: (bool, bool, bool, bool))
        ensures
            r == spec_oe_bits(self.obuf_mode),
    {
        match self.obuf_mode {
            XC2IOBOBufMode::PushPull => (false, false, false, false),
            XC2IOBOBufMode::OpenDrain => (false, false, false, true),
            XC2IOBOBufMode::TriStateGTS1 => (false, false, true, false),
            XC2IOBOBufMode::TriStatePTB => (false, true, false, false),
            XC2IOBOBufMode::TriStateGTS3 => (false, true, true, false),
            XC2IOBOBufMode::TriStateCTE => (true, false, false, false),
            XC2IOBOBufMode::TriStateGTS2 => (true, false, true, false),
            XC2IOBOBufMode::TriStateGTS0 => (true, true, false, false),
            XC2IOBOBufMode::CGND => (true, true, true, false),
            XC2IOBOBufMode::Disabled => (true, true, true, true),
        }
    }
}

impl Default for XC2MCSmallIOB {
    /// Returns the "default" I/O pin configuration.
    fn default() -> (r: XC2MCSmallIOB)
        ensures
            r == XC2MCSmallIOB::spec_default(),
    {
        XC2MCSmallIOB {
            zia_mode: XC2IOBZIAMode::Disabled,
            schmitt_trigger: true,
            obuf_uses_ff: false,
            obuf_mode: XC2IOBOBufMode::Disabled,
            termination_enabled: true,
            slew_is_fast: true,
        }
    }
}

/// Represents an I/O pin on "large" (128 and greater macrocell) devices.
#[derive(Clone, Copy, PartialEq, Eq, Structural, Debug)]
pub struct XC2MCLargeIOB {
    /// Mux selection for the ZIA input for this pin.
    pub zia_mode: XC2IOBZIAMode,
    /// Selects the input mode for this pin.
    pub ibuf_mode: XC2IOBIbufMode,
    /// Selects the source used to drive this pin's output (if the output is
    /// enabled). `false` selects the XOR gate in the macrocell
    /// (combinatorial output), and `true` selects the register output
    /// (registered output).
    pub obuf_uses_ff: bool,
    /// Selects the output mode for this pin.
    pub obuf_mode: XC2IOBOBufMode,
    /// Selects if the global termination (bus hold or pull-up) is enabled
    /// on this pin.
    pub termination_enabled: bool,
    /// Selects if fast slew rate is used on this pin.
    pub slew_is_fast: bool,
    /// Whether this pin is making use of the DataGate feature.
    pub uses_data_gate: bool,
}

impl XC2MCLargeIOB {
    /// The "default" I/O pin configuration: output and ZIA input disabled,
    /// Schmitt trigger and termination enabled, fast slew, no DataGate. The
    /// values past the disabled output and ZIA input are a documented tool
    /// default, not a hardware mandate.
    pub open spec fn spec_default() -> XC2MCLargeIOB {
        XC2MCLargeIOB {
            zia_mode: XC2IOBZIAMode::Disabled,
            ibuf_mode: XC2IOBIbufMode::NoVrefSt,
            obuf_uses_ff: false,
            obuf_mode: XC2IOBOBufMode::Disabled,
            termination_enabled: true,
            slew_is_fast: true,
            uses_data_gate: false,
        }
    }

    /// Encodes the INz bits.
    pub fn inz(&self) -> (r: (bool, bool))
        ensures
            r == spec_inz_bits(self.zia_mode),
    {
        match self.zia_mode {
            XC2IOBZIAMode::PAD => (false, false),
            XC2IOBZIAMode::REG => (true, false),
            XC2IOBZIAMode::Disabled => (true, true),
        }
    }

    /// Encodes the Oe bits.
    pub fn oe(&self) -> (r: (bool, bool, bool, bool))
        ensures
            r == spec_oe_bits(self.obuf_mode),
    {
        match self.obuf_mode {
            XC2IOBOBufMode::PushPull => (false, false, false, false),
            XC2IOBOBufMode::OpenDrain => (false, false, false, true),
            XC2IOBOBufMode::TriStateGTS1 => (false, false, true, false),
            XC2IOBOBufMode::TriStatePTB => (false, true, false, false),
            XC2IOBOBufMode::TriStateGTS3 => (false, true, true, false),
            XC2IOBOBufMode::TriStateCTE => (true, false, false, false),
            XC2IOBOBufMode::TriStateGTS2 => (true, false, true, false),
            XC2IOBOBufMode::TriStateGTS0 => (true, true, false, false),
            XC2IOBOBufMode::CGND => (true, true, true, false),
            XC2IOBOBufMode::Disabled => (true, true, true, true),
        }
    }

    /// Encodes the InMod bits.
    pub fn inmod(&self) -> (r: (bool, bool))
        ensures
            r == spec_inmod_bits(self.ibuf_mode),
    {
        match self.ibuf_mode {
            XC2IOBIbufMode::NoVrefNoSt => (false, false),
            XC2IOBIbufMode::IsVref => (false, true),
            XC2IOBIbufMode::UsesVref => (true, false),
            XC2IOBIbufMode::NoVrefSt => (true, true),
        }
    }
}

impl Default for XC2MCLargeIOB {
    /// Returns the "default" I/O pin configuration.
    fn default() -> (r: XC2MCLargeIOB)
        ensures
            r == XC2MCLargeIOB::spec_default(),
    {
        XC2MCLargeIOB {
            zia_mode: XC2IOBZIAMode::Disabled,
            ibuf_mode: XC2IOBIbufMode::NoVrefSt,
            obuf_uses_ff: false,
            obuf_mode: XC2IOBOBufMode::Disabled,
            termination_enabled: true,
            slew_is_fast: true,
            uses_data_gate: false,
        }
    }
}

/// Represents the one additional special input-only pin on 32-macrocell
/// devices.
#[derive(Clone, Copy, PartialEq, Eq, Structural, Debug)]
pub struct XC2ExtraIBuf {
    pub schmitt_trigger: bool,
    pub termination_enabled: bool,
}

impl XC2ExtraIBuf {
    /// The "default" pin configuration: Schmitt trigger and termination
    /// enabled. A documented tool default, not a hardware mandate.
    pub open spec fn spec_default() -> XC2ExtraIBuf {
        XC2ExtraIBuf { schmitt_trigger: true, termination_enabled: true }
    }
}

impl Default for XC2ExtraIBuf {
    /// Returns the "default" pin configuration.
    fn default() -> (r: XC2ExtraIBuf)
        ensures
            r == XC2ExtraIBuf::spec_default(),
    {
        XC2ExtraIBuf { schmitt_trigger: true, termination_enabled: true }
    }
}

/// The I/O-pin configuration encoded in the small-device 27-bit record that
/// starts at `base`, or `None` when the output-enable nibble holds a
/// reserved pattern.
pub open spec fn spec_read_small_iob(fuses: Seq<bool>, base: int) -> Option<XC2MCSmallIOB> {
    match spec_obuf_mode_of(
        (fuses[base + 20], fuses[base + 21], fuses[base + 22], fuses[base + 23]),
    ) {
        Some(output_mode) => Some(
            XC2MCSmallIOB {
                zia_mode: spec_zia_mode_of((fuses[base + 11], fuses[base + 12])),
                schmitt_trigger: fuses[base + 16],
                obuf_uses_ff: !fuses[base + 19],
                obuf_mode: output_mode,
                termination_enabled: fuses[base + 24],
                slew_is_fast: !fuses[base + 25],
            },
        ),
        None => None,
    }
}

/// Reads only the IO-related bits from the macrocell configuration record
/// of a small device, starting at `fuse_idx`. Fails exactly when the
/// output-enable nibble holds one of the six reserved patterns.
pub fn read_small_iob_logical(fuses: &[bool], fuse_idx: usize) -> (r: Result<
    XC2MCSmallIOB,
    &'static str,
>)
    requires
        fuse_idx + 26 <= fuses@.len(),
    ensures
        r is Ok <==> spec_read_small_iob(fuses@, fuse_idx as int) is Some,
        r matches Ok(v) ==> spec_read_small_iob(fuses@, fuse_idx as int) == Some(v),
        r matches Err(e) ==> e@ == "unknown Oe mode used"@,
{
    let _n = fuses.len();
    let inz = (fuses[fuse_idx + 11], fuses[fuse_idx + 12]);
    let input_to_zia = match inz {
        (false, false) => XC2IOBZIAMode::PAD,
        (true, false) => XC2IOBZIAMode::REG,
        (_, true) => XC2IOBZIAMode::Disabled,
    };

    let st = fuses[fuse_idx + 16];
    let regcom = fuses[fuse_idx + 19];

    let oe = (fuses[fuse_idx + 20], fuses[fuse_idx + 21], fuses[fuse_idx + 22], fuses[fuse_idx
        + 23]);
    let output_mode = match oe {
        (false, false, false, false) => XC2IOBOBufMode::PushPull,
        (false, false, false, true) => XC2IOBOBufMode::OpenDrain,
        (false, false, true, false) => XC2IOBOBufMode::TriStateGTS1,
        (false, true, false, false) => XC2IOBOBufMode::TriStatePTB,
        (false, true, true, false) => XC2IOBOBufMode::TriStateGTS3,
        (true, false, false, false) => XC2IOBOBufMode::TriStateCTE,
        (true, false, true, false) => XC2IOBOBufMode::TriStateGTS2,
        (true, true, false, false) => XC2IOBOBufMode::TriStateGTS0,
        (true, true, true, false) => XC2IOBOBufMode::CGND,
        (true, true, true, true) => XC2IOBOBufMode::Disabled,
        _ => {
            return Err("unknown Oe mode used");
        },
    };

    let tm = fuses[fuse_idx + 24];
    let slw = fuses[fuse_idx + 25];

    Ok(
        XC2MCSmallIOB {
            zia_mode: input_to_zia,
            schmitt_trigger: st,
            obuf_uses_ff: !regcom,
            obuf_mode: output_mode,
            termination_enabled: tm,
            slew_is_fast: !slw,
        },
    )
}

/// The I/O-pin configuration encoded in the large-device 29-bit record that
/// starts at `base`, or `None` when the output-enable nibble holds a
/// reserved pattern.
pub open spec fn spec_read_large_iob(fuses: Seq<bool>, base: int) -> Option<XC2MCLargeIOB> {
    match spec_obuf_mode_of(
        (fuses[base + 13], fuses[base + 14], fuses[base + 15], fuses[base + 16]),
    ) {
        Some(output_mode) => Some(
            XC2MCLargeIOB {
                zia_mode: spec_zia_mode_of((fuses[base + 11], fuses[base + 12])),
                ibuf_mode: spec_ibuf_mode_of((fuses[base + 8], fuses[base + 9])),
                obuf_uses_ff: !fuses[base + 20],
                obuf_mode: output_mode,
                termination_enabled: fuses[base + 26],
                slew_is_fast: !fuses[base + 25],
                uses_data_gate: fuses[base + 5],
            },
        ),
        None => None,
    }
}

/// Reads only the IO-related bits from the macrocell configuration record
/// of a large device, starting at `fuse_idx`. Fails exactly when the
/// output-enable nibble holds one of the six reserved patterns.
pub fn read_large_iob_logical(fuses: &[bool], fuse_idx: usize) -> (r: Result<
    XC2MCLargeIOB,
    &'static str,
>)
    requires
        fuse_idx + 27 <= fuses@.len(),
    ensures
        r is Ok <==> spec_read_large_iob(fuses@, fuse_idx as int) is Some,
        r matches Ok(v) ==> spec_read_large_iob(fuses@, fuse_idx as int) == Some(v),
        r matches Err(e) ==> e@ == "unknown Oe mode used"@,
{
    let _n = fuses.len();
    let dg = fuses[fuse_idx + 5];

    let inmod = (fuses[fuse_idx + 8], fuses[fuse_idx + 9]);
    let input_mode = match inmod {
        (false, false) => XC2IOBIbufMode::NoVrefNoSt,
        (false, true) => XC2IOBIbufMode::IsVref,
        (true, false) => XC2IOBIbufMode::UsesVref,
        (true, true) => XC2IOBIbufMode::NoVrefSt,
    };

    let inz = (fuses[fuse_idx + 11], fuses[fuse_idx + 12]);
    let input_to_zia = match inz {
        (false, false) => XC2IOBZIAMode::PAD,
        (true, false) => XC2IOBZIAMode::REG,
        (_, true) => XC2IOBZIAMode::Disabled,
    };

    let oe = (fuses[fuse_idx + 13], fuses[fuse_idx + 14], fuses[fuse_idx + 15], fuses[fuse_idx
        + 16]);
    let output_mode = match oe {
        (false, false, false, false) => XC2IOBOBufMode::PushPull,
        (false, false, false, true) => XC2IOBOBufMode::OpenDrain,
        (false, false, true, false) => XC2IOBOBufMode::TriStateGTS1,
        (false, true, false, false) => XC2IOBOBufMode::TriStatePTB,
        (false, true, true, false) => XC2IOBOBufMode::TriStateGTS3,
        (true, false, false, false) => XC2IOBOBufMode::TriStateCTE,
        (true, false, true, false) => XC2IOBOBufMode::TriStateGTS2,
        (true, true, false, false) => XC2IOBOBufMode::TriStateGTS0,
        (true, true, true, false) => XC2IOBOBufMode::CGND,
        (true, true, true, true) => XC2IOBOBufMode::Disabled,
        _ => {
            return Err("unknown Oe mode used");
        },
    };

    let regcom = fuses[fuse_idx + 20];

    let slw = fuses[fuse_idx + 25];
    let tm = fuses[fuse_idx + 26];

    Ok(
        XC2MCLargeIOB {
            zia_mode: input_to_zia,
            ibuf_mode: input_mode,
            obuf_uses_ff: !regcom,
            obuf_mode: output_mode,
            termination_enabled: tm,
            slew_is_fast: !slw,
            uses_data_gate: dg,
        },
    )
}

/// The fixed position, in the whole 32-macrocell device's linear fuse set,
/// of the input-only pin's Schmitt-trigger bit; its termination bit follows
/// it.
pub const EXTRA_IBUF_SCHMITT_FUSE: usize = 12272;

/// Reads the input-only pin configuration out of a whole 32-macrocell
/// device's linear fuse set.
pub fn read_32_extra_ibuf_logical(fuses: &[bool]) -> (r: XC2ExtraIBuf)
    requires
        fuses@.len() >= 12274,
    ensures
        r == (XC2ExtraIBuf {
            schmitt_trigger: fuses@[12272],
            termination_enabled: fuses@[12273],
        }),
{
    let st = fuses[EXTRA_IBUF_SCHMITT_FUSE];
    let tm = fuses[EXTRA_IBUF_SCHMITT_FUSE + 1];

    XC2ExtraIBuf { schmitt_trigger: st, termination_enabled: tm }
}

} // verus!
