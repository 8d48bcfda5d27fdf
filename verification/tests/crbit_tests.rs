use xc2bit::crbit::mc_row_offset;
use xc2bit::device::XC2Device;
use xc2bit::fusearray::FuseArray;
use xc2bit::iob::XC2IOBIbufMode;
use xc2bit::iob::XC2IOBOBufMode;
use xc2bit::iob::XC2IOBZIAMode;
use xc2bit::iob::XC2MCLargeIOB;
use xc2bit::iob::XC2MCSmallIOB;
use xc2bit::mc::XC2MCFeedbackMode;
use xc2bit::mc::XC2MCRegClkSrc;
use xc2bit::mc::XC2MCRegMode;
use xc2bit::mc::XC2MCRegResetSrc;
use xc2bit::mc::XC2MCRegSetSrc;
use xc2bit::mc::XC2MCXorMode;
use xc2bit::mc::XC2Macrocell;

#[test]
fn fuse_array_starts_cleared_and_sets_cells() {
    let mut fa = FuseArray::new(5, 4);
    for x in 0..5 {
        for y in 0..4 {
            assert!(!fa.get(x, y));
        }
    }
    fa.set(3, 2, true);
    assert!(fa.get(3, 2));
    assert!(!fa.get(2, 3));
    fa.set(3, 2, false);
    assert!(!fa.get(3, 2));
}

#[test]
fn mc_row_offsets_per_family() {
    // three evenly spaced rows per slot on the small and 256 families
    assert_eq!(mc_row_offset(XC2Device::XC2C32, 5), 15);
    assert_eq!(mc_row_offset(XC2Device::XC2C256, 15), 45);
    // the non-uniform table on the common large-macrocell families
    let expected = [0, 3, 5, 8, 10, 13, 15, 18, 20, 23, 25, 28, 30, 33, 35, 38];
    for mc in 0..16u32 {
        assert_eq!(mc_row_offset(XC2Device::XC2C128, mc), expected[mc as usize]);
        assert_eq!(mc_row_offset(XC2Device::XC2C384, mc), expected[mc as usize]);
        assert_eq!(mc_row_offset(XC2Device::XC2C512, mc), expected[mc as usize]);
    }
}

#[test]
fn small_iob_crbit_writes_expected_cells() {
    // pin 3 of the smallest device: function block 0, slot 3, rows 9..=11
    let iob = XC2MCSmallIOB {
        zia_mode: XC2IOBZIAMode::REG,
        schmitt_trigger: true,
        obuf_uses_ff: true,
        obuf_mode: XC2IOBOBufMode::OpenDrain,
        termination_enabled: true,
        slew_is_fast: false,
    };
    let mut fa = FuseArray::new(40, 60);
    let (x, y) = (10usize, 0usize);
    iob.to_crbit(XC2Device::XC2C32, 3, x, y, false, &mut fa);
    let oy = y + 3 * 3;
    assert_eq!(fa.get(x + 2, oy + 1), true); // inz.0: REG
    assert_eq!(fa.get(x + 3, oy + 1), false); // inz.1
    assert_eq!(fa.get(x + 7, oy + 1), true); // schmitt trigger
    assert_eq!(fa.get(x + 1, oy + 2), false); // regcom: register output
    assert_eq!(fa.get(x + 2, oy + 2), false); // oe.0: open drain
    assert_eq!(fa.get(x + 3, oy + 2), false); // oe.1
    assert_eq!(fa.get(x + 4, oy + 2), false); // oe.2
    assert_eq!(fa.get(x + 5, oy + 2), true); // oe.3
    assert_eq!(fa.get(x + 6, oy + 2), true); // tm
    assert_eq!(fa.get(x + 7, oy + 2), true); // slw: slow
    // a cell of a different slot's rows stays untouched
    assert_eq!(fa.get(x + 2, y + 1), false);
}

#[test]
fn small_iob_crbit_mirrored_columns_are_reflected() {
    let iob = XC2MCSmallIOB {
        zia_mode: XC2IOBZIAMode::PAD,
        schmitt_trigger: false,
        obuf_uses_ff: false,
        obuf_mode: XC2IOBOBufMode::CGND,
        termination_enabled: true,
        slew_is_fast: true,
    };
    let mut fa1 = FuseArray::new(40, 60);
    let mut fa2 = FuseArray::new(40, 60);
    let (x1, x2, y) = (10usize, 25usize, 0usize);
    iob.to_crbit(XC2Device::XC2C64, 7, x1, y, false, &mut fa1);
    iob.to_crbit(XC2Device::XC2C64, 7, x2, y, true, &mut fa2);
    let oy = y + 7 * 3;
    // every column offset of the slot's rows is reflected around the origin
    for off in 0..=8usize {
        for row in 0..3usize {
            assert_eq!(
                fa1.get(x1 + off, oy + row),
                fa2.get(x2 - off, oy + row),
                "offset {} row {}",
                off,
                row
            );
        }
    }
}

#[test]
fn large_iob_crbit_writes_expected_cells() {
    // the 256-macrocell variant: pin 6 sits in function block 0, slot 11
    let iob = XC2MCLargeIOB {
        zia_mode: XC2IOBZIAMode::PAD,
        ibuf_mode: XC2IOBIbufMode::IsVref,
        obuf_uses_ff: false,
        obuf_mode: XC2IOBOBufMode::PushPull,
        termination_enabled: true,
        slew_is_fast: false,
        uses_data_gate: true,
    };
    let mut fa = FuseArray::new(40, 60);
    let (x, y) = (5usize, 2usize);
    iob.to_crbit(XC2Device::XC2C256, 6, x, y, false, &mut fa);
    let oy = y + 11 * 3;
    assert_eq!(fa.get(x + 0, oy + 0), false); // inmod.0: IsVref
    assert_eq!(fa.get(x + 1, oy + 0), true); // inmod.1
    assert_eq!(fa.get(x + 4, oy + 0), true); // dg
    assert_eq!(fa.get(x + 3, oy + 1), false); // oe.0: push-pull
    assert_eq!(fa.get(x + 7, oy + 1), false); // inz.0: PAD
    assert_eq!(fa.get(x + 8, oy + 1), false); // inz.1
    assert_eq!(fa.get(x + 2, oy + 2), true); // tm
    assert_eq!(fa.get(x + 3, oy + 2), true); // slw: slow
    assert_eq!(fa.get(x + 8, oy + 2), true); // regcom: XOR-gate output
}

#[test]
fn mc_crbit_small_family_writes_expected_cells() {
    let mc = XC2Macrocell {
        clk_src: XC2MCRegClkSrc::CTC,
        clk_invert_pol: true,
        is_ddr: true,
        r_src: XC2MCRegResetSrc::GSR,
        s_src: XC2MCRegSetSrc::CTS,
        init_state: true,
        reg_mode: XC2MCRegMode::DFFCE,
        fb_mode: XC2MCFeedbackMode::REG,
        ff_in_ibuf: false,
        xor_mode: XC2MCXorMode::ONE,
    };
    let mut fa = FuseArray::new(40, 60);
    let (x, y) = (12usize, 1usize);
    mc.to_crbit(XC2Device::XC2C32, 2, x, y, false, &mut fa);
    let oy = y + 2 * 3;
    assert_eq!(fa.get(x + 0, oy + 0), true); // aclk: CTC
    assert_eq!(fa.get(x + 1, oy + 0), true); // clkop
    assert_eq!(fa.get(x + 2, oy + 0), true); // clk.0: CTC
    assert_eq!(fa.get(x + 3, oy + 0), true); // clk.1
    assert_eq!(fa.get(x + 4, oy + 0), true); // clkfreq
    assert_eq!(fa.get(x + 5, oy + 0), false); // r.0: GSR
    assert_eq!(fa.get(x + 6, oy + 0), true); // r.1
    assert_eq!(fa.get(x + 7, oy + 0), true); // p.0: CTS
    assert_eq!(fa.get(x + 8, oy + 0), false); // p.1
    assert_eq!(fa.get(x + 0, oy + 1), true); // regmod.0: DFFCE
    assert_eq!(fa.get(x + 1, oy + 1), true); // regmod.1
    assert_eq!(fa.get(x + 4, oy + 1), true); // fb.0: REG
    assert_eq!(fa.get(x + 5, oy + 1), false); // fb.1
    assert_eq!(fa.get(x + 6, oy + 1), true); // inreg: XOR-gate path
    assert_eq!(fa.get(x + 8, oy + 1), true); // xorin.0: ONE
    assert_eq!(fa.get(x + 0, oy + 2), true); // xorin.1
    assert_eq!(fa.get(x + 8, oy + 2), true); // pu
}

#[test]
fn mc_crbit_large_family_uses_row_table_and_mirroring() {
    let mc = XC2Macrocell {
        clk_src: XC2MCRegClkSrc::GCK2,
        clk_invert_pol: false,
        is_ddr: false,
        r_src: XC2MCRegResetSrc::PTA,
        s_src: XC2MCRegSetSrc::Disabled,
        init_state: false,
        reg_mode: XC2MCRegMode::LATCH,
        fb_mode: XC2MCFeedbackMode::Disabled,
        ff_in_ibuf: true,
        xor_mode: XC2MCXorMode::PTC,
    };
    let mut fa = FuseArray::new(60, 60);
    let (x, y) = (20usize, 0usize);
    // slot 2 of a common large-macrocell family: row offset 5, mirrored
    mc.to_crbit(XC2Device::XC2C384, 2, x, y, true, &mut fa);
    let oy = y + 5;
    assert_eq!(fa.get(x - 2, oy + 0), true); // fb.0: disabled
    assert_eq!(fa.get(x - 3, oy + 0), true); // fb.1
    assert_eq!(fa.get(x - 8, oy + 0), false); // aclk: GCK2
    assert_eq!(fa.get(x - 9, oy + 0), false); // clk.0: GCK2
    assert_eq!(fa.get(x - 10, oy + 0), true); // clk.1
    assert_eq!(fa.get(x - 11, oy + 0), false); // clkfreq
    assert_eq!(fa.get(x - 12, oy + 0), false); // clkop
    assert_eq!(fa.get(x - 13, oy + 0), false); // inreg: input-buffer path
    assert_eq!(fa.get(x - 14, oy + 0), false); // pu: init to 0
    assert_eq!(fa.get(x - 0, oy + 1), true); // xorin.0: PTC
    assert_eq!(fa.get(x - 1, oy + 1), false); // xorin.1
    assert_eq!(fa.get(x - 9, oy + 1), false); // regmod.0: LATCH
    assert_eq!(fa.get(x - 10, oy + 1), true); // regmod.1
    assert_eq!(fa.get(x - 11, oy + 1), false); // r.0: PTA
    assert_eq!(fa.get(x - 12, oy + 1), false); // r.1
    assert_eq!(fa.get(x - 13, oy + 1), true); // p.0: disabled
    assert_eq!(fa.get(x - 14, oy + 1), true); // p.1
}
