use xc2bit::iob::XC2ExtraIBuf;
use xc2bit::iob::XC2IOBIbufMode;
use xc2bit::iob::XC2IOBOBufMode;
use xc2bit::iob::XC2IOBZIAMode;
use xc2bit::iob::XC2MCLargeIOB;
use xc2bit::iob::XC2MCSmallIOB;
use xc2bit::iob::read_32_extra_ibuf_logical;
use xc2bit::iob::read_large_iob_logical;
use xc2bit::iob::read_small_iob_logical;
use xc2bit::mc::XC2MCFeedbackMode;
use xc2bit::mc::XC2MCRegClkSrc;
use xc2bit::mc::XC2MCRegMode;
use xc2bit::mc::XC2MCRegResetSrc;
use xc2bit::mc::XC2MCRegSetSrc;
use xc2bit::mc::XC2MCXorMode;
use xc2bit::mc::XC2Macrocell;
use xc2bit::mc::encode_large_buried_mc_record;
use xc2bit::mc::encode_large_mc_record;
use xc2bit::mc::encode_small_mc_record;
use xc2bit::mc::read_large_buried_ff_logical;
use xc2bit::mc::read_large_ff_logical;
use xc2bit::mc::read_small_ff_logical;

fn sample_mc() -> XC2Macrocell {
    XC2Macrocell {
        clk_src: XC2MCRegClkSrc::GCK1,
        clk_invert_pol: true,
        is_ddr: false,
        r_src: XC2MCRegResetSrc::CTR,
        s_src: XC2MCRegSetSrc::GSR,
        init_state: false,
        reg_mode: XC2MCRegMode::TFF,
        fb_mode: XC2MCFeedbackMode::COMB,
        ff_in_ibuf: true,
        xor_mode: XC2MCXorMode::PTCB,
    }
}

fn sample_small_iob() -> XC2MCSmallIOB {
    XC2MCSmallIOB {
        zia_mode: XC2IOBZIAMode::PAD,
        schmitt_trigger: false,
        obuf_uses_ff: true,
        obuf_mode: XC2IOBOBufMode::OpenDrain,
        termination_enabled: false,
        slew_is_fast: false,
    }
}

fn sample_large_iob() -> XC2MCLargeIOB {
    XC2MCLargeIOB {
        zia_mode: XC2IOBZIAMode::REG,
        ibuf_mode: XC2IOBIbufMode::UsesVref,
        obuf_uses_ff: true,
        obuf_mode: XC2IOBOBufMode::TriStateGTS2,
        termination_enabled: false,
        slew_is_fast: true,
        uses_data_gate: true,
    }
}

#[test]
fn inz_encoding_is_exact() {
    let mut iob = XC2MCSmallIOB::default();
    iob.zia_mode = XC2IOBZIAMode::PAD;
    assert_eq!(iob.inz(), (false, false));
    iob.zia_mode = XC2IOBZIAMode::REG;
    assert_eq!(iob.inz(), (true, false));
    iob.zia_mode = XC2IOBZIAMode::Disabled;
    assert_eq!(iob.inz(), (true, true));
}

#[test]
fn oe_encoding_is_exact() {
    let cases = [
        (XC2IOBOBufMode::PushPull, (false, false, false, false)),
        (XC2IOBOBufMode::OpenDrain, (false, false, false, true)),
        (XC2IOBOBufMode::TriStateGTS1, (false, false, true, false)),
        (XC2IOBOBufMode::TriStatePTB, (false, true, false, false)),
        (XC2IOBOBufMode::TriStateGTS3, (false, true, true, false)),
        (XC2IOBOBufMode::TriStateCTE, (true, false, false, false)),
        (XC2IOBOBufMode::TriStateGTS2, (true, false, true, false)),
        (XC2IOBOBufMode::TriStateGTS0, (true, true, false, false)),
        (XC2IOBOBufMode::CGND, (true, true, true, false)),
        (XC2IOBOBufMode::Disabled, (true, true, true, true)),
    ];
    for (mode, bits) in cases {
        let mut small = XC2MCSmallIOB::default();
        small.obuf_mode = mode;
        assert_eq!(small.oe(), bits);
        let mut large = XC2MCLargeIOB::default();
        large.obuf_mode = mode;
        assert_eq!(large.oe(), bits);
    }
}

#[test]
fn inmod_encoding_is_exact() {
    let cases = [
        (XC2IOBIbufMode::NoVrefNoSt, (false, false)),
        (XC2IOBIbufMode::IsVref, (false, true)),
        (XC2IOBIbufMode::UsesVref, (true, false)),
        (XC2IOBIbufMode::NoVrefSt, (true, true)),
    ];
    for (mode, bits) in cases {
        let mut iob = XC2MCLargeIOB::default();
        iob.ibuf_mode = mode;
        assert_eq!(iob.inmod(), bits);
    }
}

#[test]
fn macrocell_field_encodings_are_exact() {
    let mut mc = XC2Macrocell::default();

    mc.clk_src = XC2MCRegClkSrc::GCK0;
    assert_eq!((mc.aclk(), mc.clk()), (false, (false, false)));
    mc.clk_src = XC2MCRegClkSrc::GCK1;
    assert_eq!((mc.aclk(), mc.clk()), (false, (true, false)));
    mc.clk_src = XC2MCRegClkSrc::GCK2;
    assert_eq!((mc.aclk(), mc.clk()), (false, (false, true)));
    mc.clk_src = XC2MCRegClkSrc::PTC;
    assert_eq!((mc.aclk(), mc.clk()), (false, (true, true)));
    mc.clk_src = XC2MCRegClkSrc::CTC;
    assert_eq!((mc.aclk(), mc.clk()), (true, (true, true)));

    mc.r_src = XC2MCRegResetSrc::PTA;
    assert_eq!(mc.r(), (false, false));
    mc.r_src = XC2MCRegResetSrc::GSR;
    assert_eq!(mc.r(), (false, true));
    mc.r_src = XC2MCRegResetSrc::CTR;
    assert_eq!(mc.r(), (true, false));
    mc.r_src = XC2MCRegResetSrc::Disabled;
    assert_eq!(mc.r(), (true, true));

    mc.s_src = XC2MCRegSetSrc::PTA;
    assert_eq!(mc.p(), (false, false));
    mc.s_src = XC2MCRegSetSrc::GSR;
    assert_eq!(mc.p(), (false, true));
    mc.s_src = XC2MCRegSetSrc::CTS;
    assert_eq!(mc.p(), (true, false));
    mc.s_src = XC2MCRegSetSrc::Disabled;
    assert_eq!(mc.p(), (true, true));

    mc.reg_mode = XC2MCRegMode::DFF;
    assert_eq!(mc.regmod(), (false, false));
    mc.reg_mode = XC2MCRegMode::LATCH;
    assert_eq!(mc.regmod(), (false, true));
    mc.reg_mode = XC2MCRegMode::TFF;
    assert_eq!(mc.regmod(), (true, false));
    mc.reg_mode = XC2MCRegMode::DFFCE;
    assert_eq!(mc.regmod(), (true, true));

    mc.fb_mode = XC2MCFeedbackMode::COMB;
    assert_eq!(mc.fb(), (false, false));
    mc.fb_mode = XC2MCFeedbackMode::REG;
    assert_eq!(mc.fb(), (true, false));
    mc.fb_mode = XC2MCFeedbackMode::Disabled;
    assert_eq!(mc.fb(), (true, true));

    mc.xor_mode = XC2MCXorMode::ZERO;
    assert_eq!(mc.xorin(), (false, false));
    mc.xor_mode = XC2MCXorMode::PTCB;
    assert_eq!(mc.xorin(), (false, true));
    mc.xor_mode = XC2MCXorMode::PTC;
    assert_eq!(mc.xorin(), (true, false));
    mc.xor_mode = XC2MCXorMode::ONE;
    assert_eq!(mc.xorin(), (true, true));
}

#[test]
fn defaults_are_the_documented_unconfigured_state() {
    let small = XC2MCSmallIOB::default();
    assert_eq!(small.zia_mode, XC2IOBZIAMode::Disabled);
    assert!(small.schmitt_trigger);
    assert!(!small.obuf_uses_ff);
    assert_eq!(small.obuf_mode, XC2IOBOBufMode::Disabled);
    assert!(small.termination_enabled);
    assert!(small.slew_is_fast);

    let large = XC2MCLargeIOB::default();
    assert_eq!(large.zia_mode, XC2IOBZIAMode::Disabled);
    assert_eq!(large.ibuf_mode, XC2IOBIbufMode::NoVrefSt);
    assert!(!large.obuf_uses_ff);
    assert_eq!(large.obuf_mode, XC2IOBOBufMode::Disabled);
    assert!(large.termination_enabled);
    assert!(large.slew_is_fast);
    assert!(!large.uses_data_gate);

    let extra = XC2ExtraIBuf::default();
    assert!(extra.schmitt_trigger);
    assert!(extra.termination_enabled);

    let mc = XC2Macrocell::default();
    assert_eq!(mc.clk_src, XC2MCRegClkSrc::GCK0);
    assert!(!mc.clk_invert_pol);
    assert!(!mc.is_ddr);
    assert_eq!(mc.r_src, XC2MCRegResetSrc::Disabled);
    assert_eq!(mc.s_src, XC2MCRegSetSrc::Disabled);
    assert!(mc.init_state);
    assert_eq!(mc.reg_mode, XC2MCRegMode::DFF);
    assert_eq!(mc.fb_mode, XC2MCFeedbackMode::Disabled);
    assert!(!mc.ff_in_ibuf);
    assert_eq!(mc.xor_mode, XC2MCXorMode::ZERO);
}

#[test]
fn small_record_roundtrip() {
    let mc = sample_mc();
    let iob = sample_small_iob();
    let bits = encode_small_mc_record(&mc, &iob);
    assert_eq!(bits.len(), 27);
    assert_eq!(read_small_ff_logical(&bits, 0, 0), mc);
    assert_eq!(read_small_iob_logical(&bits, 0), Ok(iob));

    let mc2 = XC2Macrocell::default();
    let iob2 = XC2MCSmallIOB::default();
    let bits2 = encode_small_mc_record(&mc2, &iob2);
    assert_eq!(read_small_ff_logical(&bits2, 0, 0), mc2);
    assert_eq!(read_small_iob_logical(&bits2, 0), Ok(iob2));
}

#[test]
fn small_record_roundtrip_at_offset() {
    // two consecutive records; the second is the one read back
    let mc0 = XC2Macrocell::default();
    let iob0 = XC2MCSmallIOB::default();
    let mc1 = sample_mc();
    let iob1 = sample_small_iob();
    let mut fuses = encode_small_mc_record(&mc0, &iob0);
    fuses.extend(encode_small_mc_record(&mc1, &iob1));
    assert_eq!(read_small_ff_logical(&fuses, 0, 1), mc1);
    assert_eq!(read_small_iob_logical(&fuses, 27), Ok(iob1));
}

#[test]
fn large_record_roundtrip() {
    let mc = sample_mc();
    let iob = sample_large_iob();
    let bits = encode_large_mc_record(&mc, &iob);
    assert_eq!(bits.len(), 29);
    assert_eq!(read_large_ff_logical(&bits, 0), mc);
    assert_eq!(read_large_iob_logical(&bits, 0), Ok(iob));
}

#[test]
fn large_buried_record_roundtrip() {
    let mut mc = sample_mc();
    mc.ff_in_ibuf = false;  // the input-buffer path does not exist on a buried macrocell
    let bits = encode_large_buried_mc_record(&mc);
    assert_eq!(bits.len(), 16);
    assert_eq!(read_large_buried_ff_logical(&bits, 0), mc);
}

#[test]
fn reserved_oe_pattern_is_rejected() {
    // a small record whose output-enable nibble holds the unassigned
    // pattern 1,0,1,1; everything else is benign
    let mut fuses = vec![false; 27];
    fuses[20] = true;
    fuses[21] = false;
    fuses[22] = true;
    fuses[23] = true;
    assert_eq!(read_small_iob_logical(&fuses, 0), Err("unknown Oe mode used"));

    // another unassigned pattern: 0,0,1,1
    let mut fuses2 = vec![false; 27];
    fuses2[22] = true;
    fuses2[23] = true;
    assert_eq!(read_small_iob_logical(&fuses2, 0), Err("unknown Oe mode used"));

    // the same patterns in the large layout, whose nibble sits at 13..=16
    let mut fuses3 = vec![false; 29];
    fuses3[13] = true;
    fuses3[14] = false;
    fuses3[15] = true;
    fuses3[16] = true;
    assert_eq!(read_large_iob_logical(&fuses3, 0), Err("unknown Oe mode used"));

    // the macrocell side of the same record still decodes
    let mut fuses4 = vec![false; 27];
    fuses4[20] = true;
    fuses4[22] = true;
    fuses4[23] = true;
    let _ = read_small_ff_logical(&fuses4, 0, 0);
}

#[test]
fn small_pin_scenario_registered_pushpull() {
    // a small-device pin: ZIA driven from the register, Schmitt trigger on,
    // output from the register, push-pull, termination on, fast slew
    let iob = XC2MCSmallIOB {
        zia_mode: XC2IOBZIAMode::REG,
        schmitt_trigger: true,
        obuf_uses_ff: true,
        obuf_mode: XC2IOBOBufMode::PushPull,
        termination_enabled: true,
        slew_is_fast: true,
    };
    assert_eq!(iob.inz(), (true, false));
    assert_eq!(iob.oe(), (false, false, false, false));

    // the same pin, written at a record offset and decoded back
    let mc = XC2Macrocell::default();
    let mut fuses = vec![false; 27];
    fuses.extend(encode_small_mc_record(&mc, &iob));
    let decoded = read_small_iob_logical(&fuses, 27).unwrap();
    assert_eq!(decoded, iob);
}

#[test]
fn extra_ibuf_reads_fixed_fuse_positions() {
    let mut fuses = vec![false; 12274];
    fuses[12272] = true;
    fuses[12273] = false;
    let pin = read_32_extra_ibuf_logical(&fuses);
    assert!(pin.schmitt_trigger);
    assert!(!pin.termination_enabled);

    fuses[12272] = false;
    fuses[12273] = true;
    let pin2 = read_32_extra_ibuf_logical(&fuses);
    assert!(!pin2.schmitt_trigger);
    assert!(pin2.termination_enabled);
}

#[test]
fn small_record_exact_bits() {
    // the default macrocell with the registered push-pull pin: every bit of
    // the 27-bit linear record, in the fixed order
    let iob = XC2MCSmallIOB {
        zia_mode: XC2IOBZIAMode::REG,
        schmitt_trigger: true,
        obuf_uses_ff: true,
        obuf_mode: XC2IOBOBufMode::PushPull,
        termination_enabled: true,
        slew_is_fast: true,
    };
    let mc = XC2Macrocell::default();
    let bits = encode_small_mc_record(&mc, &iob);
    let expected = vec![
        false, // aclk: GCK0
        false, // clkop
        false, false, // clk: GCK0
        false, // clkfreq
        true, true, // r: disabled
        true, true, // p: disabled
        false, false, // regmod: DFF
        true, false, // inz: REG
        true, true, // fb: disabled
        true,  // inreg: XOR-gate path
        true,  // st
        false, false, // xorin: ZERO
        false, // regcom: register output
        false, false, false, false, // oe: push-pull
        true,  // tm
        false, // slw: fast
        false, // pu: init to 1
    ];
    assert_eq!(bits, expected);
}
