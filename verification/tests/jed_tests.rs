use xc2bit::device::XC2Device;
use xc2bit::iob::XC2IOBOBufMode;
use xc2bit::iob::XC2IOBZIAMode;
use xc2bit::iob::XC2MCLargeIOB;
use xc2bit::iob::XC2MCSmallIOB;
use xc2bit::jed::large_fb_mc_records;
use xc2bit::jed::mc_region_base;
use xc2bit::jed::small_fb_mc_records;
use xc2bit::mc::XC2MCRegClkSrc;
use xc2bit::mc::XC2Macrocell;
use xc2bit::mc::encode_large_buried_mc_record;
use xc2bit::mc::encode_large_mc_record;
use xc2bit::mc::encode_small_mc_record;
use xc2bit::pinmap::fb_ff_num_to_iob_num;

#[test]
fn mc_region_base_formula() {
    // past the ZIA rows (width * 40), the AND terms (56 * 40 * 2) and the
    // OR terms (56 * 16)
    assert_eq!(mc_region_base(0, 8), 8 * 40 + 56 * 40 * 2 + 56 * 16);
    assert_eq!(mc_region_base(100, 10), 100 + 400 + 4480 + 896);
}

#[test]
fn small_fb_records_offsets_and_content() {
    let mut ffs = vec![XC2Macrocell::default(); 16];
    ffs[4].clk_src = XC2MCRegClkSrc::PTC;
    let mut iobs = vec![XC2MCSmallIOB::default(); 32];
    iobs[16 + 9].zia_mode = XC2IOBZIAMode::PAD;
    iobs[16 + 9].obuf_mode = XC2IOBOBufMode::PushPull;

    let base = 5696usize;
    let recs = small_fb_mc_records(XC2Device::XC2C32, 1, &ffs, &iobs, base);
    assert_eq!(recs.len(), 16);
    for (i, (offset, bits)) in recs.iter().enumerate() {
        assert_eq!(*offset, base + i * 27);
        assert_eq!(bits.len(), 27);
        // record i pairs slot i with the pin bonded to it
        let iob_num = fb_ff_num_to_iob_num(XC2Device::XC2C32, 1, i as u32).unwrap();
        assert_eq!(*bits, encode_small_mc_record(&ffs[i], &iobs[iob_num as usize]));
    }
    // the slot with the customized pin really picked it up
    assert_eq!(recs[9].1[11], false); // inz.0: PAD
    assert_eq!(recs[9].1[20], false); // oe.0: push-pull
}

#[test]
fn large_fb_records_mix_pin_and_buried_slots() {
    // function block 0 of the 128-macrocell variant: slots 0..=5 and
    // 10..=15 carry pins, slots 6..=9 are buried
    let ffs = vec![XC2Macrocell::default(); 16];
    let iobs = vec![XC2MCLargeIOB::default(); 100];
    let base = 1000usize;
    let recs = large_fb_mc_records(XC2Device::XC2C128, 0, &ffs, &iobs, base);
    assert_eq!(recs.len(), 16);

    let mut offset = base;
    for (i, (rec_offset, bits)) in recs.iter().enumerate() {
        assert_eq!(*rec_offset, offset, "slot {}", i);
        match fb_ff_num_to_iob_num(XC2Device::XC2C128, 0, i as u32) {
            Some(iob_num) => {
                assert_eq!(bits.len(), 29);
                assert_eq!(*bits, encode_large_mc_record(&ffs[i], &iobs[iob_num as usize]));
                offset += 29;
            },
            None => {
                assert_eq!(bits.len(), 16);
                assert_eq!(*bits, encode_large_buried_mc_record(&ffs[i]));
                offset += 16;
            },
        }
    }
    // six pin slots, then four buried, then six pin slots
    assert_eq!(recs[6].0, base + 6 * 29);
    assert_eq!(recs[10].0, base + 6 * 29 + 4 * 16);
    assert_eq!(offset, base + 12 * 29 + 4 * 16);
}
