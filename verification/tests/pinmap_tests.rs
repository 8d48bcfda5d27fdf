use xc2bit::device::XC2Device;
use xc2bit::pinmap::fb_ff_num_to_iob_num;
use xc2bit::pinmap::iob_num_to_fb_ff_num;

const ALL_DEVICES: [XC2Device; 8] = [
    XC2Device::XC2C32,
    XC2Device::XC2C32A,
    XC2Device::XC2C64,
    XC2Device::XC2C64A,
    XC2Device::XC2C128,
    XC2Device::XC2C256,
    XC2Device::XC2C384,
    XC2Device::XC2C512,
];

#[test]
fn pin_to_slot_to_pin_roundtrip_exhaustive() {
    for device in ALL_DEVICES {
        for iob in 0..1000u32 {
            if let Some((fb, ff)) = iob_num_to_fb_ff_num(device, iob) {
                assert_eq!(
                    fb_ff_num_to_iob_num(device, fb, ff),
                    Some(iob),
                    "device {:?} pin {}",
                    device,
                    iob
                );
            }
        }
    }
}

#[test]
fn slot_to_pin_to_slot_roundtrip_exhaustive() {
    for device in ALL_DEVICES {
        for fb in 0..40u32 {
            for ff in 0..20u32 {
                if let Some(iob) = fb_ff_num_to_iob_num(device, fb, ff) {
                    assert_eq!(
                        iob_num_to_fb_ff_num(device, iob),
                        Some((fb, ff)),
                        "device {:?} slot ({}, {})",
                        device,
                        fb,
                        ff
                    );
                }
            }
        }
    }
}

#[test]
fn pin_count_matches_device_total() {
    let expected: [(XC2Device, u32); 8] = [
        (XC2Device::XC2C32, 32),
        (XC2Device::XC2C32A, 32),
        (XC2Device::XC2C64, 64),
        (XC2Device::XC2C64A, 64),
        (XC2Device::XC2C128, 100),
        (XC2Device::XC2C256, 184),
        (XC2Device::XC2C384, 240),
        (XC2Device::XC2C512, 270),
    ];
    for (device, total) in expected {
        let mut count = 0u32;
        for iob in 0..1000u32 {
            if iob_num_to_fb_ff_num(device, iob).is_some() {
                count += 1;
            }
        }
        assert_eq!(count, total, "device {:?}", device);
        assert_eq!(device.num_iobs(), total);
        // the accepted indices are exactly the range below the total
        for iob in 0..total {
            assert!(iob_num_to_fb_ff_num(device, iob).is_some());
        }
        assert!(iob_num_to_fb_ff_num(device, total).is_none());
    }
}

#[test]
fn known_pin_mappings() {
    // uniform small devices: division and modulus by the block width
    assert_eq!(iob_num_to_fb_ff_num(XC2Device::XC2C32, 17), Some((1, 1)));
    assert_eq!(iob_num_to_fb_ff_num(XC2Device::XC2C64A, 63), Some((3, 15)));
    // 128: the first block's high run starts at slot 10
    assert_eq!(iob_num_to_fb_ff_num(XC2Device::XC2C128, 5), Some((0, 5)));
    assert_eq!(iob_num_to_fb_ff_num(XC2Device::XC2C128, 6), Some((0, 10)));
    assert_eq!(iob_num_to_fb_ff_num(XC2Device::XC2C128, 24), Some((2, 0)));
    assert_eq!(iob_num_to_fb_ff_num(XC2Device::XC2C128, 99), Some((7, 15)));
    // 256: blocks with five missing pins have their high run start at 11
    assert_eq!(iob_num_to_fb_ff_num(XC2Device::XC2C256, 6), Some((0, 11)));
    assert_eq!(iob_num_to_fb_ff_num(XC2Device::XC2C256, 72), Some((6, 10)));
    assert_eq!(iob_num_to_fb_ff_num(XC2Device::XC2C256, 183), Some((15, 15)));
    // 384: every block misses six pins, between slots 4 and 11
    assert_eq!(iob_num_to_fb_ff_num(XC2Device::XC2C384, 17), Some((1, 13)));
    assert_eq!(iob_num_to_fb_ff_num(XC2Device::XC2C384, 239), Some((23, 15)));
    // 512: the high runs start at slot 12
    assert_eq!(iob_num_to_fb_ff_num(XC2Device::XC2C512, 4), Some((0, 12)));
    assert_eq!(iob_num_to_fb_ff_num(XC2Device::XC2C512, 16), Some((2, 0)));
    assert_eq!(iob_num_to_fb_ff_num(XC2Device::XC2C512, 269), Some((31, 15)));
}

#[test]
fn unpopulated_and_out_of_range_slots_map_to_none() {
    // buried slots in the gap between the low and high runs
    for ff in 6..10 {
        assert_eq!(fb_ff_num_to_iob_num(XC2Device::XC2C128, 0, ff), None);
    }
    for ff in 5..11 {
        assert_eq!(fb_ff_num_to_iob_num(XC2Device::XC2C384, 0, ff), None);
    }
    for ff in 4..12 {
        assert_eq!(fb_ff_num_to_iob_num(XC2Device::XC2C512, 0, ff), None);
    }
    // slot index past the block width
    assert_eq!(fb_ff_num_to_iob_num(XC2Device::XC2C32, 0, 16), None);
    // function block past the device's count
    assert_eq!(fb_ff_num_to_iob_num(XC2Device::XC2C32, 2, 0), None);
    assert_eq!(fb_ff_num_to_iob_num(XC2Device::XC2C64, 4, 0), None);
    assert_eq!(fb_ff_num_to_iob_num(XC2Device::XC2C384, 24, 0), None);
    assert_eq!(fb_ff_num_to_iob_num(XC2Device::XC2C512, 32, 0), None);
    // pin index past the device's count
    assert_eq!(iob_num_to_fb_ff_num(XC2Device::XC2C32, 32), None);
    assert_eq!(iob_num_to_fb_ff_num(XC2Device::XC2C512, 270), None);
}
