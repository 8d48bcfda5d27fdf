//! Linear bit-stream writer: the ordered fuse records of a function
//! block's macrocell region in the flat, linearly-ordered encoding.
//!
//! Each function block's linear fuse block holds its ZIA rows, its AND
//! terms and its OR terms, and then one record per macrocell slot in slot
//! order. On the small families every record is 27 bits; on the large
//! families a slot with an associated I/O pin takes 29 bits and a buried
//! slot takes 16, so the record offsets are a running sum.

use vstd::prelude::*;

use crate::device::ANDTERMS_PER_FB;
use crate::device::INPUTS_PER_ANDTERM;
use crate::device::MCS_PER_FB;
use crate::device::XC2Device;
use crate::iob::XC2MCLargeIOB;
use crate::iob::XC2MCSmallIOB;
use crate::mc::XC2Macrocell;
use crate::mc::encode_large_buried_mc_record;
use crate::mc::encode_large_mc_record;
use crate::mc::encode_small_mc_record;
use crate::mc::spec_large_buried_record;
use crate::mc::spec_large_record;
use crate::mc::spec_small_record;
use crate::pinmap::fb_ff_num_to_iob_num;
use crate::pinmap::lemma_slot_pin_roundtrip;
use crate::pinmap::spec_slot_to_iob;

verus! {

/// Starting offset of the macrocell region within a function block's
/// linear fuse block: past the ZIA rows, the AND terms and the OR terms.
pub open spec fn spec_mc_region_base(fuse_base: int, zia_row_width: int) -> int {
    fuse_base + zia_row_width * (INPUTS_PER_ANDTERM as int) + (ANDTERMS_PER_FB as int) * (
    INPUTS_PER_ANDTERM as int) * 2 + (ANDTERMS_PER_FB as int) * (MCS_PER_FB as int)
}

/// Computes the starting offset of the macrocell region within the
/// function block whose linear fuse block starts at `fuse_base`.
/// `zia_row_width` is the device's ZIA row width, from the ZIA tables.
pub fn mc_region_base(fuse_base: usize, zia_row_width: usize) -> (r: usize)
    requires
        spec_mc_region_base(fuse_base as int, zia_row_width as int) <= usize::MAX,
    ensures
        r as int == spec_mc_region_base(fuse_base as int, zia_row_width as int),
{
    fuse_base + zia_row_width * INPUTS_PER_ANDTERM + ANDTERMS_PER_FB * INPUTS_PER_ANDTERM * 2
        + ANDTERMS_PER_FB * MCS_PER_FB
}

/// The 16 linear macrocell records of one small-device function block,
/// each paired with its absolute starting fuse offset. Record `i` covers
/// macrocell slot `i` and the I/O pin bonded to it, and starts at
/// `mc_base + i * 27`.
#[verifier::loop_isolation(false)]
pub fn small_fb_mc_records(
    device: XC2Device,
    fb: u32,
    ffs: &[XC2Macrocell],
    iobs: &[XC2MCSmallIOB],
    mc_base: usize,
) -> (r: Vec<(usize, Vec<bool>)>)
    requires
        device.is_small(),
        fb < device.spec_num_fbs(),
        ffs@.len() == 16,
        iobs@.len() == device.spec_num_iobs(),
        mc_base + 16 * 27 <= usize::MAX,
    ensures
        r@.len() == 16,
        forall|i: int| 0 <= i < 16 ==> (#[trigger] r@[i]).0 == mc_base + i * 27,
        forall|i: int|
            0 <= i < 16 ==> (#[trigger] r@[i]).1@ == spec_small_record(
                ffs@[i],
                iobs@[spec_slot_to_iob(device, fb as int, i)->Some_0],
            ),
{
    let mut out: Vec<(usize, Vec<bool>)> = Vec::new();
    let mut i: usize = 0;
    while i < 16
        invariant
            i <= 16,
            out@.len() == i,
            forall|j: int| 0 <= j < i ==> (#[trigger] out@[j]).0 == mc_base + j * 27,
            forall|j: int|
                0 <= j < i ==> (#[trigger] out@[j]).1@ == spec_small_record(
                    ffs@[j],
                    iobs@[spec_slot_to_iob(device, fb as int, j)->Some_0],
                ),
        decreases 16 - i,
    {
        proof {
            lemma_slot_pin_roundtrip(device, fb as int, i as int);
        }
        let iob_num = fb_ff_num_to_iob_num(device, fb, i as u32).unwrap();
        let rec = encode_small_mc_record(&ffs[i], &iobs[iob_num as usize]);
        out.push((mc_base + i * 27, rec));
        i = i + 1;
    }
    out
}

/// Starting offset of the `i`-th macrocell record within a large-device
/// function block whose macrocell region starts at `base`: the records
/// before it take 29 bits where the slot has an associated I/O pin and 16
/// bits where it is buried.
pub open spec fn spec_large_mc_offset(device: XC2Device, fb: int, base: int, i: int) -> int
    decreases i,
{
    if i <= 0 {
        base
    } else {
        spec_large_mc_offset(device, fb, base, i - 1) + (if spec_slot_to_iob(
            device,
            fb,
            i - 1,
        ) is Some {
            29int
        } else {
            16int
        })
    }
}

/// Record offsets grow by at most 29 bits per slot.
proof fn lemma_large_mc_offset_bound(device: XC2Device, fb: int, base: int, i: int)
    requires
        0 <= i,
    ensures
        base <= spec_large_mc_offset(device, fb, base, i) <= base + i * 29,
    decreases i,
{
    if i > 0 {
        lemma_large_mc_offset_bound(device, fb, base, i - 1);
    }
}

/// The 16 linear macrocell records of one large-device function block,
/// each paired with its absolute starting fuse offset. A slot with an
/// associated I/O pin yields the 29-bit record of the macrocell and its
/// pin; a buried slot yields the 16-bit macrocell-only record.
#[verifier::loop_isolation(false)]
pub fn large_fb_mc_records(
    device: XC2Device,
    fb: u32,
    ffs: &[XC2Macrocell],
    iobs: &[XC2MCLargeIOB],
    mc_base: usize,
) -> (r: Vec<(usize, Vec<bool>)>)
    requires
        device.is_large(),
        fb < device.spec_num_fbs(),
        ffs@.len() == 16,
        iobs@.len() == device.spec_num_iobs(),
        mc_base + 16 * 29 <= usize::MAX,
    ensures
        r@.len() == 16,
        forall|i: int|
            0 <= i < 16 ==> (#[trigger] r@[i]).0 == spec_large_mc_offset(
                device,
                fb as int,
                mc_base as int,
                i,
            ),
        forall|i: int|
            0 <= i < 16 && spec_slot_to_iob(device, fb as int, i) is Some ==> (#[trigger] r@[i]).1@
                == spec_large_record(ffs@[i], iobs@[spec_slot_to_iob(device, fb as int, i)->Some_0]),
        forall|i: int|
            0 <= i < 16 && spec_slot_to_iob(device, fb as int, i) is None ==> (#[trigger] r@[i]).1@
                == spec_large_buried_record(ffs@[i]),
{
    let mut out: Vec<(usize, Vec<bool>)> = Vec::new();
    let mut offset: usize = mc_base;
    let mut i: usize = 0;
    while i < 16
        invariant
            i <= 16,
            out@.len() == i,
            offset as int == spec_large_mc_offset(device, fb as int, mc_base as int, i as int),
            forall|j: int|
                0 <= j < i ==> (#[trigger] out@[j]).0 == spec_large_mc_offset(
                    device,
                    fb as int,
                    mc_base as int,
                    j,
                ),
            forall|j: int|
                0 <= j < i && spec_slot_to_iob(device, fb as int, j) is Some
                    ==> (#[trigger] out@[j]).1@ == spec_large_record(
                    ffs@[j],
                    iobs@[spec_slot_to_iob(device, fb as int, j)->Some_0],
                ),
            forall|j: int|
                0 <= j < i && spec_slot_to_iob(device, fb as int, j) is None
                    ==> (#[trigger] out@[j]).1@ == spec_large_buried_record(ffs@[j]),
        decreases 16 - i,
    {
        proof {
            lemma_large_mc_offset_bound(device, fb as int, mc_base as int, i as int);
        }
        let iob_num = fb_ff_num_to_iob_num(device, fb, i as u32);
        match iob_num {
            Some(iob_num) => {
                proof {
                    lemma_slot_pin_roundtrip(device, fb as int, i as int);
                }
                let rec = encode_large_mc_record(&ffs[i], &iobs[iob_num as usize]);
                out.push((offset, rec));
                offset = offset + 29;
            },
            None => {
                let rec = encode_large_buried_mc_record(&ffs[i]);
                out.push((offset, rec));
                offset = offset + 16;
            },
        }
        i = i + 1;
    }
    out
}

} // verus!
