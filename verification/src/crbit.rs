//! Physical encoder: places a pin's or macrocell's encoded bits into the
//! device's two-dimensional fuse bitmap.
//!
//! Each function block owns a rectangular fuse region. The caller supplies
//! the region's origin and mirroring flag, which come from the device's
//! geometry tables. Within the region each macrocell slot occupies a few
//! rows — evenly spaced on the smaller families, taken from a non-uniform
//! per-slot table on the common large-macrocell families — and each field
//! sits at a fixed column offset from the origin, counted rightward
//! normally and leftward when the block is mirrored. The macrocell encoder
//! and the I/O encoder fill one shared region, partitioned by field: their
//! cell sets never overlap on one slot.

use vstd::prelude::*;

use crate::device::XC2Device;
use crate::fusearray::FuseArray;
use crate::iob::XC2MCLargeIOB;
use crate::iob::XC2MCSmallIOB;
use crate::iob::spec_inmod_bits;
use crate::iob::spec_inz_bits;
use crate::iob::spec_oe_bits;
use crate::mc::XC2Macrocell;
use crate::mc::spec_aclk_bit;
use crate::mc::spec_clk_bits;
use crate::mc::spec_fb_bits;
use crate::mc::spec_p_bits;
use crate::mc::spec_r_bits;
use crate::mc::spec_regmod_bits;
use crate::mc::spec_xorin_bits;
use crate::pinmap::iob_num_to_fb_ff_num;
use crate::pinmap::lemma_iob_to_slot_in_range;
use crate::pinmap::spec_iob_to_slot;

verus! {

/// Horizontal placement of a field: its column offset counts rightward from
/// the block origin normally and leftward when the block is mirrored.
pub open spec fn spec_mirror_col(x: int, mirror: bool, off: int) -> int {
    if mirror {
        x - off
    } else {
        x + off
    }
}

/// The widest column offset any macrocell or I/O field uses within a
/// block's fuse region, per device family.
pub open spec fn spec_mc_col_span(device: XC2Device) -> int {
    match device {
        XC2Device::XC2C32 | XC2Device::XC2C32A | XC2Device::XC2C64 | XC2Device::XC2C64A => 8,
        XC2Device::XC2C256 => 9,
        XC2Device::XC2C128 | XC2Device::XC2C384 | XC2Device::XC2C512 => 14,
    }
}

/// The non-uniform row offsets of the macrocell slots on the common
/// large-macrocell families: rows are not evenly spaced, because slots with
/// an I/O pin carry more fields than buried slots.
pub open spec fn spec_mc_to_row_large(mc: int) -> int {
    if mc == 0 {
        0
    } else if mc == 1 {
        3
    } else if mc == 2 {
        5
    } else if mc == 3 {
        8
    } else if mc == 4 {
        10
    } else if mc == 5 {
        13
    } else if mc == 6 {
        15
    } else if mc == 7 {
        18
    } else if mc == 8 {
        20
    } else if mc == 9 {
        23
    } else if mc == 10 {
        25
    } else if mc == 11 {
        28
    } else if mc == 12 {
        30
    } else if mc == 13 {
        33
    } else if mc == 14 {
        35
    } else {
        38
    }
}

/// Row offset of macrocell slot `mc` within its function block's fuse
/// region: three evenly spaced rows per slot on the small and 256-macrocell
/// families, the fixed non-uniform table on the larger families.
pub open spec fn spec_mc_row(device: XC2Device, mc: int) -> int {
    match device {
        XC2Device::XC2C128 | XC2Device::XC2C384 | XC2Device::XC2C512 => spec_mc_to_row_large(mc),
        _ => mc * 3,
    }
}

/// Computes the row offset of macrocell slot `mc` within its function
/// block's fuse region.
pub fn mc_row_offset(device: XC2Device, mc: u32) -> (r: u32)
    requires
        mc < 16,
    ensures
        r as int == spec_mc_row(device, mc as int),
        r <= 45,
{
    match device {
        XC2Device::XC2C128 | XC2Device::XC2C384 | XC2Device::XC2C512 => {
            if mc == 0 {
                0
            } else if mc == 1 {
                3
            } else if mc == 2 {
                5
            } else if mc == 3 {
                8
            } else if mc == 4 {
                10
            } else if mc == 5 {
                13
            } else if mc == 6 {
                15
            } else if mc == 7 {
                18
            } else if mc == 8 {
                20
            } else if mc == 9 {
                23
            } else if mc == 10 {
                25
            } else if mc == 11 {
                28
            } else if mc == 12 {
                30
            } else if mc == 13 {
                33
            } else if mc == 14 {
                35
            } else {
                38
            }
        },
        _ => mc * 3,
    }
}

/// Position (column offset, row offset) of the `k`-th small-device I/O cell within
/// its macrocell slot's fuse rows, per device family.
pub open spec fn spec_small_iob_cell_pos(device: XC2Device, k: int) -> (int, int) {
    match device {
        XC2Device::XC2C32 | XC2Device::XC2C32A => {
            if k == 0 {
                (2, 1)
            } else if k == 1 {
                (3, 1)
            } else if k == 2 {
                (7, 1)
            } else if k == 3 {
                (1, 2)
            } else if k == 4 {
                (2, 2)
            } else if k == 5 {
                (3, 2)
            } else if k == 6 {
                (4, 2)
            } else if k == 7 {
                (5, 2)
            } else if k == 8 {
                (6, 2)
            } else {
                (7, 2)
            }
        },
        _ => {
            if k == 0 {
                (5, 1)
            } else if k == 1 {
                (6, 1)
            } else if k == 2 {
                (1, 1)
            } else if k == 3 {
                (0, 1)
            } else if k == 4 {
                (3, 2)
            } else if k == 5 {
                (4, 2)
            } else if k == 6 {
                (5, 2)
            } else if k == 7 {
                (6, 2)
            } else if k == 8 {
                (2, 2)
            } else {
                (1, 2)
            }
        },
    }
}

/// Value of the `k`-th small-device I/O cell.
pub open spec fn spec_small_iob_cell_val(iob: XC2MCSmallIOB, k: int) -> bool {
    if k == 0 {
        spec_inz_bits(iob.zia_mode).0
    } else if k == 1 {
        spec_inz_bits(iob.zia_mode).1
    } else if k == 2 {
        iob.schmitt_trigger
    } else if k == 3 {
        !iob.obuf_uses_ff
    } else if k == 4 {
        spec_oe_bits(iob.obuf_mode).0
    } else if k == 5 {
        spec_oe_bits(iob.obuf_mode).1
    } else if k == 6 {
        spec_oe_bits(iob.obuf_mode).2
    } else if k == 7 {
        spec_oe_bits(iob.obuf_mode).3
    } else if k == 8 {
        iob.termination_enabled
    } else {
        !iob.slew_is_fast
    }
}

/// Distinct cells of the small-device I/O region sit at distinct positions.
pub proof fn lemma_small_iob_cells_distinct(device: XC2Device, j: int, k: int)
    requires
        0 <= j < k < 10,
    ensures
        spec_small_iob_cell_pos(device, j) != spec_small_iob_cell_pos(device, k),
{
}

/// Position (column offset, row offset) of the `k`-th large-device I/O cell within
/// its macrocell slot's fuse rows, per device family.
pub open spec fn spec_large_iob_cell_pos(device: XC2Device, k: int) -> (int, int) {
    match device {
        XC2Device::XC2C256 => {
            if k == 0 {
                (0, 0)
            } else if k == 1 {
                (1, 0)
            } else if k == 2 {
                (4, 0)
            } else if k == 3 {
                (3, 1)
            } else if k == 4 {
                (4, 1)
            } else if k == 5 {
                (5, 1)
            } else if k == 6 {
                (6, 1)
            } else if k == 7 {
                (7, 1)
            } else if k == 8 {
                (8, 1)
            } else if k == 9 {
                (2, 2)
            } else if k == 10 {
                (3, 2)
            } else {
                (8, 2)
            }
        },
        _ => {
            if k == 0 {
                (5, 0)
            } else if k == 1 {
                (6, 0)
            } else if k == 2 {
                (4, 0)
            } else if k == 3 {
                (2, 1)
            } else if k == 4 {
                (3, 1)
            } else if k == 5 {
                (4, 1)
            } else if k == 6 {
                (5, 1)
            } else if k == 7 {
                (0, 1)
            } else if k == 8 {
                (1, 1)
            } else if k == 9 {
                (7, 2)
            } else if k == 10 {
                (6, 1)
            } else {
                (8, 1)
            }
        },
    }
}

/// Value of the `k`-th large-device I/O cell.
pub open spec fn spec_large_iob_cell_val(iob: XC2MCLargeIOB, k: int) -> bool {
    if k == 0 {
        spec_inmod_bits(iob.ibuf_mode).0
    } else if k == 1 {
        spec_inmod_bits(iob.ibuf_mode).1
    } else if k == 2 {
        iob.uses_data_gate
    } else if k == 3 {
        spec_oe_bits(iob.obuf_mode).0
    } else if k == 4 {
        spec_oe_bits(iob.obuf_mode).1
    } else if k == 5 {
        spec_oe_bits(iob.obuf_mode).2
    } else if k == 6 {
        spec_oe_bits(iob.obuf_mode).3
    } else if k == 7 {
        spec_inz_bits(iob.zia_mode).0
    } else if k == 8 {
        spec_inz_bits(iob.zia_mode).1
    } else if k == 9 {
        iob.termination_enabled
    } else if k == 10 {
        !iob.slew_is_fast
    } else {
        !iob.obuf_uses_ff
    }
}

/// Distinct cells of the large-device I/O region sit at distinct positions.
pub proof fn lemma_large_iob_cells_distinct(device: XC2Device, j: int, k: int)
    requires
        0 <= j < k < 12,
    ensures
        spec_large_iob_cell_pos(device, j) != spec_large_iob_cell_pos(device, k),
{
}

/// Position (column offset, row offset) of the `k`-th macrocell cell within
/// its macrocell slot's fuse rows, per device family.
pub open spec fn spec_mc_cell_pos(device: XC2Device, k: int) -> (int, int) {
    match device {
        XC2Device::XC2C32 | XC2Device::XC2C32A => {
            if k == 0 {
                (0, 0)
            } else if k == 1 {
                (1, 0)
            } else if k == 2 {
                (2, 0)
            } else if k == 3 {
                (3, 0)
            } else if k == 4 {
                (4, 0)
            } else if k == 5 {
                (5, 0)
            } else if k == 6 {
                (6, 0)
            } else if k == 7 {
                (7, 0)
            } else if k == 8 {
                (8, 0)
            } else if k == 9 {
                (0, 1)
            } else if k == 10 {
                (1, 1)
            } else if k == 11 {
                (4, 1)
            } else if k == 12 {
                (5, 1)
            } else if k == 13 {
                (6, 1)
            } else if k == 14 {
                (8, 1)
            } else if k == 15 {
                (0, 2)
            } else {
                (8, 2)
            }
        },
        XC2Device::XC2C64 | XC2Device::XC2C64A => {
            if k == 0 {
                (8, 0)
            } else if k == 1 {
                (7, 0)
            } else if k == 2 {
                (5, 0)
            } else if k == 3 {
                (6, 0)
            } else if k == 4 {
                (4, 0)
            } else if k == 5 {
                (2, 0)
            } else if k == 6 {
                (3, 0)
            } else if k == 7 {
                (0, 0)
            } else if k == 8 {
                (1, 0)
            } else if k == 9 {
                (7, 1)
            } else if k == 10 {
                (8, 1)
            } else if k == 11 {
                (3, 1)
            } else if k == 12 {
                (4, 1)
            } else if k == 13 {
                (2, 1)
            } else if k == 14 {
                (7, 2)
            } else if k == 15 {
                (8, 2)
            } else {
                (0, 2)
            }
        },
        XC2Device::XC2C256 => {
            if k == 0 {
                (9, 0)
            } else if k == 1 {
                (5, 0)
            } else if k == 2 {
                (7, 0)
            } else if k == 3 {
                (8, 0)
            } else if k == 4 {
                (6, 0)
            } else if k == 5 {
                (4, 2)
            } else if k == 6 {
                (5, 2)
            } else if k == 7 {
                (1, 1)
            } else if k == 8 {
                (2, 1)
            } else if k == 9 {
                (6, 2)
            } else if k == 10 {
                (7, 2)
            } else if k == 11 {
                (2, 0)
            } else if k == 12 {
                (3, 0)
            } else if k == 13 {
                (9, 1)
            } else if k == 14 {
                (0, 2)
            } else if k == 15 {
                (1, 2)
            } else {
                (0, 1)
            }
        },
        _ => {
            if k == 0 {
                (8, 0)
            } else if k == 1 {
                (12, 0)
            } else if k == 2 {
                (9, 0)
            } else if k == 3 {
                (10, 0)
            } else if k == 4 {
                (11, 0)
            } else if k == 5 {
                (11, 1)
            } else if k == 6 {
                (12, 1)
            } else if k == 7 {
                (13, 1)
            } else if k == 8 {
                (14, 1)
            } else if k == 9 {
                (9, 1)
            } else if k == 10 {
                (10, 1)
            } else if k == 11 {
                (2, 0)
            } else if k == 12 {
                (3, 0)
            } else if k == 13 {
                (13, 0)
            } else if k == 14 {
                (0, 1)
            } else if k == 15 {
                (1, 1)
            } else {
                (14, 0)
            }
        },
    }
}

/// Value of the `k`-th macrocell cell.
pub open spec fn spec_mc_cell_val(cfg: XC2Macrocell, k: int) -> bool {
    if k == 0 {
        spec_aclk_bit(cfg.clk_src)
    } else if k == 1 {
        cfg.clk_invert_pol
    } else if k == 2 {
        spec_clk_bits(cfg.clk_src).0
    } else if k == 3 {
        spec_clk_bits(cfg.clk_src).1
    } else if k == 4 {
        cfg.is_ddr
    } else if k == 5 {
        spec_r_bits(cfg.r_src).0
    } else if k == 6 {
        spec_r_bits(cfg.r_src).1
    } else if k == 7 {
        spec_p_bits(cfg.s_src).0
    } else if k == 8 {
        spec_p_bits(cfg.s_src).1
    } else if k == 9 {
        spec_regmod_bits(cfg.reg_mode).0
    } else if k == 10 {
        spec_regmod_bits(cfg.reg_mode).1
    } else if k == 11 {
        spec_fb_bits(cfg.fb_mode).0
    } else if k == 12 {
        spec_fb_bits(cfg.fb_mode).1
    } else if k == 13 {
        !cfg.ff_in_ibuf
    } else if k == 14 {
        spec_xorin_bits(cfg.xor_mode).0
    } else if k == 15 {
        spec_xorin_bits(cfg.xor_mode).1
    } else {
        cfg.init_state
    }
}

/// Distinct cells of the macrocell region sit at distinct positions.
pub proof fn lemma_mc_cells_distinct(device: XC2Device, j: int, k: int)
    requires
        0 <= j < k < 17,
    ensures
        spec_mc_cell_pos(device, j) != spec_mc_cell_pos(device, k),
{
}

/// Computes the position and value of the `k`-th small-device I/O cell.
fn small_iob_crbit_cell(iob: &XC2MCSmallIOB, device: XC2Device, k: usize) -> (c: (usize, usize, bool))
    requires
        k < 10,
    ensures
        c.0 as int == spec_small_iob_cell_pos(device, k as int).0,
        c.1 as int == spec_small_iob_cell_pos(device, k as int).1,
        c.0 as int <= spec_mc_col_span(device),
        c.1 <= 2,
        c.2 == spec_small_iob_cell_val(*iob, k as int),
{
    match device {
        XC2Device::XC2C32 | XC2Device::XC2C32A => {
            if k == 0 {
                (2, 1, iob.inz().0)
            } else if k == 1 {
                (3, 1, iob.inz().1)
            } else if k == 2 {
                (7, 1, iob.schmitt_trigger)
            } else if k == 3 {
                (1, 2, !iob.obuf_uses_ff)
            } else if k == 4 {
                (2, 2, iob.oe().0)
            } else if k == 5 {
                (3, 2, iob.oe().1)
            } else if k == 6 {
                (4, 2, iob.oe().2)
            } else if k == 7 {
                (5, 2, iob.oe().3)
            } else if k == 8 {
                (6, 2, iob.termination_enabled)
            } else {
                (7, 2, !iob.slew_is_fast)
            }
        },
        _ => {
            if k == 0 {
                (5, 1, iob.inz().0)
            } else if k == 1 {
                (6, 1, iob.inz().1)
            } else if k == 2 {
                (1, 1, iob.schmitt_trigger)
            } else if k == 3 {
                (0, 1, !iob.obuf_uses_ff)
            } else if k == 4 {
                (3, 2, iob.oe().0)
            } else if k == 5 {
                (4, 2, iob.oe().1)
            } else if k == 6 {
                (5, 2, iob.oe().2)
            } else if k == 7 {
                (6, 2, iob.oe().3)
            } else if k == 8 {
                (2, 2, iob.termination_enabled)
            } else {
                (1, 2, !iob.slew_is_fast)
            }
        },
    }
}

/// Computes the position and value of the `k`-th large-device I/O cell.
fn large_iob_crbit_cell(iob: &XC2MCLargeIOB, device: XC2Device, k: usize) -> (c: (usize, usize, bool))
    requires
        k < 12,
    ensures
        c.0 as int == spec_large_iob_cell_pos(device, k as int).0,
        c.1 as int == spec_large_iob_cell_pos(device, k as int).1,
        c.0 as int <= spec_mc_col_span(device),
        c.1 <= 2,
        c.2 == spec_large_iob_cell_val(*iob, k as int),
{
    match device {
        XC2Device::XC2C256 => {
            if k == 0 {
                (0, 0, iob.inmod().0)
            } else if k == 1 {
                (1, 0, iob.inmod().1)
            } else if k == 2 {
                (4, 0, iob.uses_data_gate)
            } else if k == 3 {
                (3, 1, iob.oe().0)
            } else if k == 4 {
                (4, 1, iob.oe().1)
            } else if k == 5 {
                (5, 1, iob.oe().2)
            } else if k == 6 {
                (6, 1, iob.oe().3)
            } else if k == 7 {
                (7, 1, iob.inz().0)
            } else if k == 8 {
                (8, 1, iob.inz().1)
            } else if k == 9 {
                (2, 2, iob.termination_enabled)
            } else if k == 10 {
                (3, 2, !iob.slew_is_fast)
            } else {
                (8, 2, !iob.obuf_uses_ff)
            }
        },
        _ => {
            if k == 0 {
                (5, 0, iob.inmod().0)
            } else if k == 1 {
                (6, 0, iob.inmod().1)
            } else if k == 2 {
                (4, 0, iob.uses_data_gate)
            } else if k == 3 {
                (2, 1, iob.oe().0)
            } else if k == 4 {
                (3, 1, iob.oe().1)
            } else if k == 5 {
                (4, 1, iob.oe().2)
            } else if k == 6 {
                (5, 1, iob.oe().3)
            } else if k == 7 {
                (0, 1, iob.inz().0)
            } else if k == 8 {
                (1, 1, iob.inz().1)
            } else if k == 9 {
                (7, 2, iob.termination_enabled)
            } else if k == 10 {
                (6, 1, !iob.slew_is_fast)
            } else {
                (8, 1, !iob.obuf_uses_ff)
            }
        },
    }
}

/// Computes the position and value of the `k`-th macrocell cell.
fn mc_crbit_cell(cfg: &XC2Macrocell, device: XC2Device, k: usize) -> (c: (usize, usize, bool))
    requires
        k < 17,
    ensures
        c.0 as int == spec_mc_cell_pos(device, k as int).0,
        c.1 as int == spec_mc_cell_pos(device, k as int).1,
        c.0 as int <= spec_mc_col_span(device),
        c.1 <= 2,
        c.2 == spec_mc_cell_val(*cfg, k as int),
{
    match device {
        XC2Device::XC2C32 | XC2Device::XC2C32A => {
            if k == 0 {
                (0, 0, cfg.aclk())
            } else if k == 1 {
                (1, 0, cfg.clk_invert_pol)
            } else if k == 2 {
                (2, 0, cfg.clk().0)
            } else if k == 3 {
                (3, 0, cfg.clk().1)
            } else if k == 4 {
                (4, 0, cfg.is_ddr)
            } else if k == 5 {
                (5, 0, cfg.r().0)
            } else if k == 6 {
                (6, 0, cfg.r().1)
            } else if k == 7 {
                (7, 0, cfg.p().0)
            } else if k == 8 {
                (8, 0, cfg.p().1)
            } else if k == 9 {
                (0, 1, cfg.regmod().0)
            } else if k == 10 {
                (1, 1, cfg.regmod().1)
            } else if k == 11 {
                (4, 1, cfg.fb().0)
            } else if k == 12 {
                (5, 1, cfg.fb().1)
            } else if k == 13 {
                (6, 1, !cfg.ff_in_ibuf)
            } else if k == 14 {
                (8, 1, cfg.xorin().0)
            } else if k == 15 {
                (0, 2, cfg.xorin().1)
            } else {
                (8, 2, cfg.init_state)
            }
        },
        XC2Device::XC2C64 | XC2Device::XC2C64A => {
            if k == 0 {
                (8, 0, cfg.aclk())
            } else if k == 1 {
                (7, 0, cfg.clk_invert_pol)
            } else if k == 2 {
                (5, 0, cfg.clk().0)
            } else if k == 3 {
                (6, 0, cfg.clk().1)
            } else if k == 4 {
                (4, 0, cfg.is_ddr)
            } else if k == 5 {
                (2, 0, cfg.r().0)
            } else if k == 6 {
                (3, 0, cfg.r().1)
            } else if k == 7 {
                (0, 0, cfg.p().0)
            } else if k == 8 {
                (1, 0, cfg.p().1)
            } else if k == 9 {
                (7, 1, cfg.regmod().0)
            } else if k == 10 {
                (8, 1, cfg.regmod().1)
            } else if k == 11 {
                (3, 1, cfg.fb().0)
            } else if k == 12 {
                (4, 1, cfg.fb().1)
            } else if k == 13 {
                (2, 1, !cfg.ff_in_ibuf)
            } else if k == 14 {
                (7, 2, cfg.xorin().0)
            } else if k == 15 {
                (8, 2, cfg.xorin().1)
            } else {
                (0, 2, cfg.init_state)
            }
        },
        XC2Device::XC2C256 => {
            if k == 0 {
                (9, 0, cfg.aclk())
            } else if k == 1 {
                (5, 0, cfg.clk_invert_pol)
            } else if k == 2 {
                (7, 0, cfg.clk().0)
            } else if k == 3 {
                (8, 0, cfg.clk().1)
            } else if k == 4 {
                (6, 0, cfg.is_ddr)
            } else if k == 5 {
                (4, 2, cfg.r().0)
            } else if k == 6 {
                (5, 2, cfg.r().1)
            } else if k == 7 {
                (1, 1, cfg.p().0)
            } else if k == 8 {
                (2, 1, cfg.p().1)
            } else if k == 9 {
                (6, 2, cfg.regmod().0)
            } else if k == 10 {
                (7, 2, cfg.regmod().1)
            } else if k == 11 {
                (2, 0, cfg.fb().0)
            } else if k == 12 {
                (3, 0, cfg.fb().1)
            } else if k == 13 {
                (9, 1, !cfg.ff_in_ibuf)
            } else if k == 14 {
                (0, 2, cfg.xorin().0)
            } else if k == 15 {
                (1, 2, cfg.xorin().1)
            } else {
                (0, 1, cfg.init_state)
            }
        },
        _ => {
            if k == 0 {
                (8, 0, cfg.aclk())
            } else if k == 1 {
                (12, 0, cfg.clk_invert_pol)
            } else if k == 2 {
                (9, 0, cfg.clk().0)
            } else if k == 3 {
                (10, 0, cfg.clk().1)
            } else if k == 4 {
                (11, 0, cfg.is_ddr)
            } else if k == 5 {
                (11, 1, cfg.r().0)
            } else if k == 6 {
                (12, 1, cfg.r().1)
            } else if k == 7 {
                (13, 1, cfg.p().0)
            } else if k == 8 {
                (14, 1, cfg.p().1)
            } else if k == 9 {
                (9, 1, cfg.regmod().0)
            } else if k == 10 {
                (10, 1, cfg.regmod().1)
            } else if k == 11 {
                (2, 0, cfg.fb().0)
            } else if k == 12 {
                (3, 0, cfg.fb().1)
            } else if k == 13 {
                (13, 0, !cfg.ff_in_ibuf)
            } else if k == 14 {
                (0, 1, cfg.xorin().0)
            } else if k == 15 {
                (1, 1, cfg.xorin().1)
            } else {
                (14, 0, cfg.init_state)
            }
        },
    }
}

/// Every cell of a small-device I/O pin's fuse region holds the value the configuration
/// encodes to: the shape of the physical encoder's postcondition.
pub open spec fn spec_small_iob_crbit(
    fa: FuseArray,
    iob: XC2MCSmallIOB,
    device: XC2Device,
    mc: int,
    x: int,
    y: int,
    mirror: bool,
) -> bool {
    forall|k: int|
        0 <= k < 10 ==> fa.bit(
            spec_mirror_col(x, mirror, spec_small_iob_cell_pos(device, k).0),
            y + spec_mc_row(device, mc) + spec_small_iob_cell_pos(device, k).1,
        ) == spec_small_iob_cell_val(iob, k)
}

/// Whether (xx, yy) is one of the cells the small-device I/O pin encoder writes for slot
/// `mc` of the block whose fuse region starts at (x, y).
pub open spec fn spec_small_iob_cell_at(
    device: XC2Device,
    mc: int,
    x: int,
    y: int,
    mirror: bool,
    xx: int,
    yy: int,
) -> bool {
    exists|k: int|
        0 <= k < 10 && xx == spec_mirror_col(x, mirror, spec_small_iob_cell_pos(device, k).0) && yy == y
            + spec_mc_row(device, mc) + spec_small_iob_cell_pos(device, k).1
}

/// Every cell of a large-device I/O pin's fuse region holds the value the configuration
/// encodes to: the shape of the physical encoder's postcondition.
pub open spec fn spec_large_iob_crbit(
    fa: FuseArray,
    iob: XC2MCLargeIOB,
    device: XC2Device,
    mc: int,
    x: int,
    y: int,
    mirror: bool,
) -> bool {
    forall|k: int|
        0 <= k < 12 ==> fa.bit(
            spec_mirror_col(x, mirror, spec_large_iob_cell_pos(device, k).0),
            y + spec_mc_row(device, mc) + spec_large_iob_cell_pos(device, k).1,
        ) == spec_large_iob_cell_val(iob, k)
}

/// Whether (xx, yy) is one of the cells the large-device I/O pin encoder writes for slot
/// `mc` of the block whose fuse region starts at (x, y).
pub open spec fn spec_large_iob_cell_at(
    device: XC2Device,
    mc: int,
    x: int,
    y: int,
    mirror: bool,
    xx: int,
    yy: int,
) -> bool {
    exists|k: int|
        0 <= k < 12 && xx == spec_mirror_col(x, mirror, spec_large_iob_cell_pos(device, k).0) && yy == y
            + spec_mc_row(device, mc) + spec_large_iob_cell_pos(device, k).1
}

/// Every cell of a macrocell's fuse region holds the value the configuration
/// encodes to: the shape of the physical encoder's postcondition.
pub open spec fn spec_mc_crbit(
    fa: FuseArray,
    cfg: XC2Macrocell,
    device: XC2Device,
    mc: int,
    x: int,
    y: int,
    mirror: bool,
) -> bool {
    forall|k: int|
        0 <= k < 17 ==> fa.bit(
            spec_mirror_col(x, mirror, spec_mc_cell_pos(device, k).0),
            y + spec_mc_row(device, mc) + spec_mc_cell_pos(device, k).1,
        ) == spec_mc_cell_val(cfg, k)
}

/// Whether (xx, yy) is one of the cells the macrocell encoder writes for slot
/// `mc` of the block whose fuse region starts at (x, y).
pub open spec fn spec_mc_cell_at(
    device: XC2Device,
    mc: int,
    x: int,
    y: int,
    mirror: bool,
    xx: int,
    yy: int,
) -> bool {
    exists|k: int|
        0 <= k < 17 && xx == spec_mirror_col(x, mirror, spec_mc_cell_pos(device, k).0) && yy == y
            + spec_mc_row(device, mc) + spec_mc_cell_pos(device, k).1
}

impl XC2MCSmallIOB {
    /// Writes the crbit representation of this I/O pin into `fuse_array`,
    /// for the pin with internal number `iob`. `x`, `y` and `mirror` are
    /// the pin's function block's fuse-region origin and mirroring flag,
    /// as the device's geometry tables give them.
    #[verifier::loop_isolation(false)]
    pub fn to_crbit(
        &self,
        device: XC2Device,
        iob: u32,
        x: usize,
        y: usize,
        mirror: bool,
        fuse_array: &mut FuseArray,
    )
        requires
            device.is_small(),
            spec_iob_to_slot(device, iob as int) is Some,
            old(fuse_array).wf(),
            y + spec_mc_row(device, spec_iob_to_slot(device, iob as int)->Some_0.1) + 3 <= old(
                fuse_array,
            ).height(),
            !mirror ==> x + spec_mc_col_span(device) < old(fuse_array).width(),
            mirror ==> spec_mc_col_span(device) <= x < old(fuse_array).width(),
        ensures
            final(fuse_array).wf(),
            final(fuse_array).width() == old(fuse_array).width(),
            final(fuse_array).height() == old(fuse_array).height(),
            spec_small_iob_crbit(
                *final(fuse_array),
                *self,
                device,
                spec_iob_to_slot(device, iob as int)->Some_0.1,
                x as int,
                y as int,
                mirror,
            ),
            forall|xx: int, yy: int|
                0 <= xx < old(fuse_array).width() && 0 <= yy < old(fuse_array).height()
                    && !spec_small_iob_cell_at(
                    device,
                    spec_iob_to_slot(device, iob as int)->Some_0.1,
                    x as int,
                    y as int,
                    mirror,
                    xx,
                    yy,
                ) ==> final(fuse_array).bit(xx, yy) == old(fuse_array).bit(xx, yy),
    {
        proof {
            lemma_iob_to_slot_in_range(device, iob as int);
            old(fuse_array).lemma_dims_bounded();
        }
        let slot = iob_num_to_fb_ff_num(device, iob).unwrap();
        let mc = slot.1;
        let row = mc_row_offset(device, mc);
        let oy = y + row as usize;
        let mut k: usize = 0;
        while k < 10
            invariant
                k <= 10,
                fuse_array.wf(),
                fuse_array.width() == old(fuse_array).width(),
                fuse_array.height() == old(fuse_array).height(),
                forall|j: int|
                    0 <= j < k ==> fuse_array.bit(
                        spec_mirror_col(x as int, mirror, spec_small_iob_cell_pos(device, j).0),
                        oy + spec_small_iob_cell_pos(device, j).1,
                    ) == spec_small_iob_cell_val(*self, j),
                forall|xx: int, yy: int|
                    0 <= xx < fuse_array.width() && 0 <= yy < fuse_array.height() && !(exists|
                        j: int,
                    |
                        0 <= j < k && xx == spec_mirror_col(
                            x as int,
                            mirror,
                            spec_small_iob_cell_pos(device, j).0,
                        ) && yy == oy + spec_small_iob_cell_pos(device, j).1) ==> fuse_array.bit(xx, yy)
                        == old(fuse_array).bit(xx, yy),
            decreases 10 - k,
        {
            let c = small_iob_crbit_cell(self, device, k);
            let cx = if mirror {
                x - c.0
            } else {
                x + c.0
            };
            proof {
                assert forall|j: int| 0 <= j < k implies spec_small_iob_cell_pos(device, j)
                    != spec_small_iob_cell_pos(device, k as int) by {
                    lemma_small_iob_cells_distinct(device, j, k as int);
                }
            }
            fuse_array.set(cx, oy + c.1, c.2);
            k = k + 1;
        }
    }
}

impl XC2MCLargeIOB {
    /// Writes the crbit representation of this I/O pin into `fuse_array`,
    /// for the pin with internal number `iob`. `x`, `y` and `mirror` are
    /// the pin's function block's fuse-region origin and mirroring flag,
    /// as the device's geometry tables give them.
    #[verifier::loop_isolation(false)]
    pub fn to_crbit(
        &self,
        device: XC2Device,
        iob: u32,
        x: usize,
        y: usize,
        mirror: bool,
        fuse_array: &mut FuseArray,
    )
        requires
            device.is_large(),
            spec_iob_to_slot(device, iob as int) is Some,
            old(fuse_array).wf(),
            y + spec_mc_row(device, spec_iob_to_slot(device, iob as int)->Some_0.1) + 3 <= old(
                fuse_array,
            ).height(),
            !mirror ==> x + spec_mc_col_span(device) < old(fuse_array).width(),
            mirror ==> spec_mc_col_span(device) <= x < old(fuse_array).width(),
        ensures
            final(fuse_array).wf(),
            final(fuse_array).width() == old(fuse_array).width(),
            final(fuse_array).height() == old(fuse_array).height(),
            spec_large_iob_crbit(
                *final(fuse_array),
                *self,
                device,
                spec_iob_to_slot(device, iob as int)->Some_0.1,
                x as int,
                y as int,
                mirror,
            ),
            forall|xx: int, yy: int|
                0 <= xx < old(fuse_array).width() && 0 <= yy < old(fuse_array).height()
                    && !spec_large_iob_cell_at(
                    device,
                    spec_iob_to_slot(device, iob as int)->Some_0.1,
                    x as int,
                    y as int,
                    mirror,
                    xx,
                    yy,
                ) ==> final(fuse_array).bit(xx, yy) == old(fuse_array).bit(xx, yy),
    {
        proof {
            lemma_iob_to_slot_in_range(device, iob as int);
            old(fuse_array).lemma_dims_bounded();
        }
        let slot = iob_num_to_fb_ff_num(device, iob).unwrap();
        let mc = slot.1;
        let row = mc_row_offset(device, mc);
        let oy = y + row as usize;
        let mut k: usize = 0;
        while k < 12
            invariant
                k <= 12,
                fuse_array.wf(),
                fuse_array.width() == old(fuse_array).width(),
                fuse_array.height() == old(fuse_array).height(),
                forall|j: int|
                    0 <= j < k ==> fuse_array.bit(
                        spec_mirror_col(x as int, mirror, spec_large_iob_cell_pos(device, j).0),
                        oy + spec_large_iob_cell_pos(device, j).1,
                    ) == spec_large_iob_cell_val(*self, j),
                forall|xx: int, yy: int|
                    0 <= xx < fuse_array.width() && 0 <= yy < fuse_array.height() && !(exists|
                        j: int,
                    |
                        0 <= j < k && xx == spec_mirror_col(
                            x as int,
                            mirror,
                            spec_large_iob_cell_pos(device, j).0,
                        ) && yy == oy + spec_large_iob_cell_pos(device, j).1) ==> fuse_array.bit(xx, yy)
                        == old(fuse_array).bit(xx, yy),
            decreases 12 - k,
        {
            let c = large_iob_crbit_cell(self, device, k);
            let cx = if mirror {
                x - c.0
            } else {
                x + c.0
            };
            proof {
                assert forall|j: int| 0 <= j < k implies spec_large_iob_cell_pos(device, j)
                    != spec_large_iob_cell_pos(device, k as int) by {
                    lemma_large_iob_cells_distinct(device, j, k as int);
                }
            }
            fuse_array.set(cx, oy + c.1, c.2);
            k = k + 1;
        }
    }
}

impl XC2Macrocell {
    /// Writes the crbit representation of this macrocell into `fuse_array`,
    /// for macrocell slot `mc`. `x`, `y` and `mirror` are the macrocell's
    /// function block's fuse-region origin and mirroring flag, as the
    /// device's geometry tables give them.
    #[verifier::loop_isolation(false)]
    #[verifier::rlimit(60)]
    pub fn to_crbit(
        &self,
        device: XC2Device,
        mc: u32,
        x: usize,
        y: usize,
        mirror: bool,
        fuse_array: &mut FuseArray,
    )
        requires
            mc < 16,
            old(fuse_array).wf(),
            y + spec_mc_row(device, mc as int) + 3 <= old(fuse_array).height(),
            !mirror ==> x + spec_mc_col_span(device) < old(fuse_array).width(),
            mirror ==> spec_mc_col_span(device) <= x < old(fuse_array).width(),
        ensures
            final(fuse_array).wf(),
            final(fuse_array).width() == old(fuse_array).width(),
            final(fuse_array).height() == old(fuse_array).height(),
            spec_mc_crbit(
                *final(fuse_array),
                *self,
                device,
                mc as int,
                x as int,
                y as int,
                mirror,
            ),
            forall|xx: int, yy: int|
                0 <= xx < old(fuse_array).width() && 0 <= yy < old(fuse_array).height()
                    && !spec_mc_cell_at(device, mc as int, x as int, y as int, mirror, xx, yy)
                    ==> final(fuse_array).bit(xx, yy) == old(fuse_array).bit(xx, yy),
    {
        proof {
            old(fuse_array).lemma_dims_bounded();
        }
        let row = mc_row_offset(device, mc);
        let oy = y + row as usize;
        let mut k: usize = 0;
        while k < 17
            invariant
                k <= 17,
                fuse_array.wf(),
                fuse_array.width() == old(fuse_array).width(),
                fuse_array.height() == old(fuse_array).height(),
                forall|j: int|
                    0 <= j < k ==> fuse_array.bit(
                        spec_mirror_col(x as int, mirror, spec_mc_cell_pos(device, j).0),
                        oy + spec_mc_cell_pos(device, j).1,
                    ) == spec_mc_cell_val(*self, j),
                forall|xx: int, yy: int|
                    0 <= xx < fuse_array.width() && 0 <= yy < fuse_array.height() && !(exists|
                        j: int,
                    |
                        0 <= j < k && xx == spec_mirror_col(
                            x as int,
                            mirror,
                            spec_mc_cell_pos(device, j).0,
                        ) && yy == oy + spec_mc_cell_pos(device, j).1) ==> fuse_array.bit(xx, yy)
                        == old(fuse_array).bit(xx, yy),
            decreases 17 - k,
        {
            let c = mc_crbit_cell(self, device, k);
            let cx = if mirror {
                x - c.0
            } else {
                x + c.0
            };
            proof {
                assert forall|j: int| 0 <= j < k implies spec_mc_cell_pos(device, j)
                    != spec_mc_cell_pos(device, k as int) by {
                    lemma_mc_cells_distinct(device, j, k as int);
                }
            }
            fuse_array.set(cx, oy + c.1, c.2);
            k = k + 1;
        }
    }
}

/// Mirroring symmetry of the small-device I/O pin encoder: the same configuration,
/// encoded into a non-mirrored block at (x1, y1) and a mirrored block of
/// the same family at (x2, y2), yields mirror-image column offsets with
/// equal values.
pub proof fn lemma_small_iob_crbit_mirror(
    fa1: FuseArray,
    fa2: FuseArray,
    iob: XC2MCSmallIOB,
    device: XC2Device,
    mc: int,
    x1: int,
    y1: int,
    x2: int,
    y2: int,
)
    requires
        spec_small_iob_crbit(fa1, iob, device, mc, x1, y1, false),
        spec_small_iob_crbit(fa2, iob, device, mc, x2, y2, true),
    ensures
        forall|k: int|
            0 <= k < 10 ==> fa1.bit(
                x1 + spec_small_iob_cell_pos(device, k).0,
                y1 + spec_mc_row(device, mc) + spec_small_iob_cell_pos(device, k).1,
            ) == fa2.bit(
                x2 - spec_small_iob_cell_pos(device, k).0,
                y2 + spec_mc_row(device, mc) + spec_small_iob_cell_pos(device, k).1,
            ),
{
    assert forall|k: int|
        0 <= k < 10 implies fa1.bit(
        x1 + spec_small_iob_cell_pos(device, k).0,
        y1 + spec_mc_row(device, mc) + spec_small_iob_cell_pos(device, k).1,
    ) == fa2.bit(
        x2 - spec_small_iob_cell_pos(device, k).0,
        y2 + spec_mc_row(device, mc) + spec_small_iob_cell_pos(device, k).1,
    ) by {
        assert(fa1.bit(
            spec_mirror_col(x1, false, spec_small_iob_cell_pos(device, k).0),
            y1 + spec_mc_row(device, mc) + spec_small_iob_cell_pos(device, k).1,
        ) == spec_small_iob_cell_val(iob, k));
        assert(fa2.bit(
            spec_mirror_col(x2, true, spec_small_iob_cell_pos(device, k).0),
            y2 + spec_mc_row(device, mc) + spec_small_iob_cell_pos(device, k).1,
        ) == spec_small_iob_cell_val(iob, k));
    }
}

/// Mirroring symmetry of the large-device I/O pin encoder: the same configuration,
/// encoded into a non-mirrored block at (x1, y1) and a mirrored block of
/// the same family at (x2, y2), yields mirror-image column offsets with
/// equal values.
pub proof fn lemma_large_iob_crbit_mirror(
    fa1: FuseArray,
    fa2: FuseArray,
    iob: XC2MCLargeIOB,
    device: XC2Device,
    mc: int,
    x1: int,
    y1: int,
    x2: int,
    y2: int,
)
    requires
        spec_large_iob_crbit(fa1, iob, device, mc, x1, y1, false),
        spec_large_iob_crbit(fa2, iob, device, mc, x2, y2, true),
    ensures
        forall|k: int|
            0 <= k < 12 ==> fa1.bit(
                x1 + spec_large_iob_cell_pos(device, k).0,
                y1 + spec_mc_row(device, mc) + spec_large_iob_cell_pos(device, k).1,
            ) == fa2.bit(
                x2 - spec_large_iob_cell_pos(device, k).0,
                y2 + spec_mc_row(device, mc) + spec_large_iob_cell_pos(device, k).1,
            ),
{
    assert forall|k: int|
        0 <= k < 12 implies fa1.bit(
        x1 + spec_large_iob_cell_pos(device, k).0,
        y1 + spec_mc_row(device, mc) + spec_large_iob_cell_pos(device, k).1,
    ) == fa2.bit(
        x2 - spec_large_iob_cell_pos(device, k).0,
        y2 + spec_mc_row(device, mc) + spec_large_iob_cell_pos(device, k).1,
    ) by {
        assert(fa1.bit(
            spec_mirror_col(x1, false, spec_large_iob_cell_pos(device, k).0),
            y1 + spec_mc_row(device, mc) + spec_large_iob_cell_pos(device, k).1,
        ) == spec_large_iob_cell_val(iob, k));
        assert(fa2.bit(
            spec_mirror_col(x2, true, spec_large_iob_cell_pos(device, k).0),
            y2 + spec_mc_row(device, mc) + spec_large_iob_cell_pos(device, k).1,
        ) == spec_large_iob_cell_val(iob, k));
    }
}

/// Mirroring symmetry of the macrocell encoder: the same configuration,
/// encoded into a non-mirrored block at (x1, y1) and a mirrored block of
/// the same family at (x2, y2), yields mirror-image column offsets with
/// equal values.
pub proof fn lemma_mc_crbit_mirror(
    fa1: FuseArray,
    fa2: FuseArray,
    cfg: XC2Macrocell,
    device: XC2Device,
    mc: int,
    x1: int,
    y1: int,
    x2: int,
    y2: int,
)
    requires
        spec_mc_crbit(fa1, cfg, device, mc, x1, y1, false),
        spec_mc_crbit(fa2, cfg, device, mc, x2, y2, true),
    ensures
        forall|k: int|
            0 <= k < 17 ==> fa1.bit(
                x1 + spec_mc_cell_pos(device, k).0,
                y1 + spec_mc_row(device, mc) + spec_mc_cell_pos(device, k).1,
            ) == fa2.bit(
                x2 - spec_mc_cell_pos(device, k).0,
                y2 + spec_mc_row(device, mc) + spec_mc_cell_pos(device, k).1,
            ),
{
    assert forall|k: int|
        0 <= k < 17 implies fa1.bit(
        x1 + spec_mc_cell_pos(device, k).0,
        y1 + spec_mc_row(device, mc) + spec_mc_cell_pos(device, k).1,
    ) == fa2.bit(
        x2 - spec_mc_cell_pos(device, k).0,
        y2 + spec_mc_row(device, mc) + spec_mc_cell_pos(device, k).1,
    ) by {
        assert(fa1.bit(
            spec_mirror_col(x1, false, spec_mc_cell_pos(device, k).0),
            y1 + spec_mc_row(device, mc) + spec_mc_cell_pos(device, k).1,
        ) == spec_mc_cell_val(cfg, k));
        assert(fa2.bit(
            spec_mirror_col(x2, true, spec_mc_cell_pos(device, k).0),
            y2 + spec_mc_row(device, mc) + spec_mc_cell_pos(device, k).1,
        ) == spec_mc_cell_val(cfg, k));
    }
}

} // verus!
