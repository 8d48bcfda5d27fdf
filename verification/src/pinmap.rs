//! Pin-index geometry: the partial bijection between a device-global I/O
//! pin index and a (function block, macrocell slot) coordinate.
//!
//! On the two smallest variants the mapping is plain division and modulus
//! by the function-block width. On every other variant each function block
//! contributes a contiguous run of low-numbered slots and a second
//! contiguous run of high-numbered slots, separated by a gap of unpopulated
//! (buried) slots whose size varies per function block, so the mapping is
//! an explicit per-device table of (slot range, pin-index base) pairs.

use vstd::prelude::*;

use crate::device::MCS_PER_FB;
use crate::device::XC2Device;

verus! {


/// Table form of the pin-index to slot mapping for the 128-macrocell variant.
pub open spec fn spec_iob_to_slot_128(iob: int) -> Option<(int, int)> {
    if iob < 0 {
        None
    } else if iob <= 5 {
        Some((0, iob - 0 + 0))
    } else if iob <= 11 {
        Some((0, iob - 6 + 10))
    } else if iob <= 17 {
        Some((1, iob - 12 + 0))
    } else if iob <= 23 {
        Some((1, iob - 18 + 10))
    } else if iob <= 30 {
        Some((2, iob - 24 + 0))
    } else if iob <= 36 {
        Some((2, iob - 31 + 10))
    } else if iob <= 43 {
        Some((3, iob - 37 + 0))
    } else if iob <= 49 {
        Some((3, iob - 44 + 10))
    } else if iob <= 56 {
        Some((4, iob - 50 + 0))
    } else if iob <= 62 {
        Some((4, iob - 57 + 10))
    } else if iob <= 68 {
        Some((5, iob - 63 + 0))
    } else if iob <= 74 {
        Some((5, iob - 69 + 10))
    } else if iob <= 81 {
        Some((6, iob - 75 + 0))
    } else if iob <= 87 {
        Some((6, iob - 82 + 10))
    } else if iob <= 93 {
        Some((7, iob - 88 + 0))
    } else if iob <= 99 {
        Some((7, iob - 94 + 10))
    } else {
        None
    }
}

/// Table form of the pin-index to slot mapping for the 256-macrocell variant.
pub open spec fn spec_iob_to_slot_256(iob: int) -> Option<(int, int)> {
    if iob < 0 {
        None
    } else if iob <= 5 {
        Some((0, iob - 0 + 0))
    } else if iob <= 10 {
        Some((0, iob - 6 + 11))
    } else if iob <= 16 {
        Some((1, iob - 11 + 0))
    } else if iob <= 21 {
        Some((1, iob - 17 + 11))
    } else if iob <= 27 {
        Some((2, iob - 22 + 0))
    } else if iob <= 32 {
        Some((2, iob - 28 + 11))
    } else if iob <= 38 {
        Some((3, iob - 33 + 0))
    } else if iob <= 43 {
        Some((3, iob - 39 + 11))
    } else if iob <= 49 {
        Some((4, iob - 44 + 0))
    } else if iob <= 54 {
        Some((4, iob - 50 + 11))
    } else if iob <= 60 {
        Some((5, iob - 55 + 0))
    } else if iob <= 65 {
        Some((5, iob - 61 + 11))
    } else if iob <= 71 {
        Some((6, iob - 66 + 0))
    } else if iob <= 77 {
        Some((6, iob - 72 + 10))
    } else if iob <= 83 {
        Some((7, iob - 78 + 0))
    } else if iob <= 89 {
        Some((7, iob - 84 + 10))
    } else if iob <= 95 {
        Some((8, iob - 90 + 0))
    } else if iob <= 101 {
        Some((8, iob - 96 + 10))
    } else if iob <= 107 {
        Some((9, iob - 102 + 0))
    } else if iob <= 113 {
        Some((9, iob - 108 + 10))
    } else if iob <= 119 {
        Some((10, iob - 114 + 0))
    } else if iob <= 125 {
        Some((10, iob - 120 + 10))
    } else if iob <= 131 {
        Some((11, iob - 126 + 0))
    } else if iob <= 137 {
        Some((11, iob - 132 + 10))
    } else if iob <= 143 {
        Some((12, iob - 138 + 0))
    } else if iob <= 148 {
        Some((12, iob - 144 + 11))
    } else if iob <= 154 {
        Some((13, iob - 149 + 0))
    } else if iob <= 159 {
        Some((13, iob - 155 + 11))
    } else if iob <= 165 {
        Some((14, iob - 160 + 0))
    } else if iob <= 171 {
        Some((14, iob - 166 + 10))
    } else if iob <= 177 {
        Some((15, iob - 172 + 0))
    } else if iob <= 183 {
        Some((15, iob - 178 + 10))
    } else {
        None
    }
}

/// Table form of the pin-index to slot mapping for the 512-macrocell variant.
pub open spec fn spec_iob_to_slot_512(iob: int) -> Option<(int, int)> {
    if iob < 0 {
        None
    } else if iob <= 3 {
        Some((0, iob - 0 + 0))
    } else if iob <= 7 {
        Some((0, iob - 4 + 12))
    } else if iob <= 11 {
        Some((1, iob - 8 + 0))
    } else if iob <= 15 {
        Some((1, iob - 12 + 12))
    } else if iob <= 20 {
        Some((2, iob - 16 + 0))
    } else if iob <= 24 {
        Some((2, iob - 21 + 12))
    } else if iob <= 28 {
        Some((3, iob - 25 + 0))
    } else if iob <= 32 {
        Some((3, iob - 29 + 12))
    } else if iob <= 37 {
        Some((4, iob - 33 + 0))
    } else if iob <= 41 {
        Some((4, iob - 38 + 12))
    } else if iob <= 45 {
        Some((5, iob - 42 + 0))
    } else if iob <= 49 {
        Some((5, iob - 46 + 12))
    } else if iob <= 54 {
        Some((6, iob - 50 + 0))
    } else if iob <= 58 {
        Some((6, iob - 55 + 12))
    } else if iob <= 62 {
        Some((7, iob - 59 + 0))
    } else if iob <= 66 {
        Some((7, iob - 63 + 12))
    } else if iob <= 70 {
        Some((8, iob - 67 + 0))
    } else if iob <= 74 {
        Some((8, iob - 71 + 12))
    } else if iob <= 78 {
        Some((9, iob - 75 + 0))
    } else if iob <= 82 {
        Some((9, iob - 79 + 12))
    } else if iob <= 86 {
        Some((10, iob - 83 + 0))
    } else if iob <= 90 {
        Some((10, iob - 87 + 12))
    } else if iob <= 95 {
        Some((11, iob - 91 + 0))
    } else if iob <= 99 {
        Some((11, iob - 96 + 12))
    } else if iob <= 103 {
        Some((12, iob - 100 + 0))
    } else if iob <= 107 {
        Some((12, iob - 104 + 12))
    } else if iob <= 112 {
        Some((13, iob - 108 + 0))
    } else if iob <= 116 {
        Some((13, iob - 113 + 12))
    } else if iob <= 120 {
        Some((14, iob - 117 + 0))
    } else if iob <= 124 {
        Some((14, iob - 121 + 12))
    } else if iob <= 129 {
        Some((15, iob - 125 + 0))
    } else if iob <= 133 {
        Some((15, iob - 130 + 12))
    } else if iob <= 138 {
        Some((16, iob - 134 + 0))
    } else if iob <= 142 {
        Some((16, iob - 139 + 12))
    } else if iob <= 146 {
        Some((17, iob - 143 + 0))
    } else if iob <= 150 {
        Some((17, iob - 147 + 12))
    } else if iob <= 155 {
        Some((18, iob - 151 + 0))
    } else if iob <= 159 {
        Some((18, iob - 156 + 12))
    } else if iob <= 163 {
        Some((19, iob - 160 + 0))
    } else if iob <= 167 {
        Some((19, iob - 164 + 12))
    } else if iob <= 172 {
        Some((20, iob - 168 + 0))
    } else if iob <= 176 {
        Some((20, iob - 173 + 12))
    } else if iob <= 180 {
        Some((21, iob - 177 + 0))
    } else if iob <= 184 {
        Some((21, iob - 181 + 12))
    } else if iob <= 189 {
        Some((22, iob - 185 + 0))
    } else if iob <= 193 {
        Some((22, iob - 190 + 12))
    } else if iob <= 197 {
        Some((23, iob - 194 + 0))
    } else if iob <= 201 {
        Some((23, iob - 198 + 12))
    } else if iob <= 205 {
        Some((24, iob - 202 + 0))
    } else if iob <= 209 {
        Some((24, iob - 206 + 12))
    } else if iob <= 214 {
        Some((25, iob - 210 + 0))
    } else if iob <= 218 {
        Some((25, iob - 215 + 12))
    } else if iob <= 222 {
        Some((26, iob - 219 + 0))
    } else if iob <= 226 {
        Some((26, iob - 223 + 12))
    } else if iob <= 231 {
        Some((27, iob - 227 + 0))
    } else if iob <= 235 {
        Some((27, iob - 232 + 12))
    } else if iob <= 239 {
        Some((28, iob - 236 + 0))
    } else if iob <= 243 {
        Some((28, iob - 240 + 12))
    } else if iob <= 248 {
        Some((29, iob - 244 + 0))
    } else if iob <= 252 {
        Some((29, iob - 249 + 12))
    } else if iob <= 256 {
        Some((30, iob - 253 + 0))
    } else if iob <= 260 {
        Some((30, iob - 257 + 12))
    } else if iob <= 265 {
        Some((31, iob - 261 + 0))
    } else if iob <= 269 {
        Some((31, iob - 266 + 12))
    } else {
        None
    }
}

/// Maps a device-global I/O pin index to the (function block, macrocell
/// slot) coordinate it is bonded to, or `None` when the index is out of
/// range for the device.
pub open spec fn spec_iob_to_slot(device: XC2Device, iob: int) -> Option<(int, int)> {
    match device {
        XC2Device::XC2C32 | XC2Device::XC2C32A => if 0 <= iob < 32 {
            Some((iob / 16, iob % 16))
        } else {
            None
        },
        XC2Device::XC2C64 | XC2Device::XC2C64A => if 0 <= iob < 64 {
            Some((iob / 16, iob % 16))
        } else {
            None
        },
        XC2Device::XC2C128 => spec_iob_to_slot_128(iob),
        XC2Device::XC2C256 => spec_iob_to_slot_256(iob),
        XC2Device::XC2C384 => if 0 <= iob < 240 {
            if iob % 10 >= 5 {
                Some((iob / 10, iob % 10 + 6))
            } else {
                Some((iob / 10, iob % 10))
            }
        } else {
            None
        },
        XC2Device::XC2C512 => spec_iob_to_slot_512(iob),
    }
}

/// Table form of the slot to pin-index mapping for the 128-macrocell variant.
pub open spec fn spec_slot_to_iob_128(fb: int, ff: int) -> Option<int> {
    if fb == 0 {
        if 0 <= ff <= 5 {
            Some(ff)
        } else if 10 <= ff <= 15 {
            Some(6 + (ff - 10))
        } else {
            None
        }
    } else if fb == 1 {
        if 0 <= ff <= 5 {
            Some(12 + ff)
        } else if 10 <= ff <= 15 {
            Some(18 + (ff - 10))
        } else {
            None
        }
    } else if fb == 2 {
        if 0 <= ff <= 6 {
            Some(24 + ff)
        } else if 10 <= ff <= 15 {
            Some(31 + (ff - 10))
        } else {
            None
        }
    } else if fb == 3 {
        if 0 <= ff <= 6 {
            Some(37 + ff)
        } else if 10 <= ff <= 15 {
            Some(44 + (ff - 10))
        } else {
            None
        }
    } else if fb == 4 {
        if 0 <= ff <= 6 {
            Some(50 + ff)
        } else if 10 <= ff <= 15 {
            Some(57 + (ff - 10))
        } else {
            None
        }
    } else if fb == 5 {
        if 0 <= ff <= 5 {
            Some(63 + ff)
        } else if 10 <= ff <= 15 {
            Some(69 + (ff - 10))
        } else {
            None
        }
    } else if fb == 6 {
        if 0 <= ff <= 6 {
            Some(75 + ff)
        } else if 10 <= ff <= 15 {
            Some(82 + (ff - 10))
        } else {
            None
        }
    } else if fb == 7 {
        if 0 <= ff <= 5 {
            Some(88 + ff)
        } else if 10 <= ff <= 15 {
            Some(94 + (ff - 10))
        } else {
            None
        }
    } else {
        None
    }
}

/// Table form of the slot to pin-index mapping for the 256-macrocell variant.
pub open spec fn spec_slot_to_iob_256(fb: int, ff: int) -> Option<int> {
    if fb == 0 {
        if 0 <= ff <= 5 {
            Some(ff)
        } else if 11 <= ff <= 15 {
            Some(6 + (ff - 11))
        } else {
            None
        }
    } else if fb == 1 {
        if 0 <= ff <= 5 {
            Some(11 + ff)
        } else if 11 <= ff <= 15 {
            Some(17 + (ff - 11))
        } else {
            None
        }
    } else if fb == 2 {
        if 0 <= ff <= 5 {
            Some(22 + ff)
        } else if 11 <= ff <= 15 {
            Some(28 + (ff - 11))
        } else {
            None
        }
    } else if fb == 3 {
        if 0 <= ff <= 5 {
            Some(33 + ff)
        } else if 11 <= ff <= 15 {
            Some(39 + (ff - 11))
        } else {
            None
        }
    } else if fb == 4 {
        if 0 <= ff <= 5 {
            Some(44 + ff)
        } else if 11 <= ff <= 15 {
            Some(50 + (ff - 11))
        } else {
            None
        }
    } else if fb == 5 {
        if 0 <= ff <= 5 {
            Some(55 + ff)
        } else if 11 <= ff <= 15 {
            Some(61 + (ff - 11))
        } else {
            None
        }
    } else if fb == 6 {
        if 0 <= ff <= 5 {
            Some(66 + ff)
        } else if 10 <= ff <= 15 {
            Some(72 + (ff - 10))
        } else {
            None
        }
    } else if fb == 7 {
        if 0 <= ff <= 5 {
            Some(78 + ff)
        } else if 10 <= ff <= 15 {
            Some(84 + (ff - 10))
        } else {
            None
        }
    } else if fb == 8 {
        if 0 <= ff <= 5 {
            Some(90 + ff)
        } else if 10 <= ff <= 15 {
            Some(96 + (ff - 10))
        } else {
            None
        }
    } else if fb == 9 {
        if 0 <= ff <= 5 {
            Some(102 + ff)
        } else if 10 <= ff <= 15 {
            Some(108 + (ff - 10))
        } else {
            None
        }
    } else if fb == 10 {
        if 0 <= ff <= 5 {
            Some(114 + ff)
        } else if 10 <= ff <= 15 {
            Some(120 + (ff - 10))
        } else {
            None
        }
    } else if fb == 11 {
        if 0 <= ff <= 5 {
            Some(126 + ff)
        } else if 10 <= ff <= 15 {
            Some(132 + (ff - 10))
        } else {
            None
        }
    } else if fb == 12 {
        if 0 <= ff <= 5 {
            Some(138 + ff)
        } else if 11 <= ff <= 15 {
            Some(144 + (ff - 11))
        } else {
            None
        }
    } else if fb == 13 {
        if 0 <= ff <= 5 {
            Some(149 + ff)
        } else if 11 <= ff <= 15 {
            Some(155 + (ff - 11))
        } else {
            None
        }
    } else if fb == 14 {
        if 0 <= ff <= 5 {
            Some(160 + ff)
        } else if 10 <= ff <= 15 {
            Some(166 + (ff - 10))
        } else {
            None
        }
    } else if fb == 15 {
        if 0 <= ff <= 5 {
            Some(172 + ff)
        } else if 10 <= ff <= 15 {
            Some(178 + (ff - 10))
        } else {
            None
        }
    } else {
        None
    }
}

/// Table form of the slot to pin-index mapping for the 512-macrocell variant.
pub open spec fn spec_slot_to_iob_512(fb: int, ff: int) -> Option<int> {
    if fb == 0 {
        if 0 <= ff <= 3 {
            Some(ff)
        } else if 12 <= ff <= 15 {
            Some(4 + (ff - 12))
        } else {
            None
        }
    } else if fb == 1 {
        if 0 <= ff <= 3 {
            Some(8 + ff)
        } else if 12 <= ff <= 15 {
            Some(12 + (ff - 12))
        } else {
            None
        }
    } else if fb == 2 {
        if 0 <= ff <= 4 {
            Some(16 + ff)
        } else if 12 <= ff <= 15 {
            Some(21 + (ff - 12))
        } else {
            None
        }
    } else if fb == 3 {
        if 0 <= ff <= 3 {
            Some(25 + ff)
        } else if 12 <= ff <= 15 {
            Some(29 + (ff - 12))
        } else {
            None
        }
    } else if fb == 4 {
        if 0 <= ff <= 4 {
            Some(33 + ff)
        } else if 12 <= ff <= 15 {
            Some(38 + (ff - 12))
        } else {
            None
        }
    } else if fb == 5 {
        if 0 <= ff <= 3 {
            Some(42 + ff)
        } else if 12 <= ff <= 15 {
            Some(46 + (ff - 12))
        } else {
            None
        }
    } else if fb == 6 {
        if 0 <= ff <= 4 {
            Some(50 + ff)
        } else if 12 <= ff <= 15 {
            Some(55 + (ff - 12))
        } else {
            None
        }
    } else if fb == 7 {
        if 0 <= ff <= 3 {
            Some(59 + ff)
        } else if 12 <= ff <= 15 {
            Some(63 + (ff - 12))
        } else {
            None
        }
    } else if fb == 8 {
        if 0 <= ff <= 3 {
            Some(67 + ff)
        } else if 12 <= ff <= 15 {
            Some(71 + (ff - 12))
        } else {
            None
        }
    } else if fb == 9 {
        if 0 <= ff <= 3 {
            Some(75 + ff)
        } else if 12 <= ff <= 15 {
            Some(79 + (ff - 12))
        } else {
            None
        }
    } else if fb == 10 {
        if 0 <= ff <= 3 {
            Some(83 + ff)
        } else if 12 <= ff <= 15 {
            Some(87 + (ff - 12))
        } else {
            None
        }
    } else if fb == 11 {
        if 0 <= ff <= 4 {
            Some(91 + ff)
        } else if 12 <= ff <= 15 {
            Some(96 + (ff - 12))
        } else {
            None
        }
    } else if fb == 12 {
        if 0 <= ff <= 3 {
            Some(100 + ff)
        } else if 12 <= ff <= 15 {
            Some(104 + (ff - 12))
        } else {
            None
        }
    } else if fb == 13 {
        if 0 <= ff <= 4 {
            Some(108 + ff)
        } else if 12 <= ff <= 15 {
            Some(113 + (ff - 12))
        } else {
            None
        }
    } else if fb == 14 {
        if 0 <= ff <= 3 {
            Some(117 + ff)
        } else if 12 <= ff <= 15 {
            Some(121 + (ff - 12))
        } else {
            None
        }
    } else if fb == 15 {
        if 0 <= ff <= 4 {
            Some(125 + ff)
        } else if 12 <= ff <= 15 {
            Some(130 + (ff - 12))
        } else {
            None
        }
    } else if fb == 16 {
        if 0 <= ff <= 4 {
            Some(134 + ff)
        } else if 12 <= ff <= 15 {
            Some(139 + (ff - 12))
        } else {
            None
        }
    } else if fb == 17 {
        if 0 <= ff <= 3 {
            Some(143 + ff)
        } else if 12 <= ff <= 15 {
            Some(147 + (ff - 12))
        } else {
            None
        }
    } else if fb == 18 {
        if 0 <= ff <= 4 {
            Some(151 + ff)
        } else if 12 <= ff <= 15 {
            Some(156 + (ff - 12))
        } else {
            None
        }
    } else if fb == 19 {
        if 0 <= ff <= 3 {
            Some(160 + ff)
        } else if 12 <= ff <= 15 {
            Some(164 + (ff - 12))
        } else {
            None
        }
    } else if fb == 20 {
        if 0 <= ff <= 4 {
            Some(168 + ff)
        } else if 12 <= ff <= 15 {
            Some(173 + (ff - 12))
        } else {
            None
        }
    } else if fb == 21 {
        if 0 <= ff <= 3 {
            Some(177 + ff)
        } else if 12 <= ff <= 15 {
            Some(181 + (ff - 12))
        } else {
            None
        }
    } else if fb == 22 {
        if 0 <= ff <= 4 {
            Some(185 + ff)
        } else if 12 <= ff <= 15 {
            Some(190 + (ff - 12))
        } else {
            None
        }
    } else if fb == 23 {
        if 0 <= ff <= 3 {
            Some(194 + ff)
        } else if 12 <= ff <= 15 {
            Some(198 + (ff - 12))
        } else {
            None
        }
    } else if fb == 24 {
        if 0 <= ff <= 3 {
            Some(202 + ff)
        } else if 12 <= ff <= 15 {
            Some(206 + (ff - 12))
        } else {
            None
        }
    } else if fb == 25 {
        if 0 <= ff <= 4 {
            Some(210 + ff)
        } else if 12 <= ff <= 15 {
            Some(215 + (ff - 12))
        } else {
            None
        }
    } else if fb == 26 {
        if 0 <= ff <= 3 {
            Some(219 + ff)
        } else if 12 <= ff <= 15 {
            Some(223 + (ff - 12))
        } else {
            None
        }
    } else if fb == 27 {
        if 0 <= ff <= 4 {
            Some(227 + ff)
        } else if 12 <= ff <= 15 {
            Some(232 + (ff - 12))
        } else {
            None
        }
    } else if fb == 28 {
        if 0 <= ff <= 3 {
            Some(236 + ff)
        } else if 12 <= ff <= 15 {
            Some(240 + (ff - 12))
        } else {
            None
        }
    } else if fb == 29 {
        if 0 <= ff <= 4 {
            Some(244 + ff)
        } else if 12 <= ff <= 15 {
            Some(249 + (ff - 12))
        } else {
            None
        }
    } else if fb == 30 {
        if 0 <= ff <= 3 {
            Some(253 + ff)
        } else if 12 <= ff <= 15 {
            Some(257 + (ff - 12))
        } else {
            None
        }
    } else if fb == 31 {
        if 0 <= ff <= 4 {
            Some(261 + ff)
        } else if 12 <= ff <= 15 {
            Some(266 + (ff - 12))
        } else {
            None
        }
    } else {
        None
    }
}

/// Maps a (function block, macrocell slot) coordinate to the device-global
/// index of the I/O pin bonded to it, or `None` when the coordinate is out
/// of range or the slot is unpopulated (buried).
pub open spec fn spec_slot_to_iob(device: XC2Device, fb: int, ff: int) -> Option<int> {
    match device {
        XC2Device::XC2C32 | XC2Device::XC2C32A => if 0 <= fb < 2 && 0 <= ff < 16 {
            Some(fb * 16 + ff)
        } else {
            None
        },
        XC2Device::XC2C64 | XC2Device::XC2C64A => if 0 <= fb < 4 && 0 <= ff < 16 {
            Some(fb * 16 + ff)
        } else {
            None
        },
        XC2Device::XC2C128 => spec_slot_to_iob_128(fb, ff),
        XC2Device::XC2C256 => spec_slot_to_iob_256(fb, ff),
        XC2Device::XC2C384 => if 0 <= fb < 24 {
            if 0 <= ff <= 4 {
                Some(10 * fb + ff)
            } else if 11 <= ff <= 15 {
                Some(10 * fb + 5 + (ff - 11))
            } else {
                None
            }
        } else {
            None
        },
        XC2Device::XC2C512 => spec_slot_to_iob_512(fb, ff),
    }
}

/// Maps the internal numbering scheme for I/O pins to a function block and
/// macrocell number.
pub fn iob_num_to_fb_ff_num(device: XC2Device, iob: u32) -> (r: Option<(u32, u32)>)
    ensures
        r is Some <==> spec_iob_to_slot(device, iob as int) is Some,
        r matches Some(p) ==> spec_iob_to_slot(device, iob as int) == Some((p.0 as int, p.1 as int)),
{
    match device {
        XC2Device::XC2C32 | XC2Device::XC2C32A => {
            if iob >= 32 {
                None
            } else {
                Some((iob / MCS_PER_FB as u32, iob % MCS_PER_FB as u32))
            }
        },
        XC2Device::XC2C64 | XC2Device::XC2C64A => {
            if iob >= 64 {
                None
            } else {
                Some((iob / MCS_PER_FB as u32, iob % MCS_PER_FB as u32))
            }
        },
        XC2Device::XC2C128 => {
            if iob <= 5 {
                Some((0, iob))
            } else if iob <= 11 {
                Some((0, iob - 6 + 10))
            } else if iob <= 17 {
                Some((1, iob - 12 + 0))
            } else if iob <= 23 {
                Some((1, iob - 18 + 10))
            } else if iob <= 30 {
                Some((2, iob - 24 + 0))
            } else if iob <= 36 {
                Some((2, iob - 31 + 10))
            } else if iob <= 43 {
                Some((3, iob - 37 + 0))
            } else if iob <= 49 {
                Some((3, iob - 44 + 10))
            } else if iob <= 56 {
                Some((4, iob - 50 + 0))
            } else if iob <= 62 {
                Some((4, iob - 57 + 10))
            } else if iob <= 68 {
                Some((5, iob - 63 + 0))
            } else if iob <= 74 {
                Some((5, iob - 69 + 10))
            } else if iob <= 81 {
                Some((6, iob - 75 + 0))
            } else if iob <= 87 {
                Some((6, iob - 82 + 10))
            } else if iob <= 93 {
                Some((7, iob - 88 + 0))
            } else if iob <= 99 {
                Some((7, iob - 94 + 10))
            } else {
                None
            }
        },
        XC2Device::XC2C256 => {
            if iob <= 5 {
                Some((0, iob))
            } else if iob <= 10 {
                Some((0, iob - 6 + 11))
            } else if iob <= 16 {
                Some((1, iob - 11 + 0))
            } else if iob <= 21 {
                Some((1, iob - 17 + 11))
            } else if iob <= 27 {
                Some((2, iob - 22 + 0))
            } else if iob <= 32 {
                Some((2, iob - 28 + 11))
            } else if iob <= 38 {
                Some((3, iob - 33 + 0))
            } else if iob <= 43 {
                Some((3, iob - 39 + 11))
            } else if iob <= 49 {
                Some((4, iob - 44 + 0))
            } else if iob <= 54 {
                Some((4, iob - 50 + 11))
            } else if iob <= 60 {
                Some((5, iob - 55 + 0))
            } else if iob <= 65 {
                Some((5, iob - 61 + 11))
            } else if iob <= 71 {
                Some((6, iob - 66 + 0))
            } else if iob <= 77 {
                Some((6, iob - 72 + 10))
            } else if iob <= 83 {
                Some((7, iob - 78 + 0))
            } else if iob <= 89 {
                Some((7, iob - 84 + 10))
            } else if iob <= 95 {
                Some((8, iob - 90 + 0))
            } else if iob <= 101 {
                Some((8, iob - 96 + 10))
            } else if iob <= 107 {
                Some((9, iob - 102 + 0))
            } else if iob <= 113 {
                Some((9, iob - 108 + 10))
            } else if iob <= 119 {
                Some((10, iob - 114 + 0))
            } else if iob <= 125 {
                Some((10, iob - 120 + 10))
            } else if iob <= 131 {
                Some((11, iob - 126 + 0))
            } else if iob <= 137 {
                Some((11, iob - 132 + 10))
            } else if iob <= 143 {
                Some((12, iob - 138 + 0))
            } else if iob <= 148 {
                Some((12, iob - 144 + 11))
            } else if iob <= 154 {
                Some((13, iob - 149 + 0))
            } else if iob <= 159 {
                Some((13, iob - 155 + 11))
            } else if iob <= 165 {
                Some((14, iob - 160 + 0))
            } else if iob <= 171 {
                Some((14, iob - 166 + 10))
            } else if iob <= 177 {
                Some((15, iob - 172 + 0))
            } else if iob <= 183 {
                Some((15, iob - 178 + 10))
            } else {
                None
            }
        },
        XC2Device::XC2C384 => {
            if iob >= 240 {
                None
            } else {
                let fb = iob / 10;
                let mut mc = iob % 10;
                if mc >= 5 {
                    mc = mc + 6;
                }
                Some((fb, mc))
            }
        },
        XC2Device::XC2C512 => {
            if iob <= 3 {
                Some((0, iob))
            } else if iob <= 7 {
                Some((0, iob - 4 + 12))
            } else if iob <= 11 {
                Some((1, iob - 8 + 0))
            } else if iob <= 15 {
                Some((1, iob - 12 + 12))
            } else if iob <= 20 {
                Some((2, iob - 16 + 0))
            } else if iob <= 24 {
                Some((2, iob - 21 + 12))
            } else if iob <= 28 {
                Some((3, iob - 25 + 0))
            } else if iob <= 32 {
                Some((3, iob - 29 + 12))
            } else if iob <= 37 {
                Some((4, iob - 33 + 0))
            } else if iob <= 41 {
                Some((4, iob - 38 + 12))
            } else if iob <= 45 {
                Some((5, iob - 42 + 0))
            } else if iob <= 49 {
                Some((5, iob - 46 + 12))
            } else if iob <= 54 {
                Some((6, iob - 50 + 0))
            } else if iob <= 58 {
                Some((6, iob - 55 + 12))
            } else if iob <= 62 {
                Some((7, iob - 59 + 0))
            } else if iob <= 66 {
                Some((7, iob - 63 + 12))
            } else if iob <= 70 {
                Some((8, iob - 67 + 0))
            } else if iob <= 74 {
                Some((8, iob - 71 + 12))
            } else if iob <= 78 {
                Some((9, iob - 75 + 0))
            } else if iob <= 82 {
                Some((9, iob - 79 + 12))
            } else if iob <= 86 {
                Some((10, iob - 83 + 0))
            } else if iob <= 90 {
                Some((10, iob - 87 + 12))
            } else if iob <= 95 {
                Some((11, iob - 91 + 0))
            } else if iob <= 99 {
                Some((11, iob - 96 + 12))
            } else if iob <= 103 {
                Some((12, iob - 100 + 0))
            } else if iob <= 107 {
                Some((12, iob - 104 + 12))
            } else if iob <= 112 {
                Some((13, iob - 108 + 0))
            } else if iob <= 116 {
                Some((13, iob - 113 + 12))
            } else if iob <= 120 {
                Some((14, iob - 117 + 0))
            } else if iob <= 124 {
                Some((14, iob - 121 + 12))
            } else if iob <= 129 {
                Some((15, iob - 125 + 0))
            } else if iob <= 133 {
                Some((15, iob - 130 + 12))
            } else if iob <= 138 {
                Some((16, iob - 134 + 0))
            } else if iob <= 142 {
                Some((16, iob - 139 + 12))
            } else if iob <= 146 {
                Some((17, iob - 143 + 0))
            } else if iob <= 150 {
                Some((17, iob - 147 + 12))
            } else if iob <= 155 {
                Some((18, iob - 151 + 0))
            } else if iob <= 159 {
                Some((18, iob - 156 + 12))
            } else if iob <= 163 {
                Some((19, iob - 160 + 0))
            } else if iob <= 167 {
                Some((19, iob - 164 + 12))
            } else if iob <= 172 {
                Some((20, iob - 168 + 0))
            } else if iob <= 176 {
                Some((20, iob - 173 + 12))
            } else if iob <= 180 {
                Some((21, iob - 177 + 0))
            } else if iob <= 184 {
                Some((21, iob - 181 + 12))
            } else if iob <= 189 {
                Some((22, iob - 185 + 0))
            } else if iob <= 193 {
                Some((22, iob - 190 + 12))
            } else if iob <= 197 {
                Some((23, iob - 194 + 0))
            } else if iob <= 201 {
                Some((23, iob - 198 + 12))
            } else if iob <= 205 {
                Some((24, iob - 202 + 0))
            } else if iob <= 209 {
                Some((24, iob - 206 + 12))
            } else if iob <= 214 {
                Some((25, iob - 210 + 0))
            } else if iob <= 218 {
                Some((25, iob - 215 + 12))
            } else if iob <= 222 {
                Some((26, iob - 219 + 0))
            } else if iob <= 226 {
                Some((26, iob - 223 + 12))
            } else if iob <= 231 {
                Some((27, iob - 227 + 0))
            } else if iob <= 235 {
                Some((27, iob - 232 + 12))
            } else if iob <= 239 {
                Some((28, iob - 236 + 0))
            } else if iob <= 243 {
                Some((28, iob - 240 + 12))
            } else if iob <= 248 {
                Some((29, iob - 244 + 0))
            } else if iob <= 252 {
                Some((29, iob - 249 + 12))
            } else if iob <= 256 {
                Some((30, iob - 253 + 0))
            } else if iob <= 260 {
                Some((30, iob - 257 + 12))
            } else if iob <= 265 {
                Some((31, iob - 261 + 0))
            } else if iob <= 269 {
                Some((31, iob - 266 + 12))
            } else {
                None
            }
        },
    }
}

/// Maps a function block and macrocell number to the internal numbering
/// scheme for I/O pins.
pub fn fb_ff_num_to_iob_num(device: XC2Device, fb: u32, ff: u32) -> (r: Option<u32>)
    ensures
        r is Some <==> spec_slot_to_iob(device, fb as int, ff as int) is Some,
        r matches Some(iob) ==> spec_slot_to_iob(device, fb as int, ff as int) == Some(iob as int),
{
    match device {
        XC2Device::XC2C32 | XC2Device::XC2C32A => {
            if fb >= 2 || ff >= MCS_PER_FB as u32 {
                None
            } else {
                Some(fb * MCS_PER_FB as u32 + ff)
            }
        },
        XC2Device::XC2C64 | XC2Device::XC2C64A => {
            if fb >= 4 || ff >= MCS_PER_FB as u32 {
                None
            } else {
                Some(fb * MCS_PER_FB as u32 + ff)
            }
        },
        XC2Device::XC2C128 => {
            if fb == 0 {
                if ff <= 5 {
                    Some(ff)
                } else if ff >= 10 && ff <= 15 {
                    Some(6 + (ff - 10))
                } else {
                    None
                }
            } else if fb == 1 {
                if ff <= 5 {
                    Some(12 + ff)
                } else if ff >= 10 && ff <= 15 {
                    Some(18 + (ff - 10))
                } else {
                    None
                }
            } else if fb == 2 {
                if ff <= 6 {
                    Some(24 + ff)
                } else if ff >= 10 && ff <= 15 {
                    Some(31 + (ff - 10))
                } else {
                    None
                }
            } else if fb == 3 {
                if ff <= 6 {
                    Some(37 + ff)
                } else if ff >= 10 && ff <= 15 {
                    Some(44 + (ff - 10))
                } else {
                    None
                }
            } else if fb == 4 {
                if ff <= 6 {
                    Some(50 + ff)
                } else if ff >= 10 && ff <= 15 {
                    Some(57 + (ff - 10))
                } else {
                    None
                }
            } else if fb == 5 {
                if ff <= 5 {
                    Some(63 + ff)
                } else if ff >= 10 && ff <= 15 {
                    Some(69 + (ff - 10))
                } else {
                    None
                }
            } else if fb == 6 {
                if ff <= 6 {
                    Some(75 + ff)
                } else if ff >= 10 && ff <= 15 {
                    Some(82 + (ff - 10))
                } else {
                    None
                }
            } else if fb == 7 {
                if ff <= 5 {
                    Some(88 + ff)
                } else if ff >= 10 && ff <= 15 {
                    Some(94 + (ff - 10))
                } else {
                    None
                }
            } else {
                None
            }
        },
        XC2Device::XC2C256 => {
            if fb == 0 {
                if ff <= 5 {
                    Some(ff)
                } else if ff >= 11 && ff <= 15 {
                    Some(6 + (ff - 11))
                } else {
                    None
                }
            } else if fb == 1 {
                if ff <= 5 {
                    Some(11 + ff)
                } else if ff >= 11 && ff <= 15 {
                    Some(17 + (ff - 11))
                } else {
                    None
                }
            } else if fb == 2 {
                if ff <= 5 {
                    Some(22 + ff)
                } else if ff >= 11 && ff <= 15 {
                    Some(28 + (ff - 11))
                } else {
                    None
                }
            } else if fb == 3 {
                if ff <= 5 {
                    Some(33 + ff)
                } else if ff >= 11 && ff <= 15 {
                    Some(39 + (ff - 11))
                } else {
                    None
                }
            } else if fb == 4 {
                if ff <= 5 {
                    Some(44 + ff)
                } else if ff >= 11 && ff <= 15 {
                    Some(50 + (ff - 11))
                } else {
                    None
                }
            } else if fb == 5 {
                if ff <= 5 {
                    Some(55 + ff)
                } else if ff >= 11 && ff <= 15 {
                    Some(61 + (ff - 11))
                } else {
                    None
                }
            } else if fb == 6 {
                if ff <= 5 {
                    Some(66 + ff)
                } else if ff >= 10 && ff <= 15 {
                    Some(72 + (ff - 10))
                } else {
                    None
                }
            } else if fb == 7 {
                if ff <= 5 {
                    Some(78 + ff)
                } else if ff >= 10 && ff <= 15 {
                    Some(84 + (ff - 10))
                } else {
                    None
                }
            } else if fb == 8 {
                if ff <= 5 {
                    Some(90 + ff)
                } else if ff >= 10 && ff <= 15 {
                    Some(96 + (ff - 10))
                } else {
                    None
                }
            } else if fb == 9 {
                if ff <= 5 {
                    Some(102 + ff)
                } else if ff >= 10 && ff <= 15 {
                    Some(108 + (ff - 10))
                } else {
                    None
                }
            } else if fb == 10 {
                if ff <= 5 {
                    Some(114 + ff)
                } else if ff >= 10 && ff <= 15 {
                    Some(120 + (ff - 10))
                } else {
                    None
                }
            } else if fb == 11 {
                if ff <= 5 {
                    Some(126 + ff)
                } else if ff >= 10 && ff <= 15 {
                    Some(132 + (ff - 10))
                } else {
                    None
                }
            } else if fb == 12 {
                if ff <= 5 {
                    Some(138 + ff)
                } else if ff >= 11 && ff <= 15 {
                    Some(144 + (ff - 11))
                } else {
                    None
                }
            } else if fb == 13 {
                if ff <= 5 {
                    Some(149 + ff)
                } else if ff >= 11 && ff <= 15 {
                    Some(155 + (ff - 11))
                } else {
                    None
                }
            } else if fb == 14 {
                if ff <= 5 {
                    Some(160 + ff)
                } else if ff >= 10 && ff <= 15 {
                    Some(166 + (ff - 10))
                } else {
                    None
                }
            } else if fb == 15 {
                if ff <= 5 {
                    Some(172 + ff)
                } else if ff >= 10 && ff <= 15 {
                    Some(178 + (ff - 10))
                } else {
                    None
                }
            } else {
                None
            }
        },
        XC2Device::XC2C384 => {
            if fb >= 24 {
                None
            } else if ff <= 4 {
                Some(10 * fb + ff)
            } else if ff >= 11 && ff <= 15 {
                Some(10 * fb + 5 + (ff - 11))
            } else {
                None
            }
        },
        XC2Device::XC2C512 => {
            if fb == 0 {
                if ff <= 3 {
                    Some(ff)
                } else if ff >= 12 && ff <= 15 {
                    Some(4 + (ff - 12))
                } else {
                    None
                }
            } else if fb == 1 {
                if ff <= 3 {
                    Some(8 + ff)
                } else if ff >= 12 && ff <= 15 {
                    Some(12 + (ff - 12))
                } else {
                    None
                }
            } else if fb == 2 {
                if ff <= 4 {
                    Some(16 + ff)
                } else if ff >= 12 && ff <= 15 {
                    Some(21 + (ff - 12))
                } else {
                    None
                }
            } else if fb == 3 {
                if ff <= 3 {
                    Some(25 + ff)
                } else if ff >= 12 && ff <= 15 {
                    Some(29 + (ff - 12))
                } else {
                    None
                }
            } else if fb == 4 {
                if ff <= 4 {
                    Some(33 + ff)
                } else if ff >= 12 && ff <= 15 {
                    Some(38 + (ff - 12))
                } else {
                    None
                }
            } else if fb == 5 {
                if ff <= 3 {
                    Some(42 + ff)
                } else if ff >= 12 && ff <= 15 {
                    Some(46 + (ff - 12))
                } else {
                    None
                }
            } else if fb == 6 {
                if ff <= 4 {
                    Some(50 + ff)
                } else if ff >= 12 && ff <= 15 {
                    Some(55 + (ff - 12))
                } else {
                    None
                }
            } else if fb == 7 {
                if ff <= 3 {
                    Some(59 + ff)
                } else if ff >= 12 && ff <= 15 {
                    Some(63 + (ff - 12))
                } else {
                    None
                }
            } else if fb == 8 {
                if ff <= 3 {
                    Some(67 + ff)
                } else if ff >= 12 && ff <= 15 {
                    Some(71 + (ff - 12))
                } else {
                    None
                }
            } else if fb == 9 {
                if ff <= 3 {
                    Some(75 + ff)
                } else if ff >= 12 && ff <= 15 {
                    Some(79 + (ff - 12))
                } else {
                    None
                }
            } else if fb == 10 {
                if ff <= 3 {
                    Some(83 + ff)
                } else if ff >= 12 && ff <= 15 {
                    Some(87 + (ff - 12))
                } else {
                    None
                }
            } else if fb == 11 {
                if ff <= 4 {
                    Some(91 + ff)
                } else if ff >= 12 && ff <= 15 {
                    Some(96 + (ff - 12))
                } else {
                    None
                }
            } else if fb == 12 {
                if ff <= 3 {
                    Some(100 + ff)
                } else if ff >= 12 && ff <= 15 {
                    Some(104 + (ff - 12))
                } else {
                    None
                }
            } else if fb == 13 {
                if ff <= 4 {
                    Some(108 + ff)
                } else if ff >= 12 && ff <= 15 {
                    Some(113 + (ff - 12))
                } else {
                    None
                }
            } else if fb == 14 {
                if ff <= 3 {
                    Some(117 + ff)
                } else if ff >= 12 && ff <= 15 {
                    Some(121 + (ff - 12))
                } else {
                    None
                }
            } else if fb == 15 {
                if ff <= 4 {
                    Some(125 + ff)
                } else if ff >= 12 && ff <= 15 {
                    Some(130 + (ff - 12))
                } else {
                    None
                }
            } else if fb == 16 {
                if ff <= 4 {
                    Some(134 + ff)
                } else if ff >= 12 && ff <= 15 {
                    Some(139 + (ff - 12))
                } else {
                    None
                }
            } else if fb == 17 {
                if ff <= 3 {
                    Some(143 + ff)
                } else if ff >= 12 && ff <= 15 {
                    Some(147 + (ff - 12))
                } else {
                    None
                }
            } else if fb == 18 {
                if ff <= 4 {
                    Some(151 + ff)
                } else if ff >= 12 && ff <= 15 {
                    Some(156 + (ff - 12))
                } else {
                    None
                }
            } else if fb == 19 {
                if ff <= 3 {
                    Some(160 + ff)
                } else if ff >= 12 && ff <= 15 {
                    Some(164 + (ff - 12))
                } else {
                    None
                }
            } else if fb == 20 {
                if ff <= 4 {
                    Some(168 + ff)
                } else if ff >= 12 && ff <= 15 {
                    Some(173 + (ff - 12))
                } else {
                    None
                }
            } else if fb == 21 {
                if ff <= 3 {
                    Some(177 + ff)
                } else if ff >= 12 && ff <= 15 {
                    Some(181 + (ff - 12))
                } else {
                    None
                }
            } else if fb == 22 {
                if ff <= 4 {
                    Some(185 + ff)
                } else if ff >= 12 && ff <= 15 {
                    Some(190 + (ff - 12))
                } else {
                    None
                }
            } else if fb == 23 {
                if ff <= 3 {
                    Some(194 + ff)
                } else if ff >= 12 && ff <= 15 {
                    Some(198 + (ff - 12))
                } else {
                    None
                }
            } else if fb == 24 {
                if ff <= 3 {
                    Some(202 + ff)
                } else if ff >= 12 && ff <= 15 {
                    Some(206 + (ff - 12))
                } else {
                    None
                }
            } else if fb == 25 {
                if ff <= 4 {
                    Some(210 + ff)
                } else if ff >= 12 && ff <= 15 {
                    Some(215 + (ff - 12))
                } else {
                    None
                }
            } else if fb == 26 {
                if ff <= 3 {
                    Some(219 + ff)
                } else if ff >= 12 && ff <= 15 {
                    Some(223 + (ff - 12))
                } else {
                    None
                }
            } else if fb == 27 {
                if ff <= 4 {
                    Some(227 + ff)
                } else if ff >= 12 && ff <= 15 {
                    Some(232 + (ff - 12))
                } else {
                    None
                }
            } else if fb == 28 {
                if ff <= 3 {
                    Some(236 + ff)
                } else if ff >= 12 && ff <= 15 {
                    Some(240 + (ff - 12))
                } else {
                    None
                }
            } else if fb == 29 {
                if ff <= 4 {
                    Some(244 + ff)
                } else if ff >= 12 && ff <= 15 {
                    Some(249 + (ff - 12))
                } else {
                    None
                }
            } else if fb == 30 {
                if ff <= 3 {
                    Some(253 + ff)
                } else if ff >= 12 && ff <= 15 {
                    Some(257 + (ff - 12))
                } else {
                    None
                }
            } else if fb == 31 {
                if ff <= 4 {
                    Some(261 + ff)
                } else if ff >= 12 && ff <= 15 {
                    Some(266 + (ff - 12))
                } else {
                    None
                }
            } else {
                None
            }
        },
    }
}

/// A pin index maps to a slot exactly when it lies below the device's
/// total I/O pin count.
pub proof fn lemma_iob_to_slot_some(device: XC2Device, iob: int)
    ensures
        spec_iob_to_slot(device, iob) is Some <==> 0 <= iob < device.spec_num_iobs(),
{
}

/// Every slot that the pin-index mapping produces is a coordinate in range:
/// the function block exists on the device and the slot is one of the 16.
pub proof fn lemma_iob_to_slot_in_range(device: XC2Device, iob: int)
    requires
        spec_iob_to_slot(device, iob) is Some,
    ensures
        spec_iob_to_slot(device, iob) matches Some(slot) ==> 0 <= slot.0
            < device.spec_num_fbs() && 0 <= slot.1 < 16,
{
}

/// Mapping a valid pin index to its slot and back returns the same index.
pub proof fn lemma_pin_slot_roundtrip(device: XC2Device, iob: int)
    requires
        spec_iob_to_slot(device, iob) is Some,
    ensures
        spec_iob_to_slot(device, iob) matches Some(slot) ==> spec_slot_to_iob(
            device,
            slot.0,
            slot.1,
        ) == Some(iob),
{
}

/// Mapping a populated slot to its pin index and back returns the same
/// slot; for an unpopulated or out-of-range slot the mapping has already
/// returned `None`.
pub proof fn lemma_slot_pin_roundtrip(device: XC2Device, fb: int, ff: int)
    requires
        spec_slot_to_iob(device, fb, ff) is Some,
    ensures
        spec_slot_to_iob(device, fb, ff) matches Some(iob) ==> spec_iob_to_slot(device, iob)
            == Some((fb, ff)),
        spec_slot_to_iob(device, fb, ff) matches Some(iob) ==> 0 <= iob
            < device.spec_num_iobs(),
{
}

/// The set of pin indices that the mapping accepts.
pub open spec fn spec_pin_index_set(device: XC2Device) -> Set<int> {
    Set::new(|p: int| spec_iob_to_slot(device, p) is Some)
}

/// Exhaustive pin count: the number of pin indices that map to a slot is
/// exactly the device's total I/O pin count.
pub proof fn lemma_pin_count(device: XC2Device)
    ensures
        spec_pin_index_set(device).finite(),
        spec_pin_index_set(device).len() == device.spec_num_iobs(),
{
    let n = device.spec_num_iobs();
    assert(spec_pin_index_set(device) =~= vstd::set_lib::set_int_range(0, n)) by {
        assert forall|p: int| #[trigger] spec_iob_to_slot(device, p) is Some <==> 0 <= p < n by {
            lemma_iob_to_slot_some(device, p);
        }
    }
    vstd::set_lib::lemma_int_range(0, n);
}

} // verus!
