//! Color depth classification: the canonical bit-per-pixel classes a bitmap
//! file may be stored at, and the palette size each class demands.

use vstd::prelude::*;

verus! {

/// Whether `c` is one of the canonical color depth classes.
pub open spec fn is_depth_class(c: int) -> bool {
    c == 1 || c == 4 || c == 8 || c == 16 || c == 24 || c == 32
}

/// The color depth class of a raw bit count: the smallest canonical class
/// that is at least `raw_bits`, and 32 for anything above 24.
pub open spec fn class_of(raw_bits: int) -> int {
    if raw_bits <= 1 {
        1
    } else if raw_bits <= 4 {
        4
    } else if raw_bits <= 8 {
        8
    } else if raw_bits <= 16 {
        16
    } else if raw_bits <= 24 {
        24
    } else {
        32
    }
}

/// The class of a raw bit count between 1 and 32 is the smallest canonical
/// class that is greater than or equal to it, and any raw bit count above 24
/// is classed as 32.
pub proof fn lemma_class_is_smallest(raw_bits: int)
    requires
        1 <= raw_bits <= 32,
    ensures
        is_depth_class(class_of(raw_bits)),
        class_of(raw_bits) >= raw_bits,
        forall|c: int| is_depth_class(c) && c >= raw_bits ==> class_of(raw_bits) <= c,
        raw_bits > 24 ==> class_of(raw_bits) == 32,
{
}

/// Number of palette (color table) entries a class demands: `2^class` below
/// 24 bits, none at or above.
pub open spec fn palette_entries(class: int) -> int {
    if class < 24 {
        pow2_int(class)
    } else {
        0
    }
}

/// `2^e` for small non-negative exponents.
pub open spec fn pow2_int(e: int) -> int
    decreases e,
{
    if e <= 0 {
        1
    } else {
        2 * pow2_int(e - 1)
    }
}

/// Maps the raw bit count reported by a bitmap source (planes times bits per
/// pixel) to its color depth class.
pub fn color_depth_class(raw_bits: u32) -> (r: u32)
    ensures
        r == class_of(raw_bits as int),
{
    if raw_bits <= 1 {
        1
    } else if raw_bits <= 4 {
        4
    } else if raw_bits <= 8 {
        8
    } else if raw_bits <= 16 {
        16
    } else if raw_bits <= 24 {
        24
    } else {
        32
    }
}

/// Number of 4-byte color table entries that precede the pixel data for a
/// given color depth class.
pub fn palette_entry_count(class: u32) -> (r: u32)
    requires
        is_depth_class(class as int),
    ensures
        r == palette_entries(class as int),
{
    if class == 1 {
        proof {
            reveal_with_fuel(pow2_int, 2);
        }
        2
    } else if class == 4 {
        proof {
            reveal_with_fuel(pow2_int, 5);
        }
        16
    } else if class == 8 {
        proof {
            reveal_with_fuel(pow2_int, 9);
        }
        256
    } else if class == 16 {
        proof {
            reveal_with_fuel(pow2_int, 17);
        }
        65536
    } else {
        0
    }
}

} // verus!
