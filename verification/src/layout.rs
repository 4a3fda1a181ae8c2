//! Row-padding arithmetic: every pixel row of a bitmap file is padded to a
//! 4-byte boundary, and the pixel section's byte size follows from that.

use vstd::prelude::*;
use vstd::arithmetic::div_mod::lemma_fundamental_div_mod;
use vstd::arithmetic::div_mod::lemma_div_pos_is_pos;
use vstd::arithmetic::mul::lemma_mul_upper_bound;
use crate::depth::is_depth_class;

verus! {

/// Byte length of one padded pixel row: the row's bit count, rounded up to
/// the next 32-bit boundary, in bytes.
pub open spec fn row_size(width: int, class: int) -> int {
    ((width * class + 31) / 32) * 4
}

/// Byte length of the whole pixel section: one padded row per pixel row.
pub open spec fn image_size(width: int, height: int, class: int) -> int {
    row_size(width, class) * height
}

/// The padded row is a multiple of 4 bytes, it is the smallest one whose bits
/// hold a full row of pixels, and the pixel section is one such row per pixel
/// row.
pub proof fn lemma_row_padding(width: int, height: int, class: int)
    requires
        width >= 0,
        height >= 0,
        class >= 1,
    ensures
        row_size(width, class) % 4 == 0,
        row_size(width, class) * 8 >= width * class,
        row_size(width, class) * 8 < width * class + 32,
        image_size(width, height, class) == row_size(width, class) * height,
        image_size(width, height, class) >= 0,
        width == 0 || height == 0 ==> image_size(width, height, class) == 0,
{
    let bits = width * class;
    assert(width * class >= 0) by (nonlinear_arith)
        requires
            width >= 0,
            class >= 1,
    ;
    let q = (bits + 31) / 32;
    lemma_fundamental_div_mod(bits + 31, 32);
    lemma_div_pos_is_pos(bits + 31, 32);
    assert(q * 4 % 4 == 0) by (nonlinear_arith);
    assert(q * 4 * 8 == 32 * q) by (nonlinear_arith);
    assert(row_size(width, class) * height >= 0) by (nonlinear_arith)
        requires
            row_size(width, class) >= 0,
            height >= 0,
    ;
    if width == 0 {
        assert(width * class == 0) by (nonlinear_arith)
            requires
                width == 0,
        ;
        assert(q == 0);
        assert(row_size(width, class) * height == 0) by (nonlinear_arith)
            requires
                row_size(width, class) == 0,
        ;
    }
    if height == 0 {
        assert(row_size(width, class) * height == 0) by (nonlinear_arith)
            requires
                height == 0,
        ;
    }
}

/// Clearing the low five bits of a value rounds it down to a multiple of 32;
/// rounding a bit count up by adding 31 first and then converting to bytes
/// agrees with the quotient form used in `row_size`.
proof fn lemma_mask_rounds(b: u64)
    ensures
        (b & !31u64) / 8 == (b / 32) * 4,
{
    assert((b & !31u64) / 8 == (b / 32) * 4) by (bit_vector);
}

/// Byte size of the pixel section for the given dimensions and color depth
/// class, exactly as the bitmap file format demands: the row's bit count is
/// rounded up to a 32-bit boundary with a mask and converted to bytes, then
/// multiplied by the row count. Returns `None` exactly when the total does
/// not fit in a `u64`.
pub fn image_byte_size(width: u32, height: u32, class: u32) -> (r: Option<u64>)
    requires
        is_depth_class(class as int),
    ensures
        image_size(width as int, height as int, class as int) <= u64::MAX ==> r == Some(
            image_size(width as int, height as int, class as int) as u64,
        ),
        image_size(width as int, height as int, class as int) > u64::MAX ==> r is None,
{
    proof {
        lemma_mul_upper_bound(width as int, u32::MAX as int, class as int, 32);
    }
    let row_bits: u64 = (width as u64) * (class as u64);
    let padded_bits: u64 = (row_bits + 31) & !31u64;
    let row_bytes: u64 = padded_bits / 8;
    proof {
        lemma_mask_rounds((row_bits + 31) as u64);
        assert(row_bytes == row_size(width as int, class as int));
    }
    row_bytes.checked_mul(height as u64)
}

} // verus!
