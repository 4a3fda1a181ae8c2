//! The bitmap serializer: from a device bitmap descriptor, its color table
//! and its copied pixel rows to a self-contained bitmap file byte stream
//! (file header, info header, color table, pixel data), every integer field
//! little-endian.

use vstd::prelude::*;
use crate::bytes::u16_le;
use crate::bytes::u32_le;
use crate::bytes::i32_le;
use crate::bytes::push_u16_le;
use crate::bytes::push_u32_le;
use crate::bytes::push_i32_le;
use crate::bytes::push_bytes;
use crate::depth::class_of;
use crate::depth::palette_entries;
use crate::depth::color_depth_class;
use crate::depth::palette_entry_count;
use crate::layout::image_size;
use crate::layout::image_byte_size;
use crate::layout::lemma_row_padding;

verus! {

/// Descriptor of a device bitmap as reported by its source: dimensions,
/// color plane count and raw bit depth. The pixel buffer size is not given
/// directly; it is derived from these fields.
#[derive(Clone, Copy, Debug, PartialEq, Eq, Structural)]
pub struct DeviceBitmap {
    /// Width in pixels.
    pub width: i32,
    /// Height in pixels; the sign may encode top-down versus bottom-up row
    /// order and is preserved in the emitted header.
    pub height: i32,
    /// Color plane count, almost always 1.
    pub planes: u16,
    /// Raw bit depth reported by the source.
    pub bits_per_pixel: u16,
}

/// Why a bitmap could not be serialized. All of these surface to the caller
/// as "no bitmap available".
#[derive(Clone, Copy, Debug, PartialEq, Eq, Structural)]
pub enum BitmapError {
    /// The descriptor could not be read, or holds dimensions no bitmap has.
    DescriptorReadError,
    /// The palette or pixel bytes handed over do not match the sizes the
    /// descriptor demands: the row copy did not deliver what was asked.
    PixelCopyError,
    /// The image is too large for the format's 32-bit size fields or for a
    /// buffer to hold it.
    AllocationError,
}

/// Raw bit count of a descriptor: planes times bits per pixel.
pub open spec fn raw_bits(desc: DeviceBitmap) -> int {
    desc.planes * desc.bits_per_pixel
}

/// Color depth class the descriptor's pixels are stored at in the file.
pub open spec fn desc_class(desc: DeviceBitmap) -> int {
    class_of(raw_bits(desc))
}

/// Byte length of the color table the file carries for this descriptor.
pub open spec fn desc_palette_bytes(desc: DeviceBitmap) -> int {
    4 * palette_entries(desc_class(desc))
}

/// Magnitude of the descriptor's height: the row count, whichever row order
/// the sign of `height` encodes.
pub open spec fn abs_height(desc: DeviceBitmap) -> int {
    if desc.height < 0 {
        -(desc.height as int)
    } else {
        desc.height as int
    }
}

/// Byte length of the file's pixel section for this descriptor.
pub open spec fn desc_image_size(desc: DeviceBitmap) -> int {
    image_size(desc.width as int, abs_height(desc), desc_class(desc))
}

/// Total byte length of the serialized file: 14-byte file header, 40-byte
/// info header, color table, pixel section.
pub open spec fn desc_file_size(desc: DeviceBitmap) -> int {
    54 + desc_palette_bytes(desc) + desc_image_size(desc)
}

/// Whether serialization succeeds: the dimensions are non-negative, the whole
/// file fits the format's 32-bit size fields, and the palette and pixel
/// buffers are exactly the sizes the descriptor demands.
pub open spec fn serialize_ok(desc: DeviceBitmap, palette: Seq<u8>, pixels: Seq<u8>) -> bool {
    &&& desc.width >= 0
    &&& desc_file_size(desc) <= u32::MAX
    &&& palette.len() == desc_palette_bytes(desc)
    &&& pixels.len() == desc_image_size(desc)
}

/// The 14-byte file header: magic "BM", total file size, two reserved
/// 16-bit zero fields, offset of the pixel data from the start of the file.
pub open spec fn file_header_bytes(desc: DeviceBitmap) -> Seq<u8> {
    seq![0x42u8, 0x4du8] + u32_le(desc_file_size(desc) as u32) + u16_le(0) + u16_le(0) + u32_le(
        (54 + desc_palette_bytes(desc)) as u32,
    )
}

/// The 40-byte info header: its own size, signed dimensions, planes, bit
/// count (the class), no compression, pixel section size, no resolution
/// hints, colors used (the palette entry count), no colors marked important.
pub open spec fn info_header_bytes(desc: DeviceBitmap) -> Seq<u8> {
    u32_le(40) + i32_le(desc.width) + i32_le(desc.height) + u16_le(desc.planes) + u16_le(
        desc_class(desc) as u16,
    ) + u32_le(0) + u32_le(desc_image_size(desc) as u32) + i32_le(0) + i32_le(0) + u32_le(
        palette_entries(desc_class(desc)) as u32,
    ) + u32_le(0)
}

/// The whole serialized file: file header, info header, color table bytes in
/// the order given, pixel bytes in the order given.
pub open spec fn serialized(desc: DeviceBitmap, palette: Seq<u8>, pixels: Seq<u8>) -> Seq<u8> {
    file_header_bytes(desc) + info_header_bytes(desc) + palette + pixels
}

/// Whenever serialization succeeds, the stream is exactly as long as the
/// file size it declares (headers, palette and pixels and nothing else), it
/// opens with the magic bytes "BM" followed by the little-endian file size,
/// and the palette and pixel bytes stand unchanged after the two fixed
/// headers, the pixel section at the declared offset.
pub proof fn lemma_serialized_layout(desc: DeviceBitmap, palette: Seq<u8>, pixels: Seq<u8>)
    requires
        serialize_ok(desc, palette, pixels),
    ensures
        serialized(desc, palette, pixels).len() == desc_file_size(desc),
        serialized(desc, palette, pixels).len() == 54 + palette.len() + pixels.len(),
        serialized(desc, palette, pixels)[0] == 0x42u8,
        serialized(desc, palette, pixels)[1] == 0x4du8,
        serialized(desc, palette, pixels).subrange(2, 6) == u32_le(desc_file_size(desc) as u32),
        serialized(desc, palette, pixels).subrange(54, 54 + palette.len() as int) == palette,
        serialized(desc, palette, pixels).subrange(
            54 + palette.len() as int,
            desc_file_size(desc) as int,
        ) == pixels,
{
    let s = serialized(desc, palette, pixels);
    let fh = file_header_bytes(desc);
    let ih = info_header_bytes(desc);
    assert(fh.len() == 14);
    assert(ih.len() == 40);
    assert(s.subrange(2, 6) =~= u32_le(desc_file_size(desc) as u32));
    assert(s.subrange(54, 54 + palette.len() as int) =~= palette);
    assert(s.subrange(54 + palette.len() as int, s.len() as int) =~= pixels);
}

/// Serializes a device bitmap into a standalone bitmap file byte stream.
///
/// `palette` must hold the color table exactly as queried from the source
/// (4 bytes per entry: blue, green, red, reserved) and `pixels` the
/// row-padded pixel rows copied from it; both are emitted unchanged. Fails
/// with `DescriptorReadError` on negative dimensions, `AllocationError` when
/// the file would not fit its own 32-bit size fields, and `PixelCopyError`
/// when the buffers do not match the sizes the descriptor demands.
#[verifier::rlimit(50)]
pub fn serialize_bitmap(desc: &DeviceBitmap, palette: &Vec<u8>, pixels: &Vec<u8>) -> (r: Result<
    Vec<u8>,
    BitmapError,
>)
    ensures
        r is Ok <==> serialize_ok(*desc, palette@, pixels@),
        r matches Ok(out) ==> out@ == serialized(*desc, palette@, pixels@),
        desc.width < 0 ==> (r matches Err(e) && e is DescriptorReadError),
        desc.width >= 0 && desc_file_size(*desc) > u32::MAX ==> (r matches Err(
            e,
        ) && e is AllocationError),
        desc.width >= 0 && desc_file_size(*desc) <= u32::MAX && !(palette@.len()
            == desc_palette_bytes(*desc) && pixels@.len() == desc_image_size(*desc)) ==> (r matches
        Err(e) && e is PixelCopyError),
{
    if desc.width < 0 {
        return Err(BitmapError::DescriptorReadError);
    }
    let h_abs: u32 = if desc.height < 0 {
        (-(desc.height as i64)) as u32
    } else {
        desc.height as u32
    };
    proof {
        assert(h_abs == abs_height(*desc));
        vstd::arithmetic::mul::lemma_mul_upper_bound(
            desc.planes as int,
            u16::MAX as int,
            desc.bits_per_pixel as int,
            u16::MAX as int,
        );
    }
    let raw: u32 = (desc.planes as u32) * (desc.bits_per_pixel as u32);
    let class: u32 = color_depth_class(raw);
    let pal_entries: u32 = palette_entry_count(class);
    let pal_bytes: u64 = (pal_entries as u64) * 4;
    proof {
        lemma_row_padding(desc.width as int, abs_height(*desc), desc_class(*desc));
    }
    let img: u64 = match image_byte_size(desc.width as u32, h_abs, class) {
        Some(v) => v,
        None => {
            return Err(BitmapError::AllocationError);
        },
    };
    let total: u64 = match (54 + pal_bytes).checked_add(img) {
        Some(v) => v,
        None => {
            return Err(BitmapError::AllocationError);
        },
    };
    if total > 0xffff_ffff {
        return Err(BitmapError::AllocationError);
    }
    if palette.len() as u64 != pal_bytes || pixels.len() as u64 != img {
        return Err(BitmapError::PixelCopyError);
    }
    let mut out: Vec<u8> = Vec::new();
    out.push(0x42);
    out.push(0x4d);
    push_u32_le(&mut out, total as u32);
    push_u16_le(&mut out, 0);
    push_u16_le(&mut out, 0);
    push_u32_le(&mut out, (54 + pal_bytes) as u32);
    push_u32_le(&mut out, 40);
    push_i32_le(&mut out, desc.width);
    push_i32_le(&mut out, desc.height);
    push_u16_le(&mut out, desc.planes);
    push_u16_le(&mut out, class as u16);
    push_u32_le(&mut out, 0);
    push_u32_le(&mut out, img as u32);
    push_i32_le(&mut out, 0);
    push_i32_le(&mut out, 0);
    push_u32_le(&mut out, pal_entries);
    push_u32_le(&mut out, 0);
    push_bytes(&mut out, palette);
    push_bytes(&mut out, pixels);
    proof {
        assert(out@ =~= serialized(*desc, palette@, pixels@));
    }
    Ok(out)
}

} // verus!
