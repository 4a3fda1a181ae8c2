use clipbridge::depth::color_depth_class;
use clipbridge::depth::palette_entry_count;
use clipbridge::layout::image_byte_size;
use clipbridge::bytes::zero_buffer;
use clipbridge::serialize::serialize_bitmap;
use clipbridge::serialize::BitmapError;
use clipbridge::serialize::DeviceBitmap;

fn u32_at(bytes: &[u8], off: usize) -> u32 {
    (bytes[off] as u32)
        | ((bytes[off + 1] as u32) << 8)
        | ((bytes[off + 2] as u32) << 16)
        | ((bytes[off + 3] as u32) << 24)
}

fn u16_at(bytes: &[u8], off: usize) -> u16 {
    (bytes[off] as u16) | ((bytes[off + 1] as u16) << 8)
}

#[test]
fn class_is_smallest_class_at_least_raw_bits() {
    let classes = [1u32, 4, 8, 16, 24, 32];
    for raw in 1u32..=32 {
        let class = color_depth_class(raw);
        assert!(classes.contains(&class));
        assert!(class >= raw);
        for c in classes {
            if c >= raw {
                assert!(class <= c);
            }
        }
    }
    for raw in 25u32..=64 {
        assert_eq!(color_depth_class(raw), 32);
    }
}

#[test]
fn class_boundaries() {
    assert_eq!(color_depth_class(0), 1);
    assert_eq!(color_depth_class(1), 1);
    assert_eq!(color_depth_class(2), 4);
    assert_eq!(color_depth_class(4), 4);
    assert_eq!(color_depth_class(5), 8);
    assert_eq!(color_depth_class(8), 8);
    assert_eq!(color_depth_class(9), 16);
    assert_eq!(color_depth_class(16), 16);
    assert_eq!(color_depth_class(17), 24);
    assert_eq!(color_depth_class(24), 24);
    assert_eq!(color_depth_class(25), 32);
    assert_eq!(color_depth_class(32), 32);
}

#[test]
fn palette_counts_per_class() {
    assert_eq!(palette_entry_count(1), 2);
    assert_eq!(palette_entry_count(4), 16);
    assert_eq!(palette_entry_count(8), 256);
    assert_eq!(palette_entry_count(16), 65536);
    assert_eq!(palette_entry_count(24), 0);
    assert_eq!(palette_entry_count(32), 0);
}

#[test]
fn image_byte_size_hand_computed() {
    // 10 pixels at 1 bit: 10 bits round up to 32 bits, 4 bytes per row.
    assert_eq!(image_byte_size(10, 1, 1), Some(4));
    // 3 pixels at 24 bits: 72 bits round up to 96, 12 bytes per row, 2 rows.
    assert_eq!(image_byte_size(3, 2, 24), Some(24));
    // 2 pixels at 32 bits: exactly 64 bits, 8 bytes per row.
    assert_eq!(image_byte_size(2, 2, 32), Some(16));
    assert_eq!(image_byte_size(0, 5, 24), Some(0));
    assert_eq!(image_byte_size(5, 0, 24), Some(0));
    assert_eq!(image_byte_size(0, 0, 1), Some(0));
}

#[test]
fn round_trip_two_by_two_red() {
    let desc = DeviceBitmap { width: 2, height: 2, planes: 1, bits_per_pixel: 24 };
    // Two rows of two red pixels (blue, green, red), each row padded from 6
    // to 8 bytes.
    let row: Vec<u8> = vec![0, 0, 255, 0, 0, 255, 0, 0];
    let mut pixels: Vec<u8> = Vec::new();
    pixels.extend_from_slice(&row);
    pixels.extend_from_slice(&row);
    let palette: Vec<u8> = Vec::new();
    let out = serialize_bitmap(&desc, &palette, &pixels).unwrap();

    assert_eq!(out.len(), 14 + 40 + 0 + 16);
    assert_eq!(out[0], 0x42);
    assert_eq!(out[1], 0x4D);
    // Declared file size, reserved fields, pixel data offset.
    assert_eq!(u32_at(&out, 2), 14 + 40 + 0 + 16);
    assert_eq!(u16_at(&out, 6), 0);
    assert_eq!(u16_at(&out, 8), 0);
    assert_eq!(u32_at(&out, 10), 54);
    // Info header: size, dimensions, planes, bit count, compression,
    // image size, resolution, colors used, colors important.
    assert_eq!(u32_at(&out, 14), 40);
    assert_eq!(u32_at(&out, 18), 2);
    assert_eq!(u32_at(&out, 22), 2);
    assert_eq!(u16_at(&out, 26), 1);
    assert_eq!(u16_at(&out, 28), 24);
    assert_eq!(u32_at(&out, 30), 0);
    assert_eq!(u32_at(&out, 34), 16);
    assert_eq!(u32_at(&out, 38), 0);
    assert_eq!(u32_at(&out, 42), 0);
    assert_eq!(u32_at(&out, 46), 0);
    assert_eq!(u32_at(&out, 50), 0);
    // The pixel section, reinterpreted as BGR triples with the row padding
    // stripped, is four identical red pixels.
    let section = &out[54..];
    assert_eq!(section, &pixels[..]);
    let mut pixel_count = 0;
    for r in 0..2 {
        for p in 0..2 {
            let base = r * 8 + p * 3;
            assert_eq!(&section[base..base + 3], &[0, 0, 255]);
            pixel_count += 1;
        }
    }
    assert_eq!(pixel_count, 4);
}

#[test]
fn zero_dimensions_header_only() {
    // A 24-bit zero-dimension bitmap needs no palette: the stream is the two
    // headers and nothing else.
    let desc = DeviceBitmap { width: 0, height: 0, planes: 1, bits_per_pixel: 24 };
    let out = serialize_bitmap(&desc, &Vec::new(), &Vec::new()).unwrap();
    assert_eq!(out.len(), 14 + 40);
    assert_eq!(u32_at(&out, 2), 54);
    assert_eq!(u32_at(&out, 34), 0);
}

#[test]
fn zero_raw_bits_takes_monochrome_branch() {
    // A raw bit count of 0 classes as 1 (monochrome), so even a
    // zero-dimension bitmap carries a 2-entry palette.
    assert_eq!(color_depth_class(0), 1);
    let desc = DeviceBitmap { width: 0, height: 0, planes: 0, bits_per_pixel: 0 };
    let palette: Vec<u8> = vec![0, 0, 0, 0, 255, 255, 255, 0];
    let out = serialize_bitmap(&desc, &palette, &Vec::new()).unwrap();
    assert_eq!(out.len(), 14 + 40 + 8);
    assert_eq!(u16_at(&out, 28), 1);
    assert_eq!(u32_at(&out, 46), 2);
    assert_eq!(&out[54..62], &palette[..]);
}

#[test]
fn monochrome_palette_sized_stream() {
    // 1 bit per pixel: 2 palette entries, one 4-byte row for 10 pixels.
    let desc = DeviceBitmap { width: 10, height: 1, planes: 1, bits_per_pixel: 1 };
    let palette: Vec<u8> = vec![0, 0, 0, 0, 255, 255, 255, 0];
    let pixels: Vec<u8> = vec![0b1010_0000, 0, 0, 0];
    let out = serialize_bitmap(&desc, &palette, &pixels).unwrap();
    assert_eq!(out.len(), 54 + 8 + 4);
    assert_eq!(u32_at(&out, 10), 54 + 8);
    assert_eq!(u16_at(&out, 28), 1);
    assert_eq!(u32_at(&out, 46), 2);
    assert_eq!(&out[54..62], &palette[..]);
    assert_eq!(&out[62..], &pixels[..]);
}

#[test]
fn four_bit_palette_has_sixteen_entries() {
    let desc = DeviceBitmap { width: 1, height: 1, planes: 1, bits_per_pixel: 4 };
    let palette: Vec<u8> = vec![7; 64];
    let pixels: Vec<u8> = vec![0, 0, 0, 0];
    let out = serialize_bitmap(&desc, &palette, &pixels).unwrap();
    assert_eq!(out.len(), 54 + 64 + 4);
    assert_eq!(u32_at(&out, 46), 16);
    assert_eq!(&out[54..118], &palette[..]);
}

#[test]
fn negative_height_is_preserved_in_header() {
    // Top-down orientation: the height keeps its sign in the info header and
    // the size computation uses its magnitude.
    let desc = DeviceBitmap { width: 2, height: -2, planes: 1, bits_per_pixel: 24 };
    let pixels = zero_buffer(16);
    let out = serialize_bitmap(&desc, &Vec::new(), &pixels).unwrap();
    assert_eq!(out.len(), 54 + 16);
    assert_eq!(u32_at(&out, 22), (-2i32) as u32);
    assert_eq!(u32_at(&out, 34), 16);
}

#[test]
fn negative_width_is_a_descriptor_error() {
    let desc = DeviceBitmap { width: -1, height: 1, planes: 1, bits_per_pixel: 24 };
    let r = serialize_bitmap(&desc, &Vec::new(), &Vec::new());
    assert_eq!(r, Err(BitmapError::DescriptorReadError));
}

#[test]
fn mismatched_pixel_buffer_is_a_copy_error() {
    let desc = DeviceBitmap { width: 2, height: 2, planes: 1, bits_per_pixel: 24 };
    let short = zero_buffer(15);
    let r = serialize_bitmap(&desc, &Vec::new(), &short);
    assert_eq!(r, Err(BitmapError::PixelCopyError));
}

#[test]
fn mismatched_palette_is_a_copy_error() {
    let desc = DeviceBitmap { width: 10, height: 1, planes: 1, bits_per_pixel: 1 };
    let pixels = zero_buffer(4);
    let r = serialize_bitmap(&desc, &Vec::new(), &pixels);
    assert_eq!(r, Err(BitmapError::PixelCopyError));
}

#[test]
fn oversized_image_is_an_allocation_error() {
    let desc = DeviceBitmap { width: i32::MAX, height: i32::MAX, planes: 1, bits_per_pixel: 32 };
    let r = serialize_bitmap(&desc, &Vec::new(), &Vec::new());
    assert_eq!(r, Err(BitmapError::AllocationError));
}

#[test]
fn golden_stream_two_by_two_red() {
    let desc = DeviceBitmap { width: 2, height: 2, planes: 1, bits_per_pixel: 24 };
    let pixels: Vec<u8> = vec![
        0, 0, 255, 0, 0, 255, 0, 0, //
        0, 0, 255, 0, 0, 255, 0, 0,
    ];
    let out = serialize_bitmap(&desc, &Vec::new(), &pixels).unwrap();
    let expected: Vec<u8> = vec![
        0x42, 0x4D, // magic
        70, 0, 0, 0, // file size
        0, 0, 0, 0, // reserved
        54, 0, 0, 0, // pixel data offset
        40, 0, 0, 0, // info header size
        2, 0, 0, 0, // width
        2, 0, 0, 0, // height
        1, 0, // planes
        24, 0, // bit count
        0, 0, 0, 0, // compression
        16, 0, 0, 0, // image byte size
        0, 0, 0, 0, // horizontal resolution
        0, 0, 0, 0, // vertical resolution
        0, 0, 0, 0, // colors used
        0, 0, 0, 0, // colors important
        0, 0, 255, 0, 0, 255, 0, 0, // first pixel row, padded
        0, 0, 255, 0, 0, 255, 0, 0, // second pixel row, padded
    ];
    assert_eq!(out, expected);
}
