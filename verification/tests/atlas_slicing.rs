//! Tests of atlas slicing and of building an atlas from an encoded image.

use voxel_world::atlas::{build_tile_atlas, extract_tile, slice_tiles, AtlasImage};

/// An image whose pixel `(x, y)` is the RGBA quadruple
/// `(x, y, x + y, 255)`, each channel truncated to a byte.
fn coordinate_image(width: u32, height: u32) -> AtlasImage {
    let mut pixels = Vec::new();
    for y in 0..height {
        for x in 0..width {
            pixels.push(x as u8);
            pixels.push(y as u8);
            pixels.push((x + y) as u8);
            pixels.push(255);
        }
    }
    AtlasImage { width, height, pixels }
}

#[test]
fn extract_tile_copies_the_sub_rectangle() {
    // A 4x2 image whose byte i holds the value i.
    let pixels: Vec<u8> = (0..32).collect();
    let image = AtlasImage { width: 4, height: 2, pixels };
    let tile = extract_tile(&image, 2, 0, 2);
    let mut expected: Vec<u8> = (8..16).collect();
    expected.extend(24..32);
    assert_eq!(tile, expected);
}

#[test]
fn slice_tiles_orders_layers_row_major() {
    let pixels: Vec<u8> = (0..32).collect();
    let image = AtlasImage { width: 4, height: 2, pixels };
    let layers = slice_tiles(&image, 2);
    assert_eq!(layers.len(), 2);
    let mut layer0: Vec<u8> = (0..8).collect();
    layer0.extend(16..24);
    let mut layer1: Vec<u8> = (8..16).collect();
    layer1.extend(24..32);
    assert_eq!(layers[0], layer0);
    assert_eq!(layers[1], layer1);
}

#[test]
fn slicing_a_256_square_image_at_dimension_16_yields_256_layers() {
    let image = coordinate_image(256, 256);
    let layers = slice_tiles(&image, 16);
    assert_eq!(layers.len(), 256);
    for row in 0..16u32 {
        for column in 0..16u32 {
            let layer = &layers[(row * 16 + column) as usize];
            assert_eq!(layer.len(), 4 * 16 * 16);
            // The layer's upper-left pixel is the source pixel at
            // (column * 16, row * 16).
            assert_eq!(layer[0], (column * 16) as u8);
            assert_eq!(layer[1], (row * 16) as u8);
            assert_eq!(layer[2], (column * 16 + row * 16) as u8);
            assert_eq!(layer[3], 255);
        }
    }
}

#[test]
fn dropping_partial_tiles_at_the_edges() {
    // 5x3 at dimension 2: only a 2x1 grid of full tiles fits.
    let image = coordinate_image(5, 3);
    let layers = slice_tiles(&image, 2);
    assert_eq!(layers.len(), 2);
}

#[test]
fn atlas_from_encoded_image_round_trips_the_pixels() {
    let mut rgba = image::RgbaImage::new(8, 8);
    for y in 0..8u32 {
        for x in 0..8u32 {
            *rgba.get_pixel_mut(x, y) = image::Rgba([x as u8, y as u8, (x * y) as u8, 255]);
        }
    }
    let mut bytes: Vec<u8> = Vec::new();
    image::DynamicImage::ImageRgba8(rgba)
        .write_to(&mut std::io::Cursor::new(&mut bytes), image::ImageOutputFormat::Png)
        .expect("encoding a PNG in memory cannot fail");

    let atlas = build_tile_atlas(&bytes, 4).expect("a valid PNG decodes");
    assert_eq!(atlas.dimension, 4);
    assert_eq!(atlas.columns, 2);
    assert_eq!(atlas.rows, 2);
    assert_eq!(atlas.layers.len(), 4);
    for row in 0..2u32 {
        for column in 0..2u32 {
            let layer = &atlas.layers[(row * 2 + column) as usize];
            assert_eq!(layer.len(), 4 * 4 * 4);
            for ty in 0..4u32 {
                for tx in 0..4u32 {
                    let (x, y) = (column * 4 + tx, row * 4 + ty);
                    let at = (4 * (ty * 4 + tx)) as usize;
                    assert_eq!(layer[at], x as u8);
                    assert_eq!(layer[at + 1], y as u8);
                    assert_eq!(layer[at + 2], (x * y) as u8);
                    assert_eq!(layer[at + 3], 255);
                }
            }
        }
    }
}

#[test]
fn undecodable_bytes_fail_atlas_construction() {
    let bytes = vec![7, 7, 7, 7];
    assert!(build_tile_atlas(&bytes, 16).is_err());
}
