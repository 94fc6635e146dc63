//! The tile-atlas builder.
//!
//! A source image is subdivided into `dimension` by `dimension` square
//! tiles arranged in `columns = width / dimension` columns and
//! `rows = height / dimension` rows; tile `(row, column)` becomes layer
//! `row * columns + column` of a layered texture. The library decodes the
//! image and slices the layers; uploading them to the graphics device is
//! the renderer's business.

use vstd::arithmetic::div_mod::{
    lemma_fundamental_div_mod, lemma_fundamental_div_mod_converse,
    lemma_mod_division_less_than_divisor,
};
use vstd::arithmetic::mul::lemma_mul_inequality;
use vstd::prelude::*;

verus! {

/// A decoded image: RGBA, four bytes per pixel, rows top to bottom, each
/// row left to right.
pub struct AtlasImage {
    pub width: u32,
    pub height: u32,
    pub pixels: Vec<u8>,
}

impl AtlasImage {
    /// The pixel buffer covers the image exactly.
    pub open spec fn wf(self) -> bool {
        self.pixels@.len() == 4 * self.width * self.height
    }
}

/// What decoding an encoded image yields: `None` for bytes no image
/// format accepts, otherwise the width, the height and the RGBA pixel
/// buffer. Decoding depends on the encoded bytes alone.
pub uninterp spec fn decoded_rgba(bytes: Seq<u8>) -> Option<(u32, u32, Seq<u8>)>;

/// Relies on `image::load_from_memory` and
/// `image::DynamicImage::to_rgba8`: decoding either fails or yields an
/// RGBA buffer of exactly `4 * width * height` bytes, and depends on the
/// encoded bytes alone.
#[verifier::external_body]
fn decode_rgba(bytes: &Vec<u8>) -> (r: Option<AtlasImage>)
    ensures
        r is Some <==> decoded_rgba(bytes@) is Some,
        r is Some ==> (r->Some_0.width, r->Some_0.height, r->Some_0.pixels@) == decoded_rgba(
            bytes@,
        )->Some_0,
        r is Some ==> r->Some_0.wf(),
{
    match image::load_from_memory(bytes.as_slice()) {
        Ok(decoded) => {
            let rgba = decoded.to_rgba8();
            let width = rgba.width();
            let height = rgba.height();
            let pixels = rgba.into_raw();
            Some(AtlasImage { width, height, pixels })
        },
        Err(_) => None,
    }
}

/// The bytes of pixel row `r` of the `d`-wide tile whose upper-left pixel
/// is `(x0, y0)`.
pub open spec fn tile_row_bytes(
    pixels: Seq<u8>,
    width: int,
    x0: int,
    y0: int,
    d: int,
    r: int,
) -> Seq<u8> {
    pixels.subrange(4 * ((y0 + r) * width + x0), 4 * ((y0 + r) * width + x0) + 4 * d)
}

/// The first `nrows` pixel rows of the tile at `(x0, y0)`, concatenated.
pub open spec fn tile_bytes_upto(
    pixels: Seq<u8>,
    width: int,
    x0: int,
    y0: int,
    d: int,
    nrows: int,
) -> Seq<u8>
    decreases nrows,
{
    if nrows <= 0 {
        Seq::empty()
    } else {
        tile_bytes_upto(pixels, width, x0, y0, d, nrows - 1) + tile_row_bytes(
            pixels,
            width,
            x0,
            y0,
            d,
            nrows - 1,
        )
    }
}

/// The RGBA bytes of the `d` by `d` tile whose upper-left pixel is
/// `(x0, y0)`.
pub open spec fn tile_bytes(pixels: Seq<u8>, width: int, x0: int, y0: int, d: int) -> Seq<u8> {
    tile_bytes_upto(pixels, width, x0, y0, d, d)
}

/// Start and end of every tile row lie inside the pixel buffer.
proof fn lemma_tile_row_in_image(width: int, height: int, x0: int, y0: int, d: int, r: int)
    requires
        0 <= x0,
        0 <= y0,
        1 <= d,
        0 <= r < d,
        x0 + d <= width,
        y0 + d <= height,
    ensures
        0 <= 4 * ((y0 + r) * width + x0),
        4 * ((y0 + r) * width + x0) + 4 * d <= 4 * width * height,
{
    assert(0 <= 4 * ((y0 + r) * width + x0) && 4 * ((y0 + r) * width + x0) + 4 * d <= 4 * width
        * height) by (nonlinear_arith)
        requires
            0 <= x0,
            0 <= y0,
            1 <= d,
            0 <= r < d,
            x0 + d <= width,
            y0 + d <= height,
    ;
}

/// A full tile holds `4 * d * d` bytes.
pub proof fn lemma_tile_bytes_len(
    pixels: Seq<u8>,
    width: int,
    height: int,
    x0: int,
    y0: int,
    d: int,
)
    requires
        pixels.len() == 4 * width * height,
        0 <= x0,
        0 <= y0,
        1 <= d,
        x0 + d <= width,
        y0 + d <= height,
    ensures
        tile_bytes(pixels, width, x0, y0, d).len() == 4 * d * d,
{
    lemma_tile_bytes_upto_len(pixels, width, height, x0, y0, d, d);
}

proof fn lemma_tile_bytes_upto_len(
    pixels: Seq<u8>,
    width: int,
    height: int,
    x0: int,
    y0: int,
    d: int,
    nrows: int,
)
    requires
        pixels.len() == 4 * width * height,
        0 <= x0,
        0 <= y0,
        1 <= d,
        0 <= nrows <= d,
        x0 + d <= width,
        y0 + d <= height,
    ensures
        tile_bytes_upto(pixels, width, x0, y0, d, nrows).len() == 4 * d * nrows,
    decreases nrows,
{
    if nrows > 0 {
        lemma_tile_bytes_upto_len(pixels, width, height, x0, y0, d, nrows - 1);
        lemma_tile_row_in_image(width, height, x0, y0, d, nrows - 1);
        assert(tile_row_bytes(pixels, width, x0, y0, d, nrows - 1).len() == 4 * d);
        assert(tile_bytes_upto(pixels, width, x0, y0, d, nrows).len() == 4 * d * (nrows - 1) + 4
            * d);
        assert(4 * d * (nrows - 1) + 4 * d == 4 * d * nrows) by (nonlinear_arith);
    } else {
        assert(4 * d * nrows == 0) by (nonlinear_arith)
            requires
                nrows == 0,
        ;
    }
}

/// Extracts the `dimension` by `dimension` sub-image whose upper-left
/// pixel is `(x0, y0)`, as raw RGBA bytes.
pub fn extract_tile(image: &AtlasImage, x0: u32, y0: u32, dimension: u32) -> (tile: Vec<u8>)
    requires
        image.wf(),
        dimension >= 1,
        x0 + dimension <= image.width,
        y0 + dimension <= image.height,
    ensures
        tile@ == tile_bytes(
            image.pixels@,
            image.width as int,
            x0 as int,
            y0 as int,
            dimension as int,
        ),
        tile@.len() == 4 * dimension * dimension,
{
    let buffer_len = image.pixels.len();
    assert(buffer_len == 4 * image.width * image.height);
    let mut tile: Vec<u8> = Vec::new();
    let mut r: u32 = 0;
    while r < dimension
        invariant
            image.wf(),
            buffer_len == image.pixels@.len(),
            dimension >= 1,
            x0 + dimension <= image.width,
            y0 + dimension <= image.height,
            r <= dimension,
            tile@ == tile_bytes_upto(
                image.pixels@,
                image.width as int,
                x0 as int,
                y0 as int,
                dimension as int,
                r as int,
            ),
        decreases dimension - r,
    {
        proof {
            lemma_tile_row_in_image(
                image.width as int,
                image.height as int,
                x0 as int,
                y0 as int,
                dimension as int,
                r as int,
            );
        }
        let row = (y0 + r) as usize;
        let start = 4 * (row * (image.width as usize) + (x0 as usize));
        let row_bytes = 4 * (dimension as usize);
        let mut j: usize = 0;
        while j < row_bytes
            invariant
                image.wf(),
                buffer_len == image.pixels@.len(),
                dimension >= 1,
                x0 + dimension <= image.width,
                y0 + dimension <= image.height,
                r < dimension,
                row == y0 + r,
                start == 4 * ((y0 + r) * image.width + x0),
                row_bytes == 4 * dimension,
                start + row_bytes <= image.pixels@.len(),
                j <= row_bytes,
                tile@ == tile_bytes_upto(
                    image.pixels@,
                    image.width as int,
                    x0 as int,
                    y0 as int,
                    dimension as int,
                    r as int,
                ) + image.pixels@.subrange(start as int, start as int + j as int),
            decreases row_bytes - j,
        {
            let byte = image.pixels[start + j];
            tile.push(byte);
            j = j + 1;
            assert(tile@ =~= tile_bytes_upto(
                image.pixels@,
                image.width as int,
                x0 as int,
                y0 as int,
                dimension as int,
                r as int,
            ) + image.pixels@.subrange(start as int, start as int + j as int));
        }
        r = r + 1;
        assert(tile@ =~= tile_bytes_upto(
            image.pixels@,
            image.width as int,
            x0 as int,
            y0 as int,
            dimension as int,
            r as int,
        ));
    }
    proof {
        lemma_tile_bytes_len(
            image.pixels@,
            image.width as int,
            image.height as int,
            x0 as int,
            y0 as int,
            dimension as int,
        );
    }
    tile
}

/// Tiles per atlas row.
pub open spec fn atlas_columns(width: int, dimension: int) -> int {
    width / dimension
}

/// Atlas rows.
pub open spec fn atlas_rows(height: int, dimension: int) -> int {
    height / dimension
}

/// The layer the tile at `(row, column)` becomes.
pub open spec fn layer_index(row: int, column: int, columns: int) -> int {
    row * columns + column
}

/// Layer `row * columns + column` holds the tile at `(row, column)`.
pub open spec fn layers_match_image(
    layers: Seq<Vec<u8>>,
    pixels: Seq<u8>,
    width: int,
    dimension: int,
    rows: int,
    columns: int,
) -> bool {
    forall|row: int, column: int|
        0 <= row < rows && 0 <= column < columns ==> (#[trigger] layers[layer_index(
            row,
            column,
            columns,
        )])@ == tile_bytes(pixels, width, column * dimension, row * dimension, dimension)
}

proof fn lemma_layer_index_bound(row: int, column: int, rows: int, columns: int)
    requires
        0 <= row < rows,
        0 <= column < columns,
    ensures
        0 <= layer_index(row, column, columns) < rows * columns,
        layer_index(row, column, columns) < row * columns + columns,
{
    assert(0 <= row * columns + column < rows * columns && row * columns + column < row * columns
        + columns) by (nonlinear_arith)
        requires
            0 <= row < rows,
            0 <= column < columns,
    ;
}

/// Slices the image into `dimension` by `dimension` tiles: the returned
/// layers hold, in layer `row * columns + column`, the raw RGBA bytes of
/// the tile at `(row, column)`. Pixels beyond the last full tile column
/// or row are dropped.
pub fn slice_tiles(image: &AtlasImage, dimension: u32) -> (layers: Vec<Vec<u8>>)
    requires
        image.wf(),
        dimension >= 1,
    ensures
        layers@.len() == atlas_rows(image.height as int, dimension as int) * atlas_columns(
            image.width as int,
            dimension as int,
        ),
        layers_match_image(
            layers@,
            image.pixels@,
            image.width as int,
            dimension as int,
            atlas_rows(image.height as int, dimension as int),
            atlas_columns(image.width as int, dimension as int),
        ),
{
    let columns = image.width / dimension;
    let rows = image.height / dimension;
    proof {
        lemma_fundamental_div_mod(image.width as int, dimension as int);
        lemma_mod_division_less_than_divisor(image.width as int, dimension as int);
        lemma_fundamental_div_mod(image.height as int, dimension as int);
        lemma_mod_division_less_than_divisor(image.height as int, dimension as int);
        assert(columns * dimension <= image.width) by (nonlinear_arith)
            requires
                image.width == dimension * columns + (image.width as int % dimension as int),
                0 <= (image.width as int % dimension as int),
        ;
        assert(rows * dimension <= image.height) by (nonlinear_arith)
            requires
                image.height == dimension * rows + (image.height as int % dimension as int),
                0 <= (image.height as int % dimension as int),
        ;
    }
    let mut layers: Vec<Vec<u8>> = Vec::new();
    let mut row: u32 = 0;
    while row < rows
        invariant
            image.wf(),
            dimension >= 1,
            columns == atlas_columns(image.width as int, dimension as int),
            rows == atlas_rows(image.height as int, dimension as int),
            columns * dimension <= image.width,
            rows * dimension <= image.height,
            row <= rows,
            layers@.len() == row * columns,
            flat_layers_sliced(layers@, image.pixels@, image.width as int, dimension as int, columns as int),
        decreases rows - row,
    {
        let mut column: u32 = 0;
        while column < columns
            invariant
                image.wf(),
                dimension >= 1,
                columns == atlas_columns(image.width as int, dimension as int),
                rows == atlas_rows(image.height as int, dimension as int),
                columns * dimension <= image.width,
                rows * dimension <= image.height,
                row < rows,
                column <= columns,
                layers@.len() == row * columns + column,
                flat_layers_sliced(layers@, image.pixels@, image.width as int, dimension as int, columns as int),
            decreases columns - column,
        {
            proof {
                lemma_mul_inequality(column as int + 1, columns as int, dimension as int);
                lemma_mul_inequality(row as int + 1, rows as int, dimension as int);
                assert((column + 1) * dimension == column * dimension + dimension)
                    by (nonlinear_arith);
                assert((row + 1) * dimension == row * dimension + dimension) by (nonlinear_arith);
            }
            let x0 = column * dimension;
            let y0 = row * dimension;
            let tile = extract_tile(image, x0, y0, dimension);
            layers.push(tile);
            column = column + 1;
            proof {
                lemma_fundamental_div_mod_converse(
                    layers@.len() - 1,
                    columns as int,
                    row as int,
                    column as int - 1,
                );
                assert forall|t: int| 0 <= t < layers@.len() implies (#[trigger] layers@[t])@
                    == tile_bytes(
                    image.pixels@,
                    image.width as int,
                    (t % columns as int) * dimension,
                    (t / columns as int) * dimension,
                    dimension as int,
                ) by {}
            }
        }
        row = row + 1;
        proof {
            assert(layers@.len() == row * columns) by (nonlinear_arith)
                requires
                    layers@.len() == (row - 1) * columns + columns,
            ;
        }
    }
    proof {
        assert forall|r: int, c: int|
            0 <= r < rows as int && 0 <= c < columns as int implies (#[trigger] layers@[
        layer_index(r, c, columns as int)])@ == tile_bytes(
            image.pixels@,
            image.width as int,
            c * dimension,
            r * dimension,
            dimension as int,
        ) by {
            lemma_layer_index_bound(r, c, rows as int, columns as int);
            lemma_fundamental_div_mod_converse(layer_index(r, c, columns as int), columns as int, r, c);
        }
    }
    layers
}

/// Every layer already produced holds the tile its flat index addresses:
/// layer `t` is the tile in atlas column `t % columns`, atlas row
/// `t / columns`.
pub open spec fn flat_layers_sliced(
    layers: Seq<Vec<u8>>,
    pixels: Seq<u8>,
    width: int,
    dimension: int,
    columns: int,
) -> bool {
    forall|t: int|
        0 <= t < layers.len() ==> (#[trigger] layers[t])@ == tile_bytes(
            pixels,
            width,
            (t % columns) * dimension,
            (t / columns) * dimension,
            dimension,
        )
}

/// The fatal startup error: the atlas image could not be decoded.
#[derive(Clone, Copy, PartialEq, Eq, Structural, Debug)]
pub struct ResourceLoadError;

/// A sliced tile atlas, ready to upload: `layers[row * columns + column]`
/// holds the raw RGBA bytes of tile `(row, column)` of the source image.
pub struct TileAtlas {
    pub dimension: u32,
    pub columns: u32,
    pub rows: u32,
    pub layers: Vec<Vec<u8>>,
}

/// Decodes an encoded image and slices it into a tile atlas. Fails
/// exactly when the bytes decode as no supported image format.
pub fn build_tile_atlas(bytes: &Vec<u8>, dimension: u32) -> (r: Result<
    TileAtlas,
    ResourceLoadError,
>)
    requires
        dimension >= 1,
    ensures
        r is Ok <==> decoded_rgba(bytes@) is Some,
        r is Ok ==> ({
            let (width, height, pixels) = decoded_rgba(bytes@)->Some_0;
            let atlas = r->Ok_0;
            &&& atlas.dimension == dimension
            &&& atlas.columns == atlas_columns(width as int, dimension as int)
            &&& atlas.rows == atlas_rows(height as int, dimension as int)
            &&& atlas.layers@.len() == atlas.rows * atlas.columns
            &&& layers_match_image(
                atlas.layers@,
                pixels,
                width as int,
                dimension as int,
                atlas.rows as int,
                atlas.columns as int,
            )
        }),
{
    match decode_rgba(bytes) {
        None => Err(ResourceLoadError),
        Some(image) => {
            let columns = image.width / dimension;
            let rows = image.height / dimension;
            let layers = slice_tiles(&image, dimension);
            Ok(TileAtlas { dimension, columns, rows, layers })
        },
    }
}

} // verus!
