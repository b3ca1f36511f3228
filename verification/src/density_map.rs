//! Density maps: one byte of foliage density per texel, stored row by row
//! (`map[y][x]`).

use vstd::prelude::*;
use crate::image::{grid_is_rectangular, grid_width, ImageFormat, ImageView, RawImage};
use crate::png_format::{png_gray8_decode, Gray8Image};

verus! {

/// Why a density map could not be read from an image.
#[derive(Clone, Copy, Debug, PartialEq, Eq, Structural)]
pub enum DensityMapError {
    /// The image is not in one of the 8-bit formats a density map is read from.
    LoadingError,
}

/// A density map, `map[y][x]`.
pub type DensityMapU8 = Vec<Vec<u8>>;

/// The rows of a density map as sequences.
pub open spec fn density_rows(map: DensityMapU8) -> Seq<Seq<u8>> {
    map@.map_values(|row: Vec<u8>| row@)
}

/// The formats a density map is read from: four bytes per texel are assumed,
/// the first of them (red) is the density.
pub open spec fn is_density_format(format: ImageFormat) -> bool {
    ||| format == ImageFormat::Rgba8Uint
    ||| format == ImageFormat::R8Uint
    ||| format == ImageFormat::Rgba8Unorm
    ||| format == ImageFormat::Rgba8UnormSrgb
}

/// Reading the image as a density map stays inside its bytes.
pub open spec fn density_image_readable(image: ImageView) -> bool {
    is_density_format(image.format) ==> image.width * image.height * 4 <= image.data.len()
}

/// Row `y` of the density map read from `image`: the red byte of each texel.
pub open spec fn density_row_of(image: ImageView, y: int) -> Seq<u8> {
    Seq::new(image.width as nat, |x: int| image.data[(y * image.width + x) * 4])
}

/// The density map read from `image`, or `None` where its format is refused.
pub open spec fn density_rows_of(image: ImageView) -> Option<Seq<Seq<u8>>> {
    if is_density_format(image.format) {
        Some(Seq::new(image.height as nat, |y: int| density_row_of(image, y)))
    } else {
        None
    }
}

/// The four bytes of a gray texel: the value in red, green and blue, then an
/// opaque alpha.
pub open spec fn gray_texel(value: u8) -> Seq<u8> {
    seq![value, value, value, 255u8]
}

/// The texels of one row, four bytes each.
pub open spec fn gray_row_bytes(row: Seq<u8>) -> Seq<u8>
    decreases row.len(),
{
    if row.len() == 0 {
        Seq::empty()
    } else {
        gray_row_bytes(row.drop_last()) + gray_texel(row.last())
    }
}

/// The texels of all rows, row after row.
pub open spec fn gray_rows_bytes(rows: Seq<Seq<u8>>) -> Seq<u8>
    decreases rows.len(),
{
    if rows.len() == 0 {
        Seq::empty()
    } else {
        gray_rows_bytes(rows.drop_last()) + gray_row_bytes(rows.last())
    }
}

/// The image of a density map: as wide as its first row, one row of texels
/// per map row, in sRGB RGBA8.
pub open spec fn density_image_of(rows: Seq<Seq<u8>>) -> ImageView {
    ImageView {
        width: grid_width(rows) as u32,
        height: rows.len() as u32,
        format: ImageFormat::Rgba8UnormSrgb,
        data: gray_rows_bytes(rows),
    }
}

/// The buffer that `to_image` reserves, height times width times four
/// bytes, fits in a `usize`.
pub open spec fn density_image_size_fits(rows: Seq<Seq<u8>>) -> bool {
    rows.len() * grid_width(rows) * 4 <= usize::MAX
}

/// The error that the `png` encoder reports.
#[verifier::external_type_specification]
#[verifier::external_body]
pub struct ExPngEncodingError(png::EncodingError);

/// Why a density map could not be encoded as a PNG file.
#[derive(Clone, Copy, Debug, PartialEq, Eq, Structural)]
pub enum PngEncodeError {
    /// The encoder refused the map: a side of length zero, or rows that do
    /// not hold width times height densities in all.
    EncodingFailed,
}

/// The densities of all rows, row after row.
pub open spec fn flatten_rows(rows: Seq<Seq<u8>>) -> Seq<u8>
    decreases rows.len(),
{
    if rows.len() == 0 {
        Seq::empty()
    } else {
        flatten_rows(rows.drop_last()) + rows.last()
    }
}

/// The bytes of the 8-bit grayscale PNG file that the `png` crate writes for
/// `pixels`, a `width` by `height` image stored row after row.
pub uninterp spec fn png_gray8_encoding(width: u32, height: u32, pixels: Seq<u8>) -> Seq<u8>;

/// The PNG encoder's row buffers, `width + 1` bytes each, fit in a `usize`.
pub open spec fn png_buffer_fits(width: u32, height: u32) -> bool {
    (width + 1) * height <= usize::MAX
}

/// The PNG size of a density map: as wide as its first row, as high as its
/// row count.
pub open spec fn density_png_size(rows: Seq<Seq<u8>>) -> (u32, u32) {
    (grid_width(rows) as u32, rows.len() as u32)
}

/// The image is as wide as the first row and as high as the row count, and
/// its sample at `(x, y)` is `rows[y][x]`.
pub open spec fn png_image_holds_rows(image: Gray8Image, rows: Seq<Seq<u8>>) -> bool {
    &&& image.width == grid_width(rows)
    &&& image.height == rows.len()
    &&& image.samples.len() == rows.len() * grid_width(rows)
    &&& forall|y: int, x: int|
        0 <= y < rows.len() && 0 <= x < grid_width(rows) ==> #[trigger] image.samples[y
            * grid_width(rows) + x] == rows[y][x]
}

/// Byte `y * width + x` of the flattened rows of a grid whose rows all have
/// `width` entries is entry `(x, y)`.
proof fn lemma_flatten_rows_index(rows: Seq<Seq<u8>>, width: nat, y: int, x: int)
    requires
        forall|j: int| 0 <= j < rows.len() ==> #[trigger] rows[j].len() == width,
        0 <= y < rows.len(),
        0 <= x < width,
    ensures
        flatten_rows(rows)[y * width + x] == rows[y][x],
    decreases rows.len(),
{
    let n = rows.len() - 1;
    lemma_flatten_rows_len(rows.drop_last(), width);
    if y < n {
        assert(y * width + x < n * width) by (nonlinear_arith)
            requires
                y < n,
                x < width,
        ;
        lemma_flatten_rows_index(rows.drop_last(), width, y, x);
    } else {
        assert(y * width + x - n * width == x) by (nonlinear_arith)
            requires
                y == n,
        ;
    }
}

/// The flattened rows of a grid whose rows all have `width` entries hold
/// `width` entries per row.
proof fn lemma_flatten_rows_len(rows: Seq<Seq<u8>>, width: nat)
    requires
        forall|j: int| 0 <= j < rows.len() ==> #[trigger] rows[j].len() == width,
    ensures
        flatten_rows(rows).len() == rows.len() * width,
    decreases rows.len(),
{
    if rows.len() > 0 {
        lemma_flatten_rows_len(rows.drop_last(), width);
        assert((rows.len() - 1) * width + width == rows.len() * width) by (nonlinear_arith);
    }
}

/// A rectangular map whose densities fill a PNG of its sizes taken as `u32`
/// has sizes that fit in a `u32`.
proof fn lemma_png_size_exact(rows: Seq<Seq<u8>>)
    requires
        grid_is_rectangular(rows),
        density_png_size(rows).0 > 0,
        density_png_size(rows).1 > 0,
        flatten_rows(rows).len() == density_png_size(rows).0 * density_png_size(rows).1,
    ensures
        rows.len() <= u32::MAX,
        grid_width(rows) <= u32::MAX,
{
    let width = grid_width(rows);
    let height = rows.len();
    assert forall|j: int| 0 <= j < rows.len() implies #[trigger] rows[j].len() == width by {}
    lemma_flatten_rows_len(rows, width);
    let w32 = density_png_size(rows).0 as nat;
    let h32 = density_png_size(rows).1 as nat;
    if height > u32::MAX || width > u32::MAX {
        assert(w32 <= width) by {
            if width <= u32::MAX {
                assert(w32 == width);
            }
        }
        assert(h32 <= height) by {
            if height <= u32::MAX {
                assert(h32 == height);
            }
        }
        assert(h32 * w32 < height * width) by (nonlinear_arith)
            requires
                w32 <= width,
                h32 <= height,
                w32 > 0,
                h32 > 0,
                w32 < width || h32 < height,
        ;
        assert(w32 * h32 == h32 * w32) by (nonlinear_arith);
        assert(false);
    }
}

/// A saved density map reads back: when a PNG file decodes to the image whose
/// samples are a rectangular map's densities row after row, sized as the map
/// (which is what `encode_png` writes), its sample at `(x, y)` is the density
/// `rows[y][x]`, and it has exactly one sample per density.
pub proof fn lemma_saved_png_holds_map(rows: Seq<Seq<u8>>, bytes: Seq<u8>)
    requires
        grid_is_rectangular(rows),
        rows.len() <= u32::MAX,
        grid_width(rows) <= u32::MAX,
        png_gray8_decode(bytes) == Some(
            Gray8Image {
                width: density_png_size(rows).0,
                height: density_png_size(rows).1,
                samples: flatten_rows(rows),
            },
        ),
    ensures
        png_gray8_decode(bytes) matches Some(image) && png_image_holds_rows(image, rows),
{
    let width = grid_width(rows);
    assert forall|j: int| 0 <= j < rows.len() implies #[trigger] rows[j].len() == width by {}
    lemma_flatten_rows_len(rows, width);
    let image = png_gray8_decode(bytes).unwrap();
    assert forall|y: int, x: int| 0 <= y < rows.len() && 0 <= x < width implies #[trigger] image.samples[y
        * width + x] == rows[y][x] by {
        lemma_flatten_rows_index(rows, width, y, x);
    }
}

/// Encodes `pixels` as a `width` by `height` 8-bit grayscale PNG file with
/// `png::Encoder` (header, image data, end chunk) into memory.
/// The bytes it gives back are named by `png_gray8_encoding`; read as a PNG
/// file they are a `width` by `height` 8-bit grayscale image whose samples are
/// `pixels` (the encoder writes the header with these sizes, and the scanlines
/// of `pixels`, each filtered and all compressed into one zlib stream, into the
/// image data chunks, then the end chunk). A zero side or a
/// buffer whose length is not `width * height` is refused, as `write_header`
/// and `write_image_data` show; any other buffer is encoded: grayscale at 8
/// bits is a valid combination, the default options turn sequence checks off,
/// and every other error path of the encoder (and of its `fdeflate`
/// compressor) only passes on an error of the writer, here in-memory `Vec`s
/// and `Cursor`s, whose writes do not fail.
#[verifier::external_body]
fn png_encode_gray8(width: u32, height: u32, pixels: &[u8]) -> (result: Result<
    Vec<u8>,
    png::EncodingError,
>)
    requires
        png_buffer_fits(width, height),
    ensures
        result matches Ok(bytes) ==> bytes@ == png_gray8_encoding(width, height, pixels@),
        result matches Ok(bytes) ==> png_gray8_decode(bytes@) == Some(
            Gray8Image { width, height, samples: pixels@ },
        ),
        (width == 0 || height == 0 || pixels@.len() != width * height) ==> result is Err,
        (width > 0 && height > 0 && pixels@.len() == width * height) ==> result is Ok,
{
    let mut bytes: Vec<u8> = Vec::new();
    let mut encoder = png::Encoder::new(&mut bytes, width, height);
    encoder.set_color(png::ColorType::Grayscale);
    encoder.set_depth(png::BitDepth::Eight);
    let mut writer = encoder.write_header()?;
    writer.write_image_data(pixels)?;
    writer.finish()?;
    Ok(bytes)
}

/// A density map and its image form.
pub trait DensityMap: Sized {
    /// The rows of the map.
    spec fn map_rows(&self) -> Seq<Seq<u8>>;

    /// Reads a map from the red channel of an image in one of the density
    /// formats; any other format is refused.
    fn load_from_image(image: &RawImage) -> (result: Result<Box<Self>, DensityMapError>)
        requires
            density_image_readable(image@),
        ensures
            match result {
                Ok(map) => density_rows_of(image@) == Some((*map).map_rows()),
                Err(e) => density_rows_of(image@) is None && e == DensityMapError::LoadingError,
            },
    ;

    /// The image of the map: each density becomes an opaque gray texel.
    fn to_image(&self) -> (image: RawImage)
        requires
            density_image_size_fits(self.map_rows()),
        ensures
            image@ == density_image_of(self.map_rows()),
    ;

    /// The map as an 8-bit grayscale PNG file, as wide as its first row and
    /// as high as its row count, the densities row after row. It is written
    /// exactly when both sides are non-zero and the rows hold width times
    /// height densities in all.
    fn encode_png(&self) -> (result: Result<Vec<u8>, PngEncodeError>)
        requires
            png_buffer_fits(density_png_size(self.map_rows()).0, density_png_size(self.map_rows()).1),
        ensures
            match result {
                Ok(bytes) => bytes@ == png_gray8_encoding(
                    density_png_size(self.map_rows()).0,
                    density_png_size(self.map_rows()).1,
                    flatten_rows(self.map_rows()),
                ),
                Err(e) => e == PngEncodeError::EncodingFailed,
            },
            result matches Ok(bytes) ==> png_gray8_decode(bytes@) == Some(
                Gray8Image {
                    width: density_png_size(self.map_rows()).0,
                    height: density_png_size(self.map_rows()).1,
                    samples: flatten_rows(self.map_rows()),
                },
            ),
            result matches Ok(bytes) ==> (grid_is_rectangular(self.map_rows()) ==> png_image_holds_rows(
                png_gray8_decode(bytes@).unwrap(),
                self.map_rows(),
            )),
            result is Ok <==> ({
                let (width, height) = density_png_size(self.map_rows());
                width > 0 && height > 0 && flatten_rows(self.map_rows()).len() == width * height
            }),
    ;
}

/// Byte `c` of texel `i` of a gray row.
proof fn lemma_gray_row_byte(row: Seq<u8>, i: int, c: int)
    requires
        0 <= i < row.len(),
        0 <= c < 4,
    ensures
        gray_row_bytes(row).len() == 4 * row.len(),
        gray_row_bytes(row)[4 * i + c] == (if c < 3 { row[i] } else { 255u8 }),
    decreases row.len(),
{
    lemma_gray_row_len(row);
    lemma_gray_row_len(row.drop_last());
    if i < row.len() - 1 {
        lemma_gray_row_byte(row.drop_last(), i, c);
    }
}

/// A gray row has four bytes per texel.
proof fn lemma_gray_row_len(row: Seq<u8>)
    ensures
        gray_row_bytes(row).len() == 4 * row.len(),
    decreases row.len(),
{
    if row.len() > 0 {
        lemma_gray_row_len(row.drop_last());
    }
}

/// The bytes of a grid whose rows all have `width` texels.
proof fn lemma_gray_rows_len(rows: Seq<Seq<u8>>, width: nat)
    requires
        forall|y: int| 0 <= y < rows.len() ==> #[trigger] rows[y].len() == width,
    ensures
        gray_rows_bytes(rows).len() == rows.len() * width * 4,
    decreases rows.len(),
{
    if rows.len() > 0 {
        lemma_gray_rows_len(rows.drop_last(), width);
        lemma_gray_row_len(rows.last());
        assert((rows.len() - 1) * width * 4 + 4 * width == rows.len() * width * 4)
            by (nonlinear_arith);
    }
}

/// Byte `c` of texel `(x, y)` of a grid whose rows all have `width` texels.
proof fn lemma_gray_rows_byte(rows: Seq<Seq<u8>>, width: nat, y: int, x: int, c: int)
    requires
        forall|j: int| 0 <= j < rows.len() ==> #[trigger] rows[j].len() == width,
        0 <= y < rows.len(),
        0 <= x < width,
        0 <= c < 4,
    ensures
        gray_rows_bytes(rows)[(y * width + x) * 4 + c] == (if c < 3 { rows[y][x] } else { 255u8 }),
    decreases rows.len(),
{
    let n = rows.len() - 1;
    lemma_gray_rows_len(rows.drop_last(), width);
    lemma_gray_row_byte(rows[y], x, c);
    if y < n {
        assert((y * width + x) * 4 + c < n * width * 4) by (nonlinear_arith)
            requires
                y < n,
                x < width,
                c < 4,
        ;
        lemma_gray_rows_byte(rows.drop_last(), width, y, x, c);
    } else {
        assert((y * width + x) * 4 + c - n * width * 4 == 4 * x + c) by (nonlinear_arith)
            requires
                y == n,
        ;
    }
}

/// Round trip: a rectangular density map, written as an image and read back
/// from it, is the same map; the image holds exactly the bytes its size asks
/// for, so reading it stays inside them.
pub proof fn lemma_density_image_round_trip(rows: Seq<Seq<u8>>)
    requires
        grid_is_rectangular(rows),
        rows.len() <= u32::MAX,
        grid_width(rows) <= u32::MAX,
    ensures
        density_image_of(rows).data.len() == density_image_of(rows).width * density_image_of(
            rows,
        ).height * 4,
        density_image_readable(density_image_of(rows)),
        density_rows_of(density_image_of(rows)) == Some(rows),
{
    let image = density_image_of(rows);
    let width = grid_width(rows);
    assert forall|j: int| 0 <= j < rows.len() implies #[trigger] rows[j].len() == width by {}
    lemma_gray_rows_len(rows, width);
    assert(rows.len() * width * 4 == width * rows.len() * 4) by (nonlinear_arith);
    let read = Seq::new(image.height as nat, |y: int| density_row_of(image, y));
    assert forall|y: int| 0 <= y < rows.len() implies #[trigger] read[y] == rows[y] by {
        assert forall|x: int| 0 <= x < width implies #[trigger] density_row_of(image, y)[x]
            == rows[y][x] by {
            lemma_gray_rows_byte(rows, width, y, x, 0);
        }
        assert(density_row_of(image, y) =~= rows[y]);
    }
    assert(read =~= rows);
}

impl DensityMap for DensityMapU8 {
    open spec fn map_rows(&self) -> Seq<Seq<u8>> {
        density_rows(*self)
    }

    fn load_from_image(image: &RawImage) -> (result: Result<Box<Self>, DensityMapError>) {
        let width = image.width as usize;
        let height = image.height as usize;
        let format = image.format;
        if format != ImageFormat::Rgba8Uint && format != ImageFormat::R8Uint
            && format != ImageFormat::Rgba8Unorm && format != ImageFormat::Rgba8UnormSrgb {
            return Err(DensityMapError::LoadingError);
        }
        let ghost img = image@;
        let mut density_map: Vec<Vec<u8>> = Vec::with_capacity(height);
        for y in 0..height
            invariant
                width == img.width,
                height == img.height,
                img == image@,
                img.width * img.height * 4 <= img.data.len(),
                density_map@.len() == y,
                forall|j: int| 0 <= j < y ==> #[trigger] density_map@[j]@ == density_row_of(img, j),
        {
            let mut row: Vec<u8> = Vec::with_capacity(width);
            for x in 0..width
                invariant
                    width == img.width,
                    height == img.height,
                    img == image@,
                    img.width * img.height * 4 <= img.data.len(),
                    y < height,
                    row@.len() == x,
                    forall|i: int| 0 <= i < x ==> #[trigger] row@[i] == density_row_of(img, y as int)[i],
            {
                let len = image.data.len();
                assert((y * width + x) * 4 + 4 <= len) by (nonlinear_arith)
                    requires
                        x < width,
                        y < height,
                        width * height * 4 <= len,
                ;
                let index = (y * width + x) * 4;
                row.push(image.data[index]);
            }
            assert(row@ =~= density_row_of(img, y as int));
            density_map.push(row);
        }
        assert(density_rows(density_map) =~= Seq::new(img.height as nat, |y: int| density_row_of(img, y)));
        Ok(Box::new(density_map))
    }

    fn to_image(&self) -> (image: RawImage) {
        let raw_data = self;
        let ghost rows = density_rows(*self);
        let height = raw_data.len();
        let width = if height > 0 {
            raw_data[0].len()
        } else {
            0
        };
        let mut modified_data: Vec<u8> = Vec::with_capacity(height * width * 4);
        for y in 0..height
            invariant
                height == raw_data@.len(),
                rows == density_rows(*raw_data),
                modified_data@ == gray_rows_bytes(rows.take(y as int)),
        {
            let row = &raw_data[y];
            for x in 0..row.len()
                invariant
                    y < height,
                    height == raw_data@.len(),
                    rows == density_rows(*raw_data),
                    row@ == rows[y as int],
                    modified_data@ == gray_rows_bytes(rows.take(y as int)) + gray_row_bytes(
                        row@.take(x as int),
                    ),
            {
                let value = row[x];
                let ghost before = modified_data@;
                modified_data.push(value);
                modified_data.push(value);
                modified_data.push(value);
                modified_data.push(255);
                assert(row@.take(x + 1).drop_last() =~= row@.take(x as int));
                assert(modified_data@ =~= before + gray_texel(value));
            }
            assert(row@.take(row@.len() as int) =~= row@);
            assert(rows.take(y + 1).drop_last() =~= rows.take(y as int));
        }
        assert(rows.take(height as int) =~= rows);
        RawImage {
            width: width as u32,
            height: height as u32,
            format: ImageFormat::Rgba8UnormSrgb,
            data: modified_data,
        }
    }

    fn encode_png(&self) -> (result: Result<Vec<u8>, PngEncodeError>) {
        let density_map_data = self;
        let ghost rows = density_rows(*self);
        let height = density_map_data.len();
        let width = if height > 0 {
            density_map_data[0].len()
        } else {
            0
        };
        let mut buffer: Vec<u8> = Vec::new();
        for y in 0..height
            invariant
                height == density_map_data@.len(),
                rows == density_rows(*density_map_data),
                buffer@ == flatten_rows(rows.take(y as int)),
        {
            let row = &density_map_data[y];
            for x in 0..row.len()
                invariant
                    y < height,
                    height == density_map_data@.len(),
                    rows == density_rows(*density_map_data),
                    row@ == rows[y as int],
                    buffer@ == flatten_rows(rows.take(y as int)) + row@.take(x as int),
            {
                buffer.push(row[x]);
                assert(row@.take(x + 1) =~= row@.take(x as int).push(row@[x as int]));
            }
            assert(row@.take(row@.len() as int) =~= row@);
            assert(rows.take(y + 1).drop_last() =~= rows.take(y as int));
        }
        assert(rows.take(height as int) =~= rows);
        match png_encode_gray8(width as u32, height as u32, buffer.as_slice()) {
            Ok(bytes) => {
                proof {
                    if grid_is_rectangular(rows) {
                        lemma_png_size_exact(rows);
                        lemma_saved_png_holds_map(rows, bytes@);
                    }
                }
                Ok(bytes)
            },
            Err(_) => Err(PngEncodeError::EncodingFailed),
        }
    }
}

} // verus!
