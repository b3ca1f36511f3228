//! Height-offset maps: one 16-bit offset per texel, stored row by row
//! (`map[y][x]`).

use vstd::prelude::*;
use crate::image::{grid_width, ImageFormat, ImageView, RawImage};

verus! {

/// Why a height-offset map could not be read from an image.
#[derive(Clone, Copy, Debug, PartialEq, Eq, Structural)]
pub enum YOffsetMapError {
    /// The image is not in the 16-bit single-channel format.
    LoadingError,
}

/// A height-offset map, `map[y][x]`.
pub type YOffsetMapU16 = Vec<Vec<u16>>;

/// The rows of a height-offset map as sequences.
pub open spec fn offset_rows(map: YOffsetMapU16) -> Seq<Seq<u16>> {
    map@.map_values(|row: Vec<u16>| row@)
}

/// The low byte of a 16-bit value.
pub open spec fn low_byte(value: u16) -> u8 {
    (value % 256) as u8
}

/// The high byte of a 16-bit value.
pub open spec fn high_byte(value: u16) -> u8 {
    (value / 256) as u8
}

/// The 16-bit value of two bytes in little-endian order.
pub open spec fn le_value(low: u8, high: u8) -> u16 {
    (low + high * 256) as u16
}

/// The eight bytes of an offset texel: the value, little-endian, in red,
/// green and blue, then an opaque alpha (`u16::MAX`).
pub open spec fn offset_texel(value: u16) -> Seq<u8> {
    seq![
        low_byte(value),
        high_byte(value),
        low_byte(value),
        high_byte(value),
        low_byte(value),
        high_byte(value),
        255u8,
        255u8,
    ]
}

/// The texels of one row, eight bytes each.
pub open spec fn offset_row_bytes(row: Seq<u16>) -> Seq<u8>
    decreases row.len(),
{
    if row.len() == 0 {
        Seq::empty()
    } else {
        offset_row_bytes(row.drop_last()) + offset_texel(row.last())
    }
}

/// The texels of all rows, row after row.
pub open spec fn offset_rows_bytes(rows: Seq<Seq<u16>>) -> Seq<u8>
    decreases rows.len(),
{
    if rows.len() == 0 {
        Seq::empty()
    } else {
        offset_rows_bytes(rows.drop_last()) + offset_row_bytes(rows.last())
    }
}

/// The image of a height-offset map: as wide as its first row, one row of
/// texels per map row, in RGBA16.
pub open spec fn offset_image_of(rows: Seq<Seq<u16>>) -> ImageView {
    ImageView {
        width: grid_width(rows) as u32,
        height: rows.len() as u32,
        format: ImageFormat::Rgba16Unorm,
        data: offset_rows_bytes(rows),
    }
}

/// The buffer that `to_image` reserves, height times width times eight
/// bytes, fits in a `usize`.
pub open spec fn offset_image_size_fits(rows: Seq<Seq<u16>>) -> bool {
    rows.len() * grid_width(rows) * 4 * 2 <= usize::MAX
}

/// Reading the image as a height-offset map stays inside its bytes.
pub open spec fn offset_image_readable(image: ImageView) -> bool {
    image.format == ImageFormat::R16Uint ==> image.width * image.height * 2 <= image.data.len()
}

/// Row `y` of the height-offset map read from `image`: each texel's two
/// bytes, little-endian.
pub open spec fn offset_row_of(image: ImageView, y: int) -> Seq<u16> {
    Seq::new(
        image.width as nat,
        |x: int|
            le_value(
                image.data[2 * (y * image.width + x)],
                image.data[2 * (y * image.width + x) + 1],
            ),
    )
}

/// The height-offset map read from `image`, or `None` where its format is
/// not `R16Uint`.
pub open spec fn offset_rows_of(image: ImageView) -> Option<Seq<Seq<u16>>> {
    if image.format == ImageFormat::R16Uint {
        Some(Seq::new(image.height as nat, |y: int| offset_row_of(image, y)))
    } else {
        None
    }
}

/// A height-offset map and its image form.
pub trait YOffsetMap: Sized {
    /// The rows of the map.
    spec fn map_rows(&self) -> Seq<Seq<u16>>;

    /// Reads a map from an `R16Uint` image, two little-endian bytes per
    /// texel; any other format is refused.
    fn load_from_image(image: &RawImage) -> (result: Result<Box<Self>, YOffsetMapError>)
        requires
            offset_image_readable(image@),
        ensures
            match result {
                Ok(map) => offset_rows_of(image@) == Some((*map).map_rows()),
                Err(e) => offset_rows_of(image@) is None && e == YOffsetMapError::LoadingError,
            },
    ;

    /// The image of the map: each offset becomes an opaque gray texel of
    /// 16-bit channels.
    fn to_image(&self) -> (image: RawImage)
        requires
            offset_image_size_fits(self.map_rows()),
        ensures
            image@ == offset_image_of(self.map_rows()),
    ;
}

/// The bytes of a value, little-endian.
fn le_bytes(value: u16) -> (bytes: (u8, u8))
    ensures
        bytes == (low_byte(value), high_byte(value)),
{
    ((value % 256) as u8, (value / 256) as u8)
}

impl YOffsetMap for YOffsetMapU16 {
    open spec fn map_rows(&self) -> Seq<Seq<u16>> {
        offset_rows(*self)
    }

    fn load_from_image(image: &RawImage) -> (result: Result<Box<Self>, YOffsetMapError>) {
        let width = image.width as usize;
        let height = image.height as usize;
        let format = image.format;
        if format != ImageFormat::R16Uint {
            return Err(YOffsetMapError::LoadingError);
        }
        let ghost img = image@;
        let mut height_map: Vec<Vec<u16>> = Vec::with_capacity(height);
        for y in 0..height
            invariant
                width == img.width,
                height == img.height,
                img == image@,
                img.width * img.height * 2 <= img.data.len(),
                height_map@.len() == y,
                forall|j: int| 0 <= j < y ==> #[trigger] height_map@[j]@ == offset_row_of(img, j),
        {
            let mut row: Vec<u16> = Vec::with_capacity(width);
            for x in 0..width
                invariant
                    width == img.width,
                    height == img.height,
                    img == image@,
                    img.width * img.height * 2 <= img.data.len(),
                    y < height,
                    row@.len() == x,
                    forall|i: int| 0 <= i < x ==> #[trigger] row@[i] == offset_row_of(img, y as int)[i],
            {
                let len = image.data.len();
                assert(2 * (y * width + x) + 2 <= len) by (nonlinear_arith)
                    requires
                        x < width,
                        y < height,
                        width * height * 2 <= len,
                ;
                let index = 2 * (y * width + x);
                let low = image.data[index];
                let high = image.data[index + 1];
                let height_value = low as u16 + high as u16 * 256;
                row.push(height_value);
            }
            assert(row@ =~= offset_row_of(img, y as int));
            height_map.push(row);
        }
        assert(offset_rows(height_map) =~= Seq::new(img.height as nat, |y: int| offset_row_of(img, y)));
        Ok(Box::new(height_map))
    }

    fn to_image(&self) -> (image: RawImage) {
        let raw_data = self;
        let ghost rows = offset_rows(*self);
        let height = raw_data.len();
        let width = if height > 0 {
            raw_data[0].len()
        } else {
            0
        };
        let mut modified_data: Vec<u8> = Vec::with_capacity(height * width * 4 * 2);
        let (alpha_low, alpha_high) = le_bytes(u16::MAX);
        for y in 0..height
            invariant
                height == raw_data@.len(),
                rows == offset_rows(*raw_data),
                alpha_low == low_byte(u16::MAX),
                alpha_high == high_byte(u16::MAX),
                modified_data@ == offset_rows_bytes(rows.take(y as int)),
        {
            let row = &raw_data[y];
            for x in 0..row.len()
                invariant
                    y < height,
                    height == raw_data@.len(),
                    rows == offset_rows(*raw_data),
                    alpha_low == low_byte(u16::MAX),
                    alpha_high == high_byte(u16::MAX),
                    row@ == rows[y as int],
                    modified_data@ == offset_rows_bytes(rows.take(y as int)) + offset_row_bytes(
                        row@.take(x as int),
                    ),
            {
                let value = row[x];
                let (low, high) = le_bytes(value);
                let ghost before = modified_data@;
                modified_data.push(low);
                modified_data.push(high);
                modified_data.push(low);
                modified_data.push(high);
                modified_data.push(low);
                modified_data.push(high);
                modified_data.push(alpha_low);
                modified_data.push(alpha_high);
                assert(row@.take(x + 1).drop_last() =~= row@.take(x as int));
                assert(modified_data@ =~= before + offset_texel(value));
            }
            assert(row@.take(row@.len() as int) =~= row@);
            assert(rows.take(y + 1).drop_last() =~= rows.take(y as int));
        }
        assert(rows.take(height as int) =~= rows);
        RawImage {
            width: width as u32,
            height: height as u32,
            format: ImageFormat::Rgba16Unorm,
            data: modified_data,
        }
    }
}

/// The red channel of an offset texel, read little-endian as `load_from_image`
/// reads a texel, is the value that was written.
pub proof fn lemma_offset_texel_red_channel(value: u16)
    ensures
        le_value(offset_texel(value)[0], offset_texel(value)[1]) == value,
{
}

/// `to_image` writes `Rgba16Unorm`, and `load_from_image` reads `R16Uint`
/// only: the image of a height-offset map is refused when read back.
pub proof fn lemma_offset_image_not_read_back(rows: Seq<Seq<u16>>)
    ensures
        offset_rows_of(offset_image_of(rows)) is None,
{
}

} // verus!
