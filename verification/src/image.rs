//! A raw image as the foliage maps read and write it: a size, a pixel
//! format, and the bytes of the pixels, row after row.

use vstd::prelude::*;

verus! {

/// The pixel formats that the foliage maps read or produce.
#[derive(Clone, Copy, Debug, PartialEq, Eq, Structural)]
pub enum ImageFormat {
    R8Unorm,
    R8Uint,
    R16Uint,
    Rgba8Uint,
    Rgba8Unorm,
    Rgba8UnormSrgb,
    Rgba16Unorm,
    /// Any other format.
    Other,
}

/// An image: `width` by `height` pixels of `format`, the bytes in `data`.
pub struct RawImage {
    pub width: u32,
    pub height: u32,
    pub format: ImageFormat,
    pub data: Vec<u8>,
}

/// The mathematical value of a [`RawImage`].
pub struct ImageView {
    pub width: u32,
    pub height: u32,
    pub format: ImageFormat,
    pub data: Seq<u8>,
}

impl View for RawImage {
    type V = ImageView;

    open spec fn view(&self) -> ImageView {
        ImageView { width: self.width, height: self.height, format: self.format, data: self.data@ }
    }
}

/// Every row of the grid is as long as the first.
pub open spec fn grid_is_rectangular<A>(rows: Seq<Seq<A>>) -> bool {
    forall|y: int| 0 <= y < rows.len() ==> #[trigger] rows[y].len() == rows[0].len()
}

/// The width of a grid: the length of its first row, 0 for no rows.
pub open spec fn grid_width<A>(rows: Seq<Seq<A>>) -> nat {
    if rows.len() > 0 {
        rows[0].len()
    } else {
        0
    }
}

} // verus!
