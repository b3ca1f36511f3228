//! Foliage painting data: density and height-offset maps for terrain chunks,
//! their raw image encodings, the chunk grid, and the brush edits that paint
//! density values.

pub mod image;
pub mod png_format;
pub mod density_map;
pub mod y_offset_map;
pub mod foliage_chunk;
pub mod foliage;
pub mod edit;
