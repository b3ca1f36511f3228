# foliage_paint

Verified data logic for painting foliage on chunked terrain.

`src/` is the library, written in Verus:

- `image`: the raw image a map is read from or written to (size, pixel format, bytes).
- `density_map`: one density byte per texel; reading it from the red channel of an
  8-bit image, writing it as an opaque gray RGBA8 image, and encoding it as an 8-bit
  grayscale PNG file (through the `png` crate). A rectangular map written as an image
  reads back unchanged.
- `y_offset_map`: one 16-bit height offset per texel; reading it from an `R16Uint`
  image and writing it as an RGBA16 image.
- `foliage_chunk`: chunk ids and their `[x, y]` coordinates on the square chunk grid,
  with the round trips between them.
- `foliage`: the chunks a foliage root spawns, their names and texture file names.
- `edit`: brush strokes on a chunk's density map (blend the covered square, read with
  the eyedropper).

`app/` is the Bevy side: plugins, ECS systems, components, file I/O, the RON
configuration, and the floating-point geometry and brush falloff.
