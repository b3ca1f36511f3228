use foliage_paint::density_map::{DensityMap, DensityMapError, DensityMapU8, PngEncodeError};
use foliage_paint::image::{ImageFormat, RawImage};

fn image(width: u32, height: u32, format: ImageFormat, data: Vec<u8>) -> RawImage {
    RawImage { width, height, format, data }
}

#[test]
fn to_image_duplicates_gray_into_rgba() {
    let map: DensityMapU8 = vec![vec![1, 2], vec![3, 4]];
    let img = map.to_image();
    assert_eq!(img.width, 2);
    assert_eq!(img.height, 2);
    assert_eq!(img.format, ImageFormat::Rgba8UnormSrgb);
    assert_eq!(
        img.data,
        vec![1, 1, 1, 255, 2, 2, 2, 255, 3, 3, 3, 255, 4, 4, 4, 255]
    );
}

#[test]
fn to_image_of_empty_map_is_empty() {
    let map: DensityMapU8 = vec![];
    let img = map.to_image();
    assert_eq!((img.width, img.height), (0, 0));
    assert!(img.data.is_empty());
}

#[test]
fn to_image_width_follows_first_row() {
    let map: DensityMapU8 = vec![vec![9], vec![7, 8]];
    let img = map.to_image();
    assert_eq!((img.width, img.height), (1, 2));
    assert_eq!(img.data, vec![9, 9, 9, 255, 7, 7, 7, 255, 8, 8, 8, 255]);
}

#[test]
fn load_reads_red_channel() {
    let data = vec![10, 20, 30, 40, 50, 60, 70, 80, 90, 100, 110, 120];
    let img = image(3, 1, ImageFormat::Rgba8Unorm, data);
    let map = <DensityMapU8 as DensityMap>::load_from_image(&img).unwrap();
    assert_eq!(*map, vec![vec![10, 50, 90]]);
}

#[test]
fn load_reads_rows_in_order() {
    let mut data = Vec::new();
    for v in 0u8..6 {
        data.extend_from_slice(&[v, 0, 0, 0]);
    }
    let img = image(2, 3, ImageFormat::Rgba8Uint, data);
    let map = <DensityMapU8 as DensityMap>::load_from_image(&img).unwrap();
    assert_eq!(*map, vec![vec![0, 1], vec![2, 3], vec![4, 5]]);
}

#[test]
fn load_accepts_all_density_formats() {
    for format in [
        ImageFormat::Rgba8Uint,
        ImageFormat::R8Uint,
        ImageFormat::Rgba8Unorm,
        ImageFormat::Rgba8UnormSrgb,
    ] {
        let img = image(1, 1, format, vec![5, 6, 7, 8]);
        let map = <DensityMapU8 as DensityMap>::load_from_image(&img).unwrap();
        assert_eq!(*map, vec![vec![5]]);
    }
}

#[test]
fn load_refuses_other_formats() {
    for format in [
        ImageFormat::R8Unorm,
        ImageFormat::R16Uint,
        ImageFormat::Rgba16Unorm,
        ImageFormat::Other,
    ] {
        let img = image(1, 1, format, vec![5, 6, 7, 8]);
        let result = <DensityMapU8 as DensityMap>::load_from_image(&img);
        assert_eq!(result.err(), Some(DensityMapError::LoadingError));
    }
}

#[test]
fn density_round_trip_through_image() {
    let map: DensityMapU8 = vec![vec![0, 17, 255], vec![3, 4, 5]];
    let img = map.to_image();
    let back = <DensityMapU8 as DensityMap>::load_from_image(&img).unwrap();
    assert_eq!(*back, map);
}

#[test]
fn encode_png_writes_a_grayscale_png() {
    let map: DensityMapU8 = vec![vec![1, 2, 3], vec![4, 5, 6]];
    let bytes = map.encode_png().unwrap();
    assert_eq!(&bytes[..8], &[137, 80, 78, 71, 13, 10, 26, 10]);
    let decoder = png::Decoder::new(std::io::Cursor::new(bytes));
    let mut reader = decoder.read_info().unwrap();
    let mut buf = vec![0; reader.output_buffer_size()];
    let info = reader.next_frame(&mut buf).unwrap();
    assert_eq!((info.width, info.height), (3, 2));
    assert_eq!(info.color_type, png::ColorType::Grayscale);
    assert_eq!(info.bit_depth, png::BitDepth::Eight);
    assert_eq!(&buf[..info.buffer_size()], &[1, 2, 3, 4, 5, 6]);
}

#[test]
fn encode_png_refuses_empty_map() {
    let map: DensityMapU8 = vec![];
    assert_eq!(map.encode_png(), Err(PngEncodeError::EncodingFailed));
}

#[test]
fn encode_png_refuses_ragged_map() {
    let map: DensityMapU8 = vec![vec![1, 2], vec![3]];
    assert_eq!(map.encode_png(), Err(PngEncodeError::EncodingFailed));
}

#[test]
fn load_of_zero_sized_image_is_empty() {
    let img = image(0, 3, ImageFormat::R8Uint, vec![]);
    let map = <DensityMapU8 as DensityMap>::load_from_image(&img).unwrap();
    assert_eq!(*map, vec![Vec::<u8>::new(), Vec::new(), Vec::new()]);
}

#[test]
fn encode_png_writes_single_texel_map() {
    let map: DensityMapU8 = vec![vec![42]];
    let bytes = map.encode_png().unwrap();
    assert_eq!(&bytes[..8], &[137, 80, 78, 71, 13, 10, 26, 10]);
}
