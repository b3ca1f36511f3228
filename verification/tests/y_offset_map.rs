use foliage_paint::image::{ImageFormat, RawImage};
use foliage_paint::y_offset_map::{YOffsetMap, YOffsetMapError, YOffsetMapU16};

#[test]
fn to_image_writes_little_endian_rgba16() {
    let map: YOffsetMapU16 = vec![vec![0x1234, 0x00ff]];
    let img = map.to_image();
    assert_eq!((img.width, img.height), (2, 1));
    assert_eq!(img.format, ImageFormat::Rgba16Unorm);
    assert_eq!(
        img.data,
        vec![
            0x34, 0x12, 0x34, 0x12, 0x34, 0x12, 0xff, 0xff, //
            0xff, 0x00, 0xff, 0x00, 0xff, 0x00, 0xff, 0xff,
        ]
    );
}

#[test]
fn offset_to_image_of_empty_map_is_empty() {
    let map: YOffsetMapU16 = vec![];
    let img = map.to_image();
    assert_eq!((img.width, img.height), (0, 0));
    assert!(img.data.is_empty());
}

#[test]
fn load_reads_r16_little_endian() {
    let img = RawImage {
        width: 2,
        height: 2,
        format: ImageFormat::R16Uint,
        data: vec![0x01, 0x00, 0x00, 0x01, 0xff, 0xff, 0x34, 0x12],
    };
    let map = <YOffsetMapU16 as YOffsetMap>::load_from_image(&img).unwrap();
    assert_eq!(*map, vec![vec![1, 256], vec![65535, 0x1234]]);
}

#[test]
fn offset_load_refuses_other_formats() {
    for format in [
        ImageFormat::R8Uint,
        ImageFormat::Rgba16Unorm,
        ImageFormat::Rgba8Unorm,
        ImageFormat::Other,
    ] {
        let img = RawImage { width: 1, height: 1, format, data: vec![1, 2, 3, 4, 5, 6, 7, 8] };
        let result = <YOffsetMapU16 as YOffsetMap>::load_from_image(&img);
        assert_eq!(result.err(), Some(YOffsetMapError::LoadingError));
    }
}

#[test]
fn image_of_offset_map_is_not_read_back() {
    let map: YOffsetMapU16 = vec![vec![1]];
    let img = map.to_image();
    let result = <YOffsetMapU16 as YOffsetMap>::load_from_image(&img);
    assert_eq!(result.err(), Some(YOffsetMapError::LoadingError));
}

#[test]
fn red_channel_of_offset_image_decodes_to_the_value() {
    let map: YOffsetMapU16 = vec![vec![0xbeef]];
    let img = map.to_image();
    assert_eq!(u16::from_le_bytes([img.data[0], img.data[1]]), 0xbeef);
}
