use camera_core::error::EncodeError;
use camera_core::frame::RgbRaster;
use camera_core::jpeg::{encode_jpeg, finish_encoding};

fn gradient(width: u32, height: u32) -> RgbRaster {
    let mut raster = RgbRaster::new(width, height);
    for y in 0..height {
        for x in 0..width {
            raster.put_pixel(x, y, [(x * 16) as u8, (y * 16) as u8, 128]);
        }
    }
    raster
}

#[test]
fn encoded_image_is_a_complete_jpeg_stream() {
    let raster = gradient(16, 8);
    let image = encode_jpeg(&raster).unwrap();
    assert_eq!((image.width, image.height), (16, 8));
    assert!(image.bytes.len() > 4);
    assert_eq!(&image.bytes[..2], &[0xff, 0xd8]);
    assert_eq!(&image.bytes[image.bytes.len() - 2..], &[0xff, 0xd9]);
    assert_ne!(image.bytes, raster.pixels);
}

#[test]
fn encoded_image_decodes_to_the_raster_size() {
    let raster = gradient(16, 8);
    let image = encode_jpeg(&raster).unwrap();
    let decoded =
        image::load_from_memory_with_format(&image.bytes, image::ImageFormat::Jpeg).unwrap();
    assert_eq!((decoded.width(), decoded.height()), (16, 8));
    let rgb = decoded.to_rgb8();
    // Lossy, but close: the blue channel was 128 everywhere.
    let blue = rgb.get_pixel(8, 4).0[2] as i32;
    assert!((blue - 128).abs() < 24, "blue {blue}");
}

#[test]
fn encoding_is_repeatable() {
    let raster = gradient(9, 5);
    let first = encode_jpeg(&raster).unwrap();
    let second = encode_jpeg(&raster).unwrap();
    assert_eq!(first.bytes, second.bytes);
}

#[test]
fn empty_raster_is_encoded() {
    let raster = RgbRaster::new(0, 0);
    let image = encode_jpeg(&raster).unwrap();
    assert_eq!(&image.bytes[..2], &[0xff, 0xd8]);
    assert_eq!(&image.bytes[image.bytes.len() - 2..], &[0xff, 0xd9]);
}

#[test]
fn raster_with_a_short_buffer_is_refused() {
    let raster = RgbRaster { width: 4, height: 4, pixels: vec![0u8; 47] };
    assert!(matches!(encode_jpeg(&raster), Err(EncodeError::MalformedRaster)));
    let raster = RgbRaster { width: 4, height: 4, pixels: vec![0u8; 49] };
    assert!(matches!(encode_jpeg(&raster), Err(EncodeError::MalformedRaster)));
}

#[test]
fn side_beyond_sixteen_bits_is_rejected_by_the_encoder() {
    let raster = RgbRaster { width: 65_536, height: 0, pixels: Vec::new() };
    assert!(raster.is_well_formed());
    match encode_jpeg(&raster) {
        Err(EncodeError::Rejected(text)) => assert!(!text.is_empty()),
        other => panic!("unexpected {other:?}"),
    }
    let raster = RgbRaster { width: 0, height: 70_000, pixels: Vec::new() };
    assert!(matches!(encode_jpeg(&raster), Err(EncodeError::Rejected(_))));
}

#[test]
fn longest_side_is_encoded() {
    let raster = RgbRaster::new(65_535, 1);
    let image = encode_jpeg(&raster).unwrap();
    assert_eq!((image.width, image.height), (65_535, 1));
}

#[test]
fn finished_encoding_keeps_stream_and_size() {
    let image = finish_encoding(640, 480, Ok(vec![0xff, 0xd8, 0xff, 0xd9])).unwrap();
    assert_eq!((image.width, image.height), (640, 480));
    assert_eq!(image.bytes, vec![0xff, 0xd8, 0xff, 0xd9]);
}

#[test]
fn finished_encoding_keeps_the_encoder_text() {
    match finish_encoding(640, 480, Err(String::from("dimensions do not fit"))) {
        Err(EncodeError::Rejected(text)) => assert_eq!(text, "dimensions do not fit"),
        other => panic!("unexpected {other:?}"),
    }
}
