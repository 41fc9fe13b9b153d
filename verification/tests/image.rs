use compute_harness::image::{encode_png, ImageError};

fn decode(stream: &[u8]) -> (u32, u32, png::ColorType, png::BitDepth, Vec<u8>) {
    let decoder = png::Decoder::new(stream);
    let mut reader = decoder.read_info().unwrap();
    let mut pixels = vec![0u8; reader.output_buffer_size()];
    let info = reader.next_frame(&mut pixels).unwrap();
    pixels.truncate(info.buffer_size());
    (info.width, info.height, info.color_type, info.bit_depth, pixels)
}

fn header(width: u32, height: u32) -> Vec<u8> {
    let mut bytes = vec![137u8, 80, 78, 71, 13, 10, 26, 10, 0, 0, 0, 13];
    bytes.extend_from_slice(b"IHDR");
    bytes.extend_from_slice(&width.to_be_bytes());
    bytes.extend_from_slice(&height.to_be_bytes());
    bytes.extend_from_slice(&[8, 6, 0, 0, 0]);
    bytes
}

#[test]
fn constant_red_image_survives_encoding() {
    let mut pixels = Vec::new();
    for _ in 0..16 {
        pixels.extend_from_slice(&[255u8, 0, 0, 255]);
    }
    let stream = encode_png(&pixels, 4, 4).unwrap();
    assert_ne!(stream, pixels);
    assert_eq!(&stream[..29], &header(4, 4)[..]);
    let (width, height, color, depth, decoded) = decode(&stream);
    assert_eq!((width, height), (4, 4));
    assert_eq!(color, png::ColorType::Rgba);
    assert_eq!(depth, png::BitDepth::Eight);
    assert_eq!(decoded, pixels);
}

#[test]
fn header_declares_the_dimensions() {
    let pixels: Vec<u8> = (0..4 * 300 * 2u32).map(|i| (i % 253) as u8).collect();
    let stream = encode_png(&pixels, 300, 2).unwrap();
    assert_eq!(stream.len() >= 29, true);
    assert_eq!(&stream[..29], &header(300, 2)[..]);
    assert_eq!(&stream[16..20], &[0, 0, 1, 44]);
    assert_eq!(&stream[20..24], &[0, 0, 0, 2]);
    let (width, height, _, _, decoded) = decode(&stream);
    assert_eq!((width, height), (300, 2));
    assert_eq!(decoded, pixels);
}

#[test]
fn same_pixels_give_the_same_stream() {
    let pixels: Vec<u8> = (0..4 * 5 * 3u32).map(|i| (i * 7 % 256) as u8).collect();
    assert_eq!(encode_png(&pixels, 5, 3), encode_png(&pixels, 5, 3));
    assert_ne!(encode_png(&pixels, 5, 3), encode_png(&pixels, 3, 5));
}

#[test]
fn image_without_columns_or_rows_is_refused() {
    assert_eq!(encode_png(&[], 0, 4), Err(ImageError::ZeroWidth));
    assert_eq!(encode_png(&[], 0, 0), Err(ImageError::ZeroWidth));
    assert_eq!(encode_png(&[], 4, 0), Err(ImageError::ZeroHeight));
    assert_eq!(encode_png(&[1, 2, 3, 4], 0, 1), Err(ImageError::ZeroWidth));
}

#[test]
fn pixel_data_of_another_length_is_refused() {
    assert_eq!(encode_png(&[0u8; 63], 4, 4), Err(ImageError::SizeMismatch { actual: 63 }));
    assert_eq!(encode_png(&[0u8; 65], 4, 4), Err(ImageError::SizeMismatch { actual: 65 }));
    assert_eq!(encode_png(&[], 1, 1), Err(ImageError::SizeMismatch { actual: 0 }));
    assert_eq!(
        encode_png(&[0u8; 4], (1 << 30) - 1, 1),
        Err(ImageError::SizeMismatch { actual: 4 })
    );
}

#[test]
fn image_beyond_the_encoder_is_refused() {
    assert_eq!(encode_png(&[0u8; 4], 1 << 30, 1), Err(ImageError::TooLarge));
    assert_eq!(encode_png(&[], (1 << 30) + 2, 1), Err(ImageError::TooLarge));
    assert_eq!(encode_png(&[0u8; 4], u32::MAX, u32::MAX), Err(ImageError::TooLarge));
    assert_eq!(encode_png(&[0u8; 4], (1 << 30) - 1, u32::MAX), Err(ImageError::TooLarge));
    assert_eq!(encode_png(&[], 0, u32::MAX), Err(ImageError::ZeroWidth));
    assert_eq!(encode_png(&[], u32::MAX, 0), Err(ImageError::ZeroHeight));
}
