use std::io::Cursor;

use board_assets::board::Config;
use board_assets::encode::{check_image, encode_rgba8, encoded_or_error};
use board_assets::error::PipelineError;
use board_assets::readback::{strip_padding, Layout};

fn decode(stream: &[u8]) -> (u32, u32, png::ColorType, png::BitDepth, Vec<u8>) {
    let mut reader = png::Decoder::new(Cursor::new(stream)).read_info().unwrap();
    let mut pixels = vec![0u8; reader.output_buffer_size().unwrap()];
    let frame = reader.next_frame(&mut pixels).unwrap();
    pixels.truncate(frame.buffer_size());
    (frame.width, frame.height, frame.color_type, frame.bit_depth, pixels)
}

#[test]
fn encoded_image_decodes_to_the_same_pixels() {
    let pixels: Vec<u8> = (0..3 * 2 * 4).map(|i| (i * 11) as u8).collect();
    let stream = encode_rgba8(3, 2, &pixels).unwrap();
    assert_ne!(stream, pixels);
    let (width, height, color, depth, decoded) = decode(&stream);
    assert_eq!((width, height), (3, 2));
    assert_eq!(color, png::ColorType::Rgba);
    assert_eq!(depth, png::BitDepth::Eight);
    assert_eq!(decoded, pixels);
}

#[test]
fn stream_begins_with_signature_and_header() {
    let pixels = vec![255u8; 258 * 3 * 4];
    let stream = encode_rgba8(258, 3, &pixels).unwrap();
    assert!(stream.len() >= 33);
    assert_eq!(&stream[..8], &[137, 80, 78, 71, 13, 10, 26, 10]);
    assert_eq!(&stream[8..16], &[0, 0, 0, 13, 73, 72, 68, 82]);
    assert_eq!(&stream[16..20], &[0, 0, 1, 2]);
    assert_eq!(&stream[20..24], &[0, 0, 0, 3]);
    assert_eq!(&stream[24..29], &[8, 6, 0, 0, 0]);
}

#[test]
fn encoding_is_repeatable() {
    let pixels: Vec<u8> = (0..16 * 16 * 4).map(|i| (i % 251) as u8).collect();
    assert_eq!(encode_rgba8(16, 16, &pixels), encode_rgba8(16, 16, &pixels));
}

#[test]
fn pixels_of_another_size_are_refused() {
    assert_eq!(encode_rgba8(2, 2, &[0u8; 15]), Err(PipelineError::Encode));
    assert_eq!(encode_rgba8(2, 2, &[0u8; 17]), Err(PipelineError::Encode));
    assert_eq!(encode_rgba8(2, 2, &[]), Err(PipelineError::Encode));
    assert_eq!(encode_rgba8(u32::MAX, u32::MAX, &[0u8; 4]), Err(PipelineError::Encode));
}

#[test]
fn empty_images_are_refused() {
    assert_eq!(encode_rgba8(0, 0, &[]), Err(PipelineError::Encode));
    assert_eq!(encode_rgba8(0, 4, &[]), Err(PipelineError::Encode));
    assert_eq!(encode_rgba8(4, 0, &[]), Err(PipelineError::Encode));
}

#[test]
fn image_check_wants_four_bytes_per_pixel() {
    assert!(check_image(1, 1, 4));
    assert!(check_image(2176, 2176, 2176 * 2176 * 4));
    assert!(!check_image(1, 1, 3));
    assert!(!check_image(1, 1, 5));
    assert!(!check_image(0, 1, 0));
    assert!(!check_image(1, 0, 0));
    assert!(!check_image(u32::MAX, u32::MAX, 4));
}

#[test]
fn encoder_outcome_is_handed_on_or_becomes_an_encode_error() {
    assert_eq!(encoded_or_error(Ok(vec![1, 2, 3])), Ok(vec![1, 2, 3]));
    assert_eq!(encoded_or_error(Ok(vec![])), Ok(vec![]));
    assert_eq!(
        encoded_or_error(Err(png::EncodingError::LimitsExceeded)),
        Err(PipelineError::Encode)
    );
    let io = std::io::Error::new(std::io::ErrorKind::Other, "closed");
    assert_eq!(
        encoded_or_error(Err(png::EncodingError::IoError(io))),
        Err(PipelineError::Encode)
    );
}

#[test]
fn padded_readback_round_trips_through_the_encoder() {
    let layout = Layout::for_board(&Config::new(2)).unwrap();
    assert_eq!(layout, Layout { width: 34, height: 34, stride: 256 });
    let mut mapped = vec![200u8; layout.buffer_size() as usize];
    for row in 0..34usize {
        for column in 0..34usize {
            let at = row * 256 + column * 4;
            mapped[at..at + 4].copy_from_slice(&[row as u8, column as u8, 0, 255]);
        }
    }
    let marker = 20usize * 256 + 5 * 4;
    mapped[marker..marker + 4].copy_from_slice(&[255, 255, 255, 255]);
    let pixels = strip_padding(&mapped, &layout).unwrap();
    let stream = encode_rgba8(layout.width, layout.height, &pixels).unwrap();
    let (width, height, color, depth, decoded) = decode(&stream);
    assert_eq!((width, height), (34, 34));
    assert_eq!((color, depth), (png::ColorType::Rgba, png::BitDepth::Eight));
    assert_eq!(decoded.len(), 34 * 34 * 4);
    let pixel = (20 * 34 + 5) * 4;
    assert_eq!(&decoded[pixel..pixel + 4], &[255, 255, 255, 255]);
    let other = (21 * 34 + 6) * 4;
    assert_eq!(&decoded[other..other + 4], &[21, 6, 0, 255]);
    assert!(!decoded.contains(&200));
}

#[test]
fn single_pixel_is_encoded() {
    let stream = encode_rgba8(1, 1, &[9, 8, 7, 6]).unwrap();
    let (width, height, color, depth, decoded) = decode(&stream);
    assert_eq!((width, height), (1, 1));
    assert_eq!((color, depth), (png::ColorType::Rgba, png::BitDepth::Eight));
    assert_eq!(decoded, vec![9, 8, 7, 6]);
}
