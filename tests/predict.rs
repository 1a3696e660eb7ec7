use burneural::predict::{fit_to_input, label_from_index, preprocess_image, PredictError};
use std::io::Cursor;

fn png_of(width: u32, height: u32, pixels: Vec<u8>) -> Vec<u8> {
    let img = image::GrayImage::from_raw(width, height, pixels).unwrap();
    let mut bytes = Vec::new();
    img.write_to(&mut Cursor::new(&mut bytes), image::ImageFormat::Png).unwrap();
    bytes
}

#[test]
fn blank_image_gives_blank_input() {
    let input = preprocess_image(&png_of(56, 40, vec![0; 56 * 40])).unwrap();
    assert_eq!(input, vec![0u8; 784]);
}

#[test]
fn image_of_input_size_is_kept() {
    let pixels: Vec<u8> = (0..784u32).map(|i| (i % 251) as u8).collect();
    let input = preprocess_image(&png_of(28, 28, pixels.clone())).unwrap();
    assert_eq!(input, pixels);
}

#[test]
fn large_image_is_resampled_to_input_size() {
    let pixels: Vec<u8> = (0..100 * 100u32).map(|i| if i % 100 < 50 { 0 } else { 255 }).collect();
    let input = preprocess_image(&png_of(100, 100, pixels)).unwrap();
    assert_eq!(input.len(), 784);
    assert!(input[0] < 20);
    assert!(input[27] > 235);
}

#[test]
fn undecodable_bytes_are_refused() {
    assert_eq!(preprocess_image(b"not an image"), Err(PredictError::Decode));
    assert_eq!(preprocess_image(&[]), Err(PredictError::Decode));
}

#[test]
fn pixel_count_must_match_dimensions() {
    assert_eq!(fit_to_input(28, 28, vec![0; 10]), Err(PredictError::PixelCount));
    assert_eq!(fit_to_input(2, 2, vec![9; 4]).unwrap(), vec![9u8; 784]);
}

#[test]
fn label_comes_from_index_in_range() {
    assert_eq!(label_from_index(0, 10), Ok(0));
    assert_eq!(label_from_index(9, 10), Ok(9));
    assert_eq!(label_from_index(1, 2), Ok(1));
    assert_eq!(label_from_index(299, 300), Ok(299));
    assert_eq!(label_from_index(256, 1000), Ok(256));
}

#[test]
fn index_outside_classes_is_refused() {
    assert_eq!(label_from_index(10, 10), Err(PredictError::LabelOutOfRange));
    assert_eq!(label_from_index(-1, 10), Err(PredictError::LabelOutOfRange));
    assert_eq!(label_from_index(1000, 1000), Err(PredictError::LabelOutOfRange));
    assert_eq!(label_from_index(i64::MIN, 10), Err(PredictError::LabelOutOfRange));
}

#[test]
fn blank_image_of_input_size_passes_unchanged() {
    let input = preprocess_image(&png_of(28, 28, vec![0; 784])).unwrap();
    assert_eq!(input, vec![0u8; 784]);
}

#[test]
fn white_image_gives_full_input() {
    let input = preprocess_image(&png_of(7, 9, vec![255; 63])).unwrap();
    assert_eq!(input.len(), 784);
}
