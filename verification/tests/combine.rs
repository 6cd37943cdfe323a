//! Tests of the alternating-pixel combination on concrete buffers.

use combiner::alternate_pixels;
use combiner::combine_images;
use combiner::DecodedImage;
use combiner::FormatTag;
use combiner::ImageDataErrors;

fn pixel(value: u8) -> [u8; 4] {
    [value, value, value, value]
}

fn buffer_of_pixels(values: &[u8]) -> Vec<u8> {
    let mut buffer = Vec::new();
    for &value in values {
        buffer.extend_from_slice(&pixel(value));
    }
    buffer
}

#[test]
fn combine_keeps_length_and_alternates_pixel_pairs() {
    // Six pixels each: even-indexed pixels come from A, odd-indexed from B.
    let a = buffer_of_pixels(&[1, 2, 3, 4, 5, 6]);
    let b = buffer_of_pixels(&[11, 12, 13, 14, 15, 16]);
    let combined = alternate_pixels(a.clone(), b.clone());
    assert_eq!(combined.len(), a.len());
    assert_eq!(combined, buffer_of_pixels(&[1, 12, 3, 14, 5, 16]));
}

#[test]
fn combine_copies_whole_blocks_verbatim() {
    // Distinct channel bytes within one pixel stay together.
    let a = vec![1, 2, 3, 4, 5, 6, 7, 8];
    let b = vec![101, 102, 103, 104, 105, 106, 107, 108];
    let combined = alternate_pixels(a, b);
    assert_eq!(combined, vec![1, 2, 3, 4, 105, 106, 107, 108]);
}

#[test]
fn combine_of_empty_buffers_is_empty() {
    let combined = alternate_pixels(Vec::new(), Vec::new());
    assert!(combined.is_empty());
}

#[test]
fn combine_is_not_commutative_on_differing_buffers() {
    let a = buffer_of_pixels(&[1, 2]);
    let b = buffer_of_pixels(&[9, 8]);
    let ab = alternate_pixels(a.clone(), b.clone());
    let ba = alternate_pixels(b, a);
    assert_ne!(ab, ba);
}

#[test]
fn combine_images_rejects_buffers_of_different_lengths() {
    let image_1 = DecodedImage {
        width: 2,
        height: 1,
        data: buffer_of_pixels(&[1, 2]),
        format: FormatTag::Png,
    };
    let image_2 = DecodedImage {
        width: 1,
        height: 1,
        data: buffer_of_pixels(&[3]),
        format: FormatTag::Png,
    };
    let result = combine_images(image_1, image_2);
    assert!(matches!(result, Err(ImageDataErrors::FormatMismatch)));
}

#[test]
fn combine_images_merges_equal_length_buffers() {
    let image_1 = DecodedImage {
        width: 2,
        height: 1,
        data: buffer_of_pixels(&[1, 2]),
        format: FormatTag::Png,
    };
    let image_2 = DecodedImage {
        width: 2,
        height: 1,
        data: buffer_of_pixels(&[9, 8]),
        format: FormatTag::Png,
    };
    let combined = combine_images(image_1, image_2).unwrap();
    assert_eq!(combined, buffer_of_pixels(&[1, 8]));
}
