//! Scenario tests of the whole pipeline and its components, driven through
//! real encoded images.

use combiner::find_image_from_path;
use combiner::get_image_dimensions;
use combiner::run;
use combiner::standardize_size;
use combiner::DecodedImage;
use combiner::FloatingImage;
use combiner::FormatTag;
use combiner::ImageDataErrors;

const RED: [u8; 4] = [255, 0, 0, 255];
const BLUE: [u8; 4] = [0, 0, 255, 255];

fn encoded_solid(width: u32, height: u32, rgba: [u8; 4], format: image::ImageFormat) -> Vec<u8> {
    let img = image::RgbaImage::from_pixel(width, height, image::Rgba(rgba));
    let mut cursor = std::io::Cursor::new(Vec::new());
    img.write_to(&mut cursor, format).unwrap();
    cursor.into_inner()
}

fn solid_image(width: u32, height: u32, rgba: [u8; 4], format: FormatTag) -> DecodedImage {
    let mut data = Vec::new();
    for _ in 0..width * height {
        data.extend_from_slice(&rgba);
    }
    DecodedImage { width, height, data, format }
}

#[test]
fn two_pngs_combine_into_a_png_of_the_smaller_size() {
    let big = encoded_solid(4, 4, RED, image::ImageFormat::Png);
    let small = encoded_solid(2, 2, BLUE, image::ImageFormat::Png);
    let (image, encoded) = run(&big, &small, String::from("output.png")).unwrap();
    assert_eq!(image.width, 2);
    assert_eq!(image.height, 2);
    assert_eq!(image.name, "output.png");
    // Pixels alternate: 0 and 2 from the first input, 1 and 3 from the
    // second.
    assert_eq!(image.data.len(), 16);
    assert_eq!(&image.data[0..4], &RED);
    assert_eq!(&image.data[4..8], &BLUE);
    assert_eq!(&image.data[8..12], &RED);
    assert_eq!(&image.data[12..16], &BLUE);
    // The encoded output is a PNG holding exactly those pixels.
    assert_eq!(image::guess_format(&encoded).unwrap(), image::ImageFormat::Png);
    let round_trip = image::load_from_memory(&encoded).unwrap().to_rgba8();
    assert_eq!(round_trip.dimensions(), (2, 2));
    assert_eq!(round_trip.into_raw(), image.data);
}

#[test]
fn mismatched_input_formats_are_rejected() {
    let png = encoded_solid(2, 2, RED, image::ImageFormat::Png);
    let jpeg = encoded_solid(3, 3, BLUE, image::ImageFormat::Jpeg);
    let result = run(&png, &jpeg, String::from("output.png"));
    assert!(matches!(result, Err(ImageDataErrors::FormatMismatch)));
}

#[test]
fn malformed_input_is_a_decode_error() {
    let garbage = vec![0u8, 1, 2, 3, 4, 5, 6, 7];
    let png = encoded_solid(2, 2, RED, image::ImageFormat::Png);
    let result = run(&garbage, &png, String::from("output.png"));
    assert!(matches!(result, Err(ImageDataErrors::DecodeError)));
}

#[test]
fn unsupported_encoding_is_a_decode_error() {
    let bmp = encoded_solid(2, 2, RED, image::ImageFormat::Bmp);
    let png = encoded_solid(2, 2, BLUE, image::ImageFormat::Png);
    let result = run(&bmp, &png, String::from("output.png"));
    assert!(matches!(result, Err(ImageDataErrors::DecodeError)));
}

#[test]
fn find_image_from_path_decodes_pixels_and_detects_the_format() {
    let bytes = encoded_solid(2, 3, BLUE, image::ImageFormat::Png);
    let (image, format) = find_image_from_path(&bytes).unwrap();
    assert_eq!(format, FormatTag::Png);
    assert_eq!(image.format, FormatTag::Png);
    assert_eq!(get_image_dimensions(&image), (2, 3));
    assert_eq!(image.data, solid_image(2, 3, BLUE, FormatTag::Png).data);
}

#[test]
fn standardize_resizes_only_the_larger_image() {
    let image_1 = solid_image(4, 4, RED, FormatTag::Png);
    let image_2 = solid_image(2, 2, BLUE, FormatTag::Png);
    let (a, b) = standardize_size(image_1, image_2).unwrap();
    // The larger first input is resampled down to 2 by 2; the smaller
    // second input is untouched.
    assert_eq!((a.width, a.height), (2, 2));
    assert_eq!((b.width, b.height), (2, 2));
    assert_eq!(a.data, solid_image(2, 2, RED, FormatTag::Png).data);
    assert_eq!(b.data, solid_image(2, 2, BLUE, FormatTag::Png).data);
}

#[test]
fn standardize_leaves_both_images_alone_on_a_pixel_count_tie() {
    let image_1 = solid_image(2, 2, RED, FormatTag::Png);
    let image_2 = solid_image(2, 2, BLUE, FormatTag::Png);
    let (a, b) = standardize_size(image_1, image_2).unwrap();
    assert_eq!((a.width, a.height), (2, 2));
    assert_eq!((b.width, b.height), (2, 2));
    assert_eq!(a.data, solid_image(2, 2, RED, FormatTag::Png).data);
    assert_eq!(b.data, solid_image(2, 2, BLUE, FormatTag::Png).data);
}

#[test]
fn a_pixel_count_tie_between_different_shapes_resizes_neither() {
    // 4 by 2 and 2 by 4 hold the same number of pixels, so neither image is
    // the reference and both keep their own dimensions.
    let image_1 = solid_image(4, 2, RED, FormatTag::Png);
    let image_2 = solid_image(2, 4, BLUE, FormatTag::Png);
    let (a, b) = standardize_size(image_1, image_2).unwrap();
    assert_eq!((a.width, a.height), (4, 2));
    assert_eq!((b.width, b.height), (2, 4));
}

#[test]
fn zero_sized_images_are_rejected_before_resizing() {
    let image_1 = DecodedImage { width: 0, height: 0, data: Vec::new(), format: FormatTag::Png };
    let image_2 = solid_image(2, 2, BLUE, FormatTag::Png);
    let result = standardize_size(image_1, image_2);
    assert!(matches!(result, Err(ImageDataErrors::InvalidDimensions)));
}

#[test]
fn new_output_image_starts_empty_with_capacity_for_its_pixels() {
    let output = FloatingImage::new(3, 2, String::from("out.png"));
    assert_eq!(output.width, 3);
    assert_eq!(output.height, 2);
    assert_eq!(output.capacity, 24);
    assert_eq!(output.name, "out.png");
    assert!(output.data.is_empty());
}

#[test]
fn set_data_stores_exactly_the_given_data() {
    let mut output = FloatingImage::new(1, 1, String::from("out.png"));
    output.set_data(vec![1, 2, 3, 4]).unwrap();
    assert_eq!(output.data, vec![1, 2, 3, 4]);
}

#[test]
fn set_data_rejects_data_longer_than_the_capacity() {
    // Capacity deliberately below the combined data's length: nothing is
    // stored, so nothing can be written out.
    let mut output = FloatingImage::new(1, 1, String::from("out.png"));
    let result = output.set_data(vec![0u8; 8]);
    assert!(matches!(result, Err(ImageDataErrors::BufferTooSmall)));
    assert!(output.data.is_empty());
}

#[test]
fn encoding_a_zero_sized_image_is_an_encode_error() {
    let mut output = FloatingImage::new(0, 0, String::from("out.png"));
    output.set_data(Vec::new()).unwrap();
    let result = output.encode(FormatTag::Png);
    assert!(matches!(result, Err(ImageDataErrors::EncodeError)));
}
