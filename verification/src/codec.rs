//! The boundary to the `image` crate: format discovery, decoding to RGBA8,
//! triangle-filter resampling, and re-encoding, each behind a contract.
//!
//! Decoding, resampling and encoding are functions of their byte inputs
//! alone, so each result is given a name (an uninterpreted spec function)
//! that the callers' contracts speak of.

use vstd::prelude::*;

use crate::img::FormatTag;

verus! {

/// The encoding that `image::guess_format` detects in `bytes` from its
/// leading magic bytes, restricted to the formats this library supports
/// (`None` for an unrecognized or unsupported encoding).
pub uninterp spec fn image_format_of(bytes: Seq<u8>) -> Option<FormatTag>;

/// The (width, height, RGBA8 pixel data) that `image::load_from_memory`
/// decodes out of `bytes`, `None` where decoding fails.
pub uninterp spec fn decoded_rgba(bytes: Seq<u8>) -> Option<(u32, u32, Seq<u8>)>;

/// The RGBA8 pixel data of the `width` by `height` image `data`, resampled
/// to `new_width` by `new_height` by `image::imageops::resize` with the
/// triangle (bilinear) filter.
pub uninterp spec fn resized_rgba(
    width: u32,
    height: u32,
    data: Seq<u8>,
    new_width: u32,
    new_height: u32,
) -> Seq<u8>;

/// The bytes that `image::write_buffer_with_format` produces when it
/// serializes the `width` by `height` RGBA8 image `data` in `format`,
/// `None` where the encoder reports an error.
pub uninterp spec fn encoded_rgba(
    width: u32,
    height: u32,
    data: Seq<u8>,
    format: FormatTag,
) -> Option<Seq<u8>>;

/// Relies on `image::guess_format`: detects the encoding from the magic
/// bytes at the start of the buffer; the result depends on the bytes alone.
#[verifier::external_body]
pub(crate) fn detect_format(bytes: &Vec<u8>) -> (r: Option<FormatTag>)
    ensures
        r == image_format_of(bytes@),
{
    match image::guess_format(bytes) {
        Ok(image::ImageFormat::Png) => Some(FormatTag::Png),
        Ok(image::ImageFormat::Jpeg) => Some(FormatTag::Jpeg),
        _ => None,
    }
}

/// Relies on `image::load_from_memory` and `DynamicImage::to_rgba8`:
/// decodes `bytes` into a fully materialized RGBA8 buffer that covers the
/// image's width and height at 4 bytes per pixel; the result depends on the
/// bytes alone.
#[verifier::external_body]
pub(crate) fn decode_rgba(bytes: &Vec<u8>) -> (r: Option<(u32, u32, Vec<u8>)>)
    ensures
        match r {
            Some((width, height, data)) => decoded_rgba(bytes@) == Some(
                (width, height, data@),
            ) && data@.len() == width * height * 4,
            None => decoded_rgba(bytes@) is None,
        },
{
    match image::load_from_memory(bytes) {
        Ok(img) => {
            let rgba = img.to_rgba8();
            let (width, height) = rgba.dimensions();
            Some((width, height, rgba.into_raw()))
        },
        Err(_) => None,
    }
}

/// Relies on `image::imageops::resize` with `FilterType::Triangle`: returns
/// a new, independently owned RGBA8 buffer of exactly `new_width` by
/// `new_height` pixels; the result depends on the arguments alone.
#[verifier::external_body]
pub(crate) fn resize_rgba(
    width: u32,
    height: u32,
    data: &Vec<u8>,
    new_width: u32,
    new_height: u32,
) -> (r: Vec<u8>)
    requires
        data@.len() == width * height * 4,
        width > 0 && height > 0 && new_width > 0 && new_height > 0,
        new_width * new_height * 4 <= usize::MAX,
    ensures
        r@ == resized_rgba(width, height, data@, new_width, new_height),
        r@.len() == new_width * new_height * 4,
{
    let buffer: image::RgbaImage = image::RgbaImage::from_raw(width, height, data.clone())
        .unwrap();
    let resized = image::imageops::resize(
        &buffer,
        new_width,
        new_height,
        image::imageops::FilterType::Triangle,
    );
    resized.into_raw()
}

/// Relies on `image::write_buffer_with_format`: serializes the `width` by
/// `height` RGBA8 image `data` in `format`'s on-disk encoding, in memory;
/// the result depends on the arguments alone.
#[verifier::external_body]
pub(crate) fn encode_rgba(
    width: u32,
    height: u32,
    data: &Vec<u8>,
    format: FormatTag,
) -> (r: Option<Vec<u8>>)
    requires
        data@.len() == width * height * 4,
    ensures
        match r {
            Some(enc) => encoded_rgba(width, height, data@, format) == Some(enc@),
            None => encoded_rgba(width, height, data@, format) is None,
        },
{
    let fmt = match format {
        FormatTag::Png => image::ImageFormat::Png,
        FormatTag::Jpeg => image::ImageFormat::Jpeg,
    };
    let mut cursor = std::io::Cursor::new(Vec::new());
    let color = image::ColorType::Rgba8;
    match image::write_buffer_with_format(&mut cursor, data, width, height, color, fmt) {
        Ok(()) => Some(cursor.into_inner()),
        Err(_) => None,
    }
}

} // verus!
