//! The image-combination logic: data types for decoded and output images,
//! the alternating-pixel merge, size standardization, and the pipeline that
//! strings them together over raw file bytes.

use vstd::prelude::*;

use crate::codec::decode_rgba;
use crate::codec::decoded_rgba;
use crate::codec::detect_format;
use crate::codec::encode_rgba;
use crate::codec::encoded_rgba;
use crate::codec::image_format_of;
use crate::codec::resize_rgba;
use crate::codec::resized_rgba;

verus! {

/// Identifier of an image's on-disk encoding.
#[derive(Clone, Copy, Debug, PartialEq, Eq, Structural)]
pub enum FormatTag {
    Png,
    Jpeg,
}

/// The error kinds the combination pipeline can report.
#[derive(Clone, Copy, Debug, PartialEq, Eq, Structural)]
pub enum ImageDataErrors {
    /// A path could not be read or written.
    IoError,
    /// The image data is malformed or its encoding is not recognized.
    DecodeError,
    /// The two inputs carry different encodings, or buffers that should
    /// match in size do not.
    FormatMismatch,
    /// An image has a zero width or height.
    InvalidDimensions,
    /// The combined data exceeds the output buffer's capacity.
    BufferTooSmall,
    /// The output could not be serialized in the requested format.
    EncodeError,
}

/// The three-path configuration of one run: the two input image paths and
/// the output path, passed into the core as plain data.
#[derive(Debug)]
pub struct Args {
    pub image_1: String,
    pub image_2: String,
    pub output: String,
}

/// An in-memory raster image: dimensions, fully materialized RGBA8 pixel
/// data (4 bytes per pixel, row-major), and the encoding it was decoded
/// from.
pub struct DecodedImage {
    pub width: u32,
    pub height: u32,
    pub data: Vec<u8>,
    pub format: FormatTag,
}

impl DecodedImage {
    /// The pixel data covers the dimensions exactly, at 4 bytes per pixel.
    pub open spec fn wf(&self) -> bool {
        self.data@.len() == self.width * self.height * 4
    }
}

/// The byte at offset `j` of the combination of two equal-length RGBA
/// buffers: bytes of even-indexed pixels (4-byte blocks whose byte offset
/// is a multiple of 8) come from `a`, bytes of odd-indexed pixels from `b`.
pub open spec fn combined_byte(a: Seq<u8>, b: Seq<u8>, j: int) -> u8 {
    if (j / 4) % 2 == 0 {
        a[j]
    } else {
        b[j]
    }
}

/// The combination of two equal-length RGBA buffers: pixels 0, 2, 4, ...
/// are taken from `a`, pixels 1, 3, 5, ... from `b`.
pub open spec fn combine_spec(a: Seq<u8>, b: Seq<u8>) -> Seq<u8> {
    Seq::new(a.len(), |j: int| combined_byte(a, b, j))
}

/// The `k`-th 4-byte RGBA pixel of buffer `s`.
pub open spec fn pixel_of(s: Seq<u8>, k: int) -> Seq<u8> {
    s.subrange(4 * k, 4 * k + 4)
}

/// Build a vector of RGBA pixels by picking alternating 4-byte blocks from
/// the given vectors (bytes 0..=3 from the first one, 4..=7 from the
/// second, 8..=11 from the first, and so on).
pub fn alternate_pixels(vec_1: Vec<u8>, vec_2: Vec<u8>) -> (r: Vec<u8>)
    requires
        vec_1@.len() == vec_2@.len(),
    ensures
        r@ == combine_spec(vec_1@, vec_2@),
        r@.len() == vec_1@.len(),
{
    let mut combined_data: Vec<u8> = Vec::new();
    let mut j: usize = 0;
    while j < vec_1.len()
        invariant
            vec_1@.len() == vec_2@.len(),
            j <= vec_1@.len(),
            combined_data@.len() == j,
            forall|k: int| 0 <= k < j ==> combined_data@[k] == combined_byte(vec_1@, vec_2@, k),
        decreases vec_1@.len() - j,
    {
        let i = j / 4 * 4;
        if i % 8 == 0 {
            combined_data.push(vec_1[j]);
        } else {
            combined_data.push(vec_2[j]);
        }
        proof {
            assert(i % 8 == 0 <==> ((j as int) / 4) % 2 == 0) by (nonlinear_arith)
                requires
                    i == (j as int) / 4 * 4,
            ;
        }
        j = j + 1;
    }
    proof {
        assert(combined_data@ =~= combine_spec(vec_1@, vec_2@));
    }
    combined_data
}

/// The combination keeps the input length, and its pixel `k` is pixel `k`
/// of `a` for even `k` and pixel `k` of `b` for odd `k`: the alternation is
/// pixel-level, with a period of two pixels.
pub proof fn lemma_combine_alternates_pixels(a: Seq<u8>, b: Seq<u8>, k: int)
    requires
        a.len() == b.len(),
        0 <= k,
        4 * k + 4 <= a.len(),
    ensures
        combine_spec(a, b).len() == a.len(),
        k % 2 == 0 ==> pixel_of(combine_spec(a, b), k) == pixel_of(a, k),
        k % 2 == 1 ==> pixel_of(combine_spec(a, b), k) == pixel_of(b, k),
{
    let c = combine_spec(a, b);
    let target = if k % 2 == 0 {
        a
    } else {
        b
    };
    assert forall|m: int| 0 <= m < 4 implies pixel_of(c, k)[m] == pixel_of(target, k)[m] by {
        vstd::arithmetic::div_mod::lemma_fundamental_div_mod_converse(4 * k + m, 4, k, m);
        assert(pixel_of(c, k)[m] == c[4 * k + m]);
        assert(pixel_of(target, k)[m] == target[4 * k + m]);
    }
    assert(pixel_of(c, k) =~= pixel_of(target, k));
}

/// The combination is not commutative: for equal-length buffers that differ
/// anywhere, swapping the inputs changes the output.
pub proof fn lemma_combine_not_commutative(a: Seq<u8>, b: Seq<u8>)
    requires
        a.len() == b.len(),
        a != b,
    ensures
        combine_spec(a, b) != combine_spec(b, a),
{
    if combine_spec(a, b) == combine_spec(b, a) {
        assert forall|j: int| 0 <= j < a.len() implies a[j] == b[j] by {
            assert(combine_spec(a, b)[j] == combine_spec(b, a)[j]);
        }
        assert(a =~= b);
    }
}

/// Merge two decoded images by the alternating-pixel algorithm. The inputs
/// are expected to hold equal-length buffers (standardization guarantees
/// it); a length mismatch is rejected as a defensive check rather than
/// reached out of bounds.
pub fn combine_images(image_1: DecodedImage, image_2: DecodedImage) -> (r: Result<
    Vec<u8>,
    ImageDataErrors,
>)
    ensures
        match r {
            Ok(v) => image_1.data@.len() == image_2.data@.len() && v@ == combine_spec(
                image_1.data@,
                image_2.data@,
            ),
            Err(e) => e == ImageDataErrors::FormatMismatch && image_1.data@.len()
                != image_2.data@.len(),
        },
{
    if image_1.data.len() != image_2.data.len() {
        return Err(ImageDataErrors::FormatMismatch);
    }
    Ok(alternate_pixels(image_1.data, image_2.data))
}

/// What size standardization does to two images given as (width, height,
/// RGBA8 data) triples: the image with the strictly smaller pixel count is
/// the reference and is returned unchanged; the other is resampled to the
/// reference's dimensions; on a pixel-count tie neither is touched.
pub open spec fn standardized(
    w1: u32,
    h1: u32,
    d1: Seq<u8>,
    w2: u32,
    h2: u32,
    d2: Seq<u8>,
) -> ((u32, u32, Seq<u8>), (u32, u32, Seq<u8>)) {
    if w1 * h1 < w2 * h2 {
        ((w1, h1, d1), (w1, h1, resized_rgba(w2, h2, d2, w1, h1)))
    } else if w2 * h2 < w1 * h1 {
        ((w2, h2, resized_rgba(w1, h1, d1, w2, h2)), (w2, h2, d2))
    } else {
        ((w1, h1, d1), (w2, h2, d2))
    }
}

/// Whichever input has the strictly smaller pixel count keeps its
/// dimensions and its data; only the other one is resized; on a tie,
/// neither is.
pub proof fn lemma_standardize_resizes_larger_only(
    w1: u32,
    h1: u32,
    d1: Seq<u8>,
    w2: u32,
    h2: u32,
    d2: Seq<u8>,
)
    ensures
        w1 * h1 < w2 * h2 ==> standardized(w1, h1, d1, w2, h2, d2).0 == (w1, h1, d1),
        w2 * h2 < w1 * h1 ==> standardized(w1, h1, d1, w2, h2, d2).1 == (w2, h2, d2),
        w1 * h1 == w2 * h2 ==> standardized(w1, h1, d1, w2, h2, d2) == (
            (w1, h1, d1),
            (w2, h2, d2),
        ),
{
}

/// Standardization yields two images of equal dimensions, and where the
/// pixel counts differ those are the original dimensions of the input with
/// the smaller count. A pixel-count tie between images of different shapes
/// (the counts equal, the dimensions not) is left out: there neither image
/// is resized, so the dimensions stay distinct.
pub proof fn lemma_standardize_equalizes_dimensions(
    w1: u32,
    h1: u32,
    d1: Seq<u8>,
    w2: u32,
    h2: u32,
    d2: Seq<u8>,
)
    requires
        w1 * h1 == w2 * h2 ==> w1 == w2 && h1 == h2,
    ensures
        ({
            let ((wa, ha, da), (wb, hb, db)) = standardized(w1, h1, d1, w2, h2, d2);
            &&& wa == wb
            &&& ha == hb
            &&& (w1 * h1 < w2 * h2 ==> wa == w1 && ha == h1)
            &&& (w2 * h2 < w1 * h1 ==> wa == w2 && ha == h2)
        }),
{
}

/// A pixel count, the product of two dimensions, fits in 64 bits.
proof fn lemma_pixel_count_fits_u64(x: u32, y: u32)
    ensures
        (x as int) * (y as int) <= u64::MAX as int,
{
    assert((x as int) * (y as int) <= 0xffff_ffff * 0xffff_ffff) by (nonlinear_arith)
        requires
            x as int <= 0xffff_ffff,
            y as int <= 0xffff_ffff,
    ;
}

/// Resize the bigger image to fit the smaller one's size, using a smooth
/// (triangle) resampling filter. Returns new, independently owned images;
/// neither input is mutated in place. An image with a zero width or height
/// is rejected rather than resized to nothing.
pub fn standardize_size(image_1: DecodedImage, image_2: DecodedImage) -> (r: Result<
    (DecodedImage, DecodedImage),
    ImageDataErrors,
>)
    requires
        image_1.wf(),
        image_2.wf(),
    ensures
        match r {
            Ok((a, b)) => {
                &&& image_1.width > 0 && image_1.height > 0 && image_2.width > 0
                    && image_2.height > 0
                &&& a.format == image_1.format
                &&& b.format == image_2.format
                &&& (a.width, a.height, a.data@) == standardized(
                    image_1.width,
                    image_1.height,
                    image_1.data@,
                    image_2.width,
                    image_2.height,
                    image_2.data@,
                ).0
                &&& (b.width, b.height, b.data@) == standardized(
                    image_1.width,
                    image_1.height,
                    image_1.data@,
                    image_2.width,
                    image_2.height,
                    image_2.data@,
                ).1
                &&& a.wf()
                &&& b.wf()
            },
            Err(e) => {
                &&& e == ImageDataErrors::InvalidDimensions
                &&& (image_1.width == 0 || image_1.height == 0 || image_2.width == 0
                    || image_2.height == 0)
            },
        },
{
    if image_1.width == 0 || image_1.height == 0 || image_2.width == 0 || image_2.height == 0 {
        return Err(ImageDataErrors::InvalidDimensions);
    }
    proof {
        lemma_pixel_count_fits_u64(image_1.width, image_1.height);
        lemma_pixel_count_fits_u64(image_2.width, image_2.height);
    }
    let pixels_1: u64 = (image_1.width as u64) * (image_1.height as u64);
    let pixels_2: u64 = (image_2.width as u64) * (image_2.height as u64);
    if pixels_1 < pixels_2 {
        // The reference buffer already holds width * height * 4 bytes, so
        // the resized buffer's length fits in usize.
        let _reference_len: usize = image_1.data.len();
        let resized = resize_rgba(
            image_2.width,
            image_2.height,
            &image_2.data,
            image_1.width,
            image_1.height,
        );
        let image_2_resized = DecodedImage {
            width: image_1.width,
            height: image_1.height,
            data: resized,
            format: image_2.format,
        };
        Ok((image_1, image_2_resized))
    } else if pixels_2 < pixels_1 {
        // As above: the reference buffer bounds the resized buffer's length.
        let _reference_len: usize = image_2.data.len();
        let resized = resize_rgba(
            image_1.width,
            image_1.height,
            &image_1.data,
            image_2.width,
            image_2.height,
        );
        let image_1_resized = DecodedImage {
            width: image_2.width,
            height: image_2.height,
            data: resized,
            format: image_1.format,
        };
        Ok((image_1_resized, image_2))
    } else {
        Ok((image_1, image_2))
    }
}

/// Get image dimensions in a (width, height) tuple.
pub fn get_image_dimensions(image: &DecodedImage) -> (r: (u32, u32))
    ensures
        r == (image.width, image.height),
{
    (image.width, image.height)
}

/// The output image: dimensions, a data buffer with a fixed preallocated
/// capacity sized to cover exactly `width * height` RGBA pixels, and the
/// destination name. The buffer starts empty and is populated once with
/// the combination result.
pub struct FloatingImage {
    pub width: u32,
    pub height: u32,
    pub data: Vec<u8>,
    pub capacity: usize,
    pub name: String,
}

impl FloatingImage {
    /// Creates a new `FloatingImage` with an empty data buffer whose
    /// preallocated capacity is `width * height * 4` bytes.
    pub fn new(width: u32, height: u32, name: String) -> (r: FloatingImage)
        requires
            width * height * 4 <= usize::MAX,
        ensures
            r.width == width,
            r.height == height,
            r.name == name,
            r.capacity == width * height * 4,
            r.data@.len() == 0,
    {
        let buffer_capacity: usize = (width as usize) * (height as usize) * 4;
        let buffer: Vec<u8> = Vec::with_capacity(buffer_capacity);
        FloatingImage { width, height, data: buffer, capacity: buffer_capacity, name }
    }

    /// Stores `data` as the image's buffer, replacing any prior contents.
    /// Fails with `BufferTooSmall`, leaving the image untouched, exactly
    /// when `data` is longer than the preallocated capacity.
    pub fn set_data(&mut self, data: Vec<u8>) -> (r: Result<(), ImageDataErrors>)
        ensures
            match r {
                Ok(()) => {
                    &&& data@.len() <= old(self).capacity
                    &&& final(self).data@ == data@
                    &&& final(self).width == old(self).width
                    &&& final(self).height == old(self).height
                    &&& final(self).capacity == old(self).capacity
                    &&& final(self).name == old(self).name
                },
                Err(e) => {
                    &&& e == ImageDataErrors::BufferTooSmall
                    &&& data@.len() > old(self).capacity
                    &&& *final(self) == *old(self)
                },
            },
    {
        if data.len() > self.capacity {
            return Err(ImageDataErrors::BufferTooSmall);
        }
        self.data = data;
        Ok(())
    }

    /// Serializes the stored RGBA8 buffer at (width, height) in `format`'s
    /// on-disk encoding. The caller persists the returned bytes at `name`;
    /// nothing is handed out on an encoder failure, so a failed run writes
    /// no partial output.
    pub fn encode(&self, format: FormatTag) -> (r: Result<Vec<u8>, ImageDataErrors>)
        requires
            self.data@.len() == self.width * self.height * 4,
        ensures
            match r {
                Ok(enc) => encoded_rgba(self.width, self.height, self.data@, format) == Some(
                    enc@,
                ),
                Err(e) => e == ImageDataErrors::EncodeError && encoded_rgba(
                    self.width,
                    self.height,
                    self.data@,
                    format,
                ) is None,
            },
    {
        match encode_rgba(self.width, self.height, &self.data, format) {
            Some(enc) => Ok(enc),
            None => Err(ImageDataErrors::EncodeError),
        }
    }
}

/// What the whole pipeline yields on the raw contents of the two input
/// files: the output image's dimensions, its combined RGBA8 data, and the
/// shared encoding format, or the error that stops the run. Decoding
/// failures are reported first (the first input's before the second's),
/// then an encoding mismatch, then zero dimensions; re-encoding comes after
/// and is not covered here.
pub open spec fn run_spec(bytes_1: Seq<u8>, bytes_2: Seq<u8>) -> Result<
    (u32, u32, Seq<u8>, FormatTag),
    ImageDataErrors,
> {
    match (image_format_of(bytes_1), decoded_rgba(bytes_1)) {
        (Some(format_1), Some((w1, h1, d1))) => match (
            image_format_of(bytes_2),
            decoded_rgba(bytes_2),
        ) {
            (Some(format_2), Some((w2, h2, d2))) => {
                if format_1 != format_2 {
                    Err(ImageDataErrors::FormatMismatch)
                } else if w1 == 0 || h1 == 0 || w2 == 0 || h2 == 0 {
                    Err(ImageDataErrors::InvalidDimensions)
                } else {
                    let ((wa, ha, da), (wb, hb, db)) = standardized(w1, h1, d1, w2, h2, d2);
                    Ok((wa, ha, combine_spec(da, db), format_1))
                }
            },
            _ => Err(ImageDataErrors::DecodeError),
        },
        _ => Err(ImageDataErrors::DecodeError),
    }
}

/// Reads an image out of the raw contents of an image file (the caller
/// opens the path and hands its bytes in) and returns both the decoded
/// image and its detected encoding format. The format is discovered from
/// the file's leading bytes before the pixel data is decoded.
pub fn find_image_from_path(file_bytes: &Vec<u8>) -> (r: Result<
    (DecodedImage, FormatTag),
    ImageDataErrors,
>)
    ensures
        match r {
            Ok((image, format)) => {
                &&& image_format_of(file_bytes@) == Some(format)
                &&& image.format == format
                &&& decoded_rgba(file_bytes@) == Some((image.width, image.height, image.data@))
                &&& image.wf()
            },
            Err(e) => e == ImageDataErrors::DecodeError && (image_format_of(file_bytes@) is None
                || decoded_rgba(file_bytes@) is None),
        },
{
    let format = match detect_format(file_bytes) {
        Some(format) => format,
        None => {
            return Err(ImageDataErrors::DecodeError);
        },
    };
    match decode_rgba(file_bytes) {
        Some((width, height, data)) => Ok((DecodedImage { width, height, data, format }, format)),
        None => Err(ImageDataErrors::DecodeError),
    }
}

/// Runs the whole combination on the raw contents of the two input files:
/// decode both and discover their formats, reject mismatched encodings
/// before any resizing or combination work, standardize sizes, merge by
/// alternating pixels, store the result in a `FloatingImage` named
/// `output`, and serialize it in the shared input format. Returns the
/// populated output image together with its encoded bytes; the caller
/// writes those bytes to the output path.
pub fn run(bytes_1: &Vec<u8>, bytes_2: &Vec<u8>, output: String) -> (r: Result<
    (FloatingImage, Vec<u8>),
    ImageDataErrors,
>)
    ensures
        match r {
            Ok((image, encoded)) => match run_spec(bytes_1@, bytes_2@) {
                Ok((width, height, combined, format)) => {
                    &&& image.width == width
                    &&& image.height == height
                    &&& image.data@ == combined
                    &&& image.capacity == width * height * 4
                    &&& image.name == output
                    &&& encoded_rgba(width, height, combined, format) == Some(encoded@)
                },
                Err(_) => false,
            },
            Err(e) => match run_spec(bytes_1@, bytes_2@) {
                Ok((width, height, combined, format)) => e == ImageDataErrors::EncodeError
                    && encoded_rgba(width, height, combined, format) is None,
                Err(expected) => e == expected,
            },
        },
{
    let (image_1, format_1) = match find_image_from_path(bytes_1) {
        Ok(found) => found,
        Err(e) => {
            return Err(e);
        },
    };
    let (image_2, format_2) = match find_image_from_path(bytes_2) {
        Ok(found) => found,
        Err(e) => {
            return Err(e);
        },
    };
    if format_1 != format_2 {
        return Err(ImageDataErrors::FormatMismatch);
    }
    let (image_1, image_2) = match standardize_size(image_1, image_2) {
        Ok(pair) => pair,
        Err(e) => {
            return Err(e);
        },
    };
    let (width, height) = get_image_dimensions(&image_1);
    let combined_data = match combine_images(image_1, image_2) {
        Ok(data) => data,
        Err(e) => {
            // Standardization left the two buffers with equal lengths.
            proof {
                assert(false);
            }
            return Err(e);
        },
    };
    // The combined buffer's length shows that the output image's capacity,
    // width * height * 4, fits in usize.
    let _combined_len: usize = combined_data.len();
    let mut output_image = FloatingImage::new(width, height, output);
    match output_image.set_data(combined_data) {
        Ok(()) => {},
        Err(e) => {
            // The combined data's length equals the preallocated capacity.
            proof {
                assert(false);
            }
            return Err(e);
        },
    };
    match output_image.encode(format_1) {
        Ok(encoded) => Ok((output_image, encoded)),
        Err(e) => Err(e),
    }
}

} // verus!
