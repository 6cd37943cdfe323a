//! Combines two raster images of the same encoding into one output image by
//! interleaving their pixel data in alternating 4-byte RGBA blocks.
//!
//! The pipeline: decode both inputs and discover their encodings, check that
//! the encodings match, resize the larger image down to the smaller one's
//! dimensions, merge the two equal-sized RGBA buffers pixel-pair by
//! pixel-pair, validate the result against a preallocated capacity, and
//! re-encode it in the shared input format. Reading the input files and
//! writing the output file are left to the caller, which hands raw bytes in
//! and takes encoded bytes back.

pub mod codec;
pub mod img;

pub use img::alternate_pixels;
pub use img::combine_images;
pub use img::find_image_from_path;
pub use img::get_image_dimensions;
pub use img::run;
pub use img::standardize_size;
pub use img::Args;
pub use img::DecodedImage;
pub use img::FloatingImage;
pub use img::FormatTag;
pub use img::ImageDataErrors;
