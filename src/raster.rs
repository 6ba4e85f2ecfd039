//! RGBA bitmaps, and decoding and rescaling of raster files.
use vstd::prelude::*;
use crate::error::IconError;

verus! {

/// A bitmap of `width` by `height` pixels, stored row-major with four bytes
/// (red, green, blue, alpha) per pixel and no padding.
#[derive(Clone, Debug)]
pub struct RgbaImage {
    pub width: u32,
    pub height: u32,
    pub pixels: Vec<u8>,
}

/// Byte length of an RGBA buffer of the given size.
pub open spec fn rgba_len(width: u32, height: u32) -> int {
    width as int * height as int * 4
}

impl RgbaImage {
    /// The buffer holds exactly four bytes for each pixel.
    pub open spec fn well_formed(&self) -> bool {
        self.pixels@.len() == rgba_len(self.width, self.height)
    }

    /// The image is well formed and has the given size.
    pub open spec fn has_size(&self, width: u32, height: u32) -> bool {
        self.well_formed() && self.width == width && self.height == height
    }
}

#[verifier::external_type_specification]
#[verifier::external_body]
pub struct ExDynamicImage(image::DynamicImage);

#[verifier::external_type_specification]
#[verifier::external_body]
pub struct ExImageError(image::ImageError);

/// Whether `image::load_from_memory` decodes a byte string.
pub uninterp spec fn decodes(bytes: Seq<u8>) -> bool;

/// Relies on `image::load_from_memory`: it guesses the format from the bytes
/// and decodes them; whether it succeeds depends on the bytes alone.
#[verifier::external_body]
fn decode_image(bytes: &[u8]) -> (r: Result<image::DynamicImage, image::ImageError>)
    ensures
        r is Ok == decodes(bytes@),
{
    image::load_from_memory(bytes)
}

/// Relies on `DynamicImage::resize_exact` with the Lanczos3 filter: the new
/// image is exactly `width` by `height`, whatever the aspect ratio. Its RGBA8
/// form (`to_rgba8`) then holds four bytes per pixel, which `into_raw` hands
/// over.
#[verifier::external_body]
fn resize_exact_rgba(img: &image::DynamicImage, width: u32, height: u32) -> (r: Vec<u8>)
    requires
        rgba_len(width, height) <= usize::MAX,
    ensures
        r@.len() == rgba_len(width, height),
{
    img.resize_exact(width, height, image::imageops::FilterType::Lanczos3).to_rgba8().into_raw()
}

/// Decodes an encoded raster file and rescales it to exactly `width` by
/// `height` pixels. Bytes that do not decode give `DecodeError`.
pub fn decode_scaled(bytes: &[u8], width: u32, height: u32) -> (r: Result<RgbaImage, IconError>)
    requires
        rgba_len(width, height) <= usize::MAX,
    ensures
        match r {
            Ok(img) => decodes(bytes@) && img.has_size(width, height),
            Err(e) => !decodes(bytes@) && e == IconError::DecodeError,
        },
{
    match decode_image(bytes) {
        Ok(img) => {
            let pixels = resize_exact_rgba(&img, width, height);
            Ok(RgbaImage { width, height, pixels })
        },
        Err(_) => Err(IconError::DecodeError),
    }
}

} // verus!
