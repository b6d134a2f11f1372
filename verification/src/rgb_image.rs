use vstd::prelude::*;

use image::DynamicImage;

verus! {

#[verifier::external_type_specification]
#[verifier::external_body]
pub struct ExDynamicImage(DynamicImage);

/// The picture that `image::RgbImage::from_raw` builds from a width, a height and
/// row-major RGB8 bytes, wrapped as `DynamicImage::ImageRgb8`.
pub uninterp spec fn rgb8_image(width: u32, height: u32, pixels: Seq<u8>) -> DynamicImage;

/// Calls `image::RgbImage::from_raw` and wraps the result as `DynamicImage::ImageRgb8`.
/// The image crate returns an image exactly when the buffer holds at least
/// `3 * width * height` bytes (the product taken without overflow); the image is then
/// built from the three arguments alone.
#[verifier::external_body]
pub(crate) fn rgb8_image_from_raw(width: u32, height: u32, buf: Vec<u8>) -> (image: Option<
    DynamicImage,
>)
    ensures
        image is Some <==> 3 * width * height <= buf@.len(),
        image matches Some(img) ==> img == rgb8_image(width, height, buf@),
{
    image::RgbImage::from_raw(width, height, buf).map(DynamicImage::ImageRgb8)
}

} // verus!
