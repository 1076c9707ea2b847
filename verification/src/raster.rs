//! The decoded source image, held by the `image` crate's buffer.
//!
//! The buffer is opaque to the verifier. What the library relies on when it
//! builds or reads one is stated here, on the trusted functions of this file,
//! and is not proved.

use vstd::prelude::*;

verus! {

/// A decoded image of 8-bit red, green and blue samples.
#[verifier::external_body]
pub struct RgbRaster {
    inner: image::RgbImage,
}

/// Number of pixel columns of an image.
pub uninterp spec fn image_width(img: RgbRaster) -> nat;

/// Number of pixel rows of an image.
pub uninterp spec fn image_height(img: RgbRaster) -> nat;

/// The pixels of an image: the red, green and blue sample of the pixel in
/// column `x` and row `y` stand under the key `(x, y)`.
pub uninterp spec fn image_pixels(img: RgbRaster) -> Map<(int, int), (u8, u8, u8)>;

/// Whether `len` samples are enough for an image of the given size: three
/// samples for each pixel, counted without leaving the range of `usize`.
pub open spec fn samples_fit(width: u32, height: u32, len: nat) -> bool {
    &&& 3 * width <= usize::MAX
    &&& 3 * width * height <= len
}

/// The pixel at `(x, y)` of a row-major run of samples, `width` pixels a row.
pub open spec fn pixel_of_samples(samples: Seq<u8>, width: int, x: int, y: int) -> (u8, u8, u8) {
    let at = 3 * (y * width + x);
    (samples[at], samples[at + 1], samples[at + 2])
}

/// `ImageBuffer::from_raw` for RGB samples in a `Vec`. It gives an image
/// exactly when the samples are enough for `width * height` pixels; the image
/// then has that size and reads its pixels row by row from the samples, three
/// to a pixel.
#[verifier::external_body]
pub(crate) fn buffer_from_raw(width: u32, height: u32, samples: Vec<u8>) -> (made: Option<
    RgbRaster,
>)
    ensures
        made.is_some() <==> samples_fit(width, height, samples@.len()),
        made matches Some(img) ==> {
            &&& image_width(img) == width
            &&& image_height(img) == height
            &&& forall|x: int, y: int|
                0 <= x < width && 0 <= y < height ==> #[trigger] image_pixels(img)[(x, y)]
                    == pixel_of_samples(samples@, width as int, x, y)
        },
{
    match image::RgbImage::from_raw(width, height, samples) {
        Some(inner) => Some(RgbRaster { inner }),
        None => None,
    }
}

/// `ImageBuffer::dimensions`: the width and the height of the image.
#[verifier::external_body]
pub(crate) fn buffer_dimensions(img: &RgbRaster) -> (size: (u32, u32))
    ensures
        size.0 == image_width(*img),
        size.1 == image_height(*img),
{
    img.inner.dimensions()
}

/// `ImageBuffer::get_pixel`: the three samples of the pixel at `(x, y)`. The
/// outside function panics on coordinates beyond the image; `requires` leaves
/// them out.
#[verifier::external_body]
pub(crate) fn buffer_get_pixel(img: &RgbRaster, x: u32, y: u32) -> (rgb: (u8, u8, u8))
    requires
        x < image_width(*img),
        y < image_height(*img),
    ensures
        rgb == image_pixels(*img)[(x as int, y as int)],
{
    let pixel = img.inner.get_pixel(x, y);
    (pixel.0[0], pixel.0[1], pixel.0[2])
}

impl RgbRaster {
    /// Makes an image of `width` by `height` pixels from row-major samples,
    /// three to a pixel. Gives nothing when the samples are too few.
    pub fn from_raw(width: u32, height: u32, samples: Vec<u8>) -> (made: Option<RgbRaster>)
        ensures
            made.is_some() <==> samples_fit(width, height, samples@.len()),
            made matches Some(img) ==> {
                &&& image_width(img) == width
                &&& image_height(img) == height
                &&& forall|x: int, y: int|
                    0 <= x < width && 0 <= y < height ==> #[trigger] image_pixels(img)[(x, y)]
                        == pixel_of_samples(samples@, width as int, x, y)
            },
    {
        buffer_from_raw(width, height, samples)
    }

    /// Width and height of the image, in pixels.
    pub fn dimensions(&self) -> (size: (u32, u32))
        ensures
            size.0 == image_width(*self),
            size.1 == image_height(*self),
    {
        buffer_dimensions(self)
    }
}

} // verus!
