use printpdf::image_crate::DynamicImage;
use vstd::prelude::*;

verus! {

#[verifier::external_type_specification]
#[verifier::external_body]
pub struct ExDynamicImage(DynamicImage);

/// The width and height, in pixels, that image reports for a buffer.
pub uninterp spec fn pixel_size_of(image: DynamicImage) -> (u32, u32);

/// Relies on image's `GenericImageView::dimensions` for `DynamicImage`:
/// the width and height of the buffer, in pixels, which depend on the
/// buffer alone.
#[verifier::external_body]
fn pixel_dimensions(pixels: &DynamicImage) -> (r: (u32, u32))
    ensures
        r == pixel_size_of(*pixels),
{
    printpdf::image_crate::GenericImageView::dimensions(pixels)
}

/// A decoded raster image together with its pixel dimensions, read once
/// from the buffer when the image is taken in.
pub struct DecodedImage {
    width: u32,
    height: u32,
    pixels: DynamicImage,
}

impl DecodedImage {
    pub closed spec fn spec_width(&self) -> nat {
        self.width as nat
    }

    pub closed spec fn spec_height(&self) -> nat {
        self.height as nat
    }

    pub closed spec fn spec_pixels(&self) -> DynamicImage {
        self.pixels
    }

    /// Takes ownership of a decoded buffer and records its dimensions.
    pub fn from_dynamic(pixels: DynamicImage) -> (r: DecodedImage)
        ensures
            r.spec_pixels() == pixels,
            r.spec_width() == pixel_size_of(pixels).0,
            r.spec_height() == pixel_size_of(pixels).1,
    {
        let (width, height) = pixel_dimensions(&pixels);
        DecodedImage { width, height, pixels }
    }

    pub fn width(&self) -> (r: u32)
        ensures
            r == self.spec_width(),
    {
        self.width
    }

    pub fn height(&self) -> (r: u32)
        ensures
            r == self.spec_height(),
    {
        self.height
    }

    pub fn pixels(&self) -> (r: &DynamicImage)
        ensures
            *r == self.spec_pixels(),
    {
        &self.pixels
    }

    pub fn into_pixels(self) -> (r: DynamicImage)
        ensures
            r == self.spec_pixels(),
    {
        self.pixels
    }
}

} // verus!
