//! Images as rows of pixels, decoded from PNG data.

use vstd::prelude::*;

verus! {

/// `image::ImageError`, the error of the decoder. It is carried through
/// and never looked into.
#[verifier::external_type_specification]
#[verifier::external_body]
pub struct ExImageError(image::ImageError);

/// An image in memory: four bytes for each pixel (red, green, blue,
/// alpha), row by row from the top.
#[derive(Debug, Clone, PartialEq, Eq)]
pub struct Image {
    pub width: u32,
    pub height: u32,
    pub pixels: Vec<u8>,
}

/// An image as contracts see it.
pub struct ImageView {
    pub width: u32,
    pub height: u32,
    pub pixels: Seq<u8>,
}

impl View for Image {
    type V = ImageView;

    open spec fn view(&self) -> ImageView {
        ImageView { width: self.width, height: self.height, pixels: self.pixels@ }
    }
}

/// Why data could not be decoded.
#[derive(Debug, Clone, PartialEq, Eq)]
pub struct DecodeError {
    /// What the decoder says of the failure.
    pub message: String,
}

/// The image that the PNG decoder of the `image` crate makes of `data`,
/// with its pixels converted to eight bits for each of red, green, blue and
/// alpha; `None` where the decoder rejects the data.
pub uninterp spec fn png_image(data: Seq<u8>) -> Option<ImageView>;

/// Calls `image::load_from_memory_with_format` for the PNG format and
/// converts what it returns with `DynamicImage::to_rgba8`.
///
/// Believed without proof: the outcome depends on `data` alone, and a
/// decoded image comes with exactly four bytes for each of its pixels.
#[verifier::external_body]
fn decode_png(data: &[u8]) -> (result: Result<Image, image::ImageError>)
    ensures
        match result {
            Ok(decoded) => png_image(data@) == Some(decoded@) && decoded@.pixels.len() == 4
                * decoded@.width * decoded@.height,
            Err(_) => png_image(data@) is None,
        },
{
    let rgba = image::load_from_memory_with_format(data, image::ImageFormat::Png)?.to_rgba8();
    Ok(Image { width: rgba.width(), height: rgba.height(), pixels: rgba.into_raw() })
}

/// Calls the `Display` implementation of `image::ImageError`. Nothing is
/// claimed of the text.
#[verifier::external_body]
fn describe(error: &image::ImageError) -> (message: String) {
    error.to_string()
}

impl Image {
    /// Every pixel has its four bytes and no byte is left over.
    pub open spec fn well_formed(&self) -> bool {
        self.pixels@.len() == 4 * self.width * self.height
    }

    /// Decodes a PNG file held in memory.
    pub fn new(data: &[u8]) -> (result: Result<Image, DecodeError>)
        ensures
            png_image(data@) is Some <==> result is Ok,
            result matches Ok(decoded) ==> png_image(data@) == Some(decoded@)
                && decoded.well_formed(),
    {
        match decode_png(data) {
            Ok(decoded) => Ok(decoded),
            Err(error) => Err(DecodeError { message: describe(&error) }),
        }
    }

    /// The size of the image as a renderer takes it, which counts pixels in
    /// sixteen bits; `None` for an image that is wider or higher than that
    /// can say.
    pub fn texture_size(&self) -> (size: Option<(u16, u16)>)
        ensures
            self.width <= u16::MAX && self.height <= u16::MAX ==> size == Some(
                (self.width as u16, self.height as u16),
            ),
            self.width > u16::MAX || self.height > u16::MAX ==> size is None,
    {
        if self.width <= 65535 && self.height <= 65535 {
            Some((self.width as u16, self.height as u16))
        } else {
            None
        }
    }
}

} // verus!
