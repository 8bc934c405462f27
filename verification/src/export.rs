//! Hand-off of a finished pixel buffer to the `image` crate, whose RGBA
//! image type downstream encoders consume. The image is carried opaquely;
//! its dimensions and bytes are named, and the packing is proved to keep
//! both.

use vstd::prelude::*;
use vstd::pervasive::unreached;
use crate::readback::PixelBuffer;

verus! {

/// An RGBA image of the `image` crate, held opaquely.
#[verifier::external_body]
pub struct RgbaImageHandle {
    img: image::RgbaImage,
}

/// The raw bytes an RGBA image holds, row-major.
pub uninterp spec fn image_bytes(img: RgbaImageHandle) -> Seq<u8>;

/// The dimensions of an RGBA image, width then height.
pub uninterp spec fn image_size(img: RgbaImageHandle) -> (int, int);

/// Relies on image::ImageBuffer::from_raw: it yields an image exactly when
/// the container holds at least `width * height * 4` bytes (its fit check,
/// which also rejects dimensions whose byte count overflows), and the image
/// then keeps the container and the given dimensions.
#[verifier::external_body]
fn rgba_from_raw(width: u32, height: u32, data: Vec<u8>) -> (r: Option<RgbaImageHandle>)
    ensures
        (r is Some <==> 4 * (width as int) * (height as int) <= data@.len()),
        r matches Some(img) ==> image_bytes(img) == data@ && image_size(img) == (
            width as int,
            height as int,
        ),
{
    match image::RgbaImage::from_raw(width, height, data) {
        Some(img) => Some(RgbaImageHandle { img }),
        None => None,
    }
}

impl RgbaImageHandle {
    /// Relies on image::ImageBuffer::width and height: they return the
    /// dimensions the image was made with.
    #[verifier::external_body]
    fn raw_dimensions(&self) -> (d: (u32, u32))
        ensures
            (d.0 as int, d.1 as int) == image_size(*self),
    {
        (self.img.width(), self.img.height())
    }

    /// Relies on image::ImageBuffer::into_raw: it returns the image's
    /// container unchanged.
    #[verifier::external_body]
    fn raw_bytes(self) -> (b: Vec<u8>)
        ensures
            b@ == image_bytes(self),
    {
        self.img.into_raw()
    }

    /// The image's dimensions, width then height.
    pub fn dimensions(&self) -> (d: (u32, u32))
        ensures
            (d.0 as int, d.1 as int) == image_size(*self),
    {
        self.raw_dimensions()
    }

    /// Unwraps the image into its raw row-major RGBA bytes.
    pub fn into_bytes(self) -> (b: Vec<u8>)
        ensures
            b@ == image_bytes(self),
    {
        self.raw_bytes()
    }
}

/// Packs a well-formed pixel buffer into the image library's RGBA image:
/// the image has the buffer's dimensions and holds its bytes unchanged.
pub fn to_rgba_image(buf: PixelBuffer) -> (img: RgbaImageHandle)
    requires
        buf.wf(),
    ensures
        image_size(img) == (buf.width as int, buf.height as int),
        image_bytes(img) == buf.data@,
{
    let width = buf.width;
    let height = buf.height;
    proof {
        assert(4 * (width as int) * (height as int) == (width as int) * (height as int) * 4)
            by (nonlinear_arith);
        assert(4 * (width as int) * (height as int) == buf.data@.len());
    }
    match rgba_from_raw(width, height, buf.data) {
        Some(img) => img,
        None => unreached(),
    }
}

} // verus!
