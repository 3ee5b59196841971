//! Slint images made of frames.

use vstd::prelude::*;

verus! {

/// `slint::Image`, a picture that Slint can show.
#[verifier::external_type_specification]
#[verifier::external_body]
pub struct ExImage(slint::Image);

/// A `slint::SharedPixelBuffer` of `slint::Rgba8Pixel`: the pixels of a picture,
/// row by row, four bytes each.
#[verifier::external_body]
pub struct PixelBuffer {
    inner: slint::SharedPixelBuffer<slint::Rgba8Pixel>,
}

/// The bytes of the pixels that a buffer holds, as
/// `slint::SharedPixelBuffer::as_bytes` gives them.
pub uninterp spec fn buffer_bytes(buffer: PixelBuffer) -> Seq<u8>;

/// The width and height that a buffer was made with, as
/// `slint::SharedPixelBuffer::width` and `height` give them.
pub uninterp spec fn buffer_size(buffer: PixelBuffer) -> (u32, u32);

/// The bytes of the pixels that an image holds, as `as_bytes` gives them of the
/// buffer that `slint::Image::to_rgba8` returns.
pub uninterp spec fn image_bytes(image: slint::Image) -> Seq<u8>;

/// The width and height of an image in pixels, as `slint::Image::size` gives
/// them.
pub uninterp spec fn image_size(image: slint::Image) -> (u32, u32);

/// Calls `slint::SharedPixelBuffer::clone_from_slice`, which copies the bytes,
/// four to a pixel, into a new buffer of this width and height. It panics where
/// the number of pixels is not `width * height`; bytes past the last whole pixel
/// would be ignored.
#[verifier::external_body]
fn clone_from_slice(bytes: &[u8], width: u32, height: u32) -> (buffer: PixelBuffer)
    requires
        bytes@.len() == 4 * width * height,
    ensures
        buffer_bytes(buffer) == bytes@,
        buffer_size(buffer) == (width, height),
{
    PixelBuffer { inner: slint::SharedPixelBuffer::clone_from_slice(bytes, width, height) }
}

/// Calls `slint::Image::from_rgba8`, which wraps the buffer without changing its
/// pixels or its size.
#[verifier::external_body]
fn from_rgba8(buffer: PixelBuffer) -> (image: slint::Image)
    ensures
        image_bytes(image) == buffer_bytes(buffer),
        image_size(image) == buffer_size(buffer),
{
    slint::Image::from_rgba8(buffer.inner)
}

/// Makes an image of a frame without padding.
pub fn image_from_frame(pixels: &Vec<u8>, width: u32, height: u32) -> (image: slint::Image)
    requires
        pixels@.len() == 4 * width * height,
    ensures
        image_bytes(image) == pixels@,
        image_size(image) == (width, height),
{
    from_rgba8(clone_from_slice(pixels.as_slice(), width, height))
}

} // verus!
