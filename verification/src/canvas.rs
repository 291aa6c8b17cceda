//! Pictures of the `image` crate, as far as the box needs them.
//!
//! Verus cannot look into an `image::ImageBuffer`, so everything here is
//! taken on trust: the two facts that the contracts speak of, the bytes
//! that a picture holds and its size, and what each method that the box
//! calls does to them.

use vstd::prelude::*;

verus! {

/// The number of bytes of one pixel: red, green, blue, alpha.
pub const CHANNELS: usize = 4;

/// An `image::RgbaImage`: an `image::ImageBuffer` of `Rgba<u8>` pixels
/// over a `Vec<u8>`.
#[verifier::external_body]
pub struct Canvas {
    image: image::RgbaImage,
}

/// The bytes that a picture holds: four for each pixel, the pixels of a
/// row from left to right, the rows from top to bottom.
pub uninterp spec fn canvas_bytes(canvas: Canvas) -> Seq<u8>;

/// The width and the height of a picture, in pixels.
pub uninterp spec fn canvas_size(canvas: Canvas) -> (u32, u32);

/// Where the bytes of the pixel at `(x, y)` begin in a picture that is
/// `width` pixels wide.
pub open spec fn pixel_offset(x: int, y: int, width: int) -> int {
    CHANNELS * (y * width + x)
}

/// Whether `available` bytes are enough for a picture of the given size.
/// `ImageBuffer` counts the bytes that a picture needs in `usize`, first
/// those of one row, then those of all rows, and takes a count that does
/// not fit for more than any number of bytes.
pub open spec fn fits_in(width: u32, height: u32, available: nat) -> bool {
    &&& CHANNELS * width <= usize::MAX
    &&& CHANNELS * (width * height) <= usize::MAX
    &&& CHANNELS * (width * height) <= available
}

impl Canvas {
    /// `ImageBuffer::from_raw`: takes over `bytes` as a picture of the
    /// given size, if they are enough for it; the bytes are kept as they
    /// are.
    #[verifier::external_body]
    pub(crate) fn from_raw(width: u32, height: u32, bytes: Vec<u8>) -> (made: Option<Canvas>)
        ensures
            made is Some <==> fits_in(width, height, bytes@.len()),
            made matches Some(canvas) ==> canvas_size(canvas) == (width, height) && canvas_bytes(
                canvas,
            ) == bytes@,
    {
        image::RgbaImage::from_raw(width, height, bytes).map(|image| Canvas { image })
    }

    /// `ImageBuffer::new`: a picture of the given size whose bytes are
    /// all zero. The call panics if the bytes of such a picture cannot
    /// be counted in `usize`.
    #[verifier::external_body]
    pub(crate) fn new(width: u32, height: u32) -> (canvas: Canvas)
        requires
            fits_in(width, height, usize::MAX as nat),
        ensures
            canvas_size(canvas) == (width, height),
            canvas_bytes(canvas) == Seq::new(
                (CHANNELS * (width * height)) as nat,
                |i: int| 0u8,
            ),
    {
        Canvas { image: image::RgbaImage::new(width, height) }
    }

    /// `ImageBuffer::get_pixel`: the four bytes of the pixel at `(x, y)`.
    /// The call panics if the pixel lies outside the picture.
    #[verifier::external_body]
    pub(crate) fn get_pixel(&self, x: u32, y: u32) -> (pixel: [u8; 4])
        requires
            x < canvas_size(*self).0,
            y < canvas_size(*self).1,
        ensures
            pixel@ == canvas_bytes(*self).subrange(
                pixel_offset(x as int, y as int, canvas_size(*self).0 as int),
                pixel_offset(x as int, y as int, canvas_size(*self).0 as int) + CHANNELS,
            ),
    {
        self.image.get_pixel(x, y).0
    }

    /// `ImageBuffer::put_pixel`: overwrites the four bytes of the pixel
    /// at `(x, y)` and nothing else. The call panics if the pixel lies
    /// outside the picture.
    #[verifier::external_body]
    pub(crate) fn put_pixel(&mut self, x: u32, y: u32, pixel: [u8; 4])
        requires
            x < canvas_size(*old(self)).0,
            y < canvas_size(*old(self)).1,
        ensures
            canvas_size(*final(self)) == canvas_size(*old(self)),
            canvas_bytes(*final(self)).len() == canvas_bytes(*old(self)).len(),
            forall|i: int|
                0 <= i < canvas_bytes(*old(self)).len() ==> #[trigger] canvas_bytes(*final(self))[i]
                    == ({
                    let first = pixel_offset(x as int, y as int, canvas_size(*old(self)).0 as int);
                    if first <= i < first + CHANNELS {
                        pixel@[i - first]
                    } else {
                        canvas_bytes(*old(self))[i]
                    }
                }),
    {
        self.image.put_pixel(x, y, image::Rgba(pixel));
    }

    /// `ImageBuffer::into_raw`: gives the bytes back.
    #[verifier::external_body]
    pub(crate) fn into_raw(self) -> (bytes: Vec<u8>)
        ensures
            bytes@ == canvas_bytes(self),
    {
        self.image.into_raw()
    }
}

} // verus!
