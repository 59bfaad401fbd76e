//! Uncompressed pictures and their PNG encoding.

use vstd::prelude::*;
use image::ImageEncoder;
use crate::outcome::{Failure, FailureView};

verus! {

/// The number of bytes of a picture of the given size: four per pixel, for
/// red, green, blue and alpha.
pub open spec fn rgba_len(width: u32, height: u32) -> nat {
    (width * height * 4) as nat
}

/// What a capture hands over, taken on trust by nobody yet: a claimed size
/// and the bytes that came with it.
#[derive(Clone, Debug, PartialEq, Eq)]
pub struct RawFrame {
    pub width: u32,
    pub height: u32,
    pub pixels: Vec<u8>,
}

/// A picture in memory: rows from top to bottom, pixels from left to right,
/// each pixel as the four bytes red, green, blue, alpha. The byte count of a
/// `Bitmap` always fits its size.
#[derive(Debug, PartialEq, Eq)]
pub struct Bitmap {
    width: u32,
    height: u32,
    pixels: Vec<u8>,
}

/// A `Bitmap` as a size and a sequence of bytes.
pub struct BitmapView {
    pub width: u32,
    pub height: u32,
    pub pixels: Seq<u8>,
}

impl BitmapView {
    /// The bytes are exactly those of a picture of this size.
    pub open spec fn well_shaped(self) -> bool {
        self.pixels.len() == rgba_len(self.width, self.height)
    }
}

impl View for Bitmap {
    type V = BitmapView;

    closed spec fn view(&self) -> BitmapView {
        BitmapView { width: self.width, height: self.height, pixels: self.pixels@ }
    }
}

/// The PNG file that `image` writes for an RGBA picture of the given size and
/// bytes, or `None` where it refuses to write one. Nothing more is known of
/// the file here: it is whatever the encoder of the `image` crate makes.
pub uninterp spec fn png_encoding(width: u32, height: u32, pixels: Seq<u8>) -> Option<Seq<u8>>;

/// The error type of the `image` crate. Nothing inside it is looked at: it
/// is carried from the encoder to the text that describes it.
#[verifier::external_type_specification]
#[verifier::external_body]
pub struct ExImageError(image::ImageError);

/// `image::codecs::png::PngEncoder::write_image` on a writer in memory, for
/// the colour type RGBA with eight bits per channel.
///
/// Trusted, not proved: that what comes back, file or refusal, depends on
/// the size and the pixels alone (the encoder is made with its default
/// settings, reads nothing else and writes to memory), and that a picture
/// without width or without height is refused, which the `png` encoder does
/// before it writes its first byte. The call panics when the byte count is
/// not the one of the size; the precondition rules that out.
#[verifier::external_body]
fn png_encode(width: u32, height: u32, pixels: &Vec<u8>) -> (r: Result<Vec<u8>, image::ImageError>)
    requires
        pixels@.len() == rgba_len(width, height),
    ensures
        png_encoding(width, height, pixels@) == match r {
            Ok(file) => Some(file@),
            Err(_) => None,
        },
        width == 0 || height == 0 ==> r is Err,
{
    let mut out: Vec<u8> = Vec::new();
    let encoder = image::codecs::png::PngEncoder::new(&mut out);
    match encoder.write_image(pixels, width, height, image::ColorType::Rgba8) {
        Ok(()) => Ok(out),
        Err(e) => Err(e),
    }
}

/// The `Display` text of an `image::ImageError`. Nothing is claimed of it.
#[verifier::external_body]
fn error_text(error: &image::ImageError) -> (text: String) {
    error.to_string()
}

impl Bitmap {
    #[verifier::type_invariant]
    spec fn shape_holds(self) -> bool {
        self.pixels@.len() == rgba_len(self.width, self.height)
    }

    /// Makes a picture of bytes that claim to be one. The bytes are accepted
    /// when there are exactly `width` x `height` x 4 of them, and refused as
    /// a `BufferShapeMismatch` in every other case: too few, too many, or a
    /// row padded beyond its pixels.
    pub fn from_raw(width: u32, height: u32, pixels: Vec<u8>) -> (r: Result<Bitmap, Failure>)
        ensures
            pixels@.len() == rgba_len(width, height) ==> r is Ok && r->Ok_0@ == (BitmapView {
                width,
                height,
                pixels: pixels@,
            }),
            pixels@.len() != rgba_len(width, height) ==> r == Err::<Bitmap, Failure>(
                Failure::BufferShapeMismatch,
            ),
    {
        assert(width * height <= 0xffff_ffff * 0xffff_ffff) by (nonlinear_arith)
            requires
                width <= 0xffff_ffff,
                height <= 0xffff_ffff,
        ;
        let expected: u128 = (width as u128) * (height as u128) * 4;
        if pixels.len() as u128 == expected {
            Ok(Bitmap { width, height, pixels })
        } else {
            Err(Failure::BufferShapeMismatch)
        }
    }

    pub fn width(&self) -> (width: u32)
        ensures
            width == self@.width,
    {
        self.width
    }

    pub fn height(&self) -> (height: u32)
        ensures
            height == self@.height,
    {
        self.height
    }

    /// The bytes of the picture, four per pixel.
    pub fn pixels(&self) -> (pixels: &Vec<u8>)
        ensures
            pixels@ == self@.pixels,
            self@.well_shaped(),
    {
        proof {
            use_type_invariant(self);
        }
        &self.pixels
    }

    /// The picture as a PNG file, which keeps every byte of every pixel.
    ///
    /// The file is the one that `png_encoding` names. Where there is none
    /// the picture cannot be written as PNG, and the error says why in the
    /// encoder's words; a picture without pixels is such a one.
    pub fn encode_png(&self) -> (r: Result<Vec<u8>, Failure>)
        ensures
            match png_encoding(self@.width, self@.height, self@.pixels) {
                Some(file) => r is Ok && r->Ok_0@ == file,
                None => r is Err && r->Err_0 is EncodeFailed,
            },
            self@.width == 0 || self@.height == 0 ==> r is Err,
    {
        proof {
            use_type_invariant(self);
        }
        match png_encode(self.width, self.height, &self.pixels) {
            Ok(file) => Ok(file),
            Err(error) => Err(Failure::EncodeFailed(error_text(&error))),
        }
    }
}

/// What a capture gave, as a picture or as the reason why there is none: a
/// failed capture stays a failed capture, with its reason, and a frame whose
/// byte count does not fit its size is a `BufferShapeMismatch`.
pub fn captured(capture: Result<RawFrame, String>) -> (r: Result<Bitmap, Failure>)
    ensures
        match capture {
            Ok(frame) => if frame.pixels@.len() == rgba_len(frame.width, frame.height) {
                r is Ok && r->Ok_0@ == (BitmapView {
                    width: frame.width,
                    height: frame.height,
                    pixels: frame.pixels@,
                })
            } else {
                r is Err && r->Err_0@ == FailureView::BufferShapeMismatch
            },
            Err(reason) => r is Err && r->Err_0@ == FailureView::CaptureFailed(reason@),
        },
{
    match capture {
        Ok(frame) => Bitmap::from_raw(frame.width, frame.height, frame.pixels),
        Err(reason) => Err(Failure::CaptureFailed(reason)),
    }
}

} // verus!
