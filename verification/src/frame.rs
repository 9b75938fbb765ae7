//! What the worker hands to the consumer for each decoded picture.

use vstd::prelude::*;

verus! {

/// The number of bytes of one pixel: red, green, blue, alpha.
pub const BYTES_PER_PIXEL: usize = 4;

/// A picture as a mathematical value.
pub struct PictureView {
    /// Pixels per row.
    pub width: nat,
    /// Number of rows.
    pub height: nat,
    /// The pixels row by row, four bytes each.
    pub rgba: Seq<u8>,
}

/// A display-ready picture: its dimensions and its pixels, row by row, four
/// bytes per pixel. The buffer always holds exactly `width * height` pixels.
#[derive(Debug, PartialEq, Eq)]
pub struct Picture {
    width: usize,
    height: usize,
    rgba: Vec<u8>,
}

impl View for Picture {
    type V = PictureView;

    closed spec fn view(&self) -> PictureView {
        PictureView { width: self.width as nat, height: self.height as nat, rgba: self.rgba@ }
    }
}

impl Picture {
    #[verifier::type_invariant]
    spec fn buffer_matches_size(&self) -> bool {
        self.rgba@.len() == BYTES_PER_PIXEL * self.width * self.height
    }

    /// Makes a picture of `width` by `height` pixels from `rgba`, or `None`
    /// where the buffer does not hold exactly that many pixels.
    pub fn new(width: usize, height: usize, rgba: Vec<u8>) -> (picture: Option<Picture>)
        ensures
            picture is Some <==> rgba@.len() == BYTES_PER_PIXEL * width * height,
            picture matches Some(p) ==> p@ == (PictureView {
                width: width as nat,
                height: height as nat,
                rgba: rgba@,
            }),
    {
        assert(BYTES_PER_PIXEL * width * height == 4 * (width * height)) by (nonlinear_arith)
            requires
                BYTES_PER_PIXEL == 4,
        ;
        let len: usize = rgba.len();
        let pixels: usize = match width.checked_mul(height) {
            Some(pixels) => pixels,
            None => { return None; },
        };
        let bytes: usize = match pixels.checked_mul(BYTES_PER_PIXEL) {
            Some(bytes) => bytes,
            None => { return None; },
        };
        if len == bytes {
            Some(Picture { width, height, rgba })
        } else {
            None
        }
    }

    /// Pixels per row.
    pub fn width(&self) -> (width: usize)
        ensures
            width == self@.width,
    {
        self.width
    }

    /// Number of rows.
    pub fn height(&self) -> (height: usize)
        ensures
            height == self@.height,
    {
        self.height
    }

    /// The pixels, row by row, four bytes each.
    pub fn rgba(&self) -> (rgba: &[u8])
        ensures
            rgba@ == self@.rgba,
            rgba@.len() == BYTES_PER_PIXEL * self@.width * self@.height,
    {
        proof {
            use_type_invariant(self);
        }
        self.rgba.as_slice()
    }
}

/// One decoded picture with the texts that go with it. Nothing changes it
/// once it is made; publishing hands it over to the consumer.
#[derive(Debug, PartialEq, Eq)]
pub struct FrameData {
    /// The picture.
    pub image: Picture,
    /// The description of the stream that the picture comes from.
    pub metadata: String,
    /// The metadata extracted from the picture's compressed unit, as text.
    pub sei_data: String,
}

} // verus!
