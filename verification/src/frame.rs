//! The frame relay: decoded frames on their way from the pipeline to the
//! window.

use vstd::prelude::*;
use egui::ColorImage;

verus! {

/// `egui::ColorImage`, the image that the window uploads as a texture. Its
/// fields are not looked into; `image_size` and `image_bytes` name them.
#[verifier::external_type_specification]
#[verifier::external_body]
pub struct ExColorImage(egui::ColorImage);

/// Width and height of an image, in pixels.
pub uninterp spec fn image_size(image: ColorImage) -> (nat, nat);

/// The pixels of an image as stored, row by row from the top: four bytes for
/// each, red, green and blue already multiplied by alpha, then alpha.
pub uninterp spec fn image_bytes(image: ColorImage) -> Seq<u8>;

/// Pixel `i` of `stored` is what the image library keeps for pixel `i` of the
/// unmultiplied `rgba`. Alpha is kept. An opaque pixel keeps its colour and a
/// fully transparent one becomes all zeros; of the colour of a translucent
/// pixel nothing is said, as it comes from floating-point arithmetic.
pub open spec fn stored_pixel(rgba: Seq<u8>, stored: Seq<u8>, i: int) -> bool {
    let alpha = rgba[4 * i + 3];
    &&& stored[4 * i + 3] == alpha
    &&& alpha == 255 ==> {
        &&& stored[4 * i] == rgba[4 * i]
        &&& stored[4 * i + 1] == rgba[4 * i + 1]
        &&& stored[4 * i + 2] == rgba[4 * i + 2]
    }
    &&& alpha == 0 ==> {
        &&& stored[4 * i] == 0
        &&& stored[4 * i + 1] == 0
        &&& stored[4 * i + 2] == 0
    }
}

/// `image` is what the image library makes of `width` by `height` pixels of
/// unmultiplied `rgba`.
pub open spec fn image_of(image: ColorImage, width: nat, height: nat, rgba: Seq<u8>) -> bool {
    &&& image_size(image) == (width, height)
    &&& image_bytes(image).len() == rgba.len()
    &&& forall|i: int| 0 <= i < width * height ==> stored_pixel(rgba, image_bytes(image), i)
}

/// `egui::ColorImage::from_rgba_unmultiplied`, which panics unless `rgba`
/// holds four bytes for each of `width * height` pixels. Not proved: that the
/// image has the size given and one stored pixel for each pixel of `rgba`,
/// with what `stored_pixel` says of it.
#[verifier::external_body]
fn rgba_image(width: usize, height: usize, rgba: &[u8]) -> (image: ColorImage)
    requires
        width * height * 4 == rgba@.len(),
    ensures
        image_size(image) == (width as nat, height as nat),
        image_bytes(image).len() == rgba@.len(),
        forall|i: int| 0 <= i < width * height ==> stored_pixel(rgba@, image_bytes(image), i),
{
    ColorImage::from_rgba_unmultiplied([width, height], rgba)
}

/// The signed number with the bits of `n`.
pub open spec fn reinterpreted_i32(n: u32) -> int {
    if n <= i32::MAX {
        n as int
    } else {
        n - 0x1_0000_0000
    }
}

/// One decoded frame of video.
#[derive(Debug)]
pub struct VideoFrame {
    /// Pixels in a row.
    pub width: i32,
    /// Rows.
    pub height: i32,
    /// The pixels, row by row from the top, as unmultiplied RGBA.
    pub data: Vec<u8>,
}

impl VideoFrame {
    /// The frame of a sample whose format gives `width` and `height`. Either
    /// is kept by its bits, so one beyond `i32::MAX` comes out negative.
    pub fn new(width: u32, height: u32, data: Vec<u8>) -> (frame: VideoFrame)
        ensures
            frame.width == reinterpreted_i32(width),
            frame.height == reinterpreted_i32(height),
            frame.data == data,
    {
        VideoFrame { width: signed(width), height: signed(height), data }
    }

    /// The data holds exactly four bytes for each pixel of the stated size.
    pub open spec fn is_packed_rgba(&self) -> bool {
        &&& self.width >= 0
        &&& self.height >= 0
        &&& self.width * self.height * 4 == self.data@.len()
    }

    /// Tells whether the data holds exactly four bytes for each pixel of the
    /// stated size.
    pub fn has_packed_rgba(&self) -> (packed: bool)
        ensures
            packed == self.is_packed_rgba(),
    {
        if self.width < 0 || self.height < 0 {
            return false;
        }
        let width = self.width as u64;
        let height = self.height as u64;
        assert(width * height * 4 <= u64::MAX) by (nonlinear_arith)
            requires
                width <= 0x7fff_ffff,
                height <= 0x7fff_ffff,
        ;
        width * height * 4 == self.data.len() as u64
    }

    /// The frame as an image for the window to upload.
    pub fn to_color_image(&self) -> (image: ColorImage)
        requires
            self.is_packed_rgba(),
        ensures
            image_of(image, self.width as nat, self.height as nat, self.data@),
    {
        rgba_image(self.width as usize, self.height as usize, self.data.as_slice())
    }
}

/// The signed number with the bits of `n`.
fn signed(n: u32) -> (v: i32)
    ensures
        v == reinterpreted_i32(n),
{
    if n <= 0x7fff_ffff {
        n as i32
    } else {
        ((n - 0x8000_0000) as i32) + i32::MIN
    }
}

/// The answer to the pipeline after a sample.
#[derive(Clone, Copy, Debug, PartialEq, Eq, Structural)]
pub enum FlowStatus {
    /// Go on sending samples.
    Continue,
    /// The sample could not be taken.
    Failed,
}

/// The slot through which the decoding side hands frames to the drawing side.
/// It holds the newest frame only: publishing replaces what was there, and
/// looking does not empty it.
#[derive(Debug)]
pub struct FrameRelay {
    /// The newest frame, if any was published.
    pub latest: Option<VideoFrame>,
}

impl FrameRelay {
    /// An empty slot.
    pub fn new() -> (relay: FrameRelay)
        ensures
            relay.latest is None,
    {
        FrameRelay { latest: None }
    }

    /// Puts `frame` in the slot, dropping the frame it held.
    pub fn publish(&mut self, frame: VideoFrame)
        ensures
            final(self).latest == Some(frame),
    {
        self.latest = Some(frame);
    }

    /// Takes in what the decoding side made of one sample: a frame is
    /// published and the flow goes on; a sample that could not be read leaves
    /// the slot as it was and is answered with an error.
    pub fn on_new_sample(&mut self, sample: Option<VideoFrame>) -> (flow: FlowStatus)
        ensures
            match sample {
                Some(frame) => flow == FlowStatus::Continue && final(self).latest == Some(frame),
                None => flow == FlowStatus::Failed && *final(self) == *old(self),
            },
    {
        match sample {
            Some(frame) => {
                self.publish(frame);
                FlowStatus::Continue
            },
            None => FlowStatus::Failed,
        }
    }

    /// The newest frame, which stays in the slot.
    pub fn newest(&self) -> (frame: Option<&VideoFrame>)
        ensures
            frame == match self.latest {
                Some(held) => Some(&held),
                None => None,
            },
    {
        self.latest.as_ref()
    }
}

} // verus!
