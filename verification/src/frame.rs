//! Raw frames as delivered by the capture backend.

use vstd::prelude::*;

verus! {

/// Pixel-format tag of a backend-delivered frame.  Only `Bgra` frames can be
/// converted into an image array; every other tag is reported as
/// unsupported.
#[derive(Clone, Copy, PartialEq, Eq, Structural, Debug)]
pub enum FrameFormat {
    Yuv,
    Bgr0,
    Rgb,
    Rgbx,
    Xbgr,
    Bgrx,
    Bgra,
}

/// One backend-delivered unit of pixel data: a pixel-format tag, the frame
/// dimensions, a display timestamp and the raw byte buffer.
pub struct RawFrame {
    pub format: FrameFormat,
    pub width: u32,
    pub height: u32,
    pub display_time: u64,
    pub data: Vec<u8>,
}

} // verus!
