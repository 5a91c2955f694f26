//! Conversion of raw BGRA frames into 3-channel image arrays.
//!
//! The conversion is a pure reinterpretation: the buffer is kept as it is,
//! and the channel count is narrowed from 4 to 3 by stride arithmetic that
//! skips every pixel's alpha byte.

use vstd::prelude::*;
use crate::error::CaptureError;
use crate::frame::{FrameFormat, RawFrame};

verus! {

/// A 3-dimensional array of unsigned 8-bit samples with shape
/// `[height, width, 3]`, channels in (B, G, R) order: a view with strides
/// over the original frame buffer, not a copy.
pub struct ImageArray {
    data: Vec<u8>,
    height: usize,
    width: usize,
}

impl ImageArray {
    /// First dimension of the shape: the frame height in pixels.
    pub closed spec fn spec_height(&self) -> usize {
        self.height
    }

    /// Second dimension of the shape: the frame width in pixels.
    pub closed spec fn spec_width(&self) -> usize {
        self.width
    }

    /// The underlying byte buffer the view reads from.
    pub closed spec fn bytes(&self) -> Seq<u8> {
        self.data@
    }

    /// Bytes to advance for one row: the source pixel-row byte stride.
    pub open spec fn spec_row_stride(&self) -> int {
        self.spec_width() * 4
    }

    /// Bytes to advance for one pixel: the source bytes-per-pixel.
    pub open spec fn spec_pixel_stride(&self) -> int {
        4
    }

    /// Bytes to advance for one channel.
    pub open spec fn spec_channel_stride(&self) -> int {
        1
    }

    /// Well-formed: the buffer covers every pixel the shape declares.
    pub open spec fn wf(&self) -> bool {
        self.bytes().len() >= self.spec_height() * self.spec_width() * 4
    }

    /// The sampled byte of pixel (r, c), channel k (0 = B, 1 = G, 2 = R):
    /// pure stride arithmetic over the original buffer.
    pub open spec fn byte_at(&self, r: int, c: int, k: int) -> u8 {
        self.bytes()[r * self.spec_row_stride() + c * self.spec_pixel_stride() + k
            * self.spec_channel_stride()]
    }

    /// Exec accessor: the height.
    pub fn height(&self) -> (h: usize)
        ensures
            h == self.spec_height(),
    {
        self.height
    }

    /// Exec accessor: the width.
    pub fn width(&self) -> (w: usize)
        ensures
            w == self.spec_width(),
    {
        self.width
    }

    /// Exec accessor: the channel count, always 3 (B, G, R; alpha dropped).
    pub fn channels(&self) -> (c: usize)
        ensures
            c == 3,
    {
        3
    }

    /// Exec accessor: the row stride in bytes.
    pub fn row_stride(&self) -> (s: usize)
        requires
            self.wf(),
            self.spec_height() > 0,
        ensures
            s == self.spec_row_stride(),
    {
        let len = self.data.len();
        proof {
            lemma_row_stride_bounded(
                self.spec_height() as int,
                self.spec_width() as int,
                len as int,
            );
        }
        self.width * 4
    }

    /// Exec accessor: the pixel stride in bytes.
    pub fn pixel_stride(&self) -> (s: usize)
        ensures
            s == self.spec_pixel_stride(),
    {
        4
    }

    /// Exec accessor: the channel stride in bytes.
    pub fn channel_stride(&self) -> (s: usize)
        ensures
            s == self.spec_channel_stride(),
    {
        1
    }

    /// Surrender the underlying buffer, byte for byte: how the view is
    /// handed to an array library across the binding layer, which rebuilds
    /// the same shape and strides over it.
    pub fn into_bytes(self) -> (d: Vec<u8>)
        ensures
            d@ == self.bytes(),
    {
        self.data
    }

    /// Sample one byte of the view: pixel (r, c), channel k.
    pub fn get(&self, r: usize, c: usize, k: usize) -> (b: u8)
        requires
            self.wf(),
            r < self.spec_height(),
            c < self.spec_width(),
            k < 3,
        ensures
            b == self.byte_at(r as int, c as int, k as int),
    {
        let len = self.data.len();
        proof {
            lemma_row_stride_bounded(
                self.spec_height() as int,
                self.spec_width() as int,
                len as int,
            );
            lemma_offset_in_range(
                self.spec_height() as int,
                self.spec_width() as int,
                r as int,
                c as int,
                k as int,
            );
        }
        let idx: usize = r * (self.width * 4) + c * 4 + k;
        self.data[idx]
    }
}

/// With at least one row, one row's stride fits under the whole buffer's
/// length.
proof fn lemma_row_stride_bounded(h: int, w: int, len: int)
    requires
        h >= 1,
        w >= 0,
        len >= h * w * 4,
    ensures
        w * 4 <= len,
{
    assert(w * 4 <= h * (w * 4)) by (nonlinear_arith)
        requires
            h >= 1,
            w >= 0,
    ;
    assert(h * (w * 4) == h * w * 4) by (nonlinear_arith);
}

/// The stride arithmetic of an in-shape sample lands strictly inside the
/// area the well-formedness bound reserves.
proof fn lemma_offset_in_range(h: int, w: int, r: int, c: int, k: int)
    requires
        0 <= r < h,
        0 <= c < w,
        0 <= k < 4,
    ensures
        0 <= r * (w * 4) + c * 4 + k < h * w * 4,
{
    assert(r * (w * 4) + c * 4 + k < h * w * 4) by (nonlinear_arith)
        requires
            0 <= r < h,
            0 <= c < w,
            0 <= k < 4,
    ;
    assert(r * (w * 4) >= 0) by (nonlinear_arith)
        requires
            r >= 0,
            w >= 0,
    ;
}

/// What `convert` returns, as a function of the frame alone.
pub closed spec fn spec_convert(frame: RawFrame) -> Result<ImageArray, CaptureError> {
    if !(frame.format is Bgra) {
        Err(CaptureError::UnsupportedFrameFormat { format: frame.format })
    } else if frame.data@.len() < frame.height * frame.width * 4 {
        Err(
            CaptureError::ShapeError {
                height: frame.height,
                width: frame.width,
                actual: frame.data@.len() as usize,
            },
        )
    } else {
        Ok(
            ImageArray {
                data: frame.data,
                height: frame.height as usize,
                width: frame.width as usize,
            },
        )
    }
}

/// Convert a raw frame into the 3-channel image view.
///
/// A `Bgra` frame whose buffer covers its shape converts successfully, and
/// the view keeps the buffer byte for byte; a `Bgra` frame with a short
/// buffer fails with `ShapeError`; any other format tag fails with
/// `UnsupportedFrameFormat`.
pub fn convert(frame: RawFrame) -> (r: Result<ImageArray, CaptureError>)
    ensures
        r == spec_convert(frame),
        !(frame.format is Bgra) ==> r == Err::<ImageArray, CaptureError>(
            CaptureError::UnsupportedFrameFormat { format: frame.format },
        ),
        frame.format is Bgra && frame.data@.len() < frame.height * frame.width * 4 ==> r == Err::<
            ImageArray,
            CaptureError,
        >(
            CaptureError::ShapeError {
                height: frame.height,
                width: frame.width,
                actual: frame.data@.len() as usize,
            },
        ),
        frame.format is Bgra && frame.data@.len() >= frame.height * frame.width * 4 ==> (
        r matches Ok(img) && img.wf() && img.spec_height() == frame.height && img.spec_width()
            == frame.width && img.bytes() == frame.data@),
{
    match frame.format {
        FrameFormat::Bgra => {
            let len = frame.data.len();
            proof {
                assert((frame.height as int) * (frame.width as int) < 0x10000000000000000)
                    by (nonlinear_arith)
                    requires
                        0 <= (frame.height as int) < 0x100000000,
                        0 <= (frame.width as int) < 0x100000000,
                ;
            }
            let required: u128 = (frame.height as u128) * (frame.width as u128) * 4;
            if (len as u128) < required {
                Err(
                    CaptureError::ShapeError {
                        height: frame.height,
                        width: frame.width,
                        actual: len,
                    },
                )
            } else {
                Ok(
                    ImageArray {
                        data: frame.data,
                        height: frame.height as usize,
                        width: frame.width as usize,
                    },
                )
            }
        },
        _ => Err(CaptureError::UnsupportedFrameFormat { format: frame.format }),
    }
}

/// Purity law: conversion is a repeatable function of the frame.  Two
/// conversions of the same frame agree on shape, on all three strides, and
/// on every sampled byte.
pub proof fn lemma_convert_repeatable(frame: RawFrame, a: ImageArray, b: ImageArray)
    requires
        spec_convert(frame) == Ok::<ImageArray, CaptureError>(a),
        spec_convert(frame) == Ok::<ImageArray, CaptureError>(b),
    ensures
        a.spec_height() == b.spec_height(),
        a.spec_width() == b.spec_width(),
        a.spec_row_stride() == b.spec_row_stride(),
        a.spec_pixel_stride() == b.spec_pixel_stride(),
        a.spec_channel_stride() == b.spec_channel_stride(),
        forall|r: int, c: int, k: int| #[trigger] a.byte_at(r, c, k) == b.byte_at(r, c, k),
{
}

/// Sampled-byte law: the converted view of a BGRA frame of width W and
/// height H has shape [H, W, 3], and the byte of pixel (r, c), channel k is
/// the source-buffer byte at offset `r*(W*4) + c*4 + k`.
pub proof fn lemma_convert_samples(frame: RawFrame, img: ImageArray)
    requires
        spec_convert(frame) == Ok::<ImageArray, CaptureError>(img),
    ensures
        img.spec_height() == frame.height,
        img.spec_width() == frame.width,
        img.wf(),
        forall|r: int, c: int, k: int|
            0 <= r < frame.height && 0 <= c < frame.width && 0 <= k < 3
                ==> #[trigger] img.byte_at(r, c, k) == frame.data@[r * (frame.width * 4) + c * 4
                + k],
{
}

} // verus!
