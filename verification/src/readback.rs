//! Pixel readback validation and the final pixel buffer.
//!
//! The GPU hands back a channel format and raw bytes; the session accepts
//! only 8-bit-per-channel data whose length matches the requested output
//! exactly, and packs it into a row-major RGBA buffer. Rows keep the order
//! the GPU readback delivers them in: bottom row first, per the GL
//! convention.

use vstd::prelude::*;
use crate::RenderError;
use crate::geom::PixelSize;

verus! {

/// What a pixel readback handed back.
#[derive(Clone, Debug, PartialEq, Eq)]
pub enum ReadbackData {
    /// Four 8-bit channels per pixel, as raw bytes.
    Rgba8(Vec<u8>),
    /// Any channel format other than 8 bits per channel.
    Unsupported,
}

/// The rendered output: `width * height` RGBA pixels, four bytes each,
/// row-major, rows in GPU readback order (bottom row first).
#[derive(Clone, Debug, PartialEq, Eq)]
pub struct PixelBuffer {
    pub width: u32,
    pub height: u32,
    pub data: Vec<u8>,
}

/// The number of bytes a `width x height` RGBA8 buffer must hold.
pub open spec fn expected_bytes(size: PixelSize) -> int {
    size.width * size.height * 4
}

/// Alpha is zero at every pixel: every fourth byte, starting at offset 3.
pub open spec fn spec_transparent(bytes: Seq<u8>) -> bool {
    forall|i: int| 0 <= i < bytes.len() && i % 4 == 3 ==> bytes[i] == 0
}

impl PixelBuffer {
    /// A buffer whose byte count matches its dimensions exactly.
    pub open spec fn wf(self) -> bool {
        self.data@.len() == self.width * self.height * 4
    }

    /// Whether every pixel of the buffer is fully transparent (alpha zero).
    pub fn fully_transparent(&self) -> (r: bool)
        ensures
            r == spec_transparent(self.data@),
    {
        let mut i: usize = 3;
        while i < self.data.len()
            invariant
                i % 4 == 3,
                forall|j: int| 0 <= j < i && j % 4 == 3 ==> self.data@[j] == 0,
            decreases self.data@.len() + 3 - i,
        {
            if self.data[i] != 0 {
                return false;
            }
            i = i + 4;
        }
        true
    }
}

/// The exact byte count one output size demands.
pub fn byte_budget(size: PixelSize) -> (n: u64)
    requires
        size.wf(),
    ensures
        n == expected_bytes(size),
{
    proof {
        assert((size.width as int) * (size.height as int) * 4 < 0x1_0000_0000_0000_0000int)
            by (nonlinear_arith)
            requires
                1 <= size.width <= 0x7fff_ffff,
                1 <= size.height <= 0x7fff_ffff,
        ;
    }
    (size.width as u64) * (size.height as u64) * 4
}

/// The outcome of validating one readback against one output size.
pub open spec fn spec_accept(size: PixelSize, data: ReadbackData) -> Result<
    PixelBuffer,
    RenderError,
> {
    match data {
        ReadbackData::Unsupported => Err(RenderError::UnsupportedPixelFormat),
        ReadbackData::Rgba8(bytes) => if bytes@.len() == expected_bytes(size) {
            Ok(PixelBuffer { width: size.width, height: size.height, data: bytes })
        } else {
            Err(RenderError::BufferSizeMismatch {
                expected: expected_bytes(size) as u64,
                actual: bytes@.len() as u64,
            })
        },
    }
}

/// Validates one readback and packs it: 8-bit-per-channel data of exactly
/// `width * height * 4` bytes becomes the pixel buffer of those dimensions,
/// holding those bytes unchanged; any other channel format fails with
/// `UnsupportedPixelFormat`; 8-bit data of any other length fails with
/// `BufferSizeMismatch` carrying both counts. No buffer is returned on any
/// failure.
pub fn accept_readback(size: PixelSize, data: ReadbackData) -> (r: Result<
    PixelBuffer,
    RenderError,
>)
    requires
        size.wf(),
    ensures
        r == spec_accept(size, data),
        (r is Ok <==> (data matches ReadbackData::Rgba8(bytes) && bytes@.len() == expected_bytes(
            size,
        ))),
        r matches Ok(buf) ==> buf.wf() && buf.width == size.width && buf.height == size.height,
        (r == Err::<PixelBuffer, RenderError>(RenderError::UnsupportedPixelFormat) <==> data
            is Unsupported),
{
    match data {
        ReadbackData::Unsupported => Err(RenderError::UnsupportedPixelFormat),
        ReadbackData::Rgba8(bytes) => {
            let expected = byte_budget(size);
            let actual = bytes.len() as u64;
            if actual == expected {
                Ok(PixelBuffer { width: size.width, height: size.height, data: bytes })
            } else {
                Err(RenderError::BufferSizeMismatch { expected, actual })
            }
        },
    }
}

} // verus!
