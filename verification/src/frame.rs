//! The canonical image: width, height and an owned top-down, straight-alpha
//! RGBA pixel buffer. A frame is the sole output artifact of a capture and
//! is immutable once constructed.

use vstd::prelude::*;

use crate::error::CaptureError;
use crate::pixels::decode_in_place;
use crate::pixels::decoded;

verus! {

/// A decoded capture: 4 bytes per pixel, row-major, top-down, channels in
/// R, G, B, A order.
#[derive(Debug)]
pub struct Frame {
    pub width: u32,
    pub height: u32,
    pub data: Vec<u8>,
}

impl Frame {
    /// The length invariant of the canonical image: exactly 4 bytes for each
    /// of `width * height` pixels.
    pub open spec fn wf(self) -> bool {
        self.data@.len() == self.width * self.height * 4
    }
}

/// Turns a raw device buffer read from an off-screen surface into the
/// canonical image: checks the length invariant, then decodes every 4-byte
/// pixel group (B,G,R,A to R,G,B,A with alpha compensation for the given
/// operating-system major version). A buffer whose length does not exactly
/// match `width * height * 4` is an invariant violation, never a partial
/// image.
pub fn decode_capture(raw: Vec<u8>, width: u32, height: u32, os_major: u32) -> (r: Result<
    Frame,
    CaptureError,
>)
    ensures
        r is Ok <==> raw@.len() == width * height * 4,
        r matches Ok(f) ==> f.wf() && f.width == width && f.height == height && f.data@
            == decoded(raw@, os_major),
        raw@.len() != width * height * 4 ==> r == Err::<Frame, CaptureError>(
            CaptureError::InvariantViolation,
        ),
{
    proof {
        assert(width as int * height as int <= u32::MAX as int * u32::MAX as int)
            by (nonlinear_arith)
            requires
                width <= u32::MAX,
                height <= u32::MAX,
        ;
    }
    let expected: u128 = width as u128 * height as u128 * 4;
    if raw.len() as u128 != expected {
        return Err(CaptureError::InvariantViolation);
    }
    proof {
        assert(raw@.len() % 4 == 0) by (nonlinear_arith)
            requires
                raw@.len() == width * height * 4,
        ;
    }
    let mut buf = raw;
    decode_in_place(&mut buf, os_major);
    Ok(Frame { width, height, data: buf })
}

} // verus!
