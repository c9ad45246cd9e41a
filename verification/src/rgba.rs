//! Hand-off of the canonical image to the image-processing ecosystem: a
//! decoded frame is packaged as an `image::RgbaImage`, the buffer type that
//! downstream encoding and storage collaborators consume. The buffer type
//! cannot be declared to the verifier directly (its generics carry the
//! crate's own trait bounds), so it rides in a holder struct whose contents
//! two named spec functions describe.

use vstd::prelude::*;

use crate::error::CaptureError;
use crate::frame::Frame;

verus! {

/// Carries an `image::RgbaImage` through verified code; the value inside is
/// opaque here and is taken out by unverified callers.
#[verifier::external_body]
pub struct RgbaHandoff {
    pub image: image::RgbaImage,
}

/// The raw container the held RGBA image was built over.
pub uninterp spec fn rgba_image_bytes(img: RgbaHandoff) -> Seq<u8>;

/// The declared width and height of the held RGBA image.
pub uninterp spec fn rgba_image_dims(img: RgbaHandoff) -> (u32, u32);

/// Relies on image::ImageBuffer::from_raw: it returns an image exactly when
/// the needed length fits the machine word as the crate computes it — the
/// 4-byte pixel size times the width first, then times the height, each
/// step checked — and the container holds at least that many bytes; the
/// image then stores the given container and dimensions unchanged.
#[verifier::external_body]
fn rgba_from_raw(width: u32, height: u32, buf: Vec<u8>) -> (r: Option<RgbaHandoff>)
    ensures
        (4 * width <= usize::MAX && 4 * width * height <= usize::MAX && 4 * width * height
            <= buf@.len()) <==> r is Some,
        r is Some ==> rgba_image_bytes(r->Some_0) == buf@,
        r is Some ==> rgba_image_dims(r->Some_0) == (width, height),
{
    image::RgbaImage::from_raw(width, height, buf).map(|image| RgbaHandoff { image })
}

/// Packages a canonical frame as an `image::RgbaImage` holding exactly the
/// frame's pixel bytes under the frame's dimensions. A frame whose buffer
/// length does not exactly match `width * height * 4`, or whose single row
/// of `4 * width` bytes already exceeds the machine word, is a construction
/// failure — an invariant violation, never a partial image.
pub fn to_rgba_image(frame: Frame) -> (r: Result<RgbaHandoff, CaptureError>)
    ensures
        r is Ok <==> frame.wf() && 4 * frame.width <= usize::MAX,
        r matches Ok(img) ==> rgba_image_bytes(img) == frame.data@ && rgba_image_dims(img) == (
            frame.width,
            frame.height,
        ),
        !(frame.wf() && 4 * frame.width <= usize::MAX) ==> r == Err::<RgbaHandoff, CaptureError>(
            CaptureError::InvariantViolation,
        ),
{
    proof {
        assert(frame.width as int * frame.height as int <= u32::MAX as int * u32::MAX as int)
            by (nonlinear_arith)
            requires
                frame.width <= u32::MAX,
                frame.height <= u32::MAX,
        ;
    }
    let expected: u128 = frame.width as u128 * frame.height as u128 * 4;
    let len = frame.data.len();
    if len as u128 != expected {
        return Err(CaptureError::InvariantViolation);
    }
    proof {
        assert(4 * frame.width as int * frame.height as int == frame.width as int
            * frame.height as int * 4) by (nonlinear_arith);
    }
    match rgba_from_raw(frame.width, frame.height, frame.data) {
        Some(img) => Ok(img),
        None => Err(CaptureError::InvariantViolation),
    }
}

} // verus!
