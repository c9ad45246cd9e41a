//! The error taxonomy of the capture pipeline. Each variant names the stage
//! that failed; every failure aborts the capture call and no partial image is
//! ever returned.

use vstd::prelude::*;

verus! {

/// Why a capture call failed.
#[derive(Clone, Copy, Debug, PartialEq, Eq, Structural)]
pub enum CaptureError {
    /// A native surface, bitmap or context could not be created.
    ResourceCreationFailed,
    /// The pixel-copy (blit) step reported failure.
    TransferFailed,
    /// The raw-pixel read reported failure.
    DecodeFailed,
    /// The window-rectangle lookup failed (invalid or destroyed window).
    GeometryResolutionFailed,
    /// The decoded buffer length did not match `width * height * 4`;
    /// an internal defect, not a user-recoverable condition.
    InvariantViolation,
}

} // verus!
