//! Still-image screen capture: grab a rectangular region of desktop pixels
//! (a whole monitor region or a window's screen rectangle) and decode the
//! raw device pixel format (BGRA, with version-dependent alpha quirks) into
//! a canonical top-down, straight-alpha RGBA image.
//!
//! The capture pipeline runs against a display device model: an explicit
//! representation of the display subsystem as the pipeline observes it
//! (desktop pixels, handle bookkeeping, failure behaviour of the native
//! calls). Platform bindings that drive the same pipeline against a real
//! display live outside this library.

pub mod capture;
pub mod device;
pub mod error;
pub mod frame;
pub mod geometry;
pub mod pixels;
pub mod rgba;

pub use error::CaptureError;
pub use capture::capture_monitor;
pub use capture::capture_window;
pub use device::Device;
pub use frame::Frame;
pub use geometry::Rect;
pub use geometry::ScaleFactor;
pub use rgba::to_rgba_image;
