//! Capture orchestration: the two public entry operations. Both request
//! DPI awareness, acquire an off-screen surface and bitmap compatible with
//! the desktop, blit the requested desktop region, read the raw pixels and
//! decode them into the canonical image. Every acquired handle is released
//! on every path, success or error, and the prior drawing-object selection
//! is restored before any context is released.

use vstd::prelude::*;

use crate::device::Device;
use crate::device::STOCK_OBJECT;
use crate::device::region_bytes;
use crate::error::CaptureError;
use crate::frame::Frame;
use crate::frame::decode_capture;
use crate::geometry::ScaleFactor;
use crate::geometry::natural_height;
use crate::geometry::natural_width;
use crate::geometry::resolve_dimensions;
use crate::pixels::decoded;

verus! {

/// Whether every native step of the shared pipeline (surface creation,
/// bitmap creation, blit, raw pixel read) succeeds on this device.
pub open spec fn pipeline_ok(dev: Device) -> bool {
    !dev.fail_surface_creation && !dev.fail_bitmap_creation && !dev.fail_transfer
        && !dev.fail_pixel_read
}

/// The error of the first pipeline step that fails on this device.
pub open spec fn pipeline_error(dev: Device) -> CaptureError {
    if dev.fail_surface_creation || dev.fail_bitmap_creation {
        CaptureError::ResourceCreationFailed
    } else if dev.fail_transfer {
        CaptureError::TransferFailed
    } else {
        CaptureError::DecodeFailed
    }
}

/// What a capture call leaves unchanged on the device: the display itself
/// (desktop pixels and dimensions), the version, the window table, the
/// failure behaviour, and — resource safety — the count of live handles,
/// every handle acquired having been released again. DPI awareness has
/// been requested.
pub open spec fn capture_observables(pre: Device, post: Device) -> bool {
    &&& post.screen_width == pre.screen_width
    &&& post.screen_height == pre.screen_height
    &&& post.desktop@ == pre.desktop@
    &&& post.os_major == pre.os_major
    &&& post.windows@ == pre.windows@
    &&& post.live_handles == pre.live_handles
    &&& post.fail_surface_creation == pre.fail_surface_creation
    &&& post.fail_bitmap_creation == pre.fail_bitmap_creation
    &&& post.fail_transfer == pre.fail_transfer
    &&& post.fail_pixel_read == pre.fail_pixel_read
    &&& post.dpi_aware
}

/// The two device states show the same static display: what a capture's
/// pixel output is a function of.
pub open spec fn same_display(a: Device, b: Device) -> bool {
    &&& a.screen_width == b.screen_width
    &&& a.screen_height == b.screen_height
    &&& a.desktop@ == b.desktop@
    &&& a.os_major == b.os_major
}

/// The canonical pixels of a monitor capture of the `width` by `height`
/// region at `(x, y)`: the raw desktop region, decoded.
pub open spec fn monitor_pixels(dev: Device, x: int, y: int, width: int, height: int) -> Seq<u8> {
    decoded(region_bytes(dev, x, y, width, height), dev.os_major)
}

/// Captures a rectangular region of the whole desktop surface and returns
/// the canonical image. Fails exactly when a native pipeline step fails,
/// with the error of the first failing step; the device's handle count is
/// back at its baseline whichever way the call returns.
pub fn capture_monitor(dev: &mut Device, x: i32, y: i32, width: i32, height: i32) -> (r: Result<
    Frame,
    CaptureError,
>)
    requires
        old(dev).wf(),
        0 < width,
        0 < height,
        width * height * 4 <= usize::MAX,
    ensures
        final(dev).wf(),
        capture_observables(*old(dev), *final(dev)),
        r is Ok <==> pipeline_ok(*old(dev)),
        r matches Ok(f) ==> f.wf() && f.width == width && f.height == height && f.data@
            == monitor_pixels(*old(dev), x as int, y as int, width as int, height as int),
        r is Err ==> r == Err::<Frame, CaptureError>(pipeline_error(*old(dev))),
{
    dev.ensure_dpi_aware();
    let mut ctx = match dev.create_compatible_context() {
        Ok(ctx) => ctx,
        Err(e) => {
            return Err(e);
        },
    };
    let mut bmp = match dev.create_compatible_bitmap(width as u32, height as u32) {
        Ok(bmp) => bmp,
        Err(e) => {
            dev.release_context(ctx);
            return Err(e);
        },
    };
    let previous = ctx.select_object(bmp.handle);
    let ok = dev.blit(&ctx, &mut bmp, x, y);
    if !ok {
        ctx.select_object(previous);
        dev.release_context(ctx);
        dev.release_bitmap(bmp);
        return Err(CaptureError::TransferFailed);
    }
    let raw = dev.read_pixels(&ctx, &bmp);
    ctx.select_object(previous);
    dev.release_context(ctx);
    dev.release_bitmap(bmp);
    match raw {
        Some(raw) => decode_capture(raw, width as u32, height as u32, dev.os_major),
        None => Err(CaptureError::DecodeFailed),
    }
}

/// The scaled capture width of a window on this device: the resolved
/// rectangle's width, the primary display's width substituted when that is
/// zero, scaled and truncated.
pub open spec fn window_capture_width(dev: Device, window: int, scale: ScaleFactor) -> int {
    scale.spec_apply(natural_width(dev.windows@[window], dev.screen_width))
}

/// The scaled capture height of a window on this device.
pub open spec fn window_capture_height(dev: Device, window: int, scale: ScaleFactor) -> int {
    scale.spec_apply(natural_height(dev.windows@[window], dev.screen_height))
}

/// The canonical pixels of a window capture: the desktop region at the
/// window's top-left corner, sized to the scaled dimensions, decoded. The
/// region is read from the desktop surface, not a window-private surface,
/// so occluding windows are captured as actually rendered.
pub open spec fn window_pixels(dev: Device, window: int, scale: ScaleFactor) -> Seq<u8> {
    decoded(
        region_bytes(
            dev,
            dev.windows@[window].left as int,
            dev.windows@[window].top as int,
            window_capture_width(dev, window, scale),
            window_capture_height(dev, window, scale),
        ),
        dev.os_major,
    )
}

/// Captures a window: resolves the window's screen rectangle, substitutes
/// the primary display's dimension on any axis whose natural dimension is
/// exactly zero, applies the scale factor to both axes, and grabs the
/// resulting region of the desktop surface at the window's top-left corner.
/// Surface acquisition works on non-zero dimensions only, so the caller
/// keeps scale factors that would truncate a dimension to zero out. An
/// invalid window fails before any surface or bitmap is created, leaving
/// the device exactly as it was with only DPI awareness requested; a
/// transfer failure still restores the prior drawing-object selection
/// before the error is returned; the handle count is back at its baseline
/// whichever way the call returns.
pub fn capture_window(dev: &mut Device, window: usize, scale: ScaleFactor) -> (r: Result<
    Frame,
    CaptureError,
>)
    requires
        old(dev).wf(),
        scale.wf(),
        window < old(dev).windows@.len() ==> 1 <= window_capture_width(
            *old(dev),
            window as int,
            scale,
        ) <= u32::MAX && 1 <= window_capture_height(*old(dev), window as int, scale) <= u32::MAX
            && window_capture_width(*old(dev), window as int, scale) * window_capture_height(
            *old(dev),
            window as int,
            scale,
        ) * 4 <= usize::MAX,
    ensures
        final(dev).wf(),
        capture_observables(*old(dev), *final(dev)),
        r is Ok <==> window < old(dev).windows@.len() && pipeline_ok(*old(dev)),
        window >= old(dev).windows@.len() ==> r == Err::<Frame, CaptureError>(
            CaptureError::GeometryResolutionFailed,
        ) && *final(dev) == (Device { dpi_aware: true, ..*old(dev) }),
        window < old(dev).windows@.len() && !pipeline_ok(*old(dev)) ==> r == Err::<
            Frame,
            CaptureError,
        >(pipeline_error(*old(dev))),
        r matches Ok(f) ==> f.wf() && f.width == window_capture_width(
            *old(dev),
            window as int,
            scale,
        ) && f.height == window_capture_height(*old(dev), window as int, scale) && f.data@
            == window_pixels(*old(dev), window as int, scale),
{
    dev.ensure_dpi_aware();
    let rect = match dev.get_window_rect(window) {
        Ok(rect) => rect,
        Err(e) => {
            return Err(e);
        },
    };
    let (width, height) = resolve_dimensions(rect, dev.screen_width, dev.screen_height, scale);
    let mut ctx = match dev.create_compatible_context() {
        Ok(ctx) => ctx,
        Err(e) => {
            return Err(e);
        },
    };
    let mut bmp = match dev.create_compatible_bitmap(width, height) {
        Ok(bmp) => bmp,
        Err(e) => {
            dev.release_context(ctx);
            return Err(e);
        },
    };
    let previous = ctx.select_object(bmp.handle);
    let ok = dev.blit(&ctx, &mut bmp, rect.left, rect.top);
    ctx.select_object(previous);
    if !ok {
        dev.release_context(ctx);
        dev.release_bitmap(bmp);
        return Err(CaptureError::TransferFailed);
    }
    let raw = dev.read_pixels(&ctx, &bmp);
    dev.release_context(ctx);
    dev.release_bitmap(bmp);
    match raw {
        Some(raw) => decode_capture(raw, width, height, dev.os_major),
        None => Err(CaptureError::DecodeFailed),
    }
}

/// The independence law: a capture's pixel output is a function of the
/// static display alone, so two sequential monitor captures of the same
/// static region — two device states showing the same desktop pixels,
/// display dimensions and version — return pixel-identical buffers.
pub proof fn lemma_monitor_capture_independent(
    a: Device,
    b: Device,
    x: int,
    y: int,
    width: int,
    height: int,
)
    requires
        same_display(a, b),
    ensures
        monitor_pixels(a, x, y, width, height) == monitor_pixels(b, x, y, width, height),
{
    assert(region_bytes(a, x, y, width, height) =~= region_bytes(b, x, y, width, height));
}

/// A capture call preserves the static display, so the independence law
/// applies across it: the device it leaves shows the same display it was
/// given.
pub proof fn lemma_capture_preserves_display(pre: Device, post: Device)
    requires
        capture_observables(pre, post),
    ensures
        same_display(pre, post),
{
}

} // verus!
