//! End-to-end tests of the capture pipeline against the display device
//! model, and of the hand-off to the image crate.

use xcap::capture::capture_monitor;
use xcap::capture::capture_window;
use xcap::device::Device;
use xcap::error::CaptureError;
use xcap::frame::decode_capture;
use xcap::frame::Frame;
use xcap::geometry::resolve_dimensions;
use xcap::geometry::Rect;
use xcap::geometry::ScaleFactor;
use xcap::rgba::to_rgba_image;

fn scale(num: u32, den: u32) -> ScaleFactor {
    ScaleFactor { num, den }
}

#[test]
fn monitor_capture_dimensions() {
    let mut dev = Device::new(200, 100, 10);
    let frame = capture_monitor(&mut dev, 5, 5, 50, 40).unwrap();
    assert_eq!(frame.width, 50);
    assert_eq!(frame.height, 40);
    assert_eq!(frame.data.len(), 50 * 40 * 4);
}

#[test]
fn monitor_capture_solid_color() {
    // Desktop pre-filled with device-order B=30, G=20, R=10, A=255.
    let mut dev = Device::new(100, 50, 10);
    dev.fill_desktop(30, 20, 10, 255);
    let frame = capture_monitor(&mut dev, 0, 0, 100, 50).unwrap();
    assert_eq!(frame.width, 100);
    assert_eq!(frame.height, 50);
    assert_eq!(frame.data.len(), 100 * 50 * 4);
    for px in frame.data.chunks(4) {
        assert_eq!(px, &[10, 20, 30, 255]);
    }
}

#[test]
fn pixel_byte_order() {
    let mut dev = Device::new(4, 4, 10);
    dev.fill_desktop(1, 2, 3, 4);
    let frame = capture_monitor(&mut dev, 0, 0, 1, 1).unwrap();
    assert_eq!(frame.data, vec![3, 2, 1, 4]);
}

#[test]
fn alpha_compensation_legacy() {
    // Major version below 8: a raw alpha byte of 0 becomes fully opaque.
    let mut dev = Device::new(4, 4, 7);
    dev.fill_desktop(9, 8, 7, 0);
    let frame = capture_monitor(&mut dev, 0, 0, 2, 2).unwrap();
    for px in frame.data.chunks(4) {
        assert_eq!(px, &[7, 8, 9, 255]);
    }
}

#[test]
fn alpha_compensation_modern() {
    // Major version 8 and above: a raw alpha byte of 0 is preserved.
    let mut dev = Device::new(4, 4, 8);
    dev.fill_desktop(9, 8, 7, 0);
    let frame = capture_monitor(&mut dev, 0, 0, 2, 2).unwrap();
    for px in frame.data.chunks(4) {
        assert_eq!(px, &[7, 8, 9, 0]);
    }
}

#[test]
fn alpha_compensation_keeps_nonzero_alpha() {
    let mut dev = Device::new(4, 4, 7);
    dev.fill_desktop(9, 8, 7, 41);
    let frame = capture_monitor(&mut dev, 0, 0, 2, 2).unwrap();
    for px in frame.data.chunks(4) {
        assert_eq!(px, &[7, 8, 9, 41]);
    }
}

#[test]
fn repeated_capture_identical() {
    // Two sequential captures of the same static region are pixel-identical.
    let mut dev = Device::new(64, 32, 10);
    dev.fill_desktop(30, 60, 90, 200);
    let first = capture_monitor(&mut dev, 3, 4, 20, 10).unwrap();
    let second = capture_monitor(&mut dev, 3, 4, 20, 10).unwrap();
    assert_eq!(first.data, second.data);
    assert_eq!(first.width, second.width);
    assert_eq!(first.height, second.height);
}

#[test]
fn transfer_failure_releases_handles() {
    let mut dev = Device::new(32, 32, 10);
    let baseline = dev.live_handles;
    dev.fail_transfer = true;
    let r = capture_monitor(&mut dev, 0, 0, 8, 8);
    assert_eq!(r.unwrap_err(), CaptureError::TransferFailed);
    assert_eq!(dev.live_handles, baseline);
}

#[test]
fn creation_failures_release_handles() {
    let mut dev = Device::new(32, 32, 10);
    dev.fail_surface_creation = true;
    let r = capture_monitor(&mut dev, 0, 0, 8, 8);
    assert_eq!(r.unwrap_err(), CaptureError::ResourceCreationFailed);
    assert_eq!(dev.live_handles, 0);

    dev.fail_surface_creation = false;
    dev.fail_bitmap_creation = true;
    let r = capture_monitor(&mut dev, 0, 0, 8, 8);
    assert_eq!(r.unwrap_err(), CaptureError::ResourceCreationFailed);
    assert_eq!(dev.live_handles, 0);
}

#[test]
fn pixel_read_failure() {
    let mut dev = Device::new(32, 32, 10);
    dev.fail_pixel_read = true;
    let r = capture_monitor(&mut dev, 0, 0, 8, 8);
    assert_eq!(r.unwrap_err(), CaptureError::DecodeFailed);
    assert_eq!(dev.live_handles, 0);
}

#[test]
fn capture_out_of_bounds_reads_zero() {
    let mut dev = Device::new(2, 2, 10);
    dev.fill_desktop(30, 20, 10, 255);
    let frame = capture_monitor(&mut dev, -1, -1, 2, 2).unwrap();
    // Only the bottom-right pixel of the region lies on the display.
    assert_eq!(frame.data[0..4], [0, 0, 0, 0]);
    assert_eq!(frame.data[4..8], [0, 0, 0, 0]);
    assert_eq!(frame.data[8..12], [0, 0, 0, 0]);
    assert_eq!(frame.data[12..16], [10, 20, 30, 255]);
}

#[test]
fn window_capture_matches_monitor_capture() {
    let mut dev = Device::new(64, 64, 10);
    dev.fill_desktop(5, 15, 25, 35);
    let id = dev.register_window(Rect { left: 8, top: 4, right: 24, bottom: 12 });
    let from_window = capture_window(&mut dev, id, ScaleFactor::identity()).unwrap();
    let from_monitor = capture_monitor(&mut dev, 8, 4, 16, 8).unwrap();
    assert_eq!(from_window.width, 16);
    assert_eq!(from_window.height, 8);
    assert_eq!(from_window.data, from_monitor.data);
}

#[test]
fn window_fallback_zero_width() {
    // A zero-width rectangle falls back to the primary display's width on
    // that axis alone, and the scale factor applies after the fallback.
    let mut dev = Device::new(640, 480, 10);
    let id = dev.register_window(Rect { left: 100, top: 10, right: 100, bottom: 110 });
    let frame = capture_window(&mut dev, id, scale(2, 1)).unwrap();
    assert_eq!(frame.width, 1280);
    assert_eq!(frame.height, 200);
}

#[test]
fn window_fallback_zero_height() {
    let mut dev = Device::new(640, 480, 10);
    let id = dev.register_window(Rect { left: 100, top: 10, right: 160, bottom: 10 });
    let frame = capture_window(&mut dev, id, scale(1, 1)).unwrap();
    assert_eq!(frame.width, 60);
    assert_eq!(frame.height, 480);
}

#[test]
fn window_scale_truncates() {
    let mut dev = Device::new(16, 16, 10);
    let id = dev.register_window(Rect { left: 0, top: 0, right: 3, bottom: 2 });
    let frame = capture_window(&mut dev, id, scale(1, 2)).unwrap();
    assert_eq!(frame.width, 1);
    assert_eq!(frame.height, 1);
}

#[test]
fn invalid_window_fails_geometry_resolution() {
    // The lookup fails before any surface or bitmap is created: neither a
    // live handle nor a handle value is consumed.
    let mut dev = Device::new(16, 16, 10);
    let handle_source = dev.next_handle;
    let r = capture_window(&mut dev, 0, scale(1, 1));
    assert_eq!(r.unwrap_err(), CaptureError::GeometryResolutionFailed);
    assert_eq!(dev.live_handles, 0);
    assert_eq!(dev.next_handle, handle_source);
    assert!(dev.dpi_aware);
}

#[test]
fn window_transfer_failure_still_restores_and_releases() {
    let mut dev = Device::new(32, 32, 10);
    let id = dev.register_window(Rect { left: 0, top: 0, right: 8, bottom: 8 });
    dev.fail_transfer = true;
    let r = capture_window(&mut dev, id, scale(1, 1));
    assert_eq!(r.unwrap_err(), CaptureError::TransferFailed);
    assert_eq!(dev.live_handles, 0);
}

#[test]
fn decode_capture_exact_bytes() {
    let raw = vec![1, 2, 3, 0, 5, 6, 7, 9];
    let frame = decode_capture(raw, 2, 1, 7).unwrap();
    assert_eq!(frame.data, vec![3, 2, 1, 255, 7, 6, 5, 9]);
}

#[test]
fn decode_capture_length_mismatch_is_invariant_violation() {
    let raw = vec![0u8; 7];
    let r = decode_capture(raw, 2, 1, 10);
    assert_eq!(r.unwrap_err(), CaptureError::InvariantViolation);
}

#[test]
fn resolve_dimensions_applies_scale_per_axis() {
    let rect = Rect { left: 10, top: 20, right: 110, bottom: 60 };
    let dims = resolve_dimensions(rect, 640, 480, scale(3, 2));
    assert_eq!(dims, (150, 60));
}

#[test]
fn rgba_image_hand_off() {
    let mut dev = Device::new(8, 8, 10);
    dev.fill_desktop(40, 30, 20, 99);
    let frame = capture_monitor(&mut dev, 0, 0, 4, 2).unwrap();
    let expected = frame.data.clone();
    let handoff = to_rgba_image(frame).unwrap();
    let image = handoff.image;
    assert_eq!(image.width(), 4);
    assert_eq!(image.height(), 2);
    assert_eq!(image.as_raw(), &expected);
    assert_eq!(image.get_pixel(0, 0).0, [20, 30, 40, 99]);
}

#[test]
fn rgba_image_rejects_bad_frame() {
    let frame = Frame { width: 2, height: 2, data: vec![0u8; 3] };
    let r = to_rgba_image(frame);
    assert_eq!(r.err().unwrap(), CaptureError::InvariantViolation);
}
