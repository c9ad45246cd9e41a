//! The display device model: the display subsystem exactly as the capture
//! pipeline observes it. It carries the live desktop surface (a BGRA pixel
//! buffer), the primary display dimensions, the operating-system major
//! version, registered window geometry, process-wide DPI awareness, a count
//! of live native handles, and the failure behaviour of each native call.
//!
//! The pipeline's native calls are methods of this model with exact
//! contracts: what a compatible context or bitmap creation does to the
//! handle count, what a blit copies, what a raw pixel read returns.
//! Platform bindings performing the same calls against a real display live
//! outside the library.

use vstd::prelude::*;

use crate::error::CaptureError;
use crate::geometry::Rect;

verus! {

/// The selection token of a drawing surface that holds no selected object
/// beyond its stock default.
pub const STOCK_OBJECT: u64 = 0;

/// The display subsystem as observed by a capture call.
pub struct Device {
    /// Primary display width in physical pixels.
    pub screen_width: u32,
    /// Primary display height in physical pixels.
    pub screen_height: u32,
    /// The live desktop surface: BGRA bytes, row-major, top-down,
    /// `screen_width * screen_height * 4` bytes.
    pub desktop: Vec<u8>,
    /// The operating-system major version (drives alpha compensation).
    pub os_major: u32,
    /// Screen rectangles of the windows the display knows; a window
    /// identifier is an index into this table.
    pub windows: Vec<Rect>,
    /// Whether process-level DPI awareness has been requested.
    pub dpi_aware: bool,
    /// How many native handles are currently alive.
    pub live_handles: u64,
    /// The next native handle value to hand out; never `STOCK_OBJECT`.
    pub next_handle: u64,
    /// Whether creating a compatible drawing context fails.
    pub fail_surface_creation: bool,
    /// Whether creating a compatible bitmap fails.
    pub fail_bitmap_creation: bool,
    /// Whether the pixel-copy (blit) step fails.
    pub fail_transfer: bool,
    /// Whether the raw pixel read fails.
    pub fail_pixel_read: bool,
}

/// An off-screen drawing context owned by a single capture call; it tracks
/// the currently selected drawing object so the prior selection can be
/// restored before the context is released.
pub struct MemContext {
    pub handle: u64,
    pub selected: u64,
}

/// An off-screen bitmap owned by a single capture call, with its pixel
/// store in device BGRA order.
pub struct Bitmap {
    pub handle: u64,
    pub width: u32,
    pub height: u32,
    pub data: Vec<u8>,
}

impl Bitmap {
    /// The bitmap's store holds exactly 4 bytes per pixel.
    pub open spec fn wf(self) -> bool {
        self.data@.len() == self.width * self.height * 4
    }
}

/// The desktop surface byte at pixel column `px`, row `py`, channel `c`;
/// reads outside the display read as zero, matching a direct pixel copy
/// from a clipped source.
pub open spec fn desktop_byte(dev: Device, px: int, py: int, c: int) -> u8 {
    if 0 <= px < dev.screen_width && 0 <= py < dev.screen_height {
        dev.desktop@[(py * dev.screen_width + px) * 4 + c]
    } else {
        0u8
    }
}

/// The raw BGRA bytes of the `width` by `height` desktop region whose
/// top-left corner is `(x, y)`: row-major, top-down, 4 bytes per pixel.
pub open spec fn region_bytes(dev: Device, x: int, y: int, width: int, height: int) -> Seq<u8> {
    Seq::new((width * height * 4) as nat, |i: int|
        desktop_byte(dev, x + (i / 4) % width, y + (i / 4) / width, i % 4))
}

/// The handle value after one more handle is handed out; the source skips
/// back over the stock-object token rather than overflowing, so handing a
/// handle out never aborts.
pub open spec fn next_handle_source(h: u64) -> u64 {
    if h == u64::MAX {
        1u64
    } else {
        (h + 1) as u64
    }
}

/// The live-handle count after one handle is acquired. The count is
/// modular, with release its exact inverse, so a balanced
/// acquire-and-release always returns the count to its baseline, from any
/// starting value.
pub open spec fn count_acquired(c: u64) -> u64 {
    if c == u64::MAX {
        0u64
    } else {
        (c + 1) as u64
    }
}

/// The live-handle count after one handle is released; the exact inverse
/// of acquisition.
pub open spec fn count_released(c: u64) -> u64 {
    if c == 0 {
        u64::MAX
    } else {
        (c - 1) as u64
    }
}

impl MemContext {
    /// Selects a drawing object into this context and returns the token of
    /// the previously selected object, to be restored before release.
    pub fn select_object(&mut self, object: u64) -> (previous: u64)
        ensures
            final(self).handle == old(self).handle,
            final(self).selected == object,
            previous == old(self).selected,
    {
        let previous = self.selected;
        self.selected = object;
        previous
    }
}

impl Device {
    /// A device is well formed when its desktop buffer matches the display
    /// dimensions, its handle source never collides with the stock-object
    /// token, and every registered window rectangle is well formed.
    pub open spec fn wf(self) -> bool {
        &&& self.desktop@.len() == self.screen_width * self.screen_height * 4
        &&& self.next_handle > STOCK_OBJECT
        &&& forall|i: int| 0 <= i < self.windows@.len() ==> (#[trigger] self.windows@[i]).wf()
    }

    /// A fresh display: desktop surface zeroed, no window registered, no
    /// live handle, DPI awareness not yet requested, every native call
    /// succeeding.
    pub fn new(screen_width: u32, screen_height: u32, os_major: u32) -> (dev: Device)
        requires
            screen_width * screen_height * 4 <= usize::MAX,
        ensures
            dev.wf(),
            dev.screen_width == screen_width,
            dev.screen_height == screen_height,
            dev.os_major == os_major,
            dev.desktop@ == Seq::new((screen_width * screen_height * 4) as nat, |i: int| 0u8),
            dev.windows@ == Seq::<Rect>::empty(),
            !dev.dpi_aware,
            dev.live_handles == 0,
            dev.next_handle == 1,
            !dev.fail_surface_creation,
            !dev.fail_bitmap_creation,
            !dev.fail_transfer,
            !dev.fail_pixel_read,
    {
        proof {
            assert(screen_width as int * screen_height as int <= u32::MAX as int * u32::MAX as int)
                by (nonlinear_arith)
                requires
                    screen_width <= u32::MAX,
                    screen_height <= u32::MAX,
            ;
        }
        let len: u64 = screen_width as u64 * screen_height as u64 * 4;
        let mut desktop: Vec<u8> = Vec::new();
        let mut i: u64 = 0;
        while i < len
            invariant
                i <= len,
                desktop@.len() == i,
                forall|j: int| 0 <= j < i ==> desktop@[j] == 0u8,
            decreases len - i,
        {
            desktop.push(0u8);
            i = i + 1;
        }
        proof {
            assert(desktop@ =~= Seq::new((screen_width * screen_height * 4) as nat, |i: int| 0u8));
        }
        Device {
            screen_width,
            screen_height,
            desktop,
            os_major,
            windows: Vec::new(),
            dpi_aware: false,
            live_handles: 0,
            next_handle: 1,
            fail_surface_creation: false,
            fail_bitmap_creation: false,
            fail_transfer: false,
            fail_pixel_read: false,
        }
    }

    /// Fills the whole desktop surface with one device pixel, given in
    /// device order: channel bytes B, G, R, A.
    pub fn fill_desktop(&mut self, b: u8, g: u8, r: u8, a: u8)
        requires
            old(self).wf(),
        ensures
            *final(self) == (Device { desktop: final(self).desktop, ..*old(self) }),
            final(self).wf(),
            final(self).desktop@.len() == old(self).desktop@.len(),
            forall|i: int| 0 <= i < final(self).desktop@.len() ==> final(self).desktop@[i] == (
            if i % 4 == 0 { b } else if i % 4 == 1 { g } else if i % 4 == 2 { r } else { a }),
    {
        let len = self.desktop.len();
        let mut out: Vec<u8> = Vec::new();
        let mut i: usize = 0;
        while i < len
            invariant
                i <= len,
                out@.len() == i,
                forall|j: int| 0 <= j < i ==> out@[j] == (
                if j % 4 == 0 { b } else if j % 4 == 1 { g } else if j % 4 == 2 { r } else { a }),
            decreases len - i,
        {
            let c = i % 4;
            let byte = if c == 0 { b } else if c == 1 { g } else if c == 2 { r } else { a };
            out.push(byte);
            i = i + 1;
        }
        self.desktop = out;
    }

    /// Registers a window rectangle with the display and returns its window
    /// identifier.
    pub fn register_window(&mut self, rect: Rect) -> (id: usize)
        requires
            old(self).wf(),
            rect.wf(),
        ensures
            final(self).wf(),
            *final(self) == (Device { windows: final(self).windows, ..*old(self) }),
            final(self).windows@ == old(self).windows@.push(rect),
            id == old(self).windows@.len(),
    {
        let id = self.windows.len();
        self.windows.push(rect);
        id
    }

    /// The one-time-per-process request for physical pixel coordinates;
    /// idempotent, changes nothing else.
    pub fn ensure_dpi_aware(&mut self)
        ensures
            *final(self) == (Device { dpi_aware: true, ..*old(self) }),
    {
        self.dpi_aware = true;
    }

    /// Resolves a window's screen rectangle; fails exactly for an invalid
    /// (unregistered) window identifier, before any surface is created.
    pub fn get_window_rect(&self, window: usize) -> (r: Result<Rect, CaptureError>)
        ensures
            window < self.windows@.len() ==> r == Ok::<Rect, CaptureError>(
                self.windows@[window as int],
            ),
            window >= self.windows@.len() ==> r == Err::<Rect, CaptureError>(
                CaptureError::GeometryResolutionFailed,
            ),
    {
        if window < self.windows.len() {
            Ok(self.windows[window])
        } else {
            Err(CaptureError::GeometryResolutionFailed)
        }
    }

    /// Creates an off-screen drawing context compatible with the desktop.
    /// On success the context owns one new live handle and holds only its
    /// stock default selection; on failure nothing is created and the
    /// device is unchanged.
    pub fn create_compatible_context(&mut self) -> (r: Result<MemContext, CaptureError>)
        ensures
            old(self).fail_surface_creation ==> r == Err::<MemContext, CaptureError>(
                CaptureError::ResourceCreationFailed,
            ) && *final(self) == *old(self),
            !old(self).fail_surface_creation ==> (r matches Ok(ctx) && ctx.handle == old(
                self,
            ).next_handle && ctx.selected == STOCK_OBJECT && *final(self) == (Device {
                live_handles: count_acquired(old(self).live_handles),
                next_handle: next_handle_source(old(self).next_handle),
                ..*old(self)
            })),
    {
        if self.fail_surface_creation {
            return Err(CaptureError::ResourceCreationFailed);
        }
        let handle = self.next_handle;
        self.next_handle = if self.next_handle == u64::MAX { 1 } else { self.next_handle + 1 };
        self.live_handles = if self.live_handles == u64::MAX { 0 } else { self.live_handles + 1 };
        Ok(MemContext { handle, selected: STOCK_OBJECT })
    }

    /// Creates an off-screen bitmap compatible with the desktop, sized
    /// `width` by `height`, its store zeroed. On success the bitmap owns one
    /// new live handle; on failure nothing is created and the device is
    /// unchanged.
    pub fn create_compatible_bitmap(&mut self, width: u32, height: u32) -> (r: Result<
        Bitmap,
        CaptureError,
    >)
        requires
            width * height * 4 <= usize::MAX,
        ensures
            old(self).fail_bitmap_creation ==> r == Err::<Bitmap, CaptureError>(
                CaptureError::ResourceCreationFailed,
            ) && *final(self) == *old(self),
            !old(self).fail_bitmap_creation ==> (r matches Ok(bmp) && bmp.handle == old(
                self,
            ).next_handle && bmp.width == width && bmp.height == height && bmp.wf() && *final(self)
                == (Device {
                live_handles: count_acquired(old(self).live_handles),
                next_handle: next_handle_source(old(self).next_handle),
                ..*old(self)
            })),
    {
        if self.fail_bitmap_creation {
            return Err(CaptureError::ResourceCreationFailed);
        }
        proof {
            assert(width as int * height as int <= u32::MAX as int * u32::MAX as int)
                by (nonlinear_arith)
                requires
                    width <= u32::MAX,
                    height <= u32::MAX,
            ;
        }
        let len: u64 = width as u64 * height as u64 * 4;
        let mut data: Vec<u8> = Vec::new();
        let mut i: u64 = 0;
        while i < len
            invariant
                i <= len,
                data@.len() == i,
            decreases len - i,
        {
            data.push(0u8);
            i = i + 1;
        }
        let handle = self.next_handle;
        self.next_handle = if self.next_handle == u64::MAX { 1 } else { self.next_handle + 1 };
        self.live_handles = if self.live_handles == u64::MAX { 0 } else { self.live_handles + 1 };
        Ok(Bitmap { handle, width, height, data })
    }

    /// Releases an owned drawing context. The context must have been
    /// restored to its stock default selection first: destroying a context
    /// that still holds a selected bitmap is undefined behaviour on the
    /// underlying platform.
    pub fn release_context(&mut self, ctx: MemContext)
        requires
            ctx.selected == STOCK_OBJECT,
        ensures
            *final(self) == (Device {
                live_handles: count_released(old(self).live_handles),
                ..*old(self)
            }),
    {
        self.live_handles = if self.live_handles == 0 { u64::MAX } else { self.live_handles - 1 };
    }

    /// Releases an owned bitmap.
    pub fn release_bitmap(&mut self, bmp: Bitmap)
        ensures
            *final(self) == (Device {
                live_handles: count_released(old(self).live_handles),
                ..*old(self)
            }),
    {
        self.live_handles = if self.live_handles == 0 { u64::MAX } else { self.live_handles - 1 };
    }

    /// Copies a `width` by `height` rectangle from the live desktop surface
    /// at source offset `(src_x, src_y)` into the bitmap selected in `ctx`,
    /// destination offset `(0, 0)`, as a direct (non-blended, non-scaling)
    /// pixel copy. Returns whether the platform reported success; on
    /// failure the bitmap store is untouched.
    pub fn blit(&self, ctx: &MemContext, bmp: &mut Bitmap, src_x: i32, src_y: i32) -> (ok: bool)
        requires
            self.wf(),
            old(bmp).wf(),
            ctx.selected == old(bmp).handle,
        ensures
            final(bmp).handle == old(bmp).handle,
            final(bmp).width == old(bmp).width,
            final(bmp).height == old(bmp).height,
            final(bmp).wf(),
            ok <==> !self.fail_transfer,
            ok ==> final(bmp).data@ == region_bytes(
                *self,
                src_x as int,
                src_y as int,
                old(bmp).width as int,
                old(bmp).height as int,
            ),
            !ok ==> final(bmp).data@ == old(bmp).data@,
    {
        if self.fail_transfer {
            return false;
        }
        let width = bmp.width;
        let height = bmp.height;
        let len = bmp.data.len();
        let ghost region: Seq<u8> = region_bytes(
            *self,
            src_x as int,
            src_y as int,
            width as int,
            height as int,
        );
        let dlen = self.desktop.len();
        let mut out: Vec<u8> = Vec::new();
        let mut i: usize = 0;
        while i < len
            invariant
                self.wf(),
                i <= len,
                len == width * height * 4,
                dlen == self.desktop@.len(),
                region.len() == len,
                region == region_bytes(*self, src_x as int, src_y as int, width as int, height as int),
                out@.len() == i,
                forall|j: int| 0 <= j < i ==> out@[j] == region[j],
            decreases len - i,
        {
            proof {
                assert(width > 0 && height > 0) by (nonlinear_arith)
                    requires
                        i < width * height * 4,
                ;
            }
            let c = i % 4;
            let p = i / 4;
            let col = p % (width as usize);
            let row = p / (width as usize);
            proof {
                assert(p < width * height) by (nonlinear_arith)
                    requires
                        i < width * height * 4,
                        p == i as int / 4,
                ;
                assert(row < height) by (nonlinear_arith)
                    requires
                        p < width * height,
                        width > 0,
                        row == p as int / (width as int),
                ;
            }
            let sx: i64 = src_x as i64 + col as i64;
            let sy: i64 = src_y as i64 + row as i64;
            let byte: u8 = if 0 <= sx && sx < self.screen_width as i64 && 0 <= sy && sy
                < self.screen_height as i64 {
                proof {
                    assert((sy * self.screen_width + sx) * 4 + c < self.screen_width
                        * self.screen_height * 4) by (nonlinear_arith)
                        requires
                            0 <= sx < self.screen_width,
                            0 <= sy < self.screen_height,
                            0 <= c < 4,
                    ;
                    assert(0 <= sy * self.screen_width + sx) by (nonlinear_arith)
                        requires
                            0 <= sx,
                            0 <= sy,
                            0 < self.screen_width,
                    ;
                }
                let idx: u64 = (sy as u64 * self.screen_width as u64 + sx as u64) * 4 + c as u64;
                self.desktop[idx as usize]
            } else {
                0u8
            };
            proof {
                assert(byte == region[i as int]);
            }
            out.push(byte);
            i = i + 1;
        }
        proof {
            assert(out@ =~= region);
        }
        bmp.data = out;
        true
    }

    /// Reads the raw device pixel memory of an off-screen bitmap in
    /// top-down row order, 32 bits per pixel. Fails exactly when the
    /// platform's raw read reports failure.
    pub fn read_pixels(&self, _ctx: &MemContext, bmp: &Bitmap) -> (r: Option<Vec<u8>>)
        ensures
            r is Some <==> !self.fail_pixel_read,
            r matches Some(raw) ==> raw@ == bmp.data@,
    {
        if self.fail_pixel_read {
            return None;
        }
        let len = bmp.data.len();
        let mut out: Vec<u8> = Vec::new();
        let mut i: usize = 0;
        while i < len
            invariant
                i <= len,
                len == bmp.data@.len(),
                out@.len() == i,
                forall|j: int| 0 <= j < i ==> out@[j] == bmp.data@[j],
            decreases len - i,
        {
            out.push(bmp.data[i]);
            i = i + 1;
        }
        proof {
            assert(out@ =~= bmp.data@);
        }
        Some(out)
    }
}

} // verus!
