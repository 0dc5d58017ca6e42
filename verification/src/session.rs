use vstd::prelude::*;

use crate::errors::CaptureError;
use crate::geometry::{rect_of, Rect};
use crate::guards::{valid_raw, BitmapGuard, MemoryDcGuard, ReleaseAction, ScreenDcGuard};
use crate::pixels::{swap_pixel_order, swapped_pixels, Bgra, Rgba, Screenshot};

verus! {

/// The result code with which the pixel copy reports that it rejected the
/// format parameters it was handed.
pub const INVALID_PARAMETER_RESULT: i32 = 87;

/// Number of pixels a rectangle holds.
pub open spec fn pixel_count(r: Rect) -> int {
    r.width * r.height
}

/// Number of buffer bytes a rectangle needs: one 4-byte group per pixel.
pub open spec fn byte_count(r: Rect) -> int {
    4 * pixel_count(r)
}

/// The rectangle describes a capture this process can hold: the pixel count
/// fits the accessors' result type, each extent fits the bitmap request's
/// signed argument, and the buffer fits an allocation.
pub open spec fn size_ok(r: Rect) -> bool {
    &&& pixel_count(r) <= u32::MAX
    &&& r.width <= i32::MAX
    &&& r.height <= i32::MAX
    &&& byte_count(r) <= usize::MAX
}

/// The pixel copy is rejected when it reports the invalid-parameter result,
/// or reports zero transferred rows although rows were requested. A capture
/// of height zero requests no rows, so zero transferred rows is its expected
/// outcome, not a failure.
pub open spec fn extraction_rejected(lines_copied: i32, height: u32) -> bool {
    ||| lines_copied == INVALID_PARAMETER_RESULT
    ||| height > 0 && lines_copied == 0
}

/// A failed open: the error to surface, and the release instructions for
/// everything the flow had acquired up to that point, in reverse acquisition
/// order, so that nothing leaks.
#[derive(Debug)]
pub struct OpenFailure {
    pub error: CaptureError,
    pub cleanup: Vec<ReleaseAction>,
}

/// A completed open: the capture session, and the release instruction for
/// the display context, which the session does not keep once the memory
/// context and the bitmap have been derived from it.
#[derive(Debug)]
pub struct OpenedSession {
    pub session: WindowScreenshotBuffer,
    pub cleanup: Vec<ReleaseAction>,
}

/// First stage of opening a session. The driver sets process-wide DPI
/// awareness (best effort: an already stricter setting is not an error) and
/// queries the window's screen rectangle, then reports the outcome.
#[derive(Debug)]
pub struct PendingRect {
    pub window: isize,
}

impl PendingRect {
    /// Consumes the rectangle query's outcome. A failed query, or a
    /// rectangle describing a buffer this process could not hold, surfaces
    /// as unavailable geometry; nothing has been acquired yet, so there is
    /// nothing to release.
    pub fn rect_reported(self, ok: bool, err: u32, left: i32, top: i32, right: i32, bottom: i32)
        -> (r: Result<PendingScreenDc, OpenFailure>)
        ensures
            match r {
                Ok(next) => {
                    &&& ok
                    &&& next.window == self.window
                    &&& next.rect == rect_of(left, top, right, bottom)
                    &&& next.wf()
                },
                Err(f) => {
                    &&& f.cleanup@.len() == 0
                    &&& if ok {
                        &&& !size_ok(rect_of(left, top, right, bottom))
                        &&& f.error == CaptureError::GeometryUnavailable(0)
                    } else {
                        f.error == CaptureError::GeometryUnavailable(err)
                    }
                },
            },
    {
        if !ok {
            return Err(OpenFailure {
                error: CaptureError::GeometryUnavailable(err),
                cleanup: Vec::new(),
            });
        }
        let rect = Rect::from_corners(left, top, right, bottom);
        proof {
            vstd::arithmetic::mul::lemma_mul_upper_bound(
                rect.width as int,
                0xFFFF_FFFF,
                rect.height as int,
                0xFFFF_FFFF,
            );
        }
        let pixels: u64 = (rect.width as u64) * (rect.height as u64);
        if pixels > u32::MAX as u64 || rect.width > i32::MAX as u32 || rect.height > i32::MAX
            as u32 {
            return Err(OpenFailure {
                error: CaptureError::GeometryUnavailable(0),
                cleanup: Vec::new(),
            });
        }
        let bytes: u64 = 4 * pixels;
        if bytes > usize::MAX as u64 {
            return Err(OpenFailure {
                error: CaptureError::GeometryUnavailable(0),
                cleanup: Vec::new(),
            });
        }
        Ok(PendingScreenDc { window: self.window, rect })
    }
}

/// Second stage: the driver acquires a display context for the window and
/// reports the raw handle.
#[derive(Debug)]
pub struct PendingScreenDc {
    pub window: isize,
    pub rect: Rect,
}

impl PendingScreenDc {
    /// The rectangle is well formed and describes a holdable buffer.
    pub open spec fn wf(self) -> bool {
        &&& self.rect.wf()
        &&& size_ok(self.rect)
    }

    /// Consumes the display-context acquisition's outcome. An invalid handle
    /// surfaces as a failed acquisition; nothing was held yet, so the
    /// cleanup list is empty.
    pub fn screen_dc_acquired(self, raw: isize, err: u32) -> (r: Result<
        PendingMemoryDc,
        OpenFailure,
    >)
        requires
            self.wf(),
        ensures
            match r {
                Ok(next) => {
                    &&& valid_raw(raw)
                    &&& next.window == self.window
                    &&& next.rect == self.rect
                    &&& next.screen.raw == raw
                    &&& next.wf()
                },
                Err(f) => {
                    &&& !valid_raw(raw)
                    &&& f.error == CaptureError::HandleAcquisitionFailed(err)
                    &&& f.cleanup@.len() == 0
                },
            },
    {
        match ScreenDcGuard::try_acquire(raw, err) {
            Ok(screen) => Ok(PendingMemoryDc { window: self.window, rect: self.rect, screen }),
            Err(error) => Err(OpenFailure { error, cleanup: Vec::new() }),
        }
    }
}

/// Third stage: the driver creates a memory context compatible with the held
/// display context and reports the raw handle.
#[derive(Debug)]
pub struct PendingMemoryDc {
    pub window: isize,
    pub rect: Rect,
    pub screen: ScreenDcGuard,
}

impl PendingMemoryDc {
    /// The rectangle is holdable and the held display context is live.
    pub open spec fn wf(self) -> bool {
        &&& self.rect.wf()
        &&& size_ok(self.rect)
        &&& valid_raw(self.screen.raw)
    }

    /// Consumes the compatible-context creation's outcome. On an invalid
    /// handle the held display context is released again: the cleanup lists
    /// exactly the one acquisition made so far.
    pub fn memory_dc_created(self, raw: isize, err: u32) -> (r: Result<
        PendingBitmap,
        OpenFailure,
    >)
        requires
            self.wf(),
        ensures
            match r {
                Ok(next) => {
                    &&& valid_raw(raw)
                    &&& next.window == self.window
                    &&& next.rect == self.rect
                    &&& next.screen == self.screen
                    &&& next.memory.raw == raw
                    &&& next.wf()
                },
                Err(f) => {
                    &&& !valid_raw(raw)
                    &&& f.error == CaptureError::HandleAcquisitionFailed(err)
                    &&& f.cleanup@ == seq![
                        (ReleaseAction::ReleaseScreenDc { window: 0, dc: self.screen.raw }),
                    ]
                },
            },
    {
        match MemoryDcGuard::try_acquire(raw, err) {
            Ok(memory) => Ok(PendingBitmap {
                window: self.window,
                rect: self.rect,
                screen: self.screen,
                memory,
            }),
            Err(error) => {
                let mut cleanup: Vec<ReleaseAction> = Vec::new();
                cleanup.push(self.screen.release());
                proof {
                    assert(cleanup@ =~= seq![
                        (ReleaseAction::ReleaseScreenDc { window: 0, dc: self.screen.raw }),
                    ]);
                }
                Err(OpenFailure { error, cleanup })
            },
        }
    }
}

/// Fourth stage: the driver creates a bitmap compatible with the display
/// context, sized `rect.width` by `rect.height`, and reports the raw handle.
#[derive(Debug)]
pub struct PendingBitmap {
    pub window: isize,
    pub rect: Rect,
    pub screen: ScreenDcGuard,
    pub memory: MemoryDcGuard,
}

impl PendingBitmap {
    /// The rectangle is holdable and both held contexts are live.
    pub open spec fn wf(self) -> bool {
        &&& self.rect.wf()
        &&& size_ok(self.rect)
        &&& valid_raw(self.screen.raw)
        &&& valid_raw(self.memory.raw)
    }

    /// Consumes the compatible-bitmap creation's outcome. On an invalid
    /// handle both held acquisitions are released again, in reverse
    /// acquisition order.
    pub fn bitmap_created(self, raw: isize, err: u32) -> (r: Result<PendingSelect, OpenFailure>)
        requires
            self.wf(),
        ensures
            match r {
                Ok(next) => {
                    &&& valid_raw(raw)
                    &&& next.window == self.window
                    &&& next.rect == self.rect
                    &&& next.screen == self.screen
                    &&& next.memory == self.memory
                    &&& next.bitmap.raw == raw
                    &&& next.wf()
                },
                Err(f) => {
                    &&& !valid_raw(raw)
                    &&& f.error == CaptureError::HandleAcquisitionFailed(err)
                    &&& f.cleanup@ == seq![
                        (ReleaseAction::DeleteMemoryDc { dc: self.memory.raw }),
                        (ReleaseAction::ReleaseScreenDc { window: 0, dc: self.screen.raw }),
                    ]
                },
            },
    {
        match BitmapGuard::try_acquire(raw, err) {
            Ok(bitmap) => Ok(PendingSelect {
                window: self.window,
                rect: self.rect,
                screen: self.screen,
                memory: self.memory,
                bitmap,
            }),
            Err(error) => {
                let mut cleanup: Vec<ReleaseAction> = Vec::new();
                cleanup.push(self.memory.release());
                cleanup.push(self.screen.release());
                proof {
                    assert(cleanup@ =~= seq![
                        (ReleaseAction::DeleteMemoryDc { dc: self.memory.raw }),
                        (ReleaseAction::ReleaseScreenDc { window: 0, dc: self.screen.raw }),
                    ]);
                }
                Err(OpenFailure { error, cleanup })
            },
        }
    }
}

/// Fifth stage: the driver selects the bitmap into the memory context and
/// reports the handle of the previously selected object.
#[derive(Debug)]
pub struct PendingSelect {
    pub window: isize,
    pub rect: Rect,
    pub screen: ScreenDcGuard,
    pub memory: MemoryDcGuard,
    pub bitmap: BitmapGuard,
}

impl PendingSelect {
    /// The rectangle is holdable and all three held resources are live.
    pub open spec fn wf(self) -> bool {
        &&& self.rect.wf()
        &&& size_ok(self.rect)
        &&& valid_raw(self.screen.raw)
        &&& valid_raw(self.memory.raw)
        &&& valid_raw(self.bitmap.raw)
    }

    /// Consumes the selection's outcome. A rejected selection releases all
    /// three held acquisitions in reverse acquisition order. A successful
    /// one completes the session: the session keeps the memory context, the
    /// bitmap and a zero-filled buffer of exactly 4 * width * height bytes,
    /// while the display context is released, its part done.
    pub fn bitmap_selected(self, previous: isize, err: u32) -> (r: Result<
        OpenedSession,
        OpenFailure,
    >)
        requires
            self.wf(),
        ensures
            match r {
                Ok(done) => {
                    &&& valid_raw(previous)
                    &&& done.session.window == self.window
                    &&& done.session.width == self.rect.width
                    &&& done.session.height == self.rect.height
                    &&& done.session.memory == self.memory
                    &&& done.session.bitmap == self.bitmap
                    &&& done.session.buffer@ =~= Seq::new(byte_count(self.rect) as nat, |i: int| 0u8)
                    &&& !done.session.rendered
                    &&& done.session.wf()
                    &&& done.cleanup@ == seq![
                        (ReleaseAction::ReleaseScreenDc { window: 0, dc: self.screen.raw }),
                    ]
                },
                Err(f) => {
                    &&& !valid_raw(previous)
                    &&& f.error == CaptureError::SelectionFailed(err)
                    &&& f.cleanup@ == seq![
                        (ReleaseAction::DeleteBitmap { bitmap: self.bitmap.raw }),
                        (ReleaseAction::DeleteMemoryDc { dc: self.memory.raw }),
                        (ReleaseAction::ReleaseScreenDc { window: 0, dc: self.screen.raw }),
                    ]
                },
            },
    {
        if previous == 0 || previous == -1 {
            let mut cleanup: Vec<ReleaseAction> = Vec::new();
            cleanup.push(self.bitmap.release());
            cleanup.push(self.memory.release());
            cleanup.push(self.screen.release());
            proof {
                assert(cleanup@ =~= seq![
                    (ReleaseAction::DeleteBitmap { bitmap: self.bitmap.raw }),
                    (ReleaseAction::DeleteMemoryDc { dc: self.memory.raw }),
                    (ReleaseAction::ReleaseScreenDc { window: 0, dc: self.screen.raw }),
                ]);
            }
            return Err(OpenFailure { error: CaptureError::SelectionFailed(err), cleanup });
        }
        proof {
            vstd::arithmetic::mul::lemma_mul_is_associative(
                4,
                self.rect.width as int,
                self.rect.height as int,
            );
        }
        let pixels: u64 = (self.rect.width as u64) * (self.rect.height as u64);
        let len64: u64 = 4 * pixels;
        let buffer = zero_vec(len64 as usize);
        let session = WindowScreenshotBuffer {
            window: self.window,
            width: self.rect.width,
            height: self.rect.height,
            memory: self.memory,
            bitmap: self.bitmap,
            buffer,
            rendered: false,
        };
        let mut cleanup: Vec<ReleaseAction> = Vec::new();
        cleanup.push(self.screen.release());
        proof {
            assert(cleanup@ =~= seq![
                (ReleaseAction::ReleaseScreenDc { window: 0, dc: self.screen.raw }),
            ]);
        }
        Ok(OpenedSession { session, cleanup })
    }
}

/// Allocates a zero-filled byte buffer of the given length.
fn zero_vec(n: usize) -> (v: Vec<u8>)
    ensures
        v@ =~= Seq::new(n as nat, |i: int| 0u8),
{
    let mut v: Vec<u8> = Vec::new();
    let mut i: usize = 0;
    while i < n
        invariant
            i <= n,
            v@.len() == i,
            forall|j: int| 0 <= j < i ==> v@[j] == 0u8,
        decreases n - i,
    {
        v.push(0u8);
        i = i + 1;
    }
    v
}

/// What the driver needs in order to render the window's current full
/// content (including occluded regions) into the session's memory context.
#[derive(Debug)]
pub struct RenderRequest {
    pub window: isize,
    pub target_dc: isize,
}

/// What the driver needs in order to extract the bitmap's pixels: the
/// contexts and the exact format descriptor — 32 bits per pixel, one plane,
/// uncompressed, and a negated height so rows come out top-down.
#[derive(Debug)]
pub struct ExtractRequest {
    pub source_dc: isize,
    pub bitmap: isize,
    pub dib_width: i32,
    pub dib_height: i32,
    pub planes: u16,
    pub bit_count: u16,
    pub compression: u32,
    pub lines: u32,
    pub byte_len: usize,
}

/// A capture session bound to one window: its geometry as of open time, the
/// memory context and bitmap it renders through, and the pixel buffer its
/// captures land in. Dimensions are fixed at open time; capturing a window
/// that was resized since yields content clipped or padded to the original
/// dimensions, and a fresh session must be opened to follow the resize.
#[derive(Debug)]
pub struct WindowScreenshotBuffer {
    pub window: isize,
    pub width: u32,
    pub height: u32,
    pub memory: MemoryDcGuard,
    pub bitmap: BitmapGuard,
    pub buffer: Vec<u8>,
    pub rendered: bool,
}

impl WindowScreenshotBuffer {
    /// The session invariant: the buffer holds exactly one 4-byte group per
    /// pixel of the open-time geometry, the pixel count fits the accessors'
    /// result type, and both kept resources are live.
    pub open spec fn wf(self) -> bool {
        &&& self.width * self.height <= u32::MAX
        &&& self.width <= i32::MAX
        &&& self.height <= i32::MAX
        &&& self.buffer@.len() == 4 * self.width * self.height
        &&& valid_raw(self.memory.raw)
        &&& valid_raw(self.bitmap.raw)
    }

    /// The parts of the session that capture calls never change: the bound
    /// window, the open-time geometry and the kept resources.
    pub open spec fn same_binding(self, other: WindowScreenshotBuffer) -> bool {
        &&& self.window == other.window
        &&& self.width == other.width
        &&& self.height == other.height
        &&& self.memory == other.memory
        &&& self.bitmap == other.bitmap
    }

    /// Begins opening a session for the given window handle. The returned
    /// stage tells the driver what to do first; each stage's outcome feeds
    /// the next until the session is complete or a failure has unwound
    /// every acquisition.
    pub fn new(window: isize) -> (r: PendingRect)
        ensures
            r.window == window,
    {
        PendingRect { window }
    }

    /// Width in pixels of the capture geometry.
    pub fn width(&self) -> (r: u32)
        ensures
            r == self.width,
    {
        self.width
    }

    /// Height in pixels of the capture geometry.
    pub fn height(&self) -> (r: u32)
        ensures
            r == self.height,
    {
        self.height
    }

    /// The current pixel buffer: whatever the most recent capture produced,
    /// in whichever channel order was last requested.
    pub fn buffer(&self) -> (r: &Vec<u8>)
        ensures
            r@ == self.buffer@,
    {
        &self.buffer
    }

    /// What the driver needs to render the window into the session.
    pub fn render_request(&self) -> (r: RenderRequest)
        ensures
            r.window == self.window,
            r.target_dc == self.memory.raw,
    {
        RenderRequest { window: self.window, target_dc: self.memory.raw }
    }

    /// Consumes the render's outcome. A denied render (window minimized,
    /// destroyed, or access denied) surfaces immediately; a successful one
    /// arms the extraction step.
    pub fn render_reported(&mut self, ok: bool, err: u32) -> (r: Result<(), CaptureError>)
        requires
            old(self).wf(),
        ensures
            final(self).same_binding(*old(self)),
            final(self).buffer == old(self).buffer,
            final(self).wf(),
            ok ==> r == Ok::<(), CaptureError>(()) && final(self).rendered,
            !ok ==> r == Err::<(), CaptureError>(CaptureError::RenderFailed(err))
                && !final(self).rendered,
    {
        if ok {
            self.rendered = true;
            Ok(())
        } else {
            self.rendered = false;
            Err(CaptureError::RenderFailed(err))
        }
    }

    /// What the driver needs to extract the rendered pixels, including the
    /// exact format descriptor the session demands.
    pub fn extract_request(&self) -> (r: ExtractRequest)
        requires
            self.wf(),
        ensures
            r.source_dc == self.memory.raw,
            r.bitmap == self.bitmap.raw,
            r.dib_width == self.width as i32,
            r.dib_height == -(self.height as int),
            r.planes == 1,
            r.bit_count == 32,
            r.compression == 0,
            r.lines == self.height,
            r.byte_len == self.buffer@.len(),
    {
        ExtractRequest {
            source_dc: self.memory.raw,
            bitmap: self.bitmap.raw,
            dib_width: self.width as i32,
            dib_height: -(self.height as i32),
            planes: 1,
            bit_count: 32,
            compression: 0,
            lines: self.height,
            byte_len: self.buffer.len(),
        }
    }

    /// Consumes the extraction's outcome. A rejected copy (invalid-parameter
    /// result, or zero rows transferred although rows were requested) leaves
    /// the buffer as it was and surfaces the failure; otherwise the bytes
    /// the copy produced fully overwrite the buffer, whatever it held, so
    /// repeated captures of unchanged content reproduce identical bytes.
    pub fn extract_reported(&mut self, lines_copied: i32, err: u32, data: Vec<u8>) -> (r: Result<
        (),
        CaptureError,
    >)
        requires
            old(self).wf(),
            old(self).rendered,
            data@.len() == old(self).buffer@.len(),
        ensures
            final(self).same_binding(*old(self)),
            final(self).wf(),
            !final(self).rendered,
            if extraction_rejected(lines_copied, old(self).height) {
                &&& r == Err::<(), CaptureError>(CaptureError::ExtractionFailed(err))
                &&& final(self).buffer == old(self).buffer
            } else {
                &&& r == Ok::<(), CaptureError>(())
                &&& final(self).buffer@ == data@
            },
    {
        self.rendered = false;
        if lines_copied == INVALID_PARAMETER_RESULT || (self.height > 0 && lines_copied == 0) {
            return Err(CaptureError::ExtractionFailed(err));
        }
        self.buffer = data;
        Ok(())
    }

    /// The session's current buffer viewed in the native channel order:
    /// blue, green, red, unused, rows top-down.
    pub fn get_bgr_screenshot(&self) -> (shot: Screenshot<Bgra>)
        requires
            self.wf(),
        ensures
            shot.width == self.width,
            shot.height == self.height,
            shot.image@ == self.buffer@,
            shot.wf(),
    {
        Screenshot {
            width: self.width,
            height: self.height,
            image: &self.buffer,
            marker: core::marker::PhantomData,
        }
    }

    /// Swaps the buffer to the red, green, blue, unused order in place and
    /// returns the view. The swap mutates the shared buffer: a following
    /// native-order view observes the swapped bytes until the next capture
    /// overwrites them, and requesting this view twice restores the original
    /// order, the swap being self-inverse.
    pub fn get_rgb_screenshot(&mut self) -> (shot: Screenshot<Rgba>)
        requires
            old(self).wf(),
        ensures
            final(self).same_binding(*old(self)),
            final(self).rendered == old(self).rendered,
            final(self).wf(),
            final(self).buffer@ == swapped_pixels(old(self).buffer@),
            shot.width == final(self).width,
            shot.height == final(self).height,
            shot.image@ == final(self).buffer@,
            shot.wf(),
    {
        proof {
            let w = old(self).width as int;
            let h = old(self).height as int;
            vstd::arithmetic::mul::lemma_mul_is_associative(4, w, h);
            assert((4 * (w * h)) % 4 == 0);
            assert(old(self).buffer@.len() % 4 == 0);
        }
        swap_pixel_order(&mut self.buffer);
        Screenshot {
            width: self.width,
            height: self.height,
            image: &self.buffer,
            marker: core::marker::PhantomData,
        }
    }

    /// Closes the session, yielding the release instructions for the two
    /// resources it kept, in reverse acquisition order: first the bitmap,
    /// then the memory context.
    pub fn close(self) -> (r: Vec<ReleaseAction>)
        ensures
            r@ == seq![
                (ReleaseAction::DeleteBitmap { bitmap: self.bitmap.raw }),
                (ReleaseAction::DeleteMemoryDc { dc: self.memory.raw }),
            ],
    {
        let mut cleanup: Vec<ReleaseAction> = Vec::new();
        cleanup.push(self.bitmap.release());
        cleanup.push(self.memory.release());
        proof {
            assert(cleanup@ =~= seq![
                (ReleaseAction::DeleteBitmap { bitmap: self.bitmap.raw }),
                (ReleaseAction::DeleteMemoryDc { dc: self.memory.raw }),
            ]);
        }
        cleanup
    }
}

} // verus!
