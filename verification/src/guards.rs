use vstd::prelude::*;

use crate::errors::CaptureError;

verus! {

/// Whether a raw handle value is a usable OS handle. The windowing system
/// signals failure with the null or the minus-one sentinel; every other
/// value denotes a live resource.
pub open spec fn valid_raw(raw: isize) -> bool {
    raw != 0 && raw != -1
}

/// A release instruction for the unverified driver: which OS release call to
/// perform, and on which handle. Producing one of these consumes the owning
/// guard, so each resource is released exactly once.
#[derive(Clone, Copy, PartialEq, Eq, Structural, Debug)]
pub enum ReleaseAction {
    /// Release a display context back to the window-context pool. The
    /// release is always addressed to the default (null) window target,
    /// matching the pairing convention of the acquire/release API pair this
    /// mirrors, rather than the window the context was acquired from.
    ReleaseScreenDc { window: isize, dc: isize },
    /// Delete a memory-compatible device context.
    DeleteMemoryDc { dc: isize },
    /// Delete a bitmap object.
    DeleteBitmap { bitmap: isize },
}

/// Owns a display device context bound to a window (or to the whole screen).
/// Move-only: the only ways out are `release`, which yields the release
/// instruction, or transfer of the whole guard.
#[derive(Debug)]
pub struct ScreenDcGuard {
    pub raw: isize,
}

impl ScreenDcGuard {
    /// Wraps the handle the display-context acquisition returned, rejecting
    /// the invalid sentinels.
    pub fn try_acquire(raw: isize, err: u32) -> (r: Result<ScreenDcGuard, CaptureError>)
        ensures
            valid_raw(raw) ==> r == Ok::<ScreenDcGuard, CaptureError>(ScreenDcGuard { raw }),
            !valid_raw(raw) ==> r == Err::<ScreenDcGuard, CaptureError>(
                CaptureError::HandleAcquisitionFailed(err),
            ),
    {
        if raw != 0 && raw != -1 {
            Ok(ScreenDcGuard { raw })
        } else {
            Err(CaptureError::HandleAcquisitionFailed(err))
        }
    }

    /// Consumes the guard and yields its release instruction, addressed to
    /// the default window target.
    pub fn release(self) -> (r: ReleaseAction)
        ensures
            r == (ReleaseAction::ReleaseScreenDc { window: 0, dc: self.raw }),
    {
        ReleaseAction::ReleaseScreenDc { window: 0, dc: self.raw }
    }
}

/// Owns an off-screen device context created as compatible with a display
/// context. Move-only, released exactly once through `release`.
#[derive(Debug)]
pub struct MemoryDcGuard {
    pub raw: isize,
}

impl MemoryDcGuard {
    /// Wraps the handle the compatible-context creation returned, rejecting
    /// the invalid sentinels.
    pub fn try_acquire(raw: isize, err: u32) -> (r: Result<MemoryDcGuard, CaptureError>)
        ensures
            valid_raw(raw) ==> r == Ok::<MemoryDcGuard, CaptureError>(MemoryDcGuard { raw }),
            !valid_raw(raw) ==> r == Err::<MemoryDcGuard, CaptureError>(
                CaptureError::HandleAcquisitionFailed(err),
            ),
    {
        if raw != 0 && raw != -1 {
            Ok(MemoryDcGuard { raw })
        } else {
            Err(CaptureError::HandleAcquisitionFailed(err))
        }
    }

    /// Consumes the guard and yields its delete instruction.
    pub fn release(self) -> (r: ReleaseAction)
        ensures
            r == (ReleaseAction::DeleteMemoryDc { dc: self.raw }),
    {
        ReleaseAction::DeleteMemoryDc { dc: self.raw }
    }
}

/// Owns an off-screen bitmap compatible with a device context. Move-only,
/// released exactly once through `release`.
#[derive(Debug)]
pub struct BitmapGuard {
    pub raw: isize,
}

impl BitmapGuard {
    /// Wraps the handle the compatible-bitmap creation returned, rejecting
    /// the invalid sentinels.
    pub fn try_acquire(raw: isize, err: u32) -> (r: Result<BitmapGuard, CaptureError>)
        ensures
            valid_raw(raw) ==> r == Ok::<BitmapGuard, CaptureError>(BitmapGuard { raw }),
            !valid_raw(raw) ==> r == Err::<BitmapGuard, CaptureError>(
                CaptureError::HandleAcquisitionFailed(err),
            ),
    {
        if raw != 0 && raw != -1 {
            Ok(BitmapGuard { raw })
        } else {
            Err(CaptureError::HandleAcquisitionFailed(err))
        }
    }

    /// Consumes the guard and yields its delete instruction.
    pub fn release(self) -> (r: ReleaseAction)
        ensures
            r == (ReleaseAction::DeleteBitmap { bitmap: self.raw }),
    {
        ReleaseAction::DeleteBitmap { bitmap: self.raw }
    }
}

} // verus!
