use vstd::prelude::*;

verus! {

/// A failure of the capture pipeline, carrying the operating system's last
/// error code where one was available (zero when none was).
#[derive(Clone, Copy, PartialEq, Eq, Structural, Debug)]
pub enum CaptureError {
    /// An OS handle acquisition returned an invalid sentinel.
    HandleAcquisitionFailed(u32),
    /// The window's screen rectangle could not be reported, or does not
    /// describe a buffer this process could hold.
    GeometryUnavailable(u32),
    /// Selecting the bitmap into the memory context was rejected.
    SelectionFailed(u32),
    /// Rendering the window's content was rejected.
    RenderFailed(u32),
    /// The pixel copy was rejected or reported zero transferred rows.
    ExtractionFailed(u32),
    /// The window walk itself was aborted by the OS.
    EnumerationFailed(u32),
}

} // verus!
