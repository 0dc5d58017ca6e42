//! Verified core of a window-capture pipeline.
//!
//! The library models the decisions of a desktop screen-capture tool: it
//! filters enumerated top-level windows, locates a window by title, walks a
//! capture session through its resource acquisitions (device contexts and a
//! bitmap) with a verified unwind on failure, and converts the captured pixel
//! buffer between the native blue-green-red byte order and the swapped order.
//! The operating-system calls themselves are performed by an unverified
//! driver, which feeds each call's outcome back into the verified state
//! machine as plain values.

mod enumerate;
mod errors;
mod finder;
mod geometry;
mod guards;
mod pixels;
mod session;
mod text;

pub use enumerate::{kept_records, keep_probe, list_windows, record_of, WindowProbe, WindowRecord};
pub use errors::CaptureError;
pub use finder::WindowFinder;
pub use text::{chars_of, has_substring, matches_at, str_contains, str_eq};
pub use geometry::{rect_of, spec_extent, Rect};
pub use guards::{valid_raw, BitmapGuard, MemoryDcGuard, ReleaseAction, ScreenDcGuard};
pub use pixels::{swapped_pixels, swap_partner, lemma_swap_involutive, Bgra, Rgba, Screenshot};
pub use session::{byte_count, extraction_rejected, pixel_count, size_ok, ExtractRequest, OpenFailure, OpenedSession, PendingBitmap, PendingMemoryDc, PendingRect, PendingScreenDc, PendingSelect, RenderRequest, WindowScreenshotBuffer, INVALID_PARAMETER_RESULT};
