use winshot::{CaptureError, ReleaseAction, WindowScreenshotBuffer};

const SCREEN_DC: isize = 10;
const MEMORY_DC: isize = 11;
const BITMAP: isize = 12;
const PREVIOUS: isize = 13;

fn open_session(right: i32, bottom: i32) -> WindowScreenshotBuffer {
    let flow = WindowScreenshotBuffer::new(7);
    let flow = flow.rect_reported(true, 0, 0, 0, right, bottom).unwrap();
    let flow = flow.screen_dc_acquired(SCREEN_DC, 0).unwrap();
    let flow = flow.memory_dc_created(MEMORY_DC, 0).unwrap();
    let flow = flow.bitmap_created(BITMAP, 0).unwrap();
    let done = flow.bitmap_selected(PREVIOUS, 0).unwrap();
    assert_eq!(done.cleanup, vec![ReleaseAction::ReleaseScreenDc { window: 0, dc: SCREEN_DC }]);
    done.session
}

#[test]
fn open_produces_four_bytes_per_pixel() {
    let session = open_session(3, 2);
    assert_eq!(session.width(), 3);
    assert_eq!(session.height(), 2);
    assert_eq!(session.buffer().len(), 4 * 3 * 2);
    assert!(session.buffer().iter().all(|b| *b == 0));
}

#[test]
fn zero_size_window_opens_and_reads_without_error() {
    let mut session = open_session(0, 0);
    assert_eq!(session.buffer().len(), 0);
    session.render_reported(true, 0).unwrap();
    session.extract_reported(0, 0, Vec::new()).unwrap();
    assert_eq!(session.buffer().len(), 0);
}

#[test]
fn inverted_rectangle_clamps_to_empty() {
    let flow = WindowScreenshotBuffer::new(7);
    let flow = flow.rect_reported(true, 0, 10, 10, 5, 5).unwrap();
    let flow = flow.screen_dc_acquired(SCREEN_DC, 0).unwrap();
    let flow = flow.memory_dc_created(MEMORY_DC, 0).unwrap();
    let flow = flow.bitmap_created(BITMAP, 0).unwrap();
    let session = flow.bitmap_selected(PREVIOUS, 0).unwrap().session;
    assert_eq!(session.width(), 0);
    assert_eq!(session.height(), 0);
    assert_eq!(session.buffer().len(), 0);
}

#[test]
fn failed_rectangle_query_is_geometry_unavailable() {
    let flow = WindowScreenshotBuffer::new(7);
    let failure = flow.rect_reported(false, 42, 0, 0, 0, 0).unwrap_err();
    assert_eq!(failure.error, CaptureError::GeometryUnavailable(42));
    assert_eq!(failure.cleanup.len(), 0);
}

#[test]
fn oversized_rectangle_is_rejected_without_allocation() {
    let flow = WindowScreenshotBuffer::new(7);
    let failure = flow.rect_reported(true, 0, 0, 0, i32::MAX, i32::MAX).unwrap_err();
    assert_eq!(failure.error, CaptureError::GeometryUnavailable(0));
    assert_eq!(failure.cleanup.len(), 0);
}

#[test]
fn screen_dc_failure_has_nothing_to_release() {
    let flow = WindowScreenshotBuffer::new(7);
    let flow = flow.rect_reported(true, 0, 0, 0, 2, 2).unwrap();
    let failure = flow.screen_dc_acquired(0, 9).unwrap_err();
    assert_eq!(failure.error, CaptureError::HandleAcquisitionFailed(9));
    assert_eq!(failure.cleanup.len(), 0);
}

#[test]
fn memory_dc_failure_releases_screen_dc() {
    let mut acquired: usize = 0;
    let flow = WindowScreenshotBuffer::new(7);
    let flow = flow.rect_reported(true, 0, 0, 0, 2, 2).unwrap();
    let flow = flow.screen_dc_acquired(SCREEN_DC, 0).unwrap();
    acquired += 1;
    let failure = flow.memory_dc_created(0, 7).unwrap_err();
    assert_eq!(failure.error, CaptureError::HandleAcquisitionFailed(7));
    assert_eq!(
        failure.cleanup,
        vec![ReleaseAction::ReleaseScreenDc { window: 0, dc: SCREEN_DC }]
    );
    assert_eq!(acquired, failure.cleanup.len());
}

#[test]
fn bitmap_failure_releases_both_contexts_in_reverse_order() {
    let mut acquired: usize = 0;
    let flow = WindowScreenshotBuffer::new(7);
    let flow = flow.rect_reported(true, 0, 0, 0, 2, 2).unwrap();
    let flow = flow.screen_dc_acquired(SCREEN_DC, 0).unwrap();
    acquired += 1;
    let flow = flow.memory_dc_created(MEMORY_DC, 0).unwrap();
    acquired += 1;
    let failure = flow.bitmap_created(-1, 8).unwrap_err();
    assert_eq!(failure.error, CaptureError::HandleAcquisitionFailed(8));
    assert_eq!(
        failure.cleanup,
        vec![
            ReleaseAction::DeleteMemoryDc { dc: MEMORY_DC },
            ReleaseAction::ReleaseScreenDc { window: 0, dc: SCREEN_DC },
        ]
    );
    assert_eq!(acquired, failure.cleanup.len());
}

#[test]
fn selection_failure_releases_everything_in_reverse_order() {
    let mut acquired: usize = 0;
    let flow = WindowScreenshotBuffer::new(7);
    let flow = flow.rect_reported(true, 0, 0, 0, 2, 2).unwrap();
    let flow = flow.screen_dc_acquired(SCREEN_DC, 0).unwrap();
    acquired += 1;
    let flow = flow.memory_dc_created(MEMORY_DC, 0).unwrap();
    acquired += 1;
    let flow = flow.bitmap_created(BITMAP, 0).unwrap();
    acquired += 1;
    let failure = flow.bitmap_selected(0, 6).unwrap_err();
    assert_eq!(failure.error, CaptureError::SelectionFailed(6));
    assert_eq!(
        failure.cleanup,
        vec![
            ReleaseAction::DeleteBitmap { bitmap: BITMAP },
            ReleaseAction::DeleteMemoryDc { dc: MEMORY_DC },
            ReleaseAction::ReleaseScreenDc { window: 0, dc: SCREEN_DC },
        ]
    );
    assert_eq!(acquired, failure.cleanup.len());
}

#[test]
fn denied_render_surfaces_render_failed() {
    let mut session = open_session(1, 1);
    let e = session.render_reported(false, 3).unwrap_err();
    assert_eq!(e, CaptureError::RenderFailed(3));
}

#[test]
fn rejected_extraction_keeps_the_buffer() {
    let mut session = open_session(1, 1);
    session.render_reported(true, 0).unwrap();
    let e = session.extract_reported(0, 4, vec![1, 2, 3, 4]).unwrap_err();
    assert_eq!(e, CaptureError::ExtractionFailed(4));
    assert_eq!(session.buffer().as_slice(), &[0, 0, 0, 0]);
}

#[test]
fn invalid_parameter_result_fails_extraction() {
    let mut session = open_session(1, 1);
    session.render_reported(true, 0).unwrap();
    let e = session.extract_reported(87, 0, vec![1, 2, 3, 4]).unwrap_err();
    assert_eq!(e, CaptureError::ExtractionFailed(0));
}

#[test]
fn extract_request_describes_the_exact_format() {
    let session = open_session(3, 2);
    let req = session.extract_request();
    assert_eq!(req.source_dc, MEMORY_DC);
    assert_eq!(req.bitmap, BITMAP);
    assert_eq!(req.dib_width, 3);
    assert_eq!(req.dib_height, -2);
    assert_eq!(req.planes, 1);
    assert_eq!(req.bit_count, 32);
    assert_eq!(req.compression, 0);
    assert_eq!(req.lines, 2);
    assert_eq!(req.byte_len, 24);
}

#[test]
fn repeated_reads_reproduce_identical_bytes() {
    let mut session = open_session(1, 2);
    let content = vec![1, 2, 3, 4, 5, 6, 7, 8];
    session.render_reported(true, 0).unwrap();
    session.extract_reported(2, 0, content.clone()).unwrap();
    let first = session.buffer().clone();
    session.render_reported(true, 0).unwrap();
    session.extract_reported(2, 0, content).unwrap();
    assert_eq!(&first, session.buffer());
}

#[test]
fn close_releases_in_reverse_acquisition_order() {
    let session = open_session(1, 1);
    let cleanup = session.close();
    assert_eq!(
        cleanup,
        vec![
            ReleaseAction::DeleteBitmap { bitmap: BITMAP },
            ReleaseAction::DeleteMemoryDc { dc: MEMORY_DC },
        ]
    );
}
