use winshot::{ReleaseAction, WindowScreenshotBuffer};

fn session_with_content(right: i32, bottom: i32, content: Vec<u8>) -> WindowScreenshotBuffer {
    let flow = WindowScreenshotBuffer::new(7);
    let flow = flow.rect_reported(true, 0, 0, 0, right, bottom).unwrap();
    let flow = flow.screen_dc_acquired(10, 0).unwrap();
    let flow = flow.memory_dc_created(11, 0).unwrap();
    let flow = flow.bitmap_created(12, 0).unwrap();
    let done = flow.bitmap_selected(13, 0).unwrap();
    assert_eq!(done.cleanup, vec![ReleaseAction::ReleaseScreenDc { window: 0, dc: 10 }]);
    let mut session = done.session;
    session.render_reported(true, 0).unwrap();
    session.extract_reported(bottom, 0, content).unwrap();
    session
}

#[test]
fn native_view_exposes_geometry_and_bytes() {
    let session = session_with_content(2, 1, vec![1, 2, 3, 4, 9, 8, 7, 6]);
    let shot = session.get_bgr_screenshot();
    assert_eq!(shot.width(), 2);
    assert_eq!(shot.height(), 1);
    assert_eq!(shot.total_pixels(), 2);
    assert_eq!(shot.bytes().as_slice(), &[1, 2, 3, 4, 9, 8, 7, 6]);
}

#[test]
fn swapped_view_exchanges_blue_and_red() {
    let mut session = session_with_content(1, 1, vec![10, 20, 30, 40]);
    let shot = session.get_rgb_screenshot();
    assert_eq!(shot.bytes().as_slice(), &[30, 20, 10, 40]);
}

#[test]
fn swapping_twice_restores_the_original_order() {
    let original = vec![1, 2, 3, 4, 5, 6, 7, 8, 9, 10, 11, 12];
    let mut session = session_with_content(3, 1, original.clone());
    let _ = session.get_rgb_screenshot();
    let again = session.get_rgb_screenshot();
    assert_eq!(again.bytes().as_slice(), original.as_slice());
}

#[test]
fn swap_mutates_the_shared_buffer_in_place() {
    let mut session = session_with_content(1, 1, vec![10, 20, 30, 40]);
    let _ = session.get_rgb_screenshot();
    let native = session.get_bgr_screenshot();
    assert_eq!(native.bytes().as_slice(), &[30, 20, 10, 40]);
}
