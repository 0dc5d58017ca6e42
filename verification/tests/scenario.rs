use winshot::{ReleaseAction, WindowFinder, WindowProbe, WindowScreenshotBuffer};

fn probe(handle: isize, visible: bool, title: &str) -> WindowProbe {
    let len: i32 = title.len() as i32;
    WindowProbe { handle, visible, reported_len: len, copied_len: len, title: title.to_string() }
}

#[test]
fn locate_notepad_capture_and_view() {
    let probes = vec![
        probe(3, true, "Task Manager"),
        probe(4, false, "Notepad"),
        probe(42, true, "Notepad"),
        probe(5, true, "Notepad - draft"),
    ];
    let finder = WindowFinder::new(true, 0, probes).unwrap();
    let record = finder.find_exact("Notepad").unwrap();
    assert_eq!(record.handle, 42);

    let flow = WindowScreenshotBuffer::new(record.handle);
    let flow = flow.rect_reported(true, 0, 100, 50, 102, 51).unwrap();
    let flow = flow.screen_dc_acquired(21, 0).unwrap();
    let flow = flow.memory_dc_created(22, 0).unwrap();
    let flow = flow.bitmap_created(23, 0).unwrap();
    let done = flow.bitmap_selected(24, 0).unwrap();
    assert_eq!(done.cleanup, vec![ReleaseAction::ReleaseScreenDc { window: 0, dc: 21 }]);

    let mut session = done.session;
    let render = session.render_request();
    assert_eq!(render.window, 42);
    assert_eq!(render.target_dc, 22);
    session.render_reported(true, 0).unwrap();

    let top_left = [15, 25, 35, 0];
    let content = vec![15, 25, 35, 0, 1, 1, 1, 0];
    session.extract_reported(1, 0, content).unwrap();

    let shot = session.get_bgr_screenshot();
    assert_eq!(shot.width(), 2);
    assert_eq!(shot.height(), 1);
    assert_eq!(shot.total_pixels(), 2);
    assert_eq!(&shot.bytes()[0..4], &top_left);
}
