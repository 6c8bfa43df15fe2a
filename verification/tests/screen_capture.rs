use screenshare_agent::screen_capture::{
    CaptureFault, DisplayInfo, ScreenCapture, ScreenCaptureError,
};

#[test]
fn capture_frame_fails_while_idle() {
    let capture = ScreenCapture::new().unwrap();
    let err = capture.capture_frame().unwrap_err();
    assert_eq!(err.kind, CaptureFault::NotCapturing);
    assert_eq!(err.message(), "Screen capture is not active");
    assert_eq!(err.describe(), "ScreenCaptureError: Screen capture is not active");
}

#[test]
fn capture_frame_gives_empty_buffer_while_capturing() {
    let mut capture = ScreenCapture::new().unwrap();
    capture.start_capture(None).unwrap();
    assert_eq!(capture.capture_frame().unwrap(), Vec::<u8>::new());
}

#[test]
fn default_display_list() {
    let capture = ScreenCapture::new().unwrap();
    let displays = capture.get_available_displays().unwrap();
    assert_eq!(displays.len(), 1);
    assert_eq!(displays[0].id, 0);
    assert_eq!(displays[0].name, "Primary Display");
    assert_eq!(displays[0].width, 1920);
    assert_eq!(displays[0].height, 1080);
    assert!(displays[0].is_primary);
}

#[test]
fn unknown_display_is_refused() {
    let mut capture = ScreenCapture::new().unwrap();
    let err = capture.start_capture(Some(7)).unwrap_err();
    assert_eq!(err.kind, CaptureFault::UnknownDisplay);
    assert!(!capture.is_capturing);
    assert_eq!(capture.display_id, None);
    capture.start_capture(Some(0)).unwrap();
    assert!(capture.is_capturing);
    assert_eq!(capture.display_id, Some(0));
}

#[test]
fn reported_displays_are_listed_in_order() {
    let reported = vec![
        DisplayInfo { id: 4, name: "Left".to_string(), width: 800, height: 600, is_primary: false },
        DisplayInfo { id: 9, name: "Right".to_string(), width: 1024, height: 768, is_primary: true },
    ];
    let mut capture = ScreenCapture::with_displays(reported);
    assert!(capture.knows_display(9));
    assert!(!capture.knows_display(0));
    let listed = capture.get_available_displays().unwrap();
    assert_eq!(listed.len(), 2);
    assert_eq!(listed[0].id, 4);
    assert_eq!(listed[0].name, "Left");
    assert_eq!(listed[1].id, 9);
    assert_eq!(listed[1].name, "Right");
    capture.start_capture(Some(9)).unwrap();
    assert_eq!(capture.display_id, Some(9));
}

#[test]
fn frames_of_a_run_count_from_zero() {
    let mut capture = ScreenCapture::new().unwrap();
    assert_eq!(capture.next_frame(vec![1], 10).unwrap_err().kind, CaptureFault::NotCapturing);
    capture.start_capture(None).unwrap();
    let a = capture.next_frame(vec![1, 2], 10).unwrap();
    let b = capture.next_frame(vec![3], 20).unwrap();
    assert_eq!((a.sequence, a.timestamp_ms, a.pixels), (0, 10, vec![1, 2]));
    assert_eq!((b.sequence, b.timestamp_ms, b.pixels), (1, 20, vec![3]));
    capture.stop_capture().unwrap();
    capture.stop_capture().unwrap();
    assert!(!capture.is_capturing);
    capture.start_capture(None).unwrap();
    assert_eq!(capture.next_frame(vec![], 30).unwrap().sequence, 0);
}

#[test]
fn sequence_numbers_run_out_at_the_top() {
    let mut capture = ScreenCapture::new().unwrap();
    capture.start_capture(None).unwrap();
    capture.next_sequence = u64::MAX - 1;
    assert_eq!(capture.next_frame(vec![], 1).unwrap().sequence, u64::MAX - 1);
    assert_eq!(capture.next_frame(vec![], 2).unwrap_err().kind, CaptureFault::SequenceExhausted);
    assert_eq!(capture.next_sequence, u64::MAX);
}

#[test]
fn capture_fault_messages() {
    let texts = [
        (CaptureFault::NotCapturing, "Screen capture is not active"),
        (CaptureFault::UnknownDisplay, "Display is not available"),
        (CaptureFault::SequenceExhausted, "Frame sequence numbers are exhausted"),
    ];
    for (kind, text) in texts {
        assert_eq!(ScreenCaptureError { kind }.message(), text);
        assert_eq!(ScreenCaptureError { kind }.describe(), format!("ScreenCaptureError: {}", text));
    }
}

#[test]
fn starting_again_restarts_the_run() {
    let mut capture = ScreenCapture::new().unwrap();
    capture.start_capture(None).unwrap();
    capture.next_frame(vec![], 1).unwrap();
    capture.next_frame(vec![], 2).unwrap();
    assert_eq!(capture.next_sequence, 2);
    capture.start_capture(Some(0)).unwrap();
    assert_eq!(capture.next_sequence, 0);
    assert_eq!(capture.display_id, Some(0));
    // a refused start leaves the run as it is
    capture.next_frame(vec![], 3).unwrap();
    assert!(capture.start_capture(Some(5)).is_err());
    assert!(capture.is_capturing);
    assert_eq!(capture.next_sequence, 1);
    assert_eq!(capture.display_id, Some(0));
}
