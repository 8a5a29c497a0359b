use sidecar_supervisor::screenshot::{
    capture_arguments, take_screenshot, CaptureOutcome, SCREENCAPTURE,
};

#[test]
fn capture_tool_and_arguments() {
    assert_eq!(SCREENCAPTURE, "/usr/sbin/screencapture");
    assert_eq!(
        capture_arguments("/tmp/shot.png"),
        vec!["-i".to_string(), "-x".to_string(), "/tmp/shot.png".to_string()]
    );
}

#[test]
fn successful_capture_gives_the_filename() {
    let outcome = CaptureOutcome::Exited { success: true, code: Some(0) };
    assert_eq!(take_screenshot("/tmp/shot.png", outcome), Ok("/tmp/shot.png".to_string()));
}

#[test]
fn capture_that_could_not_start() {
    let outcome = CaptureOutcome::SpawnFailed { message: "No such file or directory".to_string() };
    assert_eq!(
        take_screenshot("a.png", outcome),
        Err("Failed to take screenshot: No such file or directory".to_string())
    );
}

#[test]
fn capture_that_could_not_be_waited_for() {
    let outcome = CaptureOutcome::WaitFailed { message: "interrupted".to_string() };
    assert_eq!(
        take_screenshot("a.png", outcome),
        Err("Failed to wait for screenshot process: interrupted".to_string())
    );
}

#[test]
fn capture_that_failed_names_the_exit_code() {
    let outcome = CaptureOutcome::Exited { success: false, code: Some(1) };
    assert_eq!(
        take_screenshot("a.png", outcome),
        Err("Screenshot process failed with exit code: Some(1)".to_string())
    );
    let negative = CaptureOutcome::Exited { success: false, code: Some(-9) };
    assert_eq!(
        take_screenshot("a.png", negative),
        Err("Screenshot process failed with exit code: Some(-9)".to_string())
    );
    let killed = CaptureOutcome::Exited { success: false, code: None };
    assert_eq!(
        take_screenshot("a.png", killed),
        Err("Screenshot process failed with exit code: None".to_string())
    );
}
