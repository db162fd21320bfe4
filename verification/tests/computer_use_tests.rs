use warp_tui::computer_use::{is_supported_on_current_platform, Actor, ActionResult, Recorder};

#[test]
fn platform_is_not_supported() {
    assert!(!is_supported_on_current_platform());
}

#[test]
fn recorder_refuses_start_and_stop() {
    let recorder = Recorder::new();
    let started: Result<u32, String> = recorder.start(());
    assert_eq!(started, Err("Video recording is not supported on this platform.".to_string()));
    let stopped: Result<(), String> = recorder.stop(5u32);
    assert_eq!(stopped, Err("Video recording is not supported on this platform.".to_string()));
}

#[test]
fn actor_performs_nothing() {
    let mut actor = Actor::new();
    assert_eq!(actor.platform::<u8>(), None);
    let result: Result<ActionResult<Vec<u8>, (i32, i32)>, String> =
        actor.perform_actions(&["click"], ());
    let result = result.unwrap();
    assert!(result.screenshot.is_none());
    assert!(result.cursor_position.is_none());
}
