use warp_tui::recording_controller::{RecordingController, RecordingSession};

#[test]
fn session_returns_its_handle() {
    assert_eq!(RecordingSession::new(7u64).into_handle(), 7);
}

#[test]
fn start_reserves_the_single_slot() {
    let mut controller: RecordingController<u64> = RecordingController::new();
    assert_eq!(controller.try_begin_start(), Ok(()));
    assert_eq!(
        controller.try_begin_start(),
        Err("A recording is already in progress on this display.".to_string())
    );
    controller.abort_start();
    assert_eq!(controller.try_begin_start(), Ok(()));
}

#[test]
fn registered_recording_blocks_new_starts_until_taken() {
    let mut controller = RecordingController::new();
    controller.try_begin_start().unwrap();
    controller.finish_start("rec-1".to_string(), RecordingSession::new(41u64));
    assert!(controller.try_begin_start().is_err());
    let session = controller.take_session("rec-1").expect("registered session");
    assert_eq!(session.into_handle(), 41);
    assert_eq!(controller.try_begin_start(), Ok(()));
}

#[test]
fn stop_is_idempotent() {
    let mut controller = RecordingController::new();
    controller.try_begin_start().unwrap();
    controller.finish_start("rec-1".to_string(), RecordingSession::new(1u64));
    assert!(controller.take_session("unknown").is_none());
    assert!(controller.take_session("rec-1").is_some());
    assert!(controller.take_session("rec-1").is_none());
}

#[test]
fn finishing_again_replaces_the_session() {
    let mut controller = RecordingController::new();
    controller.finish_start("rec".to_string(), RecordingSession::new(1u64));
    controller.finish_start("rec".to_string(), RecordingSession::new(2u64));
    assert_eq!(controller.take_session("rec").map(RecordingSession::into_handle), Some(2));
    assert!(controller.take_session("rec").is_none());
}

#[test]
fn ids_are_compared_by_their_characters() {
    let mut controller = RecordingController::new();
    controller.finish_start("réc".to_string(), RecordingSession::new(3u64));
    assert!(controller.take_session("rec").is_none());
    assert!(controller.take_session("ré").is_none());
    assert_eq!(controller.take_session("réc").map(RecordingSession::into_handle), Some(3));
}
