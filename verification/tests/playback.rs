use music_browser::playback::{PlaybackController, PlaybackError};
use std::rc::Rc;

#[test]
fn a_new_controller_holds_no_session() {
    let controller: PlaybackController<u32> = PlaybackController::new();
    assert!(controller.current().is_none());
    assert!(!controller.is_paused());
}

#[test]
fn pause_without_a_session_changes_nothing() {
    let mut controller: PlaybackController<u32> = PlaybackController::new();
    assert!(!controller.pause());
    assert!(controller.current().is_none());
    assert!(!controller.is_paused());
    assert!(!controller.pause());
    assert!(controller.current().is_none());
}

#[test]
fn resume_without_a_session_changes_nothing() {
    let mut controller: PlaybackController<u32> = PlaybackController::new();
    assert!(!controller.resume());
    assert!(controller.current().is_none());
    assert!(!controller.is_paused());
}

#[test]
fn play_makes_the_opened_output_the_current_session() {
    let mut controller = PlaybackController::new();
    assert_eq!(controller.play(Ok("Dancing Queen.mp3")), Ok(&"Dancing Queen.mp3"));
    let session = controller.current().expect("a session");
    assert_eq!(session.output, "Dancing Queen.mp3");
    assert!(!session.paused);
    assert!(!controller.is_paused());
}

#[test]
fn a_second_play_replaces_the_first_session() {
    let mut controller = PlaybackController::new();
    assert_eq!(controller.play(Ok(1)), Ok(&1));
    assert_eq!(controller.play(Ok(2)), Ok(&2));
    let session = controller.current().expect("a session");
    assert_eq!(session.output, 2);
    assert!(!session.paused);
}

#[test]
fn a_replaced_session_is_let_go() {
    let first = Rc::new("first");
    let second = Rc::new("second");
    let mut controller = PlaybackController::new();
    assert!(controller.play(Ok(first.clone())).is_ok());
    assert_eq!(Rc::strong_count(&first), 2);
    assert!(controller.play(Ok(second.clone())).is_ok());
    assert_eq!(Rc::strong_count(&first), 1);
    assert_eq!(Rc::strong_count(&second), 2);
    assert!(controller.pause());
    assert_eq!(Rc::strong_count(&first), 1);
    assert!(Rc::ptr_eq(&controller.current().expect("a session").output, &second));
}

#[test]
fn pause_holds_until_resume() {
    let mut controller = PlaybackController::new();
    assert!(controller.play(Ok(7)).is_ok());
    assert!(controller.pause());
    assert!(controller.is_paused());
    assert_eq!(controller.current().expect("a session").output, 7);
    assert!(controller.current().expect("a session").paused);
    assert!(controller.pause());
    assert!(controller.is_paused());
    assert!(controller.resume());
    assert!(!controller.is_paused());
    assert_eq!(controller.current().expect("a session").output, 7);
    assert!(!controller.current().expect("a session").paused);
}

#[test]
fn resume_of_a_running_session_keeps_it_running() {
    let mut controller = PlaybackController::new();
    assert!(controller.play(Ok(7)).is_ok());
    assert!(controller.resume());
    assert!(!controller.is_paused());
    assert_eq!(controller.current().expect("a session").output, 7);
}

#[test]
fn play_after_pause_starts_a_running_session() {
    let mut controller = PlaybackController::new();
    assert!(controller.play(Ok(1)).is_ok());
    assert!(controller.pause());
    assert!(controller.play(Ok(2)).is_ok());
    assert!(!controller.is_paused());
    assert_eq!(controller.current().expect("a session").output, 2);
}

#[test]
fn a_failed_play_on_an_empty_slot_is_handed_back() {
    let mut controller: PlaybackController<u32> = PlaybackController::new();
    assert_eq!(
        controller.play(Err(PlaybackError::DeviceUnavailable)),
        Err(PlaybackError::DeviceUnavailable)
    );
    assert!(controller.current().is_none());
}

#[test]
fn a_failed_play_leaves_the_current_session_alone() {
    let mut controller = PlaybackController::new();
    assert!(controller.play(Ok(1)).is_ok());
    assert!(controller.pause());
    assert_eq!(
        controller.play(Err(PlaybackError::FileUnreadable)),
        Err(PlaybackError::FileUnreadable)
    );
    assert_eq!(controller.current().expect("a session").output, 1);
    assert!(controller.is_paused());
    assert_eq!(
        controller.play(Err(PlaybackError::UnsupportedFormat)),
        Err(PlaybackError::UnsupportedFormat)
    );
    assert_eq!(controller.current().expect("a session").output, 1);
    assert!(controller.is_paused());
}

#[test]
fn playback_errors_have_their_notices() {
    assert_eq!(PlaybackError::DeviceUnavailable.message(), "no audio output device");
    assert_eq!(PlaybackError::FileUnreadable.message(), "file cannot be opened");
    assert_eq!(PlaybackError::UnsupportedFormat.message(), "format not supported");
}
