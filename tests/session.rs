use live_caption::config::AudioError;
use live_caption::session::{Action, CaptureController, Event, Phase};

fn drive(c: &mut CaptureController, events: &[Event]) -> Vec<Action> {
    events.iter().map(|e| c.handle(*e)).collect()
}

fn started() -> CaptureController {
    let mut c = CaptureController::new();
    drive(
        &mut c,
        &[
            Event::StartRequested,
            Event::Completed,
            Event::Completed,
            Event::Completed,
            Event::Completed,
            Event::Completed,
        ],
    );
    assert_eq!(c.phase, Phase::Running);
    c
}

#[test]
fn stop_without_session_is_a_no_op() {
    let mut c = CaptureController::new();
    let before = c;
    assert_eq!(c.handle(Event::StopRequested), Action::ReportStopped);
    assert_eq!(c, before);
}

#[test]
fn start_order_puts_recognizer_start_before_play() {
    let mut c = CaptureController::new();
    let actions = drive(
        &mut c,
        &[
            Event::StartRequested,
            Event::Completed,
            Event::Completed,
            Event::Completed,
            Event::Completed,
            Event::Completed,
        ],
    );
    assert_eq!(
        actions,
        vec![
            Action::Negotiate,
            Action::CreateRecognizer,
            Action::BuildStream,
            Action::StartRecognizer,
            Action::PlayStream,
            Action::ReportStarted,
        ]
    );
    assert!(c.recognizer_started && c.stream_alive && c.playing);
}

#[test]
fn audio_before_recognizer_start_is_discarded() {
    let mut c = CaptureController::new();
    drive(&mut c, &[Event::StartRequested, Event::Completed, Event::Completed, Event::Completed]);
    assert_eq!(c.phase, Phase::StartingRecognizer);
    assert!(!c.accepts_audio());
    assert_eq!(c.handle(Event::AudioDelivered), Action::DiscardAudio);
    assert_eq!(c.handle(Event::Completed), Action::PlayStream);
    assert_eq!(c.handle(Event::AudioDelivered), Action::WriteAudio);
}

#[test]
fn stop_destroys_stream_before_recognizer_and_writes_cease() {
    let mut c = started();
    assert_eq!(c.handle(Event::AudioDelivered), Action::WriteAudio);
    assert_eq!(c.handle(Event::StopRequested), Action::DestroyStream);
    assert!(!c.accepts_audio());
    assert_eq!(c.handle(Event::AudioDelivered), Action::DiscardAudio);
    assert_eq!(c.handle(Event::Completed), Action::CloseRecognizer { stop: true });
    assert_eq!(c.handle(Event::AudioDelivered), Action::DiscardAudio);
    assert_eq!(c.handle(Event::Completed), Action::ReportStopped);
    assert_eq!(c, CaptureController::new());
}

#[test]
fn start_while_running_is_refused() {
    let mut c = started();
    let before = c;
    assert_eq!(c.handle(Event::StartRequested), Action::Reject(AudioError::AlreadyRunning));
    assert_eq!(c, before);
}

#[test]
fn failed_negotiation_leaves_nothing() {
    let mut c = CaptureController::new();
    c.handle(Event::StartRequested);
    assert_eq!(
        c.handle(Event::Failed(AudioError::DeviceNotFound)),
        Action::ReportFailed(AudioError::DeviceNotFound)
    );
    assert_eq!(c, CaptureController::new());
}

#[test]
fn failed_stream_build_releases_recognizer() {
    let mut c = CaptureController::new();
    drive(&mut c, &[Event::StartRequested, Event::Completed, Event::Completed]);
    assert_eq!(
        c.handle(Event::Failed(AudioError::StreamBuildFailed)),
        Action::CloseRecognizer { stop: false }
    );
    assert_eq!(c.handle(Event::Completed), Action::ReportFailed(AudioError::StreamBuildFailed));
    assert_eq!(c, CaptureController::new());
}

#[test]
fn failed_recognizer_start_tears_down_stream_first() {
    let mut c = CaptureController::new();
    drive(&mut c, &[Event::StartRequested, Event::Completed, Event::Completed, Event::Completed]);
    assert_eq!(c.handle(Event::Failed(AudioError::RecognizerStartFailed)), Action::DestroyStream);
    assert_eq!(c.handle(Event::Completed), Action::CloseRecognizer { stop: false });
    assert_eq!(
        c.handle(Event::Completed),
        Action::ReportFailed(AudioError::RecognizerStartFailed)
    );
    assert_eq!(c, CaptureController::new());
}

#[test]
fn failed_write_while_running_stops_session() {
    let mut c = started();
    assert_eq!(c.handle(Event::Failed(AudioError::WriteFailed)), Action::DestroyStream);
    assert_eq!(c.handle(Event::Completed), Action::CloseRecognizer { stop: true });
    assert_eq!(c.handle(Event::Completed), Action::ReportFailed(AudioError::WriteFailed));
    assert_eq!(c, CaptureController::new());
}

#[test]
fn failed_recognizer_stop_is_reported() {
    let mut c = started();
    c.handle(Event::StopRequested);
    c.handle(Event::Completed);
    assert_eq!(
        c.handle(Event::Failed(AudioError::WriteFailed)),
        Action::ReportFailed(AudioError::WriteFailed)
    );
    assert_eq!(c.phase, Phase::Idle);
}

#[test]
fn restart_after_stop_writes_again() {
    let mut c = started();
    drive(&mut c, &[Event::StopRequested, Event::Completed, Event::Completed]);
    assert_eq!(c.handle(Event::AudioDelivered), Action::DiscardAudio);
    let actions = drive(
        &mut c,
        &[
            Event::StartRequested,
            Event::Completed,
            Event::Completed,
            Event::Completed,
            Event::Completed,
            Event::Completed,
            Event::AudioDelivered,
        ],
    );
    assert_eq!(actions[2], Action::BuildStream);
    assert_eq!(actions[6], Action::WriteAudio);
}
