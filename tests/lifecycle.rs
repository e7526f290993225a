use audio_capture::lifecycle::{CaptureLifecycle, CaptureState, StopAction};
use audio_capture::ring_buffer::RingBuffer;
use audio_capture::RustError;

#[test]
fn second_start_fails_with_already_streaming() {
    let mut l = CaptureLifecycle::new();
    assert!(l.start().is_ok());
    assert!(matches!(l.start(), Err(RustError::AlreadyStreaming)));
    l.stream_opened();
    assert!(l.is_streaming());
    assert!(matches!(l.start(), Err(RustError::AlreadyStreaming)));
    assert_eq!(l.state(), CaptureState::Streaming);
}

#[test]
fn stop_on_idle_is_noop() {
    let mut l = CaptureLifecycle::new();
    assert_eq!(l.stop(), StopAction::Nothing);
    assert_eq!(l.stop(), StopAction::Nothing);
    assert_eq!(l.state(), CaptureState::Idle);
}

#[test]
fn stop_session_then_restart() {
    let mut l = CaptureLifecycle::new();
    l.start().unwrap();
    l.stream_opened();
    assert_eq!(l.stop(), StopAction::SignalWorker);
    assert_eq!(l.state(), CaptureState::Stopping);
    assert!(!l.is_streaming());
    assert_eq!(l.stop(), StopAction::AwaitWorker);
    l.worker_finished();
    assert_eq!(l.state(), CaptureState::Idle);
    assert!(l.start().is_ok());
}

#[test]
fn failed_open_returns_to_idle() {
    let mut l = CaptureLifecycle::new();
    l.start().unwrap();
    l.worker_finished();
    assert_eq!(l.state(), CaptureState::Idle);
    assert!(l.start().is_ok());
}

#[test]
fn stop_while_starting_stays_in_force() {
    let mut l = CaptureLifecycle::new();
    l.start().unwrap();
    assert_eq!(l.stop(), StopAction::SignalWorker);
    l.stream_opened();
    assert_eq!(l.state(), CaptureState::Stopping);
}

#[test]
fn end_session_idles_and_empties_window() {
    let mut l = CaptureLifecycle::new();
    let mut b: RingBuffer<f32> = RingBuffer::new(3);
    l.start().unwrap();
    l.stream_opened();
    b.append(&[0.5, 0.25]);
    assert_eq!(l.stop(), StopAction::SignalWorker);
    l.end_session(&mut b);
    assert_eq!(l.state(), CaptureState::Idle);
    assert_eq!(b.len(), 0);
    assert_eq!(b.capacity(), 3);
    assert!(l.start().is_ok());
}
