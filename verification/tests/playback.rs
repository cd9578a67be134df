use voicevox_rs::client::VVClient;
use voicevox_rs::error::VVError;
use voicevox_rs::playback::{Phase, PlayAction, PlayEvent, PlaybackQueue};

fn queue_buffer(q: &mut PlaybackQueue, size: usize) {
    assert_eq!(q.submit(size, 0), PlayAction::Decode);
    assert_eq!(q.advance(PlayEvent::Decoded(true)), PlayAction::Append);
    assert_eq!(q.advance(PlayEvent::Appended), PlayAction::Done);
}

#[test]
fn three_queued_buffers_then_flush() {
    let mut q = PlaybackQueue::new(true);
    queue_buffer(&mut q, 100);
    queue_buffer(&mut q, 200);
    queue_buffer(&mut q, 300);
    assert_eq!(q.queued(), &vec![100, 200, 300]);
    assert_eq!(q.phase(), Phase::Idle);
    assert_eq!(q.flush(), PlayAction::WaitUntilEnd);
    assert_eq!(q.phase(), Phase::Draining);
    assert_eq!(q.queued(), &vec![100, 200, 300]);
    assert_eq!(q.advance(PlayEvent::Drained), PlayAction::Done);
    assert!(q.queued().is_empty());
    assert_eq!(q.phase(), Phase::Idle);
}

#[test]
fn blocking_submission_sleeps_for_its_hint() {
    let mut q = PlaybackQueue::new(false);
    assert_eq!(q.submit(44, 2), PlayAction::Decode);
    assert_eq!(q.advance(PlayEvent::Decoded(true)), PlayAction::OpenEndpoint);
    assert_eq!(q.advance(PlayEvent::Opened(true)), PlayAction::StartStream);
    assert_eq!(q.advance(PlayEvent::Started(true)), PlayAction::Sleep(2));
    assert_eq!(q.phase(), Phase::Sleeping { sec: 2 });
    assert_eq!(q.advance(PlayEvent::Slept), PlayAction::Done);
    assert_eq!(q.phase(), Phase::Idle);
    assert!(q.queued().is_empty());
}

#[test]
fn blocking_submission_does_not_end_before_the_sleep() {
    let mut q = PlaybackQueue::new(true);
    assert_eq!(q.submit(44, 3), PlayAction::Decode);
    assert_ne!(q.advance(PlayEvent::Decoded(true)), PlayAction::Done);
    assert_ne!(q.advance(PlayEvent::Opened(true)), PlayAction::Done);
    assert_eq!(q.advance(PlayEvent::Started(true)), PlayAction::Sleep(3));
}

#[test]
fn queued_submission_without_sink_fails() {
    let mut q = PlaybackQueue::new(false);
    assert!(!q.sink_ready());
    assert_eq!(q.submit(10, 0), PlayAction::Fail(VVError::SinkNotInitialized));
    assert_eq!(q.phase(), Phase::Idle);
    assert!(q.queued().is_empty());
    assert_eq!(q.submit(0, 0), PlayAction::Fail(VVError::SinkNotInitialized));
    assert_eq!(q.flush(), PlayAction::Fail(VVError::SinkNotInitialized));
    q.sink_opened(true);
    assert_eq!(q.submit(10, 0), PlayAction::Decode);
}

#[test]
fn client_without_sink_refuses_queued_audio() {
    let mut vvc = VVClient::new();
    let dat: Vec<u8> = vec![0x52, 0x49, 0x46, 0x46];
    assert_eq!(vvc.speak(&dat, 0), PlayAction::Fail(VVError::SinkNotInitialized));
    assert_eq!(vvc.speak_flush(), PlayAction::Fail(VVError::SinkNotInitialized));
    assert!(vvc.playback().queued().is_empty());
    assert_eq!(vvc.speak(&dat, 1), PlayAction::Decode);
}

#[test]
fn failures_of_outside_work_end_the_call() {
    let mut q = PlaybackQueue::new(true);
    assert_eq!(q.submit(10, 0), PlayAction::Decode);
    assert_eq!(q.advance(PlayEvent::Decoded(false)), PlayAction::Fail(VVError::PlaybackUnavailable));
    assert_eq!(q.phase(), Phase::Idle);
    assert!(q.queued().is_empty());

    assert_eq!(q.submit(10, 5), PlayAction::Decode);
    assert_eq!(q.advance(PlayEvent::Decoded(true)), PlayAction::OpenEndpoint);
    assert_eq!(q.advance(PlayEvent::Opened(false)), PlayAction::Fail(VVError::PlaybackUnavailable));
    assert_eq!(q.phase(), Phase::Idle);

    assert_eq!(q.submit(10, 5), PlayAction::Decode);
    assert_eq!(q.advance(PlayEvent::Decoded(true)), PlayAction::OpenEndpoint);
    assert_eq!(q.advance(PlayEvent::Opened(true)), PlayAction::StartStream);
    assert_eq!(q.advance(PlayEvent::Started(false)), PlayAction::Fail(VVError::PlaybackUnavailable));
    assert_eq!(q.phase(), Phase::Idle);
}

#[test]
fn event_out_of_turn_ends_the_call() {
    let mut q = PlaybackQueue::new(true);
    assert_eq!(q.advance(PlayEvent::Slept), PlayAction::Fail(VVError::PlaybackUnavailable));
    assert_eq!(q.submit(10, 0), PlayAction::Decode);
    assert_eq!(q.advance(PlayEvent::Appended), PlayAction::Fail(VVError::PlaybackUnavailable));
    assert_eq!(q.phase(), Phase::Idle);
    assert!(q.queued().is_empty());
}

#[test]
fn a_call_under_way_refuses_another() {
    let mut q = PlaybackQueue::new(true);
    assert_eq!(q.submit(10, 0), PlayAction::Decode);
    assert_eq!(q.submit(20, 0), PlayAction::Fail(VVError::PlaybackUnavailable));
    assert_eq!(q.flush(), PlayAction::Fail(VVError::PlaybackUnavailable));
    assert_eq!(q.phase(), Phase::Decoding { size: 10, sec: 0 });
    assert_eq!(q.advance(PlayEvent::Decoded(true)), PlayAction::Append);
    assert_eq!(q.advance(PlayEvent::Appended), PlayAction::Done);
    assert_eq!(q.queued(), &vec![10]);
}

#[test]
fn blocking_play_leaves_the_queue_alone() {
    let mut q = PlaybackQueue::new(true);
    queue_buffer(&mut q, 7);
    assert_eq!(q.submit(9, 1), PlayAction::Decode);
    assert_eq!(q.advance(PlayEvent::Decoded(true)), PlayAction::OpenEndpoint);
    assert_eq!(q.advance(PlayEvent::Opened(true)), PlayAction::StartStream);
    assert_eq!(q.advance(PlayEvent::Started(true)), PlayAction::Sleep(1));
    assert_eq!(q.advance(PlayEvent::Slept), PlayAction::Done);
    assert_eq!(q.queued(), &vec![7]);
}
