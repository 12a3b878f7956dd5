use std::time::Duration;

use backend_gstreamer::frame_channel::create_frame_channel;
use backend_gstreamer::media_container::{MediaContainer, NextFrameAction, StreamCaps};
use backend_gstreamer::pipeline::PipelineState;
use backend_gstreamer::{Error, GstreamerMediaManager};

fn sample_caps() -> StreamCaps {
    StreamCaps { width: 853, height: 480, framerate_numer: 24000, framerate_denom: 1001 }
}

fn opened(live: bool, queried: Option<u64>) -> MediaContainer {
    let (_sender, receiver) = create_frame_channel();
    MediaContainer::new(sample_caps(), live, queried, receiver).unwrap()
}

#[test]
fn opened_stream_reports_its_caps_and_length() {
    let c = opened(false, Some(19_051_000_000));
    assert_eq!((853, 480), c.size());
    assert_eq!(Duration::from_millis(19051), c.duration());
    assert_eq!(24000, *c.framerate().numer());
    assert_eq!(1001, *c.framerate().denom());
}

#[test]
fn opened_stream_starts_unmuted_not_looping_not_ended() {
    let c = opened(false, Some(1));
    assert!(!c.muted());
    assert!(!c.looping());
    assert!(!c.eos());
}

#[test]
fn live_stream_has_no_length() {
    let c = opened(true, None);
    assert_eq!(Duration::from_secs(0), c.duration());
    let c = opened(true, Some(5_000));
    assert_eq!(Duration::from_secs(0), c.duration());
}

#[test]
fn negative_caps_size_wraps_like_a_cast() {
    let (_s, r) = create_frame_channel();
    let caps = StreamCaps { width: -1, height: 2, framerate_numer: 0, framerate_denom: 1 };
    let c = MediaContainer::new(caps, true, None, r).unwrap();
    assert_eq!((u32::MAX, 2), c.size());
}

#[test]
fn muted_reads_back_what_was_set() {
    let mut c = opened(false, Some(0));
    c.set_muted(true);
    assert!(c.muted());
    c.set_muted(false);
    assert!(!c.muted());
    assert!(!c.looping());
}

#[test]
fn looping_reads_back_what_was_set() {
    let mut c = opened(false, Some(0));
    c.set_looping(true);
    assert!(c.looping());
    assert!(!c.muted());
    c.set_looping(false);
    assert!(!c.looping());
}

#[test]
fn set_paused_gives_the_target_state_and_keeps_settings() {
    let mut c = opened(false, Some(7));
    c.set_muted(true);
    assert_eq!(PipelineState::Paused, c.set_paused(true));
    assert_eq!(PipelineState::Playing, c.set_paused(false));
    assert!(c.muted());
    assert!(!c.eos());
    assert_eq!((853, 480), c.size());
    assert_eq!(Duration::from_nanos(7), c.duration());
}

#[test]
fn frame_receiver_is_the_one_given() {
    let (sender, receiver) = create_frame_channel();
    let c = MediaContainer::new(sample_caps(), true, None, receiver).unwrap();
    assert!(c.frame_receiver().try_recv().is_err());
    sender.send(vec![1, 2, 3]).unwrap();
    assert_eq!(vec![1u8, 2, 3], c.frame_receiver().try_recv().unwrap());
}

#[test]
fn position_defaults_to_start() {
    let c = opened(true, None);
    assert_eq!(Duration::from_secs(0), c.position(None));
    assert_eq!(Duration::from_nanos(1_500), c.position(Some(1_500)));
}

#[test]
fn paused_only_in_paused_state() {
    let c = opened(true, None);
    assert!(c.paused(PipelineState::Paused));
    assert!(!c.paused(PipelineState::Playing));
    assert!(!c.paused(PipelineState::Ready));
    assert!(!c.paused(PipelineState::Null));
    assert!(!c.paused(PipelineState::VoidPending));
}

#[test]
fn manager_is_created_when_init_succeeds() {
    let m = GstreamerMediaManager::new(Ok(()));
    assert!(m.is_ok());
    let m = m.unwrap();
    let (_s, r) = create_frame_channel();
    let c = m.create_media_container(sample_caps(), false, Some(2_000_000_000), r).unwrap();
    assert_eq!(Duration::from_secs(2), c.duration());
}

#[test]
fn manager_creation_error_carries_init_message() {
    let m = GstreamerMediaManager::new(Err("no plugins".to_string()));
    match m {
        Err(Error::MediaManagerCreationError(msg)) => assert_eq!("no plugins", msg),
        _ => panic!("expected a creation error"),
    }
}

#[test]
fn end_without_looping_pauses_and_reports_end() {
    let mut c = opened(false, Some(10));
    assert_eq!(NextFrameAction::Continue, c.next_frame(false));
    assert!(!c.eos());
    let action = c.next_frame(true);
    assert_eq!(NextFrameAction::PauseAtEnd, action);
    assert_eq!(Some(PipelineState::Paused), action.pipeline_state());
    assert!(!action.seeks_to_start());
    assert!(c.eos());
    assert_eq!(NextFrameAction::Continue, c.next_frame(false));
    assert!(c.eos());
}

#[test]
fn end_with_looping_restarts() {
    let mut c = opened(false, Some(10));
    c.set_looping(true);
    let action = c.next_frame(true);
    assert_eq!(NextFrameAction::Restart, action);
    assert_eq!(Some(PipelineState::Playing), action.pipeline_state());
    assert!(action.seeks_to_start());
    assert!(!c.eos());
    assert!(c.looping());
}

#[test]
fn resuming_an_ended_stream_restarts_it_on_the_next_frame() {
    let mut c = opened(false, Some(10));
    assert_eq!(NextFrameAction::PauseAtEnd, c.next_frame(true));
    assert_eq!(PipelineState::Paused, c.set_paused(true));
    assert_eq!(NextFrameAction::Continue, c.next_frame(false));
    assert_eq!(PipelineState::Playing, c.set_paused(false));
    assert!(c.eos());
    assert_eq!(NextFrameAction::Restart, c.next_frame(false));
    assert!(!c.eos());
    assert_eq!(NextFrameAction::Continue, c.next_frame(false));
    assert_eq!(None, NextFrameAction::Continue.pipeline_state());
}
