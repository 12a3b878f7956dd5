use backend_gstreamer::component::media_player::{MediaPlayerComponent, MoviePlayerMessage as MediaMessage};
use backend_gstreamer::component::movie_player::{MoviePlayerComponent, MoviePlayerMessage};
use backend_gstreamer::component::play_status::PlayStatus;
use backend_gstreamer::frame_channel::{
    create_frame_channel, flow_failure, frame_offer_outcome, offer_frame, FlowFailure, FrameOffer,
    SampleFailure, SendFailure, FRAME_QUEUE_CAPACITY,
};
use backend_gstreamer::frame_image::video_frame_to_image;
use backend_gstreamer::media_container::{MediaContainer, StreamCaps};
use backend_gstreamer::pipeline::{
    app_sink_name, duration_query_needed, opening_state, pipeline_description,
    pipeline_description_for_url, target_state, PipelineState,
};
use backend_gstreamer::viewer::{frame_to_show, pause_button};
use backend_gstreamer::Error;

const DESC: &str = "playbin uri=\"file:///tmp/a.mp4\" video-sink=\"videoconvert ! videoscale ! appsink name=app_sink caps=video/x-raw,format=RGBA,pixel-aspect-ratio=1/1\"";

#[test]
fn error_messages() {
    assert_eq!("failed to create media manager. x", Error::MediaManagerCreationError("x".to_string()).to_string());
    assert_eq!("failed to get media capabilities. ", Error::MediaCapsError(String::new()).to_string());
    assert_eq!("failed to change media state. busy", Error::MediaStateChangeError("busy".to_string()).to_string());
}

#[test]
fn pipeline_description_wraps_the_uri() {
    assert_eq!(DESC, pipeline_description("file:///tmp/a.mp4"));
    assert_eq!("app_sink", app_sink_name());
}

#[test]
fn pipeline_description_for_url_uses_its_serialization() {
    let u = url::Url::parse("file:///tmp/a.mp4").unwrap();
    assert_eq!(DESC, pipeline_description_for_url(&u));
}

#[test]
fn target_state_follows_the_request() {
    assert_eq!(PipelineState::Paused, target_state(true));
    assert_eq!(PipelineState::Playing, target_state(false));
}

#[test]
fn only_non_live_streams_are_asked_their_length() {
    assert!(duration_query_needed(false));
    assert!(!duration_query_needed(true));
}

#[test]
fn frame_channel_drops_frames_when_full() {
    let (sender, receiver) = create_frame_channel();
    assert_eq!(Some(5), sender.capacity());
    assert_eq!(5, FRAME_QUEUE_CAPACITY);
    for i in 0..5u8 {
        assert_eq!(FrameOffer::Sent, offer_frame(&sender, vec![i]));
    }
    assert_eq!(FrameOffer::SkippedFull, offer_frame(&sender, vec![9]));
    assert_eq!(vec![0u8], receiver.recv().unwrap());
    assert_eq!(FrameOffer::Sent, offer_frame(&sender, vec![5]));
    assert_eq!(FrameOffer::SkippedFull, offer_frame(&sender, vec![10]));
    assert_eq!(vec![1u8], receiver.recv().unwrap());
    drop(receiver);
    assert_eq!(FrameOffer::Failed(SendFailure::Disconnected), offer_frame(&sender, vec![6]));
}

#[test]
fn frame_offer_outcomes() {
    assert_eq!(FrameOffer::SkippedFull, frame_offer_outcome(true, Ok(())));
    assert_eq!(FrameOffer::SkippedFull, frame_offer_outcome(true, Err(SendFailure::Disconnected)));
    assert_eq!(FrameOffer::Sent, frame_offer_outcome(false, Ok(())));
    assert_eq!(FrameOffer::Failed(SendFailure::Full), frame_offer_outcome(false, Err(SendFailure::Full)));
}

#[test]
fn frame_bytes_become_rgba_pixels() {
    let data = [1u8, 2, 3, 4, 5, 6, 7, 8, 9, 10];
    let image = video_frame_to_image(2, 1, &data);
    assert_eq!((2, 1), image.size);
    assert_eq!(vec![(1, 2, 3, 4), (5, 6, 7, 8)], image.pixels);
    let image = video_frame_to_image(0, 0, &[]);
    assert!(image.pixels.is_empty());
}

#[test]
fn whole_frame_has_width_times_height_pixels() {
    let data = vec![7u8; 4 * 3 * 2];
    let image = video_frame_to_image(3, 2, &data);
    assert_eq!(6, image.pixels.len());
}

#[test]
fn play_status_toggles() {
    assert_eq!(PlayStatus::Stop, PlayStatus::Play.toggle());
    assert_eq!(PlayStatus::Play, PlayStatus::Stop.toggle());
    assert_eq!(PlayStatus::Play, PlayStatus::Play.toggle().toggle());
    assert_eq!("Play", PlayStatus::Play.text());
    assert_eq!("Stop", PlayStatus::Stop.text());
}

#[test]
fn movie_player_button_switches_status() {
    let mut c = MoviePlayerComponent::default();
    assert_eq!(PlayStatus::Stop, c.status());
    assert_eq!("Stop", c.status_text());
    c.update(MoviePlayerMessage::ButtonPressed);
    assert_eq!(PlayStatus::Play, c.status());
    assert_eq!("Play", c.status_text());
    c.update(MoviePlayerMessage::ButtonPressed);
    assert_eq!(PlayStatus::Stop, MoviePlayerComponent::new().status());
    assert_eq!(PlayStatus::Stop, c.status());
    assert_eq!("MoviePlayerComponent", c.title());
}

#[test]
fn media_player_button_switches_status() {
    let (_s, r) = create_frame_channel();
    let caps = StreamCaps { width: 4, height: 3, framerate_numer: 25, framerate_denom: 1 };
    let media = MediaContainer::new(caps, true, None, r).unwrap();
    let mut c = MediaPlayerComponent::new(&media);
    assert_eq!(PlayStatus::Stop, c.status());
    c.update(MediaMessage::ButtonPressed);
    assert_eq!(PlayStatus::Play, c.status());
    assert_eq!("Play", c.status_text());
    c.update(MediaMessage::ButtonPressed);
    assert_eq!("Stop", c.status_text());
    assert_eq!((4, 3), c.media().size());
}

#[test]
fn pause_button_label_and_request() {
    assert_eq!(("Play".to_string(), false), pause_button(true));
    assert_eq!(("Pause".to_string(), true), pause_button(false));
}

#[test]
fn new_frame_replaces_the_shown_one() {
    let shown = frame_to_show(None, None, (1, 1));
    assert!(shown.is_none());
    let shown = frame_to_show(None, Some(vec![1, 2, 3, 4]), (1, 1)).unwrap();
    assert_eq!((1, 1), shown.size);
    assert_eq!(vec![(1, 2, 3, 4)], shown.pixels);
    let kept = frame_to_show(Some(shown), None, (9, 9)).unwrap();
    assert_eq!((1, 1), kept.size);
    assert_eq!(vec![(1, 2, 3, 4)], kept.pixels);
    let next = frame_to_show(Some(kept), Some(vec![5, 6, 7, 8, 9, 10, 11, 12]), (2, 1)).unwrap();
    assert_eq!((2, 1), next.size);
    assert_eq!(vec![(5, 6, 7, 8), (9, 10, 11, 12)], next.pixels);
}

#[test]
fn only_a_missing_sample_ends_the_stream() {
    assert_eq!(FlowFailure::Eos, flow_failure(SampleFailure::PullFailed));
    for f in [
        SampleFailure::NoBuffer,
        SampleFailure::Unreadable,
        SampleFailure::NoPad,
        SampleFailure::NoCaps,
        SampleFailure::NoStructure,
        SampleFailure::NoWidth,
        SampleFailure::NoHeight,
    ] {
        assert_eq!(FlowFailure::Error, flow_failure(f));
    }
}

#[test]
fn unbounded_queue_never_skips_and_zero_queue_always_skips() {
    let (sender, receiver) = crossbeam_channel::unbounded::<Vec<u8>>();
    for i in 0..20u8 {
        assert_eq!(FrameOffer::Sent, offer_frame(&sender, vec![i]));
    }
    drop(receiver);
    assert_eq!(FrameOffer::Failed(SendFailure::Disconnected), offer_frame(&sender, vec![0]));

    let (sender, _receiver) = crossbeam_channel::bounded::<Vec<u8>>(0);
    assert_eq!(FrameOffer::SkippedFull, offer_frame(&sender, vec![1]));
}

#[test]
fn opened_stream_is_left_paused() {
    assert_eq!(PipelineState::Paused, opening_state());
}

#[test]
fn description_follows_the_url() {
    let a = url::Url::parse("file:///tmp/b.mp4").unwrap();
    assert_eq!(pipeline_description("file:///tmp/b.mp4"), pipeline_description_for_url(&a));
    assert_ne!(pipeline_description_for_url(&a), DESC);
}

#[test]
fn frame_channel_ends_are_joined() {
    let (sender, receiver) = create_frame_channel();
    assert_eq!(FrameOffer::Sent, offer_frame(&sender, vec![4, 2]));
    assert_eq!(vec![4u8, 2], receiver.try_recv().unwrap());
}

#[test]
fn odd_number_of_presses_plays() {
    let mut c = MoviePlayerComponent::default();
    for n in 1..8u32 {
        c.update(MoviePlayerMessage::ButtonPressed);
        assert_eq!(n % 2 == 1, c.status() == PlayStatus::Play);
    }
}
