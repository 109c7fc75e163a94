use audio_visualizer::rainbow_style::{Entropy, SpawnRoll};
use audio_visualizer::stream::{SessionState, StreamAction, StreamError, StreamEvent};
use audio_visualizer::units::UNIT;
use audio_visualizer::{
    AudioVisualizerInstance, Frame, SharedAudioProcessor, StyleType, BIN_COUNT, FFT_SIZE,
};

const CENTER: SpawnRoll = SpawnRoll { x: 32768, y: 32768, size: 0, speed_x: 32768, speed_y: 32768 };

fn rolls() -> [SpawnRoll; 100] {
    [CENTER; 100]
}

fn entropy(count: usize) -> Vec<Entropy> {
    vec![Entropy { spawns: rolls(), brightness: 32768 }; count]
}

/// A processor with a ring, a rainbow and a second ring, playing.
fn playing() -> SharedAudioProcessor {
    let mut p = SharedAudioProcessor::new();
    p.add_instance(800, 600, StyleType::Visualizer, &rolls());
    p.add_instance(640, 480, StyleType::Bg, &rolls());
    p.add_instance(320, 200, StyleType::Visualizer, &rolls());
    let plan = p.process_audio_from_path("/a.mp3");
    assert!(p.playback_started(plan.session));
    p
}

#[test]
fn configuration_has_half_as_many_bins_as_the_transform() {
    assert_eq!(FFT_SIZE, 256);
    assert_eq!(BIN_COUNT, 128);
    assert_eq!(BIN_COUNT as u32, FFT_SIZE / 2);
}

#[test]
fn new_processor_is_idle_and_empty() {
    let p = SharedAudioProcessor::new();
    assert!(!p.is_playing());
    assert_eq!(p.instance_count(), 0);
    assert_eq!(p.session_state(), SessionState::Idle);
    assert_eq!(p.bins_needed(), 0);
    assert!(p.clear_all().is_empty());
}

#[test]
fn instances_are_indexed_in_registration_order() {
    let mut p = SharedAudioProcessor::new();
    assert_eq!(p.add_instance(800, 600, StyleType::Visualizer, &rolls()), 0);
    assert_eq!(p.add_instance(640, 480, StyleType::Bg, &rolls()), 1);
    assert_eq!(p.add_instance(320, 200, StyleType::Bg, &rolls()), 2);
    assert_eq!(p.instance_count(), 3);
    let clears = p.clear_all();
    assert_eq!(clears.len(), 3);
    assert_eq!((clears[0].width, clears[0].height), (800, 600));
    assert_eq!((clears[1].width, clears[1].height), (640, 480));
    assert_eq!((clears[2].width, clears[2].height), (320, 200));
}

#[test]
fn instance_has_the_style_it_was_made_with() {
    let ring = AudioVisualizerInstance::new(10, 20, StyleType::Visualizer, &rolls());
    let rainbow = AudioVisualizerInstance::new(30, 40, StyleType::Bg, &rolls());
    assert_eq!(ring.style_type(), StyleType::Visualizer);
    assert_eq!(rainbow.style_type(), StyleType::Bg);
    let clear = rainbow.clear_canvas();
    assert_eq!((clear.width, clear.height), (30, 40));
    let clear = ring.clear_canvas();
    assert_eq!((clear.width, clear.height), (10, 20));
}

#[test]
fn instance_draws_in_its_style() {
    let mut ring = AudioVisualizerInstance::new(10, 20, StyleType::Visualizer, &rolls());
    let mut rainbow = AudioVisualizerInstance::new(30, 40, StyleType::Bg, &rolls());
    let e = Entropy { spawns: rolls(), brightness: 0 };
    assert!(matches!(ring.draw(&[0u8; 128], &e), Frame::Ring(_)));
    assert!(matches!(rainbow.draw(&[0u8; 128], &e), Frame::Rainbow(_)));
    assert!(matches!(rainbow.draw(&[], &e), Frame::Rainbow(_)));
}

#[test]
fn tick_is_a_no_op_while_not_playing() {
    let mut p = SharedAudioProcessor::new();
    p.add_instance(800, 600, StyleType::Visualizer, &rolls());
    p.add_instance(640, 480, StyleType::Bg, &rolls());
    // Not even a snapshot that a ring could not read matters.
    assert!(p.draw(&[], &[]).is_empty());
    assert!(p.draw(&[255u8; 128], &entropy(2)).is_empty());
    let plan = p.process_audio_from_path("/a.mp3");
    assert!(p.draw(&[255u8; 128], &entropy(2)).is_empty());
    p.playback_started(plan.session);
    let frames = p.draw(&[255u8; 128], &entropy(2));
    // Had an earlier tick drawn, the ring's hue would have advanced.
    match &frames[0] {
        Frame::Ring(f) => assert_eq!(f.orb.hue, 0),
        Frame::Rainbow(_) => panic!("the first renderer is a ring"),
    }
}

#[test]
fn tick_draws_every_renderer_in_registration_order() {
    let mut p = playing();
    let frames = p.draw(&[255u8; 128], &entropy(3));
    assert_eq!(frames.len(), 3);
    match &frames[0] {
        Frame::Ring(f) => assert_eq!((f.width, f.height), (800, 600)),
        Frame::Rainbow(_) => panic!("renderer 0 is a ring"),
    }
    match &frames[1] {
        Frame::Rainbow(f) => assert_eq!((f.width, f.height, f.brightness), (640, 480, 50)),
        Frame::Ring(_) => panic!("renderer 1 is a rainbow"),
    }
    match &frames[2] {
        Frame::Ring(f) => {
            assert_eq!((f.width, f.height), (320, 200));
            // 255 / 255 * (200 * 0.1) + 5
            assert_eq!(f.orb.radius, 25 * UNIT);
        }
        Frame::Rainbow(_) => panic!("renderer 2 is a ring"),
    }
}

#[test]
fn every_renderer_keeps_its_own_state() {
    let mut p = playing();
    let mut e = entropy(3);
    e[1].brightness = 0;
    p.draw(&[0u8; 128], &e);
    let frames = p.draw(&[0u8; 128], &e);
    match (&frames[0], &frames[1], &frames[2]) {
        (Frame::Ring(a), Frame::Rainbow(b), Frame::Ring(c)) => {
            assert_eq!(a.orb.hue, 1);
            assert_eq!(c.orb.hue, 1);
            assert_eq!((b.hue, b.brightness), (1, 45));
            assert_eq!(b.discs.len(), 100);
        }
        _ => panic!("the styles are ring, rainbow, ring"),
    }
}

#[test]
fn each_rainbow_consumes_its_own_rolls() {
    let mut p = SharedAudioProcessor::new();
    p.add_instance(640, 480, StyleType::Bg, &rolls());
    p.add_instance(640, 480, StyleType::Bg, &rolls());
    let plan = p.process_audio_from_path("/a.mp3");
    p.playback_started(plan.session);
    let mut e = entropy(2);
    e[0].brightness = 0;
    e[1].brightness = 65535;
    p.draw(&[], &e);
    let frames = p.draw(&[], &e);
    match (&frames[0], &frames[1]) {
        (Frame::Rainbow(a), Frame::Rainbow(b)) => {
            assert_eq!(a.brightness, 45);
            assert_eq!(b.brightness, 54);
        }
        _ => panic!("both renderers are rainbows"),
    }
}

#[test]
fn ring_sets_the_number_of_bins_needed() {
    let mut p = SharedAudioProcessor::new();
    p.add_instance(640, 480, StyleType::Bg, &rolls());
    assert_eq!(p.bins_needed(), 0);
    p.add_instance(640, 480, StyleType::Visualizer, &rolls());
    assert_eq!(p.bins_needed(), 128);
    p.add_instance(640, 480, StyleType::Bg, &rolls());
    assert_eq!(p.bins_needed(), 128);
}

#[test]
fn start_resolves_the_address_and_opens_a_session() {
    let mut p = SharedAudioProcessor::new();
    let plan = p.process_audio_from_path("/stream/a.mp3");
    assert_eq!(plan.url, "http://127.0.0.1:3000/stream/a.mp3");
    assert!(plan.stop.is_none());
    assert_eq!(plan.session, p.session());
    assert_eq!(p.session_state(), SessionState::Opening);
    assert!(!p.is_playing());
    let mut q = SharedAudioProcessor::new();
    let plan = q.process_audio_from_path("https://example.org/a.mp3");
    assert_eq!(plan.url, "https://example.org/a.mp3");
    let mut r = SharedAudioProcessor::new();
    let plan = r.process_audio_from_path("httpdocs/a.mp3");
    assert_eq!(plan.url, "http://127.0.0.1:3000httpdocs/a.mp3");
}

#[test]
fn start_while_a_session_is_under_way_stops_first() {
    let mut p = playing();
    let old = p.session();
    p.draw(&[0u8; 128], &entropy(3));
    let plan = p.process_audio_from_path("/b.mp3");
    let stop = plan.stop.expect("a session was under way");
    assert_eq!(stop.clears.len(), 3);
    assert_eq!((stop.clears[1].width, stop.clears[1].height), (640, 480));
    assert_ne!(plan.session, old);
    assert!(!p.is_playing());
    assert_eq!(p.session_state(), SessionState::Opening);
    // Playback of the old session no longer counts.
    assert!(!p.playback_started(old));
    assert!(!p.is_playing());
    assert!(p.playback_started(plan.session));
    assert!(p.is_playing());
}

#[test]
fn stream_events_reach_the_controller() {
    let mut p = SharedAudioProcessor::new();
    let plan = p.process_audio_from_path("/a.mp3");
    let id = plan.session;
    assert_eq!(p.on_stream_event(id, StreamEvent::SourceOpened), StreamAction::Connect);
    assert_eq!(p.on_stream_event(id, StreamEvent::Connected), StreamAction::ReadChunk);
    assert_eq!(p.session_state(), SessionState::Streaming);
    assert_eq!(
        p.on_stream_event(id, StreamEvent::ChunkArrived { done: None, payload: Some(7) }),
        StreamAction::Append
    );
    assert_eq!(
        p.on_stream_event(id, StreamEvent::Failed(StreamError::BufferError)),
        StreamAction::Abort(StreamError::BufferError)
    );
    assert_eq!(p.session_state(), SessionState::Failed(StreamError::BufferError));
}

#[test]
fn playback_goes_on_after_the_stream_has_ended() {
    let mut p = playing();
    let id = p.session();
    p.on_stream_event(id, StreamEvent::SourceOpened);
    p.on_stream_event(id, StreamEvent::Connected);
    p.on_stream_event(id, StreamEvent::ChunkArrived { done: Some(true), payload: None });
    p.on_stream_event(id, StreamEvent::EndSignalled);
    assert_eq!(p.session_state(), SessionState::Ended);
    assert!(p.is_playing());
    assert_eq!(p.draw(&[0u8; 128], &entropy(3)).len(), 3);
}

#[test]
fn stop_from_any_state_is_idle_with_all_surfaces_cleared() {
    let reach: [&[StreamEvent]; 6] = [
        &[],
        &[StreamEvent::SourceOpened],
        &[StreamEvent::SourceOpened, StreamEvent::Connected],
        &[
            StreamEvent::SourceOpened,
            StreamEvent::Connected,
            StreamEvent::ChunkArrived { done: Some(true), payload: None },
        ],
        &[
            StreamEvent::SourceOpened,
            StreamEvent::Connected,
            StreamEvent::ChunkArrived { done: Some(true), payload: None },
            StreamEvent::EndSignalled,
        ],
        &[StreamEvent::SourceOpened, StreamEvent::Failed(StreamError::NetworkError)],
    ];
    for events in reach {
        let mut p = playing();
        let id = p.session();
        for event in events {
            p.on_stream_event(id, *event);
        }
        let plan = p.stop_audio();
        assert_eq!(p.session_state(), SessionState::Idle);
        assert!(!p.is_playing());
        assert_eq!(plan.clears.len(), 3);
        assert_eq!((plan.clears[0].width, plan.clears[0].height), (800, 600));
        assert_eq!((plan.clears[1].width, plan.clears[1].height), (640, 480));
        assert_eq!((plan.clears[2].width, plan.clears[2].height), (320, 200));
        assert!(p.draw(&[0u8; 128], &entropy(3)).is_empty());
    }
    // Idle from the outset
    let mut p = SharedAudioProcessor::new();
    p.add_instance(8, 6, StyleType::Bg, &rolls());
    let plan = p.stop_audio();
    assert_eq!(p.session_state(), SessionState::Idle);
    assert_eq!(plan.clears.len(), 1);
}

#[test]
fn stop_keeps_the_renderers_state() {
    let mut p = playing();
    for _ in 0..5 {
        p.draw(&[0u8; 128], &entropy(3));
    }
    p.stop_audio();
    assert_eq!(p.instance_count(), 3);
    let plan = p.process_audio_from_path("/a.mp3");
    assert!(plan.stop.is_none());
    p.playback_started(plan.session);
    let frames = p.draw(&[0u8; 128], &entropy(3));
    match (&frames[0], &frames[1]) {
        (Frame::Ring(a), Frame::Rainbow(b)) => {
            assert_eq!(a.orb.hue, 5);
            assert_eq!(b.hue, 5);
        }
        _ => panic!("the styles are ring, rainbow, ring"),
    }
}

#[test]
fn end_of_playback_notifies_once_per_session() {
    let mut p = SharedAudioProcessor::new();
    p.set_on_audio_end();
    let plan = p.process_audio_from_path("/a.mp3");
    p.playback_started(plan.session);
    assert!(p.playback_ended(plan.session));
    assert!(!p.playback_ended(plan.session));
    let next = p.process_audio_from_path("/b.mp3");
    assert!(!p.playback_ended(plan.session));
    assert!(p.playback_ended(next.session));
    assert!(!p.playback_ended(next.session));
}

#[test]
fn end_of_playback_without_a_callback_notifies_nobody() {
    let mut p = SharedAudioProcessor::new();
    let plan = p.process_audio_from_path("/a.mp3");
    assert!(!p.playback_ended(plan.session));
    // A callback registered after the start serves the next session.
    p.set_on_audio_end();
    assert!(!p.playback_ended(plan.session));
    let next = p.process_audio_from_path("/a.mp3");
    assert!(p.playback_ended(next.session));
}

#[test]
fn end_of_playback_after_stop_notifies_nobody() {
    let mut p = SharedAudioProcessor::new();
    p.set_on_audio_end();
    let plan = p.process_audio_from_path("/a.mp3");
    p.stop_audio();
    assert!(!p.playback_ended(plan.session));
}

#[test]
fn playback_of_a_stopped_session_is_not_accepted() {
    let mut p = SharedAudioProcessor::new();
    let plan = p.process_audio_from_path("/a.mp3");
    p.stop_audio();
    assert!(!p.playback_started(plan.session));
    assert!(!p.is_playing());
    assert!(!p.playback_started(plan.session + 1));
}
