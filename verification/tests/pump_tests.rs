use trcc::config::Picture;
use trcc::error::Error;
use trcc::framebuffer::{solid_color_frame, video_frame};
use trcc::protocol::compose_probe_request;
use trcc::pump::{
    copy_bytes, pacing_interval_ms, Action, Event, FrameSource, Phase, Pump, DEFAULT_INTERVAL_MS,
};

fn frame_of(n: u8) -> Vec<u8> {
    vec![n; 2 * 2 * 2]
}

fn started(source: FrameSource, interval_ms: u64) -> (Pump, Action) {
    let mut pump = Pump::new(2, 2, source, interval_ms);
    assert_eq!(pump.phase, Phase::Init);
    match pump.step(Event::Started) {
        Some(Action::SendProbe { request, write_timeout_ms, read_timeout_ms }) => {
            assert_eq!(request, compose_probe_request());
            assert_eq!(write_timeout_ms, 500);
            assert_eq!(read_timeout_ms, 1000);
        }
        other => panic!("unexpected action {:?}", other),
    }
    assert_eq!(pump.phase, Phase::Probing);
    let action = pump.step(Event::ProbeFinished { answered: false }).unwrap();
    (pump, action)
}

#[test]
fn stream_source_ends_cleanly_after_three_frames() {
    let (mut pump, mut action) = started(FrameSource::stream(2, 2), 40);
    let mut payloads: Vec<Vec<u8>> = Vec::new();
    let mut reads: Vec<Vec<u8>> = vec![Vec::new(), frame_of(3), frame_of(2), frame_of(1)];
    let result = loop {
        let event = match action {
            Action::ReadFrame { size } => {
                assert_eq!(size, 8);
                assert_eq!(pump.phase, Phase::Reading);
                Event::FrameRead { bytes: reads.pop().unwrap() }
            }
            Action::Write { packet, timeout_ms } => {
                assert_eq!(timeout_ms, 500);
                assert_eq!(pump.phase, Phase::Writing { expected: 72 });
                payloads.push(packet[64..].to_vec());
                Event::Written { written: packet.len() }
            }
            Action::Sleep { millis } => {
                assert_eq!(millis, 40);
                assert_eq!(pump.phase, Phase::Pacing);
                Event::Slept
            }
            Action::Finish { result } => break result,
            Action::SendProbe { .. } => panic!("probe sent twice"),
        };
        action = pump.step(event).unwrap();
    };
    assert_eq!(result, Ok(()));
    assert_eq!(payloads, vec![frame_of(1), frame_of(2), frame_of(3)]);
    assert!(reads.is_empty());
    assert_eq!(pump.sent, 3);
    assert!(pump.is_stopped());
    assert_eq!(pump.failure, None);
}

#[test]
fn short_final_read_ends_the_stream() {
    let (mut pump, action) = started(FrameSource::stream(2, 2), 40);
    assert!(matches!(action, Action::ReadFrame { size: 8 }));
    let action = pump.step(Event::FrameRead { bytes: vec![0u8; 5] }).unwrap();
    assert!(matches!(action, Action::Finish { result: Ok(()) }));
    assert_eq!(pump.phase, Phase::Stopped);
    assert_eq!(pump.sent, 0);
}

#[test]
fn probe_outcome_does_not_matter() {
    for answered in [true, false] {
        let mut pump = Pump::new(2, 2, FrameSource::constant(0x1234), 1000);
        pump.step(Event::Started).unwrap();
        let action = pump.step(Event::ProbeFinished { answered }).unwrap();
        match action {
            Action::Write { packet, .. } => assert_eq!(packet, solid_color_frame(2, 2, 0x1234)),
            other => panic!("unexpected action {:?}", other),
        }
        assert_eq!(pump.phase, Phase::Writing { expected: 72 });
    }
}

#[test]
fn constant_source_never_ends() {
    let (mut pump, mut action) = started(FrameSource::constant(0xBEEF), DEFAULT_INTERVAL_MS);
    for n in 0..5u64 {
        let packet = match action {
            Action::Write { packet, .. } => packet,
            other => panic!("unexpected action {:?}", other),
        };
        assert_eq!(packet, solid_color_frame(2, 2, 0xBEEF));
        let sleep = pump.step(Event::Written { written: packet.len() }).unwrap();
        assert!(matches!(sleep, Action::Sleep { millis: 1000 }));
        assert_eq!(pump.sent, n + 1);
        action = pump.step(Event::Slept).unwrap();
    }
    assert!(!pump.is_stopped());
}

#[test]
fn single_shot_source_repeats_its_image() {
    let pixels: Vec<u8> = (10u8..18).collect();
    let source = FrameSource::single_shot(2, 2, pixels.clone()).unwrap();
    let (mut pump, mut action) = started(source, DEFAULT_INTERVAL_MS);
    for _ in 0..3 {
        let packet = match action {
            Action::Write { packet, .. } => packet,
            other => panic!("unexpected action {:?}", other),
        };
        assert_eq!(Ok(packet.clone()), video_frame(2, 2, pixels.clone()));
        pump.step(Event::Written { written: packet.len() }).unwrap();
        action = pump.step(Event::Slept).unwrap();
    }
    assert_eq!(pump.sent, 3);
}

#[test]
fn single_shot_source_refuses_a_wrong_size() {
    match FrameSource::single_shot(2, 2, vec![0u8; 9]) {
        Err(e) => assert_eq!(e, Error::DecodeSizeMismatch { expected: 8, actual: 9 }),
        Ok(_) => panic!("a wrong size was accepted"),
    }
}

#[test]
fn short_write_stops_the_pump() {
    let (mut pump, action) = started(FrameSource::constant(0), 1000);
    assert!(matches!(action, Action::Write { .. }));
    let action = pump.step(Event::Written { written: 71 }).unwrap();
    let expected = Error::ShortWrite { written: 71, expected: 72 };
    match action {
        Action::Finish { result } => assert_eq!(result, Err(expected)),
        other => panic!("unexpected action {:?}", other),
    }
    assert_eq!(pump.phase, Phase::Stopped);
    assert_eq!(pump.failure, Some(expected));
    assert_eq!(pump.sent, 0);
}

#[test]
fn failed_write_stops_the_pump() {
    let (mut pump, _) = started(FrameSource::constant(0), 1000);
    let action = pump.step(Event::WriteFailed).unwrap();
    assert!(matches!(action, Action::Finish { result: Err(Error::Transport) }));
    assert!(pump.is_stopped());
}

#[test]
fn failed_read_stops_the_pump() {
    let (mut pump, _) = started(FrameSource::stream(2, 2), 40);
    let action = pump.step(Event::ReadFailed).unwrap();
    assert!(matches!(action, Action::Finish { result: Err(Error::SourceRead) }));
    assert!(pump.is_stopped());
}

#[test]
fn stopped_pump_stays_stopped() {
    let (mut pump, _) = started(FrameSource::constant(0), 1000);
    pump.step(Event::WriteFailed).unwrap();
    for event in [Event::Started, Event::Slept, Event::Written { written: 72 }, Event::WriteFailed] {
        assert!(pump.accepts(&event));
        let action = pump.step(event).unwrap();
        assert!(matches!(action, Action::Finish { result: Err(Error::Transport) }));
        assert_eq!(pump.phase, Phase::Stopped);
    }
}

#[test]
fn unexpected_event_changes_nothing() {
    let mut pump = Pump::new(2, 2, FrameSource::constant(0), 1000);
    assert!(!pump.accepts(&Event::Slept));
    assert!(pump.step(Event::Slept).is_none());
    assert_eq!(pump.phase, Phase::Init);
    assert!(pump.accepts(&Event::Started));
    pump.step(Event::Started).unwrap();
    assert!(pump.step(Event::Written { written: 64 }).is_none());
    assert_eq!(pump.phase, Phase::Probing);
    assert_eq!(pump.sent, 0);
}

#[test]
fn pacing_follows_the_frame_rate() {
    assert_eq!(pacing_interval_ms(&Picture::SolidColor { color: 1 }), 1000);
    assert_eq!(pacing_interval_ms(&Picture::Image { file: "a.png".to_string() }), 1000);
    assert_eq!(pacing_interval_ms(&Picture::Video { file: "a.mp4".to_string(), fps: 25 }), 40);
    assert_eq!(pacing_interval_ms(&Picture::Video { file: "a.mp4".to_string(), fps: 30 }), 33);
    assert_eq!(pacing_interval_ms(&Picture::Video { file: "a.mp4".to_string(), fps: 2000 }), 0);
}

#[test]
fn copy_is_equal_to_its_source() {
    let bytes: Vec<u8> = (0u8..200).collect();
    assert_eq!(copy_bytes(&bytes), bytes);
    assert!(copy_bytes(&Vec::new()).is_empty());
}
