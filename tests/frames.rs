use rpi_backend::frame::{Frame, FrameCache};
use rpi_backend::recording::{RecordingSession, RecordingState, StopOutcome, StopReport, download, DownloadError};
use rpi_backend::stream::{capture, next_broadcast};

fn frame(tag: u8) -> Frame {
    Frame::new(vec![0xff, 0xd8, tag], 640, 480)
}

#[test]
fn empty_cache_reads_nothing() {
    let cache = FrameCache::new();
    assert!(cache.read().is_none());
    assert!(next_broadcast(&cache).is_none());
}

#[test]
fn cache_keeps_last_published_frame() {
    let mut cache = FrameCache::new();
    for tag in 1..=5u8 {
        cache.publish(frame(tag));
        let seen = cache.read().unwrap();
        assert_eq!(seen.data, vec![0xff, 0xd8, tag]);
    }
    let last = cache.read().unwrap();
    assert_eq!(last.data, vec![0xff, 0xd8, 5]);
    assert_eq!((last.width, last.height), (640, 480));
}

#[test]
fn frame_copy_is_equal() {
    let f = Frame::new(vec![1, 2, 3, 4], 2, 1);
    let c = f.copy();
    assert_eq!(c.data, f.data);
    assert_eq!((c.width, c.height), (2, 1));
}

#[test]
fn broadcast_copies_cached_frame() {
    let mut cache = FrameCache::new();
    cache.publish(frame(9));
    let sent = next_broadcast(&cache).unwrap();
    assert_eq!(sent.data, vec![0xff, 0xd8, 9]);
    assert_eq!(cache.read().unwrap().data, vec![0xff, 0xd8, 9]);
}

#[test]
fn recording_hands_frames_in_capture_order() {
    let mut cache = FrameCache::new();
    let mut rec = RecordingSession::new();
    rec.start();
    assert!(rec.is_armed());
    for tag in 0..4u8 {
        capture(&mut cache, &mut rec, Some(frame(tag)));
    }
    capture(&mut cache, &mut rec, None);
    assert_eq!(cache.read().unwrap().data, vec![0xff, 0xd8, 3]);
    let job = match rec.stop() {
        StopOutcome::Encode(job) => job,
        StopOutcome::NoFrames => panic!("expected frames"),
    };
    assert!(!rec.is_armed());
    assert_eq!(job.len(), 4);
    let mut job = job;
    let mut order = Vec::new();
    while let Some(f) = job.next_frame() {
        order.push(f.data[2]);
        job.advance();
    }
    assert_eq!(order, vec![0, 1, 2, 3]);
    assert!(job.is_complete());
    assert_eq!(job.finish(true), StopReport::Saved);
    assert_eq!(job.finish(true).status(), "recording stopped and saved");
}

#[test]
fn stop_without_start_reports_no_frames() {
    let mut rec = RecordingSession::new();
    assert_eq!(rec.state(), RecordingState::Idle);
    match rec.stop() {
        StopOutcome::NoFrames => {}
        StopOutcome::Encode(_) => panic!("nothing was recorded"),
    }
    assert_eq!(StopReport::NoFrames.status(), "no frames recorded");
    assert_eq!(rec.state(), RecordingState::Idle);
}

#[test]
fn capture_while_idle_records_nothing() {
    let mut cache = FrameCache::new();
    let mut rec = RecordingSession::new();
    capture(&mut cache, &mut rec, Some(frame(1)));
    assert!(cache.read().is_some());
    assert!(matches!(rec.stop(), StopOutcome::NoFrames));
}

#[test]
fn restart_discards_earlier_frames() {
    let mut rec = RecordingSession::new();
    rec.start();
    rec.record(frame(1));
    rec.record(frame(2));
    rec.start();
    assert_eq!(rec.state(), RecordingState::Armed);
    rec.record(frame(3));
    match rec.stop() {
        StopOutcome::Encode(job) => {
            assert_eq!(job.len(), 1);
            assert_eq!(job.next_frame().unwrap().data, vec![0xff, 0xd8, 3]);
        }
        StopOutcome::NoFrames => panic!("expected one frame"),
    }
}

#[test]
fn empty_recording_still_encodes() {
    let mut rec = RecordingSession::new();
    rec.start();
    match rec.stop() {
        StopOutcome::Encode(job) => {
            assert_eq!(job.len(), 0);
            assert!(job.next_frame().is_none());
            assert!(job.is_complete());
        }
        StopOutcome::NoFrames => panic!("an armed session hands over its buffer"),
    }
}

#[test]
fn encoder_failures_are_reported() {
    let mut rec = RecordingSession::new();
    rec.start();
    rec.record(frame(1));
    let job = match rec.stop() {
        StopOutcome::Encode(job) => job,
        StopOutcome::NoFrames => panic!("expected frames"),
    };
    assert_eq!(job.write_failed(), StopReport::WriteFailed);
    assert_eq!(job.write_failed().status(), "error writing frames");
    assert_eq!(job.finish(false), StopReport::EncodeFailed);
    assert_eq!(job.finish(false).status(), "ffmpeg encoding failed");
}

#[test]
fn download_without_recording_is_not_found() {
    assert_eq!(download(None), Err(DownloadError::NotFound));
}

#[test]
fn download_serves_saved_bytes_unchanged() {
    let bytes = vec![0u8, 0, 0, 0x20, b'f', b't', b'y', b'p', 7, 255];
    assert_eq!(download(Some(bytes.clone())), Ok(bytes));
}

#[test]
fn exit_success_without_all_frames_is_not_saved() {
    let mut rec = RecordingSession::new();
    rec.start();
    rec.record(frame(1));
    rec.record(frame(2));
    let mut job = match rec.stop() {
        StopOutcome::Encode(job) => job,
        StopOutcome::NoFrames => panic!("expected frames"),
    };
    assert_eq!(job.finish(true), StopReport::EncodeFailed);
    job.advance();
    assert_eq!(job.finish(true), StopReport::EncodeFailed);
    job.advance();
    assert_eq!(job.finish(true), StopReport::Saved);
}
