use vstd::prelude::*;
use crate::frame::{Frame, FrameCache, publish_model};
use crate::recording::{RecordingSession, record_model};

verus! {

/// Pause between two frames sent to one viewer, in milliseconds.
pub const BROADCAST_INTERVAL_MS: u64 = 33;

/// How long one capture waits for the camera, in milliseconds.
pub const CAPTURE_WAIT_MS: u64 = 5000;

/// One capture: a frame, when the camera gave one in time, is published to the
/// cache and, independently, appended to the recording while it is armed; no
/// frame leaves both as they were.
pub fn capture(cache: &mut FrameCache, recording: &mut RecordingSession, frame: Option<Frame>)
    ensures
        frame.is_none() ==> final(cache)@ == old(cache)@ && final(recording)@ == old(recording)@,
        frame.is_some() ==> final(cache)@ == publish_model(old(cache)@, frame.unwrap()@)
            && final(recording)@ == record_model(old(recording)@, frame.unwrap()@),
{
    match frame {
        Some(f) => {
            if recording.is_armed() {
                recording.record(f.copy());
            }
            cache.publish(f);
        },
        None => {},
    }
}

/// The frame to send to a viewer now: a copy of the cached one, so that the
/// cache is free again while it is sent; `None` when nothing is cached.
pub fn next_broadcast(cache: &FrameCache) -> (r: Option<Frame>)
    ensures
        r.is_some() == cache@.is_some(),
        r.is_some() ==> cache@ == Some(r.unwrap()@),
{
    match cache.read() {
        Some(f) => Some(f.copy()),
        None => None,
    }
}

} // verus!
