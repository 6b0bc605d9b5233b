use vstd::prelude::*;
use crate::frame::{Frame, FrameView};

verus! {

/// Where a finished recording is written.
pub const RECORDING_PATH: &'static str = "/recordings/output.mp4";

/// Frames per second of the encoded recording.
pub const RECORDING_FRAME_RATE: u32 = 15;

/// The views of a sequence of frames.
pub open spec fn frames_view(frames: Seq<Frame>) -> Seq<FrameView> {
    frames.map_values(|f: Frame| f@)
}

/// The buffer after `start`: a fresh, empty one, whatever was there.
pub open spec fn start_model(buffer: Option<Seq<FrameView>>) -> Option<Seq<FrameView>> {
    Some(Seq::empty())
}

/// The buffer after one captured frame: appended while armed, untouched when idle.
pub open spec fn record_model(buffer: Option<Seq<FrameView>>, frame: FrameView) -> Option<
    Seq<FrameView>,
> {
    match buffer {
        Some(s) => Some(s.push(frame)),
        None => None,
    }
}

/// The buffer after capturing `frames` in order.
pub open spec fn record_all_model(buffer: Option<Seq<FrameView>>, frames: Seq<FrameView>) -> Option<
    Seq<FrameView>,
>
    decreases frames.len(),
{
    if frames.len() == 0 {
        buffer
    } else {
        record_model(record_all_model(buffer, frames.drop_last()), frames.last())
    }
}

#[derive(Clone, Copy, Debug, PartialEq, Eq, Structural)]
pub enum RecordingState {
    Idle,
    Armed,
}

/// The outcome of a stop, as reported to the caller.
#[derive(Clone, Copy, Debug, PartialEq, Eq, Structural)]
pub enum StopReport {
    /// The session was not armed: nothing was written or run.
    NoFrames,
    /// Every frame reached the encoder and it exited with success.
    Saved,
    /// Handing a frame to the encoder failed.
    WriteFailed,
    /// The encoder could not be run, or exited with failure.
    EncodeFailed,
}

impl StopReport {
    /// The status text reported for this outcome.
    pub fn status(&self) -> (r: &'static str)
        ensures
            *self is NoFrames ==> r@ == "no frames recorded"@,
            *self is Saved ==> r@ == "recording stopped and saved"@,
            *self is WriteFailed ==> r@ == "error writing frames"@,
            *self is EncodeFailed ==> r@ == "ffmpeg encoding failed"@,
    {
        match self {
            StopReport::NoFrames => "no frames recorded",
            StopReport::Saved => "recording stopped and saved",
            StopReport::WriteFailed => "error writing frames",
            StopReport::EncodeFailed => "ffmpeg encoding failed",
        }
    }
}

/// The frames of one stopped recording on their way to the encoder, strictly
/// in capture order: `next` is the index of the next frame to hand over.
pub struct EncodeJob {
    frames: Vec<Frame>,
    next: usize,
}

impl EncodeJob {
    pub closed spec fn frames(&self) -> Seq<FrameView> {
        frames_view(self.frames@)
    }

    /// How many frames have been handed to the encoder.
    pub closed spec fn written(&self) -> nat {
        self.next as nat
    }

    pub closed spec fn wf(&self) -> bool {
        self.next <= self.frames@.len()
    }

    /// The frames handed to the encoder so far, in the order they went.
    pub open spec fn sent(&self) -> Seq<FrameView> {
        self.frames().take(self.written() as int)
    }

    pub fn len(&self) -> (r: usize)
        ensures
            r == self.frames().len(),
    {
        self.frames.len()
    }

    pub fn is_complete(&self) -> (r: bool)
        requires
            self.wf(),
        ensures
            self.written() <= self.frames().len(),
            r == (self.written() == self.frames().len()),
    {
        self.next == self.frames.len()
    }

    /// The next frame to hand to the encoder, or `None` once all have gone.
    pub fn next_frame(&self) -> (r: Option<&Frame>)
        requires
            self.wf(),
        ensures
            self.written() <= self.frames().len(),
            r.is_none() == (self.written() == self.frames().len()),
            r.is_some() ==> r.unwrap()@ == self.frames()[self.written() as int],
    {
        if self.next < self.frames.len() {
            Some(&self.frames[self.next])
        } else {
            None
        }
    }

    /// Records that the frame `next_frame` gave was written.
    pub fn advance(&mut self)
        requires
            old(self).wf(),
            old(self).written() < old(self).frames().len(),
        ensures
            final(self).wf(),
            final(self).frames() == old(self).frames(),
            final(self).written() == old(self).written() + 1,
            final(self).sent() == old(self).sent().push(old(self).frames()[old(self).written() as int]),
    {
        let n = self.frames.len();
        assert(self.next < n);
        self.next = self.next + 1;
        assert(self.sent() =~= old(self).sent().push(old(self).frames()[old(self).written() as int]));
    }

    /// The report once the encoder has exited, `exit_success` telling how: the
    /// recording is saved only when every frame went to the encoder and it
    /// exited with success.
    pub fn finish(&self, exit_success: bool) -> (r: StopReport)
        requires
            self.wf(),
        ensures
            r == (if exit_success && self.written() == self.frames().len() {
                StopReport::Saved
            } else {
                StopReport::EncodeFailed
            }),
    {
        if exit_success && self.next == self.frames.len() {
            StopReport::Saved
        } else {
            StopReport::EncodeFailed
        }
    }

    /// The report when writing a frame to the encoder failed: the attempt ends.
    pub fn write_failed(&self) -> (r: StopReport)
        ensures
            r == StopReport::WriteFailed,
    {
        StopReport::WriteFailed
    }
}

/// What `stop` hands back.
pub enum StopOutcome {
    /// The session was not armed: nothing to encode.
    NoFrames,
    /// The recorded frames, to be handed to the encoder.
    Encode(EncodeJob),
}

/// A toggleable recorder: while armed, every captured frame is appended to
/// its buffer; the buffer exists exactly while it is armed.
pub struct RecordingSession {
    buffer: Option<Vec<Frame>>,
}

impl View for RecordingSession {
    type V = Option<Seq<FrameView>>;

    closed spec fn view(&self) -> Option<Seq<FrameView>> {
        match self.buffer {
            Some(v) => Some(frames_view(v@)),
            None => None,
        }
    }
}

impl RecordingSession {
    pub fn new() -> (r: RecordingSession)
        ensures
            r@ == None::<Seq<FrameView>>,
    {
        RecordingSession { buffer: None }
    }

    pub fn state(&self) -> (r: RecordingState)
        ensures
            (r is Armed) == self@.is_some(),
    {
        if self.buffer.is_some() {
            RecordingState::Armed
        } else {
            RecordingState::Idle
        }
    }

    pub fn is_armed(&self) -> (r: bool)
        ensures
            r == self@.is_some(),
    {
        self.buffer.is_some()
    }

    /// Arms the session with an empty buffer; a running recording restarts.
    pub fn start(&mut self)
        ensures
            final(self)@ == start_model(old(self)@),
    {
        self.buffer = Some(Vec::new());
        assert(frames_view(Seq::<Frame>::empty()) =~= Seq::<FrameView>::empty());
    }

    /// Appends a captured frame while armed; does nothing when idle.
    pub fn record(&mut self, frame: Frame)
        ensures
            final(self)@ == record_model(old(self)@, frame@),
    {
        match self.buffer.as_mut() {
            Some(v) => {
                let ghost before = v@;
                v.push(frame);
                assert(frames_view(v@) =~= frames_view(before).push(frame@));
            },
            None => {},
        }
    }

    /// Disarms the session and takes its buffer: the frames in capture order
    /// for the encoder, or `NoFrames` when it was not armed.
    pub fn stop(&mut self) -> (r: StopOutcome)
        ensures
            final(self)@ == None::<Seq<FrameView>>,
            old(self)@.is_none() ==> r is NoFrames,
            old(self)@.is_some() ==> (match r {
                StopOutcome::Encode(job) => job.wf() && job.written() == 0 && job.frames()
                    == old(self)@.unwrap(),
                StopOutcome::NoFrames => false,
            }),
    {
        match self.buffer.take() {
            Some(frames) => StopOutcome::Encode(EncodeJob { frames, next: 0 }),
            None => StopOutcome::NoFrames,
        }
    }
}

/// Errors of `download`.
#[derive(Clone, Copy, Debug, PartialEq, Eq, Structural)]
pub enum DownloadError {
    /// No recording has been saved yet.
    NotFound,
}

/// The response body for a download: the saved file's bytes unchanged, or
/// `NotFound` when there is no saved file (`file` is `None`).
pub fn download(file: Option<Vec<u8>>) -> (r: Result<Vec<u8>, DownloadError>)
    ensures
        file.is_none() <==> r is Err,
        file.is_some() ==> r is Ok && r.unwrap()@ == file.unwrap()@,
{
    match file {
        Some(bytes) => Ok(bytes),
        None => Err(DownloadError::NotFound),
    }
}

/// Capture order is kept: arming a session, capturing frames and stopping
/// hands the encoder exactly those frames, in the order they were captured.
pub proof fn lemma_recording_keeps_order(start: Option<Seq<FrameView>>, frames: Seq<FrameView>)
    ensures
        record_all_model(start_model(start), frames) == Some(frames),
    decreases frames.len(),
{
    if frames.len() > 0 {
        lemma_recording_keeps_order(start, frames.drop_last());
        assert(frames.drop_last().push(frames.last()) =~= frames);
    }
}

/// A job whose every frame was handed over has sent exactly the recorded
/// frames, in capture order.
pub proof fn lemma_complete_job_sent_all(job: EncodeJob)
    requires
        job.wf(),
        job.written() == job.frames().len(),
    ensures
        job.sent() == job.frames(),
{
    assert(job.sent() =~= job.frames());
}

/// Capturing while idle leaves the session idle, with nothing recorded.
pub proof fn lemma_idle_records_nothing(frames: Seq<FrameView>)
    ensures
        record_all_model(None, frames) == None::<Seq<FrameView>>,
    decreases frames.len(),
{
    if frames.len() > 0 {
        lemma_idle_records_nothing(frames.drop_last());
    }
}

} // verus!
