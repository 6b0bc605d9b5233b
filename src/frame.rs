use vstd::prelude::*;

verus! {

/// What a frame is to contracts: its encoded bytes, width and height.
pub type FrameView = (Seq<u8>, u32, u32);

/// One compressed image, with the dimensions the camera reported for it.
pub struct Frame {
    pub data: Vec<u8>,
    pub width: u32,
    pub height: u32,
}

impl View for Frame {
    type V = FrameView;

    open spec fn view(&self) -> FrameView {
        (self.data@, self.width, self.height)
    }
}

impl Frame {
    pub fn new(data: Vec<u8>, width: u32, height: u32) -> (r: Frame)
        ensures
            r@ == (data@, width, height),
    {
        Frame { data, width, height }
    }

    /// A copy with the same bytes and dimensions.
    pub fn copy(&self) -> (r: Frame)
        ensures
            r@ == self@,
    {
        let mut data: Vec<u8> = Vec::with_capacity(self.data.len());
        let mut i: usize = 0;
        while i < self.data.len()
            invariant
                i <= self.data@.len(),
                data@ == self.data@.subrange(0, i as int),
            decreases self.data@.len() - i,
        {
            data.push(self.data[i]);
            i = i + 1;
        }
        assert(data@ == self.data@);
        Frame { data, width: self.width, height: self.height }
    }
}

/// The cache's state after `publish` of `frame`: the frame, whatever was there.
pub open spec fn publish_model(cached: Option<FrameView>, frame: FrameView) -> Option<FrameView> {
    Some(frame)
}

/// The cache's state after publishing `frames` in order, starting from `start`.
pub open spec fn after_publishes(start: Option<FrameView>, frames: Seq<FrameView>) -> Option<
    FrameView,
>
    decreases frames.len(),
{
    if frames.len() == 0 {
        start
    } else {
        publish_model(after_publishes(start, frames.drop_last()), frames.last())
    }
}

/// A single slot holding the most recently published frame.
pub struct FrameCache {
    latest: Option<Frame>,
}

impl View for FrameCache {
    type V = Option<FrameView>;

    closed spec fn view(&self) -> Option<FrameView> {
        match self.latest {
            Some(f) => Some(f@),
            None => None,
        }
    }
}

impl FrameCache {
    pub fn new() -> (r: FrameCache)
        ensures
            r@ == None::<FrameView>,
    {
        FrameCache { latest: None }
    }

    /// Replaces the cached frame unconditionally.
    pub fn publish(&mut self, frame: Frame)
        ensures
            final(self)@ == publish_model(old(self)@, frame@),
    {
        self.latest = Some(frame);
    }

    /// The cached frame, or `None` when nothing has been published.
    pub fn read(&self) -> (r: Option<&Frame>)
        ensures
            r.is_some() == self@.is_some(),
            r.is_some() ==> self@ == Some(r.unwrap()@),
    {
        self.latest.as_ref()
    }
}

/// Last write wins: after any sequence of publishes into an empty cache, it
/// holds the last frame published, or nothing if there was none.
pub proof fn lemma_last_write_wins(frames: Seq<FrameView>)
    ensures
        after_publishes(None, frames) == (if frames.len() == 0 {
            None
        } else {
            Some(frames.last())
        }),
{
}

} // verus!
