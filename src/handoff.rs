//! Latest-frame hand-off from the acquisition task to the consumer.
//!
//! The acquisition task signals readiness once and posts whole frames; the
//! consumer, on its own turn, delivers what is pending into its store. Frames
//! travel as whole values, so the store never holds fingers of one frame
//! beside IMU values of another, and a newer frame replaces an older one that
//! was not yet delivered.
use vstd::prelude::*;
use crate::calibration::observed;
use crate::frame::SensorFrame;
use crate::hand::RukaInput;

verus! {

/// What is pending: the readiness signal, and the newest undelivered frame.
pub struct HandoffView {
    pub ready: bool,
    pub latest: Option<SensorFrame>,
}

/// The pending state after `frame` is posted.
pub open spec fn posted(h: HandoffView, frame: SensorFrame) -> HandoffView {
    HandoffView { ready: h.ready, latest: Some(frame) }
}

/// The pending state after `frames` are posted in order.
pub open spec fn posted_all(h: HandoffView, frames: Seq<SensorFrame>) -> HandoffView
    decreases frames.len(),
{
    if frames.len() == 0 {
        h
    } else {
        posted(posted_all(h, frames.drop_last()), frames.last())
    }
}

/// The mailbox between the acquisition task and the consumer. The caller
/// shares it behind a lock; each operation is one short critical section.
pub struct Handoff {
    ready: bool,
    latest: Option<SensorFrame>,
}

impl View for Handoff {
    type V = HandoffView;

    closed spec fn view(&self) -> HandoffView {
        HandoffView { ready: self.ready, latest: self.latest }
    }
}

impl Handoff {
    /// An empty mailbox: not ready, no frame.
    pub fn new() -> (r: Handoff)
        ensures
            r@ == (HandoffView { ready: false, latest: None }),
    {
        Handoff { ready: false, latest: None }
    }

    /// Signals that a connection is set up and frames are about to follow.
    pub fn signal_ready(&mut self)
        ensures
            final(self)@ == (HandoffView { ready: true, latest: old(self)@.latest }),
    {
        self.ready = true;
    }

    /// Posts a frame, replacing any frame not yet delivered.
    pub fn post(&mut self, frame: SensorFrame)
        ensures
            final(self)@ == posted(old(self)@, frame),
    {
        self.latest = Some(frame);
    }

    /// Whether readiness has been signalled.
    pub fn is_ready(&self) -> (r: bool)
        ensures
            r == self@.ready,
    {
        self.ready
    }

    /// Removes and returns the newest undelivered frame.
    pub fn take(&mut self) -> (r: Option<SensorFrame>)
        ensures
            r == old(self)@.latest,
            final(self)@ == (HandoffView { ready: old(self)@.ready, latest: None }),
    {
        let r = self.latest;
        self.latest = None;
        r
    }

    /// Delivers what is pending into the consumer's store: readiness first,
    /// then the newest frame, as one whole. The frame is consumed; readiness
    /// stays signalled.
    pub fn deliver(&mut self, store: &mut RukaInput)
        ensures
            final(self)@ == (HandoffView { ready: old(self)@.ready, latest: None }),
            final(store)@.ready == (old(store)@.ready || old(self)@.ready),
            old(self)@.latest is None ==> final(store)@.fingers == old(store)@.fingers
                && final(store)@.limits == old(store)@.limits && final(store)@.accel == old(
                store,
            )@.accel && final(store)@.gyro == old(store)@.gyro,
            old(self)@.latest matches Some(f) ==> {
                &&& final(store)@.fingers == f.fingers
                &&& forall|i: int|
                    0 <= i < 5 ==> #[trigger] final(store)@.limits[i] == observed(
                        old(store)@.limits[i],
                        f.fingers[i],
                    )
                &&& final(store)@.accel@ == f.imu@.subrange(0, 3)
                &&& final(store)@.gyro@ == f.imu@.subrange(3, 6)
            },
    {
        if self.ready {
            store.set_init(true);
        }
        match self.take() {
            Some(f) => store.apply_frame(&f),
            None => {},
        }
    }
}

/// However many frames are posted before the consumer looks, the one pending
/// is the last posted, whole; readiness is left as it was.
pub proof fn lemma_last_post_wins(h: HandoffView, frames: Seq<SensorFrame>)
    requires
        frames.len() > 0,
    ensures
        posted_all(h, frames).latest == Some(frames.last()),
        posted_all(h, frames).ready == h.ready,
    decreases frames.len(),
{
    if frames.len() > 1 {
        lemma_last_post_wins(h, frames.drop_last());
    } else {
        assert(posted_all(h, frames.drop_last()) == h);
    }
}

} // verus!
