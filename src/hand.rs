//! The canonical hand-state record shared with the consumer.
use vstd::prelude::*;
use crate::calibration::{observe_all, observed};
use crate::frame::SensorFrame;
use crate::gesture::{classified, classify, GesturePolicy, RukaGesture};

verus! {

/// A copy of the hand state: whether a connection has ever been set up, the
/// raw finger readings, each finger's (min, max) calibration bounds, and the
/// accelerometer and gyroscope vectors in hundredths.
#[derive(Clone, Copy, Debug)]
pub struct HandState {
    pub ready: bool,
    pub fingers: [u16; 5],
    pub limits: [(u16, u16); 5],
    pub accel: [i16; 3],
    pub gyro: [i16; 3],
}

/// Whether `h` is the hand state before any sample: not ready, everything
/// zero.
pub open spec fn is_initial_hand(h: HandState) -> bool {
    &&& !h.ready
    &&& forall|i: int| 0 <= i < 5 ==> #[trigger] h.fingers[i] == 0u16
    &&& forall|i: int| 0 <= i < 5 ==> #[trigger] h.limits[i] == (0u16, 0u16)
    &&& forall|i: int| 0 <= i < 3 ==> #[trigger] h.accel[i] == 0i16
    &&& forall|i: int| 0 <= i < 3 ==> #[trigger] h.gyro[i] == 0i16
}

/// Whether `h` holds the finger readings `fingers` and bounds that observed
/// them on top of `before`, with everything else as in `before`.
pub open spec fn fingers_taken(before: HandState, h: HandState, fingers: [u16; 5]) -> bool {
    &&& h.ready == before.ready
    &&& h.fingers == fingers
    &&& forall|i: int| 0 <= i < 5 ==> #[trigger] h.limits[i] == observed(before.limits[i], fingers[i])
    &&& h.accel == before.accel
    &&& h.gyro == before.gyro
}

/// Whether `h` holds the IMU values `imu` split into accelerometer and
/// gyroscope, with everything else as in `before`.
pub open spec fn imu_taken(before: HandState, h: HandState, imu: [i16; 6]) -> bool {
    &&& h.ready == before.ready
    &&& h.fingers == before.fingers
    &&& h.limits == before.limits
    &&& h.accel@ == imu@.subrange(0, 3)
    &&& h.gyro@ == imu@.subrange(3, 6)
}

/// The store of the latest hand state. It is written only by applying
/// decoded frames and read through narrow accessors or whole snapshots.
pub struct RukaInput {
    init: bool,
    fingers: [u16; 5],
    finger_limits: [(u16, u16); 5],
    accel: [i16; 3],
    gyro: [i16; 3],
}

impl View for RukaInput {
    type V = HandState;

    closed spec fn view(&self) -> HandState {
        HandState {
            ready: self.init,
            fingers: self.fingers,
            limits: self.finger_limits,
            accel: self.accel,
            gyro: self.gyro,
        }
    }
}

impl Default for RukaInput {
    fn default() -> (r: RukaInput)
        ensures
            is_initial_hand(r@),
    {
        RukaInput::new()
    }
}

impl RukaInput {
    /// An empty store: not ready, every value zero.
    pub fn new() -> (r: RukaInput)
        ensures
            is_initial_hand(r@),
    {
        let r = RukaInput {
            init: false,
            fingers: [0u16; 5],
            finger_limits: [(0u16, 0u16); 5],
            accel: [0i16; 3],
            gyro: [0i16; 3],
        };
        r
    }

    /// Whether a connection has been set up and data is on its way.
    pub fn is_init(&self) -> (r: bool)
        ensures
            r == self@.ready,
    {
        self.init
    }

    pub fn set_init(&mut self, init: bool)
        ensures
            final(self)@ == (HandState { ready: init, ..old(self)@ }),
    {
        self.init = init;
    }

    /// Stores new finger readings, first folding each into its finger's
    /// calibration bounds.
    pub fn update_fingers(&mut self, new_fingers: [u16; 5])
        ensures
            fingers_taken(old(self)@, final(self)@, new_fingers),
    {
        observe_all(&mut self.finger_limits, &new_fingers);
        self.fingers = new_fingers;
    }

    /// Stores new IMU values: the first three are the accelerometer, the last
    /// three the gyroscope.
    pub fn update_imu(&mut self, new_imu: [i16; 6])
        ensures
            imu_taken(old(self)@, final(self)@, new_imu),
    {
        self.accel = [new_imu[0], new_imu[1], new_imu[2]];
        self.gyro = [new_imu[3], new_imu[4], new_imu[5]];
        assert(self.accel@ =~= new_imu@.subrange(0, 3));
        assert(self.gyro@ =~= new_imu@.subrange(3, 6));
    }

    /// Stores a whole frame: its fingers, then its IMU values.
    pub fn apply_frame(&mut self, frame: &SensorFrame)
        ensures
            final(self)@.ready == old(self)@.ready,
            final(self)@.fingers == frame.fingers,
            forall|i: int|
                0 <= i < 5 ==> #[trigger] final(self)@.limits[i] == observed(
                    old(self)@.limits[i],
                    frame.fingers[i],
                ),
            final(self)@.accel@ == frame.imu@.subrange(0, 3),
            final(self)@.gyro@ == frame.imu@.subrange(3, 6),
    {
        self.update_fingers(frame.fingers);
        self.update_imu(frame.imu);
    }

    /// The gyroscope vector, in hundredths.
    pub fn get_gyro(&self) -> (r: [i16; 3])
        ensures
            r == self@.gyro,
    {
        self.gyro
    }

    /// The accelerometer vector, in hundredths.
    pub fn get_accel(&self) -> (r: [i16; 3])
        ensures
            r == self@.accel,
    {
        self.accel
    }

    /// The raw finger readings.
    pub fn get_fingers(&self) -> (r: [u16; 5])
        ensures
            r == self@.fingers,
    {
        self.fingers
    }

    /// Each finger's (min, max) calibration bounds.
    pub fn get_limits(&self) -> (r: [(u16, u16); 5])
        ensures
            r == self@.limits,
    {
        self.finger_limits
    }

    /// A copy of the whole state.
    pub fn snapshot(&self) -> (r: HandState)
        ensures
            r == self@,
    {
        HandState {
            ready: self.init,
            fingers: self.fingers,
            limits: self.finger_limits,
            accel: self.accel,
            gyro: self.gyro,
        }
    }

    /// The current gesture under the last-finger policy.
    pub fn get_gesture(&self) -> (r: RukaGesture)
        ensures
            r == classified(self@.fingers@, self@.limits@, GesturePolicy::LastFinger),
    {
        classify(&self.fingers, &self.finger_limits, GesturePolicy::LastFinger)
    }

    /// The current gesture under the given policy.
    pub fn get_gesture_with(&self, policy: GesturePolicy) -> (r: RukaGesture)
        ensures
            r == classified(self@.fingers@, self@.limits@, policy),
    {
        classify(&self.fingers, &self.finger_limits, policy)
    }
}

} // verus!
