//! Gesture classification from the fingers and their calibration bounds.
use vstd::prelude::*;

verus! {

/// A discrete hand gesture.
#[derive(PartialEq, Eq, Structural, Clone, Copy, Debug)]
pub enum RukaGesture {
    Idle,
    Fist,
    /// Declared for forward compatibility; no classification produces it.
    ThumbsUp,
}

/// How the per-finger verdicts are combined into one decision.
#[derive(PartialEq, Eq, Structural, Clone, Copy, Debug)]
pub enum GesturePolicy {
    /// The verdict of the last finger examined decides alone.
    LastFinger,
    /// A fist needs every finger to be closer to its minimum than to its
    /// maximum.
    AllFingers,
}

/// The display name of a gesture.
pub open spec fn gesture_name(g: RukaGesture) -> Seq<char> {
    match g {
        RukaGesture::Idle => "Idle"@,
        RukaGesture::Fist => "Fist"@,
        RukaGesture::ThumbsUp => "ThumbsUp"@,
    }
}

/// The numeric code of a gesture, as shown in debug readouts.
pub open spec fn gesture_code(g: RukaGesture) -> u8 {
    match g {
        RukaGesture::Idle => 0,
        RukaGesture::Fist => 1,
        RukaGesture::ThumbsUp => 2,
    }
}

/// The gesture with a numeric code; an unknown code reads as `Idle`.
pub open spec fn gesture_of_code(c: u8) -> RukaGesture {
    if c == 1 {
        RukaGesture::Fist
    } else if c == 2 {
        RukaGesture::ThumbsUp
    } else {
        RukaGesture::Idle
    }
}

pub open spec fn abs_diff(a: u16, b: u16) -> int {
    if a >= b {
        a - b
    } else {
        b - a
    }
}

/// A finger denies the fist when it is at least as close to its maximum as
/// to its minimum.
pub open spec fn denies_fist(finger: u16, bounds: (u16, u16)) -> bool {
    abs_diff(finger, bounds.1) <= abs_diff(finger, bounds.0)
}

/// The gesture of five fingers and their (min, max) bounds.
pub open spec fn classified(
    fingers: Seq<u16>,
    limits: Seq<(u16, u16)>,
    policy: GesturePolicy,
) -> RukaGesture {
    let fist = match policy {
        GesturePolicy::LastFinger => !denies_fist(fingers[4], limits[4]),
        GesturePolicy::AllFingers => forall|i: int|
            0 <= i < 5 ==> !#[trigger] denies_fist(fingers[i], limits[i]),
    };
    if fist {
        RukaGesture::Fist
    } else {
        RukaGesture::Idle
    }
}

impl RukaGesture {
    /// The gesture's display name.
    pub fn to_string(&self) -> (r: String)
        ensures
            r@ == gesture_name(*self),
    {
        match self {
            RukaGesture::Idle => String::from_str("Idle"),
            RukaGesture::Fist => String::from_str("Fist"),
            RukaGesture::ThumbsUp => String::from_str("ThumbsUp"),
        }
    }

    /// The display name of the gesture that a numeric readout stands for.
    pub fn float_to_string(&self) -> (r: String)
        ensures
            r@ == gesture_name(*self),
    {
        self.to_string()
    }

    /// The gesture's numeric code: 0 for `Idle`, 1 for `Fist`, 2 for
    /// `ThumbsUp`.
    pub fn code(&self) -> (r: u8)
        ensures
            r == gesture_code(*self),
    {
        match self {
            RukaGesture::Idle => 0,
            RukaGesture::Fist => 1,
            RukaGesture::ThumbsUp => 2,
        }
    }

    /// The gesture with numeric code `c`; an unknown code gives `Idle`.
    pub fn from_code(c: u8) -> (r: RukaGesture)
        ensures
            r == gesture_of_code(c),
    {
        if c == 1 {
            RukaGesture::Fist
        } else if c == 2 {
            RukaGesture::ThumbsUp
        } else {
            RukaGesture::Idle
        }
    }
}

/// Whether one finger denies the fist.
pub fn finger_denies_fist(finger: u16, bounds: (u16, u16)) -> (r: bool)
    ensures
        r == denies_fist(finger, bounds),
{
    let from_straight = if finger >= bounds.1 {
        finger - bounds.1
    } else {
        bounds.1 - finger
    };
    let from_flexed = if finger >= bounds.0 {
        finger - bounds.0
    } else {
        bounds.0 - finger
    };
    from_straight <= from_flexed
}

/// Classifies five fingers against their (min, max) bounds. Under
/// `LastFinger` every finger is examined in order and each verdict replaces
/// the previous one, so the fifth finger alone decides; under `AllFingers`
/// no finger may deny. Only `Fist` and `Idle` are ever produced.
pub fn classify(fingers: &[u16; 5], limits: &[(u16, u16); 5], policy: GesturePolicy) -> (r:
    RukaGesture)
    ensures
        r == classified(fingers@, limits@, policy),
        r != RukaGesture::ThumbsUp,
        policy == GesturePolicy::LastFinger ==> (r == RukaGesture::Fist <==> !denies_fist(
            fingers[4],
            limits[4],
        )),
{
    let mut last_denies = false;
    let mut any_denies = false;
    let mut i: usize = 0;
    while i < 5
        invariant
            i <= 5,
            i > 0 ==> last_denies == denies_fist(fingers[i - 1], limits[i - 1]),
            any_denies <==> exists|j: int| 0 <= j < i && #[trigger] denies_fist(fingers[j], limits[j]),
        decreases 5 - i,
    {
        last_denies = finger_denies_fist(fingers[i], limits[i]);
        if last_denies {
            any_denies = true;
        }
        i = i + 1;
    }
    let fist = match policy {
        GesturePolicy::LastFinger => !last_denies,
        GesturePolicy::AllFingers => !any_denies,
    };
    if fist {
        RukaGesture::Fist
    } else {
        RukaGesture::Idle
    }
}

/// Under the last-finger policy the other four fingers and their bounds do
/// not matter: two hands that agree on the fifth finger and its bounds get
/// the same gesture.
pub proof fn lemma_last_finger_decides(
    fingers_a: Seq<u16>,
    limits_a: Seq<(u16, u16)>,
    fingers_b: Seq<u16>,
    limits_b: Seq<(u16, u16)>,
)
    requires
        fingers_a.len() == 5,
        limits_a.len() == 5,
        fingers_b.len() == 5,
        limits_b.len() == 5,
        fingers_a[4] == fingers_b[4],
        limits_a[4] == limits_b[4],
    ensures
        classified(fingers_a, limits_a, GesturePolicy::LastFinger) == classified(
            fingers_b,
            limits_b,
            GesturePolicy::LastFinger,
        ),
{
}

/// The numeric code of every gesture leads back to it.
pub proof fn lemma_code_round_trip(g: RukaGesture)
    ensures
        gesture_of_code(gesture_code(g)) == g,
{
}

} // verus!
