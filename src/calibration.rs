//! Self-calibrating per-finger range tracking.
use vstd::prelude::*;

verus! {

/// A minimum below this value is taken for sensor noise.
pub const NOISE_FLOOR: u16 = 100;

/// The minimum that a noisy minimum is reset to before the next comparison.
pub const BASELINE_MIN: u16 = 14000;

/// Why a calibration request was refused.
#[derive(PartialEq, Eq, Structural, Clone, Copy, Debug)]
pub enum CalibrationError {
    /// The channel index names no finger.
    InvalidChannel,
}

/// The minimum that a new sample is compared against: the stored one, or
/// the baseline when the stored one sits under the noise floor.
pub open spec fn guarded_min(min: u16) -> u16 {
    if min < NOISE_FLOOR {
        BASELINE_MIN
    } else {
        min
    }
}

/// The (min, max) bounds of a channel after it observes `raw`.
pub open spec fn observed(bounds: (u16, u16), raw: u16) -> (u16, u16) {
    let lo = guarded_min(bounds.0);
    (if raw < lo { raw } else { lo }, if raw > bounds.1 { raw } else { bounds.1 })
}

/// Folds one sample into one channel's (min, max) bounds.
pub fn observe_bounds(bounds: (u16, u16), raw: u16) -> (r: (u16, u16))
    ensures
        r == observed(bounds, raw),
{
    let mut lo = bounds.0;
    let mut hi = bounds.1;
    if lo < NOISE_FLOOR {
        lo = BASELINE_MIN;
    }
    if raw < lo {
        lo = raw;
    }
    if raw > hi {
        hi = raw;
    }
    (lo, hi)
}

/// Folds `raw` into the bounds of finger `channel` and returns the updated
/// bounds; a channel outside the five fingers is refused and nothing changes.
pub fn observe_channel(limits: &mut [(u16, u16); 5], channel: usize, raw: u16) -> (r: Result<
    (u16, u16),
    CalibrationError,
>)
    ensures
        channel >= 5 ==> r == Err::<(u16, u16), CalibrationError>(CalibrationError::InvalidChannel)
            && *final(limits) == *old(limits),
        channel < 5 ==> r == Ok::<(u16, u16), CalibrationError>(
            observed(old(limits)[channel as int], raw),
        ) && final(limits)@ == old(limits)@.update(
            channel as int,
            observed(old(limits)[channel as int], raw),
        ),
{
    if channel >= 5 {
        return Err(CalibrationError::InvalidChannel);
    }
    let updated = observe_bounds(limits[channel], raw);
    limits[channel] = updated;
    Ok(updated)
}

/// Folds one sample per finger into the five channels' bounds.
pub fn observe_all(limits: &mut [(u16, u16); 5], fingers: &[u16; 5])
    ensures
        forall|i: int| 0 <= i < 5 ==> #[trigger] final(limits)[i] == observed(old(limits)[i], fingers[i]),
{
    let ghost start = *limits;
    let mut i: usize = 0;
    while i < 5
        invariant
            i <= 5,
            forall|j: int| 0 <= j < i ==> #[trigger] limits[j] == observed(start[j], fingers[j]),
            forall|j: int| i <= j < 5 ==> #[trigger] limits[j] == start[j],
        decreases 5 - i,
    {
        let _ = observe_channel(limits, i, fingers[i]);
        i = i + 1;
    }
}

/// After an observation the sample lies within the channel's bounds; the
/// maximum never shrinks, and the minimum never rises above the stored one
/// unless that one sat under the noise floor.
pub proof fn lemma_observation_brackets_sample(bounds: (u16, u16), raw: u16)
    ensures
        observed(bounds, raw).0 <= raw <= observed(bounds, raw).1,
        observed(bounds, raw).1 >= bounds.1,
        bounds.0 >= NOISE_FLOOR ==> observed(bounds, raw).0 <= bounds.0,
        bounds.0 < NOISE_FLOOR ==> observed(bounds, raw).0 <= BASELINE_MIN,
{
}

} // verus!
