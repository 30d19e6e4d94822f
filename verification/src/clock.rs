//! Time arithmetic.
//!
//! Instants and durations are whole nanoseconds. An instant counts from an
//! epoch that the caller fixes once and reads from a monotonic clock.

use vstd::prelude::*;

verus! {

pub const NANOS_PER_SECOND: u64 = 1_000_000_000;

/// Duration shown for a stream that does not say how long it is: three minutes.
pub const FALLBACK_DURATION: u64 = 180_000_000_000;

/// Time from `anchor` to `now`; zero when `now` lies before `anchor`.
pub open spec fn elapsed_between(anchor: int, now: int) -> int {
    if now >= anchor {
        now - anchor
    } else {
        0
    }
}

/// The smaller of `value` and `limit`.
pub open spec fn capped(value: int, limit: int) -> int {
    if value <= limit {
        value
    } else {
        limit
    }
}

/// Playing time of `n_frames` frames at `rate` frames per second, rounded down
/// to a nanosecond and capped at the largest representable duration.
pub open spec fn frames_duration(n_frames: int, rate: int) -> int
    recommends
        rate > 0,
{
    capped(n_frames * NANOS_PER_SECOND as int / rate, u64::MAX as int)
}

/// Total duration of a stream as far as its header tells: computed from the
/// frame count and the sample rate when both are known, the fallback otherwise.
/// A rate of zero counts as unknown.
pub open spec fn estimated_duration(n_frames: Option<u64>, sample_rate: Option<u32>) -> int {
    match (n_frames, sample_rate) {
        (Some(n), Some(rate)) => if rate > 0 {
            frames_duration(n as int, rate as int)
        } else {
            FALLBACK_DURATION as int
        },
        _ => FALLBACK_DURATION as int,
    }
}

/// Computes [`estimated_duration`].
pub fn estimate_duration(n_frames: Option<u64>, sample_rate: Option<u32>) -> (duration: u64)
    ensures
        duration as int == estimated_duration(n_frames, sample_rate),
{
    match (n_frames, sample_rate) {
        (Some(n), Some(rate)) => {
            if rate > 0 {
                let nanos: u128 = (n as u128) * (NANOS_PER_SECOND as u128) / (rate as u128);
                if nanos > u64::MAX as u128 {
                    u64::MAX
                } else {
                    nanos as u64
                }
            } else {
                FALLBACK_DURATION
            }
        },
        _ => FALLBACK_DURATION,
    }
}

/// `value` pulled into the range from `low` to `high`.
pub open spec fn bounded(value: int, low: int, high: int) -> int {
    if value < low {
        low
    } else if value > high {
        high
    } else {
        value
    }
}

/// Position, length and anchor of the track that is loaded.
///
/// The position never exceeds the length. The anchor is the instant from
/// which elapsed time counts as position; it may lie before the epoch, by
/// no more than the largest instant lies after it.
pub struct Timeline {
    position: u64,
    total: u64,
    anchor: Option<i128>,
}

impl Timeline {
    #[verifier::type_invariant]
    spec fn inv(self) -> bool {
        &&& self.position <= self.total
        &&& match self.anchor {
            Some(anchor) => -(u64::MAX as int) <= anchor <= u64::MAX as int,
            None => true,
        }
    }

    /// Length of the track.
    pub closed spec fn total(self) -> int {
        self.total as int
    }

    /// Position as of the last update. The cap is idle on every value that
    /// exists at run time; it makes the bound hold of the model of any value.
    pub closed spec fn position(self) -> int {
        capped(self.position as int, self.total as int)
    }

    /// The anchor, if one is set; bounded as the position is capped.
    pub closed spec fn anchor(self) -> Option<int> {
        match self.anchor {
            Some(anchor) => Some(bounded(anchor as int, -(u64::MAX as int), u64::MAX as int)),
            None => None,
        }
    }

    /// What holds of every timeline.
    pub open spec fn wf(self) -> bool {
        &&& 0 <= self.position() <= self.total() <= u64::MAX
        &&& match self.anchor() {
            Some(anchor) => -(u64::MAX as int) <= anchor <= u64::MAX,
            None => true,
        }
    }

    /// Every timeline is well-formed.
    pub proof fn lemma_wf(self)
        ensures
            self.wf(),
    {
    }

    /// A timeline of length zero without an anchor.
    pub fn new() -> (timeline: Self)
        ensures
            timeline.position() == 0,
            timeline.total() == 0,
            timeline.anchor() is None,
    {
        Timeline { position: 0, total: 0, anchor: None }
    }

    /// Position as of the last update.
    pub fn current_position(&self) -> (position: u64)
        ensures
            position as int == self.position(),
    {
        proof {
            use_type_invariant(self);
        }
        self.position
    }

    /// Length of the track.
    pub fn total_duration(&self) -> (total: u64)
        ensures
            total as int == self.total(),
    {
        self.total
    }

    /// Starts afresh at `now`: position and length zero, anchored at `now`.
    pub fn restart(&mut self, now: u64)
        ensures
            final(self).position() == 0,
            final(self).total() == 0,
            final(self).anchor() == Some(now as int),
    {
        proof {
            use_type_invariant(&*self);
        }
        self.position = 0;
        self.total = 0;
        self.anchor = Some(now as i128);
    }

    /// Moves the anchor to `now` less the position, so that the position
    /// goes on from where it stands.
    pub fn resume(&mut self, now: u64)
        ensures
            final(self).position() == old(self).position(),
            final(self).total() == old(self).total(),
            final(self).anchor() == Some(now as int - old(self).position()),
    {
        proof {
            use_type_invariant(&*self);
        }
        self.anchor = Some(now as i128 - self.position as i128);
    }

    /// Sets the position to the time from the anchor to `now`, capped at the
    /// length. Without an anchor nothing changes.
    pub fn advance_to(&mut self, now: u64)
        ensures
            final(self).total() == old(self).total(),
            final(self).anchor() == old(self).anchor(),
            final(self).position() == match old(self).anchor() {
                Some(anchor) => capped(elapsed_between(anchor, now as int), old(self).total()),
                None => old(self).position(),
            },
    {
        proof {
            use_type_invariant(&*self);
        }
        if let Some(anchor) = self.anchor {
            let now_wide: i128 = now as i128;
            if now_wide >= anchor {
                let elapsed: i128 = now_wide - anchor;
                if elapsed <= self.total as i128 {
                    self.position = elapsed as u64;
                } else {
                    self.position = self.total;
                }
            } else {
                self.position = 0;
            }
        }
    }

    /// Sets the length, and pulls a position beyond it back to it.
    pub fn set_total(&mut self, total: u64)
        ensures
            final(self).total() == total,
            final(self).anchor() == old(self).anchor(),
            final(self).position() == capped(old(self).position(), total as int),
    {
        proof {
            use_type_invariant(&*self);
        }
        if self.position > total {
            self.position = total;
        }
        self.total = total;
    }
}

} // verus!
