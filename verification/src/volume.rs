//! Volume arithmetic.
//!
//! A volume is a whole number of thousandths of full scale, from silence (0)
//! to full scale ([`VOLUME_MAX`]).

use vstd::prelude::*;

verus! {

/// Full scale.
pub const VOLUME_MAX: u32 = 1000;

/// One adjustment of the volume, by an amount in thousandths of full scale.
pub enum VolumeStep {
    Up(u32),
    Down(u32),
}

/// `volume` raised by `amount`, saturating at full scale.
pub open spec fn raised(volume: int, amount: int) -> int {
    if volume + amount >= VOLUME_MAX as int {
        VOLUME_MAX as int
    } else {
        volume + amount
    }
}

/// `volume` lowered by `amount`, saturating at silence.
pub open spec fn lowered(volume: int, amount: int) -> int {
    if volume - amount <= 0 {
        0
    } else {
        volume - amount
    }
}

/// `volume` after one adjustment.
pub open spec fn stepped(volume: int, step: VolumeStep) -> int {
    match step {
        VolumeStep::Up(amount) => raised(volume, amount as int),
        VolumeStep::Down(amount) => lowered(volume, amount as int),
    }
}

/// `volume` after the adjustments `steps`, applied first to last.
pub open spec fn adjusted(volume: int, steps: Seq<VolumeStep>) -> int
    decreases steps.len(),
{
    if steps.len() == 0 {
        volume
    } else {
        stepped(adjusted(volume, steps.drop_last()), steps.last())
    }
}

/// A volume setting. Its level is never above full scale.
pub struct Volume {
    level: u32,
}

impl Volume {
    #[verifier::type_invariant]
    spec fn inv(self) -> bool {
        self.level <= VOLUME_MAX
    }

    /// The level, in thousandths of full scale. The cap is idle on every
    /// value that exists at run time; it makes the bound hold of the model
    /// of any value.
    pub closed spec fn level(self) -> int {
        if self.level <= VOLUME_MAX {
            self.level as int
        } else {
            VOLUME_MAX as int
        }
    }

    /// Every level lies between silence and full scale.
    pub proof fn lemma_in_range(self)
        ensures
            0 <= self.level() <= VOLUME_MAX,
    {
    }

    /// Full scale.
    pub fn full() -> (volume: Self)
        ensures
            volume.level() == VOLUME_MAX,
    {
        Volume { level: VOLUME_MAX }
    }

    /// The level, in thousandths of full scale.
    pub fn get(&self) -> (level: u32)
        ensures
            level as int == self.level(),
            level <= VOLUME_MAX,
    {
        proof {
            use_type_invariant(self);
        }
        self.level
    }

    /// Raises the level by `amount`, saturating at full scale.
    pub fn raise(&mut self, amount: u32)
        ensures
            final(self).level() == raised(old(self).level(), amount as int),
    {
        proof {
            use_type_invariant(&*self);
        }
        if amount >= VOLUME_MAX - self.level {
            self.level = VOLUME_MAX;
        } else {
            self.level = self.level + amount;
        }
    }

    /// Lowers the level by `amount`, saturating at silence.
    pub fn lower(&mut self, amount: u32)
        ensures
            final(self).level() == lowered(old(self).level(), amount as int),
    {
        proof {
            use_type_invariant(&*self);
        }
        if amount >= self.level {
            self.level = 0;
        } else {
            self.level = self.level - amount;
        }
    }
}

/// A volume within range stays within range under any sequence of
/// adjustments.
pub proof fn lemma_adjusted_in_range(volume: int, steps: Seq<VolumeStep>)
    requires
        0 <= volume <= VOLUME_MAX,
    ensures
        0 <= adjusted(volume, steps) <= VOLUME_MAX,
    decreases steps.len(),
{
    if steps.len() > 0 {
        lemma_adjusted_in_range(volume, steps.drop_last());
    }
}

/// Raising a volume that is `amount` or less below full scale gives exactly
/// full scale, and lowering one that is `amount` or less above silence gives
/// exactly silence.
pub proof fn lemma_saturates(volume: int, amount: int)
    requires
        0 <= volume <= VOLUME_MAX,
        amount >= 0,
    ensures
        volume + amount >= VOLUME_MAX ==> raised(volume, amount) == VOLUME_MAX,
        volume - amount <= 0 ==> lowered(volume, amount) == 0,
        raised(volume, amount) >= volume,
        lowered(volume, amount) <= volume,
{
}

} // verus!
