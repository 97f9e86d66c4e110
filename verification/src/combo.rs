//! The streak/combo state machine.
//!
//! Rapid consecutive manual actions build a streak: every action
//! raises the click counter, arms the machine, and rewinds a decay
//! window of `COMBO_WINDOW_MS` milliseconds. The combo level is the
//! counter divided by `CLICKS_PER_COMBO`; while the machine is armed
//! it multiplies manual yield by one plus the level, and once the
//! window elapses with no action the whole streak resets. The state is
//! transient: it is never persisted.

use crate::math::{sat128, sat_add};
use vstd::arithmetic::div_mod::lemma_div_is_ordered;
use vstd::prelude::*;

verus! {

/// Manual actions per combo level.
pub const CLICKS_PER_COMBO: u128 = 10;

/// Decay window re-armed by every manual action, in milliseconds.
pub const COMBO_WINDOW_MS: u64 = 3000;

/// The combo machine: a click counter, its derived level, whether the
/// streak is live, and the time left before it decays.
pub struct ComboSystem {
    pub clicks: u128,
    pub combo: u128,
    pub active: bool,
    pub remaining_ms: u64,
}

impl ComboSystem {
    /// The level always mirrors the counter, and an idle machine holds
    /// no residue of the previous streak.
    pub open spec fn wf(self) -> bool {
        &&& self.combo == self.clicks as nat / CLICKS_PER_COMBO as nat
        &&& !self.active ==> self.clicks == 0 && self.remaining_ms == 0
    }

    /// The level reported to consumers: zero whenever the streak is
    /// not live.
    pub open spec fn spec_level(self) -> u128 {
        if self.active {
            self.combo
        } else {
            0
        }
    }

    /// The factor applied to manual-action yield: one plus the level.
    pub open spec fn spec_multiplier(self) -> int {
        1 + self.spec_level()
    }

    /// A fresh, idle machine.
    pub fn new() -> (c: ComboSystem)
        ensures
            c.wf(),
            !c.active,
            c.spec_level() == 0,
    {
        ComboSystem { clicks: 0, combo: 0, active: false, remaining_ms: 0 }
    }

    /// Record one manual action: count it, arm the streak, and rewind
    /// the decay window.
    pub fn record_action(&mut self)
        requires
            old(self).wf(),
        ensures
            final(self).wf(),
            final(self).active,
            final(self).clicks == sat128(old(self).clicks + 1),
            final(self).combo == final(self).clicks as nat / CLICKS_PER_COMBO as nat,
            final(self).remaining_ms == COMBO_WINDOW_MS,
    {
        self.clicks = sat_add(self.clicks, 1);
        self.combo = self.clicks / CLICKS_PER_COMBO;
        self.active = true;
        self.remaining_ms = COMBO_WINDOW_MS;
    }

    /// Let `delta_ms` of inactivity elapse: an armed streak counts
    /// down, and resets entirely once the window has fully elapsed. An
    /// idle machine is unaffected.
    pub fn tick(&mut self, delta_ms: u64)
        requires
            old(self).wf(),
        ensures
            final(self).wf(),
            !old(self).active ==> *final(self) == *old(self),
            old(self).active && delta_ms < old(self).remaining_ms ==> *final(self)
                == (ComboSystem {
                remaining_ms: (old(self).remaining_ms - delta_ms) as u64,
                ..*old(self)
            }),
            old(self).active && delta_ms >= old(self).remaining_ms ==> !final(self).active
                && final(self).clicks == 0 && final(self).spec_level() == 0,
    {
        if self.active {
            if delta_ms < self.remaining_ms {
                self.remaining_ms = self.remaining_ms - delta_ms;
            } else {
                self.clicks = 0;
                self.combo = 0;
                self.active = false;
                self.remaining_ms = 0;
            }
        }
    }

    /// The combo level currently in force.
    pub fn level(&self) -> (r: u128)
        ensures
            r == self.spec_level(),
    {
        if self.active {
            self.combo
        } else {
            0
        }
    }

    /// The yield factor currently in force: one plus the level.
    pub fn multiplier(&self) -> (r: u128)
        requires
            self.wf(),
        ensures
            r == self.spec_multiplier(),
    {
        proof {
            lemma_div_is_ordered(self.clicks as int, u128::MAX as int, CLICKS_PER_COMBO as int);
        }
        if self.active {
            1 + self.combo
        } else {
            1
        }
    }

    /// Whether a streak is currently live.
    pub fn is_active(&self) -> (r: bool)
        ensures
            r == self.active,
    {
        self.active
    }
}

} // verus!
