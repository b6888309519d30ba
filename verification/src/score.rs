//! Score and patient-health bookkeeping.

use vstd::prelude::*;
use crate::num::clamp_spec;
use crate::config::HP_START;

verus! {

/// Tracks the score and the patient's health.
#[derive(Clone, Copy, PartialEq, Eq, Structural, Debug)]
pub struct Scoreboard {
    /// Non-decreasing except on game restart.
    pub score: u64,
    /// Clamped into `[0, HP_START]`; reaching 0 ends the game within the
    /// tick that produced it.
    pub patient_hp: i32,
}

/// A scoreboard after a patient-health delta, clamped into `[0, HP_START]`.
pub open spec fn patient_delta_applied(sb: Scoreboard, delta: int) -> Scoreboard {
    Scoreboard {
        patient_hp: clamp_spec(sb.patient_hp + delta, 0, HP_START as int) as i32,
        ..sb
    }
}

/// A score after one increment; it saturates at the integer ceiling, far
/// beyond anything reachable in play.
pub open spec fn score_incremented(s: u64) -> u64 {
    if s < u64::MAX {
        (s + 1) as u64
    } else {
        s
    }
}

impl Scoreboard {
    pub open spec fn wf(self) -> bool {
        0 <= self.patient_hp <= HP_START
    }

    /// Increment the score.
    pub fn add_score(&mut self)
        ensures
            final(self).score == score_incremented(old(self).score),
            final(self).patient_hp == old(self).patient_hp,
    {
        if self.score < u64::MAX {
            self.score = self.score + 1;
        }
    }

    /// Apply a health delta, clamping the result into `[0, HP_START]`.
    /// The result is 0 exactly when the unclamped value crossed to `<= 0`,
    /// which is the trigger for the game-over transition.
    pub fn apply_patient_delta(&mut self, delta: i32)
        requires
            old(self).wf(),
            -10_000 <= delta <= 10_000,
        ensures
            *final(self) == patient_delta_applied(*old(self), delta as int),
            final(self).patient_hp == clamp_spec(
                old(self).patient_hp + delta, 0, HP_START as int),
            final(self).score == old(self).score,
            final(self).wf(),
            final(self).patient_hp == 0 <==> old(self).patient_hp + delta <= 0,
    {
        let raw = self.patient_hp + delta;
        self.patient_hp = if raw < 0 {
            0
        } else if raw > HP_START {
            HP_START
        } else {
            raw
        };
    }
}

impl Default for Scoreboard {
    /// A fresh scoreboard: no score, full patient health.
    fn default() -> (s: Scoreboard)
        ensures
            s == (Scoreboard { score: 0u64, patient_hp: HP_START }),
            s.wf(),
    {
        Scoreboard { score: 0, patient_hp: HP_START }
    }
}

} // verus!
