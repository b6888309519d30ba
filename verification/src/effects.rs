//! Side-effect state: one independent risk accumulator and timed effect per
//! zone (left and right half of the play field).

use vstd::prelude::*;
use crate::config::{
    ARENA_CAP, RISK_CAP, SIDE_EFFECT_DURATION, LEFT_ZONE_X, RIGHT_ZONE_X,
    PLAYER_BULLET_EFFECT_RISK, RISK_THRESHOLD, DT_CAP,
};
use crate::rng::rand_range;

verus! {

/// A risk accumulator after one missed bullet: grows by the fixed amount,
/// saturating at the (unreachable) cap.
pub open spec fn risk_bumped(r: i64) -> i64 {
    if r <= RISK_CAP - PLAYER_BULLET_EFFECT_RISK {
        (r + PLAYER_BULLET_EFFECT_RISK) as i64
    } else {
        r
    }
}

/// The per-tick risk mailbox: the last risk snapshot each zone was sent by a
/// missed bullet this tick, if any. Written by the bullet lifecycle, drained
/// by the side-effect machine at the end of the same tick.
#[derive(Clone, Copy, Debug)]
pub struct RiskEvents {
    pub left: Option<i64>,
    pub right: Option<i64>,
}

impl RiskEvents {
    /// An empty mailbox.
    pub fn none() -> (e: RiskEvents)
        ensures
            e.left is None,
            e.right is None,
    {
        RiskEvents { left: None, right: None }
    }
}

/// The effect a zone can be under.
#[derive(Clone, Copy, PartialEq, Eq, Structural, Debug)]
pub enum SideEffectType {
    NoEffect,
    SlowerMovement,
    FasterMovement,
    NoShooting,
    NoKnockback,
}

/// Numerator of the position-update multiplier of an active effect.
pub open spec fn movement_mult_num(e: SideEffectType) -> int {
    if e is FasterMovement {
        2
    } else {
        1
    }
}

/// Denominator of the position-update multiplier of an active effect.
pub open spec fn movement_mult_den(e: SideEffectType) -> int {
    if e is SlowerMovement {
        2
    } else {
        1
    }
}

impl SideEffectType {
    /// The factor an active effect applies to position updates, as a
    /// numerator/denominator pair: 1/2 under slower movement, 2/1 under
    /// faster movement, 1/1 otherwise.
    pub fn movement_multiplier(&self) -> (m: (i64, i64))
        ensures
            m.0 == movement_mult_num(*self),
            m.1 == movement_mult_den(*self),
    {
        match self {
            SideEffectType::SlowerMovement => (1, 2),
            SideEffectType::FasterMovement => (2, 1),
            _ => (1, 1),
        }
    }

    /// The on-screen label of the effect.
    pub fn name(&self) -> (r: &'static str)
        ensures
            *self is NoEffect ==> r@ == "None"@,
            *self is SlowerMovement ==> r@ == "Slower movement"@,
            *self is FasterMovement ==> r@ == "Faster movement"@,
            *self is NoShooting ==> r@ == "No shooting\nTouch to kill"@,
            *self is NoKnockback ==> r@ == "No bullet knockback"@,
    {
        match self {
            SideEffectType::NoEffect => "None",
            SideEffectType::SlowerMovement => "Slower movement",
            SideEffectType::FasterMovement => "Faster movement",
            SideEffectType::NoShooting => "No shooting\nTouch to kill",
            SideEffectType::NoKnockback => "No bullet knockback",
        }
    }
}

/// Side-effect state of one zone.
#[derive(Clone, Copy, PartialEq, Eq, Structural, Debug)]
pub struct ZoneState {
    /// Accumulated risk. Grows by a fixed amount per missed bullet, is
    /// consumed in whole thresholds by activations, and never resets on
    /// success.
    pub risk: i64,
    /// The currently active effect, if any.
    pub effect: SideEffectType,
    /// Microseconds before the active effect expires; kept at the full
    /// duration while no effect is active.
    pub remaining: i64,
    /// The zone covers the play field from this x toward its wall.
    pub zone_x: i64,
}

impl ZoneState {
    pub open spec fn wf(self) -> bool {
        &&& 0 <= self.risk <= RISK_CAP
        &&& 0 <= self.remaining <= SIDE_EFFECT_DURATION
        &&& self.effect is NoEffect ==> self.remaining == SIDE_EFFECT_DURATION
        &&& -ARENA_CAP <= self.zone_x <= ARENA_CAP
    }

    /// A dormant zone starting at the given x.
    pub fn new(zone_x: i64) -> (z: ZoneState)
        requires
            -ARENA_CAP <= zone_x <= ARENA_CAP,
        ensures
            z == (ZoneState {
                risk: 0i64,
                effect: SideEffectType::NoEffect,
                remaining: SIDE_EFFECT_DURATION,
                zone_x,
            }),
            z.wf(),
    {
        ZoneState {
            risk: 0,
            effect: SideEffectType::NoEffect,
            remaining: SIDE_EFFECT_DURATION,
            zone_x,
        }
    }
}

/// The side-effect state of both zones.
#[derive(Clone, Copy, PartialEq, Eq, Structural, Debug)]
pub struct SideEffects {
    pub left: ZoneState,
    pub right: ZoneState,
}

/// The side-effect state of a fresh game: both zones dormant with no banked
/// risk and full timers, covering the outer thirds of the default arena.
pub open spec fn fresh_effects() -> SideEffects {
    SideEffects {
        left: ZoneState {
            risk: 0i64,
            effect: SideEffectType::NoEffect,
            remaining: SIDE_EFFECT_DURATION,
            zone_x: LEFT_ZONE_X,
        },
        right: ZoneState {
            risk: 0i64,
            effect: SideEffectType::NoEffect,
            remaining: SIDE_EFFECT_DURATION,
            zone_x: RIGHT_ZONE_X,
        },
    }
}

impl SideEffects {
    pub open spec fn wf(self) -> bool {
        &&& self.left.wf()
        &&& self.right.wf()
    }
}

/// One tick of one zone's state machine, as a function of the drawn
/// activation roll and effect pick. First the expiry phase: an active
/// effect's countdown advances, and on reaching zero the zone goes dormant
/// with its timer rearmed — and if at least one threshold of risk is
/// banked, the zone re-arms its own activation chance at full probability.
/// Then the activation phase: a dormant zone with a posted risk value
/// activates when the roll falls below that value; the activation consumes
/// exactly one threshold of risk (clamping at zero, never resetting what
/// remains) and installs the picked effect for the full duration.
pub open spec fn zone_step_spec(
    z: ZoneState,
    ev: Option<i64>,
    dt: int,
    roll: int,
    pick: SideEffectType,
) -> ZoneState {
    let expired = !(z.effect is NoEffect) && z.remaining - dt <= 0;
    let z1 = if z.effect is NoEffect {
        z
    } else if expired {
        ZoneState { effect: SideEffectType::NoEffect, remaining: SIDE_EFFECT_DURATION, ..z }
    } else {
        ZoneState { remaining: (z.remaining - dt) as i64, ..z }
    };
    let ev1 = if expired && z.risk >= RISK_THRESHOLD {
        Some(RISK_THRESHOLD)
    } else {
        ev
    };
    if z1.effect is NoEffect {
        match ev1 {
            Some(rv) => if roll < rv {
                ZoneState {
                    risk: if z1.risk - RISK_THRESHOLD >= 0 {
                        (z1.risk - RISK_THRESHOLD) as i64
                    } else {
                        0i64
                    },
                    effect: pick,
                    ..z1
                }
            } else {
                z1
            },
            None => z1,
        }
    } else {
        z1
    }
}

/// A successful activation with at least one threshold banked consumes
/// exactly the threshold: no more, no less, and what remains is kept.
pub proof fn lemma_risk_consumption(
    z: ZoneState,
    ev: Option<i64>,
    dt: int,
    roll: int,
    pick: SideEffectType,
)
    requires
        z.effect is NoEffect,
        ev is Some,
        roll < ev->0,
        z.risk >= RISK_THRESHOLD,
    ensures
        zone_step_spec(z, ev, dt, roll, pick).risk == z.risk - RISK_THRESHOLD,
        zone_step_spec(z, ev, dt, roll, pick).effect == pick,
{
}

/// A risk total after one threshold is consumed (clamping at zero).
pub open spec fn risk_consumed(r: int) -> int {
    if r - RISK_THRESHOLD >= 0 {
        r - RISK_THRESHOLD
    } else {
        0
    }
}

/// A risk total after `n` consumptions.
pub open spec fn iterate_consume(r: int, n: nat) -> int
    decreases n,
{
    if n == 0 {
        r
    } else {
        risk_consumed(iterate_consume(r, (n - 1) as nat))
    }
}

/// Accumulating exactly `n` activation thresholds over a base `r0` and
/// consuming `n` times gives back exactly `r0`: consumption never eats into
/// the sub-threshold remainder and never leaves a fraction of a threshold
/// behind.
pub proof fn lemma_risk_consumption_n(r0: int, n: nat)
    requires
        r0 >= 0,
    ensures
        iterate_consume(r0 + n * RISK_THRESHOLD, n) == r0,
    decreases n,
{
    if n > 0 {
        assert((n - 1) * RISK_THRESHOLD as int == n * RISK_THRESHOLD as int - RISK_THRESHOLD as int)
            by (nonlinear_arith);
        lemma_risk_consumption_n(r0 + RISK_THRESHOLD, (n - 1) as nat);
    }
}

/// Map a uniform draw in `[0, 4)` to one of the four concrete effects.
pub fn effect_from_roll(k: i64) -> (e: SideEffectType)
    requires
        0 <= k < 4,
    ensures
        e == if k == 0 {
            SideEffectType::SlowerMovement
        } else if k == 1 {
            SideEffectType::FasterMovement
        } else if k == 2 {
            SideEffectType::NoShooting
        } else {
            SideEffectType::NoKnockback
        },
        !(e is NoEffect),
{
    if k == 0 {
        SideEffectType::SlowerMovement
    } else if k == 1 {
        SideEffectType::FasterMovement
    } else if k == 2 {
        SideEffectType::NoShooting
    } else {
        SideEffectType::NoKnockback
    }
}

/// Draw one of the four concrete effects uniformly.
pub fn random_effect() -> (e: SideEffectType)
    ensures
        !(e is NoEffect),
{
    let k = rand_range(0, 4);
    effect_from_roll(k)
}

/// One tick of one zone, drawing the activation roll and the effect pick:
/// the result is `zone_step_spec` for some roll below the threshold and
/// some concrete effect.
pub fn zone_tick(z: &mut ZoneState, ev: Option<i64>, dt: i64)
    requires
        old(z).wf(),
        0 < dt <= DT_CAP,
    ensures
        final(z).wf(),
        final(z).zone_x == old(z).zone_x,
        exists|roll: int, pick: SideEffectType|
            0 <= roll < RISK_THRESHOLD && !(pick is NoEffect)
            && *final(z) == #[trigger] zone_step_spec(*old(z), ev, dt as int, roll, pick),
{
    let mut ev1 = ev;
    if !matches!(z.effect, SideEffectType::NoEffect) {
        if z.remaining - dt <= 0 {
            z.effect = SideEffectType::NoEffect;
            z.remaining = SIDE_EFFECT_DURATION;
            if z.risk >= RISK_THRESHOLD {
                ev1 = Some(RISK_THRESHOLD);
            }
        } else {
            z.remaining = z.remaining - dt;
        }
    }
    let mut roll: i64 = 0;
    let mut pick = SideEffectType::SlowerMovement;
    if matches!(z.effect, SideEffectType::NoEffect) {
        match ev1 {
            Some(rv) => {
                roll = rand_range(0, RISK_THRESHOLD);
                if roll < rv {
                    z.risk = if z.risk - RISK_THRESHOLD >= 0 {
                        z.risk - RISK_THRESHOLD
                    } else {
                        0
                    };
                    pick = random_effect();
                    z.effect = pick;
                }
            },
            None => {},
        }
    }
    proof {
        assert(*z == zone_step_spec(*old(z), ev, dt as int, roll as int, pick));
    }
}

/// One tick of the side-effect machine: each zone advances independently on
/// the same drained risk mailbox.
pub fn side_effect_system(fx: &mut SideEffects, ev: &RiskEvents, dt: i64)
    requires
        old(fx).wf(),
        0 < dt <= DT_CAP,
    ensures
        final(fx).wf(),
        final(fx).left.zone_x == old(fx).left.zone_x,
        final(fx).right.zone_x == old(fx).right.zone_x,
        exists|roll: int, pick: SideEffectType|
            0 <= roll < RISK_THRESHOLD && !(pick is NoEffect)
            && final(fx).left == #[trigger] zone_step_spec(
                old(fx).left, ev.left, dt as int, roll, pick),
        exists|roll: int, pick: SideEffectType|
            0 <= roll < RISK_THRESHOLD && !(pick is NoEffect)
            && final(fx).right == #[trigger] zone_step_spec(
                old(fx).right, ev.right, dt as int, roll, pick),
{
    zone_tick(&mut fx.left, ev.left, dt);
    zone_tick(&mut fx.right, ev.right, dt);
}

impl Default for SideEffects {
    /// Both zones dormant, covering the outer thirds of the default arena.
    fn default() -> (s: SideEffects)
        ensures
            s == fresh_effects(),
            s.wf(),
    {
        SideEffects { left: ZoneState::new(LEFT_ZONE_X), right: ZoneState::new(RIGHT_ZONE_X) }
    }
}

} // verus!
