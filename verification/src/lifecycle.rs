//! The lifecycle manager: eases every cell's radius toward its target,
//! enforces the critical and despawn thresholds with their score and
//! patient-health bookkeeping, credits cells that pass the bottom of the
//! arena, keeps cells under their private top bound, and removes bullets
//! that leave through the top while charging the zone they left through
//! with side-effect risk.

use vstd::prelude::*;
use crate::arena::Boundaries;
use crate::body::{Body, CellData, CellType, Role, Vec2};
use crate::config::{
    MICROS, R_CAP, RADIUS_EASE_RATE, CRITICAL_RADIUS, DESPAWN_RADIUS, CELL_TOP_SCROLL,
    PASS_RADIUS_OFFSET, PASS_RADIUS_DIV, BULLET_EXIT_MARGIN, DT_CAP,
    PLAYER_BULLET_EFFECT_RISK, RISK_CAP,
};
use crate::effects::{SideEffects, ZoneState, RiskEvents, risk_bumped};
use crate::num::{
    ceil_div, div_trunc, ceil_div_i64, div_i64,
    lemma_ceil_div_cap, lemma_div_trunc_bound, lemma_div_trunc_cap, lemma_mul_cap,
};
use crate::score::{Scoreboard, patient_delta_applied, score_incremented};

verus! {

/// How far a radius eases in one tick of `dt` microseconds.
pub open spec fn ease_step(dt: int) -> int {
    div_trunc(RADIUS_EASE_RATE * dt, MICROS as int)
}

/// A radius eased one tick toward `target`: it moves by `ease_step` without
/// ever overshooting, and once at the target it stays there.
pub open spec fn eased_radius(radius: int, target: int, dt: int) -> int {
    let ease = ease_step(dt);
    if target - radius > ease {
        radius + ease
    } else if target - radius < -ease {
        radius - ease
    } else {
        target
    }
}

/// Growth monotonicity: while the target lies below the current radius, one
/// tick strictly shrinks the radius and never drops it past the target.
/// (Holds for every tick of at least 10 microseconds, the quantum below
/// which the fixed-point easing step rounds to zero.)
pub proof fn lemma_growth_monotonic(radius: int, target: int, dt: int)
    requires
        target < radius,
        MICROS as int <= RADIUS_EASE_RATE as int * dt,
    ensures
        target <= eased_radius(radius, target, dt) < radius,
{
    vstd::arithmetic::div_mod::lemma_div_is_ordered(
        MICROS as int, RADIUS_EASE_RATE * dt, MICROS as int);
    vstd::arithmetic::div_mod::lemma_div_by_self(MICROS as int);
    vstd::arithmetic::div_mod::lemma_div_pos_is_pos(RADIUS_EASE_RATE * dt, MICROS as int);
}

/// Easing is idempotent at the target: once the radius equals its target,
/// further ticks leave it unchanged.
pub proof fn lemma_growth_idempotent(radius: int, dt: int)
    requires
        dt >= 0,
    ensures
        eased_radius(radius, radius, dt) == radius,
{
    vstd::arithmetic::div_mod::lemma_div_pos_is_pos(RADIUS_EASE_RATE * dt, MICROS as int);
    assert(RADIUS_EASE_RATE * dt >= 0) by (nonlinear_arith)
        requires
            dt >= 0,
    ;
}

/// One cell through the lifecycle rules of one tick. A non-cell body is
/// untouched. A cell's radius eases toward its target; a radius below the
/// critical threshold forces the target to zero (the irreversible death
/// spiral); a radius below the despawn threshold removes the body and
/// applies exactly one terminal effect (blood cell: the patient loses its
/// configured health; germ: one point of score); failing that, a cell past
/// the bottom bound is removed with a pass credit scaled by its remaining
/// radius; otherwise the cell is clamped under its private top bound, which
/// itself recedes upward over time.
pub open spec fn lifecycle_cell_spec(
    b: Body,
    sb: Scoreboard,
    arena: Boundaries,
    dt: int,
) -> (Option<Body>, Scoreboard) {
    if !b.is_cell() {
        (Some(b), sb)
    } else {
        let c = b.cell();
        let r1 = eased_radius(b.radius as int, c.target_radius as int, dt);
        let target1 = if r1 < CRITICAL_RADIUS { 0int } else { c.target_radius as int };
        if r1 < DESPAWN_RADIUS {
            match c.cell_type {
                CellType::Blood { patient_hp } => (
                    None,
                    patient_delta_applied(sb, -patient_hp),
                ),
                CellType::Germ => (
                    None,
                    Scoreboard { score: score_incremented(sb.score), ..sb },
                ),
            }
        } else if b.pos.y + r1 < arena.bottom {
            let credit = ceil_div(
                c.patient_hp * (r1 + PASS_RADIUS_OFFSET),
                PASS_RADIUS_DIV as int,
            );
            (None, patient_delta_applied(sb, credit))
        } else {
            let y1 = if b.pos.y + r1 > c.top_bound {
                c.top_bound - r1
            } else {
                b.pos.y as int
            };
            let scroll = div_trunc(CELL_TOP_SCROLL * dt, MICROS as int);
            let tb1 = if y1 + r1 - scroll > arena.top {
                y1 + r1 - scroll
            } else {
                arena.top as int
            };
            (
                Some(Body {
                    pos: Vec2 { x: b.pos.x, y: y1 as i64 },
                    radius: r1 as i64,
                    role: Role::Cell(CellData {
                        target_radius: target1 as i64,
                        top_bound: tb1 as i64,
                        ..c
                    }),
                    ..b
                }),
                sb,
            )
        }
    }
}

/// Despawn bookkeeping is exclusive: a cell whose eased radius falls below
/// the despawn threshold is removed, and exactly one of the two terminal
/// effects happens — a blood cell charges the patient's health and leaves
/// the score alone, a germ scores and leaves the health alone. Never both,
/// never neither.
pub proof fn lemma_despawn_bookkeeping(b: Body, sb: Scoreboard, arena: Boundaries, dt: int)
    requires
        b.is_cell(),
        eased_radius(b.radius as int, b.cell().target_radius as int, dt) < DESPAWN_RADIUS,
    ensures
        lifecycle_cell_spec(b, sb, arena, dt).0 is None,
        b.cell().cell_type is Blood ==> {
            &&& lifecycle_cell_spec(b, sb, arena, dt).1 == patient_delta_applied(
                sb, -b.cell().cell_type->Blood_patient_hp)
            &&& lifecycle_cell_spec(b, sb, arena, dt).1.score == sb.score
        },
        b.cell().cell_type is Germ ==> {
            &&& lifecycle_cell_spec(b, sb, arena, dt).1.score == score_incremented(sb.score)
            &&& lifecycle_cell_spec(b, sb, arena, dt).1.patient_hp == sb.patient_hp
        },
{
}

/// The registry and scoreboard after the first `n` entries have passed the
/// cell lifecycle in order; removed cells drop out of the sequence.
pub open spec fn lifecycle_upto(
    bs: Seq<Body>,
    sb: Scoreboard,
    arena: Boundaries,
    dt: int,
    n: nat,
) -> (Seq<Body>, Scoreboard)
    decreases n,
{
    if n == 0 {
        (Seq::empty(), sb)
    } else {
        let prev = lifecycle_upto(bs, sb, arena, dt, (n - 1) as nat);
        let st = lifecycle_cell_spec(bs[n - 1], prev.1, arena, dt);
        (
            match st.0 {
                Some(nb) => prev.0.push(nb),
                None => prev.0,
            },
            st.1,
        )
    }
}

/// Run every cell through the lifecycle rules of one tick.
pub fn cell_despawner(
    bodies: &mut Vec<Body>,
    sb: &mut Scoreboard,
    arena: &Boundaries,
    dt: i64,
)
    requires
        forall|i: int| 0 <= i < old(bodies)@.len() ==> (#[trigger] old(bodies)@[i]).wf(),
        old(bodies)@.len() >= 1,
        old(bodies)@[0].is_player(),
        forall|i: int| 1 <= i < old(bodies)@.len() ==> !(#[trigger] old(bodies)@[i]).is_player(),
        old(sb).wf(),
        arena.wf(),
        0 < dt <= DT_CAP,
    ensures
        ({
            let r = lifecycle_upto(old(bodies)@, *old(sb), *arena, dt as int,
                old(bodies)@.len() as nat);
            &&& final(bodies)@ == r.0
            &&& *final(sb) == r.1
        }),
        forall|i: int| 0 <= i < final(bodies)@.len() ==> (#[trigger] final(bodies)@[i]).wf(),
        final(bodies)@.len() >= 1,
        final(bodies)@[0] == old(bodies)@[0],
        forall|i: int| 1 <= i < final(bodies)@.len() ==> !(#[trigger] final(bodies)@[i]).is_player(),
        final(sb).wf(),
        old(sb).score <= final(sb).score,
{
    let ghost bs0 = bodies@;
    let ghost sb0 = *sb;
    let n = bodies.len();
    let mut out: Vec<Body> = Vec::new();
    let mut i: usize = 0;
    while i < n
        invariant
            n == bs0.len() && n == bodies@.len(),
            bodies@ == bs0,
            i <= n,
            arena.wf(),
            0 < dt <= DT_CAP,
            forall|j: int| 0 <= j < n ==> (#[trigger] bs0[j]).wf(),
            bs0[0].is_player(),
            forall|j: int| 1 <= j < n ==> !(#[trigger] bs0[j]).is_player(),
            ({
                let r = lifecycle_upto(bs0, sb0, *arena, dt as int, i as nat);
                &&& out@ == r.0
                &&& *sb == r.1
            }),
            forall|j: int| 0 <= j < out@.len() ==> (#[trigger] out@[j]).wf(),
            i >= 1 ==> out@.len() >= 1 && out@[0] == bs0[0],
            forall|j: int| 1 <= j < out@.len() ==> !(#[trigger] out@[j]).is_player(),
            sb.wf(),
            sb0.score <= sb.score,
        decreases n - i,
    {
        let b = bodies[i];
        if !b.is_cell() {
            out.push(b);
        } else {
            let (c_type, c_target, c_top, c_pass) = match b.role {
                Role::Cell(c) => (c.cell_type, c.target_radius, c.top_bound, c.patient_hp),
                _ => (CellType::Germ, 0, 0, 0),
            };
            proof {
                lemma_mul_cap(RADIUS_EASE_RATE as int, dt as int, RADIUS_EASE_RATE as int,
                    MICROS as int);
                lemma_div_trunc_cap(RADIUS_EASE_RATE as int * dt as int, MICROS as int,
                    RADIUS_EASE_RATE as int);
                lemma_div_trunc_bound(RADIUS_EASE_RATE as int * dt as int, MICROS as int);
            }
            let ease = div_i64(RADIUS_EASE_RATE * dt, MICROS);
            let diff = c_target - b.radius;
            let r1 = if diff > ease {
                b.radius + ease
            } else if diff < -ease {
                b.radius - ease
            } else {
                c_target
            };
            assert(r1 == eased_radius(b.radius as int, c_target as int, dt as int));
            assert(0 <= r1 <= R_CAP);
            if r1 < DESPAWN_RADIUS {
                match c_type {
                    CellType::Blood { patient_hp } => {
                        sb.apply_patient_delta(-patient_hp);
                    },
                    CellType::Germ => {
                        sb.add_score();
                    },
                }
            } else if b.pos.y + r1 < arena.bottom {
                proof {
                    lemma_mul_cap(c_pass as int, r1 + PASS_RADIUS_OFFSET, 100,
                        R_CAP as int + PASS_RADIUS_OFFSET as int);
                    lemma_ceil_div_cap(
                        c_pass as int * (r1 + PASS_RADIUS_OFFSET),
                        PASS_RADIUS_DIV as int,
                        1_000int,
                    );
                }
                let credit = ceil_div_i64((c_pass as i64) * (r1 + PASS_RADIUS_OFFSET),
                    PASS_RADIUS_DIV);
                sb.apply_patient_delta(credit as i32);
            } else {
                let y1 = if b.pos.y + r1 > c_top {
                    c_top - r1
                } else {
                    b.pos.y
                };
                proof {
                    lemma_mul_cap(CELL_TOP_SCROLL as int, dt as int, CELL_TOP_SCROLL as int,
                        MICROS as int);
                    lemma_div_trunc_cap(CELL_TOP_SCROLL as int * dt as int, MICROS as int,
                        CELL_TOP_SCROLL as int);
                    lemma_div_trunc_bound(CELL_TOP_SCROLL as int * dt as int, MICROS as int);
                }
                let scroll = div_i64(CELL_TOP_SCROLL * dt, MICROS);
                let tb1 = if y1 + r1 - scroll > arena.top {
                    y1 + r1 - scroll
                } else {
                    arena.top
                };
                let target1 = if r1 < CRITICAL_RADIUS { 0 } else { c_target };
                out.push(Body {
                    pos: Vec2 { x: b.pos.x, y: y1 },
                    radius: r1,
                    role: Role::Cell(CellData {
                        cell_type: c_type,
                        target_radius: target1,
                        top_bound: tb1,
                        patient_hp: c_pass,
                    }),
                    ..b
                });
            }
        }
        i = i + 1;
    }
    *bodies = out;
}

/// One bullet through the exit rule: a bullet above the top bound plus the
/// exit margin has missed; it is removed, the zone it left through (right
/// of center or left) is charged the fixed risk, and that zone's mailbox
/// records the risk as it stood before the charge.
pub open spec fn bullet_exit_spec(
    b: Body,
    fx: SideEffects,
    ev: RiskEvents,
    arena: Boundaries,
) -> (Option<Body>, SideEffects, RiskEvents) {
    if !b.is_bullet() || b.pos.y <= arena.top + BULLET_EXIT_MARGIN {
        (Some(b), fx, ev)
    } else if b.pos.x > 0 {
        (
            None,
            SideEffects {
                right: ZoneState { risk: risk_bumped(fx.right.risk), ..fx.right },
                ..fx
            },
            RiskEvents { right: Some(fx.right.risk), ..ev },
        )
    } else {
        (
            None,
            SideEffects {
                left: ZoneState { risk: risk_bumped(fx.left.risk), ..fx.left },
                ..fx
            },
            RiskEvents { left: Some(fx.left.risk), ..ev },
        )
    }
}

/// The registry, side-effect state and risk mailbox after the first `n`
/// entries have passed the bullet exit rule in order.
pub open spec fn bullet_exit_upto(
    bs: Seq<Body>,
    fx: SideEffects,
    ev: RiskEvents,
    arena: Boundaries,
    n: nat,
) -> (Seq<Body>, SideEffects, RiskEvents)
    decreases n,
{
    if n == 0 {
        (Seq::empty(), fx, ev)
    } else {
        let prev = bullet_exit_upto(bs, fx, ev, arena, (n - 1) as nat);
        let st = bullet_exit_spec(bs[n - 1], prev.1, prev.2, arena);
        (
            match st.0 {
                Some(nb) => prev.0.push(nb),
                None => prev.0,
            },
            st.1,
            st.2,
        )
    }
}

/// Remove every bullet that left through the top, charging zone risk and
/// filling the risk mailbox.
pub fn player_bullet_despawner(
    bodies: &mut Vec<Body>,
    fx: &mut SideEffects,
    ev: &mut RiskEvents,
    arena: &Boundaries,
)
    requires
        forall|i: int| 0 <= i < old(bodies)@.len() ==> (#[trigger] old(bodies)@[i]).wf(),
        old(bodies)@.len() >= 1,
        old(bodies)@[0].is_player(),
        forall|i: int| 1 <= i < old(bodies)@.len() ==> !(#[trigger] old(bodies)@[i]).is_player(),
        old(fx).wf(),
        arena.wf(),
    ensures
        ({
            let r = bullet_exit_upto(old(bodies)@, *old(fx), *old(ev), *arena,
                old(bodies)@.len() as nat);
            &&& final(bodies)@ == r.0
            &&& *final(fx) == r.1
            &&& *final(ev) == r.2
        }),
        forall|i: int| 0 <= i < final(bodies)@.len() ==> (#[trigger] final(bodies)@[i]).wf(),
        final(bodies)@.len() >= 1,
        final(bodies)@[0] == old(bodies)@[0],
        forall|i: int| 1 <= i < final(bodies)@.len() ==> !(#[trigger] final(bodies)@[i]).is_player(),
        final(fx).wf(),
{
    let ghost bs0 = bodies@;
    let ghost fx0 = *fx;
    let ghost ev0 = *ev;
    let n = bodies.len();
    let mut out: Vec<Body> = Vec::new();
    let mut i: usize = 0;
    while i < n
        invariant
            n == bs0.len() && n == bodies@.len(),
            bodies@ == bs0,
            i <= n,
            arena.wf(),
            forall|j: int| 0 <= j < n ==> (#[trigger] bs0[j]).wf(),
            bs0[0].is_player(),
            forall|j: int| 1 <= j < n ==> !(#[trigger] bs0[j]).is_player(),
            ({
                let r = bullet_exit_upto(bs0, fx0, ev0, *arena, i as nat);
                &&& out@ == r.0
                &&& *fx == r.1
                &&& *ev == r.2
            }),
            forall|j: int| 0 <= j < out@.len() ==> (#[trigger] out@[j]).wf(),
            i >= 1 ==> out@.len() >= 1 && out@[0] == bs0[0],
            forall|j: int| 1 <= j < out@.len() ==> !(#[trigger] out@[j]).is_player(),
            fx.wf(),
        decreases n - i,
    {
        let b = bodies[i];
        if b.is_bullet() && b.pos.y > arena.top + BULLET_EXIT_MARGIN {
            if b.pos.x > 0 {
                ev.right = Some(fx.right.risk);
                if fx.right.risk <= RISK_CAP - PLAYER_BULLET_EFFECT_RISK {
                    fx.right.risk = fx.right.risk + PLAYER_BULLET_EFFECT_RISK;
                }
            } else {
                ev.left = Some(fx.left.risk);
                if fx.left.risk <= RISK_CAP - PLAYER_BULLET_EFFECT_RISK {
                    fx.left.risk = fx.left.risk + PLAYER_BULLET_EFFECT_RISK;
                }
            }
        } else {
            out.push(b);
        }
        i = i + 1;
    }
    *bodies = out;
}

} // verus!
