//! The fixed-timestep kinematics integrator: advances velocity by
//! acceleration and position by velocity (scaled by the zone multiplier at
//! the body's pre-update x), then resolves side-wall contacts elastically.

use vstd::prelude::*;
use crate::arena::Boundaries;
use crate::body::{Body, Vec2};
use crate::config::{MICROS, SCALE_MILLI, POS_CAP, VEL_CAP, ACC_CAP, DT_CAP};
use crate::effects::{SideEffects, SideEffectType, movement_mult_num, movement_mult_den};
use crate::num::{clamp_spec, div_trunc, clamp_i64, div_i64, lemma_div_trunc_cap, lemma_mul_cap};

verus! {

/// The effect governing a body whose pre-update x is `x`: the right zone's
/// effect beyond the right zone line, the left zone's beyond the left one,
/// none in between.
pub open spec fn zone_effect_at(fx: SideEffects, x: int) -> SideEffectType {
    if x > fx.right.zone_x {
        fx.right.effect
    } else if x < fx.left.zone_x {
        fx.left.effect
    } else {
        SideEffectType::NoEffect
    }
}

/// One velocity component after one step of `dt` microseconds, capped.
pub open spec fn vel_step(v: int, a: int, dt: int) -> int {
    clamp_spec(v + div_trunc(a * dt, MICROS as int), -(VEL_CAP as int), VEL_CAP as int)
}

/// One position component after one step, with the zone multiplier
/// `num / den` applied to the displacement, capped.
pub open spec fn pos_step(p: int, v: int, dt: int, num: int, den: int) -> int {
    clamp_spec(
        p + div_trunc(v * dt * num, MICROS as int * den),
        -(POS_CAP as int),
        POS_CAP as int,
    )
}

/// A body after one full integration step against `arena` under the zone
/// effects `fx`: velocity accumulates acceleration, position accumulates the
/// new velocity times the zone multiplier at the old x, and a side-wall
/// crossing clamps x to the wall and reverses the horizontal velocity scaled
/// by the body's restitution.
pub open spec fn integrate_spec(b: Body, fx: SideEffects, arena: Boundaries, dt: int) -> Body {
    let e = zone_effect_at(fx, b.pos.x as int);
    let num = movement_mult_num(e);
    let den = movement_mult_den(e);
    let vx = vel_step(b.vel.x as int, b.acc.x as int, dt);
    let vy = vel_step(b.vel.y as int, b.acc.y as int, dt);
    let px = pos_step(b.pos.x as int, vx, dt, num, den);
    let py = pos_step(b.pos.y as int, vy, dt, num, den);
    let hit_left = px - b.radius < arena.left_wall;
    let hit_right = !hit_left && px + b.radius > arena.right_wall;
    let px2 = if hit_left {
        arena.left_wall + b.radius
    } else if hit_right {
        arena.right_wall - b.radius
    } else {
        px
    };
    let vx2 = if hit_left || hit_right {
        -div_trunc(vx * b.elasticity, SCALE_MILLI as int)
    } else {
        vx
    };
    Body {
        pos: Vec2 { x: px2 as i64, y: py as i64 },
        vel: Vec2 { x: vx2 as i64, y: vy as i64 },
        ..b
    }
}

/// Advance one body by one timestep; the exact result is `integrate_spec`.
pub fn integrate_body(b: &mut Body, fx: &SideEffects, arena: &Boundaries, dt: i64)
    requires
        old(b).wf(),
        fx.wf(),
        arena.wf(),
        0 < dt <= DT_CAP,
    ensures
        *final(b) == integrate_spec(*old(b), *fx, *arena, dt as int),
        final(b).wf(),
{
    let eff = if b.pos.x > fx.right.zone_x {
        fx.right.effect
    } else if b.pos.x < fx.left.zone_x {
        fx.left.effect
    } else {
        SideEffectType::NoEffect
    };
    let (num, den) = eff.movement_multiplier();
    assert(1 <= num <= 2 && 1 <= den <= 2);

    proof {
        lemma_mul_cap(old(b).acc.x as int, dt as int, ACC_CAP as int, MICROS as int);
        lemma_mul_cap(old(b).acc.y as int, dt as int, ACC_CAP as int, MICROS as int);
        lemma_div_trunc_cap(old(b).acc.x * dt, MICROS as int, ACC_CAP as int);
        lemma_div_trunc_cap(old(b).acc.y * dt, MICROS as int, ACC_CAP as int);
    }
    let dvx = div_i64(b.acc.x * dt, MICROS);
    let dvy = div_i64(b.acc.y * dt, MICROS);
    let vx = clamp_i64(b.vel.x + dvx, -VEL_CAP, VEL_CAP);
    let vy = clamp_i64(b.vel.y + dvy, -VEL_CAP, VEL_CAP);

    let scaled_dt = MICROS * den;
    proof {
        lemma_mul_cap(vx as int, dt as int, VEL_CAP as int, MICROS as int);
        lemma_mul_cap(vy as int, dt as int, VEL_CAP as int, MICROS as int);
        lemma_mul_cap(vx * dt, num as int, VEL_CAP as int * MICROS as int, 2);
        lemma_mul_cap(vy * dt, num as int, VEL_CAP as int * MICROS as int, 2);
        lemma_div_trunc_cap(vx * dt * num, scaled_dt as int, 2 * VEL_CAP as int);
        lemma_div_trunc_cap(vy * dt * num, scaled_dt as int, 2 * VEL_CAP as int);
    }
    let dpx = div_i64(vx * dt * num, scaled_dt);
    let dpy = div_i64(vy * dt * num, scaled_dt);
    let px = clamp_i64(b.pos.x + dpx, -POS_CAP, POS_CAP);
    let py = clamp_i64(b.pos.y + dpy, -POS_CAP, POS_CAP);

    let r = b.radius;
    if px - r < arena.left_wall {
        proof {
            lemma_mul_cap(vx as int, old(b).elasticity as int, VEL_CAP as int, SCALE_MILLI as int);
            lemma_div_trunc_cap(vx * old(b).elasticity, SCALE_MILLI as int, VEL_CAP as int);
        }
        b.pos = Vec2 { x: arena.left_wall + r, y: py };
        b.vel = Vec2 { x: -div_i64(vx * b.elasticity, SCALE_MILLI), y: vy };
    } else if px + r > arena.right_wall {
        proof {
            lemma_mul_cap(vx as int, old(b).elasticity as int, VEL_CAP as int, SCALE_MILLI as int);
            lemma_div_trunc_cap(vx * old(b).elasticity, SCALE_MILLI as int, VEL_CAP as int);
        }
        b.pos = Vec2 { x: arena.right_wall - r, y: py };
        b.vel = Vec2 { x: -div_i64(vx * b.elasticity, SCALE_MILLI), y: vy };
    } else {
        b.pos = Vec2 { x: px, y: py };
        b.vel = Vec2 { x: vx, y: vy };
    }
}

/// Advance every body in the registry by one timestep.
pub fn integrate_all(bodies: &mut Vec<Body>, fx: &SideEffects, arena: &Boundaries, dt: i64)
    requires
        forall|i: int| 0 <= i < old(bodies)@.len() ==> #[trigger] old(bodies)@[i].wf(),
        fx.wf(),
        arena.wf(),
        0 < dt <= DT_CAP,
    ensures
        final(bodies)@.len() == old(bodies)@.len(),
        forall|i: int| 0 <= i < old(bodies)@.len() ==> #[trigger] final(bodies)@[i]
            == integrate_spec(old(bodies)@[i], *fx, *arena, dt as int),
        forall|i: int| 0 <= i < final(bodies)@.len() ==> #[trigger] final(bodies)@[i].wf(),
        forall|i: int| 0 <= i < final(bodies)@.len()
            ==> crate::body::same_kind(#[trigger] final(bodies)@[i], old(bodies)@[i]),
{
    let n = bodies.len();
    let mut i: usize = 0;
    while i < n
        invariant
            n == bodies@.len() == old(bodies)@.len(),
            i <= n,
            fx.wf(),
            arena.wf(),
            0 < dt <= DT_CAP,
            forall|j: int| i <= j < n ==> #[trigger] bodies@[j] == old(bodies)@[j],
            forall|j: int| 0 <= j < n ==> #[trigger] old(bodies)@[j].wf(),
            forall|j: int| 0 <= j < i ==> #[trigger] bodies@[j]
                == integrate_spec(old(bodies)@[j], *fx, *arena, dt as int),
            forall|j: int| 0 <= j < i ==> #[trigger] bodies@[j].wf(),
            forall|j: int| 0 <= j < i
                ==> crate::body::same_kind(#[trigger] bodies@[j], old(bodies)@[j]),
        decreases n - i,
    {
        let mut b = bodies[i];
        integrate_body(&mut b, fx, arena, dt);
        bodies[i] = b;
        i = i + 1;
    }
}

/// A body after `n` integration steps of the same timestep.
pub open spec fn iterate_integrate(
    b: Body,
    fx: SideEffects,
    arena: Boundaries,
    dt: int,
    n: nat,
) -> Body
    decreases n,
{
    if n == 0 {
        b
    } else {
        integrate_spec(iterate_integrate(b, fx, arena, dt, (n - 1) as nat), fx, arena, dt)
    }
}

/// A body at rest stays exactly in place: with zero velocity and zero
/// acceleration, standing between the side walls, one integration step
/// changes nothing.
pub proof fn lemma_rest_stays_put(b: Body, fx: SideEffects, arena: Boundaries, dt: int)
    requires
        b.wf(),
        arena.wf(),
        0 < dt <= DT_CAP,
        b.vel == (Vec2 { x: 0i64, y: 0i64 }),
        b.acc == (Vec2 { x: 0i64, y: 0i64 }),
        arena.left_wall <= b.pos.x - b.radius,
        b.pos.x + b.radius <= arena.right_wall,
    ensures
        integrate_spec(b, fx, arena, dt) == b,
{
    let e = zone_effect_at(fx, b.pos.x as int);
    let num = movement_mult_num(e);
    let den = movement_mult_den(e);
    vstd::arithmetic::div_mod::lemma_div_of0(MICROS as int);
    vstd::arithmetic::div_mod::lemma_div_of0(MICROS as int * den);
    assert(vel_step(0, 0, dt) == 0);
    assert(pos_step(b.pos.x as int, 0, dt, num, den) == b.pos.x as int);
    assert(pos_step(b.pos.y as int, 0, dt, num, den) == b.pos.y as int);
}

/// A body at rest stays in place over any number of ticks.
pub proof fn lemma_rest_stays_put_forever(
    b: Body,
    fx: SideEffects,
    arena: Boundaries,
    dt: int,
    n: nat,
)
    requires
        b.wf(),
        arena.wf(),
        0 < dt <= DT_CAP,
        b.vel == (Vec2 { x: 0i64, y: 0i64 }),
        b.acc == (Vec2 { x: 0i64, y: 0i64 }),
        arena.left_wall <= b.pos.x - b.radius,
        b.pos.x + b.radius <= arena.right_wall,
    ensures
        iterate_integrate(b, fx, arena, dt, n) == b,
    decreases n,
{
    if n > 0 {
        lemma_rest_stays_put_forever(b, fx, arena, dt, (n - 1) as nat);
        lemma_rest_stays_put(b, fx, arena, dt);
    }
}

/// Wall reflection: a body moving left at speed `s` with no horizontal
/// acceleration whose position update crosses the left bound ends the tick
/// clamped to `left_wall + radius`, with its horizontal velocity reversed and
/// scaled by its restitution.
pub proof fn lemma_wall_reflection(b: Body, fx: SideEffects, arena: Boundaries, dt: int, s: int)
    requires
        b.wf(),
        arena.wf(),
        0 < dt <= DT_CAP,
        0 < s,
        b.vel.x == -s,
        b.acc.x == 0,
        ({
            let e = zone_effect_at(fx, b.pos.x as int);
            pos_step(
                b.pos.x as int,
                -s,
                dt,
                movement_mult_num(e),
                movement_mult_den(e),
            ) - b.radius < arena.left_wall
        }),
    ensures
        integrate_spec(b, fx, arena, dt).pos.x == arena.left_wall + b.radius,
        integrate_spec(b, fx, arena, dt).vel.x == div_trunc(
            s * b.elasticity,
            SCALE_MILLI as int,
        ),
{
    vstd::arithmetic::div_mod::lemma_div_of0(MICROS as int);
    vstd::arithmetic::div_mod::lemma_div_of0(SCALE_MILLI as int);
    assert(vel_step(-s, 0, dt) == -s);
    let t = s * b.elasticity;
    assert(t >= 0) by (nonlinear_arith)
        requires
            t == s * b.elasticity,
            s > 0,
            b.elasticity >= 0,
    ;
    lemma_mul_cap(s, b.elasticity as int, VEL_CAP as int, SCALE_MILLI as int);
    lemma_div_trunc_cap(t, SCALE_MILLI as int, VEL_CAP as int);
    assert((-s) * b.elasticity == -t) by (nonlinear_arith)
        requires
            t == s * b.elasticity,
    ;
    assert(div_trunc(-t, SCALE_MILLI as int) == -div_trunc(t, SCALE_MILLI as int));
}

} // verus!
