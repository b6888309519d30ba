//! Translation of player intent: steering acceleration, the vertical hard
//! clamp that only the player receives, and the shoot decision with its
//! cooldown.

use vstd::prelude::*;
use crate::arena::Boundaries;
use crate::body::{Body, Role, Vec2};
use crate::collision::in_no_shoot_zone;
use crate::config::{
    PLAYER_ACCEL, PLAYER_ACCEL_DIAG, SHOOT_COOLDOWN, BULLET_RADIUS, BULLET_SPEED,
    BULLET_ELASTICITY, DT_CAP,
};
use crate::effects::SideEffects;

verus! {

/// The steering acceleration for a movement intent (each axis -1, 0 or 1):
/// full magnitude along a single axis, the diagonal component on both axes
/// when steering diagonally, zero at rest.
pub open spec fn steer_accel(mx: int, my: int) -> Vec2 {
    if mx != 0 && my != 0 {
        Vec2 { x: (mx * PLAYER_ACCEL_DIAG) as i64, y: (my * PLAYER_ACCEL_DIAG) as i64 }
    } else {
        Vec2 { x: (mx * PLAYER_ACCEL) as i64, y: (my * PLAYER_ACCEL) as i64 }
    }
}

/// The player body after input translation: its acceleration is the steering
/// for the intent, and — only for the player — the vertical position is hard
/// clamped to the arena, zeroing the outward velocity and acceleration
/// component at the edge.
pub open spec fn player_movement_spec(b: Body, mx: int, my: int, arena: Boundaries) -> Body {
    let a = steer_accel(mx, my);
    let top_bound = arena.top - b.radius;
    let bottom_bound = arena.bottom + b.radius;
    if b.pos.y < bottom_bound {
        Body {
            pos: Vec2 { x: b.pos.x, y: bottom_bound as i64 },
            vel: Vec2 { x: b.vel.x, y: if b.vel.y >= 0 { b.vel.y } else { 0i64 } },
            acc: Vec2 { x: a.x, y: if a.y >= 0 { a.y } else { 0i64 } },
            ..b
        }
    } else if b.pos.y > top_bound {
        Body {
            pos: Vec2 { x: b.pos.x, y: top_bound as i64 },
            vel: Vec2 { x: b.vel.x, y: if b.vel.y <= 0 { b.vel.y } else { 0i64 } },
            acc: Vec2 { x: a.x, y: if a.y <= 0 { a.y } else { 0i64 } },
            ..b
        }
    } else {
        Body { acc: a, ..b }
    }
}

/// Apply one tick of player intent to the player body.
pub fn player_movement(b: &mut Body, mx: i8, my: i8, arena: &Boundaries)
    requires
        old(b).wf(),
        old(b).is_player(),
        -1 <= mx <= 1,
        -1 <= my <= 1,
        arena.wf(),
        old(b).radius < arena.top - arena.bottom,
    ensures
        *final(b) == player_movement_spec(*old(b), mx as int, my as int, *arena),
        final(b).wf(),
        final(b).is_player(),
{
    let ax: i64;
    let ay: i64;
    if mx != 0 && my != 0 {
        ax = (mx as i64) * PLAYER_ACCEL_DIAG;
        ay = (my as i64) * PLAYER_ACCEL_DIAG;
    } else {
        ax = (mx as i64) * PLAYER_ACCEL;
        ay = (my as i64) * PLAYER_ACCEL;
    }
    let top_bound = arena.top - b.radius;
    let bottom_bound = arena.bottom + b.radius;
    if b.pos.y < bottom_bound {
        b.pos = Vec2 { x: b.pos.x, y: bottom_bound };
        b.vel = Vec2 { x: b.vel.x, y: if b.vel.y >= 0 { b.vel.y } else { 0 } };
        b.acc = Vec2 { x: ax, y: if ay >= 0 { ay } else { 0 } };
    } else if b.pos.y > top_bound {
        b.pos = Vec2 { x: b.pos.x, y: top_bound };
        b.vel = Vec2 { x: b.vel.x, y: if b.vel.y <= 0 { b.vel.y } else { 0 } };
        b.acc = Vec2 { x: ax, y: if ay <= 0 { ay } else { 0 } };
    } else {
        b.acc = Vec2 { x: ax, y: ay };
    }
}

/// The bullet a shot spawns: at the shooter's position, flying straight up.
pub open spec fn bullet_spawned(pos: Vec2, id: u64) -> Body {
    Body {
        id,
        pos,
        vel: Vec2 { x: 0i64, y: BULLET_SPEED },
        acc: Vec2 { x: 0i64, y: 0i64 },
        radius: BULLET_RADIUS,
        elasticity: BULLET_ELASTICITY,
        role: Role::Bullet,
    }
}

/// Decide one tick of shooting. The cooldown advances by `dt` (it never goes
/// below zero); a bullet is spawned exactly when the cooldown has fully
/// elapsed, the shoot input is held, and the player does not stand in a zone
/// under a no-shooting effect. Firing rearms the cooldown; an inhibited shot
/// does not.
pub fn player_shoot(
    cooldown: &mut i64,
    shoot_held: bool,
    player: &Body,
    fx: &SideEffects,
    dt: i64,
    id: u64,
) -> (r: Option<Body>)
    requires
        0 <= *old(cooldown) <= SHOOT_COOLDOWN,
        player.wf(),
        fx.wf(),
        0 < dt <= DT_CAP,
    ensures
        ({
            let elapsed = *old(cooldown) - dt <= 0;
            let fires = elapsed && shoot_held && !in_no_shoot_zone(*fx, player.pos.x as int);
            &&& fires <==> r == Some(bullet_spawned(player.pos, id))
            &&& !fires <==> r is None
            &&& *final(cooldown) == if fires {
                SHOOT_COOLDOWN as int
            } else if *old(cooldown) - dt <= 0 {
                0int
            } else {
                *old(cooldown) - dt
            }
        }),
        0 <= *final(cooldown) <= SHOOT_COOLDOWN,
        r is Some ==> r->0.wf() && r->0.is_bullet(),
{
    let rem = if *cooldown - dt <= 0 {
        0
    } else {
        *cooldown - dt
    };
    *cooldown = rem;
    if rem == 0 && shoot_held && !crate::collision::no_shoot_zone(fx, player.pos.x) {
        *cooldown = SHOOT_COOLDOWN;
        Some(Body {
            id,
            pos: player.pos,
            vel: Vec2 { x: 0, y: BULLET_SPEED },
            acc: Vec2 { x: 0, y: 0 },
            radius: BULLET_RADIUS,
            elasticity: BULLET_ELASTICITY,
            role: Role::Bullet,
        })
    } else {
        None
    }
}

} // verus!
