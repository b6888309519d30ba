//! Numeric helpers, the integrator and the collision resolver on concrete
//! values.

use sidevein::arena::Boundaries;
use sidevein::body::{Body, Role, Vec2};
use sidevein::collision::elastic_collision;
use sidevein::collision::elastic_deltas;
use sidevein::config::{SIDE_EFFECT_DURATION, RIGHT_ZONE_X, LEFT_ZONE_X};
use sidevein::effects::{SideEffects, SideEffectType, ZoneState};
use sidevein::integrator::{integrate_all, integrate_body};
use sidevein::num::{ceil_div_i64, clamp_i64, div_i64, isqrt_u64};

fn quiet_effects() -> SideEffects {
    SideEffects {
        left: ZoneState {
            risk: 0,
            effect: SideEffectType::NoEffect,
            remaining: SIDE_EFFECT_DURATION,
            zone_x: LEFT_ZONE_X,
        },
        right: ZoneState {
            risk: 0,
            effect: SideEffectType::NoEffect,
            remaining: SIDE_EFFECT_DURATION,
            zone_x: RIGHT_ZONE_X,
        },
    }
}

fn plain_body(x: i64, y: i64, radius: i64) -> Body {
    Body {
        id: 7,
        pos: Vec2 { x, y },
        vel: Vec2 { x: 0, y: 0 },
        acc: Vec2 { x: 0, y: 0 },
        radius,
        elasticity: 500,
        role: Role::Player,
    }
}

#[test]
fn div_truncates_toward_zero() {
    assert_eq!(div_i64(7, 2), 3);
    assert_eq!(div_i64(-7, 2), -3);
    assert_eq!(div_i64(6, 3), 2);
    assert_eq!(div_i64(-6, 3), -2);
    assert_eq!(div_i64(0, 5), 0);
}

#[test]
fn ceil_div_rounds_up() {
    assert_eq!(ceil_div_i64(7, 2), 4);
    assert_eq!(ceil_div_i64(6, 2), 3);
    assert_eq!(ceil_div_i64(-7, 2), -3);
    assert_eq!(ceil_div_i64(1, 50), 1);
    assert_eq!(ceil_div_i64(0, 50), 0);
}

#[test]
fn clamp_limits_both_sides() {
    assert_eq!(clamp_i64(5, 0, 10), 5);
    assert_eq!(clamp_i64(-5, 0, 10), 0);
    assert_eq!(clamp_i64(15, 0, 10), 10);
}

#[test]
fn isqrt_exact_values() {
    assert_eq!(isqrt_u64(0), 0);
    assert_eq!(isqrt_u64(1), 1);
    assert_eq!(isqrt_u64(24), 4);
    assert_eq!(isqrt_u64(25), 5);
    assert_eq!(isqrt_u64(1_000_000), 1_000);
    assert_eq!(isqrt_u64(2_000_000_000_000), 1_414_213);
}

#[test]
fn body_at_rest_stays_put() {
    let arena = Boundaries::default();
    let fx = quiet_effects();
    let mut bodies = vec![plain_body(10_000, -20_000, 15_000)];
    for _ in 0..100 {
        integrate_all(&mut bodies, &fx, &arena, 6_944);
    }
    assert_eq!(bodies[0].pos, Vec2 { x: 10_000, y: -20_000 });
    assert_eq!(bodies[0].vel, Vec2 { x: 0, y: 0 });
}

#[test]
fn wall_reflection_clamps_and_reverses() {
    let arena = Boundaries::default();
    let fx = quiet_effects();
    let mut b = plain_body(-310_000, 0, 15_000);
    b.vel = Vec2 { x: -600_000, y: 0 };
    integrate_body(&mut b, &fx, &arena, 6_944);
    // position update crosses the left wall: clamped to left + radius,
    // velocity reversed and scaled by the 0.5 restitution
    assert_eq!(b.pos.x, -305_000);
    assert_eq!(b.vel.x, 300_000);
}

#[test]
fn faster_zone_doubles_displacement() {
    let arena = Boundaries::default();
    let mut fx = quiet_effects();
    fx.right.effect = SideEffectType::FasterMovement;
    let mut inside = plain_body(200_000, 0, 10_000);
    inside.vel = Vec2 { x: 100_000, y: 0 };
    let mut outside = plain_body(0, 0, 10_000);
    outside.vel = Vec2 { x: 100_000, y: 0 };
    integrate_body(&mut inside, &fx, &arena, 10_000);
    integrate_body(&mut outside, &fx, &arena, 10_000);
    assert_eq!(outside.pos.x, 1_000);
    assert_eq!(inside.pos.x, 202_000);
}

#[test]
fn slower_zone_halves_displacement() {
    let arena = Boundaries::default();
    let mut fx = quiet_effects();
    fx.left.effect = SideEffectType::SlowerMovement;
    let mut inside = plain_body(-200_000, 0, 10_000);
    inside.vel = Vec2 { x: 100_000, y: 0 };
    integrate_body(&mut inside, &fx, &arena, 10_000);
    assert_eq!(inside.pos.x, -200_000 + 500);
}

#[test]
fn elastic_deltas_swap_equal_masses() {
    // equal masses exchange their along-speeds exactly
    let (d1, d2) = elastic_deltas(45_000, 45_000, 1_000, 0);
    assert_eq!(d2, 1_000);
    assert_eq!(d1, -1_000);
    // momentum along the normal is unchanged
    assert_eq!(45_000 * d1 + 45_000 * d2, 0);
}

#[test]
fn momentum_error_stays_below_total_mass() {
    // unequal masses: the along-normal momentum total moves by less than
    // one milliunit of speed per unit of total mass (division rounding)
    let cases: [(i64, i64, i64, i64); 4] = [
        (45_000, 15_000, 600_000, -200_000),
        (45_000, 4_000, -123_457, 98_765),
        (20_000, 45_000, 1, -1),
        (45_000, 45_000, 333_333, 111_112),
    ];
    for (m1, m2, s1, s2) in cases {
        let (d1, d2) = elastic_deltas(m1, m2, s1, s2);
        let total = m1 * d1 + m2 * d2;
        assert!(total.abs() < m1 + m2, "momentum drift {total} for {m1},{m2},{s1},{s2}");
    }
}

#[test]
fn coincident_centers_degenerate_overlap() {
    // overlapping bodies with the same center: reported as a hit, but with
    // no usable normal both are left exactly in place (documented edge case)
    let mut player = plain_body(0, 0, 15_000);
    let mut germ = plain_body(0, 0, 45_000);
    germ.role = Role::Bullet;
    let hit = elastic_collision(&mut player, &mut germ);
    assert!(hit);
    assert_eq!(player.pos, Vec2 { x: 0, y: 0 });
    assert_eq!(germ.pos, Vec2 { x: 0, y: 0 });
    assert_eq!(player.vel, Vec2 { x: 0, y: 0 });
    assert_eq!(germ.vel, Vec2 { x: 0, y: 0 });
}

#[test]
fn separated_bodies_do_not_interact() {
    let mut a = plain_body(0, 0, 10_000);
    let mut b = plain_body(100_000, 0, 10_000);
    let before_a = a;
    let before_b = b;
    let hit = elastic_collision(&mut a, &mut b);
    assert!(!hit);
    assert_eq!(a, before_a);
    assert_eq!(b, before_b);
}

#[test]
fn overlapping_bodies_are_pushed_apart() {
    // two stationary circles overlapping along the x axis get pushed apart
    // by 0.6 of the overlap depth along the center normal
    let mut a = plain_body(-10_000, 0, 20_000);
    let mut b = plain_body(10_000, 0, 20_000);
    let hit = elastic_collision(&mut a, &mut b);
    assert!(hit);
    // centers 20 apart, radius sum 40: overlap depth 20, push 12 split
    // between the two, along -x for a and +x for b
    assert!(a.pos.x < -10_000);
    assert!(b.pos.x > 10_000);
    assert_eq!(b.pos.x - a.pos.x, 20_000 + 24_000);
    assert_eq!(a.pos.y, 0);
    assert_eq!(b.pos.y, 0);
}
