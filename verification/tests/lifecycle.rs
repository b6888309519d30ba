//! Growth easing, despawn bookkeeping, pass credit and missed-bullet risk
//! on concrete values.

use sidevein::arena::Boundaries;
use sidevein::body::{Body, CellData, CellType, Role, Vec2};
use sidevein::config::{SIDE_EFFECT_DURATION, LEFT_ZONE_X, RIGHT_ZONE_X};
use sidevein::effects::{RiskEvents, SideEffects, SideEffectType, ZoneState};
use sidevein::lifecycle::{cell_despawner, player_bullet_despawner};
use sidevein::score::Scoreboard;

fn player() -> Body {
    Body {
        id: 0,
        pos: Vec2 { x: 0, y: 0 },
        vel: Vec2 { x: 0, y: 0 },
        acc: Vec2 { x: 0, y: 0 },
        radius: 15_000,
        elasticity: 500,
        role: Role::Player,
    }
}

fn cell(x: i64, y: i64, radius: i64, target: i64, cell_type: CellType, pass_hp: i32) -> Body {
    Body {
        id: 1,
        pos: Vec2 { x, y },
        vel: Vec2 { x: 0, y: 0 },
        acc: Vec2 { x: 0, y: 0 },
        radius,
        elasticity: 900,
        role: Role::Cell(CellData {
            cell_type,
            target_radius: target,
            top_bound: y + radius,
            patient_hp: pass_hp,
        }),
    }
}

fn bullet(x: i64, y: i64) -> Body {
    Body {
        id: 2,
        pos: Vec2 { x, y },
        vel: Vec2 { x: 0, y: 600_000 },
        acc: Vec2 { x: 0, y: 0 },
        radius: 4_000,
        elasticity: 900,
        role: Role::Bullet,
    }
}

fn quiet_effects() -> SideEffects {
    SideEffects {
        left: ZoneState {
            risk: 0,
            effect: SideEffectType::NoEffect,
            remaining: SIDE_EFFECT_DURATION,
            zone_x: LEFT_ZONE_X,
        },
        right: ZoneState {
            risk: 0,
            effect: SideEffectType::NoEffect,
            remaining: SIDE_EFFECT_DURATION,
            zone_x: RIGHT_ZONE_X,
        },
    }
}

fn target_radius_of(b: &Body) -> i64 {
    match b.role {
        Role::Cell(c) => c.target_radius,
        _ => panic!("not a cell"),
    }
}

#[test]
fn radius_shrinks_by_one_ease_step() {
    let arena = Boundaries::default();
    let mut sb = Scoreboard::default();
    // 100 units/s for 6944 us moves the radius by 694 milliunits
    let mut bodies = vec![player(), cell(200_000, 0, 45_000, 33_000, CellType::Germ, -10)];
    cell_despawner(&mut bodies, &mut sb, &arena, 6_944);
    assert_eq!(bodies[1].radius, 44_306);
    cell_despawner(&mut bodies, &mut sb, &arena, 6_944);
    assert_eq!(bodies[1].radius, 43_612);
}

#[test]
fn radius_never_overshoots_target() {
    let arena = Boundaries::default();
    let mut sb = Scoreboard::default();
    let mut bodies = vec![player(), cell(200_000, 0, 33_500, 33_000, CellType::Germ, -10)];
    cell_despawner(&mut bodies, &mut sb, &arena, 6_944);
    assert_eq!(bodies[1].radius, 33_000);
    cell_despawner(&mut bodies, &mut sb, &arena, 6_944);
    assert_eq!(bodies[1].radius, 33_000);
}

#[test]
fn critical_radius_forces_death_spiral() {
    let arena = Boundaries::default();
    let mut sb = Scoreboard::default();
    // radius ends below the critical threshold: target forced to zero even
    // though the stored target would let it regrow
    let mut bodies = vec![player(), cell(200_000, 0, 15_000, 45_000, CellType::Germ, -10)];
    cell_despawner(&mut bodies, &mut sb, &arena, 6_944);
    assert_eq!(bodies.len(), 2);
    assert_eq!(bodies[1].radius, 15_694);
    assert_eq!(target_radius_of(&bodies[1]), 0);
}

#[test]
fn germ_despawn_scores_without_health_change() {
    let arena = Boundaries::default();
    let mut sb = Scoreboard::default();
    let mut bodies = vec![player(), cell(200_000, 0, 4_000, 0, CellType::Germ, -10)];
    cell_despawner(&mut bodies, &mut sb, &arena, 6_944);
    assert_eq!(bodies.len(), 1);
    assert_eq!(sb.score, 1);
    assert_eq!(sb.patient_hp, 100);
}

#[test]
fn blood_despawn_costs_health_without_score() {
    let arena = Boundaries::default();
    let mut sb = Scoreboard::default();
    let mut bodies = vec![
        player(),
        cell(200_000, 0, 4_000, 0, CellType::Blood { patient_hp: 10 }, 1),
    ];
    cell_despawner(&mut bodies, &mut sb, &arena, 6_944);
    assert_eq!(bodies.len(), 1);
    assert_eq!(sb.score, 0);
    assert_eq!(sb.patient_hp, 90);
}

#[test]
fn blood_cell_passing_bottom_credits_health() {
    let arena = Boundaries::default();
    let mut sb = Scoreboard::default();
    sb.patient_hp = 50;
    // below the bottom bound with full spawn radius: credit is
    // ceil(1 * (45 + 5) / 50) = 1
    let mut bodies = vec![
        player(),
        cell(0, -410_000, 45_000, 45_000, CellType::Blood { patient_hp: 10 }, 1),
    ];
    cell_despawner(&mut bodies, &mut sb, &arena, 6_944);
    assert_eq!(bodies.len(), 1);
    assert_eq!(sb.patient_hp, 51);
    assert_eq!(sb.score, 0);
}

#[test]
fn germ_passing_bottom_costs_health() {
    let arena = Boundaries::default();
    let mut sb = Scoreboard::default();
    // germ slipping through: ceil(-10 * (45 + 5) / 50) = -10
    let mut bodies = vec![player(), cell(0, -410_000, 45_000, 45_000, CellType::Germ, -10)];
    cell_despawner(&mut bodies, &mut sb, &arena, 6_944);
    assert_eq!(bodies.len(), 1);
    assert_eq!(sb.patient_hp, 90);
}

#[test]
fn health_credit_clamps_at_ceiling() {
    let arena = Boundaries::default();
    let mut sb = Scoreboard::default();
    assert_eq!(sb.patient_hp, 100);
    let mut bodies = vec![
        player(),
        cell(0, -410_000, 45_000, 45_000, CellType::Blood { patient_hp: 10 }, 1),
    ];
    cell_despawner(&mut bodies, &mut sb, &arena, 6_944);
    assert_eq!(sb.patient_hp, 100);
}

#[test]
fn cell_kept_under_its_top_bound() {
    let arena = Boundaries::default();
    let mut sb = Scoreboard::default();
    let mut c = cell(0, 500_000, 45_000, 45_000, CellType::Germ, -10);
    match &mut c.role {
        Role::Cell(d) => d.top_bound = 500_000,
        _ => unreachable!(),
    }
    let mut bodies = vec![player(), c];
    cell_despawner(&mut bodies, &mut sb, &arena, 6_944);
    // y + radius exceeded the bound: clamped to top_bound - radius
    assert_eq!(bodies[1].pos.y, 455_000);
}

#[test]
fn missed_bullet_charges_zone_risk() {
    let arena = Boundaries::default();
    let mut fx = quiet_effects();
    let mut ev = RiskEvents::none();
    // one miss on each side, above top + margin (360 + 120)
    let mut bodies = vec![player(), bullet(150_000, 481_000), bullet(-150_000, 481_000)];
    player_bullet_despawner(&mut bodies, &mut fx, &mut ev, &arena);
    assert_eq!(bodies.len(), 1);
    assert_eq!(fx.right.risk, 10);
    assert_eq!(fx.left.risk, 10);
    // the mailbox records the risk as it stood before the charge
    assert_eq!(ev.right, Some(0));
    assert_eq!(ev.left, Some(0));
}

#[test]
fn bullet_below_exit_margin_survives() {
    let arena = Boundaries::default();
    let mut fx = quiet_effects();
    let mut ev = RiskEvents::none();
    let mut bodies = vec![player(), bullet(0, 470_000)];
    player_bullet_despawner(&mut bodies, &mut fx, &mut ev, &arena);
    assert_eq!(bodies.len(), 2);
    assert_eq!(fx.left.risk, 0);
    assert_eq!(fx.right.risk, 0);
    assert!(ev.left.is_none() && ev.right.is_none());
}

#[test]
fn repeated_misses_accumulate_risk_in_steps() {
    let arena = Boundaries::default();
    let mut fx = quiet_effects();
    for miss in 1..=12 {
        let mut ev = RiskEvents::none();
        let mut bodies = vec![player(), bullet(10_000, 481_000)];
        player_bullet_despawner(&mut bodies, &mut fx, &mut ev, &arena);
        assert_eq!(fx.right.risk, 10 * miss);
        assert_eq!(ev.right, Some(10 * (miss - 1)));
    }
}
