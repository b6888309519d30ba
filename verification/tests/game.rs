//! Game state transitions, the side-effect machine's surface, the spawner,
//! shooting, and whole-world scenario ticks.

use sidevein::arena::Boundaries;
use sidevein::body::{Body, CellData, CellType, Role, Vec2};
use sidevein::config::{SIDE_EFFECT_DURATION, LEFT_ZONE_X, RIGHT_ZONE_X};
use sidevein::effects::{
    effect_from_roll, side_effect_system, RiskEvents, SideEffects, SideEffectType, ZoneState,
};
use sidevein::player::player_shoot;
use sidevein::score::Scoreboard;
use sidevein::spawner::spawner_system;
use sidevein::state::{game_state_step, GameState};
use sidevein::world::{Input, World};

fn quiet_effects() -> SideEffects {
    SideEffects {
        left: ZoneState {
            risk: 0,
            effect: SideEffectType::NoEffect,
            remaining: SIDE_EFFECT_DURATION,
            zone_x: LEFT_ZONE_X,
        },
        right: ZoneState {
            risk: 0,
            effect: SideEffectType::NoEffect,
            remaining: SIDE_EFFECT_DURATION,
            zone_x: RIGHT_ZONE_X,
        },
    }
}

fn player() -> Body {
    Body {
        id: 0,
        pos: Vec2 { x: 0, y: 0 },
        vel: Vec2 { x: 0, y: 0 },
        acc: Vec2 { x: 0, y: 0 },
        radius: 15_000,
        elasticity: 500,
        role: Role::Player,
    }
}

#[test]
fn game_state_transitions() {
    assert_eq!(game_state_step(GameState::Init, true, false, false), GameState::Running);
    assert_eq!(game_state_step(GameState::Init, false, true, true), GameState::Init);
    assert_eq!(game_state_step(GameState::Running, false, false, true), GameState::Ended);
    assert_eq!(game_state_step(GameState::Running, true, true, false), GameState::Running);
    assert_eq!(game_state_step(GameState::Ended, false, true, false), GameState::Init);
    assert_eq!(game_state_step(GameState::Ended, true, false, true), GameState::Ended);
}

#[test]
fn scoreboard_clamps_health() {
    let mut sb = Scoreboard::default();
    assert_eq!(sb.score, 0);
    assert_eq!(sb.patient_hp, 100);
    sb.apply_patient_delta(-30);
    assert_eq!(sb.patient_hp, 70);
    sb.apply_patient_delta(50);
    assert_eq!(sb.patient_hp, 100);
    sb.apply_patient_delta(-200);
    assert_eq!(sb.patient_hp, 0);
    sb.add_score();
    sb.add_score();
    assert_eq!(sb.score, 2);
}

#[test]
fn movement_multiplier_values() {
    assert_eq!(SideEffectType::SlowerMovement.movement_multiplier(), (1, 2));
    assert_eq!(SideEffectType::FasterMovement.movement_multiplier(), (2, 1));
    assert_eq!(SideEffectType::NoEffect.movement_multiplier(), (1, 1));
    assert_eq!(SideEffectType::NoShooting.movement_multiplier(), (1, 1));
    assert_eq!(SideEffectType::NoKnockback.movement_multiplier(), (1, 1));
}

#[test]
fn effect_names() {
    assert_eq!(SideEffectType::NoEffect.name(), "None");
    assert_eq!(SideEffectType::SlowerMovement.name(), "Slower movement");
    assert_eq!(SideEffectType::FasterMovement.name(), "Faster movement");
    assert_eq!(SideEffectType::NoShooting.name(), "No shooting\nTouch to kill");
    assert_eq!(SideEffectType::NoKnockback.name(), "No bullet knockback");
}

#[test]
fn effect_roll_mapping() {
    assert_eq!(effect_from_roll(0), SideEffectType::SlowerMovement);
    assert_eq!(effect_from_roll(1), SideEffectType::FasterMovement);
    assert_eq!(effect_from_roll(2), SideEffectType::NoShooting);
    assert_eq!(effect_from_roll(3), SideEffectType::NoKnockback);
}

#[test]
fn zero_risk_event_never_activates() {
    // the activation roll is drawn from [0, 100): against a posted risk of
    // zero it can never succeed, whatever the generator returns
    let mut fx = quiet_effects();
    let ev = RiskEvents { left: Some(0), right: Some(0) };
    side_effect_system(&mut fx, &ev, 6_944);
    assert_eq!(fx.left.effect, SideEffectType::NoEffect);
    assert_eq!(fx.right.effect, SideEffectType::NoEffect);
    assert_eq!(fx.left.risk, 0);
    assert_eq!(fx.right.risk, 0);
}

#[test]
fn saturated_risk_event_always_activates() {
    // a posted risk at the threshold beats every possible roll: the zone
    // arms some concrete effect and consumes exactly one threshold
    let mut fx = quiet_effects();
    fx.right.risk = 130;
    let ev = RiskEvents { left: None, right: Some(100) };
    side_effect_system(&mut fx, &ev, 6_944);
    assert_ne!(fx.right.effect, SideEffectType::NoEffect);
    assert_eq!(fx.right.risk, 30);
    assert_eq!(fx.left.effect, SideEffectType::NoEffect);
}

#[test]
fn active_effect_counts_down_and_expires() {
    let mut fx = quiet_effects();
    fx.left.effect = SideEffectType::NoShooting;
    fx.left.remaining = 10_000;
    let ev = RiskEvents { left: None, right: None };
    side_effect_system(&mut fx, &ev, 6_944);
    assert_eq!(fx.left.effect, SideEffectType::NoShooting);
    assert_eq!(fx.left.remaining, 3_056);
    side_effect_system(&mut fx, &ev, 6_944);
    // expired: dormant again with the timer rearmed
    assert_eq!(fx.left.effect, SideEffectType::NoEffect);
    assert_eq!(fx.left.remaining, SIDE_EFFECT_DURATION);
}

#[test]
fn shoot_respects_cooldown() {
    let fx = quiet_effects();
    let p = player();
    let mut cooldown: i64 = 100_000;
    let shot = player_shoot(&mut cooldown, true, &p, &fx, 6_944, 5);
    assert!(shot.is_none());
    assert_eq!(cooldown, 93_056);
    let mut cooldown: i64 = 0;
    let shot = player_shoot(&mut cooldown, true, &p, &fx, 6_944, 5);
    let bullet = shot.expect("cooldown elapsed and trigger held");
    assert_eq!(bullet.vel, Vec2 { x: 0, y: 600_000 });
    assert_eq!(bullet.radius, 4_000);
    assert_eq!(bullet.pos, p.pos);
    assert!(matches!(bullet.role, Role::Bullet));
    assert_eq!(cooldown, 250_000);
}

#[test]
fn no_shooting_zone_blocks_the_shot() {
    let mut fx = quiet_effects();
    fx.left.effect = SideEffectType::NoShooting;
    let mut p = player();
    p.pos.x = -200_000;
    let mut cooldown: i64 = 0;
    let shot = player_shoot(&mut cooldown, true, &p, &fx, 6_944, 5);
    assert!(shot.is_none());
    // an inhibited shot does not rearm the cooldown
    assert_eq!(cooldown, 0);
}

#[test]
fn spawner_fires_when_no_cells_alive() {
    let arena = Boundaries::default();
    let mut bodies = vec![player()];
    let mut timer: i64 = 10_000_000;
    let mut next_id: u64 = 1;
    spawner_system(&mut bodies, &mut timer, &mut next_id, &arena, 0, 6_944);
    // at score 0 the batch holds 2 to 4 cells
    let spawned = bodies.len() - 1;
    assert!((2..=4).contains(&spawned));
    assert_eq!(timer, 10_000_000);
    for (i, b) in bodies.iter().enumerate().skip(1) {
        let idx = (i - 1) as i64;
        assert_eq!(b.radius, 45_000);
        assert_eq!(b.elasticity, 900);
        assert_eq!(b.acc, Vec2 { x: 0, y: -25_000 });
        assert!(b.pos.x >= arena.left_wall + 45_000);
        assert!(b.pos.x < arena.right_wall - 45_000);
        assert_eq!(b.pos.y, arena.top + 45_000 + 90_000 * idx);
        // score 0: horizontal jitter below 80, fall speed in [-110, -10]
        assert!(b.vel.x.abs() <= 80_000);
        assert!((-110_000..=-10_000).contains(&b.vel.y));
        match b.role {
            Role::Cell(c) => {
                assert_eq!(c.target_radius, 45_000);
                assert_eq!(c.top_bound, b.pos.y + 45_000);
                match c.cell_type {
                    CellType::Blood { patient_hp } => {
                        assert_eq!(patient_hp, 10);
                        assert_eq!(c.patient_hp, 1);
                    },
                    CellType::Germ => assert_eq!(c.patient_hp, -10),
                }
            },
            _ => panic!("spawner must spawn cells"),
        }
    }
}

#[test]
fn spawner_waits_while_cells_alive() {
    let arena = Boundaries::default();
    let mut bodies = vec![
        player(),
        Body {
            id: 1,
            pos: Vec2 { x: 0, y: 300_000 },
            vel: Vec2 { x: 0, y: 0 },
            acc: Vec2 { x: 0, y: 0 },
            radius: 45_000,
            elasticity: 900,
            role: Role::Cell(CellData {
                cell_type: CellType::Germ,
                target_radius: 45_000,
                top_bound: 345_000,
                patient_hp: -10,
            }),
        },
    ];
    let mut timer: i64 = 10_000_000;
    let mut next_id: u64 = 2;
    spawner_system(&mut bodies, &mut timer, &mut next_id, &arena, 0, 6_944);
    assert_eq!(bodies.len(), 2);
    assert_eq!(timer, 10_000_000 - 6_944);
}

#[test]
fn world_waits_in_init_until_started() {
    let mut w = World::new(Boundaries::default());
    let mut inp = Input::idle();
    w.tick(inp, 6_944);
    assert_eq!(w.state, GameState::Init);
    assert_eq!(w.bodies.len(), 1);
    inp.start_pressed = true;
    w.tick(inp, 6_944);
    assert_eq!(w.state, GameState::Running);
}

#[test]
fn bullet_consumed_germ_damaged_score_rises() {
    // a projectile flying up at a stationary germ: within a few ticks it
    // overlaps, is consumed, costs the germ one bullet's damage off its
    // target radius, and scores one point
    let mut w = World::new(Boundaries::default());
    w.state = GameState::Running;
    w.bodies.push(Body {
        id: 1,
        pos: Vec2 { x: 0, y: 100_000 },
        vel: Vec2 { x: 0, y: 600_000 },
        acc: Vec2 { x: 0, y: 0 },
        radius: 4_000,
        elasticity: 900,
        role: Role::Bullet,
    });
    w.bodies.push(Body {
        id: 2,
        pos: Vec2 { x: 0, y: 140_000 },
        vel: Vec2 { x: 0, y: 0 },
        acc: Vec2 { x: 0, y: 0 },
        radius: 45_000,
        elasticity: 900,
        role: Role::Cell(CellData {
            cell_type: CellType::Germ,
            target_radius: 45_000,
            top_bound: 500_000,
            patient_hp: -10,
        }),
    });
    let inp = Input::idle();
    let mut hit = false;
    for _ in 0..20 {
        w.tick(inp, 6_944);
        if w.scoreboard.score == 1 {
            hit = true;
            break;
        }
    }
    assert!(hit, "the bullet must hit the germ within a few ticks");
    // the bullet is gone; the germ's target radius took the bullet damage
    assert!(w.bodies.iter().all(|b| !matches!(b.role, Role::Bullet)));
    let germ = w
        .bodies
        .iter()
        .find(|b| matches!(b.role, Role::Cell(_)))
        .expect("germ still alive");
    match germ.role {
        Role::Cell(c) => assert_eq!(c.target_radius, 33_000),
        _ => unreachable!(),
    }
}

#[test]
fn lethal_despawn_ends_the_game_same_tick() {
    // health 10, a blood cell about to despawn with a 15-point impact:
    // the clamped health reaches 0 and the game ends within that tick
    let mut w = World::new(Boundaries::default());
    w.state = GameState::Running;
    w.scoreboard.patient_hp = 10;
    w.bodies.push(Body {
        id: 1,
        pos: Vec2 { x: 200_000, y: 0 },
        vel: Vec2 { x: 0, y: 0 },
        acc: Vec2 { x: 0, y: 0 },
        radius: 4_000,
        elasticity: 900,
        role: Role::Cell(CellData {
            cell_type: CellType::Blood { patient_hp: 15 },
            target_radius: 0,
            top_bound: 500_000,
            patient_hp: 1,
        }),
    });
    w.tick(Input::idle(), 6_944);
    assert_eq!(w.scoreboard.patient_hp, 0);
    assert_eq!(w.state, GameState::Ended);
}

#[test]
fn ended_game_freezes_without_restart() {
    let mut w = World::new(Boundaries::default());
    w.state = GameState::Ended;
    w.scoreboard.score = 42;
    w.scoreboard.patient_hp = 0;
    w.tick(Input::idle(), 6_944);
    assert_eq!(w.state, GameState::Ended);
    assert_eq!(w.scoreboard.score, 42);
    assert_eq!(w.bodies.len(), 1);
}

#[test]
fn snapshot_mirrors_the_registry() {
    let w = World::new(Boundaries::default());
    let s = w.snapshot();
    assert_eq!(s.len(), 1);
    let (id, pos, radius, role) = s[0];
    assert_eq!(id, 0);
    assert_eq!(pos, Vec2 { x: 0, y: 0 });
    assert_eq!(radius, 15_000);
    assert!(matches!(role, Role::Player));
}

#[test]
fn restart_resets_the_world() {
    let mut w = World::new(Boundaries::default());
    w.state = GameState::Ended;
    w.scoreboard.score = 42;
    w.scoreboard.patient_hp = 0;
    // stale side-effect state and spent timers from the ended game
    w.effects.left.risk = 250;
    w.effects.right.effect = SideEffectType::NoKnockback;
    w.effects.right.remaining = 3_000_000;
    w.spawn_timer = 1_234;
    w.shoot_cooldown = 0;
    let mut inp = Input::idle();
    inp.restart_pressed = true;
    w.tick(inp, 6_944);
    assert_eq!(w.state, GameState::Init);
    assert_eq!(w.scoreboard.score, 0);
    assert_eq!(w.scoreboard.patient_hp, 100);
    assert_eq!(w.bodies.len(), 1);
    assert!(matches!(w.bodies[0].role, Role::Player));
    // no stale risk, effects or timers survive the restart
    assert_eq!(w.effects.left.risk, 0);
    assert_eq!(w.effects.right.risk, 0);
    assert_eq!(w.effects.left.effect, SideEffectType::NoEffect);
    assert_eq!(w.effects.right.effect, SideEffectType::NoEffect);
    assert_eq!(w.effects.left.remaining, SIDE_EFFECT_DURATION);
    assert_eq!(w.effects.right.remaining, SIDE_EFFECT_DURATION);
    assert_eq!(w.spawn_timer, 10_000_000);
    assert_eq!(w.shoot_cooldown, 250_000);
}
