//! The world: one bundle of the whole simulation state, and the fixed
//! dependency-ordered tick that runs every component over it.

use vstd::prelude::*;
use crate::arena::Boundaries;
use crate::body::{Body, Role, Vec2, same_kind};
use crate::collision::{
    player_collisions, player_bullet_collisions, cell_cell_collisions,
    in_no_shoot_zone, player_pass_upto, bullet_pass_upto, remove_marked_spec, cell_pass_upto,
};
use crate::config::{
    SPAWN_RADIUS, SPAWN_INTERVAL, SHOOT_COOLDOWN, PLAYER_RADIUS, PLAYER_ELASTICITY,
    HP_START, DT_CAP, RISK_THRESHOLD,
};
use crate::effects::{
    SideEffects, SideEffectType, RiskEvents, side_effect_system, fresh_effects, zone_step_spec,
};
use crate::integrator::{integrate_all, integrate_spec};
use crate::lifecycle::{cell_despawner, player_bullet_despawner, lifecycle_upto, bullet_exit_upto};
use crate::player::{player_movement, player_shoot, player_movement_spec, bullet_spawned};
use crate::score::Scoreboard;
use crate::spawner::{spawner_system, spawned_cell, spawn_min_count};
use crate::state::{GameState, game_state_step};

verus! {

/// A per-tick snapshot of the discrete player intents.
#[derive(Clone, Copy, Debug)]
pub struct Input {
    /// Horizontal movement direction: -1, 0 or 1.
    pub move_x: i8,
    /// Vertical movement direction: -1, 0 or 1.
    pub move_y: i8,
    pub shoot_held: bool,
    pub start_pressed: bool,
    pub restart_pressed: bool,
}

impl Input {
    pub open spec fn wf(self) -> bool {
        &&& -1 <= self.move_x <= 1
        &&& -1 <= self.move_y <= 1
    }

    /// The neutral intent: no movement, nothing pressed.
    pub fn idle() -> (inp: Input)
        ensures
            inp == (Input {
                move_x: 0i8,
                move_y: 0i8,
                shoot_held: false,
                start_pressed: false,
                restart_pressed: false,
            }),
            inp.wf(),
    {
        Input {
            move_x: 0,
            move_y: 0,
            shoot_held: false,
            start_pressed: false,
            restart_pressed: false,
        }
    }
}

/// The player body as each game starts: at the origin, at rest.
pub open spec fn fresh_player() -> Body {
    Body {
        id: 0,
        pos: Vec2 { x: 0i64, y: 0i64 },
        vel: Vec2 { x: 0i64, y: 0i64 },
        acc: Vec2 { x: 0i64, y: 0i64 },
        radius: PLAYER_RADIUS,
        elasticity: PLAYER_ELASTICITY,
        role: Role::Player,
    }
}

/// The spawner's observable step from registry `bs0` to `bs1` under timers
/// `timer0`/`timer1`: it fires when no cells are alive or the timer has
/// elapsed, rearming the timer and appending a score-scaled batch of cells
/// (each satisfying `spawned_cell` for its row); otherwise it only advances
/// the timer.
pub open spec fn spawn_batch_rel(
    bs0: Seq<Body>,
    bs1: Seq<Body>,
    timer0: int,
    timer1: int,
    arena: Boundaries,
    score: u64,
    dt: int,
) -> bool {
    let fired = !(exists|i: int| 0 <= i < bs0.len() && (#[trigger] bs0[i]).is_cell())
        || timer0 - dt <= 0;
    &&& timer1 == if fired { SPAWN_INTERVAL as int } else { timer0 - dt }
    &&& bs1.len() >= bs0.len()
    &&& bs1.len() - bs0.len() <= 7
    &&& (!fired ==> bs1 == bs0)
    &&& (fired ==> spawn_min_count(score) <= bs1.len() - bs0.len() <= spawn_min_count(score) + 2)
    &&& (forall|j: int| 0 <= j < bs0.len() ==> #[trigger] bs1[j] == bs0[j])
    &&& (forall|k: int| bs0.len() <= k < bs1.len()
        ==> spawned_cell(#[trigger] bs1[k], arena, score, k - bs0.len()))
}

/// `bs1` is `bs0` with every body advanced one integration step.
pub open spec fn integrated_rel(
    bs0: Seq<Body>,
    bs1: Seq<Body>,
    fx: SideEffects,
    arena: Boundaries,
    dt: int,
) -> bool {
    &&& bs1.len() == bs0.len()
    &&& forall|i: int| 0 <= i < bs0.len()
        ==> #[trigger] bs1[i] == integrate_spec(bs0[i], fx, arena, dt)
}

/// What one Running tick does after the spawner, given the post-spawn
/// registry `bs` and its integrated image `integ`: the player-cell pass, the
/// bullet pass with its removals, the cell-cell pass, the cell lifecycle,
/// the bullet exits into the tick's risk mailbox, one side-effect step per
/// zone on that mailbox (the activation roll and effect pick bound
/// existentially), and the health-exhaustion transition, all against the
/// tick's initial side effects, scoreboard and arena.
pub open spec fn post_spawn_rel(
    w0: World,
    w1: World,
    bs: Seq<Body>,
    integ: Seq<Body>,
    dt: int,
) -> bool {
    let after_player = player_pass_upto(integ, 0, w0.effects, integ.len());
    let shot = bullet_pass_upto(after_player, w0.scoreboard, w0.effects, after_player.len());
    let after_bullets = remove_marked_spec(shot.0, shot.2, after_player.len());
    let after_cells = cell_pass_upto(after_bullets, after_bullets.len());
    let aged = lifecycle_upto(after_cells, shot.1, w0.arena, dt, after_cells.len());
    let exited = bullet_exit_upto(
        aged.0,
        w0.effects,
        RiskEvents { left: None, right: None },
        w0.arena,
        aged.0.len(),
    );
    &&& integrated_rel(bs, integ, w0.effects, w0.arena, dt)
    &&& w1.bodies@ == exited.0
    &&& w1.scoreboard == aged.1
    &&& (exists|roll: int, pick: SideEffectType|
        0 <= roll < RISK_THRESHOLD && !(pick is NoEffect)
        && w1.effects.left == #[trigger] zone_step_spec(
            exited.1.left, exited.2.left, dt, roll, pick))
    &&& (exists|roll: int, pick: SideEffectType|
        0 <= roll < RISK_THRESHOLD && !(pick is NoEffect)
        && w1.effects.right == #[trigger] zone_step_spec(
            exited.1.right, exited.2.right, dt, roll, pick))
    &&& w1.state == if aged.1.patient_hp <= 0 { GameState::Ended } else { GameState::Running }
}

/// One Running tick, as the composition of the component specifications in
/// pipeline order: intent translation on the player, the shoot decision
/// with its cooldown, a spawner step, then `post_spawn_rel` over the
/// spawned batch (which, like the activation draws, is bound existentially:
/// each random draw may be anything in its stated range, and the relation
/// holds whatever came back).
pub open spec fn tick_rel(w0: World, w1: World, input: Input, dt: int) -> bool {
    let moved = player_movement_spec(
        w0.bodies@[0], input.move_x as int, input.move_y as int, w0.arena);
    let bs1 = w0.bodies@.update(0, moved);
    let elapsed = w0.shoot_cooldown - dt <= 0;
    let fires = elapsed && input.shoot_held && !in_no_shoot_zone(w0.effects, moved.pos.x as int);
    let bs2 = if fires { bs1.push(bullet_spawned(moved.pos, w0.next_id)) } else { bs1 };
    &&& w1.arena == w0.arena
    &&& w1.shoot_cooldown == if fires {
        SHOOT_COOLDOWN as int
    } else if elapsed {
        0int
    } else {
        w0.shoot_cooldown - dt
    }
    &&& w1.next_id >= w0.next_id
    &&& exists|spawned: Seq<Body>, integ: Seq<Body>|
        spawn_batch_rel(bs2, spawned, w0.spawn_timer as int, w1.spawn_timer as int,
            w0.arena, w0.scoreboard.score, dt)
        && #[trigger] post_spawn_rel(w0, w1, spawned, integ, dt)
}

/// The whole simulation state, owned by the tick loop; the external layer
/// only reads snapshots between ticks and feeds intents in.
pub struct World {
    pub arena: Boundaries,
    /// The body registry. The player is always the first entry and the only
    /// one with the player role.
    pub bodies: Vec<Body>,
    pub scoreboard: Scoreboard,
    pub effects: SideEffects,
    pub state: GameState,
    /// Microseconds until the spawner next fires.
    pub spawn_timer: i64,
    /// Microseconds until the player may shoot again.
    pub shoot_cooldown: i64,
    /// Handle given to the next body created.
    pub next_id: u64,
}

impl World {
    /// The world invariant: a well-formed arena wide and tall enough for
    /// spawns and for the player, a registry whose single player sits at
    /// index 0 with every body inside the simulation caps, and in-range
    /// bookkeeping.
    pub open spec fn wf(self) -> bool {
        &&& self.arena.wf()
        &&& self.arena.right_wall - self.arena.left_wall > 2 * SPAWN_RADIUS
        &&& self.bodies@.len() >= 1
        &&& self.bodies@[0].is_player()
        &&& forall|i: int| 1 <= i < self.bodies@.len()
            ==> !(#[trigger] self.bodies@[i]).is_player()
        &&& forall|i: int| 0 <= i < self.bodies@.len() ==> (#[trigger] self.bodies@[i]).wf()
        &&& self.bodies@[0].radius < self.arena.top - self.arena.bottom
        &&& PLAYER_RADIUS < self.arena.top - self.arena.bottom
        &&& self.scoreboard.wf()
        &&& self.effects.wf()
        &&& 0 <= self.spawn_timer <= SPAWN_INTERVAL
        &&& 0 <= self.shoot_cooldown <= SHOOT_COOLDOWN
    }

    /// A fresh game over the given arena: only the player exists, the
    /// scoreboard, side effects and timers are at their defaults, and the
    /// game waits in `Init` for the start input.
    pub fn new(arena: Boundaries) -> (w: World)
        requires
            arena.wf(),
            arena.right_wall - arena.left_wall > 2 * SPAWN_RADIUS,
            PLAYER_RADIUS < arena.top - arena.bottom,
        ensures
            w.wf(),
            w.arena == arena,
            w.state == GameState::Init,
            w.bodies@.len() == 1,
            w.bodies@[0] == fresh_player(),
            w.scoreboard == (Scoreboard { score: 0u64, patient_hp: HP_START }),
            w.effects == fresh_effects(),
            w.spawn_timer == SPAWN_INTERVAL,
            w.shoot_cooldown == SHOOT_COOLDOWN,
            w.next_id == 1,
    {
        let mut bodies: Vec<Body> = Vec::new();
        bodies.push(Body {
            id: 0,
            pos: Vec2 { x: 0, y: 0 },
            vel: Vec2 { x: 0, y: 0 },
            acc: Vec2 { x: 0, y: 0 },
            radius: PLAYER_RADIUS,
            elasticity: PLAYER_ELASTICITY,
            role: Role::Player,
        });
        World {
            arena,
            bodies,
            scoreboard: Scoreboard::default(),
            effects: SideEffects::default(),
            state: GameState::Init,
            spawn_timer: SPAWN_INTERVAL,
            shoot_cooldown: SHOOT_COOLDOWN,
            next_id: 1,
        }
    }

    /// Reset everything but the arena for a new game.
    fn reset_game(&mut self)
        requires
            old(self).wf(),
        ensures
            final(self).wf(),
            final(self).arena == old(self).arena,
            final(self).state == GameState::Init,
            final(self).bodies@.len() == 1,
            final(self).bodies@[0] == fresh_player(),
            final(self).scoreboard == (Scoreboard { score: 0u64, patient_hp: HP_START }),
            final(self).effects == fresh_effects(),
            final(self).spawn_timer == SPAWN_INTERVAL,
            final(self).shoot_cooldown == SHOOT_COOLDOWN,
            final(self).next_id == 1,
    {
        let fresh = Self::new(self.arena);
        *self = fresh;
    }

    /// The read-only render snapshot: one `(handle, position, radius, role)`
    /// row per body, in registry order.
    pub fn snapshot(&self) -> (s: Vec<(u64, Vec2, i64, Role)>)
        ensures
            s@.len() == self.bodies@.len(),
            forall|i: int| 0 <= i < s@.len() ==> #[trigger] s@[i] == (
                self.bodies@[i].id,
                self.bodies@[i].pos,
                self.bodies@[i].radius,
                self.bodies@[i].role,
            ),
    {
        let n = self.bodies.len();
        let mut s: Vec<(u64, Vec2, i64, Role)> = Vec::new();
        let mut i: usize = 0;
        while i < n
            invariant
                n == self.bodies@.len(),
                i <= n,
                s@.len() == i,
                forall|j: int| 0 <= j < i ==> #[trigger] s@[j] == (
                    self.bodies@[j].id,
                    self.bodies@[j].pos,
                    self.bodies@[j].radius,
                    self.bodies@[j].role,
                ),
            decreases n - i,
        {
            let b = self.bodies[i];
            s.push((b.id, b.pos, b.radius, b.role));
            i = i + 1;
        }
        s
    }

    /// One fixed-timestep tick. Only `Running` simulates: intent
    /// translation, shooting, spawning, integration, the three collision
    /// passes, the two lifecycle passes and the side-effect machine run in
    /// that order — `tick_rel` states the whole composition — and a tick
    /// that exhausts the patient's health ends the game within that same
    /// tick. `Init` and `Ended` freeze the world and accept only their
    /// single transition input; a restart rebuilds the fresh world.
    pub fn tick(&mut self, input: Input, dt: i64)
        requires
            old(self).wf(),
            input.wf(),
            0 < dt <= DT_CAP,
        ensures
            final(self).wf(),
            final(self).arena == old(self).arena,
            old(self).state is Init ==> {
                &&& final(self).state == if input.start_pressed {
                    GameState::Running
                } else {
                    GameState::Init
                }
                &&& final(self).bodies@ == old(self).bodies@
                &&& final(self).scoreboard == old(self).scoreboard
                &&& final(self).effects == old(self).effects
                &&& final(self).spawn_timer == old(self).spawn_timer
                &&& final(self).shoot_cooldown == old(self).shoot_cooldown
                &&& final(self).next_id == old(self).next_id
            },
            old(self).state is Ended ==> {
                &&& (input.restart_pressed ==> final(self).state == GameState::Init
                    && final(self).scoreboard
                        == (Scoreboard { score: 0u64, patient_hp: HP_START })
                    && final(self).bodies@.len() == 1
                    && final(self).bodies@[0] == fresh_player()
                    && final(self).effects == fresh_effects()
                    && final(self).spawn_timer == SPAWN_INTERVAL
                    && final(self).shoot_cooldown == SHOOT_COOLDOWN
                    && final(self).next_id == 1)
                &&& (!input.restart_pressed ==> *final(self) == *old(self))
            },
            old(self).state is Running ==> {
                &&& tick_rel(*old(self), *final(self), input, dt as int)
                &&& (final(self).state is Ended <==> final(self).scoreboard.patient_hp == 0)
                &&& (final(self).state is Running <==> final(self).scoreboard.patient_hp > 0)
                &&& old(self).scoreboard.score <= final(self).scoreboard.score
            },
    {
        match self.state {
            GameState::Init => {
                self.state = game_state_step(self.state, input.start_pressed,
                    input.restart_pressed, false);
            },
            GameState::Ended => {
                if input.restart_pressed {
                    self.reset_game();
                }
            },
            GameState::Running => {
                let ghost w0 = *old(self);
                let mut p = self.bodies[0];
                player_movement(&mut p, input.move_x, input.move_y, &self.arena);
                self.bodies[0] = p;

                let shot = player_shoot(&mut self.shoot_cooldown, input.shoot_held, &p,
                    &self.effects, dt, self.next_id);
                match shot {
                    Some(bullet) => {
                        if self.next_id < u64::MAX {
                            self.next_id = self.next_id + 1;
                        }
                        self.bodies.push(bullet);
                    },
                    None => {},
                }
                let ghost after_shot = self.bodies@;

                spawner_system(&mut self.bodies, &mut self.spawn_timer, &mut self.next_id,
                    &self.arena, self.scoreboard.score, dt);
                let ghost spawned = self.bodies@;
                assert forall|i: int| 1 <= i < self.bodies@.len()
                    implies !(#[trigger] self.bodies@[i]).is_player() by {}

                integrate_all(&mut self.bodies, &self.effects, &self.arena, dt);
                let ghost integrated = self.bodies@;

                player_collisions(&mut self.bodies, 0, &self.effects);
                let ghost after_player = self.bodies@;

                player_bullet_collisions(&mut self.bodies, &mut self.scoreboard,
                    &self.effects);
                let ghost after_bullets = self.bodies@;
                let ghost sb_bullets = self.scoreboard;

                cell_cell_collisions(&mut self.bodies);
                let ghost after_cells = self.bodies@;

                cell_despawner(&mut self.bodies, &mut self.scoreboard, &self.arena, dt);
                let ghost aged_bodies = self.bodies@;
                let ghost sb_aged = self.scoreboard;

                let mut ev = RiskEvents::none();
                player_bullet_despawner(&mut self.bodies, &mut self.effects, &mut ev,
                    &self.arena);
                let ghost exited_bodies = self.bodies@;
                let ghost fx_exited = self.effects;
                let ghost ev_exited = ev;

                side_effect_system(&mut self.effects, &ev, dt);

                let exhausted = self.scoreboard.patient_hp <= 0;
                self.state = game_state_step(GameState::Running, false, false, exhausted);

                proof {
                    let dti = dt as int;
                    let moved = player_movement_spec(
                        w0.bodies@[0], input.move_x as int, input.move_y as int, w0.arena);
                    let bs1 = w0.bodies@.update(0, moved);
                    let elapsed = w0.shoot_cooldown - dti <= 0;
                    let fires = elapsed && input.shoot_held
                        && !in_no_shoot_zone(w0.effects, moved.pos.x as int);
                    let bs2 = if fires {
                        bs1.push(bullet_spawned(moved.pos, w0.next_id))
                    } else {
                        bs1
                    };
                    assert(after_shot == bs2);
                    assert(spawn_batch_rel(bs2, spawned, w0.spawn_timer as int,
                        self.spawn_timer as int, w0.arena, w0.scoreboard.score, dti));
                    assert(integrated_rel(spawned, integrated, w0.effects, w0.arena, dti));

                    assert(after_player == player_pass_upto(
                        integrated, 0, w0.effects, integrated.len()));
                    let shot_t = bullet_pass_upto(
                        after_player, w0.scoreboard, w0.effects, after_player.len());
                    assert(after_bullets == remove_marked_spec(
                        shot_t.0, shot_t.2, after_player.len()));
                    assert(sb_bullets == shot_t.1);
                    assert(after_cells == cell_pass_upto(after_bullets, after_bullets.len()));
                    let aged_t = lifecycle_upto(
                        after_cells, sb_bullets, w0.arena, dti, after_cells.len());
                    assert(aged_bodies == aged_t.0 && sb_aged == aged_t.1);
                    let ev0 = RiskEvents { left: None, right: None };
                    let exited_t = bullet_exit_upto(
                        aged_bodies, w0.effects, ev0, w0.arena, aged_bodies.len());
                    assert(exited_bodies == exited_t.0);
                    assert(fx_exited == exited_t.1);
                    assert(ev_exited == exited_t.2);

                    let (r_l, p_l) = choose|r: int, p: SideEffectType|
                        0 <= r < RISK_THRESHOLD && !(p is NoEffect)
                        && self.effects.left == zone_step_spec(
                            fx_exited.left, ev_exited.left, dti, r, p);
                    assert(0 <= r_l < RISK_THRESHOLD && !(p_l is NoEffect)
                        && self.effects.left == zone_step_spec(
                            exited_t.1.left, exited_t.2.left, dti, r_l, p_l));
                    let (r_r, p_r) = choose|r: int, p: SideEffectType|
                        0 <= r < RISK_THRESHOLD && !(p is NoEffect)
                        && self.effects.right == zone_step_spec(
                            fx_exited.right, ev_exited.right, dti, r, p);
                    assert(0 <= r_r < RISK_THRESHOLD && !(p_r is NoEffect)
                        && self.effects.right == zone_step_spec(
                            exited_t.1.right, exited_t.2.right, dti, r_r, p_r));

                    assert(post_spawn_rel(w0, *self, spawned, integrated, dti));
                    assert(tick_rel(w0, *self, input, dti));
                }
            },
        }
    }
}

} // verus!
