//! The spawner: on a repeating timer, or immediately once no cells are
//! alive, drops a score-scaled batch of randomized cells in at the top of
//! the arena.

use vstd::prelude::*;
use crate::arena::Boundaries;
use crate::body::{Body, CellData, CellType, Role, Vec2};
use crate::config::{
    SPAWN_RADIUS, SPAWN_INTERVAL, SPAWN_X_JITTER_BASE, SPAWN_Y_EXTRA, CELL_ELASTICITY,
    CELL_FALL_ACC, BLOOD_DESTROY_HP, BLOOD_PASS_HP, GERM_PASS_HP, DT_CAP,
};
use crate::num::clamp_spec;
use crate::rng::{rand_range, rand_coin};

verus! {

/// The smallest batch the spawner drops at the given score: two cells,
/// growing by one for every 90 points up to four extra.
pub open spec fn spawn_min_count(score: u64) -> int {
    2 + if score / 90 < 4 {
        (score / 90) as int
    } else {
        4int
    }
}

/// Bound of the horizontal speed jitter of a spawned cell at the given
/// score.
pub open spec fn spawn_x_jitter(score: u64) -> int {
    SPAWN_X_JITTER_BASE + clamp_spec(score * 500, 5_000, 125_000)
}

/// Base downward speed of a spawned cell at the given score (more negative
/// as the score grows).
pub open spec fn spawn_y_base(score: u64) -> int {
    -clamp_spec(score * 400, 10_000, 200_000)
}

/// What holds of the `idx`-th cell of a batch spawned at the given score:
/// spawn radius and restitution, falling acceleration, a horizontal
/// position inside the walls with spawn spacing, a row position above the
/// top of the arena, score-scaled speed ranges, and one of the two cell
/// kinds with its configured health impacts.
pub open spec fn spawned_cell(b: Body, arena: Boundaries, score: u64, idx: int) -> bool {
    &&& b.radius == SPAWN_RADIUS
    &&& b.elasticity == CELL_ELASTICITY
    &&& b.acc == (Vec2 { x: 0i64, y: (-CELL_FALL_ACC) as i64 })
    &&& arena.left_wall + SPAWN_RADIUS <= b.pos.x < arena.right_wall - SPAWN_RADIUS
    &&& b.pos.y == arena.top + SPAWN_RADIUS + 2 * SPAWN_RADIUS * idx
    &&& -spawn_x_jitter(score) <= b.vel.x < spawn_x_jitter(score)
    &&& spawn_y_base(score) - SPAWN_Y_EXTRA < b.vel.y <= spawn_y_base(score)
    &&& b.role matches Role::Cell(c)
        && c.target_radius == SPAWN_RADIUS
        && c.top_bound == b.pos.y + SPAWN_RADIUS
        && ((c.cell_type == (CellType::Blood { patient_hp: BLOOD_DESTROY_HP })
            && c.patient_hp == BLOOD_PASS_HP)
            || (c.cell_type is Germ && c.patient_hp == GERM_PASS_HP))
}

/// Whether any cell is alive in the registry.
pub fn any_cell(bodies: &Vec<Body>) -> (r: bool)
    ensures
        r == exists|i: int| 0 <= i < bodies@.len() && (#[trigger] bodies@[i]).is_cell(),
{
    let n = bodies.len();
    let mut i: usize = 0;
    while i < n
        invariant
            n == bodies@.len(),
            i <= n,
            forall|j: int| 0 <= j < i ==> !(#[trigger] bodies@[j]).is_cell(),
        decreases n - i,
    {
        if bodies[i].is_cell() {
            return true;
        }
        i = i + 1;
    }
    false
}

/// One tick of the spawner. It fires when no cells are alive or its timer
/// has elapsed; firing rearms the timer and appends a batch of
/// `spawn_min_count(score)` to `spawn_min_count(score) + 2` randomized
/// cells — at most seven — each satisfying `spawned_cell` for its row. A
/// tick that does not fire only advances the timer.
pub fn spawner_system(
    bodies: &mut Vec<Body>,
    timer: &mut i64,
    next_id: &mut u64,
    arena: &Boundaries,
    score: u64,
    dt: i64,
)
    requires
        forall|i: int| 0 <= i < old(bodies)@.len() ==> (#[trigger] old(bodies)@[i]).wf(),
        arena.wf(),
        arena.right_wall - arena.left_wall > 2 * SPAWN_RADIUS,
        0 <= *old(timer) <= SPAWN_INTERVAL,
        0 < dt <= DT_CAP,
    ensures
        ({
            let fired = !(exists|i: int| 0 <= i < old(bodies)@.len()
                && (#[trigger] old(bodies)@[i]).is_cell()) || *old(timer) - dt <= 0;
            &&& *final(timer) == if fired { SPAWN_INTERVAL as int } else { *old(timer) - dt }
            &&& (!fired ==> final(bodies)@ == old(bodies)@)
            &&& (fired ==> spawn_min_count(score) <= final(bodies)@.len() - old(bodies)@.len()
                <= spawn_min_count(score) + 2)
            &&& final(bodies)@.len() - old(bodies)@.len() <= 7
        }),
        final(bodies)@.len() >= old(bodies)@.len(),
        forall|j: int| 0 <= j < old(bodies)@.len() ==> #[trigger] final(bodies)@[j]
            == old(bodies)@[j],
        forall|k: int| old(bodies)@.len() <= k < final(bodies)@.len()
            ==> spawned_cell(#[trigger] final(bodies)@[k], *arena, score,
                k - old(bodies)@.len()),
        forall|i: int| 0 <= i < final(bodies)@.len() ==> (#[trigger] final(bodies)@[i]).wf(),
        *final(next_id) >= *old(next_id),
        0 <= *final(timer) <= SPAWN_INTERVAL,
{
    let has_cells = any_cell(bodies);
    let rem = if *timer - dt <= 0 {
        0
    } else {
        *timer - dt
    };
    if has_cells && rem != 0 {
        *timer = rem;
        return;
    }
    *timer = SPAWN_INTERVAL;

    proof {
        if score >= 360 {
            vstd::arithmetic::div_mod::lemma_div_is_ordered(360, score as int, 90);
        } else {
            vstd::arithmetic::div_mod::lemma_div_is_ordered(score as int, 359, 90);
        }
    }
    let bump: u64 = if score >= 360 {
        4
    } else {
        score / 90
    };
    assert(bump == if score / 90 < 4 { score / 90 } else { 4u64 });
    let min_count: i64 = 2 + bump as i64;
    let drawn = rand_range(min_count, min_count + 3);
    let count = if drawn > 7 {
        7
    } else {
        drawn
    };
    let xjit: i64 = SPAWN_X_JITTER_BASE + if score >= 250 {
        125_000
    } else {
        let v = (score as i64) * 500;
        if v < 5_000 {
            5_000
        } else {
            v
        }
    };
    let ybase: i64 = -(if score >= 500 {
        200_000
    } else {
        let v = (score as i64) * 400;
        if v < 10_000 {
            10_000
        } else {
            v
        }
    });
    assert(xjit == spawn_x_jitter(score));
    assert(ybase == spawn_y_base(score));

    let ghost n0 = bodies@.len();
    let range_x = (arena.right_wall - arena.left_wall) - 2 * SPAWN_RADIUS;
    let min_x = arena.left_wall + SPAWN_RADIUS;
    let mut i: i64 = 0;
    while i < count
        invariant
            0 <= i <= count,
            2 <= count <= 7,
            spawn_min_count(score) <= count <= spawn_min_count(score) + 2,
            bodies@.len() == n0 + i,
            arena.wf(),
            arena.right_wall - arena.left_wall > 2 * SPAWN_RADIUS,
            range_x == arena.right_wall - arena.left_wall - 2 * SPAWN_RADIUS,
            min_x == arena.left_wall + SPAWN_RADIUS,
            xjit == spawn_x_jitter(score),
            ybase == spawn_y_base(score),
            forall|j: int| 0 <= j < n0 ==> #[trigger] bodies@[j] == old(bodies)@[j],
            n0 == old(bodies)@.len(),
            forall|k: int| n0 <= k < bodies@.len()
                ==> spawned_cell(#[trigger] bodies@[k], *arena, score, k - n0),
            forall|k: int| 0 <= k < bodies@.len() ==> (#[trigger] bodies@[k]).wf(),
            *next_id >= *old(next_id),
        decreases count - i,
    {
        proof {
            crate::num::lemma_mul_cap(2 * SPAWN_RADIUS as int, i as int,
                2 * SPAWN_RADIUS as int, 8);
        }
        let x = rand_range(0, range_x) + min_x;
        let y = arena.top + SPAWN_RADIUS + 2 * SPAWN_RADIUS * i;
        let vx = rand_range(-xjit, xjit);
        let vy = ybase - rand_range(0, SPAWN_Y_EXTRA);
        let (cell_type, pass_hp) = if rand_coin() {
            (CellType::Blood { patient_hp: BLOOD_DESTROY_HP }, BLOOD_PASS_HP)
        } else {
            (CellType::Germ, GERM_PASS_HP)
        };
        let id = *next_id;
        if *next_id < u64::MAX {
            *next_id = *next_id + 1;
        }
        bodies.push(Body {
            id,
            pos: Vec2 { x, y },
            vel: Vec2 { x: vx, y: vy },
            acc: Vec2 { x: 0, y: -CELL_FALL_ACC },
            radius: SPAWN_RADIUS,
            elasticity: CELL_ELASTICITY,
            role: Role::Cell(CellData {
                cell_type,
                target_radius: SPAWN_RADIUS,
                top_bound: y + SPAWN_RADIUS,
                patient_hp: pass_hp,
            }),
        });
        i = i + 1;
    }
}

} // verus!
