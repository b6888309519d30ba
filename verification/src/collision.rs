//! Circle-circle collision resolution: overlap test, 1-D elastic impulse
//! along the center normal with radius as mass proxy, and a soft positional
//! correction. The routine is shared by all pair categories; only the
//! gameplay effects applied afterwards differ.

use vstd::prelude::*;
use crate::body::{Body, Vec2, cell_damaged, same_cell_type, cell_types_match, same_kind};
use crate::config::{
    SCALE_MILLI, POS_CAP, VEL_CAP, ACC_CAP, R_CAP, PUSH_NUM, PUSH_DEN,
    PLAYER_COLLISION_DAMAGE, PLAYER_BULLET_DAMAGE, CELL_INTERCOLLISION_DAMAGE,
    BULLET_RADIUS, KNOCKBACK_VEL, KNOCKBACK_ACC,
};
use crate::effects::SideEffects;
use crate::num::{
    clamp_spec, div_trunc, isqrt_spec, clamp_i64, div_i64, isqrt_u64,
    lemma_div_trunc_cap, lemma_div_trunc_exact, lemma_mul_cap,
};
use crate::score::{Scoreboard, score_incremented};

verus! {

/// Bound on an along-normal speed component: a unit normal scaled by
/// `SCALE_MILLI` can stretch a capped velocity by at most two axes' worth.
pub const ALONG_CAP: i64 = 8_000_000;

/// Along-normal velocity change of the second body in a 1-D elastic
/// collision of masses `m1`, `m2` with along-speeds `s1`, `s2`:
/// `2*m1*(s1 - s2) / (m1 + m2)`, rounded toward zero.
pub open spec fn elastic_delta2(m1: int, m2: int, s1: int, s2: int) -> int {
    div_trunc(2 * m1 * (s1 - s2), m1 + m2)
}

/// Along-normal velocity change of the first body, fixed by reversal of the
/// relative along-speed: the two deltas always differ by exactly
/// `2*(s2 - s1)`.
pub open spec fn elastic_delta1(m1: int, m2: int, s1: int, s2: int) -> int {
    elastic_delta2(m1, m2, s1, s2) + 2 * (s2 - s1)
}

/// Momentum along the collision normal is conserved up to the rounding of a
/// single integer division: the sum of `mass * delta` over both bodies is
/// smaller in magnitude than `m1 + m2`, one milliunit of speed per unit of
/// total mass, for every pair of masses and along-speeds.
pub proof fn lemma_momentum_conserved(m1: int, m2: int, s1: int, s2: int)
    requires
        m1 >= 0,
        m2 >= 0,
        m1 + m2 >= 1,
    ensures
        -(m1 + m2) < m1 * elastic_delta1(m1, m2, s1, s2) + m2 * elastic_delta2(m1, m2, s1, s2),
        m1 * elastic_delta1(m1, m2, s1, s2) + m2 * elastic_delta2(m1, m2, s1, s2) < m1 + m2,
{
    let dd = m1 + m2;
    let nn = 2 * m1 * (s1 - s2);
    let d2 = elastic_delta2(m1, m2, s1, s2);
    let d1 = elastic_delta1(m1, m2, s1, s2);
    lemma_div_trunc_exact(nn, dd);
    assert(m1 * d1 + m2 * d2 == dd * d2 - nn) by (nonlinear_arith)
        requires
            d1 == d2 + 2 * (s2 - s1),
            nn == 2 * m1 * (s1 - s2),
            dd == m1 + m2,
    ;
}

/// When the division is exact the conservation is exact: with equal masses
/// and an even speed gap, the along-normal momentum total does not change.
pub proof fn lemma_momentum_exact_for_equal_masses(m: int, s1: int, s2: int)
    requires
        m >= 1,
        (s1 - s2) % 2 == 0,
    ensures
        m * elastic_delta1(m, m, s1, s2) + m * elastic_delta2(m, m, s1, s2) == 0,
{
    let dd = m + m;
    let nn = 2 * m * (s1 - s2);
    let d2 = elastic_delta2(m, m, s1, s2);
    let d1 = elastic_delta1(m, m, s1, s2);
    let k = (s1 - s2) / 2;
    vstd::arithmetic::div_mod::lemma_fundamental_div_mod(s1 - s2, 2);
    assert(nn == (2 * k) * dd) by (nonlinear_arith)
        requires
            dd == m + m,
            nn == 2 * m * (s1 - s2),
            s1 - s2 == 2 * k,
    ;
    vstd::arithmetic::div_mod::lemma_mod_multiples_basic(2 * k, dd);
    lemma_div_trunc_exact(nn, dd);
    assert(m * d1 + m * d2 == dd * d2 - nn) by (nonlinear_arith)
        requires
            d1 == d2 + 2 * (s2 - s1),
            nn == 2 * m * (s1 - s2),
            dd == m + m,
    ;
}

/// Compute both along-normal deltas.
pub fn elastic_deltas(m1: i64, m2: i64, s1: i64, s2: i64) -> (d: (i64, i64))
    requires
        0 <= m1 <= R_CAP,
        0 <= m2 <= R_CAP,
        m1 + m2 >= 1,
        -ALONG_CAP <= s1 <= ALONG_CAP,
        -ALONG_CAP <= s2 <= ALONG_CAP,
    ensures
        d.0 == elastic_delta1(m1 as int, m2 as int, s1 as int, s2 as int),
        d.1 == elastic_delta2(m1 as int, m2 as int, s1 as int, s2 as int),
        -8 * ALONG_CAP <= d.0 <= 8 * ALONG_CAP,
        -4 * ALONG_CAP <= d.1 <= 4 * ALONG_CAP,
{
    proof {
        lemma_mul_cap(2 * m1, s1 - s2, 2 * R_CAP as int, 2 * ALONG_CAP as int);
    }
    let num = 2 * m1 * (s1 - s2);
    proof {
        assert(-((4 * ALONG_CAP as int) * (m1 + m2)) <= num
            && num <= (4 * ALONG_CAP as int) * (m1 + m2)) by (nonlinear_arith)
            requires
                num == 2 * m1 * (s1 - s2),
                0 <= m1,
                m1 + m2 >= 1,
                m1 <= m1 + m2,
                -(2 * ALONG_CAP as int) <= s1 - s2 <= 2 * ALONG_CAP as int,
                ALONG_CAP as int > 0,
        ;
        lemma_div_trunc_cap(num as int, (m1 + m2) as int, 4 * ALONG_CAP as int);
    }
    let d2 = div_i64(num, m1 + m2);
    let d1 = d2 + 2 * (s2 - s1);
    (d1, d2)
}

/// The pair after one resolution pass: unchanged when the circles do not
/// overlap (squared center distance above squared radius sum); positions and
/// velocities also unchanged in the degenerate coincident-centers case,
/// where no normal exists (documented edge case: velocity resolution is
/// skipped and the bodies are left in place). Otherwise each body's velocity
/// changes by its elastic delta along the unit normal, and the bodies are
/// pushed apart along the normal by six tenths of the overlap depth.
pub open spec fn collide_spec(a: Body, b: Body) -> (Body, Body, bool) {
    let dx = a.pos.x - b.pos.x;
    let dy = a.pos.y - b.pos.y;
    let q = dx * dx + dy * dy;
    let rsum = a.radius + b.radius;
    if q > rsum * rsum {
        (a, b, false)
    } else if q == 0 {
        (a, b, true)
    } else {
        let len = isqrt_spec(q as nat) as int;
        let nx = div_trunc(dx * SCALE_MILLI, len);
        let ny = div_trunc(dy * SCALE_MILLI, len);
        let s1 = div_trunc(a.vel.x * nx + a.vel.y * ny, SCALE_MILLI as int);
        let s2 = div_trunc(b.vel.x * nx + b.vel.y * ny, SCALE_MILLI as int);
        let d1 = elastic_delta1(a.radius as int, b.radius as int, s1, s2);
        let d2 = elastic_delta2(a.radius as int, b.radius as int, s1, s2);
        let av = Vec2 {
            x: clamp_spec(
                a.vel.x + div_trunc(nx * d1, SCALE_MILLI as int),
                -(VEL_CAP as int),
                VEL_CAP as int,
            ) as i64,
            y: clamp_spec(
                a.vel.y + div_trunc(ny * d1, SCALE_MILLI as int),
                -(VEL_CAP as int),
                VEL_CAP as int,
            ) as i64,
        };
        let bv = Vec2 {
            x: clamp_spec(
                b.vel.x + div_trunc(nx * d2, SCALE_MILLI as int),
                -(VEL_CAP as int),
                VEL_CAP as int,
            ) as i64,
            y: clamp_spec(
                b.vel.y + div_trunc(ny * d2, SCALE_MILLI as int),
                -(VEL_CAP as int),
                VEL_CAP as int,
            ) as i64,
        };
        let plen = div_trunc((len - rsum) * PUSH_NUM, PUSH_DEN as int);
        let push_x = div_trunc(nx * plen, SCALE_MILLI as int);
        let push_y = div_trunc(ny * plen, SCALE_MILLI as int);
        let ap = Vec2 {
            x: clamp_spec(a.pos.x - push_x, -(POS_CAP as int), POS_CAP as int) as i64,
            y: clamp_spec(a.pos.y - push_y, -(POS_CAP as int), POS_CAP as int) as i64,
        };
        let bp = Vec2 {
            x: clamp_spec(b.pos.x + push_x, -(POS_CAP as int), POS_CAP as int) as i64,
            y: clamp_spec(b.pos.y + push_y, -(POS_CAP as int), POS_CAP as int) as i64,
        };
        (Body { pos: ap, vel: av, ..a }, Body { pos: bp, vel: bv, ..b }, true)
    }
}

/// Resolve one unordered pair of bodies; returns whether they overlapped.
/// The exact outcome is `collide_spec`.
pub fn elastic_collision(a: &mut Body, b: &mut Body) -> (hit: bool)
    requires
        old(a).wf(),
        old(b).wf(),
    ensures
        (*final(a), *final(b), hit) == collide_spec(*old(a), *old(b)),
        final(a).wf(),
        final(b).wf(),
{
    let dx = a.pos.x - b.pos.x;
    let dy = a.pos.y - b.pos.y;
    proof {
        lemma_mul_cap(dx as int, dx as int, 2 * POS_CAP as int, 2 * POS_CAP as int);
        lemma_mul_cap(dy as int, dy as int, 2 * POS_CAP as int, 2 * POS_CAP as int);
        assert(dx * dx >= 0 && dy * dy >= 0) by (nonlinear_arith);
    }
    let q = dx * dx + dy * dy;
    let rsum = a.radius + b.radius;
    proof {
        lemma_mul_cap(rsum as int, rsum as int, 2 * R_CAP as int, 2 * R_CAP as int);
    }
    if q > rsum * rsum {
        return false;
    }
    if q == 0 {
        return true;
    }
    proof {
        assert(rsum >= 1) by (nonlinear_arith)
            requires
                rsum >= 0,
                q >= 1,
                q <= rsum * rsum,
        ;
    }
    let len_u = isqrt_u64(q as u64);
    proof {
        assert(len_u * len_u <= q as u64);
        assert(len_u as int <= 50_000_000) by (nonlinear_arith)
            requires
                len_u as int * len_u as int <= q as int,
                q as int <= 8 * POS_CAP as int * POS_CAP as int,
                len_u as int >= 0,
        ;
        assert(len_u as int >= 1) by (nonlinear_arith)
            requires
                (q as int) < ((len_u as int + 1) * (len_u as int + 1)),
                q as int >= 1,
                len_u as int >= 0,
        ;
    }
    let len = len_u as i64;
    proof {
        assert(-len <= dx <= len && -len <= dy <= len) by (nonlinear_arith)
            requires
                dx * dx <= q,
                dy * dy <= q,
                q < (len + 1) * (len + 1),
                len >= 1,
        ;
        lemma_div_trunc_cap(dx as int * SCALE_MILLI as int, len as int, SCALE_MILLI as int);
        lemma_div_trunc_cap(dy as int * SCALE_MILLI as int, len as int, SCALE_MILLI as int);
        assert(dx * SCALE_MILLI <= len * SCALE_MILLI && -(len * SCALE_MILLI) <= dx * SCALE_MILLI);
        assert(dy * SCALE_MILLI <= len * SCALE_MILLI && -(len * SCALE_MILLI) <= dy * SCALE_MILLI);
    }
    let nx = div_i64(dx * SCALE_MILLI, len);
    let ny = div_i64(dy * SCALE_MILLI, len);
    proof {
        lemma_mul_cap(a.vel.x as int, nx as int, VEL_CAP as int, SCALE_MILLI as int);
        lemma_mul_cap(a.vel.y as int, ny as int, VEL_CAP as int, SCALE_MILLI as int);
        lemma_mul_cap(b.vel.x as int, nx as int, VEL_CAP as int, SCALE_MILLI as int);
        lemma_mul_cap(b.vel.y as int, ny as int, VEL_CAP as int, SCALE_MILLI as int);
        lemma_div_trunc_cap(
            a.vel.x as int * nx as int + a.vel.y as int * ny as int,
            SCALE_MILLI as int,
            ALONG_CAP as int,
        );
        lemma_div_trunc_cap(
            b.vel.x as int * nx as int + b.vel.y as int * ny as int,
            SCALE_MILLI as int,
            ALONG_CAP as int,
        );
    }
    let s1 = div_i64(a.vel.x * nx + a.vel.y * ny, SCALE_MILLI);
    let s2 = div_i64(b.vel.x * nx + b.vel.y * ny, SCALE_MILLI);
    let (d1, d2) = elastic_deltas(a.radius, b.radius, s1, s2);
    proof {
        lemma_mul_cap(nx as int, d1 as int, SCALE_MILLI as int, 8 * ALONG_CAP as int);
        lemma_mul_cap(ny as int, d1 as int, SCALE_MILLI as int, 8 * ALONG_CAP as int);
        lemma_mul_cap(nx as int, d2 as int, SCALE_MILLI as int, 8 * ALONG_CAP as int);
        lemma_mul_cap(ny as int, d2 as int, SCALE_MILLI as int, 8 * ALONG_CAP as int);
        lemma_div_trunc_cap(nx as int * d1 as int, SCALE_MILLI as int, 8 * ALONG_CAP as int);
        lemma_div_trunc_cap(ny as int * d1 as int, SCALE_MILLI as int, 8 * ALONG_CAP as int);
        lemma_div_trunc_cap(nx as int * d2 as int, SCALE_MILLI as int, 8 * ALONG_CAP as int);
        lemma_div_trunc_cap(ny as int * d2 as int, SCALE_MILLI as int, 8 * ALONG_CAP as int);
    }
    a.vel = Vec2 {
        x: clamp_i64(a.vel.x + div_i64(nx * d1, SCALE_MILLI), -VEL_CAP, VEL_CAP),
        y: clamp_i64(a.vel.y + div_i64(ny * d1, SCALE_MILLI), -VEL_CAP, VEL_CAP),
    };
    b.vel = Vec2 {
        x: clamp_i64(b.vel.x + div_i64(nx * d2, SCALE_MILLI), -VEL_CAP, VEL_CAP),
        y: clamp_i64(b.vel.y + div_i64(ny * d2, SCALE_MILLI), -VEL_CAP, VEL_CAP),
    };
    proof {
        lemma_mul_cap(len as int - rsum as int, PUSH_NUM as int, 51_000_000int, PUSH_NUM as int);
        lemma_div_trunc_cap(
            (len - rsum) as int * PUSH_NUM as int,
            PUSH_DEN as int,
            306_000_000int,
        );
    }
    let plen = div_i64((len - rsum) * PUSH_NUM, PUSH_DEN);
    proof {
        lemma_mul_cap(nx as int, plen as int, SCALE_MILLI as int, 306_000_000int);
        lemma_mul_cap(ny as int, plen as int, SCALE_MILLI as int, 306_000_000int);
        lemma_div_trunc_cap(nx as int * plen as int, SCALE_MILLI as int, 306_000_000int);
        lemma_div_trunc_cap(ny as int * plen as int, SCALE_MILLI as int, 306_000_000int);
    }
    let push_x = div_i64(nx * plen, SCALE_MILLI);
    let push_y = div_i64(ny * plen, SCALE_MILLI);
    a.pos = Vec2 {
        x: clamp_i64(a.pos.x - push_x, -POS_CAP, POS_CAP),
        y: clamp_i64(a.pos.y - push_y, -POS_CAP, POS_CAP),
    };
    b.pos = Vec2 {
        x: clamp_i64(b.pos.x + push_x, -POS_CAP, POS_CAP),
        y: clamp_i64(b.pos.y + push_y, -POS_CAP, POS_CAP),
    };
    true
}

/// Whether a body at horizontal position `x` stands in a zone under a
/// no-shooting effect.
pub open spec fn in_no_shoot_zone(fx: SideEffects, x: int) -> bool {
    ||| (x > fx.right.zone_x && fx.right.effect is NoShooting)
    ||| (x < fx.left.zone_x && fx.left.effect is NoShooting)
}

/// Whether a body at horizontal position `x` stands in a zone under a
/// no-knockback effect.
pub open spec fn in_no_knockback_zone(fx: SideEffects, x: int) -> bool {
    ||| (x > fx.right.zone_x && fx.right.effect is NoKnockback)
    ||| (x < fx.left.zone_x && fx.left.effect is NoKnockback)
}

pub fn no_shoot_zone(fx: &SideEffects, x: i64) -> (r: bool)
    ensures
        r == in_no_shoot_zone(*fx, x as int),
{
    (x > fx.right.zone_x && matches!(fx.right.effect, crate::effects::SideEffectType::NoShooting))
        || (x < fx.left.zone_x && matches!(
            fx.left.effect,
            crate::effects::SideEffectType::NoShooting,
        ))
}

pub fn no_knockback_zone(fx: &SideEffects, x: i64) -> (r: bool)
    ensures
        r == in_no_knockback_zone(*fx, x as int),
{
    (x > fx.right.zone_x && matches!(
        fx.right.effect,
        crate::effects::SideEffectType::NoKnockback,
    )) || (x < fx.left.zone_x && matches!(
        fx.left.effect,
        crate::effects::SideEffectType::NoKnockback,
    ))
}

/// One step of the player-cell pass: resolve the pair (player at `pi`,
/// candidate at `j`); if they overlapped and the player stands in a
/// no-shooting zone, the touch damages the cell's target radius.
pub open spec fn player_cell_step(bs: Seq<Body>, pi: int, j: int, fx: SideEffects) -> Seq<Body> {
    if j == pi || !bs[j].is_cell() {
        bs
    } else {
        let r = collide_spec(bs[pi], bs[j]);
        let cell2 = if r.2 && in_no_shoot_zone(fx, r.0.pos.x as int) {
            cell_damaged(r.1, PLAYER_COLLISION_DAMAGE as int)
        } else {
            r.1
        };
        bs.update(pi, r.0).update(j, cell2)
    }
}

/// The registry after the player has been resolved against the first `n`
/// entries in order.
pub open spec fn player_pass_upto(bs: Seq<Body>, pi: int, fx: SideEffects, n: nat) -> Seq<Body>
    decreases n,
{
    if n == 0 {
        bs
    } else {
        player_cell_step(player_pass_upto(bs, pi, fx, (n - 1) as nat), pi, n - 1, fx)
    }
}

/// Resolve the player (at index `pi`) against every cell.
pub fn player_collisions(bodies: &mut Vec<Body>, pi: usize, fx: &SideEffects)
    requires
        pi < old(bodies)@.len(),
        old(bodies)@[pi as int].is_player(),
        forall|i: int| 0 <= i < old(bodies)@.len() ==> (#[trigger] old(bodies)@[i]).wf(),
        fx.wf(),
    ensures
        final(bodies)@ == player_pass_upto(
            old(bodies)@, pi as int, *fx, old(bodies)@.len() as nat),
        final(bodies)@.len() == old(bodies)@.len(),
        forall|i: int| 0 <= i < final(bodies)@.len() ==> (#[trigger] final(bodies)@[i]).wf(),
        forall|i: int| 0 <= i < final(bodies)@.len()
            ==> same_kind(#[trigger] final(bodies)@[i], old(bodies)@[i]),
{
    let ghost bs0 = bodies@;
    let n = bodies.len();
    let mut j: usize = 0;
    while j < n
        invariant
            n == bodies@.len() && n == bs0.len(),
            j <= n,
            pi < n,
            fx.wf(),
            bs0[pi as int].is_player(),
            bodies@ == player_pass_upto(bs0, pi as int, *fx, j as nat),
            forall|i: int| 0 <= i < n ==> (#[trigger] bodies@[i]).wf(),
            forall|i: int| 0 <= i < n ==> same_kind(#[trigger] bodies@[i], bs0[i]),
        decreases n - j,
    {
        if j != pi && bodies[j].is_cell() {
            let mut p = bodies[pi];
            let mut c = bodies[j];
            let hit = elastic_collision(&mut p, &mut c);
            if hit && no_shoot_zone(fx, p.pos.x) {
                c.damage_cell(PLAYER_COLLISION_DAMAGE);
            }
            bodies[pi] = p;
            bodies[j] = c;
        }
        j = j + 1;
    }
}

/// One bullet-against-cell interaction: an overlap (squared center distance
/// at most the squared radius sum) damages the cell's target radius, kicks
/// it upward unless the bullet stands in a no-knockback zone, and scores a
/// point if the cell is a germ. The returned flag says whether the bullet
/// hit, which consumes it.
pub open spec fn bullet_cell_step(
    bs: Seq<Body>,
    sb: Scoreboard,
    bi: int,
    j: int,
    fx: SideEffects,
) -> (Seq<Body>, Scoreboard, bool) {
    if j == bi || !bs[j].is_cell() {
        (bs, sb, false)
    } else {
        let bl = bs[bi];
        let c = bs[j];
        let dx = c.pos.x - bl.pos.x;
        let dy = c.pos.y - bl.pos.y;
        let q = dx * dx + dy * dy;
        let rsum = BULLET_RADIUS + c.radius;
        if q <= rsum * rsum {
            let c1 = cell_damaged(c, PLAYER_BULLET_DAMAGE as int);
            let c2 = if !in_no_knockback_zone(fx, bl.pos.x as int) {
                Body {
                    vel: Vec2 {
                        x: c1.vel.x,
                        y: clamp_spec(
                            c1.vel.y + KNOCKBACK_VEL,
                            -(VEL_CAP as int),
                            VEL_CAP as int,
                        ) as i64,
                    },
                    acc: Vec2 {
                        x: c1.acc.x,
                        y: clamp_spec(
                            c1.acc.y - KNOCKBACK_ACC,
                            -(ACC_CAP as int),
                            ACC_CAP as int,
                        ) as i64,
                    },
                    ..c1
                }
            } else {
                c1
            };
            let sb2 = if c.is_germ() {
                Scoreboard { score: score_incremented(sb.score), ..sb }
            } else {
                sb
            };
            (bs.update(j, c2), sb2, true)
        } else {
            (bs, sb, false)
        }
    }
}

/// One bullet resolved against the first `n` entries; the flag says whether
/// it hit anything.
pub open spec fn bullet_cells_upto(
    bs: Seq<Body>,
    sb: Scoreboard,
    bi: int,
    fx: SideEffects,
    n: nat,
) -> (Seq<Body>, Scoreboard, bool)
    decreases n,
{
    if n == 0 {
        (bs, sb, false)
    } else {
        let prev = bullet_cells_upto(bs, sb, bi, fx, (n - 1) as nat);
        let st = bullet_cell_step(prev.0, prev.1, bi, n - 1, fx);
        (st.0, st.1, prev.2 || st.2)
    }
}

/// The bullet pass over the first `n` entries: each bullet in order is
/// resolved against every cell; the flag sequence marks the bullets that
/// hit and are consumed.
pub open spec fn bullet_pass_upto(
    bs: Seq<Body>,
    sb: Scoreboard,
    fx: SideEffects,
    n: nat,
) -> (Seq<Body>, Scoreboard, Seq<bool>)
    decreases n,
{
    if n == 0 {
        (bs, sb, Seq::empty())
    } else {
        let prev = bullet_pass_upto(bs, sb, fx, (n - 1) as nat);
        if prev.0[n - 1].is_bullet() {
            let inner = bullet_cells_upto(prev.0, prev.1, n - 1, fx, bs.len());
            (inner.0, inner.1, prev.2.push(inner.2))
        } else {
            (prev.0, prev.1, prev.2.push(false))
        }
    }
}

/// The registry with the marked entries removed, keeping order.
pub open spec fn remove_marked_spec(bs: Seq<Body>, flags: Seq<bool>, n: nat) -> Seq<Body>
    decreases n,
{
    if n == 0 {
        Seq::empty()
    } else {
        let pre = remove_marked_spec(bs, flags, (n - 1) as nat);
        if flags[n - 1] {
            pre
        } else {
            pre.push(bs[n - 1])
        }
    }
}

/// Entries that are not players survive a marked removal untouched in
/// order; in particular a player at index 0 stays at index 0 when no player
/// is marked.
pub proof fn lemma_remove_marked_keeps_player(bs: Seq<Body>, flags: Seq<bool>, n: nat)
    requires
        n <= bs.len(),
        n <= flags.len(),
        n >= 1,
        bs[0].is_player(),
        !flags[0],
        forall|i: int| 1 <= i < n ==> !(#[trigger] bs[i]).is_player(),
    ensures
        remove_marked_spec(bs, flags, n).len() >= 1,
        remove_marked_spec(bs, flags, n)[0] == bs[0],
        forall|k: int| 1 <= k < remove_marked_spec(bs, flags, n).len()
            ==> !(#[trigger] remove_marked_spec(bs, flags, n)[k]).is_player(),
    decreases n,
{
    if n == 1 {
        assert(remove_marked_spec(bs, flags, 0) == Seq::<Body>::empty());
        assert(remove_marked_spec(bs, flags, 1) == Seq::<Body>::empty().push(bs[0]));
    } else {
        lemma_remove_marked_keeps_player(bs, flags, (n - 1) as nat);
        let pre = remove_marked_spec(bs, flags, (n - 1) as nat);
        let r = remove_marked_spec(bs, flags, n);
        if flags[n - 1] {
            assert(r == pre);
        } else {
            assert(r == pre.push(bs[n - 1]));
            assert(r[0] == pre[0]);
            assert forall|k: int| 1 <= k < r.len() implies !(#[trigger] r[k]).is_player() by {
                if k < pre.len() {
                    assert(r[k] == pre[k]);
                } else {
                    assert(r[k] == bs[n - 1]);
                }
            }
        }
    }
}

/// Remove the marked entries from the registry, keeping order.
pub fn remove_marked(bodies: &mut Vec<Body>, flags: &Vec<bool>)
    requires
        flags@.len() == old(bodies)@.len(),
        forall|i: int| 0 <= i < old(bodies)@.len() ==> (#[trigger] old(bodies)@[i]).wf(),
    ensures
        final(bodies)@ == remove_marked_spec(
            old(bodies)@, flags@, old(bodies)@.len() as nat),
        forall|i: int| 0 <= i < final(bodies)@.len() ==> (#[trigger] final(bodies)@[i]).wf(),
{
    let ghost bs0 = bodies@;
    let n = bodies.len();
    let mut out: Vec<Body> = Vec::new();
    let mut i: usize = 0;
    while i < n
        invariant
            n == bs0.len() && n == bodies@.len() && n == flags@.len(),
            bodies@ == bs0,
            i <= n,
            out@ == remove_marked_spec(bs0, flags@, i as nat),
            forall|j: int| 0 <= j < bs0.len() ==> (#[trigger] bs0[j]).wf(),
            forall|j: int| 0 <= j < out@.len() ==> (#[trigger] out@[j]).wf(),
        decreases n - i,
    {
        if !flags[i] {
            out.push(bodies[i]);
        }
        i = i + 1;
    }
    *bodies = out;
}

/// Resolve every bullet against every cell; bullets that hit are consumed
/// (removed), hit cells lose target radius and may be kicked, and germs hit
/// raise the score.
pub fn player_bullet_collisions(bodies: &mut Vec<Body>, sb: &mut Scoreboard, fx: &SideEffects)
    requires
        forall|i: int| 0 <= i < old(bodies)@.len() ==> (#[trigger] old(bodies)@[i]).wf(),
        old(bodies)@.len() >= 1,
        old(bodies)@[0].is_player(),
        forall|i: int| 1 <= i < old(bodies)@.len() ==> !(#[trigger] old(bodies)@[i]).is_player(),
        fx.wf(),
    ensures
        final(bodies)@.len() >= 1,
        final(bodies)@[0] == old(bodies)@[0],
        forall|i: int| 1 <= i < final(bodies)@.len()
            ==> !(#[trigger] final(bodies)@[i]).is_player(),
        ({
            let r = bullet_pass_upto(old(bodies)@, *old(sb), *fx, old(bodies)@.len() as nat);
            &&& final(bodies)@ == remove_marked_spec(r.0, r.2, old(bodies)@.len() as nat)
            &&& *final(sb) == r.1
        }),
        forall|i: int| 0 <= i < final(bodies)@.len() ==> (#[trigger] final(bodies)@[i]).wf(),
        final(sb).patient_hp == old(sb).patient_hp,
        old(sb).score <= final(sb).score,
{
    let ghost bs0 = bodies@;
    let ghost sb_in = *sb;
    let n = bodies.len();
    let mut flags: Vec<bool> = Vec::new();
    let mut bi: usize = 0;
    while bi < n
        invariant
            n == bs0.len() && n == bodies@.len(),
            bi <= n,
            fx.wf(),
            flags@.len() == bi,
            ({
                let r = bullet_pass_upto(bs0, sb_in, *fx, bi as nat);
                &&& bodies@ == r.0
                &&& *sb == r.1
                &&& flags@ == r.2
            }),
            forall|i: int| 0 <= i < n ==> (#[trigger] bodies@[i]).wf(),
            forall|i: int| 0 <= i < n ==> same_kind(#[trigger] bodies@[i], bs0[i]),
            forall|i: int| 0 <= i < flags@.len() ==> (#[trigger] flags@[i]
                ==> bodies@[i].is_bullet()),
            n >= 1,
            bs0[0].is_player(),
            forall|i: int| 1 <= i < n ==> !(#[trigger] bs0[i]).is_player(),
            bodies@[0] == bs0[0],
            sb.patient_hp == sb_in.patient_hp,
            sb_in.score <= sb.score,
        decreases n - bi,
    {
        if bodies[bi].is_bullet() {
            let ghost seq_pre = bodies@;
            let ghost sb_pre = *sb;
            let mut j: usize = 0;
            let mut hit_any = false;
            while j < n
                invariant
                    n == bs0.len() && n == bodies@.len(),
                    j <= n,
                    bi < n,
                    fx.wf(),
                    ({
                        let r = bullet_cells_upto(seq_pre, sb_pre, bi as int, *fx, j as nat);
                        &&& bodies@ == r.0
                        &&& *sb == r.1
                        &&& hit_any == r.2
                    }),
                    forall|i: int| 0 <= i < n ==> (#[trigger] bodies@[i]).wf(),
                    forall|i: int| 0 <= i < n ==> same_kind(#[trigger] bodies@[i], seq_pre[i]),
                    forall|i: int| 0 <= i < n ==> ((#[trigger] bodies@[i]).is_cell()
                        || bodies@[i] == seq_pre[i]),
                    n >= 1,
                    !seq_pre[0].is_cell(),
                    bodies@[0] == seq_pre[0],
                    sb.patient_hp == sb_pre.patient_hp,
                    sb_pre.score <= sb.score,
                decreases n - j,
            {
                if j != bi && bodies[j].is_cell() {
                    let bl = bodies[bi];
                    let mut c = bodies[j];
                    let dx = c.pos.x - bl.pos.x;
                    let dy = c.pos.y - bl.pos.y;
                    proof {
                        lemma_mul_cap(dx as int, dx as int, 2 * POS_CAP as int, 2 * POS_CAP as int);
                        lemma_mul_cap(dy as int, dy as int, 2 * POS_CAP as int, 2 * POS_CAP as int);
                        lemma_mul_cap(
                            BULLET_RADIUS as int + c.radius as int,
                            BULLET_RADIUS as int + c.radius as int,
                            2 * R_CAP as int,
                            2 * R_CAP as int,
                        );
                    }
                    let q = dx * dx + dy * dy;
                    let rsum = BULLET_RADIUS + c.radius;
                    if q <= rsum * rsum {
                        c.damage_cell(PLAYER_BULLET_DAMAGE);
                        if !no_knockback_zone(fx, bl.pos.x) {
                            c.vel = Vec2 {
                                x: c.vel.x,
                                y: clamp_i64(c.vel.y + KNOCKBACK_VEL, -VEL_CAP, VEL_CAP),
                            };
                            c.acc = Vec2 {
                                x: c.acc.x,
                                y: clamp_i64(c.acc.y - KNOCKBACK_ACC, -ACC_CAP, ACC_CAP),
                            };
                        }
                        if bodies[j].is_germ() {
                            sb.add_score();
                        }
                        bodies[j] = c;
                        hit_any = true;
                    }
                }
                j = j + 1;
            }
            flags.push(hit_any);
        } else {
            flags.push(false);
        }
        bi = bi + 1;
    }
    let ghost pre = bodies@;
    remove_marked(bodies, &flags);
    proof {
        lemma_remove_marked_keeps_player(pre, flags@, n as nat);
    }
}

/// One step of the cell-cell pass: resolve the unordered pair `(i, j)`; if
/// the cells overlapped and are of different kinds, both lose target radius.
pub open spec fn cell_pair_step(bs: Seq<Body>, i: int, j: int) -> Seq<Body> {
    if !bs[i].is_cell() || !bs[j].is_cell() {
        bs
    } else {
        let r = collide_spec(bs[i], bs[j]);
        let cross = r.2 && !same_cell_type(r.0.cell().cell_type, r.1.cell().cell_type);
        let a2 = if cross {
            cell_damaged(r.0, CELL_INTERCOLLISION_DAMAGE as int)
        } else {
            r.0
        };
        let b2 = if cross {
            cell_damaged(r.1, CELL_INTERCOLLISION_DAMAGE as int)
        } else {
            r.1
        };
        bs.update(i, a2).update(j, b2)
    }
}

/// Pairs `(i, i+1) .. (i, m-1)` resolved in order.
pub open spec fn cell_inner_upto(bs: Seq<Body>, i: int, m: nat) -> Seq<Body>
    decreases m,
{
    if m == 0 || m <= i + 1 {
        bs
    } else {
        cell_pair_step(cell_inner_upto(bs, i, (m - 1) as nat), i, m - 1)
    }
}

/// All unordered pairs with first index below `n`, resolved in
/// lexicographic order.
pub open spec fn cell_pass_upto(bs: Seq<Body>, n: nat) -> Seq<Body>
    decreases n,
{
    if n == 0 {
        bs
    } else {
        cell_inner_upto(cell_pass_upto(bs, (n - 1) as nat), n - 1, bs.len() as nat)
    }
}

/// Resolve every unordered pair of cells; cross-kind contacts damage both
/// cells' target radii.
pub fn cell_cell_collisions(bodies: &mut Vec<Body>)
    requires
        forall|i: int| 0 <= i < old(bodies)@.len() ==> (#[trigger] old(bodies)@[i]).wf(),
    ensures
        final(bodies)@ == cell_pass_upto(old(bodies)@, old(bodies)@.len() as nat),
        final(bodies)@.len() == old(bodies)@.len(),
        forall|i: int| 0 <= i < final(bodies)@.len() ==> (#[trigger] final(bodies)@[i]).wf(),
        forall|i: int| 0 <= i < final(bodies)@.len()
            ==> same_kind(#[trigger] final(bodies)@[i], old(bodies)@[i]),
{
    let ghost bs0 = bodies@;
    let n = bodies.len();
    let mut i: usize = 0;
    while i < n
        invariant
            n == bs0.len() && n == bodies@.len(),
            i <= n,
            bodies@ == cell_pass_upto(bs0, i as nat),
            forall|k: int| 0 <= k < n ==> (#[trigger] bodies@[k]).wf(),
            forall|k: int| 0 <= k < n ==> same_kind(#[trigger] bodies@[k], bs0[k]),
        decreases n - i,
    {
        let ghost seq_outer = bodies@;
        let mut j: usize = i + 1;
        while j < n
            invariant
                n == bs0.len() && n == bodies@.len() && n == seq_outer.len(),
                i < j <= n,
                i < n,
                bodies@ == cell_inner_upto(seq_outer, i as int, j as nat),
                forall|k: int| 0 <= k < n ==> (#[trigger] bodies@[k]).wf(),
                forall|k: int| 0 <= k < n ==> same_kind(#[trigger] bodies@[k], seq_outer[k]),
            decreases n - j,
        {
            if bodies[i].is_cell() && bodies[j].is_cell() {
                let mut a = bodies[i];
                let mut b = bodies[j];
                let hit = elastic_collision(&mut a, &mut b);
                let cross = {
                    let (ta, tb) = match (a.role, b.role) {
                        (crate::body::Role::Cell(ca), crate::body::Role::Cell(cb)) => (
                            ca.cell_type,
                            cb.cell_type,
                        ),
                        _ => (crate::body::CellType::Germ, crate::body::CellType::Germ),
                    };
                    hit && !cell_types_match(&ta, &tb)
                };
                if cross {
                    a.damage_cell(CELL_INTERCOLLISION_DAMAGE);
                    b.damage_cell(CELL_INTERCOLLISION_DAMAGE);
                }
                bodies[i] = a;
                bodies[j] = b;
            }
            j = j + 1;
        }
        i = i + 1;
    }
}

} // verus!
