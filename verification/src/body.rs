//! The body registry's data model: circular bodies with fixed-point position,
//! velocity, acceleration, radius and restitution, tagged by role.

use vstd::prelude::*;
use crate::config::{POS_CAP, VEL_CAP, ACC_CAP, R_CAP, ARENA_CAP, SCALE_MILLI};

verus! {

/// A fixed-point 2D vector in milliunits.
#[derive(Clone, Copy, PartialEq, Eq, Structural, Debug)]
pub struct Vec2 {
    pub x: i64,
    pub y: i64,
}

impl Vec2 {
    /// Both components lie within `[-cap, cap]`.
    pub open spec fn within(self, cap: int) -> bool {
        &&& -cap <= self.x <= cap
        &&& -cap <= self.y <= cap
    }

    pub fn new(x: i64, y: i64) -> (v: Vec2)
        ensures
            v == (Vec2 { x, y }),
    {
        Vec2 { x, y }
    }

    pub fn zero() -> (v: Vec2)
        ensures
            v == (Vec2 { x: 0i64, y: 0i64 }),
    {
        Vec2 { x: 0, y: 0 }
    }
}

/// What kind of cell a cell body is.
#[derive(Clone, Copy, PartialEq, Eq, Structural, Debug)]
pub enum CellType {
    /// A cell of the patient's own blood; destroying it costs the patient
    /// `patient_hp` health.
    Blood { patient_hp: i32 },
    /// A hostile germ.
    Germ,
}

/// The cell-specific state carried by bodies with the cell role.
#[derive(Clone, Copy, PartialEq, Eq, Structural, Debug)]
pub struct CellData {
    pub cell_type: CellType,
    /// The radius the body's current radius eases toward; collision damage
    /// lowers it.
    pub target_radius: i64,
    /// A private ceiling the cell may not rise above; it recedes upward over
    /// time so freshly spawned cells scroll into view.
    pub top_bound: i64,
    /// Health the patient recovers (or loses, if negative) when this cell
    /// reaches the bottom of the arena, before size scaling.
    pub patient_hp: i32,
}

/// The role tag selecting a body's behavior.
#[derive(Clone, Copy, PartialEq, Eq, Structural, Debug)]
pub enum Role {
    Player,
    Bullet,
    Cell(CellData),
}

/// One simulated circular body.
#[derive(Clone, Copy, PartialEq, Eq, Structural, Debug)]
pub struct Body {
    /// Stable handle for the external render layer; unique in a registry.
    pub id: u64,
    pub pos: Vec2,
    pub vel: Vec2,
    pub acc: Vec2,
    /// Current radius; also the body's mass in collision math (equal-density
    /// assumption), so it must never be negative.
    pub radius: i64,
    /// Restitution against walls, in thousandths (0..=1000).
    pub elasticity: i64,
    pub role: Role,
}

/// Two registry entries describe the same logical body: same handle, same
/// role category and same current radius (position, velocity and damage may
/// differ).
pub open spec fn same_kind(a: Body, b: Body) -> bool {
    &&& a.id == b.id
    &&& a.radius == b.radius
    &&& (a.role is Cell) == (b.role is Cell)
    &&& (a.role is Player) == (b.role is Player)
    &&& (a.role is Bullet) == (b.role is Bullet)
}

/// Whether two cells are of the same kind (any two blood cells match, any
/// two germs match).
pub open spec fn same_cell_type(a: CellType, b: CellType) -> bool {
    ||| (a is Blood && b is Blood)
    ||| (a is Germ && b is Germ)
}

/// Compare two cell kinds.
pub fn cell_types_match(a: &CellType, b: &CellType) -> (r: bool)
    ensures
        r == same_cell_type(*a, *b),
{
    match (a, b) {
        (CellType::Blood { .. }, CellType::Blood { .. }) => true,
        (CellType::Germ, CellType::Germ) => true,
        _ => false,
    }
}

/// `b` with its cell's target radius lowered by `damage`, clamped at zero:
/// damage never turns into healing and a target never goes negative. A body
/// that is not a cell is unchanged.
pub open spec fn cell_damaged(b: Body, damage: int) -> Body {
    match b.role {
        Role::Cell(c) => Body {
            role: Role::Cell(CellData {
                target_radius: if c.target_radius - damage >= 0 {
                    (c.target_radius - damage) as i64
                } else {
                    0i64
                },
                ..c
            }),
            ..b
        },
        _ => b,
    }
}

impl Body {
    pub open spec fn spec_is_cell(&self) -> bool {
        self.role is Cell
    }

    pub open spec fn spec_is_bullet(&self) -> bool {
        self.role is Bullet
    }

    pub open spec fn spec_is_player(&self) -> bool {
        self.role is Player
    }

    #[verifier::when_used_as_spec(spec_is_cell)]
    pub fn is_cell(&self) -> (r: bool)
        ensures
            r == self.spec_is_cell(),
    {
        matches!(self.role, Role::Cell(_))
    }

    #[verifier::when_used_as_spec(spec_is_bullet)]
    pub fn is_bullet(&self) -> (r: bool)
        ensures
            r == self.spec_is_bullet(),
    {
        matches!(self.role, Role::Bullet)
    }

    #[verifier::when_used_as_spec(spec_is_player)]
    pub fn is_player(&self) -> (r: bool)
        ensures
            r == self.spec_is_player(),
    {
        matches!(self.role, Role::Player)
    }

    /// The cell payload of a cell body.
    pub open spec fn cell(self) -> CellData
        recommends
            self.is_cell(),
    {
        self.role->Cell_0
    }

    pub open spec fn spec_is_germ(&self) -> bool {
        self.is_cell() && self.cell().cell_type is Germ
    }

    #[verifier::when_used_as_spec(spec_is_germ)]
    pub fn is_germ(&self) -> (r: bool)
        ensures
            r == self.spec_is_germ(),
    {
        match self.role {
            Role::Cell(c) => matches!(c.cell_type, CellType::Germ),
            _ => false,
        }
    }

    /// Deal `damage` to this body's target radius (no-op on non-cells).
    pub fn damage_cell(&mut self, damage: i64)
        requires
            old(self).wf(),
            0 <= damage <= R_CAP,
        ensures
            *final(self) == cell_damaged(*old(self), damage as int),
            final(self).wf(),
    {
        match self.role {
            Role::Cell(c) => {
                let new_target = if c.target_radius - damage >= 0 {
                    c.target_radius - damage
                } else {
                    0
                };
                self.role = Role::Cell(CellData { target_radius: new_target, ..c });
            },
            _ => {},
        }
    }

    /// Well-formedness: every field inside the caps that keep all the
    /// fixed-point arithmetic of the simulation free of overflow.
    pub open spec fn wf(self) -> bool {
        &&& self.pos.within(POS_CAP as int)
        &&& self.vel.within(VEL_CAP as int)
        &&& self.acc.within(ACC_CAP as int)
        &&& 0 <= self.radius <= R_CAP
        &&& 0 <= self.elasticity <= SCALE_MILLI
        &&& match self.role {
            Role::Cell(c) => {
                &&& 0 <= c.target_radius <= R_CAP
                &&& -ARENA_CAP <= c.top_bound <= POS_CAP + R_CAP
                &&& -100 <= c.patient_hp <= 100
                &&& match c.cell_type {
                    CellType::Blood { patient_hp } => -100 <= patient_hp <= 100,
                    CellType::Germ => true,
                }
            },
            _ => true,
        }
    }
}

} // verus!
