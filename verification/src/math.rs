//! Exact integer linear algebra for placing entities.
//!
//! Positions, offsets and velocities are carried as triples of fixed-point
//! integer coordinates; an orientation is a 3x3 integer matrix. Working over
//! the integers keeps every statement about a composed position exact: a
//! fragment spawned by a destroyed asteroid sits at `r * o + t`, where `r` is
//! the parent's rotation, `o` the child template's local offset and `t` the
//! parent's translation.

use vstd::prelude::*;

verus! {

/// Largest magnitude a coordinate or matrix entry may have while every
/// product and sum computed here still fits in an `i64`.
pub const COORD_BOUND: i64 = 0x4000_0000;

/// A point, offset or velocity in arena space, in fixed-point coordinates.
#[derive(Clone, Copy, Debug, PartialEq, Eq, Structural)]
pub struct Vec3 {
    pub x: i64,
    pub y: i64,
    pub z: i64,
}

/// A linear map (in practice a rotation) given by its three rows.
#[derive(Clone, Copy, Debug, PartialEq, Eq, Structural)]
pub struct Mat3 {
    pub rx: Vec3,
    pub ry: Vec3,
    pub rz: Vec3,
}

/// A rigid placement in arena space: rotate, then translate.
#[derive(Clone, Copy, Debug, PartialEq, Eq, Structural)]
pub struct Transform3 {
    pub rot: Mat3,
    pub pos: Vec3,
}

impl Vec3 {
    /// Every coordinate lies in `[-b, b]`.
    pub open spec fn bounded(self, b: int) -> bool {
        &&& -b <= self.x <= b
        &&& -b <= self.y <= b
        &&& -b <= self.z <= b
    }

    /// The origin.
    pub fn zero() -> (r: Vec3)
        ensures
            r == (Vec3 { x: 0i64, y: 0i64, z: 0i64 }),
    {
        Vec3 { x: 0, y: 0, z: 0 }
    }
}

impl Mat3 {
    /// Every entry lies in `[-b, b]`.
    pub open spec fn bounded(self, b: int) -> bool {
        &&& self.rx.bounded(b)
        &&& self.ry.bounded(b)
        &&& self.rz.bounded(b)
    }
}

impl Transform3 {
    /// Rotation entries and translation coordinates all lie in `[-b, b]`.
    pub open spec fn bounded(self, b: int) -> bool {
        &&& self.rot.bounded(b)
        &&& self.pos.bounded(b)
    }
}

/// Mathematical inner product of two coordinate triples.
pub open spec fn spec_dot(a: Vec3, b: Vec3) -> int {
    a.x * b.x + a.y * b.y + a.z * b.z
}

/// The image of `v` under `m`, then shifted by `t`, one coordinate at a time.
pub open spec fn spec_apply(m: Mat3, v: Vec3, t: Vec3) -> (int, int, int) {
    (
        spec_dot(m.rx, v) + t.x,
        spec_dot(m.ry, v) + t.y,
        spec_dot(m.rz, v) + t.z,
    )
}

proof fn lemma_product_bounded(a: i64, b: i64, bound: int)
    requires
        0 <= bound,
        -bound <= a <= bound,
        -bound <= b <= bound,
    ensures
        -(bound * bound) <= a * b <= bound * bound,
{
    assert(-(bound * bound) <= a * b <= bound * bound) by (nonlinear_arith)
        requires
            0 <= bound,
            -bound <= a <= bound,
            -bound <= b <= bound,
    ;
}

/// Inner product of two bounded triples, exactly as the mathematical one.
pub fn dot(a: &Vec3, b: &Vec3) -> (d: i64)
    requires
        a.bounded(COORD_BOUND as int),
        b.bounded(COORD_BOUND as int),
    ensures
        d == spec_dot(*a, *b),
        -3 * (COORD_BOUND as int * COORD_BOUND as int) <= d
            <= 3 * (COORD_BOUND as int * COORD_BOUND as int),
{
    proof {
        lemma_product_bounded(a.x, b.x, COORD_BOUND as int);
        lemma_product_bounded(a.y, b.y, COORD_BOUND as int);
        lemma_product_bounded(a.z, b.z, COORD_BOUND as int);
    }
    a.x * b.x + a.y * b.y + a.z * b.z
}

/// Rotates `v` by `m` and translates by `t`: the affine placement `m * v + t`.
pub fn rotate_translate(m: &Mat3, v: &Vec3, t: &Vec3) -> (r: Vec3)
    requires
        m.bounded(COORD_BOUND as int),
        v.bounded(COORD_BOUND as int),
        t.bounded(COORD_BOUND as int),
    ensures
        (r.x as int, r.y as int, r.z as int) == spec_apply(*m, *v, *t),
{
    let x = dot(&m.rx, v) + t.x;
    let y = dot(&m.ry, v) + t.y;
    let z = dot(&m.rz, v) + t.z;
    Vec3 { x, y, z }
}

/// World position of a fragment: the parent's rotation applied to the child
/// template's local offset, then the parent's translation added.
pub fn fragment_world_position(parent: &Transform3, offset: &Vec3) -> (p: Vec3)
    requires
        parent.bounded(COORD_BOUND as int),
        offset.bounded(COORD_BOUND as int),
    ensures
        (p.x as int, p.y as int, p.z as int) == spec_apply(parent.rot, *offset, parent.pos),
{
    rotate_translate(&parent.rot, offset, &parent.pos)
}

/// Whether every coordinate of the triple is within the representable range.
pub fn within_coord_bound(v: &Vec3) -> (r: bool)
    ensures
        r == v.bounded(COORD_BOUND as int),
{
    -COORD_BOUND <= v.x && v.x <= COORD_BOUND && -COORD_BOUND <= v.y && v.y <= COORD_BOUND
        && -COORD_BOUND <= v.z && v.z <= COORD_BOUND
}

/// Whether every entry of the matrix is within the representable range.
pub fn mat_within_coord_bound(m: &Mat3) -> (r: bool)
    ensures
        r == m.bounded(COORD_BOUND as int),
{
    within_coord_bound(&m.rx) && within_coord_bound(&m.ry) && within_coord_bound(&m.rz)
}

/// The opposite of a bounded triple, coordinate by coordinate.
pub fn neg(v: &Vec3) -> (r: Vec3)
    requires
        v.bounded(COORD_BOUND as int),
    ensures
        r.x == -v.x && r.y == -v.y && r.z == -v.z,
{
    Vec3 { x: -v.x, y: -v.y, z: -v.z }
}

} // verus!
