//! The arena boundary as one-way platforms.
//!
//! Six static colliders bound the arena, each registered with its
//! inward-facing normal. When the solver asks about a contact pair, the
//! hook answers with the allowed normal for the pair's *first* collider
//! slot: the registered normal as-is when the boundary collider sits in the
//! first slot, and flipped when it sits in the second — the manifold normal
//! convention is asymmetric, pointing out of the first collider's shape.
//! Pairs without a boundary collider pass through with a zero normal, which
//! constrains nothing.

use vstd::prelude::*;

use crate::math::neg;
use crate::math::Vec3;
use crate::math::COORD_BOUND;

verus! {

/// Solver skin tolerance for the one-way constraint, in thousandths of a
/// unit.
pub const ONE_WAY_SKIN_MILLI: i64 = 100;

/// A coordinate axis of the arena.
#[derive(Clone, Copy, Debug, PartialEq, Eq, Structural)]
pub enum Axis {
    /// The first coordinate.
    X,
    /// The second coordinate.
    Y,
    /// The third coordinate.
    Z,
}

/// The triple with this axis' coordinate replaced by `value`.
pub open spec fn spec_axis_set(a: Axis, v: Vec3, value: i64) -> Vec3 {
    match a {
        Axis::X => Vec3 { x: value, y: v.y, z: v.z },
        Axis::Y => Vec3 { x: v.x, y: value, z: v.z },
        Axis::Z => Vec3 { x: v.x, y: v.y, z: value },
    }
}

/// The arena dimensions reordered as (major, minor, tertiary) for a plane
/// spanned by the two given axes; the same axis twice spans no plane.
pub open spec fn spec_axis_sizes(major: Axis, minor: Axis, x: i64, y: i64, z: i64) -> Option<
    (i64, i64, i64),
> {
    match (major, minor) {
        (Axis::X, Axis::Y) => Some((x, y, z)),
        (Axis::X, Axis::Z) => Some((x, z, y)),
        (Axis::Y, Axis::X) => Some((y, x, z)),
        (Axis::Y, Axis::Z) => Some((y, z, x)),
        (Axis::Z, Axis::X) => Some((z, x, y)),
        (Axis::Z, Axis::Y) => Some((z, y, x)),
        _ => None,
    }
}

/// The axis perpendicular to the plane spanned by the two given axes.
pub open spec fn spec_axis_tertiary(major: Axis, minor: Axis) -> Option<Axis> {
    match (major, minor) {
        (Axis::X, Axis::Y) | (Axis::Y, Axis::X) => Some(Axis::Z),
        (Axis::X, Axis::Z) | (Axis::Z, Axis::X) => Some(Axis::Y),
        (Axis::Z, Axis::Y) | (Axis::Y, Axis::Z) => Some(Axis::X),
        _ => None,
    }
}

/// Which side of the arena the plane sits on, by axis-pair orientation.
pub open spec fn spec_axis_sign(major: Axis, minor: Axis) -> Option<i64> {
    match (major, minor) {
        (Axis::X, Axis::Y) => Some(1i64),
        (Axis::X, Axis::Z) => Some(1i64),
        (Axis::Y, Axis::X) => Some(-1i64),
        (Axis::Y, Axis::Z) => Some(1i64),
        (Axis::Z, Axis::X) => Some(-1i64),
        (Axis::Z, Axis::Y) => Some(-1i64),
        _ => None,
    }
}

impl Axis {
    /// Replaces this axis' coordinate of `v` by `value`.
    pub fn set_component(self, v: Vec3, value: i64) -> (r: Vec3)
        ensures
            r == spec_axis_set(self, v, value),
    {
        match self {
            Axis::X => Vec3 { x: value, y: v.y, z: v.z },
            Axis::Y => Vec3 { x: v.x, y: value, z: v.z },
            Axis::Z => Vec3 { x: v.x, y: v.y, z: value },
        }
    }

    /// Reorders the arena dimensions as (major, minor, tertiary) for the
    /// plane spanned by the two axes.
    pub fn sizes(major: Axis, minor: Axis, x: i64, y: i64, z: i64) -> (r: Option<(i64, i64, i64)>)
        ensures
            r == spec_axis_sizes(major, minor, x, y, z),
    {
        match (major, minor) {
            (Axis::X, Axis::Y) => Some((x, y, z)),
            (Axis::X, Axis::Z) => Some((x, z, y)),
            (Axis::Y, Axis::X) => Some((y, x, z)),
            (Axis::Y, Axis::Z) => Some((y, z, x)),
            (Axis::Z, Axis::X) => Some((z, x, y)),
            (Axis::Z, Axis::Y) => Some((z, y, x)),
            _ => None,
        }
    }

    /// The axis perpendicular to the plane spanned by the two axes.
    pub fn tertiary(major: Axis, minor: Axis) -> (r: Option<Axis>)
        ensures
            r == spec_axis_tertiary(major, minor),
    {
        match (major, minor) {
            (Axis::X, Axis::Y) | (Axis::Y, Axis::X) => Some(Axis::Z),
            (Axis::X, Axis::Z) | (Axis::Z, Axis::X) => Some(Axis::Y),
            (Axis::Z, Axis::Y) | (Axis::Y, Axis::Z) => Some(Axis::X),
            _ => None,
        }
    }

    /// Which side of the arena the plane sits on.
    pub fn sign(major: Axis, minor: Axis) -> (r: Option<i64>)
        ensures
            r == spec_axis_sign(major, minor),
    {
        match (major, minor) {
            (Axis::X, Axis::Y) => Some(1),
            (Axis::X, Axis::Z) => Some(1),
            (Axis::Y, Axis::X) => Some(-1),
            (Axis::Y, Axis::Z) => Some(1),
            (Axis::Z, Axis::X) => Some(-1),
            (Axis::Z, Axis::Y) => Some(-1),
            _ => None,
        }
    }
}

/// One bounding plane of the arena, ready to hand to the physics engine:
/// the static collider's extents, its offset from the arena center, and
/// its inward-facing unit normal in thousandths.
#[derive(Clone, Copy, Debug, PartialEq, Eq, Structural)]
pub struct PlaneSpec {
    /// Extents of the plane's collider: the major and minor dimensions on
    /// their axes, zero across the plane.
    pub extents: Vec3,
    /// Offset of the collider from the arena center, half the tertiary
    /// dimension along the tertiary axis, signed by the plane's side.
    pub offset: Vec3,
    /// Inward-facing unit normal in thousandths: opposite the offset.
    pub inward_normal: Vec3,
}

/// The plane a valid axis pair describes, over the arena dimensions.
pub open spec fn spec_plane(major: Axis, minor: Axis, x: i64, y: i64, z: i64) -> Option<
    PlaneSpec,
> {
    match (
        spec_axis_sizes(major, minor, x, y, z),
        spec_axis_tertiary(major, minor),
        spec_axis_sign(major, minor),
    ) {
        (Some((ma, mi, te)), Some(taxis), Some(sign)) => {
            let zero = Vec3 { x: 0, y: 0, z: 0 };
            Some(
                PlaneSpec {
                    extents: spec_axis_set(minor, spec_axis_set(major, zero, ma), mi),
                    offset: spec_axis_set(taxis, zero, (te / 2 * sign) as i64),
                    inward_normal: spec_axis_set(taxis, zero, (-1000 * sign) as i64),
                },
            )
        },
        _ => None,
    }
}

/// Lays out one bounding plane of the arena: collider extents on the two
/// spanned axes, the offset to the arena's face, and the inward normal the
/// one-way hook is registered with. The same axis twice spans no plane.
pub fn plane_spec(major: Axis, minor: Axis, x: i64, y: i64, z: i64) -> (r: Option<PlaneSpec>)
    requires
        0 <= x <= COORD_BOUND,
        0 <= y <= COORD_BOUND,
        0 <= z <= COORD_BOUND,
    ensures
        r == spec_plane(major, minor, x, y, z),
{
    let sizes = Axis::sizes(major, minor, x, y, z);
    let taxis = Axis::tertiary(major, minor);
    let sign = Axis::sign(major, minor);
    match (sizes, taxis, sign) {
        (Some((ma, mi, te)), Some(taxis), Some(sign)) => {
            let zero = Vec3::zero();
            let extents = minor.set_component(major.set_component(zero, ma), mi);
            let offset = taxis.set_component(zero, te / 2 * sign);
            let inward_normal = taxis.set_component(zero, -1000 * sign);
            Some(PlaneSpec { extents, offset, inward_normal })
        },
        _ => None,
    }
}

/// The boundary colliders, each with its inward-facing normal, keyed by
/// collider identity.
#[derive(Clone, Debug)]
pub struct BoundaryRegistry {
    /// Pairs of collider identity and inward-facing normal.
    pub planes: Vec<(u64, Vec3)>,
}

/// First registered normal for the collider, if it is a boundary plane.
pub open spec fn spec_plane_normal(planes: Seq<(u64, Vec3)>, id: u64) -> Option<Vec3>
    decreases planes.len(),
{
    if planes.len() == 0 {
        None
    } else if planes[0].0 == id {
        Some(planes[0].1)
    } else {
        spec_plane_normal(planes.drop_first(), id)
    }
}

/// The allowed normal for the first contact slot: the registered inward
/// normal when the first collider is a boundary plane, its opposite when
/// the second one is, and zero — no constraint — otherwise.
pub open spec fn spec_allowed_normal(planes: Seq<(u64, Vec3)>, first: u64, second: u64) -> Vec3 {
    match spec_plane_normal(planes, first) {
        Some(n) => n,
        None => match spec_plane_normal(planes, second) {
            Some(n) => Vec3 { x: -n.x as i64, y: -n.y as i64, z: -n.z as i64 },
            None => Vec3 { x: 0, y: 0, z: 0 },
        },
    }
}

impl BoundaryRegistry {
    /// Every registered normal is within the representable range.
    pub open spec fn wf(self) -> bool {
        forall|i: int|
            0 <= i < self.planes@.len() ==> (#[trigger] self.planes@[i]).1.bounded(
                COORD_BOUND as int,
            )
    }

    /// An empty registry: nothing is a boundary plane yet.
    pub fn new() -> (r: BoundaryRegistry)
        ensures
            r.planes@ == Seq::<(u64, Vec3)>::empty(),
            r.wf(),
    {
        BoundaryRegistry { planes: Vec::new() }
    }

    /// Registers one boundary collider with its inward-facing normal.
    pub fn register(&mut self, id: u64, inward_normal: Vec3)
        requires
            old(self).wf(),
            inward_normal.bounded(COORD_BOUND as int),
        ensures
            final(self).planes@ == old(self).planes@.push((id, inward_normal)),
            final(self).wf(),
    {
        self.planes.push((id, inward_normal));
    }

    /// Looks a collider up among the boundary planes.
    pub fn plane_normal(&self, id: u64) -> (r: Option<Vec3>)
        ensures
            r == spec_plane_normal(self.planes@, id),
    {
        let n = self.planes.len();
        let mut i: usize = 0;
        while i < n
            invariant
                n == self.planes@.len(),
                0 <= i <= n,
                forall|m: int| 0 <= m < i ==> (#[trigger] self.planes@[m]).0 != id,
            decreases n - i,
        {
            let (pid, normal) = self.planes[i];
            if pid == id {
                proof {
                    lemma_plane_normal_found(self.planes@, id, i as int);
                }
                return Some(normal);
            }
            i = i + 1;
        }
        proof {
            lemma_plane_normal_absent(self.planes@, id);
        }
        None
    }

    /// Answers the solver's contact-modification query for a pair: the
    /// allowed one-way normal for the first slot, flipped when the boundary
    /// collider occupies the second slot.
    pub fn allowed_local_normal(&self, first: u64, second: u64) -> (n: Vec3)
        requires
            self.wf(),
        ensures
            n == spec_allowed_normal(self.planes@, first, second),
    {
        match self.plane_normal(first) {
            Some(normal) => normal,
            None => match self.plane_normal(second) {
                Some(normal) => {
                    proof {
                        lemma_plane_normal_bounded(self.planes@, second, COORD_BOUND as int);
                    }
                    neg(&normal)
                },
                None => Vec3::zero(),
            },
        }
    }
}

/// A lookup that stops at `k` returns that plane's normal.
proof fn lemma_plane_normal_found(planes: Seq<(u64, Vec3)>, id: u64, k: int)
    requires
        0 <= k < planes.len(),
        planes[k].0 == id,
        forall|m: int| 0 <= m < k ==> (#[trigger] planes[m]).0 != id,
    ensures
        spec_plane_normal(planes, id) == Some(planes[k].1),
    decreases planes.len(),
{
    if k > 0 {
        assert forall|m: int| 0 <= m < k - 1 implies (#[trigger] planes.drop_first()[m]).0
            != id by {
            assert(planes.drop_first()[m] == planes[m + 1]);
        }
        lemma_plane_normal_found(planes.drop_first(), id, k - 1);
    }
}

/// A lookup over planes without the collider finds nothing.
proof fn lemma_plane_normal_absent(planes: Seq<(u64, Vec3)>, id: u64)
    requires
        forall|m: int| 0 <= m < planes.len() ==> (#[trigger] planes[m]).0 != id,
    ensures
        spec_plane_normal(planes, id) is None,
    decreases planes.len(),
{
    if planes.len() > 0 {
        assert forall|m: int| 0 <= m < planes.drop_first().len() implies (
        #[trigger] planes.drop_first()[m]).0 != id by {
            assert(planes.drop_first()[m] == planes[m + 1]);
        }
        lemma_plane_normal_absent(planes.drop_first(), id);
    }
}

/// A normal found in a well-formed registry is within the representable
/// range.
proof fn lemma_plane_normal_bounded(planes: Seq<(u64, Vec3)>, id: u64, b: int)
    requires
        forall|i: int| 0 <= i < planes.len() ==> (#[trigger] planes[i]).1.bounded(b),
        spec_plane_normal(planes, id) is Some,
    ensures
        match spec_plane_normal(planes, id) {
            Some(n) => n.bounded(b),
            None => true,
        },
    decreases planes.len(),
{
    if planes.len() > 0 && planes[0].0 != id {
        assert forall|i: int| 0 <= i < planes.drop_first().len() implies (
        #[trigger] planes.drop_first()[i]).1.bounded(b) by {
            assert(planes.drop_first()[i] == planes[i + 1]);
        }
        lemma_plane_normal_bounded(planes.drop_first(), id, b);
    }
}

} // verus!
