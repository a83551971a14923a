//! Collision shape planning.
//!
//! A spawned entity needs a composite collision shape. When a precomputed
//! convex-decomposition asset exists, each of its convex parts is scaled by
//! the instance's world scale and kept unless its hull was reported
//! degenerate — a degenerate part is skipped silently for a graceful partial
//! shape. Without a precomputed asset the raw triangle mesh goes through
//! runtime convex decomposition instead, and a mesh that is not a triangle
//! list, or that lacks positions or usable indices, is a broken content
//! asset: the plan fails loudly rather than producing a wrong shape. An
//! asset that simply has not finished loading is no error — the entity is
//! skipped this tick and retried on a later one.
//!
//! Scaled coordinates are exact products: a vertex in fixed-point
//! thousandths scaled by a per-axis factor in thousandths comes out in
//! millionths.

use vstd::prelude::*;

use crate::math::Vec3;
use crate::math::COORD_BOUND;

verus! {

/// Density, in thousandths, used to derive mass properties when the spawn
/// request supplies no explicit override.
pub const DENSITY_PERMILLE: u64 = 100;

/// Largest per-axis world scale, in thousandths, the planner accepts while
/// keeping every scaled coordinate exact in an `i64`.
pub const SCALE_LIMIT_MILLI: u32 = 65536;

/// How a mesh's vertices are assembled into primitives.
#[derive(Clone, Copy, Debug, PartialEq, Eq, Structural)]
pub enum MeshTopology {
    /// Isolated points.
    PointList,
    /// Isolated line segments.
    LineList,
    /// A connected strip of line segments.
    LineStrip,
    /// Isolated triangles — the only topology the decomposition accepts.
    TriangleList,
    /// A connected strip of triangles.
    TriangleStrip,
}

/// One precomputed convex part of a decomposed mesh.
#[derive(Clone, Debug)]
pub struct ConvexPart {
    /// The part's vertices in the entity's local frame.
    pub vertices: Vec<Vec3>,
    /// Whether the hull builder reported this part's hull degenerate; such
    /// a part is skipped silently.
    pub hull_degenerate: bool,
}

/// What this core reads of a raw triangle mesh asset.
#[derive(Clone, Debug)]
pub struct MeshData {
    /// How the vertices form primitives.
    pub topology: MeshTopology,
    /// Whether the mesh carries vertex positions.
    pub has_positions: bool,
    /// Whether the mesh carries an index buffer.
    pub has_indices: bool,
    /// Whether the index buffer is in the 32-bit format the decomposition
    /// reads.
    pub indices_are_u32: bool,
    /// The vertex positions, in the entity's local frame.
    pub vertices: Vec<Vec3>,
}

/// Where the collision geometry of a spawned entity comes from.
#[derive(Clone, Debug)]
pub enum ShapeSource {
    /// A precomputed convex-decomposition asset exists but has not finished
    /// loading; retry on a later tick.
    PrebakedPending,
    /// The loaded precomputed convex parts.
    Prebaked(Vec<ConvexPart>),
    /// The render mesh is the fallback source but has not finished loading.
    MeshPending,
    /// The loaded raw triangle mesh, for runtime decomposition.
    Mesh(MeshData),
}

/// Why a mesh asset cannot yield a collision shape. Each of these marks a
/// broken content pipeline and stops the build loudly.
#[derive(Clone, Copy, Debug, PartialEq, Eq, Structural)]
pub enum ShapeError {
    /// The mesh's primitive topology is not a triangle list.
    NotTriangleList,
    /// The mesh carries no vertex positions.
    MissingPositions,
    /// The mesh carries no index buffer.
    MissingIndices,
    /// The index buffer is not in the 32-bit format.
    NonU32Indices,
}

/// An explicit mass override supplied by the spawn request, in fixed-point
/// units.
#[derive(Clone, Copy, Debug, PartialEq, Eq, Structural)]
pub struct MassOverride {
    /// Mass in thousandths.
    pub mass_milli: u64,
    /// Center of mass in the entity's local frame.
    pub center: Vec3,
    /// Principal angular inertia, per axis.
    pub principal_inertia: Vec3,
}

/// Where the entity's mass properties come from.
#[derive(Clone, Copy, Debug, PartialEq, Eq, Structural)]
pub enum MassPlan {
    /// The spawn request supplied the mass properties.
    Explicit(MassOverride),
    /// Derive mass and inertia from the compound shape at the fixed density.
    DeriveCompound {
        /// The density, in thousandths.
        density_permille: u64,
    },
}

/// The planned composite shape: the convex parts' scaled vertices, whether
/// runtime decomposition is still needed, and the mass decision.
#[derive(Clone, Debug)]
pub struct ShapePlan {
    /// Scaled vertex lists, one per convex part kept.
    pub parts: Vec<Vec<Vec3>>,
    /// Whether the engine must still decompose the geometry at runtime
    /// (the costlier fallback path).
    pub runtime_decomposition: bool,
    /// The mass decision.
    pub mass: MassPlan,
}

/// Result of planning a shape for one entity this tick.
#[derive(Clone, Debug)]
pub enum BuildOutcome {
    /// The needed asset has not loaded yet: skip the entity this tick and
    /// retry on a later one.
    NotReady,
    /// The plan, ready to hand to the physics engine.
    Built(ShapePlan),
    /// The content asset is broken; stop fast.
    Failed(ShapeError),
}

/// A vertex scaled per axis: exact products, in millionths.
pub open spec fn spec_scaled(v: Vec3, sx: u32, sy: u32, sz: u32) -> Vec3 {
    Vec3 { x: (v.x * sx) as i64, y: (v.y * sy) as i64, z: (v.z * sz) as i64 }
}

/// A whole vertex list scaled per axis.
pub open spec fn spec_scaled_seq(vs: Seq<Vec3>, sx: u32, sy: u32, sz: u32) -> Seq<Vec3> {
    vs.map(|k: int, v: Vec3| spec_scaled(v, sx, sy, sz))
}

/// The scaled vertex lists of the non-degenerate parts, in order.
pub open spec fn spec_kept_parts(parts: Seq<ConvexPart>, sx: u32, sy: u32, sz: u32) -> Seq<
    Seq<Vec3>,
>
    decreases parts.len(),
{
    if parts.len() == 0 {
        Seq::empty()
    } else {
        let rest = spec_kept_parts(parts.drop_last(), sx, sy, sz);
        if parts.last().hull_degenerate {
            rest
        } else {
            rest.push(spec_scaled_seq(parts.last().vertices@, sx, sy, sz))
        }
    }
}

/// Every vertex of the part is within the representable coordinate range.
pub open spec fn part_bounded(p: ConvexPart) -> bool {
    forall|j: int|
        0 <= j < p.vertices@.len() ==> (#[trigger] p.vertices@[j]).bounded(COORD_BOUND as int)
}

/// Every vertex the source carries is within the representable range.
pub open spec fn source_bounded(source: ShapeSource) -> bool {
    match source {
        ShapeSource::PrebakedPending => true,
        ShapeSource::Prebaked(parts) => forall|i: int|
            0 <= i < parts@.len() ==> part_bounded(#[trigger] parts@[i]),
        ShapeSource::MeshPending => true,
        ShapeSource::Mesh(m) => forall|j: int|
            0 <= j < m.vertices@.len() ==> (#[trigger] m.vertices@[j]).bounded(
                COORD_BOUND as int,
            ),
    }
}

/// The mass decision: the explicit override when the spawn request supplies
/// one, otherwise derivation from the compound shape at the fixed density.
pub open spec fn spec_mass_plan(mass_override: Option<MassOverride>) -> MassPlan {
    match mass_override {
        Some(m) => MassPlan::Explicit(m),
        None => MassPlan::DeriveCompound { density_permille: DENSITY_PERMILLE as u64 },
    }
}

proof fn lemma_scale_in_range(v: Vec3, sx: u32, sy: u32, sz: u32)
    requires
        v.bounded(COORD_BOUND as int),
        sx <= SCALE_LIMIT_MILLI,
        sy <= SCALE_LIMIT_MILLI,
        sz <= SCALE_LIMIT_MILLI,
    ensures
        -(COORD_BOUND as int) * (SCALE_LIMIT_MILLI as int) <= v.x * sx <= (COORD_BOUND as int) * (
        SCALE_LIMIT_MILLI as int),
        -(COORD_BOUND as int) * (SCALE_LIMIT_MILLI as int) <= v.y * sy <= (COORD_BOUND as int) * (
        SCALE_LIMIT_MILLI as int),
        -(COORD_BOUND as int) * (SCALE_LIMIT_MILLI as int) <= v.z * sz <= (COORD_BOUND as int) * (
        SCALE_LIMIT_MILLI as int),
{
    assert forall|a: i64, s: u32|
        -(COORD_BOUND as int) <= a <= COORD_BOUND as int && s <= SCALE_LIMIT_MILLI implies -(
        COORD_BOUND as int) * (SCALE_LIMIT_MILLI as int) <= #[trigger] (a * s)
            <= (COORD_BOUND as int) * (SCALE_LIMIT_MILLI as int) by {
        assert(-(COORD_BOUND as int) * (SCALE_LIMIT_MILLI as int) <= a * s <= (COORD_BOUND as int)
            * (SCALE_LIMIT_MILLI as int)) by (nonlinear_arith)
            requires
                -(COORD_BOUND as int) <= a <= COORD_BOUND as int,
                0 <= s <= SCALE_LIMIT_MILLI as int,
        ;
    }
}

/// Scales one vertex by the per-axis world scale, exactly.
fn scale_point(v: &Vec3, sx: u32, sy: u32, sz: u32) -> (r: Vec3)
    requires
        v.bounded(COORD_BOUND as int),
        sx <= SCALE_LIMIT_MILLI,
        sy <= SCALE_LIMIT_MILLI,
        sz <= SCALE_LIMIT_MILLI,
    ensures
        r == spec_scaled(*v, sx, sy, sz),
{
    proof {
        lemma_scale_in_range(*v, sx, sy, sz);
    }
    Vec3 { x: v.x * sx as i64, y: v.y * sy as i64, z: v.z * sz as i64 }
}

/// Scales a whole vertex list by the per-axis world scale.
fn scale_points(vs: &Vec<Vec3>, sx: u32, sy: u32, sz: u32) -> (r: Vec<Vec3>)
    requires
        forall|j: int| 0 <= j < vs@.len() ==> (#[trigger] vs@[j]).bounded(COORD_BOUND as int),
        sx <= SCALE_LIMIT_MILLI,
        sy <= SCALE_LIMIT_MILLI,
        sz <= SCALE_LIMIT_MILLI,
    ensures
        r@ == spec_scaled_seq(vs@, sx, sy, sz),
{
    let mut out: Vec<Vec3> = Vec::new();
    let n = vs.len();
    let mut j: usize = 0;
    while j < n
        invariant
            n == vs@.len(),
            0 <= j <= n,
            forall|m: int| 0 <= m < vs@.len() ==> (#[trigger] vs@[m]).bounded(COORD_BOUND as int),
            sx <= SCALE_LIMIT_MILLI,
            sy <= SCALE_LIMIT_MILLI,
            sz <= SCALE_LIMIT_MILLI,
            out@.len() == j,
            forall|m: int| 0 <= m < j ==> out@[m] == spec_scaled(vs@[m], sx, sy, sz),
        decreases n - j,
    {
        let p = scale_point(&vs[j], sx, sy, sz);
        out.push(p);
        j = j + 1;
    }
    proof {
        assert(out@ =~= spec_scaled_seq(vs@, sx, sy, sz));
    }
    out
}

/// Plans the collision shape for one entity: keeps and scales the
/// precomputed convex parts when they are available, falls back to runtime
/// decomposition of the raw triangle mesh, fails loudly on a broken mesh
/// asset, and reports a not-yet-loaded asset as a skip for this tick.
pub fn plan_collision_shape(
    source: &ShapeSource,
    sx: u32,
    sy: u32,
    sz: u32,
    mass_override: Option<MassOverride>,
) -> (outcome: BuildOutcome)
    requires
        source_bounded(*source),
        sx <= SCALE_LIMIT_MILLI,
        sy <= SCALE_LIMIT_MILLI,
        sz <= SCALE_LIMIT_MILLI,
    ensures
        match *source {
            ShapeSource::PrebakedPending => outcome is NotReady,
            ShapeSource::MeshPending => outcome is NotReady,
            ShapeSource::Prebaked(parts) => outcome matches BuildOutcome::Built(plan) && {
                let kept = spec_kept_parts(parts@, sx, sy, sz);
                &&& plan.parts@.len() == kept.len()
                &&& forall|i: int| 0 <= i < kept.len() ==> (#[trigger] plan.parts@[i])@ == kept[i]
                &&& !plan.runtime_decomposition
                &&& plan.mass == spec_mass_plan(mass_override)
            },
            ShapeSource::Mesh(m) => {
                if m.topology != MeshTopology::TriangleList {
                    outcome == BuildOutcome::Failed(ShapeError::NotTriangleList)
                } else if !m.has_positions {
                    outcome == BuildOutcome::Failed(ShapeError::MissingPositions)
                } else if !m.has_indices {
                    outcome == BuildOutcome::Failed(ShapeError::MissingIndices)
                } else if !m.indices_are_u32 {
                    outcome == BuildOutcome::Failed(ShapeError::NonU32Indices)
                } else {
                    outcome matches BuildOutcome::Built(plan) && {
                        &&& plan.parts@.len() == 1
                        &&& plan.parts@[0]@ == spec_scaled_seq(m.vertices@, sx, sy, sz)
                        &&& plan.runtime_decomposition
                        &&& plan.mass == spec_mass_plan(mass_override)
                    }
                }
            },
        },
{
    let mass = match mass_override {
        Some(m) => MassPlan::Explicit(m),
        None => MassPlan::DeriveCompound { density_permille: DENSITY_PERMILLE },
    };
    match source {
        ShapeSource::PrebakedPending => BuildOutcome::NotReady,
        ShapeSource::MeshPending => BuildOutcome::NotReady,
        ShapeSource::Prebaked(parts) => {
            let mut kept: Vec<Vec<Vec3>> = Vec::new();
            let n = parts.len();
            let mut i: usize = 0;
            while i < n
                invariant
                    n == parts@.len(),
                    0 <= i <= n,
                    forall|m: int| 0 <= m < parts@.len() ==> part_bounded(#[trigger] parts@[m]),
                    sx <= SCALE_LIMIT_MILLI,
                    sy <= SCALE_LIMIT_MILLI,
                    sz <= SCALE_LIMIT_MILLI,
                    kept@.len() == spec_kept_parts(parts@.subrange(0, i as int), sx, sy, sz).len(),
                    forall|m: int|
                        0 <= m < kept@.len() ==> (#[trigger] kept@[m])@ == spec_kept_parts(
                            parts@.subrange(0, i as int),
                            sx,
                            sy,
                            sz,
                        )[m],
                decreases n - i,
            {
                proof {
                    assert(parts@.subrange(0, i + 1).drop_last() =~= parts@.subrange(0, i as int));
                }
                let part = &parts[i];
                if !part.hull_degenerate {
                    let scaled = scale_points(&part.vertices, sx, sy, sz);
                    kept.push(scaled);
                }
                i = i + 1;
            }
            proof {
                assert(parts@.subrange(0, n as int) =~= parts@);
            }
            BuildOutcome::Built(
                ShapePlan { parts: kept, runtime_decomposition: false, mass },
            )
        },
        ShapeSource::Mesh(m) => {
            if !matches!(m.topology, MeshTopology::TriangleList) {
                BuildOutcome::Failed(ShapeError::NotTriangleList)
            } else if !m.has_positions {
                BuildOutcome::Failed(ShapeError::MissingPositions)
            } else if !m.has_indices {
                BuildOutcome::Failed(ShapeError::MissingIndices)
            } else if !m.indices_are_u32 {
                BuildOutcome::Failed(ShapeError::NonU32Indices)
            } else {
                let scaled = scale_points(&m.vertices, sx, sy, sz);
                let mut parts: Vec<Vec<Vec3>> = Vec::new();
                parts.push(scaled);
                BuildOutcome::Built(
                    ShapePlan { parts, runtime_decomposition: true, mass },
                )
            }
        },
    }
}

} // verus!
