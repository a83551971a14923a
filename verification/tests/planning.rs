//! The spawner state machine, collision shape planning, and the arena
//! boundary hook.

use asteroid_core::boundary::plane_spec;
use asteroid_core::boundary::Axis;
use asteroid_core::boundary::BoundaryRegistry;
use asteroid_core::game::AppState;
use asteroid_core::game::StateMachine;
use asteroid_core::game::TransitionError;
use asteroid_core::math::Vec3;
use asteroid_core::shapes::plan_collision_shape;
use asteroid_core::shapes::BuildOutcome;
use asteroid_core::shapes::ConvexPart;
use asteroid_core::shapes::MassOverride;
use asteroid_core::shapes::MassPlan;
use asteroid_core::shapes::MeshData;
use asteroid_core::shapes::MeshTopology;
use asteroid_core::shapes::ShapeError;
use asteroid_core::shapes::ShapeSource;
use asteroid_core::spawner::Spawner;
use asteroid_core::templates::TemplateStore;

fn v(x: i64, y: i64, z: i64) -> Vec3 {
    Vec3 { x, y, z }
}

#[test]
fn spawner_arms_two_seconds_on_first_tick() {
    let mut spawner = Spawner::Idle;
    let r = spawner.tick(16, 3);
    assert!(r.is_none());
    assert_eq!(spawner, Spawner::Armed { remaining_ms: 2000 });
}

#[test]
fn spawner_counts_down_without_spawning() {
    let mut spawner = Spawner::Armed { remaining_ms: 2000 };
    let r = spawner.tick(500, 3);
    assert!(r.is_none());
    assert_eq!(spawner, Spawner::Armed { remaining_ms: 1500 });
}

#[test]
fn spawner_emits_request_in_documented_ranges() {
    let store = TemplateStore::default_forest();
    let flat = store.flatten();
    let mut spawner = Spawner::Armed { remaining_ms: 10 };
    let r = spawner.tick(16, flat.len());
    let req = r.expect("countdown expired, a spawn request is due");
    assert!(req.template_slot < flat.len());
    assert!((5000..8000).contains(&req.speed_milli));
    assert!((500..1500).contains(&req.scale_x_milli));
    assert!((500..1500).contains(&req.scale_y_milli));
    assert!((500..1500).contains(&req.scale_z_milli));
    for c in [req.direction.x, req.direction.y, req.direction.z] {
        assert!(c != 0 && (-1000..=1000).contains(&c));
    }
    match spawner {
        Spawner::Armed { remaining_ms } => assert!((1000..3000).contains(&remaining_ms)),
        Spawner::Idle => panic!("the spawner must rearm after a spawn"),
    }
}

#[test]
fn prebaked_parts_are_scaled_and_degenerate_skipped() {
    let parts = vec![
        ConvexPart {
            vertices: vec![v(1, 2, 3), v(-4, 5, -6)],
            hull_degenerate: false,
        },
        ConvexPart {
            vertices: vec![v(9, 9, 9)],
            hull_degenerate: true,
        },
        ConvexPart {
            vertices: vec![v(7, 0, -1)],
            hull_degenerate: false,
        },
    ];
    let outcome = plan_collision_shape(&ShapeSource::Prebaked(parts), 1000, 2000, 500, None);
    match outcome {
        BuildOutcome::Built(plan) => {
            assert!(!plan.runtime_decomposition);
            assert_eq!(plan.parts.len(), 2);
            assert_eq!(plan.parts[0], vec![v(1000, 4000, 1500), v(-4000, 10000, -3000)]);
            assert_eq!(plan.parts[1], vec![v(7000, 0, -500)]);
            assert_eq!(
                plan.mass,
                MassPlan::DeriveCompound { density_permille: 100 }
            );
        }
        _ => panic!("a loaded prebaked asset must yield a plan"),
    }
}

#[test]
fn mass_override_wins_over_density() {
    let over = MassOverride {
        mass_milli: 1000,
        center: v(0, 0, 0),
        principal_inertia: v(500, 500, 500),
    };
    let outcome =
        plan_collision_shape(&ShapeSource::Prebaked(vec![]), 1000, 1000, 1000, Some(over));
    match outcome {
        BuildOutcome::Built(plan) => assert_eq!(plan.mass, MassPlan::Explicit(over)),
        _ => panic!("an empty prebaked asset still yields a plan"),
    }
}

#[test]
fn pending_assets_are_skipped_this_tick() {
    assert!(matches!(
        plan_collision_shape(&ShapeSource::PrebakedPending, 1000, 1000, 1000, None),
        BuildOutcome::NotReady
    ));
    assert!(matches!(
        plan_collision_shape(&ShapeSource::MeshPending, 1000, 1000, 1000, None),
        BuildOutcome::NotReady
    ));
}

fn mesh(topology: MeshTopology, positions: bool, indices: bool, u32_indices: bool) -> ShapeSource {
    ShapeSource::Mesh(MeshData {
        topology,
        has_positions: positions,
        has_indices: indices,
        indices_are_u32: u32_indices,
        vertices: vec![v(1, 1, 1), v(2, 2, 2), v(3, 3, 3)],
    })
}

#[test]
fn broken_mesh_assets_fail_loudly() {
    let cases = [
        (
            mesh(MeshTopology::TriangleStrip, true, true, true),
            ShapeError::NotTriangleList,
        ),
        (
            mesh(MeshTopology::LineList, true, true, true),
            ShapeError::NotTriangleList,
        ),
        (
            mesh(MeshTopology::TriangleList, false, true, true),
            ShapeError::MissingPositions,
        ),
        (
            mesh(MeshTopology::TriangleList, true, false, true),
            ShapeError::MissingIndices,
        ),
        (
            mesh(MeshTopology::TriangleList, true, true, false),
            ShapeError::NonU32Indices,
        ),
    ];
    for (source, expected) in cases {
        match plan_collision_shape(&source, 1000, 1000, 1000, None) {
            BuildOutcome::Failed(e) => assert_eq!(e, expected),
            _ => panic!("a broken mesh asset must fail the build"),
        }
    }
}

#[test]
fn sound_mesh_goes_to_runtime_decomposition() {
    let outcome = plan_collision_shape(
        &mesh(MeshTopology::TriangleList, true, true, true),
        2000,
        2000,
        2000,
        None,
    );
    match outcome {
        BuildOutcome::Built(plan) => {
            assert!(plan.runtime_decomposition);
            assert_eq!(plan.parts.len(), 1);
            assert_eq!(
                plan.parts[0],
                vec![v(2000, 2000, 2000), v(4000, 4000, 4000), v(6000, 6000, 6000)]
            );
        }
        _ => panic!("a sound triangle mesh must yield a plan"),
    }
}

#[test]
fn boundary_normal_follows_contact_slot() {
    let mut registry = BoundaryRegistry::new();
    registry.register(1, v(0, 1000, 0));
    registry.register(2, v(-1000, 0, 0));
    // Boundary in the first slot: the registered inward normal as-is.
    assert_eq!(registry.allowed_local_normal(1, 99), v(0, 1000, 0));
    // Boundary in the second slot: flipped, since the manifold normal
    // points out of the first collider's shape.
    assert_eq!(registry.allowed_local_normal(99, 1), v(0, -1000, 0));
    assert_eq!(registry.allowed_local_normal(99, 2), v(1000, 0, 0));
    // No boundary collider in the pair: an unconstraining zero normal.
    assert_eq!(registry.allowed_local_normal(98, 99), v(0, 0, 0));
    assert_eq!(registry.plane_normal(2), Some(v(-1000, 0, 0)));
    assert_eq!(registry.plane_normal(3), None);
}

/// The six axis pairs lay out the six faces of the arena, with inward
/// normals covering every direction; a degenerate pair spans no plane.
#[test]
fn plane_layout_covers_all_six_faces() {
    let d = 100_000; // the arena measures 100 units on each side
    let pairs = [
        (Axis::X, Axis::Y, v(0, 0, -1000), v(0, 0, 50_000)),
        (Axis::X, Axis::Z, v(0, -1000, 0), v(0, 50_000, 0)),
        (Axis::Y, Axis::X, v(0, 0, 1000), v(0, 0, -50_000)),
        (Axis::Y, Axis::Z, v(-1000, 0, 0), v(50_000, 0, 0)),
        (Axis::Z, Axis::X, v(0, 1000, 0), v(0, -50_000, 0)),
        (Axis::Z, Axis::Y, v(1000, 0, 0), v(-50_000, 0, 0)),
    ];
    let mut registry = BoundaryRegistry::new();
    for (i, (major, minor, normal, offset)) in pairs.into_iter().enumerate() {
        let plane = plane_spec(major, minor, d, d, d).expect("a valid pair spans a plane");
        assert_eq!(plane.inward_normal, normal);
        assert_eq!(plane.offset, offset);
        registry.register(i as u64, plane.inward_normal);
    }
    assert!(plane_spec(Axis::X, Axis::X, d, d, d).is_none());
    // The hook flips the floor's inward normal when the floor collider sits
    // in the second contact slot.
    assert_eq!(registry.allowed_local_normal(2, 50), v(0, 0, 1000));
    assert_eq!(registry.allowed_local_normal(50, 2), v(0, 0, -1000));
}

#[test]
fn despawn_timer_counts_down_and_expires() {
    let mut timer = asteroid_core::util::DespawnTimer::new(5000);
    assert!(!timer.tick(4000));
    assert_eq!(timer.remaining_ms, 1000);
    assert!(timer.tick(1500));
    assert_eq!(timer.remaining_ms, 0);
    // Ticking an expired timer keeps it expired.
    assert!(timer.tick(16));
}

#[test]
fn state_machine_replace_semantics() {
    let mut state = StateMachine::new(AppState::InGame);
    assert_eq!(state.request_replace(AppState::InGame), Err(TransitionError::SameState));
    assert_eq!(state.request_replace(AppState::End), Ok(()));
    assert_eq!(
        state.request_replace(AppState::Home),
        Err(TransitionError::AlreadyQueued)
    );
    assert_eq!(state.pending, Some(AppState::End));
    state.apply_pending();
    assert_eq!(state.current, AppState::End);
    assert_eq!(state.pending, None);
    state.apply_pending();
    assert_eq!(state.current, AppState::End);
}
