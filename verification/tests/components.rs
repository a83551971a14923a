//! Component-level behavior: templates, placement math, asteroids, the
//! points ledger, and the contact adapter.

use asteroid_core::asteroid::Asteroid;
use asteroid_core::contacts::adapt_events;
use asteroid_core::contacts::Contact;
use asteroid_core::contacts::RawContact;
use asteroid_core::math::dot;
use asteroid_core::math::fragment_world_position;
use asteroid_core::math::neg;
use asteroid_core::math::rotate_translate;
use asteroid_core::math::Mat3;
use asteroid_core::math::Transform3;
use asteroid_core::math::Vec3;
use asteroid_core::points::PointsLedger;
use asteroid_core::table::HandleTable;
use asteroid_core::templates::TemplateStore;

fn v(x: i64, y: i64, z: i64) -> Vec3 {
    Vec3 { x, y, z }
}

#[test]
fn default_forest_shape() {
    let store = TemplateStore::default_forest();
    assert_eq!(store.nodes.len(), 3);
    assert_eq!(store.roots, vec![0]);
    assert_eq!(store.nodes[0].hit_points, 3);
    assert_eq!(store.nodes[0].point_value, 3);
    assert_eq!(store.nodes[0].children, vec![1, 2]);
    assert_eq!(store.nodes[1].hit_points, 2);
    assert_eq!(store.nodes[2].hit_points, 1);
    assert!(store.nodes[1].children.is_empty());
    assert!(store.nodes[2].children.is_empty());
}

#[test]
fn flatten_is_preorder() {
    let store = TemplateStore::default_forest();
    assert_eq!(store.flatten(), vec![0, 1, 2]);
}

#[test]
fn flatten_deeper_forest_is_preorder() {
    // Two roots; the first has a child with its own child.
    let mut store = TemplateStore::default_forest();
    store.nodes[0].children = vec![1];
    store.nodes[1].children = vec![2];
    store.roots = vec![0, 2];
    assert_eq!(store.flatten(), vec![0, 1, 2, 2]);
}

/// Spawning from any template starts at exactly the template's hit points.
#[test]
fn spawn_starts_with_template_hit_points() {
    let store = TemplateStore::default_forest();
    for idx in 0..store.len() {
        let a = Asteroid::from_template(&store, idx);
        assert_eq!(a.hits_remaining, store.nodes[idx].hit_points);
        assert_eq!(a.point_value, store.nodes[idx].point_value);
        assert_eq!(a.template, idx);
    }
}

#[test]
fn register_hit_saturates_at_zero() {
    let store = TemplateStore::default_forest();
    let mut a = Asteroid::from_template(&store, 2);
    assert_eq!(a.hits_remaining, 1);
    assert!(a.register_hit());
    assert_eq!(a.hits_remaining, 0);
    // A further hit saturates instead of wrapping around.
    assert!(a.register_hit());
    assert_eq!(a.hits_remaining, 0);
}

#[test]
fn dot_product_exact() {
    assert_eq!(dot(&v(1, 2, 3), &v(4, -5, 6)), 4 - 10 + 18);
}

/// A fragment's world position is the parent rotation applied to the local
/// offset, then the parent translation added: `r * o + t`.
#[test]
fn fragment_position_rotates_then_translates() {
    // A quarter turn around the vertical axis in fixed-point thousandths:
    // x maps to -z, z maps to x.
    let rot = Mat3 {
        rx: v(0, 0, 1000),
        ry: v(0, 1000, 0),
        rz: v(-1000, 0, 0),
    };
    let parent = Transform3 { rot, pos: v(10, 20, 30) };
    let offset = v(2, 0, 0);
    let p = fragment_world_position(&parent, &offset);
    assert_eq!(p, v(10, 20, -2000 + 30));
}

#[test]
fn rotate_translate_identity_keeps_offset() {
    let rot = Mat3 {
        rx: v(1, 0, 0),
        ry: v(0, 1, 0),
        rz: v(0, 0, 1),
    };
    let r = rotate_translate(&rot, &v(7, -8, 9), &v(1, 1, 1));
    assert_eq!(r, v(8, -7, 10));
}

#[test]
fn neg_flips_every_coordinate() {
    assert_eq!(neg(&v(3, -4, 0)), v(-3, 4, 0));
}

/// The score total is the sum of the tick's events, whatever order they
/// are drained in.
#[test]
fn score_sum_is_order_independent() {
    let mut first = PointsLedger::new();
    let added = first.apply_events(&vec![3, 1, 2]);
    assert_eq!(added, 6);
    let mut second = PointsLedger::new();
    second.apply_events(&vec![2, 3, 1]);
    assert_eq!(first.total, 6);
    assert_eq!(second.total, 6);
}

#[test]
fn score_resets_to_zero() {
    let mut ledger = PointsLedger::new();
    ledger.apply_events(&vec![5]);
    ledger.reset();
    assert_eq!(ledger.total, 0);
}

#[test]
fn score_saturates_at_maximum() {
    let mut ledger = PointsLedger::new();
    ledger.apply_events(&vec![u64::MAX - 1]);
    ledger.apply_events_saturating(&vec![5, 7]);
    assert_eq!(ledger.total, u64::MAX);
}

#[test]
fn handle_table_attaches_once() {
    let mut table = HandleTable::new();
    table.attach(7, 100);
    table.attach(7, 200);
    assert_eq!(table.lookup(7), Some(100));
    assert_eq!(table.lookup(8), None);
}

/// The adapter republishes exactly the resolvable events, in order, and
/// drops the rest.
#[test]
fn adapter_drops_unresolvable_events() {
    let mut table = HandleTable::new();
    table.attach(1, 10);
    table.attach(2, 20);
    let raw = vec![
        RawContact::Started(1, 2),
        RawContact::Started(1, 3),
        RawContact::Stopped(2, 1),
        RawContact::Stopped(3, 3),
    ];
    let out = adapt_events(&table, &raw);
    assert_eq!(
        out,
        vec![Contact::Started(10, 20), Contact::Stopped(20, 10)]
    );
}
