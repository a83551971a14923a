//! End-to-end scenarios of the contact pipeline.

use asteroid_core::contacts::Contact;
use asteroid_core::contacts::RawContact;
use asteroid_core::game::AppState;
use asteroid_core::game::GameSession;
use asteroid_core::game::StateMachine;
use asteroid_core::game::TransitionError;
use asteroid_core::math::Mat3;
use asteroid_core::math::Transform3;
use asteroid_core::math::Vec3;
use asteroid_core::resolvers::resolve_tick;
use asteroid_core::resolvers::GameWorld;
use asteroid_core::templates::TemplateStore;

fn v(x: i64, y: i64, z: i64) -> Vec3 {
    Vec3 { x, y, z }
}

fn identity_transform() -> Transform3 {
    Transform3 {
        rot: Mat3 {
            rx: v(1000, 0, 0),
            ry: v(0, 1000, 0),
            rz: v(0, 0, 1000),
        },
        pos: v(0, 0, 0),
    }
}

fn fresh_session() -> GameSession {
    let mut session = GameSession::new(TemplateStore::default_forest());
    session.enter_game();
    session
}

/// Scenario: the root template (three hit points, three points, two child
/// templates with hit points two and one) takes three sequential bullet
/// hits: the root is destroyed, the score grows by three, and exactly two
/// fragment asteroids exist with hit counts two and one.
#[test]
fn root_template_three_hits_fragments() {
    let mut session = fresh_session();
    session
        .world
        .spawn_asteroid(100, 0, identity_transform(), v(7, 0, 0), v(0, 0, 1));
    session.attach_collider(999, 100);
    for i in 0..3u64 {
        let bullet = 200 + i;
        let handle = 1000 + i;
        session.world.bullets.push(bullet);
        session.attach_collider(handle, bullet);
        let raw = vec![RawContact::Started(handle, 999)];
        let fx = session.tick(&raw);
        assert_eq!(fx.despawned_bullets, vec![bullet]);
        if i < 2 {
            assert_eq!(session.world.asteroids.len(), 1);
            assert_eq!(
                session.world.asteroids[0].asteroid.hits_remaining,
                2 - i as u8
            );
            assert!(fx.destroyed_asteroids.is_empty());
            assert_eq!(session.ledger.total, 0);
        }
    }
    assert_eq!(session.ledger.total, 3);
    assert_eq!(session.world.asteroids.len(), 2);
    assert_eq!(session.world.asteroids[0].asteroid.hits_remaining, 2);
    assert_eq!(session.world.asteroids[1].asteroid.hits_remaining, 1);
    // Fragments inherit the destroyed parent's velocities.
    assert_eq!(session.world.asteroids[0].linear_velocity, v(7, 0, 0));
    assert_eq!(session.world.asteroids[1].angular_velocity, v(0, 0, 1));
    // The parent is gone.
    assert!(session.world.asteroids.iter().all(|a| a.id != 100));
}

/// Two simultaneous bullet hits on an asteroid with one remaining hit
/// destroy it exactly once and spawn exactly one fragment per child
/// template; the hit count saturates at zero instead of wrapping.
#[test]
fn simultaneous_hits_destroy_once() {
    let store = TemplateStore::default_forest();
    let mut world = GameWorld {
        store,
        ship: None,
        bullets: vec![1, 2],
        walls: vec![],
        asteroids: vec![],
    };
    // Template at arena index 2 has one hit point and no children.
    world.spawn_asteroid(50, 2, identity_transform(), v(0, 0, 0), v(0, 0, 0));
    let events = vec![Contact::Started(1, 50), Contact::Started(2, 50)];
    let fx = resolve_tick(&mut world, &events);
    assert_eq!(fx.destroyed_asteroids, vec![50]);
    assert_eq!(fx.score_events, vec![1]);
    assert_eq!(fx.fragments.len(), 0);
    assert_eq!(world.asteroids[0].asteroid.hits_remaining, 0);
    assert_eq!(fx.despawned_bullets, vec![1, 2]);
}

/// The same double hit on the root template brought down to one hit:
/// exactly one destruction and exactly two fragments.
#[test]
fn simultaneous_hits_on_root_fragment_once() {
    let store = TemplateStore::default_forest();
    let mut world = GameWorld {
        store,
        ship: None,
        bullets: vec![1, 2, 3, 4],
        walls: vec![],
        asteroids: vec![],
    };
    world.spawn_asteroid(70, 0, identity_transform(), v(0, 0, 0), v(0, 0, 0));
    // Wear the root down from three hits to one.
    let fx = resolve_tick(&mut world, &vec![Contact::Started(1, 70), Contact::Started(2, 70)]);
    assert!(fx.destroyed_asteroids.is_empty());
    assert_eq!(world.asteroids[0].asteroid.hits_remaining, 1);
    // Two simultaneous hits now destroy it exactly once.
    let fx = resolve_tick(&mut world, &vec![Contact::Started(3, 70), Contact::Started(4, 70)]);
    assert_eq!(fx.destroyed_asteroids, vec![70]);
    assert_eq!(fx.score_events, vec![3]);
    assert_eq!(fx.fragments.len(), 2);
    assert_eq!(world.asteroids[0].asteroid.hits_remaining, 0);
}

/// A bullet that contacts a wall and an asteroid in the same tick is
/// despawned exactly once.
#[test]
fn bullet_wall_and_asteroid_despawn_once() {
    let store = TemplateStore::default_forest();
    let mut world = GameWorld {
        store,
        ship: None,
        bullets: vec![1],
        walls: vec![2],
        asteroids: vec![],
    };
    world.spawn_asteroid(3, 0, identity_transform(), v(0, 0, 0), v(0, 0, 0));
    let events = vec![Contact::Started(1, 2), Contact::Started(1, 3)];
    let fx = resolve_tick(&mut world, &events);
    assert_eq!(fx.despawned_bullets, vec![1]);
    assert_eq!(world.asteroids[0].asteroid.hits_remaining, 2);
}

/// Scenario: the ship collides with a live asteroid; the application state
/// becomes the game-over state exactly once, even when several ship
/// contacts start in the same tick.
#[test]
fn ship_contact_ends_game_once() {
    let mut session = fresh_session();
    session.state = StateMachine::new(AppState::InGame);
    session.world.ship = Some(1);
    session
        .world
        .spawn_asteroid(2, 0, identity_transform(), v(0, 0, 0), v(0, 0, 0));
    session
        .world
        .spawn_asteroid(3, 1, identity_transform(), v(0, 0, 0), v(0, 0, 0));
    session.attach_collider(11, 1);
    session.attach_collider(12, 2);
    session.attach_collider(13, 3);
    // Both orders, and two asteroids at once.
    let raw = vec![
        RawContact::Started(11, 12),
        RawContact::Started(13, 11),
        RawContact::Started(12, 11),
    ];
    let fx = session.tick(&raw);
    assert!(fx.game_over);
    assert_eq!(session.state.current, AppState::InGame);
    assert_eq!(session.state.pending, Some(AppState::End));
    session.state.apply_pending();
    assert_eq!(session.state.current, AppState::End);
    // A second game-over request is refused and changes nothing.
    assert_eq!(
        session.state.request_replace(AppState::End),
        Err(TransitionError::SameState)
    );
    assert_eq!(session.state.current, AppState::End);
}

/// Scenario: a contact event whose collider handle is not yet mapped to an
/// entity produces zero resolver side effects.
#[test]
fn unresolved_contact_has_no_effects() {
    let mut session = fresh_session();
    session
        .world
        .spawn_asteroid(100, 0, identity_transform(), v(0, 0, 0), v(0, 0, 0));
    session.world.bullets.push(200);
    session.attach_collider(999, 100);
    // The bullet's collider was created this tick and has no owner yet.
    let raw = vec![RawContact::Started(777, 999)];
    let fx = session.tick(&raw);
    assert!(fx.despawned_bullets.is_empty());
    assert!(fx.destroyed_asteroids.is_empty());
    assert!(fx.fragments.is_empty());
    assert!(fx.score_events.is_empty());
    assert!(!fx.game_over);
    assert_eq!(session.world.asteroids[0].asteroid.hits_remaining, 3);
    assert_eq!(session.world.bullets, vec![200]);
    assert_eq!(session.ledger.total, 0);
}

/// When no fresh identifiers remain for the fragments, the destroyed
/// parent is still removed but nothing is spawned in its place.
#[test]
fn fragments_skipped_without_identifier_room() {
    let mut session = fresh_session();
    session.next_entity_id = u64::MAX;
    session
        .world
        .spawn_asteroid(50, 2, identity_transform(), v(0, 0, 0), v(0, 0, 0));
    session.world.bullets.push(1);
    session.attach_collider(11, 1);
    session.attach_collider(12, 50);
    // Destroying the one-hit leaf yields no fragments, so identifier room
    // is never needed and the removal still happens.
    let fx = session.tick(&vec![RawContact::Started(11, 12)]);
    assert_eq!(fx.destroyed_asteroids, vec![50]);
    assert!(session.world.asteroids.is_empty());
}

/// A fragment whose computed placement leaves the representable coordinate
/// range is not inserted back into the world; the destruction itself still
/// stands.
#[test]
fn unrepresentable_fragments_are_dropped() {
    let bound = 0x4000_0000;
    let extreme = Transform3 {
        rot: Mat3 {
            rx: v(bound, bound, bound),
            ry: v(bound, bound, bound),
            rz: v(bound, bound, bound),
        },
        pos: v(bound, bound, bound),
    };
    let mut session = fresh_session();
    session.world.spawn_asteroid(70, 0, extreme, v(0, 0, 0), v(0, 0, 0));
    session.world.bullets.extend([1, 2, 3]);
    for (handle, entity) in [(11, 1), (12, 2), (13, 3), (14, 70)] {
        session.attach_collider(handle, entity);
    }
    let raw = vec![
        RawContact::Started(11, 14),
        RawContact::Started(12, 14),
        RawContact::Started(13, 14),
    ];
    let fx = session.tick(&raw);
    assert_eq!(fx.destroyed_asteroids, vec![70]);
    assert_eq!(fx.fragments.len(), 2);
    // The fragments' positions overflow the coordinate range, so none were
    // spawned; the score still counts.
    assert!(session.world.asteroids.is_empty());
    assert_eq!(session.ledger.total, 3);
}

/// A stopped contact is republished but drives no resolver.
#[test]
fn stopped_contact_is_ignored_by_resolvers() {
    let mut session = fresh_session();
    session
        .world
        .spawn_asteroid(100, 0, identity_transform(), v(0, 0, 0), v(0, 0, 0));
    session.world.bullets.push(200);
    session.attach_collider(999, 100);
    session.attach_collider(888, 200);
    let raw = vec![RawContact::Stopped(888, 999)];
    let fx = session.tick(&raw);
    assert!(fx.despawned_bullets.is_empty());
    assert_eq!(session.world.asteroids[0].asteroid.hits_remaining, 3);
}

/// Leaving the in-game state despawns every game-owned entity
/// deterministically.
#[test]
fn exit_game_clears_game_entities() {
    let mut session = fresh_session();
    session.world.ship = Some(1);
    session.world.bullets.push(2);
    session.world.walls.push(3);
    session
        .world
        .spawn_asteroid(4, 0, identity_transform(), v(0, 0, 0), v(0, 0, 0));
    session.exit_game();
    assert!(session.world.ship.is_none());
    assert!(session.world.bullets.is_empty());
    assert!(session.world.walls.is_empty());
    assert!(session.world.asteroids.is_empty());
}

/// Entering the in-game state resets the score to zero.
#[test]
fn enter_game_resets_score() {
    let mut session = fresh_session();
    session
        .world
        .spawn_asteroid(50, 2, identity_transform(), v(0, 0, 0), v(0, 0, 0));
    session.world.bullets.push(1);
    session.attach_collider(11, 1);
    session.attach_collider(12, 50);
    let _ = session.tick(&vec![RawContact::Started(11, 12)]);
    assert_eq!(session.ledger.total, 1);
    session.enter_game();
    assert_eq!(session.ledger.total, 0);
}
