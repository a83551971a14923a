//! Tick-level laws of the contact pipeline.
//!
//! These proof functions state, over the fold model of `resolvers`, the
//! global guarantees of a tick: a bullet is despawned at most once however
//! many contacts it starts, and an asteroid at one remaining hit struck by
//! two simultaneous bullets is destroyed exactly once, spawning exactly one
//! fragment per child template, with no hit-count underflow observable.

use vstd::prelude::*;

use crate::contacts::Contact;
use crate::resolvers::asteroid_index;
use crate::resolvers::contains_asteroid;
use crate::resolvers::fragments_of;
use crate::resolvers::run_contacts;
use crate::resolvers::spec_despawn;
use crate::resolvers::step_contact;
use crate::resolvers::tick_model;
use crate::resolvers::GameWorld;
use crate::resolvers::TickModel;

verus! {

/// No identifier appears twice.
pub open spec fn no_dup(s: Seq<u64>) -> bool {
    forall|i: int, j: int| 0 <= i < j < s.len() ==> s[i] != s[j]
}

/// Both lists name the same entities at the same positions.
pub open spec fn ids_match(s: Seq<crate::asteroid::LiveAsteroid>, t: Seq<
    crate::asteroid::LiveAsteroid,
>) -> bool {
    &&& s.len() == t.len()
    &&& forall|i: int| 0 <= i < s.len() ==> (#[trigger] s[i]).id == t[i].id
}

impl GameWorld {
    /// Every entity has at most one role: a bullet is not a wall, an
    /// asteroid or the ship, and a wall is not an asteroid or the ship.
    pub open spec fn roles_disjoint(self) -> bool {
        &&& forall|x: u64|
            #[trigger] self.bullets@.contains(x) ==> !self.walls@.contains(x)
                && !contains_asteroid(self.asteroids@, x) && self.ship != Some(x)
        &&& forall|x: u64|
            #[trigger] self.walls@.contains(x) ==> !contains_asteroid(self.asteroids@, x)
                && self.ship != Some(x)
    }
}

/// Asteroid lookup only depends on the identifiers.
pub proof fn lemma_index_ids(
    s: Seq<crate::asteroid::LiveAsteroid>,
    t: Seq<crate::asteroid::LiveAsteroid>,
    id: u64,
)
    requires
        ids_match(s, t),
    ensures
        asteroid_index(s, id) == asteroid_index(t, id),
    decreases s.len(),
{
    if s.len() > 0 && s[0].id != id {
        assert forall|i: int| 0 <= i < s.drop_first().len() implies (
        #[trigger] s.drop_first()[i]).id == t.drop_first()[i].id by {
            assert(s.drop_first()[i] == s[i + 1]);
            assert(t.drop_first()[i] == t[i + 1]);
        }
        lemma_index_ids(s.drop_first(), t.drop_first(), id);
    }
}

/// One bullet hit never renames or reorders the asteroids: only a hit
/// count changes.
proof fn lemma_hit_ids(
    store: crate::templates::TemplateStore,
    st: TickModel,
    bullet: u64,
    ast_id: u64,
)
    ensures
        ids_match(
            st.asteroids,
            crate::resolvers::step_bullet_hit(store, st, bullet, ast_id).asteroids,
        ),
{
    crate::resolvers::lemma_asteroid_index_props(st.asteroids, ast_id);
}

/// One resolution step never renames or reorders the asteroids.
pub proof fn lemma_step_ids(w0: GameWorld, st: TickModel, c: Contact)
    ensures
        ids_match(st.asteroids, step_contact(w0, st, c).asteroids),
{
    match c {
        Contact::Stopped(_, _) => {},
        Contact::Started(a, b) => {
            let st1 = if crate::resolvers::is_ship_asteroid(w0.ship, st.asteroids, a, b) {
                TickModel { game_over: true, ..st }
            } else {
                st
            };
            lemma_hit_ids(w0.store, st1, a, b);
            lemma_hit_ids(w0.store, st1, b, a);
        },
    }
}

/// Idempotent despawning never records a bullet twice.
pub proof fn lemma_despawn_no_dup(s: Seq<u64>, b: u64)
    requires
        no_dup(s),
    ensures
        no_dup(spec_despawn(s, b)),
{
    if !s.contains(b) {
        assert forall|i: int, j: int| 0 <= i < j < spec_despawn(s, b).len() implies spec_despawn(
            s,
            b,
        )[i] != spec_despawn(s, b)[j] by {
            if j == s.len() {
                assert(spec_despawn(s, b)[i] == s[i]);
                if s[i] == b {
                    assert(s.contains(b));
                }
            }
        }
    }
}

/// Whatever one event does, the despawn list stays free of duplicates.
pub proof fn lemma_step_despawn_no_dup(w0: GameWorld, st: TickModel, c: Contact)
    requires
        no_dup(st.despawned_bullets),
    ensures
        no_dup(step_contact(w0, st, c).despawned_bullets),
{
    match c {
        Contact::Stopped(_, _) => {},
        Contact::Started(a, b) => {
            lemma_despawn_no_dup(st.despawned_bullets, a);
            lemma_despawn_no_dup(st.despawned_bullets, b);
            lemma_despawn_no_dup(spec_despawn(st.despawned_bullets, a), a);
            lemma_despawn_no_dup(spec_despawn(st.despawned_bullets, a), b);
            lemma_despawn_no_dup(spec_despawn(st.despawned_bullets, b), a);
            lemma_despawn_no_dup(spec_despawn(st.despawned_bullets, b), b);
        },
    }
}

/// Over a whole tick the despawn list stays free of duplicates.
pub proof fn lemma_run_despawn_no_dup(w0: GameWorld, st: TickModel, events: Seq<Contact>)
    requires
        no_dup(st.despawned_bullets),
    ensures
        no_dup(run_contacts(w0, st, events).despawned_bullets),
    decreases events.len(),
{
    if events.len() > 0 {
        lemma_step_despawn_no_dup(w0, st, events[0]);
        lemma_run_despawn_no_dup(w0, step_contact(w0, st, events[0]), events.drop_first());
    }
}

/// However many contacts a bullet starts in one tick — walls and asteroids
/// alike — it is despawned at most once.
pub proof fn lemma_despawned_at_most_once(w: GameWorld, events: Seq<Contact>)
    ensures
        no_dup(tick_model(w, events).despawned_bullets),
{
    lemma_run_despawn_no_dup(w, crate::resolvers::init_model(w), events);
}

/// A recorded despawn is never forgotten by a later event.
pub proof fn lemma_run_despawn_monotone(w0: GameWorld, st: TickModel, events: Seq<Contact>, b: u64)
    requires
        st.despawned_bullets.contains(b),
    ensures
        run_contacts(w0, st, events).despawned_bullets.contains(b),
    decreases events.len(),
{
    if events.len() > 0 {
        let st1 = step_contact(w0, st, events[0]);
        assert(st1.despawned_bullets.contains(b)) by {
            match events[0] {
                Contact::Stopped(_, _) => {},
                Contact::Started(x, y) => {
                    lemma_despawn_contains(st.despawned_bullets, x, b);
                    lemma_despawn_contains(st.despawned_bullets, y, b);
                    lemma_despawn_contains(spec_despawn(st.despawned_bullets, x), x, b);
                    lemma_despawn_contains(spec_despawn(st.despawned_bullets, x), y, b);
                    lemma_despawn_contains(spec_despawn(st.despawned_bullets, y), x, b);
                    lemma_despawn_contains(spec_despawn(st.despawned_bullets, y), y, b);
                },
            }
        }
        lemma_run_despawn_monotone(w0, st1, events.drop_first(), b);
    }
}

/// Despawning one bullet keeps every bullet already recorded.
pub proof fn lemma_despawn_contains(s: Seq<u64>, x: u64, b: u64)
    requires
        s.contains(b),
    ensures
        spec_despawn(s, x).contains(b),
{
    if !s.contains(x) {
        let i = choose|i: int| 0 <= i < s.len() && s[i] == b;
        assert(spec_despawn(s, x)[i] == b);
    }
}

/// One started contact pairing the given bullet with a wall or an asteroid.
pub open spec fn pairs_bullet(w: GameWorld, c: Contact, b: u64) -> bool {
    match c {
        Contact::Started(x, y) => {
            ||| (x == b && (w.walls@.contains(y) || contains_asteroid(w.asteroids@, y)))
            ||| (y == b && (w.walls@.contains(x) || contains_asteroid(w.asteroids@, x)))
        },
        Contact::Stopped(_, _) => false,
    }
}

/// If some event of the tick pairs the bullet with a wall or an asteroid,
/// the bullet ends up despawned.
proof fn lemma_run_despawns(
    w0: GameWorld,
    st: TickModel,
    events: Seq<Contact>,
    k: int,
    b: u64,
)
    requires
        w0.roles_disjoint(),
        ids_match(w0.asteroids@, st.asteroids),
        w0.bullets@.contains(b),
        0 <= k < events.len(),
        pairs_bullet(w0, events[k], b),
    ensures
        run_contacts(w0, st, events).despawned_bullets.contains(b),
    decreases events.len(),
{
    let st1 = step_contact(w0, st, events[0]);
    if k == 0 {
        match events[0] {
            Contact::Stopped(_, _) => {},
            Contact::Started(x, y) => {
                lemma_index_ids(w0.asteroids@, st.asteroids, x);
                lemma_index_ids(w0.asteroids@, st.asteroids, y);
                assert(st1.despawned_bullets.contains(b)) by {
                    let d0 = st.despawned_bullets;
                    // Whichever resolver fires first for this pairing, the
                    // bullet is recorded; anything despawned afterwards on
                    // top of that keeps the record.
                    lemma_despawn_self(d0, b);
                    lemma_despawn_contains(spec_despawn(d0, b), x, b);
                    lemma_despawn_contains(spec_despawn(d0, b), y, b);
                    lemma_despawn_self(spec_despawn(d0, x), b);
                    lemma_despawn_self(spec_despawn(d0, y), b);
                }
            },
        }
        lemma_run_despawn_monotone(w0, st1, events.drop_first(), b);
    } else {
        lemma_step_ids(w0, st, events[0]);
        assert(ids_match(w0.asteroids@, st1.asteroids));
        assert(events.drop_first()[k - 1] == events[k]);
        lemma_run_despawns(w0, st1, events.drop_first(), k - 1, b);
    }
}

/// Despawning a bullet records it.
pub proof fn lemma_despawn_self(s: Seq<u64>, b: u64)
    ensures
        spec_despawn(s, b).contains(b),
{
    if !s.contains(b) {
        assert(spec_despawn(s, b)[s.len() as int] == b);
    }
}

/// A bullet that starts any contact with a wall or an asteroid this tick —
/// even several at once — is despawned exactly once: it is in the tick's
/// despawn list, and that list holds no entry twice.
pub proof fn lemma_bullet_despawned_exactly_once(
    w: GameWorld,
    events: Seq<Contact>,
    k: int,
    b: u64,
)
    requires
        w.roles_disjoint(),
        w.bullets@.contains(b),
        0 <= k < events.len(),
        pairs_bullet(w, events[k], b),
    ensures
        tick_model(w, events).despawned_bullets.contains(b),
        no_dup(tick_model(w, events).despawned_bullets),
{
    lemma_run_despawns(w, crate::resolvers::init_model(w), events, k, b);
    lemma_despawned_at_most_once(w, events);
}

/// Two simultaneous bullet hits on an asteroid with one remaining hit
/// destroy it exactly once: one destruction, one score event, exactly one
/// fragment request per child template, and a hit count that ends at zero —
/// never below.
pub proof fn lemma_two_hits_destroy_once(w: GameWorld, b1: u64, b2: u64, id: u64, i: int)
    requires
        w.roles_disjoint(),
        w.bullets@.contains(b1),
        w.bullets@.contains(b2),
        asteroid_index(w.asteroids@, id) == Some(i),
        w.asteroids@[i].asteroid.hits_remaining == 1,
    ensures
        ({
            let m = tick_model(w, seq![Contact::Started(b1, id), Contact::Started(b2, id)]);
            let parent = w.asteroids@[i];
            &&& m.destroyed_asteroids == seq![id]
            &&& m.score_events == seq![parent.asteroid.point_value]
            &&& m.fragments.len() == w.store.nodes@[parent.asteroid.template as int].children@.len()
            &&& m.asteroids.len() == w.asteroids@.len()
            &&& m.asteroids[i].asteroid.hits_remaining == 0
        }),
{
    let e1 = Contact::Started(b1, id);
    let e2 = Contact::Started(b2, id);
    let events = seq![e1, e2];
    let st0 = crate::resolvers::init_model(w);
    crate::resolvers::lemma_asteroid_index_props(w.asteroids@, id);
    let parent = w.asteroids@[i];
    // The asteroid is neither a bullet nor a wall: mentioning the
    // membership instantiates the disjointness clauses.
    assert(!w.bullets@.contains(id)) by {
        if w.bullets@.contains(id) {
        }
    }
    assert(!w.walls@.contains(id)) by {
        if w.walls@.contains(id) {
        }
    }
    assert(!contains_asteroid(w.asteroids@, b1) && w.ship != Some(b1));
    assert(!contains_asteroid(w.asteroids@, b2) && w.ship != Some(b2));
    // First hit: the asteroid drops from one hit to zero and is destroyed.
    let st1 = step_contact(w, st0, e1);
    assert(st1.destroyed_asteroids == seq![id] && st1.score_events == seq![
        parent.asteroid.point_value,
    ] && st1.fragments == fragments_of(
        w.store,
        st1.asteroids[i],
    ) && st1.asteroids[i].asteroid.hits_remaining == 0 && st1.asteroids[i].asteroid.template
        == parent.asteroid.template && st1.asteroids.len() == w.asteroids@.len()) by {
        assert(spec_despawn(st0.despawned_bullets, b1) =~= seq![b1]);
        assert(Seq::<u64>::empty().push(id) =~= seq![id]);
        assert(Seq::<u64>::empty().push(parent.asteroid.point_value) =~= seq![
            parent.asteroid.point_value,
        ]);
        assert(Seq::<crate::resolvers::FragmentSpawn>::empty() + fragments_of(
            w.store,
            st1.asteroids[i],
        ) =~= fragments_of(w.store, st1.asteroids[i]));
    }
    lemma_step_ids(w, st0, e1);
    lemma_index_ids(st0.asteroids, st1.asteroids, id);
    lemma_index_ids(st0.asteroids, st1.asteroids, b2);
    // Second hit: the bullet still despawns, but the hit count saturates at
    // zero and no second destruction happens.
    let st2 = step_contact(w, st1, e2);
    assert(st2.destroyed_asteroids == st1.destroyed_asteroids && st2.score_events
        == st1.score_events && st2.fragments == st1.fragments && st2.asteroids[
    i].asteroid.hits_remaining == 0 && st2.asteroids.len() == st1.asteroids.len());
    assert(events[0] == e1);
    assert(events.drop_first() =~= seq![e2]);
    assert(seq![e2][0] == e2);
    assert(seq![e2].drop_first() =~= Seq::<Contact>::empty());
    assert(run_contacts(w, st2, Seq::<Contact>::empty()) == st2);
    assert(run_contacts(w, st1, seq![e2]) == st2);
    assert(tick_model(w, events) == st2);
}

} // verus!
