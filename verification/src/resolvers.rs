//! The per-tick contact resolvers.
//!
//! Three consumers read the tick's typed contact stream: ship–asteroid
//! contacts request the game-over transition, bullet–asteroid contacts
//! despawn the bullet and wound the asteroid (fragmenting it when its hit
//! count reaches zero), and bullet–wall contacts despawn stray bullets.
//! Entity creation and destruction are deferred: the resolvers only record
//! effects, which are applied between ticks, so no resolver observes a
//! partially created or destroyed entity. The whole tick is specified as a
//! fold of `step_contact` over the event stream.

use vstd::pervasive::VecAdditionalExecFns;
use vstd::prelude::*;

use crate::asteroid::spec_after_hit;
use crate::asteroid::Asteroid;
use crate::asteroid::LiveAsteroid;
use crate::contacts::Contact;
use crate::math::mat_within_coord_bound;
use crate::math::rotate_translate;
use crate::math::spec_apply;
use crate::math::within_coord_bound;
use crate::math::Mat3;
use crate::math::Transform3;
use crate::math::Vec3;
use crate::math::COORD_BOUND;
use crate::templates::TemplateStore;

verus! {

/// A request to spawn one fragment of a destroyed asteroid.
#[derive(Clone, Copy, Debug, PartialEq, Eq, Structural)]
pub struct FragmentSpawn {
    /// Arena index of the child template the fragment is spawned from.
    pub template: usize,
    /// World position: the parent's rotation applied to the child's local
    /// offset, then the parent's translation added.
    pub position: Vec3,
    /// The fragment keeps the parent's orientation.
    pub rotation: Mat3,
    /// Inherited linear velocity of the destroyed parent.
    pub linear_velocity: Vec3,
    /// Inherited angular velocity of the destroyed parent.
    pub angular_velocity: Vec3,
}

/// The entities the resolvers can see, with their roles.
#[derive(Clone, Debug)]
pub struct GameWorld {
    /// The immutable template forest.
    pub store: TemplateStore,
    /// The player ship, while one exists.
    pub ship: Option<u64>,
    /// Live bullet entities.
    pub bullets: Vec<u64>,
    /// The arena boundary colliders.
    pub walls: Vec<u64>,
    /// Live asteroid entities.
    pub asteroids: Vec<LiveAsteroid>,
}

impl GameWorld {
    /// The template forest is well formed, and every live asteroid points at
    /// a valid template and sits within the representable coordinate range.
    pub open spec fn wf(self) -> bool {
        &&& self.store.wf()
        &&& forall|i: int|
            0 <= i < self.asteroids@.len() ==> (#[trigger] self.asteroids@[i]).asteroid.template
                < self.store.nodes@.len()
        &&& forall|i: int|
            0 <= i < self.asteroids@.len() ==> (#[trigger] self.asteroids@[i]).transform.bounded(
                COORD_BOUND as int,
            )
    }
}

/// Everything one tick's resolution produces, recorded for deferred
/// application: despawns, destructions, fragment spawn requests, score
/// events, and whether the game-over transition was requested.
pub struct TickEffects {
    /// Bullets to despawn, each listed at most once.
    pub despawned_bullets: Vec<u64>,
    /// Asteroids destroyed this tick, in destruction order.
    pub destroyed_asteroids: Vec<u64>,
    /// Fragments to spawn for the destroyed asteroids, in order.
    pub fragments: Vec<FragmentSpawn>,
    /// One score event per destroyed asteroid, in destruction order.
    pub score_events: Vec<u64>,
    /// Whether a ship–asteroid contact started this tick.
    pub game_over: bool,
}

/// The resolution state as it evolves over the tick's events.
#[verifier::ext_equal]
pub struct TickModel {
    /// Live asteroids with their current hit counts.
    pub asteroids: Seq<LiveAsteroid>,
    /// Bullets despawned so far, each at most once.
    pub despawned_bullets: Seq<u64>,
    /// Asteroids destroyed so far, in order.
    pub destroyed_asteroids: Seq<u64>,
    /// Fragment spawn requests so far, in order.
    pub fragments: Seq<FragmentSpawn>,
    /// Score events so far, in order.
    pub score_events: Seq<u64>,
    /// Whether the game-over transition was requested.
    pub game_over: bool,
}

/// Position of the first asteroid with the given entity identifier.
pub open spec fn asteroid_index(s: Seq<LiveAsteroid>, id: u64) -> Option<int>
    decreases s.len(),
{
    if s.len() == 0 {
        None
    } else if s[0].id == id {
        Some(0int)
    } else {
        match asteroid_index(s.drop_first(), id) {
            Some(i) => Some(i + 1),
            None => None,
        }
    }
}

/// Some entity in the list is an asteroid with this identifier.
pub open spec fn contains_asteroid(s: Seq<LiveAsteroid>, id: u64) -> bool {
    asteroid_index(s, id) is Some
}

/// A found index is in range and names the first matching asteroid.
pub proof fn lemma_asteroid_index_props(s: Seq<LiveAsteroid>, id: u64)
    ensures
        match asteroid_index(s, id) {
            Some(i) => 0 <= i < s.len() && s[i].id == id && forall|m: int|
                0 <= m < i ==> (#[trigger] s[m]).id != id,
            None => forall|m: int| 0 <= m < s.len() ==> (#[trigger] s[m]).id != id,
        },
    decreases s.len(),
{
    if s.len() > 0 && s[0].id != id {
        lemma_asteroid_index_props(s.drop_first(), id);
        assert(forall|m: int|
            0 <= m < s.drop_first().len() ==> #[trigger] s.drop_first()[m] == s[m + 1]);
        match asteroid_index(s.drop_first(), id) {
            Some(i) => {
                assert(s[i + 1] == s.drop_first()[i]);
                assert forall|m: int| 0 <= m < i + 1 implies (#[trigger] s[m]).id != id by {
                    if m > 0 {
                        assert(s[m] == s.drop_first()[m - 1]);
                    }
                }
            },
            None => {
                assert forall|m: int| 0 <= m < s.len() implies (#[trigger] s[m]).id != id by {
                    if m > 0 {
                        assert(s[m] == s.drop_first()[m - 1]);
                    }
                }
            },
        }
    }
}

/// The index found for a linear search that stopped at `k`.
pub proof fn lemma_asteroid_index_found(s: Seq<LiveAsteroid>, id: u64, k: int)
    requires
        0 <= k < s.len(),
        s[k].id == id,
        forall|m: int| 0 <= m < k ==> (#[trigger] s[m]).id != id,
    ensures
        asteroid_index(s, id) == Some(k),
    decreases s.len(),
{
    if k > 0 {
        assert forall|m: int| 0 <= m < k - 1 implies (#[trigger] s.drop_first()[m]).id != id by {
            assert(s.drop_first()[m] == s[m + 1]);
        }
        lemma_asteroid_index_found(s.drop_first(), id, k - 1);
    }
}

/// A search over a list without the identifier finds nothing.
pub proof fn lemma_asteroid_index_absent(s: Seq<LiveAsteroid>, id: u64)
    requires
        forall|m: int| 0 <= m < s.len() ==> (#[trigger] s[m]).id != id,
    ensures
        asteroid_index(s, id) is None,
    decreases s.len(),
{
    if s.len() > 0 {
        assert forall|m: int| 0 <= m < s.drop_first().len() implies (
        #[trigger] s.drop_first()[m]).id != id by {
            assert(s.drop_first()[m] == s[m + 1]);
        }
        lemma_asteroid_index_absent(s.drop_first(), id);
    }
}

/// Despawning is idempotent within a tick: a bullet already recorded is not
/// recorded again.
pub open spec fn spec_despawn(despawned: Seq<u64>, bullet: u64) -> Seq<u64> {
    if despawned.contains(bullet) {
        despawned
    } else {
        despawned.push(bullet)
    }
}

/// The spawn request for one child template of a destroyed asteroid.
pub open spec fn fragment_for(store: TemplateStore, parent: LiveAsteroid, child: usize)
    -> FragmentSpawn {
    let p = spec_apply(
        parent.transform.rot,
        store.nodes@[child as int].local_offset,
        parent.transform.pos,
    );
    FragmentSpawn {
        template: child,
        position: Vec3 { x: p.0 as i64, y: p.1 as i64, z: p.2 as i64 },
        rotation: parent.transform.rot,
        linear_velocity: parent.linear_velocity,
        angular_velocity: parent.angular_velocity,
    }
}

/// Spawn requests for every child template of a destroyed asteroid, in the
/// template's child order.
pub open spec fn fragments_of(store: TemplateStore, parent: LiveAsteroid) -> Seq<FragmentSpawn> {
    store.nodes@[parent.asteroid.template as int].children@.map(
        |k: int, c: usize| fragment_for(store, parent, c),
    )
}

/// One bullet hit: the bullet despawns (idempotently), the asteroid's hit
/// count drops by one saturating at zero, and exactly on the transition to
/// zero the asteroid is destroyed: it scores its point value and every child
/// template becomes a fragment spawn request.
pub open spec fn step_bullet_hit(
    store: TemplateStore,
    st: TickModel,
    bullet: u64,
    ast_id: u64,
) -> TickModel {
    let st0 = TickModel {
        despawned_bullets: spec_despawn(st.despawned_bullets, bullet),
        ..st
    };
    match asteroid_index(st0.asteroids, ast_id) {
        None => st0,
        Some(i) => {
            let parent = st0.asteroids[i];
            let hits0 = parent.asteroid.hits_remaining;
            let wounded = LiveAsteroid {
                asteroid: Asteroid {
                    hits_remaining: spec_after_hit(hits0),
                    ..parent.asteroid
                },
                ..parent
            };
            let st1 = TickModel { asteroids: st0.asteroids.update(i, wounded), ..st0 };
            if hits0 > 0 && spec_after_hit(hits0) == 0 {
                TickModel {
                    destroyed_asteroids: st1.destroyed_asteroids.push(ast_id),
                    score_events: st1.score_events.push(parent.asteroid.point_value),
                    fragments: st1.fragments + fragments_of(store, wounded),
                    ..st1
                }
            } else {
                st1
            }
        },
    }
}

/// A started contact pairs the ship with a live asteroid, in either order.
pub open spec fn is_ship_asteroid(
    ship: Option<u64>,
    asteroids: Seq<LiveAsteroid>,
    a: u64,
    b: u64,
) -> bool {
    ||| (ship == Some(a) && contains_asteroid(asteroids, b))
    ||| (ship == Some(b) && contains_asteroid(asteroids, a))
}

/// The bullet–asteroid resolver's view of one started contact: both
/// orderings are checked, since the adapter does not canonicalize them.
pub open spec fn step_bullet_asteroid(w0: GameWorld, st: TickModel, a: u64, b: u64) -> TickModel {
    if w0.bullets@.contains(a) && contains_asteroid(st.asteroids, b) {
        step_bullet_hit(w0.store, st, a, b)
    } else if w0.bullets@.contains(b) && contains_asteroid(st.asteroids, a) {
        step_bullet_hit(w0.store, st, b, a)
    } else {
        st
    }
}

/// The bullet–wall resolver's view of one started contact.
pub open spec fn step_bullet_wall(w0: GameWorld, st: TickModel, a: u64, b: u64) -> TickModel {
    if w0.bullets@.contains(a) && w0.walls@.contains(b) {
        TickModel { despawned_bullets: spec_despawn(st.despawned_bullets, a), ..st }
    } else if w0.bullets@.contains(b) && w0.walls@.contains(a) {
        TickModel { despawned_bullets: spec_despawn(st.despawned_bullets, b), ..st }
    } else {
        st
    }
}

/// Resolution of a single contact event: stopped events are ignored; a
/// started event is shown to all three resolvers.
pub open spec fn step_contact(w0: GameWorld, st: TickModel, c: Contact) -> TickModel {
    match c {
        Contact::Stopped(_, _) => st,
        Contact::Started(a, b) => {
            let st1 = if is_ship_asteroid(w0.ship, st.asteroids, a, b) {
                TickModel { game_over: true, ..st }
            } else {
                st
            };
            let st2 = step_bullet_asteroid(w0, st1, a, b);
            step_bullet_wall(w0, st2, a, b)
        },
    }
}

/// The fold of `step_contact` over the tick's event stream.
pub open spec fn run_contacts(w0: GameWorld, st: TickModel, events: Seq<Contact>) -> TickModel
    decreases events.len(),
{
    if events.len() == 0 {
        st
    } else {
        run_contacts(w0, step_contact(w0, st, events[0]), events.drop_first())
    }
}

/// The resolution state a tick starts from: nothing despawned, destroyed,
/// spawned or scored yet.
pub open spec fn init_model(w: GameWorld) -> TickModel {
    TickModel {
        asteroids: w.asteroids@,
        despawned_bullets: Seq::empty(),
        destroyed_asteroids: Seq::empty(),
        fragments: Seq::empty(),
        score_events: Seq::empty(),
        game_over: false,
    }
}

/// What a whole tick's event stream resolves to, from a fresh start.
pub open spec fn tick_model(w: GameWorld, events: Seq<Contact>) -> TickModel {
    run_contacts(w, init_model(w), events)
}

/// Bundles the resolution state the executable code carries.
pub open spec fn model_of(
    asteroids: Seq<LiveAsteroid>,
    despawned: Seq<u64>,
    destroyed: Seq<u64>,
    fragments: Seq<FragmentSpawn>,
    score: Seq<u64>,
    game_over: bool,
) -> TickModel {
    TickModel {
        asteroids: asteroids,
        despawned_bullets: despawned,
        destroyed_asteroids: destroyed,
        fragments: fragments,
        score_events: score,
        game_over: game_over,
    }
}

/// Both lists hold the same entities in the same order, differing at most in
/// the asteroids' remaining hit counts.
pub open spec fn same_shape(s0: Seq<LiveAsteroid>, s1: Seq<LiveAsteroid>) -> bool {
    &&& s0.len() == s1.len()
    &&& forall|i: int| 0 <= i < s0.len() ==> shape_eq(#[trigger] s1[i], s0[i])
}

/// Everything but the remaining hit count agrees.
pub open spec fn shape_eq(a: LiveAsteroid, b: LiveAsteroid) -> bool {
    &&& a.id == b.id
    &&& a.asteroid.template == b.asteroid.template
    &&& a.asteroid.point_value == b.asteroid.point_value
    &&& a.transform == b.transform
    &&& a.linear_velocity == b.linear_velocity
    &&& a.angular_velocity == b.angular_velocity
}

/// Whether the identifier is in the list.
fn contains_id(list: &Vec<u64>, id: u64) -> (r: bool)
    ensures
        r == list@.contains(id),
{
    let n = list.len();
    let mut i: usize = 0;
    while i < n
        invariant
            n == list@.len(),
            0 <= i <= n,
            forall|m: int| 0 <= m < i ==> list@[m] != id,
        decreases n - i,
    {
        if list[i] == id {
            return true;
        }
        i = i + 1;
    }
    false
}

/// Finds the first asteroid with the given identifier, as `asteroid_index`
/// names it.
fn find_asteroid(asteroids: &Vec<LiveAsteroid>, id: u64) -> (r: Option<usize>)
    ensures
        match r {
            Some(i) => i < asteroids@.len() && asteroid_index(asteroids@, id) == Some(i as int),
            None => asteroid_index(asteroids@, id) is None,
        },
{
    let n = asteroids.len();
    let mut i: usize = 0;
    while i < n
        invariant
            n == asteroids@.len(),
            0 <= i <= n,
            forall|m: int| 0 <= m < i ==> (#[trigger] asteroids@[m]).id != id,
        decreases n - i,
    {
        if asteroids[i].id == id {
            proof {
                lemma_asteroid_index_found(asteroids@, id, i as int);
            }
            return Some(i);
        }
        i = i + 1;
    }
    proof {
        lemma_asteroid_index_absent(asteroids@, id);
    }
    None
}

/// Records a bullet despawn, idempotently: attempting it twice is safe and
/// leaves a single entry.
fn push_despawn(list: &mut Vec<u64>, bullet: u64)
    ensures
        final(list)@ == spec_despawn(old(list)@, bullet),
{
    if !contains_id(list, bullet) {
        list.push(bullet);
    }
}

/// Emits the spawn requests for every child template of a destroyed
/// asteroid, placing each fragment at the parent's rotation applied to the
/// child's local offset plus the parent's translation.
fn spawn_fragments(store: &TemplateStore, parent: &LiveAsteroid, out: &mut Vec<FragmentSpawn>)
    requires
        store.wf(),
        parent.asteroid.template < store.nodes@.len(),
        parent.transform.bounded(COORD_BOUND as int),
    ensures
        final(out)@ == old(out)@ + fragments_of(*store, *parent),
{
    let ghost entry = out@;
    let t = parent.asteroid.template;
    let child_count = store.nodes[t].children.len();
    let mut j: usize = 0;
    while j < child_count
        invariant
            store.wf(),
            t == parent.asteroid.template,
            t < store.nodes@.len(),
            parent.transform.bounded(COORD_BOUND as int),
            child_count == store.nodes@[t as int].children@.len(),
            0 <= j <= child_count,
            out@.len() == entry.len() + j,
            forall|k: int| 0 <= k < entry.len() ==> out@[k] == entry[k],
            forall|k: int|
                0 <= k < j ==> out@[entry.len() + k] == fragments_of(*store, *parent)[k],
        decreases child_count - j,
    {
        let c = store.nodes[t].children[j];
        assert(t < c < store.nodes@.len());
        let offset = store.nodes[c].local_offset;
        let position = rotate_translate(&parent.transform.rot, &offset, &parent.transform.pos);
        out.push(
            FragmentSpawn {
                template: c,
                position,
                rotation: parent.transform.rot,
                linear_velocity: parent.linear_velocity,
                angular_velocity: parent.angular_velocity,
            },
        );
        proof {
            assert(out@[entry.len() + j] == fragments_of(*store, *parent)[j as int]);
        }
        j = j + 1;
    }
    proof {
        assert(out@ =~= entry + fragments_of(*store, *parent));
    }
}

/// Resolves one tick's contact stream against the world: asteroid hit counts
/// are updated in place, while despawns, destructions, fragment spawns,
/// score events and the game-over request are returned as deferred effects.
/// The result is exactly the fold of `step_contact` over the events.
pub fn resolve_tick(w: &mut GameWorld, events: &Vec<Contact>) -> (fx: TickEffects)
    requires
        old(w).wf(),
    ensures
        ({
            let m = tick_model(*old(w), events@);
            &&& final(w).asteroids@ == m.asteroids
            &&& final(w).store == old(w).store
            &&& final(w).ship == old(w).ship
            &&& final(w).bullets == old(w).bullets
            &&& final(w).walls == old(w).walls
            &&& final(w).wf()
            &&& same_shape(old(w).asteroids@, final(w).asteroids@)
            &&& fx.despawned_bullets@ == m.despawned_bullets
            &&& fx.destroyed_asteroids@ == m.destroyed_asteroids
            &&& fx.fragments@ == m.fragments
            &&& fx.score_events@ == m.score_events
            &&& fx.game_over == m.game_over
        }),
{
    let ghost w0 = *old(w);
    let mut despawned: Vec<u64> = Vec::new();
    let mut destroyed: Vec<u64> = Vec::new();
    let mut fragments: Vec<FragmentSpawn> = Vec::new();
    let mut score: Vec<u64> = Vec::new();
    let mut game_over: bool = false;
    let n = events.len();
    let mut i: usize = 0;
    proof {
        assert(events@.skip(0) =~= events@);
        assert(model_of(w.asteroids@, despawned@, destroyed@, fragments@, score@, game_over)
            =~= init_model(w0));
    }
    while i < n
        invariant
            w0 == *old(w),
            w0.wf(),
            w.store == w0.store,
            w.ship == w0.ship,
            w.bullets == w0.bullets,
            w.walls == w0.walls,
            same_shape(w0.asteroids@, w.asteroids@),
            n == events@.len(),
            0 <= i <= n,
            run_contacts(
                w0,
                model_of(w.asteroids@, despawned@, destroyed@, fragments@, score@, game_over),
                events@.skip(i as int),
            ) == tick_model(w0, events@),
        decreases n - i,
    {
        let ghost pre = model_of(
            w.asteroids@,
            despawned@,
            destroyed@,
            fragments@,
            score@,
            game_over,
        );
        proof {
            assert(events@.skip(i as int).drop_first() =~= events@.skip(i + 1));
            assert(events@.skip(i as int)[0] == events@[i as int]);
        }
        match events[i] {
            Contact::Stopped(_, _) => {
                proof {
                    assert(step_contact(w0, pre, events@[i as int]) == pre);
                }
            },
            Contact::Started(a, b) => {
                // Ship-asteroid resolver: request the game-over transition.
                let ship_hit = match w.ship {
                    Some(s) => (s == a && find_asteroid(&w.asteroids, b).is_some()) || (s == b
                        && find_asteroid(&w.asteroids, a).is_some()),
                    None => false,
                };
                if ship_hit {
                    game_over = true;
                }
                let ghost st1 = model_of(
                    w.asteroids@,
                    despawned@,
                    destroyed@,
                    fragments@,
                    score@,
                    game_over,
                );
                proof {
                    if is_ship_asteroid(w0.ship, pre.asteroids, a, b) {
                        assert(st1 =~= (TickModel { game_over: true, ..pre }));
                    } else {
                        assert(st1 =~= pre);
                    }
                }
                // Bullet-asteroid resolver: despawn the bullet, wound the
                // asteroid, fragment it on the transition to zero.
                let bullet_is_a = contains_id(&w.bullets, a);
                let bullet_is_b = contains_id(&w.bullets, b);
                let ast_b = find_asteroid(&w.asteroids, b);
                let ast_a = find_asteroid(&w.asteroids, a);
                let hit: Option<(u64, u64, usize)> = if bullet_is_a && ast_b.is_some() {
                    Some((a, b, ast_b.unwrap()))
                } else if bullet_is_b && ast_a.is_some() {
                    Some((b, a, ast_a.unwrap()))
                } else {
                    None
                };
                match hit {
                    None => {
                        proof {
                            assert(step_bullet_asteroid(w0, st1, a, b) == st1);
                        }
                    },
                    Some((bullet, ast_id, idx)) => {
                        push_despawn(&mut despawned, bullet);
                        let mut ast = w.asteroids[idx];
                        let hits0 = ast.asteroid.hits_remaining;
                        let dead = ast.asteroid.register_hit();
                        w.asteroids.set(idx, ast);
                        if hits0 > 0 && dead {
                            destroyed.push(ast_id);
                            score.push(ast.asteroid.point_value);
                            proof {
                                assert(shape_eq(st1.asteroids[idx as int], w0.asteroids@[
                                idx as int]));
                            }
                            spawn_fragments(&w.store, &ast, &mut fragments);
                        }
                        proof {
                            let st2 = model_of(
                                w.asteroids@,
                                despawned@,
                                destroyed@,
                                fragments@,
                                score@,
                                game_over,
                            );
                            assert(asteroid_index(st1.asteroids, ast_id) == Some(idx as int));
                            assert(st2 =~= step_bullet_hit(w0.store, st1, bullet, ast_id));
                            assert(st2 =~= step_bullet_asteroid(w0, st1, a, b));
                        }
                    },
                }
                let ghost st2 = model_of(
                    w.asteroids@,
                    despawned@,
                    destroyed@,
                    fragments@,
                    score@,
                    game_over,
                );
                proof {
                    assert(st2 =~= step_bullet_asteroid(w0, st1, a, b));
                }
                // Bullet-wall resolver: despawn stray bullets.
                let wall_is_a = contains_id(&w.walls, a);
                let wall_is_b = contains_id(&w.walls, b);
                if bullet_is_a && wall_is_b {
                    push_despawn(&mut despawned, a);
                } else if bullet_is_b && wall_is_a {
                    push_despawn(&mut despawned, b);
                }
                proof {
                    let st3 = model_of(
                        w.asteroids@,
                        despawned@,
                        destroyed@,
                        fragments@,
                        score@,
                        game_over,
                    );
                    assert(st3 =~= step_bullet_wall(w0, st2, a, b));
                    assert(st3 =~= step_contact(w0, pre, events@[i as int]));
                }
            },
        }
        proof {
            assert(same_shape(w0.asteroids@, w.asteroids@));
        }
        i = i + 1;
    }
    proof {
        assert(events@.skip(n as int) =~= Seq::<Contact>::empty());
        assert(w.wf()) by {
            assert forall|k: int| 0 <= k < w.asteroids@.len() implies (
            #[trigger] w.asteroids@[k]).asteroid.template < w.store.nodes@.len() && w.asteroids@[
            k].transform.bounded(COORD_BOUND as int) by {
                assert(shape_eq(w.asteroids@[k], w0.asteroids@[k]));
            }
        }
    }
    TickEffects {
        despawned_bullets: despawned,
        destroyed_asteroids: destroyed,
        fragments,
        score_events: score,
        game_over,
    }
}

impl GameWorld {
    /// Spawns a live asteroid from the template at `template`: it starts
    /// with exactly the template's hit points and point value, at the given
    /// placement and velocities.
    pub fn spawn_asteroid(
        &mut self,
        id: u64,
        template: usize,
        transform: Transform3,
        linear_velocity: Vec3,
        angular_velocity: Vec3,
    )
        requires
            old(self).wf(),
            template < old(self).store.nodes@.len(),
            transform.bounded(COORD_BOUND as int),
        ensures
            final(self).asteroids@ == old(self).asteroids@.push(
                LiveAsteroid {
                    id: id,
                    asteroid: Asteroid {
                        hits_remaining: old(self).store.nodes@[template as int].hit_points,
                        point_value: old(self).store.nodes@[template as int].point_value,
                        template: template,
                    },
                    transform: transform,
                    linear_velocity: linear_velocity,
                    angular_velocity: angular_velocity,
                },
            ),
            final(self).store == old(self).store,
            final(self).ship == old(self).ship,
            final(self).bullets == old(self).bullets,
            final(self).walls == old(self).walls,
            final(self).wf(),
    {
        let asteroid = Asteroid::from_template(&self.store, template);
        self.asteroids.push(
            LiveAsteroid { id, asteroid, transform, linear_velocity, angular_velocity },
        );
    }
}

/// The identifiers of `s` that are not listed in `dead`, in order.
pub open spec fn retained_ids(s: Seq<u64>, dead: Seq<u64>) -> Seq<u64>
    decreases s.len(),
{
    if s.len() == 0 {
        Seq::empty()
    } else {
        let rest = retained_ids(s.drop_last(), dead);
        if dead.contains(s.last()) {
            rest
        } else {
            rest.push(s.last())
        }
    }
}

/// The asteroids of `s` whose identifiers are not listed in `destroyed`, in
/// order.
pub open spec fn surviving_asteroids(s: Seq<LiveAsteroid>, destroyed: Seq<u64>) -> Seq<
    LiveAsteroid,
>
    decreases s.len(),
{
    if s.len() == 0 {
        Seq::empty()
    } else {
        let rest = surviving_asteroids(s.drop_last(), destroyed);
        if destroyed.contains(s.last().id) {
            rest
        } else {
            rest.push(s.last())
        }
    }
}

/// The live asteroid a fragment spawn request turns into: it starts with its
/// template's full hit points and point value, sits at the computed world
/// position with the parent's orientation, and inherits the parent's
/// velocities.
pub open spec fn fragment_asteroid(store: TemplateStore, f: FragmentSpawn, id: u64)
    -> LiveAsteroid {
    LiveAsteroid {
        id: id,
        asteroid: Asteroid {
            hits_remaining: store.nodes@[f.template as int].hit_points,
            point_value: store.nodes@[f.template as int].point_value,
            template: f.template,
        },
        transform: Transform3 { rot: f.rotation, pos: f.position },
        linear_velocity: f.linear_velocity,
        angular_velocity: f.angular_velocity,
    }
}

/// The asteroids a tick's fragment requests turn into, with consecutive
/// fresh identifiers starting at `first_id`.
pub open spec fn spawned_fragments(
    store: TemplateStore,
    frags: Seq<FragmentSpawn>,
    first_id: u64,
) -> Seq<LiveAsteroid> {
    Seq::new(frags.len(), |k: int| fragment_asteroid(store, frags[k], (first_id + k) as u64))
}

/// Every fragment request can be inserted back into a well-formed world:
/// its template index is valid and its placement stays representable.
pub open spec fn fragments_insertable(store: TemplateStore, frags: Seq<FragmentSpawn>) -> bool {
    forall|k: int|
        0 <= k < frags.len() ==> {
            let f = #[trigger] frags[k];
            &&& f.template < store.nodes@.len()
            &&& f.position.bounded(COORD_BOUND as int)
            &&& f.rotation.bounded(COORD_BOUND as int)
        }
}

/// Removing asteroids keeps every survivor a well-formed member of the world.
proof fn lemma_surviving_wf(s: Seq<LiveAsteroid>, destroyed: Seq<u64>, store_len: int, b: int)
    requires
        forall|i: int|
            0 <= i < s.len() ==> (#[trigger] s[i]).asteroid.template < store_len && s[
            i].transform.bounded(b),
    ensures
        forall|k: int|
            0 <= k < surviving_asteroids(s, destroyed).len() ==> (#[trigger] surviving_asteroids(
                s,
                destroyed,
            )[k]).asteroid.template < store_len && surviving_asteroids(
                s,
                destroyed,
            )[k].transform.bounded(b),
    decreases s.len(),
{
    if s.len() > 0 {
        assert(forall|i: int| 0 <= i < s.len() - 1 ==> #[trigger] s.drop_last()[i] == s[i]);
        lemma_surviving_wf(s.drop_last(), destroyed, store_len, b);
        let r = surviving_asteroids(s, destroyed);
        let rest = surviving_asteroids(s.drop_last(), destroyed);
        assert forall|k: int| 0 <= k < r.len() implies (#[trigger] r[k]).asteroid.template
            < store_len && r[k].transform.bounded(b) by {
            if !destroyed.contains(s.last().id) && k == rest.len() {
                assert(r[k] == s.last());
            } else {
                assert(r[k] == rest[k]);
            }
        }
    }
}

impl GameWorld {
    /// Applies a tick's deferred effects between ticks: despawned bullets
    /// and destroyed asteroids are removed, and — when every fragment
    /// request is insertable and there is identifier room — the fragments
    /// are spawned as fresh asteroids with consecutive identifiers starting
    /// at `first_id`. Returns whether the fragments were spawned.
    pub fn apply_effects(&mut self, fx: &TickEffects, first_id: u64) -> (spawned: bool)
        requires
            old(self).wf(),
        ensures
            final(self).store == old(self).store,
            final(self).ship == old(self).ship,
            final(self).walls == old(self).walls,
            final(self).bullets@ == retained_ids(old(self).bullets@, fx.despawned_bullets@),
            spawned == (first_id + fx.fragments@.len() <= u64::MAX && fragments_insertable(
                old(self).store,
                fx.fragments@,
            )),
            spawned ==> final(self).asteroids@ == surviving_asteroids(
                old(self).asteroids@,
                fx.destroyed_asteroids@,
            ) + spawned_fragments(old(self).store, fx.fragments@, first_id),
            !spawned ==> final(self).asteroids@ == surviving_asteroids(
                old(self).asteroids@,
                fx.destroyed_asteroids@,
            ),
            final(self).wf(),
    {
        // Remove despawned bullets.
        let mut kept_bullets: Vec<u64> = Vec::new();
        let bn = self.bullets.len();
        let mut i: usize = 0;
        while i < bn
            invariant
                bn == self.bullets@.len(),
                0 <= i <= bn,
                kept_bullets@ == retained_ids(
                    self.bullets@.subrange(0, i as int),
                    fx.despawned_bullets@,
                ),
            decreases bn - i,
        {
            let id = self.bullets[i];
            proof {
                assert(self.bullets@.subrange(0, i + 1).drop_last() =~= self.bullets@.subrange(
                    0,
                    i as int,
                ));
            }
            if !contains_id(&fx.despawned_bullets, id) {
                kept_bullets.push(id);
            }
            i = i + 1;
        }
        proof {
            assert(self.bullets@.subrange(0, bn as int) =~= self.bullets@);
        }
        self.bullets = kept_bullets;
        // Remove destroyed asteroids.
        let mut kept_asteroids: Vec<LiveAsteroid> = Vec::new();
        let an = self.asteroids.len();
        let mut j: usize = 0;
        while j < an
            invariant
                an == self.asteroids@.len(),
                0 <= j <= an,
                kept_asteroids@ == surviving_asteroids(
                    self.asteroids@.subrange(0, j as int),
                    fx.destroyed_asteroids@,
                ),
            decreases an - j,
        {
            let ast = self.asteroids[j];
            proof {
                assert(self.asteroids@.subrange(0, j + 1).drop_last() =~= self.asteroids@.subrange(
                    0,
                    j as int,
                ));
            }
            if !contains_id(&fx.destroyed_asteroids, ast.id) {
                kept_asteroids.push(ast);
            }
            j = j + 1;
        }
        proof {
            assert(self.asteroids@.subrange(0, an as int) =~= self.asteroids@);
            lemma_surviving_wf(
                self.asteroids@,
                fx.destroyed_asteroids@,
                self.store.nodes@.len() as int,
                COORD_BOUND as int,
            );
        }
        self.asteroids = kept_asteroids;
        // Spawn the fragments, if every request is insertable and there is
        // identifier room; otherwise leave them out wholesale.
        let frag_count = fx.fragments.len();
        let mut insertable = frag_count as u64 <= u64::MAX - first_id;
        let mut k: usize = 0;
        while k < frag_count
            invariant
                frag_count == fx.fragments@.len(),
                0 <= k <= frag_count,
                insertable == (first_id + fx.fragments@.len() <= u64::MAX && forall|m: int|
                    0 <= m < k ==> {
                        let f = #[trigger] fx.fragments@[m];
                        &&& f.template < self.store.nodes@.len()
                        &&& f.position.bounded(COORD_BOUND as int)
                        &&& f.rotation.bounded(COORD_BOUND as int)
                    }),
            decreases frag_count - k,
        {
            let f = &fx.fragments[k];
            if !(f.template < self.store.nodes.len() && within_coord_bound(&f.position)
                && mat_within_coord_bound(&f.rotation)) {
                insertable = false;
            }
            k = k + 1;
        }
        proof {
            assert(insertable == (first_id + fx.fragments@.len() <= u64::MAX
                && fragments_insertable(self.store, fx.fragments@)));
        }
        if insertable {
            let ghost survivors = self.asteroids@;
            let mut k: usize = 0;
            while k < frag_count
                invariant
                    frag_count == fx.fragments@.len(),
                    0 <= k <= frag_count,
                    first_id + frag_count <= u64::MAX,
                    fragments_insertable(self.store, fx.fragments@),
                    self.store == old(self).store,
                    self.ship == old(self).ship,
                    self.walls == old(self).walls,
                    self.bullets@ == retained_ids(old(self).bullets@, fx.despawned_bullets@),
                    survivors == surviving_asteroids(
                        old(self).asteroids@,
                        fx.destroyed_asteroids@,
                    ),
                    self.store.wf(),
                    self.asteroids@.len() == survivors.len() + k,
                    forall|m: int| 0 <= m < survivors.len() ==> self.asteroids@[m] == survivors[m],
                    forall|m: int|
                        0 <= m < k ==> self.asteroids@[survivors.len() + m] == spawned_fragments(
                            self.store,
                            fx.fragments@,
                            first_id,
                        )[m],
                decreases frag_count - k,
            {
                let f = &fx.fragments[k];
                let ast = Asteroid::from_template(&self.store, f.template);
                let live = LiveAsteroid {
                    id: first_id + k as u64,
                    asteroid: ast,
                    transform: Transform3 { rot: f.rotation, pos: f.position },
                    linear_velocity: f.linear_velocity,
                    angular_velocity: f.angular_velocity,
                };
                self.asteroids.push(live);
                proof {
                    assert(self.asteroids@[survivors.len() + k] == spawned_fragments(
                        self.store,
                        fx.fragments@,
                        first_id,
                    )[k as int]);
                }
                k = k + 1;
            }
            proof {
                assert(self.asteroids@ =~= survivors + spawned_fragments(
                    self.store,
                    fx.fragments@,
                    first_id,
                ));
                let spawned_seq = spawned_fragments(self.store, fx.fragments@, first_id);
                lemma_surviving_wf(
                    old(self).asteroids@,
                    fx.destroyed_asteroids@,
                    self.store.nodes@.len() as int,
                    COORD_BOUND as int,
                );
                assert forall|q: int| 0 <= q < self.asteroids@.len() implies (
                #[trigger] self.asteroids@[q]).asteroid.template < self.store.nodes@.len()
                    && self.asteroids@[q].transform.bounded(COORD_BOUND as int) by {
                    if q < survivors.len() {
                        assert(self.asteroids@[q] == survivors[q]);
                    } else {
                        assert(self.asteroids@[q] == spawned_seq[q - survivors.len()]);
                        assert(spawned_seq[q - survivors.len()] == fragment_asteroid(
                            self.store,
                            fx.fragments@[q - survivors.len()],
                            (first_id + q - survivors.len()) as u64,
                        ));
                    }
                }
            }
            true
        } else {
            false
        }
    }
}

} // verus!
