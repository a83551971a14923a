//! The application state machine and the per-tick game session.
//!
//! The application moves between menu, in-game, paused and ended states.
//! Transitions are requested through a fallible operation — a request while
//! another is queued, or into the state already current, fails — and a
//! failed game-over request is ignored rather than propagated, so the state
//! becomes "ended" exactly once however many ship contacts start in a tick.
//!
//! `GameSession::tick` is the hand-rolled tick pipeline: adapt the raw
//! contact queue, resolve the typed events, apply the deferred effects
//! between ticks, add the score, and request the game-over transition.

use vstd::prelude::*;

use crate::contacts::adapt_events;
use crate::contacts::spec_adapt;
use crate::contacts::RawContact;
use crate::points::spec_sum;
use crate::points::PointsLedger;
use crate::resolvers::fragments_insertable;
use crate::resolvers::retained_ids;
use crate::resolvers::spawned_fragments;
use crate::resolvers::surviving_asteroids;
use crate::resolvers::tick_model;
use crate::resolvers::GameWorld;
use crate::resolvers::TickEffects;
use crate::table::HandleTable;

verus! {

/// The screens and modes the application moves between.
#[derive(Clone, Copy, Debug, PartialEq, Eq, Structural)]
pub enum AppState {
    /// The title screen.
    Home,
    /// The running game.
    InGame,
    /// The game suspended behind the pause menu.
    Paused,
    /// The game-over screen.
    End,
}

/// Why a requested state transition was refused.
#[derive(Clone, Copy, Debug, PartialEq, Eq, Structural)]
pub enum TransitionError {
    /// Another transition is already queued for this tick.
    AlreadyQueued,
    /// The application is already in the requested state.
    SameState,
}

/// The application state with its queued transition, applied between ticks.
#[derive(Clone, Copy, Debug, PartialEq, Eq, Structural)]
pub struct StateMachine {
    /// The state the application is currently in.
    pub current: AppState,
    /// A transition requested this tick, not yet applied.
    pub pending: Option<AppState>,
}

/// What a replace request leaves behind: the queued target when the request
/// is valid, the machine unchanged when it is not.
pub open spec fn spec_replaced(s: StateMachine, target: AppState) -> StateMachine {
    if s.pending is None && s.current != target {
        StateMachine { current: s.current, pending: Some(target) }
    } else {
        s
    }
}

impl StateMachine {
    /// A machine resting in `initial` with nothing queued.
    pub fn new(initial: AppState) -> (s: StateMachine)
        ensures
            s.current == initial,
            s.pending is None,
    {
        StateMachine { current: initial, pending: None }
    }

    /// Requests to replace the current state. The request fails — and
    /// changes nothing — when a transition is already queued or the target
    /// is the state already current.
    pub fn request_replace(&mut self, target: AppState) -> (r: Result<(), TransitionError>)
        ensures
            *final(self) == spec_replaced(*old(self), target),
            r is Ok <==> (old(self).pending is None && old(self).current != target),
            old(self).pending is Some ==> r == Result::<(), TransitionError>::Err(
                TransitionError::AlreadyQueued,
            ),
            old(self).pending is None && old(self).current == target ==> r == Result::<
                (),
                TransitionError,
            >::Err(TransitionError::SameState),
    {
        if self.pending.is_some() {
            Err(TransitionError::AlreadyQueued)
        } else if self.current == target {
            Err(TransitionError::SameState)
        } else {
            self.pending = Some(target);
            Ok(())
        }
    }

    /// Applies the queued transition, if any, between ticks.
    pub fn apply_pending(&mut self)
        ensures
            final(self).current == match old(self).pending {
                Some(s) => s,
                None => old(self).current,
            },
            final(self).pending is None,
    {
        if let Some(s) = self.pending {
            self.current = s;
        }
        self.pending = None;
    }
}

/// One running game: the world the resolvers see, the collider side-table,
/// the score, the application state, and the next fresh entity identifier.
pub struct GameSession {
    /// The entities and the template forest.
    pub world: GameWorld,
    /// Collider handle to entity identifier side-table.
    pub table: HandleTable,
    /// The running score.
    pub ledger: PointsLedger,
    /// The application state machine.
    pub state: StateMachine,
    /// Identifiers at or above this are unused.
    pub next_entity_id: u64,
}

impl GameSession {
    /// A fresh session on the given template forest: an empty world, an
    /// empty side-table, a zero score, and the title screen.
    pub fn new(store: crate::templates::TemplateStore) -> (s: GameSession)
        requires
            store.wf(),
        ensures
            s.world.store == store,
            s.world.ship is None,
            s.world.bullets@ == Seq::<u64>::empty(),
            s.world.walls@ == Seq::<u64>::empty(),
            s.world.asteroids@ == Seq::<crate::asteroid::LiveAsteroid>::empty(),
            s.world.wf(),
            s.table.entries@ == Seq::<(u64, u64)>::empty(),
            s.ledger.total == 0,
            s.state.current == AppState::Home,
            s.state.pending is None,
            s.next_entity_id == 1,
    {
        GameSession {
            world: GameWorld {
                store,
                ship: None,
                bullets: Vec::new(),
                walls: Vec::new(),
                asteroids: Vec::new(),
            },
            table: HandleTable::new(),
            ledger: PointsLedger::new(),
            state: StateMachine::new(AppState::Home),
            next_entity_id: 1,
        }
    }

    /// Entering the in-game state: the score is reset to zero and no game
    /// entity exists yet.
    pub fn enter_game(&mut self)
        ensures
            final(self).ledger.total == 0,
            final(self).world.ship is None,
            final(self).world.bullets@ == Seq::<u64>::empty(),
            final(self).world.asteroids@ == Seq::<crate::asteroid::LiveAsteroid>::empty(),
            final(self).world.walls@ == Seq::<u64>::empty(),
            final(self).world.store == old(self).world.store,
            final(self).table == old(self).table,
            final(self).state == old(self).state,
            final(self).next_entity_id == old(self).next_entity_id,
    {
        self.ledger.reset();
        self.world.ship = None;
        self.world.bullets = Vec::new();
        self.world.asteroids = Vec::new();
        self.world.walls = Vec::new();
    }

    /// Leaving the in-game state: every game-owned entity is despawned
    /// deterministically before the next state's setup runs.
    pub fn exit_game(&mut self)
        ensures
            final(self).world.ship is None,
            final(self).world.bullets@ == Seq::<u64>::empty(),
            final(self).world.asteroids@ == Seq::<crate::asteroid::LiveAsteroid>::empty(),
            final(self).world.walls@ == Seq::<u64>::empty(),
            final(self).world.store == old(self).world.store,
            final(self).table == old(self).table,
            final(self).ledger == old(self).ledger,
            final(self).state == old(self).state,
            final(self).next_entity_id == old(self).next_entity_id,
    {
        self.world.ship = None;
        self.world.bullets = Vec::new();
        self.world.asteroids = Vec::new();
        self.world.walls = Vec::new();
    }

    /// Records which entity owns a collider, as the attachment pass does
    /// once per collider.
    pub fn attach_collider(&mut self, handle: u64, entity: u64)
        ensures
            final(self).table.entries@ == if crate::table::spec_lookup(
                old(self).table.entries@,
                handle,
            ) is Some {
                old(self).table.entries@
            } else {
                old(self).table.entries@.push((handle, entity))
            },
            final(self).world == old(self).world,
            final(self).ledger == old(self).ledger,
            final(self).state == old(self).state,
            final(self).next_entity_id == old(self).next_entity_id,
    {
        self.table.attach(handle, entity);
    }

    /// One simulation tick of the contact pipeline: the raw queue is
    /// adapted through the side-table, the typed events are resolved, the
    /// deferred effects are applied, the tick's score events are added
    /// (saturating), and a ship contact requests the game-over transition,
    /// a failed request being ignored. Returns the tick's effects.
    pub fn tick(&mut self, raw: &Vec<RawContact>) -> (fx: TickEffects)
        requires
            old(self).world.wf(),
        ensures
            ({
                let m = tick_model(old(self).world, spec_adapt(old(self).table.entries@, raw@));
                let spawned = old(self).next_entity_id + m.fragments.len() <= u64::MAX
                    && fragments_insertable(old(self).world.store, m.fragments);
                &&& fx.despawned_bullets@ == m.despawned_bullets
                &&& fx.destroyed_asteroids@ == m.destroyed_asteroids
                &&& fx.fragments@ == m.fragments
                &&& fx.score_events@ == m.score_events
                &&& fx.game_over == m.game_over
                &&& final(self).world.store == old(self).world.store
                &&& final(self).world.ship == old(self).world.ship
                &&& final(self).world.walls == old(self).world.walls
                &&& final(self).world.bullets@ == retained_ids(
                    old(self).world.bullets@,
                    m.despawned_bullets,
                )
                &&& final(self).world.asteroids@ == if spawned {
                    surviving_asteroids(m.asteroids, m.destroyed_asteroids) + spawned_fragments(
                        old(self).world.store,
                        m.fragments,
                        old(self).next_entity_id,
                    )
                } else {
                    surviving_asteroids(m.asteroids, m.destroyed_asteroids)
                }
                &&& final(self).world.wf()
                &&& final(self).next_entity_id == if spawned {
                    (old(self).next_entity_id + m.fragments.len()) as u64
                } else {
                    old(self).next_entity_id
                }
                &&& final(self).ledger.total as int == if old(self).ledger.total + spec_sum(
                    m.score_events,
                ) <= u64::MAX {
                    old(self).ledger.total + spec_sum(m.score_events)
                } else {
                    u64::MAX as int
                }
                &&& final(self).state == if m.game_over {
                    spec_replaced(old(self).state, AppState::End)
                } else {
                    old(self).state
                }
                &&& final(self).table == old(self).table
            }),
    {
        let events = adapt_events(&self.table, raw);
        let fx = crate::resolvers::resolve_tick(&mut self.world, &events);
        let spawned = self.world.apply_effects(&fx, self.next_entity_id);
        if spawned {
            self.next_entity_id = self.next_entity_id + fx.fragments.len() as u64;
        }
        self.ledger.apply_events_saturating(&fx.score_events);
        if fx.game_over {
            // An invalid transition — already ended, or one already queued —
            // is ignored, never propagated; the host may log it.
            match self.state.request_replace(AppState::End) {
                Ok(_) => (),
                Err(_) => (),
            }
        }
        fx
    }
}

} // verus!
