//! Small per-entity utilities.

use vstd::prelude::*;

verus! {

/// A countdown attached to an entity — a bullet, typically — after which
/// the entity is despawned.
#[derive(Clone, Copy, Debug, PartialEq, Eq, Structural)]
pub struct DespawnTimer {
    /// Milliseconds left before the entity is despawned.
    pub remaining_ms: u32,
}

impl DespawnTimer {
    /// A timer that expires after `duration_ms` milliseconds.
    pub fn new(duration_ms: u32) -> (t: DespawnTimer)
        ensures
            t.remaining_ms == duration_ms,
    {
        DespawnTimer { remaining_ms: duration_ms }
    }

    /// Advances the timer by one tick and reports whether it has expired —
    /// the tick on which the owning entity is despawned.
    pub fn tick(&mut self, delta_ms: u32) -> (expired: bool)
        ensures
            final(self).remaining_ms == if delta_ms >= old(self).remaining_ms {
                0u32
            } else {
                (old(self).remaining_ms - delta_ms) as u32
            },
            expired == (final(self).remaining_ms == 0),
    {
        if delta_ms >= self.remaining_ms {
            self.remaining_ms = 0;
        } else {
            self.remaining_ms = self.remaining_ms - delta_ms;
        }
        self.remaining_ms == 0
    }
}

} // verus!
