//! The asteroid spawner.
//!
//! A two-state machine: *idle* until the first tick of the in-game state,
//! then *armed* with a countdown. When the countdown expires it emits a
//! spawn request — a uniformly random slot of the flattened template list, a
//! random approach speed and per-axis scale, and a random direction on the
//! sphere around the arena — and rearms with a freshly drawn duration. The
//! timer is not preserved across leaving the in-game state: the machine is
//! simply restarted idle on re-entry.
//!
//! All quantities are fixed-point: times in milliseconds, speeds and scales
//! in thousandths.

use vstd::prelude::*;

use crate::math::Vec3;

verus! {

/// Milliseconds the very first countdown runs after entering the game.
pub const FIRST_SPAWN_DELAY_MS: u32 = 2000;

/// Relies on `rand::Rng::gen_range` over the half-open range `lo..hi`:
/// the result is uniformly distributed in `[lo, hi)`. Nothing beyond the
/// range is assumed of the value.
#[verifier::external_body]
fn sample_range(lo: u64, hi: u64) -> (r: u64)
    requires
        lo < hi,
    ensures
        lo <= r < hi,
{
    rand::Rng::gen_range(&mut rand::thread_rng(), lo..hi)
}

/// One random signed fixed-point component in `[-1000, -1] ∪ [1, 1000]`:
/// a nonzero open-interval draw, mirroring a magnitude draw plus a coin for
/// the sign.
fn direction_component() -> (c: i64)
    ensures
        1 <= c <= 1000 || -1000 <= c <= -1,
{
    let magnitude = sample_range(1, 1001) as i64;
    let sign = sample_range(0, 2);
    if sign == 0 {
        magnitude
    } else {
        -magnitude
    }
}

/// What the spawner asks the engine to create: which template, from which
/// direction, how fast, and how stretched.
#[derive(Clone, Copy, Debug, PartialEq, Eq, Structural)]
pub struct SpawnRequest {
    /// Index into the flattened template list.
    pub template_slot: usize,
    /// Direction from the arena center toward the spawn point, in
    /// fixed-point coordinates; every component is nonzero, and the host
    /// normalizes it onto the circumscribing sphere.
    pub direction: Vec3,
    /// Approach speed toward the arena center, in thousandths of a unit per
    /// second, uniform in `[5, 8)` units.
    pub speed_milli: u64,
    /// Per-axis scale of the spawned instance in thousandths, each uniform
    /// in `[0.5, 1.5)`.
    pub scale_x_milli: u32,
    /// See `scale_x_milli`.
    pub scale_y_milli: u32,
    /// See `scale_x_milli`.
    pub scale_z_milli: u32,
}

impl SpawnRequest {
    /// The request only asks for representable quantities: a valid template
    /// slot and values in the documented ranges.
    pub open spec fn valid(self, template_count: int) -> bool {
        &&& self.template_slot < template_count
        &&& (1 <= self.direction.x <= 1000 || -1000 <= self.direction.x <= -1)
        &&& (1 <= self.direction.y <= 1000 || -1000 <= self.direction.y <= -1)
        &&& (1 <= self.direction.z <= 1000 || -1000 <= self.direction.z <= -1)
        &&& 5000 <= self.speed_milli < 8000
        &&& 500 <= self.scale_x_milli < 1500
        &&& 500 <= self.scale_y_milli < 1500
        &&& 500 <= self.scale_z_milli < 1500
    }
}

/// The spawner's state: idle before the first in-game tick, then counting
/// down to the next spawn.
#[derive(Clone, Copy, Debug, PartialEq, Eq, Structural)]
pub enum Spawner {
    /// No timer is running yet.
    Idle,
    /// Counting down; the asteroid spawns when the countdown expires.
    Armed {
        /// Milliseconds left until the next spawn.
        remaining_ms: u32,
    },
}

impl Spawner {
    /// One tick of the spawner while the in-game state is active. The first
    /// tick arms the fixed initial countdown; afterwards each expiry emits
    /// one spawn request and rearms with a random duration in `[1, 3)`
    /// seconds.
    pub fn tick(&mut self, delta_ms: u32, template_count: usize) -> (r: Option<SpawnRequest>)
        requires
            template_count > 0,
        ensures
            *old(self) is Idle ==> *final(self) == (Spawner::Armed {
                remaining_ms: FIRST_SPAWN_DELAY_MS,
            }) && r is None,
            *old(self) is Armed && delta_ms < (*old(self))->remaining_ms ==> *final(self) == (
            Spawner::Armed { remaining_ms: ((*old(self))->remaining_ms - delta_ms) as u32 }) && r
                is None,
            *old(self) is Armed && delta_ms >= (*old(self))->remaining_ms ==> {
                &&& *final(self) is Armed && 1000 <= (*final(self))->remaining_ms < 3000
                &&& r matches Some(req) && req.valid(template_count as int)
            },
    {
        match *self {
            Spawner::Idle => {
                *self = Spawner::Armed { remaining_ms: FIRST_SPAWN_DELAY_MS };
                None
            },
            Spawner::Armed { remaining_ms } => {
                if delta_ms < remaining_ms {
                    *self = Spawner::Armed { remaining_ms: remaining_ms - delta_ms };
                    None
                } else {
                    let next = sample_range(1000, 3000) as u32;
                    *self = Spawner::Armed { remaining_ms: next };
                    let slot = sample_range(0, template_count as u64) as usize;
                    let request = SpawnRequest {
                        template_slot: slot,
                        direction: Vec3 {
                            x: direction_component(),
                            y: direction_component(),
                            z: direction_component(),
                        },
                        speed_milli: sample_range(5000, 8000),
                        scale_x_milli: sample_range(500, 1500) as u32,
                        scale_y_milli: sample_range(500, 1500) as u32,
                        scale_z_milli: sample_range(500, 1500) as u32,
                    };
                    Some(request)
                }
            },
        }
    }
}

} // verus!
