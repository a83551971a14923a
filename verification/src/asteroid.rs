//! Live asteroid entities.
//!
//! An asteroid is spawned from a template and starts with the template's full
//! hit points. Each destructive hit lowers the count by one, saturating at
//! zero so that two simultaneous impacts on a nearly destroyed asteroid can
//! never make the count wrap around.

use vstd::prelude::*;

use crate::math::Transform3;
use crate::math::Vec3;
use crate::templates::TemplateStore;

verus! {

/// The mutable state this core keeps per live asteroid entity.
#[derive(Clone, Copy, Debug, PartialEq, Eq, Structural)]
pub struct Asteroid {
    /// Destructive hits still needed before the asteroid fragments.
    pub hits_remaining: u8,
    /// Score awarded when this asteroid is destroyed.
    pub point_value: u64,
    /// Arena index of the template this asteroid was spawned from; the
    /// template's children say what it fragments into.
    pub template: usize,
}

/// An asteroid entity together with its engine-managed placement, as the
/// contact resolvers see it.
#[derive(Clone, Copy, Debug, PartialEq, Eq, Structural)]
pub struct LiveAsteroid {
    /// Stable entity identifier.
    pub id: u64,
    /// The asteroid's own state.
    pub asteroid: Asteroid,
    /// World placement of the asteroid.
    pub transform: Transform3,
    /// Linear velocity, inherited by fragments.
    pub linear_velocity: Vec3,
    /// Angular velocity, inherited by fragments.
    pub angular_velocity: Vec3,
}

/// One saturating destructive hit: the count drops by one and stops at zero.
pub open spec fn spec_after_hit(hits: u8) -> u8 {
    if hits > 0 {
        (hits - 1) as u8
    } else {
        0
    }
}

impl Asteroid {
    /// Spawns an asteroid from the template at arena index `idx`: it starts
    /// with exactly the template's hit points and point value.
    pub fn from_template(store: &TemplateStore, idx: usize) -> (a: Asteroid)
        requires
            idx < store.nodes@.len(),
        ensures
            a.hits_remaining == store.nodes@[idx as int].hit_points,
            a.point_value == store.nodes@[idx as int].point_value,
            a.template == idx,
    {
        let node = &store.nodes[idx];
        Asteroid { hits_remaining: node.hit_points, point_value: node.point_value, template: idx }
    }

    /// Applies one destructive hit, saturating at zero, and reports whether
    /// the asteroid is destroyed by it (the count reached zero).
    pub fn register_hit(&mut self) -> (destroyed: bool)
        ensures
            final(self).hits_remaining == spec_after_hit(old(self).hits_remaining),
            final(self).point_value == old(self).point_value,
            final(self).template == old(self).template,
            destroyed == (final(self).hits_remaining == 0),
    {
        self.hits_remaining = if self.hits_remaining > 0 {
            self.hits_remaining - 1
        } else {
            0
        };
        self.hits_remaining == 0
    }
}

} // verus!
