//! The `Enemy` chases the player once spawned.

use vstd::prelude::*;

verus! {

use crate::geometry::{Collide, Point, Position, Vector};

/// An enemy: nothing but its position-and-facing vector.
#[derive(Clone, Copy, Debug, PartialEq, Eq, Structural)]
pub struct Enemy {
    pub vector: Vector,
}

impl Enemy {
    /// Create a new `Enemy` at the given position, facing direction zero,
    /// with speed factor one.
    pub fn new(position: Point) -> (r: Enemy)
        ensures
            r == (Enemy { vector: Vector { position, direction: 0, speed: 1000 } }),
    {
        Enemy { vector: Vector::new(position, 1000) }
    }
}

impl Enemy {
    /// Chases the player: moves `dist` milli-units straight toward the
    /// player's position; facing and speed factor are unchanged.
    pub fn update(&mut self, dist: u64, player_position: Point)
        requires
            old(self).vector.wf(),
            player_position.in_limit(),
            dist <= 2_000_000_000,
        ensures
            final(self).vector.position == crate::geometry::spec_move_toward(
                old(self).vector.position, player_position, dist as int,
            ),
            final(self).vector.direction == old(self).vector.direction,
            final(self).vector.speed == old(self).vector.speed,
            final(self).vector.wf(),
    {
        let p = crate::geometry::move_toward(self.vector.position, player_position, dist);
        self.vector.position = p;
    }

    /// Drifts: advances `dist` milli-units along its own facing direction,
    /// saturating at the world coordinate limit.
    pub fn advance(&mut self, dist: u64)
        requires
            old(self).vector.wf(),
            dist <= 2_000_000_000,
        ensures
            final(self).vector.position == crate::geometry::spec_advanced_drift(
                old(self).vector, dist as int,
            ),
            final(self).vector.direction == old(self).vector.direction,
            final(self).vector.speed == old(self).vector.speed,
            final(self).vector.wf(),
    {
        self.vector.advance(dist);
    }
}

impl Position for Enemy {
    open spec fn pos_spec(&self) -> Point {
        self.vector.position
    }

    open spec fn with_pos(&self, p: Point) -> Enemy {
        Enemy {
            vector: Vector {
                position: p,
                direction: self.vector.direction,
                speed: self.vector.speed,
            },
        }
    }

    fn x(&self) -> i64 {
        self.vector.position.x
    }

    fn y(&self) -> i64 {
        self.vector.position.y
    }

    fn x_mut(&mut self) -> &mut i64 {
        &mut self.vector.position.x
    }

    fn y_mut(&mut self) -> &mut i64 {
        &mut self.vector.position.y
    }
}

impl Collide for Enemy {
    open spec fn radius_spec(&self) -> int {
        6000
    }

    fn radius(&self) -> i64 {
        6000
    }
}

} // verus!
