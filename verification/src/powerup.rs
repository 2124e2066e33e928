//! Powerups: positioned, collidable pickups carrying an effect kind.

use vstd::prelude::*;

verus! {

use crate::geometry::{Collide, Point, Position, Vector};

/// The kinds of powerup: the shield nullifies the next lethal collision,
/// consuming itself.
#[derive(Clone, Copy, Debug, PartialEq, Eq, Structural)]
pub enum PowerupKind {
    Shield,
}

/// A powerup waiting in the world: its vector and its kind.
#[derive(Clone, Copy, Debug, PartialEq, Eq, Structural)]
pub struct Powerup {
    pub vector: Vector,
    pub kind: PowerupKind,
}

impl Powerup {
    /// Create a new `Powerup` of the given kind at the given position.
    pub fn new(position: Point, kind: PowerupKind) -> (r: Powerup)
        ensures
            r == (Powerup {
                vector: Vector { position, direction: 0, speed: 1000 },
                kind,
            }),
    {
        Powerup { vector: Vector::new(position, 1000), kind }
    }
}

impl Position for Powerup {
    open spec fn pos_spec(&self) -> Point {
        self.vector.position
    }

    open spec fn with_pos(&self, p: Point) -> Powerup {
        Powerup {
            vector: Vector {
                position: p,
                direction: self.vector.direction,
                speed: self.vector.speed,
            },
            kind: self.kind,
        }
    }

    fn x(&self) -> i64 {
        self.vector.position.x
    }

    fn y(&self) -> i64 {
        self.vector.position.y
    }

    fn x_mut(&mut self) -> &mut i64 {
        &mut self.vector.position.x
    }

    fn y_mut(&mut self) -> &mut i64 {
        &mut self.vector.position.y
    }
}

impl Collide for Powerup {
    open spec fn radius_spec(&self) -> int {
        6000
    }

    fn radius(&self) -> i64 {
        6000
    }
}

} // verus!
