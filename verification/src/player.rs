//! The `Player` is the hero controlled by the user.

use vstd::prelude::*;

verus! {

use crate::geometry::{Collide, Point, Position, Vector};
use crate::powerup::PowerupKind;

/// The player: dead until gameplay begins, a position-and-facing vector, and
/// an optionally held powerup.
#[derive(Clone, Copy, Debug, PartialEq, Eq, Structural)]
pub struct Player {
    pub is_dead: bool,
    pub vector: Vector,
    pub powerup: Option<PowerupKind>,
}

impl Player {
    /// Create a new `Player` at the given position: initially dead (until
    /// gameplay begins), facing direction zero, holding no powerup.
    pub fn new(position: Point) -> (r: Player)
        ensures
            r == (Player {
                is_dead: true,
                vector: Vector { position, direction: 0, speed: 1000 },
                powerup: None::<PowerupKind>,
            }),
    {
        Player { is_dead: true, vector: Vector::new(position, 1000), powerup: None }
    }
}

impl Position for Player {
    open spec fn pos_spec(&self) -> Point {
        self.vector.position
    }

    open spec fn with_pos(&self, p: Point) -> Player {
        Player {
            is_dead: self.is_dead,
            vector: Vector {
                position: p,
                direction: self.vector.direction,
                speed: self.vector.speed,
            },
            powerup: self.powerup,
        }
    }

    fn x(&self) -> i64 {
        self.vector.position.x
    }

    fn y(&self) -> i64 {
        self.vector.position.y
    }

    fn x_mut(&mut self) -> &mut i64 {
        &mut self.vector.position.x
    }

    fn y_mut(&mut self) -> &mut i64 {
        &mut self.vector.position.y
    }
}

impl Collide for Player {
    open spec fn radius_spec(&self) -> int {
        6000
    }

    fn radius(&self) -> i64 {
        6000
    }
}

} // verus!
