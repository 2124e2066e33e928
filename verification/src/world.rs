//! The world: the player, the enemies and powerups, the generated map and
//! the logical screen size.

use vstd::prelude::*;

verus! {

use crate::enemy::Enemy;
use crate::geometry::{Point, Size};
use crate::map::TileMap;
use crate::player::Player;
use crate::powerup::Powerup;

/// A model that contains the other models.
#[derive(Debug)]
pub struct World {
    pub player: Player,
    pub enemies: Vec<Enemy>,
    pub powerups: Vec<Powerup>,
    pub map: TileMap,
    pub size: Size,
}

impl World {
    /// True when the screen size is positive and every entity's vector is
    /// well formed.
    pub open spec fn wf(self) -> bool {
        &&& self.size.wf()
        &&& self.size.width >= 1
        &&& self.size.height >= 1
        &&& self.player.vector.wf()
        &&& forall|i: int| 0 <= i < self.enemies@.len() ==>
            (#[trigger] self.enemies@[i]).vector.wf()
        &&& forall|i: int| 0 <= i < self.powerups@.len() ==>
            (#[trigger] self.powerups@[i]).vector.wf()
    }

    /// The number of tile rows the map of a world of size `size` holds: the
    /// screen height in whole tile heights.
    pub fn map_size(size: Size) -> (r: usize)
        requires
            size.wf(),
        ensures
            r == size.height / 64000,
    {
        ((size.height as u64) / 64000) as usize
    }

    /// Returns a new world of the given size around the given generated map:
    /// the player is placed on a randomly chosen map tile, dead until
    /// gameplay begins; the enemy and powerup lists start empty.
    pub fn new(size: Size, map: TileMap) -> (r: World)
        requires
            size.wf(),
            size.width >= 1,
            size.height >= 1,
            map.complete(),
            map.tiles_in_limit(),
        ensures
            r.size == size,
            r.map == map,
            r.enemies@.len() == 0,
            r.powerups@.len() == 0,
            r.player.is_dead,
            r.player.powerup is None,
            r.player.vector.direction == 0,
            map.is_tile_position(r.player.vector.position),
            r.wf(),
    {
        let spawn: Point = match map.get_random_point() {
            Some(p) => p,
            None => {
                proof {
                    assert(false);
                }
                Point { x: 0, y: 0 }
            },
        };
        World {
            player: Player::new(spawn),
            enemies: Vec::new(),
            powerups: Vec::new(),
            map,
            size,
        }
    }

    /// Returns the map's draw anchor: the center of the screen.
    pub fn map_position(&self) -> (r: Point)
        requires
            self.size.wf(),
        ensures
            r.x == self.size.width / 2,
            r.y == self.size.height / 2,
    {
        Point {
            x: ((self.size.width as u64) / 2) as i64,
            y: ((self.size.height as u64) / 2) as i64,
        }
    }
}

} // verus!
