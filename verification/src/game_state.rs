//! The game state: the world plus score, difficulty and the optional
//! on-screen message.

use vstd::prelude::*;

verus! {

use crate::geometry::Size;
use crate::map::TileMap;
use crate::world::World;

/// A message drawn to the screen; while one is shown the game waits for
/// user input.
#[derive(Clone, Copy, Debug)]
pub struct Message {
    pub title: &'static str,
    pub subtitle: &'static str,
}

/// The message to show when the game starts.
pub fn welcome_message() -> (r: Message)
    ensures
        r.title@ == "Welcome to Rust-RPG"@,
        r.subtitle@ == "Press any key to start"@,
{
    Message { title: "Welcome to Rust-RPG", subtitle: "Press any key to start" }
}

/// The message to show when the game is over.
pub fn game_over_message() -> (r: Message)
    ensures
        r.title@ == "Game Over"@,
        r.subtitle@ == "Press any key to restart"@,
{
    Message { title: "Game Over", subtitle: "Press any key to restart" }
}

/// The data structure that contains the state of the game.
#[derive(Debug)]
pub struct GameState {
    /// The world contains everything that needs to be drawn.
    pub world: World,
    /// The current difficulty, in millionths of a unit: enemies speed up as
    /// it accumulates.
    pub difficulty: u64,
    /// Information about the message to draw on the screen.
    pub message: Option<Message>,
    /// The score: it only ever increases, ten points per enemy killed.
    pub score: u32,
}

impl GameState {
    /// Returns a new `GameState` of the given size around the given map:
    /// score and difficulty start at zero and the welcome message is shown.
    pub fn new(size: Size, map: TileMap) -> (r: GameState)
        requires
            size.wf(),
            size.width >= 1,
            size.height >= 1,
            map.complete(),
            map.tiles_in_limit(),
        ensures
            r.world.size == size,
            r.world.map == map,
            r.world.enemies@.len() == 0,
            r.world.powerups@.len() == 0,
            r.world.player.is_dead,
            r.world.player.powerup is None,
            map.is_tile_position(r.world.player.vector.position),
            r.world.wf(),
            r.difficulty == 0,
            r.score == 0,
            r.message matches Some(m) && m.title@ == "Welcome to Rust-RPG"@,
    {
        GameState {
            world: World::new(size, map),
            difficulty: 0,
            message: Some(welcome_message()),
            score: 0,
        }
    }

    /// Called when the game is over: displays the game-over message; nothing
    /// else changes.
    pub fn game_over(&mut self)
        ensures
            final(self).message matches Some(m) && m.title@ == "Game Over"@
                && m.subtitle@ == "Press any key to restart"@,
            final(self).world == old(self).world,
            final(self).difficulty == old(self).difficulty,
            final(self).score == old(self).score,
    {
        self.message = Some(game_over_message());
    }

    /// Resets the game state around a freshly generated map: a new world of
    /// the same size with the player on a newly chosen map tile, score and
    /// difficulty back to zero, no message, and no enemies or powerups.
    pub fn reset(&mut self, map: TileMap)
        requires
            old(self).world.size.wf(),
            old(self).world.size.width >= 1,
            old(self).world.size.height >= 1,
            map.complete(),
            map.tiles_in_limit(),
        ensures
            final(self).world.size == old(self).world.size,
            final(self).world.map == map,
            final(self).world.enemies@.len() == 0,
            final(self).world.powerups@.len() == 0,
            final(self).world.player.is_dead,
            final(self).world.player.powerup is None,
            map.is_tile_position(final(self).world.player.vector.position),
            final(self).world.wf(),
            final(self).score == 0,
            final(self).difficulty == 0,
            final(self).message is None,
    {
        // Create a new world
        self.world = World::new(self.world.size, map);

        // Reset score
        self.score = 0;

        // Reset difficulty
        self.difficulty = 0;

        // Reset message
        self.message = None;

        // Remove all enemies and powerups (a fresh world already starts
        // empty; this clearing is defensive)
        self.world.enemies.clear();
        self.world.powerups.clear();
    }
}

} // verus!
