//! The per-frame gameplay events, drained by the sound dispatcher.

use vstd::prelude::*;

verus! {

/// An event recorded by the controllers during one frame.
#[derive(Clone, Copy, Debug, PartialEq, Eq, Structural)]
pub enum Event {
    GameStart,
    GameOver,
    GameWon,
    Attack,
    Defend,
    EnemyKilled,
    EnemySpawned,
    PowerupGained,
}

} // verus!
