//! The sound dispatcher's decision table: which audio cue each gameplay
//! event triggers. The playback itself is the presentation layer's work.

use vstd::prelude::*;

verus! {

use crate::events::Event;

/// The audio cues the game can play.
#[derive(Clone, Copy, Debug, PartialEq, Eq, Structural)]
pub enum SoundCue {
    Music,
    Lose,
    Win,
    Hit,
    Defend,
}

/// The cue an event triggers: starting plays the music, defeat the losing
/// jingle, victory the winning one, attacking and defending their effects;
/// enemy kills and spawns are silent.
pub open spec fn spec_sound_for_event(e: Event) -> Option<SoundCue> {
    match e {
        Event::GameStart => Some(SoundCue::Music),
        Event::GameOver => Some(SoundCue::Lose),
        Event::GameWon => Some(SoundCue::Win),
        Event::Attack => Some(SoundCue::Hit),
        Event::Defend => Some(SoundCue::Defend),
        Event::EnemyKilled => None,
        Event::EnemySpawned => None,
        Event::PowerupGained => None,
    }
}

/// Returns the audio cue the given event triggers, if any.
pub fn sound_for_event(e: &Event) -> (r: Option<SoundCue>)
    ensures
        r == spec_sound_for_event(*e),
{
    match e {
        Event::GameStart => Some(SoundCue::Music),
        Event::GameOver => Some(SoundCue::Lose),
        Event::GameWon => Some(SoundCue::Win),
        Event::Attack => Some(SoundCue::Hit),
        Event::Defend => Some(SoundCue::Defend),
        Event::EnemyKilled => None,
        Event::EnemySpawned => None,
        Event::PowerupGained => None,
    }
}

} // verus!
