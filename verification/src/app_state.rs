//! The application orchestrator's state: window focus, the game state, the
//! controllers and the per-frame event buffer, advanced once per frame.
//!
//! The engine loop around it measures elapsed time, feeds key events in and
//! hands the event buffer to the sound dispatcher; every decision lives
//! here.

use vstd::prelude::*;

verus! {

use crate::collisions::{CollisionsController, spec_collisions_relation};
use crate::events::Event;
use crate::game_state::GameState;
use crate::geometry::Size;
use crate::input::InputController;
use crate::map::TileMap;
use crate::time::{MAX_DT_MS, MAX_TIME_MS, TimeController, spec_update_relation};

/// This struct contains the application's state.
#[derive(Debug)]
pub struct ApplicationState {
    /// Keep track of window focus to play/pause the game.
    pub has_focus: bool,
    /// The game state contains all information needed to run the game.
    pub game_state: GameState,
    /// The time controller keeps track of the time that has passed since
    /// the last frame, and of the scheduled timeouts.
    pub time_controller: TimeController,
    /// The input controller keeps track of the actions that are triggered
    /// by the player.
    pub input_controller: InputController,
    /// The event buffer keeps track of events that trigger sounds, so sound
    /// playing is separated from the game logic.
    pub event_buffer: Vec<Event>,
}

impl ApplicationState {
    /// True when the game state and the time controller are well formed and
    /// the difficulty never outruns the clock.
    pub open spec fn wf(self) -> bool {
        &&& self.game_state.world.wf()
        &&& self.time_controller.wf()
        &&& self.game_state.difficulty <= 10 * self.time_controller.current_time
    }

    /// Creates a new application state of the given size around the given
    /// generated map: focused, a fresh game state showing the welcome
    /// message, fresh controllers and an empty event buffer.
    pub fn new(game_size: Size, map: TileMap) -> (r: ApplicationState)
        requires
            game_size.wf(),
            game_size.width >= 1,
            game_size.height >= 1,
            map.complete(),
            map.tiles_in_limit(),
        ensures
            r.has_focus,
            r.game_state.world.size == game_size,
            r.game_state.world.map == map,
            r.game_state.world.enemies@.len() == 0,
            r.game_state.world.powerups@.len() == 0,
            r.game_state.world.player.is_dead,
            map.is_tile_position(r.game_state.world.player.vector.position),
            r.game_state.score == 0,
            r.game_state.difficulty == 0,
            r.game_state.message matches Some(m) && m.title@ == "Welcome to Rust-RPG"@,
            r.time_controller.current_time == 0,
            r.time_controller.scheduled_timeouts.entries@.len() == 0,
            !r.input_controller.actions.up,
            !r.input_controller.actions.down,
            !r.input_controller.actions.left,
            !r.input_controller.actions.right,
            !r.input_controller.actions.attack,
            !r.input_controller.actions.defend,
            r.event_buffer@.len() == 0,
            r.wf(),
    {
        ApplicationState {
            has_focus: true,
            game_state: GameState::new(game_size, map),
            time_controller: TimeController::new(),
            input_controller: InputController::new(),
            event_buffer: Vec::new(),
        }
    }

    /// This is called when the game needs to be reset: the game state is
    /// rebuilt around the freshly generated map and a game-start event is
    /// appended to the event buffer.
    pub fn reset(&mut self, map: TileMap)
        requires
            old(self).game_state.world.size.wf(),
            old(self).game_state.world.size.width >= 1,
            old(self).game_state.world.size.height >= 1,
            map.complete(),
            map.tiles_in_limit(),
        ensures
            final(self).game_state.world.size == old(self).game_state.world.size,
            final(self).game_state.world.map == map,
            final(self).game_state.world.enemies@.len() == 0,
            final(self).game_state.world.powerups@.len() == 0,
            final(self).game_state.world.player.is_dead,
            map.is_tile_position(final(self).game_state.world.player.vector.position),
            final(self).game_state.score == 0,
            final(self).game_state.difficulty == 0,
            final(self).game_state.message is None,
            final(self).game_state.world.wf(),
            final(self).time_controller == old(self).time_controller,
            final(self).input_controller == old(self).input_controller,
            final(self).has_focus == old(self).has_focus,
            final(self).event_buffer@ == old(self).event_buffer@.push(Event::GameStart),
            old(self).wf() ==> final(self).wf(),
    {
        // Reset the game state
        self.game_state.reset(map);
        // Add a game start event to the event buffer
        self.event_buffer.push(Event::GameStart);
    }

    /// This is called every time the game loop updates, with the elapsed
    /// time since the last update: when the window has focus, the time
    /// controller advances the game and then the collision controller
    /// resolves this frame's overlaps — the whole frame is promised as the
    /// composition of those two passes, through some intermediate state;
    /// without focus nothing at all changes.
    pub fn update(&mut self, dt: u64)
        requires
            old(self).wf(),
            dt <= MAX_DT_MS,
            old(self).time_controller.current_time + dt <= MAX_TIME_MS,
            old(self).game_state.score + 10 * (old(self).game_state.world.enemies@.len() + 1)
                <= u32::MAX,
        ensures
            !old(self).has_focus ==> *final(self) == *old(self),
            final(self).has_focus == old(self).has_focus,
            final(self).input_controller == old(self).input_controller,
            final(self).wf(),
            old(self).has_focus ==> {
                &&& final(self).time_controller.current_time == old(self).time_controller
                    .current_time + dt
                &&& final(self).game_state.difficulty == old(self).game_state.difficulty
                    + dt * 10
                &&& final(self).game_state.score >= old(self).game_state.score
            },
            old(self).has_focus ==> exists|
                mid_tc: TimeController, mid_gs: GameState, mid_ev: Seq<Event>,
            |
                #![trigger spec_update_relation(
                    old(self).time_controller, old(self).game_state,
                    old(self).event_buffer@, old(self).input_controller.actions, dt,
                    mid_tc, mid_gs, mid_ev,
                )]
                {
                    &&& spec_update_relation(
                        old(self).time_controller, old(self).game_state,
                        old(self).event_buffer@, old(self).input_controller.actions, dt,
                        mid_tc, mid_gs, mid_ev,
                    )
                    &&& spec_collisions_relation(
                        mid_gs, mid_tc, mid_ev, final(self).game_state,
                        final(self).time_controller, final(self).event_buffer@,
                    )
                },
    {
        // Pause the game if the window has no focus
        if !self.has_focus {
            return;
        }

        // Update the game state, and check for collisions
        let actions = *self.input_controller.actions();
        self.time_controller.update_seconds(
            dt,
            &actions,
            &mut self.game_state,
            &mut self.event_buffer,
        );

        let ghost mid_tc = self.time_controller;
        let ghost mid_gs = self.game_state;
        let ghost mid_ev = self.event_buffer@;

        CollisionsController::handle_collisions(
            &mut self.game_state,
            &mut self.time_controller,
            &mut self.event_buffer,
        );

        proof {
            assert(spec_update_relation(
                old(self).time_controller, old(self).game_state, old(self).event_buffer@,
                old(self).input_controller.actions, dt, mid_tc, mid_gs, mid_ev,
            ));
            assert(spec_collisions_relation(
                mid_gs, mid_tc, mid_ev, self.game_state, self.time_controller,
                self.event_buffer@,
            ));
        }
    }
}

} // verus!
