//! The input controller: translates key press and release events into a
//! persistent set of named action flags.

use vstd::prelude::*;

verus! {

/// The library's model of the keys the game reacts to; any other key is
/// `Unknown` and is ignored.
#[derive(Clone, Copy, Debug, PartialEq, Eq, Structural)]
pub enum Key {
    Up,
    Down,
    Left,
    Right,
    X,
    C,
    Unknown,
}

/// Active actions (toggled by user input).
///
/// The motion code reads `left` and `right` as rotation and `up` as a speed
/// boost; `attack` and `defend` are reserved for those mechanics.
#[derive(Clone, Copy, Debug, PartialEq, Eq, Structural)]
pub struct Actions {
    pub up: bool,
    pub down: bool,
    pub left: bool,
    pub right: bool,
    pub attack: bool,
    pub defend: bool,
}

impl Default for Actions {
    /// All actions start released.
    fn default() -> (r: Actions)
        ensures
            r == (Actions {
                up: false,
                down: false,
                left: false,
                right: false,
                attack: false,
                defend: false,
            }),
    {
        Actions { up: false, down: false, left: false, right: false, attack: false, defend: false }
    }
}

/// The controller holding the current action flags.
#[derive(Clone, Copy, Debug, PartialEq, Eq, Structural)]
pub struct InputController {
    pub actions: Actions,
}

/// The action flags after `key` is set to `pressed`: the matching flag takes
/// the new state, every other flag keeps its own, and unknown keys change
/// nothing.
pub open spec fn spec_handle_key(a: Actions, key: Key, pressed: bool) -> Actions {
    match key {
        Key::Up => Actions { up: pressed, ..a },
        Key::Down => Actions { down: pressed, ..a },
        Key::Left => Actions { left: pressed, ..a },
        Key::Right => Actions { right: pressed, ..a },
        Key::X => Actions { attack: pressed, ..a },
        Key::C => Actions { defend: pressed, ..a },
        Key::Unknown => a,
    }
}

impl InputController {
    /// Create a new `InputController` with every action released.
    pub fn new() -> (r: InputController)
        ensures
            r.actions == (Actions {
                up: false,
                down: false,
                left: false,
                right: false,
                attack: false,
                defend: false,
            }),
    {
        InputController { actions: Actions::default() }
    }

    /// Returns a shared reference to the underlying actions.
    pub fn actions(&self) -> (r: &Actions)
        ensures
            r == &self.actions,
    {
        &self.actions
    }

    /// Processes a key press.
    pub fn key_press(&mut self, keycode: Key)
        ensures
            final(self).actions == spec_handle_key(old(self).actions, keycode, true),
    {
        self.handle_key(keycode, true);
    }

    /// Processes a key release.
    pub fn key_release(&mut self, keycode: Key)
        ensures
            final(self).actions == spec_handle_key(old(self).actions, keycode, false),
    {
        self.handle_key(keycode, false);
    }

    /// Handles a key press or release.
    fn handle_key(&mut self, keycode: Key, pressed: bool)
        ensures
            final(self).actions == spec_handle_key(old(self).actions, keycode, pressed),
    {
        match keycode {
            Key::Up => self.actions.up = pressed,
            Key::Down => self.actions.down = pressed,
            Key::Left => self.actions.left = pressed,
            Key::Right => self.actions.right = pressed,
            Key::X => self.actions.attack = pressed,
            Key::C => self.actions.defend = pressed,
            Key::Unknown => (),
        }
    }
}

impl Default for InputController {
    /// A fresh controller with every action released.
    fn default() -> (r: InputController)
        ensures
            r.actions == (Actions {
                up: false,
                down: false,
                left: false,
                right: false,
                attack: false,
                defend: false,
            }),
    {
        InputController::new()
    }
}

} // verus!
