use rust_rpg::app_state::ApplicationState;
use rust_rpg::atlas::{Atlas, AtlasInfo, Frame, Type};
use rust_rpg::collisions::CollisionsController;
use rust_rpg::enemy::Enemy;
use rust_rpg::events::Event;
use rust_rpg::game_state::GameState;
use rust_rpg::geometry::{Point, Size};
use rust_rpg::input::{InputController, Key};
use rust_rpg::map::TileMap;
use rust_rpg::powerup::{Powerup, PowerupKind};
use rust_rpg::sound::{sound_for_event, SoundCue};
use rust_rpg::time::{TimeController, Timeout, TimeoutQueue, Timer};

fn tile_frame(name: &str, x: i32, y: i32) -> Frame {
    Frame { name: name.to_owned(), x, y, w: 133, h: 127 }
}

fn landscape() -> Atlas {
    Atlas {
        meta: AtlasInfo {
            name: Type::Landscape,
            path: "/atlas/landscape.png".to_owned(),
            size: (512, 512),
            frames: vec![
                tile_frame("grass", 0, 0),
                tile_frame("water", 133, 0),
                tile_frame("rock", 266, 0),
            ],
        },
    }
}

fn test_map() -> TileMap {
    TileMap::new(&vec![vec![0, 1], vec![2, 0]], &landscape(), 2).expect("complete grid")
}

fn test_state() -> GameState {
    GameState::new(Size::new(1_400_000, 1_000_000), test_map())
}

// --- input controller ---

#[test]
fn key_presses_raise_and_releases_clear_the_action_flags() {
    let mut input = InputController::new();
    assert!(!input.actions().up && !input.actions().attack);
    input.key_press(Key::Up);
    input.key_press(Key::X);
    input.key_press(Key::C);
    assert!(input.actions().up);
    assert!(input.actions().attack);
    assert!(input.actions().defend);
    input.key_release(Key::X);
    assert!(!input.actions().attack);
    assert!(input.actions().up && input.actions().defend);
}

#[test]
fn unrecognized_keys_are_ignored() {
    let mut input = InputController::new();
    input.key_press(Key::Unknown);
    let a = *input.actions();
    assert!(!a.up && !a.down && !a.left && !a.right && !a.attack && !a.defend);
}

#[test]
fn each_direction_key_maps_to_its_own_flag() {
    let mut input = InputController::new();
    input.key_press(Key::Down);
    input.key_press(Key::Left);
    input.key_press(Key::Right);
    assert!(input.actions().down && input.actions().left && input.actions().right);
    assert!(!input.actions().up);
}

// --- timers and the timeout queue ---

#[test]
fn timer_fires_only_after_a_full_period() {
    let mut timer = Timer::from_rate(5);
    assert!(!timer.update(199));
    assert!(timer.update(200));
    assert!(!timer.update(399));
    assert!(timer.update(400));
}

#[test]
fn timeout_queue_pops_in_fire_time_order() {
    let mut q = TimeoutQueue::new();
    q.push(5_000, Timeout::ShowGameOverScreen);
    q.push(1_000, Timeout::RemovePowerup);
    q.push(3_000, Timeout::ShowGameOverScreen);
    assert_eq!(q.len(), 3);
    assert_eq!(q.peek(), Some(1_000));
    assert_eq!(q.pop(), Some(Timeout::RemovePowerup));
    assert_eq!(q.peek(), Some(3_000));
    assert_eq!(q.pop(), Some(Timeout::ShowGameOverScreen));
    assert_eq!(q.peek(), Some(5_000));
    assert_eq!(q.pop(), Some(Timeout::ShowGameOverScreen));
    assert_eq!(q.pop(), None);
}

#[test]
fn at_most_one_timeout_fires_per_update() {
    let mut state = test_state();
    state.message = None;
    state.world.player.powerup = Some(PowerupKind::Shield);
    let mut tc = TimeController::new();
    let mut events: Vec<Event> = Vec::new();
    let actions = *InputController::new().actions();

    // scheduled at 5s, 1s and 3s, in that insertion order
    tc.schedule_timeout(5_000, Timeout::ShowGameOverScreen);
    tc.schedule_timeout(1_000, Timeout::RemovePowerup);
    tc.schedule_timeout(3_000, Timeout::ShowGameOverScreen);

    // after 5 seconds all three are overdue, yet they drain one per update
    tc.update_seconds(5_000, &actions, &mut state, &mut events);
    assert_eq!(tc.scheduled_timeouts.len(), 2);
    assert_eq!(state.world.player.powerup, None); // the 1s timeout fired first
    assert!(state.message.is_none());

    tc.update_seconds(5_000, &actions, &mut state, &mut events);
    assert_eq!(tc.scheduled_timeouts.len(), 1);
    assert_eq!(state.message.as_ref().map(|m| m.title), Some("Game Over"));

    tc.update_seconds(5_000, &actions, &mut state, &mut events);
    assert_eq!(tc.scheduled_timeouts.len(), 0);
}

// --- the update engine ---

#[test]
fn difficulty_accumulates_a_hundredth_of_elapsed_time() {
    let mut state = test_state();
    let mut tc = TimeController::new();
    let mut events: Vec<Event> = Vec::new();
    let actions = *InputController::new().actions();

    tc.update_seconds(300, &actions, &mut state, &mut events);
    let after_first = state.difficulty;
    tc.update_seconds(700, &actions, &mut state, &mut events);

    // 0.3 s and 0.7 s elapsed: difficulty is exactly 1/100 of a unit, in
    // millionths, and it never decreased along the way
    assert_eq!(after_first, 3_000);
    assert!(state.difficulty >= after_first);
    assert_eq!(state.difficulty, 10_000);
}

#[test]
fn enemies_spawn_on_the_spawn_cadence() {
    let mut state = test_state();
    state.world.player.is_dead = false;
    let mut tc = TimeController::new();
    let mut events: Vec<Event> = Vec::new();
    let actions = *InputController::new().actions();

    // 200 ms reach the 5-per-second cadence exactly once
    tc.update_seconds(200, &actions, &mut state, &mut events);
    assert_eq!(state.world.enemies.len(), 1);
    assert_eq!(events, vec![Event::EnemySpawned]);

    // 100 ms more are not yet a full period
    tc.update_seconds(100, &actions, &mut state, &mut events);
    assert_eq!(state.world.enemies.len(), 1);

    // another 100 ms complete the second period
    tc.update_seconds(100, &actions, &mut state, &mut events);
    assert_eq!(state.world.enemies.len(), 2);
}

#[test]
fn enemies_keep_spawning_every_period() {
    let mut state = test_state();
    state.world.player.is_dead = false;
    let mut tc = TimeController::new();
    let mut events: Vec<Event> = Vec::new();
    let actions = *InputController::new().actions();
    for _ in 0..20 {
        tc.update_seconds(200, &actions, &mut state, &mut events);
    }
    assert_eq!(state.world.enemies.len(), 20);
}

#[test]
fn a_dead_player_does_not_move() {
    let mut state = test_state();
    let before = state.world.player.vector.position;
    let mut tc = TimeController::new();
    let mut events: Vec<Event> = Vec::new();
    let mut input = InputController::new();
    input.key_press(Key::Up);
    input.key_press(Key::Right);
    let actions = *input.actions();

    tc.update_seconds(100, &actions, &mut state, &mut events);
    assert_eq!(state.world.player.vector.position, before);
}

#[test]
fn an_alive_player_advances_and_rotates() {
    let mut state = test_state();
    state.world.player.is_dead = false;
    state.world.player.vector.position = Point::new(500_000, 500_000);
    let mut tc = TimeController::new();
    let mut events: Vec<Event> = Vec::new();

    // facing direction 0 points along positive x; 100 ms at 200 units per
    // second advance by 20 units
    let actions = *InputController::new().actions();
    tc.update_seconds(100, &actions, &mut state, &mut events);
    assert_eq!(state.world.player.vector.position, Point::new(520_000, 500_000));

    // with the rotate-right action held, 250 ms turn a quarter circle
    let mut input = InputController::new();
    input.key_press(Key::Right);
    let actions = *input.actions();
    tc.update_seconds(250, &actions, &mut state, &mut events);
    assert_eq!(state.world.player.vector.direction, 250);
}

#[test]
fn the_boost_action_doubles_the_advance() {
    let mut state = test_state();
    state.world.player.is_dead = false;
    state.world.player.vector.position = Point::new(500_000, 500_000);
    let mut tc = TimeController::new();
    let mut events: Vec<Event> = Vec::new();
    let mut input = InputController::new();
    input.key_press(Key::Up);
    let actions = *input.actions();

    tc.update_seconds(100, &actions, &mut state, &mut events);
    assert_eq!(state.world.player.vector.position, Point::new(540_000, 500_000));
}

#[test]
fn a_shield_spawns_on_the_powerup_cadence_while_none_is_in_play() {
    let mut state = test_state();
    state.world.player.is_dead = false;
    let mut tc = TimeController::new();
    let mut events: Vec<Event> = Vec::new();
    let actions = *InputController::new().actions();

    // one second reaches the once-a-second powerup cadence
    tc.update_seconds(1_000, &actions, &mut state, &mut events);
    assert_eq!(state.world.powerups.len(), 1);
    assert_eq!(state.world.powerups[0].kind, PowerupKind::Shield);
    assert_eq!(state.world.powerups[0].vector.direction, 0);

    // while a shield waits in the world, the next chance is forfeited
    tc.update_seconds(1_000, &actions, &mut state, &mut events);
    assert_eq!(state.world.powerups.len(), 1);
}

#[test]
fn no_powerup_spawns_while_the_player_is_dead() {
    let mut state = test_state();
    let mut tc = TimeController::new();
    let mut events: Vec<Event> = Vec::new();
    let actions = *InputController::new().actions();

    tc.update_seconds(1_000, &actions, &mut state, &mut events);
    assert_eq!(state.world.powerups.len(), 0);
}

// --- collision resolution ---

#[test]
fn three_kills_in_one_pass_score_thirty() {
    let mut state = test_state();
    state.world.player.is_dead = false;
    state.world.player.vector.position = Point::new(500_000, 500_000);
    state.world.player.powerup = Some(PowerupKind::Shield);
    state.world.enemies.push(Enemy::new(Point::new(500_000, 500_000)));
    state.world.enemies.push(Enemy::new(Point::new(505_000, 500_000)));
    state.world.enemies.push(Enemy::new(Point::new(500_000, 495_000)));
    let mut tc = TimeController::new();
    let mut events: Vec<Event> = Vec::new();

    CollisionsController::handle_collisions(&mut state, &mut tc, &mut events);

    assert_eq!(state.world.enemies.len(), 0);
    assert_eq!(state.score, 30);
    assert!(!state.world.player.is_dead);
}

#[test]
fn a_shielded_hit_consumes_the_shield_and_spares_the_player() {
    let mut state = test_state();
    state.world.player.is_dead = false;
    state.world.player.vector.position = Point::new(500_000, 500_000);
    state.world.player.powerup = Some(PowerupKind::Shield);
    state.world.enemies.push(Enemy::new(Point::new(500_000, 500_000)));
    // an enemy far away survives the shield
    state.world.enemies.push(Enemy::new(Point::new(800_000, 800_000)));
    let mut tc = TimeController::new();
    let mut events: Vec<Event> = Vec::new();

    CollisionsController::handle_collisions(&mut state, &mut tc, &mut events);

    assert_eq!(state.world.player.powerup, None);
    assert!(!state.world.player.is_dead);
    assert_eq!(events, vec![Event::EnemyKilled]);
    assert_eq!(state.world.enemies.len(), 1);
    assert_eq!(state.score, 10);
}

#[test]
fn an_unshielded_hit_kills_the_player() {
    let mut state = test_state();
    state.world.player.is_dead = false;
    state.world.player.vector.position = Point::new(500_000, 500_000);
    state.world.enemies.push(Enemy::new(Point::new(500_000, 500_000)));
    let mut tc = TimeController::new();
    let mut events: Vec<Event> = Vec::new();

    CollisionsController::handle_collisions(&mut state, &mut tc, &mut events);

    assert!(state.world.player.is_dead);
    assert_eq!(events, vec![Event::GameOver]);
    assert_eq!(state.world.enemies.len(), 1);
    assert_eq!(state.score, 0);
    // the game-over screen is scheduled two seconds out
    assert_eq!(tc.scheduled_timeouts.len(), 1);
    assert_eq!(tc.scheduled_timeouts.entries[0].at, 2_000);
    assert_eq!(tc.scheduled_timeouts.entries[0].timeout, Timeout::ShowGameOverScreen);
}

#[test]
fn picking_a_powerup_up_schedules_its_removal() {
    let mut state = test_state();
    state.world.player.is_dead = false;
    state.world.player.vector.position = Point::new(500_000, 500_000);
    state.world.powerups.push(Powerup::new(Point::new(500_000, 505_000), PowerupKind::Shield));
    let mut tc = TimeController::new();
    let mut events: Vec<Event> = Vec::new();

    CollisionsController::handle_collisions(&mut state, &mut tc, &mut events);

    assert_eq!(state.world.player.powerup, Some(PowerupKind::Shield));
    assert!(state.world.powerups.is_empty());
    assert_eq!(events, vec![Event::PowerupGained]);
    assert_eq!(tc.scheduled_timeouts.len(), 1);
    assert_eq!(tc.scheduled_timeouts.entries[0].at, 10_000);
    assert_eq!(tc.scheduled_timeouts.entries[0].timeout, Timeout::RemovePowerup);
}

#[test]
fn a_powerup_picked_up_this_frame_already_shields() {
    let mut state = test_state();
    state.world.player.is_dead = false;
    state.world.player.vector.position = Point::new(500_000, 500_000);
    state.world.powerups.push(Powerup::new(Point::new(500_000, 505_000), PowerupKind::Shield));
    state.world.enemies.push(Enemy::new(Point::new(505_000, 500_000)));
    let mut tc = TimeController::new();
    let mut events: Vec<Event> = Vec::new();

    CollisionsController::handle_collisions(&mut state, &mut tc, &mut events);

    assert!(!state.world.player.is_dead);
    assert_eq!(state.world.player.powerup, None);
    assert_eq!(events, vec![Event::PowerupGained, Event::EnemyKilled]);
    assert_eq!(state.score, 10);
}

#[test]
fn dead_players_collide_with_nothing() {
    let mut state = test_state();
    state.world.player.vector.position = Point::new(500_000, 500_000);
    state.world.enemies.push(Enemy::new(Point::new(500_000, 500_000)));
    state.world.powerups.push(Powerup::new(Point::new(500_000, 500_000), PowerupKind::Shield));
    let mut tc = TimeController::new();
    let mut events: Vec<Event> = Vec::new();

    CollisionsController::handle_collisions(&mut state, &mut tc, &mut events);

    assert_eq!(state.world.player.powerup, None);
    assert_eq!(state.world.powerups.len(), 1);
    assert!(events.is_empty());
    assert_eq!(state.score, 0);
}

// --- game state ---

#[test]
fn a_new_game_shows_the_welcome_message() {
    let state = test_state();
    let message = state.message.expect("welcome message");
    assert_eq!(message.title, "Welcome to Rust-RPG");
    assert_eq!(message.subtitle, "Press any key to start");
    assert_eq!(state.score, 0);
    assert_eq!(state.difficulty, 0);
}

#[test]
fn game_over_shows_the_restart_prompt() {
    let mut state = test_state();
    state.game_over();
    let message = state.message.expect("game-over message");
    assert_eq!(message.title, "Game Over");
    assert_eq!(message.subtitle, "Press any key to restart");
}

#[test]
fn reset_restores_every_starting_invariant() {
    let mut state = test_state();
    state.score = 250;
    state.difficulty = 123_456;
    state.world.player.is_dead = false;
    state.world.enemies.push(Enemy::new(Point::new(0, 0)));
    state.world.powerups.push(Powerup::new(Point::new(0, 0), PowerupKind::Shield));

    let fresh_map = test_map();
    let tile_positions: Vec<Point> = fresh_map.layers()[0]
        .data
        .iter()
        .flatten()
        .map(|t| t.position)
        .collect();
    state.reset(fresh_map);

    assert_eq!(state.score, 0);
    assert_eq!(state.difficulty, 0);
    assert!(state.message.is_none());
    assert!(state.world.enemies.is_empty());
    assert!(state.world.powerups.is_empty());
    assert!(tile_positions.contains(&state.world.player.vector.position));
}

// --- the application orchestrator ---

#[test]
fn update_without_focus_changes_nothing() {
    let mut app = ApplicationState::new(Size::new(1_400_000, 1_000_000), test_map());
    app.game_state.world.player.is_dead = false;
    app.has_focus = false;
    let score = app.game_state.score;
    let difficulty = app.game_state.difficulty;
    let clock = app.time_controller.current_time;
    let position = app.game_state.world.player.vector.position;
    let enemies = app.game_state.world.enemies.len();
    let buffered = app.event_buffer.len();

    app.update(1_000);

    assert_eq!(app.game_state.score, score);
    assert_eq!(app.game_state.difficulty, difficulty);
    assert_eq!(app.time_controller.current_time, clock);
    assert_eq!(app.game_state.world.player.vector.position, position);
    assert_eq!(app.game_state.world.enemies.len(), enemies);
    assert_eq!(app.event_buffer.len(), buffered);
    assert!(app.game_state.message.is_some());
}

#[test]
fn update_with_focus_advances_the_game() {
    let mut app = ApplicationState::new(Size::new(1_400_000, 1_000_000), test_map());
    app.update(1_000);
    assert_eq!(app.time_controller.current_time, 1_000);
    assert_eq!(app.game_state.difficulty, 10_000);
}

#[test]
fn reset_queues_the_game_start_sound() {
    let mut app = ApplicationState::new(Size::new(1_400_000, 1_000_000), test_map());
    app.reset(test_map());
    assert_eq!(app.event_buffer, vec![Event::GameStart]);
    assert!(app.game_state.message.is_none());
    assert_eq!(app.game_state.score, 0);
}

// --- the sound dispatcher's decision table ---

#[test]
fn each_event_triggers_its_cue() {
    assert_eq!(sound_for_event(&Event::GameStart), Some(SoundCue::Music));
    assert_eq!(sound_for_event(&Event::GameOver), Some(SoundCue::Lose));
    assert_eq!(sound_for_event(&Event::GameWon), Some(SoundCue::Win));
    assert_eq!(sound_for_event(&Event::Attack), Some(SoundCue::Hit));
    assert_eq!(sound_for_event(&Event::Defend), Some(SoundCue::Defend));
    assert_eq!(sound_for_event(&Event::EnemyKilled), None);
    assert_eq!(sound_for_event(&Event::EnemySpawned), None);
    assert_eq!(sound_for_event(&Event::PowerupGained), None);
}

#[test]
fn rotating_left_wraps_the_facing_backward() {
    let mut state = test_state();
    state.world.player.is_dead = false;
    state.world.player.vector.position = Point::new(500_000, 500_000);
    let mut tc = TimeController::new();
    let mut events: Vec<Event> = Vec::new();
    let mut input = InputController::new();
    input.key_press(Key::Left);
    let actions = *input.actions();

    // a quarter second of leftward rotation from facing zero wraps to
    // three quarters of a turn
    tc.update_seconds(250, &actions, &mut state, &mut events);
    assert_eq!(state.world.player.vector.direction, 750);
}

#[test]
fn enemies_chase_an_alive_player_by_speed_plus_difficulty() {
    let mut state = test_state();
    state.world.player.is_dead = false;
    state.world.player.vector.position = Point::new(500_000, 500_000);
    state.world.enemies.push(Enemy::new(Point::new(600_000, 500_000)));
    let mut tc = TimeController::new();
    let mut events: Vec<Event> = Vec::new();
    let actions = *InputController::new().actions();

    // 100 ms: the player advances 20 units to x = 520000; the enemy then
    // moves dt * (100 + difficulty) with the freshly accumulated difficulty
    // of a thousandth of a unit rounding away, so exactly 10 units,
    // straight toward the player's new position
    tc.update_seconds(100, &actions, &mut state, &mut events);
    assert_eq!(state.world.enemies[0].vector.position, Point::new(590_000, 500_000));
}

#[test]
fn difficulty_raises_the_enemies_effective_speed() {
    let mut state = test_state();
    state.world.player.is_dead = false;
    state.world.player.vector.position = Point::new(500_000, 500_000);
    state.world.enemies.push(Enemy::new(Point::new(600_000, 500_000)));
    // difficulty lands on exactly 10 units once this update adds its share
    state.difficulty = 9_999_000;
    let mut tc = TimeController::new();
    let mut events: Vec<Event> = Vec::new();
    let actions = *InputController::new().actions();

    // 100 ms at an effective speed of 100 + 10 units per second moves the
    // enemy exactly 11 units toward the player's new position
    tc.update_seconds(100, &actions, &mut state, &mut events);
    assert_eq!(state.world.enemies[0].vector.position, Point::new(589_000, 500_000));
}

#[test]
fn enemies_drift_along_their_facing_when_the_player_is_dead() {
    let mut state = test_state();
    state.world.enemies.push(Enemy::new(Point::new(600_000, 500_000)));
    let mut tc = TimeController::new();
    let mut events: Vec<Event> = Vec::new();
    let actions = *InputController::new().actions();

    // facing zero drifts along positive x by dt * 100 milli
    tc.update_seconds(100, &actions, &mut state, &mut events);
    assert_eq!(state.world.enemies[0].vector.position, Point::new(610_000, 500_000));
}
