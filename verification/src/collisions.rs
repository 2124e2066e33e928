//! The collision controller: resolves player/powerup and player/enemy
//! overlaps once per frame, applies scoring, and schedules the follow-up
//! timeouts.

use vstd::prelude::*;

verus! {

use crate::enemy::Enemy;
use crate::events::Event;
use crate::game_state::GameState;
use crate::geometry::{Point, collides_with, spec_collides};
use crate::powerup::{Powerup, PowerupKind};
use crate::time::{TimeController, Timeout, TimeoutEntry, spec_insert_pos};

/// Points awarded for each enemy killed.
pub const SCORE_PER_ENEMY: u32 = 10;

/// How long a picked-up powerup lasts before its removal timeout fires, in
/// milliseconds.
pub const POWERUP_DURATION_MS: u64 = 10_000;

/// How long after death the game-over message appears, in milliseconds.
pub const GAME_OVER_DELAY_MS: u64 = 2_000;

/// Whether the powerup overlaps a player standing at `pos`.
pub open spec fn spec_powerup_hit(pos: Point, p: Powerup) -> bool {
    spec_collides(p.vector.position, 6000, pos, 6000)
}

/// The index of the first powerup overlapping a player at `pos`, or `-1`.
pub open spec fn spec_first_powerup_hit(powerups: Seq<Powerup>, pos: Point) -> int
    decreases powerups.len(),
{
    if powerups.len() == 0 {
        -1
    } else if spec_powerup_hit(pos, powerups[0]) {
        0
    } else {
        let rest = spec_first_powerup_hit(powerups.skip(1), pos);
        if rest == -1 {
            -1
        } else {
            rest + 1
        }
    }
}

/// Whether the enemy overlaps a player standing at `pos`.
pub open spec fn spec_enemy_hit(pos: Point, e: Enemy) -> bool {
    spec_collides(pos, 6000, e.vector.position, 6000)
}

/// Whether any enemy overlaps a player standing at `pos`.
pub open spec fn spec_any_enemy_hit(pos: Point, enemies: Seq<Enemy>) -> bool {
    exists|i: int| 0 <= i < enemies.len() && spec_enemy_hit(pos, #[trigger] enemies[i])
}

/// The enemies that survive a shielded collision: those not overlapping the
/// player.
pub open spec fn spec_survivors(pos: Point, enemies: Seq<Enemy>) -> Seq<Enemy> {
    enemies.filter(|e: Enemy| !spec_enemy_hit(pos, e))
}

/// Whether the player picks a powerup up this frame: alive and overlapping
/// at least one waiting powerup.
pub open spec fn spec_got_powerup(s: GameState) -> bool {
    &&& !s.world.player.is_dead
    &&& spec_first_powerup_hit(s.world.powerups@, s.world.player.vector.position) != -1
}

/// The powerup the player holds after the pickup pass: the kind of the
/// first overlapping powerup if one was picked up, else what was held.
pub open spec fn spec_powerup_after_pickup(s: GameState) -> Option<PowerupKind> {
    if spec_got_powerup(s) {
        Some(
            s.world.powerups@[spec_first_powerup_hit(
                s.world.powerups@, s.world.player.vector.position,
            )].kind,
        )
    } else {
        s.world.player.powerup
    }
}

/// The powerups waiting in the world after the pickup pass.
pub open spec fn spec_powerups_after_pickup(s: GameState) -> Seq<Powerup> {
    if spec_got_powerup(s) {
        s.world.powerups@.remove(
            spec_first_powerup_hit(s.world.powerups@, s.world.player.vector.position),
        )
    } else {
        s.world.powerups@
    }
}

/// Whether the player is hit this frame: alive and overlapping an enemy.
pub open spec fn spec_player_hit(s: GameState) -> bool {
    &&& !s.world.player.is_dead
    &&& spec_any_enemy_hit(s.world.player.vector.position, s.world.enemies@)
}

/// Whether a hit this frame lands on a shield: the player holds the shield
/// once the pickup pass is done.
pub open spec fn spec_shielded(s: GameState) -> bool {
    spec_powerup_after_pickup(s) == Some(PowerupKind::Shield)
}

/// Whether the player dies this frame: hit without a shield.
pub open spec fn spec_player_died(s: GameState) -> bool {
    spec_player_hit(s) && !spec_shielded(s)
}

/// The powerup held after the whole resolution: a shielded hit consumes the
/// shield.
pub open spec fn spec_powerup_after_collisions(s: GameState) -> Option<PowerupKind> {
    if spec_player_hit(s) && spec_shielded(s) {
        None
    } else {
        spec_powerup_after_pickup(s)
    }
}

/// The enemies left after the whole resolution: a shielded hit clears every
/// enemy overlapping the player; otherwise all remain.
pub open spec fn spec_enemies_after_collisions(s: GameState) -> Seq<Enemy> {
    if spec_player_hit(s) && spec_shielded(s) {
        spec_survivors(s.world.player.vector.position, s.world.enemies@)
    } else {
        s.world.enemies@
    }
}

/// The events this resolution records, in order: a pickup, then the outcome
/// of a hit.
pub open spec fn spec_collision_events(s: GameState) -> Seq<Event> {
    let pickup: Seq<Event> = if spec_got_powerup(s) {
        seq![Event::PowerupGained]
    } else {
        Seq::empty()
    };
    let outcome: Seq<Event> = if spec_player_hit(s) {
        if spec_shielded(s) {
            seq![Event::EnemyKilled]
        } else {
            seq![Event::GameOver]
        }
    } else {
        Seq::empty()
    };
    pickup + outcome
}

/// The score after the resolution: ten points for every enemy the pass
/// removed.
pub open spec fn spec_score_after(s: GameState) -> int {
    s.score + 10 * (s.world.enemies@.len() - spec_enemies_after_collisions(s).len())
}

/// The scheduled-timeout queue after the resolution: a pickup schedules the
/// powerup's removal, a death schedules the game-over screen.
pub open spec fn spec_queue_after_collisions(s: GameState, tc: TimeController) -> Seq<
    TimeoutEntry,
> {
    let q0 = tc.scheduled_timeouts.entries@;
    let t1 = (tc.current_time + POWERUP_DURATION_MS) as u64;
    let q1 = if spec_got_powerup(s) {
        q0.insert(spec_insert_pos(q0, t1), TimeoutEntry { at: t1, timeout: Timeout::RemovePowerup })
    } else {
        q0
    };
    let t2 = (tc.current_time + GAME_OVER_DELAY_MS) as u64;
    if spec_player_died(s) {
        q1.insert(
            spec_insert_pos(q1, t2),
            TimeoutEntry { at: t2, timeout: Timeout::ShowGameOverScreen },
        )
    } else {
        q1
    }
}

/// Everything one collision-resolution pass does, as a relation from the
/// state before (`s0`, `tc0`, `ev0`) to the state after (`s1`, `tc1`,
/// `ev1`): the pickup, the hit outcome, the scoring, the recorded events
/// and the scheduled follow-up timeouts. The per-frame orchestrator
/// promises exactly this for its second pass.
pub open spec fn spec_collisions_relation(
    s0: GameState,
    tc0: TimeController,
    ev0: Seq<Event>,
    s1: GameState,
    tc1: TimeController,
    ev1: Seq<Event>,
) -> bool {
    &&& s1.world.player.powerup == spec_powerup_after_collisions(s0)
    &&& s1.world.player.is_dead == (s0.world.player.is_dead || spec_player_died(s0))
    &&& s1.world.player.vector == s0.world.player.vector
    &&& s1.world.powerups@ == spec_powerups_after_pickup(s0)
    &&& s1.world.enemies@ == spec_enemies_after_collisions(s0)
    &&& s1.score == spec_score_after(s0)
    &&& s1.difficulty == s0.difficulty
    &&& s1.message == s0.message
    &&& s1.world.size == s0.world.size
    &&& s1.world.map == s0.world.map
    &&& ev1 == ev0 + spec_collision_events(s0)
    &&& tc1.scheduled_timeouts.entries@ == spec_queue_after_collisions(s0, tc0)
    &&& tc1.current_time == tc0.current_time
    &&& tc1.shoot_timer == tc0.shoot_timer
    &&& tc1.enemy_timer == tc0.enemy_timer
    &&& tc1.powerup_timer == tc0.powerup_timer
}

/// The collision controller.
pub struct CollisionsController;

impl CollisionsController {
    /// Resolves this frame's collisions: the player picks up the first
    /// overlapping powerup; then a hit by an enemy either consumes a held
    /// shield — clearing every enemy overlapping the player — or kills the
    /// player; ten points are scored per enemy removed, and the follow-up
    /// timeouts are scheduled.
    pub fn handle_collisions(
        state: &mut GameState,
        time_controller: &mut TimeController,
        events: &mut Vec<Event>,
    )
        requires
            old(state).world.wf(),
            old(time_controller).wf(),
            old(state).score + 10 * old(state).world.enemies@.len() <= u32::MAX,
        ensures
            final(state).world.player.powerup == spec_powerup_after_collisions(*old(state)),
            final(state).world.player.is_dead == (old(state).world.player.is_dead
                || spec_player_died(*old(state))),
            final(state).world.player.vector == old(state).world.player.vector,
            final(state).world.powerups@ == spec_powerups_after_pickup(*old(state)),
            final(state).world.enemies@ == spec_enemies_after_collisions(*old(state)),
            final(state).score == spec_score_after(*old(state)),
            final(state).difficulty == old(state).difficulty,
            final(state).message == old(state).message,
            final(state).world.size == old(state).world.size,
            final(state).world.map == old(state).world.map,
            final(state).world.wf(),
            final(events)@ == old(events)@ + spec_collision_events(*old(state)),
            final(time_controller).scheduled_timeouts.entries@ == spec_queue_after_collisions(
                *old(state), *old(time_controller),
            ),
            final(time_controller).current_time == old(time_controller).current_time,
            final(time_controller).shoot_timer == old(time_controller).shoot_timer,
            final(time_controller).enemy_timer == old(time_controller).enemy_timer,
            final(time_controller).powerup_timer == old(time_controller).powerup_timer,
            final(time_controller).wf(),
            spec_collisions_relation(
                *old(state), *old(time_controller), old(events)@, *final(state),
                *final(time_controller), final(events)@,
            ),
    {
        let old_enemy_count = state.world.enemies.len();

        let got_powerup = CollisionsController::handle_powerup_collisions(state, events);
        if got_powerup {
            // Powerups run out after `POWERUP_DURATION_MS` milliseconds
            time_controller.schedule_timeout(POWERUP_DURATION_MS, Timeout::RemovePowerup);
        }

        // If the player died then we set a timeout after which a game over
        // message will appear, and the user will be able to restart.
        let player_died = CollisionsController::handle_player_collisions(state, events);
        if player_died {
            time_controller.schedule_timeout(GAME_OVER_DELAY_MS, Timeout::ShowGameOverScreen);
        }

        let killed_enemies = (old_enemy_count - state.world.enemies.len()) as u32;
        state.score = state.score + SCORE_PER_ENEMY * killed_enemies;

        proof {
            let s0 = *old(state);
            let tc0 = *old(time_controller);
            assert(state.world.player.powerup == spec_powerup_after_collisions(s0));
            assert(state.world.player.is_dead == (s0.world.player.is_dead
                || spec_player_died(s0)));
            assert(state.world.player.vector == s0.world.player.vector);
            assert(state.world.powerups@ == spec_powerups_after_pickup(s0));
            assert(state.world.enemies@ == spec_enemies_after_collisions(s0));
            assert(state.score == spec_score_after(s0));
            assert(events@ == old(events)@ + spec_collision_events(s0));
            assert(time_controller.scheduled_timeouts.entries@
                == spec_queue_after_collisions(s0, tc0));
            assert(time_controller.current_time == tc0.current_time);
            assert(spec_collisions_relation(
                s0, tc0, old(events)@, *state, *time_controller, events@,
            ));
        }
    }

    /// Handles collisions between the player and the powerups: an alive
    /// player overlapping a powerup takes its kind, and the powerup leaves
    /// the world. Returns whether a powerup was gained.
    fn handle_powerup_collisions(state: &mut GameState, events: &mut Vec<Event>) -> (gained: bool)
        requires
            old(state).world.wf(),
        ensures
            gained == spec_got_powerup(*old(state)),
            final(state).world.player.powerup == spec_powerup_after_pickup(*old(state)),
            final(state).world.powerups@ == spec_powerups_after_pickup(*old(state)),
            final(state).world.player.is_dead == old(state).world.player.is_dead,
            final(state).world.player.vector == old(state).world.player.vector,
            final(state).world.enemies == old(state).world.enemies,
            final(state).score == old(state).score,
            final(state).difficulty == old(state).difficulty,
            final(state).message == old(state).message,
            final(state).world.size == old(state).world.size,
            final(state).world.map == old(state).world.map,
            final(state).world.wf(),
            final(events)@ == old(events)@ + (if spec_got_powerup(*old(state)) {
                seq![Event::PowerupGained]
            } else {
                Seq::<Event>::empty()
            }),
    {
        let mut gained_powerup = false;

        if !state.world.player.is_dead {
            let ghost pos = state.world.player.vector.position;
            let ghost all = state.world.powerups@;
            let mut idx: usize = 0;
            let mut found = false;
            while !found && idx < state.world.powerups.len()
                invariant
                    state.world == old(state).world,
                    state.world.wf(),
                    !state.world.player.is_dead,
                    pos == state.world.player.vector.position,
                    all == state.world.powerups@,
                    idx <= all.len(),
                    !found ==> forall|j: int| 0 <= j < idx ==>
                        !spec_powerup_hit(pos, #[trigger] all[j]),
                    found ==> idx < all.len() && spec_powerup_hit(pos, all[idx as int])
                        && forall|j: int| 0 <= j < idx ==>
                        !spec_powerup_hit(pos, #[trigger] all[j]),
                decreases all.len() - idx, (if found { 0int } else { 1int }),
            {
                let p = &state.world.powerups[idx];
                if collides_with(p, &state.world.player) {
                    found = true;
                } else {
                    idx += 1;
                }
            }

            if found {
                proof {
                    lemma_first_powerup_found(all, pos, idx as int);
                }
                gained_powerup = true;

                // Set the player's powerup kind to the one just picked up
                let kind = state.world.powerups[idx].kind;
                state.world.player.powerup = Some(kind);
                state.world.powerups.remove(idx);

                events.push(Event::PowerupGained);
            } else {
                proof {
                    lemma_first_powerup_characterization(all, pos);
                    if spec_first_powerup_hit(all, pos) != -1 {
                        let i = spec_first_powerup_hit(all, pos);
                        assert(!spec_powerup_hit(pos, all[i]));
                    }
                }
            }
        }

        gained_powerup
    }

    /// Handles collisions between the player and the enemies: a hit on a
    /// shielded player consumes the shield and clears every enemy
    /// overlapping the player; otherwise a hit kills the player. Returns
    /// whether the player died.
    fn handle_player_collisions(state: &mut GameState, events: &mut Vec<Event>) -> (died: bool)
        requires
            old(state).world.wf(),
        ensures
            died == (spec_player_hit(*old(state)) && old(state).world.player.powerup
                != Some(PowerupKind::Shield)),
            final(state).world.player.is_dead == (old(state).world.player.is_dead || died),
            final(state).world.player.powerup == (if spec_player_hit(*old(state))
                && old(state).world.player.powerup == Some(PowerupKind::Shield) {
                None::<PowerupKind>
            } else {
                old(state).world.player.powerup
            }),
            final(state).world.enemies@ == (if spec_player_hit(*old(state))
                && old(state).world.player.powerup == Some(PowerupKind::Shield) {
                spec_survivors(
                    old(state).world.player.vector.position, old(state).world.enemies@,
                )
            } else {
                old(state).world.enemies@
            }),
            final(state).world.enemies@.len() <= old(state).world.enemies@.len(),
            final(state).world.player.vector == old(state).world.player.vector,
            final(state).world.powerups == old(state).world.powerups,
            final(state).score == old(state).score,
            final(state).difficulty == old(state).difficulty,
            final(state).message == old(state).message,
            final(state).world.size == old(state).world.size,
            final(state).world.map == old(state).world.map,
            final(state).world.wf(),
            final(events)@ == old(events)@ + (if spec_player_hit(*old(state)) {
                if old(state).world.player.powerup == Some(PowerupKind::Shield) {
                    seq![Event::EnemyKilled]
                } else {
                    seq![Event::GameOver]
                }
            } else {
                Seq::<Event>::empty()
            }),
    {
        let mut player_died = false;

        if !state.world.player.is_dead {
            let ghost pos = state.world.player.vector.position;
            let ghost all = state.world.enemies@;

            // Does any enemy overlap the player?
            let mut idx: usize = 0;
            let mut hit = false;
            while !hit && idx < state.world.enemies.len()
                invariant
                    state.world == old(state).world,
                    state.world.wf(),
                    !state.world.player.is_dead,
                    pos == state.world.player.vector.position,
                    all == state.world.enemies@,
                    idx <= all.len(),
                    !hit ==> forall|j: int| 0 <= j < idx ==>
                        !spec_enemy_hit(pos, #[trigger] all[j]),
                    hit ==> idx < all.len() && spec_enemy_hit(pos, all[idx as int]),
                decreases all.len() - idx, (if hit { 0int } else { 1int }),
            {
                let e = &state.world.enemies[idx];
                if collides_with(&state.world.player, e) {
                    hit = true;
                } else {
                    idx += 1;
                }
            }
            proof {
                if hit {
                    assert(spec_any_enemy_hit(pos, all));
                } else {
                    assert(!spec_any_enemy_hit(pos, all));
                }
            }

            if hit {
                // A held shield absorbs the hit, clearing the enemies at the
                // player; otherwise the player dies
                let shielded = match state.world.player.powerup {
                    Some(k) => match k {
                        PowerupKind::Shield => true,
                    },
                    None => false,
                };
                proof {
                    assert(state.world.player.powerup == old(state).world.player.powerup);
                    if shielded {
                        assert(old(state).world.player.powerup == Some(PowerupKind::Shield));
                    } else {
                        assert(old(state).world.player.powerup != Some(PowerupKind::Shield));
                    }
                }
                if shielded {
                    state.world.player.powerup = None;

                    let mut kept: Vec<Enemy> = Vec::new();
                    let n = state.world.enemies.len();
                    let mut i: usize = 0;
                    while i < n
                        invariant
                            i <= n,
                            n == all.len(),
                            all == state.world.enemies@,
                            pos == state.world.player.vector.position,
                            state.world.wf(),
                            kept@ == spec_survivors(pos, all.take(i as int)),
                            kept@.len() <= i,
                            forall|j: int| 0 <= j < kept@.len() ==>
                                (#[trigger] kept@[j]).vector.wf(),
                        decreases n - i,
                    {
                        let e = state.world.enemies[i];
                        proof {
                            lemma_survivors_step(pos, all, i as int);
                        }
                        if !collides_with(&state.world.player, &e) {
                            kept.push(e);
                        }
                        i += 1;
                    }
                    proof {
                        assert(all.take(n as int) =~= all);
                    }
                    state.world.enemies = kept;

                    events.push(Event::EnemyKilled);
                } else {
                    // Mark the player as dead (to stop drawing it on screen)
                    player_died = true;
                    state.world.player.is_dead = true;
                    events.push(Event::GameOver);
                }
            }
        }

        player_died
    }
}

/// Filtering the survivors of one more enemy keeps the previous survivors
/// and appends the enemy exactly when it does not overlap the player.
proof fn lemma_survivors_step(pos: Point, s: Seq<Enemy>, i: int)
    requires
        0 <= i < s.len(),
    ensures
        spec_survivors(pos, s.take(i + 1)) == (if !spec_enemy_hit(pos, s[i]) {
            spec_survivors(pos, s.take(i)).push(s[i])
        } else {
            spec_survivors(pos, s.take(i))
        }),
{
    let t1 = s.take(i + 1);
    assert(t1.drop_last() =~= s.take(i));
    assert(t1.last() == s[i]);
    reveal_with_fuel(Seq::filter, 2);
}

/// What `spec_first_powerup_hit` finds: a found index is the first
/// overlapping powerup; `-1` means none overlaps.
proof fn lemma_first_powerup_characterization(powerups: Seq<Powerup>, pos: Point)
    ensures
        spec_first_powerup_hit(powerups, pos) == -1 ==> forall|j: int|
            0 <= j < powerups.len() ==> !spec_powerup_hit(pos, #[trigger] powerups[j]),
        spec_first_powerup_hit(powerups, pos) != -1 ==> {
            let i = spec_first_powerup_hit(powerups, pos);
            &&& 0 <= i < powerups.len()
            &&& spec_powerup_hit(pos, powerups[i])
            &&& forall|j: int| 0 <= j < i ==> !spec_powerup_hit(pos, #[trigger] powerups[j])
        },
    decreases powerups.len(),
{
    if powerups.len() == 0 {
    } else if spec_powerup_hit(pos, powerups[0]) {
    } else {
        lemma_first_powerup_characterization(powerups.skip(1), pos);
        let rest = spec_first_powerup_hit(powerups.skip(1), pos);
        if rest == -1 {
            assert forall|j: int| 0 <= j < powerups.len() implies
                !spec_powerup_hit(pos, #[trigger] powerups[j])
            by {
                if j > 0 {
                    assert(powerups[j] == powerups.skip(1)[j - 1]);
                }
            }
        } else {
            assert(powerups[rest + 1] == powerups.skip(1)[rest]);
            assert forall|j: int| 0 <= j < rest + 1 implies
                !spec_powerup_hit(pos, #[trigger] powerups[j])
            by {
                if j > 0 {
                    assert(powerups[j] == powerups.skip(1)[j - 1]);
                }
            }
        }
    }
}

/// The first overlapping index is exactly what the lookup finds.
proof fn lemma_first_powerup_found(powerups: Seq<Powerup>, pos: Point, i: int)
    requires
        0 <= i < powerups.len(),
        spec_powerup_hit(pos, powerups[i]),
        forall|j: int| 0 <= j < i ==> !spec_powerup_hit(pos, #[trigger] powerups[j]),
    ensures
        spec_first_powerup_hit(powerups, pos) == i,
{
    lemma_first_powerup_characterization(powerups, pos);
    let found = spec_first_powerup_hit(powerups, pos);
    if found == -1 {
        assert(!spec_powerup_hit(pos, powerups[i]));
        assert(false);
    } else {
        if found < i {
            assert(!spec_powerup_hit(pos, powerups[found]));
            assert(false);
        }
        if found > i {
            assert(!spec_powerup_hit(pos, powerups[i]));
            assert(false);
        }
    }
}

} // verus!
