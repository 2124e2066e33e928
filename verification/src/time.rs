//! The time controller: the game clock, the periodic timers, the scheduled
//! timeout queue, and the per-update motion, spawning and difficulty logic.
//!
//! Time is counted in milliseconds; rates in events per second. A periodic
//! timer is due when the time since it last fired, times its rate, reaches a
//! full second.

use vstd::prelude::*;

verus! {

use crate::enemy::Enemy;
use crate::events::Event;
use crate::game_state::GameState;
use crate::geometry::{
    Point, Position, Size, Vector, dist_sq, in_circle, spec_advanced_drift,
    spec_advanced_wrapping, spec_clamp_coord, spec_move_toward, spec_step_component,
};
use crate::input::Actions;
use crate::player::Player;
use crate::powerup::{Powerup, PowerupKind};
use crate::trig::{lemma_isqrt_exists, spec_isqrt};

/// The latest game-clock instant the controller supports, in milliseconds.
pub const MAX_TIME_MS: u64 = 100_000_000_000;

/// The longest single update the controller supports, in milliseconds.
pub const MAX_DT_MS: u64 = 1_000_000;

/// Attack cadence: how many times per second the player's weapon can fire.
pub const ATTACKS_PER_SECOND: u64 = 30;

/// Enemy-spawn cadence, per second.
pub const ENEMY_SPAWNS_PER_SECOND: u64 = 5;

/// Powerup-spawn cadence, per second: once a second the game takes the
/// chance to place a shield, forfeited while one is already in play.
pub const POWERUP_SPAWNS_PER_SECOND: u64 = 1;

/// The player's base advance speed, in milli-units per millisecond
/// (200 units per second).
pub const ADVANCE_SPEED: u64 = 200;

/// The speed of a bullet, in milli-units per millisecond; defined for a
/// future attack mechanic.
pub const BULLET_SPEED: u64 = 500;

/// The enemies' base speed, in milli-units per millisecond
/// (100 units per second).
pub const ENEMY_SPEED: u64 = 100;

/// The player's rotation speed: one full turn per second, that is one
/// milli-turn per millisecond.
pub const ROTATE_SPEED: u64 = 1;

/// The radius of the grace area around the player within which enemies may
/// not spawn, in milli-units (200 units).
pub const PLAYER_GRACE_AREA: i64 = 200_000;

/// A timer that fires whenever a full period has elapsed: with `rate` events
/// per second, it is due once `(now - last_fired) * rate` reaches 1000.
#[derive(Clone, Copy, Debug, PartialEq, Eq, Structural)]
pub struct Timer {
    pub rate: u64,
    pub last_fired: u64,
}

impl Timer {
    /// True when a full period has elapsed since the timer last fired.
    pub open spec fn due(self, now: u64) -> bool {
        (now - self.last_fired) * self.rate >= 1000
    }

    /// Returns a timer of the given events-per-second rate that has never
    /// fired.
    pub fn from_rate(rate: u64) -> (r: Timer)
        requires
            1 <= rate <= 1000,
        ensures
            r == (Timer { rate, last_fired: 0 }),
    {
        Timer { rate, last_fired: 0 }
    }

    /// Fires the timer if it is due: returns whether it fired, and remembers
    /// `now` as the last firing instant when it did.
    pub fn update(&mut self, now: u64) -> (fired: bool)
        requires
            old(self).last_fired <= now <= MAX_TIME_MS,
            1 <= old(self).rate <= 1000,
        ensures
            fired == old(self).due(now),
            fired ==> *final(self) == (Timer { rate: old(self).rate, last_fired: now }),
            !fired ==> *final(self) == *old(self),
            final(self).last_fired <= now,
    {
        proof {
            assert((now - self.last_fired) * self.rate <= 100_000_000_000 * 1000)
                by (nonlinear_arith)
                requires
                    0 <= now - self.last_fired <= 100_000_000_000,
                    0 <= self.rate <= 1000,
            ;
        }
        if (now - self.last_fired) * self.rate >= 1000 {
            self.last_fired = now;
            true
        } else {
            false
        }
    }
}

/// A scheduled future game-logic effect.
#[derive(Clone, Copy, Debug, PartialEq, Eq, Structural)]
pub enum Timeout {
    RemovePowerup,
    ShowGameOverScreen,
}

impl Timeout {
    /// Executes this timeout's effect on the game state: removing the
    /// player's held powerup, or showing the game-over message.
    pub fn handle(&self, state: &mut GameState)
        ensures
            *self is RemovePowerup ==> {
                &&& final(state).world.player == (Player {
                    powerup: None::<PowerupKind>,
                    ..old(state).world.player
                })
                &&& final(state).world.enemies == old(state).world.enemies
                &&& final(state).world.powerups == old(state).world.powerups
                &&& final(state).world.map == old(state).world.map
                &&& final(state).world.size == old(state).world.size
                &&& final(state).message == old(state).message
            },
            *self is ShowGameOverScreen ==> {
                &&& final(state).world == old(state).world
                &&& final(state).message matches Some(m) && m.title@ == "Game Over"@
                    && m.subtitle@ == "Press any key to restart"@
            },
            final(state).difficulty == old(state).difficulty,
            final(state).score == old(state).score,
    {
        match self {
            Timeout::RemovePowerup => {
                state.world.player.powerup = None;
            },
            Timeout::ShowGameOverScreen => {
                state.game_over();
            },
        }
    }
}

/// One queue entry: an absolute fire time and the timeout due then.
#[derive(Clone, Copy, Debug, PartialEq, Eq, Structural)]
pub struct TimeoutEntry {
    pub at: u64,
    pub timeout: Timeout,
}

/// The position at which an entry due at `at` is inserted into `s`: after
/// every entry due at or before `at`, so equal fire times keep their
/// insertion order.
pub open spec fn spec_insert_pos(s: Seq<TimeoutEntry>, at: u64) -> int
    decreases s.len(),
{
    if s.len() == 0 {
        0
    } else if s[0].at <= at {
        1 + spec_insert_pos(s.skip(1), at)
    } else {
        0
    }
}

/// A time-ordered queue of scheduled timeouts: the earliest-due entry is
/// always popped first, and entries with equal fire times pop in the order
/// they were scheduled.
#[derive(Debug)]
pub struct TimeoutQueue {
    pub entries: Vec<TimeoutEntry>,
}

impl TimeoutQueue {
    /// True when the entries are ordered by fire time.
    pub open spec fn sorted(self) -> bool {
        forall|i: int, j: int| 0 <= i <= j < self.entries@.len() ==>
            (#[trigger] self.entries@[i]).at <= (#[trigger] self.entries@[j]).at
    }

    /// Returns an empty queue.
    pub fn new() -> (r: TimeoutQueue)
        ensures
            r.entries@.len() == 0,
            r.sorted(),
    {
        TimeoutQueue { entries: Vec::new() }
    }

    /// Schedules `timeout` to fire at the absolute time `at`, keeping the
    /// queue ordered; among entries with equal fire times, earlier-scheduled
    /// ones stay ahead.
    pub fn push(&mut self, at: u64, timeout: Timeout)
        requires
            old(self).sorted(),
        ensures
            final(self).entries@ == old(self).entries@.insert(
                spec_insert_pos(old(self).entries@, at),
                TimeoutEntry { at, timeout },
            ),
            final(self).sorted(),
            final(self).entries@.len() == old(self).entries@.len() + 1,
    {
        let ghost orig = self.entries@;
        let mut idx: usize = 0;
        while idx < self.entries.len() && self.entries[idx].at <= at
            invariant
                idx <= self.entries@.len(),
                self.entries@ == orig,
                old(self).sorted(),
                forall|j: int| 0 <= j < idx ==> (#[trigger] orig[j]).at <= at,
            decreases self.entries@.len() - idx,
        {
            idx += 1;
        }
        let ghost entry = TimeoutEntry { at, timeout };
        proof {
            lemma_insert_pos_first(orig, at, idx as int);
            lemma_insert_pos_bounds(orig, at);
        }
        self.entries.insert(idx, TimeoutEntry { at, timeout });
        proof {
            let s = self.entries@;
            let k = idx as int;
            orig.insert_ensures(k, entry);
            assert forall|i: int, j: int| 0 <= i <= j < s.len() implies
                (#[trigger] s[i]).at <= (#[trigger] s[j]).at
            by {
                if i < k && j == k {
                    assert(s[i] == orig[i]);
                } else if i == k && j > k {
                    assert(s[j] == orig[j - 1]);
                } else if i < k && j > k {
                    assert(s[i] == orig[i] && s[j] == orig[j - 1]);
                } else if i != k && j != k {
                    if j < k {
                        assert(s[i] == orig[i] && s[j] == orig[j]);
                    } else {
                        assert(s[i] == orig[i - 1] && s[j] == orig[j - 1]);
                    }
                }
            }
        }
    }

    /// Returns the fire time of the earliest-due entry, if any.
    pub fn peek(&self) -> (r: Option<u64>)
        ensures
            self.entries@.len() == 0 ==> r is None,
            self.entries@.len() > 0 ==> r == Some(self.entries@[0].at),
    {
        if self.entries.len() == 0 {
            None
        } else {
            Some(self.entries[0].at)
        }
    }

    /// Pops the earliest-due entry: the queue's head, which under ordering
    /// is due no later than any other entry.
    pub fn pop(&mut self) -> (r: Option<Timeout>)
        ensures
            old(self).entries@.len() == 0 ==> r is None
                && final(self).entries@ == old(self).entries@,
            old(self).entries@.len() > 0 ==> r == Some(old(self).entries@[0].timeout)
                && final(self).entries@ == old(self).entries@.skip(1),
    {
        if self.entries.len() == 0 {
            None
        } else {
            let entry = self.entries.remove(0);
            proof {
                assert(final(self).entries@ =~= old(self).entries@.skip(1));
            }
            Some(entry.timeout)
        }
    }

    /// Returns how many timeouts are scheduled.
    pub fn len(&self) -> (r: usize)
        ensures
            r == self.entries@.len(),
    {
        self.entries.len()
    }
}

/// The insert position is the index of the first entry due strictly after
/// `at`, whenever everything before `k` is due at or before `at` and entry
/// `k` (if any) is due after it.
proof fn lemma_insert_pos_first(s: Seq<TimeoutEntry>, at: u64, k: int)
    requires
        0 <= k <= s.len(),
        forall|j: int| 0 <= j < k ==> (#[trigger] s[j]).at <= at,
        k < s.len() ==> s[k].at > at,
    ensures
        spec_insert_pos(s, at) == k,
    decreases s.len(),
{
    if s.len() == 0 {
    } else if k == 0 {
    } else {
        assert(s[0].at <= at);
        assert forall|j: int| 0 <= j < k - 1 implies (#[trigger] s.skip(1)[j]).at <= at by {
            assert(s.skip(1)[j] == s[j + 1]);
        }
        if k - 1 < s.skip(1).len() {
            assert(s.skip(1)[k - 1] == s[k]);
        }
        lemma_insert_pos_first(s.skip(1), at, k - 1);
    }
}

/// The insert position always lies within the sequence.
proof fn lemma_insert_pos_bounds(s: Seq<TimeoutEntry>, at: u64)
    ensures
        0 <= spec_insert_pos(s, at) <= s.len(),
    decreases s.len(),
{
    if s.len() > 0 && s[0].at <= at {
        lemma_insert_pos_bounds(s.skip(1), at);
    }
}

/// An ordered queue pops its entries in fire-time order: over any run of
/// pops, the times that come out are nondecreasing, and the head is due no
/// later than every other scheduled entry.
pub proof fn lemma_queue_pops_earliest(q: TimeoutQueue)
    requires
        q.sorted(),
        q.entries@.len() > 0,
    ensures
        forall|i: int| 0 <= i < q.entries@.len() ==>
            q.entries@[0].at <= (#[trigger] q.entries@[i]).at,
{
}

/// The facing direction after one update's rotation: a left action turns
/// backward and a right action forward by the rotation speed times `dt`,
/// wrapped to a normalized milli-turn; otherwise the facing is kept.
pub open spec fn spec_rotated(dir: int, dt: int, a: Actions) -> int {
    if a.left {
        (dir - (ROTATE_SPEED as int) * dt) % 1000
    } else if a.right {
        (dir + (ROTATE_SPEED as int) * dt) % 1000
    } else {
        dir
    }
}

/// The player's advance speed under the given actions, in milli-units per
/// millisecond: the base speed, doubled under the boost action.
pub open spec fn spec_player_speed(a: Actions) -> int {
    if a.up {
        2 * ADVANCE_SPEED as int
    } else {
        ADVANCE_SPEED as int
    }
}

/// The player's vector after one update: rotated per the actions, then
/// advanced `dt` times the advance speed along the new facing, wrapping at
/// the world bounds.
pub open spec fn spec_update_player_vector(v: Vector, dt: int, a: Actions, size: Size) -> Vector {
    let dir = spec_rotated(v.direction as int, dt, a);
    let rotated = Vector { position: v.position, direction: dir as i64, speed: v.speed };
    Vector {
        position: spec_advanced_wrapping(rotated, dt * spec_player_speed(a), size),
        direction: dir as i64,
        speed: v.speed,
    }
}

/// What a spawn candidate drawn for this world may be: any point within the
/// world bounds other than the player's own position.
pub open spec fn spec_spawn_candidate_ok(c: Point, player: Point, size: Size) -> bool {
    &&& c != player
    &&& 0 <= c.x <= size.width
    &&& 0 <= c.y <= size.height
}

/// Where an enemy whose candidate point is `c` actually spawns: a candidate
/// inside the player's grace area is pushed along the ray from the player
/// through it onto the area's boundary; any other candidate stands.
pub open spec fn spec_spawn_position(player: Point, c: Point) -> Point {
    if in_circle(c, player, PLAYER_GRACE_AREA as int) {
        spec_move_toward(player, c, PLAYER_GRACE_AREA as int)
    } else {
        c
    }
}

/// The enemy spawned for candidate point `c`.
pub open spec fn spec_spawned_enemy(player: Point, c: Point) -> Enemy {
    Enemy {
        vector: Vector { position: spec_spawn_position(player, c), direction: 0, speed: 1000 },
    }
}

/// How far an enemy chases in one update, in milli-units: `dt` times the
/// effective speed, which is the base speed raised by the accumulated
/// difficulty (difficulty is kept in millionths of a unit per second, and
/// one unit per second is one milli-unit per millisecond). The step
/// saturates at the model's distance cap, far beyond any reachable frame.
pub open spec fn spec_chase_distance(dt: int, difficulty: int) -> int {
    let raw = dt * (ENEMY_SPEED as int) + dt * difficulty / 1_000_000;
    if raw > 2_000_000_000 {
        2_000_000_000
    } else {
        raw
    }
}

/// An enemy after one update: while the player is alive it moves straight
/// toward the player; otherwise it drifts along its own facing.
pub open spec fn spec_move_enemy(
    e: Enemy,
    alive: bool,
    target: Point,
    chase: int,
    drift: int,
) -> Enemy {
    if alive {
        Enemy {
            vector: Vector {
                position: spec_move_toward(e.vector.position, target, chase),
                direction: e.vector.direction,
                speed: e.vector.speed,
            },
        }
    } else {
        Enemy {
            vector: Vector {
                position: spec_advanced_drift(e.vector, drift),
                direction: e.vector.direction,
                speed: e.vector.speed,
            },
        }
    }
}

/// Draws a random spawn candidate: a point uniformly within the world
/// bounds, redrawn a bounded number of times if it lands exactly on the
/// player; as a last resort a fixed point away from the player is used, so
/// the result never equals the player's position.
fn random_spawn_candidate(size: Size, player: Point) -> (r: Point)
    requires
        size.wf(),
        size.width >= 1,
        size.height >= 1,
    ensures
        spec_spawn_candidate_ok(r, player, size),
        r.in_limit(),
{
    let mut tries: usize = 0;
    while tries < 16
        invariant
            size.wf(),
            size.width >= 1,
            size.height >= 1,
        decreases 16 - tries,
    {
        let v = Vector::random(size);
        if !(v.position.x == player.x && v.position.y == player.y) {
            return v.position;
        }
        tries += 1;
    }
    if player.x == 0 && player.y == 0 {
        Point { x: 0, y: 1 }
    } else {
        Point { x: 0, y: 0 }
    }
}

/// The difficulty after one update of elapsed time `dt`: it grows by a
/// hundredth of the elapsed seconds, exactly `dt * 10` in millionths.
pub open spec fn spec_difficulty_step(d: int, dt: int) -> int {
    d + dt * 10
}

/// Whether this update pops a scheduled timeout: the queue's head exists
/// and is due by the advanced clock.
pub open spec fn spec_timeout_popped(tc: TimeController, dt: int) -> bool {
    let q = tc.scheduled_timeouts.entries@;
    q.len() > 0 && q[0].at <= tc.current_time + dt
}

/// The powerup the player holds once this update's timeout phase is done:
/// a popped removal timeout clears it, anything else leaves it.
pub open spec fn spec_held_after_timeout(tc: TimeController, s: GameState, dt: int) -> Option<
    PowerupKind,
> {
    if spec_timeout_popped(tc, dt) && tc.scheduled_timeouts.entries@[0].timeout
        is RemovePowerup {
        None
    } else {
        s.world.player.powerup
    }
}

/// Whether the powerup-spawn timer fires during this update.
pub open spec fn spec_powerup_fired(tc: TimeController, dt: int) -> bool {
    tc.powerup_timer.due(spec_now(tc, dt))
}

/// Whether a powerup spawns this update: the player lives, the spawn timer
/// fires, and no shield is in play — neither waiting in the world nor held
/// by the player once the timeout phase is done.
pub open spec fn spec_powerup_spawned(tc: TimeController, s: GameState, dt: int) -> bool {
    &&& !s.world.player.is_dead
    &&& spec_powerup_fired(tc, dt)
    &&& s.world.powerups@.len() == 0
    &&& spec_held_after_timeout(tc, s, dt) is None
}

/// What holds of a powerup spawned this update: a shield placed uniformly
/// at random within the world bounds, facing direction zero.
pub open spec fn spec_spawned_powerup_ok(size: Size, p: Powerup) -> bool {
    &&& p.kind == PowerupKind::Shield
    &&& p.vector.direction == 0
    &&& p.vector.speed == 1000
    &&& 0 <= p.vector.position.x < size.width
    &&& 0 <= p.vector.position.y < size.height
}

/// The player's vector after one update of a game state: while alive it is
/// rotated and advanced; a dead player's vector stands still.
pub open spec fn spec_player_vector_after(s: GameState, dt: int, a: Actions) -> Vector {
    if !s.world.player.is_dead {
        spec_update_player_vector(s.world.player.vector, dt, a, s.world.size)
    } else {
        s.world.player.vector
    }
}

/// The game clock after one update of elapsed time `dt`.
pub open spec fn spec_now(tc: TimeController, dt: int) -> u64 {
    (tc.current_time + dt) as u64
}

/// Whether the enemy-spawn timer fires during this update.
pub open spec fn spec_fired(tc: TimeController, dt: int) -> bool {
    tc.enemy_timer.due(spec_now(tc, dt))
}

/// Where the enemies aim during this update: the player's position after
/// its own motion.
pub open spec fn spec_target(s: GameState, dt: int, a: Actions) -> Point {
    spec_player_vector_after(s, dt, a).position
}

/// How far the enemies chase during this update: the chase distance under
/// the difficulty as already advanced by this update.
pub open spec fn spec_chase_after(s: GameState, dt: int) -> int {
    spec_chase_distance(dt, spec_difficulty_step(s.difficulty as int, dt))
}

/// The enemy at index `i` after this update: moved toward the player while
/// the player lives, drifting otherwise.
pub open spec fn spec_enemy_after(s: GameState, dt: int, a: Actions, i: int) -> Enemy {
    spec_move_enemy(
        s.world.enemies@[i],
        !s.world.player.is_dead,
        spec_target(s, dt, a),
        spec_chase_after(s, dt),
        dt * (ENEMY_SPEED as int),
    )
}

/// What holds of an enemy spawned during this update: it arose from some
/// admissible candidate point, was clamped out of the grace area, and then
/// moved once like every other enemy.
pub open spec fn spec_spawned_this_update(s: GameState, dt: int, a: Actions, e: Enemy) -> bool {
    exists|c: Point| #![auto]
        spec_spawn_candidate_ok(c, spec_target(s, dt, a), s.world.size)
        && e == spec_move_enemy(
            spec_spawned_enemy(spec_target(s, dt, a), c),
            !s.world.player.is_dead,
            spec_target(s, dt, a),
            spec_chase_after(s, dt),
            dt * (ENEMY_SPEED as int),
        )
}

/// The sum of a sequence of durations.
pub open spec fn spec_sum(dts: Seq<int>) -> int
    decreases dts.len(),
{
    if dts.len() == 0 {
        0
    } else {
        dts[0] + spec_sum(dts.skip(1))
    }
}

/// The difficulty after a whole run of updates with the given elapsed
/// times, folded one update at a time.
pub open spec fn spec_difficulty_after(d0: int, dts: Seq<int>) -> int
    decreases dts.len(),
{
    if dts.len() == 0 {
        d0
    } else {
        spec_difficulty_after(spec_difficulty_step(d0, dts[0]), dts.skip(1))
    }
}

/// Difficulty accumulation: over any sequence of updates with positive
/// elapsed times, the difficulty never decreases, and it grows by exactly
/// ten times the summed elapsed milliseconds — that is, by a hundredth of
/// the total elapsed seconds.
pub proof fn lemma_difficulty_monotonic(d0: int, dts: Seq<int>)
    requires
        forall|i: int| 0 <= i < dts.len() ==> dts[i] > 0,
    ensures
        spec_difficulty_after(d0, dts) == d0 + 10 * spec_sum(dts),
        spec_difficulty_after(d0, dts) >= d0,
    decreases dts.len(),
{
    if dts.len() == 0 {
    } else {
        assert(forall|i: int| 0 <= i < dts.skip(1).len() ==> #[trigger] dts.skip(1)[i] > 0)
            by {
            assert forall|i: int| 0 <= i < dts.skip(1).len() implies #[trigger] dts.skip(1)[i] > 0
            by {
                assert(dts.skip(1)[i] == dts[i + 1]);
            }
        }
        lemma_difficulty_monotonic(spec_difficulty_step(d0, dts[0]), dts.skip(1));
    }
}

/// The grace-area spawn clamp is exact wherever the fixed-point arithmetic
/// divides evenly: for a candidate spawn point strictly inside the player's
/// grace area whose distance from the player is a whole number of
/// milli-units dividing both scaled components, the adjusted spawn point
/// lies at distance exactly the grace radius from the player, on the ray
/// from the player through the candidate.
pub proof fn lemma_grace_spawn_clamp(player: Point, c: Point)
    requires
        c != player,
        player.in_limit(),
        c.in_limit(),
        dist_sq(c, player) < (PLAYER_GRACE_AREA as int) * (PLAYER_GRACE_AREA as int),
        -(crate::COORD_LIMIT - PLAYER_GRACE_AREA) <= player.x
            <= crate::COORD_LIMIT - PLAYER_GRACE_AREA,
        -(crate::COORD_LIMIT - PLAYER_GRACE_AREA) <= player.y
            <= crate::COORD_LIMIT - PLAYER_GRACE_AREA,
        ({
            let d = spec_isqrt(dist_sq(player, c));
            let mx = if c.x >= player.x { c.x - player.x } else { player.x - c.x };
            let my = if c.y >= player.y { c.y - player.y } else { player.y - c.y };
            &&& d * d == dist_sq(player, c)
            &&& (mx * (PLAYER_GRACE_AREA as int)) % d == 0
            &&& (my * (PLAYER_GRACE_AREA as int)) % d == 0
        }),
    ensures
        ({
            let r = spec_spawn_position(player, c);
            let rr = (PLAYER_GRACE_AREA as int) * (PLAYER_GRACE_AREA as int);
            &&& dist_sq(r, player) == rr
            &&& (r.x - player.x) * (c.y - player.y) == (r.y - player.y) * (c.x - player.x)
            &&& (r.x - player.x) * (c.x - player.x) >= 0
            &&& (r.y - player.y) * (c.y - player.y) >= 0
        }),
{
    let gr = PLAYER_GRACE_AREA as int;
    let dx = c.x - player.x;
    let dy = c.y - player.y;
    let dsq = dist_sq(player, c);
    let d = spec_isqrt(dsq);
    let mx = if c.x >= player.x { c.x - player.x } else { player.x - c.x };
    let my = if c.y >= player.y { c.y - player.y } else { player.y - c.y };
    assert(mx == (if dx >= 0 { dx } else { -dx }));
    assert(my == (if dy >= 0 { dy } else { -dy }));

    assert(mx * mx == dx * dx && my * my == dy * dy) by (nonlinear_arith)
        requires mx == (if dx >= 0 { dx } else { -dx }), my == (if dy >= 0 { dy } else { -dy });
    assert((c.x - player.x) * (c.x - player.x) == (player.x - c.x) * (player.x - c.x))
        by (nonlinear_arith);
    assert((c.y - player.y) * (c.y - player.y) == (player.y - c.y) * (player.y - c.y))
        by (nonlinear_arith);
    assert(dist_sq(c, player) == dsq);
    assert(in_circle(c, player, gr));

    lemma_isqrt_exists(dsq);
    assert(dsq > 0) by (nonlinear_arith)
        requires dx * dx + dy * dy == dsq, !(dx == 0 && dy == 0);
    assert(d >= 1) by (nonlinear_arith)
        requires d * d == dsq, dsq > 0, d >= 0;

    // The step components divide exactly
    let qx = mx * gr / d;
    let qy = my * gr / d;
    vstd::arithmetic::div_mod::lemma_fundamental_div_mod(mx * gr, d);
    vstd::arithmetic::div_mod::lemma_fundamental_div_mod(my * gr, d);
    assert(qx * d == mx * gr);
    assert(qy * d == my * gr);
    assert(qx >= 0 && qy >= 0) by (nonlinear_arith)
        requires qx * d == mx * gr, qy * d == my * gr, mx >= 0, my >= 0, gr > 0, d >= 1;

    // The step components never exceed the grace radius
    assert(mx <= d && my <= d) by (nonlinear_arith)
        requires mx * mx <= d * d, my * my <= d * d, mx >= 0, my >= 0, d >= 1,
            mx * mx == dx * dx, my * my == dy * dy, dx * dx + dy * dy == d * d;
    assert(qx <= gr && qy <= gr) by (nonlinear_arith)
        requires qx * d == mx * gr, qy * d == my * gr, mx <= d, my <= d, gr > 0, d >= 1,
            qx >= 0, qy >= 0;

    // The squared step length is exactly the squared grace radius
    let d2 = d * d;
    assert(d2 >= 1) by (nonlinear_arith)
        requires d >= 1, d2 == d * d;
    assert((qx * d) * (qx * d) == (mx * gr) * (mx * gr));
    assert((qy * d) * (qy * d) == (my * gr) * (my * gr));
    assert((qx * d) * (qx * d) == (qx * qx) * d2) by (nonlinear_arith)
        requires d2 == d * d;
    assert((qy * d) * (qy * d) == (qy * qy) * d2) by (nonlinear_arith)
        requires d2 == d * d;
    assert((mx * gr) * (mx * gr) == (mx * mx) * (gr * gr)) by (nonlinear_arith);
    assert((my * gr) * (my * gr) == (my * my) * (gr * gr)) by (nonlinear_arith);
    assert((qx * qx) * d2 + (qy * qy) * d2 == (qx * qx + qy * qy) * d2) by (nonlinear_arith);
    assert((mx * mx) * (gr * gr) + (my * my) * (gr * gr) == (mx * mx + my * my) * (gr * gr))
        by (nonlinear_arith);
    assert(mx * mx + my * my == d2);
    assert((mx * mx + my * my) * (gr * gr) == (gr * gr) * d2) by (nonlinear_arith)
        requires mx * mx + my * my == d2;
    assert((qx * qx + qy * qy) * d2 == (gr * gr) * d2);
    assert(qx * qx + qy * qy == gr * gr) by (nonlinear_arith)
        requires (qx * qx + qy * qy) * d2 == (gr * gr) * d2, d2 >= 1;

    // The spawn position takes the adjusted branch and is never clamped
    let sx = spec_step_component(dx, gr, d);
    let sy = spec_step_component(dy, gr, d);
    assert(dx * gr == mx * gr && dx >= 0 || (-dx) * gr == mx * gr && dx < 0) by (nonlinear_arith)
        requires mx == (if dx >= 0 { dx } else { -dx });
    assert(dy * gr == my * gr && dy >= 0 || (-dy) * gr == my * gr && dy < 0) by (nonlinear_arith)
        requires my == (if dy >= 0 { dy } else { -dy });
    assert(sx == if dx >= 0 { qx } else { -qx });
    assert(sy == if dy >= 0 { qy } else { -qy });

    let r = spec_spawn_position(player, c);
    assert(r == spec_move_toward(player, c, gr));
    assert(spec_clamp_coord(player.x + sx) == player.x + sx);
    assert(spec_clamp_coord(player.y + sy) == player.y + sy);
    assert(r.x == player.x + sx && r.y == player.y + sy);

    assert(sx * sx == qx * qx && sy * sy == qy * qy) by (nonlinear_arith)
        requires sx == (if dx >= 0 { qx } else { -qx }), sy == (if dy >= 0 { qy } else { -qy });
    assert((r.x - player.x) * (r.x - player.x) + (r.y - player.y) * (r.y - player.y)
        == gr * gr);

    // Colinearity: the step is the exact scaling of the displacement
    assert(sx * d == dx * gr) by (nonlinear_arith)
        requires sx == (if dx >= 0 { qx } else { -qx }), qx * d == mx * gr,
            mx == (if dx >= 0 { dx } else { -dx });
    assert(sy * d == dy * gr) by (nonlinear_arith)
        requires sy == (if dy >= 0 { qy } else { -qy }), qy * d == my * gr,
            my == (if dy >= 0 { dy } else { -dy });
    assert(sx * dy == sy * dx) by (nonlinear_arith)
        requires sx * d == dx * gr, sy * d == dy * gr, d >= 1;
    assert((r.x - player.x) * (c.y - player.y) == (r.y - player.y) * (c.x - player.x));

    // The step points the same way as the displacement
    assert(sx * dx >= 0 && sy * dy >= 0) by (nonlinear_arith)
        requires sx * d == dx * gr, sy * d == dy * gr, d >= 1, gr > 0;
}

/// Everything one update of the time controller does, as a relation from
/// the state before (`tc0`, `s0`, `ev0`) to the state after (`tc1`, `s1`,
/// `ev1`): the clock and difficulty advance, at most one overdue timeout
/// pops and takes its effect, the player turns and moves while alive, at
/// most one enemy spawns and every enemy moves, and at most one powerup
/// spawns. The per-frame orchestrator promises exactly this for its first
/// pass.
pub open spec fn spec_update_relation(
    tc0: TimeController,
    s0: GameState,
    ev0: Seq<Event>,
    a: Actions,
    dt: u64,
    tc1: TimeController,
    s1: GameState,
    ev1: Seq<Event>,
) -> bool {
    &&& tc1.current_time == tc0.current_time + dt
    &&& tc1.shoot_timer == tc0.shoot_timer
    &&& s1.difficulty == spec_difficulty_step(s0.difficulty as int, dt as int)
    &&& s1.score == s0.score
    &&& s1.world.size == s0.world.size
    &&& s1.world.map == s0.world.map
    &&& s1.world.player.is_dead == s0.world.player.is_dead
    &&& tc1.scheduled_timeouts.entries@ == (if spec_timeout_popped(tc0, dt as int) {
        tc0.scheduled_timeouts.entries@.skip(1)
    } else {
        tc0.scheduled_timeouts.entries@
    })
    &&& (spec_timeout_popped(tc0, dt as int) && tc0.scheduled_timeouts.entries@[0].timeout
        is ShowGameOverScreen ==> (s1.message matches Some(m) && m.title@ == "Game Over"@
        && m.subtitle@ == "Press any key to restart"@))
    &&& (!(spec_timeout_popped(tc0, dt as int) && tc0.scheduled_timeouts.entries@[0].timeout
        is ShowGameOverScreen) ==> s1.message == s0.message)
    &&& s1.world.player.powerup == spec_held_after_timeout(tc0, s0, dt as int)
    &&& s1.world.player.vector == spec_player_vector_after(s0, dt as int, a)
    &&& tc1.enemy_timer == (if spec_fired(tc0, dt as int) {
        Timer { rate: ENEMY_SPAWNS_PER_SECOND, last_fired: spec_now(tc0, dt as int) }
    } else {
        tc0.enemy_timer
    })
    &&& s1.world.enemies@.len() == s0.world.enemies@.len() + (if spec_fired(tc0, dt as int) {
        1int
    } else {
        0int
    })
    &&& (forall|i: int| 0 <= i < s0.world.enemies@.len() ==>
        (#[trigger] s1.world.enemies@[i]) == spec_enemy_after(s0, dt as int, a, i))
    &&& (spec_fired(tc0, dt as int) ==> spec_spawned_this_update(
        s0, dt as int, a, s1.world.enemies@[s0.world.enemies@.len() as int],
    ))
    &&& ev1 == ev0 + (if spec_fired(tc0, dt as int) {
        seq![Event::EnemySpawned]
    } else {
        Seq::<Event>::empty()
    })
    &&& tc1.powerup_timer == (if !s0.world.player.is_dead && spec_powerup_fired(
        tc0, dt as int,
    ) {
        Timer { rate: POWERUP_SPAWNS_PER_SECOND, last_fired: spec_now(tc0, dt as int) }
    } else {
        tc0.powerup_timer
    })
    &&& s1.world.powerups@.len() == s0.world.powerups@.len() + (if spec_powerup_spawned(
        tc0, s0, dt as int,
    ) {
        1int
    } else {
        0int
    })
    &&& (forall|i: int| 0 <= i < s0.world.powerups@.len() ==>
        (#[trigger] s1.world.powerups@[i]) == s0.world.powerups@[i])
    &&& (spec_powerup_spawned(tc0, s0, dt as int) ==> spec_spawned_powerup_ok(
        s0.world.size, s1.world.powerups@[s0.world.powerups@.len() as int],
    ))
}

/// The time controller: the clock of the current game, the attack and
/// enemy-spawn timers, and the scheduled timeouts.
#[derive(Debug)]
pub struct TimeController {
    /// The duration of the current game since the last restart, in
    /// milliseconds.
    pub current_time: u64,
    /// A timer for the attack cadence.
    pub shoot_timer: Timer,
    /// A timer to spawn enemies.
    pub enemy_timer: Timer,
    /// A timer to spawn powerups.
    pub powerup_timer: Timer,
    /// Scheduled events that should happen in the future.
    pub scheduled_timeouts: TimeoutQueue,
}

impl TimeController {
    /// True when the clock is in range, the timers carry their cadences and
    /// have not fired in the future, and the queue is ordered.
    pub open spec fn wf(self) -> bool {
        &&& self.current_time <= MAX_TIME_MS
        &&& self.shoot_timer.rate == ATTACKS_PER_SECOND
        &&& self.enemy_timer.rate == ENEMY_SPAWNS_PER_SECOND
        &&& self.powerup_timer.rate == POWERUP_SPAWNS_PER_SECOND
        &&& self.shoot_timer.last_fired <= self.current_time
        &&& self.enemy_timer.last_fired <= self.current_time
        &&& self.powerup_timer.last_fired <= self.current_time
        &&& self.scheduled_timeouts.sorted()
    }

    /// Returns a fresh controller: clock at zero, timers never fired, no
    /// scheduled timeouts.
    pub fn new() -> (r: TimeController)
        ensures
            r.current_time == 0,
            r.shoot_timer == (Timer { rate: ATTACKS_PER_SECOND, last_fired: 0 }),
            r.enemy_timer == (Timer { rate: ENEMY_SPAWNS_PER_SECOND, last_fired: 0 }),
            r.powerup_timer == (Timer { rate: POWERUP_SPAWNS_PER_SECOND, last_fired: 0 }),
            r.scheduled_timeouts.entries@.len() == 0,
            r.wf(),
    {
        TimeController {
            current_time: 0,
            shoot_timer: Timer::from_rate(ATTACKS_PER_SECOND),
            enemy_timer: Timer::from_rate(ENEMY_SPAWNS_PER_SECOND),
            powerup_timer: Timer::from_rate(POWERUP_SPAWNS_PER_SECOND),
            scheduled_timeouts: TimeoutQueue::new(),
        }
    }

    /// Called when the game is reset: replaces this controller with a
    /// freshly constructed one.
    pub fn reset(&mut self)
        ensures
            final(self).current_time == 0,
            final(self).shoot_timer == (Timer { rate: ATTACKS_PER_SECOND, last_fired: 0 }),
            final(self).enemy_timer == (Timer { rate: ENEMY_SPAWNS_PER_SECOND, last_fired: 0 }),
            final(self).powerup_timer == (Timer { rate: POWERUP_SPAWNS_PER_SECOND, last_fired: 0 }),
            final(self).scheduled_timeouts.entries@.len() == 0,
            final(self).wf(),
    {
        *self = TimeController::new();
    }

    /// Updates the game.
    ///
    /// `dt` is the time that has passed since the last update, in
    /// milliseconds. One update advances the clock and the difficulty,
    /// fires at most one overdue scheduled timeout, moves and turns the
    /// player while alive, and spawns and moves the enemies.
    #[verifier::rlimit(100)]
    pub fn update_seconds(
        &mut self,
        dt: u64,
        actions: &Actions,
        state: &mut GameState,
        events: &mut Vec<Event>,
    )
        requires
            old(self).wf(),
            old(state).world.wf(),
            dt <= MAX_DT_MS,
            old(self).current_time + dt <= MAX_TIME_MS,
            old(state).difficulty + dt * 10 <= 10 * MAX_TIME_MS,
        ensures
            final(self).wf(),
            final(state).world.wf(),
            final(self).current_time == old(self).current_time + dt,
            final(self).shoot_timer == old(self).shoot_timer,
            final(state).difficulty == spec_difficulty_step(old(state).difficulty as int, dt as int),
            final(state).score == old(state).score,
            final(state).world.size == old(state).world.size,
            final(state).world.map == old(state).world.map,
            final(state).world.player.is_dead == old(state).world.player.is_dead,
            ({
                let now = old(self).current_time + dt;
                let q = old(self).scheduled_timeouts.entries@;
                let popped = q.len() > 0 && q[0].at <= now;
                &&& final(self).scheduled_timeouts.entries@ == (if popped {
                    q.skip(1)
                } else {
                    q
                })
                &&& (popped && q[0].timeout is ShowGameOverScreen ==> (final(state).message
                    matches Some(m) && m.title@ == "Game Over"@
                    && m.subtitle@ == "Press any key to restart"@))
                &&& (!(popped && q[0].timeout is ShowGameOverScreen) ==> final(state).message
                    == old(state).message)
            }),
            final(state).world.player.powerup == spec_held_after_timeout(
                *old(self), *old(state), dt as int,
            ),
            final(state).world.player.vector == spec_player_vector_after(
                *old(state), dt as int, *actions,
            ),
            final(self).powerup_timer == (if !old(state).world.player.is_dead
                && spec_powerup_fired(*old(self), dt as int) {
                Timer {
                    rate: POWERUP_SPAWNS_PER_SECOND,
                    last_fired: spec_now(*old(self), dt as int),
                }
            } else {
                old(self).powerup_timer
            }),
            final(state).world.powerups@.len() == old(state).world.powerups@.len()
                + (if spec_powerup_spawned(*old(self), *old(state), dt as int) {
                1int
            } else {
                0int
            }),
            forall|i: int| 0 <= i < old(state).world.powerups@.len() ==>
                (#[trigger] final(state).world.powerups@[i]) == old(state).world.powerups@[i],
            spec_powerup_spawned(*old(self), *old(state), dt as int) ==> spec_spawned_powerup_ok(
                old(state).world.size,
                final(state).world.powerups@[old(state).world.powerups@.len() as int],
            ),
            final(self).enemy_timer == (if spec_fired(*old(self), dt as int) {
                Timer {
                    rate: ENEMY_SPAWNS_PER_SECOND,
                    last_fired: spec_now(*old(self), dt as int),
                }
            } else {
                old(self).enemy_timer
            }),
            final(state).world.enemies@.len() == old(state).world.enemies@.len() + (if spec_fired(
                *old(self), dt as int,
            ) {
                1int
            } else {
                0int
            }),
            forall|i: int| 0 <= i < old(state).world.enemies@.len() ==>
                final(state).world.enemies@[i] == spec_enemy_after(
                    *old(state), dt as int, *actions, i,
                ),
            spec_fired(*old(self), dt as int) ==> spec_spawned_this_update(
                *old(state), dt as int, *actions,
                final(state).world.enemies@[old(state).world.enemies@.len() as int],
            ),
            final(events)@ == old(events)@ + (if spec_fired(*old(self), dt as int) {
                seq![Event::EnemySpawned]
            } else {
                Seq::<Event>::empty()
            }),
            spec_update_relation(
                *old(self), *old(state), old(events)@, *actions, dt, *final(self),
                *final(state), final(events)@,
            ),
    {
        self.current_time = self.current_time + dt;
        state.difficulty = state.difficulty + dt * 10;

        // Check if an event is scheduled to run, and if so, run exactly one now
        let run_timeout = match self.scheduled_timeouts.peek() {
            Some(when) => when <= self.current_time,
            None => false,
        };
        if run_timeout {
            match self.scheduled_timeouts.pop() {
                Some(t) => t.handle(state),
                None => {
                    proof {
                        assert(false);
                    }
                },
            }
        }

        // Only modify the player and the powerups if the player is alive
        if !state.world.player.is_dead {
            self.update_player(dt, actions, state);
            self.update_powerups(state);
        }

        self.update_enemies(dt, state, events);

        proof {
            let dt_i = dt as int;
            if spec_fired(*old(self), dt_i) {
                let tgt = spec_target(*old(state), dt_i, *actions);
                let chase = spec_chase_after(*old(state), dt_i);
                let drift = dt_i * (ENEMY_SPEED as int);
                let alive = !old(state).world.player.is_dead;
                let n = old(state).world.enemies@.len() as int;
                assert(exists|c: Point| #![auto]
                    spec_spawn_candidate_ok(c, tgt, old(state).world.size)
                    && state.world.enemies@[n] == spec_move_enemy(
                        spec_spawned_enemy(tgt, c), alive, tgt, chase, drift,
                    ));
                assert(spec_spawned_this_update(
                    *old(state), dt_i, *actions, state.world.enemies@[n],
                ));
            }
            let tc0 = *old(self);
            let s0 = *old(state);
            assert(self.current_time == tc0.current_time + dt);
            assert(self.shoot_timer == tc0.shoot_timer);
            assert(state.difficulty == spec_difficulty_step(s0.difficulty as int, dt_i));
            assert(state.score == s0.score);
            assert(state.world.player.is_dead == s0.world.player.is_dead);
            assert(self.scheduled_timeouts.entries@ == (if spec_timeout_popped(tc0, dt_i) {
                tc0.scheduled_timeouts.entries@.skip(1)
            } else {
                tc0.scheduled_timeouts.entries@
            }));
            assert(spec_timeout_popped(tc0, dt_i) && tc0.scheduled_timeouts.entries@[0].timeout
                is ShowGameOverScreen ==> (state.message matches Some(m)
                && m.title@ == "Game Over"@ && m.subtitle@ == "Press any key to restart"@));
            assert(!(spec_timeout_popped(tc0, dt_i) && tc0.scheduled_timeouts.entries@[0].timeout
                is ShowGameOverScreen) ==> state.message == s0.message);
            assert(state.world.player.powerup == spec_held_after_timeout(tc0, s0, dt_i));
            assert(state.world.player.vector == spec_player_vector_after(s0, dt_i, *actions));
            assert(self.enemy_timer == (if spec_fired(tc0, dt_i) {
                Timer { rate: ENEMY_SPAWNS_PER_SECOND, last_fired: spec_now(tc0, dt_i) }
            } else {
                tc0.enemy_timer
            }));
            assert(state.world.enemies@.len() == s0.world.enemies@.len()
                + (if spec_fired(tc0, dt_i) { 1int } else { 0int }));
            assert(forall|i: int| 0 <= i < s0.world.enemies@.len() ==>
                (#[trigger] state.world.enemies@[i]) == spec_enemy_after(s0, dt_i, *actions, i));
            assert(events@ == old(events)@ + (if spec_fired(tc0, dt_i) {
                seq![Event::EnemySpawned]
            } else {
                Seq::<Event>::empty()
            }));
            assert(self.powerup_timer == (if !s0.world.player.is_dead && spec_powerup_fired(
                tc0, dt_i,
            ) {
                Timer { rate: POWERUP_SPAWNS_PER_SECOND, last_fired: spec_now(tc0, dt_i) }
            } else {
                tc0.powerup_timer
            }));
            assert(state.world.powerups@.len() == s0.world.powerups@.len()
                + (if spec_powerup_spawned(tc0, s0, dt_i) { 1int } else { 0int }));
            assert(forall|i: int| 0 <= i < s0.world.powerups@.len() ==>
                (#[trigger] state.world.powerups@[i]) == s0.world.powerups@[i]);
            assert(spec_powerup_spawned(tc0, s0, dt_i) ==> spec_spawned_powerup_ok(
                s0.world.size, state.world.powerups@[s0.world.powerups@.len() as int],
            ));
            assert(spec_update_relation(
                tc0, s0, old(events)@, *actions, dt, *self, *state, events@,
            ));
        }
    }

    /// Updates the position and rotation of the player.
    fn update_player(&mut self, dt: u64, actions: &Actions, state: &mut GameState)
        requires
            dt <= MAX_DT_MS,
            old(state).world.wf(),
        ensures
            *final(self) == *old(self),
            !old(state).world.player.is_dead ==> final(state).world.player.vector
                == spec_update_player_vector(
                old(state).world.player.vector, dt as int, *actions, old(state).world.size,
            ),
            old(state).world.player.is_dead ==> final(state).world.player.vector
                == old(state).world.player.vector,
            final(state).world.player.is_dead == old(state).world.player.is_dead,
            final(state).world.player.powerup == old(state).world.player.powerup,
            final(state).world.enemies == old(state).world.enemies,
            final(state).world.powerups == old(state).world.powerups,
            final(state).world.map == old(state).world.map,
            final(state).world.size == old(state).world.size,
            final(state).difficulty == old(state).difficulty,
            final(state).message == old(state).message,
            final(state).score == old(state).score,
            final(state).world.wf(),
    {
        if !state.world.player.is_dead {
            let dt_mt = (ROTATE_SPEED * dt) as i64;
            if actions.left {
                let dir = crate::geometry::euclid_mod(
                    state.world.player.vector.direction - dt_mt, 1000,
                );
                state.world.player.vector.direction = dir;
            } else if actions.right {
                let dir = crate::geometry::euclid_mod(
                    state.world.player.vector.direction + dt_mt, 1000,
                );
                state.world.player.vector.direction = dir;
            }

            // Set speed and advance the player with wrap around
            let speed: u64 = if actions.up {
                2 * ADVANCE_SPEED
            } else {
                ADVANCE_SPEED
            };
            proof {
                assert(dt * speed <= 400_000_000) by (nonlinear_arith)
                    requires 0 <= dt <= 1_000_000, 0 <= speed <= 400;
            }
            let size = state.world.size;
            state.world.player.vector.advance_wrapping(dt * speed, size);
        }
    }

    /// Updates the powerups: on the spawn cadence, places one shield at a
    /// uniformly random point of the world, but only while no shield is in
    /// play — neither waiting in the world nor held by the player.
    fn update_powerups(&mut self, state: &mut GameState)
        requires
            old(self).wf(),
            old(state).world.wf(),
        ensures
            final(self).current_time == old(self).current_time,
            final(self).shoot_timer == old(self).shoot_timer,
            final(self).enemy_timer == old(self).enemy_timer,
            final(self).scheduled_timeouts.entries@ == old(self).scheduled_timeouts.entries@,
            final(self).wf(),
            final(self).powerup_timer == (if old(self).powerup_timer.due(
                old(self).current_time,
            ) {
                Timer {
                    rate: old(self).powerup_timer.rate,
                    last_fired: old(self).current_time,
                }
            } else {
                old(self).powerup_timer
            }),
            final(state).world.player == old(state).world.player,
            final(state).world.enemies == old(state).world.enemies,
            final(state).world.map == old(state).world.map,
            final(state).world.size == old(state).world.size,
            final(state).difficulty == old(state).difficulty,
            final(state).message == old(state).message,
            final(state).score == old(state).score,
            final(state).world.wf(),
            ({
                let spawned = old(self).powerup_timer.due(old(self).current_time)
                    && old(state).world.powerups@.len() == 0
                    && old(state).world.player.powerup is None;
                &&& final(state).world.powerups@.len() == old(state).world.powerups@.len()
                    + (if spawned {
                    1int
                } else {
                    0int
                })
                &&& (forall|i: int| 0 <= i < old(state).world.powerups@.len() ==>
                    (#[trigger] final(state).world.powerups@[i])
                        == old(state).world.powerups@[i])
                &&& (spawned ==> spec_spawned_powerup_ok(
                    old(state).world.size,
                    final(state).world.powerups@[old(state).world.powerups@.len() as int],
                ))
            }),
    {
        let fired = self.powerup_timer.update(self.current_time);
        if fired && state.world.powerups.len() == 0 && state.world.player.powerup.is_none() {
            let v = Vector::random(state.world.size);
            state.world.powerups.push(Powerup::new(v.position, PowerupKind::Shield));
        }
    }

    /// Updates positions of enemies, and spawns new ones when necessary.
    fn update_enemies(&mut self, dt: u64, state: &mut GameState, events: &mut Vec<Event>)
        requires
            dt <= MAX_DT_MS,
            old(self).wf(),
            old(state).world.wf(),
            old(state).difficulty <= 10 * MAX_TIME_MS,
        ensures
            final(self).current_time == old(self).current_time,
            final(self).shoot_timer == old(self).shoot_timer,
            final(self).powerup_timer == old(self).powerup_timer,
            final(self).scheduled_timeouts.entries@ == old(self).scheduled_timeouts.entries@,
            final(self).wf(),
            final(state).world.player == old(state).world.player,
            final(state).world.powerups == old(state).world.powerups,
            final(state).world.map == old(state).world.map,
            final(state).world.size == old(state).world.size,
            final(state).difficulty == old(state).difficulty,
            final(state).message == old(state).message,
            final(state).score == old(state).score,
            final(state).world.wf(),
            ({
                let now = old(self).current_time;
                let fired = old(self).enemy_timer.due(now);
                let alive = !old(state).world.player.is_dead;
                let target = old(state).world.player.vector.position;
                let chase = spec_chase_distance(dt as int, old(state).difficulty as int);
                let drift = dt as int * (ENEMY_SPEED as int);
                let base = old(state).world.enemies@;
                &&& final(self).enemy_timer == (if fired {
                    Timer { rate: old(self).enemy_timer.rate, last_fired: now }
                } else {
                    old(self).enemy_timer
                })
                &&& final(state).world.enemies@.len() == base.len() + (if fired {
                    1int
                } else {
                    0int
                })
                &&& forall|i: int| 0 <= i < base.len() ==> final(state).world.enemies@[i]
                    == spec_move_enemy(base[i], alive, target, chase, drift)
                &&& (fired ==> exists|c: Point| #![auto]
                    spec_spawn_candidate_ok(c, target, old(state).world.size)
                    && final(state).world.enemies@[base.len() as int] == spec_move_enemy(
                        spec_spawned_enemy(target, c), alive, target, chase, drift,
                    ))
                &&& final(events)@ == old(events)@ + (if fired {
                    seq![Event::EnemySpawned]
                } else {
                    Seq::<Event>::empty()
                })
            }),
    {
        let ghost base = state.world.enemies@;
        // Spawn enemies at random locations on the spawn cadence
        let fired = self.enemy_timer.update(self.current_time);
        if fired {
            let target = state.world.player.position();
            // Draw a random position; it is never exactly the player's own,
            // which would leave the push direction below undefined
            let candidate = random_spawn_candidate(state.world.size, target);

            // Check if the newly spawned enemy is inside the player's grace
            // area; if so, push its spawn point to the edge of the area,
            // along the ray from the player through the candidate point
            let pos = if candidate.intersect_circle(&target, PLAYER_GRACE_AREA) {
                crate::geometry::move_toward(target, candidate, PLAYER_GRACE_AREA as u64)
            } else {
                candidate
            };
            let new_enemy = Enemy::new(pos);
            state.world.enemies.push(new_enemy);
            events.push(Event::EnemySpawned);
            proof {
                assert(state.world.enemies@ =~= base.push(spec_spawned_enemy(target, candidate)));
            }
        }

        // Move enemies in the player's direction if the player is alive,
        // otherwise let them drift in the direction they are facing
        let alive = !state.world.player.is_dead;
        let target = state.world.player.position();
        proof {
            assert(dt * state.difficulty <= 1_000_000 * 10_000_000_000_000) by (nonlinear_arith)
                requires 0 <= dt <= 1_000_000, 0 <= state.difficulty <= 10_000_000_000_000;
        }
        let raw_chase: u64 = dt * ENEMY_SPEED + dt * state.difficulty / 1_000_000;
        let chase: u64 = if raw_chase > 2_000_000_000 {
            2_000_000_000
        } else {
            raw_chase
        };
        let drift: u64 = dt * ENEMY_SPEED;
        let ghost cur = state.world.enemies@;
        let mut moved: Vec<Enemy> = Vec::new();
        let n = state.world.enemies.len();
        let mut i: usize = 0;
        while i < n
            invariant
                i <= n,
                n == cur.len(),
                state.world.enemies@ == cur,
                alive == !state.world.player.is_dead,
                target == state.world.player.vector.position,
                target.in_limit(),
                chase <= 2_000_000_000,
                drift <= 2_000_000_000,
                forall|j: int| 0 <= j < cur.len() ==> (#[trigger] cur[j]).vector.wf(),
                moved@.len() == i,
                forall|j: int| 0 <= j < i ==> moved@[j] == spec_move_enemy(
                    cur[j], alive, target, chase as int, drift as int,
                ),
                forall|j: int| 0 <= j < i ==> (#[trigger] moved@[j]).vector.wf(),
            decreases n - i,
        {
            let mut enemy = state.world.enemies[i];
            if alive {
                enemy.update(chase, target);
            } else {
                enemy.advance(drift);
            }
            moved.push(enemy);
            i += 1;
        }
        state.world.enemies = moved;
    }

    /// Schedules `timeout` to fire `offset` milliseconds from now.
    pub fn schedule_timeout(&mut self, offset: u64, timeout: Timeout)
        requires
            old(self).scheduled_timeouts.sorted(),
            old(self).current_time + offset <= u64::MAX,
        ensures
            final(self).scheduled_timeouts.entries@ == old(self).scheduled_timeouts.entries@
                .insert(
                spec_insert_pos(
                    old(self).scheduled_timeouts.entries@,
                    (old(self).current_time + offset) as u64,
                ),
                TimeoutEntry {
                    at: (old(self).current_time + offset) as u64,
                    timeout,
                },
            ),
            final(self).scheduled_timeouts.sorted(),
            final(self).current_time == old(self).current_time,
            final(self).shoot_timer == old(self).shoot_timer,
            final(self).enemy_timer == old(self).enemy_timer,
            final(self).powerup_timer == old(self).powerup_timer,
    {
        self.scheduled_timeouts.push(self.current_time + offset, timeout);
    }
}

} // verus!
