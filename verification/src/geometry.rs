//! Geometry primitives: points, sizes, vectors, and the positionable and
//! collidable capability contracts shared by every entity.
//!
//! All coordinates are fixed-point integers in milli-units (one thousandth of
//! a game unit), so distances, overlap tests and wrapping are exact.

use vstd::prelude::*;

verus! {

use crate::COORD_LIMIT;

/// A position in the plane, in milli-units.
#[derive(Clone, Copy, Debug, PartialEq, Eq, Structural)]
pub struct Point {
    pub x: i64,
    pub y: i64,
}

/// A region of space: a width and a height in milli-units, both nonnegative.
#[derive(Clone, Copy, Debug, PartialEq, Eq, Structural)]
pub struct Size {
    pub width: i64,
    pub height: i64,
}

/// A position paired with a facing direction (in milli-turns, one thousandth
/// of a full circle) and a scalar speed factor (in milli, 1000 = factor one).
#[derive(Clone, Copy, Debug, PartialEq, Eq, Structural)]
pub struct Vector {
    pub position: Point,
    pub direction: i64,
    pub speed: i64,
}

impl Point {
    /// True when both coordinates are within the world coordinate limit.
    pub open spec fn in_limit(self) -> bool {
        -COORD_LIMIT <= self.x <= COORD_LIMIT && -COORD_LIMIT <= self.y <= COORD_LIMIT
    }

    /// Returns a new `Point` with the given coordinates.
    pub fn new(x: i64, y: i64) -> (r: Point)
        ensures
            r == (Point { x, y }),
    {
        Point { x, y }
    }

    /// Returns the displacement from `other` to this point.
    pub fn sub(self, other: Point) -> (r: Point)
        requires
            self.in_limit(),
            other.in_limit(),
        ensures
            r.x == self.x - other.x,
            r.y == self.y - other.y,
    {
        Point { x: self.x - other.x, y: self.y - other.y }
    }

    /// Whether this point lies within (or on) the circle around `center` of
    /// the given radius.
    pub fn intersect_circle(self, center: &Point, radius: i64) -> (r: bool)
        requires
            self.in_limit(),
            center.in_limit(),
            0 <= radius <= COORD_LIMIT,
        ensures
            r == in_circle(self, *center, radius as int),
    {
        let dx: i64 = self.x - center.x;
        let dy: i64 = self.y - center.y;
        proof {
            lemma_sq_bound(dx as int, dy as int);
            lemma_sq_bound(radius as int, 0);
        }
        dx * dx + dy * dy <= radius * radius
    }
}

/// The squared Euclidean distance between two points.
pub open spec fn dist_sq(a: Point, b: Point) -> int {
    (a.x - b.x) * (a.x - b.x) + (a.y - b.y) * (a.y - b.y)
}

/// Whether `p` lies within (or on) the circle around `center` of the given radius.
pub open spec fn in_circle(p: Point, center: Point, radius: int) -> bool {
    dist_sq(p, center) <= radius * radius
}

/// Two circular bodies overlap when the distance between their centers is at
/// most the sum of their radii.
pub open spec fn spec_collides(pa: Point, ra: int, pb: Point, rb: int) -> bool {
    dist_sq(pa, pb) <= (ra + rb) * (ra + rb)
}

/// Squares of coordinates within four times the world limit stay well inside
/// the `i64` range.
proof fn lemma_sq_bound(dx: int, dy: int)
    requires
        -2 * COORD_LIMIT <= dx <= 2 * COORD_LIMIT,
        -2 * COORD_LIMIT <= dy <= 2 * COORD_LIMIT,
    ensures
        0 <= dx * dx <= 4 * COORD_LIMIT * COORD_LIMIT,
        0 <= dy * dy <= 4 * COORD_LIMIT * COORD_LIMIT,
{
    assert(dx * dx <= 4 * COORD_LIMIT * COORD_LIMIT && dx * dx >= 0) by (nonlinear_arith)
        requires -2 * COORD_LIMIT <= dx <= 2 * COORD_LIMIT;
    assert(dy * dy <= 4 * COORD_LIMIT * COORD_LIMIT && dy * dy >= 0) by (nonlinear_arith)
        requires -2 * COORD_LIMIT <= dy <= 2 * COORD_LIMIT;
}

/// Overlap of two positioned bodies does not depend on their order: the
/// distance between the positions and the sum of the radii are symmetric.
pub proof fn lemma_collision_symmetry(pa: Point, ra: int, pb: Point, rb: int)
    ensures
        spec_collides(pa, ra, pb, rb) == spec_collides(pb, rb, pa, ra),
{
    assert((pa.x - pb.x) * (pa.x - pb.x) == (pb.x - pa.x) * (pb.x - pa.x)) by (nonlinear_arith);
    assert((pa.y - pb.y) * (pa.y - pb.y) == (pb.y - pa.y) * (pb.y - pa.y)) by (nonlinear_arith);
}

impl Size {
    /// True when the dimensions are nonnegative and within the world limit.
    pub open spec fn wf(self) -> bool {
        0 <= self.width <= COORD_LIMIT && 0 <= self.height <= COORD_LIMIT
    }

    /// Returns a new `Size` of the given dimensions.
    pub fn new(width: i64, height: i64) -> (r: Size)
        ensures
            r == (Size { width, height }),
    {
        Size { width, height }
    }

    /// Applies the given scale, in milli (600 scales by six tenths), rounding
    /// each dimension down to whole milli-units.
    pub fn scale(&self, scale: i64) -> (r: Size)
        requires
            self.wf(),
            0 <= scale <= 1_000_000,
        ensures
            r.width == self.width * scale / 1000,
            r.height == self.height * scale / 1000,
    {
        proof {
            assert(0 <= self.width * scale <= COORD_LIMIT * 1_000_000) by (nonlinear_arith)
                requires 0 <= self.width <= COORD_LIMIT && 0 <= scale <= 1_000_000;
            assert(0 <= self.height * scale <= COORD_LIMIT * 1_000_000) by (nonlinear_arith)
                requires 0 <= self.height <= COORD_LIMIT && 0 <= scale <= 1_000_000;
        }
        let w: u64 = (self.width as u64) * (scale as u64);
        let h: u64 = (self.height as u64) * (scale as u64);
        Size { width: (w / 1000) as i64, height: (h / 1000) as i64 }
    }

    /// Returns a uniformly random x coordinate within `[0, width)`.
    pub fn random_x(&self) -> (r: i64)
        requires
            self.wf(),
            self.width >= 1,
        ensures
            0 <= r < self.width,
    {
        crate::rng::rand_below(self.width as u64) as i64
    }

    /// Returns a uniformly random y coordinate within `[0, height)`.
    pub fn random_y(&self) -> (r: i64)
        requires
            self.wf(),
            self.height >= 1,
        ensures
            0 <= r < self.height,
    {
        crate::rng::rand_below(self.height as u64) as i64
    }
}

impl Vector {
    /// True when the position is in range and the facing direction is a
    /// normalized milli-turn.
    pub open spec fn wf(self) -> bool {
        self.position.in_limit() && 0 <= self.direction < 1000
    }

    /// Returns a new `Vector` at the given position, facing direction zero,
    /// with the given speed factor.
    pub fn new(position: Point, speed: i64) -> (r: Vector)
        ensures
            r == (Vector { position, direction: 0, speed }),
    {
        Vector { position, direction: 0, speed }
    }

    /// Returns a `Vector` placed uniformly at random within the given size,
    /// facing direction zero, with speed factor one.
    pub fn random(size: Size) -> (r: Vector)
        requires
            size.wf(),
            size.width >= 1,
            size.height >= 1,
        ensures
            0 <= r.position.x < size.width,
            0 <= r.position.y < size.height,
            r.direction == 0,
            r.speed == 1000,
            r.wf(),
    {
        let x = size.random_x();
        let y = size.random_y();
        Vector { position: Point { x, y }, direction: 0, speed: 1000 }
    }
}

/// The position after advancing `dist` milli-units along the vector's facing
/// direction, wrapping around the world bounds.
pub open spec fn spec_advanced_wrapping(v: Vector, dist: int, size: Size) -> Point {
    let dx = spec_scale_trig(dist, crate::trig::spec_cos_mt(v.direction as int));
    let dy = spec_scale_trig(dist, crate::trig::spec_sin_mt(v.direction as int));
    Point {
        x: ((v.position.x + dx) % (size.width as int)) as i64,
        y: ((v.position.y + dy) % (size.height as int)) as i64,
    }
}

/// The position after advancing `dist` milli-units along the vector's facing
/// direction without wrapping, saturating at the world coordinate limit.
pub open spec fn spec_advanced_drift(v: Vector, dist: int) -> Point {
    let dx = spec_scale_trig(dist, crate::trig::spec_cos_mt(v.direction as int));
    let dy = spec_scale_trig(dist, crate::trig::spec_sin_mt(v.direction as int));
    Point {
        x: spec_clamp_coord(v.position.x + dx) as i64,
        y: spec_clamp_coord(v.position.y + dy) as i64,
    }
}

impl Vector {
    /// Advances `dist` milli-units along the facing direction, wrapping the
    /// position around the world bounds; facing and speed are unchanged.
    pub fn advance_wrapping(&mut self, dist: u64, size: Size)
        requires
            old(self).wf(),
            dist <= 2_000_000_000,
            size.wf(),
            size.width >= 1,
            size.height >= 1,
        ensures
            final(self).position == spec_advanced_wrapping(*old(self), dist as int, size),
            final(self).direction == old(self).direction,
            final(self).speed == old(self).speed,
            0 <= final(self).position.x < size.width,
            0 <= final(self).position.y < size.height,
            final(self).wf(),
    {
        let c = crate::trig::cos_mt(self.direction);
        let s = crate::trig::sin_mt(self.direction);
        let dx = scale_trig(dist, c);
        let dy = scale_trig(dist, s);
        self.position.x = euclid_mod(self.position.x + dx, size.width);
        self.position.y = euclid_mod(self.position.y + dy, size.height);
    }

    /// Advances `dist` milli-units along the facing direction without
    /// wrapping, saturating at the world coordinate limit.
    pub fn advance(&mut self, dist: u64)
        requires
            old(self).wf(),
            dist <= 2_000_000_000,
        ensures
            final(self).position == spec_advanced_drift(*old(self), dist as int),
            final(self).direction == old(self).direction,
            final(self).speed == old(self).speed,
            final(self).wf(),
    {
        let c = crate::trig::cos_mt(self.direction);
        let s = crate::trig::sin_mt(self.direction);
        let dx = scale_trig(dist, c);
        let dy = scale_trig(dist, s);
        self.position.x = clamp_coord(self.position.x + dx);
        self.position.y = clamp_coord(self.position.y + dy);
    }
}

/// One displacement component of a straight-line step: the component `delta`
/// of the direction vector, scaled by `dist / d` with `d` the direction's
/// length, rounded toward zero.
pub open spec fn spec_step_component(delta: int, dist: int, d: int) -> int {
    if delta >= 0 {
        delta * dist / d
    } else {
        -((-delta) * dist / d)
    }
}

/// The position after moving `dist` milli-units from `pos` straight toward
/// `target` (overshooting if `dist` exceeds the distance), saturating at the
/// world coordinate limit; moving toward one's own position changes nothing.
pub open spec fn spec_move_toward(pos: Point, target: Point, dist: int) -> Point {
    if pos == target {
        pos
    } else {
        let d = crate::trig::spec_isqrt(dist_sq(pos, target));
        Point {
            x: spec_clamp_coord(
                pos.x + spec_step_component(target.x - pos.x, dist, d),
            ) as i64,
            y: spec_clamp_coord(
                pos.y + spec_step_component(target.y - pos.y, dist, d),
            ) as i64,
        }
    }
}

/// Moves `dist` milli-units from `pos` straight toward `target`.
pub fn move_toward(pos: Point, target: Point, dist: u64) -> (r: Point)
    requires
        pos.in_limit(),
        target.in_limit(),
        dist <= 2_000_000_000,
    ensures
        r == spec_move_toward(pos, target, dist as int),
        r.in_limit(),
{
    if pos.x == target.x && pos.y == target.y {
        return pos;
    }
    let dx: i64 = target.x - pos.x;
    let dy: i64 = target.y - pos.y;
    proof {
        lemma_sq_bound(dx as int, dy as int);
    }
    let sq: u64 = (dx * dx + dy * dy) as u64;
    let d: u64 = crate::trig::isqrt(sq);
    proof {
        assert((pos.x - target.x) * (pos.x - target.x) == dx * dx) by (nonlinear_arith)
            requires dx == target.x - pos.x;
        assert((pos.y - target.y) * (pos.y - target.y) == dy * dy) by (nonlinear_arith)
            requires dy == target.y - pos.y;
        assert(dist_sq(pos, target) == sq);
        if d == 0 {
            assert((d as int + 1) * (d as int + 1) == 1) by (nonlinear_arith)
                requires d == 0u64;
            assert(sq == 0);
            assert(dx * dx >= 0 && dy * dy >= 0) by (nonlinear_arith);
            assert(dx * dx == 0 && dy * dy == 0);
            assert(dx == 0 && dy == 0) by (nonlinear_arith)
                requires dx * dx == 0, dy * dy == 0;
            assert(false);
        }
        lemma_component_within_length(dx as int, dy as int, d as int);
        lemma_component_within_length(dy as int, dx as int, d as int);
        assert(d <= 3_000_000_000) by (nonlinear_arith)
            requires 0 <= d, d * d <= sq, sq <= 0x7000_0000_0000_0000u64;
    }
    let sx = step_component(dx, dist, d);
    let sy = step_component(dy, dist, d);
    Point { x: clamp_coord(pos.x + sx), y: clamp_coord(pos.y + sy) }
}

/// A component of a vector is no longer than the vector: the integer length
/// `d` of `(dx, dy)` bounds `|dx|`.
proof fn lemma_component_within_length(dx: int, dy: int, d: int)
    requires
        d >= 0,
        dx * dx + dy * dy < (d + 1) * (d + 1),
    ensures
        -d <= dx <= d,
{
    assert(dy * dy >= 0) by (nonlinear_arith);
    if dx > d {
        assert(dx * dx >= (d + 1) * (d + 1)) by (nonlinear_arith)
            requires dx >= d + 1, d >= 0;
        assert(false);
    }
    if dx < -d {
        assert(dx * dx >= (d + 1) * (d + 1)) by (nonlinear_arith)
            requires dx <= -(d + 1), d >= 0;
        assert(false);
    }
}

/// Computes one component of the straight-line step; its magnitude never
/// exceeds `dist` because the component never exceeds the vector's length.
fn step_component(delta: i64, dist: u64, d: u64) -> (r: i64)
    requires
        1 <= d <= 3_000_000_000,
        -(d as int) <= delta <= d as int,
        dist <= 2_000_000_000,
    ensures
        r == spec_step_component(delta as int, dist as int, d as int),
        -(dist as int) <= r <= dist as int,
{
    let mag: u64 = if delta >= 0 { delta as u64 } else { (-delta) as u64 };
    proof {
        assert(mag * dist <= d * dist) by (nonlinear_arith)
            requires mag <= d, 0 <= dist;
        assert(d * dist <= 3_000_000_000 * 2_000_000_000) by (nonlinear_arith)
            requires d <= 3_000_000_000, dist <= 2_000_000_000, 0 <= d, 0 <= dist;
        vstd::arithmetic::div_mod::lemma_div_multiples_vanish(dist as int, d as int);
        vstd::arithmetic::div_mod::lemma_div_is_ordered(
            (mag * dist) as int, (d * dist) as int, d as int,
        );
        vstd::arithmetic::div_mod::lemma_div_pos_is_pos((mag * dist) as int, d as int);
    }
    let step: u64 = mag * dist / d;
    if delta >= 0 {
        step as i64
    } else {
        -(step as i64)
    }
}

/// A capability contract for objects that occupy a position in space.
pub trait Position: Sized {
    /// The position the object currently occupies.
    spec fn pos_spec(&self) -> Point;

    /// The same object moved to position `p`, all else unchanged.
    spec fn with_pos(&self, p: Point) -> Self;

    /// Returns the x coordinate of the object.
    fn x(&self) -> (r: i64)
        ensures
            r == self.pos_spec().x,
    ;

    /// Returns the y coordinate of the object.
    fn y(&self) -> (r: i64)
        ensures
            r == self.pos_spec().y,
    ;

    /// Returns a mutable reference to the x coordinate.
    fn x_mut(&mut self) -> (r: &mut i64)
        ensures
            *r == old(self).pos_spec().x,
            *final(self) == old(self).with_pos(
                Point { x: *final(r), y: old(self).pos_spec().y },
            ),
    ;

    /// Returns a mutable reference to the y coordinate.
    fn y_mut(&mut self) -> (r: &mut i64)
        ensures
            *r == old(self).pos_spec().y,
            *final(self) == old(self).with_pos(
                Point { x: old(self).pos_spec().x, y: *final(r) },
            ),
    ;

    /// Returns the position of the object.
    fn position(&self) -> (r: Point)
        ensures
            r == self.pos_spec(),
    {
        Point { x: self.x(), y: self.y() }
    }
}

/// A capability contract for objects with a circular collision body: each
/// type supplies only its radius; the overlap test is shared.
pub trait Collide: Position {
    /// The interaction radius, in milli-units, as a mathematical value.
    spec fn radius_spec(&self) -> int;

    /// Returns the interaction radius of the object.
    fn radius(&self) -> (r: i64)
        ensures
            r == self.radius_spec(),
            0 <= r <= 1_000_000,
    ;
}

/// Whether two collidable objects overlap: true when the distance between
/// their positions is at most the sum of their radii. This single shared test
/// serves every pair of entity types.
pub fn collides_with<A: Collide, B: Collide>(a: &A, b: &B) -> (r: bool)
    requires
        a.pos_spec().in_limit(),
        b.pos_spec().in_limit(),
    ensures
        r == spec_collides(a.pos_spec(), a.radius_spec(), b.pos_spec(), b.radius_spec()),
{
    let p = a.position();
    let q = b.position();
    let dx: i64 = p.x - q.x;
    let dy: i64 = p.y - q.y;
    let rr: i64 = a.radius() + b.radius();
    proof {
        lemma_sq_bound(dx as int, dy as int);
        lemma_sq_bound(rr as int, 0);
    }
    dx * dx + dy * dy <= rr * rr
}

/// The value `v` clamped into the world coordinate range.
pub open spec fn spec_clamp_coord(v: int) -> int {
    if v < -COORD_LIMIT {
        -COORD_LIMIT as int
    } else if v > COORD_LIMIT {
        COORD_LIMIT as int
    } else {
        v
    }
}

/// Clamps a coordinate into the world coordinate range.
pub fn clamp_coord(v: i64) -> (r: i64)
    ensures
        r == spec_clamp_coord(v as int),
{
    if v < -COORD_LIMIT {
        -COORD_LIMIT
    } else if v > COORD_LIMIT {
        COORD_LIMIT
    } else {
        v
    }
}

/// The Euclidean remainder of `a` modulo `m`: the unique value in `[0, m)`
/// congruent to `a`.
pub fn euclid_mod(a: i64, m: i64) -> (r: i64)
    requires
        1 <= m,
        -0x4000_0000_0000_0000 <= a <= 0x4000_0000_0000_0000,
        m <= 0x4000_0000_0000_0000,
    ensures
        r == (a as int) % (m as int),
        0 <= r < m,
{
    let mu: u64 = m as u64;
    if a >= 0 {
        let r = ((a as u64) % mu) as i64;
        proof {
            assert((a as u64) == a as int);
            assert((a as u64) % mu == (a as int) % (m as int));
        }
        r
    } else {
        let na: u64 = (-a) as u64;
        let rem: u64 = na % mu;
        let r: i64 = if rem == 0 { 0 } else { (mu - rem) as i64 };
        proof {
            let ai = a as int;
            let mi = m as int;
            let q = (na as int) / mi;
            let rm = (na as int) % mi;
            vstd::arithmetic::div_mod::lemma_fundamental_div_mod(na as int, mi);
            if rem == 0 {
                assert(ai == (-q) * mi + 0) by (nonlinear_arith)
                    requires na as int == q * mi + rm, rm == 0, ai == -(na as int);
                vstd::arithmetic::div_mod::lemma_fundamental_div_mod_converse(ai, mi, -q, 0);
            } else {
                assert(ai == (-q - 1) * mi + (mi - rm)) by (nonlinear_arith)
                    requires na as int == q * mi + rm, ai == -(na as int);
                vstd::arithmetic::div_mod::lemma_fundamental_div_mod_converse(
                    ai, mi, -q - 1, mi - rm,
                );
            }
        }
        r
    }
}

/// `dist` scaled by a trigonometric value `t` in milli (so `t = 1000` means a
/// factor of one): the displacement `dist * t / 1000`, rounded toward zero.
pub open spec fn spec_scale_trig(dist: int, t: int) -> int {
    if t >= 0 {
        dist * t / 1000
    } else {
        -(dist * (-t) / 1000)
    }
}

/// Computes `dist * t / 1000` with `t` a milli trigonometric value, rounding
/// toward zero; the result magnitude never exceeds `dist`.
pub fn scale_trig(dist: u64, t: i64) -> (r: i64)
    requires
        dist <= 2_000_000_000,
        -1000 <= t <= 1000,
    ensures
        r == spec_scale_trig(dist as int, t as int),
        -(dist as int) <= r <= dist as int,
{
    let mag_t: u64 = if t >= 0 { t as u64 } else { (-t) as u64 };
    proof {
        assert(dist * mag_t <= dist * 1000) by (nonlinear_arith)
            requires 0 <= mag_t <= 1000, 0 <= dist;
        vstd::arithmetic::div_mod::lemma_div_multiples_vanish(dist as int, 1000);
        vstd::arithmetic::div_mod::lemma_div_is_ordered(
            (dist * mag_t) as int, (dist * 1000) as int, 1000,
        );
        vstd::arithmetic::div_mod::lemma_div_pos_is_pos((dist * mag_t) as int, 1000);
    }
    let mag: u64 = dist * mag_t / 1000;
    if t >= 0 {
        mag as i64
    } else {
        -(mag as i64)
    }
}

} // verus!
