use rust_rpg::enemy::Enemy;
use rust_rpg::geometry::{collides_with, euclid_mod, move_toward, Point, Position, Size, Vector};
use rust_rpg::player::Player;
use rust_rpg::powerup::{Powerup, PowerupKind};

#[test]
fn point_new_and_sub() {
    let a = Point::new(5_000, 7_000);
    let b = Point::new(2_000, 10_000);
    let d = a.sub(b);
    assert_eq!(d.x, 3_000);
    assert_eq!(d.y, -3_000);
}

#[test]
fn intersect_circle_boundary() {
    let p = Point::new(3_000, 4_000);
    let center = Point::new(0, 0);
    // distance is exactly 5000
    assert!(p.intersect_circle(&center, 5_000));
    assert!(!p.intersect_circle(&center, 4_999));
}

#[test]
fn collision_is_symmetric_when_overlapping() {
    // player and enemy have radius 6.0 units (6000 milli) each: they collide
    // exactly when their centers are at most 12 units apart
    let player = Player::new(Point::new(0, 0));
    let enemy = Enemy::new(Point::new(11_000, 0));
    assert!(collides_with(&player, &enemy));
    assert!(collides_with(&enemy, &player));
}

#[test]
fn collision_is_symmetric_when_apart() {
    let player = Player::new(Point::new(0, 0));
    let enemy = Enemy::new(Point::new(12_001, 0));
    assert!(!collides_with(&player, &enemy));
    assert!(!collides_with(&enemy, &player));
}

#[test]
fn collision_holds_exactly_at_radius_sum() {
    let player = Player::new(Point::new(0, 0));
    let enemy = Enemy::new(Point::new(12_000, 0));
    assert!(collides_with(&player, &enemy));
    let powerup = Powerup::new(Point::new(0, 12_000), PowerupKind::Shield);
    assert!(collides_with(&powerup, &player));
    assert!(collides_with(&player, &powerup));
}

#[test]
fn euclid_mod_wraps_negatives() {
    assert_eq!(euclid_mod(7, 5), 2);
    assert_eq!(euclid_mod(-1, 5), 4);
    assert_eq!(euclid_mod(-5, 5), 0);
    assert_eq!(euclid_mod(0, 5), 0);
}

#[test]
fn advance_wrapping_wraps_at_world_bounds() {
    // facing direction 0 points along positive x with cosine one
    let mut v = Vector::new(Point::new(900, 500), 1000);
    let size = Size::new(1_000, 1_000);
    v.advance_wrapping(200, size);
    assert_eq!(v.position.x, 100);
    assert_eq!(v.position.y, 500);
    assert_eq!(v.direction, 0);
}

#[test]
fn advance_drifts_along_facing() {
    let mut e = Enemy::new(Point::new(1_000, 2_000));
    e.advance(500);
    assert_eq!(e.vector.position.x, 1_500);
    assert_eq!(e.vector.position.y, 2_000);
}

#[test]
fn move_toward_reaches_along_axis() {
    let from = Point::new(0, 0);
    let to = Point::new(10_000, 0);
    let r = move_toward(from, to, 4_000);
    assert_eq!(r, Point::new(4_000, 0));
}

#[test]
fn move_toward_own_position_stays() {
    let p = Point::new(123, 456);
    assert_eq!(move_toward(p, p, 5_000), p);
}

#[test]
fn move_toward_diagonal_is_exact_on_pythagorean_triple() {
    // moving 100 from (0,0) toward (300,400): the distance is 500, so the
    // step is exactly (60, 80)
    let r = move_toward(Point::new(0, 0), Point::new(300, 400), 100);
    assert_eq!(r, Point::new(60, 80));
}

#[test]
fn grace_area_clamp_pushes_to_exact_boundary() {
    // a candidate 50 units from the player, inside the 200-unit grace area,
    // is pushed along its ray to exactly 200 units away
    let player = Point::new(0, 0);
    let candidate = Point::new(30_000, 40_000);
    let adjusted = move_toward(player, candidate, 200_000);
    assert_eq!(adjusted, Point::new(120_000, 160_000));
    let dx = adjusted.x as i128;
    let dy = adjusted.y as i128;
    assert_eq!(dx * dx + dy * dy, 200_000i128 * 200_000);
    // and it lies on the ray through the candidate
    assert_eq!(adjusted.x as i128 * candidate.y as i128,
        adjusted.y as i128 * candidate.x as i128);
}

#[test]
fn size_scale_is_exact_in_milli() {
    let s = Size::new(128_000, 64_000);
    let scaled = s.scale(600);
    assert_eq!(scaled.width, 76_800);
    assert_eq!(scaled.height, 38_400);
}

#[test]
fn size_random_coordinates_stay_in_bounds() {
    let s = Size::new(50, 70);
    for _ in 0..100 {
        let x = s.random_x();
        let y = s.random_y();
        assert!((0..50).contains(&x));
        assert!((0..70).contains(&y));
    }
}

#[test]
fn vector_random_stays_in_bounds_with_zero_direction() {
    let s = Size::new(40, 30);
    for _ in 0..50 {
        let v = Vector::random(s);
        assert!((0..40).contains(&v.position.x));
        assert!((0..30).contains(&v.position.y));
        assert_eq!(v.direction, 0);
        assert_eq!(v.speed, 1000);
    }
}

#[test]
fn positionable_accessors_read_and_write_the_coordinates() {
    let mut player = Player::new(Point::new(10, 20));
    assert_eq!(player.x(), 10);
    assert_eq!(player.y(), 20);
    assert_eq!(player.position(), Point::new(10, 20));

    *player.x_mut() = 33;
    *player.y_mut() = 44;
    assert_eq!(player.position(), Point::new(33, 44));
    assert!(player.is_dead);

    let mut enemy = Enemy::new(Point::new(1, 2));
    *enemy.x_mut() += 10;
    assert_eq!(enemy.position(), Point::new(11, 2));
}
