use orchid::entities::{
    boss_damage, within_radius, Bullet, BulletSprite, BulletType, Heading, Point, Possession,
    Ship, ShipRole, ShipSprite,
};
use orchid::states::InputState;

#[test]
fn new_bullet_starts_ahead_of_its_ship() {
    let b = Bullet::new(Possession::Player, Heading::up(), Point { x: 400000, y: 500000 }, BulletType::Normal);
    assert_eq!(b.pos, Point { x: 400000, y: 480000 });
    assert!(!b.hit);
    let e = Bullet::new(Possession::Enemy, Heading::down(), Point { x: 400000, y: 50000 }, BulletType::Normal);
    assert_eq!(e.pos, Point { x: 400000, y: 70000 });
}

#[test]
fn bullet_speeds() {
    let mut n = Bullet::new(Possession::Player, Heading::up(), Point { x: 0, y: 500000 }, BulletType::Normal);
    n.update_pos(100);
    assert_eq!(n.pos, Point { x: 0, y: 430000 });
    let mut s = Bullet::new(Possession::Player, Heading::up(), Point { x: 0, y: 500000 }, BulletType::Special);
    s.update_pos(100);
    assert_eq!(s.pos, Point { x: 0, y: 455000 });
    let mut d = Bullet::new(Possession::Enemy, Heading { sin: -707, cos: -707 }, Point { x: 0, y: 0 }, BulletType::Normal);
    d.update_pos(10);
    // x moves by -707 * 10 * 500 / 1000, y by +707 * 10 * 500 / 1000, after the spawn offset
    assert_eq!(d.pos, Point { x: -3535, y: 14140 + 3535 });
}

#[test]
fn rotation_by_an_eighth_turn() {
    let h = Heading::down().rotate(Heading { sin: 707, cos: 707 });
    assert_eq!(h, Heading { sin: -707, cos: -707 });
    let h = Heading::down().rotate(Heading { sin: -707, cos: 707 });
    assert_eq!(h, Heading { sin: 707, cos: -707 });
}

#[test]
fn heading_from_sine() {
    assert_eq!(Heading::from_sine(0), Heading { sin: 0, cos: 1000 });
    assert_eq!(Heading::from_sine(707), Heading { sin: 707, cos: 707 });
    assert_eq!(Heading::from_sine(-600), Heading { sin: -600, cos: 800 });
    assert_eq!(Heading::from_sine(1000), Heading { sin: 1000, cos: 0 });
}

#[test]
fn shoot_with_and_without_curve() {
    let boss = Ship::with_id(Possession::Enemy, 1);
    let straight = boss.shoot(None, BulletType::Special);
    assert_eq!(straight.bullet_type, BulletType::Special);
    assert_eq!(straight.heading, Heading::down());
    let curved = boss.shoot(Some(Heading { sin: 707, cos: 707 }), BulletType::Special);
    assert_eq!(curved.bullet_type, BulletType::Normal);
    assert_eq!(curved.heading, Heading { sin: -707, cos: -707 });
    assert_eq!(curved.possession, Possession::Enemy);
}

#[test]
fn spawn_and_reset() {
    let mut p = Ship::with_id(Possession::Player, 9);
    assert_eq!(p.health, 1000);
    assert_eq!(p.pos, Point { x: 400000, y: 500000 });
    assert_eq!(p.direction, None);
    p.health = -500;
    p.shield = true;
    p.pos = Point { x: 1, y: 1 };
    p.reset();
    assert_eq!(p, Ship::with_id(Possession::Player, 9));
    let mut b = Ship::with_id(Possession::Enemy, 10);
    b.direction = Some(-1);
    b.health = 3;
    b.reset();
    assert_eq!(b, Ship::with_id(Possession::Enemy, 10));
}

#[test]
fn fresh_ships_have_distinct_identities() {
    let a = Ship::new(Possession::Player);
    let b = Ship::new(Possession::Player);
    assert_ne!(a.id, b.id);
    assert_eq!(a, Ship::with_id(Possession::Player, a.id));
}

fn input() -> InputState {
    InputState::new()
}

#[test]
fn ship_moves_by_input() {
    let mut s = Ship::with_id(Possession::Player, 1);
    let mut i = input();
    i.up = true;
    i.right = true;
    assert!(s.update_pos(100, &i, 800000, 600000));
    assert_eq!(s.pos, Point { x: 435000, y: 465000 });
    assert!(!s.update_pos(100, &input(), 800000, 600000));
}

#[test]
fn ship_stays_at_the_border() {
    let mut s = Ship::with_id(Possession::Player, 1);
    s.pos = Point { x: 19999, y: 10000 };
    let mut i = input();
    i.up = true;
    i.left = true;
    assert!(!s.update_pos(16, &i, 800000, 600000));
    assert_eq!(s.pos, Point { x: 19999, y: 10000 });
}

#[test]
fn dead_ship_does_not_move() {
    let mut s = Ship::with_id(Possession::Player, 1);
    s.health = -1;
    let mut i = input();
    i.down = true;
    assert!(!s.update_pos(100, &i, 800000, 600000));
    assert_eq!(s.pos, Point { x: 400000, y: 500000 });
}

#[test]
fn boss_oscillates_between_borders() {
    let mut b = Ship::with_id(Possession::Enemy, 1);
    b.oscillate(100, 800000);
    assert_eq!(b.pos.x, 412500);
    b.pos.x = 790000;
    b.oscillate(100, 800000);
    assert_eq!(b.direction, Some(-1));
    assert_eq!(b.pos.x, 777500);
    b.pos.x = 10000;
    b.oscillate(100, 800000);
    assert_eq!(b.direction, Some(1));
    assert_eq!(b.pos.x, 22500);
}

#[test]
fn oscillation_without_direction_at_a_border() {
    let mut b = Ship::with_id(Possession::Player, 1);
    b.pos.x = 5000;
    b.oscillate(100, 800000);
    assert_eq!(b.direction, Some(1));
    assert_eq!(b.pos.x, 17500);
}

#[test]
fn enemy_bullet_damage() {
    let mut s = Ship::with_id(Possession::Player, 1);
    s.hit_by_enemy_bullet();
    assert_eq!(s.health, -1000);
    let mut shielded = Ship::with_id(Possession::Player, 2);
    shielded.shield = true;
    shielded.hit_by_enemy_bullet();
    assert_eq!(shielded.health, 1000);
}

#[test]
fn player_bullet_damage() {
    let mut b = Ship::with_id(Possession::Enemy, 1);
    b.hit_by_player_bullet(BulletType::Normal);
    assert_eq!(b.health, 0);
    b.hit_by_player_bullet(BulletType::Special);
    assert_eq!(b.health, -5000);
    assert_eq!(boss_damage(BulletType::Normal), 1000);
    assert_eq!(boss_damage(BulletType::Special), 5000);
}

#[test]
fn damage_saturates_at_lowest_health() {
    let mut b = Ship::with_id(Possession::Enemy, 1);
    b.health = i32::MIN + 10;
    b.hit_by_player_bullet(BulletType::Special);
    assert_eq!(b.health, i32::MIN);
}

#[test]
fn radius_is_strict() {
    let c = Point { x: 0, y: 0 };
    assert!(within_radius(Point { x: 23999, y: 0 }, c, 24000));
    assert!(!within_radius(Point { x: 24000, y: 0 }, c, 24000));
    assert!(within_radius(Point { x: 16970, y: 16970 }, c, 24000));
    assert!(!within_radius(Point { x: 16971, y: 16971 }, c, 24000));
    assert!(!within_radius(Point { x: i32::MIN, y: i32::MAX }, Point { x: i32::MAX, y: i32::MIN }, 24000));
}

#[test]
fn sprites() {
    let mut p = Ship::with_id(Possession::Player, 1);
    assert_eq!(p.sprite(ShipRole::LocalPlayer), ShipSprite::LocalPlayer);
    assert_eq!(p.sprite(ShipRole::RemotePlayer), ShipSprite::RemotePlayer);
    p.shield = true;
    assert_eq!(p.sprite(ShipRole::LocalPlayer), ShipSprite::Shielded);
    p.health = -1;
    assert_eq!(p.sprite(ShipRole::RemotePlayer), ShipSprite::Dead);
    assert_eq!(Ship::with_id(Possession::Enemy, 2).sprite(ShipRole::Boss), ShipSprite::Boss);
    let b = Ship::with_id(Possession::Player, 1).shoot(None, BulletType::Special);
    assert_eq!(b.sprite(), BulletSprite::PlayerSpecial);
    let e = Ship::with_id(Possession::Enemy, 1).shoot(None, BulletType::Normal);
    assert_eq!(e.sprite(), BulletSprite::Enemy);
}
