//! Ships and bullets, in a fixed-point model.
//!
//! Lengths are in thousandths of a pixel, so that a speed in pixels per second is
//! also a distance in those units per millisecond. Health is in thousandths of a
//! point. A facing angle is held as its sine and cosine, in thousandths: angle 0
//! (sine 0, cosine 1000) points up the screen, a half turn points down.
use vstd::prelude::*;

use crate::states::InputState;

verus! {

/// Speed of a player ship, in pixels per second.
pub const SHIP_SPEED: u64 = 350;

/// Horizontal speed of the boss when it oscillates, in pixels per second.
pub const BOSS_SPEED: u64 = 125;

/// Speed of a normal bullet, in pixels per second.
pub const BULLET_SPEED: u64 = 500;

/// Speed of a special bullet, in pixels per second.
pub const SPECIAL_BULLET_SPEED: u64 = 250;

/// Margin kept between a ship and the edge of the screen, in thousandths of a pixel.
pub const SCREEN_BORDER: i32 = 20000;

/// Health of a player ship at spawn.
pub const PLAYER_HEALTH: i32 = 1000;

/// Health of the boss at spawn.
pub const BOSS_HEALTH: i32 = 1000;

/// Damage a boss bullet deals to an unshielded player ship.
pub const ENEMY_BULLET_DAMAGE: i32 = 2000;

/// Damage a normal player bullet deals to the boss.
pub const NORMAL_BULLET_DAMAGE: i32 = 1000;

/// Damage a special player bullet deals to the boss.
pub const SPECIAL_BULLET_DAMAGE: i32 = 5000;

/// Distance in pixels a new bullet is moved forward, so that it starts ahead of its ship.
pub const BULLET_SPAWN_OFFSET: i32 = 20;

pub const PLAYER_SPAWN_X: i32 = 400000;

pub const PLAYER_SPAWN_Y: i32 = 500000;

pub const BOSS_SPAWN_X: i32 = 400000;

pub const BOSS_SPAWN_Y: i32 = 50000;

/// Which faction an entity belongs to: the players or the boss.
#[derive(Clone, Copy, Debug, PartialEq, Eq, Structural)]
pub enum Possession {
    Player,
    Enemy,
}

/// The two kinds of bullet; they differ only in speed and damage.
#[derive(Clone, Copy, Debug, PartialEq, Eq, Structural)]
pub enum BulletType {
    Normal,
    Special,
}

/// A position, in thousandths of a pixel.
#[derive(Clone, Copy, Debug, PartialEq, Eq, Structural)]
pub struct Point {
    pub x: i32,
    pub y: i32,
}

/// A facing angle, as its sine and cosine in thousandths.
#[derive(Clone, Copy, Debug, PartialEq, Eq, Structural)]
pub struct Heading {
    pub sin: i16,
    pub cos: i16,
}

#[derive(Clone, Copy, Debug, PartialEq, Eq, Structural)]
pub struct Bullet {
    pub possession: Possession,
    pub heading: Heading,
    pub pos: Point,
    pub hit: bool,
    pub bullet_type: BulletType,
}

#[derive(Clone, Copy, Debug, PartialEq, Eq, Structural)]
pub struct Ship {
    pub health: i32,
    pub ship_type: Possession,
    pub pos: Point,
    pub heading: Heading,
    /// Horizontal direction of oscillation (1 or -1); the boss has one, players none.
    pub direction: Option<i8>,
    pub shield: bool,
    pub id: u128,
}

/// How a ship appears on screen.
#[derive(Clone, Copy, Debug, PartialEq, Eq, Structural)]
pub enum ShipSprite {
    LocalPlayer,
    RemotePlayer,
    Shielded,
    Dead,
    Boss,
}

/// Whose ship is drawn: this node's player, the boss, or a replica of another node's player.
#[derive(Clone, Copy, Debug, PartialEq, Eq, Structural)]
pub enum ShipRole {
    LocalPlayer,
    Boss,
    RemotePlayer,
}

/// How a bullet appears on screen.
#[derive(Clone, Copy, Debug, PartialEq, Eq, Structural)]
pub enum BulletSprite {
    PlayerNormal,
    PlayerSpecial,
    Enemy,
}

/// The value nearest to `v` that an `i32` can hold.
pub open spec fn clamp32(v: int) -> i32 {
    if v < i32::MIN {
        i32::MIN
    } else if v > i32::MAX {
        i32::MAX
    } else {
        v as i32
    }
}

/// The value nearest to `v` that an `i16` can hold.
pub open spec fn clamp16(v: int) -> i16 {
    if v < i16::MIN {
        i16::MIN
    } else if v > i16::MAX {
        i16::MAX
    } else {
        v as i16
    }
}

/// Division by a positive `d` that rounds toward zero.
pub open spec fn tdiv(a: int, d: int) -> int {
    if a >= 0 {
        a / d
    } else {
        -((-a) / d)
    }
}

fn clamp_to_i32(v: i64) -> (r: i32)
    ensures
        r == clamp32(v as int),
{
    if v < i32::MIN as i64 {
        i32::MIN
    } else if v > i32::MAX as i64 {
        i32::MAX
    } else {
        v as i32
    }
}

fn clamp_to_i16(v: i64) -> (r: i16)
    ensures
        r == clamp16(v as int),
{
    if v < i16::MIN as i64 {
        i16::MIN
    } else if v > i16::MAX as i64 {
        i16::MAX
    } else {
        v as i16
    }
}

/// `h * dt * speed / 1000`, rounded toward zero: how far a component of a heading
/// carries in `dt` milliseconds at `speed` pixels per second.
fn scaled_step(h: i16, dt: u32, speed: u64) -> (r: i64)
    requires
        speed <= 1000,
    ensures
        r == tdiv(h * dt * speed, 1000),
        -140737488355328 <= r <= 140737488355328,
{
    let mag: u64 = if h >= 0 {
        h as u64
    } else {
        (-(h as i64)) as u64
    };
    assert(mag * dt <= 32768 * 0xffff_ffff) by (nonlinear_arith)
        requires
            mag <= 32768,
            dt <= 0xffff_ffff,
    ;
    assert(mag * dt * speed <= 32768 * 0xffff_ffff * 1000) by (nonlinear_arith)
        requires
            mag * dt <= 32768 * 0xffff_ffff,
            speed <= 1000,
    ;
    let q: u64 = mag * (dt as u64) * speed / 1000;
    assert(q <= 140737488355328);
    if h >= 0 {
        assert(h * dt * speed == mag * dt * speed);
        q as i64
    } else {
        assert(h * dt * speed == -(mag * dt * speed)) by (nonlinear_arith)
            requires
                h == -mag,
        ;
        -(q as i64)
    }
}

pub open spec fn spec_bullet_speed(t: BulletType) -> u64 {
    match t {
        BulletType::Normal => BULLET_SPEED,
        BulletType::Special => SPECIAL_BULLET_SPEED,
    }
}

pub open spec fn spec_boss_damage(t: BulletType) -> i32 {
    match t {
        BulletType::Normal => NORMAL_BULLET_DAMAGE,
        BulletType::Special => SPECIAL_BULLET_DAMAGE,
    }
}

/// Damage a player bullet of kind `t` deals to the boss.
pub fn boss_damage(t: BulletType) -> (r: i32)
    ensures
        r == spec_boss_damage(t),
{
    match t {
        BulletType::Normal => NORMAL_BULLET_DAMAGE,
        BulletType::Special => SPECIAL_BULLET_DAMAGE,
    }
}

/// `h` turned further by the angle `c`, by the angle-sum formulas.
pub open spec fn spec_rotate(h: Heading, c: Heading) -> Heading {
    Heading {
        sin: clamp16(tdiv(h.sin * c.cos + h.cos * c.sin, 1000)),
        cos: clamp16(tdiv(h.cos * c.cos - h.sin * c.sin, 1000)),
    }
}

proof fn lemma_i16_product(a: i16, b: i16)
    ensures
        -1073741824 <= a * b <= 1073741824,
{
    assert(-1073741824 <= a * b <= 1073741824) by (nonlinear_arith)
        requires
            -32768 <= a <= 32767,
            -32768 <= b <= 32767,
    ;
}

fn tdiv_1000(a: i64) -> (r: i64)
    ensures
        r == tdiv(a as int, 1000),
{
    if a >= 0 {
        a / 1000
    } else {
        let m: u64 = if a == i64::MIN {
            (i64::MAX as u64) + 1
        } else {
            (-a) as u64
        };
        let q: u64 = m / 1000;
        -(q as i64)
    }
}

impl Heading {
    /// Facing up the screen: the players' heading.
    pub open spec fn spec_up() -> Heading {
        Heading { sin: 0, cos: 1000 }
    }

    /// Facing down the screen: the boss's heading.
    pub open spec fn spec_down() -> Heading {
        Heading { sin: 0, cos: -1000i16 }
    }

    pub fn up() -> (r: Heading)
        ensures
            r == Heading::spec_up(),
    {
        Heading { sin: 0, cos: 1000 }
    }

    pub fn down() -> (r: Heading)
        ensures
            r == Heading::spec_down(),
    {
        Heading { sin: 0, cos: -1000 }
    }

    /// The heading turned by the angle `c`.
    pub fn rotate(self, c: Heading) -> (r: Heading)
        ensures
            r == spec_rotate(self, c),
    {
        proof {
            lemma_i16_product(self.sin, c.cos);
            lemma_i16_product(self.cos, c.sin);
            lemma_i16_product(self.cos, c.cos);
            lemma_i16_product(self.sin, c.sin);
        }
        let s = self.sin as i64 * c.cos as i64 + self.cos as i64 * c.sin as i64;
        let k = self.cos as i64 * c.cos as i64 - self.sin as i64 * c.sin as i64;
        Heading { sin: clamp_to_i16(tdiv_1000(s)), cos: clamp_to_i16(tdiv_1000(k)) }
    }

    /// The heading whose sine is `s`, with a cosine of at least zero: the cosine
    /// is the integer square root of `1000000 - s * s`.
    pub fn from_sine(s: i16) -> (r: Heading)
        requires
            -1000 <= s <= 1000,
        ensures
            r.sin == s,
            r.cos >= 0,
            r.cos * r.cos <= 1000000 - s * s < (r.cos + 1) * (r.cos + 1),
    {
        assert(0 <= s * s <= 1000000) by (nonlinear_arith)
            requires
                -1000 <= s <= 1000,
        ;
        let n: u32 = (1000000i64 - s as i64 * s as i64) as u32;
        let mut c: u32 = 0;
        assert((c + 1) * (c + 1) <= 1002001);
        while (c + 1) * (c + 1) <= n
            invariant
                n <= 1000000,
                c <= 1000,
                c * c <= n,
                (c + 1) * (c + 1) <= 1002001,
            decreases 1000 - c,
        {
            assert((c + 1) <= 1000) by (nonlinear_arith)
                requires
                    (c + 1) * (c + 1) <= n,
                    n <= 1000000,
            ;
            c = c + 1;
            assert((c + 1) * (c + 1) <= 1002001) by (nonlinear_arith)
                requires
                    c <= 1000,
            ;
        }
        Heading { sin: s, cos: c as i16 }
    }
}

impl Bullet {
    /// A new bullet fired at `pos` with the given heading, moved forward by the
    /// spawn offset so that it does not start on top of its ship.
    pub open spec fn spec_new(
        possession: Possession,
        heading: Heading,
        pos: Point,
        bullet_type: BulletType,
    ) -> Bullet {
        Bullet {
            possession,
            heading,
            pos: Point { x: pos.x, y: clamp32(pos.y - heading.cos * BULLET_SPAWN_OFFSET) },
            hit: false,
            bullet_type,
        }
    }

    pub fn new(possession: Possession, heading: Heading, pos: Point, bullet_type: BulletType) -> (r:
        Bullet)
        ensures
            r == Bullet::spec_new(possession, heading, pos, bullet_type),
    {
        let y = clamp_to_i32(pos.y as i64 - heading.cos as i64 * BULLET_SPAWN_OFFSET as i64);
        Bullet { possession, heading, pos: Point { x: pos.x, y }, hit: false, bullet_type }
    }

    /// Where the bullet is `dt` milliseconds later.
    pub open spec fn spec_advanced(self, dt: u32) -> Point {
        let speed = spec_bullet_speed(self.bullet_type);
        Point {
            x: clamp32(self.pos.x + tdiv(self.heading.sin * dt * speed, 1000)),
            y: clamp32(self.pos.y - tdiv(self.heading.cos * dt * speed, 1000)),
        }
    }

    /// Moves the bullet along its heading for `dt` milliseconds.
    pub fn update_pos(&mut self, dt: u32)
        ensures
            *final(self) == (Bullet { pos: old(self).spec_advanced(dt), ..*old(self) }),
    {
        let speed: u64 = match self.bullet_type {
            BulletType::Normal => BULLET_SPEED,
            BulletType::Special => SPECIAL_BULLET_SPEED,
        };
        let dx = scaled_step(self.heading.sin, dt, speed);
        let dy = scaled_step(self.heading.cos, dt, speed);
        self.pos.x = clamp_to_i32(self.pos.x as i64 + dx);
        self.pos.y = clamp_to_i32(self.pos.y as i64 - dy);
    }

    /// The sprite the bullet is drawn with.
    pub fn sprite(&self) -> (r: BulletSprite)
        ensures
            r == (match self.possession {
                Possession::Enemy => BulletSprite::Enemy,
                Possession::Player => match self.bullet_type {
                    BulletType::Normal => BulletSprite::PlayerNormal,
                    BulletType::Special => BulletSprite::PlayerSpecial,
                },
            }),
    {
        match self.possession {
            Possession::Enemy => BulletSprite::Enemy,
            Possession::Player => match self.bullet_type {
                BulletType::Normal => BulletSprite::PlayerNormal,
                BulletType::Special => BulletSprite::PlayerSpecial,
            },
        }
    }
}

/// Relies on uuid's `Uuid::new_v4`: a random identity, taken as its 128-bit value
/// by `Uuid::as_u128`. Nothing is promised of the value; `new_v4` panics only when
/// the system's random source fails.
#[verifier::external_body]
fn new_ship_id() -> (r: u128) {
    uuid::Uuid::new_v4().as_u128()
}

/// Whether `a` lies strictly closer than `r` to `b`.
pub open spec fn spec_within(a: Point, b: Point, r: int) -> bool {
    (a.x - b.x) * (a.x - b.x) + (a.y - b.y) * (a.y - b.y) < r * r
}

/// Whether `a` lies strictly closer than `r` to `b`, compared on squared
/// distances so that no root is taken.
pub fn within_radius(a: Point, b: Point, r: i32) -> (res: bool)
    requires
        r >= 0,
    ensures
        res == spec_within(a, b, r as int),
{
    let dx: i64 = a.x as i64 - b.x as i64;
    let dy: i64 = a.y as i64 - b.y as i64;
    let ax: i64 = if dx < 0 { -dx } else { dx };
    let ay: i64 = if dy < 0 { -dy } else { dy };
    if ax >= r as i64 || ay >= r as i64 {
        assert(!spec_within(a, b, r as int)) by (nonlinear_arith)
            requires
                ax >= r || ay >= r,
                ax == dx || ax == -dx,
                ay == dy || ay == -dy,
                ax >= 0,
                ay >= 0,
                r >= 0,
                dx == a.x - b.x,
                dy == a.y - b.y,
        ;
        false
    } else {
        assert(ax * ax < r * r && ay * ay < r * r && dx * dx == ax * ax && dy * dy == ay * ay)
            by (nonlinear_arith)
            requires
                0 <= ax < r,
                0 <= ay < r,
                ax == dx || ax == -dx,
                ay == dy || ay == -dy,
        ;
        assert(r * r <= 0x7fff_ffff * 0x7fff_ffff) by (nonlinear_arith)
            requires
                0 <= r <= 0x7fff_ffff,
        ;
        ax * ax + ay * ay < r as i64 * r as i64
    }
}

impl Ship {
    /// A ship of the given faction at its spawn point, with the given identity.
    pub open spec fn spec_spawned(ship_type: Possession, id: u128) -> Ship {
        match ship_type {
            Possession::Player => Ship {
                health: PLAYER_HEALTH,
                ship_type,
                pos: Point { x: PLAYER_SPAWN_X, y: PLAYER_SPAWN_Y },
                heading: Heading::spec_up(),
                direction: None,
                shield: false,
                id,
            },
            Possession::Enemy => Ship {
                health: BOSS_HEALTH,
                ship_type,
                pos: Point { x: BOSS_SPAWN_X, y: BOSS_SPAWN_Y },
                heading: Heading::spec_down(),
                direction: Some(1),
                shield: false,
                id,
            },
        }
    }

    /// A new ship with a fresh random identity.
    pub fn new(ship_type: Possession) -> (r: Ship)
        ensures
            r == Ship::spec_spawned(ship_type, r.id),
    {
        Ship::with_id(ship_type, new_ship_id())
    }

    /// A new ship with the given identity.
    pub fn with_id(ship_type: Possession, id: u128) -> (r: Ship)
        ensures
            r == Ship::spec_spawned(ship_type, id),
    {
        match ship_type {
            Possession::Player => Ship {
                health: PLAYER_HEALTH,
                ship_type,
                pos: Point { x: PLAYER_SPAWN_X, y: PLAYER_SPAWN_Y },
                heading: Heading::up(),
                direction: None,
                shield: false,
                id,
            },
            Possession::Enemy => Ship {
                health: BOSS_HEALTH,
                ship_type,
                pos: Point { x: BOSS_SPAWN_X, y: BOSS_SPAWN_Y },
                heading: Heading::down(),
                direction: Some(1),
                shield: false,
                id,
            },
        }
    }

    /// The ship back at spawn: health, position and shield as at creation (and, for
    /// the boss, its direction); identity, faction and heading kept.
    pub open spec fn spec_reset(self) -> Ship {
        match self.ship_type {
            Possession::Player => Ship {
                health: PLAYER_HEALTH,
                pos: Point { x: PLAYER_SPAWN_X, y: PLAYER_SPAWN_Y },
                shield: false,
                ..self
            },
            Possession::Enemy => Ship {
                health: BOSS_HEALTH,
                pos: Point { x: BOSS_SPAWN_X, y: BOSS_SPAWN_Y },
                shield: false,
                direction: Some(1),
                ..self
            },
        }
    }

    pub fn reset(&mut self)
        ensures
            *final(self) == old(self).spec_reset(),
    {
        match self.ship_type {
            Possession::Player => {
                self.health = PLAYER_HEALTH;
                self.pos = Point { x: PLAYER_SPAWN_X, y: PLAYER_SPAWN_Y };
                self.shield = false;
            },
            Possession::Enemy => {
                self.health = BOSS_HEALTH;
                self.pos = Point { x: BOSS_SPAWN_X, y: BOSS_SPAWN_Y };
                self.shield = false;
                self.direction = Some(1);
            },
        }
    }

    pub fn move_to_point(&mut self, p: Point)
        ensures
            *final(self) == (Ship { pos: p, ..*old(self) }),
    {
        self.pos = p;
    }

    /// The bullet this ship fires. With a curve, the bullet leaves at the ship's
    /// heading turned by the curve and is always normal; without, it leaves straight
    /// ahead, of the kind asked.
    pub open spec fn spec_shoot(self, curve: Option<Heading>, bullet_type: BulletType) -> Bullet {
        match curve {
            Some(c) => Bullet::spec_new(
                self.ship_type,
                spec_rotate(self.heading, c),
                self.pos,
                BulletType::Normal,
            ),
            None => Bullet::spec_new(self.ship_type, self.heading, self.pos, bullet_type),
        }
    }

    pub fn shoot(&self, curve: Option<Heading>, bullet_type: BulletType) -> (r: Bullet)
        ensures
            r == self.spec_shoot(curve, bullet_type),
    {
        match curve {
            Some(c) => {
                let h = self.heading.rotate(c);
                Bullet::new(self.ship_type, h, self.pos, BulletType::Normal)
            },
            None => Bullet::new(self.ship_type, self.heading, self.pos, bullet_type),
        }
    }

    /// Where input moves a live ship in `dt` milliseconds: vertical intents first (up,
    /// then down), then horizontal ones (right, then left); each applies only while
    /// the ship is within the screen border on that side.
    pub open spec fn spec_moved(
        pos: Point,
        dt: u32,
        input: InputState,
        width: i32,
        height: i32,
    ) -> Point {
        let step = dt * SHIP_SPEED;
        let y1 = if input.up && pos.y >= SCREEN_BORDER {
            clamp32(pos.y - step)
        } else {
            pos.y
        };
        let y2 = if input.down && y1 <= height - SCREEN_BORDER {
            clamp32(y1 + step)
        } else {
            y1
        };
        let x1 = if input.right && pos.x <= width - SCREEN_BORDER {
            clamp32(pos.x + step)
        } else {
            pos.x
        };
        let x2 = if input.left && x1 >= SCREEN_BORDER {
            clamp32(x1 - step)
        } else {
            x1
        };
        Point { x: x2, y: y2 }
    }

    /// Moves the ship by the input for `dt` milliseconds, on a screen of the given size;
    /// a dead ship stays. Returns whether the ship moved.
    pub fn update_pos(
        &mut self,
        dt: u32,
        input_state: &InputState,
        width: i32,
        height: i32,
    ) -> (moved: bool)
        ensures
            old(self).health < 0 ==> *final(self) == *old(self) && !moved,
            old(self).health >= 0 ==> *final(self) == (Ship {
                pos: Ship::spec_moved(old(self).pos, dt, *input_state, width, height),
                ..*old(self)
            }),
            moved == (final(self).pos != old(self).pos),
    {
        let old_pos = self.pos;
        if self.health < 0 {
            return false;
        }
        let step: i64 = dt as i64 * SHIP_SPEED as i64;
        if input_state.up && self.pos.y >= SCREEN_BORDER {
            self.pos.y = clamp_to_i32(self.pos.y as i64 - step);
        }
        if input_state.down && self.pos.y as i64 <= height as i64 - SCREEN_BORDER as i64 {
            self.pos.y = clamp_to_i32(self.pos.y as i64 + step);
        }
        if input_state.right && self.pos.x as i64 <= width as i64 - SCREEN_BORDER as i64 {
            self.pos.x = clamp_to_i32(self.pos.x as i64 + step);
        }
        if input_state.left && self.pos.x >= SCREEN_BORDER {
            self.pos.x = clamp_to_i32(self.pos.x as i64 - step);
        }
        self.pos.x != old_pos.x || self.pos.y != old_pos.y
    }

    /// The boss's sweep for `dt` milliseconds: it turns right at the left border,
    /// left at the right border, and moves at the boss speed along its direction.
    pub open spec fn spec_oscillated(self, dt: u32, width: i32) -> Ship {
        let d: i8 = if self.pos.x <= SCREEN_BORDER {
            1
        } else if self.pos.x >= width - SCREEN_BORDER {
            -1i8
        } else {
            self.direction.unwrap()
        };
        Ship {
            direction: Some(d),
            pos: Point { x: clamp32(self.pos.x + dt * BOSS_SPEED * d), ..self.pos },
            ..self
        }
    }

    pub fn oscillate(&mut self, dt: u32, width: i32)
        requires
            old(self).direction is Some || old(self).pos.x <= SCREEN_BORDER || old(self).pos.x
                >= width - SCREEN_BORDER,
        ensures
            *final(self) == old(self).spec_oscillated(dt, width),
    {
        if self.pos.x <= SCREEN_BORDER {
            self.direction = Some(1);
        } else if self.pos.x as i64 >= width as i64 - SCREEN_BORDER as i64 {
            self.direction = Some(-1);
        }
        let d: i8 = match self.direction {
            Some(d) => d,
            None => 1,
        };
        assert(-0x7fff_ffff_ffff <= dt * 125 * d <= 0x7fff_ffff_ffff) by (nonlinear_arith)
            requires
                0 <= dt <= 0xffff_ffff,
                -128 <= d <= 127,
        ;
        let shift: i64 = dt as i64 * BOSS_SPEED as i64 * d as i64;
        self.pos.x = clamp_to_i32(self.pos.x as i64 + shift);
    }

    /// The ship after a boss bullet reached it: a shield absorbs the hit, otherwise
    /// the ship loses the enemy bullet damage.
    pub open spec fn spec_hit_by_enemy_bullet(self) -> Ship {
        if self.shield {
            self
        } else {
            Ship { health: clamp32(self.health - ENEMY_BULLET_DAMAGE), ..self }
        }
    }

    pub fn hit_by_enemy_bullet(&mut self)
        ensures
            *final(self) == old(self).spec_hit_by_enemy_bullet(),
            !old(self).shield && old(self).health >= i32::MIN + ENEMY_BULLET_DAMAGE
                ==> final(self).health == old(self).health - 2000,
            old(self).shield ==> final(self).health == old(self).health,
    {
        if !self.shield {
            self.health = clamp_to_i32(self.health as i64 - ENEMY_BULLET_DAMAGE as i64);
        }
    }

    /// The boss after a player bullet of kind `t` reached it.
    pub open spec fn spec_hit_by_player_bullet(self, t: BulletType) -> Ship {
        Ship { health: clamp32(self.health - spec_boss_damage(t)), ..self }
    }

    pub fn hit_by_player_bullet(&mut self, t: BulletType)
        ensures
            *final(self) == old(self).spec_hit_by_player_bullet(t),
            old(self).health >= i32::MIN + SPECIAL_BULLET_DAMAGE
                ==> final(self).health == old(self).health - (match t {
                BulletType::Normal => 1000int,
                BulletType::Special => 5000int,
            }),
    {
        let d = boss_damage(t);
        self.health = clamp_to_i32(self.health as i64 - d as i64);
    }

    /// The sprite the ship is drawn with, in the given role.
    pub open spec fn spec_sprite(self, role: ShipRole) -> ShipSprite {
        match self.ship_type {
            Possession::Enemy => ShipSprite::Boss,
            Possession::Player => if self.health < 0 {
                ShipSprite::Dead
            } else if self.shield {
                ShipSprite::Shielded
            } else if role == ShipRole::LocalPlayer {
                ShipSprite::LocalPlayer
            } else {
                ShipSprite::RemotePlayer
            },
        }
    }

    pub fn sprite(&self, role: ShipRole) -> (r: ShipSprite)
        ensures
            r == self.spec_sprite(role),
    {
        match self.ship_type {
            Possession::Enemy => ShipSprite::Boss,
            Possession::Player => if self.health < 0 {
                ShipSprite::Dead
            } else if self.shield {
                ShipSprite::Shielded
            } else {
                match role {
                    ShipRole::LocalPlayer => ShipSprite::LocalPlayer,
                    _ => ShipSprite::RemotePlayer,
                }
            },
        }
    }
}

} // verus!
