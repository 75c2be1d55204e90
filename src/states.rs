//! The session of one node: its phase, the local player's input, the entities it
//! owns, and the steps of a tick.
use vstd::prelude::*;
use rand::Rng;

use crate::directory::{
    Outgoing, PeerDirectory, fan_out, reported_dead_all, updated_all, with_peer, with_ship,
};
use crate::entities::{
    Bullet, BulletType, Heading, Point, Possession, Ship, spec_within, within_radius,
    PLAYER_SPAWN_X, PLAYER_SPAWN_Y, BOSS_HEALTH, PLAYER_HEALTH,
};
use crate::network::{Datagram, Network, PeerAddr, ShipUpdate, Wrapper, decode, spec_decode};

verus! {

/// Radius around a player ship within which a boss bullet hits it, in thousandths of a pixel.
pub const PLAYER_HIT_RADIUS: i32 = 24000;

/// Radius around the boss within which a player bullet hits it, in thousandths of a pixel.
pub const BOSS_HIT_RADIUS: i32 = 40000;

/// The phase of a session.
#[derive(Clone, Copy, Debug, PartialEq, Eq, Structural)]
pub enum State {
    Playing,
    Won,
    Lost,
    Loading,
}

/// The player's intents, as held between key presses and releases.
#[derive(Clone, Copy, Debug, PartialEq, Eq, Structural)]
pub struct InputState {
    pub up: bool,
    pub down: bool,
    pub right: bool,
    pub left: bool,
    pub fire: bool,
    pub special: bool,
    pub shield: bool,
}

impl InputState {
    pub open spec fn spec_idle() -> InputState {
        InputState {
            up: false,
            down: false,
            right: false,
            left: false,
            fire: false,
            special: false,
            shield: false,
        }
    }

    /// No intent held.
    pub fn new() -> (r: InputState)
        ensures
            r == InputState::spec_idle(),
    {
        InputState {
            up: false,
            down: false,
            right: false,
            left: false,
            fire: false,
            special: false,
            shield: false,
        }
    }
}

// ---------------------------------------------------------------------------
// Collisions
// ---------------------------------------------------------------------------

/// Whether a boss bullet at `b` reaches the live ship `s`.
pub open spec fn reaches(b: Bullet, s: Ship) -> bool {
    spec_within(b.pos, s.pos, PLAYER_HIT_RADIUS as int) && s.health > 0
}

/// The first ship of `t`, from position `i` on, that the boss bullet `b` reaches;
/// -1 if none does.
pub open spec fn first_reached(b: Bullet, t: Seq<Ship>, i: int) -> int
    decreases t.len() - i,
{
    if i < 0 || i >= t.len() {
        -1
    } else if reaches(b, t[i]) {
        i
    } else {
        first_reached(b, t, i + 1)
    }
}

/// One bullet against the boss and the player ships `t` (the replicas, then the
/// local player). A boss bullet, while the boss lives, hits the first live ship it
/// reaches; a player bullet hits the boss when within its radius. A hit marks the
/// bullet and damages its target.
pub open spec fn collide_one(b: Bullet, enemy: Ship, t: Seq<Ship>) -> (Bullet, Ship, Seq<Ship>) {
    match b.possession {
        Possession::Enemy => {
            let i = first_reached(b, t, 0);
            if enemy.health > 0 && i >= 0 {
                (Bullet { hit: true, ..b }, enemy, t.update(i, t[i].spec_hit_by_enemy_bullet()))
            } else {
                (b, enemy, t)
            }
        },
        Possession::Player => {
            if spec_within(b.pos, enemy.pos, BOSS_HIT_RADIUS as int) {
                (Bullet { hit: true, ..b }, enemy.spec_hit_by_player_bullet(b.bullet_type), t)
            } else {
                (b, enemy, t)
            }
        },
    }
}

/// Damage of one hit: a boss bullet takes 2 points (2000 thousandths) from the
/// unshielded live ship it reaches and nothing from a shielded one; a player bullet
/// takes 1 point from the boss if normal and 5 if special.
pub proof fn lemma_hit_damage(b: Bullet, enemy: Ship, t: Seq<Ship>)
    ensures
        ({
            let (b2, e2, t2) = collide_one(b, enemy, t);
            let i = first_reached(b, t, 0);
            &&& b.possession == Possession::Enemy && enemy.health > 0 && i >= 0 ==> {
                &&& 0 <= i < t.len()
                &&& b2.hit
                &&& e2 == enemy
                &&& t2.len() == t.len()
                &&& !t[i].shield ==> t2[i].health == t[i].health - 2000
                &&& t[i].shield ==> t2[i].health == t[i].health
                &&& forall|k: int| 0 <= k < t.len() && k != i ==> t2[k] == t[k]
            }
            &&& b.possession == Possession::Player && spec_within(
                b.pos,
                enemy.pos,
                BOSS_HIT_RADIUS as int,
            ) && enemy.health >= i32::MIN + 5000 ==> {
                &&& b2.hit
                &&& t2 == t
                &&& e2.health == enemy.health - (if b.bullet_type == BulletType::Special {
                    5000int
                } else {
                    1000int
                })
            }
        }),
{
    let i = first_reached(b, t, 0);
    if b.possession == Possession::Enemy && enemy.health > 0 && i >= 0 {
        lemma_first_reached(b, t, 0);
    }
}

/// What `first_reached` finds is a live ship in range.
pub proof fn lemma_first_reached(b: Bullet, t: Seq<Ship>, i: int)
    requires
        0 <= i,
    ensures
        first_reached(b, t, i) >= 0 ==> i <= first_reached(b, t, i) < t.len() && reaches(
            b,
            t[first_reached(b, t, i)],
        ),
    decreases t.len() - i,
{
    if i < t.len() && !reaches(b, t[i]) {
        lemma_first_reached(b, t, i + 1);
    }
}

/// The first `n` bullets of `bs` taken in order against the boss and the ships `t`:
/// the bullets as they end, the boss, and the ships.
pub open spec fn collide_prefix(bs: Seq<Bullet>, enemy: Ship, t: Seq<Ship>, n: nat) -> (
    Seq<Bullet>,
    Ship,
    Seq<Ship>,
)
    decreases n,
{
    if n == 0 {
        (Seq::empty(), enemy, t)
    } else {
        let (done, e, ships) = collide_prefix(bs, enemy, t, (n - 1) as nat);
        let (b, e2, ships2) = collide_one(bs[n - 1], e, ships);
        (done.push(b), e2, ships2)
    }
}

/// The transitions a session may take in one step, where `restart` says whether a
/// restart was asked for in that step and `win` whether a win signal arrived:
/// staying; from loading to playing; from playing to won or lost; back to loading,
/// only on a restart; and to won, on a win signal. So won and lost are left only by
/// a restart or, for lost, a win signal, and neither ever goes back to playing.
pub open spec fn allowed_transition(from: State, to: State, restart: bool, win: bool) -> bool {
    ||| from == to
    ||| from == State::Loading && to == State::Playing
    ||| from == State::Playing && (to == State::Won || to == State::Lost)
    ||| restart && to == State::Loading
    ||| win && to == State::Won
}

/// `t` less `dt`, held at the smallest `i64`.
pub open spec fn countdown(t: i64, dt: u32) -> i64 {
    if t - dt < i64::MIN {
        i64::MIN
    } else {
        (t - dt) as i64
    }
}

/// `now + d`, held at the largest instant.
pub open spec fn later(now: u64, d: u64) -> u64 {
    if now + d > u64::MAX {
        u64::MAX
    } else {
        (now + d) as u64
    }
}

fn countdown_exec(t: i64, dt: u32) -> (r: i64)
    ensures
        r == countdown(t, dt),
{
    if t < i64::MIN + dt as i64 {
        i64::MIN
    } else {
        t - dt as i64
    }
}

fn later_exec(now: u64, d: u64) -> (r: u64)
    ensures
        r == later(now, d),
{
    if now > u64::MAX - d {
        u64::MAX
    } else {
        now + d
    }
}

/// The message a datagram holds, if any.
pub open spec fn received(inbound: Option<Datagram>) -> Option<Wrapper> {
    match inbound {
        Some(d) => spec_decode(d.bytes@),
        None => None,
    }
}

fn receive(inbound: &Option<Datagram>) -> (r: Option<Wrapper>)
    ensures
        r == received(*inbound),
{
    match inbound {
        Some(d) => match decode(d.bytes.as_slice()) {
            Ok(m) => Some(m),
            Err(_) => None,
        },
        None => None,
    }
}

/// What the host sends when `from` joins while `ps` are known: to the newcomer each
/// known address, and to each known address the newcomer's, in the order of `ps`.
pub open spec fn spec_relay(ps: Seq<PeerAddr>, from: PeerAddr) -> Seq<Outgoing>
    decreases ps.len(),
{
    if ps.len() == 0 {
        Seq::empty()
    } else {
        spec_relay(ps.drop_last(), from) + seq![
            Outgoing { to: from, message: Wrapper::AddressWrapper(ps.last()) },
            Outgoing { to: ps.last(), message: Wrapper::AddressWrapper(from) },
        ]
    }
}

/// The keys the session reacts to.
#[derive(Clone, Copy, Debug, PartialEq, Eq, Structural)]
pub enum Key {
    W,
    S,
    D,
    A,
    Space,
    J,
    K,
    R,
    Q,
    Other,
}

/// Whether `k` is one of the movement, fire, special or shield keys.
pub open spec fn is_action_key(k: Key) -> bool {
    match k {
        Key::W | Key::S | Key::D | Key::A | Key::Space | Key::J | Key::K => true,
        _ => false,
    }
}

/// The input with the intent of key `k` set to `v`.
pub open spec fn with_key(i: InputState, k: Key, v: bool) -> InputState {
    match k {
        Key::W => InputState { up: v, ..i },
        Key::S => InputState { down: v, ..i },
        Key::D => InputState { right: v, ..i },
        Key::A => InputState { left: v, ..i },
        Key::Space => InputState { fire: v, ..i },
        Key::J => InputState { special: v, ..i },
        Key::K => InputState { shield: v, ..i },
        _ => i,
    }
}

fn set_key(i: &mut InputState, k: Key, v: bool)
    ensures
        *final(i) == with_key(*old(i), k, v),
{
    match k {
        Key::W => i.up = v,
        Key::S => i.down = v,
        Key::D => i.right = v,
        Key::A => i.left = v,
        Key::Space => i.fire = v,
        Key::J => i.special = v,
        Key::K => i.shield = v,
        _ => {},
    }
}

/// Heading change of the boss's fixed diagonal shots: an eighth of a turn either way.
pub open spec fn spec_diagonal(left: bool) -> Heading {
    if left {
        Heading { sin: 707, cos: 707 }
    } else {
        Heading { sin: -707i16, cos: 707 }
    }
}

/// Whether a bullet is still on screen: only one strictly above the top edge or
/// strictly below the bottom edge has left it.
pub open spec fn on_screen(b: Bullet, height: i32) -> bool {
    0 <= b.pos.y <= height
}

/// Whether a bullet stays after a tick: on screen and not marked hit.
pub open spec fn kept(b: Bullet, height: i32) -> bool {
    on_screen(b, height) && !b.hit
}

/// The bullets `bs` after a tick of `dt` milliseconds on a screen `height` high: each
/// advanced along its heading, then those off screen or marked hit dropped, in order.
pub open spec fn advanced_kept(bs: Seq<Bullet>, dt: u32, height: i32) -> Seq<Bullet>
    decreases bs.len(),
{
    if bs.len() == 0 {
        Seq::empty()
    } else {
        let rest = advanced_kept(bs.drop_last(), dt, height);
        let b = Bullet { pos: bs.last().spec_advanced(dt), ..bs.last() };
        if kept(b, height) {
            rest.push(b)
        } else {
            rest
        }
    }
}

/// Pruning keeps exactly the bullets that are on screen and unhit after they move:
/// each of those is in the result, and everything in the result is such a bullet.
pub proof fn lemma_advanced_kept_members(bs: Seq<Bullet>, dt: u32, height: i32)
    ensures
        forall|i: int|
            #![trigger bs[i]]
            0 <= i < bs.len() && kept(Bullet { pos: bs[i].spec_advanced(dt), ..bs[i] }, height)
                ==> advanced_kept(bs, dt, height).contains(
                Bullet { pos: bs[i].spec_advanced(dt), ..bs[i] },
            ),
        forall|j: int|
            0 <= j < advanced_kept(bs, dt, height).len() ==> kept(
                #[trigger] advanced_kept(bs, dt, height)[j],
                height,
            ),
    decreases bs.len(),
{
    if bs.len() > 0 {
        let init = bs.drop_last();
        lemma_advanced_kept_members(init, dt, height);
        let rest = advanced_kept(init, dt, height);
        let last = Bullet { pos: bs.last().spec_advanced(dt), ..bs.last() };
        let r = advanced_kept(bs, dt, height);
        assert forall|i: int|
            #![trigger bs[i]]
            0 <= i < bs.len() && kept(Bullet { pos: bs[i].spec_advanced(dt), ..bs[i] }, height)
                implies r.contains(Bullet { pos: bs[i].spec_advanced(dt), ..bs[i] }) by {
            if i < init.len() {
                assert(init[i] == bs[i]);
                let x = Bullet { pos: bs[i].spec_advanced(dt), ..bs[i] };
                assert(rest.contains(x));
                let k = choose|k: int| 0 <= k < rest.len() && rest[k] == x;
                if kept(last, height) {
                    assert(r[k] == x);
                }
            } else {
                assert(r[r.len() - 1] == last);
            }
        }
        assert forall|j: int| 0 <= j < r.len() implies kept(#[trigger] r[j], height) by {
            if j < rest.len() {
                assert(r[j] == rest[j]);
            }
        }
    }
}

/// A bullet on the top or the bottom edge of the screen is kept, unless hit.
pub proof fn lemma_edge_bullet_kept(b: Bullet, height: i32)
    requires
        height >= 0,
        b.pos.y == 0 || b.pos.y == height,
        !b.hit,
    ensures
        kept(b, height),
{
}

/// Relies on rand's `thread_rng().gen_range(low, high)`: a value in `[low, high)`.
#[verifier::external_body]
fn random_in(low: i16, high: i16) -> (r: i16)
    requires
        low < high,
    ensures
        low <= r < high,
{
    rand::thread_rng().gen_range(low, high)
}

/// A random change of heading of at most an eighth of a turn either way.
fn random_curve() -> (r: Heading)
    ensures
        in_curve_range(r),
{
    Heading::from_sine(random_in(-707, 708))
}

/// What `MainState::move_player` does, from `o` to `n`, with the messages
/// queued growing from `oo` to `no`.
pub open spec fn spec_moved_player(
    o: MainState,
    n: MainState,
    oo: Seq<Outgoing>,
    no: Seq<Outgoing>,
    dt: u32,
    width: i32,
    height: i32,
) -> bool {
    &&& ({
        let ship = if o.player_ship.health < 0 {
            o.player_ship
        } else {
            Ship {
                pos: Ship::spec_moved(
                    o.player_ship.pos,
                    dt,
                    o.input_state,
                    width,
                    height,
                ),
                ..o.player_ship
            }
        };
        let moved = ship.pos != o.player_ship.pos;
        let t = countdown(o.broadcast_timer, dt);
        &&& n.player_ship == ship
        &&& if moved && t < 0 {
            &&& n.broadcast_timer == BROADCAST_TICK
            &&& no == oo + fan_out(
                o.directory.peers_view(),
                n.spec_own_update(ship.shield),
            )
        } else {
            &&& n.broadcast_timer == t
            &&& no == oo
        }
    })
    &&& n.enemy_ship == o.enemy_ship
    &&& n.directory.ships_view() == o.directory.ships_view()
    &&& n.bullets@ == o.bullets@
    &&& n.same_session(&o)
    &&& n.player_fire_delay == o.player_fire_delay
    &&& n.enemy_fire_delay == o.enemy_fire_delay
    &&& n.special_timer == o.special_timer
    &&& n.shield_timer == o.shield_timer
    &&& n.shield_active == o.shield_active
}

/// What `MainState::advance_bullets` does, from `o` to `n`.
pub open spec fn spec_advanced_bullets(
    o: MainState,
    n: MainState,
    dt: u32,
    height: i32,
) -> bool {
    &&& n.bullets@ == advanced_kept(o.bullets@, dt, height)
    &&& n.same_ships(&o)
    &&& n.same_timers(&o)
    &&& n.same_session(&o)
}

/// What `MainState::fire_weapons` does, from `o` to `n`, with the messages
/// queued growing from `oo` to `no`.
pub open spec fn spec_fired_weapons(
    o: MainState,
    n: MainState,
    oo: Seq<Outgoing>,
    no: Seq<Outgoing>,
    dt: u32,
    now: u64,
) -> bool {
    &&& ({
        let peers = o.directory.peers_view();
        let fire_now = now >= o.player_fire_delay && o.input_state.fire;
        let shoots = fire_now && (o.state == State::Playing || o.state
            == State::Won);
        let b1 = o.player_ship.spec_shoot(None, BulletType::Normal);
        let bs1 = if shoots {
            o.bullets@.push(b1)
        } else {
            o.bullets@
        };
        let out1 = if shoots {
            oo + fan_out(peers, Wrapper::BulletWrapper(b1))
        } else {
            oo
        };
        let st = countdown(o.special_timer, dt);
        let special = o.input_state.special && st < 0 && o.state
            != State::Lost;
        let b2 = o.player_ship.spec_shoot(None, BulletType::Special);
        let bs2 = if special {
            bs1.push(b2)
        } else {
            bs1
        };
        let out2 = if special {
            out1 + fan_out(peers, Wrapper::BulletWrapper(b2))
        } else {
            out1
        };
        let sh = countdown(o.shield_timer, dt);
        let raise = o.input_state.shield && sh < 0 && o.state
            != State::Lost;
        let out3 = if raise {
            out2 + fan_out(peers, o.spec_own_update(true))
        } else {
            out2
        };
        let active = if raise {
            SHIELD_DURATION
        } else {
            o.shield_active
        };
        let up = raise || o.player_ship.shield;
        &&& n.bullets@ == bs2
        &&& n.player_fire_delay == if fire_now {
            later(now, PLAYER_FIRE_RATE)
        } else {
            o.player_fire_delay
        }
        &&& n.special_timer == if special {
            SPECIAL_BULLET_COOLDOWN
        } else {
            st
        }
        &&& n.shield_timer == if raise {
            SHIELD_COOLDOWN
        } else {
            sh
        }
        &&& if active > 0 {
            &&& n.shield_active == active - dt
            &&& n.player_ship == (Ship { shield: up, ..o.player_ship })
            &&& no == out3
        } else {
            &&& n.shield_active == active
            &&& n.player_ship == (Ship { shield: false, ..o.player_ship })
            &&& no == if up {
                out3 + fan_out(peers, o.spec_own_update(false))
            } else {
                out3
            }
        }
    })
    &&& n.enemy_ship == o.enemy_ship
    &&& n.directory.ships_view() == o.directory.ships_view()
    &&& n.same_session(&o)
    &&& n.enemy_fire_delay == o.enemy_fire_delay
    &&& n.broadcast_timer == o.broadcast_timer
}

/// What `MainState::boss_fire` does, from `o` to `n`, with the messages
/// queued growing from `oo` to `no`.
pub open spec fn spec_boss_fired(
    o: MainState,
    n: MainState,
    oo: Seq<Outgoing>,
    no: Seq<Outgoing>,
    now: u64,
    r1: Heading,
    r2: Heading,
) -> bool {
    &&& ({
        let e = o.enemy_ship;
        let peers = o.directory.peers_view();
        let due = now >= o.enemy_fire_delay;
        let volley = due && (o.state == State::Playing || o.state
            == State::Lost);
        let fixed = seq![
            e.spec_shoot(Some(spec_diagonal(true)), BulletType::Normal),
            e.spec_shoot(Some(spec_diagonal(false)), BulletType::Normal),
            e.spec_shoot(None, BulletType::Normal),
        ];
        let host = o.network_type == Network::Host;
        let second = e.health < BOSS_HEALTH / 2;
        let a1 = e.spec_shoot(Some(r1), BulletType::Normal);
        let a2 = e.spec_shoot(Some(r2), BulletType::Normal);
        &&& n.bullets@ == if !volley {
            o.bullets@
        } else if !host {
            o.bullets@ + fixed
        } else if !second {
            o.bullets@ + fixed + seq![a1]
        } else {
            o.bullets@ + fixed + seq![a1, a2]
        }
        &&& no == if !volley || !host {
            oo
        } else if !second {
            oo + fan_out(peers, Wrapper::BulletWrapper(a1))
        } else {
            oo + fan_out(peers, Wrapper::BulletWrapper(a1)) + fan_out(
                peers,
                Wrapper::BulletWrapper(a2),
            )
        }
        &&& n.enemy_fire_delay == if due {
            later(now, BOSS_FIRE_RATE)
        } else {
            o.enemy_fire_delay
        }
    })
    &&& n.same_ships(&o)
    &&& n.same_session(&o)
    &&& n.player_fire_delay == o.player_fire_delay
    &&& n.special_timer == o.special_timer
    &&& n.shield_timer == o.shield_timer
    &&& n.shield_active == o.shield_active
    &&& n.broadcast_timer == o.broadcast_timer
}

/// What `MainState::check_collisions` does, from `o` to `n`.
pub open spec fn spec_collided(
    o: MainState,
    n: MainState,
) -> bool {
    &&& ({
        let (bs, e, t) = collide_prefix(
            o.bullets@,
            o.enemy_ship,
            o.targets(),
            o.bullets@.len(),
        );
        &&& n.bullets@ == bs
        &&& n.enemy_ship == e
        &&& n.targets() == t
    })
    &&& n.directory.peers_view() == o.directory.peers_view()
    &&& n.input_state == o.input_state
    &&& n.player_fire_delay == o.player_fire_delay
    &&& n.enemy_fire_delay == o.enemy_fire_delay
    &&& n.special_timer == o.special_timer
    &&& n.shield_timer == o.shield_timer
    &&& n.shield_active == o.shield_active
    &&& n.state == o.state
    &&& n.network_type == o.network_type
    &&& n.local_addr == o.local_addr
    &&& n.broadcast_timer == o.broadcast_timer
}

/// What `MainState::resolve_outcome` does, from `o` to `n`, with the messages
/// queued growing from `oo` to `no`.
pub open spec fn spec_resolved(
    o: MainState,
    n: MainState,
    oo: Seq<Outgoing>,
    no: Seq<Outgoing>,
) -> bool {
    &&& allowed_transition(o.state, n.state, false, false)
    &&& ({
        let peers = o.directory.peers_view();
        let playing = o.state == State::Playing;
        if playing && o.player_ship.health < 0 {
            &&& n.state == State::Lost
            &&& no == oo + fan_out(
                peers,
                Wrapper::DeathSignal(o.player_ship.id),
            )
        } else if playing && o.enemy_ship.health < WIN_THRESHOLD {
            &&& n.state == State::Won
            &&& no == oo + fan_out(peers, Wrapper::WinSignal)
        } else {
            &&& n.state == o.state
            &&& no == oo
        }
    })
    &&& n.bullets@ == o.bullets@
    &&& n.same_ships(&o)
    &&& n.same_timers(&o)
    &&& n.input_state == o.input_state
    &&& n.network_type == o.network_type
    &&& n.local_addr == o.local_addr
    &&& n.directory.peers_view() == o.directory.peers_view()
}

/// What `MainState::handle_connections` does, from `o` to `n`, with the messages
/// queued growing from `oo` to `no`.
pub open spec fn spec_connections_handled(
    o: MainState,
    n: MainState,
    oo: Seq<Outgoing>,
    no: Seq<Outgoing>,
    inbound: Option<Datagram>,
) -> bool {
    &&& allowed_transition(o.state, n.state, false, false)
    &&& n.player_ship == o.player_ship
    &&& n.enemy_ship == o.enemy_ship
    &&& n.bullets == o.bullets
    &&& n.same_timers(&o)
    &&& n.input_state == o.input_state
    &&& n.network_type == o.network_type
    &&& n.local_addr == o.local_addr
    &&& ({
        let peers = o.directory.peers_view();
        let moved = o.directory.ships_view().map_values(
            |s: Ship| Ship { pos: Point { x: PLAYER_SPAWN_X, y: PLAYER_SPAWN_Y }, ..s },
        );
        let base = oo + fan_out(peers, Wrapper::ShipWrapper(o.player_ship));
        let m = received(inbound);
        let joining = o.network_type == Network::Host && m == Some(
            Wrapper::ConnectSignal,
        ) && !peers.contains(inbound.unwrap().from);
        &&& n.directory.ships_view() == match m {
            Some(Wrapper::ShipWrapper(s)) => with_ship(moved, s),
            _ => moved,
        }
        &&& n.directory.peers_view() == if joining {
            peers.push(inbound.unwrap().from)
        } else {
            match m {
                Some(Wrapper::AddressWrapper(a)) => if o.network_type
                    == Network::Peer {
                    with_peer(peers, a)
                } else {
                    peers
                },
                _ => peers,
            }
        }
        &&& no == if joining {
            base + spec_relay(peers, inbound.unwrap().from) + seq![
                Outgoing {
                    to: inbound.unwrap().from,
                    message: Wrapper::AddressWrapper(o.local_addr),
                },
            ]
        } else {
            base
        }
        &&& n.state == if m == Some(Wrapper::StartSignal) && o.state
            == State::Loading {
            State::Playing
        } else {
            o.state
        }
    })
}

/// What `MainState::handle_updates` does, from `o` to `n`.
pub open spec fn spec_updates_handled(
    o: MainState,
    n: MainState,
    inbound: Option<Datagram>,
) -> bool {
    &&& allowed_transition(
        o.state,
        n.state,
        received(inbound) == Some(Wrapper::RestartSignal),
        received(inbound) == Some(Wrapper::WinSignal),
    )
    &&& match received(inbound) {
        Some(Wrapper::ShipUpdateWrapper(u)) => {
            &&& n.directory.ships_view() == updated_all(
                o.directory.ships_view(),
                u,
            )
            &&& n.player_ship == o.player_ship
            &&& n.enemy_ship == o.enemy_ship
            &&& n.bullets@ == o.bullets@
            &&& n.same_timers(&o)
            &&& n.same_session(&o)
        },
        Some(Wrapper::BulletWrapper(b)) => {
            &&& n.bullets@ == o.bullets@.push(b)
            &&& n.same_ships(&o)
            &&& n.same_timers(&o)
            &&& n.same_session(&o)
        },
        Some(Wrapper::RestartSignal) => n.is_reset_of(&o),
        Some(Wrapper::WinSignal) => {
            &&& n.state == State::Won
            &&& n.bullets@ == o.bullets@
            &&& n.same_ships(&o)
            &&& n.same_timers(&o)
            &&& n.input_state == o.input_state
            &&& n.network_type == o.network_type
            &&& n.local_addr == o.local_addr
            &&& n.directory.peers_view() == o.directory.peers_view()
        },
        Some(Wrapper::DeathSignal(id)) => {
            &&& n.directory.ships_view() == reported_dead_all(
                o.directory.ships_view(),
                id,
            )
            &&& n.player_ship == o.player_ship
            &&& n.enemy_ship == o.enemy_ship
            &&& n.bullets@ == o.bullets@
            &&& n.same_timers(&o)
            &&& n.same_session(&o)
        },
        _ => {
            &&& n.bullets@ == o.bullets@
            &&& n.same_ships(&o)
            &&& n.same_timers(&o)
            &&& n.same_session(&o)
        },
    }
}

/// What the host sends a newcomer `from` while `ps` are known: for each known
/// address, in order, that address to the newcomer and the newcomer's address to it.
pub proof fn lemma_relay_contents(ps: Seq<PeerAddr>, from: PeerAddr)
    ensures
        spec_relay(ps, from).len() == 2 * ps.len(),
        forall|i: int|
            0 <= i < ps.len() ==> {
                &&& #[trigger] spec_relay(ps, from)[2 * i] == (Outgoing {
                    to: from,
                    message: Wrapper::AddressWrapper(ps[i]),
                })
                &&& spec_relay(ps, from)[2 * i + 1] == (Outgoing {
                    to: ps[i],
                    message: Wrapper::AddressWrapper(from),
                })
            },
    decreases ps.len(),
{
    if ps.len() > 0 {
        let init = ps.drop_last();
        lemma_relay_contents(init, from);
        assert forall|i: int| 0 <= i < ps.len() implies {
            &&& #[trigger] spec_relay(ps, from)[2 * i] == (Outgoing {
                to: from,
                message: Wrapper::AddressWrapper(ps[i]),
            })
            &&& spec_relay(ps, from)[2 * i + 1] == (Outgoing {
                to: ps[i],
                message: Wrapper::AddressWrapper(from),
            })
        } by {
            if i < init.len() {
                assert(init[i] == ps[i]);
            }
        }
    }
}

/// A single bullet against the boss and the ships: the collision pass is the one
/// step `collide_one`.
pub proof fn lemma_single_bullet(b: Bullet, enemy: Ship, t: Seq<Ship>)
    ensures
        collide_prefix(seq![b], enemy, t, 1) == ({
            let (b2, e2, t2) = collide_one(b, enemy, t);
            (seq![b2], e2, t2)
        }),
{
    let (b2, e2, t2) = collide_one(b, enemy, t);
    assert(collide_prefix(seq![b], enemy, t, 0) == (Seq::<Bullet>::empty(), enemy, t));
    assert(Seq::<Bullet>::empty().push(b2) =~= seq![b2]);
}

/// A datagram that does not decode has the effect of none: the networking step
/// does with it exactly what it does when nothing arrived.
pub proof fn lemma_malformed_is_ignored(
    o: MainState,
    n: MainState,
    oo: Seq<Outgoing>,
    no: Seq<Outgoing>,
    inbound: Option<Datagram>,
)
    requires
        received(inbound) is None,
        spec_networked(o, n, oo, no, inbound),
    ensures
        spec_networked(o, n, oo, no, None),
{
}

/// Whatever a tick does with a datagram that does not decode, it does with none.
pub proof fn lemma_malformed_tick(
    o: MainState,
    n: MainState,
    oo: Seq<Outgoing>,
    no: Seq<Outgoing>,
    dt: u32,
    now: u64,
    width: i32,
    height: i32,
    inbound: Option<Datagram>,
)
    requires
        received(inbound) is None,
        spec_tick(o, n, oo, no, dt, now, width, height, inbound),
    ensures
        spec_tick(o, n, oo, no, dt, now, width, height, None),
{
    let (s1, s3, s4, s5, s6, s7, o1, o2, o3, o4, r1, r2) = choose|
        s1: MainState,
        s3: MainState,
        s4: MainState,
        s5: MainState,
        s6: MainState,
        s7: MainState,
        o1: Seq<Outgoing>,
        o2: Seq<Outgoing>,
        o3: Seq<Outgoing>,
        o4: Seq<Outgoing>,
        r1: Heading,
        r2: Heading,
    |
        {
            &&& spec_moved_player(o, s1, oo, o1, dt, width, height)
            &&& spec_advanced_bullets(s1, s3, dt, height)
            &&& spec_fired_weapons(s3, s4, o1, o2, dt, now)
            &&& (o.network_type == Network::Host ==> in_curve_range(r1) && in_curve_range(r2))
            &&& spec_boss_fired(s4, s5, o2, o3, now, r1, r2)
            &&& spec_collided(s5, s6)
            &&& spec_resolved(s6, s7, o3, o4)
            &&& spec_networked(s7, n, o4, no, inbound)
        };
    lemma_malformed_is_ignored(s7, n, o4, no, inbound);
    assert(spec_moved_player(o, s1, oo, o1, dt, width, height));
    assert(spec_advanced_bullets(s1, s3, dt, height));
    assert(spec_fired_weapons(s3, s4, o1, o2, dt, now));
    assert(spec_boss_fired(s4, s5, o2, o3, now, r1, r2));
    assert(spec_collided(s5, s6));
    assert(spec_resolved(s6, s7, o3, o4));
}

/// Whether `h` is a change of heading that the host may draw for the boss's aimed
/// shots: at most an eighth of a turn either way.
pub open spec fn in_curve_range(h: Heading) -> bool {
    -707 <= h.sin <= 707 && h.cos >= 0
}

/// The networking step of the phase: the handshake while loading, the drain of
/// updates otherwise.
pub open spec fn spec_networked(
    o: MainState,
    n: MainState,
    oo: Seq<Outgoing>,
    no: Seq<Outgoing>,
    inbound: Option<Datagram>,
) -> bool {
    if o.state == State::Loading {
        spec_connections_handled(o, n, oo, no, inbound)
    } else {
        spec_updates_handled(o, n, inbound) && no == oo
    }
}

/// One tick, from `o` to `n`, as the steps of `MainState::update` in their order;
/// on the host the boss's aimed shots turn by some curves in range.
pub open spec fn spec_tick(
    o: MainState,
    n: MainState,
    oo: Seq<Outgoing>,
    no: Seq<Outgoing>,
    dt: u32,
    now: u64,
    width: i32,
    height: i32,
    inbound: Option<Datagram>,
) -> bool {
    exists|
        s1: MainState,
        s3: MainState,
        s4: MainState,
        s5: MainState,
        s6: MainState,
        s7: MainState,
        o1: Seq<Outgoing>,
        o2: Seq<Outgoing>,
        o3: Seq<Outgoing>,
        o4: Seq<Outgoing>,
        r1: Heading,
        r2: Heading,
    |
        #![trigger
            spec_moved_player(o, s1, oo, o1, dt, width, height),
            spec_advanced_bullets(s1, s3, dt, height),
            spec_fired_weapons(s3, s4, o1, o2, dt, now),
            spec_boss_fired(s4, s5, o2, o3, now, r1, r2),
            spec_collided(s5, s6),
            spec_resolved(s6, s7, o3, o4),
        ]
        {
            &&& spec_moved_player(o, s1, oo, o1, dt, width, height)
            &&& spec_advanced_bullets(s1, s3, dt, height)
            &&& spec_fired_weapons(s3, s4, o1, o2, dt, now)
            &&& (o.network_type == Network::Host ==> in_curve_range(r1) && in_curve_range(r2))
            &&& spec_boss_fired(s4, s5, o2, o3, now, r1, r2)
            &&& spec_collided(s5, s6)
            &&& spec_resolved(s6, s7, o3, o4)
            &&& spec_networked(s7, n, o4, no, inbound)
        }
}

/// A restart puts the local ship back at its spawn point with full health and no
/// shield, keeps its identity, clears the bullets and returns to loading.
pub proof fn lemma_restart_restores_player(o: MainState, n: MainState)
    requires
        o.well_formed(),
        n.is_reset_of(&o),
    ensures
        n.player_ship.health == PLAYER_HEALTH,
        n.player_ship.pos == (Point { x: PLAYER_SPAWN_X, y: PLAYER_SPAWN_Y }),
        !n.player_ship.shield,
        n.player_ship.id == o.player_ship.id,
        n.bullets@.len() == 0,
        n.state == State::Loading,
{
}

/// The session of one node. It owns the local player's ship, its copy of the boss,
/// the bullets it simulates and the peer directory. Timers count down in
/// milliseconds; fire delays are instants in milliseconds.
pub struct MainState {
    pub player_ship: Ship,
    pub enemy_ship: Ship,
    pub bullets: Vec<Bullet>,
    pub input_state: InputState,
    pub player_fire_delay: u64,
    pub enemy_fire_delay: u64,
    pub special_timer: i64,
    pub shield_timer: i64,
    pub shield_active: i64,
    pub state: State,
    pub directory: PeerDirectory,
    pub network_type: Network,
    /// This node's own address, which the host hands to each node that joins.
    pub local_addr: PeerAddr,
    pub broadcast_timer: i64,
}

/// Delay between two updates of the local ship's position, in milliseconds.
pub const BROADCAST_TICK: i64 = 33;

/// Delay between two shots of the local player, in milliseconds.
pub const PLAYER_FIRE_RATE: u64 = 200;

/// Delay between two volleys of the boss, in milliseconds.
pub const BOSS_FIRE_RATE: u64 = 250;

/// Delay before the special weapon can fire again, in milliseconds.
pub const SPECIAL_BULLET_COOLDOWN: i64 = 5000;

/// Delay before the shield can be raised again, in milliseconds.
pub const SHIELD_COOLDOWN: i64 = 15000;

/// How long a raised shield lasts, in milliseconds.
pub const SHIELD_DURATION: i64 = 2000;

/// The boss counts as beaten once its health is below this.
pub const WIN_THRESHOLD: i32 = 100;

/// Size of the receive buffer while loading, when full ship snapshots arrive.
pub const LOADING_BUFFER_SIZE: usize = 512;

/// Size of the receive buffer during play, when only small messages arrive.
pub const PLAYING_BUFFER_SIZE: usize = 128;

impl MainState {
    /// The directory keeps its invariant, the local ship is a player's and the boss
    /// is the enemy's.
    pub open spec fn well_formed(&self) -> bool {
        &&& self.directory.well_formed()
        &&& self.player_ship.ship_type == Possession::Player
        &&& self.enemy_ship.ship_type == Possession::Enemy
    }

    /// The ships a boss bullet can hit: the replicas, then the local player.
    pub open spec fn targets(&self) -> Seq<Ship> {
        self.directory.ships_view().push(self.player_ship)
    }

    /// A session that starts loading, with fresh ships and no peers.
    pub fn new(network_type: Network, local_addr: PeerAddr) -> (r: MainState)
        ensures
            r.well_formed(),
            r.player_ship == Ship::spec_spawned(Possession::Player, r.player_ship.id),
            r.enemy_ship == Ship::spec_spawned(Possession::Enemy, r.enemy_ship.id),
            r.bullets@ == Seq::<Bullet>::empty(),
            r.input_state == InputState::spec_idle(),
            r.player_fire_delay == 0,
            r.enemy_fire_delay == 0,
            r.special_timer == 0,
            r.shield_timer == 0,
            r.shield_active == 0,
            r.state == State::Loading,
            r.directory.peers_view() == Seq::<PeerAddr>::empty(),
            r.directory.ships_view() == Seq::<Ship>::empty(),
            r.network_type == network_type,
            r.local_addr == local_addr,
            r.broadcast_timer == BROADCAST_TICK,
    {
        MainState {
            player_ship: Ship::new(Possession::Player),
            enemy_ship: Ship::new(Possession::Enemy),
            bullets: Vec::new(),
            input_state: InputState::new(),
            player_fire_delay: 0,
            enemy_fire_delay: 0,
            special_timer: 0,
            shield_timer: 0,
            shield_active: 0,
            state: State::Loading,
            directory: PeerDirectory::new(),
            network_type,
            local_addr,
            broadcast_timer: BROADCAST_TICK,
        }
    }

    /// Timers and fire delays equal in `self` and `o`.
    pub open spec fn same_timers(&self, o: &MainState) -> bool {
        &&& self.player_fire_delay == o.player_fire_delay
        &&& self.enemy_fire_delay == o.enemy_fire_delay
        &&& self.special_timer == o.special_timer
        &&& self.shield_timer == o.shield_timer
        &&& self.shield_active == o.shield_active
        &&& self.broadcast_timer == o.broadcast_timer
    }

    /// Phase, input, role, own address and known addresses equal in `self` and `o`.
    pub open spec fn same_session(&self, o: &MainState) -> bool {
        &&& self.state == o.state
        &&& self.input_state == o.input_state
        &&& self.network_type == o.network_type
        &&& self.local_addr == o.local_addr
        &&& self.directory.peers_view() == o.directory.peers_view()
    }

    /// Ships (local, boss and replicas) equal in `self` and `o`.
    pub open spec fn same_ships(&self, o: &MainState) -> bool {
        &&& self.player_ship == o.player_ship
        &&& self.enemy_ship == o.enemy_ship
        &&& self.directory.ships_view() == o.directory.ships_view()
    }

    /// `self` is `o` started over: every ship back at spawn, no bullets, no input,
    /// timers and fire delays cleared but for the broadcast throttle, and loading
    /// again; identities, peers, role and own address kept.
    pub open spec fn is_reset_of(&self, o: &MainState) -> bool {
        &&& self.player_ship == o.player_ship.spec_reset()
        &&& self.enemy_ship == o.enemy_ship.spec_reset()
        &&& self.bullets@ == Seq::<Bullet>::empty()
        &&& self.input_state == InputState::spec_idle()
        &&& self.player_fire_delay == 0
        &&& self.enemy_fire_delay == 0
        &&& self.special_timer == 0
        &&& self.shield_timer == 0
        &&& self.shield_active == 0
        &&& self.state == State::Loading
        &&& self.directory.peers_view() == o.directory.peers_view()
        &&& self.directory.ships_view() == o.directory.ships_view().map_values(
            |s: Ship| s.spec_reset(),
        )
        &&& self.network_type == o.network_type
        &&& self.local_addr == o.local_addr
        &&& self.broadcast_timer == o.broadcast_timer
    }

    /// Starts over; see `is_reset_of`.
    pub fn reset(&mut self)
        requires
            old(self).well_formed(),
        ensures
            final(self).well_formed(),
            final(self).is_reset_of(old(self)),
            allowed_transition(old(self).state, final(self).state, true, false),
    {
        self.player_ship.reset();
        self.enemy_ship.reset();
        self.bullets = Vec::new();
        self.input_state = InputState::new();
        self.player_fire_delay = 0;
        self.enemy_fire_delay = 0;
        self.special_timer = 0;
        self.shield_timer = 0;
        self.shield_active = 0;
        self.state = State::Loading;
        self.directory.reset_replicas();
    }

    /// The first ship the boss bullet `b` reaches, as a position in `targets()`.
    fn first_target(&self, b: &Bullet) -> (r: Option<usize>)
        ensures
            match r {
                Some(i) => i == first_reached(*b, self.targets(), 0) && i < self.targets().len(),
                None => first_reached(*b, self.targets(), 0) == -1,
            },
    {
        let ships = self.directory.replicas();
        let n = ships.len();
        let ghost t = self.targets();
        let mut i: usize = 0;
        while i < n
            invariant
                n == ships@.len(),
                ships@ == self.directory.ships_view(),
                t == self.targets(),
                i <= n,
                first_reached(*b, t, 0) == first_reached(*b, t, i as int),
            decreases n - i,
        {
            let s = &ships[i];
            assert(t[i as int] == *s);
            if within_radius(b.pos, s.pos, PLAYER_HIT_RADIUS) && s.health > 0 {
                return Some(i);
            }
            i = i + 1;
        }
        assert(t[n as int] == self.player_ship);
        let p = self.player_ship;
        if within_radius(b.pos, p.pos, PLAYER_HIT_RADIUS) && p.health > 0 {
            Some(n)
        } else {
            assert(first_reached(*b, t, n + 1) == -1);
            None
        }
    }

    /// Every bullet, in order, against the boss and the player ships; see `collide_one`.
    pub fn check_collisions(&mut self)
        requires
            old(self).well_formed(),
        ensures
            final(self).well_formed(),
            spec_collided(*old(self), *final(self)),
    {
        let ghost bs0 = self.bullets@;
        let ghost e0 = self.enemy_ship;
        let ghost t0 = self.targets();
        let n = self.bullets.len();
        let mut j: usize = 0;
        while j < n
            invariant
                self.well_formed(),
                n == bs0.len(),
                j <= n,
                self.bullets@.len() == n,
                forall|k: int| j <= k < n ==> self.bullets@[k] == bs0[k],
                ({
                    let (done, e, t) = collide_prefix(bs0, e0, t0, j as nat);
                    &&& self.bullets@.take(j as int) == done
                    &&& self.enemy_ship == e
                    &&& self.targets() == t
                }),
                self.directory.peers_view() == old(self).directory.peers_view(),
                self.input_state == old(self).input_state,
                self.player_fire_delay == old(self).player_fire_delay,
                self.enemy_fire_delay == old(self).enemy_fire_delay,
                self.special_timer == old(self).special_timer,
                self.shield_timer == old(self).shield_timer,
                self.shield_active == old(self).shield_active,
                self.state == old(self).state,
                self.network_type == old(self).network_type,
                self.local_addr == old(self).local_addr,
                self.broadcast_timer == old(self).broadcast_timer,
            decreases n - j,
        {
            let b = self.bullets[j];
            let ghost before = self.bullets@;
            let ghost t_before = self.targets();
            let ghost e_before = self.enemy_ship;
            assert(b == bs0[j as int]);
            match b.possession {
                Possession::Enemy => {
                    if self.enemy_ship.health > 0 {
                        match self.first_target(&b) {
                            Some(i) => {
                                let m = self.directory.replicas().len();
                                if i < m {
                                    self.directory.hit_replica(i);
                                } else {
                                    self.player_ship.hit_by_enemy_bullet();
                                }
                                assert(self.targets() =~= t_before.update(
                                    i as int,
                                    t_before[i as int].spec_hit_by_enemy_bullet(),
                                ));
                                self.bullets.set(j, Bullet { hit: true, ..b });
                            },
                            None => {},
                        }
                    }
                },
                Possession::Player => {
                    if within_radius(b.pos, self.enemy_ship.pos, BOSS_HIT_RADIUS) {
                        self.enemy_ship.hit_by_player_bullet(b.bullet_type);
                        self.bullets.set(j, Bullet { hit: true, ..b });
                    }
                },
            }
            let ghost (done, e, t) = collide_prefix(bs0, e0, t0, j as nat);
            assert(collide_prefix(bs0, e0, t0, (j + 1) as nat) == {
                let (b2, e2, t2) = collide_one(bs0[j as int], e, t);
                (done.push(b2), e2, t2)
            });
            assert(self.bullets@.take(j + 1) =~= before.take(j as int).push(
                self.bullets@[j as int],
            ));
            j = j + 1;
        }
        assert(self.bullets@.take(n as int) =~= self.bullets@);
    }

    /// Sends this node's address list to a node that joins: each known address to
    /// the newcomer and the newcomer's address to each known one, then this node's own
    /// address to the newcomer, whom it then knows.
    fn welcome(&mut self, from: PeerAddr, out: &mut Vec<Outgoing>)
        requires
            old(self).well_formed(),
            !old(self).directory.peers_view().contains(from),
        ensures
            final(self).well_formed(),
            final(out)@ == old(out)@ + spec_relay(old(self).directory.peers_view(), from) + seq![
                Outgoing { to: from, message: Wrapper::AddressWrapper(old(self).local_addr) },
            ],
            final(self).directory.peers_view() == old(self).directory.peers_view().push(from),
            final(self).directory.ships_view() == old(self).directory.ships_view(),
            final(self).player_ship == old(self).player_ship,
            final(self).enemy_ship == old(self).enemy_ship,
            final(self).bullets == old(self).bullets,
            final(self).same_timers(old(self)),
            final(self).state == old(self).state,
            final(self).input_state == old(self).input_state,
            final(self).network_type == old(self).network_type,
            final(self).local_addr == old(self).local_addr,
    {
        let peers = self.directory.peers();
        let ghost ps = peers@;
        let n = peers.len();
        let mut i: usize = 0;
        while i < n
            invariant
                n == ps.len(),
                peers@ == ps,
                i <= n,
                out@ == old(out)@ + spec_relay(ps.take(i as int), from),
            decreases n - i,
        {
            let p = peers[i];
            out.push(Outgoing { to: from, message: Wrapper::AddressWrapper(p) });
            out.push(Outgoing { to: p, message: Wrapper::AddressWrapper(from) });
            assert(ps.take(i + 1).drop_last() =~= ps.take(i as int));
            assert(ps.take(i + 1).last() == p);
            assert(out@ =~= old(out)@ + spec_relay(ps.take(i + 1), from));
            i = i + 1;
        }
        assert(ps.take(n as int) =~= ps);
        out.push(Outgoing { to: from, message: Wrapper::AddressWrapper(self.local_addr) });
        self.directory.register_peer(from);
    }

    /// The networking step while loading. Every replica is put back at spawn and the
    /// local ship is sent to every known address. Then the datagram received, if it
    /// decodes: a ship snapshot adds a replica unless one of that identity exists; on
    /// the host, a join request from an unknown address welcomes it; on a peer, an
    /// address joins the directory; a start signal begins play. Anything else is
    /// dropped.
    pub fn handle_connections(&mut self, inbound: &Option<Datagram>, out: &mut Vec<Outgoing>)
        requires
            old(self).well_formed(),
        ensures
            final(self).well_formed(),
            spec_connections_handled(*old(self), *final(self), old(out)@, final(out)@, *inbound),
    {
        self.directory.move_replicas_to(Point { x: PLAYER_SPAWN_X, y: PLAYER_SPAWN_Y });
        self.directory.broadcast(Wrapper::ShipWrapper(self.player_ship), out);
        match receive(inbound) {
            Some(Wrapper::ShipWrapper(s)) => {
                self.directory.register_remote_ship(s);
            },
            Some(Wrapper::ConnectSignal) => {
                if self.network_type == Network::Host {
                    match inbound {
                        Some(d) => {
                            if !self.directory.contains_peer(&d.from) {
                                self.welcome(d.from, out);
                            }
                        },
                        None => {},
                    }
                }
            },
            Some(Wrapper::AddressWrapper(a)) => {
                if self.network_type == Network::Peer {
                    self.directory.register_peer(a);
                }
            },
            Some(Wrapper::StartSignal) => {
                if self.state == State::Loading {
                    self.state = State::Playing;
                }
            },
            _ => {},
        }
    }

    /// The networking step outside loading, on the datagram received, if it decodes:
    /// a ship update moves the replica it names, sets its shield and keeps it alive; a
    /// bullet joins the local ones as it is; a restart starts over; a win signal ends
    /// play as won; a death report damages the replica it names. Anything else is
    /// dropped.
    pub fn handle_updates(&mut self, inbound: &Option<Datagram>)
        requires
            old(self).well_formed(),
        ensures
            final(self).well_formed(),
            spec_updates_handled(*old(self), *final(self), *inbound),
    {
        match receive(inbound) {
            Some(Wrapper::ShipUpdateWrapper(u)) => {
                self.directory.apply_update(u);
            },
            Some(Wrapper::BulletWrapper(b)) => {
                self.bullets.push(b);
            },
            Some(Wrapper::RestartSignal) => {
                self.reset();
            },
            Some(Wrapper::WinSignal) => {
                self.state = State::Won;
            },
            Some(Wrapper::DeathSignal(id)) => {
                self.directory.report_death(id);
            },
            _ => {},
        }
    }

    /// A key pressed. Q asks to quit (the returned flag). R sends a restart to every
    /// known address and starts over. Then, while the local ship lives, the key's
    /// intent is set, and an action key pressed while loading sends the start signal
    /// to every known address and begins play.
    pub fn key_down_event(&mut self, key: Key, out: &mut Vec<Outgoing>) -> (quit: bool)
        requires
            old(self).well_formed(),
        ensures
            final(self).well_formed(),
            allowed_transition(old(self).state, final(self).state, key == Key::R, false),
            quit == (key == Key::Q),
            key == Key::R ==> final(self).is_reset_of(old(self)) && final(out)@ == old(out)@
                + fan_out(old(self).directory.peers_view(), Wrapper::RestartSignal),
            key != Key::R ==> {
                let live = old(self).player_ship.health > 0;
                let starts = live && is_action_key(key) && old(self).state == State::Loading;
                &&& final(self).input_state == if live {
                    with_key(old(self).input_state, key, true)
                } else {
                    old(self).input_state
                }
                &&& final(self).state == if starts {
                    State::Playing
                } else {
                    old(self).state
                }
                &&& final(out)@ == if starts {
                    old(out)@ + fan_out(old(self).directory.peers_view(), Wrapper::StartSignal)
                } else {
                    old(out)@
                }
                &&& final(self).bullets@ == old(self).bullets@
                &&& final(self).same_ships(old(self))
                &&& final(self).same_timers(old(self))
                &&& final(self).network_type == old(self).network_type
                &&& final(self).local_addr == old(self).local_addr
                &&& final(self).directory.peers_view() == old(self).directory.peers_view()
            },
    {
        let quit = key == Key::Q;
        if key == Key::R {
            self.directory.broadcast(Wrapper::RestartSignal, out);
            self.reset();
        }
        if self.player_ship.health > 0 {
            set_key(&mut self.input_state, key, true);
            let action = match key {
                Key::W | Key::S | Key::D | Key::A | Key::Space | Key::J | Key::K => true,
                _ => false,
            };
            if action && self.state == State::Loading {
                self.directory.broadcast(Wrapper::StartSignal, out);
                self.state = State::Playing;
            }
        }
        quit
    }

    /// A key released: its intent is cleared.
    pub fn key_up_event(&mut self, key: Key)
        requires
            old(self).well_formed(),
        ensures
            final(self).well_formed(),
            final(self).input_state == with_key(old(self).input_state, key, false),
            final(self).state == old(self).state,
            final(self).network_type == old(self).network_type,
            final(self).local_addr == old(self).local_addr,
            final(self).directory.peers_view() == old(self).directory.peers_view(),
            final(self).bullets@ == old(self).bullets@,
            final(self).same_ships(old(self)),
            final(self).same_timers(old(self)),
    {
        set_key(&mut self.input_state, key, false);
    }

    /// The update of the local ship that peers receive.
    pub open spec fn spec_own_update(&self, shield: bool) -> Wrapper {
        Wrapper::ShipUpdateWrapper(
            ShipUpdate {
                id: self.player_ship.id,
                x: self.player_ship.pos.x,
                y: self.player_ship.pos.y,
                shield,
            },
        )
    }

    /// First step of a tick: the throttle counts down, the local ship moves by the
    /// input, and if it moved once the throttle has run out, its update goes to every
    /// known address and the throttle starts again.
    pub fn move_player(&mut self, dt: u32, width: i32, height: i32, out: &mut Vec<Outgoing>)
        requires
            old(self).well_formed(),
        ensures
            final(self).well_formed(),
            spec_moved_player(*old(self), *final(self), old(out)@, final(out)@, dt, width, height),
    {
        self.broadcast_timer = countdown_exec(self.broadcast_timer, dt);
        let moved = self.player_ship.update_pos(dt, &self.input_state, width, height);
        if moved && self.broadcast_timer < 0 {
            let u = ShipUpdate::new(
                self.player_ship.id,
                self.player_ship.pos.x,
                self.player_ship.pos.y,
                self.player_ship.shield,
            );
            self.directory.broadcast(Wrapper::ShipUpdateWrapper(u), out);
            self.broadcast_timer = BROADCAST_TICK;
        }
    }

    /// Moves every bullet along its heading, then drops those that left the screen or
    /// were hit; see `advanced_kept`.
    pub fn advance_bullets(&mut self, dt: u32, height: i32)
        requires
            old(self).well_formed(),
        ensures
            final(self).well_formed(),
            spec_advanced_bullets(*old(self), *final(self), dt, height),
    {
        let ghost bs = self.bullets@;
        let n = self.bullets.len();
        let mut next: Vec<Bullet> = Vec::new();
        let mut i: usize = 0;
        while i < n
            invariant
                n == bs.len(),
                self.bullets@ == bs,
                i <= n,
                next@ == advanced_kept(bs.take(i as int), dt, height),
            decreases n - i,
        {
            let mut b = self.bullets[i];
            b.update_pos(dt);
            if 0 <= b.pos.y && b.pos.y <= height && !b.hit {
                next.push(b);
            }
            assert(bs.take(i + 1).drop_last() =~= bs.take(i as int));
            assert(bs.take(i + 1).last() == bs[i as int]);
            i = i + 1;
        }
        assert(bs.take(n as int) =~= bs);
        self.bullets = next;
    }

    /// The local player's weapons and shield for a tick ending at instant `now`:
    /// - fire, once the fire delay has passed: while playing or won, a normal bullet
    ///   is fired and sent to every known address; the delay restarts either way;
    /// - special, once its cooldown has run out and unless lost: a special bullet is
    ///   sent and fired, and the cooldown restarts;
    /// - shield, once its cooldown has run out and unless lost: the shield goes up for
    ///   its duration, at once announced, and the cooldown restarts;
    /// - a shield whose time is up goes down, also announced.
    pub fn fire_weapons(&mut self, dt: u32, now: u64, out: &mut Vec<Outgoing>)
        requires
            old(self).well_formed(),
        ensures
            final(self).well_formed(),
            spec_fired_weapons(*old(self), *final(self), old(out)@, final(out)@, dt, now),
    {
        if now >= self.player_fire_delay && self.input_state.fire {
            if self.state == State::Playing || self.state == State::Won {
                let b = self.player_ship.shoot(None, BulletType::Normal);
                self.bullets.push(b);
                self.directory.broadcast(Wrapper::BulletWrapper(b), out);
            }
            self.player_fire_delay = later_exec(now, PLAYER_FIRE_RATE);
        }
        self.special_timer = countdown_exec(self.special_timer, dt);
        if self.input_state.special && self.special_timer < 0 && self.state != State::Lost {
            let b = self.player_ship.shoot(None, BulletType::Special);
            self.directory.broadcast(Wrapper::BulletWrapper(b), out);
            self.bullets.push(b);
            self.special_timer = SPECIAL_BULLET_COOLDOWN;
        }
        self.shield_timer = countdown_exec(self.shield_timer, dt);
        if self.input_state.shield && self.shield_timer < 0 && self.state != State::Lost {
            self.player_ship.shield = true;
            self.shield_timer = SHIELD_COOLDOWN;
            self.shield_active = SHIELD_DURATION;
            let u = ShipUpdate::new(
                self.player_ship.id,
                self.player_ship.pos.x,
                self.player_ship.pos.y,
                true,
            );
            self.directory.broadcast(Wrapper::ShipUpdateWrapper(u), out);
        }
        if self.shield_active > 0 {
            self.shield_active = self.shield_active - dt as i64;
        } else if self.player_ship.shield {
            self.player_ship.shield = false;
            let u = ShipUpdate::new(
                self.player_ship.id,
                self.player_ship.pos.x,
                self.player_ship.pos.y,
                false,
            );
            self.directory.broadcast(Wrapper::ShipUpdateWrapper(u), out);
        }
    }

    /// The boss's volley for a tick ending at instant `now`, once its fire delay has
    /// passed: while playing or lost, three bullets (diagonally to each side, then
    /// straight ahead) on every node; on the host also one shot turned by `r1`, and a
    /// second turned by `r2` once the boss is below half health, each sent to every
    /// known address. The delay restarts either way.
    pub fn boss_fire(&mut self, now: u64, r1: Heading, r2: Heading, out: &mut Vec<Outgoing>)
        requires
            old(self).well_formed(),
        ensures
            final(self).well_formed(),
            spec_boss_fired(*old(self), *final(self), old(out)@, final(out)@, now, r1, r2),
    {
        if now >= self.enemy_fire_delay {
            if self.state == State::Playing || self.state == State::Lost {
                let ghost bs0 = self.bullets@;
                let left = Heading { sin: 707, cos: 707 };
                let right = Heading { sin: -707, cos: 707 };
                self.bullets.push(self.enemy_ship.shoot(Some(left), BulletType::Normal));
                self.bullets.push(self.enemy_ship.shoot(Some(right), BulletType::Normal));
                self.bullets.push(self.enemy_ship.shoot(None, BulletType::Normal));
                let ghost bs1 = self.bullets@;
                assert(bs1 =~= bs0 + seq![
                    self.enemy_ship.spec_shoot(Some(spec_diagonal(true)), BulletType::Normal),
                    self.enemy_ship.spec_shoot(Some(spec_diagonal(false)), BulletType::Normal),
                    self.enemy_ship.spec_shoot(None, BulletType::Normal),
                ]);
                if self.network_type == Network::Host {
                    let b = self.enemy_ship.shoot(Some(r1), BulletType::Normal);
                    self.bullets.push(b);
                    self.directory.broadcast(Wrapper::BulletWrapper(b), out);
                    if self.enemy_ship.health < BOSS_HEALTH / 2 {
                        let b2 = self.enemy_ship.shoot(Some(r2), BulletType::Normal);
                        self.bullets.push(b2);
                        self.directory.broadcast(Wrapper::BulletWrapper(b2), out);
                        assert(self.bullets@ =~= bs1 + seq![b, b2]);
                    } else {
                        assert(self.bullets@ =~= bs1 + seq![b]);
                    }
                }
            }
            self.enemy_fire_delay = later_exec(now, BOSS_FIRE_RATE);
        }
    }

    /// The end of play: while playing, a local ship below zero health loses (and
    /// reports its death to every known address); otherwise a boss below the win
    /// threshold wins (and the win goes to every known address).
    pub fn resolve_outcome(&mut self, out: &mut Vec<Outgoing>)
        requires
            old(self).well_formed(),
        ensures
            final(self).well_formed(),
            spec_resolved(*old(self), *final(self), old(out)@, final(out)@),
    {
        if self.state == State::Playing {
            if self.player_ship.health < 0 {
                self.state = State::Lost;
                self.directory.broadcast(Wrapper::DeathSignal(self.player_ship.id), out);
            } else if self.enemy_ship.health < WIN_THRESHOLD {
                self.state = State::Won;
                self.directory.broadcast(Wrapper::WinSignal, out);
            }
        }
    }

    /// One tick of `dt` milliseconds ending at instant `now`, on a screen of the given
    /// size, with the datagram received this tick if any. In order: the local ship
    /// moves; bullets advance and leave; the player's weapons and the boss's volley fire; collisions; the end of
    /// play; and last the networking step of the phase (`handle_connections` while
    /// loading, `handle_updates` otherwise). Messages to send are appended to `out`.
    /// The boss holds its position: no message carries it, so a sweep on one node
    /// would put it somewhere else on the others.
    pub fn update(
        &mut self,
        dt: u32,
        now: u64,
        width: i32,
        height: i32,
        inbound: &Option<Datagram>,
        out: &mut Vec<Outgoing>,
    )
        requires
            old(self).well_formed(),
        ensures
            final(self).well_formed(),
            allowed_transition(
                old(self).state,
                final(self).state,
                received(*inbound) == Some(Wrapper::RestartSignal),
                received(*inbound) == Some(Wrapper::WinSignal),
            ),
            spec_tick(
                *old(self),
                *final(self),
                old(out)@,
                final(out)@,
                dt,
                now,
                width,
                height,
                *inbound,
            ),
    {
        let ghost s0 = *self;
        let ghost o0 = out@;
        self.move_player(dt, width, height, out);
        let ghost s1 = *self;
        let ghost o1 = out@;
        self.advance_bullets(dt, height);
        let ghost s3 = *self;
        self.fire_weapons(dt, now, out);
        let ghost s4 = *self;
        let ghost o2 = out@;
        let (r1, r2) = if self.network_type == Network::Host {
            (random_curve(), random_curve())
        } else {
            (Heading::up(), Heading::up())
        };
        self.boss_fire(now, r1, r2, out);
        let ghost s5 = *self;
        let ghost o3 = out@;
        self.check_collisions();
        let ghost s6 = *self;
        assert(self.state == s0.state);
        self.resolve_outcome(out);
        let ghost s7 = *self;
        let ghost o4 = out@;
        if self.state == State::Loading {
            self.handle_connections(inbound, out);
        } else {
            self.handle_updates(inbound);
        }
        assert(spec_moved_player(s0, s1, o0, o1, dt, width, height));
        assert(spec_advanced_bullets(s1, s3, dt, height));
        assert(spec_fired_weapons(s3, s4, o1, o2, dt, now));
        assert(spec_boss_fired(s4, s5, o2, o3, now, r1, r2));
        assert(spec_collided(s5, s6));
        assert(spec_resolved(s6, s7, o3, o4));
        assert(spec_networked(s7, *self, o4, out@, *inbound));
    }

    /// Whether the special weapon is ready to fire.
    pub fn special_ready(&self) -> (r: bool)
        ensures
            r == (self.special_timer < 0),
    {
        self.special_timer < 0
    }

    /// Whether the shield is ready to be raised.
    pub fn shield_ready(&self) -> (r: bool)
        ensures
            r == (self.shield_timer < 0),
    {
        self.shield_timer < 0
    }

    /// The receive buffer for the current phase: large while loading, when full ship
    /// snapshots arrive, small during play. A longer datagram is cut to this size and
    /// then fails to decode.
    pub fn receive_buffer_size(&self) -> (r: usize)
        ensures
            r == if self.state == State::Loading {
                LOADING_BUFFER_SIZE
            } else {
                PLAYING_BUFFER_SIZE
            },
    {
        if self.state == State::Loading {
            LOADING_BUFFER_SIZE
        } else {
            PLAYING_BUFFER_SIZE
        }
    }
}

} // verus!
