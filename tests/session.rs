use orchid::directory::Outgoing;
use orchid::entities::{Bullet, BulletType, Heading, Point, Possession, Ship};
use orchid::network::{encode, Datagram, Network, PeerAddr, ShipUpdate, Wrapper};
use orchid::states::{InputState, Key, MainState, State};

const W: i32 = 800000;
const H: i32 = 600000;

fn addr(port: u16) -> PeerAddr {
    PeerAddr { ip: 0x7f00_0001, port }
}

fn datagram(from: PeerAddr, m: &Wrapper) -> Option<Datagram> {
    Some(Datagram { from, bytes: encode(m) })
}

fn playing(network: Network, me: PeerAddr) -> MainState {
    let mut s = MainState::new(network, me);
    let mut out = Vec::new();
    s.key_down_event(Key::W, &mut out);
    s.key_up_event(Key::W);
    assert_eq!(s.state, State::Playing);
    s
}

#[test]
fn input_state_starts_idle() {
    let i = InputState::new();
    assert!(!(i.up || i.down || i.left || i.right || i.fire || i.special || i.shield));
}

#[test]
fn host_and_peer_handshake() {
    let (host_addr, peer_addr) = (addr(7878), addr(7879));
    let mut host = MainState::new(Network::Host, host_addr);
    let mut peer = MainState::new(Network::Peer, peer_addr);

    let mut out = Vec::new();
    host.update(16, 1000, W, H, &datagram(peer_addr, &Wrapper::ConnectSignal), &mut out);
    assert_eq!(host.directory.peers(), &vec![peer_addr]);
    assert_eq!(out, vec![Outgoing { to: peer_addr, message: Wrapper::AddressWrapper(host_addr) }]);
    assert_eq!(host.state, State::Loading);

    let mut out2 = Vec::new();
    peer.update(16, 1000, W, H, &datagram(host_addr, &out[0].message), &mut out2);
    assert_eq!(peer.directory.peers(), &vec![host_addr]);
    assert!(out2.is_empty());

    let mut out3 = Vec::new();
    host.update(16, 1016, W, H, &None, &mut out3);
    assert_eq!(out3, vec![Outgoing { to: peer_addr, message: Wrapper::ShipWrapper(host.player_ship) }]);

    let mut out4 = Vec::new();
    peer.update(16, 1016, W, H, &datagram(host_addr, &out3[0].message), &mut out4);
    assert_eq!(peer.directory.replicas(), &vec![host.player_ship]);
    assert_eq!(out4, vec![Outgoing { to: host_addr, message: Wrapper::ShipWrapper(peer.player_ship) }]);

    let mut out5 = Vec::new();
    host.update(16, 1032, W, H, &datagram(peer_addr, &out4[0].message), &mut out5);
    assert_eq!(host.directory.replicas(), &vec![peer.player_ship]);
    assert_eq!(host.state, State::Loading);
    assert_eq!(peer.state, State::Loading);

    let mut out6 = Vec::new();
    host.key_down_event(Key::W, &mut out6);
    assert_eq!(host.state, State::Playing);
    assert_eq!(out6, vec![Outgoing { to: peer_addr, message: Wrapper::StartSignal }]);
    assert_eq!(peer.state, State::Loading);

    let mut out7 = Vec::new();
    peer.key_down_event(Key::Space, &mut out7);
    assert_eq!(peer.state, State::Playing);
    assert_eq!(out7, vec![Outgoing { to: host_addr, message: Wrapper::StartSignal }]);
}

#[test]
fn host_relays_a_second_peer() {
    let (host_addr, first, second) = (addr(7878), addr(7879), addr(7880));
    let mut host = MainState::new(Network::Host, host_addr);
    let mut out = Vec::new();
    host.handle_connections(&datagram(first, &Wrapper::ConnectSignal), &mut out);
    let mut out = Vec::new();
    host.handle_connections(&datagram(second, &Wrapper::ConnectSignal), &mut out);
    assert_eq!(host.directory.peers(), &vec![first, second]);
    assert_eq!(
        out,
        vec![
            Outgoing { to: first, message: Wrapper::ShipWrapper(host.player_ship) },
            Outgoing { to: second, message: Wrapper::AddressWrapper(first) },
            Outgoing { to: first, message: Wrapper::AddressWrapper(second) },
            Outgoing { to: second, message: Wrapper::AddressWrapper(host_addr) },
        ]
    );
    // a repeated request from a known address is not relayed again
    let mut out = Vec::new();
    host.handle_connections(&datagram(second, &Wrapper::ConnectSignal), &mut out);
    assert_eq!(host.directory.peers(), &vec![first, second]);
    assert_eq!(out.len(), 2);
}

#[test]
fn start_signal_begins_play() {
    let mut peer = MainState::new(Network::Peer, addr(2));
    let mut out = Vec::new();
    peer.handle_connections(&datagram(addr(1), &Wrapper::StartSignal), &mut out);
    assert_eq!(peer.state, State::Playing);
}

#[test]
fn malformed_datagram_is_dropped() {
    let mut s = playing(Network::Peer, addr(2));
    s.enemy_fire_delay = u64::MAX;
    let before = s.bullets.len();
    let mut out = Vec::new();
    let bad = Some(Datagram { from: addr(1), bytes: vec![0, 1, 2] });
    s.update(0, 0, W, H, &bad, &mut out);
    assert_eq!(s.bullets.len(), before);
    assert_eq!(s.state, State::Playing);
}

#[test]
fn special_bullet_from_another_node_hits_the_boss() {
    let mut b = playing(Network::Peer, addr(2));
    b.enemy_fire_delay = u64::MAX;
    let mut shooter = Ship::with_id(Possession::Player, 77);
    shooter.pos = Point { x: 400000, y: 200000 };
    let bullet = shooter.shoot(None, BulletType::Special);
    assert_eq!(bullet.pos.y, 180000);
    let mut out = Vec::new();
    b.update(0, 0, W, H, &datagram(addr(1), &Wrapper::BulletWrapper(bullet)), &mut out);
    assert_eq!(b.bullets, vec![bullet]);
    for _ in 0..3 {
        b.update(100, 0, W, H, &None, &mut out);
    }
    assert_eq!(b.enemy_ship.health, 1000);
    b.update(100, 0, W, H, &None, &mut out);
    assert_eq!(b.enemy_ship.health, 1000 - 5000);
    assert_eq!(b.state, State::Won);
    b.update(100, 0, W, H, &None, &mut out);
    assert!(b.bullets.is_empty());
    assert_eq!(b.enemy_ship.health, -4000);
}

#[test]
fn restart_signal_resets_the_receiver() {
    let mut s = playing(Network::Peer, addr(2));
    s.enemy_fire_delay = u64::MAX;
    s.input_state.fire = true;
    s.input_state.left = true;
    let mut out = Vec::new();
    s.update(100, 10, W, H, &None, &mut out);
    s.update(100, 300, W, H, &None, &mut out);
    s.player_ship.health = 500;
    assert!(!s.bullets.is_empty());
    assert_ne!(s.player_ship.pos, Point { x: 400000, y: 500000 });
    s.update(100, 600, W, H, &datagram(addr(1), &Wrapper::RestartSignal), &mut out);
    assert_eq!(s.state, State::Loading);
    assert!(s.bullets.is_empty());
    assert_eq!(s.player_ship.health, 1000);
    assert_eq!(s.player_ship.pos, Point { x: 400000, y: 500000 });
    assert_eq!(s.input_state, InputState::new());
}

#[test]
fn restart_key_resets_and_tells_peers() {
    let mut s = playing(Network::Host, addr(1));
    s.directory.register_peer(addr(2));
    s.player_ship.health = -1000;
    s.state = State::Lost;
    let mut out = Vec::new();
    assert!(!s.key_down_event(Key::R, &mut out));
    assert_eq!(out, vec![Outgoing { to: addr(2), message: Wrapper::RestartSignal }]);
    assert_eq!(s.state, State::Loading);
    assert_eq!(s.player_ship.health, 1000);
    assert!(s.key_down_event(Key::Q, &mut out));
}

#[test]
fn dead_player_input_is_ignored() {
    let mut s = playing(Network::Peer, addr(2));
    s.player_ship.health = -1000;
    s.state = State::Lost;
    let mut out = Vec::new();
    s.key_down_event(Key::Space, &mut out);
    assert!(!s.input_state.fire);
}

#[test]
fn local_death_loses_and_reports() {
    let mut s = playing(Network::Peer, addr(2));
    s.directory.register_peer(addr(1));
    s.player_ship.health = -1000;
    let mut out = Vec::new();
    s.resolve_outcome(&mut out);
    assert_eq!(s.state, State::Lost);
    assert_eq!(out, vec![Outgoing { to: addr(1), message: Wrapper::DeathSignal(s.player_ship.id) }]);
}

#[test]
fn beaten_boss_wins_and_announces() {
    let mut s = playing(Network::Peer, addr(2));
    s.directory.register_peer(addr(1));
    s.enemy_ship.health = 99;
    let mut out = Vec::new();
    s.resolve_outcome(&mut out);
    assert_eq!(s.state, State::Won);
    assert_eq!(out, vec![Outgoing { to: addr(1), message: Wrapper::WinSignal }]);
    s.enemy_ship.health = 100;
    let mut t = playing(Network::Peer, addr(2));
    t.enemy_ship.health = 100;
    t.resolve_outcome(&mut out);
    assert_eq!(t.state, State::Playing);
}

#[test]
fn win_signal_forces_won() {
    let mut s = playing(Network::Peer, addr(2));
    s.state = State::Lost;
    s.player_ship.health = -1000;
    s.handle_updates(&datagram(addr(1), &Wrapper::WinSignal));
    assert_eq!(s.state, State::Won);
    let mut w = playing(Network::Peer, addr(2));
    w.handle_updates(&datagram(addr(1), &Wrapper::WinSignal));
    assert_eq!(w.state, State::Won);
}

#[test]
fn won_is_not_left_by_death_or_input() {
    let mut w = playing(Network::Peer, addr(2));
    w.state = State::Won;
    w.player_ship.health = -1000;
    let mut out = Vec::new();
    w.resolve_outcome(&mut out);
    assert_eq!(w.state, State::Won);
    w.player_ship.health = 1000;
    let mut out = Vec::new();
    w.key_down_event(Key::W, &mut out);
    assert_eq!(w.state, State::Won);
    assert!(out.is_empty());
}

#[test]
fn throttle_counts_down_past_zero() {
    let mut s = playing(Network::Peer, addr(2));
    s.broadcast_timer = 0;
    let mut out = Vec::new();
    s.move_player(5, W, H, &mut out);
    assert_eq!(s.broadcast_timer, -5);
    assert!(out.is_empty());
    s.broadcast_timer = i64::MIN + 3;
    s.move_player(5, W, H, &mut out);
    assert_eq!(s.broadcast_timer, i64::MIN);
}

#[test]
fn boss_stays_put_during_a_tick() {
    let mut s = playing(Network::Host, addr(1));
    let before = s.enemy_ship.pos;
    let mut out = Vec::new();
    s.update(100, 0, W, H, &None, &mut out);
    assert_eq!(s.enemy_ship.pos, before);
}

#[test]
fn ship_update_moves_replica() {
    let mut s = playing(Network::Peer, addr(2));
    let mut other = Ship::with_id(Possession::Player, 31);
    other.health = -1000;
    s.directory.register_remote_ship(other);
    s.handle_updates(&datagram(addr(1), &Wrapper::ShipUpdateWrapper(ShipUpdate::new(31, 5, 6, true))));
    let r = s.directory.replicas()[0];
    assert_eq!(r.pos, Point { x: 5, y: 6 });
    assert!(r.shield);
    assert_eq!(r.health, 1000);
}

#[test]
fn death_report_damages_replica() {
    let mut s = playing(Network::Peer, addr(2));
    s.directory.register_remote_ship(Ship::with_id(Possession::Player, 31));
    s.handle_updates(&datagram(addr(1), &Wrapper::DeathSignal(31)));
    assert_eq!(s.directory.replicas()[0].health, -1000);
}

fn bullet_at(y: i32, hit: bool) -> Bullet {
    Bullet {
        possession: Possession::Player,
        heading: Heading::up(),
        pos: Point { x: 100000, y },
        hit,
        bullet_type: BulletType::Normal,
    }
}

#[test]
fn bullets_on_the_edges_are_kept() {
    let mut s = MainState::new(Network::Peer, addr(2));
    s.bullets = vec![bullet_at(0, false), bullet_at(H, false), bullet_at(-1, false), bullet_at(H + 1, false), bullet_at(300, true)];
    s.advance_bullets(0, H);
    assert_eq!(s.bullets, vec![bullet_at(0, false), bullet_at(H, false)]);
}

#[test]
fn boss_bullet_hits_unshielded_player_only() {
    let mut s = playing(Network::Peer, addr(2));
    let mut b = bullet_at(500000, false);
    b.possession = Possession::Enemy;
    b.pos.x = 400000;
    s.bullets = vec![b];
    s.check_collisions();
    assert_eq!(s.player_ship.health, -1000);
    assert!(s.bullets[0].hit);
    let mut t = playing(Network::Peer, addr(2));
    t.player_ship.shield = true;
    t.bullets = vec![b];
    t.check_collisions();
    assert_eq!(t.player_ship.health, 1000);
    assert!(t.bullets[0].hit);
}

#[test]
fn boss_bullet_hits_first_replica_in_range() {
    let mut s = playing(Network::Peer, addr(2));
    let mut r = Ship::with_id(Possession::Player, 8);
    r.pos = Point { x: 100000, y: 100000 };
    s.directory.register_remote_ship(r);
    let mut b = bullet_at(100000, false);
    b.possession = Possession::Enemy;
    s.bullets = vec![b, b];
    s.check_collisions();
    // the first bullet damages the replica; the second finds it dead and misses
    assert_eq!(s.directory.replicas()[0].health, -1000);
    assert!(s.bullets[0].hit);
    assert!(!s.bullets[1].hit);
    assert_eq!(s.player_ship.health, 1000);
}

#[test]
fn player_fires_and_broadcasts() {
    let mut s = playing(Network::Peer, addr(2));
    s.directory.register_peer(addr(1));
    s.input_state.fire = true;
    let mut out = Vec::new();
    s.fire_weapons(16, 1000, &mut out);
    let b = s.player_ship.shoot(None, BulletType::Normal);
    assert_eq!(s.bullets, vec![b]);
    assert_eq!(out, vec![Outgoing { to: addr(1), message: Wrapper::BulletWrapper(b) }]);
    assert_eq!(s.player_fire_delay, 1200);
    let mut out = Vec::new();
    s.fire_weapons(16, 1100, &mut out);
    assert!(out.is_empty());
    assert_eq!(s.bullets.len(), 1);
}

#[test]
fn special_has_a_cooldown() {
    let mut s = playing(Network::Peer, addr(2));
    s.input_state.special = true;
    let mut out = Vec::new();
    s.fire_weapons(16, 0, &mut out);
    assert_eq!(s.bullets.len(), 1);
    assert_eq!(s.bullets[0].bullet_type, BulletType::Special);
    assert_eq!(s.special_timer, 5000);
    assert!(!s.special_ready());
    s.fire_weapons(4999, 0, &mut out);
    assert_eq!(s.bullets.len(), 1);
    s.fire_weapons(2, 0, &mut out);
    assert_eq!(s.bullets.len(), 2);
}

#[test]
fn shield_goes_up_and_down_with_updates() {
    let mut s = playing(Network::Peer, addr(2));
    s.directory.register_peer(addr(1));
    s.input_state.shield = true;
    let mut out = Vec::new();
    s.fire_weapons(16, 0, &mut out);
    let p = s.player_ship;
    assert!(p.shield);
    assert_eq!(s.shield_timer, 15000);
    assert_eq!(s.shield_active, 2000 - 16);
    assert_eq!(out, vec![Outgoing { to: addr(1), message: Wrapper::ShipUpdateWrapper(ShipUpdate::new(p.id, p.pos.x, p.pos.y, true)) }]);
    s.input_state.shield = false;
    let mut out = Vec::new();
    s.fire_weapons(2000, 0, &mut out);
    assert!(s.player_ship.shield);
    s.fire_weapons(16, 0, &mut out);
    assert!(!s.player_ship.shield);
    assert_eq!(out, vec![Outgoing { to: addr(1), message: Wrapper::ShipUpdateWrapper(ShipUpdate::new(p.id, p.pos.x, p.pos.y, false)) }]);
}

#[test]
fn movement_update_is_throttled() {
    let mut s = playing(Network::Peer, addr(2));
    s.directory.register_peer(addr(1));
    s.input_state.up = true;
    let mut out = Vec::new();
    s.move_player(10, W, H, &mut out);
    assert!(out.is_empty());
    assert_eq!(s.broadcast_timer, 23);
    s.move_player(30, W, H, &mut out);
    let p = s.player_ship;
    assert_eq!(p.pos.y, 500000 - 40 * 350);
    assert_eq!(out, vec![Outgoing { to: addr(1), message: Wrapper::ShipUpdateWrapper(ShipUpdate::new(p.id, p.pos.x, p.pos.y, false)) }]);
    assert_eq!(s.broadcast_timer, 33);
}

#[test]
fn boss_volley_on_a_peer() {
    let mut s = playing(Network::Peer, addr(2));
    s.directory.register_peer(addr(1));
    let mut out = Vec::new();
    s.boss_fire(100, Heading::up(), Heading::up(), &mut out);
    assert_eq!(s.bullets.len(), 3);
    assert!(out.is_empty());
    assert_eq!(s.enemy_fire_delay, 350);
    assert_eq!(s.bullets[2].heading, Heading::down());
    s.boss_fire(200, Heading::up(), Heading::up(), &mut out);
    assert_eq!(s.bullets.len(), 3);
}

#[test]
fn boss_volley_on_the_host() {
    let mut s = playing(Network::Host, addr(1));
    s.directory.register_peer(addr(2));
    let mut out = Vec::new();
    let r = Heading { sin: 600, cos: 800 };
    s.boss_fire(0, r, r, &mut out);
    assert_eq!(s.bullets.len(), 4);
    assert_eq!(s.bullets[3].heading, Heading { sin: -600, cos: -800 });
    assert_eq!(out, vec![Outgoing { to: addr(2), message: Wrapper::BulletWrapper(s.bullets[3]) }]);
    s.enemy_ship.health = 499;
    let mut out = Vec::new();
    s.boss_fire(1000, r, r, &mut out);
    assert_eq!(s.bullets.len(), 9);
    assert_eq!(out.len(), 2);
}

#[test]
fn host_random_shot_stays_within_an_eighth_turn() {
    for _ in 0..20 {
        let mut s = playing(Network::Host, addr(1));
        s.directory.register_peer(addr(2));
        let mut out = Vec::new();
        s.update(0, 0, W, H, &None, &mut out);
        assert_eq!(out.len(), 1);
        match out[0].message {
            Wrapper::BulletWrapper(b) => {
                assert!(-707 <= b.heading.sin && b.heading.sin <= 707);
                assert!(b.heading.cos <= -707);
            }
            _ => panic!("expected a bullet"),
        }
    }
}

#[test]
fn buffer_sizes_follow_the_phase() {
    let s = MainState::new(Network::Host, addr(1));
    assert_eq!(s.receive_buffer_size(), 512);
    let p = playing(Network::Host, addr(1));
    assert_eq!(p.receive_buffer_size(), 128);
    assert!(!p.shield_ready());
}
