use orchid::directory::{Outgoing, PeerDirectory};
use orchid::entities::{Point, Possession, Ship};
use orchid::network::{PeerAddr, ShipUpdate, Wrapper};

fn addr(port: u16) -> PeerAddr {
    PeerAddr { ip: 0x7f00_0001, port }
}

#[test]
fn register_remote_ship_twice_keeps_one_replica() {
    let mut d = PeerDirectory::new();
    let ship = Ship::with_id(Possession::Player, 11);
    assert!(d.register_remote_ship(ship));
    let mut moved = ship;
    moved.pos = Point { x: 1, y: 2 };
    assert!(!d.register_remote_ship(moved));
    assert_eq!(d.replicas().len(), 1);
    assert_eq!(d.replicas()[0], ship);
    assert!(d.register_remote_ship(Ship::with_id(Possession::Player, 12)));
    assert_eq!(d.replicas().len(), 2);
}

#[test]
fn register_peer_is_idempotent() {
    let mut d = PeerDirectory::new();
    assert!(d.register_peer(addr(1)));
    assert!(!d.register_peer(addr(1)));
    assert!(d.register_peer(addr(2)));
    assert_eq!(d.peers(), &vec![addr(1), addr(2)]);
    assert!(d.contains_peer(&addr(2)));
    assert!(!d.contains_peer(&addr(3)));
}

#[test]
fn broadcast_sends_once_to_each_peer() {
    let mut d = PeerDirectory::new();
    d.register_peer(addr(1));
    d.register_peer(addr(2));
    let mut out = Vec::new();
    d.broadcast(Wrapper::WinSignal, &mut out);
    assert_eq!(
        out,
        vec![
            Outgoing { to: addr(1), message: Wrapper::WinSignal },
            Outgoing { to: addr(2), message: Wrapper::WinSignal },
        ]
    );
}

#[test]
fn broadcast_without_peers_sends_nothing() {
    let d = PeerDirectory::new();
    let mut out = Vec::new();
    d.broadcast(Wrapper::StartSignal, &mut out);
    assert!(out.is_empty());
}

#[test]
fn update_moves_named_replica_and_revives_it() {
    let mut d = PeerDirectory::new();
    let mut dead = Ship::with_id(Possession::Player, 5);
    dead.health = -1000;
    d.register_remote_ship(dead);
    d.register_remote_ship(Ship::with_id(Possession::Player, 6));
    assert!(d.apply_update(ShipUpdate::new(5, 10, 20, true)));
    let r = d.replicas()[0];
    assert_eq!(r.pos, Point { x: 10, y: 20 });
    assert!(r.shield);
    assert_eq!(r.health, 1000);
    assert_eq!(d.replicas()[1], Ship::with_id(Possession::Player, 6));
    assert!(!d.apply_update(ShipUpdate::new(99, 0, 0, false)));
}

#[test]
fn death_report_damages_named_replica() {
    let mut d = PeerDirectory::new();
    d.register_remote_ship(Ship::with_id(Possession::Player, 5));
    assert!(d.report_death(5));
    assert_eq!(d.replicas()[0].health, -1000);
    assert!(!d.report_death(6));
}

#[test]
fn find_replica_by_identity() {
    let mut d = PeerDirectory::new();
    d.register_remote_ship(Ship::with_id(Possession::Player, 5));
    d.register_remote_ship(Ship::with_id(Possession::Player, 8));
    assert_eq!(d.find_replica(8), Some(1));
    assert_eq!(d.find_replica(9), None);
}
