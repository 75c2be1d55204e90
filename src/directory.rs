//! The peer directory: the addresses a node sends to, and its replicas of the
//! other nodes' ships, each kept once.
use vstd::prelude::*;

use crate::entities::{Point, Ship, PLAYER_HEALTH, ENEMY_BULLET_DAMAGE, clamp32};
use crate::network::{PeerAddr, ShipUpdate, Wrapper, lemma_decode_encode, spec_decode, spec_encode};

verus! {

/// A message to send to one address.
#[derive(Clone, Copy, Debug, PartialEq, Eq, Structural)]
pub struct Outgoing {
    pub to: PeerAddr,
    pub message: Wrapper,
}

/// No two ships of `s` share an identity.
pub open spec fn ids_unique(s: Seq<Ship>) -> bool {
    forall|i: int, j: int| 0 <= i < j < s.len() ==> s[i].id != s[j].id
}

/// Some ship of `s` has identity `id`.
pub open spec fn has_id(s: Seq<Ship>, id: u128) -> bool {
    exists|i: int| 0 <= i < s.len() && s[i].id == id
}

/// `s` with the replica `ship` added, unless a replica of its identity is there already.
pub open spec fn with_ship(s: Seq<Ship>, ship: Ship) -> Seq<Ship> {
    if has_id(s, ship.id) {
        s
    } else {
        s.push(ship)
    }
}

/// `p` with the address `a` added, unless it is there already.
pub open spec fn with_peer(p: Seq<PeerAddr>, a: PeerAddr) -> Seq<PeerAddr> {
    if p.contains(a) {
        p
    } else {
        p.push(a)
    }
}

/// One message `m` to each address of `p`, in order.
pub open spec fn fan_out(p: Seq<PeerAddr>, m: Wrapper) -> Seq<Outgoing> {
    p.map_values(|a: PeerAddr| Outgoing { to: a, message: m })
}

/// The replica of `s` as a ship update leaves it: at the new position, with the new
/// shield, and alive.
pub open spec fn spec_updated(s: Ship, u: ShipUpdate) -> Ship {
    Ship { pos: Point { x: u.x, y: u.y }, shield: u.shield, health: PLAYER_HEALTH, ..s }
}

/// The replica of `s` after its owner reported its death.
pub open spec fn spec_reported_dead(s: Ship) -> Ship {
    Ship { health: clamp32(s.health - ENEMY_BULLET_DAMAGE), ..s }
}

/// The replicas `s` after the ship update `u`: the one it names is updated.
pub open spec fn updated_all(s: Seq<Ship>, u: ShipUpdate) -> Seq<Ship> {
    s.map_values(|x: Ship| if x.id == u.id { spec_updated(x, u) } else { x })
}

/// The replicas `s` after the ship with identity `id` was reported dead.
pub open spec fn reported_dead_all(s: Seq<Ship>, id: u128) -> Seq<Ship> {
    s.map_values(|x: Ship| if x.id == id { spec_reported_dead(x) } else { x })
}

pub struct PeerDirectory {
    peers: Vec<PeerAddr>,
    ships: Vec<Ship>,
}

impl PeerDirectory {
    /// The known addresses, in the order they were learnt.
    pub closed spec fn peers_view(&self) -> Seq<PeerAddr> {
        self.peers@
    }

    /// The replicas of remote ships, in the order they were learnt.
    pub closed spec fn ships_view(&self) -> Seq<Ship> {
        self.ships@
    }

    /// Each address is known once, and each remote ship has at most one replica.
    pub open spec fn well_formed(&self) -> bool {
        &&& self.peers_view().no_duplicates()
        &&& ids_unique(self.ships_view())
    }

    pub fn new() -> (r: PeerDirectory)
        ensures
            r.well_formed(),
            r.peers_view() == Seq::<PeerAddr>::empty(),
            r.ships_view() == Seq::<Ship>::empty(),
    {
        PeerDirectory { peers: Vec::new(), ships: Vec::new() }
    }

    pub fn peers(&self) -> (r: &Vec<PeerAddr>)
        ensures
            r@ == self.peers_view(),
    {
        &self.peers
    }

    pub fn replicas(&self) -> (r: &Vec<Ship>)
        ensures
            r@ == self.ships_view(),
    {
        &self.ships
    }

    pub fn contains_peer(&self, a: &PeerAddr) -> (r: bool)
        ensures
            r == self.peers_view().contains(*a),
    {
        let mut i: usize = 0;
        while i < self.peers.len()
            invariant
                i <= self.peers@.len(),
                forall|k: int| 0 <= k < i ==> self.peers@[k] != *a,
            decreases self.peers@.len() - i,
        {
            if self.peers[i] == *a {
                return true;
            }
            i = i + 1;
        }
        false
    }

    /// Adds an address unless it is known already; returns whether it was new.
    pub fn register_peer(&mut self, a: PeerAddr) -> (added: bool)
        requires
            old(self).well_formed(),
        ensures
            final(self).well_formed(),
            added == !old(self).peers_view().contains(a),
            final(self).peers_view() == with_peer(old(self).peers_view(), a),
            final(self).ships_view() == old(self).ships_view(),
    {
        if self.contains_peer(&a) {
            false
        } else {
            self.peers.push(a);
            assert(self.peers@.no_duplicates()) by {
                assert forall|i: int, j: int|
                    0 <= i < self.peers@.len() && 0 <= j < self.peers@.len() && i != j implies
                    self.peers@[i] != self.peers@[j] by {
                    if j == self.peers@.len() - 1 {
                        assert(old(self).peers@[i] == self.peers@[i]);
                    } else if i == self.peers@.len() - 1 {
                        assert(old(self).peers@[j] == self.peers@[j]);
                    }
                }
            }
            true
        }
    }

    /// The position of the replica with identity `id`, if there is one.
    pub fn find_replica(&self, id: u128) -> (r: Option<usize>)
        ensures
            match r {
                Some(i) => i < self.ships_view().len() && self.ships_view()[i as int].id == id,
                None => !has_id(self.ships_view(), id),
            },
    {
        let mut i: usize = 0;
        while i < self.ships.len()
            invariant
                i <= self.ships@.len(),
                forall|k: int| 0 <= k < i ==> self.ships@[k].id != id,
            decreases self.ships@.len() - i,
        {
            if self.ships[i].id == id {
                return Some(i);
            }
            i = i + 1;
        }
        None
    }

    /// Adds a replica of `ship` unless one with its identity exists; returns whether
    /// it was new.
    pub fn register_remote_ship(&mut self, ship: Ship) -> (added: bool)
        requires
            old(self).well_formed(),
        ensures
            final(self).well_formed(),
            added == !has_id(old(self).ships_view(), ship.id),
            final(self).ships_view() == with_ship(old(self).ships_view(), ship),
            final(self).peers_view() == old(self).peers_view(),
    {
        match self.find_replica(ship.id) {
            Some(_) => false,
            None => {
                self.ships.push(ship);
                assert(ids_unique(self.ships@)) by {
                    assert forall|i: int, j: int| 0 <= i < j < self.ships@.len() implies
                        self.ships@[i].id != self.ships@[j].id by {
                        assert(self.ships@[i] == old(self).ships@[i]);
                        if j < old(self).ships@.len() {
                            assert(self.ships@[j] == old(self).ships@[j]);
                        }
                    }
                }
                true
            },
        }
    }

    /// Applies a ship update to the replica it names; returns whether there was one.
    /// Any other replica, and an unknown identity, are left alone.
    pub fn apply_update(&mut self, u: ShipUpdate) -> (found: bool)
        requires
            old(self).well_formed(),
        ensures
            final(self).well_formed(),
            found == has_id(old(self).ships_view(), u.id),
            final(self).peers_view() == old(self).peers_view(),
            final(self).ships_view() == updated_all(old(self).ships_view(), u),
    {
        match self.find_replica(u.id) {
            Some(i) => {
                let s = self.ships[i];
                self.ships.set(
                    i,
                    Ship {
                        pos: Point { x: u.x, y: u.y },
                        shield: u.shield,
                        health: PLAYER_HEALTH,
                        ..s
                    },
                );
                assert(self.ships@ =~= updated_all(old(self).ships@, u));
                true
            },
            None => {
                assert(self.ships@ =~= updated_all(old(self).ships@, u));
                false
            },
        }
    }

    /// Applies a boss bullet's hit to the replica at position `i`.
    pub fn hit_replica(&mut self, i: usize)
        requires
            old(self).well_formed(),
            i < old(self).ships_view().len(),
        ensures
            final(self).well_formed(),
            final(self).peers_view() == old(self).peers_view(),
            final(self).ships_view() == old(self).ships_view().update(
                i as int,
                old(self).ships_view()[i as int].spec_hit_by_enemy_bullet(),
            ),
    {
        let mut s = self.ships[i];
        s.hit_by_enemy_bullet();
        self.ships.set(i, s);
    }

    /// Marks the replica with identity `id` as its owner's report of death says.
    pub fn report_death(&mut self, id: u128) -> (found: bool)
        requires
            old(self).well_formed(),
        ensures
            final(self).well_formed(),
            found == has_id(old(self).ships_view(), id),
            final(self).peers_view() == old(self).peers_view(),
            final(self).ships_view() == reported_dead_all(old(self).ships_view(), id),
    {
        match self.find_replica(id) {
            Some(i) => {
                let mut s = self.ships[i];
                let h: i64 = s.health as i64 - ENEMY_BULLET_DAMAGE as i64;
                s.health = if h < i32::MIN as i64 {
                    i32::MIN
                } else {
                    h as i32
                };
                self.ships.set(i, s);
                assert(self.ships@ =~= reported_dead_all(old(self).ships@, id));
                true
            },
            None => {
                assert(self.ships@ =~= reported_dead_all(old(self).ships@, id));
                false
            },
        }
    }

    /// Puts every replica at `p`.
    pub fn move_replicas_to(&mut self, p: Point)
        requires
            old(self).well_formed(),
        ensures
            final(self).well_formed(),
            final(self).peers_view() == old(self).peers_view(),
            final(self).ships_view() == old(self).ships_view().map_values(
                |s: Ship| Ship { pos: p, ..s },
            ),
    {
        let mut i: usize = 0;
        while i < self.ships.len()
            invariant
                i <= self.ships@.len(),
                self.ships@.len() == old(self).ships@.len(),
                self.peers == old(self).peers,
                forall|k: int|
                    0 <= k < self.ships@.len() ==> #[trigger] self.ships@[k] == if k < i {
                        Ship { pos: p, ..old(self).ships@[k] }
                    } else {
                        old(self).ships@[k]
                    },
            decreases self.ships@.len() - i,
        {
            self.ships[i].move_to_point(p);
            i = i + 1;
        }
        assert(self.ships@ =~= old(self).ships@.map_values(|s: Ship| Ship { pos: p, ..s }));
    }

    /// Resets every replica to its spawn state.
    pub fn reset_replicas(&mut self)
        requires
            old(self).well_formed(),
        ensures
            final(self).well_formed(),
            final(self).peers_view() == old(self).peers_view(),
            final(self).ships_view() == old(self).ships_view().map_values(|s: Ship| s.spec_reset()),
    {
        let mut i: usize = 0;
        while i < self.ships.len()
            invariant
                i <= self.ships@.len(),
                self.ships@.len() == old(self).ships@.len(),
                self.peers == old(self).peers,
                forall|k: int|
                    0 <= k < self.ships@.len() ==> #[trigger] self.ships@[k] == if k < i {
                        old(self).ships@[k].spec_reset()
                    } else {
                        old(self).ships@[k]
                    },
            decreases self.ships@.len() - i,
        {
            self.ships[i].reset();
            i = i + 1;
        }
        assert(self.ships@ =~= old(self).ships@.map_values(|s: Ship| s.spec_reset()));
    }

    /// Queues `m` once for each known address, in order.
    pub fn broadcast(&self, m: Wrapper, out: &mut Vec<Outgoing>)
        ensures
            final(out)@ == old(out)@ + fan_out(self.peers_view(), m),
    {
        let mut i: usize = 0;
        while i < self.peers.len()
            invariant
                i <= self.peers@.len(),
                out@ == old(out)@ + fan_out(self.peers@.take(i as int), m),
            decreases self.peers@.len() - i,
        {
            out.push(Outgoing { to: self.peers[i], message: m });
            assert(self.peers@.take(i + 1) =~= self.peers@.take(i as int).push(
                self.peers@[i as int],
            ));
            assert(out@ =~= old(out)@ + fan_out(self.peers@.take(i + 1), m));
            i = i + 1;
        }
        assert(self.peers@.take(i as int) =~= self.peers@);
    }
}

/// Registering the same remote ship twice changes nothing the second time, and
/// leaves exactly one replica with its identity.
pub proof fn lemma_register_remote_ship_idempotent(s: Seq<Ship>, ship: Ship)
    requires
        ids_unique(s),
    ensures
        with_ship(with_ship(s, ship), ship) == with_ship(s, ship),
        ids_unique(with_ship(s, ship)),
        has_id(with_ship(s, ship), ship.id),
        forall|i: int, j: int|
            0 <= i < with_ship(s, ship).len() && 0 <= j < with_ship(s, ship).len()
                && with_ship(s, ship)[i].id == ship.id && with_ship(s, ship)[j].id == ship.id
                ==> i == j,
{
    let t = with_ship(s, ship);
    if !has_id(s, ship.id) {
        assert(t[s.len() as int].id == ship.id);
        assert forall|i: int, j: int| 0 <= i < j < t.len() implies t[i].id != t[j].id by {
            if j == s.len() {
                assert(t[i] == s[i]);
            }
        }
    }
    assert(has_id(t, ship.id));
}

/// Registering the same address twice changes nothing the second time.
pub proof fn lemma_register_peer_idempotent(p: Seq<PeerAddr>, a: PeerAddr)
    ensures
        with_peer(with_peer(p, a), a) == with_peer(p, a),
        with_peer(p, a).contains(a),
{
    if !p.contains(a) {
        assert(p.push(a)[p.len() as int] == a);
    }
}

/// A broadcast queues exactly one message for each known address, in order, and
/// each of them decodes, once encoded, to the message broadcast.
pub proof fn lemma_broadcast_round_trip(p: Seq<PeerAddr>, m: Wrapper)
    ensures
        fan_out(p, m).len() == p.len(),
        forall|i: int|
            0 <= i < p.len() ==> {
                &&& (#[trigger] fan_out(p, m)[i]).to == p[i]
                &&& spec_decode(spec_encode(fan_out(p, m)[i].message)) == Some(m)
            },
{
    lemma_decode_encode(m);
}

} // verus!
