//! The wire protocol: one tagged message per datagram, in a fixed binary layout.
//!
//! A message is a tag byte followed by its fields, little-endian, with no padding.
//! A flag is one byte, 0 or 1; a faction or a bullet kind is one byte, 0 or 1; an
//! optional direction is two bytes, 0 then 0 when absent, 1 then the value when present.
//! Each tag fixes the length of the message, and a datagram holds exactly one message:
//! any other byte string is malformed.
use vstd::prelude::*;
use vstd::bytes::*;
use vstd::slice::slice_subrange;

use crate::entities::{Bullet, BulletType, Heading, Point, Possession, Ship};

verus! {

/// An IPv4 socket address: the address as its 32-bit value, and the port.
#[derive(Clone, Copy, Debug, PartialEq, Eq, Structural)]
pub struct PeerAddr {
    pub ip: u32,
    pub port: u16,
}

/// An incremental update of a ship: where it is and whether its shield is up.
#[derive(Clone, Copy, Debug, PartialEq, Eq, Structural)]
pub struct ShipUpdate {
    pub id: u128,
    pub x: i32,
    pub y: i32,
    pub shield: bool,
}

impl ShipUpdate {
    pub fn new(id: u128, x: i32, y: i32, shield: bool) -> (r: ShipUpdate)
        ensures
            r == (ShipUpdate { id, x, y, shield }),
    {
        ShipUpdate { id, x, y, shield }
    }
}

/// A message between nodes.
#[derive(Clone, Copy, Debug, PartialEq, Eq, Structural)]
pub enum Wrapper {
    /// A bullet fired on the sending node.
    BulletWrapper(Bullet),
    /// A full snapshot of the sender's ship, sent while loading.
    ShipWrapper(Ship),
    /// The address of a node to add to the directory.
    AddressWrapper(PeerAddr),
    /// A ship's new position and shield.
    ShipUpdateWrapper(ShipUpdate),
    /// A new node asks the host to join.
    ConnectSignal,
    /// Play begins.
    StartSignal,
    /// Every node starts over.
    RestartSignal,
    /// The boss is beaten.
    WinSignal,
    /// The ship with this identity died.
    DeathSignal(u128),
}

/// A datagram as received: the sender's address and the bytes.
#[derive(Clone, Debug)]
pub struct Datagram {
    pub from: PeerAddr,
    pub bytes: Vec<u8>,
}

/// The role of a node, fixed for its lifetime.
#[derive(Clone, Copy, Debug, PartialEq, Eq, Structural)]
pub enum Network {
    Host,
    Peer,
}

/// Why a datagram could not be decoded.
#[derive(Clone, Copy, Debug, PartialEq, Eq, Structural)]
pub enum DecodeError {
    MalformedMessage,
}

pub const TAG_BULLET: u8 = 0;

pub const TAG_SHIP: u8 = 1;

pub const TAG_ADDRESS: u8 = 2;

pub const TAG_SHIP_UPDATE: u8 = 3;

pub const TAG_CONNECT: u8 = 4;

pub const TAG_START: u8 = 5;

pub const TAG_RESTART: u8 = 6;

pub const TAG_WIN: u8 = 7;

pub const TAG_DEATH: u8 = 8;

// ---------------------------------------------------------------------------
// Layout of each field
// ---------------------------------------------------------------------------

pub open spec fn enc_flag(b: bool) -> Seq<u8> {
    seq![if b { 1u8 } else { 0u8 }]
}

pub open spec fn enc_possession(p: Possession) -> Seq<u8> {
    seq![
        match p {
            Possession::Player => 0u8,
            Possession::Enemy => 1u8,
        },
    ]
}

pub open spec fn enc_bullet_type(t: BulletType) -> Seq<u8> {
    seq![
        match t {
            BulletType::Normal => 0u8,
            BulletType::Special => 1u8,
        },
    ]
}

pub open spec fn enc_i16(x: i16) -> Seq<u8> {
    spec_u16_to_le_bytes(x as u16)
}

pub open spec fn enc_i32(x: i32) -> Seq<u8> {
    spec_u32_to_le_bytes(x as u32)
}

pub open spec fn enc_direction(d: Option<i8>) -> Seq<u8> {
    match d {
        None => seq![0u8, 0u8],
        Some(v) => seq![1u8, v as u8],
    }
}

pub open spec fn enc_point(p: Point) -> Seq<u8> {
    enc_i32(p.x) + enc_i32(p.y)
}

pub open spec fn enc_heading(h: Heading) -> Seq<u8> {
    enc_i16(h.sin) + enc_i16(h.cos)
}

pub open spec fn enc_bullet(b: Bullet) -> Seq<u8> {
    enc_possession(b.possession) + enc_heading(b.heading) + enc_point(b.pos) + enc_flag(b.hit)
        + enc_bullet_type(b.bullet_type)
}

pub open spec fn enc_ship(s: Ship) -> Seq<u8> {
    enc_i32(s.health) + enc_possession(s.ship_type) + enc_point(s.pos) + enc_heading(s.heading)
        + enc_direction(s.direction) + enc_flag(s.shield) + spec_u128_to_le_bytes(s.id)
}

pub open spec fn enc_addr(a: PeerAddr) -> Seq<u8> {
    spec_u32_to_le_bytes(a.ip) + spec_u16_to_le_bytes(a.port)
}

pub open spec fn enc_update(u: ShipUpdate) -> Seq<u8> {
    spec_u128_to_le_bytes(u.id) + enc_i32(u.x) + enc_i32(u.y) + enc_flag(u.shield)
}

/// The bytes that carry message `m`.
pub open spec fn spec_encode(m: Wrapper) -> Seq<u8> {
    match m {
        Wrapper::BulletWrapper(b) => seq![TAG_BULLET] + enc_bullet(b),
        Wrapper::ShipWrapper(s) => seq![TAG_SHIP] + enc_ship(s),
        Wrapper::AddressWrapper(a) => seq![TAG_ADDRESS] + enc_addr(a),
        Wrapper::ShipUpdateWrapper(u) => seq![TAG_SHIP_UPDATE] + enc_update(u),
        Wrapper::ConnectSignal => seq![TAG_CONNECT],
        Wrapper::StartSignal => seq![TAG_START],
        Wrapper::RestartSignal => seq![TAG_RESTART],
        Wrapper::WinSignal => seq![TAG_WIN],
        Wrapper::DeathSignal(id) => seq![TAG_DEATH] + spec_u128_to_le_bytes(id),
    }
}

// ---------------------------------------------------------------------------
// Reading fields back at their offsets
// ---------------------------------------------------------------------------

pub open spec fn rd_u16(s: Seq<u8>, k: int) -> u16 {
    spec_u16_from_le_bytes(s.subrange(k, k + 2))
}

pub open spec fn rd_u32(s: Seq<u8>, k: int) -> u32 {
    spec_u32_from_le_bytes(s.subrange(k, k + 4))
}

pub open spec fn rd_u128(s: Seq<u8>, k: int) -> u128 {
    spec_u128_from_le_bytes(s.subrange(k, k + 16))
}

pub open spec fn rd_flag(s: Seq<u8>, k: int) -> Option<bool> {
    if s[k] == 0 {
        Some(false)
    } else if s[k] == 1 {
        Some(true)
    } else {
        None
    }
}

pub open spec fn rd_possession(s: Seq<u8>, k: int) -> Option<Possession> {
    if s[k] == 0 {
        Some(Possession::Player)
    } else if s[k] == 1 {
        Some(Possession::Enemy)
    } else {
        None
    }
}

pub open spec fn rd_bullet_type(s: Seq<u8>, k: int) -> Option<BulletType> {
    if s[k] == 0 {
        Some(BulletType::Normal)
    } else if s[k] == 1 {
        Some(BulletType::Special)
    } else {
        None
    }
}

pub open spec fn rd_direction(s: Seq<u8>, k: int) -> Option<Option<i8>> {
    if s[k] == 0 && s[k + 1] == 0 {
        Some(None)
    } else if s[k] == 1 {
        Some(Some(s[k + 1] as i8))
    } else {
        None
    }
}

pub open spec fn rd_point(s: Seq<u8>, k: int) -> Point {
    Point { x: rd_u32(s, k) as i32, y: rd_u32(s, k + 4) as i32 }
}

pub open spec fn rd_heading(s: Seq<u8>, k: int) -> Heading {
    Heading { sin: rd_u16(s, k) as i16, cos: rd_u16(s, k + 2) as i16 }
}

/// The bullet held in bytes 1 to 15 of `s`, if each enumerated field is valid.
pub open spec fn rd_bullet(s: Seq<u8>) -> Option<Bullet> {
    match (rd_possession(s, 1), rd_flag(s, 14), rd_bullet_type(s, 15)) {
        (Some(p), Some(hit), Some(t)) => Some(
            Bullet {
                possession: p,
                heading: rd_heading(s, 2),
                pos: rd_point(s, 6),
                hit,
                bullet_type: t,
            },
        ),
        _ => None,
    }
}

/// The ship held in bytes 1 to 36 of `s`, if each enumerated field is valid.
pub open spec fn rd_ship(s: Seq<u8>) -> Option<Ship> {
    match (rd_possession(s, 5), rd_direction(s, 18), rd_flag(s, 20)) {
        (Some(p), Some(d), Some(shield)) => Some(
            Ship {
                health: rd_u32(s, 1) as i32,
                ship_type: p,
                pos: rd_point(s, 6),
                heading: rd_heading(s, 14),
                direction: d,
                shield,
                id: rd_u128(s, 21),
            },
        ),
        _ => None,
    }
}

pub open spec fn rd_update(s: Seq<u8>) -> Option<ShipUpdate> {
    match rd_flag(s, 25) {
        Some(shield) => Some(
            ShipUpdate {
                id: rd_u128(s, 1),
                x: rd_u32(s, 17) as i32,
                y: rd_u32(s, 21) as i32,
                shield,
            },
        ),
        None => None,
    }
}

/// The length of every message with tag `t`.
pub open spec fn spec_message_len(t: u8) -> int {
    if t == TAG_BULLET {
        16
    } else if t == TAG_SHIP {
        37
    } else if t == TAG_ADDRESS {
        7
    } else if t == TAG_SHIP_UPDATE {
        26
    } else if t == TAG_DEATH {
        17
    } else {
        1
    }
}

/// The message that `s` holds, if it holds one.
pub open spec fn spec_decode(s: Seq<u8>) -> Option<Wrapper> {
    if s.len() == 0 || s[0] > TAG_DEATH || s.len() != spec_message_len(s[0]) {
        None
    } else {
        let t = s[0];
        if t == TAG_BULLET {
            match rd_bullet(s) {
                Some(b) => Some(Wrapper::BulletWrapper(b)),
                None => None,
            }
        } else if t == TAG_SHIP {
            match rd_ship(s) {
                Some(sh) => Some(Wrapper::ShipWrapper(sh)),
                None => None,
            }
        } else if t == TAG_ADDRESS {
            Some(Wrapper::AddressWrapper(PeerAddr { ip: rd_u32(s, 1), port: rd_u16(s, 5) }))
        } else if t == TAG_SHIP_UPDATE {
            match rd_update(s) {
                Some(u) => Some(Wrapper::ShipUpdateWrapper(u)),
                None => None,
            }
        } else if t == TAG_CONNECT {
            Some(Wrapper::ConnectSignal)
        } else if t == TAG_START {
            Some(Wrapper::StartSignal)
        } else if t == TAG_RESTART {
            Some(Wrapper::RestartSignal)
        } else if t == TAG_WIN {
            Some(Wrapper::WinSignal)
        } else {
            Some(Wrapper::DeathSignal(rd_u128(s, 1)))
        }
    }
}

// ---------------------------------------------------------------------------
// Laws of the layout
// ---------------------------------------------------------------------------

proof fn lemma_i16_bits(x: i16, u: u16)
    ensures
        ((x as u16) as i16) == x,
        ((u as i16) as u16) == u,
{
    assert(((x as u16) as i16) == x) by (bit_vector);
    assert(((u as i16) as u16) == u) by (bit_vector);
}

proof fn lemma_i32_bits(x: i32, u: u32)
    ensures
        ((x as u32) as i32) == x,
        ((u as i32) as u32) == u,
{
    assert(((x as u32) as i32) == x) by (bit_vector);
    assert(((u as i32) as u32) == u) by (bit_vector);
}

proof fn lemma_i8_bits(x: i8, u: u8)
    ensures
        ((x as u8) as i8) == x,
        ((u as i8) as u8) == u,
{
    assert(((x as u8) as i8) == x) by (bit_vector);
    assert(((u as i8) as u8) == u) by (bit_vector);
}

proof fn lemma_casts()
    ensures
        forall|x: i16| #[trigger] ((x as u16) as i16) == x,
        forall|u: u16| #[trigger] ((u as i16) as u16) == u,
        forall|x: i32| #[trigger] ((x as u32) as i32) == x,
        forall|u: u32| #[trigger] ((u as i32) as u32) == u,
        forall|x: i8| #[trigger] ((x as u8) as i8) == x,
        forall|u: u8| #[trigger] ((u as i8) as u8) == u,
{
    assert forall|x: i16| #[trigger] ((x as u16) as i16) == x by {
        lemma_i16_bits(x, 0);
    }
    assert forall|u: u16| #[trigger] ((u as i16) as u16) == u by {
        lemma_i16_bits(0, u);
    }
    assert forall|x: i32| #[trigger] ((x as u32) as i32) == x by {
        lemma_i32_bits(x, 0);
    }
    assert forall|u: u32| #[trigger] ((u as i32) as u32) == u by {
        lemma_i32_bits(0, u);
    }
    assert forall|x: i8| #[trigger] ((x as u8) as i8) == x by {
        lemma_i8_bits(x, 0);
    }
    assert forall|u: u8| #[trigger] ((u as i8) as u8) == u by {
        lemma_i8_bits(0, u);
    }
}

/// Round trip: decoding the bytes of a message gives back that message.
pub proof fn lemma_decode_encode(m: Wrapper)
    ensures
        spec_decode(spec_encode(m)) == Some(m),
{
    lemma_auto_spec_u16_to_from_le_bytes();
    lemma_auto_spec_u32_to_from_le_bytes();
    lemma_auto_spec_u128_to_from_le_bytes();
    lemma_casts();
    let s = spec_encode(m);
    match m {
        Wrapper::BulletWrapper(b) => {
            assert(s.len() == 16);
            assert(s.subrange(2, 4) =~= enc_i16(b.heading.sin));
            assert(s.subrange(4, 6) =~= enc_i16(b.heading.cos));
            assert(s.subrange(6, 10) =~= enc_i32(b.pos.x));
            assert(s.subrange(10, 14) =~= enc_i32(b.pos.y));
            assert(rd_bullet(s) == Some(b));
        },
        Wrapper::ShipWrapper(sh) => {
            assert(s.len() == 37);
            assert(s.subrange(1, 5) =~= enc_i32(sh.health));
            assert(s.subrange(6, 10) =~= enc_i32(sh.pos.x));
            assert(s.subrange(10, 14) =~= enc_i32(sh.pos.y));
            assert(s.subrange(14, 16) =~= enc_i16(sh.heading.sin));
            assert(s.subrange(16, 18) =~= enc_i16(sh.heading.cos));
            assert(s.subrange(21, 37) =~= spec_u128_to_le_bytes(sh.id));
            assert(rd_ship(s) == Some(sh));
        },
        Wrapper::AddressWrapper(a) => {
            assert(s.len() == 7);
            assert(s.subrange(1, 5) =~= spec_u32_to_le_bytes(a.ip));
            assert(s.subrange(5, 7) =~= spec_u16_to_le_bytes(a.port));
        },
        Wrapper::ShipUpdateWrapper(u) => {
            assert(s.len() == 26);
            assert(s.subrange(1, 17) =~= spec_u128_to_le_bytes(u.id));
            assert(s.subrange(17, 21) =~= enc_i32(u.x));
            assert(s.subrange(21, 25) =~= enc_i32(u.y));
            assert(rd_update(s) == Some(u));
        },
        Wrapper::DeathSignal(id) => {
            assert(s.len() == 17);
            assert(s.subrange(1, 17) =~= spec_u128_to_le_bytes(id));
        },
        _ => {},
    }
}

/// Only the bytes of a message decode: whatever `s` decodes to, `s` is exactly
/// its encoding.
pub proof fn lemma_encode_decode(s: Seq<u8>)
    ensures
        spec_decode(s) matches Some(m) ==> spec_encode(m) == s,
{
    lemma_auto_spec_u16_to_from_le_bytes();
    lemma_auto_spec_u32_to_from_le_bytes();
    lemma_auto_spec_u128_to_from_le_bytes();
    lemma_casts();
    if let Some(m) = spec_decode(s) {
        match m {
            Wrapper::BulletWrapper(b) => {
                assert(enc_i16(b.heading.sin) == s.subrange(2, 4));
                assert(enc_i16(b.heading.cos) == s.subrange(4, 6));
                assert(enc_i32(b.pos.x) == s.subrange(6, 10));
                assert(enc_i32(b.pos.y) == s.subrange(10, 14));
                assert(spec_encode(m) =~= s);
            },
            Wrapper::ShipWrapper(sh) => {
                assert(enc_i32(sh.health) == s.subrange(1, 5));
                assert(enc_i32(sh.pos.x) == s.subrange(6, 10));
                assert(enc_i32(sh.pos.y) == s.subrange(10, 14));
                assert(enc_i16(sh.heading.sin) == s.subrange(14, 16));
                assert(enc_i16(sh.heading.cos) == s.subrange(16, 18));
                assert(spec_u128_to_le_bytes(sh.id) == s.subrange(21, 37));
                assert(enc_direction(sh.direction) =~= s.subrange(18, 20));
                assert(spec_encode(m) =~= s);
            },
            Wrapper::AddressWrapper(a) => {
                assert(spec_u32_to_le_bytes(a.ip) == s.subrange(1, 5));
                assert(spec_u16_to_le_bytes(a.port) == s.subrange(5, 7));
                assert(spec_encode(m) =~= s);
            },
            Wrapper::ShipUpdateWrapper(u) => {
                assert(spec_u128_to_le_bytes(u.id) == s.subrange(1, 17));
                assert(enc_i32(u.x) == s.subrange(17, 21));
                assert(enc_i32(u.y) == s.subrange(21, 25));
                assert(spec_encode(m) =~= s);
            },
            Wrapper::DeathSignal(id) => {
                assert(spec_u128_to_le_bytes(id) == s.subrange(1, 17));
                assert(spec_encode(m) =~= s);
            },
            _ => {
                assert(spec_encode(m) =~= s);
            },
        }
    }
}

/// A truncated message never decodes: no proper prefix of a message's bytes is a message.
pub proof fn lemma_truncated_fails(m: Wrapper, n: int)
    requires
        0 <= n < spec_encode(m).len(),
    ensures
        spec_decode(spec_encode(m).take(n)) is None,
{
    let s = spec_encode(m);
    let t = s.take(n);
    lemma_decode_encode(m);
    lemma_encode_decode(t);
    if let Some(m2) = spec_decode(t) {
        assert(t.len() > 0);
        assert(t[0] == s[0]);
        assert(t.len() == spec_message_len(t[0]));
        assert(s.len() == spec_message_len(s[0]));
        assert(false);
    }
}

// ---------------------------------------------------------------------------
// Encoding and decoding
// ---------------------------------------------------------------------------

fn put_byte(out: &mut Vec<u8>, b: u8)
    ensures
        final(out)@ == old(out)@ + seq![b],
{
    out.push(b);
    assert(final(out)@ =~= old(out)@ + seq![b]);
}

fn put_flag(out: &mut Vec<u8>, b: bool)
    ensures
        final(out)@ == old(out)@ + enc_flag(b),
{
    put_byte(out, if b { 1 } else { 0 });
}

fn put_i16(out: &mut Vec<u8>, x: i16)
    ensures
        final(out)@ == old(out)@ + enc_i16(x),
{
    let mut b = u16_to_le_bytes(x as u16);
    out.append(&mut b);
}

fn put_i32(out: &mut Vec<u8>, x: i32)
    ensures
        final(out)@ == old(out)@ + enc_i32(x),
{
    let mut b = u32_to_le_bytes(x as u32);
    out.append(&mut b);
}

fn put_u128(out: &mut Vec<u8>, x: u128)
    ensures
        final(out)@ == old(out)@ + spec_u128_to_le_bytes(x),
{
    let mut b = u128_to_le_bytes(x);
    out.append(&mut b);
}

fn put_possession(out: &mut Vec<u8>, p: Possession)
    ensures
        final(out)@ == old(out)@ + enc_possession(p),
{
    match p {
        Possession::Player => put_byte(out, 0),
        Possession::Enemy => put_byte(out, 1),
    }
}

fn put_bullet(out: &mut Vec<u8>, b: &Bullet)
    ensures
        final(out)@ =~= old(out)@ + enc_bullet(*b),
{
    put_possession(out, b.possession);
    put_i16(out, b.heading.sin);
    put_i16(out, b.heading.cos);
    put_i32(out, b.pos.x);
    put_i32(out, b.pos.y);
    put_flag(out, b.hit);
    match b.bullet_type {
        BulletType::Normal => put_byte(out, 0),
        BulletType::Special => put_byte(out, 1),
    }
}

fn put_ship(out: &mut Vec<u8>, s: &Ship)
    ensures
        final(out)@ =~= old(out)@ + enc_ship(*s),
{
    put_i32(out, s.health);
    put_possession(out, s.ship_type);
    put_i32(out, s.pos.x);
    put_i32(out, s.pos.y);
    put_i16(out, s.heading.sin);
    put_i16(out, s.heading.cos);
    match s.direction {
        None => {
            put_byte(out, 0);
            put_byte(out, 0);
        },
        Some(d) => {
            put_byte(out, 1);
            put_byte(out, d as u8);
        },
    }
    put_flag(out, s.shield);
    put_u128(out, s.id);
}

/// The bytes that carry `m`.
pub fn encode(m: &Wrapper) -> (r: Vec<u8>)
    ensures
        r@ == spec_encode(*m),
{
    let mut out: Vec<u8> = Vec::new();
    match m {
        Wrapper::BulletWrapper(b) => {
            put_byte(&mut out, TAG_BULLET);
            put_bullet(&mut out, b);
        },
        Wrapper::ShipWrapper(s) => {
            put_byte(&mut out, TAG_SHIP);
            put_ship(&mut out, s);
        },
        Wrapper::AddressWrapper(a) => {
            put_byte(&mut out, TAG_ADDRESS);
            let mut ip = u32_to_le_bytes(a.ip);
            out.append(&mut ip);
            let mut port = u16_to_le_bytes(a.port);
            out.append(&mut port);
        },
        Wrapper::ShipUpdateWrapper(u) => {
            put_byte(&mut out, TAG_SHIP_UPDATE);
            put_u128(&mut out, u.id);
            put_i32(&mut out, u.x);
            put_i32(&mut out, u.y);
            put_flag(&mut out, u.shield);
        },
        Wrapper::ConnectSignal => put_byte(&mut out, TAG_CONNECT),
        Wrapper::StartSignal => put_byte(&mut out, TAG_START),
        Wrapper::RestartSignal => put_byte(&mut out, TAG_RESTART),
        Wrapper::WinSignal => put_byte(&mut out, TAG_WIN),
        Wrapper::DeathSignal(id) => {
            put_byte(&mut out, TAG_DEATH);
            put_u128(&mut out, *id);
        },
    }
    assert(out@ =~= spec_encode(*m));
    out
}

fn get_u16(b: &[u8], k: usize) -> (r: u16)
    requires
        k + 2 <= b@.len(),
    ensures
        r == rd_u16(b@, k as int),
{
    let _n = b.len();
    u16_from_le_bytes(slice_subrange(b, k, k + 2))
}

fn get_u32(b: &[u8], k: usize) -> (r: u32)
    requires
        k + 4 <= b@.len(),
    ensures
        r == rd_u32(b@, k as int),
{
    let _n = b.len();
    u32_from_le_bytes(slice_subrange(b, k, k + 4))
}

fn get_u128(b: &[u8], k: usize) -> (r: u128)
    requires
        k + 16 <= b@.len(),
    ensures
        r == rd_u128(b@, k as int),
{
    let _n = b.len();
    u128_from_le_bytes(slice_subrange(b, k, k + 16))
}

fn get_flag(b: &[u8], k: usize) -> (r: Option<bool>)
    requires
        k < b@.len(),
    ensures
        r == rd_flag(b@, k as int),
{
    if b[k] == 0 {
        Some(false)
    } else if b[k] == 1 {
        Some(true)
    } else {
        None
    }
}

fn get_possession(b: &[u8], k: usize) -> (r: Option<Possession>)
    requires
        k < b@.len(),
    ensures
        r == rd_possession(b@, k as int),
{
    if b[k] == 0 {
        Some(Possession::Player)
    } else if b[k] == 1 {
        Some(Possession::Enemy)
    } else {
        None
    }
}

fn get_bullet_type(b: &[u8], k: usize) -> (r: Option<BulletType>)
    requires
        k < b@.len(),
    ensures
        r == rd_bullet_type(b@, k as int),
{
    if b[k] == 0 {
        Some(BulletType::Normal)
    } else if b[k] == 1 {
        Some(BulletType::Special)
    } else {
        None
    }
}

fn get_direction(b: &[u8], k: usize) -> (r: Option<Option<i8>>)
    requires
        k + 2 <= b@.len(),
    ensures
        r == rd_direction(b@, k as int),
{
    if b[k] == 0 && b[k + 1] == 0 {
        Some(None)
    } else if b[k] == 1 {
        Some(Some(b[k + 1] as i8))
    } else {
        None
    }
}

fn get_point(b: &[u8], k: usize) -> (r: Point)
    requires
        k + 8 <= b@.len(),
    ensures
        r == rd_point(b@, k as int),
{
    let _n = b.len();
    Point { x: get_u32(b, k) as i32, y: get_u32(b, k + 4) as i32 }
}

fn get_heading(b: &[u8], k: usize) -> (r: Heading)
    requires
        k + 4 <= b@.len(),
    ensures
        r == rd_heading(b@, k as int),
{
    let _n = b.len();
    Heading { sin: get_u16(b, k) as i16, cos: get_u16(b, k + 2) as i16 }
}

fn message_len(t: u8) -> (r: usize)
    ensures
        r == spec_message_len(t),
{
    if t == TAG_BULLET {
        16
    } else if t == TAG_SHIP {
        37
    } else if t == TAG_ADDRESS {
        7
    } else if t == TAG_SHIP_UPDATE {
        26
    } else if t == TAG_DEATH {
        17
    } else {
        1
    }
}

/// The message that the datagram `b` holds. It is `Ok(m)` exactly when `b` is the
/// encoding of `m`; a truncated, padded or corrupted datagram gives `MalformedMessage`.
pub fn decode(b: &[u8]) -> (r: Result<Wrapper, DecodeError>)
    ensures
        match spec_decode(b@) {
            Some(m) => r == Ok::<Wrapper, DecodeError>(m),
            None => r == Err::<Wrapper, DecodeError>(DecodeError::MalformedMessage),
        },
        forall|m: Wrapper| b@ == spec_encode(m) ==> r == Ok::<Wrapper, DecodeError>(m),
        r matches Ok(m) ==> b@ == spec_encode(m),
{
    proof {
        lemma_encode_decode(b@);
        assert forall|m: Wrapper| b@ == spec_encode(m) implies spec_decode(b@) == Some(m) by {
            lemma_decode_encode(m);
        }
    }
    let malformed = Err(DecodeError::MalformedMessage);
    if b.len() == 0 || b[0] > TAG_DEATH || b.len() != message_len(b[0]) {
        return malformed;
    }
    let t = b[0];
    if t == TAG_BULLET {
        match (get_possession(b, 1), get_flag(b, 14), get_bullet_type(b, 15)) {
            (Some(p), Some(hit), Some(bt)) => Ok(
                Wrapper::BulletWrapper(
                    Bullet {
                        possession: p,
                        heading: get_heading(b, 2),
                        pos: get_point(b, 6),
                        hit,
                        bullet_type: bt,
                    },
                ),
            ),
            _ => malformed,
        }
    } else if t == TAG_SHIP {
        match (get_possession(b, 5), get_direction(b, 18), get_flag(b, 20)) {
            (Some(p), Some(d), Some(shield)) => Ok(
                Wrapper::ShipWrapper(
                    Ship {
                        health: get_u32(b, 1) as i32,
                        ship_type: p,
                        pos: get_point(b, 6),
                        heading: get_heading(b, 14),
                        direction: d,
                        shield,
                        id: get_u128(b, 21),
                    },
                ),
            ),
            _ => malformed,
        }
    } else if t == TAG_ADDRESS {
        Ok(Wrapper::AddressWrapper(PeerAddr { ip: get_u32(b, 1), port: get_u16(b, 5) }))
    } else if t == TAG_SHIP_UPDATE {
        match get_flag(b, 25) {
            Some(shield) => Ok(
                Wrapper::ShipUpdateWrapper(
                    ShipUpdate {
                        id: get_u128(b, 1),
                        x: get_u32(b, 17) as i32,
                        y: get_u32(b, 21) as i32,
                        shield,
                    },
                ),
            ),
            None => malformed,
        }
    } else if t == TAG_CONNECT {
        Ok(Wrapper::ConnectSignal)
    } else if t == TAG_START {
        Ok(Wrapper::StartSignal)
    } else if t == TAG_RESTART {
        Ok(Wrapper::RestartSignal)
    } else if t == TAG_WIN {
        Ok(Wrapper::WinSignal)
    } else {
        Ok(Wrapper::DeathSignal(get_u128(b, 1)))
    }
}

} // verus!
