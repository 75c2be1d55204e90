use orchid::entities::{Bullet, BulletType, Heading, Point, Possession, Ship};
use orchid::network::{decode, encode, DecodeError, PeerAddr, ShipUpdate, Wrapper};

fn samples() -> Vec<Wrapper> {
    let mut ship = Ship::with_id(Possession::Enemy, 0x0123_4567_89ab_cdef_0011_2233_4455_6677);
    ship.health = -4000;
    ship.direction = Some(-1);
    let player = Ship::with_id(Possession::Player, 42);
    vec![
        Wrapper::BulletWrapper(Bullet {
            possession: Possession::Player,
            heading: Heading { sin: -707, cos: 707 },
            pos: Point { x: -5, y: 480000 },
            hit: false,
            bullet_type: BulletType::Special,
        }),
        Wrapper::ShipWrapper(ship),
        Wrapper::ShipWrapper(player),
        Wrapper::AddressWrapper(PeerAddr { ip: 0x7f00_0001, port: 7878 }),
        Wrapper::ShipUpdateWrapper(ShipUpdate::new(u128::MAX, i32::MIN, i32::MAX, true)),
        Wrapper::ConnectSignal,
        Wrapper::StartSignal,
        Wrapper::RestartSignal,
        Wrapper::WinSignal,
        Wrapper::DeathSignal(7),
    ]
}

#[test]
fn round_trip_every_variant() {
    for m in samples() {
        let bytes = encode(&m);
        assert_eq!(decode(&bytes), Ok(m));
    }
}

#[test]
fn truncated_buffers_fail() {
    for m in samples() {
        let bytes = encode(&m);
        for n in 0..bytes.len() {
            assert_eq!(decode(&bytes[..n]), Err(DecodeError::MalformedMessage));
        }
    }
}

#[test]
fn padded_buffer_fails() {
    let mut bytes = encode(&Wrapper::WinSignal);
    bytes.push(0);
    assert_eq!(decode(&bytes), Err(DecodeError::MalformedMessage));
}

#[test]
fn unknown_tag_fails() {
    assert_eq!(decode(&[9]), Err(DecodeError::MalformedMessage));
    assert_eq!(decode(&[255]), Err(DecodeError::MalformedMessage));
}

#[test]
fn corrupted_flag_fails() {
    let m = Wrapper::ShipUpdateWrapper(ShipUpdate::new(1, 2, 3, false));
    let mut bytes = encode(&m);
    let last = bytes.len() - 1;
    bytes[last] = 2;
    assert_eq!(decode(&bytes), Err(DecodeError::MalformedMessage));
}

#[test]
fn corrupted_direction_fails() {
    let ship = Ship::with_id(Possession::Player, 3);
    let mut bytes = encode(&Wrapper::ShipWrapper(ship));
    // an absent direction must be followed by a zero byte
    bytes[19] = 5;
    assert_eq!(decode(&bytes), Err(DecodeError::MalformedMessage));
}

#[test]
fn signal_layouts() {
    assert_eq!(encode(&Wrapper::ConnectSignal), vec![4]);
    assert_eq!(encode(&Wrapper::StartSignal), vec![5]);
    assert_eq!(encode(&Wrapper::RestartSignal), vec![6]);
    assert_eq!(encode(&Wrapper::WinSignal), vec![7]);
}

#[test]
fn address_layout() {
    let bytes = encode(&Wrapper::AddressWrapper(PeerAddr { ip: 0x7f00_0001, port: 0x1ec6 }));
    assert_eq!(bytes, vec![2, 0x01, 0x00, 0x00, 0x7f, 0xc6, 0x1e]);
}

#[test]
fn bullet_layout() {
    let b = Bullet {
        possession: Possession::Enemy,
        heading: Heading { sin: -1, cos: 1000 },
        pos: Point { x: 1, y: -2 },
        hit: true,
        bullet_type: BulletType::Normal,
    };
    let bytes = encode(&Wrapper::BulletWrapper(b));
    assert_eq!(
        bytes,
        vec![0, 1, 0xff, 0xff, 0xe8, 0x03, 1, 0, 0, 0, 0xfe, 0xff, 0xff, 0xff, 1, 0]
    );
}

#[test]
fn message_lengths() {
    let lens: Vec<usize> = samples().iter().map(|m| encode(m).len()).collect();
    assert_eq!(lens, vec![16, 37, 37, 7, 26, 1, 1, 1, 1, 17]);
}
