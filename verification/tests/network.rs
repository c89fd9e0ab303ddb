use racing_physics::fixed::Fixed;
use racing_physics::network::models::{GamePacket, StatusUpdate, Vector3};
use racing_physics::network::server_connection::{NetworkEvent, ServerConnection, ServerMessage};
use racing_physics::network_car::StatusUpdate as CarStatus;
use racing_physics::vector::Vector3 as Point;

#[test]
fn point_on_the_wire_is_three_numbers_least_byte_first() {
    let p = Vector3::new(0x0403_0201, 0x0807_0605, 0xfffe_fdfc);
    assert_eq!(p.binary_data(), vec![1, 2, 3, 4, 5, 6, 7, 8, 0xfc, 0xfd, 0xfe, 0xff]);
    assert_eq!(Vector3::new(0, 0, 0).binary_data(), vec![0; 12]);
    assert_eq!(Vector3::new(u32::MAX, 0, 256).binary_data(), vec![255, 255, 255, 255, 0, 0, 0, 0, 0, 1, 0, 0]);
}

#[test]
fn point_on_the_wire_holds_single_precision_numbers() {
    let (x, y, z) = (1.5f32, -2.25f32, 1.0e-3f32);
    let p = Vector3::new(x.to_bits(), y.to_bits(), z.to_bits());
    let mut want = Vec::new();
    want.extend_from_slice(&x.to_le_bytes());
    want.extend_from_slice(&y.to_le_bytes());
    want.extend_from_slice(&z.to_le_bytes());
    assert_eq!(p.binary_data(), want);
}

#[test]
fn status_on_the_wire() {
    let status = StatusUpdate::new(Vector3::new(1, 2, 3), 0x3fc0_0000);
    assert_eq!(status.position, Vector3 { x: 1, y: 2, z: 3 });
    assert_eq!(status.rotation, 0x3fc0_0000);
    assert_eq!(
        status.binary_data(),
        vec![1, 1, 0, 0, 0, 2, 0, 0, 0, 3, 0, 0, 0, 0, 0, 0xc0, 0x3f]
    );
    assert_eq!(GamePacket::StatusUpdate(status).binary_data(), status.binary_data());
}

#[test]
fn packets_begin_with_their_kind() {
    assert_eq!(GamePacket::Register.binary_data(), vec![0]);
    assert_eq!(GamePacket::Inform { player_id: 7 }.binary_data(), vec![5, 7]);
    assert_eq!(GamePacket::DropPlayer { player_id: 8 }.binary_data(), vec![4, 8]);
    assert_eq!(GamePacket::End { player_id: 255 }.binary_data(), vec![3, 255]);
}

fn told(x: i32) -> CarStatus {
    CarStatus {
        position: Point::new(Fixed::from_int(x), Fixed::from_int(31), Fixed::from_int(0)),
        rotation: Fixed::from_int(1),
        steering_angle: Fixed::from_int(0),
    }
}

#[test]
fn new_connection_knows_nothing() {
    let mut connection = ServerConnection::new();
    assert!(!connection.is_multiplayer());
    assert_eq!(connection.player_id(), None);
    assert_eq!(connection.last_status(1), None);
    assert_eq!(connection.next_event(), None);
    assert_eq!(connection.send_status_update(told(1)), None);
    assert_eq!(connection.end_connection(), None);
}

#[test]
fn server_tells_the_client_its_number() {
    let mut connection = ServerConnection::new();
    connection.connected = true;
    connection.update(ServerMessage::Inform { player_id: 4 });
    assert_eq!(connection.player_id(), Some(4));
    assert_eq!(connection.next_event(), Some(NetworkEvent::MoveToStartPos));
    assert_eq!(connection.next_event(), None);
    assert_eq!(
        connection.send_status_update(told(1)),
        Some(ServerMessage::StatusUpdate { player_id: 4, status: told(1) })
    );
    assert!(connection.is_multiplayer());
    assert_eq!(connection.end_connection(), Some(ServerMessage::End { player_id: 4 }));
    assert!(!connection.is_multiplayer());
    assert_eq!(connection.player_id(), Some(4));
}

#[test]
fn status_is_kept_of_players_that_have_joined() {
    let mut connection = ServerConnection::new();
    // A stranger is not listened to.
    connection.update(ServerMessage::StatusUpdate { player_id: 2, status: told(1) });
    assert_eq!(connection.last_status(2), None);
    connection.update(ServerMessage::NewPlayer { player_id: 2 });
    assert_eq!(connection.last_status(2), None);
    connection.update(ServerMessage::StatusUpdate { player_id: 2, status: told(1) });
    assert_eq!(connection.last_status(2), Some(&told(1)));
    connection.update(ServerMessage::StatusUpdate { player_id: 2, status: told(5) });
    assert_eq!(connection.last_status(2), Some(&told(5)));
    assert_eq!(connection.last_status(3), None);
    // What was heard of a player stays, and goes on being brought up to
    // date, after the player has left.
    connection.update(ServerMessage::DropPlayer { player_id: 2 });
    assert_eq!(connection.last_status(2), Some(&told(5)));
    connection.update(ServerMessage::StatusUpdate { player_id: 2, status: told(9) });
    assert_eq!(connection.last_status(2), Some(&told(9)));
    assert!(!connection.connected_players.contains(&2));
}

#[test]
fn events_come_out_oldest_first() {
    let mut connection = ServerConnection::new();
    connection.update(ServerMessage::NewPlayer { player_id: 2 });
    connection.update(ServerMessage::Register);
    connection.update(ServerMessage::End { player_id: 2 });
    connection.update(ServerMessage::Inform { player_id: 1 });
    connection.update(ServerMessage::DropPlayer { player_id: 2 });
    connection.update(ServerMessage::StatusUpdate { player_id: 9, status: told(1) });
    assert_eq!(connection.game_events.len(), 3);
    assert_eq!(connection.next_event(), Some(NetworkEvent::PlayerConnected { player_id: 2 }));
    assert_eq!(connection.next_event(), Some(NetworkEvent::MoveToStartPos));
    assert_eq!(connection.next_event(), Some(NetworkEvent::PlayerDisconnected { player_id: 2 }));
    assert_eq!(connection.next_event(), None);
    assert_eq!(connection.player_id(), Some(1));
    assert!(connection.connected_players.is_empty());
}

#[test]
fn packets_read_back_from_their_bytes() {
    let packets = vec![
        GamePacket::Register,
        GamePacket::Inform { player_id: 0 },
        GamePacket::Inform { player_id: 200 },
        GamePacket::DropPlayer { player_id: 3 },
        GamePacket::End { player_id: 4 },
        GamePacket::StatusUpdate(StatusUpdate::new(Vector3::new(0, 1, u32::MAX), 0x8000_0000)),
        GamePacket::StatusUpdate(StatusUpdate::new(
            Vector3::new(1.5f32.to_bits(), (-2.25f32).to_bits(), 1.0e-3f32.to_bits()),
            3.0f32.to_bits(),
        )),
    ];
    for packet in packets {
        assert_eq!(GamePacket::parse(&packet.binary_data()), Some(packet));
    }
}

#[test]
fn bytes_that_are_no_packet_are_not_read() {
    assert_eq!(GamePacket::parse(&[]), None);
    assert_eq!(GamePacket::parse(&[2]), None);
    assert_eq!(GamePacket::parse(&[2, 1]), None);
    assert_eq!(GamePacket::parse(&[6, 1]), None);
    assert_eq!(GamePacket::parse(&[0, 0]), None);
    assert_eq!(GamePacket::parse(&[5]), None);
    assert_eq!(GamePacket::parse(&[5, 1, 2]), None);
    assert_eq!(GamePacket::parse(&[4]), None);
    assert_eq!(GamePacket::parse(&[3]), None);
    assert_eq!(GamePacket::parse(&[1; 16]), None);
    assert_eq!(GamePacket::parse(&[1; 18]), None);
    assert_eq!(
        GamePacket::parse(&[1; 17]),
        Some(GamePacket::StatusUpdate(StatusUpdate::new(
            Vector3::new(0x0101_0101, 0x0101_0101, 0x0101_0101),
            0x0101_0101,
        )))
    );
}
