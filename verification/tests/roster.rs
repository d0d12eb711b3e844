use socket2::{Domain, Socket, Type};
use solis::decoder::parse_packet;
use solis::ids::{DriverId, NationalityId, TeamId};
use solis::packets::{PacketParticipantsData, ParticipantData, TelemetryPacket};
use solis::session::{Bootstrap, Connection, Received, Session};

/// The bytes of a roster record with `active` active cars and the given names
/// in the first slots; the other slots are blank.
fn roster_datagram(active: u8, names: &[&str]) -> Vec<u8> {
    let mut bytes = vec![0u8; 1257];
    bytes[0..2].copy_from_slice(&2022u16.to_le_bytes());
    bytes[5] = 4;
    bytes[24] = active;
    for slot in 0..22 {
        let at = 25 + slot * 56;
        if slot < names.len() {
            bytes[at] = 1; // driven by the game
            bytes[at + 1] = 9; // driver
            bytes[at + 2] = slot as u8; // network id
            bytes[at + 3] = 2; // team
            bytes[at + 5] = 33; // race number
            bytes[at + 6] = 22; // nationality
            bytes[at + 7..at + 7 + names[slot].len()].copy_from_slice(names[slot].as_bytes());
            bytes[at + 55] = 1;
        } else {
            bytes[at + 1] = 255;
            bytes[at + 3] = 255;
            bytes[at + 6] = 255;
        }
    }
    bytes
}

fn roster(active: u8, names: &[&str]) -> PacketParticipantsData {
    match parse_packet(&roster_datagram(active, names)) {
        Ok(TelemetryPacket::Participants(snapshot)) => snapshot,
        other => panic!("a roster record was expected, not {:?}", other),
    }
}

fn idle_session() -> Session {
    Session::new(Connection::new("127.0.0.1".to_string(), "20777".to_string(), None, false))
}

/// A session on a socket that is taken to be bound.
fn live_session() -> Session {
    let socket = Socket::new(Domain::IPV4, Type::DGRAM, None).expect("a datagram socket");
    Session::new(Connection::new("127.0.0.1".to_string(), "0".to_string(), Some(socket), true))
}

#[test]
fn lookups_before_any_snapshot_find_nobody() {
    let session = idle_session();
    for index in 0..=255u8 {
        assert!(session.get_player(index).is_none());
    }
    assert_eq!(session.num_active_cars, 0);
    assert_eq!(session.max_packet_buffer_len, 250);
}

#[test]
fn a_snapshot_names_its_players() {
    let mut session = idle_session();
    session.replace_roster(&roster(2, &["A. Driver", "B. Racer"]));
    assert_eq!(session.num_active_cars, 2);
    assert_eq!(session.get_player(0).expect("slot 0 is filled").get_player_name(), "A. Driver");
    assert_eq!(session.get_player(1).expect("slot 1 is filled").get_player_name(), "B. Racer");
    assert!(session.get_player(5).is_none());
    assert!(session.get_player(21).is_none());
    assert!(session.get_player(22).is_none());
    assert!(session.get_player(255).is_none());
}

#[test]
fn roster_entries_keep_their_fields() {
    let snapshot = roster(1, &["C. Pilot"]);
    let entry = snapshot.get_participant(0).expect("slot 0 exists");
    assert_eq!(entry.ai_controlled, 1);
    assert_eq!(entry.driver_id, DriverId::MaxVerstappen);
    assert_eq!(entry.team_id, TeamId::RedBullRacing);
    assert_eq!(entry.race_number, 33);
    assert_eq!(entry.nationality, NationalityId::Dutch);
    assert_eq!(entry.your_telemetry, 1);
    assert!(!entry.blank());
    let unused = snapshot.get_participant(21).expect("slot 21 exists");
    assert!(unused.blank());
    assert_eq!(*unused, ParticipantData::default());
    assert!(snapshot.get_participant(22).is_none());
}

#[test]
fn names_end_at_the_first_zero_byte() {
    let mut entry = ParticipantData::default();
    assert_eq!(entry.get_player_name(), "");
    entry.name[..5].copy_from_slice(b"Ayr\0n");
    assert_eq!(entry.get_player_name(), "Ayr");
    entry.name = [b'x'; 48];
    assert_eq!(entry.get_player_name(), "x".repeat(48));
}

#[test]
fn names_are_read_as_utf8_with_replacements() {
    let mut entry = ParticipantData::default();
    let name = "Kimi Räikkönen";
    entry.name[..name.len()].copy_from_slice(name.as_bytes());
    assert_eq!(entry.get_player_name(), name);
    let mut broken = ParticipantData::default();
    broken.name[..4].copy_from_slice(&[b'A', 0xff, b'B', 0]);
    assert_eq!(broken.get_player_name(), "A\u{fffd}B");
}

#[test]
fn a_roster_with_the_same_count_is_not_taken_again() {
    let mut session = idle_session();
    session.observe(&TelemetryPacket::Participants(roster(2, &["A. Driver", "B. Racer"])));
    assert_eq!(session.get_player(0).expect("slot 0 is filled").get_player_name(), "A. Driver");
    session.observe(&TelemetryPacket::Participants(roster(2, &["X. Other", "Y. Other"])));
    assert_eq!(session.get_player(0).expect("slot 0 is filled").get_player_name(), "A. Driver");
    session.observe(&TelemetryPacket::Participants(roster(1, &["Z. Alone"])));
    assert_eq!(session.num_active_cars, 1);
    assert_eq!(session.get_player(0).expect("slot 0 is filled").get_player_name(), "Z. Alone");
    assert!(session.get_player(1).is_none());
}

#[test]
fn other_records_leave_the_roster_alone() {
    let mut session = idle_session();
    session.replace_roster(&roster(1, &["A. Driver"]));
    let mut lap = vec![0u8; 972];
    lap[5] = 2;
    session.observe(&parse_packet(&lap).expect("a lap record decodes"));
    assert_eq!(session.num_active_cars, 1);
    assert_eq!(session.get_player(0).expect("slot 0 is filled").get_player_name(), "A. Driver");
}

#[test]
fn a_connection_without_a_socket_is_not_active() {
    let connection = Connection::new("127.0.0.1".to_string(), "20777".to_string(), None, true);
    assert!(!connection.active);
    assert!(!connection.is_active());
    assert_eq!(connection.address, "127.0.0.1");
    assert_eq!(connection.port, "20777");
    let nothing = Connection::default();
    assert!(!nothing.is_active());
    assert_eq!(nothing.address, "");
}

#[test]
fn a_socket_that_was_not_bound_is_not_active() {
    let socket = Socket::new(Domain::IPV4, Type::DGRAM, None).expect("a datagram socket");
    let connection = Connection::new("10.0.0.1".to_string(), "1".to_string(), Some(socket), false);
    assert!(!connection.is_active());
    assert!(connection.socket.is_some());
}

#[test]
fn a_flag_cleared_from_outside_ends_the_connection() {
    let mut session = live_session();
    assert!(session.connected());
    session.connection.active = false;
    assert!(!session.connected());
    assert!(session.connection.socket.is_some());
}

#[test]
fn dropping_twice_leaves_the_session_inactive() {
    let mut session = live_session();
    assert!(session.connected());
    session.drop_connection();
    assert!(!session.connected());
    assert!(!session.connection.active);
    assert!(session.connection.socket.is_none());
    session.drop_connection();
    assert!(!session.connected());
    assert!(!session.connection.active);
    assert!(session.connection.socket.is_none());
}

#[test]
fn dropping_keeps_the_roster_and_the_address() {
    let mut session = live_session();
    session.replace_roster(&roster(1, &["A. Driver"]));
    session.drop_connection();
    assert_eq!(session.connection.address, "127.0.0.1");
    assert_eq!(session.get_player(0).expect("slot 0 is filled").get_player_name(), "A. Driver");
}

#[test]
fn loading_the_roster_waits_for_a_roster() {
    let mut session = idle_session();
    assert_eq!(session.bootstrap_step(&Received::Nothing), Bootstrap::Retry);
    assert_eq!(session.bootstrap_step(&Received::Datagram(vec![1, 2, 3])), Bootstrap::Retry);
    let mut lap = vec![0u8; 972];
    lap[5] = 2;
    assert_eq!(session.bootstrap_step(&Received::Datagram(lap)), Bootstrap::Retry);
    assert!(session.get_player(0).is_none());
    let short_roster = roster_datagram(2, &["A. Driver", "B. Racer"])[..100].to_vec();
    assert_eq!(session.bootstrap_step(&Received::Datagram(short_roster)), Bootstrap::Retry);
    assert!(session.get_player(0).is_none());
    let full = roster_datagram(2, &["A. Driver", "B. Racer"]);
    assert_eq!(session.bootstrap_step(&Received::Datagram(full)), Bootstrap::Loaded);
    assert_eq!(session.num_active_cars, 2);
    assert_eq!(session.get_player(1).expect("slot 1 is filled").get_player_name(), "B. Racer");
}

#[test]
fn loading_the_roster_gives_up_on_a_failed_socket() {
    let mut session = idle_session();
    assert_eq!(session.bootstrap_step(&Received::Failed), Bootstrap::GiveUp);
    assert!(session.get_player(0).is_none());
}

#[test]
fn the_first_roster_is_taken_whatever_its_count() {
    let mut session = idle_session();
    let empty = roster_datagram(0, &["A. Driver"]);
    assert_eq!(session.bootstrap_step(&Received::Datagram(empty)), Bootstrap::Loaded);
    assert_eq!(session.num_active_cars, 0);
    assert_eq!(session.get_player(0).expect("slot 0 is filled").get_player_name(), "A. Driver");
}

#[test]
fn the_latest_packet_needs_a_socket_and_a_record() {
    let idle = idle_session();
    let full = roster_datagram(2, &["A. Driver", "B. Racer"]);
    assert!(idle.get_latest_packet(&Received::Datagram(full.clone())).is_none());
    let live = live_session();
    assert!(live.get_latest_packet(&Received::Nothing).is_none());
    assert!(live.get_latest_packet(&Received::Failed).is_none());
    assert!(live.get_latest_packet(&Received::Datagram(vec![0; 10])).is_none());
    let latest = live.get_latest_packet(&Received::Datagram(full.clone()));
    assert_eq!(latest, Some(parse_packet(&full).expect("a roster record decodes")));
}

#[test]
fn a_default_session_has_no_connection_and_no_players() {
    let session = Session::default();
    assert!(!session.connected());
    assert!(session.connection.socket.is_none());
    assert_eq!(session.max_packet_buffer_len, 0);
    assert_eq!(session.num_active_cars, 0);
    for index in 0..22u8 {
        assert!(session.get_player(index).is_none());
    }
}
