use socket2::{Domain, Socket, Type};
use solis::decoder::parse_packet;
use solis::dispatch::{dispatch_all, dispatch_datagram, dispatch_step, push_row, DisplayRow, Step};
use solis::session::{Connection, Received, Session};
use solis::wire::Float32;

const SIZES: [usize; 12] = [1464, 632, 972, 40, 1257, 1102, 1347, 1058, 1015, 1191, 948, 1155];

/// A full-size datagram of the given kind, marked with `frame` so that one
/// can be told from another.
fn record(discriminant: u8, frame: u32) -> Vec<u8> {
    let mut bytes = vec![0u8; SIZES[discriminant as usize]];
    bytes[5] = discriminant;
    bytes[14..18].copy_from_slice(&(frame as f32).to_le_bytes());
    bytes[18..22].copy_from_slice(&frame.to_le_bytes());
    bytes
}

fn roster(active: u8, name: &str, frame: u32) -> Vec<u8> {
    let mut bytes = record(4, frame);
    bytes[24] = active;
    bytes[25 + 7..25 + 7 + name.len()].copy_from_slice(name.as_bytes());
    bytes
}

fn retirement(vehicle: u8, frame: u32) -> Vec<u8> {
    let mut bytes = record(3, frame);
    bytes[24..28].copy_from_slice(b"RTMT");
    bytes[28] = vehicle;
    bytes
}

/// A session on a socket that is taken to be bound.
fn live_session() -> Session {
    let socket = Socket::new(Domain::IPV4, Type::DGRAM, None).expect("a datagram socket");
    Session::new(Connection::new("127.0.0.1".to_string(), "0".to_string(), Some(socket), true))
}

fn message_text(row: &DisplayRow) -> String {
    row.message.as_ref().expect("the row is for an event").render(&Vec::new())
}

#[test]
fn alternating_datagrams_give_a_row_for_each_valid_one_in_order() {
    let mut session = live_session();
    let mut datagrams = Vec::new();
    for frame in 0..12u32 {
        datagrams.push(record(frame as u8, frame));
        datagrams.push(match frame % 4 {
            0 => vec![0u8; 10],
            1 => vec![255u8; 2048],
            2 => record(frame as u8, frame)[..30].to_vec(),
            _ => Vec::new(),
        });
    }
    let rows = dispatch_all(&mut session, &datagrams);
    assert_eq!(rows.len(), 12);
    for (frame, row) in rows.iter().enumerate() {
        assert_eq!(row.packet.header().frame_identifier, frame as u32);
        assert_eq!(row.packet_id(), frame as u8);
        assert_eq!(row.packet, parse_packet(&datagrams[2 * frame]).expect("a valid datagram"));
        assert_eq!(row.message.is_some(), frame == 3);
    }
}

#[test]
fn invalid_datagrams_alone_give_no_rows() {
    let mut session = live_session();
    let datagrams = vec![vec![0u8; 23], vec![99u8; 2048], record(4, 1)[..1256].to_vec()];
    assert!(dispatch_all(&mut session, &datagrams).is_empty());
    assert!(session.get_player(0).is_none());
    assert!(dispatch_all(&mut session, &Vec::new()).is_empty());
}

#[test]
fn an_event_is_worded_with_the_roster_seen_before_it() {
    let mut session = live_session();
    let datagrams = vec![
        retirement(0, 1),
        roster(1, "A. Driver", 2),
        retirement(0, 3),
        roster(1, "B. Racer", 4),
        retirement(0, 5),
        roster(2, "C. Pilot", 6),
        retirement(0, 7),
    ];
    let rows = dispatch_all(&mut session, &datagrams);
    assert_eq!(rows.len(), 7);
    assert_eq!(message_text(&rows[0]), "A participant retired from the session");
    assert_eq!(message_text(&rows[2]), "A. Driver retired from the session");
    assert_eq!(message_text(&rows[4]), "A. Driver retired from the session");
    assert_eq!(message_text(&rows[6]), "C. Pilot retired from the session");
    assert!(rows[1].message.is_none());
    assert_eq!(session.num_active_cars, 2);
}

#[test]
fn rows_carry_what_is_shown() {
    let titles = [
        ("Motion Data", "Motion"),
        ("Session Data", "Session"),
        ("Lap Data", "Lap Data"),
        ("Events", "Retirement (RTMT)"),
        ("Participants", "Participants"),
        ("Car Setups", "Car Setups"),
        ("Car Telemetry", "Car Telemetry"),
        ("Car Status", "Car Status"),
        ("Final Classification", "Final Classification"),
        ("Lobby Info", "Lobby Info"),
        ("Car Damage", "Car Damage"),
        ("Session History", "Session History"),
    ];
    let mut session = live_session();
    for discriminant in 0..12u8 {
        let bytes =
            if discriminant == 3 { retirement(0, 9) } else { record(discriminant, 9) };
        let row = dispatch_datagram(&mut session, &bytes).expect("a valid datagram gives a row");
        assert_eq!(row.title(), titles[discriminant as usize].0);
        assert_eq!(row.row_title(), titles[discriminant as usize].1);
        assert_eq!(row.packet_id(), discriminant);
        assert_eq!(row.timestamp(), Float32 { bits: 9.0f32.to_bits() });
    }
    let mut unknown = record(3, 1);
    unknown[24..28].copy_from_slice(b"QQQQ");
    let row = dispatch_datagram(&mut session, &unknown).expect("a valid datagram gives a row");
    assert_eq!(row.row_title(), "Unknown (QQQQ)");
    assert!(row.message.expect("an event has a message").is_empty());
}

#[test]
fn the_cycle_stops_without_a_live_connection() {
    let mut idle = Session::new(Connection::default());
    assert!(matches!(dispatch_step(&mut idle, &Received::Datagram(record(2, 1))), Step::Stop));
    assert!(matches!(dispatch_step(&mut idle, &Received::Nothing), Step::Stop));
    let mut session = live_session();
    assert!(matches!(dispatch_step(&mut session, &Received::Nothing), Step::Skip));
    session.drop_connection();
    assert!(matches!(dispatch_step(&mut session, &Received::Datagram(record(2, 1))), Step::Stop));
    assert!(matches!(dispatch_step(&mut session, &Received::Nothing), Step::Stop));
}

#[test]
fn the_cycle_passes_over_what_holds_no_record() {
    let mut session = live_session();
    assert!(matches!(dispatch_step(&mut session, &Received::Nothing), Step::Skip));
    assert!(matches!(dispatch_step(&mut session, &Received::Failed), Step::Skip));
    assert!(matches!(dispatch_step(&mut session, &Received::Datagram(vec![1; 5])), Step::Skip));
    assert!(matches!(
        dispatch_step(&mut session, &Received::Datagram(vec![255; 1500])),
        Step::Skip
    ));
    assert!(session.connected());
}

#[test]
fn the_cycle_hands_on_each_record_and_takes_note_of_rosters() {
    let mut session = live_session();
    match dispatch_step(&mut session, &Received::Datagram(roster(1, "A. Driver", 1))) {
        Step::Emit(row) => {
            assert_eq!(row.title(), "Participants");
            assert!(row.message.is_none());
        }
        other => panic!("a row was expected, not {:?}", other),
    }
    assert_eq!(session.num_active_cars, 1);
    match dispatch_step(&mut session, &Received::Datagram(retirement(0, 2))) {
        Step::Emit(row) => assert_eq!(message_text(&row), "A. Driver retired from the session"),
        other => panic!("a row was expected, not {:?}", other),
    }
}

#[test]
fn no_more_than_250_rows_are_kept() {
    let mut rows: Vec<u32> = Vec::new();
    for n in 0..250 {
        push_row(&mut rows, n);
    }
    assert_eq!(rows.len(), 250);
    assert_eq!(rows[0], 0);
    push_row(&mut rows, 250);
    assert_eq!(rows.len(), 250);
    assert_eq!(rows[0], 1);
    assert_eq!(rows[249], 250);
    let mut crowded: Vec<u32> = (0..300).collect();
    push_row(&mut crowded, 300);
    assert_eq!(crowded.len(), 250);
    assert_eq!(crowded[0], 51);
    assert_eq!(crowded[249], 300);
    let mut few: Vec<u32> = vec![1, 2];
    push_row(&mut few, 3);
    assert_eq!(few, vec![1, 2, 3]);
}
