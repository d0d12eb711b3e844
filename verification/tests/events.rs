use solis::decoder::parse_packet;
use solis::ids::{ButtonFlag, EventId};
use solis::message::{EventMessage, MessagePart};
use solis::packets::{Buttons, PacketEventData, TelemetryPacket};
use solis::session::{Connection, Session};
use solis::wire::Float32;

/// An event record with the given code and the given bytes after it.
fn event(code: &[u8; 4], details: &[u8]) -> PacketEventData {
    let mut bytes = vec![0u8; 40];
    bytes[5] = 3;
    bytes[24..28].copy_from_slice(code);
    bytes[28..28 + details.len()].copy_from_slice(details);
    match parse_packet(&bytes) {
        Ok(TelemetryPacket::Event(record)) => record,
        other => panic!("an event record was expected, not {:?}", other),
    }
}

/// A session whose roster names the drivers of the first slots.
fn session_with(names: &[&str]) -> Session {
    let mut bytes = vec![0u8; 1257];
    bytes[5] = 4;
    bytes[24] = names.len() as u8;
    for slot in 0..22 {
        let at = 25 + slot * 56;
        if slot < names.len() {
            bytes[at + 7..at + 7 + names[slot].len()].copy_from_slice(names[slot].as_bytes());
        } else {
            bytes[at + 1] = 255;
            bytes[at + 3] = 255;
            bytes[at + 6] = 255;
        }
    }
    let mut session = Session::new(Connection::default());
    session.observe(&parse_packet(&bytes).expect("a roster record decodes"));
    session
}

/// The message as text, each number printed as the language prints it.
fn text(message: &EventMessage) -> String {
    let decimals: Vec<String> =
        message.decimals().iter().map(|number| f32::from_bits(number.bits).to_string()).collect();
    message.render(&decimals)
}

fn said(code: &[u8; 4], details: &[u8], session: &Session) -> String {
    text(&event(code, details).event_message(session))
}

fn fastest_lap(vehicle: u8, seconds: f32) -> Vec<u8> {
    let mut details = vec![vehicle];
    details.extend_from_slice(&seconds.to_le_bytes());
    details
}

fn speed_trap(vehicle: u8, speed: f32, overall: u8, own: u8, max: f32) -> Vec<u8> {
    let mut details = vec![vehicle];
    details.extend_from_slice(&speed.to_le_bytes());
    details.extend_from_slice(&[overall, own, 3]);
    details.extend_from_slice(&max.to_le_bytes());
    details
}

#[test]
fn fastest_lap_names_the_driver() {
    let session = session_with(&["A. Driver"]);
    assert_eq!(
        said(b"FTLP", &fastest_lap(0, 91.234), &session),
        "Fastest lap of 91.234 seconds achieved by A. Driver"
    );
}

#[test]
fn fastest_lap_without_a_name() {
    let session = session_with(&["A. Driver"]);
    assert_eq!(
        said(b"FTLP", &fastest_lap(7, 80.5), &session),
        "Fastest lap of 80.5 seconds achieved"
    );
    assert_eq!(
        said(b"FTLP", &fastest_lap(200, 80.5), &session),
        "Fastest lap of 80.5 seconds achieved"
    );
}

#[test]
fn fastest_lap_message_has_a_gap_for_the_time() {
    let session = session_with(&["A. Driver"]);
    let message = event(b"FTLP", &fastest_lap(0, 91.234)).event_message(&session);
    assert_eq!(
        message.parts,
        vec![
            MessagePart::Text("Fastest lap of ".to_string()),
            MessagePart::Decimal(Float32 { bits: 91.234f32.to_bits() }),
            MessagePart::Text(" seconds achieved by A. Driver".to_string()),
        ]
    );
    assert_eq!(message.decimals(), vec![Float32 { bits: 91.234f32.to_bits() }]);
    assert!(!message.is_empty());
    assert_eq!(message.render(&Vec::new()), "Fastest lap of  seconds achieved by A. Driver");
    assert_eq!(
        message.render(&vec!["1:31.234".to_string(), "unused".to_string()]),
        "Fastest lap of 1:31.234 seconds achieved by A. Driver"
    );
}

#[test]
fn retirement_messages() {
    let session = session_with(&["A. Driver", "B. Racer"]);
    assert_eq!(said(b"RTMT", &[1], &session), "B. Racer retired from the session");
    assert_eq!(said(b"RTMT", &[9], &session), "A participant retired from the session");
}

#[test]
fn teammate_messages() {
    let session = session_with(&["A. Driver", "B. Racer"]);
    assert_eq!(said(b"TMPT", &[1], &session), "Your teammate, B. Racer, is in the pits.");
    assert_eq!(said(b"TMPT", &[30], &session), "Your teammate is in the pits");
}

#[test]
fn race_winner_messages() {
    let session = session_with(&["A. Driver"]);
    assert_eq!(said(b"RCWN", &[0], &session), "A. Driver is the Race Winner!");
    assert_eq!(said(b"RCWN", &[4], &session), "The race winner is announced");
}

#[test]
fn penalty_messages() {
    let session = session_with(&["A. Driver", "B. Racer"]);
    // type, infringement, vehicle, other vehicle, time, lap, places gained
    assert_eq!(
        said(b"PENA", &[4, 7, 1, 255, 5, 12, 0], &session),
        "B. Racer has received a Time Penalty on lap 12. Infringment type: \
         CornerCuttingGainedTime. Time: 5 seconds"
    );
    assert_eq!(
        said(b"PENA", &[0, 17, 0, 255, 0, 3, 0], &session),
        "A. Driver has received a Drive Through on lap 3. Infringment type: PitLaneSpeeding. \
         Time: 0 seconds"
    );
    assert_eq!(
        said(b"PENA", &[16, 41, 0, 255, 0, 207, 0], &session),
        "A. Driver has been retired from the session on lap 207."
    );
    assert_eq!(
        said(b"PENA", &[99, 200, 0, 255, 255, 100, 0], &session),
        "A. Driver has received a Penalty on lap 100. Infringment type: Other. Time: 255 seconds"
    );
    assert_eq!(
        said(b"PENA", &[4, 7, 20, 255, 5, 12, 0], &session),
        "A penalty has been issued \u{2013} details in event"
    );
}

#[test]
fn speed_trap_messages() {
    let session = session_with(&["A. Driver"]);
    assert_eq!(
        said(b"SPTP", &speed_trap(0, 321.5, 1, 1, 321.5), &session),
        "Speed trap hit - A. Driver hit the fastest speed in the session: 321.5 kmh"
    );
    assert_eq!(
        said(b"SPTP", &speed_trap(0, 310.25, 0, 1, 321.5), &session),
        "Speed trap hit - A. Driver hit their fastest speed in the session: 310.25 kmh"
    );
    assert_eq!(
        said(b"SPTP", &speed_trap(0, 300.0, 0, 0, 321.5), &session),
        "Speed trap hit - A. Driver hit 300 kmh. Max: 321.5 kmh"
    );
    assert_eq!(
        said(b"SPTP", &speed_trap(0, 300.0, 2, 2, 321.5), &session),
        "Speed trap hit - A. Driver hit 300 kmh. Max: 321.5 kmh"
    );
    assert_eq!(
        said(b"SPTP", &speed_trap(8, 299.75, 1, 1, 321.5), &session),
        "Speed trap hit at 299.75 kmh. Max: 321.5 kmh"
    );
}

#[test]
fn start_lights_messages() {
    let session = session_with(&[]);
    assert_eq!(said(b"STLG", &[0], &session), "0 start lights showing");
    assert_eq!(said(b"STLG", &[5], &session), "5 start lights showing");
    assert_eq!(said(b"STLG", &[10], &session), "10 start lights showing");
    assert_eq!(said(b"STLG", &[99], &session), "99 start lights showing");
    assert_eq!(said(b"STLG", &[100], &session), "100 start lights showing");
    assert_eq!(said(b"STLG", &[255], &session), "255 start lights showing");
}

#[test]
fn served_penalty_messages() {
    let session = session_with(&["A. Driver"]);
    assert_eq!(said(b"DTSV", &[0], &session), "A. Driver served their drive through penalty");
    assert_eq!(said(b"DTSV", &[2], &session), "Drive through penalty served");
    assert_eq!(said(b"SGSV", &[0], &session), "A. Driver served their stop-go penalty");
    assert_eq!(said(b"SGSV", &[2], &session), "Stop go penalty served");
}

#[test]
fn flashback_message() {
    let session = session_with(&[]);
    let mut details = 77u32.to_le_bytes().to_vec();
    details.extend_from_slice(&1234.5f32.to_le_bytes());
    assert_eq!(said(b"FLBK", &details, &session), "Flashback at 1234.5 seconds (session time)");
}

#[test]
fn button_messages() {
    let session = session_with(&[]);
    assert_eq!(
        said(b"BUTN", &0x0000_0001u32.to_le_bytes(), &session),
        "Button pressed. Pressed buttons: Cross/A"
    );
    assert_eq!(
        said(b"BUTN", &0x0000_0007u32.to_le_bytes(), &session),
        "Button pressed. Pressed buttons: Circle/B, Cross/A, Triangle/Y"
    );
    let nothing = event(b"BUTN", &0u32.to_le_bytes()).event_message(&session);
    assert!(nothing.is_empty());
    assert_eq!(text(&nothing), "");
    let unreported = event(b"BUTN", &0x0010_0000u32.to_le_bytes()).event_message(&session);
    assert!(unreported.is_empty());
}

#[test]
fn events_that_carry_nothing_say_what_they_mean() {
    let session = session_with(&["A. Driver"]);
    assert_eq!(said(b"SSTA", &[], &session), "Sent when the session starts");
    assert_eq!(said(b"SEND", &[], &session), "Sent when the session ends");
    assert_eq!(said(b"DRSE", &[], &session), "Race control have enabled DRS");
    assert_eq!(said(b"DRSD", &[], &session), "Race control have disabled DRS");
    assert_eq!(said(b"CHQF", &[], &session), "The chequered flag has been waved");
    assert_eq!(said(b"LGOT", &[], &session), "Lights out");
}

#[test]
fn unknown_codes_say_nothing() {
    let session = session_with(&["A. Driver"]);
    let record = event(b"ZZZZ", &[0, 1, 2, 3]);
    assert!(record.event_message(&session).is_empty());
    assert_eq!(record.event_name(), "Unknown");
    assert_eq!(record.event_description(), "Unknown");
    assert!(record.event_reference().is_none());
    assert_eq!(record.event_id(), None);
    assert_eq!(record.code_as_string(), "ZZZZ");
}

#[test]
fn known_codes_have_a_name_and_a_row() {
    let record = event(b"FTLP", &fastest_lap(0, 60.0));
    assert_eq!(record.event_id(), Some(EventId::FastestLap));
    assert_eq!(record.event_name(), "Fastest Lap");
    assert_eq!(record.event_description(), "When a driver achieves the fastest lap");
    assert_eq!(record.code_as_string(), "FTLP");
    let row = record.event_reference().expect("the code is known");
    assert_eq!(row.id, EventId::FastestLap);
    assert_eq!(row.event, "Fastest Lap");
    assert_eq!(row.code, "FTLP");
    assert_eq!(row.description, "When a driver achieves the fastest lap");
}

#[test]
fn codes_that_are_no_utf8_are_shown_with_replacements() {
    let record = event(&[b'A', 0xff, b'B', b'C'], &[]);
    assert_eq!(record.code_as_string(), "A\u{fffd}BC");
    assert_eq!(record.event_id(), None);
}

#[test]
fn event_details_are_read_by_kind() {
    let record = event(b"SPTP", &speed_trap(4, 250.5, 1, 0, 333.0));
    let arm = record.event_details.speed_trap();
    assert_eq!(arm.vehicle_idx, 4);
    assert_eq!(arm.speed.bits, 250.5f32.to_bits());
    assert_eq!(arm.is_overall_fastest_in_session, 1);
    assert_eq!(arm.is_driver_fastest_in_session, 0);
    assert_eq!(arm.fastest_vehicle_idx_in_session, 3);
    assert_eq!(arm.fastest_speed_in_session.bits, 333.0f32.to_bits());
    assert_eq!(record.event_details.retirement().vehicle_idx, 4);
    assert_eq!(record.event_details.teammate_in_pits().vehicle_idx, 4);
    assert_eq!(record.event_details.race_winner().vehicle_idx, 4);
    assert_eq!(record.event_details.start_lights().num_lights, 4);
    assert_eq!(record.event_details.drive_through_penalty_served().vehicle_idx, 4);
    assert_eq!(record.event_details.stop_go_penalty_served().vehicle_idx, 4);
    assert_eq!(record.event_details.fastest_lap().lap_time.bits, 250.5f32.to_bits());
    let penalty = event(b"PENA", &[1, 2, 3, 4, 5, 6, 7]).event_details.penalty();
    assert_eq!(penalty.vehicle_idx, 3);
    assert_eq!(penalty.other_vehicle_idx, 4);
    assert_eq!(penalty.time, 5);
    assert_eq!(penalty.lap_num, 6);
    assert_eq!(penalty.places_gained, 7);
    let flashback = event(b"FLBK", &[1, 0, 0, 0, 0, 0, 128, 63]).event_details.flashback();
    assert_eq!(flashback.flashback_frame_identifier, 1);
    assert_eq!(flashback.flashback_session_time.bits, 1.0f32.to_bits());
    assert_eq!(event(b"BUTN", &[4, 0, 0, 0]).event_details.buttons().button_status, 4);
}

#[test]
fn pressed_buttons_come_in_the_order_they_are_reported() {
    assert_eq!(Buttons { button_status: 0 }.get_pressed_buttons(), Vec::<ButtonFlag>::new());
    assert_eq!(
        Buttons { button_status: 0x0000_000f }.get_pressed_buttons(),
        vec![
            ButtonFlag::CircleorB,
            ButtonFlag::CrossorA,
            ButtonFlag::SquareorX,
            ButtonFlag::TriangleorY
        ]
    );
    assert_eq!(
        Buttons { button_status: 0x0008_0080 }.get_pressed_buttons(),
        vec![ButtonFlag::DpadDown, ButtonFlag::Special]
    );
    assert_eq!(Buttons { button_status: 0xfff0_0000 }.get_pressed_buttons(), Vec::new());
    let all = Buttons { button_status: 0xffff_ffff }.get_pressed_buttons();
    assert_eq!(all.len(), 20);
    assert_eq!(all[0], ButtonFlag::CircleorB);
    assert_eq!(all[19], ButtonFlag::TriangleorY);
}
