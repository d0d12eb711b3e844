use solis::decoder::{parse_header, parse_packet, DecodeError};
use solis::ids::{PacketType, SessionType, TrackId, WeatherType};
use solis::packets::TelemetryPacket;
use solis::wire::{Float32, Wire};

const SIZES: [usize; 12] = [1464, 632, 972, 40, 1257, 1102, 1347, 1058, 1015, 1191, 948, 1155];

fn kind(code: u8) -> PacketType {
    PacketType::from_u8(code)
}

/// A datagram of `size` bytes whose header announces `discriminant`; the rest
/// is filled with bytes that differ from place to place.
fn datagram(discriminant: u8, size: usize) -> Vec<u8> {
    let mut bytes: Vec<u8> = (0..size).map(|i| (i * 7 + 13) as u8).collect();
    if size >= 24 {
        bytes[0..2].copy_from_slice(&2022u16.to_le_bytes());
        bytes[2] = 1;
        bytes[3] = 18;
        bytes[4] = 1;
        bytes[5] = discriminant;
        bytes[6..14].copy_from_slice(&0x0123_4567_89ab_cdefu64.to_le_bytes());
        bytes[14..18].copy_from_slice(&12.5f32.to_le_bytes());
        bytes[18..22].copy_from_slice(&4321u32.to_le_bytes());
        bytes[22] = 19;
        bytes[23] = 255;
    }
    bytes
}

#[test]
fn short_buffer_is_insufficient_data() {
    let buffer = [0u8; 10];
    assert_eq!(parse_packet(&buffer), Err(DecodeError::InsufficientData));
}

#[test]
fn every_length_below_a_header_is_insufficient_data() {
    for length in 0..24 {
        for fill in [0u8, 4, 255] {
            let buffer = vec![fill; length];
            assert_eq!(parse_packet(&buffer), Err(DecodeError::InsufficientData));
            assert_eq!(parse_header(&buffer), Err(DecodeError::InsufficientData));
        }
    }
}

#[test]
fn discriminants_past_eleven_are_unknown() {
    for discriminant in 12..=255u8 {
        let buffer = datagram(discriminant, 2048);
        assert_eq!(parse_packet(&buffer), Err(DecodeError::UnknownDiscriminant));
    }
}

#[test]
fn sentinel_discriminant_is_unknown_even_in_a_bare_header() {
    let buffer = datagram(255, 24);
    assert_eq!(parse_packet(&buffer), Err(DecodeError::UnknownDiscriminant));
}

#[test]
fn header_sized_roster_is_truncated() {
    let buffer = datagram(4, 24);
    assert_eq!(parse_packet(&buffer), Err(DecodeError::Truncated));
}

#[test]
fn one_byte_short_is_truncated_for_every_kind() {
    for discriminant in 0..12u8 {
        let buffer = datagram(discriminant, SIZES[discriminant as usize] - 1);
        assert_eq!(parse_packet(&buffer), Err(DecodeError::Truncated));
    }
}

#[test]
fn every_kind_decodes_with_its_tag_and_header() {
    for discriminant in 0..12u8 {
        let buffer = datagram(discriminant, SIZES[discriminant as usize]);
        let packet = parse_packet(&buffer).expect("a full-size datagram decodes");
        let tag = match packet {
            TelemetryPacket::Motion(_) => 0,
            TelemetryPacket::Session(_) => 1,
            TelemetryPacket::LapData(_) => 2,
            TelemetryPacket::Event(_) => 3,
            TelemetryPacket::Participants(_) => 4,
            TelemetryPacket::CarSetups(_) => 5,
            TelemetryPacket::CarTelemetry(_) => 6,
            TelemetryPacket::CarStatus(_) => 7,
            TelemetryPacket::FinalClassification(_) => 8,
            TelemetryPacket::LobbyInfo(_) => 9,
            TelemetryPacket::CarDamage(_) => 10,
            TelemetryPacket::SessionHistory(_) => 11,
        };
        assert_eq!(tag, discriminant);
        assert_eq!(packet.packet_id(), kind(discriminant));
        assert_eq!(packet.packet_id().as_u8(), discriminant);
        assert_eq!(packet.format(), 2022);
        assert_eq!(packet.version(), 1);
        assert_eq!(packet.session_uid(), 0x0123_4567_89ab_cdef);
        assert_eq!(packet.session_time(), Float32 { bits: 12.5f32.to_bits() });
        let header = packet.header();
        assert_eq!(header.game_major_version, 1);
        assert_eq!(header.game_minor_version, 18);
        assert_eq!(header.frame_identifier, 4321);
        assert_eq!(header.player_car_index, 19);
        assert_eq!(header.secondary_player_car_index, 255);
    }
}

#[test]
fn header_probe_reads_the_first_24_bytes() {
    let buffer = datagram(7, 24);
    let header = parse_header(&buffer).expect("24 bytes hold a header");
    assert_eq!(header.packet_format, 2022);
    assert_eq!(header.packet_id, PacketType::CarStatus);
    assert_eq!(header.session_uid, 0x0123_4567_89ab_cdef);
    assert_eq!(header.session_time.bits, 0x4148_0000);
    assert_eq!(header.frame_identifier, 4321);
}

#[test]
fn header_probe_keeps_a_discriminant_it_does_not_know() {
    let header = parse_header(&datagram(77, 24)).expect("24 bytes hold a header");
    assert_eq!(header.packet_id, PacketType::Other(77));
    let header = parse_header(&datagram(255, 24)).expect("24 bytes hold a header");
    assert_eq!(header.packet_id, PacketType::Unknown);
}

#[test]
fn encoding_a_decoded_record_gives_back_the_datagram() {
    for discriminant in 0..12u8 {
        let buffer = datagram(discriminant, SIZES[discriminant as usize]);
        let packet = parse_packet(&buffer).expect("a full-size datagram decodes");
        assert_eq!(packet.to_bytes(), buffer);
    }
}

#[test]
fn encoding_keeps_every_byte_value_in_every_place() {
    for discriminant in 0..12u8 {
        let size = SIZES[discriminant as usize];
        for fill in [0u8, 1, 127, 128, 200, 255] {
            let mut buffer = vec![fill; size];
            buffer[5] = discriminant;
            let packet = parse_packet(&buffer).expect("a full-size datagram decodes");
            assert_eq!(packet.to_bytes(), buffer);
        }
    }
}

#[test]
fn bytes_after_the_record_are_left_alone() {
    for discriminant in 0..12u8 {
        let size = SIZES[discriminant as usize];
        let long = datagram(discriminant, 2048);
        let exact = long[..size].to_vec();
        let from_long = parse_packet(&long).expect("a long datagram decodes");
        let from_exact = parse_packet(&exact).expect("a full-size datagram decodes");
        assert_eq!(from_long, from_exact);
        assert_eq!(from_long.to_bytes(), exact);
    }
}

#[test]
fn decoding_an_encoded_record_gives_back_the_record() {
    for discriminant in 0..12u8 {
        let buffer = datagram(discriminant, SIZES[discriminant as usize]);
        let packet = parse_packet(&buffer).expect("a full-size datagram decodes");
        let again = parse_packet(&packet.to_bytes()).expect("the bytes of a record decode");
        assert_eq!(again, packet);
    }
}

#[test]
fn narrowing_gives_the_record_only_for_its_own_kind() {
    let packet = parse_packet(&datagram(2, 972)).expect("a lap record decodes");
    assert!(packet.as_lap_data().is_some());
    assert!(packet.as_motion().is_none());
    assert!(packet.as_session().is_none());
    assert!(packet.as_event().is_none());
    assert!(packet.as_participants().is_none());
    assert!(packet.as_car_setups().is_none());
    assert!(packet.as_car_telemetry().is_none());
    assert!(packet.as_car_status().is_none());
    assert!(packet.as_final_classification().is_none());
    assert!(packet.as_lobby_info().is_none());
    assert!(packet.as_car_damage().is_none());
    assert!(packet.as_session_history().is_none());
    let packet = parse_packet(&datagram(0, 1464)).expect("a motion record decodes");
    assert!(packet.as_motion().is_some());
    assert!(packet.as_lap_data().is_none());
}

#[test]
fn records_are_named_by_kind() {
    let names = [
        "Motion",
        "Session",
        "Lap Data",
        "Event",
        "Participants",
        "Car Setups",
        "Car Telemetry",
        "Car Status",
        "Final Classification",
        "Lobby Info",
        "Car Damage",
        "Session History",
    ];
    for discriminant in 0..12u8 {
        let buffer = datagram(discriminant, SIZES[discriminant as usize]);
        let packet = parse_packet(&buffer).expect("a full-size datagram decodes");
        assert_eq!(packet.name(), names[discriminant as usize]);
    }
}

#[test]
fn session_record_fields_are_read_at_their_places() {
    let mut buffer = vec![0u8; 632];
    buffer[5] = 1;
    buffer[24] = 3; // weather
    buffer[25] = 0xfb; // track temperature, -5
    buffer[26] = 21; // air temperature
    buffer[27] = 58; // total laps
    buffer[28..30].copy_from_slice(&5793u16.to_le_bytes()); // track length
    buffer[30] = 10; // session type
    buffer[31] = 0xff; // track, -1
    buffer[32] = 0; // formula
    buffer[43] = 0x2c; // first marshal zone: start 0.25, little end first
    buffer[43..47].copy_from_slice(&0.25f32.to_le_bytes());
    buffer[47] = 0xff; // first marshal zone: flag -1
    buffer[627..631].copy_from_slice(&754u32.to_le_bytes()); // time of day
    buffer[631] = 7; // session length
    let packet = parse_packet(&buffer).expect("a session record decodes");
    let session = packet.as_session().expect("the record is a session record");
    assert_eq!(session.weather, WeatherType::LightRain);
    assert_eq!(session.track_temperature, -5);
    assert_eq!(session.air_temperature, 21);
    assert_eq!(session.total_laps, 58);
    assert_eq!(session.track_length, 5793);
    assert_eq!(session.session_type, SessionType::R);
    assert_eq!(session.track_id, TrackId::Unknown);
    assert_eq!(session.marshal_zones[0].zone_start.bits, 0.25f32.to_bits());
    assert_eq!(session.marshal_zones[0].zone_flag, -1);
    assert_eq!(session.time_of_day, 754);
    assert_eq!(session.session_length, solis::ids::SessionLength::Full);
}

#[test]
fn motion_record_reads_signed_directions() {
    let mut buffer = vec![0u8; 1464];
    buffer[5] = 0;
    // the second car: 24 + 60 = 84; directions start 24 bytes into a car
    buffer[84 + 24..84 + 26].copy_from_slice(&(-32768i16).to_le_bytes());
    buffer[84 + 26..84 + 28].copy_from_slice(&(-1i16).to_le_bytes());
    buffer[84 + 28..84 + 30].copy_from_slice(&32767i16.to_le_bytes());
    buffer[1460..1464].copy_from_slice(&(-0.5f32).to_le_bytes());
    let packet = parse_packet(&buffer).expect("a motion record decodes");
    let motion = packet.as_motion().expect("the record is a motion record");
    assert_eq!(motion.car_motion_data[1].world_forward_dir_x, -32768);
    assert_eq!(motion.car_motion_data[1].world_forward_dir_y, -1);
    assert_eq!(motion.car_motion_data[1].world_forward_dir_z, 32767);
    assert_eq!(motion.car_motion_data[0].world_forward_dir_x, 0);
    assert_eq!(motion.front_wheels_angle.bits, (-0.5f32).to_bits());
}

#[test]
fn final_classification_reads_a_double() {
    let mut buffer = vec![0u8; 1015];
    buffer[5] = 8;
    buffer[24] = 20; // number of cars
    let first = 25;
    buffer[first] = 1; // position
    buffer[first + 6..first + 10].copy_from_slice(&83_456u32.to_le_bytes());
    buffer[first + 10..first + 18].copy_from_slice(&5412.75f64.to_le_bytes());
    let packet = parse_packet(&buffer).expect("a classification record decodes");
    let result = packet.as_final_classification().expect("the record is a classification");
    assert_eq!(result.num_cars, 20);
    assert_eq!(result.classification_data[0].position, 1);
    assert_eq!(result.classification_data[0].best_lap_time_in_ms, 83_456);
    assert_eq!(result.classification_data[0].total_race_time.bits, 5412.75f64.to_bits());
}

#[test]
fn integers_are_written_little_end_first() {
    let mut out = Vec::new();
    0x1234u16.encode(&mut out);
    0x89ab_cdefu32.encode(&mut out);
    0x0102_0304_0506_0708u64.encode(&mut out);
    (-2i8).encode(&mut out);
    (-2i16).encode(&mut out);
    assert_eq!(
        out,
        vec![
            0x34, 0x12, 0xef, 0xcd, 0xab, 0x89, 0x08, 0x07, 0x06, 0x05, 0x04, 0x03, 0x02, 0x01,
            0xfe, 0xfe, 0xff
        ]
    );
    assert_eq!(u16::decode(&out, 0), 0x1234);
    assert_eq!(u32::decode(&out, 2), 0x89ab_cdef);
    assert_eq!(u64::decode(&out, 6), 0x0102_0304_0506_0708);
    assert_eq!(i8::decode(&out, 14), -2);
    assert_eq!(i16::decode(&out, 15), -2);
}

#[test]
fn widths_are_those_of_the_protocol() {
    assert_eq!(u8::size(), 1);
    assert_eq!(i8::size(), 1);
    assert_eq!(u16::size(), 2);
    assert_eq!(i16::size(), 2);
    assert_eq!(u32::size(), 4);
    assert_eq!(u64::size(), 8);
    assert_eq!(Float32::size(), 4);
    assert_eq!(solis::wire::Float64::size(), 8);
    assert_eq!(PacketType::size(), 1);
    assert_eq!(solis::packets::PacketHeader::size(), 24);
    assert_eq!(solis::packets::PacketHeader::size(), solis::packets::HEADER_SIZE);
    assert_eq!(solis::packets::CarMotionData::size(), 60);
    assert_eq!(solis::packets::PacketMotionData::size(), 1464);
    assert_eq!(solis::packets::MarshalZone::size(), 5);
    assert_eq!(solis::packets::WeatherForecastSample::size(), 8);
    assert_eq!(solis::packets::PacketSessionData::size(), 632);
    assert_eq!(solis::packets::LapData::size(), 43);
    assert_eq!(solis::packets::PacketLapData::size(), 972);
    assert_eq!(solis::packets::PacketEventData::size(), 40);
    assert_eq!(solis::packets::EventDataDetails::size(), 12);
    assert_eq!(solis::packets::ParticipantData::size(), 56);
    assert_eq!(solis::packets::PacketParticipantsData::size(), 1257);
    assert_eq!(solis::packets::CarSetupData::size(), 49);
    assert_eq!(solis::packets::PacketCarSetupData::size(), 1102);
    assert_eq!(solis::packets::CarTelemetryData::size(), 60);
    assert_eq!(solis::packets::PacketCarTelemetryData::size(), 1347);
    assert_eq!(solis::packets::CarStatusData::size(), 47);
    assert_eq!(solis::packets::PacketCarStatusData::size(), 1058);
    assert_eq!(solis::packets::FinalClassificationData::size(), 45);
    assert_eq!(solis::packets::PacketFinalClassificationData::size(), 1015);
    assert_eq!(solis::packets::LobbyInfoData::size(), 53);
    assert_eq!(solis::packets::PacketLobbyInfoData::size(), 1191);
    assert_eq!(solis::packets::CarDamageData::size(), 42);
    assert_eq!(solis::packets::PacketCarDamageData::size(), 948);
    assert_eq!(solis::packets::LapHistoryData::size(), 11);
    assert_eq!(solis::packets::TyreStintHistoryData::size(), 3);
    assert_eq!(solis::packets::PacketSessionHistoryData::size(), 1155);
}

#[test]
fn a_header_is_written_as_it_was_read() {
    let buffer = datagram(6, 24);
    let header = parse_header(&buffer).expect("24 bytes hold a header");
    let mut out = vec![0xaa];
    header.encode(&mut out);
    assert_eq!(out[0], 0xaa);
    assert_eq!(&out[1..], &buffer[..]);
}

#[test]
fn text_ends_at_the_first_zero_byte() {
    assert_eq!(solis::text::text_until_nul(b"VER\0STAPPEN"), "VER");
    assert_eq!(solis::text::text_until_nul(b"\0"), "");
    assert_eq!(solis::text::text_until_nul(b""), "");
    assert_eq!(solis::text::text_until_nul(b"no end"), "no end");
    assert_eq!(solis::text::text_until_nul(&[0xe2, 0x80, 0xa6, 0]), "\u{2026}");
    assert_eq!(solis::text::text_until_nul(&[0x80, b'a']), "\u{fffd}a");
}

#[test]
fn bytes_are_printed_in_decimal() {
    for n in 0..=255u8 {
        assert_eq!(solis::text::decimal(n), n.to_string());
    }
}
