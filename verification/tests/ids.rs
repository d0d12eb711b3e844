use solis::ids::{
    ButtonFlag, DriverId, Event, EventId, FormulaType, GameModeId, InfringementType,
    NationalityId, PacketType, PenaltyType, RulesetId, SessionLength, SessionType, SurfaceType,
    TeamId, TrackId, WeatherType,
};

#[test]
fn packet_types_have_their_numbers() {
    assert_eq!(PacketType::Motion.as_u8(), 0);
    assert_eq!(PacketType::Session.as_u8(), 1);
    assert_eq!(PacketType::LapData.as_u8(), 2);
    assert_eq!(PacketType::Event.as_u8(), 3);
    assert_eq!(PacketType::Participants.as_u8(), 4);
    assert_eq!(PacketType::CarSetups.as_u8(), 5);
    assert_eq!(PacketType::CarTelemetry.as_u8(), 6);
    assert_eq!(PacketType::CarStatus.as_u8(), 7);
    assert_eq!(PacketType::FinalClassification.as_u8(), 8);
    assert_eq!(PacketType::LobbyInfo.as_u8(), 9);
    assert_eq!(PacketType::CarDamage.as_u8(), 10);
    assert_eq!(PacketType::SessionHistory.as_u8(), 11);
    assert_eq!(PacketType::Unknown.as_u8(), 255);
    assert_eq!(PacketType::default(), PacketType::Unknown);
}

#[test]
fn every_byte_keeps_its_number_through_every_enumeration() {
    for byte in 0..=255u8 {
        assert_eq!(PacketType::from_u8(byte).as_u8(), byte);
        assert_eq!(TeamId::from_u8(byte).as_u8(), byte);
        assert_eq!(DriverId::from_u8(byte).as_u8(), byte);
        assert_eq!(NationalityId::from_u8(byte).as_u8(), byte);
        assert_eq!(GameModeId::from_u8(byte).as_u8(), byte);
        assert_eq!(RulesetId::from_u8(byte).as_u8(), byte);
        assert_eq!(SurfaceType::from_u8(byte).as_u8(), byte);
        assert_eq!(PenaltyType::from_u8(byte).as_u8(), byte);
        assert_eq!(InfringementType::from_u8(byte).as_u8(), byte);
        assert_eq!(SessionType::from_u8(byte).as_u8(), byte);
        assert_eq!(WeatherType::from_u8(byte).as_u8(), byte);
        assert_eq!(FormulaType::from_u8(byte).as_u8(), byte);
        assert_eq!(SessionLength::from_u8(byte).as_u8(), byte);
        let signed = byte as i8;
        assert_eq!(TrackId::from_i8(signed).as_i8(), signed);
    }
}

#[test]
fn listed_numbers_give_listed_values() {
    assert_eq!(TeamId::from_u8(1), TeamId::Ferrari);
    assert_eq!(TeamId::from_u8(255), TeamId::NoTeam);
    assert_eq!(TeamId::from_u8(105), TeamId::Other(105));
    assert_eq!(DriverId::from_u8(7), DriverId::LewisHamilton);
    assert_eq!(DriverId::from_u8(5), DriverId::Other(5));
    assert_eq!(DriverId::from_u8(255), DriverId::NetworkHuman);
    assert_eq!(TrackId::from_i8(-1), TrackId::Unknown);
    assert_eq!(TrackId::from_i8(5), TrackId::Monaco);
    assert_eq!(TrackId::from_i8(30), TrackId::Miami);
    assert_eq!(TrackId::from_i8(31), TrackId::Other(31));
    assert_eq!(TrackId::from_i8(-2), TrackId::Other(-2));
    assert_eq!(NationalityId::from_u8(0), NationalityId::Other(0));
    assert_eq!(NationalityId::from_u8(10), NationalityId::British);
    assert_eq!(GameModeId::from_u8(127), GameModeId::Benchmark);
    assert_eq!(GameModeId::from_u8(1), GameModeId::Other(1));
    assert_eq!(RulesetId::from_u8(11), RulesetId::RivalDuel);
    assert_eq!(SurfaceType::from_u8(7), SurfaceType::Grass);
    assert_eq!(SessionType::from_u8(13), SessionType::TimeTrial);
    assert_eq!(WeatherType::from_u8(5), WeatherType::Storm);
    assert_eq!(FormulaType::from_u8(2), FormulaType::F2);
    assert_eq!(SessionLength::from_u8(1), SessionLength::Other(1));
    assert_eq!(SessionLength::from_u8(7), SessionLength::Full);
    assert_eq!(InfringementType::from_u8(54), InfringementType::AttributeAssigned);
    assert_eq!(PenaltyType::from_u8(16), PenaltyType::Retired);
}

#[test]
fn defaults_are_the_unset_values() {
    assert_eq!(TeamId::default(), TeamId::NoTeam);
    assert_eq!(DriverId::default(), DriverId::NetworkHuman);
    assert_eq!(TrackId::default(), TrackId::Unknown);
    assert_eq!(NationalityId::default(), NationalityId::Unstated);
    assert_eq!(SessionType::default(), SessionType::Unknown);
    assert_eq!(WeatherType::default(), WeatherType::Clear);
    assert_eq!(FormulaType::default(), FormulaType::F1Modern);
    assert_eq!(SessionLength::default(), SessionLength::Unset);
}

#[test]
fn buttons_have_their_bits_and_names() {
    assert_eq!(ButtonFlag::CrossorA.as_u32(), 0x0000_0001);
    assert_eq!(ButtonFlag::TriangleorY.as_u32(), 0x0000_0002);
    assert_eq!(ButtonFlag::Special.as_u32(), 0x0008_0000);
    assert_eq!(ButtonFlag::UDPAction1.as_u32(), 0x0010_0000);
    assert_eq!(ButtonFlag::UDPAction12.as_u32(), 0x8000_0000);
    assert_eq!(ButtonFlag::CrossorA.as_str(), "Cross/A");
    assert_eq!(ButtonFlag::OptionsorMenu.as_str(), "Option/Menu");
    assert_eq!(ButtonFlag::RightStickDown.as_str(), "Right Stick Down");
    assert_eq!(ButtonFlag::UDPAction1.as_str(), "UDP Action");
    assert_eq!(ButtonFlag::UDPAction12.as_str(), "UDP Action");
}

#[test]
fn penalties_have_their_words() {
    assert_eq!(PenaltyType::DriveThrough.as_str(), "Drive Through");
    assert_eq!(PenaltyType::StopGo.as_str(), "Stop Go Penalty");
    assert_eq!(PenaltyType::Disqualified.as_str(), "Disqualification Penalty");
    assert_eq!(
        PenaltyType::ThisAndPreviousLapInvalidatedWithoutReason.as_str(),
        "Invalidated Lap Without Reason (This And Previous Lap)"
    );
    assert_eq!(PenaltyType::Retired.as_str(), "Retired");
    assert_eq!(PenaltyType::BlackFlagTimer.as_str(), "Black Flag Penalty");
    assert_eq!(PenaltyType::Other(99).as_str(), "Penalty");
    assert_eq!(InfringementType::BigCollision.name(), "BigCollision");
    assert_eq!(InfringementType::Other(99).name(), "Other");
}

#[test]
fn events_are_found_by_their_codes() {
    let table = [
        (b"SSTA", EventId::SessionStarted, "Session Started"),
        (b"SEND", EventId::SessionEnded, "Session Ended"),
        (b"FTLP", EventId::FastestLap, "Fastest Lap"),
        (b"RTMT", EventId::Retirement, "Retirement"),
        (b"DRSE", EventId::DRSEnabled, "DRS enabled"),
        (b"DRSD", EventId::DRSDisabled, "DRS disabled"),
        (b"TMPT", EventId::TeamMateInPits, "Team mate in pits"),
        (b"CHQF", EventId::ChequeredFlag, "Chequered flag"),
        (b"RCWN", EventId::RaceWinner, "Race Winner"),
        (b"PENA", EventId::PenaltyIssued, "Penalty Issued"),
        (b"SPTP", EventId::SpeedTrapTriggered, "Speed Trap Triggered"),
        (b"STLG", EventId::StartLights, "Start lights"),
        (b"LGOT", EventId::LightsOut, "Lights out"),
        (b"DTSV", EventId::DriveThroughServed, "Drive through served"),
        (b"SGSV", EventId::StopGoServed, "Stop go served"),
        (b"FLBK", EventId::Flashback, "Flashback"),
        (b"BUTN", EventId::ButtonStatus, "Button status"),
    ];
    for (code, id, name) in table {
        assert_eq!(EventId::from_code(code), Some(id));
        assert_eq!(id.name(), name);
        assert_eq!(id.code_str().as_bytes(), code);
        let row: Event = Event::of(id);
        assert_eq!(row.id, id);
        assert_eq!(row.event, name);
        assert_eq!(row.code.as_bytes(), code);
        assert_eq!(row.description, id.description());
    }
    assert_eq!(EventId::from_code(b"XXXX"), None);
    assert_eq!(EventId::from_code(b"ssta"), None);
    assert_eq!(EventId::from_code(&[0, 0, 0, 0]), None);
    assert_eq!(EventId::SessionStarted.description(), "Sent when the session starts");
    assert_eq!(EventId::LightsOut.description(), "Lights out");
}
