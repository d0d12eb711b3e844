//! A decoded record of any kind.
use crate::ids::PacketType;
use crate::packets::classification::PacketFinalClassificationData;
use crate::packets::damage::PacketCarDamageData;
use crate::packets::event::PacketEventData;
use crate::packets::header::PacketHeader;
use crate::packets::history::PacketSessionHistoryData;
use crate::packets::lap::PacketLapData;
use crate::packets::lobby::PacketLobbyInfoData;
use crate::packets::motion::PacketMotionData;
use crate::packets::participants::PacketParticipantsData;
use crate::packets::session::PacketSessionData;
use crate::packets::setups::PacketCarSetupData;
use crate::packets::status::PacketCarStatusData;
use crate::packets::telemetry::PacketCarTelemetryData;
use crate::wire::{Float32, Wire};
use vstd::prelude::*;

verus! {

/// A prefix of a concatenation that ends inside its first part is a prefix
/// of that part.
pub broadcast proof fn lemma_prefix_of_concat(a: Seq<u8>, b: Seq<u8>, n: int)
    requires
        0 <= n <= a.len(),
    ensures
        #[trigger] (a + b).subrange(0, n) == a.subrange(0, n),
{
    assert((a + b).subrange(0, n) =~= a.subrange(0, n));
}

/// One record, tagged with its kind.
#[derive(Clone, Copy, Debug, PartialEq, Eq)]
pub enum TelemetryPacket {
    Motion(PacketMotionData),
    Session(PacketSessionData),
    LapData(PacketLapData),
    Event(PacketEventData),
    Participants(PacketParticipantsData),
    CarSetups(PacketCarSetupData),
    CarTelemetry(PacketCarTelemetryData),
    CarStatus(PacketCarStatusData),
    FinalClassification(PacketFinalClassificationData),
    LobbyInfo(PacketLobbyInfoData),
    CarDamage(PacketCarDamageData),
    SessionHistory(PacketSessionHistoryData),
}

impl TelemetryPacket {
    /// The kind of the record: its tag.
    pub open spec fn kind(self) -> PacketType {
        match self {
            TelemetryPacket::Motion(_) => PacketType::Motion,
            TelemetryPacket::Session(_) => PacketType::Session,
            TelemetryPacket::LapData(_) => PacketType::LapData,
            TelemetryPacket::Event(_) => PacketType::Event,
            TelemetryPacket::Participants(_) => PacketType::Participants,
            TelemetryPacket::CarSetups(_) => PacketType::CarSetups,
            TelemetryPacket::CarTelemetry(_) => PacketType::CarTelemetry,
            TelemetryPacket::CarStatus(_) => PacketType::CarStatus,
            TelemetryPacket::FinalClassification(_) => PacketType::FinalClassification,
            TelemetryPacket::LobbyInfo(_) => PacketType::LobbyInfo,
            TelemetryPacket::CarDamage(_) => PacketType::CarDamage,
            TelemetryPacket::SessionHistory(_) => PacketType::SessionHistory,
        }
    }

    /// The header the record carries.
    pub open spec fn header_of(self) -> PacketHeader {
        match self {
            TelemetryPacket::Motion(p) => p.header,
            TelemetryPacket::Session(p) => p.header,
            TelemetryPacket::LapData(p) => p.header,
            TelemetryPacket::Event(p) => p.header,
            TelemetryPacket::Participants(p) => p.header,
            TelemetryPacket::CarSetups(p) => p.header,
            TelemetryPacket::CarTelemetry(p) => p.header,
            TelemetryPacket::CarStatus(p) => p.header,
            TelemetryPacket::FinalClassification(p) => p.header,
            TelemetryPacket::LobbyInfo(p) => p.header,
            TelemetryPacket::CarDamage(p) => p.header,
            TelemetryPacket::SessionHistory(p) => p.header,
        }
    }

    /// The bytes that stand for the record.
    pub open spec fn wire(self) -> Seq<u8> {
        match self {
            TelemetryPacket::Motion(p) => p.wire(),
            TelemetryPacket::Session(p) => p.wire(),
            TelemetryPacket::LapData(p) => p.wire(),
            TelemetryPacket::Event(p) => p.wire(),
            TelemetryPacket::Participants(p) => p.wire(),
            TelemetryPacket::CarSetups(p) => p.wire(),
            TelemetryPacket::CarTelemetry(p) => p.wire(),
            TelemetryPacket::CarStatus(p) => p.wire(),
            TelemetryPacket::FinalClassification(p) => p.wire(),
            TelemetryPacket::LobbyInfo(p) => p.wire(),
            TelemetryPacket::CarDamage(p) => p.wire(),
            TelemetryPacket::SessionHistory(p) => p.wire(),
        }
    }

    /// Whether the record is the one a reader produces for its bytes.
    pub open spec fn canonical(self) -> bool {
        match self {
            TelemetryPacket::Motion(p) => p.canonical(),
            TelemetryPacket::Session(p) => p.canonical(),
            TelemetryPacket::LapData(p) => p.canonical(),
            TelemetryPacket::Event(p) => p.canonical(),
            TelemetryPacket::Participants(p) => p.canonical(),
            TelemetryPacket::CarSetups(p) => p.canonical(),
            TelemetryPacket::CarTelemetry(p) => p.canonical(),
            TelemetryPacket::CarStatus(p) => p.canonical(),
            TelemetryPacket::FinalClassification(p) => p.canonical(),
            TelemetryPacket::LobbyInfo(p) => p.canonical(),
            TelemetryPacket::CarDamage(p) => p.canonical(),
            TelemetryPacket::SessionHistory(p) => p.canonical(),
        }
    }

    /// What the kind of the record is called.
    pub open spec fn name_text(self) -> Seq<char> {
        match self {
            TelemetryPacket::Motion(_) => "Motion"@,
            TelemetryPacket::Session(_) => "Session"@,
            TelemetryPacket::LapData(_) => "Lap Data"@,
            TelemetryPacket::Event(_) => "Event"@,
            TelemetryPacket::Participants(_) => "Participants"@,
            TelemetryPacket::CarSetups(_) => "Car Setups"@,
            TelemetryPacket::CarTelemetry(_) => "Car Telemetry"@,
            TelemetryPacket::CarStatus(_) => "Car Status"@,
            TelemetryPacket::FinalClassification(_) => "Final Classification"@,
            TelemetryPacket::LobbyInfo(_) => "Lobby Info"@,
            TelemetryPacket::CarDamage(_) => "Car Damage"@,
            TelemetryPacket::SessionHistory(_) => "Session History"@,
        }
    }

    /// Whether the header announces the kind that the tag names.
    pub open spec fn consistent(self) -> bool {
        self.header_of().packet_id == self.kind()
    }

    /// The record starts with its header.
    pub proof fn lemma_header_first(self)
        ensures
            self.wire().subrange(0, 24) == self.header_of().wire(),
    {
        broadcast use lemma_prefix_of_concat;

        let header = self.header_of();
        header.lemma_wire_len();
        assert(header.wire().subrange(0, 24) =~= header.wire());
    }

    /// A record takes as many bytes as its kind says.
    pub proof fn lemma_wire_len(self)
        ensures
            Some(self.wire().len()) == record_size(self.kind()),
    {
        match self {
            TelemetryPacket::Motion(p) => p.lemma_wire_len(),
            TelemetryPacket::Session(p) => p.lemma_wire_len(),
            TelemetryPacket::LapData(p) => p.lemma_wire_len(),
            TelemetryPacket::Event(p) => p.lemma_wire_len(),
            TelemetryPacket::Participants(p) => p.lemma_wire_len(),
            TelemetryPacket::CarSetups(p) => p.lemma_wire_len(),
            TelemetryPacket::CarTelemetry(p) => p.lemma_wire_len(),
            TelemetryPacket::CarStatus(p) => p.lemma_wire_len(),
            TelemetryPacket::FinalClassification(p) => p.lemma_wire_len(),
            TelemetryPacket::LobbyInfo(p) => p.lemma_wire_len(),
            TelemetryPacket::CarDamage(p) => p.lemma_wire_len(),
            TelemetryPacket::SessionHistory(p) => p.lemma_wire_len(),
        }
    }

    /// Two canonical records with the same tag and the same bytes are the
    /// same record.
    pub proof fn lemma_wire_injective(self, other: TelemetryPacket)
        requires
            self.canonical(),
            other.canonical(),
            self.kind() == other.kind(),
            self.wire() == other.wire(),
        ensures
            self == other,
    {
        match (self, other) {
            (TelemetryPacket::Motion(p), TelemetryPacket::Motion(q)) => p.lemma_wire_injective(&q),
            (TelemetryPacket::Session(p), TelemetryPacket::Session(q)) => {
                p.lemma_wire_injective(&q)
            },
            (TelemetryPacket::LapData(p), TelemetryPacket::LapData(q)) => {
                p.lemma_wire_injective(&q)
            },
            (TelemetryPacket::Event(p), TelemetryPacket::Event(q)) => p.lemma_wire_injective(&q),
            (TelemetryPacket::Participants(p), TelemetryPacket::Participants(q)) => {
                p.lemma_wire_injective(&q)
            },
            (TelemetryPacket::CarSetups(p), TelemetryPacket::CarSetups(q)) => {
                p.lemma_wire_injective(&q)
            },
            (TelemetryPacket::CarTelemetry(p), TelemetryPacket::CarTelemetry(q)) => {
                p.lemma_wire_injective(&q)
            },
            (TelemetryPacket::CarStatus(p), TelemetryPacket::CarStatus(q)) => {
                p.lemma_wire_injective(&q)
            },
            (TelemetryPacket::FinalClassification(p), TelemetryPacket::FinalClassification(q)) => {
                p.lemma_wire_injective(&q)
            },
            (TelemetryPacket::LobbyInfo(p), TelemetryPacket::LobbyInfo(q)) => {
                p.lemma_wire_injective(&q)
            },
            (TelemetryPacket::CarDamage(p), TelemetryPacket::CarDamage(q)) => {
                p.lemma_wire_injective(&q)
            },
            (TelemetryPacket::SessionHistory(p), TelemetryPacket::SessionHistory(q)) => {
                p.lemma_wire_injective(&q)
            },
            _ => {},
        }
    }

    /// The header the record carries.
    pub fn header(&self) -> (header: &PacketHeader)
        ensures
            *header == self.header_of(),
    {
        match self {
            TelemetryPacket::Motion(p) => &p.header,
            TelemetryPacket::Session(p) => &p.header,
            TelemetryPacket::LapData(p) => &p.header,
            TelemetryPacket::Event(p) => &p.header,
            TelemetryPacket::Participants(p) => &p.header,
            TelemetryPacket::CarSetups(p) => &p.header,
            TelemetryPacket::CarTelemetry(p) => &p.header,
            TelemetryPacket::CarStatus(p) => &p.header,
            TelemetryPacket::FinalClassification(p) => &p.header,
            TelemetryPacket::LobbyInfo(p) => &p.header,
            TelemetryPacket::CarDamage(p) => &p.header,
            TelemetryPacket::SessionHistory(p) => &p.header,
        }
    }

    /// What the kind of the record is called.
    pub fn name(&self) -> (text: &'static str)
        ensures
            text@ == self.name_text(),
    {
        match self {
            TelemetryPacket::Motion(_) => "Motion",
            TelemetryPacket::Session(_) => "Session",
            TelemetryPacket::LapData(_) => "Lap Data",
            TelemetryPacket::Event(_) => "Event",
            TelemetryPacket::Participants(_) => "Participants",
            TelemetryPacket::CarSetups(_) => "Car Setups",
            TelemetryPacket::CarTelemetry(_) => "Car Telemetry",
            TelemetryPacket::CarStatus(_) => "Car Status",
            TelemetryPacket::FinalClassification(_) => "Final Classification",
            TelemetryPacket::LobbyInfo(_) => "Lobby Info",
            TelemetryPacket::CarDamage(_) => "Car Damage",
            TelemetryPacket::SessionHistory(_) => "Session History",
        }
    }

    /// The kind that the header announces.
    pub fn packet_id(&self) -> (kind: PacketType)
        ensures
            kind == self.header_of().packet_id,
    {
        self.header().packet_id
    }

    /// The year of the protocol, such as 2022.
    pub fn format(&self) -> (format: u16)
        ensures
            format == self.header_of().packet_format,
    {
        self.header().packet_format
    }

    /// The session the record belongs to.
    pub fn session_uid(&self) -> (uid: u64)
        ensures
            uid == self.header_of().session_uid,
    {
        self.header().session_uid
    }

    /// Seconds since the session began.
    pub fn session_time(&self) -> (time: Float32)
        ensures
            time == self.header_of().session_time,
    {
        self.header().session_time
    }

    /// The version of this kind of record.
    pub fn version(&self) -> (version: u8)
        ensures
            version == self.header_of().packet_version,
    {
        self.header().packet_version
    }

    /// Appends the bytes of the record to `out`.
    pub fn encode(&self, out: &mut Vec<u8>)
        ensures
            final(out)@ == old(out)@ + self.wire(),
    {
        match self {
            TelemetryPacket::Motion(p) => p.encode(out),
            TelemetryPacket::Session(p) => p.encode(out),
            TelemetryPacket::LapData(p) => p.encode(out),
            TelemetryPacket::Event(p) => p.encode(out),
            TelemetryPacket::Participants(p) => p.encode(out),
            TelemetryPacket::CarSetups(p) => p.encode(out),
            TelemetryPacket::CarTelemetry(p) => p.encode(out),
            TelemetryPacket::CarStatus(p) => p.encode(out),
            TelemetryPacket::FinalClassification(p) => p.encode(out),
            TelemetryPacket::LobbyInfo(p) => p.encode(out),
            TelemetryPacket::CarDamage(p) => p.encode(out),
            TelemetryPacket::SessionHistory(p) => p.encode(out),
        }
    }

    /// The bytes of the record.
    pub fn to_bytes(&self) -> (bytes: Vec<u8>)
        ensures
            bytes@ == self.wire(),
    {
        let mut bytes: Vec<u8> = Vec::new();
        self.encode(&mut bytes);
        assert(bytes@ =~= self.wire());
        bytes
    }

    /// The motion record, where the record is one.
    pub fn as_motion(&self) -> (record: Option<&PacketMotionData>)
        ensures
            match *self {
                TelemetryPacket::Motion(p) => record == Some(&p),
                _ => record is None,
            },
    {
        if let TelemetryPacket::Motion(p) = self {
            Some(p)
        } else {
            None
        }
    }

    /// The session record, where the record is one.
    pub fn as_session(&self) -> (record: Option<&PacketSessionData>)
        ensures
            match *self {
                TelemetryPacket::Session(p) => record == Some(&p),
                _ => record is None,
            },
    {
        if let TelemetryPacket::Session(p) = self {
            Some(p)
        } else {
            None
        }
    }

    /// The lap record, where the record is one.
    pub fn as_lap_data(&self) -> (record: Option<&PacketLapData>)
        ensures
            match *self {
                TelemetryPacket::LapData(p) => record == Some(&p),
                _ => record is None,
            },
    {
        if let TelemetryPacket::LapData(p) = self {
            Some(p)
        } else {
            None
        }
    }

    /// The event record, where the record is one.
    pub fn as_event(&self) -> (record: Option<&PacketEventData>)
        ensures
            match *self {
                TelemetryPacket::Event(p) => record == Some(&p),
                _ => record is None,
            },
    {
        if let TelemetryPacket::Event(p) = self {
            Some(p)
        } else {
            None
        }
    }

    /// The roster record, where the record is one.
    pub fn as_participants(&self) -> (record: Option<&PacketParticipantsData>)
        ensures
            match *self {
                TelemetryPacket::Participants(p) => record == Some(&p),
                _ => record is None,
            },
    {
        if let TelemetryPacket::Participants(p) = self {
            Some(p)
        } else {
            None
        }
    }

    /// The car setup record, where the record is one.
    pub fn as_car_setups(&self) -> (record: Option<&PacketCarSetupData>)
        ensures
            match *self {
                TelemetryPacket::CarSetups(p) => record == Some(&p),
                _ => record is None,
            },
    {
        if let TelemetryPacket::CarSetups(p) = self {
            Some(p)
        } else {
            None
        }
    }

    /// The car telemetry record, where the record is one.
    pub fn as_car_telemetry(&self) -> (record: Option<&PacketCarTelemetryData>)
        ensures
            match *self {
                TelemetryPacket::CarTelemetry(p) => record == Some(&p),
                _ => record is None,
            },
    {
        if let TelemetryPacket::CarTelemetry(p) = self {
            Some(p)
        } else {
            None
        }
    }

    /// The car status record, where the record is one.
    pub fn as_car_status(&self) -> (record: Option<&PacketCarStatusData>)
        ensures
            match *self {
                TelemetryPacket::CarStatus(p) => record == Some(&p),
                _ => record is None,
            },
    {
        if let TelemetryPacket::CarStatus(p) = self {
            Some(p)
        } else {
            None
        }
    }

    /// The final classification record, where the record is one.
    pub fn as_final_classification(&self) -> (record: Option<&PacketFinalClassificationData>)
        ensures
            match *self {
                TelemetryPacket::FinalClassification(p) => record == Some(&p),
                _ => record is None,
            },
    {
        if let TelemetryPacket::FinalClassification(p) = self {
            Some(p)
        } else {
            None
        }
    }

    /// The lobby record, where the record is one.
    pub fn as_lobby_info(&self) -> (record: Option<&PacketLobbyInfoData>)
        ensures
            match *self {
                TelemetryPacket::LobbyInfo(p) => record == Some(&p),
                _ => record is None,
            },
    {
        if let TelemetryPacket::LobbyInfo(p) = self {
            Some(p)
        } else {
            None
        }
    }

    /// The car damage record, where the record is one.
    pub fn as_car_damage(&self) -> (record: Option<&PacketCarDamageData>)
        ensures
            match *self {
                TelemetryPacket::CarDamage(p) => record == Some(&p),
                _ => record is None,
            },
    {
        if let TelemetryPacket::CarDamage(p) = self {
            Some(p)
        } else {
            None
        }
    }

    /// The session history record, where the record is one.
    pub fn as_session_history(&self) -> (record: Option<&PacketSessionHistoryData>)
        ensures
            match *self {
                TelemetryPacket::SessionHistory(p) => record == Some(&p),
                _ => record is None,
            },
    {
        if let TelemetryPacket::SessionHistory(p) = self {
            Some(p)
        } else {
            None
        }
    }
}

/// The number of bytes a record of the given kind takes, header included;
/// nothing for what is no kind of record.
pub open spec fn record_size(kind: PacketType) -> Option<nat> {
    match kind {
        PacketType::Motion => Some(1464nat),
        PacketType::Session => Some(632nat),
        PacketType::LapData => Some(972nat),
        PacketType::Event => Some(40nat),
        PacketType::Participants => Some(1257nat),
        PacketType::CarSetups => Some(1102nat),
        PacketType::CarTelemetry => Some(1347nat),
        PacketType::CarStatus => Some(1058nat),
        PacketType::FinalClassification => Some(1015nat),
        PacketType::LobbyInfo => Some(1191nat),
        PacketType::CarDamage => Some(948nat),
        PacketType::SessionHistory => Some(1155nat),
        PacketType::Unknown => None,
        PacketType::Other(_) => None,
    }
}

} // verus!
