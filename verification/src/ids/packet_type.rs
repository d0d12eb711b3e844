//! The discriminant of a datagram.
use crate::wire::Wire;
use vstd::prelude::*;

verus! {

/// The kind of record a datagram holds, as its header announces it.
#[derive(Clone, Copy, Debug, PartialEq, Eq, Structural)]
pub enum PacketType {
    Motion,
    Session,
    LapData,
    Event,
    Participants,
    CarSetups,
    CarTelemetry,
    CarStatus,
    FinalClassification,
    LobbyInfo,
    CarDamage,
    SessionHistory,
    Unknown,
    /// A number the protocol does not list for a discriminant.
    Other(u8),
}

impl PacketType {
    /// Whether the protocol lists `code` for a discriminant.
    pub open spec fn is_listed(code: u8) -> bool {
        ||| code <= 11
        ||| code == 255
    }

    /// The number that stands for the value in a datagram.
    pub open spec fn code(self) -> u8 {
        match self {
            PacketType::Motion => 0,
            PacketType::Session => 1,
            PacketType::LapData => 2,
            PacketType::Event => 3,
            PacketType::Participants => 4,
            PacketType::CarSetups => 5,
            PacketType::CarTelemetry => 6,
            PacketType::CarStatus => 7,
            PacketType::FinalClassification => 8,
            PacketType::LobbyInfo => 9,
            PacketType::CarDamage => 10,
            PacketType::SessionHistory => 11,
            PacketType::Unknown => 255,
            PacketType::Other(code) => code,
        }
    }

    /// The value that `code` stands for: the listed one where there is one,
    /// `Other` with the number kept where there is none.
    pub open spec fn of_code(code: u8) -> PacketType {
        if code == 0 {
            PacketType::Motion
        } else if code == 1 {
            PacketType::Session
        } else if code == 2 {
            PacketType::LapData
        } else if code == 3 {
            PacketType::Event
        } else if code == 4 {
            PacketType::Participants
        } else if code == 5 {
            PacketType::CarSetups
        } else if code == 6 {
            PacketType::CarTelemetry
        } else if code == 7 {
            PacketType::CarStatus
        } else if code == 8 {
            PacketType::FinalClassification
        } else if code == 9 {
            PacketType::LobbyInfo
        } else if code == 10 {
            PacketType::CarDamage
        } else if code == 11 {
            PacketType::SessionHistory
        } else if code == 255 {
            PacketType::Unknown
        } else {
            PacketType::Other(code)
        }
    }

    /// Whether the value names one of the twelve kinds of record.
    pub open spec fn is_record(self) -> bool {
        self.code() <= 11
    }

    /// The number that stands for the value in a datagram.
    pub fn as_u8(&self) -> (code: u8)
        ensures
            code == self.code(),
    {
        match self {
            PacketType::Motion => 0,
            PacketType::Session => 1,
            PacketType::LapData => 2,
            PacketType::Event => 3,
            PacketType::Participants => 4,
            PacketType::CarSetups => 5,
            PacketType::CarTelemetry => 6,
            PacketType::CarStatus => 7,
            PacketType::FinalClassification => 8,
            PacketType::LobbyInfo => 9,
            PacketType::CarDamage => 10,
            PacketType::SessionHistory => 11,
            PacketType::Unknown => 255,
            PacketType::Other(code) => *code,
        }
    }

    /// The value that `code` stands for: the listed one where there is one,
    /// `Other` with the number kept where there is none.
    pub fn from_u8(code: u8) -> (value: Self)
        ensures
            value == Self::of_code(code),
            value.code() == code,
            value.canonical(),
    {
        match code {
            0 => PacketType::Motion,
            1 => PacketType::Session,
            2 => PacketType::LapData,
            3 => PacketType::Event,
            4 => PacketType::Participants,
            5 => PacketType::CarSetups,
            6 => PacketType::CarTelemetry,
            7 => PacketType::CarStatus,
            8 => PacketType::FinalClassification,
            9 => PacketType::LobbyInfo,
            10 => PacketType::CarDamage,
            11 => PacketType::SessionHistory,
            255 => PacketType::Unknown,
            _ => PacketType::Other(code),
        }
    }
}

impl Default for PacketType {
    fn default() -> (value: Self)
        ensures
            value == PacketType::Unknown,
    {
        PacketType::Unknown
    }
}

impl Wire for PacketType {
    open spec fn wire(&self) -> Seq<u8> {
        self.code().wire()
    }

    open spec fn width() -> nat {
        1
    }

    open spec fn canonical(&self) -> bool {
        match self {
            PacketType::Other(code) => !Self::is_listed(*code),
            _ => true,
        }
    }

    proof fn lemma_wire_len(&self) {
    }

    proof fn lemma_wire_injective(&self, other: &Self) {
        self.code().lemma_wire_injective(&other.code());
    }

    fn size() -> (n: usize) {
        1
    }

    fn decode(bytes: &[u8], at: usize) -> (value: Self) {
        Self::from_u8(u8::decode(bytes, at))
    }

    fn encode(&self, out: &mut Vec<u8>) {
        self.as_u8().encode(out);
    }
}

} // verus!
