//! Circuits.
use crate::wire::Wire;
use vstd::prelude::*;

verus! {

/// The circuit a session is held on.
#[derive(Clone, Copy, Debug, PartialEq, Eq, Structural)]
pub enum TrackId {
    Unknown,
    Melbourne,
    PaulRicard,
    Shanghai,
    SakhirBahrain,
    Catalunya,
    Monaco,
    Montreal,
    Silverstone,
    Hockenheim,
    Hungaroring,
    Spa,
    Monza,
    Singapore,
    Suzuka,
    AbuDhabi,
    Texas,
    Brazil,
    Austria,
    Sochi,
    Mexico,
    BakuAzerbaijan,
    SakhirShort,
    SilverstoneShort,
    TexasShort,
    SuzukaShort,
    Hanoi,
    Zandvoort,
    Imola,
    Portimao,
    Jeddah,
    Miami,
    /// A number the protocol does not list for a circuit.
    Other(i8),
}

impl TrackId {
    /// Whether the protocol lists `code` for a circuit.
    pub open spec fn is_listed(code: i8) -> bool {
        -1 <= code <= 30
    }

    /// The number that stands for the value in a datagram.
    pub open spec fn code(self) -> i8 {
        match self {
            TrackId::Unknown => (-1) as i8,
            TrackId::Melbourne => 0,
            TrackId::PaulRicard => 1,
            TrackId::Shanghai => 2,
            TrackId::SakhirBahrain => 3,
            TrackId::Catalunya => 4,
            TrackId::Monaco => 5,
            TrackId::Montreal => 6,
            TrackId::Silverstone => 7,
            TrackId::Hockenheim => 8,
            TrackId::Hungaroring => 9,
            TrackId::Spa => 10,
            TrackId::Monza => 11,
            TrackId::Singapore => 12,
            TrackId::Suzuka => 13,
            TrackId::AbuDhabi => 14,
            TrackId::Texas => 15,
            TrackId::Brazil => 16,
            TrackId::Austria => 17,
            TrackId::Sochi => 18,
            TrackId::Mexico => 19,
            TrackId::BakuAzerbaijan => 20,
            TrackId::SakhirShort => 21,
            TrackId::SilverstoneShort => 22,
            TrackId::TexasShort => 23,
            TrackId::SuzukaShort => 24,
            TrackId::Hanoi => 25,
            TrackId::Zandvoort => 26,
            TrackId::Imola => 27,
            TrackId::Portimao => 28,
            TrackId::Jeddah => 29,
            TrackId::Miami => 30,
            TrackId::Other(code) => code,
        }
    }

    /// The number that stands for the value in a datagram.
    pub fn as_i8(&self) -> (code: i8)
        ensures
            code == self.code(),
    {
        match self {
            TrackId::Unknown => -1,
            TrackId::Melbourne => 0,
            TrackId::PaulRicard => 1,
            TrackId::Shanghai => 2,
            TrackId::SakhirBahrain => 3,
            TrackId::Catalunya => 4,
            TrackId::Monaco => 5,
            TrackId::Montreal => 6,
            TrackId::Silverstone => 7,
            TrackId::Hockenheim => 8,
            TrackId::Hungaroring => 9,
            TrackId::Spa => 10,
            TrackId::Monza => 11,
            TrackId::Singapore => 12,
            TrackId::Suzuka => 13,
            TrackId::AbuDhabi => 14,
            TrackId::Texas => 15,
            TrackId::Brazil => 16,
            TrackId::Austria => 17,
            TrackId::Sochi => 18,
            TrackId::Mexico => 19,
            TrackId::BakuAzerbaijan => 20,
            TrackId::SakhirShort => 21,
            TrackId::SilverstoneShort => 22,
            TrackId::TexasShort => 23,
            TrackId::SuzukaShort => 24,
            TrackId::Hanoi => 25,
            TrackId::Zandvoort => 26,
            TrackId::Imola => 27,
            TrackId::Portimao => 28,
            TrackId::Jeddah => 29,
            TrackId::Miami => 30,
            TrackId::Other(code) => *code,
        }
    }

    /// The value that `code` stands for: the listed one where there is one,
    /// `Other` with the number kept where there is none.
    pub fn from_i8(code: i8) -> (value: Self)
        ensures
            value.code() == code,
            value.canonical(),
    {
        match code {
            -1 => TrackId::Unknown,
            0 => TrackId::Melbourne,
            1 => TrackId::PaulRicard,
            2 => TrackId::Shanghai,
            3 => TrackId::SakhirBahrain,
            4 => TrackId::Catalunya,
            5 => TrackId::Monaco,
            6 => TrackId::Montreal,
            7 => TrackId::Silverstone,
            8 => TrackId::Hockenheim,
            9 => TrackId::Hungaroring,
            10 => TrackId::Spa,
            11 => TrackId::Monza,
            12 => TrackId::Singapore,
            13 => TrackId::Suzuka,
            14 => TrackId::AbuDhabi,
            15 => TrackId::Texas,
            16 => TrackId::Brazil,
            17 => TrackId::Austria,
            18 => TrackId::Sochi,
            19 => TrackId::Mexico,
            20 => TrackId::BakuAzerbaijan,
            21 => TrackId::SakhirShort,
            22 => TrackId::SilverstoneShort,
            23 => TrackId::TexasShort,
            24 => TrackId::SuzukaShort,
            25 => TrackId::Hanoi,
            26 => TrackId::Zandvoort,
            27 => TrackId::Imola,
            28 => TrackId::Portimao,
            29 => TrackId::Jeddah,
            30 => TrackId::Miami,
            _ => TrackId::Other(code),
        }
    }
}

impl Default for TrackId {
    fn default() -> (value: Self)
        ensures
            value == TrackId::Unknown,
    {
        TrackId::Unknown
    }
}

impl Wire for TrackId {
    open spec fn wire(&self) -> Seq<u8> {
        self.code().wire()
    }

    open spec fn width() -> nat {
        1
    }

    open spec fn canonical(&self) -> bool {
        match self {
            TrackId::Other(code) => !Self::is_listed(*code),
            _ => true,
        }
    }

    proof fn lemma_wire_len(&self) {
    }

    proof fn lemma_wire_injective(&self, other: &Self) {
        self.code().lemma_wire_injective(&other.code());
    }

    fn size() -> (n: usize) {
        1
    }

    fn decode(bytes: &[u8], at: usize) -> (value: Self) {
        Self::from_i8(i8::decode(bytes, at))
    }

    fn encode(&self, out: &mut Vec<u8>) {
        self.as_i8().encode(out);
    }
}

} // verus!
