//! Teams.
use crate::wire::Wire;
use vstd::prelude::*;

verus! {

/// The team a car runs for.
#[derive(Clone, Copy, Debug, PartialEq, Eq, Structural)]
pub enum TeamId {
    Mercedes,
    Ferrari,
    RedBullRacing,
    Williams,
    AstonMartin,
    Alpine,
    AlphaTauri,
    Haas,
    McLaren,
    AlfaRomeo,
    Mercedes2020,
    Ferrari2020,
    RedBull2020,
    Williams2020,
    RacingPoint2020,
    Renault2020,
    AlphaTauri2020,
    Haas2020,
    McLaren2020,
    AlfaRomeo2020,
    AstonMartinDB11V12,
    AstonMartinVantageF1Edition,
    AstonMartinVantageSafetyCar,
    FerrariF8Tributo,
    FerrariRoma,
    McLaren720S,
    McLarenArtura,
    MercedesAMGGTBlackSeriesSafetyCar,
    MercedesAMGGTRPro,
    F1CustomTeam,
    Prema21,
    UniVirtuosi21,
    Carlin21,
    Hitech21,
    ArtGP21,
    MPMotorsport21,
    Charouz21,
    Dams21,
    Campos21,
    BWT21,
    Trident21,
    MercedesAMGGTBlackSeries,
    Prema22,
    Virtuosi22,
    Carlin22,
    Hitech22,
    ArtGP22,
    MPMotorsport22,
    Charouz22,
    Dams22,
    Campos22,
    VanAmersfoortRacing22,
    Trident22,
    NoTeam,
    /// A number the protocol does not list for a team.
    Other(u8),
}

impl TeamId {
    /// Whether the protocol lists `code` for a team.
    pub open spec fn is_listed(code: u8) -> bool {
        ||| code <= 9
        ||| 85 <= code <= 104
        ||| 106 <= code <= 128
        ||| code == 255
    }

    /// The number that stands for the value in a datagram.
    pub open spec fn code(self) -> u8 {
        match self {
            TeamId::Mercedes => 0,
            TeamId::Ferrari => 1,
            TeamId::RedBullRacing => 2,
            TeamId::Williams => 3,
            TeamId::AstonMartin => 4,
            TeamId::Alpine => 5,
            TeamId::AlphaTauri => 6,
            TeamId::Haas => 7,
            TeamId::McLaren => 8,
            TeamId::AlfaRomeo => 9,
            TeamId::Mercedes2020 => 85,
            TeamId::Ferrari2020 => 86,
            TeamId::RedBull2020 => 87,
            TeamId::Williams2020 => 88,
            TeamId::RacingPoint2020 => 89,
            TeamId::Renault2020 => 90,
            TeamId::AlphaTauri2020 => 91,
            TeamId::Haas2020 => 92,
            TeamId::McLaren2020 => 93,
            TeamId::AlfaRomeo2020 => 94,
            TeamId::AstonMartinDB11V12 => 95,
            TeamId::AstonMartinVantageF1Edition => 96,
            TeamId::AstonMartinVantageSafetyCar => 97,
            TeamId::FerrariF8Tributo => 98,
            TeamId::FerrariRoma => 99,
            TeamId::McLaren720S => 100,
            TeamId::McLarenArtura => 101,
            TeamId::MercedesAMGGTBlackSeriesSafetyCar => 102,
            TeamId::MercedesAMGGTRPro => 103,
            TeamId::F1CustomTeam => 104,
            TeamId::Prema21 => 106,
            TeamId::UniVirtuosi21 => 107,
            TeamId::Carlin21 => 108,
            TeamId::Hitech21 => 109,
            TeamId::ArtGP21 => 110,
            TeamId::MPMotorsport21 => 111,
            TeamId::Charouz21 => 112,
            TeamId::Dams21 => 113,
            TeamId::Campos21 => 114,
            TeamId::BWT21 => 115,
            TeamId::Trident21 => 116,
            TeamId::MercedesAMGGTBlackSeries => 117,
            TeamId::Prema22 => 118,
            TeamId::Virtuosi22 => 119,
            TeamId::Carlin22 => 120,
            TeamId::Hitech22 => 121,
            TeamId::ArtGP22 => 122,
            TeamId::MPMotorsport22 => 123,
            TeamId::Charouz22 => 124,
            TeamId::Dams22 => 125,
            TeamId::Campos22 => 126,
            TeamId::VanAmersfoortRacing22 => 127,
            TeamId::Trident22 => 128,
            TeamId::NoTeam => 255,
            TeamId::Other(code) => code,
        }
    }

    /// The number that stands for the value in a datagram.
    pub fn as_u8(&self) -> (code: u8)
        ensures
            code == self.code(),
    {
        match self {
            TeamId::Mercedes => 0,
            TeamId::Ferrari => 1,
            TeamId::RedBullRacing => 2,
            TeamId::Williams => 3,
            TeamId::AstonMartin => 4,
            TeamId::Alpine => 5,
            TeamId::AlphaTauri => 6,
            TeamId::Haas => 7,
            TeamId::McLaren => 8,
            TeamId::AlfaRomeo => 9,
            TeamId::Mercedes2020 => 85,
            TeamId::Ferrari2020 => 86,
            TeamId::RedBull2020 => 87,
            TeamId::Williams2020 => 88,
            TeamId::RacingPoint2020 => 89,
            TeamId::Renault2020 => 90,
            TeamId::AlphaTauri2020 => 91,
            TeamId::Haas2020 => 92,
            TeamId::McLaren2020 => 93,
            TeamId::AlfaRomeo2020 => 94,
            TeamId::AstonMartinDB11V12 => 95,
            TeamId::AstonMartinVantageF1Edition => 96,
            TeamId::AstonMartinVantageSafetyCar => 97,
            TeamId::FerrariF8Tributo => 98,
            TeamId::FerrariRoma => 99,
            TeamId::McLaren720S => 100,
            TeamId::McLarenArtura => 101,
            TeamId::MercedesAMGGTBlackSeriesSafetyCar => 102,
            TeamId::MercedesAMGGTRPro => 103,
            TeamId::F1CustomTeam => 104,
            TeamId::Prema21 => 106,
            TeamId::UniVirtuosi21 => 107,
            TeamId::Carlin21 => 108,
            TeamId::Hitech21 => 109,
            TeamId::ArtGP21 => 110,
            TeamId::MPMotorsport21 => 111,
            TeamId::Charouz21 => 112,
            TeamId::Dams21 => 113,
            TeamId::Campos21 => 114,
            TeamId::BWT21 => 115,
            TeamId::Trident21 => 116,
            TeamId::MercedesAMGGTBlackSeries => 117,
            TeamId::Prema22 => 118,
            TeamId::Virtuosi22 => 119,
            TeamId::Carlin22 => 120,
            TeamId::Hitech22 => 121,
            TeamId::ArtGP22 => 122,
            TeamId::MPMotorsport22 => 123,
            TeamId::Charouz22 => 124,
            TeamId::Dams22 => 125,
            TeamId::Campos22 => 126,
            TeamId::VanAmersfoortRacing22 => 127,
            TeamId::Trident22 => 128,
            TeamId::NoTeam => 255,
            TeamId::Other(code) => *code,
        }
    }

    /// The value that `code` stands for: the listed one where there is one,
    /// `Other` with the number kept where there is none.
    pub fn from_u8(code: u8) -> (value: Self)
        ensures
            value.code() == code,
            value.canonical(),
    {
        match code {
            0 => TeamId::Mercedes,
            1 => TeamId::Ferrari,
            2 => TeamId::RedBullRacing,
            3 => TeamId::Williams,
            4 => TeamId::AstonMartin,
            5 => TeamId::Alpine,
            6 => TeamId::AlphaTauri,
            7 => TeamId::Haas,
            8 => TeamId::McLaren,
            9 => TeamId::AlfaRomeo,
            85 => TeamId::Mercedes2020,
            86 => TeamId::Ferrari2020,
            87 => TeamId::RedBull2020,
            88 => TeamId::Williams2020,
            89 => TeamId::RacingPoint2020,
            90 => TeamId::Renault2020,
            91 => TeamId::AlphaTauri2020,
            92 => TeamId::Haas2020,
            93 => TeamId::McLaren2020,
            94 => TeamId::AlfaRomeo2020,
            95 => TeamId::AstonMartinDB11V12,
            96 => TeamId::AstonMartinVantageF1Edition,
            97 => TeamId::AstonMartinVantageSafetyCar,
            98 => TeamId::FerrariF8Tributo,
            99 => TeamId::FerrariRoma,
            100 => TeamId::McLaren720S,
            101 => TeamId::McLarenArtura,
            102 => TeamId::MercedesAMGGTBlackSeriesSafetyCar,
            103 => TeamId::MercedesAMGGTRPro,
            104 => TeamId::F1CustomTeam,
            106 => TeamId::Prema21,
            107 => TeamId::UniVirtuosi21,
            108 => TeamId::Carlin21,
            109 => TeamId::Hitech21,
            110 => TeamId::ArtGP21,
            111 => TeamId::MPMotorsport21,
            112 => TeamId::Charouz21,
            113 => TeamId::Dams21,
            114 => TeamId::Campos21,
            115 => TeamId::BWT21,
            116 => TeamId::Trident21,
            117 => TeamId::MercedesAMGGTBlackSeries,
            118 => TeamId::Prema22,
            119 => TeamId::Virtuosi22,
            120 => TeamId::Carlin22,
            121 => TeamId::Hitech22,
            122 => TeamId::ArtGP22,
            123 => TeamId::MPMotorsport22,
            124 => TeamId::Charouz22,
            125 => TeamId::Dams22,
            126 => TeamId::Campos22,
            127 => TeamId::VanAmersfoortRacing22,
            128 => TeamId::Trident22,
            255 => TeamId::NoTeam,
            _ => TeamId::Other(code),
        }
    }
}

impl Default for TeamId {
    fn default() -> (value: Self)
        ensures
            value == TeamId::NoTeam,
    {
        TeamId::NoTeam
    }
}

impl Wire for TeamId {
    open spec fn wire(&self) -> Seq<u8> {
        self.code().wire()
    }

    open spec fn width() -> nat {
        1
    }

    open spec fn canonical(&self) -> bool {
        match self {
            TeamId::Other(code) => !Self::is_listed(*code),
            _ => true,
        }
    }

    proof fn lemma_wire_len(&self) {
    }

    proof fn lemma_wire_injective(&self, other: &Self) {
        self.code().lemma_wire_injective(&other.code());
    }

    fn size() -> (n: usize) {
        1
    }

    fn decode(bytes: &[u8], at: usize) -> (value: Self) {
        Self::from_u8(u8::decode(bytes, at))
    }

    fn encode(&self, out: &mut Vec<u8>) {
        self.as_u8().encode(out);
    }
}

} // verus!
