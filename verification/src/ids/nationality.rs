//! Nationalities.
use crate::wire::Wire;
use vstd::prelude::*;

verus! {

/// The nationality of a driver.
#[derive(Clone, Copy, Debug, PartialEq, Eq, Structural)]
pub enum NationalityId {
    American,
    Argentinean,
    Australian,
    Austrian,
    Azerbaijani,
    Bahraini,
    Belgian,
    Bolivian,
    Brazilian,
    British,
    Bulgarian,
    Cameroonian,
    Canadian,
    Chilean,
    Chinese,
    Colombian,
    CostaRican,
    Croatian,
    Cypriot,
    Czech,
    Danish,
    Dutch,
    Ecuadorian,
    English,
    Emirian,
    Estonian,
    Finnish,
    French,
    German,
    Ghanaian,
    Greek,
    Guatemalan,
    Honduran,
    HongKonger,
    Hungarian,
    Icelander,
    Indian,
    Indonesian,
    Irish,
    Israeli,
    Italian,
    Jamaican,
    Japanese,
    Jordanian,
    Kuwaiti,
    Latvian,
    Lebanese,
    Lithuanian,
    Luxembourger,
    Malaysian,
    Maltese,
    Mexican,
    Monegasque,
    NewZealander,
    Nicaraguan,
    NorthernIrish,
    Norwegian,
    Omani,
    Pakistani,
    Panamanian,
    Paraguayan,
    Peruvian,
    Polish,
    Portuguese,
    Qatari,
    Romanian,
    Russian,
    Salvadoran,
    Saudi,
    Scottish,
    Serbian,
    Singaporean,
    Slovakian,
    Slovenian,
    SouthKorean,
    SouthAfrican,
    Spanish,
    Swedish,
    Swiss,
    Thai,
    Turkish,
    Uruguayan,
    Ukrainian,
    Venezuelan,
    Barbadian,
    Welsh,
    Vietnamese,
    Unstated,
    /// A number the protocol does not list for a nationality.
    Other(u8),
}

impl NationalityId {
    /// Whether the protocol lists `code` for a nationality.
    pub open spec fn is_listed(code: u8) -> bool {
        ||| 1 <= code <= 87
        ||| code == 255
    }

    /// The number that stands for the value in a datagram.
    pub open spec fn code(self) -> u8 {
        match self {
            NationalityId::American => 1,
            NationalityId::Argentinean => 2,
            NationalityId::Australian => 3,
            NationalityId::Austrian => 4,
            NationalityId::Azerbaijani => 5,
            NationalityId::Bahraini => 6,
            NationalityId::Belgian => 7,
            NationalityId::Bolivian => 8,
            NationalityId::Brazilian => 9,
            NationalityId::British => 10,
            NationalityId::Bulgarian => 11,
            NationalityId::Cameroonian => 12,
            NationalityId::Canadian => 13,
            NationalityId::Chilean => 14,
            NationalityId::Chinese => 15,
            NationalityId::Colombian => 16,
            NationalityId::CostaRican => 17,
            NationalityId::Croatian => 18,
            NationalityId::Cypriot => 19,
            NationalityId::Czech => 20,
            NationalityId::Danish => 21,
            NationalityId::Dutch => 22,
            NationalityId::Ecuadorian => 23,
            NationalityId::English => 24,
            NationalityId::Emirian => 25,
            NationalityId::Estonian => 26,
            NationalityId::Finnish => 27,
            NationalityId::French => 28,
            NationalityId::German => 29,
            NationalityId::Ghanaian => 30,
            NationalityId::Greek => 31,
            NationalityId::Guatemalan => 32,
            NationalityId::Honduran => 33,
            NationalityId::HongKonger => 34,
            NationalityId::Hungarian => 35,
            NationalityId::Icelander => 36,
            NationalityId::Indian => 37,
            NationalityId::Indonesian => 38,
            NationalityId::Irish => 39,
            NationalityId::Israeli => 40,
            NationalityId::Italian => 41,
            NationalityId::Jamaican => 42,
            NationalityId::Japanese => 43,
            NationalityId::Jordanian => 44,
            NationalityId::Kuwaiti => 45,
            NationalityId::Latvian => 46,
            NationalityId::Lebanese => 47,
            NationalityId::Lithuanian => 48,
            NationalityId::Luxembourger => 49,
            NationalityId::Malaysian => 50,
            NationalityId::Maltese => 51,
            NationalityId::Mexican => 52,
            NationalityId::Monegasque => 53,
            NationalityId::NewZealander => 54,
            NationalityId::Nicaraguan => 55,
            NationalityId::NorthernIrish => 56,
            NationalityId::Norwegian => 57,
            NationalityId::Omani => 58,
            NationalityId::Pakistani => 59,
            NationalityId::Panamanian => 60,
            NationalityId::Paraguayan => 61,
            NationalityId::Peruvian => 62,
            NationalityId::Polish => 63,
            NationalityId::Portuguese => 64,
            NationalityId::Qatari => 65,
            NationalityId::Romanian => 66,
            NationalityId::Russian => 67,
            NationalityId::Salvadoran => 68,
            NationalityId::Saudi => 69,
            NationalityId::Scottish => 70,
            NationalityId::Serbian => 71,
            NationalityId::Singaporean => 72,
            NationalityId::Slovakian => 73,
            NationalityId::Slovenian => 74,
            NationalityId::SouthKorean => 75,
            NationalityId::SouthAfrican => 76,
            NationalityId::Spanish => 77,
            NationalityId::Swedish => 78,
            NationalityId::Swiss => 79,
            NationalityId::Thai => 80,
            NationalityId::Turkish => 81,
            NationalityId::Uruguayan => 82,
            NationalityId::Ukrainian => 83,
            NationalityId::Venezuelan => 84,
            NationalityId::Barbadian => 85,
            NationalityId::Welsh => 86,
            NationalityId::Vietnamese => 87,
            NationalityId::Unstated => 255,
            NationalityId::Other(code) => code,
        }
    }

    /// The number that stands for the value in a datagram.
    pub fn as_u8(&self) -> (code: u8)
        ensures
            code == self.code(),
    {
        match self {
            NationalityId::American => 1,
            NationalityId::Argentinean => 2,
            NationalityId::Australian => 3,
            NationalityId::Austrian => 4,
            NationalityId::Azerbaijani => 5,
            NationalityId::Bahraini => 6,
            NationalityId::Belgian => 7,
            NationalityId::Bolivian => 8,
            NationalityId::Brazilian => 9,
            NationalityId::British => 10,
            NationalityId::Bulgarian => 11,
            NationalityId::Cameroonian => 12,
            NationalityId::Canadian => 13,
            NationalityId::Chilean => 14,
            NationalityId::Chinese => 15,
            NationalityId::Colombian => 16,
            NationalityId::CostaRican => 17,
            NationalityId::Croatian => 18,
            NationalityId::Cypriot => 19,
            NationalityId::Czech => 20,
            NationalityId::Danish => 21,
            NationalityId::Dutch => 22,
            NationalityId::Ecuadorian => 23,
            NationalityId::English => 24,
            NationalityId::Emirian => 25,
            NationalityId::Estonian => 26,
            NationalityId::Finnish => 27,
            NationalityId::French => 28,
            NationalityId::German => 29,
            NationalityId::Ghanaian => 30,
            NationalityId::Greek => 31,
            NationalityId::Guatemalan => 32,
            NationalityId::Honduran => 33,
            NationalityId::HongKonger => 34,
            NationalityId::Hungarian => 35,
            NationalityId::Icelander => 36,
            NationalityId::Indian => 37,
            NationalityId::Indonesian => 38,
            NationalityId::Irish => 39,
            NationalityId::Israeli => 40,
            NationalityId::Italian => 41,
            NationalityId::Jamaican => 42,
            NationalityId::Japanese => 43,
            NationalityId::Jordanian => 44,
            NationalityId::Kuwaiti => 45,
            NationalityId::Latvian => 46,
            NationalityId::Lebanese => 47,
            NationalityId::Lithuanian => 48,
            NationalityId::Luxembourger => 49,
            NationalityId::Malaysian => 50,
            NationalityId::Maltese => 51,
            NationalityId::Mexican => 52,
            NationalityId::Monegasque => 53,
            NationalityId::NewZealander => 54,
            NationalityId::Nicaraguan => 55,
            NationalityId::NorthernIrish => 56,
            NationalityId::Norwegian => 57,
            NationalityId::Omani => 58,
            NationalityId::Pakistani => 59,
            NationalityId::Panamanian => 60,
            NationalityId::Paraguayan => 61,
            NationalityId::Peruvian => 62,
            NationalityId::Polish => 63,
            NationalityId::Portuguese => 64,
            NationalityId::Qatari => 65,
            NationalityId::Romanian => 66,
            NationalityId::Russian => 67,
            NationalityId::Salvadoran => 68,
            NationalityId::Saudi => 69,
            NationalityId::Scottish => 70,
            NationalityId::Serbian => 71,
            NationalityId::Singaporean => 72,
            NationalityId::Slovakian => 73,
            NationalityId::Slovenian => 74,
            NationalityId::SouthKorean => 75,
            NationalityId::SouthAfrican => 76,
            NationalityId::Spanish => 77,
            NationalityId::Swedish => 78,
            NationalityId::Swiss => 79,
            NationalityId::Thai => 80,
            NationalityId::Turkish => 81,
            NationalityId::Uruguayan => 82,
            NationalityId::Ukrainian => 83,
            NationalityId::Venezuelan => 84,
            NationalityId::Barbadian => 85,
            NationalityId::Welsh => 86,
            NationalityId::Vietnamese => 87,
            NationalityId::Unstated => 255,
            NationalityId::Other(code) => *code,
        }
    }

    /// The value that `code` stands for: the listed one where there is one,
    /// `Other` with the number kept where there is none.
    pub fn from_u8(code: u8) -> (value: Self)
        ensures
            value.code() == code,
            value.canonical(),
    {
        match code {
            1 => NationalityId::American,
            2 => NationalityId::Argentinean,
            3 => NationalityId::Australian,
            4 => NationalityId::Austrian,
            5 => NationalityId::Azerbaijani,
            6 => NationalityId::Bahraini,
            7 => NationalityId::Belgian,
            8 => NationalityId::Bolivian,
            9 => NationalityId::Brazilian,
            10 => NationalityId::British,
            11 => NationalityId::Bulgarian,
            12 => NationalityId::Cameroonian,
            13 => NationalityId::Canadian,
            14 => NationalityId::Chilean,
            15 => NationalityId::Chinese,
            16 => NationalityId::Colombian,
            17 => NationalityId::CostaRican,
            18 => NationalityId::Croatian,
            19 => NationalityId::Cypriot,
            20 => NationalityId::Czech,
            21 => NationalityId::Danish,
            22 => NationalityId::Dutch,
            23 => NationalityId::Ecuadorian,
            24 => NationalityId::English,
            25 => NationalityId::Emirian,
            26 => NationalityId::Estonian,
            27 => NationalityId::Finnish,
            28 => NationalityId::French,
            29 => NationalityId::German,
            30 => NationalityId::Ghanaian,
            31 => NationalityId::Greek,
            32 => NationalityId::Guatemalan,
            33 => NationalityId::Honduran,
            34 => NationalityId::HongKonger,
            35 => NationalityId::Hungarian,
            36 => NationalityId::Icelander,
            37 => NationalityId::Indian,
            38 => NationalityId::Indonesian,
            39 => NationalityId::Irish,
            40 => NationalityId::Israeli,
            41 => NationalityId::Italian,
            42 => NationalityId::Jamaican,
            43 => NationalityId::Japanese,
            44 => NationalityId::Jordanian,
            45 => NationalityId::Kuwaiti,
            46 => NationalityId::Latvian,
            47 => NationalityId::Lebanese,
            48 => NationalityId::Lithuanian,
            49 => NationalityId::Luxembourger,
            50 => NationalityId::Malaysian,
            51 => NationalityId::Maltese,
            52 => NationalityId::Mexican,
            53 => NationalityId::Monegasque,
            54 => NationalityId::NewZealander,
            55 => NationalityId::Nicaraguan,
            56 => NationalityId::NorthernIrish,
            57 => NationalityId::Norwegian,
            58 => NationalityId::Omani,
            59 => NationalityId::Pakistani,
            60 => NationalityId::Panamanian,
            61 => NationalityId::Paraguayan,
            62 => NationalityId::Peruvian,
            63 => NationalityId::Polish,
            64 => NationalityId::Portuguese,
            65 => NationalityId::Qatari,
            66 => NationalityId::Romanian,
            67 => NationalityId::Russian,
            68 => NationalityId::Salvadoran,
            69 => NationalityId::Saudi,
            70 => NationalityId::Scottish,
            71 => NationalityId::Serbian,
            72 => NationalityId::Singaporean,
            73 => NationalityId::Slovakian,
            74 => NationalityId::Slovenian,
            75 => NationalityId::SouthKorean,
            76 => NationalityId::SouthAfrican,
            77 => NationalityId::Spanish,
            78 => NationalityId::Swedish,
            79 => NationalityId::Swiss,
            80 => NationalityId::Thai,
            81 => NationalityId::Turkish,
            82 => NationalityId::Uruguayan,
            83 => NationalityId::Ukrainian,
            84 => NationalityId::Venezuelan,
            85 => NationalityId::Barbadian,
            86 => NationalityId::Welsh,
            87 => NationalityId::Vietnamese,
            255 => NationalityId::Unstated,
            _ => NationalityId::Other(code),
        }
    }
}

impl Default for NationalityId {
    fn default() -> (value: Self)
        ensures
            value == NationalityId::Unstated,
    {
        NationalityId::Unstated
    }
}

impl Wire for NationalityId {
    open spec fn wire(&self) -> Seq<u8> {
        self.code().wire()
    }

    open spec fn width() -> nat {
        1
    }

    open spec fn canonical(&self) -> bool {
        match self {
            NationalityId::Other(code) => !Self::is_listed(*code),
            _ => true,
        }
    }

    proof fn lemma_wire_len(&self) {
    }

    proof fn lemma_wire_injective(&self, other: &Self) {
        self.code().lemma_wire_injective(&other.code());
    }

    fn size() -> (n: usize) {
        1
    }

    fn decode(bytes: &[u8], at: usize) -> (value: Self) {
        Self::from_u8(u8::decode(bytes, at))
    }

    fn encode(&self, out: &mut Vec<u8>) {
        self.as_u8().encode(out);
    }
}

} // verus!
