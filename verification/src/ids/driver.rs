//! Drivers.
use crate::wire::Wire;
use vstd::prelude::*;

verus! {

/// The driver in a car; `NetworkHuman` for a player in a network game.
#[derive(Clone, Copy, Debug, PartialEq, Eq, Structural)]
pub enum DriverId {
    CarlosSainz,
    DaniilKvyat,
    DanielRicciardo,
    FernandoAlonso,
    FelipeMassa,
    KimiRaikkonen,
    LewisHamilton,
    MaxVerstappen,
    NicoHulkenburg,
    KevinMagnussen,
    RomainGrosjean,
    SebastianVettel,
    SergioPerez,
    ValtteriBottas,
    EstebanOcon,
    LanceStroll,
    ArronBarnes,
    MartinGiles,
    AlexMurray,
    LucasRoth,
    IgorCorreia,
    SophieLevasseur,
    JonasSchiffer,
    AlainForest,
    JayLetourneau,
    EstoSaari,
    YasarAtiyeh,
    CallistoCalabresi,
    NaotaIzum,
    HowardClarke,
    WilheimKaufmann,
    MarieLaursen,
    FlavioNieves,
    PeterBelousov,
    KlimekMichalski,
    SantiagoMoreno,
    BenjaminCoppens,
    NoahVisser,
    GertWaldmuller,
    JulianQuesada,
    DanielJones,
    ArtemMarkelov,
    TadasukeMakino,
    SeanGelael,
    NyckDeVries,
    JackAitken,
    GeorgeRussell,
    MaximilianGunther,
    NireiFukuzumi,
    LucaGhiotto,
    LandoNorris,
    SergioSetteCamara,
    LouisDeletraz,
    AntonioFuoco,
    CharlesLeclerc,
    PierreGasly,
    AlexanderAlbon,
    NicholasLatifi,
    DorianBoccolacci,
    NikoKari,
    RobertoMerhi,
    ArjunMaini,
    AlessioLorandi,
    RubenMeijer,
    RashidNair,
    JackTremblay,
    DevonButler,
    LukasWeber,
    AntonioGiovinazzi,
    RobertKubica,
    AlainProst,
    AyrtonSenna,
    NobuharuMatsushita,
    NikitaMazepin,
    GuanyaZhou,
    MickSchumacher,
    CallumIlott,
    JuanManuelCorrea,
    JordanKing,
    MahaveerRaghunathan,
    TatianaCalderon,
    AnthoineHubert,
    GuilianoAlesi,
    RalphBoschung,
    MichaelSchumacher,
    DanTicktum,
    MarcusArmstrong,
    ChristianLundgaard,
    YukiTsunoda,
    JehanDaruvala,
    GulhermeSamaia,
    PedroPiquet,
    FelipeDrugovich,
    RobertSchwartzman,
    RoyNissany,
    MarinoSato,
    AidanJackson,
    CasperAkkerman,
    JensonButton,
    DavidCoulthard,
    NicoRosberg,
    OscarPiastri,
    LiamLawson,
    JuriVips,
    TheoPourchaire,
    RichardVerschoor,
    LirimZendeli,
    DavidBeckmann,
    AlessioDeledda,
    BentViscaal,
    EnzoFittipaldi,
    MarkWebber,
    JacquesVilleneuve,
    JakeHughes,
    FrederikVesti,
    OlliCaldwell,
    LoganSargeant,
    CemBolukbasi,
    AyumaIwasa,
    ClementNovolak,
    DennisHauger,
    CalanWilliams,
    JackDoohan,
    AmauryCordeel,
    MikaHakkinen,
    NetworkHuman,
    /// A number the protocol does not list for a driver.
    Other(u8),
}

impl DriverId {
    /// Whether the protocol lists `code` for a driver.
    pub open spec fn is_listed(code: u8) -> bool {
        ||| code <= 4
        ||| 6 <= code <= 7
        ||| 9 <= code <= 15
        ||| code == 17
        ||| 19 <= code <= 59
        ||| 62 <= code <= 103
        ||| 109 <= code <= 118
        ||| 121 <= code <= 123
        ||| 125 <= code <= 138
        ||| code == 255
    }

    /// The number that stands for the value in a datagram.
    pub open spec fn code(self) -> u8 {
        match self {
            DriverId::CarlosSainz => 0,
            DriverId::DaniilKvyat => 1,
            DriverId::DanielRicciardo => 2,
            DriverId::FernandoAlonso => 3,
            DriverId::FelipeMassa => 4,
            DriverId::KimiRaikkonen => 6,
            DriverId::LewisHamilton => 7,
            DriverId::MaxVerstappen => 9,
            DriverId::NicoHulkenburg => 10,
            DriverId::KevinMagnussen => 11,
            DriverId::RomainGrosjean => 12,
            DriverId::SebastianVettel => 13,
            DriverId::SergioPerez => 14,
            DriverId::ValtteriBottas => 15,
            DriverId::EstebanOcon => 17,
            DriverId::LanceStroll => 19,
            DriverId::ArronBarnes => 20,
            DriverId::MartinGiles => 21,
            DriverId::AlexMurray => 22,
            DriverId::LucasRoth => 23,
            DriverId::IgorCorreia => 24,
            DriverId::SophieLevasseur => 25,
            DriverId::JonasSchiffer => 26,
            DriverId::AlainForest => 27,
            DriverId::JayLetourneau => 28,
            DriverId::EstoSaari => 29,
            DriverId::YasarAtiyeh => 30,
            DriverId::CallistoCalabresi => 31,
            DriverId::NaotaIzum => 32,
            DriverId::HowardClarke => 33,
            DriverId::WilheimKaufmann => 34,
            DriverId::MarieLaursen => 35,
            DriverId::FlavioNieves => 36,
            DriverId::PeterBelousov => 37,
            DriverId::KlimekMichalski => 38,
            DriverId::SantiagoMoreno => 39,
            DriverId::BenjaminCoppens => 40,
            DriverId::NoahVisser => 41,
            DriverId::GertWaldmuller => 42,
            DriverId::JulianQuesada => 43,
            DriverId::DanielJones => 44,
            DriverId::ArtemMarkelov => 45,
            DriverId::TadasukeMakino => 46,
            DriverId::SeanGelael => 47,
            DriverId::NyckDeVries => 48,
            DriverId::JackAitken => 49,
            DriverId::GeorgeRussell => 50,
            DriverId::MaximilianGunther => 51,
            DriverId::NireiFukuzumi => 52,
            DriverId::LucaGhiotto => 53,
            DriverId::LandoNorris => 54,
            DriverId::SergioSetteCamara => 55,
            DriverId::LouisDeletraz => 56,
            DriverId::AntonioFuoco => 57,
            DriverId::CharlesLeclerc => 58,
            DriverId::PierreGasly => 59,
            DriverId::AlexanderAlbon => 62,
            DriverId::NicholasLatifi => 63,
            DriverId::DorianBoccolacci => 64,
            DriverId::NikoKari => 65,
            DriverId::RobertoMerhi => 66,
            DriverId::ArjunMaini => 67,
            DriverId::AlessioLorandi => 68,
            DriverId::RubenMeijer => 69,
            DriverId::RashidNair => 70,
            DriverId::JackTremblay => 71,
            DriverId::DevonButler => 72,
            DriverId::LukasWeber => 73,
            DriverId::AntonioGiovinazzi => 74,
            DriverId::RobertKubica => 75,
            DriverId::AlainProst => 76,
            DriverId::AyrtonSenna => 77,
            DriverId::NobuharuMatsushita => 78,
            DriverId::NikitaMazepin => 79,
            DriverId::GuanyaZhou => 80,
            DriverId::MickSchumacher => 81,
            DriverId::CallumIlott => 82,
            DriverId::JuanManuelCorrea => 83,
            DriverId::JordanKing => 84,
            DriverId::MahaveerRaghunathan => 85,
            DriverId::TatianaCalderon => 86,
            DriverId::AnthoineHubert => 87,
            DriverId::GuilianoAlesi => 88,
            DriverId::RalphBoschung => 89,
            DriverId::MichaelSchumacher => 90,
            DriverId::DanTicktum => 91,
            DriverId::MarcusArmstrong => 92,
            DriverId::ChristianLundgaard => 93,
            DriverId::YukiTsunoda => 94,
            DriverId::JehanDaruvala => 95,
            DriverId::GulhermeSamaia => 96,
            DriverId::PedroPiquet => 97,
            DriverId::FelipeDrugovich => 98,
            DriverId::RobertSchwartzman => 99,
            DriverId::RoyNissany => 100,
            DriverId::MarinoSato => 101,
            DriverId::AidanJackson => 102,
            DriverId::CasperAkkerman => 103,
            DriverId::JensonButton => 109,
            DriverId::DavidCoulthard => 110,
            DriverId::NicoRosberg => 111,
            DriverId::OscarPiastri => 112,
            DriverId::LiamLawson => 113,
            DriverId::JuriVips => 114,
            DriverId::TheoPourchaire => 115,
            DriverId::RichardVerschoor => 116,
            DriverId::LirimZendeli => 117,
            DriverId::DavidBeckmann => 118,
            DriverId::AlessioDeledda => 121,
            DriverId::BentViscaal => 122,
            DriverId::EnzoFittipaldi => 123,
            DriverId::MarkWebber => 125,
            DriverId::JacquesVilleneuve => 126,
            DriverId::JakeHughes => 127,
            DriverId::FrederikVesti => 128,
            DriverId::OlliCaldwell => 129,
            DriverId::LoganSargeant => 130,
            DriverId::CemBolukbasi => 131,
            DriverId::AyumaIwasa => 132,
            DriverId::ClementNovolak => 133,
            DriverId::DennisHauger => 134,
            DriverId::CalanWilliams => 135,
            DriverId::JackDoohan => 136,
            DriverId::AmauryCordeel => 137,
            DriverId::MikaHakkinen => 138,
            DriverId::NetworkHuman => 255,
            DriverId::Other(code) => code,
        }
    }

    /// The number that stands for the value in a datagram.
    pub fn as_u8(&self) -> (code: u8)
        ensures
            code == self.code(),
    {
        match self {
            DriverId::CarlosSainz => 0,
            DriverId::DaniilKvyat => 1,
            DriverId::DanielRicciardo => 2,
            DriverId::FernandoAlonso => 3,
            DriverId::FelipeMassa => 4,
            DriverId::KimiRaikkonen => 6,
            DriverId::LewisHamilton => 7,
            DriverId::MaxVerstappen => 9,
            DriverId::NicoHulkenburg => 10,
            DriverId::KevinMagnussen => 11,
            DriverId::RomainGrosjean => 12,
            DriverId::SebastianVettel => 13,
            DriverId::SergioPerez => 14,
            DriverId::ValtteriBottas => 15,
            DriverId::EstebanOcon => 17,
            DriverId::LanceStroll => 19,
            DriverId::ArronBarnes => 20,
            DriverId::MartinGiles => 21,
            DriverId::AlexMurray => 22,
            DriverId::LucasRoth => 23,
            DriverId::IgorCorreia => 24,
            DriverId::SophieLevasseur => 25,
            DriverId::JonasSchiffer => 26,
            DriverId::AlainForest => 27,
            DriverId::JayLetourneau => 28,
            DriverId::EstoSaari => 29,
            DriverId::YasarAtiyeh => 30,
            DriverId::CallistoCalabresi => 31,
            DriverId::NaotaIzum => 32,
            DriverId::HowardClarke => 33,
            DriverId::WilheimKaufmann => 34,
            DriverId::MarieLaursen => 35,
            DriverId::FlavioNieves => 36,
            DriverId::PeterBelousov => 37,
            DriverId::KlimekMichalski => 38,
            DriverId::SantiagoMoreno => 39,
            DriverId::BenjaminCoppens => 40,
            DriverId::NoahVisser => 41,
            DriverId::GertWaldmuller => 42,
            DriverId::JulianQuesada => 43,
            DriverId::DanielJones => 44,
            DriverId::ArtemMarkelov => 45,
            DriverId::TadasukeMakino => 46,
            DriverId::SeanGelael => 47,
            DriverId::NyckDeVries => 48,
            DriverId::JackAitken => 49,
            DriverId::GeorgeRussell => 50,
            DriverId::MaximilianGunther => 51,
            DriverId::NireiFukuzumi => 52,
            DriverId::LucaGhiotto => 53,
            DriverId::LandoNorris => 54,
            DriverId::SergioSetteCamara => 55,
            DriverId::LouisDeletraz => 56,
            DriverId::AntonioFuoco => 57,
            DriverId::CharlesLeclerc => 58,
            DriverId::PierreGasly => 59,
            DriverId::AlexanderAlbon => 62,
            DriverId::NicholasLatifi => 63,
            DriverId::DorianBoccolacci => 64,
            DriverId::NikoKari => 65,
            DriverId::RobertoMerhi => 66,
            DriverId::ArjunMaini => 67,
            DriverId::AlessioLorandi => 68,
            DriverId::RubenMeijer => 69,
            DriverId::RashidNair => 70,
            DriverId::JackTremblay => 71,
            DriverId::DevonButler => 72,
            DriverId::LukasWeber => 73,
            DriverId::AntonioGiovinazzi => 74,
            DriverId::RobertKubica => 75,
            DriverId::AlainProst => 76,
            DriverId::AyrtonSenna => 77,
            DriverId::NobuharuMatsushita => 78,
            DriverId::NikitaMazepin => 79,
            DriverId::GuanyaZhou => 80,
            DriverId::MickSchumacher => 81,
            DriverId::CallumIlott => 82,
            DriverId::JuanManuelCorrea => 83,
            DriverId::JordanKing => 84,
            DriverId::MahaveerRaghunathan => 85,
            DriverId::TatianaCalderon => 86,
            DriverId::AnthoineHubert => 87,
            DriverId::GuilianoAlesi => 88,
            DriverId::RalphBoschung => 89,
            DriverId::MichaelSchumacher => 90,
            DriverId::DanTicktum => 91,
            DriverId::MarcusArmstrong => 92,
            DriverId::ChristianLundgaard => 93,
            DriverId::YukiTsunoda => 94,
            DriverId::JehanDaruvala => 95,
            DriverId::GulhermeSamaia => 96,
            DriverId::PedroPiquet => 97,
            DriverId::FelipeDrugovich => 98,
            DriverId::RobertSchwartzman => 99,
            DriverId::RoyNissany => 100,
            DriverId::MarinoSato => 101,
            DriverId::AidanJackson => 102,
            DriverId::CasperAkkerman => 103,
            DriverId::JensonButton => 109,
            DriverId::DavidCoulthard => 110,
            DriverId::NicoRosberg => 111,
            DriverId::OscarPiastri => 112,
            DriverId::LiamLawson => 113,
            DriverId::JuriVips => 114,
            DriverId::TheoPourchaire => 115,
            DriverId::RichardVerschoor => 116,
            DriverId::LirimZendeli => 117,
            DriverId::DavidBeckmann => 118,
            DriverId::AlessioDeledda => 121,
            DriverId::BentViscaal => 122,
            DriverId::EnzoFittipaldi => 123,
            DriverId::MarkWebber => 125,
            DriverId::JacquesVilleneuve => 126,
            DriverId::JakeHughes => 127,
            DriverId::FrederikVesti => 128,
            DriverId::OlliCaldwell => 129,
            DriverId::LoganSargeant => 130,
            DriverId::CemBolukbasi => 131,
            DriverId::AyumaIwasa => 132,
            DriverId::ClementNovolak => 133,
            DriverId::DennisHauger => 134,
            DriverId::CalanWilliams => 135,
            DriverId::JackDoohan => 136,
            DriverId::AmauryCordeel => 137,
            DriverId::MikaHakkinen => 138,
            DriverId::NetworkHuman => 255,
            DriverId::Other(code) => *code,
        }
    }

    /// The value that `code` stands for: the listed one where there is one,
    /// `Other` with the number kept where there is none.
    pub fn from_u8(code: u8) -> (value: Self)
        ensures
            value.code() == code,
            value.canonical(),
    {
        match code {
            0 => DriverId::CarlosSainz,
            1 => DriverId::DaniilKvyat,
            2 => DriverId::DanielRicciardo,
            3 => DriverId::FernandoAlonso,
            4 => DriverId::FelipeMassa,
            6 => DriverId::KimiRaikkonen,
            7 => DriverId::LewisHamilton,
            9 => DriverId::MaxVerstappen,
            10 => DriverId::NicoHulkenburg,
            11 => DriverId::KevinMagnussen,
            12 => DriverId::RomainGrosjean,
            13 => DriverId::SebastianVettel,
            14 => DriverId::SergioPerez,
            15 => DriverId::ValtteriBottas,
            17 => DriverId::EstebanOcon,
            19 => DriverId::LanceStroll,
            20 => DriverId::ArronBarnes,
            21 => DriverId::MartinGiles,
            22 => DriverId::AlexMurray,
            23 => DriverId::LucasRoth,
            24 => DriverId::IgorCorreia,
            25 => DriverId::SophieLevasseur,
            26 => DriverId::JonasSchiffer,
            27 => DriverId::AlainForest,
            28 => DriverId::JayLetourneau,
            29 => DriverId::EstoSaari,
            30 => DriverId::YasarAtiyeh,
            31 => DriverId::CallistoCalabresi,
            32 => DriverId::NaotaIzum,
            33 => DriverId::HowardClarke,
            34 => DriverId::WilheimKaufmann,
            35 => DriverId::MarieLaursen,
            36 => DriverId::FlavioNieves,
            37 => DriverId::PeterBelousov,
            38 => DriverId::KlimekMichalski,
            39 => DriverId::SantiagoMoreno,
            40 => DriverId::BenjaminCoppens,
            41 => DriverId::NoahVisser,
            42 => DriverId::GertWaldmuller,
            43 => DriverId::JulianQuesada,
            44 => DriverId::DanielJones,
            45 => DriverId::ArtemMarkelov,
            46 => DriverId::TadasukeMakino,
            47 => DriverId::SeanGelael,
            48 => DriverId::NyckDeVries,
            49 => DriverId::JackAitken,
            50 => DriverId::GeorgeRussell,
            51 => DriverId::MaximilianGunther,
            52 => DriverId::NireiFukuzumi,
            53 => DriverId::LucaGhiotto,
            54 => DriverId::LandoNorris,
            55 => DriverId::SergioSetteCamara,
            56 => DriverId::LouisDeletraz,
            57 => DriverId::AntonioFuoco,
            58 => DriverId::CharlesLeclerc,
            59 => DriverId::PierreGasly,
            62 => DriverId::AlexanderAlbon,
            63 => DriverId::NicholasLatifi,
            64 => DriverId::DorianBoccolacci,
            65 => DriverId::NikoKari,
            66 => DriverId::RobertoMerhi,
            67 => DriverId::ArjunMaini,
            68 => DriverId::AlessioLorandi,
            69 => DriverId::RubenMeijer,
            70 => DriverId::RashidNair,
            71 => DriverId::JackTremblay,
            72 => DriverId::DevonButler,
            73 => DriverId::LukasWeber,
            74 => DriverId::AntonioGiovinazzi,
            75 => DriverId::RobertKubica,
            76 => DriverId::AlainProst,
            77 => DriverId::AyrtonSenna,
            78 => DriverId::NobuharuMatsushita,
            79 => DriverId::NikitaMazepin,
            80 => DriverId::GuanyaZhou,
            81 => DriverId::MickSchumacher,
            82 => DriverId::CallumIlott,
            83 => DriverId::JuanManuelCorrea,
            84 => DriverId::JordanKing,
            85 => DriverId::MahaveerRaghunathan,
            86 => DriverId::TatianaCalderon,
            87 => DriverId::AnthoineHubert,
            88 => DriverId::GuilianoAlesi,
            89 => DriverId::RalphBoschung,
            90 => DriverId::MichaelSchumacher,
            91 => DriverId::DanTicktum,
            92 => DriverId::MarcusArmstrong,
            93 => DriverId::ChristianLundgaard,
            94 => DriverId::YukiTsunoda,
            95 => DriverId::JehanDaruvala,
            96 => DriverId::GulhermeSamaia,
            97 => DriverId::PedroPiquet,
            98 => DriverId::FelipeDrugovich,
            99 => DriverId::RobertSchwartzman,
            100 => DriverId::RoyNissany,
            101 => DriverId::MarinoSato,
            102 => DriverId::AidanJackson,
            103 => DriverId::CasperAkkerman,
            109 => DriverId::JensonButton,
            110 => DriverId::DavidCoulthard,
            111 => DriverId::NicoRosberg,
            112 => DriverId::OscarPiastri,
            113 => DriverId::LiamLawson,
            114 => DriverId::JuriVips,
            115 => DriverId::TheoPourchaire,
            116 => DriverId::RichardVerschoor,
            117 => DriverId::LirimZendeli,
            118 => DriverId::DavidBeckmann,
            121 => DriverId::AlessioDeledda,
            122 => DriverId::BentViscaal,
            123 => DriverId::EnzoFittipaldi,
            125 => DriverId::MarkWebber,
            126 => DriverId::JacquesVilleneuve,
            127 => DriverId::JakeHughes,
            128 => DriverId::FrederikVesti,
            129 => DriverId::OlliCaldwell,
            130 => DriverId::LoganSargeant,
            131 => DriverId::CemBolukbasi,
            132 => DriverId::AyumaIwasa,
            133 => DriverId::ClementNovolak,
            134 => DriverId::DennisHauger,
            135 => DriverId::CalanWilliams,
            136 => DriverId::JackDoohan,
            137 => DriverId::AmauryCordeel,
            138 => DriverId::MikaHakkinen,
            255 => DriverId::NetworkHuman,
            _ => DriverId::Other(code),
        }
    }
}

impl Default for DriverId {
    fn default() -> (value: Self)
        ensures
            value == DriverId::NetworkHuman,
    {
        DriverId::NetworkHuman
    }
}

impl Wire for DriverId {
    open spec fn wire(&self) -> Seq<u8> {
        self.code().wire()
    }

    open spec fn width() -> nat {
        1
    }

    open spec fn canonical(&self) -> bool {
        match self {
            DriverId::Other(code) => !Self::is_listed(*code),
            _ => true,
        }
    }

    proof fn lemma_wire_len(&self) {
    }

    proof fn lemma_wire_injective(&self, other: &Self) {
        self.code().lemma_wire_injective(&other.code());
    }

    fn size() -> (n: usize) {
        1
    }

    fn decode(bytes: &[u8], at: usize) -> (value: Self) {
        Self::from_u8(u8::decode(bytes, at))
    }

    fn encode(&self, out: &mut Vec<u8>) {
        self.as_u8().encode(out);
    }
}

} // verus!
