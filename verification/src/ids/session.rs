//! What describes a session: its phase, mode, rules, length, class and weather.
use crate::wire::Wire;
use vstd::prelude::*;

verus! {

/// The game mode a session is played in.
#[derive(Clone, Copy, Debug, PartialEq, Eq, Structural)]
pub enum GameModeId {
    EventMode,
    GrandPrix,
    TimeTrial,
    Splitscreen,
    OnlineCustom,
    OnlineLeague,
    CareerInvitational,
    ChampionshipInvitational,
    Championship,
    OnlineChampionship,
    OnlineWeeklyEvent,
    Career,
    CareerOnline,
    Benchmark,
    /// A number the protocol does not list for a game mode.
    Other(u8),
}

impl GameModeId {
    /// Whether the protocol lists `code` for a game mode.
    pub open spec fn is_listed(code: u8) -> bool {
        ||| code == 0
        ||| code == 3
        ||| 5 <= code <= 8
        ||| 11 <= code <= 15
        ||| 19 <= code <= 20
        ||| code == 127
    }

    /// The number that stands for the value in a datagram.
    pub open spec fn code(self) -> u8 {
        match self {
            GameModeId::EventMode => 0,
            GameModeId::GrandPrix => 3,
            GameModeId::TimeTrial => 5,
            GameModeId::Splitscreen => 6,
            GameModeId::OnlineCustom => 7,
            GameModeId::OnlineLeague => 8,
            GameModeId::CareerInvitational => 11,
            GameModeId::ChampionshipInvitational => 12,
            GameModeId::Championship => 13,
            GameModeId::OnlineChampionship => 14,
            GameModeId::OnlineWeeklyEvent => 15,
            GameModeId::Career => 19,
            GameModeId::CareerOnline => 20,
            GameModeId::Benchmark => 127,
            GameModeId::Other(code) => code,
        }
    }

    /// The number that stands for the value in a datagram.
    pub fn as_u8(&self) -> (code: u8)
        ensures
            code == self.code(),
    {
        match self {
            GameModeId::EventMode => 0,
            GameModeId::GrandPrix => 3,
            GameModeId::TimeTrial => 5,
            GameModeId::Splitscreen => 6,
            GameModeId::OnlineCustom => 7,
            GameModeId::OnlineLeague => 8,
            GameModeId::CareerInvitational => 11,
            GameModeId::ChampionshipInvitational => 12,
            GameModeId::Championship => 13,
            GameModeId::OnlineChampionship => 14,
            GameModeId::OnlineWeeklyEvent => 15,
            GameModeId::Career => 19,
            GameModeId::CareerOnline => 20,
            GameModeId::Benchmark => 127,
            GameModeId::Other(code) => *code,
        }
    }

    /// The value that `code` stands for: the listed one where there is one,
    /// `Other` with the number kept where there is none.
    pub fn from_u8(code: u8) -> (value: Self)
        ensures
            value.code() == code,
            value.canonical(),
    {
        match code {
            0 => GameModeId::EventMode,
            3 => GameModeId::GrandPrix,
            5 => GameModeId::TimeTrial,
            6 => GameModeId::Splitscreen,
            7 => GameModeId::OnlineCustom,
            8 => GameModeId::OnlineLeague,
            11 => GameModeId::CareerInvitational,
            12 => GameModeId::ChampionshipInvitational,
            13 => GameModeId::Championship,
            14 => GameModeId::OnlineChampionship,
            15 => GameModeId::OnlineWeeklyEvent,
            19 => GameModeId::Career,
            20 => GameModeId::CareerOnline,
            127 => GameModeId::Benchmark,
            _ => GameModeId::Other(code),
        }
    }
}

impl Wire for GameModeId {
    open spec fn wire(&self) -> Seq<u8> {
        self.code().wire()
    }

    open spec fn width() -> nat {
        1
    }

    open spec fn canonical(&self) -> bool {
        match self {
            GameModeId::Other(code) => !Self::is_listed(*code),
            _ => true,
        }
    }

    proof fn lemma_wire_len(&self) {
    }

    proof fn lemma_wire_injective(&self, other: &Self) {
        self.code().lemma_wire_injective(&other.code());
    }

    fn size() -> (n: usize) {
        1
    }

    fn decode(bytes: &[u8], at: usize) -> (value: Self) {
        Self::from_u8(u8::decode(bytes, at))
    }

    fn encode(&self, out: &mut Vec<u8>) {
        self.as_u8().encode(out);
    }
}

/// The set of rules a session is run under.
#[derive(Clone, Copy, Debug, PartialEq, Eq, Structural)]
pub enum RulesetId {
    PracticeAndQualifying,
    Race,
    TimeTrial,
    TimeAttack,
    CheckpointChallenge,
    Autocross,
    Drift,
    AverageSpeedZone,
    RivalDuel,
    /// A number the protocol does not list for a ruleset.
    Other(u8),
}

impl RulesetId {
    /// Whether the protocol lists `code` for a ruleset.
    pub open spec fn is_listed(code: u8) -> bool {
        ||| code <= 2
        ||| code == 4
        ||| code == 6
        ||| 8 <= code <= 11
    }

    /// The number that stands for the value in a datagram.
    pub open spec fn code(self) -> u8 {
        match self {
            RulesetId::PracticeAndQualifying => 0,
            RulesetId::Race => 1,
            RulesetId::TimeTrial => 2,
            RulesetId::TimeAttack => 4,
            RulesetId::CheckpointChallenge => 6,
            RulesetId::Autocross => 8,
            RulesetId::Drift => 9,
            RulesetId::AverageSpeedZone => 10,
            RulesetId::RivalDuel => 11,
            RulesetId::Other(code) => code,
        }
    }

    /// The number that stands for the value in a datagram.
    pub fn as_u8(&self) -> (code: u8)
        ensures
            code == self.code(),
    {
        match self {
            RulesetId::PracticeAndQualifying => 0,
            RulesetId::Race => 1,
            RulesetId::TimeTrial => 2,
            RulesetId::TimeAttack => 4,
            RulesetId::CheckpointChallenge => 6,
            RulesetId::Autocross => 8,
            RulesetId::Drift => 9,
            RulesetId::AverageSpeedZone => 10,
            RulesetId::RivalDuel => 11,
            RulesetId::Other(code) => *code,
        }
    }

    /// The value that `code` stands for: the listed one where there is one,
    /// `Other` with the number kept where there is none.
    pub fn from_u8(code: u8) -> (value: Self)
        ensures
            value.code() == code,
            value.canonical(),
    {
        match code {
            0 => RulesetId::PracticeAndQualifying,
            1 => RulesetId::Race,
            2 => RulesetId::TimeTrial,
            4 => RulesetId::TimeAttack,
            6 => RulesetId::CheckpointChallenge,
            8 => RulesetId::Autocross,
            9 => RulesetId::Drift,
            10 => RulesetId::AverageSpeedZone,
            11 => RulesetId::RivalDuel,
            _ => RulesetId::Other(code),
        }
    }
}

impl Wire for RulesetId {
    open spec fn wire(&self) -> Seq<u8> {
        self.code().wire()
    }

    open spec fn width() -> nat {
        1
    }

    open spec fn canonical(&self) -> bool {
        match self {
            RulesetId::Other(code) => !Self::is_listed(*code),
            _ => true,
        }
    }

    proof fn lemma_wire_len(&self) {
    }

    proof fn lemma_wire_injective(&self, other: &Self) {
        self.code().lemma_wire_injective(&other.code());
    }

    fn size() -> (n: usize) {
        1
    }

    fn decode(bytes: &[u8], at: usize) -> (value: Self) {
        Self::from_u8(u8::decode(bytes, at))
    }

    fn encode(&self, out: &mut Vec<u8>) {
        self.as_u8().encode(out);
    }
}

/// The phase of a race weekend.
#[derive(Clone, Copy, Debug, PartialEq, Eq, Structural)]
pub enum SessionType {
    Unknown,
    P1,
    P2,
    P3,
    ShortP,
    Q1,
    Q2,
    Q3,
    ShortQ,
    OSQ,
    R,
    R2,
    R3,
    TimeTrial,
    /// A number the protocol does not list for a session type.
    Other(u8),
}

impl SessionType {
    /// Whether the protocol lists `code` for a session type.
    pub open spec fn is_listed(code: u8) -> bool {
        code <= 13
    }

    /// The number that stands for the value in a datagram.
    pub open spec fn code(self) -> u8 {
        match self {
            SessionType::Unknown => 0,
            SessionType::P1 => 1,
            SessionType::P2 => 2,
            SessionType::P3 => 3,
            SessionType::ShortP => 4,
            SessionType::Q1 => 5,
            SessionType::Q2 => 6,
            SessionType::Q3 => 7,
            SessionType::ShortQ => 8,
            SessionType::OSQ => 9,
            SessionType::R => 10,
            SessionType::R2 => 11,
            SessionType::R3 => 12,
            SessionType::TimeTrial => 13,
            SessionType::Other(code) => code,
        }
    }

    /// The number that stands for the value in a datagram.
    pub fn as_u8(&self) -> (code: u8)
        ensures
            code == self.code(),
    {
        match self {
            SessionType::Unknown => 0,
            SessionType::P1 => 1,
            SessionType::P2 => 2,
            SessionType::P3 => 3,
            SessionType::ShortP => 4,
            SessionType::Q1 => 5,
            SessionType::Q2 => 6,
            SessionType::Q3 => 7,
            SessionType::ShortQ => 8,
            SessionType::OSQ => 9,
            SessionType::R => 10,
            SessionType::R2 => 11,
            SessionType::R3 => 12,
            SessionType::TimeTrial => 13,
            SessionType::Other(code) => *code,
        }
    }

    /// The value that `code` stands for: the listed one where there is one,
    /// `Other` with the number kept where there is none.
    pub fn from_u8(code: u8) -> (value: Self)
        ensures
            value.code() == code,
            value.canonical(),
    {
        match code {
            0 => SessionType::Unknown,
            1 => SessionType::P1,
            2 => SessionType::P2,
            3 => SessionType::P3,
            4 => SessionType::ShortP,
            5 => SessionType::Q1,
            6 => SessionType::Q2,
            7 => SessionType::Q3,
            8 => SessionType::ShortQ,
            9 => SessionType::OSQ,
            10 => SessionType::R,
            11 => SessionType::R2,
            12 => SessionType::R3,
            13 => SessionType::TimeTrial,
            _ => SessionType::Other(code),
        }
    }
}

impl Default for SessionType {
    fn default() -> (value: Self)
        ensures
            value == SessionType::Unknown,
    {
        SessionType::Unknown
    }
}

impl Wire for SessionType {
    open spec fn wire(&self) -> Seq<u8> {
        self.code().wire()
    }

    open spec fn width() -> nat {
        1
    }

    open spec fn canonical(&self) -> bool {
        match self {
            SessionType::Other(code) => !Self::is_listed(*code),
            _ => true,
        }
    }

    proof fn lemma_wire_len(&self) {
    }

    proof fn lemma_wire_injective(&self, other: &Self) {
        self.code().lemma_wire_injective(&other.code());
    }

    fn size() -> (n: usize) {
        1
    }

    fn decode(bytes: &[u8], at: usize) -> (value: Self) {
        Self::from_u8(u8::decode(bytes, at))
    }

    fn encode(&self, out: &mut Vec<u8>) {
        self.as_u8().encode(out);
    }
}

/// The weather over the circuit.
#[derive(Clone, Copy, Debug, PartialEq, Eq, Structural)]
pub enum WeatherType {
    Clear,
    LightCloud,
    Overcast,
    LightRain,
    HeavyRain,
    Storm,
    /// A number the protocol does not list for a weather.
    Other(u8),
}

impl WeatherType {
    /// Whether the protocol lists `code` for a weather.
    pub open spec fn is_listed(code: u8) -> bool {
        code <= 5
    }

    /// The number that stands for the value in a datagram.
    pub open spec fn code(self) -> u8 {
        match self {
            WeatherType::Clear => 0,
            WeatherType::LightCloud => 1,
            WeatherType::Overcast => 2,
            WeatherType::LightRain => 3,
            WeatherType::HeavyRain => 4,
            WeatherType::Storm => 5,
            WeatherType::Other(code) => code,
        }
    }

    /// The number that stands for the value in a datagram.
    pub fn as_u8(&self) -> (code: u8)
        ensures
            code == self.code(),
    {
        match self {
            WeatherType::Clear => 0,
            WeatherType::LightCloud => 1,
            WeatherType::Overcast => 2,
            WeatherType::LightRain => 3,
            WeatherType::HeavyRain => 4,
            WeatherType::Storm => 5,
            WeatherType::Other(code) => *code,
        }
    }

    /// The value that `code` stands for: the listed one where there is one,
    /// `Other` with the number kept where there is none.
    pub fn from_u8(code: u8) -> (value: Self)
        ensures
            value.code() == code,
            value.canonical(),
    {
        match code {
            0 => WeatherType::Clear,
            1 => WeatherType::LightCloud,
            2 => WeatherType::Overcast,
            3 => WeatherType::LightRain,
            4 => WeatherType::HeavyRain,
            5 => WeatherType::Storm,
            _ => WeatherType::Other(code),
        }
    }
}

impl Default for WeatherType {
    fn default() -> (value: Self)
        ensures
            value == WeatherType::Clear,
    {
        WeatherType::Clear
    }
}

impl Wire for WeatherType {
    open spec fn wire(&self) -> Seq<u8> {
        self.code().wire()
    }

    open spec fn width() -> nat {
        1
    }

    open spec fn canonical(&self) -> bool {
        match self {
            WeatherType::Other(code) => !Self::is_listed(*code),
            _ => true,
        }
    }

    proof fn lemma_wire_len(&self) {
    }

    proof fn lemma_wire_injective(&self, other: &Self) {
        self.code().lemma_wire_injective(&other.code());
    }

    fn size() -> (n: usize) {
        1
    }

    fn decode(bytes: &[u8], at: usize) -> (value: Self) {
        Self::from_u8(u8::decode(bytes, at))
    }

    fn encode(&self, out: &mut Vec<u8>) {
        self.as_u8().encode(out);
    }
}

/// The class of car that is raced.
#[derive(Clone, Copy, Debug, PartialEq, Eq, Structural)]
pub enum FormulaType {
    F1Modern,
    F1Classic,
    F2,
    F1Generic,
    Beta,
    Supercards,
    Esports,
    F22021,
    /// A number the protocol does not list for a formula.
    Other(u8),
}

impl FormulaType {
    /// Whether the protocol lists `code` for a formula.
    pub open spec fn is_listed(code: u8) -> bool {
        code <= 7
    }

    /// The number that stands for the value in a datagram.
    pub open spec fn code(self) -> u8 {
        match self {
            FormulaType::F1Modern => 0,
            FormulaType::F1Classic => 1,
            FormulaType::F2 => 2,
            FormulaType::F1Generic => 3,
            FormulaType::Beta => 4,
            FormulaType::Supercards => 5,
            FormulaType::Esports => 6,
            FormulaType::F22021 => 7,
            FormulaType::Other(code) => code,
        }
    }

    /// The number that stands for the value in a datagram.
    pub fn as_u8(&self) -> (code: u8)
        ensures
            code == self.code(),
    {
        match self {
            FormulaType::F1Modern => 0,
            FormulaType::F1Classic => 1,
            FormulaType::F2 => 2,
            FormulaType::F1Generic => 3,
            FormulaType::Beta => 4,
            FormulaType::Supercards => 5,
            FormulaType::Esports => 6,
            FormulaType::F22021 => 7,
            FormulaType::Other(code) => *code,
        }
    }

    /// The value that `code` stands for: the listed one where there is one,
    /// `Other` with the number kept where there is none.
    pub fn from_u8(code: u8) -> (value: Self)
        ensures
            value.code() == code,
            value.canonical(),
    {
        match code {
            0 => FormulaType::F1Modern,
            1 => FormulaType::F1Classic,
            2 => FormulaType::F2,
            3 => FormulaType::F1Generic,
            4 => FormulaType::Beta,
            5 => FormulaType::Supercards,
            6 => FormulaType::Esports,
            7 => FormulaType::F22021,
            _ => FormulaType::Other(code),
        }
    }
}

impl Default for FormulaType {
    fn default() -> (value: Self)
        ensures
            value == FormulaType::F1Modern,
    {
        FormulaType::F1Modern
    }
}

impl Wire for FormulaType {
    open spec fn wire(&self) -> Seq<u8> {
        self.code().wire()
    }

    open spec fn width() -> nat {
        1
    }

    open spec fn canonical(&self) -> bool {
        match self {
            FormulaType::Other(code) => !Self::is_listed(*code),
            _ => true,
        }
    }

    proof fn lemma_wire_len(&self) {
    }

    proof fn lemma_wire_injective(&self, other: &Self) {
        self.code().lemma_wire_injective(&other.code());
    }

    fn size() -> (n: usize) {
        1
    }

    fn decode(bytes: &[u8], at: usize) -> (value: Self) {
        Self::from_u8(u8::decode(bytes, at))
    }

    fn encode(&self, out: &mut Vec<u8>) {
        self.as_u8().encode(out);
    }
}

/// How long a session is set to last.
#[derive(Clone, Copy, Debug, PartialEq, Eq, Structural)]
pub enum SessionLength {
    Unset,
    VeryShort,
    Short,
    Medium,
    MediumLong,
    Long,
    Full,
    /// A number the protocol does not list for a session length.
    Other(u8),
}

impl SessionLength {
    /// Whether the protocol lists `code` for a session length.
    pub open spec fn is_listed(code: u8) -> bool {
        ||| code == 0
        ||| 2 <= code <= 7
    }

    /// The number that stands for the value in a datagram.
    pub open spec fn code(self) -> u8 {
        match self {
            SessionLength::Unset => 0,
            SessionLength::VeryShort => 2,
            SessionLength::Short => 3,
            SessionLength::Medium => 4,
            SessionLength::MediumLong => 5,
            SessionLength::Long => 6,
            SessionLength::Full => 7,
            SessionLength::Other(code) => code,
        }
    }

    /// The number that stands for the value in a datagram.
    pub fn as_u8(&self) -> (code: u8)
        ensures
            code == self.code(),
    {
        match self {
            SessionLength::Unset => 0,
            SessionLength::VeryShort => 2,
            SessionLength::Short => 3,
            SessionLength::Medium => 4,
            SessionLength::MediumLong => 5,
            SessionLength::Long => 6,
            SessionLength::Full => 7,
            SessionLength::Other(code) => *code,
        }
    }

    /// The value that `code` stands for: the listed one where there is one,
    /// `Other` with the number kept where there is none.
    pub fn from_u8(code: u8) -> (value: Self)
        ensures
            value.code() == code,
            value.canonical(),
    {
        match code {
            0 => SessionLength::Unset,
            2 => SessionLength::VeryShort,
            3 => SessionLength::Short,
            4 => SessionLength::Medium,
            5 => SessionLength::MediumLong,
            6 => SessionLength::Long,
            7 => SessionLength::Full,
            _ => SessionLength::Other(code),
        }
    }
}

impl Default for SessionLength {
    fn default() -> (value: Self)
        ensures
            value == SessionLength::Unset,
    {
        SessionLength::Unset
    }
}

impl Wire for SessionLength {
    open spec fn wire(&self) -> Seq<u8> {
        self.code().wire()
    }

    open spec fn width() -> nat {
        1
    }

    open spec fn canonical(&self) -> bool {
        match self {
            SessionLength::Other(code) => !Self::is_listed(*code),
            _ => true,
        }
    }

    proof fn lemma_wire_len(&self) {
    }

    proof fn lemma_wire_injective(&self, other: &Self) {
        self.code().lemma_wire_injective(&other.code());
    }

    fn size() -> (n: usize) {
        1
    }

    fn decode(bytes: &[u8], at: usize) -> (value: Self) {
        Self::from_u8(u8::decode(bytes, at))
    }

    fn encode(&self, out: &mut Vec<u8>) {
        self.as_u8().encode(out);
    }
}

} // verus!
