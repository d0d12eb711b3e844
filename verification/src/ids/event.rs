//! The events a session can report, each with its four-letter code.
use vstd::prelude::*;

verus! {

/// What has happened.
#[derive(Clone, Copy, Debug, PartialEq, Eq, Hash, Structural)]
pub enum EventId {
    SessionStarted,
    SessionEnded,
    FastestLap,
    Retirement,
    DRSEnabled,
    DRSDisabled,
    TeamMateInPits,
    ChequeredFlag,
    RaceWinner,
    PenaltyIssued,
    SpeedTrapTriggered,
    StartLights,
    LightsOut,
    DriveThroughServed,
    StopGoServed,
    Flashback,
    ButtonStatus,
}

impl EventId {
    /// The four ASCII letters that announce the event in a datagram.
    pub open spec fn code(self) -> Seq<u8> {
        match self {
            // SSTA
            EventId::SessionStarted => seq![83u8, 83u8, 84u8, 65u8],
            // SEND
            EventId::SessionEnded => seq![83u8, 69u8, 78u8, 68u8],
            // FTLP
            EventId::FastestLap => seq![70u8, 84u8, 76u8, 80u8],
            // RTMT
            EventId::Retirement => seq![82u8, 84u8, 77u8, 84u8],
            // DRSE
            EventId::DRSEnabled => seq![68u8, 82u8, 83u8, 69u8],
            // DRSD
            EventId::DRSDisabled => seq![68u8, 82u8, 83u8, 68u8],
            // TMPT
            EventId::TeamMateInPits => seq![84u8, 77u8, 80u8, 84u8],
            // CHQF
            EventId::ChequeredFlag => seq![67u8, 72u8, 81u8, 70u8],
            // RCWN
            EventId::RaceWinner => seq![82u8, 67u8, 87u8, 78u8],
            // PENA
            EventId::PenaltyIssued => seq![80u8, 69u8, 78u8, 65u8],
            // SPTP
            EventId::SpeedTrapTriggered => seq![83u8, 80u8, 84u8, 80u8],
            // STLG
            EventId::StartLights => seq![83u8, 84u8, 76u8, 71u8],
            // LGOT
            EventId::LightsOut => seq![76u8, 71u8, 79u8, 84u8],
            // DTSV
            EventId::DriveThroughServed => seq![68u8, 84u8, 83u8, 86u8],
            // SGSV
            EventId::StopGoServed => seq![83u8, 71u8, 83u8, 86u8],
            // FLBK
            EventId::Flashback => seq![70u8, 76u8, 66u8, 75u8],
            // BUTN
            EventId::ButtonStatus => seq![66u8, 85u8, 84u8, 78u8],
        }
    }

    /// The code as text.
    pub open spec fn code_text(self) -> Seq<char> {
        match self {
            EventId::SessionStarted => "SSTA"@,
            EventId::SessionEnded => "SEND"@,
            EventId::FastestLap => "FTLP"@,
            EventId::Retirement => "RTMT"@,
            EventId::DRSEnabled => "DRSE"@,
            EventId::DRSDisabled => "DRSD"@,
            EventId::TeamMateInPits => "TMPT"@,
            EventId::ChequeredFlag => "CHQF"@,
            EventId::RaceWinner => "RCWN"@,
            EventId::PenaltyIssued => "PENA"@,
            EventId::SpeedTrapTriggered => "SPTP"@,
            EventId::StartLights => "STLG"@,
            EventId::LightsOut => "LGOT"@,
            EventId::DriveThroughServed => "DTSV"@,
            EventId::StopGoServed => "SGSV"@,
            EventId::Flashback => "FLBK"@,
            EventId::ButtonStatus => "BUTN"@,
        }
    }

    /// The code as text.
    pub fn code_str(&self) -> (text: &'static str)
        ensures
            text@ == self.code_text(),
    {
        match self {
            EventId::SessionStarted => "SSTA",
            EventId::SessionEnded => "SEND",
            EventId::FastestLap => "FTLP",
            EventId::Retirement => "RTMT",
            EventId::DRSEnabled => "DRSE",
            EventId::DRSDisabled => "DRSD",
            EventId::TeamMateInPits => "TMPT",
            EventId::ChequeredFlag => "CHQF",
            EventId::RaceWinner => "RCWN",
            EventId::PenaltyIssued => "PENA",
            EventId::SpeedTrapTriggered => "SPTP",
            EventId::StartLights => "STLG",
            EventId::LightsOut => "LGOT",
            EventId::DriveThroughServed => "DTSV",
            EventId::StopGoServed => "SGSV",
            EventId::Flashback => "FLBK",
            EventId::ButtonStatus => "BUTN",
        }
    }

    /// What the event is called.
    pub open spec fn name_text(self) -> Seq<char> {
        match self {
            EventId::SessionStarted => "Session Started"@,
            EventId::SessionEnded => "Session Ended"@,
            EventId::FastestLap => "Fastest Lap"@,
            EventId::Retirement => "Retirement"@,
            EventId::DRSEnabled => "DRS enabled"@,
            EventId::DRSDisabled => "DRS disabled"@,
            EventId::TeamMateInPits => "Team mate in pits"@,
            EventId::ChequeredFlag => "Chequered flag"@,
            EventId::RaceWinner => "Race Winner"@,
            EventId::PenaltyIssued => "Penalty Issued"@,
            EventId::SpeedTrapTriggered => "Speed Trap Triggered"@,
            EventId::StartLights => "Start lights"@,
            EventId::LightsOut => "Lights out"@,
            EventId::DriveThroughServed => "Drive through served"@,
            EventId::StopGoServed => "Stop go served"@,
            EventId::Flashback => "Flashback"@,
            EventId::ButtonStatus => "Button status"@,
        }
    }

    /// What the event is called.
    pub fn name(&self) -> (text: &'static str)
        ensures
            text@ == self.name_text(),
    {
        match self {
            EventId::SessionStarted => "Session Started",
            EventId::SessionEnded => "Session Ended",
            EventId::FastestLap => "Fastest Lap",
            EventId::Retirement => "Retirement",
            EventId::DRSEnabled => "DRS enabled",
            EventId::DRSDisabled => "DRS disabled",
            EventId::TeamMateInPits => "Team mate in pits",
            EventId::ChequeredFlag => "Chequered flag",
            EventId::RaceWinner => "Race Winner",
            EventId::PenaltyIssued => "Penalty Issued",
            EventId::SpeedTrapTriggered => "Speed Trap Triggered",
            EventId::StartLights => "Start lights",
            EventId::LightsOut => "Lights out",
            EventId::DriveThroughServed => "Drive through served",
            EventId::StopGoServed => "Stop go served",
            EventId::Flashback => "Flashback",
            EventId::ButtonStatus => "Button status",
        }
    }

    /// What the event means, in a sentence.
    pub open spec fn description_text(self) -> Seq<char> {
        match self {
            EventId::SessionStarted => "Sent when the session starts"@,
            EventId::SessionEnded => "Sent when the session ends"@,
            EventId::FastestLap => "When a driver achieves the fastest lap"@,
            EventId::Retirement => "When a driver retires"@,
            EventId::DRSEnabled => "Race control have enabled DRS"@,
            EventId::DRSDisabled => "Race control have disabled DRS"@,
            EventId::TeamMateInPits => "Your team mate has entered the pits"@,
            EventId::ChequeredFlag => "The chequered flag has been waved"@,
            EventId::RaceWinner => "The race winner is announced"@,
            EventId::PenaltyIssued => "A penalty has been issued – details in event"@,
            EventId::SpeedTrapTriggered => "Speed trap has been triggered by fastest speed"@,
            EventId::StartLights => "Start lights – number shown"@,
            EventId::LightsOut => "Lights out"@,
            EventId::DriveThroughServed => "Drive through penalty served"@,
            EventId::StopGoServed => "Stop go penalty served"@,
            EventId::Flashback => "Flashback activated"@,
            EventId::ButtonStatus => "Button status changed"@,
        }
    }

    /// What the event means, in a sentence.
    pub fn description(&self) -> (text: &'static str)
        ensures
            text@ == self.description_text(),
    {
        match self {
            EventId::SessionStarted => "Sent when the session starts",
            EventId::SessionEnded => "Sent when the session ends",
            EventId::FastestLap => "When a driver achieves the fastest lap",
            EventId::Retirement => "When a driver retires",
            EventId::DRSEnabled => "Race control have enabled DRS",
            EventId::DRSDisabled => "Race control have disabled DRS",
            EventId::TeamMateInPits => "Your team mate has entered the pits",
            EventId::ChequeredFlag => "The chequered flag has been waved",
            EventId::RaceWinner => "The race winner is announced",
            EventId::PenaltyIssued => "A penalty has been issued – details in event",
            EventId::SpeedTrapTriggered => "Speed trap has been triggered by fastest speed",
            EventId::StartLights => "Start lights – number shown",
            EventId::LightsOut => "Lights out",
            EventId::DriveThroughServed => "Drive through penalty served",
            EventId::StopGoServed => "Stop go penalty served",
            EventId::Flashback => "Flashback activated",
            EventId::ButtonStatus => "Button status changed",
        }
    }

    /// The event that `code` announces, if it announces one.
    pub open spec fn with_code(code: Seq<u8>) -> Option<EventId> {
        if exists|id: EventId| id.code() == code {
            Some(choose|id: EventId| id.code() == code)
        } else {
            None
        }
    }

    /// No two events share a code.
    pub proof fn lemma_codes_differ(a: EventId, b: EventId)
        requires
            a.code() == b.code(),
        ensures
            a == b,
    {
        assert(a.code()[0] == b.code()[0]);
        assert(a.code()[1] == b.code()[1]);
        assert(a.code()[2] == b.code()[2]);
        assert(a.code()[3] == b.code()[3]);
    }

    /// The event that the four bytes of `code` announce, if they announce one.
    pub fn from_code(code: &[u8; 4]) -> (found: Option<EventId>)
        ensures
            found == Self::with_code(code@),
    {
        let c0: u8 = code[0];
        let c1: u8 = code[1];
        let c2: u8 = code[2];
        let c3: u8 = code[3];
        let found: Option<EventId> = match (c0, c1, c2, c3) {
            (83, 83, 84, 65) => Some(EventId::SessionStarted),
            (83, 69, 78, 68) => Some(EventId::SessionEnded),
            (70, 84, 76, 80) => Some(EventId::FastestLap),
            (82, 84, 77, 84) => Some(EventId::Retirement),
            (68, 82, 83, 69) => Some(EventId::DRSEnabled),
            (68, 82, 83, 68) => Some(EventId::DRSDisabled),
            (84, 77, 80, 84) => Some(EventId::TeamMateInPits),
            (67, 72, 81, 70) => Some(EventId::ChequeredFlag),
            (82, 67, 87, 78) => Some(EventId::RaceWinner),
            (80, 69, 78, 65) => Some(EventId::PenaltyIssued),
            (83, 80, 84, 80) => Some(EventId::SpeedTrapTriggered),
            (83, 84, 76, 71) => Some(EventId::StartLights),
            (76, 71, 79, 84) => Some(EventId::LightsOut),
            (68, 84, 83, 86) => Some(EventId::DriveThroughServed),
            (83, 71, 83, 86) => Some(EventId::StopGoServed),
            (70, 76, 66, 75) => Some(EventId::Flashback),
            (66, 85, 84, 78) => Some(EventId::ButtonStatus),
            _ => None,
        };
        proof {
            match found {
                Some(id) => {
                    assert(id.code() =~= code@);
                    Self::lemma_codes_differ(id, Self::with_code(code@)->0);
                },
                None => {
                    if Self::with_code(code@) is Some {
                        let id = Self::with_code(code@)->0;
                        assert(id.code()[0] == c0 && id.code()[1] == c1 && id.code()[2] == c2
                            && id.code()[3] == c3);
                    }
                },
            }
        }
        found
    }
}

/// One row of the table of events: what an event is called, its code and
/// what it means.
#[derive(Clone, Copy, Debug, PartialEq, Eq, Hash)]
pub struct Event {
    pub event: &'static str,
    pub code: &'static str,
    pub description: &'static str,
    pub id: EventId,
}

impl Event {
    /// The row of the table for `id`.
    pub fn of(id: EventId) -> (row: Event)
        ensures
            row.id == id,
            row.event@ == id.name_text(),
            row.code@ == id.code_text(),
            row.description@ == id.description_text(),
    {
        Event { event: id.name(), code: id.code_str(), description: id.description(), id }
    }
}

} // verus!
