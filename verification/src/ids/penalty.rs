//! Penalties and what they are given for.
use crate::wire::Wire;
use vstd::prelude::*;

verus! {

/// The kind of penalty handed to a driver.
#[derive(Clone, Copy, Debug, PartialEq, Eq, Structural)]
pub enum PenaltyType {
    DriveThrough,
    StopGo,
    GridPenalty,
    PenaltyReminder,
    TimePenalty,
    Warning,
    Disqualified,
    RemovedFromFormationLap,
    ParkedTooLongTimer,
    TyreRegulations,
    ThisLapInvalidated,
    ThisAndNextLapInvalidated,
    ThisLapInvalidatedWithoutReason,
    ThisAndNextLapInvalidatedWithoutReason,
    ThisAndPreviousLapInvalidated,
    ThisAndPreviousLapInvalidatedWithoutReason,
    Retired,
    BlackFlagTimer,
    /// A number the protocol does not list for a penalty.
    Other(u8),
}

impl PenaltyType {
    /// Whether the protocol lists `code` for a penalty.
    pub open spec fn is_listed(code: u8) -> bool {
        code <= 17
    }

    /// The number that stands for the value in a datagram.
    pub open spec fn code(self) -> u8 {
        match self {
            PenaltyType::DriveThrough => 0,
            PenaltyType::StopGo => 1,
            PenaltyType::GridPenalty => 2,
            PenaltyType::PenaltyReminder => 3,
            PenaltyType::TimePenalty => 4,
            PenaltyType::Warning => 5,
            PenaltyType::Disqualified => 6,
            PenaltyType::RemovedFromFormationLap => 7,
            PenaltyType::ParkedTooLongTimer => 8,
            PenaltyType::TyreRegulations => 9,
            PenaltyType::ThisLapInvalidated => 10,
            PenaltyType::ThisAndNextLapInvalidated => 11,
            PenaltyType::ThisLapInvalidatedWithoutReason => 12,
            PenaltyType::ThisAndNextLapInvalidatedWithoutReason => 13,
            PenaltyType::ThisAndPreviousLapInvalidated => 14,
            PenaltyType::ThisAndPreviousLapInvalidatedWithoutReason => 15,
            PenaltyType::Retired => 16,
            PenaltyType::BlackFlagTimer => 17,
            PenaltyType::Other(code) => code,
        }
    }

    /// The number that stands for the value in a datagram.
    pub fn as_u8(&self) -> (code: u8)
        ensures
            code == self.code(),
    {
        match self {
            PenaltyType::DriveThrough => 0,
            PenaltyType::StopGo => 1,
            PenaltyType::GridPenalty => 2,
            PenaltyType::PenaltyReminder => 3,
            PenaltyType::TimePenalty => 4,
            PenaltyType::Warning => 5,
            PenaltyType::Disqualified => 6,
            PenaltyType::RemovedFromFormationLap => 7,
            PenaltyType::ParkedTooLongTimer => 8,
            PenaltyType::TyreRegulations => 9,
            PenaltyType::ThisLapInvalidated => 10,
            PenaltyType::ThisAndNextLapInvalidated => 11,
            PenaltyType::ThisLapInvalidatedWithoutReason => 12,
            PenaltyType::ThisAndNextLapInvalidatedWithoutReason => 13,
            PenaltyType::ThisAndPreviousLapInvalidated => 14,
            PenaltyType::ThisAndPreviousLapInvalidatedWithoutReason => 15,
            PenaltyType::Retired => 16,
            PenaltyType::BlackFlagTimer => 17,
            PenaltyType::Other(code) => *code,
        }
    }

    /// The value that `code` stands for: the listed one where there is one,
    /// `Other` with the number kept where there is none.
    pub fn from_u8(code: u8) -> (value: Self)
        ensures
            value.code() == code,
            value.canonical(),
    {
        match code {
            0 => PenaltyType::DriveThrough,
            1 => PenaltyType::StopGo,
            2 => PenaltyType::GridPenalty,
            3 => PenaltyType::PenaltyReminder,
            4 => PenaltyType::TimePenalty,
            5 => PenaltyType::Warning,
            6 => PenaltyType::Disqualified,
            7 => PenaltyType::RemovedFromFormationLap,
            8 => PenaltyType::ParkedTooLongTimer,
            9 => PenaltyType::TyreRegulations,
            10 => PenaltyType::ThisLapInvalidated,
            11 => PenaltyType::ThisAndNextLapInvalidated,
            12 => PenaltyType::ThisLapInvalidatedWithoutReason,
            13 => PenaltyType::ThisAndNextLapInvalidatedWithoutReason,
            14 => PenaltyType::ThisAndPreviousLapInvalidated,
            15 => PenaltyType::ThisAndPreviousLapInvalidatedWithoutReason,
            16 => PenaltyType::Retired,
            17 => PenaltyType::BlackFlagTimer,
            _ => PenaltyType::Other(code),
        }
    }

    /// The words for the penalty that complete "has received a ...".
    pub open spec fn label(self) -> Seq<char> {
        match self {
            PenaltyType::DriveThrough => "Drive Through"@,
            PenaltyType::StopGo => "Stop Go Penalty"@,
            PenaltyType::GridPenalty => "Grid Penalty"@,
            PenaltyType::PenaltyReminder => "Penalty Reminder"@,
            PenaltyType::TimePenalty => "Time Penalty"@,
            PenaltyType::Warning => "Warning"@,
            PenaltyType::Disqualified => "Disqualification Penalty"@,
            PenaltyType::RemovedFromFormationLap => "Formation Lap Removal"@,
            PenaltyType::ParkedTooLongTimer => "Parked Too Long Penalty"@,
            PenaltyType::TyreRegulations => "Tyre Regulation Penalty"@,
            PenaltyType::ThisLapInvalidated => "Invalidated Lap (This Lap)"@,
            PenaltyType::ThisAndNextLapInvalidated => "Invalidated Lap (This And Next Lap)"@,
            PenaltyType::ThisLapInvalidatedWithoutReason => {
                "Invalidated Lap Without Reason (This Lap)"@
            },
            PenaltyType::ThisAndNextLapInvalidatedWithoutReason => {
                "Invalidated Lap Without Reason (This And Next Lap)"@
            },
            PenaltyType::ThisAndPreviousLapInvalidated => {
                "Invalidated Lap (This And Previous Lap)"@
            },
            PenaltyType::ThisAndPreviousLapInvalidatedWithoutReason => {
                "Invalidated Lap Without Reason (This And Previous Lap)"@
            },
            PenaltyType::Retired => "Retired"@,
            PenaltyType::BlackFlagTimer => "Black Flag Penalty"@,
            PenaltyType::Other(_) => "Penalty"@,
        }
    }

    /// The words for the penalty that complete "has received a ...".
    pub fn as_str(&self) -> (text: &'static str)
        ensures
            text@ == self.label(),
    {
        match self {
            PenaltyType::DriveThrough => "Drive Through",
            PenaltyType::StopGo => "Stop Go Penalty",
            PenaltyType::GridPenalty => "Grid Penalty",
            PenaltyType::PenaltyReminder => "Penalty Reminder",
            PenaltyType::TimePenalty => "Time Penalty",
            PenaltyType::Warning => "Warning",
            PenaltyType::Disqualified => "Disqualification Penalty",
            PenaltyType::RemovedFromFormationLap => "Formation Lap Removal",
            PenaltyType::ParkedTooLongTimer => "Parked Too Long Penalty",
            PenaltyType::TyreRegulations => "Tyre Regulation Penalty",
            PenaltyType::ThisLapInvalidated => "Invalidated Lap (This Lap)",
            PenaltyType::ThisAndNextLapInvalidated => "Invalidated Lap (This And Next Lap)",
            PenaltyType::ThisLapInvalidatedWithoutReason => {
                "Invalidated Lap Without Reason (This Lap)"
            },
            PenaltyType::ThisAndNextLapInvalidatedWithoutReason => {
                "Invalidated Lap Without Reason (This And Next Lap)"
            },
            PenaltyType::ThisAndPreviousLapInvalidated => "Invalidated Lap (This And Previous Lap)",
            PenaltyType::ThisAndPreviousLapInvalidatedWithoutReason => {
                "Invalidated Lap Without Reason (This And Previous Lap)"
            },
            PenaltyType::Retired => "Retired",
            PenaltyType::BlackFlagTimer => "Black Flag Penalty",
            PenaltyType::Other(_) => "Penalty",
        }
    }
}

impl Wire for PenaltyType {
    open spec fn wire(&self) -> Seq<u8> {
        self.code().wire()
    }

    open spec fn width() -> nat {
        1
    }

    open spec fn canonical(&self) -> bool {
        match self {
            PenaltyType::Other(code) => !Self::is_listed(*code),
            _ => true,
        }
    }

    proof fn lemma_wire_len(&self) {
    }

    proof fn lemma_wire_injective(&self, other: &Self) {
        self.code().lemma_wire_injective(&other.code());
    }

    fn size() -> (n: usize) {
        1
    }

    fn decode(bytes: &[u8], at: usize) -> (value: Self) {
        Self::from_u8(u8::decode(bytes, at))
    }

    fn encode(&self, out: &mut Vec<u8>) {
        self.as_u8().encode(out);
    }
}

/// What a driver was penalised for.
#[derive(Clone, Copy, Debug, PartialEq, Eq, Structural)]
pub enum InfringementType {
    BlockingBySlowDriving,
    BlockingByWrongWayDriving,
    ReversingOffTheStartLine,
    BigCollision,
    SmallCollision,
    CollisionFailedToHandBackPositionSingle,
    CollisionFailedToHandBackPositionMultiple,
    CornerCuttingGainedTime,
    CornerCuttingOvertakeSingle,
    CornerCuttingOvertakeMultiple,
    CrossedPitExitLane,
    IgnoringBlueFlags,
    IgnoringYellowFlags,
    IgnoringDriveThrough,
    TooManyDriveThroughs,
    DriveThroughReminderServeWithinNLaps,
    DriveThroughReminderServeThisLap,
    PitLaneSpeeding,
    ParkedForTooLong,
    IgnoringTyreRegulations,
    TooManyPenalties,
    MultipleWarnings,
    ApproachingDisqualification,
    TyreRegulationsSelectSingle,
    TyreRegulationsSelectMultiple,
    LapInvalidatedCornerCutting,
    LapInvalidatedRunningWide,
    CornerCuttingRanWideGainedTimeMinor,
    CornerCuttingRanWideGainedTimeSignificant,
    CornerCuttingRanWideGainedTimeExtreme,
    LapInvalidatedWallRiding,
    LapInvalidatedFlashbackUsed,
    LapInvalidatedResetToTrack,
    BlockingThePitlane,
    JumpStart,
    SafetyCarToCarCollision,
    SafetyCarIllegalOvertake,
    SafetyCarExceedingAllowedPace,
    VirtualSafetyCarExceedingAllowedPace,
    FormationLapBelowAllowedSpeed,
    FormationLapParking,
    RetiredMechanicalFailure,
    RetiredTerminallyDamaged,
    SafetyCarFallingTooFarBack,
    BlackFlagTimer,
    UnservedStopGoPenalty,
    UnservedDriveThroughPenalty,
    EngineComponentChange,
    GearboxChange,
    ParcFermeChange,
    LeagueGridPenalty,
    RetryPenalty,
    IllegalTimeGain,
    MandatoryPitstop,
    AttributeAssigned,
    /// A number the protocol does not list for an infringement.
    Other(u8),
}

impl InfringementType {
    /// Whether the protocol lists `code` for an infringement.
    pub open spec fn is_listed(code: u8) -> bool {
        code <= 54
    }

    /// The number that stands for the value in a datagram.
    pub open spec fn code(self) -> u8 {
        match self {
            InfringementType::BlockingBySlowDriving => 0,
            InfringementType::BlockingByWrongWayDriving => 1,
            InfringementType::ReversingOffTheStartLine => 2,
            InfringementType::BigCollision => 3,
            InfringementType::SmallCollision => 4,
            InfringementType::CollisionFailedToHandBackPositionSingle => 5,
            InfringementType::CollisionFailedToHandBackPositionMultiple => 6,
            InfringementType::CornerCuttingGainedTime => 7,
            InfringementType::CornerCuttingOvertakeSingle => 8,
            InfringementType::CornerCuttingOvertakeMultiple => 9,
            InfringementType::CrossedPitExitLane => 10,
            InfringementType::IgnoringBlueFlags => 11,
            InfringementType::IgnoringYellowFlags => 12,
            InfringementType::IgnoringDriveThrough => 13,
            InfringementType::TooManyDriveThroughs => 14,
            InfringementType::DriveThroughReminderServeWithinNLaps => 15,
            InfringementType::DriveThroughReminderServeThisLap => 16,
            InfringementType::PitLaneSpeeding => 17,
            InfringementType::ParkedForTooLong => 18,
            InfringementType::IgnoringTyreRegulations => 19,
            InfringementType::TooManyPenalties => 20,
            InfringementType::MultipleWarnings => 21,
            InfringementType::ApproachingDisqualification => 22,
            InfringementType::TyreRegulationsSelectSingle => 23,
            InfringementType::TyreRegulationsSelectMultiple => 24,
            InfringementType::LapInvalidatedCornerCutting => 25,
            InfringementType::LapInvalidatedRunningWide => 26,
            InfringementType::CornerCuttingRanWideGainedTimeMinor => 27,
            InfringementType::CornerCuttingRanWideGainedTimeSignificant => 28,
            InfringementType::CornerCuttingRanWideGainedTimeExtreme => 29,
            InfringementType::LapInvalidatedWallRiding => 30,
            InfringementType::LapInvalidatedFlashbackUsed => 31,
            InfringementType::LapInvalidatedResetToTrack => 32,
            InfringementType::BlockingThePitlane => 33,
            InfringementType::JumpStart => 34,
            InfringementType::SafetyCarToCarCollision => 35,
            InfringementType::SafetyCarIllegalOvertake => 36,
            InfringementType::SafetyCarExceedingAllowedPace => 37,
            InfringementType::VirtualSafetyCarExceedingAllowedPace => 38,
            InfringementType::FormationLapBelowAllowedSpeed => 39,
            InfringementType::FormationLapParking => 40,
            InfringementType::RetiredMechanicalFailure => 41,
            InfringementType::RetiredTerminallyDamaged => 42,
            InfringementType::SafetyCarFallingTooFarBack => 43,
            InfringementType::BlackFlagTimer => 44,
            InfringementType::UnservedStopGoPenalty => 45,
            InfringementType::UnservedDriveThroughPenalty => 46,
            InfringementType::EngineComponentChange => 47,
            InfringementType::GearboxChange => 48,
            InfringementType::ParcFermeChange => 49,
            InfringementType::LeagueGridPenalty => 50,
            InfringementType::RetryPenalty => 51,
            InfringementType::IllegalTimeGain => 52,
            InfringementType::MandatoryPitstop => 53,
            InfringementType::AttributeAssigned => 54,
            InfringementType::Other(code) => code,
        }
    }

    /// The number that stands for the value in a datagram.
    pub fn as_u8(&self) -> (code: u8)
        ensures
            code == self.code(),
    {
        match self {
            InfringementType::BlockingBySlowDriving => 0,
            InfringementType::BlockingByWrongWayDriving => 1,
            InfringementType::ReversingOffTheStartLine => 2,
            InfringementType::BigCollision => 3,
            InfringementType::SmallCollision => 4,
            InfringementType::CollisionFailedToHandBackPositionSingle => 5,
            InfringementType::CollisionFailedToHandBackPositionMultiple => 6,
            InfringementType::CornerCuttingGainedTime => 7,
            InfringementType::CornerCuttingOvertakeSingle => 8,
            InfringementType::CornerCuttingOvertakeMultiple => 9,
            InfringementType::CrossedPitExitLane => 10,
            InfringementType::IgnoringBlueFlags => 11,
            InfringementType::IgnoringYellowFlags => 12,
            InfringementType::IgnoringDriveThrough => 13,
            InfringementType::TooManyDriveThroughs => 14,
            InfringementType::DriveThroughReminderServeWithinNLaps => 15,
            InfringementType::DriveThroughReminderServeThisLap => 16,
            InfringementType::PitLaneSpeeding => 17,
            InfringementType::ParkedForTooLong => 18,
            InfringementType::IgnoringTyreRegulations => 19,
            InfringementType::TooManyPenalties => 20,
            InfringementType::MultipleWarnings => 21,
            InfringementType::ApproachingDisqualification => 22,
            InfringementType::TyreRegulationsSelectSingle => 23,
            InfringementType::TyreRegulationsSelectMultiple => 24,
            InfringementType::LapInvalidatedCornerCutting => 25,
            InfringementType::LapInvalidatedRunningWide => 26,
            InfringementType::CornerCuttingRanWideGainedTimeMinor => 27,
            InfringementType::CornerCuttingRanWideGainedTimeSignificant => 28,
            InfringementType::CornerCuttingRanWideGainedTimeExtreme => 29,
            InfringementType::LapInvalidatedWallRiding => 30,
            InfringementType::LapInvalidatedFlashbackUsed => 31,
            InfringementType::LapInvalidatedResetToTrack => 32,
            InfringementType::BlockingThePitlane => 33,
            InfringementType::JumpStart => 34,
            InfringementType::SafetyCarToCarCollision => 35,
            InfringementType::SafetyCarIllegalOvertake => 36,
            InfringementType::SafetyCarExceedingAllowedPace => 37,
            InfringementType::VirtualSafetyCarExceedingAllowedPace => 38,
            InfringementType::FormationLapBelowAllowedSpeed => 39,
            InfringementType::FormationLapParking => 40,
            InfringementType::RetiredMechanicalFailure => 41,
            InfringementType::RetiredTerminallyDamaged => 42,
            InfringementType::SafetyCarFallingTooFarBack => 43,
            InfringementType::BlackFlagTimer => 44,
            InfringementType::UnservedStopGoPenalty => 45,
            InfringementType::UnservedDriveThroughPenalty => 46,
            InfringementType::EngineComponentChange => 47,
            InfringementType::GearboxChange => 48,
            InfringementType::ParcFermeChange => 49,
            InfringementType::LeagueGridPenalty => 50,
            InfringementType::RetryPenalty => 51,
            InfringementType::IllegalTimeGain => 52,
            InfringementType::MandatoryPitstop => 53,
            InfringementType::AttributeAssigned => 54,
            InfringementType::Other(code) => *code,
        }
    }

    /// The value that `code` stands for: the listed one where there is one,
    /// `Other` with the number kept where there is none.
    pub fn from_u8(code: u8) -> (value: Self)
        ensures
            value.code() == code,
            value.canonical(),
    {
        match code {
            0 => InfringementType::BlockingBySlowDriving,
            1 => InfringementType::BlockingByWrongWayDriving,
            2 => InfringementType::ReversingOffTheStartLine,
            3 => InfringementType::BigCollision,
            4 => InfringementType::SmallCollision,
            5 => InfringementType::CollisionFailedToHandBackPositionSingle,
            6 => InfringementType::CollisionFailedToHandBackPositionMultiple,
            7 => InfringementType::CornerCuttingGainedTime,
            8 => InfringementType::CornerCuttingOvertakeSingle,
            9 => InfringementType::CornerCuttingOvertakeMultiple,
            10 => InfringementType::CrossedPitExitLane,
            11 => InfringementType::IgnoringBlueFlags,
            12 => InfringementType::IgnoringYellowFlags,
            13 => InfringementType::IgnoringDriveThrough,
            14 => InfringementType::TooManyDriveThroughs,
            15 => InfringementType::DriveThroughReminderServeWithinNLaps,
            16 => InfringementType::DriveThroughReminderServeThisLap,
            17 => InfringementType::PitLaneSpeeding,
            18 => InfringementType::ParkedForTooLong,
            19 => InfringementType::IgnoringTyreRegulations,
            20 => InfringementType::TooManyPenalties,
            21 => InfringementType::MultipleWarnings,
            22 => InfringementType::ApproachingDisqualification,
            23 => InfringementType::TyreRegulationsSelectSingle,
            24 => InfringementType::TyreRegulationsSelectMultiple,
            25 => InfringementType::LapInvalidatedCornerCutting,
            26 => InfringementType::LapInvalidatedRunningWide,
            27 => InfringementType::CornerCuttingRanWideGainedTimeMinor,
            28 => InfringementType::CornerCuttingRanWideGainedTimeSignificant,
            29 => InfringementType::CornerCuttingRanWideGainedTimeExtreme,
            30 => InfringementType::LapInvalidatedWallRiding,
            31 => InfringementType::LapInvalidatedFlashbackUsed,
            32 => InfringementType::LapInvalidatedResetToTrack,
            33 => InfringementType::BlockingThePitlane,
            34 => InfringementType::JumpStart,
            35 => InfringementType::SafetyCarToCarCollision,
            36 => InfringementType::SafetyCarIllegalOvertake,
            37 => InfringementType::SafetyCarExceedingAllowedPace,
            38 => InfringementType::VirtualSafetyCarExceedingAllowedPace,
            39 => InfringementType::FormationLapBelowAllowedSpeed,
            40 => InfringementType::FormationLapParking,
            41 => InfringementType::RetiredMechanicalFailure,
            42 => InfringementType::RetiredTerminallyDamaged,
            43 => InfringementType::SafetyCarFallingTooFarBack,
            44 => InfringementType::BlackFlagTimer,
            45 => InfringementType::UnservedStopGoPenalty,
            46 => InfringementType::UnservedDriveThroughPenalty,
            47 => InfringementType::EngineComponentChange,
            48 => InfringementType::GearboxChange,
            49 => InfringementType::ParcFermeChange,
            50 => InfringementType::LeagueGridPenalty,
            51 => InfringementType::RetryPenalty,
            52 => InfringementType::IllegalTimeGain,
            53 => InfringementType::MandatoryPitstop,
            54 => InfringementType::AttributeAssigned,
            _ => InfringementType::Other(code),
        }
    }

    /// The name of the infringement, written as one word.
    pub open spec fn name_text(self) -> Seq<char> {
        match self {
            InfringementType::BlockingBySlowDriving => "BlockingBySlowDriving"@,
            InfringementType::BlockingByWrongWayDriving => "BlockingByWrongWayDriving"@,
            InfringementType::ReversingOffTheStartLine => "ReversingOffTheStartLine"@,
            InfringementType::BigCollision => "BigCollision"@,
            InfringementType::SmallCollision => "SmallCollision"@,
            InfringementType::CollisionFailedToHandBackPositionSingle => {
                "CollisionFailedToHandBackPositionSingle"@
            },
            InfringementType::CollisionFailedToHandBackPositionMultiple => {
                "CollisionFailedToHandBackPositionMultiple"@
            },
            InfringementType::CornerCuttingGainedTime => "CornerCuttingGainedTime"@,
            InfringementType::CornerCuttingOvertakeSingle => "CornerCuttingOvertakeSingle"@,
            InfringementType::CornerCuttingOvertakeMultiple => "CornerCuttingOvertakeMultiple"@,
            InfringementType::CrossedPitExitLane => "CrossedPitExitLane"@,
            InfringementType::IgnoringBlueFlags => "IgnoringBlueFlags"@,
            InfringementType::IgnoringYellowFlags => "IgnoringYellowFlags"@,
            InfringementType::IgnoringDriveThrough => "IgnoringDriveThrough"@,
            InfringementType::TooManyDriveThroughs => "TooManyDriveThroughs"@,
            InfringementType::DriveThroughReminderServeWithinNLaps => {
                "DriveThroughReminderServeWithinNLaps"@
            },
            InfringementType::DriveThroughReminderServeThisLap => {
                "DriveThroughReminderServeThisLap"@
            },
            InfringementType::PitLaneSpeeding => "PitLaneSpeeding"@,
            InfringementType::ParkedForTooLong => "ParkedForTooLong"@,
            InfringementType::IgnoringTyreRegulations => "IgnoringTyreRegulations"@,
            InfringementType::TooManyPenalties => "TooManyPenalties"@,
            InfringementType::MultipleWarnings => "MultipleWarnings"@,
            InfringementType::ApproachingDisqualification => "ApproachingDisqualification"@,
            InfringementType::TyreRegulationsSelectSingle => "TyreRegulationsSelectSingle"@,
            InfringementType::TyreRegulationsSelectMultiple => "TyreRegulationsSelectMultiple"@,
            InfringementType::LapInvalidatedCornerCutting => "LapInvalidatedCornerCutting"@,
            InfringementType::LapInvalidatedRunningWide => "LapInvalidatedRunningWide"@,
            InfringementType::CornerCuttingRanWideGainedTimeMinor => {
                "CornerCuttingRanWideGainedTimeMinor"@
            },
            InfringementType::CornerCuttingRanWideGainedTimeSignificant => {
                "CornerCuttingRanWideGainedTimeSignificant"@
            },
            InfringementType::CornerCuttingRanWideGainedTimeExtreme => {
                "CornerCuttingRanWideGainedTimeExtreme"@
            },
            InfringementType::LapInvalidatedWallRiding => "LapInvalidatedWallRiding"@,
            InfringementType::LapInvalidatedFlashbackUsed => "LapInvalidatedFlashbackUsed"@,
            InfringementType::LapInvalidatedResetToTrack => "LapInvalidatedResetToTrack"@,
            InfringementType::BlockingThePitlane => "BlockingThePitlane"@,
            InfringementType::JumpStart => "JumpStart"@,
            InfringementType::SafetyCarToCarCollision => "SafetyCarToCarCollision"@,
            InfringementType::SafetyCarIllegalOvertake => "SafetyCarIllegalOvertake"@,
            InfringementType::SafetyCarExceedingAllowedPace => "SafetyCarExceedingAllowedPace"@,
            InfringementType::VirtualSafetyCarExceedingAllowedPace => {
                "VirtualSafetyCarExceedingAllowedPace"@
            },
            InfringementType::FormationLapBelowAllowedSpeed => "FormationLapBelowAllowedSpeed"@,
            InfringementType::FormationLapParking => "FormationLapParking"@,
            InfringementType::RetiredMechanicalFailure => "RetiredMechanicalFailure"@,
            InfringementType::RetiredTerminallyDamaged => "RetiredTerminallyDamaged"@,
            InfringementType::SafetyCarFallingTooFarBack => "SafetyCarFallingTooFarBack"@,
            InfringementType::BlackFlagTimer => "BlackFlagTimer"@,
            InfringementType::UnservedStopGoPenalty => "UnservedStopGoPenalty"@,
            InfringementType::UnservedDriveThroughPenalty => "UnservedDriveThroughPenalty"@,
            InfringementType::EngineComponentChange => "EngineComponentChange"@,
            InfringementType::GearboxChange => "GearboxChange"@,
            InfringementType::ParcFermeChange => "ParcFermeChange"@,
            InfringementType::LeagueGridPenalty => "LeagueGridPenalty"@,
            InfringementType::RetryPenalty => "RetryPenalty"@,
            InfringementType::IllegalTimeGain => "IllegalTimeGain"@,
            InfringementType::MandatoryPitstop => "MandatoryPitstop"@,
            InfringementType::AttributeAssigned => "AttributeAssigned"@,
            InfringementType::Other(_) => "Other"@,
        }
    }

    /// The name of the infringement, written as one word.
    pub fn name(&self) -> (text: &'static str)
        ensures
            text@ == self.name_text(),
    {
        match self {
            InfringementType::BlockingBySlowDriving => "BlockingBySlowDriving",
            InfringementType::BlockingByWrongWayDriving => "BlockingByWrongWayDriving",
            InfringementType::ReversingOffTheStartLine => "ReversingOffTheStartLine",
            InfringementType::BigCollision => "BigCollision",
            InfringementType::SmallCollision => "SmallCollision",
            InfringementType::CollisionFailedToHandBackPositionSingle => {
                "CollisionFailedToHandBackPositionSingle"
            },
            InfringementType::CollisionFailedToHandBackPositionMultiple => {
                "CollisionFailedToHandBackPositionMultiple"
            },
            InfringementType::CornerCuttingGainedTime => "CornerCuttingGainedTime",
            InfringementType::CornerCuttingOvertakeSingle => "CornerCuttingOvertakeSingle",
            InfringementType::CornerCuttingOvertakeMultiple => "CornerCuttingOvertakeMultiple",
            InfringementType::CrossedPitExitLane => "CrossedPitExitLane",
            InfringementType::IgnoringBlueFlags => "IgnoringBlueFlags",
            InfringementType::IgnoringYellowFlags => "IgnoringYellowFlags",
            InfringementType::IgnoringDriveThrough => "IgnoringDriveThrough",
            InfringementType::TooManyDriveThroughs => "TooManyDriveThroughs",
            InfringementType::DriveThroughReminderServeWithinNLaps => {
                "DriveThroughReminderServeWithinNLaps"
            },
            InfringementType::DriveThroughReminderServeThisLap => {
                "DriveThroughReminderServeThisLap"
            },
            InfringementType::PitLaneSpeeding => "PitLaneSpeeding",
            InfringementType::ParkedForTooLong => "ParkedForTooLong",
            InfringementType::IgnoringTyreRegulations => "IgnoringTyreRegulations",
            InfringementType::TooManyPenalties => "TooManyPenalties",
            InfringementType::MultipleWarnings => "MultipleWarnings",
            InfringementType::ApproachingDisqualification => "ApproachingDisqualification",
            InfringementType::TyreRegulationsSelectSingle => "TyreRegulationsSelectSingle",
            InfringementType::TyreRegulationsSelectMultiple => "TyreRegulationsSelectMultiple",
            InfringementType::LapInvalidatedCornerCutting => "LapInvalidatedCornerCutting",
            InfringementType::LapInvalidatedRunningWide => "LapInvalidatedRunningWide",
            InfringementType::CornerCuttingRanWideGainedTimeMinor => {
                "CornerCuttingRanWideGainedTimeMinor"
            },
            InfringementType::CornerCuttingRanWideGainedTimeSignificant => {
                "CornerCuttingRanWideGainedTimeSignificant"
            },
            InfringementType::CornerCuttingRanWideGainedTimeExtreme => {
                "CornerCuttingRanWideGainedTimeExtreme"
            },
            InfringementType::LapInvalidatedWallRiding => "LapInvalidatedWallRiding",
            InfringementType::LapInvalidatedFlashbackUsed => "LapInvalidatedFlashbackUsed",
            InfringementType::LapInvalidatedResetToTrack => "LapInvalidatedResetToTrack",
            InfringementType::BlockingThePitlane => "BlockingThePitlane",
            InfringementType::JumpStart => "JumpStart",
            InfringementType::SafetyCarToCarCollision => "SafetyCarToCarCollision",
            InfringementType::SafetyCarIllegalOvertake => "SafetyCarIllegalOvertake",
            InfringementType::SafetyCarExceedingAllowedPace => "SafetyCarExceedingAllowedPace",
            InfringementType::VirtualSafetyCarExceedingAllowedPace => {
                "VirtualSafetyCarExceedingAllowedPace"
            },
            InfringementType::FormationLapBelowAllowedSpeed => "FormationLapBelowAllowedSpeed",
            InfringementType::FormationLapParking => "FormationLapParking",
            InfringementType::RetiredMechanicalFailure => "RetiredMechanicalFailure",
            InfringementType::RetiredTerminallyDamaged => "RetiredTerminallyDamaged",
            InfringementType::SafetyCarFallingTooFarBack => "SafetyCarFallingTooFarBack",
            InfringementType::BlackFlagTimer => "BlackFlagTimer",
            InfringementType::UnservedStopGoPenalty => "UnservedStopGoPenalty",
            InfringementType::UnservedDriveThroughPenalty => "UnservedDriveThroughPenalty",
            InfringementType::EngineComponentChange => "EngineComponentChange",
            InfringementType::GearboxChange => "GearboxChange",
            InfringementType::ParcFermeChange => "ParcFermeChange",
            InfringementType::LeagueGridPenalty => "LeagueGridPenalty",
            InfringementType::RetryPenalty => "RetryPenalty",
            InfringementType::IllegalTimeGain => "IllegalTimeGain",
            InfringementType::MandatoryPitstop => "MandatoryPitstop",
            InfringementType::AttributeAssigned => "AttributeAssigned",
            InfringementType::Other(_) => "Other",
        }
    }
}

impl Wire for InfringementType {
    open spec fn wire(&self) -> Seq<u8> {
        self.code().wire()
    }

    open spec fn width() -> nat {
        1
    }

    open spec fn canonical(&self) -> bool {
        match self {
            InfringementType::Other(code) => !Self::is_listed(*code),
            _ => true,
        }
    }

    proof fn lemma_wire_len(&self) {
    }

    proof fn lemma_wire_injective(&self, other: &Self) {
        self.code().lemma_wire_injective(&other.code());
    }

    fn size() -> (n: usize) {
        1
    }

    fn decode(bytes: &[u8], at: usize) -> (value: Self) {
        Self::from_u8(u8::decode(bytes, at))
    }

    fn encode(&self, out: &mut Vec<u8>) {
        self.as_u8().encode(out);
    }
}

} // verus!
