//! The records of the protocol.
pub mod classification;
pub mod damage;
pub mod event;
pub mod event_details;
pub mod header;
pub mod history;
pub mod lap;
pub mod lobby;
pub mod motion;
pub mod packet;
pub mod participants;
pub mod session;
pub mod setups;
pub mod status;
pub mod telemetry;

pub use classification::{
    FinalClassificationData, PacketFinalClassificationData, FINAL_CLASSIFICATION_SIZE,
};
pub use damage::{CarDamageData, PacketCarDamageData, CAR_DAMAGE_SIZE};
pub use event::{PacketEventData, EVENT_SIZE};
pub use event_details::{
    Buttons, DriveThroughPenaltyServed, EventDataDetails, FastestLap, Flashback, Penalty,
    RaceWinner, Retirement, SpeedTrap, StartLights, StopGoPenaltyServed, TeamMateInPits,
};
pub use header::{lemma_header_fields, PacketHeader, HEADER_SIZE};
pub use history::{
    LapHistoryData, PacketSessionHistoryData, TyreStintHistoryData, SESSION_HISTORY_SIZE,
};
pub use lap::{LapData, PacketLapData, LAP_DATA_SIZE};
pub use lobby::{LobbyInfoData, PacketLobbyInfoData, LOBBY_INFO_SIZE};
pub use motion::{CarMotionData, PacketMotionData, MOTION_SIZE};
pub use packet::{record_size, TelemetryPacket};
pub use participants::{PacketParticipantsData, ParticipantData, PARTICIPANTS_SIZE};
pub use session::{MarshalZone, PacketSessionData, WeatherForecastSample, SESSION_SIZE};
pub use setups::{CarSetupData, PacketCarSetupData, CAR_SETUPS_SIZE};
pub use status::{CarStatusData, PacketCarStatusData, CAR_STATUS_SIZE};
pub use telemetry::{CarTelemetryData, PacketCarTelemetryData, CAR_TELEMETRY_SIZE};
