//! The enumerations that the protocol's records are made of.
mod button;
mod driver;
mod event;
mod nationality;
mod packet_type;
mod penalty;
mod session;
mod surface;
mod team;
mod track;

pub use button::ButtonFlag;
pub use driver::DriverId;
pub use event::{Event, EventId};
pub use nationality::NationalityId;
pub use packet_type::PacketType;
pub use penalty::{InfringementType, PenaltyType};
pub use session::{FormulaType, GameModeId, RulesetId, SessionLength, SessionType, WeatherType};
pub use surface::SurfaceType;
pub use team::TeamId;
pub use track::TrackId;
