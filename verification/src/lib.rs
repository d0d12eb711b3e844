//! Telemetry of a racing simulation: its datagrams turned into typed records,
//! and the roster of a session kept so that events can be told by name.
//!
//! [`decoder::parse_packet`] reads a datagram as one of the twelve kinds of
//! record in [`packets`]; [`wire`] holds the byte layout that every record is
//! read and written by. A [`session::Session`] keeps the roster, an event
//! record says what has happened through
//! [`PacketEventData::event_message`], and [`dispatch::dispatch_step`] is one
//! turn of the cycle that takes datagrams in and hands rows on.
//!
//! The library receives nothing and prints no floating-point number: the
//! socket is its caller's, and a number that is sent as floating point is
//! kept as its bits.
pub mod decoder;
pub mod dispatch;
pub mod ids;
pub mod message;
pub mod packets;
pub mod session;
pub mod text;
pub mod wire;

pub use decoder::{parse_header, parse_packet, DecodeError};
pub use packets::{
    PacketEventData, PacketHeader, PacketParticipantsData, ParticipantData, TelemetryPacket,
    HEADER_SIZE,
};
pub use session::{Connection, Session};
