//! A telemetry source and the roster that is kept for it.
//!
//! The library decides; it receives nothing itself. Whoever owns the socket
//! hands over what a receive gave, as a [`Received`], and is told what to do
//! next.
use crate::decoder::{decode_failure, decoded, parse_packet};
use crate::packets::packet::TelemetryPacket;
use crate::packets::participants::{PacketParticipantsData, ParticipantData};
use socket2::Socket;
use vstd::prelude::*;

verus! {

/// A datagram socket of the `socket2` crate. The library keeps it and gives
/// it up; it never looks inside.
#[verifier::external_type_specification]
#[verifier::external_body]
pub struct ExSocket(Socket);

/// A bound address and the socket that is bound to it. Without a socket
/// there is no connection.
#[derive(Debug)]
pub struct Connection {
    pub active: bool,
    /// The address the socket is bound to, such as 127.0.0.1.
    pub address: String,
    pub port: String,
    pub socket: Option<Socket>,
}

impl Connection {
    /// The connection for a socket that was opened, if one was, and that was
    /// then bound to `address` and `port` or was not. It is active if the
    /// socket is there and is bound.
    pub fn new(address: String, port: String, socket: Option<Socket>, bound: bool) -> (connection:
        Self)
        ensures
            connection.active == (socket is Some && bound),
            connection.address == address,
            connection.port == port,
            connection.socket == socket,
    {
        let active: bool = socket.is_some() && bound;
        Connection { active, address, port, socket }
    }

    /// Whether the connection is marked active and has a socket.
    pub open spec fn is_live(self) -> bool {
        self.active && self.socket is Some
    }

    /// Whether the connection is marked active and has a socket.
    pub fn is_active(&self) -> (live: bool)
        ensures
            live == self.is_live(),
    {
        self.active && self.socket.is_some()
    }
}

impl Default for Connection {
    /// No connection: no address and no socket.
    fn default() -> (connection: Self)
        ensures
            !connection.active,
            connection.address@.len() == 0,
            connection.port@.len() == 0,
            connection.socket is None,
    {
        Connection { active: false, address: String::new(), port: String::new(), socket: None }
    }
}

/// What one attempt to receive a datagram gave.
#[derive(Debug)]
pub enum Received {
    /// The bytes of one datagram.
    Datagram(Vec<u8>),
    /// Nothing arrived in time.
    Nothing,
    /// The socket reported an error.
    Failed,
}

/// What to do after one attempt to load the roster.
#[derive(Clone, Copy, Debug, PartialEq, Eq, Structural)]
pub enum Bootstrap {
    /// No roster yet: receive again.
    Retry,
    /// The roster is loaded: stop.
    Loaded,
    /// The socket has failed: stop.
    GiveUp,
}

/// A session of the game, as far as the telemetry tells of it.
#[derive(Debug)]
pub struct Session {
    pub connection: Connection,
    pub max_packet_buffer_len: u16,
    /// The number of active cars that the roster was sent with.
    pub num_active_cars: u8,
    /// Who drives each car, by slot. A slot is blank until a roster fills it.
    pub players: [ParticipantData; 22],
}

impl Session {
    /// A session on `connection`, with a blank roster.
    pub fn new(connection: Connection) -> (session: Self)
        ensures
            session.connection == connection,
            session.max_packet_buffer_len == 250,
            session.num_active_cars == 0,
            session.has_blank_roster(),
    {
        Session {
            connection,
            max_packet_buffer_len: 250,
            num_active_cars: 0,
            players: [ParticipantData::default();22],
        }
    }

    /// Whether every slot of the roster is blank.
    pub open spec fn has_blank_roster(self) -> bool {
        forall|slot: int| 0 <= slot < 22 ==> (#[trigger] self.players[slot]).is_blank()
    }

    /// The participant in slot `vehicle_idx`: none past the last slot, and
    /// none in a blank slot.
    pub open spec fn player(self, vehicle_idx: u8) -> Option<ParticipantData> {
        if vehicle_idx < 22 && !self.players[vehicle_idx as int].is_blank() {
            Some(self.players[vehicle_idx as int])
        } else {
            None
        }
    }

    /// The name of the participant in slot `vehicle_idx`.
    pub open spec fn name_of(self, vehicle_idx: u8) -> Option<Seq<char>> {
        match self.player(vehicle_idx) {
            Some(participant) => Some(participant.name_text()),
            None => None,
        }
    }

    /// The session once its connection is dropped: inactive and without a
    /// socket, and otherwise as it was.
    pub open spec fn dropped(self) -> Session {
        Session {
            connection: Connection {
                active: false,
                address: self.connection.address,
                port: self.connection.port,
                socket: None,
            },
            max_packet_buffer_len: self.max_packet_buffer_len,
            num_active_cars: self.num_active_cars,
            players: self.players,
        }
    }

    /// The session with the roster of `snapshot` in place of its own.
    pub open spec fn with_roster(self, snapshot: PacketParticipantsData) -> Session {
        Session {
            connection: self.connection,
            max_packet_buffer_len: self.max_packet_buffer_len,
            num_active_cars: snapshot.num_active_cars,
            players: snapshot.participants,
        }
    }

    /// The session after it has seen `record` go by: a roster with another
    /// number of active cars than the one it holds replaces the one it holds;
    /// nothing else changes it.
    pub open spec fn having_seen(self, record: TelemetryPacket) -> Session {
        match record {
            TelemetryPacket::Participants(snapshot) => if snapshot.num_active_cars
                != self.num_active_cars {
                self.with_roster(snapshot)
            } else {
                self
            },
            _ => self,
        }
    }

    /// Marks the connection inactive and gives up the socket. On a session
    /// that is already dropped this changes nothing.
    pub fn drop_connection(&mut self)
        ensures
            *final(self) == old(self).dropped(),
            !final(self).connection.is_live(),
    {
        self.connection.active = false;
        self.connection.socket = None;
    }

    /// Whether the session has a live connection.
    pub fn connected(&self) -> (live: bool)
        ensures
            live == self.connection.is_live(),
    {
        self.connection.is_active()
    }

    /// The participant in slot `plr_vehicle_idx`: none past the last slot,
    /// and none in a slot that no roster has filled.
    pub fn get_player(&self, plr_vehicle_idx: u8) -> (found: Option<&ParticipantData>)
        ensures
            match found {
                Some(participant) => self.player(plr_vehicle_idx) == Some(*participant),
                None => self.player(plr_vehicle_idx) is None,
            },
    {
        if plr_vehicle_idx >= 22 {
            return None;
        }
        let slot: &ParticipantData = &self.players[plr_vehicle_idx as usize];
        if slot.blank() {
            None
        } else {
            Some(slot)
        }
    }

    /// Puts the roster of `snapshot` in place of the one held.
    pub fn replace_roster(&mut self, snapshot: &PacketParticipantsData)
        ensures
            *final(self) == old(self).with_roster(*snapshot),
    {
        self.players = snapshot.participants;
        self.num_active_cars = snapshot.num_active_cars;
    }

    /// Takes note of a record that has gone by.
    pub fn observe(&mut self, record: &TelemetryPacket)
        ensures
            *final(self) == old(self).having_seen(*record),
    {
        if let TelemetryPacket::Participants(snapshot) = record {
            if snapshot.num_active_cars != self.num_active_cars {
                self.replace_roster(snapshot);
            }
        }
    }

    /// The record that the last receive gave: none without a socket, none
    /// where nothing was received, and none where what was received holds no
    /// record.
    pub fn get_latest_packet(&self, received: &Received) -> (latest: Option<TelemetryPacket>)
        ensures
            latest == self.latest(*received),
    {
        if self.connection.socket.is_none() {
            return None;
        }
        match received {
            Received::Datagram(bytes) => match parse_packet(bytes.as_slice()) {
                Ok(record) => Some(record),
                Err(_) => None,
            },
            _ => None,
        }
    }

    /// The record that a receive gave, as [`Session::get_latest_packet`]
    /// finds it.
    pub open spec fn latest(self, received: Received) -> Option<TelemetryPacket> {
        match received {
            Received::Datagram(bytes) => if self.connection.socket is Some && decode_failure(
                bytes@,
            ) is None {
                Some(decoded(bytes@))
            } else {
                None
            },
            _ => None,
        }
    }

    /// One turn of loading the roster. The first roster that arrives is taken
    /// and ends the loading; any other datagram, and a receive that gave
    /// nothing, asks for another turn; a failed receive ends the loading with
    /// the roster as it was.
    pub fn bootstrap_step(&mut self, received: &Received) -> (next: Bootstrap)
        ensures
            match *received {
                Received::Datagram(bytes) => if decode_failure(bytes@) is None && decoded(
                    bytes@,
                ) is Participants {
                    &&& next == Bootstrap::Loaded
                    &&& *final(self) == old(self).with_roster(decoded(bytes@)->Participants_0)
                } else {
                    next == Bootstrap::Retry && *final(self) == *old(self)
                },
                Received::Nothing => next == Bootstrap::Retry && *final(self) == *old(self),
                Received::Failed => next == Bootstrap::GiveUp && *final(self) == *old(self),
            },
    {
        match received {
            Received::Datagram(bytes) => match parse_packet(bytes.as_slice()) {
                Ok(TelemetryPacket::Participants(snapshot)) => {
                    self.replace_roster(&snapshot);
                    Bootstrap::Loaded
                },
                _ => Bootstrap::Retry,
            },
            Received::Nothing => Bootstrap::Retry,
            Received::Failed => Bootstrap::GiveUp,
        }
    }
}

impl Default for Session {
    /// A session without a connection, with a blank roster.
    fn default() -> (session: Self)
        ensures
            !session.connection.is_live(),
            session.connection.socket is None,
            session.max_packet_buffer_len == 0,
            session.num_active_cars == 0,
            session.has_blank_roster(),
    {
        Session {
            connection: Connection::default(),
            max_packet_buffer_len: 0,
            num_active_cars: 0,
            players: [ParticipantData::default();22],
        }
    }
}

/// In a session that has seen no roster, no slot holds a participant: not
/// the 22 slots there are, and not a slot past them.
pub proof fn lemma_blank_roster_holds_nobody(session: Session, vehicle_idx: u8)
    requires
        session.has_blank_roster(),
    ensures
        session.player(vehicle_idx) is None,
        session.name_of(vehicle_idx) is None,
{
    if vehicle_idx < 22 {
        assert(session.players[vehicle_idx as int].is_blank());
    }
}

/// Dropping the connection leaves the session without a live connection,
/// and dropping it again changes nothing more.
pub proof fn lemma_drop_is_idempotent(session: Session)
    ensures
        !session.dropped().connection.is_live(),
        session.dropped().dropped() == session.dropped(),
{
}

} // verus!
