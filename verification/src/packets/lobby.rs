//! The lobby record.
use crate::ids::{NationalityId, TeamId};
use crate::packets::header::PacketHeader;
use crate::wire::{
    all_canonical, decode_array, encode_all, lemma_concat_assoc, lemma_concat_cancel,
    lemma_subrange_join, lemma_wire_array_injective, lemma_wire_array_len, same_bytes, wire_all,
    Wire,
};
use vstd::prelude::*;

verus! {

/// One player waiting in a network lobby.
#[derive(Clone, Copy, Debug, PartialEq, Eq)]
pub struct LobbyInfoData {
    /// Whether the vehicle is AI (1) or Human (0) controlled.
    pub ai_controlled: u8,
    /// `NoTeam` while no team is selected.
    pub team_id: TeamId,
    /// Nationality of the driver.
    pub nationality: NationalityId,
    /// Name of the participant in UTF-8, ended by a zero byte; cut short with an ellipsis if
    /// too long.
    pub name: [u8; 48],
    /// Car number of the player.
    pub car_number: u8,
    /// 0 = not ready, 1 = ready, 2 = spectating.
    pub ready_status: u8,
}

impl Wire for LobbyInfoData {
    open spec fn wire(&self) -> Seq<u8> {
        self.ai_controlled.wire() + self.team_id.wire() + self.nationality.wire()
            + wire_all(self.name@) + self.car_number.wire() + self.ready_status.wire()
    }

    open spec fn width() -> nat {
        53
    }

    open spec fn canonical(&self) -> bool {
        self.team_id.canonical() && self.nationality.canonical()
    }

    proof fn lemma_wire_len(&self) {
        lemma_wire_array_len(&self.name);
    }

    proof fn lemma_wire_injective(&self, other: &Self) {
        broadcast use lemma_concat_cancel;

        assert(same_bytes(self.wire(), other.wire()));
        lemma_wire_array_len(&self.name);
        lemma_wire_array_len(&other.name);
        self.ai_controlled.lemma_wire_injective(&other.ai_controlled);
        self.team_id.lemma_wire_injective(&other.team_id);
        self.nationality.lemma_wire_injective(&other.nationality);
        lemma_wire_array_injective(&self.name, &other.name);
        self.car_number.lemma_wire_injective(&other.car_number);
        self.ready_status.lemma_wire_injective(&other.ready_status);
    }

    fn size() -> (n: usize) {
        53
    }

    fn decode(bytes: &[u8], at: usize) -> (value: Self) {
        broadcast use lemma_subrange_join;

        let ai_controlled: u8 = u8::decode(bytes, at);
        let team_id: TeamId = TeamId::decode(bytes, at + 1);
        let nationality: NationalityId = NationalityId::decode(bytes, at + 2);
        let name: [u8; 48] = decode_array(bytes, at + 3);
        let car_number: u8 = u8::decode(bytes, at + 51);
        let ready_status: u8 = u8::decode(bytes, at + 52);
        LobbyInfoData {
            ai_controlled,
            team_id,
            nationality,
            name,
            car_number,
            ready_status,
        }
    }

    fn encode(&self, out: &mut Vec<u8>) {
        broadcast use lemma_concat_assoc;

        self.ai_controlled.encode(out);
        self.team_id.encode(out);
        self.nationality.encode(out);
        encode_all(self.name.as_slice(), out);
        self.car_number.encode(out);
        self.ready_status.encode(out);
    }
}

/// The number of bytes the record takes, header included.
pub const LOBBY_INFO_SIZE: usize = 1191;

/// The players waiting in a network lobby.
#[derive(Clone, Copy, Debug, PartialEq, Eq)]
pub struct PacketLobbyInfoData {
    /// Packet specific data.
    pub header: PacketHeader,
    /// Number of players in the lobby data.
    pub num_players: u8,
    pub lobby_players: [LobbyInfoData; 22],
}

impl Wire for PacketLobbyInfoData {
    open spec fn wire(&self) -> Seq<u8> {
        self.header.wire() + self.num_players.wire() + wire_all(self.lobby_players@)
    }

    open spec fn width() -> nat {
        1191
    }

    open spec fn canonical(&self) -> bool {
        self.header.canonical() && all_canonical(self.lobby_players@)
    }

    proof fn lemma_wire_len(&self) {
        self.header.lemma_wire_len();
        lemma_wire_array_len(&self.lobby_players);
    }

    proof fn lemma_wire_injective(&self, other: &Self) {
        broadcast use lemma_concat_cancel;

        assert(same_bytes(self.wire(), other.wire()));
        self.header.lemma_wire_len();
        other.header.lemma_wire_len();
        lemma_wire_array_len(&self.lobby_players);
        lemma_wire_array_len(&other.lobby_players);
        self.header.lemma_wire_injective(&other.header);
        self.num_players.lemma_wire_injective(&other.num_players);
        lemma_wire_array_injective(&self.lobby_players, &other.lobby_players);
    }

    fn size() -> (n: usize) {
        LOBBY_INFO_SIZE
    }

    fn decode(bytes: &[u8], at: usize) -> (value: Self) {
        broadcast use lemma_subrange_join;

        let header: PacketHeader = PacketHeader::decode(bytes, at);
        let num_players: u8 = u8::decode(bytes, at + 24);
        let lobby_players: [LobbyInfoData; 22] = decode_array(bytes, at + 25);
        PacketLobbyInfoData { header, num_players, lobby_players }
    }

    fn encode(&self, out: &mut Vec<u8>) {
        broadcast use lemma_concat_assoc;

        self.header.encode(out);
        self.num_players.encode(out);
        encode_all(self.lobby_players.as_slice(), out);
    }
}

} // verus!
