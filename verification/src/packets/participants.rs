//! The roster record.
use crate::ids::{DriverId, NationalityId, TeamId};
use crate::packets::header::PacketHeader;
use crate::wire::{
    all_canonical, decode_array, encode_all, lemma_concat_assoc, lemma_concat_cancel,
    lemma_subrange_join, lemma_wire_array_injective, lemma_wire_array_len, same_bytes, wire_all,
    Wire,
};
use crate::text::{ascii_text, is_ascii, text_until_nul, until_nul, utf8_lossy};
use vstd::prelude::*;

verus! {

/// Who drives one car.
#[derive(Clone, Copy, Debug, PartialEq, Eq)]
pub struct ParticipantData {
    /// Whether the vehicle is AI (1) or Human (0) controlled.
    pub ai_controlled: u8,
    /// `NetworkHuman` for a player in a network game.
    pub driver_id: DriverId,
    /// Network id - unique identifier for network players.
    pub network_id: u8,
    pub team_id: TeamId,
    /// My team flag - 1 = My Team, 0 = otherwise.
    pub my_team: u8,
    /// Race number of the car.
    pub race_number: u8,
    /// Nationality of the driver.
    pub nationality: NationalityId,
    /// Name of the participant in UTF-8, ended by a zero byte; cut short with an ellipsis if
    /// too long.
    pub name: [u8; 48],
    /// The player's UDP setting, 0 = restricted, 1 = public.
    pub your_telemetry: u8,
}

impl Wire for ParticipantData {
    open spec fn wire(&self) -> Seq<u8> {
        self.ai_controlled.wire() + self.driver_id.wire() + self.network_id.wire()
            + self.team_id.wire() + self.my_team.wire() + self.race_number.wire()
            + self.nationality.wire() + wire_all(self.name@) + self.your_telemetry.wire()
    }

    open spec fn width() -> nat {
        56
    }

    open spec fn canonical(&self) -> bool {
        self.driver_id.canonical() && self.team_id.canonical() && self.nationality.canonical()
    }

    proof fn lemma_wire_len(&self) {
        lemma_wire_array_len(&self.name);
    }

    proof fn lemma_wire_injective(&self, other: &Self) {
        broadcast use lemma_concat_cancel;

        assert(same_bytes(self.wire(), other.wire()));
        lemma_wire_array_len(&self.name);
        lemma_wire_array_len(&other.name);
        self.ai_controlled.lemma_wire_injective(&other.ai_controlled);
        self.driver_id.lemma_wire_injective(&other.driver_id);
        self.network_id.lemma_wire_injective(&other.network_id);
        self.team_id.lemma_wire_injective(&other.team_id);
        self.my_team.lemma_wire_injective(&other.my_team);
        self.race_number.lemma_wire_injective(&other.race_number);
        self.nationality.lemma_wire_injective(&other.nationality);
        lemma_wire_array_injective(&self.name, &other.name);
        self.your_telemetry.lemma_wire_injective(&other.your_telemetry);
    }

    fn size() -> (n: usize) {
        56
    }

    fn decode(bytes: &[u8], at: usize) -> (value: Self) {
        broadcast use lemma_subrange_join;

        let ai_controlled: u8 = u8::decode(bytes, at);
        let driver_id: DriverId = DriverId::decode(bytes, at + 1);
        let network_id: u8 = u8::decode(bytes, at + 2);
        let team_id: TeamId = TeamId::decode(bytes, at + 3);
        let my_team: u8 = u8::decode(bytes, at + 4);
        let race_number: u8 = u8::decode(bytes, at + 5);
        let nationality: NationalityId = NationalityId::decode(bytes, at + 6);
        let name: [u8; 48] = decode_array(bytes, at + 7);
        let your_telemetry: u8 = u8::decode(bytes, at + 55);
        ParticipantData {
            ai_controlled,
            driver_id,
            network_id,
            team_id,
            my_team,
            race_number,
            nationality,
            name,
            your_telemetry,
        }
    }

    fn encode(&self, out: &mut Vec<u8>) {
        broadcast use lemma_concat_assoc;

        self.ai_controlled.encode(out);
        self.driver_id.encode(out);
        self.network_id.encode(out);
        self.team_id.encode(out);
        self.my_team.encode(out);
        self.race_number.encode(out);
        self.nationality.encode(out);
        encode_all(self.name.as_slice(), out);
        self.your_telemetry.encode(out);
    }
}

/// The number of bytes the record takes, header included.
pub const PARTICIPANTS_SIZE: usize = 1257;

/// The roster: who drives each car, by slot.
#[derive(Clone, Copy, Debug, PartialEq, Eq)]
pub struct PacketParticipantsData {
    pub header: PacketHeader,
    /// Number of active cars in the data - should match number of cars on HUD.
    pub num_active_cars: u8,
    pub participants: [ParticipantData; 22],
}

impl Wire for PacketParticipantsData {
    open spec fn wire(&self) -> Seq<u8> {
        self.header.wire() + self.num_active_cars.wire() + wire_all(self.participants@)
    }

    open spec fn width() -> nat {
        1257
    }

    open spec fn canonical(&self) -> bool {
        self.header.canonical() && all_canonical(self.participants@)
    }

    proof fn lemma_wire_len(&self) {
        self.header.lemma_wire_len();
        lemma_wire_array_len(&self.participants);
    }

    proof fn lemma_wire_injective(&self, other: &Self) {
        broadcast use lemma_concat_cancel;

        assert(same_bytes(self.wire(), other.wire()));
        self.header.lemma_wire_len();
        other.header.lemma_wire_len();
        lemma_wire_array_len(&self.participants);
        lemma_wire_array_len(&other.participants);
        self.header.lemma_wire_injective(&other.header);
        self.num_active_cars.lemma_wire_injective(&other.num_active_cars);
        lemma_wire_array_injective(&self.participants, &other.participants);
    }

    fn size() -> (n: usize) {
        PARTICIPANTS_SIZE
    }

    fn decode(bytes: &[u8], at: usize) -> (value: Self) {
        broadcast use lemma_subrange_join;

        let header: PacketHeader = PacketHeader::decode(bytes, at);
        let num_active_cars: u8 = u8::decode(bytes, at + 24);
        let participants: [ParticipantData; 22] = decode_array(bytes, at + 25);
        PacketParticipantsData { header, num_active_cars, participants }
    }

    fn encode(&self, out: &mut Vec<u8>) {
        broadcast use lemma_concat_assoc;

        self.header.encode(out);
        self.num_active_cars.encode(out);
        encode_all(self.participants.as_slice(), out);
    }
}

impl ParticipantData {
    /// Whether nothing has been written to the slot: it holds what it held
    /// before any roster was seen.
    pub open spec fn is_blank(self) -> bool {
        &&& self.ai_controlled == 0
        &&& self.driver_id == DriverId::NetworkHuman
        &&& self.network_id == 0
        &&& self.team_id == TeamId::NoTeam
        &&& self.my_team == 0
        &&& self.race_number == 0
        &&& self.nationality == NationalityId::Unstated
        &&& forall|i: int| 0 <= i < 48 ==> self.name[i] == 0
        &&& self.your_telemetry == 0
    }

    /// The name of the participant: the text before the first zero byte.
    pub open spec fn name_text(self) -> Seq<char> {
        utf8_lossy(until_nul(self.name@))
    }

    /// Whether nothing has been written to the slot.
    pub fn blank(&self) -> (blank: bool)
        ensures
            blank == self.is_blank(),
    {
        let mut i: usize = 0;
        while i < 48
            invariant
                i <= 48,
                forall|k: int| 0 <= k < i ==> self.name[k] == 0,
            decreases 48 - i,
        {
            if self.name[i] != 0 {
                return false;
            }
            i += 1;
        }
        self.ai_controlled == 0 && matches!(self.driver_id, DriverId::NetworkHuman)
            && self.network_id == 0 && matches!(self.team_id, TeamId::NoTeam) && self.my_team == 0
            && self.race_number == 0 && matches!(self.nationality, NationalityId::Unstated)
            && self.your_telemetry == 0
    }

    /// The name of the participant: the text before the first zero byte.
    pub fn get_player_name(&self) -> (name: String)
        ensures
            name@ == self.name_text(),
            is_ascii(until_nul(self.name@)) ==> name@ == ascii_text(until_nul(self.name@)),
    {
        text_until_nul(self.name.as_slice())
    }
}

impl Default for ParticipantData {
    /// A slot to which nothing has been written.
    fn default() -> (slot: Self)
        ensures
            slot.is_blank(),
    {
        ParticipantData {
            ai_controlled: 0,
            driver_id: DriverId::NetworkHuman,
            network_id: 0,
            team_id: TeamId::NoTeam,
            my_team: 0,
            race_number: 0,
            nationality: NationalityId::Unstated,
            name: [0u8;48],
            your_telemetry: 0,
        }
    }
}

impl PacketParticipantsData {
    /// The entry of the car in slot `vehicle_idx`, where there is such a slot.
    pub fn get_participant(&self, vehicle_idx: u8) -> (entry: Option<&ParticipantData>)
        ensures
            vehicle_idx < 22 ==> entry == Some(&self.participants[vehicle_idx as int]),
            vehicle_idx >= 22 ==> entry is None,
    {
        if vehicle_idx < 22 {
            Some(&self.participants[vehicle_idx as usize])
        } else {
            None
        }
    }
}

} // verus!
