//! The header that opens every datagram.
use crate::ids::PacketType;
use crate::wire::{
    group_integer_widths, lemma_concat_assoc, lemma_concat_cancel, lemma_subrange_join,
    lemma_u16_value, lemma_u32_value, lemma_u64_value, same_bytes, u16_value, u32_value,
    u64_value, Float32, Wire,
};
use vstd::prelude::*;

verus! {

/// The number of bytes the header takes.
pub const HEADER_SIZE: usize = 24;

/// What every datagram starts with.
#[derive(Clone, Copy, Debug, PartialEq, Eq)]
pub struct PacketHeader {
    /// The year of the protocol, such as 2022.
    pub packet_format: u16,
    pub game_major_version: u8,
    pub game_minor_version: u8,
    /// The version of this kind of record; each kind starts at 1.
    pub packet_version: u8,
    /// Which of the record kinds follows.
    pub packet_id: PacketType,
    /// The session the datagram belongs to.
    pub session_uid: u64,
    /// Seconds since the session began.
    pub session_time: Float32,
    /// The frame the data was taken in.
    pub frame_identifier: u32,
    /// The slot of the player's car.
    pub player_car_index: u8,
    /// The slot of the second player's car in split screen, 255 without one.
    pub secondary_player_car_index: u8,
}

impl Wire for PacketHeader {
    open spec fn wire(&self) -> Seq<u8> {
        self.packet_format.wire() + self.game_major_version.wire()
            + self.game_minor_version.wire() + self.packet_version.wire() + self.packet_id.wire()
            + self.session_uid.wire() + self.session_time.wire() + self.frame_identifier.wire()
            + self.player_car_index.wire() + self.secondary_player_car_index.wire()
    }

    open spec fn width() -> nat {
        24
    }

    open spec fn canonical(&self) -> bool {
        self.packet_id.canonical()
    }

    proof fn lemma_wire_len(&self) {
        broadcast use group_integer_widths;
    }

    proof fn lemma_wire_injective(&self, other: &Self) {
        broadcast use {lemma_concat_cancel, group_integer_widths};

        assert(same_bytes(self.wire(), other.wire()));
        self.packet_format.lemma_wire_injective(&other.packet_format);
        self.game_major_version.lemma_wire_injective(&other.game_major_version);
        self.game_minor_version.lemma_wire_injective(&other.game_minor_version);
        self.packet_version.lemma_wire_injective(&other.packet_version);
        self.packet_id.lemma_wire_injective(&other.packet_id);
        self.session_uid.lemma_wire_injective(&other.session_uid);
        self.session_time.lemma_wire_injective(&other.session_time);
        self.frame_identifier.lemma_wire_injective(&other.frame_identifier);
        self.player_car_index.lemma_wire_injective(&other.player_car_index);
        self.secondary_player_car_index.lemma_wire_injective(&other.secondary_player_car_index);
    }

    fn size() -> (n: usize) {
        HEADER_SIZE
    }

    fn decode(bytes: &[u8], at: usize) -> (value: Self) {
        broadcast use lemma_subrange_join;

        let packet_format: u16 = u16::decode(bytes, at);
        let game_major_version: u8 = u8::decode(bytes, at + 2);
        let game_minor_version: u8 = u8::decode(bytes, at + 3);
        let packet_version: u8 = u8::decode(bytes, at + 4);
        let packet_id: PacketType = PacketType::decode(bytes, at + 5);
        let session_uid: u64 = u64::decode(bytes, at + 6);
        let session_time: Float32 = Float32::decode(bytes, at + 14);
        let frame_identifier: u32 = u32::decode(bytes, at + 18);
        let player_car_index: u8 = u8::decode(bytes, at + 22);
        let secondary_player_car_index: u8 = u8::decode(bytes, at + 23);
        PacketHeader {
            packet_format,
            game_major_version,
            game_minor_version,
            packet_version,
            packet_id,
            session_uid,
            session_time,
            frame_identifier,
            player_car_index,
            secondary_player_car_index,
        }
    }

    fn encode(&self, out: &mut Vec<u8>) {
        broadcast use lemma_concat_assoc;

        self.packet_format.encode(out);
        self.game_major_version.encode(out);
        self.game_minor_version.encode(out);
        self.packet_version.encode(out);
        self.packet_id.encode(out);
        self.session_uid.encode(out);
        self.session_time.encode(out);
        self.frame_identifier.encode(out);
        self.player_car_index.encode(out);
        self.secondary_player_car_index.encode(out);
    }
}

/// The fields of a header are the numbers that its 24 bytes stand for, each
/// in its place: nothing is changed on the way from the bytes to the fields.
pub proof fn lemma_header_fields(header: PacketHeader)
    ensures
        header.wire().len() == 24,
        header.packet_format == u16_value(header.wire().subrange(0, 2)),
        header.game_major_version == header.wire()[2],
        header.game_minor_version == header.wire()[3],
        header.packet_version == header.wire()[4],
        header.packet_id.code() == header.wire()[5],
        header.session_uid == u64_value(header.wire().subrange(6, 14)),
        header.session_time.bits == u32_value(header.wire().subrange(14, 18)),
        header.frame_identifier == u32_value(header.wire().subrange(18, 22)),
        header.player_car_index == header.wire()[22],
        header.secondary_player_car_index == header.wire()[23],
{
    broadcast use group_integer_widths;

    let bytes = header.wire();
    lemma_u16_value(header.packet_format);
    lemma_u64_value(header.session_uid);
    lemma_u32_value(header.session_time.bits);
    lemma_u32_value(header.frame_identifier);
    assert(bytes.subrange(0, 2) =~= header.packet_format.wire());
    assert(bytes[2] == header.game_major_version.wire()[0]);
    assert(bytes[3] == header.game_minor_version.wire()[0]);
    assert(bytes[4] == header.packet_version.wire()[0]);
    assert(bytes[5] == header.packet_id.wire()[0]);
    assert(bytes.subrange(6, 14) =~= header.session_uid.wire());
    assert(bytes.subrange(14, 18) =~= header.session_time.wire());
    assert(bytes.subrange(18, 22) =~= header.frame_identifier.wire());
    assert(bytes[22] == header.player_car_index.wire()[0]);
    assert(bytes[23] == header.secondary_player_car_index.wire()[0]);
}

} // verus!
