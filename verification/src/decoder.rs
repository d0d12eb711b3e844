//! From a datagram to a record.
//!
//! The header is probed first, for the discriminant; the whole datagram is
//! then read as the kind of record that the discriminant names. Nothing is
//! read past the end of the datagram: one that is too short for its kind is
//! refused.
use crate::ids::PacketType;
use crate::packets::classification::{PacketFinalClassificationData, FINAL_CLASSIFICATION_SIZE};
use crate::packets::damage::{PacketCarDamageData, CAR_DAMAGE_SIZE};
use crate::packets::event::{PacketEventData, EVENT_SIZE};
use crate::packets::header::{lemma_header_fields, PacketHeader, HEADER_SIZE};
use crate::packets::history::{PacketSessionHistoryData, SESSION_HISTORY_SIZE};
use crate::packets::lap::{PacketLapData, LAP_DATA_SIZE};
use crate::packets::lobby::{PacketLobbyInfoData, LOBBY_INFO_SIZE};
use crate::packets::motion::{PacketMotionData, MOTION_SIZE};
use crate::packets::packet::{record_size, TelemetryPacket};
use crate::packets::participants::{PacketParticipantsData, PARTICIPANTS_SIZE};
use crate::packets::session::{PacketSessionData, SESSION_SIZE};
use crate::packets::setups::{PacketCarSetupData, CAR_SETUPS_SIZE};
use crate::packets::status::{PacketCarStatusData, CAR_STATUS_SIZE};
use crate::packets::telemetry::{PacketCarTelemetryData, CAR_TELEMETRY_SIZE};
use crate::wire::Wire;
use vstd::prelude::*;

verus! {

/// Why a datagram gives no record.
#[derive(Clone, Copy, Debug, PartialEq, Eq, Structural)]
pub enum DecodeError {
    /// The datagram is shorter than a header.
    InsufficientData,
    /// The discriminant names none of the twelve kinds of record.
    UnknownDiscriminant,
    /// The datagram holds a header, and is shorter than a record of the kind
    /// that the header announces.
    Truncated,
}

/// The kind of record that a datagram of at least a header announces.
pub open spec fn announced_kind(datagram: Seq<u8>) -> PacketType
    recommends
        datagram.len() >= 24,
{
    PacketType::of_code(datagram[5])
}

/// Why `datagram` gives no record, or nothing where it gives one.
pub open spec fn decode_failure(datagram: Seq<u8>) -> Option<DecodeError> {
    if datagram.len() < 24 {
        Some(DecodeError::InsufficientData)
    } else {
        match record_size(announced_kind(datagram)) {
            None => Some(DecodeError::UnknownDiscriminant),
            Some(size) => if datagram.len() < size {
                Some(DecodeError::Truncated)
            } else {
                None
            },
        }
    }
}

/// That `record` is what `datagram` holds: it is of the kind the datagram
/// announces, its bytes are the datagram's, from the first to the last that a
/// record of that kind takes, and each of its fields is the value that its
/// bytes stand for.
pub open spec fn decodes_to(datagram: Seq<u8>, record: TelemetryPacket) -> bool {
    &&& datagram.len() >= 24
    &&& record.kind() == announced_kind(datagram)
    &&& record.wire().len() <= datagram.len()
    &&& record.wire() == datagram.subrange(0, record.wire().len() as int)
    &&& record.canonical()
}

/// The record that `datagram` holds, where it holds one.
pub open spec fn decoded(datagram: Seq<u8>) -> TelemetryPacket {
    choose|record: TelemetryPacket| decodes_to(datagram, record)
}

/// A datagram shorter than a header gives no record, whatever it holds: the
/// data is insufficient.
pub proof fn lemma_short_datagram_is_insufficient(datagram: Seq<u8>)
    requires
        datagram.len() < 24,
    ensures
        decode_failure(datagram) == Some(DecodeError::InsufficientData),
{
}

/// A datagram whose discriminant is none of 0 to 11 gives no record, however
/// long it is: the discriminant is unknown.
pub proof fn lemma_unlisted_discriminant_is_unknown(datagram: Seq<u8>)
    requires
        datagram.len() >= 24,
        datagram[5] > 11,
    ensures
        decode_failure(datagram) == Some(DecodeError::UnknownDiscriminant),
{
}

/// A datagram that holds a header with a known discriminant and is shorter
/// than a record of that kind gives no record: it is truncated. So is a
/// datagram of 24 bytes that announces a roster, which takes 1257.
pub proof fn lemma_short_record_is_truncated(datagram: Seq<u8>)
    requires
        datagram.len() >= 24,
        datagram[5] <= 11,
        datagram.len() < record_size(announced_kind(datagram))->0,
    ensures
        decode_failure(datagram) == Some(DecodeError::Truncated),
        record_size(PacketType::of_code(4)) == Some(1257nat),
{
}

/// A datagram gives a record exactly if it holds a header with a known
/// discriminant and is as long as a record of that kind.
pub proof fn lemma_decodable(datagram: Seq<u8>)
    ensures
        decode_failure(datagram) is None <==> {
            &&& datagram.len() >= 24
            &&& datagram[5] <= 11
            &&& datagram.len() >= record_size(announced_kind(datagram))->0
        },
{
}

/// What a datagram holds is a record whose header announces its kind, and
/// whose header is the first 24 bytes of the datagram.
pub proof fn lemma_decoded_header(datagram: Seq<u8>, record: TelemetryPacket)
    requires
        decodes_to(datagram, record),
    ensures
        record.consistent(),
        record.header_of().wire() == datagram.subrange(0, 24),
        record.header_of().canonical(),
        Some(record.wire().len()) == record_size(record.kind()),
{
    record.lemma_header_first();
    record.lemma_wire_len();
    let header = record.header_of();
    lemma_header_fields(header);
    assert(record.wire().subrange(0, 24) =~= datagram.subrange(0, 24));
    assert(header.wire()[5] == datagram.subrange(0, 24)[5]);
    assert(header.packet_id.canonical());
}

/// A datagram holds at most one record.
pub proof fn lemma_decoding_is_unique(datagram: Seq<u8>, a: TelemetryPacket, b: TelemetryPacket)
    requires
        decodes_to(datagram, a),
        decodes_to(datagram, b),
    ensures
        a == b,
{
    a.lemma_wire_len();
    b.lemma_wire_len();
    a.lemma_wire_injective(b);
}

/// Writing down what was read gives back what was read from: the bytes of a
/// decoded record are the datagram's, and the whole datagram where it is no
/// longer than the record.
pub proof fn lemma_encode_after_decode(datagram: Seq<u8>, record: TelemetryPacket)
    requires
        decodes_to(datagram, record),
    ensures
        record.wire() == datagram.subrange(0, record.wire().len() as int),
        Some(datagram.len()) == record_size(record.kind()) ==> record.wire() == datagram,
{
    record.lemma_wire_len();
    if Some(datagram.len()) == record_size(record.kind()) {
        assert(datagram.subrange(0, datagram.len() as int) =~= datagram);
    }
}

/// Reading what was written gives back what was written: the bytes of a
/// canonical record decode to that record and to no other.
pub proof fn lemma_decode_after_encode(record: TelemetryPacket, decoded: TelemetryPacket)
    requires
        record.canonical(),
        record.consistent(),
        decodes_to(record.wire(), decoded),
    ensures
        decode_failure(record.wire()) is None,
        decoded == record,
{
    record.lemma_wire_len();
    decoded.lemma_wire_len();
    record.lemma_header_first();
    lemma_header_fields(record.header_of());
    assert(record.wire().subrange(0, 24)[5] == record.wire()[5]);
    assert(record.kind() == announced_kind(record.wire()));
    assert(record.wire().subrange(0, record.wire().len() as int) =~= record.wire());
    decoded.lemma_wire_injective(record);
}

/// Probes a datagram for its header.
pub fn parse_header(datagram: &[u8]) -> (probed: Result<PacketHeader, DecodeError>)
    ensures
        match probed {
            Ok(header) => {
                &&& datagram.len() >= 24
                &&& header.wire() == datagram@.subrange(0, 24)
                &&& header.canonical()
                &&& header.packet_id == announced_kind(datagram@)
            },
            Err(error) => datagram.len() < 24 && error == DecodeError::InsufficientData,
        },
{
    if datagram.len() < HEADER_SIZE {
        return Err(DecodeError::InsufficientData);
    }
    let header: PacketHeader = PacketHeader::decode(datagram, 0);
    proof {
        lemma_header_fields(header);
        assert(datagram@.subrange(0, 24)[5] == datagram@[5]);
    }
    Ok(header)
}

/// Reads the record that a datagram holds.
///
/// A datagram longer than its record is read up to the end of the record;
/// what follows is left alone.
pub fn parse_packet(buffer: &[u8]) -> (parsed: Result<TelemetryPacket, DecodeError>)
    ensures
        match parsed {
            Ok(record) => {
                &&& decode_failure(buffer@) is None
                &&& decodes_to(buffer@, record)
                &&& record == decoded(buffer@)
                &&& record.consistent()
                &&& record.header_of().wire() == buffer@.subrange(0, 24)
            },
            Err(error) => decode_failure(buffer@) == Some(error),
        },
{
    let header: PacketHeader = match parse_header(buffer) {
        Ok(header) => header,
        Err(error) => {
            return Err(error);
        },
    };
    let length: usize = buffer.len();
    let record: TelemetryPacket = match header.packet_id {
        PacketType::Motion => {
            if length < MOTION_SIZE {
                return Err(DecodeError::Truncated);
            }
            TelemetryPacket::Motion(PacketMotionData::decode(buffer, 0))
        },
        PacketType::Session => {
            if length < SESSION_SIZE {
                return Err(DecodeError::Truncated);
            }
            TelemetryPacket::Session(PacketSessionData::decode(buffer, 0))
        },
        PacketType::LapData => {
            if length < LAP_DATA_SIZE {
                return Err(DecodeError::Truncated);
            }
            TelemetryPacket::LapData(PacketLapData::decode(buffer, 0))
        },
        PacketType::Event => {
            if length < EVENT_SIZE {
                return Err(DecodeError::Truncated);
            }
            TelemetryPacket::Event(PacketEventData::decode(buffer, 0))
        },
        PacketType::Participants => {
            if length < PARTICIPANTS_SIZE {
                return Err(DecodeError::Truncated);
            }
            TelemetryPacket::Participants(PacketParticipantsData::decode(buffer, 0))
        },
        PacketType::CarSetups => {
            if length < CAR_SETUPS_SIZE {
                return Err(DecodeError::Truncated);
            }
            TelemetryPacket::CarSetups(PacketCarSetupData::decode(buffer, 0))
        },
        PacketType::CarTelemetry => {
            if length < CAR_TELEMETRY_SIZE {
                return Err(DecodeError::Truncated);
            }
            TelemetryPacket::CarTelemetry(PacketCarTelemetryData::decode(buffer, 0))
        },
        PacketType::CarStatus => {
            if length < CAR_STATUS_SIZE {
                return Err(DecodeError::Truncated);
            }
            TelemetryPacket::CarStatus(PacketCarStatusData::decode(buffer, 0))
        },
        PacketType::FinalClassification => {
            if length < FINAL_CLASSIFICATION_SIZE {
                return Err(DecodeError::Truncated);
            }
            TelemetryPacket::FinalClassification(PacketFinalClassificationData::decode(buffer, 0))
        },
        PacketType::LobbyInfo => {
            if length < LOBBY_INFO_SIZE {
                return Err(DecodeError::Truncated);
            }
            TelemetryPacket::LobbyInfo(PacketLobbyInfoData::decode(buffer, 0))
        },
        PacketType::CarDamage => {
            if length < CAR_DAMAGE_SIZE {
                return Err(DecodeError::Truncated);
            }
            TelemetryPacket::CarDamage(PacketCarDamageData::decode(buffer, 0))
        },
        PacketType::SessionHistory => {
            if length < SESSION_HISTORY_SIZE {
                return Err(DecodeError::Truncated);
            }
            TelemetryPacket::SessionHistory(PacketSessionHistoryData::decode(buffer, 0))
        },
        PacketType::Unknown => {
            return Err(DecodeError::UnknownDiscriminant);
        },
        PacketType::Other(_) => {
            return Err(DecodeError::UnknownDiscriminant);
        },
    };
    proof {
        record.lemma_wire_len();
        lemma_decoded_header(buffer@, record);
        assert(decodes_to(buffer@, record));
        lemma_decoding_is_unique(buffer@, record, decoded(buffer@));
    }
    Ok(record)
}

} // verus!
