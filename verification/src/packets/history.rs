//! The session history record.
use crate::packets::header::PacketHeader;
use crate::wire::{
    decode_array, encode_all, group_integer_widths, lemma_concat_assoc, lemma_concat_cancel,
    lemma_subrange_join, lemma_wire_array_injective, lemma_wire_array_len, same_bytes, wire_all,
    Wire,
};
use vstd::prelude::*;

verus! {

/// The times of one lap that a car has driven.
#[derive(Clone, Copy, Debug, PartialEq, Eq)]
pub struct LapHistoryData {
    /// Lap time in milliseconds.
    pub lap_time_in_ms: u32,
    /// Sector 1 time in milliseconds.
    pub sector1_time_in_ms: u16,
    /// Sector 2 time in milliseconds.
    pub sector2_time_in_ms: u16,
    /// Sector 3 time in milliseconds.
    pub sector3_time_in_ms: u16,
    /// Bit 1 set: lap valid; bit 2: sector 1 valid; bit 4: sector 2 valid; bit 8: sector 3
    /// valid.
    pub lap_valid_bit_flags: u8,
}

impl Wire for LapHistoryData {
    open spec fn wire(&self) -> Seq<u8> {
        self.lap_time_in_ms.wire() + self.sector1_time_in_ms.wire() + self.sector2_time_in_ms.wire()
            + self.sector3_time_in_ms.wire() + self.lap_valid_bit_flags.wire()
    }

    open spec fn width() -> nat {
        11
    }

    open spec fn canonical(&self) -> bool {
        true
    }

    proof fn lemma_wire_len(&self) {
        broadcast use group_integer_widths;
    }

    proof fn lemma_wire_injective(&self, other: &Self) {
        broadcast use {lemma_concat_cancel, group_integer_widths};

        assert(same_bytes(self.wire(), other.wire()));
        self.lap_time_in_ms.lemma_wire_injective(&other.lap_time_in_ms);
        self.sector1_time_in_ms.lemma_wire_injective(&other.sector1_time_in_ms);
        self.sector2_time_in_ms.lemma_wire_injective(&other.sector2_time_in_ms);
        self.sector3_time_in_ms.lemma_wire_injective(&other.sector3_time_in_ms);
        self.lap_valid_bit_flags.lemma_wire_injective(&other.lap_valid_bit_flags);
    }

    fn size() -> (n: usize) {
        11
    }

    fn decode(bytes: &[u8], at: usize) -> (value: Self) {
        broadcast use lemma_subrange_join;

        let lap_time_in_ms: u32 = u32::decode(bytes, at);
        let sector1_time_in_ms: u16 = u16::decode(bytes, at + 4);
        let sector2_time_in_ms: u16 = u16::decode(bytes, at + 6);
        let sector3_time_in_ms: u16 = u16::decode(bytes, at + 8);
        let lap_valid_bit_flags: u8 = u8::decode(bytes, at + 10);
        LapHistoryData {
            lap_time_in_ms,
            sector1_time_in_ms,
            sector2_time_in_ms,
            sector3_time_in_ms,
            lap_valid_bit_flags,
        }
    }

    fn encode(&self, out: &mut Vec<u8>) {
        broadcast use lemma_concat_assoc;

        self.lap_time_in_ms.encode(out);
        self.sector1_time_in_ms.encode(out);
        self.sector2_time_in_ms.encode(out);
        self.sector3_time_in_ms.encode(out);
        self.lap_valid_bit_flags.encode(out);
    }
}

/// One stint on one set of tyres.
#[derive(Clone, Copy, Debug, PartialEq, Eq)]
pub struct TyreStintHistoryData {
    /// Lap the tyre usage ends on (255 of current tyre).
    pub end_lap: u8,
    /// Actual tyres used by this driver.
    pub tyre_actual_compound: u8,
    /// Visual tyres used by this driver.
    pub tyre_visual_compound: u8,
}

impl Wire for TyreStintHistoryData {
    open spec fn wire(&self) -> Seq<u8> {
        self.end_lap.wire() + self.tyre_actual_compound.wire() + self.tyre_visual_compound.wire()
    }

    open spec fn width() -> nat {
        3
    }

    open spec fn canonical(&self) -> bool {
        true
    }

    proof fn lemma_wire_len(&self) {
    }

    proof fn lemma_wire_injective(&self, other: &Self) {
        broadcast use lemma_concat_cancel;

        assert(same_bytes(self.wire(), other.wire()));
        self.end_lap.lemma_wire_injective(&other.end_lap);
        self.tyre_actual_compound.lemma_wire_injective(&other.tyre_actual_compound);
        self.tyre_visual_compound.lemma_wire_injective(&other.tyre_visual_compound);
    }

    fn size() -> (n: usize) {
        3
    }

    fn decode(bytes: &[u8], at: usize) -> (value: Self) {
        broadcast use lemma_subrange_join;

        let end_lap: u8 = u8::decode(bytes, at);
        let tyre_actual_compound: u8 = u8::decode(bytes, at + 1);
        let tyre_visual_compound: u8 = u8::decode(bytes, at + 2);
        TyreStintHistoryData { end_lap, tyre_actual_compound, tyre_visual_compound }
    }

    fn encode(&self, out: &mut Vec<u8>) {
        broadcast use lemma_concat_assoc;

        self.end_lap.encode(out);
        self.tyre_actual_compound.encode(out);
        self.tyre_visual_compound.encode(out);
    }
}

/// The number of bytes the record takes, header included.
pub const SESSION_HISTORY_SIZE: usize = 1155;

/// The laps and tyre stints of one car; the cars take turns, one per datagram.
#[derive(Clone, Copy, Debug, PartialEq, Eq)]
pub struct PacketSessionHistoryData {
    pub header: PacketHeader,
    /// Index of the car this lap data relates to.
    pub car_idx: u8,
    /// Num laps in the data (including current partial lap).
    pub num_laps: u8,
    /// Number of tyre stints in the data.
    pub num_tyre_stints: u8,
    /// Lap the best lap time was achieved on.
    pub best_lap_time_lap_num: u8,
    /// Lap the best Sector 1 time was achieved on.
    pub best_sector1_lap_num: u8,
    /// Lap the best Sector 2 time was achieved on.
    pub best_sector2_lap_num: u8,
    /// Lap the best Sector 3 time was achieved on.
    pub best_sector3_lap_num: u8,
    /// 100 laps of data max.
    pub lap_history_data: [LapHistoryData; 100],
    pub tyre_stints_history_data: [TyreStintHistoryData; 8],
}

impl Wire for PacketSessionHistoryData {
    open spec fn wire(&self) -> Seq<u8> {
        self.header.wire() + self.car_idx.wire() + self.num_laps.wire()
            + self.num_tyre_stints.wire() + self.best_lap_time_lap_num.wire()
            + self.best_sector1_lap_num.wire() + self.best_sector2_lap_num.wire()
            + self.best_sector3_lap_num.wire() + wire_all(self.lap_history_data@)
            + wire_all(self.tyre_stints_history_data@)
    }

    open spec fn width() -> nat {
        1155
    }

    open spec fn canonical(&self) -> bool {
        self.header.canonical()
    }

    proof fn lemma_wire_len(&self) {
        self.header.lemma_wire_len();
        lemma_wire_array_len(&self.lap_history_data);
        lemma_wire_array_len(&self.tyre_stints_history_data);
    }

    proof fn lemma_wire_injective(&self, other: &Self) {
        broadcast use lemma_concat_cancel;

        assert(same_bytes(self.wire(), other.wire()));
        self.header.lemma_wire_len();
        other.header.lemma_wire_len();
        lemma_wire_array_len(&self.lap_history_data);
        lemma_wire_array_len(&other.lap_history_data);
        lemma_wire_array_len(&self.tyre_stints_history_data);
        lemma_wire_array_len(&other.tyre_stints_history_data);
        self.header.lemma_wire_injective(&other.header);
        self.car_idx.lemma_wire_injective(&other.car_idx);
        self.num_laps.lemma_wire_injective(&other.num_laps);
        self.num_tyre_stints.lemma_wire_injective(&other.num_tyre_stints);
        self.best_lap_time_lap_num.lemma_wire_injective(&other.best_lap_time_lap_num);
        self.best_sector1_lap_num.lemma_wire_injective(&other.best_sector1_lap_num);
        self.best_sector2_lap_num.lemma_wire_injective(&other.best_sector2_lap_num);
        self.best_sector3_lap_num.lemma_wire_injective(&other.best_sector3_lap_num);
        lemma_wire_array_injective(&self.lap_history_data, &other.lap_history_data);
        lemma_wire_array_injective(&self.tyre_stints_history_data, &other.tyre_stints_history_data);
    }

    fn size() -> (n: usize) {
        SESSION_HISTORY_SIZE
    }

    fn decode(bytes: &[u8], at: usize) -> (value: Self) {
        broadcast use lemma_subrange_join;

        let header: PacketHeader = PacketHeader::decode(bytes, at);
        let car_idx: u8 = u8::decode(bytes, at + 24);
        let num_laps: u8 = u8::decode(bytes, at + 25);
        let num_tyre_stints: u8 = u8::decode(bytes, at + 26);
        let best_lap_time_lap_num: u8 = u8::decode(bytes, at + 27);
        let best_sector1_lap_num: u8 = u8::decode(bytes, at + 28);
        let best_sector2_lap_num: u8 = u8::decode(bytes, at + 29);
        let best_sector3_lap_num: u8 = u8::decode(bytes, at + 30);
        let lap_history_data: [LapHistoryData; 100] = decode_array(bytes, at + 31);
        let tyre_stints_history_data: [TyreStintHistoryData; 8] = decode_array(bytes, at + 1131);
        PacketSessionHistoryData {
            header,
            car_idx,
            num_laps,
            num_tyre_stints,
            best_lap_time_lap_num,
            best_sector1_lap_num,
            best_sector2_lap_num,
            best_sector3_lap_num,
            lap_history_data,
            tyre_stints_history_data,
        }
    }

    fn encode(&self, out: &mut Vec<u8>) {
        broadcast use lemma_concat_assoc;

        self.header.encode(out);
        self.car_idx.encode(out);
        self.num_laps.encode(out);
        self.num_tyre_stints.encode(out);
        self.best_lap_time_lap_num.encode(out);
        self.best_sector1_lap_num.encode(out);
        self.best_sector2_lap_num.encode(out);
        self.best_sector3_lap_num.encode(out);
        encode_all(self.lap_history_data.as_slice(), out);
        encode_all(self.tyre_stints_history_data.as_slice(), out);
    }
}

} // verus!
