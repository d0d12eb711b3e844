//! The final classification record.
use crate::packets::header::PacketHeader;
use crate::wire::{
    decode_array, encode_all, group_integer_widths, lemma_concat_assoc, lemma_concat_cancel,
    lemma_subrange_join, lemma_wire_array_injective, lemma_wire_array_len, same_bytes, wire_all,
    Float64, Wire,
};
use vstd::prelude::*;

verus! {

/// The result of one car at the end of the race.
#[derive(Clone, Copy, Debug, PartialEq, Eq)]
pub struct FinalClassificationData {
    /// Finishing position.
    pub position: u8,
    /// Number of laps completed.
    pub num_laps: u8,
    /// Grid position of the car.
    pub grid_position: u8,
    /// Number of points scored.
    pub points: u8,
    /// Number of pit stops made.
    pub num_pit_stops: u8,
    /// Result status - 0 = invalid, 1 = inactive, 2 = active, 3 = finished, 4 = didnotfinish, 5
    /// = disqualified, 6 = not classified, 7 = retired.
    pub result_status: u8,
    /// Best lap time of the session in milliseconds.
    pub best_lap_time_in_ms: u32,
    /// Total race time in seconds without penalties.
    pub total_race_time: Float64,
    /// Total penalties accumulated in seconds.
    pub penalties_time: u8,
    /// Number of penalties applied to this driver.
    pub num_penalties: u8,
    /// Number of tyres stints up to maximum.
    pub num_tyre_stints: u8,
    /// Actual tyres used by this driver.
    pub tyre_stints_actual: [u8; 8],
    /// Visual tyres used by this driver.
    pub tyre_stints_visual: [u8; 8],
    /// The lap number stints end on.
    pub tyre_stints_end_laps: [u8; 8],
}

impl Wire for FinalClassificationData {
    open spec fn wire(&self) -> Seq<u8> {
        self.position.wire() + self.num_laps.wire() + self.grid_position.wire() + self.points.wire()
            + self.num_pit_stops.wire() + self.result_status.wire()
            + self.best_lap_time_in_ms.wire() + self.total_race_time.wire()
            + self.penalties_time.wire() + self.num_penalties.wire() + self.num_tyre_stints.wire()
            + wire_all(self.tyre_stints_actual@) + wire_all(self.tyre_stints_visual@)
            + wire_all(self.tyre_stints_end_laps@)
    }

    open spec fn width() -> nat {
        45
    }

    open spec fn canonical(&self) -> bool {
        true
    }

    proof fn lemma_wire_len(&self) {
        broadcast use group_integer_widths;

        lemma_wire_array_len(&self.tyre_stints_actual);
        lemma_wire_array_len(&self.tyre_stints_visual);
        lemma_wire_array_len(&self.tyre_stints_end_laps);
    }

    proof fn lemma_wire_injective(&self, other: &Self) {
        broadcast use {lemma_concat_cancel, group_integer_widths};

        assert(same_bytes(self.wire(), other.wire()));
        lemma_wire_array_len(&self.tyre_stints_actual);
        lemma_wire_array_len(&other.tyre_stints_actual);
        lemma_wire_array_len(&self.tyre_stints_visual);
        lemma_wire_array_len(&other.tyre_stints_visual);
        lemma_wire_array_len(&self.tyre_stints_end_laps);
        lemma_wire_array_len(&other.tyre_stints_end_laps);
        self.position.lemma_wire_injective(&other.position);
        self.num_laps.lemma_wire_injective(&other.num_laps);
        self.grid_position.lemma_wire_injective(&other.grid_position);
        self.points.lemma_wire_injective(&other.points);
        self.num_pit_stops.lemma_wire_injective(&other.num_pit_stops);
        self.result_status.lemma_wire_injective(&other.result_status);
        self.best_lap_time_in_ms.lemma_wire_injective(&other.best_lap_time_in_ms);
        self.total_race_time.lemma_wire_injective(&other.total_race_time);
        self.penalties_time.lemma_wire_injective(&other.penalties_time);
        self.num_penalties.lemma_wire_injective(&other.num_penalties);
        self.num_tyre_stints.lemma_wire_injective(&other.num_tyre_stints);
        lemma_wire_array_injective(&self.tyre_stints_actual, &other.tyre_stints_actual);
        lemma_wire_array_injective(&self.tyre_stints_visual, &other.tyre_stints_visual);
        lemma_wire_array_injective(&self.tyre_stints_end_laps, &other.tyre_stints_end_laps);
    }

    fn size() -> (n: usize) {
        45
    }

    fn decode(bytes: &[u8], at: usize) -> (value: Self) {
        broadcast use lemma_subrange_join;

        let position: u8 = u8::decode(bytes, at);
        let num_laps: u8 = u8::decode(bytes, at + 1);
        let grid_position: u8 = u8::decode(bytes, at + 2);
        let points: u8 = u8::decode(bytes, at + 3);
        let num_pit_stops: u8 = u8::decode(bytes, at + 4);
        let result_status: u8 = u8::decode(bytes, at + 5);
        let best_lap_time_in_ms: u32 = u32::decode(bytes, at + 6);
        let total_race_time: Float64 = Float64::decode(bytes, at + 10);
        let penalties_time: u8 = u8::decode(bytes, at + 18);
        let num_penalties: u8 = u8::decode(bytes, at + 19);
        let num_tyre_stints: u8 = u8::decode(bytes, at + 20);
        let tyre_stints_actual: [u8; 8] = decode_array(bytes, at + 21);
        let tyre_stints_visual: [u8; 8] = decode_array(bytes, at + 29);
        let tyre_stints_end_laps: [u8; 8] = decode_array(bytes, at + 37);
        FinalClassificationData {
            position,
            num_laps,
            grid_position,
            points,
            num_pit_stops,
            result_status,
            best_lap_time_in_ms,
            total_race_time,
            penalties_time,
            num_penalties,
            num_tyre_stints,
            tyre_stints_actual,
            tyre_stints_visual,
            tyre_stints_end_laps,
        }
    }

    fn encode(&self, out: &mut Vec<u8>) {
        broadcast use lemma_concat_assoc;

        self.position.encode(out);
        self.num_laps.encode(out);
        self.grid_position.encode(out);
        self.points.encode(out);
        self.num_pit_stops.encode(out);
        self.result_status.encode(out);
        self.best_lap_time_in_ms.encode(out);
        self.total_race_time.encode(out);
        self.penalties_time.encode(out);
        self.num_penalties.encode(out);
        self.num_tyre_stints.encode(out);
        encode_all(self.tyre_stints_actual.as_slice(), out);
        encode_all(self.tyre_stints_visual.as_slice(), out);
        encode_all(self.tyre_stints_end_laps.as_slice(), out);
    }
}

/// The number of bytes the record takes, header included.
pub const FINAL_CLASSIFICATION_SIZE: usize = 1015;

/// The result of the race, as the results screen shows it.
#[derive(Clone, Copy, Debug, PartialEq, Eq)]
pub struct PacketFinalClassificationData {
    pub header: PacketHeader,
    /// Number of cars in the final classification.
    pub num_cars: u8,
    pub classification_data: [FinalClassificationData; 22],
}

impl Wire for PacketFinalClassificationData {
    open spec fn wire(&self) -> Seq<u8> {
        self.header.wire() + self.num_cars.wire() + wire_all(self.classification_data@)
    }

    open spec fn width() -> nat {
        1015
    }

    open spec fn canonical(&self) -> bool {
        self.header.canonical()
    }

    proof fn lemma_wire_len(&self) {
        self.header.lemma_wire_len();
        lemma_wire_array_len(&self.classification_data);
    }

    proof fn lemma_wire_injective(&self, other: &Self) {
        broadcast use lemma_concat_cancel;

        assert(same_bytes(self.wire(), other.wire()));
        self.header.lemma_wire_len();
        other.header.lemma_wire_len();
        lemma_wire_array_len(&self.classification_data);
        lemma_wire_array_len(&other.classification_data);
        self.header.lemma_wire_injective(&other.header);
        self.num_cars.lemma_wire_injective(&other.num_cars);
        lemma_wire_array_injective(&self.classification_data, &other.classification_data);
    }

    fn size() -> (n: usize) {
        FINAL_CLASSIFICATION_SIZE
    }

    fn decode(bytes: &[u8], at: usize) -> (value: Self) {
        broadcast use lemma_subrange_join;

        let header: PacketHeader = PacketHeader::decode(bytes, at);
        let num_cars: u8 = u8::decode(bytes, at + 24);
        let classification_data: [FinalClassificationData; 22] = decode_array(bytes, at + 25);
        PacketFinalClassificationData { header, num_cars, classification_data }
    }

    fn encode(&self, out: &mut Vec<u8>) {
        broadcast use lemma_concat_assoc;

        self.header.encode(out);
        self.num_cars.encode(out);
        encode_all(self.classification_data.as_slice(), out);
    }
}

} // verus!
