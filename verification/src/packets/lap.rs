//! The lap record.
use crate::packets::header::PacketHeader;
use crate::wire::{
    decode_array, encode_all, group_integer_widths, lemma_concat_assoc, lemma_concat_cancel,
    lemma_subrange_join, lemma_wire_array_injective, lemma_wire_array_len, same_bytes, wire_all,
    Float32, Wire,
};
use vstd::prelude::*;

verus! {

/// How far one car has come: lap times, sectors, position, pit stops and penalties.
#[derive(Clone, Copy, Debug, PartialEq, Eq)]
pub struct LapData {
    /// Last lap time in milliseconds.
    pub last_lap_time_in_ms: u32,
    /// Current time around the lap in milliseconds.
    pub current_lap_time_in_ms: u32,
    /// Sector 1 time in milliseconds.
    pub sector1_time_in_ms: u16,
    /// Sector 2 time in milliseconds.
    pub sector2_time_in_ms: u16,
    /// Distance vehicle is around current lap in metres - could be negative if line hasn't been
    /// crossed yet.
    pub lap_distance: Float32,
    /// Total distance travelled in session in metres - could be negative if line hasn't been
    /// crossed yet.
    pub total_distance: Float32,
    /// Delta in seconds for safety car.
    pub safety_car_delta: Float32,
    /// Car race position.
    pub car_position: u8,
    /// Current lap number.
    pub current_lap_num: u8,
    /// 0 = none, 1 = pitting, 2 = in pit area.
    pub pit_status: u8,
    /// Number of pit stops taken in this race.
    pub num_pit_stops: u8,
    /// 0 = sector1, 1 = sector2, 2 = sector3.
    pub sector: u8,
    /// Current lap invalid - 0 = valid, 1 = invalid.
    pub current_lap_invalid: u8,
    /// Accumulated time penalties in seconds to be added.
    pub penalties: u8,
    /// Accumulated number of warnings issued.
    pub warnings: u8,
    /// Num drive through pens left to serve.
    pub num_unserved_drive_through_pens: u8,
    /// Num stop go pens left to serve.
    pub num_unserved_stop_go_pens: u8,
    /// Grid position the vehicle started the race in.
    pub grid_position: u8,
    /// Status of driver - 0 = in garage, 1 = flying lap, 2 = in lap, 3 = out lap, 4 = on track.
    pub driver_status: u8,
    /// Result status - 0 = invalid, 1 = inactive, 2 = active, 3 = finished, 4 = didnotfinish, 5
    /// = disqualified, 6 = not classified, 7 = retired.
    pub result_status: u8,
    /// Pit lane timing, 0 = inactive, 1 = active.
    pub pit_lane_timer_active: u8,
    /// If active, the current time spent in the pit lane in ms.
    pub pit_lane_time_in_lane_in_ms: u16,
    /// Time of the actual pit stop in ms.
    pub pit_stop_timer_in_ms: u16,
    /// Whether the car should serve a penalty at this stop.
    pub pit_stop_should_serve_pen: u8,
}

impl Wire for LapData {
    open spec fn wire(&self) -> Seq<u8> {
        self.last_lap_time_in_ms.wire() + self.current_lap_time_in_ms.wire()
            + self.sector1_time_in_ms.wire() + self.sector2_time_in_ms.wire()
            + self.lap_distance.wire() + self.total_distance.wire() + self.safety_car_delta.wire()
            + self.car_position.wire() + self.current_lap_num.wire() + self.pit_status.wire()
            + self.num_pit_stops.wire() + self.sector.wire() + self.current_lap_invalid.wire()
            + self.penalties.wire() + self.warnings.wire()
            + self.num_unserved_drive_through_pens.wire() + self.num_unserved_stop_go_pens.wire()
            + self.grid_position.wire() + self.driver_status.wire() + self.result_status.wire()
            + self.pit_lane_timer_active.wire() + self.pit_lane_time_in_lane_in_ms.wire()
            + self.pit_stop_timer_in_ms.wire() + self.pit_stop_should_serve_pen.wire()
    }

    open spec fn width() -> nat {
        43
    }

    open spec fn canonical(&self) -> bool {
        true
    }

    proof fn lemma_wire_len(&self) {
        broadcast use group_integer_widths;
    }

    proof fn lemma_wire_injective(&self, other: &Self) {
        broadcast use {lemma_concat_cancel, group_integer_widths};

        assert(same_bytes(self.wire(), other.wire()));
        self.last_lap_time_in_ms.lemma_wire_injective(&other.last_lap_time_in_ms);
        self.current_lap_time_in_ms.lemma_wire_injective(&other.current_lap_time_in_ms);
        self.sector1_time_in_ms.lemma_wire_injective(&other.sector1_time_in_ms);
        self.sector2_time_in_ms.lemma_wire_injective(&other.sector2_time_in_ms);
        self.lap_distance.lemma_wire_injective(&other.lap_distance);
        self.total_distance.lemma_wire_injective(&other.total_distance);
        self.safety_car_delta.lemma_wire_injective(&other.safety_car_delta);
        self.car_position.lemma_wire_injective(&other.car_position);
        self.current_lap_num.lemma_wire_injective(&other.current_lap_num);
        self.pit_status.lemma_wire_injective(&other.pit_status);
        self.num_pit_stops.lemma_wire_injective(&other.num_pit_stops);
        self.sector.lemma_wire_injective(&other.sector);
        self.current_lap_invalid.lemma_wire_injective(&other.current_lap_invalid);
        self.penalties.lemma_wire_injective(&other.penalties);
        self.warnings.lemma_wire_injective(&other.warnings);
        self.num_unserved_drive_through_pens.lemma_wire_injective(
            &other.num_unserved_drive_through_pens,
        );
        self.num_unserved_stop_go_pens.lemma_wire_injective(&other.num_unserved_stop_go_pens);
        self.grid_position.lemma_wire_injective(&other.grid_position);
        self.driver_status.lemma_wire_injective(&other.driver_status);
        self.result_status.lemma_wire_injective(&other.result_status);
        self.pit_lane_timer_active.lemma_wire_injective(&other.pit_lane_timer_active);
        self.pit_lane_time_in_lane_in_ms.lemma_wire_injective(&other.pit_lane_time_in_lane_in_ms);
        self.pit_stop_timer_in_ms.lemma_wire_injective(&other.pit_stop_timer_in_ms);
        self.pit_stop_should_serve_pen.lemma_wire_injective(&other.pit_stop_should_serve_pen);
    }

    fn size() -> (n: usize) {
        43
    }

    fn decode(bytes: &[u8], at: usize) -> (value: Self) {
        broadcast use lemma_subrange_join;

        let last_lap_time_in_ms: u32 = u32::decode(bytes, at);
        let current_lap_time_in_ms: u32 = u32::decode(bytes, at + 4);
        let sector1_time_in_ms: u16 = u16::decode(bytes, at + 8);
        let sector2_time_in_ms: u16 = u16::decode(bytes, at + 10);
        let lap_distance: Float32 = Float32::decode(bytes, at + 12);
        let total_distance: Float32 = Float32::decode(bytes, at + 16);
        let safety_car_delta: Float32 = Float32::decode(bytes, at + 20);
        let car_position: u8 = u8::decode(bytes, at + 24);
        let current_lap_num: u8 = u8::decode(bytes, at + 25);
        let pit_status: u8 = u8::decode(bytes, at + 26);
        let num_pit_stops: u8 = u8::decode(bytes, at + 27);
        let sector: u8 = u8::decode(bytes, at + 28);
        let current_lap_invalid: u8 = u8::decode(bytes, at + 29);
        let penalties: u8 = u8::decode(bytes, at + 30);
        let warnings: u8 = u8::decode(bytes, at + 31);
        let num_unserved_drive_through_pens: u8 = u8::decode(bytes, at + 32);
        let num_unserved_stop_go_pens: u8 = u8::decode(bytes, at + 33);
        let grid_position: u8 = u8::decode(bytes, at + 34);
        let driver_status: u8 = u8::decode(bytes, at + 35);
        let result_status: u8 = u8::decode(bytes, at + 36);
        let pit_lane_timer_active: u8 = u8::decode(bytes, at + 37);
        let pit_lane_time_in_lane_in_ms: u16 = u16::decode(bytes, at + 38);
        let pit_stop_timer_in_ms: u16 = u16::decode(bytes, at + 40);
        let pit_stop_should_serve_pen: u8 = u8::decode(bytes, at + 42);
        LapData {
            last_lap_time_in_ms,
            current_lap_time_in_ms,
            sector1_time_in_ms,
            sector2_time_in_ms,
            lap_distance,
            total_distance,
            safety_car_delta,
            car_position,
            current_lap_num,
            pit_status,
            num_pit_stops,
            sector,
            current_lap_invalid,
            penalties,
            warnings,
            num_unserved_drive_through_pens,
            num_unserved_stop_go_pens,
            grid_position,
            driver_status,
            result_status,
            pit_lane_timer_active,
            pit_lane_time_in_lane_in_ms,
            pit_stop_timer_in_ms,
            pit_stop_should_serve_pen,
        }
    }

    fn encode(&self, out: &mut Vec<u8>) {
        broadcast use lemma_concat_assoc;

        self.last_lap_time_in_ms.encode(out);
        self.current_lap_time_in_ms.encode(out);
        self.sector1_time_in_ms.encode(out);
        self.sector2_time_in_ms.encode(out);
        self.lap_distance.encode(out);
        self.total_distance.encode(out);
        self.safety_car_delta.encode(out);
        self.car_position.encode(out);
        self.current_lap_num.encode(out);
        self.pit_status.encode(out);
        self.num_pit_stops.encode(out);
        self.sector.encode(out);
        self.current_lap_invalid.encode(out);
        self.penalties.encode(out);
        self.warnings.encode(out);
        self.num_unserved_drive_through_pens.encode(out);
        self.num_unserved_stop_go_pens.encode(out);
        self.grid_position.encode(out);
        self.driver_status.encode(out);
        self.result_status.encode(out);
        self.pit_lane_timer_active.encode(out);
        self.pit_lane_time_in_lane_in_ms.encode(out);
        self.pit_stop_timer_in_ms.encode(out);
        self.pit_stop_should_serve_pen.encode(out);
    }
}

/// The number of bytes the record takes, header included.
pub const LAP_DATA_SIZE: usize = 972;

/// The lap data of every car.
#[derive(Clone, Copy, Debug, PartialEq, Eq)]
pub struct PacketLapData {
    pub header: PacketHeader,
    /// Lap data for all cars on track.
    pub lap_data: [LapData; 22],
    /// Index of Personal Best car in time trial (255 if invalid).
    pub time_trial_pb_car_idx: u8,
    /// Index of Rival car in time trial (255 if invalid).
    pub time_trial_rival_car_idx: u8,
}

impl Wire for PacketLapData {
    open spec fn wire(&self) -> Seq<u8> {
        self.header.wire() + wire_all(self.lap_data@) + self.time_trial_pb_car_idx.wire()
            + self.time_trial_rival_car_idx.wire()
    }

    open spec fn width() -> nat {
        972
    }

    open spec fn canonical(&self) -> bool {
        self.header.canonical()
    }

    proof fn lemma_wire_len(&self) {
        self.header.lemma_wire_len();
        lemma_wire_array_len(&self.lap_data);
    }

    proof fn lemma_wire_injective(&self, other: &Self) {
        broadcast use lemma_concat_cancel;

        assert(same_bytes(self.wire(), other.wire()));
        self.header.lemma_wire_len();
        other.header.lemma_wire_len();
        lemma_wire_array_len(&self.lap_data);
        lemma_wire_array_len(&other.lap_data);
        self.header.lemma_wire_injective(&other.header);
        lemma_wire_array_injective(&self.lap_data, &other.lap_data);
        self.time_trial_pb_car_idx.lemma_wire_injective(&other.time_trial_pb_car_idx);
        self.time_trial_rival_car_idx.lemma_wire_injective(&other.time_trial_rival_car_idx);
    }

    fn size() -> (n: usize) {
        LAP_DATA_SIZE
    }

    fn decode(bytes: &[u8], at: usize) -> (value: Self) {
        broadcast use lemma_subrange_join;

        let header: PacketHeader = PacketHeader::decode(bytes, at);
        let lap_data: [LapData; 22] = decode_array(bytes, at + 24);
        let time_trial_pb_car_idx: u8 = u8::decode(bytes, at + 970);
        let time_trial_rival_car_idx: u8 = u8::decode(bytes, at + 971);
        PacketLapData {
            header,
            lap_data,
            time_trial_pb_car_idx,
            time_trial_rival_car_idx,
        }
    }

    fn encode(&self, out: &mut Vec<u8>) {
        broadcast use lemma_concat_assoc;

        self.header.encode(out);
        encode_all(self.lap_data.as_slice(), out);
        self.time_trial_pb_car_idx.encode(out);
        self.time_trial_rival_car_idx.encode(out);
    }
}

} // verus!
