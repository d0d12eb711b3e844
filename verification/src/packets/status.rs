//! The car status record.
use crate::packets::header::PacketHeader;
use crate::wire::{
    decode_array, encode_all, group_integer_widths, lemma_concat_assoc, lemma_concat_cancel,
    lemma_subrange_join, lemma_wire_array_injective, lemma_wire_array_len, same_bytes, wire_all,
    Float32, Wire,
};
use vstd::prelude::*;

verus! {

/// The status of one car: fuel, tyres, energy store, driver aids.
#[derive(Clone, Copy, Debug, PartialEq, Eq)]
pub struct CarStatusData {
    /// Traction control - 0 = off, 1 = medium, 2 = full.
    pub traction_control: u8,
    /// 0 (off) - 1 (on).
    pub anti_lock_brakes: u8,
    /// Fuel mix - 0 = lean, 1 = standard, 2 = rich, 3 = max.
    pub fuel_mix: u8,
    /// Front brake bias (percentage).
    pub front_brake_bias: u8,
    /// Pit limiter status - 0 = off, 1 = on.
    pub pit_limiter_status: u8,
    /// Current fuel mass.
    pub fuel_in_tank: Float32,
    /// Fuel capacity.
    pub fuel_capacity: Float32,
    /// Fuel remaining in terms of laps (value on MFD).
    pub fuel_remaining_laps: Float32,
    /// Cars max RPM, point of rev limiter.
    pub max_rpm: u16,
    /// Cars idle RPM.
    pub idle_rpm: u16,
    /// Maximum number of gears.
    pub max_gears: u8,
    /// 0 = not allowed, 1 = allowed.
    pub drs_allowed: u8,
    /// 0 = DRS not available, non-zero - DRS will be available in [X] metres.
    pub drs_activation_distance: u16,
    /// Modern cars: 16 = C5, 17 = C4, 18 = C3, 19 = C2, 20 = C1, 7 = inter, 8 = wet. Classic
    /// cars: 9 = dry, 10 = wet. Junior class: 11 = super soft, 12 = soft, 13 = medium, 14 =
    /// hard, 15 = wet.
    pub actual_tyre_compound: u8,
    /// What the tyre looks like, which may differ from what it is. 16 = soft, 17 = medium, 18 =
    /// hard, 7 = inter, 8 = wet.
    pub visual_tyre_compound: u8,
    /// Age in laps of the current set of tyres.
    pub tyres_age_laps: u8,
    /// -1 = invalid/unknown, 0 = none, 1 = green, 2 = blue, 3 = yellow, 4 = red.
    pub vehicle_fia_flags: i8,
    /// ERS energy store in Joules.
    pub ers_store_energy: Float32,
    /// ERS deployment mode, 0 = none, 1 = medium, 2 = hotlap, 3 = overtake.
    pub ers_deploy_mode: u8,
    /// ERS energy harvested this lap by MGU-K.
    pub ers_harvested_this_lap_mguk: Float32,
    /// ERS energy harvested this lap by MGU-H.
    pub ers_harvested_this_lap_mguh: Float32,
    /// ERS energy deployed this lap.
    pub ers_deployed_this_lap: Float32,
    /// Whether the car is paused in a network game.
    pub network_paused: u8,
}

impl Wire for CarStatusData {
    open spec fn wire(&self) -> Seq<u8> {
        self.traction_control.wire() + self.anti_lock_brakes.wire() + self.fuel_mix.wire()
            + self.front_brake_bias.wire() + self.pit_limiter_status.wire()
            + self.fuel_in_tank.wire() + self.fuel_capacity.wire() + self.fuel_remaining_laps.wire()
            + self.max_rpm.wire() + self.idle_rpm.wire() + self.max_gears.wire()
            + self.drs_allowed.wire() + self.drs_activation_distance.wire()
            + self.actual_tyre_compound.wire() + self.visual_tyre_compound.wire()
            + self.tyres_age_laps.wire() + self.vehicle_fia_flags.wire()
            + self.ers_store_energy.wire() + self.ers_deploy_mode.wire()
            + self.ers_harvested_this_lap_mguk.wire() + self.ers_harvested_this_lap_mguh.wire()
            + self.ers_deployed_this_lap.wire() + self.network_paused.wire()
    }

    open spec fn width() -> nat {
        47
    }

    open spec fn canonical(&self) -> bool {
        true
    }

    proof fn lemma_wire_len(&self) {
        broadcast use group_integer_widths;
    }

    proof fn lemma_wire_injective(&self, other: &Self) {
        broadcast use {lemma_concat_cancel, group_integer_widths};

        assert(same_bytes(self.wire(), other.wire()));
        self.traction_control.lemma_wire_injective(&other.traction_control);
        self.anti_lock_brakes.lemma_wire_injective(&other.anti_lock_brakes);
        self.fuel_mix.lemma_wire_injective(&other.fuel_mix);
        self.front_brake_bias.lemma_wire_injective(&other.front_brake_bias);
        self.pit_limiter_status.lemma_wire_injective(&other.pit_limiter_status);
        self.fuel_in_tank.lemma_wire_injective(&other.fuel_in_tank);
        self.fuel_capacity.lemma_wire_injective(&other.fuel_capacity);
        self.fuel_remaining_laps.lemma_wire_injective(&other.fuel_remaining_laps);
        self.max_rpm.lemma_wire_injective(&other.max_rpm);
        self.idle_rpm.lemma_wire_injective(&other.idle_rpm);
        self.max_gears.lemma_wire_injective(&other.max_gears);
        self.drs_allowed.lemma_wire_injective(&other.drs_allowed);
        self.drs_activation_distance.lemma_wire_injective(&other.drs_activation_distance);
        self.actual_tyre_compound.lemma_wire_injective(&other.actual_tyre_compound);
        self.visual_tyre_compound.lemma_wire_injective(&other.visual_tyre_compound);
        self.tyres_age_laps.lemma_wire_injective(&other.tyres_age_laps);
        self.vehicle_fia_flags.lemma_wire_injective(&other.vehicle_fia_flags);
        self.ers_store_energy.lemma_wire_injective(&other.ers_store_energy);
        self.ers_deploy_mode.lemma_wire_injective(&other.ers_deploy_mode);
        self.ers_harvested_this_lap_mguk.lemma_wire_injective(&other.ers_harvested_this_lap_mguk);
        self.ers_harvested_this_lap_mguh.lemma_wire_injective(&other.ers_harvested_this_lap_mguh);
        self.ers_deployed_this_lap.lemma_wire_injective(&other.ers_deployed_this_lap);
        self.network_paused.lemma_wire_injective(&other.network_paused);
    }

    fn size() -> (n: usize) {
        47
    }

    fn decode(bytes: &[u8], at: usize) -> (value: Self) {
        broadcast use lemma_subrange_join;

        let traction_control: u8 = u8::decode(bytes, at);
        let anti_lock_brakes: u8 = u8::decode(bytes, at + 1);
        let fuel_mix: u8 = u8::decode(bytes, at + 2);
        let front_brake_bias: u8 = u8::decode(bytes, at + 3);
        let pit_limiter_status: u8 = u8::decode(bytes, at + 4);
        let fuel_in_tank: Float32 = Float32::decode(bytes, at + 5);
        let fuel_capacity: Float32 = Float32::decode(bytes, at + 9);
        let fuel_remaining_laps: Float32 = Float32::decode(bytes, at + 13);
        let max_rpm: u16 = u16::decode(bytes, at + 17);
        let idle_rpm: u16 = u16::decode(bytes, at + 19);
        let max_gears: u8 = u8::decode(bytes, at + 21);
        let drs_allowed: u8 = u8::decode(bytes, at + 22);
        let drs_activation_distance: u16 = u16::decode(bytes, at + 23);
        let actual_tyre_compound: u8 = u8::decode(bytes, at + 25);
        let visual_tyre_compound: u8 = u8::decode(bytes, at + 26);
        let tyres_age_laps: u8 = u8::decode(bytes, at + 27);
        let vehicle_fia_flags: i8 = i8::decode(bytes, at + 28);
        let ers_store_energy: Float32 = Float32::decode(bytes, at + 29);
        let ers_deploy_mode: u8 = u8::decode(bytes, at + 33);
        let ers_harvested_this_lap_mguk: Float32 = Float32::decode(bytes, at + 34);
        let ers_harvested_this_lap_mguh: Float32 = Float32::decode(bytes, at + 38);
        let ers_deployed_this_lap: Float32 = Float32::decode(bytes, at + 42);
        let network_paused: u8 = u8::decode(bytes, at + 46);
        CarStatusData {
            traction_control,
            anti_lock_brakes,
            fuel_mix,
            front_brake_bias,
            pit_limiter_status,
            fuel_in_tank,
            fuel_capacity,
            fuel_remaining_laps,
            max_rpm,
            idle_rpm,
            max_gears,
            drs_allowed,
            drs_activation_distance,
            actual_tyre_compound,
            visual_tyre_compound,
            tyres_age_laps,
            vehicle_fia_flags,
            ers_store_energy,
            ers_deploy_mode,
            ers_harvested_this_lap_mguk,
            ers_harvested_this_lap_mguh,
            ers_deployed_this_lap,
            network_paused,
        }
    }

    fn encode(&self, out: &mut Vec<u8>) {
        broadcast use lemma_concat_assoc;

        self.traction_control.encode(out);
        self.anti_lock_brakes.encode(out);
        self.fuel_mix.encode(out);
        self.front_brake_bias.encode(out);
        self.pit_limiter_status.encode(out);
        self.fuel_in_tank.encode(out);
        self.fuel_capacity.encode(out);
        self.fuel_remaining_laps.encode(out);
        self.max_rpm.encode(out);
        self.idle_rpm.encode(out);
        self.max_gears.encode(out);
        self.drs_allowed.encode(out);
        self.drs_activation_distance.encode(out);
        self.actual_tyre_compound.encode(out);
        self.visual_tyre_compound.encode(out);
        self.tyres_age_laps.encode(out);
        self.vehicle_fia_flags.encode(out);
        self.ers_store_energy.encode(out);
        self.ers_deploy_mode.encode(out);
        self.ers_harvested_this_lap_mguk.encode(out);
        self.ers_harvested_this_lap_mguh.encode(out);
        self.ers_deployed_this_lap.encode(out);
        self.network_paused.encode(out);
    }
}

/// The number of bytes the record takes, header included.
pub const CAR_STATUS_SIZE: usize = 1058;

/// The status of every car.
#[derive(Clone, Copy, Debug, PartialEq, Eq)]
pub struct PacketCarStatusData {
    pub header: PacketHeader,
    pub car_status_data: [CarStatusData; 22],
}

impl Wire for PacketCarStatusData {
    open spec fn wire(&self) -> Seq<u8> {
        self.header.wire() + wire_all(self.car_status_data@)
    }

    open spec fn width() -> nat {
        1058
    }

    open spec fn canonical(&self) -> bool {
        self.header.canonical()
    }

    proof fn lemma_wire_len(&self) {
        self.header.lemma_wire_len();
        lemma_wire_array_len(&self.car_status_data);
    }

    proof fn lemma_wire_injective(&self, other: &Self) {
        broadcast use lemma_concat_cancel;

        assert(same_bytes(self.wire(), other.wire()));
        self.header.lemma_wire_len();
        other.header.lemma_wire_len();
        lemma_wire_array_len(&self.car_status_data);
        lemma_wire_array_len(&other.car_status_data);
        self.header.lemma_wire_injective(&other.header);
        lemma_wire_array_injective(&self.car_status_data, &other.car_status_data);
    }

    fn size() -> (n: usize) {
        CAR_STATUS_SIZE
    }

    fn decode(bytes: &[u8], at: usize) -> (value: Self) {
        broadcast use lemma_subrange_join;

        let header: PacketHeader = PacketHeader::decode(bytes, at);
        let car_status_data: [CarStatusData; 22] = decode_array(bytes, at + 24);
        PacketCarStatusData { header, car_status_data }
    }

    fn encode(&self, out: &mut Vec<u8>) {
        broadcast use lemma_concat_assoc;

        self.header.encode(out);
        encode_all(self.car_status_data.as_slice(), out);
    }
}

} // verus!
