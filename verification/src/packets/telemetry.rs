//! The car telemetry record.
use crate::ids::{SurfaceType};
use crate::packets::header::PacketHeader;
use crate::wire::{
    all_canonical, decode_array, encode_all, group_integer_widths, lemma_concat_assoc,
    lemma_concat_cancel, lemma_subrange_join, lemma_wire_array_injective, lemma_wire_array_len,
    same_bytes, wire_all, Float32, Wire,
};
use vstd::prelude::*;

verus! {

/// What the sensors of one car read: speed, pedals, gear, temperatures.
#[derive(Clone, Copy, Debug, PartialEq, Eq)]
pub struct CarTelemetryData {
    /// Speed of car in kilometres per hour.
    pub speed: u16,
    /// Amount of throttle applied (0.0 to 1.0).
    pub throttle: Float32,
    /// Steering (-1.0 (full lock left) to 1.0 (full lock right)).
    pub steer: Float32,
    /// Amount of brake applied (0.0 to 1.0).
    pub brake: Float32,
    /// Amount of clutch applied (0 to 100).
    pub clutch: u8,
    /// Gear selected (1-8, N=0, R=-1).
    pub gear: i8,
    /// Engine RPM.
    pub engine_rpm: u16,
    /// 0 = off, 1 = on.
    pub drs: u8,
    /// Rev lights indicator (percentage).
    pub rev_lights_percent: u8,
    /// Rev lights (bit 0 = leftmost LED, bit 14 = rightmost LED).
    pub rev_lights_bit_value: u16,
    /// Brakes temperature (celsius).
    pub brakes_temperature: [u16; 4],
    /// Tyres surface temperature (celsius).
    pub tyres_surface_temperature: [u8; 4],
    /// Tyres inner temperature (celsius).
    pub tyres_inner_temperature: [u8; 4],
    /// Engine temperature (celsius).
    pub engine_temperature: u16,
    /// Tyres pressure (PSI).
    pub tyres_pressure: [Float32; 4],
    /// Driving surface under each wheel.
    pub surface_type: [SurfaceType; 4],
}

impl Wire for CarTelemetryData {
    open spec fn wire(&self) -> Seq<u8> {
        self.speed.wire() + self.throttle.wire() + self.steer.wire() + self.brake.wire()
            + self.clutch.wire() + self.gear.wire() + self.engine_rpm.wire() + self.drs.wire()
            + self.rev_lights_percent.wire() + self.rev_lights_bit_value.wire()
            + wire_all(self.brakes_temperature@) + wire_all(self.tyres_surface_temperature@)
            + wire_all(self.tyres_inner_temperature@) + self.engine_temperature.wire()
            + wire_all(self.tyres_pressure@) + wire_all(self.surface_type@)
    }

    open spec fn width() -> nat {
        60
    }

    open spec fn canonical(&self) -> bool {
        all_canonical(self.surface_type@)
    }

    proof fn lemma_wire_len(&self) {
        broadcast use group_integer_widths;

        lemma_wire_array_len(&self.brakes_temperature);
        lemma_wire_array_len(&self.tyres_surface_temperature);
        lemma_wire_array_len(&self.tyres_inner_temperature);
        lemma_wire_array_len(&self.tyres_pressure);
        lemma_wire_array_len(&self.surface_type);
    }

    proof fn lemma_wire_injective(&self, other: &Self) {
        broadcast use {lemma_concat_cancel, group_integer_widths};

        assert(same_bytes(self.wire(), other.wire()));
        lemma_wire_array_len(&self.brakes_temperature);
        lemma_wire_array_len(&other.brakes_temperature);
        lemma_wire_array_len(&self.tyres_surface_temperature);
        lemma_wire_array_len(&other.tyres_surface_temperature);
        lemma_wire_array_len(&self.tyres_inner_temperature);
        lemma_wire_array_len(&other.tyres_inner_temperature);
        lemma_wire_array_len(&self.tyres_pressure);
        lemma_wire_array_len(&other.tyres_pressure);
        lemma_wire_array_len(&self.surface_type);
        lemma_wire_array_len(&other.surface_type);
        self.speed.lemma_wire_injective(&other.speed);
        self.throttle.lemma_wire_injective(&other.throttle);
        self.steer.lemma_wire_injective(&other.steer);
        self.brake.lemma_wire_injective(&other.brake);
        self.clutch.lemma_wire_injective(&other.clutch);
        self.gear.lemma_wire_injective(&other.gear);
        self.engine_rpm.lemma_wire_injective(&other.engine_rpm);
        self.drs.lemma_wire_injective(&other.drs);
        self.rev_lights_percent.lemma_wire_injective(&other.rev_lights_percent);
        self.rev_lights_bit_value.lemma_wire_injective(&other.rev_lights_bit_value);
        lemma_wire_array_injective(&self.brakes_temperature, &other.brakes_temperature);
        lemma_wire_array_injective(
            &self.tyres_surface_temperature,
            &other.tyres_surface_temperature,
        );
        lemma_wire_array_injective(&self.tyres_inner_temperature, &other.tyres_inner_temperature);
        self.engine_temperature.lemma_wire_injective(&other.engine_temperature);
        lemma_wire_array_injective(&self.tyres_pressure, &other.tyres_pressure);
        lemma_wire_array_injective(&self.surface_type, &other.surface_type);
    }

    fn size() -> (n: usize) {
        60
    }

    fn decode(bytes: &[u8], at: usize) -> (value: Self) {
        broadcast use lemma_subrange_join;

        let speed: u16 = u16::decode(bytes, at);
        let throttle: Float32 = Float32::decode(bytes, at + 2);
        let steer: Float32 = Float32::decode(bytes, at + 6);
        let brake: Float32 = Float32::decode(bytes, at + 10);
        let clutch: u8 = u8::decode(bytes, at + 14);
        let gear: i8 = i8::decode(bytes, at + 15);
        let engine_rpm: u16 = u16::decode(bytes, at + 16);
        let drs: u8 = u8::decode(bytes, at + 18);
        let rev_lights_percent: u8 = u8::decode(bytes, at + 19);
        let rev_lights_bit_value: u16 = u16::decode(bytes, at + 20);
        let brakes_temperature: [u16; 4] = decode_array(bytes, at + 22);
        let tyres_surface_temperature: [u8; 4] = decode_array(bytes, at + 30);
        let tyres_inner_temperature: [u8; 4] = decode_array(bytes, at + 34);
        let engine_temperature: u16 = u16::decode(bytes, at + 38);
        let tyres_pressure: [Float32; 4] = decode_array(bytes, at + 40);
        let surface_type: [SurfaceType; 4] = decode_array(bytes, at + 56);
        CarTelemetryData {
            speed,
            throttle,
            steer,
            brake,
            clutch,
            gear,
            engine_rpm,
            drs,
            rev_lights_percent,
            rev_lights_bit_value,
            brakes_temperature,
            tyres_surface_temperature,
            tyres_inner_temperature,
            engine_temperature,
            tyres_pressure,
            surface_type,
        }
    }

    fn encode(&self, out: &mut Vec<u8>) {
        broadcast use lemma_concat_assoc;

        self.speed.encode(out);
        self.throttle.encode(out);
        self.steer.encode(out);
        self.brake.encode(out);
        self.clutch.encode(out);
        self.gear.encode(out);
        self.engine_rpm.encode(out);
        self.drs.encode(out);
        self.rev_lights_percent.encode(out);
        self.rev_lights_bit_value.encode(out);
        encode_all(self.brakes_temperature.as_slice(), out);
        encode_all(self.tyres_surface_temperature.as_slice(), out);
        encode_all(self.tyres_inner_temperature.as_slice(), out);
        self.engine_temperature.encode(out);
        encode_all(self.tyres_pressure.as_slice(), out);
        encode_all(self.surface_type.as_slice(), out);
    }
}

/// The number of bytes the record takes, header included.
pub const CAR_TELEMETRY_SIZE: usize = 1347;

/// The telemetry of every car.
#[derive(Clone, Copy, Debug, PartialEq, Eq)]
pub struct PacketCarTelemetryData {
    pub header: PacketHeader,
    pub car_telemetry_data: [CarTelemetryData; 22],
    /// Which panel of the multi-function display is open, 255 when it is closed. In a
    /// single-player race: 0 = car setup, 1 = pits, 2 = damage, 3 = engine, 4 = temperatures.
    pub mfd_panel_index: u8,
    /// The same for the second player.
    pub mfd_panel_index_secondary_player: u8,
    /// Suggested gear for the player (1-8), 0 if none is suggested.
    pub suggested_gear: i8,
}

impl Wire for PacketCarTelemetryData {
    open spec fn wire(&self) -> Seq<u8> {
        self.header.wire() + wire_all(self.car_telemetry_data@) + self.mfd_panel_index.wire()
            + self.mfd_panel_index_secondary_player.wire() + self.suggested_gear.wire()
    }

    open spec fn width() -> nat {
        1347
    }

    open spec fn canonical(&self) -> bool {
        self.header.canonical() && all_canonical(self.car_telemetry_data@)
    }

    proof fn lemma_wire_len(&self) {
        self.header.lemma_wire_len();
        lemma_wire_array_len(&self.car_telemetry_data);
    }

    proof fn lemma_wire_injective(&self, other: &Self) {
        broadcast use lemma_concat_cancel;

        assert(same_bytes(self.wire(), other.wire()));
        self.header.lemma_wire_len();
        other.header.lemma_wire_len();
        lemma_wire_array_len(&self.car_telemetry_data);
        lemma_wire_array_len(&other.car_telemetry_data);
        self.header.lemma_wire_injective(&other.header);
        lemma_wire_array_injective(&self.car_telemetry_data, &other.car_telemetry_data);
        self.mfd_panel_index.lemma_wire_injective(&other.mfd_panel_index);
        self.mfd_panel_index_secondary_player.lemma_wire_injective(
            &other.mfd_panel_index_secondary_player,
        );
        self.suggested_gear.lemma_wire_injective(&other.suggested_gear);
    }

    fn size() -> (n: usize) {
        CAR_TELEMETRY_SIZE
    }

    fn decode(bytes: &[u8], at: usize) -> (value: Self) {
        broadcast use lemma_subrange_join;

        let header: PacketHeader = PacketHeader::decode(bytes, at);
        let car_telemetry_data: [CarTelemetryData; 22] = decode_array(bytes, at + 24);
        let mfd_panel_index: u8 = u8::decode(bytes, at + 1344);
        let mfd_panel_index_secondary_player: u8 = u8::decode(bytes, at + 1345);
        let suggested_gear: i8 = i8::decode(bytes, at + 1346);
        PacketCarTelemetryData {
            header,
            car_telemetry_data,
            mfd_panel_index,
            mfd_panel_index_secondary_player,
            suggested_gear,
        }
    }

    fn encode(&self, out: &mut Vec<u8>) {
        broadcast use lemma_concat_assoc;

        self.header.encode(out);
        encode_all(self.car_telemetry_data.as_slice(), out);
        self.mfd_panel_index.encode(out);
        self.mfd_panel_index_secondary_player.encode(out);
        self.suggested_gear.encode(out);
    }
}

} // verus!
