//! The car setup record.
use crate::packets::header::PacketHeader;
use crate::wire::{
    decode_array, encode_all, group_integer_widths, lemma_concat_assoc, lemma_concat_cancel,
    lemma_subrange_join, lemma_wire_array_injective, lemma_wire_array_len, same_bytes, wire_all,
    Float32, Wire,
};
use vstd::prelude::*;

verus! {

/// The setup of one car.
#[derive(Clone, Copy, Debug, PartialEq, Eq)]
pub struct CarSetupData {
    /// Front wing aero.
    pub front_wing: u8,
    /// Rear wing aero.
    pub rear_wing: u8,
    /// Differential adjustment on throttle (percentage).
    pub on_throttle: u8,
    /// Differential adjustment off throttle (percentage).
    pub off_throttle: u8,
    /// Front camber angle (suspension geometry).
    pub front_camber: Float32,
    /// Rear camber angle (suspension geometry).
    pub rear_camber: Float32,
    /// Front toe angle (suspension geometry).
    pub front_toe: Float32,
    /// Rear toe angle (suspension geometry).
    pub rear_toe: Float32,
    /// Front suspension.
    pub front_suspension: u8,
    /// Rear suspension.
    pub rear_suspension: u8,
    /// Front anti-roll bar.
    pub front_anti_roll_bar: u8,
    /// Rear anti-roll bar.
    pub rear_anti_roll_bar: u8,
    /// Front ride height.
    pub front_suspension_height: u8,
    /// Rear ride height.
    pub rear_suspension_height: u8,
    /// Brake pressure (percentage).
    pub brake_pressure: u8,
    /// Brake bias (percentage).
    pub brake_bias: u8,
    /// Rear left tyre pressure (PSI).
    pub rear_left_tyre_pressure: Float32,
    /// Rear right tyre pressure (PSI).
    pub rear_right_tyre_pressure: Float32,
    /// Front left tyre pressure (PSI).
    pub front_left_tyre_pressure: Float32,
    /// Front right tyre pressure (PSI).
    pub front_right_tyre_pressure: Float32,
    /// Ballast.
    pub ballast: u8,
    /// Fuel load.
    pub fuel_load: Float32,
}

impl Wire for CarSetupData {
    open spec fn wire(&self) -> Seq<u8> {
        self.front_wing.wire() + self.rear_wing.wire() + self.on_throttle.wire()
            + self.off_throttle.wire() + self.front_camber.wire() + self.rear_camber.wire()
            + self.front_toe.wire() + self.rear_toe.wire() + self.front_suspension.wire()
            + self.rear_suspension.wire() + self.front_anti_roll_bar.wire()
            + self.rear_anti_roll_bar.wire() + self.front_suspension_height.wire()
            + self.rear_suspension_height.wire() + self.brake_pressure.wire()
            + self.brake_bias.wire() + self.rear_left_tyre_pressure.wire()
            + self.rear_right_tyre_pressure.wire() + self.front_left_tyre_pressure.wire()
            + self.front_right_tyre_pressure.wire() + self.ballast.wire() + self.fuel_load.wire()
    }

    open spec fn width() -> nat {
        49
    }

    open spec fn canonical(&self) -> bool {
        true
    }

    proof fn lemma_wire_len(&self) {
        broadcast use group_integer_widths;
    }

    proof fn lemma_wire_injective(&self, other: &Self) {
        broadcast use {lemma_concat_cancel, group_integer_widths};

        assert(same_bytes(self.wire(), other.wire()));
        self.front_wing.lemma_wire_injective(&other.front_wing);
        self.rear_wing.lemma_wire_injective(&other.rear_wing);
        self.on_throttle.lemma_wire_injective(&other.on_throttle);
        self.off_throttle.lemma_wire_injective(&other.off_throttle);
        self.front_camber.lemma_wire_injective(&other.front_camber);
        self.rear_camber.lemma_wire_injective(&other.rear_camber);
        self.front_toe.lemma_wire_injective(&other.front_toe);
        self.rear_toe.lemma_wire_injective(&other.rear_toe);
        self.front_suspension.lemma_wire_injective(&other.front_suspension);
        self.rear_suspension.lemma_wire_injective(&other.rear_suspension);
        self.front_anti_roll_bar.lemma_wire_injective(&other.front_anti_roll_bar);
        self.rear_anti_roll_bar.lemma_wire_injective(&other.rear_anti_roll_bar);
        self.front_suspension_height.lemma_wire_injective(&other.front_suspension_height);
        self.rear_suspension_height.lemma_wire_injective(&other.rear_suspension_height);
        self.brake_pressure.lemma_wire_injective(&other.brake_pressure);
        self.brake_bias.lemma_wire_injective(&other.brake_bias);
        self.rear_left_tyre_pressure.lemma_wire_injective(&other.rear_left_tyre_pressure);
        self.rear_right_tyre_pressure.lemma_wire_injective(&other.rear_right_tyre_pressure);
        self.front_left_tyre_pressure.lemma_wire_injective(&other.front_left_tyre_pressure);
        self.front_right_tyre_pressure.lemma_wire_injective(&other.front_right_tyre_pressure);
        self.ballast.lemma_wire_injective(&other.ballast);
        self.fuel_load.lemma_wire_injective(&other.fuel_load);
    }

    fn size() -> (n: usize) {
        49
    }

    fn decode(bytes: &[u8], at: usize) -> (value: Self) {
        broadcast use lemma_subrange_join;

        let front_wing: u8 = u8::decode(bytes, at);
        let rear_wing: u8 = u8::decode(bytes, at + 1);
        let on_throttle: u8 = u8::decode(bytes, at + 2);
        let off_throttle: u8 = u8::decode(bytes, at + 3);
        let front_camber: Float32 = Float32::decode(bytes, at + 4);
        let rear_camber: Float32 = Float32::decode(bytes, at + 8);
        let front_toe: Float32 = Float32::decode(bytes, at + 12);
        let rear_toe: Float32 = Float32::decode(bytes, at + 16);
        let front_suspension: u8 = u8::decode(bytes, at + 20);
        let rear_suspension: u8 = u8::decode(bytes, at + 21);
        let front_anti_roll_bar: u8 = u8::decode(bytes, at + 22);
        let rear_anti_roll_bar: u8 = u8::decode(bytes, at + 23);
        let front_suspension_height: u8 = u8::decode(bytes, at + 24);
        let rear_suspension_height: u8 = u8::decode(bytes, at + 25);
        let brake_pressure: u8 = u8::decode(bytes, at + 26);
        let brake_bias: u8 = u8::decode(bytes, at + 27);
        let rear_left_tyre_pressure: Float32 = Float32::decode(bytes, at + 28);
        let rear_right_tyre_pressure: Float32 = Float32::decode(bytes, at + 32);
        let front_left_tyre_pressure: Float32 = Float32::decode(bytes, at + 36);
        let front_right_tyre_pressure: Float32 = Float32::decode(bytes, at + 40);
        let ballast: u8 = u8::decode(bytes, at + 44);
        let fuel_load: Float32 = Float32::decode(bytes, at + 45);
        CarSetupData {
            front_wing,
            rear_wing,
            on_throttle,
            off_throttle,
            front_camber,
            rear_camber,
            front_toe,
            rear_toe,
            front_suspension,
            rear_suspension,
            front_anti_roll_bar,
            rear_anti_roll_bar,
            front_suspension_height,
            rear_suspension_height,
            brake_pressure,
            brake_bias,
            rear_left_tyre_pressure,
            rear_right_tyre_pressure,
            front_left_tyre_pressure,
            front_right_tyre_pressure,
            ballast,
            fuel_load,
        }
    }

    fn encode(&self, out: &mut Vec<u8>) {
        broadcast use lemma_concat_assoc;

        self.front_wing.encode(out);
        self.rear_wing.encode(out);
        self.on_throttle.encode(out);
        self.off_throttle.encode(out);
        self.front_camber.encode(out);
        self.rear_camber.encode(out);
        self.front_toe.encode(out);
        self.rear_toe.encode(out);
        self.front_suspension.encode(out);
        self.rear_suspension.encode(out);
        self.front_anti_roll_bar.encode(out);
        self.rear_anti_roll_bar.encode(out);
        self.front_suspension_height.encode(out);
        self.rear_suspension_height.encode(out);
        self.brake_pressure.encode(out);
        self.brake_bias.encode(out);
        self.rear_left_tyre_pressure.encode(out);
        self.rear_right_tyre_pressure.encode(out);
        self.front_left_tyre_pressure.encode(out);
        self.front_right_tyre_pressure.encode(out);
        self.ballast.encode(out);
        self.fuel_load.encode(out);
    }
}

/// The number of bytes the record takes, header included.
pub const CAR_SETUPS_SIZE: usize = 1102;

/// The setup of every car; in a network game only the cars the player may see.
#[derive(Clone, Copy, Debug, PartialEq, Eq)]
pub struct PacketCarSetupData {
    pub header: PacketHeader,
    pub car_setups: [CarSetupData; 22],
}

impl Wire for PacketCarSetupData {
    open spec fn wire(&self) -> Seq<u8> {
        self.header.wire() + wire_all(self.car_setups@)
    }

    open spec fn width() -> nat {
        1102
    }

    open spec fn canonical(&self) -> bool {
        self.header.canonical()
    }

    proof fn lemma_wire_len(&self) {
        self.header.lemma_wire_len();
        lemma_wire_array_len(&self.car_setups);
    }

    proof fn lemma_wire_injective(&self, other: &Self) {
        broadcast use lemma_concat_cancel;

        assert(same_bytes(self.wire(), other.wire()));
        self.header.lemma_wire_len();
        other.header.lemma_wire_len();
        lemma_wire_array_len(&self.car_setups);
        lemma_wire_array_len(&other.car_setups);
        self.header.lemma_wire_injective(&other.header);
        lemma_wire_array_injective(&self.car_setups, &other.car_setups);
    }

    fn size() -> (n: usize) {
        CAR_SETUPS_SIZE
    }

    fn decode(bytes: &[u8], at: usize) -> (value: Self) {
        broadcast use lemma_subrange_join;

        let header: PacketHeader = PacketHeader::decode(bytes, at);
        let car_setups: [CarSetupData; 22] = decode_array(bytes, at + 24);
        PacketCarSetupData { header, car_setups }
    }

    fn encode(&self, out: &mut Vec<u8>) {
        broadcast use lemma_concat_assoc;

        self.header.encode(out);
        encode_all(self.car_setups.as_slice(), out);
    }
}

} // verus!
