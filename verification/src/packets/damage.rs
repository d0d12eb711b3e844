//! The car damage record.
use crate::packets::header::PacketHeader;
use crate::wire::{
    decode_array, encode_all, lemma_concat_assoc, lemma_concat_cancel, lemma_subrange_join,
    lemma_wire_array_injective, lemma_wire_array_len, same_bytes, wire_all, Float32, Wire,
};
use vstd::prelude::*;

verus! {

/// The damage and wear of one car.
#[derive(Clone, Copy, Debug, PartialEq, Eq)]
pub struct CarDamageData {
    /// Tyre wear (percentage).
    pub tyres_wear: [Float32; 4],
    /// Tyre damage (percentage).
    pub tyres_damage: [u8; 4],
    /// Brakes damage (percentage).
    pub brakes_damage: [u8; 4],
    /// Front left wing damage (percentage).
    pub front_left_wing_damage: u8,
    /// Front right wing damage (percentage).
    pub front_right_wing_damage: u8,
    /// Rear wing damage (percentage).
    pub rear_wing_damage: u8,
    /// Floor damage (percentage).
    pub floor_damage: u8,
    /// Diffuser damage (percentage).
    pub diffuser_damage: u8,
    /// Sidepod damage (percentage).
    pub sidepod_damage: u8,
    /// Indicator for DRS fault, 0 = OK, 1 = fault.
    pub drs_fault: u8,
    /// Indicator for ERS fault, 0 = OK, 1 = fault.
    pub ers_fault: u8,
    /// Gear box damage (percentage).
    pub gear_box_damage: u8,
    /// Engine damage (percentage).
    pub engine_damage: u8,
    /// Engine wear MGU-H (percentage).
    pub engine_mguh_wear: u8,
    /// Engine wear ES (percentage).
    pub engine_es_wear: u8,
    /// Engine wear CE (percentage).
    pub engine_ce_wear: u8,
    /// Engine wear ICE (percentage).
    pub engine_ice_wear: u8,
    /// Engine wear MGU-K (percentage).
    pub engine_mguk_wear: u8,
    /// Engine wear TC (percentage).
    pub engine_tc_wear: u8,
    /// Engine blown, 0 = OK, 1 = fault.
    pub engine_blown: u8,
    /// Engine seized, 0 = OK, 1 = fault.
    pub engine_seized: u8,
}

impl Wire for CarDamageData {
    open spec fn wire(&self) -> Seq<u8> {
        wire_all(self.tyres_wear@) + wire_all(self.tyres_damage@) + wire_all(self.brakes_damage@)
            + self.front_left_wing_damage.wire() + self.front_right_wing_damage.wire()
            + self.rear_wing_damage.wire() + self.floor_damage.wire() + self.diffuser_damage.wire()
            + self.sidepod_damage.wire() + self.drs_fault.wire() + self.ers_fault.wire()
            + self.gear_box_damage.wire() + self.engine_damage.wire() + self.engine_mguh_wear.wire()
            + self.engine_es_wear.wire() + self.engine_ce_wear.wire() + self.engine_ice_wear.wire()
            + self.engine_mguk_wear.wire() + self.engine_tc_wear.wire() + self.engine_blown.wire()
            + self.engine_seized.wire()
    }

    open spec fn width() -> nat {
        42
    }

    open spec fn canonical(&self) -> bool {
        true
    }

    proof fn lemma_wire_len(&self) {
        lemma_wire_array_len(&self.tyres_wear);
        lemma_wire_array_len(&self.tyres_damage);
        lemma_wire_array_len(&self.brakes_damage);
    }

    proof fn lemma_wire_injective(&self, other: &Self) {
        broadcast use lemma_concat_cancel;

        assert(same_bytes(self.wire(), other.wire()));
        lemma_wire_array_len(&self.tyres_wear);
        lemma_wire_array_len(&other.tyres_wear);
        lemma_wire_array_len(&self.tyres_damage);
        lemma_wire_array_len(&other.tyres_damage);
        lemma_wire_array_len(&self.brakes_damage);
        lemma_wire_array_len(&other.brakes_damage);
        lemma_wire_array_injective(&self.tyres_wear, &other.tyres_wear);
        lemma_wire_array_injective(&self.tyres_damage, &other.tyres_damage);
        lemma_wire_array_injective(&self.brakes_damage, &other.brakes_damage);
        self.front_left_wing_damage.lemma_wire_injective(&other.front_left_wing_damage);
        self.front_right_wing_damage.lemma_wire_injective(&other.front_right_wing_damage);
        self.rear_wing_damage.lemma_wire_injective(&other.rear_wing_damage);
        self.floor_damage.lemma_wire_injective(&other.floor_damage);
        self.diffuser_damage.lemma_wire_injective(&other.diffuser_damage);
        self.sidepod_damage.lemma_wire_injective(&other.sidepod_damage);
        self.drs_fault.lemma_wire_injective(&other.drs_fault);
        self.ers_fault.lemma_wire_injective(&other.ers_fault);
        self.gear_box_damage.lemma_wire_injective(&other.gear_box_damage);
        self.engine_damage.lemma_wire_injective(&other.engine_damage);
        self.engine_mguh_wear.lemma_wire_injective(&other.engine_mguh_wear);
        self.engine_es_wear.lemma_wire_injective(&other.engine_es_wear);
        self.engine_ce_wear.lemma_wire_injective(&other.engine_ce_wear);
        self.engine_ice_wear.lemma_wire_injective(&other.engine_ice_wear);
        self.engine_mguk_wear.lemma_wire_injective(&other.engine_mguk_wear);
        self.engine_tc_wear.lemma_wire_injective(&other.engine_tc_wear);
        self.engine_blown.lemma_wire_injective(&other.engine_blown);
        self.engine_seized.lemma_wire_injective(&other.engine_seized);
    }

    fn size() -> (n: usize) {
        42
    }

    fn decode(bytes: &[u8], at: usize) -> (value: Self) {
        broadcast use lemma_subrange_join;

        let tyres_wear: [Float32; 4] = decode_array(bytes, at);
        let tyres_damage: [u8; 4] = decode_array(bytes, at + 16);
        let brakes_damage: [u8; 4] = decode_array(bytes, at + 20);
        let front_left_wing_damage: u8 = u8::decode(bytes, at + 24);
        let front_right_wing_damage: u8 = u8::decode(bytes, at + 25);
        let rear_wing_damage: u8 = u8::decode(bytes, at + 26);
        let floor_damage: u8 = u8::decode(bytes, at + 27);
        let diffuser_damage: u8 = u8::decode(bytes, at + 28);
        let sidepod_damage: u8 = u8::decode(bytes, at + 29);
        let drs_fault: u8 = u8::decode(bytes, at + 30);
        let ers_fault: u8 = u8::decode(bytes, at + 31);
        let gear_box_damage: u8 = u8::decode(bytes, at + 32);
        let engine_damage: u8 = u8::decode(bytes, at + 33);
        let engine_mguh_wear: u8 = u8::decode(bytes, at + 34);
        let engine_es_wear: u8 = u8::decode(bytes, at + 35);
        let engine_ce_wear: u8 = u8::decode(bytes, at + 36);
        let engine_ice_wear: u8 = u8::decode(bytes, at + 37);
        let engine_mguk_wear: u8 = u8::decode(bytes, at + 38);
        let engine_tc_wear: u8 = u8::decode(bytes, at + 39);
        let engine_blown: u8 = u8::decode(bytes, at + 40);
        let engine_seized: u8 = u8::decode(bytes, at + 41);
        CarDamageData {
            tyres_wear,
            tyres_damage,
            brakes_damage,
            front_left_wing_damage,
            front_right_wing_damage,
            rear_wing_damage,
            floor_damage,
            diffuser_damage,
            sidepod_damage,
            drs_fault,
            ers_fault,
            gear_box_damage,
            engine_damage,
            engine_mguh_wear,
            engine_es_wear,
            engine_ce_wear,
            engine_ice_wear,
            engine_mguk_wear,
            engine_tc_wear,
            engine_blown,
            engine_seized,
        }
    }

    fn encode(&self, out: &mut Vec<u8>) {
        broadcast use lemma_concat_assoc;

        encode_all(self.tyres_wear.as_slice(), out);
        encode_all(self.tyres_damage.as_slice(), out);
        encode_all(self.brakes_damage.as_slice(), out);
        self.front_left_wing_damage.encode(out);
        self.front_right_wing_damage.encode(out);
        self.rear_wing_damage.encode(out);
        self.floor_damage.encode(out);
        self.diffuser_damage.encode(out);
        self.sidepod_damage.encode(out);
        self.drs_fault.encode(out);
        self.ers_fault.encode(out);
        self.gear_box_damage.encode(out);
        self.engine_damage.encode(out);
        self.engine_mguh_wear.encode(out);
        self.engine_es_wear.encode(out);
        self.engine_ce_wear.encode(out);
        self.engine_ice_wear.encode(out);
        self.engine_mguk_wear.encode(out);
        self.engine_tc_wear.encode(out);
        self.engine_blown.encode(out);
        self.engine_seized.encode(out);
    }
}

/// The number of bytes the record takes, header included.
pub const CAR_DAMAGE_SIZE: usize = 948;

/// The damage of every car.
#[derive(Clone, Copy, Debug, PartialEq, Eq)]
pub struct PacketCarDamageData {
    pub header: PacketHeader,
    pub car_damage_data: [CarDamageData; 22],
}

impl Wire for PacketCarDamageData {
    open spec fn wire(&self) -> Seq<u8> {
        self.header.wire() + wire_all(self.car_damage_data@)
    }

    open spec fn width() -> nat {
        948
    }

    open spec fn canonical(&self) -> bool {
        self.header.canonical()
    }

    proof fn lemma_wire_len(&self) {
        self.header.lemma_wire_len();
        lemma_wire_array_len(&self.car_damage_data);
    }

    proof fn lemma_wire_injective(&self, other: &Self) {
        broadcast use lemma_concat_cancel;

        assert(same_bytes(self.wire(), other.wire()));
        self.header.lemma_wire_len();
        other.header.lemma_wire_len();
        lemma_wire_array_len(&self.car_damage_data);
        lemma_wire_array_len(&other.car_damage_data);
        self.header.lemma_wire_injective(&other.header);
        lemma_wire_array_injective(&self.car_damage_data, &other.car_damage_data);
    }

    fn size() -> (n: usize) {
        CAR_DAMAGE_SIZE
    }

    fn decode(bytes: &[u8], at: usize) -> (value: Self) {
        broadcast use lemma_subrange_join;

        let header: PacketHeader = PacketHeader::decode(bytes, at);
        let car_damage_data: [CarDamageData; 22] = decode_array(bytes, at + 24);
        PacketCarDamageData { header, car_damage_data }
    }

    fn encode(&self, out: &mut Vec<u8>) {
        broadcast use lemma_concat_assoc;

        self.header.encode(out);
        encode_all(self.car_damage_data.as_slice(), out);
    }
}

} // verus!
