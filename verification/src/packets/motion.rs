//! The motion record.
use crate::packets::header::PacketHeader;
use crate::wire::{
    decode_array, encode_all, group_integer_widths, lemma_concat_assoc, lemma_concat_cancel,
    lemma_subrange_join, lemma_wire_array_injective, lemma_wire_array_len, same_bytes, wire_all,
    Float32, Wire,
};
use vstd::prelude::*;

verus! {

/// How one car moves: where it is, how fast it goes and which way it points.
#[derive(Clone, Copy, Debug, PartialEq, Eq)]
pub struct CarMotionData {
    /// World space X position.
    pub world_position_x: Float32,
    /// World space Y position.
    pub world_position_y: Float32,
    /// World space Z position.
    pub world_position_z: Float32,
    /// Velocity in world space X.
    pub world_velocity_x: Float32,
    /// Velocity in world space Y.
    pub world_velocity_y: Float32,
    /// Velocity in world space Z.
    pub world_velocity_z: Float32,
    /// World space forward X direction (normalised).
    pub world_forward_dir_x: i16,
    /// World space forward Y direction (normalised).
    pub world_forward_dir_y: i16,
    /// World space forward Z direction (normalised).
    pub world_forward_dir_z: i16,
    /// World space right X direction (normalised).
    pub world_right_dir_x: i16,
    /// World space right Y direction (normalised).
    pub world_right_dir_y: i16,
    /// World space right Z direction (normalised).
    pub world_right_dir_z: i16,
    /// Lateral G-Force component.
    pub g_force_lateral: Float32,
    /// Longitudinal G-Force component.
    pub g_force_longitudinal: Float32,
    /// Vertical G-Force component.
    pub g_force_vertical: Float32,
    /// Yaw angle in radians.
    pub yaw: Float32,
    /// Pitch angle in radians.
    pub pitch: Float32,
    /// Roll angle in radians.
    pub roll: Float32,
}

impl Wire for CarMotionData {
    open spec fn wire(&self) -> Seq<u8> {
        self.world_position_x.wire() + self.world_position_y.wire() + self.world_position_z.wire()
            + self.world_velocity_x.wire() + self.world_velocity_y.wire()
            + self.world_velocity_z.wire() + self.world_forward_dir_x.wire()
            + self.world_forward_dir_y.wire() + self.world_forward_dir_z.wire()
            + self.world_right_dir_x.wire() + self.world_right_dir_y.wire()
            + self.world_right_dir_z.wire() + self.g_force_lateral.wire()
            + self.g_force_longitudinal.wire() + self.g_force_vertical.wire() + self.yaw.wire()
            + self.pitch.wire() + self.roll.wire()
    }

    open spec fn width() -> nat {
        60
    }

    open spec fn canonical(&self) -> bool {
        true
    }

    proof fn lemma_wire_len(&self) {
        broadcast use group_integer_widths;
    }

    proof fn lemma_wire_injective(&self, other: &Self) {
        broadcast use {lemma_concat_cancel, group_integer_widths};

        assert(same_bytes(self.wire(), other.wire()));
        self.world_position_x.lemma_wire_injective(&other.world_position_x);
        self.world_position_y.lemma_wire_injective(&other.world_position_y);
        self.world_position_z.lemma_wire_injective(&other.world_position_z);
        self.world_velocity_x.lemma_wire_injective(&other.world_velocity_x);
        self.world_velocity_y.lemma_wire_injective(&other.world_velocity_y);
        self.world_velocity_z.lemma_wire_injective(&other.world_velocity_z);
        self.world_forward_dir_x.lemma_wire_injective(&other.world_forward_dir_x);
        self.world_forward_dir_y.lemma_wire_injective(&other.world_forward_dir_y);
        self.world_forward_dir_z.lemma_wire_injective(&other.world_forward_dir_z);
        self.world_right_dir_x.lemma_wire_injective(&other.world_right_dir_x);
        self.world_right_dir_y.lemma_wire_injective(&other.world_right_dir_y);
        self.world_right_dir_z.lemma_wire_injective(&other.world_right_dir_z);
        self.g_force_lateral.lemma_wire_injective(&other.g_force_lateral);
        self.g_force_longitudinal.lemma_wire_injective(&other.g_force_longitudinal);
        self.g_force_vertical.lemma_wire_injective(&other.g_force_vertical);
        self.yaw.lemma_wire_injective(&other.yaw);
        self.pitch.lemma_wire_injective(&other.pitch);
        self.roll.lemma_wire_injective(&other.roll);
    }

    fn size() -> (n: usize) {
        60
    }

    fn decode(bytes: &[u8], at: usize) -> (value: Self) {
        broadcast use lemma_subrange_join;

        let world_position_x: Float32 = Float32::decode(bytes, at);
        let world_position_y: Float32 = Float32::decode(bytes, at + 4);
        let world_position_z: Float32 = Float32::decode(bytes, at + 8);
        let world_velocity_x: Float32 = Float32::decode(bytes, at + 12);
        let world_velocity_y: Float32 = Float32::decode(bytes, at + 16);
        let world_velocity_z: Float32 = Float32::decode(bytes, at + 20);
        let world_forward_dir_x: i16 = i16::decode(bytes, at + 24);
        let world_forward_dir_y: i16 = i16::decode(bytes, at + 26);
        let world_forward_dir_z: i16 = i16::decode(bytes, at + 28);
        let world_right_dir_x: i16 = i16::decode(bytes, at + 30);
        let world_right_dir_y: i16 = i16::decode(bytes, at + 32);
        let world_right_dir_z: i16 = i16::decode(bytes, at + 34);
        let g_force_lateral: Float32 = Float32::decode(bytes, at + 36);
        let g_force_longitudinal: Float32 = Float32::decode(bytes, at + 40);
        let g_force_vertical: Float32 = Float32::decode(bytes, at + 44);
        let yaw: Float32 = Float32::decode(bytes, at + 48);
        let pitch: Float32 = Float32::decode(bytes, at + 52);
        let roll: Float32 = Float32::decode(bytes, at + 56);
        CarMotionData {
            world_position_x,
            world_position_y,
            world_position_z,
            world_velocity_x,
            world_velocity_y,
            world_velocity_z,
            world_forward_dir_x,
            world_forward_dir_y,
            world_forward_dir_z,
            world_right_dir_x,
            world_right_dir_y,
            world_right_dir_z,
            g_force_lateral,
            g_force_longitudinal,
            g_force_vertical,
            yaw,
            pitch,
            roll,
        }
    }

    fn encode(&self, out: &mut Vec<u8>) {
        broadcast use lemma_concat_assoc;

        self.world_position_x.encode(out);
        self.world_position_y.encode(out);
        self.world_position_z.encode(out);
        self.world_velocity_x.encode(out);
        self.world_velocity_y.encode(out);
        self.world_velocity_z.encode(out);
        self.world_forward_dir_x.encode(out);
        self.world_forward_dir_y.encode(out);
        self.world_forward_dir_z.encode(out);
        self.world_right_dir_x.encode(out);
        self.world_right_dir_y.encode(out);
        self.world_right_dir_z.encode(out);
        self.g_force_lateral.encode(out);
        self.g_force_longitudinal.encode(out);
        self.g_force_vertical.encode(out);
        self.yaw.encode(out);
        self.pitch.encode(out);
        self.roll.encode(out);
    }
}

/// The number of bytes the record takes, header included.
pub const MOTION_SIZE: usize = 1464;

/// The motion of every car, with the suspension and wheels of the player's car.
#[derive(Clone, Copy, Debug, PartialEq, Eq)]
pub struct PacketMotionData {
    pub header: PacketHeader,
    /// One entry for each car, by slot.
    pub car_motion_data: [CarMotionData; 22],
    /// RL, RR, FL, FR.
    pub suspension_velocity: [Float32; 4],
    /// RL, RR, FL, FR.
    pub suspension_acceleration: [Float32; 4],
    /// RL, RR, FL, FR.
    pub suspension_position: [Float32; 4],
    /// Speed of each wheel.
    pub wheel_speed: [Float32; 4],
    /// Slip ratio for each wheel.
    pub wheel_slip: [Float32; 4],
    /// Velocity in local space.
    pub local_velocity_x: Float32,
    /// Velocity in local space.
    pub local_velocity_y: Float32,
    /// Velocity in local space.
    pub local_velocity_z: Float32,
    /// Angular velocity x-component.
    pub angular_velocity_x: Float32,
    /// Angular velocity y-component.
    pub angular_velocity_y: Float32,
    /// Angular velocity z-component.
    pub angular_velocity_z: Float32,
    /// Angular acceleration x-component.
    pub angular_acceleration_x: Float32,
    /// Angular acceleration y-component.
    pub angular_acceleration_y: Float32,
    /// Angular acceleration z-component.
    pub angular_acceleration_z: Float32,
    /// Current front wheels angle in radians.
    pub front_wheels_angle: Float32,
}

impl Wire for PacketMotionData {
    open spec fn wire(&self) -> Seq<u8> {
        self.header.wire() + wire_all(self.car_motion_data@) + wire_all(self.suspension_velocity@)
            + wire_all(self.suspension_acceleration@) + wire_all(self.suspension_position@)
            + wire_all(self.wheel_speed@) + wire_all(self.wheel_slip@)
            + self.local_velocity_x.wire() + self.local_velocity_y.wire()
            + self.local_velocity_z.wire() + self.angular_velocity_x.wire()
            + self.angular_velocity_y.wire() + self.angular_velocity_z.wire()
            + self.angular_acceleration_x.wire() + self.angular_acceleration_y.wire()
            + self.angular_acceleration_z.wire() + self.front_wheels_angle.wire()
    }

    open spec fn width() -> nat {
        1464
    }

    open spec fn canonical(&self) -> bool {
        self.header.canonical()
    }

    proof fn lemma_wire_len(&self) {
        broadcast use group_integer_widths;

        self.header.lemma_wire_len();
        lemma_wire_array_len(&self.car_motion_data);
        lemma_wire_array_len(&self.suspension_velocity);
        lemma_wire_array_len(&self.suspension_acceleration);
        lemma_wire_array_len(&self.suspension_position);
        lemma_wire_array_len(&self.wheel_speed);
        lemma_wire_array_len(&self.wheel_slip);
    }

    proof fn lemma_wire_injective(&self, other: &Self) {
        broadcast use {lemma_concat_cancel, group_integer_widths};

        assert(same_bytes(self.wire(), other.wire()));
        self.header.lemma_wire_len();
        other.header.lemma_wire_len();
        lemma_wire_array_len(&self.car_motion_data);
        lemma_wire_array_len(&other.car_motion_data);
        lemma_wire_array_len(&self.suspension_velocity);
        lemma_wire_array_len(&other.suspension_velocity);
        lemma_wire_array_len(&self.suspension_acceleration);
        lemma_wire_array_len(&other.suspension_acceleration);
        lemma_wire_array_len(&self.suspension_position);
        lemma_wire_array_len(&other.suspension_position);
        lemma_wire_array_len(&self.wheel_speed);
        lemma_wire_array_len(&other.wheel_speed);
        lemma_wire_array_len(&self.wheel_slip);
        lemma_wire_array_len(&other.wheel_slip);
        self.header.lemma_wire_injective(&other.header);
        lemma_wire_array_injective(&self.car_motion_data, &other.car_motion_data);
        lemma_wire_array_injective(&self.suspension_velocity, &other.suspension_velocity);
        lemma_wire_array_injective(&self.suspension_acceleration, &other.suspension_acceleration);
        lemma_wire_array_injective(&self.suspension_position, &other.suspension_position);
        lemma_wire_array_injective(&self.wheel_speed, &other.wheel_speed);
        lemma_wire_array_injective(&self.wheel_slip, &other.wheel_slip);
        self.local_velocity_x.lemma_wire_injective(&other.local_velocity_x);
        self.local_velocity_y.lemma_wire_injective(&other.local_velocity_y);
        self.local_velocity_z.lemma_wire_injective(&other.local_velocity_z);
        self.angular_velocity_x.lemma_wire_injective(&other.angular_velocity_x);
        self.angular_velocity_y.lemma_wire_injective(&other.angular_velocity_y);
        self.angular_velocity_z.lemma_wire_injective(&other.angular_velocity_z);
        self.angular_acceleration_x.lemma_wire_injective(&other.angular_acceleration_x);
        self.angular_acceleration_y.lemma_wire_injective(&other.angular_acceleration_y);
        self.angular_acceleration_z.lemma_wire_injective(&other.angular_acceleration_z);
        self.front_wheels_angle.lemma_wire_injective(&other.front_wheels_angle);
    }

    fn size() -> (n: usize) {
        MOTION_SIZE
    }

    fn decode(bytes: &[u8], at: usize) -> (value: Self) {
        broadcast use lemma_subrange_join;

        let header: PacketHeader = PacketHeader::decode(bytes, at);
        let car_motion_data: [CarMotionData; 22] = decode_array(bytes, at + 24);
        let suspension_velocity: [Float32; 4] = decode_array(bytes, at + 1344);
        let suspension_acceleration: [Float32; 4] = decode_array(bytes, at + 1360);
        let suspension_position: [Float32; 4] = decode_array(bytes, at + 1376);
        let wheel_speed: [Float32; 4] = decode_array(bytes, at + 1392);
        let wheel_slip: [Float32; 4] = decode_array(bytes, at + 1408);
        let local_velocity_x: Float32 = Float32::decode(bytes, at + 1424);
        let local_velocity_y: Float32 = Float32::decode(bytes, at + 1428);
        let local_velocity_z: Float32 = Float32::decode(bytes, at + 1432);
        let angular_velocity_x: Float32 = Float32::decode(bytes, at + 1436);
        let angular_velocity_y: Float32 = Float32::decode(bytes, at + 1440);
        let angular_velocity_z: Float32 = Float32::decode(bytes, at + 1444);
        let angular_acceleration_x: Float32 = Float32::decode(bytes, at + 1448);
        let angular_acceleration_y: Float32 = Float32::decode(bytes, at + 1452);
        let angular_acceleration_z: Float32 = Float32::decode(bytes, at + 1456);
        let front_wheels_angle: Float32 = Float32::decode(bytes, at + 1460);
        PacketMotionData {
            header,
            car_motion_data,
            suspension_velocity,
            suspension_acceleration,
            suspension_position,
            wheel_speed,
            wheel_slip,
            local_velocity_x,
            local_velocity_y,
            local_velocity_z,
            angular_velocity_x,
            angular_velocity_y,
            angular_velocity_z,
            angular_acceleration_x,
            angular_acceleration_y,
            angular_acceleration_z,
            front_wheels_angle,
        }
    }

    fn encode(&self, out: &mut Vec<u8>) {
        broadcast use lemma_concat_assoc;

        self.header.encode(out);
        encode_all(self.car_motion_data.as_slice(), out);
        encode_all(self.suspension_velocity.as_slice(), out);
        encode_all(self.suspension_acceleration.as_slice(), out);
        encode_all(self.suspension_position.as_slice(), out);
        encode_all(self.wheel_speed.as_slice(), out);
        encode_all(self.wheel_slip.as_slice(), out);
        self.local_velocity_x.encode(out);
        self.local_velocity_y.encode(out);
        self.local_velocity_z.encode(out);
        self.angular_velocity_x.encode(out);
        self.angular_velocity_y.encode(out);
        self.angular_velocity_z.encode(out);
        self.angular_acceleration_x.encode(out);
        self.angular_acceleration_y.encode(out);
        self.angular_acceleration_z.encode(out);
        self.front_wheels_angle.encode(out);
    }
}

} // verus!
