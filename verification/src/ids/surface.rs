//! Driving surfaces.
use crate::wire::Wire;
use vstd::prelude::*;

verus! {

/// The surface a wheel is in contact with.
#[derive(Clone, Copy, Debug, PartialEq, Eq, Structural)]
pub enum SurfaceType {
    Tarmac,
    RumbleStrip,
    Concrete,
    Rock,
    Gravel,
    Mud,
    Sand,
    Grass,
    Water,
    Cobblestone,
    Metal,
    Ridged,
    /// A number the protocol does not list for a surface.
    Other(u8),
}

impl SurfaceType {
    /// Whether the protocol lists `code` for a surface.
    pub open spec fn is_listed(code: u8) -> bool {
        code <= 11
    }

    /// The number that stands for the value in a datagram.
    pub open spec fn code(self) -> u8 {
        match self {
            SurfaceType::Tarmac => 0,
            SurfaceType::RumbleStrip => 1,
            SurfaceType::Concrete => 2,
            SurfaceType::Rock => 3,
            SurfaceType::Gravel => 4,
            SurfaceType::Mud => 5,
            SurfaceType::Sand => 6,
            SurfaceType::Grass => 7,
            SurfaceType::Water => 8,
            SurfaceType::Cobblestone => 9,
            SurfaceType::Metal => 10,
            SurfaceType::Ridged => 11,
            SurfaceType::Other(code) => code,
        }
    }

    /// The number that stands for the value in a datagram.
    pub fn as_u8(&self) -> (code: u8)
        ensures
            code == self.code(),
    {
        match self {
            SurfaceType::Tarmac => 0,
            SurfaceType::RumbleStrip => 1,
            SurfaceType::Concrete => 2,
            SurfaceType::Rock => 3,
            SurfaceType::Gravel => 4,
            SurfaceType::Mud => 5,
            SurfaceType::Sand => 6,
            SurfaceType::Grass => 7,
            SurfaceType::Water => 8,
            SurfaceType::Cobblestone => 9,
            SurfaceType::Metal => 10,
            SurfaceType::Ridged => 11,
            SurfaceType::Other(code) => *code,
        }
    }

    /// The value that `code` stands for: the listed one where there is one,
    /// `Other` with the number kept where there is none.
    pub fn from_u8(code: u8) -> (value: Self)
        ensures
            value.code() == code,
            value.canonical(),
    {
        match code {
            0 => SurfaceType::Tarmac,
            1 => SurfaceType::RumbleStrip,
            2 => SurfaceType::Concrete,
            3 => SurfaceType::Rock,
            4 => SurfaceType::Gravel,
            5 => SurfaceType::Mud,
            6 => SurfaceType::Sand,
            7 => SurfaceType::Grass,
            8 => SurfaceType::Water,
            9 => SurfaceType::Cobblestone,
            10 => SurfaceType::Metal,
            11 => SurfaceType::Ridged,
            _ => SurfaceType::Other(code),
        }
    }
}

impl Wire for SurfaceType {
    open spec fn wire(&self) -> Seq<u8> {
        self.code().wire()
    }

    open spec fn width() -> nat {
        1
    }

    open spec fn canonical(&self) -> bool {
        match self {
            SurfaceType::Other(code) => !Self::is_listed(*code),
            _ => true,
        }
    }

    proof fn lemma_wire_len(&self) {
    }

    proof fn lemma_wire_injective(&self, other: &Self) {
        self.code().lemma_wire_injective(&other.code());
    }

    fn size() -> (n: usize) {
        1
    }

    fn decode(bytes: &[u8], at: usize) -> (value: Self) {
        Self::from_u8(u8::decode(bytes, at))
    }

    fn encode(&self, out: &mut Vec<u8>) {
        self.as_u8().encode(out);
    }
}

} // verus!
