//! The buttons of a controller.
use vstd::prelude::*;

verus! {

/// One button of the controller, or one of the actions that can be bound to a key.
#[derive(Clone, Copy, Debug, PartialEq, Eq, Structural)]
pub enum ButtonFlag {
    CrossorA,
    TriangleorY,
    CircleorB,
    SquareorX,
    DpadLeft,
    DpadRight,
    DpadUp,
    DpadDown,
    OptionsorMenu,
    L1orLB,
    R1orRB,
    L2orLT,
    R2orRT,
    LeftStickClick,
    RightStickClick,
    RightStickLeft,
    RightStickRight,
    RightStickUp,
    RightStickDown,
    Special,
    UDPAction1,
    UDPAction2,
    UDPAction3,
    UDPAction4,
    UDPAction5,
    UDPAction6,
    UDPAction7,
    UDPAction8,
    UDPAction9,
    UDPAction10,
    UDPAction11,
    UDPAction12,
}

impl ButtonFlag {
    /// The bit that is set in a button status while the button is held down.
    pub open spec fn mask(self) -> u32 {
        match self {
            ButtonFlag::CrossorA => 0x00000001,
            ButtonFlag::TriangleorY => 0x00000002,
            ButtonFlag::CircleorB => 0x00000004,
            ButtonFlag::SquareorX => 0x00000008,
            ButtonFlag::DpadLeft => 0x00000010,
            ButtonFlag::DpadRight => 0x00000020,
            ButtonFlag::DpadUp => 0x00000040,
            ButtonFlag::DpadDown => 0x00000080,
            ButtonFlag::OptionsorMenu => 0x00000100,
            ButtonFlag::L1orLB => 0x00000200,
            ButtonFlag::R1orRB => 0x00000400,
            ButtonFlag::L2orLT => 0x00000800,
            ButtonFlag::R2orRT => 0x00001000,
            ButtonFlag::LeftStickClick => 0x00002000,
            ButtonFlag::RightStickClick => 0x00004000,
            ButtonFlag::RightStickLeft => 0x00008000,
            ButtonFlag::RightStickRight => 0x00010000,
            ButtonFlag::RightStickUp => 0x00020000,
            ButtonFlag::RightStickDown => 0x00040000,
            ButtonFlag::Special => 0x00080000,
            ButtonFlag::UDPAction1 => 0x00100000,
            ButtonFlag::UDPAction2 => 0x00200000,
            ButtonFlag::UDPAction3 => 0x00400000,
            ButtonFlag::UDPAction4 => 0x00800000,
            ButtonFlag::UDPAction5 => 0x01000000,
            ButtonFlag::UDPAction6 => 0x02000000,
            ButtonFlag::UDPAction7 => 0x04000000,
            ButtonFlag::UDPAction8 => 0x08000000,
            ButtonFlag::UDPAction9 => 0x10000000,
            ButtonFlag::UDPAction10 => 0x20000000,
            ButtonFlag::UDPAction11 => 0x40000000,
            ButtonFlag::UDPAction12 => 0x80000000,
        }
    }

    /// The bit that is set in a button status while the button is held down.
    pub fn as_u32(&self) -> (mask: u32)
        ensures
            mask == self.mask(),
    {
        match self {
            ButtonFlag::CrossorA => 0x00000001,
            ButtonFlag::TriangleorY => 0x00000002,
            ButtonFlag::CircleorB => 0x00000004,
            ButtonFlag::SquareorX => 0x00000008,
            ButtonFlag::DpadLeft => 0x00000010,
            ButtonFlag::DpadRight => 0x00000020,
            ButtonFlag::DpadUp => 0x00000040,
            ButtonFlag::DpadDown => 0x00000080,
            ButtonFlag::OptionsorMenu => 0x00000100,
            ButtonFlag::L1orLB => 0x00000200,
            ButtonFlag::R1orRB => 0x00000400,
            ButtonFlag::L2orLT => 0x00000800,
            ButtonFlag::R2orRT => 0x00001000,
            ButtonFlag::LeftStickClick => 0x00002000,
            ButtonFlag::RightStickClick => 0x00004000,
            ButtonFlag::RightStickLeft => 0x00008000,
            ButtonFlag::RightStickRight => 0x00010000,
            ButtonFlag::RightStickUp => 0x00020000,
            ButtonFlag::RightStickDown => 0x00040000,
            ButtonFlag::Special => 0x00080000,
            ButtonFlag::UDPAction1 => 0x00100000,
            ButtonFlag::UDPAction2 => 0x00200000,
            ButtonFlag::UDPAction3 => 0x00400000,
            ButtonFlag::UDPAction4 => 0x00800000,
            ButtonFlag::UDPAction5 => 0x01000000,
            ButtonFlag::UDPAction6 => 0x02000000,
            ButtonFlag::UDPAction7 => 0x04000000,
            ButtonFlag::UDPAction8 => 0x08000000,
            ButtonFlag::UDPAction9 => 0x10000000,
            ButtonFlag::UDPAction10 => 0x20000000,
            ButtonFlag::UDPAction11 => 0x40000000,
            ButtonFlag::UDPAction12 => 0x80000000,
        }
    }

    /// What the button is called; the bound actions share one name.
    pub open spec fn label(self) -> Seq<char> {
        match self {
            ButtonFlag::CrossorA => "Cross/A"@,
            ButtonFlag::TriangleorY => "Triangle/Y"@,
            ButtonFlag::CircleorB => "Circle/B"@,
            ButtonFlag::SquareorX => "Square/X"@,
            ButtonFlag::DpadLeft => "Dpad Left"@,
            ButtonFlag::DpadRight => "Dpad Right"@,
            ButtonFlag::DpadUp => "Dpad Up"@,
            ButtonFlag::DpadDown => "Dpad Down"@,
            ButtonFlag::OptionsorMenu => "Option/Menu"@,
            ButtonFlag::L1orLB => "L1/LB"@,
            ButtonFlag::R1orRB => "R1/RB"@,
            ButtonFlag::L2orLT => "L2/LT"@,
            ButtonFlag::R2orRT => "R2/RT"@,
            ButtonFlag::LeftStickClick => "Left Stick Click"@,
            ButtonFlag::RightStickClick => "Right Stick Click"@,
            ButtonFlag::RightStickLeft => "Right Stick Left"@,
            ButtonFlag::RightStickRight => "Right Stick Right"@,
            ButtonFlag::RightStickUp => "Right Stick Up"@,
            ButtonFlag::RightStickDown => "Right Stick Down"@,
            ButtonFlag::Special => "Special"@,
            _ => "UDP Action"@,
        }
    }

    /// What the button is called; the bound actions share one name.
    pub fn as_str(&self) -> (text: &'static str)
        ensures
            text@ == self.label(),
    {
        match self {
            ButtonFlag::CrossorA => "Cross/A",
            ButtonFlag::TriangleorY => "Triangle/Y",
            ButtonFlag::CircleorB => "Circle/B",
            ButtonFlag::SquareorX => "Square/X",
            ButtonFlag::DpadLeft => "Dpad Left",
            ButtonFlag::DpadRight => "Dpad Right",
            ButtonFlag::DpadUp => "Dpad Up",
            ButtonFlag::DpadDown => "Dpad Down",
            ButtonFlag::OptionsorMenu => "Option/Menu",
            ButtonFlag::L1orLB => "L1/LB",
            ButtonFlag::R1orRB => "R1/RB",
            ButtonFlag::L2orLT => "L2/LT",
            ButtonFlag::R2orRT => "R2/RT",
            ButtonFlag::LeftStickClick => "Left Stick Click",
            ButtonFlag::RightStickClick => "Right Stick Click",
            ButtonFlag::RightStickLeft => "Right Stick Left",
            ButtonFlag::RightStickRight => "Right Stick Right",
            ButtonFlag::RightStickUp => "Right Stick Up",
            ButtonFlag::RightStickDown => "Right Stick Down",
            ButtonFlag::Special => "Special",
            _ => "UDP Action",
        }
    }
}

} // verus!
