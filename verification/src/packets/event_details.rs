//! What an event record says of each kind of event: twelve bytes, and the
//! reading of them that goes with each code.
use crate::ids::{ButtonFlag, InfringementType, PenaltyType};
use crate::wire::{
    decode_array, encode_all, group_integer_widths, lemma_concat_assoc, lemma_concat_cancel,
    lemma_subrange_join, lemma_value_of, lemma_wire_array_injective, lemma_wire_array_len,
    same_bytes, value_of, wire_all, Float32, Wire,
};
use vstd::prelude::*;

verus! {

/// A car has set the fastest lap.
#[derive(Clone, Copy, Debug, PartialEq, Eq)]
pub struct FastestLap {
    /// Vehicle index of car achieving fastest lap.
    pub vehicle_idx: u8,
    /// Lap time is in seconds.
    pub lap_time: Float32,
}

impl Wire for FastestLap {
    open spec fn wire(&self) -> Seq<u8> {
        self.vehicle_idx.wire() + self.lap_time.wire()
    }

    open spec fn width() -> nat {
        5
    }

    open spec fn canonical(&self) -> bool {
        true
    }

    proof fn lemma_wire_len(&self) {
        broadcast use group_integer_widths;
    }

    proof fn lemma_wire_injective(&self, other: &Self) {
        broadcast use {lemma_concat_cancel, group_integer_widths};

        assert(same_bytes(self.wire(), other.wire()));
        self.vehicle_idx.lemma_wire_injective(&other.vehicle_idx);
        self.lap_time.lemma_wire_injective(&other.lap_time);
    }

    fn size() -> (n: usize) {
        5
    }

    fn decode(bytes: &[u8], at: usize) -> (value: Self) {
        broadcast use lemma_subrange_join;

        let vehicle_idx: u8 = u8::decode(bytes, at);
        let lap_time: Float32 = Float32::decode(bytes, at + 1);
        FastestLap { vehicle_idx, lap_time }
    }

    fn encode(&self, out: &mut Vec<u8>) {
        broadcast use lemma_concat_assoc;

        self.vehicle_idx.encode(out);
        self.lap_time.encode(out);
    }
}

/// A car has retired.
#[derive(Clone, Copy, Debug, PartialEq, Eq)]
pub struct Retirement {
    /// Vehicle index of car retiring.
    pub vehicle_idx: u8,
}

impl Wire for Retirement {
    open spec fn wire(&self) -> Seq<u8> {
        self.vehicle_idx.wire()
    }

    open spec fn width() -> nat {
        1
    }

    open spec fn canonical(&self) -> bool {
        true
    }

    proof fn lemma_wire_len(&self) {
    }

    proof fn lemma_wire_injective(&self, other: &Self) {
        broadcast use lemma_concat_cancel;

        assert(same_bytes(self.wire(), other.wire()));
        self.vehicle_idx.lemma_wire_injective(&other.vehicle_idx);
    }

    fn size() -> (n: usize) {
        1
    }

    fn decode(bytes: &[u8], at: usize) -> (value: Self) {
        broadcast use lemma_subrange_join;

        let vehicle_idx: u8 = u8::decode(bytes, at);
        Retirement { vehicle_idx }
    }

    fn encode(&self, out: &mut Vec<u8>) {
        broadcast use lemma_concat_assoc;

        self.vehicle_idx.encode(out);
    }
}

/// The player's team mate has entered the pits.
#[derive(Clone, Copy, Debug, PartialEq, Eq)]
pub struct TeamMateInPits {
    /// Vehicle index of team mate.
    pub vehicle_idx: u8,
}

impl Wire for TeamMateInPits {
    open spec fn wire(&self) -> Seq<u8> {
        self.vehicle_idx.wire()
    }

    open spec fn width() -> nat {
        1
    }

    open spec fn canonical(&self) -> bool {
        true
    }

    proof fn lemma_wire_len(&self) {
    }

    proof fn lemma_wire_injective(&self, other: &Self) {
        broadcast use lemma_concat_cancel;

        assert(same_bytes(self.wire(), other.wire()));
        self.vehicle_idx.lemma_wire_injective(&other.vehicle_idx);
    }

    fn size() -> (n: usize) {
        1
    }

    fn decode(bytes: &[u8], at: usize) -> (value: Self) {
        broadcast use lemma_subrange_join;

        let vehicle_idx: u8 = u8::decode(bytes, at);
        TeamMateInPits { vehicle_idx }
    }

    fn encode(&self, out: &mut Vec<u8>) {
        broadcast use lemma_concat_assoc;

        self.vehicle_idx.encode(out);
    }
}

/// The winner of the race is known.
#[derive(Clone, Copy, Debug, PartialEq, Eq)]
pub struct RaceWinner {
    /// Vehicle index of the race winner.
    pub vehicle_idx: u8,
}

impl Wire for RaceWinner {
    open spec fn wire(&self) -> Seq<u8> {
        self.vehicle_idx.wire()
    }

    open spec fn width() -> nat {
        1
    }

    open spec fn canonical(&self) -> bool {
        true
    }

    proof fn lemma_wire_len(&self) {
    }

    proof fn lemma_wire_injective(&self, other: &Self) {
        broadcast use lemma_concat_cancel;

        assert(same_bytes(self.wire(), other.wire()));
        self.vehicle_idx.lemma_wire_injective(&other.vehicle_idx);
    }

    fn size() -> (n: usize) {
        1
    }

    fn decode(bytes: &[u8], at: usize) -> (value: Self) {
        broadcast use lemma_subrange_join;

        let vehicle_idx: u8 = u8::decode(bytes, at);
        RaceWinner { vehicle_idx }
    }

    fn encode(&self, out: &mut Vec<u8>) {
        broadcast use lemma_concat_assoc;

        self.vehicle_idx.encode(out);
    }
}

/// A penalty has been handed out.
#[derive(Clone, Copy, Debug, PartialEq, Eq)]
pub struct Penalty {
    pub penalty_type: PenaltyType,
    pub infringement_type: InfringementType,
    /// Vehicle index of the car the penalty is applied to.
    pub vehicle_idx: u8,
    /// Vehicle index of the other car involved.
    pub other_vehicle_idx: u8,
    /// Time gained, or time spent doing action in seconds.
    pub time: u8,
    /// Lap the penalty occurred on.
    pub lap_num: u8,
    /// Number of places gained by this.
    pub places_gained: u8,
}

impl Wire for Penalty {
    open spec fn wire(&self) -> Seq<u8> {
        self.penalty_type.wire() + self.infringement_type.wire() + self.vehicle_idx.wire()
            + self.other_vehicle_idx.wire() + self.time.wire() + self.lap_num.wire()
            + self.places_gained.wire()
    }

    open spec fn width() -> nat {
        7
    }

    open spec fn canonical(&self) -> bool {
        self.penalty_type.canonical() && self.infringement_type.canonical()
    }

    proof fn lemma_wire_len(&self) {
    }

    proof fn lemma_wire_injective(&self, other: &Self) {
        broadcast use lemma_concat_cancel;

        assert(same_bytes(self.wire(), other.wire()));
        self.penalty_type.lemma_wire_injective(&other.penalty_type);
        self.infringement_type.lemma_wire_injective(&other.infringement_type);
        self.vehicle_idx.lemma_wire_injective(&other.vehicle_idx);
        self.other_vehicle_idx.lemma_wire_injective(&other.other_vehicle_idx);
        self.time.lemma_wire_injective(&other.time);
        self.lap_num.lemma_wire_injective(&other.lap_num);
        self.places_gained.lemma_wire_injective(&other.places_gained);
    }

    fn size() -> (n: usize) {
        7
    }

    fn decode(bytes: &[u8], at: usize) -> (value: Self) {
        broadcast use lemma_subrange_join;

        let penalty_type: PenaltyType = PenaltyType::decode(bytes, at);
        let infringement_type: InfringementType = InfringementType::decode(bytes, at + 1);
        let vehicle_idx: u8 = u8::decode(bytes, at + 2);
        let other_vehicle_idx: u8 = u8::decode(bytes, at + 3);
        let time: u8 = u8::decode(bytes, at + 4);
        let lap_num: u8 = u8::decode(bytes, at + 5);
        let places_gained: u8 = u8::decode(bytes, at + 6);
        Penalty {
            penalty_type,
            infringement_type,
            vehicle_idx,
            other_vehicle_idx,
            time,
            lap_num,
            places_gained,
        }
    }

    fn encode(&self, out: &mut Vec<u8>) {
        broadcast use lemma_concat_assoc;

        self.penalty_type.encode(out);
        self.infringement_type.encode(out);
        self.vehicle_idx.encode(out);
        self.other_vehicle_idx.encode(out);
        self.time.encode(out);
        self.lap_num.encode(out);
        self.places_gained.encode(out);
    }
}

/// A car has passed the speed trap.
#[derive(Clone, Copy, Debug, PartialEq, Eq)]
pub struct SpeedTrap {
    /// Vehicle index of the vehicle triggering speed trap.
    pub vehicle_idx: u8,
    /// Top speed achieved in kilometres per hour.
    pub speed: Float32,
    /// Overall fastest speed in session = 1, otherwise 0.
    pub is_overall_fastest_in_session: u8,
    /// Fastest speed for driver in session = 1, otherwise 0.
    pub is_driver_fastest_in_session: u8,
    /// Vehicle index of the vehicle that is the fastest in this session.
    pub fastest_vehicle_idx_in_session: u8,
    /// Speed of the vehicle that is the fastest in this session.
    pub fastest_speed_in_session: Float32,
}

impl Wire for SpeedTrap {
    open spec fn wire(&self) -> Seq<u8> {
        self.vehicle_idx.wire() + self.speed.wire() + self.is_overall_fastest_in_session.wire()
            + self.is_driver_fastest_in_session.wire() + self.fastest_vehicle_idx_in_session.wire()
            + self.fastest_speed_in_session.wire()
    }

    open spec fn width() -> nat {
        12
    }

    open spec fn canonical(&self) -> bool {
        true
    }

    proof fn lemma_wire_len(&self) {
        broadcast use group_integer_widths;
    }

    proof fn lemma_wire_injective(&self, other: &Self) {
        broadcast use {lemma_concat_cancel, group_integer_widths};

        assert(same_bytes(self.wire(), other.wire()));
        self.vehicle_idx.lemma_wire_injective(&other.vehicle_idx);
        self.speed.lemma_wire_injective(&other.speed);
        self.is_overall_fastest_in_session.lemma_wire_injective(
            &other.is_overall_fastest_in_session,
        );
        self.is_driver_fastest_in_session.lemma_wire_injective(&other.is_driver_fastest_in_session);
        self.fastest_vehicle_idx_in_session.lemma_wire_injective(
            &other.fastest_vehicle_idx_in_session,
        );
        self.fastest_speed_in_session.lemma_wire_injective(&other.fastest_speed_in_session);
    }

    fn size() -> (n: usize) {
        12
    }

    fn decode(bytes: &[u8], at: usize) -> (value: Self) {
        broadcast use lemma_subrange_join;

        let vehicle_idx: u8 = u8::decode(bytes, at);
        let speed: Float32 = Float32::decode(bytes, at + 1);
        let is_overall_fastest_in_session: u8 = u8::decode(bytes, at + 5);
        let is_driver_fastest_in_session: u8 = u8::decode(bytes, at + 6);
        let fastest_vehicle_idx_in_session: u8 = u8::decode(bytes, at + 7);
        let fastest_speed_in_session: Float32 = Float32::decode(bytes, at + 8);
        SpeedTrap {
            vehicle_idx,
            speed,
            is_overall_fastest_in_session,
            is_driver_fastest_in_session,
            fastest_vehicle_idx_in_session,
            fastest_speed_in_session,
        }
    }

    fn encode(&self, out: &mut Vec<u8>) {
        broadcast use lemma_concat_assoc;

        self.vehicle_idx.encode(out);
        self.speed.encode(out);
        self.is_overall_fastest_in_session.encode(out);
        self.is_driver_fastest_in_session.encode(out);
        self.fastest_vehicle_idx_in_session.encode(out);
        self.fastest_speed_in_session.encode(out);
    }
}

/// The start lights have changed.
#[derive(Clone, Copy, Debug, PartialEq, Eq)]
pub struct StartLights {
    /// Number of lights showing.
    pub num_lights: u8,
}

impl Wire for StartLights {
    open spec fn wire(&self) -> Seq<u8> {
        self.num_lights.wire()
    }

    open spec fn width() -> nat {
        1
    }

    open spec fn canonical(&self) -> bool {
        true
    }

    proof fn lemma_wire_len(&self) {
    }

    proof fn lemma_wire_injective(&self, other: &Self) {
        broadcast use lemma_concat_cancel;

        assert(same_bytes(self.wire(), other.wire()));
        self.num_lights.lemma_wire_injective(&other.num_lights);
    }

    fn size() -> (n: usize) {
        1
    }

    fn decode(bytes: &[u8], at: usize) -> (value: Self) {
        broadcast use lemma_subrange_join;

        let num_lights: u8 = u8::decode(bytes, at);
        StartLights { num_lights }
    }

    fn encode(&self, out: &mut Vec<u8>) {
        broadcast use lemma_concat_assoc;

        self.num_lights.encode(out);
    }
}

/// A car has served a drive-through penalty.
#[derive(Clone, Copy, Debug, PartialEq, Eq)]
pub struct DriveThroughPenaltyServed {
    /// Vehicle index of the vehicle serving drive through.
    pub vehicle_idx: u8,
}

impl Wire for DriveThroughPenaltyServed {
    open spec fn wire(&self) -> Seq<u8> {
        self.vehicle_idx.wire()
    }

    open spec fn width() -> nat {
        1
    }

    open spec fn canonical(&self) -> bool {
        true
    }

    proof fn lemma_wire_len(&self) {
    }

    proof fn lemma_wire_injective(&self, other: &Self) {
        broadcast use lemma_concat_cancel;

        assert(same_bytes(self.wire(), other.wire()));
        self.vehicle_idx.lemma_wire_injective(&other.vehicle_idx);
    }

    fn size() -> (n: usize) {
        1
    }

    fn decode(bytes: &[u8], at: usize) -> (value: Self) {
        broadcast use lemma_subrange_join;

        let vehicle_idx: u8 = u8::decode(bytes, at);
        DriveThroughPenaltyServed { vehicle_idx }
    }

    fn encode(&self, out: &mut Vec<u8>) {
        broadcast use lemma_concat_assoc;

        self.vehicle_idx.encode(out);
    }
}

/// A car has served a stop-go penalty.
#[derive(Clone, Copy, Debug, PartialEq, Eq)]
pub struct StopGoPenaltyServed {
    /// Vehicle index of the vehicle serving stop go.
    pub vehicle_idx: u8,
}

impl Wire for StopGoPenaltyServed {
    open spec fn wire(&self) -> Seq<u8> {
        self.vehicle_idx.wire()
    }

    open spec fn width() -> nat {
        1
    }

    open spec fn canonical(&self) -> bool {
        true
    }

    proof fn lemma_wire_len(&self) {
    }

    proof fn lemma_wire_injective(&self, other: &Self) {
        broadcast use lemma_concat_cancel;

        assert(same_bytes(self.wire(), other.wire()));
        self.vehicle_idx.lemma_wire_injective(&other.vehicle_idx);
    }

    fn size() -> (n: usize) {
        1
    }

    fn decode(bytes: &[u8], at: usize) -> (value: Self) {
        broadcast use lemma_subrange_join;

        let vehicle_idx: u8 = u8::decode(bytes, at);
        StopGoPenaltyServed { vehicle_idx }
    }

    fn encode(&self, out: &mut Vec<u8>) {
        broadcast use lemma_concat_assoc;

        self.vehicle_idx.encode(out);
    }
}

/// The player has gone back in time.
#[derive(Clone, Copy, Debug, PartialEq, Eq)]
pub struct Flashback {
    /// Frame identifier flashed back to.
    pub flashback_frame_identifier: u32,
    /// Session time flashed back to.
    pub flashback_session_time: Float32,
}

impl Wire for Flashback {
    open spec fn wire(&self) -> Seq<u8> {
        self.flashback_frame_identifier.wire() + self.flashback_session_time.wire()
    }

    open spec fn width() -> nat {
        8
    }

    open spec fn canonical(&self) -> bool {
        true
    }

    proof fn lemma_wire_len(&self) {
        broadcast use group_integer_widths;
    }

    proof fn lemma_wire_injective(&self, other: &Self) {
        broadcast use {lemma_concat_cancel, group_integer_widths};

        assert(same_bytes(self.wire(), other.wire()));
        self.flashback_frame_identifier.lemma_wire_injective(&other.flashback_frame_identifier);
        self.flashback_session_time.lemma_wire_injective(&other.flashback_session_time);
    }

    fn size() -> (n: usize) {
        8
    }

    fn decode(bytes: &[u8], at: usize) -> (value: Self) {
        broadcast use lemma_subrange_join;

        let flashback_frame_identifier: u32 = u32::decode(bytes, at);
        let flashback_session_time: Float32 = Float32::decode(bytes, at + 4);
        Flashback { flashback_frame_identifier, flashback_session_time }
    }

    fn encode(&self, out: &mut Vec<u8>) {
        broadcast use lemma_concat_assoc;

        self.flashback_frame_identifier.encode(out);
        self.flashback_session_time.encode(out);
    }
}

/// The buttons held down on the controller.
#[derive(Clone, Copy, Debug, PartialEq, Eq)]
pub struct Buttons {
    /// Bit flags, one for each button that is held down.
    pub button_status: u32,
}

impl Wire for Buttons {
    open spec fn wire(&self) -> Seq<u8> {
        self.button_status.wire()
    }

    open spec fn width() -> nat {
        4
    }

    open spec fn canonical(&self) -> bool {
        true
    }

    proof fn lemma_wire_len(&self) {
        broadcast use group_integer_widths;
    }

    proof fn lemma_wire_injective(&self, other: &Self) {
        broadcast use {lemma_concat_cancel, group_integer_widths};

        assert(same_bytes(self.wire(), other.wire()));
        self.button_status.lemma_wire_injective(&other.button_status);
    }

    fn size() -> (n: usize) {
        4
    }

    fn decode(bytes: &[u8], at: usize) -> (value: Self) {
        broadcast use lemma_subrange_join;

        let button_status: u32 = u32::decode(bytes, at);
        Buttons { button_status }
    }

    fn encode(&self, out: &mut Vec<u8>) {
        broadcast use lemma_concat_assoc;

        self.button_status.encode(out);
    }
}

/// The twelve bytes that go with an event. Each kind of event reads its own
/// fields from the front of them; the sender fills them for the code it sends,
/// so a reading that does not go with the code yields numbers without meaning.
#[derive(Clone, Copy, Debug, PartialEq, Eq)]
pub struct EventDataDetails {
    pub bytes: [u8; 12],
}

impl Wire for EventDataDetails {
    open spec fn wire(&self) -> Seq<u8> {
        wire_all(self.bytes@)
    }

    open spec fn width() -> nat {
        12
    }

    open spec fn canonical(&self) -> bool {
        true
    }

    proof fn lemma_wire_len(&self) {
        lemma_wire_array_len(&self.bytes);
    }

    proof fn lemma_wire_injective(&self, other: &Self) {
        lemma_wire_array_injective(&self.bytes, &other.bytes);
    }

    fn size() -> (n: usize) {
        12
    }

    fn decode(bytes: &[u8], at: usize) -> (value: Self) {
        let value = EventDataDetails { bytes: decode_array(bytes, at) };
        assert(value.wire() == bytes@.subrange(at as int, at + 12));
        assert(value.canonical());
        value
    }

    fn encode(&self, out: &mut Vec<u8>) {
        encode_all(self.bytes.as_slice(), out);
    }
}

impl EventDataDetails {
    /// The bytes read as a `T`: the value that the first of them stand for.
    pub open spec fn read<T: Wire>(self) -> T {
        value_of::<T>(self.bytes@.subrange(0, T::width() as int))
    }

    /// The bytes read as a fastest lap.
    pub fn fastest_lap(&self) -> (arm: FastestLap)
        ensures
            arm == self.read::<FastestLap>(),
    {
        let arm: FastestLap = FastestLap::decode(self.bytes.as_slice(), 0);
        proof {
            lemma_value_of(arm);
        }
        arm
    }

    /// The bytes read as a retirement.
    pub fn retirement(&self) -> (arm: Retirement)
        ensures
            arm == self.read::<Retirement>(),
    {
        let arm: Retirement = Retirement::decode(self.bytes.as_slice(), 0);
        proof {
            lemma_value_of(arm);
        }
        arm
    }

    /// The bytes read as a team mate entering the pits.
    pub fn teammate_in_pits(&self) -> (arm: TeamMateInPits)
        ensures
            arm == self.read::<TeamMateInPits>(),
    {
        let arm: TeamMateInPits = TeamMateInPits::decode(self.bytes.as_slice(), 0);
        proof {
            lemma_value_of(arm);
        }
        arm
    }

    /// The bytes read as the announcement of the winner.
    pub fn race_winner(&self) -> (arm: RaceWinner)
        ensures
            arm == self.read::<RaceWinner>(),
    {
        let arm: RaceWinner = RaceWinner::decode(self.bytes.as_slice(), 0);
        proof {
            lemma_value_of(arm);
        }
        arm
    }

    /// The bytes read as a penalty.
    pub fn penalty(&self) -> (arm: Penalty)
        ensures
            arm == self.read::<Penalty>(),
    {
        let arm: Penalty = Penalty::decode(self.bytes.as_slice(), 0);
        proof {
            lemma_value_of(arm);
        }
        arm
    }

    /// The bytes read as a speed trap.
    pub fn speed_trap(&self) -> (arm: SpeedTrap)
        ensures
            arm == self.read::<SpeedTrap>(),
    {
        let arm: SpeedTrap = SpeedTrap::decode(self.bytes.as_slice(), 0);
        proof {
            lemma_value_of(arm);
        }
        arm
    }

    /// The bytes read as a change of the start lights.
    pub fn start_lights(&self) -> (arm: StartLights)
        ensures
            arm == self.read::<StartLights>(),
    {
        let arm: StartLights = StartLights::decode(self.bytes.as_slice(), 0);
        proof {
            lemma_value_of(arm);
        }
        arm
    }

    /// The bytes read as a drive-through penalty served.
    pub fn drive_through_penalty_served(&self) -> (arm: DriveThroughPenaltyServed)
        ensures
            arm == self.read::<DriveThroughPenaltyServed>(),
    {
        let arm: DriveThroughPenaltyServed =
            DriveThroughPenaltyServed::decode(self.bytes.as_slice(), 0);
        proof {
            lemma_value_of(arm);
        }
        arm
    }

    /// The bytes read as a stop-go penalty served.
    pub fn stop_go_penalty_served(&self) -> (arm: StopGoPenaltyServed)
        ensures
            arm == self.read::<StopGoPenaltyServed>(),
    {
        let arm: StopGoPenaltyServed = StopGoPenaltyServed::decode(self.bytes.as_slice(), 0);
        proof {
            lemma_value_of(arm);
        }
        arm
    }

    /// The bytes read as a flashback.
    pub fn flashback(&self) -> (arm: Flashback)
        ensures
            arm == self.read::<Flashback>(),
    {
        let arm: Flashback = Flashback::decode(self.bytes.as_slice(), 0);
        proof {
            lemma_value_of(arm);
        }
        arm
    }

    /// The bytes read as a button status.
    pub fn buttons(&self) -> (arm: Buttons)
        ensures
            arm == self.read::<Buttons>(),
    {
        let arm: Buttons = Buttons::decode(self.bytes.as_slice(), 0);
        proof {
            lemma_value_of(arm);
        }
        arm
    }
}

/// The buttons that a button status reports, in the order they are reported.
pub open spec fn reported_buttons() -> Seq<ButtonFlag> {
    seq![
        ButtonFlag::CircleorB,
        ButtonFlag::CrossorA,
        ButtonFlag::DpadDown,
        ButtonFlag::DpadLeft,
        ButtonFlag::DpadRight,
        ButtonFlag::DpadUp,
        ButtonFlag::L1orLB,
        ButtonFlag::L2orLT,
        ButtonFlag::LeftStickClick,
        ButtonFlag::OptionsorMenu,
        ButtonFlag::R1orRB,
        ButtonFlag::R2orRT,
        ButtonFlag::RightStickClick,
        ButtonFlag::RightStickDown,
        ButtonFlag::RightStickLeft,
        ButtonFlag::RightStickRight,
        ButtonFlag::RightStickUp,
        ButtonFlag::Special,
        ButtonFlag::SquareorX,
        ButtonFlag::TriangleorY,
    ]
}

impl Buttons {
    /// Whether the status has the bit of `button` set.
    pub open spec fn holds(self, button: ButtonFlag) -> bool {
        self.button_status & button.mask() != 0
    }

    /// The reported buttons that are held down, in the order they are
    /// reported.
    pub open spec fn pressed(self) -> Seq<ButtonFlag> {
        reported_buttons().filter(|button: ButtonFlag| self.holds(button))
    }

    /// The reported buttons that are held down, in the order they are
    /// reported.
    pub fn get_pressed_buttons(&self) -> (pressed: Vec<ButtonFlag>)
        ensures
            pressed@ == self.pressed(),
    {
        let candidates: [ButtonFlag; 20] = [
            ButtonFlag::CircleorB,
            ButtonFlag::CrossorA,
            ButtonFlag::DpadDown,
            ButtonFlag::DpadLeft,
            ButtonFlag::DpadRight,
            ButtonFlag::DpadUp,
            ButtonFlag::L1orLB,
            ButtonFlag::L2orLT,
            ButtonFlag::LeftStickClick,
            ButtonFlag::OptionsorMenu,
            ButtonFlag::R1orRB,
            ButtonFlag::R2orRT,
            ButtonFlag::RightStickClick,
            ButtonFlag::RightStickDown,
            ButtonFlag::RightStickLeft,
            ButtonFlag::RightStickRight,
            ButtonFlag::RightStickUp,
            ButtonFlag::Special,
            ButtonFlag::SquareorX,
            ButtonFlag::TriangleorY,
        ];
        assert(candidates@ =~= reported_buttons());
        let ghost held = |button: ButtonFlag| self.holds(button);
        let mut pressed: Vec<ButtonFlag> = Vec::new();
        let mut i: usize = 0;
        proof {
            reveal(Seq::filter);
            assert(candidates@.take(0) =~= Seq::<ButtonFlag>::empty());
        }
        while i < 20
            invariant
                i <= 20,
                held == |button: ButtonFlag| self.holds(button),
                pressed@ == candidates@.take(i as int).filter(held),
            decreases 20 - i,
        {
            let button: ButtonFlag = candidates[i];
            proof {
                reveal(Seq::filter);
                let next = candidates@.take(i as int + 1);
                assert(next.drop_last() =~= candidates@.take(i as int));
                assert(next.last() == button);
            }
            if self.button_status & button.as_u32() != 0 {
                pressed.push(button);
            }
            i += 1;
        }
        assert(candidates@.take(20) =~= candidates@);
        pressed
    }
}

} // verus!
