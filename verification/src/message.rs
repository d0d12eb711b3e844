//! What an event says, in words.
//!
//! A message is text with gaps for the numbers that are sent as floating
//! point. The library does not print those: it hands the message over with
//! the numbers in it, and puts a message together once it is given their
//! text.
use crate::ids::{ButtonFlag, EventId, PenaltyType};
use crate::packets::event::PacketEventData;
use crate::packets::event_details::{
    Buttons, DriveThroughPenaltyServed, FastestLap, Flashback, Penalty, RaceWinner, Retirement,
    SpeedTrap, StartLights, StopGoPenaltyServed, TeamMateInPits,
};
use crate::session::Session;
use crate::text::{decimal, decimal_text};
use crate::wire::Float32;
use vstd::prelude::*;
use vstd::string::StringExecFns;

verus! {

/// One piece of a message.
#[derive(Clone, Debug, PartialEq, Eq)]
pub enum MessagePart {
    Text(String),
    /// A number to be printed in decimal in this place.
    Decimal(Float32),
}

/// One piece of a message, as the contracts speak of it.
pub enum Piece {
    Text(Seq<char>),
    Decimal(Float32),
}

impl View for MessagePart {
    type V = Piece;

    open spec fn view(&self) -> Piece {
        match self {
            MessagePart::Text(text) => Piece::Text(text@),
            MessagePart::Decimal(number) => Piece::Decimal(*number),
        }
    }
}

/// What an event says. A message without parts says nothing: there is no
/// event to report.
#[derive(Clone, Debug, PartialEq, Eq)]
pub struct EventMessage {
    pub parts: Vec<MessagePart>,
}

impl View for EventMessage {
    type V = Seq<Piece>;

    open spec fn view(&self) -> Seq<Piece> {
        self.parts@.map_values(|part: MessagePart| part@)
    }
}

/// How many numbers there are among `parts`.
pub open spec fn count_decimals(parts: Seq<Piece>) -> nat
    decreases parts.len(),
{
    if parts.len() == 0 {
        0
    } else {
        count_decimals(parts.drop_last()) + if parts.last() is Decimal {
            1nat
        } else {
            0nat
        }
    }
}

/// The numbers among `parts`, in order.
pub open spec fn decimals_of(parts: Seq<Piece>) -> Seq<Float32>
    decreases parts.len(),
{
    if parts.len() == 0 {
        Seq::empty()
    } else {
        match parts.last() {
            Piece::Decimal(number) => decimals_of(parts.drop_last()).push(number),
            Piece::Text(_) => decimals_of(parts.drop_last()),
        }
    }
}

/// The message put together: the texts as they are, and in the place of the
/// number that comes `k`-th the `k`-th of `decimals`, or nothing where
/// `decimals` has no such entry.
pub open spec fn rendered(parts: Seq<Piece>, decimals: Seq<Seq<char>>) -> Seq<char>
    decreases parts.len(),
{
    if parts.len() == 0 {
        Seq::empty()
    } else {
        let front = parts.drop_last();
        rendered(front, decimals) + match parts.last() {
            Piece::Text(text) => text,
            Piece::Decimal(_) => if count_decimals(front) < decimals.len() {
                decimals[count_decimals(front) as int]
            } else {
                Seq::empty()
            },
        }
    }
}

impl EventMessage {
    /// Whether the message says nothing.
    pub fn is_empty(&self) -> (empty: bool)
        ensures
            empty == (self@.len() == 0),
    {
        self.parts.len() == 0
    }

    /// The numbers that are to be printed, in the order of their places.
    pub fn decimals(&self) -> (numbers: Vec<Float32>)
        ensures
            numbers@ == decimals_of(self@),
    {
        let mut numbers: Vec<Float32> = Vec::new();
        let mut i: usize = 0;
        assert(self@.take(0) =~= Seq::<Piece>::empty());
        while i < self.parts.len()
            invariant
                i <= self.parts.len(),
                numbers@ == decimals_of(self@.take(i as int)),
            decreases self.parts.len() - i,
        {
            proof {
                let next = self@.take(i as int + 1);
                assert(next.drop_last() =~= self@.take(i as int));
                assert(next.last() == self.parts@[i as int]@);
            }
            match &self.parts[i] {
                MessagePart::Decimal(number) => {
                    numbers.push(*number);
                },
                MessagePart::Text(_) => {},
            }
            i += 1;
        }
        assert(self@.take(self.parts.len() as int) =~= self@);
        numbers
    }

    /// The message as text, with `decimals[k]` in the place of the number
    /// that comes `k`-th.
    pub fn render(&self, decimals: &Vec<String>) -> (text: String)
        ensures
            text@ == rendered(self@, decimals@.map_values(|entry: String| entry@)),
    {
        let ghost texts = decimals@.map_values(|entry: String| entry@);
        let mut text: String = String::new();
        let mut used: usize = 0;
        let mut i: usize = 0;
        assert(self@.take(0) =~= Seq::<Piece>::empty());
        while i < self.parts.len()
            invariant
                i <= self.parts.len(),
                used <= i,
                used == count_decimals(self@.take(i as int)),
                texts == decimals@.map_values(|entry: String| entry@),
                text@ == rendered(self@.take(i as int), texts),
            decreases self.parts.len() - i,
        {
            proof {
                let next = self@.take(i as int + 1);
                assert(next.drop_last() =~= self@.take(i as int));
                assert(next.last() == self.parts@[i as int]@);
            }
            match &self.parts[i] {
                MessagePart::Text(piece) => {
                    text.append(piece.as_str());
                },
                MessagePart::Decimal(_) => {
                    if used < decimals.len() {
                        text.append(decimals[used].as_str());
                    } else {
                        assert(text@ + Seq::<char>::empty() =~= text@);
                    }
                    used += 1;
                },
            }
            i += 1;
        }
        assert(self@.take(self.parts.len() as int) =~= self@);
        text
    }
}

/// The names of `buttons`, with a comma and a space between one and the
/// next.
pub open spec fn joined_labels(buttons: Seq<ButtonFlag>) -> Seq<char>
    decreases buttons.len(),
{
    if buttons.len() == 0 {
        Seq::empty()
    } else if buttons.len() == 1 {
        buttons[0].label()
    } else {
        joined_labels(buttons.drop_last()) + ", "@ + buttons.last().label()
    }
}

/// What a fastest lap says.
pub open spec fn fastest_lap_message(arm: FastestLap, name: Option<Seq<char>>) -> Seq<Piece> {
    match name {
        Some(name) => seq![
            Piece::Text("Fastest lap of "@),
            Piece::Decimal(arm.lap_time),
            Piece::Text(" seconds achieved by "@ + name),
        ],
        None => seq![
            Piece::Text("Fastest lap of "@),
            Piece::Decimal(arm.lap_time),
            Piece::Text(" seconds achieved"@),
        ],
    }
}

/// What a retirement says.
pub open spec fn retirement_message(name: Option<Seq<char>>) -> Seq<Piece> {
    match name {
        Some(name) => seq![Piece::Text(name + " retired from the session"@)],
        None => seq![Piece::Text("A participant retired from the session"@)],
    }
}

/// What a team mate in the pits says.
pub open spec fn teammate_message(name: Option<Seq<char>>) -> Seq<Piece> {
    match name {
        Some(name) => seq![Piece::Text("Your teammate, "@ + name + ", is in the pits."@)],
        None => seq![Piece::Text("Your teammate is in the pits"@)],
    }
}

/// What the event says where it names a driver whom the roster knows;
/// otherwise what the event means.
pub open spec fn named_message(id: EventId, name: Option<Seq<char>>, tail: Seq<char>) -> Seq<
    Piece,
> {
    match name {
        Some(name) => seq![Piece::Text(name + tail)],
        None => seq![Piece::Text(id.description_text())],
    }
}

/// What a penalty says.
pub open spec fn penalty_message(arm: Penalty, name: Option<Seq<char>>) -> Seq<Piece> {
    match name {
        Some(name) => if arm.penalty_type == PenaltyType::Retired {
            seq![
                Piece::Text(
                    name + " has been retired from the session on lap "@ + decimal_text(
                        arm.lap_num as nat,
                    ) + "."@,
                ),
            ]
        } else {
            seq![
                Piece::Text(
                    name + " has received a "@ + arm.penalty_type.label() + " on lap "@
                        + decimal_text(arm.lap_num as nat) + ". Infringment type: "@
                        + arm.infringement_type.name_text() + ". Time: "@ + decimal_text(
                        arm.time as nat,
                    ) + " seconds"@,
                ),
            ]
        },
        None => seq![Piece::Text(EventId::PenaltyIssued.description_text())],
    }
}

/// What a speed trap says.
pub open spec fn speed_trap_message(arm: SpeedTrap, name: Option<Seq<char>>) -> Seq<Piece> {
    match name {
        Some(name) => if arm.is_overall_fastest_in_session == 1 {
            seq![
                Piece::Text(
                    "Speed trap hit - "@ + name + " hit the fastest speed in the session: "@,
                ),
                Piece::Decimal(arm.speed),
                Piece::Text(" kmh"@),
            ]
        } else if arm.is_driver_fastest_in_session == 1 {
            seq![
                Piece::Text(
                    "Speed trap hit - "@ + name + " hit their fastest speed in the session: "@,
                ),
                Piece::Decimal(arm.speed),
                Piece::Text(" kmh"@),
            ]
        } else {
            seq![
                Piece::Text("Speed trap hit - "@ + name + " hit "@),
                Piece::Decimal(arm.speed),
                Piece::Text(" kmh. Max: "@),
                Piece::Decimal(arm.fastest_speed_in_session),
                Piece::Text(" kmh"@),
            ]
        },
        None => seq![
            Piece::Text("Speed trap hit at "@),
            Piece::Decimal(arm.speed),
            Piece::Text(" kmh. Max: "@),
            Piece::Decimal(arm.fastest_speed_in_session),
            Piece::Text(" kmh"@),
        ],
    }
}

/// What a change of the start lights says.
pub open spec fn start_lights_message(arm: StartLights) -> Seq<Piece> {
    seq![Piece::Text(decimal_text(arm.num_lights as nat) + " start lights showing"@)]
}

/// What a flashback says.
pub open spec fn flashback_message(arm: Flashback) -> Seq<Piece> {
    seq![
        Piece::Text("Flashback at "@),
        Piece::Decimal(arm.flashback_session_time),
        Piece::Text(" seconds (session time)"@),
    ]
}

/// What a button status says: nothing where no reported button is held.
pub open spec fn buttons_message(arm: Buttons) -> Seq<Piece> {
    if arm.pressed().len() == 0 {
        Seq::empty()
    } else {
        seq![Piece::Text("Button pressed. Pressed buttons: "@ + joined_labels(arm.pressed()))]
    }
}

/// What `event` says in `session`: nothing for a code that is not known; for
/// an event that names a car, a sentence with the name of its driver where
/// the roster has one, and a sentence without a name where it has none; for
/// an event that carries nothing, what the event means.
pub open spec fn message_of(event: PacketEventData, session: Session) -> Seq<Piece> {
    let details = event.event_details;
    match event.resolved() {
        None => Seq::empty(),
        Some(EventId::FastestLap) => {
            let arm = details.read::<FastestLap>();
            fastest_lap_message(arm, session.name_of(arm.vehicle_idx))
        },
        Some(EventId::Retirement) => retirement_message(
            session.name_of(details.read::<Retirement>().vehicle_idx),
        ),
        Some(EventId::TeamMateInPits) => teammate_message(
            session.name_of(details.read::<TeamMateInPits>().vehicle_idx),
        ),
        Some(EventId::RaceWinner) => named_message(
            EventId::RaceWinner,
            session.name_of(details.read::<RaceWinner>().vehicle_idx),
            " is the Race Winner!"@,
        ),
        Some(EventId::PenaltyIssued) => {
            let arm = details.read::<Penalty>();
            penalty_message(arm, session.name_of(arm.vehicle_idx))
        },
        Some(EventId::SpeedTrapTriggered) => {
            let arm = details.read::<SpeedTrap>();
            speed_trap_message(arm, session.name_of(arm.vehicle_idx))
        },
        Some(EventId::StartLights) => start_lights_message(details.read::<StartLights>()),
        Some(EventId::DriveThroughServed) => named_message(
            EventId::DriveThroughServed,
            session.name_of(details.read::<DriveThroughPenaltyServed>().vehicle_idx),
            " served their drive through penalty"@,
        ),
        Some(EventId::StopGoServed) => named_message(
            EventId::StopGoServed,
            session.name_of(details.read::<StopGoPenaltyServed>().vehicle_idx),
            " served their stop-go penalty"@,
        ),
        Some(EventId::Flashback) => flashback_message(details.read::<Flashback>()),
        Some(EventId::ButtonStatus) => buttons_message(details.read::<Buttons>()),
        Some(id) => seq![Piece::Text(id.description_text())],
    }
}

/// The name of the driver in slot `vehicle_idx`, where the roster has one.
fn driver_name(session: &Session, vehicle_idx: u8) -> (name: Option<String>)
    ensures
        match name {
            Some(name) => session.name_of(vehicle_idx) == Some(name@),
            None => session.name_of(vehicle_idx) is None,
        },
{
    match session.get_player(vehicle_idx) {
        Some(participant) => Some(participant.get_player_name()),
        None => None,
    }
}

/// A message of one text.
fn one_text(text: String) -> (message: EventMessage)
    ensures
        message@ == seq![Piece::Text(text@)],
{
    let mut parts: Vec<MessagePart> = Vec::new();
    parts.push(MessagePart::Text(text));
    let message = EventMessage { parts };
    assert(message@ =~= seq![Piece::Text(text@)]);
    message
}

/// A message of a text, a number and a text.
fn around_number(before: String, number: Float32, after: String) -> (message: EventMessage)
    ensures
        message@ == seq![Piece::Text(before@), Piece::Decimal(number), Piece::Text(after@)],
{
    let mut parts: Vec<MessagePart> = Vec::new();
    parts.push(MessagePart::Text(before));
    parts.push(MessagePart::Decimal(number));
    parts.push(MessagePart::Text(after));
    let message = EventMessage { parts };
    assert(message@ =~= seq![
        Piece::Text(before@),
        Piece::Decimal(number),
        Piece::Text(after@),
    ]);
    message
}

/// A message of three texts with a number after the first and after the
/// second.
fn around_two_numbers(
    before: String,
    first: Float32,
    between: String,
    second: Float32,
    after: String,
) -> (message: EventMessage)
    ensures
        message@ == seq![
            Piece::Text(before@),
            Piece::Decimal(first),
            Piece::Text(between@),
            Piece::Decimal(second),
            Piece::Text(after@),
        ],
{
    let mut parts: Vec<MessagePart> = Vec::new();
    parts.push(MessagePart::Text(before));
    parts.push(MessagePart::Decimal(first));
    parts.push(MessagePart::Text(between));
    parts.push(MessagePart::Decimal(second));
    parts.push(MessagePart::Text(after));
    let message = EventMessage { parts };
    assert(message@ =~= seq![
        Piece::Text(before@),
        Piece::Decimal(first),
        Piece::Text(between@),
        Piece::Decimal(second),
        Piece::Text(after@),
    ]);
    message
}

/// `name` followed by `tail`, or what the event means where there is no
/// name.
fn named(id: EventId, name: Option<String>, tail: &str) -> (message: EventMessage)
    ensures
        message@ == named_message(
            id,
            match name {
                Some(name) => Some(name@),
                None => None,
            },
            tail@,
        ),
{
    match name {
        Some(name) => one_text(name.concat(tail)),
        None => one_text(String::from_str(id.description())),
    }
}

fn fastest_lap_text(arm: FastestLap, name: Option<String>) -> (message: EventMessage)
    ensures
        message@ == fastest_lap_message(
            arm,
            match name {
                Some(name) => Some(name@),
                None => None,
            },
        ),
{
    let before: String = String::from_str("Fastest lap of ");
    match name {
        Some(name) => {
            let after: String = String::from_str(" seconds achieved by ").concat(name.as_str());
            around_number(before, arm.lap_time, after)
        },
        None => around_number(before, arm.lap_time, String::from_str(" seconds achieved")),
    }
}

fn retirement_text(name: Option<String>) -> (message: EventMessage)
    ensures
        message@ == retirement_message(
            match name {
                Some(name) => Some(name@),
                None => None,
            },
        ),
{
    match name {
        Some(name) => one_text(name.concat(" retired from the session")),
        None => one_text(String::from_str("A participant retired from the session")),
    }
}

fn teammate_text(name: Option<String>) -> (message: EventMessage)
    ensures
        message@ == teammate_message(
            match name {
                Some(name) => Some(name@),
                None => None,
            },
        ),
{
    match name {
        Some(name) => one_text(
            String::from_str("Your teammate, ").concat(name.as_str()).concat(", is in the pits."),
        ),
        None => one_text(String::from_str("Your teammate is in the pits")),
    }
}

fn penalty_text(arm: Penalty, name: Option<String>) -> (message: EventMessage)
    ensures
        message@ == penalty_message(
            arm,
            match name {
                Some(name) => Some(name@),
                None => None,
            },
        ),
{
    match name {
        Some(name) => {
            let lap: String = decimal(arm.lap_num);
            if matches!(arm.penalty_type, PenaltyType::Retired) {
                one_text(
                    name.concat(" has been retired from the session on lap ").concat(
                        lap.as_str(),
                    ).concat("."),
                )
            } else {
                let time: String = decimal(arm.time);
                one_text(
                    name.concat(" has received a ").concat(arm.penalty_type.as_str()).concat(
                        " on lap ",
                    ).concat(lap.as_str()).concat(". Infringment type: ").concat(
                        arm.infringement_type.name(),
                    ).concat(". Time: ").concat(time.as_str()).concat(" seconds"),
                )
            }
        },
        None => one_text(String::from_str(EventId::PenaltyIssued.description())),
    }
}

fn speed_trap_text(arm: SpeedTrap, name: Option<String>) -> (message: EventMessage)
    ensures
        message@ == speed_trap_message(
            arm,
            match name {
                Some(name) => Some(name@),
                None => None,
            },
        ),
{
    match name {
        Some(name) => {
            let start: String = String::from_str("Speed trap hit - ").concat(name.as_str());
            if arm.is_overall_fastest_in_session == 1 {
                around_number(
                    start.concat(" hit the fastest speed in the session: "),
                    arm.speed,
                    String::from_str(" kmh"),
                )
            } else if arm.is_driver_fastest_in_session == 1 {
                around_number(
                    start.concat(" hit their fastest speed in the session: "),
                    arm.speed,
                    String::from_str(" kmh"),
                )
            } else {
                around_two_numbers(
                    start.concat(" hit "),
                    arm.speed,
                    String::from_str(" kmh. Max: "),
                    arm.fastest_speed_in_session,
                    String::from_str(" kmh"),
                )
            }
        },
        None => around_two_numbers(
            String::from_str("Speed trap hit at "),
            arm.speed,
            String::from_str(" kmh. Max: "),
            arm.fastest_speed_in_session,
            String::from_str(" kmh"),
        ),
    }
}

/// The names of `buttons`, with a comma and a space between one and the
/// next.
fn join_labels(buttons: &Vec<ButtonFlag>) -> (text: String)
    ensures
        text@ == joined_labels(buttons@),
{
    let mut text: String = String::new();
    let mut i: usize = 0;
    assert(buttons@.take(0) =~= Seq::<ButtonFlag>::empty());
    while i < buttons.len()
        invariant
            i <= buttons.len(),
            text@ == joined_labels(buttons@.take(i as int)),
        decreases buttons.len() - i,
    {
        proof {
            let next = buttons@.take(i as int + 1);
            assert(next.drop_last() =~= buttons@.take(i as int));
            assert(next.last() == buttons@[i as int]);
            assert(next[0] == buttons@[0]);
            if i == 0 {
                assert(Seq::<char>::empty() + buttons@[0].label() =~= buttons@[0].label());
            }
        }
        if i > 0 {
            text.append(", ");
        }
        text.append(buttons[i].as_str());
        i += 1;
    }
    assert(buttons@.take(buttons.len() as int) =~= buttons@);
    text
}

fn buttons_text(arm: Buttons) -> (message: EventMessage)
    ensures
        message@ == buttons_message(arm),
{
    let pressed: Vec<ButtonFlag> = arm.get_pressed_buttons();
    if pressed.len() == 0 {
        let message = EventMessage { parts: Vec::new() };
        assert(message@ =~= Seq::<Piece>::empty());
        message
    } else {
        let labels: String = join_labels(&pressed);
        one_text(String::from_str("Button pressed. Pressed buttons: ").concat(labels.as_str()))
    }
}

impl PacketEventData {
    /// What the event says in `session`.
    ///
    /// The numbers that are sent as floating point stand in the message as
    /// numbers: [`EventMessage::render`] puts their text in.
    pub fn event_message(&self, session: &Session) -> (message: EventMessage)
        ensures
            message@ == message_of(*self, *session),
    {
        let id: EventId = match self.event_id() {
            Some(id) => id,
            None => {
                let message = EventMessage { parts: Vec::new() };
                assert(message@ =~= Seq::<Piece>::empty());
                return message;
            },
        };
        let details = &self.event_details;
        match id {
            EventId::FastestLap => {
                let arm: FastestLap = details.fastest_lap();
                fastest_lap_text(arm, driver_name(session, arm.vehicle_idx))
            },
            EventId::Retirement => {
                let arm: Retirement = details.retirement();
                retirement_text(driver_name(session, arm.vehicle_idx))
            },
            EventId::TeamMateInPits => {
                let arm: TeamMateInPits = details.teammate_in_pits();
                teammate_text(driver_name(session, arm.vehicle_idx))
            },
            EventId::RaceWinner => {
                let arm: RaceWinner = details.race_winner();
                named(id, driver_name(session, arm.vehicle_idx), " is the Race Winner!")
            },
            EventId::PenaltyIssued => {
                let arm: Penalty = details.penalty();
                penalty_text(arm, driver_name(session, arm.vehicle_idx))
            },
            EventId::SpeedTrapTriggered => {
                let arm: SpeedTrap = details.speed_trap();
                speed_trap_text(arm, driver_name(session, arm.vehicle_idx))
            },
            EventId::StartLights => {
                let arm: StartLights = details.start_lights();
                one_text(decimal(arm.num_lights).concat(" start lights showing"))
            },
            EventId::DriveThroughServed => {
                let arm: DriveThroughPenaltyServed = details.drive_through_penalty_served();
                named(
                    id,
                    driver_name(session, arm.vehicle_idx),
                    " served their drive through penalty",
                )
            },
            EventId::StopGoServed => {
                let arm: StopGoPenaltyServed = details.stop_go_penalty_served();
                named(id, driver_name(session, arm.vehicle_idx), " served their stop-go penalty")
            },
            EventId::Flashback => {
                let arm: Flashback = details.flashback();
                around_number(
                    String::from_str("Flashback at "),
                    arm.flashback_session_time,
                    String::from_str(" seconds (session time)"),
                )
            },
            EventId::ButtonStatus => buttons_text(details.buttons()),
            _ => one_text(String::from_str(id.description())),
        }
    }
}

} // verus!
