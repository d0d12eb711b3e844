//! One turn of the ingestion cycle, and what it hands on for display.
//!
//! The cycle itself, which receives and sleeps, runs outside the library. It
//! calls [`dispatch_step`] with what each receive gave and does what the
//! answer says.
use crate::decoder::{decode_failure, decoded, parse_packet};
use crate::message::{message_of, EventMessage, Piece};
use crate::packets::packet::TelemetryPacket;
use crate::session::{Received, Session};
use crate::text::utf8_lossy;
use crate::wire::Float32;
use vstd::prelude::*;
use vstd::string::StringExecFns;

verus! {

/// What is handed on for one record: the record, and for an event what it
/// says.
#[derive(Clone, Debug, PartialEq, Eq)]
pub struct DisplayRow {
    pub packet: TelemetryPacket,
    pub message: Option<EventMessage>,
}

/// A row, as the contracts speak of it.
pub struct RowView {
    pub packet: TelemetryPacket,
    pub message: Option<Seq<Piece>>,
}

impl View for DisplayRow {
    type V = RowView;

    open spec fn view(&self) -> RowView {
        RowView {
            packet: self.packet,
            message: match self.message {
                Some(message) => Some(message@),
                None => None,
            },
        }
    }
}

/// The heading under which records of a kind are shown.
pub open spec fn title_text(record: TelemetryPacket) -> Seq<char> {
    match record {
        TelemetryPacket::Motion(_) => "Motion Data"@,
        TelemetryPacket::Session(_) => "Session Data"@,
        TelemetryPacket::LapData(_) => "Lap Data"@,
        TelemetryPacket::Event(_) => "Events"@,
        TelemetryPacket::Participants(_) => "Participants"@,
        TelemetryPacket::CarSetups(_) => "Car Setups"@,
        TelemetryPacket::CarTelemetry(_) => "Car Telemetry"@,
        TelemetryPacket::CarStatus(_) => "Car Status"@,
        TelemetryPacket::FinalClassification(_) => "Final Classification"@,
        TelemetryPacket::LobbyInfo(_) => "Lobby Info"@,
        TelemetryPacket::CarDamage(_) => "Car Damage"@,
        TelemetryPacket::SessionHistory(_) => "Session History"@,
    }
}

/// What a row is called: the name of the kind of record, and for an event
/// the name of the event with its code in brackets.
pub open spec fn row_title_text(record: TelemetryPacket) -> Seq<char> {
    match record {
        TelemetryPacket::Event(event) => event.name_text() + " ("@ + utf8_lossy(
            event.event_string_code@,
        ) + ")"@,
        _ => record.name_text(),
    }
}

impl DisplayRow {
    /// The heading under which the row is shown.
    pub fn title(&self) -> (text: &'static str)
        ensures
            text@ == title_text(self.packet),
    {
        match &self.packet {
            TelemetryPacket::Motion(_) => "Motion Data",
            TelemetryPacket::Session(_) => "Session Data",
            TelemetryPacket::LapData(_) => "Lap Data",
            TelemetryPacket::Event(_) => "Events",
            TelemetryPacket::Participants(_) => "Participants",
            TelemetryPacket::CarSetups(_) => "Car Setups",
            TelemetryPacket::CarTelemetry(_) => "Car Telemetry",
            TelemetryPacket::CarStatus(_) => "Car Status",
            TelemetryPacket::FinalClassification(_) => "Final Classification",
            TelemetryPacket::LobbyInfo(_) => "Lobby Info",
            TelemetryPacket::CarDamage(_) => "Car Damage",
            TelemetryPacket::SessionHistory(_) => "Session History",
        }
    }

    /// What the row is called.
    pub fn row_title(&self) -> (text: String)
        ensures
            text@ == row_title_text(self.packet),
    {
        match &self.packet {
            TelemetryPacket::Event(event) => {
                let code: String = event.code_as_string();
                event.event_name().concat(" (").concat(code.as_str()).concat(")")
            },
            _ => String::from_str(self.packet.name()),
        }
    }

    /// The time of the record, in seconds since the session began.
    pub fn timestamp(&self) -> (time: Float32)
        ensures
            time == self.packet.header_of().session_time,
    {
        self.packet.session_time()
    }

    /// The discriminant of the record.
    pub fn packet_id(&self) -> (code: u8)
        ensures
            code == self.packet.header_of().packet_id.code(),
    {
        self.packet.packet_id().as_u8()
    }
}

/// The row for `record` in `session`: for an event, with what the event says
/// given the roster that the session holds.
pub open spec fn row_of(session: Session, record: TelemetryPacket) -> RowView {
    RowView {
        packet: record,
        message: match record {
            TelemetryPacket::Event(event) => Some(message_of(event, session)),
            _ => None,
        },
    }
}

/// What one turn of the cycle asks for.
#[derive(Debug)]
pub enum Step {
    /// The session has no live connection: leave the cycle.
    Stop,
    /// Nothing to show: receive again.
    Skip,
    /// Hand the row on, then receive again.
    Emit(DisplayRow),
}

/// The session after a run of datagrams has gone by: each one that holds a
/// record has been seen, each one that holds none has changed nothing.
pub open spec fn session_after(session: Session, datagrams: Seq<Seq<u8>>) -> Session
    decreases datagrams.len(),
{
    if datagrams.len() == 0 {
        session
    } else {
        let before = session_after(session, datagrams.drop_last());
        if decode_failure(datagrams.last()) is None {
            before.having_seen(decoded(datagrams.last()))
        } else {
            before
        }
    }
}

/// The rows that a run of datagrams gives: one for each datagram that holds a
/// record, in the order of the datagrams, each made in the session as the
/// datagrams before it have left it.
pub open spec fn rows_of(session: Session, datagrams: Seq<Seq<u8>>) -> Seq<RowView>
    decreases datagrams.len(),
{
    if datagrams.len() == 0 {
        Seq::empty()
    } else {
        let front = datagrams.drop_last();
        if decode_failure(datagrams.last()) is None {
            rows_of(session, front).push(
                row_of(session_after(session, front), decoded(datagrams.last())),
            )
        } else {
            rows_of(session, front)
        }
    }
}

/// Makes the row for a record and lets the session take note of the record.
pub fn dispatch_record(session: &mut Session, record: TelemetryPacket) -> (row: DisplayRow)
    ensures
        row@ == row_of(*old(session), record),
        *final(session) == old(session).having_seen(record),
{
    let message: Option<EventMessage> = match &record {
        TelemetryPacket::Event(event) => Some(event.event_message(session)),
        _ => None,
    };
    session.observe(&record);
    DisplayRow { packet: record, message }
}

/// Reads one datagram and, where it holds a record, makes the row for it. A
/// datagram that holds no record is passed over and changes nothing.
pub fn dispatch_datagram(session: &mut Session, datagram: &[u8]) -> (row: Option<DisplayRow>)
    ensures
        match row {
            Some(row) => {
                &&& decode_failure(datagram@) is None
                &&& row@ == row_of(*old(session), decoded(datagram@))
                &&& *final(session) == old(session).having_seen(decoded(datagram@))
            },
            None => decode_failure(datagram@) is Some && *final(session) == *old(session),
        },
{
    match parse_packet(datagram) {
        Ok(record) => Some(dispatch_record(session, record)),
        Err(_) => None,
    }
}

/// One turn of the cycle. Without a live connection the cycle ends. A
/// receive that gave nothing, or a datagram that holds no record, is passed
/// over. A record is taken note of and handed on.
pub fn dispatch_step(session: &mut Session, received: &Received) -> (step: Step)
    ensures
        match step {
            Step::Stop => !old(session).connection.is_live() && *final(session) == *old(session),
            Step::Skip => {
                &&& old(session).connection.is_live()
                &&& old(session).latest(*received) is None
                &&& *final(session) == *old(session)
            },
            Step::Emit(row) => {
                &&& old(session).connection.is_live()
                &&& old(session).latest(*received) is Some
                &&& row@ == row_of(*old(session), old(session).latest(*received)->0)
                &&& *final(session) == old(session).having_seen(
                    old(session).latest(*received)->0,
                )
            },
        },
{
    if !session.connected() {
        return Step::Stop;
    }
    match session.get_latest_packet(received) {
        Some(record) => Step::Emit(dispatch_record(session, record)),
        None => Step::Skip,
    }
}

/// Runs a run of datagrams through [`dispatch_datagram`], one after another,
/// and collects the rows.
pub fn dispatch_all(session: &mut Session, datagrams: &Vec<Vec<u8>>) -> (rows: Vec<DisplayRow>)
    ensures
        rows@.map_values(|row: DisplayRow| row@) == rows_of(
            *old(session),
            datagrams@.map_values(|datagram: Vec<u8>| datagram@),
        ),
        *final(session) == session_after(
            *old(session),
            datagrams@.map_values(|datagram: Vec<u8>| datagram@),
        ),
{
    let ghost all = datagrams@.map_values(|datagram: Vec<u8>| datagram@);
    let mut rows: Vec<DisplayRow> = Vec::new();
    let mut i: usize = 0;
    proof {
        assert(all.take(0) =~= Seq::<Seq<u8>>::empty());
        assert(rows@.map_values(|row: DisplayRow| row@) =~= Seq::<RowView>::empty());
    }
    while i < datagrams.len()
        invariant
            i <= datagrams.len(),
            all == datagrams@.map_values(|datagram: Vec<u8>| datagram@),
            rows@.map_values(|row: DisplayRow| row@) == rows_of(*old(session), all.take(i as int)),
            *session == session_after(*old(session), all.take(i as int)),
        decreases datagrams.len() - i,
    {
        let ghost before = rows@.map_values(|row: DisplayRow| row@);
        proof {
            let next = all.take(i as int + 1);
            assert(next.drop_last() =~= all.take(i as int));
            assert(next.last() == datagrams@[i as int]@);
        }
        match dispatch_datagram(session, datagrams[i].as_slice()) {
            Some(row) => {
                rows.push(row);
                assert(rows@.map_values(|row: DisplayRow| row@) =~= before.push(row@));
            },
            None => {},
        }
        i += 1;
    }
    assert(all.take(datagrams.len() as int) =~= all);
    rows
}

/// Whether a datagram holds a record.
pub open spec fn holds_record(datagram: Seq<u8>) -> bool {
    decode_failure(datagram) is None
}

/// The datagrams that hold no record are passed over in silence: the rows
/// and the session are what they would be had those datagrams never come.
pub proof fn lemma_invalid_are_skipped(session: Session, datagrams: Seq<Seq<u8>>)
    ensures
        rows_of(session, datagrams) == rows_of(
            session,
            datagrams.filter(|datagram: Seq<u8>| holds_record(datagram)),
        ),
        session_after(session, datagrams) == session_after(
            session,
            datagrams.filter(|datagram: Seq<u8>| holds_record(datagram)),
        ),
    decreases datagrams.len(),
{
    reveal(Seq::filter);
    let valid = |datagram: Seq<u8>| holds_record(datagram);
    if datagrams.len() > 0 {
        let front = datagrams.drop_last();
        lemma_invalid_are_skipped(session, front);
        if holds_record(datagrams.last()) {
            let kept = front.filter(valid).push(datagrams.last());
            assert(datagrams.filter(valid) == kept);
            assert(kept.drop_last() =~= front.filter(valid));
            assert(kept.last() == datagrams.last());
        }
    }
}

/// Every datagram that holds a record gives a row, and the rows come in the
/// order of the datagrams: where each of a run of datagrams holds a record,
/// there are as many rows as datagrams, and each row carries the record of
/// the datagram in its place.
pub proof fn lemma_valid_give_rows_in_order(session: Session, datagrams: Seq<Seq<u8>>)
    requires
        forall|i: int| 0 <= i < datagrams.len() ==> holds_record(#[trigger] datagrams[i]),
    ensures
        rows_of(session, datagrams).len() == datagrams.len(),
        forall|i: int|
            0 <= i < datagrams.len() ==> (#[trigger] rows_of(session, datagrams)[i]).packet
                == decoded(datagrams[i]),
    decreases datagrams.len(),
{
    if datagrams.len() > 0 {
        let front = datagrams.drop_last();
        assert forall|i: int| 0 <= i < front.len() implies holds_record(#[trigger] front[i]) by {
            assert(front[i] == datagrams[i]);
        }
        lemma_valid_give_rows_in_order(session, front);
        assert(holds_record(datagrams[datagrams.len() - 1]));
        assert forall|i: int| 0 <= i < datagrams.len() implies (#[trigger] rows_of(
            session,
            datagrams,
        )[i]).packet == decoded(datagrams[i]) by {
            if i < front.len() {
                assert(rows_of(session, datagrams)[i] == rows_of(session, front)[i]);
                assert(front[i] == datagrams[i]);
            }
        }
    }
}

/// The most rows that are kept for display.
pub const ROW_LIMIT: usize = 250;

/// The last 250 of `rows`: all of them where there are no more.
pub open spec fn newest<T>(rows: Seq<T>) -> Seq<T> {
    if rows.len() > 250 {
        rows.subrange(rows.len() - 250, rows.len() as int)
    } else {
        rows
    }
}

/// Adds a row to those kept for display and lets go of the oldest beyond the
/// limit.
pub fn push_row<T>(rows: &mut Vec<T>, row: T)
    ensures
        final(rows)@ == newest(old(rows)@.push(row)),
{
    rows.push(row);
    if rows.len() > ROW_LIMIT {
        let excess: usize = rows.len() - ROW_LIMIT;
        let kept: Vec<T> = rows.split_off(excess);
        *rows = kept;
    }
}

} // verus!
