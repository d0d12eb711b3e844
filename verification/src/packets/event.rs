//! The event record.
use crate::ids::{Event, EventId};
use crate::packets::event_details::EventDataDetails;
use crate::text::{ascii_text, is_ascii, lossy_text, utf8_lossy};
use crate::packets::header::PacketHeader;
use crate::wire::{
    decode_array, encode_all, lemma_concat_assoc, lemma_concat_cancel, lemma_subrange_join,
    lemma_wire_array_injective, lemma_wire_array_len, same_bytes, wire_all, Wire,
};
use vstd::prelude::*;
use vstd::string::StringExecFns;

verus! {

/// The number of bytes the record takes, header included.
pub const EVENT_SIZE: usize = 40;

/// Something that has happened in the session: a code and what goes with it.
#[derive(Clone, Copy, Debug, PartialEq, Eq)]
pub struct PacketEventData {
    pub header: PacketHeader,
    /// Four ASCII letters that say which event it is.
    pub event_string_code: [u8; 4],
    /// What goes with the event; which reading of it holds depends on the code.
    pub event_details: EventDataDetails,
}

impl Wire for PacketEventData {
    open spec fn wire(&self) -> Seq<u8> {
        self.header.wire() + wire_all(self.event_string_code@) + self.event_details.wire()
    }

    open spec fn width() -> nat {
        40
    }

    open spec fn canonical(&self) -> bool {
        self.header.canonical()
    }

    proof fn lemma_wire_len(&self) {
        self.header.lemma_wire_len();
        lemma_wire_array_len(&self.event_string_code);
        self.event_details.lemma_wire_len();
    }

    proof fn lemma_wire_injective(&self, other: &Self) {
        broadcast use lemma_concat_cancel;

        assert(same_bytes(self.wire(), other.wire()));
        self.header.lemma_wire_len();
        other.header.lemma_wire_len();
        lemma_wire_array_len(&self.event_string_code);
        lemma_wire_array_len(&other.event_string_code);
        self.event_details.lemma_wire_len();
        other.event_details.lemma_wire_len();
        self.header.lemma_wire_injective(&other.header);
        lemma_wire_array_injective(&self.event_string_code, &other.event_string_code);
        self.event_details.lemma_wire_injective(&other.event_details);
    }

    fn size() -> (n: usize) {
        EVENT_SIZE
    }

    fn decode(bytes: &[u8], at: usize) -> (value: Self) {
        broadcast use lemma_subrange_join;

        let header: PacketHeader = PacketHeader::decode(bytes, at);
        let event_string_code: [u8; 4] = decode_array(bytes, at + 24);
        let event_details: EventDataDetails = EventDataDetails::decode(bytes, at + 28);
        PacketEventData { header, event_string_code, event_details }
    }

    fn encode(&self, out: &mut Vec<u8>) {
        broadcast use lemma_concat_assoc;

        self.header.encode(out);
        encode_all(self.event_string_code.as_slice(), out);
        self.event_details.encode(out);
    }
}

impl PacketEventData {
    /// The event that the code announces, if it announces one that is known.
    pub open spec fn resolved(self) -> Option<EventId> {
        EventId::with_code(self.event_string_code@)
    }

    /// What the event is called: "Unknown" for a code that is not known.
    pub open spec fn name_text(self) -> Seq<char> {
        match self.resolved() {
            Some(id) => id.name_text(),
            None => "Unknown"@,
        }
    }

    /// What the event means: "Unknown" for a code that is not known.
    pub open spec fn description_text(self) -> Seq<char> {
        match self.resolved() {
            Some(id) => id.description_text(),
            None => "Unknown"@,
        }
    }

    /// The event that the code announces, if it announces one that is known.
    pub fn event_id(&self) -> (id: Option<EventId>)
        ensures
            id == self.resolved(),
    {
        EventId::from_code(&self.event_string_code)
    }

    /// The code as text.
    pub fn code_as_string(&self) -> (text: String)
        ensures
            text@ == utf8_lossy(self.event_string_code@),
            is_ascii(self.event_string_code@) ==> text@ == ascii_text(self.event_string_code@),
    {
        lossy_text(self.event_string_code.as_slice())
    }

    /// What the event is called: "Unknown" for a code that is not known.
    pub fn event_name(&self) -> (text: String)
        ensures
            text@ == self.name_text(),
    {
        match self.event_id() {
            Some(id) => String::from_str(id.name()),
            None => String::from_str("Unknown"),
        }
    }

    /// What the event means: "Unknown" for a code that is not known.
    pub fn event_description(&self) -> (text: String)
        ensures
            text@ == self.description_text(),
    {
        match self.event_id() {
            Some(id) => String::from_str(id.description()),
            None => String::from_str("Unknown"),
        }
    }

    /// The row of the table of events for the code, if the code is known.
    pub fn event_reference(&self) -> (row: Option<Event>)
        ensures
            match row {
                Some(event) => {
                    &&& self.resolved() == Some(event.id)
                    &&& event.event@ == event.id.name_text()
                    &&& event.code@ == event.id.code_text()
                    &&& event.description@ == event.id.description_text()
                },
                None => self.resolved() is None,
            },
    {
        match self.event_id() {
            Some(id) => Some(Event::of(id)),
            None => None,
        }
    }
}

} // verus!
