use vstd::prelude::*;

verus! {

/// The payload of an event: a tuple of identifiers and numbers.
#[derive(Debug, PartialEq, Eq)]
pub enum EventData {
    /// A label and an identifier.
    Labelled(String, String),
    /// Two numbers.
    Pair(u32, u32),
    /// An identifier and a number.
    Entry(String, u32),
    /// Three numbers.
    Triple(u32, u32, u32),
}

/// A record appended to the host's event log: a topic and its payload.
#[derive(Debug, PartialEq, Eq)]
pub struct Event {
    pub topic: String,
    pub data: EventData,
}

/// An event's payload, with each text as its characters.
pub enum PayloadView {
    Labelled(Seq<char>, Seq<char>),
    Pair(u32, u32),
    Entry(Seq<char>, u32),
    Triple(u32, u32, u32),
}

/// An event as the host's log holds it: its topic and its payload.
pub struct EventView {
    pub topic: Seq<char>,
    pub payload: PayloadView,
}

impl View for EventData {
    type V = PayloadView;

    open spec fn view(&self) -> PayloadView {
        match self {
            EventData::Labelled(a, b) => PayloadView::Labelled(a@, b@),
            EventData::Pair(a, b) => PayloadView::Pair(*a, *b),
            EventData::Entry(k, v) => PayloadView::Entry(k@, *v),
            EventData::Triple(a, b, c) => PayloadView::Triple(*a, *b, *c),
        }
    }
}

impl View for Event {
    type V = EventView;

    open spec fn view(&self) -> EventView {
        EventView { topic: self.topic@, payload: self.data@ }
    }
}

} // verus!
