//! The events that drive the state machine of one two-phase commit round.

use vstd::prelude::*;
use crate::consensus::message::MessageView;
use crate::consensus::message::Scabbard2pcMessage;
use crate::consensus::service_id::FullyQualifiedServiceId;
use crate::text::str_eq;

verus! {

/// One stimulus to the state machine.
#[derive(Debug, Clone, PartialEq, Eq)]
pub enum Scabbard2pcEvent {
    /// A timer fired.
    Alarm,
    /// A message for another service: who receives it, and the message.
    Deliver(FullyQualifiedServiceId, Scabbard2pcMessage),
    /// The application submitted a value. Only a coordinator starts a round.
    Start(Vec<u8>),
    /// The local decision on the round's value.
    Vote(bool),
}

/// An event as contracts see it.
pub enum EventView {
    Alarm,
    Deliver(Seq<char>, MessageView),
    Start(Seq<u8>),
    Vote(bool),
}

impl View for Scabbard2pcEvent {
    type V = EventView;

    open spec fn view(&self) -> EventView {
        match self {
            Scabbard2pcEvent::Alarm => EventView::Alarm,
            Scabbard2pcEvent::Deliver(receiver, message) => EventView::Deliver(
                receiver@,
                message@,
            ),
            Scabbard2pcEvent::Start(value) => EventView::Start(value@),
            Scabbard2pcEvent::Vote(vote) => EventView::Vote(*vote),
        }
    }
}

/// An event of any consensus algorithm that scabbard runs. Two-phase commit
/// is the only one.
#[derive(Debug, Clone, PartialEq, Eq)]
pub enum ScabbardConsensusEvent {
    Scabbard2pcConsensusEvent(Scabbard2pcEvent),
}

impl View for ScabbardConsensusEvent {
    type V = EventView;

    open spec fn view(&self) -> EventView {
        match self {
            ScabbardConsensusEvent::Scabbard2pcConsensusEvent(event) => event@,
        }
    }
}

/// Which variant an event is, without its payload.
#[derive(Debug, Clone, Copy, PartialEq, Eq, Structural)]
pub enum EventKind {
    Alarm,
    Deliver,
    Start,
    Vote,
}

impl EventView {
    /// The variant of the event.
    pub open spec fn kind(self) -> EventKind {
        match self {
            EventView::Alarm => EventKind::Alarm,
            EventView::Deliver(_, _) => EventKind::Deliver,
            EventView::Start(_) => EventKind::Start,
            EventView::Vote(_) => EventKind::Vote,
        }
    }
}

/// The discriminator under which an event variant is persisted.
pub open spec fn event_type_text(kind: EventKind) -> Seq<char> {
    match kind {
        EventKind::Alarm => "ALARM"@,
        EventKind::Deliver => "DELIVER"@,
        EventKind::Start => "START"@,
        EventKind::Vote => "VOTE"@,
    }
}

/// The variant that a persisted discriminator names, if it names one.
pub open spec fn event_kind_of_text(text: Seq<char>) -> Option<EventKind> {
    if text == "ALARM"@ {
        Some(EventKind::Alarm)
    } else if text == "DELIVER"@ {
        Some(EventKind::Deliver)
    } else if text == "START"@ {
        Some(EventKind::Start)
    } else if text == "VOTE"@ {
        Some(EventKind::Vote)
    } else {
        None
    }
}

/// The discriminators of the event variants differ from each other.
pub proof fn lemma_event_type_texts_distinct()
    ensures
        forall|kind: EventKind| #[trigger]
            event_kind_of_text(event_type_text(kind)) == Some(kind),
{
    reveal_strlit("ALARM");
    reveal_strlit("DELIVER");
    reveal_strlit("START");
    reveal_strlit("VOTE");
    assert("ALARM"@[0] == 'A');
    assert("START"@[0] == 'S');
    assert("DELIVER"@.len() == 7);
    assert("VOTE"@.len() == 4);
    assert("ALARM"@.len() == 5);
}

impl EventKind {
    /// The persisted discriminator of the variant.
    pub fn name(self) -> (name: &'static str)
        ensures
            name@ == event_type_text(self),
    {
        match self {
            EventKind::Alarm => "ALARM",
            EventKind::Deliver => "DELIVER",
            EventKind::Start => "START",
            EventKind::Vote => "VOTE",
        }
    }

    /// Reads a persisted discriminator.
    pub fn from_name(name: &str) -> (kind: Option<EventKind>)
        ensures
            kind == event_kind_of_text(name@),
    {
        if str_eq(name, "ALARM") {
            Some(EventKind::Alarm)
        } else if str_eq(name, "DELIVER") {
            Some(EventKind::Deliver)
        } else if str_eq(name, "START") {
            Some(EventKind::Start)
        } else if str_eq(name, "VOTE") {
            Some(EventKind::Vote)
        } else {
            None
        }
    }
}

impl Scabbard2pcEvent {
    /// The variant of the event.
    pub fn kind(&self) -> (kind: EventKind)
        ensures
            kind == self@.kind(),
    {
        match self {
            Scabbard2pcEvent::Alarm => EventKind::Alarm,
            Scabbard2pcEvent::Deliver(_, _) => EventKind::Deliver,
            Scabbard2pcEvent::Start(_) => EventKind::Start,
            Scabbard2pcEvent::Vote(_) => EventKind::Vote,
        }
    }

    /// The persisted discriminator of the event.
    pub fn event_type(&self) -> (name: &'static str)
        ensures
            name@ == event_type_text(self@.kind()),
    {
        self.kind().name()
    }
}

} // verus!
