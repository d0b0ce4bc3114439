//! The rows in which contexts and events are persisted.
//!
//! Every event is one header row and, for all variants but the alarm, one
//! detail row that carries the payload and points back at the header by its
//! identifier. Each row type comes with the plain value that contracts speak
//! of: text as a sequence of characters, numbers as mathematical integers.

use vstd::prelude::*;

verus! {

/// A row of a context table: the service holds this table's role in the
/// epoch.
#[derive(Debug, Clone, PartialEq, Eq)]
pub struct Consensus2pcContextModel {
    pub service_id: String,
    pub epoch: i64,
}

/// A context row as contracts see it.
pub struct ContextRow {
    pub service_id: Seq<char>,
    pub epoch: int,
}

impl View for Consensus2pcContextModel {
    type V = ContextRow;

    open spec fn view(&self) -> ContextRow {
        ContextRow { service_id: self.service_id@, epoch: self.epoch as int }
    }
}

/// A header row that has not been given its identifier yet.
#[derive(Debug, Clone, PartialEq, Eq)]
pub struct InsertableTwoPcConsensusEventModel {
    pub service_id: String,
    pub epoch: i64,
    pub executed_at: Option<i64>,
    pub position: i32,
    pub event_type: String,
}

/// A header row: one per event.
#[derive(Debug, Clone, PartialEq, Eq)]
pub struct TwoPcConsensusEventModel {
    pub id: i64,
    pub service_id: String,
    pub epoch: i64,
    pub executed_at: Option<i64>,
    pub position: i32,
    pub event_type: String,
}

/// A header row as contracts see it. An identifier of zero stands for "not
/// assigned yet" in the view of an insertable row.
pub struct EventRow {
    pub id: int,
    pub service_id: Seq<char>,
    pub epoch: int,
    pub executed_at: Option<int>,
    pub position: int,
    pub event_type: Seq<char>,
}

/// What `Option<i64>` holds, as a mathematical integer.
pub open spec fn timestamp_view(at: Option<i64>) -> Option<int> {
    match at {
        Some(t) => Some(t as int),
        None => None,
    }
}

impl View for InsertableTwoPcConsensusEventModel {
    type V = EventRow;

    open spec fn view(&self) -> EventRow {
        EventRow {
            id: 0,
            service_id: self.service_id@,
            epoch: self.epoch as int,
            executed_at: timestamp_view(self.executed_at),
            position: self.position as int,
            event_type: self.event_type@,
        }
    }
}

impl View for TwoPcConsensusEventModel {
    type V = EventRow;

    open spec fn view(&self) -> EventRow {
        EventRow {
            id: self.id as int,
            service_id: self.service_id@,
            epoch: self.epoch as int,
            executed_at: timestamp_view(self.executed_at),
            position: self.position as int,
            event_type: self.event_type@,
        }
    }
}

impl EventRow {
    /// The same row under the identifier `id`.
    pub open spec fn with_id(self, id: int) -> EventRow {
        EventRow { id, ..self }
    }

    /// The same row, marked as executed at `at`.
    pub open spec fn executed(self, at: int) -> EventRow {
        EventRow { executed_at: Some(at), ..self }
    }

    /// Whether the row belongs to the log of `(service_id, epoch)`.
    pub open spec fn in_log(self, service_id: Seq<char>, epoch: int) -> bool {
        self.service_id == service_id && self.epoch == epoch
    }
}

/// The detail row of a deliver event.
#[derive(Debug, Clone, PartialEq, Eq)]
pub struct TwoPcConsensusDeliverEventModel {
    pub event_id: i64,
    pub service_id: String,
    pub epoch: i64,
    pub receiver_service_id: String,
    pub message_type: String,
    pub vote_response: Option<String>,
    pub vote_request: Option<Vec<u8>>,
}

/// The detail row of a start event.
#[derive(Debug, Clone, PartialEq, Eq)]
pub struct TwoPcConsensusStartEventModel {
    pub event_id: i64,
    pub service_id: String,
    pub epoch: i64,
    pub value: Vec<u8>,
}

/// The detail row of a vote event.
#[derive(Debug, Clone, PartialEq, Eq)]
pub struct TwoPcConsensusVoteEventModel {
    pub event_id: i64,
    pub service_id: String,
    pub epoch: i64,
    pub vote: String,
}

/// The detail row of an event, whichever table it goes to.
#[derive(Debug, Clone, PartialEq, Eq)]
pub enum TwoPcConsensusEventDetail {
    Deliver(TwoPcConsensusDeliverEventModel),
    Start(TwoPcConsensusStartEventModel),
    Vote(TwoPcConsensusVoteEventModel),
}

/// A deliver row as contracts see it.
pub struct DeliverRow {
    pub event_id: int,
    pub service_id: Seq<char>,
    pub epoch: int,
    pub receiver_service_id: Seq<char>,
    pub message_type: Seq<char>,
    pub vote_response: Option<Seq<char>>,
    pub vote_request: Option<Seq<u8>>,
}

/// A start row as contracts see it.
pub struct StartRow {
    pub event_id: int,
    pub service_id: Seq<char>,
    pub epoch: int,
    pub value: Seq<u8>,
}

/// A vote row as contracts see it.
pub struct VoteRow {
    pub event_id: int,
    pub service_id: Seq<char>,
    pub epoch: int,
    pub vote: Seq<char>,
}

/// A detail row as contracts see it.
pub enum DetailRow {
    Deliver(DeliverRow),
    Start(StartRow),
    Vote(VoteRow),
}

/// What an optional text holds, as characters.
pub open spec fn text_view(text: Option<String>) -> Option<Seq<char>> {
    match text {
        Some(t) => Some(t@),
        None => None,
    }
}

/// What an optional value holds, as bytes.
pub open spec fn value_view(value: Option<Vec<u8>>) -> Option<Seq<u8>> {
    match value {
        Some(v) => Some(v@),
        None => None,
    }
}

impl View for TwoPcConsensusDeliverEventModel {
    type V = DeliverRow;

    open spec fn view(&self) -> DeliverRow {
        DeliverRow {
            event_id: self.event_id as int,
            service_id: self.service_id@,
            epoch: self.epoch as int,
            receiver_service_id: self.receiver_service_id@,
            message_type: self.message_type@,
            vote_response: text_view(self.vote_response),
            vote_request: value_view(self.vote_request),
        }
    }
}

impl View for TwoPcConsensusStartEventModel {
    type V = StartRow;

    open spec fn view(&self) -> StartRow {
        StartRow {
            event_id: self.event_id as int,
            service_id: self.service_id@,
            epoch: self.epoch as int,
            value: self.value@,
        }
    }
}

impl View for TwoPcConsensusVoteEventModel {
    type V = VoteRow;

    open spec fn view(&self) -> VoteRow {
        VoteRow {
            event_id: self.event_id as int,
            service_id: self.service_id@,
            epoch: self.epoch as int,
            vote: self.vote@,
        }
    }
}

impl View for TwoPcConsensusEventDetail {
    type V = DetailRow;

    open spec fn view(&self) -> DetailRow {
        match self {
            TwoPcConsensusEventDetail::Deliver(row) => DetailRow::Deliver(row@),
            TwoPcConsensusEventDetail::Start(row) => DetailRow::Start(row@),
            TwoPcConsensusEventDetail::Vote(row) => DetailRow::Vote(row@),
        }
    }
}

impl DetailRow {
    /// The identifier of the header row that this row belongs to.
    pub open spec fn event_id(self) -> int {
        match self {
            DetailRow::Deliver(row) => row.event_id,
            DetailRow::Start(row) => row.event_id,
            DetailRow::Vote(row) => row.event_id,
        }
    }

    /// The service whose event this row details.
    pub open spec fn service_id(self) -> Seq<char> {
        match self {
            DetailRow::Deliver(row) => row.service_id,
            DetailRow::Start(row) => row.service_id,
            DetailRow::Vote(row) => row.service_id,
        }
    }

    /// The epoch of the event that this row details.
    pub open spec fn epoch(self) -> int {
        match self {
            DetailRow::Deliver(row) => row.epoch,
            DetailRow::Start(row) => row.epoch,
            DetailRow::Vote(row) => row.epoch,
        }
    }
}

impl TwoPcConsensusEventDetail {
    /// The identifier of the header row that this row belongs to.
    pub fn event_id(&self) -> (id: i64)
        ensures
            id == self@.event_id(),
    {
        match self {
            TwoPcConsensusEventDetail::Deliver(row) => row.event_id,
            TwoPcConsensusEventDetail::Start(row) => row.event_id,
            TwoPcConsensusEventDetail::Vote(row) => row.event_id,
        }
    }
}

impl TwoPcConsensusEventModel {
    /// A copy of the row.
    pub fn duplicate(&self) -> (row: Self)
        ensures
            row@ == self@,
    {
        TwoPcConsensusEventModel {
            id: self.id,
            service_id: self.service_id.clone(),
            epoch: self.epoch,
            executed_at: self.executed_at,
            position: self.position,
            event_type: self.event_type.clone(),
        }
    }
}

impl TwoPcConsensusEventDetail {
    /// A copy of the row.
    pub fn duplicate(&self) -> (row: Self)
        ensures
            row@ == self@,
    {
        match self {
            TwoPcConsensusEventDetail::Deliver(deliver) => TwoPcConsensusEventDetail::Deliver(
                TwoPcConsensusDeliverEventModel {
                    event_id: deliver.event_id,
                    service_id: deliver.service_id.clone(),
                    epoch: deliver.epoch,
                    receiver_service_id: deliver.receiver_service_id.clone(),
                    message_type: deliver.message_type.clone(),
                    vote_response: deliver.vote_response.clone(),
                    vote_request: match &deliver.vote_request {
                        Some(value) => Some(value.clone()),
                        None => None,
                    },
                },
            ),
            TwoPcConsensusEventDetail::Start(start) => TwoPcConsensusEventDetail::Start(
                TwoPcConsensusStartEventModel {
                    event_id: start.event_id,
                    service_id: start.service_id.clone(),
                    epoch: start.epoch,
                    value: start.value.clone(),
                },
            ),
            TwoPcConsensusEventDetail::Vote(vote) => TwoPcConsensusEventDetail::Vote(
                TwoPcConsensusVoteEventModel {
                    event_id: vote.event_id,
                    service_id: vote.service_id.clone(),
                    epoch: vote.epoch,
                    vote: vote.vote.clone(),
                },
            ),
        }
    }
}

impl InsertableTwoPcConsensusEventModel {
    /// The header row as it stands once the store has assigned `id`.
    pub fn with_id(self, id: i64) -> (row: TwoPcConsensusEventModel)
        ensures
            row@ == self@.with_id(id as int),
    {
        TwoPcConsensusEventModel {
            id,
            service_id: self.service_id,
            epoch: self.epoch,
            executed_at: self.executed_at,
            position: self.position,
            event_type: self.event_type,
        }
    }
}

} // verus!
