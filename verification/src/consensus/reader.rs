//! Reading events back from their rows.
//!
//! A header row and the detail row joined to it by the event identifier
//! describe an event only if they agree: the discriminator names a variant,
//! the detail row is of the table that the variant writes to and belongs to
//! the same service and epoch, and its columns are filled as the writer fills
//! them. Votes are read from the two upper-case words and from nothing else.

use vstd::prelude::*;
use vstd::string::StringExecFns;
use crate::consensus::event::EventKind;
use crate::consensus::event::EventView;
use crate::consensus::event::Scabbard2pcEvent;
use crate::consensus::event::event_kind_of_text;
use crate::consensus::event::lemma_event_type_texts_distinct;
use crate::consensus::message::MessageKind;
use crate::consensus::message::MessageView;
use crate::consensus::message::Scabbard2pcMessage;
use crate::consensus::message::lemma_message_type_texts_distinct;
use crate::consensus::message::lemma_vote_text_round_trip;
use crate::consensus::message::message_kind_of_text;
use crate::consensus::message::parse_vote;
use crate::consensus::message::vote_of_text;
use crate::consensus::models::DeliverRow;
use crate::consensus::models::DetailRow;
use crate::consensus::models::EventRow;
use crate::consensus::models::TwoPcConsensusDeliverEventModel;
use crate::consensus::models::TwoPcConsensusEventDetail;
use crate::consensus::models::TwoPcConsensusEventModel;
use crate::consensus::service_id::FullyQualifiedServiceId;
use crate::consensus::writer::detail_row;
use crate::consensus::writer::header_row;
use crate::error::ScabbardStoreError;
use crate::error::StoreErrorView;
use crate::text::signed_decimal;
use crate::text::signed_decimal_string;

verus! {

/// The message that a deliver row records, if its columns describe one.
pub open spec fn decode_message(row: DeliverRow) -> Option<MessageView> {
    match message_kind_of_text(row.message_type) {
        Some(MessageKind::VoteRequest) => match (row.vote_request, row.vote_response) {
            (Some(value), None) => Some(MessageView::VoteRequest(value)),
            _ => None,
        },
        Some(MessageKind::VoteResponse) => match (row.vote_response, row.vote_request) {
            (Some(word), None) => match vote_of_text(word) {
                Some(vote) => Some(MessageView::VoteResponse(vote)),
                None => None,
            },
            _ => None,
        },
        Some(MessageKind::Commit) => if row.vote_response is None && row.vote_request is None {
            Some(MessageView::Commit)
        } else {
            None
        },
        Some(MessageKind::Abort) => if row.vote_response is None && row.vote_request is None {
            Some(MessageView::Abort)
        } else {
            None
        },
        Some(MessageKind::DecisionRequest) => if row.vote_response is None && row.vote_request
            is None {
            Some(MessageView::DecisionRequest)
        } else {
            None
        },
        None => None,
    }
}

/// Whether a detail row points at `header` and repeats its service and
/// epoch.
pub open spec fn joins(header: EventRow, detail: DetailRow) -> bool {
    &&& detail.event_id() == header.id
    &&& detail.service_id() == header.service_id
    &&& detail.epoch() == header.epoch
}

/// The event that a header row and the detail row joined to it describe, if
/// they describe one.
pub open spec fn decode_event(header: EventRow, detail: Option<DetailRow>) -> Option<EventView> {
    match event_kind_of_text(header.event_type) {
        Some(EventKind::Alarm) => if detail is None {
            Some(EventView::Alarm)
        } else {
            None
        },
        Some(EventKind::Deliver) => match detail {
            Some(DetailRow::Deliver(row)) => if joins(header, detail.unwrap()) {
                match decode_message(row) {
                    Some(message) => Some(EventView::Deliver(row.receiver_service_id, message)),
                    None => None,
                }
            } else {
                None
            },
            _ => None,
        },
        Some(EventKind::Start) => match detail {
            Some(DetailRow::Start(row)) => if joins(header, detail.unwrap()) {
                Some(EventView::Start(row.value))
            } else {
                None
            },
            _ => None,
        },
        Some(EventKind::Vote) => match detail {
            Some(DetailRow::Vote(row)) => if joins(header, detail.unwrap()) {
                match vote_of_text(row.vote) {
                    Some(vote) => Some(EventView::Vote(vote)),
                    None => None,
                }
            } else {
                None
            },
            _ => None,
        },
        None => None,
    }
}

/// The kind of an event that was read from a header row is the one that the
/// row's discriminator names.
pub proof fn lemma_decoded_kind(header: EventRow, detail: Option<DetailRow>)
    requires
        decode_event(header, detail) is Some,
    ensures
        event_kind_of_text(header.event_type) == Some(decode_event(header, detail).unwrap().kind()),
        decode_event(header, detail).unwrap() is Alarm <==> detail is None,
        detail is Some ==> joins(header, detail.unwrap()),
{
}

/// The rows that the writer builds for an event read back as that event.
pub proof fn lemma_rows_round_trip(
    id: int,
    service_id: Seq<char>,
    epoch: int,
    position: int,
    event: EventView,
)
    ensures
        decode_event(
            header_row(service_id, epoch, position, event).with_id(id),
            detail_row(id, service_id, epoch, event),
        ) == Some(event),
{
    lemma_event_type_texts_distinct();
    lemma_message_type_texts_distinct();
    lemma_vote_text_round_trip();
    let header = header_row(service_id, epoch, position, event).with_id(id);
    let detail = detail_row(id, service_id, epoch, event);
    assert(event_kind_of_text(header.event_type) == Some(event.kind()));
    match event {
        EventView::Deliver(receiver, message) => {
            let row = detail.unwrap()->Deliver_0;
            assert(message_kind_of_text(row.message_type) == Some(message.kind()));
            assert(decode_message(row) == Some(message));
        },
        _ => {},
    }
}

/// Whether an event is read back may depend on the header's identifier,
/// service, epoch and discriminator, but not on when it was executed nor on
/// its position.
pub proof fn lemma_decode_ignores_execution(header: EventRow, at: int, detail: Option<DetailRow>)
    ensures
        decode_event(header.executed(at), detail) == decode_event(header, detail),
{
}

/// The message of the error for rows that describe no event.
pub open spec fn corrupt_event_message(event_id: int) -> Seq<char> {
    "Failed to read consensus event with id: "@ + signed_decimal(event_id)
        + ", its rows do not describe an event"@
}

/// What an optional reference to a detail row holds.
pub open spec fn detail_ref_view(detail: Option<&TwoPcConsensusEventDetail>) -> Option<
    DetailRow,
> {
    match detail {
        Some(row) => Some(row@),
        None => None,
    }
}

fn corrupt_event(event_id: i64) -> (err: ScabbardStoreError)
    ensures
        err@ == StoreErrorView::InvalidState(corrupt_event_message(event_id as int)),
{
    let mut message = String::from_str("Failed to read consensus event with id: ");
    let digits = signed_decimal_string(event_id);
    message.append(digits.as_str());
    message.append(", its rows do not describe an event");
    ScabbardStoreError::invalid_state(message)
}

/// Reads the message that a deliver row records.
pub fn read_message(row: &TwoPcConsensusDeliverEventModel) -> (message: Option<
    Scabbard2pcMessage,
>)
    ensures
        match message {
            Some(found) => decode_message(row@) == Some(found@),
            None => decode_message(row@) is None,
        },
{
    match MessageKind::from_name(row.message_type.as_str()) {
        Some(MessageKind::VoteRequest) => match (&row.vote_request, &row.vote_response) {
            (Some(value), None) => Some(Scabbard2pcMessage::VoteRequest(value.clone())),
            _ => None,
        },
        Some(MessageKind::VoteResponse) => match (&row.vote_response, &row.vote_request) {
            (Some(word), None) => match parse_vote(word.as_str()) {
                Some(vote) => Some(Scabbard2pcMessage::VoteResponse(vote)),
                None => None,
            },
            _ => None,
        },
        Some(MessageKind::Commit) => if row.vote_response.is_none() && row.vote_request.is_none() {
            Some(Scabbard2pcMessage::Commit)
        } else {
            None
        },
        Some(MessageKind::Abort) => if row.vote_response.is_none() && row.vote_request.is_none() {
            Some(Scabbard2pcMessage::Abort)
        } else {
            None
        },
        Some(MessageKind::DecisionRequest) => if row.vote_response.is_none()
            && row.vote_request.is_none() {
            Some(Scabbard2pcMessage::DecisionRequest)
        } else {
            None
        },
        None => None,
    }
}

/// Reads the event that a header row and its detail row describe.
///
/// `detail` is the detail row whose event identifier is the header's, if
/// there is one. Rows that do not describe an event are an `InvalidState`
/// error: the tables are corrupt.
pub fn read_event(
    header: &TwoPcConsensusEventModel,
    detail: Option<&TwoPcConsensusEventDetail>,
) -> (event: Result<Scabbard2pcEvent, ScabbardStoreError>)
    ensures
        match event {
            Ok(found) => decode_event(header@, detail_ref_view(detail)) == Some(found@),
            Err(err) => {
                &&& decode_event(header@, detail_ref_view(detail)) is None
                &&& err@ == StoreErrorView::InvalidState(corrupt_event_message(header.id as int))
            },
        },
{
    match EventKind::from_name(header.event_type.as_str()) {
        Some(EventKind::Alarm) => match detail {
            None => Ok(Scabbard2pcEvent::Alarm),
            Some(_) => Err(corrupt_event(header.id)),
        },
        Some(EventKind::Deliver) => match detail {
            Some(TwoPcConsensusEventDetail::Deliver(row)) => {
                if row.event_id == header.id && row.service_id == header.service_id && row.epoch
                    == header.epoch {
                    match read_message(row) {
                        Some(message) => Ok(
                            Scabbard2pcEvent::Deliver(
                                FullyQualifiedServiceId::new_from_str(
                                    row.receiver_service_id.as_str(),
                                ),
                                message,
                            ),
                        ),
                        None => Err(corrupt_event(header.id)),
                    }
                } else {
                    Err(corrupt_event(header.id))
                }
            },
            _ => Err(corrupt_event(header.id)),
        },
        Some(EventKind::Start) => match detail {
            Some(TwoPcConsensusEventDetail::Start(row)) => {
                if row.event_id == header.id && row.service_id == header.service_id && row.epoch
                    == header.epoch {
                    Ok(Scabbard2pcEvent::Start(row.value.clone()))
                } else {
                    Err(corrupt_event(header.id))
                }
            },
            _ => Err(corrupt_event(header.id)),
        },
        Some(EventKind::Vote) => match detail {
            Some(TwoPcConsensusEventDetail::Vote(row)) => {
                if row.event_id == header.id && row.service_id == header.service_id && row.epoch
                    == header.epoch {
                    match parse_vote(row.vote.as_str()) {
                        Some(vote) => Ok(Scabbard2pcEvent::Vote(vote)),
                        None => Err(corrupt_event(header.id)),
                    }
                } else {
                    Err(corrupt_event(header.id))
                }
            },
            _ => Err(corrupt_event(header.id)),
        },
        None => Err(corrupt_event(header.id)),
    }
}

} // verus!
