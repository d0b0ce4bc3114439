//! The decisions of the transactional writer.
//!
//! Appending an event is a sequence of reads and writes against the tables,
//! held together by one transaction. What is decided in between is decided
//! here, on plain values: whether the epoch fits the persisted width, which
//! role the context rows give the service, whether that role may record the
//! event, which position the event takes, and what the header row and the
//! detail row hold. Whoever owns the tables does the reading and the
//! writing.

use vstd::prelude::*;
use vstd::string::StringExecFns;
use crate::consensus::context::Context;
use crate::consensus::context::role_of;
use crate::consensus::event::EventView;
use crate::consensus::event::Scabbard2pcEvent;
use crate::consensus::event::ScabbardConsensusEvent;
use crate::consensus::event::event_type_text;
use crate::consensus::message::MessageKind;
use crate::consensus::message::MessageView;
use crate::consensus::message::Scabbard2pcMessage;
use crate::consensus::message::message_type_text;
use crate::consensus::message::vote_str;
use crate::consensus::message::vote_text;
use crate::consensus::models::DeliverRow;
use crate::consensus::models::DetailRow;
use crate::consensus::models::EventRow;
use crate::consensus::models::InsertableTwoPcConsensusEventModel;
use crate::consensus::models::StartRow;
use crate::consensus::models::TwoPcConsensusDeliverEventModel;
use crate::consensus::models::TwoPcConsensusEventDetail;
use crate::consensus::models::TwoPcConsensusStartEventModel;
use crate::consensus::models::TwoPcConsensusVoteEventModel;
use crate::consensus::models::VoteRow;
use crate::consensus::service_id::FullyQualifiedServiceId;
use crate::error::ScabbardStoreError;
use crate::error::StoreErrorView;
use crate::text::signed_decimal;
use crate::text::signed_decimal_string;

verus! {

/// Whether a message may be delivered by a service in `role`.
///
/// A coordinator answers decision requests and collects vote responses; a
/// participant receives everything else.
pub open spec fn role_delivers(role: Context, kind: MessageKind) -> bool {
    match role {
        Context::Coordinator => kind == MessageKind::DecisionRequest || kind
            == MessageKind::VoteResponse,
        Context::Participant => kind != MessageKind::VoteResponse,
    }
}

/// Whether a service in `role` may record `event`.
pub open spec fn role_accepts(role: Context, event: EventView) -> bool {
    match event {
        EventView::Alarm => true,
        EventView::Vote(_) => true,
        EventView::Start(_) => role == Context::Coordinator,
        EventView::Deliver(_, message) => role_delivers(role, message.kind()),
    }
}

/// The message of the error for an epoch that does not fit the persisted
/// width.
pub open spec fn epoch_range_message() -> Seq<char> {
    "out of range integral type conversion attempted"@
}

/// The message of the error for a service that holds both roles in an epoch.
pub open spec fn both_contexts_message(service_id: Seq<char>, epoch: int) -> Seq<char> {
    "Failed to add consensus event, contexts found for participant and coordinator with service_id: "@
        + service_id + " epoch: "@ + signed_decimal(epoch)
}

/// The message of the error for a service that holds no role in an epoch.
pub open spec fn missing_context_message(service_id: Seq<char>, epoch: int) -> Seq<char> {
    "Failed to add consensus event, a context with service_id: "@ + service_id
        + " and epoch: "@ + signed_decimal(epoch) + " does not exist"@
}

/// The message of the error for an event that `role` may not record.
pub open spec fn rejection_message(role: Context, event: EventView) -> Seq<char> {
    match event {
        EventView::Deliver(_, message) => match role {
            Context::Coordinator =>
                "Failed to add consensus deliver event, invalid coordinator message type "@
                    + message_type_text(message.kind()),
            Context::Participant =>
                "Failed to add consensus deliver event, invalid participant message type "@
                    + message_type_text(message.kind()),
        },
        _ => "Failed to add consensus event, invalid participant event type "@
            + event_type_text(event.kind()),
    }
}

/// The message of the error for a log that has no position left.
pub open spec fn positions_exhausted_message() -> Seq<char> {
    "Failed to add consensus event, the log has no position left"@
}

/// The position after `last`, or the first one when nothing was recorded.
pub open spec fn position_after(last: Option<int>) -> int {
    match last {
        Some(position) => position + 1,
        None => 1,
    }
}

/// The header row of `event` at `position`, before it has an identifier.
pub open spec fn header_row(
    service_id: Seq<char>,
    epoch: int,
    position: int,
    event: EventView,
) -> EventRow {
    EventRow {
        id: 0,
        service_id,
        epoch,
        executed_at: None,
        position,
        event_type: event_type_text(event.kind()),
    }
}

/// The vote that a deliver row records: the one of a vote response.
pub open spec fn vote_response_column(message: MessageView) -> Option<Seq<char>> {
    match message {
        MessageView::VoteResponse(vote) => Some(vote_text(vote)),
        _ => None,
    }
}

/// The value that a deliver row records: the one of a vote request.
pub open spec fn vote_request_column(message: MessageView) -> Option<Seq<u8>> {
    match message {
        MessageView::VoteRequest(value) => Some(value),
        _ => None,
    }
}

/// The detail row of `event` under the header `event_id`; an alarm has none.
pub open spec fn detail_row(
    event_id: int,
    service_id: Seq<char>,
    epoch: int,
    event: EventView,
) -> Option<DetailRow> {
    match event {
        EventView::Alarm => None,
        EventView::Deliver(receiver, message) => Some(
            DetailRow::Deliver(
                DeliverRow {
                    event_id,
                    service_id,
                    epoch,
                    receiver_service_id: receiver,
                    message_type: message_type_text(message.kind()),
                    vote_response: vote_response_column(message),
                    vote_request: vote_request_column(message),
                },
            ),
        ),
        EventView::Start(value) => Some(
            DetailRow::Start(StartRow { event_id, service_id, epoch, value }),
        ),
        EventView::Vote(vote) => Some(
            DetailRow::Vote(VoteRow { event_id, service_id, epoch, vote: vote_text(vote) }),
        ),
    }
}

/// The error of the first rule that the context rows or the event break, in
/// the order in which the writer checks them; `None` if they break none.
pub open spec fn plan_error(
    service_id: Seq<char>,
    epoch: int,
    coordinator: bool,
    participant: bool,
    last_position: Option<int>,
    event: EventView,
) -> Option<StoreErrorView> {
    if coordinator && participant {
        Some(StoreErrorView::InvalidState(both_contexts_message(service_id, epoch)))
    } else if !coordinator && !participant {
        Some(StoreErrorView::InvalidState(missing_context_message(service_id, epoch)))
    } else if !role_accepts(role_of(coordinator, participant).unwrap(), event) {
        Some(
            StoreErrorView::InvalidState(
                rejection_message(role_of(coordinator, participant).unwrap(), event),
            ),
        )
    } else if position_after(last_position) > i32::MAX {
        Some(StoreErrorView::Internal(positions_exhausted_message()))
    } else {
        None
    }
}

/// Narrows an epoch to the width in which it is persisted.
pub fn persisted_epoch(epoch: u64) -> (narrowed: Result<i64, ScabbardStoreError>)
    ensures
        epoch <= i64::MAX ==> narrowed == Ok::<i64, ScabbardStoreError>(epoch as i64),
        epoch > i64::MAX ==> narrowed is Err && narrowed->Err_0@ == StoreErrorView::Internal(
            epoch_range_message(),
        ),
{
    if epoch > i64::MAX as u64 {
        Err(
            ScabbardStoreError::internal(
                String::from_str("out of range integral type conversion attempted"),
            ),
        )
    } else {
        Ok(epoch as i64)
    }
}

/// Decides the role of a service in an epoch from what the two context
/// tables hold for it. Both rows, or none, is an error.
pub fn resolve_role(
    service_id: &FullyQualifiedServiceId,
    epoch: i64,
    coordinator: bool,
    participant: bool,
) -> (role: Result<Context, ScabbardStoreError>)
    ensures
        match role {
            Ok(found) => role_of(coordinator, participant) == Some(found),
            Err(err) => {
                &&& coordinator == participant
                &&& coordinator ==> err@ == StoreErrorView::InvalidState(
                    both_contexts_message(service_id@, epoch as int),
                )
                &&& !coordinator ==> err@ == StoreErrorView::InvalidState(
                    missing_context_message(service_id@, epoch as int),
                )
            },
        },
{
    if coordinator {
        if participant {
            let mut message = String::from_str(
                "Failed to add consensus event, contexts found for participant and coordinator with service_id: ",
            );
            message.append(service_id.as_str());
            message.append(" epoch: ");
            let digits = signed_decimal_string(epoch);
            message.append(digits.as_str());
            return Err(ScabbardStoreError::invalid_state(message));
        }
        Ok(Context::Coordinator)
    } else if participant {
        Ok(Context::Participant)
    } else {
        let mut message = String::from_str(
            "Failed to add consensus event, a context with service_id: ",
        );
        message.append(service_id.as_str());
        message.append(" and epoch: ");
        let digits = signed_decimal_string(epoch);
        message.append(digits.as_str());
        message.append(" does not exist");
        Err(ScabbardStoreError::invalid_state(message))
    }
}

/// Checks that a service in `role` may record `event`.
pub fn check_event(role: Context, event: &Scabbard2pcEvent) -> (checked: Result<
    (),
    ScabbardStoreError,
>)
    ensures
        role_accepts(role, event@) ==> checked is Ok,
        !role_accepts(role, event@) ==> checked is Err && checked->Err_0@
            == StoreErrorView::InvalidState(rejection_message(role, event@)),
{
    match event {
        Scabbard2pcEvent::Alarm => Ok(()),
        Scabbard2pcEvent::Vote(_) => Ok(()),
        Scabbard2pcEvent::Start(_) => match role {
            Context::Coordinator => Ok(()),
            Context::Participant => {
                let mut message = String::from_str(
                    "Failed to add consensus event, invalid participant event type ",
                );
                message.append(event.event_type());
                Err(ScabbardStoreError::invalid_state(message))
            },
        },
        Scabbard2pcEvent::Deliver(_, message) => match role {
            Context::Coordinator => match message {
                Scabbard2pcMessage::DecisionRequest => Ok(()),
                Scabbard2pcMessage::VoteResponse(_) => Ok(()),
                _ => {
                    let mut text = String::from_str(
                        "Failed to add consensus deliver event, invalid coordinator message type ",
                    );
                    text.append(message.message_type());
                    Err(ScabbardStoreError::invalid_state(text))
                },
            },
            Context::Participant => match message {
                Scabbard2pcMessage::DecisionRequest => Ok(()),
                Scabbard2pcMessage::Commit => Ok(()),
                Scabbard2pcMessage::Abort => Ok(()),
                Scabbard2pcMessage::VoteRequest(_) => Ok(()),
                _ => {
                    let mut text = String::from_str(
                        "Failed to add consensus deliver event, invalid participant message type ",
                    );
                    text.append(message.message_type());
                    Err(ScabbardStoreError::invalid_state(text))
                },
            },
        },
    }
}

/// The position of the next event of a log whose last position is `last`.
pub fn next_position(last: Option<i32>) -> (position: Result<i32, ScabbardStoreError>)
    ensures
        match position {
            Ok(next) => next == position_after(position_view(last)),
            Err(err) => position_after(position_view(last)) > i32::MAX && err@
                == StoreErrorView::Internal(positions_exhausted_message()),
        },
{
    let last_position: i32 = match last {
        Some(position) => position,
        None => 0,
    };
    if last_position == i32::MAX {
        Err(
            ScabbardStoreError::internal(
                String::from_str("Failed to add consensus event, the log has no position left"),
            ),
        )
    } else {
        Ok(last_position + 1)
    }
}

/// What `Option<i32>` holds, as a mathematical integer.
pub open spec fn position_view(position: Option<i32>) -> Option<int> {
    match position {
        Some(p) => Some(p as int),
        None => None,
    }
}

/// Builds the header row of `event`: not executed yet, at `position`, under
/// the discriminator of its variant.
pub fn event_header(
    service_id: &FullyQualifiedServiceId,
    epoch: i64,
    position: i32,
    event: &Scabbard2pcEvent,
) -> (header: InsertableTwoPcConsensusEventModel)
    ensures
        header@ == header_row(service_id@, epoch as int, position as int, event@),
{
    InsertableTwoPcConsensusEventModel {
        service_id: service_id.as_str().to_owned(),
        epoch,
        executed_at: None,
        position,
        event_type: event.event_type().to_owned(),
    }
}

/// Builds the detail row that goes with the header `event_id`.
///
/// An alarm has no detail row. An event that `role` may not record has none
/// either: it is an error.
pub fn event_detail(
    role: Context,
    event_id: i64,
    service_id: &FullyQualifiedServiceId,
    epoch: i64,
    event: &Scabbard2pcEvent,
) -> (detail: Result<Option<TwoPcConsensusEventDetail>, ScabbardStoreError>)
    ensures
        match detail {
            Ok(row) => {
                &&& role_accepts(role, event@)
                &&& detail_view(row) == detail_row(
                    event_id as int,
                    service_id@,
                    epoch as int,
                    event@,
                )
            },
            Err(err) => {
                &&& !role_accepts(role, event@)
                &&& err@ == StoreErrorView::InvalidState(rejection_message(role, event@))
            },
        },
{
    match check_event(role, event) {
        Err(err) => {
            return Err(err);
        },
        Ok(_) => {},
    }
    match event {
        Scabbard2pcEvent::Alarm => Ok(None),
        Scabbard2pcEvent::Deliver(receiving_process, message) => {
            let vote_response = match message {
                Scabbard2pcMessage::VoteResponse(vote) => Some(vote_str(*vote).to_owned()),
                _ => None,
            };
            let vote_request = match message {
                Scabbard2pcMessage::VoteRequest(value) => Some(value.clone()),
                _ => None,
            };
            let deliver_event = TwoPcConsensusDeliverEventModel {
                event_id,
                service_id: service_id.as_str().to_owned(),
                epoch,
                receiver_service_id: receiving_process.as_str().to_owned(),
                message_type: message.message_type().to_owned(),
                vote_response,
                vote_request,
            };
            Ok(Some(TwoPcConsensusEventDetail::Deliver(deliver_event)))
        },
        Scabbard2pcEvent::Start(value) => {
            let start_event = TwoPcConsensusStartEventModel {
                event_id,
                service_id: service_id.as_str().to_owned(),
                epoch,
                value: value.clone(),
            };
            Ok(Some(TwoPcConsensusEventDetail::Start(start_event)))
        },
        Scabbard2pcEvent::Vote(vote) => {
            let vote_event = TwoPcConsensusVoteEventModel {
                event_id,
                service_id: service_id.as_str().to_owned(),
                epoch,
                vote: vote_str(*vote).to_owned(),
            };
            Ok(Some(TwoPcConsensusEventDetail::Vote(vote_event)))
        },
    }
}

/// What an optional detail row holds.
pub open spec fn detail_view(detail: Option<TwoPcConsensusEventDetail>) -> Option<DetailRow> {
    match detail {
        Some(row) => Some(row@),
        None => None,
    }
}

/// Decides, from what the tables hold for `(service_id, epoch)`, whether
/// `event` may be appended, and if so in which role and with which header
/// row.
///
/// `coordinator` and `participant` say whether the service has a row in the
/// respective context table for the epoch; `last_position` is the highest
/// position among its events of the epoch, if there are any.
pub fn plan_consensus_event(
    service_id: &FullyQualifiedServiceId,
    epoch: i64,
    coordinator: bool,
    participant: bool,
    last_position: Option<i32>,
    event: &ScabbardConsensusEvent,
) -> (plan: Result<(Context, InsertableTwoPcConsensusEventModel), ScabbardStoreError>)
    ensures
        match plan {
            Ok((role, header)) => {
                &&& plan_error(
                    service_id@,
                    epoch as int,
                    coordinator,
                    participant,
                    position_view(last_position),
                    event@,
                ) is None
                &&& role_of(coordinator, participant) == Some(role)
                &&& header@ == header_row(
                    service_id@,
                    epoch as int,
                    position_after(position_view(last_position)),
                    event@,
                )
            },
            Err(err) => plan_error(
                service_id@,
                epoch as int,
                coordinator,
                participant,
                position_view(last_position),
                event@,
            ) == Some(err@),
        },
{
    let ScabbardConsensusEvent::Scabbard2pcConsensusEvent(event) = event;
    let role = match resolve_role(service_id, epoch, coordinator, participant) {
        Ok(role) => role,
        Err(err) => {
            return Err(err);
        },
    };
    match check_event(role, event) {
        Err(err) => {
            return Err(err);
        },
        Ok(_) => {},
    }
    let position = match next_position(last_position) {
        Ok(position) => position,
        Err(err) => {
            return Err(err);
        },
    };
    Ok((role, event_header(service_id, epoch, position, event)))
}

} // verus!
