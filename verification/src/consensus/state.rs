//! What the store holds, as contracts see it, and the rules that it keeps.
//!
//! The state is the four tables: the two context tables, the header rows of
//! the events in the order in which they were committed, and their detail
//! rows. Everything that the store's operations promise is said over these.

use vstd::prelude::*;
use crate::consensus::context::Context;
use crate::consensus::context::role_of;
use crate::consensus::event::EventView;
use crate::consensus::models::ContextRow;
use crate::consensus::models::DetailRow;
use crate::consensus::models::EventRow;
use crate::consensus::reader::decode_event;
use crate::consensus::writer::detail_row;
use crate::consensus::writer::epoch_range_message;
use crate::consensus::writer::header_row;
use crate::consensus::writer::plan_error;
use crate::error::StoreErrorView;
use crate::text::signed_decimal;

verus! {

/// Which events a listing keeps.
#[derive(Debug, Clone, Copy, PartialEq, Eq, Structural)]
pub enum EventFilter {
    /// Every event.
    All,
    /// The events that the state machine has not consumed yet.
    PendingOnly,
    /// The events that the state machine has consumed.
    ExecutedOnly,
}

/// Whether a listing under `filter` keeps an event with this header.
pub open spec fn filter_keeps(filter: EventFilter, row: EventRow) -> bool {
    match filter {
        EventFilter::All => true,
        EventFilter::PendingOnly => row.executed_at is None,
        EventFilter::ExecutedOnly => row.executed_at is Some,
    }
}

/// An event as a listing yields it: the columns of its header row and the
/// event that its rows describe.
pub struct RecordView {
    pub event_id: int,
    pub service_id: Seq<char>,
    pub epoch: int,
    pub position: int,
    pub event_type: Seq<char>,
    pub executed_at: Option<int>,
    pub event: EventView,
}

/// How many of `events` belong to the log of `(service_id, epoch)`.
pub open spec fn log_length(events: Seq<EventRow>, service_id: Seq<char>, epoch: int) -> nat
    decreases events.len(),
{
    if events.len() == 0 {
        0
    } else {
        log_length(events.drop_last(), service_id, epoch) + if events.last().in_log(
            service_id,
            epoch,
        ) {
            1nat
        } else {
            0nat
        }
    }
}

/// Where in `events` the header with identifier `id` stands, if it is there.
pub open spec fn event_index(events: Seq<EventRow>, id: int) -> Option<int>
    decreases events.len(),
{
    if events.len() == 0 {
        None
    } else if events.last().id == id {
        Some(events.len() - 1)
    } else {
        event_index(events.drop_last(), id)
    }
}

/// Where in `details` the detail row of the event `id` stands, if it has
/// one.
pub open spec fn detail_index(details: Seq<DetailRow>, id: int) -> Option<int>
    decreases details.len(),
{
    if details.len() == 0 {
        None
    } else if details.last().event_id() == id {
        Some(details.len() - 1)
    } else {
        detail_index(details.drop_last(), id)
    }
}

/// The detail row joined to the event `id`, if it has one.
pub open spec fn detail_of(details: Seq<DetailRow>, id: int) -> Option<DetailRow> {
    match detail_index(details, id) {
        Some(k) => Some(details[k]),
        None => None,
    }
}

/// How many of `details` point at the event `id`.
pub open spec fn detail_count(details: Seq<DetailRow>, id: int) -> nat
    decreases details.len(),
{
    if details.len() == 0 {
        0
    } else {
        detail_count(details.drop_last(), id) + if details.last().event_id() == id {
            1nat
        } else {
            0nat
        }
    }
}

/// The record of the event with header `row`, joined with `details`.
pub open spec fn record_of(row: EventRow, details: Seq<DetailRow>) -> RecordView {
    RecordView {
        event_id: row.id,
        service_id: row.service_id,
        epoch: row.epoch,
        position: row.position,
        event_type: row.event_type,
        executed_at: row.executed_at,
        event: decode_event(row, detail_of(details, row.id)).unwrap(),
    }
}

/// The records of those of `events` that belong to the log of
/// `(service_id, epoch)` and pass `filter`, in the order of `events`.
pub open spec fn listed(
    events: Seq<EventRow>,
    details: Seq<DetailRow>,
    service_id: Seq<char>,
    epoch: int,
    filter: EventFilter,
) -> Seq<RecordView>
    decreases events.len(),
{
    if events.len() == 0 {
        Seq::empty()
    } else {
        let earlier = listed(events.drop_last(), details, service_id, epoch, filter);
        if events.last().in_log(service_id, epoch) && filter_keeps(filter, events.last()) {
            earlier.push(record_of(events.last(), details))
        } else {
            earlier
        }
    }
}

/// The message of the error for a store that has no event identifier left.
pub open spec fn identifiers_exhausted_message() -> Seq<char> {
    "Failed to add consensus event, the store has no event identifier left"@
}

/// The message of the error for binding a role to a service that holds the
/// other role in the epoch.
pub open spec fn opposite_context_message(service_id: Seq<char>, epoch: int) -> Seq<char> {
    "Failed to add consensus context, a context in the opposite role exists for service_id: "@
        + service_id + " epoch: "@ + signed_decimal(epoch)
}

/// The message of the error for reading the role of a service that holds
/// both roles in the epoch.
pub open spec fn ambiguous_context_message(service_id: Seq<char>, epoch: int) -> Seq<char> {
    "Failed to get consensus context, contexts found for participant and coordinator with service_id: "@
        + service_id + " epoch: "@ + signed_decimal(epoch)
}

/// The message of the error for marking an event that the store does not
/// hold.
pub open spec fn unknown_event_message(event_id: int) -> Seq<char> {
    "Failed to update consensus event, no event with id: "@ + signed_decimal(event_id)
}

/// The message of the error for marking an event a second time.
pub open spec fn already_executed_message(event_id: int) -> Seq<char> {
    "Failed to update consensus event, already executed event with id: "@ + signed_decimal(
        event_id,
    )
}

/// Whether an epoch fits the width in which it is persisted.
pub open spec fn epoch_fits(epoch: int) -> bool {
    i64::MIN <= epoch <= i64::MAX
}

/// The tables of the store.
pub struct StoreView {
    /// The services that drive a round, by epoch.
    pub coordinator_contexts: Seq<ContextRow>,
    /// The services that answer to a coordinator, by epoch.
    pub participant_contexts: Seq<ContextRow>,
    /// The header rows, in commit order.
    pub events: Seq<EventRow>,
    /// The detail rows, in commit order.
    pub details: Seq<DetailRow>,
}

impl StoreView {
    /// The store that holds nothing.
    pub open spec fn empty() -> StoreView {
        StoreView {
            coordinator_contexts: Seq::empty(),
            participant_contexts: Seq::empty(),
            events: Seq::empty(),
            details: Seq::empty(),
        }
    }

    /// Whether the coordinator table has a row for `(service_id, epoch)`.
    pub open spec fn has_coordinator(self, service_id: Seq<char>, epoch: int) -> bool {
        self.coordinator_contexts.contains(ContextRow { service_id, epoch })
    }

    /// Whether the participant table has a row for `(service_id, epoch)`.
    pub open spec fn has_participant(self, service_id: Seq<char>, epoch: int) -> bool {
        self.participant_contexts.contains(ContextRow { service_id, epoch })
    }

    /// Whether the table of `role` has a row for `(service_id, epoch)`.
    pub open spec fn has_context(self, role: Context, service_id: Seq<char>, epoch: int) -> bool {
        match role {
            Context::Coordinator => self.has_coordinator(service_id, epoch),
            Context::Participant => self.has_participant(service_id, epoch),
        }
    }

    /// The role of the service in the epoch, if the tables give it exactly
    /// one.
    pub open spec fn role(self, service_id: Seq<char>, epoch: int) -> Option<Context> {
        role_of(self.has_coordinator(service_id, epoch), self.has_participant(service_id, epoch))
    }

    /// How many events the log of `(service_id, epoch)` holds.
    pub open spec fn log_len(self, service_id: Seq<char>, epoch: int) -> nat {
        log_length(self.events, service_id, epoch)
    }

    /// The position of the last event of the log of `(service_id, epoch)`.
    pub open spec fn last_position(self, service_id: Seq<char>, epoch: int) -> Option<int> {
        if self.log_len(service_id, epoch) == 0 {
            None
        } else {
            Some(self.log_len(service_id, epoch) as int)
        }
    }

    /// The identifier that the next event gets.
    pub open spec fn next_event_id(self) -> int {
        if self.events.len() == 0 {
            1
        } else {
            self.events.last().id + 1
        }
    }

    /// The records of the log of `(service_id, epoch)` that pass `filter`,
    /// in commit order.
    pub open spec fn records(
        self,
        service_id: Seq<char>,
        epoch: int,
        filter: EventFilter,
    ) -> Seq<RecordView> {
        listed(self.events, self.details, service_id, epoch, filter)
    }

    /// The rules that the event tables keep at all times.
    ///
    /// Identifiers grow with every event. Within one log the positions count
    /// up from one in commit order. Every header row, joined with the detail
    /// row that points at it, describes an event; no two detail rows point at
    /// the same header, and none points at a header that is not there.
    ///
    /// The epoch of a context row fits the width in which it is persisted.
    ///
    /// That a service holds one role only is no rule of the tables: the
    /// operations check it each time they read a role.
    pub open spec fn wf(self) -> bool {
        &&& forall|i: int|
            0 <= i < self.coordinator_contexts.len() ==> epoch_fits(
                (#[trigger] self.coordinator_contexts[i]).epoch,
            )
        &&& forall|i: int|
            0 <= i < self.participant_contexts.len() ==> epoch_fits(
                (#[trigger] self.participant_contexts[i]).epoch,
            )
        &&& forall|i: int| 0 <= i < self.events.len() ==> 1 <= (#[trigger] self.events[i]).id
        &&& forall|i: int, j: int|
            0 <= i < j < self.events.len() ==> (#[trigger] self.events[i]).id < (
            #[trigger] self.events[j]).id
        &&& forall|i: int|
            0 <= i < self.events.len() ==> (#[trigger] self.events[i]).position == log_length(
                self.events.take(i + 1),
                self.events[i].service_id,
                self.events[i].epoch,
            )
        &&& forall|i: int|
            0 <= i < self.events.len() ==> decode_event(
                #[trigger] self.events[i],
                detail_of(self.details, self.events[i].id),
            ) is Some
        &&& forall|i: int, j: int|
            0 <= i < j < self.details.len() ==> (#[trigger] self.details[i]).event_id() < (
            #[trigger] self.details[j]).event_id()
        &&& forall|k: int|
            0 <= k < self.details.len() ==> event_index(
                self.events,
                (#[trigger] self.details[k]).event_id(),
            ) is Some
    }

    /// Why `event` cannot be appended to the log of `(service_id, epoch)`:
    /// the error of the first rule that is broken, or `None` if the event can
    /// be appended.
    ///
    /// The epoch is checked first, then the role, then whether the role may
    /// record the event, then whether a position and an identifier are left.
    pub open spec fn append_error(
        self,
        service_id: Seq<char>,
        epoch: int,
        event: EventView,
    ) -> Option<StoreErrorView> {
        if epoch > i64::MAX {
            Some(StoreErrorView::Internal(epoch_range_message()))
        } else {
            match plan_error(
                service_id,
                epoch,
                self.has_coordinator(service_id, epoch),
                self.has_participant(service_id, epoch),
                self.last_position(service_id, epoch),
                event,
            ) {
                Some(err) => Some(err),
                None => if self.next_event_id() > i64::MAX {
                    Some(StoreErrorView::Internal(identifiers_exhausted_message()))
                } else {
                    None
                },
            }
        }
    }

    /// The header row under which `event` is appended to the log of
    /// `(service_id, epoch)`.
    pub open spec fn appended_header(
        self,
        service_id: Seq<char>,
        epoch: int,
        event: EventView,
    ) -> EventRow {
        header_row(service_id, epoch, self.log_len(service_id, epoch) as int + 1, event).with_id(
            self.next_event_id(),
        )
    }

    /// The store after `event` was appended to the log of
    /// `(service_id, epoch)`: one more header row, and one more detail row
    /// unless the event is an alarm.
    pub open spec fn appended(self, service_id: Seq<char>, epoch: int, event: EventView) -> StoreView {
        StoreView {
            events: self.events.push(self.appended_header(service_id, epoch, event)),
            details: match detail_row(self.next_event_id(), service_id, epoch, event) {
                Some(detail) => self.details.push(detail),
                None => self.details,
            },
            ..self
        }
    }

    /// The store after an attempt to append `event` to the log of
    /// `(service_id, epoch)`: with the event if it can be appended, and as it
    /// was if not.
    pub open spec fn after_append(
        self,
        service_id: Seq<char>,
        epoch: int,
        event: EventView,
    ) -> StoreView {
        if self.append_error(service_id, epoch, event) is None {
            self.appended(service_id, epoch, event)
        } else {
            self
        }
    }

    /// The store after one more row was written to the table of `role`.
    pub open spec fn with_context(self, role: Context, service_id: Seq<char>, epoch: int) -> StoreView {
        match role {
            Context::Coordinator => StoreView {
                coordinator_contexts: self.coordinator_contexts.push(
                    ContextRow { service_id, epoch },
                ),
                ..self
            },
            Context::Participant => StoreView {
                participant_contexts: self.participant_contexts.push(
                    ContextRow { service_id, epoch },
                ),
                ..self
            },
        }
    }

    /// Why `role` cannot be bound to `(service_id, epoch)`, or `None` if it
    /// can.
    pub open spec fn put_error(
        self,
        role: Context,
        service_id: Seq<char>,
        epoch: int,
    ) -> Option<StoreErrorView> {
        if epoch > i64::MAX {
            Some(StoreErrorView::Internal(epoch_range_message()))
        } else if self.has_context(role.spec_opposite(), service_id, epoch) {
            Some(StoreErrorView::InvalidState(opposite_context_message(service_id, epoch)))
        } else {
            None
        }
    }

    /// The store after `role` was bound to `(service_id, epoch)`: one more
    /// row in the table of the role, unless the binding was there already.
    pub open spec fn bound(self, role: Context, service_id: Seq<char>, epoch: int) -> StoreView {
        if self.has_context(role, service_id, epoch) {
            self
        } else {
            self.with_context(role, service_id, epoch)
        }
    }

    /// Why the role of `(service_id, epoch)` cannot be read, or `None` if it
    /// can.
    pub open spec fn context_error(self, service_id: Seq<char>, epoch: int) -> Option<
        StoreErrorView,
    > {
        if epoch > i64::MAX {
            Some(StoreErrorView::Internal(epoch_range_message()))
        } else if self.has_coordinator(service_id, epoch) && self.has_participant(
            service_id,
            epoch,
        ) {
            Some(StoreErrorView::InvalidState(ambiguous_context_message(service_id, epoch)))
        } else {
            None
        }
    }

    /// Whether no service holds both roles in any epoch.
    pub open spec fn role_exclusive(self) -> bool {
        forall|service_id: Seq<char>, epoch: int|
            !(#[trigger] self.has_coordinator(service_id, epoch) && #[trigger] self.has_participant(
                service_id,
                epoch,
            ))
    }

    /// Why the event `event_id` cannot be marked as executed, or `None` if
    /// it can.
    pub open spec fn mark_error(self, event_id: int) -> Option<StoreErrorView> {
        match event_index(self.events, event_id) {
            None => Some(StoreErrorView::InvalidState(unknown_event_message(event_id))),
            Some(i) => if self.events[i].executed_at is Some {
                Some(StoreErrorView::InvalidState(already_executed_message(event_id)))
            } else {
                None
            },
        }
    }

    /// The store after the event `event_id` was marked as executed at `at`.
    pub open spec fn marked(self, event_id: int, at: int) -> StoreView {
        match event_index(self.events, event_id) {
            None => self,
            Some(i) => StoreView {
                events: self.events.update(i, self.events[i].executed(at)),
                ..self
            },
        }
    }
}

} // verus!
