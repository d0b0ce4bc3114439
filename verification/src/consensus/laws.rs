//! What holds of the store whatever is asked of it.
//!
//! Each law is stated over the tables of the store and the functions that
//! the contracts of its operations use, so that it speaks of every call.

use vstd::prelude::*;
use crate::consensus::context::Context;
use crate::consensus::event::EventKind;
use crate::consensus::event::EventView;
use crate::consensus::event::event_type_text;
use crate::consensus::event::lemma_event_type_texts_distinct;
use crate::consensus::invariants::lemma_appended_wf;
use crate::consensus::invariants::lemma_detail_index;
use crate::consensus::invariants::lemma_event_index;
use crate::consensus::invariants::lemma_ids_below_next;
use crate::consensus::invariants::lemma_listed_len;
use crate::consensus::invariants::lemma_log_length_push;
use crate::consensus::invariants::lemma_marked_wf;
use crate::consensus::invariants::lemma_same_keys;
use crate::consensus::models::ContextRow;
use crate::consensus::models::DetailRow;
use crate::consensus::models::EventRow;
use crate::consensus::reader::lemma_decoded_kind;
use crate::consensus::reader::lemma_rows_round_trip;
use crate::consensus::state::EventFilter;
use crate::consensus::state::RecordView;
use crate::consensus::state::StoreView;
use crate::consensus::state::already_executed_message;
use crate::consensus::state::detail_count;
use crate::consensus::state::detail_index;
use crate::consensus::state::detail_of;
use crate::consensus::state::event_index;
use crate::consensus::state::listed;
use crate::consensus::state::log_length;
use crate::consensus::state::record_of;
use crate::consensus::writer::both_contexts_message;
use crate::consensus::writer::detail_row;
use crate::consensus::writer::missing_context_message;
use crate::consensus::writer::rejection_message;
use crate::consensus::writer::role_accepts;
use crate::error::StoreErrorView;

verus! {

/// A service that holds both roles in an epoch cannot append anything to
/// the log of that epoch: every attempt is an `InvalidState` error and
/// leaves the store as it was.
pub proof fn lemma_both_roles_reject(
    store: StoreView,
    service_id: Seq<char>,
    epoch: u64,
    event: EventView,
)
    requires
        store.wf(),
        store.has_coordinator(service_id, epoch as int),
        store.has_participant(service_id, epoch as int),
    ensures
        store.append_error(service_id, epoch as int, event) == Some(
            StoreErrorView::InvalidState(both_contexts_message(service_id, epoch as int)),
        ),
        store.after_append(service_id, epoch as int, event) == store,
{
    let row = ContextRow { service_id, epoch: epoch as int };
    let i = choose|i: int|
        0 <= i < store.coordinator_contexts.len() && store.coordinator_contexts[i] == row;
    assert(store.coordinator_contexts[i].epoch == epoch as int);
}

/// A service that holds no role in an epoch cannot append anything to the
/// log of that epoch: every attempt with an epoch that fits the persisted
/// width is an `InvalidState` error and leaves the store as it was.
pub proof fn lemma_no_role_rejects(
    store: StoreView,
    service_id: Seq<char>,
    epoch: u64,
    event: EventView,
)
    requires
        epoch <= i64::MAX,
        !store.has_coordinator(service_id, epoch as int),
        !store.has_participant(service_id, epoch as int),
    ensures
        store.append_error(service_id, epoch as int, event) == Some(
            StoreErrorView::InvalidState(missing_context_message(service_id, epoch as int)),
        ),
        store.after_append(service_id, epoch as int, event) == store,
{
}

/// The epoch of a role that the tables give fits the persisted width.
proof fn lemma_role_epoch_fits(store: StoreView, service_id: Seq<char>, epoch: int)
    requires
        store.wf(),
        store.role(service_id, epoch) is Some,
    ensures
        epoch <= i64::MAX,
{
    let row = ContextRow { service_id, epoch };
    if store.has_coordinator(service_id, epoch) {
        let i = choose|i: int|
            0 <= i < store.coordinator_contexts.len() && store.coordinator_contexts[i] == row;
        assert(store.coordinator_contexts[i].epoch == epoch);
    } else {
        let i = choose|i: int|
            0 <= i < store.participant_contexts.len() && store.participant_contexts[i] == row;
        assert(store.participant_contexts[i].epoch == epoch);
    }
}

/// An event that the role of the service may not record is never appended:
/// the attempt is an `InvalidState` error that names the role and the
/// offending variant, and leaves the store as it was.
pub proof fn lemma_illegal_event_rejected(
    store: StoreView,
    role: Context,
    service_id: Seq<char>,
    epoch: u64,
    event: EventView,
)
    requires
        store.wf(),
        store.role(service_id, epoch as int) == Some(role),
        !role_accepts(role, event),
    ensures
        store.append_error(service_id, epoch as int, event) == Some(
            StoreErrorView::InvalidState(rejection_message(role, event)),
        ),
        store.after_append(service_id, epoch as int, event) == store,
{
    lemma_role_epoch_fits(store, service_id, epoch as int);
}

/// A participant cannot record the start of a round.
pub proof fn lemma_participant_rejects_start(
    store: StoreView,
    service_id: Seq<char>,
    epoch: u64,
    value: Seq<u8>,
)
    requires
        store.wf(),
        store.role(service_id, epoch as int) == Some(Context::Participant),
    ensures
        store.append_error(service_id, epoch as int, EventView::Start(value)) matches Some(
            StoreErrorView::InvalidState(_),
        ),
        store.after_append(service_id, epoch as int, EventView::Start(value)) == store,
{
    lemma_illegal_event_rejected(
        store,
        Context::Participant,
        service_id,
        epoch,
        EventView::Start(value),
    );
}

/// A coordinator cannot record the delivery of a commit, an abort or a vote
/// request, and a participant cannot record the delivery of a vote
/// response.
pub proof fn lemma_misdirected_message_rejected(
    store: StoreView,
    role: Context,
    service_id: Seq<char>,
    epoch: u64,
    receiver: Seq<char>,
    message: crate::consensus::message::MessageView,
)
    requires
        store.wf(),
        store.role(service_id, epoch as int) == Some(role),
        match role {
            Context::Coordinator => message is Commit || message is Abort || message
                is VoteRequest,
            Context::Participant => message is VoteResponse,
        },
    ensures
        store.append_error(service_id, epoch as int, EventView::Deliver(receiver, message))
            matches Some(StoreErrorView::InvalidState(_)),
        store.after_append(service_id, epoch as int, EventView::Deliver(receiver, message))
            == store,
{
    lemma_illegal_event_rejected(
        store,
        role,
        service_id,
        epoch,
        EventView::Deliver(receiver, message),
    );
}

/// A detail row is counted once if it is found and not at all if it is not,
/// as long as no two rows point at the same event.
proof fn lemma_detail_count(details: Seq<DetailRow>, id: int)
    requires
        forall|i: int, j: int|
            0 <= i < j < details.len() ==> (#[trigger] details[i]).event_id() < (
            #[trigger] details[j]).event_id(),
    ensures
        detail_count(details, id) == if detail_index(details, id) is Some {
            1nat
        } else {
            0nat
        },
    decreases details.len(),
{
    if details.len() > 0 {
        let earlier = details.drop_last();
        assert forall|i: int, j: int| 0 <= i < j < earlier.len() implies (
        #[trigger] earlier[i]).event_id() < (#[trigger] earlier[j]).event_id() by {
            assert(earlier[i] == details[i]);
            assert(earlier[j] == details[j]);
        }
        lemma_detail_count(earlier, id);
        if details.last().event_id() == id {
            lemma_detail_index(earlier, id);
            if let Some(k) = detail_index(earlier, id) {
                assert(earlier[k] == details[k]);
                assert(details[k].event_id() < details[details.len() - 1].event_id());
            }
        }
    }
}

/// Every event has exactly the detail rows of its variant: an alarm none,
/// every other event one and only one. No detail row stands without the
/// header that it points at.
pub proof fn lemma_one_detail_row(store: StoreView, i: int)
    requires
        store.wf(),
        0 <= i < store.events.len(),
    ensures
        store.events[i].event_type == event_type_text(EventKind::Alarm) ==> detail_count(
            store.details,
            store.events[i].id,
        ) == 0,
        store.events[i].event_type != event_type_text(EventKind::Alarm) ==> detail_count(
            store.details,
            store.events[i].id,
        ) == 1,
        forall|k: int|
            0 <= k < store.details.len() ==> event_index(
                store.events,
                (#[trigger] store.details[k]).event_id(),
            ) is Some,
{
    let header = store.events[i];
    let detail = detail_of(store.details, header.id);
    lemma_detail_count(store.details, header.id);
    lemma_decoded_kind(header, detail);
    lemma_event_type_texts_distinct();
}

/// Listing a log does not depend on the detail rows of other events.
proof fn lemma_listed_frame(
    events: Seq<EventRow>,
    before: Seq<DetailRow>,
    after: Seq<DetailRow>,
    service_id: Seq<char>,
    epoch: int,
    filter: EventFilter,
)
    requires
        forall|i: int|
            0 <= i < events.len() ==> detail_of(after, (#[trigger] events[i]).id) == detail_of(
                before,
                events[i].id,
            ),
    ensures
        listed(events, after, service_id, epoch, filter) == listed(
            events,
            before,
            service_id,
            epoch,
            filter,
        ),
    decreases events.len(),
{
    if events.len() > 0 {
        let earlier = events.drop_last();
        assert forall|i: int| 0 <= i < earlier.len() implies detail_of(
            after,
            (#[trigger] earlier[i]).id,
        ) == detail_of(before, earlier[i].id) by {
            assert(earlier[i] == events[i]);
        }
        lemma_listed_frame(earlier, before, after, service_id, epoch, filter);
        assert(events.last() == events[events.len() - 1]);
    }
}

/// The record under which an appended event is listed: at the position after
/// the last one of its log, under the identifier that the store gave it, not
/// executed, and holding the event as it was appended.
pub open spec fn appended_record(
    store: StoreView,
    service_id: Seq<char>,
    epoch: int,
    event: EventView,
) -> RecordView {
    RecordView {
        event_id: store.next_event_id(),
        service_id,
        epoch,
        position: store.log_len(service_id, epoch) as int + 1,
        event_type: event_type_text(event.kind()),
        executed_at: None,
        event,
    }
}

/// An appended event is read back as it was written: the listing of its log
/// is the listing before, followed by the event at the next position. The
/// listings of the other logs are as they were.
pub proof fn lemma_append_extends_log(
    store: StoreView,
    service_id: Seq<char>,
    epoch: int,
    event: EventView,
)
    requires
        store.wf(),
        store.append_error(service_id, epoch, event) is None,
    ensures
        store.after_append(service_id, epoch, event).wf(),
        store.after_append(service_id, epoch, event).records(
            service_id,
            epoch,
            EventFilter::All,
        ) == store.records(service_id, epoch, EventFilter::All).push(
            appended_record(store, service_id, epoch, event),
        ),
        store.after_append(service_id, epoch, event).records(
            service_id,
            epoch,
            EventFilter::PendingOnly,
        ) == store.records(service_id, epoch, EventFilter::PendingOnly).push(
            appended_record(store, service_id, epoch, event),
        ),
        store.after_append(service_id, epoch, event).records(
            service_id,
            epoch,
            EventFilter::ExecutedOnly,
        ) == store.records(service_id, epoch, EventFilter::ExecutedOnly),
        forall|other_id: Seq<char>, other_epoch: int, filter: EventFilter|
            other_id != service_id || other_epoch != epoch ==> #[trigger] store.after_append(
                service_id,
                epoch,
                event,
            ).records(other_id, other_epoch, filter) == store.records(
                other_id,
                other_epoch,
                filter,
            ),
{
    let after = store.appended(service_id, epoch, event);
    lemma_appended_wf(store, service_id, epoch, event);
    let id = store.next_event_id();
    let header = store.appended_header(service_id, epoch, event);
    lemma_ids_below_next(store);
    assert(after.events.drop_last() =~= store.events);
    assert(after.events.last() == header);
    assert forall|i: int| 0 <= i < store.events.len() implies detail_of(
        after.details,
        (#[trigger] store.events[i]).id,
    ) == detail_of(store.details, store.events[i].id) by {
        if detail_row(id, service_id, epoch, event) is Some {
            assert(after.details.drop_last() =~= store.details);
            lemma_detail_index(store.details, store.events[i].id);
        }
    }
    if detail_row(id, service_id, epoch, event) is Some {
        assert(after.details.drop_last() =~= store.details);
    }
    assert(detail_of(after.details, id) == detail_row(id, service_id, epoch, event));
    lemma_rows_round_trip(id, service_id, epoch, store.log_len(service_id, epoch) as int + 1, event);
    assert(record_of(header, after.details) == appended_record(store, service_id, epoch, event));
    lemma_listed_frame(
        store.events,
        store.details,
        after.details,
        service_id,
        epoch,
        EventFilter::All,
    );
    lemma_listed_frame(
        store.events,
        store.details,
        after.details,
        service_id,
        epoch,
        EventFilter::PendingOnly,
    );
    lemma_listed_frame(
        store.events,
        store.details,
        after.details,
        service_id,
        epoch,
        EventFilter::ExecutedOnly,
    );
    assert forall|other_id: Seq<char>, other_epoch: int, filter: EventFilter|
        other_id != service_id || other_epoch != epoch implies #[trigger] after.records(
        other_id,
        other_epoch,
        filter,
    ) == store.records(other_id, other_epoch, filter) by {
        lemma_listed_frame(
            store.events,
            store.details,
            after.details,
            other_id,
            other_epoch,
            filter,
        );
    }
}

/// The positions of a listing, for the events of the first `n` headers.
proof fn lemma_prefix_positions(
    store: StoreView,
    n: int,
    service_id: Seq<char>,
    epoch: int,
    filter: EventFilter,
)
    requires
        store.wf(),
        0 <= n <= store.events.len(),
    ensures
        forall|k: int|
            0 <= k < listed(store.events.take(n), store.details, service_id, epoch, filter).len()
                ==> 1 <= (#[trigger] listed(
                store.events.take(n),
                store.details,
                service_id,
                epoch,
                filter,
            )[k]).position <= log_length(store.events.take(n), service_id, epoch),
        forall|j: int, k: int|
            0 <= j < k < listed(
                store.events.take(n),
                store.details,
                service_id,
                epoch,
                filter,
            ).len() ==> (#[trigger] listed(
                store.events.take(n),
                store.details,
                service_id,
                epoch,
                filter,
            )[j]).position < (#[trigger] listed(
                store.events.take(n),
                store.details,
                service_id,
                epoch,
                filter,
            )[k]).position,
        filter == EventFilter::All ==> forall|k: int|
            0 <= k < listed(store.events.take(n), store.details, service_id, epoch, filter).len()
                ==> (#[trigger] listed(
                store.events.take(n),
                store.details,
                service_id,
                epoch,
                filter,
            )[k]).position == k + 1,
    decreases n,
{
    if n > 0 {
        let prefix = store.events.take(n);
        let earlier = store.events.take(n - 1);
        assert(prefix.drop_last() =~= earlier);
        assert(prefix.last() == store.events[n - 1]);
        lemma_prefix_positions(store, n - 1, service_id, epoch, filter);
        lemma_listed_len(earlier, store.details, service_id, epoch, filter);
        let row = store.events[n - 1];
        assert(row.position == log_length(prefix, row.service_id, row.epoch));
    }
}

/// Within one log the positions count up from one, in commit order: the
/// k-th event of the log stands at position k. A filtered listing leaves
/// events out and keeps the order.
pub proof fn lemma_positions_count_up(
    store: StoreView,
    service_id: Seq<char>,
    epoch: int,
    filter: EventFilter,
)
    requires
        store.wf(),
    ensures
        store.records(service_id, epoch, EventFilter::All).len() == store.log_len(
            service_id,
            epoch,
        ),
        forall|k: int|
            0 <= k < store.records(service_id, epoch, EventFilter::All).len() ==> (
            #[trigger] store.records(service_id, epoch, EventFilter::All)[k]).position == k + 1,
        forall|j: int, k: int|
            0 <= j < k < store.records(service_id, epoch, filter).len() ==> (
            #[trigger] store.records(service_id, epoch, filter)[j]).position < (
            #[trigger] store.records(service_id, epoch, filter)[k]).position,
{
    let n = store.events.len() as int;
    assert(store.events.take(n) =~= store.events);
    lemma_prefix_positions(store, n, service_id, epoch, filter);
    lemma_prefix_positions(store, n, service_id, epoch, EventFilter::All);
    lemma_listed_len(store.events, store.details, service_id, epoch, EventFilter::All);
}

/// A listing holds events of the log that was asked for, and of no other:
/// every record carries the service and the epoch of the listing, and passes
/// its filter.
pub proof fn lemma_listing_is_of_one_log(
    store: StoreView,
    service_id: Seq<char>,
    epoch: int,
    filter: EventFilter,
)
    ensures
        forall|k: int|
            0 <= k < store.records(service_id, epoch, filter).len() ==> {
                &&& (#[trigger] store.records(service_id, epoch, filter)[k]).service_id
                    == service_id
                &&& store.records(service_id, epoch, filter)[k].epoch == epoch
                &&& filter == EventFilter::PendingOnly ==> store.records(
                    service_id,
                    epoch,
                    filter,
                )[k].executed_at is None
                &&& filter == EventFilter::ExecutedOnly ==> store.records(
                    service_id,
                    epoch,
                    filter,
                )[k].executed_at is Some
            },
{
    lemma_listed_keys(store.events, store.details, service_id, epoch, filter);
}

/// The records of a listing carry the service and the epoch that were asked
/// for, and pass the filter.
proof fn lemma_listed_keys(
    events: Seq<EventRow>,
    details: Seq<DetailRow>,
    service_id: Seq<char>,
    epoch: int,
    filter: EventFilter,
)
    ensures
        forall|k: int|
            0 <= k < listed(events, details, service_id, epoch, filter).len() ==> {
                &&& (#[trigger] listed(events, details, service_id, epoch, filter)[k]).service_id
                    == service_id
                &&& listed(events, details, service_id, epoch, filter)[k].epoch == epoch
                &&& filter == EventFilter::PendingOnly ==> listed(
                    events,
                    details,
                    service_id,
                    epoch,
                    filter,
                )[k].executed_at is None
                &&& filter == EventFilter::ExecutedOnly ==> listed(
                    events,
                    details,
                    service_id,
                    epoch,
                    filter,
                )[k].executed_at is Some
            },
    decreases events.len(),
{
    if events.len() > 0 {
        lemma_listed_keys(events.drop_last(), details, service_id, epoch, filter);
    }
}

/// The store after one attempt after the other to append each of `events`
/// to the log of `(service_id, epoch)`.
pub open spec fn appended_all(
    store: StoreView,
    service_id: Seq<char>,
    epoch: int,
    events: Seq<EventView>,
) -> StoreView
    decreases events.len(),
{
    if events.len() == 0 {
        store
    } else {
        appended_all(store, service_id, epoch, events.drop_last()).after_append(
            service_id,
            epoch,
            events.last(),
        )
    }
}

/// Whether every one of these attempts succeeds: whether each of `events`
/// can be appended to the log of `(service_id, epoch)` once those before it
/// have been.
pub open spec fn all_appendable(
    store: StoreView,
    service_id: Seq<char>,
    epoch: int,
    events: Seq<EventView>,
) -> bool
    decreases events.len(),
{
    events.len() == 0 || {
        &&& all_appendable(store, service_id, epoch, events.drop_last())
        &&& appended_all(store, service_id, epoch, events.drop_last()).append_error(
            service_id,
            epoch,
            events.last(),
        ) is None
    }
}

/// The events of a listing, without the columns of their headers.
pub open spec fn events_of(records: Seq<RecordView>) -> Seq<EventView> {
    records.map_values(|record: RecordView| record.event)
}

/// After a sequence of successful appends to one log, reading the log back
/// gives what the log held before, followed by the appended events in the
/// order in which they were appended, at the positions that follow the last
/// one.
pub proof fn lemma_log_round_trip(
    store: StoreView,
    service_id: Seq<char>,
    epoch: int,
    events: Seq<EventView>,
)
    requires
        store.wf(),
        all_appendable(store, service_id, epoch, events),
    ensures
        appended_all(store, service_id, epoch, events).wf(),
        appended_all(store, service_id, epoch, events).log_len(service_id, epoch)
            == store.log_len(service_id, epoch) + events.len(),
        events_of(
            appended_all(store, service_id, epoch, events).records(
                service_id,
                epoch,
                EventFilter::All,
            ),
        ) == events_of(store.records(service_id, epoch, EventFilter::All)) + events,
        forall|k: int|
            0 <= k < events.len() ==> (#[trigger] appended_all(
                store,
                service_id,
                epoch,
                events,
            ).records(service_id, epoch, EventFilter::All)[store.log_len(service_id, epoch) + k])
                == (RecordView {
                event_id: store.next_event_id() + k,
                service_id,
                epoch,
                position: store.log_len(service_id, epoch) + k + 1,
                event_type: event_type_text(events[k].kind()),
                executed_at: None,
                event: events[k],
            }),
    decreases events.len(),
{
    let before = store.records(service_id, epoch, EventFilter::All);
    lemma_listed_len(store.events, store.details, service_id, epoch, EventFilter::All);
    if events.len() == 0 {
        assert(events_of(before) + events =~= events_of(before));
    } else {
        let earlier = events.drop_last();
        let middle = appended_all(store, service_id, epoch, earlier);
        let after = appended_all(store, service_id, epoch, events);
        lemma_log_round_trip(store, service_id, epoch, earlier);
        lemma_append_extends_log(middle, service_id, epoch, events.last());
        lemma_log_length_push(
            middle.events,
            middle.appended_header(service_id, epoch, events.last()),
            service_id,
            epoch,
        );
        lemma_next_id_after(store, service_id, epoch, earlier);
        let listing = middle.records(service_id, epoch, EventFilter::All);
        lemma_listed_len(middle.events, middle.details, service_id, epoch, EventFilter::All);
        let record = appended_record(middle, service_id, epoch, events.last());
        assert(after.records(service_id, epoch, EventFilter::All) == listing.push(record));
        assert(events_of(listing.push(record)) =~= events_of(listing).push(events.last()));
        assert(events_of(before) + events =~= (events_of(before) + earlier).push(events.last()));
        assert forall|k: int| 0 <= k < events.len() implies (#[trigger] after.records(
            service_id,
            epoch,
            EventFilter::All,
        )[store.log_len(service_id, epoch) + k]) == (RecordView {
            event_id: store.next_event_id() + k,
            service_id,
            epoch,
            position: store.log_len(service_id, epoch) + k + 1,
            event_type: event_type_text(events[k].kind()),
            executed_at: None,
            event: events[k],
        }) by {
            if k < earlier.len() {
                assert(earlier[k] == events[k]);
                assert(listing.push(record)[store.log_len(service_id, epoch) + k]
                    == listing[store.log_len(service_id, epoch) + k]);
            }
        }
    }
}

/// After a run of successful appends the next identifier has advanced by
/// their number.
proof fn lemma_next_id_after(
    store: StoreView,
    service_id: Seq<char>,
    epoch: int,
    events: Seq<EventView>,
)
    requires
        all_appendable(store, service_id, epoch, events),
    ensures
        appended_all(store, service_id, epoch, events).next_event_id() == store.next_event_id()
            + events.len(),
    decreases events.len(),
{
    if events.len() > 0 {
        lemma_next_id_after(store, service_id, epoch, events.drop_last());
    }
}

/// Whether `merged` takes the events of `first` and of `second`, each in its
/// own order, in some interleaving.
pub open spec fn is_interleaving(
    merged: Seq<EventView>,
    first: Seq<EventView>,
    second: Seq<EventView>,
) -> bool
    decreases merged.len(),
{
    if merged.len() == 0 {
        first.len() == 0 && second.len() == 0
    } else {
        ||| first.len() > 0 && first.last() == merged.last() && is_interleaving(
            merged.drop_last(),
            first.drop_last(),
            second,
        )
        ||| second.len() > 0 && second.last() == merged.last() && is_interleaving(
            merged.drop_last(),
            first,
            second.drop_last(),
        )
    }
}

/// An interleaving is as long as its two parts together.
pub proof fn lemma_interleaving_len(
    merged: Seq<EventView>,
    first: Seq<EventView>,
    second: Seq<EventView>,
)
    requires
        is_interleaving(merged, first, second),
    ensures
        merged.len() == first.len() + second.len(),
    decreases merged.len(),
{
    if merged.len() > 0 {
        if first.len() > 0 && first.last() == merged.last() && is_interleaving(
            merged.drop_last(),
            first.drop_last(),
            second,
        ) {
            lemma_interleaving_len(merged.drop_last(), first.drop_last(), second);
        } else {
            lemma_interleaving_len(merged.drop_last(), first, second.drop_last());
        }
    }
}

/// Two writers that append to the same empty log, in whatever order their
/// appends are serialised, leave a log that holds all their events at the
/// positions one to the number of events, each position once, as long as
/// every append succeeds.
pub proof fn lemma_interleaved_writers(
    store: StoreView,
    service_id: Seq<char>,
    epoch: int,
    first: Seq<EventView>,
    second: Seq<EventView>,
    merged: Seq<EventView>,
)
    requires
        store.wf(),
        store.log_len(service_id, epoch) == 0,
        is_interleaving(merged, first, second),
        all_appendable(store, service_id, epoch, merged),
    ensures
        appended_all(store, service_id, epoch, merged).records(
            service_id,
            epoch,
            EventFilter::All,
        ).len() == first.len() + second.len(),
        forall|k: int|
            0 <= k < first.len() + second.len() ==> (#[trigger] appended_all(
                store,
                service_id,
                epoch,
                merged,
            ).records(service_id, epoch, EventFilter::All)[k]).position == k + 1,
        events_of(
            appended_all(store, service_id, epoch, merged).records(
                service_id,
                epoch,
                EventFilter::All,
            ),
        ) == merged,
{
    let after = appended_all(store, service_id, epoch, merged);
    lemma_interleaving_len(merged, first, second);
    lemma_log_round_trip(store, service_id, epoch, merged);
    lemma_positions_count_up(after, service_id, epoch, EventFilter::All);
    lemma_listed_len(store.events, store.details, service_id, epoch, EventFilter::All);
    assert(store.records(service_id, epoch, EventFilter::All) =~= Seq::empty());
    assert(events_of(Seq::<RecordView>::empty()) =~= Seq::empty());
    assert(Seq::<EventView>::empty() + merged =~= merged);
}

/// An event is marked as executed once: after it has been marked, marking
/// it again is an `InvalidState` error.
pub proof fn lemma_marked_once(store: StoreView, event_id: int, at: int)
    requires
        store.wf(),
        store.mark_error(event_id) is None,
    ensures
        store.marked(event_id, at).mark_error(event_id) == Some(
            StoreErrorView::InvalidState(already_executed_message(event_id)),
        ),
{
    let after = store.marked(event_id, at);
    lemma_event_index(store.events, event_id);
    lemma_same_keys(after.events, store.events, event_id, seq![], 0);
}

/// Two tables of headers that differ in nothing but the marks of execution
/// list the same events at the same positions.
proof fn lemma_listed_but_marks(
    before: Seq<EventRow>,
    after: Seq<EventRow>,
    details: Seq<DetailRow>,
    service_id: Seq<char>,
    epoch: int,
)
    requires
        before.len() == after.len(),
        forall|i: int|
            0 <= i < before.len() ==> (#[trigger] after[i]) == (EventRow {
                executed_at: after[i].executed_at,
                ..before[i]
            }),
    ensures
        listed(after, details, service_id, epoch, EventFilter::All).len() == listed(
            before,
            details,
            service_id,
            epoch,
            EventFilter::All,
        ).len(),
        forall|k: int|
            0 <= k < listed(before, details, service_id, epoch, EventFilter::All).len() ==> (
            #[trigger] listed(after, details, service_id, epoch, EventFilter::All)[k])
                == (RecordView {
                executed_at: listed(
                    after,
                    details,
                    service_id,
                    epoch,
                    EventFilter::All,
                )[k].executed_at,
                ..listed(before, details, service_id, epoch, EventFilter::All)[k]
            }),
    decreases before.len(),
{
    if before.len() > 0 {
        let n = before.len() - 1;
        assert forall|i: int| 0 <= i < n implies (#[trigger] after.drop_last()[i]) == (EventRow {
            executed_at: after.drop_last()[i].executed_at,
            ..before.drop_last()[i]
        }) by {
            assert(after.drop_last()[i] == after[i]);
            assert(before.drop_last()[i] == before[i]);
        }
        lemma_listed_but_marks(before.drop_last(), after.drop_last(), details, service_id, epoch);
        assert(after.last() == after[n]);
        assert(before.last() == before[n]);
    }
}

/// Marking an event as executed changes nothing but the mark: every log
/// lists the same events at the same positions under the same identifiers,
/// and the marked event carries the time at which it was marked.
pub proof fn lemma_mark_keeps_events(
    store: StoreView,
    event_id: int,
    at: int,
    service_id: Seq<char>,
    epoch: int,
)
    requires
        store.wf(),
        store.mark_error(event_id) is None,
    ensures
        store.marked(event_id, at).wf(),
        store.marked(event_id, at).records(service_id, epoch, EventFilter::All).len()
            == store.records(service_id, epoch, EventFilter::All).len(),
        forall|k: int|
            0 <= k < store.records(service_id, epoch, EventFilter::All).len() ==> (
            #[trigger] store.marked(event_id, at).records(service_id, epoch, EventFilter::All)[k])
                == (RecordView {
                executed_at: if store.records(service_id, epoch, EventFilter::All)[k].event_id
                    == event_id {
                    Some(at)
                } else {
                    store.records(service_id, epoch, EventFilter::All)[k].executed_at
                },
                ..store.records(service_id, epoch, EventFilter::All)[k]
            }),
        events_of(store.marked(event_id, at).records(service_id, epoch, EventFilter::All))
            == events_of(store.records(service_id, epoch, EventFilter::All)),
{
    let after = store.marked(event_id, at);
    lemma_marked_wf(store, event_id, at);
    lemma_event_index(store.events, event_id);
    let m = event_index(store.events, event_id).unwrap();
    lemma_listed_but_marks(store.events, after.events, store.details, service_id, epoch);
    lemma_listed_marks(store.events, after.events, store.details, service_id, epoch, event_id, at);
    let old_listing = store.records(service_id, epoch, EventFilter::All);
    let new_listing = after.records(service_id, epoch, EventFilter::All);
    assert(events_of(new_listing) =~= events_of(old_listing));
}

/// Where the marks of a listing come from: from the headers, which differ
/// only at the event that was marked.
proof fn lemma_listed_marks(
    before: Seq<EventRow>,
    after: Seq<EventRow>,
    details: Seq<DetailRow>,
    service_id: Seq<char>,
    epoch: int,
    event_id: int,
    at: int,
)
    requires
        before.len() == after.len(),
        forall|i: int|
            0 <= i < before.len() ==> (#[trigger] after[i]) == (EventRow {
                executed_at: if before[i].id == event_id {
                    Some(at)
                } else {
                    before[i].executed_at
                },
                ..before[i]
            }),
    ensures
        listed(after, details, service_id, epoch, EventFilter::All).len() == listed(
            before,
            details,
            service_id,
            epoch,
            EventFilter::All,
        ).len(),
        forall|k: int|
            0 <= k < listed(before, details, service_id, epoch, EventFilter::All).len() ==> (
            #[trigger] listed(after, details, service_id, epoch, EventFilter::All)[k]).executed_at
                == if listed(before, details, service_id, epoch, EventFilter::All)[k].event_id
                == event_id {
                Some(at)
            } else {
                listed(before, details, service_id, epoch, EventFilter::All)[k].executed_at
            },
    decreases before.len(),
{
    if before.len() > 0 {
        let n = before.len() - 1;
        assert forall|i: int| 0 <= i < n implies (#[trigger] after.drop_last()[i]) == (EventRow {
            executed_at: if before.drop_last()[i].id == event_id {
                Some(at)
            } else {
                before.drop_last()[i].executed_at
            },
            ..before.drop_last()[i]
        }) by {
            assert(after.drop_last()[i] == after[i]);
            assert(before.drop_last()[i] == before[i]);
        }
        lemma_listed_marks(
            before.drop_last(),
            after.drop_last(),
            details,
            service_id,
            epoch,
            event_id,
            at,
        );
        assert(after.last() == after[n]);
        assert(before.last() == before[n]);
    }
}

/// Binding a role with `put_context` never gives a service both roles: a
/// store in which no service holds both roles stays so, and the service
/// holds the role that was bound.
pub proof fn lemma_put_keeps_roles_apart(
    store: StoreView,
    role: Context,
    service_id: Seq<char>,
    epoch: int,
)
    requires
        store.role_exclusive(),
        store.put_error(role, service_id, epoch) is None,
    ensures
        store.bound(role, service_id, epoch).role_exclusive(),
        store.bound(role, service_id, epoch).role(service_id, epoch) == Some(role),
{
    let after = store.bound(role, service_id, epoch);
    let row = ContextRow { service_id, epoch };
    assert(store.has_coordinator(service_id, epoch) ==> !store.has_participant(service_id, epoch));
    if !store.has_context(role, service_id, epoch) {
        match role {
            Context::Coordinator => {
                let n = store.coordinator_contexts.len() as int;
                assert(after.coordinator_contexts[n] == row);
                assert forall|other_id: Seq<char>, other_epoch: int|
                    !(#[trigger] after.has_coordinator(other_id, other_epoch)
                        && #[trigger] after.has_participant(other_id, other_epoch)) by {
                    let other = ContextRow { service_id: other_id, epoch: other_epoch };
                    if after.has_coordinator(other_id, other_epoch) && other != row {
                        let i = choose|i: int|
                            0 <= i < after.coordinator_contexts.len()
                                && after.coordinator_contexts[i] == other;
                        assert(store.coordinator_contexts[i] == other);
                        assert(store.has_coordinator(other_id, other_epoch));
                        assert(!store.has_participant(other_id, other_epoch));
                    }
                }
            },
            Context::Participant => {
                let n = store.participant_contexts.len() as int;
                assert(after.participant_contexts[n] == row);
                assert forall|other_id: Seq<char>, other_epoch: int|
                    !(#[trigger] after.has_coordinator(other_id, other_epoch)
                        && #[trigger] after.has_participant(other_id, other_epoch)) by {
                    let other = ContextRow { service_id: other_id, epoch: other_epoch };
                    if after.has_participant(other_id, other_epoch) && other != row {
                        let i = choose|i: int|
                            0 <= i < after.participant_contexts.len()
                                && after.participant_contexts[i] == other;
                        assert(store.participant_contexts[i] == other);
                        assert(store.has_participant(other_id, other_epoch));
                        assert(!store.has_coordinator(other_id, other_epoch));
                    }
                }
            },
        }
    }
}

} // verus!
