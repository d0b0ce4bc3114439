//! Why the rules of the tables survive every operation.

use vstd::prelude::*;
use crate::consensus::event::EventView;
use crate::consensus::models::DetailRow;
use crate::consensus::models::EventRow;
use crate::consensus::reader::decode_event;
use crate::consensus::reader::lemma_decode_ignores_execution;
use crate::consensus::reader::lemma_rows_round_trip;
use crate::consensus::state::EventFilter;
use crate::consensus::state::StoreView;
use crate::consensus::state::detail_index;
use crate::consensus::state::detail_of;
use crate::consensus::state::epoch_fits;
use crate::consensus::state::event_index;
use crate::consensus::state::listed;
use crate::consensus::state::log_length;
use crate::consensus::writer::detail_row;

verus! {

/// What `event_index` finds is a header with the identifier asked for; what
/// it does not find is not there.
pub proof fn lemma_event_index(events: Seq<EventRow>, id: int)
    ensures
        match event_index(events, id) {
            Some(k) => 0 <= k < events.len() && events[k].id == id,
            None => forall|k: int| 0 <= k < events.len() ==> (#[trigger] events[k]).id != id,
        },
    decreases events.len(),
{
    if events.len() > 0 && events.last().id != id {
        lemma_event_index(events.drop_last(), id);
        assert forall|k: int| 0 <= k < events.len() && event_index(events, id) is None implies (
        #[trigger] events[k]).id != id by {
            if k < events.len() - 1 {
                assert(events.drop_last()[k] == events[k]);
            }
        }
    }
}

/// What `detail_index` finds is a detail row of the event asked for; what it
/// does not find is not there.
pub proof fn lemma_detail_index(details: Seq<DetailRow>, id: int)
    ensures
        match detail_index(details, id) {
            Some(k) => 0 <= k < details.len() && details[k].event_id() == id,
            None => forall|k: int|
                0 <= k < details.len() ==> (#[trigger] details[k]).event_id() != id,
        },
    decreases details.len(),
{
    if details.len() > 0 && details.last().event_id() != id {
        lemma_detail_index(details.drop_last(), id);
        assert forall|k: int|
            0 <= k < details.len() && detail_index(details, id) is None implies (
        #[trigger] details[k]).event_id() != id by {
            if k < details.len() - 1 {
                assert(details.drop_last()[k] == details[k]);
            }
        }
    }
}

/// One more header makes the log that it belongs to one longer, and no
/// other.
pub proof fn lemma_log_length_push(
    events: Seq<EventRow>,
    row: EventRow,
    service_id: Seq<char>,
    epoch: int,
)
    ensures
        log_length(events.push(row), service_id, epoch) == log_length(events, service_id, epoch)
            + if row.in_log(service_id, epoch) {
            1nat
        } else {
            0nat
        },
{
    assert(events.push(row).drop_last() =~= events);
}

/// A listing is no longer than the log that it lists, and as long if nothing
/// is filtered out.
pub proof fn lemma_listed_len(
    events: Seq<EventRow>,
    details: Seq<DetailRow>,
    service_id: Seq<char>,
    epoch: int,
    filter: EventFilter,
)
    ensures
        listed(events, details, service_id, epoch, filter).len() <= log_length(
            events,
            service_id,
            epoch,
        ),
        filter == EventFilter::All ==> listed(events, details, service_id, epoch, filter).len()
            == log_length(events, service_id, epoch),
    decreases events.len(),
{
    if events.len() > 0 {
        lemma_listed_len(events.drop_last(), details, service_id, epoch, filter);
    }
}

/// Every identifier in the tables is below the one that the next event gets.
pub proof fn lemma_ids_below_next(store: StoreView)
    requires
        store.wf(),
    ensures
        1 <= store.next_event_id(),
        forall|i: int|
            0 <= i < store.events.len() ==> (#[trigger] store.events[i]).id
                < store.next_event_id(),
        forall|k: int|
            0 <= k < store.details.len() ==> (#[trigger] store.details[k]).event_id()
                < store.next_event_id(),
        detail_index(store.details, store.next_event_id()) is None,
        event_index(store.events, store.next_event_id()) is None,
{
    let n = store.events.len() as int;
    assert forall|i: int| 0 <= i < n implies (#[trigger] store.events[i]).id
        < store.next_event_id() by {
        if i < n - 1 {
            assert(store.events[i].id < store.events[n - 1].id);
        }
    }
    assert forall|k: int| 0 <= k < store.details.len() implies (
    #[trigger] store.details[k]).event_id() < store.next_event_id() by {
        lemma_event_index(store.events, store.details[k].event_id());
    }
    lemma_detail_index(store.details, store.next_event_id());
    lemma_event_index(store.events, store.next_event_id());
    if n > 0 {
        assert(1 <= store.events[n - 1].id);
    }
}

/// Appending an event keeps the rules of the tables.
pub proof fn lemma_appended_wf(
    store: StoreView,
    service_id: Seq<char>,
    epoch: int,
    event: EventView,
)
    requires
        store.wf(),
    ensures
        store.appended(service_id, epoch, event).wf(),
{
    let after = store.appended(service_id, epoch, event);
    let n = store.events.len() as int;
    let id = store.next_event_id();
    let header = store.appended_header(service_id, epoch, event);
    let detail = detail_row(id, service_id, epoch, event);
    lemma_ids_below_next(store);
    assert(after.events.drop_last() =~= store.events);
    if detail is Some {
        assert(after.details.drop_last() =~= store.details);
    }
    assert forall|i: int| 0 <= i < after.events.len() implies 1 <= (
    #[trigger] after.events[i]).id by {
        if i < n {
            assert(after.events[i] == store.events[i]);
        }
    }
    assert forall|i: int, j: int| 0 <= i < j < after.events.len() implies (
    #[trigger] after.events[i]).id < (#[trigger] after.events[j]).id by {
        assert(after.events[i] == store.events[i]);
        if j < n {
            assert(after.events[j] == store.events[j]);
        }
    }
    assert forall|i: int| 0 <= i < after.events.len() implies (
    #[trigger] after.events[i]).position == log_length(
        after.events.take(i + 1),
        after.events[i].service_id,
        after.events[i].epoch,
    ) by {
        if i < n {
            assert(after.events[i] == store.events[i]);
            assert(after.events.take(i + 1) =~= store.events.take(i + 1));
        } else {
            assert(after.events.take(i + 1) =~= after.events);
            lemma_log_length_push(store.events, header, service_id, epoch);
        }
    }
    assert forall|i: int| 0 <= i < after.events.len() implies decode_event(
        #[trigger] after.events[i],
        detail_of(after.details, after.events[i].id),
    ) is Some by {
        if i < n {
            assert(after.events[i] == store.events[i]);
            assert(store.events[i].id < id);
            assert(detail_index(after.details, store.events[i].id) == detail_index(
                store.details,
                store.events[i].id,
            ));
            lemma_detail_index(store.details, store.events[i].id);
        } else {
            lemma_rows_round_trip(
                id,
                service_id,
                epoch,
                store.log_len(service_id, epoch) as int + 1,
                event,
            );
        }
    }
    assert forall|i: int, j: int| 0 <= i < j < after.details.len() implies (
    #[trigger] after.details[i]).event_id() < (#[trigger] after.details[j]).event_id() by {
        assert(after.details[i] == store.details[i]);
        if j < store.details.len() {
            assert(after.details[j] == store.details[j]);
        }
    }
    assert forall|k: int| 0 <= k < after.details.len() implies event_index(
        after.events,
        (#[trigger] after.details[k]).event_id(),
    ) is Some by {
        if k < store.details.len() {
            assert(after.details[k] == store.details[k]);
            assert(store.details[k].event_id() < id);
        }
    }
}

/// Two tables of headers that agree on every identifier, service and epoch
/// agree on where a header stands and on how long each log is.
pub proof fn lemma_same_keys(
    a: Seq<EventRow>,
    b: Seq<EventRow>,
    id: int,
    service_id: Seq<char>,
    epoch: int,
)
    requires
        a.len() == b.len(),
        forall|i: int|
            0 <= i < a.len() ==> (#[trigger] a[i]).id == b[i].id && a[i].service_id
                == b[i].service_id && a[i].epoch == b[i].epoch,
    ensures
        event_index(a, id) == event_index(b, id),
        log_length(a, service_id, epoch) == log_length(b, service_id, epoch),
    decreases a.len(),
{
    if a.len() > 0 {
        assert(a.last() == a[a.len() - 1]);
        assert(b.last() == b[a.len() - 1]);
        assert forall|i: int| 0 <= i < a.drop_last().len() implies (#[trigger] a.drop_last()[i]).id
            == b.drop_last()[i].id && a.drop_last()[i].service_id == b.drop_last()[i].service_id
            && a.drop_last()[i].epoch == b.drop_last()[i].epoch by {
            assert(a.drop_last()[i] == a[i]);
            assert(b.drop_last()[i] == b[i]);
        }
        lemma_same_keys(a.drop_last(), b.drop_last(), id, service_id, epoch);
    }
}

/// Marking an event as executed keeps the rules of the tables.
pub proof fn lemma_marked_wf(store: StoreView, event_id: int, at: int)
    requires
        store.wf(),
    ensures
        store.marked(event_id, at).wf(),
{
    let after = store.marked(event_id, at);
    lemma_event_index(store.events, event_id);
    if let Some(m) = event_index(store.events, event_id) {
        assert forall|i: int| 0 <= i < after.events.len() implies (
        #[trigger] after.events[i]).id == store.events[i].id && after.events[i].service_id
            == store.events[i].service_id && after.events[i].epoch == store.events[i].epoch
            && after.events[i].position == store.events[i].position by {}
        assert forall|i: int| 0 <= i < after.events.len() implies (
        #[trigger] after.events[i]).position == log_length(
            after.events.take(i + 1),
            after.events[i].service_id,
            after.events[i].epoch,
        ) by {
            assert(store.events[i].position == log_length(
                store.events.take(i + 1),
                store.events[i].service_id,
                store.events[i].epoch,
            ));
            assert forall|j: int| 0 <= j < after.events.take(i + 1).len() implies (
            #[trigger] after.events.take(i + 1)[j]).id == store.events.take(i + 1)[j].id
                && after.events.take(i + 1)[j].service_id == store.events.take(
                i + 1,
            )[j].service_id && after.events.take(i + 1)[j].epoch == store.events.take(
                i + 1,
            )[j].epoch by {
                assert(after.events.take(i + 1)[j] == after.events[j]);
                assert(store.events.take(i + 1)[j] == store.events[j]);
            }
            lemma_same_keys(
                after.events.take(i + 1),
                store.events.take(i + 1),
                0,
                store.events[i].service_id,
                store.events[i].epoch,
            );
        }
        assert forall|i: int| 0 <= i < after.events.len() implies decode_event(
            #[trigger] after.events[i],
            detail_of(after.details, after.events[i].id),
        ) is Some by {
            assert(decode_event(store.events[i], detail_of(store.details, store.events[i].id))
                is Some);
            if i == m {
                lemma_decode_ignores_execution(
                    store.events[i],
                    at,
                    detail_of(store.details, store.events[i].id),
                );
            }
        }
        assert forall|k: int| 0 <= k < after.details.len() implies event_index(
            after.events,
            (#[trigger] after.details[k]).event_id(),
        ) is Some by {
            lemma_same_keys(after.events, store.events, store.details[k].event_id(), seq![], 0);
        }
        assert forall|i: int, j: int| 0 <= i < j < after.events.len() implies (
        #[trigger] after.events[i]).id < (#[trigger] after.events[j]).id by {
            assert(store.events[i].id < store.events[j].id);
        }
        assert forall|i: int| 0 <= i < after.events.len() implies 1 <= (
        #[trigger] after.events[i]).id by {
            assert(1 <= store.events[i].id);
        }
    }
}

/// Writing a context row keeps the rules of the event tables.
pub proof fn lemma_with_context_wf(
    store: StoreView,
    role: crate::consensus::context::Context,
    service_id: Seq<char>,
    epoch: int,
)
    requires
        store.wf(),
        epoch_fits(epoch),
    ensures
        store.with_context(role, service_id, epoch).wf(),
{
    let after = store.with_context(role, service_id, epoch);
    assert forall|i: int| 0 <= i < after.coordinator_contexts.len() implies epoch_fits(
        (#[trigger] after.coordinator_contexts[i]).epoch,
    ) by {
        if i < store.coordinator_contexts.len() {
            assert(after.coordinator_contexts[i] == store.coordinator_contexts[i]);
        }
    }
    assert forall|i: int| 0 <= i < after.participant_contexts.len() implies epoch_fits(
        (#[trigger] after.participant_contexts[i]).epoch,
    ) by {
        if i < store.participant_contexts.len() {
            assert(after.participant_contexts[i] == store.participant_contexts[i]);
        }
    }
}

} // verus!
