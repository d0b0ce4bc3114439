//! The store: the context tables and the event log, and the operations on
//! them.
//!
//! The tables are held in memory. A store that keeps them in a database
//! does the same reads and writes inside one transaction and takes the same
//! decisions, which stand in [`crate::consensus::writer`].

use vstd::prelude::*;
use vstd::string::StringExecFns;
use crate::consensus::context::Context;
use crate::consensus::event::Scabbard2pcEvent;
use crate::consensus::event::ScabbardConsensusEvent;
use crate::consensus::invariants::lemma_appended_wf;
use crate::consensus::invariants::lemma_marked_wf;
use crate::consensus::invariants::lemma_with_context_wf;
use crate::consensus::laws::lemma_listing_is_of_one_log;
use crate::consensus::laws::lemma_positions_count_up;
use crate::consensus::models::Consensus2pcContextModel;
use crate::consensus::models::ContextRow;
use crate::consensus::models::DetailRow;
use crate::consensus::models::EventRow;
use crate::consensus::models::TwoPcConsensusEventDetail;
use crate::consensus::models::TwoPcConsensusEventModel;
use crate::consensus::models::timestamp_view;
use crate::consensus::reader::decode_event;
use crate::consensus::reader::read_event;
use crate::consensus::service_id::FullyQualifiedServiceId;
use crate::consensus::state::EventFilter;
use crate::consensus::state::RecordView;
use crate::consensus::state::StoreView;
use crate::consensus::state::detail_count;
use crate::consensus::state::detail_index;
use crate::consensus::state::detail_of;
use crate::consensus::state::event_index;
use crate::consensus::state::listed;
use crate::consensus::state::log_length;
use crate::consensus::state::record_of;
use crate::consensus::writer::epoch_range_message;
use crate::consensus::writer::event_detail;
use crate::consensus::writer::persisted_epoch;
use crate::consensus::writer::plan_consensus_event;
use crate::consensus::writer::position_view;
use crate::error::ScabbardStoreError;
use crate::error::StoreErrorView;
use crate::text::signed_decimal_string;

verus! {

/// The rows of a context table, as contracts see them.
pub open spec fn context_rows(table: Seq<Consensus2pcContextModel>) -> Seq<ContextRow> {
    table.map_values(|row: Consensus2pcContextModel| row@)
}

/// The header rows, as contracts see them.
pub open spec fn event_rows(table: Seq<TwoPcConsensusEventModel>) -> Seq<EventRow> {
    table.map_values(|row: TwoPcConsensusEventModel| row@)
}

/// The detail rows, as contracts see them.
pub open spec fn detail_rows(table: Seq<TwoPcConsensusEventDetail>) -> Seq<DetailRow> {
    table.map_values(|row: TwoPcConsensusEventDetail| row@)
}

/// An event as a listing yields it.
#[derive(Debug, Clone, PartialEq, Eq)]
pub struct EventRecord {
    /// The identifier that the store gave the event.
    pub event_id: i64,
    /// The service whose log holds the event.
    pub service_id: String,
    /// The round that the event belongs to.
    pub epoch: i64,
    /// Where the event stands in its log, counted from one.
    pub position: i32,
    /// The discriminator of the event's variant.
    pub event_type: String,
    /// When the state machine consumed the event, if it has.
    pub executed_at: Option<i64>,
    /// The event, read back from its rows.
    pub event: Scabbard2pcEvent,
}

impl View for EventRecord {
    type V = RecordView;

    open spec fn view(&self) -> RecordView {
        RecordView {
            event_id: self.event_id as int,
            service_id: self.service_id@,
            epoch: self.epoch as int,
            position: self.position as int,
            event_type: self.event_type@,
            executed_at: timestamp_view(self.executed_at),
            event: self.event@,
        }
    }
}

/// The records of a listing, as contracts see them.
pub open spec fn record_views(records: Seq<EventRecord>) -> Seq<RecordView> {
    records.map_values(|record: EventRecord| record@)
}

/// The state of scabbard's two-phase commit: which role each service plays
/// in each epoch, and the log of the events of each round.
pub struct ScabbardStore {
    coordinator_contexts: Vec<Consensus2pcContextModel>,
    participant_contexts: Vec<Consensus2pcContextModel>,
    events: Vec<TwoPcConsensusEventModel>,
    details: Vec<TwoPcConsensusEventDetail>,
}

impl View for ScabbardStore {
    type V = StoreView;

    closed spec fn view(&self) -> StoreView {
        StoreView {
            coordinator_contexts: context_rows(self.coordinator_contexts@),
            participant_contexts: context_rows(self.participant_contexts@),
            events: event_rows(self.events@),
            details: detail_rows(self.details@),
        }
    }
}

/// Whether `table` has a row for `(service_id, epoch)`.
fn contains_context(
    table: &Vec<Consensus2pcContextModel>,
    service_id: &FullyQualifiedServiceId,
    epoch: i64,
) -> (found: bool)
    ensures
        found == context_rows(table@).contains(
            ContextRow { service_id: service_id@, epoch: epoch as int },
        ),
{
    let ghost wanted = ContextRow { service_id: service_id@, epoch: epoch as int };
    let mut i: usize = 0;
    while i < table.len()
        invariant
            i <= table.len(),
            wanted == (ContextRow { service_id: service_id@, epoch: epoch as int }),
            forall|k: int| 0 <= k < i ==> context_rows(table@)[k] != wanted,
        decreases table.len() - i,
    {
        if table[i].epoch == epoch && str_matches(&table[i].service_id, service_id) {
            assert(context_rows(table@)[i as int] == wanted);
            return true;
        }
        i += 1;
    }
    false
}

/// Whether a persisted service identifier is the canonical form of
/// `service_id`.
fn str_matches(persisted: &String, service_id: &FullyQualifiedServiceId) -> (same: bool)
    ensures
        same == (persisted@ == service_id@),
{
    crate::text::str_eq(persisted.as_str(), service_id.as_str())
}

impl ScabbardStore {
    /// Whether the tables keep their rules.
    pub open spec fn wf(&self) -> bool {
        self@.wf()
    }

    /// A store that holds nothing.
    pub fn new() -> (store: Self)
        ensures
            store.wf(),
            store@ == StoreView::empty(),
    {
        let store = ScabbardStore {
            coordinator_contexts: Vec::new(),
            participant_contexts: Vec::new(),
            events: Vec::new(),
            details: Vec::new(),
        };
        assert(store@.coordinator_contexts =~= Seq::empty());
        assert(store@.participant_contexts =~= Seq::empty());
        assert(store@.events =~= Seq::empty());
        assert(store@.details =~= Seq::empty());
        store
    }

    /// Writes a row for `(service_id, epoch)` into the table of `context`
    /// without looking at the other table.
    ///
    /// This is what a writer does that shares the tables and does not ask
    /// first, as [`ScabbardStore::put_context`] does. The store holds what it
    /// is given:
    /// it never relies on a service having one role only, and checks for it
    /// wherever it reads a role. An epoch that does not fit the persisted
    /// width is an `Internal` error, and nothing is written.
    pub fn insert_context_row(
        &mut self,
        service_id: &FullyQualifiedServiceId,
        epoch: u64,
        context: Context,
    ) -> (inserted: Result<(), ScabbardStoreError>)
        requires
            old(self).wf(),
        ensures
            final(self).wf(),
            epoch <= i64::MAX ==> inserted is Ok && final(self)@ == old(self)@.with_context(
                context,
                service_id@,
                epoch as int,
            ),
            epoch > i64::MAX ==> inserted is Err && inserted->Err_0@ == StoreErrorView::Internal(
                epoch_range_message(),
            ) && final(self)@ == old(self)@,
    {
        let epoch = match persisted_epoch(epoch) {
            Ok(epoch) => epoch,
            Err(err) => {
                return Err(err);
            },
        };
        let row = Consensus2pcContextModel { service_id: service_id.as_str().to_owned(), epoch };
        proof {
            lemma_with_context_wf(old(self)@, context, service_id@, epoch as int);
        }
        match context {
            Context::Coordinator => {
                self.coordinator_contexts.push(row);
                assert(self@.coordinator_contexts =~= old(self)@.coordinator_contexts.push(
                    row@,
                ));
            },
            Context::Participant => {
                self.participant_contexts.push(row);
                assert(self@.participant_contexts =~= old(self)@.participant_contexts.push(
                    row@,
                ));
            },
        }
        Ok(())
    }

    /// Whether the table of `context` has a row for `(service_id, epoch)`.
    fn has_context_row(
        &self,
        context: Context,
        service_id: &FullyQualifiedServiceId,
        epoch: i64,
    ) -> (found: bool)
        ensures
            found == self@.has_context(context, service_id@, epoch as int),
    {
        match context {
            Context::Coordinator => contains_context(&self.coordinator_contexts, service_id, epoch),
            Context::Participant => contains_context(&self.participant_contexts, service_id, epoch),
        }
    }

    /// The highest position in the log of `(service_id, epoch)`, if the log
    /// holds an event.
    fn last_position(&self, service_id: &FullyQualifiedServiceId, epoch: i64) -> (last: Option<
        i32,
    >)
        requires
            self.wf(),
        ensures
            position_view(last) == self@.last_position(service_id@, epoch as int),
    {
        let ghost rows = event_rows(self.events@);
        let mut last: Option<i32> = None;
        let mut i: usize = 0;
        assert(rows.take(0) =~= Seq::empty());
        while i < self.events.len()
            invariant
                i <= self.events.len(),
                self.wf(),
                rows == event_rows(self.events@),
                rows == self@.events,
                match last {
                    Some(position) => position == log_length(
                        rows.take(i as int),
                        service_id@,
                        epoch as int,
                    ) && position >= 1,
                    None => log_length(rows.take(i as int), service_id@, epoch as int) == 0,
                },
            decreases self.events.len() - i,
        {
            let row = &self.events[i];
            assert(rows.take(i + 1).drop_last() =~= rows.take(i as int));
            assert(rows.take(i + 1).last() == rows[i as int]);
            assert(rows[i as int] == row@);
            if row.epoch == epoch && str_matches(&row.service_id, service_id) {
                let higher = match last {
                    Some(position) => row.position > position,
                    None => true,
                };
                if higher {
                    last = Some(row.position);
                }
            }
            i += 1;
        }
        assert(rows.take(i as int) =~= rows);
        last
    }

    /// The identifier that the next event gets, unless none is left.
    fn next_event_id(&self) -> (next: Option<i64>)
        requires
            self.wf(),
        ensures
            match next {
                Some(id) => id == self@.next_event_id(),
                None => self@.next_event_id() > i64::MAX,
            },
    {
        let n = self.events.len();
        if n == 0 {
            Some(1)
        } else {
            let last = self.events[n - 1].id;
            assert(event_rows(self.events@)[n - 1] == self.events@[n - 1]@);
            if last == i64::MAX {
                None
            } else {
                Some(last + 1)
            }
        }
    }

    /// Appends `event` to the log of `(service_id, epoch)` and returns the
    /// identifier that the store gave it.
    ///
    /// The epoch is narrowed to the persisted width. Both context tables are
    /// read: the service must hold exactly one role in the epoch, and the
    /// role must be one that may record the event. The event takes the
    /// position after the last one of its log, the first log position being
    /// one. Its header row is written as not executed, together with the
    /// detail row of its variant; an alarm has no detail row.
    ///
    /// On an error nothing is written and no position is used up. A broken
    /// rule is an `InvalidState` error; an epoch that does not fit, or a log
    /// or store that is full, is an `Internal` error.
    pub fn add_consensus_event(
        &mut self,
        service_id: &FullyQualifiedServiceId,
        epoch: u64,
        event: ScabbardConsensusEvent,
    ) -> (added: Result<i64, ScabbardStoreError>)
        requires
            old(self).wf(),
        ensures
            final(self).wf(),
            match added {
                Ok(event_id) => {
                    &&& old(self)@.append_error(service_id@, epoch as int, event@) is None
                    &&& event_id == old(self)@.next_event_id()
                },
                Err(err) => old(self)@.append_error(service_id@, epoch as int, event@) == Some(
                    err@,
                ),
            },
            final(self)@ == old(self)@.after_append(service_id@, epoch as int, event@),
    {
        let narrowed = match persisted_epoch(epoch) {
            Ok(narrowed) => narrowed,
            Err(err) => {
                return Err(err);
            },
        };
        let coordinator = contains_context(&self.coordinator_contexts, service_id, narrowed);
        let participant = contains_context(&self.participant_contexts, service_id, narrowed);
        let last_position = self.last_position(service_id, narrowed);
        let (role, header) = match plan_consensus_event(
            service_id,
            narrowed,
            coordinator,
            participant,
            last_position,
            &event,
        ) {
            Ok(plan) => plan,
            Err(err) => {
                return Err(err);
            },
        };
        let event_id = match self.next_event_id() {
            Some(event_id) => event_id,
            None => {
                return Err(
                    ScabbardStoreError::internal(
                        String::from_str(
                            "Failed to add consensus event, the store has no event identifier left",
                        ),
                    ),
                );
            },
        };
        let ScabbardConsensusEvent::Scabbard2pcConsensusEvent(event) = event;
        let detail = match event_detail(role, event_id, service_id, narrowed, &event) {
            Ok(detail) => detail,
            Err(err) => {
                return Err(err);
            },
        };
        let header = header.with_id(event_id);
        proof {
            lemma_appended_wf(old(self)@, service_id@, epoch as int, event@);
        }
        self.events.push(header);
        assert(self@.events =~= old(self)@.events.push(header@));
        match detail {
            Some(detail) => {
                self.details.push(detail);
                assert(self@.details =~= old(self)@.details.push(detail@));
            },
            None => {},
        }
        Ok(event_id)
    }

    /// Where the detail row of the event `event_id` stands, if it has one.
    fn find_detail(&self, event_id: i64) -> (found: Option<usize>)
        ensures
            match found {
                Some(k) => detail_index(self@.details, event_id as int) == Some(k as int) && k
                    < self.details.len(),
                None => detail_index(self@.details, event_id as int) is None,
            },
    {
        let ghost rows = detail_rows(self.details@);
        let mut k: usize = self.details.len();
        assert(rows.take(k as int) =~= rows);
        while k > 0
            invariant
                k <= self.details.len(),
                rows == detail_rows(self.details@),
                detail_index(rows, event_id as int) == detail_index(
                    rows.take(k as int),
                    event_id as int,
                ),
            decreases k,
        {
            k -= 1;
            assert(rows.take(k + 1).drop_last() =~= rows.take(k as int));
            assert(rows.take(k + 1).last() == self.details@[k as int]@);
            if self.details[k].event_id() == event_id {
                return Some(k);
            }
        }
        None
    }

    /// Where the header row of the event `event_id` stands, if the store
    /// holds the event.
    fn find_event(&self, event_id: i64) -> (found: Option<usize>)
        ensures
            match found {
                Some(i) => event_index(self@.events, event_id as int) == Some(i as int) && i
                    < self.events.len(),
                None => event_index(self@.events, event_id as int) is None,
            },
    {
        let ghost rows = event_rows(self.events@);
        let mut i: usize = self.events.len();
        assert(rows.take(i as int) =~= rows);
        while i > 0
            invariant
                i <= self.events.len(),
                rows == event_rows(self.events@),
                event_index(rows, event_id as int) == event_index(
                    rows.take(i as int),
                    event_id as int,
                ),
            decreases i,
        {
            i -= 1;
            assert(rows.take(i + 1).drop_last() =~= rows.take(i as int));
            assert(rows.take(i + 1).last() == self.events@[i as int]@);
            if self.events[i].id == event_id {
                return Some(i);
            }
        }
        None
    }

    /// The header row of the event `event_id`, if the store holds the event.
    pub fn header_of(&self, event_id: i64) -> (header: Option<TwoPcConsensusEventModel>)
        ensures
            match header {
                Some(row) => event_index(self@.events, event_id as int) is Some && row@
                    == self@.events[event_index(self@.events, event_id as int).unwrap()],
                None => event_index(self@.events, event_id as int) is None,
            },
    {
        match self.find_event(event_id) {
            Some(i) => {
                assert(event_rows(self.events@)[i as int] == self.events@[i as int]@);
                Some(self.events[i].duplicate())
            },
            None => None,
        }
    }

    /// The detail row that points at the event `event_id`, if there is one.
    pub fn detail_of(&self, event_id: i64) -> (detail: Option<TwoPcConsensusEventDetail>)
        ensures
            crate::consensus::writer::detail_view(detail) == detail_of(
                self@.details,
                event_id as int,
            ),
    {
        match self.find_detail(event_id) {
            Some(k) => {
                assert(detail_rows(self.details@)[k as int] == self.details@[k as int]@);
                Some(self.details[k].duplicate())
            },
            None => None,
        }
    }

    /// How many detail rows point at the event `event_id`.
    pub fn count_details(&self, event_id: i64) -> (count: usize)
        ensures
            count == detail_count(self@.details, event_id as int),
    {
        let ghost rows = detail_rows(self.details@);
        let mut count: usize = 0;
        let mut k: usize = 0;
        assert(rows.take(0) =~= Seq::empty());
        while k < self.details.len()
            invariant
                k <= self.details.len(),
                rows == detail_rows(self.details@),
                count <= k,
                count == detail_count(rows.take(k as int), event_id as int),
            decreases self.details.len() - k,
        {
            assert(rows.take(k + 1).drop_last() =~= rows.take(k as int));
            assert(rows.take(k + 1).last() == self.details@[k as int]@);
            if self.details[k].event_id() == event_id {
                count += 1;
            }
            k += 1;
        }
        assert(rows.take(k as int) =~= rows);
        count
    }

    /// How many events the store holds, over all logs.
    pub fn event_count(&self) -> (count: usize)
        ensures
            count == self@.events.len(),
    {
        self.events.len()
    }

    /// The events of the log of `(service_id, epoch)` that pass `filter`, in
    /// position order, each read back from its header row and the detail
    /// row joined to it.
    ///
    /// An epoch that does not fit the persisted width is an `Internal`
    /// error; nothing else fails.
    pub fn list_events(
        &self,
        service_id: &FullyQualifiedServiceId,
        epoch: u64,
        filter: EventFilter,
    ) -> (listing: Result<Vec<EventRecord>, ScabbardStoreError>)
        requires
            self.wf(),
        ensures
            epoch <= i64::MAX ==> listing is Ok && record_views(listing->Ok_0@)
                == self@.records(service_id@, epoch as int, filter),
            epoch > i64::MAX ==> listing is Err && listing->Err_0@ == StoreErrorView::Internal(
                epoch_range_message(),
            ),
            listing matches Ok(records) ==> {
                &&& forall|k: int|
                    0 <= k < records.len() ==> (#[trigger] records[k]).service_id@ == service_id@
                        && records[k].epoch == epoch
                &&& forall|j: int, k: int|
                    0 <= j < k < records.len() ==> (#[trigger] records[j]).position < (
                    #[trigger] records[k]).position
                &&& filter == EventFilter::All ==> forall|k: int|
                    0 <= k < records.len() ==> (#[trigger] records[k]).position == k + 1
            },
    {
        let narrowed = match persisted_epoch(epoch) {
            Ok(narrowed) => narrowed,
            Err(err) => {
                return Err(err);
            },
        };
        let ghost rows = event_rows(self.events@);
        let ghost details = detail_rows(self.details@);
        let mut records: Vec<EventRecord> = Vec::new();
        let mut i: usize = 0;
        assert(rows.take(0) =~= Seq::empty());
        assert(record_views(records@) =~= Seq::empty());
        while i < self.events.len()
            invariant
                i <= self.events.len(),
                self.wf(),
                rows == event_rows(self.events@),
                rows == self@.events,
                details == self@.details,
                record_views(records@) == listed(
                    rows.take(i as int),
                    details,
                    service_id@,
                    narrowed as int,
                    filter,
                ),
            decreases self.events.len() - i,
        {
            let header = &self.events[i];
            assert(rows.take(i + 1).drop_last() =~= rows.take(i as int));
            assert(rows.take(i + 1).last() == rows[i as int]);
            assert(rows[i as int] == header@);
            let kept = match filter {
                EventFilter::All => true,
                EventFilter::PendingOnly => header.executed_at.is_none(),
                EventFilter::ExecutedOnly => header.executed_at.is_some(),
            };
            if header.epoch == narrowed && str_matches(&header.service_id, service_id) && kept {
                let detail = match self.find_detail(header.id) {
                    Some(k) => Some(&self.details[k]),
                    None => None,
                };
                assert(crate::consensus::reader::detail_ref_view(detail) == detail_of(
                    details,
                    header.id as int,
                ));
                assert(decode_event(rows[i as int], detail_of(details, rows[i as int].id))
                    is Some);
                let event = match read_event(header, detail) {
                    Ok(event) => event,
                    Err(err) => {
                        return Err(err);
                    },
                };
                let record = EventRecord {
                    event_id: header.id,
                    service_id: header.service_id.clone(),
                    epoch: header.epoch,
                    position: header.position,
                    event_type: header.event_type.clone(),
                    executed_at: header.executed_at,
                    event,
                };
                assert(record@ == record_of(rows[i as int], details));
                let ghost before = record_views(records@);
                records.push(record);
                assert(record_views(records@) =~= before.push(record@));
            }
            i += 1;
        }
        assert(rows.take(i as int) =~= rows);
        proof {
            let listing = self@.records(service_id@, epoch as int, filter);
            lemma_listing_is_of_one_log(self@, service_id@, epoch as int, filter);
            lemma_positions_count_up(self@, service_id@, epoch as int, filter);
            assert forall|k: int| 0 <= k < records.len() implies (#[trigger] records[k])@
                == listing[k] by {
                assert(record_views(records@)[k] == records@[k]@);
            }
        }
        Ok(records)
    }

    /// Marks the event `event_id` as consumed by the state machine at
    /// `timestamp`.
    ///
    /// An event is marked once: marking it again is an `InvalidState` error,
    /// and so is marking an event that the store does not hold. On an error
    /// nothing changes.
    pub fn mark_executed(&mut self, event_id: i64, timestamp: i64) -> (marked: Result<
        (),
        ScabbardStoreError,
    >)
        requires
            old(self).wf(),
        ensures
            final(self).wf(),
            match marked {
                Ok(_) => {
                    &&& old(self)@.mark_error(event_id as int) is None
                    &&& final(self)@ == old(self)@.marked(event_id as int, timestamp as int)
                },
                Err(err) => {
                    &&& old(self)@.mark_error(event_id as int) == Some(err@)
                    &&& final(self)@ == old(self)@
                },
            },
    {
        let i = match self.find_event(event_id) {
            Some(i) => i,
            None => {
                let mut message = String::from_str(
                    "Failed to update consensus event, no event with id: ",
                );
                let digits = signed_decimal_string(event_id);
                message.append(digits.as_str());
                return Err(ScabbardStoreError::invalid_state(message));
            },
        };
        assert(event_rows(self.events@)[i as int] == self.events@[i as int]@);
        if self.events[i].executed_at.is_some() {
            let mut message = String::from_str(
                "Failed to update consensus event, already executed event with id: ",
            );
            let digits = signed_decimal_string(event_id);
            message.append(digits.as_str());
            return Err(ScabbardStoreError::invalid_state(message));
        }
        let row = &self.events[i];
        let executed = TwoPcConsensusEventModel {
            id: row.id,
            service_id: row.service_id.clone(),
            epoch: row.epoch,
            executed_at: Some(timestamp),
            position: row.position,
            event_type: row.event_type.clone(),
        };
        proof {
            lemma_marked_wf(old(self)@, event_id as int, timestamp as int);
        }
        self.events.set(i, executed);
        assert(self@.events =~= old(self)@.events.update(
            i as int,
            old(self)@.events[i as int].executed(timestamp as int),
        ));
        Ok(())
    }

    /// Binds `context` to `(service_id, epoch)`.
    ///
    /// Both context tables are read first. A binding in the opposite role is
    /// an `InvalidState` error; the same binding a second time changes
    /// nothing and succeeds. An epoch that does not fit the persisted width
    /// is an `Internal` error. On an error nothing is written.
    pub fn put_context(
        &mut self,
        service_id: &FullyQualifiedServiceId,
        epoch: u64,
        context: Context,
    ) -> (put: Result<(), ScabbardStoreError>)
        requires
            old(self).wf(),
        ensures
            final(self).wf(),
            match put {
                Ok(_) => {
                    &&& old(self)@.put_error(context, service_id@, epoch as int) is None
                    &&& final(self)@ == old(self)@.bound(context, service_id@, epoch as int)
                },
                Err(err) => {
                    &&& old(self)@.put_error(context, service_id@, epoch as int) == Some(err@)
                    &&& final(self)@ == old(self)@
                },
            },
    {
        let narrowed = match persisted_epoch(epoch) {
            Ok(narrowed) => narrowed,
            Err(err) => {
                return Err(err);
            },
        };
        if self.has_context_row(context.opposite(), service_id, narrowed) {
            let mut message = String::from_str(
                "Failed to add consensus context, a context in the opposite role exists for service_id: ",
            );
            message.append(service_id.as_str());
            message.append(" epoch: ");
            let digits = signed_decimal_string(narrowed);
            message.append(digits.as_str());
            return Err(ScabbardStoreError::invalid_state(message));
        }
        if self.has_context_row(context, service_id, narrowed) {
            return Ok(());
        }
        self.insert_context_row(service_id, epoch, context)
    }

    /// The role of the service in the epoch, or `None` if it has none.
    ///
    /// Both context tables are read. A service that holds both roles is an
    /// `InvalidState` error; an epoch that does not fit the persisted width
    /// is an `Internal` error.
    pub fn get_context(&self, service_id: &FullyQualifiedServiceId, epoch: u64) -> (context: Result<
        Option<Context>,
        ScabbardStoreError,
    >)
        ensures
            match context {
                Ok(role) => {
                    &&& self@.context_error(service_id@, epoch as int) is None
                    &&& role == self@.role(service_id@, epoch as int)
                },
                Err(err) => self@.context_error(service_id@, epoch as int) == Some(err@),
            },
    {
        let narrowed = match persisted_epoch(epoch) {
            Ok(narrowed) => narrowed,
            Err(err) => {
                return Err(err);
            },
        };
        let coordinator = contains_context(&self.coordinator_contexts, service_id, narrowed);
        let participant = contains_context(&self.participant_contexts, service_id, narrowed);
        if coordinator && participant {
            let mut message = String::from_str(
                "Failed to get consensus context, contexts found for participant and coordinator with service_id: ",
            );
            message.append(service_id.as_str());
            message.append(" epoch: ");
            let digits = signed_decimal_string(narrowed);
            message.append(digits.as_str());
            Err(ScabbardStoreError::invalid_state(message))
        } else if coordinator {
            Ok(Some(Context::Coordinator))
        } else if participant {
            Ok(Some(Context::Participant))
        } else {
            Ok(None)
        }
    }
}

} // verus!
