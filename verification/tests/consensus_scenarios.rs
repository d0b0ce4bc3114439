use splinter_store::consensus::context::Context;
use splinter_store::consensus::event::Scabbard2pcEvent;
use splinter_store::consensus::event::ScabbardConsensusEvent;
use splinter_store::consensus::message::Scabbard2pcMessage;
use splinter_store::consensus::models::TwoPcConsensusEventDetail;
use splinter_store::consensus::service_id::FullyQualifiedServiceId;
use splinter_store::consensus::state::EventFilter;
use splinter_store::consensus::store::ScabbardStore;
use splinter_store::error::ScabbardStoreError;

fn service(name: &str) -> FullyQualifiedServiceId {
    FullyQualifiedServiceId::new_from_str(name)
}

fn wrap(event: Scabbard2pcEvent) -> ScabbardConsensusEvent {
    ScabbardConsensusEvent::Scabbard2pcConsensusEvent(event)
}

fn invalid_state_message(result: Result<i64, ScabbardStoreError>) -> String {
    match result {
        Err(ScabbardStoreError::InvalidState(err)) => err.message().to_string(),
        other => panic!("expected an invalid state error, got {:?}", other),
    }
}

#[test]
fn coordinator_start_is_listed_at_position_one() {
    let mut store = ScabbardStore::new();
    let id = service("svc-A::group");
    store.put_context(&id, 7, Context::Coordinator).unwrap();

    let e1 = store
        .add_consensus_event(&id, 7, wrap(Scabbard2pcEvent::Start(vec![0x01, 0x02])))
        .unwrap();

    let events = store.list_events(&id, 7, EventFilter::All).unwrap();
    assert_eq!(events.len(), 1);
    assert_eq!(events[0].event_id, e1);
    assert_eq!(events[0].service_id, "svc-A::group");
    assert_eq!(events[0].epoch, 7);
    assert_eq!(events[0].position, 1);
    assert_eq!(events[0].event_type, "START");
    assert_eq!(events[0].executed_at, None);
    assert_eq!(events[0].event, Scabbard2pcEvent::Start(vec![0x01, 0x02]));
}

#[test]
fn coordinator_vote_response_detail_row() {
    let mut store = ScabbardStore::new();
    let id = service("svc-A::group");
    store.put_context(&id, 7, Context::Coordinator).unwrap();
    store
        .add_consensus_event(&id, 7, wrap(Scabbard2pcEvent::Start(vec![0x01, 0x02])))
        .unwrap();

    let e2 = store
        .add_consensus_event(
            &id,
            7,
            wrap(Scabbard2pcEvent::Deliver(
                service("svc-B::group"),
                Scabbard2pcMessage::VoteResponse(true),
            )),
        )
        .unwrap();

    match store.detail_of(e2) {
        Some(TwoPcConsensusEventDetail::Deliver(row)) => {
            assert_eq!(row.event_id, e2);
            assert_eq!(row.service_id, "svc-A::group");
            assert_eq!(row.epoch, 7);
            assert_eq!(row.receiver_service_id, "svc-B::group");
            assert_eq!(row.message_type, "VOTE_RESPONSE");
            assert_eq!(row.vote_response, Some("TRUE".to_string()));
            assert_eq!(row.vote_request, None);
        }
        other => panic!("expected a deliver row, got {:?}", other),
    }
    let header = store.header_of(e2).unwrap();
    assert_eq!(header.position, 2);
    assert_eq!(header.event_type, "DELIVER");
}

#[test]
fn participant_start_is_invalid_state() {
    let mut store = ScabbardStore::new();
    let id = service("svc-C::g");
    store.put_context(&id, 3, Context::Participant).unwrap();

    let result = store.add_consensus_event(&id, 3, wrap(Scabbard2pcEvent::Start(vec![])));

    let message = invalid_state_message(result);
    assert!(message.contains("invalid participant event type"));
    assert_eq!(
        message,
        "Failed to add consensus event, invalid participant event type START"
    );
    assert_eq!(store.event_count(), 0);
    assert!(store.list_events(&id, 3, EventFilter::All).unwrap().is_empty());
}

#[test]
fn both_contexts_make_every_append_invalid() {
    let mut store = ScabbardStore::new();
    let id = service("svc-D::g");
    store.put_context(&id, 9, Context::Coordinator).unwrap();
    // put_context refuses the second role
    match store.put_context(&id, 9, Context::Participant) {
        Err(ScabbardStoreError::InvalidState(_)) => {}
        other => panic!("expected an invalid state error, got {:?}", other),
    }
    // a writer that goes past put_context leaves both rows behind
    store.insert_context_row(&id, 9, Context::Participant).unwrap();

    let result = store.add_consensus_event(&id, 9, wrap(Scabbard2pcEvent::Alarm));

    let message = invalid_state_message(result);
    assert!(message.contains("participant"));
    assert!(message.contains("coordinator"));
    assert_eq!(
        message,
        "Failed to add consensus event, contexts found for participant and coordinator with service_id: svc-D::g epoch: 9"
    );
    assert_eq!(store.event_count(), 0);
}

#[test]
fn missing_context_is_invalid_state() {
    let mut store = ScabbardStore::new();
    let id = service("svc-E::g");

    let result = store.add_consensus_event(&id, 0, wrap(Scabbard2pcEvent::Alarm));

    let message = invalid_state_message(result);
    assert!(message.contains("a context"));
    assert!(message.ends_with("does not exist"));
    assert_eq!(
        message,
        "Failed to add consensus event, a context with service_id: svc-E::g and epoch: 0 does not exist"
    );
    assert_eq!(store.event_count(), 0);
}

#[test]
fn participant_votes_take_positions_one_and_two() {
    let mut store = ScabbardStore::new();
    let id = service("svc-F::g");
    store.put_context(&id, 1, Context::Participant).unwrap();

    let first = store
        .add_consensus_event(&id, 1, wrap(Scabbard2pcEvent::Vote(false)))
        .unwrap();
    let second = store
        .add_consensus_event(&id, 1, wrap(Scabbard2pcEvent::Vote(true)))
        .unwrap();

    assert_eq!(store.header_of(first).unwrap().position, 1);
    assert_eq!(store.header_of(second).unwrap().position, 2);
    match store.detail_of(first) {
        Some(TwoPcConsensusEventDetail::Vote(row)) => assert_eq!(row.vote, "FALSE"),
        other => panic!("expected a vote row, got {:?}", other),
    }
    match store.detail_of(second) {
        Some(TwoPcConsensusEventDetail::Vote(row)) => assert_eq!(row.vote, "TRUE"),
        other => panic!("expected a vote row, got {:?}", other),
    }
    let events = store.list_events(&id, 1, EventFilter::All).unwrap();
    assert_eq!(events.len(), 2);
    assert_eq!(events[0].position, 1);
    assert_eq!(events[0].event, Scabbard2pcEvent::Vote(false));
    assert_eq!(events[1].position, 2);
    assert_eq!(events[1].event, Scabbard2pcEvent::Vote(true));
}
