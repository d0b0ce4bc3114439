use splinter_store::consensus::context::Context;
use splinter_store::consensus::event::EventKind;
use splinter_store::consensus::event::Scabbard2pcEvent;
use splinter_store::consensus::event::ScabbardConsensusEvent;
use splinter_store::consensus::message::parse_vote;
use splinter_store::consensus::message::vote_str;
use splinter_store::consensus::message::MessageKind;
use splinter_store::consensus::message::Scabbard2pcMessage;
use splinter_store::consensus::models::TwoPcConsensusDeliverEventModel;
use splinter_store::consensus::models::TwoPcConsensusEventDetail;
use splinter_store::consensus::models::TwoPcConsensusEventModel;
use splinter_store::consensus::models::TwoPcConsensusStartEventModel;
use splinter_store::consensus::models::TwoPcConsensusVoteEventModel;
use splinter_store::consensus::reader::read_event;
use splinter_store::consensus::reader::read_message;
use splinter_store::consensus::service_id::FullyQualifiedServiceId;
use splinter_store::consensus::writer::check_event;
use splinter_store::consensus::writer::event_detail;
use splinter_store::consensus::writer::event_header;
use splinter_store::consensus::writer::next_position;
use splinter_store::consensus::writer::persisted_epoch;
use splinter_store::consensus::writer::plan_consensus_event;
use splinter_store::consensus::writer::resolve_role;
use splinter_store::error::ScabbardStoreError;

fn service(name: &str) -> FullyQualifiedServiceId {
    FullyQualifiedServiceId::new_from_str(name)
}

fn header(id: i64, event_type: &str) -> TwoPcConsensusEventModel {
    TwoPcConsensusEventModel {
        id,
        service_id: "svc-A::aaaa".to_string(),
        epoch: 2,
        executed_at: None,
        position: 1,
        event_type: event_type.to_string(),
    }
}

fn deliver_row(message_type: &str, response: Option<&str>, request: Option<Vec<u8>>) -> TwoPcConsensusDeliverEventModel {
    TwoPcConsensusDeliverEventModel {
        event_id: 5,
        service_id: "svc-A::aaaa".to_string(),
        epoch: 2,
        receiver_service_id: "svc-B::bbbb".to_string(),
        message_type: message_type.to_string(),
        vote_response: response.map(|r| r.to_string()),
        vote_request: request,
    }
}

fn is_invalid_state<T>(result: &Result<T, ScabbardStoreError>) -> bool {
    matches!(result, Err(ScabbardStoreError::InvalidState(_)))
}

#[test]
fn discriminators_are_the_stable_upper_case_names() {
    assert_eq!(EventKind::Alarm.name(), "ALARM");
    assert_eq!(EventKind::Start.name(), "START");
    assert_eq!(EventKind::Vote.name(), "VOTE");
    assert_eq!(EventKind::Deliver.name(), "DELIVER");
    assert_eq!(MessageKind::VoteRequest.name(), "VOTE_REQUEST");
    assert_eq!(MessageKind::VoteResponse.name(), "VOTE_RESPONSE");
    assert_eq!(MessageKind::Commit.name(), "COMMIT");
    assert_eq!(MessageKind::Abort.name(), "ABORT");
    assert_eq!(MessageKind::DecisionRequest.name(), "DECISION_REQUEST");
    assert_eq!(Scabbard2pcEvent::Start(vec![]).event_type(), "START");
    assert_eq!(Scabbard2pcMessage::VoteRequest(vec![1]).message_type(), "VOTE_REQUEST");
    assert_eq!(Scabbard2pcEvent::Vote(true).kind(), EventKind::Vote);
    assert_eq!(Scabbard2pcMessage::Abort.kind(), MessageKind::Abort);
}

#[test]
fn discriminators_are_read_back_exactly() {
    for kind in [EventKind::Alarm, EventKind::Start, EventKind::Vote, EventKind::Deliver] {
        assert_eq!(EventKind::from_name(kind.name()), Some(kind));
    }
    for kind in [
        MessageKind::VoteRequest,
        MessageKind::VoteResponse,
        MessageKind::Commit,
        MessageKind::Abort,
        MessageKind::DecisionRequest,
    ] {
        assert_eq!(MessageKind::from_name(kind.name()), Some(kind));
    }
    assert_eq!(EventKind::from_name("alarm"), None);
    assert_eq!(EventKind::from_name("ALARM "), None);
    assert_eq!(EventKind::from_name(""), None);
    assert_eq!(EventKind::from_name("VOTE_REQUEST"), None);
    assert_eq!(MessageKind::from_name("VOTE"), None);
    assert_eq!(MessageKind::from_name("Commit"), None);
}

#[test]
fn votes_are_the_two_upper_case_words() {
    assert_eq!(vote_str(true), "TRUE");
    assert_eq!(vote_str(false), "FALSE");
    assert_eq!(parse_vote("TRUE"), Some(true));
    assert_eq!(parse_vote("FALSE"), Some(false));
    assert_eq!(parse_vote("true"), None);
    assert_eq!(parse_vote("false"), None);
    assert_eq!(parse_vote("1"), None);
    assert_eq!(parse_vote("0"), None);
    assert_eq!(parse_vote(""), None);
    assert_eq!(parse_vote("TRUE "), None);
    assert_eq!(parse_vote("ABSTAIN"), None);
}

#[test]
fn persisted_epoch_narrows_or_fails() {
    assert_eq!(persisted_epoch(0).unwrap(), 0);
    assert_eq!(persisted_epoch(7).unwrap(), 7);
    assert_eq!(persisted_epoch(i64::MAX as u64).unwrap(), i64::MAX);
    assert!(matches!(
        persisted_epoch(i64::MAX as u64 + 1),
        Err(ScabbardStoreError::Internal(_))
    ));
    assert!(matches!(persisted_epoch(u64::MAX), Err(ScabbardStoreError::Internal(_))));
    assert!(persisted_epoch(u64::MAX).unwrap_err().is_retryable());
}

#[test]
fn role_is_the_one_context_that_exists() {
    let id = service("svc-A::aaaa");
    assert_eq!(resolve_role(&id, 2, true, false).unwrap(), Context::Coordinator);
    assert_eq!(resolve_role(&id, 2, false, true).unwrap(), Context::Participant);
    let both = resolve_role(&id, 2, true, true).unwrap_err();
    assert!(!both.is_retryable());
    assert_eq!(
        both.message(),
        "Failed to add consensus event, contexts found for participant and coordinator with service_id: svc-A::aaaa epoch: 2"
    );
    let none = resolve_role(&id, -12, false, false).unwrap_err();
    assert_eq!(
        none.message(),
        "Failed to add consensus event, a context with service_id: svc-A::aaaa and epoch: -12 does not exist"
    );
    assert_eq!(Context::Coordinator.opposite(), Context::Participant);
    assert_eq!(Context::Participant.opposite(), Context::Coordinator);
}

#[test]
fn next_position_follows_the_last_one() {
    assert_eq!(next_position(None).unwrap(), 1);
    assert_eq!(next_position(Some(1)).unwrap(), 2);
    assert_eq!(next_position(Some(41)).unwrap(), 42);
    assert_eq!(next_position(Some(i32::MAX - 1)).unwrap(), i32::MAX);
    match next_position(Some(i32::MAX)) {
        Err(ScabbardStoreError::Internal(err)) => assert_eq!(
            err.message(),
            "Failed to add consensus event, the log has no position left"
        ),
        other => panic!("expected an internal error, got {:?}", other),
    }
}

#[test]
fn role_legality_table() {
    let receiver = service("svc-B::bbbb");
    let deliver = |message: Scabbard2pcMessage| Scabbard2pcEvent::Deliver(receiver.clone(), message);
    let coordinator_ok = vec![
        Scabbard2pcEvent::Alarm,
        Scabbard2pcEvent::Start(vec![1]),
        Scabbard2pcEvent::Vote(true),
        deliver(Scabbard2pcMessage::DecisionRequest),
        deliver(Scabbard2pcMessage::VoteResponse(true)),
    ];
    let coordinator_bad = vec![
        deliver(Scabbard2pcMessage::Commit),
        deliver(Scabbard2pcMessage::Abort),
        deliver(Scabbard2pcMessage::VoteRequest(vec![])),
    ];
    let participant_ok = vec![
        Scabbard2pcEvent::Alarm,
        Scabbard2pcEvent::Vote(false),
        deliver(Scabbard2pcMessage::DecisionRequest),
        deliver(Scabbard2pcMessage::Commit),
        deliver(Scabbard2pcMessage::Abort),
        deliver(Scabbard2pcMessage::VoteRequest(vec![2])),
    ];
    let participant_bad = vec![
        Scabbard2pcEvent::Start(vec![1]),
        deliver(Scabbard2pcMessage::VoteResponse(false)),
    ];
    for event in coordinator_ok {
        assert!(check_event(Context::Coordinator, &event).is_ok());
    }
    for event in coordinator_bad {
        assert!(is_invalid_state(&check_event(Context::Coordinator, &event)));
        assert!(is_invalid_state(&event_detail(Context::Coordinator, 1, &receiver, 1, &event)));
    }
    for event in participant_ok {
        assert!(check_event(Context::Participant, &event).is_ok());
    }
    for event in participant_bad {
        assert!(is_invalid_state(&check_event(Context::Participant, &event)));
        assert!(is_invalid_state(&event_detail(Context::Participant, 1, &receiver, 1, &event)));
    }
}

#[test]
fn header_row_is_pending_with_discriminator() {
    let row = event_header(&service("svc-A::aaaa"), 12, 3, &Scabbard2pcEvent::Vote(true));
    assert_eq!(row.service_id, "svc-A::aaaa");
    assert_eq!(row.epoch, 12);
    assert_eq!(row.position, 3);
    assert_eq!(row.executed_at, None);
    assert_eq!(row.event_type, "VOTE");
    let stored = row.with_id(77);
    assert_eq!(stored.id, 77);
    assert_eq!(stored.position, 3);
    assert_eq!(stored.event_type, "VOTE");
    assert_eq!(stored.duplicate(), stored);
}

#[test]
fn detail_rows_by_variant() {
    let id = service("svc-A::aaaa");
    let receiver = service("svc-B::bbbb");
    assert_eq!(
        event_detail(Context::Coordinator, 4, &id, 2, &Scabbard2pcEvent::Alarm).unwrap(),
        None
    );
    assert_eq!(
        event_detail(Context::Participant, 4, &id, 2, &Scabbard2pcEvent::Alarm).unwrap(),
        None
    );
    assert_eq!(
        event_detail(Context::Coordinator, 4, &id, 2, &Scabbard2pcEvent::Start(vec![1, 2])).unwrap(),
        Some(TwoPcConsensusEventDetail::Start(TwoPcConsensusStartEventModel {
            event_id: 4,
            service_id: "svc-A::aaaa".to_string(),
            epoch: 2,
            value: vec![1, 2],
        }))
    );
    assert_eq!(
        event_detail(Context::Participant, 4, &id, 2, &Scabbard2pcEvent::Vote(false)).unwrap(),
        Some(TwoPcConsensusEventDetail::Vote(TwoPcConsensusVoteEventModel {
            event_id: 4,
            service_id: "svc-A::aaaa".to_string(),
            epoch: 2,
            vote: "FALSE".to_string(),
        }))
    );
    let decision = Scabbard2pcEvent::Deliver(receiver.clone(), Scabbard2pcMessage::DecisionRequest);
    let expected = TwoPcConsensusEventDetail::Deliver(TwoPcConsensusDeliverEventModel {
        event_id: 4,
        service_id: "svc-A::aaaa".to_string(),
        epoch: 2,
        receiver_service_id: "svc-B::bbbb".to_string(),
        message_type: "DECISION_REQUEST".to_string(),
        vote_response: None,
        vote_request: None,
    });
    assert_eq!(
        event_detail(Context::Coordinator, 4, &id, 2, &decision).unwrap(),
        Some(expected.clone())
    );
    assert_eq!(
        event_detail(Context::Participant, 4, &id, 2, &decision).unwrap(),
        Some(expected.clone())
    );
    assert_eq!(expected.event_id(), 4);
    assert_eq!(expected.duplicate(), expected);
    let request = Scabbard2pcEvent::Deliver(receiver.clone(), Scabbard2pcMessage::VoteRequest(vec![9]));
    match event_detail(Context::Participant, 4, &id, 2, &request).unwrap() {
        Some(TwoPcConsensusEventDetail::Deliver(row)) => {
            assert_eq!(row.message_type, "VOTE_REQUEST");
            assert_eq!(row.vote_request, Some(vec![9]));
            assert_eq!(row.vote_response, None);
        }
        other => panic!("expected a deliver row, got {:?}", other),
    }
    let commit = Scabbard2pcEvent::Deliver(receiver, Scabbard2pcMessage::Commit);
    match event_detail(Context::Participant, 4, &id, 2, &commit).unwrap() {
        Some(TwoPcConsensusEventDetail::Deliver(row)) => {
            assert_eq!(row.message_type, "COMMIT");
            assert_eq!(row.vote_request, None);
            assert_eq!(row.vote_response, None);
        }
        other => panic!("expected a deliver row, got {:?}", other),
    }
}

#[test]
fn plan_checks_in_order_role_then_event_then_position() {
    let id = service("svc-A::aaaa");
    let start = ScabbardConsensusEvent::Scabbard2pcConsensusEvent(Scabbard2pcEvent::Start(vec![1]));
    let alarm = ScabbardConsensusEvent::Scabbard2pcConsensusEvent(Scabbard2pcEvent::Alarm);

    let (role, header) = plan_consensus_event(&id, 2, true, false, Some(6), &start).unwrap();
    assert_eq!(role, Context::Coordinator);
    assert_eq!(header.position, 7);
    assert_eq!(header.event_type, "START");
    assert_eq!(header.epoch, 2);
    assert_eq!(header.executed_at, None);
    let (role, header) = plan_consensus_event(&id, 2, false, true, None, &alarm).unwrap();
    assert_eq!(role, Context::Participant);
    assert_eq!(header.position, 1);

    // both contexts come before everything else
    let err = plan_consensus_event(&id, 2, true, true, Some(i32::MAX), &start).unwrap_err();
    assert!(err.message().contains("contexts found for participant and coordinator"));
    // a missing context comes before the event
    let err = plan_consensus_event(&id, 2, false, false, Some(i32::MAX), &start).unwrap_err();
    assert!(err.message().contains("does not exist"));
    // an event that the role may not record comes before a full log
    let err = plan_consensus_event(&id, 2, false, true, Some(i32::MAX), &start).unwrap_err();
    assert!(matches!(err, ScabbardStoreError::InvalidState(_)));
    assert!(err.message().contains("invalid participant event type"));
    // a full log is an internal error
    let err = plan_consensus_event(&id, 2, true, false, Some(i32::MAX), &start).unwrap_err();
    assert!(matches!(err, ScabbardStoreError::Internal(_)));
}

#[test]
fn rows_that_describe_an_event_are_read() {
    assert_eq!(read_event(&header(5, "ALARM"), None).unwrap(), Scabbard2pcEvent::Alarm);
    let start = TwoPcConsensusEventDetail::Start(TwoPcConsensusStartEventModel {
        event_id: 5,
        service_id: "svc-A::aaaa".to_string(),
        epoch: 2,
        value: vec![3, 4],
    });
    assert_eq!(
        read_event(&header(5, "START"), Some(&start)).unwrap(),
        Scabbard2pcEvent::Start(vec![3, 4])
    );
    let vote = TwoPcConsensusEventDetail::Vote(TwoPcConsensusVoteEventModel {
        event_id: 5,
        service_id: "svc-A::aaaa".to_string(),
        epoch: 2,
        vote: "TRUE".to_string(),
    });
    assert_eq!(
        read_event(&header(5, "VOTE"), Some(&vote)).unwrap(),
        Scabbard2pcEvent::Vote(true)
    );
    let deliver = TwoPcConsensusEventDetail::Deliver(deliver_row("VOTE_RESPONSE", Some("FALSE"), None));
    assert_eq!(
        read_event(&header(5, "DELIVER"), Some(&deliver)).unwrap(),
        Scabbard2pcEvent::Deliver(service("svc-B::bbbb"), Scabbard2pcMessage::VoteResponse(false))
    );
    assert_eq!(
        read_message(&deliver_row("VOTE_REQUEST", None, Some(vec![1]))),
        Some(Scabbard2pcMessage::VoteRequest(vec![1]))
    );
    assert_eq!(read_message(&deliver_row("COMMIT", None, None)), Some(Scabbard2pcMessage::Commit));
    assert_eq!(read_message(&deliver_row("ABORT", None, None)), Some(Scabbard2pcMessage::Abort));
    assert_eq!(
        read_message(&deliver_row("DECISION_REQUEST", None, None)),
        Some(Scabbard2pcMessage::DecisionRequest)
    );
}

#[test]
fn rows_that_describe_no_event_are_invalid_state() {
    let start = TwoPcConsensusEventDetail::Start(TwoPcConsensusStartEventModel {
        event_id: 5,
        service_id: "svc-A::aaaa".to_string(),
        epoch: 2,
        value: vec![3, 4],
    });
    let vote = |word: &str| {
        TwoPcConsensusEventDetail::Vote(TwoPcConsensusVoteEventModel {
            event_id: 5,
            service_id: "svc-A::aaaa".to_string(),
            epoch: 2,
            vote: word.to_string(),
        })
    };
    // an unknown discriminator
    assert!(is_invalid_state(&read_event(&header(5, "PAUSE"), None)));
    // an alarm with a detail row
    assert!(is_invalid_state(&read_event(&header(5, "ALARM"), Some(&start))));
    // a start without its detail row, or with the row of another variant
    assert!(is_invalid_state(&read_event(&header(5, "START"), None)));
    assert!(is_invalid_state(&read_event(&header(5, "START"), Some(&vote("TRUE")))));
    // a detail row that points at another event
    assert!(is_invalid_state(&read_event(&header(6, "START"), Some(&start))));
    // a vote in lower case
    assert!(is_invalid_state(&read_event(&header(5, "VOTE"), Some(&vote("true")))));
    match read_event(&header(5, "VOTE"), Some(&vote("yes"))) {
        Err(ScabbardStoreError::InvalidState(err)) => assert_eq!(
            err.message(),
            "Failed to read consensus event with id: 5, its rows do not describe an event"
        ),
        other => panic!("expected an invalid state error, got {:?}", other),
    }
    // deliver rows whose columns do not fit the message type
    assert_eq!(read_message(&deliver_row("VOTE_REQUEST", None, None)), None);
    assert_eq!(read_message(&deliver_row("VOTE_RESPONSE", None, None)), None);
    assert_eq!(read_message(&deliver_row("VOTE_RESPONSE", Some("true"), None)), None);
    assert_eq!(read_message(&deliver_row("VOTE_RESPONSE", Some("TRUE"), Some(vec![]))), None);
    assert_eq!(read_message(&deliver_row("COMMIT", Some("TRUE"), None)), None);
    assert_eq!(read_message(&deliver_row("ABORT", None, Some(vec![1]))), None);
    assert_eq!(read_message(&deliver_row("DECISION", None, None)), None);
    let bad = TwoPcConsensusEventDetail::Deliver(deliver_row("COMMIT", Some("TRUE"), None));
    assert!(is_invalid_state(&read_event(&header(5, "DELIVER"), Some(&bad))));
}
