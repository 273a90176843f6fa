use asterisk_rs::ami::codec::RawAmiMessage;
use asterisk_rs::ami::error::AmiError;
use asterisk_rs::ami::event::AmiEvent;
use asterisk_rs::ami::response::{
    event_list_terminal, AmiResponse, EventListTerminal, ListOutcome, PendingActions, RequestLifecycle,
    RequestState, MAX_EVENT_LIST_BYTES, MAX_IN_FLIGHT_ACTIONS,
};

fn raw(headers: &[(&str, &str)]) -> RawAmiMessage {
    RawAmiMessage {
        headers: headers.iter().map(|(k, v)| (k.to_string(), v.to_string())).collect(),
        output: vec![],
        channel_variables: vec![],
    }
}

fn response(id: &str, kind: &str) -> AmiResponse {
    AmiResponse::from_raw(&raw(&[("Response", kind), ("ActionID", id)])).unwrap()
}

fn event(headers: &[(&str, &str)]) -> AmiEvent {
    AmiEvent::from_raw(&raw(headers)).unwrap()
}

#[test]
fn response_from_raw() {
    let r = AmiResponse::from_raw(&raw(&[("Response", "Follows"), ("ActionID", "9"), ("Message", "ok")])).unwrap();
    assert!(r.success);
    assert_eq!(r.action_id, "9");
    assert_eq!(r.response_type, "Follows");
    assert_eq!(r.message.as_deref(), Some("ok"));
    assert_eq!(r.get("message"), Some("ok"));
    let e = AmiResponse::from_raw(&raw(&[("Response", "Error")])).unwrap();
    assert!(!e.success);
    assert_eq!(e.action_id, "");
}

#[test]
fn event_with_response_header_is_not_a_response() {
    assert!(AmiResponse::from_raw(&raw(&[("Event", "OriginateResponse"), ("Response", "Success")])).is_none());
    assert!(AmiResponse::from_raw(&raw(&[("Event", "Hangup")])).is_none());
}

#[test]
fn deliver_to_waiting_caller_once() {
    let mut p = PendingActions::new();
    p.register("1".to_string());
    assert_eq!(p.pending_count(), 1);
    assert!(p.deliver(&response("1", "Success"), true));
    assert!(!p.deliver(&response("1", "Success"), true));
    assert_eq!(p.pending_count(), 0);
}

#[test]
fn event_list_collects_until_complete() {
    let mut p = PendingActions::new();
    p.register_event_list("7".to_string());
    assert!(p.contains_event_list("7"));
    assert!(matches!(p.deliver_event_list_response(response("7", "Success")), ListOutcome::Consumed));
    let e1 = event(&[("Event", "PeerEntry"), ("ActionID", "7")]);
    assert!(matches!(p.deliver_event_list_event("7", e1), ListOutcome::Consumed));
    let done = event(&[("Event", "PeerlistComplete"), ("EventList", "Complete")]);
    match p.deliver_event_list_event("7", done) {
        ListOutcome::Finished(r) => {
            assert_eq!(r.response.action_id, "7");
            assert!(r.response.success);
            assert_eq!(r.events.len(), 2);
        }
        _ => panic!("expected the list to finish"),
    }
    assert!(!p.contains_event_list("7"));
    assert!(matches!(p.deliver_event_list_event("7", event(&[("Event", "X")])), ListOutcome::NotPending));
}

#[test]
fn failed_response_finishes_list_without_events() {
    let mut p = PendingActions::new();
    p.register_event_list("2".to_string());
    assert!(matches!(p.deliver_event_list_event("2", event(&[("Event", "X")])), ListOutcome::Consumed));
    match p.deliver_event_list_response(response("2", "Error")) {
        ListOutcome::Finished(r) => {
            assert!(!r.response.success);
            assert!(r.events.is_empty());
        }
        _ => panic!("expected the list to finish"),
    }
    assert_eq!(p.pending_count(), 0);
}

#[test]
fn completion_before_response_reports_missing_response() {
    let mut p = PendingActions::new();
    p.register_event_list("3".to_string());
    match p.deliver_event_list_event("3", event(&[("Event", "StatusComplete"), ("Items", "0")])) {
        ListOutcome::Finished(r) => {
            assert!(!r.response.success);
            assert_eq!(r.response.action_id, "3");
            assert_eq!(r.response.message.as_deref(), Some("event list completed before response received"));
            assert_eq!(r.events.len(), 1);
        }
        _ => panic!("expected the list to finish"),
    }
}

#[test]
fn cancelled_list_fails() {
    let mut p = PendingActions::new();
    p.register_event_list("4".to_string());
    let cancel = event(&[("Event", "Whatever"), ("EventList", "Cancelled")]);
    assert_eq!(event_list_terminal(&cancel), EventListTerminal::Cancelled);
    match p.deliver_event_list_event("4", cancel) {
        ListOutcome::Failed(AmiError::EventListCancelled { action_id }) => assert_eq!(action_id, "4"),
        _ => panic!("expected a cancellation"),
    }
}

#[test]
fn byte_limit_fails_the_list_and_releases_its_bytes() {
    let mut p = PendingActions::new();
    p.register_event_list("5".to_string());
    let big = p.deliver_event_list_event_with_metadata(
        "5",
        event(&[("Event", "X")]),
        MAX_EVENT_LIST_BYTES + 1,
        EventListTerminal::Continue,
    );
    match big {
        ListOutcome::Failed(AmiError::EventListByteLimitExceeded { action_id, limit }) => {
            assert_eq!(action_id, "5");
            assert_eq!(limit, MAX_EVENT_LIST_BYTES);
        }
        _ => panic!("expected the byte limit"),
    }
    assert_eq!(p.pending_count(), 0);
}

#[test]
fn connection_byte_limit_spans_lists() {
    let mut p = PendingActions::new();
    p.register_event_list("a".to_string());
    p.register_event_list("b".to_string());
    p.register_event_list("c".to_string());
    for id in ["a", "b"] {
        let o = p.deliver_event_list_event_with_metadata(id, event(&[("Event", "X")]), MAX_EVENT_LIST_BYTES, EventListTerminal::Continue);
        assert!(matches!(o, ListOutcome::Consumed));
    }
    let o = p.deliver_event_list_event_with_metadata("c", event(&[("Event", "X")]), 1, EventListTerminal::Continue);
    assert!(matches!(o, ListOutcome::Failed(AmiError::EventListConnectionByteLimitExceeded { .. })));
    assert!(p.remove_event_list("a").is_some());
    let o = p.deliver_event_list_event_with_metadata("b", event(&[("Event", "X")]), 0, EventListTerminal::Continue);
    assert!(matches!(o, ListOutcome::Consumed));
}

#[test]
fn deadlines_expire_managed_requests_only() {
    let mut p = PendingActions::new();
    p.register("plain".to_string());
    p.register_managed("soon".to_string(), 100);
    p.register_managed("later".to_string(), 500);
    p.register_managed_event_list("list".to_string(), 50);
    assert_eq!(p.next_deadline(), Some(50));
    let expired = p.expire(100);
    assert_eq!(expired, vec!["soon".to_string(), "list".to_string()]);
    assert_eq!(p.pending_count(), 2);
    assert_eq!(p.next_deadline(), Some(500));
    let failed = p.fail_all_unknown();
    assert_eq!(failed, vec!["later".to_string()]);
    assert_eq!(p.pending_count(), 0);
}

#[test]
fn in_flight_limit() {
    let mut p = PendingActions::new();
    for i in 0..MAX_IN_FLIGHT_ACTIONS {
        assert!(!p.at_in_flight_limit());
        p.register(i.to_string());
    }
    assert!(p.at_in_flight_limit());
    p.register("0".to_string());
    assert_eq!(p.pending_count(), MAX_IN_FLIGHT_ACTIONS);
    p.cancel_all();
    assert_eq!(p.pending_count(), 0);
}

#[test]
fn lifecycle_cancel_or_write() {
    let mut a = RequestLifecycle::new();
    assert!(!a.may_have_executed());
    assert!(a.cancel_queued());
    assert!(!a.begin_write());
    assert_eq!(a.state, RequestState::Cancelled);
    let mut b = RequestLifecycle::new();
    assert!(b.begin_write());
    assert!(!b.cancel_queued());
    assert!(b.may_have_executed());
    b.mark_sent();
    b.mark_completed();
    assert!(b.may_have_executed());
}

#[test]
fn deliver_to_a_dropped_receiver_reports_failure_and_forgets_the_caller() {
    let mut p = PendingActions::new();
    p.register("4".to_string());
    assert!(!p.deliver(&response("4", "Success"), false));
    assert_eq!(p.pending_count(), 0);
    assert!(!p.deliver(&response("4", "Success"), true));
    assert!(!p.deliver(&response("never", "Success"), true));
}
