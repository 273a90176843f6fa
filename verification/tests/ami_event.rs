use asterisk_rs::ami::codec::RawAmiMessage;
use asterisk_rs::ami::event::AmiEvent;

fn raw(headers: &[(&str, &str)]) -> RawAmiMessage {
    RawAmiMessage {
        headers: headers.iter().map(|(k, v)| (k.to_string(), v.to_string())).collect(),
        output: vec![],
        channel_variables: vec![],
    }
}

#[test]
fn parse_hangup_event() {
    let raw = RawAmiMessage {
        headers: vec![
            ("Event".into(), "Hangup".into()),
            ("Channel".into(), "SIP/100-0001".into()),
            ("Uniqueid".into(), "1234.5".into()),
            ("Cause".into(), "16".into()),
            ("Cause-txt".into(), "Normal Clearing".into()),
        ],
        output: vec![],
        channel_variables: vec![],
    };
    let event = AmiEvent::from_raw(&raw).expect("should parse hangup event");
    assert_eq!(event.event_name(), "Hangup");
    assert_eq!(event.channel(), Some("SIP/100-0001"));
    if let AmiEvent::Hangup { cause, cause_txt, .. } = &event {
        assert_eq!(*cause, 16);
        assert_eq!(cause_txt, "Normal Clearing");
    } else {
        panic!("expected Hangup variant");
    }
}

#[test]
fn parse_unknown_event() {
    let raw = RawAmiMessage {
        headers: vec![
            ("Event".into(), "CustomEvent".into()),
            ("Data".into(), "something".into()),
        ],
        output: vec![],
        channel_variables: vec![],
    };
    let event = AmiEvent::from_raw(&raw).expect("should parse unknown event");
    assert_eq!(event.event_name(), "CustomEvent");
    assert!(matches!(event, AmiEvent::Unknown { .. }));
}

#[test]
fn non_event_returns_none() {
    let raw = RawAmiMessage {
        headers: vec![("Response".into(), "Success".into())],
        output: vec![],
        channel_variables: vec![],
    };
    assert!(AmiEvent::from_raw(&raw).is_none());
}

#[test]
fn missing_required_field_is_malformed() {
    let r = raw(&[("Event", "Hangup"), ("Channel", "SIP/1"), ("Uniqueid", "1.1"), ("Cause-txt", "x")]);
    match AmiEvent::from_raw(&r).unwrap() {
        AmiEvent::Malformed { event_name, field, value, headers } => {
            assert_eq!(event_name, "Hangup");
            assert_eq!(field, "Cause");
            assert_eq!(value, None);
            assert!(headers.contains(&("Channel".to_string(), "SIP/1".to_string())));
        }
        other => panic!("expected Malformed, got {:?}", other),
    }
}

#[test]
fn unparsable_number_is_malformed_with_its_value() {
    let r = raw(&[
        ("Event", "Hangup"),
        ("Channel", "SIP/1"),
        ("Uniqueid", "1.1"),
        ("Cause", "sixteen"),
        ("Cause-txt", "x"),
    ]);
    match AmiEvent::from_raw(&r).unwrap() {
        AmiEvent::Malformed { field, value, .. } => {
            assert_eq!(field, "Cause");
            assert_eq!(value.as_deref(), Some("sixteen"));
        }
        other => panic!("expected Malformed, got {:?}", other),
    }
}

#[test]
fn malformed_event_redacts_secret_headers() {
    let r = raw(&[("Event", "Newstate"), ("Channel", "SIP/1"), ("Secret", "hunter2")]);
    match AmiEvent::from_raw(&r).unwrap() {
        AmiEvent::Malformed { field, headers, .. } => {
            assert_eq!(field, "ChannelState");
            assert!(headers.contains(&("Secret".to_string(), "[REDACTED]".to_string())));
            assert!(!headers.iter().any(|(_, v)| v == "hunter2"));
        }
        other => panic!("expected Malformed, got {:?}", other),
    }
}

#[test]
fn header_lookup_ignores_case() {
    let r = raw(&[("event", "FullyBooted"), ("STATUS", "Fully Booted")]);
    match AmiEvent::from_raw(&r).unwrap() {
        AmiEvent::FullyBooted { status } => assert_eq!(status, "Fully Booted"),
        other => panic!("expected FullyBooted, got {:?}", other),
    }
}

#[test]
fn event_name_matches_case_exactly() {
    let r = raw(&[("Event", "hangup")]);
    let e = AmiEvent::from_raw(&r).unwrap();
    assert!(matches!(e, AmiEvent::Unknown { .. }));
    assert_eq!(e.event_name(), "hangup");
}

#[test]
fn optional_fields_may_be_absent() {
    let r = raw(&[("Event", "VarSet"), ("Variable", "X"), ("Value", "1")]);
    match AmiEvent::from_raw(&r).unwrap() {
        AmiEvent::VarSet { channel, variable, value, unique_id } => {
            assert_eq!(channel, None);
            assert_eq!(variable, "X");
            assert_eq!(value, "1");
            assert_eq!(unique_id, None);
        }
        other => panic!("expected VarSet, got {:?}", other),
    }
    let e = AmiEvent::from_raw(&r).unwrap();
    assert_eq!(e.channel(), None);
    assert_eq!(e.unique_id(), None);
}

#[test]
fn fieldless_event() {
    let e = AmiEvent::from_raw(&raw(&[("Event", "DeadlockStart")])).unwrap();
    assert!(matches!(e, AmiEvent::DeadlockStart));
    assert_eq!(e.event_name(), "DeadlockStart");
}

#[test]
fn hyphenated_event_name() {
    let e = AmiEvent::from_raw(&raw(&[("Event", "AOC-S"), ("Channel", "c"), ("Uniqueid", "u")])).unwrap();
    assert!(matches!(e, AmiEvent::AocS { .. }));
    assert_eq!(e.event_name(), "AOC-S");
    assert_eq!(e.unique_id(), Some("u"));
}

#[test]
fn list_completion_markers() {
    let e = AmiEvent::from_raw(&raw(&[("Event", "CoreShowChannelMapComplete")])).unwrap();
    assert!(e.is_event_list_complete());
    let u = AmiEvent::from_raw(&raw(&[("Event", "ProcessComplete"), ("EventList", "complete")])).unwrap();
    assert!(u.is_event_list_complete());
    let v = AmiEvent::from_raw(&raw(&[("Event", "ProcessComplete")])).unwrap();
    assert!(!v.is_event_list_complete());
    let h = AmiEvent::from_raw(&raw(&[
        ("Event", "Hangup"),
        ("Channel", "c"),
        ("Uniqueid", "u"),
        ("Cause", "1"),
        ("Cause-txt", "t"),
    ]))
    .unwrap();
    assert!(!h.is_event_list_complete());
}

#[test]
fn user_event_keeps_all_headers_last_value_wins() {
    let r = raw(&[("Event", "UserEvent"), ("UserEvent", "Ping"), ("X", "1"), ("X", "2")]);
    match AmiEvent::from_raw(&r).unwrap() {
        AmiEvent::UserEvent { user_event, headers, channel, .. } => {
            assert_eq!(user_event, "Ping");
            assert_eq!(channel, None);
            assert!(headers.contains(&("X".to_string(), "2".to_string())));
            assert!(!headers.contains(&("X".to_string(), "1".to_string())));
        }
        other => panic!("expected UserEvent, got {:?}", other),
    }
}

#[test]
fn channel_and_unique_id_come_from_their_headers() {
    let e = AmiEvent::from_raw(&raw(&[
        ("Event", "Hangup"),
        ("Channel", "SIP/100-01"),
        ("Uniqueid", "1.5"),
        ("Cause", "16"),
        ("Cause-txt", "Normal"),
    ]))
    .unwrap();
    assert_eq!(e.channel(), Some("SIP/100-01"));
    assert_eq!(e.unique_id(), Some("1.5"));
    let v = AmiEvent::from_raw(&raw(&[("Event", "VarSet"), ("Variable", "X"), ("Value", "1")])).unwrap();
    assert_eq!(v.channel(), None);
    assert_eq!(v.unique_id(), None);
    let a = AmiEvent::from_raw(&raw(&[("Event", "Alarm"), ("Alarm", "Red"), ("Channel", "1")])).unwrap();
    assert_eq!(a.channel(), None);
    let u = AmiEvent::from_raw(&raw(&[("Event", "Brandnew"), ("Channel", "X"), ("Uniqueid", "9")])).unwrap();
    assert_eq!(u.channel(), None);
    assert_eq!(u.unique_id(), None);
}
