use asterisk_rs::ami::client::AmiClientBuilder;
use asterisk_rs::ami::codec::RawAmiMessage;
use asterisk_rs::ami::error::{AmiError, AuthError, TimeoutError};
use asterisk_rs::ami::event::AmiEvent;
use asterisk_rs::ami::response::{AmiResponse, ListOutcome, PendingActions, RequestLifecycle};
use asterisk_rs::ami::session::{
    after_exit, compute_md5_key, dispatch_message, login_after_challenge, login_result, login_start, timeout_outcome,
    ConnectionExit, LoginStep, ReconnectStep, Routed,
};

fn raw(headers: &[(&str, &str)]) -> RawAmiMessage {
    RawAmiMessage {
        headers: headers.iter().map(|(k, v)| (k.to_string(), v.to_string())).collect(),
        output: vec![],
        channel_variables: vec![],
    }
}

fn pairs(v: &[(&str, &str)]) -> Vec<(String, String)> {
    v.iter().map(|(k, a)| (k.to_string(), a.to_string())).collect()
}

#[test]
fn md5_key_is_lower_hex_of_challenge_then_secret() {
    assert_eq!(compute_md5_key("ab", "c"), "900150983cd24fb0d6963f7d28e17f72");
    assert_eq!(compute_md5_key("", ""), "d41d8cd98f00b204e9800998ecf8427e");
}

#[test]
fn login_with_challenge() {
    let mut counter = 1u64;
    let first = login_start(&mut counter);
    assert_eq!(first.headers, pairs(&[("Action", "Challenge"), ("ActionID", "1"), ("AuthType", "md5")]));
    let resp = AmiResponse::from_raw(&raw(&[("Response", "Success"), ("Challenge", "ab")])).unwrap();
    match login_after_challenge(&resp, "admin", "c", true, &mut counter) {
        LoginStep::Send(m) => assert_eq!(
            m.headers,
            pairs(&[
                ("Action", "Login"),
                ("ActionID", "2"),
                ("AuthType", "md5"),
                ("Username", "admin"),
                ("Key", "900150983cd24fb0d6963f7d28e17f72"),
            ])
        ),
        LoginStep::Fail(_) => panic!("expected a login message"),
    }
}

#[test]
fn no_challenge_falls_back_or_fails() {
    let resp = AmiResponse::from_raw(&raw(&[("Response", "Error"), ("Message", "no")])).unwrap();
    let mut counter = 3u64;
    match login_after_challenge(&resp, "admin", "pw", true, &mut counter) {
        LoginStep::Fail(AmiError::Auth(AuthError::Rejected { reason })) => {
            assert!(reason.starts_with("server did not provide MD5 challenge"))
        }
        _ => panic!("expected a refusal"),
    }
    assert_eq!(counter, 3);
    match login_after_challenge(&resp, "admin", "pw", false, &mut counter) {
        LoginStep::Send(m) => assert_eq!(
            m.headers,
            pairs(&[("Action", "Login"), ("ActionID", "3"), ("Username", "admin"), ("Secret", "pw")])
        ),
        LoginStep::Fail(_) => panic!("expected a plaintext login"),
    }
}

#[test]
fn login_outcome() {
    let ok = AmiResponse::from_raw(&raw(&[("Response", "Success")])).unwrap();
    assert!(login_result(&ok).is_ok());
    let no = AmiResponse::from_raw(&raw(&[("Response", "Error"), ("Message", "Authentication failed")])).unwrap();
    match login_result(&no) {
        Err(AmiError::Auth(AuthError::Rejected { reason })) => assert_eq!(reason, "Authentication failed"),
        _ => panic!("expected a rejection"),
    }
}

#[test]
fn routes_responses_and_events() {
    let mut p = PendingActions::new();
    let mut ping: Option<String> = Some("9".to_string());
    p.register("1".to_string());
    match dispatch_message(raw(&[("Response", "Success"), ("ActionID", "1")]), &mut p, &mut ping) {
        Routed::Response(true, r) => assert_eq!(r.action_id, "1"),
        _ => panic!("expected a delivered response"),
    }
    match dispatch_message(raw(&[("Response", "Success"), ("ActionID", "9"), ("Ping", "Pong")]), &mut p, &mut ping) {
        Routed::Pong => assert!(ping.is_none()),
        _ => panic!("expected a pong"),
    }
    p.register_event_list("5".to_string());
    let ev = raw(&[("Event", "PeerEntry"), ("ActionID", "5")]);
    assert!(matches!(dispatch_message(ev, &mut p, &mut ping), Routed::ListEvent(ListOutcome::Consumed, _)));
    let done = raw(&[("Event", "PeerlistComplete"), ("ActionID", "5"), ("EventList", "Complete")]);
    match dispatch_message(done, &mut p, &mut ping) {
        Routed::ListEvent(ListOutcome::Finished(r), e) => {
            assert_eq!(r.events.len(), 2);
            assert_eq!(e.event_name(), "PeerlistComplete");
        }
        _ => panic!("expected the list to finish"),
    }
    assert!(matches!(dispatch_message(raw(&[("Event", "SomethingNew")]), &mut p, &mut ping), Routed::Event(AmiEvent::Unknown { .. })));
    assert!(matches!(dispatch_message(raw(&[("Foo", "Bar")]), &mut p, &mut ping), Routed::Unclassified));
}

#[test]
fn timed_out_callers() {
    let mut queued = RequestLifecycle::new();
    assert!(matches!(timeout_outcome(&mut queued, "1", 30000), AmiError::Timeout(TimeoutError::Action { elapsed_ms: 30000 })));
    let mut sent = RequestLifecycle::new();
    sent.begin_write();
    match timeout_outcome(&mut sent, "2", 30000) {
        AmiError::OutcomeUnknown { action_id } => assert_eq!(action_id, "2"),
        _ => panic!("expected outcome unknown"),
    }
}

#[test]
fn builder_checks_settings() {
    assert!(matches!(AmiClientBuilder::new().settings(), Err(AmiError::Auth(AuthError::InvalidCredentials))));
    let zero = AmiClientBuilder::new().credentials("u", "p").event_capacity(0).settings();
    match zero {
        Err(AmiError::InvalidConfig { details }) => assert_eq!(details, "event_capacity must be greater than zero"),
        _ => panic!("expected a config error"),
    }
    let ping = AmiClientBuilder::new().credentials("u", "p").ping_interval(0).settings();
    assert!(matches!(ping, Err(AmiError::InvalidConfig { .. })));
    let s = AmiClientBuilder::new().host("pbx").port(5039).credentials("u", "p").settings().ok().unwrap();
    assert_eq!(s.address, "pbx:5039");
    assert_eq!(s.credentials.username(), "u");
    assert_eq!(s.credentials.secret(), "p");
    assert_eq!(s.event_capacity, 1024);
    assert!(!s.require_challenge);
}

#[test]
fn reconnects_until_the_retry_limit() {
    assert!(matches!(after_exit(ConnectionExit::Shutdown, 0, None), ReconnectStep::Stop));
    assert!(matches!(after_exit(ConnectionExit::Fatal, 0, Some(3)), ReconnectStep::Stop));
    assert!(matches!(
        after_exit(ConnectionExit::Retry, 2, Some(3)),
        ReconnectStep::Reconnect { delay_attempt: 2, next_attempt: 3 }
    ));
    assert!(matches!(after_exit(ConnectionExit::Retry, 3, Some(3)), ReconnectStep::GiveUp));
    assert!(matches!(
        after_exit(ConnectionExit::Retry, 40, None),
        ReconnectStep::Reconnect { delay_attempt: 40, next_attempt: 41 }
    ));
}
