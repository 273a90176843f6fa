use asterisk_rs::ami::action::{
    next_action_id, AmiAction, ChallengeAction, HangupAction, LoginAction, OriginateAction, PingAction,
    QueueAddAction, UpdateConfigAction,
};
use asterisk_rs::ami::action::fax::{FaxSessionAction, FAXSessionAction};

fn pairs(v: &[(&str, &str)]) -> Vec<(String, String)> {
    v.iter().map(|(k, a)| (k.to_string(), a.to_string())).collect()
}

#[test]
fn action_ids_count_up() {
    let mut counter = 41u64;
    assert_eq!(next_action_id(&mut counter), "41");
    assert_eq!(next_action_id(&mut counter), "42");
    assert_eq!(counter, 43);
    let mut top = u64::MAX;
    assert_eq!(next_action_id(&mut top), "18446744073709551615");
    assert_eq!(top, 0);
}

#[test]
fn login_headers() {
    let a = LoginAction::new("admin", "s3cret");
    assert_eq!(a.action_name(), "Login");
    assert_eq!(a.secret(), "s3cret");
    assert_eq!(a.to_headers(), pairs(&[("Username", "admin"), ("Secret", "s3cret")]));
}

#[test]
fn challenge_and_ping() {
    assert_eq!(ChallengeAction.to_headers(), pairs(&[("AuthType", "md5")]));
    assert_eq!(PingAction.action_name(), "Ping");
    assert!(PingAction.to_headers().is_empty());
}

#[test]
fn originate_headers_in_order() {
    let a = OriginateAction::new("SIP/100")
        .context("default")
        .extension("200")
        .priority(1)
        .timeout_ms(30000)
        .caller_id("Bob <100>")
        .async_originate(true)
        .variable("A", "1")
        .variable("B", "2");
    assert_eq!(
        a.to_headers(),
        pairs(&[
            ("Channel", "SIP/100"),
            ("Context", "default"),
            ("Exten", "200"),
            ("Priority", "1"),
            ("Timeout", "30000"),
            ("CallerID", "Bob <100>"),
            ("Async", "true"),
            ("Variable", "A=1"),
            ("Variable", "B=2"),
        ])
    );
}

#[test]
fn to_message_adds_action_and_id() {
    let mut counter = 5u64;
    let (id, m) = HangupAction::new("SIP/1").cause(16).to_message(&mut counter);
    assert_eq!(id, "5");
    assert_eq!(counter, 6);
    assert_eq!(
        m.headers,
        pairs(&[("Action", "Hangup"), ("ActionID", "5"), ("Channel", "SIP/1"), ("Cause", "16")])
    );
    assert!(m.output.is_empty());
    assert!(m.channel_variables.is_empty());
}

#[test]
fn optional_bool_is_written_as_text() {
    let a = QueueAddAction::new("support", "SIP/1").paused(false).penalty(2);
    assert_eq!(
        a.to_headers(),
        pairs(&[("Queue", "support"), ("Interface", "SIP/1"), ("Penalty", "2"), ("Paused", "false")])
    );
}

#[test]
fn update_config_numbers_its_lines() {
    let a = UpdateConfigAction {
        src_filename: "a.conf".to_string(),
        dst_filename: "b.conf".to_string(),
        reload: None,
        actions: pairs(&[("NewCat", "general"), ("Append", "x")]),
    };
    assert_eq!(
        a.to_headers(),
        pairs(&[
            ("SrcFilename", "a.conf"),
            ("DstFilename", "b.conf"),
            ("Action-000000", "NewCat"),
            ("Cat-000000", "general"),
            ("Action-000001", "Append"),
            ("Cat-000001", "x"),
        ])
    );
}

#[test]
fn fax_alias_names_the_same_action() {
    let a: FAXSessionAction = FaxSessionAction { session_number: "3".to_string() };
    assert_eq!(a.action_name(), "FAXSession");
    assert_eq!(a.to_headers(), pairs(&[("SessionNumber", "3")]));
}
