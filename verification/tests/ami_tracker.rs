use asterisk_rs::ami::codec::RawAmiMessage;
use asterisk_rs::ami::event::AmiEvent;
use asterisk_rs::ami::tracker::{CallTracker, CallTrackerConfig};

fn event(headers: &[(&str, &str)]) -> AmiEvent {
    let raw = RawAmiMessage {
        headers: headers.iter().map(|(k, v)| (k.to_string(), v.to_string())).collect(),
        output: vec![],
        channel_variables: vec![],
    };
    AmiEvent::from_raw(&raw).unwrap()
}

fn new_channel(uid: &str) -> AmiEvent {
    event(&[
        ("Event", "Newchannel"),
        ("Channel", "SIP/1"),
        ("ChannelState", "0"),
        ("ChannelStateDesc", "Down"),
        ("CallerIDNum", "100"),
        ("CallerIDName", "Bob"),
        ("Uniqueid", uid),
        ("Linkedid", uid),
    ])
}

fn hangup(uid: &str) -> AmiEvent {
    event(&[("Event", "Hangup"), ("Channel", "SIP/1"), ("Uniqueid", uid), ("Cause", "16"), ("Cause-txt", "Normal")])
}

#[test]
fn call_completes_on_hangup() {
    let mut t = CallTracker::new();
    assert!(t.handle_event(new_channel("1.1"), 1000).is_none());
    let rename = event(&[("Event", "Rename"), ("Channel", "SIP/1"), ("Newname", "SIP/2"), ("Uniqueid", "1.1")]);
    assert!(t.handle_event(rename, 1500).is_none());
    let done = t.handle_event(hangup("1.1"), 4000).expect("completed call");
    assert_eq!(done.channel, "SIP/2");
    assert_eq!(done.unique_id, "1.1");
    assert_eq!(done.linked_id, "1.1");
    assert_eq!(done.start_time, 1000);
    assert_eq!(done.end_time, 4000);
    assert_eq!(done.duration_ms, 3000);
    assert_eq!(done.cause, 16);
    assert_eq!(done.cause_txt, "Normal");
    assert_eq!(done.events.len(), 3);
    assert_eq!(t.stats().active_calls, 0);
}

#[test]
fn events_for_unknown_calls_are_ignored() {
    let mut t = CallTracker::new();
    assert!(t.handle_event(hangup("9.9"), 10).is_none());
    assert_eq!(t.stats().active_calls, 0);
}

#[test]
fn history_is_bounded() {
    let mut cfg = CallTrackerConfig::default();
    cfg.max_events_per_call = 2;
    let mut t = CallTracker::with_config(cfg);
    t.handle_event(new_channel("1"), 0);
    for _ in 0..3 {
        t.handle_event(event(&[("Event", "Hold"), ("Channel", "SIP/1"), ("Uniqueid", "1")]), 1);
    }
    let done = t.handle_event(hangup("1"), 2).unwrap();
    assert_eq!(done.events.len(), 2);
    assert_eq!(done.events_truncated, 3);
    assert_eq!(t.stats().truncated_events, 3);
}

#[test]
fn oldest_call_is_evicted_when_full() {
    let mut cfg = CallTrackerConfig::default();
    cfg.max_active_calls = 2;
    let mut t = CallTracker::with_config(cfg);
    t.handle_event(new_channel("a"), 5);
    t.handle_event(new_channel("b"), 3);
    t.handle_event(new_channel("c"), 9);
    assert_eq!(t.stats().active_calls, 2);
    assert_eq!(t.stats().active_calls_evicted, 1);
    assert!(t.handle_event(hangup("b"), 10).is_none());
    assert!(t.handle_event(hangup("a"), 10).is_some());
}

#[test]
fn stale_calls_are_evicted() {
    let mut cfg = CallTrackerConfig::default();
    cfg.call_ttl_ms = 100;
    let mut t = CallTracker::with_config(cfg);
    t.handle_event(new_channel("old"), 0);
    t.handle_event(new_channel("new"), 150);
    let evicted = t.evict_stale(200);
    assert_eq!(evicted.len(), 1);
    assert_eq!(evicted[0].unique_id, "old");
    assert_eq!(evicted[0].cause, 0);
    assert_eq!(evicted[0].cause_txt, "ttl eviction: no hangup received");
    assert_eq!(evicted[0].duration_ms, 200);
    assert_eq!(t.stats().active_calls, 1);
    assert_eq!(t.stats().active_calls_evicted, 1);
}

#[test]
fn lag_invalidates() {
    let mut t = CallTracker::new();
    t.handle_event(new_channel("x"), 0);
    t.on_lagged(5);
    let s = t.stats();
    assert!(!s.valid);
    assert_eq!(s.lagged_events, 5);
    assert_eq!(s.active_calls, 0);
    t.record_lost();
    assert_eq!(t.dropped_count(), 1);
}

#[test]
fn config_is_normalized() {
    let cfg = CallTrackerConfig {
        call_ttl_ms: 1,
        eviction_interval_ms: 0,
        max_active_calls: 0,
        max_events_per_call: 0,
        completed_capacity: 0,
    }
    .normalized();
    assert_eq!(cfg.eviction_interval_ms, 1);
    assert_eq!(cfg.max_active_calls, 1);
    assert_eq!(cfg.max_events_per_call, 1);
    assert_eq!(cfg.completed_capacity, 1);
}
