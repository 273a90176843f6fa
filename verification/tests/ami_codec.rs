use asterisk_rs::ami::codec::{AmiCodec, RawAmiMessage};
use asterisk_rs::ami::error::{AmiError, ProtocolError};
use asterisk_rs::ami::redact::redacted_header_value;
use bytes::BytesMut;

fn msg(headers: &[(&str, &str)]) -> RawAmiMessage {
    RawAmiMessage {
        headers: headers.iter().map(|(k, v)| (k.to_string(), v.to_string())).collect(),
        output: vec![],
        channel_variables: vec![],
    }
}

#[test]
fn decodes_banner_then_message() {
    let mut codec = AmiCodec::new();
    let mut buf = BytesMut::from(&b"Asterisk Call Manager/5.0.1\r\nResponse: Success\r\nActionID: 7\r\n\r\n"[..]);
    let m = codec.decode(&mut buf).unwrap().expect("a message");
    assert_eq!(m.get("response"), Some("Success"));
    assert_eq!(m.get("ActionID"), Some("7"));
    assert!(m.is_response());
    assert!(!m.is_event());
    assert!(buf.is_empty());
    assert!(codec.banner_consumed);
}

#[test]
fn incomplete_message_waits_for_more() {
    let mut codec = AmiCodec::new();
    let mut buf = BytesMut::from(&b"Asterisk Call Manager/5.0.1\r\nEvent: Hangup\r\n"[..]);
    assert!(codec.decode(&mut buf).unwrap().is_none());
    buf.extend_from_slice(b"Channel: SIP/1\r\n\r\n");
    let m = codec.decode(&mut buf).unwrap().expect("a message");
    assert_eq!(m.get("Event"), Some("Hangup"));
    assert_eq!(m.get("Channel"), Some("SIP/1"));
}

#[test]
fn rejects_a_missing_banner() {
    let mut codec = AmiCodec::new();
    let mut buf = BytesMut::from(&b"HTTP/1.1 200 OK\r\n"[..]);
    assert!(codec.decode(&mut buf).is_err());
}

#[test]
fn channel_variables_are_collected() {
    let mut codec = AmiCodec::new();
    let mut buf = BytesMut::from(
        &b"Asterisk Call Manager/5.0.1\r\nEvent: Newstate\r\nChanVariable(FOO): bar\r\nChanVariable(FOO): baz\r\n\r\n"[..],
    );
    let m = codec.decode(&mut buf).unwrap().expect("a message");
    assert_eq!(m.get_variable("FOO"), Some("baz"));
    assert_eq!(m.channel_variables.len(), 1);
    assert_eq!(m.get("ChanVariable(FOO)"), None);
}

#[test]
fn follows_response_keeps_output_lines() {
    let mut codec = AmiCodec::new();
    let mut buf = BytesMut::from(
        &b"Asterisk Call Manager/5.0.1\r\nResponse: Follows\r\nActionID: 1\r\nline one\r\n\r\nline: two\r\n--END COMMAND--\r\n\r\n"[..],
    );
    let m = codec.decode(&mut buf).unwrap().expect("a message");
    assert_eq!(m.get("Response"), Some("Follows"));
    assert_eq!(m.output, vec!["line one".to_string(), String::new(), "line: two".to_string()]);
    assert!(buf.is_empty());
}

#[test]
fn empty_frames_are_skipped() {
    let mut codec = AmiCodec::new();
    let mut buf = BytesMut::from(&b"Asterisk Call Manager/5.0.1\r\n\r\nEvent: FullyBooted\r\n\r\n"[..]);
    let m = codec.decode(&mut buf).unwrap().expect("a message");
    assert_eq!(m.get("Event"), Some("FullyBooted"));
}

#[test]
fn encodes_headers_and_variables() {
    let mut codec = AmiCodec::new();
    let mut m = msg(&[("Action", "Ping"), ("ActionID", "3")]);
    m.channel_variables.push(("X".to_string(), "1".to_string()));
    let mut out = BytesMut::new();
    codec.encode(m, &mut out).unwrap();
    assert_eq!(&out[..], &b"Action: Ping\r\nActionID: 3\r\nChanVariable(X): 1\r\n\r\n"[..]);
}

#[test]
fn refuses_line_breaks_in_values() {
    let mut codec = AmiCodec::new();
    let mut out = BytesMut::new();
    assert!(codec.encode(msg(&[("Action", "Ping\r\nAction: Logoff")]), &mut out).is_err());
    assert!(out.is_empty());
}

#[test]
fn encode_then_decode_round_trips() {
    let mut codec = AmiCodec::new();
    let mut buf = BytesMut::from(&b"Asterisk Call Manager/5.0.1\r\n"[..]);
    codec.encode(msg(&[("Event", "UserEvent"), ("UserEvent", "Hello"), ("Data", "a b")]), &mut buf).unwrap();
    let m = codec.decode(&mut buf).unwrap().expect("a message");
    assert_eq!(m.headers, msg(&[("Event", "UserEvent"), ("UserEvent", "Hello"), ("Data", "a b")]).headers);
}

#[test]
fn get_all_and_to_map() {
    let m = msg(&[("A", "1"), ("a", "2"), ("B", "3")]);
    assert_eq!(m.get_all("A"), vec!["1", "2"]);
    let map = m.to_map();
    assert!(map.contains(&("A".to_string(), "1".to_string())));
    assert!(map.contains(&("a".to_string(), "2".to_string())));
    assert_eq!(m.retained_size(), 6);
}

#[test]
fn invalid_utf8_becomes_replacement_characters() {
    let mut codec = AmiCodec::new();
    let mut buf = BytesMut::from(&b"Asterisk Call Manager/5.0.1\r\nEvent: X\r\nData: a\xffb\r\n\r\n"[..]);
    let m = codec.decode(&mut buf).unwrap().expect("a message");
    assert_eq!(m.get("Data"), Some("a\u{fffd}b"));
}

#[test]
fn illegal_key_is_quoted_in_the_error() {
    let mut codec = AmiCodec::new();
    let mut out = BytesMut::new();
    match codec.encode(msg(&[("a\nb", "1")]), &mut out) {
        Err(AmiError::Protocol(ProtocolError::MalformedMessage { details })) => {
            assert_eq!(details, "header key contains illegal line terminator: \"a\\nb\"")
        }
        _ => panic!("expected a malformed-message error"),
    }
}

#[test]
fn sensitive_header_values_are_hidden() {
    assert_eq!(redacted_header_value("Secret", "hunter2"), "[REDACTED]");
    assert_eq!(redacted_header_value("X-Api-Key", "k"), "[REDACTED]");
    assert_eq!(redacted_header_value("Channel", "SIP/100"), "SIP/100");
}

#[test]
fn encode_then_decode_keeps_channel_variables_and_the_rest() {
    let mut codec = AmiCodec::new();
    let mut buf = BytesMut::from(&b"Asterisk Call Manager/5.0.1\r\n"[..]);
    let mut sent = msg(&[("Event", "Newchannel"), ("Channel", "PJSIP/100-0001")]);
    sent.channel_variables = vec![
        ("CALLERID".to_string(), "Alice <100>".to_string()),
        ("déjà".to_string(), "vu".to_string()),
    ];
    codec.encode(sent, &mut buf).unwrap();
    buf.extend_from_slice(b"Event: Pa");
    let m = codec.decode(&mut buf).unwrap().expect("a message");
    assert_eq!(m.headers, msg(&[("Event", "Newchannel"), ("Channel", "PJSIP/100-0001")]).headers);
    assert_eq!(
        m.channel_variables,
        vec![
            ("CALLERID".to_string(), "Alice <100>".to_string()),
            ("déjà".to_string(), "vu".to_string()),
        ]
    );
    assert!(m.output.is_empty());
    assert_eq!(&buf[..], b"Event: Pa");
}

#[test]
fn first_of_get_all_is_get() {
    let m = msg(&[("Variable", "a=1"), ("Other", "x"), ("variable", "b=2")]);
    assert_eq!(m.get_all("VARIABLE"), vec!["a=1", "b=2"]);
    assert_eq!(m.get_all("VARIABLE").first().copied(), m.get("VARIABLE"));
    assert!(m.get_all("Missing").is_empty());
    assert_eq!(m.get("Missing"), None);
}
