use asterisk_rs::agi::channel::{ChannelState, CommandChannel, LineOutcome};
use asterisk_rs::agi::commands;
use asterisk_rs::agi::error::AgiError;
use asterisk_rs::agi::request::{PreludeParser, PreludeProgress};
use asterisk_rs::agi::response::AgiResponse;
use asterisk_rs::agi::server::{check_bound_address, AgiServerBuilder};

#[test]
fn parses_a_full_response() {
    let r = AgiResponse::parse("200 result=1 (timeout) endpos=12345\n").ok().unwrap();
    assert_eq!(r.code, 200);
    assert_eq!(r.result, 1);
    assert_eq!(r.data.as_deref(), Some("timeout"));
    assert_eq!(r.endpos, Some(12345));
}

#[test]
fn parses_error_codes_with_default_result() {
    let r = AgiResponse::parse("510 Invalid or unknown command").ok().unwrap();
    assert_eq!(r.code, 510);
    assert_eq!(r.result, -1);
    assert_eq!(r.data.as_deref(), Some("Invalid or unknown command"));
}

#[test]
fn rejects_malformed_responses() {
    match AgiResponse::parse("garbage") {
        Err(AgiError::InvalidResponse { raw }) => assert_eq!(raw, "garbage"),
        _ => panic!("expected an invalid response"),
    }
    match AgiResponse::parse("200 result=1 endpos=") {
        Err(AgiError::InvalidResponse { raw }) => assert_eq!(raw, "endpos="),
        _ => panic!("expected an invalid response"),
    }
    assert!(AgiResponse::parse("200 nothing").is_err());
    assert!(AgiResponse::parse_would_panic("200 result=1 ) x ("));
    assert!(!AgiResponse::parse_would_panic("200 result=1 (x)"));
}

#[test]
fn prelude_collects_variables() {
    let mut p = PreludeParser::new();
    assert!(matches!(p.feed_line("agi_network: yes\n"), PreludeProgress::NeedLine));
    assert!(matches!(p.feed_line("agi_channel: SIP/100-1\r\n"), PreludeProgress::NeedLine));
    assert!(matches!(p.feed_line("agi_arg_1:  spaced\n"), PreludeProgress::NeedLine));
    match p.feed_line("\n") {
        PreludeProgress::Complete(req) => {
            assert_eq!(req.network(), Some("yes"));
            assert_eq!(req.channel(), Some("SIP/100-1"));
            assert_eq!(req.get("arg_1"), Some(" spaced"));
            assert_eq!(req.peer_addr(), None);
        }
        _ => panic!("expected a complete prelude"),
    }
}

#[test]
fn prelude_errors() {
    let mut p = PreludeParser::new();
    match p.feed_line("no colon here\n") {
        PreludeProgress::Failed(AgiError::InvalidRequest { details }) => {
            assert_eq!(details, "AGI prelude line is missing ':'")
        }
        _ => panic!("expected a failure"),
    }
    let mut q = PreludeParser::new();
    assert!(matches!(q.feed_line(""), PreludeProgress::Failed(_)));
    let mut r = PreludeParser::new();
    assert!(matches!(r.feed_line("agi_x: 1"), PreludeProgress::Failed(_)));
}

#[test]
fn command_round_trip() {
    let mut ch = CommandChannel::new();
    assert!(ch.begin().is_ok());
    assert_eq!(ch.state(), ChannelState::InFlight);
    assert!(matches!(ch.begin(), Err(AgiError::CommandInFlight)));
    match ch.on_line("200 result=0\n") {
        LineOutcome::Done(Ok(r)) => assert_eq!(r.result, 0),
        _ => panic!("expected a response"),
    }
    assert_eq!(ch.state(), ChannelState::Ready);
}

#[test]
fn usage_lines_are_collected() {
    let mut ch = CommandChannel::new();
    ch.begin().ok().unwrap();
    assert!(matches!(ch.on_line("520-Invalid command syntax.  Proper usage follows:\n"), LineOutcome::ReadMore));
    assert!(matches!(ch.on_line("Usage: ANSWER\n"), LineOutcome::ReadMore));
    match ch.on_line("520 End of proper usage.\n") {
        LineOutcome::Done(Err(AgiError::CommandFailed { code, message })) => {
            assert_eq!(code, 520);
            assert_eq!(message, "Invalid command syntax.  Proper usage follows:\nUsage: ANSWER");
        }
        _ => panic!("expected the usage failure"),
    }
    assert_eq!(ch.state(), ChannelState::Ready);
}

#[test]
fn dead_channel_and_hangup() {
    let mut ch = CommandChannel::new();
    ch.begin().ok().unwrap();
    assert!(matches!(ch.on_line("511 result=-1 Command Not Permitted on a dead channel\n"), LineOutcome::Done(Err(AgiError::ChannelHungUp))));
    assert!(ch.is_hung_up());
    assert!(matches!(ch.begin(), Err(AgiError::ChannelHungUp)));
    let mut eof = CommandChannel::new();
    eof.begin().ok().unwrap();
    assert!(matches!(eof.on_line(""), LineOutcome::Done(Err(AgiError::ChannelHungUp))));
}

#[test]
fn typed_commands_format() {
    assert_eq!(commands::answer(), "ANSWER\n");
    assert_eq!(commands::stream_file("hello", "#"), "STREAM FILE hello #\n");
}

#[test]
fn server_settings() {
    let b: AgiServerBuilder<u8> = AgiServerBuilder::new();
    match b.settings() {
        Err(AgiError::InvalidConfig { details }) => assert_eq!(details, "handler is required"),
        _ => panic!("expected a missing handler"),
    }
    let zero = AgiServerBuilder::new().handler(1u8).max_connections(0).settings();
    assert!(matches!(zero, Err(AgiError::InvalidConfig { .. })));
    let ok = AgiServerBuilder::new().handler(7u8).bind("0.0.0.0:4573").settings().ok().unwrap();
    assert_eq!(ok.handler, 7);
    assert_eq!(ok.bind_addr, "0.0.0.0:4573");
    assert_eq!(ok.max_connections, 256);
    assert!(check_bound_address(true, false).is_ok());
    assert!(check_bound_address(false, false).is_err());
    assert!(check_bound_address(false, true).is_ok());
}

#[test]
fn broken_replies_and_io_failures_poison_the_channel() {
    let mut ch = CommandChannel::new();
    ch.begin().ok().unwrap();
    assert!(matches!(ch.on_line("garbage\n"), LineOutcome::Done(Err(AgiError::InvalidResponse { .. }))));
    assert!(matches!(ch.begin(), Err(AgiError::ChannelPoisoned)));
    let mut io = CommandChannel::new();
    io.begin().ok().unwrap();
    assert!(matches!(io.io_failed("broken pipe".to_string()), AgiError::Io { .. }));
    assert!(matches!(io.begin(), Err(AgiError::ChannelPoisoned)));
}
