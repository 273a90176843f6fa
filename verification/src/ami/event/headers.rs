//! The headers that an event's channel and unique id are read from.
use vstd::prelude::*;
use crate::ami::codec::{hget, RawView};
use super::{
    AmiEvent, EventKind, Fields, FieldRule, FieldValue, Values, value_at, read_fields, read_rule, event_spec,
    malformed_view, channel_spec, unique_id_spec,
};
use super::schema::{schema, kind_fields, lemma_schema_names};

verus! {

/// The `n`-th rule of a field list, if it has that many.
pub open spec fn rule_at(fs: Fields, n: nat) -> Option<FieldRule>
    decreases fs,
{
    match fs {
        Fields::End => None,
        Fields::Field(r, rest) => if n == 0 { Some(r) } else { rule_at(*rest, (n - 1) as nat) },
    }
}

/// The text a field value holds, if any.
pub open spec fn value_text(v: Option<FieldValue>) -> Option<Seq<char>> {
    match v {
        Some(FieldValue::Text(t)) => Some(t),
        Some(FieldValue::Optional(o)) => o,
        _ => None,
    }
}

/// The `n`-th value read for a field list is what its `n`-th rule reads.
proof fn lemma_read_at(raw: RawView, fs: Fields, vs: Values, n: nat)
    requires
        read_fields(raw, fs) == Ok::<Values, Seq<char>>(vs),
        rule_at(fs, n) is Some,
    ensures
        read_rule(raw, rule_at(fs, n)->0) == value_at(vs, n),
    decreases fs,
{
    match fs {
        Fields::End => {},
        Fields::Field(r, rest) => {
            let rvs = read_fields(raw, *rest)->Ok_0;
            assert(vs == Values::Value(read_rule(raw, r)->0, Box::new(rvs)));
            if n > 0 {
                lemma_read_at(raw, *rest, rvs, (n - 1) as nat);
            }
        },
    }
}

/// An event of a known kind read from a message holds the values its
/// fields read.
proof fn lemma_known_kind(raw: RawView, e: AmiEvent)
    requires
        event_spec(raw) == Some(e@),
        e@.kind != EventKind::Malformed,
        e@.kind != EventKind::Unknown,
    ensures
        read_fields(raw, kind_fields(e@.kind)) == Ok::<Values, Seq<char>>(e@.values),
{
    reveal(malformed_view);
    let name = hget(raw.headers, "Event"@)->0;
    lemma_schema_names(name);
}

/// The position of the field a kind's channel is read from, and its rule.
pub open spec fn channel_field(k: EventKind) -> Option<(nat, FieldRule)> {
    match k {
        EventKind::NewChannel => Some((0, FieldRule::Text("Channel"@))),
        EventKind::Hangup => Some((0, FieldRule::Text("Channel"@))),
        EventKind::Newstate => Some((0, FieldRule::Text("Channel"@))),
        EventKind::DialBegin => Some((0, FieldRule::Text("Channel"@))),
        EventKind::DialEnd => Some((0, FieldRule::Text("Channel"@))),
        EventKind::DtmfBegin => Some((0, FieldRule::Text("Channel"@))),
        EventKind::DtmfEnd => Some((0, FieldRule::Text("Channel"@))),
        EventKind::BridgeEnter => Some((1, FieldRule::Text("Channel"@))),
        EventKind::BridgeLeave => Some((1, FieldRule::Text("Channel"@))),
        EventKind::VarSet => Some((0, FieldRule::Optional("Channel"@))),
        EventKind::Hold => Some((0, FieldRule::Text("Channel"@))),
        EventKind::Unhold => Some((0, FieldRule::Text("Channel"@))),
        EventKind::HangupRequest => Some((0, FieldRule::Text("Channel"@))),
        EventKind::SoftHangupRequest => Some((0, FieldRule::Text("Channel"@))),
        EventKind::NewExten => Some((0, FieldRule::Text("Channel"@))),
        EventKind::NewCallerid => Some((0, FieldRule::Text("Channel"@))),
        EventKind::NewConnectedLine => Some((0, FieldRule::Text("Channel"@))),
        EventKind::NewAccountCode => Some((0, FieldRule::Text("Channel"@))),
        EventKind::Rename => Some((0, FieldRule::Text("Channel"@))),
        EventKind::OriginateResponse => Some((1, FieldRule::Text("Channel"@))),
        EventKind::DialState => Some((0, FieldRule::Text("Channel"@))),
        EventKind::Flash => Some((0, FieldRule::Text("Channel"@))),
        EventKind::Wink => Some((0, FieldRule::Text("Channel"@))),
        EventKind::UserEvent => Some((0, FieldRule::Optional("Channel"@))),
        EventKind::BridgeInfoChannel => Some((1, FieldRule::Text("Channel"@))),
        EventKind::LocalBridge => Some((0, FieldRule::Text("Channel"@))),
        EventKind::LocalOptimizationBegin => Some((0, FieldRule::Text("Channel"@))),
        EventKind::LocalOptimizationEnd => Some((0, FieldRule::Text("Channel"@))),
        EventKind::Cdr => Some((0, FieldRule::Text("Channel"@))),
        EventKind::Cel => Some((0, FieldRule::Text("Channel"@))),
        EventKind::QueueCallerAbandon => Some((0, FieldRule::Text("Channel"@))),
        EventKind::QueueCallerJoin => Some((0, FieldRule::Text("Channel"@))),
        EventKind::QueueCallerLeave => Some((0, FieldRule::Text("Channel"@))),
        EventKind::QueueEntry => Some((2, FieldRule::Text("Channel"@))),
        EventKind::AgentCalled => Some((0, FieldRule::Text("Channel"@))),
        EventKind::AgentConnect => Some((0, FieldRule::Text("Channel"@))),
        EventKind::AgentComplete => Some((0, FieldRule::Text("Channel"@))),
        EventKind::AgentDump => Some((0, FieldRule::Text("Channel"@))),
        EventKind::AgentLogin => Some((0, FieldRule::Text("Channel"@))),
        EventKind::AgentRingNoAnswer => Some((0, FieldRule::Text("Channel"@))),
        EventKind::Agents => Some((3, FieldRule::Optional("Channel"@))),
        EventKind::ConfbridgeJoin => Some((2, FieldRule::Text("Channel"@))),
        EventKind::ConfbridgeLeave => Some((2, FieldRule::Text("Channel"@))),
        EventKind::ConfbridgeList => Some((2, FieldRule::Text("Channel"@))),
        EventKind::ConfbridgeMute => Some((2, FieldRule::Text("Channel"@))),
        EventKind::ConfbridgeUnmute => Some((2, FieldRule::Text("Channel"@))),
        EventKind::ConfbridgeTalking => Some((2, FieldRule::Text("Channel"@))),
        EventKind::MixMonitorStart => Some((0, FieldRule::Text("Channel"@))),
        EventKind::MixMonitorStop => Some((0, FieldRule::Text("Channel"@))),
        EventKind::MixMonitorMute => Some((0, FieldRule::Text("Channel"@))),
        EventKind::MusicOnHoldStart => Some((0, FieldRule::Text("Channel"@))),
        EventKind::MusicOnHoldStop => Some((0, FieldRule::Text("Channel"@))),
        EventKind::ParkedCall => Some((0, FieldRule::Text("Channel"@))),
        EventKind::ParkedCallGiveUp => Some((0, FieldRule::Text("Channel"@))),
        EventKind::ParkedCallTimeOut => Some((0, FieldRule::Text("Channel"@))),
        EventKind::ParkedCallSwap => Some((0, FieldRule::Text("Channel"@))),
        EventKind::UnParkedCall => Some((0, FieldRule::Text("Channel"@))),
        EventKind::Pickup => Some((0, FieldRule::Text("Channel"@))),
        EventKind::ChanSpyStart => Some((0, FieldRule::Text("Channel"@))),
        EventKind::ChanSpyStop => Some((0, FieldRule::Text("Channel"@))),
        EventKind::ChannelTalkingStart => Some((0, FieldRule::Text("Channel"@))),
        EventKind::ChannelTalkingStop => Some((0, FieldRule::Text("Channel"@))),
        EventKind::RTCPReceived => Some((0, FieldRule::Text("Channel"@))),
        EventKind::RTCPSent => Some((0, FieldRule::Text("Channel"@))),
        EventKind::AsyncAGIStart => Some((0, FieldRule::Text("Channel"@))),
        EventKind::AsyncAGIExec => Some((0, FieldRule::Text("Channel"@))),
        EventKind::AsyncAGIEnd => Some((0, FieldRule::Text("Channel"@))),
        EventKind::AGIExecStart => Some((0, FieldRule::Text("Channel"@))),
        EventKind::AGIExecEnd => Some((0, FieldRule::Text("Channel"@))),
        EventKind::HangupHandlerPush => Some((0, FieldRule::Text("Channel"@))),
        EventKind::HangupHandlerPop => Some((0, FieldRule::Text("Channel"@))),
        EventKind::HangupHandlerRun => Some((0, FieldRule::Text("Channel"@))),
        EventKind::Status => Some((0, FieldRule::Text("Channel"@))),
        EventKind::CoreShowChannel => Some((0, FieldRule::Text("Channel"@))),
        EventKind::DAHDIChannel => Some((1, FieldRule::Optional("Channel"@))),
        EventKind::AocD => Some((0, FieldRule::Text("Channel"@))),
        EventKind::AocE => Some((0, FieldRule::Text("Channel"@))),
        EventKind::AocS => Some((0, FieldRule::Text("Channel"@))),
        EventKind::FAXStatus => Some((0, FieldRule::Text("Channel"@))),
        EventKind::ReceiveFAX => Some((0, FieldRule::Text("Channel"@))),
        EventKind::SendFAX => Some((0, FieldRule::Text("Channel"@))),
        EventKind::MeetmeJoin => Some((2, FieldRule::Text("Channel"@))),
        EventKind::MeetmeLeave => Some((2, FieldRule::Text("Channel"@))),
        EventKind::MeetmeMute => Some((2, FieldRule::Text("Channel"@))),
        EventKind::MeetmeTalking => Some((2, FieldRule::Text("Channel"@))),
        EventKind::MeetmeTalkRequest => Some((2, FieldRule::Text("Channel"@))),
        EventKind::MeetmeList => Some((2, FieldRule::Text("Channel"@))),
        EventKind::MiniVoiceMail => Some((0, FieldRule::Text("Channel"@))),
        EventKind::FAXSession => Some((0, FieldRule::Text("Channel"@))),
        EventKind::FAXSessionsEntry => Some((0, FieldRule::Text("Channel"@))),
        EventKind::DNDState => Some((0, FieldRule::Text("Channel"@))),
        EventKind::MCID => Some((0, FieldRule::Text("Channel"@))),
        _ => None,
    }
}

/// The position of the field a kind's unique id is read from, and its rule.
pub open spec fn unique_id_field(k: EventKind) -> Option<(nat, FieldRule)> {
    match k {
        EventKind::NewChannel => Some((5, FieldRule::Text("Uniqueid"@))),
        EventKind::Hangup => Some((1, FieldRule::Text("Uniqueid"@))),
        EventKind::Newstate => Some((3, FieldRule::Text("Uniqueid"@))),
        EventKind::DialBegin => Some((3, FieldRule::Text("Uniqueid"@))),
        EventKind::DialEnd => Some((3, FieldRule::Text("Uniqueid"@))),
        EventKind::DtmfBegin => Some((3, FieldRule::Text("Uniqueid"@))),
        EventKind::DtmfEnd => Some((4, FieldRule::Text("Uniqueid"@))),
        EventKind::BridgeEnter => Some((2, FieldRule::Text("Uniqueid"@))),
        EventKind::BridgeLeave => Some((2, FieldRule::Text("Uniqueid"@))),
        EventKind::VarSet => Some((3, FieldRule::Optional("Uniqueid"@))),
        EventKind::Hold => Some((1, FieldRule::Text("Uniqueid"@))),
        EventKind::Unhold => Some((1, FieldRule::Text("Uniqueid"@))),
        EventKind::HangupRequest => Some((1, FieldRule::Text("Uniqueid"@))),
        EventKind::SoftHangupRequest => Some((1, FieldRule::Text("Uniqueid"@))),
        EventKind::NewExten => Some((6, FieldRule::Text("Uniqueid"@))),
        EventKind::NewCallerid => Some((3, FieldRule::Text("Uniqueid"@))),
        EventKind::NewConnectedLine => Some((1, FieldRule::Text("Uniqueid"@))),
        EventKind::NewAccountCode => Some((1, FieldRule::Text("Uniqueid"@))),
        EventKind::Rename => Some((2, FieldRule::Text("Uniqueid"@))),
        EventKind::OriginateResponse => Some((2, FieldRule::Text("Uniqueid"@))),
        EventKind::DialState => Some((3, FieldRule::Text("Uniqueid"@))),
        EventKind::Flash => Some((1, FieldRule::Text("Uniqueid"@))),
        EventKind::Wink => Some((1, FieldRule::Text("Uniqueid"@))),
        EventKind::UserEvent => Some((1, FieldRule::Optional("Uniqueid"@))),
        EventKind::BridgeInfoChannel => Some((2, FieldRule::Text("Uniqueid"@))),
        EventKind::LocalBridge => Some((1, FieldRule::Text("Uniqueid"@))),
        EventKind::LocalOptimizationBegin => Some((1, FieldRule::Text("Uniqueid"@))),
        EventKind::LocalOptimizationEnd => Some((1, FieldRule::Text("Uniqueid"@))),
        EventKind::Cdr => Some((1, FieldRule::Text("Uniqueid"@))),
        EventKind::Cel => Some((1, FieldRule::Text("Uniqueid"@))),
        EventKind::QueueCallerAbandon => Some((1, FieldRule::Text("Uniqueid"@))),
        EventKind::QueueCallerJoin => Some((1, FieldRule::Text("Uniqueid"@))),
        EventKind::QueueCallerLeave => Some((1, FieldRule::Text("Uniqueid"@))),
        EventKind::QueueEntry => Some((3, FieldRule::Text("Uniqueid"@))),
        EventKind::AgentCalled => Some((1, FieldRule::Text("Uniqueid"@))),
        EventKind::AgentConnect => Some((1, FieldRule::Text("Uniqueid"@))),
        EventKind::AgentComplete => Some((1, FieldRule::Text("Uniqueid"@))),
        EventKind::AgentDump => Some((1, FieldRule::Text("Uniqueid"@))),
        EventKind::AgentLogin => Some((1, FieldRule::Text("Uniqueid"@))),
        EventKind::AgentRingNoAnswer => Some((1, FieldRule::Text("Uniqueid"@))),
        EventKind::ConfbridgeJoin => Some((3, FieldRule::Text("Uniqueid"@))),
        EventKind::ConfbridgeLeave => Some((3, FieldRule::Text("Uniqueid"@))),
        EventKind::ConfbridgeList => Some((3, FieldRule::Text("Uniqueid"@))),
        EventKind::ConfbridgeMute => Some((3, FieldRule::Text("Uniqueid"@))),
        EventKind::ConfbridgeUnmute => Some((3, FieldRule::Text("Uniqueid"@))),
        EventKind::ConfbridgeTalking => Some((3, FieldRule::Text("Uniqueid"@))),
        EventKind::MixMonitorStart => Some((1, FieldRule::Text("Uniqueid"@))),
        EventKind::MixMonitorStop => Some((1, FieldRule::Text("Uniqueid"@))),
        EventKind::MixMonitorMute => Some((1, FieldRule::Text("Uniqueid"@))),
        EventKind::MusicOnHoldStart => Some((1, FieldRule::Text("Uniqueid"@))),
        EventKind::MusicOnHoldStop => Some((1, FieldRule::Text("Uniqueid"@))),
        EventKind::ParkedCall => Some((1, FieldRule::Text("Uniqueid"@))),
        EventKind::ParkedCallGiveUp => Some((1, FieldRule::Text("Uniqueid"@))),
        EventKind::ParkedCallTimeOut => Some((1, FieldRule::Text("Uniqueid"@))),
        EventKind::ParkedCallSwap => Some((1, FieldRule::Text("Uniqueid"@))),
        EventKind::UnParkedCall => Some((1, FieldRule::Text("Uniqueid"@))),
        EventKind::Pickup => Some((1, FieldRule::Text("Uniqueid"@))),
        EventKind::ChanSpyStart => Some((1, FieldRule::Text("Uniqueid"@))),
        EventKind::ChanSpyStop => Some((1, FieldRule::Text("Uniqueid"@))),
        EventKind::ChannelTalkingStart => Some((1, FieldRule::Text("Uniqueid"@))),
        EventKind::ChannelTalkingStop => Some((1, FieldRule::Text("Uniqueid"@))),
        EventKind::RTCPReceived => Some((1, FieldRule::Text("Uniqueid"@))),
        EventKind::RTCPSent => Some((1, FieldRule::Text("Uniqueid"@))),
        EventKind::AsyncAGIStart => Some((1, FieldRule::Text("Uniqueid"@))),
        EventKind::AsyncAGIExec => Some((1, FieldRule::Text("Uniqueid"@))),
        EventKind::AsyncAGIEnd => Some((1, FieldRule::Text("Uniqueid"@))),
        EventKind::AGIExecStart => Some((1, FieldRule::Text("Uniqueid"@))),
        EventKind::AGIExecEnd => Some((1, FieldRule::Text("Uniqueid"@))),
        EventKind::HangupHandlerPush => Some((1, FieldRule::Text("Uniqueid"@))),
        EventKind::HangupHandlerPop => Some((1, FieldRule::Text("Uniqueid"@))),
        EventKind::HangupHandlerRun => Some((1, FieldRule::Text("Uniqueid"@))),
        EventKind::Status => Some((1, FieldRule::Text("Uniqueid"@))),
        EventKind::CoreShowChannel => Some((1, FieldRule::Text("Uniqueid"@))),
        EventKind::DAHDIChannel => Some((2, FieldRule::Optional("Uniqueid"@))),
        EventKind::AocD => Some((1, FieldRule::Text("Uniqueid"@))),
        EventKind::AocE => Some((1, FieldRule::Text("Uniqueid"@))),
        EventKind::AocS => Some((1, FieldRule::Text("Uniqueid"@))),
        EventKind::FAXStatus => Some((1, FieldRule::Text("Uniqueid"@))),
        EventKind::ReceiveFAX => Some((1, FieldRule::Text("Uniqueid"@))),
        EventKind::SendFAX => Some((1, FieldRule::Text("Uniqueid"@))),
        EventKind::MeetmeJoin => Some((3, FieldRule::Text("Uniqueid"@))),
        EventKind::MeetmeLeave => Some((3, FieldRule::Text("Uniqueid"@))),
        EventKind::MeetmeMute => Some((3, FieldRule::Text("Uniqueid"@))),
        EventKind::MeetmeTalking => Some((3, FieldRule::Text("Uniqueid"@))),
        EventKind::MeetmeTalkRequest => Some((3, FieldRule::Text("Uniqueid"@))),
        EventKind::MeetmeList => Some((3, FieldRule::Text("Uniqueid"@))),
        EventKind::MiniVoiceMail => Some((1, FieldRule::Text("Uniqueid"@))),
        EventKind::FAXSession => Some((1, FieldRule::Text("Uniqueid"@))),
        EventKind::MCID => Some((1, FieldRule::Text("Uniqueid"@))),
        _ => None,
    }
}

proof fn lemma_channel_view(e: AmiEvent)
    ensures
        channel_spec(e) == match channel_field(e@.kind) {
            Some((i, _)) => value_text(value_at(e@.values, i)),
            None => None,
        },
{
    reveal_with_fuel(value_at, 8);
    match e {
        AmiEvent::NewChannel { .. } => {},
        AmiEvent::Hangup { .. } => {},
        AmiEvent::Newstate { .. } => {},
        AmiEvent::DialBegin { .. } => {},
        AmiEvent::DialEnd { .. } => {},
        AmiEvent::DtmfBegin { .. } => {},
        AmiEvent::DtmfEnd { .. } => {},
        AmiEvent::FullyBooted { .. } => {},
        AmiEvent::PeerStatus { .. } => {},
        AmiEvent::BridgeCreate { .. } => {},
        AmiEvent::BridgeDestroy { .. } => {},
        AmiEvent::BridgeEnter { .. } => {},
        AmiEvent::BridgeLeave { .. } => {},
        AmiEvent::VarSet { .. } => {},
        AmiEvent::Hold { .. } => {},
        AmiEvent::Unhold { .. } => {},
        AmiEvent::HangupRequest { .. } => {},
        AmiEvent::SoftHangupRequest { .. } => {},
        AmiEvent::NewExten { .. } => {},
        AmiEvent::NewCallerid { .. } => {},
        AmiEvent::NewConnectedLine { .. } => {},
        AmiEvent::NewAccountCode { .. } => {},
        AmiEvent::Rename { .. } => {},
        AmiEvent::OriginateResponse { .. } => {},
        AmiEvent::DialState { .. } => {},
        AmiEvent::Flash { .. } => {},
        AmiEvent::Wink { .. } => {},
        AmiEvent::UserEvent { .. } => {},
        AmiEvent::AttendedTransfer { .. } => {},
        AmiEvent::BlindTransfer { .. } => {},
        AmiEvent::BridgeMerge { .. } => {},
        AmiEvent::BridgeInfoChannel { .. } => {},
        AmiEvent::BridgeInfoComplete { .. } => {},
        AmiEvent::BridgeVideoSourceUpdate { .. } => {},
        AmiEvent::LocalBridge { .. } => {},
        AmiEvent::LocalOptimizationBegin { .. } => {},
        AmiEvent::LocalOptimizationEnd { .. } => {},
        AmiEvent::Cdr { .. } => {},
        AmiEvent::Cel { .. } => {},
        AmiEvent::QueueCallerAbandon { .. } => {},
        AmiEvent::QueueCallerJoin { .. } => {},
        AmiEvent::QueueCallerLeave { .. } => {},
        AmiEvent::QueueMemberAdded { .. } => {},
        AmiEvent::QueueMemberRemoved { .. } => {},
        AmiEvent::QueueMemberPause { .. } => {},
        AmiEvent::QueueMemberStatus { .. } => {},
        AmiEvent::QueueMemberPenalty { .. } => {},
        AmiEvent::QueueMemberRinginuse { .. } => {},
        AmiEvent::QueueParams { .. } => {},
        AmiEvent::QueueEntry { .. } => {},
        AmiEvent::AgentCalled { .. } => {},
        AmiEvent::AgentConnect { .. } => {},
        AmiEvent::AgentComplete { .. } => {},
        AmiEvent::AgentDump { .. } => {},
        AmiEvent::AgentLogin { .. } => {},
        AmiEvent::AgentLogoff { .. } => {},
        AmiEvent::AgentRingNoAnswer { .. } => {},
        AmiEvent::Agents { .. } => {},
        AmiEvent::AgentsComplete => {},
        AmiEvent::ConfbridgeStart { .. } => {},
        AmiEvent::ConfbridgeEnd { .. } => {},
        AmiEvent::ConfbridgeJoin { .. } => {},
        AmiEvent::ConfbridgeLeave { .. } => {},
        AmiEvent::ConfbridgeList { .. } => {},
        AmiEvent::ConfbridgeMute { .. } => {},
        AmiEvent::ConfbridgeUnmute { .. } => {},
        AmiEvent::ConfbridgeTalking { .. } => {},
        AmiEvent::ConfbridgeRecord { .. } => {},
        AmiEvent::ConfbridgeStopRecord { .. } => {},
        AmiEvent::ConfbridgeListRooms { .. } => {},
        AmiEvent::MixMonitorStart { .. } => {},
        AmiEvent::MixMonitorStop { .. } => {},
        AmiEvent::MixMonitorMute { .. } => {},
        AmiEvent::MusicOnHoldStart { .. } => {},
        AmiEvent::MusicOnHoldStop { .. } => {},
        AmiEvent::ParkedCall { .. } => {},
        AmiEvent::ParkedCallGiveUp { .. } => {},
        AmiEvent::ParkedCallTimeOut { .. } => {},
        AmiEvent::ParkedCallSwap { .. } => {},
        AmiEvent::UnParkedCall { .. } => {},
        AmiEvent::Pickup { .. } => {},
        AmiEvent::ChanSpyStart { .. } => {},
        AmiEvent::ChanSpyStop { .. } => {},
        AmiEvent::ChannelTalkingStart { .. } => {},
        AmiEvent::ChannelTalkingStop { .. } => {},
        AmiEvent::DeviceStateChange { .. } => {},
        AmiEvent::ExtensionStatus { .. } => {},
        AmiEvent::PresenceStateChange { .. } => {},
        AmiEvent::PresenceStatus { .. } => {},
        AmiEvent::ContactStatus { .. } => {},
        AmiEvent::Registry { .. } => {},
        AmiEvent::MessageWaiting { .. } => {},
        AmiEvent::VoicemailPasswordChange { .. } => {},
        AmiEvent::RTCPReceived { .. } => {},
        AmiEvent::RTCPSent { .. } => {},
        AmiEvent::FailedACL { .. } => {},
        AmiEvent::InvalidAccountID { .. } => {},
        AmiEvent::InvalidPassword { .. } => {},
        AmiEvent::ChallengeResponseFailed { .. } => {},
        AmiEvent::ChallengeSent { .. } => {},
        AmiEvent::SuccessfulAuth { .. } => {},
        AmiEvent::SessionLimit { .. } => {},
        AmiEvent::UnexpectedAddress { .. } => {},
        AmiEvent::RequestBadFormat { .. } => {},
        AmiEvent::RequestNotAllowed { .. } => {},
        AmiEvent::RequestNotSupported { .. } => {},
        AmiEvent::InvalidTransport { .. } => {},
        AmiEvent::AuthMethodNotAllowed { .. } => {},
        AmiEvent::Shutdown { .. } => {},
        AmiEvent::Reload { .. } => {},
        AmiEvent::Load { .. } => {},
        AmiEvent::Unload { .. } => {},
        AmiEvent::LogChannel { .. } => {},
        AmiEvent::LoadAverageLimit => {},
        AmiEvent::MemoryLimit => {},
        AmiEvent::AsyncAGIStart { .. } => {},
        AmiEvent::AsyncAGIExec { .. } => {},
        AmiEvent::AsyncAGIEnd { .. } => {},
        AmiEvent::AGIExecStart { .. } => {},
        AmiEvent::AGIExecEnd { .. } => {},
        AmiEvent::HangupHandlerPush { .. } => {},
        AmiEvent::HangupHandlerPop { .. } => {},
        AmiEvent::HangupHandlerRun { .. } => {},
        AmiEvent::Status { .. } => {},
        AmiEvent::StatusComplete { .. } => {},
        AmiEvent::CoreShowChannel { .. } => {},
        AmiEvent::CoreShowChannelsComplete { .. } => {},
        AmiEvent::CoreShowChannelMapComplete => {},
        AmiEvent::DAHDIChannel { .. } => {},
        AmiEvent::Alarm { .. } => {},
        AmiEvent::AlarmClear { .. } => {},
        AmiEvent::SpanAlarm { .. } => {},
        AmiEvent::SpanAlarmClear { .. } => {},
        AmiEvent::AocD { .. } => {},
        AmiEvent::AocE { .. } => {},
        AmiEvent::AocS { .. } => {},
        AmiEvent::FAXStatus { .. } => {},
        AmiEvent::ReceiveFAX { .. } => {},
        AmiEvent::SendFAX { .. } => {},
        AmiEvent::MeetmeJoin { .. } => {},
        AmiEvent::MeetmeLeave { .. } => {},
        AmiEvent::MeetmeEnd { .. } => {},
        AmiEvent::MeetmeMute { .. } => {},
        AmiEvent::MeetmeTalking { .. } => {},
        AmiEvent::MeetmeTalkRequest { .. } => {},
        AmiEvent::MeetmeList { .. } => {},
        AmiEvent::MeetmeListRooms { .. } => {},
        AmiEvent::DeviceStateListComplete { .. } => {},
        AmiEvent::ExtensionStateListComplete { .. } => {},
        AmiEvent::PresenceStateListComplete { .. } => {},
        AmiEvent::AorDetail { .. } => {},
        AmiEvent::AorList { .. } => {},
        AmiEvent::AorListComplete { .. } => {},
        AmiEvent::AuthDetail { .. } => {},
        AmiEvent::AuthList { .. } => {},
        AmiEvent::AuthListComplete { .. } => {},
        AmiEvent::ContactList { .. } => {},
        AmiEvent::ContactListComplete { .. } => {},
        AmiEvent::ContactStatusDetail { .. } => {},
        AmiEvent::EndpointDetail { .. } => {},
        AmiEvent::EndpointDetailComplete { .. } => {},
        AmiEvent::EndpointList { .. } => {},
        AmiEvent::EndpointListComplete { .. } => {},
        AmiEvent::IdentifyDetail { .. } => {},
        AmiEvent::TransportDetail { .. } => {},
        AmiEvent::ResourceListDetail { .. } => {},
        AmiEvent::InboundRegistrationDetail { .. } => {},
        AmiEvent::OutboundRegistrationDetail { .. } => {},
        AmiEvent::InboundSubscriptionDetail { .. } => {},
        AmiEvent::OutboundSubscriptionDetail { .. } => {},
        AmiEvent::MWIGet { .. } => {},
        AmiEvent::MWIGetComplete { .. } => {},
        AmiEvent::MiniVoiceMail { .. } => {},
        AmiEvent::FAXSession { .. } => {},
        AmiEvent::FAXSessionsEntry { .. } => {},
        AmiEvent::FAXSessionsComplete { .. } => {},
        AmiEvent::FAXStats { .. } => {},
        AmiEvent::DNDState { .. } => {},
        AmiEvent::DeadlockStart => {},
        AmiEvent::MCID { .. } => {},
        AmiEvent::Malformed { .. } => {},
        AmiEvent::Unknown { .. } => {},
    }
}

proof fn lemma_unique_id_view(e: AmiEvent)
    ensures
        unique_id_spec(e) == match unique_id_field(e@.kind) {
            Some((i, _)) => value_text(value_at(e@.values, i)),
            None => None,
        },
{
    reveal_with_fuel(value_at, 8);
    match e {
        AmiEvent::NewChannel { .. } => {},
        AmiEvent::Hangup { .. } => {},
        AmiEvent::Newstate { .. } => {},
        AmiEvent::DialBegin { .. } => {},
        AmiEvent::DialEnd { .. } => {},
        AmiEvent::DtmfBegin { .. } => {},
        AmiEvent::DtmfEnd { .. } => {},
        AmiEvent::FullyBooted { .. } => {},
        AmiEvent::PeerStatus { .. } => {},
        AmiEvent::BridgeCreate { .. } => {},
        AmiEvent::BridgeDestroy { .. } => {},
        AmiEvent::BridgeEnter { .. } => {},
        AmiEvent::BridgeLeave { .. } => {},
        AmiEvent::VarSet { .. } => {},
        AmiEvent::Hold { .. } => {},
        AmiEvent::Unhold { .. } => {},
        AmiEvent::HangupRequest { .. } => {},
        AmiEvent::SoftHangupRequest { .. } => {},
        AmiEvent::NewExten { .. } => {},
        AmiEvent::NewCallerid { .. } => {},
        AmiEvent::NewConnectedLine { .. } => {},
        AmiEvent::NewAccountCode { .. } => {},
        AmiEvent::Rename { .. } => {},
        AmiEvent::OriginateResponse { .. } => {},
        AmiEvent::DialState { .. } => {},
        AmiEvent::Flash { .. } => {},
        AmiEvent::Wink { .. } => {},
        AmiEvent::UserEvent { .. } => {},
        AmiEvent::AttendedTransfer { .. } => {},
        AmiEvent::BlindTransfer { .. } => {},
        AmiEvent::BridgeMerge { .. } => {},
        AmiEvent::BridgeInfoChannel { .. } => {},
        AmiEvent::BridgeInfoComplete { .. } => {},
        AmiEvent::BridgeVideoSourceUpdate { .. } => {},
        AmiEvent::LocalBridge { .. } => {},
        AmiEvent::LocalOptimizationBegin { .. } => {},
        AmiEvent::LocalOptimizationEnd { .. } => {},
        AmiEvent::Cdr { .. } => {},
        AmiEvent::Cel { .. } => {},
        AmiEvent::QueueCallerAbandon { .. } => {},
        AmiEvent::QueueCallerJoin { .. } => {},
        AmiEvent::QueueCallerLeave { .. } => {},
        AmiEvent::QueueMemberAdded { .. } => {},
        AmiEvent::QueueMemberRemoved { .. } => {},
        AmiEvent::QueueMemberPause { .. } => {},
        AmiEvent::QueueMemberStatus { .. } => {},
        AmiEvent::QueueMemberPenalty { .. } => {},
        AmiEvent::QueueMemberRinginuse { .. } => {},
        AmiEvent::QueueParams { .. } => {},
        AmiEvent::QueueEntry { .. } => {},
        AmiEvent::AgentCalled { .. } => {},
        AmiEvent::AgentConnect { .. } => {},
        AmiEvent::AgentComplete { .. } => {},
        AmiEvent::AgentDump { .. } => {},
        AmiEvent::AgentLogin { .. } => {},
        AmiEvent::AgentLogoff { .. } => {},
        AmiEvent::AgentRingNoAnswer { .. } => {},
        AmiEvent::Agents { .. } => {},
        AmiEvent::AgentsComplete => {},
        AmiEvent::ConfbridgeStart { .. } => {},
        AmiEvent::ConfbridgeEnd { .. } => {},
        AmiEvent::ConfbridgeJoin { .. } => {},
        AmiEvent::ConfbridgeLeave { .. } => {},
        AmiEvent::ConfbridgeList { .. } => {},
        AmiEvent::ConfbridgeMute { .. } => {},
        AmiEvent::ConfbridgeUnmute { .. } => {},
        AmiEvent::ConfbridgeTalking { .. } => {},
        AmiEvent::ConfbridgeRecord { .. } => {},
        AmiEvent::ConfbridgeStopRecord { .. } => {},
        AmiEvent::ConfbridgeListRooms { .. } => {},
        AmiEvent::MixMonitorStart { .. } => {},
        AmiEvent::MixMonitorStop { .. } => {},
        AmiEvent::MixMonitorMute { .. } => {},
        AmiEvent::MusicOnHoldStart { .. } => {},
        AmiEvent::MusicOnHoldStop { .. } => {},
        AmiEvent::ParkedCall { .. } => {},
        AmiEvent::ParkedCallGiveUp { .. } => {},
        AmiEvent::ParkedCallTimeOut { .. } => {},
        AmiEvent::ParkedCallSwap { .. } => {},
        AmiEvent::UnParkedCall { .. } => {},
        AmiEvent::Pickup { .. } => {},
        AmiEvent::ChanSpyStart { .. } => {},
        AmiEvent::ChanSpyStop { .. } => {},
        AmiEvent::ChannelTalkingStart { .. } => {},
        AmiEvent::ChannelTalkingStop { .. } => {},
        AmiEvent::DeviceStateChange { .. } => {},
        AmiEvent::ExtensionStatus { .. } => {},
        AmiEvent::PresenceStateChange { .. } => {},
        AmiEvent::PresenceStatus { .. } => {},
        AmiEvent::ContactStatus { .. } => {},
        AmiEvent::Registry { .. } => {},
        AmiEvent::MessageWaiting { .. } => {},
        AmiEvent::VoicemailPasswordChange { .. } => {},
        AmiEvent::RTCPReceived { .. } => {},
        AmiEvent::RTCPSent { .. } => {},
        AmiEvent::FailedACL { .. } => {},
        AmiEvent::InvalidAccountID { .. } => {},
        AmiEvent::InvalidPassword { .. } => {},
        AmiEvent::ChallengeResponseFailed { .. } => {},
        AmiEvent::ChallengeSent { .. } => {},
        AmiEvent::SuccessfulAuth { .. } => {},
        AmiEvent::SessionLimit { .. } => {},
        AmiEvent::UnexpectedAddress { .. } => {},
        AmiEvent::RequestBadFormat { .. } => {},
        AmiEvent::RequestNotAllowed { .. } => {},
        AmiEvent::RequestNotSupported { .. } => {},
        AmiEvent::InvalidTransport { .. } => {},
        AmiEvent::AuthMethodNotAllowed { .. } => {},
        AmiEvent::Shutdown { .. } => {},
        AmiEvent::Reload { .. } => {},
        AmiEvent::Load { .. } => {},
        AmiEvent::Unload { .. } => {},
        AmiEvent::LogChannel { .. } => {},
        AmiEvent::LoadAverageLimit => {},
        AmiEvent::MemoryLimit => {},
        AmiEvent::AsyncAGIStart { .. } => {},
        AmiEvent::AsyncAGIExec { .. } => {},
        AmiEvent::AsyncAGIEnd { .. } => {},
        AmiEvent::AGIExecStart { .. } => {},
        AmiEvent::AGIExecEnd { .. } => {},
        AmiEvent::HangupHandlerPush { .. } => {},
        AmiEvent::HangupHandlerPop { .. } => {},
        AmiEvent::HangupHandlerRun { .. } => {},
        AmiEvent::Status { .. } => {},
        AmiEvent::StatusComplete { .. } => {},
        AmiEvent::CoreShowChannel { .. } => {},
        AmiEvent::CoreShowChannelsComplete { .. } => {},
        AmiEvent::CoreShowChannelMapComplete => {},
        AmiEvent::DAHDIChannel { .. } => {},
        AmiEvent::Alarm { .. } => {},
        AmiEvent::AlarmClear { .. } => {},
        AmiEvent::SpanAlarm { .. } => {},
        AmiEvent::SpanAlarmClear { .. } => {},
        AmiEvent::AocD { .. } => {},
        AmiEvent::AocE { .. } => {},
        AmiEvent::AocS { .. } => {},
        AmiEvent::FAXStatus { .. } => {},
        AmiEvent::ReceiveFAX { .. } => {},
        AmiEvent::SendFAX { .. } => {},
        AmiEvent::MeetmeJoin { .. } => {},
        AmiEvent::MeetmeLeave { .. } => {},
        AmiEvent::MeetmeEnd { .. } => {},
        AmiEvent::MeetmeMute { .. } => {},
        AmiEvent::MeetmeTalking { .. } => {},
        AmiEvent::MeetmeTalkRequest { .. } => {},
        AmiEvent::MeetmeList { .. } => {},
        AmiEvent::MeetmeListRooms { .. } => {},
        AmiEvent::DeviceStateListComplete { .. } => {},
        AmiEvent::ExtensionStateListComplete { .. } => {},
        AmiEvent::PresenceStateListComplete { .. } => {},
        AmiEvent::AorDetail { .. } => {},
        AmiEvent::AorList { .. } => {},
        AmiEvent::AorListComplete { .. } => {},
        AmiEvent::AuthDetail { .. } => {},
        AmiEvent::AuthList { .. } => {},
        AmiEvent::AuthListComplete { .. } => {},
        AmiEvent::ContactList { .. } => {},
        AmiEvent::ContactListComplete { .. } => {},
        AmiEvent::ContactStatusDetail { .. } => {},
        AmiEvent::EndpointDetail { .. } => {},
        AmiEvent::EndpointDetailComplete { .. } => {},
        AmiEvent::EndpointList { .. } => {},
        AmiEvent::EndpointListComplete { .. } => {},
        AmiEvent::IdentifyDetail { .. } => {},
        AmiEvent::TransportDetail { .. } => {},
        AmiEvent::ResourceListDetail { .. } => {},
        AmiEvent::InboundRegistrationDetail { .. } => {},
        AmiEvent::OutboundRegistrationDetail { .. } => {},
        AmiEvent::InboundSubscriptionDetail { .. } => {},
        AmiEvent::OutboundSubscriptionDetail { .. } => {},
        AmiEvent::MWIGet { .. } => {},
        AmiEvent::MWIGetComplete { .. } => {},
        AmiEvent::MiniVoiceMail { .. } => {},
        AmiEvent::FAXSession { .. } => {},
        AmiEvent::FAXSessionsEntry { .. } => {},
        AmiEvent::FAXSessionsComplete { .. } => {},
        AmiEvent::FAXStats { .. } => {},
        AmiEvent::DNDState { .. } => {},
        AmiEvent::DeadlockStart => {},
        AmiEvent::MCID { .. } => {},
        AmiEvent::Malformed { .. } => {},
        AmiEvent::Unknown { .. } => {},
    }
}

proof fn lemma_channel_rule(k: EventKind)
    ensures
        channel_field(k) matches Some((i, r)) ==> rule_at(kind_fields(k), i) == Some(r),
{
    reveal_with_fuel(rule_at, 8);
    match k {
        EventKind::NewChannel => {},
        EventKind::Hangup => {},
        EventKind::Newstate => {},
        EventKind::DialBegin => {},
        EventKind::DialEnd => {},
        EventKind::DtmfBegin => {},
        EventKind::DtmfEnd => {},
        EventKind::FullyBooted => {},
        EventKind::PeerStatus => {},
        EventKind::BridgeCreate => {},
        EventKind::BridgeDestroy => {},
        EventKind::BridgeEnter => {},
        EventKind::BridgeLeave => {},
        EventKind::VarSet => {},
        EventKind::Hold => {},
        EventKind::Unhold => {},
        EventKind::HangupRequest => {},
        EventKind::SoftHangupRequest => {},
        EventKind::NewExten => {},
        EventKind::NewCallerid => {},
        EventKind::NewConnectedLine => {},
        EventKind::NewAccountCode => {},
        EventKind::Rename => {},
        EventKind::OriginateResponse => {},
        EventKind::DialState => {},
        EventKind::Flash => {},
        EventKind::Wink => {},
        EventKind::UserEvent => {},
        EventKind::AttendedTransfer => {},
        EventKind::BlindTransfer => {},
        EventKind::BridgeMerge => {},
        EventKind::BridgeInfoChannel => {},
        EventKind::BridgeInfoComplete => {},
        EventKind::BridgeVideoSourceUpdate => {},
        EventKind::LocalBridge => {},
        EventKind::LocalOptimizationBegin => {},
        EventKind::LocalOptimizationEnd => {},
        EventKind::Cdr => {},
        EventKind::Cel => {},
        EventKind::QueueCallerAbandon => {},
        EventKind::QueueCallerJoin => {},
        EventKind::QueueCallerLeave => {},
        EventKind::QueueMemberAdded => {},
        EventKind::QueueMemberRemoved => {},
        EventKind::QueueMemberPause => {},
        EventKind::QueueMemberStatus => {},
        EventKind::QueueMemberPenalty => {},
        EventKind::QueueMemberRinginuse => {},
        EventKind::QueueParams => {},
        EventKind::QueueEntry => {},
        EventKind::AgentCalled => {},
        EventKind::AgentConnect => {},
        EventKind::AgentComplete => {},
        EventKind::AgentDump => {},
        EventKind::AgentLogin => {},
        EventKind::AgentLogoff => {},
        EventKind::AgentRingNoAnswer => {},
        EventKind::Agents => {},
        EventKind::AgentsComplete => {},
        EventKind::ConfbridgeStart => {},
        EventKind::ConfbridgeEnd => {},
        EventKind::ConfbridgeJoin => {},
        EventKind::ConfbridgeLeave => {},
        EventKind::ConfbridgeList => {},
        EventKind::ConfbridgeMute => {},
        EventKind::ConfbridgeUnmute => {},
        EventKind::ConfbridgeTalking => {},
        EventKind::ConfbridgeRecord => {},
        EventKind::ConfbridgeStopRecord => {},
        EventKind::ConfbridgeListRooms => {},
        EventKind::MixMonitorStart => {},
        EventKind::MixMonitorStop => {},
        EventKind::MixMonitorMute => {},
        EventKind::MusicOnHoldStart => {},
        EventKind::MusicOnHoldStop => {},
        EventKind::ParkedCall => {},
        EventKind::ParkedCallGiveUp => {},
        EventKind::ParkedCallTimeOut => {},
        EventKind::ParkedCallSwap => {},
        EventKind::UnParkedCall => {},
        EventKind::Pickup => {},
        EventKind::ChanSpyStart => {},
        EventKind::ChanSpyStop => {},
        EventKind::ChannelTalkingStart => {},
        EventKind::ChannelTalkingStop => {},
        EventKind::DeviceStateChange => {},
        EventKind::ExtensionStatus => {},
        EventKind::PresenceStateChange => {},
        EventKind::PresenceStatus => {},
        EventKind::ContactStatus => {},
        EventKind::Registry => {},
        EventKind::MessageWaiting => {},
        EventKind::VoicemailPasswordChange => {},
        EventKind::RTCPReceived => {},
        EventKind::RTCPSent => {},
        EventKind::FailedACL => {},
        EventKind::InvalidAccountID => {},
        EventKind::InvalidPassword => {},
        EventKind::ChallengeResponseFailed => {},
        EventKind::ChallengeSent => {},
        EventKind::SuccessfulAuth => {},
        EventKind::SessionLimit => {},
        EventKind::UnexpectedAddress => {},
        EventKind::RequestBadFormat => {},
        EventKind::RequestNotAllowed => {},
        EventKind::RequestNotSupported => {},
        EventKind::InvalidTransport => {},
        EventKind::AuthMethodNotAllowed => {},
        EventKind::Shutdown => {},
        EventKind::Reload => {},
        EventKind::Load => {},
        EventKind::Unload => {},
        EventKind::LogChannel => {},
        EventKind::LoadAverageLimit => {},
        EventKind::MemoryLimit => {},
        EventKind::AsyncAGIStart => {},
        EventKind::AsyncAGIExec => {},
        EventKind::AsyncAGIEnd => {},
        EventKind::AGIExecStart => {},
        EventKind::AGIExecEnd => {},
        EventKind::HangupHandlerPush => {},
        EventKind::HangupHandlerPop => {},
        EventKind::HangupHandlerRun => {},
        EventKind::Status => {},
        EventKind::StatusComplete => {},
        EventKind::CoreShowChannel => {},
        EventKind::CoreShowChannelsComplete => {},
        EventKind::CoreShowChannelMapComplete => {},
        EventKind::DAHDIChannel => {},
        EventKind::Alarm => {},
        EventKind::AlarmClear => {},
        EventKind::SpanAlarm => {},
        EventKind::SpanAlarmClear => {},
        EventKind::AocD => {},
        EventKind::AocE => {},
        EventKind::AocS => {},
        EventKind::FAXStatus => {},
        EventKind::ReceiveFAX => {},
        EventKind::SendFAX => {},
        EventKind::MeetmeJoin => {},
        EventKind::MeetmeLeave => {},
        EventKind::MeetmeEnd => {},
        EventKind::MeetmeMute => {},
        EventKind::MeetmeTalking => {},
        EventKind::MeetmeTalkRequest => {},
        EventKind::MeetmeList => {},
        EventKind::MeetmeListRooms => {},
        EventKind::DeviceStateListComplete => {},
        EventKind::ExtensionStateListComplete => {},
        EventKind::PresenceStateListComplete => {},
        EventKind::AorDetail => {},
        EventKind::AorList => {},
        EventKind::AorListComplete => {},
        EventKind::AuthDetail => {},
        EventKind::AuthList => {},
        EventKind::AuthListComplete => {},
        EventKind::ContactList => {},
        EventKind::ContactListComplete => {},
        EventKind::ContactStatusDetail => {},
        EventKind::EndpointDetail => {},
        EventKind::EndpointDetailComplete => {},
        EventKind::EndpointList => {},
        EventKind::EndpointListComplete => {},
        EventKind::IdentifyDetail => {},
        EventKind::TransportDetail => {},
        EventKind::ResourceListDetail => {},
        EventKind::InboundRegistrationDetail => {},
        EventKind::OutboundRegistrationDetail => {},
        EventKind::InboundSubscriptionDetail => {},
        EventKind::OutboundSubscriptionDetail => {},
        EventKind::MWIGet => {},
        EventKind::MWIGetComplete => {},
        EventKind::MiniVoiceMail => {},
        EventKind::FAXSession => {},
        EventKind::FAXSessionsEntry => {},
        EventKind::FAXSessionsComplete => {},
        EventKind::FAXStats => {},
        EventKind::DNDState => {},
        EventKind::DeadlockStart => {},
        EventKind::MCID => {},
        _ => {},
    }
}

proof fn lemma_unique_id_rule(k: EventKind)
    ensures
        unique_id_field(k) matches Some((i, r)) ==> rule_at(kind_fields(k), i) == Some(r),
{
    reveal_with_fuel(rule_at, 8);
    match k {
        EventKind::NewChannel => {},
        EventKind::Hangup => {},
        EventKind::Newstate => {},
        EventKind::DialBegin => {},
        EventKind::DialEnd => {},
        EventKind::DtmfBegin => {},
        EventKind::DtmfEnd => {},
        EventKind::FullyBooted => {},
        EventKind::PeerStatus => {},
        EventKind::BridgeCreate => {},
        EventKind::BridgeDestroy => {},
        EventKind::BridgeEnter => {},
        EventKind::BridgeLeave => {},
        EventKind::VarSet => {},
        EventKind::Hold => {},
        EventKind::Unhold => {},
        EventKind::HangupRequest => {},
        EventKind::SoftHangupRequest => {},
        EventKind::NewExten => {},
        EventKind::NewCallerid => {},
        EventKind::NewConnectedLine => {},
        EventKind::NewAccountCode => {},
        EventKind::Rename => {},
        EventKind::OriginateResponse => {},
        EventKind::DialState => {},
        EventKind::Flash => {},
        EventKind::Wink => {},
        EventKind::UserEvent => {},
        EventKind::AttendedTransfer => {},
        EventKind::BlindTransfer => {},
        EventKind::BridgeMerge => {},
        EventKind::BridgeInfoChannel => {},
        EventKind::BridgeInfoComplete => {},
        EventKind::BridgeVideoSourceUpdate => {},
        EventKind::LocalBridge => {},
        EventKind::LocalOptimizationBegin => {},
        EventKind::LocalOptimizationEnd => {},
        EventKind::Cdr => {},
        EventKind::Cel => {},
        EventKind::QueueCallerAbandon => {},
        EventKind::QueueCallerJoin => {},
        EventKind::QueueCallerLeave => {},
        EventKind::QueueMemberAdded => {},
        EventKind::QueueMemberRemoved => {},
        EventKind::QueueMemberPause => {},
        EventKind::QueueMemberStatus => {},
        EventKind::QueueMemberPenalty => {},
        EventKind::QueueMemberRinginuse => {},
        EventKind::QueueParams => {},
        EventKind::QueueEntry => {},
        EventKind::AgentCalled => {},
        EventKind::AgentConnect => {},
        EventKind::AgentComplete => {},
        EventKind::AgentDump => {},
        EventKind::AgentLogin => {},
        EventKind::AgentLogoff => {},
        EventKind::AgentRingNoAnswer => {},
        EventKind::Agents => {},
        EventKind::AgentsComplete => {},
        EventKind::ConfbridgeStart => {},
        EventKind::ConfbridgeEnd => {},
        EventKind::ConfbridgeJoin => {},
        EventKind::ConfbridgeLeave => {},
        EventKind::ConfbridgeList => {},
        EventKind::ConfbridgeMute => {},
        EventKind::ConfbridgeUnmute => {},
        EventKind::ConfbridgeTalking => {},
        EventKind::ConfbridgeRecord => {},
        EventKind::ConfbridgeStopRecord => {},
        EventKind::ConfbridgeListRooms => {},
        EventKind::MixMonitorStart => {},
        EventKind::MixMonitorStop => {},
        EventKind::MixMonitorMute => {},
        EventKind::MusicOnHoldStart => {},
        EventKind::MusicOnHoldStop => {},
        EventKind::ParkedCall => {},
        EventKind::ParkedCallGiveUp => {},
        EventKind::ParkedCallTimeOut => {},
        EventKind::ParkedCallSwap => {},
        EventKind::UnParkedCall => {},
        EventKind::Pickup => {},
        EventKind::ChanSpyStart => {},
        EventKind::ChanSpyStop => {},
        EventKind::ChannelTalkingStart => {},
        EventKind::ChannelTalkingStop => {},
        EventKind::DeviceStateChange => {},
        EventKind::ExtensionStatus => {},
        EventKind::PresenceStateChange => {},
        EventKind::PresenceStatus => {},
        EventKind::ContactStatus => {},
        EventKind::Registry => {},
        EventKind::MessageWaiting => {},
        EventKind::VoicemailPasswordChange => {},
        EventKind::RTCPReceived => {},
        EventKind::RTCPSent => {},
        EventKind::FailedACL => {},
        EventKind::InvalidAccountID => {},
        EventKind::InvalidPassword => {},
        EventKind::ChallengeResponseFailed => {},
        EventKind::ChallengeSent => {},
        EventKind::SuccessfulAuth => {},
        EventKind::SessionLimit => {},
        EventKind::UnexpectedAddress => {},
        EventKind::RequestBadFormat => {},
        EventKind::RequestNotAllowed => {},
        EventKind::RequestNotSupported => {},
        EventKind::InvalidTransport => {},
        EventKind::AuthMethodNotAllowed => {},
        EventKind::Shutdown => {},
        EventKind::Reload => {},
        EventKind::Load => {},
        EventKind::Unload => {},
        EventKind::LogChannel => {},
        EventKind::LoadAverageLimit => {},
        EventKind::MemoryLimit => {},
        EventKind::AsyncAGIStart => {},
        EventKind::AsyncAGIExec => {},
        EventKind::AsyncAGIEnd => {},
        EventKind::AGIExecStart => {},
        EventKind::AGIExecEnd => {},
        EventKind::HangupHandlerPush => {},
        EventKind::HangupHandlerPop => {},
        EventKind::HangupHandlerRun => {},
        EventKind::Status => {},
        EventKind::StatusComplete => {},
        EventKind::CoreShowChannel => {},
        EventKind::CoreShowChannelsComplete => {},
        EventKind::CoreShowChannelMapComplete => {},
        EventKind::DAHDIChannel => {},
        EventKind::Alarm => {},
        EventKind::AlarmClear => {},
        EventKind::SpanAlarm => {},
        EventKind::SpanAlarmClear => {},
        EventKind::AocD => {},
        EventKind::AocE => {},
        EventKind::AocS => {},
        EventKind::FAXStatus => {},
        EventKind::ReceiveFAX => {},
        EventKind::SendFAX => {},
        EventKind::MeetmeJoin => {},
        EventKind::MeetmeLeave => {},
        EventKind::MeetmeEnd => {},
        EventKind::MeetmeMute => {},
        EventKind::MeetmeTalking => {},
        EventKind::MeetmeTalkRequest => {},
        EventKind::MeetmeList => {},
        EventKind::MeetmeListRooms => {},
        EventKind::DeviceStateListComplete => {},
        EventKind::ExtensionStateListComplete => {},
        EventKind::PresenceStateListComplete => {},
        EventKind::AorDetail => {},
        EventKind::AorList => {},
        EventKind::AorListComplete => {},
        EventKind::AuthDetail => {},
        EventKind::AuthList => {},
        EventKind::AuthListComplete => {},
        EventKind::ContactList => {},
        EventKind::ContactListComplete => {},
        EventKind::ContactStatusDetail => {},
        EventKind::EndpointDetail => {},
        EventKind::EndpointDetailComplete => {},
        EventKind::EndpointList => {},
        EventKind::EndpointListComplete => {},
        EventKind::IdentifyDetail => {},
        EventKind::TransportDetail => {},
        EventKind::ResourceListDetail => {},
        EventKind::InboundRegistrationDetail => {},
        EventKind::OutboundRegistrationDetail => {},
        EventKind::InboundSubscriptionDetail => {},
        EventKind::OutboundSubscriptionDetail => {},
        EventKind::MWIGet => {},
        EventKind::MWIGetComplete => {},
        EventKind::MiniVoiceMail => {},
        EventKind::FAXSession => {},
        EventKind::FAXSessionsEntry => {},
        EventKind::FAXSessionsComplete => {},
        EventKind::FAXStats => {},
        EventKind::DNDState => {},
        EventKind::DeadlockStart => {},
        EventKind::MCID => {},
        _ => {},
    }
}

/// The channel of an event read from a message is the message's `Channel`
/// header: an event that has a channel has it from that header, the
/// variants whose channel is optional carry exactly that header (or none),
/// and the variants without a channel field (`Unknown`, `Malformed`,
/// `LogChannel`, `Alarm`, `AlarmClear` among them) have none.
pub proof fn lemma_channel_is_header(raw: RawView, e: AmiEvent)
    requires
        event_spec(raw) == Some(e@),
    ensures
        channel_spec(e) matches Some(c) ==> hget(raw.headers, "Channel"@) == Some(c),
        (e is VarSet || e is UserEvent || e is Agents || e is DAHDIChannel) ==> channel_spec(e) == hget(raw.headers, "Channel"@),
        (e is Unknown || e is Malformed || e is LogChannel || e is Alarm || e is AlarmClear) ==> channel_spec(e) is None,
{
    lemma_channel_view(e);
    if let Some((i, r)) = channel_field(e@.kind) {
        lemma_known_kind(raw, e);
        lemma_channel_rule(e@.kind);
        lemma_read_at(raw, kind_fields(e@.kind), e@.values, i);
    }
}

/// The unique id of an event read from a message is the message's
/// `Uniqueid` header: an event that has a unique id has it from that
/// header, the variants whose unique id is optional carry exactly that
/// header (or none), and `Unknown` and `Malformed` have none.
pub proof fn lemma_unique_id_is_header(raw: RawView, e: AmiEvent)
    requires
        event_spec(raw) == Some(e@),
    ensures
        unique_id_spec(e) matches Some(u) ==> hget(raw.headers, "Uniqueid"@) == Some(u),
        (e is VarSet || e is UserEvent || e is DAHDIChannel) ==> unique_id_spec(e) == hget(raw.headers, "Uniqueid"@),
        (e is Unknown || e is Malformed) ==> unique_id_spec(e) is None,
{
    lemma_unique_id_view(e);
    if let Some((i, r)) = unique_id_field(e@.kind) {
        lemma_known_kind(raw, e);
        lemma_unique_id_rule(e@.kind);
        lemma_read_at(raw, kind_fields(e@.kind), e@.values, i);
    }
}

} // verus!
