//! Typed AMI events.
//!
//! An event is read from a raw message by a table that gives, for each known
//! event name, its variant and the fields it reads in order. A known event
//! whose required field is missing or does not parse becomes `Malformed`
//! (with secret-looking values redacted); an unknown name becomes `Unknown`.
use vstd::prelude::*;
use crate::ami::codec::{RawAmiMessage, RawView, pairs_view, hget, to_map_spec, vinsert, insert_variable};
use crate::ami::redact::{is_secret_name, normalize_key, normalize_key_exec, is_secret_normalized, redacted_marker};
use crate::text::{parse_unsigned, parse_u32, str_eq, str_eq_ignore_case, eq_ic_chars};

pub mod schema;
pub mod parse;
pub mod redaction;
pub mod headers;

use schema::schema;

verus! {

/// How one field of a known event is read from the message.
pub enum FieldRule {
    /// the value of a required header
    Text(Seq<char>),
    /// a required header holding a `u32`
    Number(Seq<char>),
    /// the value of a header, if present
    Optional(Seq<char>),
    /// all headers, the last value winning for a repeated key
    AllHeaders,
    /// the message's channel variables
    ChannelVariables,
}

/// The fields of a known event, in the order they are read.
pub enum Fields {
    End,
    Field(FieldRule, Box<Fields>),
}

/// One field value of an event.
pub enum FieldValue {
    Text(Seq<char>),
    Number(u32),
    Optional(Option<Seq<char>>),
    Pairs(Seq<(Seq<char>, Seq<char>)>),
}

/// The field values of an event, in order.
pub enum Values {
    End,
    Value(FieldValue, Box<Values>),
}

/// Abstract content of an event: its variant and its field values.
pub struct EventView {
    pub kind: EventKind,
    pub values: Values,
}

/// `rule` followed by `rest`.
pub open spec fn then(rule: FieldRule, rest: Fields) -> Fields {
    Fields::Field(rule, Box::new(rest))
}

/// `v` followed by `rest`.
pub open spec fn vcons(v: FieldValue, rest: Values) -> Values {
    Values::Value(v, Box::new(rest))
}

/// A text field as a character string.
pub open spec fn text(s: String) -> FieldValue {
    FieldValue::Text(s@)
}

/// An optional text field.
pub open spec fn optional(s: Option<String>) -> FieldValue {
    FieldValue::Optional(
        match s {
            Some(t) => Some(t@),
            None => None,
        },
    )
}

/// The header a rule reads (empty for the rules that read no single header).
pub open spec fn rule_key(r: FieldRule) -> Seq<char> {
    match r {
        FieldRule::Text(k) => k,
        FieldRule::Number(k) => k,
        FieldRule::Optional(k) => k,
        _ => Seq::empty(),
    }
}

/// What a rule reads from a message; `None` when a required header is
/// missing or does not parse.
pub open spec fn read_rule(raw: RawView, r: FieldRule) -> Option<FieldValue> {
    match r {
        FieldRule::Text(k) => match hget(raw.headers, k) {
            Some(v) => Some(FieldValue::Text(v)),
            None => None,
        },
        FieldRule::Number(k) => match hget(raw.headers, k) {
            Some(v) => match parse_unsigned(v, u32::MAX as int) {
                Some(n) => Some(FieldValue::Number(n as u32)),
                None => None,
            },
            None => None,
        },
        FieldRule::Optional(k) => Some(FieldValue::Optional(hget(raw.headers, k))),
        FieldRule::AllHeaders => Some(FieldValue::Pairs(to_map_spec(raw.headers))),
        FieldRule::ChannelVariables => Some(FieldValue::Pairs(raw.variables)),
    }
}

/// Reads the fields in order; the error is the header of the first rule
/// that fails.
pub open spec fn read_fields(raw: RawView, fs: Fields) -> Result<Values, Seq<char>>
    decreases fs,
{
    match fs {
        Fields::End => Ok(Values::End),
        Fields::Field(r, rest) => match read_rule(raw, r) {
            None => Err(rule_key(r)),
            Some(v) => match read_fields(raw, *rest) {
                Ok(vs) => Ok(vcons(v, vs)),
                Err(k) => Err(k),
            },
        },
    }
}

/// A header value as shown in a malformed event: the marker when the
/// header's name looks secret.
pub open spec fn redact_value(key: Seq<char>, value: Seq<char>) -> Seq<char> {
    if is_secret_name(normalize_key(key)) {
        redacted_marker()
    } else {
        value
    }
}

/// Headers with secret-looking values redacted.
pub open spec fn redact_all(h: Seq<(Seq<char>, Seq<char>)>) -> Seq<(Seq<char>, Seq<char>)> {
    h.map_values(|p: (Seq<char>, Seq<char>)| (p.0, redact_value(p.0, p.1)))
}

/// The event for a known name whose field `key` is missing or invalid.
#[verifier::opaque]
pub open spec fn malformed_view(raw: RawView, name: Seq<char>, key: Seq<char>) -> EventView {
    EventView {
        kind: EventKind::Malformed,
        values: vcons(
            FieldValue::Text(name),
            vcons(
                FieldValue::Text(key),
                vcons(
                    FieldValue::Optional(
                        match hget(raw.headers, key) {
                            Some(v) => Some(redact_value(key, v)),
                            None => None,
                        },
                    ),
                    vcons(FieldValue::Pairs(to_map_spec(redact_all(raw.headers))), Values::End),
                ),
            ),
        ),
    }
}

/// The event for a name that is not known.
pub open spec fn unknown_view(raw: RawView, name: Seq<char>) -> EventView {
    EventView {
        kind: EventKind::Unknown,
        values: vcons(FieldValue::Text(name), vcons(FieldValue::Pairs(to_map_spec(raw.headers)), Values::End)),
    }
}

/// The event of a known kind: its fields, or `Malformed` at the first field
/// that fails.
pub open spec fn typed_view(raw: RawView, name: Seq<char>, kind: EventKind, fs: Fields) -> EventView {
    match read_fields(raw, fs) {
        Ok(vs) => EventView { kind, values: vs },
        Err(k) => malformed_view(raw, name, k),
    }
}

/// The event carried by a message whose `Event` header is `name`.
pub open spec fn named_view(raw: RawView, name: Seq<char>) -> EventView {
    match schema(name) {
        Some((kind, fs)) => typed_view(raw, name, kind, fs),
        None => unknown_view(raw, name),
    }
}

/// The event a message carries: none without an `Event` header.
pub open spec fn event_spec(raw: RawView) -> Option<EventView> {
    match hget(raw.headers, "Event"@) {
        Some(name) => Some(named_view(raw, name)),
        None => None,
    }
}

/// The name of the event a message carries is its `Event` header; a message
/// without that header carries no event.
pub proof fn lemma_event_name_is_header(raw: RawView)
    ensures
        match event_spec(raw) {
            Some(v) => hget(raw.headers, "Event"@) == Some(view_name(v)),
            None => hget(raw.headers, "Event"@) is None,
        },
{
    reveal(malformed_view);
    match hget(raw.headers, "Event"@) {
        Some(name) => {
            schema::lemma_schema_names(name);
        },
        None => {},
    }
}

/// A required text header.
pub fn text_field(raw: &RawAmiMessage, key: &str) -> (r: Option<String>)
    ensures
        match r {
            Some(v) => read_rule(raw@, FieldRule::Text(key@)) == Some(FieldValue::Text(v@)),
            None => read_rule(raw@, FieldRule::Text(key@)) is None,
        },
{
    match raw.get(key) {
        Some(v) => Some(v.to_owned()),
        None => None,
    }
}

/// A required `u32` header.
pub fn number_field(raw: &RawAmiMessage, key: &str) -> (r: Option<u32>)
    ensures
        match r {
            Some(n) => read_rule(raw@, FieldRule::Number(key@)) == Some(FieldValue::Number(n)),
            None => read_rule(raw@, FieldRule::Number(key@)) is None,
        },
{
    match raw.get(key) {
        Some(v) => parse_u32(v),
        None => None,
    }
}

/// An optional text header.
pub fn optional_field(raw: &RawAmiMessage, key: &str) -> (r: Option<String>)
    ensures
        read_rule(raw@, FieldRule::Optional(key@)) == Some(optional(r)),
{
    match raw.get(key) {
        Some(v) => Some(v.to_owned()),
        None => None,
    }
}

/// A header value with a secret-looking name replaced by the marker.
pub fn redact_header_value(key: &str, value: &str) -> (r: String)
    ensures
        r@ == redact_value(key@, value@),
{
    let n = normalize_key_exec(key);
    if is_secret_normalized(&n) {
        let m = "[REDACTED]";
        proof {
            reveal_strlit("[REDACTED]");
        }
        assert(m@ =~= redacted_marker());
        m.to_owned()
    } else {
        value.to_owned()
    }
}

/// All headers collected into a map (last value wins), secret-looking
/// values redacted.
pub fn redacted_headers(raw: &RawAmiMessage) -> (r: Vec<(String, String)>)
    ensures
        pairs_view(r@) == to_map_spec(redact_all(raw@.headers)),
{
    let ghost h = redact_all(raw@.headers);
    let mut out: Vec<(String, String)> = Vec::new();
    let n = raw.headers.len();
    let mut i: usize = 0;
    assert(pairs_view(out@) =~= to_map_spec(h.subrange(0, 0)));
    while i < n
        invariant
            n == raw.headers@.len(),
            h == redact_all(pairs_view(raw.headers@)),
            0 <= i <= n,
            pairs_view(out@) == to_map_spec(h.subrange(0, i as int)),
        decreases n - i,
    {
        let key = &raw.headers[i].0;
        let value = redact_header_value(key.as_str(), raw.headers[i].1.as_str());
        insert_variable(&mut out, key.clone(), value);
        assert(h.subrange(0, i + 1).drop_last() =~= h.subrange(0, i as int));
        i = i + 1;
    }
    assert(h.subrange(0, n as int) =~= h);
    out
}

/// The `Malformed` event for a known name whose field `field` failed.
pub fn malformed(raw: &RawAmiMessage, name: &str, field: &str) -> (r: AmiEvent)
    ensures
        r@ == malformed_view(raw@, name@, field@),
{
    proof {
        reveal(malformed_view);
    }
    let value = match raw.get(field) {
        Some(v) => Some(redact_header_value(field, v)),
        None => None,
    };
    AmiEvent::Malformed {
        event_name: name.to_owned(),
        field: field.to_owned(),
        value,
        headers: redacted_headers(raw),
    }
}

/// A copy of a list of pairs.
pub fn clone_pairs(v: &Vec<(String, String)>) -> (r: Vec<(String, String)>)
    ensures
        pairs_view(r@) == pairs_view(v@),
{
    let mut out: Vec<(String, String)> = Vec::new();
    let mut i: usize = 0;
    while i < v.len()
        invariant
            0 <= i <= v@.len(),
            pairs_view(out@) == pairs_view(v@.subrange(0, i as int)),
        decreases v@.len() - i,
    {
        let kv = &v[i];
        out.push((kv.0.clone(), kv.1.clone()));
        proof {
            assert(v@.subrange(0, i + 1) =~= v@.subrange(0, i as int).push(v@[i as int]));
            assert(pairs_view(v@.subrange(0, i + 1)) =~= pairs_view(v@.subrange(0, i as int)).push(
                (v@[i as int].0@, v@[i as int].1@),
            ));
            assert(pairs_view(out@) =~= pairs_view(v@.subrange(0, i + 1)));
        }
        i = i + 1;
    }
    assert(v@.subrange(0, v@.len() as int) =~= v@);
    out
}

/// The `Unknown` event for a name that is not known.
pub fn unknown(raw: &RawAmiMessage, name: &str) -> (r: AmiEvent)
    ensures
        r@ == unknown_view(raw@, name@),
{
    AmiEvent::Unknown { event_name: name.to_owned(), headers: raw.to_map() }
}

/// All known AMI event types.
#[derive(Debug, Clone, PartialEq)]
#[allow(inconsistent_fields)]
pub enum AmiEvent {
    /// new channel created
    NewChannel {
        channel: String,
        channel_state: String,
        channel_state_desc: String,
        caller_id_num: String,
        caller_id_name: String,
        unique_id: String,
        linked_id: String,
    },

    /// channel hung up
    Hangup {
        channel: String,
        unique_id: String,
        cause: u32,
        cause_txt: String,
    },

    /// channel state changed
    Newstate {
        channel: String,
        channel_state: String,
        channel_state_desc: String,
        unique_id: String,
    },

    /// dial begin
    DialBegin {
        channel: String,
        destination: String,
        dial_string: String,
        unique_id: String,
        dest_unique_id: String,
    },

    /// dial end
    DialEnd {
        channel: String,
        destination: String,
        dial_status: String,
        unique_id: String,
        dest_unique_id: String,
    },

    /// DTMF digit received
    DtmfBegin {
        channel: String,
        digit: String,
        direction: String,
        unique_id: String,
    },

    /// DTMF digit ended
    DtmfEnd {
        channel: String,
        digit: String,
        duration_ms: u32,
        direction: String,
        unique_id: String,
    },

    /// asterisk has finished booting
    FullyBooted {
        status: String,
    },

    /// peer registration/status change
    PeerStatus {
        channel_type: String,
        peer: String,
        peer_status: String,
    },

    /// bridge created
    BridgeCreate {
        bridge_unique_id: String,
        bridge_type: String,
    },

    /// bridge destroyed
    BridgeDestroy {
        bridge_unique_id: String,
    },

    /// channel entered bridge
    BridgeEnter {
        bridge_unique_id: String,
        channel: String,
        unique_id: String,
    },

    /// channel left bridge
    BridgeLeave {
        bridge_unique_id: String,
        channel: String,
        unique_id: String,
    },

    /// channel variable set
    VarSet {
        channel: Option<String>,
        variable: String,
        value: String,
        unique_id: Option<String>,
    },

    /// channel placed on hold
    Hold {
        channel: String,
        unique_id: String,
        music_class: Option<String>,
    },

    /// channel taken off hold
    Unhold {
        channel: String,
        unique_id: String,
    },

    /// hangup requested
    HangupRequest {
        channel: String,
        unique_id: String,
        cause: u32,
    },

    /// soft hangup requested
    SoftHangupRequest {
        channel: String,
        unique_id: String,
        cause: u32,
    },

    /// channel entered new dialplan extension
    NewExten {
        channel: String,
        context: String,
        extension: String,
        priority: u32,
        application: String,
        app_data: String,
        unique_id: String,
    },

    /// caller id changed
    NewCallerid {
        channel: String,
        caller_id_num: String,
        caller_id_name: String,
        unique_id: String,
        cid_calling_pres: String,
    },

    /// connected line info changed
    NewConnectedLine {
        channel: String,
        unique_id: String,
        connected_line_num: String,
        connected_line_name: String,
    },

    /// account code changed
    NewAccountCode {
        channel: String,
        unique_id: String,
        account_code: String,
        old_account_code: String,
    },

    /// channel renamed
    Rename {
        channel: String,
        new_name: String,
        unique_id: String,
    },

    /// originate result
    OriginateResponse {
        action_id: Option<String>,
        channel: String,
        unique_id: String,
        response: String,
        reason: String,
    },

    /// dial state changed
    DialState {
        channel: String,
        destination: String,
        dial_status: String,
        unique_id: String,
        dest_unique_id: String,
    },

    /// flash hook detected
    Flash {
        channel: String,
        unique_id: String,
    },

    /// wink detected
    Wink {
        channel: String,
        unique_id: String,
    },

    /// user-defined event
    UserEvent {
        channel: Option<String>,
        unique_id: Option<String>,
        user_event: String,
        headers: Vec<(String, String)>,
    },

    /// attended transfer completed
    AttendedTransfer {
        result: String,
        transferer_channel: String,
        transferer_unique_id: String,
        transferee_channel: String,
        transferee_unique_id: String,
    },

    /// blind transfer completed
    BlindTransfer {
        result: String,
        transferer_channel: String,
        transferer_unique_id: String,
        extension: String,
        context: String,
    },

    /// two bridges merged
    BridgeMerge {
        bridge_unique_id: String,
        bridge_type: String,
        to_bridge_unique_id: String,
    },

    /// channel info in bridge listing
    BridgeInfoChannel {
        bridge_unique_id: String,
        channel: String,
        unique_id: String,
    },

    /// bridge info listing complete
    BridgeInfoComplete {
        bridge_unique_id: String,
    },

    /// bridge video source changed
    BridgeVideoSourceUpdate {
        bridge_unique_id: String,
        bridge_video_source_unique_id: String,
    },

    /// local channel bridged
    LocalBridge {
        channel: String,
        unique_id: String,
        context: String,
        exten: String,
    },

    /// local optimization started
    LocalOptimizationBegin {
        channel: String,
        unique_id: String,
        source_unique_id: String,
        dest_unique_id: String,
    },

    /// local optimization ended
    LocalOptimizationEnd {
        channel: String,
        unique_id: String,
    },

    /// call detail record
    Cdr {
        channel: String,
        unique_id: String,
        destination: String,
        disposition: String,
        duration: u32,
        billable_seconds: u32,
        account_code: String,
        source: String,
        destination_context: String,
    },

    /// channel event logging
    Cel {
        channel: String,
        unique_id: String,
        event_name_cel: String,
        account_code: String,
        application_name: String,
        application_data: String,
    },

    /// caller abandoned queue
    QueueCallerAbandon {
        channel: String,
        unique_id: String,
        queue: String,
        position: u32,
        original_position: u32,
        hold_time: u32,
    },

    /// caller joined queue
    QueueCallerJoin {
        channel: String,
        unique_id: String,
        queue: String,
        position: u32,
        count: u32,
    },

    /// caller left queue
    QueueCallerLeave {
        channel: String,
        unique_id: String,
        queue: String,
        position: u32,
        count: u32,
    },

    /// member added to queue
    QueueMemberAdded {
        queue: String,
        member_name: String,
        interface: String,
        state_interface: String,
        membership: String,
        penalty: u32,
        paused: String,
    },

    /// member removed from queue
    QueueMemberRemoved {
        queue: String,
        member_name: String,
        interface: String,
    },

    /// member paused/unpaused
    QueueMemberPause {
        queue: String,
        member_name: String,
        interface: String,
        paused: String,
        reason: String,
    },

    /// member status changed
    QueueMemberStatus {
        queue: String,
        member_name: String,
        interface: String,
        status: u32,
        paused: String,
        calls_taken: u32,
    },

    /// member penalty changed
    QueueMemberPenalty {
        queue: String,
        member_name: String,
        interface: String,
        penalty: u32,
    },

    /// member ringinuse changed
    QueueMemberRinginuse {
        queue: String,
        member_name: String,
        interface: String,
        ringinuse: String,
    },

    /// queue parameters
    QueueParams {
        queue: String,
        max: u32,
        strategy: String,
        calls: u32,
        holdtime: u32,
        talktime: u32,
        completed: u32,
        abandoned: u32,
    },

    /// queue entry
    QueueEntry {
        queue: String,
        position: u32,
        channel: String,
        unique_id: String,
        caller_id_num: String,
        caller_id_name: String,
        wait: u32,
    },

    /// agent called from queue
    AgentCalled {
        channel: String,
        unique_id: String,
        queue: String,
        agent: String,
        destination_channel: String,
    },

    /// agent connected
    AgentConnect {
        channel: String,
        unique_id: String,
        queue: String,
        agent: String,
        hold_time: u32,
        bridge_unique_id: String,
    },

    /// agent completed call
    AgentComplete {
        channel: String,
        unique_id: String,
        queue: String,
        agent: String,
        hold_time: u32,
        talk_time: u32,
        reason: String,
    },

    /// agent dumped call
    AgentDump {
        channel: String,
        unique_id: String,
        queue: String,
        agent: String,
    },

    /// agent logged in
    AgentLogin {
        channel: String,
        unique_id: String,
        agent: String,
    },

    /// agent logged off
    AgentLogoff {
        agent: String,
        logintime: u32,
    },

    /// agent did not answer
    AgentRingNoAnswer {
        channel: String,
        unique_id: String,
        queue: String,
        agent: String,
        ring_time: u32,
    },

    /// agent list entry
    Agents {
        agent: String,
        name: String,
        status: String,
        channel: Option<String>,
    },

    /// agent list complete
    AgentsComplete,

    /// confbridge started
    ConfbridgeStart {
        bridge_unique_id: String,
        conference: String,
    },

    /// confbridge ended
    ConfbridgeEnd {
        bridge_unique_id: String,
        conference: String,
    },

    /// user joined confbridge
    ConfbridgeJoin {
        bridge_unique_id: String,
        conference: String,
        channel: String,
        unique_id: String,
        admin: String,
    },

    /// user left confbridge
    ConfbridgeLeave {
        bridge_unique_id: String,
        conference: String,
        channel: String,
        unique_id: String,
    },

    /// confbridge list entry
    ConfbridgeList {
        bridge_unique_id: String,
        conference: String,
        channel: String,
        unique_id: String,
        admin: String,
        muted: String,
    },

    /// confbridge user muted
    ConfbridgeMute {
        bridge_unique_id: String,
        conference: String,
        channel: String,
        unique_id: String,
    },

    /// confbridge user unmuted
    ConfbridgeUnmute {
        bridge_unique_id: String,
        conference: String,
        channel: String,
        unique_id: String,
    },

    /// confbridge talking status changed
    ConfbridgeTalking {
        bridge_unique_id: String,
        conference: String,
        channel: String,
        unique_id: String,
        talking_status: String,
    },

    /// confbridge recording started
    ConfbridgeRecord {
        bridge_unique_id: String,
        conference: String,
    },

    /// confbridge recording stopped
    ConfbridgeStopRecord {
        bridge_unique_id: String,
        conference: String,
    },

    /// confbridge room list entry
    ConfbridgeListRooms {
        conference: String,
        parties: u32,
        marked: u32,
        locked: String,
    },

    /// mixmonitor started
    MixMonitorStart {
        channel: String,
        unique_id: String,
    },

    /// mixmonitor stopped
    MixMonitorStop {
        channel: String,
        unique_id: String,
    },

    /// mixmonitor mute state changed
    MixMonitorMute {
        channel: String,
        unique_id: String,
        direction: String,
        state: String,
    },

    /// music on hold started
    MusicOnHoldStart {
        channel: String,
        unique_id: String,
        class: String,
    },

    /// music on hold stopped
    MusicOnHoldStop {
        channel: String,
        unique_id: String,
    },

    /// call parked
    ParkedCall {
        channel: String,
        unique_id: String,
        parking_lot: String,
        parking_space: u32,
        parker_dial_string: String,
        timeout: u32,
    },

    /// parked caller gave up
    ParkedCallGiveUp {
        channel: String,
        unique_id: String,
        parking_lot: String,
        parking_space: u32,
    },

    /// parked call timed out
    ParkedCallTimeOut {
        channel: String,
        unique_id: String,
        parking_lot: String,
        parking_space: u32,
    },

    /// parked call swapped
    ParkedCallSwap {
        channel: String,
        unique_id: String,
        parking_lot: String,
        parking_space: u32,
        parker_channel: String,
    },

    /// parked call retrieved
    UnParkedCall {
        channel: String,
        unique_id: String,
        parking_lot: String,
        parking_space: u32,
        retriever_channel: String,
    },

    /// call pickup
    Pickup {
        channel: String,
        unique_id: String,
        target_channel: String,
        target_unique_id: String,
    },

    /// channel spy started
    ChanSpyStart {
        channel: String,
        unique_id: String,
        spy_channel: String,
        spy_unique_id: String,
    },

    /// channel spy stopped
    ChanSpyStop {
        channel: String,
        unique_id: String,
        spy_channel: String,
        spy_unique_id: String,
    },

    /// channel started talking
    ChannelTalkingStart {
        channel: String,
        unique_id: String,
    },

    /// channel stopped talking
    ChannelTalkingStop {
        channel: String,
        unique_id: String,
        duration: u32,
    },

    /// device state changed
    DeviceStateChange {
        device: String,
        state: String,
    },

    /// extension status changed
    ExtensionStatus {
        exten: String,
        context: String,
        hint: String,
        status: u32,
        status_text: String,
    },

    /// presence state changed
    PresenceStateChange {
        presentity: String,
        status: String,
        subtype: String,
        message: String,
    },

    /// presence status
    PresenceStatus {
        presentity: String,
        status: String,
        subtype: String,
        message: String,
    },

    /// contact status changed
    ContactStatus {
        uri: String,
        contact_status: String,
        aor: String,
        endpoint_name: String,
    },

    /// registration status
    Registry {
        channel_type: String,
        domain: String,
        username: String,
        status: String,
        cause: String,
    },

    /// message waiting indication
    MessageWaiting {
        mailbox: String,
        waiting: String,
        new_messages: u32,
        old_messages: u32,
    },

    /// voicemail password changed
    ///
    /// **security note**: `new_password` contains the plaintext voicemail
    /// PIN as sent by Asterisk. avoid logging or serializing this event
    /// without redaction.
    VoicemailPasswordChange {
        context: String,
        mailbox: String,
        new_password: String,
    },

    /// rtcp packet received
    RTCPReceived {
        channel: String,
        unique_id: String,
        ssrc: String,
        pt: String,
        from: String,
    },

    /// rtcp packet sent
    RTCPSent {
        channel: String,
        unique_id: String,
        ssrc: String,
        pt: String,
        to: String,
    },

    /// acl check failed
    FailedACL {
        severity: String,
        service: String,
        account_id: String,
        remote_address: String,
    },

    /// invalid account id
    InvalidAccountID {
        severity: String,
        service: String,
        account_id: String,
        remote_address: String,
    },

    /// invalid password
    InvalidPassword {
        severity: String,
        service: String,
        account_id: String,
        remote_address: String,
    },

    /// challenge-response failed
    ChallengeResponseFailed {
        severity: String,
        service: String,
        account_id: String,
        remote_address: String,
    },

    /// challenge sent
    ChallengeSent {
        severity: String,
        service: String,
        account_id: String,
        remote_address: String,
    },

    /// authentication succeeded
    SuccessfulAuth {
        severity: String,
        service: String,
        account_id: String,
        remote_address: String,
    },

    /// session limit reached
    SessionLimit {
        severity: String,
        service: String,
        account_id: String,
        remote_address: String,
    },

    /// unexpected source address
    UnexpectedAddress {
        severity: String,
        service: String,
        account_id: String,
        remote_address: String,
    },

    /// bad request format
    RequestBadFormat {
        severity: String,
        service: String,
        account_id: String,
        remote_address: String,
    },

    /// request not allowed
    RequestNotAllowed {
        severity: String,
        service: String,
        account_id: String,
        remote_address: String,
    },

    /// request not supported
    RequestNotSupported {
        severity: String,
        service: String,
        account_id: String,
        remote_address: String,
    },

    /// invalid transport
    InvalidTransport {
        severity: String,
        service: String,
        account_id: String,
        remote_address: String,
    },

    /// auth method not allowed
    AuthMethodNotAllowed {
        severity: String,
        service: String,
        account_id: String,
        remote_address: String,
    },

    /// asterisk shutting down
    Shutdown {
        shutdown_status: String,
        restart: String,
    },

    /// module reloaded
    Reload {
        module: String,
        status: String,
    },

    /// module loaded
    Load {
        module: String,
        status: String,
    },

    /// module unloaded
    Unload {
        module: String,
        status: String,
    },

    /// log channel toggled
    LogChannel {
        channel_log: String,
        enabled: String,
    },

    /// load average exceeded limit
    LoadAverageLimit,

    /// memory usage exceeded limit
    MemoryLimit,

    /// async agi session started
    AsyncAGIStart {
        channel: String,
        unique_id: String,
        env: String,
    },

    /// async agi command executed
    AsyncAGIExec {
        channel: String,
        unique_id: String,
        command_id: String,
        result: String,
    },

    /// async agi session ended
    AsyncAGIEnd {
        channel: String,
        unique_id: String,
    },

    /// agi command execution started
    AGIExecStart {
        channel: String,
        unique_id: String,
        command: String,
        command_id: String,
    },

    /// agi command execution ended
    AGIExecEnd {
        channel: String,
        unique_id: String,
        command: String,
        command_id: String,
        result_code: String,
        result: String,
    },

    /// hangup handler pushed
    HangupHandlerPush {
        channel: String,
        unique_id: String,
        handler: String,
    },

    /// hangup handler popped
    HangupHandlerPop {
        channel: String,
        unique_id: String,
        handler: String,
    },

    /// hangup handler running
    HangupHandlerRun {
        channel: String,
        unique_id: String,
        handler: String,
    },

    /// channel status entry
    Status {
        channel: String,
        unique_id: String,
        channel_state: String,
        caller_id_num: String,
        caller_id_name: String,
        account_code: String,
        context: String,
        exten: String,
        priority: u32,
        seconds: u32,
        bridge_id: String,
        channel_variables: Vec<(String, String)>,
    },

    /// status listing complete
    StatusComplete {
        items: u32,
    },

    /// core show channel entry
    CoreShowChannel {
        channel: String,
        unique_id: String,
        channel_state: String,
        caller_id_num: String,
        caller_id_name: String,
        application: String,
        application_data: String,
        duration: String,
        bridge_id: String,
        channel_variables: Vec<(String, String)>,
    },

    /// core show channels complete
    CoreShowChannelsComplete {
        listed_channels: u32,
    },

    /// core show channel map complete
    CoreShowChannelMapComplete,

    /// dahdi channel info
    DAHDIChannel {
        dahdi_channel: String,
        channel: Option<String>,
        unique_id: Option<String>,
    },

    /// dahdi alarm
    Alarm {
        alarm: String,
        channel_dahdi: String,
    },

    /// dahdi alarm cleared
    AlarmClear {
        channel_dahdi: String,
    },

    /// dahdi span alarm
    SpanAlarm {
        span: u32,
        alarm: String,
    },

    /// dahdi span alarm cleared
    SpanAlarmClear {
        span: u32,
    },

    /// advice of charge — during call
    AocD {
        channel: String,
        unique_id: String,
        charge_type: String,
    },

    /// advice of charge — end of call
    AocE {
        channel: String,
        unique_id: String,
        charge_type: String,
    },

    /// advice of charge — setup
    AocS {
        channel: String,
        unique_id: String,
    },

    /// fax status update
    FAXStatus {
        channel: String,
        unique_id: String,
        operation: String,
        status: String,
        local_station_id: String,
        filename: String,
    },

    /// fax received
    ReceiveFAX {
        channel: String,
        unique_id: String,
        local_station_id: String,
        remote_station_id: String,
        pages_transferred: u32,
        resolution: String,
        filename: String,
    },

    /// fax sent
    SendFAX {
        channel: String,
        unique_id: String,
        local_station_id: String,
        remote_station_id: String,
        pages_transferred: u32,
        resolution: String,
        filename: String,
    },

    /// meetme user joined
    MeetmeJoin {
        meetme: String,
        user_num: String,
        channel: String,
        unique_id: String,
    },

    /// meetme user left
    MeetmeLeave {
        meetme: String,
        user_num: String,
        channel: String,
        unique_id: String,
        duration: u32,
    },

    /// meetme conference ended
    MeetmeEnd {
        meetme: String,
    },

    /// meetme user muted/unmuted
    MeetmeMute {
        meetme: String,
        user_num: String,
        channel: String,
        unique_id: String,
        status: String,
    },

    /// meetme user talking
    MeetmeTalking {
        meetme: String,
        user_num: String,
        channel: String,
        unique_id: String,
        status: String,
    },

    /// meetme talk request
    MeetmeTalkRequest {
        meetme: String,
        user_num: String,
        channel: String,
        unique_id: String,
        status: String,
    },

    /// meetme list entry
    MeetmeList {
        meetme: String,
        user_num: String,
        channel: String,
        unique_id: String,
        admin: String,
        muted: String,
        talking: String,
    },

    /// meetme room list entry
    MeetmeListRooms {
        conference: String,
        parties: u32,
        marked: u32,
        locked: String,
    },

    /// device state list complete
    DeviceStateListComplete {
        items: u32,
    },

    /// extension state list complete
    ExtensionStateListComplete {
        items: u32,
    },

    /// presence state list complete
    PresenceStateListComplete {
        items: u32,
    },

    /// aor detail
    AorDetail {
        object_name: String,
        contacts: String,
    },

    /// aor list entry
    AorList {
        object_name: String,
    },

    /// aor list complete
    AorListComplete {
        items: u32,
    },

    /// auth detail
    AuthDetail {
        object_name: String,
        username: String,
    },

    /// auth list entry
    AuthList {
        object_name: String,
    },

    /// auth list complete
    AuthListComplete {
        items: u32,
    },

    /// contact list entry
    ContactList {
        uri: String,
        contact_status: String,
        aor: String,
    },

    /// contact list complete
    ContactListComplete {
        items: u32,
    },

    /// contact status detail
    ContactStatusDetail {
        uri: String,
        contact_status: String,
        aor: String,
    },

    /// endpoint detail
    EndpointDetail {
        object_name: String,
        device_state: String,
        active_channels: String,
    },

    /// endpoint detail complete
    EndpointDetailComplete {
        items: u32,
    },

    /// endpoint list entry
    EndpointList {
        object_name: String,
        transport: String,
        aor: String,
    },

    /// endpoint list complete
    EndpointListComplete {
        items: u32,
    },

    /// identify detail
    IdentifyDetail {
        object_name: String,
        endpoint: String,
    },

    /// transport detail
    TransportDetail {
        object_name: String,
        protocol: String,
    },

    /// resource list detail
    ResourceListDetail {
        object_name: String,
    },

    /// inbound registration detail
    InboundRegistrationDetail {
        object_name: String,
        contacts: String,
    },

    /// outbound registration detail
    OutboundRegistrationDetail {
        object_name: String,
        server_uri: String,
    },

    /// inbound subscription detail
    InboundSubscriptionDetail {
        object_name: String,
    },

    /// outbound subscription detail
    OutboundSubscriptionDetail {
        object_name: String,
    },

    /// mwi get response
    MWIGet {
        mailbox: String,
        old_messages: u32,
        new_messages: u32,
    },

    /// mwi get complete
    MWIGetComplete {
        items: u32,
    },

    /// minivm voicemail notification
    MiniVoiceMail {
        channel: String,
        unique_id: String,
        mailbox: String,
        counter: String,
    },

    /// fax session info
    FAXSession {
        channel: String,
        unique_id: String,
        session_number: String,
    },

    /// fax sessions list entry
    FAXSessionsEntry {
        channel: String,
        session_number: String,
        technology: String,
        state: String,
        files: String,
    },

    /// fax sessions list complete
    FAXSessionsComplete {
        total: u32,
    },

    /// fax statistics
    FAXStats {
        current_sessions: u32,
        reserved_sessions: u32,
        transmit_attempts: u32,
        receive_attempts: u32,
        completed_faxes: u32,
        failed_faxes: u32,
    },

    /// do not disturb state changed
    DNDState {
        channel: String,
        status: String,
    },

    /// deadlock detected
    DeadlockStart,

    /// malicious call id
    MCID {
        channel: String,
        unique_id: String,
        caller_id_num: String,
        caller_id_name: String,
    },

    /// recognized event whose required field is missing or invalid
    Malformed {
        event_name: String,
        field: String,
        value: Option<String>,
        headers: Vec<(String, String)>,
    },

    /// unrecognized event — carries all raw headers
    Unknown {
        event_name: String,
        headers: Vec<(String, String)>,
    },

}

/// The variants of [`AmiEvent`], without their fields.
#[derive(PartialEq, Eq, Structural, Clone, Copy)]
pub enum EventKind {
    NewChannel,
    Hangup,
    Newstate,
    DialBegin,
    DialEnd,
    DtmfBegin,
    DtmfEnd,
    FullyBooted,
    PeerStatus,
    BridgeCreate,
    BridgeDestroy,
    BridgeEnter,
    BridgeLeave,
    VarSet,
    Hold,
    Unhold,
    HangupRequest,
    SoftHangupRequest,
    NewExten,
    NewCallerid,
    NewConnectedLine,
    NewAccountCode,
    Rename,
    OriginateResponse,
    DialState,
    Flash,
    Wink,
    UserEvent,
    AttendedTransfer,
    BlindTransfer,
    BridgeMerge,
    BridgeInfoChannel,
    BridgeInfoComplete,
    BridgeVideoSourceUpdate,
    LocalBridge,
    LocalOptimizationBegin,
    LocalOptimizationEnd,
    Cdr,
    Cel,
    QueueCallerAbandon,
    QueueCallerJoin,
    QueueCallerLeave,
    QueueMemberAdded,
    QueueMemberRemoved,
    QueueMemberPause,
    QueueMemberStatus,
    QueueMemberPenalty,
    QueueMemberRinginuse,
    QueueParams,
    QueueEntry,
    AgentCalled,
    AgentConnect,
    AgentComplete,
    AgentDump,
    AgentLogin,
    AgentLogoff,
    AgentRingNoAnswer,
    Agents,
    AgentsComplete,
    ConfbridgeStart,
    ConfbridgeEnd,
    ConfbridgeJoin,
    ConfbridgeLeave,
    ConfbridgeList,
    ConfbridgeMute,
    ConfbridgeUnmute,
    ConfbridgeTalking,
    ConfbridgeRecord,
    ConfbridgeStopRecord,
    ConfbridgeListRooms,
    MixMonitorStart,
    MixMonitorStop,
    MixMonitorMute,
    MusicOnHoldStart,
    MusicOnHoldStop,
    ParkedCall,
    ParkedCallGiveUp,
    ParkedCallTimeOut,
    ParkedCallSwap,
    UnParkedCall,
    Pickup,
    ChanSpyStart,
    ChanSpyStop,
    ChannelTalkingStart,
    ChannelTalkingStop,
    DeviceStateChange,
    ExtensionStatus,
    PresenceStateChange,
    PresenceStatus,
    ContactStatus,
    Registry,
    MessageWaiting,
    VoicemailPasswordChange,
    RTCPReceived,
    RTCPSent,
    FailedACL,
    InvalidAccountID,
    InvalidPassword,
    ChallengeResponseFailed,
    ChallengeSent,
    SuccessfulAuth,
    SessionLimit,
    UnexpectedAddress,
    RequestBadFormat,
    RequestNotAllowed,
    RequestNotSupported,
    InvalidTransport,
    AuthMethodNotAllowed,
    Shutdown,
    Reload,
    Load,
    Unload,
    LogChannel,
    LoadAverageLimit,
    MemoryLimit,
    AsyncAGIStart,
    AsyncAGIExec,
    AsyncAGIEnd,
    AGIExecStart,
    AGIExecEnd,
    HangupHandlerPush,
    HangupHandlerPop,
    HangupHandlerRun,
    Status,
    StatusComplete,
    CoreShowChannel,
    CoreShowChannelsComplete,
    CoreShowChannelMapComplete,
    DAHDIChannel,
    Alarm,
    AlarmClear,
    SpanAlarm,
    SpanAlarmClear,
    AocD,
    AocE,
    AocS,
    FAXStatus,
    ReceiveFAX,
    SendFAX,
    MeetmeJoin,
    MeetmeLeave,
    MeetmeEnd,
    MeetmeMute,
    MeetmeTalking,
    MeetmeTalkRequest,
    MeetmeList,
    MeetmeListRooms,
    DeviceStateListComplete,
    ExtensionStateListComplete,
    PresenceStateListComplete,
    AorDetail,
    AorList,
    AorListComplete,
    AuthDetail,
    AuthList,
    AuthListComplete,
    ContactList,
    ContactListComplete,
    ContactStatusDetail,
    EndpointDetail,
    EndpointDetailComplete,
    EndpointList,
    EndpointListComplete,
    IdentifyDetail,
    TransportDetail,
    ResourceListDetail,
    InboundRegistrationDetail,
    OutboundRegistrationDetail,
    InboundSubscriptionDetail,
    OutboundSubscriptionDetail,
    MWIGet,
    MWIGetComplete,
    MiniVoiceMail,
    FAXSession,
    FAXSessionsEntry,
    FAXSessionsComplete,
    FAXStats,
    DNDState,
    DeadlockStart,
    MCID,
    Malformed,
    Unknown,
}

impl View for AmiEvent {
    type V = EventView;

    open spec fn view(&self) -> EventView {
        match self {
            AmiEvent::NewChannel { channel, channel_state, channel_state_desc, caller_id_num, caller_id_name, unique_id, linked_id } => EventView {
                kind: EventKind::NewChannel,
                values: vcons(text(*channel), vcons(text(*channel_state), vcons(text(*channel_state_desc), vcons(text(*caller_id_num), vcons(text(*caller_id_name), vcons(text(*unique_id), vcons(text(*linked_id), Values::End))))))),
            },
            AmiEvent::Hangup { channel, unique_id, cause, cause_txt } => EventView {
                kind: EventKind::Hangup,
                values: vcons(text(*channel), vcons(text(*unique_id), vcons(FieldValue::Number(*cause), vcons(text(*cause_txt), Values::End)))),
            },
            AmiEvent::Newstate { channel, channel_state, channel_state_desc, unique_id } => EventView {
                kind: EventKind::Newstate,
                values: vcons(text(*channel), vcons(text(*channel_state), vcons(text(*channel_state_desc), vcons(text(*unique_id), Values::End)))),
            },
            AmiEvent::DialBegin { channel, destination, dial_string, unique_id, dest_unique_id } => EventView {
                kind: EventKind::DialBegin,
                values: vcons(text(*channel), vcons(text(*destination), vcons(text(*dial_string), vcons(text(*unique_id), vcons(text(*dest_unique_id), Values::End))))),
            },
            AmiEvent::DialEnd { channel, destination, dial_status, unique_id, dest_unique_id } => EventView {
                kind: EventKind::DialEnd,
                values: vcons(text(*channel), vcons(text(*destination), vcons(text(*dial_status), vcons(text(*unique_id), vcons(text(*dest_unique_id), Values::End))))),
            },
            AmiEvent::DtmfBegin { channel, digit, direction, unique_id } => EventView {
                kind: EventKind::DtmfBegin,
                values: vcons(text(*channel), vcons(text(*digit), vcons(text(*direction), vcons(text(*unique_id), Values::End)))),
            },
            AmiEvent::DtmfEnd { channel, digit, duration_ms, direction, unique_id } => EventView {
                kind: EventKind::DtmfEnd,
                values: vcons(text(*channel), vcons(text(*digit), vcons(FieldValue::Number(*duration_ms), vcons(text(*direction), vcons(text(*unique_id), Values::End))))),
            },
            AmiEvent::FullyBooted { status } => EventView {
                kind: EventKind::FullyBooted,
                values: vcons(text(*status), Values::End),
            },
            AmiEvent::PeerStatus { channel_type, peer, peer_status } => EventView {
                kind: EventKind::PeerStatus,
                values: vcons(text(*channel_type), vcons(text(*peer), vcons(text(*peer_status), Values::End))),
            },
            AmiEvent::BridgeCreate { bridge_unique_id, bridge_type } => EventView {
                kind: EventKind::BridgeCreate,
                values: vcons(text(*bridge_unique_id), vcons(text(*bridge_type), Values::End)),
            },
            AmiEvent::BridgeDestroy { bridge_unique_id } => EventView {
                kind: EventKind::BridgeDestroy,
                values: vcons(text(*bridge_unique_id), Values::End),
            },
            AmiEvent::BridgeEnter { bridge_unique_id, channel, unique_id } => EventView {
                kind: EventKind::BridgeEnter,
                values: vcons(text(*bridge_unique_id), vcons(text(*channel), vcons(text(*unique_id), Values::End))),
            },
            AmiEvent::BridgeLeave { bridge_unique_id, channel, unique_id } => EventView {
                kind: EventKind::BridgeLeave,
                values: vcons(text(*bridge_unique_id), vcons(text(*channel), vcons(text(*unique_id), Values::End))),
            },
            AmiEvent::VarSet { channel, variable, value, unique_id } => EventView {
                kind: EventKind::VarSet,
                values: vcons(optional(*channel), vcons(text(*variable), vcons(text(*value), vcons(optional(*unique_id), Values::End)))),
            },
            AmiEvent::Hold { channel, unique_id, music_class } => EventView {
                kind: EventKind::Hold,
                values: vcons(text(*channel), vcons(text(*unique_id), vcons(optional(*music_class), Values::End))),
            },
            AmiEvent::Unhold { channel, unique_id } => EventView {
                kind: EventKind::Unhold,
                values: vcons(text(*channel), vcons(text(*unique_id), Values::End)),
            },
            AmiEvent::HangupRequest { channel, unique_id, cause } => EventView {
                kind: EventKind::HangupRequest,
                values: vcons(text(*channel), vcons(text(*unique_id), vcons(FieldValue::Number(*cause), Values::End))),
            },
            AmiEvent::SoftHangupRequest { channel, unique_id, cause } => EventView {
                kind: EventKind::SoftHangupRequest,
                values: vcons(text(*channel), vcons(text(*unique_id), vcons(FieldValue::Number(*cause), Values::End))),
            },
            AmiEvent::NewExten { channel, context, extension, priority, application, app_data, unique_id } => EventView {
                kind: EventKind::NewExten,
                values: vcons(text(*channel), vcons(text(*context), vcons(text(*extension), vcons(FieldValue::Number(*priority), vcons(text(*application), vcons(text(*app_data), vcons(text(*unique_id), Values::End))))))),
            },
            AmiEvent::NewCallerid { channel, caller_id_num, caller_id_name, unique_id, cid_calling_pres } => EventView {
                kind: EventKind::NewCallerid,
                values: vcons(text(*channel), vcons(text(*caller_id_num), vcons(text(*caller_id_name), vcons(text(*unique_id), vcons(text(*cid_calling_pres), Values::End))))),
            },
            AmiEvent::NewConnectedLine { channel, unique_id, connected_line_num, connected_line_name } => EventView {
                kind: EventKind::NewConnectedLine,
                values: vcons(text(*channel), vcons(text(*unique_id), vcons(text(*connected_line_num), vcons(text(*connected_line_name), Values::End)))),
            },
            AmiEvent::NewAccountCode { channel, unique_id, account_code, old_account_code } => EventView {
                kind: EventKind::NewAccountCode,
                values: vcons(text(*channel), vcons(text(*unique_id), vcons(text(*account_code), vcons(text(*old_account_code), Values::End)))),
            },
            AmiEvent::Rename { channel, new_name, unique_id } => EventView {
                kind: EventKind::Rename,
                values: vcons(text(*channel), vcons(text(*new_name), vcons(text(*unique_id), Values::End))),
            },
            AmiEvent::OriginateResponse { action_id, channel, unique_id, response, reason } => EventView {
                kind: EventKind::OriginateResponse,
                values: vcons(optional(*action_id), vcons(text(*channel), vcons(text(*unique_id), vcons(text(*response), vcons(text(*reason), Values::End))))),
            },
            AmiEvent::DialState { channel, destination, dial_status, unique_id, dest_unique_id } => EventView {
                kind: EventKind::DialState,
                values: vcons(text(*channel), vcons(text(*destination), vcons(text(*dial_status), vcons(text(*unique_id), vcons(text(*dest_unique_id), Values::End))))),
            },
            AmiEvent::Flash { channel, unique_id } => EventView {
                kind: EventKind::Flash,
                values: vcons(text(*channel), vcons(text(*unique_id), Values::End)),
            },
            AmiEvent::Wink { channel, unique_id } => EventView {
                kind: EventKind::Wink,
                values: vcons(text(*channel), vcons(text(*unique_id), Values::End)),
            },
            AmiEvent::UserEvent { channel, unique_id, user_event, headers } => EventView {
                kind: EventKind::UserEvent,
                values: vcons(optional(*channel), vcons(optional(*unique_id), vcons(text(*user_event), vcons(FieldValue::Pairs(pairs_view(headers@)), Values::End)))),
            },
            AmiEvent::AttendedTransfer { result, transferer_channel, transferer_unique_id, transferee_channel, transferee_unique_id } => EventView {
                kind: EventKind::AttendedTransfer,
                values: vcons(text(*result), vcons(text(*transferer_channel), vcons(text(*transferer_unique_id), vcons(text(*transferee_channel), vcons(text(*transferee_unique_id), Values::End))))),
            },
            AmiEvent::BlindTransfer { result, transferer_channel, transferer_unique_id, extension, context } => EventView {
                kind: EventKind::BlindTransfer,
                values: vcons(text(*result), vcons(text(*transferer_channel), vcons(text(*transferer_unique_id), vcons(text(*extension), vcons(text(*context), Values::End))))),
            },
            AmiEvent::BridgeMerge { bridge_unique_id, bridge_type, to_bridge_unique_id } => EventView {
                kind: EventKind::BridgeMerge,
                values: vcons(text(*bridge_unique_id), vcons(text(*bridge_type), vcons(text(*to_bridge_unique_id), Values::End))),
            },
            AmiEvent::BridgeInfoChannel { bridge_unique_id, channel, unique_id } => EventView {
                kind: EventKind::BridgeInfoChannel,
                values: vcons(text(*bridge_unique_id), vcons(text(*channel), vcons(text(*unique_id), Values::End))),
            },
            AmiEvent::BridgeInfoComplete { bridge_unique_id } => EventView {
                kind: EventKind::BridgeInfoComplete,
                values: vcons(text(*bridge_unique_id), Values::End),
            },
            AmiEvent::BridgeVideoSourceUpdate { bridge_unique_id, bridge_video_source_unique_id } => EventView {
                kind: EventKind::BridgeVideoSourceUpdate,
                values: vcons(text(*bridge_unique_id), vcons(text(*bridge_video_source_unique_id), Values::End)),
            },
            AmiEvent::LocalBridge { channel, unique_id, context, exten } => EventView {
                kind: EventKind::LocalBridge,
                values: vcons(text(*channel), vcons(text(*unique_id), vcons(text(*context), vcons(text(*exten), Values::End)))),
            },
            AmiEvent::LocalOptimizationBegin { channel, unique_id, source_unique_id, dest_unique_id } => EventView {
                kind: EventKind::LocalOptimizationBegin,
                values: vcons(text(*channel), vcons(text(*unique_id), vcons(text(*source_unique_id), vcons(text(*dest_unique_id), Values::End)))),
            },
            AmiEvent::LocalOptimizationEnd { channel, unique_id } => EventView {
                kind: EventKind::LocalOptimizationEnd,
                values: vcons(text(*channel), vcons(text(*unique_id), Values::End)),
            },
            AmiEvent::Cdr { channel, unique_id, destination, disposition, duration, billable_seconds, account_code, source, destination_context } => EventView {
                kind: EventKind::Cdr,
                values: vcons(text(*channel), vcons(text(*unique_id), vcons(text(*destination), vcons(text(*disposition), vcons(FieldValue::Number(*duration), vcons(FieldValue::Number(*billable_seconds), vcons(text(*account_code), vcons(text(*source), vcons(text(*destination_context), Values::End))))))))),
            },
            AmiEvent::Cel { channel, unique_id, event_name_cel, account_code, application_name, application_data } => EventView {
                kind: EventKind::Cel,
                values: vcons(text(*channel), vcons(text(*unique_id), vcons(text(*event_name_cel), vcons(text(*account_code), vcons(text(*application_name), vcons(text(*application_data), Values::End)))))),
            },
            AmiEvent::QueueCallerAbandon { channel, unique_id, queue, position, original_position, hold_time } => EventView {
                kind: EventKind::QueueCallerAbandon,
                values: vcons(text(*channel), vcons(text(*unique_id), vcons(text(*queue), vcons(FieldValue::Number(*position), vcons(FieldValue::Number(*original_position), vcons(FieldValue::Number(*hold_time), Values::End)))))),
            },
            AmiEvent::QueueCallerJoin { channel, unique_id, queue, position, count } => EventView {
                kind: EventKind::QueueCallerJoin,
                values: vcons(text(*channel), vcons(text(*unique_id), vcons(text(*queue), vcons(FieldValue::Number(*position), vcons(FieldValue::Number(*count), Values::End))))),
            },
            AmiEvent::QueueCallerLeave { channel, unique_id, queue, position, count } => EventView {
                kind: EventKind::QueueCallerLeave,
                values: vcons(text(*channel), vcons(text(*unique_id), vcons(text(*queue), vcons(FieldValue::Number(*position), vcons(FieldValue::Number(*count), Values::End))))),
            },
            AmiEvent::QueueMemberAdded { queue, member_name, interface, state_interface, membership, penalty, paused } => EventView {
                kind: EventKind::QueueMemberAdded,
                values: vcons(text(*queue), vcons(text(*member_name), vcons(text(*interface), vcons(text(*state_interface), vcons(text(*membership), vcons(FieldValue::Number(*penalty), vcons(text(*paused), Values::End))))))),
            },
            AmiEvent::QueueMemberRemoved { queue, member_name, interface } => EventView {
                kind: EventKind::QueueMemberRemoved,
                values: vcons(text(*queue), vcons(text(*member_name), vcons(text(*interface), Values::End))),
            },
            AmiEvent::QueueMemberPause { queue, member_name, interface, paused, reason } => EventView {
                kind: EventKind::QueueMemberPause,
                values: vcons(text(*queue), vcons(text(*member_name), vcons(text(*interface), vcons(text(*paused), vcons(text(*reason), Values::End))))),
            },
            AmiEvent::QueueMemberStatus { queue, member_name, interface, status, paused, calls_taken } => EventView {
                kind: EventKind::QueueMemberStatus,
                values: vcons(text(*queue), vcons(text(*member_name), vcons(text(*interface), vcons(FieldValue::Number(*status), vcons(text(*paused), vcons(FieldValue::Number(*calls_taken), Values::End)))))),
            },
            AmiEvent::QueueMemberPenalty { queue, member_name, interface, penalty } => EventView {
                kind: EventKind::QueueMemberPenalty,
                values: vcons(text(*queue), vcons(text(*member_name), vcons(text(*interface), vcons(FieldValue::Number(*penalty), Values::End)))),
            },
            AmiEvent::QueueMemberRinginuse { queue, member_name, interface, ringinuse } => EventView {
                kind: EventKind::QueueMemberRinginuse,
                values: vcons(text(*queue), vcons(text(*member_name), vcons(text(*interface), vcons(text(*ringinuse), Values::End)))),
            },
            AmiEvent::QueueParams { queue, max, strategy, calls, holdtime, talktime, completed, abandoned } => EventView {
                kind: EventKind::QueueParams,
                values: vcons(text(*queue), vcons(FieldValue::Number(*max), vcons(text(*strategy), vcons(FieldValue::Number(*calls), vcons(FieldValue::Number(*holdtime), vcons(FieldValue::Number(*talktime), vcons(FieldValue::Number(*completed), vcons(FieldValue::Number(*abandoned), Values::End)))))))),
            },
            AmiEvent::QueueEntry { queue, position, channel, unique_id, caller_id_num, caller_id_name, wait } => EventView {
                kind: EventKind::QueueEntry,
                values: vcons(text(*queue), vcons(FieldValue::Number(*position), vcons(text(*channel), vcons(text(*unique_id), vcons(text(*caller_id_num), vcons(text(*caller_id_name), vcons(FieldValue::Number(*wait), Values::End))))))),
            },
            AmiEvent::AgentCalled { channel, unique_id, queue, agent, destination_channel } => EventView {
                kind: EventKind::AgentCalled,
                values: vcons(text(*channel), vcons(text(*unique_id), vcons(text(*queue), vcons(text(*agent), vcons(text(*destination_channel), Values::End))))),
            },
            AmiEvent::AgentConnect { channel, unique_id, queue, agent, hold_time, bridge_unique_id } => EventView {
                kind: EventKind::AgentConnect,
                values: vcons(text(*channel), vcons(text(*unique_id), vcons(text(*queue), vcons(text(*agent), vcons(FieldValue::Number(*hold_time), vcons(text(*bridge_unique_id), Values::End)))))),
            },
            AmiEvent::AgentComplete { channel, unique_id, queue, agent, hold_time, talk_time, reason } => EventView {
                kind: EventKind::AgentComplete,
                values: vcons(text(*channel), vcons(text(*unique_id), vcons(text(*queue), vcons(text(*agent), vcons(FieldValue::Number(*hold_time), vcons(FieldValue::Number(*talk_time), vcons(text(*reason), Values::End))))))),
            },
            AmiEvent::AgentDump { channel, unique_id, queue, agent } => EventView {
                kind: EventKind::AgentDump,
                values: vcons(text(*channel), vcons(text(*unique_id), vcons(text(*queue), vcons(text(*agent), Values::End)))),
            },
            AmiEvent::AgentLogin { channel, unique_id, agent } => EventView {
                kind: EventKind::AgentLogin,
                values: vcons(text(*channel), vcons(text(*unique_id), vcons(text(*agent), Values::End))),
            },
            AmiEvent::AgentLogoff { agent, logintime } => EventView {
                kind: EventKind::AgentLogoff,
                values: vcons(text(*agent), vcons(FieldValue::Number(*logintime), Values::End)),
            },
            AmiEvent::AgentRingNoAnswer { channel, unique_id, queue, agent, ring_time } => EventView {
                kind: EventKind::AgentRingNoAnswer,
                values: vcons(text(*channel), vcons(text(*unique_id), vcons(text(*queue), vcons(text(*agent), vcons(FieldValue::Number(*ring_time), Values::End))))),
            },
            AmiEvent::Agents { agent, name, status, channel } => EventView {
                kind: EventKind::Agents,
                values: vcons(text(*agent), vcons(text(*name), vcons(text(*status), vcons(optional(*channel), Values::End)))),
            },
            AmiEvent::AgentsComplete => EventView { kind: EventKind::AgentsComplete, values: Values::End },
            AmiEvent::ConfbridgeStart { bridge_unique_id, conference } => EventView {
                kind: EventKind::ConfbridgeStart,
                values: vcons(text(*bridge_unique_id), vcons(text(*conference), Values::End)),
            },
            AmiEvent::ConfbridgeEnd { bridge_unique_id, conference } => EventView {
                kind: EventKind::ConfbridgeEnd,
                values: vcons(text(*bridge_unique_id), vcons(text(*conference), Values::End)),
            },
            AmiEvent::ConfbridgeJoin { bridge_unique_id, conference, channel, unique_id, admin } => EventView {
                kind: EventKind::ConfbridgeJoin,
                values: vcons(text(*bridge_unique_id), vcons(text(*conference), vcons(text(*channel), vcons(text(*unique_id), vcons(text(*admin), Values::End))))),
            },
            AmiEvent::ConfbridgeLeave { bridge_unique_id, conference, channel, unique_id } => EventView {
                kind: EventKind::ConfbridgeLeave,
                values: vcons(text(*bridge_unique_id), vcons(text(*conference), vcons(text(*channel), vcons(text(*unique_id), Values::End)))),
            },
            AmiEvent::ConfbridgeList { bridge_unique_id, conference, channel, unique_id, admin, muted } => EventView {
                kind: EventKind::ConfbridgeList,
                values: vcons(text(*bridge_unique_id), vcons(text(*conference), vcons(text(*channel), vcons(text(*unique_id), vcons(text(*admin), vcons(text(*muted), Values::End)))))),
            },
            AmiEvent::ConfbridgeMute { bridge_unique_id, conference, channel, unique_id } => EventView {
                kind: EventKind::ConfbridgeMute,
                values: vcons(text(*bridge_unique_id), vcons(text(*conference), vcons(text(*channel), vcons(text(*unique_id), Values::End)))),
            },
            AmiEvent::ConfbridgeUnmute { bridge_unique_id, conference, channel, unique_id } => EventView {
                kind: EventKind::ConfbridgeUnmute,
                values: vcons(text(*bridge_unique_id), vcons(text(*conference), vcons(text(*channel), vcons(text(*unique_id), Values::End)))),
            },
            AmiEvent::ConfbridgeTalking { bridge_unique_id, conference, channel, unique_id, talking_status } => EventView {
                kind: EventKind::ConfbridgeTalking,
                values: vcons(text(*bridge_unique_id), vcons(text(*conference), vcons(text(*channel), vcons(text(*unique_id), vcons(text(*talking_status), Values::End))))),
            },
            AmiEvent::ConfbridgeRecord { bridge_unique_id, conference } => EventView {
                kind: EventKind::ConfbridgeRecord,
                values: vcons(text(*bridge_unique_id), vcons(text(*conference), Values::End)),
            },
            AmiEvent::ConfbridgeStopRecord { bridge_unique_id, conference } => EventView {
                kind: EventKind::ConfbridgeStopRecord,
                values: vcons(text(*bridge_unique_id), vcons(text(*conference), Values::End)),
            },
            AmiEvent::ConfbridgeListRooms { conference, parties, marked, locked } => EventView {
                kind: EventKind::ConfbridgeListRooms,
                values: vcons(text(*conference), vcons(FieldValue::Number(*parties), vcons(FieldValue::Number(*marked), vcons(text(*locked), Values::End)))),
            },
            AmiEvent::MixMonitorStart { channel, unique_id } => EventView {
                kind: EventKind::MixMonitorStart,
                values: vcons(text(*channel), vcons(text(*unique_id), Values::End)),
            },
            AmiEvent::MixMonitorStop { channel, unique_id } => EventView {
                kind: EventKind::MixMonitorStop,
                values: vcons(text(*channel), vcons(text(*unique_id), Values::End)),
            },
            AmiEvent::MixMonitorMute { channel, unique_id, direction, state } => EventView {
                kind: EventKind::MixMonitorMute,
                values: vcons(text(*channel), vcons(text(*unique_id), vcons(text(*direction), vcons(text(*state), Values::End)))),
            },
            AmiEvent::MusicOnHoldStart { channel, unique_id, class } => EventView {
                kind: EventKind::MusicOnHoldStart,
                values: vcons(text(*channel), vcons(text(*unique_id), vcons(text(*class), Values::End))),
            },
            AmiEvent::MusicOnHoldStop { channel, unique_id } => EventView {
                kind: EventKind::MusicOnHoldStop,
                values: vcons(text(*channel), vcons(text(*unique_id), Values::End)),
            },
            AmiEvent::ParkedCall { channel, unique_id, parking_lot, parking_space, parker_dial_string, timeout } => EventView {
                kind: EventKind::ParkedCall,
                values: vcons(text(*channel), vcons(text(*unique_id), vcons(text(*parking_lot), vcons(FieldValue::Number(*parking_space), vcons(text(*parker_dial_string), vcons(FieldValue::Number(*timeout), Values::End)))))),
            },
            AmiEvent::ParkedCallGiveUp { channel, unique_id, parking_lot, parking_space } => EventView {
                kind: EventKind::ParkedCallGiveUp,
                values: vcons(text(*channel), vcons(text(*unique_id), vcons(text(*parking_lot), vcons(FieldValue::Number(*parking_space), Values::End)))),
            },
            AmiEvent::ParkedCallTimeOut { channel, unique_id, parking_lot, parking_space } => EventView {
                kind: EventKind::ParkedCallTimeOut,
                values: vcons(text(*channel), vcons(text(*unique_id), vcons(text(*parking_lot), vcons(FieldValue::Number(*parking_space), Values::End)))),
            },
            AmiEvent::ParkedCallSwap { channel, unique_id, parking_lot, parking_space, parker_channel } => EventView {
                kind: EventKind::ParkedCallSwap,
                values: vcons(text(*channel), vcons(text(*unique_id), vcons(text(*parking_lot), vcons(FieldValue::Number(*parking_space), vcons(text(*parker_channel), Values::End))))),
            },
            AmiEvent::UnParkedCall { channel, unique_id, parking_lot, parking_space, retriever_channel } => EventView {
                kind: EventKind::UnParkedCall,
                values: vcons(text(*channel), vcons(text(*unique_id), vcons(text(*parking_lot), vcons(FieldValue::Number(*parking_space), vcons(text(*retriever_channel), Values::End))))),
            },
            AmiEvent::Pickup { channel, unique_id, target_channel, target_unique_id } => EventView {
                kind: EventKind::Pickup,
                values: vcons(text(*channel), vcons(text(*unique_id), vcons(text(*target_channel), vcons(text(*target_unique_id), Values::End)))),
            },
            AmiEvent::ChanSpyStart { channel, unique_id, spy_channel, spy_unique_id } => EventView {
                kind: EventKind::ChanSpyStart,
                values: vcons(text(*channel), vcons(text(*unique_id), vcons(text(*spy_channel), vcons(text(*spy_unique_id), Values::End)))),
            },
            AmiEvent::ChanSpyStop { channel, unique_id, spy_channel, spy_unique_id } => EventView {
                kind: EventKind::ChanSpyStop,
                values: vcons(text(*channel), vcons(text(*unique_id), vcons(text(*spy_channel), vcons(text(*spy_unique_id), Values::End)))),
            },
            AmiEvent::ChannelTalkingStart { channel, unique_id } => EventView {
                kind: EventKind::ChannelTalkingStart,
                values: vcons(text(*channel), vcons(text(*unique_id), Values::End)),
            },
            AmiEvent::ChannelTalkingStop { channel, unique_id, duration } => EventView {
                kind: EventKind::ChannelTalkingStop,
                values: vcons(text(*channel), vcons(text(*unique_id), vcons(FieldValue::Number(*duration), Values::End))),
            },
            AmiEvent::DeviceStateChange { device, state } => EventView {
                kind: EventKind::DeviceStateChange,
                values: vcons(text(*device), vcons(text(*state), Values::End)),
            },
            AmiEvent::ExtensionStatus { exten, context, hint, status, status_text } => EventView {
                kind: EventKind::ExtensionStatus,
                values: vcons(text(*exten), vcons(text(*context), vcons(text(*hint), vcons(FieldValue::Number(*status), vcons(text(*status_text), Values::End))))),
            },
            AmiEvent::PresenceStateChange { presentity, status, subtype, message } => EventView {
                kind: EventKind::PresenceStateChange,
                values: vcons(text(*presentity), vcons(text(*status), vcons(text(*subtype), vcons(text(*message), Values::End)))),
            },
            AmiEvent::PresenceStatus { presentity, status, subtype, message } => EventView {
                kind: EventKind::PresenceStatus,
                values: vcons(text(*presentity), vcons(text(*status), vcons(text(*subtype), vcons(text(*message), Values::End)))),
            },
            AmiEvent::ContactStatus { uri, contact_status, aor, endpoint_name } => EventView {
                kind: EventKind::ContactStatus,
                values: vcons(text(*uri), vcons(text(*contact_status), vcons(text(*aor), vcons(text(*endpoint_name), Values::End)))),
            },
            AmiEvent::Registry { channel_type, domain, username, status, cause } => EventView {
                kind: EventKind::Registry,
                values: vcons(text(*channel_type), vcons(text(*domain), vcons(text(*username), vcons(text(*status), vcons(text(*cause), Values::End))))),
            },
            AmiEvent::MessageWaiting { mailbox, waiting, new_messages, old_messages } => EventView {
                kind: EventKind::MessageWaiting,
                values: vcons(text(*mailbox), vcons(text(*waiting), vcons(FieldValue::Number(*new_messages), vcons(FieldValue::Number(*old_messages), Values::End)))),
            },
            AmiEvent::VoicemailPasswordChange { context, mailbox, new_password } => EventView {
                kind: EventKind::VoicemailPasswordChange,
                values: vcons(text(*context), vcons(text(*mailbox), vcons(text(*new_password), Values::End))),
            },
            AmiEvent::RTCPReceived { channel, unique_id, ssrc, pt, from } => EventView {
                kind: EventKind::RTCPReceived,
                values: vcons(text(*channel), vcons(text(*unique_id), vcons(text(*ssrc), vcons(text(*pt), vcons(text(*from), Values::End))))),
            },
            AmiEvent::RTCPSent { channel, unique_id, ssrc, pt, to } => EventView {
                kind: EventKind::RTCPSent,
                values: vcons(text(*channel), vcons(text(*unique_id), vcons(text(*ssrc), vcons(text(*pt), vcons(text(*to), Values::End))))),
            },
            AmiEvent::FailedACL { severity, service, account_id, remote_address } => EventView {
                kind: EventKind::FailedACL,
                values: vcons(text(*severity), vcons(text(*service), vcons(text(*account_id), vcons(text(*remote_address), Values::End)))),
            },
            AmiEvent::InvalidAccountID { severity, service, account_id, remote_address } => EventView {
                kind: EventKind::InvalidAccountID,
                values: vcons(text(*severity), vcons(text(*service), vcons(text(*account_id), vcons(text(*remote_address), Values::End)))),
            },
            AmiEvent::InvalidPassword { severity, service, account_id, remote_address } => EventView {
                kind: EventKind::InvalidPassword,
                values: vcons(text(*severity), vcons(text(*service), vcons(text(*account_id), vcons(text(*remote_address), Values::End)))),
            },
            AmiEvent::ChallengeResponseFailed { severity, service, account_id, remote_address } => EventView {
                kind: EventKind::ChallengeResponseFailed,
                values: vcons(text(*severity), vcons(text(*service), vcons(text(*account_id), vcons(text(*remote_address), Values::End)))),
            },
            AmiEvent::ChallengeSent { severity, service, account_id, remote_address } => EventView {
                kind: EventKind::ChallengeSent,
                values: vcons(text(*severity), vcons(text(*service), vcons(text(*account_id), vcons(text(*remote_address), Values::End)))),
            },
            AmiEvent::SuccessfulAuth { severity, service, account_id, remote_address } => EventView {
                kind: EventKind::SuccessfulAuth,
                values: vcons(text(*severity), vcons(text(*service), vcons(text(*account_id), vcons(text(*remote_address), Values::End)))),
            },
            AmiEvent::SessionLimit { severity, service, account_id, remote_address } => EventView {
                kind: EventKind::SessionLimit,
                values: vcons(text(*severity), vcons(text(*service), vcons(text(*account_id), vcons(text(*remote_address), Values::End)))),
            },
            AmiEvent::UnexpectedAddress { severity, service, account_id, remote_address } => EventView {
                kind: EventKind::UnexpectedAddress,
                values: vcons(text(*severity), vcons(text(*service), vcons(text(*account_id), vcons(text(*remote_address), Values::End)))),
            },
            AmiEvent::RequestBadFormat { severity, service, account_id, remote_address } => EventView {
                kind: EventKind::RequestBadFormat,
                values: vcons(text(*severity), vcons(text(*service), vcons(text(*account_id), vcons(text(*remote_address), Values::End)))),
            },
            AmiEvent::RequestNotAllowed { severity, service, account_id, remote_address } => EventView {
                kind: EventKind::RequestNotAllowed,
                values: vcons(text(*severity), vcons(text(*service), vcons(text(*account_id), vcons(text(*remote_address), Values::End)))),
            },
            AmiEvent::RequestNotSupported { severity, service, account_id, remote_address } => EventView {
                kind: EventKind::RequestNotSupported,
                values: vcons(text(*severity), vcons(text(*service), vcons(text(*account_id), vcons(text(*remote_address), Values::End)))),
            },
            AmiEvent::InvalidTransport { severity, service, account_id, remote_address } => EventView {
                kind: EventKind::InvalidTransport,
                values: vcons(text(*severity), vcons(text(*service), vcons(text(*account_id), vcons(text(*remote_address), Values::End)))),
            },
            AmiEvent::AuthMethodNotAllowed { severity, service, account_id, remote_address } => EventView {
                kind: EventKind::AuthMethodNotAllowed,
                values: vcons(text(*severity), vcons(text(*service), vcons(text(*account_id), vcons(text(*remote_address), Values::End)))),
            },
            AmiEvent::Shutdown { shutdown_status, restart } => EventView {
                kind: EventKind::Shutdown,
                values: vcons(text(*shutdown_status), vcons(text(*restart), Values::End)),
            },
            AmiEvent::Reload { module, status } => EventView {
                kind: EventKind::Reload,
                values: vcons(text(*module), vcons(text(*status), Values::End)),
            },
            AmiEvent::Load { module, status } => EventView {
                kind: EventKind::Load,
                values: vcons(text(*module), vcons(text(*status), Values::End)),
            },
            AmiEvent::Unload { module, status } => EventView {
                kind: EventKind::Unload,
                values: vcons(text(*module), vcons(text(*status), Values::End)),
            },
            AmiEvent::LogChannel { channel_log, enabled } => EventView {
                kind: EventKind::LogChannel,
                values: vcons(text(*channel_log), vcons(text(*enabled), Values::End)),
            },
            AmiEvent::LoadAverageLimit => EventView { kind: EventKind::LoadAverageLimit, values: Values::End },
            AmiEvent::MemoryLimit => EventView { kind: EventKind::MemoryLimit, values: Values::End },
            AmiEvent::AsyncAGIStart { channel, unique_id, env } => EventView {
                kind: EventKind::AsyncAGIStart,
                values: vcons(text(*channel), vcons(text(*unique_id), vcons(text(*env), Values::End))),
            },
            AmiEvent::AsyncAGIExec { channel, unique_id, command_id, result } => EventView {
                kind: EventKind::AsyncAGIExec,
                values: vcons(text(*channel), vcons(text(*unique_id), vcons(text(*command_id), vcons(text(*result), Values::End)))),
            },
            AmiEvent::AsyncAGIEnd { channel, unique_id } => EventView {
                kind: EventKind::AsyncAGIEnd,
                values: vcons(text(*channel), vcons(text(*unique_id), Values::End)),
            },
            AmiEvent::AGIExecStart { channel, unique_id, command, command_id } => EventView {
                kind: EventKind::AGIExecStart,
                values: vcons(text(*channel), vcons(text(*unique_id), vcons(text(*command), vcons(text(*command_id), Values::End)))),
            },
            AmiEvent::AGIExecEnd { channel, unique_id, command, command_id, result_code, result } => EventView {
                kind: EventKind::AGIExecEnd,
                values: vcons(text(*channel), vcons(text(*unique_id), vcons(text(*command), vcons(text(*command_id), vcons(text(*result_code), vcons(text(*result), Values::End)))))),
            },
            AmiEvent::HangupHandlerPush { channel, unique_id, handler } => EventView {
                kind: EventKind::HangupHandlerPush,
                values: vcons(text(*channel), vcons(text(*unique_id), vcons(text(*handler), Values::End))),
            },
            AmiEvent::HangupHandlerPop { channel, unique_id, handler } => EventView {
                kind: EventKind::HangupHandlerPop,
                values: vcons(text(*channel), vcons(text(*unique_id), vcons(text(*handler), Values::End))),
            },
            AmiEvent::HangupHandlerRun { channel, unique_id, handler } => EventView {
                kind: EventKind::HangupHandlerRun,
                values: vcons(text(*channel), vcons(text(*unique_id), vcons(text(*handler), Values::End))),
            },
            AmiEvent::Status { channel, unique_id, channel_state, caller_id_num, caller_id_name, account_code, context, exten, priority, seconds, bridge_id, channel_variables } => EventView {
                kind: EventKind::Status,
                values: vcons(text(*channel), vcons(text(*unique_id), vcons(text(*channel_state), vcons(text(*caller_id_num), vcons(text(*caller_id_name), vcons(text(*account_code), vcons(text(*context), vcons(text(*exten), vcons(FieldValue::Number(*priority), vcons(FieldValue::Number(*seconds), vcons(text(*bridge_id), vcons(FieldValue::Pairs(pairs_view(channel_variables@)), Values::End)))))))))))),
            },
            AmiEvent::StatusComplete { items } => EventView {
                kind: EventKind::StatusComplete,
                values: vcons(FieldValue::Number(*items), Values::End),
            },
            AmiEvent::CoreShowChannel { channel, unique_id, channel_state, caller_id_num, caller_id_name, application, application_data, duration, bridge_id, channel_variables } => EventView {
                kind: EventKind::CoreShowChannel,
                values: vcons(text(*channel), vcons(text(*unique_id), vcons(text(*channel_state), vcons(text(*caller_id_num), vcons(text(*caller_id_name), vcons(text(*application), vcons(text(*application_data), vcons(text(*duration), vcons(text(*bridge_id), vcons(FieldValue::Pairs(pairs_view(channel_variables@)), Values::End)))))))))),
            },
            AmiEvent::CoreShowChannelsComplete { listed_channels } => EventView {
                kind: EventKind::CoreShowChannelsComplete,
                values: vcons(FieldValue::Number(*listed_channels), Values::End),
            },
            AmiEvent::CoreShowChannelMapComplete => EventView { kind: EventKind::CoreShowChannelMapComplete, values: Values::End },
            AmiEvent::DAHDIChannel { dahdi_channel, channel, unique_id } => EventView {
                kind: EventKind::DAHDIChannel,
                values: vcons(text(*dahdi_channel), vcons(optional(*channel), vcons(optional(*unique_id), Values::End))),
            },
            AmiEvent::Alarm { alarm, channel_dahdi } => EventView {
                kind: EventKind::Alarm,
                values: vcons(text(*alarm), vcons(text(*channel_dahdi), Values::End)),
            },
            AmiEvent::AlarmClear { channel_dahdi } => EventView {
                kind: EventKind::AlarmClear,
                values: vcons(text(*channel_dahdi), Values::End),
            },
            AmiEvent::SpanAlarm { span, alarm } => EventView {
                kind: EventKind::SpanAlarm,
                values: vcons(FieldValue::Number(*span), vcons(text(*alarm), Values::End)),
            },
            AmiEvent::SpanAlarmClear { span } => EventView {
                kind: EventKind::SpanAlarmClear,
                values: vcons(FieldValue::Number(*span), Values::End),
            },
            AmiEvent::AocD { channel, unique_id, charge_type } => EventView {
                kind: EventKind::AocD,
                values: vcons(text(*channel), vcons(text(*unique_id), vcons(text(*charge_type), Values::End))),
            },
            AmiEvent::AocE { channel, unique_id, charge_type } => EventView {
                kind: EventKind::AocE,
                values: vcons(text(*channel), vcons(text(*unique_id), vcons(text(*charge_type), Values::End))),
            },
            AmiEvent::AocS { channel, unique_id } => EventView {
                kind: EventKind::AocS,
                values: vcons(text(*channel), vcons(text(*unique_id), Values::End)),
            },
            AmiEvent::FAXStatus { channel, unique_id, operation, status, local_station_id, filename } => EventView {
                kind: EventKind::FAXStatus,
                values: vcons(text(*channel), vcons(text(*unique_id), vcons(text(*operation), vcons(text(*status), vcons(text(*local_station_id), vcons(text(*filename), Values::End)))))),
            },
            AmiEvent::ReceiveFAX { channel, unique_id, local_station_id, remote_station_id, pages_transferred, resolution, filename } => EventView {
                kind: EventKind::ReceiveFAX,
                values: vcons(text(*channel), vcons(text(*unique_id), vcons(text(*local_station_id), vcons(text(*remote_station_id), vcons(FieldValue::Number(*pages_transferred), vcons(text(*resolution), vcons(text(*filename), Values::End))))))),
            },
            AmiEvent::SendFAX { channel, unique_id, local_station_id, remote_station_id, pages_transferred, resolution, filename } => EventView {
                kind: EventKind::SendFAX,
                values: vcons(text(*channel), vcons(text(*unique_id), vcons(text(*local_station_id), vcons(text(*remote_station_id), vcons(FieldValue::Number(*pages_transferred), vcons(text(*resolution), vcons(text(*filename), Values::End))))))),
            },
            AmiEvent::MeetmeJoin { meetme, user_num, channel, unique_id } => EventView {
                kind: EventKind::MeetmeJoin,
                values: vcons(text(*meetme), vcons(text(*user_num), vcons(text(*channel), vcons(text(*unique_id), Values::End)))),
            },
            AmiEvent::MeetmeLeave { meetme, user_num, channel, unique_id, duration } => EventView {
                kind: EventKind::MeetmeLeave,
                values: vcons(text(*meetme), vcons(text(*user_num), vcons(text(*channel), vcons(text(*unique_id), vcons(FieldValue::Number(*duration), Values::End))))),
            },
            AmiEvent::MeetmeEnd { meetme } => EventView {
                kind: EventKind::MeetmeEnd,
                values: vcons(text(*meetme), Values::End),
            },
            AmiEvent::MeetmeMute { meetme, user_num, channel, unique_id, status } => EventView {
                kind: EventKind::MeetmeMute,
                values: vcons(text(*meetme), vcons(text(*user_num), vcons(text(*channel), vcons(text(*unique_id), vcons(text(*status), Values::End))))),
            },
            AmiEvent::MeetmeTalking { meetme, user_num, channel, unique_id, status } => EventView {
                kind: EventKind::MeetmeTalking,
                values: vcons(text(*meetme), vcons(text(*user_num), vcons(text(*channel), vcons(text(*unique_id), vcons(text(*status), Values::End))))),
            },
            AmiEvent::MeetmeTalkRequest { meetme, user_num, channel, unique_id, status } => EventView {
                kind: EventKind::MeetmeTalkRequest,
                values: vcons(text(*meetme), vcons(text(*user_num), vcons(text(*channel), vcons(text(*unique_id), vcons(text(*status), Values::End))))),
            },
            AmiEvent::MeetmeList { meetme, user_num, channel, unique_id, admin, muted, talking } => EventView {
                kind: EventKind::MeetmeList,
                values: vcons(text(*meetme), vcons(text(*user_num), vcons(text(*channel), vcons(text(*unique_id), vcons(text(*admin), vcons(text(*muted), vcons(text(*talking), Values::End))))))),
            },
            AmiEvent::MeetmeListRooms { conference, parties, marked, locked } => EventView {
                kind: EventKind::MeetmeListRooms,
                values: vcons(text(*conference), vcons(FieldValue::Number(*parties), vcons(FieldValue::Number(*marked), vcons(text(*locked), Values::End)))),
            },
            AmiEvent::DeviceStateListComplete { items } => EventView {
                kind: EventKind::DeviceStateListComplete,
                values: vcons(FieldValue::Number(*items), Values::End),
            },
            AmiEvent::ExtensionStateListComplete { items } => EventView {
                kind: EventKind::ExtensionStateListComplete,
                values: vcons(FieldValue::Number(*items), Values::End),
            },
            AmiEvent::PresenceStateListComplete { items } => EventView {
                kind: EventKind::PresenceStateListComplete,
                values: vcons(FieldValue::Number(*items), Values::End),
            },
            AmiEvent::AorDetail { object_name, contacts } => EventView {
                kind: EventKind::AorDetail,
                values: vcons(text(*object_name), vcons(text(*contacts), Values::End)),
            },
            AmiEvent::AorList { object_name } => EventView {
                kind: EventKind::AorList,
                values: vcons(text(*object_name), Values::End),
            },
            AmiEvent::AorListComplete { items } => EventView {
                kind: EventKind::AorListComplete,
                values: vcons(FieldValue::Number(*items), Values::End),
            },
            AmiEvent::AuthDetail { object_name, username } => EventView {
                kind: EventKind::AuthDetail,
                values: vcons(text(*object_name), vcons(text(*username), Values::End)),
            },
            AmiEvent::AuthList { object_name } => EventView {
                kind: EventKind::AuthList,
                values: vcons(text(*object_name), Values::End),
            },
            AmiEvent::AuthListComplete { items } => EventView {
                kind: EventKind::AuthListComplete,
                values: vcons(FieldValue::Number(*items), Values::End),
            },
            AmiEvent::ContactList { uri, contact_status, aor } => EventView {
                kind: EventKind::ContactList,
                values: vcons(text(*uri), vcons(text(*contact_status), vcons(text(*aor), Values::End))),
            },
            AmiEvent::ContactListComplete { items } => EventView {
                kind: EventKind::ContactListComplete,
                values: vcons(FieldValue::Number(*items), Values::End),
            },
            AmiEvent::ContactStatusDetail { uri, contact_status, aor } => EventView {
                kind: EventKind::ContactStatusDetail,
                values: vcons(text(*uri), vcons(text(*contact_status), vcons(text(*aor), Values::End))),
            },
            AmiEvent::EndpointDetail { object_name, device_state, active_channels } => EventView {
                kind: EventKind::EndpointDetail,
                values: vcons(text(*object_name), vcons(text(*device_state), vcons(text(*active_channels), Values::End))),
            },
            AmiEvent::EndpointDetailComplete { items } => EventView {
                kind: EventKind::EndpointDetailComplete,
                values: vcons(FieldValue::Number(*items), Values::End),
            },
            AmiEvent::EndpointList { object_name, transport, aor } => EventView {
                kind: EventKind::EndpointList,
                values: vcons(text(*object_name), vcons(text(*transport), vcons(text(*aor), Values::End))),
            },
            AmiEvent::EndpointListComplete { items } => EventView {
                kind: EventKind::EndpointListComplete,
                values: vcons(FieldValue::Number(*items), Values::End),
            },
            AmiEvent::IdentifyDetail { object_name, endpoint } => EventView {
                kind: EventKind::IdentifyDetail,
                values: vcons(text(*object_name), vcons(text(*endpoint), Values::End)),
            },
            AmiEvent::TransportDetail { object_name, protocol } => EventView {
                kind: EventKind::TransportDetail,
                values: vcons(text(*object_name), vcons(text(*protocol), Values::End)),
            },
            AmiEvent::ResourceListDetail { object_name } => EventView {
                kind: EventKind::ResourceListDetail,
                values: vcons(text(*object_name), Values::End),
            },
            AmiEvent::InboundRegistrationDetail { object_name, contacts } => EventView {
                kind: EventKind::InboundRegistrationDetail,
                values: vcons(text(*object_name), vcons(text(*contacts), Values::End)),
            },
            AmiEvent::OutboundRegistrationDetail { object_name, server_uri } => EventView {
                kind: EventKind::OutboundRegistrationDetail,
                values: vcons(text(*object_name), vcons(text(*server_uri), Values::End)),
            },
            AmiEvent::InboundSubscriptionDetail { object_name } => EventView {
                kind: EventKind::InboundSubscriptionDetail,
                values: vcons(text(*object_name), Values::End),
            },
            AmiEvent::OutboundSubscriptionDetail { object_name } => EventView {
                kind: EventKind::OutboundSubscriptionDetail,
                values: vcons(text(*object_name), Values::End),
            },
            AmiEvent::MWIGet { mailbox, old_messages, new_messages } => EventView {
                kind: EventKind::MWIGet,
                values: vcons(text(*mailbox), vcons(FieldValue::Number(*old_messages), vcons(FieldValue::Number(*new_messages), Values::End))),
            },
            AmiEvent::MWIGetComplete { items } => EventView {
                kind: EventKind::MWIGetComplete,
                values: vcons(FieldValue::Number(*items), Values::End),
            },
            AmiEvent::MiniVoiceMail { channel, unique_id, mailbox, counter } => EventView {
                kind: EventKind::MiniVoiceMail,
                values: vcons(text(*channel), vcons(text(*unique_id), vcons(text(*mailbox), vcons(text(*counter), Values::End)))),
            },
            AmiEvent::FAXSession { channel, unique_id, session_number } => EventView {
                kind: EventKind::FAXSession,
                values: vcons(text(*channel), vcons(text(*unique_id), vcons(text(*session_number), Values::End))),
            },
            AmiEvent::FAXSessionsEntry { channel, session_number, technology, state, files } => EventView {
                kind: EventKind::FAXSessionsEntry,
                values: vcons(text(*channel), vcons(text(*session_number), vcons(text(*technology), vcons(text(*state), vcons(text(*files), Values::End))))),
            },
            AmiEvent::FAXSessionsComplete { total } => EventView {
                kind: EventKind::FAXSessionsComplete,
                values: vcons(FieldValue::Number(*total), Values::End),
            },
            AmiEvent::FAXStats { current_sessions, reserved_sessions, transmit_attempts, receive_attempts, completed_faxes, failed_faxes } => EventView {
                kind: EventKind::FAXStats,
                values: vcons(FieldValue::Number(*current_sessions), vcons(FieldValue::Number(*reserved_sessions), vcons(FieldValue::Number(*transmit_attempts), vcons(FieldValue::Number(*receive_attempts), vcons(FieldValue::Number(*completed_faxes), vcons(FieldValue::Number(*failed_faxes), Values::End)))))),
            },
            AmiEvent::DNDState { channel, status } => EventView {
                kind: EventKind::DNDState,
                values: vcons(text(*channel), vcons(text(*status), Values::End)),
            },
            AmiEvent::DeadlockStart => EventView { kind: EventKind::DeadlockStart, values: Values::End },
            AmiEvent::MCID { channel, unique_id, caller_id_num, caller_id_name } => EventView {
                kind: EventKind::MCID,
                values: vcons(text(*channel), vcons(text(*unique_id), vcons(text(*caller_id_num), vcons(text(*caller_id_name), Values::End)))),
            },
            AmiEvent::Malformed { event_name, field, value, headers } => EventView {
                kind: EventKind::Malformed,
                values: vcons(text(*event_name), vcons(text(*field), vcons(optional(*value), vcons(FieldValue::Pairs(pairs_view(headers@)), Values::End)))),
            },
            AmiEvent::Unknown { event_name, headers } => EventView {
                kind: EventKind::Unknown,
                values: vcons(text(*event_name), vcons(FieldValue::Pairs(pairs_view(headers@)), Values::End)),
            },
        }
    }
}

/// The `Event` header value of a known kind.
pub open spec fn kind_name(k: EventKind) -> Seq<char> {
    match k {
        EventKind::NewChannel => "Newchannel"@,
        EventKind::Hangup => "Hangup"@,
        EventKind::Newstate => "Newstate"@,
        EventKind::DialBegin => "DialBegin"@,
        EventKind::DialEnd => "DialEnd"@,
        EventKind::DtmfBegin => "DTMFBegin"@,
        EventKind::DtmfEnd => "DTMFEnd"@,
        EventKind::FullyBooted => "FullyBooted"@,
        EventKind::PeerStatus => "PeerStatus"@,
        EventKind::BridgeCreate => "BridgeCreate"@,
        EventKind::BridgeDestroy => "BridgeDestroy"@,
        EventKind::BridgeEnter => "BridgeEnter"@,
        EventKind::BridgeLeave => "BridgeLeave"@,
        EventKind::VarSet => "VarSet"@,
        EventKind::Hold => "Hold"@,
        EventKind::Unhold => "Unhold"@,
        EventKind::HangupRequest => "HangupRequest"@,
        EventKind::SoftHangupRequest => "SoftHangupRequest"@,
        EventKind::NewExten => "NewExten"@,
        EventKind::NewCallerid => "NewCallerid"@,
        EventKind::NewConnectedLine => "NewConnectedLine"@,
        EventKind::NewAccountCode => "NewAccountCode"@,
        EventKind::Rename => "Rename"@,
        EventKind::OriginateResponse => "OriginateResponse"@,
        EventKind::DialState => "DialState"@,
        EventKind::Flash => "Flash"@,
        EventKind::Wink => "Wink"@,
        EventKind::UserEvent => "UserEvent"@,
        EventKind::AttendedTransfer => "AttendedTransfer"@,
        EventKind::BlindTransfer => "BlindTransfer"@,
        EventKind::BridgeMerge => "BridgeMerge"@,
        EventKind::BridgeInfoChannel => "BridgeInfoChannel"@,
        EventKind::BridgeInfoComplete => "BridgeInfoComplete"@,
        EventKind::BridgeVideoSourceUpdate => "BridgeVideoSourceUpdate"@,
        EventKind::LocalBridge => "LocalBridge"@,
        EventKind::LocalOptimizationBegin => "LocalOptimizationBegin"@,
        EventKind::LocalOptimizationEnd => "LocalOptimizationEnd"@,
        EventKind::Cdr => "Cdr"@,
        EventKind::Cel => "CEL"@,
        EventKind::QueueCallerAbandon => "QueueCallerAbandon"@,
        EventKind::QueueCallerJoin => "QueueCallerJoin"@,
        EventKind::QueueCallerLeave => "QueueCallerLeave"@,
        EventKind::QueueMemberAdded => "QueueMemberAdded"@,
        EventKind::QueueMemberRemoved => "QueueMemberRemoved"@,
        EventKind::QueueMemberPause => "QueueMemberPause"@,
        EventKind::QueueMemberStatus => "QueueMemberStatus"@,
        EventKind::QueueMemberPenalty => "QueueMemberPenalty"@,
        EventKind::QueueMemberRinginuse => "QueueMemberRinginuse"@,
        EventKind::QueueParams => "QueueParams"@,
        EventKind::QueueEntry => "QueueEntry"@,
        EventKind::AgentCalled => "AgentCalled"@,
        EventKind::AgentConnect => "AgentConnect"@,
        EventKind::AgentComplete => "AgentComplete"@,
        EventKind::AgentDump => "AgentDump"@,
        EventKind::AgentLogin => "AgentLogin"@,
        EventKind::AgentLogoff => "AgentLogoff"@,
        EventKind::AgentRingNoAnswer => "AgentRingNoAnswer"@,
        EventKind::Agents => "Agents"@,
        EventKind::AgentsComplete => "AgentsComplete"@,
        EventKind::ConfbridgeStart => "ConfbridgeStart"@,
        EventKind::ConfbridgeEnd => "ConfbridgeEnd"@,
        EventKind::ConfbridgeJoin => "ConfbridgeJoin"@,
        EventKind::ConfbridgeLeave => "ConfbridgeLeave"@,
        EventKind::ConfbridgeList => "ConfbridgeList"@,
        EventKind::ConfbridgeMute => "ConfbridgeMute"@,
        EventKind::ConfbridgeUnmute => "ConfbridgeUnmute"@,
        EventKind::ConfbridgeTalking => "ConfbridgeTalking"@,
        EventKind::ConfbridgeRecord => "ConfbridgeRecord"@,
        EventKind::ConfbridgeStopRecord => "ConfbridgeStopRecord"@,
        EventKind::ConfbridgeListRooms => "ConfbridgeListRooms"@,
        EventKind::MixMonitorStart => "MixMonitorStart"@,
        EventKind::MixMonitorStop => "MixMonitorStop"@,
        EventKind::MixMonitorMute => "MixMonitorMute"@,
        EventKind::MusicOnHoldStart => "MusicOnHoldStart"@,
        EventKind::MusicOnHoldStop => "MusicOnHoldStop"@,
        EventKind::ParkedCall => "ParkedCall"@,
        EventKind::ParkedCallGiveUp => "ParkedCallGiveUp"@,
        EventKind::ParkedCallTimeOut => "ParkedCallTimeOut"@,
        EventKind::ParkedCallSwap => "ParkedCallSwap"@,
        EventKind::UnParkedCall => "UnParkedCall"@,
        EventKind::Pickup => "Pickup"@,
        EventKind::ChanSpyStart => "ChanSpyStart"@,
        EventKind::ChanSpyStop => "ChanSpyStop"@,
        EventKind::ChannelTalkingStart => "ChannelTalkingStart"@,
        EventKind::ChannelTalkingStop => "ChannelTalkingStop"@,
        EventKind::DeviceStateChange => "DeviceStateChange"@,
        EventKind::ExtensionStatus => "ExtensionStatus"@,
        EventKind::PresenceStateChange => "PresenceStateChange"@,
        EventKind::PresenceStatus => "PresenceStatus"@,
        EventKind::ContactStatus => "ContactStatus"@,
        EventKind::Registry => "Registry"@,
        EventKind::MessageWaiting => "MessageWaiting"@,
        EventKind::VoicemailPasswordChange => "VoicemailPasswordChange"@,
        EventKind::RTCPReceived => "RTCPReceived"@,
        EventKind::RTCPSent => "RTCPSent"@,
        EventKind::FailedACL => "FailedACL"@,
        EventKind::InvalidAccountID => "InvalidAccountID"@,
        EventKind::InvalidPassword => "InvalidPassword"@,
        EventKind::ChallengeResponseFailed => "ChallengeResponseFailed"@,
        EventKind::ChallengeSent => "ChallengeSent"@,
        EventKind::SuccessfulAuth => "SuccessfulAuth"@,
        EventKind::SessionLimit => "SessionLimit"@,
        EventKind::UnexpectedAddress => "UnexpectedAddress"@,
        EventKind::RequestBadFormat => "RequestBadFormat"@,
        EventKind::RequestNotAllowed => "RequestNotAllowed"@,
        EventKind::RequestNotSupported => "RequestNotSupported"@,
        EventKind::InvalidTransport => "InvalidTransport"@,
        EventKind::AuthMethodNotAllowed => "AuthMethodNotAllowed"@,
        EventKind::Shutdown => "Shutdown"@,
        EventKind::Reload => "Reload"@,
        EventKind::Load => "Load"@,
        EventKind::Unload => "Unload"@,
        EventKind::LogChannel => "LogChannel"@,
        EventKind::LoadAverageLimit => "LoadAverageLimit"@,
        EventKind::MemoryLimit => "MemoryLimit"@,
        EventKind::AsyncAGIStart => "AsyncAGIStart"@,
        EventKind::AsyncAGIExec => "AsyncAGIExec"@,
        EventKind::AsyncAGIEnd => "AsyncAGIEnd"@,
        EventKind::AGIExecStart => "AGIExecStart"@,
        EventKind::AGIExecEnd => "AGIExecEnd"@,
        EventKind::HangupHandlerPush => "HangupHandlerPush"@,
        EventKind::HangupHandlerPop => "HangupHandlerPop"@,
        EventKind::HangupHandlerRun => "HangupHandlerRun"@,
        EventKind::Status => "Status"@,
        EventKind::StatusComplete => "StatusComplete"@,
        EventKind::CoreShowChannel => "CoreShowChannel"@,
        EventKind::CoreShowChannelsComplete => "CoreShowChannelsComplete"@,
        EventKind::CoreShowChannelMapComplete => "CoreShowChannelMapComplete"@,
        EventKind::DAHDIChannel => "DAHDIChannel"@,
        EventKind::Alarm => "Alarm"@,
        EventKind::AlarmClear => "AlarmClear"@,
        EventKind::SpanAlarm => "SpanAlarm"@,
        EventKind::SpanAlarmClear => "SpanAlarmClear"@,
        EventKind::AocD => "AOC-D"@,
        EventKind::AocE => "AOC-E"@,
        EventKind::AocS => "AOC-S"@,
        EventKind::FAXStatus => "FAXStatus"@,
        EventKind::ReceiveFAX => "ReceiveFAX"@,
        EventKind::SendFAX => "SendFAX"@,
        EventKind::MeetmeJoin => "MeetmeJoin"@,
        EventKind::MeetmeLeave => "MeetmeLeave"@,
        EventKind::MeetmeEnd => "MeetmeEnd"@,
        EventKind::MeetmeMute => "MeetmeMute"@,
        EventKind::MeetmeTalking => "MeetmeTalking"@,
        EventKind::MeetmeTalkRequest => "MeetmeTalkRequest"@,
        EventKind::MeetmeList => "MeetmeList"@,
        EventKind::MeetmeListRooms => "MeetmeListRooms"@,
        EventKind::DeviceStateListComplete => "DeviceStateListComplete"@,
        EventKind::ExtensionStateListComplete => "ExtensionStateListComplete"@,
        EventKind::PresenceStateListComplete => "PresenceStateListComplete"@,
        EventKind::AorDetail => "AorDetail"@,
        EventKind::AorList => "AorList"@,
        EventKind::AorListComplete => "AorListComplete"@,
        EventKind::AuthDetail => "AuthDetail"@,
        EventKind::AuthList => "AuthList"@,
        EventKind::AuthListComplete => "AuthListComplete"@,
        EventKind::ContactList => "ContactList"@,
        EventKind::ContactListComplete => "ContactListComplete"@,
        EventKind::ContactStatusDetail => "ContactStatusDetail"@,
        EventKind::EndpointDetail => "EndpointDetail"@,
        EventKind::EndpointDetailComplete => "EndpointDetailComplete"@,
        EventKind::EndpointList => "EndpointList"@,
        EventKind::EndpointListComplete => "EndpointListComplete"@,
        EventKind::IdentifyDetail => "IdentifyDetail"@,
        EventKind::TransportDetail => "TransportDetail"@,
        EventKind::ResourceListDetail => "ResourceListDetail"@,
        EventKind::InboundRegistrationDetail => "InboundRegistrationDetail"@,
        EventKind::OutboundRegistrationDetail => "OutboundRegistrationDetail"@,
        EventKind::InboundSubscriptionDetail => "InboundSubscriptionDetail"@,
        EventKind::OutboundSubscriptionDetail => "OutboundSubscriptionDetail"@,
        EventKind::MWIGet => "MWIGet"@,
        EventKind::MWIGetComplete => "MWIGetComplete"@,
        EventKind::MiniVoiceMail => "MiniVoiceMail"@,
        EventKind::FAXSession => "FAXSession"@,
        EventKind::FAXSessionsEntry => "FAXSessionsEntry"@,
        EventKind::FAXSessionsComplete => "FAXSessionsComplete"@,
        EventKind::FAXStats => "FAXStats"@,
        EventKind::DNDState => "DNDState"@,
        EventKind::DeadlockStart => "DeadlockStart"@,
        EventKind::MCID => "MCID"@,
        _ => Seq::empty(),
    }
}

/// The name of an event: that of its kind, or the name it was read under
/// for `Malformed` and `Unknown`.
pub open spec fn view_name(v: EventView) -> Seq<char> {
    match v.kind {
        EventKind::Malformed | EventKind::Unknown => match v.values {
            Values::Value(FieldValue::Text(n), _) => n,
            _ => Seq::empty(),
        },
        k => kind_name(k),
    }
}

/// Whether any header says `EventList: Complete` (both ASCII case-insensitive).
pub open spec fn has_list_complete_header(h: Seq<(Seq<char>, Seq<char>)>) -> bool {
    exists|i: int| 0 <= i < h.len() && eq_ic_chars(#[trigger] h[i].0, "EventList"@) && eq_ic_chars(h[i].1, "complete"@)
}

/// The `n`-th field value of an event, if it has that many.
pub open spec fn value_at(vs: Values, n: nat) -> Option<FieldValue>
    decreases vs,
{
    match vs {
        Values::End => None,
        Values::Value(v, rest) => if n == 0 { Some(v) } else { value_at(*rest, (n - 1) as nat) },
    }
}

/// The kinds that mark the end of an event list.
pub open spec fn kind_completes_list(k: EventKind) -> bool {
    k == EventKind::StatusComplete
        || k == EventKind::CoreShowChannelsComplete
        || k == EventKind::CoreShowChannelMapComplete
        || k == EventKind::AgentsComplete
        || k == EventKind::BridgeInfoComplete
        || k == EventKind::DeviceStateListComplete
        || k == EventKind::ExtensionStateListComplete
        || k == EventKind::PresenceStateListComplete
        || k == EventKind::AorListComplete
        || k == EventKind::AuthListComplete
        || k == EventKind::ContactListComplete
        || k == EventKind::EndpointDetailComplete
        || k == EventKind::EndpointListComplete
        || k == EventKind::MWIGetComplete
        || k == EventKind::FAXSessionsComplete
}

/// Whether an event marks the end of an event list: a `*Complete` kind, or
/// an unparsed event whose headers say `EventList: Complete`.
pub open spec fn view_list_complete(v: EventView) -> bool {
    if kind_completes_list(v.kind) {
        true
    } else {
        match v.kind {
            EventKind::Malformed => value_at(v.values, 3) matches Some(FieldValue::Pairs(h)) && has_list_complete_header(h),
            EventKind::Unknown => value_at(v.values, 1) matches Some(FieldValue::Pairs(h)) && has_list_complete_header(h),
            _ => false,
        }
    }
}

/// The channel an event carries, if any.
pub open spec fn channel_spec(e: AmiEvent) -> Option<Seq<char>> {
    match e {
        AmiEvent::NewChannel { channel, .. } => Some(channel@),
        AmiEvent::Hangup { channel, .. } => Some(channel@),
        AmiEvent::Newstate { channel, .. } => Some(channel@),
        AmiEvent::DialBegin { channel, .. } => Some(channel@),
        AmiEvent::DialEnd { channel, .. } => Some(channel@),
        AmiEvent::DtmfBegin { channel, .. } => Some(channel@),
        AmiEvent::DtmfEnd { channel, .. } => Some(channel@),
        AmiEvent::BridgeEnter { channel, .. } => Some(channel@),
        AmiEvent::BridgeLeave { channel, .. } => Some(channel@),
        AmiEvent::Hold { channel, .. } => Some(channel@),
        AmiEvent::Unhold { channel, .. } => Some(channel@),
        AmiEvent::HangupRequest { channel, .. } => Some(channel@),
        AmiEvent::SoftHangupRequest { channel, .. } => Some(channel@),
        AmiEvent::NewExten { channel, .. } => Some(channel@),
        AmiEvent::NewCallerid { channel, .. } => Some(channel@),
        AmiEvent::NewConnectedLine { channel, .. } => Some(channel@),
        AmiEvent::NewAccountCode { channel, .. } => Some(channel@),
        AmiEvent::Rename { channel, .. } => Some(channel@),
        AmiEvent::OriginateResponse { channel, .. } => Some(channel@),
        AmiEvent::DialState { channel, .. } => Some(channel@),
        AmiEvent::Flash { channel, .. } => Some(channel@),
        AmiEvent::Wink { channel, .. } => Some(channel@),
        AmiEvent::BridgeInfoChannel { channel, .. } => Some(channel@),
        AmiEvent::LocalBridge { channel, .. } => Some(channel@),
        AmiEvent::LocalOptimizationBegin { channel, .. } => Some(channel@),
        AmiEvent::LocalOptimizationEnd { channel, .. } => Some(channel@),
        AmiEvent::Cdr { channel, .. } => Some(channel@),
        AmiEvent::Cel { channel, .. } => Some(channel@),
        AmiEvent::QueueCallerAbandon { channel, .. } => Some(channel@),
        AmiEvent::QueueCallerJoin { channel, .. } => Some(channel@),
        AmiEvent::QueueCallerLeave { channel, .. } => Some(channel@),
        AmiEvent::QueueEntry { channel, .. } => Some(channel@),
        AmiEvent::AgentCalled { channel, .. } => Some(channel@),
        AmiEvent::AgentConnect { channel, .. } => Some(channel@),
        AmiEvent::AgentComplete { channel, .. } => Some(channel@),
        AmiEvent::AgentDump { channel, .. } => Some(channel@),
        AmiEvent::AgentLogin { channel, .. } => Some(channel@),
        AmiEvent::AgentRingNoAnswer { channel, .. } => Some(channel@),
        AmiEvent::ConfbridgeJoin { channel, .. } => Some(channel@),
        AmiEvent::ConfbridgeLeave { channel, .. } => Some(channel@),
        AmiEvent::ConfbridgeList { channel, .. } => Some(channel@),
        AmiEvent::ConfbridgeMute { channel, .. } => Some(channel@),
        AmiEvent::ConfbridgeUnmute { channel, .. } => Some(channel@),
        AmiEvent::ConfbridgeTalking { channel, .. } => Some(channel@),
        AmiEvent::MixMonitorStart { channel, .. } => Some(channel@),
        AmiEvent::MixMonitorStop { channel, .. } => Some(channel@),
        AmiEvent::MixMonitorMute { channel, .. } => Some(channel@),
        AmiEvent::MusicOnHoldStart { channel, .. } => Some(channel@),
        AmiEvent::MusicOnHoldStop { channel, .. } => Some(channel@),
        AmiEvent::ParkedCall { channel, .. } => Some(channel@),
        AmiEvent::ParkedCallGiveUp { channel, .. } => Some(channel@),
        AmiEvent::ParkedCallTimeOut { channel, .. } => Some(channel@),
        AmiEvent::ParkedCallSwap { channel, .. } => Some(channel@),
        AmiEvent::UnParkedCall { channel, .. } => Some(channel@),
        AmiEvent::Pickup { channel, .. } => Some(channel@),
        AmiEvent::ChanSpyStart { channel, .. } => Some(channel@),
        AmiEvent::ChanSpyStop { channel, .. } => Some(channel@),
        AmiEvent::ChannelTalkingStart { channel, .. } => Some(channel@),
        AmiEvent::ChannelTalkingStop { channel, .. } => Some(channel@),
        AmiEvent::RTCPReceived { channel, .. } => Some(channel@),
        AmiEvent::RTCPSent { channel, .. } => Some(channel@),
        AmiEvent::AsyncAGIStart { channel, .. } => Some(channel@),
        AmiEvent::AsyncAGIExec { channel, .. } => Some(channel@),
        AmiEvent::AsyncAGIEnd { channel, .. } => Some(channel@),
        AmiEvent::AGIExecStart { channel, .. } => Some(channel@),
        AmiEvent::AGIExecEnd { channel, .. } => Some(channel@),
        AmiEvent::HangupHandlerPush { channel, .. } => Some(channel@),
        AmiEvent::HangupHandlerPop { channel, .. } => Some(channel@),
        AmiEvent::HangupHandlerRun { channel, .. } => Some(channel@),
        AmiEvent::Status { channel, .. } => Some(channel@),
        AmiEvent::CoreShowChannel { channel, .. } => Some(channel@),
        AmiEvent::AocD { channel, .. } => Some(channel@),
        AmiEvent::AocE { channel, .. } => Some(channel@),
        AmiEvent::AocS { channel, .. } => Some(channel@),
        AmiEvent::FAXStatus { channel, .. } => Some(channel@),
        AmiEvent::ReceiveFAX { channel, .. } => Some(channel@),
        AmiEvent::SendFAX { channel, .. } => Some(channel@),
        AmiEvent::MeetmeJoin { channel, .. } => Some(channel@),
        AmiEvent::MeetmeLeave { channel, .. } => Some(channel@),
        AmiEvent::MeetmeMute { channel, .. } => Some(channel@),
        AmiEvent::MeetmeTalking { channel, .. } => Some(channel@),
        AmiEvent::MeetmeTalkRequest { channel, .. } => Some(channel@),
        AmiEvent::MeetmeList { channel, .. } => Some(channel@),
        AmiEvent::MiniVoiceMail { channel, .. } => Some(channel@),
        AmiEvent::FAXSession { channel, .. } => Some(channel@),
        AmiEvent::FAXSessionsEntry { channel, .. } => Some(channel@),
        AmiEvent::DNDState { channel, .. } => Some(channel@),
        AmiEvent::MCID { channel, .. } => Some(channel@),
        AmiEvent::VarSet { channel, .. } => match channel {
            Some(c) => Some(c@),
            None => None,
        },
        AmiEvent::UserEvent { channel, .. } => match channel {
            Some(c) => Some(c@),
            None => None,
        },
        AmiEvent::Agents { channel, .. } => match channel {
            Some(c) => Some(c@),
            None => None,
        },
        AmiEvent::DAHDIChannel { channel, .. } => match channel {
            Some(c) => Some(c@),
            None => None,
        },
        _ => None,
    }
}

/// The unique id an event carries, if any.
pub open spec fn unique_id_spec(e: AmiEvent) -> Option<Seq<char>> {
    match e {
        AmiEvent::NewChannel { unique_id, .. } => Some(unique_id@),
        AmiEvent::Hangup { unique_id, .. } => Some(unique_id@),
        AmiEvent::Newstate { unique_id, .. } => Some(unique_id@),
        AmiEvent::DialBegin { unique_id, .. } => Some(unique_id@),
        AmiEvent::DialEnd { unique_id, .. } => Some(unique_id@),
        AmiEvent::DtmfBegin { unique_id, .. } => Some(unique_id@),
        AmiEvent::DtmfEnd { unique_id, .. } => Some(unique_id@),
        AmiEvent::BridgeEnter { unique_id, .. } => Some(unique_id@),
        AmiEvent::BridgeLeave { unique_id, .. } => Some(unique_id@),
        AmiEvent::Hold { unique_id, .. } => Some(unique_id@),
        AmiEvent::Unhold { unique_id, .. } => Some(unique_id@),
        AmiEvent::HangupRequest { unique_id, .. } => Some(unique_id@),
        AmiEvent::SoftHangupRequest { unique_id, .. } => Some(unique_id@),
        AmiEvent::NewExten { unique_id, .. } => Some(unique_id@),
        AmiEvent::NewCallerid { unique_id, .. } => Some(unique_id@),
        AmiEvent::NewConnectedLine { unique_id, .. } => Some(unique_id@),
        AmiEvent::NewAccountCode { unique_id, .. } => Some(unique_id@),
        AmiEvent::Rename { unique_id, .. } => Some(unique_id@),
        AmiEvent::OriginateResponse { unique_id, .. } => Some(unique_id@),
        AmiEvent::DialState { unique_id, .. } => Some(unique_id@),
        AmiEvent::Flash { unique_id, .. } => Some(unique_id@),
        AmiEvent::Wink { unique_id, .. } => Some(unique_id@),
        AmiEvent::BridgeInfoChannel { unique_id, .. } => Some(unique_id@),
        AmiEvent::LocalBridge { unique_id, .. } => Some(unique_id@),
        AmiEvent::LocalOptimizationBegin { unique_id, .. } => Some(unique_id@),
        AmiEvent::LocalOptimizationEnd { unique_id, .. } => Some(unique_id@),
        AmiEvent::Cdr { unique_id, .. } => Some(unique_id@),
        AmiEvent::Cel { unique_id, .. } => Some(unique_id@),
        AmiEvent::QueueCallerAbandon { unique_id, .. } => Some(unique_id@),
        AmiEvent::QueueCallerJoin { unique_id, .. } => Some(unique_id@),
        AmiEvent::QueueCallerLeave { unique_id, .. } => Some(unique_id@),
        AmiEvent::QueueEntry { unique_id, .. } => Some(unique_id@),
        AmiEvent::AgentCalled { unique_id, .. } => Some(unique_id@),
        AmiEvent::AgentConnect { unique_id, .. } => Some(unique_id@),
        AmiEvent::AgentComplete { unique_id, .. } => Some(unique_id@),
        AmiEvent::AgentDump { unique_id, .. } => Some(unique_id@),
        AmiEvent::AgentLogin { unique_id, .. } => Some(unique_id@),
        AmiEvent::AgentRingNoAnswer { unique_id, .. } => Some(unique_id@),
        AmiEvent::ConfbridgeJoin { unique_id, .. } => Some(unique_id@),
        AmiEvent::ConfbridgeLeave { unique_id, .. } => Some(unique_id@),
        AmiEvent::ConfbridgeList { unique_id, .. } => Some(unique_id@),
        AmiEvent::ConfbridgeMute { unique_id, .. } => Some(unique_id@),
        AmiEvent::ConfbridgeUnmute { unique_id, .. } => Some(unique_id@),
        AmiEvent::ConfbridgeTalking { unique_id, .. } => Some(unique_id@),
        AmiEvent::MixMonitorStart { unique_id, .. } => Some(unique_id@),
        AmiEvent::MixMonitorStop { unique_id, .. } => Some(unique_id@),
        AmiEvent::MixMonitorMute { unique_id, .. } => Some(unique_id@),
        AmiEvent::MusicOnHoldStart { unique_id, .. } => Some(unique_id@),
        AmiEvent::MusicOnHoldStop { unique_id, .. } => Some(unique_id@),
        AmiEvent::ParkedCall { unique_id, .. } => Some(unique_id@),
        AmiEvent::ParkedCallGiveUp { unique_id, .. } => Some(unique_id@),
        AmiEvent::ParkedCallTimeOut { unique_id, .. } => Some(unique_id@),
        AmiEvent::ParkedCallSwap { unique_id, .. } => Some(unique_id@),
        AmiEvent::UnParkedCall { unique_id, .. } => Some(unique_id@),
        AmiEvent::Pickup { unique_id, .. } => Some(unique_id@),
        AmiEvent::ChanSpyStart { unique_id, .. } => Some(unique_id@),
        AmiEvent::ChanSpyStop { unique_id, .. } => Some(unique_id@),
        AmiEvent::ChannelTalkingStart { unique_id, .. } => Some(unique_id@),
        AmiEvent::ChannelTalkingStop { unique_id, .. } => Some(unique_id@),
        AmiEvent::RTCPReceived { unique_id, .. } => Some(unique_id@),
        AmiEvent::RTCPSent { unique_id, .. } => Some(unique_id@),
        AmiEvent::AsyncAGIStart { unique_id, .. } => Some(unique_id@),
        AmiEvent::AsyncAGIExec { unique_id, .. } => Some(unique_id@),
        AmiEvent::AsyncAGIEnd { unique_id, .. } => Some(unique_id@),
        AmiEvent::AGIExecStart { unique_id, .. } => Some(unique_id@),
        AmiEvent::AGIExecEnd { unique_id, .. } => Some(unique_id@),
        AmiEvent::HangupHandlerPush { unique_id, .. } => Some(unique_id@),
        AmiEvent::HangupHandlerPop { unique_id, .. } => Some(unique_id@),
        AmiEvent::HangupHandlerRun { unique_id, .. } => Some(unique_id@),
        AmiEvent::Status { unique_id, .. } => Some(unique_id@),
        AmiEvent::CoreShowChannel { unique_id, .. } => Some(unique_id@),
        AmiEvent::AocD { unique_id, .. } => Some(unique_id@),
        AmiEvent::AocE { unique_id, .. } => Some(unique_id@),
        AmiEvent::AocS { unique_id, .. } => Some(unique_id@),
        AmiEvent::FAXStatus { unique_id, .. } => Some(unique_id@),
        AmiEvent::ReceiveFAX { unique_id, .. } => Some(unique_id@),
        AmiEvent::SendFAX { unique_id, .. } => Some(unique_id@),
        AmiEvent::MeetmeJoin { unique_id, .. } => Some(unique_id@),
        AmiEvent::MeetmeLeave { unique_id, .. } => Some(unique_id@),
        AmiEvent::MeetmeMute { unique_id, .. } => Some(unique_id@),
        AmiEvent::MeetmeTalking { unique_id, .. } => Some(unique_id@),
        AmiEvent::MeetmeTalkRequest { unique_id, .. } => Some(unique_id@),
        AmiEvent::MeetmeList { unique_id, .. } => Some(unique_id@),
        AmiEvent::MiniVoiceMail { unique_id, .. } => Some(unique_id@),
        AmiEvent::FAXSession { unique_id, .. } => Some(unique_id@),
        AmiEvent::MCID { unique_id, .. } => Some(unique_id@),
        AmiEvent::VarSet { unique_id, .. } => match unique_id {
            Some(c) => Some(c@),
            None => None,
        },
        AmiEvent::UserEvent { unique_id, .. } => match unique_id {
            Some(c) => Some(c@),
            None => None,
        },
        AmiEvent::DAHDIChannel { unique_id, .. } => match unique_id {
            Some(c) => Some(c@),
            None => None,
        },
        _ => None,
    }
}

impl AmiEvent {
    /// Parses an AMI event from a raw message; `None` when the message is
    /// not an event.
    pub fn from_raw(raw: &RawAmiMessage) -> (r: Option<AmiEvent>)
        ensures
            match r {
                Some(e) => event_spec(raw@) == Some(e@),
                None => event_spec(raw@) is None,
            },
    {
        let name = match raw.get("Event") {
            Some(n) => n,
            None => return None,
        };
        match parse::parse_group_01(raw, name) {
            Some(e) => return Some(e),
            None => {},
        }
        match parse::parse_group_02(raw, name) {
            Some(e) => return Some(e),
            None => {},
        }
        match parse::parse_group_03(raw, name) {
            Some(e) => return Some(e),
            None => {},
        }
        match parse::parse_group_04(raw, name) {
            Some(e) => return Some(e),
            None => {},
        }
        match parse::parse_group_05(raw, name) {
            Some(e) => return Some(e),
            None => {},
        }
        match parse::parse_group_06(raw, name) {
            Some(e) => return Some(e),
            None => {},
        }
        match parse::parse_group_07(raw, name) {
            Some(e) => return Some(e),
            None => {},
        }
        match parse::parse_group_08(raw, name) {
            Some(e) => return Some(e),
            None => {},
        }
        match parse::parse_group_09(raw, name) {
            Some(e) => return Some(e),
            None => {},
        }
        match parse::parse_group_10(raw, name) {
            Some(e) => return Some(e),
            None => {},
        }
        match parse::parse_group_11(raw, name) {
            Some(e) => return Some(e),
            None => {},
        }
        match parse::parse_group_12(raw, name) {
            Some(e) => return Some(e),
            None => {},
        }
        Some(unknown(raw, name))
    }

    /// The event type name.
    #[verifier::rlimit(100)]
    pub fn event_name(&self) -> (r: &str)
        ensures
            r@ == view_name(self@),
    {
        match self {
            AmiEvent::NewChannel { .. } => "Newchannel",
            AmiEvent::Hangup { .. } => "Hangup",
            AmiEvent::Newstate { .. } => "Newstate",
            AmiEvent::DialBegin { .. } => "DialBegin",
            AmiEvent::DialEnd { .. } => "DialEnd",
            AmiEvent::DtmfBegin { .. } => "DTMFBegin",
            AmiEvent::DtmfEnd { .. } => "DTMFEnd",
            AmiEvent::FullyBooted { .. } => "FullyBooted",
            AmiEvent::PeerStatus { .. } => "PeerStatus",
            AmiEvent::BridgeCreate { .. } => "BridgeCreate",
            AmiEvent::BridgeDestroy { .. } => "BridgeDestroy",
            AmiEvent::BridgeEnter { .. } => "BridgeEnter",
            AmiEvent::BridgeLeave { .. } => "BridgeLeave",
            AmiEvent::VarSet { .. } => "VarSet",
            AmiEvent::Hold { .. } => "Hold",
            AmiEvent::Unhold { .. } => "Unhold",
            AmiEvent::HangupRequest { .. } => "HangupRequest",
            AmiEvent::SoftHangupRequest { .. } => "SoftHangupRequest",
            AmiEvent::NewExten { .. } => "NewExten",
            AmiEvent::NewCallerid { .. } => "NewCallerid",
            AmiEvent::NewConnectedLine { .. } => "NewConnectedLine",
            AmiEvent::NewAccountCode { .. } => "NewAccountCode",
            AmiEvent::Rename { .. } => "Rename",
            AmiEvent::OriginateResponse { .. } => "OriginateResponse",
            AmiEvent::DialState { .. } => "DialState",
            AmiEvent::Flash { .. } => "Flash",
            AmiEvent::Wink { .. } => "Wink",
            AmiEvent::UserEvent { .. } => "UserEvent",
            AmiEvent::AttendedTransfer { .. } => "AttendedTransfer",
            AmiEvent::BlindTransfer { .. } => "BlindTransfer",
            AmiEvent::BridgeMerge { .. } => "BridgeMerge",
            AmiEvent::BridgeInfoChannel { .. } => "BridgeInfoChannel",
            AmiEvent::BridgeInfoComplete { .. } => "BridgeInfoComplete",
            AmiEvent::BridgeVideoSourceUpdate { .. } => "BridgeVideoSourceUpdate",
            AmiEvent::LocalBridge { .. } => "LocalBridge",
            AmiEvent::LocalOptimizationBegin { .. } => "LocalOptimizationBegin",
            AmiEvent::LocalOptimizationEnd { .. } => "LocalOptimizationEnd",
            AmiEvent::Cdr { .. } => "Cdr",
            AmiEvent::Cel { .. } => "CEL",
            AmiEvent::QueueCallerAbandon { .. } => "QueueCallerAbandon",
            AmiEvent::QueueCallerJoin { .. } => "QueueCallerJoin",
            AmiEvent::QueueCallerLeave { .. } => "QueueCallerLeave",
            AmiEvent::QueueMemberAdded { .. } => "QueueMemberAdded",
            AmiEvent::QueueMemberRemoved { .. } => "QueueMemberRemoved",
            AmiEvent::QueueMemberPause { .. } => "QueueMemberPause",
            AmiEvent::QueueMemberStatus { .. } => "QueueMemberStatus",
            AmiEvent::QueueMemberPenalty { .. } => "QueueMemberPenalty",
            AmiEvent::QueueMemberRinginuse { .. } => "QueueMemberRinginuse",
            AmiEvent::QueueParams { .. } => "QueueParams",
            AmiEvent::QueueEntry { .. } => "QueueEntry",
            AmiEvent::AgentCalled { .. } => "AgentCalled",
            AmiEvent::AgentConnect { .. } => "AgentConnect",
            AmiEvent::AgentComplete { .. } => "AgentComplete",
            AmiEvent::AgentDump { .. } => "AgentDump",
            AmiEvent::AgentLogin { .. } => "AgentLogin",
            AmiEvent::AgentLogoff { .. } => "AgentLogoff",
            AmiEvent::AgentRingNoAnswer { .. } => "AgentRingNoAnswer",
            AmiEvent::Agents { .. } => "Agents",
            AmiEvent::AgentsComplete => "AgentsComplete",
            AmiEvent::ConfbridgeStart { .. } => "ConfbridgeStart",
            AmiEvent::ConfbridgeEnd { .. } => "ConfbridgeEnd",
            AmiEvent::ConfbridgeJoin { .. } => "ConfbridgeJoin",
            AmiEvent::ConfbridgeLeave { .. } => "ConfbridgeLeave",
            AmiEvent::ConfbridgeList { .. } => "ConfbridgeList",
            AmiEvent::ConfbridgeMute { .. } => "ConfbridgeMute",
            AmiEvent::ConfbridgeUnmute { .. } => "ConfbridgeUnmute",
            AmiEvent::ConfbridgeTalking { .. } => "ConfbridgeTalking",
            AmiEvent::ConfbridgeRecord { .. } => "ConfbridgeRecord",
            AmiEvent::ConfbridgeStopRecord { .. } => "ConfbridgeStopRecord",
            AmiEvent::ConfbridgeListRooms { .. } => "ConfbridgeListRooms",
            AmiEvent::MixMonitorStart { .. } => "MixMonitorStart",
            AmiEvent::MixMonitorStop { .. } => "MixMonitorStop",
            AmiEvent::MixMonitorMute { .. } => "MixMonitorMute",
            AmiEvent::MusicOnHoldStart { .. } => "MusicOnHoldStart",
            AmiEvent::MusicOnHoldStop { .. } => "MusicOnHoldStop",
            AmiEvent::ParkedCall { .. } => "ParkedCall",
            AmiEvent::ParkedCallGiveUp { .. } => "ParkedCallGiveUp",
            AmiEvent::ParkedCallTimeOut { .. } => "ParkedCallTimeOut",
            AmiEvent::ParkedCallSwap { .. } => "ParkedCallSwap",
            AmiEvent::UnParkedCall { .. } => "UnParkedCall",
            AmiEvent::Pickup { .. } => "Pickup",
            AmiEvent::ChanSpyStart { .. } => "ChanSpyStart",
            AmiEvent::ChanSpyStop { .. } => "ChanSpyStop",
            AmiEvent::ChannelTalkingStart { .. } => "ChannelTalkingStart",
            AmiEvent::ChannelTalkingStop { .. } => "ChannelTalkingStop",
            AmiEvent::DeviceStateChange { .. } => "DeviceStateChange",
            AmiEvent::ExtensionStatus { .. } => "ExtensionStatus",
            AmiEvent::PresenceStateChange { .. } => "PresenceStateChange",
            AmiEvent::PresenceStatus { .. } => "PresenceStatus",
            AmiEvent::ContactStatus { .. } => "ContactStatus",
            AmiEvent::Registry { .. } => "Registry",
            AmiEvent::MessageWaiting { .. } => "MessageWaiting",
            AmiEvent::VoicemailPasswordChange { .. } => "VoicemailPasswordChange",
            AmiEvent::RTCPReceived { .. } => "RTCPReceived",
            AmiEvent::RTCPSent { .. } => "RTCPSent",
            AmiEvent::FailedACL { .. } => "FailedACL",
            AmiEvent::InvalidAccountID { .. } => "InvalidAccountID",
            AmiEvent::InvalidPassword { .. } => "InvalidPassword",
            AmiEvent::ChallengeResponseFailed { .. } => "ChallengeResponseFailed",
            AmiEvent::ChallengeSent { .. } => "ChallengeSent",
            AmiEvent::SuccessfulAuth { .. } => "SuccessfulAuth",
            AmiEvent::SessionLimit { .. } => "SessionLimit",
            AmiEvent::UnexpectedAddress { .. } => "UnexpectedAddress",
            AmiEvent::RequestBadFormat { .. } => "RequestBadFormat",
            AmiEvent::RequestNotAllowed { .. } => "RequestNotAllowed",
            AmiEvent::RequestNotSupported { .. } => "RequestNotSupported",
            AmiEvent::InvalidTransport { .. } => "InvalidTransport",
            AmiEvent::AuthMethodNotAllowed { .. } => "AuthMethodNotAllowed",
            AmiEvent::Shutdown { .. } => "Shutdown",
            AmiEvent::Reload { .. } => "Reload",
            AmiEvent::Load { .. } => "Load",
            AmiEvent::Unload { .. } => "Unload",
            AmiEvent::LogChannel { .. } => "LogChannel",
            AmiEvent::LoadAverageLimit => "LoadAverageLimit",
            AmiEvent::MemoryLimit => "MemoryLimit",
            AmiEvent::AsyncAGIStart { .. } => "AsyncAGIStart",
            AmiEvent::AsyncAGIExec { .. } => "AsyncAGIExec",
            AmiEvent::AsyncAGIEnd { .. } => "AsyncAGIEnd",
            AmiEvent::AGIExecStart { .. } => "AGIExecStart",
            AmiEvent::AGIExecEnd { .. } => "AGIExecEnd",
            AmiEvent::HangupHandlerPush { .. } => "HangupHandlerPush",
            AmiEvent::HangupHandlerPop { .. } => "HangupHandlerPop",
            AmiEvent::HangupHandlerRun { .. } => "HangupHandlerRun",
            AmiEvent::Status { .. } => "Status",
            AmiEvent::StatusComplete { .. } => "StatusComplete",
            AmiEvent::CoreShowChannel { .. } => "CoreShowChannel",
            AmiEvent::CoreShowChannelsComplete { .. } => "CoreShowChannelsComplete",
            AmiEvent::CoreShowChannelMapComplete => "CoreShowChannelMapComplete",
            AmiEvent::DAHDIChannel { .. } => "DAHDIChannel",
            AmiEvent::Alarm { .. } => "Alarm",
            AmiEvent::AlarmClear { .. } => "AlarmClear",
            AmiEvent::SpanAlarm { .. } => "SpanAlarm",
            AmiEvent::SpanAlarmClear { .. } => "SpanAlarmClear",
            AmiEvent::AocD { .. } => "AOC-D",
            AmiEvent::AocE { .. } => "AOC-E",
            AmiEvent::AocS { .. } => "AOC-S",
            AmiEvent::FAXStatus { .. } => "FAXStatus",
            AmiEvent::ReceiveFAX { .. } => "ReceiveFAX",
            AmiEvent::SendFAX { .. } => "SendFAX",
            AmiEvent::MeetmeJoin { .. } => "MeetmeJoin",
            AmiEvent::MeetmeLeave { .. } => "MeetmeLeave",
            AmiEvent::MeetmeEnd { .. } => "MeetmeEnd",
            AmiEvent::MeetmeMute { .. } => "MeetmeMute",
            AmiEvent::MeetmeTalking { .. } => "MeetmeTalking",
            AmiEvent::MeetmeTalkRequest { .. } => "MeetmeTalkRequest",
            AmiEvent::MeetmeList { .. } => "MeetmeList",
            AmiEvent::MeetmeListRooms { .. } => "MeetmeListRooms",
            AmiEvent::DeviceStateListComplete { .. } => "DeviceStateListComplete",
            AmiEvent::ExtensionStateListComplete { .. } => "ExtensionStateListComplete",
            AmiEvent::PresenceStateListComplete { .. } => "PresenceStateListComplete",
            AmiEvent::AorDetail { .. } => "AorDetail",
            AmiEvent::AorList { .. } => "AorList",
            AmiEvent::AorListComplete { .. } => "AorListComplete",
            AmiEvent::AuthDetail { .. } => "AuthDetail",
            AmiEvent::AuthList { .. } => "AuthList",
            AmiEvent::AuthListComplete { .. } => "AuthListComplete",
            AmiEvent::ContactList { .. } => "ContactList",
            AmiEvent::ContactListComplete { .. } => "ContactListComplete",
            AmiEvent::ContactStatusDetail { .. } => "ContactStatusDetail",
            AmiEvent::EndpointDetail { .. } => "EndpointDetail",
            AmiEvent::EndpointDetailComplete { .. } => "EndpointDetailComplete",
            AmiEvent::EndpointList { .. } => "EndpointList",
            AmiEvent::EndpointListComplete { .. } => "EndpointListComplete",
            AmiEvent::IdentifyDetail { .. } => "IdentifyDetail",
            AmiEvent::TransportDetail { .. } => "TransportDetail",
            AmiEvent::ResourceListDetail { .. } => "ResourceListDetail",
            AmiEvent::InboundRegistrationDetail { .. } => "InboundRegistrationDetail",
            AmiEvent::OutboundRegistrationDetail { .. } => "OutboundRegistrationDetail",
            AmiEvent::InboundSubscriptionDetail { .. } => "InboundSubscriptionDetail",
            AmiEvent::OutboundSubscriptionDetail { .. } => "OutboundSubscriptionDetail",
            AmiEvent::MWIGet { .. } => "MWIGet",
            AmiEvent::MWIGetComplete { .. } => "MWIGetComplete",
            AmiEvent::MiniVoiceMail { .. } => "MiniVoiceMail",
            AmiEvent::FAXSession { .. } => "FAXSession",
            AmiEvent::FAXSessionsEntry { .. } => "FAXSessionsEntry",
            AmiEvent::FAXSessionsComplete { .. } => "FAXSessionsComplete",
            AmiEvent::FAXStats { .. } => "FAXStats",
            AmiEvent::DNDState { .. } => "DNDState",
            AmiEvent::DeadlockStart => "DeadlockStart",
            AmiEvent::MCID { .. } => "MCID",
            AmiEvent::Malformed { event_name, .. } => event_name.as_str(),
            AmiEvent::Unknown { event_name, .. } => event_name.as_str(),
        }
    }

    /// Whether this event marks the end of an event list: a `*Complete`
    /// variant, or an unparsed event with an `EventList: Complete` header.
    #[verifier::rlimit(100)]
    pub fn is_event_list_complete(&self) -> (r: bool)
        ensures
            r == view_list_complete(self@),
    {
        match self {
            AmiEvent::Malformed { headers, .. } => {
                proof {
                    reveal_with_fuel(value_at, 4);
                }
                list_complete_header(headers)
            },
            AmiEvent::Unknown { headers, .. } => {
                proof {
                    reveal_with_fuel(value_at, 2);
                }
                list_complete_header(headers)
            },
            _ => kind_completes(self.kind()),
        }
    }

    /// The variant of this event.
    #[verifier::rlimit(100)]
    pub fn kind(&self) -> (k: EventKind)
        ensures
            k == self@.kind,
            (k == EventKind::Malformed) == (self is Malformed),
            (k == EventKind::Unknown) == (self is Unknown),
    {
        match self {
            AmiEvent::NewChannel { .. } => EventKind::NewChannel,
            AmiEvent::Hangup { .. } => EventKind::Hangup,
            AmiEvent::Newstate { .. } => EventKind::Newstate,
            AmiEvent::DialBegin { .. } => EventKind::DialBegin,
            AmiEvent::DialEnd { .. } => EventKind::DialEnd,
            AmiEvent::DtmfBegin { .. } => EventKind::DtmfBegin,
            AmiEvent::DtmfEnd { .. } => EventKind::DtmfEnd,
            AmiEvent::FullyBooted { .. } => EventKind::FullyBooted,
            AmiEvent::PeerStatus { .. } => EventKind::PeerStatus,
            AmiEvent::BridgeCreate { .. } => EventKind::BridgeCreate,
            AmiEvent::BridgeDestroy { .. } => EventKind::BridgeDestroy,
            AmiEvent::BridgeEnter { .. } => EventKind::BridgeEnter,
            AmiEvent::BridgeLeave { .. } => EventKind::BridgeLeave,
            AmiEvent::VarSet { .. } => EventKind::VarSet,
            AmiEvent::Hold { .. } => EventKind::Hold,
            AmiEvent::Unhold { .. } => EventKind::Unhold,
            AmiEvent::HangupRequest { .. } => EventKind::HangupRequest,
            AmiEvent::SoftHangupRequest { .. } => EventKind::SoftHangupRequest,
            AmiEvent::NewExten { .. } => EventKind::NewExten,
            AmiEvent::NewCallerid { .. } => EventKind::NewCallerid,
            AmiEvent::NewConnectedLine { .. } => EventKind::NewConnectedLine,
            AmiEvent::NewAccountCode { .. } => EventKind::NewAccountCode,
            AmiEvent::Rename { .. } => EventKind::Rename,
            AmiEvent::OriginateResponse { .. } => EventKind::OriginateResponse,
            AmiEvent::DialState { .. } => EventKind::DialState,
            AmiEvent::Flash { .. } => EventKind::Flash,
            AmiEvent::Wink { .. } => EventKind::Wink,
            AmiEvent::UserEvent { .. } => EventKind::UserEvent,
            AmiEvent::AttendedTransfer { .. } => EventKind::AttendedTransfer,
            AmiEvent::BlindTransfer { .. } => EventKind::BlindTransfer,
            AmiEvent::BridgeMerge { .. } => EventKind::BridgeMerge,
            AmiEvent::BridgeInfoChannel { .. } => EventKind::BridgeInfoChannel,
            AmiEvent::BridgeInfoComplete { .. } => EventKind::BridgeInfoComplete,
            AmiEvent::BridgeVideoSourceUpdate { .. } => EventKind::BridgeVideoSourceUpdate,
            AmiEvent::LocalBridge { .. } => EventKind::LocalBridge,
            AmiEvent::LocalOptimizationBegin { .. } => EventKind::LocalOptimizationBegin,
            AmiEvent::LocalOptimizationEnd { .. } => EventKind::LocalOptimizationEnd,
            AmiEvent::Cdr { .. } => EventKind::Cdr,
            AmiEvent::Cel { .. } => EventKind::Cel,
            AmiEvent::QueueCallerAbandon { .. } => EventKind::QueueCallerAbandon,
            AmiEvent::QueueCallerJoin { .. } => EventKind::QueueCallerJoin,
            AmiEvent::QueueCallerLeave { .. } => EventKind::QueueCallerLeave,
            AmiEvent::QueueMemberAdded { .. } => EventKind::QueueMemberAdded,
            AmiEvent::QueueMemberRemoved { .. } => EventKind::QueueMemberRemoved,
            AmiEvent::QueueMemberPause { .. } => EventKind::QueueMemberPause,
            AmiEvent::QueueMemberStatus { .. } => EventKind::QueueMemberStatus,
            AmiEvent::QueueMemberPenalty { .. } => EventKind::QueueMemberPenalty,
            AmiEvent::QueueMemberRinginuse { .. } => EventKind::QueueMemberRinginuse,
            AmiEvent::QueueParams { .. } => EventKind::QueueParams,
            AmiEvent::QueueEntry { .. } => EventKind::QueueEntry,
            AmiEvent::AgentCalled { .. } => EventKind::AgentCalled,
            AmiEvent::AgentConnect { .. } => EventKind::AgentConnect,
            AmiEvent::AgentComplete { .. } => EventKind::AgentComplete,
            AmiEvent::AgentDump { .. } => EventKind::AgentDump,
            AmiEvent::AgentLogin { .. } => EventKind::AgentLogin,
            AmiEvent::AgentLogoff { .. } => EventKind::AgentLogoff,
            AmiEvent::AgentRingNoAnswer { .. } => EventKind::AgentRingNoAnswer,
            AmiEvent::Agents { .. } => EventKind::Agents,
            AmiEvent::AgentsComplete => EventKind::AgentsComplete,
            AmiEvent::ConfbridgeStart { .. } => EventKind::ConfbridgeStart,
            AmiEvent::ConfbridgeEnd { .. } => EventKind::ConfbridgeEnd,
            AmiEvent::ConfbridgeJoin { .. } => EventKind::ConfbridgeJoin,
            AmiEvent::ConfbridgeLeave { .. } => EventKind::ConfbridgeLeave,
            AmiEvent::ConfbridgeList { .. } => EventKind::ConfbridgeList,
            AmiEvent::ConfbridgeMute { .. } => EventKind::ConfbridgeMute,
            AmiEvent::ConfbridgeUnmute { .. } => EventKind::ConfbridgeUnmute,
            AmiEvent::ConfbridgeTalking { .. } => EventKind::ConfbridgeTalking,
            AmiEvent::ConfbridgeRecord { .. } => EventKind::ConfbridgeRecord,
            AmiEvent::ConfbridgeStopRecord { .. } => EventKind::ConfbridgeStopRecord,
            AmiEvent::ConfbridgeListRooms { .. } => EventKind::ConfbridgeListRooms,
            AmiEvent::MixMonitorStart { .. } => EventKind::MixMonitorStart,
            AmiEvent::MixMonitorStop { .. } => EventKind::MixMonitorStop,
            AmiEvent::MixMonitorMute { .. } => EventKind::MixMonitorMute,
            AmiEvent::MusicOnHoldStart { .. } => EventKind::MusicOnHoldStart,
            AmiEvent::MusicOnHoldStop { .. } => EventKind::MusicOnHoldStop,
            AmiEvent::ParkedCall { .. } => EventKind::ParkedCall,
            AmiEvent::ParkedCallGiveUp { .. } => EventKind::ParkedCallGiveUp,
            AmiEvent::ParkedCallTimeOut { .. } => EventKind::ParkedCallTimeOut,
            AmiEvent::ParkedCallSwap { .. } => EventKind::ParkedCallSwap,
            AmiEvent::UnParkedCall { .. } => EventKind::UnParkedCall,
            AmiEvent::Pickup { .. } => EventKind::Pickup,
            AmiEvent::ChanSpyStart { .. } => EventKind::ChanSpyStart,
            AmiEvent::ChanSpyStop { .. } => EventKind::ChanSpyStop,
            AmiEvent::ChannelTalkingStart { .. } => EventKind::ChannelTalkingStart,
            AmiEvent::ChannelTalkingStop { .. } => EventKind::ChannelTalkingStop,
            AmiEvent::DeviceStateChange { .. } => EventKind::DeviceStateChange,
            AmiEvent::ExtensionStatus { .. } => EventKind::ExtensionStatus,
            AmiEvent::PresenceStateChange { .. } => EventKind::PresenceStateChange,
            AmiEvent::PresenceStatus { .. } => EventKind::PresenceStatus,
            AmiEvent::ContactStatus { .. } => EventKind::ContactStatus,
            AmiEvent::Registry { .. } => EventKind::Registry,
            AmiEvent::MessageWaiting { .. } => EventKind::MessageWaiting,
            AmiEvent::VoicemailPasswordChange { .. } => EventKind::VoicemailPasswordChange,
            AmiEvent::RTCPReceived { .. } => EventKind::RTCPReceived,
            AmiEvent::RTCPSent { .. } => EventKind::RTCPSent,
            AmiEvent::FailedACL { .. } => EventKind::FailedACL,
            AmiEvent::InvalidAccountID { .. } => EventKind::InvalidAccountID,
            AmiEvent::InvalidPassword { .. } => EventKind::InvalidPassword,
            AmiEvent::ChallengeResponseFailed { .. } => EventKind::ChallengeResponseFailed,
            AmiEvent::ChallengeSent { .. } => EventKind::ChallengeSent,
            AmiEvent::SuccessfulAuth { .. } => EventKind::SuccessfulAuth,
            AmiEvent::SessionLimit { .. } => EventKind::SessionLimit,
            AmiEvent::UnexpectedAddress { .. } => EventKind::UnexpectedAddress,
            AmiEvent::RequestBadFormat { .. } => EventKind::RequestBadFormat,
            AmiEvent::RequestNotAllowed { .. } => EventKind::RequestNotAllowed,
            AmiEvent::RequestNotSupported { .. } => EventKind::RequestNotSupported,
            AmiEvent::InvalidTransport { .. } => EventKind::InvalidTransport,
            AmiEvent::AuthMethodNotAllowed { .. } => EventKind::AuthMethodNotAllowed,
            AmiEvent::Shutdown { .. } => EventKind::Shutdown,
            AmiEvent::Reload { .. } => EventKind::Reload,
            AmiEvent::Load { .. } => EventKind::Load,
            AmiEvent::Unload { .. } => EventKind::Unload,
            AmiEvent::LogChannel { .. } => EventKind::LogChannel,
            AmiEvent::LoadAverageLimit => EventKind::LoadAverageLimit,
            AmiEvent::MemoryLimit => EventKind::MemoryLimit,
            AmiEvent::AsyncAGIStart { .. } => EventKind::AsyncAGIStart,
            AmiEvent::AsyncAGIExec { .. } => EventKind::AsyncAGIExec,
            AmiEvent::AsyncAGIEnd { .. } => EventKind::AsyncAGIEnd,
            AmiEvent::AGIExecStart { .. } => EventKind::AGIExecStart,
            AmiEvent::AGIExecEnd { .. } => EventKind::AGIExecEnd,
            AmiEvent::HangupHandlerPush { .. } => EventKind::HangupHandlerPush,
            AmiEvent::HangupHandlerPop { .. } => EventKind::HangupHandlerPop,
            AmiEvent::HangupHandlerRun { .. } => EventKind::HangupHandlerRun,
            AmiEvent::Status { .. } => EventKind::Status,
            AmiEvent::StatusComplete { .. } => EventKind::StatusComplete,
            AmiEvent::CoreShowChannel { .. } => EventKind::CoreShowChannel,
            AmiEvent::CoreShowChannelsComplete { .. } => EventKind::CoreShowChannelsComplete,
            AmiEvent::CoreShowChannelMapComplete => EventKind::CoreShowChannelMapComplete,
            AmiEvent::DAHDIChannel { .. } => EventKind::DAHDIChannel,
            AmiEvent::Alarm { .. } => EventKind::Alarm,
            AmiEvent::AlarmClear { .. } => EventKind::AlarmClear,
            AmiEvent::SpanAlarm { .. } => EventKind::SpanAlarm,
            AmiEvent::SpanAlarmClear { .. } => EventKind::SpanAlarmClear,
            AmiEvent::AocD { .. } => EventKind::AocD,
            AmiEvent::AocE { .. } => EventKind::AocE,
            AmiEvent::AocS { .. } => EventKind::AocS,
            AmiEvent::FAXStatus { .. } => EventKind::FAXStatus,
            AmiEvent::ReceiveFAX { .. } => EventKind::ReceiveFAX,
            AmiEvent::SendFAX { .. } => EventKind::SendFAX,
            AmiEvent::MeetmeJoin { .. } => EventKind::MeetmeJoin,
            AmiEvent::MeetmeLeave { .. } => EventKind::MeetmeLeave,
            AmiEvent::MeetmeEnd { .. } => EventKind::MeetmeEnd,
            AmiEvent::MeetmeMute { .. } => EventKind::MeetmeMute,
            AmiEvent::MeetmeTalking { .. } => EventKind::MeetmeTalking,
            AmiEvent::MeetmeTalkRequest { .. } => EventKind::MeetmeTalkRequest,
            AmiEvent::MeetmeList { .. } => EventKind::MeetmeList,
            AmiEvent::MeetmeListRooms { .. } => EventKind::MeetmeListRooms,
            AmiEvent::DeviceStateListComplete { .. } => EventKind::DeviceStateListComplete,
            AmiEvent::ExtensionStateListComplete { .. } => EventKind::ExtensionStateListComplete,
            AmiEvent::PresenceStateListComplete { .. } => EventKind::PresenceStateListComplete,
            AmiEvent::AorDetail { .. } => EventKind::AorDetail,
            AmiEvent::AorList { .. } => EventKind::AorList,
            AmiEvent::AorListComplete { .. } => EventKind::AorListComplete,
            AmiEvent::AuthDetail { .. } => EventKind::AuthDetail,
            AmiEvent::AuthList { .. } => EventKind::AuthList,
            AmiEvent::AuthListComplete { .. } => EventKind::AuthListComplete,
            AmiEvent::ContactList { .. } => EventKind::ContactList,
            AmiEvent::ContactListComplete { .. } => EventKind::ContactListComplete,
            AmiEvent::ContactStatusDetail { .. } => EventKind::ContactStatusDetail,
            AmiEvent::EndpointDetail { .. } => EventKind::EndpointDetail,
            AmiEvent::EndpointDetailComplete { .. } => EventKind::EndpointDetailComplete,
            AmiEvent::EndpointList { .. } => EventKind::EndpointList,
            AmiEvent::EndpointListComplete { .. } => EventKind::EndpointListComplete,
            AmiEvent::IdentifyDetail { .. } => EventKind::IdentifyDetail,
            AmiEvent::TransportDetail { .. } => EventKind::TransportDetail,
            AmiEvent::ResourceListDetail { .. } => EventKind::ResourceListDetail,
            AmiEvent::InboundRegistrationDetail { .. } => EventKind::InboundRegistrationDetail,
            AmiEvent::OutboundRegistrationDetail { .. } => EventKind::OutboundRegistrationDetail,
            AmiEvent::InboundSubscriptionDetail { .. } => EventKind::InboundSubscriptionDetail,
            AmiEvent::OutboundSubscriptionDetail { .. } => EventKind::OutboundSubscriptionDetail,
            AmiEvent::MWIGet { .. } => EventKind::MWIGet,
            AmiEvent::MWIGetComplete { .. } => EventKind::MWIGetComplete,
            AmiEvent::MiniVoiceMail { .. } => EventKind::MiniVoiceMail,
            AmiEvent::FAXSession { .. } => EventKind::FAXSession,
            AmiEvent::FAXSessionsEntry { .. } => EventKind::FAXSessionsEntry,
            AmiEvent::FAXSessionsComplete { .. } => EventKind::FAXSessionsComplete,
            AmiEvent::FAXStats { .. } => EventKind::FAXStats,
            AmiEvent::DNDState { .. } => EventKind::DNDState,
            AmiEvent::DeadlockStart => EventKind::DeadlockStart,
            AmiEvent::MCID { .. } => EventKind::MCID,
            AmiEvent::Malformed { .. } => EventKind::Malformed,
            AmiEvent::Unknown { .. } => EventKind::Unknown,
        }
    }

    /// The channel name, if this event pertains to a channel.
    pub fn channel(&self) -> (r: Option<&str>)
        ensures
            match r {
                Some(c) => channel_spec(*self) == Some(c@),
                None => channel_spec(*self) is None,
            },
    {
        match self {
            AmiEvent::NewChannel { channel, .. } => Some(channel.as_str()),
            AmiEvent::Hangup { channel, .. } => Some(channel.as_str()),
            AmiEvent::Newstate { channel, .. } => Some(channel.as_str()),
            AmiEvent::DialBegin { channel, .. } => Some(channel.as_str()),
            AmiEvent::DialEnd { channel, .. } => Some(channel.as_str()),
            AmiEvent::DtmfBegin { channel, .. } => Some(channel.as_str()),
            AmiEvent::DtmfEnd { channel, .. } => Some(channel.as_str()),
            AmiEvent::BridgeEnter { channel, .. } => Some(channel.as_str()),
            AmiEvent::BridgeLeave { channel, .. } => Some(channel.as_str()),
            AmiEvent::Hold { channel, .. } => Some(channel.as_str()),
            AmiEvent::Unhold { channel, .. } => Some(channel.as_str()),
            AmiEvent::HangupRequest { channel, .. } => Some(channel.as_str()),
            AmiEvent::SoftHangupRequest { channel, .. } => Some(channel.as_str()),
            AmiEvent::NewExten { channel, .. } => Some(channel.as_str()),
            AmiEvent::NewCallerid { channel, .. } => Some(channel.as_str()),
            AmiEvent::NewConnectedLine { channel, .. } => Some(channel.as_str()),
            AmiEvent::NewAccountCode { channel, .. } => Some(channel.as_str()),
            AmiEvent::Rename { channel, .. } => Some(channel.as_str()),
            AmiEvent::OriginateResponse { channel, .. } => Some(channel.as_str()),
            AmiEvent::DialState { channel, .. } => Some(channel.as_str()),
            AmiEvent::Flash { channel, .. } => Some(channel.as_str()),
            AmiEvent::Wink { channel, .. } => Some(channel.as_str()),
            AmiEvent::BridgeInfoChannel { channel, .. } => Some(channel.as_str()),
            AmiEvent::LocalBridge { channel, .. } => Some(channel.as_str()),
            AmiEvent::LocalOptimizationBegin { channel, .. } => Some(channel.as_str()),
            AmiEvent::LocalOptimizationEnd { channel, .. } => Some(channel.as_str()),
            AmiEvent::Cdr { channel, .. } => Some(channel.as_str()),
            AmiEvent::Cel { channel, .. } => Some(channel.as_str()),
            AmiEvent::QueueCallerAbandon { channel, .. } => Some(channel.as_str()),
            AmiEvent::QueueCallerJoin { channel, .. } => Some(channel.as_str()),
            AmiEvent::QueueCallerLeave { channel, .. } => Some(channel.as_str()),
            AmiEvent::QueueEntry { channel, .. } => Some(channel.as_str()),
            AmiEvent::AgentCalled { channel, .. } => Some(channel.as_str()),
            AmiEvent::AgentConnect { channel, .. } => Some(channel.as_str()),
            AmiEvent::AgentComplete { channel, .. } => Some(channel.as_str()),
            AmiEvent::AgentDump { channel, .. } => Some(channel.as_str()),
            AmiEvent::AgentLogin { channel, .. } => Some(channel.as_str()),
            AmiEvent::AgentRingNoAnswer { channel, .. } => Some(channel.as_str()),
            AmiEvent::ConfbridgeJoin { channel, .. } => Some(channel.as_str()),
            AmiEvent::ConfbridgeLeave { channel, .. } => Some(channel.as_str()),
            AmiEvent::ConfbridgeList { channel, .. } => Some(channel.as_str()),
            AmiEvent::ConfbridgeMute { channel, .. } => Some(channel.as_str()),
            AmiEvent::ConfbridgeUnmute { channel, .. } => Some(channel.as_str()),
            AmiEvent::ConfbridgeTalking { channel, .. } => Some(channel.as_str()),
            AmiEvent::MixMonitorStart { channel, .. } => Some(channel.as_str()),
            AmiEvent::MixMonitorStop { channel, .. } => Some(channel.as_str()),
            AmiEvent::MixMonitorMute { channel, .. } => Some(channel.as_str()),
            AmiEvent::MusicOnHoldStart { channel, .. } => Some(channel.as_str()),
            AmiEvent::MusicOnHoldStop { channel, .. } => Some(channel.as_str()),
            AmiEvent::ParkedCall { channel, .. } => Some(channel.as_str()),
            AmiEvent::ParkedCallGiveUp { channel, .. } => Some(channel.as_str()),
            AmiEvent::ParkedCallTimeOut { channel, .. } => Some(channel.as_str()),
            AmiEvent::ParkedCallSwap { channel, .. } => Some(channel.as_str()),
            AmiEvent::UnParkedCall { channel, .. } => Some(channel.as_str()),
            AmiEvent::Pickup { channel, .. } => Some(channel.as_str()),
            AmiEvent::ChanSpyStart { channel, .. } => Some(channel.as_str()),
            AmiEvent::ChanSpyStop { channel, .. } => Some(channel.as_str()),
            AmiEvent::ChannelTalkingStart { channel, .. } => Some(channel.as_str()),
            AmiEvent::ChannelTalkingStop { channel, .. } => Some(channel.as_str()),
            AmiEvent::RTCPReceived { channel, .. } => Some(channel.as_str()),
            AmiEvent::RTCPSent { channel, .. } => Some(channel.as_str()),
            AmiEvent::AsyncAGIStart { channel, .. } => Some(channel.as_str()),
            AmiEvent::AsyncAGIExec { channel, .. } => Some(channel.as_str()),
            AmiEvent::AsyncAGIEnd { channel, .. } => Some(channel.as_str()),
            AmiEvent::AGIExecStart { channel, .. } => Some(channel.as_str()),
            AmiEvent::AGIExecEnd { channel, .. } => Some(channel.as_str()),
            AmiEvent::HangupHandlerPush { channel, .. } => Some(channel.as_str()),
            AmiEvent::HangupHandlerPop { channel, .. } => Some(channel.as_str()),
            AmiEvent::HangupHandlerRun { channel, .. } => Some(channel.as_str()),
            AmiEvent::Status { channel, .. } => Some(channel.as_str()),
            AmiEvent::CoreShowChannel { channel, .. } => Some(channel.as_str()),
            AmiEvent::AocD { channel, .. } => Some(channel.as_str()),
            AmiEvent::AocE { channel, .. } => Some(channel.as_str()),
            AmiEvent::AocS { channel, .. } => Some(channel.as_str()),
            AmiEvent::FAXStatus { channel, .. } => Some(channel.as_str()),
            AmiEvent::ReceiveFAX { channel, .. } => Some(channel.as_str()),
            AmiEvent::SendFAX { channel, .. } => Some(channel.as_str()),
            AmiEvent::MeetmeJoin { channel, .. } => Some(channel.as_str()),
            AmiEvent::MeetmeLeave { channel, .. } => Some(channel.as_str()),
            AmiEvent::MeetmeMute { channel, .. } => Some(channel.as_str()),
            AmiEvent::MeetmeTalking { channel, .. } => Some(channel.as_str()),
            AmiEvent::MeetmeTalkRequest { channel, .. } => Some(channel.as_str()),
            AmiEvent::MeetmeList { channel, .. } => Some(channel.as_str()),
            AmiEvent::MiniVoiceMail { channel, .. } => Some(channel.as_str()),
            AmiEvent::FAXSession { channel, .. } => Some(channel.as_str()),
            AmiEvent::FAXSessionsEntry { channel, .. } => Some(channel.as_str()),
            AmiEvent::DNDState { channel, .. } => Some(channel.as_str()),
            AmiEvent::MCID { channel, .. } => Some(channel.as_str()),
            AmiEvent::VarSet { channel, .. } => match channel {
                Some(c) => Some(c.as_str()),
                None => None,
            },
            AmiEvent::UserEvent { channel, .. } => match channel {
                Some(c) => Some(c.as_str()),
                None => None,
            },
            AmiEvent::Agents { channel, .. } => match channel {
                Some(c) => Some(c.as_str()),
                None => None,
            },
            AmiEvent::DAHDIChannel { channel, .. } => match channel {
                Some(c) => Some(c.as_str()),
                None => None,
            },
            _ => None,
        }
    }

    /// The unique id, if this event carries one.
    pub fn unique_id(&self) -> (r: Option<&str>)
        ensures
            match r {
                Some(c) => unique_id_spec(*self) == Some(c@),
                None => unique_id_spec(*self) is None,
            },
    {
        match self {
            AmiEvent::NewChannel { unique_id, .. } => Some(unique_id.as_str()),
            AmiEvent::Hangup { unique_id, .. } => Some(unique_id.as_str()),
            AmiEvent::Newstate { unique_id, .. } => Some(unique_id.as_str()),
            AmiEvent::DialBegin { unique_id, .. } => Some(unique_id.as_str()),
            AmiEvent::DialEnd { unique_id, .. } => Some(unique_id.as_str()),
            AmiEvent::DtmfBegin { unique_id, .. } => Some(unique_id.as_str()),
            AmiEvent::DtmfEnd { unique_id, .. } => Some(unique_id.as_str()),
            AmiEvent::BridgeEnter { unique_id, .. } => Some(unique_id.as_str()),
            AmiEvent::BridgeLeave { unique_id, .. } => Some(unique_id.as_str()),
            AmiEvent::Hold { unique_id, .. } => Some(unique_id.as_str()),
            AmiEvent::Unhold { unique_id, .. } => Some(unique_id.as_str()),
            AmiEvent::HangupRequest { unique_id, .. } => Some(unique_id.as_str()),
            AmiEvent::SoftHangupRequest { unique_id, .. } => Some(unique_id.as_str()),
            AmiEvent::NewExten { unique_id, .. } => Some(unique_id.as_str()),
            AmiEvent::NewCallerid { unique_id, .. } => Some(unique_id.as_str()),
            AmiEvent::NewConnectedLine { unique_id, .. } => Some(unique_id.as_str()),
            AmiEvent::NewAccountCode { unique_id, .. } => Some(unique_id.as_str()),
            AmiEvent::Rename { unique_id, .. } => Some(unique_id.as_str()),
            AmiEvent::OriginateResponse { unique_id, .. } => Some(unique_id.as_str()),
            AmiEvent::DialState { unique_id, .. } => Some(unique_id.as_str()),
            AmiEvent::Flash { unique_id, .. } => Some(unique_id.as_str()),
            AmiEvent::Wink { unique_id, .. } => Some(unique_id.as_str()),
            AmiEvent::BridgeInfoChannel { unique_id, .. } => Some(unique_id.as_str()),
            AmiEvent::LocalBridge { unique_id, .. } => Some(unique_id.as_str()),
            AmiEvent::LocalOptimizationBegin { unique_id, .. } => Some(unique_id.as_str()),
            AmiEvent::LocalOptimizationEnd { unique_id, .. } => Some(unique_id.as_str()),
            AmiEvent::Cdr { unique_id, .. } => Some(unique_id.as_str()),
            AmiEvent::Cel { unique_id, .. } => Some(unique_id.as_str()),
            AmiEvent::QueueCallerAbandon { unique_id, .. } => Some(unique_id.as_str()),
            AmiEvent::QueueCallerJoin { unique_id, .. } => Some(unique_id.as_str()),
            AmiEvent::QueueCallerLeave { unique_id, .. } => Some(unique_id.as_str()),
            AmiEvent::QueueEntry { unique_id, .. } => Some(unique_id.as_str()),
            AmiEvent::AgentCalled { unique_id, .. } => Some(unique_id.as_str()),
            AmiEvent::AgentConnect { unique_id, .. } => Some(unique_id.as_str()),
            AmiEvent::AgentComplete { unique_id, .. } => Some(unique_id.as_str()),
            AmiEvent::AgentDump { unique_id, .. } => Some(unique_id.as_str()),
            AmiEvent::AgentLogin { unique_id, .. } => Some(unique_id.as_str()),
            AmiEvent::AgentRingNoAnswer { unique_id, .. } => Some(unique_id.as_str()),
            AmiEvent::ConfbridgeJoin { unique_id, .. } => Some(unique_id.as_str()),
            AmiEvent::ConfbridgeLeave { unique_id, .. } => Some(unique_id.as_str()),
            AmiEvent::ConfbridgeList { unique_id, .. } => Some(unique_id.as_str()),
            AmiEvent::ConfbridgeMute { unique_id, .. } => Some(unique_id.as_str()),
            AmiEvent::ConfbridgeUnmute { unique_id, .. } => Some(unique_id.as_str()),
            AmiEvent::ConfbridgeTalking { unique_id, .. } => Some(unique_id.as_str()),
            AmiEvent::MixMonitorStart { unique_id, .. } => Some(unique_id.as_str()),
            AmiEvent::MixMonitorStop { unique_id, .. } => Some(unique_id.as_str()),
            AmiEvent::MixMonitorMute { unique_id, .. } => Some(unique_id.as_str()),
            AmiEvent::MusicOnHoldStart { unique_id, .. } => Some(unique_id.as_str()),
            AmiEvent::MusicOnHoldStop { unique_id, .. } => Some(unique_id.as_str()),
            AmiEvent::ParkedCall { unique_id, .. } => Some(unique_id.as_str()),
            AmiEvent::ParkedCallGiveUp { unique_id, .. } => Some(unique_id.as_str()),
            AmiEvent::ParkedCallTimeOut { unique_id, .. } => Some(unique_id.as_str()),
            AmiEvent::ParkedCallSwap { unique_id, .. } => Some(unique_id.as_str()),
            AmiEvent::UnParkedCall { unique_id, .. } => Some(unique_id.as_str()),
            AmiEvent::Pickup { unique_id, .. } => Some(unique_id.as_str()),
            AmiEvent::ChanSpyStart { unique_id, .. } => Some(unique_id.as_str()),
            AmiEvent::ChanSpyStop { unique_id, .. } => Some(unique_id.as_str()),
            AmiEvent::ChannelTalkingStart { unique_id, .. } => Some(unique_id.as_str()),
            AmiEvent::ChannelTalkingStop { unique_id, .. } => Some(unique_id.as_str()),
            AmiEvent::RTCPReceived { unique_id, .. } => Some(unique_id.as_str()),
            AmiEvent::RTCPSent { unique_id, .. } => Some(unique_id.as_str()),
            AmiEvent::AsyncAGIStart { unique_id, .. } => Some(unique_id.as_str()),
            AmiEvent::AsyncAGIExec { unique_id, .. } => Some(unique_id.as_str()),
            AmiEvent::AsyncAGIEnd { unique_id, .. } => Some(unique_id.as_str()),
            AmiEvent::AGIExecStart { unique_id, .. } => Some(unique_id.as_str()),
            AmiEvent::AGIExecEnd { unique_id, .. } => Some(unique_id.as_str()),
            AmiEvent::HangupHandlerPush { unique_id, .. } => Some(unique_id.as_str()),
            AmiEvent::HangupHandlerPop { unique_id, .. } => Some(unique_id.as_str()),
            AmiEvent::HangupHandlerRun { unique_id, .. } => Some(unique_id.as_str()),
            AmiEvent::Status { unique_id, .. } => Some(unique_id.as_str()),
            AmiEvent::CoreShowChannel { unique_id, .. } => Some(unique_id.as_str()),
            AmiEvent::AocD { unique_id, .. } => Some(unique_id.as_str()),
            AmiEvent::AocE { unique_id, .. } => Some(unique_id.as_str()),
            AmiEvent::AocS { unique_id, .. } => Some(unique_id.as_str()),
            AmiEvent::FAXStatus { unique_id, .. } => Some(unique_id.as_str()),
            AmiEvent::ReceiveFAX { unique_id, .. } => Some(unique_id.as_str()),
            AmiEvent::SendFAX { unique_id, .. } => Some(unique_id.as_str()),
            AmiEvent::MeetmeJoin { unique_id, .. } => Some(unique_id.as_str()),
            AmiEvent::MeetmeLeave { unique_id, .. } => Some(unique_id.as_str()),
            AmiEvent::MeetmeMute { unique_id, .. } => Some(unique_id.as_str()),
            AmiEvent::MeetmeTalking { unique_id, .. } => Some(unique_id.as_str()),
            AmiEvent::MeetmeTalkRequest { unique_id, .. } => Some(unique_id.as_str()),
            AmiEvent::MeetmeList { unique_id, .. } => Some(unique_id.as_str()),
            AmiEvent::MiniVoiceMail { unique_id, .. } => Some(unique_id.as_str()),
            AmiEvent::FAXSession { unique_id, .. } => Some(unique_id.as_str()),
            AmiEvent::MCID { unique_id, .. } => Some(unique_id.as_str()),
            AmiEvent::VarSet { unique_id, .. } => match unique_id {
                Some(c) => Some(c.as_str()),
                None => None,
            },
            AmiEvent::UserEvent { unique_id, .. } => match unique_id {
                Some(c) => Some(c.as_str()),
                None => None,
            },
            AmiEvent::DAHDIChannel { unique_id, .. } => match unique_id {
                Some(c) => Some(c.as_str()),
                None => None,
            },
            _ => None,
        }
    }
}

/// Whether a kind marks the end of an event list.
fn kind_completes(k: EventKind) -> (r: bool)
    ensures
        r == kind_completes_list(k),
{
    match k {
        EventKind::StatusComplete => true,
        EventKind::CoreShowChannelsComplete => true,
        EventKind::CoreShowChannelMapComplete => true,
        EventKind::AgentsComplete => true,
        EventKind::BridgeInfoComplete => true,
        EventKind::DeviceStateListComplete => true,
        EventKind::ExtensionStateListComplete => true,
        EventKind::PresenceStateListComplete => true,
        EventKind::AorListComplete => true,
        EventKind::AuthListComplete => true,
        EventKind::ContactListComplete => true,
        EventKind::EndpointDetailComplete => true,
        EventKind::EndpointListComplete => true,
        EventKind::MWIGetComplete => true,
        EventKind::FAXSessionsComplete => true,
        _ => false,
    }
}

/// Whether any header says `EventList: Complete`.
fn list_complete_header(headers: &Vec<(String, String)>) -> (r: bool)
    ensures
        r == has_list_complete_header(pairs_view(headers@)),
{
    let ghost h = pairs_view(headers@);
    let mut i: usize = 0;
    while i < headers.len()
        invariant
            h == pairs_view(headers@),
            0 <= i <= headers@.len(),
            forall|j: int| 0 <= j < i ==> !(eq_ic_chars(#[trigger] h[j].0, "EventList"@) && eq_ic_chars(h[j].1, "complete"@)),
        decreases headers@.len() - i,
    {
        if str_eq_ignore_case(headers[i].0.as_str(), "EventList") && str_eq_ignore_case(headers[i].1.as_str(), "complete") {
            assert(eq_ic_chars(h[i as int].0, "EventList"@) && eq_ic_chars(h[i as int].1, "complete"@));
            return true;
        }
        i = i + 1;
    }
    false
}

} // verus!
