//! The decisions of an AMI session: MD5 challenge-response keys, the login
//! exchange, how an incoming message is routed, client settings, and what a
//! timed-out caller is told. The connection task performs the I/O these
//! decisions call for.
use vstd::prelude::*;
use vstd::utf8::encode_utf8;
use vstd::string::*;
use md5::{Digest, Md5};
use crate::ami::action::{AmiAction, ChallengeAction, ChallengeLoginAction, LoginAction, next_counter, action_message};
use crate::ami::codec::{RawAmiMessage, RawView, hget, min_usize, pairs_bytes, strings_bytes};
use crate::ami::error::{AmiError, AuthError, TimeoutError};
use crate::ami::response::{
    AmiResponse, ResponseView, response_spec, EventListTerminal, RequestLifecycle, RequestState, PendingActions,
    PendingView, ListOutcome, outcome_is, response_step, event_step, id_index, list_ids, waiter_ids, drop_waiter,
};
use crate::ami::event::{AmiEvent, EventView, event_spec, view_list_complete};
use crate::secret::secret_text;
use crate::text::{eq_ic_chars, str_eq, str_eq_ignore_case, push_char, dec};

verus! {

/// The MD5 digest of a byte string.
pub uninterp spec fn md5_digest(data: Seq<u8>) -> Seq<u8>;

/// `md5::Md5` fed `first` and then `second`, then finalized: the MD5 digest
/// of the two byte strings one after the other.
#[verifier::external_body]
fn md5_of_pair(first: &[u8], second: &[u8]) -> (r: [u8; 16])
    ensures
        r@ == md5_digest(first@ + second@),
{
    let mut hasher = Md5::new();
    hasher.update(first);
    hasher.update(second);
    hasher.finalize().into()
}

/// A lower-case hexadecimal digit.
pub open spec fn hex_digit(n: int) -> char {
    if n < 10 {
        (48 + n) as char
    } else {
        (87 + n) as char
    }
}

/// Two lower-case hexadecimal digits per byte.
pub open spec fn hex(s: Seq<u8>) -> Seq<char>
    decreases s.len(),
{
    if s.len() == 0 {
        Seq::empty()
    } else {
        hex(s.drop_last()).push(hex_digit((s.last() / 16) as int)).push(hex_digit((s.last() % 16) as int))
    }
}

/// A lower-case hexadecimal digit.
fn hex_digit_exec(n: u8) -> (c: char)
    requires
        n < 16,
    ensures
        c == hex_digit(n as int),
{
    if n < 10 {
        (48u8 + n) as char
    } else {
        (87u8 + n) as char
    }
}

/// The challenge-response key: the MD5 digest of the challenge followed by
/// the secret, in lower-case hexadecimal.
pub fn compute_md5_key(challenge: &str, secret: &str) -> (r: String)
    ensures
        r@ == hex(md5_digest(encode_utf8(challenge@) + encode_utf8(secret@))),
{
    let digest = md5_of_pair(challenge.as_bytes(), secret.as_bytes());
    let ghost d = digest@;
    let mut out = String::new();
    let mut i: usize = 0;
    while i < 16
        invariant
            d == digest@,
            d.len() == 16,
            0 <= i <= 16,
            out@ == hex(d.subrange(0, i as int)),
        decreases 16 - i,
    {
        let b = digest[i];
        push_char(&mut out, hex_digit_exec(b / 16));
        push_char(&mut out, hex_digit_exec(b % 16));
        assert(d.subrange(0, i + 1).drop_last() =~= d.subrange(0, i as int));
        i = i + 1;
    }
    assert(d.subrange(0, 16) =~= d);
    out
}


/// What the login exchange does next.
pub enum LoginStep {
    /// send this message, then read the next response
    Send(RawAmiMessage),
    /// the login failed
    Fail(AmiError),
}

/// The reason given when the server offers no MD5 challenge and plaintext
/// login is not allowed.
pub open spec fn no_challenge_reason() -> Seq<char> {
    "server did not provide MD5 challenge; plaintext fallback is disabled (set require_challenge(false) for trusted loopback connections)"@
}

/// The first message of a login: a request for an MD5 challenge, with the
/// next action id from `counter`.
pub fn login_start(counter: &mut u64) -> (r: RawAmiMessage)
    ensures
        *final(counter) == next_counter(*old(counter)),
        r@ == action_message("Challenge"@, dec(*old(counter) as nat), seq![("AuthType"@, "md5"@)]),
{
    let (_, msg) = ChallengeAction.to_message(counter);
    assert(Seq::<(Seq<char>, Seq<char>)>::empty().push(("AuthType"@, "md5"@)) =~= seq![("AuthType"@, "md5"@)]);
    msg
}

/// The login message after the challenge response: a challenge-response
/// login when the server offered a challenge; otherwise a plaintext login,
/// or a failure when a challenge is required.
pub open spec fn after_challenge(resp: ResponseView, username: Seq<char>, secret: Seq<char>, require_challenge: bool, id: Seq<char>) -> Result<RawView, Seq<char>> {
    if resp.success && hget(resp.headers, "Challenge"@) is Some {
        let challenge = hget(resp.headers, "Challenge"@).unwrap();
        Ok(action_message(
            "Login"@,
            id,
            seq![("AuthType"@, "md5"@), ("Username"@, username), ("Key"@, hex(md5_digest(encode_utf8(challenge) + encode_utf8(secret))))],
        ))
    } else if require_challenge {
        Err(no_challenge_reason())
    } else {
        Ok(action_message("Login"@, id, seq![("Username"@, username), ("Secret"@, secret)]))
    }
}

/// An authentication rejection with the given reason.
pub open spec fn is_rejection(e: AmiError, reason: Seq<char>) -> bool {
    e matches AmiError::Auth(AuthError::Rejected { reason: r }) && r@ == reason
}

/// Decides the second step of a login from the challenge response; the
/// action id comes from `counter`.
pub fn login_after_challenge(resp: &AmiResponse, username: &str, secret: &str, require_challenge: bool, counter: &mut u64) -> (r: LoginStep)
    ensures
        match after_challenge(resp@, username@, secret@, require_challenge, dec(*old(counter) as nat)) {
            Ok(m) => r matches LoginStep::Send(msg) && msg@ == m && *final(counter) == next_counter(*old(counter)),
            Err(reason) => r matches LoginStep::Fail(e) && is_rejection(e, reason) && *final(counter) == *old(counter),
        },
{
    if resp.success {
        match resp.get("Challenge") {
            Some(challenge) => {
                let key = compute_md5_key(challenge, secret);
                let login = ChallengeLoginAction::new(username, key.as_str());
                let (_, msg) = login.to_message(counter);
                assert(login.headers_view() =~= seq![("AuthType"@, "md5"@), ("Username"@, username@), ("Key"@, key@)]);
                return LoginStep::Send(msg);
            },
            None => {},
        }
    }
    if require_challenge {
        let reason = "server did not provide MD5 challenge; plaintext fallback is disabled (set require_challenge(false) for trusted loopback connections)";
        return LoginStep::Fail(AmiError::Auth(AuthError::Rejected { reason: reason.to_owned() }));
    }
    let login = LoginAction::new(username, secret);
    let (_, msg) = login.to_message(counter);
    assert(login.headers_view() =~= seq![("Username"@, username@), ("Secret"@, secret@)]);
    LoginStep::Send(msg)
}

/// The outcome of a login from the server's answer to the login message:
/// done on success, otherwise a rejection carrying the server's message.
pub fn login_result(resp: &AmiResponse) -> (r: Result<(), AmiError>)
    ensures
        resp@.success ==> r is Ok,
        !resp@.success ==> (r matches Err(e) && is_rejection(
            e,
            match resp@.message {
                Some(m) => m,
                None => Seq::empty(),
            },
        )),
{
    if resp.success {
        Ok(())
    } else {
        let reason = match &resp.message {
            Some(m) => m.clone(),
            None => String::new(),
        };
        Err(AmiError::Auth(AuthError::Rejected { reason }))
    }
}

/// What a caller whose action timed out is told: a timeout if the request
/// could still be cancelled before it was written (it is cancelled now),
/// "outcome unknown" if it may have reached the server, a timeout otherwise.
pub fn timeout_outcome(lifecycle: &mut RequestLifecycle, action_id: &str, timeout_ms: u64) -> (r: AmiError)
    ensures
        old(lifecycle).state == RequestState::Queued ==> (final(lifecycle).state == RequestState::Cancelled
            && (r matches AmiError::Timeout(TimeoutError::Action { elapsed_ms }) && elapsed_ms == timeout_ms)),
        old(lifecycle).state != RequestState::Queued ==> final(lifecycle).state == old(lifecycle).state,
        (old(lifecycle).state == RequestState::Writing || old(lifecycle).state == RequestState::Sent
            || old(lifecycle).state == RequestState::Completed) ==> (r matches AmiError::OutcomeUnknown { action_id: a }
            && a@ == action_id@),
        old(lifecycle).state == RequestState::Cancelled ==> (r matches AmiError::Timeout(TimeoutError::Action { elapsed_ms })
            && elapsed_ms == timeout_ms),
{
    if lifecycle.cancel_queued() {
        AmiError::Timeout(TimeoutError::Action { elapsed_ms: timeout_ms })
    } else if lifecycle.may_have_executed() {
        AmiError::OutcomeUnknown { action_id: action_id.to_owned() }
    } else {
        AmiError::Timeout(TimeoutError::Action { elapsed_ms: timeout_ms })
    }
}


/// How an incoming message was routed.
pub enum Routed {
    /// the keep-alive ping was answered with a pong (no ping is pending now)
    Pong,
    /// the answer to the keep-alive was something other than a pong
    BadPong,
    /// the first response of an event-generating action
    ListResponse(ListOutcome),
    /// the response to a plain action: whether a caller was waiting for it,
    /// and the response to hand over
    Response(bool, AmiResponse),
    /// an event that belongs to an event list (it is published as well)
    ListEvent(ListOutcome, AmiEvent),
    /// an event to publish
    Event(AmiEvent),
    /// neither a response nor an event
    Unclassified,
}

/// The effect of an event on the list named by its `ActionID`: the
/// `EventList` header decides, then the event's own kind.
pub open spec fn terminal_of(raw: RawView, ev: EventView) -> EventListTerminal {
    match hget(raw.headers, "EventList"@) {
        Some(v) => if eq_ic_chars(v, "Complete"@) {
            EventListTerminal::Complete
        } else if eq_ic_chars(v, "Cancelled"@) {
            EventListTerminal::Cancelled
        } else if view_list_complete(ev) {
            EventListTerminal::Complete
        } else {
            EventListTerminal::Continue
        },
        None => if view_list_complete(ev) {
            EventListTerminal::Complete
        } else {
            EventListTerminal::Continue
        },
    }
}

/// Whether a response is the pong expected for a keep-alive ping.
pub open spec fn is_pong(resp: ResponseView) -> bool {
    resp.success && hget(resp.headers, "Ping"@) == Some("Pong"@)
}

/// The effect of an event for the list named by its `ActionID`.
fn event_terminal(raw: &RawAmiMessage, event: &AmiEvent) -> (r: EventListTerminal)
    ensures
        r == terminal_of(raw@, event@),
{
    match raw.get("EventList") {
        Some(v) => {
            if str_eq_ignore_case(v, "Complete") {
                return EventListTerminal::Complete;
            }
            if str_eq_ignore_case(v, "Cancelled") {
                return EventListTerminal::Cancelled;
            }
        },
        None => {},
    }
    if event.is_event_list_complete() {
        EventListTerminal::Complete
    } else {
        EventListTerminal::Continue
    }
}

/// Routes a response.
fn route_response(resp: AmiResponse, retained: usize, pending: &mut PendingActions, pending_ping: &mut Option<String>) -> (r: Routed)
    requires
        old(pending).wf(),
    ensures
        final(pending).wf(),
        match *old(pending_ping) {
            Some(p) if p@ == resp@.action_id => {
                &&& final(pending)@ == old(pending)@
                &&& is_pong(resp@) ==> (r is Pong && *final(pending_ping) is None)
                &&& !is_pong(resp@) ==> (r is BadPong && *final(pending_ping) == *old(pending_ping))
            },
            _ => {
                &&& *final(pending_ping) == *old(pending_ping)
                &&& if id_index(list_ids(old(pending)@.lists), resp@.action_id) is Some {
                    &&& final(pending)@ == response_step(old(pending)@, resp@, retained as nat).0
                    &&& r matches Routed::ListResponse(o)
                    &&& outcome_is(o, response_step(old(pending)@, resp@, retained as nat).1, resp@.action_id)
                } else {
                    &&& final(pending)@ == (PendingView {
                        waiting: drop_waiter(old(pending)@.waiting, resp@.action_id),
                        ..old(pending)@
                    })
                    &&& r matches Routed::Response(b, x)
                    &&& x@ == resp@
                    &&& b == (id_index(waiter_ids(old(pending)@.waiting), resp@.action_id) is Some)
                }
            },
        },
{
    let is_ping = match pending_ping {
        Some(p) => str_eq(p.as_str(), resp.action_id.as_str()),
        None => false,
    };
    if is_ping {
        let pong = match resp.get("Ping") {
            Some(v) => resp.success && str_eq(v, "Pong"),
            None => false,
        };
        if pong {
            *pending_ping = None;
            return Routed::Pong;
        } else {
            return Routed::BadPong;
        }
    }
    if pending.contains_event_list(resp.action_id.as_str()) {
        let o = pending.deliver_event_list_response_with_size(resp, retained);
        return Routed::ListResponse(o);
    }
    let waiting = pending.remove_waiter(resp.action_id.as_str());
    Routed::Response(waiting, resp)
}

/// Routes an event.
fn route_event(raw: &RawAmiMessage, retained: usize, pending: &mut PendingActions) -> (r: Routed)
    requires
        old(pending).wf(),
        event_spec(raw@) is Some,
    ensures
        final(pending).wf(),
        match hget(raw@.headers, "ActionID"@) {
            Some(aid) => {
                let ev = event_spec(raw@).unwrap();
                let step = event_step(old(pending)@, aid, ev, retained as nat, terminal_of(raw@, ev));
                &&& final(pending)@ == step.0
                &&& step.1 is NotPending ==> (r matches Routed::Event(e) && e@ == ev)
                &&& !(step.1 is NotPending) ==> (r matches Routed::ListEvent(o, e) && e@ == ev && outcome_is(o, step.1, aid))
            },
            None => final(pending)@ == old(pending)@ && (r matches Routed::Event(e) && e@ == event_spec(raw@).unwrap()),
        },
{
    let event = match AmiEvent::from_raw(raw) {
        Some(e) => e,
        None => return Routed::Unclassified,
    };
    match raw.get("ActionID") {
        Some(aid) => {
            let terminal = event_terminal(raw, &event);
            let published = match AmiEvent::from_raw(raw) {
                Some(e) => e,
                None => return Routed::Unclassified,
            };
            let o = pending.deliver_event_list_event_with_metadata(aid, event, retained, terminal);
            match o {
                ListOutcome::NotPending => Routed::Event(published),
                _ => Routed::ListEvent(o, published),
            }
        },
        None => Routed::Event(event),
    }
}

/// Routes an incoming message: a response goes to the keep-alive, an event
/// list or the waiting caller; an event goes to the event list named by its
/// `ActionID`, if one is pending, and is published.
pub fn dispatch_message(raw: RawAmiMessage, pending: &mut PendingActions, pending_ping: &mut Option<String>) -> (r: Routed)
    requires
        old(pending).wf(),
    ensures
        final(pending).wf(),
        response_spec(raw@) is None && event_spec(raw@) is None ==> (r is Unclassified && final(pending)@
            == old(pending)@),
        response_spec(raw@) is None ==> *final(pending_ping) == *old(pending_ping),
        match response_spec(raw@) {
            Some(resp) => match *old(pending_ping) {
                Some(p) if p@ == resp.action_id => {
                    &&& final(pending)@ == old(pending)@
                    &&& is_pong(resp) ==> (r is Pong && *final(pending_ping) is None)
                    &&& !is_pong(resp) ==> (r is BadPong && *final(pending_ping) == *old(pending_ping))
                },
                _ => {
                    let retained = raw_retained(raw@);
                    &&& *final(pending_ping) == *old(pending_ping)
                    &&& if id_index(list_ids(old(pending)@.lists), resp.action_id) is Some {
                        &&& final(pending)@ == response_step(old(pending)@, resp, retained).0
                        &&& r matches Routed::ListResponse(o)
                        &&& outcome_is(o, response_step(old(pending)@, resp, retained).1, resp.action_id)
                    } else {
                        &&& final(pending)@ == (PendingView {
                            waiting: drop_waiter(old(pending)@.waiting, resp.action_id),
                            ..old(pending)@
                        })
                        &&& r matches Routed::Response(b, x)
                        &&& x@ == resp
                        &&& b == (id_index(waiter_ids(old(pending)@.waiting), resp.action_id) is Some)
                    }
                },
            },
            None => match event_spec(raw@) {
                Some(ev) => match hget(raw@.headers, "ActionID"@) {
                    Some(aid) => {
                        let step = event_step(old(pending)@, aid, ev, raw_retained(raw@), terminal_of(raw@, ev));
                        &&& final(pending)@ == step.0
                        &&& step.1 is NotPending ==> (r matches Routed::Event(e) && e@ == ev)
                        &&& !(step.1 is NotPending) ==> (r matches Routed::ListEvent(o, e) && e@ == ev && outcome_is(
                            o,
                            step.1,
                            aid,
                        ))
                    },
                    None => final(pending)@ == old(pending)@ && (r matches Routed::Event(e) && e@ == ev),
                },
                None => true,
            },
        },
{
    let retained = raw.retained_size();
    match AmiResponse::from_raw(&raw) {
        Some(resp) => route_response(resp, retained, pending, pending_ping),
        None => {
            if AmiEvent::from_raw(&raw).is_some() {
                route_event(&raw, retained, pending)
            } else {
                Routed::Unclassified
            }
        },
    }
}

/// The bytes a message keeps (saturating).
pub open spec fn raw_retained(raw: RawView) -> nat {
    min_usize((pairs_bytes(raw.headers) + strings_bytes(raw.output) + pairs_bytes(raw.variables)) as int) as nat
}


/// How one connection (or connection attempt) ended.
pub enum ConnectionExit {
    /// the connection failed or dropped; another attempt may follow
    Retry,
    /// a failure that no further attempt can mend (for example a refused login)
    Fatal,
    /// the client asked to shut down
    Shutdown,
}

/// What the connection task does after a connection ended.
pub enum ReconnectStep {
    /// stop: shut down, or a fatal failure
    Stop,
    /// stop after the last allowed attempt failed
    GiveUp,
    /// wait the reconnect policy's delay for attempt `delay_attempt`, then
    /// connect again as attempt `next_attempt`
    Reconnect { delay_attempt: u32, next_attempt: u32 },
}

/// The decision after a connection ended on its `attempt`-th retry (counted
/// from zero and reset by each successful login): shutdown and fatal
/// failures stop; a retry gives up once `max_retries` attempts were made,
/// and otherwise waits the delay of this attempt and tries again.
pub fn after_exit(exit: ConnectionExit, attempt: u32, max_retries: Option<u32>) -> (r: ReconnectStep)
    requires
        (exit is Retry && !(max_retries matches Some(m) && attempt >= m)) ==> attempt < u32::MAX,
    ensures
        match exit {
            ConnectionExit::Shutdown => r is Stop,
            ConnectionExit::Fatal => r is Stop,
            ConnectionExit::Retry => if max_retries matches Some(m) && attempt >= m {
                r is GiveUp
            } else {
                r == (ReconnectStep::Reconnect { delay_attempt: attempt, next_attempt: (attempt + 1) as u32 })
            },
        },
{
    match exit {
        ConnectionExit::Shutdown => ReconnectStep::Stop,
        ConnectionExit::Fatal => ReconnectStep::Stop,
        ConnectionExit::Retry => {
            let give_up = match max_retries {
                Some(m) => attempt >= m,
                None => false,
            };
            if give_up {
                ReconnectStep::GiveUp
            } else {
                ReconnectStep::Reconnect { delay_attempt: attempt, next_attempt: attempt + 1 }
            }
        },
    }
}

} // verus!
