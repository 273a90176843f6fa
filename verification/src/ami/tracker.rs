//! Bounded, loss-aware correlation of AMI events into calls.
//!
//! The tracker keeps the calls it has seen start (`Newchannel`), appends the
//! events that carry their unique id, and hands out a completed call on
//! `Hangup` or when the call outlives its time to live. Times are
//! milliseconds on a clock of the caller's choosing.
use vstd::prelude::*;
use crate::ami::event::{AmiEvent, EventView, unique_id_spec};
use crate::ami::response::{id_index, distinct_ids, lemma_id_index, lemma_id_index_unique, lemma_distinct_remove, lemma_distinct_push, events_view};
use crate::text::str_eq;

verus! {

/// A fully resolved call with its bounded event history.
pub struct CompletedCall {
    /// Last observed channel name.
    pub channel: String,
    /// Asterisk unique identifier for the call leg.
    pub unique_id: String,
    /// Identifier correlating related call legs.
    pub linked_id: String,
    /// When tracking began (ms).
    pub start_time: u64,
    /// When the call completed (ms).
    pub end_time: u64,
    /// Elapsed tracked lifetime (ms).
    pub duration_ms: u64,
    /// Numeric Asterisk hangup cause.
    pub cause: u32,
    /// Text supplied with the hangup cause.
    pub cause_txt: String,
    /// Retained events, in arrival order.
    pub events: Vec<AmiEvent>,
    /// Events omitted after the per-call history limit was reached.
    pub events_truncated: u64,
}

/// Resource limits for a call tracker.
pub struct CallTrackerConfig {
    /// Maximum idle lifetime of an active call (ms).
    pub call_ttl_ms: u64,
    /// Interval between time-driven eviction sweeps (ms).
    pub eviction_interval_ms: u64,
    /// Maximum calls retained concurrently.
    pub max_active_calls: usize,
    /// Maximum events retained for one call.
    pub max_events_per_call: usize,
    /// Capacity of completed-call delivery.
    pub completed_capacity: usize,
}

impl CallTrackerConfig {
    /// One hour of time to live, a sweep every 30 s, 4096 calls of at most
    /// 256 events, 256 completed calls in delivery.
    pub fn default() -> (r: Self)
        ensures
            r.call_ttl_ms == 3600000,
            r.eviction_interval_ms == 30000,
            r.max_active_calls == 4096,
            r.max_events_per_call == 256,
            r.completed_capacity == 256,
    {
        CallTrackerConfig {
            call_ttl_ms: 3600000,
            eviction_interval_ms: 30000,
            max_active_calls: 4096,
            max_events_per_call: 256,
            completed_capacity: 256,
        }
    }

    /// The limits raised to at least one (the interval to at least 1 ms).
    pub fn normalized(self) -> (r: Self)
        ensures
            r.call_ttl_ms == self.call_ttl_ms,
            r.eviction_interval_ms == (if self.eviction_interval_ms < 1 { 1 } else { self.eviction_interval_ms }),
            r.max_active_calls == (if self.max_active_calls < 1 { 1 } else { self.max_active_calls }),
            r.max_events_per_call == (if self.max_events_per_call < 1 { 1 } else { self.max_events_per_call }),
            r.completed_capacity == (if self.completed_capacity < 1 { 1 } else { self.completed_capacity }),
    {
        CallTrackerConfig {
            call_ttl_ms: self.call_ttl_ms,
            eviction_interval_ms: if self.eviction_interval_ms < 1 { 1 } else { self.eviction_interval_ms },
            max_active_calls: if self.max_active_calls < 1 { 1 } else { self.max_active_calls },
            max_events_per_call: if self.max_events_per_call < 1 { 1 } else { self.max_events_per_call },
            completed_capacity: if self.completed_capacity < 1 { 1 } else { self.completed_capacity },
        }
    }
}

/// Snapshot of tracker health and bounded-loss counters.
#[derive(PartialEq, Eq, Structural, Clone, Copy, Debug)]
pub struct CallTrackerStats {
    /// Calls currently retained.
    pub active_calls: usize,
    /// Source events missed because the subscription lagged.
    pub lagged_events: u64,
    /// Per-call history events omitted at the configured bound.
    pub truncated_events: u64,
    /// Active calls evicted to preserve the configured bound.
    pub active_calls_evicted: u64,
    /// Completed calls dropped because delivery was full.
    pub completed_calls_lost: u64,
    /// False after source lag or source closure makes tracked state incomplete.
    pub valid: bool,
}

/// A call being tracked.
pub struct ActiveCall {
    pub channel: String,
    pub unique_id: String,
    pub linked_id: String,
    pub start_time: u64,
    pub events: Vec<AmiEvent>,
    pub events_truncated: u64,
}

/// Abstract content of a tracked call.
#[verifier::ext_equal]
pub struct CallView {
    pub channel: Seq<char>,
    pub unique_id: Seq<char>,
    pub linked_id: Seq<char>,
    pub start: u64,
    pub events: Seq<EventView>,
    pub truncated: u64,
}

impl View for ActiveCall {
    type V = CallView;

    open spec fn view(&self) -> CallView {
        CallView {
            channel: self.channel@,
            unique_id: self.unique_id@,
            linked_id: self.linked_id@,
            start: self.start_time,
            events: events_view(self.events@),
            truncated: self.events_truncated,
        }
    }
}

/// Calls as views.
pub open spec fn calls_view(s: Seq<ActiveCall>) -> Seq<CallView> {
    s.map_values(|c: ActiveCall| c@)
}

/// Completed calls as views.
pub open spec fn completed_view(s: Seq<CompletedCall>) -> Seq<CompletedView> {
    s.map_values(|c: CompletedCall| c@)
}

/// Abstract content of a completed call.
#[verifier::ext_equal]
pub struct CompletedView {
    pub call: CallView,
    pub end: u64,
    pub duration: u64,
    pub cause: u32,
    pub cause_txt: Seq<char>,
}

impl View for CompletedCall {
    type V = CompletedView;

    open spec fn view(&self) -> CompletedView {
        CompletedView {
            call: CallView {
                channel: self.channel@,
                unique_id: self.unique_id@,
                linked_id: self.linked_id@,
                start: self.start_time,
                events: events_view(self.events@),
                truncated: self.events_truncated,
            },
            end: self.end_time,
            duration: self.duration_ms,
            cause: self.cause,
            cause_txt: self.cause_txt@,
        }
    }
}

/// Abstract content of the tracker.
#[verifier::ext_equal]
pub struct TrackerView {
    pub calls: Seq<CallView>,
    pub lagged: u64,
    pub truncated: u64,
    pub evicted: u64,
    pub lost: u64,
    pub valid: bool,
}

/// A counter after one more count (it wraps at the top).
pub open spec fn bump(c: u64) -> u64 {
    if c == u64::MAX { 0 } else { (c + 1) as u64 }
}

/// Elapsed time from `start` to `now`, zero if `now` is earlier.
pub open spec fn elapsed(start: u64, now: u64) -> u64 {
    if now >= start { (now - start) as u64 } else { 0 }
}

/// The unique ids of the calls.
pub open spec fn call_ids(c: Seq<CallView>) -> Seq<Seq<char>> {
    c.map_values(|x: CallView| x.unique_id)
}

/// The first of the calls that started earliest.
pub open spec fn oldest(c: Seq<CallView>) -> int
    decreases c.len(),
{
    if c.len() <= 1 {
        0
    } else {
        let k = oldest(c.drop_last());
        if c.last().start < c[k].start {
            c.len() - 1
        } else {
            k
        }
    }
}

/// A call stored under its unique id (replacing one already there).
pub open spec fn set_call(calls: Seq<CallView>, c: CallView) -> Seq<CallView> {
    match id_index(call_ids(calls), c.unique_id) {
        Some(i) => calls.update(i, c),
        None => calls.push(c),
    }
}

/// A call with one more event: kept while the history has room, counted as
/// truncated otherwise (the counter saturates).
pub open spec fn with_event(c: CallView, e: EventView, max: nat) -> CallView {
    if c.events.len() < max {
        CallView { events: c.events.push(e), ..c }
    } else {
        CallView { truncated: if c.truncated == u64::MAX { u64::MAX } else { (c.truncated + 1) as u64 }, ..c }
    }
}

/// Whether adding an event to `c` truncates it.
pub open spec fn truncates(c: CallView, max: nat) -> bool {
    c.events.len() >= max
}

/// The state after a call starts: when the tracker is full and the id is
/// new, the oldest call is evicted first; a call already under the id is
/// replaced.
pub open spec fn start_step(
    v: TrackerView,
    max_calls: nat,
    channel: Seq<char>,
    uid: Seq<char>,
    linked: Seq<char>,
    ev: EventView,
    now: u64,
) -> TrackerView {
    let full = id_index(call_ids(v.calls), uid) is None && v.calls.len() >= max_calls && v.calls.len() > 0;
    let calls1 = if full { v.calls.remove(oldest(v.calls)) } else { v.calls };
    let fresh = CallView { channel, unique_id: uid, linked_id: linked, start: now, events: seq![ev], truncated: 0 };
    TrackerView { calls: set_call(calls1, fresh), evicted: if full { bump(v.evicted) } else { v.evicted }, ..v }
}

/// The channel, unique id and linked id of a `Newchannel` event.
pub open spec fn start_info(e: AmiEvent) -> Option<(Seq<char>, Seq<char>, Seq<char>)> {
    match e {
        AmiEvent::NewChannel { channel, unique_id, linked_id, .. } => Some((channel@, unique_id@, linked_id@)),
        _ => None,
    }
}

/// The cause and cause text of a `Hangup` event.
pub open spec fn hangup_info(e: AmiEvent) -> Option<(u32, Seq<char>)> {
    match e {
        AmiEvent::Hangup { cause, cause_txt, .. } => Some((cause, cause_txt@)),
        _ => None,
    }
}

/// The new channel name of a `Rename` event.
pub open spec fn rename_info(e: AmiEvent) -> Option<Seq<char>> {
    match e {
        AmiEvent::Rename { new_name, .. } => Some(new_name@),
        _ => None,
    }
}

/// The state after an event for the call at `i`, and the call it
/// completes, if any: a hangup completes the call, a rename renames it, and
/// the event joins its history.
pub open spec fn call_step(v: TrackerView, i: int, max_events: nat, ev: EventView, hangup: Option<(u32, Seq<char>)>, rename: Option<Seq<char>>, now: u64) -> (TrackerView, Option<CompletedView>) {
    let c = v.calls[i];
    let c1 = match rename {
        Some(n) => CallView { channel: n, ..c },
        None => c,
    };
    let truncated = if truncates(c, max_events) { bump(v.truncated) } else { v.truncated };
    match hangup {
        Some((cause, cause_txt)) => (
            TrackerView { calls: v.calls.remove(i), truncated, ..v },
            Some(CompletedView { call: with_event(c1, ev, max_events), end: now, duration: elapsed(c.start, now), cause, cause_txt }),
        ),
        None => (TrackerView { calls: v.calls.update(i, with_event(c1, ev, max_events)), truncated, ..v }, None),
    }
}

/// The state after an event, and the call it completes, if any.
pub open spec fn track_step(v: TrackerView, max_calls: nat, max_events: nat, e: AmiEvent, now: u64) -> (TrackerView, Option<CompletedView>) {
    match start_info(e) {
        Some((channel, uid, linked)) => (start_step(v, max_calls, channel, uid, linked, e@, now), None),
        None => match unique_id_spec(e) {
            None => (v, None),
            Some(uid) => match id_index(call_ids(v.calls), uid) {
                None => (v, None),
                Some(i) => call_step(v, i, max_events, e@, hangup_info(e), rename_info(e), now),
            },
        },
    }
}

/// The channel, unique id and linked id of a `Newchannel` event.
fn start_info_of(e: &AmiEvent) -> (r: Option<(String, String, String)>)
    ensures
        match start_info(*e) {
            Some((c, u, l)) => r matches Some((c2, u2, l2)) && c2@ == c && u2@ == u && l2@ == l,
            None => r is None,
        },
{
    match e {
        AmiEvent::NewChannel { channel, unique_id, linked_id, .. } => Some((channel.clone(), unique_id.clone(), linked_id.clone())),
        _ => None,
    }
}

/// The cause and cause text of a `Hangup` event.
fn hangup_info_of(e: &AmiEvent) -> (r: Option<(u32, String)>)
    ensures
        match hangup_info(*e) {
            Some((c, t)) => r matches Some((c2, t2)) && c2 == c && t2@ == t,
            None => r is None,
        },
{
    match e {
        AmiEvent::Hangup { cause, cause_txt, .. } => Some((*cause, cause_txt.clone())),
        _ => None,
    }
}

/// The new channel name of a `Rename` event.
fn rename_info_of(e: &AmiEvent) -> (r: Option<String>)
    ensures
        match rename_info(*e) {
            Some(n) => r matches Some(n2) && n2@ == n,
            None => r is None,
        },
{
    match e {
        AmiEvent::Rename { new_name, .. } => Some(new_name.clone()),
        _ => None,
    }
}

/// Correlates AMI events by unique id into bounded completed-call records.
pub struct CallTracker {
    calls: Vec<ActiveCall>,
    max_active_calls: usize,
    max_events_per_call: usize,
    call_ttl_ms: u64,
    lagged_events: u64,
    truncated_events: u64,
    active_calls_evicted: u64,
    completed_calls_lost: u64,
    valid: bool,
}

impl View for CallTracker {
    type V = TrackerView;

    closed spec fn view(&self) -> TrackerView {
        TrackerView {
            calls: calls_view(self.calls@),
            lagged: self.lagged_events,
            truncated: self.truncated_events,
            evicted: self.active_calls_evicted,
            lost: self.completed_calls_lost,
            valid: self.valid,
        }
    }
}

impl CallTracker {
    /// The configured limits (after normalization).
    pub closed spec fn max_calls(&self) -> nat {
        self.max_active_calls as nat
    }

    /// The configured per-call history limit (after normalization).
    pub closed spec fn max_events(&self) -> nat {
        self.max_events_per_call as nat
    }

    /// The configured time to live (ms).
    pub closed spec fn ttl(&self) -> u64 {
        self.call_ttl_ms
    }

    /// Unique ids are unique, the limits are at least one, and the number of
    /// calls stays within its limit.
    pub closed spec fn wf(&self) -> bool {
        &&& distinct_ids(call_ids(self@.calls))
        &&& self.max_active_calls >= 1
        &&& self.max_events_per_call >= 1
        &&& self@.calls.len() <= self.max_active_calls
    }

    /// A tracker with the given limits (normalized).
    pub fn with_config(config: CallTrackerConfig) -> (r: Self)
        ensures
            r.wf(),
            r@.calls.len() == 0,
            r@.lagged == 0 && r@.truncated == 0 && r@.evicted == 0 && r@.lost == 0,
            r@.valid,
            r.max_calls() == (if config.max_active_calls < 1 { 1 } else { config.max_active_calls }),
            r.max_events() == (if config.max_events_per_call < 1 { 1 } else { config.max_events_per_call }),
            r.ttl() == config.call_ttl_ms,
    {
        let config = config.normalized();
        let r = CallTracker {
            calls: Vec::new(),
            max_active_calls: config.max_active_calls,
            max_events_per_call: config.max_events_per_call,
            call_ttl_ms: config.call_ttl_ms,
            lagged_events: 0,
            truncated_events: 0,
            active_calls_evicted: 0,
            completed_calls_lost: 0,
            valid: true,
        };
        assert(r@.calls =~= Seq::<CallView>::empty());
        r
    }

    /// A tracker with the default limits.
    pub fn new() -> (r: Self)
        ensures
            r.wf(),
            r@.calls.len() == 0,
            r@.valid,
            r.max_calls() == 4096,
            r.max_events() == 256,
            r.ttl() == 3600000,
    {
        Self::with_config(CallTrackerConfig::default())
    }

    /// Current tracker state and cumulative loss counters.
    pub fn stats(&self) -> (r: CallTrackerStats)
        ensures
            r.active_calls == self@.calls.len(),
            r.lagged_events == self@.lagged,
            r.truncated_events == self@.truncated,
            r.active_calls_evicted == self@.evicted,
            r.completed_calls_lost == self@.lost,
            r.valid == self@.valid,
    {
        CallTrackerStats {
            active_calls: self.calls.len(),
            lagged_events: self.lagged_events,
            truncated_events: self.truncated_events,
            active_calls_evicted: self.active_calls_evicted,
            completed_calls_lost: self.completed_calls_lost,
            valid: self.valid,
        }
    }

    /// Completed calls lost in delivery.
    pub fn dropped_count(&self) -> (r: u64)
        ensures
            r == self@.lost,
    {
        self.completed_calls_lost
    }

    /// A completed call could not be delivered.
    pub fn record_lost(&mut self)
        requires
            old(self).wf(),
        ensures
            final(self).wf(),
            final(self)@ == (TrackerView { lost: bump(old(self)@.lost), ..old(self)@ }),
            final(self).max_calls() == old(self).max_calls(),
            final(self).max_events() == old(self).max_events(),
            final(self).ttl() == old(self).ttl(),
    {
        self.completed_calls_lost = self.completed_calls_lost.wrapping_add(1);
    }

    /// The event source lagged by `count` events: the state is no longer
    /// complete, so every call is dropped and the tracker is invalid.
    pub fn on_lagged(&mut self, count: u64)
        requires
            old(self).wf(),
        ensures
            final(self).wf(),
            final(self)@ == (TrackerView {
                calls: Seq::empty(),
                lagged: old(self)@.lagged.wrapping_add(count),
                valid: false,
                ..old(self)@
            }),
    {
        self.lagged_events = self.lagged_events.wrapping_add(count);
        self.stop();
    }

    /// The event source closed, or tracking was shut down: every call is
    /// dropped and the tracker is invalid.
    pub fn stop(&mut self)
        requires
            old(self).wf(),
        ensures
            final(self).wf(),
            final(self)@ == (TrackerView { calls: Seq::empty(), valid: false, ..old(self)@ }),
    {
        self.valid = false;
        self.calls = Vec::new();
        assert(self@.calls =~= Seq::<CallView>::empty());
    }

    /// Position of the call with `unique_id`.
    fn position(&self, unique_id: &str) -> (r: Option<usize>)
        requires
            self.wf(),
        ensures
            match r {
                Some(i) => id_index(call_ids(self@.calls), unique_id@) == Some(i as int) && i < self@.calls.len(),
                None => id_index(call_ids(self@.calls), unique_id@) is None,
            },
    {
        let ghost v = call_ids(self@.calls);
        let mut i: usize = 0;
        while i < self.calls.len()
            invariant
                v == call_ids(calls_view(self.calls@)),
                distinct_ids(v),
                v.len() == self.calls@.len(),
                0 <= i <= self.calls@.len(),
                forall|j: int| 0 <= j < i ==> v[j] != unique_id@,
            decreases self.calls@.len() - i,
        {
            if str_eq(self.calls[i].unique_id.as_str(), unique_id) {
                proof {
                    lemma_id_index_unique(v, unique_id@, i as int);
                }
                return Some(i);
            }
            i = i + 1;
        }
        proof {
            lemma_id_index(v, unique_id@);
        }
        None
    }

    /// Position of the first call that started earliest.
    fn oldest_position(&self) -> (r: usize)
        requires
            self@.calls.len() > 0,
        ensures
            r as int == oldest(self@.calls),
            r < self@.calls.len(),
    {
        let ghost c = self@.calls;
        let mut best: usize = 0;
        let mut i: usize = 1;
        while i < self.calls.len()
            invariant
                c == calls_view(self.calls@),
                1 <= i <= self.calls@.len(),
                best < i,
                best as int == oldest(c.subrange(0, i as int)),
            decreases self.calls@.len() - i,
        {
            assert(c.subrange(0, i + 1).drop_last() =~= c.subrange(0, i as int));
            if self.calls[i].start_time < self.calls[best].start_time {
                best = i;
            }
            i = i + 1;
        }
        assert(c.subrange(0, c.len() as int) =~= c);
        best
    }
}

/// Adds an event to a call's history, or counts it as truncated when the
/// history is full; whether it was truncated.
fn append_event(call: &mut ActiveCall, event: AmiEvent, max: usize) -> (t: bool)
    ensures
        final(call)@ == with_event(old(call)@, event@, max as nat),
        t == truncates(old(call)@, max as nat),
{
    if call.events.len() < max {
        let ghost before = call.events@;
        call.events.push(event);
        assert(events_view(call.events@) =~= events_view(before).push(event@));
        false
    } else {
        call.events_truncated = call.events_truncated.saturating_add(1);
        true
    }
}

impl CallTracker {
    /// Starts tracking a call.
    fn start_call(&mut self, channel: String, unique_id: String, linked_id: String, event: AmiEvent, now: u64)
        requires
            old(self).wf(),
        ensures
            final(self).wf(),
            final(self)@ == start_step(old(self)@, old(self).max_calls(), channel@, unique_id@, linked_id@, event@, now),
            final(self).max_calls() == old(self).max_calls(),
            final(self).max_events() == old(self).max_events(),
            final(self).ttl() == old(self).ttl(),
    {
        let ghost v = self@;
        let ghost uid = unique_id@;
        let pos = self.position(unique_id.as_str());
        let full = pos.is_none() && self.calls.len() >= self.max_active_calls && self.calls.len() > 0;
        if full {
            let k = self.oldest_position();
            proof {
                lemma_distinct_remove(call_ids(v.calls), k as int);
                lemma_id_index(call_ids(v.calls), uid);
            }
            self.calls.remove(k);
            self.active_calls_evicted = self.active_calls_evicted.wrapping_add(1);
            assert(self@.calls =~= v.calls.remove(k as int));
            assert(call_ids(self@.calls) =~= call_ids(v.calls).remove(k as int));
            proof {
                assert forall|j: int| 0 <= j < self@.calls.len() implies call_ids(self@.calls)[j] != uid by {
                    let j2 = if j < k { j } else { j + 1 };
                    assert(call_ids(self@.calls)[j] == call_ids(v.calls)[j2]);
                }
                lemma_id_index(call_ids(self@.calls), uid);
                if let Some(q) = id_index(call_ids(self@.calls), uid) {
                    assert(call_ids(self@.calls)[q] == uid);
                }
            }
        }
        let ghost mid = self@;
        let ghost fresh_v = CallView { channel: channel@, unique_id: uid, linked_id: linked_id@, start: now, events: seq![event@], truncated: 0 };
        let events = vec![event];
        assert(events_view(events@) =~= seq![event@]);
        let fresh = ActiveCall { channel, unique_id, linked_id, start_time: now, events, events_truncated: 0 };
        match pos {
            Some(i) => {
                proof {
                    lemma_id_index(call_ids(mid.calls), uid);
                }
                self.calls.set(i, fresh);
                assert(self@.calls =~= mid.calls.update(i as int, fresh_v));
                assert forall|j: int| 0 <= j < self@.calls.len() implies call_ids(self@.calls)[j] == call_ids(mid.calls)[j] by {
                    if j == i {
                        assert(call_ids(mid.calls)[j] == uid);
                    }
                }
                assert(call_ids(self@.calls) =~= call_ids(mid.calls));
            },
            None => {
                proof {
                    lemma_distinct_push(call_ids(mid.calls), uid);
                }
                self.calls.push(fresh);
                assert(self@.calls =~= mid.calls.push(fresh_v));
                assert(call_ids(self@.calls) =~= call_ids(mid.calls).push(uid));
            },
        }
    }

    /// Applies an event to the call at `i`.
    fn continue_call(
        &mut self,
        i: usize,
        event: AmiEvent,
        hangup: Option<(u32, String)>,
        rename: Option<String>,
        now: u64,
    ) -> (r: Option<CompletedCall>)
        requires
            old(self).wf(),
            i < old(self)@.calls.len(),
        ensures
            final(self).wf(),
            final(self)@ == call_step(
                old(self)@,
                i as int,
                old(self).max_events(),
                event@,
                match hangup {
                    Some((c, t)) => Some((c, t@)),
                    None => None,
                },
                match rename {
                    Some(n) => Some(n@),
                    None => None,
                },
                now,
            ).0,
            match call_step(
                old(self)@,
                i as int,
                old(self).max_events(),
                event@,
                match hangup {
                    Some((c, t)) => Some((c, t@)),
                    None => None,
                },
                match rename {
                    Some(n) => Some(n@),
                    None => None,
                },
                now,
            ).1 {
                Some(cv) => r matches Some(c) && c@ == cv,
                None => r is None,
            },
            final(self).max_calls() == old(self).max_calls(),
            final(self).max_events() == old(self).max_events(),
            final(self).ttl() == old(self).ttl(),
    {
        let ghost v = self@;
        proof {
            lemma_distinct_remove(call_ids(v.calls), i as int);
        }
        let mut call = self.calls.remove(i);
        match rename {
            Some(n) => {
                call.channel = n;
            },
            None => {},
        }
        let t = append_event(&mut call, event, self.max_events_per_call);
        if t {
            self.truncated_events = self.truncated_events.wrapping_add(1);
        }
        match hangup {
            Some((cause, cause_txt)) => {
                assert(self@.calls =~= v.calls.remove(i as int));
                assert(call_ids(self@.calls) =~= call_ids(v.calls).remove(i as int));
                let duration = if now >= call.start_time { now - call.start_time } else { 0 };
                Some(
                    CompletedCall {
                        channel: call.channel,
                        unique_id: call.unique_id,
                        linked_id: call.linked_id,
                        start_time: call.start_time,
                        end_time: now,
                        duration_ms: duration,
                        cause,
                        cause_txt,
                        events: call.events,
                        events_truncated: call.events_truncated,
                    },
                )
            },
            None => {
                let ghost cv = call@;
                self.calls.insert(i, call);
                assert(self@.calls =~= v.calls.update(i as int, cv));
                assert(call_ids(self@.calls) =~= call_ids(v.calls));
                None
            },
        }
    }

    /// Takes in one event; returns the call it completes, if any.
    #[verifier::rlimit(60)]
    pub fn handle_event(&mut self, event: AmiEvent, now: u64) -> (r: Option<CompletedCall>)
        requires
            old(self).wf(),
        ensures
            final(self).wf(),
            final(self)@ == track_step(old(self)@, old(self).max_calls(), old(self).max_events(), event, now).0,
            match track_step(old(self)@, old(self).max_calls(), old(self).max_events(), event, now).1 {
                Some(cv) => r matches Some(c) && c@ == cv,
                None => r is None,
            },
            final(self).max_calls() == old(self).max_calls(),
            final(self).max_events() == old(self).max_events(),
            final(self).ttl() == old(self).ttl(),
    {
        match start_info_of(&event) {
            Some((channel, unique_id, linked_id)) => {
                self.start_call(channel, unique_id, linked_id, event, now);
                return None;
            },
            None => {},
        }
        let i = match event.unique_id() {
            Some(uid) => match self.position(uid) {
                Some(i) => i,
                None => return None,
            },
            None => return None,
        };
        let hangup = hangup_info_of(&event);
        let rename = rename_info_of(&event);
        self.continue_call(i, event, hangup, rename, now)
    }
}


/// Whether a call has outlived its time to live at `now`.
pub open spec fn is_stale(c: CallView, now: u64, ttl: u64) -> bool {
    elapsed(c.start, now) > ttl
}

/// The calls that have not outlived their time to live, in order.
pub open spec fn live_calls(c: Seq<CallView>, now: u64, ttl: u64) -> Seq<CallView>
    decreases c.len(),
{
    if c.len() == 0 {
        c
    } else if is_stale(c.last(), now, ttl) {
        live_calls(c.drop_last(), now, ttl)
    } else {
        live_calls(c.drop_last(), now, ttl).push(c.last())
    }
}

/// The completed records of the calls evicted at `now`, in order.
pub open spec fn stale_calls(c: Seq<CallView>, now: u64, ttl: u64) -> Seq<CompletedView>
    decreases c.len(),
{
    if c.len() == 0 {
        Seq::empty()
    } else if is_stale(c.last(), now, ttl) {
        stale_calls(c.drop_last(), now, ttl).push(
            CompletedView {
                call: c.last(),
                end: now,
                duration: elapsed(c.last().start, now),
                cause: 0,
                cause_txt: "ttl eviction: no hangup received"@,
            },
        )
    } else {
        stale_calls(c.drop_last(), now, ttl)
    }
}

/// A counter after `n` more counts (it wraps at the top).
pub open spec fn bump_by(c: u64, n: nat) -> u64
    decreases n,
{
    if n == 0 {
        c
    } else {
        bump(bump_by(c, (n - 1) as nat))
    }
}

/// Keeping calls by a test keeps unique ids unique.
proof fn lemma_kept_calls_distinct(ids: Seq<Seq<char>>, kept: Seq<Seq<char>>, x: Seq<char>)
    requires
        distinct_ids(kept),
        forall|j: int| 0 <= j < kept.len() ==> ids.contains(#[trigger] kept[j]),
        !ids.contains(x),
    ensures
        distinct_ids(kept.push(x)),
{
    let r = kept.push(x);
    assert forall|a: int, b: int| 0 <= a < b < r.len() implies r[a] != r[b] by {
        if b == kept.len() {
            assert(ids.contains(kept[a]));
        } else {
            assert(r[a] == kept[a] && r[b] == kept[b]);
        }
    }
}

/// The calls that survive keep fewer entries than they started with.
proof fn lemma_live_len(c: Seq<CallView>, now: u64, ttl: u64)
    ensures
        live_calls(c, now, ttl).len() <= c.len(),
    decreases c.len(),
{
    if c.len() > 0 {
        lemma_live_len(c.drop_last(), now, ttl);
    }
}

impl CallTracker {
    /// Evicts every call that has outlived its time to live at `now`;
    /// returns their completed records (cause 0, in order).
    pub fn evict_stale(&mut self, now: u64) -> (r: Vec<CompletedCall>)
        requires
            old(self).wf(),
        ensures
            final(self).wf(),
            final(self)@ == (TrackerView {
                calls: live_calls(old(self)@.calls, now, old(self).ttl()),
                evicted: bump_by(old(self)@.evicted, stale_calls(old(self)@.calls, now, old(self).ttl()).len()),
                ..old(self)@
            }),
            completed_view(r@) == stale_calls(old(self)@.calls, now, old(self).ttl()),
            final(self).max_calls() == old(self).max_calls(),
            final(self).max_events() == old(self).max_events(),
            final(self).ttl() == old(self).ttl(),
    {
        let ttl = self.call_ttl_ms;
        let mut calls = Vec::new();
        std::mem::swap(&mut calls, &mut self.calls);
        let ghost oc = calls_view(calls@);
        assert(oc == old(self)@.calls);
        let ghost ev0 = self.active_calls_evicted;
        let mut evicted = self.active_calls_evicted;
        let mut kept: Vec<ActiveCall> = Vec::new();
        let mut out: Vec<CompletedCall> = Vec::new();
        let mut k: usize = 0;
        let n = calls.len();
        while calls.len() > 0
            invariant
                oc.len() == n,
                calls_view(calls@) == oc.subrange(k as int, oc.len() as int),
                distinct_ids(call_ids(oc)),
                0 <= k <= oc.len(),
                calls_view(kept@) == live_calls(oc.subrange(0, k as int), now, ttl),
                distinct_ids(call_ids(calls_view(kept@))),
                forall|j: int| 0 <= j < kept@.len() ==> call_ids(oc.subrange(0, k as int)).contains(
                    #[trigger] call_ids(calls_view(kept@))[j],
                ),
                completed_view(out@) == stale_calls(oc.subrange(0, k as int), now, ttl),
                evicted == bump_by(ev0, out@.len() as nat),
            decreases calls@.len(),
        {
            assert(calls_view(calls@).len() == calls@.len());
            assert(k < oc.len());
            let ghost pre = oc.subrange(0, k as int);
            let ghost cur = oc.subrange(0, k + 1);
            assert(cur.drop_last() =~= pre);
            let ghost before = calls@;
            assert(calls_view(calls@)[0] == oc[k as int]);
            let c = calls.remove(0);
            let ghost cv = oc[k as int];
            assert(c@ == cv);
            assert(cur.last() == cv);
            assert forall|j: int| 0 <= j < calls@.len() implies #[trigger] calls_view(calls@)[j] == oc.subrange(k + 1, oc.len() as int)[j] by {
                assert(calls@[j] == before[j + 1]);
                assert(calls_view(before)[j + 1] == oc[k + 1 + j]);
            }
            assert(calls_view(calls@) =~= oc.subrange(k + 1, oc.len() as int));
            let stale = if now >= c.start_time { now - c.start_time > ttl } else { 0 > ttl };
            if stale {
                let duration = if now >= c.start_time { now - c.start_time } else { 0 };
                let ghost before_out = out@;
                let done = CompletedCall {
                    channel: c.channel,
                    unique_id: c.unique_id,
                    linked_id: c.linked_id,
                    start_time: c.start_time,
                    end_time: now,
                    duration_ms: duration,
                    cause: 0,
                    cause_txt: "ttl eviction: no hangup received".to_owned(),
                    events: c.events,
                    events_truncated: c.events_truncated,
                };
                out.push(done);
                evicted = evicted.wrapping_add(1);
                assert(completed_view(out@) =~= completed_view(before_out).push(
                    done@,
                ));
            } else {
                let ghost kept_ids = call_ids(calls_view(kept@));
                proof {
                    assert(!call_ids(pre).contains(cv.unique_id)) by {
                        if call_ids(pre).contains(cv.unique_id) {
                            let j = choose|j: int| 0 <= j < call_ids(pre).len() && call_ids(pre)[j] == cv.unique_id;
                            assert(call_ids(oc)[j] == call_ids(oc)[k as int]);
                        }
                    }
                    lemma_kept_calls_distinct(call_ids(pre), kept_ids, cv.unique_id);
                }
                let ghost before_kept = kept@;
                kept.push(c);
                assert(calls_view(kept@) =~= calls_view(before_kept).push(cv));
                assert(call_ids(calls_view(kept@)) =~= kept_ids.push(cv.unique_id));
            }
            assert forall|j: int| 0 <= j < kept@.len() implies call_ids(cur).contains(
                #[trigger] call_ids(calls_view(kept@))[j],
            ) by {
                let x = call_ids(calls_view(kept@))[j];
                if j < kept@.len() - 1 || stale {
                    assert(call_ids(pre).contains(x));
                    let q = choose|q: int| 0 <= q < call_ids(pre).len() && call_ids(pre)[q] == x;
                    assert(call_ids(cur)[q] == x);
                } else {
                    assert(call_ids(cur)[k as int] == x);
                }
            }
            k = k + 1;
        }
        assert(calls_view(calls@).len() == calls@.len());
        assert(k == n);
        assert(oc.subrange(0, oc.len() as int) =~= oc);
        proof {
            lemma_live_len(oc, now, ttl);
        }
        assert(completed_view(out@).len() == out@.len());
        self.calls = kept;
        self.active_calls_evicted = evicted;
        assert(self@.calls == live_calls(oc, now, ttl));
        out
    }
}


/// The oldest call is one of the calls.
proof fn lemma_oldest_bound(c: Seq<CallView>)
    requires
        c.len() > 0,
    ensures
        0 <= oldest(c) < c.len(),
    decreases c.len(),
{
    if c.len() > 1 {
        lemma_oldest_bound(c.drop_last());
    }
}

/// After a call starts, its unique id finds the new record, and unique ids
/// stay unique.
proof fn lemma_start_step_places(
    v: TrackerView,
    max_calls: nat,
    channel: Seq<char>,
    uid: Seq<char>,
    linked: Seq<char>,
    ev: EventView,
    now: u64,
)
    requires
        distinct_ids(call_ids(v.calls)),
    ensures
        ({
            let v1 = start_step(v, max_calls, channel, uid, linked, ev, now);
            &&& distinct_ids(call_ids(v1.calls))
            &&& id_index(call_ids(v1.calls), uid) matches Some(i) && 0 <= i < v1.calls.len() && v1.calls[i]
                == (CallView { channel, unique_id: uid, linked_id: linked, start: now, events: seq![ev], truncated: 0 })
        }),
{
    let fresh = CallView { channel, unique_id: uid, linked_id: linked, start: now, events: seq![ev], truncated: 0 };
    let ids = call_ids(v.calls);
    lemma_id_index(ids, uid);
    let full = id_index(ids, uid) is None && v.calls.len() >= max_calls && v.calls.len() > 0;
    let calls1 = if full { v.calls.remove(oldest(v.calls)) } else { v.calls };
    if full {
        let k = oldest(v.calls);
        lemma_oldest_bound(v.calls);
        lemma_distinct_remove(ids, k);
        assert(call_ids(calls1) =~= ids.remove(k));
        assert forall|j: int| 0 <= j < calls1.len() implies call_ids(calls1)[j] != uid by {
            let j2 = if j < k { j } else { j + 1 };
            assert(call_ids(calls1)[j] == ids[j2]);
        }
    }
    let ids1 = call_ids(calls1);
    lemma_id_index(ids1, uid);
    match id_index(ids1, uid) {
        Some(i) => {
            let c2 = calls1.update(i, fresh);
            assert(call_ids(c2) =~= ids1);
            lemma_id_index_unique(call_ids(c2), uid, i);
        },
        None => {
            lemma_distinct_push(ids1, uid);
            let c2 = calls1.push(fresh);
            assert(call_ids(c2) =~= ids1.push(uid));
            lemma_id_index_unique(call_ids(c2), uid, calls1.len() as int);
        },
    }
}

/// A call begins with its `Newchannel` event and ends with the `Hangup` of
/// the same unique id. The completed record carries the channel, unique id
/// and linked id of the start, the start time, both events in its history
/// (as far as the history limit allows), the hangup's time, cause and cause
/// text, and the time between the two events as its duration; the call is
/// tracked no more.
pub proof fn lemma_start_then_hangup_completes(
    v: TrackerView,
    max_calls: nat,
    max_events: nat,
    start: AmiEvent,
    t1: u64,
    hangup: AmiEvent,
    t2: u64,
)
    requires
        distinct_ids(call_ids(v.calls)),
        start_info(start) is Some,
        hangup_info(hangup) is Some,
        unique_id_spec(hangup) == Some((start_info(start)->0).1),
    ensures
        ({
            let (channel, uid, linked) = start_info(start)->0;
            let (cause, cause_txt) = hangup_info(hangup)->0;
            let begun = CallView { channel, unique_id: uid, linked_id: linked, start: t1, events: seq![start@], truncated: 0 };
            let v1 = track_step(v, max_calls, max_events, start, t1).0;
            let (v2, done) = track_step(v1, max_calls, max_events, hangup, t2);
            &&& done == Some(CompletedView {
                call: with_event(begun, hangup@, max_events),
                end: t2,
                duration: elapsed(t1, t2),
                cause,
                cause_txt,
            })
            &&& id_index(call_ids(v2.calls), uid) is None
        }),
{
    let (channel, uid, linked) = start_info(start)->0;
    lemma_start_step_places(v, max_calls, channel, uid, linked, start@, t1);
    let v1 = start_step(v, max_calls, channel, uid, linked, start@, t1);
    assert(start_info(hangup) is None);
    assert(rename_info(hangup) is None);
    let i = id_index(call_ids(v1.calls), uid)->0;
    let v2 = call_step(v1, i, max_events, hangup@, hangup_info(hangup), rename_info(hangup), t2).0;
    lemma_distinct_remove(call_ids(v1.calls), i);
    assert(call_ids(v2.calls) =~= call_ids(v1.calls).remove(i));
    assert forall|j: int| 0 <= j < v2.calls.len() implies call_ids(v2.calls)[j] != uid by {
        let j2 = if j < i { j } else { j + 1 };
        assert(call_ids(v2.calls)[j] == call_ids(v1.calls)[j2]);
        if j2 != i {
            assert(call_ids(v1.calls)[i] == uid);
        }
    }
    lemma_id_index(call_ids(v2.calls), uid);
}

} // verus!
