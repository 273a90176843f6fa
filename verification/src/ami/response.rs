//! AMI responses and the correlation of responses and event lists with the
//! actions that asked for them.
use vstd::prelude::*;
use crate::ami::codec::{
    RawAmiMessage, RawView, pairs_view, strings_view, hget, vget, to_map_spec, pairs_bytes,
    strings_bytes, min_usize, find_header, find_variable, pairs_size, strings_size,
};
use crate::ami::error::AmiError;
use crate::ami::event::{AmiEvent, EventView, EventKind, Values, FieldValue, clone_pairs, view_list_complete, value_at};
use crate::text::{eq_ic_chars, str_eq, str_eq_ignore_case};

verus! {

/// Abstract content of a response.
#[verifier::ext_equal]
pub struct ResponseView {
    pub action_id: Seq<char>,
    pub success: bool,
    pub response_type: Seq<char>,
    pub message: Option<Seq<char>>,
    pub headers: Seq<(Seq<char>, Seq<char>)>,
    pub output: Seq<Seq<char>>,
    pub variables: Seq<(Seq<char>, Seq<char>)>,
}

/// parsed AMI response
pub struct AmiResponse {
    /// the ActionID this response corresponds to
    pub action_id: String,
    /// whether the action succeeded
    pub success: bool,
    /// the Response header value ("Success", "Error", "Follows")
    pub response_type: String,
    /// the Message header, if present
    pub message: Option<String>,
    /// all headers as a map (last value wins for a repeated key)
    pub headers: Vec<(String, String)>,
    /// command output lines (populated for Response: Follows)
    pub output: Vec<String>,
    /// channel variables extracted from ChanVariable(name) headers
    pub channel_variables: Vec<(String, String)>,
}

/// An optional string as an optional character string.
pub open spec fn opt_view(s: Option<String>) -> Option<Seq<char>> {
    match s {
        Some(t) => Some(t@),
        None => None,
    }
}

impl View for AmiResponse {
    type V = ResponseView;

    open spec fn view(&self) -> ResponseView {
        ResponseView {
            action_id: self.action_id@,
            success: self.success,
            response_type: self.response_type@,
            message: opt_view(self.message),
            headers: pairs_view(self.headers@),
            output: strings_view(self.output@),
            variables: pairs_view(self.channel_variables@),
        }
    }
}

/// Whether a `Response` value reports success (`Success` or `Follows`, in
/// any ASCII case).
pub open spec fn is_success_type(t: Seq<char>) -> bool {
    eq_ic_chars(t, "success"@) || eq_ic_chars(t, "follows"@)
}

/// The response a message carries: none for an event (a message with an
/// `Event` header, even one that also has `Response`) or a message without
/// `Response`.
pub open spec fn response_spec(raw: RawView) -> Option<ResponseView> {
    if hget(raw.headers, "Event"@) is Some {
        None
    } else {
        match hget(raw.headers, "Response"@) {
            None => None,
            Some(t) => Some(
                ResponseView {
                    action_id: match hget(raw.headers, "ActionID"@) {
                        Some(a) => a,
                        None => Seq::empty(),
                    },
                    success: is_success_type(t),
                    response_type: t,
                    message: hget(raw.headers, "Message"@),
                    headers: to_map_spec(raw.headers),
                    output: raw.output,
                    variables: raw.variables,
                },
            ),
        }
    }
}

/// A copy of a list of strings.
pub fn clone_strings(v: &Vec<String>) -> (r: Vec<String>)
    ensures
        strings_view(r@) == strings_view(v@),
{
    let mut out: Vec<String> = Vec::new();
    let mut i: usize = 0;
    while i < v.len()
        invariant
            0 <= i <= v@.len(),
            strings_view(out@) == strings_view(v@.subrange(0, i as int)),
        decreases v@.len() - i,
    {
        let t = &v[i];
        out.push(t.clone());
        proof {
            assert(v@.subrange(0, i + 1) =~= v@.subrange(0, i as int).push(v@[i as int]));
            assert(strings_view(v@.subrange(0, i + 1)) =~= strings_view(v@.subrange(0, i as int)).push(v@[i as int]@));
            assert(strings_view(out@) =~= strings_view(v@.subrange(0, i + 1)));
        }
        i = i + 1;
    }
    assert(v@.subrange(0, v@.len() as int) =~= v@);
    out
}

impl AmiResponse {
    /// Parses a response from a raw AMI message; `None` for messages that
    /// are not responses (events included).
    pub fn from_raw(raw: &RawAmiMessage) -> (r: Option<AmiResponse>)
        ensures
            match r {
                Some(resp) => response_spec(raw@) == Some(resp@),
                None => response_spec(raw@) is None,
            },
    {
        if raw.get("Event").is_some() {
            return None;
        }
        let response_type = match raw.get("Response") {
            Some(t) => t.to_owned(),
            None => return None,
        };
        let action_id = match raw.get("ActionID") {
            Some(a) => a.to_owned(),
            None => String::new(),
        };
        let success = str_eq_ignore_case(response_type.as_str(), "success")
            || str_eq_ignore_case(response_type.as_str(), "follows");
        let message = match raw.get("Message") {
            Some(m) => Some(m.to_owned()),
            None => None,
        };
        let headers = raw.to_map();
        let resp = AmiResponse {
            action_id,
            success,
            response_type,
            message,
            headers,
            output: clone_strings(&raw.output),
            channel_variables: clone_pairs(&raw.channel_variables),
        };
        assert(resp@.action_id =~= response_spec(raw@).unwrap().action_id);
        Some(resp)
    }

    /// A header value (key matched up to ASCII case).
    pub fn get(&self, key: &str) -> (r: Option<&str>)
        ensures
            match r {
                Some(v) => hget(self@.headers, key@) == Some(v@),
                None => hget(self@.headers, key@) is None,
            },
    {
        find_header(&self.headers, key)
    }

    /// A channel variable by its exact name.
    pub fn get_variable(&self, name: &str) -> (r: Option<&str>)
        ensures
            match r {
                Some(v) => vget(self@.variables, name@) == Some(v@),
                None => vget(self@.variables, name@) is None,
            },
    {
        find_variable(&self.channel_variables, name)
    }

    /// Bytes of text this response keeps: headers, output and variables,
    /// saturating at `usize::MAX`.
    pub fn retained_size(&self) -> (r: usize)
        ensures
            r == min_usize((pairs_bytes(self@.headers) + strings_bytes(self@.output) + pairs_bytes(self@.variables)) as int),
    {
        let a = pairs_size(&self.headers);
        let b = strings_size(&self.output);
        let c = pairs_size(&self.channel_variables);
        a.saturating_add(b).saturating_add(c)
    }
}

/// response from an event-generating action (e.g., Status, QueueStatus):
/// the initial response plus all events received until the completion
/// marker event
pub struct EventListResponse {
    /// the initial response to the action
    pub response: AmiResponse,
    /// events received as part of this action's result
    pub events: Vec<AmiEvent>,
}

/// maximum events allowed in a single event list before it is dropped
pub const MAX_EVENT_LIST_EVENTS: usize = 10000;

/// maximum retained payload across one event-generating action (4 MiB)
pub const MAX_EVENT_LIST_BYTES: usize = 4194304;

/// maximum event-generating actions awaiting completion on one connection
pub const MAX_IN_FLIGHT_EVENT_LISTS: usize = 16;

/// maximum retained payload across all event-generating actions on one connection (8 MiB)
pub const MAX_CONNECTION_EVENT_LIST_BYTES: usize = 8388608;

/// maximum actions awaiting responses on one AMI connection
pub const MAX_IN_FLIGHT_ACTIONS: usize = 256;

/// What an event does to the event list it belongs to.
#[derive(PartialEq, Eq, Structural, Clone, Copy, Debug)]
pub enum EventListTerminal {
    Continue,
    Complete,
    Cancelled,
}

/// Whether any header says `EventList: Cancelled` (both ASCII case-insensitive).
pub open spec fn has_list_cancelled_header(h: Seq<(Seq<char>, Seq<char>)>) -> bool {
    exists|i: int| 0 <= i < h.len() && eq_ic_chars(#[trigger] h[i].0, "EventList"@) && eq_ic_chars(h[i].1, "Cancelled"@)
}

/// The effect of an event on its list: a completion marker completes it, an
/// unparsed event marked `EventList: Cancelled` cancels it.
pub open spec fn terminal_spec(v: EventView) -> EventListTerminal {
    if view_list_complete(v) {
        EventListTerminal::Complete
    } else if v.kind == EventKind::Unknown && (value_at(v.values, 1) matches Some(FieldValue::Pairs(h))
        && has_list_cancelled_header(h)) {
        EventListTerminal::Cancelled
    } else {
        EventListTerminal::Continue
    }
}

/// The events that end a list: an event of any of the kinds `StatusComplete`,
/// `CoreShowChannelsComplete`, `CoreShowChannelMapComplete`,
/// `AgentsComplete`, `BridgeInfoComplete`, `DeviceStateListComplete`,
/// `ExtensionStateListComplete`, `PresenceStateListComplete`,
/// `AorListComplete`, `AuthListComplete`, `ContactListComplete`,
/// `EndpointDetailComplete`, `EndpointListComplete`, `MWIGetComplete` and
/// `FAXSessionsComplete` completes its list, and a parsed event of any other
/// kind neither completes nor cancels one.
pub proof fn lemma_list_terminators(v: EventView)
    ensures
        (v.kind == EventKind::StatusComplete || v.kind == EventKind::CoreShowChannelsComplete
            || v.kind == EventKind::CoreShowChannelMapComplete || v.kind == EventKind::AgentsComplete
            || v.kind == EventKind::BridgeInfoComplete || v.kind == EventKind::DeviceStateListComplete
            || v.kind == EventKind::ExtensionStateListComplete || v.kind == EventKind::PresenceStateListComplete
            || v.kind == EventKind::AorListComplete || v.kind == EventKind::AuthListComplete
            || v.kind == EventKind::ContactListComplete || v.kind == EventKind::EndpointDetailComplete
            || v.kind == EventKind::EndpointListComplete || v.kind == EventKind::MWIGetComplete
            || v.kind == EventKind::FAXSessionsComplete) ==> view_list_complete(v) && terminal_spec(v)
            == EventListTerminal::Complete,
        !(v.kind == EventKind::StatusComplete || v.kind == EventKind::CoreShowChannelsComplete
            || v.kind == EventKind::CoreShowChannelMapComplete || v.kind == EventKind::AgentsComplete
            || v.kind == EventKind::BridgeInfoComplete || v.kind == EventKind::DeviceStateListComplete
            || v.kind == EventKind::ExtensionStateListComplete || v.kind == EventKind::PresenceStateListComplete
            || v.kind == EventKind::AorListComplete || v.kind == EventKind::AuthListComplete
            || v.kind == EventKind::ContactListComplete || v.kind == EventKind::EndpointDetailComplete
            || v.kind == EventKind::EndpointListComplete || v.kind == EventKind::MWIGetComplete
            || v.kind == EventKind::FAXSessionsComplete || v.kind == EventKind::Malformed
            || v.kind == EventKind::Unknown) ==> !view_list_complete(v) && terminal_spec(v)
            == EventListTerminal::Continue,
{
}

/// Whether any header says `EventList: Cancelled`.
fn list_cancelled_header(headers: &Vec<(String, String)>) -> (r: bool)
    ensures
        r == has_list_cancelled_header(pairs_view(headers@)),
{
    let ghost h = pairs_view(headers@);
    let mut i: usize = 0;
    while i < headers.len()
        invariant
            h == pairs_view(headers@),
            0 <= i <= headers@.len(),
            forall|j: int| 0 <= j < i ==> !(eq_ic_chars(#[trigger] h[j].0, "EventList"@) && eq_ic_chars(h[j].1, "Cancelled"@)),
        decreases headers@.len() - i,
    {
        if str_eq_ignore_case(headers[i].0.as_str(), "EventList") && str_eq_ignore_case(headers[i].1.as_str(), "Cancelled") {
            assert(eq_ic_chars(h[i as int].0, "EventList"@) && eq_ic_chars(h[i as int].1, "Cancelled"@));
            return true;
        }
        i = i + 1;
    }
    false
}

/// The effect of an event on the event list it belongs to.
pub fn event_list_terminal(event: &AmiEvent) -> (r: EventListTerminal)
    ensures
        r == terminal_spec(event@),
{
    if event.is_event_list_complete() {
        return EventListTerminal::Complete;
    }
    let _k = event.kind();
    match event {
        AmiEvent::Unknown { headers, .. } => {
            proof {
                reveal_with_fuel(value_at, 2);
            }
            if list_cancelled_header(headers) {
                EventListTerminal::Cancelled
            } else {
                EventListTerminal::Continue
            }
        },
        _ => EventListTerminal::Continue,
    }
}


/// Position of `id` in a list of ids (the last one, should it occur twice).
pub open spec fn id_index(ids: Seq<Seq<char>>, id: Seq<char>) -> Option<int>
    decreases ids.len(),
{
    if ids.len() == 0 {
        None
    } else if ids.last() == id {
        Some(ids.len() - 1)
    } else {
        id_index(ids.drop_last(), id)
    }
}

/// No id occurs twice.
pub open spec fn distinct_ids(ids: Seq<Seq<char>>) -> bool {
    forall|i: int, j: int| 0 <= i < j < ids.len() ==> #[trigger] ids[i] != #[trigger] ids[j]
}

/// `id_index` finds a position holding `id`, and finds one whenever there is one.
pub proof fn lemma_id_index(ids: Seq<Seq<char>>, id: Seq<char>)
    ensures
        match id_index(ids, id) {
            Some(i) => 0 <= i < ids.len() && ids[i] == id,
            None => forall|j: int| 0 <= j < ids.len() ==> ids[j] != id,
        },
    decreases ids.len(),
{
    if ids.len() > 0 && ids.last() != id {
        lemma_id_index(ids.drop_last(), id);
        assert forall|j: int| 0 <= j < ids.len() - 1 implies ids[j] == ids.drop_last()[j] by {}
    }
}

/// In a list without repeats, the position of an id is its only position.
pub proof fn lemma_id_index_unique(ids: Seq<Seq<char>>, id: Seq<char>, k: int)
    requires
        distinct_ids(ids),
        0 <= k < ids.len(),
        ids[k] == id,
    ensures
        id_index(ids, id) == Some(k),
{
    lemma_id_index(ids, id);
    if let Some(i) = id_index(ids, id) {
        if i != k {
            if i < k {
                assert(ids[i] != ids[k]);
            } else {
                assert(ids[k] != ids[i]);
            }
        }
    }
}


/// An action awaiting its single response; `deadline` is set for requests
/// that the connection expires itself.
pub struct Waiter {
    pub action_id: String,
    pub deadline: Option<u64>,
}

/// An event-generating action awaiting completion.
pub struct PendingEventList {
    pub action_id: String,
    /// the initial response, once it arrived
    pub response: Option<AmiResponse>,
    /// events collected so far
    pub events: Vec<AmiEvent>,
    /// bytes reserved for this list
    pub retained_bytes: usize,
    /// set for requests that the connection expires itself
    pub deadline: Option<u64>,
}

/// Abstract content of a pending event list.
#[verifier::ext_equal]
pub struct ListView {
    pub id: Seq<char>,
    pub response: Option<ResponseView>,
    pub events: Seq<EventView>,
    pub retained: nat,
    pub deadline: Option<u64>,
}

/// An optional response as an optional response view.
pub open spec fn response_opt(r: Option<AmiResponse>) -> Option<ResponseView> {
    match r {
        Some(x) => Some(x@),
        None => None,
    }
}

/// A list of events as event views.
pub open spec fn events_view(v: Seq<AmiEvent>) -> Seq<EventView> {
    v.map_values(|e: AmiEvent| e@)
}

impl View for PendingEventList {
    type V = ListView;

    open spec fn view(&self) -> ListView {
        ListView {
            id: self.action_id@,
            response: response_opt(self.response),
            events: events_view(self.events@),
            retained: self.retained_bytes as nat,
            deadline: self.deadline,
        }
    }
}

/// Waiters as (action id, deadline) pairs.
pub open spec fn waiters_view(w: Seq<Waiter>) -> Seq<(Seq<char>, Option<u64>)> {
    w.map_values(|x: Waiter| (x.action_id@, x.deadline))
}

/// Pending event lists as views.
pub open spec fn lists_view(l: Seq<PendingEventList>) -> Seq<ListView> {
    l.map_values(|x: PendingEventList| x@)
}

/// The ids of the waiters.
pub open spec fn waiter_ids(w: Seq<(Seq<char>, Option<u64>)>) -> Seq<Seq<char>> {
    w.map_values(|p: (Seq<char>, Option<u64>)| p.0)
}

/// The ids of the event lists.
pub open spec fn list_ids(l: Seq<ListView>) -> Seq<Seq<char>> {
    l.map_values(|x: ListView| x.id)
}

/// Total bytes reserved by the event lists.
pub open spec fn sum_retained(l: Seq<ListView>) -> nat
    decreases l.len(),
{
    if l.len() == 0 {
        0
    } else {
        sum_retained(l.drop_last()) + l.last().retained
    }
}

/// Abstract content of the correlation state: who waits for a response,
/// which event lists are being collected, and the bytes they reserve.
#[verifier::ext_equal]
pub struct PendingView {
    pub waiting: Seq<(Seq<char>, Option<u64>)>,
    pub lists: Seq<ListView>,
    pub retained: nat,
}

/// A waiter registered under `id` (replacing one already there).
pub open spec fn set_waiter(w: Seq<(Seq<char>, Option<u64>)>, id: Seq<char>, d: Option<u64>) -> Seq<(Seq<char>, Option<u64>)> {
    match id_index(waiter_ids(w), id) {
        Some(i) => w.update(i, (id, d)),
        None => w.push((id, d)),
    }
}

/// The waiters without the one registered under `id`.
pub open spec fn drop_waiter(w: Seq<(Seq<char>, Option<u64>)>, id: Seq<char>) -> Seq<(Seq<char>, Option<u64>)> {
    match id_index(waiter_ids(w), id) {
        Some(i) => w.remove(i),
        None => w,
    }
}

/// The event lists without the one under `id`.
pub open spec fn drop_list(l: Seq<ListView>, id: Seq<char>) -> Seq<ListView> {
    match id_index(list_ids(l), id) {
        Some(i) => l.remove(i),
        None => l,
    }
}

/// The bytes reserved by the list under `id` (none when there is none).
pub open spec fn list_retained(l: Seq<ListView>, id: Seq<char>) -> nat {
    match id_index(list_ids(l), id) {
        Some(i) => l[i].retained,
        None => 0,
    }
}

/// A fresh, empty event list.
pub open spec fn fresh_list(id: Seq<char>, d: Option<u64>) -> ListView {
    ListView { id, response: None, events: Seq::empty(), retained: 0, deadline: d }
}

/// The state after the list under `id` was dropped.
pub open spec fn without_list(v: PendingView, id: Seq<char>) -> PendingView {
    PendingView {
        waiting: v.waiting,
        lists: drop_list(v.lists, id),
        retained: (v.retained - list_retained(v.lists, id)) as nat,
    }
}

/// Why reserving bytes for an event list fails.
pub enum ReserveFault {
    /// the list alone would exceed its own limit
    ListBytes,
    /// all lists together would exceed the connection's limit
    ConnectionBytes,
}

/// Whether (and why) adding `add` bytes to a list holding `held`, on a
/// connection holding `total`, is refused.
pub open spec fn reserve_fault(held: nat, total: nat, add: nat) -> Option<ReserveFault> {
    if held + add > MAX_EVENT_LIST_BYTES {
        Some(ReserveFault::ListBytes)
    } else if total + add > MAX_CONNECTION_EVENT_LIST_BYTES {
        Some(ReserveFault::ConnectionBytes)
    } else {
        None
    }
}

/// The error for a refused reservation.
pub open spec fn reserve_error_is(e: AmiError, f: ReserveFault, id: Seq<char>) -> bool {
    match f {
        ReserveFault::ListBytes => e matches AmiError::EventListByteLimitExceeded { action_id, limit }
            && action_id@ == id && limit == MAX_EVENT_LIST_BYTES,
        ReserveFault::ConnectionBytes => e matches AmiError::EventListConnectionByteLimitExceeded { action_id, limit }
            && action_id@ == id && limit == MAX_CONNECTION_EVENT_LIST_BYTES,
    }
}

/// What became of a response or event offered to the event lists.
pub enum ListOutcome {
    /// no event list is pending under the action id
    NotPending,
    /// the list took it (or, for a second response, ignored it) and goes on
    Consumed,
    /// the list is done and removed; its result goes to the caller
    Finished(EventListResponse),
    /// the list failed and is removed; the error goes to the caller
    Failed(AmiError),
}

/// pending action tracker: correlates ActionIDs with those waiting for a
/// response or an event list
pub struct PendingActions {
    waiting: Vec<Waiter>,
    lists: Vec<PendingEventList>,
    retained_event_list_bytes: usize,
}

impl View for PendingActions {
    type V = PendingView;

    closed spec fn view(&self) -> PendingView {
        PendingView {
            waiting: waiters_view(self.waiting@),
            lists: lists_view(self.lists@),
            retained: self.retained_event_list_bytes as nat,
        }
    }
}

/// The invariant of the correlation state: ids are unique, the connection
/// total is the sum of the lists' reservations, and every limit holds.
pub open spec fn pending_wf(v: PendingView) -> bool {
    &&& distinct_ids(waiter_ids(v.waiting))
    &&& distinct_ids(list_ids(v.lists))
    &&& v.retained == sum_retained(v.lists)
    &&& v.retained <= MAX_CONNECTION_EVENT_LIST_BYTES
    &&& forall|i: int| 0 <= i < v.lists.len() ==> (#[trigger] v.lists[i]).retained <= MAX_EVENT_LIST_BYTES
        && v.lists[i].events.len() <= MAX_EVENT_LIST_EVENTS
}


/// Adding an entry adds its reservation to the total.
pub proof fn lemma_sum_push(l: Seq<ListView>, x: ListView)
    ensures
        sum_retained(l.push(x)) == sum_retained(l) + x.retained,
{
    assert(l.push(x).drop_last() =~= l);
}

/// Removing an entry takes its reservation off the total.
pub proof fn lemma_sum_remove(l: Seq<ListView>, i: int)
    requires
        0 <= i < l.len(),
    ensures
        sum_retained(l.remove(i)) + l[i].retained == sum_retained(l),
    decreases l.len(),
{
    if i == l.len() - 1 {
        assert(l.remove(i) =~= l.drop_last());
    } else {
        lemma_sum_remove(l.drop_last(), i);
        assert(l.remove(i).drop_last() =~= l.drop_last().remove(i));
        assert(l.remove(i).last() == l.last());
    }
}

/// Replacing an entry swaps its reservation in the total.
pub proof fn lemma_sum_update(l: Seq<ListView>, i: int, x: ListView)
    requires
        0 <= i < l.len(),
    ensures
        sum_retained(l.update(i, x)) + l[i].retained == sum_retained(l) + x.retained,
{
    lemma_sum_remove(l, i);
    lemma_sum_remove(l.update(i, x), i);
    assert(l.update(i, x).remove(i) =~= l.remove(i));
}

/// One entry's reservation is part of the total.
pub proof fn lemma_sum_part(l: Seq<ListView>, i: int)
    requires
        0 <= i < l.len(),
    ensures
        l[i].retained <= sum_retained(l),
{
    lemma_sum_remove(l, i);
}

/// Ids stay unique when an entry is removed.
pub proof fn lemma_distinct_remove(ids: Seq<Seq<char>>, i: int)
    requires
        distinct_ids(ids),
        0 <= i < ids.len(),
    ensures
        distinct_ids(ids.remove(i)),
{
    let r = ids.remove(i);
    assert forall|a: int, b: int| 0 <= a < b < r.len() implies r[a] != r[b] by {
        let a2 = if a < i { a } else { a + 1 };
        let b2 = if b < i { b } else { b + 1 };
        assert(r[a] == ids[a2]);
        assert(r[b] == ids[b2]);
    }
}

/// Ids stay unique when a new one is added.
pub proof fn lemma_distinct_push(ids: Seq<Seq<char>>, id: Seq<char>)
    requires
        distinct_ids(ids),
        id_index(ids, id) is None,
    ensures
        distinct_ids(ids.push(id)),
{
    lemma_id_index(ids, id);
    let r = ids.push(id);
    assert forall|a: int, b: int| 0 <= a < b < r.len() implies r[a] != r[b] by {
        if b == ids.len() {
            assert(r[a] == ids[a]);
        } else {
            assert(r[a] == ids[a] && r[b] == ids[b]);
        }
    }
}

impl PendingActions {
    /// The invariant holds.
    pub open spec fn wf(&self) -> bool {
        pending_wf(self@)
    }

    /// An empty tracker.
    pub fn new() -> (r: Self)
        ensures
            r.wf(),
            r@.waiting.len() == 0,
            r@.lists.len() == 0,
            r@.retained == 0,
    {
        let r = PendingActions { waiting: Vec::new(), lists: Vec::new(), retained_event_list_bytes: 0 };
        assert(r@.lists =~= Seq::<ListView>::empty());
        r
    }

    /// Position of the waiter registered under `id`.
    fn waiter_position(&self, id: &str) -> (r: Option<usize>)
        requires
            self.wf(),
        ensures
            match r {
                Some(i) => id_index(waiter_ids(self@.waiting), id@) == Some(i as int),
                None => id_index(waiter_ids(self@.waiting), id@) is None,
            },
            match r {
                Some(i) => i < self@.waiting.len() && self@.waiting[i as int].0 == id@,
                None => true,
            },
    {
        let ghost v = waiter_ids(self@.waiting);
        let mut i: usize = 0;
        while i < self.waiting.len()
            invariant
                v == waiter_ids(waiters_view(self.waiting@)),
                distinct_ids(v),
                v.len() == self.waiting@.len(),
                0 <= i <= self.waiting@.len(),
                forall|j: int| 0 <= j < i ==> v[j] != id@,
            decreases self.waiting@.len() - i,
        {
            if str_eq(self.waiting[i].action_id.as_str(), id) {
                proof {
                    lemma_id_index_unique(v, id@, i as int);
                }
                return Some(i);
            }
            i = i + 1;
        }
        proof {
            lemma_id_index(v, id@);
        }
        None
    }

    /// Position of the event list under `id`.
    fn list_position(&self, id: &str) -> (r: Option<usize>)
        requires
            self.wf(),
        ensures
            match r {
                Some(i) => id_index(list_ids(self@.lists), id@) == Some(i as int),
                None => id_index(list_ids(self@.lists), id@) is None,
            },
            match r {
                Some(i) => i < self@.lists.len() && self@.lists[i as int].id == id@,
                None => true,
            },
    {
        let ghost v = list_ids(self@.lists);
        let mut i: usize = 0;
        while i < self.lists.len()
            invariant
                v == list_ids(lists_view(self.lists@)),
                distinct_ids(v),
                v.len() == self.lists@.len(),
                0 <= i <= self.lists@.len(),
                forall|j: int| 0 <= j < i ==> v[j] != id@,
            decreases self.lists@.len() - i,
        {
            if str_eq(self.lists[i].action_id.as_str(), id) {
                proof {
                    lemma_id_index_unique(v, id@, i as int);
                }
                return Some(i);
            }
            i = i + 1;
        }
        proof {
            lemma_id_index(v, id@);
        }
        None
    }

    /// Registers a waiter under `id` with an optional deadline.
    fn set_waiter(&mut self, action_id: String, deadline: Option<u64>)
        requires
            old(self).wf(),
        ensures
            final(self).wf(),
            final(self)@ == (PendingView {
                waiting: set_waiter(old(self)@.waiting, action_id@, deadline),
                ..old(self)@
            }),
    {
        let ghost id = action_id@;
        proof {
            lemma_id_index(waiter_ids(self@.waiting), id);
        }
        match self.waiter_position(action_id.as_str()) {
            Some(i) => {
                self.waiting.set(i, Waiter { action_id, deadline });
                assert(waiters_view(self.waiting@) =~= waiters_view(old(self).waiting@).update(i as int, (id, deadline)));
                assert forall|j: int| 0 <= j < self@.waiting.len() implies waiter_ids(self@.waiting)[j] == waiter_ids(old(self)@.waiting)[j] by {
                    if j == i {
                        assert(old(self)@.waiting[j].0 == id);
                    }
                }
                assert(waiter_ids(self@.waiting) =~= waiter_ids(old(self)@.waiting));
            },
            None => {
                self.waiting.push(Waiter { action_id, deadline });
                assert(waiters_view(self.waiting@) =~= waiters_view(old(self).waiting@).push((id, deadline)));
                assert(waiter_ids(self@.waiting) =~= waiter_ids(old(self)@.waiting).push(id));
                proof {
                    lemma_distinct_push(waiter_ids(old(self)@.waiting), id);
                }
            },
        }
    }

    /// Registers a pending action whose response a caller awaits.
    pub fn register(&mut self, action_id: String)
        requires
            old(self).wf(),
        ensures
            final(self).wf(),
            final(self)@ == (PendingView {
                waiting: set_waiter(old(self)@.waiting, action_id@, None),
                ..old(self)@
            }),
    {
        self.set_waiter(action_id, None)
    }

    /// Registers a pending action (the caller holds the channel it will be
    /// answered on).
    pub fn register_with_sender(&mut self, action_id: String)
        requires
            old(self).wf(),
        ensures
            final(self).wf(),
            final(self)@ == (PendingView {
                waiting: set_waiter(old(self)@.waiting, action_id@, None),
                ..old(self)@
            }),
    {
        self.set_waiter(action_id, None)
    }

    /// Registers a pending action that expires at `deadline`.
    pub fn register_managed(&mut self, action_id: String, deadline: u64)
        requires
            old(self).wf(),
        ensures
            final(self).wf(),
            final(self)@ == (PendingView {
                waiting: set_waiter(old(self)@.waiting, action_id@, Some(deadline)),
                ..old(self)@
            }),
    {
        self.set_waiter(action_id, Some(deadline))
    }

    /// Takes the waiter for `id` away; whether there was one.
    pub fn remove_waiter(&mut self, action_id: &str) -> (r: bool)
        requires
            old(self).wf(),
        ensures
            final(self).wf(),
            r == (id_index(waiter_ids(old(self)@.waiting), action_id@) is Some),
            final(self)@ == (PendingView {
                waiting: drop_waiter(old(self)@.waiting, action_id@),
                ..old(self)@
            }),
    {
        match self.waiter_position(action_id) {
            Some(i) => {
                self.waiting.remove(i);
                assert(waiters_view(self.waiting@) =~= waiters_view(old(self).waiting@).remove(i as int));
                assert(waiter_ids(self@.waiting) =~= waiter_ids(old(self)@.waiting).remove(i as int));
                proof {
                    lemma_distinct_remove(waiter_ids(old(self)@.waiting), i as int);
                }
                assert(self@ =~= PendingView { waiting: drop_waiter(old(self)@.waiting, action_id@), ..old(self)@ });
                true
            },
            None => false,
        }
    }

    /// Hands a response to the caller waiting for its action id: whether it
    /// reached a caller, that is, whether one was waiting and the receiving
    /// end of its channel is still alive (`receiver_alive`, which only the
    /// channel can tell). Either way that caller is no longer waiting.
    pub fn deliver(&mut self, response: &AmiResponse, receiver_alive: bool) -> (r: bool)
        requires
            old(self).wf(),
        ensures
            final(self).wf(),
            r == (id_index(waiter_ids(old(self)@.waiting), response@.action_id) is Some && receiver_alive),
            final(self)@ == (PendingView {
                waiting: drop_waiter(old(self)@.waiting, response@.action_id),
                ..old(self)@
            }),
    {
        let waiting = self.remove_waiter(response.action_id.as_str());
        waiting && receiver_alive
    }

    /// Number of actions waiting for responses or event lists.
    pub fn pending_count(&self) -> (r: usize)
        ensures
            r == min_usize((self@.waiting.len() + self@.lists.len()) as int),
    {
        self.waiting.len().saturating_add(self.lists.len())
    }

    /// Whether no further action may be sent.
    pub fn at_in_flight_limit(&self) -> (r: bool)
        ensures
            r == (min_usize((self@.waiting.len() + self@.lists.len()) as int) >= MAX_IN_FLIGHT_ACTIONS),
    {
        self.pending_count() >= MAX_IN_FLIGHT_ACTIONS
    }

    /// Whether no further event-generating action may be sent.
    pub fn at_event_list_limit(&self) -> (r: bool)
        ensures
            r == (self@.lists.len() >= MAX_IN_FLIGHT_EVENT_LISTS),
    {
        self.lists.len() >= MAX_IN_FLIGHT_EVENT_LISTS
    }

    /// Forgets every pending action (e.g. on disconnect); those waiting see
    /// their channels close.
    pub fn cancel_all(&mut self)
        ensures
            final(self).wf(),
            final(self)@.waiting.len() == 0,
            final(self)@.lists.len() == 0,
            final(self)@.retained == 0,
    {
        self.waiting = Vec::new();
        self.lists = Vec::new();
        self.retained_event_list_bytes = 0;
        assert(self@.lists =~= Seq::<ListView>::empty());
    }

    /// Whether an event list is pending under `id`.
    pub fn contains_event_list(&self, action_id: &str) -> (r: bool)
        requires
            self.wf(),
        ensures
            r == (id_index(list_ids(self@.lists), action_id@) is Some),
    {
        self.list_position(action_id).is_some()
    }

    /// Removes the event list under `id`, releasing its bytes.
    pub fn remove_event_list(&mut self, action_id: &str) -> (r: Option<PendingEventList>)
        requires
            old(self).wf(),
        ensures
            final(self).wf(),
            final(self)@ == without_list(old(self)@, action_id@),
            match id_index(list_ids(old(self)@.lists), action_id@) {
                Some(i) => r matches Some(l) && l@ == old(self)@.lists[i],
                None => r is None,
            },
    {
        match self.list_position(action_id) {
            Some(i) => {
                let ghost before = self@.lists;
                proof {
                    lemma_sum_part(before, i as int);
                    lemma_sum_remove(before, i as int);
                    lemma_distinct_remove(list_ids(before), i as int);
                }
                let l = self.lists.remove(i);
                self.retained_event_list_bytes = self.retained_event_list_bytes - l.retained_bytes;
                assert(lists_view(self.lists@) =~= before.remove(i as int));
                assert(list_ids(self@.lists) =~= list_ids(before).remove(i as int));
                assert(self@ =~= without_list(old(self)@, action_id@));
                Some(l)
            },
            None => None,
        }
    }

    /// Starts an event list under `id` (replacing one already there), with
    /// an optional deadline.
    fn start_event_list(&mut self, action_id: String, deadline: Option<u64>)
        requires
            old(self).wf(),
        ensures
            final(self).wf(),
            final(self)@ == (PendingView {
                waiting: old(self)@.waiting,
                lists: drop_list(old(self)@.lists, action_id@).push(fresh_list(action_id@, deadline)),
                retained: without_list(old(self)@, action_id@).retained,
            }),
    {
        let _ = self.remove_event_list(action_id.as_str());
        let ghost mid = self@;
        let ghost id = action_id@;
        proof {
            lemma_id_index(list_ids(old(self)@.lists), id);
            let ol = old(self)@.lists;
            match id_index(list_ids(ol), id) {
                Some(i) => {
                    assert forall|j: int| 0 <= j < mid.lists.len() implies list_ids(mid.lists)[j] != id by {
                        let j2 = if j < i { j } else { j + 1 };
                        assert(mid.lists[j] == ol[j2]);
                        if j2 != i {
                            if j2 < i {
                                assert(list_ids(ol)[j2] != list_ids(ol)[i]);
                            } else {
                                assert(list_ids(ol)[i] != list_ids(ol)[j2]);
                            }
                        }
                    }
                },
                None => {},
            }
            lemma_id_index(list_ids(mid.lists), id);
            if let Some(k) = id_index(list_ids(mid.lists), id) {
                assert(list_ids(mid.lists)[k] == id);
            }
            lemma_distinct_push(list_ids(mid.lists), id);
            lemma_sum_push(mid.lists, fresh_list(id, deadline));
        }
        self.lists.push(PendingEventList {
            action_id,
            response: None,
            events: Vec::new(),
            retained_bytes: 0,
            deadline,
        });
        assert(events_view(Seq::<AmiEvent>::empty()) =~= Seq::<EventView>::empty());
        assert(lists_view(self.lists@) =~= mid.lists.push(fresh_list(id, deadline)));
        assert(list_ids(self@.lists) =~= list_ids(mid.lists).push(id));
    }

    /// Registers an event-generating action.
    pub fn register_event_list(&mut self, action_id: String)
        requires
            old(self).wf(),
        ensures
            final(self).wf(),
            final(self)@ == (PendingView {
                waiting: old(self)@.waiting,
                lists: drop_list(old(self)@.lists, action_id@).push(fresh_list(action_id@, None)),
                retained: without_list(old(self)@, action_id@).retained,
            }),
    {
        self.start_event_list(action_id, None)
    }

    /// Registers an event-generating action that expires at `deadline`.
    pub fn register_managed_event_list(&mut self, action_id: String, deadline: u64)
        requires
            old(self).wf(),
        ensures
            final(self).wf(),
            final(self)@ == (PendingView {
                waiting: old(self)@.waiting,
                lists: drop_list(old(self)@.lists, action_id@).push(fresh_list(action_id@, Some(deadline))),
                retained: without_list(old(self)@, action_id@).retained,
            }),
    {
        self.start_event_list(action_id, Some(deadline))
    }
}


/// What became of an offered response or event, in the abstract.
pub enum OutcomeSpec {
    NotPending,
    Consumed,
    Finished(ResponseView, Seq<EventView>),
    Cancelled,
    TooManyEvents,
    Reserve(ReserveFault),
}

/// `r` is the outcome `o` for the list under `id`.
pub open spec fn outcome_is(r: ListOutcome, o: OutcomeSpec, id: Seq<char>) -> bool {
    match o {
        OutcomeSpec::NotPending => r is NotPending,
        OutcomeSpec::Consumed => r is Consumed,
        OutcomeSpec::Finished(resp, evs) => r matches ListOutcome::Finished(x) && x.response@ == resp
            && events_view(x.events@) == evs,
        OutcomeSpec::Cancelled => r matches ListOutcome::Failed(AmiError::EventListCancelled { action_id })
            && action_id@ == id,
        OutcomeSpec::TooManyEvents => r matches ListOutcome::Failed(
            AmiError::EventListEventLimitExceeded { action_id, limit },
        ) && action_id@ == id && limit == MAX_EVENT_LIST_EVENTS,
        OutcomeSpec::Reserve(f) => r matches ListOutcome::Failed(e) && reserve_error_is(e, f, id),
    }
}

/// The response handed out for a list that completed before its response.
pub open spec fn missing_response(id: Seq<char>) -> ResponseView {
    ResponseView {
        action_id: id,
        success: false,
        response_type: Seq::empty(),
        message: Some("event list completed before response received"@),
        headers: Seq::empty(),
        output: Seq::empty(),
        variables: Seq::empty(),
    }
}

/// The effect of the initial response of an event-generating action that
/// keeps `bytes` bytes: a failure finishes the list with no events, a
/// second response is ignored, a success is stored if its bytes fit.
pub open spec fn response_step(v: PendingView, resp: ResponseView, bytes: nat) -> (PendingView, OutcomeSpec) {
    let id = resp.action_id;
    match id_index(list_ids(v.lists), id) {
        None => (v, OutcomeSpec::NotPending),
        Some(i) => {
            let l = v.lists[i];
            if !resp.success {
                (without_list(v, id), OutcomeSpec::Finished(resp, Seq::empty()))
            } else if l.response is Some {
                (v, OutcomeSpec::Consumed)
            } else {
                match reserve_fault(l.retained, v.retained, bytes) {
                    Some(f) => (without_list(v, id), OutcomeSpec::Reserve(f)),
                    None => (
                        PendingView {
                            waiting: v.waiting,
                            lists: v.lists.update(i, ListView { response: Some(resp), retained: l.retained + bytes, ..l }),
                            retained: v.retained + bytes,
                        },
                        OutcomeSpec::Consumed,
                    ),
                }
            }
        },
    }
}

/// The effect of an event for the list under `id` that keeps `bytes`
/// bytes: a cancellation or a limit ends the list with an error; otherwise
/// the event is kept, and a completion marker finishes the list with its
/// response and events.
pub open spec fn event_step(v: PendingView, id: Seq<char>, ev: EventView, bytes: nat, t: EventListTerminal) -> (PendingView, OutcomeSpec) {
    match id_index(list_ids(v.lists), id) {
        None => (v, OutcomeSpec::NotPending),
        Some(i) => {
            let l = v.lists[i];
            if t == EventListTerminal::Cancelled {
                (without_list(v, id), OutcomeSpec::Cancelled)
            } else if l.events.len() >= MAX_EVENT_LIST_EVENTS {
                (without_list(v, id), OutcomeSpec::TooManyEvents)
            } else {
                match reserve_fault(l.retained, v.retained, bytes) {
                    Some(f) => (without_list(v, id), OutcomeSpec::Reserve(f)),
                    None => if t == EventListTerminal::Complete {
                        (
                            without_list(v, id),
                            OutcomeSpec::Finished(
                                match l.response {
                                    Some(r) => r,
                                    None => missing_response(id),
                                },
                                l.events.push(ev),
                            ),
                        )
                    } else {
                        (
                            PendingView {
                                waiting: v.waiting,
                                lists: v.lists.update(i, ListView { events: l.events.push(ev), retained: l.retained + bytes, ..l }),
                                retained: v.retained + bytes,
                            },
                            OutcomeSpec::Consumed,
                        )
                    },
                }
            }
        },
    }
}

/// The response handed out for a list that completed before its response.
fn missing_response_value(action_id: &str) -> (r: AmiResponse)
    ensures
        r@ == missing_response(action_id@),
{
    let r = AmiResponse {
        action_id: action_id.to_owned(),
        success: false,
        response_type: String::new(),
        message: Some("event list completed before response received".to_owned()),
        headers: Vec::new(),
        output: Vec::new(),
        channel_variables: Vec::new(),
    };
    assert(r@.headers =~= Seq::<(Seq<char>, Seq<char>)>::empty());
    assert(r@.output =~= Seq::<Seq<char>>::empty());
    assert(r@.variables =~= Seq::<(Seq<char>, Seq<char>)>::empty());
    r
}

impl PendingActions {
    /// Appends `event` to the list at `i`, reserving `bytes` for it.
    fn append_event(&mut self, i: usize, event: AmiEvent, bytes: usize)
        requires
            old(self).wf(),
            i < old(self)@.lists.len(),
            old(self)@.lists[i as int].events.len() < MAX_EVENT_LIST_EVENTS,
            reserve_fault(old(self)@.lists[i as int].retained, old(self)@.retained, bytes as nat) is None,
        ensures
            final(self).wf(),
            final(self)@ == (PendingView {
                waiting: old(self)@.waiting,
                lists: old(self)@.lists.update(
                    i as int,
                    ListView {
                        events: old(self)@.lists[i as int].events.push(event@),
                        retained: (old(self)@.lists[i as int].retained + bytes) as nat,
                        ..old(self)@.lists[i as int]
                    },
                ),
                retained: (old(self)@.retained + bytes) as nat,
            }),
    {
        let ghost v = self@;
        let ghost l0 = v.lists[i as int];
        let ghost l1 = ListView { events: l0.events.push(event@), retained: (l0.retained + bytes) as nat, ..l0 };
        proof {
            lemma_sum_update(v.lists, i as int, l1);
        }
        let mut l = self.lists.remove(i);
        l.events.push(event);
        l.retained_bytes = l.retained_bytes + bytes;
        assert(events_view(l.events@) =~= l0.events.push(event@));
        self.retained_event_list_bytes = self.retained_event_list_bytes + bytes;
        self.lists.insert(i, l);
        assert(lists_view(self.lists@) =~= v.lists.update(i as int, l1));
        assert(list_ids(self@.lists) =~= list_ids(v.lists));
        assert forall|j: int| 0 <= j < self@.lists.len() implies (#[trigger] self@.lists[j]).retained <= MAX_EVENT_LIST_BYTES
            && self@.lists[j].events.len() <= MAX_EVENT_LIST_EVENTS by {
            if j != i {
                assert(self@.lists[j] == v.lists[j]);
            }
        }
    }

    /// Stores the initial response of the list at `i`, reserving `bytes` for it.
    fn store_response(&mut self, i: usize, response: AmiResponse, bytes: usize)
        requires
            old(self).wf(),
            i < old(self)@.lists.len(),
            reserve_fault(old(self)@.lists[i as int].retained, old(self)@.retained, bytes as nat) is None,
        ensures
            final(self).wf(),
            final(self)@ == (PendingView {
                waiting: old(self)@.waiting,
                lists: old(self)@.lists.update(
                    i as int,
                    ListView {
                        response: Some(response@),
                        retained: (old(self)@.lists[i as int].retained + bytes) as nat,
                        ..old(self)@.lists[i as int]
                    },
                ),
                retained: (old(self)@.retained + bytes) as nat,
            }),
    {
        let ghost v = self@;
        let ghost l0 = v.lists[i as int];
        let ghost l1 = ListView { response: Some(response@), retained: (l0.retained + bytes) as nat, ..l0 };
        proof {
            lemma_sum_update(v.lists, i as int, l1);
        }
        let mut l = self.lists.remove(i);
        l.response = Some(response);
        l.retained_bytes = l.retained_bytes + bytes;
        self.retained_event_list_bytes = self.retained_event_list_bytes + bytes;
        self.lists.insert(i, l);
        assert(lists_view(self.lists@) =~= v.lists.update(i as int, l1));
        assert(list_ids(self@.lists) =~= list_ids(v.lists));
        assert forall|j: int| 0 <= j < self@.lists.len() implies (#[trigger] self@.lists[j]).retained <= MAX_EVENT_LIST_BYTES
            && self@.lists[j].events.len() <= MAX_EVENT_LIST_EVENTS by {
            if j != i {
                assert(self@.lists[j] == v.lists[j]);
            }
        }
    }

    /// Removes the list under `action_id` and reports `e` for it.
    fn fail_list(&mut self, action_id: &str, e: AmiError) -> (r: ListOutcome)
        requires
            old(self).wf(),
        ensures
            final(self).wf(),
            final(self)@ == without_list(old(self)@, action_id@),
            r == ListOutcome::Failed(e),
    {
        let _ = self.remove_event_list(action_id);
        ListOutcome::Failed(e)
    }

    /// Removes the list at `i` (under `action_id`), which just took its
    /// last event, and hands out its result.
    fn finish_list(&mut self, i: usize, action_id: &str, Ghost(v): Ghost<PendingView>) -> (r: ListOutcome)
        requires
            old(self).wf(),
            pending_wf(v),
            i < v.lists.len(),
            v.lists[i as int].id == action_id@,
            old(self)@.waiting == v.waiting,
            old(self)@.lists.len() == v.lists.len(),
            old(self)@.lists == v.lists.update(i as int, old(self)@.lists[i as int]),
            old(self)@.lists[i as int].id == action_id@,
            old(self)@.lists[i as int].response == v.lists[i as int].response,
            old(self)@.retained + v.lists[i as int].retained == v.retained + old(self)@.lists[i as int].retained,
        ensures
            final(self).wf(),
            final(self)@ == without_list(v, action_id@),
            outcome_is(
                r,
                OutcomeSpec::Finished(
                    match v.lists[i as int].response {
                        Some(x) => x,
                        None => missing_response(action_id@),
                    },
                    old(self)@.lists[i as int].events,
                ),
                action_id@,
            ),
    {
        let ghost mid = self@;
        proof {
            assert(list_ids(mid.lists) =~= list_ids(v.lists)) by {
                assert forall|j: int| 0 <= j < mid.lists.len() implies list_ids(mid.lists)[j] == list_ids(v.lists)[j] by {
                    if j != i {
                        assert(mid.lists[j] == v.lists[j]);
                    }
                }
            }
            lemma_id_index_unique(list_ids(mid.lists), action_id@, i as int);
            lemma_id_index_unique(list_ids(v.lists), action_id@, i as int);
            assert(mid.lists.remove(i as int) =~= v.lists.remove(i as int));
        }
        let removed = self.remove_event_list(action_id);
        assert(self@ =~= without_list(v, action_id@));
        match removed {
            Some(done) => {
                let response = match done.response {
                    Some(r) => r,
                    None => missing_response_value(action_id),
                };
                ListOutcome::Finished(EventListResponse { response, events: done.events })
            },
            None => ListOutcome::NotPending,
        }
    }

    /// Whether adding `additional` bytes to the list at `i` is refused.
    fn check_reserve(&self, i: usize, additional: usize) -> (r: Option<ReserveFault>)
        requires
            self.wf(),
            i < self@.lists.len(),
        ensures
            r == reserve_fault(self@.lists[i as int].retained, self@.retained, additional as nat),
    {
        proof {
            lemma_sum_part(self@.lists, i as int);
        }
        let held = self.lists[i].retained_bytes;
        if held.saturating_add(additional) > MAX_EVENT_LIST_BYTES {
            Some(ReserveFault::ListBytes)
        } else if self.retained_event_list_bytes.saturating_add(additional) > MAX_CONNECTION_EVENT_LIST_BYTES {
            Some(ReserveFault::ConnectionBytes)
        } else {
            None
        }
    }

    /// The error for a refused reservation.
    fn reserve_error(f: ReserveFault, action_id: &str) -> (e: AmiError)
        ensures
            reserve_error_is(e, f, action_id@),
    {
        match f {
            ReserveFault::ListBytes => AmiError::EventListByteLimitExceeded {
                action_id: action_id.to_owned(),
                limit: MAX_EVENT_LIST_BYTES,
            },
            ReserveFault::ConnectionBytes => AmiError::EventListConnectionByteLimitExceeded {
                action_id: action_id.to_owned(),
                limit: MAX_CONNECTION_EVENT_LIST_BYTES,
            },
        }
    }

    /// Delivers the initial response of an event-generating action, whose
    /// retained size is `retained_bytes`.
    pub fn deliver_event_list_response_with_size(&mut self, response: AmiResponse, retained_bytes: usize) -> (r: ListOutcome)
        requires
            old(self).wf(),
        ensures
            final(self).wf(),
            final(self)@ == response_step(old(self)@, response@, retained_bytes as nat).0,
            outcome_is(r, response_step(old(self)@, response@, retained_bytes as nat).1, response@.action_id),
    {
        let ghost id = response@.action_id;
        let ghost v = self@;
        let i = match self.list_position(response.action_id.as_str()) {
            Some(i) => i,
            None => return ListOutcome::NotPending,
        };
        if !response.success {
            let _ = self.remove_event_list(response.action_id.as_str());
            let res = EventListResponse { response, events: Vec::new() };
            assert(events_view(res.events@) =~= Seq::<EventView>::empty());
            return ListOutcome::Finished(res);
        }
        if self.lists[i].response.is_some() {
            return ListOutcome::Consumed;
        }
        match self.check_reserve(i, retained_bytes) {
            Some(f) => {
                let e = Self::reserve_error(f, response.action_id.as_str());
                let _ = self.remove_event_list(response.action_id.as_str());
                return ListOutcome::Failed(e);
            },
            None => {},
        }
        self.store_response(i, response, retained_bytes);
        ListOutcome::Consumed
    }

    /// Delivers the initial response of an event-generating action.
    pub fn deliver_event_list_response(&mut self, response: AmiResponse) -> (r: ListOutcome)
        requires
            old(self).wf(),
        ensures
            final(self).wf(),
            final(self)@ == response_step(
                old(self)@,
                response@,
                min_usize((pairs_bytes(response@.headers) + strings_bytes(response@.output) + pairs_bytes(response@.variables)) as int) as nat,
            ).0,
            outcome_is(
                r,
                response_step(
                    old(self)@,
                    response@,
                    min_usize((pairs_bytes(response@.headers) + strings_bytes(response@.output) + pairs_bytes(response@.variables)) as int) as nat,
                ).1,
                response@.action_id,
            ),
    {
        let retained_bytes = response.retained_size();
        self.deliver_event_list_response_with_size(response, retained_bytes)
    }

    /// Delivers an event of an event-generating action, with its retained
    /// size and its effect on the list.
    pub fn deliver_event_list_event_with_metadata(
        &mut self,
        action_id: &str,
        event: AmiEvent,
        retained_bytes: usize,
        terminal: EventListTerminal,
    ) -> (r: ListOutcome)
        requires
            old(self).wf(),
        ensures
            final(self).wf(),
            final(self)@ == event_step(old(self)@, action_id@, event@, retained_bytes as nat, terminal).0,
            outcome_is(r, event_step(old(self)@, action_id@, event@, retained_bytes as nat, terminal).1, action_id@),
    {
        let ghost v = self@;
        let i = match self.list_position(action_id) {
            Some(i) => i,
            None => return ListOutcome::NotPending,
        };
        if terminal == EventListTerminal::Cancelled {
            return self.fail_list(action_id, AmiError::EventListCancelled { action_id: action_id.to_owned() });
        }
        if self.lists[i].events.len() >= MAX_EVENT_LIST_EVENTS {
            return self.fail_list(
                action_id,
                AmiError::EventListEventLimitExceeded { action_id: action_id.to_owned(), limit: MAX_EVENT_LIST_EVENTS },
            );
        }
        match self.check_reserve(i, retained_bytes) {
            Some(f) => {
                let e = Self::reserve_error(f, action_id);
                return self.fail_list(action_id, e);
            },
            None => {},
        }
        self.append_event(i, event, retained_bytes);
        if terminal == EventListTerminal::Complete {
            return self.finish_list(i, action_id, Ghost(v));
        }
        ListOutcome::Consumed
    }

    /// Delivers an event of an event-generating action; completion is
    /// detected from the event itself (`EventList: Complete`).
    pub fn deliver_event_list_event(&mut self, action_id: &str, event: AmiEvent) -> (r: ListOutcome)
        requires
            old(self).wf(),
        ensures
            final(self).wf(),
            final(self)@ == event_step(old(self)@, action_id@, event@, 0, terminal_spec(event@)).0,
            outcome_is(r, event_step(old(self)@, action_id@, event@, 0, terminal_spec(event@)).1, action_id@),
    {
        let terminal = event_list_terminal(&event);
        self.deliver_event_list_event_with_metadata(action_id, event, 0, terminal)
    }
}


/// Whether a deadline has passed at `now`.
pub open spec fn is_due(d: Option<u64>, now: u64) -> bool {
    d matches Some(t) && t <= now
}

/// The waiters whose deadline has not passed, in order.
pub open spec fn live_waiters(w: Seq<(Seq<char>, Option<u64>)>, now: u64) -> Seq<(Seq<char>, Option<u64>)>
    decreases w.len(),
{
    if w.len() == 0 {
        w
    } else if is_due(w.last().1, now) {
        live_waiters(w.drop_last(), now)
    } else {
        live_waiters(w.drop_last(), now).push(w.last())
    }
}

/// The ids of the waiters whose deadline has passed, in order.
pub open spec fn due_waiters(w: Seq<(Seq<char>, Option<u64>)>, now: u64) -> Seq<Seq<char>>
    decreases w.len(),
{
    if w.len() == 0 {
        Seq::empty()
    } else if is_due(w.last().1, now) {
        due_waiters(w.drop_last(), now).push(w.last().0)
    } else {
        due_waiters(w.drop_last(), now)
    }
}

/// The event lists whose deadline has not passed, in order.
pub open spec fn live_lists(l: Seq<ListView>, now: u64) -> Seq<ListView>
    decreases l.len(),
{
    if l.len() == 0 {
        l
    } else if is_due(l.last().deadline, now) {
        live_lists(l.drop_last(), now)
    } else {
        live_lists(l.drop_last(), now).push(l.last())
    }
}

/// The ids of the event lists whose deadline has passed, in order.
pub open spec fn due_lists(l: Seq<ListView>, now: u64) -> Seq<Seq<char>>
    decreases l.len(),
{
    if l.len() == 0 {
        Seq::empty()
    } else if is_due(l.last().deadline, now) {
        due_lists(l.drop_last(), now).push(l.last().id)
    } else {
        due_lists(l.drop_last(), now)
    }
}

/// The earliest of the deadlines that are set.
pub open spec fn earliest(ds: Seq<Option<u64>>) -> Option<u64>
    decreases ds.len(),
{
    if ds.len() == 0 {
        None
    } else {
        match (earliest(ds.drop_last()), ds.last()) {
            (Some(a), Some(b)) => Some(if b < a { b } else { a }),
            (Some(a), None) => Some(a),
            (None, d) => d,
        }
    }
}

/// The deadlines of waiters and event lists, in that order.
pub open spec fn all_deadlines(v: PendingView) -> Seq<Option<u64>> {
    v.waiting.map_values(|p: (Seq<char>, Option<u64>)| p.1) + v.lists.map_values(|l: ListView| l.deadline)
}

/// The ids of the entries that have a deadline (the ones the connection
/// answers itself).
pub open spec fn managed_ids(v: PendingView) -> Seq<Seq<char>> {
    due_waiters(v.waiting, u64::MAX) + due_lists(v.lists, u64::MAX)
}

/// Keeping entries by a test keeps ids unique.
proof fn lemma_kept_distinct(ids: Seq<Seq<char>>, kept: Seq<Seq<char>>, x: Seq<char>)
    requires
        distinct_ids(kept),
        forall|j: int| 0 <= j < kept.len() ==> ids.contains(#[trigger] kept[j]),
        !ids.contains(x),
    ensures
        distinct_ids(kept.push(x)),
{
    let r = kept.push(x);
    assert forall|a: int, b: int| 0 <= a < b < r.len() implies r[a] != r[b] by {
        if b == kept.len() {
            assert(ids.contains(kept[a]));
        } else {
            assert(r[a] == kept[a] && r[b] == kept[b]);
        }
    }
}

impl PendingActions {
    /// The earliest deadline of any request the connection expires itself.
    pub fn next_deadline(&self) -> (r: Option<u64>)
        ensures
            r == earliest(all_deadlines(self@)),
    {
        let ghost ds = all_deadlines(self@);
        let ghost wd = self@.waiting.map_values(|p: (Seq<char>, Option<u64>)| p.1);
        let mut best: Option<u64> = None;
        let mut i: usize = 0;
        while i < self.waiting.len()
            invariant
                wd == waiters_view(self.waiting@).map_values(|p: (Seq<char>, Option<u64>)| p.1),
                0 <= i <= self.waiting@.len(),
                best == earliest(wd.subrange(0, i as int)),
            decreases self.waiting@.len() - i,
        {
            let d = self.waiting[i].deadline;
            assert(wd.subrange(0, i + 1).drop_last() =~= wd.subrange(0, i as int));
            best = match (best, d) {
                (Some(a), Some(b)) => Some(if b < a { b } else { a }),
                (Some(a), None) => Some(a),
                (None, d) => d,
            };
            i = i + 1;
        }
        assert(wd.subrange(0, wd.len() as int) =~= wd);
        let ghost ld = self@.lists.map_values(|l: ListView| l.deadline);
        let mut k: usize = 0;
        while k < self.lists.len()
            invariant
                ds == wd + ld,
                ld == lists_view(self.lists@).map_values(|l: ListView| l.deadline),
                0 <= k <= self.lists@.len(),
                best == earliest(wd + ld.subrange(0, k as int)),
            decreases self.lists@.len() - k,
        {
            let d = self.lists[k].deadline;
            assert((wd + ld.subrange(0, k + 1)).drop_last() =~= wd + ld.subrange(0, k as int));
            best = match (best, d) {
                (Some(a), Some(b)) => Some(if b < a { b } else { a }),
                (Some(a), None) => Some(a),
                (None, d) => d,
            };
            k = k + 1;
        }
        assert(ld.subrange(0, ld.len() as int) =~= ld);
        best
    }

    /// Takes out every request whose deadline has passed at `now`; returns
    /// their ids (waiters first), each to be answered "outcome unknown".
    pub fn expire(&mut self, now: u64) -> (r: Vec<String>)
        requires
            old(self).wf(),
        ensures
            final(self).wf(),
            final(self)@.waiting == live_waiters(old(self)@.waiting, now),
            final(self)@.lists == live_lists(old(self)@.lists, now),
            final(self)@.retained == sum_retained(live_lists(old(self)@.lists, now)),
            r@.map_values(|s: String| s@) == due_waiters(old(self)@.waiting, now) + due_lists(old(self)@.lists, now),
    {
        let mut out: Vec<String> = Vec::new();
        let mut waiting = Vec::new();
        std::mem::swap(&mut waiting, &mut self.waiting);
        let ghost ow = waiters_view(waiting@);
        let mut kept: Vec<Waiter> = Vec::new();
        let mut i: usize = 0;
        while i < waiting.len()
            invariant
                ow == waiters_view(waiting@),
                distinct_ids(waiter_ids(ow)),
                0 <= i <= waiting@.len(),
                waiters_view(kept@) == live_waiters(ow.subrange(0, i as int), now),
                distinct_ids(waiter_ids(waiters_view(kept@))),
                forall|j: int| 0 <= j < kept@.len() ==> waiter_ids(ow.subrange(0, i as int)).contains(#[trigger] waiter_ids(waiters_view(kept@))[j]),
                out@.map_values(|s: String| s@) == due_waiters(ow.subrange(0, i as int), now),
            decreases waiting@.len() - i,
        {
            let w = &waiting[i];
            let ghost pre = ow.subrange(0, i as int);
            let ghost cur = ow.subrange(0, i + 1);
            assert(cur.drop_last() =~= pre);
            let due = match w.deadline {
                Some(t) => t <= now,
                None => false,
            };
            if due {
                let ghost before_out = out@;
                out.push(w.action_id.clone());
                assert(out@.map_values(|s: String| s@) =~= before_out.map_values(|s: String| s@).push(ow[i as int].0));
                assert(out@.map_values(|s: String| s@) =~= due_waiters(pre, now).push(ow[i as int].0));
            } else {
                proof {
                    assert(!waiter_ids(pre).contains(ow[i as int].0)) by {
                        if waiter_ids(pre).contains(ow[i as int].0) {
                            let j = choose|j: int| 0 <= j < waiter_ids(pre).len() && waiter_ids(pre)[j] == ow[i as int].0;
                            assert(waiter_ids(ow)[j] == waiter_ids(ow)[i as int]);
                        }
                    }
                    lemma_kept_distinct(waiter_ids(pre), waiter_ids(waiters_view(kept@)), ow[i as int].0);
                }
                kept.push(Waiter { action_id: w.action_id.clone(), deadline: w.deadline });
                assert(waiters_view(kept@) =~= live_waiters(pre, now).push(ow[i as int]));
                assert(waiter_ids(waiters_view(kept@)) =~= waiter_ids(live_waiters(pre, now)).push(ow[i as int].0));
            }
            assert forall|j: int| 0 <= j < kept@.len() implies waiter_ids(cur).contains(#[trigger] waiter_ids(waiters_view(kept@))[j]) by {
                let x = waiter_ids(waiters_view(kept@))[j];
                if j < kept@.len() - 1 || due {
                    assert(waiter_ids(pre).contains(x));
                    let k = choose|k: int| 0 <= k < waiter_ids(pre).len() && waiter_ids(pre)[k] == x;
                    assert(waiter_ids(cur)[k] == x);
                } else {
                    assert(waiter_ids(cur)[i as int] == x);
                }
            }
            i = i + 1;
        }
        assert(ow.subrange(0, ow.len() as int) =~= ow);
        self.waiting = kept;
        let ghost due_w = out@.map_values(|s: String| s@);

        let mut lists = Vec::new();
        std::mem::swap(&mut lists, &mut self.lists);
        let ghost ol = lists_view(lists@);
        let mut kept_l: Vec<PendingEventList> = Vec::new();
        let mut total: usize = 0;
        let mut k: usize = 0;
        proof {
            lemma_sum_part_all(ol);
        }
        let n_lists = lists.len();
        while lists.len() > 0
            invariant
                ol.len() == n_lists,
                lists_view(lists@) == ol.subrange(k as int, ol.len() as int),
                distinct_ids(list_ids(ol)),
                sum_retained(ol) <= MAX_CONNECTION_EVENT_LIST_BYTES,
                forall|j: int| 0 <= j < ol.len() ==> (#[trigger] ol[j]).retained <= MAX_EVENT_LIST_BYTES
                    && ol[j].events.len() <= MAX_EVENT_LIST_EVENTS,
                0 <= k <= ol.len(),
                lists_view(kept_l@) == live_lists(ol.subrange(0, k as int), now),
                total as nat == sum_retained(lists_view(kept_l@)),
                sum_retained(lists_view(kept_l@)) <= sum_retained(ol.subrange(0, k as int)),
                distinct_ids(list_ids(lists_view(kept_l@))),
                forall|j: int| 0 <= j < kept_l@.len() ==> list_ids(ol.subrange(0, k as int)).contains(#[trigger] list_ids(lists_view(kept_l@))[j]),
                forall|j: int| 0 <= j < kept_l@.len() ==> ol.contains(#[trigger] lists_view(kept_l@)[j]),
                out@.map_values(|s: String| s@) == due_w + due_lists(ol.subrange(0, k as int), now),
            decreases lists@.len(),
        {
            assert(lists_view(lists@).len() == lists@.len());
            assert(k < ol.len());
            let ghost pre = ol.subrange(0, k as int);
            let ghost cur = ol.subrange(0, k + 1);
            assert(lists_view(lists@)[0] == ol[k as int]);
            assert(cur.drop_last() =~= pre);
            let ghost before = lists@;
            let l = lists.remove(0);
            let ghost lv = ol[k as int];
            assert(l@ == lv);
            assert forall|j: int| 0 <= j < lists@.len() implies lists_view(lists@)[j] == ol.subrange(k + 1, ol.len() as int)[j] by {
                assert(lists@[j] == before[j + 1]);
                assert(lists_view(before)[j + 1] == ol[k + 1 + j]);
            }
            assert(lists_view(lists@) =~= ol.subrange(k + 1, ol.len() as int));
            assert(cur.last() == lv);
            proof {
                lemma_sum_prefix(ol, k + 1);
            }
            let due = match l.deadline {
                Some(t) => t <= now,
                None => false,
            };
            if due {
                let ghost before_out = out@;
                out.push(l.action_id);
                assert(out@.map_values(|s: String| s@) =~= before_out.map_values(|s: String| s@).push(lv.id));
                assert(out@.map_values(|s: String| s@) =~= due_w + due_lists(pre, now).push(lv.id));
            } else {
                proof {
                    assert(!list_ids(pre).contains(lv.id)) by {
                        if list_ids(pre).contains(lv.id) {
                            let j = choose|j: int| 0 <= j < list_ids(pre).len() && list_ids(pre)[j] == lv.id;
                            assert(list_ids(ol)[j] == list_ids(ol)[k as int]);
                        }
                    }
                    lemma_kept_distinct(list_ids(pre), list_ids(lists_view(kept_l@)), lv.id);
                    lemma_sum_push(lists_view(kept_l@), lv);
                }
                total = total + l.retained_bytes;
                kept_l.push(l);
                assert(lists_view(kept_l@) =~= live_lists(pre, now).push(lv));
                assert(list_ids(lists_view(kept_l@)) =~= list_ids(live_lists(pre, now)).push(lv.id));
            }
            assert forall|j: int| 0 <= j < kept_l@.len() implies list_ids(cur).contains(#[trigger] list_ids(lists_view(kept_l@))[j]) by {
                let x = list_ids(lists_view(kept_l@))[j];
                if j < kept_l@.len() - 1 || due {
                    assert(list_ids(pre).contains(x));
                    let q = choose|q: int| 0 <= q < list_ids(pre).len() && list_ids(pre)[q] == x;
                    assert(list_ids(cur)[q] == x);
                } else {
                    assert(list_ids(cur)[k as int] == x);
                }
            }
            assert forall|j: int| 0 <= j < kept_l@.len() implies ol.contains(#[trigger] lists_view(kept_l@)[j]) by {
                if !(j < kept_l@.len() - 1 || due) {
                    assert(ol[k as int] == lists_view(kept_l@)[j]);
                }
            }
            k = k + 1;
        }
        assert(ol.subrange(0, ol.len() as int) =~= ol);
        self.lists = kept_l;
        self.retained_event_list_bytes = total;
        out
    }
}

/// Every entry's limits hold when the list's do.
proof fn lemma_sum_part_all(l: Seq<ListView>)
    ensures
        forall|i: int| 0 <= i < l.len() ==> (#[trigger] l[i]).retained <= sum_retained(l),
{
    assert forall|i: int| 0 <= i < l.len() implies (#[trigger] l[i]).retained <= sum_retained(l) by {
        lemma_sum_part(l, i);
    }
}

/// The total over a prefix is at most the whole total.
proof fn lemma_sum_prefix(l: Seq<ListView>, n: int)
    requires
        0 <= n <= l.len(),
    ensures
        sum_retained(l.subrange(0, n)) <= sum_retained(l),
    decreases l.len() - n,
{
    if n < l.len() {
        lemma_sum_prefix(l, n + 1);
        assert(l.subrange(0, n + 1).drop_last() =~= l.subrange(0, n));
    } else {
        assert(l.subrange(0, n) =~= l);
    }
}


impl PendingActions {
    /// Takes out every pending request because the connection was lost;
    /// returns the ids of those the connection answers itself (the ones with
    /// a deadline), each to be answered "outcome unknown".
    pub fn fail_all_unknown(&mut self) -> (r: Vec<String>)
        requires
            old(self).wf(),
        ensures
            final(self).wf(),
            final(self)@.waiting.len() == 0,
            final(self)@.lists.len() == 0,
            final(self)@.retained == 0,
            r@.map_values(|s: String| s@) == managed_ids(old(self)@),
    {
        let ids = self.expire(u64::MAX);
        self.cancel_all();
        ids
    }
}

/// Where a request stands between its caller and the connection.
#[derive(PartialEq, Eq, Structural, Clone, Copy, Debug)]
pub enum RequestState {
    Queued,
    Writing,
    Sent,
    Completed,
    Cancelled,
}

/// Coordinates cancellation between a caller and the connection: a request
/// is either cancelled before it is written, or written and then never
/// cancelled.
pub struct RequestLifecycle {
    pub state: RequestState,
}

impl RequestLifecycle {
    /// A queued request.
    pub fn new() -> (r: Self)
        ensures
            r.state == RequestState::Queued,
    {
        RequestLifecycle { state: RequestState::Queued }
    }

    /// Claims a queued request for its first write; whether it was queued.
    pub fn begin_write(&mut self) -> (r: bool)
        ensures
            r == (old(self).state == RequestState::Queued),
            final(self).state == (if r { RequestState::Writing } else { old(self).state }),
    {
        if self.state == RequestState::Queued {
            self.state = RequestState::Writing;
            true
        } else {
            false
        }
    }

    /// Cancels a request that has not started writing; whether it had not.
    pub fn cancel_queued(&mut self) -> (r: bool)
        ensures
            r == (old(self).state == RequestState::Queued),
            final(self).state == (if r { RequestState::Cancelled } else { old(self).state }),
    {
        if self.state == RequestState::Queued {
            self.state = RequestState::Cancelled;
            true
        } else {
            false
        }
    }

    /// The request is on the wire.
    pub fn mark_sent(&mut self)
        ensures
            final(self).state == RequestState::Sent,
    {
        self.state = RequestState::Sent;
    }

    /// The request has its outcome.
    pub fn mark_completed(&mut self)
        ensures
            final(self).state == RequestState::Completed,
    {
        self.state = RequestState::Completed;
    }

    /// Whether the request may have reached the server.
    pub fn may_have_executed(&self) -> (r: bool)
        ensures
            r == (self.state == RequestState::Writing || self.state == RequestState::Sent
                || self.state == RequestState::Completed),
    {
        match self.state {
            RequestState::Writing | RequestState::Sent | RequestState::Completed => true,
            _ => false,
        }
    }
}


/// A message that carries an event never carries a response, even when it
/// has a `Response` header.
pub proof fn lemma_event_is_not_response(raw: RawView)
    ensures
        crate::ami::event::event_spec(raw) is Some ==> response_spec(raw) is None,
{
}

/// Registering an action and then delivering its response: after
/// `register(id)` a caller waits under `id`, so `deliver` returns exactly
/// the liveness of its receiver; either way the entry goes, the waiters
/// drop by one, and a second `deliver` for `id` finds no caller and changes
/// nothing. For an id that no caller waits under, `deliver` changes nothing.
pub proof fn lemma_register_then_deliver(w: Seq<(Seq<char>, Option<u64>)>, id: Seq<char>)
    requires
        distinct_ids(waiter_ids(w)),
    ensures
        id_index(waiter_ids(w), id) is None ==> drop_waiter(w, id) == w,
        id_index(waiter_ids(set_waiter(w, id, None)), id) is Some,
        drop_waiter(set_waiter(w, id, None), id).len() + 1 == set_waiter(w, id, None).len(),
        id_index(waiter_ids(drop_waiter(set_waiter(w, id, None), id)), id) is None,
        drop_waiter(drop_waiter(set_waiter(w, id, None), id), id) == drop_waiter(set_waiter(w, id, None), id),
{
    lemma_id_index(waiter_ids(w), id);
    let w1 = set_waiter(w, id, None);
    match id_index(waiter_ids(w), id) {
        Some(i) => {
            assert(w[i].0 == id);
            assert(waiter_ids(w1) =~= waiter_ids(w));
        },
        None => {
            assert(waiter_ids(w1) =~= waiter_ids(w).push(id));
            lemma_distinct_push(waiter_ids(w), id);
            lemma_id_index_unique(waiter_ids(w1), id, w.len() as int);
        },
    }
    lemma_id_index(waiter_ids(w1), id);
    lemma_delivered_once(w1, id);
}

/// A response reaches at most one caller: once delivered, no caller waits
/// under its action id any more.
pub proof fn lemma_delivered_once(w: Seq<(Seq<char>, Option<u64>)>, id: Seq<char>)
    requires
        distinct_ids(waiter_ids(w)),
    ensures
        id_index(waiter_ids(drop_waiter(w, id)), id) is None,
{
    lemma_id_index(waiter_ids(w), id);
    let r = drop_waiter(w, id);
    match id_index(waiter_ids(w), id) {
        Some(i) => {
            assert forall|j: int| 0 <= j < r.len() implies waiter_ids(r)[j] != id by {
                let j2 = if j < i { j } else { j + 1 };
                assert(r[j] == w[j2]);
                if j2 < i {
                    assert(waiter_ids(w)[j2] != waiter_ids(w)[i]);
                } else {
                    assert(waiter_ids(w)[i] != waiter_ids(w)[j2]);
                }
            }
        },
        None => {},
    }
    lemma_id_index(waiter_ids(r), id);
    if let Some(k) = id_index(waiter_ids(r), id) {
        assert(waiter_ids(r)[k] == id);
    }
}

} // verus!
