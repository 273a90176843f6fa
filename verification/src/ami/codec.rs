//! AMI wire protocol codec.
//!
//! Frames AMI's `Key: Value\r\n` line protocol, in which a message ends at
//! `\r\n\r\n` and `Response: Follows` frames carry output up to a
//! `--END COMMAND--` marker.
use vstd::prelude::*;
use vstd::utf8::encode_utf8;
use vstd::string::*;
use bytes::BytesMut;
use crate::text::{eq_ic_chars, str_eq, str_eq_ignore_case, str_has_char, find_sub_exec};
use crate::ami::error::{AmiError, malformed};
use crate::ami::wire::{
    BodyState, Body, DecodeFault, Decoded, decode_spec, decode_frames_exec, range_eq, crlf,
    banner_prefix, lossy_range, lossy_text, MAX_MESSAGE_SIZE, MAX_HEADERS,
};

verus! {

/// A header list as character strings.
pub open spec fn pairs_view(v: Seq<(String, String)>) -> Seq<(Seq<char>, Seq<char>)> {
    v.map_values(|p: (String, String)| (p.0@, p.1@))
}

/// A list of strings as character strings.
pub open spec fn strings_view(v: Seq<String>) -> Seq<Seq<char>> {
    v.map_values(|s: String| s@)
}

/// Length in bytes of the UTF-8 encoding of a character string (as `str::len`
/// reports it).
pub open spec fn blen(s: Seq<char>) -> nat {
    (encode_utf8(s).len() as usize) as nat
}

/// Value of the first header whose key matches `key` up to ASCII case.
pub open spec fn hget(h: Seq<(Seq<char>, Seq<char>)>, key: Seq<char>) -> Option<Seq<char>>
    decreases h.len(),
{
    if h.len() == 0 {
        None
    } else if eq_ic_chars(h[0].0, key) {
        Some(h[0].1)
    } else {
        hget(h.drop_first(), key)
    }
}

/// Values of all headers whose key matches `key` up to ASCII case, in order.
pub open spec fn hget_all(h: Seq<(Seq<char>, Seq<char>)>, key: Seq<char>) -> Seq<Seq<char>>
    decreases h.len(),
{
    if h.len() == 0 {
        Seq::empty()
    } else {
        let rest = hget_all(h.drop_last(), key);
        if eq_ic_chars(h.last().0, key) {
            rest.push(h.last().1)
        } else {
            rest
        }
    }
}

/// Matching values of a header list that starts with `x`.
proof fn lemma_hget_all_prepend(x: (Seq<char>, Seq<char>), t: Seq<(Seq<char>, Seq<char>)>, key: Seq<char>)
    ensures
        hget_all(seq![x] + t, key) == (if eq_ic_chars(x.0, key) {
            seq![x.1] + hget_all(t, key)
        } else {
            hget_all(t, key)
        }),
    decreases t.len(),
{
    let s = seq![x] + t;
    if t.len() == 0 {
        assert(s.drop_last() =~= Seq::<(Seq<char>, Seq<char>)>::empty());
        assert(s.last() == x);
        assert(hget_all(s.drop_last(), key) =~= Seq::<Seq<char>>::empty());
        assert(hget_all(t, key) =~= Seq::<Seq<char>>::empty());
        assert(seq![x.1] + hget_all(t, key) =~= seq![x.1]);
        assert(Seq::<Seq<char>>::empty().push(x.1) =~= seq![x.1]);
    } else {
        let s0 = seq![x] + t.drop_last();
        assert(s.drop_last() =~= s0);
        assert(s.last() == t.last());
        lemma_hget_all_prepend(x, t.drop_last(), key);
        let r = hget_all(t.drop_last(), key);
        assert(hget_all(s, key) == (if eq_ic_chars(t.last().0, key) {
            hget_all(s0, key).push(t.last().1)
        } else {
            hget_all(s0, key)
        }));
        assert(hget_all(t, key) == (if eq_ic_chars(t.last().0, key) { r.push(t.last().1) } else { r }));
        assert((seq![x.1] + r).push(t.last().1) =~= seq![x.1] + r.push(t.last().1));
    }
}

/// The first of the values of all matching headers is the value of the first
/// matching header, and there are none exactly when no header matches: the
/// first of `get_all` is `get`.
pub proof fn lemma_get_all_first_is_get(h: Seq<(Seq<char>, Seq<char>)>, key: Seq<char>)
    ensures
        (hget_all(h, key).len() == 0) == (hget(h, key) is None),
        hget_all(h, key).len() > 0 ==> hget(h, key) == Some(hget_all(h, key)[0]),
    decreases h.len(),
{
    if h.len() > 0 {
        assert(h =~= seq![h[0]] + h.drop_first());
        lemma_hget_all_prepend(h[0], h.drop_first(), key);
        lemma_get_all_first_is_get(h.drop_first(), key);
    }
}

/// Value stored under exactly `name` in a map held as a list of distinct names.
pub open spec fn vget(m: Seq<(Seq<char>, Seq<char>)>, name: Seq<char>) -> Option<Seq<char>>
    decreases m.len(),
{
    if m.len() == 0 {
        None
    } else if m[0].0 == name {
        Some(m[0].1)
    } else {
        vget(m.drop_first(), name)
    }
}

/// Index of exactly `name` in a map held as a list.
pub open spec fn vindex(m: Seq<(Seq<char>, Seq<char>)>, name: Seq<char>) -> Option<int>
    decreases m.len(),
{
    if m.len() == 0 {
        None
    } else if m.last().0 == name {
        Some(m.len() - 1)
    } else {
        vindex(m.drop_last(), name)
    }
}

/// `vget` finds a value exactly when `vindex` finds a position.
pub proof fn lemma_vget_vindex(m: Seq<(Seq<char>, Seq<char>)>, name: Seq<char>)
    ensures
        (vget(m, name) is None) == (vindex(m, name) is None),
{
    lemma_vindex_some(m, name);
}

/// `vindex` finds a position whenever some entry has the name.
pub proof fn lemma_vindex_some(m: Seq<(Seq<char>, Seq<char>)>, name: Seq<char>)
    ensures
        (vindex(m, name) is Some) == (exists|i: int| 0 <= i < m.len() && #[trigger] m[i].0 == name),
        (vget(m, name) is Some) == (exists|i: int| 0 <= i < m.len() && #[trigger] m[i].0 == name),
    decreases m.len(),
{
    if m.len() > 0 {
        lemma_vindex_some(m.drop_last(), name);
        lemma_vindex_some(m.drop_first(), name);
        if exists|i: int| 0 <= i < m.len() && #[trigger] m[i].0 == name {
            let i = choose|i: int| 0 <= i < m.len() && #[trigger] m[i].0 == name;
            if i < m.len() - 1 {
                assert(m.drop_last()[i].0 == name);
            }
            if i > 0 {
                assert(m.drop_first()[i - 1].0 == name);
            }
        }
        if exists|i: int| 0 <= i < m.drop_last().len() && #[trigger] m.drop_last()[i].0 == name {
            let i = choose|i: int| 0 <= i < m.drop_last().len() && #[trigger] m.drop_last()[i].0 == name;
            assert(m[i].0 == name);
        }
        if exists|i: int| 0 <= i < m.drop_first().len() && #[trigger] m.drop_first()[i].0 == name {
            let i = choose|i: int| 0 <= i < m.drop_first().len() && #[trigger] m.drop_first()[i].0 == name;
            assert(m[i + 1].0 == name);
        }
    }
}

/// `HashMap::insert` on a map held as a list of distinct names: an existing
/// entry is replaced in place, a new one is appended.
pub open spec fn vinsert(m: Seq<(Seq<char>, Seq<char>)>, name: Seq<char>, value: Seq<char>) -> Seq<(Seq<char>, Seq<char>)> {
    match vindex(m, name) {
        Some(i) => m.update(i, (name, value)),
        None => m.push((name, value)),
    }
}

/// Headers collected into a map, the last value winning for a repeated key.
pub open spec fn to_map_spec(h: Seq<(Seq<char>, Seq<char>)>) -> Seq<(Seq<char>, Seq<char>)>
    decreases h.len(),
{
    if h.len() == 0 {
        Seq::empty()
    } else {
        vinsert(to_map_spec(h.drop_last()), h.last().0, h.last().1)
    }
}

/// Sum of the byte lengths of keys and values.
pub open spec fn pairs_bytes(h: Seq<(Seq<char>, Seq<char>)>) -> nat
    decreases h.len(),
{
    if h.len() == 0 {
        0
    } else {
        pairs_bytes(h.drop_last()) + blen(h.last().0) + blen(h.last().1)
    }
}

/// Sum of the byte lengths of a list of strings.
pub open spec fn strings_bytes(v: Seq<Seq<char>>) -> nat
    decreases v.len(),
{
    if v.len() == 0 {
        0
    } else {
        strings_bytes(v.drop_last()) + blen(v.last())
    }
}

/// Abstract content of a raw AMI message.
pub struct RawView {
    pub headers: Seq<(Seq<char>, Seq<char>)>,
    pub output: Seq<Seq<char>>,
    pub variables: Seq<(Seq<char>, Seq<char>)>,
}

/// Raw AMI message as parsed from the wire.
#[derive(Clone)]
pub struct RawAmiMessage {
    /// ordered key-value headers
    pub headers: Vec<(String, String)>,
    /// command output lines (for Response: Follows)
    pub output: Vec<String>,
    /// channel variables extracted from `ChanVariable(name)` headers, each
    /// name once, in order of first appearance
    pub channel_variables: Vec<(String, String)>,
}

impl View for RawAmiMessage {
    type V = RawView;

    open spec fn view(&self) -> RawView {
        RawView {
            headers: pairs_view(self.headers@),
            output: strings_view(self.output@),
            variables: pairs_view(self.channel_variables@),
        }
    }
}

/// First value under `key` (ASCII case-insensitive) in a header list.
pub fn find_header<'a>(headers: &'a Vec<(String, String)>, key: &str) -> (r: Option<&'a str>)
    ensures
        match r {
            Some(v) => hget(pairs_view(headers@), key@) == Some(v@),
            None => hget(pairs_view(headers@), key@) is None,
        },
{
    let ghost h = pairs_view(headers@);
    let n = headers.len();
    let mut i: usize = 0;
    assert(h.subrange(0, n as int) =~= h);
    while i < n
        invariant
            n == headers@.len(),
            h == pairs_view(headers@),
            0 <= i <= n,
            hget(h, key@) == hget(h.subrange(i as int, n as int), key@),
        decreases n - i,
    {
        let ghost rest = h.subrange(i as int, n as int);
        assert(rest.drop_first() =~= h.subrange(i + 1, n as int));
        if str_eq_ignore_case(headers[i].0.as_str(), key) {
            return Some(headers[i].1.as_str());
        }
        i = i + 1;
    }
    assert(h.subrange(n as int, n as int).len() == 0);
    None
}

/// Value stored under exactly `name` in a list of distinct names.
pub fn find_variable<'a>(vars: &'a Vec<(String, String)>, name: &str) -> (r: Option<&'a str>)
    ensures
        match r {
            Some(v) => vget(pairs_view(vars@), name@) == Some(v@),
            None => vget(pairs_view(vars@), name@) is None,
        },
{
    let ghost h = pairs_view(vars@);
    let n = vars.len();
    let mut i: usize = 0;
    assert(h.subrange(0, n as int) =~= h);
    while i < n
        invariant
            n == vars@.len(),
            h == pairs_view(vars@),
            0 <= i <= n,
            vget(h, name@) == vget(h.subrange(i as int, n as int), name@),
        decreases n - i,
    {
        let ghost rest = h.subrange(i as int, n as int);
        assert(rest.drop_first() =~= h.subrange(i + 1, n as int));
        if str_eq(vars[i].0.as_str(), name) {
            return Some(vars[i].1.as_str());
        }
        i = i + 1;
    }
    assert(h.subrange(n as int, n as int).len() == 0);
    None
}

/// Position of exactly `name` in a list, searching from the back.
fn position_of(m: &Vec<(String, String)>, name: &str) -> (r: Option<usize>)
    ensures
        match r {
            Some(i) => vindex(pairs_view(m@), name@) == Some(i as int) && i < m@.len(),
            None => vindex(pairs_view(m@), name@) is None,
        },
{
    let ghost h = pairs_view(m@);
    let mut i: usize = m.len();
    assert(h.subrange(0, i as int) =~= h);
    while i > 0
        invariant
            h == pairs_view(m@),
            0 <= i <= m@.len(),
            vindex(h, name@) == vindex(h.subrange(0, i as int), name@),
        decreases i,
    {
        let ghost pre = h.subrange(0, i as int);
        assert(pre.drop_last() =~= h.subrange(0, i - 1));
        if str_eq(m[i - 1].0.as_str(), name) {
            return Some(i - 1);
        }
        i = i - 1;
    }
    None
}

/// `HashMap::insert` on a list of distinct names.
pub fn insert_variable(m: &mut Vec<(String, String)>, name: String, value: String)
    ensures
        pairs_view(final(m)@) == vinsert(pairs_view(old(m)@), name@, value@),
{
    match position_of(m, name.as_str()) {
        Some(i) => {
            m.set(i, (name, value));
            assert(pairs_view(m@) =~= pairs_view(old(m)@).update(i as int, (name@, value@)));
        },
        None => {
            m.push((name, value));
            assert(pairs_view(m@) =~= pairs_view(old(m)@).push((name@, value@)));
        },
    }
}

impl RawAmiMessage {
    /// get the first value for a given key (case-insensitive)
    pub fn get(&self, key: &str) -> (r: Option<&str>)
        ensures
            match r {
                Some(v) => hget(self@.headers, key@) == Some(v@),
                None => hget(self@.headers, key@) is None,
            },
    {
        find_header(&self.headers, key)
    }

    /// get all values for a given key (case-insensitive)
    pub fn get_all(&self, key: &str) -> (r: Vec<&str>)
        ensures
            r@.map_values(|s: &str| s@) == hget_all(self@.headers, key@),
    {
        let ghost h = self@.headers;
        let mut out: Vec<&str> = Vec::new();
        let n = self.headers.len();
        let mut i: usize = 0;
        while i < n
            invariant
                n == self.headers@.len(),
                h == pairs_view(self.headers@),
                0 <= i <= n,
                out@.map_values(|s: &str| s@) == hget_all(h.subrange(0, i as int), key@),
            decreases n - i,
        {
            let ghost pre = h.subrange(0, i + 1);
            assert(pre.drop_last() =~= h.subrange(0, i as int));
            if str_eq_ignore_case(self.headers[i].0.as_str(), key) {
                out.push(self.headers[i].1.as_str());
            }
            assert(out@.map_values(|s: &str| s@) =~= hget_all(pre, key@));
            i = i + 1;
        }
        assert(h.subrange(0, n as int) =~= h);
        out
    }

    /// check if this is a response message
    pub fn is_response(&self) -> (r: bool)
        ensures
            r == hget(self@.headers, "Response"@) is Some,
    {
        self.get("Response").is_some()
    }

    /// check if this is an event message
    pub fn is_event(&self) -> (r: bool)
        ensures
            r == hget(self@.headers, "Event"@) is Some,
    {
        self.get("Event").is_some()
    }

    /// get a channel variable by name
    pub fn get_variable(&self, name: &str) -> (r: Option<&str>)
        ensures
            match r {
                Some(v) => vget(self@.variables, name@) == Some(v@),
                None => vget(self@.variables, name@) is None,
            },
    {
        find_variable(&self.channel_variables, name)
    }

    /// convert headers to a map held as a list (last value wins for duplicates)
    pub fn to_map(&self) -> (r: Vec<(String, String)>)
        ensures
            pairs_view(r@) == to_map_spec(self@.headers),
    {
        let ghost h = self@.headers;
        let mut out: Vec<(String, String)> = Vec::new();
        let n = self.headers.len();
        let mut i: usize = 0;
        while i < n
            invariant
                n == self.headers@.len(),
                h == pairs_view(self.headers@),
                0 <= i <= n,
                pairs_view(out@) == to_map_spec(h.subrange(0, i as int)),
            decreases n - i,
        {
            let ghost pre = h.subrange(0, i + 1);
            assert(pre.drop_last() =~= h.subrange(0, i as int));
            let k = self.headers[i].0.clone();
            let v = self.headers[i].1.clone();
            insert_variable(&mut out, k, v);
            i = i + 1;
        }
        assert(h.subrange(0, n as int) =~= h);
        out
    }

    /// approximate retained bytes for bounded multi-message aggregation,
    /// saturating at `usize::MAX`
    pub fn retained_size(&self) -> (r: usize)
        ensures
            r == min_usize((pairs_bytes(self@.headers) + strings_bytes(self@.output) + pairs_bytes(self@.variables)) as int),
    {
        let a = pairs_size(&self.headers);
        let b = strings_size(&self.output);
        let c = pairs_size(&self.channel_variables);
        a.saturating_add(b).saturating_add(c)
    }
}

/// `n` clipped to `usize::MAX`.
pub open spec fn min_usize(n: int) -> int {
    if n > usize::MAX { usize::MAX as int } else { n }
}

/// Byte length of a string.
pub fn byte_len(s: &String) -> (r: usize)
    ensures
        r == blen(s@),
{
    s.as_str().len()
}

/// Total byte length of keys and values, saturating.
pub fn pairs_size(v: &Vec<(String, String)>) -> (r: usize)
    ensures
        r == min_usize(pairs_bytes(pairs_view(v@)) as int),
{
    let ghost h = pairs_view(v@);
    let mut total: usize = 0;
    let n = v.len();
    let mut i: usize = 0;
    while i < n
        invariant
            n == v@.len(),
            h == pairs_view(v@),
            0 <= i <= n,
            total == min_usize(pairs_bytes(h.subrange(0, i as int)) as int),
        decreases n - i,
    {
        let ghost pre = h.subrange(0, i + 1);
        assert(pre.drop_last() =~= h.subrange(0, i as int));
        total = total.saturating_add(byte_len(&v[i].0)).saturating_add(byte_len(&v[i].1));
        i = i + 1;
    }
    assert(h.subrange(0, n as int) =~= h);
    total
}

/// Total byte length of a list of strings, saturating.
pub fn strings_size(v: &Vec<String>) -> (r: usize)
    ensures
        r == min_usize(strings_bytes(strings_view(v@)) as int),
{
    let ghost h = strings_view(v@);
    let mut total: usize = 0;
    let n = v.len();
    let mut i: usize = 0;
    while i < n
        invariant
            n == v@.len(),
            h == strings_view(v@),
            0 <= i <= n,
            total == min_usize(strings_bytes(h.subrange(0, i as int)) as int),
        decreases n - i,
    {
        let ghost pre = h.subrange(0, i + 1);
        assert(pre.drop_last() =~= h.subrange(0, i as int));
        total = total.saturating_add(byte_len(&v[i]));
        i = i + 1;
    }
    assert(h.subrange(0, n as int) =~= h);
    total
}


// ---------------------------------------------------------------------------
// the byte buffer of the framed transport
// ---------------------------------------------------------------------------

#[verifier::external_type_specification]
#[verifier::external_body]
pub struct ExBytesMut(bytes::BytesMut);

/// The readable bytes held by a `BytesMut`.
pub uninterp spec fn buf_contents(b: BytesMut) -> Seq<u8>;

/// `<BytesMut as Deref>::deref`: the readable bytes as a slice.
#[verifier::external_body]
pub(crate) fn buf_bytes(b: &BytesMut) -> (r: &[u8])
    ensures
        r@ == buf_contents(*b),
{
    b.as_ref()
}

/// `<BytesMut as Buf>::advance`: drops the first `n` readable bytes.
#[verifier::external_body]
pub(crate) fn buf_advance(b: &mut BytesMut, n: usize)
    requires
        n <= buf_contents(*old(b)).len(),
    ensures
        buf_contents(*final(b)) == buf_contents(*old(b)).subrange(n as int, buf_contents(*old(b)).len() as int),
{
    bytes::Buf::advance(b, n)
}

/// `BytesMut::extend_from_slice`: appends bytes.
#[verifier::external_body]
pub(crate) fn buf_extend(b: &mut BytesMut, data: &[u8])
    ensures
        buf_contents(*final(b)) == buf_contents(*old(b)) + data@,
{
    b.extend_from_slice(data)
}

// ---------------------------------------------------------------------------
// codec
// ---------------------------------------------------------------------------

/// The message view of a decoded body.
pub open spec fn body_view(st: BodyState) -> RawView {
    RawView { headers: st.headers, output: st.output, variables: st.variables }
}

/// `message exceeds 65536 byte limit`
pub open spec fn too_large_text() -> Seq<char> {
    "message exceeds 65536 byte limit"@
}

/// `message exceeds 512 header limit`
pub open spec fn too_many_headers_text() -> Seq<char> {
    "message exceeds 512 header limit"@
}

/// `expected AMI banner, got: `
pub open spec fn banner_text() -> Seq<char> {
    "expected AMI banner, got: "@
}

/// Details of the error that a decoding fault is reported as.
pub open spec fn decode_fault_details(f: DecodeFault) -> Seq<char> {
    match f {
        DecodeFault::Banner { line } => banner_text() + lossy_text(
            line.subrange(0, if line.len() < 64 { line.len() as int } else { 64 }),
        ),
        DecodeFault::TooLarge => too_large_text(),
        DecodeFault::TooManyHeaders => too_many_headers_text(),
    }
}

fn too_large() -> (e: AmiError)
    ensures
        e.malformed_details() == Some(too_large_text()),
{
    malformed("message exceeds 65536 byte limit".to_owned())
}

fn frame_fault_error(f: DecodeFault) -> (e: AmiError)
    requires
        !(f is Banner),
    ensures
        e.malformed_details() == Some(decode_fault_details(f)),
{
    match f {
        DecodeFault::TooManyHeaders => malformed("message exceeds 512 header limit".to_owned()),
        _ => too_large(),
    }
}

/// Codec for AMI's line-based protocol.
pub struct AmiCodec {
    /// tracks whether we've consumed the initial banner line
    pub banner_consumed: bool,
}

impl AmiCodec {
    pub fn new() -> (r: Self)
        ensures
            !r.banner_consumed,
    {
        AmiCodec { banner_consumed: false }
    }

    /// Decodes the next message from `src`: the banner line is checked and
    /// consumed first, frames without headers are skipped, and consumed bytes
    /// are removed from the buffer.
    pub fn decode(&mut self, src: &mut BytesMut) -> (r: Result<Option<RawAmiMessage>, AmiError>)
        ensures
            ({
                let (consumed, d) = decode_spec(old(self).banner_consumed, buf_contents(*old(src)));
                &&& final(self).banner_consumed == consumed
                &&& buf_contents(*final(src)) == d.rest
                &&& match d.result {
                    Ok(None) => r matches Ok(None),
                    Ok(Some(st)) => r matches Ok(Some(m)) && m@ == body_view(st),
                    Err(f) => r matches Err(e) && e.malformed_details() == Some(decode_fault_details(f)),
                }
            }),
    {
        let data = buf_bytes(src);
        let ghost buf = data@;
        let total = data.len();
        let mut start: usize = 0;
        let mut consumed_now = false;
        if !self.banner_consumed {
            let c: [u8; 2] = [13, 10];
            assert(c@ == crlf());
            match find_sub_exec(data, c.as_slice()) {
                None => {
                    if data.len() > MAX_MESSAGE_SIZE {
                        return Err(too_large());
                    }
                    return Ok(None);
                },
                Some(p) => {
                    proof {
                        crate::ami::wire::lemma_find_sub_bound(buf, crlf());
                    }
                    let bp: [u8; 21] = [65, 115, 116, 101, 114, 105, 115, 107, 32, 67, 97, 108, 108, 32, 77, 97, 110, 97, 103, 101, 114];
                    assert(bp@ == banner_prefix());
                    let ok = p >= 21 && range_eq(data, 0, 21, bp.as_slice());
                    proof {
                        if p >= 21 {
                            assert(buf.subrange(0, p as int).subrange(0, 21) =~= buf.subrange(0, 21));
                        }
                    }
                    if !ok {
                        let pe: usize = if p < 64 { p } else { 64 };
                        let preview = lossy_range(data, 0, pe);
                        assert(buf.subrange(0, p as int).subrange(0, pe as int) =~= buf.subrange(0, pe as int));
                        let mut details = "expected AMI banner, got: ".to_owned();
                        details.append(preview.as_str());
                        return Err(malformed(details));
                    }
                    start = p + 2;
                    consumed_now = true;
                },
            }
        }
        assert(buf.subrange(0, total as int) =~= buf);
        let (end, res) = decode_frames_exec(data, start);
        proof {
            crate::ami::wire::lemma_frames_no_banner(buf.subrange(start as int, total as int));
        }
        if consumed_now {
            self.banner_consumed = true;
        }
        buf_advance(src, end);
        match res {
            Ok(None) => Ok(None),
            Ok(Some(body)) => {
                let m = RawAmiMessage {
                    headers: body.headers,
                    output: body.output,
                    channel_variables: body.variables,
                };
                Ok(Some(m))
            },
            Err(f) => Err(frame_fault_error(f)),
        }
    }
}


// ---------------------------------------------------------------------------
// outbound frames
// ---------------------------------------------------------------------------

/// Contains a carriage return or a line feed.
pub open spec fn has_terminator(s: Seq<char>) -> bool {
    s.contains('\r') || s.contains('\n')
}

/// Why a message may not be written.
pub enum OutboundFault {
    TooManyHeaders,
    KeyTerminator { key: Seq<char> },
    ValueTerminator,
    NameTerminator { name: Seq<char> },
    VariableValueTerminator,
    TooLarge,
}

/// The first line terminator in a list of pairs, scanning key then value.
pub open spec fn pair_fault(h: Seq<(Seq<char>, Seq<char>)>, variables: bool) -> Option<OutboundFault>
    decreases h.len(),
{
    if h.len() == 0 {
        None
    } else if has_terminator(h[0].0) {
        Some(if variables { OutboundFault::NameTerminator { name: h[0].0 } } else { OutboundFault::KeyTerminator { key: h[0].0 } })
    } else if has_terminator(h[0].1) {
        Some(if variables { OutboundFault::VariableValueTerminator } else { OutboundFault::ValueTerminator })
    } else {
        pair_fault(h.drop_first(), variables)
    }
}

/// Size in bytes of the frame that encodes `m`.
pub open spec fn frame_len(m: RawView) -> int {
    (2 + pairs_bytes(m.headers) + 4 * m.headers.len() + pairs_bytes(m.variables) + 18 * m.variables.len()) as int
}

/// `validate_outbound`: the first reason why `m` may not be written, if any.
pub open spec fn outbound_fault(m: RawView) -> Option<OutboundFault> {
    if m.headers.len() + m.variables.len() > MAX_HEADERS {
        Some(OutboundFault::TooManyHeaders)
    } else if pair_fault(m.headers, false) is Some {
        pair_fault(m.headers, false)
    } else if pair_fault(m.variables, true) is Some {
        pair_fault(m.variables, true)
    } else if frame_len(m) > MAX_MESSAGE_SIZE {
        Some(OutboundFault::TooLarge)
    } else {
        None
    }
}

/// The `{:?}` rendering of a string.
pub uninterp spec fn debug_repr(s: Seq<char>) -> Seq<char>;

/// `format!("{s:?}")`: the quoted, escaped rendering of a string, named by
/// `debug_repr`.
#[verifier::external_body]
pub(crate) fn debug_string(s: &str) -> (r: String)
    ensures
        r@ == debug_repr(s@),
{
    format!("{s:?}")
}

/// Details of the error that an outbound fault is reported as.
pub open spec fn outbound_details(f: OutboundFault) -> Seq<char> {
    match f {
        OutboundFault::TooManyHeaders => too_many_headers_text(),
        OutboundFault::KeyTerminator { key } => "header key contains illegal line terminator: "@ + debug_repr(key),
        OutboundFault::ValueTerminator => "header value contains illegal line terminator"@,
        OutboundFault::NameTerminator { name } => "channel variable name contains illegal line terminator: "@ + debug_repr(name),
        OutboundFault::VariableValueTerminator => "channel variable value contains illegal line terminator"@,
        OutboundFault::TooLarge => too_large_text(),
    }
}

fn has_terminator_exec(s: &String) -> (r: bool)
    ensures
        r == has_terminator(s@),
{
    str_has_char(s.as_str(), '\r') || str_has_char(s.as_str(), '\n')
}

/// The first line terminator among the pairs, as an error.
fn pair_fault_exec(h: &Vec<(String, String)>, variables: bool) -> (r: Option<AmiError>)
    ensures
        match pair_fault(pairs_view(h@), variables) {
            Some(f) => r matches Some(e) && e.malformed_details() == Some(outbound_details(f)),
            None => r is None,
        },
{
    let ghost v = pairs_view(h@);
    let n = h.len();
    let mut i: usize = 0;
    assert(v.subrange(0, n as int) =~= v);
    while i < n
        invariant
            n == h@.len(),
            v == pairs_view(h@),
            0 <= i <= n,
            pair_fault(v, variables) == pair_fault(v.subrange(i as int, n as int), variables),
        decreases n - i,
    {
        assert(v.subrange(i as int, n as int).drop_first() =~= v.subrange(i + 1, n as int));
        if has_terminator_exec(&h[i].0) {
            let mut d = if variables {
                "channel variable name contains illegal line terminator: ".to_owned()
            } else {
                "header key contains illegal line terminator: ".to_owned()
            };
            let q = debug_string(h[i].0.as_str());
            d.append(q.as_str());
            return Some(malformed(d));
        }
        if has_terminator_exec(&h[i].1) {
            let d = if variables {
                "channel variable value contains illegal line terminator".to_owned()
            } else {
                "header value contains illegal line terminator".to_owned()
            };
            return Some(malformed(d));
        }
        i = i + 1;
    }
    None
}

impl AmiCodec {
    /// validate a complete outbound frame before any socket write begins
    pub fn validate_outbound(item: &RawAmiMessage) -> (r: Result<(), AmiError>)
        ensures
            match outbound_fault(item@) {
                None => r is Ok,
                Some(f) => r matches Err(e) && e.malformed_details() == Some(outbound_details(f)),
            },
    {
        let nh = item.headers.len();
        let nv = item.channel_variables.len();
        if nh > MAX_HEADERS || nv > MAX_HEADERS - nh {
            return Err(malformed("message exceeds 512 header limit".to_owned()));
        }
        if let Some(e) = pair_fault_exec(&item.headers, false) {
            return Err(e);
        }
        if let Some(e) = pair_fault_exec(&item.channel_variables, true) {
            return Err(e);
        }
        let hs = pairs_size(&item.headers);
        let vs = pairs_size(&item.channel_variables);
        let total = 2usize.saturating_add(hs).saturating_add(4 * nh).saturating_add(vs).saturating_add(18 * nv);
        if total > MAX_MESSAGE_SIZE {
            return Err(too_large());
        }
        Ok(())
    }
}

/// `Key: Value\r\n`
pub open spec fn header_line(k: Seq<char>, v: Seq<char>) -> Seq<u8> {
    encode_utf8(k) + seq![58u8, 32u8] + encode_utf8(v) + crlf()
}

/// `ChanVariable(name): value\r\n`
pub open spec fn variable_line(n: Seq<char>, v: Seq<char>) -> Seq<u8> {
    seq![67u8, 104, 97, 110, 86, 97, 114, 105, 97, 98, 108, 101, 40] + encode_utf8(n) + seq![41u8, 58u8, 32u8] + encode_utf8(v) + crlf()
}

pub open spec fn header_lines(h: Seq<(Seq<char>, Seq<char>)>) -> Seq<u8>
    decreases h.len(),
{
    if h.len() == 0 {
        Seq::empty()
    } else {
        header_lines(h.drop_last()) + header_line(h.last().0, h.last().1)
    }
}

pub open spec fn variable_lines(h: Seq<(Seq<char>, Seq<char>)>) -> Seq<u8>
    decreases h.len(),
{
    if h.len() == 0 {
        Seq::empty()
    } else {
        variable_lines(h.drop_last()) + variable_line(h.last().0, h.last().1)
    }
}

/// The bytes written for a message: its headers, its channel variables, and
/// the blank line that ends it.
pub open spec fn frame_bytes(m: RawView) -> Seq<u8> {
    header_lines(m.headers) + variable_lines(m.variables) + crlf()
}

fn push_bytes(out: &mut Vec<u8>, s: &String)
    ensures
        final(out)@ == old(out)@ + encode_utf8(s@),
{
    let b = s.as_str().as_bytes();
    out.extend_from_slice(b);
}

impl AmiCodec {
    /// Writes `item` to `dst` after validating it; nothing is written when
    /// validation fails.
    pub fn encode(&mut self, item: RawAmiMessage, dst: &mut BytesMut) -> (r: Result<(), AmiError>)
        ensures
            final(self).banner_consumed == old(self).banner_consumed,
            match outbound_fault(item@) {
                None => r is Ok && buf_contents(*final(dst)) == buf_contents(*old(dst)) + frame_bytes(item@),
                Some(f) => r matches Err(e) && e.malformed_details() == Some(outbound_details(f))
                    && buf_contents(*final(dst)) == buf_contents(*old(dst)),
            },
    {
        if let Err(e) = Self::validate_outbound(&item) {
            return Err(e);
        }
        let ghost hv = pairs_view(item.headers@);
        let ghost vv = pairs_view(item.channel_variables@);
        let mut frame: Vec<u8> = Vec::new();
        let mut i: usize = 0;
        while i < item.headers.len()
            invariant
                hv == pairs_view(item.headers@),
                0 <= i <= item.headers@.len(),
                frame@ == header_lines(hv.subrange(0, i as int)),
            decreases item.headers@.len() - i,
        {
            assert(hv.subrange(0, i + 1).drop_last() =~= hv.subrange(0, i as int));
            push_bytes(&mut frame, &item.headers[i].0);
            frame.push(58);
            frame.push(32);
            push_bytes(&mut frame, &item.headers[i].1);
            frame.push(13);
            frame.push(10);
            assert(frame@ =~= header_lines(hv.subrange(0, i + 1)));
            i = i + 1;
        }
        assert(hv.subrange(0, item.headers@.len() as int) =~= hv);
        let ghost after_headers = frame@;
        let mut j: usize = 0;
        while j < item.channel_variables.len()
            invariant
                vv == pairs_view(item.channel_variables@),
                0 <= j <= item.channel_variables@.len(),
                frame@ == after_headers + variable_lines(vv.subrange(0, j as int)),
            decreases item.channel_variables@.len() - j,
        {
            assert(vv.subrange(0, j + 1).drop_last() =~= vv.subrange(0, j as int));
            let pre: [u8; 13] = [67, 104, 97, 110, 86, 97, 114, 105, 97, 98, 108, 101, 40];
            frame.extend_from_slice(pre.as_slice());
            push_bytes(&mut frame, &item.channel_variables[j].0);
            frame.push(41);
            frame.push(58);
            frame.push(32);
            push_bytes(&mut frame, &item.channel_variables[j].1);
            frame.push(13);
            frame.push(10);
            assert(frame@ =~= after_headers + variable_lines(vv.subrange(0, j + 1)));
            j = j + 1;
        }
        assert(vv.subrange(0, item.channel_variables@.len() as int) =~= vv);
        frame.push(13);
        frame.push(10);
        assert(frame@ =~= frame_bytes(item@));
        buf_extend(dst, frame.as_slice());
        Ok(())
    }
}

} // verus!
