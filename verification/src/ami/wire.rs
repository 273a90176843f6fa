//! Byte-level grammar of an AMI frame: line splitting, header lines,
//! `Response: Follows` output capture and frame boundaries.
use vstd::prelude::*;
use crate::text::{
    eq_ic_bytes, bytes_eq_ignore_case, trim_bytes, trim_range, find_sub, match_at, first_match,
};
use crate::ami::codec::vinsert;

verus! {

/// Maximum size of a single AMI message (64 KiB).
pub const MAX_MESSAGE_SIZE: usize = 65536;

/// Maximum number of headers in a single AMI message.
pub const MAX_HEADERS: usize = 512;

pub open spec fn crlf() -> Seq<u8> {
    seq![13u8, 10u8]
}

pub open spec fn crlf2() -> Seq<u8> {
    seq![13u8, 10u8, 13u8, 10u8]
}

/// `Asterisk Call Manager`
pub open spec fn banner_prefix() -> Seq<u8> {
    seq![65u8, 115, 116, 101, 114, 105, 115, 107, 32, 67, 97, 108, 108, 32, 77, 97, 110, 97, 103, 101, 114]
}

/// `--END COMMAND--`
pub open spec fn end_marker() -> Seq<u8> {
    seq![45u8, 45, 69, 78, 68, 32, 67, 79, 77, 77, 65, 78, 68, 45, 45]
}

/// `\r\n--END COMMAND--\r\n\r\n`
pub open spec fn end_sequence() -> Seq<u8> {
    seq![13u8, 10, 45, 45, 69, 78, 68, 32, 67, 79, 77, 77, 65, 78, 68, 45, 45, 13, 10, 13, 10]
}

pub open spec fn kw_output() -> Seq<u8> {
    seq![79u8, 117, 116, 112, 117, 116]
}

pub open spec fn kw_response() -> Seq<u8> {
    seq![82u8, 101, 115, 112, 111, 110, 115, 101]
}

pub open spec fn kw_follows() -> Seq<u8> {
    seq![102u8, 111, 108, 108, 111, 119, 115]
}

/// The keys that may stand in the envelope of a `Response: Follows` frame.
pub open spec fn envelope_keys() -> Seq<Seq<u8>> {
    seq![
        kw_response(),
        seq![65u8, 99, 116, 105, 111, 110, 73, 68],
        seq![80u8, 114, 105, 118, 105, 108, 101, 103, 101],
        seq![77u8, 101, 115, 115, 97, 103, 101],
        seq![69u8, 118, 101, 110, 116, 76, 105, 115, 116],
        seq![84u8, 105, 109, 101, 115, 116, 97, 109, 112],
        seq![83u8, 101, 114, 118, 101, 114],
    ]
}

/// `ChanVariable(`
pub open spec fn chanvar_prefix() -> Seq<char> {
    seq!['C', 'h', 'a', 'n', 'V', 'a', 'r', 'i', 'a', 'b', 'l', 'e', '(']
}

/// Characters produced by `String::from_utf8_lossy` for a byte string that
/// is not valid UTF-8 (each invalid sequence becomes U+FFFD).
pub uninterp spec fn utf8_lossy(b: Seq<u8>) -> Seq<char>;

/// The characters `String::from_utf8_lossy` produces: the decoded text of
/// valid UTF-8, and `utf8_lossy` of anything else.
pub open spec fn lossy_text(b: Seq<u8>) -> Seq<char> {
    if vstd::utf8::valid_utf8(b) {
        vstd::utf8::decode_utf8(b)
    } else {
        utf8_lossy(b)
    }
}

/// `String::from_utf8_lossy(bytes).into_owned()`. Valid UTF-8 input decodes
/// to its characters (as the function's documentation states); what invalid
/// input gives is left to the name `utf8_lossy`.
#[verifier::external_body]
pub(crate) fn lossy_string(b: &[u8]) -> (r: String)
    ensures
        vstd::utf8::valid_utf8(b@) ==> r@ == vstd::utf8::decode_utf8(b@),
        !vstd::utf8::valid_utf8(b@) ==> r@ == utf8_lossy(b@),
{
    String::from_utf8_lossy(b).into_owned()
}

// ---------------------------------------------------------------------------
// searching
// ---------------------------------------------------------------------------

/// Index of the first `x` in `s`.
pub open spec fn idx_of(s: Seq<u8>, x: u8) -> Option<int>
    decreases s.len(),
{
    if s.len() == 0 {
        None
    } else if s[0] == x {
        Some(0)
    } else {
        match idx_of(s.drop_first(), x) {
            Some(i) => Some(i + 1),
            None => None,
        }
    }
}

pub proof fn lemma_idx_of(s: Seq<u8>, x: u8, k: int)
    requires
        0 <= k <= s.len(),
        forall|j: int| 0 <= j < k ==> #[trigger] s[j] != x,
        k < s.len() ==> s[k] == x,
    ensures
        idx_of(s, x) == (if k < s.len() { Some(k) } else { None::<int> }),
    decreases s.len(),
{
    if s.len() > 0 && k > 0 {
        assert forall|j: int| 0 <= j < k - 1 implies #[trigger] s.drop_first()[j] != x by {
            assert(s.drop_first()[j] == s[j + 1]);
        }
        lemma_idx_of(s.drop_first(), x, k - 1);
    }
}

pub proof fn lemma_idx_of_bound(s: Seq<u8>, x: u8)
    ensures
        match idx_of(s, x) {
            Some(i) => 0 <= i < s.len() && s[i] == x && forall|j: int| 0 <= j < i ==> #[trigger] s[j] != x,
            None => forall|j: int| 0 <= j < s.len() ==> #[trigger] s[j] != x,
        },
    decreases s.len(),
{
    if s.len() > 0 && s[0] != x {
        lemma_idx_of_bound(s.drop_first(), x);
        assert forall|j: int| 1 <= j < s.len() implies #[trigger] s[j] == s.drop_first()[j - 1] by {}
    }
}

/// First `x` in `s[from..to]`, as an absolute index.
pub fn find_byte(s: &[u8], from: usize, to: usize, x: u8) -> (r: Option<usize>)
    requires
        from <= to <= s@.len(),
    ensures
        match idx_of(s@.subrange(from as int, to as int), x) {
            Some(i) => r matches Some(k) && k == from + i,
            None => r is None,
        },
        r matches Some(k) ==> from <= k < to,
{
    let ghost t = s@.subrange(from as int, to as int);
    let mut i: usize = from;
    while i < to
        invariant
            from <= i <= to <= s@.len(),
            t == s@.subrange(from as int, to as int),
            forall|j: int| from <= j < i ==> #[trigger] s@[j] != x,
        decreases to - i,
    {
        if s[i] == x {
            proof {
                assert forall|j: int| 0 <= j < i - from implies #[trigger] t[j] != x by {
                    assert(t[j] == s@[from + j]);
                }
                lemma_idx_of(t, x, i - from);
            }
            return Some(i);
        }
        i = i + 1;
    }
    proof {
        assert forall|j: int| 0 <= j < t.len() implies #[trigger] t[j] != x by {
            assert(t[j] == s@[from + j]);
        }
        lemma_idx_of(t, x, t.len() as int);
    }
    None
}

/// End of the line that starts at `p`: the next line feed, or the end.
pub open spec fn line_end(s: Seq<u8>, p: int) -> int {
    match idx_of(s.subrange(p, s.len() as int), 10) {
        Some(i) => p + i,
        None => s.len() as int,
    }
}

pub proof fn lemma_line_end(s: Seq<u8>, p: int)
    requires
        0 <= p <= s.len(),
    ensures
        p <= line_end(s, p) <= s.len(),
        line_end(s, p) < s.len() ==> s[line_end(s, p)] == 10,
{
    let t = s.subrange(p, s.len() as int);
    lemma_idx_of_bound(t, 10);
    if let Some(i) = idx_of(t, 10) {
        assert(t[i] == s[p + i]);
    }
}

/// A line without its trailing carriage return.
pub open spec fn strip_cr(line: Seq<u8>) -> Seq<u8> {
    if line.len() > 0 && line.last() == 13 {
        line.drop_last()
    } else {
        line
    }
}

/// Strips one leading space.
pub open spec fn strip_space(v: Seq<u8>) -> Seq<u8> {
    if v.len() > 0 && v[0] == 32 {
        v.drop_first()
    } else {
        v
    }
}

/// The line declares `Response: Follows` (one optional space after the colon).
pub open spec fn is_follows_line(line: Seq<u8>) -> bool {
    let l = strip_cr(line);
    match idx_of(l, 58) {
        Some(c) => eq_ic_bytes(l.subrange(0, c), kw_response())
            && eq_ic_bytes(strip_space(l.subrange(c + 1, l.len() as int)), kw_follows()),
        None => false,
    }
}

/// Some line of `s`, from position `p` on, declares `Response: Follows`.
pub open spec fn follows_from(s: Seq<u8>, p: int) -> bool
    decreases s.len() - p + 1,
{
    if 0 <= p <= s.len() {
        let e = line_end(s, p);
        proof {
            lemma_line_end(s, p);
        }
        if is_follows_line(s.subrange(p, e)) {
            true
        } else if e < s.len() {
            follows_from(s, e + 1)
        } else {
            false
        }
    } else {
        false
    }
}

// ---------------------------------------------------------------------------
// message body grammar
// ---------------------------------------------------------------------------

/// Value of an `Output:` line (one optional space after the colon).
pub open spec fn output_value(line: Seq<u8>) -> Option<Seq<u8>> {
    match idx_of(line, 58) {
        Some(c) => if eq_ic_bytes(trim_bytes(line.subrange(0, c)), kw_output()) {
            Some(strip_space(line.subrange(c + 1, line.len() as int)))
        } else {
            None
        },
        None => None,
    }
}

/// Key of an envelope header of a `Response: Follows` frame.
pub open spec fn is_envelope_key(k: Seq<u8>) -> bool {
    exists|i: int| 0 <= i < envelope_keys().len() && eq_ic_bytes(k, #[trigger] envelope_keys()[i])
}

/// Name inside `ChanVariable(name)`.
pub open spec fn chanvar_name(key: Seq<char>) -> Option<Seq<char>> {
    if key.len() >= 14 && key.subrange(0, 13) == chanvar_prefix() && key.last() == ')' {
        Some(key.subrange(13, key.len() - 1))
    } else {
        None
    }
}

/// Message under construction.
pub struct BodyState {
    pub headers: Seq<(Seq<char>, Seq<char>)>,
    pub output: Seq<Seq<char>>,
    pub variables: Seq<(Seq<char>, Seq<char>)>,
    pub started: bool,
}

pub enum LineStep {
    Next(BodyState),
    Stop(BodyState),
    TooManyHeaders,
}

pub open spec fn with_output(st: BodyState, line: Seq<char>, started: bool) -> BodyState {
    BodyState { output: st.output.push(line), started, ..st }
}

/// What one line (carriage return already stripped) does to the message.
pub open spec fn body_step(line: Seq<u8>, follows: bool, st: BodyState) -> LineStep {
    if follows && line == end_marker() {
        LineStep::Stop(st)
    } else if follows && output_value(line) is Some {
        LineStep::Next(with_output(st, lossy_text(output_value(line)->0), true))
    } else if follows && st.started {
        LineStep::Next(with_output(st, lossy_text(line), true))
    } else if line.len() == 0 {
        if follows && st.headers.len() > 0 {
            LineStep::Next(with_output(st, Seq::empty(), true))
        } else {
            LineStep::Next(st)
        }
    } else {
        match idx_of(line, 58) {
            None => LineStep::Next(with_output(st, lossy_text(line), st.started || follows)),
            Some(c) => {
                let kb = trim_bytes(line.subrange(0, c));
                if follows && !is_envelope_key(kb) {
                    LineStep::Next(with_output(st, lossy_text(line), true))
                } else if st.headers.len() + st.variables.len() >= MAX_HEADERS {
                    LineStep::TooManyHeaders
                } else {
                    let key = lossy_text(kb);
                    let value = lossy_text(trim_bytes(line.subrange(c + 1, line.len() as int)));
                    match chanvar_name(key) {
                        Some(name) => LineStep::Next(
                            BodyState { variables: vinsert(st.variables, name, value), ..st },
                        ),
                        None => LineStep::Next(
                            BodyState { headers: st.headers.push((key, value)), ..st },
                        ),
                    }
                }
            },
        }
    }
}

/// The lines of `s` from position `p` on, folded into `st`; `None` when the
/// header limit is exceeded.
pub open spec fn body_from(s: Seq<u8>, p: int, follows: bool, st: BodyState) -> Option<BodyState>
    decreases s.len() - p + 1,
{
    if 0 <= p <= s.len() {
        let e = line_end(s, p);
        proof {
            lemma_line_end(s, p);
        }
        match body_step(strip_cr(s.subrange(p, e)), follows, st) {
            LineStep::TooManyHeaders => None,
            LineStep::Stop(st2) => Some(st2),
            LineStep::Next(st2) => if e < s.len() {
                body_from(s, e + 1, follows, st2)
            } else {
                Some(st2)
            },
        }
    } else {
        Some(st)
    }
}

pub open spec fn empty_body() -> BodyState {
    BodyState { headers: Seq::empty(), output: Seq::empty(), variables: Seq::empty(), started: false }
}

/// `parse_message`: the message that a complete frame holds.
pub open spec fn parse_body(s: Seq<u8>, follows: bool) -> Option<BodyState> {
    body_from(s, 0, follows, empty_body())
}

// ---------------------------------------------------------------------------
// framing
// ---------------------------------------------------------------------------

/// Where the first frame of a buffer ends.
pub enum FrameCut {
    Incomplete,
    Frame { end: int, follows: bool },
}

pub open spec fn frame_cut(buf: Seq<u8>) -> FrameCut {
    match find_sub(buf, crlf2()) {
        None => FrameCut::Incomplete,
        Some(b) => if follows_from(buf.subrange(0, b), 0) {
            match find_sub(buf, end_sequence()) {
                Some(m) => FrameCut::Frame { end: m + 21, follows: true },
                None => FrameCut::Incomplete,
            }
        } else {
            FrameCut::Frame { end: b + 4, follows: false }
        },
    }
}

pub proof fn lemma_find_sub_bound(hay: Seq<u8>, needle: Seq<u8>)
    ensures
        find_sub(hay, needle) matches Some(i) ==> first_match(hay, needle, i)
            && 0 <= i && i + needle.len() <= hay.len(),
{
    if exists|i: int| #[trigger] first_match(hay, needle, i) {
        let c = choose|i: int| #[trigger] first_match(hay, needle, i);
        assert(match_at(hay, needle, c));
    }
}

pub proof fn lemma_frame_cut_bound(buf: Seq<u8>)
    ensures
        frame_cut(buf) matches FrameCut::Frame { end, .. } ==> 4 <= end <= buf.len(),
{
    lemma_find_sub_bound(buf, crlf2());
    lemma_find_sub_bound(buf, end_sequence());
}

/// Why a buffer cannot be decoded.
pub enum DecodeFault {
    /// the first line is not an AMI banner
    Banner { line: Seq<u8> },
    /// a message, or the pending incomplete data, exceeds 64 KiB
    TooLarge,
    /// a message holds more than 512 headers
    TooManyHeaders,
}

/// The outcome of decoding: the bytes left in the buffer and the message.
pub struct Decoded {
    pub rest: Seq<u8>,
    pub result: Result<Option<BodyState>, DecodeFault>,
}

/// Frames of `buf`, skipping those without headers, up to the first message.
pub open spec fn decode_frames(buf: Seq<u8>) -> Decoded
    decreases buf.len(),
{
    proof {
        lemma_frame_cut_bound(buf);
    }
    match frame_cut(buf) {
        FrameCut::Incomplete => Decoded {
            rest: buf,
            result: if buf.len() > MAX_MESSAGE_SIZE { Err(DecodeFault::TooLarge) } else { Ok(None) },
        },
        FrameCut::Frame { end, follows } => if end > MAX_MESSAGE_SIZE {
            Decoded { rest: buf, result: Err(DecodeFault::TooLarge) }
        } else {
            match parse_body(buf.subrange(0, end), follows) {
                None => Decoded { rest: buf, result: Err(DecodeFault::TooManyHeaders) },
                Some(st) => if st.headers.len() == 0 {
                    decode_frames(buf.subrange(end, buf.len() as int))
                } else {
                    Decoded { rest: buf.subrange(end, buf.len() as int), result: Ok(Some(st)) }
                },
            }
        },
    }
}

/// Decoding frames never reports a banner fault.
pub proof fn lemma_frames_no_banner(buf: Seq<u8>)
    ensures
        !(decode_frames(buf).result matches Err(DecodeFault::Banner { .. })),
    decreases buf.len(),
{
    lemma_frame_cut_bound(buf);
    if let FrameCut::Frame { end, follows } = frame_cut(buf) {
        if end <= MAX_MESSAGE_SIZE {
            if let Some(st) = parse_body(buf.subrange(0, end), follows) {
                if st.headers.len() == 0 {
                    lemma_frames_no_banner(buf.subrange(end, buf.len() as int));
                }
            }
        }
    }
}

/// Banner handling and then the frames: whether the banner has now been
/// consumed, and the outcome.
pub open spec fn decode_spec(banner_consumed: bool, buf: Seq<u8>) -> (bool, Decoded) {
    if banner_consumed {
        (true, decode_frames(buf))
    } else {
        match find_sub(buf, crlf()) {
            None => (false, Decoded {
                rest: buf,
                result: if buf.len() > MAX_MESSAGE_SIZE { Err(DecodeFault::TooLarge) } else { Ok(None) },
            }),
            Some(p) => {
                let line = buf.subrange(0, p);
                if line.len() >= 21 && line.subrange(0, 21) == banner_prefix() {
                    (true, decode_frames(buf.subrange(p + 2, buf.len() as int)))
                } else {
                    (false, Decoded { rest: buf, result: Err(DecodeFault::Banner { line }) })
                }
            },
        }
    }
}


// ---------------------------------------------------------------------------
// executable grammar
// ---------------------------------------------------------------------------

/// `String::from_utf8_lossy(&s[a..b])`
pub fn lossy_range(s: &[u8], a: usize, b: usize) -> (r: String)
    requires
        a <= b <= s@.len(),
    ensures
        r@ == lossy_text(s@.subrange(a as int, b as int)),
{
    let sub = &s[a..b];
    assert(sub@ =~= s@.subrange(a as int, b as int));
    lossy_string(sub)
}

/// `s[a..b] == t`
pub fn range_eq(s: &[u8], a: usize, b: usize, t: &[u8]) -> (r: bool)
    requires
        a <= b <= s@.len(),
    ensures
        r == (s@.subrange(a as int, b as int) == t@),
{
    if b - a != t.len() {
        return false;
    }
    let mut i: usize = 0;
    while i < t.len()
        invariant
            a <= b <= s@.len(),
            b - a == t@.len(),
            0 <= i <= t@.len(),
            forall|j: int| 0 <= j < i ==> #[trigger] s@[a + j] == t@[j],
        decreases t@.len() - i,
    {
        if s[a + i] != t[i] {
            proof {
                assert(s@.subrange(a as int, b as int)[i as int] == s@[a + i]);
            }
            return false;
        }
        i = i + 1;
    }
    proof {
        assert forall|j: int| 0 <= j < t@.len() implies #[trigger] s@.subrange(a as int, b as int)[j] == t@[j] by {
            assert(s@[a + j] == t@[j]);
        }
        assert(s@.subrange(a as int, b as int) =~= t@);
    }
    true
}

/// `s[a..b]` equals `t` up to ASCII case.
pub fn range_eq_ic(s: &[u8], a: usize, b: usize, t: &[u8]) -> (r: bool)
    requires
        a <= b <= s@.len(),
    ensures
        r == eq_ic_bytes(s@.subrange(a as int, b as int), t@),
{
    let sub = &s[a..b];
    assert(sub@ =~= s@.subrange(a as int, b as int));
    bytes_eq_ignore_case(sub, t)
}

/// End of the carriage-return-stripped line `s[a..e]`.
fn strip_cr_end(s: &[u8], a: usize, e: usize) -> (r: usize)
    requires
        a <= e <= s@.len(),
    ensures
        a <= r <= e,
        s@.subrange(a as int, r as int) == strip_cr(s@.subrange(a as int, e as int)),
{
    if e > a && s[e - 1] == 13 {
        assert(s@.subrange(a as int, e as int).drop_last() =~= s@.subrange(a as int, e - 1));
        e - 1
    } else {
        e
    }
}

/// Start of `strip_space(s[a..b])`.
fn strip_space_start(s: &[u8], a: usize, b: usize) -> (r: usize)
    requires
        a <= b <= s@.len(),
    ensures
        a <= r <= b,
        s@.subrange(r as int, b as int) == strip_space(s@.subrange(a as int, b as int)),
{
    if b > a && s[a] == 32 {
        assert(s@.subrange(a as int, b as int).drop_first() =~= s@.subrange(a + 1, b as int));
        a + 1
    } else {
        a
    }
}

proof fn lemma_sub_sub(s: Seq<u8>, a: int, b: int, c: int, d: int)
    requires
        0 <= a <= b <= s.len(),
        0 <= c <= d <= b - a,
    ensures
        s.subrange(a, b).subrange(c, d) == s.subrange(a + c, a + d),
{
    assert(s.subrange(a, b).subrange(c, d) =~= s.subrange(a + c, a + d));
}

/// `output_value(s[a..b])` as a range of `s`.
fn output_value_exec(s: &[u8], a: usize, b: usize) -> (r: Option<(usize, usize)>)
    requires
        a <= b <= s@.len(),
    ensures
        match output_value(s@.subrange(a as int, b as int)) {
            Some(v) => r matches Some((x, y)) && a <= x <= y <= b && s@.subrange(x as int, y as int) == v,
            None => r is None,
        },
{
    let ghost line = s@.subrange(a as int, b as int);
    match find_byte(s, a, b, 58) {
        None => {
            assert(idx_of(line, 58) is None);
            None
        },
        Some(c) => {
            assert(idx_of(line, 58) == Some(c - a));
            let (ka, kb) = trim_range(s, a, c);
            proof {
                lemma_sub_sub(s@, a as int, b as int, 0, c - a);
                assert(line.subrange(0, c - a) == s@.subrange(a as int, c as int));
            }
            let kw: [u8; 6] = [79, 117, 116, 112, 117, 116];
            assert(kw@ == kw_output());
            if range_eq_ic(s, ka, kb, kw.as_slice()) {
                let x = strip_space_start(s, c + 1, b);
                proof {
                    lemma_sub_sub(s@, a as int, b as int, c + 1 - a, b - a);
                    assert(line.subrange(c + 1 - a, line.len() as int) == s@.subrange(c + 1, b as int));
                }
                Some((x, b))
            } else {
                None
            }
        },
    }
}

/// Whether `s[a..b]` is an envelope key of a `Response: Follows` frame.
fn is_envelope_exec(s: &[u8], a: usize, b: usize) -> (r: bool)
    requires
        a <= b <= s@.len(),
    ensures
        r == is_envelope_key(s@.subrange(a as int, b as int)),
{
    let ghost k = s@.subrange(a as int, b as int);
    let k0: [u8; 8] = [82, 101, 115, 112, 111, 110, 115, 101];
    let k1: [u8; 8] = [65, 99, 116, 105, 111, 110, 73, 68];
    let k2: [u8; 9] = [80, 114, 105, 118, 105, 108, 101, 103, 101];
    let k3: [u8; 7] = [77, 101, 115, 115, 97, 103, 101];
    let k4: [u8; 9] = [69, 118, 101, 110, 116, 76, 105, 115, 116];
    let k5: [u8; 9] = [84, 105, 109, 101, 115, 116, 97, 109, 112];
    let k6: [u8; 6] = [83, 101, 114, 118, 101, 114];
    let ghost keys = envelope_keys();
    assert(k0@ == keys[0] && k1@ == keys[1] && k2@ == keys[2] && k3@ == keys[3]);
    assert(k4@ == keys[4] && k5@ == keys[5] && k6@ == keys[6]);
    let r = range_eq_ic(s, a, b, k0.as_slice()) || range_eq_ic(s, a, b, k1.as_slice())
        || range_eq_ic(s, a, b, k2.as_slice()) || range_eq_ic(s, a, b, k3.as_slice())
        || range_eq_ic(s, a, b, k4.as_slice()) || range_eq_ic(s, a, b, k5.as_slice())
        || range_eq_ic(s, a, b, k6.as_slice());
    proof {
        if r {
            if eq_ic_bytes(k, keys[0]) { assert(eq_ic_bytes(k, keys[0])); }
        } else {
            assert forall|i: int| 0 <= i < keys.len() implies !eq_ic_bytes(k, #[trigger] keys[i]) by {
                assert(i == 0 || i == 1 || i == 2 || i == 3 || i == 4 || i == 5 || i == 6);
            }
        }
    }
    r
}

/// `chanvar_name` of a key.
pub fn chanvar_name_exec(key: &String) -> (r: Option<String>)
    ensures
        match chanvar_name(key@) {
            Some(n) => r matches Some(x) && x@ == n,
            None => r is None,
        },
{
    let k = key.as_str();
    let n = k.unicode_len();
    if n < 14 {
        return None;
    }
    let pre: [char; 13] = ['C', 'h', 'a', 'n', 'V', 'a', 'r', 'i', 'a', 'b', 'l', 'e', '('];
    assert(pre@ == chanvar_prefix());
    let mut i: usize = 0;
    while i < 13
        invariant
            n == k@.len(),
            n >= 14,
            k@ == key@,
            pre@ == chanvar_prefix(),
            0 <= i <= 13,
            forall|j: int| 0 <= j < i ==> #[trigger] k@[j] == pre@[j],
        decreases 13 - i,
    {
        if k.get_char(i) != pre[i] {
            proof {
                assert(k@.subrange(0, 13)[i as int] == k@[i as int]);
            }
            return None;
        }
        i = i + 1;
    }
    assert(k@.subrange(0, 13) =~= chanvar_prefix());
    if k.get_char(n - 1) != ')' {
        return None;
    }
    let name = k.substring_char(13, n - 1);
    Some(name.to_owned())
}

/// A message under construction.
pub struct Body {
    pub headers: Vec<(String, String)>,
    pub output: Vec<String>,
    pub variables: Vec<(String, String)>,
    pub started: bool,
}

impl Body {
    pub open spec fn state(&self) -> BodyState {
        BodyState {
            headers: crate::ami::codec::pairs_view(self.headers@),
            output: crate::ami::codec::strings_view(self.output@),
            variables: crate::ami::codec::pairs_view(self.variables@),
            started: self.started,
        }
    }
}

fn push_output(body: &mut Body, line: String, started: bool)
    ensures
        final(body).state() == with_output(old(body).state(), line@, started),
{
    body.output.push(line);
    body.started = started;
    assert(crate::ami::codec::strings_view(body.output@) =~= crate::ami::codec::strings_view(old(body).output@).push(line@));
}

/// One line `s[a..b]` of a frame applied to `body`: 0 continue, 1 stop,
/// 2 header limit exceeded.
fn body_step_exec(body: &mut Body, s: &[u8], a: usize, b: usize, follows: bool) -> (r: u8)
    requires
        a <= b <= s@.len(),
    ensures
        match body_step(s@.subrange(a as int, b as int), follows, old(body).state()) {
            LineStep::Next(st) => r == 0 && final(body).state() == st,
            LineStep::Stop(st) => r == 1 && final(body).state() == st,
            LineStep::TooManyHeaders => r == 2,
        },
{
    let ghost line = s@.subrange(a as int, b as int);
    let em: [u8; 15] = [45, 45, 69, 78, 68, 32, 67, 79, 77, 77, 65, 78, 68, 45, 45];
    assert(em@ == end_marker());
    if follows && range_eq(s, a, b, em.as_slice()) {
        return 1;
    }
    if follows {
        if let Some((x, y)) = output_value_exec(s, a, b) {
            let v = lossy_range(s, x, y);
            push_output(body, v, true);
            return 0;
        }
    }
    let ghost st0 = body.state();
    if follows && body.started {
        let v = lossy_range(s, a, b);
        push_output(body, v, true);
        return 0;
    }
    if a == b {
        assert(line.len() == 0);
        if follows && body.headers.len() > 0 {
            push_output(body, String::new(), true);
        }
        return 0;
    }
    match find_byte(s, a, b, 58) {
        None => {
            let v = lossy_range(s, a, b);
            let started = body.started || follows;
            push_output(body, v, started);
            0
        },
        Some(c) => {
            assert(idx_of(line, 58) == Some(c - a));
            let (ka, kb) = trim_range(s, a, c);
            proof {
                lemma_sub_sub(s@, a as int, b as int, 0, c - a);
                assert(line.subrange(0, c - a) == s@.subrange(a as int, c as int));
            }
            if follows && !is_envelope_exec(s, ka, kb) {
                let v = lossy_range(s, a, b);
                push_output(body, v, true);
                return 0;
            }
            if body.headers.len() >= MAX_HEADERS || body.variables.len() >= MAX_HEADERS - body.headers.len() {
                return 2;
            }
            let (va, vb) = trim_range(s, c + 1, b);
            proof {
                lemma_sub_sub(s@, a as int, b as int, c + 1 - a, b - a);
                assert(line.subrange(c + 1 - a, line.len() as int) == s@.subrange(c + 1, b as int));
            }
            let key = lossy_range(s, ka, kb);
            let value = lossy_range(s, va, vb);
            match chanvar_name_exec(&key) {
                Some(name) => {
                    crate::ami::codec::insert_variable(&mut body.variables, name, value);
                },
                None => {
                    let ghost hv = (key@, value@);
                    body.headers.push((key, value));
                    assert(crate::ami::codec::pairs_view(body.headers@) =~= crate::ami::codec::pairs_view(old(body).headers@).push(hv));
                },
            }
            0
        },
    }
}

/// `parse_message`: the message held by the complete frame `s`.
pub fn parse_message(s: &[u8], follows: bool) -> (r: Option<Body>)
    ensures
        match parse_body(s@, follows) {
            Some(st) => r matches Some(b) && b.state() == st,
            None => r is None,
        },
{
    let mut body = Body { headers: Vec::new(), output: Vec::new(), variables: Vec::new(), started: false };
    assert(body.state() =~= empty_body()) by {
        assert(crate::ami::codec::pairs_view(body.headers@) =~= Seq::empty());
        assert(crate::ami::codec::strings_view(body.output@) =~= Seq::empty());
        assert(crate::ami::codec::pairs_view(body.variables@) =~= Seq::empty());
    }
    let mut p: usize = 0;
    loop
        invariant
            0 <= p <= s@.len(),
            parse_body(s@, follows) == body_from(s@, p as int, follows, body.state()),
        decreases s@.len() - p,
    {
        proof {
            lemma_line_end(s@, p as int);
        }
        let e = match find_byte(s, p, s.len(), 10) {
            Some(k) => k,
            None => s.len(),
        };
        assert(e == line_end(s@, p as int));
        let le = strip_cr_end(s, p, e);
        let step = body_step_exec(&mut body, s, p, le, follows);
        if step == 2 {
            return None;
        }
        if step == 1 || e >= s.len() {
            return Some(body);
        }
        p = e + 1;
    }
}


/// `is_follows_line` of the line `s[a..e]` (carriage return not yet stripped).
fn is_follows_line_exec(s: &[u8], a: usize, e: usize) -> (r: bool)
    requires
        a <= e <= s@.len(),
    ensures
        r == is_follows_line(s@.subrange(a as int, e as int)),
{
    let le = strip_cr_end(s, a, e);
    let ghost l = s@.subrange(a as int, le as int);
    match find_byte(s, a, le, 58) {
        None => {
            assert(idx_of(l, 58) is None);
            false
        },
        Some(c) => {
            assert(idx_of(l, 58) == Some(c - a));
            proof {
                lemma_sub_sub(s@, a as int, le as int, 0, c - a);
                lemma_sub_sub(s@, a as int, le as int, c + 1 - a, le - a);
                assert(l.subrange(0, c - a) == s@.subrange(a as int, c as int));
                assert(l.subrange(c + 1 - a, l.len() as int) == s@.subrange(c + 1, le as int));
            }
            let kr: [u8; 8] = [82, 101, 115, 112, 111, 110, 115, 101];
            let kf: [u8; 7] = [102, 111, 108, 108, 111, 119, 115];
            assert(kr@ == kw_response() && kf@ == kw_follows());
            if !range_eq_ic(s, a, c, kr.as_slice()) {
                return false;
            }
            let x = strip_space_start(s, c + 1, le);
            range_eq_ic(s, x, le, kf.as_slice())
        },
    }
}

/// `is_follows_response`: some line of `s` declares `Response: Follows`.
pub fn is_follows_response(s: &[u8]) -> (r: bool)
    ensures
        r == follows_from(s@, 0),
{
    let mut p: usize = 0;
    loop
        invariant
            0 <= p <= s@.len(),
            follows_from(s@, 0) == follows_from(s@, p as int),
        decreases s@.len() - p,
    {
        proof {
            lemma_line_end(s@, p as int);
        }
        let e = match find_byte(s, p, s.len(), 10) {
            Some(k) => k,
            None => s.len(),
        };
        assert(e == line_end(s@, p as int));
        if is_follows_line_exec(s, p, e) {
            return true;
        }
        if e >= s.len() {
            return false;
        }
        p = e + 1;
    }
}

/// `frame_cut` of `buf`: `Some((end, follows))` for a complete frame.
pub fn frame_cut_exec(buf: &[u8]) -> (r: Option<(usize, bool)>)
    ensures
        match frame_cut(buf@) {
            FrameCut::Incomplete => r is None,
            FrameCut::Frame { end, follows } => r == Some((end as usize, follows)) && end <= buf@.len(),
        },
{
    proof {
        lemma_frame_cut_bound(buf@);
    }
    let total = buf.len();
    let c2: [u8; 4] = [13, 10, 13, 10];
    assert(c2@ == crlf2());
    match crate::text::find_sub_exec(buf, c2.as_slice()) {
        None => None,
        Some(b) => {
            proof {
                lemma_find_sub_bound(buf@, crlf2());
            }
            let head = &buf[0..b];
            assert(head@ =~= buf@.subrange(0, b as int));
            if is_follows_response(head) {
                let es: [u8; 21] = [13, 10, 45, 45, 69, 78, 68, 32, 67, 79, 77, 77, 65, 78, 68, 45, 45, 13, 10, 13, 10];
                assert(es@ == end_sequence());
                match crate::text::find_sub_exec(buf, es.as_slice()) {
                    Some(m) => {
                        proof {
                            lemma_find_sub_bound(buf@, end_sequence());
                        }
                        Some((m + 21, true))
                    },
                    None => None,
                }
            } else {
                Some((b + 4, false))
            }
        },
    }
}

/// The frames of `buf[start..]`: the position of what is left, and the
/// first message with headers or the fault.
pub fn decode_frames_exec(buf: &[u8], start: usize) -> (r: (usize, Result<Option<Body>, DecodeFault>))
    requires
        start <= buf@.len(),
    ensures
        start <= r.0 <= buf@.len(),
        decode_frames(buf@.subrange(start as int, buf@.len() as int)).rest == buf@.subrange(r.0 as int, buf@.len() as int),
        match decode_frames(buf@.subrange(start as int, buf@.len() as int)).result {
            Ok(None) => r.1 matches Ok(None),
            Ok(Some(st)) => r.1 matches Ok(Some(b)) && b.state() == st,
            Err(f) => r.1 == Err::<Option<Body>, DecodeFault>(f),
        },
{
    let mut pos: usize = start;
    loop
        invariant
            start <= pos <= buf@.len(),
            decode_frames(buf@.subrange(start as int, buf@.len() as int)) == decode_frames(buf@.subrange(pos as int, buf@.len() as int)),
        decreases buf@.len() - pos,
    {
        let rest = &buf[pos..buf.len()];
        let ghost rv = buf@.subrange(pos as int, buf@.len() as int);
        assert(rest@ =~= rv);
        match frame_cut_exec(rest) {
            None => {
                if rest.len() > MAX_MESSAGE_SIZE {
                    return (pos, Err(DecodeFault::TooLarge));
                }
                return (pos, Ok(None));
            },
            Some((end, follows)) => {
                proof {
                    lemma_frame_cut_bound(rv);
                }
                if end > MAX_MESSAGE_SIZE {
                    return (pos, Err(DecodeFault::TooLarge));
                }
                let frame = &rest[0..end];
                assert(frame@ =~= rv.subrange(0, end as int));
                match parse_message(frame, follows) {
                    None => {
                        return (pos, Err(DecodeFault::TooManyHeaders));
                    },
                    Some(body) => {
                        assert(rv.subrange(end as int, rv.len() as int) =~= buf@.subrange(pos + end, buf@.len() as int));
                        if body.headers.len() == 0 {
                            pos = pos + end;
                        } else {
                            return (pos + end, Ok(Some(body)));
                        }
                    },
                }
            },
        }
    }
}

} // verus!
