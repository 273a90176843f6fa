//! What the decoder reads back from the bytes the encoder writes.
use vstd::prelude::*;
use vstd::utf8::{encode_utf8, encode_scalar, has_width_1_encoding, has_width_2_encoding, has_width_3_encoding};
use crate::ami::codec::{
    header_line, header_lines, has_terminator, frame_bytes, variable_line, variable_lines, body_view, RawView, vindex,
    vinsert, lemma_vindex_some,
};
use crate::ami::wire::{
    BodyState, LineStep, body_from, body_step, chanvar_name, idx_of, is_follows_line, lemma_idx_of, line_end,
    lossy_text, strip_cr, MAX_HEADERS, MAX_MESSAGE_SIZE, crlf, crlf2, parse_body, empty_body, follows_from,
    frame_cut, FrameCut, decode_frames, decode_spec, Decoded, chanvar_prefix, kw_response,
};
use crate::text::{trim_bytes, lead_ws, match_at, first_match, lemma_find_sub_at};

verus! {

/// `encode_utf8` of a concatenation is the concatenation of the encodings.
proof fn lemma_encode_concat(a: Seq<char>, b: Seq<char>)
    ensures
        encode_utf8(a + b) == encode_utf8(a) + encode_utf8(b),
    decreases a.len(),
{
    if a.len() == 0 {
        assert(a + b =~= b);
        assert(encode_utf8(a) + encode_utf8(b) =~= encode_utf8(b));
    } else {
        assert((a + b).drop_first() =~= a.drop_first() + b);
        lemma_encode_concat(a.drop_first(), b);
        assert(encode_utf8(a + b) =~= encode_utf8(a) + encode_utf8(b));
    }
}

/// An ASCII character encodes as its own byte; any other character as
/// bytes from 0x80 up.
proof fn lemma_scalar_bytes(c: char)
    ensures
        (c as u32) < 128 ==> encode_scalar(c as u32) == seq![(c as u32) as u8] && ((c as u32) as u8) as u32 == c as u32,
        (c as u32) >= 128 ==> forall|i: int| 0 <= i < encode_scalar(c as u32).len() ==> #[trigger] encode_scalar(c as u32)[i] >= 128,
{
    let x = c as u32;
    if has_width_1_encoding(x) {
        assert((x & 0x7F) as u8 == x as u8 && (x as u8) as u32 == x) by (bit_vector)
            requires
                x <= 0x7F,
        ;
    } else {
        assert((0x80u8 | (x & 0x3F) as u8) >= 0x80u8) by (bit_vector);
        assert((0x80u8 | ((x >> 6) & 0x3F) as u8) >= 0x80u8) by (bit_vector);
        assert((0x80u8 | ((x >> 12) & 0x3F) as u8) >= 0x80u8) by (bit_vector);
        assert((0xC0u8 | ((x >> 6) & 0x1F) as u8) >= 0x80u8) by (bit_vector);
        assert((0xE0u8 | ((x >> 12) & 0x0F) as u8) >= 0x80u8) by (bit_vector);
        assert((0xF0u8 | ((x >> 18) & 0x7) as u8) >= 0x80u8) by (bit_vector);
    }
}

/// A string without the ASCII character `b` encodes without the byte `b`.
proof fn lemma_encode_lacks(s: Seq<char>, b: u8)
    requires
        b < 128,
        forall|i: int| 0 <= i < s.len() ==> (#[trigger] s[i] as u32) != b as u32,
    ensures
        forall|j: int| 0 <= j < encode_utf8(s).len() ==> #[trigger] encode_utf8(s)[j] != b,
    decreases s.len(),
{
    if s.len() > 0 {
        let e0 = encode_scalar(s[0] as u32);
        lemma_scalar_bytes(s[0]);
        assert(s[0] as u32 != b as u32);
        assert forall|i: int| 0 <= i < s.drop_first().len() implies (#[trigger] s.drop_first()[i] as u32) != b as u32 by {
            assert(s.drop_first()[i] == s[i + 1]);
        }
        lemma_encode_lacks(s.drop_first(), b);
        let r = encode_utf8(s.drop_first());
        assert forall|j: int| 0 <= j < encode_utf8(s).len() implies #[trigger] encode_utf8(s)[j] != b by {
            if j < e0.len() {
                assert(encode_utf8(s)[j] == e0[j]);
            } else {
                assert(encode_utf8(s)[j] == r[j - e0.len()]);
            }
        }
    }
}

/// A leading space is trimmed with the rest.
proof fn lemma_trim_after_space(x: Seq<u8>)
    ensures
        trim_bytes(seq![32u8] + x) == trim_bytes(x),
{
    let y = seq![32u8] + x;
    assert(y.drop_first() =~= x);
    assert(lead_ws(y) == 1 + lead_ws(x));
    crate::text::lemma_lead_ws_bound(x);
    assert(y.subrange(lead_ws(y) as int, y.len() as int) =~= x.subrange(lead_ws(x) as int, x.len() as int));
}

/// The bytes of a header line, without its line end.
pub open spec fn header_text(k: Seq<char>, v: Seq<char>) -> Seq<u8> {
    encode_utf8(k) + seq![58u8, 32u8] + encode_utf8(v)
}

/// The shape of a header line whose key and value hold no line break and
/// whose key holds no colon: the key's bytes, the first colon, a space, the
/// value's bytes, and one line end, the only line feed.
proof fn lemma_line_shape(k: Seq<char>, v: Seq<char>)
    requires
        !k.contains(':'),
        !has_terminator(k),
        !has_terminator(v),
    ensures
        header_line(k, v) == header_text(k, v) + seq![13u8, 10u8],
        header_text(k, v).len() == encode_utf8(k).len() + 2 + encode_utf8(v).len(),
        forall|q: int| 0 <= q < header_text(k, v).len() ==> #[trigger] header_text(k, v)[q] != 10u8,
        forall|q: int| 0 <= q < header_text(k, v).len() ==> #[trigger] header_text(k, v)[q] != 13u8,
        forall|q: int| 0 <= q < encode_utf8(k).len() ==> #[trigger] header_text(k, v)[q] != 58u8,
        header_text(k, v)[encode_utf8(k).len() as int] == 58u8,
        header_text(k, v).subrange(0, encode_utf8(k).len() as int) == encode_utf8(k),
        header_text(k, v).subrange(encode_utf8(k).len() as int + 1, header_text(k, v).len() as int) == seq![32u8] + encode_utf8(v),
{
    let ek = encode_utf8(k);
    let ev = encode_utf8(v);
    let t = header_text(k, v);
    assert forall|i: int| 0 <= i < k.len() implies (#[trigger] k[i] as u32) != 58u8 as u32 by {
        if k[i] as u32 == 58 {
            vstd::utf8::char_u32_cast(k[i], 58);
            assert(k.contains(k[i]));
        }
    }
    assert forall|i: int| 0 <= i < k.len() implies (#[trigger] k[i] as u32) != 10u8 as u32 by {
        if k[i] as u32 == 10 {
            vstd::utf8::char_u32_cast(k[i], 10);
            assert(k.contains(k[i]));
        }
    }
    assert forall|i: int| 0 <= i < k.len() implies (#[trigger] k[i] as u32) != 13u8 as u32 by {
        if k[i] as u32 == 13 {
            vstd::utf8::char_u32_cast(k[i], 13);
            assert(k.contains(k[i]));
        }
    }
    assert forall|i: int| 0 <= i < v.len() implies (#[trigger] v[i] as u32) != 10u8 as u32 by {
        if v[i] as u32 == 10 {
            vstd::utf8::char_u32_cast(v[i], 10);
            assert(v.contains(v[i]));
        }
    }
    assert forall|i: int| 0 <= i < v.len() implies (#[trigger] v[i] as u32) != 13u8 as u32 by {
        if v[i] as u32 == 13 {
            vstd::utf8::char_u32_cast(v[i], 13);
            assert(v.contains(v[i]));
        }
    }
    lemma_encode_lacks(k, 58);
    lemma_encode_lacks(k, 10);
    lemma_encode_lacks(k, 13);
    lemma_encode_lacks(v, 10);
    lemma_encode_lacks(v, 13);
    assert(header_line(k, v) =~= t + seq![13u8, 10u8]);
    assert forall|q: int| 0 <= q < t.len() implies #[trigger] t[q] != 10u8 && t[q] != 13u8 by {
        if q < ek.len() {
            assert(t[q] == ek[q]);
        } else if q >= ek.len() + 2 {
            assert(t[q] == ev[q - ek.len() - 2]);
        }
    }
    assert forall|q: int| 0 <= q < ek.len() implies #[trigger] t[q] != 58u8 by {
        assert(t[q] == ek[q]);
    }
    assert(t.subrange(0, ek.len() as int) =~= ek);
    assert(t.subrange(ek.len() as int + 1, t.len() as int) =~= seq![32u8] + ev);
}

/// Header lines of a concatenation are the concatenation of header lines.
proof fn lemma_header_lines_concat(a: Seq<(Seq<char>, Seq<char>)>, b: Seq<(Seq<char>, Seq<char>)>)
    ensures
        header_lines(a + b) == header_lines(a) + header_lines(b),
    decreases b.len(),
{
    if b.len() == 0 {
        assert(a + b =~= a);
        assert(header_lines(a) + header_lines(b) =~= header_lines(a));
    } else {
        assert((a + b).drop_last() =~= a + b.drop_last());
        assert((a + b).last() == b.last());
        lemma_header_lines_concat(a, b.drop_last());
        assert(header_lines(a + b) =~= header_lines(a) + header_lines(b));
    }
}


/// A header that the decoder gives back as written: the key holds no colon,
/// neither key nor value holds a line break or carries blank space at its
/// ends (as the decoder trims it), the key is no channel-variable key, and
/// the line does not announce a `Response: Follows` frame.
pub open spec fn plain_header(k: Seq<char>, v: Seq<char>) -> bool {
    &&& !k.contains(':')
    &&& !has_terminator(k)
    &&& !has_terminator(v)
    &&& trim_bytes(encode_utf8(k)) == encode_utf8(k)
    &&& trim_bytes(encode_utf8(v)) == encode_utf8(v)
    &&& chanvar_name(k) is None
    &&& !is_follows_line(header_text(k, v))
}

/// The decoder's text of an encoded string is the string.
proof fn lemma_lossy_encoded(s: Seq<char>)
    ensures
        lossy_text(encode_utf8(s)) == s,
{
    vstd::utf8::encode_utf8_valid_utf8(s);
    vstd::utf8::encode_utf8_decode_utf8(s);
}

/// A state of the decoder that has read headers only.
spec fn headers_read(h: Seq<(Seq<char>, Seq<char>)>) -> BodyState {
    BodyState { headers: h, output: Seq::empty(), variables: Seq::empty(), started: false }
}

/// Reading a plain header line adds the header.
proof fn lemma_read_line(s: Seq<u8>, p: int, k: Seq<char>, v: Seq<char>, h: Seq<(Seq<char>, Seq<char>)>)
    requires
        plain_header(k, v),
        h.len() < MAX_HEADERS,
        0 <= p,
        p + header_line(k, v).len() <= s.len(),
        s.subrange(p, p + header_line(k, v).len()) == header_line(k, v),
    ensures
        body_from(s, p, false, headers_read(h)) == body_from(s, p + header_line(k, v).len(), false, headers_read(h.push((k, v)))),
{
    lemma_line_shape(k, v);
    let l = header_line(k, v);
    let c = header_text(k, v);
    let ek = encode_utf8(k);
    let t = s.subrange(p, s.len() as int);
    assert forall|j: int| 0 <= j < l.len() - 1 implies #[trigger] t[j] != 10u8 by {
        assert(t[j] == l[j]);
        if j < c.len() {
            assert(l[j] == c[j]);
        } else {
            assert(l[j] == 13u8);
        }
    }
    assert(t[l.len() - 1] == l[l.len() - 1]);
    lemma_idx_of(t, 10, l.len() - 1);
    let e = p + l.len() - 1;
    assert(line_end(s, p) == e);
    assert(s.subrange(p, e) =~= c + seq![13u8]);
    assert(strip_cr(s.subrange(p, e)) =~= c);
    lemma_idx_of(c, 58, ek.len() as int);
    lemma_trim_after_space(encode_utf8(v));
    lemma_lossy_encoded(k);
    lemma_lossy_encoded(v);
    assert(body_step(c, false, headers_read(h)) == LineStep::Next(headers_read(h.push((k, v)))));
}


/// Every header of the list is plain.
pub open spec fn all_plain(h: Seq<(Seq<char>, Seq<char>)>) -> bool {
    forall|i: int| 0 <= i < h.len() ==> plain_header(#[trigger] h[i].0, h[i].1)
}

/// The lines of the first `i` headers come first.
proof fn lemma_lines_prefix(h: Seq<(Seq<char>, Seq<char>)>, i: int)
    requires
        0 <= i <= h.len(),
    ensures
        header_lines(h).subrange(0, header_lines(h.subrange(0, i)).len() as int) == header_lines(h.subrange(0, i)),
        header_lines(h.subrange(0, i)).len() <= header_lines(h).len(),
{
    assert(h =~= h.subrange(0, i) + h.subrange(i, h.len() as int));
    lemma_header_lines_concat(h.subrange(0, i), h.subrange(i, h.len() as int));
    assert(header_lines(h).subrange(0, header_lines(h.subrange(0, i)).len() as int) =~= header_lines(h.subrange(0, i)));
}

/// One more header adds its line.
proof fn lemma_lines_step(h: Seq<(Seq<char>, Seq<char>)>, i: int)
    requires
        0 <= i < h.len(),
    ensures
        header_lines(h.subrange(0, i + 1)) == header_lines(h.subrange(0, i)) + header_line(h[i].0, h[i].1),
{
    assert(h.subrange(0, i + 1).drop_last() =~= h.subrange(0, i));
    assert(h.subrange(0, i + 1).last() == h[i]);
}

/// Reading the lines of the first `i` headers gives those headers.
proof fn lemma_read_lines(s: Seq<u8>, h: Seq<(Seq<char>, Seq<char>)>, i: int)
    requires
        all_plain(h),
        h.len() <= MAX_HEADERS,
        0 <= i <= h.len(),
        header_lines(h).len() <= s.len(),
        s.subrange(0, header_lines(h).len() as int) == header_lines(h),
    ensures
        body_from(s, 0, false, empty_body()) == body_from(
            s,
            header_lines(h.subrange(0, i)).len() as int,
            false,
            headers_read(h.subrange(0, i)),
        ),
    decreases i,
{
    if i == 0 {
        assert(h.subrange(0, 0) =~= Seq::<(Seq<char>, Seq<char>)>::empty());
        assert(headers_read(h.subrange(0, 0)) == empty_body());
    } else {
        lemma_read_lines(s, h, i - 1);
        let a = h.subrange(0, i - 1);
        let a2 = h.subrange(0, i);
        lemma_lines_step(h, i - 1);
        lemma_lines_prefix(h, i);
        let p = header_lines(a).len() as int;
        let l = header_line(h[i - 1].0, h[i - 1].1);
        assert(s.subrange(0, header_lines(a2).len() as int) == header_lines(a2)) by {
            assert(s.subrange(0, header_lines(a2).len() as int) =~= s.subrange(0, header_lines(h).len() as int).subrange(0, header_lines(a2).len() as int));
        }
        assert(s.subrange(p, p + l.len()) =~= s.subrange(0, header_lines(a2).len() as int).subrange(p, p + l.len()));
        assert(s.subrange(p, p + l.len()) == l);
        assert(plain_header(h[i - 1].0, h[i - 1].1));
        lemma_read_line(s, p, h[i - 1].0, h[i - 1].1, a);
        assert(a.push(h[i - 1]) =~= a2);
    }
}

/// The blank line that ends a frame leaves the message as it is.
proof fn lemma_read_end(s: Seq<u8>, p: int, st: BodyState)
    requires
        0 <= p,
        p + 2 == s.len(),
        s.subrange(p, s.len() as int) == crlf(),
    ensures
        body_from(s, p, false, st) == Some(st),
{
    let t = s.subrange(p, s.len() as int);
    assert(t[0] == 13u8);
    assert(t[1] == 10u8);
    lemma_idx_of(t, 10, 1);
    assert(line_end(s, p) == p + 1);
    assert(strip_cr(s.subrange(p, p + 1)) =~= Seq::<u8>::empty());
    let t2 = s.subrange(s.len() as int, s.len() as int);
    lemma_idx_of(t2, 10, 0);
    assert(line_end(s, s.len() as int) == s.len());
    assert(strip_cr(s.subrange(s.len() as int, s.len() as int)) =~= Seq::<u8>::empty());
    assert(body_step(Seq::<u8>::empty(), false, st) == LineStep::Next(st));
    assert(body_from(s, s.len() as int, false, st) == Some(st));
    assert(body_from(s, p, false, st) == body_from(s, p + 2, false, st));
}



/// In the lines of plain headers a line feed is never followed by a
/// carriage return, and the lines end with a line end.
proof fn lemma_line_breaks(h: Seq<(Seq<char>, Seq<char>)>)
    requires
        all_plain(h),
    ensures
        forall|q: int| 0 <= q && q + 1 < header_lines(h).len() && #[trigger] header_lines(h)[q] == 10u8
            ==> header_lines(h)[q + 1] != 13u8,
        h.len() > 0 ==> header_lines(h).len() >= 2 && header_lines(h)[header_lines(h).len() - 2] == 13u8
            && header_lines(h)[header_lines(h).len() - 1] == 10u8,
    decreases h.len(),
{
    if h.len() > 0 {
        let g = h.drop_last();
        assert forall|i: int| 0 <= i < g.len() implies plain_header(#[trigger] g[i].0, g[i].1) by {
            assert(g[i] == h[i]);
        }
        lemma_line_breaks(g);
        let (k, v) = h.last();
        assert(plain_header(h[h.len() - 1].0, h[h.len() - 1].1));
        lemma_line_shape(k, v);
        let a = header_lines(g);
        let c = header_text(k, v);
        let l = header_line(k, v);
        let hs = header_lines(h);
        assert(hs == a + l);
        assert forall|q: int| 0 <= q && q + 1 < hs.len() && #[trigger] hs[q] == 10u8 implies hs[q + 1] != 13u8 by {
            if q + 1 < a.len() {
                assert(hs[q] == a[q]);
                assert(hs[q + 1] == a[q + 1]);
            } else if q + 1 == a.len() {
                assert(hs[q + 1] == l[0]);
                assert(l[0] == c[0]);
            } else {
                assert(hs[q] == l[q - a.len()]);
                assert(l[q - a.len()] == c[q - a.len()]);
            }
        }
        assert(hs[hs.len() - 2] == l[l.len() - 2]);
        assert(hs[hs.len() - 1] == l[l.len() - 1]);
    }
}

/// A plain header line does not announce a `Response: Follows` frame.
proof fn lemma_follow_line(s: Seq<u8>, p: int, k: Seq<char>, v: Seq<char>)
    requires
        plain_header(k, v),
        0 <= p,
        p + header_line(k, v).len() <= s.len(),
        s.subrange(p, p + header_line(k, v).len()) == header_line(k, v),
    ensures
        follows_from(s, p) == follows_from(s, p + header_line(k, v).len()),
{
    lemma_line_shape(k, v);
    let l = header_line(k, v);
    let c = header_text(k, v);
    let t = s.subrange(p, s.len() as int);
    assert forall|j: int| 0 <= j < l.len() - 1 implies #[trigger] t[j] != 10u8 by {
        assert(t[j] == l[j]);
        if j < c.len() {
            assert(l[j] == c[j]);
        } else {
            assert(l[j] == 13u8);
        }
    }
    assert(t[l.len() - 1] == l[l.len() - 1]);
    lemma_idx_of(t, 10, l.len() - 1);
    let e = p + l.len() - 1;
    assert(line_end(s, p) == e);
    assert(s.subrange(p, e) =~= c + seq![13u8]);
    assert(strip_cr(c + seq![13u8]) =~= c);
    assert(c[c.len() - 1] != 13u8);
    assert(strip_cr(c) == c);
    assert(!is_follows_line(s.subrange(p, e)));
}

/// No line of plain headers announces a `Response: Follows` frame.
proof fn lemma_follow_lines(s: Seq<u8>, h: Seq<(Seq<char>, Seq<char>)>, i: int)
    requires
        all_plain(h),
        0 <= i <= h.len(),
        header_lines(h).len() <= s.len(),
        s.subrange(0, header_lines(h).len() as int) == header_lines(h),
    ensures
        follows_from(s, 0) == follows_from(s, header_lines(h.subrange(0, i)).len() as int),
    decreases i,
{
    if i == 0 {
        assert(h.subrange(0, 0) =~= Seq::<(Seq<char>, Seq<char>)>::empty());
    } else {
        lemma_follow_lines(s, h, i - 1);
        let a = h.subrange(0, i - 1);
        let a2 = h.subrange(0, i);
        lemma_lines_step(h, i - 1);
        lemma_lines_prefix(h, i);
        let p = header_lines(a).len() as int;
        let l = header_line(h[i - 1].0, h[i - 1].1);
        assert(s.subrange(0, header_lines(a2).len() as int) == header_lines(a2)) by {
            assert(s.subrange(0, header_lines(a2).len() as int) =~= s.subrange(0, header_lines(h).len() as int).subrange(0, header_lines(a2).len() as int));
        }
        assert(s.subrange(p, p + l.len()) =~= s.subrange(0, header_lines(a2).len() as int).subrange(p, p + l.len()));
        assert(s.subrange(p, p + l.len()) == l);
        assert(plain_header(h[i - 1].0, h[i - 1].1));
        lemma_follow_line(s, p, h[i - 1].0, h[i - 1].1);
    }
}

/// The head of a frame of plain headers (the frame without its last two
/// line ends) announces no `Response: Follows` frame.
proof fn lemma_no_follows(h: Seq<(Seq<char>, Seq<char>)>)
    requires
        all_plain(h),
        h.len() > 0,
    ensures
        header_lines(h).len() >= 2,
        !follows_from(header_lines(h).subrange(0, header_lines(h).len() - 2), 0),
{
    let n = h.len() as int;
    let g = h.subrange(0, n - 1);
    let (k, v) = h[n - 1];
    assert(plain_header(k, v));
    lemma_line_shape(k, v);
    lemma_lines_step(h, n - 1);
    assert(h.subrange(0, n) =~= h);
    let c = header_text(k, v);
    let hs = header_lines(h);
    let s = hs.subrange(0, hs.len() - 2);
    assert(s =~= header_lines(g) + c);
    assert forall|i: int| 0 <= i < g.len() implies plain_header(#[trigger] g[i].0, g[i].1) by {
        assert(g[i] == h[i]);
    }
    assert(s.subrange(0, header_lines(g).len() as int) =~= header_lines(g));
    lemma_follow_lines(s, g, g.len() as int);
    assert(g.subrange(0, g.len() as int) =~= g);
    let p = header_lines(g).len() as int;
    let t = s.subrange(p, s.len() as int);
    assert(t =~= c);
    lemma_idx_of(t, 10, t.len() as int);
    assert(line_end(s, p) == s.len());
    assert(s.subrange(p, s.len() as int) =~= c);
    assert(c[c.len() - 1] != 13u8);
    assert(strip_cr(c) == c);
}





/// The bytes of `ChanVariable(`.
spec fn chanvar_bytes() -> Seq<u8> {
    seq![67u8, 104, 97, 110, 86, 97, 114, 105, 97, 98, 108, 101, 40]
}

/// The key of a channel-variable line.
spec fn variable_key(n: Seq<char>) -> Seq<char> {
    chanvar_prefix() + n + seq![')']
}

/// The bytes of a channel-variable line, without its line end.
spec fn variable_text(n: Seq<char>, v: Seq<char>) -> Seq<u8> {
    chanvar_bytes() + encode_utf8(n) + seq![41u8, 58u8, 32u8] + encode_utf8(v)
}

/// A channel variable that the decoder gives back as written: the name
/// holds no colon, neither name nor value holds a line break, and the value
/// carries no blank space at its ends.
pub open spec fn plain_variable(n: Seq<char>, v: Seq<char>) -> bool {
    &&& !n.contains(':')
    &&& !has_terminator(n)
    &&& !has_terminator(v)
    &&& trim_bytes(encode_utf8(v)) == encode_utf8(v)
}

/// A key of a channel-variable line encodes as the bytes the line starts with.
proof fn lemma_variable_key(n: Seq<char>)
    ensures
        encode_utf8(variable_key(n)) == chanvar_bytes() + encode_utf8(n) + seq![41u8],
        lossy_text(chanvar_bytes() + encode_utf8(n) + seq![41u8]) == variable_key(n),
        chanvar_name(variable_key(n)) == Some(n),
{
    let p = chanvar_prefix();
    vstd::utf8::is_ascii_chars_encode_utf8(p);
    assert(encode_utf8(p) =~= chanvar_bytes());
    let close = seq![')'];
    vstd::utf8::is_ascii_chars_encode_utf8(close);
    assert(encode_utf8(close) =~= seq![41u8]);
    lemma_encode_concat(p, n);
    lemma_encode_concat(p + n, close);
    lemma_lossy_encoded(variable_key(n));
    let k = variable_key(n);
    assert(k.subrange(0, 13) =~= p);
    assert(k.subrange(13, k.len() - 1) =~= n);
}

/// The shape of a channel-variable line.
proof fn lemma_variable_shape(n: Seq<char>, v: Seq<char>)
    requires
        plain_variable(n, v),
    ensures
        variable_line(n, v) == variable_text(n, v) + seq![13u8, 10u8],
        forall|q: int| 0 <= q < variable_text(n, v).len() ==> #[trigger] variable_text(n, v)[q] != 10u8,
        forall|q: int| 0 <= q < variable_text(n, v).len() ==> #[trigger] variable_text(n, v)[q] != 13u8,
        forall|q: int| 0 <= q < 14 + encode_utf8(n).len() ==> #[trigger] variable_text(n, v)[q] != 58u8,
        variable_text(n, v)[14 + encode_utf8(n).len() as int] == 58u8,
        variable_text(n, v)[0] == 67u8,
        variable_text(n, v).len() >= 16,
        variable_text(n, v).subrange(0, 14 + encode_utf8(n).len() as int) == chanvar_bytes() + encode_utf8(n) + seq![41u8],
        variable_text(n, v).subrange(15 + encode_utf8(n).len() as int, variable_text(n, v).len() as int) == seq![32u8] + encode_utf8(v),
{
    let en = encode_utf8(n);
    let ev = encode_utf8(v);
    let t = variable_text(n, v);
    assert forall|i: int| 0 <= i < n.len() implies (#[trigger] n[i] as u32) != 58u8 as u32 by {
        if n[i] as u32 == 58 {
            vstd::utf8::char_u32_cast(n[i], 58);
            assert(n.contains(n[i]));
        }
    }
    assert forall|i: int| 0 <= i < n.len() implies (#[trigger] n[i] as u32) != 10u8 as u32 by {
        if n[i] as u32 == 10 {
            vstd::utf8::char_u32_cast(n[i], 10);
            assert(n.contains(n[i]));
        }
    }
    assert forall|i: int| 0 <= i < n.len() implies (#[trigger] n[i] as u32) != 13u8 as u32 by {
        if n[i] as u32 == 13 {
            vstd::utf8::char_u32_cast(n[i], 13);
            assert(n.contains(n[i]));
        }
    }
    assert forall|i: int| 0 <= i < v.len() implies (#[trigger] v[i] as u32) != 10u8 as u32 by {
        if v[i] as u32 == 10 {
            vstd::utf8::char_u32_cast(v[i], 10);
            assert(v.contains(v[i]));
        }
    }
    assert forall|i: int| 0 <= i < v.len() implies (#[trigger] v[i] as u32) != 13u8 as u32 by {
        if v[i] as u32 == 13 {
            vstd::utf8::char_u32_cast(v[i], 13);
            assert(v.contains(v[i]));
        }
    }
    lemma_encode_lacks(n, 58);
    lemma_encode_lacks(n, 10);
    lemma_encode_lacks(n, 13);
    lemma_encode_lacks(v, 10);
    lemma_encode_lacks(v, 13);
    assert(variable_line(n, v) =~= t + seq![13u8, 10u8]);
    assert forall|q: int| 0 <= q < t.len() implies #[trigger] t[q] != 10u8 && t[q] != 13u8 by {
        if 13 <= q < 13 + en.len() {
            assert(t[q] == en[q - 13]);
        } else if q >= 16 + en.len() {
            assert(t[q] == ev[q - 16 - en.len()]);
        }
    }
    assert forall|q: int| 0 <= q < 14 + en.len() implies #[trigger] t[q] != 58u8 by {
        if 13 <= q < 13 + en.len() {
            assert(t[q] == en[q - 13]);
        }
    }
    assert(t.subrange(0, 14 + en.len() as int) =~= chanvar_bytes() + en + seq![41u8]);
    assert(t.subrange(15 + en.len() as int, t.len() as int) =~= seq![32u8] + ev);
}


/// A state of the decoder that has read headers and channel variables.
spec fn frame_read(h: Seq<(Seq<char>, Seq<char>)>, vs: Seq<(Seq<char>, Seq<char>)>) -> BodyState {
    BodyState { headers: h, output: Seq::empty(), variables: vs, started: false }
}

/// No channel-variable name occurs twice.
pub open spec fn distinct_variable_names(vs: Seq<(Seq<char>, Seq<char>)>) -> bool {
    forall|i: int, j: int| 0 <= i < j < vs.len() ==> #[trigger] vs[i].0 != #[trigger] vs[j].0
}

/// Every channel variable of the list is plain.
pub open spec fn all_plain_variables(vs: Seq<(Seq<char>, Seq<char>)>) -> bool {
    forall|i: int| 0 <= i < vs.len() ==> plain_variable(#[trigger] vs[i].0, vs[i].1)
}

/// Reading a plain channel-variable line adds the variable.
proof fn lemma_read_variable_line(
    s: Seq<u8>,
    p: int,
    n: Seq<char>,
    v: Seq<char>,
    h: Seq<(Seq<char>, Seq<char>)>,
    vs: Seq<(Seq<char>, Seq<char>)>,
)
    requires
        plain_variable(n, v),
        h.len() + vs.len() < MAX_HEADERS,
        vindex(vs, n) is None,
        0 <= p,
        p + variable_line(n, v).len() <= s.len(),
        s.subrange(p, p + variable_line(n, v).len()) == variable_line(n, v),
    ensures
        body_from(s, p, false, frame_read(h, vs)) == body_from(
            s,
            p + variable_line(n, v).len(),
            false,
            frame_read(h, vs.push((n, v))),
        ),
{
    lemma_variable_shape(n, v);
    lemma_variable_key(n);
    let l = variable_line(n, v);
    let c = variable_text(n, v);
    let en = encode_utf8(n);
    let t = s.subrange(p, s.len() as int);
    assert forall|j: int| 0 <= j < l.len() - 1 implies #[trigger] t[j] != 10u8 by {
        assert(t[j] == l[j]);
        if j < c.len() {
            assert(l[j] == c[j]);
        } else {
            assert(l[j] == 13u8);
        }
    }
    assert(t[l.len() - 1] == l[l.len() - 1]);
    lemma_idx_of(t, 10, l.len() - 1);
    let e = p + l.len() - 1;
    assert(line_end(s, p) == e);
    assert(s.subrange(p, e) =~= c + seq![13u8]);
    assert(strip_cr(s.subrange(p, e)) =~= c);
    lemma_idx_of(c, 58, 14 + en.len() as int);
    let kb = chanvar_bytes() + en + seq![41u8];
    assert(lead_ws(kb) == 0);
    assert(crate::text::trail_ws(kb) == 0);
    assert(trim_bytes(kb) =~= kb);
    lemma_trim_after_space(encode_utf8(v));
    lemma_lossy_encoded(v);
    assert(vinsert(vs, n, v) == vs.push((n, v)));
    assert(body_step(c, false, frame_read(h, vs)) == LineStep::Next(frame_read(h, vs.push((n, v)))));
}

/// Variable lines of a concatenation are the concatenation of variable lines.
proof fn lemma_variable_lines_concat(a: Seq<(Seq<char>, Seq<char>)>, b: Seq<(Seq<char>, Seq<char>)>)
    ensures
        variable_lines(a + b) == variable_lines(a) + variable_lines(b),
    decreases b.len(),
{
    if b.len() == 0 {
        assert(a + b =~= a);
        assert(variable_lines(a) + variable_lines(b) =~= variable_lines(a));
    } else {
        assert((a + b).drop_last() =~= a + b.drop_last());
        assert((a + b).last() == b.last());
        lemma_variable_lines_concat(a, b.drop_last());
        assert(variable_lines(a + b) =~= variable_lines(a) + variable_lines(b));
    }
}

/// The lines of the first `i` variables come first.
proof fn lemma_variable_lines_prefix(vs: Seq<(Seq<char>, Seq<char>)>, i: int)
    requires
        0 <= i <= vs.len(),
    ensures
        variable_lines(vs).subrange(0, variable_lines(vs.subrange(0, i)).len() as int) == variable_lines(vs.subrange(0, i)),
        variable_lines(vs.subrange(0, i)).len() <= variable_lines(vs).len(),
{
    assert(vs =~= vs.subrange(0, i) + vs.subrange(i, vs.len() as int));
    lemma_variable_lines_concat(vs.subrange(0, i), vs.subrange(i, vs.len() as int));
    assert(variable_lines(vs).subrange(0, variable_lines(vs.subrange(0, i)).len() as int) =~= variable_lines(vs.subrange(0, i)));
}

/// One more variable adds its line.
proof fn lemma_variable_lines_step(vs: Seq<(Seq<char>, Seq<char>)>, i: int)
    requires
        0 <= i < vs.len(),
    ensures
        variable_lines(vs.subrange(0, i + 1)) == variable_lines(vs.subrange(0, i)) + variable_line(vs[i].0, vs[i].1),
{
    assert(vs.subrange(0, i + 1).drop_last() =~= vs.subrange(0, i));
    assert(vs.subrange(0, i + 1).last() == vs[i]);
}

/// Reading the lines of the first `i` variables, after the headers, gives
/// those variables.
proof fn lemma_read_variable_lines(
    s: Seq<u8>,
    base: int,
    h: Seq<(Seq<char>, Seq<char>)>,
    vs: Seq<(Seq<char>, Seq<char>)>,
    i: int,
)
    requires
        all_plain_variables(vs),
        distinct_variable_names(vs),
        h.len() + vs.len() <= MAX_HEADERS,
        0 <= i <= vs.len(),
        0 <= base,
        base + variable_lines(vs).len() <= s.len(),
        s.subrange(base, base + variable_lines(vs).len()) == variable_lines(vs),
    ensures
        body_from(s, base, false, frame_read(h, Seq::empty())) == body_from(
            s,
            base + variable_lines(vs.subrange(0, i)).len(),
            false,
            frame_read(h, vs.subrange(0, i)),
        ),
    decreases i,
{
    if i == 0 {
        assert(vs.subrange(0, 0) =~= Seq::<(Seq<char>, Seq<char>)>::empty());
    } else {
        lemma_read_variable_lines(s, base, h, vs, i - 1);
        let a = vs.subrange(0, i - 1);
        let a2 = vs.subrange(0, i);
        lemma_variable_lines_step(vs, i - 1);
        lemma_variable_lines_prefix(vs, i);
        let p = base + variable_lines(a).len();
        let l = variable_line(vs[i - 1].0, vs[i - 1].1);
        let w = s.subrange(base, base + variable_lines(vs).len());
        assert(w.subrange(0, variable_lines(a2).len() as int) == variable_lines(a2));
        assert(s.subrange(p, p + l.len()) =~= w.subrange(0, variable_lines(a2).len() as int).subrange(variable_lines(a).len() as int, variable_lines(a).len() as int + l.len()));
        assert(s.subrange(p, p + l.len()) == l);
        assert(plain_variable(vs[i - 1].0, vs[i - 1].1));
        lemma_vindex_some(a, vs[i - 1].0);
        assert forall|j: int| 0 <= j < a.len() implies #[trigger] a[j].0 != vs[i - 1].0 by {
            assert(a[j] == vs[j]);
        }
        lemma_read_variable_line(s, p, vs[i - 1].0, vs[i - 1].1, h, a);
        assert(a.push(vs[i - 1]) =~= a2);
    }
}

/// The body of a frame of plain headers and plain, distinct channel
/// variables is those headers and variables.
proof fn lemma_parse_frame_variables(h: Seq<(Seq<char>, Seq<char>)>, vs: Seq<(Seq<char>, Seq<char>)>)
    requires
        all_plain(h),
        all_plain_variables(vs),
        distinct_variable_names(vs),
        h.len() + vs.len() <= MAX_HEADERS,
    ensures
        parse_body(header_lines(h) + variable_lines(vs) + crlf(), false) == Some(frame_read(h, vs)),
{
    let hl = header_lines(h);
    let vl = variable_lines(vs);
    let s = hl + vl + crlf();
    assert(s.subrange(0, hl.len() as int) =~= hl);
    lemma_read_lines(s, h, h.len() as int);
    assert(h.subrange(0, h.len() as int) =~= h);
    assert(headers_read(h) == frame_read(h, Seq::empty()));
    assert(s.subrange(hl.len() as int, hl.len() as int + vl.len()) =~= vl);
    lemma_read_variable_lines(s, hl.len() as int, h, vs, vs.len() as int);
    assert(vs.subrange(0, vs.len() as int) =~= vs);
    assert(s.subrange(hl.len() as int + vl.len(), s.len() as int) =~= crlf());
    lemma_read_end(s, hl.len() as int + vl.len(), frame_read(h, vs));
}


/// In variable lines a line feed is never followed by a carriage return;
/// the lines start with `C` and end with a line end.
proof fn lemma_variable_line_breaks(vs: Seq<(Seq<char>, Seq<char>)>)
    requires
        all_plain_variables(vs),
    ensures
        forall|q: int| 0 <= q && q + 1 < variable_lines(vs).len() && #[trigger] variable_lines(vs)[q] == 10u8
            ==> variable_lines(vs)[q + 1] != 13u8,
        vs.len() > 0 ==> variable_lines(vs).len() >= 2 && variable_lines(vs)[0] == 67u8
            && variable_lines(vs)[variable_lines(vs).len() - 2] == 13u8
            && variable_lines(vs)[variable_lines(vs).len() - 1] == 10u8,
    decreases vs.len(),
{
    if vs.len() > 0 {
        let g = vs.drop_last();
        assert forall|i: int| 0 <= i < g.len() implies plain_variable(#[trigger] g[i].0, g[i].1) by {
            assert(g[i] == vs[i]);
        }
        lemma_variable_line_breaks(g);
        let (n, v) = vs.last();
        assert(plain_variable(vs[vs.len() - 1].0, vs[vs.len() - 1].1));
        lemma_variable_shape(n, v);
        let a = variable_lines(g);
        let c = variable_text(n, v);
        let l = variable_line(n, v);
        let vl = variable_lines(vs);
        assert(vl == a + l);
        assert forall|q: int| 0 <= q && q + 1 < vl.len() && #[trigger] vl[q] == 10u8 implies vl[q + 1] != 13u8 by {
            if q + 1 < a.len() {
                assert(vl[q] == a[q]);
                assert(vl[q + 1] == a[q + 1]);
            } else if q + 1 == a.len() {
                assert(vl[q + 1] == l[0]);
                assert(l[0] == c[0]);
            } else {
                assert(vl[q] == l[q - a.len()]);
                assert(l[q - a.len()] == c[q - a.len()]);
            }
        }
        if g.len() == 0 {
            assert(vl[0] == l[0]);
            assert(l[0] == c[0]);
        } else {
            assert(vl[0] == a[0]);
        }
        assert(vl[vl.len() - 2] == l[l.len() - 2]);
        assert(vl[vl.len() - 1] == l[l.len() - 1]);
    }
}

/// A channel-variable line does not announce a `Response: Follows` frame.
proof fn lemma_variable_not_follows(n: Seq<char>, v: Seq<char>)
    requires
        plain_variable(n, v),
    ensures
        !is_follows_line(variable_text(n, v)),
        !is_follows_line(variable_text(n, v) + seq![13u8]),
{
    lemma_variable_shape(n, v);
    let c = variable_text(n, v);
    let en = encode_utf8(n);
    assert(c[c.len() - 1] != 13u8);
    assert(strip_cr(c) == c);
    assert(strip_cr(c + seq![13u8]) =~= c);
    lemma_idx_of(c, 58, 14 + en.len() as int);
    assert(c.subrange(0, 14 + en.len() as int).len() != kw_response().len());
}

/// A channel-variable line leaves the search for `Response: Follows` to the
/// lines after it.
proof fn lemma_follow_variable_line(s: Seq<u8>, p: int, n: Seq<char>, v: Seq<char>)
    requires
        plain_variable(n, v),
        0 <= p,
        p + variable_line(n, v).len() <= s.len(),
        s.subrange(p, p + variable_line(n, v).len()) == variable_line(n, v),
    ensures
        follows_from(s, p) == follows_from(s, p + variable_line(n, v).len()),
{
    lemma_variable_shape(n, v);
    lemma_variable_not_follows(n, v);
    let l = variable_line(n, v);
    let c = variable_text(n, v);
    let t = s.subrange(p, s.len() as int);
    assert forall|j: int| 0 <= j < l.len() - 1 implies #[trigger] t[j] != 10u8 by {
        assert(t[j] == l[j]);
        if j < c.len() {
            assert(l[j] == c[j]);
        } else {
            assert(l[j] == 13u8);
        }
    }
    assert(t[l.len() - 1] == l[l.len() - 1]);
    lemma_idx_of(t, 10, l.len() - 1);
    let e = p + l.len() - 1;
    assert(line_end(s, p) == e);
    assert(s.subrange(p, e) =~= c + seq![13u8]);
}

/// No variable line announces a `Response: Follows` frame.
proof fn lemma_follow_variable_lines(s: Seq<u8>, base: int, vs: Seq<(Seq<char>, Seq<char>)>, i: int)
    requires
        all_plain_variables(vs),
        0 <= i <= vs.len(),
        0 <= base,
        base + variable_lines(vs).len() <= s.len(),
        s.subrange(base, base + variable_lines(vs).len()) == variable_lines(vs),
    ensures
        follows_from(s, base) == follows_from(s, base + variable_lines(vs.subrange(0, i)).len()),
    decreases i,
{
    if i == 0 {
        assert(vs.subrange(0, 0) =~= Seq::<(Seq<char>, Seq<char>)>::empty());
    } else {
        lemma_follow_variable_lines(s, base, vs, i - 1);
        let a = vs.subrange(0, i - 1);
        let a2 = vs.subrange(0, i);
        lemma_variable_lines_step(vs, i - 1);
        lemma_variable_lines_prefix(vs, i);
        let p = base + variable_lines(a).len();
        let l = variable_line(vs[i - 1].0, vs[i - 1].1);
        let w = s.subrange(base, base + variable_lines(vs).len());
        assert(w.subrange(0, variable_lines(a2).len() as int) == variable_lines(a2));
        assert(s.subrange(p, p + l.len()) =~= w.subrange(0, variable_lines(a2).len() as int).subrange(variable_lines(a).len() as int, variable_lines(a).len() as int + l.len()));
        assert(s.subrange(p, p + l.len()) == l);
        assert(plain_variable(vs[i - 1].0, vs[i - 1].1));
        lemma_follow_variable_line(s, p, vs[i - 1].0, vs[i - 1].1);
    }
}

/// The head of a frame of plain headers and variables (the frame without
/// its last two line ends) announces no `Response: Follows` frame.
proof fn lemma_no_follows_variables(h: Seq<(Seq<char>, Seq<char>)>, vs: Seq<(Seq<char>, Seq<char>)>)
    requires
        all_plain(h),
        all_plain_variables(vs),
        h.len() > 0,
    ensures
        (header_lines(h) + variable_lines(vs)).len() >= 2,
        !follows_from((header_lines(h) + variable_lines(vs)).subrange(0, (header_lines(h) + variable_lines(vs)).len() - 2), 0),
{
    let hl = header_lines(h);
    if vs.len() == 0 {
        assert(variable_lines(vs) =~= Seq::<u8>::empty());
        assert(hl + variable_lines(vs) =~= hl);
        lemma_no_follows(h);
    } else {
        let m = vs.len() as int;
        let g = vs.subrange(0, m - 1);
        let (n, v) = vs[m - 1];
        assert(plain_variable(n, v));
        lemma_variable_shape(n, v);
        lemma_variable_not_follows(n, v);
        lemma_variable_lines_step(vs, m - 1);
        assert(vs.subrange(0, m) =~= vs);
        let c = variable_text(n, v);
        let all = hl + variable_lines(vs);
        let s = all.subrange(0, all.len() - 2);
        assert(s =~= hl + variable_lines(g) + c);
        assert forall|i: int| 0 <= i < g.len() implies plain_variable(#[trigger] g[i].0, g[i].1) by {
            assert(g[i] == vs[i]);
        }
        assert(s.subrange(0, hl.len() as int) =~= hl);
        lemma_follow_lines(s, h, h.len() as int);
        assert(h.subrange(0, h.len() as int) =~= h);
        assert(s.subrange(hl.len() as int, hl.len() as int + variable_lines(g).len()) =~= variable_lines(g));
        lemma_follow_variable_lines(s, hl.len() as int, g, g.len() as int);
        assert(g.subrange(0, g.len() as int) =~= g);
        let p = hl.len() as int + variable_lines(g).len();
        let t = s.subrange(p, s.len() as int);
        assert(t =~= c);
        lemma_idx_of(t, 10, t.len() as int);
        assert(line_end(s, p) == s.len());
        assert(s.subrange(p, s.len() as int) =~= c);
    }
}

/// The frame of plain headers and variables is cut where it ends.
proof fn lemma_cut_frame_variables(h: Seq<(Seq<char>, Seq<char>)>, vs: Seq<(Seq<char>, Seq<char>)>, rest: Seq<u8>)
    requires
        all_plain(h),
        all_plain_variables(vs),
        h.len() > 0,
    ensures
        frame_cut(header_lines(h) + variable_lines(vs) + crlf() + rest) == (FrameCut::Frame {
            end: header_lines(h).len() as int + variable_lines(vs).len() + 2,
            follows: false,
        }),
{
    let hl = header_lines(h);
    let vl = variable_lines(vs);
    let all = hl + vl;
    let n = all.len() as int;
    let buf = hl + vl + crlf() + rest;
    lemma_line_breaks(h);
    lemma_variable_line_breaks(vs);
    lemma_no_follows_variables(h, vs);
    assert forall|q: int| 0 <= q && q + 1 < n && #[trigger] all[q] == 10u8 implies all[q + 1] != 13u8 by {
        if q + 1 < hl.len() {
            assert(all[q] == hl[q]);
            assert(all[q + 1] == hl[q + 1]);
        } else if q + 1 == hl.len() {
            assert(all[q + 1] == vl[0]);
        } else {
            assert(all[q] == vl[q - hl.len()]);
            assert(all[q + 1] == vl[q + 1 - hl.len()]);
        }
    }
    if vs.len() == 0 {
        assert(vl =~= Seq::<u8>::empty());
        assert(all =~= hl);
    } else {
        assert(all[n - 2] == vl[vl.len() - 2]);
        assert(all[n - 1] == vl[vl.len() - 1]);
    }
    assert(all[n - 2] == 13u8 && all[n - 1] == 10u8);
    assert(buf.subrange(n - 2, n + 2) =~= crlf2());
    assert forall|j: int| 0 <= j < n - 2 implies !#[trigger] match_at(buf, crlf2(), j) by {
        if match_at(buf, crlf2(), j) {
            assert(buf.subrange(j, j + 4)[1] == crlf2()[1]);
            assert(buf.subrange(j, j + 4)[2] == crlf2()[2]);
            assert(buf[j + 1] == all[j + 1]);
            assert(buf[j + 2] == all[j + 2]);
            assert(all[j + 1] == 10u8);
        }
    }
    assert(first_match(buf, crlf2(), n - 2));
    lemma_find_sub_at(buf, crlf2(), n - 2);
    assert(buf.subrange(0, n - 2) =~= all.subrange(0, n - 2));
}

/// The frame written for a message is read back as that message, and the
/// bytes after the frame stay in the buffer. This holds for a message with
/// at least one header, at most 512 headers and channel variables together,
/// no output, plain headers, plain channel variables with distinct names,
/// and a frame of at most 64 KiB: decoding (once the banner is consumed)
/// the bytes `AmiCodec::encode` writes for it gives it back.
pub proof fn lemma_encoded_frame_decodes(m: RawView, rest: Seq<u8>)
    requires
        m.headers.len() > 0,
        m.headers.len() + m.variables.len() <= MAX_HEADERS,
        m.output.len() == 0,
        all_plain(m.headers),
        all_plain_variables(m.variables),
        distinct_variable_names(m.variables),
        frame_bytes(m).len() <= MAX_MESSAGE_SIZE,
    ensures
        decode_spec(true, frame_bytes(m) + rest).0,
        decode_spec(true, frame_bytes(m) + rest).1.rest == rest,
        decode_spec(true, frame_bytes(m) + rest).1.result matches Ok(Some(st)) && body_view(st) == m,
{
    let h = m.headers;
    let vs = m.variables;
    let frame = frame_bytes(m);
    let buf = frame + rest;
    assert(buf =~= header_lines(h) + variable_lines(vs) + crlf() + rest);
    lemma_cut_frame_variables(h, vs, rest);
    crate::ami::wire::lemma_frame_cut_bound(buf);
    let end = header_lines(h).len() as int + variable_lines(vs).len() + 2;
    assert(buf.subrange(0, end) =~= frame);
    lemma_parse_frame_variables(h, vs);
    assert(buf.subrange(end, buf.len() as int) =~= rest);
    assert(decode_frames(buf) == (Decoded { rest, result: Ok(Some(frame_read(h, vs))) }));
    assert(m.output =~= Seq::<Seq<char>>::empty());
    assert(body_view(frame_read(h, vs)) == m);
}

} // verus!
