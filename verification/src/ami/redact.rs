//! Recognition of header names that carry secrets, so that their values are
//! never shown in diagnostics.
use vstd::prelude::*;
use crate::text::{lower_char, lower_char_exec};

verus! {

/// ASCII letter or digit.
pub open spec fn is_alnum(c: char) -> bool {
    ('0' <= c <= '9') || ('a' <= c <= 'z') || ('A' <= c <= 'Z')
}

/// A header name reduced to its ASCII letters and digits, lower-cased.
pub open spec fn normalize_key(s: Seq<char>) -> Seq<char>
    decreases s.len(),
{
    if s.len() == 0 {
        Seq::empty()
    } else {
        let r = normalize_key(s.drop_last());
        if is_alnum(s.last()) {
            r.push(lower_char(s.last()))
        } else {
            r
        }
    }
}

/// `needle` occurs in `hay` at `i`.
pub open spec fn chars_at(hay: Seq<char>, needle: Seq<char>, i: int) -> bool {
    0 <= i && i + needle.len() <= hay.len() && hay.subrange(i, i + needle.len()) == needle
}

/// `needle` occurs in `hay`.
pub open spec fn contains_chars(hay: Seq<char>, needle: Seq<char>) -> bool {
    exists|i: int| #[trigger] chars_at(hay, needle, i)
}

/// `hay` ends with `needle`.
pub open spec fn ends_with_chars(hay: Seq<char>, needle: Seq<char>) -> bool {
    needle.len() <= hay.len() && hay.subrange(hay.len() - needle.len(), hay.len() as int) == needle
}

pub open spec fn kw_password() -> Seq<char> {
    seq!['p', 'a', 's', 's', 'w', 'o', 'r', 'd']
}

pub open spec fn kw_passwd() -> Seq<char> {
    seq!['p', 'a', 's', 's', 'w', 'd']
}

pub open spec fn kw_secret() -> Seq<char> {
    seq!['s', 'e', 'c', 'r', 'e', 't']
}

pub open spec fn kw_md5cred() -> Seq<char> {
    seq!['m', 'd', '5', 'c', 'r', 'e', 'd']
}

pub open spec fn kw_credential() -> Seq<char> {
    seq!['c', 'r', 'e', 'd', 'e', 'n', 't', 'i', 'a', 'l']
}

pub open spec fn kw_token() -> Seq<char> {
    seq!['t', 'o', 'k', 'e', 'n']
}

pub open spec fn kw_authorization() -> Seq<char> {
    seq!['a', 'u', 't', 'h', 'o', 'r', 'i', 'z', 'a', 't', 'i', 'o', 'n']
}

pub open spec fn kw_apikey() -> Seq<char> {
    seq!['a', 'p', 'i', 'k', 'e', 'y']
}

pub open spec fn kw_privatekey() -> Seq<char> {
    seq!['p', 'r', 'i', 'v', 'a', 't', 'e', 'k', 'e', 'y']
}

pub open spec fn kw_accesskey() -> Seq<char> {
    seq!['a', 'c', 'c', 'e', 's', 's', 'k', 'e', 'y']
}

pub open spec fn kw_cookie() -> Seq<char> {
    seq!['c', 'o', 'o', 'k', 'i', 'e']
}

pub open spec fn kw_pin() -> Seq<char> {
    seq!['p', 'i', 'n']
}

pub open spec fn kw_pincode() -> Seq<char> {
    seq!['p', 'i', 'n', 'c', 'o', 'd', 'e']
}

/// The names that the event parser treats as secret.
pub open spec fn is_secret_name(n: Seq<char>) -> bool {
    contains_chars(n, kw_password()) || contains_chars(n, kw_passwd()) || contains_chars(n, kw_secret())
        || n == kw_md5cred() || contains_chars(n, kw_credential()) || contains_chars(n, kw_token())
        || contains_chars(n, kw_authorization()) || contains_chars(n, kw_apikey())
        || contains_chars(n, kw_privatekey()) || contains_chars(n, kw_accesskey())
        || contains_chars(n, kw_cookie())
}

/// The names that the codec treats as secret: those above and PIN codes.
pub open spec fn is_sensitive_name(n: Seq<char>) -> bool {
    is_secret_name(n) || n == kw_pin() || ends_with_chars(n, kw_pin()) || contains_chars(n, kw_pincode())
}

/// `normalize_key` of a string.
pub fn normalize_key_exec(s: &str) -> (r: Vec<char>)
    ensures
        r@ == normalize_key(s@),
{
    let n = s.unicode_len();
    let mut out: Vec<char> = Vec::new();
    let mut i: usize = 0;
    while i < n
        invariant
            n == s@.len(),
            0 <= i <= n,
            out@ == normalize_key(s@.subrange(0, i as int)),
        decreases n - i,
    {
        let c = s.get_char(i);
        let ghost pre = s@.subrange(0, i + 1);
        assert(pre.drop_last() =~= s@.subrange(0, i as int));
        if ('0' <= c && c <= '9') || ('a' <= c && c <= 'z') || ('A' <= c && c <= 'Z') {
            out.push(lower_char_exec(c));
        }
        i = i + 1;
    }
    assert(s@.subrange(0, n as int) =~= s@);
    out
}

/// Whether `needle` occurs in `hay`.
pub fn contains_chars_exec(hay: &Vec<char>, needle: &[char]) -> (r: bool)
    ensures
        r == contains_chars(hay@, needle@),
{
    let n = needle.len();
    let h = hay.len();
    if n > h {
        assert forall|i: int| !#[trigger] chars_at(hay@, needle@, i) by {}
        return false;
    }
    let mut i: usize = 0;
    while i <= h - n
        invariant
            n == needle@.len(),
            h == hay@.len(),
            n <= h,
            0 <= i <= h - n + 1,
            forall|j: int| 0 <= j < i ==> !#[trigger] chars_at(hay@, needle@, j),
        decreases h - n + 1 - i,
    {
        let mut k: usize = 0;
        let mut same = true;
        while k < n
            invariant
                n == needle@.len(),
                h == hay@.len(),
                n <= h,
                i <= h - n,
                0 <= k <= n,
                same == forall|m: int| 0 <= m < k ==> #[trigger] hay@[i + m] == needle@[m],
            decreases n - k,
        {
            if hay[i + k] != needle[k] {
                same = false;
            }
            k = k + 1;
        }
        if same {
            assert forall|m: int| 0 <= m < n implies #[trigger] hay@.subrange(i as int, i + n)[m] == needle@[m] by {
                assert(hay@[i + m] == needle@[m]);
            }
            assert(hay@.subrange(i as int, i + n) =~= needle@);
            assert(chars_at(hay@, needle@, i as int));
            return true;
        }
        proof {
            if chars_at(hay@, needle@, i as int) {
                let m = choose|m: int| 0 <= m < n && #[trigger] hay@[i + m] != needle@[m];
                assert(hay@.subrange(i as int, i + n)[m] == hay@[i + m]);
            }
        }
        i = i + 1;
    }
    assert forall|j: int| !#[trigger] chars_at(hay@, needle@, j) by {
        if 0 <= j < i {
        }
    }
    false
}

/// Whether `hay` equals `needle`.
pub fn chars_equal(hay: &Vec<char>, needle: &[char]) -> (r: bool)
    ensures
        r == (hay@ == needle@),
{
    if hay.len() != needle.len() {
        return false;
    }
    let mut i: usize = 0;
    while i < hay.len()
        invariant
            hay@.len() == needle@.len(),
            0 <= i <= hay@.len(),
            forall|j: int| 0 <= j < i ==> #[trigger] hay@[j] == needle@[j],
        decreases hay@.len() - i,
    {
        if hay[i] != needle[i] {
            return false;
        }
        i = i + 1;
    }
    assert(hay@ =~= needle@);
    true
}

/// Whether `hay` ends with `needle`.
pub fn ends_with_chars_exec(hay: &Vec<char>, needle: &[char]) -> (r: bool)
    ensures
        r == ends_with_chars(hay@, needle@),
{
    let n = needle.len();
    let h = hay.len();
    if n > h {
        return false;
    }
    let mut i: usize = 0;
    while i < n
        invariant
            n == needle@.len(),
            h == hay@.len(),
            n <= h,
            0 <= i <= n,
            forall|j: int| 0 <= j < i ==> #[trigger] hay@[h - n + j] == needle@[j],
        decreases n - i,
    {
        if hay[h - n + i] != needle[i] {
            assert(hay@.subrange(h - n, h as int)[i as int] == hay@[h - n + i]);
            return false;
        }
        i = i + 1;
    }
    assert forall|j: int| 0 <= j < n implies #[trigger] hay@.subrange(h - n, h as int)[j] == needle@[j] by {
        assert(hay@[h - n + j] == needle@[j]);
    }
    assert(hay@.subrange(h - n, h as int) =~= needle@);
    true
}

/// Whether a normalized name is one the event parser treats as secret.
pub fn is_secret_normalized(n: &Vec<char>) -> (r: bool)
    ensures
        r == is_secret_name(n@),
{
    let w_password: [char; 8] = ['p', 'a', 's', 's', 'w', 'o', 'r', 'd'];
    assert(w_password@ == kw_password());
    let w_passwd: [char; 6] = ['p', 'a', 's', 's', 'w', 'd'];
    assert(w_passwd@ == kw_passwd());
    let w_secret: [char; 6] = ['s', 'e', 'c', 'r', 'e', 't'];
    assert(w_secret@ == kw_secret());
    let w_md5cred: [char; 7] = ['m', 'd', '5', 'c', 'r', 'e', 'd'];
    assert(w_md5cred@ == kw_md5cred());
    let w_credential: [char; 10] = ['c', 'r', 'e', 'd', 'e', 'n', 't', 'i', 'a', 'l'];
    assert(w_credential@ == kw_credential());
    let w_token: [char; 5] = ['t', 'o', 'k', 'e', 'n'];
    assert(w_token@ == kw_token());
    let w_authorization: [char; 13] = ['a', 'u', 't', 'h', 'o', 'r', 'i', 'z', 'a', 't', 'i', 'o', 'n'];
    assert(w_authorization@ == kw_authorization());
    let w_apikey: [char; 6] = ['a', 'p', 'i', 'k', 'e', 'y'];
    assert(w_apikey@ == kw_apikey());
    let w_privatekey: [char; 10] = ['p', 'r', 'i', 'v', 'a', 't', 'e', 'k', 'e', 'y'];
    assert(w_privatekey@ == kw_privatekey());
    let w_accesskey: [char; 9] = ['a', 'c', 'c', 'e', 's', 's', 'k', 'e', 'y'];
    assert(w_accesskey@ == kw_accesskey());
    let w_cookie: [char; 6] = ['c', 'o', 'o', 'k', 'i', 'e'];
    assert(w_cookie@ == kw_cookie());
    contains_chars_exec(n, w_password.as_slice())
        || contains_chars_exec(n, w_passwd.as_slice())
        || contains_chars_exec(n, w_secret.as_slice())
        || chars_equal(n, w_md5cred.as_slice())
        || contains_chars_exec(n, w_credential.as_slice())
        || contains_chars_exec(n, w_token.as_slice())
        || contains_chars_exec(n, w_authorization.as_slice())
        || contains_chars_exec(n, w_apikey.as_slice())
        || contains_chars_exec(n, w_privatekey.as_slice())
        || contains_chars_exec(n, w_accesskey.as_slice())
        || contains_chars_exec(n, w_cookie.as_slice())
}

/// `is_sensitive_header`: the codec's test for a header name that carries a secret.
pub fn is_sensitive_header(key: &str) -> (r: bool)
    ensures
        r == is_sensitive_name(normalize_key(key@)),
{
    let n = normalize_key_exec(key);
    let w_pin: [char; 3] = ['p', 'i', 'n'];
    assert(w_pin@ == kw_pin());
    let w_pincode: [char; 7] = ['p', 'i', 'n', 'c', 'o', 'd', 'e'];
    assert(w_pincode@ == kw_pincode());
    is_secret_normalized(&n) || chars_equal(&n, w_pin.as_slice()) || ends_with_chars_exec(&n, w_pin.as_slice())
        || contains_chars_exec(&n, w_pincode.as_slice())
}

/// `[REDACTED]`
pub open spec fn redacted_marker() -> Seq<char> {
    seq!['[', 'R', 'E', 'D', 'A', 'C', 'T', 'E', 'D', ']']
}

/// The value shown for a header in diagnostics: the marker for a sensitive
/// name, the value itself otherwise.
pub fn redacted_header_value<'a>(key: &str, value: &'a str) -> (r: &'a str)
    ensures
        r@ == (if is_sensitive_name(normalize_key(key@)) { redacted_marker() } else { value@ }),
{
    if is_sensitive_header(key) {
        let m = "[REDACTED]";
        proof {
            reveal_strlit("[REDACTED]");
        }
        assert(m@ =~= redacted_marker());
        m
    } else {
        value
    }
}

} // verus!
