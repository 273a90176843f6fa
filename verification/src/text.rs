//! Character and byte helpers shared by the protocol codecs: ASCII case
//! folding, whitespace trimming, searching, and decimal integer text.
use vstd::prelude::*;

verus! {

// ---------------------------------------------------------------------------
// ASCII classification and case folding
// ---------------------------------------------------------------------------

/// `u8::is_ascii_whitespace`: space, tab, line feed, form feed, carriage return.
pub open spec fn is_ws_byte(b: u8) -> bool {
    b == 32 || b == 9 || b == 10 || b == 12 || b == 13
}

/// ASCII lower-casing of one byte.
pub open spec fn lower_byte(b: u8) -> u8 {
    if 65 <= b <= 90 {
        (b + 32) as u8
    } else {
        b
    }
}

/// ASCII lower-casing of one character.
pub open spec fn lower_char(c: char) -> char {
    if 'A' <= c <= 'Z' {
        ((c as u32) + 32) as char
    } else {
        c
    }
}

/// Two byte strings are equal up to ASCII case.
pub open spec fn eq_ic_bytes(a: Seq<u8>, b: Seq<u8>) -> bool {
    &&& a.len() == b.len()
    &&& forall|i: int| 0 <= i < a.len() ==> lower_byte(#[trigger] a[i]) == lower_byte(b[i])
}

/// Two character strings are equal up to ASCII case.
pub open spec fn eq_ic_chars(a: Seq<char>, b: Seq<char>) -> bool {
    &&& a.len() == b.len()
    &&& forall|i: int| 0 <= i < a.len() ==> lower_char(#[trigger] a[i]) == lower_char(b[i])
}

pub fn lower_byte_exec(b: u8) -> (r: u8)
    ensures
        r == lower_byte(b),
{
    if 65 <= b && b <= 90 {
        b + 32
    } else {
        b
    }
}

pub fn lower_char_exec(c: char) -> (r: char)
    ensures
        r == lower_char(c),
{
    if 'A' <= c && c <= 'Z' {
        let v: u32 = (c as u32) + 32;
        let r: char = (v as u8) as char;
        assert(r == lower_char(c)) by {
            assert((v as u8) as char == v as char);
        }
        r
    } else {
        c
    }
}

/// `<[u8]>::eq_ignore_ascii_case`
pub fn bytes_eq_ignore_case(a: &[u8], b: &[u8]) -> (r: bool)
    ensures
        r == eq_ic_bytes(a@, b@),
{
    if a.len() != b.len() {
        return false;
    }
    let mut i: usize = 0;
    while i < a.len()
        invariant
            a@.len() == b@.len(),
            0 <= i <= a@.len(),
            forall|j: int| 0 <= j < i ==> lower_byte(#[trigger] a@[j]) == lower_byte(b@[j]),
        decreases a@.len() - i,
    {
        if lower_byte_exec(a[i]) != lower_byte_exec(b[i]) {
            return false;
        }
        i = i + 1;
    }
    true
}

/// `str::eq_ignore_ascii_case`
pub fn str_eq_ignore_case(a: &str, b: &str) -> (r: bool)
    ensures
        r == eq_ic_chars(a@, b@),
{
    let n = a.unicode_len();
    let m = b.unicode_len();
    if n != m {
        return false;
    }
    let mut i: usize = 0;
    while i < n
        invariant
            n == a@.len(),
            m == b@.len(),
            n == m,
            0 <= i <= n,
            forall|j: int| 0 <= j < i ==> lower_char(#[trigger] a@[j]) == lower_char(b@[j]),
        decreases n - i,
    {
        if lower_char_exec(a.get_char(i)) != lower_char_exec(b.get_char(i)) {
            return false;
        }
        i = i + 1;
    }
    true
}

/// Exact string equality.
pub fn str_eq(a: &str, b: &str) -> (r: bool)
    ensures
        r == (a@ == b@),
{
    let n = a.unicode_len();
    let m = b.unicode_len();
    if n != m {
        return false;
    }
    let mut i: usize = 0;
    while i < n
        invariant
            n == a@.len(),
            m == b@.len(),
            n == m,
            0 <= i <= n,
            forall|j: int| 0 <= j < i ==> #[trigger] a@[j] == b@[j],
        decreases n - i,
    {
        if a.get_char(i) != b.get_char(i) {
            assert(a@[i as int] != b@[i as int]);
            return false;
        }
        i = i + 1;
    }
    assert(a@ =~= b@);
    true
}

/// Whether `c` occurs in `s`.
pub fn str_has_char(s: &str, c: char) -> (r: bool)
    ensures
        r == s@.contains(c),
{
    let n = s.unicode_len();
    let mut i: usize = 0;
    while i < n
        invariant
            n == s@.len(),
            0 <= i <= n,
            forall|j: int| 0 <= j < i ==> #[trigger] s@[j] != c,
        decreases n - i,
    {
        if s.get_char(i) == c {
            assert(s@[i as int] == c);
            return true;
        }
        i = i + 1;
    }
    false
}

// ---------------------------------------------------------------------------
// Trimming and searching byte strings
// ---------------------------------------------------------------------------

/// Number of leading ASCII whitespace bytes.
pub open spec fn lead_ws(s: Seq<u8>) -> nat
    decreases s.len(),
{
    if s.len() > 0 && is_ws_byte(s[0]) {
        1 + lead_ws(s.drop_first())
    } else {
        0
    }
}

/// Number of trailing ASCII whitespace bytes.
pub open spec fn trail_ws(s: Seq<u8>) -> nat
    decreases s.len(),
{
    if s.len() > 0 && is_ws_byte(s.last()) {
        1 + trail_ws(s.drop_last())
    } else {
        0
    }
}

/// `<[u8]>::trim_ascii`: leading then trailing ASCII whitespace removed.
pub open spec fn trim_bytes(s: Seq<u8>) -> Seq<u8> {
    let t = s.subrange(lead_ws(s) as int, s.len() as int);
    t.subrange(0, t.len() - trail_ws(t))
}

pub proof fn lemma_lead_ws_bound(s: Seq<u8>)
    ensures
        lead_ws(s) <= s.len(),
        forall|i: int| 0 <= i < lead_ws(s) ==> is_ws_byte(#[trigger] s[i]),
        lead_ws(s) < s.len() ==> !is_ws_byte(s[lead_ws(s) as int]),
    decreases s.len(),
{
    if s.len() > 0 && is_ws_byte(s[0]) {
        lemma_lead_ws_bound(s.drop_first());
        assert forall|i: int| 0 <= i < lead_ws(s) implies is_ws_byte(#[trigger] s[i]) by {
            if i > 0 {
                assert(s[i] == s.drop_first()[i - 1]);
            }
        }
    }
}

pub proof fn lemma_trail_ws_bound(s: Seq<u8>)
    ensures
        trail_ws(s) <= s.len(),
        forall|i: int| s.len() - trail_ws(s) <= i < s.len() ==> is_ws_byte(#[trigger] s[i]),
        trail_ws(s) < s.len() ==> !is_ws_byte(s[s.len() - trail_ws(s) - 1]),
    decreases s.len(),
{
    if s.len() > 0 && is_ws_byte(s.last()) {
        lemma_trail_ws_bound(s.drop_last());
        assert forall|i: int| s.len() - trail_ws(s) <= i < s.len() implies is_ws_byte(
            #[trigger] s[i],
        ) by {
            if i < s.len() - 1 {
                assert(s[i] == s.drop_last()[i]);
            }
        }
    }
}

/// A run of whitespace followed by a non-whitespace byte (or the end) has
/// exactly that many leading whitespace bytes.
pub proof fn lemma_lead_ws_exact(s: Seq<u8>, k: int)
    requires
        0 <= k <= s.len(),
        forall|i: int| 0 <= i < k ==> is_ws_byte(#[trigger] s[i]),
        k < s.len() ==> !is_ws_byte(s[k]),
    ensures
        lead_ws(s) == k,
    decreases s.len(),
{
    if k > 0 {
        assert(is_ws_byte(s[0]));
        assert forall|i: int| 0 <= i < k - 1 implies is_ws_byte(#[trigger] s.drop_first()[i]) by {
            assert(s.drop_first()[i] == s[i + 1]);
        }
        lemma_lead_ws_exact(s.drop_first(), k - 1);
    }
}

pub proof fn lemma_trail_ws_exact(s: Seq<u8>, k: int)
    requires
        0 <= k <= s.len(),
        forall|i: int| s.len() - k <= i < s.len() ==> is_ws_byte(#[trigger] s[i]),
        k < s.len() ==> !is_ws_byte(s[s.len() - k - 1]),
    ensures
        trail_ws(s) == k,
    decreases s.len(),
{
    if k > 0 {
        assert(is_ws_byte(s.last()));
        assert forall|i: int| s.drop_last().len() - (k - 1) <= i < s.drop_last().len() implies is_ws_byte(
            #[trigger] s.drop_last()[i],
        ) by {
            assert(s.drop_last()[i] == s[i]);
        }
        lemma_trail_ws_exact(s.drop_last(), k - 1);
    }
}

/// Bounds `(start, end)` of `trim_bytes(s[from..to])` inside `s`.
pub fn trim_range(s: &[u8], from: usize, to: usize) -> (r: (usize, usize))
    requires
        from <= to <= s@.len(),
    ensures
        from <= r.0 <= r.1 <= to,
        s@.subrange(r.0 as int, r.1 as int) == trim_bytes(s@.subrange(from as int, to as int)),
{
    let ghost t = s@.subrange(from as int, to as int);
    let mut a: usize = from;
    while a < to && is_ws_exec(s[a])
        invariant
            from <= a <= to <= s@.len(),
            t == s@.subrange(from as int, to as int),
            forall|i: int| from <= i < a ==> is_ws_byte(#[trigger] s@[i]),
        decreases to - a,
    {
        a = a + 1;
    }
    proof {
        assert forall|i: int| 0 <= i < a - from implies is_ws_byte(#[trigger] t[i]) by {
            assert(t[i] == s@[from + i]);
        }
        lemma_lead_ws_exact(t, a - from);
    }
    let ghost u = t.subrange(lead_ws(t) as int, t.len() as int);
    assert(u =~= s@.subrange(a as int, to as int));
    let mut b: usize = to;
    while b > a && is_ws_exec(s[b - 1])
        invariant
            from <= a <= b <= to <= s@.len(),
            forall|i: int| b <= i < to ==> is_ws_byte(#[trigger] s@[i]),
        decreases b,
    {
        b = b - 1;
    }
    proof {
        assert forall|i: int| u.len() - (to - b) <= i < u.len() implies is_ws_byte(#[trigger] u[i]) by {
            assert(u[i] == s@[a + i]);
        }
        if to - b < u.len() {
            assert(u[u.len() - (to - b) - 1] == s@[b - 1]);
        }
        lemma_trail_ws_exact(u, (to - b) as int);
        assert(s@.subrange(a as int, b as int) =~= u.subrange(0, u.len() - trail_ws(u)));
    }
    (a, b)
}

pub fn is_ws_exec(b: u8) -> (r: bool)
    ensures
        r == is_ws_byte(b),
{
    b == 32 || b == 9 || b == 10 || b == 12 || b == 13
}

/// `needle` occurs in `hay` at index `i`.
pub open spec fn match_at(hay: Seq<u8>, needle: Seq<u8>, i: int) -> bool {
    0 <= i && i + needle.len() <= hay.len() && hay.subrange(i, i + needle.len()) == needle
}

/// `i` is the first index at which `needle` occurs in `hay`.
pub open spec fn first_match(hay: Seq<u8>, needle: Seq<u8>, i: int) -> bool {
    match_at(hay, needle, i) && forall|j: int| 0 <= j < i ==> !#[trigger] match_at(hay, needle, j)
}

/// Index of the first occurrence of `needle` in `hay`, if any.
pub open spec fn find_sub(hay: Seq<u8>, needle: Seq<u8>) -> Option<int> {
    if exists|i: int| #[trigger] first_match(hay, needle, i) {
        Some(choose|i: int| #[trigger] first_match(hay, needle, i))
    } else {
        None
    }
}

/// A match at `i` with no earlier match is what `find_sub` reports.
pub proof fn lemma_find_sub_at(hay: Seq<u8>, needle: Seq<u8>, i: int)
    requires
        first_match(hay, needle, i),
    ensures
        find_sub(hay, needle) == Some(i),
{
    let c = choose|k: int| #[trigger] first_match(hay, needle, k);
    assert(first_match(hay, needle, c));
    if c < i {
        assert(!match_at(hay, needle, c));
    } else if c > i {
        assert(!match_at(hay, needle, i));
    }
}

/// With no match anywhere, `find_sub` reports none.
pub proof fn lemma_find_sub_none(hay: Seq<u8>, needle: Seq<u8>)
    requires
        forall|j: int| !#[trigger] match_at(hay, needle, j),
    ensures
        find_sub(hay, needle) is None,
{
    if exists|i: int| #[trigger] first_match(hay, needle, i) {
        let c = choose|k: int| #[trigger] first_match(hay, needle, k);
        assert(match_at(hay, needle, c));
    }
}

/// `windows(needle.len()).position(|w| w == needle)` over `hay[from..]`,
/// reported as an absolute index.
pub fn find_sub_exec(hay: &[u8], needle: &[u8]) -> (r: Option<usize>)
    requires
        needle@.len() > 0,
    ensures
        match r {
            Some(i) => find_sub(hay@, needle@) == Some(i as int),
            None => find_sub(hay@, needle@) is None,
        },
{
    let n = needle.len();
    if hay.len() < n {
        proof {
            lemma_find_sub_none(hay@, needle@);
        }
        return None;
    }
    let last = hay.len() - n;
    let mut i: usize = 0;
    while i <= last
        invariant
            n == needle@.len(),
            n > 0,
            last + n == hay@.len(),
            hay@.len() <= usize::MAX,
            0 <= i <= last + 1,
            forall|j: int| 0 <= j < i ==> !#[trigger] match_at(hay@, needle@, j),
        decreases last + 1 - i,
    {
        let mut k: usize = 0;
        let mut same = true;
        while k < n
            invariant
                n == needle@.len(),
                n > 0,
                last + n == hay@.len(),
                hay@.len() <= usize::MAX,
                i <= last,
                0 <= k <= n,
                forall|j: int| 0 <= j < i ==> !#[trigger] match_at(hay@, needle@, j),
                same == forall|m: int| 0 <= m < k ==> #[trigger] hay@[i + m] == needle@[m],
            decreases n - k,
        {
            if hay[i + k] != needle[k] {
                same = false;
            }
            k = k + 1;
        }
        if same {
            proof {
                assert forall|m: int| 0 <= m < n implies #[trigger] hay@.subrange(i as int, i + n)[m] == needle@[m] by {
                    assert(hay@[i + m] == needle@[m]);
                }
                assert(hay@.subrange(i as int, i + n) =~= needle@);
                lemma_find_sub_at(hay@, needle@, i as int);
            }
            return Some(i);
        } else {
            proof {
                let m = choose|m: int| 0 <= m < n && #[trigger] hay@[i + m] != needle@[m];
                assert(hay@.subrange(i as int, i + n)[m] == hay@[i + m]);
            }
        }
        i = i + 1;
    }
    proof {
        assert forall|j: int| !#[trigger] match_at(hay@, needle@, j) by {
            if 0 <= j < i {
            }
        }
        lemma_find_sub_none(hay@, needle@);
    }
    None
}


// ---------------------------------------------------------------------------
// building strings
// ---------------------------------------------------------------------------

/// `String::push`: appends one character.
#[verifier::external_body]
pub(crate) fn push_char(s: &mut String, c: char)
    ensures
        final(s)@ == old(s)@.push(c),
{
    s.push(c)
}

/// `s` followed by `t`.
pub fn concat_str(s: &str, t: &str) -> (r: String)
    ensures
        r@ == s@ + t@,
{
    let mut r = s.to_owned();
    vstd::string::StringExecFns::append(&mut r, t);
    r
}

// ---------------------------------------------------------------------------
// decimal integers
// ---------------------------------------------------------------------------

/// The character of a decimal digit.
pub open spec fn digit_char(d: int) -> char {
    ((48 + d) as u8) as char
}

/// Decimal text of a natural number, as `to_string` writes it.
pub open spec fn dec(n: nat) -> Seq<char>
    decreases n,
{
    if n < 10 {
        seq![digit_char(n as int)]
    } else {
        dec(n / 10).push(digit_char((n % 10) as int))
    }
}

/// Distinct digits have distinct characters.
proof fn lemma_digit_char_injective(d: int, e: int)
    requires
        0 <= d < 10,
        0 <= e < 10,
        digit_char(d) == digit_char(e),
    ensures
        d == e,
{
    let x = (48 + d) as u8;
    let y = (48 + e) as u8;
    assert(x as int == 48 + d);
    assert(y as int == 48 + e);
    assert((x as char) as u32 == x as u32);
    assert((y as char) as u32 == y as u32);
}

/// The character of a digit is that digit's ASCII code.
pub proof fn lemma_digit_char_code(d: int)
    requires
        0 <= d < 10,
    ensures
        digit_char(d) as int == 48 + d,
        '0' <= digit_char(d) <= '9',
{
    let x = (48 + d) as u8;
    assert(x as int == 48 + d);
    assert((x as char) as u32 == x as u32);
}

/// The decimal text of a number is a non-empty string of digits whose value
/// is the number.
pub proof fn lemma_dec_digits(m: nat)
    ensures
        dec(m).len() >= 1,
        all_digits(dec(m)),
        digits_value(dec(m)) == m,
    decreases m,
{
    if m < 10 {
        lemma_digit_char_code(m as int);
        assert(dec(m).drop_last() =~= Seq::<char>::empty());
        assert(dec(m).last() == digit_char(m as int));
        assert(digits_value(Seq::<char>::empty()) == 0);
        assert(digits_value(dec(m)) == digits_value(dec(m).drop_last()) * 10 + ((dec(m).last() as int) - 48) as nat);
    } else {
        lemma_dec_digits(m / 10);
        lemma_digit_char_code((m % 10) as int);
        let d = dec(m);
        assert(d.drop_last() =~= dec(m / 10));
        assert forall|i: int| 0 <= i < d.len() implies '0' <= #[trigger] d[i] <= '9' by {
            if i < d.len() - 1 {
                assert(d[i] == dec(m / 10)[i]);
            }
        }
        assert(m == (m / 10) * 10 + m % 10) by (nonlinear_arith);
        assert(d.last() == digit_char((m % 10) as int));
        assert(digits_value(d) == digits_value(d.drop_last()) * 10 + ((d.last() as int) - 48) as nat);
        assert(digits_value(d.drop_last()) == m / 10);
    }
}

/// Distinct numbers have distinct decimal texts.
pub proof fn lemma_dec_injective(a: nat, b: nat)
    requires
        dec(a) == dec(b),
    ensures
        a == b,
    decreases a,
{
    if a < 10 && b < 10 {
        assert(dec(a)[0] == digit_char(a as int));
        assert(dec(b)[0] == digit_char(b as int));
        assert(dec(a)[0] == dec(b)[0]);
        lemma_digit_char_injective(a as int, b as int);
    } else if a >= 10 && b >= 10 {
        assert(dec(a).drop_last() =~= dec(a / 10));
        assert(dec(b).drop_last() =~= dec(b / 10));
        lemma_dec_injective(a / 10, b / 10);
        assert(dec(a).last() == digit_char((a % 10) as int));
        assert(dec(b).last() == digit_char((b % 10) as int));
        assert(dec(a).last() == dec(b).last());
        lemma_digit_char_injective((a % 10) as int, (b % 10) as int);
    } else if a < 10 {
        lemma_dec_nonempty(b / 10);
        assert(dec(a).len() != dec(b).len());
    } else {
        lemma_dec_nonempty(a / 10);
        assert(dec(a).len() != dec(b).len());
    }
}

/// A decimal text has at least one digit.
pub proof fn lemma_dec_nonempty(n: nat)
    ensures
        dec(n).len() >= 1,
    decreases n,
{
    if n >= 10 {
        lemma_dec_nonempty(n / 10);
    }
}

/// Decimal text of an integer, with a leading `-` when negative.
pub open spec fn dec_int(n: int) -> Seq<char> {
    if n < 0 {
        seq!['-'] + dec((-n) as nat)
    } else {
        dec(n as nat)
    }
}

/// Appends the decimal text of `n`.
pub fn write_dec(out: &mut String, n: u64)
    ensures
        final(out)@ == old(out)@ + dec(n as nat),
    decreases n,
{
    if n >= 10 {
        write_dec(out, n / 10);
    }
    let d: u8 = (n % 10) as u8;
    let c: char = (48u8 + d) as char;
    push_char(out, c);
    assert(final(out)@ =~= old(out)@ + dec(n as nat));
}

/// `u64::to_string`
pub fn u64_to_string(n: u64) -> (r: String)
    ensures
        r@ == dec(n as nat),
{
    let mut s = String::new();
    write_dec(&mut s, n);
    assert(s@ =~= dec(n as nat));
    s
}

/// `u32::to_string`
pub fn u32_to_string(n: u32) -> (r: String)
    ensures
        r@ == dec(n as nat),
{
    u64_to_string(n as u64)
}

/// `i64::to_string`
pub fn i64_to_string(n: i64) -> (r: String)
    ensures
        r@ == dec_int(n as int),
{
    if n < 0 {
        let m: u64 = if n == i64::MIN { 9223372036854775808u64 } else { (-n) as u64 };
        let mut s = String::new();
        push_char(&mut s, '-');
        write_dec(&mut s, m);
        assert(s@ =~= seq!['-'] + dec(m as nat));
        s
    } else {
        u64_to_string(n as u64)
    }
}

/// `bool::to_string`
pub fn bool_to_string(b: bool) -> (r: String)
    ensures
        r@ == (if b { "true"@ } else { "false"@ }),
{
    if b {
        "true".to_owned()
    } else {
        "false".to_owned()
    }
}

/// Every character is an ASCII decimal digit.
pub open spec fn all_digits(s: Seq<char>) -> bool {
    forall|i: int| 0 <= i < s.len() ==> '0' <= #[trigger] s[i] <= '9'
}

/// Value of a string of decimal digits.
pub open spec fn digits_value(s: Seq<char>) -> nat
    decreases s.len(),
{
    if s.len() == 0 {
        0
    } else {
        digits_value(s.drop_last()) * 10 + ((s.last() as int) - 48) as nat
    }
}

/// The digits after an optional leading `+`, when any digit text remains.
pub open spec fn unsigned_body(s: Seq<char>) -> Option<Seq<char>> {
    if s.len() == 0 || s == seq!['+'] || s == seq!['-'] {
        None
    } else if s[0] == '+' {
        Some(s.drop_first())
    } else {
        Some(s)
    }
}

/// `str::parse` of an unsigned integer of at most `max`: an optional `+`,
/// then one or more ASCII digits whose value does not exceed `max`.
pub open spec fn parse_unsigned(s: Seq<char>, max: int) -> Option<nat> {
    match unsigned_body(s) {
        Some(b) => if all_digits(b) && digits_value(b) <= max { Some(digits_value(b)) } else { None },
        None => None,
    }
}

/// `str::parse` of a signed integer in `min..=max`: an optional `+` or `-`,
/// then one or more ASCII digits.
pub open spec fn parse_signed(s: Seq<char>, min: int, max: int) -> Option<int> {
    if s.len() > 1 && s[0] == '-' {
        let b = s.drop_first();
        if all_digits(b) && -(digits_value(b) as int) >= min { Some(-(digits_value(b) as int)) } else { None }
    } else {
        match unsigned_body(s) {
            Some(b) => if all_digits(b) && digits_value(b) <= max { Some(digits_value(b) as int) } else { None },
            None => None,
        }
    }
}

/// Value of the digits `s[from..]`, if all are digits and it fits in a `u64`.
fn digits_u64(s: &str, from: usize, n: usize) -> (r: Option<u64>)
    requires
        n == s@.len(),
        from <= n,
    ensures
        match r {
            Some(v) => all_digits(s@.subrange(from as int, n as int)) && v == digits_value(s@.subrange(from as int, n as int)),
            None => !all_digits(s@.subrange(from as int, n as int)) || digits_value(s@.subrange(from as int, n as int)) > u64::MAX,
        },
{
    let mut v: u64 = 0;
    let mut i: usize = from;
    while i < n
        invariant
            n == s@.len(),
            from <= i <= n,
            all_digits(s@.subrange(from as int, i as int)),
            v == digits_value(s@.subrange(from as int, i as int)),
        decreases n - i,
    {
        let c = s.get_char(i);
        let ghost pre = s@.subrange(from as int, i + 1);
        assert(pre.drop_last() =~= s@.subrange(from as int, i as int));
        if c < '0' || c > '9' {
            proof {
                let full = s@.subrange(from as int, n as int);
                assert(full[i - from] == c);
            }
            return None;
        }
        let d: u64 = (c as u32 - 48) as u64;
        let next = v.checked_mul(10);
        let next = match next {
            Some(x) => x.checked_add(d),
            None => None,
        };
        match next {
            Some(x) => {
                v = x;
            },
            None => {
                proof {
                    lemma_digits_value_prefix(s@.subrange(from as int, n as int), i + 1 - from);
                    assert(s@.subrange(from as int, n as int).subrange(0, i + 1 - from) =~= pre);
                }
                return None;
            },
        }
        i = i + 1;
    }
    Some(v)
}

/// A digit string is worth at least any of its prefixes.
pub proof fn lemma_digits_value_prefix(s: Seq<char>, k: int)
    requires
        0 <= k <= s.len(),
    ensures
        all_digits(s) ==> digits_value(s.subrange(0, k)) <= digits_value(s),
    decreases s.len(),
{
    if k < s.len() {
        assert(s.drop_last().subrange(0, k) =~= s.subrange(0, k));
        if all_digits(s) {
            assert forall|i: int| 0 <= i < s.drop_last().len() implies '0' <= #[trigger] s.drop_last()[i] <= '9' by {
                assert(s.drop_last()[i] == s[i]);
            }
        }
        lemma_digits_value_prefix(s.drop_last(), k);
    } else {
        assert(s.subrange(0, k) =~= s);
    }
}

/// Magnitude text of `s` after the sign handling shared by all integer types:
/// `(negative, start)`, or `None` for an empty or lone-sign string.
fn sign_split(s: &str, n: usize, signed: bool) -> (r: Option<(bool, usize)>)
    requires
        n == s@.len(),
    ensures
        match r {
            None => s@.len() == 0 || s@ == seq!['+'] || s@ == seq!['-'],
            Some((neg, start)) => s@.len() > 0 && s@ != seq!['+'] && s@ != seq!['-'] && start <= n
                && (neg ==> signed && s@.len() > 1 && s@[0] == '-' && start == 1)
                && (!neg ==> !(signed && s@.len() > 1 && s@[0] == '-')
                    && (if s@[0] == '+' { start == 1 } else { start == 0 })),
        },
{
    if n == 0 {
        return None;
    }
    let c0 = s.get_char(0);
    if n == 1 && (c0 == '+' || c0 == '-') {
        assert(s@ =~= seq![c0]);
        return None;
    }
    proof {
        if s@ == seq!['+'] || s@ == seq!['-'] {
            assert(s@[0] == c0);
        }
    }
    if signed && c0 == '-' {
        Some((true, 1))
    } else if c0 == '+' {
        Some((false, 1))
    } else {
        Some((false, 0))
    }
}

/// `str::parse::<u64>()`
pub fn parse_u64(s: &str) -> (r: Option<u64>)
    ensures
        match parse_unsigned(s@, u64::MAX as int) {
            Some(v) => r == Some(v as u64),
            None => r is None,
        },
{
    let n = s.unicode_len();
    match sign_split(s, n, false) {
        None => None,
        Some((_neg, start)) => {
            assert(s@.drop_first() =~= s@.subrange(1, n as int));
            assert(s@ =~= s@.subrange(0, n as int));
            digits_u64(s, start, n)
        },
    }
}

/// `str::parse::<u32>()`
pub fn parse_u32(s: &str) -> (r: Option<u32>)
    ensures
        match parse_unsigned(s@, u32::MAX as int) {
            Some(v) => r == Some(v as u32),
            None => r is None,
        },
{
    match parse_u64(s) {
        Some(v) => if v <= u32::MAX as u64 { Some(v as u32) } else { None },
        None => None,
    }
}

/// `str::parse::<u16>()`
pub fn parse_u16(s: &str) -> (r: Option<u16>)
    ensures
        match parse_unsigned(s@, u16::MAX as int) {
            Some(v) => r == Some(v as u16),
            None => r is None,
        },
{
    match parse_u64(s) {
        Some(v) => if v <= u16::MAX as u64 { Some(v as u16) } else { None },
        None => None,
    }
}

/// `str::parse::<i64>()`
pub fn parse_i64(s: &str) -> (r: Option<i64>)
    ensures
        match parse_signed(s@, i64::MIN as int, i64::MAX as int) {
            Some(v) => r == Some(v as i64),
            None => r is None,
        },
{
    let n = s.unicode_len();
    match sign_split(s, n, true) {
        None => None,
        Some((neg, start)) => {
            assert(s@.drop_first() =~= s@.subrange(1, n as int));
            assert(s@ =~= s@.subrange(0, n as int));
            match digits_u64(s, start, n) {
                None => None,
                Some(m) => {
                    if neg {
                        if m <= 9223372036854775808u64 {
                            if m == 9223372036854775808u64 {
                                Some(i64::MIN)
                            } else {
                                Some(-(m as i64))
                            }
                        } else {
                            None
                        }
                    } else if m <= i64::MAX as u64 {
                        Some(m as i64)
                    } else {
                        None
                    }
                },
            }
        },
    }
}

/// `str::parse::<i32>()`
pub fn parse_i32(s: &str) -> (r: Option<i32>)
    ensures
        match parse_signed(s@, i32::MIN as int, i32::MAX as int) {
            Some(v) => r == Some(v as i32),
            None => r is None,
        },
{
    match parse_i64(s) {
        Some(v) => if i32::MIN as i64 <= v && v <= i32::MAX as i64 { Some(v as i32) } else { None },
        None => {
            None
        },
    }
}


// ---------------------------------------------------------------------------
// Unicode whitespace and character searching
// ---------------------------------------------------------------------------

/// `char::is_whitespace`: the Unicode `White_Space` property.
pub open spec fn is_space_char(c: char) -> bool {
    c == '\t' || c == '\n' || c == '\u{0B}' || c == '\u{0C}' || c == '\r' || c == ' '
        || c == '\u{85}' || c == '\u{A0}' || c == '\u{1680}' || ('\u{2000}' <= c <= '\u{200A}')
        || c == '\u{2028}' || c == '\u{2029}' || c == '\u{202F}' || c == '\u{205F}' || c == '\u{3000}'
}

pub fn is_space_char_exec(c: char) -> (r: bool)
    ensures
        r == is_space_char(c),
{
    c == '\t' || c == '\n' || c == '\u{0B}' || c == '\u{0C}' || c == '\r' || c == ' '
        || c == '\u{85}' || c == '\u{A0}' || c == '\u{1680}' || ('\u{2000}' <= c && c <= '\u{200A}')
        || c == '\u{2028}' || c == '\u{2029}' || c == '\u{202F}' || c == '\u{205F}' || c == '\u{3000}'
}

/// Number of leading whitespace characters.
pub open spec fn lead_space(s: Seq<char>) -> nat
    decreases s.len(),
{
    if s.len() > 0 && is_space_char(s[0]) {
        1 + lead_space(s.drop_first())
    } else {
        0
    }
}

/// Number of trailing whitespace characters.
pub open spec fn trail_space(s: Seq<char>) -> nat
    decreases s.len(),
{
    if s.len() > 0 && is_space_char(s.last()) {
        1 + trail_space(s.drop_last())
    } else {
        0
    }
}

/// `str::trim`: leading and trailing whitespace removed.
pub open spec fn trim_chars(s: Seq<char>) -> Seq<char> {
    let t = s.subrange(lead_space(s) as int, s.len() as int);
    t.subrange(0, t.len() - trail_space(t))
}

pub proof fn lemma_lead_space_exact(s: Seq<char>, k: int)
    requires
        0 <= k <= s.len(),
        forall|i: int| 0 <= i < k ==> is_space_char(#[trigger] s[i]),
        k < s.len() ==> !is_space_char(s[k]),
    ensures
        lead_space(s) == k,
    decreases s.len(),
{
    if k > 0 {
        assert(is_space_char(s[0]));
        assert forall|i: int| 0 <= i < k - 1 implies is_space_char(#[trigger] s.drop_first()[i]) by {
            assert(s.drop_first()[i] == s[i + 1]);
        }
        lemma_lead_space_exact(s.drop_first(), k - 1);
    }
}

pub proof fn lemma_trail_space_exact(s: Seq<char>, k: int)
    requires
        0 <= k <= s.len(),
        forall|i: int| s.len() - k <= i < s.len() ==> is_space_char(#[trigger] s[i]),
        k < s.len() ==> !is_space_char(s[s.len() - k - 1]),
    ensures
        trail_space(s) == k,
    decreases s.len(),
{
    if k > 0 {
        assert(is_space_char(s.last()));
        assert forall|i: int| s.drop_last().len() - (k - 1) <= i < s.drop_last().len() implies is_space_char(
            #[trigger] s.drop_last()[i],
        ) by {
            assert(s.drop_last()[i] == s[i]);
        }
        lemma_trail_space_exact(s.drop_last(), k - 1);
    }
}

/// `str::trim`
pub fn trim_str(s: &str) -> (r: &str)
    ensures
        r@ == trim_chars(s@),
{
    let n = s.unicode_len();
    let mut a: usize = 0;
    while a < n && is_space_char_exec(s.get_char(a))
        invariant
            n == s@.len(),
            0 <= a <= n,
            forall|i: int| 0 <= i < a ==> is_space_char(#[trigger] s@[i]),
        decreases n - a,
    {
        a = a + 1;
    }
    proof {
        lemma_lead_space_exact(s@, a as int);
    }
    let ghost u = s@.subrange(a as int, n as int);
    let mut b: usize = n;
    while b > a && is_space_char_exec(s.get_char(b - 1))
        invariant
            n == s@.len(),
            0 <= a <= b <= n,
            forall|i: int| b <= i < n ==> is_space_char(#[trigger] s@[i]),
        decreases b,
    {
        b = b - 1;
    }
    proof {
        assert forall|i: int| u.len() - (n - b) <= i < u.len() implies is_space_char(#[trigger] u[i]) by {
            assert(u[i] == s@[a + i]);
        }
        if n - b < u.len() {
            assert(u[u.len() - (n - b) - 1] == s@[b - 1]);
        }
        lemma_trail_space_exact(u, (n - b) as int);
        assert(s@.subrange(a as int, b as int) =~= u.subrange(0, u.len() - trail_space(u)));
    }
    s.substring_char(a, b)
}

/// Index of the first `c` in `s`.
pub open spec fn char_index(s: Seq<char>, c: char) -> Option<int>
    decreases s.len(),
{
    if s.len() == 0 {
        None
    } else if s[0] == c {
        Some(0)
    } else {
        match char_index(s.drop_first(), c) {
            Some(i) => Some(i + 1),
            None => None,
        }
    }
}

/// Index of the last `c` in `s`.
pub open spec fn char_rindex(s: Seq<char>, c: char) -> Option<int>
    decreases s.len(),
{
    if s.len() == 0 {
        None
    } else if s.last() == c {
        Some(s.len() - 1)
    } else {
        char_rindex(s.drop_last(), c)
    }
}

pub proof fn lemma_char_index(s: Seq<char>, c: char, k: int)
    requires
        0 <= k <= s.len(),
        forall|j: int| 0 <= j < k ==> #[trigger] s[j] != c,
        k < s.len() ==> s[k] == c,
    ensures
        char_index(s, c) == (if k < s.len() { Some(k) } else { None::<int> }),
    decreases s.len(),
{
    if s.len() > 0 && k > 0 {
        assert forall|j: int| 0 <= j < k - 1 implies #[trigger] s.drop_first()[j] != c by {
            assert(s.drop_first()[j] == s[j + 1]);
        }
        lemma_char_index(s.drop_first(), c, k - 1);
    }
}

pub proof fn lemma_char_rindex(s: Seq<char>, c: char, k: int)
    requires
        -1 <= k < s.len(),
        forall|j: int| k < j < s.len() ==> #[trigger] s[j] != c,
        k >= 0 ==> s[k] == c,
    ensures
        char_rindex(s, c) == (if k >= 0 { Some(k) } else { None::<int> }),
    decreases s.len(),
{
    if s.len() > 0 && k < s.len() - 1 {
        assert forall|j: int| k < j < s.drop_last().len() implies #[trigger] s.drop_last()[j] != c by {
            assert(s.drop_last()[j] == s[j]);
        }
        lemma_char_rindex(s.drop_last(), c, k);
    }
}

/// `str::find(c)`, as a character index.
pub fn find_char(s: &str, c: char) -> (r: Option<usize>)
    ensures
        match char_index(s@, c) {
            Some(i) => r matches Some(k) && k == i,
            None => r is None,
        },
        r matches Some(k) ==> k < s@.len(),
{
    let n = s.unicode_len();
    let mut i: usize = 0;
    while i < n
        invariant
            n == s@.len(),
            0 <= i <= n,
            forall|j: int| 0 <= j < i ==> #[trigger] s@[j] != c,
        decreases n - i,
    {
        if s.get_char(i) == c {
            proof {
                lemma_char_index(s@, c, i as int);
            }
            return Some(i);
        }
        i = i + 1;
    }
    proof {
        lemma_char_index(s@, c, n as int);
    }
    None
}

/// `str::rfind(c)`, as a character index.
pub fn rfind_char(s: &str, c: char) -> (r: Option<usize>)
    ensures
        match char_rindex(s@, c) {
            Some(i) => r matches Some(k) && k == i,
            None => r is None,
        },
        r matches Some(k) ==> k < s@.len(),
{
    let n = s.unicode_len();
    let mut i: usize = n;
    while i > 0
        invariant
            n == s@.len(),
            0 <= i <= n,
            forall|j: int| i <= j < n ==> #[trigger] s@[j] != c,
        decreases i,
    {
        if s.get_char(i - 1) == c {
            proof {
                lemma_char_rindex(s@, c, i - 1);
            }
            return Some(i - 1);
        }
        i = i - 1;
    }
    proof {
        lemma_char_rindex(s@, c, -1);
    }
    None
}

/// `s` starts with `p`.
pub open spec fn starts_with(s: Seq<char>, p: Seq<char>) -> bool {
    p.len() <= s.len() && s.subrange(0, p.len() as int) == p
}

/// `str::strip_prefix`: the rest of `s` after `p`.
pub fn strip_prefix_str<'a>(s: &'a str, p: &str) -> (r: Option<&'a str>)
    ensures
        match r {
            Some(t) => starts_with(s@, p@) && t@ == s@.subrange(p@.len() as int, s@.len() as int),
            None => !starts_with(s@, p@),
        },
{
    let n = s.unicode_len();
    let m = p.unicode_len();
    if m > n {
        return None;
    }
    let mut i: usize = 0;
    while i < m
        invariant
            n == s@.len(),
            m == p@.len(),
            m <= n,
            0 <= i <= m,
            forall|j: int| 0 <= j < i ==> #[trigger] s@[j] == p@[j],
        decreases m - i,
    {
        if s.get_char(i) != p.get_char(i) {
            assert(s@.subrange(0, m as int)[i as int] == s@[i as int]);
            return None;
        }
        i = i + 1;
    }
    assert(s@.subrange(0, m as int) =~= p@);
    Some(s.substring_char(m, n))
}

} // verus!
