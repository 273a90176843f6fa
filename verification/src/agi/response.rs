//! Parsing of the response line that Asterisk sends for each AGI command.
use vstd::prelude::*;
use crate::text::{
    trim_chars, trim_str, char_index, char_rindex, find_char, rfind_char, starts_with,
    strip_prefix_str, parse_unsigned, parse_signed, parse_u16, parse_i32, parse_u64, dec, dec_int, all_digits,
    digits_value, unsigned_body, is_space_char, lemma_dec_digits, lemma_char_index, lemma_lead_space_exact,
    lemma_trail_space_exact,
};
use crate::agi::error::AgiError;

verus! {

/// parsed AGI response from asterisk
pub struct AgiResponse {
    pub code: u16,
    pub result: i32,
    pub data: Option<String>,
    pub endpos: Option<u64>,
}

/// Abstract content of a response.
pub struct ResponseView {
    pub code: int,
    pub result: int,
    pub data: Option<Seq<char>>,
    pub endpos: Option<int>,
}

impl AgiResponse {
    pub open spec fn view(&self) -> ResponseView {
        ResponseView {
            code: self.code as int,
            result: self.result as int,
            data: match self.data { Some(d) => Some(d@), None => None },
            endpos: match self.endpos { Some(e) => Some(e as int), None => None },
        }
    }
}

/// Index of the first space or opening parenthesis.
pub open spec fn delim_index(s: Seq<char>) -> Option<int>
    decreases s.len(),
{
    if s.len() == 0 {
        None
    } else if s[0] == ' ' || s[0] == '(' {
        Some(0)
    } else {
        match delim_index(s.drop_first()) {
            Some(i) => Some(i + 1),
            None => None,
        }
    }
}

/// Index of the first character that is not an ASCII digit.
pub open spec fn nondigit_index(s: Seq<char>) -> Option<int>
    decreases s.len(),
{
    if s.len() == 0 {
        None
    } else if !('0' <= s[0] <= '9') {
        Some(0)
    } else {
        match nondigit_index(s.drop_first()) {
            Some(i) => Some(i + 1),
            None => None,
        }
    }
}

/// The outcome of parsing a response line.
pub enum ParseOutcome {
    Parsed(ResponseView),
    /// `AgiError::InvalidResponse` with this raw text
    Invalid(Seq<char>),
    /// the text ends with `)` placed before its first `(`, on which the
    /// slicing of the parenthesized data panics
    Panics,
}

/// Optional parenthesized data, and the text after it.
pub open spec fn split_data(rem: Seq<char>) -> Option<(Option<Seq<char>>, Seq<char>)> {
    match char_index(rem, '(') {
        Some(st) => match char_rindex(rem, ')') {
            Some(en) => if en < st + 1 {
                None
            } else {
                Some((Some(rem.subrange(st + 1, en)), trim_chars(rem.subrange(en + 1, rem.len() as int))))
            },
            None => Some((None, rem)),
        },
        None => Some((None, rem)),
    }
}

/// The optional `endpos=N` field: `Ok(None)` when absent, `Err(raw)` when
/// present without a valid number.
pub open spec fn endpos_field(after: Seq<char>) -> Result<Option<int>, Seq<char>> {
    if starts_with(after, "endpos="@) {
        let ep = after.subrange(7, after.len() as int);
        let de = match nondigit_index(ep) { Some(i) => i, None => ep.len() as int };
        let digits = ep.subrange(0, de);
        if digits.len() == 0 {
            Err(after)
        } else {
            match parse_unsigned(digits, u64::MAX as int) {
                Some(v) => Ok(Some(v as int)),
                None => Err(after),
            }
        }
    } else {
        Ok(None)
    }
}

/// `AgiResponse::parse` on the characters of a line.
///
/// format: `200 result=1 (timeout) endpos=12345`; codes other than 200 carry
/// result -1 and the rest of the line as data.
pub open spec fn parse_spec(input: Seq<char>) -> ParseOutcome {
    let line = trim_chars(input);
    match char_index(line, ' ') {
        None => ParseOutcome::Invalid(line),
        Some(i) => match parse_unsigned(line.subrange(0, i), u16::MAX as int) {
            None => ParseOutcome::Invalid(line),
            Some(code) => {
                let rest = line.subrange(i + 1, line.len() as int);
                if code != 200 {
                    ParseOutcome::Parsed(ResponseView { code: code as int, result: -1, data: Some(rest), endpos: None })
                } else {
                    let r2 = trim_chars(rest);
                    if !starts_with(r2, "result="@) {
                        ParseOutcome::Invalid(line)
                    } else {
                        let rv = r2.subrange(7, r2.len() as int);
                        let re = match delim_index(rv) { Some(k) => k, None => rv.len() as int };
                        match parse_signed(rv.subrange(0, re), i32::MIN as int, i32::MAX as int) {
                            None => ParseOutcome::Invalid(line),
                            Some(result) => {
                                let rem = trim_chars(rv.subrange(re, rv.len() as int));
                                match split_data(rem) {
                                    None => ParseOutcome::Panics,
                                    Some((data, after)) => match endpos_field(after) {
                                        Err(raw) => ParseOutcome::Invalid(raw),
                                        Ok(endpos) => ParseOutcome::Parsed(ResponseView { code: 200, result, data, endpos }),
                                    },
                                }
                            },
                        }
                    }
                }
            },
        },
    }
}

fn delim_index_exec(s: &str) -> (r: usize)
    ensures
        r == match delim_index(s@) { Some(k) => k, None => s@.len() as int },
        r <= s@.len(),
{
    let n = s.unicode_len();
    let mut i: usize = 0;
    assert(s@.subrange(0, n as int) =~= s@);
    while i < n
        invariant
            n == s@.len(),
            0 <= i <= n,
            delim_index(s@) == match delim_index(s@.subrange(i as int, n as int)) {
                Some(k) => Some(k + i),
                None => None::<int>,
            },
        decreases n - i,
    {
        assert(s@.subrange(i as int, n as int).drop_first() =~= s@.subrange(i + 1, n as int));
        let c = s.get_char(i);
        if c == ' ' || c == '(' {
            return i;
        }
        i = i + 1;
    }
    n
}

fn nondigit_index_exec(s: &str) -> (r: usize)
    ensures
        r == match nondigit_index(s@) { Some(k) => k, None => s@.len() as int },
        r <= s@.len(),
{
    let n = s.unicode_len();
    let mut i: usize = 0;
    assert(s@.subrange(0, n as int) =~= s@);
    while i < n
        invariant
            n == s@.len(),
            0 <= i <= n,
            nondigit_index(s@) == match nondigit_index(s@.subrange(i as int, n as int)) {
                Some(k) => Some(k + i),
                None => None::<int>,
            },
        decreases n - i,
    {
        assert(s@.subrange(i as int, n as int).drop_first() =~= s@.subrange(i + 1, n as int));
        let c = s.get_char(i);
        if !('0' <= c && c <= '9') {
            return i;
        }
        i = i + 1;
    }
    n
}

fn invalid(raw: &str) -> (e: AgiError)
    ensures
        e matches AgiError::InvalidResponse { raw: r } && r@ == raw@,
{
    AgiError::InvalidResponse { raw: raw.to_owned() }
}

/// A text of digits and minus signs holds no delimiter of the result.
proof fn lemma_no_delim(t: Seq<char>)
    requires
        forall|i: int| 0 <= i < t.len() ==> ('0' <= #[trigger] t[i] <= '9' || t[i] == '-'),
    ensures
        delim_index(t) is None,
    decreases t.len(),
{
    if t.len() > 0 {
        assert forall|i: int| 0 <= i < t.drop_first().len() implies ('0' <= #[trigger] t.drop_first()[i] <= '9'
            || t.drop_first()[i] == '-') by {
            assert(t.drop_first()[i] == t[i + 1]);
        }
        lemma_no_delim(t.drop_first());
    }
}

/// A text without blank space at either end is its own trim.
proof fn lemma_trim_exact(s: Seq<char>)
    requires
        s.len() > 0,
        !is_space_char(s[0]),
        !is_space_char(s.last()),
    ensures
        trim_chars(s) == s,
{
    lemma_lead_space_exact(s, 0);
    lemma_trail_space_exact(s, 0);
    assert(s.subrange(0, s.len() as int).subrange(0, s.len() as int) =~= s);
}

/// The reply `200 result=<n>` parses, for every `i32` value `n`, negative ones
/// included, as code 200 with result `n`, no data and no end position.
pub proof fn lemma_parse_result(n: i32)
    ensures
        parse_spec("200 result="@ + dec_int(n as int)) == ParseOutcome::Parsed(
            ResponseView { code: 200, result: n as int, data: None, endpos: None },
        ),
{
    reveal_strlit("200 result=");
    reveal_strlit("result=");
    reveal_strlit("endpos=");
    let t = dec_int(n as int);
    let m: nat = if n < 0 { (-(n as int)) as nat } else { n as nat };
    lemma_dec_digits(m);
    let d = dec(m);
    assert forall|i: int| 0 <= i < t.len() implies ('0' <= #[trigger] t[i] <= '9' || t[i] == '-') by {
        if n < 0 {
            if i > 0 {
                assert(t[i] == d[i - 1]);
            }
        } else {
            assert(t[i] == d[i]);
        }
    }
    assert('0' <= t.last() <= '9') by {
        if n < 0 {
            assert(t.last() == d.last());
        }
        assert(d[d.len() - 1] == d.last());
    }
    let line = "200 result="@ + t;
    assert(line[0] == '2');
    assert(line.last() == t.last());
    lemma_trim_exact(line);
    lemma_char_index(line, ' ', 3);
    let code_text = line.subrange(0, 3);
    assert(code_text =~= seq!['2', '0', '0']);
    assert(unsigned_body(code_text) == Some(code_text));
    assert(all_digits(code_text));
    reveal_with_fuel(digits_value, 4);
    assert(code_text.drop_last() =~= seq!['2', '0']);
    assert(code_text.drop_last().drop_last() =~= seq!['2']);
    assert(code_text.drop_last().drop_last().drop_last() =~= Seq::<char>::empty());
    assert(digits_value(code_text) == 200);
    let rest = line.subrange(4, line.len() as int);
    assert(rest =~= "result="@ + t);
    assert(rest[0] == 'r');
    assert(rest.last() == t.last());
    lemma_trim_exact(rest);
    assert(rest.subrange(0, 7) =~= "result="@);
    let rv = rest.subrange(7, rest.len() as int);
    assert(rv =~= t);
    lemma_no_delim(t);
    assert(rv.subrange(0, rv.len() as int) =~= t);
    if n < 0 {
        assert(t.drop_first() =~= d);
        assert(t.len() > 1 && t[0] == '-');
    } else {
        assert(t == d);
        assert(t[0] != '-' && t[0] != '+');
        assert(t != seq!['+'] && t != seq!['-']) by {
            if t == seq!['+'] || t == seq!['-'] {
                assert(t[0] == '+' || t[0] == '-');
            }
        }
        assert(unsigned_body(t) == Some(t));
    }
    assert(parse_signed(t, i32::MIN as int, i32::MAX as int) == Some(n as int));
    let rem = trim_chars(rv.subrange(rv.len() as int, rv.len() as int));
    assert(rv.subrange(rv.len() as int, rv.len() as int) =~= Seq::<char>::empty());
    assert(trim_chars(Seq::<char>::empty()) =~= Seq::<char>::empty());
    assert(char_index(Seq::<char>::empty(), '(') is None);
    assert(!starts_with(Seq::<char>::empty(), "endpos="@));
}

/// Whether parsing `line` would reach the panicking slice.
pub open spec fn parse_panics(line: Seq<char>) -> bool {
    parse_spec(line) is Panics
}

impl AgiResponse {
    /// parse an AGI response line
    ///
    /// format: `200 result=1 (timeout) endpos=12345`
    /// - `result=X` is always present for 200 responses
    /// - parenthesized data is optional
    /// - `endpos=N` is optional
    /// - error codes (510, 511, 520) default result to -1
    pub fn parse(line: &str) -> (r: Result<AgiResponse, AgiError>)
        requires
            !parse_panics(line@),
        ensures
            match parse_spec(line@) {
                ParseOutcome::Parsed(v) => r matches Ok(resp) && resp.view() == v,
                ParseOutcome::Invalid(raw) => r matches Err(AgiError::InvalidResponse { raw: x }) && x@ == raw,
                ParseOutcome::Panics => false,
            },
    {
        match Self::parse_total(line) {
            Some(r) => r,
            None => Err(AgiError::InvalidResponse { raw: String::new() }),
        }
    }

    /// Whether parsing `line` would fail by panicking (a `)` before the
    /// `(` it should close).
    pub fn parse_would_panic(line: &str) -> (r: bool)
        ensures
            r == parse_panics(line@),
    {
        Self::parse_total(line).is_none()
    }

    /// The parse, or `None` where parsing would panic.
    fn parse_total(line: &str) -> (r: Option<Result<AgiResponse, AgiError>>)
        ensures
            match parse_spec(line@) {
                ParseOutcome::Parsed(v) => r matches Some(Ok(resp)) && resp.view() == v,
                ParseOutcome::Invalid(raw) => r matches Some(Err(AgiError::InvalidResponse { raw: x })) && x@ == raw,
                ParseOutcome::Panics => r is None,
            },
    {
        let line = trim_str(line);
        let sp = match find_char(line, ' ') {
            Some(i) => i,
            None => return Some(Err(invalid(line))),
        };
        let n = line.unicode_len();
        let code_str = line.substring_char(0, sp);
        let rest = line.substring_char(sp + 1, n);
        let code: u16 = match parse_u16(code_str) {
            Some(c) => c,
            None => return Some(Err(invalid(line))),
        };
        if code != 200 {
            return Some(Ok(AgiResponse { code, result: -1, data: Some(rest.to_owned()), endpos: None }));
        }
        let r2 = trim_str(rest);
        let result_value = match strip_prefix_str(r2, "result=") {
            Some(v) => v,
            None => return Some(Err(invalid(line))),
        };
        proof {
            reveal_strlit("result=");
        }
        let re = delim_index_exec(result_value);
        let rvn = result_value.unicode_len();
        let result: i32 = match parse_i32(result_value.substring_char(0, re)) {
            Some(v) => v,
            None => return Some(Err(invalid(line))),
        };
        let rem = trim_str(result_value.substring_char(re, rvn));
        let remn = rem.unicode_len();
        let mut data: Option<String> = None;
        let mut after: &str = rem;
        if let Some(st) = find_char(rem, '(') {
            if let Some(en) = rfind_char(rem, ')') {
                if en < st + 1 {
                    return None;
                }
                data = Some(rem.substring_char(st + 1, en).to_owned());
                after = trim_str(rem.substring_char(en + 1, remn));
            }
        }
        let endpos: Option<u64> = match strip_prefix_str(after, "endpos=") {
            None => None,
            Some(ep) => {
                proof {
                    reveal_strlit("endpos=");
                }
                let de = nondigit_index_exec(ep);
                let digits = ep.substring_char(0, de);
                if de == 0 {
                    return Some(Err(invalid(after)));
                }
                match parse_u64(digits) {
                    Some(v) => Some(v),
                    None => return Some(Err(invalid(after))),
                }
            },
        };
        Some(Ok(AgiResponse { code: 200, result, data, endpos }))
    }
}

} // verus!
