//! How the fields of an action become header lines.
use vstd::prelude::*;
use crate::ami::codec::pairs_view;
use crate::text::{dec, u32_to_string, u64_to_string, bool_to_string, write_dec, push_char, concat_str};

verus! {

/// Header lines, as character strings.
pub type Lines = Seq<(Seq<char>, Seq<char>)>;

/// `true` or `false`, as `bool::to_string` writes it.
pub open spec fn bool_text(b: bool) -> Seq<char> {
    if b { "true"@ } else { "false"@ }
}

/// One line for a present text field, none for an absent one.
pub open spec fn opt_text(key: Seq<char>, v: Option<String>) -> Lines {
    match v {
        Some(s) => seq![(key, s@)],
        None => Seq::empty(),
    }
}

/// One line with the decimal value of a present field, none for an absent one.
pub open spec fn opt_u32(key: Seq<char>, v: Option<u32>) -> Lines {
    match v {
        Some(n) => seq![(key, dec(n as nat))],
        None => Seq::empty(),
    }
}

/// One line with the decimal value of a present field, none for an absent one.
pub open spec fn opt_u64(key: Seq<char>, v: Option<u64>) -> Lines {
    match v {
        Some(n) => seq![(key, dec(n as nat))],
        None => Seq::empty(),
    }
}

/// One line with `true`/`false` for a present field, none for an absent one.
pub open spec fn opt_bool(key: Seq<char>, v: Option<bool>) -> Lines {
    match v {
        Some(b) => seq![(key, bool_text(b))],
        None => Seq::empty(),
    }
}

/// A `key: true` line when the flag is set, nothing otherwise.
pub open spec fn flag_pair(key: Seq<char>, b: bool) -> Lines {
    if b { seq![(key, "true"@)] } else { Seq::empty() }
}

/// One `key: name=value` line per assignment, in order.
pub open spec fn assignments(key: Seq<char>, p: Lines) -> Lines {
    p.map_values(|kv: (Seq<char>, Seq<char>)| (key, kv.0 + "="@ + kv.1))
}

/// Decimal text of `i`, zero-padded on the left to at least six digits.
pub open spec fn pad6(i: nat) -> Seq<char> {
    let d = dec(i);
    if d.len() < 6 {
        Seq::new((6 - d.len()) as nat, |_j: int| '0') + d
    } else {
        d
    }
}

/// For the `i`-th (category, action) entry, the lines `Action-NNNNNN` and
/// `Cat-NNNNNN`, for every entry in order.
pub open spec fn update_lines(p: Lines) -> Lines
    decreases p.len(),
{
    if p.len() == 0 {
        Seq::empty()
    } else {
        let i = (p.len() - 1) as nat;
        update_lines(p.drop_last()).push(("Action-"@ + pad6(i), p.last().0)).push(
            ("Cat-"@ + pad6(i), p.last().1),
        )
    }
}

/// An empty list of header lines.
pub fn new_headers() -> (r: Vec<(String, String)>)
    ensures
        pairs_view(r@) == Seq::<(Seq<char>, Seq<char>)>::empty(),
{
    let r: Vec<(String, String)> = Vec::new();
    assert(pairs_view(r@) =~= Seq::<(Seq<char>, Seq<char>)>::empty());
    r
}

/// Appends the line `key: value`.
pub fn push_header(h: &mut Vec<(String, String)>, key: &str, value: String)
    ensures
        pairs_view(final(h)@) == pairs_view(old(h)@).push((key@, value@)),
{
    h.push((key.to_owned(), value));
    assert(pairs_view(h@) =~= pairs_view(old(h)@).push((key@, value@)));
}

/// Appends `key: value` when the field holds a value.
pub fn push_opt_text(h: &mut Vec<(String, String)>, key: &str, v: &Option<String>)
    ensures
        pairs_view(final(h)@) == pairs_view(old(h)@) + opt_text(key@, *v),
{
    match v {
        Some(s) => {
            push_header(h, key, s.clone());
        },
        None => {},
    }
    assert(pairs_view(h@) =~= pairs_view(old(h)@) + opt_text(key@, *v));
}

/// Appends `key: <decimal>` when the field holds a value.
pub fn push_opt_u32(h: &mut Vec<(String, String)>, key: &str, v: Option<u32>)
    ensures
        pairs_view(final(h)@) == pairs_view(old(h)@) + opt_u32(key@, v),
{
    match v {
        Some(n) => {
            push_header(h, key, u32_to_string(n));
        },
        None => {},
    }
    assert(pairs_view(h@) =~= pairs_view(old(h)@) + opt_u32(key@, v));
}

/// Appends `key: <decimal>` when the field holds a value.
pub fn push_opt_u64(h: &mut Vec<(String, String)>, key: &str, v: Option<u64>)
    ensures
        pairs_view(final(h)@) == pairs_view(old(h)@) + opt_u64(key@, v),
{
    match v {
        Some(n) => {
            push_header(h, key, u64_to_string(n));
        },
        None => {},
    }
    assert(pairs_view(h@) =~= pairs_view(old(h)@) + opt_u64(key@, v));
}

/// Appends `key: true|false` when the field holds a value.
pub fn push_opt_bool(h: &mut Vec<(String, String)>, key: &str, v: Option<bool>)
    ensures
        pairs_view(final(h)@) == pairs_view(old(h)@) + opt_bool(key@, v),
{
    match v {
        Some(b) => {
            push_header(h, key, bool_to_string(b));
        },
        None => {},
    }
    assert(pairs_view(h@) =~= pairs_view(old(h)@) + opt_bool(key@, v));
}

/// Appends `key: true` when the flag is set.
pub fn push_flag(h: &mut Vec<(String, String)>, key: &str, b: bool)
    ensures
        pairs_view(final(h)@) == pairs_view(old(h)@) + flag_pair(key@, b),
{
    if b {
        push_header(h, key, "true".to_owned());
    }
    assert(pairs_view(h@) =~= pairs_view(old(h)@) + flag_pair(key@, b));
}

/// Appends one `key: name=value` line per assignment.
pub fn push_assignments(h: &mut Vec<(String, String)>, key: &str, kvs: &Vec<(String, String)>)
    ensures
        pairs_view(final(h)@) == pairs_view(old(h)@) + assignments(key@, pairs_view(kvs@)),
{
    let ghost start = pairs_view(h@);
    let mut i: usize = 0;
    while i < kvs.len()
        invariant
            i <= kvs@.len(),
            pairs_view(h@) == start + assignments(key@, pairs_view(kvs@.subrange(0, i as int))),
        decreases kvs@.len() - i,
    {
        let kv = &kvs[i];
        let left = concat_str(kv.0.as_str(), "=");
        let line = concat_str(left.as_str(), kv.1.as_str());
        push_header(h, key, line);
        proof {
            assert(kvs@.subrange(0, i + 1) =~= kvs@.subrange(0, i as int).push(kvs@[i as int]));
            assert(pairs_view(kvs@.subrange(0, i + 1)) =~= pairs_view(kvs@.subrange(0, i as int)).push(
                (kvs@[i as int].0@, kvs@[i as int].1@),
            ));
            assert(assignments(key@, pairs_view(kvs@.subrange(0, i + 1))) =~= assignments(
                key@,
                pairs_view(kvs@.subrange(0, i as int)),
            ).push((key@, kvs@[i as int].0@ + "="@ + kvs@[i as int].1@)));
        }
        i = i + 1;
    }
    assert(kvs@.subrange(0, kvs@.len() as int) =~= kvs@);
}

/// Appends each pair as a header line of its own.
pub fn push_pairs(h: &mut Vec<(String, String)>, kvs: &Vec<(String, String)>)
    ensures
        pairs_view(final(h)@) == pairs_view(old(h)@) + pairs_view(kvs@),
{
    let ghost start = pairs_view(h@);
    let mut i: usize = 0;
    while i < kvs.len()
        invariant
            i <= kvs@.len(),
            pairs_view(h@) == start + pairs_view(kvs@.subrange(0, i as int)),
        decreases kvs@.len() - i,
    {
        let kv = &kvs[i];
        push_header(h, kv.0.as_str(), kv.1.clone());
        proof {
            assert(kvs@.subrange(0, i + 1) =~= kvs@.subrange(0, i as int).push(kvs@[i as int]));
            assert(pairs_view(kvs@.subrange(0, i + 1)) =~= pairs_view(kvs@.subrange(0, i as int)).push(
                (kvs@[i as int].0@, kvs@[i as int].1@),
            ));
        }
        i = i + 1;
    }
    assert(kvs@.subrange(0, kvs@.len() as int) =~= kvs@);
}

/// Number of decimal digits of `n`.
fn dec_len(n: u64) -> (r: u64)
    ensures
        r as nat == dec(n as nat).len(),
        r <= 20,
    decreases n,
{
    if n < 10 {
        1
    } else {
        let k = dec_len(n / 10);
        if k == 20 {
            proof {
                lemma_dec_len_bound(n as nat);
            }
        }
        k + 1
    }
}

/// A number below `10^k` has at most `k` digits; a `u64` has at most 20.
proof fn lemma_dec_len_bound(n: nat)
    requires
        n <= u64::MAX,
    ensures
        dec(n).len() <= 20,
{
    assert(pow10(20) == 100000000000000000000nat) by {
        reveal_with_fuel(pow10, 21);
    }
    lemma_dec_len_le(n, 20);
}

proof fn lemma_dec_len_le(n: nat, k: nat)
    requires
        k >= 1,
        n < pow10(k),
    ensures
        dec(n).len() <= k,
    decreases k,
{
    if n >= 10 {
        assert(n / 10 < pow10((k - 1) as nat)) by {
            assert(pow10(k) == 10 * pow10((k - 1) as nat));
        }
        if k == 1 {
            assert(pow10(1) == 10 * pow10(0));
        } else {
            lemma_dec_len_le(n / 10, (k - 1) as nat);
        }
    }
}

spec fn pow10(k: nat) -> nat
    decreases k,
{
    if k == 0 { 1 } else { 10 * pow10((k - 1) as nat) }
}

/// Decimal text of `i`, zero-padded to at least six digits.
pub fn pad6_string(i: u64) -> (r: String)
    ensures
        r@ == pad6(i as nat),
{
    let n = dec_len(i);
    let mut s = String::new();
    let mut k: u64 = n;
    while k < 6
        invariant
            n <= k,
            k <= 6 || k == n,
            s@ == Seq::new((k - n) as nat, |_j: int| '0'),
        decreases 6 - k,
    {
        push_char(&mut s, '0');
        k = k + 1;
        assert(s@ =~= Seq::new((k - n) as nat, |_j: int| '0'));
    }
    write_dec(&mut s, i);
    proof {
        if dec(i as nat).len() >= 6 {
            assert(s@ =~= dec(i as nat));
        }
    }
    s
}

/// Appends `Action-NNNNNN` and `Cat-NNNNNN` lines for each entry.
pub fn push_update_lines(h: &mut Vec<(String, String)>, kvs: &Vec<(String, String)>)
    ensures
        pairs_view(final(h)@) == pairs_view(old(h)@) + update_lines(pairs_view(kvs@)),
{
    let ghost start = pairs_view(h@);
    let mut i: usize = 0;
    while i < kvs.len()
        invariant
            i <= kvs@.len(),
            pairs_view(h@) == start + update_lines(pairs_view(kvs@.subrange(0, i as int))),
        decreases kvs@.len() - i,
    {
        let kv = &kvs[i];
        let idx = pad6_string(i as u64);
        let akey = concat_str("Action-", idx.as_str());
        let ckey = concat_str("Cat-", idx.as_str());
        push_header(h, akey.as_str(), kv.0.clone());
        push_header(h, ckey.as_str(), kv.1.clone());
        proof {
            let p = pairs_view(kvs@.subrange(0, i + 1));
            assert(kvs@.subrange(0, i + 1) =~= kvs@.subrange(0, i as int).push(kvs@[i as int]));
            assert(p =~= pairs_view(kvs@.subrange(0, i as int)).push(
                (kvs@[i as int].0@, kvs@[i as int].1@),
            ));
            assert(p.drop_last() =~= pairs_view(kvs@.subrange(0, i as int)));
        }
        i = i + 1;
    }
    assert(kvs@.subrange(0, kvs@.len() as int) =~= kvs@);
}

} // verus!
