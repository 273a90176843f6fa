//! What a malformed event shows of the message it came from: no value kept
//! under a secret-looking name is shown.
use vstd::prelude::*;
use crate::ami::codec::{RawView, hget, to_map_spec, vinsert, vindex};
use crate::ami::redact::{is_secret_name, normalize_key, redacted_marker};
use super::{EventKind, EventView, FieldValue, Values, malformed_view, redact_all, redact_value, value_at};

verus! {

/// Every value kept under a secret-looking name is the redaction marker.
pub open spec fn secrets_hidden(h: Seq<(Seq<char>, Seq<char>)>) -> bool {
    forall|i: int| 0 <= i < h.len() && is_secret_name(normalize_key(#[trigger] h[i].0)) ==> h[i].1 == redacted_marker()
}

/// Redacting headers hides every secret-looking value.
pub proof fn lemma_redact_all_hides(h: Seq<(Seq<char>, Seq<char>)>)
    ensures
        secrets_hidden(redact_all(h)),
{
    let r = redact_all(h);
    assert forall|i: int| 0 <= i < r.len() && is_secret_name(normalize_key(#[trigger] r[i].0)) implies r[i].1
        == redacted_marker() by {
        assert(r[i] == (h[i].0, redact_value(h[i].0, h[i].1)));
    }
}

/// `vindex` finds a position holding the name.
proof fn lemma_vindex_bounds(m: Seq<(Seq<char>, Seq<char>)>, name: Seq<char>)
    ensures
        vindex(m, name) matches Some(i) ==> 0 <= i < m.len() && m[i].0 == name,
    decreases m.len(),
{
    if m.len() > 0 && m.last().0 != name {
        lemma_vindex_bounds(m.drop_last(), name);
        if let Some(i) = vindex(m.drop_last(), name) {
            assert(m.drop_last()[i] == m[i]);
        }
    }
}

/// Storing an entry whose value is hidden (when its name is secret) keeps
/// every secret-looking value hidden.
proof fn lemma_vinsert_hidden(m: Seq<(Seq<char>, Seq<char>)>, k: Seq<char>, v: Seq<char>)
    requires
        secrets_hidden(m),
        is_secret_name(normalize_key(k)) ==> v == redacted_marker(),
    ensures
        secrets_hidden(vinsert(m, k, v)),
{
    let r = vinsert(m, k, v);
    match vindex(m, k) {
        Some(i) => {
            lemma_vindex_bounds(m, k);
            assert forall|j: int| 0 <= j < r.len() && is_secret_name(normalize_key(#[trigger] r[j].0)) implies r[j].1
                == redacted_marker() by {
                if j != i {
                    assert(r[j] == m[j]);
                }
            }
        },
        None => {
            assert forall|j: int| 0 <= j < r.len() && is_secret_name(normalize_key(#[trigger] r[j].0)) implies r[j].1
                == redacted_marker() by {
                if j < m.len() {
                    assert(r[j] == m[j]);
                }
            }
        },
    }
}

/// Collecting headers into a map keeps every secret-looking value hidden.
pub proof fn lemma_map_keeps_hidden(h: Seq<(Seq<char>, Seq<char>)>)
    requires
        secrets_hidden(h),
    ensures
        secrets_hidden(to_map_spec(h)),
    decreases h.len(),
{
    if h.len() > 0 {
        assert(secrets_hidden(h.drop_last())) by {
            assert forall|i: int| 0 <= i < h.drop_last().len() && is_secret_name(
                normalize_key(#[trigger] h.drop_last()[i].0),
            ) implies h.drop_last()[i].1 == redacted_marker() by {
                assert(h.drop_last()[i] == h[i]);
            }
        }
        lemma_map_keeps_hidden(h.drop_last());
        assert(is_secret_name(normalize_key(h.last().0)) ==> h.last().1 == redacted_marker()) by {
            assert(h.last() == h[h.len() - 1]);
        }
        lemma_vinsert_hidden(to_map_spec(h.drop_last()), h.last().0, h.last().1);
    }
}

/// A malformed event shows no secret: its headers hide every
/// secret-looking value, and so does the value of the failed field.
pub proof fn lemma_malformed_hides_secrets(raw: RawView, name: Seq<char>, key: Seq<char>)
    ensures
        malformed_view(raw, name, key).kind == EventKind::Malformed,
        value_at(malformed_view(raw, name, key).values, 3) matches Some(FieldValue::Pairs(h)) && secrets_hidden(h),
        is_secret_name(normalize_key(key)) ==> (value_at(malformed_view(raw, name, key).values, 2) matches Some(
            FieldValue::Optional(v),
        ) && (v is None || v == Some(redacted_marker()))),
{
    reveal(malformed_view);
    reveal_with_fuel(value_at, 4);
    lemma_redact_all_hides(raw.headers);
    lemma_map_keeps_hidden(redact_all(raw.headers));
}

} // verus!
