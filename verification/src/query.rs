//! Parsing of the POST request body.
//!
//! A POST body is one JSON object holding exactly the field `requested`
//! with a non-negative integer value: optional JSON whitespace, `{`, the
//! key `"requested"`, `:`, the value written in canonical decimal (no
//! sign, no leading zero except for `0` itself) and fitting in a `u64`,
//! `}`, optional whitespace. Anything else is a client error.

use vstd::prelude::*;

verus! {

/// The allocation request carried by a POST body: how many bytes the
/// caller wants to claim on the monitored filesystem.
#[derive(Clone, Copy, Debug, PartialEq, Eq, Structural)]
pub struct SpaceQuery {
    pub requested: u64,
}

/// The POST body was malformed: not an object of the accepted grammar, the
/// `requested` field missing or non-numeric, or its value out of range.
#[derive(Clone, Copy, Debug, PartialEq, Eq, Structural)]
pub struct QueryError;

/// JSON insignificant whitespace: space, tab, line feed, carriage return.
pub open spec fn is_ws(b: u8) -> bool {
    b == 32 || b == 9 || b == 10 || b == 13
}

/// ASCII decimal digit.
pub open spec fn is_digit(b: u8) -> bool {
    48 <= b && b <= 57
}

/// Index of the first byte at or after `i` that is not whitespace, or the
/// input's end if whitespace runs to the end.
pub open spec fn ws_end(s: Seq<u8>, i: int) -> int
    decreases s.len() - i,
{
    if 0 <= i && i < s.len() && is_ws(s[i]) {
        ws_end(s, i + 1)
    } else {
        i
    }
}

/// Index of the first byte at or after `i` that is not a decimal digit.
pub open spec fn digits_end(s: Seq<u8>, i: int) -> int
    decreases s.len() - i,
{
    if 0 <= i && i < s.len() && is_digit(s[i]) {
        digits_end(s, i + 1)
    } else {
        i
    }
}

/// Value of a run of decimal digit bytes, most significant digit first.
pub open spec fn digits_val(s: Seq<u8>) -> nat
    decreases s.len(),
{
    if s.len() == 0 {
        0
    } else {
        digits_val(s.drop_last()) * 10 + (s.last() - 48) as nat
    }
}

pub open spec fn all_digits(s: Seq<u8>) -> bool {
    forall|k: int| 0 <= k < s.len() ==> is_digit(#[trigger] s[k])
}

/// Canonical decimal: non-empty, digits only, no leading zero except `0`.
pub open spec fn canonical_digits(s: Seq<u8>) -> bool {
    &&& s.len() > 0
    &&& all_digits(s)
    &&& (s.len() > 1 ==> s[0] != 48)
}

/// The bytes of the quoted key `"requested"`.
pub open spec fn key_bytes() -> Seq<u8> {
    seq![34u8, 114u8, 101u8, 113u8, 117u8, 101u8, 115u8, 116u8, 101u8, 100u8, 34u8]
}

/// The key `"requested"`, quotes included, stands at index `i` of `s`.
pub open spec fn key_at(s: Seq<u8>, i: int) -> bool {
    0 <= i && i + 11 <= s.len() && s.subrange(i, i + 11) == key_bytes()
}

/// What a POST body parses to: `Some(v)` exactly when the body matches the
/// accepted grammar with value `v`, `None` otherwise.
pub open spec fn parse_query_spec(s: Seq<u8>) -> Option<u64> {
    let i0 = ws_end(s, 0);
    if i0 < s.len() && s[i0] == 123 {
        let i1 = ws_end(s, i0 + 1);
        if key_at(s, i1) {
            let i2 = ws_end(s, i1 + 11);
            if i2 < s.len() && s[i2] == 58 {
                let i3 = ws_end(s, i2 + 1);
                let j = digits_end(s, i3);
                let ds = s.subrange(i3, j);
                if canonical_digits(ds) && digits_val(ds) <= u64::MAX {
                    let i4 = ws_end(s, j);
                    if i4 < s.len() && s[i4] == 125 && ws_end(s, i4 + 1) == s.len() {
                        Some(digits_val(ds) as u64)
                    } else {
                        None
                    }
                } else {
                    None
                }
            } else {
                None
            }
        } else {
            None
        }
    } else {
        None
    }
}

/// Everything before `digits_end` is a digit, and `digits_end` stops at the
/// first byte that is not.
pub proof fn lemma_digits_end(s: Seq<u8>, i: int)
    requires
        0 <= i <= s.len(),
    ensures
        i <= digits_end(s, i) <= s.len(),
        forall|k: int| i <= k < digits_end(s, i) ==> is_digit(#[trigger] s[k]),
        digits_end(s, i) < s.len() ==> !is_digit(s[digits_end(s, i)]),
    decreases s.len() - i,
{
    if i < s.len() && is_digit(s[i]) {
        lemma_digits_end(s, i + 1);
    }
}

/// Extending a digit run to the right never decreases its value.
pub proof fn lemma_digits_val_prefix(s: Seq<u8>, m: int)
    requires
        0 <= m <= s.len(),
    ensures
        digits_val(s.subrange(0, m)) <= digits_val(s),
    decreases s.len() - m,
{
    if m == s.len() {
        assert(s.subrange(0, m) =~= s);
    } else {
        let p = s.subrange(0, m + 1);
        assert(p.drop_last() =~= s.subrange(0, m));
        lemma_digits_val_prefix(s, m + 1);
    }
}

fn is_ws_byte(b: u8) -> (r: bool)
    ensures
        r == is_ws(b),
{
    b == 32 || b == 9 || b == 10 || b == 13
}

fn is_digit_byte(b: u8) -> (r: bool)
    ensures
        r == is_digit(b),
{
    48 <= b && b <= 57
}

/// Advances `i` past any JSON whitespace.
fn skip_ws(s: &[u8], i: usize) -> (r: usize)
    requires
        i <= s@.len(),
    ensures
        r == ws_end(s@, i as int),
        i <= r <= s@.len(),
{
    let mut j = i;
    while j < s.len() && is_ws_byte(s[j])
        invariant
            i <= j <= s@.len(),
            ws_end(s@, i as int) == ws_end(s@, j as int),
        decreases s@.len() - j,
    {
        j = j + 1;
    }
    j
}

/// Advances `i` past any decimal digits.
fn skip_digits(s: &[u8], i: usize) -> (r: usize)
    requires
        i <= s@.len(),
    ensures
        r == digits_end(s@, i as int),
        i <= r <= s@.len(),
{
    let mut j = i;
    while j < s.len() && is_digit_byte(s[j])
        invariant
            i <= j <= s@.len(),
            digits_end(s@, i as int) == digits_end(s@, j as int),
        decreases s@.len() - j,
    {
        j = j + 1;
    }
    j
}

/// Tests whether the quoted key `"requested"` stands at index `i`.
fn check_key(s: &[u8], i: usize) -> (r: bool)
    requires
        i <= s@.len(),
    ensures
        r == key_at(s@, i as int),
{
    if s.len() - i < 11 {
        return false;
    }
    let r = s[i] == 34 && s[i + 1] == 114 && s[i + 2] == 101 && s[i + 3] == 113 && s[i + 4]
        == 117 && s[i + 5] == 101 && s[i + 6] == 115 && s[i + 7] == 116 && s[i + 8] == 101 && s[i
        + 9] == 100 && s[i + 10] == 34;
    proof {
        let ii = i as int;
        if r {
            assert(s@.subrange(ii, ii + 11) =~= key_bytes());
        }
        if key_at(s@, ii) {
            let sub = s@.subrange(ii, ii + 11);
            assert(forall|t: int| 0 <= t < 11 ==> #[trigger] sub[t] == s@[ii + t]);
            assert(s@[ii] == 34 && s@[ii + 1] == 114 && s@[ii + 2] == 101 && s@[ii + 3] == 113
                && s@[ii + 4] == 117 && s@[ii + 5] == 101 && s@[ii + 6] == 115 && s@[ii + 7]
                == 116 && s@[ii + 8] == 101 && s@[ii + 9] == 100 && s@[ii + 10] == 34);
        }
    }
    r
}

/// Parses the digit run `s[start..end]` as a `u64`; `None` when its value
/// does not fit.
fn parse_u64_digits(s: &[u8], start: usize, end: usize) -> (r: Option<u64>)
    requires
        start <= end <= s@.len(),
        all_digits(s@.subrange(start as int, end as int)),
    ensures
        r matches Some(v) ==> digits_val(s@.subrange(start as int, end as int)) == v,
        r is None ==> digits_val(s@.subrange(start as int, end as int)) > u64::MAX,
{
    let ghost whole = s@.subrange(start as int, end as int);
    let mut val: u64 = 0;
    let mut k = start;
    while k < end
        invariant
            start <= k <= end <= s@.len(),
            all_digits(whole),
            whole == s@.subrange(start as int, end as int),
            val == digits_val(s@.subrange(start as int, k as int)),
        decreases end - k,
    {
        proof {
            assert(whole[k - start] == s@[k as int]);
        }
        let d = s[k] - 48;
        let ghost prefix = s@.subrange(start as int, k as int);
        let ghost next = s@.subrange(start as int, k as int + 1);
        proof {
            assert(next.drop_last() =~= prefix);
            assert(next.last() == s@[k as int]);
            assert(digits_val(next) == digits_val(prefix) * 10 + (d as nat));
        }
        if val > (u64::MAX - (d as u64)) / 10 {
            proof {
                assert(digits_val(next) > u64::MAX) by (nonlinear_arith)
                    requires
                        digits_val(next) == digits_val(prefix) * 10 + (d as nat),
                        digits_val(prefix) == val,
                        val > (u64::MAX - (d as u64)) / 10,
                        d <= 9,
                ;
                assert(next =~= whole.subrange(0, k - start + 1));
                lemma_digits_val_prefix(whole, k - start + 1);
            }
            return None;
        }
        proof {
            assert(val * 10 + (d as u64) <= u64::MAX) by (nonlinear_arith)
                requires
                    val <= (u64::MAX - (d as u64)) / 10,
                    d <= 9,
            ;
        }
        val = val * 10 + (d as u64);
        k = k + 1;
    }
    Some(val)
}

/// Parses a POST body against the accepted grammar.
///
/// Returns `Ok` with the requested byte count exactly when the body is an
/// object `{ "requested": N }` (with optional JSON whitespace between
/// tokens) whose value is a canonical decimal that fits in a `u64`, and
/// `Err` on every other body.
pub fn parse_query(body: &[u8]) -> (r: Result<SpaceQuery, QueryError>)
    ensures
        r matches Ok(q) ==> parse_query_spec(body@) == Some(q.requested),
        r is Err ==> parse_query_spec(body@) is None,
{
    let i0 = skip_ws(body, 0);
    if !(i0 < body.len() && body[i0] == 123) {
        return Err(QueryError);
    }
    let i1 = skip_ws(body, i0 + 1);
    if !check_key(body, i1) {
        return Err(QueryError);
    }
    let i2 = skip_ws(body, i1 + 11);
    if !(i2 < body.len() && body[i2] == 58) {
        return Err(QueryError);
    }
    let i3 = skip_ws(body, i2 + 1);
    let j = skip_digits(body, i3);
    let ghost ds = body@.subrange(i3 as int, j as int);
    if j == i3 {
        return Err(QueryError);
    }
    if j - i3 > 1 && body[i3] == 48 {
        proof {
            assert(ds[0] == body@[i3 as int]);
        }
        return Err(QueryError);
    }
    proof {
        lemma_digits_end(body@, i3 as int);
        assert(forall|t: int| 0 <= t < ds.len() ==> is_digit(#[trigger] ds[t]));
    }
    let val = match parse_u64_digits(body, i3, j) {
        Some(v) => v,
        None => {
            return Err(QueryError);
        },
    };
    let i4 = skip_ws(body, j);
    if !(i4 < body.len() && body[i4] == 125) {
        return Err(QueryError);
    }
    let i5 = skip_ws(body, i4 + 1);
    if i5 != body.len() {
        return Err(QueryError);
    }
    Ok(SpaceQuery { requested: val })
}

} // verus!
