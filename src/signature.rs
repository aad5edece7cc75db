//! The signed webhook header `t=<seconds>,v1=<hex>[,v1=<hex>...]`, decimal
//! integer parsing, and constant-time comparison.
use vstd::prelude::*;
use vstd::utf8::encode_utf8_decode_utf8;
use crate::error::{PaymentError, PaymentResult};
use crate::text::str_eq;

verus! {

/// `s` cut at every `sep`; an empty text gives one empty piece.
pub open spec fn split_on(s: Seq<char>, sep: char) -> Seq<Seq<char>>
    decreases s.len(),
{
    if s.len() == 0 {
        seq![Seq::<char>::empty()]
    } else {
        let prev = split_on(s.drop_last(), sep);
        if s.last() == sep {
            prev.push(Seq::<char>::empty())
        } else {
            prev.update(prev.len() - 1, prev.last().push(s.last()))
        }
    }
}

proof fn lemma_split_nonempty(s: Seq<char>, sep: char)
    ensures
        split_on(s, sep).len() >= 1,
    decreases s.len(),
{
    if s.len() > 0 { lemma_split_nonempty(s.drop_last(), sep); }
}

/// The views of a sequence of strings.
pub open spec fn views(v: Seq<String>) -> Seq<Seq<char>> {
    v.map_values(|x: String| x@)
}

/// Cuts `s` at every `sep`.
pub fn split(s: &str, sep: char) -> (r: Vec<String>)
    ensures
        views(r@) == split_on(s@, sep),
{
    let n = s.unicode_len();
    let mut parts: Vec<String> = Vec::new();
    let mut start: usize = 0;
    let mut i: usize = 0;
    assert(s@.subrange(0, 0) =~= Seq::<char>::empty());
    assert(views(parts@).push(s@.subrange(0, 0)) =~= split_on(s@.subrange(0, 0), sep));
    while i < n
        invariant
            n == s@.len(),
            start <= i <= n,
            views(parts@).push(s@.subrange(start as int, i as int)) == split_on(s@.subrange(0, i as int), sep),
        decreases n - i,
    {
        let ghost pre = s@.subrange(0, i as int);
        assert(s@.subrange(0, i + 1).drop_last() =~= pre);
        assert(s@.subrange(0, i + 1).last() == s@[i as int]);
        if s.get_char(i) == sep {
            let piece = String::from_str(s.substring_char(start, i));
            parts.push(piece);
            assert(views(parts@) =~= split_on(pre, sep));
            assert(s@.subrange(i + 1, i + 1) =~= Seq::<char>::empty());
            assert(views(parts@).push(s@.subrange(i + 1, i + 1)) =~= split_on(s@.subrange(0, i + 1), sep));
            start = i + 1;
        } else {
            let ghost prev = split_on(pre, sep);
            proof { lemma_split_nonempty(pre, sep); }
            assert(prev.last() == s@.subrange(start as int, i as int));
            assert(s@.subrange(start as int, i + 1) =~= s@.subrange(start as int, i as int).push(s@[i as int]));
            assert(views(parts@).push(s@.subrange(start as int, i + 1)) =~= split_on(s@.subrange(0, i + 1), sep));
        }
        i = i + 1;
    }
    parts.push(String::from_str(s.substring_char(start, n)));
    assert(s@.subrange(0, n as int) =~= s@);
    assert(views(parts@) =~= split_on(s@, sep));
    parts
}

/// Whether `c` is an ASCII decimal digit.
pub open spec fn is_digit(c: char) -> bool {
    '0' <= c && c <= '9'
}

/// The number that the digits `s` spell in base ten.
pub open spec fn digits_value(s: Seq<char>) -> int
    decreases s.len(),
{
    if s.len() == 0 { 0 } else { digits_value(s.drop_last()) * 10 + (s.last() as int - '0' as int) }
}

/// `s` as a decimal `i64`: an optional `+` or `-`, then one or more digits,
/// with a value in range.
pub open spec fn parse_i64_spec(s: Seq<char>) -> Option<i64> {
    let body = unsigned_part(s);
    if body.len() == 0 || !all_digits(body) {
        None
    } else {
        let v = if is_negative(s) { -digits_value(body) } else { digits_value(body) };
        if i64::MIN <= v <= i64::MAX { Some(v as i64) } else { None }
    }
}

/// Whether `s` starts with `-`.
pub open spec fn is_negative(s: Seq<char>) -> bool {
    s.len() > 0 && s[0] == '-'
}

/// `s` without a leading sign.
pub open spec fn unsigned_part(s: Seq<char>) -> Seq<char> {
    if s.len() > 0 && (s[0] == '-' || s[0] == '+') { s.skip(1) } else { s }
}

/// Whether every character of `s` is a decimal digit.
pub open spec fn all_digits(s: Seq<char>) -> bool {
    forall|i: int| 0 <= i < s.len() ==> is_digit(#[trigger] s[i])
}

proof fn lemma_digits_grow(s: Seq<char>, i: int)
    requires
        0 <= i <= s.len(),
        forall|k: int| 0 <= k < s.len() ==> is_digit(#[trigger] s[k]),
    ensures
        0 <= digits_value(s.subrange(0, i)) <= digits_value(s),
    decreases s.len() - i,
{
    if i < s.len() {
        lemma_digits_grow(s, i + 1);
        let t = s.subrange(0, i + 1);
        assert(t.drop_last() =~= s.subrange(0, i));
        assert(t.last() == s[i]);
        lemma_digits_nonneg(s.subrange(0, i));
    } else {
        assert(s.subrange(0, i) =~= s);
        lemma_digits_nonneg(s);
    }
}

proof fn lemma_digits_nonneg(s: Seq<char>)
    requires
        forall|k: int| 0 <= k < s.len() ==> is_digit(#[trigger] s[k]),
    ensures
        digits_value(s) >= 0,
    decreases s.len(),
{
    if s.len() > 0 {
        assert(forall|k: int| 0 <= k < s.drop_last().len() ==> s.drop_last()[k] == s[k]);
        lemma_digits_nonneg(s.drop_last());
    }
}

/// Parses a decimal `i64` as `str::parse` does.
pub fn parse_i64(s: &str) -> (r: Option<i64>)
    ensures
        r == parse_i64_spec(s@),
{
    let n = s.unicode_len();
    let mut start: usize = 0;
    let mut neg = false;
    if n > 0 {
        let c0 = s.get_char(0);
        if c0 == '-' {
            neg = true;
            start = 1;
        } else if c0 == '+' {
            start = 1;
        }
    }
    let ghost body = s@.subrange(start as int, n as int);
    assert(body =~= unsigned_part(s@));
    if start == n {
        return None;
    }
    let mut v: u64 = 0;
    let mut i: usize = start;
    let mut too_big = false;
    assert(body.subrange(0, 0) =~= Seq::<char>::empty());
    while i < n
        invariant
            n == s@.len(),
            start < n,
            start <= i <= n,
            body == s@.subrange(start as int, n as int),
            body == unsigned_part(s@),
            neg == is_negative(s@),
            forall|k: int| start <= k < i ==> is_digit(#[trigger] s@[k]),
            !too_big ==> v == digits_value(body.subrange(0, i - start)),
            too_big ==> digits_value(body.subrange(0, i - start)) > 9223372036854775808,
            v <= 9223372036854775808,
        decreases n - i,
    {
        let c = s.get_char(i);
        if !('0' <= c && c <= '9') {
            assert(body[i - start] == c);
            assert(!is_digit(body[i - start]));
            return None;
        }
        let ghost pre = body.subrange(0, i - start);
        let ghost next = body.subrange(0, i - start + 1);
        assert(next.drop_last() =~= pre);
        assert(next.last() == c);
        proof {
            assert forall|k: int| 0 <= k < pre.len() implies is_digit(#[trigger] pre[k]) by {
                assert(pre[k] == s@[start + k]);
            }
            lemma_digits_nonneg(pre);
        }
        let d = (c as u32 - '0' as u32) as u64;
        if !too_big {
            let nv = v as u128 * 10 + d as u128;
            if nv > 9223372036854775808u128 {
                too_big = true;
            } else {
                v = nv as u64;
            }
        }
        i = i + 1;
    }
    assert(body.subrange(0, (n - start) as int) =~= body);
    assert forall|k: int| 0 <= k < body.len() implies is_digit(#[trigger] body[k]) by {
        assert(body[k] == s@[start + k]);
    }
    if too_big {
        proof { lemma_digits_nonneg(body); }
        return None;
    }
    if neg {
        if v == 9223372036854775808u64 {
            Some(i64::MIN)
        } else {
            Some(-(v as i64))
        }
    } else {
        if v > 9223372036854775807u64 {
            None
        } else {
            Some(v as i64)
        }
    }
}

/// What the header's pieces give so far: the last `t` value (when it
/// parsed) and every `v1` value in order. A piece that is not exactly one
/// `key=value` pair, or has another key, changes nothing.
pub open spec fn header_state(parts: Seq<Seq<char>>) -> (Option<i64>, Seq<Seq<char>>)
    decreases parts.len(),
{
    if parts.len() == 0 {
        (None, Seq::<Seq<char>>::empty())
    } else {
        let prev = header_state(parts.drop_last());
        let kv = split_on(parts.last(), '=');
        if kv.len() != 2 {
            prev
        } else if kv[0] == "t"@ {
            (parse_i64_spec(kv[1]), prev.1)
        } else if kv[0] == "v1"@ {
            (prev.0, prev.1.push(kv[1]))
        } else {
            prev
        }
    }
}

/// The timestamp and signatures of a header, when it has a timestamp and at
/// least one `v1` signature.
pub open spec fn parse_header_spec(h: Seq<char>) -> Option<(i64, Seq<Seq<char>>)> {
    let st = header_state(split_on(h, ','));
    match st.0 {
        Some(t) => if st.1.len() > 0 { Some((t, st.1)) } else { None },
        None => None,
    }
}

/// The parts of a signature header.
#[derive(Debug)]
pub struct SignatureHeader {
    pub timestamp: i64,
    pub signatures: Vec<String>,
}

/// Parses a signature header; fails when the timestamp or every `v1`
/// signature is missing.
pub fn parse_signature_header(header: &str) -> (r: PaymentResult<SignatureHeader>)
    ensures
        r matches Ok(h) ==> parse_header_spec(header@) == Some((h.timestamp, views(h.signatures@))),
        r is Err ==> parse_header_spec(header@) is None,
        r matches Err(e) ==> e is WebhookVerificationFailed,
{
    let parts = split(header, ',');
    let mut timestamp: Option<i64> = None;
    let mut signatures: Vec<String> = Vec::new();
    let mut i: usize = 0;
    assert(parts@.subrange(0, 0) =~= Seq::<String>::empty());
    assert(views(parts@).subrange(0, 0) =~= Seq::<Seq<char>>::empty());
    while i < parts.len()
        invariant
            i <= parts@.len(),
            views(parts@) == split_on(header@, ','),
            header_state(views(parts@).subrange(0, i as int)) == (timestamp, views(signatures@)),
        decreases parts@.len() - i,
    {
        let ghost pv = views(parts@);
        assert(pv.subrange(0, i + 1).drop_last() =~= pv.subrange(0, i as int));
        assert(pv.subrange(0, i + 1).last() == parts@[i as int]@);
        let kv = split(parts[i].as_str(), '=');
        if kv.len() == 2 {
            assert(views(kv@)[0] == kv@[0]@);
            assert(views(kv@)[1] == kv@[1]@);
            if str_eq(kv[0].as_str(), "t") {
                timestamp = parse_i64(kv[1].as_str());
            } else if str_eq(kv[0].as_str(), "v1") {
                let ghost before = signatures@;
                signatures.push(kv[1].clone());
                assert(views(signatures@) =~= views(before).push(kv@[1]@));
            }
        }
        i = i + 1;
    }
    assert(views(parts@).subrange(0, i as int) =~= views(parts@));
    match timestamp {
        Some(t) => {
            if signatures.len() == 0 {
                return Err(PaymentError::WebhookVerificationFailed(String::from_str("No v1 signature found")));
            }
            Ok(SignatureHeader { timestamp: t, signatures })
        },
        None => Err(PaymentError::WebhookVerificationFailed(String::from_str("Missing timestamp in signature"))),
    }
}

/// Compares two texts byte by byte without stopping at the first
/// difference: after an equal-length check, the XOR of every byte pair is
/// OR-accumulated, and the texts match when the accumulator stays zero.
pub fn constant_time_compare(a: &str, b: &str) -> (r: bool)
    ensures
        r == (a@ == b@),
{
    let ab = a.as_bytes();
    let bb = b.as_bytes();
    proof {
        encode_utf8_decode_utf8(a@);
        encode_utf8_decode_utf8(b@);
    }
    if ab.len() != bb.len() {
        assert(ab@ != bb@);
        return false;
    }
    let n = ab.len();
    let mut acc: u8 = 0;
    let mut i: usize = 0;
    while i < n
        invariant
            n == ab@.len(),
            n == bb@.len(),
            i <= n,
            acc == 0 <==> forall|j: int| 0 <= j < i ==> ab@[j] == bb@[j],
        decreases n - i,
    {
        let x = ab[i];
        let y = bb[i];
        assert((acc | (x ^ y)) == 0 <==> (acc == 0 && x == y)) by (bit_vector);
        acc = acc | (x ^ y);
        i = i + 1;
    }
    if acc == 0 {
        assert(ab@ =~= bb@);
        true
    } else {
        false
    }
}

} // verus!
