//! The text layer of the control files: trimming, decimal decoding of what
//! the enable file holds, and decimal encoding of what is written back.

use vstd::arithmetic::div_mod::lemma_div_denominator;
use vstd::arithmetic::div_mod::lemma_fundamental_div_mod;
use vstd::prelude::*;

verus! {

/// ASCII whitespace, as the kernel frames control-file values with it.
pub open spec fn is_space(b: u8) -> bool {
    b == 32 || b == 9 || b == 10 || b == 13
}

/// An ASCII decimal digit.
pub open spec fn is_digit(b: u8) -> bool {
    48 <= b && b <= 57
}

pub open spec fn all_digits(s: Seq<u8>) -> bool {
    forall|i: int| 0 <= i < s.len() ==> is_digit(#[trigger] s[i])
}

/// The unsigned value denoted by a run of decimal digit bytes.
pub open spec fn digits_value(s: Seq<u8>) -> int
    decreases s.len(),
{
    if s.len() == 0 {
        0
    } else {
        digits_value(s.drop_last()) * 10 + (s.last() - 48)
    }
}

pub open spec fn trim_front(s: Seq<u8>) -> Seq<u8>
    decreases s.len(),
{
    if s.len() > 0 && is_space(s[0]) {
        trim_front(s.subrange(1, s.len() as int))
    } else {
        s
    }
}

pub open spec fn trim_back(s: Seq<u8>) -> Seq<u8>
    decreases s.len(),
{
    if s.len() > 0 && is_space(s.last()) {
        trim_back(s.drop_last())
    } else {
        s
    }
}

/// The bytes with leading and trailing ASCII whitespace removed.
pub open spec fn trimmed(s: Seq<u8>) -> Seq<u8> {
    trim_back(trim_front(s))
}

/// What decoding yields: `Some(v)` exactly when the trimmed text is a
/// nonempty run of decimal digits denoting a value that fits in a byte.
pub open spec fn parse_result(s: Seq<u8>) -> Option<u8> {
    let t = trimmed(s);
    if t.len() > 0 && all_digits(t) && digits_value(t) <= 255 {
        Some(digits_value(t) as u8)
    } else {
        None
    }
}

proof fn lemma_trim_front_at(s: Seq<u8>, k: int)
    requires
        0 <= k <= s.len(),
        forall|i: int| 0 <= i < k ==> is_space(#[trigger] s[i]),
        k < s.len() ==> !is_space(s[k]),
    ensures
        trim_front(s) == s.subrange(k, s.len() as int),
    decreases k,
{
    if k == 0 {
        assert(s.subrange(0, s.len() as int) =~= s);
    } else {
        let s1 = s.subrange(1, s.len() as int);
        lemma_trim_front_at(s1, k - 1);
        assert(s1.subrange(k - 1, s1.len() as int) =~= s.subrange(k, s.len() as int));
    }
}

proof fn lemma_trim_back_at(s: Seq<u8>, m: int)
    requires
        0 <= m <= s.len(),
        forall|i: int| m <= i < s.len() ==> is_space(#[trigger] s[i]),
        m > 0 ==> !is_space(s[m - 1]),
    ensures
        trim_back(s) == s.subrange(0, m),
    decreases s.len() - m,
{
    if m == s.len() {
        assert(s.subrange(0, m) =~= s);
    } else {
        let s1 = s.drop_last();
        assert(s1 =~= s.subrange(0, s.len() - 1));
        lemma_trim_back_at(s1, m);
        assert(s1.subrange(0, m) =~= s.subrange(0, m));
    }
}

proof fn lemma_digits_value_extend(s: Seq<u8>, i: int)
    requires
        0 <= i <= s.len(),
        forall|j: int| i <= j < s.len() ==> is_digit(#[trigger] s[j]),
        digits_value(s.subrange(0, i)) > 255,
    ensures
        digits_value(s) > 255,
    decreases s.len() - i,
{
    if i == s.len() {
        assert(s.subrange(0, i) =~= s);
    } else {
        assert(s.subrange(0, i + 1).drop_last() =~= s.subrange(0, i));
        assert(s.subrange(0, i + 1).last() == s[i]);
        lemma_digits_value_extend(s, i + 1);
    }
}

/// Decode the content of a control file: trim ASCII whitespace, then read an
/// unsigned decimal that must fit in a byte.
pub fn parse_u8(bytes: &[u8]) -> (r: Option<u8>)
    ensures
        r == parse_result(bytes@),
{
    let n: usize = bytes.len();
    let mut start: usize = 0;
    while start < n && (bytes[start] == 32 || bytes[start] == 9 || bytes[start] == 10
        || bytes[start] == 13)
        invariant
            start <= n,
            n == bytes@.len(),
            forall|i: int| 0 <= i < start ==> is_space(#[trigger] bytes@[i]),
        decreases n - start,
    {
        start = start + 1;
    }
    proof {
        lemma_trim_front_at(bytes@, start as int);
    }
    let ghost front = bytes@.subrange(start as int, n as int);
    let mut end: usize = n;
    while end > start && (bytes[end - 1] == 32 || bytes[end - 1] == 9 || bytes[end - 1] == 10
        || bytes[end - 1] == 13)
        invariant
            start <= end <= n,
            n == bytes@.len(),
            forall|i: int| end <= i < n ==> is_space(#[trigger] bytes@[i]),
        decreases end,
    {
        end = end - 1;
    }
    proof {
        lemma_trim_back_at(front, end - start);
        assert(front.subrange(0, end - start) =~= bytes@.subrange(start as int, end as int));
    }
    let ghost t = bytes@.subrange(start as int, end as int);
    assert(trimmed(bytes@) == t);
    if start == end {
        return None;
    }
    let mut value: u32 = 0;
    let mut i: usize = start;
    while i < end
        invariant
            start <= i <= end <= n,
            start < end,
            n == bytes@.len(),
            t == bytes@.subrange(start as int, end as int),
            trimmed(bytes@) == t,
            value <= 255,
            value == digits_value(t.subrange(0, i - start)),
            all_digits(t.subrange(0, i - start)),
        decreases end - i,
    {
        let b = bytes[i];
        if b < 48 || b > 57 {
            assert(t[i - start] == b);
            assert(!all_digits(t));
            return None;
        }
        proof {
            assert(t.subrange(0, i + 1 - start).drop_last() =~= t.subrange(0, i - start));
            assert(t.subrange(0, i + 1 - start).last() == b);
        }
        value = value * 10 + (b - 48) as u32;
        if value > 255 {
            proof {
                if all_digits(t) {
                    lemma_digits_value_extend(t, i + 1 - start);
                }
            }
            return None;
        }
        i = i + 1;
    }
    proof {
        assert(t.subrange(0, end - start) =~= t);
    }
    Some(value as u8)
}

/// The shortest decimal digit string for an unsigned value.
pub open spec fn decimal(v: nat) -> Seq<u8>
    decreases v,
{
    if v < 10 {
        seq![(48 + v) as u8]
    } else {
        decimal(v / 10).push((48 + v % 10) as u8)
    }
}

/// Encode a duty or mode value as the decimal text the control files take.
pub fn encode_u8_decimal(v: u8) -> (r: Vec<u8>)
    ensures
        r@ == decimal(v as nat),
{
    let mut r: Vec<u8> = Vec::new();
    if v >= 100 {
        r.push(48 + v / 100);
    }
    if v >= 10 {
        r.push(48 + (v / 10) % 10);
    }
    r.push(48 + v % 10);
    proof {
        if v < 10 {
            assert(r@ =~= decimal(v as nat));
        } else if v < 100 {
            assert((v as nat / 10) < 10);
            assert((v / 10) % 10 == v / 10);
            assert(r@ =~= decimal(v as nat / 10).push((48 + v as nat % 10) as u8));
        } else {
            lemma_div_denominator(v as int, 10, 10);
            assert(v as nat / 10 >= 10);
            assert((v as nat / 10) / 10 == v as nat / 100);
            assert(v as nat / 100 < 10);
            assert(decimal(v as nat / 10) =~= decimal(v as nat / 100).push(
                (48 + (v as nat / 10) % 10) as u8,
            ));
            assert(r@ =~= decimal(v as nat / 10).push((48 + v as nat % 10) as u8));
        }
    }
    r
}

/// The decimal encoding denotes the value it was made from: it is all
/// digits, nonempty, and reads back as the same number.
pub proof fn lemma_decimal_value(v: nat)
    ensures
        all_digits(decimal(v)),
        decimal(v).len() >= 1,
        digits_value(decimal(v)) == v,
    decreases v,
{
    if v < 10 {
        assert(decimal(v).drop_last() =~= Seq::<u8>::empty());
        assert(decimal(v).last() == (48 + v) as u8);
        assert(digits_value(decimal(v)) == digits_value(Seq::<u8>::empty()) * 10 + ((48
            + v) as u8 - 48));
        assert(digits_value(decimal(v)) == v);
    } else {
        lemma_decimal_value(v / 10);
        assert(decimal(v).drop_last() =~= decimal(v / 10));
        assert(digits_value(decimal(v)) == (v / 10) * 10 + v % 10);
        lemma_fundamental_div_mod(v as int, 10);
        assert forall|i: int| 0 <= i < decimal(v).len() implies is_digit(
            #[trigger] decimal(v)[i],
        ) by {
            if i < decimal(v).len() - 1 {
                assert(decimal(v)[i] == decimal(v / 10)[i]);
            }
        }
    }
}

/// Round trip: what the library writes into a control file reads back as the
/// value written.
pub proof fn lemma_encode_parse_round_trip(v: u8)
    ensures
        parse_result(decimal(v as nat)) == Some(v),
{
    lemma_decimal_value(v as nat);
    let s = decimal(v as nat);
    lemma_trim_front_at(s, 0);
    lemma_trim_back_at(s, s.len() as int);
    assert(s.subrange(0, s.len() as int) =~= s);
    assert(trimmed(s) == s);
}

} // verus!
