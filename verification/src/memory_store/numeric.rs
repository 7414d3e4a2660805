use vstd::prelude::*;

verus! {

pub open spec fn is_digit(b: u8) -> bool {
    0x30 <= b <= 0x39
}

pub open spec fn all_digits(s: Seq<u8>) -> bool {
    forall|i: int| 0 <= i < s.len() ==> is_digit(#[trigger] s[i])
}

/// Value of a sequence of decimal digits.
pub open spec fn digits_value(s: Seq<u8>) -> nat
    decreases s.len(),
{
    if s.len() == 0 {
        0
    } else {
        digits_value(s.drop_last()) * 10 + (s.last() - 0x30) as nat
    }
}

/// The digits of `s` after an optional leading `+`.
pub open spec fn unsigned_digits(s: Seq<u8>) -> Seq<u8> {
    if s.len() > 0 && s[0] == 0x2b {
        s.drop_first()
    } else {
        s
    }
}

/// What `str::parse::<u64>` gives for the text `s`: a value when `s` is an
/// optional `+` followed by at least one decimal digit and the number fits
/// in 64 bits.
pub open spec fn spec_parse_u64(s: Seq<u8>) -> Option<u64> {
    let d = unsigned_digits(s);
    if d.len() > 0 && all_digits(d) && digits_value(d) <= u64::MAX {
        Some(digits_value(d) as u64)
    } else {
        None
    }
}

/// Decimal text of a number, without leading zeros (as `u64::to_string`).
pub open spec fn spec_decimal(v: u64) -> Seq<u8>
    decreases v,
{
    if v < 10 {
        seq![(0x30 + v) as u8]
    } else {
        spec_decimal(v / 10).push((0x30 + v % 10) as u8)
    }
}

proof fn lemma_digits_value_push(s: Seq<u8>, b: u8)
    ensures
        digits_value(s.push(b)) == digits_value(s) * 10 + (b - 0x30) as nat,
{
    assert(s.push(b).drop_last() =~= s);
}

proof fn lemma_digits_value_monotone(s: Seq<u8>, i: int)
    requires
        0 <= i <= s.len(),
        all_digits(s),
    ensures
        digits_value(s.take(i)) <= digits_value(s),
    decreases s.len() - i,
{
    if i < s.len() {
        lemma_digits_value_monotone(s, i + 1);
        assert(s.take(i + 1) =~= s.take(i).push(s[i]));
        lemma_digits_value_push(s.take(i), s[i]);
    } else {
        assert(s.take(i) =~= s);
    }
}

/// The decimal text of a number consists of digits and reads back as the number.
pub proof fn lemma_decimal_digits(v: u64)
    ensures
        spec_decimal(v).len() > 0,
        all_digits(spec_decimal(v)),
        digits_value(spec_decimal(v)) == v,
        spec_decimal(v)[0] != 0x2b,
    decreases v,
{
    if v < 10 {
        let b = (0x30 + v) as u8;
        assert(b - 0x30 == v);
        assert(seq![b].drop_last() =~= Seq::<u8>::empty());
        assert(digits_value(seq![b]) == digits_value(Seq::<u8>::empty()) * 10 + (b - 0x30) as nat);
    } else {
        lemma_decimal_digits(v / 10);
        let s = spec_decimal(v / 10);
        let b = (0x30 + v % 10) as u8;
        assert(b - 0x30 == v % 10);
        lemma_digits_value_push(s, b);
        assert(spec_decimal(v) == s.push(b));
        assert((v / 10) * 10 + v % 10 == v);
        assert(spec_decimal(v)[0] == s[0]);
    }
}

/// Round trip: the decimal text of a number parses back to the number.
pub proof fn lemma_parse_decimal(v: u64)
    ensures
        spec_parse_u64(spec_decimal(v)) == Some(v),
{
    lemma_decimal_digits(v);
}

/// Parses decimal text as `str::parse::<u64>` does.
pub fn parse_u64(s: &[u8]) -> (r: Option<u64>)
    ensures
        r == spec_parse_u64(s@),
{
    let mut i: usize = 0;
    if s.len() > 0 && s[0] == 0x2b {
        i = 1;
    }
    let start = i;
    let ghost d = unsigned_digits(s@);
    assert(d =~= s@.skip(start as int));
    if start == s.len() {
        return None;
    }
    let mut acc: u64 = 0;
    while i < s.len()
        invariant
            start <= i <= s@.len(),
            d == s@.skip(start as int),
            d == unsigned_digits(s@),
            d.len() > 0,
            all_digits(d.take(i - start)),
            acc == digits_value(d.take(i - start)),
        decreases s@.len() - i,
    {
        let b = s[i];
        assert(d[i - start] == b);
        if b < 0x30 || b > 0x39 {
            assert(!is_digit(d[i - start]));
            assert(!all_digits(d));
            return None;
        }
        let digit = (b - 0x30) as u64;
        assert(d.take(i + 1 - start) =~= d.take(i - start).push(b));
        proof {
            lemma_digits_value_push(d.take(i - start), b);
        }
        if acc > 1844674407370955161 || (acc == 1844674407370955161 && digit > 5) {
            assert(digits_value(d.take(i + 1 - start)) > u64::MAX);
            proof {
                if all_digits(d) {
                    lemma_digits_value_monotone(d, i + 1 - start);
                }
            }
            return None;
        }
        acc = acc * 10 + digit;
        i = i + 1;
    }
    assert(d.take(i - start) =~= d);
    Some(acc)
}

/// Writes a number as decimal text, as `u64::to_string` does.
pub fn u64_to_decimal(v: u64) -> (r: Vec<u8>)
    ensures
        r@ == spec_decimal(v),
    decreases v,
{
    if v < 10 {
        let mut r: Vec<u8> = Vec::new();
        r.push((0x30 + v) as u8);
        assert(r@ =~= spec_decimal(v));
        r
    } else {
        let mut r = u64_to_decimal(v / 10);
        r.push((0x30 + v % 10) as u8);
        r
    }
}

} // verus!
