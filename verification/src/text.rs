use crate::memory_store::numeric::spec_decimal;
use vstd::prelude::*;

verus! {

/// A character with ASCII upper case folded to lower case, as a code point.
pub open spec fn ascii_fold(c: char) -> u32 {
    let v = c as u32;
    if 0x41 <= v <= 0x5a {
        (v + 32) as u32
    } else {
        v
    }
}

/// Two characters are the same, or, when case is ignored, the same up to
/// ASCII case.
pub open spec fn chars_match(a: char, b: char, ignore_case: bool) -> bool {
    a == b || (ignore_case && ascii_fold(a) == ascii_fold(b))
}

/// `input` spells `name`, up to ASCII case when case is ignored.
pub open spec fn text_matches(input: Seq<char>, name: Seq<char>, ignore_case: bool) -> bool {
    &&& input.len() == name.len()
    &&& forall|i: int| 0 <= i < input.len() ==> chars_match(#[trigger] input[i], name[i], ignore_case)
}

fn fold_char(c: char) -> (r: u32)
    ensures
        r == ascii_fold(c),
{
    let v = c as u32;
    if 0x41 <= v && v <= 0x5a {
        v + 32
    } else {
        v
    }
}

/// Compares `input` with `name` character by character.
pub fn matches_name(input: &str, name: &str, ignore_case: bool) -> (r: bool)
    ensures
        r == text_matches(input@, name@, ignore_case),
{
    let n = input.unicode_len();
    if n != name.unicode_len() {
        return false;
    }
    let mut i: usize = 0;
    while i < n
        invariant
            n == input@.len(),
            n == name@.len(),
            i <= n,
            forall|j: int| 0 <= j < i ==> chars_match(#[trigger] input@[j], name@[j], ignore_case),
        decreases n - i,
    {
        let a = input.get_char(i);
        let b = name.get_char(i);
        if a != b && !(ignore_case && fold_char(a) == fold_char(b)) {
            assert(!chars_match(input@[i as int], name@[i as int], ignore_case));
            return false;
        }
        i = i + 1;
    }
    true
}

/// `a` and `b` are the same text.
pub fn equals_text(a: &str, b: &str) -> (r: bool)
    ensures
        r == (a@ == b@),
{
    let m = matches_name(a, b, false);
    proof {
        if m {
            assert(a@ =~= b@);
        }
    }
    m
}

/// The characters of the decimal text of a number.
pub open spec fn decimal_chars(v: u64) -> Seq<char> {
    spec_decimal(v).map_values(|b: u8| b as char)
}

/// The string of one decimal digit.
fn digit_str(d: u64) -> (r: &'static str)
    requires
        d < 10,
    ensures
        r@ == seq![(0x30 + d) as u8 as char],
{
    proof {
        reveal_strlit("0");
        reveal_strlit("1");
        reveal_strlit("2");
        reveal_strlit("3");
        reveal_strlit("4");
        reveal_strlit("5");
        reveal_strlit("6");
        reveal_strlit("7");
        reveal_strlit("8");
        reveal_strlit("9");
    }
    if d == 0 {
        "0"
    } else if d == 1 {
        "1"
    } else if d == 2 {
        "2"
    } else if d == 3 {
        "3"
    } else if d == 4 {
        "4"
    } else if d == 5 {
        "5"
    } else if d == 6 {
        "6"
    } else if d == 7 {
        "7"
    } else if d == 8 {
        "8"
    } else {
        "9"
    }
}

/// Appends the decimal text of `v` to `s`, as `format!("{}", v)` writes it.
pub fn append_decimal(s: &mut String, v: u64)
    ensures
        final(s)@ == old(s)@ + decimal_chars(v),
    decreases v,
{
    if v < 10 {
        s.append(digit_str(v));
        assert(decimal_chars(v) =~= seq![(0x30 + v) as u8 as char]);
    } else {
        append_decimal(s, v / 10);
        s.append(digit_str(v % 10));
        assert(spec_decimal(v) == spec_decimal(v / 10).push((0x30 + v % 10) as u8));
        assert(decimal_chars(v) =~= decimal_chars(v / 10) + seq![(0x30 + v % 10) as u8 as char]);
    }
}

/// The characters of the decimal text of a signed number, with a leading
/// `-` when it is negative.
pub open spec fn signed_decimal_chars(v: i32) -> Seq<char> {
    if v < 0 {
        seq!['-'] + decimal_chars((-v) as u64)
    } else {
        decimal_chars(v as u64)
    }
}

/// Appends the decimal text of a signed number to `s`.
pub fn append_signed_decimal(s: &mut String, v: i32)
    ensures
        final(s)@ == old(s)@ + signed_decimal_chars(v),
{
    proof {
        reveal_strlit("-");
    }
    if v < 0 {
        s.append("-");
        let magnitude: u64 = (0i64 - v as i64) as u64;
        append_decimal(s, magnitude);
        assert(final(s)@ =~= old(s)@ + signed_decimal_chars(v));
    } else {
        append_decimal(s, v as u64);
    }
}

} // verus!
