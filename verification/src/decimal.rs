//! Decimal integer text: formatting as `Display` writes it and parsing as
//! `i64::from_str` reads it.
use vstd::prelude::*;
use vstd::string::*;
use crate::text::{char_from_ascii, push_char};

verus! {

/// The character of a decimal digit.
pub open spec fn spec_digit_char(d: int) -> char {
    (48 + d) as char
}

/// Whether `c` is an ASCII decimal digit.
pub open spec fn spec_is_digit(c: char) -> bool {
    48 <= c as u32 <= 57
}

/// The value of a decimal digit character.
pub open spec fn spec_digit_value(c: char) -> int {
    c as u32 - 48
}

/// Decimal digits of a natural number, without leading zeros.
pub open spec fn spec_digits(n: nat) -> Seq<char>
    decreases n,
{
    if n < 10 {
        seq![spec_digit_char(n as int)]
    } else {
        spec_digits(n / 10).push(spec_digit_char((n % 10) as int))
    }
}

/// Decimal text of an integer as `Display` writes it: a minus sign before negatives.
pub open spec fn spec_int_text(v: int) -> Seq<char> {
    if v < 0 {
        seq!['-'] + spec_digits((-v) as nat)
    } else {
        spec_digits(v as nat)
    }
}

/// Whether every character of `s` is a decimal digit.
pub open spec fn spec_all_digits(s: Seq<char>) -> bool {
    forall|i: int| 0 <= i < s.len() ==> spec_is_digit(#[trigger] s[i])
}

/// The value of a string of decimal digits.
pub open spec fn spec_digits_value(s: Seq<char>) -> nat
    decreases s.len(),
{
    if s.len() == 0 {
        0
    } else {
        (spec_digits_value(s.drop_last()) * 10 + spec_digit_value(s.last())) as nat
    }
}

/// The integer that an optional sign followed by at least one decimal digit denotes.
pub open spec fn spec_parse_int(s: Seq<char>) -> Option<int> {
    let signed = s.len() > 0 && (s[0] == '+' || s[0] == '-');
    let body = if signed { s.drop_first() } else { s };
    if body.len() == 0 || !spec_all_digits(body) {
        None
    } else if signed && s[0] == '-' {
        Some(-spec_digits_value(body))
    } else {
        Some(spec_digits_value(body) as int)
    }
}

/// What `str::parse::<i64>` returns: the value when the text is an optionally signed
/// decimal number that fits in an `i64`.
pub open spec fn spec_parse_i64(s: Seq<char>) -> Option<int> {
    match spec_parse_int(s) {
        Some(v) => if i64::MIN <= v <= i64::MAX {
            Some(v)
        } else {
            None
        },
        None => None,
    }
}

proof fn lemma_digit_char(d: int)
    requires
        0 <= d < 10,
    ensures
        spec_is_digit(spec_digit_char(d)),
        spec_digit_value(spec_digit_char(d)) == d,
{
}

/// The digits of a number are digits, and read back as the number.
pub proof fn lemma_digits_value(n: nat)
    ensures
        spec_all_digits(spec_digits(n)),
        spec_digits_value(spec_digits(n)) == n,
        spec_digits(n).len() > 0,
        spec_digits(n)[0] != '-' && spec_digits(n)[0] != '+',
    decreases n,
{
    if n < 10 {
        lemma_digit_char(n as int);
        assert(spec_digits(n).drop_last() =~= Seq::<char>::empty());
        assert(spec_digits_value(Seq::<char>::empty()) == 0);
    } else {
        lemma_digits_value(n / 10);
        lemma_digit_char((n % 10) as int);
        let s = spec_digits(n);
        assert(s.drop_last() =~= spec_digits(n / 10));
        assert(s[0] == spec_digits(n / 10)[0]);
        assert((n / 10) * 10 + n % 10 == n);
        assert forall|i: int| 0 <= i < s.len() implies spec_is_digit(#[trigger] s[i]) by {
            if i < s.len() - 1 {
                assert(s[i] == spec_digits(n / 10)[i]);
            }
        }
    }
}

/// The text of an `i64` parses back to the same value.
pub proof fn lemma_parse_int_text(v: int)
    requires
        i64::MIN <= v <= i64::MAX,
    ensures
        spec_parse_i64(spec_int_text(v)) == Some(v),
{
    if v < 0 {
        lemma_digits_value((-v) as nat);
        let s = spec_int_text(v);
        assert(s.drop_first() =~= spec_digits((-v) as nat));
    } else {
        lemma_digits_value(v as nat);
    }
}

fn digit_char(d: u64) -> (c: char)
    requires
        d < 10,
    ensures
        c == spec_digit_char(d as int),
{
    let c = char_from_ascii(48 + d as u32);
    c
}

/// Appends the decimal digits of `n`.
pub fn push_digits(out: &mut String, n: u64)
    ensures
        final(out)@ == old(out)@ + spec_digits(n as nat),
    decreases n,
{
    if n >= 10 {
        push_digits(out, n / 10);
    }
    let c = digit_char(n % 10);
    push_char(out, c);
    assert(final(out)@ =~= old(out)@ + spec_digits(n as nat));
}

/// Appends the decimal text of `v`, with a minus sign when it is negative.
pub fn push_i64(out: &mut String, v: i64)
    ensures
        final(out)@ == old(out)@ + spec_int_text(v as int),
{
    if v < 0 {
        push_char(out, '-');
        let m: u64 = if v == i64::MIN {
            9223372036854775808u64
        } else {
            (-v) as u64
        };
        push_digits(out, m);
        assert(final(out)@ =~= old(out)@ + spec_int_text(v as int));
    } else {
        push_digits(out, v as u64);
    }
}

/// The decimal text of `v`.
pub fn i64_text(v: i64) -> (s: String)
    ensures
        s@ == spec_int_text(v as int),
{
    let mut s = String::new();
    push_i64(&mut s, v);
    assert(s@ =~= spec_int_text(v as int));
    s
}

proof fn lemma_digits_value_monotone(s: Seq<char>, i: int)
    requires
        spec_all_digits(s),
        0 <= i <= s.len(),
    ensures
        spec_digits_value(s.take(i)) <= spec_digits_value(s),
    decreases s.len() - i,
{
    if i < s.len() {
        lemma_digits_value_monotone(s, i + 1);
        assert(s.take(i + 1).drop_last() =~= s.take(i));
    } else {
        assert(s.take(i) =~= s);
    }
}

/// Parses an optionally signed decimal `i64` (`str::parse::<i64>`).
pub fn parse_i64(s: &str) -> (res: Option<i64>)
    ensures
        match res {
            Some(v) => spec_parse_i64(s@) == Some(v as int),
            None => spec_parse_i64(s@) is None,
        },
{
    let n = s.unicode_len();
    if n == 0 {
        return None;
    }
    let first = s.get_char(0);
    let signed = first == '+' || first == '-';
    let negative = first == '-';
    let start: usize = if signed { 1 } else { 0 };
    if start == n {
        return None;
    }
    let ghost body = if signed { s@.drop_first() } else { s@ };
    assert(body =~= s@.subrange(start as int, n as int));
    let limit: u64 = 9223372036854775808u64;
    let mut acc: u64 = 0;
    let mut i: usize = start;
    assert(body.take(0) =~= Seq::<char>::empty());
    while i < n
        invariant
            n == s@.len(),
            start <= i <= n,
            limit == 9223372036854775808u64,
            start == (if s@[0] == '+' || s@[0] == '-' { 1usize } else { 0usize }),
            body == (if s@[0] == '+' || s@[0] == '-' { s@.drop_first() } else { s@ }),
            body =~= s@.subrange(start as int, n as int),
            acc <= limit,
            spec_all_digits(body.take(i - start)),
            acc == spec_digits_value(body.take(i - start)),
        decreases n - i,
    {
        let c = s.get_char(i);
        let u = c as u32;
        if !(48 <= u && u <= 57) {
            assert(body[i - start] == c);
            assert(!spec_all_digits(body));
            return None;
        }
        let d = (u - 48) as u64;
        let ghost k = i - start;
        assert(body.take(k + 1).drop_last() =~= body.take(k));
        assert(body.take(k + 1).last() == c);
        if acc > (limit - d) / 10 {
            // The value already exceeds every `i64` magnitude, whatever follows.
            proof {
                assert(spec_digits_value(body.take(k + 1)) > limit);
                if spec_all_digits(body) {
                    lemma_digits_value_monotone(body, k + 1);
                }
            }
            return None;
        }
        acc = acc * 10 + d;
        i = i + 1;
        proof {
            assert forall|j: int| 0 <= j < body.take(i - start).len() implies spec_is_digit(
                #[trigger] body.take(i - start)[j],
            ) by {
                if j < k {
                    assert(body.take(k)[j] == body.take(i - start)[j]);
                }
            }
        }
    }
    assert(body.take(n - start) =~= body);
    if negative {
        let r: i64 = if acc == limit {
            i64::MIN
        } else {
            -(acc as i64)
        };
        Some(r)
    } else if acc > 9223372036854775807u64 {
        None
    } else {
        Some(acc as i64)
    }
}

} // verus!
