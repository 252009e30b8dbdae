//! Reading decimal numerals, as `str::parse` reads them for the integer
//! types: an optional sign, then one digit or more, and a value that the type
//! can hold.
use vstd::prelude::*;
use crate::text::chars_of;

verus! {

/// A decimal digit.
pub open spec fn is_digit(c: char) -> bool {
    '0' <= c && c <= '9'
}

/// The value of a decimal digit.
pub open spec fn digit_value(c: char) -> int {
    c as int - '0' as int
}

/// Every character is a decimal digit.
pub open spec fn all_digits(s: Seq<char>) -> bool {
    forall|i: int| 0 <= i < s.len() ==> is_digit(#[trigger] s[i])
}

/// The value of a string of digits. The empty string has the value 0.
pub open spec fn digits_value(s: Seq<char>) -> int
    decreases s.len(),
{
    if s.len() == 0 {
        0
    } else {
        10 * digits_value(s.drop_last()) + digit_value(s.last())
    }
}

/// The integer that a numeral stands for: an optional `+`, or `-` where
/// `signed`, and then one digit or more. No other text is a numeral.
pub open spec fn numeral_value(s: Seq<char>, signed: bool) -> Option<int> {
    if s.len() > 0 && s[0] == '+' {
        if s.len() > 1 && all_digits(s.skip(1)) {
            Some(digits_value(s.skip(1)))
        } else {
            None
        }
    } else if signed && s.len() > 0 && s[0] == '-' {
        if s.len() > 1 && all_digits(s.skip(1)) {
            Some(-digits_value(s.skip(1)))
        } else {
            None
        }
    } else if s.len() > 0 && all_digits(s) {
        Some(digits_value(s))
    } else {
        None
    }
}

/// The value of a string of digits is not negative and does not shrink as
/// digits are added.
pub proof fn lemma_digits_value_grows(s: Seq<char>, n: int)
    requires
        all_digits(s),
        0 <= n <= s.len(),
    ensures
        0 <= digits_value(s.take(n)) <= digits_value(s),
    decreases s.len() - n,
{
    lemma_digits_value_nonnegative(s.take(n));
    if n < s.len() {
        assert(s.take(n + 1).drop_last() =~= s.take(n));
        assert(is_digit(s[n]));
        lemma_digits_value_grows(s, n + 1);
    } else {
        assert(s.take(n) =~= s);
    }
}

/// The value of a string of digits is not negative.
pub proof fn lemma_digits_value_nonnegative(s: Seq<char>)
    requires
        all_digits(s),
    ensures
        0 <= digits_value(s),
    decreases s.len(),
{
    if s.len() > 0 {
        assert(is_digit(s.last()));
        lemma_digits_value_nonnegative(s.drop_last());
    }
}

/// The value of the digits from `from` on, if there is one digit at least,
/// nothing but digits, and the value is `limit` at most.
fn read_digits(chars: &Vec<char>, from: usize, limit: u64) -> (r: Option<u64>)
    requires
        from <= chars@.len(),
        limit <= 0x1000_0000_0000,
    ensures
        r is Some <==> (from < chars@.len() && all_digits(chars@.skip(from as int))
            && digits_value(chars@.skip(from as int)) <= limit),
        r matches Some(v) ==> v == digits_value(chars@.skip(from as int)),
{
    let ghost s = chars@.skip(from as int);
    if from >= chars.len() {
        return None;
    }
    let mut value: u64 = 0;
    let mut i: usize = from;
    assert(s.take(0) =~= Seq::<char>::empty());
    while i < chars.len()
        invariant
            from <= i <= chars@.len(),
            s == chars@.skip(from as int),
            all_digits(s.take(i - from)),
            value == digits_value(s.take(i - from)),
            value <= limit,
            limit <= 0x1000_0000_0000,
        decreases chars@.len() - i,
    {
        let c = chars[i];
        assert(s[i - from] == c);
        assert(s.take(i - from + 1).drop_last() =~= s.take(i - from));
        if c < '0' || c > '9' {
            assert(!is_digit(s[i - from]));
            return None;
        }
        let d: u64 = (c as u64) - ('0' as u64);
        value = value * 10 + d;
        proof {
            assert(all_digits(s.take(i - from + 1))) by {
                assert forall|k: int| 0 <= k < i - from + 1 implies is_digit(
                    #[trigger] s.take(i - from + 1)[k],
                ) by {
                    if k < i - from {
                        assert(s.take(i - from)[k] == s[k]);
                    }
                }
            }
        }
        if value > limit {
            proof {
                if all_digits(s) {
                    lemma_digits_value_grows(s, i - from + 1);
                }
            }
            return None;
        }
        i += 1;
    }
    assert(s.take(i - from) =~= s);
    Some(value)
}

/// Reads a port number, as `str::parse::<u16>` does.
pub fn parse_u16(text: &str) -> (r: Option<u16>)
    ensures
        r is Some <==> (numeral_value(text@, false) matches Some(v) && v <= u16::MAX),
        r matches Some(v) ==> numeral_value(text@, false) == Some(v as int),
{
    let chars = chars_of(text);
    let from: usize = if chars.len() > 0 && chars[0] == '+' {
        1
    } else {
        0
    };
    proof {
        assert(chars@.skip(0) =~= chars@);
        if from == 1 && all_digits(chars@.skip(1)) {
            lemma_digits_value_nonnegative(chars@.skip(1));
        }
        if from == 0 && all_digits(chars@) {
            lemma_digits_value_nonnegative(chars@);
        }
    }
    match read_digits(&chars, from, 0xFFFF) {
        Some(v) => Some(v as u16),
        None => None,
    }
}

/// Reads a count, as `str::parse::<i32>` does.
pub fn parse_i32(text: &str) -> (r: Option<i32>)
    ensures
        r is Some <==> (numeral_value(text@, true) matches Some(v) && i32::MIN <= v <= i32::MAX),
        r matches Some(v) ==> numeral_value(text@, true) == Some(v as int),
{
    let chars = chars_of(text);
    let negative = chars.len() > 0 && chars[0] == '-';
    let from: usize = if chars.len() > 0 && (chars[0] == '+' || chars[0] == '-') {
        1
    } else {
        0
    };
    proof {
        assert(chars@.skip(0) =~= chars@);
        if all_digits(chars@.skip(from as int)) {
            lemma_digits_value_nonnegative(chars@.skip(from as int));
        }
        if from == 0 && chars@.len() > 0 && all_digits(chars@) {
            assert(is_digit(chars@[0]));
        }
    }
    if negative {
        match read_digits(&chars, from, 0x8000_0000) {
            Some(v) => Some((0 - (v as i64)) as i32),
            None => None,
        }
    } else {
        match read_digits(&chars, from, 0x7FFF_FFFF) {
            Some(v) => Some(v as i32),
            None => None,
        }
    }
}

} // verus!
