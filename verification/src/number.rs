//! Whole numbers as text: reading a number in decimal, and writing one.

use vstd::prelude::*;
use vstd::string::StringExecFns;
use crate::text::{chars_of, code_point};

verus! {

/// The value of a decimal digit; `None` for any other character.
pub open spec fn digit_value(c: char) -> Option<int> {
    if '0' <= c <= '9' {
        Some(c as int - '0' as int)
    } else {
        None
    }
}

/// The number that a text of one or more decimal digits stands for.
pub open spec fn digits_value(s: Seq<char>) -> Option<int>
    decreases s.len(),
{
    if s.len() == 0 {
        None
    } else if digit_value(s.last()) is None {
        None
    } else if s.len() == 1 {
        digit_value(s.last())
    } else {
        match digits_value(s.drop_last()) {
            Some(v) => Some(10 * v + digit_value(s.last())->0),
            None => None,
        }
    }
}

/// The number that a text stands for: an optional sign, `+` or `-`, and one
/// or more decimal digits. `None` for any other text, and for a number
/// that no `i64` holds.
pub open spec fn parsed_i64(s: Seq<char>) -> Option<int> {
    let negative = s.len() > 0 && s[0] == '-';
    let signed = s.len() > 0 && (s[0] == '-' || s[0] == '+');
    let digits = if signed {
        s.skip(1)
    } else {
        s
    };
    match digits_value(digits) {
        Some(v) => {
            let value = if negative {
                -v
            } else {
                v
            };
            if i64::MIN <= value <= i64::MAX {
                Some(value)
            } else {
                None
            }
        },
        None => None,
    }
}

/// A number written in digits does not get smaller when digits are added
/// behind it.
proof fn lemma_digits_grow(s: Seq<char>, upto: int)
    requires
        1 <= upto <= s.len(),
        digits_value(s.take(upto)) is Some,
    ensures
        digits_value(s.take(upto))->0 >= 0,
        digits_value(s) is Some ==> digits_value(s)->0 >= digits_value(s.take(upto))->0,
    decreases s.len() - upto,
{
    lemma_digits_positive(s.take(upto));
    if upto == s.len() {
        assert(s.take(upto) =~= s);
    } else {
        let longer = s.take(upto + 1);
        assert(longer.drop_last() =~= s.take(upto));
        if digits_value(longer) is Some {
            lemma_digits_grow(s, upto + 1);
        } else {
            lemma_digits_need_prefix(s, upto + 1);
        }
    }
}

/// Text of digits stands for a number that is not negative.
proof fn lemma_digits_positive(s: Seq<char>)
    ensures
        digits_value(s) is Some ==> digits_value(s)->0 >= 0,
    decreases s.len(),
{
    if s.len() > 1 {
        lemma_digits_positive(s.drop_last());
    }
}

/// Text of which a beginning is no number is no number itself.
proof fn lemma_digits_need_prefix(s: Seq<char>, upto: int)
    requires
        1 <= upto <= s.len(),
        digits_value(s.take(upto)) is None,
    ensures
        digits_value(s) is None,
    decreases s.len() - upto,
{
    if upto == s.len() {
        assert(s.take(upto) =~= s);
    } else {
        let longer = s.take(upto + 1);
        assert(longer.drop_last() =~= s.take(upto));
        lemma_digits_need_prefix(s, upto + 1);
    }
}

/// Reads a number: an optional sign and decimal digits.
pub fn parse_i64(s: &str) -> (r: Option<i64>)
    ensures
        match r {
            Some(v) => parsed_i64(s@) == Some(v as int),
            None => parsed_i64(s@) is None,
        },
{
    let v = chars_of(s);
    if v.len() == 0 {
        return None;
    }
    let negative = v[0] == '-';
    let start: usize = if v[0] == '-' || v[0] == '+' {
        1
    } else {
        0
    };
    let ghost digits = v@.skip(start as int);
    if start == v.len() {
        return None;
    }
    // The magnitude read so far; it never passes 2^63.
    let mut magnitude: u64 = 0;
    let mut i: usize = start;
    while i < v.len()
        invariant
            start <= i <= v.len(),
            start < v.len(),
            v@ == s@,
            digits == v@.skip(start as int),
            digits == (if s@.len() > 0 && (s@[0] == '-' || s@[0] == '+') {
                s@.skip(1)
            } else {
                s@
            }),
            magnitude <= 0x8000_0000_0000_0000,
            i == start ==> magnitude == 0,
            i > start ==> digits_value(digits.take(i - start)) == Some(magnitude as int),
        decreases v.len() - i,
    {
        let c = v[i];
        let ghost upto = i - start + 1;
        assert(digits.take(upto).drop_last() =~= digits.take(upto - 1));
        if c < '0' || c > '9' {
            proof {
                lemma_digits_need_prefix(digits, upto);
            }
            return None;
        }
        let d = (code_point(c) - code_point('0')) as u64;
        if magnitude > (0x8000_0000_0000_0000 - d) / 10 {
            proof {
                lemma_digits_grow(digits, upto);
            }
            return None;
        }
        magnitude = magnitude * 10 + d;
        i += 1;
    }
    assert(digits.take(i - start) =~= digits);
    if negative {
        if magnitude == 0x8000_0000_0000_0000 {
            Some(i64::MIN)
        } else {
            Some(-(magnitude as i64))
        }
    } else if magnitude == 0x8000_0000_0000_0000 {
        None
    } else {
        Some(magnitude as i64)
    }
}

/// The character of a decimal digit.
pub open spec fn digit_char(d: int) -> char {
    (d + '0' as int) as char
}

/// A natural number written in decimal digits, without leading zeros.
pub open spec fn decimal_nat(n: nat) -> Seq<char>
    decreases n,
{
    if n < 10 {
        seq![digit_char(n as int)]
    } else {
        decimal_nat(n / 10).push(digit_char((n % 10) as int))
    }
}

/// A whole number written in decimal digits, with `-` before a negative
/// one.
pub open spec fn decimal(n: int) -> Seq<char> {
    if n < 0 {
        seq!['-'] + decimal_nat((-n) as nat)
    } else {
        decimal_nat(n as nat)
    }
}

fn digit_of(d: u64) -> (c: char)
    requires
        d < 10,
    ensures
        c == digit_char(d as int),
{
    match char::from_u32(48 + d as u32) {
        Some(c) => c,
        None => '0',
    }
}

/// Writes a number in decimal digits.
pub fn decimal_string(n: i64) -> (s: String)
    ensures
        s@ == decimal(n as int),
{
    let start: u64 = if n < 0 {
        (-(n + 1)) as u64 + 1
    } else {
        n as u64
    };
    // The digits from the last to the first.
    let mut backwards: Vec<char> = Vec::new();
    let ghost mut tail: Seq<char> = Seq::empty();
    let mut rest: u64 = start;
    loop
        invariant_except_break
            decimal_nat(start as nat) == decimal_nat(rest as nat) + tail,
        invariant
            tail.len() == backwards.len(),
            forall|j: int| 0 <= j < tail.len() ==> tail[j] == backwards@[tail.len() - 1 - j],
        ensures
            decimal_nat(start as nat) == tail,
            tail.len() == backwards.len(),
            forall|j: int| 0 <= j < tail.len() ==> tail[j] == backwards@[tail.len() - 1 - j],
        decreases rest,
    {
        let c = digit_of(rest % 10);
        backwards.push(c);
        proof {
            tail = seq![c] + tail;
        }
        if rest < 10 {
            break ;
        }
        rest = rest / 10;
    }
    let mut s = String::new();
    if n < 0 {
        s.append("-");
        proof {
            reveal_strlit("-");
        }
    }
    let ghost sign = s@;
    let mut k: usize = backwards.len();
    while k > 0
        invariant
            k <= backwards.len(),
            tail.len() == backwards.len(),
            forall|j: int| 0 <= j < tail.len() ==> tail[j] == backwards@[tail.len() - 1 - j],
            s@ == sign + tail.take(backwards.len() - k),
        decreases k,
    {
        k -= 1;
        s.push(backwards[k]);
    }
    s
}

/// A length of time in words, by the largest unit that it fills at least
/// once: seconds below a minute, then minutes, hours, days, months of 30
/// days, and years of 365 days.
pub open spec fn human_duration(seconds: int) -> Seq<char> {
    if seconds < 60 {
        decimal(seconds) + " Seconds"@
    } else if seconds < 3600 {
        decimal(seconds / 60) + " Minutes"@
    } else if seconds < 86400 {
        decimal(seconds / 3600) + " Hours"@
    } else if seconds < 2592000 {
        decimal(seconds / 86400) + " Days"@
    } else if seconds < 31536000 {
        decimal(seconds / 2592000) + " Months"@
    } else {
        decimal(seconds / 31536000) + " Years"@
    }
}

/// Puts a number of seconds, given in decimal digits, in words. `None`
/// where `seconds` is no number.
pub fn seconds_to_human(seconds: String) -> (r: Option<String>)
    ensures
        match r {
            Some(text) => parsed_i64(seconds@) is Some && text@ == human_duration(
                parsed_i64(seconds@)->0,
            ),
            None => parsed_i64(seconds@) is None,
        },
{
    let parsed = match parse_i64(seconds.as_str()) {
        Some(v) => v,
        None => {
            return None;
        },
    };
    let (count, unit) = if parsed < 60 {
        (parsed, " Seconds")
    } else if parsed < 3600 {
        (parsed / 60, " Minutes")
    } else if parsed < 86400 {
        (parsed / 3600, " Hours")
    } else if parsed < 2592000 {
        (parsed / 86400, " Days")
    } else if parsed < 31536000 {
        (parsed / 2592000, " Months")
    } else {
        (parsed / 31536000, " Years")
    };
    let mut text = decimal_string(count);
    text.append(unit);
    Some(text)
}

} // verus!
