//! Parsing of the base-10 integers the player types: an optional sign
//! followed by at least one digit, valued as usual, rejected when it does
//! not fit in `i32` — exactly the lines std's integer parsing accepts.

use vstd::prelude::*;
use vstd::string::StrSliceExecFns;

use crate::text::digit_char;
use crate::text::spec_decimal;

verus! {

/// The value of a digit character; ten marks a non-digit.
pub open spec fn digit_value(c: char) -> int {
    if c == '0' {
        0
    } else if c == '1' {
        1
    } else if c == '2' {
        2
    } else if c == '3' {
        3
    } else if c == '4' {
        4
    } else if c == '5' {
        5
    } else if c == '6' {
        6
    } else if c == '7' {
        7
    } else if c == '8' {
        8
    } else if c == '9' {
        9
    } else {
        10
    }
}

/// Whether `c` is a decimal digit.
pub open spec fn is_digit(c: char) -> bool {
    digit_value(c) < 10
}

/// The value of a run of digits, most significant first.
pub open spec fn digits_value(s: Seq<char>) -> int
    decreases s.len(),
{
    if s.len() == 0 {
        0
    } else {
        digits_value(s.drop_last()) * 10 + digit_value(s.last())
    }
}

/// A non-empty run of digits.
pub open spec fn is_numeral(s: Seq<char>) -> bool {
    s.len() > 0 && (forall|i: int| 0 <= i < s.len() ==> is_digit(s[i]))
}

/// The integer a line denotes: an optional leading sign, then a numeral.
pub open spec fn spec_int_of(s: Seq<char>) -> Option<int> {
    if s.len() > 0 && (s[0] == '+' || s[0] == '-') {
        let magnitude = s.subrange(1, s.len() as int);
        if is_numeral(magnitude) {
            Some(
                if s[0] == '-' {
                    -digits_value(magnitude)
                } else {
                    digits_value(magnitude)
                },
            )
        } else {
            None
        }
    } else if is_numeral(s) {
        Some(digits_value(s))
    } else {
        None
    }
}

/// The line's value when it denotes an integer that fits in `i32`.
pub open spec fn spec_parse_i32(s: Seq<char>) -> Option<i32> {
    match spec_int_of(s) {
        Some(v) => if i32::MIN <= v <= i32::MAX {
            Some(v as i32)
        } else {
            None
        },
        None => None,
    }
}

/// The value of a digit character.
fn char_digit(c: char) -> (r: Option<u64>)
    ensures
        r is Some <==> is_digit(c),
        r matches Some(d) ==> d == digit_value(c),
{
    match c {
        '0' => Some(0),
        '1' => Some(1),
        '2' => Some(2),
        '3' => Some(3),
        '4' => Some(4),
        '5' => Some(5),
        '6' => Some(6),
        '7' => Some(7),
        '8' => Some(8),
        '9' => Some(9),
        _ => None,
    }
}

/// Parses a trimmed line as a base-10 `i32`: `Some` exactly for an
/// optionally signed numeral whose value fits, and then the usual value.
pub fn parse_i32(s: &str) -> (r: Option<i32>)
    ensures
        r == spec_parse_i32(s@),
{
    let n: usize = s.unicode_len();
    if n == 0 {
        return None;
    }
    let first = s.get_char(0);
    let negative = first == '-';
    let has_sign = negative || first == '+';
    let start: usize = if has_sign {
        1
    } else {
        0
    };
    if start == n {
        return None;
    }
    let mut i: usize = start;
    let mut acc: u64 = 0;
    let mut over = false;
    while i < n
        invariant
            start <= i <= n,
            start < n,
            n == s@.len(),
            negative == (s@[0] == '-'),
            has_sign == (s@[0] == '+' || s@[0] == '-'),
            has_sign ==> start == 1,
            !has_sign ==> start == 0,
            forall|j: int| start <= j < i ==> is_digit(s@[j]),
            !over ==> acc == digits_value(s@.subrange(start as int, i as int)) && acc
                <= 2147483648u64,
            over ==> digits_value(s@.subrange(start as int, i as int)) > 2147483648,
        decreases n - i,
    {
        let c = s.get_char(i);
        let d: u64 = match char_digit(c) {
            Some(d) => d,
            None => {
                proof {
                    if has_sign {
                        assert(s@.subrange(1, n as int)[i - 1] == s@[i as int]);
                        assert(!is_numeral(s@.subrange(1, n as int)));
                    } else {
                        assert(!is_numeral(s@));
                    }
                }
                return None;
            },
        };
        proof {
            assert(s@.subrange(start as int, (i + 1) as int).drop_last() =~= s@.subrange(
                start as int,
                i as int,
            ));
            assert(s@.subrange(start as int, (i + 1) as int).last() == s@[i as int]);
        }
        if !over {
            let next: u64 = acc * 10 + d;
            if next > 2147483648 {
                over = true;
            } else {
                acc = next;
            }
        }
        i += 1;
    }
    proof {
        if has_sign {
            assert(is_numeral(s@.subrange(1, n as int)));
        } else {
            assert(s@.subrange(0, n as int) =~= s@);
            assert(is_numeral(s@));
        }
    }
    if over {
        return None;
    }
    if negative {
        if acc == 2147483648 {
            Some(i32::MIN)
        } else {
            Some(-(acc as i32))
        }
    } else {
        if acc <= 2147483647 {
            Some(acc as i32)
        } else {
            None
        }
    }
}

/// The numeral of a non-negative integer is a numeral, and is valued back
/// to that integer.
proof fn lemma_decimal_digits(n: int)
    requires
        0 <= n,
    ensures
        is_numeral(spec_decimal(n)),
        digits_value(spec_decimal(n)) == n,
    decreases n,
{
    if n < 10 {
        let s = spec_decimal(n);
        assert(s.len() == 1);
        assert(s.last() == digit_char(n));
        assert(s.drop_last() =~= Seq::<char>::empty());
        assert(digits_value(Seq::<char>::empty()) == 0);
        assert(digits_value(s) == digit_value(digit_char(n)));
        assert(digit_value(digit_char(n)) == n);
    } else {
        lemma_decimal_digits(n / 10);
        let p = spec_decimal(n / 10);
        let s = spec_decimal(n);
        assert(s.drop_last() =~= p);
        assert(s.last() == digit_char(n % 10));
        assert(digit_value(digit_char(n % 10)) == n % 10);
        assert(digits_value(s) == digits_value(p) * 10 + digit_value(s.last()));
        assert(digits_value(s) == (n / 10) * 10 + n % 10);
        assert(digits_value(s) == n);
        assert forall|i: int| 0 <= i < s.len() implies is_digit(s[i]) by {
            if i < s.len() - 1 {
                assert(s[i] == p[i]);
            } else {
                assert(s[i] == digit_char(n % 10));
            }
        };
    }
}

/// Rendering an amount and reading it back are inverse: the numeral the
/// decimal formatter emits parses to exactly the amount it rendered.
pub proof fn lemma_decimal_round_trip(n: i32)
    requires
        0 <= n,
    ensures
        spec_parse_i32(spec_decimal(n as int)) == Some(n),
{
    lemma_decimal_digits(n as int);
    let s = spec_decimal(n as int);
    assert(is_digit(s[0]));
    assert(s[0] != '+' && s[0] != '-');
}

} // verus!
