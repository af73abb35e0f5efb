//! Numbers as text: rendering integer cents as a signed two-decimal string,
//! rendering plain integers, and parsing a signed integer out of a form
//! field.

use vstd::prelude::*;
use vstd::view::View as _;

verus! {

/// The decimal digit character for `d`.
pub open spec fn spec_digit_char(d: int) -> char
    recommends
        0 <= d <= 9,
{
    if d == 0 {
        '0'
    } else if d == 1 {
        '1'
    } else if d == 2 {
        '2'
    } else if d == 3 {
        '3'
    } else if d == 4 {
        '4'
    } else if d == 5 {
        '5'
    } else if d == 6 {
        '6'
    } else if d == 7 {
        '7'
    } else if d == 8 {
        '8'
    } else {
        '9'
    }
}

/// The decimal digits of `n`, most significant first, without leading
/// zeros (except for `n == 0`, which is the single digit `0`).
pub open spec fn spec_dec_digits(n: nat) -> Seq<char>
    decreases n,
{
    if n < 10 {
        seq![spec_digit_char(n as int)]
    } else {
        spec_dec_digits(n / 10) + seq![spec_digit_char((n % 10) as int)]
    }
}

/// The decimal rendering of a signed integer.
pub open spec fn spec_dec_int(n: int) -> Seq<char> {
    if n < 0 {
        seq!['-'] + spec_dec_digits((-n) as nat)
    } else {
        spec_dec_digits(n as nat)
    }
}

/// The signed two-decimal rendering of an amount of integer cents:
/// a minus sign for negative amounts, the whole units, a dot, and exactly
/// two cent digits.
pub open spec fn spec_format_balance(b: int) -> Seq<char> {
    let m = if b < 0 {
        -b
    } else {
        b
    };
    let cents = m % 100;
    let sign: Seq<char> = if b < 0 {
        seq!['-']
    } else {
        Seq::empty()
    };
    sign + spec_dec_digits((m / 100) as nat) + seq!['.'] + seq![
        spec_digit_char(cents / 10),
        spec_digit_char(cents % 10),
    ]
}

/// The one-character string for digit `d`.
fn digit_str(d: u64) -> (r: &'static str)
    requires
        d < 10,
    ensures
        r@ == seq![spec_digit_char(d as int)],
{
    if d == 0 {
        proof {
            reveal_strlit("0");
            assert("0"@ =~= seq!['0']);
        }
        "0"
    } else if d == 1 {
        proof {
            reveal_strlit("1");
            assert("1"@ =~= seq!['1']);
        }
        "1"
    } else if d == 2 {
        proof {
            reveal_strlit("2");
            assert("2"@ =~= seq!['2']);
        }
        "2"
    } else if d == 3 {
        proof {
            reveal_strlit("3");
            assert("3"@ =~= seq!['3']);
        }
        "3"
    } else if d == 4 {
        proof {
            reveal_strlit("4");
            assert("4"@ =~= seq!['4']);
        }
        "4"
    } else if d == 5 {
        proof {
            reveal_strlit("5");
            assert("5"@ =~= seq!['5']);
        }
        "5"
    } else if d == 6 {
        proof {
            reveal_strlit("6");
            assert("6"@ =~= seq!['6']);
        }
        "6"
    } else if d == 7 {
        proof {
            reveal_strlit("7");
            assert("7"@ =~= seq!['7']);
        }
        "7"
    } else if d == 8 {
        proof {
            reveal_strlit("8");
            assert("8"@ =~= seq!['8']);
        }
        "8"
    } else {
        proof {
            reveal_strlit("9");
            assert("9"@ =~= seq!['9']);
        }
        "9"
    }
}

/// The decimal digits of `n` as a string.
pub fn dec_digits_string(n: u64) -> (r: String)
    ensures
        r@ == spec_dec_digits(n as nat),
    decreases n,
{
    if n < 10 {
        digit_str(n).to_owned()
    } else {
        let mut s = dec_digits_string(n / 10);
        s.append(digit_str(n % 10));
        s
    }
}

/// The decimal rendering of a signed integer as a string.
pub fn dec_int_string(n: i64) -> (r: String)
    ensures
        r@ == spec_dec_int(n as int),
{
    if n < 0 {
        let m: u64 = (-(n as i128)) as u64;
        let mut s = "-".to_owned();
        let ds = dec_digits_string(m);
        s.append(ds.as_str());
        proof {
            reveal_strlit("-");
            assert(s@ =~= spec_dec_int(n as int));
        }
        s
    } else {
        dec_digits_string(n as u64)
    }
}

/// Render integer cents as a signed two-decimal string, e.g. `-150023`
/// becomes `-1500.23`.  Stable: the same cents always render the same way.
pub fn format_balance(balance: i64) -> (r: String)
    ensures
        r@ == spec_format_balance(balance as int),
{
    let neg = balance < 0;
    let m: u64 = if neg {
        (-(balance as i128)) as u64
    } else {
        balance as u64
    };
    let whole = m / 100;
    let cents = m % 100;
    let mut s = String::new();
    if neg {
        s.append("-");
    }
    let ds = dec_digits_string(whole);
    s.append(ds.as_str());
    s.append(".");
    s.append(digit_str(cents / 10));
    s.append(digit_str(cents % 10));
    proof {
        reveal_strlit("-");
        reveal_strlit(".");
        assert(s@ =~= spec_format_balance(balance as int));
    }
    s
}

/// `c` is a decimal digit.
pub open spec fn spec_is_digit(c: char) -> bool {
    48 <= c as u32 <= 57
}

/// The value of digit character `c`.
pub open spec fn spec_digit_val(c: char) -> int {
    c as u32 - 48
}

/// Every character of `s` is a decimal digit.
pub open spec fn spec_all_digits(s: Seq<char>) -> bool {
    forall|i: int| 0 <= i < s.len() ==> spec_is_digit(#[trigger] s[i])
}

/// The value of a pure digit string, most significant digit first.
pub open spec fn spec_digits_value(s: Seq<char>) -> int
    decreases s.len(),
{
    if s.len() == 0 {
        0
    } else {
        spec_digits_value(s.drop_last()) * 10 + spec_digit_val(s.last())
    }
}

/// The sign factor of a numeral: `-1` for a leading minus, else `1`.
pub open spec fn spec_numeral_sign(s: Seq<char>) -> int {
    if s.len() > 0 && s[0] == '-' {
        -1
    } else {
        1
    }
}

/// The digit part of a numeral: everything after an optional leading
/// `+` or `-`.
pub open spec fn spec_numeral_body(s: Seq<char>) -> Seq<char> {
    if s.len() > 0 && (s[0] == '-' || s[0] == '+') {
        s.subrange(1, s.len() as int)
    } else {
        s
    }
}

/// What parsing `s` as a signed 64-bit integer yields: an optional sign,
/// then at least one decimal digit and nothing else, with the signed value
/// in range; everything else is rejected.
pub open spec fn spec_parse_i64(s: Seq<char>) -> Option<int> {
    let body = spec_numeral_body(s);
    let v = spec_numeral_sign(s) * spec_digits_value(body);
    if body.len() > 0 && spec_all_digits(body) && i64::MIN <= v <= i64::MAX {
        Some(v)
    } else {
        None
    }
}

/// The value of a digit string never shrinks when digits are appended.
proof fn lemma_digits_value_nonneg(s: Seq<char>)
    requires
        spec_all_digits(s),
    ensures
        spec_digits_value(s) >= 0,
    decreases s.len(),
{
    if s.len() > 0 {
        assert(spec_all_digits(s.drop_last())) by {
            assert(forall|i: int|
                0 <= i < s.len() - 1 ==> spec_is_digit(#[trigger] s.drop_last()[i]) == spec_is_digit(
                    s[i],
                ));
        }
        lemma_digits_value_nonneg(s.drop_last());
    }
}

/// Parse a signed 64-bit integer the way a form field is parsed: an
/// optional `+` or `-`, then one or more decimal digits; anything else, or
/// a value out of range, yields `None`.
pub fn parse_i64(s: &str) -> (r: Option<i64>)
    ensures
        (r is Some) == (spec_parse_i64(s@) is Some),
        r is Some ==> Some(r.unwrap() as int) == spec_parse_i64(s@),
{
    let len = s.unicode_len();
    let mut i: usize = 0;
    let mut neg = false;
    if len > 0 {
        let c0 = s.get_char(0);
        if c0 == '-' {
            neg = true;
            i = 1;
        } else if c0 == '+' {
            i = 1;
        }
    }
    if i >= len {
        // no digits at all
        return None;
    }
    let ghost body = spec_numeral_body(s@);
    let ghost start = i as int;
    proof {
        assert(body =~= s@.subrange(start, s@.len() as int));
    }
    let mut mag: u64 = 0;
    let mut over = false;
    while i < len
        invariant
            start <= i <= len,
            len == s@.len(),
            body == s@.subrange(start, s@.len() as int),
            body == spec_numeral_body(s@),
            neg == (spec_numeral_sign(s@) == -1),
            0 <= start <= 1,
            spec_all_digits(s@.subrange(start, i as int)),
            !over ==> mag == spec_digits_value(s@.subrange(start, i as int)),
            over ==> spec_digits_value(s@.subrange(start, i as int)) > u64::MAX,
        decreases len - i,
    {
        let c = s.get_char(i);
        let u = c as u32;
        if u < 48 || u > 57 {
            // a non-digit in the body rejects the numeral
            proof {
                assert(!spec_is_digit(body[i - start]));
            }
            return None;
        }
        let d = (u - 48) as u64;
        let ghost pre = s@.subrange(start, i as int);
        let ghost cur = s@.subrange(start, i + 1 as int);
        proof {
            assert(cur.drop_last() =~= pre);
            assert(cur.last() == s@[i as int]);
            lemma_digits_value_nonneg(pre);
        }
        if !over {
            mag = match mag.checked_mul(10) {
                Some(m10) => match m10.checked_add(d) {
                    Some(m2) => m2,
                    None => {
                        over = true;
                        0
                    }
                },
                None => {
                    over = true;
                    0
                }
            };
        }
        i = i + 1;
    }
    proof {
        assert(s@.subrange(start, i as int) == body);
    }
    if over {
        // the magnitude exceeds what any 64-bit value can hold
        return None;
    }
    if neg {
        if mag > 9223372036854775808u64 {
            None
        } else if mag == 9223372036854775808u64 {
            Some(i64::MIN)
        } else {
            Some(-(mag as i64))
        }
    } else {
        if mag > i64::MAX as u64 {
            None
        } else {
            Some(mag as i64)
        }
    }
}

} // verus!
