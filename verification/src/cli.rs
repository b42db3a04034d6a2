//! The small command-line helpers that ship alongside the client: doubling
//! an integer, rendering the result line, and parsing a decimal argument.
//!
//! Formatting and parsing are written out and verified against a decimal
//! model: `dec_int` gives the character sequence of an integer, and
//! `int_literal_val` the value of a decimal literal with an optional sign.

use vstd::prelude::*;

use vstd::string::StrSliceExecFns;
use vstd::string::StringExecFns;

verus! {

/// The character of one decimal digit value.
pub open spec fn dec_digit(d: int) -> char {
    if d == 0 {
        '0'
    } else if d == 1 {
        '1'
    } else if d == 2 {
        '2'
    } else if d == 3 {
        '3'
    } else if d == 4 {
        '4'
    } else if d == 5 {
        '5'
    } else if d == 6 {
        '6'
    } else if d == 7 {
        '7'
    } else if d == 8 {
        '8'
    } else {
        '9'
    }
}

/// The decimal digits of a non-negative integer, most significant first.
pub open spec fn dec_nat(n: int) -> Seq<char>
    decreases n,
{
    if n < 10 {
        seq![dec_digit(n)]
    } else {
        dec_nat(n / 10) + seq![dec_digit(n % 10)]
    }
}

/// The decimal rendering of an integer, with a leading minus sign where
/// negative.
pub open spec fn dec_int(n: int) -> Seq<char> {
    if n < 0 {
        seq!['-'] + dec_nat(-n)
    } else {
        dec_nat(n)
    }
}

/// `c` is one of the characters `'0'` through `'9'`.
pub open spec fn is_dec_digit(c: char) -> bool {
    48 <= c as int <= 57
}

/// The value of one decimal digit character.
pub open spec fn digit_val(c: char) -> int {
    c as int - 48
}

/// The value of a sequence of decimal digit characters.
pub open spec fn digits_val(s: Seq<char>) -> int
    decreases s.len(),
{
    if s.len() == 0 {
        0
    } else {
        digits_val(s.drop_last()) * 10 + digit_val(s.last())
    }
}

pub open spec fn all_dec_digits(s: Seq<char>) -> bool {
    forall|i: int| 0 <= i < s.len() ==> is_dec_digit(#[trigger] s[i])
}

/// The shape of a decimal integer literal: an optional `'+'` or `'-'`
/// sign, then at least one digit and nothing else.
pub open spec fn int_literal_ok(s: Seq<char>) -> bool {
    if s.len() == 0 {
        false
    } else if s[0] == '-' || s[0] == '+' {
        s.len() > 1 && all_dec_digits(s.skip(1))
    } else {
        all_dec_digits(s)
    }
}

/// The value a well-shaped decimal integer literal denotes.
pub open spec fn int_literal_val(s: Seq<char>) -> int {
    if s.len() > 0 && s[0] == '-' {
        -digits_val(s.skip(1))
    } else if s.len() > 0 && s[0] == '+' {
        digits_val(s.skip(1))
    } else {
        digits_val(s)
    }
}

/// `s` is a decimal literal denoting a value a 32-bit signed integer can
/// hold.
pub open spec fn parses_to_i32(s: Seq<char>) -> bool {
    int_literal_ok(s) && -2147483648 <= int_literal_val(s) <= 2147483647
}

proof fn lemma_digits_val_nonneg(s: Seq<char>)
    requires
        all_dec_digits(s),
    ensures
        digits_val(s) >= 0,
    decreases s.len(),
{
    if s.len() > 0 {
        assert forall|i: int| 0 <= i < s.drop_last().len() implies is_dec_digit(
            #[trigger] s.drop_last()[i],
        ) by {
            assert(s.drop_last()[i] == s[i]);
        }
        lemma_digits_val_nonneg(s.drop_last());
    }
}

proof fn lemma_digits_val_prefix_le(s: Seq<char>, j: int)
    requires
        all_dec_digits(s),
        0 <= j <= s.len(),
    ensures
        digits_val(s.take(j)) <= digits_val(s),
    decreases s.len() - j,
{
    if j == s.len() {
        assert(s.take(j) =~= s);
    } else {
        assert(s.take(j + 1).drop_last() =~= s.take(j));
        assert(s.take(j + 1).last() == s[j]);
        assert forall|i: int| 0 <= i < s.take(j).len() implies is_dec_digit(
            #[trigger] s.take(j)[i],
        ) by {
            assert(s.take(j)[i] == s[i]);
        }
        lemma_digits_val_nonneg(s.take(j));
        lemma_digits_val_prefix_le(s, j + 1);
    }
}

/// Doubles an integer.
pub fn double(n: i32) -> (r: i32)
    requires
        -1073741824 <= n <= 1073741823,
    ensures
        r as int == 2 * n as int,
{
    n * 2
}

fn digit_str(d: u64) -> (r: &'static str)
    requires
        d < 10,
    ensures
        r@ == seq![dec_digit(d as int)],
{
    if d == 0 {
        proof {
            reveal_strlit("0");
            assert("0"@ =~= seq![dec_digit(0)]);
        }
        "0"
    } else if d == 1 {
        proof {
            reveal_strlit("1");
            assert("1"@ =~= seq![dec_digit(1)]);
        }
        "1"
    } else if d == 2 {
        proof {
            reveal_strlit("2");
            assert("2"@ =~= seq![dec_digit(2)]);
        }
        "2"
    } else if d == 3 {
        proof {
            reveal_strlit("3");
            assert("3"@ =~= seq![dec_digit(3)]);
        }
        "3"
    } else if d == 4 {
        proof {
            reveal_strlit("4");
            assert("4"@ =~= seq![dec_digit(4)]);
        }
        "4"
    } else if d == 5 {
        proof {
            reveal_strlit("5");
            assert("5"@ =~= seq![dec_digit(5)]);
        }
        "5"
    } else if d == 6 {
        proof {
            reveal_strlit("6");
            assert("6"@ =~= seq![dec_digit(6)]);
        }
        "6"
    } else if d == 7 {
        proof {
            reveal_strlit("7");
            assert("7"@ =~= seq![dec_digit(7)]);
        }
        "7"
    } else if d == 8 {
        proof {
            reveal_strlit("8");
            assert("8"@ =~= seq![dec_digit(8)]);
        }
        "8"
    } else {
        proof {
            reveal_strlit("9");
            assert("9"@ =~= seq![dec_digit(9)]);
        }
        "9"
    }
}

fn dec_u64(m: u64) -> (r: String)
    ensures
        r@ == dec_nat(m as int),
    decreases m,
{
    if m < 10 {
        String::from_str(digit_str(m))
    } else {
        let mut s = dec_u64(m / 10);
        s.append(digit_str(m % 10));
        s
    }
}

/// Renders the doubled input as the one-line result text.
pub fn format_result(n: i32) -> (r: String)
    requires
        -1073741824 <= n <= 1073741823,
    ensures
        r@ == "Result: "@ + dec_int(2 * n as int),
{
    let d = double(n);
    let mut s = String::from_str("Result: ");
    if d < 0 {
        s.append("-");
        let t = dec_u64((-(d as i64)) as u64);
        s.append(t.as_str());
        proof {
            reveal_strlit("-");
            assert("-"@ =~= seq!['-']);
            assert("Result: "@ + "-"@ + dec_nat(-(d as int)) =~= "Result: "@ + dec_int(
                2 * n as int,
            ));
        }
    } else {
        let t = dec_u64(d as u64);
        s.append(t.as_str());
    }
    s
}

fn parse_error(arg: &str) -> (r: String)
    ensures
        r@ == "Error: '"@ + arg@ + "' is not a valid integer"@,
{
    let mut s = String::from_str("Error: '");
    s.append(arg);
    s.append("' is not a valid integer");
    s
}

/// Parses a decimal command-line argument as a 32-bit signed integer.
///
/// Exactly the well-shaped literals whose value fits are accepted; any
/// other argument is rejected with the one-line diagnostic quoting it.
pub fn parse_arg(arg: &str) -> (r: Result<i32, String>)
    ensures
        parses_to_i32(arg@) ==> (r matches Ok(n) && n as int == int_literal_val(arg@)),
        !parses_to_i32(arg@) ==> (r matches Err(m) && m@ == "Error: '"@ + arg@
            + "' is not a valid integer"@),
{
    let len = arg.unicode_len();
    if len == 0 {
        return Err(parse_error(arg));
    }
    let first = arg.get_char(0);
    let neg = first == '-';
    let has_sign = neg || first == '+';
    let start: usize = if has_sign {
        1
    } else {
        0
    };
    if len == start {
        return Err(parse_error(arg));
    }
    let ghost digs = arg@.skip(start as int);
    proof {
        if !has_sign {
            assert(digs =~= arg@);
        }
    }
    let mut acc: u64 = 0;
    let mut i: usize = start;
    while i < len
        invariant
            start <= i <= len,
            len == arg@.len(),
            start < len,
            neg == (arg@[0] == '-'),
            has_sign == (arg@[0] == '-' || arg@[0] == '+'),
            start == if has_sign {
                1int
            } else {
                0int
            },
            digs == arg@.skip(start as int),
            int_literal_ok(arg@) ==> all_dec_digits(digs),
            all_dec_digits(arg@.subrange(start as int, i as int)),
            acc as int == digits_val(arg@.subrange(start as int, i as int)),
            acc <= 0x80000000,
        decreases len - i,
    {
        let c = arg.get_char(i);
        let v = c as u32;
        if v < 48 || v > 57 {
            proof {
                if int_literal_ok(arg@) {
                    assert(is_dec_digit(digs[i - start as int]));
                    assert(digs[i - start as int] == arg@[i as int]);
                }
            }
            return Err(parse_error(arg));
        }
        let d: u64 = (v - 48) as u64;
        acc = acc * 10 + d;
        proof {
            assert(digit_val(arg@[i as int]) == d as int);
            assert(arg@.subrange(start as int, i as int + 1).drop_last() =~= arg@.subrange(
                start as int,
                i as int,
            ));
            assert(arg@.subrange(start as int, i as int + 1).last() == arg@[i as int]);
            assert forall|k: int| 0 <= k < i + 1 - start implies is_dec_digit(
                #[trigger] arg@.subrange(start as int, i as int + 1)[k],
            ) by {
                if k < i - start {
                    assert(arg@.subrange(start as int, i as int + 1)[k] == arg@.subrange(
                        start as int,
                        i as int,
                    )[k]);
                }
            }
        }
        if acc > 0x80000000 {
            proof {
                if parses_to_i32(arg@) {
                    let k = i as int + 1 - start as int;
                    assert(digs.take(k) =~= arg@.subrange(start as int, i as int + 1));
                    lemma_digits_val_prefix_le(digs, k);
                    assert(digits_val(digs) >= acc as int);
                    if !has_sign {
                        assert(digs =~= arg@);
                    }
                    assert(int_literal_val(arg@) > 0x7fffffff || int_literal_val(arg@)
                        < -0x80000000);
                }
            }
            return Err(parse_error(arg));
        }
        i = i + 1;
    }
    proof {
        assert(arg@.subrange(start as int, len as int) =~= digs);
    }
    if neg {
        let n: i32 = (-(acc as i64)) as i32;
        Ok(n)
    } else {
        if acc > 0x7fffffff {
            return Err(parse_error(arg));
        }
        let n: i32 = acc as i32;
        Ok(n)
    }
}

} // verus!
