//! Decimal text for the snapshot's numeric fields.
//!
//! Counters render as plain decimal integers; the microsecond timings render
//! as fractional milliseconds with exactly three digits after the point, so
//! full microsecond precision survives the trip through the document.  The
//! spec functions here define the digit strings once; the writers append them
//! to a growing output, and the parsing lemmas of the round-trip proof read
//! them back.

use vstd::arithmetic::div_mod::lemma_fundamental_div_mod;
use vstd::prelude::*;
use vstd::string::StringExecFns;

verus! {

/// The character of one decimal digit.
pub open spec fn digit_char(d: nat) -> char {
    if d == 0 {
        '0'
    } else if d == 1 {
        '1'
    } else if d == 2 {
        '2'
    } else if d == 3 {
        '3'
    } else if d == 4 {
        '4'
    } else if d == 5 {
        '5'
    } else if d == 6 {
        '6'
    } else if d == 7 {
        '7'
    } else if d == 8 {
        '8'
    } else {
        '9'
    }
}

/// Whether a character is a decimal digit.
pub open spec fn is_digit_char(c: char) -> bool {
    48 <= c as u32 <= 57
}

/// The value of a digit character.
pub open spec fn digit_val(c: char) -> nat {
    (c as u32 - 48) as nat
}

/// The decimal digits of a non-negative number, most significant first,
/// without leading zeros (zero itself renders as `"0"`).
pub open spec fn dec_digits(n: nat) -> Seq<char>
    decreases n,
{
    if n < 10 {
        seq![digit_char(n)]
    } else {
        dec_digits(n / 10).push(digit_char(n % 10))
    }
}

/// The decimal text of a signed number: a minus sign and the digits of the
/// magnitude, or just the digits.
pub open spec fn dec_int(v: int) -> Seq<char> {
    if v < 0 {
        seq!['-'] + dec_digits((-v) as nat)
    } else {
        dec_digits(v as nat)
    }
}

/// The decimal text of a microsecond count, written as milliseconds with
/// three fractional digits: `1234567` microseconds render as `"1234.567"`.
pub open spec fn dec_millis(us: nat) -> Seq<char> {
    dec_digits(us / 1000) + seq![
        '.',
        digit_char((us / 100) % 10),
        digit_char((us / 10) % 10),
        digit_char(us % 10),
    ]
}

/// Digit characters are digits, carry their own value, and every digit
/// string starts with one (so a following non-digit always ends a number).
pub proof fn lemma_digit_char(d: nat)
    requires
        d < 10,
    ensures
        is_digit_char(digit_char(d)),
        digit_val(digit_char(d)) == d,
{
}

/// A digit string is never empty and starts with a digit character.
pub proof fn lemma_dec_digits_starts_with_digit(n: nat)
    ensures
        dec_digits(n).len() >= 1,
        is_digit_char(dec_digits(n)[0]),
    decreases n,
{
    if n < 10 {
        lemma_digit_char(n);
    } else {
        lemma_dec_digits_starts_with_digit(n / 10);
    }
}

/// The single-character string of one decimal digit.
pub fn digit_str(d: u64) -> (r: &'static str)
    requires
        d < 10,
    ensures
        r@ == seq![digit_char(d as nat)],
{
    match d {
        0 => {
            proof {
                reveal_strlit("0");
                assert(("0")@ =~= seq![digit_char(0)]);
            }
            "0"
        },
        1 => {
            proof {
                reveal_strlit("1");
                assert(("1")@ =~= seq![digit_char(1)]);
            }
            "1"
        },
        2 => {
            proof {
                reveal_strlit("2");
                assert(("2")@ =~= seq![digit_char(2)]);
            }
            "2"
        },
        3 => {
            proof {
                reveal_strlit("3");
                assert(("3")@ =~= seq![digit_char(3)]);
            }
            "3"
        },
        4 => {
            proof {
                reveal_strlit("4");
                assert(("4")@ =~= seq![digit_char(4)]);
            }
            "4"
        },
        5 => {
            proof {
                reveal_strlit("5");
                assert(("5")@ =~= seq![digit_char(5)]);
            }
            "5"
        },
        6 => {
            proof {
                reveal_strlit("6");
                assert(("6")@ =~= seq![digit_char(6)]);
            }
            "6"
        },
        7 => {
            proof {
                reveal_strlit("7");
                assert(("7")@ =~= seq![digit_char(7)]);
            }
            "7"
        },
        8 => {
            proof {
                reveal_strlit("8");
                assert(("8")@ =~= seq![digit_char(8)]);
            }
            "8"
        },
        _ => {
            proof {
                reveal_strlit("9");
                assert(("9")@ =~= seq![digit_char(9)]);
            }
            "9"
        },
    }
}

/// Appends the decimal digits of an unsigned number.
pub fn write_u64(out: &mut String, n: u64)
    ensures
        final(out)@ == old(out)@ + dec_digits(n as nat),
    decreases n,
{
    if n < 10 {
        out.append(digit_str(n));
    } else {
        write_u64(out, n / 10);
        out.append(digit_str(n % 10));
        proof {
            assert(final(out)@ =~= old(out)@ + dec_digits(n as nat));
        }
    }
}

/// Appends the decimal text of a signed number.
pub fn write_i64(out: &mut String, v: i64)
    ensures
        final(out)@ == old(out)@ + dec_int(v as int),
{
    if v >= 0 {
        write_u64(out, v as u64);
    } else {
        proof {
            reveal_strlit("-");
            assert(("-")@ =~= seq!['-']);
        }
        out.append("-");
        let mag: u64 = if v == i64::MIN {
            9223372036854775808
        } else {
            (-v) as u64
        };
        assert(mag as nat == (-(v as int)) as nat);
        write_u64(out, mag);
        proof {
            assert(final(out)@ =~= old(out)@ + dec_int(v as int));
        }
    }
}

/// Appends a microsecond count as fractional milliseconds.
pub fn write_millis(out: &mut String, us: u64)
    ensures
        final(out)@ == old(out)@ + dec_millis(us as nat),
{
    write_u64(out, us / 1000);
    proof {
        reveal_strlit(".");
        assert((".")@ =~= seq!['.']);
    }
    out.append(".");
    out.append(digit_str((us / 100) % 10));
    out.append(digit_str((us / 10) % 10));
    out.append(digit_str(us % 10));
    proof {
        assert(final(out)@ =~= old(out)@ + dec_millis(us as nat));
    }
}

/// Ten to a given power.
pub open spec fn pow10(k: nat) -> nat
    decreases k,
{
    if k == 0 {
        1
    } else {
        10 * pow10((k - 1) as nat)
    }
}

/// Greedy decimal scan: consumes leading digit characters, folding them onto
/// an accumulator, and returns the value with the unread remainder.
pub open spec fn parse_digits(s: Seq<char>, acc: nat) -> (nat, Seq<char>)
    decreases s.len(),
{
    if s.len() > 0 && is_digit_char(s[0]) {
        parse_digits(s.drop_first(), acc * 10 + digit_val(s[0]))
    } else {
        (acc, s)
    }
}

/// Scanning a digit string folds exactly its value onto the accumulator and
/// moves past it.
pub proof fn lemma_parse_digits_continue(n: nat, rest: Seq<char>, acc: nat)
    ensures
        parse_digits(dec_digits(n) + rest, acc) == parse_digits(
            rest,
            acc * pow10(dec_digits(n).len()) + n,
        ),
    decreases n,
{
    lemma_digit_char(n % 10);
    if n < 10 {
        lemma_digit_char(n);
        let s = dec_digits(n) + rest;
        assert(s[0] == digit_char(n));
        assert(s.drop_first() =~= rest);
        assert(pow10(0) == 1);
        assert(pow10(1) == 10);
    } else {
        let d = digit_char(n % 10);
        let k = dec_digits(n / 10).len();
        assert(dec_digits(n) + rest =~= dec_digits(n / 10) + (seq![d] + rest));
        lemma_parse_digits_continue(n / 10, seq![d] + rest, acc);
        let acc2 = acc * pow10(k) + n / 10;
        assert((seq![d] + rest).drop_first() =~= rest);
        assert(parse_digits(seq![d] + rest, acc2) == parse_digits(rest, acc2 * 10 + n % 10));
        assert((acc * pow10(k) + n / 10) * 10 == acc * (10 * pow10(k)) + (n / 10) * 10)
            by (nonlinear_arith);
        lemma_fundamental_div_mod(n as int, 10);
        assert(dec_digits(n).len() == k + 1);
        assert(pow10(k + 1) == 10 * pow10(k));
    }
}

/// A scan never returns less than what is already on the accumulator.
pub proof fn lemma_parse_digits_lower_bound(s: Seq<char>, acc: nat)
    ensures
        parse_digits(s, acc).0 >= acc,
    decreases s.len(),
{
    if s.len() > 0 && is_digit_char(s[0]) {
        lemma_parse_digits_lower_bound(s.drop_first(), acc * 10 + digit_val(s[0]));
    }
}

} // verus!
