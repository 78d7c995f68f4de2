//! The polymorphic numeric adapter.
//!
//! JSON producers represent large unsigned values either as strings or as raw
//! numbers. This module converges the three wire shapes (string, unsigned
//! integer, signed integer) to one canonical `u64`, and always formats values
//! back out as base-10 decimal strings.

use vstd::prelude::*;
use vstd::arithmetic::div_mod::lemma_fundamental_div_mod;
use vstd::string::StrSliceExecFns;
use vstd::string::StringExecFns;

verus! {

/// The three shapes a numeric wire value may arrive in.
#[derive(Debug)]
pub enum WireValue {
    Text(String),
    Unsigned(u64),
    Signed(i64),
}

/// Why a wire value failed to convert to a `u64`.
#[derive(Clone, Copy, Debug, PartialEq, Eq, Structural)]
pub enum NumericError {
    /// A textual value does not lex as an unsigned 64-bit decimal numeral.
    Parse,
    /// A signed wire value is negative where an unsigned value is required.
    Range,
}

/// A base-10 digit character.
pub open spec fn is_dec_digit(c: char) -> bool {
    '0' <= c && c <= '9'
}

/// The numeric value of a digit character.
pub open spec fn digit_val(c: char) -> int {
    c as int - '0' as int
}

/// The digit character for a value in `0..10`.
pub open spec fn digit_char(d: int) -> char {
    if d == 0 {
        '0'
    } else if d == 1 {
        '1'
    } else if d == 2 {
        '2'
    } else if d == 3 {
        '3'
    } else if d == 4 {
        '4'
    } else if d == 5 {
        '5'
    } else if d == 6 {
        '6'
    } else if d == 7 {
        '7'
    } else if d == 8 {
        '8'
    } else {
        '9'
    }
}

/// A nonempty string of decimal digits.
pub open spec fn is_dec_numeral(s: Seq<char>) -> bool {
    s.len() > 0 && forall|i: int| 0 <= i < s.len() ==> is_dec_digit(#[trigger] s[i])
}

/// The canonical decimal rendering of `n`, most significant digit first.
pub open spec fn dec_digits_of(n: nat) -> Seq<char>
    decreases n,
{
    if n < 10 {
        seq![digit_char(n as int)]
    } else {
        dec_digits_of(n / 10).push(digit_char((n % 10) as int))
    }
}

/// The value denoted by a digit string, read in base 10.
pub open spec fn dec_value(s: Seq<char>) -> int
    decreases s.len(),
{
    if s.len() == 0 {
        0
    } else {
        dec_value(s.drop_last()) * 10 + digit_val(s.last())
    }
}

/// A digit string denotes a non-negative value.
pub proof fn lemma_dec_value_nonneg(s: Seq<char>)
    requires
        forall|i: int| 0 <= i < s.len() ==> is_dec_digit(#[trigger] s[i]),
    ensures
        dec_value(s) >= 0,
    decreases s.len(),
{
    if s.len() > 0 {
        lemma_dec_value_nonneg(s.drop_last());
    }
}

/// Reading more digits never decreases the denoted value.
pub proof fn lemma_dec_value_prefix(s: Seq<char>, i: int)
    requires
        0 <= i <= s.len(),
        forall|j: int| 0 <= j < s.len() ==> is_dec_digit(#[trigger] s[j]),
    ensures
        dec_value(s.take(i)) <= dec_value(s),
    decreases s.len() - i,
{
    if i == s.len() {
        assert(s.take(i) =~= s);
    } else {
        assert(s.take(i + 1).drop_last() =~= s.take(i));
        assert(s.take(i + 1).last() == s[i]);
        lemma_dec_value_nonneg(s.take(i));
        assert(dec_value(s.take(i)) <= dec_value(s.take(i + 1)));
        lemma_dec_value_prefix(s, i + 1);
    }
}

/// The canonical rendering consists only of digits.
pub proof fn lemma_dec_digits_of_digits(n: nat)
    ensures
        dec_digits_of(n).len() >= 1,
        forall|i: int|
            0 <= i < dec_digits_of(n).len() ==> is_dec_digit(#[trigger] dec_digits_of(n)[i]),
    decreases n,
{
    if n >= 10 {
        lemma_dec_digits_of_digits(n / 10);
    }
}

/// A digit character denotes the value it was built from.
proof fn lemma_digit_char_val(d: int)
    requires
        0 <= d < 10,
    ensures
        is_dec_digit(digit_char(d)),
        digit_val(digit_char(d)) == d,
{
}

/// The law behind the wire round trip: rendering a value as decimal digits
/// and reading the digits back yields the value, and the rendering is a
/// nonempty digit string.
pub proof fn lemma_decimal_round_trip(n: nat)
    ensures
        is_dec_numeral(dec_digits_of(n)),
        dec_value(dec_digits_of(n)) == n,
    decreases n,
{
    lemma_dec_digits_of_digits(n);
    if n < 10 {
        lemma_digit_char_val(n as int);
        let s = seq![digit_char(n as int)];
        assert(s.drop_last() =~= Seq::<char>::empty());
        assert(s.last() == digit_char(n as int));
        assert(dec_value(s) == dec_value(Seq::<char>::empty()) * 10 + digit_val(digit_char(n as int)));
    } else {
        lemma_digit_char_val((n % 10) as int);
        lemma_decimal_round_trip(n / 10);
        let prefix = dec_digits_of(n / 10);
        let c = digit_char((n % 10) as int);
        assert(prefix.push(c).drop_last() =~= prefix);
        assert(prefix.push(c).last() == c);
        lemma_fundamental_div_mod(n as int, 10);
    }
}

/// The digit string for a value in `0..10`.
fn digit_to_str(d: u64) -> (r: &'static str)
    requires
        d < 10,
    ensures
        r@ == seq![digit_char(d as int)],
{
    proof {
        reveal_strlit("0");
        reveal_strlit("1");
        reveal_strlit("2");
        reveal_strlit("3");
        reveal_strlit("4");
        reveal_strlit("5");
        reveal_strlit("6");
        reveal_strlit("7");
        reveal_strlit("8");
        reveal_strlit("9");
    }
    if d == 0 {
        "0"
    } else if d == 1 {
        "1"
    } else if d == 2 {
        "2"
    } else if d == 3 {
        "3"
    } else if d == 4 {
        "4"
    } else if d == 5 {
        "5"
    } else if d == 6 {
        "6"
    } else if d == 7 {
        "7"
    } else if d == 8 {
        "8"
    } else {
        "9"
    }
}

/// Formats `v` as a base-10 decimal string. Output is always a string, never
/// a raw number, so that limited-precision consumers cannot corrupt it.
pub fn format_u64(v: u64) -> (r: String)
    ensures
        r@ == dec_digits_of(v as nat),
    decreases v,
{
    if v < 10 {
        digit_to_str(v).to_owned()
    } else {
        let mut s = format_u64(v / 10);
        s.append(digit_to_str(v % 10));
        proof {
            assert(dec_digits_of((v / 10) as nat) + seq![digit_char((v % 10) as int)]
                =~= dec_digits_of((v / 10) as nat).push(digit_char((v % 10) as int)));
        }
        s
    }
}

/// Lexes `s` as a base-10 unsigned 64-bit numeral. Succeeds exactly when `s`
/// is a nonempty string of digits whose value fits in a `u64`.
pub fn parse_u64_dec(s: &str) -> (r: Result<u64, NumericError>)
    ensures
        is_dec_numeral(s@) && dec_value(s@) <= u64::MAX ==> r == Ok::<u64, NumericError>(
            dec_value(s@) as u64,
        ),
        !(is_dec_numeral(s@) && dec_value(s@) <= u64::MAX) ==> r == Err::<u64, NumericError>(
            NumericError::Parse,
        ),
{
    let len = s.unicode_len();
    if len == 0 {
        return Err(NumericError::Parse);
    }
    let mut acc: u64 = 0;
    let mut i: usize = 0;
    while i < len
        invariant
            0 <= i <= len,
            len == s@.len(),
            forall|j: int| 0 <= j < i ==> is_dec_digit(#[trigger] s@[j]),
            acc == dec_value(s@.take(i as int)),
        decreases len - i,
    {
        let c = s.get_char(i);
        let cv = c as u32;
        if cv < 48 || cv > 57 {
            assert(!is_dec_digit(s@[i as int]));
            return Err(NumericError::Parse);
        }
        let d = (cv - 48) as u64;
        assert(d == digit_val(s@[i as int]));
        proof {
            assert(s@.take(i + 1).drop_last() =~= s@.take(i as int));
            assert(s@.take(i + 1).last() == s@[i as int]);
        }
        if acc > (u64::MAX - d) / 10 {
            proof {
                assert(acc * 10 + d > u64::MAX) by (nonlinear_arith)
                    requires
                        acc > (u64::MAX - d) / 10,
                        d < 10,
                        acc <= u64::MAX,
                ;
                if is_dec_numeral(s@) && dec_value(s@) <= u64::MAX {
                    lemma_dec_value_prefix(s@, i + 1);
                    assert(dec_value(s@.take(i + 1)) == acc * 10 + d);
                    assert(false);
                }
            }
            return Err(NumericError::Parse);
        }
        proof {
            assert(acc * 10 + d <= u64::MAX) by (nonlinear_arith)
                requires
                    acc <= (u64::MAX - d) / 10,
                    d < 10,
            ;
        }
        acc = acc * 10 + d;
        i = i + 1;
    }
    proof {
        assert(s@.take(len as int) =~= s@);
    }
    Ok(acc)
}

/// Converges any of the three wire shapes to one canonical `u64`: a string is
/// lexed as a decimal numeral, a negative signed value is out of range, and
/// non-negative values pass through.
pub fn parse_wire(w: &WireValue) -> (r: Result<u64, NumericError>)
    ensures
        w is Unsigned ==> r == Ok::<u64, NumericError>(w->Unsigned_0),
        w is Signed && w->Signed_0 >= 0 ==> r == Ok::<u64, NumericError>(w->Signed_0 as u64),
        w is Signed && w->Signed_0 < 0 ==> r == Err::<u64, NumericError>(NumericError::Range),
        w is Text ==> {
            let s = w->Text_0@;
            if is_dec_numeral(s) && dec_value(s) <= u64::MAX {
                r == Ok::<u64, NumericError>(dec_value(s) as u64)
            } else {
                r == Err::<u64, NumericError>(NumericError::Parse)
            }
        },
{
    match w {
        WireValue::Unsigned(u) => Ok(*u),
        WireValue::Signed(i) => {
            if *i < 0 {
                Err(NumericError::Range)
            } else {
                Ok(*i as u64)
            }
        },
        WireValue::Text(s) => parse_u64_dec(s.as_str()),
    }
}

} // verus!
