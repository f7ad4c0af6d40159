//! Display of monetary amounts held as integer cents.
//!
//! An amount of `n` cents renders as `$D.CC`, where `D` is `|n| / 100` in
//! decimal with no leading zeros and `CC` is the two-digit remainder; a
//! negative amount carries `-` before the dollar sign.

use vstd::prelude::*;
use vstd::string::StringExecFns;

verus! {

/// The character for one decimal digit.
pub open spec fn digit_char(d: int) -> char
    recommends
        0 <= d < 10,
{
    if d == 0 {
        '0'
    } else if d == 1 {
        '1'
    } else if d == 2 {
        '2'
    } else if d == 3 {
        '3'
    } else if d == 4 {
        '4'
    } else if d == 5 {
        '5'
    } else if d == 6 {
        '6'
    } else if d == 7 {
        '7'
    } else if d == 8 {
        '8'
    } else {
        '9'
    }
}

/// The numeric value of one decimal digit character, `-1` for any other character.
pub open spec fn char_val(c: char) -> int {
    if c == '0' {
        0
    } else if c == '1' {
        1
    } else if c == '2' {
        2
    } else if c == '3' {
        3
    } else if c == '4' {
        4
    } else if c == '5' {
        5
    } else if c == '6' {
        6
    } else if c == '7' {
        7
    } else if c == '8' {
        8
    } else if c == '9' {
        9
    } else {
        -1
    }
}

/// Whether `c` is a decimal digit character.
pub open spec fn is_digit(c: char) -> bool {
    char_val(c) >= 0
}

/// Decimal representation of a natural number, most significant digit first,
/// with no leading zeros (a single `0` for zero).
pub open spec fn dec_rep(n: nat) -> Seq<char>
    decreases n,
{
    if n < 10 {
        seq![digit_char(n as int)]
    } else {
        dec_rep(n / 10).push(digit_char((n % 10) as int))
    }
}

/// The numeric value of a sequence of decimal digit characters.
pub open spec fn digits_val(s: Seq<char>) -> int
    decreases s.len(),
{
    if s.len() == 0 {
        0
    } else {
        digits_val(s.drop_last()) * 10 + char_val(s.last())
    }
}

/// The two-digit cents part, zero padded.
pub open spec fn cents_rep(n: nat) -> Seq<char>
    recommends
        n < 100,
{
    seq![digit_char(n as int / 10), digit_char(n as int % 10)]
}

/// Display form of a non-negative amount of cents: `$D.CC`.
pub open spec fn nonneg_display(n: nat) -> Seq<char> {
    seq!['$'] + dec_rep(n / 100) + seq!['.'] + cents_rep(n % 100)
}

/// Display form of an amount of cents: `$D.CC`, with `-` before the dollar
/// sign when the amount is negative.
pub open spec fn money_display(n: int) -> Seq<char> {
    if n < 0 {
        seq!['-'] + nonneg_display((-n) as nat)
    } else {
        nonneg_display(n as nat)
    }
}

/// `dec_rep(n)` is one or more decimal digit characters whose value read back
/// as a decimal number is `n` again.
pub proof fn lemma_dec_rep_val(n: nat)
    ensures
        dec_rep(n).len() >= 1,
        forall|i: int| 0 <= i < dec_rep(n).len() ==> is_digit(dec_rep(n)[i]),
        digits_val(dec_rep(n)) == n,
    decreases n,
{
    if n < 10 {
        let s = dec_rep(n);
        assert(s == seq![digit_char(n as int)]);
        assert(s.drop_last() =~= Seq::<char>::empty());
        assert(digits_val(Seq::<char>::empty()) == 0);
        assert(char_val(digit_char(n as int)) == n);
        assert(digits_val(s) == digits_val(s.drop_last()) * 10 + char_val(s.last()));
    } else {
        lemma_dec_rep_val(n / 10);
        let s = dec_rep(n);
        assert(s == dec_rep(n / 10).push(digit_char((n % 10) as int)));
        assert(s.drop_last() =~= dec_rep(n / 10));
        assert(s.last() == digit_char((n % 10) as int));
        assert(char_val(digit_char((n % 10) as int)) == n % 10);
        assert(digits_val(s) == digits_val(s.drop_last()) * 10 + char_val(s.last()));
        assert(digits_val(s) == (n / 10) * 10 + (n % 10));
        assert(n == (n / 10) * 10 + n % 10);
        assert forall|i: int| 0 <= i < s.len() implies is_digit(s[i]) by {
            if i < s.len() - 1 {
                assert(s[i] == dec_rep(n / 10)[i]);
            }
        }
    }
}

/// `cents_rep(m)` is two digit characters whose value read back is `m`.
proof fn lemma_cents_rep_val(m: nat)
    requires
        m < 100,
    ensures
        cents_rep(m).len() == 2,
        is_digit(cents_rep(m)[0]),
        is_digit(cents_rep(m)[1]),
        digits_val(cents_rep(m)) == m,
{
    let s = cents_rep(m);
    let hi = seq![digit_char(m as int / 10)];
    assert(s.drop_last() =~= hi);
    assert(s.last() == digit_char(m as int % 10));
    assert(hi.drop_last() =~= Seq::<char>::empty());
    assert(digits_val(Seq::<char>::empty()) == 0);
    assert(digits_val(hi) == digits_val(hi.drop_last()) * 10 + char_val(hi.last()));
    assert(char_val(digit_char(m as int / 10)) == m as int / 10);
    assert(char_val(digit_char(m as int % 10)) == m as int % 10);
    assert(digits_val(s) == digits_val(s.drop_last()) * 10 + char_val(s.last()));
    assert(digits_val(s) == (m as int / 10) * 10 + (m as int % 10));
    assert(m as int == (m as int / 10) * 10 + m as int % 10);
}

/// The display form of a non-negative amount has the shape `$D.CC`: a dollar
/// sign, then one or more digits, then a point, then exactly two digits — and
/// reading `D` and `CC` back as decimal numbers recovers the amount:
/// `D × 100 + CC == n`.
pub proof fn lemma_display_round_trip(n: int)
    requires
        0 <= n,
    ensures
        ({
            let s = money_display(n);
            &&& s.len() >= 5
            &&& s[0] == '$'
            &&& s[s.len() - 3] == '.'
            &&& forall|i: int| 1 <= i < s.len() - 3 ==> is_digit(s[i])
            &&& is_digit(s[s.len() - 2])
            &&& is_digit(s[s.len() - 1])
            &&& digits_val(s.subrange(1, s.len() - 3)) * 100 + digits_val(
                s.subrange(s.len() - 2, s.len() as int),
            ) == n
        }),
{
    let s = money_display(n);
    let d = dec_rep((n as nat) / 100);
    let cc = cents_rep((n as nat) % 100);
    lemma_dec_rep_val((n as nat) / 100);
    lemma_cents_rep_val((n as nat) % 100);
    assert(s =~= seq!['$'] + d + seq!['.'] + cc);
    assert(s.subrange(1, s.len() - 3) =~= d);
    assert(s.subrange(s.len() - 2, s.len() as int) =~= cc);
}

/// The one-character string for one decimal digit.
fn digit_str(d: u64) -> (s: &'static str)
    requires
        d < 10,
    ensures
        s@ == seq![digit_char(d as int)],
{
    proof {
        reveal_strlit("0");
        reveal_strlit("1");
        reveal_strlit("2");
        reveal_strlit("3");
        reveal_strlit("4");
        reveal_strlit("5");
        reveal_strlit("6");
        reveal_strlit("7");
        reveal_strlit("8");
        reveal_strlit("9");
    }
    let s = match d {
        0 => "0",
        1 => "1",
        2 => "2",
        3 => "3",
        4 => "4",
        5 => "5",
        6 => "6",
        7 => "7",
        8 => "8",
        _ => "9",
    };
    proof {
        assert(s@ =~= seq![digit_char(d as int)]);
    }
    s
}

/// The decimal digits of `n`, as `dec_rep` gives them.
fn dec_string(n: u64) -> (s: String)
    ensures
        s@ == dec_rep(n as nat),
    decreases n,
{
    if n < 10 {
        let s = digit_str(n).to_owned();
        proof {
            assert(s@ =~= dec_rep(n as nat));
        }
        s
    } else {
        let mut s = dec_string(n / 10);
        s.append(digit_str(n % 10));
        proof {
            assert(s@ =~= dec_rep(n as nat));
        }
        s
    }
}

/// `$D.CC` for a magnitude of `n` cents.
fn format_magnitude(n: u64) -> (s: String)
    ensures
        s@ == nonneg_display(n as nat),
{
    let mut s = String::from_str("$");
    let dollars = dec_string(n / 100);
    s.append(dollars.as_str());
    s.append(".");
    s.append(digit_str((n % 100) / 10));
    s.append(digit_str((n % 100) % 10));
    proof {
        reveal_strlit("$");
        reveal_strlit(".");
        assert(s@ =~= nonneg_display(n as nat));
    }
    s
}

/// Render `n` cents in display form: `$D.CC` with exactly two cent digits, no
/// thousands separators, and `-` before the dollar sign when `n` is negative.
pub fn format_cents(n: i64) -> (s: String)
    requires
        i64::MIN < n,
    ensures
        s@ == money_display(n as int),
{
    if n < 0 {
        let mut s = String::from_str("-");
        let magnitude = format_magnitude((-n) as u64);
        s.append(magnitude.as_str());
        proof {
            reveal_strlit("-");
            assert(s@ =~= money_display(n as int));
        }
        s
    } else {
        let s = format_magnitude(n as u64);
        s
    }
}

} // verus!

