//! Whole numbers written out in decimal, for the texts the game displays.

use vstd::prelude::*;

verus! {

/// The character that stands for the digit `d`.
pub open spec fn digit_char(d: nat) -> char {
    if d == 0 {
        '0'
    } else if d == 1 {
        '1'
    } else if d == 2 {
        '2'
    } else if d == 3 {
        '3'
    } else if d == 4 {
        '4'
    } else if d == 5 {
        '5'
    } else if d == 6 {
        '6'
    } else if d == 7 {
        '7'
    } else if d == 8 {
        '8'
    } else {
        '9'
    }
}

/// The decimal digits of `n`, most significant first, without leading
/// zeros.
pub open spec fn decimal_digits(n: nat) -> Seq<char>
    decreases n,
{
    if n < 10 {
        seq![digit_char(n)]
    } else {
        decimal_digits(n / 10).push(digit_char(n % 10))
    }
}

/// The decimal form of `v`, with a minus sign in front where it is
/// negative.
pub open spec fn decimal(v: int) -> Seq<char> {
    if v < 0 {
        seq!['-'] + decimal_digits((-v) as nat)
    } else {
        decimal_digits(v as nat)
    }
}

/// The characters of a run of digits that was collected least significant
/// first.
spec fn most_significant_first(digits: Seq<u8>) -> Seq<char> {
    Seq::new(digits.len(), |k: int| digit_char(digits[digits.len() - 1 - k] as nat))
}

/// The one-character text of the digit `d`.
fn digit_str(d: u8) -> (s: &'static str)
    requires
        d < 10,
    ensures
        s@ == seq![digit_char(d as nat)],
{
    proof {
        reveal_strlit("0");
        reveal_strlit("1");
        reveal_strlit("2");
        reveal_strlit("3");
        reveal_strlit("4");
        reveal_strlit("5");
        reveal_strlit("6");
        reveal_strlit("7");
        reveal_strlit("8");
        reveal_strlit("9");
    }
    let s = if d == 0 {
        "0"
    } else if d == 1 {
        "1"
    } else if d == 2 {
        "2"
    } else if d == 3 {
        "3"
    } else if d == 4 {
        "4"
    } else if d == 5 {
        "5"
    } else if d == 6 {
        "6"
    } else if d == 7 {
        "7"
    } else if d == 8 {
        "8"
    } else {
        "9"
    };
    assert(s@ =~= seq![digit_char(d as nat)]);
    s
}

/// Appends the decimal form of `v` to `out`.
pub fn push_decimal(out: &mut String, v: i64)
    ensures
        final(out)@ == old(out)@ + decimal(v as int),
{
    let mag: u64 = if v < 0 {
        proof {
            reveal_strlit("-");
        }
        out.append("-");
        assert(out@ =~= old(out)@ + seq!['-']);
        if v == i64::MIN {
            9_223_372_036_854_775_808u64
        } else {
            (-v) as u64
        }
    } else {
        v as u64
    };
    let ghost signed = out@;
    let mut digits: Vec<u8> = Vec::new();
    digits.push((mag % 10) as u8);
    let mut n: u64 = mag / 10;
    assert(decimal_digits(mag as nat) =~= (if n > 0 {
        decimal_digits(n as nat)
    } else {
        Seq::empty()
    }) + most_significant_first(digits@));
    while n > 0
        invariant
            digits@.len() >= 1,
            forall|k: int| 0 <= k < digits@.len() ==> digits@[k] < 10,
            decimal_digits(mag as nat) == (if n > 0 {
                decimal_digits(n as nat)
            } else {
                Seq::empty()
            }) + most_significant_first(digits@),
            out@ == signed,
        decreases n,
    {
        let ghost before = digits@;
        let d = (n % 10) as u8;
        digits.push(d);
        proof {
            let rest = n / 10;
            assert(most_significant_first(digits@) =~= seq![digit_char(d as nat)]
                + most_significant_first(before));
            assert((if rest > 0 {
                decimal_digits(rest as nat)
            } else {
                Seq::empty()
            }) + seq![digit_char(d as nat)] =~= decimal_digits(n as nat));
            assert(decimal_digits(mag as nat) =~= (if rest > 0 {
                decimal_digits(rest as nat)
            } else {
                Seq::empty()
            }) + most_significant_first(digits@));
        }
        n = n / 10;
    }
    let len = digits.len();
    let mut i: usize = len;
    while i > 0
        invariant
            i <= len,
            len == digits@.len(),
            forall|k: int| 0 <= k < digits@.len() ==> digits@[k] < 10,
            out@ == signed + most_significant_first(digits@).take(len - i),
        decreases i,
    {
        i = i - 1;
        out.append(digit_str(digits[i]));
        assert(out@ =~= signed + most_significant_first(digits@).take(len - i));
    }
    assert(most_significant_first(digits@).take(len as int) =~= most_significant_first(digits@));
    assert(out@ =~= old(out)@ + decimal(v as int));
}

/// The decimal form of `v` as a text of its own.
pub fn to_decimal(v: i64) -> (s: String)
    ensures
        s@ == decimal(v as int),
{
    let mut s = String::new();
    push_decimal(&mut s, v);
    assert(s@ =~= decimal(v as int));
    s
}

} // verus!
