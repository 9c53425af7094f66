//! Decimal text: rendering numbers as digit strings and reading them back.
//!
//! These helpers carry the countdown display, the settings file and the
//! command-line time arguments. The spec side fixes one canonical decimal
//! form per number ([`dec_chars`]) and one value per digit string
//! ([`num_val`]), and the two are proved inverse.

use vstd::prelude::*;

verus! {

/// Whether `c` is a decimal digit.
pub open spec fn is_digit(c: char) -> bool {
    '0' <= c && c <= '9'
}

/// The numeric value of a digit character.
pub open spec fn digit_val(c: char) -> nat {
    ((c as int) - ('0' as int)) as nat
}

/// The digit character for a value below ten.
pub open spec fn char_of_digit(d: int) -> char {
    if d == 0 {
        '0'
    } else if d == 1 {
        '1'
    } else if d == 2 {
        '2'
    } else if d == 3 {
        '3'
    } else if d == 4 {
        '4'
    } else if d == 5 {
        '5'
    } else if d == 6 {
        '6'
    } else if d == 7 {
        '7'
    } else if d == 8 {
        '8'
    } else {
        '9'
    }
}

/// Whether every character of `s` is a decimal digit.
pub open spec fn all_digits(s: Seq<char>) -> bool {
    forall|i: int| 0 <= i < s.len() ==> is_digit(#[trigger] s[i])
}

/// The number a digit string denotes, most significant digit first.
pub open spec fn num_val(s: Seq<char>) -> nat
    decreases s.len(),
{
    if s.len() == 0 {
        0
    } else {
        num_val(s.drop_last()) * 10 + digit_val(s.last())
    }
}

/// The canonical decimal rendering of `n`: no sign, no leading zero
/// (except for zero itself).
pub open spec fn dec_chars(n: nat) -> Seq<char>
    decreases n,
{
    if n < 10 {
        seq![char_of_digit(n as int)]
    } else {
        dec_chars(n / 10) + seq![char_of_digit((n % 10) as int)]
    }
}

proof fn lemma_char_of_digit_is_digit(d: int)
    requires
        0 <= d < 10,
    ensures
        is_digit(char_of_digit(d)),
        digit_val(char_of_digit(d)) == d,
{
}

/// The canonical rendering consists of digits and starts with a
/// non-zero digit whenever the number has more than one digit.
pub proof fn lemma_dec_chars_digits(n: nat)
    ensures
        dec_chars(n).len() >= 1,
        all_digits(dec_chars(n)),
        n >= 10 ==> dec_chars(n)[0] != '0',
    decreases n,
{
    if n < 10 {
        lemma_char_of_digit_is_digit(n as int);
    } else {
        lemma_dec_chars_digits(n / 10);
        lemma_char_of_digit_is_digit((n % 10) as int);
        assert(dec_chars(n) == dec_chars(n / 10) + seq![char_of_digit((n % 10) as int)]);
        assert forall|i: int| 0 <= i < dec_chars(n).len() implies is_digit(
            #[trigger] dec_chars(n)[i],
        ) by {
            if i < dec_chars(n / 10).len() {
                assert(dec_chars(n)[i] == dec_chars(n / 10)[i]);
            }
        }
        if n / 10 >= 10 {
            assert(dec_chars(n)[0] == dec_chars(n / 10)[0]);
        } else {
            assert(dec_chars(n)[0] == char_of_digit((n / 10) as int));
            assert(n / 10 >= 1);
        }
    }
}

/// Reading the canonical rendering back gives the number again.
pub proof fn lemma_num_val_dec_chars(n: nat)
    ensures
        num_val(dec_chars(n)) == n,
    decreases n,
{
    if n < 10 {
        lemma_char_of_digit_is_digit(n as int);
        assert(dec_chars(n) == seq![char_of_digit(n as int)]);
        assert(dec_chars(n).drop_last() =~= Seq::<char>::empty());
        assert(dec_chars(n).last() == char_of_digit(n as int));
        assert(num_val(dec_chars(n)) == num_val(Seq::<char>::empty()) * 10 + digit_val(
            char_of_digit(n as int),
        ));
        assert(num_val(Seq::<char>::empty()) == 0);
    } else {
        lemma_num_val_dec_chars(n / 10);
        lemma_char_of_digit_is_digit((n % 10) as int);
        assert(dec_chars(n).drop_last() =~= dec_chars(n / 10));
        assert(dec_chars(n).last() == char_of_digit((n % 10) as int));
        assert(num_val(dec_chars(n)) == (n / 10) * 10 + n % 10);
        assert((n / 10) * 10 + n % 10 == n) by {
            vstd::arithmetic::div_mod::lemma_fundamental_div_mod(n as int, 10);
        }
    }
}

/// Appending a digit multiplies the value by ten and adds the digit.
pub proof fn lemma_num_val_push(s: Seq<char>, c: char)
    ensures
        num_val(s.push(c)) == num_val(s) * 10 + digit_val(c),
{
    assert(s.push(c).drop_last() =~= s);
    assert(s.push(c).last() == c);
}

/// The digit character for a value below ten, as a one-character string.
pub fn digit_str(d: u64) -> (r: &'static str)
    requires
        d < 10,
    ensures
        r@ =~= seq![char_of_digit(d as int)],
{
    proof {
        reveal_strlit("0");
        reveal_strlit("1");
        reveal_strlit("2");
        reveal_strlit("3");
        reveal_strlit("4");
        reveal_strlit("5");
        reveal_strlit("6");
        reveal_strlit("7");
        reveal_strlit("8");
        reveal_strlit("9");
    }
    if d == 0 {
        "0"
    } else if d == 1 {
        "1"
    } else if d == 2 {
        "2"
    } else if d == 3 {
        "3"
    } else if d == 4 {
        "4"
    } else if d == 5 {
        "5"
    } else if d == 6 {
        "6"
    } else if d == 7 {
        "7"
    } else if d == 8 {
        "8"
    } else {
        "9"
    }
}

/// Appends the canonical decimal rendering of `n` to `out`.
pub fn push_decimal(out: &mut String, n: u64)
    ensures
        final(out)@ == old(out)@ + dec_chars(n as nat),
{
    if n == 0 {
        proof {
            reveal_strlit("0");
        }
        out.append("0");
        return ;
    }
    let mut digits: Vec<u64> = Vec::new();
    let mut m: u64 = n;
    while m > 0
        invariant
            n >= 1,
            forall|i: int| 0 <= i < digits@.len() ==> #[trigger] digits@[i] < 10,
            m > 0 ==> dec_chars(n as nat) =~= dec_chars(m as nat) + Seq::new(
                digits@.len(),
                |i: int| char_of_digit(digits@[digits@.len() - 1 - i] as int),
            ),
            m == 0 ==> dec_chars(n as nat) =~= Seq::new(digits@.len(), |i: int| char_of_digit(
                digits@[digits@.len() - 1 - i] as int,
            )),
        decreases m,
    {
        let ghost old_digits = digits@;
        let ghost old_m = m;
        let d: u64 = m % 10;
        digits.push(d);
        m = m / 10;
        proof {
            let f = |i: int| char_of_digit(digits@[digits@.len() - 1 - i] as int);
            let fo = |i: int| char_of_digit(old_digits[old_digits.len() - 1 - i] as int);
            assert(Seq::new(digits@.len(), f) =~= seq![char_of_digit(d as int)] + Seq::new(
                old_digits.len(),
                fo,
            ));
            if old_m >= 10 {
                assert(dec_chars(old_m as nat) == dec_chars((old_m as nat) / 10) + seq![
                    char_of_digit(((old_m as nat) % 10) as int),
                ]);
                assert(dec_chars(n as nat) =~= dec_chars(m as nat) + Seq::new(
                    digits@.len(),
                    f,
                ));
            } else {
                assert(dec_chars(old_m as nat) =~= seq![char_of_digit(d as int)]);
                assert(dec_chars(n as nat) =~= Seq::new(digits@.len(), f));
            }
        }
    }
    let ghost rendered = dec_chars(n as nat);
    let mut k: usize = digits.len();
    while k > 0
        invariant
            k <= digits@.len(),
            forall|i: int| 0 <= i < digits@.len() ==> #[trigger] digits@[i] < 10,
            rendered =~= Seq::new(digits@.len(), |i: int| char_of_digit(
                digits@[digits@.len() - 1 - i] as int,
            )),
            out@ =~= old(out)@ + rendered.take(digits@.len() - k),
        decreases k,
    {
        k = k - 1;
        let d = digits[k];
        let s = digit_str(d);
        out.append(s);
        proof {
            assert(rendered[digits@.len() - 1 - k] == char_of_digit(digits@[k as int] as int));
            assert(rendered.take(digits@.len() - k) =~= rendered.take(
                digits@.len() - (k + 1),
            ).push(char_of_digit(digits@[k as int] as int)));
        }
    }
    proof {
        assert(rendered.take(digits@.len() as int) =~= rendered);
    }
}

} // verus!
