//! How amounts and decimals are written, and that nothing is lost in writing
//! them: the text of a number determines the number.

use vstd::prelude::*;
use crate::math::DECIMAL_FRACTIONAL;

verus! {

/// The character that stands for the decimal digit `d`, for `d` below ten.
pub open spec fn digit_char(d: nat) -> char {
    ('0' as nat + d) as char
}

/// `n` written in decimal, without leading zeros; zero is written "0".
pub open spec fn decimal_digits(n: nat) -> Seq<char>
    decreases n,
{
    if n < 10 {
        seq![digit_char(n)]
    } else {
        decimal_digits(n / 10).push(digit_char(n % 10))
    }
}

/// The last `width` decimal digits of `n`, with zeros in front where `n` is
/// shorter.
pub open spec fn padded_digits(n: nat, width: nat) -> Seq<char>
    decreases width,
{
    if width == 0 {
        Seq::empty()
    } else {
        padded_digits(n / 10, (width - 1) as nat).push(digit_char(n % 10))
    }
}

/// `digits` without the zeros at its end.
pub open spec fn trim_trailing_zeros(digits: Seq<char>) -> Seq<char>
    decreases digits.len(),
{
    if digits.len() > 0 && digits.last() == '0' {
        trim_trailing_zeros(digits.drop_last())
    } else {
        digits
    }
}

/// A decimal of the given atomics written out: the whole part, and, where the
/// fractional part is not zero, a point and the eighteen fractional digits
/// without the zeros at their end.
pub open spec fn decimal_text(atomics: u128) -> Seq<char> {
    let whole = atomics as nat / DECIMAL_FRACTIONAL as nat;
    let fractional = atomics as nat % DECIMAL_FRACTIONAL as nat;
    if fractional == 0 {
        decimal_digits(whole)
    } else {
        decimal_digits(whole) + seq!['.'] + trim_trailing_zeros(padded_digits(fractional, 18))
    }
}

/// The digit that `c` stands for.
spec fn digit_value(c: char) -> nat {
    (c as nat - '0' as nat) as nat
}

/// `c` is one of the ten digits.
spec fn is_digit(c: char) -> bool {
    '0' as nat <= c as nat <= '9' as nat
}

/// Every character of `s` is a digit.
spec fn all_digits(s: Seq<char>) -> bool {
    forall|i: int| 0 <= i < s.len() ==> is_digit(#[trigger] s[i])
}

/// The number that the digits `s` write, leading zeros allowed.
spec fn digits_value(s: Seq<char>) -> nat
    decreases s.len(),
{
    if s.len() == 0 {
        0
    } else {
        digits_value(s.drop_last()) * 10 + digit_value(s.last())
    }
}

/// Ten to the power `e`.
spec fn pow10(e: nat) -> nat
    decreases e,
{
    if e == 0 {
        1
    } else {
        10 * pow10((e - 1) as nat)
    }
}

/// `n` zeros.
spec fn zeros(n: nat) -> Seq<char> {
    Seq::new(n, |i: int| '0')
}

proof fn lemma_digit_char(d: nat)
    requires
        d < 10,
    ensures
        is_digit(digit_char(d)),
        digit_value(digit_char(d)) == d,
        digit_char(d) != '.',
{
}

proof fn lemma_decimal_digits(n: nat)
    ensures
        decimal_digits(n).len() >= 1,
        all_digits(decimal_digits(n)),
        digits_value(decimal_digits(n)) == n,
    decreases n,
{
    if n < 10 {
        lemma_digit_char(n);
        let s = decimal_digits(n);
        assert(s.drop_last() =~= Seq::<char>::empty());
        assert(digits_value(s.drop_last()) == 0);
    } else {
        lemma_decimal_digits(n / 10);
        lemma_digit_char(n % 10);
        let s = decimal_digits(n);
        assert(s.drop_last() =~= decimal_digits(n / 10));
    }
}

proof fn lemma_padded_digits(n: nat, width: nat)
    ensures
        padded_digits(n, width).len() == width,
        all_digits(padded_digits(n, width)),
        digits_value(padded_digits(n, width)) == n % pow10(width),
    decreases width,
{
    if width > 0 {
        let rest = (width - 1) as nat;
        lemma_padded_digits(n / 10, rest);
        lemma_digit_char(n % 10);
        lemma_pow10_positive(rest);
        let s = padded_digits(n, width);
        assert(s.drop_last() =~= padded_digits(n / 10, rest));
        vstd::arithmetic::div_mod::lemma_mod_breakdown(n as int, 10, pow10(rest) as int);
    }
}

proof fn lemma_pow10_positive(e: nat)
    ensures
        pow10(e) > 0,
    decreases e,
{
    if e > 0 {
        lemma_pow10_positive((e - 1) as nat);
    }
}

proof fn lemma_pow10_eighteen()
    ensures
        pow10(18) == DECIMAL_FRACTIONAL,
{
    reveal_with_fuel(pow10, 19);
}

/// What trimming takes away is zeros and nothing else, and what it leaves
/// does not end in a zero.
proof fn lemma_trim_trailing_zeros(s: Seq<char>)
    ensures
        trim_trailing_zeros(s).len() <= s.len(),
        s == trim_trailing_zeros(s) + zeros((s.len() - trim_trailing_zeros(s).len()) as nat),
        all_digits(s) ==> all_digits(trim_trailing_zeros(s)),
    decreases s.len(),
{
    if s.len() > 0 && s.last() == '0' {
        lemma_trim_trailing_zeros(s.drop_last());
        let t = trim_trailing_zeros(s);
        let shorter = zeros((s.len() - 1 - t.len()) as nat);
        assert(s.drop_last() == t + shorter);
        assert(s =~= s.drop_last().push('0'));
        assert(s =~= t + zeros((s.len() - t.len()) as nat));
        if all_digits(s) {
            assert forall|i: int| 0 <= i < s.drop_last().len() implies is_digit(
                #[trigger] s.drop_last()[i],
            ) by {
                assert(s.drop_last()[i] == s[i]);
            }
        }
    } else {
        assert(s =~= s + zeros(0));
    }
}

/// The decimal digits of a number determine it.
pub proof fn amount_text_is_lossless(a: nat, b: nat)
    requires
        decimal_digits(a) == decimal_digits(b),
    ensures
        a == b,
{
    lemma_decimal_digits(a);
    lemma_decimal_digits(b);
}

/// The fractional digits of a decimal determine its fractional part.
proof fn lemma_fraction_text_is_lossless(f: nat, g: nat)
    requires
        f < DECIMAL_FRACTIONAL,
        g < DECIMAL_FRACTIONAL,
        trim_trailing_zeros(padded_digits(f, 18)) == trim_trailing_zeros(padded_digits(g, 18)),
    ensures
        f == g,
{
    lemma_padded_digits(f, 18);
    lemma_padded_digits(g, 18);
    lemma_trim_trailing_zeros(padded_digits(f, 18));
    lemma_trim_trailing_zeros(padded_digits(g, 18));
    lemma_pow10_eighteen();
    assert(padded_digits(f, 18) == padded_digits(g, 18));
}

/// The whole part, the point and the fractional digits of a written decimal
/// can be told apart: the point is the one character that is no digit.
proof fn lemma_split_at_point(w: Seq<char>, f: Seq<char>, x: Seq<char>, g: Seq<char>)
    requires
        all_digits(w),
        all_digits(f),
        all_digits(x),
        all_digits(g),
        w + seq!['.'] + f == x + seq!['.'] + g,
    ensures
        w == x,
        f == g,
{
    let left = w + seq!['.'] + f;
    let right = x + seq!['.'] + g;
    assert(left.len() == w.len() + 1 + f.len());
    assert(right.len() == x.len() + 1 + g.len());
    assert(left[w.len() as int] == '.');
    assert(right[x.len() as int] == '.');
    if w.len() < x.len() {
        assert(right[w.len() as int] == x[w.len() as int]);
        assert(is_digit(x[w.len() as int]));
        assert(false);
    }
    if x.len() < w.len() {
        assert(left[x.len() as int] == w[x.len() as int]);
        assert(is_digit(w[x.len() as int]));
        assert(false);
    }
    assert(w =~= left.subrange(0, w.len() as int));
    assert(x =~= right.subrange(0, x.len() as int));
    assert(f =~= left.subrange(w.len() as int + 1, left.len() as int));
    assert(g =~= right.subrange(x.len() as int + 1, right.len() as int));
}

/// The text of a decimal determines the decimal: two decimals that are
/// written alike have the same atomics. Writing a decimal out and reading it
/// back therefore loses nothing, down to the last of the eighteen fractional
/// digits.
pub proof fn decimal_text_is_lossless(a: u128, b: u128)
    requires
        decimal_text(a) == decimal_text(b),
    ensures
        a == b,
{
    let unit = DECIMAL_FRACTIONAL as nat;
    let (aw, af) = (a as nat / unit, a as nat % unit);
    let (bw, bf) = (b as nat / unit, b as nat % unit);
    let at = trim_trailing_zeros(padded_digits(af, 18));
    let bt = trim_trailing_zeros(padded_digits(bf, 18));
    lemma_decimal_digits(aw);
    lemma_decimal_digits(bw);
    lemma_padded_digits(af, 18);
    lemma_padded_digits(bf, 18);
    lemma_trim_trailing_zeros(padded_digits(af, 18));
    lemma_trim_trailing_zeros(padded_digits(bf, 18));
    lemma_pow10_eighteen();
    if af == 0 && bf == 0 {
    } else if af != 0 && bf != 0 {
        lemma_split_at_point(decimal_digits(aw), at, decimal_digits(bw), bt);
        lemma_fraction_text_is_lossless(af, bf);
    } else if af == 0 {
        let text = decimal_digits(bw) + seq!['.'] + bt;
        assert(text[decimal_digits(bw).len() as int] == '.');
        assert(is_digit(decimal_digits(aw)[decimal_digits(bw).len() as int]));
        assert(false);
    } else {
        let text = decimal_digits(aw) + seq!['.'] + at;
        assert(text[decimal_digits(aw).len() as int] == '.');
        assert(is_digit(decimal_digits(bw)[decimal_digits(aw).len() as int]));
        assert(false);
    }
    assert(a as nat == aw * unit + af) by (nonlinear_arith)
        requires
            aw == a as nat / unit,
            af == a as nat % unit,
            unit > 0,
    ;
    assert(b as nat == bw * unit + bf) by (nonlinear_arith)
        requires
            bw == b as nat / unit,
            bf == b as nat % unit,
            unit > 0,
    ;
}

} // verus!
