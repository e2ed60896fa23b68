//! What a number text means, and that shortening a number keeps its value.

use vstd::prelude::*;
use vstd::utf8::{encode_utf8, is_ascii_chars, is_ascii_chars_encode_utf8};
use crate::text::{decimal, digit_char, minify_number_spec, strip_leading_zero, zeros_from, zeros_before,
    starts_with_point_000, ends_with_000};

verus! {

pub open spec fn is_digit(c: char) -> bool {
    '0' <= c && c <= '9'
}

pub open spec fn all_digits(d: Seq<char>) -> bool {
    forall|i: int| 0 <= i < d.len() ==> is_digit(#[trigger] d[i])
}

pub open spec fn all_zeros(d: Seq<char>) -> bool {
    forall|i: int| 0 <= i < d.len() ==> #[trigger] d[i] == '0'
}

pub open spec fn digit_val(c: char) -> int {
    (c as int) - 48
}

/// The value of a sequence of decimal digits.
pub open spec fn digits_val(d: Seq<char>) -> int
    decreases d.len(),
{
    if d.len() == 0 {
        0
    } else {
        digits_val(d.drop_last()) * 10 + digit_val(d.last())
    }
}

pub open spec fn pow10(n: nat) -> int
    decreases n,
{
    if n == 0 {
        1
    } else {
        10 * pow10((n - 1) as nat)
    }
}

/// The parts of a number text: an optional `-`, integer digits, an
/// optional point with fraction digits, and an optional exponent `e`
/// with an optional `-` and digits.
pub struct DecimalText {
    pub neg: bool,
    pub int_digits: Seq<char>,
    pub point: bool,
    pub frac_digits: Seq<char>,
    pub exp: Option<(bool, Seq<char>)>,
}

/// The text that the parts spell.
pub open spec fn render(t: DecimalText) -> Seq<char> {
    (if t.neg { seq!['-'] } else { Seq::empty() }) + t.int_digits + (if t.point {
        seq!['.'] + t.frac_digits
    } else {
        Seq::empty()
    }) + match t.exp {
        Some((en, k)) => seq!['e'] + (if en { seq!['-'] } else { Seq::empty() }) + k,
        None => Seq::empty(),
    }
}

/// The parts form a number: digits where digits belong, at least one
/// digit before the exponent, digits after `e`.
pub open spec fn well_formed(t: DecimalText) -> bool {
    &&& all_digits(t.int_digits)
    &&& all_digits(t.frac_digits)
    &&& t.int_digits.len() + t.frac_digits.len() > 0
    &&& !t.point ==> t.frac_digits.len() == 0
    &&& match t.exp {
        Some((_, k)) => all_digits(k) && k.len() > 0,
        None => true,
    }
}

/// The shape in which Rust prints a finite `f64`: no exponent, no leading
/// zero before other integer digits, and a fraction, when there is one,
/// that does not end in `0`.
pub open spec fn display_form(t: DecimalText) -> bool {
    &&& well_formed(t)
    &&& t.exp is None
    &&& t.int_digits.len() > 0
    &&& (t.int_digits[0] == '0' ==> t.int_digits.len() == 1)
    &&& t.point ==> t.frac_digits.len() > 0 && t.frac_digits.last() != '0'
}

/// The number is `mantissa × 10^exponent`.
pub open spec fn mantissa(t: DecimalText) -> int {
    let m = digits_val(t.int_digits + t.frac_digits);
    if t.neg { -m } else { m }
}

pub open spec fn exponent(t: DecimalText) -> int {
    let e = match t.exp {
        Some((en, k)) => if en { -digits_val(k) } else { digits_val(k) },
        None => 0,
    };
    e - t.frac_digits.len()
}

/// `m1 × 10^e1` and `m2 × 10^e2` are the same number.
pub open spec fn same_value(m1: int, e1: int, m2: int, e2: int) -> bool {
    let lo = if e1 <= e2 { e1 } else { e2 };
    m1 * pow10((e1 - lo) as nat) == m2 * pow10((e2 - lo) as nat)
}

// ----------------------------------------------------------------- lemmas

proof fn lemma_digits_val_append(a: Seq<char>, b: Seq<char>)
    ensures
        digits_val(a + b) == digits_val(a) * pow10(b.len()) + digits_val(b),
    decreases b.len(),
{
    if b.len() == 0 {
        assert(a + b =~= a);
    } else {
        lemma_digits_val_append(a, b.drop_last());
        assert((a + b).drop_last() =~= a + b.drop_last());
        assert((a + b).last() == b.last());
        let x = digits_val(a);
        let p = pow10((b.len() - 1) as nat);
        let y = digits_val(b.drop_last());
        assert((x * p + y) * 10 == x * (10 * p) + y * 10) by (nonlinear_arith);
    }
}

proof fn lemma_digits_val_zeros(z: Seq<char>)
    requires
        all_zeros(z),
    ensures
        digits_val(z) == 0,
    decreases z.len(),
{
    if z.len() > 0 {
        lemma_digits_val_zeros(z.drop_last());
    }
}

proof fn lemma_digit_char(d: nat)
    requires
        d < 10,
    ensures
        digit_val(digit_char(d)) == d,
        is_digit(digit_char(d)),
{
}

/// The decimal spelling of `n` is digits worth `n`.
proof fn lemma_decimal(n: nat)
    ensures
        digits_val(decimal(n)) == n,
        all_digits(decimal(n)),
        decimal(n).len() > 0,
    decreases n,
{
    if n < 10 {
        lemma_digit_char(n);
        let d = seq![digit_char(n)];
        assert(d.drop_last() =~= Seq::<char>::empty());
        assert(digits_val(d) == digits_val(d.drop_last()) * 10 + digit_val(d.last()));
        assert(digits_val(Seq::<char>::empty()) == 0);
    } else {
        lemma_decimal(n / 10);
        lemma_digit_char(n % 10);
        let d = decimal(n / 10).push(digit_char(n % 10));
        assert(d.drop_last() =~= decimal(n / 10));
        assert(d.last() == digit_char(n % 10));
        assert(digits_val(d) == digits_val(decimal(n / 10)) * 10 + digit_val(digit_char(n % 10)));
        assert(decimal(n) == d);
        assert(all_digits(d)) by {
            assert forall|k: int| 0 <= k < d.len() implies is_digit(#[trigger] d[k]) by {
                if k < d.len() - 1 {
                    assert(d[k] == decimal(n / 10)[k]);
                }
            }
        }
    }
}

proof fn lemma_pow10_pos(n: nat)
    ensures
        pow10(n) >= 1,
    decreases n,
{
    if n > 0 {
        lemma_pow10_pos((n - 1) as nat);
    }
}

/// `zeros_from` counts the leading zeros of a suffix.
proof fn lemma_zeros_from_shift(p: Seq<char>, f: Seq<char>, i: int)
    requires
        0 <= i <= f.len(),
    ensures
        zeros_from(p + f, p.len() + i) == zeros_from(f, i),
    decreases f.len() - i,
{
    if i < f.len() && f[i] == '0' {
        lemma_zeros_from_shift(p, f, i + 1);
    }
}

/// Up to the first non-zero digit, the digits counted by `zeros_from` are
/// zeros.
proof fn lemma_zeros_from_prefix(f: Seq<char>, i: int)
    requires
        0 <= i <= f.len(),
    ensures
        i + zeros_from(f, i) <= f.len(),
        all_zeros(f.subrange(i, i + zeros_from(f, i))),
        i + zeros_from(f, i) < f.len() ==> f[i + zeros_from(f, i)] != '0',
    decreases f.len() - i,
{
    if i < f.len() && f[i] == '0' {
        lemma_zeros_from_prefix(f, i + 1);
        assert forall|k: int| 0 <= k < zeros_from(f, i) implies #[trigger] f.subrange(i, i + zeros_from(f, i))[k] == '0' by {
            if k > 0 {
                assert(f.subrange(i, i + zeros_from(f, i))[k] == f.subrange(i + 1, i + 1 + zeros_from(f, i + 1))[k - 1]);
            }
        }
    }
}

/// `zeros_before` counts the trailing zeros of a prefix.
proof fn lemma_zeros_before_prefix(s: Seq<char>, j: int)
    requires
        0 <= j <= s.len(),
    ensures
        zeros_before(s, j) <= j,
        all_zeros(s.subrange(j - zeros_before(s, j), j)),
        zeros_before(s, j) < j ==> s[j - zeros_before(s, j) - 1] != '0',
    decreases j,
{
    if 0 < j && s[j - 1] == '0' {
        lemma_zeros_before_prefix(s, j - 1);
        assert forall|k: int| 0 <= k < zeros_before(s, j) implies #[trigger] s.subrange(j - zeros_before(s, j), j)[k] == '0' by {
            if k < zeros_before(s, j) - 1 {
                assert(s.subrange(j - zeros_before(s, j), j)[k] == s.subrange(j - 1 - zeros_before(s, j - 1), j - 1)[k]);
            }
        }
    }
}

proof fn lemma_digits_ascii(d: Seq<char>)
    requires
        all_digits(d),
    ensures
        is_ascii_chars(d),
        encode_utf8(d).len() == d.len(),
{
    assert(is_ascii_chars(d));
    is_ascii_chars_encode_utf8(d);
}

proof fn lemma_digits_val_single_zero()
    ensures
        digits_val(seq!['0']) == 0,
{
    let z = seq!['0'];
    assert(z.drop_last() =~= Seq::<char>::empty());
    assert(z.last() == '0');
    assert(digits_val(Seq::<char>::empty()) == 0);
    assert(digits_val(z) == digits_val(z.drop_last()) * 10 + digit_val(z.last()));
}

/// The tiny case: `0.000ddd` becomes `ddde-N`.
proof fn lemma_case_tiny(t: DecimalText) -> (t2: DecimalText)
    requires
        display_form(t),
        !t.neg,
        t.point,
        t.int_digits =~= seq!['0'],
        starts_with_point_000(strip_leading_zero(render(t))),
    ensures
        well_formed(t2),
        render(t2) == minify_number_spec(render(t)),
        mantissa(t2) == mantissa(t),
        exponent(t2) == exponent(t),
{
    let s = render(t);
    let f = t.frac_digits;
    assert(s =~= seq!['0'] + (seq!['.'] + f));
    let m = strip_leading_zero(s);
    assert(m =~= seq!['.'] + f);
    lemma_digits_val_append(seq!['0'], f);
    lemma_digits_val_single_zero();
    let z = zeros_from(f, 0);
    lemma_zeros_from_shift(seq!['.'], f, 0);
    assert(zeros_from(m, 1) == z);
    assert(m[1] == '0' && m[2] == '0' && m[3] == '0');
    assert(zeros_from(m, 3) == 1 + zeros_from(m, 4));
    assert(zeros_from(m, 2) == 1 + zeros_from(m, 3));
    assert(zeros_from(m, 1) == 1 + zeros_from(m, 2));
    lemma_zeros_from_prefix(f, 0);
    let cnt: nat = 3 + zeros_from(m, 4);
    assert(cnt == z);
    assert(z < f.len()) by {
        if z == f.len() {
            assert(f.subrange(0, z as int)[f.len() - 1] == f[f.len() - 1]);
        }
    }
    let rest = m.skip(cnt + 1 as int);
    assert(rest =~= f.skip(z as int));
    assert(f =~= f.subrange(0, z as int) + rest);
    lemma_digits_val_append(f.subrange(0, z as int), rest);
    lemma_digits_val_zeros(f.subrange(0, z as int));
    assert(all_digits(rest)) by {
        assert forall|k: int| 0 <= k < rest.len() implies is_digit(#[trigger] rest[k]) by {
            assert(rest[k] == f[k + z]);
        }
    }
    lemma_digits_ascii(rest);
    let n: nat = rest.len() + cnt;
    lemma_decimal(n);
    let t2 = DecimalText {
        neg: false,
        int_digits: rest,
        point: false,
        frac_digits: Seq::empty(),
        exp: Some((true, decimal(n))),
    };
    assert(render(t2) =~= minify_number_spec(s));
    assert(rest + Seq::<char>::empty() =~= rest);
    assert(seq!['0'] + f =~= t.int_digits + f);
    t2
}

/// The small case: `0.f` becomes `.f` and `-0.f` becomes `-.f`.
proof fn lemma_case_small(t: DecimalText) -> (t2: DecimalText)
    requires
        display_form(t),
        t.point,
        t.int_digits =~= seq!['0'],
        t.neg || !starts_with_point_000(strip_leading_zero(render(t))),
    ensures
        well_formed(t2),
        render(t2) == minify_number_spec(render(t)),
        mantissa(t2) == mantissa(t),
        exponent(t2) == exponent(t),
{
    let s = render(t);
    let f = t.frac_digits;
    let m = strip_leading_zero(s);
    lemma_digits_val_append(seq!['0'], f);
    lemma_digits_val_single_zero();
    let t2 = DecimalText { neg: t.neg, int_digits: Seq::empty(), point: true, frac_digits: f, exp: None };
    if t.neg {
        assert(s =~= seq!['-', '0', '.'] + f);
        assert(m =~= seq!['-', '.'] + f);
    } else {
        assert(s =~= seq!['0', '.'] + f);
        assert(m =~= seq!['.'] + f);
    }
    assert(m =~= render(t2));
    assert(!ends_with_000(m)) by {
        assert(m.last() == f.last());
    }
    assert(Seq::<char>::empty() + f =~= f);
    assert(seq!['0'] + f =~= t.int_digits + f);
    t2
}

/// Counting trailing zeros is not disturbed by a `-` in front.
proof fn lemma_zeros_before_shift(p: Seq<char>, i: Seq<char>, k: int)
    requires
        p.len() == 0 || p.last() != '0',
        0 <= k <= i.len(),
    ensures
        zeros_before(p + i, p.len() + k) == zeros_before(i, k),
    decreases k,
{
    if k > 0 && i[k - 1] == '0' {
        lemma_zeros_before_shift(p, i, k - 1);
    }
    if k == 0 && p.len() > 0 {
        assert((p + i)[p.len() - 1] == p.last());
    }
}

/// The trailing zeros of integer digits that end in `000` and do not
/// start with a redundant zero: fewer than all digits, all `0`.
proof fn lemma_trailing_zeros(i: Seq<char>)
    requires
        i.len() >= 3,
        i[i.len() - 1] == '0' && i[i.len() - 2] == '0' && i[i.len() - 3] == '0',
        i[0] == '0' ==> i.len() == 1,
    ensures
        3 + zeros_before(i, i.len() - 3) < i.len(),
        all_zeros(i.skip(i.len() - (3 + zeros_before(i, i.len() - 3)))),
{
    let k = i.len() - 3;
    lemma_zeros_before_prefix(i, k);
    let zb = zeros_before(i, k);
    if zb == k {
        if k > 0 {
            assert(i.subrange(0, k)[0] == i[0]);
        }
        assert(i[0] == '0');
    }
    let cnt = 3 + zb;
    let tail = i.skip(i.len() - cnt);
    assert forall|m: int| 0 <= m < tail.len() implies #[trigger] tail[m] == '0' by {
        if m < zb {
            assert(tail[m] == i.subrange(k - zb, k)[m]);
        }
    }
}

/// The large case: `ddd000` becomes `ddde3`, with the sign kept.
proof fn lemma_case_large(t: DecimalText) -> (t2: DecimalText)
    requires
        display_form(t),
        !t.point,
        ends_with_000(render(t)),
    ensures
        well_formed(t2),
        render(t2) == minify_number_spec(render(t)),
        exponent(t) == 0,
        exponent(t2) > 0,
        mantissa(t) == mantissa(t2) * pow10(exponent(t2) as nat),
{
    let s = render(t);
    let i = t.int_digits;
    let sign: Seq<char> = if t.neg { seq!['-'] } else { Seq::empty() };
    assert(s =~= sign + i);
    assert(i + Seq::<char>::empty() =~= i);
    assert(i.len() >= 3) by {
        if t.neg {
            assert(s[0] == '-');
        }
    }
    assert(i[i.len() - 1] == s[s.len() - 1]);
    assert(i[i.len() - 2] == s[s.len() - 2]);
    assert(i[i.len() - 3] == s[s.len() - 3]);
    assert(!starts_with_point_000(s));
    assert(strip_leading_zero(s) == s) by {
        if s.len() >= 2 && s[0] == '0' {
            assert(i[0] == '0');
        }
        if s.len() >= 3 && s[0] == '-' && s[1] == '0' {
            assert(i[0] == '0');
        }
    }
    lemma_zeros_before_shift(sign, i, i.len() - 3);
    assert(s.len() - 3 == sign.len() + (i.len() - 3));
    lemma_trailing_zeros(i);
    let cnt: nat = 3 + zeros_before(i, i.len() - 3);
    assert(cnt == 3 + zeros_before(s, s.len() - 3));
    let head = i.take(i.len() - cnt);
    let tail = i.skip(i.len() - cnt);
    assert(i =~= head + tail);
    lemma_digits_val_append(head, tail);
    lemma_digits_val_zeros(tail);
    lemma_decimal(cnt);
    let t2 = DecimalText {
        neg: t.neg,
        int_digits: head,
        point: false,
        frac_digits: Seq::empty(),
        exp: Some((false, decimal(cnt))),
    };
    assert(s.take(s.len() - cnt as int) =~= sign + head);
    assert(render(t2) =~= minify_number_spec(s));
    assert(head + Seq::<char>::empty() =~= head);
    assert(exponent(t2) == cnt);
    let x = digits_val(head);
    assert(digits_val(i) == x * pow10(cnt));
    assert((-x) * pow10(cnt) == -(x * pow10(cnt))) by (nonlinear_arith);
    t2
}

// ------------------------------------------------------------------- law

/// Shortening a number keeps its value: for every number text in the shape
/// Rust prints an `f64`, the shortened text is a number text with the same
/// value.
pub proof fn law_minify_number_keeps_value(t: DecimalText)
    requires
        display_form(t),
    ensures
        exists|t2: DecimalText|
            #![trigger render(t2)]
            well_formed(t2) && render(t2) == minify_number_spec(render(t)) && same_value(
                mantissa(t),
                exponent(t),
                mantissa(t2),
                exponent(t2),
            ),
{
    let s = render(t);
    lemma_pow10_pos(0);
    if t.point && t.int_digits =~= seq!['0'] {
        let t2 = if !t.neg && starts_with_point_000(strip_leading_zero(s)) {
            lemma_case_tiny(t)
        } else {
            lemma_case_small(t)
        };
        assert(same_value(mantissa(t), exponent(t), mantissa(t2), exponent(t2)));
        assert(render(t2) == minify_number_spec(s));
    } else if !t.point && ends_with_000(s) {
        let t2 = lemma_case_large(t);
        let cnt = exponent(t2);
        assert(mantissa(t) * pow10(0) == mantissa(t));
        assert(same_value(mantissa(t), exponent(t), mantissa(t2), exponent(t2))) by {
            assert(((0 - 0) as nat) == 0);
            assert(((cnt - 0) as nat) == cnt);
        }
        assert(render(t2) == minify_number_spec(s));
    } else {
        let sign: Seq<char> = if t.neg { seq!['-'] } else { Seq::empty() };
        let i = t.int_digits;
        let f = t.frac_digits;
        assert(s =~= sign + i + (if t.point { seq!['.'] + f } else { Seq::empty() }));
        assert(strip_leading_zero(s) == s) by {
            if s.len() >= 2 && s[0] == '0' && s[1] == '.' {
                if t.neg {
                    assert(s[0] == '-');
                } else {
                    assert(s[0] == i[0]);
                    assert(i.len() == 1);
                    if !t.point {
                        assert(s.len() == 1);
                    }
                    assert(i =~= seq!['0']);
                }
            }
            if s.len() >= 3 && s[0] == '-' && s[1] == '0' && s[2] == '.' {
                assert(t.neg);
                assert(s[1] == i[0]);
                assert(i.len() == 1);
                if !t.point {
                    assert(s.len() == 2);
                }
                assert(i =~= seq!['0']);
            }
        }
        assert(!starts_with_point_000(s));
        assert(!ends_with_000(s)) by {
            if t.point {
                assert(s.last() == f.last());
            }
        }
        assert(minify_number_spec(s) == s);
        assert(same_value(mantissa(t), exponent(t), mantissa(t), exponent(t)));
        assert(render(t) == minify_number_spec(s));
    }
}

} // verus!
