//! Exact fractional quantities, and the text forms in which users type
//! them: a whole number (`2`), a fraction (`3/4`), or a decimal (`1.5`).

use vstd::prelude::*;

verus! {

/// An ingredient amount as an exact ratio of two machine integers.
#[derive(Debug, Clone, Copy, PartialEq, Eq, Structural)]
pub struct Fraction {
    pub num: u32,
    pub den: u32,
}

impl Fraction {
    /// A fraction is meaningful only with a non-zero denominator.
    pub open spec fn wf(self) -> bool {
        self.den >= 1
    }

    /// Build a fraction, rejecting a zero denominator.
    pub fn new(num: u32, den: u32) -> (r: Option<Fraction>)
        ensures
            r == if den >= 1 {
                Some(Fraction { num, den })
            } else {
                None::<Fraction>
            },
            r matches Some(f) ==> f.wf(),
    {
        if den >= 1 {
            Some(Fraction { num, den })
        } else {
            None
        }
    }
}

/// Whether `c` is a decimal digit.
pub open spec fn spec_is_digit(c: char) -> bool {
    '0' <= c && c <= '9'
}

/// The numeric value of a digit character.
pub open spec fn spec_digit_val(c: char) -> nat {
    (c as int - '0' as int) as nat
}

/// Whether every character of `s` is a decimal digit.
pub open spec fn spec_all_digits(s: Seq<char>) -> bool {
    forall|i: int| 0 <= i < s.len() ==> spec_is_digit(#[trigger] s[i])
}

/// A run of one or more digits.
pub open spec fn spec_is_integer_text(s: Seq<char>) -> bool {
    s.len() >= 1 && spec_all_digits(s)
}

/// Digits, the separator `sep` at position `i`, then digits again.
pub open spec fn spec_is_split_form(s: Seq<char>, sep: char, i: int) -> bool {
    &&& 0 <= i < s.len()
    &&& s[i] == sep
    &&& spec_is_integer_text(s.subrange(0, i))
    &&& spec_is_integer_text(s.subrange(i + 1, s.len() as int))
}

/// A fraction such as `3/4`.
pub open spec fn spec_is_fraction_text(s: Seq<char>) -> bool {
    exists|i: int| spec_is_split_form(s, '/', i)
}

/// A decimal such as `1.5`.
pub open spec fn spec_is_decimal_text(s: Seq<char>) -> bool {
    exists|i: int| spec_is_split_form(s, '.', i)
}

/// The three accepted amount forms: whole number, fraction, decimal.
pub open spec fn spec_is_amount_text(s: Seq<char>) -> bool {
    spec_is_integer_text(s) || spec_is_fraction_text(s) || spec_is_decimal_text(s)
}

/// The value of a digit run, most significant digit first.
pub open spec fn spec_digits_val(s: Seq<char>) -> nat
    decreases s.len(),
{
    if s.len() == 0 {
        0
    } else {
        spec_digits_val(s.drop_last()) * 10 + spec_digit_val(s.last())
    }
}

/// Extending a digit run on the right can only increase its value.
proof fn lemma_digits_val_monotonic(s: Seq<char>, i: int, j: int)
    requires
        0 <= i <= j <= s.len(),
    ensures
        spec_digits_val(s.subrange(0, i)) <= spec_digits_val(s.subrange(0, j)),
    decreases j - i,
{
    if i < j {
        lemma_digits_val_monotonic(s, i, j - 1);
        assert(s.subrange(0, j).drop_last() =~= s.subrange(0, j - 1));
        assert(spec_digits_val(s.subrange(0, j)) == spec_digits_val(s.subrange(0, j - 1)) * 10
            + spec_digit_val(s.subrange(0, j).last()));
    } else {
        assert(s.subrange(0, i) =~= s.subrange(0, j));
    }
}

/// A run of `k` digits has a value below ten to the `k`.
proof fn lemma_digits_val_bound(s: Seq<char>)
    requires
        spec_all_digits(s),
    ensures
        spec_digits_val(s) < spec_pow10(s.len() as nat),
    decreases s.len(),
{
    if s.len() == 0 {
    } else {
        lemma_digits_val_bound(s.drop_last());
        assert(spec_is_digit(s.last()));
        assert(spec_digit_val(s.last()) <= 9);
        assert(spec_digits_val(s.drop_last()) * 10 + 9 < spec_pow10(s.len() as nat)) by {
            assert(spec_pow10(s.len() as nat) == spec_pow10((s.len() - 1) as nat) * 10);
            assert(spec_digits_val(s.drop_last()) + 1 <= spec_pow10((s.len() - 1) as nat));
            assert((spec_digits_val(s.drop_last()) + 1) * 10 <= spec_pow10(
                (s.len() - 1) as nat,
            ) * 10) by (nonlinear_arith)
                requires
                    spec_digits_val(s.drop_last()) + 1 <= spec_pow10((s.len() - 1) as nat),
            ;
        }
    }
}

/// Ten to the power `k`.
pub open spec fn spec_pow10(k: nat) -> nat
    decreases k,
{
    if k == 0 {
        1
    } else {
        spec_pow10((k - 1) as nat) * 10
    }
}

/// The greatest common divisor, by Euclid's rule.
pub open spec fn spec_gcd(a: nat, b: nat) -> nat
    decreases b,
{
    if b == 0 {
        a
    } else {
        spec_gcd(b, a % b)
    }
}

/// With a positive second argument the greatest common divisor is
/// positive and no larger than that argument.
pub proof fn lemma_gcd_bounds(a: nat, b: nat)
    requires
        b >= 1,
    ensures
        1 <= spec_gcd(a, b) <= b,
    decreases b,
{
    if a % b == 0 {
        assert(spec_gcd(a, b) == spec_gcd(b, 0));
    } else {
        lemma_gcd_bounds(b, a % b);
        assert(spec_gcd(a, b) == spec_gcd(b, a % b));
    }
}

/// The greatest common divisor of two machine integers.
pub fn gcd(a: u32, b: u32) -> (r: u32)
    ensures
        r == spec_gcd(a as nat, b as nat),
{
    let mut x = a;
    let mut y = b;
    while y != 0
        invariant
            spec_gcd(x as nat, y as nat) == spec_gcd(a as nat, b as nat),
        decreases y,
    {
        let t = x % y;
        x = y;
        y = t;
    }
    x
}

/// The display text of an amount: a plain integer where the value is
/// whole, otherwise the fraction in lowest terms.
pub open spec fn spec_amount_text(f: Fraction) -> Seq<char> {
    if f.den == 1 {
        crate::numtext::spec_dec_str(f.num as nat)
    } else if f.num as nat % f.den as nat == 0 {
        crate::numtext::spec_dec_str(f.num as nat / f.den as nat)
    } else {
        let g = spec_gcd(f.num as nat, f.den as nat);
        crate::numtext::spec_dec_str(f.num as nat / g) + seq!['/'] + crate::numtext::spec_dec_str(
            f.den as nat / g,
        )
    }
}

/// Render an amount for display.
pub fn format_amount(f: Fraction) -> (s: String)
    requires
        f.wf(),
    ensures
        s@ == spec_amount_text(f),
{
    if f.den == 1 {
        crate::numtext::u32_to_string(f.num)
    } else if f.num % f.den == 0 {
        crate::numtext::u32_to_string(f.num / f.den)
    } else {
        let g = gcd(f.num, f.den);
        proof {
            lemma_gcd_bounds(f.num as nat, f.den as nat);
            reveal_strlit("/");
        }
        let mut s = crate::numtext::u32_to_string(f.num / g);
        s.append("/");
        let tail = crate::numtext::u32_to_string(f.den / g);
        let s = s.concat(tail.as_str());
        assert(s@ =~= spec_amount_text(f));
        s
    }
}

/// The numerator that brings `d`-ths closest to `m` thousandths.
pub open spec fn spec_round_to(m: nat, d: nat) -> nat {
    (m * d + 500) / 1000
}

/// The distance, in thousandths scaled by `d`, between `m` thousandths
/// and the nearest count of `d`-ths.
pub open spec fn spec_approx_err(m: nat, d: nat) -> int {
    let n = spec_round_to(m, d);
    if m * d >= 1000 * n {
        m * d - 1000 * n
    } else {
        1000 * n - m * d
    }
}

/// Whether `d`-ths can land within one hundredth of `m` thousandths.
pub open spec fn spec_close(m: nat, d: nat) -> bool {
    spec_approx_err(m, d) <= 10 * d
}

/// The simplest fraction that approximates `milli` thousandths within a
/// tolerance of one hundredth: the denominator search is bounded by
/// `max_den`, and the caller falls back to decimal display when no
/// denominator in range comes close enough.
pub fn nearest_simple_fraction(milli: u32, max_den: u32) -> (r: Option<Fraction>)
    requires
        milli <= 4_000_000,
        1 <= max_den <= 1000,
    ensures
        match r {
            Some(f) => {
                &&& 1 <= f.den <= max_den
                &&& f.num == spec_round_to(milli as nat, f.den as nat)
                &&& spec_close(milli as nat, f.den as nat)
                &&& forall|d: int| 1 <= d < f.den ==> !#[trigger] spec_close(milli as nat, d as nat)
            },
            None => forall|d: int| 1 <= d <= max_den ==> !#[trigger] spec_close(milli as nat, d as nat),
        },
        r matches Some(f) ==> f.wf(),
{
    let mut d: u32 = 1;
    while d <= max_den
        invariant
            1 <= d <= max_den + 1,
            milli <= 4_000_000,
            max_den <= 1000,
            forall|e: int| 1 <= e < d ==> !#[trigger] spec_close(milli as nat, e as nat),
        decreases max_den + 1 - d,
    {
        proof {
            assert((milli as int) * (d as int) <= 4_000_000_000) by (nonlinear_arith)
                requires
                    milli <= 4_000_000,
                    d <= 1000,
            ;
        }
        let x: u64 = (milli as u64) * (d as u64);
        let n: u64 = (x + 500) / 1000;
        assert(n == spec_round_to(milli as nat, d as nat));
        proof {
            assert(n * 1000 <= x + 500) by (nonlinear_arith)
                requires
                    n == (x + 500) as int / 1000,
                    x >= 0,
            ;
            assert(n <= 4_000_000) by (nonlinear_arith)
                requires
                    n == (x + 500) as int / 1000,
                    0 <= x <= 4_000_000_000,
            ;
        }
        let err: u64 = if x >= 1000 * n {
            x - 1000 * n
        } else {
            1000 * n - x
        };
        assert(err == spec_approx_err(milli as nat, d as nat));
        if err <= 10 * (d as u64) {
            assert(spec_close(milli as nat, d as nat));
            return Some(Fraction { num: n as u32, den: d });
        }
        assert(!spec_close(milli as nat, d as nat));
        d += 1;
    }
    None
}

/// Whether `c` is a decimal digit.
pub fn is_digit_char(c: char) -> (r: bool)
    ensures
        r == spec_is_digit(c),
{
    '0' <= c && c <= '9'
}

/// The characters of `s`, collected for index-wise processing.
fn collect_chars(s: &str) -> (v: Vec<char>)
    ensures
        v@ == s@,
{
    let n = s.unicode_len();
    let mut v: Vec<char> = Vec::new();
    let mut i: usize = 0;
    while i < n
        invariant
            0 <= i <= n,
            n == s@.len(),
            v@ =~= s@.subrange(0, i as int),
        decreases n - i,
    {
        v.push(s.get_char(i));
        assert(v@ =~= s@.subrange(0, i + 1));
        i += 1;
    }
    assert(v@ =~= s@);
    v
}

/// Parse the digit run `v[from..to]` into a machine integer; reports
/// failure exactly when the value does not fit.
fn parse_digits(v: &Vec<char>, from: usize, to: usize) -> (r: Option<u32>)
    requires
        0 <= from <= to <= v@.len(),
        spec_all_digits(v@.subrange(from as int, to as int)),
    ensures
        r == if spec_digits_val(v@.subrange(from as int, to as int)) <= u32::MAX {
            Some(spec_digits_val(v@.subrange(from as int, to as int)) as u32)
        } else {
            None::<u32>
        },
{
    let ghost w = v@.subrange(from as int, to as int);
    let mut acc: u32 = 0;
    let mut i: usize = from;
    while i < to
        invariant
            from <= i <= to <= v@.len(),
            w == v@.subrange(from as int, to as int),
            spec_all_digits(w),
            acc == spec_digits_val(w.subrange(0, i - from)),
        decreases to - i,
    {
        let c = v[i];
        assert(c == w[i - from]);
        assert(spec_is_digit(c));
        let d: u32 = (c as u32) - 48;
        assert(d == spec_digit_val(c));
        assert(d <= 9);
        if acc > (u32::MAX - d) / 10 {
            proof {
                assert(acc * 10 + d > u32::MAX) by (nonlinear_arith)
                    requires
                        acc > (u32::MAX - d) / 10,
                        d <= 9,
                        acc >= 0,
                ;
                assert(w.subrange(0, i - from + 1).drop_last() =~= w.subrange(0, i - from));
                assert(w.subrange(0, i - from + 1).last() == c);
                assert(spec_digits_val(w.subrange(0, i - from + 1)) == acc * 10 + d);
                lemma_digits_val_monotonic(w, i - from + 1, w.len() as int);
                assert(w.subrange(0, w.len() as int) =~= w);
                assert(spec_digits_val(w) > u32::MAX);
            }
            return None;
        }
        proof {
            assert(acc * 10 + d <= u32::MAX) by (nonlinear_arith)
                requires
                    acc <= (u32::MAX - d) / 10,
                    d <= 9,
                    acc >= 0,
            ;
            assert(w.subrange(0, i - from + 1).drop_last() =~= w.subrange(0, i - from));
            assert(w.subrange(0, i - from + 1).last() == c);
        }
        acc = acc * 10 + d;
        i += 1;
    }
    assert(w.subrange(0, w.len() as int) =~= w);
    Some(acc)
}

/// Ten to the power `k` as a machine integer; reports failure exactly
/// when the power does not fit.
fn pow10(k: usize) -> (r: Option<u32>)
    ensures
        r == if spec_pow10(k as nat) <= u32::MAX {
            Some(spec_pow10(k as nat) as u32)
        } else {
            None::<u32>
        },
{
    let mut p: u32 = 1;
    let mut j: usize = 0;
    while j < k
        invariant
            0 <= j <= k,
            p == spec_pow10(j as nat),
            p <= u32::MAX,
        decreases k - j,
    {
        if p > u32::MAX / 10 {
            proof {
                assert(p * 10 > u32::MAX) by (nonlinear_arith)
                    requires
                        p > u32::MAX / 10,
                        p >= 0,
                ;
                lemma_pow10_monotonic((j + 1) as nat, k as nat);
            }
            return None;
        }
        proof {
            assert(p * 10 <= u32::MAX) by (nonlinear_arith)
                requires
                    p <= u32::MAX / 10,
                    p >= 0,
            ;
        }
        p = p * 10;
        j += 1;
    }
    Some(p)
}

/// Ten to a larger power is at least ten to a smaller one.
proof fn lemma_pow10_monotonic(i: nat, j: nat)
    requires
        i <= j,
    ensures
        spec_pow10(i) <= spec_pow10(j),
    decreases j - i,
{
    if i < j {
        lemma_pow10_monotonic(i, (j - 1) as nat);
        assert(spec_pow10(j) == spec_pow10((j - 1) as nat) * 10);
        assert(spec_pow10((j - 1) as nat) * 10 >= spec_pow10((j - 1) as nat)) by (nonlinear_arith)
            requires
                spec_pow10((j - 1) as nat) >= 0,
        ;
    }
}

/// The fraction denoted by a text `a/b`, split at `i`: failure when a part
/// does not fit in a machine integer or the denominator is zero.
pub open spec fn spec_fraction_result(s: Seq<char>, i: int) -> Option<Fraction> {
    let a = spec_digits_val(s.subrange(0, i));
    let b = spec_digits_val(s.subrange(i + 1, s.len() as int));
    if a <= u32::MAX && 1 <= b <= u32::MAX {
        Some(Fraction { num: a as u32, den: b as u32 })
    } else {
        None
    }
}

/// The fraction denoted by a decimal text `a.b`, split at `i`: the value
/// over ten to the number of places; failure when it does not fit.
pub open spec fn spec_decimal_result(s: Seq<char>, i: int) -> Option<Fraction> {
    let a = spec_digits_val(s.subrange(0, i));
    let b = spec_digits_val(s.subrange(i + 1, s.len() as int));
    let p = spec_pow10((s.len() - i - 1) as nat);
    if p <= u32::MAX && a * p + b <= u32::MAX {
        Some(Fraction { num: (a * p + b) as u32, den: p as u32 })
    } else {
        None
    }
}

/// The fraction denoted by an amount text, when there is one: whole
/// numbers over one, `a/b` as is, decimals over a power of ten.  Texts of
/// any other shape fail, as do values that do not fit in a machine
/// integer and fractions with a zero denominator.
pub fn parse_amount(s: &str) -> (r: Option<Fraction>)
    ensures
        !spec_is_amount_text(s@) ==> r is None,
        spec_is_integer_text(s@) ==> r == if spec_digits_val(s@) <= u32::MAX {
            Some(Fraction { num: spec_digits_val(s@) as u32, den: 1 })
        } else {
            None::<Fraction>
        },
        forall|i: int| spec_is_split_form(s@, '/', i) ==> r == spec_fraction_result(s@, i),
        forall|i: int| spec_is_split_form(s@, '.', i) ==> r == spec_decimal_result(s@, i),
        r matches Some(f) ==> f.wf(),
{
    let v = collect_chars(s);
    let n = v.len();
    // Find the first non-digit character.
    let mut i: usize = 0;
    while i < n && is_digit_char(v[i])
        invariant
            0 <= i <= n,
            n == v@.len(),
            v@ == s@,
            forall|m: int| 0 <= m < i ==> spec_is_digit(#[trigger] s@[m]),
        decreases n - i,
    {
        i += 1;
    }
    if i == n {
        // All characters are digits.
        proof {
            assert forall|k: int, sep: char| spec_is_split_form(s@, sep, k) && (sep == '/' || sep
                == '.') implies false by {
                assert(spec_is_digit(s@[k]));
            }
        }
        if n == 0 {
            return None;
        }
        assert(spec_is_integer_text(s@));
        match parse_digits(&v, 0, n) {
            Some(a) => {
                assert(v@.subrange(0, n as int) =~= s@);
                Some(Fraction { num: a, den: 1 })
            },
            None => {
                assert(v@.subrange(0, n as int) =~= s@);
                None
            },
        }
    } else {
        let sep = v[i];
        assert(!spec_is_digit(sep));
        assert(!spec_is_integer_text(s@));
        if !(sep == '/' || sep == '.') {
            // Some character is neither a digit nor a separator.
            proof {
                assert forall|k: int, sp: char| (sp == '/' || sp == '.') && spec_is_split_form(
                    s@,
                    sp,
                    k,
                ) implies false by {
                    if k < i {
                        assert(spec_is_digit(s@[k]));
                    } else if k == i {
                        assert(s@[k] == sep);
                    } else {
                        assert(spec_is_integer_text(s@.subrange(0, k)));
                        assert(s@.subrange(0, k)[i as int] == s@[i as int]);
                        assert(spec_is_digit(s@[i as int]));
                    }
                }
            }
            return None;
        }
        // The split position of any valid form must be exactly `i`.
        proof {
            assert forall|k: int, sp: char| (sp == '/' || sp == '.') && spec_is_split_form(
                s@,
                sp,
                k,
            ) implies k == i && sp == sep by {
                if k < i {
                    assert(spec_is_digit(s@[k]));
                } else if k > i {
                    assert(spec_is_integer_text(s@.subrange(0, k)));
                    assert(s@.subrange(0, k)[i as int] == s@[i as int]);
                    assert(spec_is_digit(s@[i as int]));
                }
            }
        }
        if i == 0 {
            // Empty part before the separator.
            return None;
        }
        // The part after the separator must be one or more digits.
        let mut j: usize = i + 1;
        while j < n && is_digit_char(v[j])
            invariant
                i + 1 <= j <= n,
                n == v@.len(),
                v@ == s@,
                forall|m: int| i + 1 <= m < j ==> spec_is_digit(#[trigger] s@[m]),
            decreases n - j,
        {
            j += 1;
        }
        if j < n {
            // A non-digit after the separator.
            proof {
                assert(!spec_is_digit(s@[j as int]));
                assert forall|k: int, sp: char| (sp == '/' || sp == '.') && spec_is_split_form(
                    s@,
                    sp,
                    k,
                ) implies false by {
                    assert(k == i);
                    assert(spec_is_integer_text(s@.subrange(i + 1, n as int)));
                    assert(s@.subrange(i + 1, n as int)[j - i - 1] == s@[j as int]);
                }
            }
            return None;
        }
        if i + 1 == n {
            // Empty part after the separator.
            proof {
                assert forall|k: int, sp: char| (sp == '/' || sp == '.') && spec_is_split_form(
                    s@,
                    sp,
                    k,
                ) implies false by {
                    assert(k == i);
                    assert(spec_is_integer_text(s@.subrange(i + 1, n as int)));
                }
            }
            return None;
        }
        assert(spec_is_split_form(s@, sep, i as int));
        let a_opt = parse_digits(&v, 0, i);
        let b_opt = parse_digits(&v, i + 1, n);
        let ghost av = spec_digits_val(s@.subrange(0, i as int));
        if sep == '/' {
            match (a_opt, b_opt) {
                (Some(a), Some(b)) => {
                    if b >= 1 {
                        Some(Fraction { num: a, den: b })
                    } else {
                        None
                    }
                },
                _ => None,
            }
        } else {
            let k = n - (i + 1);
            proof {
                lemma_digits_val_bound(s@.subrange(i + 1, n as int));
            }
            match pow10(k) {
                Some(p) => {
                    proof {
                        if av > u32::MAX {
                            assert(av * p >= av) by (nonlinear_arith)
                                requires
                                    p >= 1,
                                    av >= 0,
                            ;
                        }
                    }
                    match (a_opt, b_opt) {
                        (Some(a), Some(b)) => {
                            proof {
                                assert((a as int) * (p as int) + (b as int) <= u64::MAX)
                                    by (nonlinear_arith)
                                    requires
                                        a <= u32::MAX,
                                        p <= u32::MAX,
                                        b <= u32::MAX,
                                ;
                            }
                            let t: u64 = (a as u64) * (p as u64) + (b as u64);
                            proof {
                                assert((a as u64) * (p as u64) == av * p) by (nonlinear_arith)
                                    requires
                                        a == av,
                                        p == spec_pow10(k as nat),
                                        av <= u32::MAX,
                                        p <= u32::MAX,
                                ;
                            }
                            if t <= u32::MAX as u64 {
                                Some(Fraction { num: t as u32, den: p })
                            } else {
                                None
                            }
                        },
                        _ => {
                            proof {
                                if av > u32::MAX {
                                    assert(av * p >= av) by (nonlinear_arith)
                                        requires
                                            p >= 1,
                                            av >= 0,
                                    ;
                                }
                            }
                            None
                        },
                    }
                },
                None => {
                    None
                },
            }
        }
    }
}

} // verus!
