//! Positional numerals over an arbitrary base, written most significant
//! digit first, and the change of base that keeps leading zero digits.
//!
//! Both text codecs of the wire format that work on whole numbers are
//! instances of [`transcode`]: base 256 to base 58 and back.

use vstd::arithmetic::div_mod::lemma_div_decreases;
use vstd::arithmetic::div_mod::lemma_fundamental_div_mod;
use vstd::arithmetic::div_mod::lemma_fundamental_div_mod_converse;
use vstd::arithmetic::div_mod::lemma_mod_bound;
use vstd::prelude::*;

verus! {

/// Every digit of `ds` is a digit of base `base`.
pub open spec fn all_below(ds: Seq<nat>, base: nat) -> bool {
    forall|i: int| 0 <= i < ds.len() ==> ds[i] < base
}

/// The number that the numeral `ds` denotes in base `base`.
pub open spec fn value(ds: Seq<nat>, base: nat) -> nat
    decreases ds.len(),
{
    if ds.len() == 0 {
        0
    } else {
        value(ds.drop_last(), base) * base + ds.last()
    }
}

/// The shortest numeral of `n` in base `base`: empty for zero, and without a
/// leading zero digit otherwise.
pub open spec fn digits(n: nat, base: nat) -> Seq<nat>
    decreases n,
    when base >= 2
    via digits_decreases
{
    if n == 0 {
        Seq::empty()
    } else {
        digits(n / base, base).push(n % base)
    }
}

#[via_fn]
proof fn digits_decreases(n: nat, base: nat) {
    if n != 0 {
        lemma_div_decreases(n as int, base as int);
    }
}

/// How many zero digits stand at the front of `ds`.
pub open spec fn leading_zeros(ds: Seq<nat>) -> nat
    decreases ds.len(),
{
    if ds.len() == 0 || ds[0] != 0 {
        0
    } else {
        1 + leading_zeros(ds.skip(1))
    }
}

/// `n` zero digits.
pub open spec fn zeros(n: nat) -> Seq<nat> {
    Seq::new(n, |i: int| 0nat)
}

/// `ds` has no zero digit at its front.
pub open spec fn trimmed(ds: Seq<nat>) -> bool {
    ds.len() == 0 || ds[0] != 0
}

/// The numeral `ds` of base `from`, rewritten in base `to`: each leading zero
/// digit is kept as a zero digit, and the number that the rest denotes is
/// written in the shortest way.
pub open spec fn transcode(ds: Seq<nat>, from: nat, to: nat) -> Seq<nat> {
    zeros(leading_zeros(ds)) + digits(value(ds, from), to)
}

/// The shortest numeral holds digits of its base only.
pub proof fn lemma_digits_below(n: nat, base: nat)
    requires
        base >= 2,
    ensures
        all_below(digits(n, base), base),
    decreases n,
{
    if n != 0 {
        lemma_div_decreases(n as int, base as int);
        lemma_digits_below(n / base, base);
        lemma_mod_bound(n as int, base as int);
    }
}

/// The shortest numeral of a number denotes that number.
pub proof fn lemma_value_of_digits(n: nat, base: nat)
    requires
        base >= 2,
    ensures
        value(digits(n, base), base) == n,
    decreases n,
{
    if n != 0 {
        lemma_div_decreases(n as int, base as int);
        lemma_value_of_digits(n / base, base);
        let ds = digits(n, base);
        assert(ds.drop_last() =~= digits(n / base, base));
        lemma_fundamental_div_mod(n as int, base as int);
        assert((n / base) * base == base * (n / base)) by (nonlinear_arith);
    }
}

/// The shortest numeral has no leading zero, and is empty for zero only.
pub proof fn lemma_digits_trimmed(n: nat, base: nat)
    requires
        base >= 2,
    ensures
        trimmed(digits(n, base)),
        n > 0 ==> digits(n, base).len() > 0,
    decreases n,
{
    if n != 0 {
        lemma_div_decreases(n as int, base as int);
        lemma_digits_trimmed(n / base, base);
        if n / base == 0 {
            lemma_fundamental_div_mod(n as int, base as int);
            assert(base * (n / base) == 0) by (nonlinear_arith)
                requires
                    n / base == 0,
            ;
            assert(digits(n / base, base) =~= Seq::<nat>::empty());
            assert(digits(n, base)[0] == n % base);
        } else {
            assert(digits(n, base)[0] == digits(n / base, base)[0]);
        }
    }
}

/// Zero digits at the front do not change the number.
pub proof fn lemma_value_skips_zeros(k: nat, ds: Seq<nat>, base: nat)
    ensures
        value(zeros(k) + ds, base) == value(ds, base),
    decreases ds.len(),
{
    if ds.len() == 0 {
        assert(zeros(k) + ds =~= zeros(k));
        lemma_value_of_zeros(k, base);
    } else {
        assert((zeros(k) + ds).drop_last() =~= zeros(k) + ds.drop_last());
        lemma_value_skips_zeros(k, ds.drop_last(), base);
    }
}

/// Zero digits alone denote zero.
pub proof fn lemma_value_of_zeros(k: nat, base: nat)
    ensures
        value(zeros(k), base) == 0,
    decreases k,
{
    if k != 0 {
        assert(zeros(k).drop_last() =~= zeros((k - 1) as nat));
        lemma_value_of_zeros((k - 1) as nat, base);
        assert(0 * base == 0) by (nonlinear_arith);
    }
}

/// `k` zeros before a trimmed numeral are its `k` leading zeros.
pub proof fn lemma_leading_zeros_of_padded(k: nat, ds: Seq<nat>)
    requires
        trimmed(ds),
    ensures
        leading_zeros(zeros(k) + ds) == k,
    decreases k,
{
    if k == 0 {
        assert(zeros(k) + ds =~= ds);
    } else {
        assert((zeros(k) + ds).skip(1) =~= zeros((k - 1) as nat) + ds);
        lemma_leading_zeros_of_padded((k - 1) as nat, ds);
    }
}

/// A numeral is its leading zeros followed by a trimmed rest.
pub proof fn lemma_split_leading_zeros(ds: Seq<nat>)
    ensures
        leading_zeros(ds) <= ds.len(),
        trimmed(ds.skip(leading_zeros(ds) as int)),
        ds == zeros(leading_zeros(ds)) + ds.skip(leading_zeros(ds) as int),
    decreases ds.len(),
{
    if ds.len() == 0 || ds[0] != 0 {
        assert(ds =~= zeros(0) + ds.skip(0));
    } else {
        let rest = ds.skip(1);
        lemma_split_leading_zeros(rest);
        let k = leading_zeros(rest);
        assert(rest.skip(k as int) =~= ds.skip(k as int + 1));
        let padded = zeros(k + 1) + ds.skip(k as int + 1);
        assert forall|i: int| 0 <= i < ds.len() implies ds[i] == padded[i] by {
            if 0 < i {
                assert(ds[i] == rest[i - 1]);
                assert(rest[i - 1] == (zeros(k) + rest.skip(k as int))[i - 1]);
            }
        }
        assert(ds =~= padded);
    }
}

/// A numeral that begins with a digit other than zero denotes a positive
/// number.
pub proof fn lemma_value_positive(ds: Seq<nat>, base: nat)
    requires
        base >= 2,
        ds.len() > 0,
        ds[0] != 0,
    ensures
        value(ds, base) > 0,
    decreases ds.len(),
{
    if ds.len() > 1 {
        lemma_value_positive(ds.drop_last(), base);
        let v = value(ds.drop_last(), base);
        assert(v * base > 0) by (nonlinear_arith)
            requires
                v > 0,
                base >= 2,
        ;
    } else {
        assert(ds.drop_last() =~= Seq::<nat>::empty());
        assert(0 * base == 0) by (nonlinear_arith);
    }
}

/// The shortest numeral of the value of a trimmed numeral is that numeral.
pub proof fn lemma_digits_of_value(ds: Seq<nat>, base: nat)
    requires
        base >= 2,
        all_below(ds, base),
        trimmed(ds),
    ensures
        digits(value(ds, base), base) == ds,
    decreases ds.len(),
{
    if ds.len() == 0 {
        assert(digits(0, base) =~= ds);
    } else {
        let front = ds.drop_last();
        let v = value(front, base);
        lemma_value_positive(ds, base);
        lemma_fundamental_div_mod_converse(
            value(ds, base) as int,
            base as int,
            v as int,
            ds.last() as int,
        );
        if front.len() == 0 {
            assert(digits(0, base) =~= front);
        } else {
            lemma_digits_of_value(front, base);
        }
        assert(digits(value(ds, base), base) =~= front.push(ds.last()));
        assert(front.push(ds.last()) =~= ds);
    }
}

/// A rewritten numeral holds digits of the new base only.
pub proof fn lemma_transcode_below(ds: Seq<nat>, from: nat, to: nat)
    requires
        to >= 2,
    ensures
        all_below(transcode(ds, from, to), to),
{
    lemma_digits_below(value(ds, from), to);
}

/// Changing the base and changing it back gives the numeral that one began
/// with, leading zeros included.
pub proof fn lemma_transcode_round_trip(ds: Seq<nat>, from: nat, to: nat)
    requires
        from >= 2,
        to >= 2,
        all_below(ds, from),
    ensures
        transcode(transcode(ds, from, to), to, from) == ds,
{
    let k = leading_zeros(ds);
    lemma_split_leading_zeros(ds);
    let rest = ds.skip(k as int);
    let n = value(ds, from);
    lemma_value_skips_zeros(k, rest, from);
    assert(n == value(rest, from));
    let mid = digits(n, to);
    lemma_digits_trimmed(n, to);
    lemma_leading_zeros_of_padded(k, mid);
    lemma_value_skips_zeros(k, mid, to);
    lemma_value_of_digits(n, to);
    assert(all_below(rest, from));
    lemma_digits_of_value(rest, from);
}

/// `base` to the power `e`.
pub open spec fn power(base: nat, e: nat) -> nat
    decreases e,
{
    if e == 0 {
        1
    } else {
        base * power(base, (e - 1) as nat)
    }
}

/// A power of a positive base is positive.
pub proof fn lemma_power_positive(base: nat, e: nat)
    requires
        base >= 1,
    ensures
        power(base, e) >= 1,
    decreases e,
{
    if e != 0 {
        lemma_power_positive(base, (e - 1) as nat);
        let rest = power(base, (e - 1) as nat);
        assert(base * rest >= 1) by (nonlinear_arith)
            requires
                base >= 1,
                rest >= 1,
        ;
    }
}

/// Exponents add where powers are multiplied.
pub proof fn lemma_power_adds(base: nat, a: nat, b: nat)
    ensures
        power(base, a + b) == power(base, a) * power(base, b),
    decreases a,
{
    if a == 0 {
        assert(1 * power(base, b) == power(base, b)) by (nonlinear_arith);
    } else {
        lemma_power_adds(base, (a - 1) as nat, b);
        let x = power(base, (a - 1) as nat);
        let y = power(base, b);
        assert(power(base, a + b) == base * power(base, (a + b - 1) as nat));
        assert(base * (x * y) == (base * x) * y) by (nonlinear_arith);
    }
}

/// A larger base gives a power that is no smaller.
pub proof fn lemma_power_grows_with_base(small: nat, large: nat, e: nat)
    requires
        small <= large,
    ensures
        power(small, e) <= power(large, e),
    decreases e,
{
    if e != 0 {
        lemma_power_grows_with_base(small, large, (e - 1) as nat);
        let x = power(small, (e - 1) as nat);
        let y = power(large, (e - 1) as nat);
        assert(small * x <= large * y) by (nonlinear_arith)
            requires
                small <= large,
                x <= y,
        ;
    }
}

/// A larger exponent gives a power that is no smaller.
pub proof fn lemma_power_grows_with_exponent(base: nat, low: nat, high: nat)
    requires
        base >= 1,
        low <= high,
    ensures
        power(base, low) <= power(base, high),
    decreases high,
{
    if low < high {
        lemma_power_grows_with_exponent(base, low, (high - 1) as nat);
        let x = power(base, (high - 1) as nat);
        assert(x <= base * x) by (nonlinear_arith)
            requires
                base >= 1,
        ;
    }
}

/// A numeral of `k` digits denotes less than the `k`-th power of the base,
/// and, where it has no leading zero, no less than the power before it.
pub proof fn lemma_value_bounds(ds: Seq<nat>, base: nat)
    requires
        base >= 2,
        all_below(ds, base),
    ensures
        value(ds, base) < power(base, ds.len()),
        trimmed(ds) && ds.len() > 0 ==> value(ds, base) >= power(base, (ds.len() - 1) as nat),
    decreases ds.len(),
{
    if ds.len() != 0 {
        let front = ds.drop_last();
        lemma_value_bounds(front, base);
        let v = value(front, base);
        let p = power(base, front.len());
        let last = ds.last();
        assert(v * base + last < base * p) by (nonlinear_arith)
            requires
                v < p,
                last < base,
        ;
        if trimmed(ds) {
            if front.len() == 0 {
                assert(v * base >= 0) by (nonlinear_arith);
            } else {
                let q = power(base, (front.len() - 1) as nat);
                assert(v * base + last >= base * q) by (nonlinear_arith)
                    requires
                        v >= q,
                ;
            }
        }
    }
}

/// Rewritten in a base that is no larger, a numeral gets no shorter.
pub proof fn lemma_transcode_at_least(ds: Seq<nat>, from: nat, to: nat)
    requires
        2 <= to <= from,
        all_below(ds, from),
    ensures
        transcode(ds, from, to).len() >= ds.len(),
{
    let k = leading_zeros(ds);
    lemma_split_leading_zeros(ds);
    let rest = ds.skip(k as int);
    let n = value(ds, from);
    lemma_value_skips_zeros(k, rest, from);
    if rest.len() > 0 {
        let out = digits(n, to);
        assert(all_below(rest, from));
        lemma_value_bounds(rest, from);
        lemma_power_positive(from, (rest.len() - 1) as nat);
        lemma_digits_below(n, to);
        lemma_value_of_digits(n, to);
        lemma_value_bounds(out, to);
        lemma_power_grows_with_base(to, from, out.len());
        if out.len() < rest.len() {
            lemma_power_grows_with_exponent(from, out.len(), (rest.len() - 1) as nat);
        }
    }
}

/// Rewritten in a base that is no larger, a numeral of `ds.len()` digits has
/// at most `bound` digits, where the values of that many digits of the old
/// base all fit into `bound` digits of the new one.
pub proof fn lemma_transcode_at_most(ds: Seq<nat>, from: nat, to: nat, bound: nat)
    requires
        2 <= to <= from,
        all_below(ds, from),
        ds.len() <= bound,
        power(from, ds.len()) <= power(to, bound),
    ensures
        transcode(ds, from, to).len() <= bound,
{
    let k = leading_zeros(ds);
    lemma_split_leading_zeros(ds);
    let rest = ds.skip(k as int);
    let n = value(ds, from);
    lemma_value_skips_zeros(k, rest, from);
    let out = digits(n, to);
    if out.len() + k > bound {
        assert(all_below(rest, from));
        lemma_value_bounds(rest, from);
        lemma_digits_below(n, to);
        lemma_value_of_digits(n, to);
        lemma_digits_trimmed(n, to);
        lemma_value_bounds(out, to);
        let low = (bound - k) as nat;
        lemma_power_grows_with_exponent(to, low, (out.len() - 1) as nat);
        let a = power(to, low);
        let c = power(from, rest.len());
        let t = power(to, k);
        let f = power(from, k);
        assert(a < c);
        lemma_power_positive(to, k);
        lemma_power_grows_with_base(to, from, k);
        lemma_power_adds(to, low, k);
        lemma_power_adds(from, rest.len(), k);
        assert(low + k == bound);
        assert(rest.len() + k == ds.len());
        assert(a * t < c * f) by (nonlinear_arith)
            requires
                a < c,
                1 <= t <= f,
        ;
        assert(false);
    }
}

} // verus!
