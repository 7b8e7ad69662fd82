//! Exact geometric growth of a delay.
//!
//! A delay starts at a base and is multiplied, once per step, by a factor
//! given in thousandths. The product is in general no whole number; what is
//! wanted is its whole part, exactly, for any number of steps. The whole part
//! is kept in a machine integer and the fraction as digits to the base 1000,
//! so that no step rounds.

use vstd::arithmetic::div_mod::{
    lemma_basic_div, lemma_div_is_ordered, lemma_div_multiples_vanish,
    lemma_fundamental_div_mod_converse,
};
use vstd::prelude::*;

verus! {

/// No delay is longer than this many milliseconds.
pub const MAX_BACKOFF_MS: u64 = 30000;

/// `base` to the power of `exponent`.
pub open spec fn power(base: nat, exponent: nat) -> nat
    decreases exponent,
{
    if exponent == 0 {
        1
    } else {
        base * power(base, (exponent - 1) as nat)
    }
}

/// The whole part of `start × (thousandths / 1000)^steps`.
pub open spec fn grown(start: nat, thousandths: nat, steps: nat) -> nat {
    (start * power(thousandths, steps)) / power(1000, steps)
}

/// The smaller of a value and a ceiling.
pub open spec fn at_most(value: nat, ceiling: nat) -> nat {
    if value < ceiling {
        value
    } else {
        ceiling
    }
}

/// The number that digits to the base 1000 stand for, the least significant
/// digit first.
pub open spec fn digits_total(digits: Seq<u32>) -> nat
    decreases digits.len(),
{
    if digits.len() == 0 {
        0
    } else {
        digits_total(digits.drop_last()) + digits.last() as nat * power(
            1000,
            (digits.len() - 1) as nat,
        )
    }
}

/// Every digit is below 1000.
pub open spec fn small_digits(digits: Seq<u32>) -> bool {
    forall|i: int| 0 <= i < digits.len() ==> #[trigger] digits[i] < 1000
}

proof fn lemma_power_positive(base: nat, exponent: nat)
    requires
        base > 0,
    ensures
        power(base, exponent) > 0,
    decreases exponent,
{
    if exponent > 0 {
        lemma_power_positive(base, (exponent - 1) as nat);
        assert(base * power(base, (exponent - 1) as nat) > 0) by (nonlinear_arith)
            requires
                base > 0,
                power(base, (exponent - 1) as nat) > 0,
        ;
    }
}

proof fn lemma_digits_total_bound(digits: Seq<u32>)
    requires
        small_digits(digits),
    ensures
        digits_total(digits) < power(1000, digits.len()),
    decreases digits.len(),
{
    if digits.len() > 0 {
        let rest = digits.drop_last();
        assert(small_digits(rest));
        lemma_digits_total_bound(rest);
        let unit = power(1000, rest.len());
        let top = digits.last() as nat;
        assert(digits_total(rest) + top * unit < 1000 * unit) by (nonlinear_arith)
            requires
                digits_total(rest) < unit,
                top <= 999,
        ;
    }
}

/// Once the product has reached a ceiling, a factor of one or more keeps it
/// there.
proof fn lemma_stays_at_ceiling(start: nat, thousandths: nat, ceiling: nat, done: nat, steps: nat)
    requires
        thousandths >= 1000,
        done <= steps,
        start * power(thousandths, done) >= ceiling * power(1000, done),
    ensures
        start * power(thousandths, steps) >= ceiling * power(1000, steps),
    decreases steps - done,
{
    if done < steps {
        let n = start * power(thousandths, done);
        let d = ceiling * power(1000, done);
        assert(start * (thousandths * power(thousandths, done)) >= ceiling * (1000 * power(
            1000,
            done,
        ))) by (nonlinear_arith)
            requires
                thousandths >= 1000,
                start * power(thousandths, done) >= ceiling * power(1000, done),
        ;
        lemma_stays_at_ceiling(start, thousandths, ceiling, done + 1, steps);
    }
}

/// Once the product has fallen below one, a factor below one keeps it there.
proof fn lemma_stays_below_one(start: nat, thousandths: nat, done: nat, steps: nat)
    requires
        thousandths < 1000,
        done <= steps,
        start * power(thousandths, done) < power(1000, done),
    ensures
        start * power(thousandths, steps) < power(1000, steps),
    decreases steps - done,
{
    if done < steps {
        assert(start * (thousandths * power(thousandths, done)) < 1000 * power(1000, done))
            by (nonlinear_arith)
            requires
                thousandths < 1000,
                start * power(thousandths, done) < power(1000, done),
        ;
        lemma_stays_below_one(start, thousandths, done + 1, steps);
    }
}

/// A whole part and a fraction below one make up a number whose whole part
/// is that whole part.
proof fn lemma_whole_part(total: nat, unit: nat, whole: nat, fraction: nat)
    requires
        fraction < unit,
        total == whole * unit + fraction,
    ensures
        total / unit == whole,
{
    lemma_fundamental_div_mod_converse(total as int, unit as int, whole as int, fraction as int);
}

/// Multiplies a number held as digits to the base 1000 by `factor`. Returns
/// the digits of the product and what is carried out of the highest digit.
fn multiply_digits(digits: &Vec<u32>, factor: u64) -> (product: (Vec<u32>, u64))
    requires
        small_digits(digits@),
        factor <= u32::MAX,
    ensures
        product.0@.len() == digits@.len(),
        small_digits(product.0@),
        product.1 <= factor,
        digits_total(product.0@) + product.1 * power(1000, digits@.len()) == digits_total(digits@)
            * factor,
{
    let mut next: Vec<u32> = Vec::new();
    let mut carry: u64 = 0;
    let mut j: usize = 0;
    assert(digits@.take(0) =~= Seq::<u32>::empty());
    assert(digits_total(next@) + carry * power(1000, 0) == digits_total(digits@.take(0)) * factor)
        by (nonlinear_arith)
        requires
            digits_total(next@) == 0,
            digits_total(digits@.take(0)) == 0,
            carry == 0,
    ;
    while j < digits.len()
        invariant
            j <= digits@.len(),
            next@.len() == j,
            small_digits(digits@),
            small_digits(next@),
            factor <= u32::MAX,
            carry <= factor,
            digits_total(next@) + carry * power(1000, j as nat) == digits_total(digits@.take(j as int))
                * factor,
        decreases digits@.len() - j,
    {
        let digit: u64 = digits[j] as u64;
        assert(digit * factor + carry <= 1000 * factor) by (nonlinear_arith)
            requires
                digit <= 999,
                carry <= factor,
        ;
        let t: u64 = digit * factor + carry;
        let ghost before = next@;
        let ghost unit = power(1000, j as nat);
        next.push((t % 1000) as u32);
        proof {
            assert(next@.drop_last() =~= before);
            assert(digits@.take(j + 1).drop_last() =~= digits@.take(j as int));
            assert(digits@.take(j + 1).last() == digits@[j as int]);
            assert(power(1000, (j + 1) as nat) == 1000 * unit);
            assert(digits_total(before) + (t % 1000) * unit + (t / 1000) * (1000 * unit) == (
            digits_total(digits@.take(j as int)) + digit * unit) * factor) by (nonlinear_arith)
                requires
                    digits_total(before) + carry * unit == digits_total(digits@.take(j as int))
                        * factor,
                    t == digit * factor + carry,
                    t == (t / 1000) * 1000 + t % 1000,
            ;
        }
        carry = t / 1000;
        j += 1;
    }
    assert(digits@.take(j as int) =~= digits@);
    (next, carry)
}

/// The whole part of `start × (thousandths / 1000)^steps`, or the ceiling
/// if that is less.
pub fn capped_growth(start: u32, thousandths: u32, steps: u32) -> (delay: u64)
    ensures
        delay == at_most(grown(start as nat, thousandths as nat, steps as nat), MAX_BACKOFF_MS as nat),
{
    let ghost goal = grown(start as nat, thousandths as nat, steps as nat);
    proof {
        lemma_power_positive(1000, steps as nat);
    }
    if start == 0 {
        proof {
            assert(start as nat * power(thousandths as nat, steps as nat) == 0) by (nonlinear_arith)
                requires
                    start == 0,
            ;
            lemma_basic_div(0, power(1000, steps as nat) as int);
        }
        return 0;
    }
    if thousandths == 1000 {
        proof {
            let unit = power(1000, steps as nat);
            assert(start as nat * unit == unit * start as nat) by (nonlinear_arith);
            lemma_div_multiples_vanish(start as int, unit as int);
        }
        return if (start as u64) < MAX_BACKOFF_MS {
            start as u64
        } else {
            MAX_BACKOFF_MS
        };
    }
    let factor: u64 = thousandths as u64;
    let mut whole: u64 = start as u64;
    let mut digits: Vec<u32> = Vec::new();
    let mut done: u32 = 0;
    assert(whole * power(1000, 0) + digits_total(digits@) == start * power(factor as nat, 0))
        by (nonlinear_arith)
        requires
            whole == start,
            power(1000, 0) == 1,
            power(factor as nat, 0) == 1,
            digits_total(digits@) == 0,
    ;
    while done < steps
        invariant
            done <= steps,
            factor == thousandths,
            factor != 1000,
            digits@.len() == done,
            small_digits(digits@),
            factor < 1000 ==> whole <= start,
            factor > 1000 ==> whole <= 30000 * 4294967296,
            whole * power(1000, done as nat) + digits_total(digits@) == start * power(
                factor as nat,
                done as nat,
            ),
        decreases steps - done,
    {
        let ghost unit = power(1000, done as nat);
        let ghost fraction = digits_total(digits@);
        proof {
            lemma_power_positive(1000, done as nat);
            lemma_digits_total_bound(digits@);
        }
        if factor > 1000 && whole >= MAX_BACKOFF_MS {
            proof {
                assert(whole * unit + fraction >= 30000 * unit) by (nonlinear_arith)
                    requires
                        whole >= 30000,
                        unit > 0,
                ;
                lemma_stays_at_ceiling(
                    start as nat,
                    factor as nat,
                    30000,
                    done as nat,
                    steps as nat,
                );
                let total = start as nat * power(factor as nat, steps as nat);
                let last = power(1000, steps as nat);
                lemma_power_positive(1000, steps as nat);
                assert(30000 * last == last * 30000) by (nonlinear_arith);
                lemma_div_multiples_vanish(30000, last as int);
                lemma_div_is_ordered((30000 * last) as int, total as int, last as int);
            }
            return MAX_BACKOFF_MS;
        }
        if factor < 1000 && whole == 0 {
            proof {
                lemma_stays_below_one(start as nat, factor as nat, done as nat, steps as nat);
                lemma_power_positive(1000, steps as nat);
                lemma_basic_div(
                    (start as nat * power(factor as nat, steps as nat)) as int,
                    power(1000, steps as nat) as int,
                );
            }
            return 0;
        }
        let (next, carry) = multiply_digits(&digits, factor);
        assert(whole * factor + carry <= 30000 * 4294967296) by (nonlinear_arith)
            requires
                factor > 1000 ==> whole < 30000,
                factor < 1000 ==> whole <= 4294967295,
                factor != 1000,
                factor <= 4294967295,
                carry <= factor,
        ;
        let t: u64 = whole * factor + carry;
        let ghost lower = next@;
        let mut next = next;
        next.push((t % 1000) as u32);
        proof {
            assert(next@.drop_last() =~= lower);
            assert(power(1000, (done + 1) as nat) == 1000 * unit);
            assert(power(factor as nat, (done + 1) as nat) == factor * power(
                factor as nat,
                done as nat,
            ));
            assert((t / 1000) * (1000 * unit) + (digits_total(lower) + (t % 1000) * unit) == start
                * (factor * power(factor as nat, done as nat))) by (nonlinear_arith)
                requires
                    whole * unit + fraction == start * power(factor as nat, done as nat),
                    digits_total(lower) + carry * unit == fraction * factor,
                    t == whole * factor + carry,
                    t == (t / 1000) * 1000 + t % 1000,
            ;
            if factor < 1000 {
                assert(t / 1000 <= whole) by (nonlinear_arith)
                    requires
                        t == whole * factor + carry,
                        carry <= factor,
                        factor <= 999,
                ;
            } else {
                assert(t / 1000 <= 30000 * 4294967296) by (nonlinear_arith)
                    requires
                        t == whole * factor + carry,
                        carry <= factor,
                        whole < 30000,
                        factor <= 4294967295,
                ;
            }
        }
        whole = t / 1000;
        digits = next;
        done = done + 1;
    }
    proof {
        lemma_digits_total_bound(digits@);
        lemma_power_positive(1000, steps as nat);
        lemma_whole_part(
            start as nat * power(factor as nat, steps as nat),
            power(1000, steps as nat),
            whole as nat,
            digits_total(digits@),
        );
    }
    if whole < MAX_BACKOFF_MS {
        whole
    } else {
        MAX_BACKOFF_MS
    }
}

} // verus!
