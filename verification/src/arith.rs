//! Divisibility and greatest common divisors.
//!
//! The epoch-fraction arithmetic reduces fractions by their greatest common
//! divisor. The reduction itself is done by an outside routine; this module
//! pins down what a greatest common divisor is, so that the caller can prove
//! the reduced fraction exact and canonical.

use vstd::prelude::*;

use vstd::arithmetic::div_mod::{lemma_fundamental_div_mod, lemma_mod_multiples_basic};

verus! {

/// `d` divides `n`.
pub open spec fn divides(d: nat, n: nat) -> bool {
    exists|k: nat| n == #[trigger] (k * d)
}

/// Euclid's greatest common divisor.
pub open spec fn gcd_of(a: nat, b: nat) -> nat
    decreases b,
{
    if b == 0 {
        a
    } else {
        gcd_of(b, a % b)
    }
}

/// A divisor of `n` leaves no remainder.
pub proof fn lemma_divides_to_mod(d: nat, n: nat)
    requires
        d > 0,
        divides(d, n),
    ensures
        n % d == 0,
{
    let k = choose|k: nat| n == #[trigger] (k * d);
    lemma_mod_multiples_basic(k as int, d as int);
}

/// A zero remainder witnesses a divisor.
pub proof fn lemma_mod_to_divides(d: nat, n: nat)
    requires
        d > 0,
        n % d == 0,
    ensures
        divides(d, n),
{
    lemma_fundamental_div_mod(n as int, d as int);
    let q = n as int / d as int;
    assert(q >= 0) by (nonlinear_arith)
        requires
            n >= 0,
            d > 0,
            q == n as int / d as int,
    ;
    assert(n == (q as nat) * d) by (nonlinear_arith)
        requires
            n as int == d as int * q + n as int % d as int,
            n % d == 0,
            q >= 0,
    ;
}

/// A divisor of two numbers divides their sum.
pub proof fn lemma_divides_add(d: nat, a: nat, b: nat)
    requires
        divides(d, a),
        divides(d, b),
    ensures
        divides(d, a + b),
{
    let ka = choose|k: nat| a == #[trigger] (k * d);
    let kb = choose|k: nat| b == #[trigger] (k * d);
    assert(a + b == (ka + kb) * d) by (nonlinear_arith)
        requires
            a == ka * d,
            b == kb * d,
    ;
}

/// A divisor of a number divides its multiples.
pub proof fn lemma_divides_mul(d: nat, c: nat, a: nat)
    requires
        divides(d, a),
    ensures
        divides(d, c * a),
{
    let k = choose|k: nat| a == #[trigger] (k * d);
    assert(c * a == (c * k) * d) by (nonlinear_arith)
        requires
            a == k * d,
    ;
}

/// A common divisor of `a` and a positive `b` divides `a % b`.
pub proof fn lemma_divides_mod(d: nat, a: nat, b: nat)
    requires
        d > 0,
        b > 0,
        divides(d, a),
        divides(d, b),
    ensures
        divides(d, a % b),
{
    lemma_fundamental_div_mod(a as int, b as int);
    let q = a as int / b as int;
    assert(q >= 0) by (nonlinear_arith)
        requires
            a >= 0,
            b > 0,
            q == a as int / b as int,
    ;
    lemma_divides_mul(d, q as nat, b);
    let km = choose|k: nat| (q as nat) * b == #[trigger] (k * d);
    let ka = choose|k: nat| a == #[trigger] (k * d);
    let r = a % b;
    assert(a == q * b + r);
    assert(ka * d >= km * d) by (nonlinear_arith)
        requires
            ka * d == (q as nat) * b + r,
            km * d == (q as nat) * b,
            r >= 0,
    ;
    assert(ka >= km) by (nonlinear_arith)
        requires
            ka * d >= km * d,
            d > 0,
    ;
    assert(r == (ka - km) * d) by (nonlinear_arith)
        requires
            ka * d == (q as nat) * b + r,
            km * d == (q as nat) * b,
            ka >= km,
    ;
    assert(r == ((ka - km) as nat) * d);
}

/// The greatest common divisor of two numbers, not both zero, is positive and
/// divides both.
pub proof fn lemma_gcd_divides(a: nat, b: nat)
    requires
        a > 0 || b > 0,
    ensures
        gcd_of(a, b) >= 1,
        divides(gcd_of(a, b), a),
        divides(gcd_of(a, b), b),
    decreases b,
{
    if b == 0 {
        assert(a == 1 * a);
        assert(0 == 0 * a);
    } else {
        let r = a % b;
        vstd::arithmetic::div_mod::lemma_mod_division_less_than_divisor(a as int, b as int);
        lemma_gcd_divides(b, r);
        let g = gcd_of(b, r);
        lemma_fundamental_div_mod(a as int, b as int);
        let q = a as int / b as int;
        assert(q >= 0) by (nonlinear_arith)
            requires
                a >= 0,
                b > 0,
                q == a as int / b as int,
        ;
        lemma_divides_mul(g, q as nat, b);
        assert((q as nat) * b + r == a) by (nonlinear_arith)
            requires
                a as int == b as int * q + r,
                q >= 0,
        ;
        lemma_divides_add(g, (q as nat) * b, r);
    }
}

/// Every common divisor of `a` and `b` divides their greatest common divisor.
pub proof fn lemma_gcd_greatest(a: nat, b: nat, d: nat)
    requires
        d >= 1,
        divides(d, a),
        divides(d, b),
    ensures
        divides(d, gcd_of(a, b)),
    decreases b,
{
    if b == 0 {
    } else {
        lemma_divides_mod(d, a, b);
        lemma_gcd_greatest(b, a % b, d);
    }
}

/// Two positive numbers that divide each other are equal.
pub proof fn lemma_divides_antisymmetric(x: nat, y: nat)
    requires
        x >= 1,
        y >= 1,
        divides(x, y),
        divides(y, x),
    ensures
        x == y,
{
    let k = choose|k: nat| y == #[trigger] (k * x);
    let m = choose|k: nat| x == #[trigger] (k * y);
    assert(x == y) by (nonlinear_arith)
        requires
            y == k * x,
            x == m * y,
            x >= 1,
            y >= 1,
    ;
}

/// The greatest common divisor is the one positive common divisor that every
/// common divisor divides.
pub proof fn lemma_gcd_unique(a: nat, b: nat, g: nat)
    requires
        a > 0 || b > 0,
        g >= 1,
        divides(g, a),
        divides(g, b),
        forall|d: nat| 1 <= d && divides(d, a) && divides(d, b) ==> #[trigger] divides(d, g),
    ensures
        g == gcd_of(a, b),
{
    lemma_gcd_divides(a, b);
    let gg = gcd_of(a, b);
    assert(divides(gg, g));
    lemma_gcd_greatest(a, b, g);
    lemma_divides_antisymmetric(g, gg);
}

/// Dividing out a divisor is exact.
pub proof fn lemma_div_exact(d: nat, n: nat)
    requires
        d > 0,
        divides(d, n),
    ensures
        n == (n / d) * d,
        n / d == choose|k: nat| n == #[trigger] (k * d),
{
    lemma_divides_to_mod(d, n);
    lemma_fundamental_div_mod(n as int, d as int);
    let k = choose|k: nat| n == #[trigger] (k * d);
    assert(n / d == k) by (nonlinear_arith)
        requires
            n == k * d,
            n == (n / d) * d,
            d > 0,
    ;
}

/// After dividing two numbers by their greatest common divisor, the results
/// are coprime.
pub proof fn lemma_gcd_reduced_coprime(a: nat, b: nat)
    requires
        a > 0 || b > 0,
    ensures
        gcd_of(a / gcd_of(a, b), b / gcd_of(a, b)) == 1,
{
    let g = gcd_of(a, b);
    lemma_gcd_divides(a, b);
    lemma_div_exact(g, a);
    lemma_div_exact(g, b);
    let ar = a / g;
    let br = b / g;
    assert(ar > 0 || br > 0) by (nonlinear_arith)
        requires
            a == ar * g,
            b == br * g,
            a > 0 || b > 0,
    ;
    lemma_gcd_divides(ar, br);
    let h = gcd_of(ar, br);
    // h divides ar and br, so h*g divides a and b, so h*g divides g; hence h == 1.
    let ka = choose|k: nat| ar == #[trigger] (k * h);
    let kb = choose|k: nat| br == #[trigger] (k * h);
    assert(a == ka * (h * g)) by (nonlinear_arith)
        requires
            a == ar * g,
            ar == ka * h,
    ;
    assert(b == kb * (h * g)) by (nonlinear_arith)
        requires
            b == br * g,
            br == kb * h,
    ;
    assert(divides(h * g, a));
    assert(divides(h * g, b));
    assert(h * g >= 1) by (nonlinear_arith)
        requires
            h >= 1,
            g >= 1,
    ;
    lemma_gcd_greatest(a, b, h * g);
    let m = choose|k: nat| g == #[trigger] (k * (h * g));
    assert(h == 1) by (nonlinear_arith)
        requires
            g == m * (h * g),
            g >= 1,
            h >= 1,
    ;
}


/// Every positive common divisor of `u` and `v` divides `r`.
pub open spec fn common_divisors_divide(u: u128, v: u128, r: u128) -> bool {
    forall|d: u128| 1 <= d && #[trigger] (u % d) == 0 && v % d == 0 ==> r % d == 0
}

/// Relies on the binary greatest-common-divisor routine of the `gcd` crate:
/// the result divides both arguments, every common divisor divides it, and it
/// is zero exactly when both arguments are.
pub assume_specification[ gcd::binary_u128 ](u: u128, v: u128) -> (r: u128)
    ensures
        (u == 0 && v == 0) ==> r == 0,
        (u != 0 || v != 0) ==> 1 <= r && u % r == 0 && v % r == 0,
        (u != 0 || v != 0) ==> common_divisors_divide(u, v, r),
;

/// The result of the outside binary-gcd routine is exactly the greatest
/// common divisor, whenever at least one argument is positive.
pub proof fn lemma_binary_gcd_result(u: u128, v: u128, r: u128)
    requires
        u > 0 || v > 0,
        1 <= r,
        u % r == 0,
        v % r == 0,
        common_divisors_divide(u, v, r),
    ensures
        r as nat == gcd_of(u as nat, v as nat),
{
    lemma_mod_to_divides(r as nat, u as nat);
    lemma_mod_to_divides(r as nat, v as nat);
    assert forall|d: nat|
        1 <= d && divides(d, u as nat) && divides(d, v as nat) implies #[trigger] divides(
        d,
        r as nat,
    ) by {
        // d divides a positive argument, so d fits in the argument's type.
        if u > 0 {
            let k = choose|k: nat| u as nat == #[trigger] (k * d);
            assert(d <= u) by (nonlinear_arith)
                requires
                    u as nat == k * d,
                    u > 0,
            ;
        } else {
            let k = choose|k: nat| v as nat == #[trigger] (k * d);
            assert(d <= v) by (nonlinear_arith)
                requires
                    v as nat == k * d,
                    v > 0,
            ;
        }
        let du = d as u128;
        lemma_divides_to_mod(d, u as nat);
        lemma_divides_to_mod(d, v as nat);
        assert(u % du == 0 && v % du == 0);
        assert(r % du == 0);
        lemma_mod_to_divides(d, r as nat);
    }
    lemma_gcd_unique(u as nat, v as nat, r as nat);
}

} // verus!
