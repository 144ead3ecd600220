//! Fractions in lowest terms.

use vstd::prelude::*;

verus! {

/// The greatest common divisor, by Euclid's rule.
pub open spec fn gcd(a: nat, b: nat) -> nat
    decreases b,
{
    if b == 0 {
        a
    } else {
        gcd(b, a % b)
    }
}

pub open spec fn magnitude(n: int) -> nat {
    if n >= 0 {
        n as nat
    } else {
        (-n) as nat
    }
}

/// A fraction in lowest terms, with its sign on the numerator.
pub open spec fn reduced(numerator: int, denominator: int) -> (int, int) {
    let g = gcd(magnitude(numerator), magnitude(denominator)) as int;
    let n = magnitude(numerator) as int / g;
    let d = magnitude(denominator) as int / g;
    if (numerator >= 0) == (denominator >= 0) {
        (n, d)
    } else {
        (-n, d)
    }
}

/// The fraction has a denominator, and its lowest terms fit in 32 bits.
pub open spec fn can_reduce(numerator: int, denominator: int) -> bool {
    let (n, d) = reduced(numerator, denominator);
    denominator != 0 && i32::MIN <= n <= i32::MAX && i32::MIN <= d <= i32::MAX
}

proof fn gcd_divides(a: nat, b: nat)
    requires
        a > 0 || b > 0,
    ensures
        gcd(a, b) > 0,
        a % gcd(a, b) == 0,
        b % gcd(a, b) == 0,
    decreases b,
{
    if b == 0 {
        assert(a % a == 0) by {
            vstd::arithmetic::div_mod::lemma_mod_self_0(a as int);
        }
        assert(0nat % a == 0);
    } else {
        gcd_divides(b, a % b);
        let g = gcd(b, a % b) as int;
        let q = a as int / b as int;
        let r = a as int % b as int;
        vstd::arithmetic::div_mod::lemma_fundamental_div_mod(a as int, b as int);
        vstd::arithmetic::div_mod::lemma_fundamental_div_mod(b as int, g);
        vstd::arithmetic::div_mod::lemma_fundamental_div_mod(r, g);
        let x = b as int / g;
        let y = r / g;
        assert(a as int == g * (x * q + y)) by (nonlinear_arith)
            requires
                a as int == b as int * q + r,
                b as int == g * x + 0,
                r == g * y + 0,
        ;
        vstd::arithmetic::div_mod::lemma_mod_multiples_basic(x * q + y, g);
        vstd::arithmetic::mul::lemma_mul_is_commutative(g, x * q + y);
    }
}

fn common_divisor(a: u64, b: u64) -> (g: u64)
    ensures
        g == gcd(a as nat, b as nat),
    decreases b,
{
    if b == 0 {
        a
    } else {
        common_divisor(b, a % b)
    }
}

/// The lowest terms of a fraction, where they fit.
fn lowest_terms(numerator: i32, denominator: i32) -> (r: (i64, i64))
    requires
        denominator != 0,
    ensures
        (r.0 as int, r.1 as int) == reduced(numerator as int, denominator as int),
        r.1 > 0,
{
    let wide_n: i64 = numerator as i64;
    let wide_d: i64 = denominator as i64;
    let size_n: i64 = if wide_n >= 0 {
        wide_n
    } else {
        -wide_n
    };
    let size_d: i64 = if wide_d >= 0 {
        wide_d
    } else {
        -wide_d
    };
    let g: u64 = common_divisor(size_n as u64, size_d as u64);
    proof {
        gcd_divides(size_n as nat, size_d as nat);
        let gi = g as int;
        vstd::arithmetic::div_mod::lemma_fundamental_div_mod(size_d as int, gi);
        vstd::arithmetic::div_mod::lemma_fundamental_div_mod(size_n as int, gi);
        let q = size_d as int / gi;
        assert(0 < q <= size_d) by (nonlinear_arith)
            requires
                size_d as int == gi * q,
                size_d > 0,
                gi > 0,
        ;
        let p = size_n as int / gi;
        assert(0 <= p <= size_n) by (nonlinear_arith)
            requires
                size_n as int == gi * p,
                size_n >= 0,
                gi > 0,
        ;
    }
    let n: i64 = (size_n as u64 / g) as i64;
    let d: i64 = (size_d as u64 / g) as i64;
    if (numerator >= 0) == (denominator >= 0) {
        (n, d)
    } else {
        (-n, d)
    }
}

/// Whether the lowest terms of a fraction fit in 32 bits.
pub fn fraction_in_range(numerator: i32, denominator: i32) -> (r: bool)
    ensures
        r == can_reduce(numerator as int, denominator as int),
{
    if denominator == 0 {
        return false;
    }
    let (n, d): (i64, i64) = lowest_terms(numerator, denominator);
    i32::MIN as i64 <= n && n <= i32::MAX as i64 && d <= i32::MAX as i64
}

/// A fraction in lowest terms, with its sign on the numerator.
pub fn reduce(numerator: i32, denominator: i32) -> (r: (i32, i32))
    requires
        can_reduce(numerator as int, denominator as int),
    ensures
        (r.0 as int, r.1 as int) == reduced(numerator as int, denominator as int),
{
    let (n, d): (i64, i64) = lowest_terms(numerator, denominator);
    (n as i32, d as i32)
}

/// A fraction in lowest terms stays as it is.
pub proof fn reduced_is_fixed(numerator: int, denominator: int)
    requires
        denominator > 0,
        gcd(magnitude(numerator), magnitude(denominator)) == 1,
    ensures
        reduced(numerator, denominator) == (numerator, denominator),
{
}

/// Reducing keeps the value: the two fractions are equal, crosswise, and the denominator comes
/// out positive.
pub proof fn reducing_keeps_the_value(numerator: int, denominator: int)
    requires
        denominator != 0,
    ensures
        ({
            let (n, d) = reduced(numerator, denominator);
            &&& d > 0
            &&& n * denominator == numerator * d
            &&& magnitude(n) <= magnitude(numerator)
            &&& d <= magnitude(denominator)
        }),
{
    let p = magnitude(numerator);
    let q = magnitude(denominator);
    gcd_divides(p, q);
    let g = gcd(p, q) as int;
    let x = p as int / g;
    let y = q as int / g;
    vstd::arithmetic::div_mod::lemma_fundamental_div_mod(p as int, g);
    vstd::arithmetic::div_mod::lemma_fundamental_div_mod(q as int, g);
    assert(p == g * x && q == g * y);
    assert(y > 0 && 0 <= x && x <= p && y <= q) by (nonlinear_arith)
        requires
            p == g * x,
            q == g * y,
            g > 0,
            q > 0,
            p >= 0,
    ;
    assert(x * q == p * y) by (nonlinear_arith)
        requires
            p == g * x,
            q == g * y,
    ;
    let (n, d) = reduced(numerator, denominator);
    assert(x == 0 ==> p == 0) by (nonlinear_arith)
        requires
            p == g * x,
    ;
    assert(n * denominator == numerator * d) by (nonlinear_arith)
        requires
            x * q == p * y,
            d == y,
            n == x || n == -x,
            (n == x) == ((numerator >= 0) == (denominator >= 0)) || x == 0,
            p == if numerator >= 0 {
                numerator
            } else {
                -numerator
            },
            q == if denominator >= 0 {
                denominator
            } else {
                -denominator
            },
            x == 0 ==> p == 0,
    ;
}

/// Every common divisor divides the greatest one.
proof fn gcd_is_greatest(a: nat, b: nat, k: nat)
    requires
        k > 0,
        a % k == 0,
        b % k == 0,
    ensures
        gcd(a, b) % k == 0,
    decreases b,
{
    if b > 0 {
        let (ai, bi, ki) = (a as int, b as int, k as int);
        let q = ai / bi;
        let r = ai % bi;
        vstd::arithmetic::div_mod::lemma_fundamental_div_mod(ai, bi);
        vstd::arithmetic::div_mod::lemma_fundamental_div_mod(ai, ki);
        vstd::arithmetic::div_mod::lemma_fundamental_div_mod(bi, ki);
        let x = ai / ki;
        let y = bi / ki;
        assert(r == ki * (x - y * q)) by (nonlinear_arith)
            requires
                ai == bi * q + r,
                ai == ki * x,
                bi == ki * y,
        ;
        vstd::arithmetic::div_mod::lemma_mod_multiples_basic(x - y * q, ki);
        vstd::arithmetic::mul::lemma_mul_is_commutative(ki, x - y * q);
        gcd_is_greatest(b, (a % b) as nat, k);
    }
}

/// Lowest terms are lowest: numerator and denominator have no common divisor but 1.
pub proof fn reduced_terms_are_lowest(numerator: int, denominator: int, k: nat)
    requires
        denominator != 0,
        k > 0,
        ({
            let (n, d) = reduced(numerator, denominator);
            magnitude(n) % k == 0 && magnitude(d) % k == 0
        }),
    ensures
        k == 1,
{
    let p = magnitude(numerator);
    let q = magnitude(denominator);
    gcd_divides(p, q);
    let g = gcd(p, q) as int;
    let ki = k as int;
    let x = p as int / g;
    let y = q as int / g;
    vstd::arithmetic::div_mod::lemma_fundamental_div_mod(p as int, g);
    vstd::arithmetic::div_mod::lemma_fundamental_div_mod(q as int, g);
    reducing_keeps_the_value(numerator, denominator);
    vstd::arithmetic::div_mod::lemma_div_pos_is_pos(p as int, g);
    vstd::arithmetic::div_mod::lemma_div_pos_is_pos(q as int, g);
    assert(x % ki == 0 && y % ki == 0);
    vstd::arithmetic::div_mod::lemma_fundamental_div_mod(x, ki);
    vstd::arithmetic::div_mod::lemma_fundamental_div_mod(y, ki);
    let (u, v) = (x / ki, y / ki);
    let big = g * ki;
    assert(p == u * big && q == v * big && big > 0) by (nonlinear_arith)
        requires
            p == g * x,
            q == g * y,
            x == ki * u,
            y == ki * v,
            big == g * ki,
            g > 0,
            ki > 0,
    ;
    vstd::arithmetic::div_mod::lemma_mod_multiples_basic(u, big);
    vstd::arithmetic::div_mod::lemma_mod_multiples_basic(v, big);
    gcd_is_greatest(p, q, big as nat);
    vstd::arithmetic::div_mod::lemma_fundamental_div_mod(g, big);
    let w = g / big;
    assert(ki == 1) by (nonlinear_arith)
        requires
            g == big * w,
            big == g * ki,
            g > 0,
            ki > 0,
    ;
}

} // verus!
