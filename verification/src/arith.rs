use vstd::prelude::*;

verus! {

/// Rust's integer division on signed integers: the quotient rounded toward zero,
/// written over the Euclidean `/` of spec code.
pub open spec fn trunc_div(a: int, b: int) -> int {
    if a >= 0 {
        a / b
    } else {
        -((-a) / b)
    }
}

/// Bounds on the Euclidean quotient of a non-negative numerator.
pub proof fn lemma_euclid_div_bounds(x: int, b: int)
    requires
        x >= 0,
        b != 0,
    ensures
        b > 0 ==> 0 <= x / b <= x,
        b < 0 ==> -x <= x / b <= 0,
        b == -1 ==> x / b == -x,
        b < -1 ==> -x <= 2 * (x / b),
{
    if b > 0 {
        assert(0 <= x / b <= x) by (nonlinear_arith)
            requires
                x >= 0,
                b > 0,
        ;
    } else if b == -1 {
        assert(x / b == -x) by (nonlinear_arith)
            requires
                x >= 0,
                b == -1,
        ;
    } else {
        assert(-x <= x / b <= 0) by (nonlinear_arith)
            requires
                x >= 0,
                b < 0,
        ;
        if b < -1 {
            assert(-x <= 2 * (x / b)) by (nonlinear_arith)
                requires
                    x >= 0,
                    b < -1,
            ;
        }
    }
}

/// Integer division of `i32` values rounds toward zero, as Rust's `/` does.
pub fn i32_div(a: i32, b: i32) -> (q: i32)
    requires
        b != 0,
        !(a == i32::MIN && b == -1),
    ensures
        q == trunc_div(a as int, b as int),
{
    proof {
        if a >= 0 {
            lemma_euclid_div_bounds(a as int, b as int);
        } else {
            lemma_euclid_div_bounds(-(a as int), b as int);
        }
    }
    a / b
}

/// For a positive divisor, rounding toward zero is monotone in the numerator.
pub proof fn lemma_trunc_div_monotone(a1: int, a2: int, b: int)
    requires
        a1 <= a2,
        b > 0,
    ensures
        trunc_div(a1, b) <= trunc_div(a2, b),
{
    if a1 >= 0 {
        assert(a1 / b <= a2 / b) by (nonlinear_arith)
            requires
                0 <= a1 <= a2,
                b > 0,
        ;
    } else if a2 >= 0 {
        lemma_euclid_div_bounds(-a1, b);
        lemma_euclid_div_bounds(a2, b);
    } else {
        assert((-a2) / b <= (-a1) / b) by (nonlinear_arith)
            requires
                0 <= -a2 <= -a1,
                b > 0,
        ;
    }
}

/// A multiple of the divisor divides exactly, whatever its sign.
pub proof fn lemma_trunc_div_exact(k: int, b: int)
    requires
        b != 0,
    ensures
        trunc_div(k * b, b) == k,
{
    if k * b >= 0 {
        assert((k * b) / b == k) by (nonlinear_arith)
            requires
                b != 0,
        ;
    } else {
        assert((-(k * b)) / b == -k) by (nonlinear_arith)
            requires
                b != 0,
        ;
    }
}

} // verus!
