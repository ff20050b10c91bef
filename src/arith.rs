use vstd::arithmetic::div_mod::lemma_fundamental_div_mod_converse;
use vstd::prelude::*;

verus! {

/// Floor division of a signed value by a positive one.
pub fn floor_div(a: i64, b: i64) -> (q: i64)
    requires
        b > 0,
        a > i64::MIN + b,
    ensures
        q == a / b,
{
    if a >= 0 {
        a / b
    } else {
        let n: i64 = -a;
        let t: i64 = (n + (b - 1)) / b;
        proof {
            let ti = t as int;
            let ni = n as int;
            let bi = b as int;
            assert(ti * bi <= ni + bi - 1 && ni + bi - 1 < ti * bi + bi) by (nonlinear_arith)
                requires
                    ti == (ni + bi - 1) / bi,
                    bi > 0,
                    ni + bi - 1 >= 0,
            {
                vstd::arithmetic::div_mod::lemma_fundamental_div_mod(ni + bi - 1, bi);
                vstd::arithmetic::div_mod::lemma_mod_bound(ni + bi - 1, bi);
            }
            let r = a as int - (-ti) * bi;
            assert(a as int == (-ti) * bi + r) by (nonlinear_arith)
                requires
                    r == a as int - (-ti) * bi,
            ;
            assert(0 <= r < bi) by (nonlinear_arith)
                requires
                    r == a as int - (-ti) * bi,
                    a as int == -ni,
                    ti * bi <= ni + bi - 1,
                    ni + bi - 1 < ti * bi + bi,
            ;
            lemma_fundamental_div_mod_converse(a as int, bi, -ti, r);
        }
        -t
    }
}

/// A quotient by a positive divisor is no larger in magnitude than the
/// dividend.
pub proof fn lemma_quotient_bound(a: int, b: int)
    requires
        b >= 1,
    ensures
        a >= 0 ==> 0 <= a / b <= a,
        a < 0 ==> a <= a / b < 0,
{
    vstd::arithmetic::div_mod::lemma_fundamental_div_mod(a, b);
    vstd::arithmetic::div_mod::lemma_mod_bound(a, b);
    let q = a / b;
    let r = a % b;
    assert(a >= 0 ==> 0 <= q <= a) by (nonlinear_arith)
        requires
            b >= 1,
            a == b * q + r,
            0 <= r < b,
    ;
    assert(a < 0 ==> a <= q < 0) by (nonlinear_arith)
        requires
            b >= 1,
            a == b * q + r,
            0 <= r < b,
    ;
}

} // verus!
