//! Exact 128-bit proportional arithmetic.
//!
//! The claim payout is the floor of `total_deposited * burned / total_burned`
//! over the unbounded integers. The product does not fit in 128 bits, so
//! `mul_div_floor` computes the quotient by walking the bits of the middle
//! factor, keeping a partial quotient and remainder that always fit.

use vstd::prelude::*;
use vstd::arithmetic::div_mod::lemma_breakdown;
use vstd::arithmetic::div_mod::lemma_div_denominator;
use vstd::arithmetic::div_mod::lemma_div_non_zero;
use vstd::arithmetic::div_mod::lemma_fundamental_div_mod;
use vstd::arithmetic::div_mod::lemma_fundamental_div_mod_converse;
use vstd::arithmetic::div_mod::lemma_small_mod;

verus! {

/// 2 to the power `n`.
pub open spec fn pow2(n: nat) -> nat
    decreases n,
{
    if n == 0 {
        1
    } else {
        2 * pow2((n - 1) as nat)
    }
}

proof fn lemma_pow2_pos(n: nat)
    ensures
        pow2(n) >= 1,
    decreases n,
{
    if n > 0 {
        lemma_pow2_pos((n - 1) as nat);
    }
}

/// `x + y` with one reduction modulo `c`; the flag reports whether `c` was
/// subtracted.
fn add_mod(x: u128, y: u128, c: u128) -> (r: (u128, bool))
    requires
        x < c,
        y < c,
    ensures
        r.0 < c,
        x + y == r.0 + if r.1 {
            c as int
        } else {
            0
        },
{
    if y == 0 {
        (x, false)
    } else if x >= c - y {
        (x - (c - y), true)
    } else {
        (x + y, false)
    }
}

/// Floor of `a * b / c` over the unbounded integers. Because `b <= c`, the
/// quotient is at most `a` and fits in `u128` even though the product
/// `a * b` does not.
pub fn mul_div_floor(a: u128, b: u128, c: u128) -> (q: u128)
    requires
        c > 0,
        b <= c,
    ensures
        q == (a * b) / (c as int),
{
    let mut q: u128 = 0;
    let mut r: u128 = 0;
    let mut u: u128 = a / c;
    let mut v: u128 = a % c;
    let mut brem: u128 = b;
    let ghost mut j: nat = 0;
    proof {
        lemma_fundamental_div_mod(a as int, c as int);
        assert(b as int % 1int == 0) by (nonlinear_arith);
        assert(b as int / 1int == b as int) by (nonlinear_arith);
    }
    while brem > 0
        invariant
            c > 0,
            b <= c,
            v < c,
            r < c,
            brem == b as int / pow2(j) as int,
            brem > 0 ==> u * c + v == a * pow2(j),
            q * c + r == a * (b as int % pow2(j) as int),
        decreases brem,
    {
        let ghost m0 = b as int % pow2(j) as int;
        let ghost m1 = b as int % pow2(j + 1) as int;
        proof {
            lemma_pow2_pos(j);
            if b < pow2(j) {
                assert(b as int / pow2(j) as int == 0) by (nonlinear_arith)
                    requires
                        0 <= b < pow2(j),
                ;
            }
            assert(pow2(j) <= b);
            lemma_breakdown(b as int, pow2(j) as int, 2);
            assert(pow2(j + 1) == 2 * pow2(j));
            assert(pow2(j + 1) as int == pow2(j) as int * 2);
            assert(b as int % (pow2(j) as int * 2) == pow2(j) as int * ((b as int / pow2(
                j,
            ) as int) % 2) + b as int % pow2(j) as int);
            assert((b as int / pow2(j) as int) % 2 == (brem as int) % 2);
            assert(m1 == pow2(j) as int * ((brem as int) % 2) + m0);
        }
        let bit = brem % 2 == 1;
        if bit {
            let ghost q0 = q as int;
            let ghost r0 = r as int;
            proof {
                assert(m1 == m0 + pow2(j)) by (nonlinear_arith)
                    requires
                        m1 == pow2(j) as int * ((brem as int) % 2) + m0,
                        (brem as int) % 2 == 1,
                ;
                assert(m1 <= b) by (nonlinear_arith)
                    requires
                        m1 == b as int % pow2(j + 1) as int,
                        pow2(j + 1) >= 1,
                        b >= 0,
                ;
                assert((q0 + u) * c + (r0 + v) == a * m1) by (nonlinear_arith)
                    requires
                        q0 * c + r0 == a * m0,
                        u * c + v == a * pow2(j),
                        m1 == m0 + pow2(j),
                ;
                assert(q0 + u <= a) by (nonlinear_arith)
                    requires
                        (q0 + u) * c + (r0 + v) == a * m1,
                        m1 <= b,
                        b <= c,
                        r0 >= 0,
                        v >= 0,
                        a >= 0,
                        q0 >= 0,
                        u >= 0,
                        c > 0,
                ;
            }
            let (nr, carry) = add_mod(r, v, c);
            r = nr;
            q = q + u;
            if carry {
                proof {
                    assert(q + 1 <= a) by (nonlinear_arith)
                        requires
                            q == q0 + u,
                            (q0 + u) * c + (r0 + v) == a * m1,
                            r0 + v == r + c,
                            r >= 0,
                            m1 <= b,
                            b <= c,
                            a >= 0,
                            q >= 0,
                            c > 0,
                    ;
                }
                q = q + 1;
            }
            proof {
                assert(q * c + r == a * m1) by (nonlinear_arith)
                    requires
                        (q0 + u) * c + (r0 + v) == a * m1,
                        q == q0 + u + if carry {
                            1int
                        } else {
                            0
                        },
                        r0 + v == r + if carry {
                            c as int
                        } else {
                            0
                        },
                ;
            }
        } else {
            proof {
                assert(m1 == m0) by (nonlinear_arith)
                    requires
                        m1 == pow2(j) as int * ((brem as int) % 2) + m0,
                        (brem as int) % 2 == 0,
                        (brem as int) % 2 != 1,
                ;
            }
        }
        brem = brem / 2;
        proof {
            lemma_div_denominator(b as int, pow2(j) as int, 2);
            j = j + 1;
            assert(brem == b as int / pow2(j) as int);
            assert(q * c + r == a * (b as int % pow2(j) as int));
        }
        if brem > 0 {
            proof {
                lemma_pow2_pos(j);
                if b < pow2(j) {
                    assert(b as int / pow2(j) as int == 0) by (nonlinear_arith)
                        requires
                            0 <= b < pow2(j),
                    ;
                }
                assert(pow2(j) <= b);
            }
            let ghost u0 = u as int;
            let ghost v0 = v as int;
            proof {
                assert((u0 + u0) * c + (v0 + v0) == a * pow2(j)) by (nonlinear_arith)
                    requires
                        u0 * c + v0 == a * pow2((j - 1) as nat),
                        pow2(j) == 2 * pow2((j - 1) as nat),
                ;
                assert(u0 + u0 <= a) by (nonlinear_arith)
                    requires
                        (u0 + u0) * c + (v0 + v0) == a * pow2(j),
                        pow2(j) <= b,
                        b <= c,
                        v0 >= 0,
                        u0 >= 0,
                        a >= 0,
                        c > 0,
                ;
            }
            let (nv, carryv) = add_mod(v, v, c);
            v = nv;
            u = u + u;
            if carryv {
                proof {
                    assert(u + 1 <= a) by (nonlinear_arith)
                        requires
                            u == u0 + u0,
                            (u0 + u0) * c + (v0 + v0) == a * pow2(j),
                            v0 + v0 == v + c,
                            v >= 0,
                            pow2(j) <= b,
                            b <= c,
                            a >= 0,
                            u >= 0,
                            c > 0,
                    ;
                }
                u = u + 1;
            }
            proof {
                assert(u * c + v == a * pow2(j)) by (nonlinear_arith)
                    requires
                        (u0 + u0) * c + (v0 + v0) == a * pow2(j),
                        u == u0 + u0 + if carryv {
                            1int
                        } else {
                            0
                        },
                        v0 + v0 == v + if carryv {
                            c as int
                        } else {
                            0
                        },
                ;
            }
        }
    }
    proof {
        lemma_pow2_pos(j);
        if b >= pow2(j) {
            lemma_div_non_zero(b as int, pow2(j) as int);
        }
        lemma_small_mod(b as nat, pow2(j));
        lemma_fundamental_div_mod_converse((a * b) as int, c as int, q as int, r as int);
    }
    q
}

} // verus!
