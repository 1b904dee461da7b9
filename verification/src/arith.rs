//! Small verified arithmetic helpers shared by the boot-sector codec and the
//! geometry engine: power-of-two tests and exact base-two logarithms.

use vstd::prelude::*;

verus! {

use vstd::arithmetic::power2::{pow2, is_pow2, is_pow2_exists, lemma_pow2, lemma_pow2_unfold,
    lemma_pow2_strictly_increases, lemma2_to64, lemma2_to64_rest, is_pow2_equiv};
use vstd::arithmetic::power::pow;

/// `is_pow2` (vstd) holds of every value `pow2(k)`.
proof fn lemma_is_pow2_witness(k: nat)
    ensures
        is_pow2(pow2(k) as int),
{
    lemma_pow2(k);
    assert(pow(2, k) == pow2(k) as int);
    assert(is_pow2_exists(pow2(k) as int));
    is_pow2_equiv(pow2(k) as int);
}

/// A power of two is positive, and is `pow2` of some exponent.
pub proof fn lemma_pow2_from_is_pow2(x: int) -> (k: nat)
    requires
        is_pow2(x),
    ensures
        pow2(k) == x,
        x >= 1,
{
    is_pow2_equiv(x);
    let i = choose|i: nat| pow(2, i) == x;
    lemma_pow2(i);
    assert(pow2(i) == x);
    assert(x >= 1) by {
        vstd::arithmetic::power2::lemma_pow2_pos(i);
    }
    i
}

/// A product of two powers of two is a power of two.
pub proof fn lemma_pow2_mul(a: int, b: int)
    requires
        is_pow2(a),
        is_pow2(b),
    ensures
        is_pow2(a * b),
{
    let i = lemma_pow2_from_is_pow2(a);
    let j = lemma_pow2_from_is_pow2(b);
    vstd::arithmetic::power2::lemma_pow2_adds(i, j);
    assert(pow2(i + j) == a * b);
    lemma_is_pow2_witness(i + j);
}

/// A power of two of at least 512, divided by 32, is a power of two, and
/// the division is exact.
pub proof fn lemma_pow2_div32(a: int)
    requires
        is_pow2(a),
        a >= 512,
    ensures
        is_pow2(a / 32),
        (a / 32) * 32 == a,
{
    let k = lemma_pow2_from_is_pow2(a);
    assert(k >= 9) by {
        if k < 9 {
            lemma_pow2_strictly_increases(k, 9);
            assert(pow2(9) == 512) by {
                lemma2_to64();
            }
        }
    }
    assert(pow2(5) == 32) by {
        lemma2_to64();
    }
    vstd::arithmetic::power2::lemma_pow2_adds((k - 5) as nat, 5);
    assert(pow2(k) == pow2((k - 5) as nat) * 32);
    assert(a / 32 == pow2((k - 5) as nat)) by {
        vstd::arithmetic::div_mod::lemma_fundamental_div_mod_converse(a, 32,
            pow2((k - 5) as nat) as int, 0);
    }
    lemma_is_pow2_witness((k - 5) as nat);
}

/// Whether `x` is a power of two, by doubling up to `x`.
pub fn is_power_of_two_u64(x: u64) -> (r: bool)
    ensures
        r <==> is_pow2(x as int),
{
    if x == 0 {
        proof {
            assert(!is_pow2(0)) by {
                reveal(vstd::arithmetic::power2::is_pow2);
            }
        }
        return false;
    }
    let mut p: u64 = 1;
    let ghost mut k: nat = 0;
    proof {
        lemma2_to64();
    }
    loop
        invariant
            1 <= p <= x,
            p == pow2(k),
            forall|j: nat| j < k ==> pow2(j) != x,
        decreases x - p,
    {
        if p == x {
            proof {
                lemma_is_pow2_witness(k);
            }
            return true;
        }
        if p > x / 2 {
            // doubling would pass x, so no power of two equals x
            proof {
                assert forall|j: nat| true implies #[trigger] pow2(j) != x by {
                    if j < k {
                    } else if j == k {
                        assert(pow2(k) == p && p != x);
                    } else {
                        lemma_pow2_unfold(j);
                        if j - 1 == k {
                            assert(pow2(j) == 2 * p > x);
                        } else {
                            lemma_pow2_strictly_increases(k, (j - 1) as nat);
                            assert(pow2(j) == 2 * pow2((j - 1) as nat) > 2 * p > x);
                        }
                    }
                }
                if is_pow2(x as int) {
                    let i = lemma_pow2_from_is_pow2(x as int);
                    assert(pow2(i) == x);
                }
            }
            return false;
        }
        p = p * 2;
        proof {
            lemma_pow2_unfold(k + 1);
            k = k + 1;
        }
    }
}

/// The exponent of a power of two: the exact base-two logarithm.
pub fn log2_of_pow2_u64(x: u64) -> (r: u64)
    requires
        is_pow2(x as int),
    ensures
        pow2(r as nat) == x,
        r < 64,
{
    proof {
        lemma2_to64();
        lemma_pow2_from_is_pow2(x as int);
    }
    let mut p: u64 = 1;
    let mut k: u64 = 0;
    loop
        invariant
            1 <= p <= x,
            p == pow2(k as nat),
            k < 64,
            is_pow2(x as int),
        decreases x - p,
    {
        if p == x {
            return k;
        }
        proof {
            // x is a power of two above pow2(k), so x >= pow2(k + 1)
            let i = lemma_pow2_from_is_pow2(x as int);
            assert(i > k as nat) by {
                if i < k as nat {
                    lemma_pow2_strictly_increases(i, k as nat);
                } else if i == k as nat {
                    assert(pow2(i) == p);
                }
            }
            assert(pow2(k as nat + 1) <= pow2(i)) by {
                if k as nat + 1 < i {
                    lemma_pow2_strictly_increases(k as nat + 1, i);
                }
            }
            lemma_pow2_unfold(k as nat + 1);
            assert(k as nat + 1 < 64) by {
                if k as nat + 1 >= 64 {
                    assert(pow2(64) <= pow2(i)) by {
                        if 64 < i {
                            lemma_pow2_strictly_increases(64, i);
                        }
                    }
                    assert(pow2(64) == 0x10000000000000000) by {
                        lemma2_to64_rest();
                    }
                }
            }
        }
        p = p * 2;
        k = k + 1;
    }
}

} // verus!
