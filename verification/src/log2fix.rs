//! A base-2 logarithm over the integers, with sixteen fractional bits.
//!
//! The integer part is the exact floor of the logarithm.  The fractional
//! bits come from the classic normalize-and-square method on a 64-bit
//! mantissa: each squaring doubles the exponent, and whether the square
//! crosses two yields one more bit.  The squares are truncated back to 64
//! bits, so the fractional part is a deterministic approximation; the spec
//! functions below pin down its exact value.

use vstd::prelude::*;

verus! {

use vstd::arithmetic::power2::{pow2, lemma_pow2_adds, lemma_pow2_pos, lemma2_to64, lemma2_to64_rest};
use vstd::arithmetic::div_mod::{lemma_div_is_ordered, lemma_div_by_multiple, lemma_multiply_divide_lt};

/// The floor of the base-2 logarithm.
pub open spec fn log2_floor(v: nat) -> nat
    decreases v,
{
    if v < 2 {
        0
    } else {
        1 + log2_floor(v / 2)
    }
}

/// The mantissa of `v`, normalized into `[2^62, 2^63)`: shifted left
/// exactly when the exponent is small, truncated right otherwise.
pub open spec fn norm_mant(v: nat) -> nat {
    let e = log2_floor(v);
    if e >= 62 {
        v / pow2((e - 62) as nat)
    } else {
        v * pow2((62 - e) as nat)
    }
}

/// The first `k` fractional bits of the base-2 logarithm of
/// `mant / 2^62`, most significant first, produced by squaring the
/// mantissa and truncating it back into `[2^62, 2^63)` at each step.
pub open spec fn frac_steps(mant: nat, k: nat) -> nat
    decreases k,
{
    if k == 0 {
        0
    } else {
        let p = mant * mant;
        if p >= pow2(125) {
            pow2((k - 1) as nat) + frac_steps(p / pow2(63), (k - 1) as nat)
        } else {
            frac_steps(p / pow2(62), (k - 1) as nat)
        }
    }
}

/// The fixed-point logarithm: the floor in the high bits, sixteen
/// fractional bits below.
pub open spec fn log2_fix16_spec(v: nat) -> nat {
    log2_floor(v) * 0x1_0000 + frac_steps(norm_mant(v), 16)
}

/// The powers of two past the 64-bit range that the proofs below lean on.
proof fn lemma_pow2_high()
    ensures
        pow2(62) == 0x4000_0000_0000_0000,
        pow2(63) == 0x8000_0000_0000_0000,
        pow2(64) == 0x1_0000_0000_0000_0000,
        pow2(124) == pow2(62) * pow2(62),
        pow2(125) == pow2(62) * pow2(63),
        pow2(126) == pow2(63) * pow2(63),
        pow2(125) == 0x2000_0000_0000_0000_0000_0000_0000_0000,
        pow2(126) == 0x4000_0000_0000_0000_0000_0000_0000_0000,
        pow2(127) == 0x8000_0000_0000_0000_0000_0000_0000_0000,
        pow2(128) == 0x1_0000_0000_0000_0000_0000_0000_0000_0000,
{
    lemma2_to64();
    lemma2_to64_rest();
    lemma_pow2_adds(62, 62);
    lemma_pow2_adds(62, 63);
    lemma_pow2_adds(63, 63);
    lemma_pow2_adds(64, 64);
    lemma_pow2_adds(64, 61);
    lemma_pow2_adds(64, 62);
    lemma_pow2_adds(64, 63);
}

/// The floor of the logarithm is at least `k` exactly on values of at
/// least `2^k`.
pub proof fn lemma_log2_floor_ge(v: nat, k: nat)
    requires
        pow2(k) <= v,
    ensures
        log2_floor(v) >= k,
    decreases k,
{
    if k > 0 {
        assert(pow2(k) == 2 * pow2((k - 1) as nat)) by {
            lemma_pow2_adds((k - 1) as nat, 1);
            lemma2_to64();
        };
        lemma_pow2_pos((k - 1) as nat);
        assert(v >= 2);
        assert(v / 2 >= pow2((k - 1) as nat)) by (nonlinear_arith)
            requires
                v >= 2 * pow2((k - 1) as nat),
                pow2((k - 1) as nat) >= 1,
        ;
        lemma_log2_floor_ge(v / 2, (k - 1) as nat);
    }
}

/// The floor of the logarithm stays under `k` on values under `2^k`.
pub proof fn lemma_log2_floor_lt(v: nat, k: nat)
    requires
        v < pow2(k),
        k >= 1,
    ensures
        log2_floor(v) < k,
    decreases k,
{
    if v >= 2 {
        assert(pow2(k) == 2 * pow2((k - 1) as nat)) by {
            lemma_pow2_adds((k - 1) as nat, 1);
            lemma2_to64();
        };
        if k == 1 {
            assert(pow2(1) == 2) by { lemma2_to64(); };
            assert(false);
        } else {
            assert(2 * (v / 2) <= v) by (nonlinear_arith)
                requires
                    v >= 2,
            ;
            assert(v / 2 < pow2((k - 1) as nat)) by (nonlinear_arith)
                requires
                    2 * (v / 2) <= v,
                    v < 2 * pow2((k - 1) as nat),
            ;
            lemma_log2_floor_lt(v / 2, (k - 1) as nat);
        }
    }
}

/// The exact floor of the base-2 logarithm of a 128-bit value.
pub fn log2_floor_u128(v: u128) -> (e: u32)
    requires
        v >= 1,
    ensures
        e == log2_floor(v as nat),
        e <= 127,
        pow2(e as nat) <= v < pow2((e + 1) as nat),
{
    let mut e: u32 = 0;
    let mut t: u128 = v;
    proof {
        lemma2_to64();
    }
    while t >= 2
        invariant
            1 <= t,
            pow2(e as nat) * t <= v as nat,
            (v as nat) < pow2(e as nat) * ((t + 1) as nat),
            log2_floor(v as nat) == e + log2_floor(t as nat),
            e <= 127,
        decreases t,
    {
        proof {
            lemma_pow2_pos(e as nat);
            lemma_pow2_high();
            assert(pow2((e + 1) as nat) == pow2(e as nat) * 2) by {
                lemma_pow2_adds(e as nat, 1);
                lemma2_to64();
            };
            if e == 127 {
                // two more halves would not fit in 128 bits
                assert(pow2(127) * t >= pow2(127) * 2) by (nonlinear_arith)
                    requires
                        t >= 2,
                        pow2(127) >= 1,
                ;
                assert(pow2(127) * 2 == pow2(128)) by {
                    lemma_pow2_adds(127, 1);
                };
                assert(false);
            }
            assert(t as nat == 2 * ((t as nat) / 2) + (t as nat) % 2) by {
                vstd::arithmetic::div_mod::lemma_fundamental_div_mod(t as int, 2);
            };
            assert(pow2((e + 1) as nat) * ((t as nat) / 2) <= v as nat) by (nonlinear_arith)
                requires
                    pow2((e + 1) as nat) == pow2(e as nat) * 2,
                    t as nat == 2 * ((t as nat) / 2) + (t as nat) % 2,
                    (t as nat) % 2 >= 0,
                    pow2(e as nat) >= 1,
                    pow2(e as nat) * t <= v as nat,
            ;
            assert((v as nat) < pow2((e + 1) as nat) * (((t as nat) / 2) + 1)) by (nonlinear_arith)
                requires
                    pow2((e + 1) as nat) == pow2(e as nat) * 2,
                    t as nat == 2 * ((t as nat) / 2) + (t as nat) % 2,
                    (t as nat) % 2 < 2,
                    pow2(e as nat) >= 1,
                    (v as nat) < pow2(e as nat) * ((t + 1) as nat),
            ;
        }
        t = t / 2;
        e = e + 1;
    }
    proof {
        assert(t == 1);
        lemma_pow2_pos(e as nat);
        assert(pow2((e + 1) as nat) == pow2(e as nat) * 2) by {
            lemma_pow2_adds(e as nat, 1);
            lemma2_to64();
        };
    }
    e
}

/// `2^k` as a 128-bit value.
pub fn pow2_u128(k: u32) -> (r: u128)
    requires
        k <= 127,
    ensures
        r == pow2(k as nat),
{
    let mut r: u128 = 1;
    let mut i: u32 = 0;
    proof {
        lemma2_to64();
    }
    while i < k
        invariant
            i <= k <= 127,
            r == pow2(i as nat),
        decreases k - i,
    {
        proof {
            lemma_pow2_high();
            assert(pow2((i + 1) as nat) == pow2(i as nat) * 2) by {
                lemma_pow2_adds(i as nat, 1);
                lemma2_to64();
            };
            if i + 1 < 127 {
                vstd::arithmetic::power2::lemma_pow2_strictly_increases((i + 1) as nat, 127);
            }
        }
        r = r * 2;
        i = i + 1;
    }
    r
}

/// The normalized 64-bit mantissa of `v`, given its exponent.
fn norm_mant_u64(v: u128, e: u32) -> (m: u64)
    requires
        e == log2_floor(v as nat),
        e <= 127,
        pow2(e as nat) <= v < pow2((e + 1) as nat),
    ensures
        m == norm_mant(v as nat),
        pow2(62) <= m < pow2(63),
{
    proof {
        lemma_pow2_high();
    }
    if e >= 62 {
        let d = pow2_u128(e - 62);
        proof {
            lemma_pow2_pos((e - 62) as nat);
            assert(pow2(e as nat) == pow2(62) * pow2((e - 62) as nat)) by {
                lemma_pow2_adds(62, (e - 62) as nat);
            };
            assert(pow2((e + 1) as nat) == pow2((e - 62) as nat) * pow2(63)) by {
                lemma_pow2_adds(63, (e - 62) as nat);
            };
            // lower bound: v / 2^(e-62) >= 2^62
            lemma_div_is_ordered(
                (pow2(62) * pow2((e - 62) as nat)) as int,
                v as int,
                pow2((e - 62) as nat) as int,
            );
            assert(pow2(62) * pow2((e - 62) as nat) == pow2((e - 62) as nat) * pow2(62)) by (nonlinear_arith);
            lemma_div_by_multiple(pow2(62) as int, pow2((e - 62) as nat) as int);
            // upper bound: v / 2^(e-62) < 2^63
            lemma_multiply_divide_lt(v as int, pow2((e - 62) as nat) as int, pow2(63) as int);
        }
        (v / d) as u64
    } else {
        let m = pow2_u128(62 - e);
        proof {
            lemma_pow2_pos((62 - e) as nat);
            assert(pow2(62) == pow2(e as nat) * pow2((62 - e) as nat)) by {
                lemma_pow2_adds(e as nat, (62 - e) as nat);
            };
            assert(pow2(63) == pow2((e + 1) as nat) * pow2((62 - e) as nat)) by {
                lemma_pow2_adds((e + 1) as nat, (62 - e) as nat);
            };
            assert((v as nat) * pow2((62 - e) as nat) >= pow2(e as nat) * pow2((62 - e) as nat)) by (nonlinear_arith)
                requires
                    v as nat >= pow2(e as nat),
                    pow2((62 - e) as nat) >= 1,
            ;
            assert((v as nat) * pow2((62 - e) as nat) < pow2((e + 1) as nat) * pow2((62 - e) as nat)) by (nonlinear_arith)
                requires
                    (v as nat) < pow2((e + 1) as nat),
                    pow2((62 - e) as nat) >= 1,
            ;
        }
        (v * m) as u64
    }
}

/// The sixteen fractional bits for a normalized mantissa.
fn log2_frac16(mant0: u64) -> (f: u64)
    requires
        pow2(62) <= mant0 < pow2(63),
    ensures
        f == frac_steps(mant0 as nat, 16),
        f < 0x1_0000,
{
    let mut mant: u64 = mant0;
    let mut f: u64 = 0;
    let mut k: u32 = 16;
    proof {
        lemma2_to64();
        assert(pow2(0) == 1 && pow2(16) == 0x1_0000) by { lemma2_to64(); };
    }
    while k > 0
        invariant
            k <= 16,
            pow2(62) <= mant < pow2(63),
            f < pow2((16 - k) as nat),
            frac_steps(mant0 as nat, 16) == f * pow2(k as nat) + frac_steps(mant as nat, k as nat),
        decreases k,
    {
        let ghost mant_pre = mant as nat;
        proof {
            lemma_pow2_high();
            assert(pow2(124) <= (mant as nat) * (mant as nat) < pow2(126)) by (nonlinear_arith)
                requires
                    pow2(62) <= mant < pow2(63),
                    pow2(124) == pow2(62) * pow2(62),
                    pow2(126) == pow2(63) * pow2(63),
            ;
        }
        let p: u128 = (mant as u128) * (mant as u128);
        let bit: u64 = if p >= 0x2000_0000_0000_0000_0000_0000_0000_0000 {
            proof {
                lemma_pow2_high();
                lemma_pow2_pos(63);
                lemma_div_is_ordered(pow2(125) as int, p as int, pow2(63) as int);
                lemma_div_by_multiple(pow2(62) as int, pow2(63) as int);
                lemma_multiply_divide_lt(p as int, pow2(63) as int, pow2(63) as int);
            }
            mant = (p / 0x8000_0000_0000_0000) as u64;
            1
        } else {
            proof {
                lemma_pow2_high();
                lemma_pow2_pos(62);
                lemma_div_is_ordered(pow2(124) as int, p as int, pow2(62) as int);
                lemma_div_by_multiple(pow2(62) as int, pow2(62) as int);
                lemma_multiply_divide_lt(p as int, pow2(62) as int, pow2(63) as int);
            }
            mant = (p / 0x4000_0000_0000_0000) as u64;
            0
        };
        proof {
            lemma_pow2_high();
            assert(frac_steps(mant_pre, k as nat)
                == bit * pow2((k - 1) as nat) + frac_steps(mant as nat, (k - 1) as nat));
            assert(pow2(k as nat) == 2 * pow2((k - 1) as nat)) by {
                lemma_pow2_adds((k - 1) as nat, 1);
                lemma2_to64();
            };
            assert(pow2(((16 - k) + 1) as nat) == 2 * pow2((16 - k) as nat)) by {
                lemma_pow2_adds((16 - k) as nat, 1);
                lemma2_to64();
            };
            assert(pow2(15) == 0x8000) by { lemma2_to64(); };
            assert(pow2((16 - k) as nat) <= pow2(15)) by {
                if 16 - k < 15 {
                    vstd::arithmetic::power2::lemma_pow2_strictly_increases((16 - k) as nat, 15);
                }
            };
            assert((f * 2 + bit) * pow2((k - 1) as nat) == f * (2 * pow2((k - 1) as nat)) + bit * pow2((k - 1) as nat)) by (nonlinear_arith);
        }
        f = f * 2 + bit;
        k = k - 1;
    }
    proof {
        assert(pow2(0) == 1 && pow2(16) == 0x1_0000) by { lemma2_to64(); };
        assert(frac_steps(mant as nat, 0) == 0);
        assert(frac_steps(mant0 as nat, 16) == f * pow2(0) + frac_steps(mant as nat, 0));
        assert(f * pow2(0) == f) by (nonlinear_arith)
            requires
                pow2(0) == 1,
        ;
    }
    f
}

/// The fixed-point base-2 logarithm: the exact floor in the high bits and
/// sixteen fractional bits below.
pub fn log2_fix16(v: u128) -> (r: u64)
    requires
        v >= 1,
    ensures
        r == log2_fix16_spec(v as nat),
        r < 0x80_0000,
{
    let e = log2_floor_u128(v);
    let m = norm_mant_u64(v, e);
    let f = log2_frac16(m);
    (e as u64) * 0x1_0000 + f
}

} // verus!
