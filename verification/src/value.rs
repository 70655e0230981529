//! The JSON-like scalar values that points carry, and integer models of the
//! IEEE-754 single-precision encoding. A float value is carried as its 32-bit
//! pattern, so all reasoning about it is plain integer arithmetic.

use vstd::prelude::*;

verus! {

use vstd::arithmetic::power2::{pow2, lemma_pow2_adds, lemma_pow2_pos, lemma_pow2_strictly_increases,
    lemma2_to64};

/// A JSON scalar, as the request body carries it: null, a boolean, a
/// non-negative integer, a negative integer, or a number carried as an
/// IEEE-754 single-precision bit pattern.
#[derive(Clone, Copy, PartialEq, Eq, Structural, Debug)]
pub enum Scalar {
    Null,
    Bool(bool),
    Uint(u64),
    Int(i64),
    Float(u32),
}

impl Scalar {
    /// A well-formed scalar keeps negative integers in `Int` and everything
    /// non-negative in `Uint`, the canonical form a JSON number parser makes.
    pub open spec fn wf(self) -> bool {
        match self {
            Scalar::Int(i) => i < 0,
            _ => true,
        }
    }

    /// The boolean reading of the scalar, if it is a boolean.
    pub open spec fn spec_as_bool(self) -> Option<bool> {
        match self {
            Scalar::Bool(b) => Some(b),
            _ => None,
        }
    }

    /// The unsigned reading of the scalar: only non-negative integers have one.
    pub open spec fn spec_as_u64(self) -> Option<u64> {
        match self {
            Scalar::Uint(u) => Some(u),
            _ => None,
        }
    }

    /// The signed reading of the scalar: integers that fit an `i64`.
    pub open spec fn spec_as_i64(self) -> Option<i64> {
        match self {
            Scalar::Uint(u) => if u <= i64::MAX as u64 {
                Some(u as i64)
            } else {
                None
            },
            Scalar::Int(i) => Some(i),
            _ => None,
        }
    }
}

/// The canonical scalar for a signed integer value.
pub fn int_scalar(v: i64) -> (r: Scalar)
    ensures
        r == (if v >= 0 {
            Scalar::Uint(v as u64)
        } else {
            Scalar::Int(v)
        }),
        r.wf(),
{
    if v >= 0 {
        Scalar::Uint(v as u64)
    } else {
        Scalar::Int(v)
    }
}

/// High half of a 32-bit quantity, as it goes on the wire first.
pub open spec fn u32_hi(x: u32) -> u16 {
    (x / 0x10000) as u16
}

/// Low half of a 32-bit quantity.
pub open spec fn u32_lo(x: u32) -> u16 {
    (x % 0x10000) as u16
}

/// The 32-bit quantity carried by a big-endian word pair.
pub open spec fn word_pair(hi: u16, lo: u16) -> u32 {
    (hi * 0x10000 + lo) as u32
}

pub proof fn lemma_word_pair_split(x: u32)
    ensures
        word_pair(u32_hi(x), u32_lo(x)) == x,
{
}

/// The sign bit of a single-precision pattern.
pub open spec fn f32_is_neg(bits: u32) -> bool {
    bits >= 0x80000000
}

/// The exponent field of a single-precision pattern.
pub open spec fn f32_exp_field(bits: u32) -> u32 {
    (bits / 0x800000) % 0x100
}

/// The mantissa field of a single-precision pattern.
pub open spec fn f32_man_field(bits: u32) -> u32 {
    bits % 0x800000
}

pub open spec fn f32_is_nan(bits: u32) -> bool {
    f32_exp_field(bits) == 255 && f32_man_field(bits) != 0
}

pub open spec fn f32_is_finite(bits: u32) -> bool {
    f32_exp_field(bits) != 255
}

/// The full significand: the mantissa with the implied leading bit for
/// normal numbers.
pub open spec fn f32_frac(bits: u32) -> nat {
    if f32_exp_field(bits) == 0 {
        f32_man_field(bits) as nat
    } else {
        (f32_man_field(bits) + 0x800000) as nat
    }
}

/// The power-of-two scale of the significand: the magnitude of the value is
/// `f32_frac(bits) * 2^f32_scale(bits)`.
pub open spec fn f32_scale(bits: u32) -> int {
    (if f32_exp_field(bits) == 0 {
        1int
    } else {
        f32_exp_field(bits) as int
    }) - 150
}

/// The ceiling of the value a single-precision pattern denotes, as an
/// unbounded integer. A quiet-not-a-number pattern reads as zero, the way a
/// saturating float-to-integer cast treats it, and an infinity reads as a
/// value far outside the 32-bit range.
pub open spec fn f32_ceil(bits: u32) -> int {
    if f32_exp_field(bits) == 255 {
        if f32_man_field(bits) != 0 {
            0
        } else if f32_is_neg(bits) {
            -0x100000000
        } else {
            0x100000000
        }
    } else {
        let frac = f32_frac(bits) as int;
        let scale = f32_scale(bits);
        if scale >= 0 {
            let mag = frac * pow2(scale as nat);
            if f32_is_neg(bits) {
                -mag
            } else {
                mag
            }
        } else {
            let d = pow2((-scale) as nat) as int;
            if f32_is_neg(bits) {
                -(frac / d)
            } else {
                (frac + d - 1) / d
            }
        }
    }
}

/// The range guard the register writer applies to a float value: the ceiling
/// of the value, read as an integer, must not exceed the signed 32-bit
/// maximum in magnitude. This is a magnitude proxy, not a true
/// single-precision range check; it is kept exactly as the gateway always
/// behaved.
pub open spec fn f32_in_write_range(bits: u32) -> bool {
    -0x7FFFFFFF <= f32_ceil(bits) <= 0x7FFFFFFF
}

/// Decides the write-range guard for a single-precision pattern.
pub fn f32_write_range_ok(bits: u32) -> (r: bool)
    ensures
        r == f32_in_write_range(bits),
{
    let e: u32 = (bits / 0x800000) % 0x100;
    let m: u32 = bits % 0x800000;
    proof {
        lemma2_to64();
    }
    if e == 255 {
        // Infinity exceeds any range; a not-a-number pattern reads as zero.
        m != 0
    } else if e <= 157 {
        proof {
            lemma_f32_small_exp_in_range(bits);
        }
        true
    } else {
        proof {
            lemma_f32_large_exp_out_of_range(bits);
        }
        false
    }
}

proof fn lemma_f32_small_exp_in_range(bits: u32)
    requires
        f32_exp_field(bits) <= 157,
    ensures
        f32_in_write_range(bits),
{
    lemma2_to64();
    let frac = f32_frac(bits) as int;
    let scale = f32_scale(bits);
    assert(frac < 0x1000000);
    if scale >= 0 {
        assert(scale <= 7);
        assert(pow2(scale as nat) <= pow2(7)) by {
            if scale < 7 {
                lemma_pow2_strictly_increases(scale as nat, 7);
            }
        };
        assert(frac * pow2(scale as nat) <= 0xFFFFFF * 0x80) by (nonlinear_arith)
            requires
                0 <= frac <= 0xFFFFFF,
                0 <= pow2(scale as nat) <= 0x80,
        ;
    } else {
        let d = pow2((-scale) as nat) as int;
        assert(d >= 1) by {
            lemma_pow2_pos((-scale) as nat);
        };
        assert(frac / d <= frac) by (nonlinear_arith)
            requires
                0 <= frac,
                d >= 1,
        ;
        assert((frac + d - 1) / d <= frac) by (nonlinear_arith)
            requires
                0 <= frac,
                d >= 1,
        ;
        assert(frac / d >= 0) by (nonlinear_arith)
            requires
                0 <= frac,
                d >= 1,
        ;
        assert((frac + d - 1) / d >= 0) by (nonlinear_arith)
            requires
                0 <= frac,
                d >= 1,
        ;
    }
}

proof fn lemma_f32_large_exp_out_of_range(bits: u32)
    requires
        158 <= f32_exp_field(bits) <= 254,
    ensures
        !f32_in_write_range(bits),
{
    lemma2_to64();
    let frac = f32_frac(bits) as int;
    let scale = f32_scale(bits);
    assert(frac >= 0x800000);
    assert(scale >= 8);
    assert(pow2(scale as nat) >= pow2(8)) by {
        if scale > 8 {
            lemma_pow2_strictly_increases(8, scale as nat);
        }
    };
    assert(frac * pow2(scale as nat) >= 0x800000 * 0x100) by (nonlinear_arith)
        requires
            frac >= 0x800000,
            pow2(scale as nat) >= 0x100,
    ;
}

/// Binary logarithm, rounded down.
pub open spec fn spec_ilog2(n: nat) -> nat
    decreases n,
{
    if n < 2 {
        0
    } else {
        1 + spec_ilog2(n / 2)
    }
}

proof fn lemma_ilog2_bounds(n: nat)
    requires
        n >= 1,
    ensures
        pow2(spec_ilog2(n)) <= n < pow2(spec_ilog2(n) + 1),
    decreases n,
{
    if n < 2 {
        lemma2_to64();
    } else {
        lemma_ilog2_bounds(n / 2);
        let p = spec_ilog2(n / 2);
        assert(pow2(p + 1) == 2 * pow2(p)) by {
            lemma_pow2_adds(1, p);
            lemma2_to64();
        };
        assert(pow2(p + 2) == 2 * pow2(p + 1)) by {
            lemma_pow2_adds(1, p + 1);
            lemma2_to64();
        };
    }
}

proof fn lemma_ilog2_unique(n: nat, p: nat)
    requires
        n >= 1,
        pow2(p) <= n < pow2(p + 1),
    ensures
        p == spec_ilog2(n),
{
    let q = spec_ilog2(n);
    lemma_ilog2_bounds(n);
    if p < q {
        if p + 1 < q {
            lemma_pow2_strictly_increases(p + 1, q);
        }
        assert(pow2(p + 1) <= pow2(q));
        assert(false);
    } else if q < p {
        if q + 1 < p {
            lemma_pow2_strictly_increases(q + 1, p);
        }
        assert(pow2(q + 1) <= pow2(p));
        assert(false);
    }
}

/// The single-precision pattern nearest to a positive integer magnitude, ties
/// rounded to the even mantissa — the rounding a float cast performs.
pub open spec fn spec_f32_bits_of_mag(n: nat) -> u32
    recommends
        1 <= n <= 0x7FFFFFFF,
{
    let p = spec_ilog2(n);
    if p <= 23 {
        (((p + 127) * 0x800000) + (n * pow2((23 - p) as nat) - 0x800000)) as u32
    } else {
        let d = pow2((p - 23) as nat);
        let q = n / d;
        let r = n % d;
        let half = d / 2;
        let keep = if r > half || (r == half && q % 2 == 1) {
            q + 1
        } else {
            q
        };
        if keep == 0x1000000 {
            (((p + 1) + 127) * 0x800000) as u32
        } else {
            (((p + 127) * 0x800000) + (keep - 0x800000)) as u32
        }
    }
}

/// The single-precision pattern for a signed integer within the write range.
pub open spec fn spec_f32_bits_of_int(i: int) -> u32
    recommends
        -0x7FFFFFFF <= i <= 0x7FFFFFFF,
{
    if i == 0 {
        0
    } else if i > 0 {
        spec_f32_bits_of_mag(i as nat)
    } else {
        (0x80000000 + spec_f32_bits_of_mag((-i) as nat)) as u32
    }
}

/// Computes the nearest single-precision pattern for a positive magnitude.
fn f32_bits_of_mag(n: u32) -> (r: u32)
    requires
        1 <= n <= 0x7FFFFFFF,
    ensures
        r == spec_f32_bits_of_mag(n as nat),
        r <= 0x7FFFFFFF,
{
    proof {
        lemma2_to64();
    }
    let mut p: u32 = 0;
    let mut pp: u64 = 1;
    while pp * 2 <= n as u64
        invariant
            1 <= n <= 0x7FFFFFFF,
            pp == pow2(p as nat),
            pp <= n,
            p <= 31,
        decreases n - pp,
    {
        proof {
            lemma_pow2_adds(p as nat, 1);
            lemma2_to64();
        }
        pp = pp * 2;
        p = p + 1;
        proof {
            if p > 31 {
                lemma_pow2_strictly_increases(31, p as nat);
                assert(pow2(p as nat) > 0x80000000);
                assert(false);
            }
        }
    }
    proof {
        lemma_pow2_adds(p as nat, 1);
        lemma2_to64();
        lemma_ilog2_unique(n as nat, p as nat);
        if p >= 31 {
            lemma_pow2_strictly_increases(30, p as nat);
            assert(pow2(p as nat) >= 0x80000000);
            assert(false);
        }
    }
    if p <= 23 {
        let mut f: u64 = n as u64;
        let mut k: u32 = p;
        proof {
            lemma2_to64();
            assert(pow2((k - p) as nat) == 1);
        }
        while k < 23
            invariant
                p <= k <= 23,
                p <= 23,
                n >= 1,
                f == n as nat * pow2((k - p) as nat),
                (n as nat) < pow2((p + 1) as nat),
            decreases 23 - k,
        {
            proof {
                lemma_pow2_adds((k - p) as nat, 1);
                lemma_pow2_adds((p + 1) as nat, (k - p) as nat);
                lemma2_to64();
                assert(n as nat * pow2((k - p) as nat) * 2 == n as nat * pow2((k + 1 - p) as nat))
                    by (nonlinear_arith)
                    requires
                        pow2((k + 1 - p) as nat) == pow2((k - p) as nat) * 2,
                ;
                assert(n as nat * pow2((k + 1 - p) as nat) < pow2((p + 1) as nat) * pow2(
                    (k + 1 - p) as nat,
                )) by (nonlinear_arith)
                    requires
                        (n as nat) < pow2((p + 1) as nat),
                        pow2((k + 1 - p) as nat) > 0,
                ;
                assert(pow2((p + 1) as nat) * pow2((k + 1 - p) as nat) == pow2(
                    (k + 2) as nat,
                )) by {
                    lemma_pow2_adds((p + 1) as nat, (k + 1 - p) as nat);
                };
                if (k + 2) as nat <= 25 {
                    if ((k + 2) as nat) < 25 {
                        lemma_pow2_strictly_increases((k + 2) as nat, 25);
                    }
                };
            }
            f = f * 2;
            k = k + 1;
        }
        proof {
            assert(pow2(p as nat) * pow2((23 - p) as nat) == pow2(23)) by {
                lemma_pow2_adds(p as nat, (23 - p) as nat);
            };
            assert(pow2((p + 1) as nat) * pow2((23 - p) as nat) == pow2(24)) by {
                lemma_pow2_adds((p + 1) as nat, (23 - p) as nat);
            };
            assert(f >= 0x800000) by (nonlinear_arith)
                requires
                    f == n as nat * pow2((23 - p) as nat),
                    n as nat >= pow2(p as nat),
                    pow2(p as nat) * pow2((23 - p) as nat) == 0x800000,
                    pow2((23 - p) as nat) > 0,
            ;
            assert(f < 0x1000000) by (nonlinear_arith)
                requires
                    f == n as nat * pow2((23 - p) as nat),
                    (n as nat) < pow2((p + 1) as nat),
                    pow2((p + 1) as nat) * pow2((23 - p) as nat) == 0x1000000,
                    pow2((23 - p) as nat) > 0,
            ;
        }
        (p + 127) * 0x800000 + (f as u32 - 0x800000)
    } else {
        let drop = p - 23;
        let mut d: u64 = 1;
        let mut k: u32 = 0;
        while k < drop
            invariant
                k <= drop,
                drop <= 7,
                d == pow2(k as nat),
        decreases drop - k,
        {
            proof {
                lemma_pow2_adds(k as nat, 1);
                lemma2_to64();
                assert(pow2((k + 1) as nat) <= pow2(7)) by {
                    if ((k + 1) as nat) < 7 {
                        lemma_pow2_strictly_increases((k + 1) as nat, 7);
                    }
                };
            }
            d = d * 2;
            k = k + 1;
        }
        let q: u64 = (n as u64) / d;
        let r: u64 = (n as u64) % d;
        let half: u64 = d / 2;
        proof {
            assert(pow2(p as nat) == pow2(23) * pow2(drop as nat)) by {
                lemma_pow2_adds(23, drop as nat);
            };
            assert(pow2((p + 1) as nat) == pow2(24) * pow2(drop as nat)) by {
                lemma_pow2_adds(24, drop as nat);
            };
            assert(q >= 0x800000) by (nonlinear_arith)
                requires
                    q == (n as u64) / d,
                    n as nat >= 0x800000 * (d as nat),
                    d >= 1,
            ;
            assert(q < 0x1000000) by (nonlinear_arith)
                requires
                    q == (n as u64) / d,
                    (n as nat) < 0x1000000 * (d as nat),
                    d >= 1,
            ;
        }
        let keep: u64 = if r > half || (r == half && q % 2 == 1) {
            q + 1
        } else {
            q
        };
        if keep == 0x1000000 {
            (p + 1 + 127) * 0x800000
        } else {
            (p + 127) * 0x800000 + (keep as u32 - 0x800000)
        }
    }
}

/// Computes the nearest single-precision pattern for a signed integer within
/// the write range.
pub fn f32_bits_of_i64(i: i64) -> (r: u32)
    requires
        -0x7FFFFFFF <= i <= 0x7FFFFFFF,
    ensures
        r == spec_f32_bits_of_int(i as int),
{
    if i == 0 {
        0
    } else if i > 0 {
        f32_bits_of_mag(i as u32)
    } else {
        0x80000000 + f32_bits_of_mag((-i) as u32)
    }
}

} // verus!
