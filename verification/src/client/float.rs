//! The bit patterns of the floating-point numbers that the protocol
//! carries, worked out with whole numbers.

use vstd::prelude::*;

verus! {

/// The bits of the single-precision number 0.
pub const F32_ZERO_BITS: u32 = 0;

/// The bits of the double-precision number 0.
pub const F64_ZERO_BITS: u64 = 0;

/// The bits of the double-precision number 10.
pub const F64_TEN_BITS: u64 = 0x4024_0000_0000_0000;

/// The position of the highest set bit of `v`, for `v` above zero.
pub open spec fn highest_bit(v: nat) -> nat
    decreases v,
{
    if v <= 1 {
        0
    } else {
        1 + highest_bit(v / 2)
    }
}

/// Two to the power `e`.
pub open spec fn pow2(e: nat) -> nat
    decreases e,
{
    if e == 0 {
        1
    } else {
        2 * pow2((e - 1) as nat)
    }
}

/// The bits of the single-precision number nearest to the whole number
/// `v`, ties going to the even mantissa: sign 0, the exponent of the
/// highest bit of `v` biased by 127, and the 23 bits below the highest
/// bit, rounded where `v` has more than 24 bits.
pub open spec fn f32_bits_of(v: u32) -> u32 {
    if v == 0 {
        0
    } else {
        let e = highest_bit(v as nat);
        if e <= 23 {
            ((127 + e) * 0x80_0000 + (v * pow2((23 - e) as nat) - 0x80_0000)) as u32
        } else {
            let cut = pow2((e - 23) as nat);
            let kept = v as nat / cut;
            let rest = v as nat % cut;
            let up: nat = if rest * 2 > cut || (rest * 2 == cut && kept % 2 == 1) {
                1
            } else {
                0
            };
            ((127 + e) * 0x80_0000 + (kept + up - 0x80_0000)) as u32
        }
    }
}

proof fn lemma_pow2_values()
    ensures
        pow2(0) == 1,
        pow2(1) == 2,
        pow2(2) == 4,
        pow2(3) == 8,
        pow2(4) == 16,
        pow2(5) == 32,
        pow2(6) == 64,
        pow2(7) == 128,
        pow2(8) == 256,
        pow2(23) == 0x80_0000,
        pow2(24) == 0x100_0000,
        pow2(31) == 0x8000_0000,
        pow2(32) == 0x1_0000_0000,
{
    reveal_with_fuel(pow2, 33);
}

proof fn lemma_pow2_step(e: nat)
    ensures
        pow2(e + 1) == 2 * pow2(e),
        pow2(e) >= 1,
    decreases e,
{
    if e > 0 {
        lemma_pow2_step((e - 1) as nat);
    }
}

proof fn lemma_pow2_monotone(a: nat, b: nat)
    requires
        a <= b,
    ensures
        pow2(a) <= pow2(b),
    decreases b,
{
    if a < b {
        lemma_pow2_monotone(a, (b - 1) as nat);
        lemma_pow2_step((b - 1) as nat);
    }
}

/// The highest bit of `v` is the `e` with `2^e <= v < 2^(e+1)`.
proof fn lemma_highest_bit(v: nat, e: nat)
    requires
        pow2(e) <= v < pow2(e + 1),
    ensures
        highest_bit(v) == e,
    decreases e,
{
    lemma_pow2_step(e);
    if e == 0 {
        assert(pow2(1) == 2) by {
            reveal_with_fuel(pow2, 2);
        }
    } else {
        lemma_pow2_step((e - 1) as nat);
        lemma_highest_bit(v / 2, (e - 1) as nat);
    }
}

/// The bits of the single-precision number nearest to a whole number.
pub fn f32_bits_from_u32(v: u32) -> (bits: u32)
    ensures
        bits == f32_bits_of(v),
{
    if v == 0 {
        return 0;
    }
    let mut e: u32 = 0;
    let mut power: u64 = 1;
    proof {
        lemma_pow2_values();
    }
    while power * 2 <= v as u64
        invariant
            e <= 31,
            power == pow2(e as nat),
            power <= v,
            v > 0,
        decreases 32 - e,
    {
        proof {
            lemma_pow2_step(e as nat);
            if e == 31 {
                lemma_pow2_values();
            }
        }
        power = power * 2;
        e = e + 1;
    }
    proof {
        lemma_pow2_step(e as nat);
        lemma_highest_bit(v as nat, e as nat);
    }
    if e <= 23 {
        let mut scale: u64 = 1;
        let mut k: u32 = 0;
        while k < 23 - e
            invariant
                k <= 23 - e,
                e <= 23,
                scale == pow2(k as nat),
                1 <= scale <= 0x80_0000,
            decreases 23 - e - k,
        {
            proof {
                lemma_pow2_step(k as nat);
                lemma_pow2_monotone((k + 1) as nat, 23);
                lemma_pow2_values();
            }
            scale = scale * 2;
            k = k + 1;
        }
        proof {
            lemma_pow2_values();
            assert(power * scale == 0x80_0000) by {
                lemma_pow2_sum(e as nat, (23 - e) as nat);
            }
            assert(0x80_0000 <= v * scale < 0x100_0000) by (nonlinear_arith)
                requires
                    power <= v < 2 * power,
                    scale >= 1,
                    power * scale == 0x80_0000,
            ;
        }
        let mantissa: u64 = (v as u64) * scale - 0x80_0000;
        ((127 + e as u64) * 0x80_0000 + mantissa) as u32
    } else {
        let mut cut: u64 = 1;
        let mut k: u32 = 0;
        while k < e - 23
            invariant
                k <= e - 23,
                23 < e <= 31,
                cut == pow2(k as nat),
                1 <= cut <= 0x100,
            decreases e - 23 - k,
        {
            proof {
                lemma_pow2_step(k as nat);
                lemma_pow2_monotone((k + 1) as nat, 8);
                lemma_pow2_values();
            }
            cut = cut * 2;
            k = k + 1;
        }
        proof {
            lemma_pow2_values();
            lemma_pow2_sum(23, (e - 23) as nat);
            assert(power == 0x80_0000 * cut);
            assert(cut >= 2) by {
                lemma_pow2_monotone(1, (e - 23) as nat);
            }
        }
        let kept: u64 = v as u64 / cut;
        let rest: u64 = v as u64 % cut;
        proof {
            assert(0x80_0000 <= kept < 0x100_0000) by (nonlinear_arith)
                requires
                    0x80_0000 * cut <= v < 2 * (0x80_0000 * cut),
                    kept == v as int / cut as int,
                    cut >= 1,
            ;
        }
        let up: u64 = if rest * 2 > cut || (rest * 2 == cut && kept % 2 == 1) {
            1
        } else {
            0
        };
        ((127 + e as u64) * 0x80_0000 + (kept + up - 0x80_0000)) as u32
    }
}

proof fn lemma_pow2_sum(a: nat, b: nat)
    ensures
        pow2(a + b) == pow2(a) * pow2(b),
    decreases b,
{
    if b == 0 {
        assert(pow2(a) * 1 == pow2(a));
    } else {
        lemma_pow2_sum(a, (b - 1) as nat);
        lemma_pow2_step((a + b - 1) as nat);
        lemma_pow2_step((b - 1) as nat);
        assert(pow2(a) * (2 * pow2((b - 1) as nat)) == 2 * (pow2(a) * pow2((b - 1) as nat)))
            by (nonlinear_arith);
    }
}

} // verus!
