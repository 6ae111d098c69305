//! Packing nibbles into words and splitting values into nibbles.
use vstd::prelude::*;
use crate::newtypes::U6;

verus! {

/// Packs eight nibbles into a word, the first into bits 31..28.
pub fn pack_nibbles(nibbles: [u32; 8]) -> (r: u32)
    requires
        forall|i: int| 0 <= i < 8 ==> nibbles[i] < 16,
    ensures
        r as nat == pack_prefix(nibbles@, 8),
        r as nat == nibbles[0] as nat * 0x1000_0000 + nibbles[1] as nat * 0x100_0000 + nibbles[2] as nat * 0x10_0000
            + nibbles[3] as nat * 0x1_0000 + nibbles[4] as nat * 0x1000 + nibbles[5] as nat * 0x100
            + nibbles[6] as nat * 0x10 + nibbles[7] as nat,
{
    let mut out: u32 = 0;
    let mut i: usize = 0;
    while i < 8
        invariant
            i <= 8,
            forall|j: int| 0 <= j < 8 ==> nibbles[j] < 16,
            out as nat == pack_prefix(nibbles@, i as nat),
            (out as nat) < pow16(i as nat),
        decreases 8 - i,
    {
        proof {
            reveal_with_fuel(pow16, 9);
            assert(out as nat * 16 + (nibbles[i as int] as nat) < pow16((i + 1) as nat)) by (nonlinear_arith)
                requires out < pow16(i as nat), nibbles[i as int] < 16, pow16((i + 1) as nat) == 16 * pow16(i as nat);
            assert(pow16((i + 1) as nat) <= 0x1_0000_0000);
        }
        out = out * 16 + nibbles[i];
        i = i + 1;
    }
    proof {
        reveal_with_fuel(pack_prefix, 9);
    }
    out
}

/// 16 to the power `n`.
pub open spec fn pow16(n: nat) -> nat
    decreases n,
{
    if n == 0 {
        1
    } else {
        16 * pow16((n - 1) as nat)
    }
}

/// The first `n` nibbles of `s` read as a number, most significant first.
pub open spec fn pack_prefix(s: Seq<u32>, n: nat) -> nat
    decreases n,
{
    if n == 0 {
        0
    } else {
        pack_prefix(s, (n - 1) as nat) * 16 + s[n - 1] as nat
    }
}

/// Splits a 16-bit value into four nibbles, most significant first.
pub fn split_u16_into_nibbles(v: u16) -> (r: (u32, u32, u32, u32))
    ensures
        r.0 == v as nat / 0x1000,
        r.1 == (v as nat / 0x100) % 16,
        r.2 == (v as nat / 0x10) % 16,
        r.3 == v as nat % 16,
        r.0 * 0x1000 + r.1 * 0x100 + r.2 * 0x10 + r.3 == v,
{
    let x = v as u32;
    let q1 = x / 16;
    let q2 = q1 / 16;
    let q3 = q2 / 16;
    proof {
        let xi = x as int;
        vstd::arithmetic::div_mod::lemma_div_denominator(xi, 16, 16);
        vstd::arithmetic::div_mod::lemma_div_denominator(xi, 256, 16);
        vstd::arithmetic::div_mod::lemma_fundamental_div_mod(xi, 16);
        vstd::arithmetic::div_mod::lemma_fundamental_div_mod(q1 as int, 16);
        vstd::arithmetic::div_mod::lemma_fundamental_div_mod(q2 as int, 16);
        assert(q2 as int == xi / 256);
        assert(q3 as int == xi / 0x1000);
        assert(xi == 16 * (q1 as int) + xi % 16);
        assert(q1 as int == 16 * (q2 as int) + (q1 as int) % 16);
        assert(q2 as int == 16 * (q3 as int) + (q2 as int) % 16);
        assert(q3 * 0x1000 + (q2 % 16) * 0x100 + (q1 % 16) * 0x10 + x % 16 == x) by (nonlinear_arith)
            requires
                x as int == 16 * (q1 as int) + (x as int) % 16,
                q1 as int == 16 * (q2 as int) + (q1 as int) % 16,
                q2 as int == 16 * (q3 as int) + (q2 as int) % 16;
    }
    (q3, q2 % 16, q1 % 16, x % 16)
}

/// Splits a 6-bit value into two nibbles, the high one first.
pub fn split_u6_into_nibbles(v: U6) -> (r: (u32, u32))
    ensures
        r.0 == v.value() / 16,
        r.1 == v.value() % 16,
        r.0 * 16 + r.1 == v.value(),
        r.0 < 4,
{
    let val = v.get() as u32;
    (val / 16, val % 16)
}

} // verus!
