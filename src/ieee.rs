//! IEEE-754 bit patterns of small integers, which `f32` and `f64` hold
//! exactly.
use vstd::prelude::*;
use crate::alu::abs;
use crate::bitpush::{lemma_two_to_adds, lemma_two_to_mono, two_to};

verus! {

/// The position of the highest set bit of `a`, for `a >= 1`.
pub open spec fn log2(a: nat) -> nat
    decreases a,
{
    if a < 2 {
        0
    } else {
        1 + log2(a / 2)
    }
}

/// The bit pattern with `mant` mantissa bits, exponent bias `bias` and the
/// sign at bit `sign_at` of the normal number equal to the integer `v`:
/// sign, then biased exponent `log2(|v|)`, then the bits of `|v|` below its
/// highest, left-aligned.
pub open spec fn int_float_bits(v: int, mant: nat, bias: nat, sign_at: nat) -> nat {
    if v == 0 {
        0
    } else {
        let a = abs(v) as nat;
        let e = log2(a);
        ((if v < 0 {
            two_to(sign_at)
        } else {
            0
        }) + (bias + e) * two_to(mant) + (a - two_to(e)) * two_to((mant - e) as nat)) as nat
    }
}

/// The `f32` bit pattern of the integer `v`.
pub open spec fn f32_bits_of_int(v: int) -> u32 {
    int_float_bits(v, 23, 127, 31) as u32
}

/// The `f64` bit pattern of the integer `v`.
pub open spec fn f64_bits_of_int(v: int) -> u64 {
    int_float_bits(v, 52, 1023, 63) as u64
}

/// Whether `bits`, read as IEEE-754 with `mant` mantissa bits, `ebits`
/// exponent bits and bias `bias`, is exactly the integer `v`: zero is the
/// all-zero pattern; otherwise the sign bit, and
/// `|v| = (1 + m / 2^mant) * 2^(e - bias)` for a normal exponent `e`.
pub open spec fn float_denotes(bits: nat, v: int, mant: nat, ebits: nat, bias: nat) -> bool {
    let sign = bits / two_to(mant + ebits);
    let e = (bits / two_to(mant)) % two_to(ebits);
    let m = bits % two_to(mant);
    if v == 0 {
        bits == 0
    } else {
        &&& sign == (if v < 0 {
            1nat
        } else {
            0nat
        })
        &&& bias <= e
        &&& e - bias <= mant
        &&& abs(v) * two_to(mant) == (two_to(mant) + m) * two_to((e - bias) as nat)
    }
}

proof fn lemma_log2(a: nat)
    requires
        a >= 1,
    ensures
        two_to(log2(a)) <= a < two_to(log2(a) + 1),
    decreases a,
{
    if a >= 2 {
        lemma_log2(a / 2);
        let e = log2(a / 2);
        assert(two_to(e + 1) == 2 * two_to(e));
        assert(two_to(e + 2) == 2 * two_to(e + 1));
        assert(log2(a) == e + 1);
    } else {
        assert(two_to(1) == 2 * two_to(0));
    }
}

proof fn lemma_int_float_bits(v: int, mant: nat, ebits: nat, bias: nat)
    requires
        v != 0,
        abs(v) < two_to(mant + 1),
        ebits >= 1,
        bias + mant < two_to(ebits),
    ensures
        float_denotes(int_float_bits(v, mant, bias, mant + ebits), v, mant, ebits, bias),
        int_float_bits(v, mant, bias, mant + ebits) < two_to(mant + ebits + 1),
{
    let a = abs(v) as nat;
    lemma_log2(a);
    let e = log2(a);
    if e > mant {
        lemma_two_to_mono(mant + 1, e);
    }
    assert(e <= mant);
    let tm = two_to(mant);
    let te = two_to(e);
    let td = two_to((mant - e) as nat);
    lemma_two_to_adds((mant - e) as nat, e);
    lemma_two_to_adds(e, 1);
    lemma_two_to_adds(mant, ebits);
    lemma_two_to_adds(mant + ebits, 1);
    lemma_two_to_adds(mant, 0);
    assert(two_to(1) == 2 * two_to(0));
    assert(a < 2 * te);
    assert(((mant - e) as nat + e) as nat == mant);
    assert(td * te == tm);
    let m = (a - te) * td;
    assert(m < tm) by (nonlinear_arith)
        requires a < 2 * te, te <= a, td * te == tm, td > 0, m == (a - te) * td;
    assert(m >= 0) by (nonlinear_arith)
        requires a >= te, td > 0, m == (a - te) * td;
    let ex = bias + e;
    let s: nat = if v < 0 { 1 } else { 0 };
    let ts = two_to(mant + ebits);
    let te2 = two_to(ebits);
    let bits = s * ts + ex * tm + m;
    assert(bits == int_float_bits(v, mant, bias, mant + ebits));
    assert(ex < te2);
    // The exponent and mantissa fields.
    let low = ex * tm + m;
    assert(low < te2 * tm) by (nonlinear_arith)
        requires ex + 1 <= te2, m < tm, low == ex * tm + m;
    assert(ts == tm * te2);
    assert(ts == te2 * tm) by (nonlinear_arith)
        requires ts == tm * te2;
    assert(bits == s * (te2 * tm) + low);
    vstd::arithmetic::div_mod::lemma_fundamental_div_mod_converse(bits as int, ts as int, s as int, low as int);
    assert(bits == (s * te2 + ex) * tm + m) by (nonlinear_arith)
        requires bits == s * (te2 * tm) + ex * tm + m;
    vstd::arithmetic::div_mod::lemma_fundamental_div_mod_converse(bits as int, tm as int, (s * te2 + ex) as int, m as int);
    vstd::arithmetic::div_mod::lemma_fundamental_div_mod_converse((s * te2 + ex) as int, te2 as int, s as int, ex as int);
    assert((tm + m) * te == a * tm) by (nonlinear_arith)
        requires m == (a - te) * td, td * te == tm;
    assert(bits < two_to(mant + ebits + 1)) by (nonlinear_arith)
        requires bits == s * ts + low, low < ts, s <= 1, two_to(mant + ebits + 1) == ts * 2, low >= 0, te2 * tm == ts;
}

/// The `f32` pattern of an `i16` is exactly that integer; so is the `f64`
/// pattern.
pub proof fn lemma_small_int_exact(v: int)
    requires
        -0x8000 <= v <= 0x7FFF,
    ensures
        float_denotes(f32_bits_of_int(v) as nat, v, 23, 8, 127),
        float_denotes(f64_bits_of_int(v) as nat, v, 52, 11, 1023),
{
    reveal_with_fuel(two_to, 12);
    lemma_two_to_mono(16, 24);
    lemma_two_to_mono(16, 53);
    lemma_two_to_adds(8, 8);
    lemma_two_to_adds(16, 8);
    lemma_two_to_adds(8, 3);
    lemma_two_to_adds(32, 0);
    crate::bitpush::lemma_two_to_32();
    lemma_two_to_adds(32, 32);
    lemma_two_to_adds(16, 16);
    if v != 0 {
        lemma_int_float_bits(v, 23, 8, 127);
        lemma_int_float_bits(v, 52, 11, 1023);
        assert((23 + 8 + 1) as nat == 32);
        assert((52 + 11 + 1) as nat == 64);
    } else {
        assert(0nat / two_to(31) == 0);
    }
}

fn pow2_u128(n: u32) -> (r: u128)
    requires
        n <= 64,
    ensures
        r == two_to(n as nat),
{
    let mut r: u128 = 1;
    let mut i: u32 = 0;
    while i < n
        invariant
            i <= n <= 64,
            r == two_to(i as nat),
        decreases n - i,
    {
        proof {
            lemma_two_to_mono(i as nat + 1, 64);
            assert(two_to(i as nat + 1) == 2 * two_to(i as nat));
            lemma_two_to_adds(32, 32);
            crate::bitpush::lemma_two_to_32();
        }
        r = r * 2;
        i = i + 1;
    }
    r
}

fn int_float_bits_exec(v: i16, mant: u32, bias: u32, sign_at: u32) -> (r: u128)
    requires
        mant >= 15,
        mant + 1 <= sign_at <= 64,
        bias <= 2048,
    ensures
        r == int_float_bits(v as int, mant as nat, bias as nat, sign_at as nat),
{
    if v == 0 {
        return 0;
    }
    let a: u32 = if v < 0 { (0 - v as i32) as u32 } else { v as u32 };
    let mut x = a;
    let mut e: u32 = 0;
    proof {
        assert(two_to(0) == 1);
    }
    while x >= 2
        invariant
            1 <= x <= a <= 0x8000,
            log2(a as nat) == e + log2(x as nat),
            e <= 15,
            two_to(e as nat) * x <= a,
        decreases x,
    {
        proof {
            assert(two_to(e as nat + 1) == 2 * two_to(e as nat));
            assert(two_to(e as nat + 1) * (x / 2) <= a) by (nonlinear_arith)
                requires two_to(e as nat) * x <= a, two_to(e as nat + 1) == 2 * two_to(e as nat);
            lemma_log2(x as nat);
            lemma_log2(a as nat);
            if e >= 15 {
                lemma_two_to_mono(16, e as nat + 1);
                reveal_with_fuel(two_to, 17);
                assert(two_to(e as nat + 1) * (x / 2) >= two_to(16)) by (nonlinear_arith)
                    requires x / 2 >= 1, two_to(e as nat + 1) >= two_to(16);
            }
        }
        x = x / 2;
        e = e + 1;
    }
    proof {
        lemma_log2(a as nat);
        lemma_two_to_mono(e as nat, 15);
        reveal_with_fuel(two_to, 16);
    }
    let sign: u128 = if v < 0 { pow2_u128(sign_at) } else { 0 };
    let te = pow2_u128(e);
    let tm = pow2_u128(mant);
    let td = pow2_u128(mant - e);
    proof {
        lemma_two_to_mono(mant as nat, 64);
        lemma_two_to_mono((mant - e) as nat, 64);
        lemma_two_to_mono(sign_at as nat, 64);
        lemma_two_to_adds(32, 32);
        crate::bitpush::lemma_two_to_32();
        assert((bias + e) as nat * tm <= 2100 * 0x1_0000_0000_0000_0000) by (nonlinear_arith)
            requires bias + e <= 2100, tm <= 0x1_0000_0000_0000_0000;
        assert((a - te) as nat * td <= 0x8000 * 0x1_0000_0000_0000_0000) by (nonlinear_arith)
            requires a - te <= 0x8000, td <= 0x1_0000_0000_0000_0000, a >= te;
    }
    sign + (bias + e) as u128 * tm + (a as u128 - te) * td
}

/// The `f32` bit pattern of `v`, exactly.
pub fn f32_bits_of_i16(v: i16) -> (r: u32)
    ensures
        r == f32_bits_of_int(v as int),
{
    proof {
        lemma_small_int_exact(v as int);
        if v != 0 {
            crate::bitpush::lemma_two_to_32();
            lemma_two_to_mono(16, 24);
            reveal_with_fuel(two_to, 9);
            lemma_int_float_bits(v as int, 23, 8, 127);
            assert((23 + 8 + 1) as nat == 32);
        }
    }
    int_float_bits_exec(v, 23, 127, 31) as u32
}

/// The `f64` bit pattern of `v`, exactly.
pub fn f64_bits_of_i16(v: i16) -> (r: u64)
    ensures
        r == f64_bits_of_int(v as int),
{
    int_float_bits_exec(v, 52, 1023, 63) as u64
}

} // verus!
