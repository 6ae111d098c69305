//! The value semantics of the integer instructions: arithmetic with its
//! flags, shifts and rotations, and the 16-bit chunks and 8-bit slots of a
//! 64-bit register.
use vstd::prelude::*;

verus! {

/// 2^64.
pub open spec fn pow64() -> int {
    0x1_0000_0000_0000_0000
}

/// The two's-complement reading of a 64-bit word.
pub open spec fn signed(x: u64) -> int {
    if x < 0x8000_0000_0000_0000 {
        x as int
    } else {
        x as int - pow64()
    }
}

/// The two's-complement reading of a 16-bit field.
pub open spec fn sext16(x: nat) -> int {
    if x < 0x8000 {
        x as int
    } else {
        x as int - 0x1_0000
    }
}

/// The 64-bit word whose value is `x` modulo 2^64.
pub open spec fn wrap(x: int) -> u64 {
    (x % pow64()) as u64
}

/// Whether `x` is representable as an `i64`.
pub open spec fn in_i64(x: int) -> bool {
    -0x8000_0000_0000_0000 <= x < 0x8000_0000_0000_0000
}

/// Integer division rounding toward zero.
pub open spec fn trunc_div(a: int, b: int) -> int {
    let q = abs(a) / abs(b);
    if (a < 0) != (b < 0) {
        -q
    } else {
        q
    }
}

/// The absolute value of an integer.
pub open spec fn abs(a: int) -> int {
    if a < 0 {
        -a
    } else {
        a
    }
}

/// The five arithmetic operations.
#[derive(Debug, Clone, Copy, PartialEq, Eq, Structural)]
pub enum ArithOp {
    Add,
    Sub,
    Mul,
    DivUnsigned,
    DivSigned,
}

/// The value an arithmetic operation writes, with its carry and overflow
/// flags. The zero flag is `value == 0`; the negative flag is bit 63 of
/// `value`.
#[derive(Debug, Clone, Copy, PartialEq, Eq, Structural)]
pub struct ArithOutcome {
    pub value: u64,
    pub carry: bool,
    pub overflow: bool,
}

/// What `op` yields on the operands `l` and `r`.
///
/// Carry is an unsigned wrap, overflow a signed one. A division by zero
/// yields 0 and sets overflow; the signed quotient of `i64::MIN` by `-1`
/// wraps and sets overflow.
pub open spec fn arith_spec(op: ArithOp, l: u64, r: u64) -> ArithOutcome {
    match op {
        ArithOp::Add => ArithOutcome {
            value: wrap(l + r),
            carry: l + r >= pow64(),
            overflow: !in_i64(signed(l) + signed(r)),
        },
        ArithOp::Sub => ArithOutcome {
            value: wrap(l - r),
            carry: l < r,
            overflow: !in_i64(signed(l) - signed(r)),
        },
        ArithOp::Mul => ArithOutcome {
            value: wrap(l * r),
            carry: l * r >= pow64(),
            overflow: !in_i64(signed(l) * signed(r)),
        },
        ArithOp::DivUnsigned => if r == 0 {
            ArithOutcome { value: 0, carry: false, overflow: true }
        } else {
            ArithOutcome { value: (l / r) as u64, carry: false, overflow: false }
        },
        ArithOp::DivSigned => if r == 0 {
            ArithOutcome { value: 0, carry: false, overflow: true }
        } else {
            let q = trunc_div(signed(l), signed(r));
            ArithOutcome { value: wrap(q), carry: false, overflow: !in_i64(q) }
        },
    }
}

fn to_signed(x: u64) -> (r: i128)
    ensures
        r == signed(x),
{
    if x < 0x8000_0000_0000_0000 {
        x as i128
    } else {
        x as i128 - 0x1_0000_0000_0000_0000i128
    }
}

fn fits_i64(x: i128) -> (r: bool)
    ensures
        r == in_i64(x as int),
{
    -0x8000_0000_0000_0000i128 <= x && x < 0x8000_0000_0000_0000i128
}

fn wrap_i128(x: i128) -> (r: u64)
    requires
        -0x1_0000_0000_0000_0000 < x < 0x1_0000_0000_0000_0000,
    ensures
        r == wrap(x as int),
{
    if x < 0 {
        (x + 0x1_0000_0000_0000_0000i128) as u64
    } else {
        x as u64
    }
}

/// Applies an arithmetic operation.
pub fn arith(op: ArithOp, l: u64, r: u64) -> (o: ArithOutcome)
    ensures
        o == arith_spec(op, l, r),
{
    match op {
        ArithOp::Add => {
            let s: u128 = l as u128 + r as u128;
            let value = (s % 0x1_0000_0000_0000_0000u128) as u64;
            let ss = to_signed(l) + to_signed(r);
            ArithOutcome { value, carry: s >= 0x1_0000_0000_0000_0000u128, overflow: !fits_i64(ss) }
        },
        ArithOp::Sub => {
            let d: i128 = l as i128 - r as i128;
            let ss = to_signed(l) - to_signed(r);
            ArithOutcome { value: wrap_i128(d), carry: l < r, overflow: !fits_i64(ss) }
        },
        ArithOp::Mul => {
            proof {
                assert(l as int * r as int <= 0xFFFF_FFFF_FFFF_FFFF * 0xFFFF_FFFF_FFFF_FFFF) by (nonlinear_arith);
                assert(l as int * r as int >= 0) by (nonlinear_arith);
            }
            let p: u128 = l as u128 * r as u128;
            let sl = to_signed(l);
            let sr = to_signed(r);
            proof {
                assert(-0x8000_0000_0000_0000 * 0x8000_0000_0000_0000 <= sl * sr <= 0x8000_0000_0000_0000 * 0x8000_0000_0000_0000) by (nonlinear_arith)
                    requires -0x8000_0000_0000_0000 <= sl < 0x8000_0000_0000_0000, -0x8000_0000_0000_0000 <= sr < 0x8000_0000_0000_0000;
            }
            let sp = sl * sr;
            ArithOutcome {
                value: (p % 0x1_0000_0000_0000_0000u128) as u64,
                carry: p >= 0x1_0000_0000_0000_0000u128,
                overflow: !fits_i64(sp),
            }
        },
        ArithOp::DivUnsigned => {
            if r == 0 {
                ArithOutcome { value: 0, carry: false, overflow: true }
            } else {
                ArithOutcome { value: l / r, carry: false, overflow: false }
            }
        },
        ArithOp::DivSigned => {
            if r == 0 {
                ArithOutcome { value: 0, carry: false, overflow: true }
            } else {
                let sl = to_signed(l);
                let sr = to_signed(r);
                let al: u128 = if sl < 0 { (-sl) as u128 } else { sl as u128 };
                let ar: u128 = if sr < 0 { (-sr) as u128 } else { sr as u128 };
                let q: u128 = al / ar;
                proof {
                    assert(q <= al) by (nonlinear_arith)
                        requires q == al / ar, ar >= 1;
                }
                let qs: i128 = if (sl < 0) != (sr < 0) { -(q as i128) } else { q as i128 };
                ArithOutcome { value: wrap_i128(qs), carry: false, overflow: !fits_i64(qs) }
            }
        },
    }
}

/// A logical right shift; amounts of 64 or more give 0.
pub open spec fn shr_spec(b: u64, c: u64) -> u64 {
    if c >= 64 {
        0
    } else {
        b >> c
    }
}

/// A logical left shift; amounts of 64 or more give 0.
pub open spec fn shl_spec(b: u64, c: u64) -> u64 {
    if c >= 64 {
        0
    } else {
        b << c
    }
}

/// A right rotation by `c` modulo 64.
pub open spec fn rotr_spec(b: u64, c: u64) -> u64 {
    let k = c % 64;
    if k == 0 {
        b
    } else {
        (b >> k) | (b << (64 - k) as u64)
    }
}

/// A left rotation by `c` modulo 64.
pub open spec fn rotl_spec(b: u64, c: u64) -> u64 {
    let k = c % 64;
    if k == 0 {
        b
    } else {
        (b << k) | (b >> (64 - k) as u64)
    }
}

/// Shifts `b` right by `c` bits, saturating at 64.
pub fn shift_right(b: u64, c: u64) -> (r: u64)
    ensures
        r == shr_spec(b, c),
{
    if c >= 64 {
        0
    } else {
        b >> c
    }
}

/// Shifts `b` left by `c` bits, saturating at 64.
pub fn shift_left(b: u64, c: u64) -> (r: u64)
    ensures
        r == shl_spec(b, c),
{
    if c >= 64 {
        0
    } else {
        b << c
    }
}

/// Rotates `b` right by `c` bits modulo 64.
pub fn rotate_right(b: u64, c: u64) -> (r: u64)
    ensures
        r == rotr_spec(b, c),
{
    let k = c % 64;
    if k == 0 {
        b
    } else {
        (b >> k) | (b << (64 - k))
    }
}

/// Rotates `b` left by `c` bits modulo 64.
pub fn rotate_left(b: u64, c: u64) -> (r: u64)
    ensures
        r == rotl_spec(b, c),
{
    let k = c % 64;
    if k == 0 {
        b
    } else {
        (b << k) | (b >> (64 - k))
    }
}

/// Shifting by 64 or more leaves nothing; rotating by 64 leaves the word
/// as it was.
pub proof fn lemma_shift_saturates_rotate_wraps(b: u64, c: u64)
    requires
        c >= 64,
    ensures
        shr_spec(b, c) == 0,
        shl_spec(b, c) == 0,
        rotr_spec(b, 64) == b,
        rotl_spec(b, 64) == b,
        rotr_spec(b, c) == rotr_spec(b, c % 64),
        rotl_spec(b, c) == rotl_spec(b, c % 64),
{
}

/// `reg` with its 16-bit chunk number `chunk` replaced by `data`.
pub open spec fn set_chunk_spec(reg: u64, data: u16, chunk: u64) -> u64 {
    (reg & !(0xFFFFu64 << (16 * chunk) as u64)) | ((data as u64) << (16 * chunk) as u64)
}

/// The 16-bit chunk number `chunk` of `reg`.
pub open spec fn get_chunk_spec(reg: u64, chunk: u64) -> u16 {
    ((reg >> (16 * chunk) as u64) & 0xFFFF) as u16
}

/// `reg` with its byte slot number `slot` replaced by `data`.
pub open spec fn set_byte_spec(reg: u64, data: u8, slot: u64) -> u64 {
    (reg & !(0xFFu64 << (8 * slot) as u64)) | ((data as u64) << (8 * slot) as u64)
}

/// The byte slot number `slot` of `reg`.
pub open spec fn get_byte_spec(reg: u64, slot: u64) -> u8 {
    ((reg >> (8 * slot) as u64) & 0xFF) as u8
}

/// Replaces the 16-bit chunk `chunk` (0 for bits 0..16, 3 for bits 48..64).
pub fn set_chunk(reg: u64, data: u16, chunk: u8) -> (r: u64)
    requires
        chunk < 4,
    ensures
        r == set_chunk_spec(reg, data, chunk as u64),
{
    let shift: u64 = 16 * chunk as u64;
    let mask: u64 = 0xFFFFu64 << shift;
    (reg & !mask) | ((data as u64) << shift)
}

/// Reads the 16-bit chunk `chunk`.
pub fn get_chunk(reg: u64, chunk: u8) -> (r: u16)
    requires
        chunk < 4,
    ensures
        r == get_chunk_spec(reg, chunk as u64),
{
    let shift: u64 = 16 * chunk as u64;
    ((reg >> shift) & 0xFFFF) as u16
}

/// Replaces the byte slot `slot` (0 for bits 0..8, 7 for bits 56..64).
pub fn set_byte(reg: u64, data: u8, slot: u8) -> (r: u64)
    requires
        slot < 8,
    ensures
        r == set_byte_spec(reg, data, slot as u64),
{
    let shift: u64 = 8 * slot as u64;
    let mask: u64 = 0xFFu64 << shift;
    (reg & !mask) | ((data as u64) << shift)
}

/// Reads the byte slot `slot`.
pub fn get_byte(reg: u64, slot: u8) -> (r: u8)
    requires
        slot < 8,
    ensures
        r == get_byte_spec(reg, slot as u64),
{
    let shift: u64 = 8 * slot as u64;
    ((reg >> shift) & 0xFF) as u8
}

/// Writing a chunk and reading it back gives what was written; writing the
/// same chunk twice is writing it once; the other chunks keep their values.
pub proof fn lemma_chunk_laws(reg: u64, data: u16, chunk: u64, other: u64)
    requires
        chunk < 4,
        other < 4,
        other != chunk,
    ensures
        get_chunk_spec(set_chunk_spec(reg, data, chunk), chunk) == data,
        set_chunk_spec(set_chunk_spec(reg, data, chunk), data, chunk) == set_chunk_spec(reg, data, chunk),
        get_chunk_spec(set_chunk_spec(reg, data, chunk), other) == get_chunk_spec(reg, other),
{
    let d = data as u64;
    let s = (16 * chunk) as u64;
    let t = (16 * other) as u64;
    assert(s < 64 && t < 64 && s != t && (s == 0 || s == 16 || s == 32 || s == 48) && (t == 0 || t == 16 || t == 32 || t == 48));
    assert(((((reg & !(0xFFFFu64 << s)) | (d << s)) >> s) & 0xFFFF) == d
        && ((reg & !(0xFFFFu64 << s)) | (d << s)) & !(0xFFFFu64 << s) | (d << s) == (reg & !(0xFFFFu64 << s)) | (d << s)
        && ((((reg & !(0xFFFFu64 << s)) | (d << s)) >> t) & 0xFFFF) == ((reg >> t) & 0xFFFF)) by (bit_vector)
        requires
            d < 0x1_0000,
            s == 0 || s == 16 || s == 32 || s == 48,
            t == 0 || t == 16 || t == 32 || t == 48,
            s != t;
}

} // verus!
