//! Building instruction words directly from typed instructions, without
//! going through assembly text. The layouts are those the interpreter
//! decodes: class tag in the top nibble, destination (or first operand) in
//! the next, then registers or a 16-bit immediate, and the subcode in the
//! low nibble (the low byte, as two nibbles, for the floating-point
//! classes).
use vstd::prelude::*;
use crate::newtypes::{U2, U3, U6};
use crate::nibbles::{pack_nibbles, split_u16_into_nibbles, split_u6_into_nibbles};
use crate::cpu::{class_of, field, n1, n2, n3, subcode};
use crate::register::{reg_num, Register};

verus! {

/// A register operand or a 16-bit unsigned immediate.
#[derive(Debug, Clone, Copy, PartialEq, Eq, Structural)]
pub enum RegOrImm {
    Reg(Register),
    Imm(u16),
}

/// A shift amount: a register or a 6-bit immediate.
#[derive(Debug, Clone, Copy, PartialEq, Eq, Structural)]
pub enum ShiftAmount {
    Reg(Register),
    Imm(U6),
}

/// A branch offset in instructions: a register or a signed 16-bit
/// immediate.
#[derive(Debug, Clone, Copy, PartialEq, Eq, Structural)]
pub enum BranchOffset {
    Reg(Register),
    Imm(i16),
}

/// A typed instruction.
#[derive(Debug, Clone, Copy, PartialEq, Eq, Structural)]
pub enum Instruction {
    Nop,
    Add { dest: Register, a: RegOrImm, b: RegOrImm },
    Subtract { dest: Register, a: RegOrImm, b: RegOrImm },
    Multiply { dest: Register, a: RegOrImm, b: RegOrImm },
    Divide { dest: Register, a: RegOrImm, b: RegOrImm },
    DivideSigned { dest: Register, a: RegOrImm, b: RegOrImm },
    And { dest: Register, a: Register, b: Register },
    Or { dest: Register, a: Register, b: Register },
    Xor { dest: Register, a: Register, b: Register },
    Nand { dest: Register, a: Register, b: Register },
    Nor { dest: Register, a: Register, b: Register },
    Xnor { dest: Register, a: Register, b: Register },
    Not { dest: Register, src: Register },
    RightShift { dest: Register, src: Register, amount: ShiftAmount },
    LeftShift { dest: Register, src: Register, amount: ShiftAmount },
    RightRoll { dest: Register, src: Register, amount: ShiftAmount },
    LeftRoll { dest: Register, src: Register, amount: ShiftAmount },
    Move { dest: Register, src: Register },
    LoadImmediate { dest: Register, slice: U2, imm: u16 },
    LoadRegister { dest: Register, mem_ptr: RegOrImm, slice: U3 },
    StoreRegister { src: Register, mem_ptr: RegOrImm, slice: U3 },
    Push { reg: Register },
    Pop { reg: Register },
    Compare { a: RegOrImm, b: RegOrImm, signed: bool },
    CompareFloat { a: Register, b: Register },
    CompareDouble { a: Register, b: Register },
    Branch { offset: BranchOffset },
    BranchGreater { offset: BranchOffset },
    BranchEqual { offset: BranchOffset },
    BranchSmaller { offset: BranchOffset },
    BranchGreaterEqual { offset: BranchOffset },
    BranchNotEqual { offset: BranchOffset },
    BranchSmallerEqual { offset: BranchOffset },
    ImmediateToFloat { dest: Register, imm: i16 },
    ImmediateToDouble { dest: Register, imm: i16 },
    IntegerToFloat { dest: Register, src: Register },
    IntegerToDouble { dest: Register, src: Register },
    FloatToInteger { dest: Register, src: Register },
    FloatToDouble { dest: Register, src: Register },
    DoubleToInteger { dest: Register, src: Register },
    DoubleToFloat { dest: Register, src: Register },
    FloatAdd { dest: Register, a: Register, b: Register },
    FloatSubtract { dest: Register, a: Register, b: Register },
    FloatMultiply { dest: Register, a: Register, b: Register },
    FloatDivide { dest: Register, a: Register, b: Register },
    FloatModulo { dest: Register, a: Register, b: Register },
    FloatNegate { dest: Register, src: Register },
    FloatReciprocal { dest: Register, src: Register },
    FloatPower { dest: Register, a: Register, b: Register },
    FloatExponential { dest: Register, src: Register },
    FloatRoot { dest: Register, a: Register, b: Register },
    FloatSquareRoot { dest: Register, src: Register },
    FloatCubeRoot { dest: Register, src: Register },
    FloatSquare { dest: Register, src: Register },
    FloatCube { dest: Register, src: Register },
    FloatLogarithm { dest: Register, a: Register, b: Register },
    FloatNaturalLogarithm { dest: Register, src: Register },
    FloatAbsolute { dest: Register, src: Register },
    FloatSine { dest: Register, src: Register },
    FloatCosine { dest: Register, src: Register },
    FloatTangent { dest: Register, src: Register },
    FloatArcsine { dest: Register, src: Register },
    FloatArccosine { dest: Register, src: Register },
    FloatArctangent { dest: Register, src: Register },
    FloatFloor { dest: Register, src: Register },
    FloatCeil { dest: Register, src: Register },
    FloatRound { dest: Register, src: Register },
    FloatMinimum { dest: Register, a: Register, b: Register },
    FloatMaximum { dest: Register, a: Register, b: Register },
    FloatSign { dest: Register, src: Register },
    FloatAbsoluteDifference { dest: Register, a: Register, b: Register },
    FloatLoadInfinity { dest: Register },
    FloatLoadNaN { dest: Register },
    DoubleAdd { dest: Register, a: Register, b: Register },
    DoubleSubtract { dest: Register, a: Register, b: Register },
    DoubleMultiply { dest: Register, a: Register, b: Register },
    DoubleDivide { dest: Register, a: Register, b: Register },
    DoubleModulo { dest: Register, a: Register, b: Register },
    DoubleNegate { dest: Register, src: Register },
    DoubleReciprocal { dest: Register, src: Register },
    DoublePower { dest: Register, a: Register, b: Register },
    DoubleExponential { dest: Register, src: Register },
    DoubleRoot { dest: Register, a: Register, b: Register },
    DoubleSquareRoot { dest: Register, src: Register },
    DoubleCubeRoot { dest: Register, src: Register },
    DoubleSquare { dest: Register, src: Register },
    DoubleCube { dest: Register, src: Register },
    DoubleLogarithm { dest: Register, a: Register, b: Register },
    DoubleNaturalLogarithm { dest: Register, src: Register },
    DoubleAbsolute { dest: Register, src: Register },
    DoubleSine { dest: Register, src: Register },
    DoubleCosine { dest: Register, src: Register },
    DoubleTangent { dest: Register, src: Register },
    DoubleArcsine { dest: Register, src: Register },
    DoubleArccosine { dest: Register, src: Register },
    DoubleArctangent { dest: Register, src: Register },
    DoubleFloor { dest: Register, src: Register },
    DoubleCeil { dest: Register, src: Register },
    DoubleRound { dest: Register, src: Register },
    DoubleMinimum { dest: Register, a: Register, b: Register },
    DoubleMaximum { dest: Register, a: Register, b: Register },
    DoubleSign { dest: Register, src: Register },
    DoubleAbsoluteDifference { dest: Register, a: Register, b: Register },
    DoubleLoadInfinity { dest: Register },
    DoubleLoadNaN { dest: Register },
}

/// The word whose eight nibbles, most significant first, are `a` to `h`
/// (each taken modulo 16).
pub open spec fn word8(a: nat, b: nat, c: nat, d: nat, e: nat, f: nat, g: nat, h: nat) -> u32 {
    ((a % 16) * 0x1000_0000 + (b % 16) * 0x100_0000 + (c % 16) * 0x10_0000 + (d % 16) * 0x1_0000 + (e % 16)
        * 0x1000 + (f % 16) * 0x100 + (g % 16) * 0x10 + (h % 16)) as u32
}

/// A register's number.
pub open spec fn rn(r: Register) -> nat {
    reg_num(r)
}

/// Nibble `k` (0 the most significant) of a 16-bit value.
pub open spec fn n16(v: u16, k: nat) -> nat {
    if k == 0 {
        v as nat / 0x1000
    } else if k == 1 {
        (v as nat / 0x100) % 16
    } else if k == 2 {
        (v as nat / 0x10) % 16
    } else {
        v as nat % 16
    }
}

/// The two's-complement bits of a signed 16-bit value.
pub open spec fn bits16(i: i16) -> u16 {
    if i < 0 {
        (i + 0x1_0000) as u16
    } else {
        i as u16
    }
}

/// The comparison subcode of operand form `form` (0: registers, 1:
/// register and immediate, 2: immediate and register): unsigned forms are 0
/// to 2, signed forms 3 to 5.
pub open spec fn cmp_sub(signed: bool, form: nat) -> nat {
    if signed {
        form + 3
    } else {
        form
    }
}

/// The word of an instruction; `None` where a two-operand form is given two
/// immediates, which no layout holds.
pub open spec fn instruction_word(i: Instruction) -> Option<u32> {
    match i {
        Instruction::Nop => Some(word8(0, 0, 0, 0, 0, 0, 0, 0)),
        Instruction::Add { dest, a, b } => match (a, b) {
            (RegOrImm::Reg(r1), RegOrImm::Reg(r2)) => Some(word8(1, rn(dest), rn(r1), rn(r2), 0, 0, 0, 0)),
            (RegOrImm::Reg(r), RegOrImm::Imm(imm)) => Some(word8(1, rn(dest), rn(r), n16(imm, 0), n16(imm, 1), n16(imm, 2), n16(imm, 3), 1)),
            (RegOrImm::Imm(imm), RegOrImm::Reg(r)) => Some(word8(1, rn(dest), rn(r), n16(imm, 0), n16(imm, 1), n16(imm, 2), n16(imm, 3), 1)),
            (RegOrImm::Imm(_), RegOrImm::Imm(_)) => None,
        },
        Instruction::Subtract { dest, a, b } => match (a, b) {
            (RegOrImm::Reg(r1), RegOrImm::Reg(r2)) => Some(word8(1, rn(dest), rn(r1), rn(r2), 0, 0, 0, 2)),
            (RegOrImm::Reg(r), RegOrImm::Imm(imm)) => Some(word8(1, rn(dest), rn(r), n16(imm, 0), n16(imm, 1), n16(imm, 2), n16(imm, 3), 3)),
            (RegOrImm::Imm(imm), RegOrImm::Reg(r)) => Some(word8(1, rn(dest), rn(r), n16(imm, 0), n16(imm, 1), n16(imm, 2), n16(imm, 3), 4)),
            (RegOrImm::Imm(_), RegOrImm::Imm(_)) => None,
        },
        Instruction::Multiply { dest, a, b } => match (a, b) {
            (RegOrImm::Reg(r1), RegOrImm::Reg(r2)) => Some(word8(1, rn(dest), rn(r1), rn(r2), 0, 0, 0, 5)),
            (RegOrImm::Reg(r), RegOrImm::Imm(imm)) => Some(word8(1, rn(dest), rn(r), n16(imm, 0), n16(imm, 1), n16(imm, 2), n16(imm, 3), 6)),
            (RegOrImm::Imm(imm), RegOrImm::Reg(r)) => Some(word8(1, rn(dest), rn(r), n16(imm, 0), n16(imm, 1), n16(imm, 2), n16(imm, 3), 6)),
            (RegOrImm::Imm(_), RegOrImm::Imm(_)) => None,
        },
        Instruction::Divide { dest, a, b } => match (a, b) {
            (RegOrImm::Reg(r1), RegOrImm::Reg(r2)) => Some(word8(1, rn(dest), rn(r1), rn(r2), 0, 0, 0, 7)),
            (RegOrImm::Reg(r), RegOrImm::Imm(imm)) => Some(word8(1, rn(dest), rn(r), n16(imm, 0), n16(imm, 1), n16(imm, 2), n16(imm, 3), 8)),
            (RegOrImm::Imm(imm), RegOrImm::Reg(r)) => Some(word8(1, rn(dest), rn(r), n16(imm, 0), n16(imm, 1), n16(imm, 2), n16(imm, 3), 9)),
            (RegOrImm::Imm(_), RegOrImm::Imm(_)) => None,
        },
        Instruction::DivideSigned { dest, a, b } => match (a, b) {
            (RegOrImm::Reg(r1), RegOrImm::Reg(r2)) => Some(word8(1, rn(dest), rn(r1), rn(r2), 0, 0, 0, 10)),
            (RegOrImm::Reg(r), RegOrImm::Imm(imm)) => Some(word8(1, rn(dest), rn(r), n16(imm, 0), n16(imm, 1), n16(imm, 2), n16(imm, 3), 11)),
            (RegOrImm::Imm(imm), RegOrImm::Reg(r)) => Some(word8(1, rn(dest), rn(r), n16(imm, 0), n16(imm, 1), n16(imm, 2), n16(imm, 3), 12)),
            (RegOrImm::Imm(_), RegOrImm::Imm(_)) => None,
        },
        Instruction::And { dest, a, b } => Some(word8(2, rn(dest), rn(a), rn(b), 0, 0, 0, 0)),
        Instruction::Or { dest, a, b } => Some(word8(2, rn(dest), rn(a), rn(b), 0, 0, 0, 1)),
        Instruction::Xor { dest, a, b } => Some(word8(2, rn(dest), rn(a), rn(b), 0, 0, 0, 2)),
        Instruction::Nand { dest, a, b } => Some(word8(2, rn(dest), rn(a), rn(b), 0, 0, 0, 3)),
        Instruction::Nor { dest, a, b } => Some(word8(2, rn(dest), rn(a), rn(b), 0, 0, 0, 4)),
        Instruction::Xnor { dest, a, b } => Some(word8(2, rn(dest), rn(a), rn(b), 0, 0, 0, 5)),
        Instruction::Not { dest, src } => Some(word8(2, rn(dest), rn(src), 0, 0, 0, 0, 6)),
        Instruction::RightShift { dest, src, amount } => match amount {
            ShiftAmount::Reg(r) => Some(word8(3, rn(dest), rn(src), rn(r), 0, 0, 0, 0)),
            ShiftAmount::Imm(v) => Some(word8(3, rn(dest), rn(src), 0, 0, v.value() as nat / 16, v.value() as nat % 16, 1)),
        },
        Instruction::LeftShift { dest, src, amount } => match amount {
            ShiftAmount::Reg(r) => Some(word8(3, rn(dest), rn(src), rn(r), 0, 0, 0, 2)),
            ShiftAmount::Imm(v) => Some(word8(3, rn(dest), rn(src), 0, 0, v.value() as nat / 16, v.value() as nat % 16, 3)),
        },
        Instruction::RightRoll { dest, src, amount } => match amount {
            ShiftAmount::Reg(r) => Some(word8(3, rn(dest), rn(src), rn(r), 0, 0, 0, 4)),
            ShiftAmount::Imm(v) => Some(word8(3, rn(dest), rn(src), 0, 0, v.value() as nat / 16, v.value() as nat % 16, 5)),
        },
        Instruction::LeftRoll { dest, src, amount } => match amount {
            ShiftAmount::Reg(r) => Some(word8(3, rn(dest), rn(src), rn(r), 0, 0, 0, 6)),
            ShiftAmount::Imm(v) => Some(word8(3, rn(dest), rn(src), 0, 0, v.value() as nat / 16, v.value() as nat % 16, 7)),
        },
        Instruction::Move { dest, src } => Some(word8(4, rn(dest), rn(src), 0, 0, 0, 0, 0)),
        Instruction::LoadImmediate { dest, slice, imm } => Some(word8(4, rn(dest), n16(imm, 0), n16(imm, 1), n16(imm, 2), n16(imm, 3), slice.value() as nat, 1)),
        Instruction::LoadRegister { dest, mem_ptr, slice } => match mem_ptr {
            RegOrImm::Reg(r) => Some(word8(4, rn(dest), rn(r), 0, 0, 0, slice.value() as nat, 2)),
            RegOrImm::Imm(imm) => Some(word8(4, rn(dest), n16(imm, 0), n16(imm, 1), n16(imm, 2), n16(imm, 3), slice.value() as nat, 3)),
        },
        Instruction::StoreRegister { src, mem_ptr, slice } => match mem_ptr {
            RegOrImm::Reg(r) => Some(word8(4, rn(src), rn(r), 0, 0, 0, slice.value() as nat, 4)),
            RegOrImm::Imm(imm) => Some(word8(4, rn(src), n16(imm, 0), n16(imm, 1), n16(imm, 2), n16(imm, 3), slice.value() as nat, 5)),
        },
        Instruction::Push { reg } => Some(word8(4, rn(reg), 0, 0, 0, 0, 0, 6)),
        Instruction::Pop { reg } => Some(word8(4, rn(reg), 0, 0, 0, 0, 0, 7)),
        Instruction::Compare { a, b, signed } => match (a, b) {
            (RegOrImm::Reg(r1), RegOrImm::Reg(r2)) => Some(word8(5, rn(r1), rn(r2), 0, 0, 0, 0, cmp_sub(signed, 0))),
            (RegOrImm::Reg(r), RegOrImm::Imm(imm)) => Some(word8(5, rn(r), n16(imm, 0), n16(imm, 1), n16(imm, 2), n16(imm, 3), 0, cmp_sub(signed, 1))),
            (RegOrImm::Imm(imm), RegOrImm::Reg(r)) => Some(word8(5, rn(r), n16(imm, 0), n16(imm, 1), n16(imm, 2), n16(imm, 3), 0, cmp_sub(signed, 2))),
            (RegOrImm::Imm(_), RegOrImm::Imm(_)) => None,
        },
        Instruction::CompareFloat { a, b } => Some(word8(5, rn(a), rn(b), 0, 0, 0, 0, 6)),
        Instruction::CompareDouble { a, b } => Some(word8(5, rn(a), rn(b), 0, 0, 0, 0, 7)),
        Instruction::Branch { offset } => match offset {
            BranchOffset::Reg(r) => Some(word8(6, rn(r), 0, 0, 0, 0, 0, 0)),
            BranchOffset::Imm(imm) => Some(word8(6, n16(bits16(imm), 0), n16(bits16(imm), 1), n16(bits16(imm), 2), n16(bits16(imm), 3), 0, 0, 1)),
        },
        Instruction::BranchGreater { offset } => match offset {
            BranchOffset::Reg(r) => Some(word8(6, rn(r), 0, 0, 0, 0, 0, 2)),
            BranchOffset::Imm(imm) => Some(word8(6, n16(bits16(imm), 0), n16(bits16(imm), 1), n16(bits16(imm), 2), n16(bits16(imm), 3), 0, 0, 3)),
        },
        Instruction::BranchEqual { offset } => match offset {
            BranchOffset::Reg(r) => Some(word8(6, rn(r), 0, 0, 0, 0, 0, 4)),
            BranchOffset::Imm(imm) => Some(word8(6, n16(bits16(imm), 0), n16(bits16(imm), 1), n16(bits16(imm), 2), n16(bits16(imm), 3), 0, 0, 5)),
        },
        Instruction::BranchSmaller { offset } => match offset {
            BranchOffset::Reg(r) => Some(word8(6, rn(r), 0, 0, 0, 0, 0, 6)),
            BranchOffset::Imm(imm) => Some(word8(6, n16(bits16(imm), 0), n16(bits16(imm), 1), n16(bits16(imm), 2), n16(bits16(imm), 3), 0, 0, 7)),
        },
        Instruction::BranchGreaterEqual { offset } => match offset {
            BranchOffset::Reg(r) => Some(word8(6, rn(r), 0, 0, 0, 0, 0, 8)),
            BranchOffset::Imm(imm) => Some(word8(6, n16(bits16(imm), 0), n16(bits16(imm), 1), n16(bits16(imm), 2), n16(bits16(imm), 3), 0, 0, 9)),
        },
        Instruction::BranchNotEqual { offset } => match offset {
            BranchOffset::Reg(r) => Some(word8(6, rn(r), 0, 0, 0, 0, 0, 10)),
            BranchOffset::Imm(imm) => Some(word8(6, n16(bits16(imm), 0), n16(bits16(imm), 1), n16(bits16(imm), 2), n16(bits16(imm), 3), 0, 0, 11)),
        },
        Instruction::BranchSmallerEqual { offset } => match offset {
            BranchOffset::Reg(r) => Some(word8(6, rn(r), 0, 0, 0, 0, 0, 12)),
            BranchOffset::Imm(imm) => Some(word8(6, n16(bits16(imm), 0), n16(bits16(imm), 1), n16(bits16(imm), 2), n16(bits16(imm), 3), 0, 0, 13)),
        },
        Instruction::ImmediateToFloat { dest, imm } => Some(word8(7, rn(dest), n16(bits16(imm), 0), n16(bits16(imm), 1), n16(bits16(imm), 2), n16(bits16(imm), 3), 0, 0)),
        Instruction::ImmediateToDouble { dest, imm } => Some(word8(7, rn(dest), n16(bits16(imm), 0), n16(bits16(imm), 1), n16(bits16(imm), 2), n16(bits16(imm), 3), 0, 1)),
        Instruction::IntegerToFloat { dest, src } => Some(word8(7, rn(dest), rn(src), 0, 0, 0, 0, 2)),
        Instruction::IntegerToDouble { dest, src } => Some(word8(7, rn(dest), rn(src), 0, 0, 0, 0, 3)),
        Instruction::FloatToInteger { dest, src } => Some(word8(7, rn(dest), rn(src), 0, 0, 0, 0, 4)),
        Instruction::FloatToDouble { dest, src } => Some(word8(7, rn(dest), rn(src), 0, 0, 0, 0, 5)),
        Instruction::DoubleToInteger { dest, src } => Some(word8(7, rn(dest), rn(src), 0, 0, 0, 0, 6)),
        Instruction::DoubleToFloat { dest, src } => Some(word8(7, rn(dest), rn(src), 0, 0, 0, 0, 7)),
        Instruction::FloatAdd { dest, a, b } => Some(word8(8, rn(dest), rn(a), rn(b), 0, 0, 0, 0)),
        Instruction::FloatSubtract { dest, a, b } => Some(word8(8, rn(dest), rn(a), rn(b), 0, 0, 0, 1)),
        Instruction::FloatMultiply { dest, a, b } => Some(word8(8, rn(dest), rn(a), rn(b), 0, 0, 0, 2)),
        Instruction::FloatDivide { dest, a, b } => Some(word8(8, rn(dest), rn(a), rn(b), 0, 0, 0, 3)),
        Instruction::FloatModulo { dest, a, b } => Some(word8(8, rn(dest), rn(a), rn(b), 0, 0, 0, 4)),
        Instruction::FloatNegate { dest, src } => Some(word8(8, rn(dest), rn(src), 0, 0, 0, 0, 5)),
        Instruction::FloatReciprocal { dest, src } => Some(word8(8, rn(dest), rn(src), 0, 0, 0, 0, 6)),
        Instruction::FloatPower { dest, a, b } => Some(word8(8, rn(dest), rn(a), rn(b), 0, 0, 0, 7)),
        Instruction::FloatExponential { dest, src } => Some(word8(8, rn(dest), rn(src), 0, 0, 0, 0, 8)),
        Instruction::FloatRoot { dest, a, b } => Some(word8(8, rn(dest), rn(a), rn(b), 0, 0, 0, 9)),
        Instruction::FloatSquareRoot { dest, src } => Some(word8(8, rn(dest), rn(src), 0, 0, 0, 0, 10)),
        Instruction::FloatCubeRoot { dest, src } => Some(word8(8, rn(dest), rn(src), 0, 0, 0, 0, 11)),
        Instruction::FloatSquare { dest, src } => Some(word8(8, rn(dest), rn(src), 0, 0, 0, 0, 12)),
        Instruction::FloatCube { dest, src } => Some(word8(8, rn(dest), rn(src), 0, 0, 0, 0, 13)),
        Instruction::FloatLogarithm { dest, a, b } => Some(word8(8, rn(dest), rn(a), rn(b), 0, 0, 0, 14)),
        Instruction::FloatNaturalLogarithm { dest, src } => Some(word8(8, rn(dest), rn(src), 0, 0, 0, 0, 15)),
        Instruction::FloatAbsolute { dest, src } => Some(word8(8, rn(dest), rn(src), 0, 0, 0, 1, 0)),
        Instruction::FloatSine { dest, src } => Some(word8(8, rn(dest), rn(src), 0, 0, 0, 1, 1)),
        Instruction::FloatCosine { dest, src } => Some(word8(8, rn(dest), rn(src), 0, 0, 0, 1, 2)),
        Instruction::FloatTangent { dest, src } => Some(word8(8, rn(dest), rn(src), 0, 0, 0, 1, 3)),
        Instruction::FloatArcsine { dest, src } => Some(word8(8, rn(dest), rn(src), 0, 0, 0, 1, 4)),
        Instruction::FloatArccosine { dest, src } => Some(word8(8, rn(dest), rn(src), 0, 0, 0, 1, 5)),
        Instruction::FloatArctangent { dest, src } => Some(word8(8, rn(dest), rn(src), 0, 0, 0, 1, 6)),
        Instruction::FloatFloor { dest, src } => Some(word8(8, rn(dest), rn(src), 0, 0, 0, 1, 7)),
        Instruction::FloatCeil { dest, src } => Some(word8(8, rn(dest), rn(src), 0, 0, 0, 1, 8)),
        Instruction::FloatRound { dest, src } => Some(word8(8, rn(dest), rn(src), 0, 0, 0, 1, 9)),
        Instruction::FloatMinimum { dest, a, b } => Some(word8(8, rn(dest), rn(a), rn(b), 0, 0, 1, 10)),
        Instruction::FloatMaximum { dest, a, b } => Some(word8(8, rn(dest), rn(a), rn(b), 0, 0, 1, 11)),
        Instruction::FloatSign { dest, src } => Some(word8(8, rn(dest), rn(src), 0, 0, 0, 1, 12)),
        Instruction::FloatAbsoluteDifference { dest, a, b } => Some(word8(8, rn(dest), rn(a), rn(b), 0, 0, 1, 13)),
        Instruction::FloatLoadInfinity { dest } => Some(word8(8, rn(dest), 0, 0, 0, 0, 1, 14)),
        Instruction::FloatLoadNaN { dest } => Some(word8(8, rn(dest), 0, 0, 0, 0, 1, 15)),
        Instruction::DoubleAdd { dest, a, b } => Some(word8(9, rn(dest), rn(a), rn(b), 0, 0, 0, 0)),
        Instruction::DoubleSubtract { dest, a, b } => Some(word8(9, rn(dest), rn(a), rn(b), 0, 0, 0, 1)),
        Instruction::DoubleMultiply { dest, a, b } => Some(word8(9, rn(dest), rn(a), rn(b), 0, 0, 0, 2)),
        Instruction::DoubleDivide { dest, a, b } => Some(word8(9, rn(dest), rn(a), rn(b), 0, 0, 0, 3)),
        Instruction::DoubleModulo { dest, a, b } => Some(word8(9, rn(dest), rn(a), rn(b), 0, 0, 0, 4)),
        Instruction::DoubleNegate { dest, src } => Some(word8(9, rn(dest), rn(src), 0, 0, 0, 0, 5)),
        Instruction::DoubleReciprocal { dest, src } => Some(word8(9, rn(dest), rn(src), 0, 0, 0, 0, 6)),
        Instruction::DoublePower { dest, a, b } => Some(word8(9, rn(dest), rn(a), rn(b), 0, 0, 0, 7)),
        Instruction::DoubleExponential { dest, src } => Some(word8(9, rn(dest), rn(src), 0, 0, 0, 0, 8)),
        Instruction::DoubleRoot { dest, a, b } => Some(word8(9, rn(dest), rn(a), rn(b), 0, 0, 0, 9)),
        Instruction::DoubleSquareRoot { dest, src } => Some(word8(9, rn(dest), rn(src), 0, 0, 0, 0, 10)),
        Instruction::DoubleCubeRoot { dest, src } => Some(word8(9, rn(dest), rn(src), 0, 0, 0, 0, 11)),
        Instruction::DoubleSquare { dest, src } => Some(word8(9, rn(dest), rn(src), 0, 0, 0, 0, 12)),
        Instruction::DoubleCube { dest, src } => Some(word8(9, rn(dest), rn(src), 0, 0, 0, 0, 13)),
        Instruction::DoubleLogarithm { dest, a, b } => Some(word8(9, rn(dest), rn(a), rn(b), 0, 0, 0, 14)),
        Instruction::DoubleNaturalLogarithm { dest, src } => Some(word8(9, rn(dest), rn(src), 0, 0, 0, 0, 15)),
        Instruction::DoubleAbsolute { dest, src } => Some(word8(9, rn(dest), rn(src), 0, 0, 0, 1, 0)),
        Instruction::DoubleSine { dest, src } => Some(word8(9, rn(dest), rn(src), 0, 0, 0, 1, 1)),
        Instruction::DoubleCosine { dest, src } => Some(word8(9, rn(dest), rn(src), 0, 0, 0, 1, 2)),
        Instruction::DoubleTangent { dest, src } => Some(word8(9, rn(dest), rn(src), 0, 0, 0, 1, 3)),
        Instruction::DoubleArcsine { dest, src } => Some(word8(9, rn(dest), rn(src), 0, 0, 0, 1, 4)),
        Instruction::DoubleArccosine { dest, src } => Some(word8(9, rn(dest), rn(src), 0, 0, 0, 1, 5)),
        Instruction::DoubleArctangent { dest, src } => Some(word8(9, rn(dest), rn(src), 0, 0, 0, 1, 6)),
        Instruction::DoubleFloor { dest, src } => Some(word8(9, rn(dest), rn(src), 0, 0, 0, 1, 7)),
        Instruction::DoubleCeil { dest, src } => Some(word8(9, rn(dest), rn(src), 0, 0, 0, 1, 8)),
        Instruction::DoubleRound { dest, src } => Some(word8(9, rn(dest), rn(src), 0, 0, 0, 1, 9)),
        Instruction::DoubleMinimum { dest, a, b } => Some(word8(9, rn(dest), rn(a), rn(b), 0, 0, 1, 10)),
        Instruction::DoubleMaximum { dest, a, b } => Some(word8(9, rn(dest), rn(a), rn(b), 0, 0, 1, 11)),
        Instruction::DoubleSign { dest, src } => Some(word8(9, rn(dest), rn(src), 0, 0, 0, 1, 12)),
        Instruction::DoubleAbsoluteDifference { dest, a, b } => Some(word8(9, rn(dest), rn(a), rn(b), 0, 0, 1, 13)),
        Instruction::DoubleLoadInfinity { dest } => Some(word8(9, rn(dest), 0, 0, 0, 0, 1, 14)),
        Instruction::DoubleLoadNaN { dest } => Some(word8(9, rn(dest), 0, 0, 0, 0, 1, 15)),
    }
}

fn w8(a: u32, b: u32, c: u32, d: u32, e: u32, f: u32, g: u32, h: u32) -> (r: u32)
    ensures
        r == word8(a as nat, b as nat, c as nat, d as nat, e as nat, f as nat, g as nat, h as nat),
{
    pack_nibbles([a % 16, b % 16, c % 16, d % 16, e % 16, f % 16, g % 16, h % 16])
}

fn reg_nibble(r: Register) -> (n: u32)
    ensures
        n as nat == rn(r),
{
    r.index() as u32
}

fn signed_bits(i: i16) -> (r: u16)
    ensures
        r == bits16(i),
{
    if i < 0 {
        (i as i32 + 0x1_0000) as u16
    } else {
        i as u16
    }
}

impl Instruction {
    /// The instruction's word: `None` where a two-operand form is given
    /// two immediates.
    pub fn assemble(self) -> (r: Option<u32>)
        ensures
            r == instruction_word(self),
    {
        match self {
            Instruction::Nop => Some(w8(0, 0, 0, 0, 0, 0, 0, 0)),
            Instruction::Add { dest, a, b } => match (a, b) {
                (RegOrImm::Reg(r1), RegOrImm::Reg(r2)) => Some(w8(1, reg_nibble(dest), reg_nibble(r1), reg_nibble(r2), 0, 0, 0, 0)),
                (RegOrImm::Reg(r), RegOrImm::Imm(imm)) => {
                    let ui = split_u16_into_nibbles(imm);
                    Some(w8(1, reg_nibble(dest), reg_nibble(r), ui.0, ui.1, ui.2, ui.3, 1))
                },
                (RegOrImm::Imm(imm), RegOrImm::Reg(r)) => {
                    let ui = split_u16_into_nibbles(imm);
                    Some(w8(1, reg_nibble(dest), reg_nibble(r), ui.0, ui.1, ui.2, ui.3, 1))
                },
                (RegOrImm::Imm(_), RegOrImm::Imm(_)) => None,
            },
            Instruction::Subtract { dest, a, b } => match (a, b) {
                (RegOrImm::Reg(r1), RegOrImm::Reg(r2)) => Some(w8(1, reg_nibble(dest), reg_nibble(r1), reg_nibble(r2), 0, 0, 0, 2)),
                (RegOrImm::Reg(r), RegOrImm::Imm(imm)) => {
                    let ui = split_u16_into_nibbles(imm);
                    Some(w8(1, reg_nibble(dest), reg_nibble(r), ui.0, ui.1, ui.2, ui.3, 3))
                },
                (RegOrImm::Imm(imm), RegOrImm::Reg(r)) => {
                    let ui = split_u16_into_nibbles(imm);
                    Some(w8(1, reg_nibble(dest), reg_nibble(r), ui.0, ui.1, ui.2, ui.3, 4))
                },
                (RegOrImm::Imm(_), RegOrImm::Imm(_)) => None,
            },
            Instruction::Multiply { dest, a, b } => match (a, b) {
                (RegOrImm::Reg(r1), RegOrImm::Reg(r2)) => Some(w8(1, reg_nibble(dest), reg_nibble(r1), reg_nibble(r2), 0, 0, 0, 5)),
                (RegOrImm::Reg(r), RegOrImm::Imm(imm)) => {
                    let ui = split_u16_into_nibbles(imm);
                    Some(w8(1, reg_nibble(dest), reg_nibble(r), ui.0, ui.1, ui.2, ui.3, 6))
                },
                (RegOrImm::Imm(imm), RegOrImm::Reg(r)) => {
                    let ui = split_u16_into_nibbles(imm);
                    Some(w8(1, reg_nibble(dest), reg_nibble(r), ui.0, ui.1, ui.2, ui.3, 6))
                },
                (RegOrImm::Imm(_), RegOrImm::Imm(_)) => None,
            },
            Instruction::Divide { dest, a, b } => match (a, b) {
                (RegOrImm::Reg(r1), RegOrImm::Reg(r2)) => Some(w8(1, reg_nibble(dest), reg_nibble(r1), reg_nibble(r2), 0, 0, 0, 7)),
                (RegOrImm::Reg(r), RegOrImm::Imm(imm)) => {
                    let ui = split_u16_into_nibbles(imm);
                    Some(w8(1, reg_nibble(dest), reg_nibble(r), ui.0, ui.1, ui.2, ui.3, 8))
                },
                (RegOrImm::Imm(imm), RegOrImm::Reg(r)) => {
                    let ui = split_u16_into_nibbles(imm);
                    Some(w8(1, reg_nibble(dest), reg_nibble(r), ui.0, ui.1, ui.2, ui.3, 9))
                },
                (RegOrImm::Imm(_), RegOrImm::Imm(_)) => None,
            },
            Instruction::DivideSigned { dest, a, b } => match (a, b) {
                (RegOrImm::Reg(r1), RegOrImm::Reg(r2)) => Some(w8(1, reg_nibble(dest), reg_nibble(r1), reg_nibble(r2), 0, 0, 0, 10)),
                (RegOrImm::Reg(r), RegOrImm::Imm(imm)) => {
                    let ui = split_u16_into_nibbles(imm);
                    Some(w8(1, reg_nibble(dest), reg_nibble(r), ui.0, ui.1, ui.2, ui.3, 11))
                },
                (RegOrImm::Imm(imm), RegOrImm::Reg(r)) => {
                    let ui = split_u16_into_nibbles(imm);
                    Some(w8(1, reg_nibble(dest), reg_nibble(r), ui.0, ui.1, ui.2, ui.3, 12))
                },
                (RegOrImm::Imm(_), RegOrImm::Imm(_)) => None,
            },
            Instruction::And { dest, a, b } => Some(w8(2, reg_nibble(dest), reg_nibble(a), reg_nibble(b), 0, 0, 0, 0)),
            Instruction::Or { dest, a, b } => Some(w8(2, reg_nibble(dest), reg_nibble(a), reg_nibble(b), 0, 0, 0, 1)),
            Instruction::Xor { dest, a, b } => Some(w8(2, reg_nibble(dest), reg_nibble(a), reg_nibble(b), 0, 0, 0, 2)),
            Instruction::Nand { dest, a, b } => Some(w8(2, reg_nibble(dest), reg_nibble(a), reg_nibble(b), 0, 0, 0, 3)),
            Instruction::Nor { dest, a, b } => Some(w8(2, reg_nibble(dest), reg_nibble(a), reg_nibble(b), 0, 0, 0, 4)),
            Instruction::Xnor { dest, a, b } => Some(w8(2, reg_nibble(dest), reg_nibble(a), reg_nibble(b), 0, 0, 0, 5)),
            Instruction::Not { dest, src } => Some(w8(2, reg_nibble(dest), reg_nibble(src), 0, 0, 0, 0, 6)),
            Instruction::RightShift { dest, src, amount } => match amount {
                ShiftAmount::Reg(r) => Some(w8(3, reg_nibble(dest), reg_nibble(src), reg_nibble(r), 0, 0, 0, 0)),
                ShiftAmount::Imm(v) => {
                    let h6 = split_u6_into_nibbles(v);
                    Some(w8(3, reg_nibble(dest), reg_nibble(src), 0, 0, h6.0, h6.1, 1))
                },
            },
            Instruction::LeftShift { dest, src, amount } => match amount {
                ShiftAmount::Reg(r) => Some(w8(3, reg_nibble(dest), reg_nibble(src), reg_nibble(r), 0, 0, 0, 2)),
                ShiftAmount::Imm(v) => {
                    let h6 = split_u6_into_nibbles(v);
                    Some(w8(3, reg_nibble(dest), reg_nibble(src), 0, 0, h6.0, h6.1, 3))
                },
            },
            Instruction::RightRoll { dest, src, amount } => match amount {
                ShiftAmount::Reg(r) => Some(w8(3, reg_nibble(dest), reg_nibble(src), reg_nibble(r), 0, 0, 0, 4)),
                ShiftAmount::Imm(v) => {
                    let h6 = split_u6_into_nibbles(v);
                    Some(w8(3, reg_nibble(dest), reg_nibble(src), 0, 0, h6.0, h6.1, 5))
                },
            },
            Instruction::LeftRoll { dest, src, amount } => match amount {
                ShiftAmount::Reg(r) => Some(w8(3, reg_nibble(dest), reg_nibble(src), reg_nibble(r), 0, 0, 0, 6)),
                ShiftAmount::Imm(v) => {
                    let h6 = split_u6_into_nibbles(v);
                    Some(w8(3, reg_nibble(dest), reg_nibble(src), 0, 0, h6.0, h6.1, 7))
                },
            },
            Instruction::Move { dest, src } => Some(w8(4, reg_nibble(dest), reg_nibble(src), 0, 0, 0, 0, 0)),
            Instruction::LoadImmediate { dest, slice, imm } => {
                let ui = split_u16_into_nibbles(imm);
                Some(w8(4, reg_nibble(dest), ui.0, ui.1, ui.2, ui.3, slice.get() as u32, 1))
            },
            Instruction::LoadRegister { dest, mem_ptr, slice } => match mem_ptr {
                RegOrImm::Reg(r) => Some(w8(4, reg_nibble(dest), reg_nibble(r), 0, 0, 0, slice.get() as u32, 2)),
                RegOrImm::Imm(imm) => {
                    let ui = split_u16_into_nibbles(imm);
                    Some(w8(4, reg_nibble(dest), ui.0, ui.1, ui.2, ui.3, slice.get() as u32, 3))
                },
            },
            Instruction::StoreRegister { src, mem_ptr, slice } => match mem_ptr {
                RegOrImm::Reg(r) => Some(w8(4, reg_nibble(src), reg_nibble(r), 0, 0, 0, slice.get() as u32, 4)),
                RegOrImm::Imm(imm) => {
                    let ui = split_u16_into_nibbles(imm);
                    Some(w8(4, reg_nibble(src), ui.0, ui.1, ui.2, ui.3, slice.get() as u32, 5))
                },
            },
            Instruction::Push { reg } => Some(w8(4, reg_nibble(reg), 0, 0, 0, 0, 0, 6)),
            Instruction::Pop { reg } => Some(w8(4, reg_nibble(reg), 0, 0, 0, 0, 0, 7)),
            Instruction::Compare { a, b, signed } => match (a, b) {
                (RegOrImm::Reg(r1), RegOrImm::Reg(r2)) => Some(w8(5, reg_nibble(r1), reg_nibble(r2), 0, 0, 0, 0, if signed { 3 } else { 0 })),
                (RegOrImm::Reg(r), RegOrImm::Imm(imm)) => {
                    let ui = split_u16_into_nibbles(imm);
                    Some(w8(5, reg_nibble(r), ui.0, ui.1, ui.2, ui.3, 0, if signed { 4 } else { 1 }))
                },
                (RegOrImm::Imm(imm), RegOrImm::Reg(r)) => {
                    let ui = split_u16_into_nibbles(imm);
                    Some(w8(5, reg_nibble(r), ui.0, ui.1, ui.2, ui.3, 0, if signed { 5 } else { 2 }))
                },
                (RegOrImm::Imm(_), RegOrImm::Imm(_)) => None,
            },
            Instruction::CompareFloat { a, b } => Some(w8(5, reg_nibble(a), reg_nibble(b), 0, 0, 0, 0, 6)),
            Instruction::CompareDouble { a, b } => Some(w8(5, reg_nibble(a), reg_nibble(b), 0, 0, 0, 0, 7)),
            Instruction::Branch { offset } => match offset {
                BranchOffset::Reg(r) => Some(w8(6, reg_nibble(r), 0, 0, 0, 0, 0, 0)),
                BranchOffset::Imm(imm) => {
                    let si = split_u16_into_nibbles(signed_bits(imm));
                    Some(w8(6, si.0, si.1, si.2, si.3, 0, 0, 1))
                },
            },
            Instruction::BranchGreater { offset } => match offset {
                BranchOffset::Reg(r) => Some(w8(6, reg_nibble(r), 0, 0, 0, 0, 0, 2)),
                BranchOffset::Imm(imm) => {
                    let si = split_u16_into_nibbles(signed_bits(imm));
                    Some(w8(6, si.0, si.1, si.2, si.3, 0, 0, 3))
                },
            },
            Instruction::BranchEqual { offset } => match offset {
                BranchOffset::Reg(r) => Some(w8(6, reg_nibble(r), 0, 0, 0, 0, 0, 4)),
                BranchOffset::Imm(imm) => {
                    let si = split_u16_into_nibbles(signed_bits(imm));
                    Some(w8(6, si.0, si.1, si.2, si.3, 0, 0, 5))
                },
            },
            Instruction::BranchSmaller { offset } => match offset {
                BranchOffset::Reg(r) => Some(w8(6, reg_nibble(r), 0, 0, 0, 0, 0, 6)),
                BranchOffset::Imm(imm) => {
                    let si = split_u16_into_nibbles(signed_bits(imm));
                    Some(w8(6, si.0, si.1, si.2, si.3, 0, 0, 7))
                },
            },
            Instruction::BranchGreaterEqual { offset } => match offset {
                BranchOffset::Reg(r) => Some(w8(6, reg_nibble(r), 0, 0, 0, 0, 0, 8)),
                BranchOffset::Imm(imm) => {
                    let si = split_u16_into_nibbles(signed_bits(imm));
                    Some(w8(6, si.0, si.1, si.2, si.3, 0, 0, 9))
                },
            },
            Instruction::BranchNotEqual { offset } => match offset {
                BranchOffset::Reg(r) => Some(w8(6, reg_nibble(r), 0, 0, 0, 0, 0, 10)),
                BranchOffset::Imm(imm) => {
                    let si = split_u16_into_nibbles(signed_bits(imm));
                    Some(w8(6, si.0, si.1, si.2, si.3, 0, 0, 11))
                },
            },
            Instruction::BranchSmallerEqual { offset } => match offset {
                BranchOffset::Reg(r) => Some(w8(6, reg_nibble(r), 0, 0, 0, 0, 0, 12)),
                BranchOffset::Imm(imm) => {
                    let si = split_u16_into_nibbles(signed_bits(imm));
                    Some(w8(6, si.0, si.1, si.2, si.3, 0, 0, 13))
                },
            },
            Instruction::ImmediateToFloat { dest, imm } => {
                let si = split_u16_into_nibbles(signed_bits(imm));
                Some(w8(7, reg_nibble(dest), si.0, si.1, si.2, si.3, 0, 0))
            },
            Instruction::ImmediateToDouble { dest, imm } => {
                let si = split_u16_into_nibbles(signed_bits(imm));
                Some(w8(7, reg_nibble(dest), si.0, si.1, si.2, si.3, 0, 1))
            },
            Instruction::IntegerToFloat { dest, src } => Some(w8(7, reg_nibble(dest), reg_nibble(src), 0, 0, 0, 0, 2)),
            Instruction::IntegerToDouble { dest, src } => Some(w8(7, reg_nibble(dest), reg_nibble(src), 0, 0, 0, 0, 3)),
            Instruction::FloatToInteger { dest, src } => Some(w8(7, reg_nibble(dest), reg_nibble(src), 0, 0, 0, 0, 4)),
            Instruction::FloatToDouble { dest, src } => Some(w8(7, reg_nibble(dest), reg_nibble(src), 0, 0, 0, 0, 5)),
            Instruction::DoubleToInteger { dest, src } => Some(w8(7, reg_nibble(dest), reg_nibble(src), 0, 0, 0, 0, 6)),
            Instruction::DoubleToFloat { dest, src } => Some(w8(7, reg_nibble(dest), reg_nibble(src), 0, 0, 0, 0, 7)),
            Instruction::FloatAdd { dest, a, b } => Some(w8(8, reg_nibble(dest), reg_nibble(a), reg_nibble(b), 0, 0, 0, 0)),
            Instruction::FloatSubtract { dest, a, b } => Some(w8(8, reg_nibble(dest), reg_nibble(a), reg_nibble(b), 0, 0, 0, 1)),
            Instruction::FloatMultiply { dest, a, b } => Some(w8(8, reg_nibble(dest), reg_nibble(a), reg_nibble(b), 0, 0, 0, 2)),
            Instruction::FloatDivide { dest, a, b } => Some(w8(8, reg_nibble(dest), reg_nibble(a), reg_nibble(b), 0, 0, 0, 3)),
            Instruction::FloatModulo { dest, a, b } => Some(w8(8, reg_nibble(dest), reg_nibble(a), reg_nibble(b), 0, 0, 0, 4)),
            Instruction::FloatNegate { dest, src } => Some(w8(8, reg_nibble(dest), reg_nibble(src), 0, 0, 0, 0, 5)),
            Instruction::FloatReciprocal { dest, src } => Some(w8(8, reg_nibble(dest), reg_nibble(src), 0, 0, 0, 0, 6)),
            Instruction::FloatPower { dest, a, b } => Some(w8(8, reg_nibble(dest), reg_nibble(a), reg_nibble(b), 0, 0, 0, 7)),
            Instruction::FloatExponential { dest, src } => Some(w8(8, reg_nibble(dest), reg_nibble(src), 0, 0, 0, 0, 8)),
            Instruction::FloatRoot { dest, a, b } => Some(w8(8, reg_nibble(dest), reg_nibble(a), reg_nibble(b), 0, 0, 0, 9)),
            Instruction::FloatSquareRoot { dest, src } => Some(w8(8, reg_nibble(dest), reg_nibble(src), 0, 0, 0, 0, 10)),
            Instruction::FloatCubeRoot { dest, src } => Some(w8(8, reg_nibble(dest), reg_nibble(src), 0, 0, 0, 0, 11)),
            Instruction::FloatSquare { dest, src } => Some(w8(8, reg_nibble(dest), reg_nibble(src), 0, 0, 0, 0, 12)),
            Instruction::FloatCube { dest, src } => Some(w8(8, reg_nibble(dest), reg_nibble(src), 0, 0, 0, 0, 13)),
            Instruction::FloatLogarithm { dest, a, b } => Some(w8(8, reg_nibble(dest), reg_nibble(a), reg_nibble(b), 0, 0, 0, 14)),
            Instruction::FloatNaturalLogarithm { dest, src } => Some(w8(8, reg_nibble(dest), reg_nibble(src), 0, 0, 0, 0, 15)),
            Instruction::FloatAbsolute { dest, src } => Some(w8(8, reg_nibble(dest), reg_nibble(src), 0, 0, 0, 1, 0)),
            Instruction::FloatSine { dest, src } => Some(w8(8, reg_nibble(dest), reg_nibble(src), 0, 0, 0, 1, 1)),
            Instruction::FloatCosine { dest, src } => Some(w8(8, reg_nibble(dest), reg_nibble(src), 0, 0, 0, 1, 2)),
            Instruction::FloatTangent { dest, src } => Some(w8(8, reg_nibble(dest), reg_nibble(src), 0, 0, 0, 1, 3)),
            Instruction::FloatArcsine { dest, src } => Some(w8(8, reg_nibble(dest), reg_nibble(src), 0, 0, 0, 1, 4)),
            Instruction::FloatArccosine { dest, src } => Some(w8(8, reg_nibble(dest), reg_nibble(src), 0, 0, 0, 1, 5)),
            Instruction::FloatArctangent { dest, src } => Some(w8(8, reg_nibble(dest), reg_nibble(src), 0, 0, 0, 1, 6)),
            Instruction::FloatFloor { dest, src } => Some(w8(8, reg_nibble(dest), reg_nibble(src), 0, 0, 0, 1, 7)),
            Instruction::FloatCeil { dest, src } => Some(w8(8, reg_nibble(dest), reg_nibble(src), 0, 0, 0, 1, 8)),
            Instruction::FloatRound { dest, src } => Some(w8(8, reg_nibble(dest), reg_nibble(src), 0, 0, 0, 1, 9)),
            Instruction::FloatMinimum { dest, a, b } => Some(w8(8, reg_nibble(dest), reg_nibble(a), reg_nibble(b), 0, 0, 1, 10)),
            Instruction::FloatMaximum { dest, a, b } => Some(w8(8, reg_nibble(dest), reg_nibble(a), reg_nibble(b), 0, 0, 1, 11)),
            Instruction::FloatSign { dest, src } => Some(w8(8, reg_nibble(dest), reg_nibble(src), 0, 0, 0, 1, 12)),
            Instruction::FloatAbsoluteDifference { dest, a, b } => Some(w8(8, reg_nibble(dest), reg_nibble(a), reg_nibble(b), 0, 0, 1, 13)),
            Instruction::FloatLoadInfinity { dest } => Some(w8(8, reg_nibble(dest), 0, 0, 0, 0, 1, 14)),
            Instruction::FloatLoadNaN { dest } => Some(w8(8, reg_nibble(dest), 0, 0, 0, 0, 1, 15)),
            Instruction::DoubleAdd { dest, a, b } => Some(w8(9, reg_nibble(dest), reg_nibble(a), reg_nibble(b), 0, 0, 0, 0)),
            Instruction::DoubleSubtract { dest, a, b } => Some(w8(9, reg_nibble(dest), reg_nibble(a), reg_nibble(b), 0, 0, 0, 1)),
            Instruction::DoubleMultiply { dest, a, b } => Some(w8(9, reg_nibble(dest), reg_nibble(a), reg_nibble(b), 0, 0, 0, 2)),
            Instruction::DoubleDivide { dest, a, b } => Some(w8(9, reg_nibble(dest), reg_nibble(a), reg_nibble(b), 0, 0, 0, 3)),
            Instruction::DoubleModulo { dest, a, b } => Some(w8(9, reg_nibble(dest), reg_nibble(a), reg_nibble(b), 0, 0, 0, 4)),
            Instruction::DoubleNegate { dest, src } => Some(w8(9, reg_nibble(dest), reg_nibble(src), 0, 0, 0, 0, 5)),
            Instruction::DoubleReciprocal { dest, src } => Some(w8(9, reg_nibble(dest), reg_nibble(src), 0, 0, 0, 0, 6)),
            Instruction::DoublePower { dest, a, b } => Some(w8(9, reg_nibble(dest), reg_nibble(a), reg_nibble(b), 0, 0, 0, 7)),
            Instruction::DoubleExponential { dest, src } => Some(w8(9, reg_nibble(dest), reg_nibble(src), 0, 0, 0, 0, 8)),
            Instruction::DoubleRoot { dest, a, b } => Some(w8(9, reg_nibble(dest), reg_nibble(a), reg_nibble(b), 0, 0, 0, 9)),
            Instruction::DoubleSquareRoot { dest, src } => Some(w8(9, reg_nibble(dest), reg_nibble(src), 0, 0, 0, 0, 10)),
            Instruction::DoubleCubeRoot { dest, src } => Some(w8(9, reg_nibble(dest), reg_nibble(src), 0, 0, 0, 0, 11)),
            Instruction::DoubleSquare { dest, src } => Some(w8(9, reg_nibble(dest), reg_nibble(src), 0, 0, 0, 0, 12)),
            Instruction::DoubleCube { dest, src } => Some(w8(9, reg_nibble(dest), reg_nibble(src), 0, 0, 0, 0, 13)),
            Instruction::DoubleLogarithm { dest, a, b } => Some(w8(9, reg_nibble(dest), reg_nibble(a), reg_nibble(b), 0, 0, 0, 14)),
            Instruction::DoubleNaturalLogarithm { dest, src } => Some(w8(9, reg_nibble(dest), reg_nibble(src), 0, 0, 0, 0, 15)),
            Instruction::DoubleAbsolute { dest, src } => Some(w8(9, reg_nibble(dest), reg_nibble(src), 0, 0, 0, 1, 0)),
            Instruction::DoubleSine { dest, src } => Some(w8(9, reg_nibble(dest), reg_nibble(src), 0, 0, 0, 1, 1)),
            Instruction::DoubleCosine { dest, src } => Some(w8(9, reg_nibble(dest), reg_nibble(src), 0, 0, 0, 1, 2)),
            Instruction::DoubleTangent { dest, src } => Some(w8(9, reg_nibble(dest), reg_nibble(src), 0, 0, 0, 1, 3)),
            Instruction::DoubleArcsine { dest, src } => Some(w8(9, reg_nibble(dest), reg_nibble(src), 0, 0, 0, 1, 4)),
            Instruction::DoubleArccosine { dest, src } => Some(w8(9, reg_nibble(dest), reg_nibble(src), 0, 0, 0, 1, 5)),
            Instruction::DoubleArctangent { dest, src } => Some(w8(9, reg_nibble(dest), reg_nibble(src), 0, 0, 0, 1, 6)),
            Instruction::DoubleFloor { dest, src } => Some(w8(9, reg_nibble(dest), reg_nibble(src), 0, 0, 0, 1, 7)),
            Instruction::DoubleCeil { dest, src } => Some(w8(9, reg_nibble(dest), reg_nibble(src), 0, 0, 0, 1, 8)),
            Instruction::DoubleRound { dest, src } => Some(w8(9, reg_nibble(dest), reg_nibble(src), 0, 0, 0, 1, 9)),
            Instruction::DoubleMinimum { dest, a, b } => Some(w8(9, reg_nibble(dest), reg_nibble(a), reg_nibble(b), 0, 0, 1, 10)),
            Instruction::DoubleMaximum { dest, a, b } => Some(w8(9, reg_nibble(dest), reg_nibble(a), reg_nibble(b), 0, 0, 1, 11)),
            Instruction::DoubleSign { dest, src } => Some(w8(9, reg_nibble(dest), reg_nibble(src), 0, 0, 0, 1, 12)),
            Instruction::DoubleAbsoluteDifference { dest, a, b } => Some(w8(9, reg_nibble(dest), reg_nibble(a), reg_nibble(b), 0, 0, 1, 13)),
            Instruction::DoubleLoadInfinity { dest } => Some(w8(9, reg_nibble(dest), 0, 0, 0, 0, 1, 14)),
            Instruction::DoubleLoadNaN { dest } => Some(w8(9, reg_nibble(dest), 0, 0, 0, 0, 1, 15)),
        }
    }
}

proof fn lemma_split(x: int, d: int, q: int, r: int, m: int, qm: int, rm: int)
    requires
        d > 0,
        m > 0,
        0 <= r < d,
        x == q * d + r,
        0 <= rm < m,
        q == qm * m + rm,
    ensures
        x / d == q,
        (x / d) % m == rm,
{
    vstd::arithmetic::div_mod::lemma_fundamental_div_mod_converse(x, d, q, r);
    vstd::arithmetic::div_mod::lemma_fundamental_div_mod_converse(q, m, qm, rm);
}

/// The interpreter's decoder reads back what a word was built from: the
/// class tag, the three register nibbles, the subcode, the low byte, and
/// the 16-bit immediate fields at nibbles 2..6, 3..7 and 1..5.
#[verifier::rlimit(50)]
pub proof fn lemma_word8_fields(a: nat, b: nat, c: nat, d: nat, e: nat, f: nat, g: nat, h: nat)
    requires
        a < 16 && b < 16 && c < 16 && d < 16 && e < 16 && f < 16 && g < 16 && h < 16,
    ensures
        ({
            let w = word8(a, b, c, d, e, f, g, h);
            &&& class_of(w) == a
            &&& n1(w) == b && n2(w) == c && n3(w) == d
            &&& subcode(w) == h
            &&& w as nat % 256 == g * 16 + h
            &&& field(w, 256, 0x1_0000) == c * 0x1000 + d * 0x100 + e * 0x10 + f
            &&& field(w, 16, 0x1_0000) == d * 0x1000 + e * 0x100 + f * 0x10 + g
            &&& field(w, 0x1000, 0x1_0000) == b * 0x1000 + c * 0x100 + d * 0x10 + e
            &&& field(w, 16, 64) == (f * 16 + g) % 64
        }),
{
    let w = word8(a, b, c, d, e, f, g, h);
    let (a, b, c, d, e, f, g, h) = (a as int, b as int, c as int, d as int, e as int, f as int, g as int, h as int);
    let x: int = a * 0x1000_0000 + b * 0x100_0000 + c * 0x10_0000 + d * 0x1_0000 + e * 0x1000 + f * 0x100 + g * 0x10 + h;
    assert(a % 16 == a && b % 16 == b && c % 16 == c && d % 16 == d);
    assert(e % 16 == e && f % 16 == f && g % 16 == g && h % 16 == h);
    assert(0 <= x < 0x1_0000_0000);
    assert(w as int == x);
    // Top nibble, and the nibbles below it.
    lemma_split(x, 0x1000_0000, a as int, x - a * 0x1000_0000, 16, 0, a);
    lemma_split(x, 0x100_0000, a * 16 + b, x - (a * 16 + b) * 0x100_0000, 16, a, b);
    lemma_split(x, 0x10_0000, a * 0x100 + b * 16 + c, x - (a * 0x100 + b * 16 + c) * 0x10_0000, 16, a * 16 + b, c);
    let q4 = a * 0x1000 + b * 0x100 + c * 16 + d;
    lemma_split(x, 0x1_0000, q4, x - q4 * 0x1_0000, 16, a * 0x100 + b * 16 + c, d);
    lemma_split(x, 0x1000, q4 * 16 + e, x - (q4 * 16 + e) * 0x1000, 0x1_0000, a, b * 0x1000 + c * 0x100 + d * 0x10 + e);
    lemma_split(x, 256, q4 * 256 + e * 16 + f, x - (q4 * 256 + e * 16 + f) * 256, 0x1_0000, a * 16 + b, c * 0x1000 + d * 0x100 + e * 0x10 + f);
    let q7 = q4 * 0x1000 + e * 0x100 + f * 16 + g;
    lemma_split(x, 16, q7, h, 0x1_0000, a * 0x100 + b * 16 + c, d * 0x1000 + e * 0x100 + f * 0x10 + g);
    lemma_split(x, 16, q7, h, 64, q7 / 64, (f * 16 + g) % 64);
    lemma_split(x, 16, q7, h, 16, q7 / 16, g);
    lemma_split(x, 1, x, 0, 16, x / 16, h);
    lemma_split(x, 1, x, 0, 256, x / 256, g * 16 + h);
}

proof fn lemma_word8_class(a: nat, b: nat, c: nat, d: nat, e: nat, f: nat, g: nat, h: nat)
    ensures
        class_of(word8(a, b, c, d, e, f, g, h)) == a % 16,
{
    let w = word8(a, b, c, d, e, f, g, h);
    let top = (a % 16) as int;
    let rest = ((b % 16) * 0x100_0000 + (c % 16) * 0x10_0000 + (d % 16) * 0x1_0000 + (e % 16) * 0x1000 + (f % 16) * 0x100
        + (g % 16) * 0x10 + (h % 16)) as int;
    assert(0 <= rest < 0x1000_0000);
    assert(w as int == top * 0x1000_0000 + rest);
    vstd::arithmetic::div_mod::lemma_fundamental_div_mod_converse(w as int, 0x1000_0000, top, rest);
}

/// Every word the builder produces has a class tag from 0 to 9, so the
/// interpreter's dispatch knows its class.
pub proof fn lemma_instruction_word_class(i: Instruction)
    ensures
        instruction_word(i) matches Some(w) ==> class_of(w) <= 9,
{
    match i {
        Instruction::Nop => {
            lemma_word8_class(0, 0, 0, 0, 0, 0, 0, 0);
        },
        Instruction::Add { dest, a, b } => match (a, b) {
            (RegOrImm::Reg(r1), RegOrImm::Reg(r2)) => {
                lemma_word8_class(1, rn(dest), rn(r1), rn(r2), 0, 0, 0, 0);
            },
            (RegOrImm::Reg(r), RegOrImm::Imm(imm)) => {
                lemma_word8_class(1, rn(dest), rn(r), n16(imm, 0), n16(imm, 1), n16(imm, 2), n16(imm, 3), 1);
            },
            (RegOrImm::Imm(imm), RegOrImm::Reg(r)) => {
                lemma_word8_class(1, rn(dest), rn(r), n16(imm, 0), n16(imm, 1), n16(imm, 2), n16(imm, 3), 1);
            },
            (RegOrImm::Imm(_), RegOrImm::Imm(_)) => {},
        },
        Instruction::Subtract { dest, a, b } => match (a, b) {
            (RegOrImm::Reg(r1), RegOrImm::Reg(r2)) => {
                lemma_word8_class(1, rn(dest), rn(r1), rn(r2), 0, 0, 0, 2);
            },
            (RegOrImm::Reg(r), RegOrImm::Imm(imm)) => {
                lemma_word8_class(1, rn(dest), rn(r), n16(imm, 0), n16(imm, 1), n16(imm, 2), n16(imm, 3), 3);
            },
            (RegOrImm::Imm(imm), RegOrImm::Reg(r)) => {
                lemma_word8_class(1, rn(dest), rn(r), n16(imm, 0), n16(imm, 1), n16(imm, 2), n16(imm, 3), 4);
            },
            (RegOrImm::Imm(_), RegOrImm::Imm(_)) => {},
        },
        Instruction::Multiply { dest, a, b } => match (a, b) {
            (RegOrImm::Reg(r1), RegOrImm::Reg(r2)) => {
                lemma_word8_class(1, rn(dest), rn(r1), rn(r2), 0, 0, 0, 5);
            },
            (RegOrImm::Reg(r), RegOrImm::Imm(imm)) => {
                lemma_word8_class(1, rn(dest), rn(r), n16(imm, 0), n16(imm, 1), n16(imm, 2), n16(imm, 3), 6);
            },
            (RegOrImm::Imm(imm), RegOrImm::Reg(r)) => {
                lemma_word8_class(1, rn(dest), rn(r), n16(imm, 0), n16(imm, 1), n16(imm, 2), n16(imm, 3), 6);
            },
            (RegOrImm::Imm(_), RegOrImm::Imm(_)) => {},
        },
        Instruction::Divide { dest, a, b } => match (a, b) {
            (RegOrImm::Reg(r1), RegOrImm::Reg(r2)) => {
                lemma_word8_class(1, rn(dest), rn(r1), rn(r2), 0, 0, 0, 7);
            },
            (RegOrImm::Reg(r), RegOrImm::Imm(imm)) => {
                lemma_word8_class(1, rn(dest), rn(r), n16(imm, 0), n16(imm, 1), n16(imm, 2), n16(imm, 3), 8);
            },
            (RegOrImm::Imm(imm), RegOrImm::Reg(r)) => {
                lemma_word8_class(1, rn(dest), rn(r), n16(imm, 0), n16(imm, 1), n16(imm, 2), n16(imm, 3), 9);
            },
            (RegOrImm::Imm(_), RegOrImm::Imm(_)) => {},
        },
        Instruction::DivideSigned { dest, a, b } => match (a, b) {
            (RegOrImm::Reg(r1), RegOrImm::Reg(r2)) => {
                lemma_word8_class(1, rn(dest), rn(r1), rn(r2), 0, 0, 0, 10);
            },
            (RegOrImm::Reg(r), RegOrImm::Imm(imm)) => {
                lemma_word8_class(1, rn(dest), rn(r), n16(imm, 0), n16(imm, 1), n16(imm, 2), n16(imm, 3), 11);
            },
            (RegOrImm::Imm(imm), RegOrImm::Reg(r)) => {
                lemma_word8_class(1, rn(dest), rn(r), n16(imm, 0), n16(imm, 1), n16(imm, 2), n16(imm, 3), 12);
            },
            (RegOrImm::Imm(_), RegOrImm::Imm(_)) => {},
        },
        Instruction::And { dest, a, b } => {
            lemma_word8_class(2, rn(dest), rn(a), rn(b), 0, 0, 0, 0);
        },
        Instruction::Or { dest, a, b } => {
            lemma_word8_class(2, rn(dest), rn(a), rn(b), 0, 0, 0, 1);
        },
        Instruction::Xor { dest, a, b } => {
            lemma_word8_class(2, rn(dest), rn(a), rn(b), 0, 0, 0, 2);
        },
        Instruction::Nand { dest, a, b } => {
            lemma_word8_class(2, rn(dest), rn(a), rn(b), 0, 0, 0, 3);
        },
        Instruction::Nor { dest, a, b } => {
            lemma_word8_class(2, rn(dest), rn(a), rn(b), 0, 0, 0, 4);
        },
        Instruction::Xnor { dest, a, b } => {
            lemma_word8_class(2, rn(dest), rn(a), rn(b), 0, 0, 0, 5);
        },
        Instruction::Not { dest, src } => {
            lemma_word8_class(2, rn(dest), rn(src), 0, 0, 0, 0, 6);
        },
        Instruction::RightShift { dest, src, amount } => match amount {
            ShiftAmount::Reg(r) => {
                lemma_word8_class(3, rn(dest), rn(src), rn(r), 0, 0, 0, 0);
            },
            ShiftAmount::Imm(v) => {
                lemma_word8_class(3, rn(dest), rn(src), 0, 0, v.value() as nat / 16, v.value() as nat % 16, 1);
            },
        },
        Instruction::LeftShift { dest, src, amount } => match amount {
            ShiftAmount::Reg(r) => {
                lemma_word8_class(3, rn(dest), rn(src), rn(r), 0, 0, 0, 2);
            },
            ShiftAmount::Imm(v) => {
                lemma_word8_class(3, rn(dest), rn(src), 0, 0, v.value() as nat / 16, v.value() as nat % 16, 3);
            },
        },
        Instruction::RightRoll { dest, src, amount } => match amount {
            ShiftAmount::Reg(r) => {
                lemma_word8_class(3, rn(dest), rn(src), rn(r), 0, 0, 0, 4);
            },
            ShiftAmount::Imm(v) => {
                lemma_word8_class(3, rn(dest), rn(src), 0, 0, v.value() as nat / 16, v.value() as nat % 16, 5);
            },
        },
        Instruction::LeftRoll { dest, src, amount } => match amount {
            ShiftAmount::Reg(r) => {
                lemma_word8_class(3, rn(dest), rn(src), rn(r), 0, 0, 0, 6);
            },
            ShiftAmount::Imm(v) => {
                lemma_word8_class(3, rn(dest), rn(src), 0, 0, v.value() as nat / 16, v.value() as nat % 16, 7);
            },
        },
        Instruction::Move { dest, src } => {
            lemma_word8_class(4, rn(dest), rn(src), 0, 0, 0, 0, 0);
        },
        Instruction::LoadImmediate { dest, slice, imm } => {
            lemma_word8_class(4, rn(dest), n16(imm, 0), n16(imm, 1), n16(imm, 2), n16(imm, 3), slice.value() as nat, 1);
        },
        Instruction::LoadRegister { dest, mem_ptr, slice } => match mem_ptr {
            RegOrImm::Reg(r) => {
                lemma_word8_class(4, rn(dest), rn(r), 0, 0, 0, slice.value() as nat, 2);
            },
            RegOrImm::Imm(imm) => {
                lemma_word8_class(4, rn(dest), n16(imm, 0), n16(imm, 1), n16(imm, 2), n16(imm, 3), slice.value() as nat, 3);
            },
        },
        Instruction::StoreRegister { src, mem_ptr, slice } => match mem_ptr {
            RegOrImm::Reg(r) => {
                lemma_word8_class(4, rn(src), rn(r), 0, 0, 0, slice.value() as nat, 4);
            },
            RegOrImm::Imm(imm) => {
                lemma_word8_class(4, rn(src), n16(imm, 0), n16(imm, 1), n16(imm, 2), n16(imm, 3), slice.value() as nat, 5);
            },
        },
        Instruction::Push { reg } => {
            lemma_word8_class(4, rn(reg), 0, 0, 0, 0, 0, 6);
        },
        Instruction::Pop { reg } => {
            lemma_word8_class(4, rn(reg), 0, 0, 0, 0, 0, 7);
        },
        Instruction::Compare { a, b, signed } => match (a, b) {
            (RegOrImm::Reg(r1), RegOrImm::Reg(r2)) => {
                lemma_word8_class(5, rn(r1), rn(r2), 0, 0, 0, 0, cmp_sub(signed, 0));
            },
            (RegOrImm::Reg(r), RegOrImm::Imm(imm)) => {
                lemma_word8_class(5, rn(r), n16(imm, 0), n16(imm, 1), n16(imm, 2), n16(imm, 3), 0, cmp_sub(signed, 1));
            },
            (RegOrImm::Imm(imm), RegOrImm::Reg(r)) => {
                lemma_word8_class(5, rn(r), n16(imm, 0), n16(imm, 1), n16(imm, 2), n16(imm, 3), 0, cmp_sub(signed, 2));
            },
            (RegOrImm::Imm(_), RegOrImm::Imm(_)) => {},
        },
        Instruction::CompareFloat { a, b } => {
            lemma_word8_class(5, rn(a), rn(b), 0, 0, 0, 0, 6);
        },
        Instruction::CompareDouble { a, b } => {
            lemma_word8_class(5, rn(a), rn(b), 0, 0, 0, 0, 7);
        },
        Instruction::Branch { offset } => match offset {
            BranchOffset::Reg(r) => {
                lemma_word8_class(6, rn(r), 0, 0, 0, 0, 0, 0);
            },
            BranchOffset::Imm(imm) => {
                lemma_word8_class(6, n16(bits16(imm), 0), n16(bits16(imm), 1), n16(bits16(imm), 2), n16(bits16(imm), 3), 0, 0, 1);
            },
        },
        Instruction::BranchGreater { offset } => match offset {
            BranchOffset::Reg(r) => {
                lemma_word8_class(6, rn(r), 0, 0, 0, 0, 0, 2);
            },
            BranchOffset::Imm(imm) => {
                lemma_word8_class(6, n16(bits16(imm), 0), n16(bits16(imm), 1), n16(bits16(imm), 2), n16(bits16(imm), 3), 0, 0, 3);
            },
        },
        Instruction::BranchEqual { offset } => match offset {
            BranchOffset::Reg(r) => {
                lemma_word8_class(6, rn(r), 0, 0, 0, 0, 0, 4);
            },
            BranchOffset::Imm(imm) => {
                lemma_word8_class(6, n16(bits16(imm), 0), n16(bits16(imm), 1), n16(bits16(imm), 2), n16(bits16(imm), 3), 0, 0, 5);
            },
        },
        Instruction::BranchSmaller { offset } => match offset {
            BranchOffset::Reg(r) => {
                lemma_word8_class(6, rn(r), 0, 0, 0, 0, 0, 6);
            },
            BranchOffset::Imm(imm) => {
                lemma_word8_class(6, n16(bits16(imm), 0), n16(bits16(imm), 1), n16(bits16(imm), 2), n16(bits16(imm), 3), 0, 0, 7);
            },
        },
        Instruction::BranchGreaterEqual { offset } => match offset {
            BranchOffset::Reg(r) => {
                lemma_word8_class(6, rn(r), 0, 0, 0, 0, 0, 8);
            },
            BranchOffset::Imm(imm) => {
                lemma_word8_class(6, n16(bits16(imm), 0), n16(bits16(imm), 1), n16(bits16(imm), 2), n16(bits16(imm), 3), 0, 0, 9);
            },
        },
        Instruction::BranchNotEqual { offset } => match offset {
            BranchOffset::Reg(r) => {
                lemma_word8_class(6, rn(r), 0, 0, 0, 0, 0, 10);
            },
            BranchOffset::Imm(imm) => {
                lemma_word8_class(6, n16(bits16(imm), 0), n16(bits16(imm), 1), n16(bits16(imm), 2), n16(bits16(imm), 3), 0, 0, 11);
            },
        },
        Instruction::BranchSmallerEqual { offset } => match offset {
            BranchOffset::Reg(r) => {
                lemma_word8_class(6, rn(r), 0, 0, 0, 0, 0, 12);
            },
            BranchOffset::Imm(imm) => {
                lemma_word8_class(6, n16(bits16(imm), 0), n16(bits16(imm), 1), n16(bits16(imm), 2), n16(bits16(imm), 3), 0, 0, 13);
            },
        },
        Instruction::ImmediateToFloat { dest, imm } => {
            lemma_word8_class(7, rn(dest), n16(bits16(imm), 0), n16(bits16(imm), 1), n16(bits16(imm), 2), n16(bits16(imm), 3), 0, 0);
        },
        Instruction::ImmediateToDouble { dest, imm } => {
            lemma_word8_class(7, rn(dest), n16(bits16(imm), 0), n16(bits16(imm), 1), n16(bits16(imm), 2), n16(bits16(imm), 3), 0, 1);
        },
        Instruction::IntegerToFloat { dest, src } => {
            lemma_word8_class(7, rn(dest), rn(src), 0, 0, 0, 0, 2);
        },
        Instruction::IntegerToDouble { dest, src } => {
            lemma_word8_class(7, rn(dest), rn(src), 0, 0, 0, 0, 3);
        },
        Instruction::FloatToInteger { dest, src } => {
            lemma_word8_class(7, rn(dest), rn(src), 0, 0, 0, 0, 4);
        },
        Instruction::FloatToDouble { dest, src } => {
            lemma_word8_class(7, rn(dest), rn(src), 0, 0, 0, 0, 5);
        },
        Instruction::DoubleToInteger { dest, src } => {
            lemma_word8_class(7, rn(dest), rn(src), 0, 0, 0, 0, 6);
        },
        Instruction::DoubleToFloat { dest, src } => {
            lemma_word8_class(7, rn(dest), rn(src), 0, 0, 0, 0, 7);
        },
        Instruction::FloatAdd { dest, a, b } => {
            lemma_word8_class(8, rn(dest), rn(a), rn(b), 0, 0, 0, 0);
        },
        Instruction::FloatSubtract { dest, a, b } => {
            lemma_word8_class(8, rn(dest), rn(a), rn(b), 0, 0, 0, 1);
        },
        Instruction::FloatMultiply { dest, a, b } => {
            lemma_word8_class(8, rn(dest), rn(a), rn(b), 0, 0, 0, 2);
        },
        Instruction::FloatDivide { dest, a, b } => {
            lemma_word8_class(8, rn(dest), rn(a), rn(b), 0, 0, 0, 3);
        },
        Instruction::FloatModulo { dest, a, b } => {
            lemma_word8_class(8, rn(dest), rn(a), rn(b), 0, 0, 0, 4);
        },
        Instruction::FloatNegate { dest, src } => {
            lemma_word8_class(8, rn(dest), rn(src), 0, 0, 0, 0, 5);
        },
        Instruction::FloatReciprocal { dest, src } => {
            lemma_word8_class(8, rn(dest), rn(src), 0, 0, 0, 0, 6);
        },
        Instruction::FloatPower { dest, a, b } => {
            lemma_word8_class(8, rn(dest), rn(a), rn(b), 0, 0, 0, 7);
        },
        Instruction::FloatExponential { dest, src } => {
            lemma_word8_class(8, rn(dest), rn(src), 0, 0, 0, 0, 8);
        },
        Instruction::FloatRoot { dest, a, b } => {
            lemma_word8_class(8, rn(dest), rn(a), rn(b), 0, 0, 0, 9);
        },
        Instruction::FloatSquareRoot { dest, src } => {
            lemma_word8_class(8, rn(dest), rn(src), 0, 0, 0, 0, 10);
        },
        Instruction::FloatCubeRoot { dest, src } => {
            lemma_word8_class(8, rn(dest), rn(src), 0, 0, 0, 0, 11);
        },
        Instruction::FloatSquare { dest, src } => {
            lemma_word8_class(8, rn(dest), rn(src), 0, 0, 0, 0, 12);
        },
        Instruction::FloatCube { dest, src } => {
            lemma_word8_class(8, rn(dest), rn(src), 0, 0, 0, 0, 13);
        },
        Instruction::FloatLogarithm { dest, a, b } => {
            lemma_word8_class(8, rn(dest), rn(a), rn(b), 0, 0, 0, 14);
        },
        Instruction::FloatNaturalLogarithm { dest, src } => {
            lemma_word8_class(8, rn(dest), rn(src), 0, 0, 0, 0, 15);
        },
        Instruction::FloatAbsolute { dest, src } => {
            lemma_word8_class(8, rn(dest), rn(src), 0, 0, 0, 1, 0);
        },
        Instruction::FloatSine { dest, src } => {
            lemma_word8_class(8, rn(dest), rn(src), 0, 0, 0, 1, 1);
        },
        Instruction::FloatCosine { dest, src } => {
            lemma_word8_class(8, rn(dest), rn(src), 0, 0, 0, 1, 2);
        },
        Instruction::FloatTangent { dest, src } => {
            lemma_word8_class(8, rn(dest), rn(src), 0, 0, 0, 1, 3);
        },
        Instruction::FloatArcsine { dest, src } => {
            lemma_word8_class(8, rn(dest), rn(src), 0, 0, 0, 1, 4);
        },
        Instruction::FloatArccosine { dest, src } => {
            lemma_word8_class(8, rn(dest), rn(src), 0, 0, 0, 1, 5);
        },
        Instruction::FloatArctangent { dest, src } => {
            lemma_word8_class(8, rn(dest), rn(src), 0, 0, 0, 1, 6);
        },
        Instruction::FloatFloor { dest, src } => {
            lemma_word8_class(8, rn(dest), rn(src), 0, 0, 0, 1, 7);
        },
        Instruction::FloatCeil { dest, src } => {
            lemma_word8_class(8, rn(dest), rn(src), 0, 0, 0, 1, 8);
        },
        Instruction::FloatRound { dest, src } => {
            lemma_word8_class(8, rn(dest), rn(src), 0, 0, 0, 1, 9);
        },
        Instruction::FloatMinimum { dest, a, b } => {
            lemma_word8_class(8, rn(dest), rn(a), rn(b), 0, 0, 1, 10);
        },
        Instruction::FloatMaximum { dest, a, b } => {
            lemma_word8_class(8, rn(dest), rn(a), rn(b), 0, 0, 1, 11);
        },
        Instruction::FloatSign { dest, src } => {
            lemma_word8_class(8, rn(dest), rn(src), 0, 0, 0, 1, 12);
        },
        Instruction::FloatAbsoluteDifference { dest, a, b } => {
            lemma_word8_class(8, rn(dest), rn(a), rn(b), 0, 0, 1, 13);
        },
        Instruction::FloatLoadInfinity { dest } => {
            lemma_word8_class(8, rn(dest), 0, 0, 0, 0, 1, 14);
        },
        Instruction::FloatLoadNaN { dest } => {
            lemma_word8_class(8, rn(dest), 0, 0, 0, 0, 1, 15);
        },
        Instruction::DoubleAdd { dest, a, b } => {
            lemma_word8_class(9, rn(dest), rn(a), rn(b), 0, 0, 0, 0);
        },
        Instruction::DoubleSubtract { dest, a, b } => {
            lemma_word8_class(9, rn(dest), rn(a), rn(b), 0, 0, 0, 1);
        },
        Instruction::DoubleMultiply { dest, a, b } => {
            lemma_word8_class(9, rn(dest), rn(a), rn(b), 0, 0, 0, 2);
        },
        Instruction::DoubleDivide { dest, a, b } => {
            lemma_word8_class(9, rn(dest), rn(a), rn(b), 0, 0, 0, 3);
        },
        Instruction::DoubleModulo { dest, a, b } => {
            lemma_word8_class(9, rn(dest), rn(a), rn(b), 0, 0, 0, 4);
        },
        Instruction::DoubleNegate { dest, src } => {
            lemma_word8_class(9, rn(dest), rn(src), 0, 0, 0, 0, 5);
        },
        Instruction::DoubleReciprocal { dest, src } => {
            lemma_word8_class(9, rn(dest), rn(src), 0, 0, 0, 0, 6);
        },
        Instruction::DoublePower { dest, a, b } => {
            lemma_word8_class(9, rn(dest), rn(a), rn(b), 0, 0, 0, 7);
        },
        Instruction::DoubleExponential { dest, src } => {
            lemma_word8_class(9, rn(dest), rn(src), 0, 0, 0, 0, 8);
        },
        Instruction::DoubleRoot { dest, a, b } => {
            lemma_word8_class(9, rn(dest), rn(a), rn(b), 0, 0, 0, 9);
        },
        Instruction::DoubleSquareRoot { dest, src } => {
            lemma_word8_class(9, rn(dest), rn(src), 0, 0, 0, 0, 10);
        },
        Instruction::DoubleCubeRoot { dest, src } => {
            lemma_word8_class(9, rn(dest), rn(src), 0, 0, 0, 0, 11);
        },
        Instruction::DoubleSquare { dest, src } => {
            lemma_word8_class(9, rn(dest), rn(src), 0, 0, 0, 0, 12);
        },
        Instruction::DoubleCube { dest, src } => {
            lemma_word8_class(9, rn(dest), rn(src), 0, 0, 0, 0, 13);
        },
        Instruction::DoubleLogarithm { dest, a, b } => {
            lemma_word8_class(9, rn(dest), rn(a), rn(b), 0, 0, 0, 14);
        },
        Instruction::DoubleNaturalLogarithm { dest, src } => {
            lemma_word8_class(9, rn(dest), rn(src), 0, 0, 0, 0, 15);
        },
        Instruction::DoubleAbsolute { dest, src } => {
            lemma_word8_class(9, rn(dest), rn(src), 0, 0, 0, 1, 0);
        },
        Instruction::DoubleSine { dest, src } => {
            lemma_word8_class(9, rn(dest), rn(src), 0, 0, 0, 1, 1);
        },
        Instruction::DoubleCosine { dest, src } => {
            lemma_word8_class(9, rn(dest), rn(src), 0, 0, 0, 1, 2);
        },
        Instruction::DoubleTangent { dest, src } => {
            lemma_word8_class(9, rn(dest), rn(src), 0, 0, 0, 1, 3);
        },
        Instruction::DoubleArcsine { dest, src } => {
            lemma_word8_class(9, rn(dest), rn(src), 0, 0, 0, 1, 4);
        },
        Instruction::DoubleArccosine { dest, src } => {
            lemma_word8_class(9, rn(dest), rn(src), 0, 0, 0, 1, 5);
        },
        Instruction::DoubleArctangent { dest, src } => {
            lemma_word8_class(9, rn(dest), rn(src), 0, 0, 0, 1, 6);
        },
        Instruction::DoubleFloor { dest, src } => {
            lemma_word8_class(9, rn(dest), rn(src), 0, 0, 0, 1, 7);
        },
        Instruction::DoubleCeil { dest, src } => {
            lemma_word8_class(9, rn(dest), rn(src), 0, 0, 0, 1, 8);
        },
        Instruction::DoubleRound { dest, src } => {
            lemma_word8_class(9, rn(dest), rn(src), 0, 0, 0, 1, 9);
        },
        Instruction::DoubleMinimum { dest, a, b } => {
            lemma_word8_class(9, rn(dest), rn(a), rn(b), 0, 0, 1, 10);
        },
        Instruction::DoubleMaximum { dest, a, b } => {
            lemma_word8_class(9, rn(dest), rn(a), rn(b), 0, 0, 1, 11);
        },
        Instruction::DoubleSign { dest, src } => {
            lemma_word8_class(9, rn(dest), rn(src), 0, 0, 0, 1, 12);
        },
        Instruction::DoubleAbsoluteDifference { dest, a, b } => {
            lemma_word8_class(9, rn(dest), rn(a), rn(b), 0, 0, 1, 13);
        },
        Instruction::DoubleLoadInfinity { dest } => {
            lemma_word8_class(9, rn(dest), 0, 0, 0, 0, 1, 14);
        },
        Instruction::DoubleLoadNaN { dest } => {
            lemma_word8_class(9, rn(dest), 0, 0, 0, 0, 1, 15);
        },
    }
}

} // verus!
