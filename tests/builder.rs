use vm_toolchain::cpu::{FloatJob, Step};
use vm_toolchain::instruction::{BranchOffset, Instruction, RegOrImm, ShiftAmount};
use vm_toolchain::newtypes::{U2, U3, U6};
use vm_toolchain::register::Register::{R0, R1, R15, R2, R3, R4, R5, R6, R9};
use vm_toolchain::{assemble, Register, CPU};

fn word(src: &str) -> u32 {
    assemble(src.to_string()).unwrap()[0]
}

#[test]
fn builder_matches_assembler() {
    let cases: Vec<(Instruction, &str)> = vec![
        (Instruction::Nop, "nop"),
        (Instruction::Add { dest: R2, a: RegOrImm::Reg(R0), b: RegOrImm::Reg(R1) }, "add r2 r0 r1"),
        (Instruction::Add { dest: R2, a: RegOrImm::Reg(R0), b: RegOrImm::Imm(5) }, "add r2 r0 5"),
        (Instruction::Add { dest: R2, a: RegOrImm::Imm(5), b: RegOrImm::Reg(R0) }, "add r2 5 r0"),
        (Instruction::Subtract { dest: R1, a: RegOrImm::Imm(7), b: RegOrImm::Reg(R2) }, "sub r1 7 r2"),
        (Instruction::DivideSigned { dest: R1, a: RegOrImm::Reg(R2), b: RegOrImm::Imm(0xFFFF) }, "sdiv r1 r2 0xFFFF"),
        (Instruction::Xnor { dest: R3, a: R4, b: R5 }, "xnor r3 r4 r5"),
        (Instruction::Not { dest: R3, src: R4 }, "not r3 r4"),
        (Instruction::RightRoll { dest: R1, src: R2, amount: ShiftAmount::Imm(U6::new(42).unwrap()) }, "rrol r1 r2 42"),
        (Instruction::LeftShift { dest: R1, src: R2, amount: ShiftAmount::Reg(R9) }, "lsh r1 r2 r9"),
        (Instruction::Move { dest: R1, src: R15 }, "mov r1 r15"),
        (Instruction::LoadImmediate { dest: R0, slice: U2::new(3).unwrap(), imm: 0xFFFF }, "ldi r0 3 0xFFFF"),
        (Instruction::LoadRegister { dest: R1, mem_ptr: RegOrImm::Imm(2000), slice: U3::new(5).unwrap() }, "ldr r1 2000 5"),
        (Instruction::StoreRegister { src: R1, mem_ptr: RegOrImm::Reg(R3), slice: U3::new(7).unwrap() }, "str r1 r3 7"),
        (Instruction::Push { reg: R4 }, "push r4"),
        (Instruction::Compare { a: RegOrImm::Imm(9), b: RegOrImm::Reg(R1), signed: false }, "cmp 9 r1"),
        (Instruction::CompareDouble { a: R1, b: R2 }, "dcmp r1 r2"),
        (Instruction::BranchNotEqual { offset: BranchOffset::Imm(-2) }, "bne -2"),
        (Instruction::BranchSmallerEqual { offset: BranchOffset::Reg(R6) }, "bse r6"),
        (Instruction::ImmediateToDouble { dest: R1, imm: -7 }, "immtod r1 -7"),
        (Instruction::DoubleToFloat { dest: R1, src: R2 }, "dtof r1 r2"),
    ];
    for (instr, src) in cases {
        assert_eq!(instr.assemble(), Some(word(src)), "{}", src);
    }
}

#[test]
fn two_immediates_have_no_word() {
    assert_eq!(Instruction::Add { dest: Register::R1, a: RegOrImm::Imm(1), b: RegOrImm::Imm(2) }.assemble(), None);
    assert_eq!(Instruction::Compare { a: RegOrImm::Imm(1), b: RegOrImm::Imm(2), signed: true }.assemble(), None);
}

#[test]
fn signed_compare_through_builder() {
    let mut cpu = CPU::default();
    cpu.regs[1] = (-3i64) as u64;
    cpu.regs[2] = 2;
    let w = Instruction::Compare { a: RegOrImm::Reg(Register::R1), b: RegOrImm::Reg(Register::R2), signed: true }
        .assemble()
        .unwrap();
    assert_eq!(w, 0x5120_0003);
    assert_eq!(cpu.exec(w), Step::Done);
    assert!(cpu.flags.smaller);
    let w = Instruction::Compare { a: RegOrImm::Reg(Register::R1), b: RegOrImm::Reg(Register::R2), signed: false }
        .assemble()
        .unwrap();
    cpu.exec(w);
    assert!(cpu.flags.greater);
    let w = Instruction::Compare { a: RegOrImm::Reg(Register::R1), b: RegOrImm::Imm(0xFFFF), signed: true }
        .assemble()
        .unwrap();
    assert_eq!(w, 0x51FF_FF04);
}

#[test]
fn float_operations_through_builder() {
    let mut cpu = CPU::default();
    cpu.regs[2] = 1.5f32.to_bits() as u64;
    cpu.regs[3] = 2.0f32.to_bits() as u64;
    let w = Instruction::FloatPower { dest: Register::R1, a: Register::R2, b: Register::R3 }.assemble().unwrap();
    assert_eq!(w, 0x8123_0007);
    assert_eq!(
        cpu.exec(w),
        Step::Float(FloatJob::Arith32 { op: 7, dest: 1, a: 0, b: cpu.regs[2], c: cpu.regs[3] })
    );
    let w = Instruction::DoubleLoadNaN { dest: Register::R4 }.assemble().unwrap();
    assert_eq!(w, 0x9400_001F);
    match cpu.exec(w) {
        Step::Float(FloatJob::Arith64 { op: 0x1F, dest: 4, .. }) => {}
        other => panic!("unexpected {:?}", other),
    }
    let w = Instruction::FloatAbsolute { dest: Register::R5, src: Register::R6 }.assemble().unwrap();
    assert_eq!(w, 0x8560_0010);
}
