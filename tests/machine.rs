use vm_toolchain::alu::{arith, get_chunk, rotate_left, rotate_right, set_byte, get_byte, set_chunk, shift_left, shift_right, ArithOp};
use vm_toolchain::cpu::{Fault, FloatJob, FloatOrder, RunOutcome, Step, MEMORY_SIZE};
use vm_toolchain::nibbles::{pack_nibbles, split_u16_into_nibbles, split_u6_into_nibbles};
use vm_toolchain::newtypes::{U2, U3, U6};
use vm_toolchain::{assemble, load_program, CPU};

fn machine_with(src: &str) -> CPU {
    let words = assemble(src.to_string()).unwrap();
    let mut cpu = CPU::default();
    load_program(&mut cpu, &words);
    cpu.set_instruction_ptr(0);
    cpu
}

#[test]
fn fibonacci_four_iterations() {
    let mut cpu = machine_with("ldi r0 0 1\nldi r1 0 1\n.loop\nadd r2 r0 r1\nmov r0 r1\nmov r1 r2\nb .loop");
    let mut diagnostics = Vec::new();
    assert_eq!(cpu.run(2 + 4 * 4, false, &mut diagnostics), RunOutcome::Completed);
    assert_eq!(cpu.regs[0], 5);
    assert_eq!(cpu.regs[1], 8);
    assert_eq!(cpu.regs[2], 8);
    assert_eq!(cpu.regs[15], 8);
    assert!(diagnostics.is_empty());
}

#[test]
fn ldi_top_chunk_keeps_low_bits() {
    let mut cpu = CPU::default();
    cpu.regs[3] = 0x0000_1234_5678_9ABC;
    let w = assemble("ldi r3 3 0xFFFF".to_string()).unwrap()[0];
    assert_eq!(cpu.exec(w), Step::Done);
    assert_eq!(cpu.regs[3], 0xFFFF_1234_5678_9ABC);
    assert_eq!(cpu.regs[15], 4);
}

#[test]
fn shift_by_sixty_four_saturates_and_rotate_wraps() {
    let mut cpu = CPU::default();
    cpu.regs[1] = 0xDEAD_BEEF_0123_4567;
    cpu.regs[2] = 64;
    for src in ["rsh r3 r1 r2", "lsh r4 r1 r2", "rrol r5 r1 r2", "lroll r6 r1 r2"] {
        let w = assemble(src.to_string()).unwrap()[0];
        cpu.exec(w);
    }
    assert_eq!(cpu.regs[3], 0);
    assert_eq!(cpu.regs[4], 0);
    assert_eq!(cpu.regs[5], 0xDEAD_BEEF_0123_4567);
    assert_eq!(cpu.regs[6], 0xDEAD_BEEF_0123_4567);
    assert_eq!(shift_right(1 << 63, 64), 0);
    assert_eq!(rotate_right(5, 64), 5);
    assert_eq!(rotate_right(1, 1), 1 << 63);
    assert_eq!(rotate_left(1 << 63, 1), 1);
    assert_eq!(shift_left(3, 2), 12);
}

#[test]
fn divide_by_zero_sets_overflow() {
    let mut cpu = CPU::default();
    cpu.regs[1] = 77;
    cpu.regs[4] = 99;
    let w = assemble("div r4 r1 r2".to_string()).unwrap()[0];
    cpu.exec(w);
    assert_eq!(cpu.regs[4], 0);
    assert!(cpu.flags.overflow);
    assert!(cpu.flags.zero);
    let w = assemble("sdiv r5 r1 r2".to_string()).unwrap()[0];
    cpu.exec(w);
    assert_eq!(cpu.regs[5], 0);
    assert!(cpu.flags.overflow);
}

#[test]
fn signed_min_by_minus_one_wraps() {
    let mut cpu = CPU::default();
    cpu.regs[1] = i64::MIN as u64;
    cpu.regs[2] = (-1i64) as u64;
    let w = assemble("sdiv r3 r1 r2".to_string()).unwrap()[0];
    cpu.exec(w);
    assert_eq!(cpu.regs[3], i64::MIN as u64);
    assert!(cpu.flags.overflow);
    assert!(cpu.flags.negative);
    let o = arith(ArithOp::DivSigned, i64::MIN as u64, (-1i64) as u64);
    assert_eq!(o.value, i64::MIN as u64);
    assert!(o.overflow);
}

#[test]
fn arithmetic_flags() {
    let o = arith(ArithOp::Add, u64::MAX, 1);
    assert_eq!((o.value, o.carry, o.overflow), (0, true, false));
    let o = arith(ArithOp::Add, i64::MAX as u64, 1);
    assert_eq!((o.value, o.carry, o.overflow), (1 << 63, false, true));
    let o = arith(ArithOp::Sub, 3, 5);
    assert_eq!((o.value, o.carry, o.overflow), ((-2i64) as u64, true, false));
    let o = arith(ArithOp::Mul, 1 << 32, 1 << 32);
    assert_eq!((o.value, o.carry, o.overflow), (0, true, true));
    let o = arith(ArithOp::DivSigned, (-7i64) as u64, 2);
    assert_eq!((o.value, o.overflow), ((-3i64) as u64, false));
    let o = arith(ArithOp::DivUnsigned, 7, 2);
    assert_eq!((o.value, o.overflow), (3, false));
}

#[test]
fn immediate_forms_and_signed_immediates() {
    let mut cpu = machine_with("ldi r1 0 10\nsub r2 3 r1\nsdiv r3 r1 2\ncmp r1 9\n");
    let mut d = Vec::new();
    cpu.run(4, false, &mut d);
    assert_eq!(cpu.regs[2], (-7i64) as u64);
    assert_eq!(cpu.regs[3], 5);
    assert!(cpu.flags.greater && !cpu.flags.equal && !cpu.flags.smaller);
}

#[test]
fn signed_compare_zero_extends_immediate() {
    let mut cpu = CPU::default();
    cpu.exec(0x51FF_FF04);
    assert!(cpu.flags.smaller && !cpu.flags.greater && !cpu.flags.equal);
    cpu.regs[1] = u64::MAX;
    cpu.exec(0x5100_0504);
    assert!(cpu.flags.smaller);
    cpu.exec(0x5100_0505);
    assert!(cpu.flags.greater);
    cpu.exec(0x5100_0501);
    assert!(cpu.flags.greater);
}

#[test]
fn signed_division_zero_extends_immediate() {
    let mut cpu = CPU::default();
    cpu.regs[2] = 0x1_FFFE;
    cpu.exec(0x112F_FFFB);
    assert_eq!(cpu.regs[1], 2);
    cpu.regs[2] = (-0x1_FFFEi64) as u64;
    cpu.exec(0x112F_FFFB);
    assert_eq!(cpu.regs[1], (-2i64) as u64);
    cpu.regs[2] = 3;
    cpu.exec(0x1120_006C);
    assert_eq!(cpu.regs[1], 2);
}

#[test]
fn instruction_pointer_advances_or_branches() {
    let mut cpu = machine_with("nop\nb 3\nnop\nnop\nnop\nbe -4");
    cpu.exec(cpu.fetch_instruction(0).unwrap());
    assert_eq!(cpu.regs[15], 4);
    cpu.exec(cpu.fetch_instruction(4).unwrap());
    assert_eq!(cpu.regs[15], 16);
    cpu.set_instruction_ptr(20);
    cpu.exec(cpu.fetch_instruction(20).unwrap());
    assert_eq!(cpu.regs[15], 24);
    cpu.flags.equal = true;
    cpu.set_instruction_ptr(20);
    cpu.exec(cpu.fetch_instruction(20).unwrap());
    assert_eq!(cpu.regs[15], 4);
}

#[test]
fn memory_loads_and_stores() {
    let mut cpu = machine_with("ldi r1 0 0x0ABC\nstr r1 2000 0\nldr r2 2000 5\nldi r3 0 2000\nldr r4 r3 0\nldr r5 5000 0");
    let mut d = Vec::new();
    assert_eq!(cpu.run(6, false, &mut d), RunOutcome::Completed);
    assert_eq!(cpu.memory[2000], 0xBC);
    assert_eq!(cpu.regs[2], 0xBC << 40);
    assert_eq!(cpu.regs[4], 0xBC);
    assert_eq!(d, vec![Fault::MemoryOutOfBounds { address: 5000 }]);
}

#[test]
fn push_is_fatal_and_leaves_machine() {
    let mut cpu = machine_with("nop\npush r1");
    let mut d = Vec::new();
    assert_eq!(cpu.run(10, false, &mut d), RunOutcome::Stopped(Fault::Unimplemented { subcode: 6 }));
    assert_eq!(cpu.regs[15], 4);
}

#[test]
fn invalid_words_are_skipped() {
    let mut cpu = CPU::default();
    assert_eq!(cpu.exec(0xA000_0000), Step::Skipped(Fault::InvalidClass { instruction: 0xA000_0000 }));
    assert_eq!(cpu.regs[15], 4);
    assert_eq!(cpu.exec(0x1000_000F), Step::Skipped(Fault::InvalidSubcode { class: 1, subcode: 15 }));
    assert_eq!(cpu.regs[15], 8);
}

#[test]
fn fetch_outside_memory_stops() {
    let mut cpu = CPU::default();
    cpu.set_instruction_ptr(MEMORY_SIZE as u64 - 2);
    let mut d = Vec::new();
    assert_eq!(
        cpu.run(1, false, &mut d),
        RunOutcome::Stopped(Fault::FetchOutOfBounds { address: MEMORY_SIZE as u64 - 2 })
    );
}

#[test]
fn float_work_is_handed_out() {
    let mut cpu = machine_with("ldi r1 0 7\nitof r2 r1\nfcmp r1 r2");
    let mut d = Vec::new();
    let job = cpu.run(5, false, &mut d);
    assert_eq!(
        job,
        RunOutcome::FloatPending { job: FloatJob::Convert { op: 2, dest: 2, value: 7 }, remaining: 4 }
    );
    assert_eq!(cpu.regs[15], 4);
    cpu.complete_float_value(2, (7.0f32).to_bits() as u64);
    assert_eq!(f32::from_bits(cpu.regs[2] as u32), 7.0);
    assert_eq!(cpu.regs[15], 8);
    match cpu.run(3, false, &mut d) {
        RunOutcome::FloatPending { job: FloatJob::Compare32 { .. }, remaining: 3 } => {}
        other => panic!("unexpected {:?}", other),
    }
    cpu.complete_float_compare(FloatOrder::Greater);
    assert!(cpu.flags.greater);
    assert_eq!(cpu.regs[15], 12);
}

#[test]
fn immediate_to_float_is_exact() {
    let mut cpu = CPU::default();
    let tof = assemble("immtof r4 -3".to_string()).unwrap()[0];
    cpu.exec(tof);
    assert_eq!(f32::from_bits(cpu.regs[4] as u32), -3.0);
    for imm in i16::MIN..=i16::MAX {
        let field = (imm as u16 as u32) << 8;
        cpu.exec(0x7300_0000 | field);
        assert_eq!(f32::from_bits(cpu.regs[3] as u32), f32::from(imm));
        cpu.exec(0x7500_0001 | field);
        assert_eq!(f64::from_bits(cpu.regs[5]), f64::from(imm));
    }
}

#[test]
fn chunk_and_byte_lanes() {
    let r = set_chunk(0x1111_2222_3333_4444, 0xABCD, 1);
    assert_eq!(r, 0x1111_2222_ABCD_4444);
    assert_eq!(get_chunk(r, 1), 0xABCD);
    assert_eq!(set_chunk(r, 0xABCD, 1), r);
    assert_eq!(get_chunk(r, 3), 0x1111);
    let b = set_byte(0, 0x7F, 7);
    assert_eq!(b, 0x7F00_0000_0000_0000);
    assert_eq!(get_byte(b, 7), 0x7F);
}

#[test]
fn nibble_helpers() {
    assert_eq!(pack_nibbles([1, 2, 0, 1, 0, 0, 0, 0]), 0x1201_0000);
    assert_eq!(split_u16_into_nibbles(0xBEEF), (0xB, 0xE, 0xE, 0xF));
    assert_eq!(split_u6_into_nibbles(U6::new(0x2A).unwrap()), (2, 0xA));
}

#[test]
fn small_unsigned_bounds() {
    assert_eq!(U2::new(3).unwrap().get(), 3);
    assert!(U2::new(4).is_none());
    assert_eq!(U3::new(7).unwrap().get(), 7);
    assert!(U3::new(8).is_none());
    assert_eq!(U6::new(63).unwrap().get(), 63);
    assert!(U6::new(64).is_none());
}

#[test]
fn strict_mode_stops_on_fault() {
    let mut cpu = machine_with("nop\nldr r5 5000 0\nldi r1 0 9");
    let mut d = Vec::new();
    assert_eq!(cpu.run(3, true, &mut d), RunOutcome::Stopped(Fault::MemoryOutOfBounds { address: 5000 }));
    assert!(d.is_empty());
    assert_eq!(cpu.regs[15], 8);
    assert_eq!(cpu.regs[1], 0);
}
