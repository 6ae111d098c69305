//! The interpreter: register file, memory, flags, and the fetch-decode-execute
//! step over 32-bit instruction words.
use vstd::prelude::*;
use crate::ieee::{f32_bits_of_i16, f32_bits_of_int, f64_bits_of_i16, f64_bits_of_int, float_denotes, lemma_small_int_exact};
use crate::alu::{
    arith, arith_spec, get_byte, get_byte_spec, rotate_left, rotate_right, rotl_spec, rotr_spec,
    set_byte, set_byte_spec, set_chunk, set_chunk_spec, sext16, shift_left, shift_right, shl_spec,
    shr_spec, signed, wrap, ArithOp,
};

verus! {

/// Bytes of memory.
pub const MEMORY_SIZE: usize = 4096;

/// The register that holds the instruction pointer.
pub const INSTR_PTR: usize = 15;

/// The condition flags.
#[derive(Debug, Clone, Copy, PartialEq, Eq, Structural)]
pub struct Flags {
    /// Unsigned wrap of the last arithmetic operation.
    pub carry: bool,
    /// The last arithmetic result was zero.
    pub zero: bool,
    /// Bit 63 of the last arithmetic result was set.
    pub negative: bool,
    /// Signed wrap (or division by zero) of the last arithmetic operation.
    pub overflow: bool,
    /// The last comparison found its first operand greater.
    pub greater: bool,
    /// The last comparison found its operands equal.
    pub equal: bool,
    /// The last comparison found its first operand smaller.
    pub smaller: bool,
}

/// All flags clear.
pub open spec fn flags_clear() -> Flags {
    Flags {
        carry: false,
        zero: false,
        negative: false,
        overflow: false,
        greater: false,
        equal: false,
        smaller: false,
    }
}

impl Flags {
    /// All flags clear.
    pub fn new() -> (r: Flags)
        ensures
            r == flags_clear(),
    {
        Flags {
            carry: false,
            zero: false,
            negative: false,
            overflow: false,
            greater: false,
            equal: false,
            smaller: false,
        }
    }
}

impl Default for Flags {
    fn default() -> (r: Flags)
        ensures
            r == flags_clear(),
    {
        Flags::new()
    }
}

/// The machine: sixteen 64-bit registers, byte memory and flags.
#[derive(Debug, PartialEq, Eq)]
pub struct CPU {
    pub regs: [u64; 16],
    pub memory: [u8; MEMORY_SIZE],
    pub privileged: bool,
    pub flags: Flags,
}

/// The state of the machine as a value.
pub struct CpuState {
    pub regs: Seq<u64>,
    pub memory: Seq<u8>,
    pub flags: Flags,
    pub privileged: bool,
}

impl View for CPU {
    type V = CpuState;

    open spec fn view(&self) -> CpuState {
        CpuState { regs: self.regs@, memory: self.memory@, flags: self.flags, privileged: self.privileged }
    }
}

/// A condition met while executing an instruction.
#[derive(Debug, Clone, Copy, PartialEq, Eq, Structural)]
pub enum Fault {
    /// The top nibble names no instruction class.
    InvalidClass { instruction: u32 },
    /// The subcode names no operation of its class.
    InvalidSubcode { class: u8, subcode: u8 },
    /// A load or store addressed a byte outside memory.
    MemoryOutOfBounds { address: u64 },
    /// A reserved operation (push, pop) was executed.
    Unimplemented { subcode: u8 },
    /// The instruction pointer does not address four bytes of memory.
    FetchOutOfBounds { address: u64 },
}

/// Floating-point work that an instruction asks for. The machine reads and
/// writes IEEE-754 bit patterns; computing on them is done by the caller,
/// who hands the result back (see `complete_float_value` and
/// `complete_float_compare`).
#[derive(Debug, Clone, Copy, PartialEq, Eq, Structural)]
pub enum FloatJob {
    /// Compare the low 32 bits of `a` and `b` as `f32`.
    Compare32 { a: u64, b: u64 },
    /// Compare `a` and `b` as `f64`.
    Compare64 { a: u64, b: u64 },
    /// Conversion number `op` (2 to 7) of `value` into register `dest`.
    Convert { op: u8, dest: u8, value: u64 },
    /// `f32` operation `op` into register `dest`, on the destination's old
    /// value `a` and the sources `b` and `c`.
    Arith32 { op: u8, dest: u8, a: u64, b: u64, c: u64 },
    /// `f64` operation `op`, as for `Arith32`.
    Arith64 { op: u8, dest: u8, a: u64, b: u64, c: u64 },
}

/// How a floating-point comparison came out.
#[derive(Debug, Clone, Copy, PartialEq, Eq, Structural)]
pub enum FloatOrder {
    Less,
    Equal,
    Greater,
    Unordered,
}

/// What executing one instruction did.
#[derive(Debug, Clone, Copy, PartialEq, Eq, Structural)]
pub enum Step {
    /// The instruction was executed.
    Done,
    /// The operation was skipped for the fault; the pointer advanced.
    Skipped(Fault),
    /// The fault is fatal; the machine is unchanged.
    Halted(Fault),
    /// The instruction needs floating-point work; the machine is unchanged.
    Float(FloatJob),
}

// ---- decoding ----

/// The field of `w` found by dividing by `div` and keeping the remainder
/// modulo `m`.
pub open spec fn field(w: u32, div: nat, m: nat) -> nat {
    (w as nat / div) % m
}

/// The class tag: bits 31..28.
pub open spec fn class_of(w: u32) -> nat {
    w as nat / 0x1000_0000
}

/// Nibble N1 (bits 27..24): the destination register.
pub open spec fn n1(w: u32) -> int {
    field(w, 0x100_0000, 16) as int
}

/// Nibble N2 (bits 23..20): the first source register.
pub open spec fn n2(w: u32) -> int {
    field(w, 0x10_0000, 16) as int
}

/// Nibble N3 (bits 19..16): the second source register.
pub open spec fn n3(w: u32) -> int {
    field(w, 0x1_0000, 16) as int
}

/// The low nibble: the subcode of classes 1 to 7.
pub open spec fn subcode(w: u32) -> nat {
    w as nat % 16
}

/// The state with register `r` set to `v`.
pub open spec fn with_reg(s: CpuState, r: int, v: u64) -> CpuState {
    CpuState { regs: s.regs.update(r, v), ..s }
}

/// The state with new flags.
pub open spec fn with_flags(s: CpuState, f: Flags) -> CpuState {
    CpuState { flags: f, ..s }
}

/// A state of the machine: sixteen registers and the full memory.
pub open spec fn state_wf(s: CpuState) -> bool {
    s.regs.len() == 16 && s.memory.len() == MEMORY_SIZE
}

// ---- class semantics ----

/// Class 1: what the arithmetic instruction `w` does. The 16-bit immediate
/// is zero-extended, also for signed division.
pub open spec fn arith_class_spec(s: CpuState, w: u32) -> (CpuState, Step) {
    let op = subcode(w);
    let b = s.regs[n2(w)];
    let c = s.regs[n3(w)];
    let imm = field(w, 16, 0x1_0000);
    if op > 12 {
        (s, Step::Skipped(Fault::InvalidSubcode { class: 1, subcode: op as u8 }))
    } else {
        let kind = if op <= 1 {
            ArithOp::Add
        } else if op <= 4 {
            ArithOp::Sub
        } else if op <= 6 {
            ArithOp::Mul
        } else if op <= 9 {
            ArithOp::DivUnsigned
        } else {
            ArithOp::DivSigned
        };
        let (l, r) = if op == 0 || op == 2 || op == 5 || op == 7 || op == 10 {
            (b, c)
        } else if op == 1 || op == 3 || op == 6 || op == 8 || op == 11 {
            (b, imm as u64)
        } else {
            (imm as u64, b)
        };
        let o = arith_spec(kind, l, r);
        let f = Flags {
            carry: o.carry,
            zero: o.value == 0,
            negative: o.value >= 0x8000_0000_0000_0000,
            overflow: o.overflow,
            ..s.flags
        };
        (with_flags(with_reg(s, n1(w), o.value), f), Step::Done)
    }
}

/// Class 2: what the bitwise instruction `w` does. Flags are untouched.
pub open spec fn bitwise_class_spec(s: CpuState, w: u32) -> (CpuState, Step) {
    let op = subcode(w);
    let b = s.regs[n2(w)];
    let c = s.regs[n3(w)];
    if op > 6 {
        (s, Step::Skipped(Fault::InvalidSubcode { class: 2, subcode: op as u8 }))
    } else {
        let v = if op == 0 {
            b & c
        } else if op == 1 {
            b | c
        } else if op == 2 {
            b ^ c
        } else if op == 3 {
            !(b & c)
        } else if op == 4 {
            !(b | c)
        } else if op == 5 {
            !(b ^ c)
        } else {
            !b
        };
        (with_reg(s, n1(w), v), Step::Done)
    }
}

/// Class 3: what the shift or rotate instruction `w` does.
pub open spec fn shift_class_spec(s: CpuState, w: u32) -> (CpuState, Step) {
    let op = subcode(w);
    let b = s.regs[n2(w)];
    let amount = if op % 2 == 0 {
        s.regs[n3(w)]
    } else {
        field(w, 16, 64) as u64
    };
    if op > 7 {
        (s, Step::Skipped(Fault::InvalidSubcode { class: 3, subcode: op as u8 }))
    } else {
        let v = if op <= 1 {
            shr_spec(b, amount)
        } else if op <= 3 {
            shl_spec(b, amount)
        } else if op <= 5 {
            rotr_spec(b, amount)
        } else {
            rotl_spec(b, amount)
        };
        (with_reg(s, n1(w), v), Step::Done)
    }
}

/// Class 4: what the data, memory or stack instruction `w` does.
pub open spec fn data_class_spec(s: CpuState, w: u32) -> (CpuState, Step) {
    let op = subcode(w);
    let d = n1(w);
    let imm = field(w, 256, 0x1_0000);
    let slot = field(w, 16, 8) as u64;
    let addr: u64 = if op % 2 == 0 {
        s.regs[n2(w)]
    } else {
        imm as u64
    };
    if op == 0 {
        (with_reg(s, d, s.regs[n2(w)]), Step::Done)
    } else if op == 1 {
        (with_reg(s, d, set_chunk_spec(s.regs[d], imm as u16, field(w, 16, 4) as u64)), Step::Done)
    } else if op == 2 || op == 3 {
        if addr >= MEMORY_SIZE {
            (s, Step::Skipped(Fault::MemoryOutOfBounds { address: addr }))
        } else {
            (with_reg(s, d, set_byte_spec(s.regs[d], s.memory[addr as int], slot)), Step::Done)
        }
    } else if op == 4 || op == 5 {
        if addr >= MEMORY_SIZE {
            (s, Step::Skipped(Fault::MemoryOutOfBounds { address: addr }))
        } else {
            (CpuState { memory: s.memory.update(addr as int, get_byte_spec(s.regs[d], slot)), ..s }, Step::Done)
        }
    } else if op == 6 || op == 7 {
        (s, Step::Halted(Fault::Unimplemented { subcode: op as u8 }))
    } else {
        (s, Step::Skipped(Fault::InvalidSubcode { class: 4, subcode: op as u8 }))
    }
}

/// The comparison flags for `a` against `b`; the other flags are kept.
pub open spec fn compare_flags(f: Flags, a: int, b: int) -> Flags {
    Flags { greater: a > b, equal: a == b, smaller: a < b, ..f }
}

/// Class 5: what the comparison instruction `w` does. Subcodes 0 to 2
/// compare unsigned, 3 to 5 signed; in every form the 16-bit immediate is
/// zero-extended.
pub open spec fn compare_class_spec(s: CpuState, w: u32) -> (CpuState, Step) {
    let op = subcode(w);
    let x = s.regs[n1(w)];
    let y = s.regs[n2(w)];
    let imm = field(w, 256, 0x1_0000);
    if op == 0 {
        (with_flags(s, compare_flags(s.flags, x as int, y as int)), Step::Done)
    } else if op == 1 {
        (with_flags(s, compare_flags(s.flags, x as int, imm as int)), Step::Done)
    } else if op == 2 {
        (with_flags(s, compare_flags(s.flags, imm as int, x as int)), Step::Done)
    } else if op == 3 {
        (with_flags(s, compare_flags(s.flags, signed(x), signed(y))), Step::Done)
    } else if op == 4 {
        (with_flags(s, compare_flags(s.flags, signed(x), imm as int)), Step::Done)
    } else if op == 5 {
        (with_flags(s, compare_flags(s.flags, imm as int, signed(x))), Step::Done)
    } else if op == 6 {
        (s, Step::Float(FloatJob::Compare32 { a: x, b: y }))
    } else if op == 7 {
        (s, Step::Float(FloatJob::Compare64 { a: x, b: y }))
    } else {
        (s, Step::Skipped(Fault::InvalidSubcode { class: 5, subcode: op as u8 }))
    }
}

/// Whether branch condition `cond` (taken in pairs: register form, then
/// immediate form) holds under the flags.
pub open spec fn branch_condition(f: Flags, cond: nat) -> bool {
    let c = cond / 2;
    if c == 0 {
        true
    } else if c == 1 {
        f.greater
    } else if c == 2 {
        f.equal
    } else if c == 3 {
        f.smaller
    } else if c == 4 {
        f.greater || f.equal
    } else if c == 5 {
        !f.equal
    } else {
        f.smaller || f.equal
    }
}

/// The instruction pointer after a branch by `offset` instructions.
pub open spec fn branch_target(ip: u64, offset: int) -> u64 {
    wrap(ip + 4 * offset)
}

/// The branch offset, in instructions, that the branch instruction `w`
/// names: a register's signed contents or the signed 16-bit immediate.
pub open spec fn branch_offset(s: CpuState, w: u32) -> int {
    if subcode(w) % 2 == 0 {
        signed(s.regs[n1(w)])
    } else {
        sext16(field(w, 0x1000, 0x1_0000))
    }
}

/// Class 6: what the branch instruction `w` does.
pub open spec fn branch_class_spec(s: CpuState, w: u32) -> (CpuState, Step) {
    let cond = subcode(w);
    if cond > 13 {
        (s, Step::Skipped(Fault::InvalidSubcode { class: 6, subcode: cond as u8 }))
    } else if branch_condition(s.flags, cond) {
        (with_reg(s, INSTR_PTR as int, branch_target(s.regs[INSTR_PTR as int], branch_offset(s, w))), Step::Done)
    } else {
        (s, Step::Done)
    }
}

/// Class 7: what the conversion instruction `w` does. An immediate
/// becomes the exact `f32` (subcode 0) or `f64` (subcode 1) pattern of its
/// signed value; the other conversions are floating-point work.
pub open spec fn convert_class_spec(s: CpuState, w: u32) -> (CpuState, Step) {
    let op = subcode(w);
    let imm = sext16(field(w, 256, 0x1_0000));
    if op > 7 {
        (s, Step::Skipped(Fault::InvalidSubcode { class: 7, subcode: op as u8 }))
    } else if op == 0 {
        (with_reg(s, n1(w), f32_bits_of_int(imm) as u64), Step::Done)
    } else if op == 1 {
        (with_reg(s, n1(w), f64_bits_of_int(imm)), Step::Done)
    } else {
        (s, Step::Float(FloatJob::Convert { op: op as u8, dest: n1(w) as u8, value: s.regs[n2(w)] }))
    }
}

/// Classes 8 and 9: what the floating-point instruction `w` asks for.
pub open spec fn float_class_spec(s: CpuState, w: u32, double: bool) -> (CpuState, Step) {
    let op = w as nat % 256;
    let d = n1(w);
    if op > 0x1F {
        (s, Step::Skipped(Fault::InvalidSubcode { class: if double { 9 } else { 8 }, subcode: op as u8 }))
    } else if double {
        (s, Step::Float(FloatJob::Arith64 { op: op as u8, dest: d as u8, a: s.regs[d], b: s.regs[n2(w)], c: s.regs[n3(w)] }))
    } else {
        (s, Step::Float(FloatJob::Arith32 { op: op as u8, dest: d as u8, a: s.regs[d], b: s.regs[n2(w)], c: s.regs[n3(w)] }))
    }
}

/// What the handler of `w`'s class does, before the instruction pointer is
/// advanced.
pub open spec fn handler_spec(s: CpuState, w: u32) -> (CpuState, Step) {
    let class = class_of(w);
    if class == 0 {
        (s, Step::Done)
    } else if class == 1 {
        arith_class_spec(s, w)
    } else if class == 2 {
        bitwise_class_spec(s, w)
    } else if class == 3 {
        shift_class_spec(s, w)
    } else if class == 4 {
        data_class_spec(s, w)
    } else if class == 5 {
        compare_class_spec(s, w)
    } else if class == 6 {
        branch_class_spec(s, w)
    } else if class == 7 {
        convert_class_spec(s, w)
    } else if class == 8 {
        float_class_spec(s, w, false)
    } else if class == 9 {
        float_class_spec(s, w, true)
    } else {
        (s, Step::Skipped(Fault::InvalidClass { instruction: w }))
    }
}

/// The commit rule: where the handler left the instruction pointer as it
/// was, it advances by 4.
pub open spec fn commit(before: CpuState, after: CpuState) -> CpuState {
    if after.regs[INSTR_PTR as int] == before.regs[INSTR_PTR as int] {
        with_reg(after, INSTR_PTR as int, wrap(before.regs[INSTR_PTR as int] + 4))
    } else {
        after
    }
}

/// What executing the instruction word `w` does to the machine.
#[verifier::opaque]
pub open spec fn exec_spec(s: CpuState, w: u32) -> (CpuState, Step) {
    let (h, step) = handler_spec(s, w);
    match step {
        Step::Halted(_) => (s, step),
        Step::Float(_) => (s, step),
        _ => (commit(s, h), step),
    }
}

/// The instruction word stored big-endian at byte `a` of memory.
pub open spec fn word_at(m: Seq<u8>, a: int) -> u32 {
    (m[a] as nat * 0x100_0000 + m[a + 1] as nat * 0x1_0000 + m[a + 2] as nat * 0x100 + m[a + 3] as nat) as u32
}

/// The instruction at the instruction pointer, if four bytes of memory are
/// there.
pub open spec fn fetch_spec(s: CpuState) -> Option<u32> {
    let a = s.regs[INSTR_PTR as int];
    if a + 4 <= MEMORY_SIZE {
        Some(word_at(s.memory, a as int))
    } else {
        None
    }
}

/// An instruction that is no branch and does not write R15 (no-ops,
/// comparisons, stores, and the other classes with a destination other
/// than R15) advances the instruction pointer by exactly 4.
pub proof fn lemma_non_branch_advances(s: CpuState, w: u32)
    requires
        state_wf(s),
        exec_spec(s, w).1 is Done || exec_spec(s, w).1 is Skipped,
        class_of(w) != 6,
        class_of(w) == 0 || class_of(w) == 5 || (class_of(w) == 4 && (subcode(w) == 4 || subcode(w) == 5)) || n1(w)
            != INSTR_PTR,
    ensures
        exec_spec(s, w).0.regs[INSTR_PTR as int] == wrap(s.regs[INSTR_PTR as int] + 4),
{
    reveal(exec_spec);
    let ip = s.regs[INSTR_PTR as int];
    assert(handler_spec(s, w).0.regs[INSTR_PTR as int] == ip);
}

/// A branch whose condition holds moves the instruction pointer to the
/// branch target (or by 4 where the target is the branch itself); one whose
/// condition fails advances it by 4.
pub proof fn lemma_branch_step(s: CpuState, w: u32)
    requires
        state_wf(s),
        class_of(w) == 6,
        subcode(w) <= 13,
    ensures
        ({
            let ip = s.regs[INSTR_PTR as int];
            let t = branch_target(ip, branch_offset(s, w));
            let after = exec_spec(s, w).0.regs[INSTR_PTR as int];
            &&& exec_spec(s, w).1 is Done
            &&& branch_condition(s.flags, subcode(w)) && t != ip ==> after == t
            &&& branch_condition(s.flags, subcode(w)) && t == ip ==> after == wrap(ip + 4)
            &&& !branch_condition(s.flags, subcode(w)) ==> after == wrap(ip + 4)
        }),
{
    reveal(exec_spec);
}

/// Completing floating-point work moves the instruction pointer as any
/// step does: by 4, unless the result was written to it and changed it.
pub proof fn lemma_float_completion_pointer(s: CpuState, dest: int, bits: u64)
    requires
        state_wf(s),
        0 <= dest < 16,
    ensures
        ({
            let ip = s.regs[INSTR_PTR as int];
            let after = commit(s, with_reg(s, dest, bits)).regs[INSTR_PTR as int];
            after == wrap(ip + 4) || (dest == INSTR_PTR && after == bits && bits != ip)
        }),
{
}

/// A fatal fault, or a need for floating-point work, leaves the machine as
/// it was.
pub proof fn lemma_exec_stops_unchanged(s: CpuState, w: u32)
    ensures
        exec_spec(s, w).1 is Halted ==> exec_spec(s, w).0 == s,
        exec_spec(s, w).1 is Float ==> exec_spec(s, w).0 == s,
{
    reveal(exec_spec);
}

/// After an instruction that completes, the instruction pointer has either
/// advanced by 4 or holds a different value that the instruction's handler
/// wrote; after a branch instruction that value is the branch target.
pub proof fn lemma_step_instruction_pointer(s: CpuState, w: u32)
    requires
        state_wf(s),
        exec_spec(s, w).1 is Done || exec_spec(s, w).1 is Skipped,
    ensures
        ({
            let ip = s.regs[INSTR_PTR as int];
            let after = exec_spec(s, w).0.regs[INSTR_PTR as int];
            &&& after == wrap(ip + 4) || (after != ip && after == handler_spec(s, w).0.regs[INSTR_PTR as int])
            &&& class_of(w) == 6 ==> (after == wrap(ip + 4) || after == branch_target(ip, branch_offset(s, w)))
        }),
{
    reveal(exec_spec);
}

/// After `immtof rD, imm` the low 32 bits of `rD` are an `f32` pattern
/// that is exactly the signed immediate; after `immtod rD, imm`, `rD` is an
/// `f64` pattern that is exactly it.
pub proof fn lemma_immediate_to_float_exact(s: CpuState, w: u32)
    requires
        state_wf(s),
        class_of(w) == 7,
        subcode(w) <= 1,
        n1(w) != INSTR_PTR,
    ensures
        ({
            let v = sext16(field(w, 256, 0x1_0000));
            let r = exec_spec(s, w).0.regs[n1(w)];
            &&& subcode(w) == 0 ==> r < 0x1_0000_0000 && float_denotes(r as nat, v, 23, 8, 127)
            &&& subcode(w) == 1 ==> float_denotes(r as nat, v, 52, 11, 1023)
        }),
{
    reveal(exec_spec);
    lemma_small_int_exact(sext16(field(w, 256, 0x1_0000)));
}

/// Why a run ended.
#[derive(Debug, Clone, Copy, PartialEq, Eq, Structural)]
pub enum RunOutcome {
    /// All cycles were spent.
    Completed,
    /// A fatal fault, or a fetch outside memory, stopped the machine.
    Stopped(Fault),
    /// The next instruction needs floating-point work; `remaining` cycles,
    /// that instruction's included, were not spent.
    FloatPending { job: FloatJob, remaining: u64 },
}

/// Running for `n` cycles from `s`: the final state, the faults of skipped
/// operations in order, and why the run ended. In strict mode a fault that
/// would be skipped stops the run instead, after that instruction.
pub open spec fn run_spec(s: CpuState, n: nat, strict: bool) -> (CpuState, Seq<Fault>, RunOutcome)
    decreases n,
{
    if n == 0 {
        (s, Seq::empty(), RunOutcome::Completed)
    } else {
        match fetch_spec(s) {
            None => (s, Seq::empty(), RunOutcome::Stopped(Fault::FetchOutOfBounds { address: s.regs[INSTR_PTR as int] })),
            Some(w) => {
                let (t, step) = exec_spec(s, w);
                match step {
                    Step::Halted(f) => (s, Seq::empty(), RunOutcome::Stopped(f)),
                    Step::Float(job) => (s, Seq::empty(), RunOutcome::FloatPending { job, remaining: n as u64 }),
                    Step::Skipped(f) => if strict {
                        (t, Seq::empty(), RunOutcome::Stopped(f))
                    } else {
                        let (u, d, o) = run_spec(t, (n - 1) as nat, strict);
                        (u, seq![f] + d, o)
                    },
                    Step::Done => run_spec(t, (n - 1) as nat, strict),
                }
            },
        }
    }
}

/// The flags after a floating-point comparison came out as `order`.
pub open spec fn float_order_flags(f: Flags, order: FloatOrder) -> Flags {
    Flags {
        greater: order == FloatOrder::Greater,
        equal: order == FloatOrder::Equal,
        smaller: order == FloatOrder::Less,
        ..f
    }
}

fn nibble1(w: u32) -> (r: usize)
    ensures
        r == n1(w),
        r < 16,
{
    ((w / 0x100_0000) % 16) as usize
}

fn nibble2(w: u32) -> (r: usize)
    ensures
        r == n2(w),
        r < 16,
{
    ((w / 0x10_0000) % 16) as usize
}

fn nibble3(w: u32) -> (r: usize)
    ensures
        r == n3(w),
        r < 16,
{
    ((w / 0x1_0000) % 16) as usize
}

fn sext16_int(x: u64) -> (r: i128)
    requires
        x < 0x1_0000,
    ensures
        r == sext16(x as nat),
{
    if x < 0x8000 {
        x as i128
    } else {
        x as i128 - 0x1_0000
    }
}

fn signed_of(x: u64) -> (r: i128)
    ensures
        r == signed(x),
{
    if x < 0x8000_0000_0000_0000 {
        x as i128
    } else {
        x as i128 - 0x1_0000_0000_0000_0000i128
    }
}

impl CPU {
    /// A machine with the given registers, memory, privilege and flags.
    pub fn new(regs: [u64; 16], memory: [u8; MEMORY_SIZE], privileged: bool, flags: Flags) -> (r: CPU)
        ensures
            r.regs == regs,
            r.memory == memory,
            r.privileged == privileged,
            r.flags == flags,
    {
        CPU { regs, memory, privileged, flags }
    }

    /// A privileged machine with all registers, memory and flags zero.
    pub fn default() -> (r: CPU)
        ensures
            forall|i: int| 0 <= i < 16 ==> r.regs[i] == 0,
            forall|i: int| 0 <= i < MEMORY_SIZE ==> r.memory[i] == 0,
            r.privileged,
            r.flags == flags_clear(),
    {
        CPU { regs: [0u64; 16], memory: [0u8; MEMORY_SIZE], privileged: true, flags: Flags::new() }
    }

    /// Sets the instruction pointer.
    pub fn set_instruction_ptr(&mut self, value: u64)
        ensures
            final(self)@ == with_reg(old(self)@, INSTR_PTR as int, value),
    {
        self.regs[INSTR_PTR] = value;
    }

    fn execute_arithmetic_operations(&mut self, instruction: u32) -> (r: Step)
        ensures
            (final(self)@, r) == arith_class_spec(old(self)@, instruction),
    {
        let op = instruction % 16;
        let dest = nibble1(instruction);
        let b = self.regs[nibble2(instruction)];
        let c = self.regs[nibble3(instruction)];
        let imm = ((instruction / 16) % 0x1_0000) as u64;
        if op > 12 {
            return Step::Skipped(Fault::InvalidSubcode { class: 1, subcode: op as u8 });
        }
        let kind = if op <= 1 {
            ArithOp::Add
        } else if op <= 4 {
            ArithOp::Sub
        } else if op <= 6 {
            ArithOp::Mul
        } else if op <= 9 {
            ArithOp::DivUnsigned
        } else {
            ArithOp::DivSigned
        };
        let (l, r) = if op == 0 || op == 2 || op == 5 || op == 7 || op == 10 {
            (b, c)
        } else if op == 1 || op == 3 || op == 6 || op == 8 || op == 11 {
            (b, imm)
        } else {
            (imm, b)
        };
        let o = arith(kind, l, r);
        self.regs[dest] = o.value;
        self.flags = Flags {
            carry: o.carry,
            zero: o.value == 0,
            negative: o.value >= 0x8000_0000_0000_0000,
            overflow: o.overflow,
            ..self.flags
        };
        Step::Done
    }

    fn execute_bitwise_operations(&mut self, instruction: u32) -> (r: Step)
        ensures
            (final(self)@, r) == bitwise_class_spec(old(self)@, instruction),
    {
        let op = instruction % 16;
        let b = self.regs[nibble2(instruction)];
        let c = self.regs[nibble3(instruction)];
        let v = if op == 0 {
            b & c
        } else if op == 1 {
            b | c
        } else if op == 2 {
            b ^ c
        } else if op == 3 {
            !(b & c)
        } else if op == 4 {
            !(b | c)
        } else if op == 5 {
            !(b ^ c)
        } else if op == 6 {
            !b
        } else {
            return Step::Skipped(Fault::InvalidSubcode { class: 2, subcode: op as u8 });
        };
        self.regs[nibble1(instruction)] = v;
        Step::Done
    }

    fn execute_shift_and_rotate(&mut self, instruction: u32) -> (r: Step)
        ensures
            (final(self)@, r) == shift_class_spec(old(self)@, instruction),
    {
        let op = instruction % 16;
        let b = self.regs[nibble2(instruction)];
        let amount = if op % 2 == 0 {
            self.regs[nibble3(instruction)]
        } else {
            ((instruction / 16) % 64) as u64
        };
        let v = if op <= 1 {
            shift_right(b, amount)
        } else if op <= 3 {
            shift_left(b, amount)
        } else if op <= 5 {
            rotate_right(b, amount)
        } else if op <= 7 {
            rotate_left(b, amount)
        } else {
            return Step::Skipped(Fault::InvalidSubcode { class: 3, subcode: op as u8 });
        };
        self.regs[nibble1(instruction)] = v;
        Step::Done
    }

    fn execute_data_movement_memory_stack(&mut self, instruction: u32) -> (r: Step)
        ensures
            (final(self)@, r) == data_class_spec(old(self)@, instruction),
    {
        let op = instruction % 16;
        let dest = nibble1(instruction);
        let src = nibble2(instruction);
        let imm = ((instruction / 256) % 0x1_0000) as u16;
        let slot = ((instruction / 16) % 8) as u8;
        let addr: u64 = if op % 2 == 0 {
            self.regs[src]
        } else {
            imm as u64
        };
        if op == 0 {
            self.regs[dest] = self.regs[src];
        } else if op == 1 {
            let chunk = ((instruction / 16) % 4) as u8;
            self.regs[dest] = set_chunk(self.regs[dest], imm, chunk);
        } else if op == 2 || op == 3 {
            if addr >= MEMORY_SIZE as u64 {
                return Step::Skipped(Fault::MemoryOutOfBounds { address: addr });
            }
            self.regs[dest] = set_byte(self.regs[dest], self.memory[addr as usize], slot);
        } else if op == 4 || op == 5 {
            if addr >= MEMORY_SIZE as u64 {
                return Step::Skipped(Fault::MemoryOutOfBounds { address: addr });
            }
            self.memory[addr as usize] = get_byte(self.regs[dest], slot);
        } else if op == 6 || op == 7 {
            return Step::Halted(Fault::Unimplemented { subcode: op as u8 });
        } else {
            return Step::Skipped(Fault::InvalidSubcode { class: 4, subcode: op as u8 });
        }
        Step::Done
    }

    fn set_comparison(&mut self, a: i128, b: i128)
        ensures
            final(self)@ == with_flags(old(self)@, compare_flags(old(self).flags, a as int, b as int)),
    {
        self.flags = Flags { greater: a > b, equal: a == b, smaller: a < b, ..self.flags };
    }

    fn execute_comparison(&mut self, instruction: u32) -> (r: Step)
        ensures
            (final(self)@, r) == compare_class_spec(old(self)@, instruction),
    {
        let op = instruction % 16;
        let x = self.regs[nibble1(instruction)];
        let y = self.regs[nibble2(instruction)];
        let imm = ((instruction / 256) % 0x1_0000) as u64;
        if op == 0 {
            self.set_comparison(x as i128, y as i128);
        } else if op == 1 {
            self.set_comparison(x as i128, imm as i128);
        } else if op == 2 {
            self.set_comparison(imm as i128, x as i128);
        } else if op == 3 {
            self.set_comparison(signed_of(x), signed_of(y));
        } else if op == 4 {
            self.set_comparison(signed_of(x), imm as i128);
        } else if op == 5 {
            self.set_comparison(imm as i128, signed_of(x));
        } else if op == 6 {
            return Step::Float(FloatJob::Compare32 { a: x, b: y });
        } else if op == 7 {
            return Step::Float(FloatJob::Compare64 { a: x, b: y });
        } else {
            return Step::Skipped(Fault::InvalidSubcode { class: 5, subcode: op as u8 });
        }
        Step::Done
    }

    fn execute_branching(&mut self, instruction: u32) -> (r: Step)
        ensures
            (final(self)@, r) == branch_class_spec(old(self)@, instruction),
    {
        let cond = instruction % 16;
        if cond > 13 {
            return Step::Skipped(Fault::InvalidSubcode { class: 6, subcode: cond as u8 });
        }
        let f = self.flags;
        let c = cond / 2;
        let taken = if c == 0 {
            true
        } else if c == 1 {
            f.greater
        } else if c == 2 {
            f.equal
        } else if c == 3 {
            f.smaller
        } else if c == 4 {
            f.greater || f.equal
        } else if c == 5 {
            !f.equal
        } else {
            f.smaller || f.equal
        };
        if taken {
            let offset: i128 = if cond % 2 == 0 {
                signed_of(self.regs[nibble1(instruction)])
            } else {
                sext16_int(((instruction / 0x1000) % 0x1_0000) as u64)
            };
            let ip = self.regs[INSTR_PTR] as i128;
            let t: i128 = (ip + 4 * offset) % 0x1_0000_0000_0000_0000i128;
            let target: u64 = if t < 0 {
                (t + 0x1_0000_0000_0000_0000i128) as u64
            } else {
                t as u64
            };
            proof {
                let m = 0x1_0000_0000_0000_0000int;
                let x = ip as int + 4 * offset as int;
                assert(t as int == x % m || t as int == x % m - m);
            }
            self.regs[INSTR_PTR] = target;
        }
        Step::Done
    }

    fn execute_conversion(&mut self, instruction: u32) -> (r: Step)
        ensures
            (final(self)@, r) == convert_class_spec(old(self)@, instruction),
    {
        let op = instruction % 16;
        if op > 7 {
            return Step::Skipped(Fault::InvalidSubcode { class: 7, subcode: op as u8 });
        }
        let dest = nibble1(instruction);
        let imm = sext16_int(((instruction / 256) % 0x1_0000) as u64) as i16;
        if op == 0 {
            self.regs[dest] = f32_bits_of_i16(imm) as u64;
            return Step::Done;
        }
        if op == 1 {
            self.regs[dest] = f64_bits_of_i16(imm);
            return Step::Done;
        }
        Step::Float(FloatJob::Convert { op: op as u8, dest: dest as u8, value: self.regs[nibble2(instruction)] })
    }

    fn execute_floating(&mut self, instruction: u32, double: bool) -> (r: Step)
        ensures
            (final(self)@, r) == float_class_spec(old(self)@, instruction, double),
    {
        let op = instruction % 256;
        let d = nibble1(instruction);
        if op > 0x1F {
            return Step::Skipped(Fault::InvalidSubcode { class: if double { 9 } else { 8 }, subcode: op as u8 });
        }
        let a = self.regs[d];
        let b = self.regs[nibble2(instruction)];
        let c = self.regs[nibble3(instruction)];
        if double {
            Step::Float(FloatJob::Arith64 { op: op as u8, dest: d as u8, a, b, c })
        } else {
            Step::Float(FloatJob::Arith32 { op: op as u8, dest: d as u8, a, b, c })
        }
    }

    fn advance(&mut self, before: u64)
        requires
            old(self).regs[INSTR_PTR as int] == before,
        ensures
            final(self)@ == with_reg(old(self)@, INSTR_PTR as int, wrap(before + 4)),
    {
        self.regs[INSTR_PTR] = if before <= 0xFFFF_FFFF_FFFF_FFFB {
            before + 4
        } else {
            before - 0xFFFF_FFFF_FFFF_FFFC
        };
    }

    /// Executes one instruction word: its class handler runs, then the
    /// instruction pointer advances by 4 unless the handler changed it.
    /// A fatal fault, or an instruction that needs floating-point work,
    /// leaves the machine unchanged.
    pub fn exec(&mut self, instruction: u32) -> (r: Step)
        ensures
            (final(self)@, r) == exec_spec(old(self)@, instruction),
    {
        reveal(exec_spec);
        let before = self.regs[INSTR_PTR];
        let class = instruction / 0x1000_0000;
        let ghost s0 = self@;
        let step = if class == 0 {
            Step::Done
        } else if class == 1 {
            self.execute_arithmetic_operations(instruction)
        } else if class == 2 {
            self.execute_bitwise_operations(instruction)
        } else if class == 3 {
            self.execute_shift_and_rotate(instruction)
        } else if class == 4 {
            self.execute_data_movement_memory_stack(instruction)
        } else if class == 5 {
            self.execute_comparison(instruction)
        } else if class == 6 {
            self.execute_branching(instruction)
        } else if class == 7 {
            self.execute_conversion(instruction)
        } else if class == 8 {
            self.execute_floating(instruction, false)
        } else if class == 9 {
            self.execute_floating(instruction, true)
        } else {
            Step::Skipped(Fault::InvalidClass { instruction })
        };
        match step {
            Step::Halted(_) => {},
            Step::Float(_) => {},
            _ => {
                if self.regs[INSTR_PTR] == before {
                    self.advance(before);
                }
            },
        }
        step
    }

    /// Reads the big-endian instruction word at byte `address`, if four
    /// bytes of memory are there.
    pub fn fetch_instruction(&self, address: u64) -> (r: Option<u32>)
        ensures
            address + 4 <= MEMORY_SIZE ==> r == Some(word_at(self.memory@, address as int)),
            address + 4 > MEMORY_SIZE ==> r is None,
    {
        if address > (MEMORY_SIZE - 4) as u64 {
            return None;
        }
        let a = address as usize;
        let b1 = self.memory[a] as u32;
        let b2 = self.memory[a + 1] as u32;
        let b3 = self.memory[a + 2] as u32;
        let b4 = self.memory[a + 3] as u32;
        Some(b1 * 0x100_0000 + b2 * 0x1_0000 + b3 * 0x100 + b4)
    }

    /// Writes the result of a floating-point job into register `dest`,
    /// then advances the instruction pointer by the commit rule.
    pub fn complete_float_value(&mut self, dest: u8, bits: u64)
        requires
            dest < 16,
        ensures
            final(self)@ == commit(old(self)@, with_reg(old(self)@, dest as int, bits)),
    {
        let before = self.regs[INSTR_PTR];
        self.regs[dest as usize] = bits;
        if self.regs[INSTR_PTR] == before {
            self.advance(before);
        }
    }

    /// Sets the comparison flags from how a floating-point comparison came
    /// out, then advances the instruction pointer by 4.
    pub fn complete_float_compare(&mut self, order: FloatOrder)
        ensures
            final(self)@ == commit(old(self)@, with_flags(old(self)@, float_order_flags(old(self).flags, order))),
    {
        let before = self.regs[INSTR_PTR];
        self.flags = Flags {
            greater: order == FloatOrder::Greater,
            equal: order == FloatOrder::Equal,
            smaller: order == FloatOrder::Less,
            ..self.flags
        };
        self.advance(before);
    }

    /// Runs up to `cycles` fetch-execute cycles from the instruction
    /// pointer. The faults of operations that were skipped are appended to
    /// `diagnostics`; in strict mode the first such fault stops the run
    /// instead.
    pub fn run(&mut self, cycles: u64, strict: bool, diagnostics: &mut Vec<Fault>) -> (r: RunOutcome)
        ensures
            final(self)@ == run_spec(old(self)@, cycles as nat, strict).0,
            final(diagnostics)@ == old(diagnostics)@ + run_spec(old(self)@, cycles as nat, strict).1,
            r == run_spec(old(self)@, cycles as nat, strict).2,
    {
        let ghost start = self@;
        let ghost diag0 = diagnostics@;
        let mut left = cycles;
        while left > 0
            invariant
                left <= cycles,
                start == old(self)@,
                diag0 == old(diagnostics)@,
                run_spec(start, cycles as nat, strict).0 == run_spec(self@, left as nat, strict).0,
                run_spec(start, cycles as nat, strict).2 == run_spec(self@, left as nat, strict).2,
                diag0 + run_spec(start, cycles as nat, strict).1 == diagnostics@ + run_spec(self@, left as nat, strict).1,
            decreases left,
        {
            proof {
                assert(diagnostics@ + Seq::<Fault>::empty() =~= diagnostics@);
            }
            let address = self.regs[INSTR_PTR];
            let instruction = match self.fetch_instruction(address) {
                None => {
                    proof {
                        assert(fetch_spec(self@) is None);
                        assert(run_spec(self@, left as nat, strict) == (self@, Seq::<Fault>::empty(), RunOutcome::Stopped(Fault::FetchOutOfBounds { address })));
                    }
                    return RunOutcome::Stopped(Fault::FetchOutOfBounds { address });
                },
                Some(w) => w,
            };
            let ghost before = self@;
            let step = self.exec(instruction);
            proof {
                lemma_exec_stops_unchanged(before, instruction);
                assert(fetch_spec(before) == Some(instruction));
            }
            match step {
                Step::Halted(f) => {
                    proof {
                        assert(run_spec(before, left as nat, strict) == (before, Seq::<Fault>::empty(), RunOutcome::Stopped(f)));
                    }
                    return RunOutcome::Stopped(f);
                },
                Step::Float(job) => {
                    proof {
                        assert(run_spec(before, left as nat, strict) == (before, Seq::<Fault>::empty(), RunOutcome::FloatPending { job, remaining: left }));
                    }
                    return RunOutcome::FloatPending { job, remaining: left };
                },
                Step::Skipped(f) => {
                    if strict {
                        proof {
                            assert(run_spec(before, left as nat, strict) == (self@, Seq::<Fault>::empty(), RunOutcome::Stopped(f)));
                        }
                        return RunOutcome::Stopped(f);
                    }
                    proof {
                        let d = run_spec(self@, (left - 1) as nat, strict).1;
                        assert(diagnostics@.push(f) + d =~= diagnostics@ + (seq![f] + d));
                    }
                    diagnostics.push(f);
                },
                Step::Done => {},
            }
            left = left - 1;
        }
        proof {
            assert(diagnostics@ + Seq::<Fault>::empty() =~= diagnostics@);
        }
        RunOutcome::Completed
    }
}

/// Writes `program` big-endian into memory from address 0, four bytes per
/// word.
pub fn load_program(cpu: &mut CPU, program: &[u32])
    requires
        program@.len() * 4 <= MEMORY_SIZE,
    ensures
        forall|i: int| 0 <= i < program@.len() ==> word_at(final(cpu).memory@, 4 * i) == program@[i],
        forall|a: int| program@.len() * 4 <= a < MEMORY_SIZE ==> final(cpu).memory@[a] == old(cpu).memory@[a],
        final(cpu).regs == old(cpu).regs,
        final(cpu).flags == old(cpu).flags,
        final(cpu).privileged == old(cpu).privileged,
{
    let mut i: usize = 0;
    while i < program.len()
        invariant
            i <= program@.len(),
            program@.len() * 4 <= MEMORY_SIZE,
            forall|k: int| 0 <= k < i ==> word_at(cpu.memory@, 4 * k) == program@[k],
            forall|a: int| i * 4 <= a < MEMORY_SIZE ==> cpu.memory@[a] == old(cpu).memory@[a],
            cpu.regs == old(cpu).regs,
            cpu.flags == old(cpu).flags,
            cpu.privileged == old(cpu).privileged,
        decreases program@.len() - i,
    {
        let w = program[i];
        let m = 4 * i;
        let b1 = (w / 0x100_0000) as u8;
        let b2 = ((w / 0x1_0000) % 0x100) as u8;
        let b3 = ((w / 0x100) % 0x100) as u8;
        let b4 = (w % 0x100) as u8;
        cpu.memory[m] = b1;
        cpu.memory[m + 1] = b2;
        cpu.memory[m + 2] = b3;
        cpu.memory[m + 3] = b4;
        proof {
            assert(word_at(cpu.memory@, m as int) == w);
        }
        i = i + 1;
    }
}

} // verus!
