//! The mnemonics of the assembly language.
use vstd::prelude::*;
use crate::text::{chars_equal, chars_of};

verus! {

/// The number of mnemonics.
pub const OPCODE_COUNT: u8 = 41;

/// A mnemonic of the assembly language.
#[derive(Debug, Clone, Copy, PartialEq, Eq, Structural)]
pub enum Opcode {
    Nop,
    Add,
    Subtract,
    Multiply,
    Divide,
    DivideSigned,
    And,
    Or,
    Xor,
    Nand,
    Nor,
    Xnor,
    Not,
    RightShift,
    LeftShift,
    RightRoll,
    LeftRoll,
    Move,
    LoadImmediate,
    LoadRegister,
    StoreRegister,
    Push,
    Pop,
    Compare,
    CompareFloat,
    CompareDouble,
    Branch,
    BranchGreater,
    BranchEqual,
    BranchSmaller,
    BranchGreaterEqual,
    BranchNotEqual,
    BranchSmallerEqual,
    ImmediateToFloat,
    ImmediateToDouble,
    IntegerToFloat,
    IntegerToDouble,
    FloatToInteger,
    FloatToDouble,
    DoubleToInteger,
    DoubleToFloat,
}

/// The text of a mnemonic.
pub open spec fn spec_mnemonic(op: Opcode) -> Seq<char> {
    match op {
        Opcode::Nop => "nop"@,
        Opcode::Add => "add"@,
        Opcode::Subtract => "sub"@,
        Opcode::Multiply => "mul"@,
        Opcode::Divide => "div"@,
        Opcode::DivideSigned => "sdiv"@,
        Opcode::And => "and"@,
        Opcode::Or => "or"@,
        Opcode::Xor => "xor"@,
        Opcode::Nand => "nand"@,
        Opcode::Nor => "nor"@,
        Opcode::Xnor => "xnor"@,
        Opcode::Not => "not"@,
        Opcode::RightShift => "rsh"@,
        Opcode::LeftShift => "lsh"@,
        Opcode::RightRoll => "rrol"@,
        Opcode::LeftRoll => "lroll"@,
        Opcode::Move => "mov"@,
        Opcode::LoadImmediate => "ldi"@,
        Opcode::LoadRegister => "ldr"@,
        Opcode::StoreRegister => "str"@,
        Opcode::Push => "push"@,
        Opcode::Pop => "pop"@,
        Opcode::Compare => "cmp"@,
        Opcode::CompareFloat => "fcmp"@,
        Opcode::CompareDouble => "dcmp"@,
        Opcode::Branch => "b"@,
        Opcode::BranchGreater => "bg"@,
        Opcode::BranchEqual => "be"@,
        Opcode::BranchSmaller => "bs"@,
        Opcode::BranchGreaterEqual => "bge"@,
        Opcode::BranchNotEqual => "bne"@,
        Opcode::BranchSmallerEqual => "bse"@,
        Opcode::ImmediateToFloat => "immtof"@,
        Opcode::ImmediateToDouble => "immtod"@,
        Opcode::IntegerToFloat => "itof"@,
        Opcode::IntegerToDouble => "itod"@,
        Opcode::FloatToInteger => "ftoi"@,
        Opcode::FloatToDouble => "ftod"@,
        Opcode::DoubleToInteger => "dtoi"@,
        Opcode::DoubleToFloat => "dtof"@,
    }
}

/// The mnemonic at position `i` of the table, for `i < OPCODE_COUNT`.
pub open spec fn opcode_of(i: nat) -> Opcode {
    if i == 0 {
        Opcode::Nop
    }     else if i == 1 {
        Opcode::Add
    }     else if i == 2 {
        Opcode::Subtract
    }     else if i == 3 {
        Opcode::Multiply
    }     else if i == 4 {
        Opcode::Divide
    }     else if i == 5 {
        Opcode::DivideSigned
    }     else if i == 6 {
        Opcode::And
    }     else if i == 7 {
        Opcode::Or
    }     else if i == 8 {
        Opcode::Xor
    }     else if i == 9 {
        Opcode::Nand
    }     else if i == 10 {
        Opcode::Nor
    }     else if i == 11 {
        Opcode::Xnor
    }     else if i == 12 {
        Opcode::Not
    }     else if i == 13 {
        Opcode::RightShift
    }     else if i == 14 {
        Opcode::LeftShift
    }     else if i == 15 {
        Opcode::RightRoll
    }     else if i == 16 {
        Opcode::LeftRoll
    }     else if i == 17 {
        Opcode::Move
    }     else if i == 18 {
        Opcode::LoadImmediate
    }     else if i == 19 {
        Opcode::LoadRegister
    }     else if i == 20 {
        Opcode::StoreRegister
    }     else if i == 21 {
        Opcode::Push
    }     else if i == 22 {
        Opcode::Pop
    }     else if i == 23 {
        Opcode::Compare
    }     else if i == 24 {
        Opcode::CompareFloat
    }     else if i == 25 {
        Opcode::CompareDouble
    }     else if i == 26 {
        Opcode::Branch
    }     else if i == 27 {
        Opcode::BranchGreater
    }     else if i == 28 {
        Opcode::BranchEqual
    }     else if i == 29 {
        Opcode::BranchSmaller
    }     else if i == 30 {
        Opcode::BranchGreaterEqual
    }     else if i == 31 {
        Opcode::BranchNotEqual
    }     else if i == 32 {
        Opcode::BranchSmallerEqual
    }     else if i == 33 {
        Opcode::ImmediateToFloat
    }     else if i == 34 {
        Opcode::ImmediateToDouble
    }     else if i == 35 {
        Opcode::IntegerToFloat
    }     else if i == 36 {
        Opcode::IntegerToDouble
    }     else if i == 37 {
        Opcode::FloatToInteger
    }     else if i == 38 {
        Opcode::FloatToDouble
    }     else if i == 39 {
        Opcode::DoubleToInteger
    } else {
        Opcode::DoubleToFloat
    }
}

/// The first mnemonic, at position `i` or later, whose text is `s`.
pub open spec fn opcode_lookup_from(s: Seq<char>, i: nat) -> Option<Opcode>
    decreases OPCODE_COUNT - i,
{
    if i >= OPCODE_COUNT {
        None
    } else if spec_mnemonic(opcode_of(i)) == s {
        Some(opcode_of(i))
    } else {
        opcode_lookup_from(s, i + 1)
    }
}

/// The mnemonic written `s`, if any.
pub open spec fn opcode_lookup(s: Seq<char>) -> Option<Opcode> {
    opcode_lookup_from(s, 0)
}

impl Opcode {
    /// The mnemonic at position `i` of the table.
    pub fn from_index(i: u8) -> (r: Opcode)
        requires
            i < OPCODE_COUNT,
        ensures
            r == opcode_of(i as nat),
    {
        match i {
            0 => Opcode::Nop,
            1 => Opcode::Add,
            2 => Opcode::Subtract,
            3 => Opcode::Multiply,
            4 => Opcode::Divide,
            5 => Opcode::DivideSigned,
            6 => Opcode::And,
            7 => Opcode::Or,
            8 => Opcode::Xor,
            9 => Opcode::Nand,
            10 => Opcode::Nor,
            11 => Opcode::Xnor,
            12 => Opcode::Not,
            13 => Opcode::RightShift,
            14 => Opcode::LeftShift,
            15 => Opcode::RightRoll,
            16 => Opcode::LeftRoll,
            17 => Opcode::Move,
            18 => Opcode::LoadImmediate,
            19 => Opcode::LoadRegister,
            20 => Opcode::StoreRegister,
            21 => Opcode::Push,
            22 => Opcode::Pop,
            23 => Opcode::Compare,
            24 => Opcode::CompareFloat,
            25 => Opcode::CompareDouble,
            26 => Opcode::Branch,
            27 => Opcode::BranchGreater,
            28 => Opcode::BranchEqual,
            29 => Opcode::BranchSmaller,
            30 => Opcode::BranchGreaterEqual,
            31 => Opcode::BranchNotEqual,
            32 => Opcode::BranchSmallerEqual,
            33 => Opcode::ImmediateToFloat,
            34 => Opcode::ImmediateToDouble,
            35 => Opcode::IntegerToFloat,
            36 => Opcode::IntegerToDouble,
            37 => Opcode::FloatToInteger,
            38 => Opcode::FloatToDouble,
            39 => Opcode::DoubleToInteger,
            _ => Opcode::DoubleToFloat,
        }
    }

    /// The text of the mnemonic.
    pub fn mnemonic(&self) -> (r: &'static str)
        ensures
            r@ == spec_mnemonic(*self),
    {
        match self {
            Opcode::Nop => "nop",
            Opcode::Add => "add",
            Opcode::Subtract => "sub",
            Opcode::Multiply => "mul",
            Opcode::Divide => "div",
            Opcode::DivideSigned => "sdiv",
            Opcode::And => "and",
            Opcode::Or => "or",
            Opcode::Xor => "xor",
            Opcode::Nand => "nand",
            Opcode::Nor => "nor",
            Opcode::Xnor => "xnor",
            Opcode::Not => "not",
            Opcode::RightShift => "rsh",
            Opcode::LeftShift => "lsh",
            Opcode::RightRoll => "rrol",
            Opcode::LeftRoll => "lroll",
            Opcode::Move => "mov",
            Opcode::LoadImmediate => "ldi",
            Opcode::LoadRegister => "ldr",
            Opcode::StoreRegister => "str",
            Opcode::Push => "push",
            Opcode::Pop => "pop",
            Opcode::Compare => "cmp",
            Opcode::CompareFloat => "fcmp",
            Opcode::CompareDouble => "dcmp",
            Opcode::Branch => "b",
            Opcode::BranchGreater => "bg",
            Opcode::BranchEqual => "be",
            Opcode::BranchSmaller => "bs",
            Opcode::BranchGreaterEqual => "bge",
            Opcode::BranchNotEqual => "bne",
            Opcode::BranchSmallerEqual => "bse",
            Opcode::ImmediateToFloat => "immtof",
            Opcode::ImmediateToDouble => "immtod",
            Opcode::IntegerToFloat => "itof",
            Opcode::IntegerToDouble => "itod",
            Opcode::FloatToInteger => "ftoi",
            Opcode::FloatToDouble => "ftod",
            Opcode::DoubleToInteger => "dtoi",
            Opcode::DoubleToFloat => "dtof",
        }
    }

    /// The text of the mnemonic, as an owned string.
    pub fn to_string(&self) -> (r: String)
        ensures
            r@ == spec_mnemonic(*self),
    {
        self.mnemonic().to_owned()
    }

    /// The mnemonic written by the characters `w[start..end]`, if any.
    pub fn parse_chars(w: &[char], start: usize, end: usize) -> (r: Option<Opcode>)
        requires
            start <= end <= w@.len(),
        ensures
            r == opcode_lookup(w@.subrange(start as int, end as int)),
    {
        let ghost s = w@.subrange(start as int, end as int);
        let mut i: u8 = 0;
        while i < OPCODE_COUNT
            invariant
                i <= OPCODE_COUNT,
                start <= end <= w@.len(),
                s == w@.subrange(start as int, end as int),
                opcode_lookup_from(s, 0) == opcode_lookup_from(s, i as nat),
            decreases OPCODE_COUNT - i,
        {
            let op = Opcode::from_index(i);
            if chars_equal(w, start, end, op.mnemonic()) {
                return Some(op);
            }
            i = i + 1;
        }
        None
    }

    /// The mnemonic written `s`, if any.
    pub fn parse(s: &str) -> (r: Option<Opcode>)
        ensures
            r == opcode_lookup(s@),
    {
        let w = chars_of(s);
        proof {
            assert(w@.subrange(0, w@.len() as int) =~= s@);
        }
        Opcode::parse_chars(w.as_slice(), 0, w.len())
    }
}

impl std::str::FromStr for Opcode {
    type Err = ();

    fn from_str(s: &str) -> Result<Opcode, ()> {
        match Opcode::parse(s) {
            Some(op) => Ok(op),
            None => Err(()),
        }
    }
}

impl<'a> TryFrom<&'a str> for Opcode {
    type Error = ();

    fn try_from(s: &'a str) -> (r: Result<Opcode, ()>) {
        match Opcode::parse(s) {
            Some(op) => Ok(op),
            None => Err(()),
        }
    }
}

impl<'a> vstd::std_specs::convert::TryFromSpecImpl<&'a str> for Opcode {
    open spec fn obeys_try_from_spec() -> bool {
        true
    }

    open spec fn try_from_spec(s: &'a str) -> Result<Opcode, ()> {
        match opcode_lookup(s@) {
            Some(op) => Ok(op),
            None => Err(()),
        }
    }
}

} // verus!
