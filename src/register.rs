//! The sixteen general-purpose registers.
use vstd::prelude::*;
use crate::literal::{scan_digits, scan_spec, DigitScan};
use crate::text::chars_of;

verus! {

/// One of the sixteen 64-bit registers. `R15` holds the instruction pointer.
#[derive(Debug, Clone, Copy, PartialEq, Eq, Structural)]
pub enum Register {
    R0,
    R1,
    R2,
    R3,
    R4,
    R5,
    R6,
    R7,
    R8,
    R9,
    R10,
    R11,
    R12,
    R13,
    R14,
    R15,
}

/// The register number `0..16` that a register stands for.
pub open spec fn reg_num(r: Register) -> nat {
    match r {
        Register::R0 => 0,
        Register::R1 => 1,
        Register::R2 => 2,
        Register::R3 => 3,
        Register::R4 => 4,
        Register::R5 => 5,
        Register::R6 => 6,
        Register::R7 => 7,
        Register::R8 => 8,
        Register::R9 => 9,
        Register::R10 => 10,
        Register::R11 => 11,
        Register::R12 => 12,
        Register::R13 => 13,
        Register::R14 => 14,
        Register::R15 => 15,
    }
}

/// The register with number `n`, for `n < 16`.
pub open spec fn reg_of(n: nat) -> Register {
    if n == 0 { Register::R0 }
    else if n == 1 { Register::R1 }
    else if n == 2 { Register::R2 }
    else if n == 3 { Register::R3 }
    else if n == 4 { Register::R4 }
    else if n == 5 { Register::R5 }
    else if n == 6 { Register::R6 }
    else if n == 7 { Register::R7 }
    else if n == 8 { Register::R8 }
    else if n == 9 { Register::R9 }
    else if n == 10 { Register::R10 }
    else if n == 11 { Register::R11 }
    else if n == 12 { Register::R12 }
    else if n == 13 { Register::R13 }
    else if n == 14 { Register::R14 }
    else { Register::R15 }
}

/// The register written `s`: `r` and a decimal number up to 15.
pub open spec fn register_lookup(s: Seq<char>) -> Option<Register> {
    if s.len() >= 1 && s[0] == 'r' {
        match scan_spec(s.subrange(1, s.len() as int), 10, 15) {
            DigitScan::Value(v) => Some(reg_of(v as nat)),
            _ => None,
        }
    } else {
        None
    }
}

impl Register {
    /// The register written by the characters `w[start..end]`.
    pub fn parse_chars(w: &[char], start: usize, end: usize) -> (r: Option<Register>)
        requires
            start <= end <= w@.len(),
        ensures
            r == register_lookup(w@.subrange(start as int, end as int)),
    {
        if start < end && w[start] == 'r' {
            proof {
                assert(w@.subrange(start as int, end as int).subrange(1, end - start) =~= w@.subrange(start + 1, end as int));
            }
            match scan_digits(w, start + 1, end, 10, 15) {
                DigitScan::Value(v) => Some(Register::from_index(v as u8)),
                _ => None,
            }
        } else {
            None
        }
    }

    /// The register written `s`: `r` followed by a decimal number from 0 to
    /// 15.
    pub fn from_str(s: &str) -> (r: Result<Register, ()>)
        ensures
            match register_lookup(s@) {
                Some(reg) => r == Ok::<Register, ()>(reg),
                None => r == Err::<Register, ()>(()),
            },
    {
        let w = chars_of(s);
        proof {
            assert(w@.subrange(0, w@.len() as int) =~= s@);
        }
        match Register::parse_chars(w.as_slice(), 0, w.len()) {
            Some(reg) => Ok(reg),
            None => Err(()),
        }
    }

    /// The register's number.
    pub fn index(&self) -> (r: u8)
        ensures
            r as nat == reg_num(*self),
            r < 16,
    {
        match self {
            Register::R0 => 0,
            Register::R1 => 1,
            Register::R2 => 2,
            Register::R3 => 3,
            Register::R4 => 4,
            Register::R5 => 5,
            Register::R6 => 6,
            Register::R7 => 7,
            Register::R8 => 8,
            Register::R9 => 9,
            Register::R10 => 10,
            Register::R11 => 11,
            Register::R12 => 12,
            Register::R13 => 13,
            Register::R14 => 14,
            Register::R15 => 15,
        }
    }

    /// The register with the given number.
    pub fn from_index(n: u8) -> (r: Register)
        requires
            n < 16,
        ensures
            r == reg_of(n as nat),
            reg_num(r) == n as nat,
    {
        match n {
            0 => Register::R0,
            1 => Register::R1,
            2 => Register::R2,
            3 => Register::R3,
            4 => Register::R4,
            5 => Register::R5,
            6 => Register::R6,
            7 => Register::R7,
            8 => Register::R8,
            9 => Register::R9,
            10 => Register::R10,
            11 => Register::R11,
            12 => Register::R12,
            13 => Register::R13,
            14 => Register::R14,
            _ => Register::R15,
        }
    }
}

} // verus!
