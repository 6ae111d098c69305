//! The pattern table: for each mnemonic and operand shape, the bit template
//! and field map that encode it. The table is validated when built: every
//! template must be 32 bits with a known class tag, every field letter must
//! name an operand, and no two rows may expect the same shapes.
use vstd::prelude::*;
use crate::encoding::{field_lookup, letters_distinct, Encoding};
use crate::error::TableBuildError;
use crate::error::TableBuildErrorKind;
use crate::opcode::Opcode;
use crate::pattern::{PatternModel, TokenPattern};
use crate::template::{is_field_letter, is_template_char, run_total, runs_of, strip_spaces, template_spec, BitRunLengthCoding};
use crate::token::AmbiguousToken;

verus! {

/// A row of the table as written: expected shapes, template text, field map.
pub struct RowModel {
    pub expected: Seq<AmbiguousToken>,
    pub template: Seq<char>,
    pub fields: Seq<(char, usize)>,
}

/// A row of the table as written.
pub struct PatternRow {
    pub expected: Vec<AmbiguousToken>,
    pub template: &'static str,
    pub fields: Vec<(char, usize)>,
}

impl View for PatternRow {
    type V = RowModel;

    open spec fn view(&self) -> RowModel {
        RowModel { expected: self.expected@, template: self.template@, fields: self.fields@ }
    }
}

fn no_fields() -> (r: Vec<(char, usize)>)
    ensures
        r@ == Seq::<(char, usize)>::empty(),
{
    Vec::new()
}

fn one_field(c: char, i: usize) -> (r: Vec<(char, usize)>)
    ensures
        r@ == seq![(c, i)],
{
    let mut r = Vec::new();
    r.push((c, i));
    proof {
        assert(r@ =~= seq![(c, i)]);
    }
    r
}

/// The models of a sequence of rows.
pub open spec fn rows_model(v: Seq<PatternRow>) -> Seq<RowModel> {
    v.map_values(|r: PatternRow| r@)
}

/// The rows of `nop_patterns`.
pub open spec fn nop_patterns_spec() -> Seq<RowModel> {
    seq![
        RowModel { expected: seq![AmbiguousToken::Opcode(Opcode::Nop)], template: "0000 0000 0000 0000 0000 0000 0000 0000"@, fields: Seq::<(char, usize)>::empty() },
    ]
}

/// No operation.
pub fn nop_patterns() -> (r: Vec<PatternRow>)
    ensures
        rows_model(r@) == nop_patterns_spec(),
{
    let mut expected = Vec::new();
    expected.push(AmbiguousToken::Opcode(Opcode::Nop));
    let mut r = Vec::new();
    r.push(PatternRow { expected, template: "0000 0000 0000 0000 0000 0000 0000 0000", fields: no_fields() });
    proof {
        assert(rows_model(r@) =~~= nop_patterns_spec());
    }
    r
}

/// The rows of `add_patterns`.
pub open spec fn add_patterns_spec() -> Seq<RowModel> {
    seq![
        RowModel { expected: seq![AmbiguousToken::Opcode(Opcode::Add), AmbiguousToken::Register, AmbiguousToken::Register, AmbiguousToken::Register], template: "0001 AAAA BBBB CCCC 0000 0000 0000 0000"@, fields: seq![('A', 1usize), ('B', 2usize), ('C', 3usize)] },
        RowModel { expected: seq![AmbiguousToken::Opcode(Opcode::Add), AmbiguousToken::Register, AmbiguousToken::Register, AmbiguousToken::Unsigned], template: "0001 AAAA BBBB IIII IIII IIII IIII 0001"@, fields: seq![('A', 1usize), ('B', 2usize), ('I', 3usize)] },
        RowModel { expected: seq![AmbiguousToken::Opcode(Opcode::Add), AmbiguousToken::Register, AmbiguousToken::Unsigned, AmbiguousToken::Register], template: "0001 AAAA BBBB IIII IIII IIII IIII 0001"@, fields: seq![('A', 1usize), ('B', 3usize), ('I', 2usize)] },
    ]
}

/// Addition: registers, or a register and an immediate in either order.
pub fn add_patterns() -> (r: Vec<PatternRow>)
    ensures
        rows_model(r@) == add_patterns_spec(),
{
    let r = vec![
        PatternRow { expected: vec![AmbiguousToken::Opcode(Opcode::Add), AmbiguousToken::Register, AmbiguousToken::Register, AmbiguousToken::Register], template: "0001 AAAA BBBB CCCC 0000 0000 0000 0000", fields: vec![('A', 1usize), ('B', 2usize), ('C', 3usize)] },
        PatternRow { expected: vec![AmbiguousToken::Opcode(Opcode::Add), AmbiguousToken::Register, AmbiguousToken::Register, AmbiguousToken::Unsigned], template: "0001 AAAA BBBB IIII IIII IIII IIII 0001", fields: vec![('A', 1usize), ('B', 2usize), ('I', 3usize)] },
        PatternRow { expected: vec![AmbiguousToken::Opcode(Opcode::Add), AmbiguousToken::Register, AmbiguousToken::Unsigned, AmbiguousToken::Register], template: "0001 AAAA BBBB IIII IIII IIII IIII 0001", fields: vec![('A', 1usize), ('B', 3usize), ('I', 2usize)] },
    ];
    proof {
        assert(rows_model(r@) =~~= add_patterns_spec());
    }
    r
}

/// The rows of `sub_patterns`.
pub open spec fn sub_patterns_spec() -> Seq<RowModel> {
    seq![
        RowModel { expected: seq![AmbiguousToken::Opcode(Opcode::Subtract), AmbiguousToken::Register, AmbiguousToken::Register, AmbiguousToken::Register], template: "0001 AAAA BBBB CCCC 0000 0000 0000 0010"@, fields: seq![('A', 1usize), ('B', 2usize), ('C', 3usize)] },
        RowModel { expected: seq![AmbiguousToken::Opcode(Opcode::Subtract), AmbiguousToken::Register, AmbiguousToken::Register, AmbiguousToken::Unsigned], template: "0001 AAAA BBBB IIII IIII IIII IIII 0011"@, fields: seq![('A', 1usize), ('B', 2usize), ('I', 3usize)] },
        RowModel { expected: seq![AmbiguousToken::Opcode(Opcode::Subtract), AmbiguousToken::Register, AmbiguousToken::Unsigned, AmbiguousToken::Register], template: "0001 AAAA BBBB IIII IIII IIII IIII 0100"@, fields: seq![('A', 1usize), ('B', 3usize), ('I', 2usize)] },
    ]
}

/// Subtraction: registers, register minus immediate, immediate minus register.
pub fn sub_patterns() -> (r: Vec<PatternRow>)
    ensures
        rows_model(r@) == sub_patterns_spec(),
{
    let r = vec![
        PatternRow { expected: vec![AmbiguousToken::Opcode(Opcode::Subtract), AmbiguousToken::Register, AmbiguousToken::Register, AmbiguousToken::Register], template: "0001 AAAA BBBB CCCC 0000 0000 0000 0010", fields: vec![('A', 1usize), ('B', 2usize), ('C', 3usize)] },
        PatternRow { expected: vec![AmbiguousToken::Opcode(Opcode::Subtract), AmbiguousToken::Register, AmbiguousToken::Register, AmbiguousToken::Unsigned], template: "0001 AAAA BBBB IIII IIII IIII IIII 0011", fields: vec![('A', 1usize), ('B', 2usize), ('I', 3usize)] },
        PatternRow { expected: vec![AmbiguousToken::Opcode(Opcode::Subtract), AmbiguousToken::Register, AmbiguousToken::Unsigned, AmbiguousToken::Register], template: "0001 AAAA BBBB IIII IIII IIII IIII 0100", fields: vec![('A', 1usize), ('B', 3usize), ('I', 2usize)] },
    ];
    proof {
        assert(rows_model(r@) =~~= sub_patterns_spec());
    }
    r
}

/// The rows of `mul_patterns`.
pub open spec fn mul_patterns_spec() -> Seq<RowModel> {
    seq![
        RowModel { expected: seq![AmbiguousToken::Opcode(Opcode::Multiply), AmbiguousToken::Register, AmbiguousToken::Register, AmbiguousToken::Register], template: "0001 AAAA BBBB CCCC 0000 0000 0000 0101"@, fields: seq![('A', 1usize), ('B', 2usize), ('C', 3usize)] },
        RowModel { expected: seq![AmbiguousToken::Opcode(Opcode::Multiply), AmbiguousToken::Register, AmbiguousToken::Register, AmbiguousToken::Unsigned], template: "0001 AAAA BBBB IIII IIII IIII IIII 0110"@, fields: seq![('A', 1usize), ('B', 2usize), ('I', 3usize)] },
        RowModel { expected: seq![AmbiguousToken::Opcode(Opcode::Multiply), AmbiguousToken::Register, AmbiguousToken::Unsigned, AmbiguousToken::Register], template: "0001 AAAA BBBB IIII IIII IIII IIII 0110"@, fields: seq![('A', 1usize), ('B', 3usize), ('I', 2usize)] },
    ]
}

/// Multiplication: registers, or a register and an immediate in either order.
pub fn mul_patterns() -> (r: Vec<PatternRow>)
    ensures
        rows_model(r@) == mul_patterns_spec(),
{
    let r = vec![
        PatternRow { expected: vec![AmbiguousToken::Opcode(Opcode::Multiply), AmbiguousToken::Register, AmbiguousToken::Register, AmbiguousToken::Register], template: "0001 AAAA BBBB CCCC 0000 0000 0000 0101", fields: vec![('A', 1usize), ('B', 2usize), ('C', 3usize)] },
        PatternRow { expected: vec![AmbiguousToken::Opcode(Opcode::Multiply), AmbiguousToken::Register, AmbiguousToken::Register, AmbiguousToken::Unsigned], template: "0001 AAAA BBBB IIII IIII IIII IIII 0110", fields: vec![('A', 1usize), ('B', 2usize), ('I', 3usize)] },
        PatternRow { expected: vec![AmbiguousToken::Opcode(Opcode::Multiply), AmbiguousToken::Register, AmbiguousToken::Unsigned, AmbiguousToken::Register], template: "0001 AAAA BBBB IIII IIII IIII IIII 0110", fields: vec![('A', 1usize), ('B', 3usize), ('I', 2usize)] },
    ];
    proof {
        assert(rows_model(r@) =~~= mul_patterns_spec());
    }
    r
}

/// The rows of `div_patterns`.
pub open spec fn div_patterns_spec() -> Seq<RowModel> {
    seq![
        RowModel { expected: seq![AmbiguousToken::Opcode(Opcode::Divide), AmbiguousToken::Register, AmbiguousToken::Register, AmbiguousToken::Register], template: "0001 AAAA BBBB CCCC 0000 0000 0000 0111"@, fields: seq![('A', 1usize), ('B', 2usize), ('C', 3usize)] },
        RowModel { expected: seq![AmbiguousToken::Opcode(Opcode::Divide), AmbiguousToken::Register, AmbiguousToken::Register, AmbiguousToken::Unsigned], template: "0001 AAAA BBBB IIII IIII IIII IIII 1000"@, fields: seq![('A', 1usize), ('B', 2usize), ('I', 3usize)] },
        RowModel { expected: seq![AmbiguousToken::Opcode(Opcode::Divide), AmbiguousToken::Register, AmbiguousToken::Unsigned, AmbiguousToken::Register], template: "0001 AAAA BBBB IIII IIII IIII IIII 1001"@, fields: seq![('A', 1usize), ('B', 3usize), ('I', 2usize)] },
    ]
}

/// Unsigned division: registers, register by immediate, immediate by register.
pub fn div_patterns() -> (r: Vec<PatternRow>)
    ensures
        rows_model(r@) == div_patterns_spec(),
{
    let r = vec![
        PatternRow { expected: vec![AmbiguousToken::Opcode(Opcode::Divide), AmbiguousToken::Register, AmbiguousToken::Register, AmbiguousToken::Register], template: "0001 AAAA BBBB CCCC 0000 0000 0000 0111", fields: vec![('A', 1usize), ('B', 2usize), ('C', 3usize)] },
        PatternRow { expected: vec![AmbiguousToken::Opcode(Opcode::Divide), AmbiguousToken::Register, AmbiguousToken::Register, AmbiguousToken::Unsigned], template: "0001 AAAA BBBB IIII IIII IIII IIII 1000", fields: vec![('A', 1usize), ('B', 2usize), ('I', 3usize)] },
        PatternRow { expected: vec![AmbiguousToken::Opcode(Opcode::Divide), AmbiguousToken::Register, AmbiguousToken::Unsigned, AmbiguousToken::Register], template: "0001 AAAA BBBB IIII IIII IIII IIII 1001", fields: vec![('A', 1usize), ('B', 3usize), ('I', 2usize)] },
    ];
    proof {
        assert(rows_model(r@) =~~= div_patterns_spec());
    }
    r
}

/// The rows of `sdiv_patterns`.
pub open spec fn sdiv_patterns_spec() -> Seq<RowModel> {
    seq![
        RowModel { expected: seq![AmbiguousToken::Opcode(Opcode::DivideSigned), AmbiguousToken::Register, AmbiguousToken::Register, AmbiguousToken::Register], template: "0001 AAAA BBBB CCCC 0000 0000 0000 1010"@, fields: seq![('A', 1usize), ('B', 2usize), ('C', 3usize)] },
        RowModel { expected: seq![AmbiguousToken::Opcode(Opcode::DivideSigned), AmbiguousToken::Register, AmbiguousToken::Register, AmbiguousToken::Unsigned], template: "0001 AAAA BBBB IIII IIII IIII IIII 1011"@, fields: seq![('A', 1usize), ('B', 2usize), ('I', 3usize)] },
        RowModel { expected: seq![AmbiguousToken::Opcode(Opcode::DivideSigned), AmbiguousToken::Register, AmbiguousToken::Unsigned, AmbiguousToken::Register], template: "0001 AAAA BBBB IIII IIII IIII IIII 1100"@, fields: seq![('A', 1usize), ('B', 3usize), ('I', 2usize)] },
    ]
}

/// Signed division: registers, register by immediate, immediate by
/// register; the immediate is zero-extended.
pub fn sdiv_patterns() -> (r: Vec<PatternRow>)
    ensures
        rows_model(r@) == sdiv_patterns_spec(),
{
    let r = vec![
        PatternRow { expected: vec![AmbiguousToken::Opcode(Opcode::DivideSigned), AmbiguousToken::Register, AmbiguousToken::Register, AmbiguousToken::Register], template: "0001 AAAA BBBB CCCC 0000 0000 0000 1010", fields: vec![('A', 1usize), ('B', 2usize), ('C', 3usize)] },
        PatternRow { expected: vec![AmbiguousToken::Opcode(Opcode::DivideSigned), AmbiguousToken::Register, AmbiguousToken::Register, AmbiguousToken::Unsigned], template: "0001 AAAA BBBB IIII IIII IIII IIII 1011", fields: vec![('A', 1usize), ('B', 2usize), ('I', 3usize)] },
        PatternRow { expected: vec![AmbiguousToken::Opcode(Opcode::DivideSigned), AmbiguousToken::Register, AmbiguousToken::Unsigned, AmbiguousToken::Register], template: "0001 AAAA BBBB IIII IIII IIII IIII 1100", fields: vec![('A', 1usize), ('B', 3usize), ('I', 2usize)] },
    ];
    proof {
        assert(rows_model(r@) =~~= sdiv_patterns_spec());
    }
    r
}

/// The rows of `bitwise_patterns`.
pub open spec fn bitwise_patterns_spec() -> Seq<RowModel> {
    seq![
        RowModel { expected: seq![AmbiguousToken::Opcode(Opcode::And), AmbiguousToken::Register, AmbiguousToken::Register, AmbiguousToken::Register], template: "0010 AAAA BBBB CCCC 0000 0000 0000 0000"@, fields: seq![('A', 1usize), ('B', 2usize), ('C', 3usize)] },
        RowModel { expected: seq![AmbiguousToken::Opcode(Opcode::Or), AmbiguousToken::Register, AmbiguousToken::Register, AmbiguousToken::Register], template: "0010 AAAA BBBB CCCC 0000 0000 0000 0001"@, fields: seq![('A', 1usize), ('B', 2usize), ('C', 3usize)] },
        RowModel { expected: seq![AmbiguousToken::Opcode(Opcode::Xor), AmbiguousToken::Register, AmbiguousToken::Register, AmbiguousToken::Register], template: "0010 AAAA BBBB CCCC 0000 0000 0000 0010"@, fields: seq![('A', 1usize), ('B', 2usize), ('C', 3usize)] },
        RowModel { expected: seq![AmbiguousToken::Opcode(Opcode::Nand), AmbiguousToken::Register, AmbiguousToken::Register, AmbiguousToken::Register], template: "0010 AAAA BBBB CCCC 0000 0000 0000 0011"@, fields: seq![('A', 1usize), ('B', 2usize), ('C', 3usize)] },
        RowModel { expected: seq![AmbiguousToken::Opcode(Opcode::Nor), AmbiguousToken::Register, AmbiguousToken::Register, AmbiguousToken::Register], template: "0010 AAAA BBBB CCCC 0000 0000 0000 0100"@, fields: seq![('A', 1usize), ('B', 2usize), ('C', 3usize)] },
        RowModel { expected: seq![AmbiguousToken::Opcode(Opcode::Xnor), AmbiguousToken::Register, AmbiguousToken::Register, AmbiguousToken::Register], template: "0010 AAAA BBBB CCCC 0000 0000 0000 0101"@, fields: seq![('A', 1usize), ('B', 2usize), ('C', 3usize)] },
        RowModel { expected: seq![AmbiguousToken::Opcode(Opcode::Not), AmbiguousToken::Register, AmbiguousToken::Register], template: "0010 AAAA BBBB 0000 0000 0000 0000 0110"@, fields: seq![('A', 1usize), ('B', 2usize)] },
    ]
}

/// Bitwise operations on registers.
pub fn bitwise_patterns() -> (r: Vec<PatternRow>)
    ensures
        rows_model(r@) == bitwise_patterns_spec(),
{
    let r = vec![
        PatternRow { expected: vec![AmbiguousToken::Opcode(Opcode::And), AmbiguousToken::Register, AmbiguousToken::Register, AmbiguousToken::Register], template: "0010 AAAA BBBB CCCC 0000 0000 0000 0000", fields: vec![('A', 1usize), ('B', 2usize), ('C', 3usize)] },
        PatternRow { expected: vec![AmbiguousToken::Opcode(Opcode::Or), AmbiguousToken::Register, AmbiguousToken::Register, AmbiguousToken::Register], template: "0010 AAAA BBBB CCCC 0000 0000 0000 0001", fields: vec![('A', 1usize), ('B', 2usize), ('C', 3usize)] },
        PatternRow { expected: vec![AmbiguousToken::Opcode(Opcode::Xor), AmbiguousToken::Register, AmbiguousToken::Register, AmbiguousToken::Register], template: "0010 AAAA BBBB CCCC 0000 0000 0000 0010", fields: vec![('A', 1usize), ('B', 2usize), ('C', 3usize)] },
        PatternRow { expected: vec![AmbiguousToken::Opcode(Opcode::Nand), AmbiguousToken::Register, AmbiguousToken::Register, AmbiguousToken::Register], template: "0010 AAAA BBBB CCCC 0000 0000 0000 0011", fields: vec![('A', 1usize), ('B', 2usize), ('C', 3usize)] },
        PatternRow { expected: vec![AmbiguousToken::Opcode(Opcode::Nor), AmbiguousToken::Register, AmbiguousToken::Register, AmbiguousToken::Register], template: "0010 AAAA BBBB CCCC 0000 0000 0000 0100", fields: vec![('A', 1usize), ('B', 2usize), ('C', 3usize)] },
        PatternRow { expected: vec![AmbiguousToken::Opcode(Opcode::Xnor), AmbiguousToken::Register, AmbiguousToken::Register, AmbiguousToken::Register], template: "0010 AAAA BBBB CCCC 0000 0000 0000 0101", fields: vec![('A', 1usize), ('B', 2usize), ('C', 3usize)] },
        PatternRow { expected: vec![AmbiguousToken::Opcode(Opcode::Not), AmbiguousToken::Register, AmbiguousToken::Register], template: "0010 AAAA BBBB 0000 0000 0000 0000 0110", fields: vec![('A', 1usize), ('B', 2usize)] },
    ];
    proof {
        assert(rows_model(r@) =~~= bitwise_patterns_spec());
    }
    r
}

/// The rows of `shift_patterns`.
pub open spec fn shift_patterns_spec() -> Seq<RowModel> {
    seq![
        RowModel { expected: seq![AmbiguousToken::Opcode(Opcode::RightShift), AmbiguousToken::Register, AmbiguousToken::Register, AmbiguousToken::Register], template: "0011 AAAA BBBB CCCC 0000 0000 0000 0000"@, fields: seq![('A', 1usize), ('B', 2usize), ('C', 3usize)] },
        RowModel { expected: seq![AmbiguousToken::Opcode(Opcode::RightShift), AmbiguousToken::Register, AmbiguousToken::Register, AmbiguousToken::Unsigned], template: "0011 AAAA BBBB 0000 0000 00II IIII 0001"@, fields: seq![('A', 1usize), ('B', 2usize), ('I', 3usize)] },
        RowModel { expected: seq![AmbiguousToken::Opcode(Opcode::LeftShift), AmbiguousToken::Register, AmbiguousToken::Register, AmbiguousToken::Register], template: "0011 AAAA BBBB CCCC 0000 0000 0000 0010"@, fields: seq![('A', 1usize), ('B', 2usize), ('C', 3usize)] },
        RowModel { expected: seq![AmbiguousToken::Opcode(Opcode::LeftShift), AmbiguousToken::Register, AmbiguousToken::Register, AmbiguousToken::Unsigned], template: "0011 AAAA BBBB 0000 0000 00II IIII 0011"@, fields: seq![('A', 1usize), ('B', 2usize), ('I', 3usize)] },
        RowModel { expected: seq![AmbiguousToken::Opcode(Opcode::RightRoll), AmbiguousToken::Register, AmbiguousToken::Register, AmbiguousToken::Register], template: "0011 AAAA BBBB CCCC 0000 0000 0000 0100"@, fields: seq![('A', 1usize), ('B', 2usize), ('C', 3usize)] },
        RowModel { expected: seq![AmbiguousToken::Opcode(Opcode::RightRoll), AmbiguousToken::Register, AmbiguousToken::Register, AmbiguousToken::Unsigned], template: "0011 AAAA BBBB 0000 0000 00II IIII 0101"@, fields: seq![('A', 1usize), ('B', 2usize), ('I', 3usize)] },
        RowModel { expected: seq![AmbiguousToken::Opcode(Opcode::LeftRoll), AmbiguousToken::Register, AmbiguousToken::Register, AmbiguousToken::Register], template: "0011 AAAA BBBB CCCC 0000 0000 0000 0110"@, fields: seq![('A', 1usize), ('B', 2usize), ('C', 3usize)] },
        RowModel { expected: seq![AmbiguousToken::Opcode(Opcode::LeftRoll), AmbiguousToken::Register, AmbiguousToken::Register, AmbiguousToken::Unsigned], template: "0011 AAAA BBBB 0000 0000 00II IIII 0111"@, fields: seq![('A', 1usize), ('B', 2usize), ('I', 3usize)] },
    ]
}

/// Shifts and rotations by a register or a 6-bit immediate.
pub fn shift_patterns() -> (r: Vec<PatternRow>)
    ensures
        rows_model(r@) == shift_patterns_spec(),
{
    let r = vec![
        PatternRow { expected: vec![AmbiguousToken::Opcode(Opcode::RightShift), AmbiguousToken::Register, AmbiguousToken::Register, AmbiguousToken::Register], template: "0011 AAAA BBBB CCCC 0000 0000 0000 0000", fields: vec![('A', 1usize), ('B', 2usize), ('C', 3usize)] },
        PatternRow { expected: vec![AmbiguousToken::Opcode(Opcode::RightShift), AmbiguousToken::Register, AmbiguousToken::Register, AmbiguousToken::Unsigned], template: "0011 AAAA BBBB 0000 0000 00II IIII 0001", fields: vec![('A', 1usize), ('B', 2usize), ('I', 3usize)] },
        PatternRow { expected: vec![AmbiguousToken::Opcode(Opcode::LeftShift), AmbiguousToken::Register, AmbiguousToken::Register, AmbiguousToken::Register], template: "0011 AAAA BBBB CCCC 0000 0000 0000 0010", fields: vec![('A', 1usize), ('B', 2usize), ('C', 3usize)] },
        PatternRow { expected: vec![AmbiguousToken::Opcode(Opcode::LeftShift), AmbiguousToken::Register, AmbiguousToken::Register, AmbiguousToken::Unsigned], template: "0011 AAAA BBBB 0000 0000 00II IIII 0011", fields: vec![('A', 1usize), ('B', 2usize), ('I', 3usize)] },
        PatternRow { expected: vec![AmbiguousToken::Opcode(Opcode::RightRoll), AmbiguousToken::Register, AmbiguousToken::Register, AmbiguousToken::Register], template: "0011 AAAA BBBB CCCC 0000 0000 0000 0100", fields: vec![('A', 1usize), ('B', 2usize), ('C', 3usize)] },
        PatternRow { expected: vec![AmbiguousToken::Opcode(Opcode::RightRoll), AmbiguousToken::Register, AmbiguousToken::Register, AmbiguousToken::Unsigned], template: "0011 AAAA BBBB 0000 0000 00II IIII 0101", fields: vec![('A', 1usize), ('B', 2usize), ('I', 3usize)] },
        PatternRow { expected: vec![AmbiguousToken::Opcode(Opcode::LeftRoll), AmbiguousToken::Register, AmbiguousToken::Register, AmbiguousToken::Register], template: "0011 AAAA BBBB CCCC 0000 0000 0000 0110", fields: vec![('A', 1usize), ('B', 2usize), ('C', 3usize)] },
        PatternRow { expected: vec![AmbiguousToken::Opcode(Opcode::LeftRoll), AmbiguousToken::Register, AmbiguousToken::Register, AmbiguousToken::Unsigned], template: "0011 AAAA BBBB 0000 0000 00II IIII 0111", fields: vec![('A', 1usize), ('B', 2usize), ('I', 3usize)] },
    ];
    proof {
        assert(rows_model(r@) =~~= shift_patterns_spec());
    }
    r
}

/// The rows of `data_patterns`.
pub open spec fn data_patterns_spec() -> Seq<RowModel> {
    seq![
        RowModel { expected: seq![AmbiguousToken::Opcode(Opcode::Move), AmbiguousToken::Register, AmbiguousToken::Register], template: "0100 AAAA BBBB 0000 0000 0000 0000 0000"@, fields: seq![('A', 1usize), ('B', 2usize)] },
        RowModel { expected: seq![AmbiguousToken::Opcode(Opcode::LoadImmediate), AmbiguousToken::Register, AmbiguousToken::Unsigned, AmbiguousToken::Unsigned], template: "0100 AAAA IIII IIII IIII IIII 00CC 0001"@, fields: seq![('A', 1usize), ('C', 2usize), ('I', 3usize)] },
        RowModel { expected: seq![AmbiguousToken::Opcode(Opcode::LoadRegister), AmbiguousToken::Register, AmbiguousToken::Register, AmbiguousToken::Unsigned], template: "0100 AAAA BBBB 0000 0000 0000 0SSS 0010"@, fields: seq![('A', 1usize), ('B', 2usize), ('S', 3usize)] },
        RowModel { expected: seq![AmbiguousToken::Opcode(Opcode::LoadRegister), AmbiguousToken::Register, AmbiguousToken::Unsigned, AmbiguousToken::Unsigned], template: "0100 AAAA IIII IIII IIII IIII 0SSS 0011"@, fields: seq![('A', 1usize), ('I', 2usize), ('S', 3usize)] },
        RowModel { expected: seq![AmbiguousToken::Opcode(Opcode::StoreRegister), AmbiguousToken::Register, AmbiguousToken::Register, AmbiguousToken::Unsigned], template: "0100 AAAA BBBB 0000 0000 0000 0SSS 0100"@, fields: seq![('A', 1usize), ('B', 2usize), ('S', 3usize)] },
        RowModel { expected: seq![AmbiguousToken::Opcode(Opcode::StoreRegister), AmbiguousToken::Register, AmbiguousToken::Unsigned, AmbiguousToken::Unsigned], template: "0100 AAAA IIII IIII IIII IIII 0SSS 0101"@, fields: seq![('A', 1usize), ('I', 2usize), ('S', 3usize)] },
        RowModel { expected: seq![AmbiguousToken::Opcode(Opcode::Push), AmbiguousToken::Register], template: "0100 AAAA 0000 0000 0000 0000 0000 0110"@, fields: seq![('A', 1usize)] },
        RowModel { expected: seq![AmbiguousToken::Opcode(Opcode::Pop), AmbiguousToken::Register], template: "0100 AAAA 0000 0000 0000 0000 0000 0111"@, fields: seq![('A', 1usize)] },
    ]
}

/// Moves, chunk loads, byte loads and stores, and the reserved stack operations.
pub fn data_patterns() -> (r: Vec<PatternRow>)
    ensures
        rows_model(r@) == data_patterns_spec(),
{
    let r = vec![
        PatternRow { expected: vec![AmbiguousToken::Opcode(Opcode::Move), AmbiguousToken::Register, AmbiguousToken::Register], template: "0100 AAAA BBBB 0000 0000 0000 0000 0000", fields: vec![('A', 1usize), ('B', 2usize)] },
        PatternRow { expected: vec![AmbiguousToken::Opcode(Opcode::LoadImmediate), AmbiguousToken::Register, AmbiguousToken::Unsigned, AmbiguousToken::Unsigned], template: "0100 AAAA IIII IIII IIII IIII 00CC 0001", fields: vec![('A', 1usize), ('C', 2usize), ('I', 3usize)] },
        PatternRow { expected: vec![AmbiguousToken::Opcode(Opcode::LoadRegister), AmbiguousToken::Register, AmbiguousToken::Register, AmbiguousToken::Unsigned], template: "0100 AAAA BBBB 0000 0000 0000 0SSS 0010", fields: vec![('A', 1usize), ('B', 2usize), ('S', 3usize)] },
        PatternRow { expected: vec![AmbiguousToken::Opcode(Opcode::LoadRegister), AmbiguousToken::Register, AmbiguousToken::Unsigned, AmbiguousToken::Unsigned], template: "0100 AAAA IIII IIII IIII IIII 0SSS 0011", fields: vec![('A', 1usize), ('I', 2usize), ('S', 3usize)] },
        PatternRow { expected: vec![AmbiguousToken::Opcode(Opcode::StoreRegister), AmbiguousToken::Register, AmbiguousToken::Register, AmbiguousToken::Unsigned], template: "0100 AAAA BBBB 0000 0000 0000 0SSS 0100", fields: vec![('A', 1usize), ('B', 2usize), ('S', 3usize)] },
        PatternRow { expected: vec![AmbiguousToken::Opcode(Opcode::StoreRegister), AmbiguousToken::Register, AmbiguousToken::Unsigned, AmbiguousToken::Unsigned], template: "0100 AAAA IIII IIII IIII IIII 0SSS 0101", fields: vec![('A', 1usize), ('I', 2usize), ('S', 3usize)] },
        PatternRow { expected: vec![AmbiguousToken::Opcode(Opcode::Push), AmbiguousToken::Register], template: "0100 AAAA 0000 0000 0000 0000 0000 0110", fields: one_field('A', 1) },
        PatternRow { expected: vec![AmbiguousToken::Opcode(Opcode::Pop), AmbiguousToken::Register], template: "0100 AAAA 0000 0000 0000 0000 0000 0111", fields: one_field('A', 1) },
    ];
    proof {
        assert(rows_model(r@) =~~= data_patterns_spec());
    }
    r
}

/// The rows of `compare_patterns`.
pub open spec fn compare_patterns_spec() -> Seq<RowModel> {
    seq![
        RowModel { expected: seq![AmbiguousToken::Opcode(Opcode::Compare), AmbiguousToken::Register, AmbiguousToken::Register], template: "0101 AAAA BBBB 0000 0000 0000 0000 0000"@, fields: seq![('A', 1usize), ('B', 2usize)] },
        RowModel { expected: seq![AmbiguousToken::Opcode(Opcode::Compare), AmbiguousToken::Register, AmbiguousToken::Unsigned], template: "0101 AAAA IIII IIII IIII IIII 0000 0001"@, fields: seq![('A', 1usize), ('I', 2usize)] },
        RowModel { expected: seq![AmbiguousToken::Opcode(Opcode::Compare), AmbiguousToken::Unsigned, AmbiguousToken::Register], template: "0101 AAAA IIII IIII IIII IIII 0000 0010"@, fields: seq![('A', 2usize), ('I', 1usize)] },
        RowModel { expected: seq![AmbiguousToken::Opcode(Opcode::CompareFloat), AmbiguousToken::Register, AmbiguousToken::Register], template: "0101 AAAA BBBB 0000 0000 0000 0000 0110"@, fields: seq![('A', 1usize), ('B', 2usize)] },
        RowModel { expected: seq![AmbiguousToken::Opcode(Opcode::CompareDouble), AmbiguousToken::Register, AmbiguousToken::Register], template: "0101 AAAA BBBB 0000 0000 0000 0000 0111"@, fields: seq![('A', 1usize), ('B', 2usize)] },
    ]
}

/// Comparisons: unsigned with registers or unsigned immediates, and floating
/// point.
pub fn compare_patterns() -> (r: Vec<PatternRow>)
    ensures
        rows_model(r@) == compare_patterns_spec(),
{
    let r = vec![
        PatternRow { expected: vec![AmbiguousToken::Opcode(Opcode::Compare), AmbiguousToken::Register, AmbiguousToken::Register], template: "0101 AAAA BBBB 0000 0000 0000 0000 0000", fields: vec![('A', 1usize), ('B', 2usize)] },
        PatternRow { expected: vec![AmbiguousToken::Opcode(Opcode::Compare), AmbiguousToken::Register, AmbiguousToken::Unsigned], template: "0101 AAAA IIII IIII IIII IIII 0000 0001", fields: vec![('A', 1usize), ('I', 2usize)] },
        PatternRow { expected: vec![AmbiguousToken::Opcode(Opcode::Compare), AmbiguousToken::Unsigned, AmbiguousToken::Register], template: "0101 AAAA IIII IIII IIII IIII 0000 0010", fields: vec![('A', 2usize), ('I', 1usize)] },
        PatternRow { expected: vec![AmbiguousToken::Opcode(Opcode::CompareFloat), AmbiguousToken::Register, AmbiguousToken::Register], template: "0101 AAAA BBBB 0000 0000 0000 0000 0110", fields: vec![('A', 1usize), ('B', 2usize)] },
        PatternRow { expected: vec![AmbiguousToken::Opcode(Opcode::CompareDouble), AmbiguousToken::Register, AmbiguousToken::Register], template: "0101 AAAA BBBB 0000 0000 0000 0000 0111", fields: vec![('A', 1usize), ('B', 2usize)] },
    ];
    proof {
        assert(rows_model(r@) =~~= compare_patterns_spec());
    }
    r
}

/// The rows of `jump_patterns`.
pub open spec fn jump_patterns_spec() -> Seq<RowModel> {
    seq![
        RowModel { expected: seq![AmbiguousToken::Opcode(Opcode::Branch), AmbiguousToken::Register], template: "0110 AAAA 0000 0000 0000 0000 0000 0000"@, fields: seq![('A', 1usize)] },
        RowModel { expected: seq![AmbiguousToken::Opcode(Opcode::Branch), AmbiguousToken::Label], template: "0110 IIII IIII IIII IIII 0000 0000 0001"@, fields: seq![('I', 1usize)] },
        RowModel { expected: seq![AmbiguousToken::Opcode(Opcode::Branch), AmbiguousToken::Signed], template: "0110 IIII IIII IIII IIII 0000 0000 0001"@, fields: seq![('I', 1usize)] },
        RowModel { expected: seq![AmbiguousToken::Opcode(Opcode::Branch), AmbiguousToken::Unsigned], template: "0110 0III IIII IIII IIII 0000 0000 0001"@, fields: seq![('I', 1usize)] },
        RowModel { expected: seq![AmbiguousToken::Opcode(Opcode::BranchGreater), AmbiguousToken::Register], template: "0110 AAAA 0000 0000 0000 0000 0000 0010"@, fields: seq![('A', 1usize)] },
        RowModel { expected: seq![AmbiguousToken::Opcode(Opcode::BranchGreater), AmbiguousToken::Label], template: "0110 IIII IIII IIII IIII 0000 0000 0011"@, fields: seq![('I', 1usize)] },
        RowModel { expected: seq![AmbiguousToken::Opcode(Opcode::BranchGreater), AmbiguousToken::Signed], template: "0110 IIII IIII IIII IIII 0000 0000 0011"@, fields: seq![('I', 1usize)] },
        RowModel { expected: seq![AmbiguousToken::Opcode(Opcode::BranchGreater), AmbiguousToken::Unsigned], template: "0110 0III IIII IIII IIII 0000 0000 0011"@, fields: seq![('I', 1usize)] },
        RowModel { expected: seq![AmbiguousToken::Opcode(Opcode::BranchEqual), AmbiguousToken::Register], template: "0110 AAAA 0000 0000 0000 0000 0000 0100"@, fields: seq![('A', 1usize)] },
        RowModel { expected: seq![AmbiguousToken::Opcode(Opcode::BranchEqual), AmbiguousToken::Label], template: "0110 IIII IIII IIII IIII 0000 0000 0101"@, fields: seq![('I', 1usize)] },
        RowModel { expected: seq![AmbiguousToken::Opcode(Opcode::BranchEqual), AmbiguousToken::Signed], template: "0110 IIII IIII IIII IIII 0000 0000 0101"@, fields: seq![('I', 1usize)] },
        RowModel { expected: seq![AmbiguousToken::Opcode(Opcode::BranchEqual), AmbiguousToken::Unsigned], template: "0110 0III IIII IIII IIII 0000 0000 0101"@, fields: seq![('I', 1usize)] },
        RowModel { expected: seq![AmbiguousToken::Opcode(Opcode::BranchSmaller), AmbiguousToken::Register], template: "0110 AAAA 0000 0000 0000 0000 0000 0110"@, fields: seq![('A', 1usize)] },
        RowModel { expected: seq![AmbiguousToken::Opcode(Opcode::BranchSmaller), AmbiguousToken::Label], template: "0110 IIII IIII IIII IIII 0000 0000 0111"@, fields: seq![('I', 1usize)] },
        RowModel { expected: seq![AmbiguousToken::Opcode(Opcode::BranchSmaller), AmbiguousToken::Signed], template: "0110 IIII IIII IIII IIII 0000 0000 0111"@, fields: seq![('I', 1usize)] },
        RowModel { expected: seq![AmbiguousToken::Opcode(Opcode::BranchSmaller), AmbiguousToken::Unsigned], template: "0110 0III IIII IIII IIII 0000 0000 0111"@, fields: seq![('I', 1usize)] },
        RowModel { expected: seq![AmbiguousToken::Opcode(Opcode::BranchGreaterEqual), AmbiguousToken::Register], template: "0110 AAAA 0000 0000 0000 0000 0000 1000"@, fields: seq![('A', 1usize)] },
        RowModel { expected: seq![AmbiguousToken::Opcode(Opcode::BranchGreaterEqual), AmbiguousToken::Label], template: "0110 IIII IIII IIII IIII 0000 0000 1001"@, fields: seq![('I', 1usize)] },
        RowModel { expected: seq![AmbiguousToken::Opcode(Opcode::BranchGreaterEqual), AmbiguousToken::Signed], template: "0110 IIII IIII IIII IIII 0000 0000 1001"@, fields: seq![('I', 1usize)] },
        RowModel { expected: seq![AmbiguousToken::Opcode(Opcode::BranchGreaterEqual), AmbiguousToken::Unsigned], template: "0110 0III IIII IIII IIII 0000 0000 1001"@, fields: seq![('I', 1usize)] },
        RowModel { expected: seq![AmbiguousToken::Opcode(Opcode::BranchNotEqual), AmbiguousToken::Register], template: "0110 AAAA 0000 0000 0000 0000 0000 1010"@, fields: seq![('A', 1usize)] },
        RowModel { expected: seq![AmbiguousToken::Opcode(Opcode::BranchNotEqual), AmbiguousToken::Label], template: "0110 IIII IIII IIII IIII 0000 0000 1011"@, fields: seq![('I', 1usize)] },
        RowModel { expected: seq![AmbiguousToken::Opcode(Opcode::BranchNotEqual), AmbiguousToken::Signed], template: "0110 IIII IIII IIII IIII 0000 0000 1011"@, fields: seq![('I', 1usize)] },
        RowModel { expected: seq![AmbiguousToken::Opcode(Opcode::BranchNotEqual), AmbiguousToken::Unsigned], template: "0110 0III IIII IIII IIII 0000 0000 1011"@, fields: seq![('I', 1usize)] },
        RowModel { expected: seq![AmbiguousToken::Opcode(Opcode::BranchSmallerEqual), AmbiguousToken::Register], template: "0110 AAAA 0000 0000 0000 0000 0000 1100"@, fields: seq![('A', 1usize)] },
        RowModel { expected: seq![AmbiguousToken::Opcode(Opcode::BranchSmallerEqual), AmbiguousToken::Label], template: "0110 IIII IIII IIII IIII 0000 0000 1101"@, fields: seq![('I', 1usize)] },
        RowModel { expected: seq![AmbiguousToken::Opcode(Opcode::BranchSmallerEqual), AmbiguousToken::Signed], template: "0110 IIII IIII IIII IIII 0000 0000 1101"@, fields: seq![('I', 1usize)] },
        RowModel { expected: seq![AmbiguousToken::Opcode(Opcode::BranchSmallerEqual), AmbiguousToken::Unsigned], template: "0110 0III IIII IIII IIII 0000 0000 1101"@, fields: seq![('I', 1usize)] },
    ]
}

/// Branches by a register, a label, or an immediate offset: a negative
/// literal as 16-bit two's complement, a non-negative one up to 32767.
pub fn jump_patterns() -> (r: Vec<PatternRow>)
    ensures
        rows_model(r@) == jump_patterns_spec(),
{
    let r = vec![
        PatternRow { expected: vec![AmbiguousToken::Opcode(Opcode::Branch), AmbiguousToken::Register], template: "0110 AAAA 0000 0000 0000 0000 0000 0000", fields: one_field('A', 1) },
        PatternRow { expected: vec![AmbiguousToken::Opcode(Opcode::Branch), AmbiguousToken::Label], template: "0110 IIII IIII IIII IIII 0000 0000 0001", fields: one_field('I', 1) },
        PatternRow { expected: vec![AmbiguousToken::Opcode(Opcode::Branch), AmbiguousToken::Signed], template: "0110 IIII IIII IIII IIII 0000 0000 0001", fields: one_field('I', 1) },
        PatternRow { expected: vec![AmbiguousToken::Opcode(Opcode::Branch), AmbiguousToken::Unsigned], template: "0110 0III IIII IIII IIII 0000 0000 0001", fields: one_field('I', 1) },
        PatternRow { expected: vec![AmbiguousToken::Opcode(Opcode::BranchGreater), AmbiguousToken::Register], template: "0110 AAAA 0000 0000 0000 0000 0000 0010", fields: one_field('A', 1) },
        PatternRow { expected: vec![AmbiguousToken::Opcode(Opcode::BranchGreater), AmbiguousToken::Label], template: "0110 IIII IIII IIII IIII 0000 0000 0011", fields: one_field('I', 1) },
        PatternRow { expected: vec![AmbiguousToken::Opcode(Opcode::BranchGreater), AmbiguousToken::Signed], template: "0110 IIII IIII IIII IIII 0000 0000 0011", fields: one_field('I', 1) },
        PatternRow { expected: vec![AmbiguousToken::Opcode(Opcode::BranchGreater), AmbiguousToken::Unsigned], template: "0110 0III IIII IIII IIII 0000 0000 0011", fields: one_field('I', 1) },
        PatternRow { expected: vec![AmbiguousToken::Opcode(Opcode::BranchEqual), AmbiguousToken::Register], template: "0110 AAAA 0000 0000 0000 0000 0000 0100", fields: one_field('A', 1) },
        PatternRow { expected: vec![AmbiguousToken::Opcode(Opcode::BranchEqual), AmbiguousToken::Label], template: "0110 IIII IIII IIII IIII 0000 0000 0101", fields: one_field('I', 1) },
        PatternRow { expected: vec![AmbiguousToken::Opcode(Opcode::BranchEqual), AmbiguousToken::Signed], template: "0110 IIII IIII IIII IIII 0000 0000 0101", fields: one_field('I', 1) },
        PatternRow { expected: vec![AmbiguousToken::Opcode(Opcode::BranchEqual), AmbiguousToken::Unsigned], template: "0110 0III IIII IIII IIII 0000 0000 0101", fields: one_field('I', 1) },
        PatternRow { expected: vec![AmbiguousToken::Opcode(Opcode::BranchSmaller), AmbiguousToken::Register], template: "0110 AAAA 0000 0000 0000 0000 0000 0110", fields: one_field('A', 1) },
        PatternRow { expected: vec![AmbiguousToken::Opcode(Opcode::BranchSmaller), AmbiguousToken::Label], template: "0110 IIII IIII IIII IIII 0000 0000 0111", fields: one_field('I', 1) },
        PatternRow { expected: vec![AmbiguousToken::Opcode(Opcode::BranchSmaller), AmbiguousToken::Signed], template: "0110 IIII IIII IIII IIII 0000 0000 0111", fields: one_field('I', 1) },
        PatternRow { expected: vec![AmbiguousToken::Opcode(Opcode::BranchSmaller), AmbiguousToken::Unsigned], template: "0110 0III IIII IIII IIII 0000 0000 0111", fields: one_field('I', 1) },
        PatternRow { expected: vec![AmbiguousToken::Opcode(Opcode::BranchGreaterEqual), AmbiguousToken::Register], template: "0110 AAAA 0000 0000 0000 0000 0000 1000", fields: one_field('A', 1) },
        PatternRow { expected: vec![AmbiguousToken::Opcode(Opcode::BranchGreaterEqual), AmbiguousToken::Label], template: "0110 IIII IIII IIII IIII 0000 0000 1001", fields: one_field('I', 1) },
        PatternRow { expected: vec![AmbiguousToken::Opcode(Opcode::BranchGreaterEqual), AmbiguousToken::Signed], template: "0110 IIII IIII IIII IIII 0000 0000 1001", fields: one_field('I', 1) },
        PatternRow { expected: vec![AmbiguousToken::Opcode(Opcode::BranchGreaterEqual), AmbiguousToken::Unsigned], template: "0110 0III IIII IIII IIII 0000 0000 1001", fields: one_field('I', 1) },
        PatternRow { expected: vec![AmbiguousToken::Opcode(Opcode::BranchNotEqual), AmbiguousToken::Register], template: "0110 AAAA 0000 0000 0000 0000 0000 1010", fields: one_field('A', 1) },
        PatternRow { expected: vec![AmbiguousToken::Opcode(Opcode::BranchNotEqual), AmbiguousToken::Label], template: "0110 IIII IIII IIII IIII 0000 0000 1011", fields: one_field('I', 1) },
        PatternRow { expected: vec![AmbiguousToken::Opcode(Opcode::BranchNotEqual), AmbiguousToken::Signed], template: "0110 IIII IIII IIII IIII 0000 0000 1011", fields: one_field('I', 1) },
        PatternRow { expected: vec![AmbiguousToken::Opcode(Opcode::BranchNotEqual), AmbiguousToken::Unsigned], template: "0110 0III IIII IIII IIII 0000 0000 1011", fields: one_field('I', 1) },
        PatternRow { expected: vec![AmbiguousToken::Opcode(Opcode::BranchSmallerEqual), AmbiguousToken::Register], template: "0110 AAAA 0000 0000 0000 0000 0000 1100", fields: one_field('A', 1) },
        PatternRow { expected: vec![AmbiguousToken::Opcode(Opcode::BranchSmallerEqual), AmbiguousToken::Label], template: "0110 IIII IIII IIII IIII 0000 0000 1101", fields: one_field('I', 1) },
        PatternRow { expected: vec![AmbiguousToken::Opcode(Opcode::BranchSmallerEqual), AmbiguousToken::Signed], template: "0110 IIII IIII IIII IIII 0000 0000 1101", fields: one_field('I', 1) },
        PatternRow { expected: vec![AmbiguousToken::Opcode(Opcode::BranchSmallerEqual), AmbiguousToken::Unsigned], template: "0110 0III IIII IIII IIII 0000 0000 1101", fields: one_field('I', 1) },
    ];
    proof {
        assert(rows_model(r@) =~~= jump_patterns_spec());
    }
    r
}

/// The rows of `convert_patterns`.
pub open spec fn convert_patterns_spec() -> Seq<RowModel> {
    seq![
        RowModel { expected: seq![AmbiguousToken::Opcode(Opcode::ImmediateToFloat), AmbiguousToken::Register, AmbiguousToken::Signed], template: "0111 AAAA IIII IIII IIII IIII 0000 0000"@, fields: seq![('A', 1usize), ('I', 2usize)] },
        RowModel { expected: seq![AmbiguousToken::Opcode(Opcode::ImmediateToFloat), AmbiguousToken::Register, AmbiguousToken::Unsigned], template: "0111 AAAA 0III IIII IIII IIII 0000 0000"@, fields: seq![('A', 1usize), ('I', 2usize)] },
        RowModel { expected: seq![AmbiguousToken::Opcode(Opcode::ImmediateToDouble), AmbiguousToken::Register, AmbiguousToken::Signed], template: "0111 AAAA IIII IIII IIII IIII 0000 0001"@, fields: seq![('A', 1usize), ('I', 2usize)] },
        RowModel { expected: seq![AmbiguousToken::Opcode(Opcode::ImmediateToDouble), AmbiguousToken::Register, AmbiguousToken::Unsigned], template: "0111 AAAA 0III IIII IIII IIII 0000 0001"@, fields: seq![('A', 1usize), ('I', 2usize)] },
        RowModel { expected: seq![AmbiguousToken::Opcode(Opcode::IntegerToFloat), AmbiguousToken::Register, AmbiguousToken::Register], template: "0111 AAAA BBBB 0000 0000 0000 0000 0010"@, fields: seq![('A', 1usize), ('B', 2usize)] },
        RowModel { expected: seq![AmbiguousToken::Opcode(Opcode::IntegerToDouble), AmbiguousToken::Register, AmbiguousToken::Register], template: "0111 AAAA BBBB 0000 0000 0000 0000 0011"@, fields: seq![('A', 1usize), ('B', 2usize)] },
        RowModel { expected: seq![AmbiguousToken::Opcode(Opcode::FloatToInteger), AmbiguousToken::Register, AmbiguousToken::Register], template: "0111 AAAA BBBB 0000 0000 0000 0000 0100"@, fields: seq![('A', 1usize), ('B', 2usize)] },
        RowModel { expected: seq![AmbiguousToken::Opcode(Opcode::FloatToDouble), AmbiguousToken::Register, AmbiguousToken::Register], template: "0111 AAAA BBBB 0000 0000 0000 0000 0101"@, fields: seq![('A', 1usize), ('B', 2usize)] },
        RowModel { expected: seq![AmbiguousToken::Opcode(Opcode::DoubleToInteger), AmbiguousToken::Register, AmbiguousToken::Register], template: "0111 AAAA BBBB 0000 0000 0000 0000 0110"@, fields: seq![('A', 1usize), ('B', 2usize)] },
        RowModel { expected: seq![AmbiguousToken::Opcode(Opcode::DoubleToFloat), AmbiguousToken::Register, AmbiguousToken::Register], template: "0111 AAAA BBBB 0000 0000 0000 0000 0111"@, fields: seq![('A', 1usize), ('B', 2usize)] },
    ]
}

/// Conversions between integers, immediates, f32 and f64. A negative
/// immediate is written as 16-bit two's complement, a non-negative one up to
/// 32767.
pub fn convert_patterns() -> (r: Vec<PatternRow>)
    ensures
        rows_model(r@) == convert_patterns_spec(),
{
    let r = vec![
        PatternRow { expected: vec![AmbiguousToken::Opcode(Opcode::ImmediateToFloat), AmbiguousToken::Register, AmbiguousToken::Signed], template: "0111 AAAA IIII IIII IIII IIII 0000 0000", fields: vec![('A', 1usize), ('I', 2usize)] },
        PatternRow { expected: vec![AmbiguousToken::Opcode(Opcode::ImmediateToFloat), AmbiguousToken::Register, AmbiguousToken::Unsigned], template: "0111 AAAA 0III IIII IIII IIII 0000 0000", fields: vec![('A', 1usize), ('I', 2usize)] },
        PatternRow { expected: vec![AmbiguousToken::Opcode(Opcode::ImmediateToDouble), AmbiguousToken::Register, AmbiguousToken::Signed], template: "0111 AAAA IIII IIII IIII IIII 0000 0001", fields: vec![('A', 1usize), ('I', 2usize)] },
        PatternRow { expected: vec![AmbiguousToken::Opcode(Opcode::ImmediateToDouble), AmbiguousToken::Register, AmbiguousToken::Unsigned], template: "0111 AAAA 0III IIII IIII IIII 0000 0001", fields: vec![('A', 1usize), ('I', 2usize)] },
        PatternRow { expected: vec![AmbiguousToken::Opcode(Opcode::IntegerToFloat), AmbiguousToken::Register, AmbiguousToken::Register], template: "0111 AAAA BBBB 0000 0000 0000 0000 0010", fields: vec![('A', 1usize), ('B', 2usize)] },
        PatternRow { expected: vec![AmbiguousToken::Opcode(Opcode::IntegerToDouble), AmbiguousToken::Register, AmbiguousToken::Register], template: "0111 AAAA BBBB 0000 0000 0000 0000 0011", fields: vec![('A', 1usize), ('B', 2usize)] },
        PatternRow { expected: vec![AmbiguousToken::Opcode(Opcode::FloatToInteger), AmbiguousToken::Register, AmbiguousToken::Register], template: "0111 AAAA BBBB 0000 0000 0000 0000 0100", fields: vec![('A', 1usize), ('B', 2usize)] },
        PatternRow { expected: vec![AmbiguousToken::Opcode(Opcode::FloatToDouble), AmbiguousToken::Register, AmbiguousToken::Register], template: "0111 AAAA BBBB 0000 0000 0000 0000 0101", fields: vec![('A', 1usize), ('B', 2usize)] },
        PatternRow { expected: vec![AmbiguousToken::Opcode(Opcode::DoubleToInteger), AmbiguousToken::Register, AmbiguousToken::Register], template: "0111 AAAA BBBB 0000 0000 0000 0000 0110", fields: vec![('A', 1usize), ('B', 2usize)] },
        PatternRow { expected: vec![AmbiguousToken::Opcode(Opcode::DoubleToFloat), AmbiguousToken::Register, AmbiguousToken::Register], template: "0111 AAAA BBBB 0000 0000 0000 0000 0111", fields: vec![('A', 1usize), ('B', 2usize)] },
    ];
    proof {
        assert(rows_model(r@) =~~= convert_patterns_spec());
    }
    r
}

/// All rows, in table order.
pub open spec fn table_rows() -> Seq<RowModel> {
    nop_patterns_spec()
        + add_patterns_spec()
        + sub_patterns_spec()
        + mul_patterns_spec()
        + div_patterns_spec()
        + sdiv_patterns_spec()
        + bitwise_patterns_spec()
        + shift_patterns_spec()
        + data_patterns_spec()
        + compare_patterns_spec()
        + jump_patterns_spec()
        + convert_patterns_spec()
}

/// All rows, in table order.
pub fn pattern_rows() -> (r: Vec<PatternRow>)
    ensures
        rows_model(r@) == table_rows(),
{
    let mut r: Vec<PatternRow> = Vec::new();
    let mut part = nop_patterns();
    proof {
        assert(rows_model(r@ + part@) =~= rows_model(r@) + rows_model(part@));
    }
    r.append(&mut part);
    let mut part = add_patterns();
    proof {
        assert(rows_model(r@ + part@) =~= rows_model(r@) + rows_model(part@));
    }
    r.append(&mut part);
    let mut part = sub_patterns();
    proof {
        assert(rows_model(r@ + part@) =~= rows_model(r@) + rows_model(part@));
    }
    r.append(&mut part);
    let mut part = mul_patterns();
    proof {
        assert(rows_model(r@ + part@) =~= rows_model(r@) + rows_model(part@));
    }
    r.append(&mut part);
    let mut part = div_patterns();
    proof {
        assert(rows_model(r@ + part@) =~= rows_model(r@) + rows_model(part@));
    }
    r.append(&mut part);
    let mut part = sdiv_patterns();
    proof {
        assert(rows_model(r@ + part@) =~= rows_model(r@) + rows_model(part@));
    }
    r.append(&mut part);
    let mut part = bitwise_patterns();
    proof {
        assert(rows_model(r@ + part@) =~= rows_model(r@) + rows_model(part@));
    }
    r.append(&mut part);
    let mut part = shift_patterns();
    proof {
        assert(rows_model(r@ + part@) =~= rows_model(r@) + rows_model(part@));
    }
    r.append(&mut part);
    let mut part = data_patterns();
    proof {
        assert(rows_model(r@ + part@) =~= rows_model(r@) + rows_model(part@));
    }
    r.append(&mut part);
    let mut part = compare_patterns();
    proof {
        assert(rows_model(r@ + part@) =~= rows_model(r@) + rows_model(part@));
    }
    r.append(&mut part);
    let mut part = jump_patterns();
    proof {
        assert(rows_model(r@ + part@) =~= rows_model(r@) + rows_model(part@));
    }
    r.append(&mut part);
    let mut part = convert_patterns();
    proof {
        assert(rows_model(r@ + part@) =~= rows_model(r@) + rows_model(part@));
    }
    r.append(&mut part);
    proof {
        assert(rows_model(r@) =~= table_rows());
    }
    r
}

/// Every field letter of the runs names an operand position of `expected`
/// that is no opcode, and a line has at least one token.
pub open spec fn fields_fit(expected: Seq<AmbiguousToken>, runs: Seq<(char, usize)>, fields: Seq<(char, usize)>) -> bool {
    &&& expected.len() >= 1
    &&& forall|i: int| 0 <= i < runs.len() && is_field_letter(#[trigger] runs[i].0) ==> {
        &&& field_lookup(fields, runs[i].0) matches Some(k)
        &&& k < expected.len()
        &&& !(expected[k as int] is Opcode)
    }
}

/// The number the literal runs `runs[k..]` write onto `acc` until at least
/// four bits are known; then the top four of them. `None` where a field
/// letter comes first.
pub open spec fn leading_class_from(runs: Seq<(char, usize)>, k: nat, acc: nat, total: nat) -> Option<nat>
    decreases runs.len() - k,
{
    if total >= 4 {
        Some(acc / crate::bitpush::two_to((total - 4) as nat))
    } else if k >= runs.len() {
        None
    } else if runs[k as int].0 == '0' {
        leading_class_from(runs, k + 1, acc * crate::bitpush::two_to(runs[k as int].1 as nat), total + runs[k as int].1 as nat)
    } else if runs[k as int].0 == '1' {
        leading_class_from(
            runs,
            k + 1,
            (acc * crate::bitpush::two_to(runs[k as int].1 as nat) + (crate::bitpush::two_to(runs[k as int].1 as nat) - 1)) as nat,
            total + runs[k as int].1 as nat,
        )
    } else {
        None
    }
}

/// The class tag that a template's leading literal bits write.
pub open spec fn leading_class(runs: Seq<(char, usize)>) -> Option<nat> {
    leading_class_from(runs, 0, 0, 0)
}

/// Building one row: its template read, its field map checked.
pub open spec fn build_row_spec(row: RowModel) -> Result<PatternModel, TableBuildErrorKind> {
    match template_spec(row.template) {
        Err(_) => Err(TableBuildErrorKind::MalformedTemplate),
        Ok(runs) => if !letters_distinct(row.fields) {
            Err(TableBuildErrorKind::DuplicateFieldLetter)
        } else if !fields_fit(row.expected, runs, row.fields) {
            Err(TableBuildErrorKind::UnmappedField)
        } else if !(leading_class(runs) matches Some(c) && c <= 9) {
            Err(TableBuildErrorKind::UnknownClass)
        } else {
            Ok(PatternModel { expected: row.expected, runs, fields: row.fields })
        },
    }
}

/// Building the rows in order, up to the first that fails.
pub open spec fn build_rows_spec(rows: Seq<RowModel>) -> Result<Seq<PatternModel>, TableBuildError>
    decreases rows.len(),
{
    if rows.len() == 0 {
        Ok(Seq::empty())
    } else {
        match build_rows_spec(rows.drop_last()) {
            Err(e) => Err(e),
            Ok(ps) => match build_row_spec(rows.last()) {
                Err(k) => Err(TableBuildError { row: (rows.len() - 1) as usize, kind: k }),
                Ok(p) => Ok(ps.push(p)),
            },
        }
    }
}

/// The first row before `j`, from `i` on, that expects what row `j` does.
pub open spec fn earlier_equal(ps: Seq<PatternModel>, j: int, i: int) -> Option<int>
    decreases j - i,
{
    if i >= j {
        None
    } else if ps[i].expected == ps[j].expected {
        Some(i)
    } else {
        earlier_equal(ps, j, i + 1)
    }
}

/// The first pair of rows, by the later row, that expect the same shapes.
pub open spec fn ambiguity_from(ps: Seq<PatternModel>, j: int) -> Option<(int, int)>
    decreases ps.len() - j,
{
    if j >= ps.len() {
        None
    } else {
        match earlier_equal(ps, j, 0) {
            Some(i) => Some((i, j)),
            None => ambiguity_from(ps, j + 1),
        }
    }
}

/// The pattern table, or why it cannot be built.
pub open spec fn table_spec() -> Result<Seq<PatternModel>, TableBuildError> {
    match build_rows_spec(table_rows()) {
        Err(e) => Err(e),
        Ok(ps) => match ambiguity_from(ps, 0) {
            Some((i, j)) => Err(TableBuildError { row: j as usize, kind: TableBuildErrorKind::Ambiguous { other: i as usize } }),
            None => Ok(ps),
        },
    }
}

/// A built row is usable: its template is 32 bits of `0`, `1` and letters,
/// with a known class tag, and its letters name operands.
pub open spec fn pattern_wf(p: PatternModel) -> bool {
    &&& run_total(p.runs) == 32
    &&& forall|i: int| 0 <= i < p.runs.len() ==> is_template_char(#[trigger] p.runs[i].0)
    &&& fields_fit(p.expected, p.runs, p.fields)
    &&& letters_distinct(p.fields)
    &&& leading_class(p.runs) matches Some(c) && c <= 9
}

/// The models of a sequence of patterns.
pub open spec fn patterns_model(v: Seq<TokenPattern>) -> Seq<PatternModel> {
    v.map_values(|p: TokenPattern| p@)
}

proof fn lemma_build_row_wf(row: RowModel)
    requires
        build_row_spec(row) is Ok,
    ensures
        pattern_wf(build_row_spec(row)->Ok_0),
{
    let t = strip_spaces(row.template);
    assert forall|i: int| 0 <= i < t.len() implies is_template_char(#[trigger] t[i]) by {
        lemma_template_chars(t, 0, i);
    }
    crate::template::lemma_runs_of(t);
    let r = runs_of(t);
    assert(t.len() == 32);
    assert forall|i: int| 0 <= i < r.len() implies is_template_char(#[trigger] r[i].0) by {
        assert(r[i].1 >= 1);
    }
}

proof fn lemma_template_chars(t: Seq<char>, k: nat, i: int)
    requires
        crate::template::template_chars_from(t, k) is None,
        k <= i < t.len(),
    ensures
        is_template_char(t[i]),
    decreases i - k,
{
    if k < i {
        lemma_template_chars(t, k + 1, i);
    }
}

proof fn lemma_build_rows_wf(rows: Seq<RowModel>)
    requires
        build_rows_spec(rows) is Ok,
    ensures
        build_rows_spec(rows)->Ok_0.len() == rows.len(),
        forall|i: int| 0 <= i < rows.len() ==> pattern_wf(#[trigger] build_rows_spec(rows)->Ok_0[i]),
    decreases rows.len(),
{
    if rows.len() > 0 {
        lemma_build_rows_wf(rows.drop_last());
        lemma_build_row_wf(rows.last());
        let ps = build_rows_spec(rows.drop_last())->Ok_0;
        assert forall|i: int| 0 <= i < rows.len() implies pattern_wf(#[trigger] build_rows_spec(rows)->Ok_0[i]) by {
            if i < rows.len() - 1 {
                assert(build_rows_spec(rows)->Ok_0[i] == ps[i]);
            }
        }
    }
}

proof fn lemma_no_earlier_equal(ps: Seq<PatternModel>, j: int, i: int, k: int)
    requires
        0 <= i <= k < j < ps.len(),
        earlier_equal(ps, j, i) is None,
    ensures
        ps[k].expected != ps[j].expected,
    decreases k - i,
{
    if i < k {
        lemma_no_earlier_equal(ps, j, i + 1, k);
    }
}

proof fn lemma_no_ambiguity(ps: Seq<PatternModel>, j0: int, i: int, j: int)
    requires
        0 <= j0 <= j,
        0 <= i < j < ps.len(),
        ambiguity_from(ps, j0) is None,
    ensures
        ps[i].expected != ps[j].expected,
    decreases j - j0,
{
    if j0 < j {
        lemma_no_ambiguity(ps, j0 + 1, i, j);
    } else {
        lemma_no_earlier_equal(ps, j, 0, i);
    }
}

/// Every pattern of the table is usable; in particular the run lengths of
/// its template add up to 32.
pub proof fn lemma_table_patterns_wf()
    requires
        table_spec() is Ok,
    ensures
        forall|i: int| 0 <= i < table_spec()->Ok_0.len() ==> pattern_wf(#[trigger] table_spec()->Ok_0[i]),
        forall|i: int| 0 <= i < table_spec()->Ok_0.len() ==> run_total(#[trigger] table_spec()->Ok_0[i].runs) == 32,
{
    lemma_build_rows_wf(table_rows());
}

/// No two patterns of the table expect the same token shapes.
pub proof fn lemma_table_unambiguous()
    requires
        table_spec() is Ok,
    ensures
        forall|i: int, j: int| 0 <= i < table_spec()->Ok_0.len() && 0 <= j < table_spec()->Ok_0.len() && i != j
            ==> (#[trigger] table_spec()->Ok_0[i]).expected != (#[trigger] table_spec()->Ok_0[j]).expected,
{
    let ps = table_spec()->Ok_0;
    assert forall|i: int, j: int| 0 <= i < ps.len() && 0 <= j < ps.len() && i != j implies (#[trigger] ps[i]).expected != (#[trigger] ps[j]).expected by {
        if i < j {
            lemma_no_ambiguity(ps, 0, i, j);
        } else {
            lemma_no_ambiguity(ps, 0, j, i);
        }
    }
}

proof fn lemma_run_le_total(r: Seq<(char, usize)>, i: int)
    requires
        0 <= i < r.len(),
    ensures
        r[i].1 <= run_total(r),
    decreases r.len(),
{
    if i < r.len() - 1 {
        lemma_run_le_total(r.drop_last(), i);
        assert(r.drop_last()[i] == r[i]);
    }
}

fn fields_fit_exec(expected: &Vec<AmbiguousToken>, runs: &Vec<(char, usize)>, encoding: &Encoding) -> (r: bool)
    ensures
        r == fields_fit(expected@, runs@, encoding@),
{
    if expected.len() == 0 {
        return false;
    }
    let mut i: usize = 0;
    while i < runs.len()
        invariant
            i <= runs@.len(),
            expected@.len() >= 1,
            forall|j: int| 0 <= j < i && is_field_letter(#[trigger] runs@[j].0) ==> {
                &&& field_lookup(encoding@, runs@[j].0) matches Some(k)
                &&& k < expected@.len()
                &&& !(expected@[k as int] is Opcode)
            },
        decreases runs@.len() - i,
    {
        let c = runs[i].0;
        let u = c as u32;
        if 65 <= u && u <= 90 {
            match encoding.get(c) {
                None => {
                    return false;
                },
                Some(k) => {
                    if k >= expected.len() {
                        return false;
                    }
                    if matches!(expected[k], AmbiguousToken::Opcode(_)) {
                        return false;
                    }
                },
            }
        }
        i = i + 1;
    }
    true
}

fn leading_class_exec(runs: &Vec<(char, usize)>) -> (r: Option<u64>)
    requires
        run_total(runs@) == 32,
    ensures
        leading_class(runs@) matches Some(c) ==> (r matches Some(x) && x as nat == c),
        leading_class(runs@) is None ==> r is None,
{
    let mut k: usize = 0;
    let mut acc: u64 = 0;
    let mut total: usize = 0;
    proof {
        crate::bitpush::lemma_two_to_32();
    }
    while total < 4
        invariant
            k <= runs@.len(),
            run_total(runs@) == 32,
            acc < crate::bitpush::two_to(total as nat),
            total <= 36,
            leading_class(runs@) == leading_class_from(runs@, k as nat, acc as nat, total as nat),
        decreases runs@.len() - k,
    {
        if k >= runs.len() {
            return None;
        }
        let (c, n) = runs[k];
        proof {
            lemma_run_le_total(runs@, k as int);
            crate::bitpush::lemma_two_to_adds(total as nat, n as nat);
            crate::bitpush::lemma_two_to_adds(n as nat, 0);
            crate::bitpush::lemma_two_to_mono(total as nat, 3);
            crate::bitpush::lemma_two_to_mono(n as nat, 32);
            reveal_with_fuel(crate::bitpush::two_to, 4);
        }
        let p = crate::bitpush::two_to_exec(n);
        proof {
            let tt = crate::bitpush::two_to(total as nat);
            assert(acc as nat * p as nat <= 8 * 0x1_0000_0000) by (nonlinear_arith)
                requires acc < tt, tt <= 8, p <= 0x1_0000_0000;
            assert(acc as nat * p as nat + p as nat <= crate::bitpush::two_to(total as nat + n as nat)) by (nonlinear_arith)
                requires acc + 1 <= tt, crate::bitpush::two_to(total as nat + n as nat) == tt * p;
        }
        if c == '0' {
            acc = acc * p;
        } else if c == '1' {
            acc = acc * p + (p - 1);
        } else {
            return None;
        }
        total = total + n;
        k = k + 1;
    }
    let d = crate::bitpush::two_to_exec(total - 4);
    proof {
        crate::bitpush::lemma_two_to_adds((total - 4) as nat, 0);
    }
    Some(acc / d)
}

fn build_pattern(row: PatternRow) -> (r: Result<TokenPattern, TableBuildErrorKind>)
    ensures
        build_row_spec(row@) matches Ok(p) ==> (r matches Ok(x) && x@ == p),
        build_row_spec(row@) matches Err(k) ==> r == Err::<TokenPattern, TableBuildErrorKind>(k),
{
    let PatternRow { expected, template, fields } = row;
    let coding = match BitRunLengthCoding::parse(template) {
        Ok(c) => c,
        Err(_) => {
            return Err(TableBuildErrorKind::MalformedTemplate);
        },
    };
    let ghost f = fields@;
    let encoding = match Encoding::new(fields) {
        Some(e) => e,
        None => {
            return Err(TableBuildErrorKind::DuplicateFieldLetter);
        },
    };
    if !fields_fit_exec(&expected, coding.get(), &encoding) {
        return Err(TableBuildErrorKind::UnmappedField);
    }
    proof {
        let t = strip_spaces(template@);
        assert forall|i: int| 0 <= i < t.len() implies is_template_char(#[trigger] t[i]) by {
            lemma_template_chars(t, 0, i);
        }
        crate::template::lemma_runs_of(t);
    }
    match leading_class_exec(coding.get()) {
        Some(c) => {
            if c > 9 {
                return Err(TableBuildErrorKind::UnknownClass);
            }
        },
        None => {
            return Err(TableBuildErrorKind::UnknownClass);
        },
    }
    Ok(TokenPattern { expected_tokens: expected, bit_pattern: coding, encoding })
}

/// Builds and validates the pattern table.
pub fn get_patterns() -> (r: Result<Vec<TokenPattern>, TableBuildError>)
    ensures
        table_spec() matches Ok(ps) ==> (r matches Ok(v) && patterns_model(v@) == ps),
        table_spec() matches Err(e) ==> r == Err::<Vec<TokenPattern>, TableBuildError>(e),
{
    let mut rows = pattern_rows();
    let ghost all = table_rows();
    let n = rows.len();
    let mut patterns: Vec<TokenPattern> = Vec::new();
    let mut i: usize = 0;
    proof {
        assert(all.subrange(0, 0) =~= Seq::<RowModel>::empty());
        assert(patterns_model(patterns@) =~= Seq::<PatternModel>::empty());
    }
    while i < n
        invariant
            n == all.len(),
            all == table_rows(),
            i <= n,
            rows_model(rows@) == all.subrange(i as int, n as int),
            build_rows_spec(all.subrange(0, i as int)) == Ok::<Seq<PatternModel>, TableBuildError>(patterns_model(patterns@)),
        decreases n - i,
    {
        proof {
            assert(rows_model(rows@).len() == rows@.len());
            assert(rows_model(rows@)[0] == rows@[0]@);
        }
        let ghost old_rows = rows@;
        let row = rows.remove(0);
        proof {
            assert forall|k: int| 0 <= k < rows@.len() implies #[trigger] rows_model(rows@)[k] == all.subrange(i + 1, n as int)[k] by {
                assert(rows@[k] == old_rows[k + 1]);
                assert(rows_model(old_rows)[k + 1] == old_rows[k + 1]@);
            }
            assert(rows_model(rows@) =~= all.subrange(i + 1, n as int));
            assert(all.subrange(0, i + 1).drop_last() =~= all.subrange(0, i as int));
            assert(all.subrange(0, i + 1).last() == row@);
        }
        let ghost row_model = row@;
        match build_pattern(row) {
            Ok(p) => {
                proof {
                    assert(patterns_model(patterns@.push(p)) =~= patterns_model(patterns@).push(p@));
                }
                patterns.push(p);
            },
            Err(kind) => {
                proof {
                    lemma_build_error_stays(all, i as int + 1, n as int);
                    assert(all.subrange(0, n as int) =~= all);
                }
                return Err(TableBuildError { row: i, kind });
            },
        }
        i = i + 1;
    }
    proof {
        assert(all.subrange(0, n as int) =~= all);
        lemma_build_rows_wf(all);
    }
    let ghost ps = patterns_model(patterns@);
    let mut j: usize = 0;
    while j < patterns.len()
        invariant
            j <= patterns@.len(),
            ps == patterns_model(patterns@),
            build_rows_spec(table_rows()) == Ok::<Seq<PatternModel>, TableBuildError>(ps),
            ambiguity_from(ps, 0) == ambiguity_from(ps, j as int),
        decreases patterns@.len() - j,
    {
        let mut i2: usize = 0;
        while i2 < j
            invariant
                j < patterns@.len(),
                i2 <= j,
                ps == patterns_model(patterns@),
                build_rows_spec(table_rows()) == Ok::<Seq<PatternModel>, TableBuildError>(ps),
                ambiguity_from(ps, 0) == ambiguity_from(ps, j as int),
                earlier_equal(ps, j as int, 0) == earlier_equal(ps, j as int, i2 as int),
            decreases j - i2,
        {
            proof {
                assert(ps[i2 as int] == patterns@[i2 as int]@);
                assert(ps[j as int] == patterns@[j as int]@);
            }
            if patterns[i2].matches(patterns[j].expected_tokens.as_slice()) {
                proof {
                    assert(ps[i2 as int].expected == ps[j as int].expected);
                    assert(earlier_equal(ps, j as int, i2 as int) == Some(i2 as int));
                    assert(ambiguity_from(ps, j as int) == Some((i2 as int, j as int)));
                }
                return Err(TableBuildError { row: j, kind: TableBuildErrorKind::Ambiguous { other: i2 } });
            }
            i2 = i2 + 1;
        }
        j = j + 1;
    }
    Ok(patterns)
}

proof fn lemma_build_error_stays(rows: Seq<RowModel>, k: int, j: int)
    requires
        0 <= k <= j <= rows.len(),
        build_rows_spec(rows.subrange(0, k)) is Err,
    ensures
        build_rows_spec(rows.subrange(0, j)) == build_rows_spec(rows.subrange(0, k)),
    decreases j - k,
{
    if k < j {
        lemma_build_error_stays(rows, k, j - 1);
        assert(rows.subrange(0, j).drop_last() =~= rows.subrange(0, j - 1));
    }
}

/// The position of the first pattern, from `i` on, that expects `shapes`.
pub open spec fn match_from(ps: Seq<PatternModel>, shapes: Seq<AmbiguousToken>, i: int) -> Option<int>
    decreases ps.len() - i,
{
    if i >= ps.len() {
        None
    } else if ps[i].expected == shapes {
        Some(i)
    } else {
        match_from(ps, shapes, i + 1)
    }
}

/// The first pattern found is one that expects the shapes; none is found
/// only where no pattern does.
pub proof fn lemma_match_from(ps: Seq<PatternModel>, shapes: Seq<AmbiguousToken>, i: int)
    requires
        0 <= i <= ps.len(),
    ensures
        match_from(ps, shapes, i) matches Some(k) ==> i <= k < ps.len() && ps[k].expected == shapes,
        match_from(ps, shapes, i) is None ==> forall|k: int| i <= k < ps.len() ==> (#[trigger] ps[k]).expected != shapes,
    decreases ps.len() - i,
{
    if i < ps.len() {
        lemma_match_from(ps, shapes, i + 1);
    }
}

/// The position of the first pattern that expects `tokens`.
pub fn pattern_index(patterns: &Vec<TokenPattern>, tokens: &[AmbiguousToken]) -> (r: Option<usize>)
    ensures
        r matches Some(i) ==> match_from(patterns_model(patterns@), tokens@, 0) == Some(i as int),
        r is None ==> match_from(patterns_model(patterns@), tokens@, 0) is None,
{
    let ghost ps = patterns_model(patterns@);
    let mut i: usize = 0;
    while i < patterns.len()
        invariant
            i <= patterns@.len(),
            ps == patterns_model(patterns@),
            match_from(ps, tokens@, 0) == match_from(ps, tokens@, i as int),
        decreases patterns@.len() - i,
    {
        proof {
            assert(ps[i as int] == patterns@[i as int]@);
        }
        if patterns[i].matches(tokens) {
            return Some(i);
        }
        i = i + 1;
    }
    None
}

/// The pattern of the table that expects the token shapes `tokens`; `None`
/// where none does, or where the table cannot be built.
pub fn find_matching_pattern(tokens: &[AmbiguousToken]) -> (r: Option<TokenPattern>)
    ensures
        table_spec() matches Ok(ps) ==> match match_from(ps, tokens@, 0) {
            Some(k) => r matches Some(p) && p@ == ps[k],
            None => r is None,
        },
        table_spec() is Err ==> r is None,
{
    let mut patterns = match get_patterns() {
        Ok(p) => p,
        Err(_) => {
            return None;
        },
    };
    let ghost ps = patterns_model(patterns@);
    proof {
        lemma_match_from(ps, tokens@, 0);
        assert(table_spec() is Ok);
        assert(table_spec()->Ok_0 == ps);
    }
    match pattern_index(&patterns, tokens) {
        Some(i) => {
            proof {
                assert(ps[i as int] == patterns@[i as int]@);
            }
            let p = patterns.swap_remove(i);
            proof {
                assert(p@ == ps[i as int]);
                assert(match_from(ps, tokens@, 0) == Some(i as int));
            }
            Some(p)
        },
        None => {
            proof {
                assert(match_from(ps, tokens@, 0) is None);
            }
            None
        },
    }
}

} // verus!
