use vm_toolchain::bitpush::BitPush;
use vm_toolchain::construct::construct_instruction;
use vm_toolchain::labels::LabelTable;
use vm_toolchain::table::find_matching_pattern;
use vm_toolchain::template::BitRunLengthCoding;
use vm_toolchain::token::{AmbiguousToken, Token, TokenVariant};
use vm_toolchain::{Opcode, Register};

#[test]
fn test_bit_push() {
    let mut pusher = BitPush::new();

    pusher.push(15, 4);
    pusher.push_ones(3);
    pusher.push_zeros(2);
    pusher.push(5, 3);

    assert_eq!(pusher.state() >> 20, 0b1111_111_00_101);
}

#[test]
fn test_mixed_sizes() {
    let mut pusher = BitPush::new();

    pusher.push(63, 6);
    pusher.push(2, 2);
    pusher.push(31, 5);
    pusher.push(7, 3);

    assert_eq!(pusher.state() >> 16, 0b111111_10_11111_111);
}

#[test]
fn test_bit_run_length_coding() {
    println!("{:?}", "0100 AAAA BBBB CCCC 0000 0000 0000 0000".parse::<BitRunLengthCoding>().unwrap());
}

fn nop_cases() {
    assert!(find_matching_pattern(&[AmbiguousToken::Opcode(Opcode::Nop)]).is_some());
    assert!(find_matching_pattern(&[AmbiguousToken::Opcode(Opcode::Nop), AmbiguousToken::Register]).is_none());
    assert!(find_matching_pattern(&[AmbiguousToken::Opcode(Opcode::Nop), AmbiguousToken::Unsigned]).is_none());
    assert!(find_matching_pattern(&[AmbiguousToken::Opcode(Opcode::Nop), AmbiguousToken::Unsigned]).is_none());
    assert!(find_matching_pattern(&[AmbiguousToken::Opcode(Opcode::Nop), AmbiguousToken::Unsigned]).is_none());
    assert!(find_matching_pattern(&[AmbiguousToken::Opcode(Opcode::Nop), AmbiguousToken::Unsigned]).is_none());
    assert!(find_matching_pattern(&[AmbiguousToken::Opcode(Opcode::Nop), AmbiguousToken::Unsigned]).is_none());
    assert!(find_matching_pattern(&[AmbiguousToken::Opcode(Opcode::Nop), AmbiguousToken::Label]).is_none());
    assert!(find_matching_pattern(&[AmbiguousToken::Opcode(Opcode::Nop), AmbiguousToken::Bool]).is_none());
}

fn add_cases() {
    assert!(find_matching_pattern(&[
        AmbiguousToken::Opcode(Opcode::Add),
        AmbiguousToken::Register,
        AmbiguousToken::Register,
        AmbiguousToken::Register
    ])
    .is_some());
    assert!(find_matching_pattern(&[
        AmbiguousToken::Opcode(Opcode::Add),
        AmbiguousToken::Register,
        AmbiguousToken::Register,
        AmbiguousToken::Unsigned
    ])
    .is_some());
    assert!(find_matching_pattern(&[AmbiguousToken::Opcode(Opcode::Add)]).is_none());
}

#[test]
fn construct_instruction_test_nop() {
    nop_cases();
}

#[test]
fn construct_instruction_test_add() {
    add_cases();
}

#[test]
fn grammar_test_nop() {
    nop_cases();
}

#[test]
fn grammar_test_add() {
    add_cases();
}

#[test]
fn test_construct_instruction() {
    let variants = [
        TokenVariant::Opcode(Opcode::Add),
        TokenVariant::Register(Register::R0),
        TokenVariant::Register(Register::R1),
        TokenVariant::Unsigned(0xFFFF),
    ];

    let transformed: Vec<AmbiguousToken> = variants.iter().map(|token| token.clone().try_into().unwrap()).collect();

    let pattern = match find_matching_pattern(&transformed) {
        None => panic!("No matching pattern found"),
        Some(pattern) => pattern,
    };

    let tokens: Vec<Token> = variants.iter().map(|v| Token { line: 0, variant: v.clone() }).collect();
    let word = construct_instruction(&tokens, &pattern.bit_pattern, &pattern.encoding, &LabelTable::new(), 0).unwrap();
    println!("{:#08x}", word);
    assert_eq!(word, 0x101F_FFF1);
}

#[test]
fn test_try_from_ok() {
    assert_eq!(Opcode::try_from("nop").unwrap(), Opcode::Nop);
    assert_eq!(Opcode::try_from("add").unwrap(), Opcode::Add);
    assert_eq!(Opcode::try_from("dtof").unwrap(), Opcode::DoubleToFloat);
}

#[test]
fn test_try_from_err() {
    assert!(Opcode::try_from("unknown").is_err());
    assert!(Opcode::try_from("").is_err());
}

#[test]
fn test_try_into() {
    let opcode: Result<Opcode, _> = "sub".try_into();
    assert_eq!(opcode.unwrap(), Opcode::Subtract);
}

#[test]
fn test_from_str() {
    let opcode = "mul".parse::<Opcode>().unwrap();
    assert_eq!(opcode, Opcode::Multiply);
}

#[test]
fn test_display() {
    assert_eq!(Opcode::Nop.to_string(), "nop");
    assert_eq!(Opcode::DivideSigned.to_string(), "sdiv");
    assert_eq!(Opcode::RightRoll.to_string(), "rrol");
}

#[test]
fn test_try_into_register() {
    assert_eq!(Register::from_str("r0"), Ok(Register::R0));
    assert_eq!(Register::from_str("r1"), Ok(Register::R1));
    assert_eq!(Register::from_str("r2"), Ok(Register::R2));
    assert_eq!(Register::from_str("r3"), Ok(Register::R3));
    assert_eq!(Register::from_str("r4"), Ok(Register::R4));
    assert_eq!(Register::from_str("r5"), Ok(Register::R5));
    assert_eq!(Register::from_str("r6"), Ok(Register::R6));
    assert_eq!(Register::from_str("r7"), Ok(Register::R7));
    assert_eq!(Register::from_str("r8"), Ok(Register::R8));
    assert_eq!(Register::from_str("r9"), Ok(Register::R9));
    assert_eq!(Register::from_str("r10"), Ok(Register::R10));
    assert_eq!(Register::from_str("r11"), Ok(Register::R11));
    assert_eq!(Register::from_str("r12"), Ok(Register::R12));
    assert_eq!(Register::from_str("r13"), Ok(Register::R13));
    assert_eq!(Register::from_str("r14"), Ok(Register::R14));
    assert_eq!(Register::from_str("r15"), Ok(Register::R15));

    assert!(Register::from_str("13").is_err());
    assert!(Register::from_str("rtv").is_err());
    assert!(Register::from_str("").is_err());
    assert!(Register::from_str("0").is_err());
    assert!(Register::from_str("r").is_err());
}
