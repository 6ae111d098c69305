use vm_toolchain::assemble;
use vm_toolchain::assemble::collect_into_lines;
use vm_toolchain::construct::construct_instruction;
use vm_toolchain::error::{AssemblyErrorVariant, TokenizationErrorVariant};
use vm_toolchain::labels::LabelTable;
use vm_toolchain::lexer::tokenize;
use vm_toolchain::table::get_patterns;
use vm_toolchain::template::{BitRunLengthCoding, TemplateError};
use vm_toolchain::encoding::Encoding;
use vm_toolchain::token::{AmbiguousToken, Token, TokenVariant};
use vm_toolchain::{Opcode, Register};

fn assembled(src: &str) -> Vec<u32> {
    assemble(src.to_string()).unwrap()
}

fn assembled_err(src: &str) -> (usize, AssemblyErrorVariant) {
    let e = assemble(src.to_string()).unwrap_err();
    (e.line, e.variant)
}

#[test]
fn nop_is_zero() {
    assert_eq!(assembled("nop"), vec![0x0000_0000]);
}

#[test]
fn add_registers_word() {
    assert_eq!(assembled("add r2 r0 r1"), vec![0x1201_0000]);
}

#[test]
fn add_immediate_word() {
    assert_eq!(assembled("add r2 r0 5"), vec![0x1200_0051]);
}

#[test]
fn backward_branch_offset() {
    let words = assembled(".x\nnop\nnop\nb .x");
    assert_eq!(words.len(), 3);
    assert_eq!(words[2], 0x6FFF_E001);
    assert_eq!((words[2] >> 12) & 0xFFFF, 0xFFFE);
}

#[test]
fn label_at_last_line() {
    let words = assembled("b .end\nnop\n.end");
    assert_eq!(words, vec![0x6000_2001, 0]);
}

#[test]
fn missing_operand_is_unknown_pattern() {
    assert_eq!(assembled_err("nop\nadd r0 r1"), (1, AssemblyErrorVariant::UnknownTokenPattern));
}

#[test]
fn one_word_per_non_label_line() {
    let src = "ldi r0 0 1\n\n.loop\n  add r2 r0 r1  \nmov r0 r1\n.other\nb .loop\n";
    let lines = tokenize(src).unwrap();
    assert_eq!(lines.len(), 6);
    assert_eq!(assembled(src).len(), 4);
}

#[test]
fn every_word_has_known_class() {
    let src = "nop\nadd r1 r2 r3\nsub r1 7 r2\nmul r1 r2 9\ndiv r1 r2 r3\nsdiv r1 r2 3\nxor r1 r2 r3\nnot r1 r2\n\
               rsh r1 r2 63\nlroll r1 r2 r3\nmov r1 r2\nldi r1 3 0xFFFF\nldr r1 r2 7\nstr r1 0x10 2\npush r1\npop r2\n\
               cmp r1 r2\ncmp r1 4\nfcmp r1 r2\ndcmp r1 r2\nbne r3\nbse -2\nimmtof r1 -7\nitod r1 r2\ndtof r1 r2";
    for w in assembled(src) {
        assert!(w >> 28 <= 9);
    }
}

#[test]
fn table_templates_are_32_bits_and_unambiguous() {
    let patterns = get_patterns().unwrap();
    assert!(patterns.len() > 50);
    for p in &patterns {
        let total: usize = p.bit_pattern.get().iter().map(|r| r.1).sum();
        assert_eq!(total, 32);
    }
    for i in 0..patterns.len() {
        for j in 0..patterns.len() {
            if i != j {
                assert_ne!(patterns[i].expected_tokens, patterns[j].expected_tokens);
            }
        }
    }
}

fn sample_token(shape: &AmbiguousToken, k: usize) -> TokenVariant {
    match shape {
        AmbiguousToken::Opcode(op) => TokenVariant::Opcode(*op),
        AmbiguousToken::Register => TokenVariant::Register(Register::from_index((k as u8 * 5 + 3) % 16)),
        AmbiguousToken::Unsigned => TokenVariant::Unsigned(k as u16 + 1),
        AmbiguousToken::Signed => TokenVariant::Signed(-(k as i16) - 1),
        AmbiguousToken::Label => TokenVariant::Label(".t".to_string()),
        AmbiguousToken::Bool => TokenVariant::Bool(true),
    }
}

#[test]
fn every_row_encodes_its_operands() {
    let mut labels = LabelTable::new();
    labels.insert(".t".to_string(), 3);
    for p in get_patterns().unwrap() {
        let tokens: Vec<Token> = p
            .expected_tokens
            .iter()
            .enumerate()
            .map(|(k, s)| Token { line: 0, variant: sample_token(s, k) })
            .collect();
        let word = construct_instruction(&tokens, &p.bit_pattern, &p.encoding, &labels, 5).unwrap();
        let mut pos: usize = 32;
        let runs = p.bit_pattern.get();
        for &(c, n) in runs.iter() {
            pos -= n;
            let field = ((word as u64 >> pos) & ((1u64 << n) - 1)) as u64;
            let expected: u64 = match c {
                '0' => 0,
                '1' => (1u64 << n) - 1,
                letter => {
                    let idx = p.encoding.get(letter).unwrap();
                    let full: u64 = match &tokens[idx].variant {
                        TokenVariant::Register(r) => r.index() as u64,
                        TokenVariant::Unsigned(u) => *u as u64,
                        TokenVariant::Signed(i) => *i as i32 as u32 as u64,
                        TokenVariant::Label(_) => (3i32 - 5) as u16 as u64,
                        TokenVariant::Bool(b) => *b as u64,
                        TokenVariant::Opcode(_) => panic!("opcode operand"),
                    };
                    full & ((1u64 << n) - 1)
                }
            };
            assert_eq!(field, expected, "row {:?}", p.expected_tokens);
        }
        let class = word >> 28;
        let expected_class = u32::from_str_radix(
            &runs.iter().flat_map(|&(c, n)| std::iter::repeat(c).take(n)).take(4).collect::<String>(),
            2,
        )
        .unwrap();
        assert_eq!(class, expected_class);
    }
}

#[test]
fn four_bit_field_rejects_sixteen() {
    let coding: BitRunLengthCoding = "0001 AAAA IIII 0000 0000 0000 0000 0000".parse().unwrap();
    let encoding = Encoding::new(vec![('A', 1), ('I', 2)]).unwrap();
    let tokens = vec![
        Token { line: 4, variant: TokenVariant::Opcode(Opcode::Add) },
        Token { line: 4, variant: TokenVariant::Register(Register::R1) },
        Token { line: 4, variant: TokenVariant::Unsigned(16) },
    ];
    let err = construct_instruction(&tokens, &coding, &encoding, &LabelTable::new(), 0).unwrap_err();
    assert_eq!(err.line, 4);
    assert_eq!(err.variant, AssemblyErrorVariant::ImmediateTooLarge { max: 15, got: 16 });
    let ok = vec![
        Token { line: 4, variant: TokenVariant::Opcode(Opcode::Add) },
        Token { line: 4, variant: TokenVariant::Register(Register::R1) },
        Token { line: 4, variant: TokenVariant::Unsigned(15) },
    ];
    assert_eq!(construct_instruction(&ok, &coding, &encoding, &LabelTable::new(), 0).unwrap(), 0x11F0_0000);
}

#[test]
fn signed_field_range() {
    let coding: BitRunLengthCoding = "0001 AAAA IIII 0000 0000 0000 0000 0000".parse().unwrap();
    let encoding = Encoding::new(vec![('A', 1), ('I', 2)]).unwrap();
    let line = |v: i16| {
        vec![
            Token { line: 0, variant: TokenVariant::Opcode(Opcode::Add) },
            Token { line: 0, variant: TokenVariant::Register(Register::R0) },
            Token { line: 0, variant: TokenVariant::Signed(v) },
        ]
    };
    assert_eq!(construct_instruction(&line(-8), &coding, &encoding, &LabelTable::new(), 0).unwrap(), 0x1080_0000);
    assert_eq!(
        construct_instruction(&line(-9), &coding, &encoding, &LabelTable::new(), 0).unwrap_err().variant,
        AssemblyErrorVariant::ImmediateTooLarge { max: 7, got: -9 }
    );
}

#[test]
fn shift_immediate_is_six_bits() {
    assert_eq!(assembled("rsh r1 r2 63"), vec![0x3120_03F1]);
    assert_eq!(assembled_err("rsh r1 r2 64"), (0, AssemblyErrorVariant::ImmediateTooLarge { max: 63, got: 64 }));
}

#[test]
fn ldi_chunk_layout() {
    assert_eq!(assembled("ldi r0 3 0xFFFF"), vec![0x40FF_FF31]);
    assert_eq!(assembled_err("ldi r0 4 1"), (0, AssemblyErrorVariant::ImmediateTooLarge { max: 3, got: 4 }));
}

#[test]
fn undefined_label() {
    assert_eq!(
        assembled_err("nop\nb .nowhere"),
        (1, AssemblyErrorVariant::NoLabelFound { name: ".nowhere".to_string() })
    );
}

#[test]
fn offset_too_large() {
    let coding: BitRunLengthCoding = "0110 IIII IIII IIII IIII 0000 0000 0001".parse().unwrap();
    let encoding = Encoding::new(vec![('I', 1)]).unwrap();
    let mut labels = LabelTable::new();
    labels.insert(".far".to_string(), 40000);
    labels.insert(".back".to_string(), 0);
    let line = |name: &str| {
        vec![
            Token { line: 2, variant: TokenVariant::Opcode(Opcode::Branch) },
            Token { line: 2, variant: TokenVariant::Label(name.to_string()) },
        ]
    };
    assert_eq!(
        construct_instruction(&line(".far"), &coding, &encoding, &labels, 1).unwrap_err().variant,
        AssemblyErrorVariant::OffsetTooLarge { limit: 0x7FFF, required: 39999 }
    );
    assert_eq!(
        construct_instruction(&line(".back"), &coding, &encoding, &labels, 40000).unwrap_err().variant,
        AssemblyErrorVariant::OffsetTooLarge { limit: -0x8000, required: -40000 }
    );
}

#[test]
fn redefined_label_uses_latest() {
    assert_eq!(assembled(".a\nnop\n.a\nb .a"), vec![0, 0x6000_0001]);
}

#[test]
fn tokenizer_classes() {
    let lines = tokenize("add .lbl 0x1F 0b101 -32768 r15 true false 65535").unwrap();
    let v: Vec<TokenVariant> = lines[0].iter().map(|t| t.variant.clone()).collect();
    assert_eq!(
        v,
        vec![
            TokenVariant::Opcode(Opcode::Add),
            TokenVariant::Label(".lbl".to_string()),
            TokenVariant::Unsigned(31),
            TokenVariant::Unsigned(5),
            TokenVariant::Signed(-32768),
            TokenVariant::Register(Register::R15),
            TokenVariant::Bool(true),
            TokenVariant::Bool(false),
            TokenVariant::Unsigned(65535),
        ]
    );
}

#[test]
fn tokenizer_lines_and_blank_lines() {
    let lines = tokenize("\n  nop\t\n\r\n mov r1 r2\n").unwrap();
    assert_eq!(lines.len(), 2);
    assert_eq!(lines[0][0].line, 1);
    assert_eq!(lines[1].len(), 3);
    assert_eq!(lines[1][2].line, 3);
    assert!(tokenize("").unwrap().is_empty());
}

#[test]
fn tokenizer_errors() {
    let e = tokenize("nop\nadd r1 r2 70000").unwrap_err();
    assert_eq!(e.line, 1);
    match e.variant {
        AssemblyErrorVariant::TokenizationError(t) => {
            assert_eq!(t.variant, TokenizationErrorVariant::ParseIntError);
            assert_eq!(t.position, Some(3));
        }
        other => panic!("unexpected {:?}", other),
    }
    let e = tokenize("frob r1").unwrap_err();
    match e.variant {
        AssemblyErrorVariant::TokenizationError(t) => assert_eq!(t.variant, TokenizationErrorVariant::OpcodeNotRecognised),
        other => panic!("unexpected {:?}", other),
    }
    let e = tokenize("nop r1 #").unwrap_err();
    assert_eq!(e.variant, AssemblyErrorVariant::UnrecognizableParam { param_index: 2 });
    let e = tokenize("sub r1 r2 -40000").unwrap_err();
    match e.variant {
        AssemblyErrorVariant::TokenizationError(t) => assert_eq!(t.variant, TokenizationErrorVariant::ParseIntError),
        other => panic!("unexpected {:?}", other),
    }
}

#[test]
fn template_errors() {
    assert_eq!(
        BitRunLengthCoding::parse("0000"),
        Err(TemplateError::WrongLength { len: 4 })
    );
    assert_eq!(
        BitRunLengthCoding::parse("0000 0000 0000 0000 0000 0000 0000 000x"),
        Err(TemplateError::InvalidCharacter { ch: 'x', index: 31 })
    );
    let runs = BitRunLengthCoding::parse("0100 AAAA BBBB CCCC 0000 0000 0000 0000").unwrap();
    assert_eq!(runs.get(), &vec![('0', 1), ('1', 1), ('0', 2), ('A', 4), ('B', 4), ('C', 4), ('0', 16)]);
}

#[test]
fn encoding_rejects_duplicate_letters() {
    assert!(Encoding::new(vec![('A', 1), ('A', 2)]).is_none());
    let e = Encoding::new(vec![('A', 1), ('B', 2)]).unwrap();
    assert_eq!(e.get('B'), Some(2));
    assert_eq!(e.get('C'), None);
}

#[test]
fn opcode_parse_round_trip() {
    for i in 0..vm_toolchain::opcode::OPCODE_COUNT {
        let op = Opcode::from_index(i);
        assert_eq!(Opcode::parse(op.mnemonic()), Some(op));
    }
    assert_eq!(Opcode::parse("NOP"), None);
}

#[test]
fn collect_tokens_into_lines() {
    let t = |line: usize, v: TokenVariant| Token { line, variant: v };
    let lines = collect_into_lines(vec![
        t(0, TokenVariant::Opcode(Opcode::Nop)),
        t(2, TokenVariant::Opcode(Opcode::Move)),
        t(2, TokenVariant::Register(Register::R1)),
        t(2, TokenVariant::Register(Register::R2)),
        t(3, TokenVariant::Label(".end".to_string())),
    ]);
    assert_eq!(lines.len(), 3);
    assert_eq!(lines[1].len(), 3);
    assert_eq!(lines[2][0].variant, TokenVariant::Label(".end".to_string()));
    assert!(collect_into_lines(Vec::new()).is_empty());
}

#[test]
fn signed_immediates_need_room() {
    assert_eq!(assembled("b 32767"), vec![0x67FF_F001]);
    assert_eq!(assembled_err("b 32768"), (0, AssemblyErrorVariant::ImmediateTooLarge { max: 32767, got: 32768 }));
    assert_eq!(assembled("immtof r1 32767"), vec![0x717F_FF00]);
    assert_eq!(
        assembled_err("nop\nimmtod r1 40000"),
        (1, AssemblyErrorVariant::ImmediateTooLarge { max: 32767, got: 40000 })
    );
    assert_eq!(assembled_err("cmp r1 -4"), (0, AssemblyErrorVariant::UnknownTokenPattern));
    assert_eq!(assembled_err("sdiv r1 r2 -3"), (0, AssemblyErrorVariant::UnknownTokenPattern));
    assert_eq!(assembled("sdiv r1 r2 0xFFFF"), vec![0x112F_FFFB]);
}
