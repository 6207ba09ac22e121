use vvm::{
    canonicalize, disasm, elide_store_load, float_immediates, float_literals, optimise, parse, AsmError,
    AsmErrorKind, DecodeError, Instruction, OptimizeError, Program, SourceError, Step, Value, VM,
};

fn program(instructions: Vec<Instruction>, labels: Vec<(&str, usize)>) -> Program {
    Program {
        instructions,
        labels: labels.into_iter().map(|(n, a)| (n.to_string(), a)).collect(),
    }
}

fn s(x: &str) -> String {
    x.to_string()
}

#[test]
fn decode_reads_each_shape() {
    let mut bytes = vec![0x10];
    bytes.extend_from_slice(&(-2i64).to_le_bytes());
    bytes.push(0x70);
    bytes.push(4);
    bytes.extend_from_slice(b"loop");
    bytes.extend_from_slice(&[0x13, 7, 0x01, 3]);
    bytes.push(0x14);
    bytes.extend_from_slice(&2u32.to_le_bytes());
    bytes.extend_from_slice("é".as_bytes());
    bytes.extend_from_slice(&[0x60, 4]);
    bytes.extend_from_slice(b"loop");
    let p = Program::from_bytecode(bytes).unwrap();
    assert_eq!(
        p.instructions,
        vec![
            Instruction::PushInt(-2),
            Instruction::PushBool(true),
            Instruction::ExitImmediate(3),
            Instruction::PushString(s("é")),
            Instruction::Jump(s("loop")),
        ]
    );
    assert_eq!(p.labels, vec![(s("loop"), 1)]);
}

#[test]
fn decode_errors() {
    assert_eq!(
        Program::from_bytecode(vec![0x15, 0xff]).unwrap_err(),
        DecodeError::UnknownOpcode { offset: 1, opcode: 0xff }
    );
    assert_eq!(Program::from_bytecode(vec![0x10, 1, 2]).unwrap_err(), DecodeError::Truncated { offset: 0 });
    assert_eq!(Program::from_bytecode(vec![0x41, 5, b'a']).unwrap_err(), DecodeError::Truncated { offset: 0 });
    assert_eq!(Program::from_bytecode(vec![0x41, 1, 0xff]).unwrap_err(), DecodeError::InvalidUtf8 { offset: 0 });
    assert_eq!(Program::from_bytecode(vec![0x70]).unwrap_err(), DecodeError::Truncated { offset: 0 });
}

#[test]
fn label_rebinding_moves_the_label() {
    let bytes = vec![0x70, 1, b'a', 0x15, 0x70, 1, b'b', 0x15, 0x70, 1, b'a'];
    let p = Program::from_bytecode(bytes).unwrap();
    assert_eq!(p.labels, vec![(s("b"), 1), (s("a"), 2)]);
}

#[test]
fn encode_then_decode_round_trips() {
    let p = program(
        vec![
            Instruction::PushInt(i64::MIN),
            Instruction::PushFloat(2.5f64.to_bits()),
            Instruction::PushString(s("hi\nthere")),
            Instruction::StoreImm(s("x")),
            Instruction::JumpIf(s("end")),
            Instruction::ExitImmediate(9),
            Instruction::PushBool(false),
        ],
        vec![("start", 0), ("mid", 3), ("also", 3), ("end", 7)],
    );
    let bytes = p.to_bytecode().unwrap();
    assert_eq!(bytes[0], 0x70);
    let q = Program::from_bytecode(bytes).unwrap();
    assert_eq!(q.instructions, p.instructions);
    assert_eq!(q.labels, p.labels);
}

#[test]
fn names_too_long_are_not_encodable() {
    let p = program(vec![Instruction::LoadImm("n".repeat(256))], vec![]);
    assert!(!p.is_encodable());
    assert!(p.to_bytecode().is_none());
}

#[test]
fn store_load_pair_is_elided() {
    let p = program(vec![Instruction::StoreImm(s("x")), Instruction::LoadImm(s("x"))], vec![]);
    let q = elide_store_load(&p);
    assert_eq!(q.instructions, vec![Instruction::Dup, Instruction::StoreImm(s("x"))]);
    let o = optimise(&p).unwrap();
    assert_eq!(o.instructions, vec![Instruction::Dup, Instruction::StoreImm(s("x"))]);
}

#[test]
fn store_pop_load_is_not_elided() {
    let code = vec![Instruction::StoreImm(s("x")), Instruction::Pop, Instruction::LoadImm(s("x"))];
    let q = elide_store_load(&program(code.clone(), vec![]));
    assert_eq!(q.instructions, code);
    let other = vec![Instruction::StoreImm(s("x")), Instruction::LoadImm(s("y"))];
    assert_eq!(elide_store_load(&program(other.clone(), vec![])).instructions, other);
}

#[test]
fn labels_get_their_index_as_name() {
    let p = program(
        vec![
            Instruction::Jump(s("b")),
            Instruction::Call(s("a")),
            Instruction::CallNative(s("a")),
            Instruction::JumpIf(s("b")),
        ],
        vec![("a", 1), ("b", 4)],
    );
    let c = canonicalize(&p).unwrap();
    assert_eq!(
        c.instructions,
        vec![
            Instruction::Jump(s("1")),
            Instruction::Call(s("0")),
            Instruction::CallNative(s("a")),
            Instruction::JumpIf(s("1")),
        ]
    );
    assert_eq!(c.labels, vec![(s("0"), 1), (s("1"), 4)]);
    let twice = canonicalize(&c).unwrap();
    assert_eq!(twice.instructions, c.instructions);
    assert_eq!(twice.labels, c.labels);
}

#[test]
fn unresolved_target_is_an_error() {
    let p = program(vec![Instruction::Pop, Instruction::Call(s("nope")), Instruction::Jump(s("x"))], vec![]);
    assert_eq!(canonicalize(&p).unwrap_err(), OptimizeError::UnresolvedLabel { at: 1 });
    assert_eq!(optimise(&p).unwrap_err(), OptimizeError::UnresolvedLabel { at: 1 });
}

#[test]
fn many_labels_get_multi_digit_names() {
    let mut labels = Vec::new();
    for i in 0..12 {
        labels.push((format!("l{}", i), 0));
    }
    let p = Program { instructions: vec![Instruction::Jump(s("l11"))], labels };
    let c = canonicalize(&p).unwrap();
    assert_eq!(c.instructions, vec![Instruction::Jump(s("11"))]);
    assert_eq!(c.labels[10].0, "10");
}

#[test]
fn assemble_each_operand_kind() {
    let src = "  # comment\n\nPUSHI -5\nPUSHU +7\nEXIT_IMM 255\nPUSHB true\nPUSHS a\\nb\nLOAD_IMM name\r\nLABEL here\nDUP extra";
    let bytes = parse(src, &vec![]).unwrap();
    let mut expected = vec![0x10];
    expected.extend_from_slice(&(-5i64).to_le_bytes());
    expected.push(0x11);
    expected.extend_from_slice(&7u64.to_le_bytes());
    expected.extend_from_slice(&[0x01, 255, 0x13, 1, 0x14, 3, 0, 0, 0, b'a', b'\n', b'b']);
    expected.extend_from_slice(&[0x41, 4, b'n', b'a', b'm', b'e', 0x70, 4, b'h', b'e', b'r', b'e', 0x16]);
    assert_eq!(bytes, expected);
}

#[test]
fn assemble_unicode_name() {
    let bytes = parse("\u{3000}STORE_IMM ünï\u{2003}", &vec![]).unwrap();
    let mut expected = vec![0x43, 5];
    expected.extend_from_slice("ünï".as_bytes());
    assert_eq!(bytes, expected);
}

#[test]
fn assemble_errors() {
    assert_eq!(
        parse("POP\nNOP", &vec![]).unwrap_err(),
        AsmError { line: 2, kind: AsmErrorKind::UnknownInstruction }
    );
    assert_eq!(
        parse("EXIT_IMM 256", &vec![]).unwrap_err(),
        AsmError { line: 1, kind: AsmErrorKind::InvalidInteger }
    );
    assert_eq!(
        parse("PUSHU -1", &vec![]).unwrap_err(),
        AsmError { line: 1, kind: AsmErrorKind::InvalidInteger }
    );
    assert_eq!(
        parse("PUSHI 9223372036854775808", &vec![]).unwrap_err(),
        AsmError { line: 1, kind: AsmErrorKind::InvalidInteger }
    );
    assert!(parse("PUSHI -9223372036854775808", &vec![]).is_ok());
    assert_eq!(
        parse("PUSHB yes", &vec![]).unwrap_err(),
        AsmError { line: 1, kind: AsmErrorKind::InvalidBool }
    );
    assert_eq!(
        parse("PUSHF 1.5", &vec![None]).unwrap_err(),
        AsmError { line: 1, kind: AsmErrorKind::InvalidFloat }
    );
    let long = format!("JMP {}", "a".repeat(256));
    assert_eq!(parse(&long, &vec![]).unwrap_err(), AsmError { line: 1, kind: AsmErrorKind::NameTooLong });
}

#[test]
fn float_operands_come_from_the_host() {
    let src = "PUSHF 1.5\nADDF 2\nPOP";
    let lits = float_literals(src);
    assert_eq!(lits, vec![s("1.5"), s("2")]);
    let floats: Vec<Option<u64>> = lits.iter().map(|t| t.parse::<f64>().ok().map(f64::to_bits)).collect();
    let bytes = parse(src, &floats).unwrap();
    let p = Program::from_bytecode(bytes).unwrap();
    assert_eq!(
        p.instructions,
        vec![Instruction::PushFloat(1.5f64.to_bits()), Instruction::AddF(2.0f64.to_bits()), Instruction::Pop]
    );
    assert_eq!(float_immediates(&p), vec![1.5f64.to_bits(), 2.0f64.to_bits()]);
}

#[test]
fn from_source_reports_both_kinds_of_error() {
    assert!(matches!(
        Program::from_source("NOPE", &vec![]),
        Err(SourceError::Asm(AsmError { line: 1, kind: AsmErrorKind::UnknownInstruction }))
    ));
    let p = Program::from_source("LABEL a\nJMP a", &vec![]).unwrap();
    assert_eq!(p.labels, vec![(s("a"), 0)]);
}

#[test]
fn listing_of_an_optimised_program() {
    let p = program(
        vec![
            Instruction::PushInt(-42),
            Instruction::StoreImm(s("x")),
            Instruction::LoadImm(s("x")),
            Instruction::PushString(s("hi\nthere")),
            Instruction::PushFloat(0.5f64.to_bits()),
            Instruction::JumpIf(s("top")),
            Instruction::ExitImmediate(3),
        ],
        vec![("top", 0), ("again", 0), ("done", 7)],
    );
    let text = disasm(&p, &vec![s("0.5")]).unwrap();
    assert_eq!(
        text,
        "LABEL 0\nLABEL 1\n    PUSHI -42\n    DUP\n    STORE_IMM x\n    PUSHS hi\\nthere\n    PUSHF 0.5\n    JMPIF 0\n    EXIT_IMM 3\nLABEL 2"
    );
}

#[test]
fn label_at_the_end_is_printed() {
    let p = program(vec![Instruction::Pop], vec![("E", 1)]);
    assert_eq!(disasm(&p, &vec![]).unwrap(), "    POP\nLABEL 0");
    let q = program(vec![Instruction::PushInt(1), Instruction::Jump(s("L"))], vec![("L", 0)]);
    assert_eq!(disasm(&q, &vec![]).unwrap(), "LABEL 0\n    PUSHI 1\n    JMP 0");
    assert_eq!(disasm(&program(vec![], vec![]), &vec![]).unwrap(), "");
}

#[test]
fn exp_assembles() {
    assert_eq!(parse("EXP", &vec![]).unwrap(), vec![0x33]);
}

#[test]
fn printed_listing_reassembles_to_the_same_bytecode() {
    let p = program(
        vec![
            Instruction::PushInt(-7),
            Instruction::PushUInt(9),
            Instruction::Exp,
            Instruction::StoreImm(s("v")),
            Instruction::LoadImm(s("v")),
            Instruction::FreeImm(s("v")),
            Instruction::PushString(s("two\nlines")),
            Instruction::PushString(s("a\\nb \\\\ c\\")),
            Instruction::PushBool(true),
            Instruction::PushFloat(1.25f64.to_bits()),
            Instruction::Call(s("f")),
            Instruction::ExitImmediate(4),
            Instruction::CallNative(s("print")),
            Instruction::Ret,
        ],
        vec![("f", 11), ("end", 13)],
    );
    let optimised = optimise(&p).unwrap();
    let bytes = optimised.to_bytecode().unwrap();
    let texts: Vec<String> =
        float_immediates(&optimised).iter().map(|b| f64::from_bits(*b).to_string()).collect();
    let listing = disasm(&optimised, &texts).unwrap();
    let floats: Vec<Option<u64>> =
        float_literals(&listing).iter().map(|t| t.parse::<f64>().ok().map(f64::to_bits)).collect();
    assert_eq!(parse(&listing, &floats).unwrap(), bytes);
}

#[test]
fn end_to_end_counting_loop() {
    let src = "PUSHI 0\nSTORE_IMM i\nLABEL loop\nPUSHS i\nLOAD\nADDI 1\nSTORE_IMM i\nLOAD_IMM i\nPUSHI 5\nCMPLT\nJMPIF loop\nLOAD_IMM i\nEXIT";
    let bytes = parse(src, &vec![]).unwrap();
    let decoded = Program::from_bytecode(bytes).unwrap();
    let optimised = optimise(&decoded).unwrap();
    assert_eq!(optimised.instructions[5], Instruction::Dup);
    assert_eq!(optimised.labels, vec![(s("0"), 2)]);
    let mut vm = VM::new(optimised);
    assert!(matches!(vm.run(1000), Step::Exit(5)));
    assert_eq!(vm.get_memory("i"), Some(&Value::Int(5)));
}

#[test]
fn instruction_text_forms() {
    assert_eq!(Instruction::ExitImmediate(7).text(""), "EXIT_IMM 7");
    assert_eq!(Instruction::PushUInt(18446744073709551615).text(""), "PUSHU 18446744073709551615");
    assert_eq!(Instruction::PushInt(i64::MIN).text(""), "PUSHI -9223372036854775808");
    assert_eq!(Instruction::PushBool(false).text(""), "PUSHB false");
    assert_eq!(Instruction::ExpF(2.0f64.to_bits()).text("2"), "EXPF 2");
    assert_eq!(Instruction::LoadImm(s("v")).text(""), "LOAD_IMM v");
    assert_eq!(Instruction::PushString(s("a\nb")).text(""), "PUSHS a\\nb");
    assert_eq!(Instruction::PushString(s("a\\nb")).text(""), "PUSHS a\\\\nb");
    assert_eq!(Instruction::CmpLessEqual.text(""), "CMPLE");
    assert_eq!(Instruction::CallNative(s("print")).text(""), "CALLNATIVE print");
}

#[test]
fn ill_formed_label_tables_are_not_written() {
    let unordered = program(vec![Instruction::Pop, Instruction::Pop], vec![("A", 2), ("B", 0)]);
    assert!(!unordered.is_well_formed());
    assert!(unordered.to_bytecode().is_none());
    let repeated = program(vec![Instruction::Pop], vec![("A", 0), ("A", 1)]);
    assert!(repeated.to_bytecode().is_none());
    let beyond = program(vec![Instruction::Pop], vec![("A", 2)]);
    assert!(beyond.to_bytecode().is_none());
    let fine = program(vec![Instruction::Pop], vec![("B", 0), ("A", 1)]);
    assert!(fine.is_well_formed());
    assert!(fine.to_bytecode().is_some());
}

#[test]
fn string_escapes_assemble() {
    let bytes = parse("PUSHS a\\\\nb\\nc", &vec![]).unwrap();
    let mut expected = vec![0x14, 6, 0, 0, 0];
    expected.extend_from_slice(b"a\\nb\nc");
    assert_eq!(bytes, expected);
}
