//! The human-readable listing of a program.
//!
//! Each instruction is printed on its own line, indented by four spaces,
//! after a `LABEL name` line for each label bound to its address; the labels
//! bound to the end of the program follow the last instruction. Instructions
//! are printed with the assembler's mnemonics and strings with their newlines
//! and backslashes escaped, so that a printed line assembles back to the
//! instruction's bytes. Lines are joined by newlines, with none after the last.
//! Float immediates are printed by the host: the listing takes the text of
//! each, in order (see [`float_immediates`]).
use crate::instruction::{fits_shape, lemma_operand_fits, shape_of, Instruction, Operand, Shape};
use crate::opcodes::{
    OP_EXIT, OP_EXIT_IMMEDIATE, OP_PUSH_INT, OP_PUSH_UINT,
    OP_PUSH_FLOAT, OP_PUSH_BOOL, OP_PUSH_STRING, OP_POP,
    OP_DUP, OP_SWAP, OP_ADD, OP_ADD_I,
    OP_ADD_U, OP_ADD_F, OP_SUB, OP_SUB_I,
    OP_SUB_U, OP_SUB_F, OP_MUL, OP_MUL_I,
    OP_MUL_U, OP_MUL_F, OP_DIV, OP_DIV_I,
    OP_DIV_U, OP_DIV_F, OP_MOD, OP_MOD_I,
    OP_MOD_U, OP_EXP, OP_EXP_I, OP_EXP_U,
    OP_EXP_F, OP_LOAD, OP_LOAD_IMM, OP_STORE,
    OP_STORE_IMM, OP_FREE, OP_FREE_IMM, OP_CMP_EQUAL,
    OP_CMP_NOT_EQUAL, OP_CMP_GREATER_THAN, OP_CMP_LESS_THAN, OP_CMP_GREATER_EQUAL,
    OP_CMP_LESS_EQUAL, OP_JUMP, OP_JUMP_IF, OP_CALL,
    OP_CALL_NATIVE, OP_RET, OP_LABEL,
};
use crate::optimiser::{
    all_resolved, canonical, canonical_instruction, elide, first_unresolved, optimise, starts_with_store_load,
    OptimizeError,
};
use crate::parser::{
    assemble_line, encode_line, is_space, line_parts, parse_signed, parse_unsigned, lemma_decimal_reads_back, lemma_line_parts, lemma_trim_start_spaces, mnemonic,
    skipped, tight, trim, trim_end, trim_start, unescape, AsmErrorKind,
};
use crate::program::{encodable_instruction, instruction_bytes, label_bytes, Listing, Program};
use crate::table::keyed;
use crate::text::{decimal, decimal_string, signed_decimal, string_of, chars_of};
use vstd::prelude::*;
use vstd::bytes::spec_u32_to_le_bytes;
use vstd::utf8::encode_utf8;

verus! {

/// The name an instruction is printed with.
pub open spec fn display_name(op: u8) -> Seq<char> {
    if op == OP_EXIT {
        "EXIT"@
    } else if op == OP_EXIT_IMMEDIATE {
        "EXIT_IMM"@
    } else if op == OP_PUSH_INT {
        "PUSHI"@
    } else if op == OP_PUSH_UINT {
        "PUSHU"@
    } else if op == OP_PUSH_FLOAT {
        "PUSHF"@
    } else if op == OP_PUSH_BOOL {
        "PUSHB"@
    } else if op == OP_PUSH_STRING {
        "PUSHS"@
    } else if op == OP_POP {
        "POP"@
    } else if op == OP_DUP {
        "DUP"@
    } else if op == OP_SWAP {
        "SWAP"@
    } else if op == OP_ADD {
        "ADD"@
    } else if op == OP_ADD_I {
        "ADDI"@
    } else if op == OP_ADD_U {
        "ADDU"@
    } else if op == OP_ADD_F {
        "ADDF"@
    } else if op == OP_SUB {
        "SUB"@
    } else if op == OP_SUB_I {
        "SUBI"@
    } else if op == OP_SUB_U {
        "SUBU"@
    } else if op == OP_SUB_F {
        "SUBF"@
    } else if op == OP_MUL {
        "MUL"@
    } else if op == OP_MUL_I {
        "MULI"@
    } else if op == OP_MUL_U {
        "MULU"@
    } else if op == OP_MUL_F {
        "MULF"@
    } else if op == OP_DIV {
        "DIV"@
    } else if op == OP_DIV_I {
        "DIVI"@
    } else if op == OP_DIV_U {
        "DIVU"@
    } else if op == OP_DIV_F {
        "DIVF"@
    } else if op == OP_MOD {
        "MOD"@
    } else if op == OP_MOD_I {
        "MODI"@
    } else if op == OP_MOD_U {
        "MODU"@
    } else if op == OP_EXP {
        "EXP"@
    } else if op == OP_EXP_I {
        "EXPI"@
    } else if op == OP_EXP_U {
        "EXPU"@
    } else if op == OP_EXP_F {
        "EXPF"@
    } else if op == OP_LOAD {
        "LOAD"@
    } else if op == OP_LOAD_IMM {
        "LOAD_IMM"@
    } else if op == OP_STORE {
        "STORE"@
    } else if op == OP_STORE_IMM {
        "STORE_IMM"@
    } else if op == OP_FREE {
        "FREE"@
    } else if op == OP_FREE_IMM {
        "FREE_IMM"@
    } else if op == OP_CMP_EQUAL {
        "CMPEQ"@
    } else if op == OP_CMP_NOT_EQUAL {
        "CMPNE"@
    } else if op == OP_CMP_GREATER_THAN {
        "CMPGT"@
    } else if op == OP_CMP_LESS_THAN {
        "CMPLT"@
    } else if op == OP_CMP_GREATER_EQUAL {
        "CMPGE"@
    } else if op == OP_CMP_LESS_EQUAL {
        "CMPLE"@
    } else if op == OP_JUMP {
        "JMP"@
    } else if op == OP_JUMP_IF {
        "JMPIF"@
    } else if op == OP_CALL {
        "CALL"@
    } else if op == OP_CALL_NATIVE {
        "CALLNATIVE"@
    } else if op == OP_RET {
        "RET"@
    } else {
        ""@
    }
}

/// The name an instruction is printed with.
fn display_name_exec(op: u8) -> (r: &'static str)
    ensures
        r@ == display_name(op),
{
    if op == OP_EXIT {
        "EXIT"
    } else if op == OP_EXIT_IMMEDIATE {
        "EXIT_IMM"
    } else if op == OP_PUSH_INT {
        "PUSHI"
    } else if op == OP_PUSH_UINT {
        "PUSHU"
    } else if op == OP_PUSH_FLOAT {
        "PUSHF"
    } else if op == OP_PUSH_BOOL {
        "PUSHB"
    } else if op == OP_PUSH_STRING {
        "PUSHS"
    } else if op == OP_POP {
        "POP"
    } else if op == OP_DUP {
        "DUP"
    } else if op == OP_SWAP {
        "SWAP"
    } else if op == OP_ADD {
        "ADD"
    } else if op == OP_ADD_I {
        "ADDI"
    } else if op == OP_ADD_U {
        "ADDU"
    } else if op == OP_ADD_F {
        "ADDF"
    } else if op == OP_SUB {
        "SUB"
    } else if op == OP_SUB_I {
        "SUBI"
    } else if op == OP_SUB_U {
        "SUBU"
    } else if op == OP_SUB_F {
        "SUBF"
    } else if op == OP_MUL {
        "MUL"
    } else if op == OP_MUL_I {
        "MULI"
    } else if op == OP_MUL_U {
        "MULU"
    } else if op == OP_MUL_F {
        "MULF"
    } else if op == OP_DIV {
        "DIV"
    } else if op == OP_DIV_I {
        "DIVI"
    } else if op == OP_DIV_U {
        "DIVU"
    } else if op == OP_DIV_F {
        "DIVF"
    } else if op == OP_MOD {
        "MOD"
    } else if op == OP_MOD_I {
        "MODI"
    } else if op == OP_MOD_U {
        "MODU"
    } else if op == OP_EXP {
        "EXP"
    } else if op == OP_EXP_I {
        "EXPI"
    } else if op == OP_EXP_U {
        "EXPU"
    } else if op == OP_EXP_F {
        "EXPF"
    } else if op == OP_LOAD {
        "LOAD"
    } else if op == OP_LOAD_IMM {
        "LOAD_IMM"
    } else if op == OP_STORE {
        "STORE"
    } else if op == OP_STORE_IMM {
        "STORE_IMM"
    } else if op == OP_FREE {
        "FREE"
    } else if op == OP_FREE_IMM {
        "FREE_IMM"
    } else if op == OP_CMP_EQUAL {
        "CMPEQ"
    } else if op == OP_CMP_NOT_EQUAL {
        "CMPNE"
    } else if op == OP_CMP_GREATER_THAN {
        "CMPGT"
    } else if op == OP_CMP_LESS_THAN {
        "CMPLT"
    } else if op == OP_CMP_GREATER_EQUAL {
        "CMPGE"
    } else if op == OP_CMP_LESS_EQUAL {
        "CMPLE"
    } else if op == OP_JUMP {
        "JMP"
    } else if op == OP_JUMP_IF {
        "JMPIF"
    } else if op == OP_CALL {
        "CALL"
    } else if op == OP_CALL_NATIVE {
        "CALLNATIVE"
    } else if op == OP_RET {
        "RET"
    } else {
        ""
    }
}

/// The text with each newline written as a backslash and an `n`, and each
/// backslash as two backslashes.
pub open spec fn escape(t: Seq<char>) -> Seq<char>
    decreases t.len(),
{
    if t.len() == 0 {
        t
    } else if t[0] == '\n' {
        seq!['\\', 'n'] + escape(t.skip(1))
    } else if t[0] == '\\' {
        seq!['\\', '\\'] + escape(t.skip(1))
    } else {
        seq![t[0]] + escape(t.skip(1))
    }
}

/// The printed form of an operand; `float` is the host's text of a float.
pub open spec fn operand_text(op: u8, o: Operand, float: Seq<char>) -> Seq<char> {
    match o {
        Operand::Nothing => Seq::empty(),
        Operand::Byte(v) => decimal(v as nat),
        Operand::Int(v) => signed_decimal(v as int),
        Operand::UInt(v) => decimal(v as nat),
        Operand::Float(_) => float,
        Operand::Bool(v) => if v { "true"@ } else { "false"@ },
        Operand::Text(t) => if op == OP_PUSH_STRING { escape(t) } else { t },
    }
}

/// The printed form of an instruction.
pub open spec fn instruction_text(c: (u8, Operand), float: Seq<char>) -> Seq<char> {
    if c.1 is Nothing {
        display_name(c.0)
    } else {
        display_name(c.0) + seq![' '] + operand_text(c.0, c.1, float)
    }
}

/// The `LABEL` lines for address `a`, from label `j` of the table on.
pub open spec fn label_lines(labels: Seq<(Seq<char>, usize)>, a: int, j: int) -> Seq<char>
    decreases labels.len() - j,
{
    if j < 0 || j >= labels.len() {
        Seq::empty()
    } else if labels[j].1 == a {
        "LABEL "@ + labels[j].0 + seq!['\n'] + label_lines(labels, a, j + 1)
    } else {
        label_lines(labels, a, j + 1)
    }
}

/// The float text with index `fi`, or nothing if the host gave none.
pub open spec fn float_text(texts: Seq<Seq<char>>, fi: int) -> Seq<char> {
    if 0 <= fi < texts.len() {
        texts[fi]
    } else {
        ""@
    }
}

/// The listing from address `a` on, where `fi` float immediates come before
/// `a`; the labels bound to the end of the program come last.
pub open spec fn render_from(l: Listing, texts: Seq<Seq<char>>, a: int, fi: int) -> Seq<char>
    decreases l.code.len() - a,
{
    if a < 0 || a >= l.code.len() {
        label_lines(l.labels, l.code.len() as int, 0)
    } else {
        let c = l.code[a];
        let line = label_lines(l.labels, a, 0) + "    "@ + instruction_text(c, float_text(texts, fi)) + seq!['\n'];
        let fi2 = if c.1 is Float { fi + 1 } else { fi };
        line + render_from(l, texts, a + 1, fi2)
    }
}

/// The listing of a program: its lines joined by newlines, with none after
/// the last.
pub open spec fn render(l: Listing, texts: Seq<Seq<char>>) -> Seq<char> {
    let all = render_from(l, texts, 0, 0);
    if all.len() > 0 {
        all.drop_last()
    } else {
        all
    }
}

/// A word with no white space that does not start a comment.
pub open spec fn plain_word(w: Seq<char>) -> bool {
    &&& w.len() > 0
    &&& w[0] != '#'
    &&& forall|i: int| 0 <= i < w.len() ==> !is_space(#[trigger] w[i])
}

/// The printed name of an instruction is a plain word that assembles to its
/// opcode.
#[verifier::rlimit(100)]
#[verifier::spinoff_prover]
pub proof fn lemma_name_reads_back(op: u8)
    requires
        shape_of(op) matches Some(s) && s != Shape::Label,
    ensures
        plain_word(display_name(op)),
        mnemonic(display_name(op)) == Some(op),
{
    if op == OP_EXIT {
        assert(plain_word(display_name(OP_EXIT)) && mnemonic(display_name(OP_EXIT)) == Some(OP_EXIT)) by {
            reveal_strlit("EXIT");
        }
    }
    if op == OP_EXIT_IMMEDIATE {
        assert(plain_word(display_name(OP_EXIT_IMMEDIATE)) && mnemonic(display_name(OP_EXIT_IMMEDIATE)) == Some(OP_EXIT_IMMEDIATE)) by {
            reveal_strlit("EXIT_IMM");
            reveal_strlit("EXIT");
            assert("EXIT"@.len() != "EXIT_IMM"@.len());
        }
    }
    if op == OP_PUSH_INT {
        assert(plain_word(display_name(OP_PUSH_INT)) && mnemonic(display_name(OP_PUSH_INT)) == Some(OP_PUSH_INT)) by {
            reveal_strlit("PUSHI");
            reveal_strlit("EXIT");
            assert("EXIT"@.len() != "PUSHI"@.len());
            reveal_strlit("EXIT_IMM");
            assert("EXIT_IMM"@.len() != "PUSHI"@.len());
        }
    }
    if op == OP_PUSH_UINT {
        assert(plain_word(display_name(OP_PUSH_UINT)) && mnemonic(display_name(OP_PUSH_UINT)) == Some(OP_PUSH_UINT)) by {
            reveal_strlit("PUSHU");
            reveal_strlit("EXIT");
            assert("EXIT"@.len() != "PUSHU"@.len());
            reveal_strlit("EXIT_IMM");
            assert("EXIT_IMM"@.len() != "PUSHU"@.len());
            reveal_strlit("PUSHI");
            assert("PUSHI"@[4] != "PUSHU"@[4]);
        }
    }
    if op == OP_PUSH_FLOAT {
        assert(plain_word(display_name(OP_PUSH_FLOAT)) && mnemonic(display_name(OP_PUSH_FLOAT)) == Some(OP_PUSH_FLOAT)) by {
            reveal_strlit("PUSHF");
            reveal_strlit("EXIT");
            assert("EXIT"@.len() != "PUSHF"@.len());
            reveal_strlit("EXIT_IMM");
            assert("EXIT_IMM"@.len() != "PUSHF"@.len());
            reveal_strlit("PUSHI");
            assert("PUSHI"@[4] != "PUSHF"@[4]);
            reveal_strlit("PUSHU");
            assert("PUSHU"@[4] != "PUSHF"@[4]);
        }
    }
    if op == OP_PUSH_BOOL {
        assert(plain_word(display_name(OP_PUSH_BOOL)) && mnemonic(display_name(OP_PUSH_BOOL)) == Some(OP_PUSH_BOOL)) by {
            reveal_strlit("PUSHB");
            reveal_strlit("EXIT");
            assert("EXIT"@.len() != "PUSHB"@.len());
            reveal_strlit("EXIT_IMM");
            assert("EXIT_IMM"@.len() != "PUSHB"@.len());
            reveal_strlit("PUSHI");
            assert("PUSHI"@[4] != "PUSHB"@[4]);
            reveal_strlit("PUSHU");
            assert("PUSHU"@[4] != "PUSHB"@[4]);
            reveal_strlit("PUSHF");
            assert("PUSHF"@[4] != "PUSHB"@[4]);
        }
    }
    if op == OP_PUSH_STRING {
        assert(plain_word(display_name(OP_PUSH_STRING)) && mnemonic(display_name(OP_PUSH_STRING)) == Some(OP_PUSH_STRING)) by {
            reveal_strlit("PUSHS");
            reveal_strlit("EXIT");
            assert("EXIT"@.len() != "PUSHS"@.len());
            reveal_strlit("EXIT_IMM");
            assert("EXIT_IMM"@.len() != "PUSHS"@.len());
            reveal_strlit("PUSHI");
            assert("PUSHI"@[4] != "PUSHS"@[4]);
            reveal_strlit("PUSHU");
            assert("PUSHU"@[4] != "PUSHS"@[4]);
            reveal_strlit("PUSHF");
            assert("PUSHF"@[4] != "PUSHS"@[4]);
            reveal_strlit("PUSHB");
            assert("PUSHB"@[4] != "PUSHS"@[4]);
        }
    }
    if op == OP_POP {
        assert(plain_word(display_name(OP_POP)) && mnemonic(display_name(OP_POP)) == Some(OP_POP)) by {
            reveal_strlit("POP");
            reveal_strlit("EXIT");
            assert("EXIT"@.len() != "POP"@.len());
            reveal_strlit("EXIT_IMM");
            assert("EXIT_IMM"@.len() != "POP"@.len());
            reveal_strlit("PUSHI");
            assert("PUSHI"@.len() != "POP"@.len());
            reveal_strlit("PUSHU");
            assert("PUSHU"@.len() != "POP"@.len());
            reveal_strlit("PUSHF");
            assert("PUSHF"@.len() != "POP"@.len());
            reveal_strlit("PUSHB");
            assert("PUSHB"@.len() != "POP"@.len());
            reveal_strlit("PUSHS");
            assert("PUSHS"@.len() != "POP"@.len());
        }
    }
    if op == OP_DUP {
        assert(plain_word(display_name(OP_DUP)) && mnemonic(display_name(OP_DUP)) == Some(OP_DUP)) by {
            reveal_strlit("DUP");
            reveal_strlit("EXIT");
            assert("EXIT"@.len() != "DUP"@.len());
            reveal_strlit("EXIT_IMM");
            assert("EXIT_IMM"@.len() != "DUP"@.len());
            reveal_strlit("PUSHI");
            assert("PUSHI"@.len() != "DUP"@.len());
            reveal_strlit("PUSHU");
            assert("PUSHU"@.len() != "DUP"@.len());
            reveal_strlit("PUSHF");
            assert("PUSHF"@.len() != "DUP"@.len());
            reveal_strlit("PUSHB");
            assert("PUSHB"@.len() != "DUP"@.len());
            reveal_strlit("PUSHS");
            assert("PUSHS"@.len() != "DUP"@.len());
            reveal_strlit("POP");
            assert("POP"@[0] != "DUP"@[0]);
        }
    }
    if op == OP_SWAP {
        assert(plain_word(display_name(OP_SWAP)) && mnemonic(display_name(OP_SWAP)) == Some(OP_SWAP)) by {
            reveal_strlit("SWAP");
            reveal_strlit("EXIT");
            assert("EXIT"@[0] != "SWAP"@[0]);
            reveal_strlit("EXIT_IMM");
            assert("EXIT_IMM"@.len() != "SWAP"@.len());
            reveal_strlit("PUSHI");
            assert("PUSHI"@.len() != "SWAP"@.len());
            reveal_strlit("PUSHU");
            assert("PUSHU"@.len() != "SWAP"@.len());
            reveal_strlit("PUSHF");
            assert("PUSHF"@.len() != "SWAP"@.len());
            reveal_strlit("PUSHB");
            assert("PUSHB"@.len() != "SWAP"@.len());
            reveal_strlit("PUSHS");
            assert("PUSHS"@.len() != "SWAP"@.len());
            reveal_strlit("POP");
            assert("POP"@.len() != "SWAP"@.len());
            reveal_strlit("DUP");
            assert("DUP"@.len() != "SWAP"@.len());
        }
    }
    if op == OP_ADD {
        assert(plain_word(display_name(OP_ADD)) && mnemonic(display_name(OP_ADD)) == Some(OP_ADD)) by {
            reveal_strlit("ADD");
            reveal_strlit("EXIT");
            assert("EXIT"@.len() != "ADD"@.len());
            reveal_strlit("EXIT_IMM");
            assert("EXIT_IMM"@.len() != "ADD"@.len());
            reveal_strlit("PUSHI");
            assert("PUSHI"@.len() != "ADD"@.len());
            reveal_strlit("PUSHU");
            assert("PUSHU"@.len() != "ADD"@.len());
            reveal_strlit("PUSHF");
            assert("PUSHF"@.len() != "ADD"@.len());
            reveal_strlit("PUSHB");
            assert("PUSHB"@.len() != "ADD"@.len());
            reveal_strlit("PUSHS");
            assert("PUSHS"@.len() != "ADD"@.len());
            reveal_strlit("POP");
            assert("POP"@[0] != "ADD"@[0]);
            reveal_strlit("DUP");
            assert("DUP"@[0] != "ADD"@[0]);
            reveal_strlit("SWAP");
            assert("SWAP"@.len() != "ADD"@.len());
        }
    }
    if op == OP_ADD_I {
        assert(plain_word(display_name(OP_ADD_I)) && mnemonic(display_name(OP_ADD_I)) == Some(OP_ADD_I)) by {
            reveal_strlit("ADDI");
            reveal_strlit("EXIT");
            assert("EXIT"@[0] != "ADDI"@[0]);
            reveal_strlit("EXIT_IMM");
            assert("EXIT_IMM"@.len() != "ADDI"@.len());
            reveal_strlit("PUSHI");
            assert("PUSHI"@.len() != "ADDI"@.len());
            reveal_strlit("PUSHU");
            assert("PUSHU"@.len() != "ADDI"@.len());
            reveal_strlit("PUSHF");
            assert("PUSHF"@.len() != "ADDI"@.len());
            reveal_strlit("PUSHB");
            assert("PUSHB"@.len() != "ADDI"@.len());
            reveal_strlit("PUSHS");
            assert("PUSHS"@.len() != "ADDI"@.len());
            reveal_strlit("POP");
            assert("POP"@.len() != "ADDI"@.len());
            reveal_strlit("DUP");
            assert("DUP"@.len() != "ADDI"@.len());
            reveal_strlit("SWAP");
            assert("SWAP"@[0] != "ADDI"@[0]);
            reveal_strlit("ADD");
            assert("ADD"@.len() != "ADDI"@.len());
        }
    }
    if op == OP_ADD_U {
        assert(plain_word(display_name(OP_ADD_U)) && mnemonic(display_name(OP_ADD_U)) == Some(OP_ADD_U)) by {
            reveal_strlit("ADDU");
            reveal_strlit("EXIT");
            assert("EXIT"@[0] != "ADDU"@[0]);
            reveal_strlit("EXIT_IMM");
            assert("EXIT_IMM"@.len() != "ADDU"@.len());
            reveal_strlit("PUSHI");
            assert("PUSHI"@.len() != "ADDU"@.len());
            reveal_strlit("PUSHU");
            assert("PUSHU"@.len() != "ADDU"@.len());
            reveal_strlit("PUSHF");
            assert("PUSHF"@.len() != "ADDU"@.len());
            reveal_strlit("PUSHB");
            assert("PUSHB"@.len() != "ADDU"@.len());
            reveal_strlit("PUSHS");
            assert("PUSHS"@.len() != "ADDU"@.len());
            reveal_strlit("POP");
            assert("POP"@.len() != "ADDU"@.len());
            reveal_strlit("DUP");
            assert("DUP"@.len() != "ADDU"@.len());
            reveal_strlit("SWAP");
            assert("SWAP"@[0] != "ADDU"@[0]);
            reveal_strlit("ADD");
            assert("ADD"@.len() != "ADDU"@.len());
            reveal_strlit("ADDI");
            assert("ADDI"@[3] != "ADDU"@[3]);
        }
    }
    if op == OP_ADD_F {
        assert(plain_word(display_name(OP_ADD_F)) && mnemonic(display_name(OP_ADD_F)) == Some(OP_ADD_F)) by {
            reveal_strlit("ADDF");
            reveal_strlit("EXIT");
            assert("EXIT"@[0] != "ADDF"@[0]);
            reveal_strlit("EXIT_IMM");
            assert("EXIT_IMM"@.len() != "ADDF"@.len());
            reveal_strlit("PUSHI");
            assert("PUSHI"@.len() != "ADDF"@.len());
            reveal_strlit("PUSHU");
            assert("PUSHU"@.len() != "ADDF"@.len());
            reveal_strlit("PUSHF");
            assert("PUSHF"@.len() != "ADDF"@.len());
            reveal_strlit("PUSHB");
            assert("PUSHB"@.len() != "ADDF"@.len());
            reveal_strlit("PUSHS");
            assert("PUSHS"@.len() != "ADDF"@.len());
            reveal_strlit("POP");
            assert("POP"@.len() != "ADDF"@.len());
            reveal_strlit("DUP");
            assert("DUP"@.len() != "ADDF"@.len());
            reveal_strlit("SWAP");
            assert("SWAP"@[0] != "ADDF"@[0]);
            reveal_strlit("ADD");
            assert("ADD"@.len() != "ADDF"@.len());
            reveal_strlit("ADDI");
            assert("ADDI"@[3] != "ADDF"@[3]);
            reveal_strlit("ADDU");
            assert("ADDU"@[3] != "ADDF"@[3]);
        }
    }
    if op == OP_SUB {
        assert(plain_word(display_name(OP_SUB)) && mnemonic(display_name(OP_SUB)) == Some(OP_SUB)) by {
            reveal_strlit("SUB");
            reveal_strlit("EXIT");
            assert("EXIT"@.len() != "SUB"@.len());
            reveal_strlit("EXIT_IMM");
            assert("EXIT_IMM"@.len() != "SUB"@.len());
            reveal_strlit("PUSHI");
            assert("PUSHI"@.len() != "SUB"@.len());
            reveal_strlit("PUSHU");
            assert("PUSHU"@.len() != "SUB"@.len());
            reveal_strlit("PUSHF");
            assert("PUSHF"@.len() != "SUB"@.len());
            reveal_strlit("PUSHB");
            assert("PUSHB"@.len() != "SUB"@.len());
            reveal_strlit("PUSHS");
            assert("PUSHS"@.len() != "SUB"@.len());
            reveal_strlit("POP");
            assert("POP"@[0] != "SUB"@[0]);
            reveal_strlit("DUP");
            assert("DUP"@[0] != "SUB"@[0]);
            reveal_strlit("SWAP");
            assert("SWAP"@.len() != "SUB"@.len());
            reveal_strlit("ADD");
            assert("ADD"@[0] != "SUB"@[0]);
            reveal_strlit("ADDI");
            assert("ADDI"@.len() != "SUB"@.len());
            reveal_strlit("ADDU");
            assert("ADDU"@.len() != "SUB"@.len());
            reveal_strlit("ADDF");
            assert("ADDF"@.len() != "SUB"@.len());
        }
    }
    if op == OP_SUB_I {
        assert(plain_word(display_name(OP_SUB_I)) && mnemonic(display_name(OP_SUB_I)) == Some(OP_SUB_I)) by {
            reveal_strlit("SUBI");
            reveal_strlit("EXIT");
            assert("EXIT"@[0] != "SUBI"@[0]);
            reveal_strlit("EXIT_IMM");
            assert("EXIT_IMM"@.len() != "SUBI"@.len());
            reveal_strlit("PUSHI");
            assert("PUSHI"@.len() != "SUBI"@.len());
            reveal_strlit("PUSHU");
            assert("PUSHU"@.len() != "SUBI"@.len());
            reveal_strlit("PUSHF");
            assert("PUSHF"@.len() != "SUBI"@.len());
            reveal_strlit("PUSHB");
            assert("PUSHB"@.len() != "SUBI"@.len());
            reveal_strlit("PUSHS");
            assert("PUSHS"@.len() != "SUBI"@.len());
            reveal_strlit("POP");
            assert("POP"@.len() != "SUBI"@.len());
            reveal_strlit("DUP");
            assert("DUP"@.len() != "SUBI"@.len());
            reveal_strlit("SWAP");
            assert("SWAP"@[1] != "SUBI"@[1]);
            reveal_strlit("ADD");
            assert("ADD"@.len() != "SUBI"@.len());
            reveal_strlit("ADDI");
            assert("ADDI"@[0] != "SUBI"@[0]);
            reveal_strlit("ADDU");
            assert("ADDU"@[0] != "SUBI"@[0]);
            reveal_strlit("ADDF");
            assert("ADDF"@[0] != "SUBI"@[0]);
            reveal_strlit("SUB");
            assert("SUB"@.len() != "SUBI"@.len());
        }
    }
    if op == OP_SUB_U {
        assert(plain_word(display_name(OP_SUB_U)) && mnemonic(display_name(OP_SUB_U)) == Some(OP_SUB_U)) by {
            reveal_strlit("SUBU");
            reveal_strlit("EXIT");
            assert("EXIT"@[0] != "SUBU"@[0]);
            reveal_strlit("EXIT_IMM");
            assert("EXIT_IMM"@.len() != "SUBU"@.len());
            reveal_strlit("PUSHI");
            assert("PUSHI"@.len() != "SUBU"@.len());
            reveal_strlit("PUSHU");
            assert("PUSHU"@.len() != "SUBU"@.len());
            reveal_strlit("PUSHF");
            assert("PUSHF"@.len() != "SUBU"@.len());
            reveal_strlit("PUSHB");
            assert("PUSHB"@.len() != "SUBU"@.len());
            reveal_strlit("PUSHS");
            assert("PUSHS"@.len() != "SUBU"@.len());
            reveal_strlit("POP");
            assert("POP"@.len() != "SUBU"@.len());
            reveal_strlit("DUP");
            assert("DUP"@.len() != "SUBU"@.len());
            reveal_strlit("SWAP");
            assert("SWAP"@[1] != "SUBU"@[1]);
            reveal_strlit("ADD");
            assert("ADD"@.len() != "SUBU"@.len());
            reveal_strlit("ADDI");
            assert("ADDI"@[0] != "SUBU"@[0]);
            reveal_strlit("ADDU");
            assert("ADDU"@[0] != "SUBU"@[0]);
            reveal_strlit("ADDF");
            assert("ADDF"@[0] != "SUBU"@[0]);
            reveal_strlit("SUB");
            assert("SUB"@.len() != "SUBU"@.len());
            reveal_strlit("SUBI");
            assert("SUBI"@[3] != "SUBU"@[3]);
        }
    }
    if op == OP_SUB_F {
        assert(plain_word(display_name(OP_SUB_F)) && mnemonic(display_name(OP_SUB_F)) == Some(OP_SUB_F)) by {
            reveal_strlit("SUBF");
            reveal_strlit("EXIT");
            assert("EXIT"@[0] != "SUBF"@[0]);
            reveal_strlit("EXIT_IMM");
            assert("EXIT_IMM"@.len() != "SUBF"@.len());
            reveal_strlit("PUSHI");
            assert("PUSHI"@.len() != "SUBF"@.len());
            reveal_strlit("PUSHU");
            assert("PUSHU"@.len() != "SUBF"@.len());
            reveal_strlit("PUSHF");
            assert("PUSHF"@.len() != "SUBF"@.len());
            reveal_strlit("PUSHB");
            assert("PUSHB"@.len() != "SUBF"@.len());
            reveal_strlit("PUSHS");
            assert("PUSHS"@.len() != "SUBF"@.len());
            reveal_strlit("POP");
            assert("POP"@.len() != "SUBF"@.len());
            reveal_strlit("DUP");
            assert("DUP"@.len() != "SUBF"@.len());
            reveal_strlit("SWAP");
            assert("SWAP"@[1] != "SUBF"@[1]);
            reveal_strlit("ADD");
            assert("ADD"@.len() != "SUBF"@.len());
            reveal_strlit("ADDI");
            assert("ADDI"@[0] != "SUBF"@[0]);
            reveal_strlit("ADDU");
            assert("ADDU"@[0] != "SUBF"@[0]);
            reveal_strlit("ADDF");
            assert("ADDF"@[0] != "SUBF"@[0]);
            reveal_strlit("SUB");
            assert("SUB"@.len() != "SUBF"@.len());
            reveal_strlit("SUBI");
            assert("SUBI"@[3] != "SUBF"@[3]);
            reveal_strlit("SUBU");
            assert("SUBU"@[3] != "SUBF"@[3]);
        }
    }
    if op == OP_MUL {
        assert(plain_word(display_name(OP_MUL)) && mnemonic(display_name(OP_MUL)) == Some(OP_MUL)) by {
            reveal_strlit("MUL");
            reveal_strlit("EXIT");
            assert("EXIT"@.len() != "MUL"@.len());
            reveal_strlit("EXIT_IMM");
            assert("EXIT_IMM"@.len() != "MUL"@.len());
            reveal_strlit("PUSHI");
            assert("PUSHI"@.len() != "MUL"@.len());
            reveal_strlit("PUSHU");
            assert("PUSHU"@.len() != "MUL"@.len());
            reveal_strlit("PUSHF");
            assert("PUSHF"@.len() != "MUL"@.len());
            reveal_strlit("PUSHB");
            assert("PUSHB"@.len() != "MUL"@.len());
            reveal_strlit("PUSHS");
            assert("PUSHS"@.len() != "MUL"@.len());
            reveal_strlit("POP");
            assert("POP"@[0] != "MUL"@[0]);
            reveal_strlit("DUP");
            assert("DUP"@[0] != "MUL"@[0]);
            reveal_strlit("SWAP");
            assert("SWAP"@.len() != "MUL"@.len());
            reveal_strlit("ADD");
            assert("ADD"@[0] != "MUL"@[0]);
            reveal_strlit("ADDI");
            assert("ADDI"@.len() != "MUL"@.len());
            reveal_strlit("ADDU");
            assert("ADDU"@.len() != "MUL"@.len());
            reveal_strlit("ADDF");
            assert("ADDF"@.len() != "MUL"@.len());
            reveal_strlit("SUB");
            assert("SUB"@[0] != "MUL"@[0]);
            reveal_strlit("SUBI");
            assert("SUBI"@.len() != "MUL"@.len());
            reveal_strlit("SUBU");
            assert("SUBU"@.len() != "MUL"@.len());
            reveal_strlit("SUBF");
            assert("SUBF"@.len() != "MUL"@.len());
        }
    }
    if op == OP_MUL_I {
        assert(plain_word(display_name(OP_MUL_I)) && mnemonic(display_name(OP_MUL_I)) == Some(OP_MUL_I)) by {
            reveal_strlit("MULI");
            reveal_strlit("EXIT");
            assert("EXIT"@[0] != "MULI"@[0]);
            reveal_strlit("EXIT_IMM");
            assert("EXIT_IMM"@.len() != "MULI"@.len());
            reveal_strlit("PUSHI");
            assert("PUSHI"@.len() != "MULI"@.len());
            reveal_strlit("PUSHU");
            assert("PUSHU"@.len() != "MULI"@.len());
            reveal_strlit("PUSHF");
            assert("PUSHF"@.len() != "MULI"@.len());
            reveal_strlit("PUSHB");
            assert("PUSHB"@.len() != "MULI"@.len());
            reveal_strlit("PUSHS");
            assert("PUSHS"@.len() != "MULI"@.len());
            reveal_strlit("POP");
            assert("POP"@.len() != "MULI"@.len());
            reveal_strlit("DUP");
            assert("DUP"@.len() != "MULI"@.len());
            reveal_strlit("SWAP");
            assert("SWAP"@[0] != "MULI"@[0]);
            reveal_strlit("ADD");
            assert("ADD"@.len() != "MULI"@.len());
            reveal_strlit("ADDI");
            assert("ADDI"@[0] != "MULI"@[0]);
            reveal_strlit("ADDU");
            assert("ADDU"@[0] != "MULI"@[0]);
            reveal_strlit("ADDF");
            assert("ADDF"@[0] != "MULI"@[0]);
            reveal_strlit("SUB");
            assert("SUB"@.len() != "MULI"@.len());
            reveal_strlit("SUBI");
            assert("SUBI"@[0] != "MULI"@[0]);
            reveal_strlit("SUBU");
            assert("SUBU"@[0] != "MULI"@[0]);
            reveal_strlit("SUBF");
            assert("SUBF"@[0] != "MULI"@[0]);
            reveal_strlit("MUL");
            assert("MUL"@.len() != "MULI"@.len());
        }
    }
    if op == OP_MUL_U {
        assert(plain_word(display_name(OP_MUL_U)) && mnemonic(display_name(OP_MUL_U)) == Some(OP_MUL_U)) by {
            reveal_strlit("MULU");
            reveal_strlit("EXIT");
            assert("EXIT"@[0] != "MULU"@[0]);
            reveal_strlit("EXIT_IMM");
            assert("EXIT_IMM"@.len() != "MULU"@.len());
            reveal_strlit("PUSHI");
            assert("PUSHI"@.len() != "MULU"@.len());
            reveal_strlit("PUSHU");
            assert("PUSHU"@.len() != "MULU"@.len());
            reveal_strlit("PUSHF");
            assert("PUSHF"@.len() != "MULU"@.len());
            reveal_strlit("PUSHB");
            assert("PUSHB"@.len() != "MULU"@.len());
            reveal_strlit("PUSHS");
            assert("PUSHS"@.len() != "MULU"@.len());
            reveal_strlit("POP");
            assert("POP"@.len() != "MULU"@.len());
            reveal_strlit("DUP");
            assert("DUP"@.len() != "MULU"@.len());
            reveal_strlit("SWAP");
            assert("SWAP"@[0] != "MULU"@[0]);
            reveal_strlit("ADD");
            assert("ADD"@.len() != "MULU"@.len());
            reveal_strlit("ADDI");
            assert("ADDI"@[0] != "MULU"@[0]);
            reveal_strlit("ADDU");
            assert("ADDU"@[0] != "MULU"@[0]);
            reveal_strlit("ADDF");
            assert("ADDF"@[0] != "MULU"@[0]);
            reveal_strlit("SUB");
            assert("SUB"@.len() != "MULU"@.len());
            reveal_strlit("SUBI");
            assert("SUBI"@[0] != "MULU"@[0]);
            reveal_strlit("SUBU");
            assert("SUBU"@[0] != "MULU"@[0]);
            reveal_strlit("SUBF");
            assert("SUBF"@[0] != "MULU"@[0]);
            reveal_strlit("MUL");
            assert("MUL"@.len() != "MULU"@.len());
            reveal_strlit("MULI");
            assert("MULI"@[3] != "MULU"@[3]);
        }
    }
    if op == OP_MUL_F {
        assert(plain_word(display_name(OP_MUL_F)) && mnemonic(display_name(OP_MUL_F)) == Some(OP_MUL_F)) by {
            reveal_strlit("MULF");
            reveal_strlit("EXIT");
            assert("EXIT"@[0] != "MULF"@[0]);
            reveal_strlit("EXIT_IMM");
            assert("EXIT_IMM"@.len() != "MULF"@.len());
            reveal_strlit("PUSHI");
            assert("PUSHI"@.len() != "MULF"@.len());
            reveal_strlit("PUSHU");
            assert("PUSHU"@.len() != "MULF"@.len());
            reveal_strlit("PUSHF");
            assert("PUSHF"@.len() != "MULF"@.len());
            reveal_strlit("PUSHB");
            assert("PUSHB"@.len() != "MULF"@.len());
            reveal_strlit("PUSHS");
            assert("PUSHS"@.len() != "MULF"@.len());
            reveal_strlit("POP");
            assert("POP"@.len() != "MULF"@.len());
            reveal_strlit("DUP");
            assert("DUP"@.len() != "MULF"@.len());
            reveal_strlit("SWAP");
            assert("SWAP"@[0] != "MULF"@[0]);
            reveal_strlit("ADD");
            assert("ADD"@.len() != "MULF"@.len());
            reveal_strlit("ADDI");
            assert("ADDI"@[0] != "MULF"@[0]);
            reveal_strlit("ADDU");
            assert("ADDU"@[0] != "MULF"@[0]);
            reveal_strlit("ADDF");
            assert("ADDF"@[0] != "MULF"@[0]);
            reveal_strlit("SUB");
            assert("SUB"@.len() != "MULF"@.len());
            reveal_strlit("SUBI");
            assert("SUBI"@[0] != "MULF"@[0]);
            reveal_strlit("SUBU");
            assert("SUBU"@[0] != "MULF"@[0]);
            reveal_strlit("SUBF");
            assert("SUBF"@[0] != "MULF"@[0]);
            reveal_strlit("MUL");
            assert("MUL"@.len() != "MULF"@.len());
            reveal_strlit("MULI");
            assert("MULI"@[3] != "MULF"@[3]);
            reveal_strlit("MULU");
            assert("MULU"@[3] != "MULF"@[3]);
        }
    }
    if op == OP_DIV {
        assert(plain_word(display_name(OP_DIV)) && mnemonic(display_name(OP_DIV)) == Some(OP_DIV)) by {
            reveal_strlit("DIV");
            reveal_strlit("EXIT");
            assert("EXIT"@.len() != "DIV"@.len());
            reveal_strlit("EXIT_IMM");
            assert("EXIT_IMM"@.len() != "DIV"@.len());
            reveal_strlit("PUSHI");
            assert("PUSHI"@.len() != "DIV"@.len());
            reveal_strlit("PUSHU");
            assert("PUSHU"@.len() != "DIV"@.len());
            reveal_strlit("PUSHF");
            assert("PUSHF"@.len() != "DIV"@.len());
            reveal_strlit("PUSHB");
            assert("PUSHB"@.len() != "DIV"@.len());
            reveal_strlit("PUSHS");
            assert("PUSHS"@.len() != "DIV"@.len());
            reveal_strlit("POP");
            assert("POP"@[0] != "DIV"@[0]);
            reveal_strlit("DUP");
            assert("DUP"@[1] != "DIV"@[1]);
            reveal_strlit("SWAP");
            assert("SWAP"@.len() != "DIV"@.len());
            reveal_strlit("ADD");
            assert("ADD"@[0] != "DIV"@[0]);
            reveal_strlit("ADDI");
            assert("ADDI"@.len() != "DIV"@.len());
            reveal_strlit("ADDU");
            assert("ADDU"@.len() != "DIV"@.len());
            reveal_strlit("ADDF");
            assert("ADDF"@.len() != "DIV"@.len());
            reveal_strlit("SUB");
            assert("SUB"@[0] != "DIV"@[0]);
            reveal_strlit("SUBI");
            assert("SUBI"@.len() != "DIV"@.len());
            reveal_strlit("SUBU");
            assert("SUBU"@.len() != "DIV"@.len());
            reveal_strlit("SUBF");
            assert("SUBF"@.len() != "DIV"@.len());
            reveal_strlit("MUL");
            assert("MUL"@[0] != "DIV"@[0]);
            reveal_strlit("MULI");
            assert("MULI"@.len() != "DIV"@.len());
            reveal_strlit("MULU");
            assert("MULU"@.len() != "DIV"@.len());
            reveal_strlit("MULF");
            assert("MULF"@.len() != "DIV"@.len());
        }
    }
    if op == OP_DIV_I {
        assert(plain_word(display_name(OP_DIV_I)) && mnemonic(display_name(OP_DIV_I)) == Some(OP_DIV_I)) by {
            reveal_strlit("DIVI");
            reveal_strlit("EXIT");
            assert("EXIT"@[0] != "DIVI"@[0]);
            reveal_strlit("EXIT_IMM");
            assert("EXIT_IMM"@.len() != "DIVI"@.len());
            reveal_strlit("PUSHI");
            assert("PUSHI"@.len() != "DIVI"@.len());
            reveal_strlit("PUSHU");
            assert("PUSHU"@.len() != "DIVI"@.len());
            reveal_strlit("PUSHF");
            assert("PUSHF"@.len() != "DIVI"@.len());
            reveal_strlit("PUSHB");
            assert("PUSHB"@.len() != "DIVI"@.len());
            reveal_strlit("PUSHS");
            assert("PUSHS"@.len() != "DIVI"@.len());
            reveal_strlit("POP");
            assert("POP"@.len() != "DIVI"@.len());
            reveal_strlit("DUP");
            assert("DUP"@.len() != "DIVI"@.len());
            reveal_strlit("SWAP");
            assert("SWAP"@[0] != "DIVI"@[0]);
            reveal_strlit("ADD");
            assert("ADD"@.len() != "DIVI"@.len());
            reveal_strlit("ADDI");
            assert("ADDI"@[0] != "DIVI"@[0]);
            reveal_strlit("ADDU");
            assert("ADDU"@[0] != "DIVI"@[0]);
            reveal_strlit("ADDF");
            assert("ADDF"@[0] != "DIVI"@[0]);
            reveal_strlit("SUB");
            assert("SUB"@.len() != "DIVI"@.len());
            reveal_strlit("SUBI");
            assert("SUBI"@[0] != "DIVI"@[0]);
            reveal_strlit("SUBU");
            assert("SUBU"@[0] != "DIVI"@[0]);
            reveal_strlit("SUBF");
            assert("SUBF"@[0] != "DIVI"@[0]);
            reveal_strlit("MUL");
            assert("MUL"@.len() != "DIVI"@.len());
            reveal_strlit("MULI");
            assert("MULI"@[0] != "DIVI"@[0]);
            reveal_strlit("MULU");
            assert("MULU"@[0] != "DIVI"@[0]);
            reveal_strlit("MULF");
            assert("MULF"@[0] != "DIVI"@[0]);
            reveal_strlit("DIV");
            assert("DIV"@.len() != "DIVI"@.len());
        }
    }
    if op == OP_DIV_U {
        assert(plain_word(display_name(OP_DIV_U)) && mnemonic(display_name(OP_DIV_U)) == Some(OP_DIV_U)) by {
            reveal_strlit("DIVU");
            reveal_strlit("EXIT");
            assert("EXIT"@[0] != "DIVU"@[0]);
            reveal_strlit("EXIT_IMM");
            assert("EXIT_IMM"@.len() != "DIVU"@.len());
            reveal_strlit("PUSHI");
            assert("PUSHI"@.len() != "DIVU"@.len());
            reveal_strlit("PUSHU");
            assert("PUSHU"@.len() != "DIVU"@.len());
            reveal_strlit("PUSHF");
            assert("PUSHF"@.len() != "DIVU"@.len());
            reveal_strlit("PUSHB");
            assert("PUSHB"@.len() != "DIVU"@.len());
            reveal_strlit("PUSHS");
            assert("PUSHS"@.len() != "DIVU"@.len());
            reveal_strlit("POP");
            assert("POP"@.len() != "DIVU"@.len());
            reveal_strlit("DUP");
            assert("DUP"@.len() != "DIVU"@.len());
            reveal_strlit("SWAP");
            assert("SWAP"@[0] != "DIVU"@[0]);
            reveal_strlit("ADD");
            assert("ADD"@.len() != "DIVU"@.len());
            reveal_strlit("ADDI");
            assert("ADDI"@[0] != "DIVU"@[0]);
            reveal_strlit("ADDU");
            assert("ADDU"@[0] != "DIVU"@[0]);
            reveal_strlit("ADDF");
            assert("ADDF"@[0] != "DIVU"@[0]);
            reveal_strlit("SUB");
            assert("SUB"@.len() != "DIVU"@.len());
            reveal_strlit("SUBI");
            assert("SUBI"@[0] != "DIVU"@[0]);
            reveal_strlit("SUBU");
            assert("SUBU"@[0] != "DIVU"@[0]);
            reveal_strlit("SUBF");
            assert("SUBF"@[0] != "DIVU"@[0]);
            reveal_strlit("MUL");
            assert("MUL"@.len() != "DIVU"@.len());
            reveal_strlit("MULI");
            assert("MULI"@[0] != "DIVU"@[0]);
            reveal_strlit("MULU");
            assert("MULU"@[0] != "DIVU"@[0]);
            reveal_strlit("MULF");
            assert("MULF"@[0] != "DIVU"@[0]);
            reveal_strlit("DIV");
            assert("DIV"@.len() != "DIVU"@.len());
            reveal_strlit("DIVI");
            assert("DIVI"@[3] != "DIVU"@[3]);
        }
    }
    if op == OP_DIV_F {
        assert(plain_word(display_name(OP_DIV_F)) && mnemonic(display_name(OP_DIV_F)) == Some(OP_DIV_F)) by {
            reveal_strlit("DIVF");
            reveal_strlit("EXIT");
            assert("EXIT"@[0] != "DIVF"@[0]);
            reveal_strlit("EXIT_IMM");
            assert("EXIT_IMM"@.len() != "DIVF"@.len());
            reveal_strlit("PUSHI");
            assert("PUSHI"@.len() != "DIVF"@.len());
            reveal_strlit("PUSHU");
            assert("PUSHU"@.len() != "DIVF"@.len());
            reveal_strlit("PUSHF");
            assert("PUSHF"@.len() != "DIVF"@.len());
            reveal_strlit("PUSHB");
            assert("PUSHB"@.len() != "DIVF"@.len());
            reveal_strlit("PUSHS");
            assert("PUSHS"@.len() != "DIVF"@.len());
            reveal_strlit("POP");
            assert("POP"@.len() != "DIVF"@.len());
            reveal_strlit("DUP");
            assert("DUP"@.len() != "DIVF"@.len());
            reveal_strlit("SWAP");
            assert("SWAP"@[0] != "DIVF"@[0]);
            reveal_strlit("ADD");
            assert("ADD"@.len() != "DIVF"@.len());
            reveal_strlit("ADDI");
            assert("ADDI"@[0] != "DIVF"@[0]);
            reveal_strlit("ADDU");
            assert("ADDU"@[0] != "DIVF"@[0]);
            reveal_strlit("ADDF");
            assert("ADDF"@[0] != "DIVF"@[0]);
            reveal_strlit("SUB");
            assert("SUB"@.len() != "DIVF"@.len());
            reveal_strlit("SUBI");
            assert("SUBI"@[0] != "DIVF"@[0]);
            reveal_strlit("SUBU");
            assert("SUBU"@[0] != "DIVF"@[0]);
            reveal_strlit("SUBF");
            assert("SUBF"@[0] != "DIVF"@[0]);
            reveal_strlit("MUL");
            assert("MUL"@.len() != "DIVF"@.len());
            reveal_strlit("MULI");
            assert("MULI"@[0] != "DIVF"@[0]);
            reveal_strlit("MULU");
            assert("MULU"@[0] != "DIVF"@[0]);
            reveal_strlit("MULF");
            assert("MULF"@[0] != "DIVF"@[0]);
            reveal_strlit("DIV");
            assert("DIV"@.len() != "DIVF"@.len());
            reveal_strlit("DIVI");
            assert("DIVI"@[3] != "DIVF"@[3]);
            reveal_strlit("DIVU");
            assert("DIVU"@[3] != "DIVF"@[3]);
        }
    }
    if op == OP_MOD {
        assert(plain_word(display_name(OP_MOD)) && mnemonic(display_name(OP_MOD)) == Some(OP_MOD)) by {
            reveal_strlit("MOD");
            reveal_strlit("EXIT");
            assert("EXIT"@.len() != "MOD"@.len());
            reveal_strlit("EXIT_IMM");
            assert("EXIT_IMM"@.len() != "MOD"@.len());
            reveal_strlit("PUSHI");
            assert("PUSHI"@.len() != "MOD"@.len());
            reveal_strlit("PUSHU");
            assert("PUSHU"@.len() != "MOD"@.len());
            reveal_strlit("PUSHF");
            assert("PUSHF"@.len() != "MOD"@.len());
            reveal_strlit("PUSHB");
            assert("PUSHB"@.len() != "MOD"@.len());
            reveal_strlit("PUSHS");
            assert("PUSHS"@.len() != "MOD"@.len());
            reveal_strlit("POP");
            assert("POP"@[0] != "MOD"@[0]);
            reveal_strlit("DUP");
            assert("DUP"@[0] != "MOD"@[0]);
            reveal_strlit("SWAP");
            assert("SWAP"@.len() != "MOD"@.len());
            reveal_strlit("ADD");
            assert("ADD"@[0] != "MOD"@[0]);
            reveal_strlit("ADDI");
            assert("ADDI"@.len() != "MOD"@.len());
            reveal_strlit("ADDU");
            assert("ADDU"@.len() != "MOD"@.len());
            reveal_strlit("ADDF");
            assert("ADDF"@.len() != "MOD"@.len());
            reveal_strlit("SUB");
            assert("SUB"@[0] != "MOD"@[0]);
            reveal_strlit("SUBI");
            assert("SUBI"@.len() != "MOD"@.len());
            reveal_strlit("SUBU");
            assert("SUBU"@.len() != "MOD"@.len());
            reveal_strlit("SUBF");
            assert("SUBF"@.len() != "MOD"@.len());
            reveal_strlit("MUL");
            assert("MUL"@[1] != "MOD"@[1]);
            reveal_strlit("MULI");
            assert("MULI"@.len() != "MOD"@.len());
            reveal_strlit("MULU");
            assert("MULU"@.len() != "MOD"@.len());
            reveal_strlit("MULF");
            assert("MULF"@.len() != "MOD"@.len());
            reveal_strlit("DIV");
            assert("DIV"@[0] != "MOD"@[0]);
            reveal_strlit("DIVI");
            assert("DIVI"@.len() != "MOD"@.len());
            reveal_strlit("DIVU");
            assert("DIVU"@.len() != "MOD"@.len());
            reveal_strlit("DIVF");
            assert("DIVF"@.len() != "MOD"@.len());
        }
    }
    if op == OP_MOD_I {
        assert(plain_word(display_name(OP_MOD_I)) && mnemonic(display_name(OP_MOD_I)) == Some(OP_MOD_I)) by {
            reveal_strlit("MODI");
            reveal_strlit("EXIT");
            assert("EXIT"@[0] != "MODI"@[0]);
            reveal_strlit("EXIT_IMM");
            assert("EXIT_IMM"@.len() != "MODI"@.len());
            reveal_strlit("PUSHI");
            assert("PUSHI"@.len() != "MODI"@.len());
            reveal_strlit("PUSHU");
            assert("PUSHU"@.len() != "MODI"@.len());
            reveal_strlit("PUSHF");
            assert("PUSHF"@.len() != "MODI"@.len());
            reveal_strlit("PUSHB");
            assert("PUSHB"@.len() != "MODI"@.len());
            reveal_strlit("PUSHS");
            assert("PUSHS"@.len() != "MODI"@.len());
            reveal_strlit("POP");
            assert("POP"@.len() != "MODI"@.len());
            reveal_strlit("DUP");
            assert("DUP"@.len() != "MODI"@.len());
            reveal_strlit("SWAP");
            assert("SWAP"@[0] != "MODI"@[0]);
            reveal_strlit("ADD");
            assert("ADD"@.len() != "MODI"@.len());
            reveal_strlit("ADDI");
            assert("ADDI"@[0] != "MODI"@[0]);
            reveal_strlit("ADDU");
            assert("ADDU"@[0] != "MODI"@[0]);
            reveal_strlit("ADDF");
            assert("ADDF"@[0] != "MODI"@[0]);
            reveal_strlit("SUB");
            assert("SUB"@.len() != "MODI"@.len());
            reveal_strlit("SUBI");
            assert("SUBI"@[0] != "MODI"@[0]);
            reveal_strlit("SUBU");
            assert("SUBU"@[0] != "MODI"@[0]);
            reveal_strlit("SUBF");
            assert("SUBF"@[0] != "MODI"@[0]);
            reveal_strlit("MUL");
            assert("MUL"@.len() != "MODI"@.len());
            reveal_strlit("MULI");
            assert("MULI"@[1] != "MODI"@[1]);
            reveal_strlit("MULU");
            assert("MULU"@[1] != "MODI"@[1]);
            reveal_strlit("MULF");
            assert("MULF"@[1] != "MODI"@[1]);
            reveal_strlit("DIV");
            assert("DIV"@.len() != "MODI"@.len());
            reveal_strlit("DIVI");
            assert("DIVI"@[0] != "MODI"@[0]);
            reveal_strlit("DIVU");
            assert("DIVU"@[0] != "MODI"@[0]);
            reveal_strlit("DIVF");
            assert("DIVF"@[0] != "MODI"@[0]);
            reveal_strlit("MOD");
            assert("MOD"@.len() != "MODI"@.len());
        }
    }
    if op == OP_MOD_U {
        assert(plain_word(display_name(OP_MOD_U)) && mnemonic(display_name(OP_MOD_U)) == Some(OP_MOD_U)) by {
            reveal_strlit("MODU");
            reveal_strlit("EXIT");
            assert("EXIT"@[0] != "MODU"@[0]);
            reveal_strlit("EXIT_IMM");
            assert("EXIT_IMM"@.len() != "MODU"@.len());
            reveal_strlit("PUSHI");
            assert("PUSHI"@.len() != "MODU"@.len());
            reveal_strlit("PUSHU");
            assert("PUSHU"@.len() != "MODU"@.len());
            reveal_strlit("PUSHF");
            assert("PUSHF"@.len() != "MODU"@.len());
            reveal_strlit("PUSHB");
            assert("PUSHB"@.len() != "MODU"@.len());
            reveal_strlit("PUSHS");
            assert("PUSHS"@.len() != "MODU"@.len());
            reveal_strlit("POP");
            assert("POP"@.len() != "MODU"@.len());
            reveal_strlit("DUP");
            assert("DUP"@.len() != "MODU"@.len());
            reveal_strlit("SWAP");
            assert("SWAP"@[0] != "MODU"@[0]);
            reveal_strlit("ADD");
            assert("ADD"@.len() != "MODU"@.len());
            reveal_strlit("ADDI");
            assert("ADDI"@[0] != "MODU"@[0]);
            reveal_strlit("ADDU");
            assert("ADDU"@[0] != "MODU"@[0]);
            reveal_strlit("ADDF");
            assert("ADDF"@[0] != "MODU"@[0]);
            reveal_strlit("SUB");
            assert("SUB"@.len() != "MODU"@.len());
            reveal_strlit("SUBI");
            assert("SUBI"@[0] != "MODU"@[0]);
            reveal_strlit("SUBU");
            assert("SUBU"@[0] != "MODU"@[0]);
            reveal_strlit("SUBF");
            assert("SUBF"@[0] != "MODU"@[0]);
            reveal_strlit("MUL");
            assert("MUL"@.len() != "MODU"@.len());
            reveal_strlit("MULI");
            assert("MULI"@[1] != "MODU"@[1]);
            reveal_strlit("MULU");
            assert("MULU"@[1] != "MODU"@[1]);
            reveal_strlit("MULF");
            assert("MULF"@[1] != "MODU"@[1]);
            reveal_strlit("DIV");
            assert("DIV"@.len() != "MODU"@.len());
            reveal_strlit("DIVI");
            assert("DIVI"@[0] != "MODU"@[0]);
            reveal_strlit("DIVU");
            assert("DIVU"@[0] != "MODU"@[0]);
            reveal_strlit("DIVF");
            assert("DIVF"@[0] != "MODU"@[0]);
            reveal_strlit("MOD");
            assert("MOD"@.len() != "MODU"@.len());
            reveal_strlit("MODI");
            assert("MODI"@[3] != "MODU"@[3]);
        }
    }
    if op == OP_EXP {
        assert(plain_word(display_name(OP_EXP)) && mnemonic(display_name(OP_EXP)) == Some(OP_EXP)) by {
            reveal_strlit("EXP");
            reveal_strlit("EXIT");
            assert("EXIT"@.len() != "EXP"@.len());
            reveal_strlit("EXIT_IMM");
            assert("EXIT_IMM"@.len() != "EXP"@.len());
            reveal_strlit("PUSHI");
            assert("PUSHI"@.len() != "EXP"@.len());
            reveal_strlit("PUSHU");
            assert("PUSHU"@.len() != "EXP"@.len());
            reveal_strlit("PUSHF");
            assert("PUSHF"@.len() != "EXP"@.len());
            reveal_strlit("PUSHB");
            assert("PUSHB"@.len() != "EXP"@.len());
            reveal_strlit("PUSHS");
            assert("PUSHS"@.len() != "EXP"@.len());
            reveal_strlit("POP");
            assert("POP"@[0] != "EXP"@[0]);
            reveal_strlit("DUP");
            assert("DUP"@[0] != "EXP"@[0]);
            reveal_strlit("SWAP");
            assert("SWAP"@.len() != "EXP"@.len());
            reveal_strlit("ADD");
            assert("ADD"@[0] != "EXP"@[0]);
            reveal_strlit("ADDI");
            assert("ADDI"@.len() != "EXP"@.len());
            reveal_strlit("ADDU");
            assert("ADDU"@.len() != "EXP"@.len());
            reveal_strlit("ADDF");
            assert("ADDF"@.len() != "EXP"@.len());
            reveal_strlit("SUB");
            assert("SUB"@[0] != "EXP"@[0]);
            reveal_strlit("SUBI");
            assert("SUBI"@.len() != "EXP"@.len());
            reveal_strlit("SUBU");
            assert("SUBU"@.len() != "EXP"@.len());
            reveal_strlit("SUBF");
            assert("SUBF"@.len() != "EXP"@.len());
            reveal_strlit("MUL");
            assert("MUL"@[0] != "EXP"@[0]);
            reveal_strlit("MULI");
            assert("MULI"@.len() != "EXP"@.len());
            reveal_strlit("MULU");
            assert("MULU"@.len() != "EXP"@.len());
            reveal_strlit("MULF");
            assert("MULF"@.len() != "EXP"@.len());
            reveal_strlit("DIV");
            assert("DIV"@[0] != "EXP"@[0]);
            reveal_strlit("DIVI");
            assert("DIVI"@.len() != "EXP"@.len());
            reveal_strlit("DIVU");
            assert("DIVU"@.len() != "EXP"@.len());
            reveal_strlit("DIVF");
            assert("DIVF"@.len() != "EXP"@.len());
            reveal_strlit("MOD");
            assert("MOD"@[0] != "EXP"@[0]);
            reveal_strlit("MODI");
            assert("MODI"@.len() != "EXP"@.len());
            reveal_strlit("MODU");
            assert("MODU"@.len() != "EXP"@.len());
        }
    }
    if op == OP_EXP_I {
        assert(plain_word(display_name(OP_EXP_I)) && mnemonic(display_name(OP_EXP_I)) == Some(OP_EXP_I)) by {
            reveal_strlit("EXPI");
            reveal_strlit("EXIT");
            assert("EXIT"@[2] != "EXPI"@[2]);
            reveal_strlit("EXIT_IMM");
            assert("EXIT_IMM"@.len() != "EXPI"@.len());
            reveal_strlit("PUSHI");
            assert("PUSHI"@.len() != "EXPI"@.len());
            reveal_strlit("PUSHU");
            assert("PUSHU"@.len() != "EXPI"@.len());
            reveal_strlit("PUSHF");
            assert("PUSHF"@.len() != "EXPI"@.len());
            reveal_strlit("PUSHB");
            assert("PUSHB"@.len() != "EXPI"@.len());
            reveal_strlit("PUSHS");
            assert("PUSHS"@.len() != "EXPI"@.len());
            reveal_strlit("POP");
            assert("POP"@.len() != "EXPI"@.len());
            reveal_strlit("DUP");
            assert("DUP"@.len() != "EXPI"@.len());
            reveal_strlit("SWAP");
            assert("SWAP"@[0] != "EXPI"@[0]);
            reveal_strlit("ADD");
            assert("ADD"@.len() != "EXPI"@.len());
            reveal_strlit("ADDI");
            assert("ADDI"@[0] != "EXPI"@[0]);
            reveal_strlit("ADDU");
            assert("ADDU"@[0] != "EXPI"@[0]);
            reveal_strlit("ADDF");
            assert("ADDF"@[0] != "EXPI"@[0]);
            reveal_strlit("SUB");
            assert("SUB"@.len() != "EXPI"@.len());
            reveal_strlit("SUBI");
            assert("SUBI"@[0] != "EXPI"@[0]);
            reveal_strlit("SUBU");
            assert("SUBU"@[0] != "EXPI"@[0]);
            reveal_strlit("SUBF");
            assert("SUBF"@[0] != "EXPI"@[0]);
            reveal_strlit("MUL");
            assert("MUL"@.len() != "EXPI"@.len());
            reveal_strlit("MULI");
            assert("MULI"@[0] != "EXPI"@[0]);
            reveal_strlit("MULU");
            assert("MULU"@[0] != "EXPI"@[0]);
            reveal_strlit("MULF");
            assert("MULF"@[0] != "EXPI"@[0]);
            reveal_strlit("DIV");
            assert("DIV"@.len() != "EXPI"@.len());
            reveal_strlit("DIVI");
            assert("DIVI"@[0] != "EXPI"@[0]);
            reveal_strlit("DIVU");
            assert("DIVU"@[0] != "EXPI"@[0]);
            reveal_strlit("DIVF");
            assert("DIVF"@[0] != "EXPI"@[0]);
            reveal_strlit("MOD");
            assert("MOD"@.len() != "EXPI"@.len());
            reveal_strlit("MODI");
            assert("MODI"@[0] != "EXPI"@[0]);
            reveal_strlit("MODU");
            assert("MODU"@[0] != "EXPI"@[0]);
            reveal_strlit("EXP");
            assert("EXP"@.len() != "EXPI"@.len());
        }
    }
    if op == OP_EXP_U {
        assert(plain_word(display_name(OP_EXP_U)) && mnemonic(display_name(OP_EXP_U)) == Some(OP_EXP_U)) by {
            reveal_strlit("EXPU");
            reveal_strlit("EXIT");
            assert("EXIT"@[2] != "EXPU"@[2]);
            reveal_strlit("EXIT_IMM");
            assert("EXIT_IMM"@.len() != "EXPU"@.len());
            reveal_strlit("PUSHI");
            assert("PUSHI"@.len() != "EXPU"@.len());
            reveal_strlit("PUSHU");
            assert("PUSHU"@.len() != "EXPU"@.len());
            reveal_strlit("PUSHF");
            assert("PUSHF"@.len() != "EXPU"@.len());
            reveal_strlit("PUSHB");
            assert("PUSHB"@.len() != "EXPU"@.len());
            reveal_strlit("PUSHS");
            assert("PUSHS"@.len() != "EXPU"@.len());
            reveal_strlit("POP");
            assert("POP"@.len() != "EXPU"@.len());
            reveal_strlit("DUP");
            assert("DUP"@.len() != "EXPU"@.len());
            reveal_strlit("SWAP");
            assert("SWAP"@[0] != "EXPU"@[0]);
            reveal_strlit("ADD");
            assert("ADD"@.len() != "EXPU"@.len());
            reveal_strlit("ADDI");
            assert("ADDI"@[0] != "EXPU"@[0]);
            reveal_strlit("ADDU");
            assert("ADDU"@[0] != "EXPU"@[0]);
            reveal_strlit("ADDF");
            assert("ADDF"@[0] != "EXPU"@[0]);
            reveal_strlit("SUB");
            assert("SUB"@.len() != "EXPU"@.len());
            reveal_strlit("SUBI");
            assert("SUBI"@[0] != "EXPU"@[0]);
            reveal_strlit("SUBU");
            assert("SUBU"@[0] != "EXPU"@[0]);
            reveal_strlit("SUBF");
            assert("SUBF"@[0] != "EXPU"@[0]);
            reveal_strlit("MUL");
            assert("MUL"@.len() != "EXPU"@.len());
            reveal_strlit("MULI");
            assert("MULI"@[0] != "EXPU"@[0]);
            reveal_strlit("MULU");
            assert("MULU"@[0] != "EXPU"@[0]);
            reveal_strlit("MULF");
            assert("MULF"@[0] != "EXPU"@[0]);
            reveal_strlit("DIV");
            assert("DIV"@.len() != "EXPU"@.len());
            reveal_strlit("DIVI");
            assert("DIVI"@[0] != "EXPU"@[0]);
            reveal_strlit("DIVU");
            assert("DIVU"@[0] != "EXPU"@[0]);
            reveal_strlit("DIVF");
            assert("DIVF"@[0] != "EXPU"@[0]);
            reveal_strlit("MOD");
            assert("MOD"@.len() != "EXPU"@.len());
            reveal_strlit("MODI");
            assert("MODI"@[0] != "EXPU"@[0]);
            reveal_strlit("MODU");
            assert("MODU"@[0] != "EXPU"@[0]);
            reveal_strlit("EXP");
            assert("EXP"@.len() != "EXPU"@.len());
            reveal_strlit("EXPI");
            assert("EXPI"@[3] != "EXPU"@[3]);
        }
    }
    if op == OP_EXP_F {
        assert(plain_word(display_name(OP_EXP_F)) && mnemonic(display_name(OP_EXP_F)) == Some(OP_EXP_F)) by {
            reveal_strlit("EXPF");
            reveal_strlit("EXIT");
            assert("EXIT"@[2] != "EXPF"@[2]);
            reveal_strlit("EXIT_IMM");
            assert("EXIT_IMM"@.len() != "EXPF"@.len());
            reveal_strlit("PUSHI");
            assert("PUSHI"@.len() != "EXPF"@.len());
            reveal_strlit("PUSHU");
            assert("PUSHU"@.len() != "EXPF"@.len());
            reveal_strlit("PUSHF");
            assert("PUSHF"@.len() != "EXPF"@.len());
            reveal_strlit("PUSHB");
            assert("PUSHB"@.len() != "EXPF"@.len());
            reveal_strlit("PUSHS");
            assert("PUSHS"@.len() != "EXPF"@.len());
            reveal_strlit("POP");
            assert("POP"@.len() != "EXPF"@.len());
            reveal_strlit("DUP");
            assert("DUP"@.len() != "EXPF"@.len());
            reveal_strlit("SWAP");
            assert("SWAP"@[0] != "EXPF"@[0]);
            reveal_strlit("ADD");
            assert("ADD"@.len() != "EXPF"@.len());
            reveal_strlit("ADDI");
            assert("ADDI"@[0] != "EXPF"@[0]);
            reveal_strlit("ADDU");
            assert("ADDU"@[0] != "EXPF"@[0]);
            reveal_strlit("ADDF");
            assert("ADDF"@[0] != "EXPF"@[0]);
            reveal_strlit("SUB");
            assert("SUB"@.len() != "EXPF"@.len());
            reveal_strlit("SUBI");
            assert("SUBI"@[0] != "EXPF"@[0]);
            reveal_strlit("SUBU");
            assert("SUBU"@[0] != "EXPF"@[0]);
            reveal_strlit("SUBF");
            assert("SUBF"@[0] != "EXPF"@[0]);
            reveal_strlit("MUL");
            assert("MUL"@.len() != "EXPF"@.len());
            reveal_strlit("MULI");
            assert("MULI"@[0] != "EXPF"@[0]);
            reveal_strlit("MULU");
            assert("MULU"@[0] != "EXPF"@[0]);
            reveal_strlit("MULF");
            assert("MULF"@[0] != "EXPF"@[0]);
            reveal_strlit("DIV");
            assert("DIV"@.len() != "EXPF"@.len());
            reveal_strlit("DIVI");
            assert("DIVI"@[0] != "EXPF"@[0]);
            reveal_strlit("DIVU");
            assert("DIVU"@[0] != "EXPF"@[0]);
            reveal_strlit("DIVF");
            assert("DIVF"@[0] != "EXPF"@[0]);
            reveal_strlit("MOD");
            assert("MOD"@.len() != "EXPF"@.len());
            reveal_strlit("MODI");
            assert("MODI"@[0] != "EXPF"@[0]);
            reveal_strlit("MODU");
            assert("MODU"@[0] != "EXPF"@[0]);
            reveal_strlit("EXP");
            assert("EXP"@.len() != "EXPF"@.len());
            reveal_strlit("EXPI");
            assert("EXPI"@[3] != "EXPF"@[3]);
            reveal_strlit("EXPU");
            assert("EXPU"@[3] != "EXPF"@[3]);
        }
    }
    if op == OP_LOAD {
        assert(plain_word(display_name(OP_LOAD)) && mnemonic(display_name(OP_LOAD)) == Some(OP_LOAD)) by {
            reveal_strlit("LOAD");
            reveal_strlit("EXIT");
            assert("EXIT"@[0] != "LOAD"@[0]);
            reveal_strlit("EXIT_IMM");
            assert("EXIT_IMM"@.len() != "LOAD"@.len());
            reveal_strlit("PUSHI");
            assert("PUSHI"@.len() != "LOAD"@.len());
            reveal_strlit("PUSHU");
            assert("PUSHU"@.len() != "LOAD"@.len());
            reveal_strlit("PUSHF");
            assert("PUSHF"@.len() != "LOAD"@.len());
            reveal_strlit("PUSHB");
            assert("PUSHB"@.len() != "LOAD"@.len());
            reveal_strlit("PUSHS");
            assert("PUSHS"@.len() != "LOAD"@.len());
            reveal_strlit("POP");
            assert("POP"@.len() != "LOAD"@.len());
            reveal_strlit("DUP");
            assert("DUP"@.len() != "LOAD"@.len());
            reveal_strlit("SWAP");
            assert("SWAP"@[0] != "LOAD"@[0]);
            reveal_strlit("ADD");
            assert("ADD"@.len() != "LOAD"@.len());
            reveal_strlit("ADDI");
            assert("ADDI"@[0] != "LOAD"@[0]);
            reveal_strlit("ADDU");
            assert("ADDU"@[0] != "LOAD"@[0]);
            reveal_strlit("ADDF");
            assert("ADDF"@[0] != "LOAD"@[0]);
            reveal_strlit("SUB");
            assert("SUB"@.len() != "LOAD"@.len());
            reveal_strlit("SUBI");
            assert("SUBI"@[0] != "LOAD"@[0]);
            reveal_strlit("SUBU");
            assert("SUBU"@[0] != "LOAD"@[0]);
            reveal_strlit("SUBF");
            assert("SUBF"@[0] != "LOAD"@[0]);
            reveal_strlit("MUL");
            assert("MUL"@.len() != "LOAD"@.len());
            reveal_strlit("MULI");
            assert("MULI"@[0] != "LOAD"@[0]);
            reveal_strlit("MULU");
            assert("MULU"@[0] != "LOAD"@[0]);
            reveal_strlit("MULF");
            assert("MULF"@[0] != "LOAD"@[0]);
            reveal_strlit("DIV");
            assert("DIV"@.len() != "LOAD"@.len());
            reveal_strlit("DIVI");
            assert("DIVI"@[0] != "LOAD"@[0]);
            reveal_strlit("DIVU");
            assert("DIVU"@[0] != "LOAD"@[0]);
            reveal_strlit("DIVF");
            assert("DIVF"@[0] != "LOAD"@[0]);
            reveal_strlit("MOD");
            assert("MOD"@.len() != "LOAD"@.len());
            reveal_strlit("MODI");
            assert("MODI"@[0] != "LOAD"@[0]);
            reveal_strlit("MODU");
            assert("MODU"@[0] != "LOAD"@[0]);
            reveal_strlit("EXP");
            assert("EXP"@.len() != "LOAD"@.len());
            reveal_strlit("EXPI");
            assert("EXPI"@[0] != "LOAD"@[0]);
            reveal_strlit("EXPU");
            assert("EXPU"@[0] != "LOAD"@[0]);
            reveal_strlit("EXPF");
            assert("EXPF"@[0] != "LOAD"@[0]);
        }
    }
    if op == OP_LOAD_IMM {
        assert(plain_word(display_name(OP_LOAD_IMM)) && mnemonic(display_name(OP_LOAD_IMM)) == Some(OP_LOAD_IMM)) by {
            reveal_strlit("LOAD_IMM");
            reveal_strlit("EXIT");
            assert("EXIT"@.len() != "LOAD_IMM"@.len());
            reveal_strlit("EXIT_IMM");
            assert("EXIT_IMM"@[0] != "LOAD_IMM"@[0]);
            reveal_strlit("PUSHI");
            assert("PUSHI"@.len() != "LOAD_IMM"@.len());
            reveal_strlit("PUSHU");
            assert("PUSHU"@.len() != "LOAD_IMM"@.len());
            reveal_strlit("PUSHF");
            assert("PUSHF"@.len() != "LOAD_IMM"@.len());
            reveal_strlit("PUSHB");
            assert("PUSHB"@.len() != "LOAD_IMM"@.len());
            reveal_strlit("PUSHS");
            assert("PUSHS"@.len() != "LOAD_IMM"@.len());
            reveal_strlit("POP");
            assert("POP"@.len() != "LOAD_IMM"@.len());
            reveal_strlit("DUP");
            assert("DUP"@.len() != "LOAD_IMM"@.len());
            reveal_strlit("SWAP");
            assert("SWAP"@.len() != "LOAD_IMM"@.len());
            reveal_strlit("ADD");
            assert("ADD"@.len() != "LOAD_IMM"@.len());
            reveal_strlit("ADDI");
            assert("ADDI"@.len() != "LOAD_IMM"@.len());
            reveal_strlit("ADDU");
            assert("ADDU"@.len() != "LOAD_IMM"@.len());
            reveal_strlit("ADDF");
            assert("ADDF"@.len() != "LOAD_IMM"@.len());
            reveal_strlit("SUB");
            assert("SUB"@.len() != "LOAD_IMM"@.len());
            reveal_strlit("SUBI");
            assert("SUBI"@.len() != "LOAD_IMM"@.len());
            reveal_strlit("SUBU");
            assert("SUBU"@.len() != "LOAD_IMM"@.len());
            reveal_strlit("SUBF");
            assert("SUBF"@.len() != "LOAD_IMM"@.len());
            reveal_strlit("MUL");
            assert("MUL"@.len() != "LOAD_IMM"@.len());
            reveal_strlit("MULI");
            assert("MULI"@.len() != "LOAD_IMM"@.len());
            reveal_strlit("MULU");
            assert("MULU"@.len() != "LOAD_IMM"@.len());
            reveal_strlit("MULF");
            assert("MULF"@.len() != "LOAD_IMM"@.len());
            reveal_strlit("DIV");
            assert("DIV"@.len() != "LOAD_IMM"@.len());
            reveal_strlit("DIVI");
            assert("DIVI"@.len() != "LOAD_IMM"@.len());
            reveal_strlit("DIVU");
            assert("DIVU"@.len() != "LOAD_IMM"@.len());
            reveal_strlit("DIVF");
            assert("DIVF"@.len() != "LOAD_IMM"@.len());
            reveal_strlit("MOD");
            assert("MOD"@.len() != "LOAD_IMM"@.len());
            reveal_strlit("MODI");
            assert("MODI"@.len() != "LOAD_IMM"@.len());
            reveal_strlit("MODU");
            assert("MODU"@.len() != "LOAD_IMM"@.len());
            reveal_strlit("EXP");
            assert("EXP"@.len() != "LOAD_IMM"@.len());
            reveal_strlit("EXPI");
            assert("EXPI"@.len() != "LOAD_IMM"@.len());
            reveal_strlit("EXPU");
            assert("EXPU"@.len() != "LOAD_IMM"@.len());
            reveal_strlit("EXPF");
            assert("EXPF"@.len() != "LOAD_IMM"@.len());
            reveal_strlit("LOAD");
            assert("LOAD"@.len() != "LOAD_IMM"@.len());
        }
    }
    if op == OP_STORE {
        assert(plain_word(display_name(OP_STORE)) && mnemonic(display_name(OP_STORE)) == Some(OP_STORE)) by {
            reveal_strlit("STORE");
            reveal_strlit("EXIT");
            assert("EXIT"@.len() != "STORE"@.len());
            reveal_strlit("EXIT_IMM");
            assert("EXIT_IMM"@.len() != "STORE"@.len());
            reveal_strlit("PUSHI");
            assert("PUSHI"@[0] != "STORE"@[0]);
            reveal_strlit("PUSHU");
            assert("PUSHU"@[0] != "STORE"@[0]);
            reveal_strlit("PUSHF");
            assert("PUSHF"@[0] != "STORE"@[0]);
            reveal_strlit("PUSHB");
            assert("PUSHB"@[0] != "STORE"@[0]);
            reveal_strlit("PUSHS");
            assert("PUSHS"@[0] != "STORE"@[0]);
            reveal_strlit("POP");
            assert("POP"@.len() != "STORE"@.len());
            reveal_strlit("DUP");
            assert("DUP"@.len() != "STORE"@.len());
            reveal_strlit("SWAP");
            assert("SWAP"@.len() != "STORE"@.len());
            reveal_strlit("ADD");
            assert("ADD"@.len() != "STORE"@.len());
            reveal_strlit("ADDI");
            assert("ADDI"@.len() != "STORE"@.len());
            reveal_strlit("ADDU");
            assert("ADDU"@.len() != "STORE"@.len());
            reveal_strlit("ADDF");
            assert("ADDF"@.len() != "STORE"@.len());
            reveal_strlit("SUB");
            assert("SUB"@.len() != "STORE"@.len());
            reveal_strlit("SUBI");
            assert("SUBI"@.len() != "STORE"@.len());
            reveal_strlit("SUBU");
            assert("SUBU"@.len() != "STORE"@.len());
            reveal_strlit("SUBF");
            assert("SUBF"@.len() != "STORE"@.len());
            reveal_strlit("MUL");
            assert("MUL"@.len() != "STORE"@.len());
            reveal_strlit("MULI");
            assert("MULI"@.len() != "STORE"@.len());
            reveal_strlit("MULU");
            assert("MULU"@.len() != "STORE"@.len());
            reveal_strlit("MULF");
            assert("MULF"@.len() != "STORE"@.len());
            reveal_strlit("DIV");
            assert("DIV"@.len() != "STORE"@.len());
            reveal_strlit("DIVI");
            assert("DIVI"@.len() != "STORE"@.len());
            reveal_strlit("DIVU");
            assert("DIVU"@.len() != "STORE"@.len());
            reveal_strlit("DIVF");
            assert("DIVF"@.len() != "STORE"@.len());
            reveal_strlit("MOD");
            assert("MOD"@.len() != "STORE"@.len());
            reveal_strlit("MODI");
            assert("MODI"@.len() != "STORE"@.len());
            reveal_strlit("MODU");
            assert("MODU"@.len() != "STORE"@.len());
            reveal_strlit("EXP");
            assert("EXP"@.len() != "STORE"@.len());
            reveal_strlit("EXPI");
            assert("EXPI"@.len() != "STORE"@.len());
            reveal_strlit("EXPU");
            assert("EXPU"@.len() != "STORE"@.len());
            reveal_strlit("EXPF");
            assert("EXPF"@.len() != "STORE"@.len());
            reveal_strlit("LOAD");
            assert("LOAD"@.len() != "STORE"@.len());
            reveal_strlit("LOAD_IMM");
            assert("LOAD_IMM"@.len() != "STORE"@.len());
        }
    }
    if op == OP_STORE_IMM {
        assert(plain_word(display_name(OP_STORE_IMM)) && mnemonic(display_name(OP_STORE_IMM)) == Some(OP_STORE_IMM)) by {
            reveal_strlit("STORE_IMM");
            reveal_strlit("EXIT");
            assert("EXIT"@.len() != "STORE_IMM"@.len());
            reveal_strlit("EXIT_IMM");
            assert("EXIT_IMM"@.len() != "STORE_IMM"@.len());
            reveal_strlit("PUSHI");
            assert("PUSHI"@.len() != "STORE_IMM"@.len());
            reveal_strlit("PUSHU");
            assert("PUSHU"@.len() != "STORE_IMM"@.len());
            reveal_strlit("PUSHF");
            assert("PUSHF"@.len() != "STORE_IMM"@.len());
            reveal_strlit("PUSHB");
            assert("PUSHB"@.len() != "STORE_IMM"@.len());
            reveal_strlit("PUSHS");
            assert("PUSHS"@.len() != "STORE_IMM"@.len());
            reveal_strlit("POP");
            assert("POP"@.len() != "STORE_IMM"@.len());
            reveal_strlit("DUP");
            assert("DUP"@.len() != "STORE_IMM"@.len());
            reveal_strlit("SWAP");
            assert("SWAP"@.len() != "STORE_IMM"@.len());
            reveal_strlit("ADD");
            assert("ADD"@.len() != "STORE_IMM"@.len());
            reveal_strlit("ADDI");
            assert("ADDI"@.len() != "STORE_IMM"@.len());
            reveal_strlit("ADDU");
            assert("ADDU"@.len() != "STORE_IMM"@.len());
            reveal_strlit("ADDF");
            assert("ADDF"@.len() != "STORE_IMM"@.len());
            reveal_strlit("SUB");
            assert("SUB"@.len() != "STORE_IMM"@.len());
            reveal_strlit("SUBI");
            assert("SUBI"@.len() != "STORE_IMM"@.len());
            reveal_strlit("SUBU");
            assert("SUBU"@.len() != "STORE_IMM"@.len());
            reveal_strlit("SUBF");
            assert("SUBF"@.len() != "STORE_IMM"@.len());
            reveal_strlit("MUL");
            assert("MUL"@.len() != "STORE_IMM"@.len());
            reveal_strlit("MULI");
            assert("MULI"@.len() != "STORE_IMM"@.len());
            reveal_strlit("MULU");
            assert("MULU"@.len() != "STORE_IMM"@.len());
            reveal_strlit("MULF");
            assert("MULF"@.len() != "STORE_IMM"@.len());
            reveal_strlit("DIV");
            assert("DIV"@.len() != "STORE_IMM"@.len());
            reveal_strlit("DIVI");
            assert("DIVI"@.len() != "STORE_IMM"@.len());
            reveal_strlit("DIVU");
            assert("DIVU"@.len() != "STORE_IMM"@.len());
            reveal_strlit("DIVF");
            assert("DIVF"@.len() != "STORE_IMM"@.len());
            reveal_strlit("MOD");
            assert("MOD"@.len() != "STORE_IMM"@.len());
            reveal_strlit("MODI");
            assert("MODI"@.len() != "STORE_IMM"@.len());
            reveal_strlit("MODU");
            assert("MODU"@.len() != "STORE_IMM"@.len());
            reveal_strlit("EXP");
            assert("EXP"@.len() != "STORE_IMM"@.len());
            reveal_strlit("EXPI");
            assert("EXPI"@.len() != "STORE_IMM"@.len());
            reveal_strlit("EXPU");
            assert("EXPU"@.len() != "STORE_IMM"@.len());
            reveal_strlit("EXPF");
            assert("EXPF"@.len() != "STORE_IMM"@.len());
            reveal_strlit("LOAD");
            assert("LOAD"@.len() != "STORE_IMM"@.len());
            reveal_strlit("LOAD_IMM");
            assert("LOAD_IMM"@.len() != "STORE_IMM"@.len());
            reveal_strlit("STORE");
            assert("STORE"@.len() != "STORE_IMM"@.len());
        }
    }
    if op == OP_FREE {
        assert(plain_word(display_name(OP_FREE)) && mnemonic(display_name(OP_FREE)) == Some(OP_FREE)) by {
            reveal_strlit("FREE");
            reveal_strlit("EXIT");
            assert("EXIT"@[0] != "FREE"@[0]);
            reveal_strlit("EXIT_IMM");
            assert("EXIT_IMM"@.len() != "FREE"@.len());
            reveal_strlit("PUSHI");
            assert("PUSHI"@.len() != "FREE"@.len());
            reveal_strlit("PUSHU");
            assert("PUSHU"@.len() != "FREE"@.len());
            reveal_strlit("PUSHF");
            assert("PUSHF"@.len() != "FREE"@.len());
            reveal_strlit("PUSHB");
            assert("PUSHB"@.len() != "FREE"@.len());
            reveal_strlit("PUSHS");
            assert("PUSHS"@.len() != "FREE"@.len());
            reveal_strlit("POP");
            assert("POP"@.len() != "FREE"@.len());
            reveal_strlit("DUP");
            assert("DUP"@.len() != "FREE"@.len());
            reveal_strlit("SWAP");
            assert("SWAP"@[0] != "FREE"@[0]);
            reveal_strlit("ADD");
            assert("ADD"@.len() != "FREE"@.len());
            reveal_strlit("ADDI");
            assert("ADDI"@[0] != "FREE"@[0]);
            reveal_strlit("ADDU");
            assert("ADDU"@[0] != "FREE"@[0]);
            reveal_strlit("ADDF");
            assert("ADDF"@[0] != "FREE"@[0]);
            reveal_strlit("SUB");
            assert("SUB"@.len() != "FREE"@.len());
            reveal_strlit("SUBI");
            assert("SUBI"@[0] != "FREE"@[0]);
            reveal_strlit("SUBU");
            assert("SUBU"@[0] != "FREE"@[0]);
            reveal_strlit("SUBF");
            assert("SUBF"@[0] != "FREE"@[0]);
            reveal_strlit("MUL");
            assert("MUL"@.len() != "FREE"@.len());
            reveal_strlit("MULI");
            assert("MULI"@[0] != "FREE"@[0]);
            reveal_strlit("MULU");
            assert("MULU"@[0] != "FREE"@[0]);
            reveal_strlit("MULF");
            assert("MULF"@[0] != "FREE"@[0]);
            reveal_strlit("DIV");
            assert("DIV"@.len() != "FREE"@.len());
            reveal_strlit("DIVI");
            assert("DIVI"@[0] != "FREE"@[0]);
            reveal_strlit("DIVU");
            assert("DIVU"@[0] != "FREE"@[0]);
            reveal_strlit("DIVF");
            assert("DIVF"@[0] != "FREE"@[0]);
            reveal_strlit("MOD");
            assert("MOD"@.len() != "FREE"@.len());
            reveal_strlit("MODI");
            assert("MODI"@[0] != "FREE"@[0]);
            reveal_strlit("MODU");
            assert("MODU"@[0] != "FREE"@[0]);
            reveal_strlit("EXP");
            assert("EXP"@.len() != "FREE"@.len());
            reveal_strlit("EXPI");
            assert("EXPI"@[0] != "FREE"@[0]);
            reveal_strlit("EXPU");
            assert("EXPU"@[0] != "FREE"@[0]);
            reveal_strlit("EXPF");
            assert("EXPF"@[0] != "FREE"@[0]);
            reveal_strlit("LOAD");
            assert("LOAD"@[0] != "FREE"@[0]);
            reveal_strlit("LOAD_IMM");
            assert("LOAD_IMM"@.len() != "FREE"@.len());
            reveal_strlit("STORE");
            assert("STORE"@.len() != "FREE"@.len());
            reveal_strlit("STORE_IMM");
            assert("STORE_IMM"@.len() != "FREE"@.len());
        }
    }
    if op == OP_FREE_IMM {
        assert(plain_word(display_name(OP_FREE_IMM)) && mnemonic(display_name(OP_FREE_IMM)) == Some(OP_FREE_IMM)) by {
            reveal_strlit("FREE_IMM");
            reveal_strlit("EXIT");
            assert("EXIT"@.len() != "FREE_IMM"@.len());
            reveal_strlit("EXIT_IMM");
            assert("EXIT_IMM"@[0] != "FREE_IMM"@[0]);
            reveal_strlit("PUSHI");
            assert("PUSHI"@.len() != "FREE_IMM"@.len());
            reveal_strlit("PUSHU");
            assert("PUSHU"@.len() != "FREE_IMM"@.len());
            reveal_strlit("PUSHF");
            assert("PUSHF"@.len() != "FREE_IMM"@.len());
            reveal_strlit("PUSHB");
            assert("PUSHB"@.len() != "FREE_IMM"@.len());
            reveal_strlit("PUSHS");
            assert("PUSHS"@.len() != "FREE_IMM"@.len());
            reveal_strlit("POP");
            assert("POP"@.len() != "FREE_IMM"@.len());
            reveal_strlit("DUP");
            assert("DUP"@.len() != "FREE_IMM"@.len());
            reveal_strlit("SWAP");
            assert("SWAP"@.len() != "FREE_IMM"@.len());
            reveal_strlit("ADD");
            assert("ADD"@.len() != "FREE_IMM"@.len());
            reveal_strlit("ADDI");
            assert("ADDI"@.len() != "FREE_IMM"@.len());
            reveal_strlit("ADDU");
            assert("ADDU"@.len() != "FREE_IMM"@.len());
            reveal_strlit("ADDF");
            assert("ADDF"@.len() != "FREE_IMM"@.len());
            reveal_strlit("SUB");
            assert("SUB"@.len() != "FREE_IMM"@.len());
            reveal_strlit("SUBI");
            assert("SUBI"@.len() != "FREE_IMM"@.len());
            reveal_strlit("SUBU");
            assert("SUBU"@.len() != "FREE_IMM"@.len());
            reveal_strlit("SUBF");
            assert("SUBF"@.len() != "FREE_IMM"@.len());
            reveal_strlit("MUL");
            assert("MUL"@.len() != "FREE_IMM"@.len());
            reveal_strlit("MULI");
            assert("MULI"@.len() != "FREE_IMM"@.len());
            reveal_strlit("MULU");
            assert("MULU"@.len() != "FREE_IMM"@.len());
            reveal_strlit("MULF");
            assert("MULF"@.len() != "FREE_IMM"@.len());
            reveal_strlit("DIV");
            assert("DIV"@.len() != "FREE_IMM"@.len());
            reveal_strlit("DIVI");
            assert("DIVI"@.len() != "FREE_IMM"@.len());
            reveal_strlit("DIVU");
            assert("DIVU"@.len() != "FREE_IMM"@.len());
            reveal_strlit("DIVF");
            assert("DIVF"@.len() != "FREE_IMM"@.len());
            reveal_strlit("MOD");
            assert("MOD"@.len() != "FREE_IMM"@.len());
            reveal_strlit("MODI");
            assert("MODI"@.len() != "FREE_IMM"@.len());
            reveal_strlit("MODU");
            assert("MODU"@.len() != "FREE_IMM"@.len());
            reveal_strlit("EXP");
            assert("EXP"@.len() != "FREE_IMM"@.len());
            reveal_strlit("EXPI");
            assert("EXPI"@.len() != "FREE_IMM"@.len());
            reveal_strlit("EXPU");
            assert("EXPU"@.len() != "FREE_IMM"@.len());
            reveal_strlit("EXPF");
            assert("EXPF"@.len() != "FREE_IMM"@.len());
            reveal_strlit("LOAD");
            assert("LOAD"@.len() != "FREE_IMM"@.len());
            reveal_strlit("LOAD_IMM");
            assert("LOAD_IMM"@[0] != "FREE_IMM"@[0]);
            reveal_strlit("STORE");
            assert("STORE"@.len() != "FREE_IMM"@.len());
            reveal_strlit("STORE_IMM");
            assert("STORE_IMM"@.len() != "FREE_IMM"@.len());
            reveal_strlit("FREE");
            assert("FREE"@.len() != "FREE_IMM"@.len());
        }
    }
    if op == OP_CMP_EQUAL {
        assert(plain_word(display_name(OP_CMP_EQUAL)) && mnemonic(display_name(OP_CMP_EQUAL)) == Some(OP_CMP_EQUAL)) by {
            reveal_strlit("CMPEQ");
            reveal_strlit("EXIT");
            assert("EXIT"@.len() != "CMPEQ"@.len());
            reveal_strlit("EXIT_IMM");
            assert("EXIT_IMM"@.len() != "CMPEQ"@.len());
            reveal_strlit("PUSHI");
            assert("PUSHI"@[0] != "CMPEQ"@[0]);
            reveal_strlit("PUSHU");
            assert("PUSHU"@[0] != "CMPEQ"@[0]);
            reveal_strlit("PUSHF");
            assert("PUSHF"@[0] != "CMPEQ"@[0]);
            reveal_strlit("PUSHB");
            assert("PUSHB"@[0] != "CMPEQ"@[0]);
            reveal_strlit("PUSHS");
            assert("PUSHS"@[0] != "CMPEQ"@[0]);
            reveal_strlit("POP");
            assert("POP"@.len() != "CMPEQ"@.len());
            reveal_strlit("DUP");
            assert("DUP"@.len() != "CMPEQ"@.len());
            reveal_strlit("SWAP");
            assert("SWAP"@.len() != "CMPEQ"@.len());
            reveal_strlit("ADD");
            assert("ADD"@.len() != "CMPEQ"@.len());
            reveal_strlit("ADDI");
            assert("ADDI"@.len() != "CMPEQ"@.len());
            reveal_strlit("ADDU");
            assert("ADDU"@.len() != "CMPEQ"@.len());
            reveal_strlit("ADDF");
            assert("ADDF"@.len() != "CMPEQ"@.len());
            reveal_strlit("SUB");
            assert("SUB"@.len() != "CMPEQ"@.len());
            reveal_strlit("SUBI");
            assert("SUBI"@.len() != "CMPEQ"@.len());
            reveal_strlit("SUBU");
            assert("SUBU"@.len() != "CMPEQ"@.len());
            reveal_strlit("SUBF");
            assert("SUBF"@.len() != "CMPEQ"@.len());
            reveal_strlit("MUL");
            assert("MUL"@.len() != "CMPEQ"@.len());
            reveal_strlit("MULI");
            assert("MULI"@.len() != "CMPEQ"@.len());
            reveal_strlit("MULU");
            assert("MULU"@.len() != "CMPEQ"@.len());
            reveal_strlit("MULF");
            assert("MULF"@.len() != "CMPEQ"@.len());
            reveal_strlit("DIV");
            assert("DIV"@.len() != "CMPEQ"@.len());
            reveal_strlit("DIVI");
            assert("DIVI"@.len() != "CMPEQ"@.len());
            reveal_strlit("DIVU");
            assert("DIVU"@.len() != "CMPEQ"@.len());
            reveal_strlit("DIVF");
            assert("DIVF"@.len() != "CMPEQ"@.len());
            reveal_strlit("MOD");
            assert("MOD"@.len() != "CMPEQ"@.len());
            reveal_strlit("MODI");
            assert("MODI"@.len() != "CMPEQ"@.len());
            reveal_strlit("MODU");
            assert("MODU"@.len() != "CMPEQ"@.len());
            reveal_strlit("EXP");
            assert("EXP"@.len() != "CMPEQ"@.len());
            reveal_strlit("EXPI");
            assert("EXPI"@.len() != "CMPEQ"@.len());
            reveal_strlit("EXPU");
            assert("EXPU"@.len() != "CMPEQ"@.len());
            reveal_strlit("EXPF");
            assert("EXPF"@.len() != "CMPEQ"@.len());
            reveal_strlit("LOAD");
            assert("LOAD"@.len() != "CMPEQ"@.len());
            reveal_strlit("LOAD_IMM");
            assert("LOAD_IMM"@.len() != "CMPEQ"@.len());
            reveal_strlit("STORE");
            assert("STORE"@[0] != "CMPEQ"@[0]);
            reveal_strlit("STORE_IMM");
            assert("STORE_IMM"@.len() != "CMPEQ"@.len());
            reveal_strlit("FREE");
            assert("FREE"@.len() != "CMPEQ"@.len());
            reveal_strlit("FREE_IMM");
            assert("FREE_IMM"@.len() != "CMPEQ"@.len());
        }
    }
    if op == OP_CMP_NOT_EQUAL {
        assert(plain_word(display_name(OP_CMP_NOT_EQUAL)) && mnemonic(display_name(OP_CMP_NOT_EQUAL)) == Some(OP_CMP_NOT_EQUAL)) by {
            reveal_strlit("CMPNE");
            reveal_strlit("EXIT");
            assert("EXIT"@.len() != "CMPNE"@.len());
            reveal_strlit("EXIT_IMM");
            assert("EXIT_IMM"@.len() != "CMPNE"@.len());
            reveal_strlit("PUSHI");
            assert("PUSHI"@[0] != "CMPNE"@[0]);
            reveal_strlit("PUSHU");
            assert("PUSHU"@[0] != "CMPNE"@[0]);
            reveal_strlit("PUSHF");
            assert("PUSHF"@[0] != "CMPNE"@[0]);
            reveal_strlit("PUSHB");
            assert("PUSHB"@[0] != "CMPNE"@[0]);
            reveal_strlit("PUSHS");
            assert("PUSHS"@[0] != "CMPNE"@[0]);
            reveal_strlit("POP");
            assert("POP"@.len() != "CMPNE"@.len());
            reveal_strlit("DUP");
            assert("DUP"@.len() != "CMPNE"@.len());
            reveal_strlit("SWAP");
            assert("SWAP"@.len() != "CMPNE"@.len());
            reveal_strlit("ADD");
            assert("ADD"@.len() != "CMPNE"@.len());
            reveal_strlit("ADDI");
            assert("ADDI"@.len() != "CMPNE"@.len());
            reveal_strlit("ADDU");
            assert("ADDU"@.len() != "CMPNE"@.len());
            reveal_strlit("ADDF");
            assert("ADDF"@.len() != "CMPNE"@.len());
            reveal_strlit("SUB");
            assert("SUB"@.len() != "CMPNE"@.len());
            reveal_strlit("SUBI");
            assert("SUBI"@.len() != "CMPNE"@.len());
            reveal_strlit("SUBU");
            assert("SUBU"@.len() != "CMPNE"@.len());
            reveal_strlit("SUBF");
            assert("SUBF"@.len() != "CMPNE"@.len());
            reveal_strlit("MUL");
            assert("MUL"@.len() != "CMPNE"@.len());
            reveal_strlit("MULI");
            assert("MULI"@.len() != "CMPNE"@.len());
            reveal_strlit("MULU");
            assert("MULU"@.len() != "CMPNE"@.len());
            reveal_strlit("MULF");
            assert("MULF"@.len() != "CMPNE"@.len());
            reveal_strlit("DIV");
            assert("DIV"@.len() != "CMPNE"@.len());
            reveal_strlit("DIVI");
            assert("DIVI"@.len() != "CMPNE"@.len());
            reveal_strlit("DIVU");
            assert("DIVU"@.len() != "CMPNE"@.len());
            reveal_strlit("DIVF");
            assert("DIVF"@.len() != "CMPNE"@.len());
            reveal_strlit("MOD");
            assert("MOD"@.len() != "CMPNE"@.len());
            reveal_strlit("MODI");
            assert("MODI"@.len() != "CMPNE"@.len());
            reveal_strlit("MODU");
            assert("MODU"@.len() != "CMPNE"@.len());
            reveal_strlit("EXP");
            assert("EXP"@.len() != "CMPNE"@.len());
            reveal_strlit("EXPI");
            assert("EXPI"@.len() != "CMPNE"@.len());
            reveal_strlit("EXPU");
            assert("EXPU"@.len() != "CMPNE"@.len());
            reveal_strlit("EXPF");
            assert("EXPF"@.len() != "CMPNE"@.len());
            reveal_strlit("LOAD");
            assert("LOAD"@.len() != "CMPNE"@.len());
            reveal_strlit("LOAD_IMM");
            assert("LOAD_IMM"@.len() != "CMPNE"@.len());
            reveal_strlit("STORE");
            assert("STORE"@[0] != "CMPNE"@[0]);
            reveal_strlit("STORE_IMM");
            assert("STORE_IMM"@.len() != "CMPNE"@.len());
            reveal_strlit("FREE");
            assert("FREE"@.len() != "CMPNE"@.len());
            reveal_strlit("FREE_IMM");
            assert("FREE_IMM"@.len() != "CMPNE"@.len());
            reveal_strlit("CMPEQ");
            assert("CMPEQ"@[3] != "CMPNE"@[3]);
        }
    }
    if op == OP_CMP_GREATER_THAN {
        assert(plain_word(display_name(OP_CMP_GREATER_THAN)) && mnemonic(display_name(OP_CMP_GREATER_THAN)) == Some(OP_CMP_GREATER_THAN)) by {
            reveal_strlit("CMPGT");
            reveal_strlit("EXIT");
            assert("EXIT"@.len() != "CMPGT"@.len());
            reveal_strlit("EXIT_IMM");
            assert("EXIT_IMM"@.len() != "CMPGT"@.len());
            reveal_strlit("PUSHI");
            assert("PUSHI"@[0] != "CMPGT"@[0]);
            reveal_strlit("PUSHU");
            assert("PUSHU"@[0] != "CMPGT"@[0]);
            reveal_strlit("PUSHF");
            assert("PUSHF"@[0] != "CMPGT"@[0]);
            reveal_strlit("PUSHB");
            assert("PUSHB"@[0] != "CMPGT"@[0]);
            reveal_strlit("PUSHS");
            assert("PUSHS"@[0] != "CMPGT"@[0]);
            reveal_strlit("POP");
            assert("POP"@.len() != "CMPGT"@.len());
            reveal_strlit("DUP");
            assert("DUP"@.len() != "CMPGT"@.len());
            reveal_strlit("SWAP");
            assert("SWAP"@.len() != "CMPGT"@.len());
            reveal_strlit("ADD");
            assert("ADD"@.len() != "CMPGT"@.len());
            reveal_strlit("ADDI");
            assert("ADDI"@.len() != "CMPGT"@.len());
            reveal_strlit("ADDU");
            assert("ADDU"@.len() != "CMPGT"@.len());
            reveal_strlit("ADDF");
            assert("ADDF"@.len() != "CMPGT"@.len());
            reveal_strlit("SUB");
            assert("SUB"@.len() != "CMPGT"@.len());
            reveal_strlit("SUBI");
            assert("SUBI"@.len() != "CMPGT"@.len());
            reveal_strlit("SUBU");
            assert("SUBU"@.len() != "CMPGT"@.len());
            reveal_strlit("SUBF");
            assert("SUBF"@.len() != "CMPGT"@.len());
            reveal_strlit("MUL");
            assert("MUL"@.len() != "CMPGT"@.len());
            reveal_strlit("MULI");
            assert("MULI"@.len() != "CMPGT"@.len());
            reveal_strlit("MULU");
            assert("MULU"@.len() != "CMPGT"@.len());
            reveal_strlit("MULF");
            assert("MULF"@.len() != "CMPGT"@.len());
            reveal_strlit("DIV");
            assert("DIV"@.len() != "CMPGT"@.len());
            reveal_strlit("DIVI");
            assert("DIVI"@.len() != "CMPGT"@.len());
            reveal_strlit("DIVU");
            assert("DIVU"@.len() != "CMPGT"@.len());
            reveal_strlit("DIVF");
            assert("DIVF"@.len() != "CMPGT"@.len());
            reveal_strlit("MOD");
            assert("MOD"@.len() != "CMPGT"@.len());
            reveal_strlit("MODI");
            assert("MODI"@.len() != "CMPGT"@.len());
            reveal_strlit("MODU");
            assert("MODU"@.len() != "CMPGT"@.len());
            reveal_strlit("EXP");
            assert("EXP"@.len() != "CMPGT"@.len());
            reveal_strlit("EXPI");
            assert("EXPI"@.len() != "CMPGT"@.len());
            reveal_strlit("EXPU");
            assert("EXPU"@.len() != "CMPGT"@.len());
            reveal_strlit("EXPF");
            assert("EXPF"@.len() != "CMPGT"@.len());
            reveal_strlit("LOAD");
            assert("LOAD"@.len() != "CMPGT"@.len());
            reveal_strlit("LOAD_IMM");
            assert("LOAD_IMM"@.len() != "CMPGT"@.len());
            reveal_strlit("STORE");
            assert("STORE"@[0] != "CMPGT"@[0]);
            reveal_strlit("STORE_IMM");
            assert("STORE_IMM"@.len() != "CMPGT"@.len());
            reveal_strlit("FREE");
            assert("FREE"@.len() != "CMPGT"@.len());
            reveal_strlit("FREE_IMM");
            assert("FREE_IMM"@.len() != "CMPGT"@.len());
            reveal_strlit("CMPEQ");
            assert("CMPEQ"@[3] != "CMPGT"@[3]);
            reveal_strlit("CMPNE");
            assert("CMPNE"@[3] != "CMPGT"@[3]);
        }
    }
    if op == OP_CMP_LESS_THAN {
        assert(plain_word(display_name(OP_CMP_LESS_THAN)) && mnemonic(display_name(OP_CMP_LESS_THAN)) == Some(OP_CMP_LESS_THAN)) by {
            reveal_strlit("CMPLT");
            reveal_strlit("EXIT");
            assert("EXIT"@.len() != "CMPLT"@.len());
            reveal_strlit("EXIT_IMM");
            assert("EXIT_IMM"@.len() != "CMPLT"@.len());
            reveal_strlit("PUSHI");
            assert("PUSHI"@[0] != "CMPLT"@[0]);
            reveal_strlit("PUSHU");
            assert("PUSHU"@[0] != "CMPLT"@[0]);
            reveal_strlit("PUSHF");
            assert("PUSHF"@[0] != "CMPLT"@[0]);
            reveal_strlit("PUSHB");
            assert("PUSHB"@[0] != "CMPLT"@[0]);
            reveal_strlit("PUSHS");
            assert("PUSHS"@[0] != "CMPLT"@[0]);
            reveal_strlit("POP");
            assert("POP"@.len() != "CMPLT"@.len());
            reveal_strlit("DUP");
            assert("DUP"@.len() != "CMPLT"@.len());
            reveal_strlit("SWAP");
            assert("SWAP"@.len() != "CMPLT"@.len());
            reveal_strlit("ADD");
            assert("ADD"@.len() != "CMPLT"@.len());
            reveal_strlit("ADDI");
            assert("ADDI"@.len() != "CMPLT"@.len());
            reveal_strlit("ADDU");
            assert("ADDU"@.len() != "CMPLT"@.len());
            reveal_strlit("ADDF");
            assert("ADDF"@.len() != "CMPLT"@.len());
            reveal_strlit("SUB");
            assert("SUB"@.len() != "CMPLT"@.len());
            reveal_strlit("SUBI");
            assert("SUBI"@.len() != "CMPLT"@.len());
            reveal_strlit("SUBU");
            assert("SUBU"@.len() != "CMPLT"@.len());
            reveal_strlit("SUBF");
            assert("SUBF"@.len() != "CMPLT"@.len());
            reveal_strlit("MUL");
            assert("MUL"@.len() != "CMPLT"@.len());
            reveal_strlit("MULI");
            assert("MULI"@.len() != "CMPLT"@.len());
            reveal_strlit("MULU");
            assert("MULU"@.len() != "CMPLT"@.len());
            reveal_strlit("MULF");
            assert("MULF"@.len() != "CMPLT"@.len());
            reveal_strlit("DIV");
            assert("DIV"@.len() != "CMPLT"@.len());
            reveal_strlit("DIVI");
            assert("DIVI"@.len() != "CMPLT"@.len());
            reveal_strlit("DIVU");
            assert("DIVU"@.len() != "CMPLT"@.len());
            reveal_strlit("DIVF");
            assert("DIVF"@.len() != "CMPLT"@.len());
            reveal_strlit("MOD");
            assert("MOD"@.len() != "CMPLT"@.len());
            reveal_strlit("MODI");
            assert("MODI"@.len() != "CMPLT"@.len());
            reveal_strlit("MODU");
            assert("MODU"@.len() != "CMPLT"@.len());
            reveal_strlit("EXP");
            assert("EXP"@.len() != "CMPLT"@.len());
            reveal_strlit("EXPI");
            assert("EXPI"@.len() != "CMPLT"@.len());
            reveal_strlit("EXPU");
            assert("EXPU"@.len() != "CMPLT"@.len());
            reveal_strlit("EXPF");
            assert("EXPF"@.len() != "CMPLT"@.len());
            reveal_strlit("LOAD");
            assert("LOAD"@.len() != "CMPLT"@.len());
            reveal_strlit("LOAD_IMM");
            assert("LOAD_IMM"@.len() != "CMPLT"@.len());
            reveal_strlit("STORE");
            assert("STORE"@[0] != "CMPLT"@[0]);
            reveal_strlit("STORE_IMM");
            assert("STORE_IMM"@.len() != "CMPLT"@.len());
            reveal_strlit("FREE");
            assert("FREE"@.len() != "CMPLT"@.len());
            reveal_strlit("FREE_IMM");
            assert("FREE_IMM"@.len() != "CMPLT"@.len());
            reveal_strlit("CMPEQ");
            assert("CMPEQ"@[3] != "CMPLT"@[3]);
            reveal_strlit("CMPNE");
            assert("CMPNE"@[3] != "CMPLT"@[3]);
            reveal_strlit("CMPGT");
            assert("CMPGT"@[3] != "CMPLT"@[3]);
        }
    }
    if op == OP_CMP_GREATER_EQUAL {
        assert(plain_word(display_name(OP_CMP_GREATER_EQUAL)) && mnemonic(display_name(OP_CMP_GREATER_EQUAL)) == Some(OP_CMP_GREATER_EQUAL)) by {
            reveal_strlit("CMPGE");
            reveal_strlit("EXIT");
            assert("EXIT"@.len() != "CMPGE"@.len());
            reveal_strlit("EXIT_IMM");
            assert("EXIT_IMM"@.len() != "CMPGE"@.len());
            reveal_strlit("PUSHI");
            assert("PUSHI"@[0] != "CMPGE"@[0]);
            reveal_strlit("PUSHU");
            assert("PUSHU"@[0] != "CMPGE"@[0]);
            reveal_strlit("PUSHF");
            assert("PUSHF"@[0] != "CMPGE"@[0]);
            reveal_strlit("PUSHB");
            assert("PUSHB"@[0] != "CMPGE"@[0]);
            reveal_strlit("PUSHS");
            assert("PUSHS"@[0] != "CMPGE"@[0]);
            reveal_strlit("POP");
            assert("POP"@.len() != "CMPGE"@.len());
            reveal_strlit("DUP");
            assert("DUP"@.len() != "CMPGE"@.len());
            reveal_strlit("SWAP");
            assert("SWAP"@.len() != "CMPGE"@.len());
            reveal_strlit("ADD");
            assert("ADD"@.len() != "CMPGE"@.len());
            reveal_strlit("ADDI");
            assert("ADDI"@.len() != "CMPGE"@.len());
            reveal_strlit("ADDU");
            assert("ADDU"@.len() != "CMPGE"@.len());
            reveal_strlit("ADDF");
            assert("ADDF"@.len() != "CMPGE"@.len());
            reveal_strlit("SUB");
            assert("SUB"@.len() != "CMPGE"@.len());
            reveal_strlit("SUBI");
            assert("SUBI"@.len() != "CMPGE"@.len());
            reveal_strlit("SUBU");
            assert("SUBU"@.len() != "CMPGE"@.len());
            reveal_strlit("SUBF");
            assert("SUBF"@.len() != "CMPGE"@.len());
            reveal_strlit("MUL");
            assert("MUL"@.len() != "CMPGE"@.len());
            reveal_strlit("MULI");
            assert("MULI"@.len() != "CMPGE"@.len());
            reveal_strlit("MULU");
            assert("MULU"@.len() != "CMPGE"@.len());
            reveal_strlit("MULF");
            assert("MULF"@.len() != "CMPGE"@.len());
            reveal_strlit("DIV");
            assert("DIV"@.len() != "CMPGE"@.len());
            reveal_strlit("DIVI");
            assert("DIVI"@.len() != "CMPGE"@.len());
            reveal_strlit("DIVU");
            assert("DIVU"@.len() != "CMPGE"@.len());
            reveal_strlit("DIVF");
            assert("DIVF"@.len() != "CMPGE"@.len());
            reveal_strlit("MOD");
            assert("MOD"@.len() != "CMPGE"@.len());
            reveal_strlit("MODI");
            assert("MODI"@.len() != "CMPGE"@.len());
            reveal_strlit("MODU");
            assert("MODU"@.len() != "CMPGE"@.len());
            reveal_strlit("EXP");
            assert("EXP"@.len() != "CMPGE"@.len());
            reveal_strlit("EXPI");
            assert("EXPI"@.len() != "CMPGE"@.len());
            reveal_strlit("EXPU");
            assert("EXPU"@.len() != "CMPGE"@.len());
            reveal_strlit("EXPF");
            assert("EXPF"@.len() != "CMPGE"@.len());
            reveal_strlit("LOAD");
            assert("LOAD"@.len() != "CMPGE"@.len());
            reveal_strlit("LOAD_IMM");
            assert("LOAD_IMM"@.len() != "CMPGE"@.len());
            reveal_strlit("STORE");
            assert("STORE"@[0] != "CMPGE"@[0]);
            reveal_strlit("STORE_IMM");
            assert("STORE_IMM"@.len() != "CMPGE"@.len());
            reveal_strlit("FREE");
            assert("FREE"@.len() != "CMPGE"@.len());
            reveal_strlit("FREE_IMM");
            assert("FREE_IMM"@.len() != "CMPGE"@.len());
            reveal_strlit("CMPEQ");
            assert("CMPEQ"@[3] != "CMPGE"@[3]);
            reveal_strlit("CMPNE");
            assert("CMPNE"@[3] != "CMPGE"@[3]);
            reveal_strlit("CMPGT");
            assert("CMPGT"@[4] != "CMPGE"@[4]);
            reveal_strlit("CMPLT");
            assert("CMPLT"@[3] != "CMPGE"@[3]);
        }
    }
    if op == OP_CMP_LESS_EQUAL {
        assert(plain_word(display_name(OP_CMP_LESS_EQUAL)) && mnemonic(display_name(OP_CMP_LESS_EQUAL)) == Some(OP_CMP_LESS_EQUAL)) by {
            reveal_strlit("CMPLE");
            reveal_strlit("EXIT");
            assert("EXIT"@.len() != "CMPLE"@.len());
            reveal_strlit("EXIT_IMM");
            assert("EXIT_IMM"@.len() != "CMPLE"@.len());
            reveal_strlit("PUSHI");
            assert("PUSHI"@[0] != "CMPLE"@[0]);
            reveal_strlit("PUSHU");
            assert("PUSHU"@[0] != "CMPLE"@[0]);
            reveal_strlit("PUSHF");
            assert("PUSHF"@[0] != "CMPLE"@[0]);
            reveal_strlit("PUSHB");
            assert("PUSHB"@[0] != "CMPLE"@[0]);
            reveal_strlit("PUSHS");
            assert("PUSHS"@[0] != "CMPLE"@[0]);
            reveal_strlit("POP");
            assert("POP"@.len() != "CMPLE"@.len());
            reveal_strlit("DUP");
            assert("DUP"@.len() != "CMPLE"@.len());
            reveal_strlit("SWAP");
            assert("SWAP"@.len() != "CMPLE"@.len());
            reveal_strlit("ADD");
            assert("ADD"@.len() != "CMPLE"@.len());
            reveal_strlit("ADDI");
            assert("ADDI"@.len() != "CMPLE"@.len());
            reveal_strlit("ADDU");
            assert("ADDU"@.len() != "CMPLE"@.len());
            reveal_strlit("ADDF");
            assert("ADDF"@.len() != "CMPLE"@.len());
            reveal_strlit("SUB");
            assert("SUB"@.len() != "CMPLE"@.len());
            reveal_strlit("SUBI");
            assert("SUBI"@.len() != "CMPLE"@.len());
            reveal_strlit("SUBU");
            assert("SUBU"@.len() != "CMPLE"@.len());
            reveal_strlit("SUBF");
            assert("SUBF"@.len() != "CMPLE"@.len());
            reveal_strlit("MUL");
            assert("MUL"@.len() != "CMPLE"@.len());
            reveal_strlit("MULI");
            assert("MULI"@.len() != "CMPLE"@.len());
            reveal_strlit("MULU");
            assert("MULU"@.len() != "CMPLE"@.len());
            reveal_strlit("MULF");
            assert("MULF"@.len() != "CMPLE"@.len());
            reveal_strlit("DIV");
            assert("DIV"@.len() != "CMPLE"@.len());
            reveal_strlit("DIVI");
            assert("DIVI"@.len() != "CMPLE"@.len());
            reveal_strlit("DIVU");
            assert("DIVU"@.len() != "CMPLE"@.len());
            reveal_strlit("DIVF");
            assert("DIVF"@.len() != "CMPLE"@.len());
            reveal_strlit("MOD");
            assert("MOD"@.len() != "CMPLE"@.len());
            reveal_strlit("MODI");
            assert("MODI"@.len() != "CMPLE"@.len());
            reveal_strlit("MODU");
            assert("MODU"@.len() != "CMPLE"@.len());
            reveal_strlit("EXP");
            assert("EXP"@.len() != "CMPLE"@.len());
            reveal_strlit("EXPI");
            assert("EXPI"@.len() != "CMPLE"@.len());
            reveal_strlit("EXPU");
            assert("EXPU"@.len() != "CMPLE"@.len());
            reveal_strlit("EXPF");
            assert("EXPF"@.len() != "CMPLE"@.len());
            reveal_strlit("LOAD");
            assert("LOAD"@.len() != "CMPLE"@.len());
            reveal_strlit("LOAD_IMM");
            assert("LOAD_IMM"@.len() != "CMPLE"@.len());
            reveal_strlit("STORE");
            assert("STORE"@[0] != "CMPLE"@[0]);
            reveal_strlit("STORE_IMM");
            assert("STORE_IMM"@.len() != "CMPLE"@.len());
            reveal_strlit("FREE");
            assert("FREE"@.len() != "CMPLE"@.len());
            reveal_strlit("FREE_IMM");
            assert("FREE_IMM"@.len() != "CMPLE"@.len());
            reveal_strlit("CMPEQ");
            assert("CMPEQ"@[3] != "CMPLE"@[3]);
            reveal_strlit("CMPNE");
            assert("CMPNE"@[3] != "CMPLE"@[3]);
            reveal_strlit("CMPGT");
            assert("CMPGT"@[3] != "CMPLE"@[3]);
            reveal_strlit("CMPLT");
            assert("CMPLT"@[4] != "CMPLE"@[4]);
            reveal_strlit("CMPGE");
            assert("CMPGE"@[3] != "CMPLE"@[3]);
        }
    }
    if op == OP_JUMP {
        assert(plain_word(display_name(OP_JUMP)) && mnemonic(display_name(OP_JUMP)) == Some(OP_JUMP)) by {
            reveal_strlit("JMP");
            reveal_strlit("EXIT");
            assert("EXIT"@.len() != "JMP"@.len());
            reveal_strlit("EXIT_IMM");
            assert("EXIT_IMM"@.len() != "JMP"@.len());
            reveal_strlit("PUSHI");
            assert("PUSHI"@.len() != "JMP"@.len());
            reveal_strlit("PUSHU");
            assert("PUSHU"@.len() != "JMP"@.len());
            reveal_strlit("PUSHF");
            assert("PUSHF"@.len() != "JMP"@.len());
            reveal_strlit("PUSHB");
            assert("PUSHB"@.len() != "JMP"@.len());
            reveal_strlit("PUSHS");
            assert("PUSHS"@.len() != "JMP"@.len());
            reveal_strlit("POP");
            assert("POP"@[0] != "JMP"@[0]);
            reveal_strlit("DUP");
            assert("DUP"@[0] != "JMP"@[0]);
            reveal_strlit("SWAP");
            assert("SWAP"@.len() != "JMP"@.len());
            reveal_strlit("ADD");
            assert("ADD"@[0] != "JMP"@[0]);
            reveal_strlit("ADDI");
            assert("ADDI"@.len() != "JMP"@.len());
            reveal_strlit("ADDU");
            assert("ADDU"@.len() != "JMP"@.len());
            reveal_strlit("ADDF");
            assert("ADDF"@.len() != "JMP"@.len());
            reveal_strlit("SUB");
            assert("SUB"@[0] != "JMP"@[0]);
            reveal_strlit("SUBI");
            assert("SUBI"@.len() != "JMP"@.len());
            reveal_strlit("SUBU");
            assert("SUBU"@.len() != "JMP"@.len());
            reveal_strlit("SUBF");
            assert("SUBF"@.len() != "JMP"@.len());
            reveal_strlit("MUL");
            assert("MUL"@[0] != "JMP"@[0]);
            reveal_strlit("MULI");
            assert("MULI"@.len() != "JMP"@.len());
            reveal_strlit("MULU");
            assert("MULU"@.len() != "JMP"@.len());
            reveal_strlit("MULF");
            assert("MULF"@.len() != "JMP"@.len());
            reveal_strlit("DIV");
            assert("DIV"@[0] != "JMP"@[0]);
            reveal_strlit("DIVI");
            assert("DIVI"@.len() != "JMP"@.len());
            reveal_strlit("DIVU");
            assert("DIVU"@.len() != "JMP"@.len());
            reveal_strlit("DIVF");
            assert("DIVF"@.len() != "JMP"@.len());
            reveal_strlit("MOD");
            assert("MOD"@[0] != "JMP"@[0]);
            reveal_strlit("MODI");
            assert("MODI"@.len() != "JMP"@.len());
            reveal_strlit("MODU");
            assert("MODU"@.len() != "JMP"@.len());
            reveal_strlit("EXP");
            assert("EXP"@[0] != "JMP"@[0]);
            reveal_strlit("EXPI");
            assert("EXPI"@.len() != "JMP"@.len());
            reveal_strlit("EXPU");
            assert("EXPU"@.len() != "JMP"@.len());
            reveal_strlit("EXPF");
            assert("EXPF"@.len() != "JMP"@.len());
            reveal_strlit("LOAD");
            assert("LOAD"@.len() != "JMP"@.len());
            reveal_strlit("LOAD_IMM");
            assert("LOAD_IMM"@.len() != "JMP"@.len());
            reveal_strlit("STORE");
            assert("STORE"@.len() != "JMP"@.len());
            reveal_strlit("STORE_IMM");
            assert("STORE_IMM"@.len() != "JMP"@.len());
            reveal_strlit("FREE");
            assert("FREE"@.len() != "JMP"@.len());
            reveal_strlit("FREE_IMM");
            assert("FREE_IMM"@.len() != "JMP"@.len());
            reveal_strlit("CMPEQ");
            assert("CMPEQ"@.len() != "JMP"@.len());
            reveal_strlit("CMPNE");
            assert("CMPNE"@.len() != "JMP"@.len());
            reveal_strlit("CMPGT");
            assert("CMPGT"@.len() != "JMP"@.len());
            reveal_strlit("CMPLT");
            assert("CMPLT"@.len() != "JMP"@.len());
            reveal_strlit("CMPGE");
            assert("CMPGE"@.len() != "JMP"@.len());
            reveal_strlit("CMPLE");
            assert("CMPLE"@.len() != "JMP"@.len());
        }
    }
    if op == OP_JUMP_IF {
        assert(plain_word(display_name(OP_JUMP_IF)) && mnemonic(display_name(OP_JUMP_IF)) == Some(OP_JUMP_IF)) by {
            reveal_strlit("JMPIF");
            reveal_strlit("EXIT");
            assert("EXIT"@.len() != "JMPIF"@.len());
            reveal_strlit("EXIT_IMM");
            assert("EXIT_IMM"@.len() != "JMPIF"@.len());
            reveal_strlit("PUSHI");
            assert("PUSHI"@[0] != "JMPIF"@[0]);
            reveal_strlit("PUSHU");
            assert("PUSHU"@[0] != "JMPIF"@[0]);
            reveal_strlit("PUSHF");
            assert("PUSHF"@[0] != "JMPIF"@[0]);
            reveal_strlit("PUSHB");
            assert("PUSHB"@[0] != "JMPIF"@[0]);
            reveal_strlit("PUSHS");
            assert("PUSHS"@[0] != "JMPIF"@[0]);
            reveal_strlit("POP");
            assert("POP"@.len() != "JMPIF"@.len());
            reveal_strlit("DUP");
            assert("DUP"@.len() != "JMPIF"@.len());
            reveal_strlit("SWAP");
            assert("SWAP"@.len() != "JMPIF"@.len());
            reveal_strlit("ADD");
            assert("ADD"@.len() != "JMPIF"@.len());
            reveal_strlit("ADDI");
            assert("ADDI"@.len() != "JMPIF"@.len());
            reveal_strlit("ADDU");
            assert("ADDU"@.len() != "JMPIF"@.len());
            reveal_strlit("ADDF");
            assert("ADDF"@.len() != "JMPIF"@.len());
            reveal_strlit("SUB");
            assert("SUB"@.len() != "JMPIF"@.len());
            reveal_strlit("SUBI");
            assert("SUBI"@.len() != "JMPIF"@.len());
            reveal_strlit("SUBU");
            assert("SUBU"@.len() != "JMPIF"@.len());
            reveal_strlit("SUBF");
            assert("SUBF"@.len() != "JMPIF"@.len());
            reveal_strlit("MUL");
            assert("MUL"@.len() != "JMPIF"@.len());
            reveal_strlit("MULI");
            assert("MULI"@.len() != "JMPIF"@.len());
            reveal_strlit("MULU");
            assert("MULU"@.len() != "JMPIF"@.len());
            reveal_strlit("MULF");
            assert("MULF"@.len() != "JMPIF"@.len());
            reveal_strlit("DIV");
            assert("DIV"@.len() != "JMPIF"@.len());
            reveal_strlit("DIVI");
            assert("DIVI"@.len() != "JMPIF"@.len());
            reveal_strlit("DIVU");
            assert("DIVU"@.len() != "JMPIF"@.len());
            reveal_strlit("DIVF");
            assert("DIVF"@.len() != "JMPIF"@.len());
            reveal_strlit("MOD");
            assert("MOD"@.len() != "JMPIF"@.len());
            reveal_strlit("MODI");
            assert("MODI"@.len() != "JMPIF"@.len());
            reveal_strlit("MODU");
            assert("MODU"@.len() != "JMPIF"@.len());
            reveal_strlit("EXP");
            assert("EXP"@.len() != "JMPIF"@.len());
            reveal_strlit("EXPI");
            assert("EXPI"@.len() != "JMPIF"@.len());
            reveal_strlit("EXPU");
            assert("EXPU"@.len() != "JMPIF"@.len());
            reveal_strlit("EXPF");
            assert("EXPF"@.len() != "JMPIF"@.len());
            reveal_strlit("LOAD");
            assert("LOAD"@.len() != "JMPIF"@.len());
            reveal_strlit("LOAD_IMM");
            assert("LOAD_IMM"@.len() != "JMPIF"@.len());
            reveal_strlit("STORE");
            assert("STORE"@[0] != "JMPIF"@[0]);
            reveal_strlit("STORE_IMM");
            assert("STORE_IMM"@.len() != "JMPIF"@.len());
            reveal_strlit("FREE");
            assert("FREE"@.len() != "JMPIF"@.len());
            reveal_strlit("FREE_IMM");
            assert("FREE_IMM"@.len() != "JMPIF"@.len());
            reveal_strlit("CMPEQ");
            assert("CMPEQ"@[0] != "JMPIF"@[0]);
            reveal_strlit("CMPNE");
            assert("CMPNE"@[0] != "JMPIF"@[0]);
            reveal_strlit("CMPGT");
            assert("CMPGT"@[0] != "JMPIF"@[0]);
            reveal_strlit("CMPLT");
            assert("CMPLT"@[0] != "JMPIF"@[0]);
            reveal_strlit("CMPGE");
            assert("CMPGE"@[0] != "JMPIF"@[0]);
            reveal_strlit("CMPLE");
            assert("CMPLE"@[0] != "JMPIF"@[0]);
            reveal_strlit("JMP");
            assert("JMP"@.len() != "JMPIF"@.len());
        }
    }
    if op == OP_CALL {
        assert(plain_word(display_name(OP_CALL)) && mnemonic(display_name(OP_CALL)) == Some(OP_CALL)) by {
            reveal_strlit("CALL");
            reveal_strlit("EXIT");
            assert("EXIT"@[0] != "CALL"@[0]);
            reveal_strlit("EXIT_IMM");
            assert("EXIT_IMM"@.len() != "CALL"@.len());
            reveal_strlit("PUSHI");
            assert("PUSHI"@.len() != "CALL"@.len());
            reveal_strlit("PUSHU");
            assert("PUSHU"@.len() != "CALL"@.len());
            reveal_strlit("PUSHF");
            assert("PUSHF"@.len() != "CALL"@.len());
            reveal_strlit("PUSHB");
            assert("PUSHB"@.len() != "CALL"@.len());
            reveal_strlit("PUSHS");
            assert("PUSHS"@.len() != "CALL"@.len());
            reveal_strlit("POP");
            assert("POP"@.len() != "CALL"@.len());
            reveal_strlit("DUP");
            assert("DUP"@.len() != "CALL"@.len());
            reveal_strlit("SWAP");
            assert("SWAP"@[0] != "CALL"@[0]);
            reveal_strlit("ADD");
            assert("ADD"@.len() != "CALL"@.len());
            reveal_strlit("ADDI");
            assert("ADDI"@[0] != "CALL"@[0]);
            reveal_strlit("ADDU");
            assert("ADDU"@[0] != "CALL"@[0]);
            reveal_strlit("ADDF");
            assert("ADDF"@[0] != "CALL"@[0]);
            reveal_strlit("SUB");
            assert("SUB"@.len() != "CALL"@.len());
            reveal_strlit("SUBI");
            assert("SUBI"@[0] != "CALL"@[0]);
            reveal_strlit("SUBU");
            assert("SUBU"@[0] != "CALL"@[0]);
            reveal_strlit("SUBF");
            assert("SUBF"@[0] != "CALL"@[0]);
            reveal_strlit("MUL");
            assert("MUL"@.len() != "CALL"@.len());
            reveal_strlit("MULI");
            assert("MULI"@[0] != "CALL"@[0]);
            reveal_strlit("MULU");
            assert("MULU"@[0] != "CALL"@[0]);
            reveal_strlit("MULF");
            assert("MULF"@[0] != "CALL"@[0]);
            reveal_strlit("DIV");
            assert("DIV"@.len() != "CALL"@.len());
            reveal_strlit("DIVI");
            assert("DIVI"@[0] != "CALL"@[0]);
            reveal_strlit("DIVU");
            assert("DIVU"@[0] != "CALL"@[0]);
            reveal_strlit("DIVF");
            assert("DIVF"@[0] != "CALL"@[0]);
            reveal_strlit("MOD");
            assert("MOD"@.len() != "CALL"@.len());
            reveal_strlit("MODI");
            assert("MODI"@[0] != "CALL"@[0]);
            reveal_strlit("MODU");
            assert("MODU"@[0] != "CALL"@[0]);
            reveal_strlit("EXP");
            assert("EXP"@.len() != "CALL"@.len());
            reveal_strlit("EXPI");
            assert("EXPI"@[0] != "CALL"@[0]);
            reveal_strlit("EXPU");
            assert("EXPU"@[0] != "CALL"@[0]);
            reveal_strlit("EXPF");
            assert("EXPF"@[0] != "CALL"@[0]);
            reveal_strlit("LOAD");
            assert("LOAD"@[0] != "CALL"@[0]);
            reveal_strlit("LOAD_IMM");
            assert("LOAD_IMM"@.len() != "CALL"@.len());
            reveal_strlit("STORE");
            assert("STORE"@.len() != "CALL"@.len());
            reveal_strlit("STORE_IMM");
            assert("STORE_IMM"@.len() != "CALL"@.len());
            reveal_strlit("FREE");
            assert("FREE"@[0] != "CALL"@[0]);
            reveal_strlit("FREE_IMM");
            assert("FREE_IMM"@.len() != "CALL"@.len());
            reveal_strlit("CMPEQ");
            assert("CMPEQ"@.len() != "CALL"@.len());
            reveal_strlit("CMPNE");
            assert("CMPNE"@.len() != "CALL"@.len());
            reveal_strlit("CMPGT");
            assert("CMPGT"@.len() != "CALL"@.len());
            reveal_strlit("CMPLT");
            assert("CMPLT"@.len() != "CALL"@.len());
            reveal_strlit("CMPGE");
            assert("CMPGE"@.len() != "CALL"@.len());
            reveal_strlit("CMPLE");
            assert("CMPLE"@.len() != "CALL"@.len());
            reveal_strlit("JMP");
            assert("JMP"@.len() != "CALL"@.len());
            reveal_strlit("JMPIF");
            assert("JMPIF"@.len() != "CALL"@.len());
        }
    }
    if op == OP_CALL_NATIVE {
        assert(plain_word(display_name(OP_CALL_NATIVE)) && mnemonic(display_name(OP_CALL_NATIVE)) == Some(OP_CALL_NATIVE)) by {
            reveal_strlit("CALLNATIVE");
            reveal_strlit("EXIT");
            assert("EXIT"@.len() != "CALLNATIVE"@.len());
            reveal_strlit("EXIT_IMM");
            assert("EXIT_IMM"@.len() != "CALLNATIVE"@.len());
            reveal_strlit("PUSHI");
            assert("PUSHI"@.len() != "CALLNATIVE"@.len());
            reveal_strlit("PUSHU");
            assert("PUSHU"@.len() != "CALLNATIVE"@.len());
            reveal_strlit("PUSHF");
            assert("PUSHF"@.len() != "CALLNATIVE"@.len());
            reveal_strlit("PUSHB");
            assert("PUSHB"@.len() != "CALLNATIVE"@.len());
            reveal_strlit("PUSHS");
            assert("PUSHS"@.len() != "CALLNATIVE"@.len());
            reveal_strlit("POP");
            assert("POP"@.len() != "CALLNATIVE"@.len());
            reveal_strlit("DUP");
            assert("DUP"@.len() != "CALLNATIVE"@.len());
            reveal_strlit("SWAP");
            assert("SWAP"@.len() != "CALLNATIVE"@.len());
            reveal_strlit("ADD");
            assert("ADD"@.len() != "CALLNATIVE"@.len());
            reveal_strlit("ADDI");
            assert("ADDI"@.len() != "CALLNATIVE"@.len());
            reveal_strlit("ADDU");
            assert("ADDU"@.len() != "CALLNATIVE"@.len());
            reveal_strlit("ADDF");
            assert("ADDF"@.len() != "CALLNATIVE"@.len());
            reveal_strlit("SUB");
            assert("SUB"@.len() != "CALLNATIVE"@.len());
            reveal_strlit("SUBI");
            assert("SUBI"@.len() != "CALLNATIVE"@.len());
            reveal_strlit("SUBU");
            assert("SUBU"@.len() != "CALLNATIVE"@.len());
            reveal_strlit("SUBF");
            assert("SUBF"@.len() != "CALLNATIVE"@.len());
            reveal_strlit("MUL");
            assert("MUL"@.len() != "CALLNATIVE"@.len());
            reveal_strlit("MULI");
            assert("MULI"@.len() != "CALLNATIVE"@.len());
            reveal_strlit("MULU");
            assert("MULU"@.len() != "CALLNATIVE"@.len());
            reveal_strlit("MULF");
            assert("MULF"@.len() != "CALLNATIVE"@.len());
            reveal_strlit("DIV");
            assert("DIV"@.len() != "CALLNATIVE"@.len());
            reveal_strlit("DIVI");
            assert("DIVI"@.len() != "CALLNATIVE"@.len());
            reveal_strlit("DIVU");
            assert("DIVU"@.len() != "CALLNATIVE"@.len());
            reveal_strlit("DIVF");
            assert("DIVF"@.len() != "CALLNATIVE"@.len());
            reveal_strlit("MOD");
            assert("MOD"@.len() != "CALLNATIVE"@.len());
            reveal_strlit("MODI");
            assert("MODI"@.len() != "CALLNATIVE"@.len());
            reveal_strlit("MODU");
            assert("MODU"@.len() != "CALLNATIVE"@.len());
            reveal_strlit("EXP");
            assert("EXP"@.len() != "CALLNATIVE"@.len());
            reveal_strlit("EXPI");
            assert("EXPI"@.len() != "CALLNATIVE"@.len());
            reveal_strlit("EXPU");
            assert("EXPU"@.len() != "CALLNATIVE"@.len());
            reveal_strlit("EXPF");
            assert("EXPF"@.len() != "CALLNATIVE"@.len());
            reveal_strlit("LOAD");
            assert("LOAD"@.len() != "CALLNATIVE"@.len());
            reveal_strlit("LOAD_IMM");
            assert("LOAD_IMM"@.len() != "CALLNATIVE"@.len());
            reveal_strlit("STORE");
            assert("STORE"@.len() != "CALLNATIVE"@.len());
            reveal_strlit("STORE_IMM");
            assert("STORE_IMM"@.len() != "CALLNATIVE"@.len());
            reveal_strlit("FREE");
            assert("FREE"@.len() != "CALLNATIVE"@.len());
            reveal_strlit("FREE_IMM");
            assert("FREE_IMM"@.len() != "CALLNATIVE"@.len());
            reveal_strlit("CMPEQ");
            assert("CMPEQ"@.len() != "CALLNATIVE"@.len());
            reveal_strlit("CMPNE");
            assert("CMPNE"@.len() != "CALLNATIVE"@.len());
            reveal_strlit("CMPGT");
            assert("CMPGT"@.len() != "CALLNATIVE"@.len());
            reveal_strlit("CMPLT");
            assert("CMPLT"@.len() != "CALLNATIVE"@.len());
            reveal_strlit("CMPGE");
            assert("CMPGE"@.len() != "CALLNATIVE"@.len());
            reveal_strlit("CMPLE");
            assert("CMPLE"@.len() != "CALLNATIVE"@.len());
            reveal_strlit("JMP");
            assert("JMP"@.len() != "CALLNATIVE"@.len());
            reveal_strlit("JMPIF");
            assert("JMPIF"@.len() != "CALLNATIVE"@.len());
            reveal_strlit("CALL");
            assert("CALL"@.len() != "CALLNATIVE"@.len());
        }
    }
    if op == OP_RET {
        assert(plain_word(display_name(OP_RET)) && mnemonic(display_name(OP_RET)) == Some(OP_RET)) by {
            reveal_strlit("RET");
            reveal_strlit("EXIT");
            assert("EXIT"@.len() != "RET"@.len());
            reveal_strlit("EXIT_IMM");
            assert("EXIT_IMM"@.len() != "RET"@.len());
            reveal_strlit("PUSHI");
            assert("PUSHI"@.len() != "RET"@.len());
            reveal_strlit("PUSHU");
            assert("PUSHU"@.len() != "RET"@.len());
            reveal_strlit("PUSHF");
            assert("PUSHF"@.len() != "RET"@.len());
            reveal_strlit("PUSHB");
            assert("PUSHB"@.len() != "RET"@.len());
            reveal_strlit("PUSHS");
            assert("PUSHS"@.len() != "RET"@.len());
            reveal_strlit("POP");
            assert("POP"@[0] != "RET"@[0]);
            reveal_strlit("DUP");
            assert("DUP"@[0] != "RET"@[0]);
            reveal_strlit("SWAP");
            assert("SWAP"@.len() != "RET"@.len());
            reveal_strlit("ADD");
            assert("ADD"@[0] != "RET"@[0]);
            reveal_strlit("ADDI");
            assert("ADDI"@.len() != "RET"@.len());
            reveal_strlit("ADDU");
            assert("ADDU"@.len() != "RET"@.len());
            reveal_strlit("ADDF");
            assert("ADDF"@.len() != "RET"@.len());
            reveal_strlit("SUB");
            assert("SUB"@[0] != "RET"@[0]);
            reveal_strlit("SUBI");
            assert("SUBI"@.len() != "RET"@.len());
            reveal_strlit("SUBU");
            assert("SUBU"@.len() != "RET"@.len());
            reveal_strlit("SUBF");
            assert("SUBF"@.len() != "RET"@.len());
            reveal_strlit("MUL");
            assert("MUL"@[0] != "RET"@[0]);
            reveal_strlit("MULI");
            assert("MULI"@.len() != "RET"@.len());
            reveal_strlit("MULU");
            assert("MULU"@.len() != "RET"@.len());
            reveal_strlit("MULF");
            assert("MULF"@.len() != "RET"@.len());
            reveal_strlit("DIV");
            assert("DIV"@[0] != "RET"@[0]);
            reveal_strlit("DIVI");
            assert("DIVI"@.len() != "RET"@.len());
            reveal_strlit("DIVU");
            assert("DIVU"@.len() != "RET"@.len());
            reveal_strlit("DIVF");
            assert("DIVF"@.len() != "RET"@.len());
            reveal_strlit("MOD");
            assert("MOD"@[0] != "RET"@[0]);
            reveal_strlit("MODI");
            assert("MODI"@.len() != "RET"@.len());
            reveal_strlit("MODU");
            assert("MODU"@.len() != "RET"@.len());
            reveal_strlit("EXP");
            assert("EXP"@[0] != "RET"@[0]);
            reveal_strlit("EXPI");
            assert("EXPI"@.len() != "RET"@.len());
            reveal_strlit("EXPU");
            assert("EXPU"@.len() != "RET"@.len());
            reveal_strlit("EXPF");
            assert("EXPF"@.len() != "RET"@.len());
            reveal_strlit("LOAD");
            assert("LOAD"@.len() != "RET"@.len());
            reveal_strlit("LOAD_IMM");
            assert("LOAD_IMM"@.len() != "RET"@.len());
            reveal_strlit("STORE");
            assert("STORE"@.len() != "RET"@.len());
            reveal_strlit("STORE_IMM");
            assert("STORE_IMM"@.len() != "RET"@.len());
            reveal_strlit("FREE");
            assert("FREE"@.len() != "RET"@.len());
            reveal_strlit("FREE_IMM");
            assert("FREE_IMM"@.len() != "RET"@.len());
            reveal_strlit("CMPEQ");
            assert("CMPEQ"@.len() != "RET"@.len());
            reveal_strlit("CMPNE");
            assert("CMPNE"@.len() != "RET"@.len());
            reveal_strlit("CMPGT");
            assert("CMPGT"@.len() != "RET"@.len());
            reveal_strlit("CMPLT");
            assert("CMPLT"@.len() != "RET"@.len());
            reveal_strlit("CMPGE");
            assert("CMPGE"@.len() != "RET"@.len());
            reveal_strlit("CMPLE");
            assert("CMPLE"@.len() != "RET"@.len());
            reveal_strlit("JMP");
            assert("JMP"@[0] != "RET"@[0]);
            reveal_strlit("JMPIF");
            assert("JMPIF"@.len() != "RET"@.len());
            reveal_strlit("CALL");
            assert("CALL"@.len() != "RET"@.len());
            reveal_strlit("CALLNATIVE");
            assert("CALLNATIVE"@.len() != "RET"@.len());
        }
    }
}

proof fn lemma_unescape_escape(t: Seq<char>)
    ensures
        unescape(escape(t)) == t,
    decreases t.len(),
{
    if t.len() > 0 {
        let r = t.skip(1);
        lemma_unescape_escape(r);
        let e = escape(t);
        if t[0] == '\n' {
            assert(e == seq!['\\', 'n'] + escape(r));
            assert(e.skip(2) =~= escape(r));
            assert(unescape(e) == seq!['\n'] + unescape(e.skip(2)));
        } else if t[0] == '\\' {
            assert(e == seq!['\\', '\\'] + escape(r));
            assert(e.skip(2) =~= escape(r));
            assert(unescape(e) == seq!['\\'] + unescape(e.skip(2)));
        } else {
            assert(e == seq![t[0]] + escape(r));
            assert(e.skip(1) =~= escape(r));
            assert(unescape(e) == seq![t[0]] + unescape(e.skip(1)));
        }
        assert(t =~= seq![t[0]] + r);
    }
}

/// Whether an instruction's printed operand reads back: a printed text or
/// float has no white space at its ends (the assembler trims operands).
pub open spec fn reads_back(c: (u8, Operand), float_text: Seq<char>) -> bool {
    match c.1 {
        Operand::Text(_) => tight(operand_text(c.0, c.1, float_text)),
        Operand::Float(_) => tight(float_text),
        _ => true,
    }
}

/// `LABEL` is a plain word that assembles to the label opcode.
pub proof fn lemma_label_word()
    ensures
        plain_word("LABEL"@),
        mnemonic("LABEL"@) == Some(OP_LABEL),
        "LABEL "@ == "LABEL"@ + seq![' '],
{
    assert(plain_word("LABEL"@) && mnemonic("LABEL"@) == Some(OP_LABEL) && "LABEL "@ =~= "LABEL"@ + seq![' ']) by {
        reveal_strlit("LABEL");
        reveal_strlit("LABEL ");
        reveal_strlit("EXIT");
        assert("EXIT"@.len() != "LABEL"@.len());
        reveal_strlit("EXIT_IMM");
        assert("EXIT_IMM"@.len() != "LABEL"@.len());
        reveal_strlit("PUSHI");
        assert("PUSHI"@[0] != "LABEL"@[0]);
        reveal_strlit("PUSHU");
        assert("PUSHU"@[0] != "LABEL"@[0]);
        reveal_strlit("PUSHF");
        assert("PUSHF"@[0] != "LABEL"@[0]);
        reveal_strlit("PUSHB");
        assert("PUSHB"@[0] != "LABEL"@[0]);
        reveal_strlit("PUSHS");
        assert("PUSHS"@[0] != "LABEL"@[0]);
        reveal_strlit("POP");
        assert("POP"@.len() != "LABEL"@.len());
        reveal_strlit("DUP");
        assert("DUP"@.len() != "LABEL"@.len());
        reveal_strlit("SWAP");
        assert("SWAP"@.len() != "LABEL"@.len());
        reveal_strlit("ADD");
        assert("ADD"@.len() != "LABEL"@.len());
        reveal_strlit("ADDI");
        assert("ADDI"@.len() != "LABEL"@.len());
        reveal_strlit("ADDU");
        assert("ADDU"@.len() != "LABEL"@.len());
        reveal_strlit("ADDF");
        assert("ADDF"@.len() != "LABEL"@.len());
        reveal_strlit("SUB");
        assert("SUB"@.len() != "LABEL"@.len());
        reveal_strlit("SUBI");
        assert("SUBI"@.len() != "LABEL"@.len());
        reveal_strlit("SUBU");
        assert("SUBU"@.len() != "LABEL"@.len());
        reveal_strlit("SUBF");
        assert("SUBF"@.len() != "LABEL"@.len());
        reveal_strlit("MUL");
        assert("MUL"@.len() != "LABEL"@.len());
        reveal_strlit("MULI");
        assert("MULI"@.len() != "LABEL"@.len());
        reveal_strlit("MULU");
        assert("MULU"@.len() != "LABEL"@.len());
        reveal_strlit("MULF");
        assert("MULF"@.len() != "LABEL"@.len());
        reveal_strlit("DIV");
        assert("DIV"@.len() != "LABEL"@.len());
        reveal_strlit("DIVI");
        assert("DIVI"@.len() != "LABEL"@.len());
        reveal_strlit("DIVU");
        assert("DIVU"@.len() != "LABEL"@.len());
        reveal_strlit("DIVF");
        assert("DIVF"@.len() != "LABEL"@.len());
        reveal_strlit("MOD");
        assert("MOD"@.len() != "LABEL"@.len());
        reveal_strlit("MODI");
        assert("MODI"@.len() != "LABEL"@.len());
        reveal_strlit("MODU");
        assert("MODU"@.len() != "LABEL"@.len());
        reveal_strlit("EXP");
        assert("EXP"@.len() != "LABEL"@.len());
        reveal_strlit("EXPI");
        assert("EXPI"@.len() != "LABEL"@.len());
        reveal_strlit("EXPU");
        assert("EXPU"@.len() != "LABEL"@.len());
        reveal_strlit("EXPF");
        assert("EXPF"@.len() != "LABEL"@.len());
        reveal_strlit("LOAD");
        assert("LOAD"@.len() != "LABEL"@.len());
        reveal_strlit("LOAD_IMM");
        assert("LOAD_IMM"@.len() != "LABEL"@.len());
        reveal_strlit("STORE");
        assert("STORE"@[0] != "LABEL"@[0]);
        reveal_strlit("STORE_IMM");
        assert("STORE_IMM"@.len() != "LABEL"@.len());
        reveal_strlit("FREE");
        assert("FREE"@.len() != "LABEL"@.len());
        reveal_strlit("FREE_IMM");
        assert("FREE_IMM"@.len() != "LABEL"@.len());
        reveal_strlit("CMPEQ");
        assert("CMPEQ"@[0] != "LABEL"@[0]);
        reveal_strlit("CMPNE");
        assert("CMPNE"@[0] != "LABEL"@[0]);
        reveal_strlit("CMPGT");
        assert("CMPGT"@[0] != "LABEL"@[0]);
        reveal_strlit("CMPLT");
        assert("CMPLT"@[0] != "LABEL"@[0]);
        reveal_strlit("CMPGE");
        assert("CMPGE"@[0] != "LABEL"@[0]);
        reveal_strlit("CMPLE");
        assert("CMPLE"@[0] != "LABEL"@[0]);
        reveal_strlit("JMP");
        assert("JMP"@.len() != "LABEL"@.len());
        reveal_strlit("JMPIF");
        assert("JMPIF"@[0] != "LABEL"@[0]);
        reveal_strlit("CALL");
        assert("CALL"@.len() != "LABEL"@.len());
        reveal_strlit("CALLNATIVE");
        assert("CALLNATIVE"@.len() != "LABEL"@.len());
        reveal_strlit("RET");
        assert("RET"@.len() != "LABEL"@.len());
    }
}

/// A printed label line assembles back to the label's bytes.
pub proof fn lemma_label_reads_back(name: Seq<char>)
    requires
        tight(name),
        encode_utf8(name).len() <= 255,
    ensures
        !skipped(trim("LABEL "@ + name)),
        assemble_line(trim("LABEL "@ + name), None) == Ok::<_, AsmErrorKind>(label_bytes(name)),
{
    lemma_label_word();
    lemma_line_parts("LABEL"@, name);
    if name.len() == 0 {
        let t = "LABEL"@ + seq![' '];
        assert(t.drop_last() =~= "LABEL"@);
        assert(trim_start(t) == t);
        assert(trim_end(t) == trim_end("LABEL"@));
    }
    assert("LABEL "@ + name =~= "LABEL"@ + seq![' '] + name);
    assert(seq![OP_LABEL, encode_utf8(name).len() as u8] + encode_utf8(name) =~= label_bytes(name));
}

/// A printed instruction assembles back to the instruction's bytes, given
/// the host reads its float text back as the same bits.
pub proof fn lemma_instruction_reads_back(c: (u8, Operand), float_text: Seq<char>, float: Option<u64>)
    requires
        encodable_instruction(c),
        reads_back(c, float_text),
        c.1 matches Operand::Float(b) ==> float == Some(b),
    ensures
        !skipped(trim("    "@ + instruction_text(c, float_text))),
        assemble_line(trim("    "@ + instruction_text(c, float_text)), float) == Ok::<_, AsmErrorKind>(instruction_bytes(c)),
{
    let op = c.0;
    let w = display_name(op);
    let v = operand_text(op, c.1, float_text);
    lemma_name_reads_back(op);
    match c.1 {
        Operand::Byte(x) => {
            lemma_decimal_reads_back(x as nat);
        },
        Operand::Int(x) => {
            if x < 0 {
                lemma_decimal_reads_back((-x) as nat);
                assert(v.drop_first() =~= decimal((-x) as nat));
                assert(v.last() == decimal((-x) as nat).last());
            } else {
                lemma_decimal_reads_back(x as nat);
            }
        },
        Operand::UInt(x) => {
            lemma_decimal_reads_back(x as nat);
        },
        Operand::Bool(_) => {
            reveal_strlit("true");
            reveal_strlit("false");
        },
        Operand::Text(t) => {
            if op == OP_PUSH_STRING {
                lemma_unescape_escape(t);
            }
        },
        _ => {},
    }
    assert(tight(v));
    lemma_line_parts(w, v);
    let text = instruction_text(c, float_text);
    reveal_strlit("    ");
    assert forall|i: int| 0 <= i < "    "@.len() implies is_space(#[trigger] "    "@[i]) by {}
    lemma_trim_start_spaces("    "@, text);
    assert(trim_start(text) == text) by {
        assert(text[0] == w[0]);
    }
    if v.len() == 0 {
        if !(c.1 is Nothing) {
            assert(text.drop_last() =~= w);
            assert(trim_end(text) == trim_end(w));
        }
        assert(trim(text) == w);
    } else {
        assert(text =~= w + seq![' '] + v);
    }
    assert(trim("    "@ + text) == trim(text));
    assert(line_parts(trim(text)) == (w, v));
    assert(assemble_line(trim(text), float) == encode_line(op, v, float));
    let bytes = instruction_bytes(c);
    match c.1 {
        Operand::Nothing => {
            assert(shape_of(op) == Some(Shape::Plain));
            assert(bytes =~= seq![op]);
        },
        Operand::Byte(x) => {
            assert(shape_of(op) == Some(Shape::Byte));
            assert(bytes =~= seq![op, x as u8]);
        },
        Operand::Bool(x) => {
            assert(shape_of(op) == Some(Shape::Bool));
            assert(bytes =~= seq![op, if x { 1u8 } else { 0u8 }]);
        },
        Operand::Int(x) => {
            assert(shape_of(op) == Some(Shape::Int));
            assert(parse_signed(v) == Some(x as int));
            assert((x as int) as i64 == x);
        },
        Operand::UInt(x) => {
            assert(shape_of(op) == Some(Shape::UInt));
            assert(parse_unsigned(v, u64::MAX as int) == Some(x as int));
        },
        Operand::Float(x) => {
            assert(shape_of(op) == Some(Shape::Float));
        },
        Operand::Text(t) => {
            let e = encode_utf8(t);
            if op == OP_PUSH_STRING {
                assert(shape_of(op) == Some(Shape::LongText));
                assert(unescape(v) == t);
                assert(bytes =~= seq![op] + spec_u32_to_le_bytes(e.len() as u32) + e);
            } else {
                assert(shape_of(op) == Some(Shape::Name));
                assert(bytes =~= seq![op, e.len() as u8] + e);
            }
        },
    }
    assert(encode_line(op, v, float) == Ok::<_, AsmErrorKind>(bytes));
}

/// The bit patterns of the float immediates, in order.
pub open spec fn float_bits(code: Seq<(u8, Operand)>) -> Seq<u64>
    decreases code.len(),
{
    if code.len() == 0 {
        Seq::empty()
    } else {
        let rest = float_bits(code.drop_last());
        match code.last().1 {
            Operand::Float(b) => rest.push(b),
            _ => rest,
        }
    }
}

proof fn lemma_float_bits_concat(a: Seq<(u8, Operand)>, b: Seq<(u8, Operand)>)
    ensures
        float_bits(a + b) == float_bits(a) + float_bits(b),
    decreases b.len(),
{
    if b.len() == 0 {
        assert(a + b =~= a);
        assert(float_bits(a) + float_bits(b) =~= float_bits(a));
    } else {
        assert((a + b).drop_last() =~= a + b.drop_last());
        lemma_float_bits_concat(a, b.drop_last());
        match b.last().1 {
            Operand::Float(x) => {
                assert(float_bits(a) + float_bits(b) =~= (float_bits(a) + float_bits(b.drop_last())).push(x));
            },
            _ => {},
        }
    }
}

proof fn lemma_float_bits_one(c: (u8, Operand))
    ensures
        float_bits(seq![c]) == (match c.1 {
            Operand::Float(x) => seq![x],
            _ => Seq::<u64>::empty(),
        }),
{
    let s1 = seq![c];
    assert(s1.len() == 1);
    assert(s1.last() == c);
    assert(s1.drop_last() =~= Seq::<(u8, Operand)>::empty());
    assert(float_bits(s1.drop_last()) == Seq::<u64>::empty());
    match c.1 {
        Operand::Float(x) => {
            assert(Seq::<u64>::empty().push(x) =~= seq![x]);
        },
        _ => {},
    }
}

/// Whether each operand has the shape its opcode declares, as the
/// operands of every [`Instruction`] do.
pub open spec fn shaped(c: Seq<(u8, Operand)>) -> bool {
    forall|i: int| 0 <= i < c.len() ==> (shape_of((#[trigger] c[i]).0) matches Some(s) && fits_shape(s, c[i].1))
}

/// The code of every program is shaped.
pub proof fn lemma_program_shaped(p: Program)
    ensures
        shaped(p@.code),
{
    assert forall|i: int| 0 <= i < p@.code.len() implies (shape_of((#[trigger] p@.code[i]).0) matches Some(s)
        && fits_shape(s, p@.code[i].1)) by {
        lemma_operand_fits(p.instructions@[i]);
    }
}

proof fn lemma_elide_keeps_floats(c: Seq<(u8, Operand)>)
    requires
        shaped(c),
    ensures
        float_bits(elide(c)) == float_bits(c),
    decreases c.len(),
{
    if c.len() > 0 {
        if starts_with_store_load(c) {
            let rest = c.skip(2);
            assert(shape_of(c[0].0) == Some(Shape::Name));
            assert(shaped(rest)) by {
                assert forall|i: int| 0 <= i < rest.len() implies #[trigger] rest[i] == c[i + 2] by {}
            }
            lemma_elide_keeps_floats(rest);
            lemma_float_bits_concat(seq![(OP_DUP, Operand::Nothing), c[0]], elide(rest));
            lemma_float_bits_concat(seq![c[0], c[1]], rest);
            assert(c =~= seq![c[0], c[1]] + rest);
            lemma_float_bits_concat(seq![(OP_DUP, Operand::Nothing)], seq![c[0]]);
            lemma_float_bits_concat(seq![c[0]], seq![c[1]]);
            assert(seq![(OP_DUP, Operand::Nothing)] + seq![c[0]] =~= seq![(OP_DUP, Operand::Nothing), c[0]]);
            assert(seq![c[0]] + seq![c[1]] =~= seq![c[0], c[1]]);
            lemma_float_bits_one((OP_DUP, Operand::Nothing));
            lemma_float_bits_one(c[0]);
            lemma_float_bits_one(c[1]);
        } else {
            let rest = c.skip(1);
            assert(shaped(rest)) by {
                assert forall|i: int| 0 <= i < rest.len() implies #[trigger] rest[i] == c[i + 1] by {}
            }
            lemma_elide_keeps_floats(rest);
            lemma_float_bits_concat(seq![c[0]], elide(rest));
            lemma_float_bits_concat(seq![c[0]], rest);
            assert(c =~= seq![c[0]] + rest);
        }
    }
}

proof fn lemma_canonical_keeps_floats(labels: Seq<(Seq<char>, usize)>, c: Seq<(u8, Operand)>)
    ensures
        float_bits(c.map_values(|x: (u8, Operand)| canonical_instruction(labels, x))) == float_bits(c),
    decreases c.len(),
{
    if c.len() > 0 {
        let f = |x: (u8, Operand)| canonical_instruction(labels, x);
        assert(c.map_values(f).drop_last() =~= c.drop_last().map_values(f));
        lemma_canonical_keeps_floats(labels, c.drop_last());
    }
}

/// Optimisation keeps the float immediates and their order, so the float
/// texts of a program serve for its optimised listing.
pub proof fn lemma_optimise_keeps_floats(l: Listing)
    requires
        shaped(l.code),
    ensures
        float_bits(canonical(Listing { code: elide(l.code), labels: l.labels }).code) == float_bits(l.code),
{
    lemma_elide_keeps_floats(l.code);
    lemma_canonical_keeps_floats(l.labels, elide(l.code));
}

fn push_str(out: &mut Vec<char>, s: &str)
    ensures
        final(out)@ == old(out)@ + s@,
{
    let mut v = chars_of(s);
    out.append(&mut v);
}

fn push_escaped(out: &mut Vec<char>, s: &str)
    ensures
        final(out)@ == old(out)@ + escape(s@),
{
    let t = chars_of(s);
    let mut i: usize = 0;
    assert(t@.skip(0) =~= t@);
    assert(out@ + escape(t@) =~= old(out)@ + escape(s@));
    while i < t.len()
        invariant
            i <= t@.len(),
            t@ == s@,
            out@ + escape(t@.skip(i as int)) == old(out)@ + escape(s@),
        decreases t@.len() - i,
    {
        let ghost before = out@;
        let ghost rest = t@.skip(i as int);
        assert(rest[0] == t@[i as int]);
        assert(rest.skip(1) =~= t@.skip(i + 1));
        if t[i] == '\n' {
            out.push('\\');
            out.push('n');
            assert(out@ =~= before + seq!['\\', 'n']);
            assert(escape(rest) == seq!['\\', 'n'] + escape(rest.skip(1)));
        } else if t[i] == '\\' {
            out.push('\\');
            out.push('\\');
            assert(out@ =~= before + seq!['\\', '\\']);
            assert(escape(rest) == seq!['\\', '\\'] + escape(rest.skip(1)));
        } else {
            out.push(t[i]);
            assert(out@ =~= before + seq![t@[i as int]]);
            assert(escape(rest) == seq![rest[0]] + escape(rest.skip(1)));
        }
        i = i + 1;
    }
    assert(t@.skip(i as int) =~= Seq::<char>::empty());
    assert(out@ + Seq::<char>::empty() =~= out@);
}

fn push_signed(out: &mut Vec<char>, v: i64)
    ensures
        final(out)@ == old(out)@ + signed_decimal(v as int),
{
    if v < 0 {
        out.push('-');
        let m: u64 = if v == i64::MIN {
            0x8000_0000_0000_0000
        } else {
            (-v) as u64
        };
        push_str(out, decimal_string(m).as_str());
        assert(final(out)@ =~= old(out)@ + signed_decimal(v as int));
    } else {
        push_str(out, decimal_string(v as u64).as_str());
    }
}

fn has_float(instr: &Instruction) -> (r: bool)
    ensures
        r == (instr.operand() is Float),
{
    match instr {
        Instruction::PushFloat(_) | Instruction::AddF(_) | Instruction::SubF(_) | Instruction::MulF(_)
        | Instruction::DivF(_) | Instruction::ExpF(_) => true,
        _ => false,
    }
}

fn write_instruction_text(out: &mut Vec<char>, instr: &Instruction, float: &str)
    ensures
        final(out)@ == old(out)@ + instruction_text(instr.model(), float@),
{
    push_str(out, display_name_exec(instr.tag()));
    let ghost named = out@;
    match instr {
        Instruction::ExitImmediate(v) => {
            out.push(' ');
            push_str(out, decimal_string(*v as u64).as_str());
        },
        Instruction::PushInt(v) | Instruction::AddI(v) | Instruction::SubI(v) | Instruction::MulI(v)
        | Instruction::DivI(v) | Instruction::ModI(v) | Instruction::ExpI(v) => {
            out.push(' ');
            push_signed(out, *v);
        },
        Instruction::PushUInt(v) | Instruction::AddU(v) | Instruction::SubU(v) | Instruction::MulU(v)
        | Instruction::DivU(v) | Instruction::ModU(v) | Instruction::ExpU(v) => {
            out.push(' ');
            push_str(out, decimal_string(*v).as_str());
        },
        Instruction::PushFloat(_) | Instruction::AddF(_) | Instruction::SubF(_) | Instruction::MulF(_)
        | Instruction::DivF(_) | Instruction::ExpF(_) => {
            out.push(' ');
            push_str(out, float);
        },
        Instruction::PushBool(v) => {
            out.push(' ');
            push_str(out, if *v { "true" } else { "false" });
        },
        Instruction::PushString(t) => {
            out.push(' ');
            push_escaped(out, t.as_str());
        },
        Instruction::LoadImm(t) | Instruction::StoreImm(t) | Instruction::FreeImm(t) | Instruction::Jump(t)
        | Instruction::JumpIf(t) | Instruction::Call(t) | Instruction::CallNative(t) => {
            out.push(' ');
            push_str(out, t.as_str());
        },
        _ => {},
    }
    assert(final(out)@ =~= old(out)@ + instruction_text(instr.model(), float@));
}

impl Instruction {
    /// The printed form of this instruction; `float` is the host's text of
    /// its float immediate, if it has one.
    pub fn text(&self, float: &str) -> (r: String)
        ensures
            r@ == instruction_text(self.model(), float@),
    {
        let mut out: Vec<char> = Vec::new();
        write_instruction_text(&mut out, self, float);
        assert(out@ =~= instruction_text(self.model(), float@));
        string_of(&out)
    }
}

fn write_label_lines(out: &mut Vec<char>, labels: &Vec<(String, usize)>, a: usize)
    ensures
        final(out)@ == old(out)@ + label_lines(keyed(labels@), a as int, 0),
{
    let ghost t = keyed(labels@);
    let mut j: usize = 0;
    assert(out@ =~= old(out)@ + Seq::<char>::empty());
    while j < labels.len()
        invariant
            j <= labels@.len(),
            t == keyed(labels@),
            old(out)@ + label_lines(t, a as int, 0) == out@ + label_lines(t, a as int, j as int),
        decreases labels@.len() - j,
    {
        let ghost before = out@;
        if labels[j].1 == a {
            push_str(out, "LABEL ");
            push_str(out, labels[j].0.as_str());
            out.push('\n');
            assert(out@ + label_lines(t, a as int, j + 1) =~= before + label_lines(t, a as int, j as int));
        }
        j = j + 1;
    }
    assert(out@ + Seq::<char>::empty() =~= out@);
}

/// The listing of an already optimised program.
fn render_program(p: &Program, float_texts: &Vec<String>) -> (r: String)
    ensures
        r@ == render(p@, float_texts@.map_values(|t: String| t@)),
{
    let ghost l = p@;
    let ghost texts = float_texts@.map_values(|t: String| t@);
    let n = p.instructions.len();
    let mut out: Vec<char> = Vec::new();
    let mut a: usize = 0;
    let mut fi: usize = 0;
    assert(out@ + render_from(l, texts, 0, 0) =~= render_from(l, texts, 0, 0));
    while a < n
        invariant
            l == p@,
            texts == float_texts@.map_values(|t: String| t@),
            n == l.code.len(),
            a <= n,
            fi <= a,
            out@ + render_from(l, texts, a as int, fi as int) == render_from(l, texts, 0, 0),
        decreases n - a,
    {
        let ghost before = out@;
        let ghost a0 = a as int;
        let ghost fi0 = fi as int;
        let instr = &p.instructions[a];
        assert(l.code[a as int] == instr.model());
        write_label_lines(&mut out, &p.labels, a);
        push_str(&mut out, "    ");
        let float: &str = if fi < float_texts.len() {
            float_texts[fi].as_str()
        } else {
            ""
        };
        write_instruction_text(&mut out, instr, float);
        if has_float(instr) {
            fi = fi + 1;
        }
        out.push('\n');
        a = a + 1;
        assert(out@ + render_from(l, texts, a as int, fi as int) =~= before + render_from(l, texts, a0, fi0));
    }
    write_label_lines(&mut out, &p.labels, n);
    assert(out@ =~= render_from(l, texts, 0, 0));
    if out.len() > 0 {
        out.pop();
    }
    string_of(&out)
}

/// The listing of a program after optimisation: lines joined by newlines.
/// `float_texts` holds the host's text of each float immediate, in order
/// (see [`float_immediates`]); a missing one prints as nothing.
///
/// Each printed line assembles back to the bytes of its instruction or label
/// (`lemma_instruction_reads_back`, `lemma_label_reads_back`), with one
/// limit: the assembler trims operands, so a name or string with white space
/// at either end, or a name holding a newline, does not read back as it was.
pub fn disasm(program: &Program, float_texts: &Vec<String>) -> (r: Result<String, OptimizeError>)
    ensures
        ({
            let e = Listing { code: elide(program@.code), labels: program@.labels };
            match r {
                Ok(s) => all_resolved(e) && s@ == render(canonical(e), float_texts@.map_values(|t: String| t@))
                    && float_bits(canonical(e).code) == float_bits(program@.code),
                Err(OptimizeError::UnresolvedLabel { at }) => first_unresolved(e, at as int),
            }
        }),
{
    proof {
        lemma_program_shaped(*program);
        lemma_optimise_keeps_floats(program@);
    }
    match optimise(program) {
        Ok(p) => Ok(render_program(&p, float_texts)),
        Err(e) => Err(e),
    }
}

/// The bit patterns of a program's float immediates, in order.
pub fn float_immediates(program: &Program) -> (r: Vec<u64>)
    ensures
        r@ == float_bits(program@.code),
{
    let mut out: Vec<u64> = Vec::new();
    let mut i: usize = 0;
    while i < program.instructions.len()
        invariant
            i <= program.instructions@.len(),
            out@ == float_bits(program@.code.take(i as int)),
        decreases program.instructions@.len() - i,
    {
        let ghost pre = program@.code.take(i as int);
        assert(program@.code.take(i + 1).drop_last() =~= pre);
        match &program.instructions[i] {
            Instruction::PushFloat(v) | Instruction::AddF(v) | Instruction::SubF(v) | Instruction::MulF(v)
            | Instruction::DivF(v) | Instruction::ExpF(v) => {
                out.push(*v);
            },
            _ => {},
        }
        i = i + 1;
    }
    assert(program@.code.take(i as int) =~= program@.code);
    out
}

} // verus!
