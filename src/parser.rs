//! The line-oriented assembly language and its assembler into bytecode.
//!
//! Each line holds one mnemonic and at most one operand, separated by a
//! space; blank lines and lines whose first non-blank character is `#` are
//! skipped. Float operands are read by the host: the assembler takes, in
//! order, the bit pattern of each float operand (see [`float_literals`]).
use crate::instruction::{shape, shape_of, Shape};
use crate::opcodes::{
    OP_ADD, OP_ADD_F, OP_ADD_I, OP_ADD_U,
    OP_CALL, OP_CALL_NATIVE, OP_CMP_EQUAL, OP_CMP_GREATER_EQUAL,
    OP_CMP_GREATER_THAN, OP_CMP_LESS_EQUAL, OP_CMP_LESS_THAN, OP_CMP_NOT_EQUAL,
    OP_DIV, OP_DIV_F, OP_DIV_I, OP_DIV_U,
    OP_DUP, OP_EXIT, OP_EXIT_IMMEDIATE, OP_EXP, OP_EXP_F,
    OP_EXP_I, OP_EXP_U, OP_FREE, OP_FREE_IMM,
    OP_JUMP, OP_JUMP_IF, OP_LABEL, OP_LOAD,
    OP_LOAD_IMM, OP_MOD, OP_MOD_I, OP_MOD_U,
    OP_MUL, OP_MUL_F, OP_MUL_I, OP_MUL_U,
    OP_POP, OP_PUSH_BOOL, OP_PUSH_FLOAT, OP_PUSH_INT,
    OP_PUSH_STRING, OP_PUSH_UINT, OP_RET, OP_STORE,
    OP_STORE_IMM, OP_SUB, OP_SUB_F, OP_SUB_I,
    OP_SUB_U, OP_SWAP,
};
use crate::table::str_eq;
use crate::text::{append, chars_of, decimal, decimal_bytes, lemma_decimal_bytes_digits, string_of};
use vstd::bytes::{spec_u32_to_le_bytes, spec_u64_to_le_bytes, u32_to_le_bytes, u64_to_le_bytes};
use vstd::prelude::*;
use vstd::slice::{slice_subrange, slice_to_vec};
use vstd::utf8::encode_utf8;

verus! {

/// Why a line does not assemble.
#[derive(Debug, Clone, Copy, PartialEq, Eq, Structural)]
pub enum AsmErrorKind {
    /// No such mnemonic.
    UnknownInstruction,
    /// The operand is not an integer of the instruction's type.
    InvalidInteger,
    /// The operand is neither `true` nor `false`.
    InvalidBool,
    /// The host could not read the operand as a float.
    InvalidFloat,
    /// A name is longer than 255 bytes.
    NameTooLong,
    /// A string is longer than `u32::MAX` bytes.
    TextTooLong,
}

/// An assembly error, with the one-based number of its line.
#[derive(Debug, Clone, Copy, PartialEq, Eq, Structural)]
pub struct AsmError {
    pub line: usize,
    pub kind: AsmErrorKind,
}

/// The characters that `char::is_whitespace` accepts: Unicode White_Space.
pub open spec fn is_space(c: char) -> bool {
    let u = c as u32;
    (0x09 <= u <= 0x0d) || u == 0x20 || u == 0x85 || u == 0xa0 || u == 0x1680
        || (0x2000 <= u <= 0x200a) || u == 0x2028 || u == 0x2029 || u == 0x202f || u == 0x205f
        || u == 0x3000
}

pub open spec fn trim_start(t: Seq<char>) -> Seq<char>
    decreases t.len(),
{
    if t.len() > 0 && is_space(t[0]) {
        trim_start(t.drop_first())
    } else {
        t
    }
}

pub open spec fn trim_end(t: Seq<char>) -> Seq<char>
    decreases t.len(),
{
    if t.len() > 0 && is_space(t.last()) {
        trim_end(t.drop_last())
    } else {
        t
    }
}

/// The text without white space at either end.
pub open spec fn trim(t: Seq<char>) -> Seq<char> {
    trim_end(trim_start(t))
}

/// The index of the first `c` at or after `i`, or the length if there is none.
pub open spec fn next_char(s: Seq<char>, i: int, c: char) -> int
    decreases s.len() - i,
{
    if i < 0 || i >= s.len() {
        s.len() as int
    } else if s[i] == c {
        i
    } else {
        next_char(s, i + 1, c)
    }
}

/// A trimmed line's mnemonic and operand: split at the first space, each
/// part trimmed; without a space the operand is empty.
pub open spec fn line_parts(t: Seq<char>) -> (Seq<char>, Seq<char>) {
    let p = next_char(t, 0, ' ');
    if p < t.len() {
        (trim(t.take(p)), trim(t.skip(p + 1)))
    } else {
        (t, Seq::empty())
    }
}

/// The opcode a mnemonic assembles to.
pub open spec fn mnemonic(op: Seq<char>) -> Option<u8> {
    if op == "EXIT"@ {
        Some(OP_EXIT)
    } else if op == "EXIT_IMM"@ {
        Some(OP_EXIT_IMMEDIATE)
    } else if op == "PUSHI"@ {
        Some(OP_PUSH_INT)
    } else if op == "PUSHU"@ {
        Some(OP_PUSH_UINT)
    } else if op == "PUSHF"@ {
        Some(OP_PUSH_FLOAT)
    } else if op == "PUSHB"@ {
        Some(OP_PUSH_BOOL)
    } else if op == "PUSHS"@ {
        Some(OP_PUSH_STRING)
    } else if op == "POP"@ {
        Some(OP_POP)
    } else if op == "DUP"@ {
        Some(OP_DUP)
    } else if op == "SWAP"@ {
        Some(OP_SWAP)
    } else if op == "ADD"@ {
        Some(OP_ADD)
    } else if op == "ADDI"@ {
        Some(OP_ADD_I)
    } else if op == "ADDU"@ {
        Some(OP_ADD_U)
    } else if op == "ADDF"@ {
        Some(OP_ADD_F)
    } else if op == "SUB"@ {
        Some(OP_SUB)
    } else if op == "SUBI"@ {
        Some(OP_SUB_I)
    } else if op == "SUBU"@ {
        Some(OP_SUB_U)
    } else if op == "SUBF"@ {
        Some(OP_SUB_F)
    } else if op == "MUL"@ {
        Some(OP_MUL)
    } else if op == "MULI"@ {
        Some(OP_MUL_I)
    } else if op == "MULU"@ {
        Some(OP_MUL_U)
    } else if op == "MULF"@ {
        Some(OP_MUL_F)
    } else if op == "DIV"@ {
        Some(OP_DIV)
    } else if op == "DIVI"@ {
        Some(OP_DIV_I)
    } else if op == "DIVU"@ {
        Some(OP_DIV_U)
    } else if op == "DIVF"@ {
        Some(OP_DIV_F)
    } else if op == "MOD"@ {
        Some(OP_MOD)
    } else if op == "MODI"@ {
        Some(OP_MOD_I)
    } else if op == "MODU"@ {
        Some(OP_MOD_U)
    } else if op == "EXP"@ {
        Some(OP_EXP)
    } else if op == "EXPI"@ {
        Some(OP_EXP_I)
    } else if op == "EXPU"@ {
        Some(OP_EXP_U)
    } else if op == "EXPF"@ {
        Some(OP_EXP_F)
    } else if op == "LOAD"@ {
        Some(OP_LOAD)
    } else if op == "LOAD_IMM"@ {
        Some(OP_LOAD_IMM)
    } else if op == "STORE"@ {
        Some(OP_STORE)
    } else if op == "STORE_IMM"@ {
        Some(OP_STORE_IMM)
    } else if op == "FREE"@ {
        Some(OP_FREE)
    } else if op == "FREE_IMM"@ {
        Some(OP_FREE_IMM)
    } else if op == "CMPEQ"@ {
        Some(OP_CMP_EQUAL)
    } else if op == "CMPNE"@ {
        Some(OP_CMP_NOT_EQUAL)
    } else if op == "CMPGT"@ {
        Some(OP_CMP_GREATER_THAN)
    } else if op == "CMPLT"@ {
        Some(OP_CMP_LESS_THAN)
    } else if op == "CMPGE"@ {
        Some(OP_CMP_GREATER_EQUAL)
    } else if op == "CMPLE"@ {
        Some(OP_CMP_LESS_EQUAL)
    } else if op == "JMP"@ {
        Some(OP_JUMP)
    } else if op == "JMPIF"@ {
        Some(OP_JUMP_IF)
    } else if op == "CALL"@ {
        Some(OP_CALL)
    } else if op == "CALLNATIVE"@ {
        Some(OP_CALL_NATIVE)
    } else if op == "RET"@ {
        Some(OP_RET)
    } else if op == "LABEL"@ {
        Some(OP_LABEL)
    } else {
        None
    }
}

pub open spec fn is_digit(c: char) -> bool {
    '0' <= c <= '9'
}

/// The value of a string of decimal digits.
pub open spec fn digits_value(d: Seq<char>) -> int
    decreases d.len(),
{
    if d.len() == 0 {
        0
    } else {
        digits_value(d.drop_last()) * 10 + (d.last() as int - '0' as int)
    }
}

/// A decimal numeral: one digit or more.
pub open spec fn is_numeral(d: Seq<char>) -> bool {
    d.len() > 0 && forall|i: int| 0 <= i < d.len() ==> is_digit(#[trigger] d[i])
}

/// An unsigned integer in Rust's syntax (an optional `+`, then digits) that
/// is at most `max`.
pub open spec fn parse_unsigned(s: Seq<char>, max: int) -> Option<int> {
    let d = if s.len() > 0 && s[0] == '+' { s.drop_first() } else { s };
    if is_numeral(d) && digits_value(d) <= max {
        Some(digits_value(d))
    } else {
        None
    }
}

/// A signed `i64` in Rust's syntax: an optional sign, then digits.
pub open spec fn parse_signed(s: Seq<char>) -> Option<int> {
    if s.len() > 0 && s[0] == '-' {
        let d = s.drop_first();
        if is_numeral(d) && -digits_value(d) >= i64::MIN {
            Some(-digits_value(d))
        } else {
            None
        }
    } else {
        parse_unsigned(s, i64::MAX as int)
    }
}

/// The text with each `\n` (a backslash and an `n`) replaced by a newline
/// and each `\\` (two backslashes) by one backslash, read left to right.
pub open spec fn unescape(s: Seq<char>) -> Seq<char>
    decreases s.len(),
{
    if s.len() == 0 {
        s
    } else if s.len() >= 2 && s[0] == '\\' && s[1] == 'n' {
        seq!['\n'] + unescape(s.skip(2))
    } else if s.len() >= 2 && s[0] == '\\' && s[1] == '\\' {
        seq!['\\'] + unescape(s.skip(2))
    } else {
        seq![s[0]] + unescape(s.skip(1))
    }
}

/// The bytes of one instruction with opcode `code` and operand text `val`;
/// `float` is the host's reading of the operand where it is a float.
pub open spec fn encode_line(code: u8, val: Seq<char>, float: Option<u64>) -> Result<Seq<u8>, AsmErrorKind> {
    match shape_of(code) {
        Some(Shape::Byte) => match parse_unsigned(val, 255) {
            Some(v) => Ok(seq![code, v as u8]),
            None => Err(AsmErrorKind::InvalidInteger),
        },
        Some(Shape::Int) => match parse_signed(val) {
            Some(v) => Ok(seq![code] + spec_u64_to_le_bytes((v as i64) as u64)),
            None => Err(AsmErrorKind::InvalidInteger),
        },
        Some(Shape::UInt) => match parse_unsigned(val, u64::MAX as int) {
            Some(v) => Ok(seq![code] + spec_u64_to_le_bytes(v as u64)),
            None => Err(AsmErrorKind::InvalidInteger),
        },
        Some(Shape::Float) => match float {
            Some(bits) => Ok(seq![code] + spec_u64_to_le_bytes(bits)),
            None => Err(AsmErrorKind::InvalidFloat),
        },
        Some(Shape::Bool) => if val == "true"@ {
            Ok(seq![code, 1u8])
        } else if val == "false"@ {
            Ok(seq![code, 0u8])
        } else {
            Err(AsmErrorKind::InvalidBool)
        },
        Some(Shape::LongText) => {
            let b = encode_utf8(unescape(val));
            if b.len() > u32::MAX {
                Err(AsmErrorKind::TextTooLong)
            } else {
                Ok(seq![code] + spec_u32_to_le_bytes(b.len() as u32) + b)
            }
        },
        Some(Shape::Name) | Some(Shape::Label) => {
            let b = encode_utf8(val);
            if b.len() > 255 {
                Err(AsmErrorKind::NameTooLong)
            } else {
                Ok(seq![code, b.len() as u8] + b)
            }
        },
        _ => Ok(seq![code]),
    }
}

/// Whether a trimmed line is skipped: empty, or a comment.
pub open spec fn skipped(t: Seq<char>) -> bool {
    t.len() == 0 || t[0] == '#'
}

/// Whether a trimmed line holds an instruction with a float operand.
pub open spec fn takes_float(t: Seq<char>) -> bool {
    !skipped(t) && (mnemonic(line_parts(t).0) matches Some(code) && shape_of(code) == Some(Shape::Float))
}

/// The float reading with index `fi`, if the host gave one.
pub open spec fn float_at(floats: Seq<Option<u64>>, fi: int) -> Option<u64> {
    if 0 <= fi < floats.len() {
        floats[fi]
    } else {
        None
    }
}

/// The bytes of one trimmed line that is not skipped.
pub open spec fn assemble_line(t: Seq<char>, float: Option<u64>) -> Result<Seq<u8>, AsmErrorKind> {
    let (op, val) = line_parts(t);
    match mnemonic(op) {
        None => Err(AsmErrorKind::UnknownInstruction),
        Some(code) => encode_line(code, val, float),
    }
}

/// Assembling the lines from position `start` of `s` on, which is line
/// number `line`; `fi` float readings are used up and `acc` is assembled.
pub open spec fn assemble_at(
    s: Seq<char>,
    start: int,
    line: int,
    fi: int,
    floats: Seq<Option<u64>>,
    acc: Seq<u8>,
) -> Result<Seq<u8>, AsmError>
    decreases s.len() - start,
{
    if start < 0 || start >= s.len() {
        Ok(acc)
    } else {
        let end = next_char(s, start, '\n');
        let t = trim(s.subrange(start, end));
        let (acc2, fi2) = if skipped(t) {
            (Ok(acc), fi)
        } else {
            match assemble_line(t, float_at(floats, fi)) {
                Ok(b) => (Ok(acc + b), if takes_float(t) { fi + 1 } else { fi }),
                Err(k) => (Err(AsmError { line: line as usize, kind: k }), fi),
            }
        };
        match acc2 {
            Err(e) => Err(e),
            Ok(a) => if start <= end < s.len() {
                assemble_at(s, end + 1, line + 1, fi2, floats, a)
            } else {
                Ok(a)
            },
        }
    }
}

/// What a source text assembles to, given the host's reading of each float
/// operand in order (`None` where the host could not read one).
pub open spec fn assemble(source: Seq<char>, floats: Seq<Option<u64>>) -> Result<Seq<u8>, AsmError> {
    assemble_at(source, 0, 1, 0, floats, Seq::empty())
}

/// The float operands from position `start` on, after `acc`.
pub open spec fn floats_at(s: Seq<char>, start: int, acc: Seq<Seq<char>>) -> Seq<Seq<char>>
    decreases s.len() - start,
{
    if start < 0 || start >= s.len() {
        acc
    } else {
        let end = next_char(s, start, '\n');
        let t = trim(s.subrange(start, end));
        let a = if takes_float(t) { acc.push(line_parts(t).1) } else { acc };
        if start <= end < s.len() {
            floats_at(s, end + 1, a)
        } else {
            a
        }
    }
}

/// The operand text of each line with a float operand, in order.
pub open spec fn float_operands(source: Seq<char>) -> Seq<Seq<char>> {
    floats_at(source, 0, Seq::empty())
}

/// The numeral of `n` reads back as `n`.
pub proof fn lemma_decimal_reads_back(n: nat)
    ensures
        is_numeral(decimal(n)),
        digits_value(decimal(n)) == n,
        is_digit(decimal(n)[0]),
        is_digit(decimal(n).last()),
    decreases n,
{
    lemma_decimal_bytes_digits(n);
    let d = decimal(n);
    assert forall|i: int| 0 <= i < d.len() implies is_digit(#[trigger] d[i]) by {
        assert(48 <= decimal_bytes(n)[i] <= 57);
    }
    let b = decimal_bytes(n).last();
    assert(d.last() == b as char);
    assert(b as int == n % 10 + 48);
    assert((b as char) as int == b as int);
    assert(d.len() > 0);
    assert(digits_value(d) == digits_value(d.drop_last()) * 10 + (d.last() as int - '0' as int));
    assert('0' as int == 48);
    if n < 10 {
        assert(d.drop_last() =~= Seq::<char>::empty());
    } else {
        lemma_decimal_reads_back(n / 10);
        assert(d.drop_last() =~= decimal(n / 10));
        assert(n == (n / 10) * 10 + n % 10);
    }
}

/// Removing white space that precedes a text.
pub proof fn lemma_trim_start_spaces(pre: Seq<char>, x: Seq<char>)
    requires
        forall|i: int| 0 <= i < pre.len() ==> is_space(#[trigger] pre[i]),
    ensures
        trim_start(pre + x) == trim_start(x),
    decreases pre.len(),
{
    if pre.len() > 0 {
        assert((pre + x)[0] == pre[0]);
        assert((pre + x).drop_first() =~= pre.drop_first() + x);
        lemma_trim_start_spaces(pre.drop_first(), x);
    } else {
        assert(pre + x =~= x);
    }
}

/// Whether a text has no white space at either end.
pub open spec fn tight(v: Seq<char>) -> bool {
    v.len() > 0 ==> !is_space(v[0]) && !is_space(v.last())
}

/// The index of `c` when it first occurs at `k`.
pub proof fn lemma_next_char_at(s: Seq<char>, i: int, c: char, k: int)
    requires
        0 <= i <= k <= s.len(),
        k == s.len() || s[k] == c,
        forall|j: int| i <= j < k ==> s[j] != c,
    ensures
        next_char(s, i, c) == k,
    decreases k - i,
{
    if i < k {
        lemma_next_char_at(s, i + 1, c, k);
    }
}

/// A line made of a word, and then a space and an operand with no white
/// space at its ends, splits back into the two.
pub proof fn lemma_line_parts(w: Seq<char>, v: Seq<char>)
    requires
        w.len() > 0,
        forall|i: int| 0 <= i < w.len() ==> !is_space(#[trigger] w[i]),
        tight(v),
    ensures
        ({
            let t = if v.len() == 0 { w } else { w + seq![' '] + v };
            &&& trim(t) == t
            &&& line_parts(t) == (w, v)
        }),
{
    assert(trim_start(w) == w);
    assert(trim_end(w) == w);
    if v.len() == 0 {
        lemma_next_char_at(w, 0, ' ', w.len() as int);
    } else {
        let t = w + seq![' '] + v;
        assert(t[0] == w[0]);
        assert(t.last() == v.last());
        assert(trim_start(t) == t);
        assert(trim_end(t) == t);
        assert(t[w.len() as int] == ' ');
        lemma_next_char_at(t, 0, ' ', w.len() as int);
        assert(t.take(w.len() as int) =~= w);
        assert(t.skip(w.len() as int + 1) =~= v);
        assert(trim_start(v) == v);
        assert(trim_end(v) == v);
    }
}

/// The opcode a mnemonic assembles to.
fn lookup_mnemonic(op: &str) -> (r: Option<u8>)
    ensures
        r == mnemonic(op@),
{
    if str_eq(op, "EXIT") {
        Some(OP_EXIT)
    } else if str_eq(op, "EXIT_IMM") {
        Some(OP_EXIT_IMMEDIATE)
    } else if str_eq(op, "PUSHI") {
        Some(OP_PUSH_INT)
    } else if str_eq(op, "PUSHU") {
        Some(OP_PUSH_UINT)
    } else if str_eq(op, "PUSHF") {
        Some(OP_PUSH_FLOAT)
    } else if str_eq(op, "PUSHB") {
        Some(OP_PUSH_BOOL)
    } else if str_eq(op, "PUSHS") {
        Some(OP_PUSH_STRING)
    } else if str_eq(op, "POP") {
        Some(OP_POP)
    } else if str_eq(op, "DUP") {
        Some(OP_DUP)
    } else if str_eq(op, "SWAP") {
        Some(OP_SWAP)
    } else if str_eq(op, "ADD") {
        Some(OP_ADD)
    } else if str_eq(op, "ADDI") {
        Some(OP_ADD_I)
    } else if str_eq(op, "ADDU") {
        Some(OP_ADD_U)
    } else if str_eq(op, "ADDF") {
        Some(OP_ADD_F)
    } else if str_eq(op, "SUB") {
        Some(OP_SUB)
    } else if str_eq(op, "SUBI") {
        Some(OP_SUB_I)
    } else if str_eq(op, "SUBU") {
        Some(OP_SUB_U)
    } else if str_eq(op, "SUBF") {
        Some(OP_SUB_F)
    } else if str_eq(op, "MUL") {
        Some(OP_MUL)
    } else if str_eq(op, "MULI") {
        Some(OP_MUL_I)
    } else if str_eq(op, "MULU") {
        Some(OP_MUL_U)
    } else if str_eq(op, "MULF") {
        Some(OP_MUL_F)
    } else if str_eq(op, "DIV") {
        Some(OP_DIV)
    } else if str_eq(op, "DIVI") {
        Some(OP_DIV_I)
    } else if str_eq(op, "DIVU") {
        Some(OP_DIV_U)
    } else if str_eq(op, "DIVF") {
        Some(OP_DIV_F)
    } else if str_eq(op, "MOD") {
        Some(OP_MOD)
    } else if str_eq(op, "MODI") {
        Some(OP_MOD_I)
    } else if str_eq(op, "MODU") {
        Some(OP_MOD_U)
    } else if str_eq(op, "EXP") {
        Some(OP_EXP)
    } else if str_eq(op, "EXPI") {
        Some(OP_EXP_I)
    } else if str_eq(op, "EXPU") {
        Some(OP_EXP_U)
    } else if str_eq(op, "EXPF") {
        Some(OP_EXP_F)
    } else if str_eq(op, "LOAD") {
        Some(OP_LOAD)
    } else if str_eq(op, "LOAD_IMM") {
        Some(OP_LOAD_IMM)
    } else if str_eq(op, "STORE") {
        Some(OP_STORE)
    } else if str_eq(op, "STORE_IMM") {
        Some(OP_STORE_IMM)
    } else if str_eq(op, "FREE") {
        Some(OP_FREE)
    } else if str_eq(op, "FREE_IMM") {
        Some(OP_FREE_IMM)
    } else if str_eq(op, "CMPEQ") {
        Some(OP_CMP_EQUAL)
    } else if str_eq(op, "CMPNE") {
        Some(OP_CMP_NOT_EQUAL)
    } else if str_eq(op, "CMPGT") {
        Some(OP_CMP_GREATER_THAN)
    } else if str_eq(op, "CMPLT") {
        Some(OP_CMP_LESS_THAN)
    } else if str_eq(op, "CMPGE") {
        Some(OP_CMP_GREATER_EQUAL)
    } else if str_eq(op, "CMPLE") {
        Some(OP_CMP_LESS_EQUAL)
    } else if str_eq(op, "JMP") {
        Some(OP_JUMP)
    } else if str_eq(op, "JMPIF") {
        Some(OP_JUMP_IF)
    } else if str_eq(op, "CALL") {
        Some(OP_CALL)
    } else if str_eq(op, "CALLNATIVE") {
        Some(OP_CALL_NATIVE)
    } else if str_eq(op, "RET") {
        Some(OP_RET)
    } else if str_eq(op, "LABEL") {
        Some(OP_LABEL)
    } else {
        None
    }
}

fn is_space_exec(c: char) -> (r: bool)
    ensures
        r == is_space(c),
{
    let u = c as u32;
    (0x09 <= u && u <= 0x0d) || u == 0x20 || u == 0x85 || u == 0xa0 || u == 0x1680
        || (0x2000 <= u && u <= 0x200a) || u == 0x2028 || u == 0x2029 || u == 0x202f
        || u == 0x205f || u == 0x3000
}

fn find_char(t: &Vec<char>, from: usize, c: char) -> (r: usize)
    requires
        from <= t@.len(),
    ensures
        r == next_char(t@, from as int, c),
        from <= r <= t@.len(),
{
    let mut i = from;
    while i < t.len()
        invariant
            from <= i <= t@.len(),
            next_char(t@, from as int, c) == next_char(t@, i as int, c),
        decreases t@.len() - i,
    {
        if t[i] == c {
            return i;
        }
        i = i + 1;
    }
    i
}

fn slice_of(t: &Vec<char>, a: usize, b: usize) -> (r: Vec<char>)
    requires
        a <= b <= t@.len(),
    ensures
        r@ == t@.subrange(a as int, b as int),
{
    slice_to_vec(slice_subrange(t.as_slice(), a, b))
}

fn trimmed(t: &Vec<char>) -> (r: Vec<char>)
    ensures
        r@ == trim(t@),
{
    let mut a: usize = 0;
    assert(t@.subrange(0, t@.len() as int) =~= t@);
    while a < t.len() && is_space_exec(t[a])
        invariant
            a <= t@.len(),
            trim_start(t@) == trim_start(t@.subrange(a as int, t@.len() as int)),
        decreases t@.len() - a,
    {
        assert(t@.subrange(a as int, t@.len() as int).drop_first() =~= t@.subrange(a + 1, t@.len() as int));
        a = a + 1;
    }
    assert(trim_start(t@) == t@.subrange(a as int, t@.len() as int));
    let mut b: usize = t.len();
    while b > a && is_space_exec(t[b - 1])
        invariant
            a <= b <= t@.len(),
            trim(t@) == trim_end(t@.subrange(a as int, b as int)),
        decreases b,
    {
        assert(t@.subrange(a as int, b as int).drop_last() =~= t@.subrange(a as int, b - 1));
        b = b - 1;
    }
    slice_of(t, a, b)
}

fn unescaped(v: &Vec<char>) -> (r: Vec<char>)
    ensures
        r@ == unescape(v@),
{
    let mut out: Vec<char> = Vec::new();
    let mut i: usize = 0;
    assert(v@.skip(0) =~= v@);
    assert(out@ + v@ =~= v@);
    while i < v.len()
        invariant
            i <= v@.len(),
            unescape(v@) == out@ + unescape(v@.skip(i as int)),
        decreases v@.len() - i,
    {
        let ghost rest = v@.skip(i as int);
        if i + 1 < v.len() && v[i] == '\\' && (v[i + 1] == 'n' || v[i + 1] == '\\') {
            assert(rest[0] == v@[i as int] && rest[1] == v@[i + 1]);
            assert(rest.skip(2) =~= v@.skip(i + 2));
            if v[i + 1] == 'n' {
                out.push('\n');
            } else {
                out.push('\\');
            }
            i = i + 2;
        } else {
            assert(rest[0] == v@[i as int]);
            assert(!(rest.len() >= 2 && rest[0] == '\\' && (rest[1] == 'n' || rest[1] == '\\'))) by {
                if rest.len() >= 2 {
                    assert(rest[1] == v@[i + 1]);
                }
            }
            assert(rest.skip(1) =~= v@.skip(i + 1));
            out.push(v[i]);
            i = i + 1;
        }
    }
    assert(v@.skip(i as int) =~= Seq::<char>::empty());
    assert(out@ + Seq::<char>::empty() =~= out@);
    out
}

proof fn lemma_digits_step(d: Seq<char>, i: int)
    requires
        0 <= i < d.len(),
    ensures
        digits_value(d.take(i + 1)) == digits_value(d.take(i)) * 10 + (d[i] as int - '0' as int),
{
    assert(d.take(i + 1).drop_last() =~= d.take(i));
}

proof fn lemma_digits_nonneg(d: Seq<char>, k: int)
    requires
        0 <= k <= d.len(),
        forall|x: int| 0 <= x < d.len() ==> is_digit(#[trigger] d[x]),
    ensures
        digits_value(d.take(k)) >= 0,
    decreases k,
{
    if k > 0 {
        lemma_digits_nonneg(d, k - 1);
        lemma_digits_step(d, k - 1);
        assert(is_digit(d[k - 1]));
    }
}

proof fn lemma_digits_monotone(d: Seq<char>, j: int, k: int)
    requires
        0 <= j <= k <= d.len(),
        forall|x: int| 0 <= x < d.len() ==> is_digit(#[trigger] d[x]),
    ensures
        digits_value(d.take(j)) <= digits_value(d.take(k)),
    decreases k - j,
{
    if j < k {
        lemma_digits_monotone(d, j, k - 1);
        lemma_digits_nonneg(d, k - 1);
        lemma_digits_step(d, k - 1);
        assert(is_digit(d[k - 1]));
    }
}

/// The value of a decimal numeral that fits in a `u64`.
fn digits_of(d: &Vec<char>) -> (r: Option<u64>)
    ensures
        match r {
            Some(v) => is_numeral(d@) && digits_value(d@) == v as int,
            None => !is_numeral(d@) || digits_value(d@) > u64::MAX,
        },
{
    if d.len() == 0 {
        return None;
    }
    let mut acc: u64 = 0;
    let mut i: usize = 0;
    assert(d@.take(0) =~= Seq::<char>::empty());
    while i < d.len()
        invariant
            i <= d@.len(),
            acc as int == digits_value(d@.take(i as int)),
            forall|j: int| 0 <= j < i ==> is_digit(#[trigger] d@[j]),
        decreases d@.len() - i,
    {
        let c = d[i];
        if !('0' <= c && c <= '9') {
            return None;
        }
        proof {
            lemma_digits_step(d@, i as int);
        }
        let digit = (c as u32 - '0' as u32) as u64;
        let next = match acc.checked_mul(10) {
            Some(m) => m.checked_add(digit),
            None => None,
        };
        match next {
            Some(v) => {
                acc = v;
            },
            None => {
                proof {
                    if is_numeral(d@) {
                        lemma_digits_monotone(d@, i + 1, d@.len() as int);
                        assert(d@.take(d@.len() as int) =~= d@);
                    }
                }
                return None;
            },
        }
        i = i + 1;
    }
    assert(d@.take(i as int) =~= d@);
    Some(acc)
}

/// An unsigned integer of at most `max`, in Rust's syntax.
fn unsigned_of(val: &Vec<char>, max: u64) -> (r: Option<u64>)
    ensures
        match r {
            Some(v) => parse_unsigned(val@, max as int) == Some(v as int),
            None => parse_unsigned(val@, max as int) is None,
        },
{
    let d = if val.len() > 0 && val[0] == '+' {
        slice_of(val, 1, val.len())
    } else {
        slice_of(val, 0, val.len())
    };
    assert(val@.subrange(0, val@.len() as int) =~= val@);
    assert(val@.len() > 0 ==> val@.subrange(1, val@.len() as int) =~= val@.drop_first());
    match digits_of(&d) {
        Some(v) => if v <= max {
            Some(v)
        } else {
            None
        },
        None => None,
    }
}

/// A signed `i64`, in Rust's syntax.
fn signed_of(val: &Vec<char>) -> (r: Option<i64>)
    ensures
        match r {
            Some(v) => parse_signed(val@) == Some(v as int),
            None => parse_signed(val@) is None,
        },
{
    if val.len() > 0 && val[0] == '-' {
        let d = slice_of(val, 1, val.len());
        assert(d@ =~= val@.drop_first());
        match digits_of(&d) {
            Some(m) => if m <= 0x7fff_ffff_ffff_ffff {
                Some(-(m as i64))
            } else if m == 0x8000_0000_0000_0000 {
                Some(i64::MIN)
            } else {
                None
            },
            None => None,
        }
    } else {
        match unsigned_of(val, 0x7fff_ffff_ffff_ffff) {
            Some(v) => Some(v as i64),
            None => None,
        }
    }
}

/// Appends the bytes of one instruction.
fn encode_line_exec(code: u8, val: &Vec<char>, float: Option<u64>, out: &mut Vec<u8>) -> (r: Result<(), AsmErrorKind>)
    ensures
        match r {
            Ok(()) => encode_line(code, val@, float) matches Ok(b) && final(out)@ == old(out)@ + b,
            Err(k) => encode_line(code, val@, float) == Err::<Seq<u8>, _>(k),
        },
{
    match shape(code) {
        Some(Shape::Byte) => match unsigned_of(val, 255) {
            Some(v) => {
                out.push(code);
                out.push(v as u8);
                assert(out@ =~= old(out)@ + seq![code, v as u8]);
                Ok(())
            },
            None => Err(AsmErrorKind::InvalidInteger),
        },
        Some(Shape::Int) => match signed_of(val) {
            Some(v) => {
                out.push(code);
                let w = u64_to_le_bytes(v as u64);
                append(out, w.as_slice());
                assert(out@ =~= old(out)@ + (seq![code] + spec_u64_to_le_bytes((v as i64) as u64)));
                Ok(())
            },
            None => Err(AsmErrorKind::InvalidInteger),
        },
        Some(Shape::UInt) => match unsigned_of(val, u64::MAX) {
            Some(v) => {
                out.push(code);
                let w = u64_to_le_bytes(v);
                append(out, w.as_slice());
                assert(out@ =~= old(out)@ + (seq![code] + spec_u64_to_le_bytes(v)));
                Ok(())
            },
            None => Err(AsmErrorKind::InvalidInteger),
        },
        Some(Shape::Float) => match float {
            Some(bits) => {
                out.push(code);
                let w = u64_to_le_bytes(bits);
                append(out, w.as_slice());
                assert(out@ =~= old(out)@ + (seq![code] + spec_u64_to_le_bytes(bits)));
                Ok(())
            },
            None => Err(AsmErrorKind::InvalidFloat),
        },
        Some(Shape::Bool) => {
            let text = string_of(val);
            if str_eq(text.as_str(), "true") {
                out.push(code);
                out.push(1u8);
                assert(out@ =~= old(out)@ + seq![code, 1u8]);
                Ok(())
            } else if str_eq(text.as_str(), "false") {
                out.push(code);
                out.push(0u8);
                assert(out@ =~= old(out)@ + seq![code, 0u8]);
                Ok(())
            } else {
                Err(AsmErrorKind::InvalidBool)
            }
        },
        Some(Shape::LongText) => {
            let text = string_of(&unescaped(val));
            let b = text.as_str().as_bytes();
            if b.len() > 0xffff_ffff {
                return Err(AsmErrorKind::TextTooLong);
            }
            out.push(code);
            let w = u32_to_le_bytes(b.len() as u32);
            append(out, w.as_slice());
            append(out, b);
            assert(out@ =~= old(out)@ + (seq![code] + spec_u32_to_le_bytes(b@.len() as u32) + b@));
            Ok(())
        },
        Some(Shape::Name) | Some(Shape::Label) => {
            let text = string_of(val);
            let b = text.as_str().as_bytes();
            if b.len() > 255 {
                return Err(AsmErrorKind::NameTooLong);
            }
            out.push(code);
            out.push(b.len() as u8);
            append(out, b);
            assert(out@ =~= old(out)@ + (seq![code, b@.len() as u8] + b@));
            Ok(())
        },
        _ => {
            out.push(code);
            assert(out@ =~= old(out)@ + seq![code]);
            Ok(())
        },
    }
}

/// A trimmed line split into its mnemonic and operand.
fn split_line(t: &Vec<char>) -> (r: (Vec<char>, Vec<char>))
    ensures
        (r.0@, r.1@) == line_parts(t@),
{
    let p = find_char(t, 0, ' ');
    if p < t.len() {
        let op = trimmed(&slice_of(t, 0, p));
        let val = trimmed(&slice_of(t, p + 1, t.len()));
        assert(t@.subrange(0, p as int) =~= t@.take(p as int));
        assert(t@.subrange(p + 1, t@.len() as int) =~= t@.skip(p + 1));
        (op, val)
    } else {
        let op = slice_of(t, 0, t.len());
        assert(t@.subrange(0, t@.len() as int) =~= t@);
        (op, Vec::new())
    }
}

/// Assembles source text into bytecode. `floats` holds the host's reading
/// of each float operand, in the order of [`float_literals`]: the bit
/// pattern, or `None` where the text is no float.
pub fn parse(source: &str, floats: &Vec<Option<u64>>) -> (r: Result<Vec<u8>, AsmError>)
    ensures
        match r {
            Ok(b) => assemble(source@, floats@) == Ok::<_, AsmError>(b@),
            Err(e) => assemble(source@, floats@) == Err::<Seq<u8>, _>(e),
        },
{
    let s = chars_of(source);
    let mut out: Vec<u8> = Vec::new();
    let mut start: usize = 0;
    let mut done: usize = 0;
    let mut fi: usize = 0;
    while start < s.len()
        invariant
            start <= s@.len(),
            s@ == source@,
            done <= start,
            fi <= start,
            assemble(source@, floats@) == assemble_at(s@, start as int, done + 1, fi as int, floats@, out@),
        decreases s@.len() - start,
    {
        let end = find_char(&s, start, '\n');
        let t = trimmed(&slice_of(&s, start, end));
        if !(t.len() == 0 || t[0] == '#') {
            let (op, val) = split_line(&t);
            let code = match lookup_mnemonic(string_of(&op).as_str()) {
                Some(c) => c,
                None => return Err(AsmError { line: done + 1, kind: AsmErrorKind::UnknownInstruction }),
            };
            let float = if fi < floats.len() {
                floats[fi]
            } else {
                None
            };
            match encode_line_exec(code, &val, float, &mut out) {
                Ok(()) => {},
                Err(kind) => return Err(AsmError { line: done + 1, kind }),
            }
            if let Some(Shape::Float) = shape(code) {
                fi = fi + 1;
            }
        }
        if end >= s.len() {
            start = s.len();
        } else {
            start = end + 1;
            done = done + 1;
        }
    }
    Ok(out)
}

/// The operand text of each line with a float operand, in order: what the
/// host reads into the `floats` that [`parse`] takes.
pub fn float_literals(source: &str) -> (r: Vec<String>)
    ensures
        r@.map_values(|x: String| x@) == float_operands(source@),
{
    let s = chars_of(source);
    let mut out: Vec<String> = Vec::new();
    let mut start: usize = 0;
    assert(out@.map_values(|x: String| x@) =~= Seq::<Seq<char>>::empty());
    while start < s.len()
        invariant
            start <= s@.len(),
            s@ == source@,
            float_operands(source@) == floats_at(s@, start as int, out@.map_values(|x: String| x@)),
        decreases s@.len() - start,
    {
        let end = find_char(&s, start, '\n');
        let t = trimmed(&slice_of(&s, start, end));
        if !(t.len() == 0 || t[0] == '#') {
            let (op, val) = split_line(&t);
            if let Some(code) = lookup_mnemonic(string_of(&op).as_str()) {
                if let Some(Shape::Float) = shape(code) {
                    let ghost before = out@.map_values(|x: String| x@);
                    out.push(string_of(&val));
                    assert(out@.map_values(|x: String| x@) =~= before.push(val@));
                }
            }
        }
        if end >= s.len() {
            start = s.len();
        } else {
            start = end + 1;
        }
    }
    out
}

} // verus!
