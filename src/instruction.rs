//! The instruction set, and the shape of each instruction's immediate operand.
use crate::opcodes::{
    OP_EXIT, OP_EXIT_IMMEDIATE, OP_PUSH_INT, OP_PUSH_UINT,
    OP_PUSH_FLOAT, OP_PUSH_BOOL, OP_PUSH_STRING, OP_POP,
    OP_DUP, OP_SWAP, OP_ADD, OP_ADD_I,
    OP_ADD_U, OP_ADD_F, OP_SUB, OP_SUB_I,
    OP_SUB_U, OP_SUB_F, OP_MUL, OP_MUL_I,
    OP_MUL_U, OP_MUL_F, OP_DIV, OP_DIV_I,
    OP_DIV_U, OP_DIV_F, OP_MOD, OP_MOD_I,
    OP_MOD_U, OP_EXP, OP_EXP_I, OP_EXP_U,
    OP_EXP_F, OP_LOAD, OP_LOAD_IMM, OP_STORE,
    OP_STORE_IMM, OP_FREE, OP_FREE_IMM, OP_CMP_EQUAL,
    OP_CMP_NOT_EQUAL, OP_CMP_GREATER_THAN, OP_CMP_LESS_THAN, OP_CMP_GREATER_EQUAL,
    OP_CMP_LESS_EQUAL, OP_JUMP, OP_JUMP_IF, OP_CALL,
    OP_CALL_NATIVE, OP_RET, OP_LABEL,
};
use vstd::prelude::*;

verus! {

/// One instruction. Float immediates are IEEE-754 binary64 bit patterns.
#[derive(Debug, Clone)]
pub enum Instruction {
    Exit,
    ExitImmediate(u8),
    PushInt(i64),
    PushUInt(u64),
    PushFloat(u64),
    PushBool(bool),
    PushString(String),
    Pop,
    Dup,
    Swap,
    Add,
    AddI(i64),
    AddU(u64),
    AddF(u64),
    Sub,
    SubI(i64),
    SubU(u64),
    SubF(u64),
    Mul,
    MulI(i64),
    MulU(u64),
    MulF(u64),
    Div,
    DivI(i64),
    DivU(u64),
    DivF(u64),
    Mod,
    ModI(i64),
    ModU(u64),
    Exp,
    ExpI(i64),
    ExpU(u64),
    ExpF(u64),
    Load,
    LoadImm(String),
    Store,
    StoreImm(String),
    Free,
    FreeImm(String),
    CmpEqual,
    CmpNotEqual,
    CmpGreaterThan,
    CmpLessThan,
    CmpGreaterEqual,
    CmpLessEqual,
    Jump(String),
    JumpIf(String),
    Call(String),
    CallNative(String),
    Ret,
}

/// The immediate operand of an instruction, as a mathematical value.
pub enum Operand {
    Nothing,
    Byte(u8),
    Int(i64),
    UInt(u64),
    Float(u64),
    Bool(bool),
    Text(Seq<char>),
}

/// How the bytes after an opcode are laid out.
#[derive(Debug, Clone, Copy, PartialEq, Eq, Structural)]
pub enum Shape {
    /// No immediate.
    Plain,
    /// One byte.
    Byte,
    /// Eight little-endian bytes of an `i64`.
    Int,
    /// Eight little-endian bytes of a `u64`.
    UInt,
    /// Eight little-endian bytes of a float's bit pattern.
    Float,
    /// One byte: zero is false, anything else true.
    Bool,
    /// A four-byte little-endian length, then that many bytes of UTF-8.
    LongText,
    /// A one-byte length, then that many bytes of UTF-8.
    Name,
    /// A name that binds a label instead of making an instruction.
    Label,
}

/// The shape of the immediate that follows an opcode, or `None` for a byte
/// that is no opcode.
pub open spec fn shape_of(op: u8) -> Option<Shape> {
    if op == OP_EXIT {
        Some(Shape::Plain)
    } else if op == OP_EXIT_IMMEDIATE {
        Some(Shape::Byte)
    } else if op == OP_PUSH_INT {
        Some(Shape::Int)
    } else if op == OP_PUSH_UINT {
        Some(Shape::UInt)
    } else if op == OP_PUSH_FLOAT {
        Some(Shape::Float)
    } else if op == OP_PUSH_BOOL {
        Some(Shape::Bool)
    } else if op == OP_PUSH_STRING {
        Some(Shape::LongText)
    } else if op == OP_POP {
        Some(Shape::Plain)
    } else if op == OP_DUP {
        Some(Shape::Plain)
    } else if op == OP_SWAP {
        Some(Shape::Plain)
    } else if op == OP_ADD {
        Some(Shape::Plain)
    } else if op == OP_ADD_I {
        Some(Shape::Int)
    } else if op == OP_ADD_U {
        Some(Shape::UInt)
    } else if op == OP_ADD_F {
        Some(Shape::Float)
    } else if op == OP_SUB {
        Some(Shape::Plain)
    } else if op == OP_SUB_I {
        Some(Shape::Int)
    } else if op == OP_SUB_U {
        Some(Shape::UInt)
    } else if op == OP_SUB_F {
        Some(Shape::Float)
    } else if op == OP_MUL {
        Some(Shape::Plain)
    } else if op == OP_MUL_I {
        Some(Shape::Int)
    } else if op == OP_MUL_U {
        Some(Shape::UInt)
    } else if op == OP_MUL_F {
        Some(Shape::Float)
    } else if op == OP_DIV {
        Some(Shape::Plain)
    } else if op == OP_DIV_I {
        Some(Shape::Int)
    } else if op == OP_DIV_U {
        Some(Shape::UInt)
    } else if op == OP_DIV_F {
        Some(Shape::Float)
    } else if op == OP_MOD {
        Some(Shape::Plain)
    } else if op == OP_MOD_I {
        Some(Shape::Int)
    } else if op == OP_MOD_U {
        Some(Shape::UInt)
    } else if op == OP_EXP {
        Some(Shape::Plain)
    } else if op == OP_EXP_I {
        Some(Shape::Int)
    } else if op == OP_EXP_U {
        Some(Shape::UInt)
    } else if op == OP_EXP_F {
        Some(Shape::Float)
    } else if op == OP_LOAD {
        Some(Shape::Plain)
    } else if op == OP_LOAD_IMM {
        Some(Shape::Name)
    } else if op == OP_STORE {
        Some(Shape::Plain)
    } else if op == OP_STORE_IMM {
        Some(Shape::Name)
    } else if op == OP_FREE {
        Some(Shape::Plain)
    } else if op == OP_FREE_IMM {
        Some(Shape::Name)
    } else if op == OP_CMP_EQUAL {
        Some(Shape::Plain)
    } else if op == OP_CMP_NOT_EQUAL {
        Some(Shape::Plain)
    } else if op == OP_CMP_GREATER_THAN {
        Some(Shape::Plain)
    } else if op == OP_CMP_LESS_THAN {
        Some(Shape::Plain)
    } else if op == OP_CMP_GREATER_EQUAL {
        Some(Shape::Plain)
    } else if op == OP_CMP_LESS_EQUAL {
        Some(Shape::Plain)
    } else if op == OP_JUMP {
        Some(Shape::Name)
    } else if op == OP_JUMP_IF {
        Some(Shape::Name)
    } else if op == OP_CALL {
        Some(Shape::Name)
    } else if op == OP_CALL_NATIVE {
        Some(Shape::Name)
    } else if op == OP_RET {
        Some(Shape::Plain)
    } else if op == OP_LABEL {
        Some(Shape::Label)
    } else {
        None
    }
}

/// The shape of the immediate that follows an opcode.
pub fn shape(op: u8) -> (r: Option<Shape>)
    ensures
        r == shape_of(op),
{
    if op == OP_EXIT {
        Some(Shape::Plain)
    } else if op == OP_EXIT_IMMEDIATE {
        Some(Shape::Byte)
    } else if op == OP_PUSH_INT {
        Some(Shape::Int)
    } else if op == OP_PUSH_UINT {
        Some(Shape::UInt)
    } else if op == OP_PUSH_FLOAT {
        Some(Shape::Float)
    } else if op == OP_PUSH_BOOL {
        Some(Shape::Bool)
    } else if op == OP_PUSH_STRING {
        Some(Shape::LongText)
    } else if op == OP_POP {
        Some(Shape::Plain)
    } else if op == OP_DUP {
        Some(Shape::Plain)
    } else if op == OP_SWAP {
        Some(Shape::Plain)
    } else if op == OP_ADD {
        Some(Shape::Plain)
    } else if op == OP_ADD_I {
        Some(Shape::Int)
    } else if op == OP_ADD_U {
        Some(Shape::UInt)
    } else if op == OP_ADD_F {
        Some(Shape::Float)
    } else if op == OP_SUB {
        Some(Shape::Plain)
    } else if op == OP_SUB_I {
        Some(Shape::Int)
    } else if op == OP_SUB_U {
        Some(Shape::UInt)
    } else if op == OP_SUB_F {
        Some(Shape::Float)
    } else if op == OP_MUL {
        Some(Shape::Plain)
    } else if op == OP_MUL_I {
        Some(Shape::Int)
    } else if op == OP_MUL_U {
        Some(Shape::UInt)
    } else if op == OP_MUL_F {
        Some(Shape::Float)
    } else if op == OP_DIV {
        Some(Shape::Plain)
    } else if op == OP_DIV_I {
        Some(Shape::Int)
    } else if op == OP_DIV_U {
        Some(Shape::UInt)
    } else if op == OP_DIV_F {
        Some(Shape::Float)
    } else if op == OP_MOD {
        Some(Shape::Plain)
    } else if op == OP_MOD_I {
        Some(Shape::Int)
    } else if op == OP_MOD_U {
        Some(Shape::UInt)
    } else if op == OP_EXP {
        Some(Shape::Plain)
    } else if op == OP_EXP_I {
        Some(Shape::Int)
    } else if op == OP_EXP_U {
        Some(Shape::UInt)
    } else if op == OP_EXP_F {
        Some(Shape::Float)
    } else if op == OP_LOAD {
        Some(Shape::Plain)
    } else if op == OP_LOAD_IMM {
        Some(Shape::Name)
    } else if op == OP_STORE {
        Some(Shape::Plain)
    } else if op == OP_STORE_IMM {
        Some(Shape::Name)
    } else if op == OP_FREE {
        Some(Shape::Plain)
    } else if op == OP_FREE_IMM {
        Some(Shape::Name)
    } else if op == OP_CMP_EQUAL {
        Some(Shape::Plain)
    } else if op == OP_CMP_NOT_EQUAL {
        Some(Shape::Plain)
    } else if op == OP_CMP_GREATER_THAN {
        Some(Shape::Plain)
    } else if op == OP_CMP_LESS_THAN {
        Some(Shape::Plain)
    } else if op == OP_CMP_GREATER_EQUAL {
        Some(Shape::Plain)
    } else if op == OP_CMP_LESS_EQUAL {
        Some(Shape::Plain)
    } else if op == OP_JUMP {
        Some(Shape::Name)
    } else if op == OP_JUMP_IF {
        Some(Shape::Name)
    } else if op == OP_CALL {
        Some(Shape::Name)
    } else if op == OP_CALL_NATIVE {
        Some(Shape::Name)
    } else if op == OP_RET {
        Some(Shape::Plain)
    } else if op == OP_LABEL {
        Some(Shape::Label)
    } else {
        None
    }
}

/// Whether an operand has the kind that a shape calls for.
pub open spec fn fits_shape(s: Shape, o: Operand) -> bool {
    match (s, o) {
        (Shape::Plain, Operand::Nothing) => true,
        (Shape::Byte, Operand::Byte(_)) => true,
        (Shape::Int, Operand::Int(_)) => true,
        (Shape::UInt, Operand::UInt(_)) => true,
        (Shape::Float, Operand::Float(_)) => true,
        (Shape::Bool, Operand::Bool(_)) => true,
        (Shape::LongText, Operand::Text(_)) => true,
        (Shape::Name, Operand::Text(_)) => true,
        _ => false,
    }
}

impl Instruction {
    /// The opcode of this instruction.
    pub open spec fn opcode(&self) -> u8 {
        match self {
            Instruction::Exit => OP_EXIT,
            Instruction::ExitImmediate(_) => OP_EXIT_IMMEDIATE,
            Instruction::PushInt(_) => OP_PUSH_INT,
            Instruction::PushUInt(_) => OP_PUSH_UINT,
            Instruction::PushFloat(_) => OP_PUSH_FLOAT,
            Instruction::PushBool(_) => OP_PUSH_BOOL,
            Instruction::PushString(_) => OP_PUSH_STRING,
            Instruction::Pop => OP_POP,
            Instruction::Dup => OP_DUP,
            Instruction::Swap => OP_SWAP,
            Instruction::Add => OP_ADD,
            Instruction::AddI(_) => OP_ADD_I,
            Instruction::AddU(_) => OP_ADD_U,
            Instruction::AddF(_) => OP_ADD_F,
            Instruction::Sub => OP_SUB,
            Instruction::SubI(_) => OP_SUB_I,
            Instruction::SubU(_) => OP_SUB_U,
            Instruction::SubF(_) => OP_SUB_F,
            Instruction::Mul => OP_MUL,
            Instruction::MulI(_) => OP_MUL_I,
            Instruction::MulU(_) => OP_MUL_U,
            Instruction::MulF(_) => OP_MUL_F,
            Instruction::Div => OP_DIV,
            Instruction::DivI(_) => OP_DIV_I,
            Instruction::DivU(_) => OP_DIV_U,
            Instruction::DivF(_) => OP_DIV_F,
            Instruction::Mod => OP_MOD,
            Instruction::ModI(_) => OP_MOD_I,
            Instruction::ModU(_) => OP_MOD_U,
            Instruction::Exp => OP_EXP,
            Instruction::ExpI(_) => OP_EXP_I,
            Instruction::ExpU(_) => OP_EXP_U,
            Instruction::ExpF(_) => OP_EXP_F,
            Instruction::Load => OP_LOAD,
            Instruction::LoadImm(_) => OP_LOAD_IMM,
            Instruction::Store => OP_STORE,
            Instruction::StoreImm(_) => OP_STORE_IMM,
            Instruction::Free => OP_FREE,
            Instruction::FreeImm(_) => OP_FREE_IMM,
            Instruction::CmpEqual => OP_CMP_EQUAL,
            Instruction::CmpNotEqual => OP_CMP_NOT_EQUAL,
            Instruction::CmpGreaterThan => OP_CMP_GREATER_THAN,
            Instruction::CmpLessThan => OP_CMP_LESS_THAN,
            Instruction::CmpGreaterEqual => OP_CMP_GREATER_EQUAL,
            Instruction::CmpLessEqual => OP_CMP_LESS_EQUAL,
            Instruction::Jump(_) => OP_JUMP,
            Instruction::JumpIf(_) => OP_JUMP_IF,
            Instruction::Call(_) => OP_CALL,
            Instruction::CallNative(_) => OP_CALL_NATIVE,
            Instruction::Ret => OP_RET,
        }
    }

    /// The immediate operand of this instruction.
    pub open spec fn operand(&self) -> Operand {
        match self {
            Instruction::Exit => Operand::Nothing,
            Instruction::ExitImmediate(v) => Operand::Byte(*v),
            Instruction::PushInt(v) => Operand::Int(*v),
            Instruction::PushUInt(v) => Operand::UInt(*v),
            Instruction::PushFloat(v) => Operand::Float(*v),
            Instruction::PushBool(v) => Operand::Bool(*v),
            Instruction::PushString(v) => Operand::Text(v@),
            Instruction::Pop => Operand::Nothing,
            Instruction::Dup => Operand::Nothing,
            Instruction::Swap => Operand::Nothing,
            Instruction::Add => Operand::Nothing,
            Instruction::AddI(v) => Operand::Int(*v),
            Instruction::AddU(v) => Operand::UInt(*v),
            Instruction::AddF(v) => Operand::Float(*v),
            Instruction::Sub => Operand::Nothing,
            Instruction::SubI(v) => Operand::Int(*v),
            Instruction::SubU(v) => Operand::UInt(*v),
            Instruction::SubF(v) => Operand::Float(*v),
            Instruction::Mul => Operand::Nothing,
            Instruction::MulI(v) => Operand::Int(*v),
            Instruction::MulU(v) => Operand::UInt(*v),
            Instruction::MulF(v) => Operand::Float(*v),
            Instruction::Div => Operand::Nothing,
            Instruction::DivI(v) => Operand::Int(*v),
            Instruction::DivU(v) => Operand::UInt(*v),
            Instruction::DivF(v) => Operand::Float(*v),
            Instruction::Mod => Operand::Nothing,
            Instruction::ModI(v) => Operand::Int(*v),
            Instruction::ModU(v) => Operand::UInt(*v),
            Instruction::Exp => Operand::Nothing,
            Instruction::ExpI(v) => Operand::Int(*v),
            Instruction::ExpU(v) => Operand::UInt(*v),
            Instruction::ExpF(v) => Operand::Float(*v),
            Instruction::Load => Operand::Nothing,
            Instruction::LoadImm(v) => Operand::Text(v@),
            Instruction::Store => Operand::Nothing,
            Instruction::StoreImm(v) => Operand::Text(v@),
            Instruction::Free => Operand::Nothing,
            Instruction::FreeImm(v) => Operand::Text(v@),
            Instruction::CmpEqual => Operand::Nothing,
            Instruction::CmpNotEqual => Operand::Nothing,
            Instruction::CmpGreaterThan => Operand::Nothing,
            Instruction::CmpLessThan => Operand::Nothing,
            Instruction::CmpGreaterEqual => Operand::Nothing,
            Instruction::CmpLessEqual => Operand::Nothing,
            Instruction::Jump(v) => Operand::Text(v@),
            Instruction::JumpIf(v) => Operand::Text(v@),
            Instruction::Call(v) => Operand::Text(v@),
            Instruction::CallNative(v) => Operand::Text(v@),
            Instruction::Ret => Operand::Nothing,
        }
    }

    /// The opcode and operand: what the binary format records of it.
    pub open spec fn model(&self) -> (u8, Operand) {
        (self.opcode(), self.operand())
    }

    /// The opcode of this instruction.
    pub fn tag(&self) -> (r: u8)
        ensures
            r == self.opcode(),
    {
        match self {
            Instruction::Exit => OP_EXIT,
            Instruction::ExitImmediate(_) => OP_EXIT_IMMEDIATE,
            Instruction::PushInt(_) => OP_PUSH_INT,
            Instruction::PushUInt(_) => OP_PUSH_UINT,
            Instruction::PushFloat(_) => OP_PUSH_FLOAT,
            Instruction::PushBool(_) => OP_PUSH_BOOL,
            Instruction::PushString(_) => OP_PUSH_STRING,
            Instruction::Pop => OP_POP,
            Instruction::Dup => OP_DUP,
            Instruction::Swap => OP_SWAP,
            Instruction::Add => OP_ADD,
            Instruction::AddI(_) => OP_ADD_I,
            Instruction::AddU(_) => OP_ADD_U,
            Instruction::AddF(_) => OP_ADD_F,
            Instruction::Sub => OP_SUB,
            Instruction::SubI(_) => OP_SUB_I,
            Instruction::SubU(_) => OP_SUB_U,
            Instruction::SubF(_) => OP_SUB_F,
            Instruction::Mul => OP_MUL,
            Instruction::MulI(_) => OP_MUL_I,
            Instruction::MulU(_) => OP_MUL_U,
            Instruction::MulF(_) => OP_MUL_F,
            Instruction::Div => OP_DIV,
            Instruction::DivI(_) => OP_DIV_I,
            Instruction::DivU(_) => OP_DIV_U,
            Instruction::DivF(_) => OP_DIV_F,
            Instruction::Mod => OP_MOD,
            Instruction::ModI(_) => OP_MOD_I,
            Instruction::ModU(_) => OP_MOD_U,
            Instruction::Exp => OP_EXP,
            Instruction::ExpI(_) => OP_EXP_I,
            Instruction::ExpU(_) => OP_EXP_U,
            Instruction::ExpF(_) => OP_EXP_F,
            Instruction::Load => OP_LOAD,
            Instruction::LoadImm(_) => OP_LOAD_IMM,
            Instruction::Store => OP_STORE,
            Instruction::StoreImm(_) => OP_STORE_IMM,
            Instruction::Free => OP_FREE,
            Instruction::FreeImm(_) => OP_FREE_IMM,
            Instruction::CmpEqual => OP_CMP_EQUAL,
            Instruction::CmpNotEqual => OP_CMP_NOT_EQUAL,
            Instruction::CmpGreaterThan => OP_CMP_GREATER_THAN,
            Instruction::CmpLessThan => OP_CMP_LESS_THAN,
            Instruction::CmpGreaterEqual => OP_CMP_GREATER_EQUAL,
            Instruction::CmpLessEqual => OP_CMP_LESS_EQUAL,
            Instruction::Jump(_) => OP_JUMP,
            Instruction::JumpIf(_) => OP_JUMP_IF,
            Instruction::Call(_) => OP_CALL,
            Instruction::CallNative(_) => OP_CALL_NATIVE,
            Instruction::Ret => OP_RET,
        }
    }

    /// A copy of this instruction.
    pub fn duplicate(&self) -> (r: Instruction)
        ensures
            r == *self,
    {
        match self {
            Instruction::Exit => Instruction::Exit,
            Instruction::ExitImmediate(v) => Instruction::ExitImmediate(*v),
            Instruction::PushInt(v) => Instruction::PushInt(*v),
            Instruction::PushUInt(v) => Instruction::PushUInt(*v),
            Instruction::PushFloat(v) => Instruction::PushFloat(*v),
            Instruction::PushBool(v) => Instruction::PushBool(*v),
            Instruction::PushString(v) => Instruction::PushString(v.clone()),
            Instruction::Pop => Instruction::Pop,
            Instruction::Dup => Instruction::Dup,
            Instruction::Swap => Instruction::Swap,
            Instruction::Add => Instruction::Add,
            Instruction::AddI(v) => Instruction::AddI(*v),
            Instruction::AddU(v) => Instruction::AddU(*v),
            Instruction::AddF(v) => Instruction::AddF(*v),
            Instruction::Sub => Instruction::Sub,
            Instruction::SubI(v) => Instruction::SubI(*v),
            Instruction::SubU(v) => Instruction::SubU(*v),
            Instruction::SubF(v) => Instruction::SubF(*v),
            Instruction::Mul => Instruction::Mul,
            Instruction::MulI(v) => Instruction::MulI(*v),
            Instruction::MulU(v) => Instruction::MulU(*v),
            Instruction::MulF(v) => Instruction::MulF(*v),
            Instruction::Div => Instruction::Div,
            Instruction::DivI(v) => Instruction::DivI(*v),
            Instruction::DivU(v) => Instruction::DivU(*v),
            Instruction::DivF(v) => Instruction::DivF(*v),
            Instruction::Mod => Instruction::Mod,
            Instruction::ModI(v) => Instruction::ModI(*v),
            Instruction::ModU(v) => Instruction::ModU(*v),
            Instruction::Exp => Instruction::Exp,
            Instruction::ExpI(v) => Instruction::ExpI(*v),
            Instruction::ExpU(v) => Instruction::ExpU(*v),
            Instruction::ExpF(v) => Instruction::ExpF(*v),
            Instruction::Load => Instruction::Load,
            Instruction::LoadImm(v) => Instruction::LoadImm(v.clone()),
            Instruction::Store => Instruction::Store,
            Instruction::StoreImm(v) => Instruction::StoreImm(v.clone()),
            Instruction::Free => Instruction::Free,
            Instruction::FreeImm(v) => Instruction::FreeImm(v.clone()),
            Instruction::CmpEqual => Instruction::CmpEqual,
            Instruction::CmpNotEqual => Instruction::CmpNotEqual,
            Instruction::CmpGreaterThan => Instruction::CmpGreaterThan,
            Instruction::CmpLessThan => Instruction::CmpLessThan,
            Instruction::CmpGreaterEqual => Instruction::CmpGreaterEqual,
            Instruction::CmpLessEqual => Instruction::CmpLessEqual,
            Instruction::Jump(v) => Instruction::Jump(v.clone()),
            Instruction::JumpIf(v) => Instruction::JumpIf(v.clone()),
            Instruction::Call(v) => Instruction::Call(v.clone()),
            Instruction::CallNative(v) => Instruction::CallNative(v.clone()),
            Instruction::Ret => Instruction::Ret,
        }
    }
}

/// Every instruction's operand has the shape its opcode declares.
pub proof fn lemma_operand_fits(i: Instruction)
    ensures
        shape_of(i.opcode()) matches Some(s) && s != Shape::Label && fits_shape(s, i.operand()),
{
}

impl PartialEq for Instruction {
    fn eq(&self, other: &Instruction) -> (r: bool)
        ensures
            r == (self.model() == other.model()),
    {
        match (self, other) {
            (Instruction::Exit, Instruction::Exit) => true,
            (Instruction::ExitImmediate(a), Instruction::ExitImmediate(b)) => *a == *b,
            (Instruction::PushInt(a), Instruction::PushInt(b)) => *a == *b,
            (Instruction::PushUInt(a), Instruction::PushUInt(b)) => *a == *b,
            (Instruction::PushFloat(a), Instruction::PushFloat(b)) => *a == *b,
            (Instruction::PushBool(a), Instruction::PushBool(b)) => *a == *b,
            (Instruction::PushString(a), Instruction::PushString(b)) => a.eq(b),
            (Instruction::Pop, Instruction::Pop) => true,
            (Instruction::Dup, Instruction::Dup) => true,
            (Instruction::Swap, Instruction::Swap) => true,
            (Instruction::Add, Instruction::Add) => true,
            (Instruction::AddI(a), Instruction::AddI(b)) => *a == *b,
            (Instruction::AddU(a), Instruction::AddU(b)) => *a == *b,
            (Instruction::AddF(a), Instruction::AddF(b)) => *a == *b,
            (Instruction::Sub, Instruction::Sub) => true,
            (Instruction::SubI(a), Instruction::SubI(b)) => *a == *b,
            (Instruction::SubU(a), Instruction::SubU(b)) => *a == *b,
            (Instruction::SubF(a), Instruction::SubF(b)) => *a == *b,
            (Instruction::Mul, Instruction::Mul) => true,
            (Instruction::MulI(a), Instruction::MulI(b)) => *a == *b,
            (Instruction::MulU(a), Instruction::MulU(b)) => *a == *b,
            (Instruction::MulF(a), Instruction::MulF(b)) => *a == *b,
            (Instruction::Div, Instruction::Div) => true,
            (Instruction::DivI(a), Instruction::DivI(b)) => *a == *b,
            (Instruction::DivU(a), Instruction::DivU(b)) => *a == *b,
            (Instruction::DivF(a), Instruction::DivF(b)) => *a == *b,
            (Instruction::Mod, Instruction::Mod) => true,
            (Instruction::ModI(a), Instruction::ModI(b)) => *a == *b,
            (Instruction::ModU(a), Instruction::ModU(b)) => *a == *b,
            (Instruction::Exp, Instruction::Exp) => true,
            (Instruction::ExpI(a), Instruction::ExpI(b)) => *a == *b,
            (Instruction::ExpU(a), Instruction::ExpU(b)) => *a == *b,
            (Instruction::ExpF(a), Instruction::ExpF(b)) => *a == *b,
            (Instruction::Load, Instruction::Load) => true,
            (Instruction::LoadImm(a), Instruction::LoadImm(b)) => a.eq(b),
            (Instruction::Store, Instruction::Store) => true,
            (Instruction::StoreImm(a), Instruction::StoreImm(b)) => a.eq(b),
            (Instruction::Free, Instruction::Free) => true,
            (Instruction::FreeImm(a), Instruction::FreeImm(b)) => a.eq(b),
            (Instruction::CmpEqual, Instruction::CmpEqual) => true,
            (Instruction::CmpNotEqual, Instruction::CmpNotEqual) => true,
            (Instruction::CmpGreaterThan, Instruction::CmpGreaterThan) => true,
            (Instruction::CmpLessThan, Instruction::CmpLessThan) => true,
            (Instruction::CmpGreaterEqual, Instruction::CmpGreaterEqual) => true,
            (Instruction::CmpLessEqual, Instruction::CmpLessEqual) => true,
            (Instruction::Jump(a), Instruction::Jump(b)) => a.eq(b),
            (Instruction::JumpIf(a), Instruction::JumpIf(b)) => a.eq(b),
            (Instruction::Call(a), Instruction::Call(b)) => a.eq(b),
            (Instruction::CallNative(a), Instruction::CallNative(b)) => a.eq(b),
            (Instruction::Ret, Instruction::Ret) => true,
            _ => {
                proof {
                    lemma_operand_fits(*self);
                    lemma_operand_fits(*other);
                }
                false
            },
        }
    }
}

impl vstd::std_specs::cmp::PartialEqSpecImpl for Instruction {
    open spec fn obeys_eq_spec() -> bool {
        true
    }

    open spec fn eq_spec(&self, other: &Instruction) -> bool {
        self.model() == other.model()
    }
}

/// The instruction with no immediate that opcode `op` stands for.
pub fn plain(op: u8) -> (r: Instruction)
    requires
        shape_of(op) == Some(Shape::Plain),
    ensures
        r.model() == (op, Operand::Nothing),
{
    if op == OP_EXIT {
        Instruction::Exit
    } else if op == OP_POP {
        Instruction::Pop
    } else if op == OP_DUP {
        Instruction::Dup
    } else if op == OP_SWAP {
        Instruction::Swap
    } else if op == OP_ADD {
        Instruction::Add
    } else if op == OP_SUB {
        Instruction::Sub
    } else if op == OP_MUL {
        Instruction::Mul
    } else if op == OP_DIV {
        Instruction::Div
    } else if op == OP_MOD {
        Instruction::Mod
    } else if op == OP_EXP {
        Instruction::Exp
    } else if op == OP_LOAD {
        Instruction::Load
    } else if op == OP_STORE {
        Instruction::Store
    } else if op == OP_FREE {
        Instruction::Free
    } else if op == OP_CMP_EQUAL {
        Instruction::CmpEqual
    } else if op == OP_CMP_NOT_EQUAL {
        Instruction::CmpNotEqual
    } else if op == OP_CMP_GREATER_THAN {
        Instruction::CmpGreaterThan
    } else if op == OP_CMP_LESS_THAN {
        Instruction::CmpLessThan
    } else if op == OP_CMP_GREATER_EQUAL {
        Instruction::CmpGreaterEqual
    } else if op == OP_CMP_LESS_EQUAL {
        Instruction::CmpLessEqual
    } else {
        Instruction::Ret
    }
}

/// The instruction with a byte immediate that opcode `op` stands for.
pub fn with_byte(op: u8, v: u8) -> (r: Instruction)
    requires
        shape_of(op) == Some(Shape::Byte),
    ensures
        r.model() == (op, Operand::Byte(v)),
{
    Instruction::ExitImmediate(v)
}

/// The instruction with an `i64` immediate that opcode `op` stands for.
pub fn with_int(op: u8, v: i64) -> (r: Instruction)
    requires
        shape_of(op) == Some(Shape::Int),
    ensures
        r.model() == (op, Operand::Int(v)),
{
    if op == OP_PUSH_INT {
        Instruction::PushInt(v)
    } else if op == OP_ADD_I {
        Instruction::AddI(v)
    } else if op == OP_SUB_I {
        Instruction::SubI(v)
    } else if op == OP_MUL_I {
        Instruction::MulI(v)
    } else if op == OP_DIV_I {
        Instruction::DivI(v)
    } else if op == OP_MOD_I {
        Instruction::ModI(v)
    } else {
        Instruction::ExpI(v)
    }
}

/// The instruction with a `u64` immediate that opcode `op` stands for.
pub fn with_uint(op: u8, v: u64) -> (r: Instruction)
    requires
        shape_of(op) == Some(Shape::UInt),
    ensures
        r.model() == (op, Operand::UInt(v)),
{
    if op == OP_PUSH_UINT {
        Instruction::PushUInt(v)
    } else if op == OP_ADD_U {
        Instruction::AddU(v)
    } else if op == OP_SUB_U {
        Instruction::SubU(v)
    } else if op == OP_MUL_U {
        Instruction::MulU(v)
    } else if op == OP_DIV_U {
        Instruction::DivU(v)
    } else if op == OP_MOD_U {
        Instruction::ModU(v)
    } else {
        Instruction::ExpU(v)
    }
}

/// The instruction with a float immediate (bit pattern) that opcode `op` stands for.
pub fn with_float(op: u8, v: u64) -> (r: Instruction)
    requires
        shape_of(op) == Some(Shape::Float),
    ensures
        r.model() == (op, Operand::Float(v)),
{
    if op == OP_PUSH_FLOAT {
        Instruction::PushFloat(v)
    } else if op == OP_ADD_F {
        Instruction::AddF(v)
    } else if op == OP_SUB_F {
        Instruction::SubF(v)
    } else if op == OP_MUL_F {
        Instruction::MulF(v)
    } else if op == OP_DIV_F {
        Instruction::DivF(v)
    } else {
        Instruction::ExpF(v)
    }
}

/// The instruction with a boolean immediate that opcode `op` stands for.
pub fn with_bool(op: u8, v: bool) -> (r: Instruction)
    requires
        shape_of(op) == Some(Shape::Bool),
    ensures
        r.model() == (op, Operand::Bool(v)),
{
    Instruction::PushBool(v)
}

/// The instruction with a text immediate that opcode `op` stands for.
pub fn with_text(op: u8, v: String) -> (r: Instruction)
    requires
        shape_of(op) == Some(Shape::LongText) || shape_of(op) == Some(Shape::Name),
    ensures
        r.model() == (op, Operand::Text(v@)),
{
    if op == OP_PUSH_STRING {
        Instruction::PushString(v)
    } else if op == OP_LOAD_IMM {
        Instruction::LoadImm(v)
    } else if op == OP_STORE_IMM {
        Instruction::StoreImm(v)
    } else if op == OP_FREE_IMM {
        Instruction::FreeImm(v)
    } else if op == OP_JUMP {
        Instruction::Jump(v)
    } else if op == OP_JUMP_IF {
        Instruction::JumpIf(v)
    } else if op == OP_CALL {
        Instruction::Call(v)
    } else {
        Instruction::CallNative(v)
    }
}

} // verus!
