use crate::opcode::Opcode;
use crate::types::{BlockType, VerUintN};
use vstd::prelude::*;

verus! {

/// One instruction: a tag with the immediates that its encoding carries.
/// A load or a store carries its alignment, then its offset.
#[derive(Debug, PartialEq, Eq)]
pub enum Instruction {
    Nop,
    Block(BlockType),
    Loop(BlockType),
    If(BlockType),
    Else,
    End,
    Br(VerUintN),
    BrIf(VerUintN),
    /// The targets of the table, then the default target.
    BrTable(Vec<VerUintN>, VerUintN),
    Return,
    Call(VerUintN),
    /// The index of a signature, then the reserved index of a table.
    CallIndirect(VerUintN, VerUintN),
    Drop,
    Select,
    GetLocal(VerUintN),
    SetLocal(VerUintN),
    TeeLocal(VerUintN),
    GetGlobal(VerUintN),
    SetGlobal(VerUintN),
    I32Load(u32, u32),
    I64Load(u32, u32),
    F32Load(u32, u32),
    F64Load(u32, u32),
    I32Load8S(u32, u32),
    I32Load8U(u32, u32),
    I32Load16S(u32, u32),
    I32Load16U(u32, u32),
    I64Load8S(u32, u32),
    I64Load8U(u32, u32),
    I64Load16S(u32, u32),
    I64Load16U(u32, u32),
    I64Load32S(u32, u32),
    I64Load32U(u32, u32),
    I32Store(u32, u32),
    I64Store(u32, u32),
    F32Store(u32, u32),
    F64Store(u32, u32),
    I32Store8(u32, u32),
    I32Store16(u32, u32),
    I64Store8(u32, u32),
    I64Store16(u32, u32),
    I64Store32(u32, u32),
    CurrentMemory(VerUintN),
    GrowMemory(VerUintN),
    I32Const(i32),
    I64Const(i64),
    /// The bit pattern of a single-precision constant.
    F32Const(u32),
    /// The bit pattern of a double-precision constant.
    F64Const(u64),
    I32Eqz,
    I32Eq,
    I32Ne,
    I32LtS,
    I32LtU,
    I32GtS,
    I32GtU,
    I32LeS,
    I32LeU,
    I32GeS,
    I32GeU,
    I64Eqz,
    I64Eq,
    I64Ne,
    I64LtS,
    I64LtU,
    I64GtS,
    I64GtU,
    I64LeS,
    I64LeU,
    I64GeS,
    I64GeU,
    F32Eq,
    F32Ne,
    F32Lt,
    F32Gt,
    F32Le,
    F32Ge,
    F64Eq,
    F64Ne,
    F64Lt,
    F64Gt,
    F64Le,
    F64Ge,
    I32Clz,
    I32Ctz,
    I32Popcnt,
    I32Add,
    I32Sub,
    I32Mul,
    I32DivS,
    I32DivU,
    I32RemS,
    I32RemU,
    I32And,
    I32Or,
    I32Xor,
    I32Shl,
    I32ShrS,
    I32ShrU,
    I32Rotl,
    I32Rotr,
    I64Clz,
    I64Ctz,
    I64Popcnt,
    I64Add,
    I64Sub,
    I64Mul,
    I64DivS,
    I64DivU,
    I64RemS,
    I64RemU,
    I64And,
    I64Or,
    I64Xor,
    I64Shl,
    I64ShrS,
    I64ShrU,
    I64Rotl,
    I64Rotr,
    F32Abs,
    F32Neg,
    F32Ceil,
    F32Floor,
    F32Trunc,
    F32Nearest,
    F32Sqrt,
    F32Add,
    F32Sub,
    F32Mul,
    F32Div,
    F32Min,
    F32Max,
    F32Copysign,
    F64Abs,
    F64Neg,
    F64Ceil,
    F64Floor,
    F64Trunc,
    F64Nearest,
    F64Sqrt,
    F64Add,
    F64Sub,
    F64Mul,
    F64Div,
    F64Min,
    F64Max,
    F64Copysign,
    I32WrapI64,
    I32TruncSF32,
    I32TruncUF32,
    I32TruncSF64,
    I32TruncUF64,
    I64ExtendSI32,
    I64ExtendUI32,
    I64TruncSF32,
    I64TruncUF32,
    I64TruncSF64,
    I64TruncUF64,
    F32ConvertSI32,
    F32ConvertUI32,
    F32ConvertSI64,
    F32ConvertUI64,
    F32DemoteF64,
    F64ConvertSI32,
    F64ConvertUI32,
    F64ConvertSI64,
    F64ConvertUI64,
    F64PromoteF32,
    I32ReinterpretF32,
    I64ReinterpretF64,
    F32ReinterpretI32,
    F64ReinterpretI64,
}

/// The immediates of an instruction, vectors as sequences.
pub enum Immediate {
    Absent,
    Block(BlockType),
    Index(VerUintN),
    Table(Seq<VerUintN>, VerUintN),
    Pair(VerUintN, VerUintN),
    Memory(u32, u32),
    I32(i32),
    I64(i64),
    F32(u32),
    F64(u64),
}

/// The shape of the immediates that follow a tag.
#[derive(Clone, Copy, Debug, PartialEq, Eq, Structural)]
pub enum ImmediateKind {
    Absent,
    Block,
    Index,
    Table,
    Pair,
    Memory,
    I32,
    I64,
    F32,
    F64,
}

impl Immediate {
    pub open spec fn kind(self) -> ImmediateKind {
        match self {
            Immediate::Absent => ImmediateKind::Absent,
            Immediate::Block(_) => ImmediateKind::Block,
            Immediate::Index(_) => ImmediateKind::Index,
            Immediate::Table(_, _) => ImmediateKind::Table,
            Immediate::Pair(_, _) => ImmediateKind::Pair,
            Immediate::Memory(_, _) => ImmediateKind::Memory,
            Immediate::I32(_) => ImmediateKind::I32,
            Immediate::I64(_) => ImmediateKind::I64,
            Immediate::F32(_) => ImmediateKind::F32,
            Immediate::F64(_) => ImmediateKind::F64,
        }
    }
}

impl Opcode {
    /// The shape of the immediates that the encoding of this tag carries.
    pub open spec fn spec_immediate_kind(self) -> ImmediateKind {
        match self {
            Opcode::Block | Opcode::Loop | Opcode::If => ImmediateKind::Block,
            Opcode::Br | Opcode::BrIf | Opcode::Call | Opcode::GetLocal | Opcode::SetLocal
            | Opcode::TeeLocal | Opcode::GetGlobal | Opcode::SetGlobal | Opcode::CurrentMemory
            | Opcode::GrowMemory => ImmediateKind::Index,
            Opcode::BrTable => ImmediateKind::Table,
            Opcode::CallIndirect => ImmediateKind::Pair,
            Opcode::I32Load | Opcode::I64Load | Opcode::F32Load | Opcode::F64Load
            | Opcode::I32Load8S | Opcode::I32Load8U | Opcode::I32Load16S | Opcode::I32Load16U
            | Opcode::I64Load8S | Opcode::I64Load8U | Opcode::I64Load16S | Opcode::I64Load16U
            | Opcode::I64Load32S | Opcode::I64Load32U | Opcode::I32Store | Opcode::I64Store
            | Opcode::F32Store | Opcode::F64Store | Opcode::I32Store8 | Opcode::I32Store16
            | Opcode::I64Store8 | Opcode::I64Store16 | Opcode::I64Store32 => ImmediateKind::Memory,
            Opcode::I32Const => ImmediateKind::I32,
            Opcode::I64Const => ImmediateKind::I64,
            Opcode::F32Const => ImmediateKind::F32,
            Opcode::F64Const => ImmediateKind::F64,
            _ => ImmediateKind::Absent,
        }
    }

    /// The shape of the immediates that the encoding of this tag carries.
    #[verifier::when_used_as_spec(spec_immediate_kind)]
    pub fn immediate_kind(self) -> (r: ImmediateKind)
        ensures
            r == self.spec_immediate_kind(),
    {
        match self {
            Opcode::Block | Opcode::Loop | Opcode::If => ImmediateKind::Block,
            Opcode::Br | Opcode::BrIf | Opcode::Call | Opcode::GetLocal | Opcode::SetLocal
            | Opcode::TeeLocal | Opcode::GetGlobal | Opcode::SetGlobal | Opcode::CurrentMemory
            | Opcode::GrowMemory => ImmediateKind::Index,
            Opcode::BrTable => ImmediateKind::Table,
            Opcode::CallIndirect => ImmediateKind::Pair,
            Opcode::I32Load | Opcode::I64Load | Opcode::F32Load | Opcode::F64Load
            | Opcode::I32Load8S | Opcode::I32Load8U | Opcode::I32Load16S | Opcode::I32Load16U
            | Opcode::I64Load8S | Opcode::I64Load8U | Opcode::I64Load16S | Opcode::I64Load16U
            | Opcode::I64Load32S | Opcode::I64Load32U | Opcode::I32Store | Opcode::I64Store
            | Opcode::F32Store | Opcode::F64Store | Opcode::I32Store8 | Opcode::I32Store16
            | Opcode::I64Store8 | Opcode::I64Store16 | Opcode::I64Store32 => ImmediateKind::Memory,
            Opcode::I32Const => ImmediateKind::I32,
            Opcode::I64Const => ImmediateKind::I64,
            Opcode::F32Const => ImmediateKind::F32,
            Opcode::F64Const => ImmediateKind::F64,
            _ => ImmediateKind::Absent,
        }
    }
}

/// An instruction as a tag and its immediates.
pub struct InstructionView {
    pub opcode: Opcode,
    pub immediate: Immediate,
}

impl InstructionView {
    /// The immediates have the shape that the tag asks for, and the tag names
    /// an instruction.
    pub open spec fn well_formed(self) -> bool {
        &&& self.opcode != Opcode::Unexpected
        &&& self.immediate.kind() == self.opcode.immediate_kind()
    }
}

impl Instruction {
    /// The tag of this instruction.
    pub open spec fn tag(&self) -> Opcode {
        match self {
            Instruction::Nop => Opcode::Nop,
            Instruction::Block(_) => Opcode::Block,
            Instruction::Loop(_) => Opcode::Loop,
            Instruction::If(_) => Opcode::If,
            Instruction::Else => Opcode::Else,
            Instruction::End => Opcode::End,
            Instruction::Br(_) => Opcode::Br,
            Instruction::BrIf(_) => Opcode::BrIf,
            Instruction::BrTable(_, _) => Opcode::BrTable,
            Instruction::Return => Opcode::Return,
            Instruction::Call(_) => Opcode::Call,
            Instruction::CallIndirect(_, _) => Opcode::CallIndirect,
            Instruction::Drop => Opcode::Drop,
            Instruction::Select => Opcode::Select,
            Instruction::GetLocal(_) => Opcode::GetLocal,
            Instruction::SetLocal(_) => Opcode::SetLocal,
            Instruction::TeeLocal(_) => Opcode::TeeLocal,
            Instruction::GetGlobal(_) => Opcode::GetGlobal,
            Instruction::SetGlobal(_) => Opcode::SetGlobal,
            Instruction::I32Load(_, _) => Opcode::I32Load,
            Instruction::I64Load(_, _) => Opcode::I64Load,
            Instruction::F32Load(_, _) => Opcode::F32Load,
            Instruction::F64Load(_, _) => Opcode::F64Load,
            Instruction::I32Load8S(_, _) => Opcode::I32Load8S,
            Instruction::I32Load8U(_, _) => Opcode::I32Load8U,
            Instruction::I32Load16S(_, _) => Opcode::I32Load16S,
            Instruction::I32Load16U(_, _) => Opcode::I32Load16U,
            Instruction::I64Load8S(_, _) => Opcode::I64Load8S,
            Instruction::I64Load8U(_, _) => Opcode::I64Load8U,
            Instruction::I64Load16S(_, _) => Opcode::I64Load16S,
            Instruction::I64Load16U(_, _) => Opcode::I64Load16U,
            Instruction::I64Load32S(_, _) => Opcode::I64Load32S,
            Instruction::I64Load32U(_, _) => Opcode::I64Load32U,
            Instruction::I32Store(_, _) => Opcode::I32Store,
            Instruction::I64Store(_, _) => Opcode::I64Store,
            Instruction::F32Store(_, _) => Opcode::F32Store,
            Instruction::F64Store(_, _) => Opcode::F64Store,
            Instruction::I32Store8(_, _) => Opcode::I32Store8,
            Instruction::I32Store16(_, _) => Opcode::I32Store16,
            Instruction::I64Store8(_, _) => Opcode::I64Store8,
            Instruction::I64Store16(_, _) => Opcode::I64Store16,
            Instruction::I64Store32(_, _) => Opcode::I64Store32,
            Instruction::CurrentMemory(_) => Opcode::CurrentMemory,
            Instruction::GrowMemory(_) => Opcode::GrowMemory,
            Instruction::I32Const(_) => Opcode::I32Const,
            Instruction::I64Const(_) => Opcode::I64Const,
            Instruction::F32Const(_) => Opcode::F32Const,
            Instruction::F64Const(_) => Opcode::F64Const,
            Instruction::I32Eqz => Opcode::I32Eqz,
            Instruction::I32Eq => Opcode::I32Eq,
            Instruction::I32Ne => Opcode::I32Ne,
            Instruction::I32LtS => Opcode::I32LtS,
            Instruction::I32LtU => Opcode::I32LtU,
            Instruction::I32GtS => Opcode::I32GtS,
            Instruction::I32GtU => Opcode::I32GtU,
            Instruction::I32LeS => Opcode::I32LeS,
            Instruction::I32LeU => Opcode::I32LeU,
            Instruction::I32GeS => Opcode::I32GeS,
            Instruction::I32GeU => Opcode::I32GeU,
            Instruction::I64Eqz => Opcode::I64Eqz,
            Instruction::I64Eq => Opcode::I64Eq,
            Instruction::I64Ne => Opcode::I64Ne,
            Instruction::I64LtS => Opcode::I64LtS,
            Instruction::I64LtU => Opcode::I64LtU,
            Instruction::I64GtS => Opcode::I64GtS,
            Instruction::I64GtU => Opcode::I64GtU,
            Instruction::I64LeS => Opcode::I64LeS,
            Instruction::I64LeU => Opcode::I64LeU,
            Instruction::I64GeS => Opcode::I64GeS,
            Instruction::I64GeU => Opcode::I64GeU,
            Instruction::F32Eq => Opcode::F32Eq,
            Instruction::F32Ne => Opcode::F32Ne,
            Instruction::F32Lt => Opcode::F32Lt,
            Instruction::F32Gt => Opcode::F32Gt,
            Instruction::F32Le => Opcode::F32Le,
            Instruction::F32Ge => Opcode::F32Ge,
            Instruction::F64Eq => Opcode::F64Eq,
            Instruction::F64Ne => Opcode::F64Ne,
            Instruction::F64Lt => Opcode::F64Lt,
            Instruction::F64Gt => Opcode::F64Gt,
            Instruction::F64Le => Opcode::F64Le,
            Instruction::F64Ge => Opcode::F64Ge,
            Instruction::I32Clz => Opcode::I32Clz,
            Instruction::I32Ctz => Opcode::I32Ctz,
            Instruction::I32Popcnt => Opcode::I32Popcnt,
            Instruction::I32Add => Opcode::I32Add,
            Instruction::I32Sub => Opcode::I32Sub,
            Instruction::I32Mul => Opcode::I32Mul,
            Instruction::I32DivS => Opcode::I32DivS,
            Instruction::I32DivU => Opcode::I32DivU,
            Instruction::I32RemS => Opcode::I32RemS,
            Instruction::I32RemU => Opcode::I32RemU,
            Instruction::I32And => Opcode::I32And,
            Instruction::I32Or => Opcode::I32Or,
            Instruction::I32Xor => Opcode::I32Xor,
            Instruction::I32Shl => Opcode::I32Shl,
            Instruction::I32ShrS => Opcode::I32ShrS,
            Instruction::I32ShrU => Opcode::I32ShrU,
            Instruction::I32Rotl => Opcode::I32Rotl,
            Instruction::I32Rotr => Opcode::I32Rotr,
            Instruction::I64Clz => Opcode::I64Clz,
            Instruction::I64Ctz => Opcode::I64Ctz,
            Instruction::I64Popcnt => Opcode::I64Popcnt,
            Instruction::I64Add => Opcode::I64Add,
            Instruction::I64Sub => Opcode::I64Sub,
            Instruction::I64Mul => Opcode::I64Mul,
            Instruction::I64DivS => Opcode::I64DivS,
            Instruction::I64DivU => Opcode::I64DivU,
            Instruction::I64RemS => Opcode::I64RemS,
            Instruction::I64RemU => Opcode::I64RemU,
            Instruction::I64And => Opcode::I64And,
            Instruction::I64Or => Opcode::I64Or,
            Instruction::I64Xor => Opcode::I64Xor,
            Instruction::I64Shl => Opcode::I64Shl,
            Instruction::I64ShrS => Opcode::I64ShrS,
            Instruction::I64ShrU => Opcode::I64ShrU,
            Instruction::I64Rotl => Opcode::I64Rotl,
            Instruction::I64Rotr => Opcode::I64Rotr,
            Instruction::F32Abs => Opcode::F32Abs,
            Instruction::F32Neg => Opcode::F32Neg,
            Instruction::F32Ceil => Opcode::F32Ceil,
            Instruction::F32Floor => Opcode::F32Floor,
            Instruction::F32Trunc => Opcode::F32Trunc,
            Instruction::F32Nearest => Opcode::F32Nearest,
            Instruction::F32Sqrt => Opcode::F32Sqrt,
            Instruction::F32Add => Opcode::F32Add,
            Instruction::F32Sub => Opcode::F32Sub,
            Instruction::F32Mul => Opcode::F32Mul,
            Instruction::F32Div => Opcode::F32Div,
            Instruction::F32Min => Opcode::F32Min,
            Instruction::F32Max => Opcode::F32Max,
            Instruction::F32Copysign => Opcode::F32Copysign,
            Instruction::F64Abs => Opcode::F64Abs,
            Instruction::F64Neg => Opcode::F64Neg,
            Instruction::F64Ceil => Opcode::F64Ceil,
            Instruction::F64Floor => Opcode::F64Floor,
            Instruction::F64Trunc => Opcode::F64Trunc,
            Instruction::F64Nearest => Opcode::F64Nearest,
            Instruction::F64Sqrt => Opcode::F64Sqrt,
            Instruction::F64Add => Opcode::F64Add,
            Instruction::F64Sub => Opcode::F64Sub,
            Instruction::F64Mul => Opcode::F64Mul,
            Instruction::F64Div => Opcode::F64Div,
            Instruction::F64Min => Opcode::F64Min,
            Instruction::F64Max => Opcode::F64Max,
            Instruction::F64Copysign => Opcode::F64Copysign,
            Instruction::I32WrapI64 => Opcode::I32WrapI64,
            Instruction::I32TruncSF32 => Opcode::I32TruncSF32,
            Instruction::I32TruncUF32 => Opcode::I32TruncUF32,
            Instruction::I32TruncSF64 => Opcode::I32TruncSF64,
            Instruction::I32TruncUF64 => Opcode::I32TruncUF64,
            Instruction::I64ExtendSI32 => Opcode::I64ExtendSI32,
            Instruction::I64ExtendUI32 => Opcode::I64ExtendUI32,
            Instruction::I64TruncSF32 => Opcode::I64TruncSF32,
            Instruction::I64TruncUF32 => Opcode::I64TruncUF32,
            Instruction::I64TruncSF64 => Opcode::I64TruncSF64,
            Instruction::I64TruncUF64 => Opcode::I64TruncUF64,
            Instruction::F32ConvertSI32 => Opcode::F32ConvertSI32,
            Instruction::F32ConvertUI32 => Opcode::F32ConvertUI32,
            Instruction::F32ConvertSI64 => Opcode::F32ConvertSI64,
            Instruction::F32ConvertUI64 => Opcode::F32ConvertUI64,
            Instruction::F32DemoteF64 => Opcode::F32DemoteF64,
            Instruction::F64ConvertSI32 => Opcode::F64ConvertSI32,
            Instruction::F64ConvertUI32 => Opcode::F64ConvertUI32,
            Instruction::F64ConvertSI64 => Opcode::F64ConvertSI64,
            Instruction::F64ConvertUI64 => Opcode::F64ConvertUI64,
            Instruction::F64PromoteF32 => Opcode::F64PromoteF32,
            Instruction::I32ReinterpretF32 => Opcode::I32ReinterpretF32,
            Instruction::I64ReinterpretF64 => Opcode::I64ReinterpretF64,
            Instruction::F32ReinterpretI32 => Opcode::F32ReinterpretI32,
            Instruction::F64ReinterpretI64 => Opcode::F64ReinterpretI64,
        }
    }

    /// The immediates of this instruction.
    pub open spec fn immediate(&self) -> Immediate {
        match self {
            Instruction::Block(t) => Immediate::Block(*t),
            Instruction::Loop(t) => Immediate::Block(*t),
            Instruction::If(t) => Immediate::Block(*t),
            Instruction::Br(i) => Immediate::Index(*i),
            Instruction::BrIf(i) => Immediate::Index(*i),
            Instruction::BrTable(targets, default) => Immediate::Table(targets@, *default),
            Instruction::Call(i) => Immediate::Index(*i),
            Instruction::CallIndirect(a, b) => Immediate::Pair(*a, *b),
            Instruction::GetLocal(i) => Immediate::Index(*i),
            Instruction::SetLocal(i) => Immediate::Index(*i),
            Instruction::TeeLocal(i) => Immediate::Index(*i),
            Instruction::GetGlobal(i) => Immediate::Index(*i),
            Instruction::SetGlobal(i) => Immediate::Index(*i),
            Instruction::I32Load(align, offset) => Immediate::Memory(*align, *offset),
            Instruction::I64Load(align, offset) => Immediate::Memory(*align, *offset),
            Instruction::F32Load(align, offset) => Immediate::Memory(*align, *offset),
            Instruction::F64Load(align, offset) => Immediate::Memory(*align, *offset),
            Instruction::I32Load8S(align, offset) => Immediate::Memory(*align, *offset),
            Instruction::I32Load8U(align, offset) => Immediate::Memory(*align, *offset),
            Instruction::I32Load16S(align, offset) => Immediate::Memory(*align, *offset),
            Instruction::I32Load16U(align, offset) => Immediate::Memory(*align, *offset),
            Instruction::I64Load8S(align, offset) => Immediate::Memory(*align, *offset),
            Instruction::I64Load8U(align, offset) => Immediate::Memory(*align, *offset),
            Instruction::I64Load16S(align, offset) => Immediate::Memory(*align, *offset),
            Instruction::I64Load16U(align, offset) => Immediate::Memory(*align, *offset),
            Instruction::I64Load32S(align, offset) => Immediate::Memory(*align, *offset),
            Instruction::I64Load32U(align, offset) => Immediate::Memory(*align, *offset),
            Instruction::I32Store(align, offset) => Immediate::Memory(*align, *offset),
            Instruction::I64Store(align, offset) => Immediate::Memory(*align, *offset),
            Instruction::F32Store(align, offset) => Immediate::Memory(*align, *offset),
            Instruction::F64Store(align, offset) => Immediate::Memory(*align, *offset),
            Instruction::I32Store8(align, offset) => Immediate::Memory(*align, *offset),
            Instruction::I32Store16(align, offset) => Immediate::Memory(*align, *offset),
            Instruction::I64Store8(align, offset) => Immediate::Memory(*align, *offset),
            Instruction::I64Store16(align, offset) => Immediate::Memory(*align, *offset),
            Instruction::I64Store32(align, offset) => Immediate::Memory(*align, *offset),
            Instruction::CurrentMemory(i) => Immediate::Index(*i),
            Instruction::GrowMemory(i) => Immediate::Index(*i),
            Instruction::I32Const(v) => Immediate::I32(*v),
            Instruction::I64Const(v) => Immediate::I64(*v),
            Instruction::F32Const(v) => Immediate::F32(*v),
            Instruction::F64Const(v) => Immediate::F64(*v),
            _ => Immediate::Absent,
        }
    }

    /// The tag of this instruction.
    pub fn opcode(&self) -> (r: Opcode)
        ensures
            r == self.tag(),
    {
        match self {
            Instruction::Nop => Opcode::Nop,
            Instruction::Block(_) => Opcode::Block,
            Instruction::Loop(_) => Opcode::Loop,
            Instruction::If(_) => Opcode::If,
            Instruction::Else => Opcode::Else,
            Instruction::End => Opcode::End,
            Instruction::Br(_) => Opcode::Br,
            Instruction::BrIf(_) => Opcode::BrIf,
            Instruction::BrTable(_, _) => Opcode::BrTable,
            Instruction::Return => Opcode::Return,
            Instruction::Call(_) => Opcode::Call,
            Instruction::CallIndirect(_, _) => Opcode::CallIndirect,
            Instruction::Drop => Opcode::Drop,
            Instruction::Select => Opcode::Select,
            Instruction::GetLocal(_) => Opcode::GetLocal,
            Instruction::SetLocal(_) => Opcode::SetLocal,
            Instruction::TeeLocal(_) => Opcode::TeeLocal,
            Instruction::GetGlobal(_) => Opcode::GetGlobal,
            Instruction::SetGlobal(_) => Opcode::SetGlobal,
            Instruction::I32Load(_, _) => Opcode::I32Load,
            Instruction::I64Load(_, _) => Opcode::I64Load,
            Instruction::F32Load(_, _) => Opcode::F32Load,
            Instruction::F64Load(_, _) => Opcode::F64Load,
            Instruction::I32Load8S(_, _) => Opcode::I32Load8S,
            Instruction::I32Load8U(_, _) => Opcode::I32Load8U,
            Instruction::I32Load16S(_, _) => Opcode::I32Load16S,
            Instruction::I32Load16U(_, _) => Opcode::I32Load16U,
            Instruction::I64Load8S(_, _) => Opcode::I64Load8S,
            Instruction::I64Load8U(_, _) => Opcode::I64Load8U,
            Instruction::I64Load16S(_, _) => Opcode::I64Load16S,
            Instruction::I64Load16U(_, _) => Opcode::I64Load16U,
            Instruction::I64Load32S(_, _) => Opcode::I64Load32S,
            Instruction::I64Load32U(_, _) => Opcode::I64Load32U,
            Instruction::I32Store(_, _) => Opcode::I32Store,
            Instruction::I64Store(_, _) => Opcode::I64Store,
            Instruction::F32Store(_, _) => Opcode::F32Store,
            Instruction::F64Store(_, _) => Opcode::F64Store,
            Instruction::I32Store8(_, _) => Opcode::I32Store8,
            Instruction::I32Store16(_, _) => Opcode::I32Store16,
            Instruction::I64Store8(_, _) => Opcode::I64Store8,
            Instruction::I64Store16(_, _) => Opcode::I64Store16,
            Instruction::I64Store32(_, _) => Opcode::I64Store32,
            Instruction::CurrentMemory(_) => Opcode::CurrentMemory,
            Instruction::GrowMemory(_) => Opcode::GrowMemory,
            Instruction::I32Const(_) => Opcode::I32Const,
            Instruction::I64Const(_) => Opcode::I64Const,
            Instruction::F32Const(_) => Opcode::F32Const,
            Instruction::F64Const(_) => Opcode::F64Const,
            Instruction::I32Eqz => Opcode::I32Eqz,
            Instruction::I32Eq => Opcode::I32Eq,
            Instruction::I32Ne => Opcode::I32Ne,
            Instruction::I32LtS => Opcode::I32LtS,
            Instruction::I32LtU => Opcode::I32LtU,
            Instruction::I32GtS => Opcode::I32GtS,
            Instruction::I32GtU => Opcode::I32GtU,
            Instruction::I32LeS => Opcode::I32LeS,
            Instruction::I32LeU => Opcode::I32LeU,
            Instruction::I32GeS => Opcode::I32GeS,
            Instruction::I32GeU => Opcode::I32GeU,
            Instruction::I64Eqz => Opcode::I64Eqz,
            Instruction::I64Eq => Opcode::I64Eq,
            Instruction::I64Ne => Opcode::I64Ne,
            Instruction::I64LtS => Opcode::I64LtS,
            Instruction::I64LtU => Opcode::I64LtU,
            Instruction::I64GtS => Opcode::I64GtS,
            Instruction::I64GtU => Opcode::I64GtU,
            Instruction::I64LeS => Opcode::I64LeS,
            Instruction::I64LeU => Opcode::I64LeU,
            Instruction::I64GeS => Opcode::I64GeS,
            Instruction::I64GeU => Opcode::I64GeU,
            Instruction::F32Eq => Opcode::F32Eq,
            Instruction::F32Ne => Opcode::F32Ne,
            Instruction::F32Lt => Opcode::F32Lt,
            Instruction::F32Gt => Opcode::F32Gt,
            Instruction::F32Le => Opcode::F32Le,
            Instruction::F32Ge => Opcode::F32Ge,
            Instruction::F64Eq => Opcode::F64Eq,
            Instruction::F64Ne => Opcode::F64Ne,
            Instruction::F64Lt => Opcode::F64Lt,
            Instruction::F64Gt => Opcode::F64Gt,
            Instruction::F64Le => Opcode::F64Le,
            Instruction::F64Ge => Opcode::F64Ge,
            Instruction::I32Clz => Opcode::I32Clz,
            Instruction::I32Ctz => Opcode::I32Ctz,
            Instruction::I32Popcnt => Opcode::I32Popcnt,
            Instruction::I32Add => Opcode::I32Add,
            Instruction::I32Sub => Opcode::I32Sub,
            Instruction::I32Mul => Opcode::I32Mul,
            Instruction::I32DivS => Opcode::I32DivS,
            Instruction::I32DivU => Opcode::I32DivU,
            Instruction::I32RemS => Opcode::I32RemS,
            Instruction::I32RemU => Opcode::I32RemU,
            Instruction::I32And => Opcode::I32And,
            Instruction::I32Or => Opcode::I32Or,
            Instruction::I32Xor => Opcode::I32Xor,
            Instruction::I32Shl => Opcode::I32Shl,
            Instruction::I32ShrS => Opcode::I32ShrS,
            Instruction::I32ShrU => Opcode::I32ShrU,
            Instruction::I32Rotl => Opcode::I32Rotl,
            Instruction::I32Rotr => Opcode::I32Rotr,
            Instruction::I64Clz => Opcode::I64Clz,
            Instruction::I64Ctz => Opcode::I64Ctz,
            Instruction::I64Popcnt => Opcode::I64Popcnt,
            Instruction::I64Add => Opcode::I64Add,
            Instruction::I64Sub => Opcode::I64Sub,
            Instruction::I64Mul => Opcode::I64Mul,
            Instruction::I64DivS => Opcode::I64DivS,
            Instruction::I64DivU => Opcode::I64DivU,
            Instruction::I64RemS => Opcode::I64RemS,
            Instruction::I64RemU => Opcode::I64RemU,
            Instruction::I64And => Opcode::I64And,
            Instruction::I64Or => Opcode::I64Or,
            Instruction::I64Xor => Opcode::I64Xor,
            Instruction::I64Shl => Opcode::I64Shl,
            Instruction::I64ShrS => Opcode::I64ShrS,
            Instruction::I64ShrU => Opcode::I64ShrU,
            Instruction::I64Rotl => Opcode::I64Rotl,
            Instruction::I64Rotr => Opcode::I64Rotr,
            Instruction::F32Abs => Opcode::F32Abs,
            Instruction::F32Neg => Opcode::F32Neg,
            Instruction::F32Ceil => Opcode::F32Ceil,
            Instruction::F32Floor => Opcode::F32Floor,
            Instruction::F32Trunc => Opcode::F32Trunc,
            Instruction::F32Nearest => Opcode::F32Nearest,
            Instruction::F32Sqrt => Opcode::F32Sqrt,
            Instruction::F32Add => Opcode::F32Add,
            Instruction::F32Sub => Opcode::F32Sub,
            Instruction::F32Mul => Opcode::F32Mul,
            Instruction::F32Div => Opcode::F32Div,
            Instruction::F32Min => Opcode::F32Min,
            Instruction::F32Max => Opcode::F32Max,
            Instruction::F32Copysign => Opcode::F32Copysign,
            Instruction::F64Abs => Opcode::F64Abs,
            Instruction::F64Neg => Opcode::F64Neg,
            Instruction::F64Ceil => Opcode::F64Ceil,
            Instruction::F64Floor => Opcode::F64Floor,
            Instruction::F64Trunc => Opcode::F64Trunc,
            Instruction::F64Nearest => Opcode::F64Nearest,
            Instruction::F64Sqrt => Opcode::F64Sqrt,
            Instruction::F64Add => Opcode::F64Add,
            Instruction::F64Sub => Opcode::F64Sub,
            Instruction::F64Mul => Opcode::F64Mul,
            Instruction::F64Div => Opcode::F64Div,
            Instruction::F64Min => Opcode::F64Min,
            Instruction::F64Max => Opcode::F64Max,
            Instruction::F64Copysign => Opcode::F64Copysign,
            Instruction::I32WrapI64 => Opcode::I32WrapI64,
            Instruction::I32TruncSF32 => Opcode::I32TruncSF32,
            Instruction::I32TruncUF32 => Opcode::I32TruncUF32,
            Instruction::I32TruncSF64 => Opcode::I32TruncSF64,
            Instruction::I32TruncUF64 => Opcode::I32TruncUF64,
            Instruction::I64ExtendSI32 => Opcode::I64ExtendSI32,
            Instruction::I64ExtendUI32 => Opcode::I64ExtendUI32,
            Instruction::I64TruncSF32 => Opcode::I64TruncSF32,
            Instruction::I64TruncUF32 => Opcode::I64TruncUF32,
            Instruction::I64TruncSF64 => Opcode::I64TruncSF64,
            Instruction::I64TruncUF64 => Opcode::I64TruncUF64,
            Instruction::F32ConvertSI32 => Opcode::F32ConvertSI32,
            Instruction::F32ConvertUI32 => Opcode::F32ConvertUI32,
            Instruction::F32ConvertSI64 => Opcode::F32ConvertSI64,
            Instruction::F32ConvertUI64 => Opcode::F32ConvertUI64,
            Instruction::F32DemoteF64 => Opcode::F32DemoteF64,
            Instruction::F64ConvertSI32 => Opcode::F64ConvertSI32,
            Instruction::F64ConvertUI32 => Opcode::F64ConvertUI32,
            Instruction::F64ConvertSI64 => Opcode::F64ConvertSI64,
            Instruction::F64ConvertUI64 => Opcode::F64ConvertUI64,
            Instruction::F64PromoteF32 => Opcode::F64PromoteF32,
            Instruction::I32ReinterpretF32 => Opcode::I32ReinterpretF32,
            Instruction::I64ReinterpretF64 => Opcode::I64ReinterpretF64,
            Instruction::F32ReinterpretI32 => Opcode::F32ReinterpretI32,
            Instruction::F64ReinterpretI64 => Opcode::F64ReinterpretI64,
        }
    }

    /// The instruction that a tag alone makes up: `None` for a tag that
    /// carries immediates and for `Unexpected`.
    #[verifier::rlimit(100)]
    pub fn from_opcode(opcode: Opcode) -> (r: Option<Instruction>)
        ensures
            r is Some <==> opcode != Opcode::Unexpected && opcode.immediate_kind()
                == ImmediateKind::Absent,
            r is Some ==> r.unwrap()@ == (InstructionView {
                opcode,
                immediate: Immediate::Absent,
            }),
    {
        match opcode {
            Opcode::Nop => Some(Instruction::Nop),
            Opcode::Else => Some(Instruction::Else),
            Opcode::End => Some(Instruction::End),
            Opcode::Return => Some(Instruction::Return),
            Opcode::Drop => Some(Instruction::Drop),
            Opcode::Select => Some(Instruction::Select),
            Opcode::I32Eqz => Some(Instruction::I32Eqz),
            Opcode::I32Eq => Some(Instruction::I32Eq),
            Opcode::I32Ne => Some(Instruction::I32Ne),
            Opcode::I32LtS => Some(Instruction::I32LtS),
            Opcode::I32LtU => Some(Instruction::I32LtU),
            Opcode::I32GtS => Some(Instruction::I32GtS),
            Opcode::I32GtU => Some(Instruction::I32GtU),
            Opcode::I32LeS => Some(Instruction::I32LeS),
            Opcode::I32LeU => Some(Instruction::I32LeU),
            Opcode::I32GeS => Some(Instruction::I32GeS),
            Opcode::I32GeU => Some(Instruction::I32GeU),
            Opcode::I64Eqz => Some(Instruction::I64Eqz),
            Opcode::I64Eq => Some(Instruction::I64Eq),
            Opcode::I64Ne => Some(Instruction::I64Ne),
            Opcode::I64LtS => Some(Instruction::I64LtS),
            Opcode::I64LtU => Some(Instruction::I64LtU),
            Opcode::I64GtS => Some(Instruction::I64GtS),
            Opcode::I64GtU => Some(Instruction::I64GtU),
            Opcode::I64LeS => Some(Instruction::I64LeS),
            Opcode::I64LeU => Some(Instruction::I64LeU),
            Opcode::I64GeS => Some(Instruction::I64GeS),
            Opcode::I64GeU => Some(Instruction::I64GeU),
            Opcode::F32Eq => Some(Instruction::F32Eq),
            Opcode::F32Ne => Some(Instruction::F32Ne),
            Opcode::F32Lt => Some(Instruction::F32Lt),
            Opcode::F32Gt => Some(Instruction::F32Gt),
            Opcode::F32Le => Some(Instruction::F32Le),
            Opcode::F32Ge => Some(Instruction::F32Ge),
            Opcode::F64Eq => Some(Instruction::F64Eq),
            Opcode::F64Ne => Some(Instruction::F64Ne),
            Opcode::F64Lt => Some(Instruction::F64Lt),
            Opcode::F64Gt => Some(Instruction::F64Gt),
            Opcode::F64Le => Some(Instruction::F64Le),
            Opcode::F64Ge => Some(Instruction::F64Ge),
            Opcode::I32Clz => Some(Instruction::I32Clz),
            Opcode::I32Ctz => Some(Instruction::I32Ctz),
            Opcode::I32Popcnt => Some(Instruction::I32Popcnt),
            Opcode::I32Add => Some(Instruction::I32Add),
            Opcode::I32Sub => Some(Instruction::I32Sub),
            Opcode::I32Mul => Some(Instruction::I32Mul),
            Opcode::I32DivS => Some(Instruction::I32DivS),
            Opcode::I32DivU => Some(Instruction::I32DivU),
            Opcode::I32RemS => Some(Instruction::I32RemS),
            Opcode::I32RemU => Some(Instruction::I32RemU),
            Opcode::I32And => Some(Instruction::I32And),
            Opcode::I32Or => Some(Instruction::I32Or),
            Opcode::I32Xor => Some(Instruction::I32Xor),
            Opcode::I32Shl => Some(Instruction::I32Shl),
            Opcode::I32ShrS => Some(Instruction::I32ShrS),
            Opcode::I32ShrU => Some(Instruction::I32ShrU),
            Opcode::I32Rotl => Some(Instruction::I32Rotl),
            Opcode::I32Rotr => Some(Instruction::I32Rotr),
            Opcode::I64Clz => Some(Instruction::I64Clz),
            Opcode::I64Ctz => Some(Instruction::I64Ctz),
            Opcode::I64Popcnt => Some(Instruction::I64Popcnt),
            Opcode::I64Add => Some(Instruction::I64Add),
            Opcode::I64Sub => Some(Instruction::I64Sub),
            Opcode::I64Mul => Some(Instruction::I64Mul),
            Opcode::I64DivS => Some(Instruction::I64DivS),
            Opcode::I64DivU => Some(Instruction::I64DivU),
            Opcode::I64RemS => Some(Instruction::I64RemS),
            Opcode::I64RemU => Some(Instruction::I64RemU),
            Opcode::I64And => Some(Instruction::I64And),
            Opcode::I64Or => Some(Instruction::I64Or),
            Opcode::I64Xor => Some(Instruction::I64Xor),
            Opcode::I64Shl => Some(Instruction::I64Shl),
            Opcode::I64ShrS => Some(Instruction::I64ShrS),
            Opcode::I64ShrU => Some(Instruction::I64ShrU),
            Opcode::I64Rotl => Some(Instruction::I64Rotl),
            Opcode::I64Rotr => Some(Instruction::I64Rotr),
            Opcode::F32Abs => Some(Instruction::F32Abs),
            Opcode::F32Neg => Some(Instruction::F32Neg),
            Opcode::F32Ceil => Some(Instruction::F32Ceil),
            Opcode::F32Floor => Some(Instruction::F32Floor),
            Opcode::F32Trunc => Some(Instruction::F32Trunc),
            Opcode::F32Nearest => Some(Instruction::F32Nearest),
            Opcode::F32Sqrt => Some(Instruction::F32Sqrt),
            Opcode::F32Add => Some(Instruction::F32Add),
            Opcode::F32Sub => Some(Instruction::F32Sub),
            Opcode::F32Mul => Some(Instruction::F32Mul),
            Opcode::F32Div => Some(Instruction::F32Div),
            Opcode::F32Min => Some(Instruction::F32Min),
            Opcode::F32Max => Some(Instruction::F32Max),
            Opcode::F32Copysign => Some(Instruction::F32Copysign),
            Opcode::F64Abs => Some(Instruction::F64Abs),
            Opcode::F64Neg => Some(Instruction::F64Neg),
            Opcode::F64Ceil => Some(Instruction::F64Ceil),
            Opcode::F64Floor => Some(Instruction::F64Floor),
            Opcode::F64Trunc => Some(Instruction::F64Trunc),
            Opcode::F64Nearest => Some(Instruction::F64Nearest),
            Opcode::F64Sqrt => Some(Instruction::F64Sqrt),
            Opcode::F64Add => Some(Instruction::F64Add),
            Opcode::F64Sub => Some(Instruction::F64Sub),
            Opcode::F64Mul => Some(Instruction::F64Mul),
            Opcode::F64Div => Some(Instruction::F64Div),
            Opcode::F64Min => Some(Instruction::F64Min),
            Opcode::F64Max => Some(Instruction::F64Max),
            Opcode::F64Copysign => Some(Instruction::F64Copysign),
            Opcode::I32WrapI64 => Some(Instruction::I32WrapI64),
            Opcode::I32TruncSF32 => Some(Instruction::I32TruncSF32),
            Opcode::I32TruncUF32 => Some(Instruction::I32TruncUF32),
            Opcode::I32TruncSF64 => Some(Instruction::I32TruncSF64),
            Opcode::I32TruncUF64 => Some(Instruction::I32TruncUF64),
            Opcode::I64ExtendSI32 => Some(Instruction::I64ExtendSI32),
            Opcode::I64ExtendUI32 => Some(Instruction::I64ExtendUI32),
            Opcode::I64TruncSF32 => Some(Instruction::I64TruncSF32),
            Opcode::I64TruncUF32 => Some(Instruction::I64TruncUF32),
            Opcode::I64TruncSF64 => Some(Instruction::I64TruncSF64),
            Opcode::I64TruncUF64 => Some(Instruction::I64TruncUF64),
            Opcode::F32ConvertSI32 => Some(Instruction::F32ConvertSI32),
            Opcode::F32ConvertUI32 => Some(Instruction::F32ConvertUI32),
            Opcode::F32ConvertSI64 => Some(Instruction::F32ConvertSI64),
            Opcode::F32ConvertUI64 => Some(Instruction::F32ConvertUI64),
            Opcode::F32DemoteF64 => Some(Instruction::F32DemoteF64),
            Opcode::F64ConvertSI32 => Some(Instruction::F64ConvertSI32),
            Opcode::F64ConvertUI32 => Some(Instruction::F64ConvertUI32),
            Opcode::F64ConvertSI64 => Some(Instruction::F64ConvertSI64),
            Opcode::F64ConvertUI64 => Some(Instruction::F64ConvertUI64),
            Opcode::F64PromoteF32 => Some(Instruction::F64PromoteF32),
            Opcode::I32ReinterpretF32 => Some(Instruction::I32ReinterpretF32),
            Opcode::I64ReinterpretF64 => Some(Instruction::I64ReinterpretF64),
            Opcode::F32ReinterpretI32 => Some(Instruction::F32ReinterpretI32),
            Opcode::F64ReinterpretI64 => Some(Instruction::F64ReinterpretI64),
            _ => None,
        }
    }


    /// The instruction that a tag makes up with a block type: `None` for a tag
    /// whose immediates have another shape.
    pub fn with_block_type(opcode: Opcode, t: BlockType) -> (r: Option<Instruction>)
        ensures
            r is Some <==> opcode.immediate_kind() == ImmediateKind::Block,
            r is Some ==> r.unwrap()@ == (InstructionView { opcode, immediate: Immediate::Block(t) }),
    {
        match opcode {
            Opcode::Block => Some(Instruction::Block(t)),
            Opcode::Loop => Some(Instruction::Loop(t)),
            Opcode::If => Some(Instruction::If(t)),
            _ => None,
        }
    }

    /// The instruction that a tag makes up with one index: `None` for a tag
    /// whose immediates have another shape.
    pub fn with_index(opcode: Opcode, i: VerUintN) -> (r: Option<Instruction>)
        ensures
            r is Some <==> opcode.immediate_kind() == ImmediateKind::Index,
            r is Some ==> r.unwrap()@ == (InstructionView { opcode, immediate: Immediate::Index(i) }),
    {
        match opcode {
            Opcode::Br => Some(Instruction::Br(i)),
            Opcode::BrIf => Some(Instruction::BrIf(i)),
            Opcode::Call => Some(Instruction::Call(i)),
            Opcode::GetLocal => Some(Instruction::GetLocal(i)),
            Opcode::SetLocal => Some(Instruction::SetLocal(i)),
            Opcode::TeeLocal => Some(Instruction::TeeLocal(i)),
            Opcode::GetGlobal => Some(Instruction::GetGlobal(i)),
            Opcode::SetGlobal => Some(Instruction::SetGlobal(i)),
            Opcode::CurrentMemory => Some(Instruction::CurrentMemory(i)),
            Opcode::GrowMemory => Some(Instruction::GrowMemory(i)),
            _ => None,
        }
    }

    /// The load or store that a tag makes up with an alignment and an offset:
    /// `None` for a tag whose immediates have another shape.
    pub fn with_memory(opcode: Opcode, align: u32, offset: u32) -> (r: Option<Instruction>)
        ensures
            r is Some <==> opcode.immediate_kind() == ImmediateKind::Memory,
            r is Some ==> r.unwrap()@ == (InstructionView {
                opcode,
                immediate: Immediate::Memory(align, offset),
            }),
    {
        match opcode {
            Opcode::I32Load => Some(Instruction::I32Load(align, offset)),
            Opcode::I64Load => Some(Instruction::I64Load(align, offset)),
            Opcode::F32Load => Some(Instruction::F32Load(align, offset)),
            Opcode::F64Load => Some(Instruction::F64Load(align, offset)),
            Opcode::I32Load8S => Some(Instruction::I32Load8S(align, offset)),
            Opcode::I32Load8U => Some(Instruction::I32Load8U(align, offset)),
            Opcode::I32Load16S => Some(Instruction::I32Load16S(align, offset)),
            Opcode::I32Load16U => Some(Instruction::I32Load16U(align, offset)),
            Opcode::I64Load8S => Some(Instruction::I64Load8S(align, offset)),
            Opcode::I64Load8U => Some(Instruction::I64Load8U(align, offset)),
            Opcode::I64Load16S => Some(Instruction::I64Load16S(align, offset)),
            Opcode::I64Load16U => Some(Instruction::I64Load16U(align, offset)),
            Opcode::I64Load32S => Some(Instruction::I64Load32S(align, offset)),
            Opcode::I64Load32U => Some(Instruction::I64Load32U(align, offset)),
            Opcode::I32Store => Some(Instruction::I32Store(align, offset)),
            Opcode::I64Store => Some(Instruction::I64Store(align, offset)),
            Opcode::F32Store => Some(Instruction::F32Store(align, offset)),
            Opcode::F64Store => Some(Instruction::F64Store(align, offset)),
            Opcode::I32Store8 => Some(Instruction::I32Store8(align, offset)),
            Opcode::I32Store16 => Some(Instruction::I32Store16(align, offset)),
            Opcode::I64Store8 => Some(Instruction::I64Store8(align, offset)),
            Opcode::I64Store16 => Some(Instruction::I64Store16(align, offset)),
            Opcode::I64Store32 => Some(Instruction::I64Store32(align, offset)),
            _ => None,
        }
    }
}

impl View for Instruction {
    type V = InstructionView;

    open spec fn view(&self) -> InstructionView {
        InstructionView { opcode: self.tag(), immediate: self.immediate() }
    }
}

impl Clone for Instruction {
    fn clone(&self) -> (r: Self)
        ensures
            r@ == self@,
    {
        match self {
            Instruction::Nop => Instruction::Nop,
            Instruction::Block(t) => Instruction::Block(*t),
            Instruction::Loop(t) => Instruction::Loop(*t),
            Instruction::If(t) => Instruction::If(*t),
            Instruction::Else => Instruction::Else,
            Instruction::End => Instruction::End,
            Instruction::Br(i) => Instruction::Br(*i),
            Instruction::BrIf(i) => Instruction::BrIf(*i),
            Instruction::BrTable(targets, default) => Instruction::BrTable(targets.clone(), *default),
            Instruction::Return => Instruction::Return,
            Instruction::Call(i) => Instruction::Call(*i),
            Instruction::CallIndirect(a, b) => Instruction::CallIndirect(*a, *b),
            Instruction::Drop => Instruction::Drop,
            Instruction::Select => Instruction::Select,
            Instruction::GetLocal(i) => Instruction::GetLocal(*i),
            Instruction::SetLocal(i) => Instruction::SetLocal(*i),
            Instruction::TeeLocal(i) => Instruction::TeeLocal(*i),
            Instruction::GetGlobal(i) => Instruction::GetGlobal(*i),
            Instruction::SetGlobal(i) => Instruction::SetGlobal(*i),
            Instruction::I32Load(align, offset) => Instruction::I32Load(*align, *offset),
            Instruction::I64Load(align, offset) => Instruction::I64Load(*align, *offset),
            Instruction::F32Load(align, offset) => Instruction::F32Load(*align, *offset),
            Instruction::F64Load(align, offset) => Instruction::F64Load(*align, *offset),
            Instruction::I32Load8S(align, offset) => Instruction::I32Load8S(*align, *offset),
            Instruction::I32Load8U(align, offset) => Instruction::I32Load8U(*align, *offset),
            Instruction::I32Load16S(align, offset) => Instruction::I32Load16S(*align, *offset),
            Instruction::I32Load16U(align, offset) => Instruction::I32Load16U(*align, *offset),
            Instruction::I64Load8S(align, offset) => Instruction::I64Load8S(*align, *offset),
            Instruction::I64Load8U(align, offset) => Instruction::I64Load8U(*align, *offset),
            Instruction::I64Load16S(align, offset) => Instruction::I64Load16S(*align, *offset),
            Instruction::I64Load16U(align, offset) => Instruction::I64Load16U(*align, *offset),
            Instruction::I64Load32S(align, offset) => Instruction::I64Load32S(*align, *offset),
            Instruction::I64Load32U(align, offset) => Instruction::I64Load32U(*align, *offset),
            Instruction::I32Store(align, offset) => Instruction::I32Store(*align, *offset),
            Instruction::I64Store(align, offset) => Instruction::I64Store(*align, *offset),
            Instruction::F32Store(align, offset) => Instruction::F32Store(*align, *offset),
            Instruction::F64Store(align, offset) => Instruction::F64Store(*align, *offset),
            Instruction::I32Store8(align, offset) => Instruction::I32Store8(*align, *offset),
            Instruction::I32Store16(align, offset) => Instruction::I32Store16(*align, *offset),
            Instruction::I64Store8(align, offset) => Instruction::I64Store8(*align, *offset),
            Instruction::I64Store16(align, offset) => Instruction::I64Store16(*align, *offset),
            Instruction::I64Store32(align, offset) => Instruction::I64Store32(*align, *offset),
            Instruction::CurrentMemory(i) => Instruction::CurrentMemory(*i),
            Instruction::GrowMemory(i) => Instruction::GrowMemory(*i),
            Instruction::I32Const(v) => Instruction::I32Const(*v),
            Instruction::I64Const(v) => Instruction::I64Const(*v),
            Instruction::F32Const(v) => Instruction::F32Const(*v),
            Instruction::F64Const(v) => Instruction::F64Const(*v),
            Instruction::I32Eqz => Instruction::I32Eqz,
            Instruction::I32Eq => Instruction::I32Eq,
            Instruction::I32Ne => Instruction::I32Ne,
            Instruction::I32LtS => Instruction::I32LtS,
            Instruction::I32LtU => Instruction::I32LtU,
            Instruction::I32GtS => Instruction::I32GtS,
            Instruction::I32GtU => Instruction::I32GtU,
            Instruction::I32LeS => Instruction::I32LeS,
            Instruction::I32LeU => Instruction::I32LeU,
            Instruction::I32GeS => Instruction::I32GeS,
            Instruction::I32GeU => Instruction::I32GeU,
            Instruction::I64Eqz => Instruction::I64Eqz,
            Instruction::I64Eq => Instruction::I64Eq,
            Instruction::I64Ne => Instruction::I64Ne,
            Instruction::I64LtS => Instruction::I64LtS,
            Instruction::I64LtU => Instruction::I64LtU,
            Instruction::I64GtS => Instruction::I64GtS,
            Instruction::I64GtU => Instruction::I64GtU,
            Instruction::I64LeS => Instruction::I64LeS,
            Instruction::I64LeU => Instruction::I64LeU,
            Instruction::I64GeS => Instruction::I64GeS,
            Instruction::I64GeU => Instruction::I64GeU,
            Instruction::F32Eq => Instruction::F32Eq,
            Instruction::F32Ne => Instruction::F32Ne,
            Instruction::F32Lt => Instruction::F32Lt,
            Instruction::F32Gt => Instruction::F32Gt,
            Instruction::F32Le => Instruction::F32Le,
            Instruction::F32Ge => Instruction::F32Ge,
            Instruction::F64Eq => Instruction::F64Eq,
            Instruction::F64Ne => Instruction::F64Ne,
            Instruction::F64Lt => Instruction::F64Lt,
            Instruction::F64Gt => Instruction::F64Gt,
            Instruction::F64Le => Instruction::F64Le,
            Instruction::F64Ge => Instruction::F64Ge,
            Instruction::I32Clz => Instruction::I32Clz,
            Instruction::I32Ctz => Instruction::I32Ctz,
            Instruction::I32Popcnt => Instruction::I32Popcnt,
            Instruction::I32Add => Instruction::I32Add,
            Instruction::I32Sub => Instruction::I32Sub,
            Instruction::I32Mul => Instruction::I32Mul,
            Instruction::I32DivS => Instruction::I32DivS,
            Instruction::I32DivU => Instruction::I32DivU,
            Instruction::I32RemS => Instruction::I32RemS,
            Instruction::I32RemU => Instruction::I32RemU,
            Instruction::I32And => Instruction::I32And,
            Instruction::I32Or => Instruction::I32Or,
            Instruction::I32Xor => Instruction::I32Xor,
            Instruction::I32Shl => Instruction::I32Shl,
            Instruction::I32ShrS => Instruction::I32ShrS,
            Instruction::I32ShrU => Instruction::I32ShrU,
            Instruction::I32Rotl => Instruction::I32Rotl,
            Instruction::I32Rotr => Instruction::I32Rotr,
            Instruction::I64Clz => Instruction::I64Clz,
            Instruction::I64Ctz => Instruction::I64Ctz,
            Instruction::I64Popcnt => Instruction::I64Popcnt,
            Instruction::I64Add => Instruction::I64Add,
            Instruction::I64Sub => Instruction::I64Sub,
            Instruction::I64Mul => Instruction::I64Mul,
            Instruction::I64DivS => Instruction::I64DivS,
            Instruction::I64DivU => Instruction::I64DivU,
            Instruction::I64RemS => Instruction::I64RemS,
            Instruction::I64RemU => Instruction::I64RemU,
            Instruction::I64And => Instruction::I64And,
            Instruction::I64Or => Instruction::I64Or,
            Instruction::I64Xor => Instruction::I64Xor,
            Instruction::I64Shl => Instruction::I64Shl,
            Instruction::I64ShrS => Instruction::I64ShrS,
            Instruction::I64ShrU => Instruction::I64ShrU,
            Instruction::I64Rotl => Instruction::I64Rotl,
            Instruction::I64Rotr => Instruction::I64Rotr,
            Instruction::F32Abs => Instruction::F32Abs,
            Instruction::F32Neg => Instruction::F32Neg,
            Instruction::F32Ceil => Instruction::F32Ceil,
            Instruction::F32Floor => Instruction::F32Floor,
            Instruction::F32Trunc => Instruction::F32Trunc,
            Instruction::F32Nearest => Instruction::F32Nearest,
            Instruction::F32Sqrt => Instruction::F32Sqrt,
            Instruction::F32Add => Instruction::F32Add,
            Instruction::F32Sub => Instruction::F32Sub,
            Instruction::F32Mul => Instruction::F32Mul,
            Instruction::F32Div => Instruction::F32Div,
            Instruction::F32Min => Instruction::F32Min,
            Instruction::F32Max => Instruction::F32Max,
            Instruction::F32Copysign => Instruction::F32Copysign,
            Instruction::F64Abs => Instruction::F64Abs,
            Instruction::F64Neg => Instruction::F64Neg,
            Instruction::F64Ceil => Instruction::F64Ceil,
            Instruction::F64Floor => Instruction::F64Floor,
            Instruction::F64Trunc => Instruction::F64Trunc,
            Instruction::F64Nearest => Instruction::F64Nearest,
            Instruction::F64Sqrt => Instruction::F64Sqrt,
            Instruction::F64Add => Instruction::F64Add,
            Instruction::F64Sub => Instruction::F64Sub,
            Instruction::F64Mul => Instruction::F64Mul,
            Instruction::F64Div => Instruction::F64Div,
            Instruction::F64Min => Instruction::F64Min,
            Instruction::F64Max => Instruction::F64Max,
            Instruction::F64Copysign => Instruction::F64Copysign,
            Instruction::I32WrapI64 => Instruction::I32WrapI64,
            Instruction::I32TruncSF32 => Instruction::I32TruncSF32,
            Instruction::I32TruncUF32 => Instruction::I32TruncUF32,
            Instruction::I32TruncSF64 => Instruction::I32TruncSF64,
            Instruction::I32TruncUF64 => Instruction::I32TruncUF64,
            Instruction::I64ExtendSI32 => Instruction::I64ExtendSI32,
            Instruction::I64ExtendUI32 => Instruction::I64ExtendUI32,
            Instruction::I64TruncSF32 => Instruction::I64TruncSF32,
            Instruction::I64TruncUF32 => Instruction::I64TruncUF32,
            Instruction::I64TruncSF64 => Instruction::I64TruncSF64,
            Instruction::I64TruncUF64 => Instruction::I64TruncUF64,
            Instruction::F32ConvertSI32 => Instruction::F32ConvertSI32,
            Instruction::F32ConvertUI32 => Instruction::F32ConvertUI32,
            Instruction::F32ConvertSI64 => Instruction::F32ConvertSI64,
            Instruction::F32ConvertUI64 => Instruction::F32ConvertUI64,
            Instruction::F32DemoteF64 => Instruction::F32DemoteF64,
            Instruction::F64ConvertSI32 => Instruction::F64ConvertSI32,
            Instruction::F64ConvertUI32 => Instruction::F64ConvertUI32,
            Instruction::F64ConvertSI64 => Instruction::F64ConvertSI64,
            Instruction::F64ConvertUI64 => Instruction::F64ConvertUI64,
            Instruction::F64PromoteF32 => Instruction::F64PromoteF32,
            Instruction::I32ReinterpretF32 => Instruction::I32ReinterpretF32,
            Instruction::I64ReinterpretF64 => Instruction::I64ReinterpretF64,
            Instruction::F32ReinterpretI32 => Instruction::F32ReinterpretI32,
            Instruction::F64ReinterpretI64 => Instruction::F64ReinterpretI64,
        }
    }
}

/// An instruction has the tag of its own variant and of no other.
#[verifier::rlimit(100)]
pub proof fn lemma_tag(i: Instruction)
    ensures
        i.tag() is Nop <==> i is Nop,
        i.tag() is Block <==> i is Block,
        i.tag() is Loop <==> i is Loop,
        i.tag() is If <==> i is If,
        i.tag() is Else <==> i is Else,
        i.tag() is End <==> i is End,
        i.tag() is Br <==> i is Br,
        i.tag() is BrIf <==> i is BrIf,
        i.tag() is BrTable <==> i is BrTable,
        i.tag() is Return <==> i is Return,
        i.tag() is Call <==> i is Call,
        i.tag() is CallIndirect <==> i is CallIndirect,
        i.tag() is Drop <==> i is Drop,
        i.tag() is Select <==> i is Select,
        i.tag() is GetLocal <==> i is GetLocal,
        i.tag() is SetLocal <==> i is SetLocal,
        i.tag() is TeeLocal <==> i is TeeLocal,
        i.tag() is GetGlobal <==> i is GetGlobal,
        i.tag() is SetGlobal <==> i is SetGlobal,
        i.tag() is I32Load <==> i is I32Load,
        i.tag() is I64Load <==> i is I64Load,
        i.tag() is F32Load <==> i is F32Load,
        i.tag() is F64Load <==> i is F64Load,
        i.tag() is I32Load8S <==> i is I32Load8S,
        i.tag() is I32Load8U <==> i is I32Load8U,
        i.tag() is I32Load16S <==> i is I32Load16S,
        i.tag() is I32Load16U <==> i is I32Load16U,
        i.tag() is I64Load8S <==> i is I64Load8S,
        i.tag() is I64Load8U <==> i is I64Load8U,
        i.tag() is I64Load16S <==> i is I64Load16S,
        i.tag() is I64Load16U <==> i is I64Load16U,
        i.tag() is I64Load32S <==> i is I64Load32S,
        i.tag() is I64Load32U <==> i is I64Load32U,
        i.tag() is I32Store <==> i is I32Store,
        i.tag() is I64Store <==> i is I64Store,
        i.tag() is F32Store <==> i is F32Store,
        i.tag() is F64Store <==> i is F64Store,
        i.tag() is I32Store8 <==> i is I32Store8,
        i.tag() is I32Store16 <==> i is I32Store16,
        i.tag() is I64Store8 <==> i is I64Store8,
        i.tag() is I64Store16 <==> i is I64Store16,
        i.tag() is I64Store32 <==> i is I64Store32,
        i.tag() is CurrentMemory <==> i is CurrentMemory,
        i.tag() is GrowMemory <==> i is GrowMemory,
        i.tag() is I32Const <==> i is I32Const,
        i.tag() is I64Const <==> i is I64Const,
        i.tag() is F32Const <==> i is F32Const,
        i.tag() is F64Const <==> i is F64Const,
        i.tag() is I32Eqz <==> i is I32Eqz,
        i.tag() is I32Eq <==> i is I32Eq,
        i.tag() is I32Ne <==> i is I32Ne,
        i.tag() is I32LtS <==> i is I32LtS,
        i.tag() is I32LtU <==> i is I32LtU,
        i.tag() is I32GtS <==> i is I32GtS,
        i.tag() is I32GtU <==> i is I32GtU,
        i.tag() is I32LeS <==> i is I32LeS,
        i.tag() is I32LeU <==> i is I32LeU,
        i.tag() is I32GeS <==> i is I32GeS,
        i.tag() is I32GeU <==> i is I32GeU,
        i.tag() is I64Eqz <==> i is I64Eqz,
        i.tag() is I64Eq <==> i is I64Eq,
        i.tag() is I64Ne <==> i is I64Ne,
        i.tag() is I64LtS <==> i is I64LtS,
        i.tag() is I64LtU <==> i is I64LtU,
        i.tag() is I64GtS <==> i is I64GtS,
        i.tag() is I64GtU <==> i is I64GtU,
        i.tag() is I64LeS <==> i is I64LeS,
        i.tag() is I64LeU <==> i is I64LeU,
        i.tag() is I64GeS <==> i is I64GeS,
        i.tag() is I64GeU <==> i is I64GeU,
        i.tag() is F32Eq <==> i is F32Eq,
        i.tag() is F32Ne <==> i is F32Ne,
        i.tag() is F32Lt <==> i is F32Lt,
        i.tag() is F32Gt <==> i is F32Gt,
        i.tag() is F32Le <==> i is F32Le,
        i.tag() is F32Ge <==> i is F32Ge,
        i.tag() is F64Eq <==> i is F64Eq,
        i.tag() is F64Ne <==> i is F64Ne,
        i.tag() is F64Lt <==> i is F64Lt,
        i.tag() is F64Gt <==> i is F64Gt,
        i.tag() is F64Le <==> i is F64Le,
        i.tag() is F64Ge <==> i is F64Ge,
        i.tag() is I32Clz <==> i is I32Clz,
        i.tag() is I32Ctz <==> i is I32Ctz,
        i.tag() is I32Popcnt <==> i is I32Popcnt,
        i.tag() is I32Add <==> i is I32Add,
        i.tag() is I32Sub <==> i is I32Sub,
        i.tag() is I32Mul <==> i is I32Mul,
        i.tag() is I32DivS <==> i is I32DivS,
        i.tag() is I32DivU <==> i is I32DivU,
        i.tag() is I32RemS <==> i is I32RemS,
        i.tag() is I32RemU <==> i is I32RemU,
        i.tag() is I32And <==> i is I32And,
        i.tag() is I32Or <==> i is I32Or,
        i.tag() is I32Xor <==> i is I32Xor,
        i.tag() is I32Shl <==> i is I32Shl,
        i.tag() is I32ShrS <==> i is I32ShrS,
        i.tag() is I32ShrU <==> i is I32ShrU,
        i.tag() is I32Rotl <==> i is I32Rotl,
        i.tag() is I32Rotr <==> i is I32Rotr,
        i.tag() is I64Clz <==> i is I64Clz,
        i.tag() is I64Ctz <==> i is I64Ctz,
        i.tag() is I64Popcnt <==> i is I64Popcnt,
        i.tag() is I64Add <==> i is I64Add,
        i.tag() is I64Sub <==> i is I64Sub,
        i.tag() is I64Mul <==> i is I64Mul,
        i.tag() is I64DivS <==> i is I64DivS,
        i.tag() is I64DivU <==> i is I64DivU,
        i.tag() is I64RemS <==> i is I64RemS,
        i.tag() is I64RemU <==> i is I64RemU,
        i.tag() is I64And <==> i is I64And,
        i.tag() is I64Or <==> i is I64Or,
        i.tag() is I64Xor <==> i is I64Xor,
        i.tag() is I64Shl <==> i is I64Shl,
        i.tag() is I64ShrS <==> i is I64ShrS,
        i.tag() is I64ShrU <==> i is I64ShrU,
        i.tag() is I64Rotl <==> i is I64Rotl,
        i.tag() is I64Rotr <==> i is I64Rotr,
        i.tag() is F32Abs <==> i is F32Abs,
        i.tag() is F32Neg <==> i is F32Neg,
        i.tag() is F32Ceil <==> i is F32Ceil,
        i.tag() is F32Floor <==> i is F32Floor,
        i.tag() is F32Trunc <==> i is F32Trunc,
        i.tag() is F32Nearest <==> i is F32Nearest,
        i.tag() is F32Sqrt <==> i is F32Sqrt,
        i.tag() is F32Add <==> i is F32Add,
        i.tag() is F32Sub <==> i is F32Sub,
        i.tag() is F32Mul <==> i is F32Mul,
        i.tag() is F32Div <==> i is F32Div,
        i.tag() is F32Min <==> i is F32Min,
        i.tag() is F32Max <==> i is F32Max,
        i.tag() is F32Copysign <==> i is F32Copysign,
        i.tag() is F64Abs <==> i is F64Abs,
        i.tag() is F64Neg <==> i is F64Neg,
        i.tag() is F64Ceil <==> i is F64Ceil,
        i.tag() is F64Floor <==> i is F64Floor,
        i.tag() is F64Trunc <==> i is F64Trunc,
        i.tag() is F64Nearest <==> i is F64Nearest,
        i.tag() is F64Sqrt <==> i is F64Sqrt,
        i.tag() is F64Add <==> i is F64Add,
        i.tag() is F64Sub <==> i is F64Sub,
        i.tag() is F64Mul <==> i is F64Mul,
        i.tag() is F64Div <==> i is F64Div,
        i.tag() is F64Min <==> i is F64Min,
        i.tag() is F64Max <==> i is F64Max,
        i.tag() is F64Copysign <==> i is F64Copysign,
        i.tag() is I32WrapI64 <==> i is I32WrapI64,
        i.tag() is I32TruncSF32 <==> i is I32TruncSF32,
        i.tag() is I32TruncUF32 <==> i is I32TruncUF32,
        i.tag() is I32TruncSF64 <==> i is I32TruncSF64,
        i.tag() is I32TruncUF64 <==> i is I32TruncUF64,
        i.tag() is I64ExtendSI32 <==> i is I64ExtendSI32,
        i.tag() is I64ExtendUI32 <==> i is I64ExtendUI32,
        i.tag() is I64TruncSF32 <==> i is I64TruncSF32,
        i.tag() is I64TruncUF32 <==> i is I64TruncUF32,
        i.tag() is I64TruncSF64 <==> i is I64TruncSF64,
        i.tag() is I64TruncUF64 <==> i is I64TruncUF64,
        i.tag() is F32ConvertSI32 <==> i is F32ConvertSI32,
        i.tag() is F32ConvertUI32 <==> i is F32ConvertUI32,
        i.tag() is F32ConvertSI64 <==> i is F32ConvertSI64,
        i.tag() is F32ConvertUI64 <==> i is F32ConvertUI64,
        i.tag() is F32DemoteF64 <==> i is F32DemoteF64,
        i.tag() is F64ConvertSI32 <==> i is F64ConvertSI32,
        i.tag() is F64ConvertUI32 <==> i is F64ConvertUI32,
        i.tag() is F64ConvertSI64 <==> i is F64ConvertSI64,
        i.tag() is F64ConvertUI64 <==> i is F64ConvertUI64,
        i.tag() is F64PromoteF32 <==> i is F64PromoteF32,
        i.tag() is I32ReinterpretF32 <==> i is I32ReinterpretF32,
        i.tag() is I64ReinterpretF64 <==> i is I64ReinterpretF64,
        i.tag() is F32ReinterpretI32 <==> i is F32ReinterpretI32,
        i.tag() is F64ReinterpretI64 <==> i is F64ReinterpretI64,
{
}

/// The view of an instruction is well formed: its tag names an instruction,
/// and its immediates have the shape that the tag asks for.
pub proof fn lemma_view_well_formed(i: Instruction)
    ensures
        i@.well_formed(),
{
    lemma_tag(i);
}

/// The views of a sequence of instructions, in order.
pub open spec fn views(code: Seq<Instruction>) -> Seq<InstructionView> {
    code.map_values(|i: Instruction| i@)
}

} // verus!
