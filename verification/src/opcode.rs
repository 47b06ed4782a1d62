use vstd::prelude::*;
use vstd::std_specs::convert::FromSpecImpl;

verus! {

/// The tag of an instruction: what the first byte of its encoding names.
#[derive(Clone, Copy, Debug, PartialEq, Eq, Structural)]
pub enum Opcode {
    /// Stands for a byte that names no instruction.
    Unexpected,
    Nop,
    Block,
    Loop,
    If,
    Else,
    End,
    Br,
    BrIf,
    BrTable,
    Return,
    Call,
    CallIndirect,
    Drop,
    Select,
    GetLocal,
    SetLocal,
    TeeLocal,
    GetGlobal,
    SetGlobal,
    I32Load,
    I64Load,
    F32Load,
    F64Load,
    I32Load8S,
    I32Load8U,
    I32Load16S,
    I32Load16U,
    I64Load8S,
    I64Load8U,
    I64Load16S,
    I64Load16U,
    I64Load32S,
    I64Load32U,
    I32Store,
    I64Store,
    F32Store,
    F64Store,
    I32Store8,
    I32Store16,
    I64Store8,
    I64Store16,
    I64Store32,
    CurrentMemory,
    GrowMemory,
    I32Const,
    I64Const,
    F32Const,
    F64Const,
    I32Eqz,
    I32Eq,
    I32Ne,
    I32LtS,
    I32LtU,
    I32GtS,
    I32GtU,
    I32LeS,
    I32LeU,
    I32GeS,
    I32GeU,
    I64Eqz,
    I64Eq,
    I64Ne,
    I64LtS,
    I64LtU,
    I64GtS,
    I64GtU,
    I64LeS,
    I64LeU,
    I64GeS,
    I64GeU,
    F32Eq,
    F32Ne,
    F32Lt,
    F32Gt,
    F32Le,
    F32Ge,
    F64Eq,
    F64Ne,
    F64Lt,
    F64Gt,
    F64Le,
    F64Ge,
    I32Clz,
    I32Ctz,
    I32Popcnt,
    I32Add,
    I32Sub,
    I32Mul,
    I32DivS,
    I32DivU,
    I32RemS,
    I32RemU,
    I32And,
    I32Or,
    I32Xor,
    I32Shl,
    I32ShrS,
    I32ShrU,
    I32Rotl,
    I32Rotr,
    I64Clz,
    I64Ctz,
    I64Popcnt,
    I64Add,
    I64Sub,
    I64Mul,
    I64DivS,
    I64DivU,
    I64RemS,
    I64RemU,
    I64And,
    I64Or,
    I64Xor,
    I64Shl,
    I64ShrS,
    I64ShrU,
    I64Rotl,
    I64Rotr,
    F32Abs,
    F32Neg,
    F32Ceil,
    F32Floor,
    F32Trunc,
    F32Nearest,
    F32Sqrt,
    F32Add,
    F32Sub,
    F32Mul,
    F32Div,
    F32Min,
    F32Max,
    F32Copysign,
    F64Abs,
    F64Neg,
    F64Ceil,
    F64Floor,
    F64Trunc,
    F64Nearest,
    F64Sqrt,
    F64Add,
    F64Sub,
    F64Mul,
    F64Div,
    F64Min,
    F64Max,
    F64Copysign,
    I32WrapI64,
    I32TruncSF32,
    I32TruncUF32,
    I32TruncSF64,
    I32TruncUF64,
    I64ExtendSI32,
    I64ExtendUI32,
    I64TruncSF32,
    I64TruncUF32,
    I64TruncSF64,
    I64TruncUF64,
    F32ConvertSI32,
    F32ConvertUI32,
    F32ConvertSI64,
    F32ConvertUI64,
    F32DemoteF64,
    F64ConvertSI32,
    F64ConvertUI32,
    F64ConvertSI64,
    F64ConvertUI64,
    F64PromoteF32,
    I32ReinterpretF32,
    I64ReinterpretF64,
    F32ReinterpretI32,
    F64ReinterpretI64,
}

impl Opcode {
    /// The tag that a byte names. Every byte has one: a byte that names no
    /// instruction has `Unexpected`.
    pub open spec fn of_byte(x: u8) -> Opcode {
        match x {
            0x01 => Opcode::Nop,
            0x02 => Opcode::Block,
            0x03 => Opcode::Loop,
            0x04 => Opcode::If,
            0x05 => Opcode::Else,
            0x0B => Opcode::End,
            0x0C => Opcode::Br,
            0x0D => Opcode::BrIf,
            0x0E => Opcode::BrTable,
            0x0F => Opcode::Return,
            0x10 => Opcode::Call,
            0x11 => Opcode::CallIndirect,
            0x1A => Opcode::Drop,
            0x1B => Opcode::Select,
            0x20 => Opcode::GetLocal,
            0x21 => Opcode::SetLocal,
            0x22 => Opcode::TeeLocal,
            0x23 => Opcode::GetGlobal,
            0x24 => Opcode::SetGlobal,
            0x28 => Opcode::I32Load,
            0x29 => Opcode::I64Load,
            0x2A => Opcode::F32Load,
            0x2B => Opcode::F64Load,
            0x2C => Opcode::I32Load8S,
            0x2D => Opcode::I32Load8U,
            0x2E => Opcode::I32Load16S,
            0x2F => Opcode::I32Load16U,
            0x30 => Opcode::I64Load8S,
            0x31 => Opcode::I64Load8U,
            0x32 => Opcode::I64Load16S,
            0x33 => Opcode::I64Load16U,
            0x34 => Opcode::I64Load32S,
            0x35 => Opcode::I64Load32U,
            0x36 => Opcode::I32Store,
            0x37 => Opcode::I64Store,
            0x38 => Opcode::F32Store,
            0x39 => Opcode::F64Store,
            0x3A => Opcode::I32Store8,
            0x3B => Opcode::I32Store16,
            0x3C => Opcode::I64Store8,
            0x3D => Opcode::I64Store16,
            0x3E => Opcode::I64Store32,
            0x3F => Opcode::CurrentMemory,
            0x40 => Opcode::GrowMemory,
            0x41 => Opcode::I32Const,
            0x42 => Opcode::I64Const,
            0x43 => Opcode::F32Const,
            0x44 => Opcode::F64Const,
            0x45 => Opcode::I32Eqz,
            0x46 => Opcode::I32Eq,
            0x47 => Opcode::I32Ne,
            0x48 => Opcode::I32LtS,
            0x49 => Opcode::I32LtU,
            0x4A => Opcode::I32GtS,
            0x4B => Opcode::I32GtU,
            0x4C => Opcode::I32LeS,
            0x4D => Opcode::I32LeU,
            0x4E => Opcode::I32GeS,
            0x4F => Opcode::I32GeU,
            0x50 => Opcode::I64Eqz,
            0x51 => Opcode::I64Eq,
            0x52 => Opcode::I64Ne,
            0x53 => Opcode::I64LtS,
            0x54 => Opcode::I64LtU,
            0x55 => Opcode::I64GtS,
            0x56 => Opcode::I64GtU,
            0x57 => Opcode::I64LeS,
            0x58 => Opcode::I64LeU,
            0x59 => Opcode::I64GeS,
            0x5A => Opcode::I64GeU,
            0x5B => Opcode::F32Eq,
            0x5C => Opcode::F32Ne,
            0x5D => Opcode::F32Lt,
            0x5E => Opcode::F32Gt,
            0x5F => Opcode::F32Le,
            0x60 => Opcode::F32Ge,
            0x61 => Opcode::F64Eq,
            0x62 => Opcode::F64Ne,
            0x63 => Opcode::F64Lt,
            0x64 => Opcode::F64Gt,
            0x65 => Opcode::F64Le,
            0x66 => Opcode::F64Ge,
            0x67 => Opcode::I32Clz,
            0x68 => Opcode::I32Ctz,
            0x69 => Opcode::I32Popcnt,
            0x6A => Opcode::I32Add,
            0x6B => Opcode::I32Sub,
            0x6C => Opcode::I32Mul,
            0x6D => Opcode::I32DivS,
            0x6E => Opcode::I32DivU,
            0x6F => Opcode::I32RemS,
            0x70 => Opcode::I32RemU,
            0x71 => Opcode::I32And,
            0x72 => Opcode::I32Or,
            0x73 => Opcode::I32Xor,
            0x74 => Opcode::I32Shl,
            0x75 => Opcode::I32ShrS,
            0x76 => Opcode::I32ShrU,
            0x77 => Opcode::I32Rotl,
            0x78 => Opcode::I32Rotr,
            0x79 => Opcode::I64Clz,
            0x7A => Opcode::I64Ctz,
            0x7B => Opcode::I64Popcnt,
            0x7C => Opcode::I64Add,
            0x7D => Opcode::I64Sub,
            0x7E => Opcode::I64Mul,
            0x7F => Opcode::I64DivS,
            0x80 => Opcode::I64DivU,
            0x81 => Opcode::I64RemS,
            0x82 => Opcode::I64RemU,
            0x83 => Opcode::I64And,
            0x84 => Opcode::I64Or,
            0x85 => Opcode::I64Xor,
            0x86 => Opcode::I64Shl,
            0x87 => Opcode::I64ShrS,
            0x88 => Opcode::I64ShrU,
            0x89 => Opcode::I64Rotl,
            0x8A => Opcode::I64Rotr,
            0x8B => Opcode::F32Abs,
            0x8C => Opcode::F32Neg,
            0x8D => Opcode::F32Ceil,
            0x8E => Opcode::F32Floor,
            0x8F => Opcode::F32Trunc,
            0x90 => Opcode::F32Nearest,
            0x91 => Opcode::F32Sqrt,
            0x92 => Opcode::F32Add,
            0x93 => Opcode::F32Sub,
            0x94 => Opcode::F32Mul,
            0x95 => Opcode::F32Div,
            0x96 => Opcode::F32Min,
            0x97 => Opcode::F32Max,
            0x98 => Opcode::F32Copysign,
            0x99 => Opcode::F64Abs,
            0x9A => Opcode::F64Neg,
            0x9B => Opcode::F64Ceil,
            0x9C => Opcode::F64Floor,
            0x9D => Opcode::F64Trunc,
            0x9E => Opcode::F64Nearest,
            0x9F => Opcode::F64Sqrt,
            0xA0 => Opcode::F64Add,
            0xA1 => Opcode::F64Sub,
            0xA2 => Opcode::F64Mul,
            0xA3 => Opcode::F64Div,
            0xA4 => Opcode::F64Min,
            0xA5 => Opcode::F64Max,
            0xA6 => Opcode::F64Copysign,
            0xA7 => Opcode::I32WrapI64,
            0xA8 => Opcode::I32TruncSF32,
            0xA9 => Opcode::I32TruncUF32,
            0xAA => Opcode::I32TruncSF64,
            0xAB => Opcode::I32TruncUF64,
            0xAC => Opcode::I64ExtendSI32,
            0xAD => Opcode::I64ExtendUI32,
            0xAE => Opcode::I64TruncSF32,
            0xAF => Opcode::I64TruncUF32,
            0xB0 => Opcode::I64TruncSF64,
            0xB1 => Opcode::I64TruncUF64,
            0xB2 => Opcode::F32ConvertSI32,
            0xB3 => Opcode::F32ConvertUI32,
            0xB4 => Opcode::F32ConvertSI64,
            0xB5 => Opcode::F32ConvertUI64,
            0xB6 => Opcode::F32DemoteF64,
            0xB7 => Opcode::F64ConvertSI32,
            0xB8 => Opcode::F64ConvertUI32,
            0xB9 => Opcode::F64ConvertSI64,
            0xBA => Opcode::F64ConvertUI64,
            0xBB => Opcode::F64PromoteF32,
            0xBC => Opcode::I32ReinterpretF32,
            0xBD => Opcode::I64ReinterpretF64,
            0xBE => Opcode::F32ReinterpretI32,
            0xBF => Opcode::F64ReinterpretI64,
            _ => Opcode::Unexpected,
        }
    }

    /// The byte that names this tag in a module; `Unexpected` has none.
    pub open spec fn byte(self) -> u8 {
        match self {
            Opcode::Unexpected => 0xFF,
            Opcode::Nop => 0x01,
            Opcode::Block => 0x02,
            Opcode::Loop => 0x03,
            Opcode::If => 0x04,
            Opcode::Else => 0x05,
            Opcode::End => 0x0B,
            Opcode::Br => 0x0C,
            Opcode::BrIf => 0x0D,
            Opcode::BrTable => 0x0E,
            Opcode::Return => 0x0F,
            Opcode::Call => 0x10,
            Opcode::CallIndirect => 0x11,
            Opcode::Drop => 0x1A,
            Opcode::Select => 0x1B,
            Opcode::GetLocal => 0x20,
            Opcode::SetLocal => 0x21,
            Opcode::TeeLocal => 0x22,
            Opcode::GetGlobal => 0x23,
            Opcode::SetGlobal => 0x24,
            Opcode::I32Load => 0x28,
            Opcode::I64Load => 0x29,
            Opcode::F32Load => 0x2A,
            Opcode::F64Load => 0x2B,
            Opcode::I32Load8S => 0x2C,
            Opcode::I32Load8U => 0x2D,
            Opcode::I32Load16S => 0x2E,
            Opcode::I32Load16U => 0x2F,
            Opcode::I64Load8S => 0x30,
            Opcode::I64Load8U => 0x31,
            Opcode::I64Load16S => 0x32,
            Opcode::I64Load16U => 0x33,
            Opcode::I64Load32S => 0x34,
            Opcode::I64Load32U => 0x35,
            Opcode::I32Store => 0x36,
            Opcode::I64Store => 0x37,
            Opcode::F32Store => 0x38,
            Opcode::F64Store => 0x39,
            Opcode::I32Store8 => 0x3A,
            Opcode::I32Store16 => 0x3B,
            Opcode::I64Store8 => 0x3C,
            Opcode::I64Store16 => 0x3D,
            Opcode::I64Store32 => 0x3E,
            Opcode::CurrentMemory => 0x3F,
            Opcode::GrowMemory => 0x40,
            Opcode::I32Const => 0x41,
            Opcode::I64Const => 0x42,
            Opcode::F32Const => 0x43,
            Opcode::F64Const => 0x44,
            Opcode::I32Eqz => 0x45,
            Opcode::I32Eq => 0x46,
            Opcode::I32Ne => 0x47,
            Opcode::I32LtS => 0x48,
            Opcode::I32LtU => 0x49,
            Opcode::I32GtS => 0x4A,
            Opcode::I32GtU => 0x4B,
            Opcode::I32LeS => 0x4C,
            Opcode::I32LeU => 0x4D,
            Opcode::I32GeS => 0x4E,
            Opcode::I32GeU => 0x4F,
            Opcode::I64Eqz => 0x50,
            Opcode::I64Eq => 0x51,
            Opcode::I64Ne => 0x52,
            Opcode::I64LtS => 0x53,
            Opcode::I64LtU => 0x54,
            Opcode::I64GtS => 0x55,
            Opcode::I64GtU => 0x56,
            Opcode::I64LeS => 0x57,
            Opcode::I64LeU => 0x58,
            Opcode::I64GeS => 0x59,
            Opcode::I64GeU => 0x5A,
            Opcode::F32Eq => 0x5B,
            Opcode::F32Ne => 0x5C,
            Opcode::F32Lt => 0x5D,
            Opcode::F32Gt => 0x5E,
            Opcode::F32Le => 0x5F,
            Opcode::F32Ge => 0x60,
            Opcode::F64Eq => 0x61,
            Opcode::F64Ne => 0x62,
            Opcode::F64Lt => 0x63,
            Opcode::F64Gt => 0x64,
            Opcode::F64Le => 0x65,
            Opcode::F64Ge => 0x66,
            Opcode::I32Clz => 0x67,
            Opcode::I32Ctz => 0x68,
            Opcode::I32Popcnt => 0x69,
            Opcode::I32Add => 0x6A,
            Opcode::I32Sub => 0x6B,
            Opcode::I32Mul => 0x6C,
            Opcode::I32DivS => 0x6D,
            Opcode::I32DivU => 0x6E,
            Opcode::I32RemS => 0x6F,
            Opcode::I32RemU => 0x70,
            Opcode::I32And => 0x71,
            Opcode::I32Or => 0x72,
            Opcode::I32Xor => 0x73,
            Opcode::I32Shl => 0x74,
            Opcode::I32ShrS => 0x75,
            Opcode::I32ShrU => 0x76,
            Opcode::I32Rotl => 0x77,
            Opcode::I32Rotr => 0x78,
            Opcode::I64Clz => 0x79,
            Opcode::I64Ctz => 0x7A,
            Opcode::I64Popcnt => 0x7B,
            Opcode::I64Add => 0x7C,
            Opcode::I64Sub => 0x7D,
            Opcode::I64Mul => 0x7E,
            Opcode::I64DivS => 0x7F,
            Opcode::I64DivU => 0x80,
            Opcode::I64RemS => 0x81,
            Opcode::I64RemU => 0x82,
            Opcode::I64And => 0x83,
            Opcode::I64Or => 0x84,
            Opcode::I64Xor => 0x85,
            Opcode::I64Shl => 0x86,
            Opcode::I64ShrS => 0x87,
            Opcode::I64ShrU => 0x88,
            Opcode::I64Rotl => 0x89,
            Opcode::I64Rotr => 0x8A,
            Opcode::F32Abs => 0x8B,
            Opcode::F32Neg => 0x8C,
            Opcode::F32Ceil => 0x8D,
            Opcode::F32Floor => 0x8E,
            Opcode::F32Trunc => 0x8F,
            Opcode::F32Nearest => 0x90,
            Opcode::F32Sqrt => 0x91,
            Opcode::F32Add => 0x92,
            Opcode::F32Sub => 0x93,
            Opcode::F32Mul => 0x94,
            Opcode::F32Div => 0x95,
            Opcode::F32Min => 0x96,
            Opcode::F32Max => 0x97,
            Opcode::F32Copysign => 0x98,
            Opcode::F64Abs => 0x99,
            Opcode::F64Neg => 0x9A,
            Opcode::F64Ceil => 0x9B,
            Opcode::F64Floor => 0x9C,
            Opcode::F64Trunc => 0x9D,
            Opcode::F64Nearest => 0x9E,
            Opcode::F64Sqrt => 0x9F,
            Opcode::F64Add => 0xA0,
            Opcode::F64Sub => 0xA1,
            Opcode::F64Mul => 0xA2,
            Opcode::F64Div => 0xA3,
            Opcode::F64Min => 0xA4,
            Opcode::F64Max => 0xA5,
            Opcode::F64Copysign => 0xA6,
            Opcode::I32WrapI64 => 0xA7,
            Opcode::I32TruncSF32 => 0xA8,
            Opcode::I32TruncUF32 => 0xA9,
            Opcode::I32TruncSF64 => 0xAA,
            Opcode::I32TruncUF64 => 0xAB,
            Opcode::I64ExtendSI32 => 0xAC,
            Opcode::I64ExtendUI32 => 0xAD,
            Opcode::I64TruncSF32 => 0xAE,
            Opcode::I64TruncUF32 => 0xAF,
            Opcode::I64TruncSF64 => 0xB0,
            Opcode::I64TruncUF64 => 0xB1,
            Opcode::F32ConvertSI32 => 0xB2,
            Opcode::F32ConvertUI32 => 0xB3,
            Opcode::F32ConvertSI64 => 0xB4,
            Opcode::F32ConvertUI64 => 0xB5,
            Opcode::F32DemoteF64 => 0xB6,
            Opcode::F64ConvertSI32 => 0xB7,
            Opcode::F64ConvertUI32 => 0xB8,
            Opcode::F64ConvertSI64 => 0xB9,
            Opcode::F64ConvertUI64 => 0xBA,
            Opcode::F64PromoteF32 => 0xBB,
            Opcode::I32ReinterpretF32 => 0xBC,
            Opcode::I64ReinterpretF64 => 0xBD,
            Opcode::F32ReinterpretI32 => 0xBE,
            Opcode::F64ReinterpretI64 => 0xBF,
        }
    }

    /// The byte of a tag names that tag again.
    pub proof fn lemma_byte_names_tag(self)
        requires
            self != Opcode::Unexpected,
        ensures
            Opcode::of_byte(self.byte()) == self,
    {
    }
}

impl From<u8> for Opcode {
    fn from(x: u8) -> (r: Self) {
        match x {
            0x01 => Opcode::Nop,
            0x02 => Opcode::Block,
            0x03 => Opcode::Loop,
            0x04 => Opcode::If,
            0x05 => Opcode::Else,
            0x0B => Opcode::End,
            0x0C => Opcode::Br,
            0x0D => Opcode::BrIf,
            0x0E => Opcode::BrTable,
            0x0F => Opcode::Return,
            0x10 => Opcode::Call,
            0x11 => Opcode::CallIndirect,
            0x1A => Opcode::Drop,
            0x1B => Opcode::Select,
            0x20 => Opcode::GetLocal,
            0x21 => Opcode::SetLocal,
            0x22 => Opcode::TeeLocal,
            0x23 => Opcode::GetGlobal,
            0x24 => Opcode::SetGlobal,
            0x28 => Opcode::I32Load,
            0x29 => Opcode::I64Load,
            0x2A => Opcode::F32Load,
            0x2B => Opcode::F64Load,
            0x2C => Opcode::I32Load8S,
            0x2D => Opcode::I32Load8U,
            0x2E => Opcode::I32Load16S,
            0x2F => Opcode::I32Load16U,
            0x30 => Opcode::I64Load8S,
            0x31 => Opcode::I64Load8U,
            0x32 => Opcode::I64Load16S,
            0x33 => Opcode::I64Load16U,
            0x34 => Opcode::I64Load32S,
            0x35 => Opcode::I64Load32U,
            0x36 => Opcode::I32Store,
            0x37 => Opcode::I64Store,
            0x38 => Opcode::F32Store,
            0x39 => Opcode::F64Store,
            0x3A => Opcode::I32Store8,
            0x3B => Opcode::I32Store16,
            0x3C => Opcode::I64Store8,
            0x3D => Opcode::I64Store16,
            0x3E => Opcode::I64Store32,
            0x3F => Opcode::CurrentMemory,
            0x40 => Opcode::GrowMemory,
            0x41 => Opcode::I32Const,
            0x42 => Opcode::I64Const,
            0x43 => Opcode::F32Const,
            0x44 => Opcode::F64Const,
            0x45 => Opcode::I32Eqz,
            0x46 => Opcode::I32Eq,
            0x47 => Opcode::I32Ne,
            0x48 => Opcode::I32LtS,
            0x49 => Opcode::I32LtU,
            0x4A => Opcode::I32GtS,
            0x4B => Opcode::I32GtU,
            0x4C => Opcode::I32LeS,
            0x4D => Opcode::I32LeU,
            0x4E => Opcode::I32GeS,
            0x4F => Opcode::I32GeU,
            0x50 => Opcode::I64Eqz,
            0x51 => Opcode::I64Eq,
            0x52 => Opcode::I64Ne,
            0x53 => Opcode::I64LtS,
            0x54 => Opcode::I64LtU,
            0x55 => Opcode::I64GtS,
            0x56 => Opcode::I64GtU,
            0x57 => Opcode::I64LeS,
            0x58 => Opcode::I64LeU,
            0x59 => Opcode::I64GeS,
            0x5A => Opcode::I64GeU,
            0x5B => Opcode::F32Eq,
            0x5C => Opcode::F32Ne,
            0x5D => Opcode::F32Lt,
            0x5E => Opcode::F32Gt,
            0x5F => Opcode::F32Le,
            0x60 => Opcode::F32Ge,
            0x61 => Opcode::F64Eq,
            0x62 => Opcode::F64Ne,
            0x63 => Opcode::F64Lt,
            0x64 => Opcode::F64Gt,
            0x65 => Opcode::F64Le,
            0x66 => Opcode::F64Ge,
            0x67 => Opcode::I32Clz,
            0x68 => Opcode::I32Ctz,
            0x69 => Opcode::I32Popcnt,
            0x6A => Opcode::I32Add,
            0x6B => Opcode::I32Sub,
            0x6C => Opcode::I32Mul,
            0x6D => Opcode::I32DivS,
            0x6E => Opcode::I32DivU,
            0x6F => Opcode::I32RemS,
            0x70 => Opcode::I32RemU,
            0x71 => Opcode::I32And,
            0x72 => Opcode::I32Or,
            0x73 => Opcode::I32Xor,
            0x74 => Opcode::I32Shl,
            0x75 => Opcode::I32ShrS,
            0x76 => Opcode::I32ShrU,
            0x77 => Opcode::I32Rotl,
            0x78 => Opcode::I32Rotr,
            0x79 => Opcode::I64Clz,
            0x7A => Opcode::I64Ctz,
            0x7B => Opcode::I64Popcnt,
            0x7C => Opcode::I64Add,
            0x7D => Opcode::I64Sub,
            0x7E => Opcode::I64Mul,
            0x7F => Opcode::I64DivS,
            0x80 => Opcode::I64DivU,
            0x81 => Opcode::I64RemS,
            0x82 => Opcode::I64RemU,
            0x83 => Opcode::I64And,
            0x84 => Opcode::I64Or,
            0x85 => Opcode::I64Xor,
            0x86 => Opcode::I64Shl,
            0x87 => Opcode::I64ShrS,
            0x88 => Opcode::I64ShrU,
            0x89 => Opcode::I64Rotl,
            0x8A => Opcode::I64Rotr,
            0x8B => Opcode::F32Abs,
            0x8C => Opcode::F32Neg,
            0x8D => Opcode::F32Ceil,
            0x8E => Opcode::F32Floor,
            0x8F => Opcode::F32Trunc,
            0x90 => Opcode::F32Nearest,
            0x91 => Opcode::F32Sqrt,
            0x92 => Opcode::F32Add,
            0x93 => Opcode::F32Sub,
            0x94 => Opcode::F32Mul,
            0x95 => Opcode::F32Div,
            0x96 => Opcode::F32Min,
            0x97 => Opcode::F32Max,
            0x98 => Opcode::F32Copysign,
            0x99 => Opcode::F64Abs,
            0x9A => Opcode::F64Neg,
            0x9B => Opcode::F64Ceil,
            0x9C => Opcode::F64Floor,
            0x9D => Opcode::F64Trunc,
            0x9E => Opcode::F64Nearest,
            0x9F => Opcode::F64Sqrt,
            0xA0 => Opcode::F64Add,
            0xA1 => Opcode::F64Sub,
            0xA2 => Opcode::F64Mul,
            0xA3 => Opcode::F64Div,
            0xA4 => Opcode::F64Min,
            0xA5 => Opcode::F64Max,
            0xA6 => Opcode::F64Copysign,
            0xA7 => Opcode::I32WrapI64,
            0xA8 => Opcode::I32TruncSF32,
            0xA9 => Opcode::I32TruncUF32,
            0xAA => Opcode::I32TruncSF64,
            0xAB => Opcode::I32TruncUF64,
            0xAC => Opcode::I64ExtendSI32,
            0xAD => Opcode::I64ExtendUI32,
            0xAE => Opcode::I64TruncSF32,
            0xAF => Opcode::I64TruncUF32,
            0xB0 => Opcode::I64TruncSF64,
            0xB1 => Opcode::I64TruncUF64,
            0xB2 => Opcode::F32ConvertSI32,
            0xB3 => Opcode::F32ConvertUI32,
            0xB4 => Opcode::F32ConvertSI64,
            0xB5 => Opcode::F32ConvertUI64,
            0xB6 => Opcode::F32DemoteF64,
            0xB7 => Opcode::F64ConvertSI32,
            0xB8 => Opcode::F64ConvertUI32,
            0xB9 => Opcode::F64ConvertSI64,
            0xBA => Opcode::F64ConvertUI64,
            0xBB => Opcode::F64PromoteF32,
            0xBC => Opcode::I32ReinterpretF32,
            0xBD => Opcode::I64ReinterpretF64,
            0xBE => Opcode::F32ReinterpretI32,
            0xBF => Opcode::F64ReinterpretI64,
            _ => Opcode::Unexpected,
        }
    }
}

impl FromSpecImpl<u8> for Opcode {
    open spec fn obeys_from_spec() -> bool {
        true
    }

    open spec fn from_spec(x: u8) -> Opcode {
        Opcode::of_byte(x)
    }
}

} // verus!
