use crate::decode::error::DecodeError;
use crate::instruction::{Instruction, InstructionView};
use vstd::prelude::*;
use vstd::std_specs::convert::{FromSpecImpl, TryFromSpecImpl};

verus! {

/// The kind of value that a stack slot or a local holds.
#[derive(Clone, Copy, Debug, PartialEq, Eq, Structural)]
pub enum ValueType {
    I32,
    I64,
    F32,
    F64,
    /// Stands for a type byte that names no value type.
    Unknown,
}

impl ValueType {
    /// The type that a byte names; a byte that names none has `Unknown`.
    pub open spec fn of_byte(x: u8) -> ValueType {
        if x == 0x7f {
            ValueType::I32
        } else if x == 0x7e {
            ValueType::I64
        } else if x == 0x7d {
            ValueType::F32
        } else if x == 0x7c {
            ValueType::F64
        } else {
            ValueType::Unknown
        }
    }

    /// The type that a number names; a number that names none has `Unknown`.
    pub open spec fn of_number(x: u32) -> ValueType {
        if x > 0xff {
            ValueType::Unknown
        } else {
            ValueType::of_byte(x as u8)
        }
    }

    /// The byte that names this type in a module; `Unknown` has none.
    pub open spec fn byte(self) -> u8 {
        match self {
            ValueType::I32 => 0x7f,
            ValueType::I64 => 0x7e,
            ValueType::F32 => 0x7d,
            ValueType::F64 => 0x7c,
            ValueType::Unknown => 0,
        }
    }
}

impl From<u8> for ValueType {
    fn from(x: u8) -> (r: Self) {
        match x {
            0x7f => ValueType::I32,
            0x7e => ValueType::I64,
            0x7d => ValueType::F32,
            0x7c => ValueType::F64,
            _ => ValueType::Unknown,
        }
    }
}

impl FromSpecImpl<u8> for ValueType {
    open spec fn obeys_from_spec() -> bool {
        true
    }

    open spec fn from_spec(x: u8) -> ValueType {
        ValueType::of_byte(x)
    }
}

impl From<VerUintN> for ValueType {
    fn from(x: VerUintN) -> (r: Self) {
        if x.0 > 0xff {
            ValueType::Unknown
        } else {
            ValueType::from(x.0 as u8)
        }
    }
}

impl FromSpecImpl<VerUintN> for ValueType {
    open spec fn obeys_from_spec() -> bool {
        true
    }

    open spec fn from_spec(x: VerUintN) -> ValueType {
        ValueType::of_number(x.0)
    }
}

/// An unsigned integer of at most 32 bits, as the variable-length encoding
/// carries it.
#[derive(Clone, Copy, Debug, PartialEq, Eq, Structural)]
pub struct VerUintN(pub u32);

impl From<u32> for VerUintN {
    fn from(x: u32) -> (r: Self) {
        VerUintN(x)
    }
}

impl FromSpecImpl<u32> for VerUintN {
    open spec fn obeys_from_spec() -> bool {
        true
    }

    open spec fn from_spec(x: u32) -> VerUintN {
        VerUintN(x)
    }
}

impl From<i32> for VerUintN {
    fn from(x: i32) -> (r: Self) {
        VerUintN(x as u32)
    }
}

impl FromSpecImpl<i32> for VerUintN {
    open spec fn obeys_from_spec() -> bool {
        true
    }

    open spec fn from_spec(x: i32) -> VerUintN {
        VerUintN(x as u32)
    }
}

impl From<usize> for VerUintN {
    fn from(x: usize) -> (r: Self) {
        VerUintN(x as u32)
    }
}

impl FromSpecImpl<usize> for VerUintN {
    open spec fn obeys_from_spec() -> bool {
        true
    }

    open spec fn from_spec(x: usize) -> VerUintN {
        VerUintN(x as u32)
    }
}

impl From<VerUintN> for u32 {
    fn from(x: VerUintN) -> (r: u32) {
        x.0
    }
}

impl FromSpecImpl<VerUintN> for u32 {
    open spec fn obeys_from_spec() -> bool {
        true
    }

    open spec fn from_spec(x: VerUintN) -> u32 {
        x.0
    }
}

impl From<VerUintN> for i32 {
    fn from(x: VerUintN) -> (r: i32) {
        x.0 as i32
    }
}

impl FromSpecImpl<VerUintN> for i32 {
    open spec fn obeys_from_spec() -> bool {
        true
    }

    open spec fn from_spec(x: VerUintN) -> i32 {
        x.0 as i32
    }
}

impl From<VerUintN> for i64 {
    fn from(x: VerUintN) -> (r: i64) {
        x.0 as i64
    }
}

impl FromSpecImpl<VerUintN> for i64 {
    open spec fn obeys_from_spec() -> bool {
        true
    }

    open spec fn from_spec(x: VerUintN) -> i64 {
        x.0 as i64
    }
}

impl From<VerUintN> for usize {
    fn from(x: VerUintN) -> (r: usize) {
        x.0 as usize
    }
}

impl FromSpecImpl<VerUintN> for usize {
    open spec fn obeys_from_spec() -> bool {
        true
    }

    open spec fn from_spec(x: VerUintN) -> usize {
        x.0 as usize
    }
}

/// What a block, a loop or a conditional leaves on the stack.
#[derive(Clone, Copy, Debug, PartialEq, Eq, Structural)]
pub enum BlockType {
    I32,
    I64,
    F32,
    F64,
    Empty,
}

impl BlockType {
    /// The block type that a byte names, if it names one.
    pub open spec fn of_byte(x: u8) -> Option<BlockType> {
        if x == 0x7f {
            Some(BlockType::I32)
        } else if x == 0x7e {
            Some(BlockType::I64)
        } else if x == 0x7d {
            Some(BlockType::F32)
        } else if x == 0x7c {
            Some(BlockType::F64)
        } else if x == 0x40 {
            Some(BlockType::Empty)
        } else {
            None
        }
    }

    /// The byte that names this block type in a module.
    pub open spec fn byte(self) -> u8 {
        match self {
            BlockType::I32 => 0x7f,
            BlockType::I64 => 0x7e,
            BlockType::F32 => 0x7d,
            BlockType::F64 => 0x7c,
            BlockType::Empty => 0x40,
        }
    }
}

impl TryFrom<u8> for BlockType {
    type Error = DecodeError;

    fn try_from(x: u8) -> (r: Result<Self, DecodeError>) {
        match x {
            0x7f => Ok(BlockType::I32),
            0x7e => Ok(BlockType::I64),
            0x7d => Ok(BlockType::F32),
            0x7c => Ok(BlockType::F64),
            0x40 => Ok(BlockType::Empty),
            _ => Err(DecodeError::Unexpected),
        }
    }
}

impl TryFromSpecImpl<u8> for BlockType {
    open spec fn obeys_try_from_spec() -> bool {
        true
    }

    open spec fn try_from_spec(x: u8) -> Result<BlockType, DecodeError> {
        match BlockType::of_byte(x) {
            Some(t) => Ok(t),
            None => Err(DecodeError::Unexpected),
        }
    }
}

impl TryFrom<VerUintN> for BlockType {
    type Error = DecodeError;

    fn try_from(x: VerUintN) -> (r: Result<Self, DecodeError>) {
        if x.0 > 0xff {
            Err(DecodeError::Unexpected)
        } else {
            BlockType::try_from(x.0 as u8)
        }
    }
}

impl TryFromSpecImpl<VerUintN> for BlockType {
    open spec fn obeys_try_from_spec() -> bool {
        true
    }

    open spec fn try_from_spec(x: VerUintN) -> Result<BlockType, DecodeError> {
        if x.0 > 0xff {
            Err(DecodeError::Unexpected)
        } else {
            match BlockType::of_byte(x.0 as u8) {
                Some(t) => Ok(t),
                None => Err(DecodeError::Unexpected),
            }
        }
    }
}

/// What an export names.
#[derive(Clone, Copy, Debug, PartialEq, Eq, Structural)]
pub enum ExternalKind {
    Function,
    Table,
    Memory,
    Global,
    /// Stands for a kind number that names no kind.
    Unknown,
}

impl ExternalKind {
    /// The kind that a number names; a number that names none has `Unknown`.
    pub open spec fn of_number(x: u32) -> ExternalKind {
        if x == 0 {
            ExternalKind::Function
        } else if x == 1 {
            ExternalKind::Table
        } else if x == 2 {
            ExternalKind::Memory
        } else if x == 3 {
            ExternalKind::Global
        } else {
            ExternalKind::Unknown
        }
    }

    /// The number that names this kind in a module; `Unknown` has none.
    pub open spec fn number(self) -> u32 {
        match self {
            ExternalKind::Function => 0,
            ExternalKind::Table => 1,
            ExternalKind::Memory => 2,
            ExternalKind::Global => 3,
            ExternalKind::Unknown => 4,
        }
    }
}

impl From<VerUintN> for ExternalKind {
    fn from(x: VerUintN) -> (r: Self) {
        match x.0 {
            0 => ExternalKind::Function,
            1 => ExternalKind::Table,
            2 => ExternalKind::Memory,
            3 => ExternalKind::Global,
            _ => ExternalKind::Unknown,
        }
    }
}

impl FromSpecImpl<VerUintN> for ExternalKind {
    open spec fn obeys_from_spec() -> bool {
        true
    }

    open spec fn from_spec(x: VerUintN) -> ExternalKind {
        ExternalKind::of_number(x.0)
    }
}

/// The signature of a function.
#[derive(Debug, Clone, PartialEq, Eq)]
pub struct FuncType {
    pub params: Vec<ValueType>,
    pub returns: Vec<ValueType>,
}

/// A signature as sequences.
pub struct FuncTypeView {
    pub params: Seq<ValueType>,
    pub returns: Seq<ValueType>,
}

impl View for FuncType {
    type V = FuncTypeView;

    open spec fn view(&self) -> FuncTypeView {
        FuncTypeView { params: self.params@, returns: self.returns@ }
    }
}

/// The signatures that a module declares.
#[derive(Debug, Clone, PartialEq, Eq)]
pub struct TypeSection {
    pub entries: Vec<FuncType>,
}

impl View for TypeSection {
    type V = Seq<FuncTypeView>;

    open spec fn view(&self) -> Seq<FuncTypeView> {
        self.entries@.map_values(|e: FuncType| e@)
    }
}

impl Default for TypeSection {
    fn default() -> (r: Self)
        ensures
            r@ == Seq::<FuncTypeView>::empty(),
    {
        let r = TypeSection { entries: Vec::new() };
        assert(r@ =~= Seq::<FuncTypeView>::empty());
        r
    }
}

/// For each function of a module, in order, the index of its signature.
#[derive(Debug, Clone, PartialEq, Eq)]
pub struct FunctionSection {
    pub types: Vec<u32>,
}

impl View for FunctionSection {
    type V = Seq<u32>;

    open spec fn view(&self) -> Seq<u32> {
        self.types@
    }
}

/// One exported name.
#[derive(Debug, Clone, PartialEq, Eq)]
pub struct ExportEntry {
    pub field_str: String,
    pub kind: ExternalKind,
    pub index: u32,
}

/// An exported name as a sequence of characters, with what it names.
pub struct ExportEntryView {
    pub field_str: Seq<char>,
    pub kind: ExternalKind,
    pub index: u32,
}

impl View for ExportEntry {
    type V = ExportEntryView;

    open spec fn view(&self) -> ExportEntryView {
        ExportEntryView { field_str: self.field_str@, kind: self.kind, index: self.index }
    }
}

/// The export directory of a module. Names need not differ.
#[derive(Debug, Clone, PartialEq, Eq)]
pub struct ExportSection {
    pub entries: Vec<ExportEntry>,
}

impl View for ExportSection {
    type V = Seq<ExportEntryView>;

    open spec fn view(&self) -> Seq<ExportEntryView> {
        self.entries@.map_values(|e: ExportEntry| e@)
    }
}

/// One run of bytes that initialises memory.
#[derive(Debug, Clone, PartialEq, Eq)]
pub struct DataSegment {
    pub index: u32,
    pub offset: u32,
    pub data: Vec<u8>,
}

/// The data segments of a module.
#[derive(Debug, Clone, PartialEq, Eq)]
pub struct DataSection {
    pub segments: Vec<DataSegment>,
}

/// A declaration of `count` locals of one type.
#[derive(Debug, Clone, Copy, PartialEq, Eq, Structural)]
pub struct LocalEntry {
    pub count: u32,
    pub value_type: ValueType,
}

/// The body of one function: its local declarations and its instructions.
#[derive(Debug, Clone, PartialEq, Eq)]
pub struct FunctionBody {
    pub locales: Vec<LocalEntry>,
    pub code: Vec<Instruction>,
}

/// A function body as sequences.
pub struct FunctionBodyView {
    pub locales: Seq<LocalEntry>,
    pub code: Seq<InstructionView>,
}

impl View for FunctionBody {
    type V = FunctionBodyView;

    open spec fn view(&self) -> FunctionBodyView {
        FunctionBodyView {
            locales: self.locales@,
            code: self.code@.map_values(|i: Instruction| i@),
        }
    }
}

/// The bodies of a module's functions, in the order of its function section.
#[derive(Debug, Clone, PartialEq, Eq)]
pub struct CodeSection {
    pub bodies: Vec<FunctionBody>,
}

impl View for CodeSection {
    type V = Seq<FunctionBodyView>;

    open spec fn view(&self) -> Seq<FunctionBodyView> {
        self.bodies@.map_values(|b: FunctionBody| b@)
    }
}

} // verus!
