use crate::decode::decoder::decode;
use crate::decode::error::DecodeError;
use crate::decode::grammar;
use crate::types::{
    CodeSection, ExportEntryView, ExportSection, FuncTypeView, FunctionBodyView, FunctionSection,
    TypeSection,
};
use vstd::prelude::*;
use vstd::std_specs::convert::FromSpecImpl;

verus! {

/// A decoded module: its version and, of each kind of section, what the last
/// section of that kind held. The sections that are not taken apart are kept
/// as their bytes.
#[derive(Debug, Clone)]
pub struct Module {
    pub version: u32,
    pub custom_section: Option<Vec<u8>>,
    pub type_section: Option<TypeSection>,
    pub import_section: Option<Vec<u8>>,
    pub function_section: Option<FunctionSection>,
    pub table_section: Option<Vec<u8>>,
    pub memory_section: Option<Vec<u8>>,
    pub global_section: Option<Vec<u8>>,
    pub export_section: Option<ExportSection>,
    pub element_section: Option<Vec<u8>>,
    pub start_section: Option<Vec<u8>>,
    pub code_section: Option<CodeSection>,
    pub data_section: Option<Vec<u8>>,
}

/// A module as sequences.
pub struct ModuleView {
    pub version: u32,
    pub custom_section: Option<Seq<u8>>,
    pub type_section: Option<Seq<FuncTypeView>>,
    pub import_section: Option<Seq<u8>>,
    pub function_section: Option<Seq<u32>>,
    pub table_section: Option<Seq<u8>>,
    pub memory_section: Option<Seq<u8>>,
    pub global_section: Option<Seq<u8>>,
    pub export_section: Option<Seq<ExportEntryView>>,
    pub element_section: Option<Seq<u8>>,
    pub start_section: Option<Seq<u8>>,
    pub code_section: Option<Seq<FunctionBodyView>>,
    pub data_section: Option<Seq<u8>>,
}

/// The view of what an option holds.
pub open spec fn view_of<T: View>(o: Option<T>) -> Option<T::V> {
    match o {
        Some(x) => Some(x@),
        None => None,
    }
}

impl View for Module {
    type V = ModuleView;

    open spec fn view(&self) -> ModuleView {
        ModuleView {
            version: self.version,
            custom_section: view_of(self.custom_section),
            type_section: view_of(self.type_section),
            import_section: view_of(self.import_section),
            function_section: view_of(self.function_section),
            table_section: view_of(self.table_section),
            memory_section: view_of(self.memory_section),
            global_section: view_of(self.global_section),
            export_section: view_of(self.export_section),
            element_section: view_of(self.element_section),
            start_section: view_of(self.start_section),
            code_section: view_of(self.code_section),
            data_section: view_of(self.data_section),
        }
    }
}

impl ModuleView {
    /// The module of version 0 that has no section.
    pub open spec fn empty() -> ModuleView {
        ModuleView {
            version: 0,
            custom_section: None,
            type_section: None,
            import_section: None,
            function_section: None,
            table_section: None,
            memory_section: None,
            global_section: None,
            export_section: None,
            element_section: None,
            start_section: None,
            code_section: None,
            data_section: None,
        }
    }

    /// This module with `section` in the place of its kind, whatever was there.
    pub open spec fn take_in(self, section: SectionView) -> ModuleView {
        match section {
            SectionView::Custom(i) => ModuleView { custom_section: Some(i), ..self },
            SectionView::Type(i) => ModuleView { type_section: Some(i), ..self },
            SectionView::Import(i) => ModuleView { import_section: Some(i), ..self },
            SectionView::Function(i) => ModuleView { function_section: Some(i), ..self },
            SectionView::Table(i) => ModuleView { table_section: Some(i), ..self },
            SectionView::Memory(i) => ModuleView { memory_section: Some(i), ..self },
            SectionView::Global(i) => ModuleView { global_section: Some(i), ..self },
            SectionView::Export(i) => ModuleView { export_section: Some(i), ..self },
            SectionView::Start(i) => ModuleView { start_section: Some(i), ..self },
            SectionView::Element(i) => ModuleView { element_section: Some(i), ..self },
            SectionView::Code(i) => ModuleView { code_section: Some(i), ..self },
            SectionView::Data(i) => ModuleView { data_section: Some(i), ..self },
        }
    }
}

impl Default for Module {
    fn default() -> (r: Self)
        ensures
            r@ == ModuleView::empty(),
    {
        Module {
            version: 0,
            custom_section: None,
            type_section: None,
            import_section: None,
            function_section: None,
            table_section: None,
            memory_section: None,
            global_section: None,
            export_section: None,
            element_section: None,
            start_section: None,
            code_section: None,
            data_section: None,
        }
    }
}

impl Module {
    /// Decodes a module from its bytes.
    ///
    /// The result is what the format gives for these bytes: the module, or the
    /// first error that stands in the way. Bytes that do not start with the
    /// magic bytes are refused as `InvalidWasmFile`, however few they are.
    pub fn from_byte(byte: &[u8]) -> (r: Result<Self, DecodeError>)
        ensures
            grammar::decoded(r, grammar::module(byte@)),
            !(byte@.len() >= 4 && byte@.take(4) == grammar::magic()) ==> r is Err && r->Err_0
                == DecodeError::InvalidWasmFile,
    {
        decode(byte)
    }

    /// Puts `section` in the place of its kind; a section that was there is
    /// dropped.
    pub fn take_in(&mut self, section: Section)
        ensures
            final(self)@ == old(self)@.take_in(section@),
    {
        match section {
            Section::Custom(i) => self.custom_section = Some(i),
            Section::Type(i) => self.type_section = Some(i),
            Section::Import(i) => self.import_section = Some(i),
            Section::Function(i) => self.function_section = Some(i),
            Section::Table(i) => self.table_section = Some(i),
            Section::Memory(i) => self.memory_section = Some(i),
            Section::Global(i) => self.global_section = Some(i),
            Section::Export(i) => self.export_section = Some(i),
            Section::Start(i) => self.start_section = Some(i),
            Section::Element(i) => self.element_section = Some(i),
            Section::Code(i) => self.code_section = Some(i),
            Section::Data(i) => self.data_section = Some(i),
        }
    }
}

/// The kind of a section, as the byte in front of it names it.
#[derive(Clone, Copy, Debug, PartialEq, Eq, Structural)]
pub enum SectionType {
    Custom,
    Type,
    Import,
    Function,
    Table,
    Memory,
    Global,
    Export,
    Start,
    Element,
    Code,
    Data,
    /// Stands for a byte that names no kind of section.
    Unsuport,
}

impl SectionType {
    /// The kind that a byte names; a byte that names none has `Unsuport`.
    pub open spec fn of_byte(x: u8) -> SectionType {
        if x == 0 {
            SectionType::Custom
        } else if x == 1 {
            SectionType::Type
        } else if x == 2 {
            SectionType::Import
        } else if x == 3 {
            SectionType::Function
        } else if x == 4 {
            SectionType::Table
        } else if x == 5 {
            SectionType::Memory
        } else if x == 6 {
            SectionType::Global
        } else if x == 7 {
            SectionType::Export
        } else if x == 8 {
            SectionType::Start
        } else if x == 9 {
            SectionType::Element
        } else if x == 10 {
            SectionType::Code
        } else if x == 11 {
            SectionType::Data
        } else {
            SectionType::Unsuport
        }
    }

    /// The byte that names this kind; `Unsuport` has none.
    pub open spec fn byte(self) -> u8 {
        match self {
            SectionType::Custom => 0,
            SectionType::Type => 1,
            SectionType::Import => 2,
            SectionType::Function => 3,
            SectionType::Table => 4,
            SectionType::Memory => 5,
            SectionType::Global => 6,
            SectionType::Export => 7,
            SectionType::Start => 8,
            SectionType::Element => 9,
            SectionType::Code => 10,
            SectionType::Data => 11,
            SectionType::Unsuport => 12,
        }
    }
}

impl From<u8> for SectionType {
    fn from(x: u8) -> (r: Self) {
        match x {
            0x0 => SectionType::Custom,
            0x1 => SectionType::Type,
            0x2 => SectionType::Import,
            0x3 => SectionType::Function,
            0x4 => SectionType::Table,
            0x5 => SectionType::Memory,
            0x6 => SectionType::Global,
            0x7 => SectionType::Export,
            0x8 => SectionType::Start,
            0x9 => SectionType::Element,
            0xA => SectionType::Code,
            0xB => SectionType::Data,
            _ => SectionType::Unsuport,
        }
    }
}

impl FromSpecImpl<u8> for SectionType {
    open spec fn obeys_from_spec() -> bool {
        true
    }

    open spec fn from_spec(x: u8) -> SectionType {
        SectionType::of_byte(x)
    }
}

/// One decoded section.
#[derive(Clone, Debug)]
pub enum Section {
    Custom(Vec<u8>),
    Type(TypeSection),
    Import(Vec<u8>),
    Function(FunctionSection),
    Table(Vec<u8>),
    Memory(Vec<u8>),
    Global(Vec<u8>),
    Export(ExportSection),
    Start(Vec<u8>),
    Element(Vec<u8>),
    Code(CodeSection),
    Data(Vec<u8>),
}

/// One section as sequences.
pub enum SectionView {
    Custom(Seq<u8>),
    Type(Seq<FuncTypeView>),
    Import(Seq<u8>),
    Function(Seq<u32>),
    Table(Seq<u8>),
    Memory(Seq<u8>),
    Global(Seq<u8>),
    Export(Seq<ExportEntryView>),
    Start(Seq<u8>),
    Element(Seq<u8>),
    Code(Seq<FunctionBodyView>),
    Data(Seq<u8>),
}

impl View for Section {
    type V = SectionView;

    open spec fn view(&self) -> SectionView {
        match self {
            Section::Custom(i) => SectionView::Custom(i@),
            Section::Type(i) => SectionView::Type(i@),
            Section::Import(i) => SectionView::Import(i@),
            Section::Function(i) => SectionView::Function(i@),
            Section::Table(i) => SectionView::Table(i@),
            Section::Memory(i) => SectionView::Memory(i@),
            Section::Global(i) => SectionView::Global(i@),
            Section::Export(i) => SectionView::Export(i@),
            Section::Start(i) => SectionView::Start(i@),
            Section::Element(i) => SectionView::Element(i@),
            Section::Code(i) => SectionView::Code(i@),
            Section::Data(i) => SectionView::Data(i@),
        }
    }
}

} // verus!
