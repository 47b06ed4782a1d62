use crate::decode::error::DecodeError;
use crate::decode::grammar;
use crate::decode::grammar::Parsed;
use crate::from_le::FromLe;
use crate::instruction::{views, ImmediateKind, Instruction};
use crate::module::{Module, ModuleView, Section, SectionType};
use crate::opcode::Opcode;
use crate::types::{
    BlockType, CodeSection, ExportEntry, ExportEntryView, ExportSection, ExternalKind, FuncType,
    FuncTypeView, FunctionBody, FunctionBodyView, FunctionSection, LocalEntry, TypeSection,
    ValueType, VerUintN,
};
use vstd::prelude::*;
use vstd::slice::{slice_subrange, slice_to_vec};
use vstd::utf8::{decode_utf8, valid_utf8};

verus! {

/// `r`, with `rest` left of the input, is what `p` asks for.
pub open spec fn reads<T>(p: Parsed<T>, r: Result<T, DecodeError>, rest: Seq<u8>) -> bool {
    match p {
        Ok((v, s)) => r == Ok::<T, DecodeError>(v) && rest == s,
        Err(e) => r == Err::<T, DecodeError>(e),
    }
}

/// `r`, with `rest` left of the input, is what `p` asks for, up to the view
/// of the value.
pub open spec fn reads_view<T: View>(
    p: Parsed<T::V>,
    r: Result<T, DecodeError>,
    rest: Seq<u8>,
) -> bool {
    match p {
        Ok((v, s)) => r is Ok && r->Ok_0@ == v && rest == s,
        Err(e) => r is Err && r->Err_0 == e,
    }
}

/// `r`, with `rest` left of the input `s`, is the section of the kind `kind`
/// whose payload is the first `size` bytes of `s`.
pub open spec fn reads_section(
    s: Seq<u8>,
    kind: SectionType,
    size: u32,
    r: Result<Section, DecodeError>,
    rest: Seq<u8>,
) -> bool {
    match grammar::bytes(s, size as nat) {
        Ok((payload, after)) => match grammar::section(kind, payload) {
            Ok(x) => r is Ok && Some(r->Ok_0@) == x && rest == after,
            Err(e) => r is Err && r->Err_0 == e,
        },
        Err(e) => r is Err && r->Err_0 == e,
    }
}

/// The text that `String::from_utf8` makes of `bytes`: there is one exactly
/// where the bytes are valid UTF-8, and it holds the characters that they
/// encode.
#[verifier::external_body]
fn string_from_utf8(bytes: Vec<u8>) -> (r: Option<String>)
    ensures
        r is Some <==> valid_utf8(bytes@),
        r is Some ==> r->Some_0@ == decode_utf8(bytes@),
{
    String::from_utf8(bytes).ok()
}

/// Reads a module piece by piece from a byte slice.
pub(crate) struct Decoder<'a> {
    reader: &'a [u8],
    position: usize,
}

impl<'a> View for Decoder<'a> {
    type V = Seq<u8>;

    /// The bytes that are still to be read.
    closed spec fn view(&self) -> Seq<u8> {
        self.reader@.skip(self.position as int)
    }
}

impl<'a> Decoder<'a> {
    #[verifier::type_invariant]
    spec fn in_bounds(&self) -> bool {
        self.position <= self.reader@.len()
    }

    pub(crate) fn new(reader: &'a [u8]) -> (r: Self)
        ensures
            r@ == reader@,
    {
        assert(reader@.skip(0) =~= reader@);
        Decoder { reader, position: 0 }
    }

    pub(crate) fn is_end(&self) -> (r: bool)
        ensures
            r == (self@.len() == 0),
    {
        proof {
            use_type_invariant(self);
        }
        self.position == self.reader.len()
    }

    /// Checks that the input starts with the magic bytes, and passes them.
    pub(crate) fn validate_wasm_format(&mut self) -> (r: Result<(), DecodeError>)
        ensures
            old(self)@.len() >= 4 && old(self)@.take(4) == grammar::magic() ==> r is Ok
                && final(self)@ == old(self)@.skip(4),
            !(old(self)@.len() >= 4 && old(self)@.take(4) == grammar::magic()) ==> r == Err::<
                (),
                DecodeError,
            >(DecodeError::InvalidWasmFile),
    {
        match self.read_byte(4) {
            Ok(magic_number) => {
                if magic_number[0] == 0x00 && magic_number[1] == 0x61 && magic_number[2] == 0x73
                    && magic_number[3] == 0x6d {
                    assert(magic_number@ =~= grammar::magic());
                    Ok(())
                } else {
                    Err(DecodeError::InvalidWasmFile)
                }
            },
            Err(_) => Err(DecodeError::InvalidWasmFile),
        }
    }

    pub(crate) fn decode_version(&mut self) -> (r: Result<u32, DecodeError>)
        ensures
            reads(grammar::fixed_u32(old(self)@), r, final(self)@),
    {
        let version = self.read_byte(4)?;
        Ok(<u32 as FromLe>::from_le_bytes(version.as_slice()))
    }

    pub(crate) fn decode_section_type(&mut self) -> (r: Result<(SectionType, u32), DecodeError>)
        ensures
            reads(grammar::section_header(old(self)@), r, final(self)@),
            r is Ok ==> final(self)@.len() < old(self)@.len(),
    {
        let section_number = self.read_next()?;
        let section_size = self.decode_ver_uint_n()?;
        let section_type = SectionType::from(section_number);
        Ok((section_type, section_size.0))
    }

    /// Reads the payload of a section of `section_size` bytes and takes it
    /// apart as its kind asks. A kind that is not known gives `None`.
    pub(crate) fn decode_section(&mut self, section_type: SectionType, section_size: u32) -> (r:
        Result<Option<Section>, DecodeError>)
        ensures
            match grammar::bytes(old(self)@, section_size as nat) {
                Ok((payload, after)) => match grammar::section(section_type, payload) {
                    Ok(x) => r is Ok && crate::module::view_of(r->Ok_0) == x && final(self)@
                        == after,
                    Err(e) => r is Err && r->Err_0 == e,
                },
                Err(e) => r is Err && r->Err_0 == e,
            },
            r is Ok ==> final(self)@.len() <= old(self)@.len(),
    {
        let section = match section_type {
            SectionType::Custom => self.decode_custom_section(section_size)?,
            SectionType::Type => self.decode_type_section(section_size)?,
            SectionType::Import => self.decode_import_section(section_size)?,
            SectionType::Function => self.decode_function_section(section_size)?,
            SectionType::Table => self.decode_table_section(section_size)?,
            SectionType::Memory => self.decode_memory_section(section_size)?,
            SectionType::Global => self.decode_global_section(section_size)?,
            SectionType::Export => self.decode_export_section(section_size)?,
            SectionType::Start => self.decode_start_section(section_size)?,
            SectionType::Element => self.decode_element_section(section_size)?,
            SectionType::Code => self.decode_code_section(section_size)?,
            SectionType::Data => self.decode_data_section(section_size)?,
            SectionType::Unsuport => {
                let _ = self.read_byte(section_size as usize)?;
                return Ok(None);
            },
        };
        Ok(Some(section))
    }

    fn decode_custom_section(&mut self, size: u32) -> (r: Result<Section, DecodeError>)
        ensures
            reads_section(old(self)@, SectionType::Custom, size, r, final(self)@),
    {
        let custom_section = self.read_byte(size as usize)?;
        Ok(Section::Custom(custom_section))
    }

    #[verifier::loop_isolation(false)]
    fn decode_value_types(&mut self) -> (r: Result<Vec<ValueType>, DecodeError>)
        ensures
            reads_view(grammar::value_types(old(self)@), r, final(self)@),
    {
        let count = self.decode_ver_uint_n()?;
        let ghost after_count = self@;
        let mut types: Vec<ValueType> = Vec::new();
        let mut i: u32 = 0;
        while i < count.0
            invariant
                i <= count.0,
                grammar::value_types_from(self@, (count.0 - i) as nat, types@)
                    == grammar::value_types_from(after_count, count.0 as nat, Seq::empty()),
            decreases count.0 - i,
        {
            let t = self.read_next()?;
            types.push(ValueType::from(t));
            i += 1;
        }
        Ok(types)
    }

    fn decode_func_type(&mut self) -> (r: Result<FuncType, DecodeError>)
        ensures
            reads_view(grammar::func_type(old(self)@), r, final(self)@),
    {
        let marker = self.read_next()?;
        if marker != 0x60 {
            return Err(DecodeError::Unexpected);
        }
        let params = self.decode_value_types()?;
        let results = self.decode_value_types()?;
        Ok(FuncType { params, returns: results })
    }

    #[verifier::loop_isolation(false)]
    fn decode_type_section(&mut self, size: u32) -> (r: Result<Section, DecodeError>)
        ensures
            reads_section(old(self)@, SectionType::Type, size, r, final(self)@),
    {
        let type_section = self.read_byte(size as usize)?;
        let mut type_section_decoder = Decoder::new(type_section.as_slice());
        let entry_count = type_section_decoder.decode_ver_uint_n()?;
        let ghost after_count = type_section_decoder@;
        let mut type_section = TypeSection { entries: Vec::new() };
        assert(type_section@ =~= Seq::<FuncTypeView>::empty());
        let mut i: u32 = 0;
        while i < entry_count.0
            invariant
                i <= entry_count.0,
                grammar::func_types_from(
                    type_section_decoder@,
                    (entry_count.0 - i) as nat,
                    type_section@,
                ) == grammar::func_types_from(after_count, entry_count.0 as nat, Seq::empty()),
            decreases entry_count.0 - i,
        {
            let func_type = type_section_decoder.decode_func_type()?;
            let ghost before = type_section@;
            let ghost entry = func_type@;
            type_section.entries.push(func_type);
            assert(type_section@ =~= before.push(entry));
            i += 1;
        }
        Ok(Section::Type(type_section))
    }

    fn decode_import_section(&mut self, size: u32) -> (r: Result<Section, DecodeError>)
        ensures
            reads_section(old(self)@, SectionType::Import, size, r, final(self)@),
    {
        let custom_section = self.read_byte(size as usize)?;
        Ok(Section::Import(custom_section))
    }

    #[verifier::loop_isolation(false)]
    fn decode_function_section(&mut self, size: u32) -> (r: Result<Section, DecodeError>)
        ensures
            reads_section(old(self)@, SectionType::Function, size, r, final(self)@),
    {
        let func_section = self.read_byte(size as usize)?;
        let mut func_section_decoder = Decoder::new(func_section.as_slice());
        let mut func_section = FunctionSection { types: Vec::new() };
        let count = func_section_decoder.decode_ver_uint_n()?;
        let ghost after_count = func_section_decoder@;
        let mut i: u32 = 0;
        while i < count.0
            invariant
                i <= count.0,
                grammar::ver_uints_from(
                    func_section_decoder@,
                    (count.0 - i) as nat,
                    func_section@,
                ) == grammar::ver_uints_from(after_count, count.0 as nat, Seq::empty()),
            decreases count.0 - i,
        {
            let t = func_section_decoder.decode_ver_uint_n()?;
            func_section.types.push(t.0);
            i += 1;
        }
        Ok(Section::Function(func_section))
    }

    fn decode_table_section(&mut self, size: u32) -> (r: Result<Section, DecodeError>)
        ensures
            reads_section(old(self)@, SectionType::Table, size, r, final(self)@),
    {
        let custom_section = self.read_byte(size as usize)?;
        Ok(Section::Table(custom_section))
    }

    fn decode_memory_section(&mut self, size: u32) -> (r: Result<Section, DecodeError>)
        ensures
            reads_section(old(self)@, SectionType::Memory, size, r, final(self)@),
    {
        let custom_section = self.read_byte(size as usize)?;
        Ok(Section::Memory(custom_section))
    }

    fn decode_global_section(&mut self, size: u32) -> (r: Result<Section, DecodeError>)
        ensures
            reads_section(old(self)@, SectionType::Global, size, r, final(self)@),
    {
        let custom_section = self.read_byte(size as usize)?;
        Ok(Section::Global(custom_section))
    }

    fn decode_export_entry(&mut self) -> (r: Result<ExportEntry, DecodeError>)
        ensures
            reads_view(grammar::export_entry(old(self)@), r, final(self)@),
    {
        let field_len = self.decode_ver_uint_n()?;
        let field_bytes = self.read_byte(field_len.0 as usize)?;
        let field_str = match string_from_utf8(field_bytes) {
            Some(s) => s,
            None => {
                return Err(DecodeError::Unexpected);
            },
        };
        let kind = ExternalKind::from(self.decode_ver_uint_n()?);
        let index = self.decode_ver_uint_n()?.0;
        Ok(ExportEntry { field_str, kind, index })
    }

    #[verifier::loop_isolation(false)]
    fn decode_export_section(&mut self, size: u32) -> (r: Result<Section, DecodeError>)
        ensures
            reads_section(old(self)@, SectionType::Export, size, r, final(self)@),
    {
        let section = self.read_byte(size as usize)?;
        let mut export_section_decoder = Decoder::new(section.as_slice());
        let mut export_section = ExportSection { entries: Vec::new() };
        assert(export_section@ =~= Seq::<ExportEntryView>::empty());
        let count = export_section_decoder.decode_ver_uint_n()?;
        let ghost after_count = export_section_decoder@;
        let mut i: u32 = 0;
        while i < count.0
            invariant
                i <= count.0,
                grammar::export_entries_from(
                    export_section_decoder@,
                    (count.0 - i) as nat,
                    export_section@,
                ) == grammar::export_entries_from(after_count, count.0 as nat, Seq::empty()),
            decreases count.0 - i,
        {
            let entry = export_section_decoder.decode_export_entry()?;
            let ghost before = export_section@;
            let ghost entry_view = entry@;
            export_section.entries.push(entry);
            assert(export_section@ =~= before.push(entry_view));
            i += 1;
        }
        Ok(Section::Export(export_section))
    }

    fn decode_start_section(&mut self, size: u32) -> (r: Result<Section, DecodeError>)
        ensures
            reads_section(old(self)@, SectionType::Start, size, r, final(self)@),
    {
        let custom_section = self.read_byte(size as usize)?;
        Ok(Section::Start(custom_section))
    }

    fn decode_element_section(&mut self, size: u32) -> (r: Result<Section, DecodeError>)
        ensures
            reads_section(old(self)@, SectionType::Element, size, r, final(self)@),
    {
        let custom_section = self.read_byte(size as usize)?;
        Ok(Section::Element(custom_section))
    }

    #[verifier::loop_isolation(false)]
    fn decode_local_entries(&mut self) -> (r: Result<Vec<LocalEntry>, DecodeError>)
        ensures
            match grammar::ver_uint(old(self)@) {
                Ok((n, rest)) => reads_view(
                    grammar::local_entries_from(rest, n as nat, Seq::empty()),
                    r,
                    final(self)@,
                ),
                Err(e) => r is Err && r->Err_0 == e,
            },
    {
        let local_count = self.decode_ver_uint_n()?;
        let ghost after_count = self@;
        let mut locales: Vec<LocalEntry> = Vec::new();
        let mut i: u32 = 0;
        while i < local_count.0
            invariant
                i <= local_count.0,
                grammar::local_entries_from(self@, (local_count.0 - i) as nat, locales@)
                    == grammar::local_entries_from(
                    after_count,
                    local_count.0 as nat,
                    Seq::empty(),
                ),
            decreases local_count.0 - i,
        {
            let count = self.decode_ver_uint_n()?;
            let t = self.read_next()?;
            locales.push(LocalEntry { count: count.0, value_type: ValueType::from(t) });
            i += 1;
        }
        Ok(locales)
    }

    /// Reads one function body with its length in front.
    fn decode_sized_body(&mut self) -> (r: Result<FunctionBody, DecodeError>)
        ensures
            reads_view(grammar::sized_body(old(self)@), r, final(self)@),
    {
        let body_size = self.decode_ver_uint_n()?;
        let body_bytes = self.read_byte(body_size.0 as usize)?;
        let mut body = Decoder::new(body_bytes.as_slice());
        let locales = body.decode_local_entries()?;
        let code = body.decode_function_body()?;
        Ok(FunctionBody { locales, code })
    }

    #[verifier::loop_isolation(false)]
    fn decode_code_section(&mut self, size: u32) -> (r: Result<Section, DecodeError>)
        ensures
            reads_section(old(self)@, SectionType::Code, size, r, final(self)@),
    {
        let section = self.read_byte(size as usize)?;
        let mut code_section_decoder = Decoder::new(section.as_slice());
        let mut code_section = CodeSection { bodies: Vec::new() };
        assert(code_section@ =~= Seq::<FunctionBodyView>::empty());
        let count = code_section_decoder.decode_ver_uint_n()?;
        let ghost after_count = code_section_decoder@;
        let mut i: u32 = 0;
        while i < count.0
            invariant
                i <= count.0,
                grammar::bodies_from(code_section_decoder@, (count.0 - i) as nat, code_section@)
                    == grammar::bodies_from(after_count, count.0 as nat, Seq::empty()),
            decreases count.0 - i,
        {
            let function_body = code_section_decoder.decode_sized_body()?;
            let ghost before = code_section@;
            let ghost body_view = function_body@;
            code_section.bodies.push(function_body);
            assert(code_section@ =~= before.push(body_view));
            i += 1;
        }
        Ok(Section::Code(code_section))
    }

    fn decode_data_section(&mut self, size: u32) -> (r: Result<Section, DecodeError>)
        ensures
            reads_section(old(self)@, SectionType::Data, size, r, final(self)@),
    {
        let custom_section = self.read_byte(size as usize)?;
        Ok(Section::Data(custom_section))
    }

    /// Reads one unsigned integer in the variable-length encoding.
    pub(crate) fn decode_ver_uint_n(&mut self) -> (r: Result<VerUintN, DecodeError>)
        ensures
            match grammar::ver_uint(old(self)@) {
                Ok((v, s)) => r == Ok::<VerUintN, DecodeError>(VerUintN(v)) && final(self)@ == s,
                Err(e) => r == Err::<VerUintN, DecodeError>(e),
            },
            r is Ok ==> final(self)@.len() < old(self)@.len(),
    {
        let mut value: u32 = 0;
        let mut shift: u32 = 0;
        loop
            invariant
                shift <= 35,
                shift % 7 == 0,
                self@.len() <= old(self)@.len(),
                shift > 0 ==> self@.len() < old(self)@.len(),
                grammar::ver_uint_from(self@, shift, value) == grammar::ver_uint(old(self)@),
            decreases self@.len(),
        {
            let byte = self.read_next()?;
            if shift >= 32 {
                return Err(DecodeError::InvalidNumeric);
            }
            value = value | (((byte & 0x7f) as u32) << shift);
            if byte & 0x80 == 0 {
                return Ok(VerUintN(value));
            }
            shift = shift + 7;
        }
    }

    /// Reads the targets of a branch table: a count and that many targets.
    #[verifier::loop_isolation(false)]
    fn decode_targets(&mut self) -> (r: Result<Vec<VerUintN>, DecodeError>)
        ensures
            match grammar::ver_uint(old(self)@) {
                Ok((n, rest)) => reads_view(
                    grammar::targets_from(rest, n as nat, Seq::empty()),
                    r,
                    final(self)@,
                ),
                Err(e) => r is Err && r->Err_0 == e,
            },
            r is Ok ==> final(self)@.len() <= old(self)@.len(),
    {
        let target_count = self.decode_ver_uint_n()?;
        let ghost after_count = self@;
        let mut target_tables: Vec<VerUintN> = Vec::new();
        let mut i: u32 = 0;
        while i < target_count.0
            invariant
                i <= target_count.0,
                self@.len() <= old(self)@.len(),
                grammar::targets_from(self@, (target_count.0 - i) as nat, target_tables@)
                    == grammar::targets_from(after_count, target_count.0 as nat, Seq::empty()),
            decreases target_count.0 - i,
        {
            let target = self.decode_ver_uint_n()?;
            target_tables.push(target);
            i += 1;
        }
        Ok(target_tables)
    }

    /// Reads one instruction: the byte of its tag, then the immediates that
    /// the tag asks for.
    fn decode_instruction(&mut self) -> (r: Result<Instruction, DecodeError>)
        ensures
            reads_view(grammar::instruction(old(self)@), r, final(self)@),
            r is Ok ==> final(self)@.len() < old(self)@.len(),
    {
        let opcode = Opcode::from(self.read_next()?);
        let instruction = match opcode.immediate_kind() {
            ImmediateKind::Absent => Instruction::from_opcode(opcode),
            ImmediateKind::Block => {
                let block_type = BlockType::try_from(self.read_next()?)?;
                Instruction::with_block_type(opcode, block_type)
            },
            ImmediateKind::Index => {
                let index = self.decode_ver_uint_n()?;
                Instruction::with_index(opcode, index)
            },
            ImmediateKind::Table => {
                let target_tables = self.decode_targets()?;
                let default_target = self.decode_ver_uint_n()?;
                Some(Instruction::BrTable(target_tables, default_target))
            },
            ImmediateKind::Pair => {
                let type_index = self.decode_ver_uint_n()?;
                let reserved = self.decode_ver_uint_n()?;
                Some(Instruction::CallIndirect(type_index, reserved))
            },
            ImmediateKind::Memory => {
                let align = self.decode_ver_uint_n()?;
                let offset = self.decode_ver_uint_n()?;
                Instruction::with_memory(opcode, align.0, offset.0)
            },
            ImmediateKind::I32 => {
                let bytes = self.read_byte(4)?;
                Some(Instruction::I32Const(<i32 as FromLe>::from_le_bytes(bytes.as_slice())))
            },
            ImmediateKind::I64 => {
                let bytes = self.read_byte(8)?;
                Some(Instruction::I64Const(<i64 as FromLe>::from_le_bytes(bytes.as_slice())))
            },
            ImmediateKind::F32 => {
                let bytes = self.read_byte(4)?;
                Some(Instruction::F32Const(<u32 as FromLe>::from_le_bytes(bytes.as_slice())))
            },
            ImmediateKind::F64 => {
                let bytes = self.read_byte(8)?;
                Some(Instruction::F64Const(<u64 as FromLe>::from_le_bytes(bytes.as_slice())))
            },
        };
        match instruction {
            Some(i) => Ok(i),
            None => Err(DecodeError::Unexpected),
        }
    }

    /// Reads instructions until the input is used up.
    pub(crate) fn decode_function_body(&mut self) -> (r: Result<Vec<Instruction>, DecodeError>)
        ensures
            match grammar::instructions_from(old(self)@, Seq::empty()) {
                Ok(code) => r is Ok && views(r->Ok_0@) == code && final(self)@.len() == 0,
                Err(e) => r is Err && r->Err_0 == e,
            },
    {
        let mut instructions: Vec<Instruction> = Vec::new();
        assert(views(instructions@) =~= Seq::empty());
        while !self.is_end()
            invariant
                grammar::instructions_from(self@, views(instructions@))
                    == grammar::instructions_from(old(self)@, Seq::empty()),
            decreases self@.len(),
        {
            let instruction = self.decode_instruction()?;
            let ghost before = views(instructions@);
            let ghost view = instruction@;
            instructions.push(instruction);
            assert(views(instructions@) =~= before.push(view));
        }
        Ok(instructions)
    }

    fn read_next(&mut self) -> (r: Result<u8, DecodeError>)
        ensures
            reads(grammar::byte(old(self)@), r, final(self)@),
            r is Ok ==> final(self)@.len() < old(self)@.len(),
    {
        proof {
            use_type_invariant(&*self);
        }
        if self.position >= self.reader.len() {
            return Err(DecodeError::IOError);
        }
        let byte = self.reader[self.position];
        assert(self.reader@.skip(self.position as int).skip(1) =~= self.reader@.skip(
            self.position + 1,
        ));
        self.position = self.position + 1;
        Ok(byte)
    }

    fn read_byte(&mut self, size: usize) -> (r: Result<Vec<u8>, DecodeError>)
        ensures
            reads_view(grammar::bytes(old(self)@, size as nat), r, final(self)@),
            r is Ok ==> final(self)@.len() <= old(self)@.len(),
    {
        proof {
            use_type_invariant(&*self);
        }
        if size > self.reader.len() - self.position {
            return Err(DecodeError::IOError);
        }
        let end = self.position + size;
        let buf = slice_to_vec(slice_subrange(self.reader, self.position, end));
        assert(self.reader@.skip(self.position as int).take(size as int)
            =~= self.reader@.subrange(self.position as int, end as int));
        assert(self.reader@.skip(self.position as int).skip(size as int) =~= self.reader@.skip(
            end as int,
        ));
        self.position = end;
        Ok(buf)
    }
}

/// Decodes a module from its bytes.
///
/// The result is what the format gives for these bytes: the module, or the
/// first error that stands in the way. Bytes that do not start with the magic
/// bytes are refused as `InvalidWasmFile`, however few they are.
#[verifier::loop_isolation(false)]
pub fn decode(buf: &[u8]) -> (r: Result<Module, DecodeError>)
    ensures
        grammar::decoded(r, grammar::module(buf@)),
        !(buf@.len() >= 4 && buf@.take(4) == grammar::magic()) ==> r is Err && r->Err_0
            == DecodeError::InvalidWasmFile,
{
    let mut decoder = Decoder::new(buf);
    let mut m = Module::default();
    decoder.validate_wasm_format()?;
    m.version = decoder.decode_version()?;
    let ghost start = decoder@;
    let ghost first = m@;
    assert(first == ModuleView { version: first.version, ..ModuleView::empty() });
    while !decoder.is_end()
        invariant
            grammar::sections_into(decoder@, m@) == grammar::sections_into(start, first),
        decreases decoder@.len(),
    {
        let (section_type, section_size) = decoder.decode_section_type()?;
        let section = decoder.decode_section(section_type, section_size)?;
        match section {
            Some(s) => m.take_in(s),
            None => {},
        }
    }
    Ok(m)
}

} // verus!
