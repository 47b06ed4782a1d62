//! The binary format of a module, as functions on byte sequences.
//!
//! A function that reads one thing from the front of its input gives the thing
//! with the bytes that follow it, or the error that stops the reading.

use crate::decode::error::DecodeError;
use crate::from_le::{le_u32, le_u64};
use crate::instruction::{Immediate, ImmediateKind, InstructionView};
use crate::module::{ModuleView, SectionType, SectionView};
use crate::opcode::Opcode;
use crate::types::{
    BlockType, ExportEntryView, ExternalKind, FuncTypeView, FunctionBodyView, LocalEntry,
    ValueType, VerUintN,
};
use vstd::prelude::*;
use vstd::utf8::{decode_utf8, valid_utf8};

verus! {

/// What reading one thing gives: the thing and the rest of the input.
pub type Parsed<T> = Result<(T, Seq<u8>), DecodeError>;

/// The four bytes that every module starts with.
pub open spec fn magic() -> Seq<u8> {
    seq![0x00u8, 0x61u8, 0x73u8, 0x6du8]
}

/// The byte in front of every function signature.
pub open spec fn func_type_marker() -> u8 {
    0x60
}

/// `r` is what `p` asks for: the same error, or a value whose view `p` gives.
pub open spec fn decoded<T: View>(r: Result<T, DecodeError>, p: Result<T::V, DecodeError>) -> bool {
    match p {
        Ok(v) => r is Ok && r->Ok_0@ == v,
        Err(e) => r is Err && r->Err_0 == e,
    }
}

/// One byte.
pub open spec fn byte(s: Seq<u8>) -> Parsed<u8> {
    if s.len() == 0 {
        Err(DecodeError::IOError)
    } else {
        Ok((s[0], s.skip(1)))
    }
}

/// The next `n` bytes.
pub open spec fn bytes(s: Seq<u8>, n: nat) -> Parsed<Seq<u8>> {
    if s.len() < n {
        Err(DecodeError::IOError)
    } else {
        Ok((s.take(n as int), s.skip(n as int)))
    }
}

/// The rest of a variable-length integer whose earlier bytes gave `acc`, the
/// next byte going `shift` bits up.
pub open spec fn ver_uint_from(s: Seq<u8>, shift: u32, acc: u32) -> Parsed<u32>
    decreases s.len(),
{
    if s.len() == 0 {
        Err(DecodeError::IOError)
    } else if shift >= 32 {
        Err(DecodeError::InvalidNumeric)
    } else {
        let value = acc | (((s[0] & 0x7f) as u32) << shift);
        if s[0] & 0x80 == 0 {
            Ok((value, s.skip(1)))
        } else {
            ver_uint_from(s.skip(1), (shift + 7) as u32, value)
        }
    }
}

/// An unsigned integer of up to 32 bits in the variable-length encoding: seven
/// bits a byte, the low bits first, the high bit of a byte set where another
/// byte follows.
pub open spec fn ver_uint(s: Seq<u8>) -> Parsed<u32> {
    ver_uint_from(s, 0, 0)
}

/// Four bytes, the low byte first.
pub open spec fn fixed_u32(s: Seq<u8>) -> Parsed<u32> {
    match bytes(s, 4) {
        Ok((b, rest)) => Ok((le_u32(b), rest)),
        Err(e) => Err(e),
    }
}

/// Eight bytes, the low byte first.
pub open spec fn fixed_u64(s: Seq<u8>) -> Parsed<u64> {
    match bytes(s, 8) {
        Ok((b, rest)) => Ok((le_u64(b), rest)),
        Err(e) => Err(e),
    }
}

/// `n` more value types, one byte each, after those of `acc`.
pub open spec fn value_types_from(s: Seq<u8>, n: nat, acc: Seq<ValueType>) -> Parsed<
    Seq<ValueType>,
>
    decreases n,
{
    if n == 0 {
        Ok((acc, s))
    } else {
        match byte(s) {
            Ok((b, rest)) => value_types_from(
                rest,
                (n - 1) as nat,
                acc.push(ValueType::of_byte(b)),
            ),
            Err(e) => Err(e),
        }
    }
}

/// A count and that many value types.
pub open spec fn value_types(s: Seq<u8>) -> Parsed<Seq<ValueType>> {
    match ver_uint(s) {
        Ok((n, rest)) => value_types_from(rest, n as nat, Seq::empty()),
        Err(e) => Err(e),
    }
}

/// A function signature: the marker, the parameter types, the result types.
pub open spec fn func_type(s: Seq<u8>) -> Parsed<FuncTypeView> {
    match byte(s) {
        Ok((marker, rest)) => if marker != func_type_marker() {
            Err(DecodeError::Unexpected)
        } else {
            match value_types(rest) {
                Ok((params, rest)) => match value_types(rest) {
                    Ok((results, rest)) => Ok((FuncTypeView { params, returns: results }, rest)),
                    Err(e) => Err(e),
                },
                Err(e) => Err(e),
            }
        },
        Err(e) => Err(e),
    }
}

/// `n` more function signatures after those of `acc`.
pub open spec fn func_types_from(s: Seq<u8>, n: nat, acc: Seq<FuncTypeView>) -> Parsed<
    Seq<FuncTypeView>,
>
    decreases n,
{
    if n == 0 {
        Ok((acc, s))
    } else {
        match func_type(s) {
            Ok((t, rest)) => func_types_from(rest, (n - 1) as nat, acc.push(t)),
            Err(e) => Err(e),
        }
    }
}

/// The payload of a type section: a count and that many signatures. What
/// follows them in the payload is not looked at.
pub open spec fn type_section(s: Seq<u8>) -> Result<Seq<FuncTypeView>, DecodeError> {
    match ver_uint(s) {
        Ok((n, rest)) => match func_types_from(rest, n as nat, Seq::empty()) {
            Ok((entries, _)) => Ok(entries),
            Err(e) => Err(e),
        },
        Err(e) => Err(e),
    }
}

/// `n` more variable-length integers after those of `acc`.
pub open spec fn ver_uints_from(s: Seq<u8>, n: nat, acc: Seq<u32>) -> Parsed<Seq<u32>>
    decreases n,
{
    if n == 0 {
        Ok((acc, s))
    } else {
        match ver_uint(s) {
            Ok((v, rest)) => ver_uints_from(rest, (n - 1) as nat, acc.push(v)),
            Err(e) => Err(e),
        }
    }
}

/// The payload of a function section: a count and that many indices.
pub open spec fn function_section(s: Seq<u8>) -> Result<Seq<u32>, DecodeError> {
    match ver_uint(s) {
        Ok((n, rest)) => match ver_uints_from(rest, n as nat, Seq::empty()) {
            Ok((types, _)) => Ok(types),
            Err(e) => Err(e),
        },
        Err(e) => Err(e),
    }
}

/// An export: the length of its name, the name in UTF-8, its kind, its index.
/// A name that is not UTF-8 is `Unexpected`.
pub open spec fn export_entry(s: Seq<u8>) -> Parsed<ExportEntryView> {
    match ver_uint(s) {
        Ok((len, rest)) => match bytes(rest, len as nat) {
            Ok((name, rest)) => if !valid_utf8(name) {
                Err(DecodeError::Unexpected)
            } else {
                match ver_uint(rest) {
                    Ok((kind, rest)) => match ver_uint(rest) {
                        Ok((index, rest)) => Ok(
                            (
                                ExportEntryView {
                                    field_str: decode_utf8(name),
                                    kind: ExternalKind::of_number(kind),
                                    index,
                                },
                                rest,
                            ),
                        ),
                        Err(e) => Err(e),
                    },
                    Err(e) => Err(e),
                }
            },
            Err(e) => Err(e),
        },
        Err(e) => Err(e),
    }
}

/// `n` more exports after those of `acc`.
pub open spec fn export_entries_from(s: Seq<u8>, n: nat, acc: Seq<ExportEntryView>) -> Parsed<
    Seq<ExportEntryView>,
>
    decreases n,
{
    if n == 0 {
        Ok((acc, s))
    } else {
        match export_entry(s) {
            Ok((x, rest)) => export_entries_from(rest, (n - 1) as nat, acc.push(x)),
            Err(e) => Err(e),
        }
    }
}

/// The payload of an export section: a count and that many exports.
pub open spec fn export_section(s: Seq<u8>) -> Result<Seq<ExportEntryView>, DecodeError> {
    match ver_uint(s) {
        Ok((n, rest)) => match export_entries_from(rest, n as nat, Seq::empty()) {
            Ok((entries, _)) => Ok(entries),
            Err(e) => Err(e),
        },
        Err(e) => Err(e),
    }
}

/// A declaration of locals: how many, and the byte of their type.
pub open spec fn local_entry(s: Seq<u8>) -> Parsed<LocalEntry> {
    match ver_uint(s) {
        Ok((count, rest)) => match byte(rest) {
            Ok((t, rest)) => Ok((LocalEntry { count, value_type: ValueType::of_byte(t) }, rest)),
            Err(e) => Err(e),
        },
        Err(e) => Err(e),
    }
}

/// `n` more declarations of locals after those of `acc`.
pub open spec fn local_entries_from(s: Seq<u8>, n: nat, acc: Seq<LocalEntry>) -> Parsed<
    Seq<LocalEntry>,
>
    decreases n,
{
    if n == 0 {
        Ok((acc, s))
    } else {
        match local_entry(s) {
            Ok((x, rest)) => local_entries_from(rest, (n - 1) as nat, acc.push(x)),
            Err(e) => Err(e),
        }
    }
}

/// `n` more branch targets after those of `acc`.
pub open spec fn targets_from(s: Seq<u8>, n: nat, acc: Seq<VerUintN>) -> Parsed<Seq<VerUintN>>
    decreases n,
{
    if n == 0 {
        Ok((acc, s))
    } else {
        match ver_uint(s) {
            Ok((v, rest)) => targets_from(rest, (n - 1) as nat, acc.push(VerUintN(v))),
            Err(e) => Err(e),
        }
    }
}

/// Two variable-length integers, one after the other.
pub open spec fn ver_uint_pair(s: Seq<u8>) -> Parsed<(u32, u32)> {
    match ver_uint(s) {
        Ok((a, rest)) => match ver_uint(rest) {
            Ok((b, rest)) => Ok(((a, b), rest)),
            Err(e) => Err(e),
        },
        Err(e) => Err(e),
    }
}

/// The immediates of the shape `kind`.
///
/// A block type is one byte; an index is a variable-length integer; a branch
/// table is a count, that many targets and the default target; a load or store
/// has its alignment and its offset; a constant has four or eight bytes, the
/// low byte first.
pub open spec fn immediate(s: Seq<u8>, kind: ImmediateKind) -> Parsed<Immediate> {
    match kind {
        ImmediateKind::Absent => Ok((Immediate::Absent, s)),
        ImmediateKind::Block => match byte(s) {
            Ok((b, rest)) => match BlockType::of_byte(b) {
                Some(t) => Ok((Immediate::Block(t), rest)),
                None => Err(DecodeError::Unexpected),
            },
            Err(e) => Err(e),
        },
        ImmediateKind::Index => match ver_uint(s) {
            Ok((i, rest)) => Ok((Immediate::Index(VerUintN(i)), rest)),
            Err(e) => Err(e),
        },
        ImmediateKind::Table => match ver_uint(s) {
            Ok((n, rest)) => match targets_from(rest, n as nat, Seq::empty()) {
                Ok((targets, rest)) => match ver_uint(rest) {
                    Ok((default, rest)) => Ok((Immediate::Table(targets, VerUintN(default)), rest)),
                    Err(e) => Err(e),
                },
                Err(e) => Err(e),
            },
            Err(e) => Err(e),
        },
        ImmediateKind::Pair => match ver_uint_pair(s) {
            Ok(((a, b), rest)) => Ok((Immediate::Pair(VerUintN(a), VerUintN(b)), rest)),
            Err(e) => Err(e),
        },
        ImmediateKind::Memory => match ver_uint_pair(s) {
            Ok(((align, offset), rest)) => Ok((Immediate::Memory(align, offset), rest)),
            Err(e) => Err(e),
        },
        ImmediateKind::I32 => match fixed_u32(s) {
            Ok((v, rest)) => Ok((Immediate::I32(v as i32), rest)),
            Err(e) => Err(e),
        },
        ImmediateKind::I64 => match fixed_u64(s) {
            Ok((v, rest)) => Ok((Immediate::I64(v as i64), rest)),
            Err(e) => Err(e),
        },
        ImmediateKind::F32 => match fixed_u32(s) {
            Ok((v, rest)) => Ok((Immediate::F32(v), rest)),
            Err(e) => Err(e),
        },
        ImmediateKind::F64 => match fixed_u64(s) {
            Ok((v, rest)) => Ok((Immediate::F64(v), rest)),
            Err(e) => Err(e),
        },
    }
}

/// One instruction: the byte of its tag, then its immediates. A byte that
/// names no instruction is `Unexpected`.
pub open spec fn instruction(s: Seq<u8>) -> Parsed<InstructionView> {
    match byte(s) {
        Ok((b, rest)) => {
            let opcode = Opcode::of_byte(b);
            if opcode == Opcode::Unexpected {
                Err(DecodeError::Unexpected)
            } else {
                match immediate(rest, opcode.immediate_kind()) {
                    Ok((imm, rest)) => Ok((InstructionView { opcode, immediate: imm }, rest)),
                    Err(e) => Err(e),
                }
            }
        },
        Err(e) => Err(e),
    }
}

/// Reading a number uses up at least one byte.
pub proof fn lemma_ver_uint_shortens(s: Seq<u8>, shift: u32, acc: u32)
    ensures
        ver_uint_from(s, shift, acc) matches Ok((_, rest)) ==> rest.len() < s.len(),
    decreases s.len(),
{
    if s.len() > 0 && shift < 32 && s[0] & 0x80 != 0 {
        lemma_ver_uint_shortens(
            s.skip(1),
            (shift + 7) as u32,
            acc | (((s[0] & 0x7f) as u32) << shift),
        );
    }
}

proof fn lemma_targets_no_longer(s: Seq<u8>, n: nat, acc: Seq<VerUintN>)
    ensures
        targets_from(s, n, acc) matches Ok((_, rest)) ==> rest.len() <= s.len(),
    decreases n,
{
    if n > 0 {
        lemma_ver_uint_shortens(s, 0, 0);
        match ver_uint(s) {
            Ok((v, rest)) => lemma_targets_no_longer(rest, (n - 1) as nat, acc.push(VerUintN(v))),
            Err(_) => {},
        }
    }
}

proof fn lemma_immediate_no_longer(s: Seq<u8>, kind: ImmediateKind)
    ensures
        immediate(s, kind) matches Ok((_, rest)) ==> rest.len() <= s.len(),
{
    lemma_ver_uint_shortens(s, 0, 0);
    match ver_uint(s) {
        Ok((n, rest)) => {
            lemma_ver_uint_shortens(rest, 0, 0);
            lemma_targets_no_longer(rest, n as nat, Seq::empty());
            match targets_from(rest, n as nat, Seq::empty()) {
                Ok((_, rest)) => lemma_ver_uint_shortens(rest, 0, 0),
                Err(_) => {},
            }
        },
        Err(_) => {},
    }
}

/// Reading an instruction uses up at least one byte.
pub proof fn lemma_instruction_shortens(s: Seq<u8>)
    ensures
        instruction(s) matches Ok((_, rest)) ==> rest.len() < s.len(),
{
    if s.len() > 0 {
        lemma_immediate_no_longer(s.skip(1), Opcode::of_byte(s[0]).immediate_kind());
    }
}

/// The instructions that fill `s` to its end, after those of `acc`.
pub open spec fn instructions_from(s: Seq<u8>, acc: Seq<InstructionView>) -> Result<
    Seq<InstructionView>,
    DecodeError,
>
    decreases s.len(),
    via instructions_from_ends
{
    if s.len() == 0 {
        Ok(acc)
    } else {
        match instruction(s) {
            Ok((i, rest)) => instructions_from(rest, acc.push(i)),
            Err(e) => Err(e),
        }
    }
}

#[via_fn]
proof fn instructions_from_ends(s: Seq<u8>, acc: Seq<InstructionView>) {
    lemma_instruction_shortens(s);
}

/// The bytes of one function body: a count, that many declarations of locals,
/// and instructions to the end of the bytes.
pub open spec fn function_body(s: Seq<u8>) -> Result<FunctionBodyView, DecodeError> {
    match ver_uint(s) {
        Ok((n, rest)) => match local_entries_from(rest, n as nat, Seq::empty()) {
            Ok((locales, rest)) => match instructions_from(rest, Seq::empty()) {
                Ok(code) => Ok(FunctionBodyView { locales, code }),
                Err(e) => Err(e),
            },
            Err(e) => Err(e),
        },
        Err(e) => Err(e),
    }
}

/// A function body with its length in front.
pub open spec fn sized_body(s: Seq<u8>) -> Parsed<FunctionBodyView> {
    match ver_uint(s) {
        Ok((size, rest)) => match bytes(rest, size as nat) {
            Ok((body, rest)) => match function_body(body) {
                Ok(b) => Ok((b, rest)),
                Err(e) => Err(e),
            },
            Err(e) => Err(e),
        },
        Err(e) => Err(e),
    }
}

/// `n` more function bodies after those of `acc`.
pub open spec fn bodies_from(s: Seq<u8>, n: nat, acc: Seq<FunctionBodyView>) -> Parsed<
    Seq<FunctionBodyView>,
>
    decreases n,
{
    if n == 0 {
        Ok((acc, s))
    } else {
        match sized_body(s) {
            Ok((b, rest)) => bodies_from(rest, (n - 1) as nat, acc.push(b)),
            Err(e) => Err(e),
        }
    }
}

/// The payload of a code section: a count and that many bodies.
pub open spec fn code_section(s: Seq<u8>) -> Result<Seq<FunctionBodyView>, DecodeError> {
    match ver_uint(s) {
        Ok((n, rest)) => match bodies_from(rest, n as nat, Seq::empty()) {
            Ok((bodies, _)) => Ok(bodies),
            Err(e) => Err(e),
        },
        Err(e) => Err(e),
    }
}

/// What the payload of a section of the kind `kind` holds: `None` for a kind
/// that is not known, whose payload is passed over.
pub open spec fn section(kind: SectionType, payload: Seq<u8>) -> Result<
    Option<SectionView>,
    DecodeError,
> {
    match kind {
        SectionType::Custom => Ok(Some(SectionView::Custom(payload))),
        SectionType::Type => match type_section(payload) {
            Ok(x) => Ok(Some(SectionView::Type(x))),
            Err(e) => Err(e),
        },
        SectionType::Import => Ok(Some(SectionView::Import(payload))),
        SectionType::Function => match function_section(payload) {
            Ok(x) => Ok(Some(SectionView::Function(x))),
            Err(e) => Err(e),
        },
        SectionType::Table => Ok(Some(SectionView::Table(payload))),
        SectionType::Memory => Ok(Some(SectionView::Memory(payload))),
        SectionType::Global => Ok(Some(SectionView::Global(payload))),
        SectionType::Export => match export_section(payload) {
            Ok(x) => Ok(Some(SectionView::Export(x))),
            Err(e) => Err(e),
        },
        SectionType::Start => Ok(Some(SectionView::Start(payload))),
        SectionType::Element => Ok(Some(SectionView::Element(payload))),
        SectionType::Code => match code_section(payload) {
            Ok(x) => Ok(Some(SectionView::Code(x))),
            Err(e) => Err(e),
        },
        SectionType::Data => Ok(Some(SectionView::Data(payload))),
        SectionType::Unsuport => Ok(None),
    }
}

/// What stands in front of a payload: the byte of the kind, then the length
/// of the payload.
pub open spec fn section_header(s: Seq<u8>) -> Parsed<(SectionType, u32)> {
    match byte(s) {
        Ok((kind, rest)) => match ver_uint(rest) {
            Ok((size, rest)) => Ok(((SectionType::of_byte(kind), size), rest)),
            Err(e) => Err(e),
        },
        Err(e) => Err(e),
    }
}

/// One section: its header, then its payload.
pub open spec fn framed_section(s: Seq<u8>) -> Parsed<Option<SectionView>> {
    match section_header(s) {
        Ok(((kind, size), rest)) => match bytes(rest, size as nat) {
            Ok((payload, rest)) => match section(kind, payload) {
                Ok(x) => Ok((x, rest)),
                Err(e) => Err(e),
            },
            Err(e) => Err(e),
        },
        Err(e) => Err(e),
    }
}

/// Reading a section uses up at least two bytes.
pub proof fn lemma_framed_section_shortens(s: Seq<u8>)
    ensures
        framed_section(s) matches Ok((_, rest)) ==> rest.len() + 2 <= s.len(),
{
    if s.len() > 0 {
        lemma_ver_uint_shortens(s.skip(1), 0, 0);
    }
}

/// The module `m` with the sections of `s` taken in, one after the other, to
/// the end of `s`.
pub open spec fn sections_into(s: Seq<u8>, m: ModuleView) -> Result<ModuleView, DecodeError>
    decreases s.len(),
    via sections_into_ends
{
    if s.len() == 0 {
        Ok(m)
    } else {
        match framed_section(s) {
            Ok((x, rest)) => sections_into(
                rest,
                match x {
                    Some(section) => m.take_in(section),
                    None => m,
                },
            ),
            Err(e) => Err(e),
        }
    }
}

#[via_fn]
proof fn sections_into_ends(s: Seq<u8>, m: ModuleView) {
    lemma_framed_section_shortens(s);
}

/// A module: the magic bytes, the version in four bytes, then sections to the
/// end of the input. An input that does not start with the magic bytes is
/// `InvalidWasmFile`, however short it is.
pub open spec fn module(s: Seq<u8>) -> Result<ModuleView, DecodeError> {
    if s.len() < 4 || s.take(4) != magic() {
        Err(DecodeError::InvalidWasmFile)
    } else {
        match fixed_u32(s.skip(4)) {
            Ok((version, rest)) => sections_into(rest, ModuleView { version, ..ModuleView::empty() }),
            Err(e) => Err(e),
        }
    }
}

} // verus!
