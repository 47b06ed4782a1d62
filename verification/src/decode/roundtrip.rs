//! The bytes that spell a module, and the proof that decoding reads them
//! back.

use crate::decode::error::DecodeError;
use crate::decode::grammar;
use crate::decode::grammar::Parsed;
use crate::from_le::{le_u32, le_u64};
use crate::instruction::{Immediate, InstructionView};
use crate::module::{ModuleView, SectionType, SectionView};
use crate::types::{
    ExportEntryView, ExternalKind, FuncTypeView, FunctionBodyView, LocalEntry,
    ValueType, VerUintN,
};
use vstd::prelude::*;
use vstd::utf8::{encode_utf8, encode_utf8_decode_utf8, encode_utf8_valid_utf8};

verus! {

/// The bytes that spell `v` in the variable-length encoding: seven bits a
/// byte, the low bits first, every byte but the last with its high bit set.
pub open spec fn ver_uint_bytes(v: u32) -> Seq<u8>
    decreases v,
{
    if v < 0x80 {
        seq![v as u8]
    } else {
        seq![(v % 0x80 + 0x80) as u8] + ver_uint_bytes(v / 0x80)
    }
}

/// `p` is two to the power `shift`, and `shift` is where a byte of a number
/// of 32 bits may start.
spec fn place(shift: u32, p: int) -> bool {
    ||| shift == 0 && p == 1
    ||| shift == 7 && p == 0x80
    ||| shift == 14 && p == 0x4000
    ||| shift == 21 && p == 0x20_0000
    ||| shift == 28 && p == 0x1000_0000
}

/// A multiple of a power of two, the power written out.
proof fn lemma_scale(v: int, shift: u32, p: int)
    by (nonlinear_arith)
    requires
        (shift == 0 && p == 1) || (shift == 7 && p == 0x80) || (shift == 14 && p == 0x4000) || (
        shift == 21 && p == 0x20_0000) || (shift == 28 && p == 0x1000_0000),
    ensures
        shift == 0 ==> v * p == v,
        shift == 7 ==> v * p == v * 0x80,
        shift == 14 ==> v * p == v * 0x4000,
        shift == 21 ==> v * p == v * 0x20_0000,
        shift == 28 ==> v * p == v * 0x1000_0000,
{
}

/// Seven more bits above the bits of `acc` add up as numbers do.
proof fn lemma_accumulate(acc: u32, x: u8, shift: u32, p: int)
    requires
        place(shift, p),
        acc < p,
        x < 0x80,
        x * p + acc <= u32::MAX,
    ensures
        (acc | ((x as u32) << shift)) == acc + x * p,
{
    lemma_scale(x as int, shift, p);
    if shift == 0 {
        assert(acc < 1 && x < 0x80 ==> (acc | ((x as u32) << 0u32)) == acc + x * 1) by (bit_vector);
    } else if shift == 7 {
        assert(acc < 0x80 && x < 0x80 ==> (acc | ((x as u32) << 7u32)) == acc + x * 0x80)
            by (bit_vector);
    } else if shift == 14 {
        assert(acc < 0x4000 && x < 0x80 ==> (acc | ((x as u32) << 14u32)) == acc + x * 0x4000)
            by (bit_vector);
    } else if shift == 21 {
        assert(acc < 0x20_0000 && x < 0x80 ==> (acc | ((x as u32) << 21u32)) == acc + x * 0x20_0000)
            by (bit_vector);
    } else {
        assert(acc < 0x1000_0000 && x < 0x10 ==> (acc | ((x as u32) << 28u32)) == acc + x
            * 0x1000_0000) by (bit_vector);
    }
}

/// Reading the bytes of `v` above the bits of `acc` gives both together.
proof fn lemma_ver_uint_from(v: u32, rest: Seq<u8>, shift: u32, p: int, acc: u32)
    requires
        place(shift, p),
        acc < p,
        v * p + acc <= u32::MAX,
    ensures
        grammar::ver_uint_from(ver_uint_bytes(v) + rest, shift, acc) == Ok::<
            (u32, Seq<u8>),
            DecodeError,
        >(((v * p + acc) as u32, rest)),
    decreases v,
{
    let s = ver_uint_bytes(v) + rest;
    let b = s[0];
    lemma_scale(v as int, shift, p);
    assert(s.skip(1) =~= ver_uint_bytes(v).skip(1) + rest);
    if v < 0x80 {
        assert(b == v as u8);
        assert(b < 0x80 ==> (b & 0x7f) == b && (b & 0x80) == 0) by (bit_vector);
        lemma_accumulate(acc, b, shift, p);
        assert(ver_uint_bytes(v).skip(1) =~= Seq::<u8>::empty());
        assert(s.skip(1) =~= rest);
    } else {
        assert(b == (v % 0x80 + 0x80) as u8);
        assert(b >= 0x80 ==> (b & 0x7f) == b - 0x80 && (b & 0x80) != 0) by (bit_vector);
        let x = (b & 0x7f) as u8;
        assert(x == v % 0x80);
        assert(shift < 28);
        lemma_scale(x as int, shift, p);
        lemma_accumulate(acc, x, shift, p);
        let value = (acc + x * p) as u32;
        assert(ver_uint_bytes(v).skip(1) =~= ver_uint_bytes(v / 0x80));
        lemma_scale((v / 0x80) as int, (shift + 7) as u32, p * 0x80);
        lemma_ver_uint_from(v / 0x80, rest, (shift + 7) as u32, p * 0x80, value);
        assert((v / 0x80) * (p * 0x80) + value == v * p + acc);
    }
}

/// Reading the bytes that spell a number gives the number back, with what
/// follows the bytes left over.
pub proof fn lemma_ver_uint_round_trip(v: u32, rest: Seq<u8>)
    ensures
        grammar::ver_uint(ver_uint_bytes(v) + rest) == Ok::<(u32, Seq<u8>), DecodeError>(
            (v, rest),
        ),
{
    lemma_ver_uint_from(v, rest, 0, 1, 0);
}

/// Five bytes that all announce another byte run over the 32 bits of the
/// number: with a sixth byte behind them, reading fails as `InvalidNumeric`.
pub proof fn lemma_ver_uint_overflow(s: Seq<u8>)
    requires
        s.len() >= 6,
        forall|i: int| 0 <= i < 5 ==> #[trigger] s[i] & 0x80 != 0,
    ensures
        grammar::ver_uint(s) == Err::<(u32, Seq<u8>), DecodeError>(DecodeError::InvalidNumeric),
{
    reveal_with_fuel(grammar::ver_uint_from, 7);
    assert(s[0] & 0x80 != 0);
    assert(s.skip(1)[0] == s[1]);
    assert(s.skip(1).skip(1)[0] == s[2]);
    assert(s.skip(1).skip(1).skip(1)[0] == s[3]);
    assert(s.skip(1).skip(1).skip(1).skip(1)[0] == s[4]);
    assert(s.skip(1).skip(1).skip(1).skip(1).skip(1).len() > 0);
}

/// Reading `x` and leaving `rest`.
pub open spec fn read<T>(x: T, rest: Seq<u8>) -> Parsed<T> {
    Ok((x, rest))
}

proof fn lemma_byte(x: u8, rest: Seq<u8>)
    ensures
        grammar::byte(seq![x] + rest) == read(x, rest),
{
    assert((seq![x] + rest).skip(1) =~= rest);
}

proof fn lemma_bytes(b: Seq<u8>, rest: Seq<u8>)
    ensures
        grammar::bytes(b + rest, b.len()) == read(b, rest),
{
    assert((b + rest).take(b.len() as int) =~= b);
    assert((b + rest).skip(b.len() as int) =~= rest);
}

/// The four bytes that spell `v`, the low byte first.
pub open spec fn fixed_u32_bytes(v: u32) -> Seq<u8> {
    seq![
        (v % 0x100) as u8,
        (v / 0x100 % 0x100) as u8,
        (v / 0x1_0000 % 0x100) as u8,
        (v / 0x100_0000) as u8,
    ]
}

/// The eight bytes that spell `v`, the low byte first.
pub open spec fn fixed_u64_bytes(v: u64) -> Seq<u8> {
    fixed_u32_bytes((v % 0x1_0000_0000) as u32) + fixed_u32_bytes((v / 0x1_0000_0000) as u32)
}

proof fn lemma_le_u32(v: u32)
    ensures
        le_u32(fixed_u32_bytes(v)) == v,
{
}

proof fn lemma_fixed_u32(v: u32, rest: Seq<u8>)
    ensures
        grammar::fixed_u32(fixed_u32_bytes(v) + rest) == read(v, rest),
{
    lemma_bytes(fixed_u32_bytes(v), rest);
    lemma_le_u32(v);
}

proof fn lemma_le_u64(v: u64)
    ensures
        le_u64(fixed_u64_bytes(v)) == v,
{
    let low = (v % 0x1_0000_0000) as u32;
    let high = (v / 0x1_0000_0000) as u32;
    let b = fixed_u64_bytes(v);
    let front = fixed_u32_bytes(low);
    assert(b.skip(4) =~= fixed_u32_bytes(high));
    assert(b[0] == front[0] && b[1] == front[1] && b[2] == front[2] && b[3] == front[3]);
    assert(le_u32(b) == le_u32(front));
    lemma_le_u32(low);
    lemma_le_u32(high);
}

proof fn lemma_fixed_u64(v: u64, rest: Seq<u8>)
    ensures
        grammar::fixed_u64(fixed_u64_bytes(v) + rest) == read(v, rest),
{
    lemma_bytes(fixed_u64_bytes(v), rest);
    lemma_le_u64(v);
}

/// The bytes of the types of `ts`, one for each.
pub open spec fn type_bytes(ts: Seq<ValueType>) -> Seq<u8> {
    ts.map_values(|t: ValueType| t.byte())
}

/// None of the types is `Unknown`, and the count of them fits 32 bits.
pub open spec fn types_fit(ts: Seq<ValueType>) -> bool {
    &&& ts.len() <= u32::MAX
    &&& forall|i: int| 0 <= i < ts.len() ==> #[trigger] ts[i] != ValueType::Unknown
}

/// The bytes that spell a list of value types: the count, then the types.
pub open spec fn value_types_bytes(ts: Seq<ValueType>) -> Seq<u8> {
    ver_uint_bytes(ts.len() as u32) + type_bytes(ts)
}

proof fn lemma_value_types_from(ts: Seq<ValueType>, rest: Seq<u8>, acc: Seq<ValueType>)
    requires
        types_fit(ts),
    ensures
        grammar::value_types_from(type_bytes(ts) + rest, ts.len(), acc) == read(acc + ts, rest),
    decreases ts.len(),
{
    let s = type_bytes(ts) + rest;
    if ts.len() == 0 {
        assert(s =~= rest);
        assert(acc + ts =~= acc);
    } else {
        let tail = ts.drop_first();
        assert(ts[0] != ValueType::Unknown);
        assert(s[0] == ts[0].byte());
        assert(s.skip(1) =~= type_bytes(tail) + rest);
        assert forall|i: int| 0 <= i < tail.len() implies #[trigger] tail[i]
            != ValueType::Unknown by {
            assert(tail[i] == ts[i + 1]);
        }
        lemma_value_types_from(tail, rest, acc.push(ts[0]));
        assert(acc.push(ts[0]) + tail =~= acc + ts);
    }
}

proof fn lemma_value_types(ts: Seq<ValueType>, rest: Seq<u8>)
    requires
        types_fit(ts),
    ensures
        grammar::value_types(value_types_bytes(ts) + rest) == read(ts, rest),
{
    assert(value_types_bytes(ts) + rest =~= ver_uint_bytes(ts.len() as u32) + (type_bytes(ts)
        + rest));
    lemma_ver_uint_round_trip(ts.len() as u32, type_bytes(ts) + rest);
    lemma_value_types_from(ts, rest, Seq::empty());
    assert(Seq::<ValueType>::empty() + ts =~= ts);
}

/// The signature can be spelt.
pub open spec fn func_type_fits(t: FuncTypeView) -> bool {
    types_fit(t.params) && types_fit(t.returns)
}

/// The bytes that spell a signature: the marker, the parameter types, the
/// result types.
pub open spec fn func_type_bytes(t: FuncTypeView) -> Seq<u8> {
    seq![grammar::func_type_marker()] + value_types_bytes(t.params) + value_types_bytes(t.returns)
}

proof fn lemma_func_type(t: FuncTypeView, rest: Seq<u8>)
    requires
        func_type_fits(t),
    ensures
        grammar::func_type(func_type_bytes(t) + rest) == read(t, rest),
{
    let after_params = value_types_bytes(t.returns) + rest;
    let after_marker = value_types_bytes(t.params) + after_params;
    assert(func_type_bytes(t) + rest =~= seq![grammar::func_type_marker()] + after_marker);
    lemma_byte(grammar::func_type_marker(), after_marker);
    lemma_value_types(t.params, after_params);
    lemma_value_types(t.returns, rest);
}

/// The bytes of the signatures of `ts`, one after the other.
pub open spec fn func_types_bytes(ts: Seq<FuncTypeView>) -> Seq<u8>
    decreases ts.len(),
{
    if ts.len() == 0 {
        Seq::empty()
    } else {
        func_type_bytes(ts[0]) + func_types_bytes(ts.drop_first())
    }
}

/// Every signature can be spelt, and the count of them fits 32 bits.
pub open spec fn func_types_fit(ts: Seq<FuncTypeView>) -> bool {
    &&& ts.len() <= u32::MAX
    &&& forall|i: int| 0 <= i < ts.len() ==> func_type_fits(#[trigger] ts[i])
}

proof fn lemma_func_types_from(ts: Seq<FuncTypeView>, rest: Seq<u8>, acc: Seq<FuncTypeView>)
    requires
        func_types_fit(ts),
    ensures
        grammar::func_types_from(func_types_bytes(ts) + rest, ts.len(), acc) == read(
            acc + ts,
            rest,
        ),
    decreases ts.len(),
{
    if ts.len() == 0 {
        assert(func_types_bytes(ts) + rest =~= rest);
        assert(acc + ts =~= acc);
    } else {
        let tail = ts.drop_first();
        let after = func_types_bytes(tail) + rest;
        assert(func_types_bytes(ts) + rest =~= func_type_bytes(ts[0]) + after);
        assert(func_type_fits(ts[0]));
        lemma_func_type(ts[0], after);
        assert forall|i: int| 0 <= i < tail.len() implies func_type_fits(#[trigger] tail[i]) by {
            assert(tail[i] == ts[i + 1]);
        }
        lemma_func_types_from(tail, rest, acc.push(ts[0]));
        assert(acc.push(ts[0]) + tail =~= acc + ts);
    }
}

/// The payload of a type section: the count, then the signatures.
pub open spec fn type_section_bytes(ts: Seq<FuncTypeView>) -> Seq<u8> {
    ver_uint_bytes(ts.len() as u32) + func_types_bytes(ts)
}

proof fn lemma_type_section(ts: Seq<FuncTypeView>)
    requires
        func_types_fit(ts),
    ensures
        grammar::type_section(type_section_bytes(ts)) == Ok::<Seq<FuncTypeView>, DecodeError>(ts),
{
    lemma_ver_uint_round_trip(ts.len() as u32, func_types_bytes(ts));
    lemma_func_types_from(ts, Seq::empty(), Seq::empty());
    assert(func_types_bytes(ts) + Seq::<u8>::empty() =~= func_types_bytes(ts));
    assert(Seq::<FuncTypeView>::empty() + ts =~= ts);
}

/// The bytes of the numbers of `xs`, one after the other.
pub open spec fn ver_uints_bytes(xs: Seq<u32>) -> Seq<u8>
    decreases xs.len(),
{
    if xs.len() == 0 {
        Seq::empty()
    } else {
        ver_uint_bytes(xs[0]) + ver_uints_bytes(xs.drop_first())
    }
}

proof fn lemma_ver_uints_from(xs: Seq<u32>, rest: Seq<u8>, acc: Seq<u32>)
    ensures
        grammar::ver_uints_from(ver_uints_bytes(xs) + rest, xs.len(), acc) == read(acc + xs, rest),
    decreases xs.len(),
{
    if xs.len() == 0 {
        assert(ver_uints_bytes(xs) + rest =~= rest);
        assert(acc + xs =~= acc);
    } else {
        let tail = xs.drop_first();
        let after = ver_uints_bytes(tail) + rest;
        assert(ver_uints_bytes(xs) + rest =~= ver_uint_bytes(xs[0]) + after);
        lemma_ver_uint_round_trip(xs[0], after);
        lemma_ver_uints_from(tail, rest, acc.push(xs[0]));
        assert(acc.push(xs[0]) + tail =~= acc + xs);
    }
}

/// The payload of a function section: the count, then the indices.
pub open spec fn function_section_bytes(xs: Seq<u32>) -> Seq<u8> {
    ver_uint_bytes(xs.len() as u32) + ver_uints_bytes(xs)
}

proof fn lemma_function_section(xs: Seq<u32>)
    requires
        xs.len() <= u32::MAX,
    ensures
        grammar::function_section(function_section_bytes(xs)) == Ok::<Seq<u32>, DecodeError>(xs),
{
    lemma_ver_uint_round_trip(xs.len() as u32, ver_uints_bytes(xs));
    lemma_ver_uints_from(xs, Seq::empty(), Seq::empty());
    assert(ver_uints_bytes(xs) + Seq::<u8>::empty() =~= ver_uints_bytes(xs));
    assert(Seq::<u32>::empty() + xs =~= xs);
}

/// The export can be spelt: its kind is known, and the length of its name in
/// UTF-8 fits 32 bits.
pub open spec fn export_entry_fits(e: ExportEntryView) -> bool {
    &&& e.kind != ExternalKind::Unknown
    &&& encode_utf8(e.field_str).len() <= u32::MAX
}

/// The bytes that spell an export: the length of its name, the name in
/// UTF-8, its kind, its index.
pub open spec fn export_entry_bytes(e: ExportEntryView) -> Seq<u8> {
    ver_uint_bytes(encode_utf8(e.field_str).len() as u32) + encode_utf8(e.field_str)
        + ver_uint_bytes(e.kind.number()) + ver_uint_bytes(e.index)
}

proof fn lemma_export_entry(e: ExportEntryView, rest: Seq<u8>)
    requires
        export_entry_fits(e),
    ensures
        grammar::export_entry(export_entry_bytes(e) + rest) == read(e, rest),
{
    let name = encode_utf8(e.field_str);
    let after_kind = ver_uint_bytes(e.index) + rest;
    let after_name = ver_uint_bytes(e.kind.number()) + after_kind;
    let after_len = name + after_name;
    assert(export_entry_bytes(e) + rest =~= ver_uint_bytes(name.len() as u32) + after_len);
    lemma_ver_uint_round_trip(name.len() as u32, after_len);
    lemma_bytes(name, after_name);
    encode_utf8_valid_utf8(e.field_str);
    encode_utf8_decode_utf8(e.field_str);
    lemma_ver_uint_round_trip(e.kind.number(), after_kind);
    lemma_ver_uint_round_trip(e.index, rest);
}

/// The bytes of the exports of `es`, one after the other.
pub open spec fn export_entries_bytes(es: Seq<ExportEntryView>) -> Seq<u8>
    decreases es.len(),
{
    if es.len() == 0 {
        Seq::empty()
    } else {
        export_entry_bytes(es[0]) + export_entries_bytes(es.drop_first())
    }
}

/// Every export can be spelt, and the count of them fits 32 bits.
pub open spec fn export_entries_fit(es: Seq<ExportEntryView>) -> bool {
    &&& es.len() <= u32::MAX
    &&& forall|i: int| 0 <= i < es.len() ==> export_entry_fits(#[trigger] es[i])
}

proof fn lemma_export_entries_from(
    es: Seq<ExportEntryView>,
    rest: Seq<u8>,
    acc: Seq<ExportEntryView>,
)
    requires
        export_entries_fit(es),
    ensures
        grammar::export_entries_from(export_entries_bytes(es) + rest, es.len(), acc) == read(
            acc + es,
            rest,
        ),
    decreases es.len(),
{
    if es.len() == 0 {
        assert(export_entries_bytes(es) + rest =~= rest);
        assert(acc + es =~= acc);
    } else {
        let tail = es.drop_first();
        let after = export_entries_bytes(tail) + rest;
        assert(export_entries_bytes(es) + rest =~= export_entry_bytes(es[0]) + after);
        assert(export_entry_fits(es[0]));
        lemma_export_entry(es[0], after);
        assert forall|i: int| 0 <= i < tail.len() implies export_entry_fits(
            #[trigger] tail[i],
        ) by {
            assert(tail[i] == es[i + 1]);
        }
        lemma_export_entries_from(tail, rest, acc.push(es[0]));
        assert(acc.push(es[0]) + tail =~= acc + es);
    }
}

/// The payload of an export section: the count, then the exports.
pub open spec fn export_section_bytes(es: Seq<ExportEntryView>) -> Seq<u8> {
    ver_uint_bytes(es.len() as u32) + export_entries_bytes(es)
}

proof fn lemma_export_section(es: Seq<ExportEntryView>)
    requires
        export_entries_fit(es),
    ensures
        grammar::export_section(export_section_bytes(es)) == Ok::<
            Seq<ExportEntryView>,
            DecodeError,
        >(es),
{
    lemma_ver_uint_round_trip(es.len() as u32, export_entries_bytes(es));
    lemma_export_entries_from(es, Seq::empty(), Seq::empty());
    assert(export_entries_bytes(es) + Seq::<u8>::empty() =~= export_entries_bytes(es));
    assert(Seq::<ExportEntryView>::empty() + es =~= es);
}

/// The bytes that spell a declaration of locals: how many, and their type.
pub open spec fn local_entry_bytes(l: LocalEntry) -> Seq<u8> {
    ver_uint_bytes(l.count) + seq![l.value_type.byte()]
}

/// The bytes of the declarations of `ls`, one after the other.
pub open spec fn local_entries_bytes(ls: Seq<LocalEntry>) -> Seq<u8>
    decreases ls.len(),
{
    if ls.len() == 0 {
        Seq::empty()
    } else {
        local_entry_bytes(ls[0]) + local_entries_bytes(ls.drop_first())
    }
}

/// Every declaration has a known type, and the count of them fits 32 bits.
pub open spec fn local_entries_fit(ls: Seq<LocalEntry>) -> bool {
    &&& ls.len() <= u32::MAX
    &&& forall|i: int| 0 <= i < ls.len() ==> (#[trigger] ls[i]).value_type != ValueType::Unknown
}

proof fn lemma_local_entries_from(ls: Seq<LocalEntry>, rest: Seq<u8>, acc: Seq<LocalEntry>)
    requires
        local_entries_fit(ls),
    ensures
        grammar::local_entries_from(local_entries_bytes(ls) + rest, ls.len(), acc) == read(
            acc + ls,
            rest,
        ),
    decreases ls.len(),
{
    if ls.len() == 0 {
        assert(local_entries_bytes(ls) + rest =~= rest);
        assert(acc + ls =~= acc);
    } else {
        let tail = ls.drop_first();
        let after = local_entries_bytes(tail) + rest;
        let after_count = seq![ls[0].value_type.byte()] + after;
        assert(local_entries_bytes(ls) + rest =~= ver_uint_bytes(ls[0].count) + after_count);
        lemma_ver_uint_round_trip(ls[0].count, after_count);
        lemma_byte(ls[0].value_type.byte(), after);
        assert(ls[0].value_type != ValueType::Unknown);
        assert forall|i: int| 0 <= i < tail.len() implies (#[trigger] tail[i]).value_type
            != ValueType::Unknown by {
            assert(tail[i] == ls[i + 1]);
        }
        lemma_local_entries_from(tail, rest, acc.push(ls[0]));
        assert(acc.push(ls[0]) + tail =~= acc + ls);
    }
}

/// The bytes of the branch targets of `ts`, one after the other.
pub open spec fn targets_bytes(ts: Seq<VerUintN>) -> Seq<u8>
    decreases ts.len(),
{
    if ts.len() == 0 {
        Seq::empty()
    } else {
        ver_uint_bytes(ts[0].0) + targets_bytes(ts.drop_first())
    }
}

proof fn lemma_targets_from(ts: Seq<VerUintN>, rest: Seq<u8>, acc: Seq<VerUintN>)
    ensures
        grammar::targets_from(targets_bytes(ts) + rest, ts.len(), acc) == read(acc + ts, rest),
    decreases ts.len(),
{
    if ts.len() == 0 {
        assert(targets_bytes(ts) + rest =~= rest);
        assert(acc + ts =~= acc);
    } else {
        let tail = ts.drop_first();
        let after = targets_bytes(tail) + rest;
        assert(targets_bytes(ts) + rest =~= ver_uint_bytes(ts[0].0) + after);
        lemma_ver_uint_round_trip(ts[0].0, after);
        lemma_targets_from(tail, rest, acc.push(ts[0]));
        assert(acc.push(ts[0]) + tail =~= acc + ts);
    }
}

proof fn lemma_ver_uint_pair(a: u32, b: u32, rest: Seq<u8>)
    ensures
        grammar::ver_uint_pair(ver_uint_bytes(a) + ver_uint_bytes(b) + rest) == read((a, b), rest),
{
    assert(ver_uint_bytes(a) + ver_uint_bytes(b) + rest =~= ver_uint_bytes(a) + (ver_uint_bytes(b)
        + rest));
    lemma_ver_uint_round_trip(a, ver_uint_bytes(b) + rest);
    lemma_ver_uint_round_trip(b, rest);
}

/// The bytes that spell the immediates of an instruction.
pub open spec fn immediate_bytes(imm: Immediate) -> Seq<u8> {
    match imm {
        Immediate::Absent => Seq::empty(),
        Immediate::Block(t) => seq![t.byte()],
        Immediate::Index(i) => ver_uint_bytes(i.0),
        Immediate::Table(targets, default) => ver_uint_bytes(targets.len() as u32) + targets_bytes(
            targets,
        ) + ver_uint_bytes(default.0),
        Immediate::Pair(a, b) => ver_uint_bytes(a.0) + ver_uint_bytes(b.0),
        Immediate::Memory(align, offset) => ver_uint_bytes(align) + ver_uint_bytes(offset),
        Immediate::I32(v) => fixed_u32_bytes(v as u32),
        Immediate::I64(v) => fixed_u64_bytes(v as u64),
        Immediate::F32(v) => fixed_u32_bytes(v),
        Immediate::F64(v) => fixed_u64_bytes(v),
    }
}

/// The immediates can be spelt: a branch table has a count of targets that
/// fits 32 bits.
pub open spec fn immediate_fits(imm: Immediate) -> bool {
    imm matches Immediate::Table(targets, _) ==> targets.len() <= u32::MAX
}

proof fn lemma_immediate(imm: Immediate, rest: Seq<u8>)
    requires
        immediate_fits(imm),
    ensures
        grammar::immediate(immediate_bytes(imm) + rest, imm.kind()) == read(imm, rest),
{
    match imm {
        Immediate::Absent => {
            assert(immediate_bytes(imm) + rest =~= rest);
        },
        Immediate::Block(t) => {
            lemma_byte(t.byte(), rest);
        },
        Immediate::Index(i) => {
            lemma_ver_uint_round_trip(i.0, rest);
        },
        Immediate::Table(targets, default) => {
            let after_targets = ver_uint_bytes(default.0) + rest;
            let after_count = targets_bytes(targets) + after_targets;
            assert(immediate_bytes(imm) + rest =~= ver_uint_bytes(targets.len() as u32)
                + after_count);
            lemma_ver_uint_round_trip(targets.len() as u32, after_count);
            lemma_targets_from(targets, after_targets, Seq::empty());
            assert(Seq::<VerUintN>::empty() + targets =~= targets);
            lemma_ver_uint_round_trip(default.0, rest);
        },
        Immediate::Pair(a, b) => {
            lemma_ver_uint_pair(a.0, b.0, rest);
        },
        Immediate::Memory(align, offset) => {
            lemma_ver_uint_pair(align, offset, rest);
        },
        Immediate::I32(v) => {
            lemma_fixed_u32(v as u32, rest);
            assert((v as u32) as i32 == v) by (bit_vector);
        },
        Immediate::I64(v) => {
            lemma_fixed_u64(v as u64, rest);
            assert((v as u64) as i64 == v) by (bit_vector);
        },
        Immediate::F32(v) => {
            lemma_fixed_u32(v, rest);
        },
        Immediate::F64(v) => {
            lemma_fixed_u64(v, rest);
        },
    }
}

/// The instruction can be spelt: it is well formed, and so are its
/// immediates.
pub open spec fn instruction_fits(i: InstructionView) -> bool {
    i.well_formed() && immediate_fits(i.immediate)
}

/// The bytes that spell an instruction: the byte of its tag, then its
/// immediates.
pub open spec fn instruction_bytes(i: InstructionView) -> Seq<u8> {
    seq![i.opcode.byte()] + immediate_bytes(i.immediate)
}

proof fn lemma_instruction(i: InstructionView, rest: Seq<u8>)
    requires
        instruction_fits(i),
    ensures
        grammar::instruction(instruction_bytes(i) + rest) == read(i, rest),
{
    let after = immediate_bytes(i.immediate) + rest;
    assert(instruction_bytes(i) + rest =~= seq![i.opcode.byte()] + after);
    lemma_byte(i.opcode.byte(), after);
    i.opcode.lemma_byte_names_tag();
    lemma_immediate(i.immediate, rest);
}

/// The bytes of the instructions of `code`, one after the other.
pub open spec fn instructions_bytes(code: Seq<InstructionView>) -> Seq<u8>
    decreases code.len(),
{
    if code.len() == 0 {
        Seq::empty()
    } else {
        instruction_bytes(code[0]) + instructions_bytes(code.drop_first())
    }
}

/// Every instruction can be spelt.
pub open spec fn instructions_fit(code: Seq<InstructionView>) -> bool {
    forall|i: int| 0 <= i < code.len() ==> instruction_fits(#[trigger] code[i])
}

proof fn lemma_instructions_from(code: Seq<InstructionView>, acc: Seq<InstructionView>)
    requires
        instructions_fit(code),
    ensures
        grammar::instructions_from(instructions_bytes(code), acc) == Ok::<
            Seq<InstructionView>,
            DecodeError,
        >(acc + code),
    decreases code.len(),
{
    if code.len() == 0 {
        assert(acc + code =~= acc);
    } else {
        let tail = code.drop_first();
        let after = instructions_bytes(tail);
        assert(instruction_fits(code[0]));
        lemma_instruction(code[0], after);
        assert forall|i: int| 0 <= i < tail.len() implies instruction_fits(#[trigger] tail[i]) by {
            assert(tail[i] == code[i + 1]);
        }
        lemma_instructions_from(tail, acc.push(code[0]));
        assert(acc.push(code[0]) + tail =~= acc + code);
    }
}

/// The bytes of a function body: the count of its declarations of locals,
/// the declarations, the instructions.
pub open spec fn function_body_bytes(b: FunctionBodyView) -> Seq<u8> {
    ver_uint_bytes(b.locales.len() as u32) + local_entries_bytes(b.locales) + instructions_bytes(
        b.code,
    )
}

/// The body can be spelt, and its bytes are few enough for their count to
/// fit 32 bits.
pub open spec fn function_body_fits(b: FunctionBodyView) -> bool {
    &&& local_entries_fit(b.locales)
    &&& instructions_fit(b.code)
    &&& function_body_bytes(b).len() <= u32::MAX
}

proof fn lemma_function_body(b: FunctionBodyView)
    requires
        function_body_fits(b),
    ensures
        grammar::function_body(function_body_bytes(b)) == Ok::<FunctionBodyView, DecodeError>(b),
{
    let code = instructions_bytes(b.code);
    let after_count = local_entries_bytes(b.locales) + code;
    assert(function_body_bytes(b) =~= ver_uint_bytes(b.locales.len() as u32) + after_count);
    lemma_ver_uint_round_trip(b.locales.len() as u32, after_count);
    lemma_local_entries_from(b.locales, code, Seq::empty());
    assert(Seq::<LocalEntry>::empty() + b.locales =~= b.locales);
    lemma_instructions_from(b.code, Seq::empty());
    assert(Seq::<InstructionView>::empty() + b.code =~= b.code);
}

/// A function body with the count of its bytes in front.
pub open spec fn sized_body_bytes(b: FunctionBodyView) -> Seq<u8> {
    ver_uint_bytes(function_body_bytes(b).len() as u32) + function_body_bytes(b)
}

proof fn lemma_sized_body(b: FunctionBodyView, rest: Seq<u8>)
    requires
        function_body_fits(b),
    ensures
        grammar::sized_body(sized_body_bytes(b) + rest) == read(b, rest),
{
    let body = function_body_bytes(b);
    assert(sized_body_bytes(b) + rest =~= ver_uint_bytes(body.len() as u32) + (body + rest));
    lemma_ver_uint_round_trip(body.len() as u32, body + rest);
    lemma_bytes(body, rest);
    lemma_function_body(b);
}

/// The bytes of the bodies of `bs`, one after the other.
pub open spec fn bodies_bytes(bs: Seq<FunctionBodyView>) -> Seq<u8>
    decreases bs.len(),
{
    if bs.len() == 0 {
        Seq::empty()
    } else {
        sized_body_bytes(bs[0]) + bodies_bytes(bs.drop_first())
    }
}

/// Every body can be spelt, and the count of them fits 32 bits.
pub open spec fn bodies_fit(bs: Seq<FunctionBodyView>) -> bool {
    &&& bs.len() <= u32::MAX
    &&& forall|i: int| 0 <= i < bs.len() ==> function_body_fits(#[trigger] bs[i])
}

proof fn lemma_bodies_from(bs: Seq<FunctionBodyView>, rest: Seq<u8>, acc: Seq<FunctionBodyView>)
    requires
        bodies_fit(bs),
    ensures
        grammar::bodies_from(bodies_bytes(bs) + rest, bs.len(), acc) == read(acc + bs, rest),
    decreases bs.len(),
{
    if bs.len() == 0 {
        assert(bodies_bytes(bs) + rest =~= rest);
        assert(acc + bs =~= acc);
    } else {
        let tail = bs.drop_first();
        let after = bodies_bytes(tail) + rest;
        assert(bodies_bytes(bs) + rest =~= sized_body_bytes(bs[0]) + after);
        assert(function_body_fits(bs[0]));
        lemma_sized_body(bs[0], after);
        assert forall|i: int| 0 <= i < tail.len() implies function_body_fits(
            #[trigger] tail[i],
        ) by {
            assert(tail[i] == bs[i + 1]);
        }
        lemma_bodies_from(tail, rest, acc.push(bs[0]));
        assert(acc.push(bs[0]) + tail =~= acc + bs);
    }
}

/// The payload of a code section: the count, then the bodies.
pub open spec fn code_section_bytes(bs: Seq<FunctionBodyView>) -> Seq<u8> {
    ver_uint_bytes(bs.len() as u32) + bodies_bytes(bs)
}

proof fn lemma_code_section(bs: Seq<FunctionBodyView>)
    requires
        bodies_fit(bs),
    ensures
        grammar::code_section(code_section_bytes(bs)) == Ok::<Seq<FunctionBodyView>, DecodeError>(
            bs,
        ),
{
    lemma_ver_uint_round_trip(bs.len() as u32, bodies_bytes(bs));
    lemma_bodies_from(bs, Seq::empty(), Seq::empty());
    assert(bodies_bytes(bs) + Seq::<u8>::empty() =~= bodies_bytes(bs));
    assert(Seq::<FunctionBodyView>::empty() + bs =~= bs);
}

/// The bytes of one section: the byte of its kind, the count of the bytes of
/// its payload, the payload.
pub open spec fn section_bytes(kind: SectionType, payload: Seq<u8>) -> Seq<u8> {
    seq![kind.byte()] + ver_uint_bytes(payload.len() as u32) + payload
}

proof fn lemma_section_header(kind: SectionType, size: u32, after: Seq<u8>)
    requires
        kind != SectionType::Unsuport,
    ensures
        grammar::section_header(seq![kind.byte()] + ver_uint_bytes(size) + after) == read(
            (kind, size),
            after,
        ),
{
    let after_kind = ver_uint_bytes(size) + after;
    assert(seq![kind.byte()] + ver_uint_bytes(size) + after =~= seq![kind.byte()] + after_kind);
    lemma_byte(kind.byte(), after_kind);
    lemma_ver_uint_round_trip(size, after);
    assert(SectionType::of_byte(kind.byte()) == kind);
}

proof fn lemma_framed_section(kind: SectionType, payload: Seq<u8>, rest: Seq<u8>, x: SectionView)
    requires
        kind != SectionType::Unsuport,
        payload.len() <= u32::MAX,
        grammar::section(kind, payload) == Ok::<Option<SectionView>, DecodeError>(Some(x)),
    ensures
        grammar::framed_section(section_bytes(kind, payload) + rest) == read(Some(x), rest),
{
    let after_size = payload + rest;
    assert(section_bytes(kind, payload) + rest =~= seq![kind.byte()] + ver_uint_bytes(
        payload.len() as u32,
    ) + after_size);
    lemma_section_header(kind, payload.len() as u32, after_size);
    lemma_bytes(payload, rest);
}

proof fn lemma_section(
    kind: SectionType,
    payload: Seq<u8>,
    rest: Seq<u8>,
    m: ModuleView,
    x: SectionView,
)
    requires
        kind != SectionType::Unsuport,
        payload.len() <= u32::MAX,
        grammar::section(kind, payload) == Ok::<Option<SectionView>, DecodeError>(Some(x)),
    ensures
        grammar::sections_into(section_bytes(kind, payload) + rest, m) == grammar::sections_into(
            rest,
            m.take_in(x),
        ),
{
    lemma_framed_section(kind, payload, rest, x);
    let s = section_bytes(kind, payload) + rest;
    assert(s.len() > rest.len());
}

/// The type section of a module as bytes; nothing where it has none.
pub open spec fn type_part(m: ModuleView) -> Seq<u8> {
    match m.type_section {
        Some(x) => section_bytes(SectionType::Type, type_section_bytes(x)),
        None => Seq::empty(),
    }
}

/// The function section of a module as bytes; nothing where it has none.
pub open spec fn function_part(m: ModuleView) -> Seq<u8> {
    match m.function_section {
        Some(x) => section_bytes(SectionType::Function, function_section_bytes(x)),
        None => Seq::empty(),
    }
}

/// The export section of a module as bytes; nothing where it has none.
pub open spec fn export_part(m: ModuleView) -> Seq<u8> {
    match m.export_section {
        Some(x) => section_bytes(SectionType::Export, export_section_bytes(x)),
        None => Seq::empty(),
    }
}

/// The code section of a module as bytes; nothing where it has none.
pub open spec fn code_part(m: ModuleView) -> Seq<u8> {
    match m.code_section {
        Some(x) => section_bytes(SectionType::Code, code_section_bytes(x)),
        None => Seq::empty(),
    }
}

/// The bytes that spell a module of type, function, export and code
/// sections: the magic bytes, the version, and the sections it has, in that
/// order.
pub open spec fn module_bytes(m: ModuleView) -> Seq<u8> {
    grammar::magic() + fixed_u32_bytes(m.version) + type_part(m) + function_part(m) + export_part(
        m,
    ) + code_part(m)
}

/// The module has no sections but type, function, export and code sections,
/// and each that it has can be spelt with a payload whose length fits 32
/// bits.
pub open spec fn module_fits(m: ModuleView) -> bool {
    &&& m.custom_section is None
    &&& m.import_section is None
    &&& m.table_section is None
    &&& m.memory_section is None
    &&& m.global_section is None
    &&& m.element_section is None
    &&& m.start_section is None
    &&& m.data_section is None
    &&& m.type_section matches Some(x) ==> func_types_fit(x) && type_section_bytes(x).len()
        <= u32::MAX
    &&& m.function_section matches Some(x) ==> x.len() <= u32::MAX && function_section_bytes(
        x,
    ).len() <= u32::MAX
    &&& m.export_section matches Some(x) ==> export_entries_fit(x) && export_section_bytes(x).len()
        <= u32::MAX
    &&& m.code_section matches Some(x) ==> bodies_fit(x) && code_section_bytes(x).len() <= u32::MAX
}

proof fn lemma_type_part(m: ModuleView, rest: Seq<u8>, before: ModuleView)
    requires
        module_fits(m),
    ensures
        grammar::sections_into(type_part(m) + rest, before) == grammar::sections_into(
            rest,
            match m.type_section {
                Some(x) => ModuleView { type_section: Some(x), ..before },
                None => before,
            },
        ),
{
    match m.type_section {
        Some(x) => {
            lemma_type_section(x);
            lemma_section(SectionType::Type, type_section_bytes(x), rest, before, SectionView::Type(x));
        },
        None => {
            assert(type_part(m) + rest =~= rest);
        },
    }
}

proof fn lemma_function_part(m: ModuleView, rest: Seq<u8>, before: ModuleView)
    requires
        module_fits(m),
    ensures
        grammar::sections_into(function_part(m) + rest, before) == grammar::sections_into(
            rest,
            match m.function_section {
                Some(x) => ModuleView { function_section: Some(x), ..before },
                None => before,
            },
        ),
{
    match m.function_section {
        Some(x) => {
            lemma_function_section(x);
            lemma_section(
                SectionType::Function,
                function_section_bytes(x),
                rest,
                before,
                SectionView::Function(x),
            );
        },
        None => {
            assert(function_part(m) + rest =~= rest);
        },
    }
}

proof fn lemma_export_part(m: ModuleView, rest: Seq<u8>, before: ModuleView)
    requires
        module_fits(m),
    ensures
        grammar::sections_into(export_part(m) + rest, before) == grammar::sections_into(
            rest,
            match m.export_section {
                Some(x) => ModuleView { export_section: Some(x), ..before },
                None => before,
            },
        ),
{
    match m.export_section {
        Some(x) => {
            lemma_export_section(x);
            lemma_section(
                SectionType::Export,
                export_section_bytes(x),
                rest,
                before,
                SectionView::Export(x),
            );
        },
        None => {
            assert(export_part(m) + rest =~= rest);
        },
    }
}

proof fn lemma_code_part(m: ModuleView, rest: Seq<u8>, before: ModuleView)
    requires
        module_fits(m),
    ensures
        grammar::sections_into(code_part(m) + rest, before) == grammar::sections_into(
            rest,
            match m.code_section {
                Some(x) => ModuleView { code_section: Some(x), ..before },
                None => before,
            },
        ),
{
    match m.code_section {
        Some(x) => {
            lemma_code_section(x);
            lemma_section(SectionType::Code, code_section_bytes(x), rest, before, SectionView::Code(x));
        },
        None => {
            assert(code_part(m) + rest =~= rest);
        },
    }
}

/// The sections of a module, read into a module that has only its version,
/// make up the module.
proof fn lemma_sections(m: ModuleView)
    requires
        module_fits(m),
    ensures
        grammar::sections_into(
            type_part(m) + function_part(m) + export_part(m) + code_part(m),
            ModuleView { version: m.version, ..ModuleView::empty() },
        ) == Ok::<ModuleView, DecodeError>(m),
{
    let s4 = code_part(m) + Seq::<u8>::empty();
    let s3 = export_part(m) + s4;
    let s2 = function_part(m) + s3;
    let s1 = type_part(m) + s2;
    assert(type_part(m) + function_part(m) + export_part(m) + code_part(m) =~= s1);
    let m0 = ModuleView { version: m.version, ..ModuleView::empty() };
    let m1 = ModuleView { type_section: m.type_section, ..m0 };
    let m2 = ModuleView { function_section: m.function_section, ..m1 };
    let m3 = ModuleView { export_section: m.export_section, ..m2 };
    lemma_type_part(m, s2, m0);
    lemma_function_part(m, s3, m1);
    lemma_export_part(m, s4, m2);
    lemma_code_part(m, Seq::empty(), m3);
    assert(m == ModuleView { code_section: m.code_section, ..m3 });
}

/// Decoding the bytes that spell a module gives the module back: its
/// version, its signatures, its function indices, its exports and the
/// instructions of its bodies.
pub proof fn lemma_module_round_trip(m: ModuleView)
    requires
        module_fits(m),
    ensures
        grammar::module(module_bytes(m)) == Ok::<ModuleView, DecodeError>(m),
{
    let s = module_bytes(m);
    let sections = type_part(m) + function_part(m) + export_part(m) + code_part(m);
    let after_magic = fixed_u32_bytes(m.version) + sections;
    assert(s =~= grammar::magic() + after_magic);
    assert(s.take(4) =~= grammar::magic());
    assert(s.skip(4) =~= after_magic);
    lemma_fixed_u32(m.version, sections);
    lemma_sections(m);
}

} // verus!
