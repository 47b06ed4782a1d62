use wai::decode::DecodeError;
use wai::from_le::FromLe;
use wai::instruction::Instruction;
use wai::module::Module;
use wai::module::Section;
use wai::module::SectionType;
use wai::opcode::Opcode;
use wai::runtime::function_table::Function;
use wai::runtime::FunctionTable;
use wai::runtime::RuntimeValue;
use wai::types::BlockType;
use wai::types::CodeSection;
use wai::types::ExportEntry;
use wai::types::ExportSection;
use wai::types::ExternalKind;
use wai::types::FuncType;
use wai::types::FunctionBody;
use wai::types::FunctionSection;
use wai::types::TypeSection;
use wai::types::ValueType;
use wai::types::VerUintN;
use wai::Instance;

#[test]
fn value_types_by_byte() {
    assert_eq!(ValueType::from(0x7fu8), ValueType::I32);
    assert_eq!(ValueType::from(0x7eu8), ValueType::I64);
    assert_eq!(ValueType::from(0x7du8), ValueType::F32);
    assert_eq!(ValueType::from(0x7cu8), ValueType::F64);
    assert_eq!(ValueType::from(0x02u8), ValueType::Unknown);
    assert_eq!(ValueType::from(0x00u8), ValueType::Unknown);
    assert_eq!(ValueType::from(0x80u8), ValueType::Unknown);
    assert_eq!(ValueType::from(VerUintN(0x7f)), ValueType::I32);
    assert_eq!(ValueType::from(VerUintN(0x7c)), ValueType::F64);
    assert_eq!(ValueType::from(VerUintN(0x17f)), ValueType::Unknown);
}

#[test]
fn block_types_by_byte() {
    assert_eq!(BlockType::try_from(0x7fu8), Ok(BlockType::I32));
    assert_eq!(BlockType::try_from(0x7eu8), Ok(BlockType::I64));
    assert_eq!(BlockType::try_from(0x7du8), Ok(BlockType::F32));
    assert_eq!(BlockType::try_from(0x7cu8), Ok(BlockType::F64));
    assert_eq!(BlockType::try_from(0x40u8), Ok(BlockType::Empty));
    assert_eq!(BlockType::try_from(0x41u8), Err(DecodeError::Unexpected));
    assert_eq!(BlockType::try_from(0x00u8), Err(DecodeError::Unexpected));
    assert_eq!(BlockType::try_from(VerUintN(0x40)), Ok(BlockType::Empty));
    assert_eq!(BlockType::try_from(VerUintN(0x7f)), Ok(BlockType::I32));
    assert_eq!(BlockType::try_from(VerUintN(0x140)), Err(DecodeError::Unexpected));
}

#[test]
fn external_kinds_by_number() {
    assert_eq!(ExternalKind::from(VerUintN(0)), ExternalKind::Function);
    assert_eq!(ExternalKind::from(VerUintN(1)), ExternalKind::Table);
    assert_eq!(ExternalKind::from(VerUintN(2)), ExternalKind::Memory);
    assert_eq!(ExternalKind::from(VerUintN(3)), ExternalKind::Global);
    assert_eq!(ExternalKind::from(VerUintN(4)), ExternalKind::Unknown);
    assert_eq!(ExternalKind::from(VerUintN(256)), ExternalKind::Unknown);
}

#[test]
fn section_types_by_byte() {
    let kinds = [
        SectionType::Custom,
        SectionType::Type,
        SectionType::Import,
        SectionType::Function,
        SectionType::Table,
        SectionType::Memory,
        SectionType::Global,
        SectionType::Export,
        SectionType::Start,
        SectionType::Element,
        SectionType::Code,
        SectionType::Data,
    ];
    for (byte, kind) in kinds.iter().enumerate() {
        assert_eq!(SectionType::from(byte as u8), *kind);
    }
    assert_eq!(SectionType::from(12u8), SectionType::Unsuport);
    assert_eq!(SectionType::from(255u8), SectionType::Unsuport);
}

#[test]
fn variable_length_integers_convert() {
    assert_eq!(VerUintN::from(7u32), VerUintN(7));
    assert_eq!(VerUintN::from(-1i32), VerUintN(u32::MAX));
    assert_eq!(VerUintN::from(5usize), VerUintN(5));
    assert_eq!(u32::from(VerUintN(9)), 9);
    assert_eq!(i32::from(VerUintN(u32::MAX)), -1);
    assert_eq!(i64::from(VerUintN(u32::MAX)), 4294967295);
    assert_eq!(usize::from(VerUintN(12)), 12);
}

#[test]
fn tags_by_byte() {
    assert_eq!(Opcode::from(0x00u8), Opcode::Unexpected);
    assert_eq!(Opcode::from(0x01u8), Opcode::Nop);
    assert_eq!(Opcode::from(0x02u8), Opcode::Block);
    assert_eq!(Opcode::from(0x05u8), Opcode::Else);
    assert_eq!(Opcode::from(0x06u8), Opcode::Unexpected);
    assert_eq!(Opcode::from(0x0Bu8), Opcode::End);
    assert_eq!(Opcode::from(0x11u8), Opcode::CallIndirect);
    assert_eq!(Opcode::from(0x12u8), Opcode::Unexpected);
    assert_eq!(Opcode::from(0x1Bu8), Opcode::Select);
    assert_eq!(Opcode::from(0x20u8), Opcode::GetLocal);
    assert_eq!(Opcode::from(0x28u8), Opcode::I32Load);
    assert_eq!(Opcode::from(0x3Eu8), Opcode::I64Store32);
    assert_eq!(Opcode::from(0x40u8), Opcode::GrowMemory);
    assert_eq!(Opcode::from(0x41u8), Opcode::I32Const);
    assert_eq!(Opcode::from(0x44u8), Opcode::F64Const);
    assert_eq!(Opcode::from(0x45u8), Opcode::I32Eqz);
    assert_eq!(Opcode::from(0x6Au8), Opcode::I32Add);
    assert_eq!(Opcode::from(0x7Cu8), Opcode::I64Add);
    assert_eq!(Opcode::from(0x92u8), Opcode::F32Add);
    assert_eq!(Opcode::from(0xA0u8), Opcode::F64Add);
    assert_eq!(Opcode::from(0xBFu8), Opcode::F64ReinterpretI64);
    assert_eq!(Opcode::from(0xC0u8), Opcode::Unexpected);
    assert_eq!(Opcode::from(0xFFu8), Opcode::Unexpected);
}

#[test]
fn every_byte_up_to_the_last_tag_but_the_gaps_names_a_tag() {
    let mut known = 0;
    for byte in 0u8..=255 {
        if Opcode::from(byte) != Opcode::Unexpected {
            known += 1;
        }
    }
    assert_eq!(known, 171);
    for byte in 0x45u8..=0xBF {
        assert_ne!(Opcode::from(byte), Opcode::Unexpected);
    }
    for byte in 0x28u8..=0x44 {
        assert_ne!(Opcode::from(byte), Opcode::Unexpected);
    }
}

#[test]
fn instructions_from_tags() {
    assert_eq!(Instruction::from_opcode(Opcode::Nop), Some(Instruction::Nop));
    assert_eq!(Instruction::from_opcode(Opcode::I32Add), Some(Instruction::I32Add));
    assert_eq!(Instruction::from_opcode(Opcode::Block), None);
    assert_eq!(Instruction::from_opcode(Opcode::I32Const), None);
    assert_eq!(Instruction::from_opcode(Opcode::Unexpected), None);
    assert_eq!(
        Instruction::with_block_type(Opcode::If, BlockType::I32),
        Some(Instruction::If(BlockType::I32))
    );
    assert_eq!(Instruction::with_block_type(Opcode::Nop, BlockType::I32), None);
    assert_eq!(
        Instruction::with_index(Opcode::SetLocal, VerUintN(3)),
        Some(Instruction::SetLocal(VerUintN(3)))
    );
    assert_eq!(Instruction::with_index(Opcode::Block, VerUintN(3)), None);
    assert_eq!(
        Instruction::with_memory(Opcode::I64Load16U, 1, 8),
        Some(Instruction::I64Load16U(1, 8))
    );
    assert_eq!(Instruction::with_memory(Opcode::I32Const, 1, 8), None);
}

#[test]
fn instructions_know_their_tag() {
    assert_eq!(Instruction::Nop.opcode(), Opcode::Nop);
    assert_eq!(Instruction::If(BlockType::Empty).opcode(), Opcode::If);
    assert_eq!(Instruction::BrTable(vec![VerUintN(1)], VerUintN(0)).opcode(), Opcode::BrTable);
    assert_eq!(Instruction::I32Load(0, 4).opcode(), Opcode::I32Load);
    assert_eq!(Instruction::F64Const(0).opcode(), Opcode::F64Const);
    assert_eq!(Instruction::F64ReinterpretI64.opcode(), Opcode::F64ReinterpretI64);
}

#[test]
fn instructions_are_cloned_with_their_immediates() {
    let table = Instruction::BrTable(vec![VerUintN(1), VerUintN(2)], VerUintN(3));
    assert_eq!(table.clone(), table);
    let load = Instruction::I64Load32S(2, 100);
    assert_eq!(load.clone(), load);
    assert_eq!(Instruction::I64Const(-4).clone(), Instruction::I64Const(-4));
    assert_eq!(Instruction::Else.clone(), Instruction::Else);
    assert_ne!(Instruction::Else, Instruction::End);
}

#[test]
fn machine_words_from_eight_bytes() {
    let bytes = [0x01, 0x02, 0x03, 0x04, 0x05, 0x06, 0x07, 0x08, 0xFF];
    assert_eq!(<usize as FromLe>::from_le_bytes(&bytes), 0x0807_0605_0403_0201u64 as usize);
    assert_eq!(<usize as FromLe>::from_le_bytes(&[7, 0, 0, 0, 0, 0, 0, 0]), 7);
    assert_eq!(<usize as FromLe>::byte_width(), 8);
}

#[test]
fn values_from_bytes_low_byte_first() {
    let bytes = [0x01, 0x02, 0x03, 0x04, 0x05, 0x06, 0x07, 0xF8, 0xFF];
    assert_eq!(<u8 as FromLe>::from_le_bytes(&bytes), 0x01);
    assert_eq!(<u16 as FromLe>::from_le_bytes(&bytes), 0x0201);
    assert_eq!(<u32 as FromLe>::from_le_bytes(&bytes), 0x0403_0201);
    assert_eq!(<i32 as FromLe>::from_le_bytes(&bytes[4..]), 0xF807_0605u32 as i32);
    assert_eq!(<u64 as FromLe>::from_le_bytes(&bytes), 0xF807_0605_0403_0201);
    assert_eq!(<i64 as FromLe>::from_le_bytes(&bytes), 0xF807_0605_0403_0201u64 as i64);
    assert_eq!(<u32 as FromLe>::from_le_bytes(&bytes), u32::from_le_bytes([1, 2, 3, 4]));
    assert_eq!(<u8 as FromLe>::byte_width(), 1);
    assert_eq!(<u16 as FromLe>::byte_width(), 2);
    assert_eq!(<u32 as FromLe>::byte_width(), 4);
    assert_eq!(<i32 as FromLe>::byte_width(), 4);
    assert_eq!(<u64 as FromLe>::byte_width(), 8);
    assert_eq!(<i64 as FromLe>::byte_width(), 8);
}

#[test]
fn runtime_values_know_their_type() {
    assert_eq!(RuntimeValue::I32(0).to_type(), ValueType::I32);
    assert_eq!(RuntimeValue::I64(0).to_type(), ValueType::I64);
    assert_eq!(RuntimeValue::F32(0).to_type(), ValueType::F32);
    assert_eq!(RuntimeValue::F64(0).to_type(), ValueType::F64);
    assert_eq!(RuntimeValue::V128(0).to_type(), ValueType::Unknown);
    assert!(RuntimeValue::F32(1).is_float());
    assert!(RuntimeValue::F64(1).is_float());
    assert!(!RuntimeValue::I32(1).is_float());
    assert!(!RuntimeValue::V128(1).is_float());
}

#[test]
fn runtime_values_convert_to_integers() {
    assert_eq!(RuntimeValue::I32(-5).to_i32(), Some(-5));
    assert_eq!(RuntimeValue::I64(0x1_0000_0007).to_i32(), Some(7));
    assert_eq!(RuntimeValue::V128(u128::MAX).to_i32(), Some(-1));
    assert_eq!(RuntimeValue::F32(1).to_i32(), None);
    assert_eq!(RuntimeValue::I32(-1).to_u32(), Some(u32::MAX));
    assert_eq!(RuntimeValue::I64(-1).to_u32(), Some(u32::MAX));
    assert_eq!(RuntimeValue::V128(1 << 32).to_u32(), Some(0));
    assert_eq!(RuntimeValue::F64(1).to_u32(), None);
    assert_eq!(RuntimeValue::I32(-5).to_i64(), Some(-5));
    assert_eq!(RuntimeValue::I64(i64::MIN).to_i64(), Some(i64::MIN));
    assert_eq!(RuntimeValue::V128(u128::MAX).to_i64(), Some(-1));
    assert_eq!(RuntimeValue::F64(1).to_i64(), None);
}

#[test]
fn runtime_values_convert_from_integers_and_to_truth() {
    assert_eq!(RuntimeValue::from(5i32), RuntimeValue::I32(5));
    assert_eq!(RuntimeValue::from(5i64), RuntimeValue::I64(5));
    assert_eq!(RuntimeValue::from(200u8), RuntimeValue::I32(200));
    assert!(bool::from(RuntimeValue::I32(1)));
    assert!(bool::from(RuntimeValue::I32(-1)));
    assert!(!bool::from(RuntimeValue::I32(0)));
    assert!(!bool::from(RuntimeValue::I64(1 << 32)));
    assert!(bool::from(RuntimeValue::I64((1 << 32) + 1)));
    assert!(bool::from(RuntimeValue::F32(0x8000_0000)));
    assert!(!bool::from(RuntimeValue::F32(0)));
    assert!(!bool::from(RuntimeValue::F64(0x3FF0_0000_0000_0000)));
    assert!(bool::from(RuntimeValue::F64(1)));
    assert!(!bool::from(RuntimeValue::V128(1 << 64)));
    assert!(bool::from(RuntimeValue::V128(2)));
}

#[test]
fn default_module_is_empty() {
    let m = Module::default();
    assert_eq!(m.version, 0);
    assert!(m.custom_section.is_none());
    assert!(m.type_section.is_none());
    assert!(m.function_section.is_none());
    assert!(m.export_section.is_none());
    assert!(m.code_section.is_none());
    assert!(m.data_section.is_none());
    assert_eq!(TypeSection::default().entries, vec![]);
}

#[test]
fn take_in_puts_each_section_in_its_place() {
    let mut m = Module::default();
    m.take_in(Section::Custom(vec![0]));
    m.take_in(Section::Type(TypeSection { entries: vec![] }));
    m.take_in(Section::Import(vec![2]));
    m.take_in(Section::Function(FunctionSection { types: vec![3] }));
    m.take_in(Section::Table(vec![4]));
    m.take_in(Section::Memory(vec![5]));
    m.take_in(Section::Global(vec![6]));
    m.take_in(Section::Export(ExportSection { entries: vec![] }));
    m.take_in(Section::Start(vec![8]));
    m.take_in(Section::Element(vec![9]));
    m.take_in(Section::Code(CodeSection { bodies: vec![] }));
    m.take_in(Section::Data(vec![11]));
    assert_eq!(m.custom_section, Some(vec![0]));
    assert_eq!(m.type_section, Some(TypeSection { entries: vec![] }));
    assert_eq!(m.import_section, Some(vec![2]));
    assert_eq!(m.function_section, Some(FunctionSection { types: vec![3] }));
    assert_eq!(m.table_section, Some(vec![4]));
    assert_eq!(m.memory_section, Some(vec![5]));
    assert_eq!(m.global_section, Some(vec![6]));
    assert_eq!(m.export_section, Some(ExportSection { entries: vec![] }));
    assert_eq!(m.start_section, Some(vec![8]));
    assert_eq!(m.element_section, Some(vec![9]));
    assert_eq!(m.code_section, Some(CodeSection { bodies: vec![] }));
    assert_eq!(m.data_section, Some(vec![11]));
    m.take_in(Section::Function(FunctionSection { types: vec![1, 2] }));
    assert_eq!(m.function_section, Some(FunctionSection { types: vec![1, 2] }));
    assert_eq!(m.version, 0);
}

fn module_of(types: Vec<FuncType>, functions: Vec<u32>, bodies: Vec<Vec<Instruction>>) -> Module {
    let mut m = Module::default();
    m.type_section = Some(TypeSection { entries: types });
    m.function_section = Some(FunctionSection { types: functions });
    m.code_section = Some(CodeSection {
        bodies: bodies.into_iter().map(|code| FunctionBody { locales: vec![], code }).collect(),
    });
    m
}

fn two_types() -> Vec<FuncType> {
    vec![
        FuncType { params: vec![ValueType::I32], returns: vec![] },
        FuncType { params: vec![], returns: vec![ValueType::I64] },
    ]
}

fn check(f: &Function, params: Vec<ValueType>, returns: Vec<ValueType>, code: Vec<Instruction>) {
    assert_eq!(f.params, params);
    assert_eq!(f.returns, returns);
    assert_eq!(f.code, code);
}

#[test]
fn function_table_pairs_signatures_with_bodies() {
    let m = module_of(
        two_types(),
        vec![1, 0, 1],
        vec![vec![Instruction::Nop], vec![Instruction::Drop], vec![]],
    );
    let table = FunctionTable::from_module(&m).unwrap();
    assert_eq!(table.0.len(), 3);
    check(table.get(0).unwrap(), vec![], vec![ValueType::I64], vec![Instruction::Nop]);
    check(table.get(1).unwrap(), vec![ValueType::I32], vec![], vec![Instruction::Drop]);
    check(table.get(2).unwrap(), vec![], vec![ValueType::I64], vec![]);
    assert!(table.get(3).is_none());
}

#[test]
fn function_table_of_a_module_that_lacks_a_section_is_empty() {
    let mut m = module_of(two_types(), vec![0], vec![vec![]]);
    m.type_section = None;
    assert_eq!(FunctionTable::from_module(&m).unwrap().0.len(), 0);
    let mut m = module_of(two_types(), vec![0], vec![vec![]]);
    m.function_section = None;
    assert_eq!(FunctionTable::from_module(&m).unwrap().0.len(), 0);
    let mut m = module_of(two_types(), vec![0], vec![vec![]]);
    m.code_section = None;
    assert_eq!(FunctionTable::from_module(&m).unwrap().0.len(), 0);
    assert_eq!(FunctionTable::from_module(&Module::default()).unwrap().0.len(), 0);
    let mut m = module_of(two_types(), vec![0, 9], vec![vec![]]);
    m.code_section = None;
    assert_eq!(FunctionTable::from_module(&m).unwrap().0.len(), 0);
}

fn table_error(m: &Module) -> wai::RuntimeError {
    match FunctionTable::from_module(m) {
        Err(e) => e,
        Ok(table) => panic!("a table of {} functions", table.0.len()),
    }
}

#[test]
fn function_table_of_sections_that_do_not_fit_is_refused() {
    let m = module_of(two_types(), vec![0], vec![vec![], vec![]]);
    assert_eq!(table_error(&m), wai::RuntimeError::InconsistentModule);
    let m = module_of(two_types(), vec![0, 2], vec![vec![], vec![]]);
    assert_eq!(table_error(&m), wai::RuntimeError::InconsistentModule);
    let m = module_of(two_types(), vec![0, 1, 1], vec![vec![], vec![]]);
    assert_eq!(table_error(&m), wai::RuntimeError::InconsistentModule);
    let m = module_of(two_types(), vec![5], vec![]);
    assert_eq!(table_error(&m), wai::RuntimeError::InconsistentModule);
    let m = module_of(vec![], vec![0], vec![vec![]]);
    assert_eq!(table_error(&m), wai::RuntimeError::InconsistentModule);
    let m = module_of(
        vec![FuncType { params: vec![], returns: vec![] }],
        vec![0, 0],
        vec![vec![Instruction::Nop]],
    );
    assert_eq!(table_error(&m), wai::RuntimeError::InconsistentModule);
}

#[test]
fn function_table_of_sections_without_functions_is_empty() {
    let m = module_of(two_types(), vec![], vec![]);
    assert_eq!(FunctionTable::from_module(&m).unwrap().0.len(), 0);
    let m = module_of(vec![], vec![], vec![]);
    assert_eq!(FunctionTable::from_module(&m).unwrap().0.len(), 0);
}

#[test]
fn invoking_in_an_inconsistent_module_is_refused() {
    let mut m = module_of(
        vec![FuncType { params: vec![], returns: vec![] }],
        vec![0, 0],
        vec![vec![Instruction::I32Const(1)]],
    );
    m.export_section = Some(ExportSection {
        entries: vec![ExportEntry { field_str: "f".to_string(), kind: ExternalKind::Function, index: 0 }],
    });
    let mut instance = Instance::new(m);
    assert_eq!(instance.invoke("f", vec![]), Err(wai::RuntimeError::InconsistentModule));
    assert_eq!(
        instance.invoke("g", vec![]),
        Err(wai::RuntimeError::NotFound("g".to_string()))
    );
    assert_eq!(instance.memory.0, vec![]);
}

#[test]
fn function_keeps_what_it_is_made_of() {
    let f = Function::new(vec![ValueType::F32], vec![ValueType::F64], vec![Instruction::End]);
    check(&f, vec![ValueType::F32], vec![ValueType::F64], vec![Instruction::End]);
}

fn exporting(entries: Vec<(&str, u32)>) -> Instance {
    let mut m = module_of(
        vec![FuncType { params: vec![], returns: vec![ValueType::I32] }],
        vec![0, 0],
        vec![vec![Instruction::I32Const(10)], vec![Instruction::I32Const(20)]],
    );
    m.export_section = Some(ExportSection {
        entries: entries
            .into_iter()
            .map(|(name, index)| ExportEntry {
                field_str: name.to_string(),
                kind: ExternalKind::Function,
                index,
            })
            .collect(),
    });
    Instance::new(m)
}

#[test]
fn the_first_export_of_a_name_wins() {
    let mut instance = exporting(vec![("a", 1), ("b", 0), ("a", 0)]);
    assert_eq!(instance.resolve_function_name("a"), Some(1));
    assert_eq!(instance.resolve_function_name("b"), Some(0));
    assert_eq!(instance.resolve_function_name("c"), None);
    assert_eq!(instance.resolve_function_name(""), None);
    assert_eq!(instance.invoke("a", vec![]).unwrap(), vec![RuntimeValue::I32(20)]);
    assert_eq!(instance.invoke("b", vec![]).unwrap(), vec![RuntimeValue::I32(10)]);
}

#[test]
fn a_module_without_exports_resolves_nothing() {
    let mut instance = exporting(vec![]);
    assert_eq!(instance.resolve_function_name("a"), None);
    let mut m = Module::default();
    m.export_section = None;
    assert_eq!(Instance::new(m).resolve_function_name("a"), None);
    assert!(Instance::new(Module::default()).invoke("a", vec![]).is_err());
}

#[test]
fn an_export_of_a_function_that_is_not_there_is_not_found() {
    let mut instance = exporting(vec![("far", 2)]);
    match instance.invoke("far", vec![]) {
        Err(wai::RuntimeError::NotFound(name)) => assert_eq!(name, "far"),
        other => panic!("unexpected {:?}", other),
    }
    let mut m = Module::default();
    m.export_section = Some(ExportSection {
        entries: vec![ExportEntry { field_str: "f".to_string(), kind: ExternalKind::Function, index: 0 }],
    });
    match Instance::new(m).invoke("f", vec![]) {
        Err(wai::RuntimeError::NotFound(name)) => assert_eq!(name, "f"),
        other => panic!("unexpected {:?}", other),
    }
}

#[test]
fn every_invocation_starts_afresh() {
    let mut instance = exporting(vec![("a", 0)]);
    assert_eq!(instance.invoke("a", vec![]).unwrap(), vec![RuntimeValue::I32(10)]);
    assert_eq!(instance.invoke("a", vec![]).unwrap(), vec![RuntimeValue::I32(10)]);
}

#[test]
fn validate_of_an_instance() {
    assert!(Instance::validate(&[ValueType::I32], &[RuntimeValue::I32(1)]).is_ok());
    match Instance::validate(&[ValueType::I32], &[RuntimeValue::I64(1), RuntimeValue::F32(0)]) {
        Err(wai::RuntimeError::InvalidArgs(expect, actual)) => {
            assert_eq!(expect, vec![ValueType::I32]);
            assert_eq!(actual, vec![ValueType::I64, ValueType::F32]);
        }
        other => panic!("unexpected {:?}", other),
    }
}
