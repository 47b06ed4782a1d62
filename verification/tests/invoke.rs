use wai::runtime::RuntimeError;
use wai::runtime::RuntimeValue;
use wai::Instance;
use wai::Module;

fn section(kind: u8, payload: &[u8]) -> Vec<u8> {
    assert!(payload.len() < 128);
    let mut out = vec![kind, payload.len() as u8];
    out.extend_from_slice(payload);
    out
}

fn module_bytes(types: &[u8], body: &[u8], name: &str) -> Vec<u8> {
    let mut bytes = vec![0x00, 0x61, 0x73, 0x6d, 0x01, 0x00, 0x00, 0x00];
    bytes.extend(section(1, types));
    bytes.extend(section(3, &[0x01, 0x00]));
    let mut export = vec![0x01, name.len() as u8];
    export.extend_from_slice(name.as_bytes());
    export.extend_from_slice(&[0x00, 0x00]);
    bytes.extend(section(7, &export));
    let mut code = vec![0x01, body.len() as u8];
    code.extend_from_slice(body);
    bytes.extend(section(10, &code));
    bytes
}

fn add_module() -> Module {
    let types = [0x01, 0x60, 0x02, 0x7f, 0x7f, 0x01, 0x7f];
    let body = [0x00, 0x20, 0x00, 0x20, 0x01, 0x6A, 0x0B];
    Module::from_byte(&module_bytes(&types, &body, "add")).unwrap()
}

fn branch_module() -> Module {
    let types = [0x01, 0x60, 0x01, 0x7f, 0x01, 0x7f];
    let body = [
        0x00, 0x20, 0x00, 0x41, 0x00, 0x00, 0x00, 0x00, 0x46, 0x04, 0x40, 0x41, 0x01, 0x00, 0x00,
        0x00, 0x05, 0x41, 0x02, 0x00, 0x00, 0x00, 0x0B,
    ];
    Module::from_byte(&module_bytes(&types, &body, "pick")).unwrap()
}

#[test]
fn add_two_and_three_is_five() {
    let mut instance = Instance::new(add_module());
    let values = instance
        .invoke("add", vec![RuntimeValue::I32(2), RuntimeValue::I32(3)])
        .unwrap();
    assert_eq!(values, vec![RuntimeValue::I32(5)]);
}

#[test]
fn add_wraps_at_32_bits() {
    let mut instance = Instance::new(add_module());
    let values = instance
        .invoke("add", vec![RuntimeValue::I32(i32::MAX), RuntimeValue::I32(1)])
        .unwrap();
    assert_eq!(values, vec![RuntimeValue::I32(i32::MIN)]);
}

#[test]
fn condition_true_takes_first_branch() {
    let mut instance = Instance::new(branch_module());
    let values = instance.invoke("pick", vec![RuntimeValue::I32(0)]).unwrap();
    assert_eq!(values, vec![RuntimeValue::I32(1)]);
}

#[test]
fn condition_false_takes_second_branch() {
    let mut instance = Instance::new(branch_module());
    let values = instance.invoke("pick", vec![RuntimeValue::I32(7)]).unwrap();
    assert_eq!(values, vec![RuntimeValue::I32(2)]);
}

#[test]
fn unknown_export_is_not_found() {
    let mut instance = Instance::new(add_module());
    let result = instance.invoke("sub", vec![RuntimeValue::I32(2), RuntimeValue::I32(3)]);
    match result {
        Err(RuntimeError::NotFound(name)) => assert_eq!(name, "sub"),
        other => panic!("unexpected result {:?}", other),
    }
}

#[test]
fn wrong_argument_types_are_refused() {
    let mut instance = Instance::new(add_module());
    let result = instance.invoke("add", vec![RuntimeValue::I32(2), RuntimeValue::I64(3)]);
    match result {
        Err(RuntimeError::InvalidArgs(expect, actual)) => {
            assert_eq!(expect, vec![wai::types::ValueType::I32, wai::types::ValueType::I32]);
            assert_eq!(actual, vec![wai::types::ValueType::I32, wai::types::ValueType::I64]);
        }
        other => panic!("unexpected result {:?}", other),
    }
}

fn memory_module() -> Module {
    let types = [0x01, 0x60, 0x01, 0x7f, 0x01, 0x7f];
    let body = [0x00, 0x20, 0x00, 0x28, 0x02, 0x04];
    Module::from_byte(&module_bytes(&types, &body, "peek")).unwrap()
}

#[test]
fn a_load_behind_the_end_reads_zero_and_grows_the_memory() {
    let mut instance = Instance::new(memory_module());
    assert_eq!(instance.memory.0, vec![]);
    let values = instance.invoke("peek", vec![RuntimeValue::I32(96)]).unwrap();
    assert_eq!(values, vec![RuntimeValue::I32(0)]);
    assert_eq!(instance.memory.0.len(), 128);
    assert!(instance.memory.0.iter().all(|b| *b == 0));
}

#[test]
fn the_memory_outlives_an_invocation() {
    let mut instance = Instance::new(memory_module());
    instance.invoke("peek", vec![RuntimeValue::I32(0)]).unwrap();
    assert_eq!(instance.memory.0.len(), 8);
    instance.invoke("peek", vec![RuntimeValue::I32(1)]).unwrap();
    assert_eq!(instance.memory.0.len(), 16);
    instance.invoke("peek", vec![RuntimeValue::I32(0)]).unwrap();
    assert_eq!(instance.memory.0.len(), 16);
}

#[test]
fn a_refused_invocation_does_not_touch_the_memory() {
    let mut instance = Instance::new(memory_module());
    instance.invoke("peek", vec![RuntimeValue::I32(0)]).unwrap();
    assert!(instance.invoke("poke", vec![RuntimeValue::I32(500)]).is_err());
    assert!(instance.invoke("peek", vec![RuntimeValue::I64(500)]).is_err());
    assert!(instance.invoke("peek", vec![]).is_err());
    assert_eq!(instance.memory.0.len(), 8);
}

#[test]
fn the_memory_is_kept_when_a_run_fails() {
    let types = [0x01, 0x60, 0x01, 0x7f, 0x00];
    let body = [0x00, 0x20, 0x00, 0x28, 0x02, 0x00, 0x0C, 0x00];
    let mut instance = Instance::new(Module::from_byte(&module_bytes(&types, &body, "f")).unwrap());
    let result = instance.invoke("f", vec![RuntimeValue::I32(28)]);
    assert!(matches!(result, Err(RuntimeError::Unimplemented)));
    assert_eq!(instance.memory.0.len(), 32);
}
