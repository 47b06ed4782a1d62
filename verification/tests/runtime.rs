use wai::instruction::Instruction;
use wai::opcode::Opcode;
use wai::runtime::activation_stack::Activation;
use wai::runtime::activation_stack::ActivationStack;
use wai::runtime::function_table::Function;
use wai::runtime::label_stack::Label;
use wai::runtime::label_stack::LabelType;
use wai::runtime::numeric::apply_integer;
use wai::runtime::numeric::NumericOp;
use wai::runtime::validate;
use wai::runtime::FunctionTable;
use wai::runtime::Memory;
use wai::runtime::Runtime;
use wai::runtime::RuntimeError;
use wai::runtime::RuntimeValue;
use wai::runtime::Step;
use wai::types::BlockType;
use wai::types::ValueType;
use wai::types::VerUintN;

fn runtime_of(params: Vec<ValueType>, code: Vec<Instruction>, memory: Vec<u8>) -> Runtime {
    let table = FunctionTable(vec![Function::new(params, vec![], code)]);
    Runtime::new(table, Memory::new(memory))
}

fn run(code: Vec<Instruction>, args: Vec<RuntimeValue>) -> Result<Vec<RuntimeValue>, RuntimeError> {
    let params = args.iter().map(|v| v.to_type()).collect();
    runtime_of(params, code, vec![]).execute(0, &args)
}

fn binary(op: Instruction, top: RuntimeValue, below: RuntimeValue) -> Result<Vec<RuntimeValue>, RuntimeError> {
    run(
        vec![Instruction::GetLocal(VerUintN(0)), Instruction::GetLocal(VerUintN(1)), op],
        vec![below, top],
    )
}

fn i32s(op: Instruction, top: i32, below: i32) -> RuntimeValue {
    let values = binary(op, RuntimeValue::I32(top), RuntimeValue::I32(below)).unwrap();
    assert_eq!(values.len(), 1);
    values[0]
}

fn i64s(op: Instruction, top: i64, below: i64) -> RuntimeValue {
    let values = binary(op, RuntimeValue::I64(top), RuntimeValue::I64(below)).unwrap();
    assert_eq!(values.len(), 1);
    values[0]
}

fn kind_of(e: &RuntimeError) -> &'static str {
    match e {
        RuntimeError::NotFound(_) => "NotFound",
        RuntimeError::ExpectCodeSection => "ExpectCodeSection",
        RuntimeError::ExpectValueStack => "ExpectValueStack",
        RuntimeError::ExpectLabelStack => "ExpectLabelStack",
        RuntimeError::ExpectActivationStack => "ExpectActivationStack",
        RuntimeError::Unimplemented => "Unimplemented",
        RuntimeError::InvalidArgs(_, _) => "InvalidArgs",
        RuntimeError::DivisionByZero => "DivisionByZero",
        RuntimeError::MemoryOutOfBounds => "MemoryOutOfBounds",
        RuntimeError::InconsistentModule => "InconsistentModule",
        RuntimeError::Custom(_) => "Custom",
    }
}

fn fault(r: Result<Vec<RuntimeValue>, RuntimeError>) -> &'static str {
    match r {
        Ok(v) => panic!("ran to {:?}", v),
        Err(e) => kind_of(&e),
    }
}

#[test]
fn function_without_instructions_returns_the_stack_as_it_is() {
    assert_eq!(run(vec![], vec![]).unwrap(), vec![]);
    assert_eq!(run(vec![], vec![RuntimeValue::I32(1)]).unwrap(), vec![]);
}

#[test]
fn constants_are_pushed_in_order() {
    let values = run(
        vec![
            Instruction::I32Const(-5),
            Instruction::I64Const(1 << 40),
            Instruction::F32Const(0x3F80_0000),
            Instruction::F64Const(0x4000_0000_0000_0000),
        ],
        vec![],
    )
    .unwrap();
    assert_eq!(
        values,
        vec![
            RuntimeValue::I32(-5),
            RuntimeValue::I64(1 << 40),
            RuntimeValue::F32(0x3F80_0000),
            RuntimeValue::F64(0x4000_0000_0000_0000),
        ]
    );
}

#[test]
fn addition_and_multiplication_wrap() {
    assert_eq!(i32s(Instruction::I32Add, 2, 3), RuntimeValue::I32(5));
    assert_eq!(i32s(Instruction::I32Add, i32::MAX, 1), RuntimeValue::I32(i32::MIN));
    assert_eq!(i32s(Instruction::I32Mul, 0x10000, 0x10000), RuntimeValue::I32(0));
    assert_eq!(i32s(Instruction::I32Mul, -3, 7), RuntimeValue::I32(-21));
    assert_eq!(i64s(Instruction::I64Add, i64::MAX, 1), RuntimeValue::I64(i64::MIN));
    assert_eq!(i64s(Instruction::I64Mul, 1 << 32, 1 << 32), RuntimeValue::I64(0));
    assert_eq!(i64s(Instruction::I64Add, 1 << 40, 1), RuntimeValue::I64((1 << 40) + 1));
}

#[test]
fn subtraction_takes_the_lower_operand_from_the_upper() {
    assert_eq!(i32s(Instruction::I32Sub, 3, 5), RuntimeValue::I32(-2));
    assert_eq!(i32s(Instruction::I32Sub, i32::MIN, 1), RuntimeValue::I32(i32::MAX));
    assert_eq!(i64s(Instruction::I64Sub, 10, 4), RuntimeValue::I64(6));
}

#[test]
fn signed_division_rounds_toward_zero() {
    assert_eq!(i32s(Instruction::I32DivS, -7, 2), RuntimeValue::I32(-3));
    assert_eq!(i32s(Instruction::I32DivS, 7, -2), RuntimeValue::I32(-3));
    assert_eq!(i32s(Instruction::I32DivS, -7, -2), RuntimeValue::I32(3));
    assert_eq!(i32s(Instruction::I32DivS, 7, 2), RuntimeValue::I32(3));
    assert_eq!(i32s(Instruction::I32DivS, 0, 5), RuntimeValue::I32(0));
    assert_eq!(i32s(Instruction::I32DivS, i32::MIN, -1), RuntimeValue::I32(i32::MIN));
    assert_eq!(i64s(Instruction::I64DivS, -9, 4), RuntimeValue::I64(-2));
    assert_eq!(i64s(Instruction::I64DivS, i64::MIN, -1), RuntimeValue::I64(i64::MIN));
}

#[test]
fn signed_remainder_has_the_sign_of_the_dividend() {
    assert_eq!(i32s(Instruction::I32RemS, -7, 2), RuntimeValue::I32(-1));
    assert_eq!(i32s(Instruction::I32RemS, 7, -2), RuntimeValue::I32(1));
    assert_eq!(i32s(Instruction::I32RemS, -7, -2), RuntimeValue::I32(-1));
    assert_eq!(i32s(Instruction::I32RemS, i32::MIN, -1), RuntimeValue::I32(0));
    assert_eq!(i64s(Instruction::I64RemS, -9, 4), RuntimeValue::I64(-1));
    assert_eq!(i64s(Instruction::I64RemS, i64::MIN, -1), RuntimeValue::I64(0));
}

#[test]
fn unsigned_division_and_remainder_read_the_bits_as_unsigned() {
    assert_eq!(i32s(Instruction::I32DivU, -1, 2), RuntimeValue::I32(i32::MAX));
    assert_eq!(i32s(Instruction::I32RemU, -1, 10), RuntimeValue::I32(5));
    assert_eq!(i32s(Instruction::I32DivU, 7, -1), RuntimeValue::I32(0));
    assert_eq!(i64s(Instruction::I64DivU, -1, 2), RuntimeValue::I64(i64::MAX));
    assert_eq!(i64s(Instruction::I64RemU, -1, 10), RuntimeValue::I64(5));
}

#[test]
fn division_by_zero_is_an_error() {
    for op in [Instruction::I32DivS, Instruction::I32DivU, Instruction::I32RemS, Instruction::I32RemU] {
        assert_eq!(
            fault(binary(op, RuntimeValue::I32(5), RuntimeValue::I32(0))),
            "DivisionByZero"
        );
    }
    for op in [Instruction::I64DivS, Instruction::I64DivU, Instruction::I64RemS, Instruction::I64RemU] {
        assert_eq!(
            fault(binary(op, RuntimeValue::I64(5), RuntimeValue::I64(0))),
            "DivisionByZero"
        );
    }
}

#[test]
fn bitwise_operations() {
    assert_eq!(i32s(Instruction::I32And, 0b1100, 0b1010), RuntimeValue::I32(0b1000));
    assert_eq!(i32s(Instruction::I32Or, 0b1100, 0b1010), RuntimeValue::I32(0b1110));
    assert_eq!(i32s(Instruction::I32Xor, 0b1100, 0b1010), RuntimeValue::I32(0b0110));
    assert_eq!(i64s(Instruction::I64And, -1, 1 << 50), RuntimeValue::I64(1 << 50));
    assert_eq!(i64s(Instruction::I64Or, 1, 2), RuntimeValue::I64(3));
    assert_eq!(i64s(Instruction::I64Xor, -1, -1), RuntimeValue::I64(0));
}

#[test]
fn comparisons_give_one_or_zero_of_32_bits() {
    assert_eq!(i32s(Instruction::I32Eq, 4, 4), RuntimeValue::I32(1));
    assert_eq!(i32s(Instruction::I32Eq, 4, 5), RuntimeValue::I32(0));
    assert_eq!(i32s(Instruction::I32Ne, 4, 5), RuntimeValue::I32(1));
    assert_eq!(i32s(Instruction::I32LtS, -1, 1), RuntimeValue::I32(1));
    assert_eq!(i32s(Instruction::I32LtU, -1, 1), RuntimeValue::I32(0));
    assert_eq!(i32s(Instruction::I32GtS, -1, 1), RuntimeValue::I32(0));
    assert_eq!(i32s(Instruction::I32GtU, -1, 1), RuntimeValue::I32(1));
    assert_eq!(i32s(Instruction::I32LeS, 1, 1), RuntimeValue::I32(1));
    assert_eq!(i32s(Instruction::I32LeU, -1, 1), RuntimeValue::I32(0));
    assert_eq!(i32s(Instruction::I32GeS, -1, 1), RuntimeValue::I32(0));
    assert_eq!(i32s(Instruction::I32GeU, -1, 1), RuntimeValue::I32(1));
    assert_eq!(i64s(Instruction::I64Eq, 1 << 40, 1 << 40), RuntimeValue::I32(1));
    assert_eq!(i64s(Instruction::I64Ne, 1 << 40, 1 << 40), RuntimeValue::I32(0));
    assert_eq!(i64s(Instruction::I64LtS, -1, 1), RuntimeValue::I32(1));
    assert_eq!(i64s(Instruction::I64LtU, -1, 1), RuntimeValue::I32(0));
    assert_eq!(i64s(Instruction::I64GtS, 2, 1), RuntimeValue::I32(1));
    assert_eq!(i64s(Instruction::I64GtU, -1, 1), RuntimeValue::I32(1));
    assert_eq!(i64s(Instruction::I64LeS, 2, 1), RuntimeValue::I32(0));
    assert_eq!(i64s(Instruction::I64LeU, 1, -1), RuntimeValue::I32(1));
    assert_eq!(i64s(Instruction::I64GeS, 1, 1), RuntimeValue::I32(1));
    assert_eq!(i64s(Instruction::I64GeU, 1, -1), RuntimeValue::I32(0));
}

#[test]
fn operands_are_brought_to_the_width_of_the_operation() {
    let values = binary(Instruction::I32Add, RuntimeValue::I64(0x1_0000_0005), RuntimeValue::I32(1)).unwrap();
    assert_eq!(values, vec![RuntimeValue::I32(6)]);
    let values = binary(Instruction::I64Add, RuntimeValue::I32(-1), RuntimeValue::I64(1)).unwrap();
    assert_eq!(values, vec![RuntimeValue::I64(0)]);
    let mut runtime = runtime_of(vec![], vec![Instruction::I32Add], vec![]);
    runtime.enter(0, &[]).unwrap();
    runtime.vpush(RuntimeValue::I32(1));
    runtime.vpush(RuntimeValue::V128((1 << 100) + 7));
    assert_eq!(runtime.step().unwrap(), Step::Continue);
    assert_eq!(runtime.value_stack, vec![RuntimeValue::I32(8)]);
}

#[test]
fn apply_integer_on_plain_values() {
    let v = apply_integer(ValueType::I32, NumericOp::Add, RuntimeValue::I32(2), RuntimeValue::I32(3)).unwrap();
    assert_eq!(v, RuntimeValue::I32(5));
    let v = apply_integer(ValueType::I64, NumericOp::Sub, RuntimeValue::I64(2), RuntimeValue::I64(3)).unwrap();
    assert_eq!(v, RuntimeValue::I64(-1));
    let e = apply_integer(ValueType::F32, NumericOp::Add, RuntimeValue::I32(2), RuntimeValue::I32(3)).unwrap_err();
    assert_eq!(kind_of(&e), "Unimplemented");
    let e = apply_integer(ValueType::I32, NumericOp::Add, RuntimeValue::F32(0), RuntimeValue::I32(3)).unwrap_err();
    assert_eq!(kind_of(&e), "Unimplemented");
    let e = apply_integer(ValueType::Unknown, NumericOp::Add, RuntimeValue::I32(2), RuntimeValue::I32(3)).unwrap_err();
    assert_eq!(kind_of(&e), "Unimplemented");
    let e = apply_integer(ValueType::I64, NumericOp::Rem, RuntimeValue::I64(2), RuntimeValue::I64(0)).unwrap_err();
    assert_eq!(kind_of(&e), "DivisionByZero");
}

#[test]
fn numeric_tags_are_told_apart() {
    assert_eq!(Opcode::I32Add.numeric(), Some((ValueType::I32, NumericOp::Add)));
    assert_eq!(Opcode::I32LtS.numeric(), Some((ValueType::I32, NumericOp::Lt)));
    assert_eq!(Opcode::I32LtU.numeric(), Some((ValueType::I32, NumericOp::LtU)));
    assert_eq!(Opcode::I64DivS.numeric(), Some((ValueType::I64, NumericOp::Div)));
    assert_eq!(Opcode::I64RemU.numeric(), Some((ValueType::I64, NumericOp::RemU)));
    assert_eq!(Opcode::F32Lt.numeric(), Some((ValueType::F32, NumericOp::Lt)));
    assert_eq!(Opcode::F64Div.numeric(), Some((ValueType::F64, NumericOp::Div)));
    assert_eq!(Opcode::I32Eqz.numeric(), None);
    assert_eq!(Opcode::I32Shl.numeric(), None);
    assert_eq!(Opcode::Nop.numeric(), None);
}

#[test]
fn too_few_operands_are_an_error() {
    assert_eq!(fault(run(vec![Instruction::I32Add], vec![])), "ExpectValueStack");
    assert_eq!(
        fault(run(vec![Instruction::I32Const(1), Instruction::I32Add], vec![])),
        "ExpectValueStack"
    );
    assert_eq!(fault(run(vec![Instruction::Drop], vec![])), "ExpectValueStack");
    assert_eq!(fault(run(vec![Instruction::If(BlockType::Empty)], vec![])), "ExpectValueStack");
    assert_eq!(fault(run(vec![Instruction::SetLocal(VerUintN(0))], vec![])), "ExpectValueStack");
    assert_eq!(fault(run(vec![Instruction::I32Eqz], vec![])), "ExpectValueStack");
    assert_eq!(fault(run(vec![Instruction::I64Eqz], vec![])), "ExpectValueStack");
    assert_eq!(fault(run(vec![Instruction::I32Load(0, 0)], vec![])), "ExpectValueStack");
    assert_eq!(
        fault(run(vec![Instruction::I32Const(1), Instruction::I32Const(1), Instruction::Select], vec![])),
        "ExpectValueStack"
    );
}

#[test]
fn a_failed_instruction_leaves_the_stack_alone() {
    let mut runtime = runtime_of(
        vec![],
        vec![Instruction::I32Const(0), Instruction::I32Const(9), Instruction::I32DivS],
        vec![],
    );
    let e = runtime.execute(0, &[]).unwrap_err();
    assert_eq!(kind_of(&e), "DivisionByZero");
    assert_eq!(runtime.value_stack, vec![RuntimeValue::I32(0), RuntimeValue::I32(9)]);
    assert_eq!(runtime.activation_stack.pc().unwrap(), 3);
}

#[test]
fn instructions_that_are_not_carried_out() {
    for i in [
        Instruction::Br(VerUintN(0)),
        Instruction::BrIf(VerUintN(0)),
        Instruction::BrTable(vec![], VerUintN(0)),
        Instruction::Return,
        Instruction::CallIndirect(VerUintN(0), VerUintN(0)),
        Instruction::TeeLocal(VerUintN(0)),
        Instruction::GetGlobal(VerUintN(0)),
        Instruction::SetGlobal(VerUintN(0)),
        Instruction::I32Store(0, 0),
        Instruction::CurrentMemory(VerUintN(0)),
        Instruction::GrowMemory(VerUintN(0)),
        Instruction::I32Clz,
        Instruction::I32Shl,
        Instruction::I64Rotr,
        Instruction::F32Sqrt,
        Instruction::F64Neg,
        Instruction::I32WrapI64,
        Instruction::F64ReinterpretI64,
    ] {
        assert_eq!(fault(run(vec![Instruction::I32Const(1), i], vec![])), "Unimplemented");
    }
}

#[test]
fn nop_end_and_call_change_nothing() {
    let values = run(
        vec![
            Instruction::I32Const(1),
            Instruction::Nop,
            Instruction::End,
            Instruction::Call(VerUintN(3)),
        ],
        vec![],
    )
    .unwrap();
    assert_eq!(values, vec![RuntimeValue::I32(1)]);
}

#[test]
fn floating_point_arithmetic_ends_the_run() {
    let r = binary(Instruction::F32Add, RuntimeValue::F32(0x3F80_0000), RuntimeValue::F32(0x4000_0000));
    assert_eq!(fault(r), "Unimplemented");
    let r = binary(Instruction::F64Lt, RuntimeValue::F64(0), RuntimeValue::F64(0));
    assert_eq!(fault(r), "Unimplemented");
    let r = binary(Instruction::I32Add, RuntimeValue::F32(0), RuntimeValue::I32(1));
    assert_eq!(fault(r), "Unimplemented");
}

#[test]
fn step_hands_floating_point_arithmetic_out() {
    let mut runtime = runtime_of(
        vec![],
        vec![
            Instruction::F32Const(0x3F80_0000),
            Instruction::F32Const(0x4000_0000),
            Instruction::F32Add,
            Instruction::I32Const(4),
        ],
        vec![],
    );
    runtime.enter(0, &[]).unwrap();
    assert_eq!(runtime.step().unwrap(), Step::Continue);
    assert_eq!(runtime.step().unwrap(), Step::Continue);
    assert_eq!(
        runtime.step().unwrap(),
        Step::Defer(
            ValueType::F32,
            NumericOp::Add,
            RuntimeValue::F32(0x4000_0000),
            RuntimeValue::F32(0x3F80_0000)
        )
    );
    assert_eq!(runtime.value_stack, vec![]);
    runtime.vpush(RuntimeValue::F32((1.0f32 + 2.0f32).to_bits()));
    assert_eq!(runtime.step().unwrap(), Step::Continue);
    assert_eq!(runtime.step().unwrap(), Step::Halt);
    assert_eq!(runtime.step().unwrap(), Step::Halt);
    assert_eq!(
        runtime.value_stack,
        vec![RuntimeValue::F32(0x4040_0000), RuntimeValue::I32(4)]
    );
}

#[test]
fn step_hands_out_integer_arithmetic_on_a_floating_point_operand() {
    let mut runtime = runtime_of(
        vec![],
        vec![Instruction::I64Const(1), Instruction::F64Const(7), Instruction::I64Mul],
        vec![],
    );
    runtime.enter(0, &[]).unwrap();
    runtime.step().unwrap();
    runtime.step().unwrap();
    assert_eq!(
        runtime.step().unwrap(),
        Step::Defer(ValueType::I64, NumericOp::Mul, RuntimeValue::F64(7), RuntimeValue::I64(1))
    );
}

#[test]
fn step_without_a_frame_is_an_error() {
    let mut runtime = runtime_of(vec![], vec![Instruction::Nop], vec![]);
    let e = runtime.step().unwrap_err();
    assert_eq!(kind_of(&e), "ExpectActivationStack");
}

#[test]
fn step_in_a_function_that_is_not_there_is_an_error() {
    let mut runtime = runtime_of(vec![], vec![Instruction::Nop], vec![]);
    runtime.activation_stack = ActivationStack::init(3, vec![]);
    match runtime.step() {
        Err(RuntimeError::NotFound(what)) => assert_eq!(what, "function"),
        other => panic!("unexpected {:?}", other),
    }
}

#[test]
fn step_moves_the_program_counter_first() {
    let mut runtime = runtime_of(vec![], vec![Instruction::Nop, Instruction::Drop], vec![]);
    runtime.enter(0, &[]).unwrap();
    assert_eq!(runtime.activation_stack.pc().unwrap(), 0);
    assert_eq!(runtime.step().unwrap(), Step::Continue);
    assert_eq!(runtime.activation_stack.pc().unwrap(), 1);
    assert!(runtime.step().is_err());
    assert_eq!(runtime.activation_stack.pc().unwrap(), 2);
    assert_eq!(runtime.step().unwrap(), Step::Halt);
    assert_eq!(runtime.activation_stack.pc().unwrap(), 2);
}

#[test]
fn execute_of_a_function_that_is_not_there_is_not_found() {
    let mut runtime = runtime_of(vec![], vec![Instruction::I32Const(1)], vec![]);
    match runtime.execute(1, &[]) {
        Err(RuntimeError::NotFound(what)) => assert_eq!(what, "function"),
        other => panic!("unexpected {:?}", other),
    }
    assert_eq!(runtime.value_stack, vec![]);
}

#[test]
fn execute_refuses_arguments_of_other_types_and_runs_nothing() {
    let mut runtime = runtime_of(
        vec![ValueType::I32, ValueType::I64],
        vec![Instruction::I32Const(1)],
        vec![],
    );
    for args in [
        vec![],
        vec![RuntimeValue::I32(1)],
        vec![RuntimeValue::I64(1), RuntimeValue::I32(1)],
        vec![RuntimeValue::I32(1), RuntimeValue::I64(1), RuntimeValue::I32(1)],
        vec![RuntimeValue::I32(1), RuntimeValue::F64(1)],
    ] {
        match runtime.execute(0, &args) {
            Err(RuntimeError::InvalidArgs(expect, actual)) => {
                assert_eq!(expect, vec![ValueType::I32, ValueType::I64]);
                let types: Vec<ValueType> = args.iter().map(|v| v.to_type()).collect();
                assert_eq!(actual, types);
            }
            other => panic!("unexpected {:?}", other),
        }
        assert_eq!(runtime.value_stack, vec![]);
        assert!(runtime.activation_stack.last().is_none());
    }
    let values = runtime.execute(0, &[RuntimeValue::I32(1), RuntimeValue::I64(1)]).unwrap();
    assert_eq!(values, vec![RuntimeValue::I32(1)]);
}

#[test]
fn validate_compares_types_one_for_one() {
    assert!(validate(&[], &[]).is_ok());
    assert!(validate(&[ValueType::F32], &[RuntimeValue::F32(0)]).is_ok());
    assert!(validate(&[ValueType::I32], &[RuntimeValue::I64(0)]).is_err());
    assert!(validate(&[ValueType::I32], &[]).is_err());
    assert!(validate(&[], &[RuntimeValue::I32(0)]).is_err());
    assert!(validate(&[ValueType::Unknown], &[RuntimeValue::V128(0)]).is_err());
    assert!(validate(&[ValueType::I32, ValueType::Unknown], &[RuntimeValue::I32(0), RuntimeValue::V128(0)]).is_err());
}

#[test]
fn the_value_stack_outlives_a_run() {
    let mut runtime = runtime_of(vec![], vec![Instruction::I32Const(1)], vec![]);
    assert_eq!(runtime.execute(0, &[]).unwrap(), vec![RuntimeValue::I32(1)]);
    assert_eq!(
        runtime.execute(0, &[]).unwrap(),
        vec![RuntimeValue::I32(1), RuntimeValue::I32(1)]
    );
}

#[test]
fn locals_are_read_and_written() {
    let values = run(
        vec![
            Instruction::GetLocal(VerUintN(1)),
            Instruction::SetLocal(VerUintN(5)),
            Instruction::GetLocal(VerUintN(5)),
            Instruction::GetLocal(VerUintN(0)),
            Instruction::I32Const(9),
            Instruction::SetLocal(VerUintN(0)),
            Instruction::GetLocal(VerUintN(0)),
        ],
        vec![RuntimeValue::I32(10), RuntimeValue::I64(20)],
    )
    .unwrap();
    assert_eq!(
        values,
        vec![RuntimeValue::I64(20), RuntimeValue::I32(10), RuntimeValue::I32(9)]
    );
}

#[test]
fn a_local_that_was_never_set_is_not_found() {
    match run(vec![Instruction::GetLocal(VerUintN(2))], vec![RuntimeValue::I32(1)]) {
        Err(RuntimeError::NotFound(what)) => assert_eq!(what, "local"),
        other => panic!("unexpected {:?}", other),
    }
}

#[test]
fn drop_and_select() {
    let values = run(
        vec![Instruction::I32Const(1), Instruction::I32Const(2), Instruction::Drop],
        vec![],
    )
    .unwrap();
    assert_eq!(values, vec![RuntimeValue::I32(1)]);
    let pick = |condition: i32| {
        run(
            vec![
                Instruction::I32Const(7),
                Instruction::I32Const(10),
                Instruction::I32Const(20),
                Instruction::I32Const(condition),
                Instruction::Select,
            ],
            vec![],
        )
        .unwrap()
    };
    assert_eq!(pick(1), vec![RuntimeValue::I32(7), RuntimeValue::I32(10)]);
    assert_eq!(pick(0), vec![RuntimeValue::I32(7), RuntimeValue::I32(20)]);
    assert_eq!(pick(-1), vec![RuntimeValue::I32(7), RuntimeValue::I32(10)]);
}

#[test]
fn test_for_zero() {
    let eqz = |v: RuntimeValue, i: Instruction| run(vec![Instruction::GetLocal(VerUintN(0)), i], vec![v]).unwrap();
    assert_eq!(eqz(RuntimeValue::I32(0), Instruction::I32Eqz), vec![RuntimeValue::I32(1)]);
    assert_eq!(eqz(RuntimeValue::I32(3), Instruction::I32Eqz), vec![RuntimeValue::I32(0)]);
    assert_eq!(eqz(RuntimeValue::I64(0), Instruction::I32Eqz), vec![RuntimeValue::I32(0)]);
    assert_eq!(eqz(RuntimeValue::I64(0), Instruction::I64Eqz), vec![RuntimeValue::I64(1)]);
    assert_eq!(eqz(RuntimeValue::I64(1 << 33), Instruction::I64Eqz), vec![RuntimeValue::I64(0)]);
    assert_eq!(eqz(RuntimeValue::I32(0), Instruction::I64Eqz), vec![RuntimeValue::I64(0)]);
}

#[test]
fn conditional_with_both_branches() {
    let code = || {
        vec![
            Instruction::GetLocal(VerUintN(0)),
            Instruction::I32Const(0),
            Instruction::I32Eq,
            Instruction::If(BlockType::Empty),
            Instruction::I32Const(1),
            Instruction::Else,
            Instruction::I32Const(2),
            Instruction::End,
        ]
    };
    assert_eq!(run(code(), vec![RuntimeValue::I32(0)]).unwrap(), vec![RuntimeValue::I32(1)]);
    assert_eq!(run(code(), vec![RuntimeValue::I32(7)]).unwrap(), vec![RuntimeValue::I32(2)]);
}

#[test]
fn conditional_without_else() {
    let code = |condition: i32| {
        vec![
            Instruction::I32Const(condition),
            Instruction::If(BlockType::Empty),
            Instruction::I32Const(1),
            Instruction::I32Add,
            Instruction::End,
            Instruction::I32Const(5),
        ]
    };
    assert_eq!(run(code(0), vec![]).unwrap(), vec![RuntimeValue::I32(5)]);
    assert_eq!(fault(run(code(1), vec![])), "ExpectValueStack");
}

#[test]
fn the_condition_is_the_low_32_bits() {
    let code = |v: Instruction| {
        vec![
            v,
            Instruction::If(BlockType::Empty),
            Instruction::I32Const(1),
            Instruction::Else,
            Instruction::I32Const(2),
            Instruction::End,
        ]
    };
    assert_eq!(run(code(Instruction::I64Const(1 << 32)), vec![]).unwrap(), vec![RuntimeValue::I32(2)]);
    assert_eq!(run(code(Instruction::I64Const(1)), vec![]).unwrap(), vec![RuntimeValue::I32(1)]);
    assert_eq!(run(code(Instruction::F32Const(0)), vec![]).unwrap(), vec![RuntimeValue::I32(2)]);
    assert_eq!(run(code(Instruction::F32Const(0x8000_0000)), vec![]).unwrap(), vec![RuntimeValue::I32(1)]);
    assert_eq!(run(code(Instruction::F64Const(1 << 40)), vec![]).unwrap(), vec![RuntimeValue::I32(2)]);
}

#[test]
fn passed_over_instructions_do_not_fail() {
    let values = run(
        vec![
            Instruction::I32Const(0),
            Instruction::If(BlockType::Empty),
            Instruction::Br(VerUintN(0)),
            Instruction::I32Add,
            Instruction::Drop,
            Instruction::End,
        ],
        vec![],
    )
    .unwrap();
    assert_eq!(values, vec![]);
}

#[test]
fn a_conditional_in_a_branch_that_is_passed_over_does_not_end_the_passing_over() {
    let code = vec![
        Instruction::GetLocal(VerUintN(0)),
        Instruction::If(BlockType::Empty),
        Instruction::GetLocal(VerUintN(0)),
        Instruction::If(BlockType::Empty),
        Instruction::Nop,
        Instruction::End,
        Instruction::I32Const(9),
        Instruction::End,
    ];
    assert_eq!(run(code.clone(), vec![RuntimeValue::I32(0)]).unwrap(), vec![]);
    assert_eq!(run(code, vec![RuntimeValue::I32(1)]).unwrap(), vec![RuntimeValue::I32(9)]);
}

#[test]
fn blocks_and_loops_in_a_branch_that_is_passed_over_are_counted() {
    let code = |condition: i32| {
        vec![
            Instruction::I32Const(condition),
            Instruction::If(BlockType::Empty),
            Instruction::Block(BlockType::Empty),
            Instruction::Loop(BlockType::Empty),
            Instruction::I32Const(1),
            Instruction::End,
            Instruction::If(BlockType::Empty),
            Instruction::Else,
            Instruction::End,
            Instruction::End,
            Instruction::I32Const(2),
            Instruction::Else,
            Instruction::I32Const(3),
            Instruction::Block(BlockType::Empty),
            Instruction::I32Const(4),
            Instruction::End,
            Instruction::I32Const(5),
            Instruction::End,
            Instruction::I32Const(6),
        ]
    };
    assert_eq!(
        run(code(0), vec![]).unwrap(),
        vec![
            RuntimeValue::I32(3),
            RuntimeValue::I32(4),
            RuntimeValue::I32(5),
            RuntimeValue::I32(6),
        ]
    );
    let mut runtime = runtime_of(vec![], code(0), vec![]);
    runtime.enter(0, &[]).unwrap();
    let mut depths = vec![];
    while runtime.step().unwrap() != Step::Halt {
        depths.push(runtime.skipping);
    }
    assert_eq!(
        depths,
        vec![
            None,
            Some(0),
            Some(1),
            Some(2),
            Some(2),
            Some(1),
            Some(2),
            Some(2),
            Some(1),
            Some(0),
            Some(0),
            None,
            None,
            None,
            None,
            None,
            None,
            None,
            None,
        ]
    );
}

#[test]
fn the_other_branch_after_a_taken_branch_is_passed_over_to_its_own_end() {
    let code = vec![
        Instruction::I32Const(1),
        Instruction::If(BlockType::Empty),
        Instruction::I32Const(10),
        Instruction::Else,
        Instruction::I32Const(0),
        Instruction::If(BlockType::Empty),
        Instruction::I32Const(20),
        Instruction::Else,
        Instruction::I32Const(30),
        Instruction::End,
        Instruction::I32Const(40),
        Instruction::End,
        Instruction::I32Const(50),
    ];
    assert_eq!(
        run(code, vec![]).unwrap(),
        vec![RuntimeValue::I32(10), RuntimeValue::I32(50)]
    );
}

#[test]
fn blocks_and_loops_leave_labels() {
    let mut runtime = runtime_of(
        vec![],
        vec![
            Instruction::Block(BlockType::I32),
            Instruction::Nop,
            Instruction::Loop(BlockType::Empty),
            Instruction::End,
            Instruction::End,
        ],
        vec![],
    );
    assert_eq!(runtime.execute(0, &[]).unwrap(), vec![]);
    assert_eq!(
        runtime.label_stack,
        vec![
            Label { pc: 1, label_type: LabelType::Block, result_type: BlockType::I32 },
            Label { pc: 3, label_type: LabelType::Loop, result_type: BlockType::Empty },
        ]
    );
}

#[test]
fn a_conditional_leaves_a_label_with_its_condition() {
    let mut runtime = runtime_of(
        vec![],
        vec![
            Instruction::I32Const(5),
            Instruction::If(BlockType::I64),
            Instruction::End,
            Instruction::I32Const(0),
            Instruction::If(BlockType::Empty),
            Instruction::End,
        ],
        vec![],
    );
    assert_eq!(runtime.execute(0, &[]).unwrap(), vec![]);
    assert_eq!(
        runtime.label_stack,
        vec![
            Label { pc: 2, label_type: LabelType::If(true), result_type: BlockType::I64 },
            Label { pc: 5, label_type: LabelType::If(false), result_type: BlockType::Empty },
        ]
    );
    assert!(runtime.skipping.is_none());
}

#[test]
fn a_parameter_of_unknown_type_takes_no_argument() {
    let mut runtime = runtime_of(vec![ValueType::Unknown], vec![], vec![]);
    match runtime.execute(0, &[RuntimeValue::V128(1)]) {
        Err(RuntimeError::InvalidArgs(expect, actual)) => {
            assert_eq!(expect, vec![ValueType::Unknown]);
            assert_eq!(actual, vec![ValueType::Unknown]);
        }
        other => panic!("unexpected {:?}", other),
    }
}

#[test]
fn labels_are_made_as_asked() {
    assert_eq!(
        Label::new(4, LabelType::Loop, BlockType::F64),
        Label { pc: 4, label_type: LabelType::Loop, result_type: BlockType::F64 }
    );
    assert_eq!(
        Label::new_if(2, BlockType::I32, true),
        Label { pc: 2, label_type: LabelType::If(true), result_type: BlockType::I32 }
    );
    assert_eq!(
        Label::new_if(0, BlockType::Empty, false),
        Label { pc: 0, label_type: LabelType::If(false), result_type: BlockType::Empty }
    );
}

#[test]
fn memory_reads_low_byte_first() {
    let mut memory = Memory::new(vec![0x01, 0x02, 0x03, 0x04, 0x05, 0x06, 0x07, 0x88]);
    assert_eq!(memory.load::<u8>(7).unwrap(), 0x88);
    assert_eq!(memory.load::<u16>(1).unwrap(), 0x0302);
    assert_eq!(memory.load::<u32>(0).unwrap(), 0x0403_0201);
    assert_eq!(memory.load::<i32>(4).unwrap(), 0x8807_0605u32 as i32);
    assert_eq!(memory.load::<u64>(0).unwrap(), 0x8807_0605_0403_0201);
    assert_eq!(memory.load::<i64>(0).unwrap(), 0x8807_0605_0403_0201u64 as i64);
    assert_eq!(memory.0.len(), 8);
}

#[test]
fn memory_grows_by_doubling_and_reads_zero_behind_its_bytes() {
    let mut memory = Memory::new(vec![0xAA]);
    assert_eq!(memory.load::<u32>(2).unwrap(), 0);
    assert_eq!(memory.0, vec![0xAA, 0, 0, 0, 0, 0, 0, 0]);
    assert_eq!(memory.load::<u16>(0).unwrap(), 0x00AA);
    assert_eq!(memory.load::<u8>(8).unwrap(), 0);
    assert_eq!(memory.0.len(), 16);
    assert_eq!(memory.0[0], 0xAA);
    assert!(memory.0[1..].iter().all(|b| *b == 0));
}

#[test]
fn empty_memory_starts_to_grow_at_one_byte() {
    let mut memory = Memory::new(vec![]);
    assert_eq!(memory.load::<u8>(0).unwrap(), 0);
    assert_eq!(memory.0, vec![0]);
    let mut memory = Memory::new(vec![]);
    assert_eq!(memory.load::<u64>(0).unwrap(), 0);
    assert_eq!(memory.0.len(), 8);
    let mut memory = Memory::new(vec![1, 2, 3]);
    assert_eq!(memory.load::<u8>(3).unwrap(), 0);
    assert_eq!(memory.0, vec![1, 2, 3, 0, 0, 0]);
}

#[test]
fn an_access_that_cannot_be_held_is_refused() {
    let mut memory = Memory::new(vec![1, 2]);
    let e = memory.load::<u32>(usize::MAX - 1).unwrap_err();
    assert_eq!(kind_of(&e), "MemoryOutOfBounds");
    assert_eq!(memory.0, vec![1, 2]);
    let e = memory.load::<u8>(usize::MAX).unwrap_err();
    assert_eq!(kind_of(&e), "MemoryOutOfBounds");
    assert_eq!(memory.0, vec![1, 2]);
}

#[test]
fn load_adds_the_offset_to_the_address() {
    let mut runtime = runtime_of(
        vec![],
        vec![Instruction::I32Const(1), Instruction::I32Load(0, 2)],
        vec![0, 0, 0, 0x78, 0x56, 0x34, 0x12],
    );
    assert_eq!(runtime.execute(0, &[]).unwrap(), vec![RuntimeValue::I32(0x1234_5678)]);
    assert_eq!(runtime.memory.0.len(), 7);
}

#[test]
fn load_wraps_the_address_at_32_bits() {
    let mut runtime = runtime_of(
        vec![],
        vec![Instruction::I32Const(-1), Instruction::I32Load8U(0, 3)],
        vec![10, 11, 12, 13],
    );
    assert_eq!(runtime.execute(0, &[]).unwrap(), vec![RuntimeValue::I32(12)]);
}

#[test]
fn load_behind_the_end_grows_the_memory() {
    let mut runtime = runtime_of(
        vec![],
        vec![Instruction::I32Const(5), Instruction::I64Load(0, 0)],
        vec![0xFF, 0xFF],
    );
    assert_eq!(runtime.execute(0, &[]).unwrap(), vec![RuntimeValue::I64(0)]);
    assert_eq!(runtime.memory.0.len(), 16);
    assert_eq!(runtime.memory.0[..2], [0xFF, 0xFF]);
    assert!(runtime.memory.0[2..].iter().all(|b| *b == 0));
}

#[test]
fn narrow_loads_widen_with_or_without_the_sign() {
    let memory = vec![0x80, 0xFF, 0x00, 0x80, 0xFF, 0xFF, 0xFF, 0xFF];
    let load = |i: Instruction, base: i32| {
        let mut runtime = runtime_of(vec![], vec![Instruction::I32Const(base), i], memory.clone());
        let values = runtime.execute(0, &[]).unwrap();
        assert_eq!(values.len(), 1);
        values[0]
    };
    assert_eq!(load(Instruction::I32Load8S(0, 0), 0), RuntimeValue::I32(-128));
    assert_eq!(load(Instruction::I32Load8U(0, 0), 0), RuntimeValue::I32(128));
    assert_eq!(load(Instruction::I32Load16S(0, 0), 0), RuntimeValue::I32(-128));
    assert_eq!(load(Instruction::I32Load16U(0, 0), 0), RuntimeValue::I32(0xFF80));
    assert_eq!(load(Instruction::I64Load8S(0, 0), 1), RuntimeValue::I64(-1));
    assert_eq!(load(Instruction::I64Load8U(0, 0), 1), RuntimeValue::I64(255));
    assert_eq!(load(Instruction::I64Load16S(0, 0), 2), RuntimeValue::I64(-32768));
    assert_eq!(load(Instruction::I64Load16U(0, 0), 2), RuntimeValue::I64(32768));
    assert_eq!(load(Instruction::I64Load32S(0, 0), 4), RuntimeValue::I64(-1));
    assert_eq!(load(Instruction::I64Load32U(0, 0), 4), RuntimeValue::I64(0xFFFF_FFFF));
    assert_eq!(load(Instruction::I32Load(0, 0), 0), RuntimeValue::I32(0x8000_FF80u32 as i32));
    assert_eq!(load(Instruction::F32Load(0, 0), 0), RuntimeValue::F32(0x8000_FF80));
    assert_eq!(load(Instruction::I64Load(0, 0), 0), RuntimeValue::I64(0xFFFF_FFFF_8000_FF80u64 as i64));
    assert_eq!(load(Instruction::F64Load(0, 0), 0), RuntimeValue::F64(0xFFFF_FFFF_8000_FF80));
}

#[test]
fn load_at_a_floating_point_address_is_not_carried_out() {
    let r = run(vec![Instruction::F32Const(0), Instruction::I32Load(0, 0)], vec![]);
    assert_eq!(fault(r), "Unimplemented");
}

#[test]
fn activation_stack_of_one_call() {
    let mut stack = ActivationStack::init(2, vec![RuntimeValue::I32(5), RuntimeValue::I64(6)]);
    assert_eq!(stack.pc().unwrap(), 0);
    assert_eq!(stack.last().unwrap().function_index, 2);
    assert_eq!(stack.get_local(0).unwrap(), RuntimeValue::I32(5));
    assert_eq!(stack.get_local(1).unwrap(), RuntimeValue::I64(6));
    assert!(stack.get_local(2).is_err());
    stack.set_local(7, RuntimeValue::I32(1)).unwrap();
    assert_eq!(stack.get_local(7).unwrap(), RuntimeValue::I32(1));
    stack.set_local(0, RuntimeValue::I32(9)).unwrap();
    assert_eq!(stack.get_local(0).unwrap(), RuntimeValue::I32(9));
    stack.increment_pc().unwrap();
    stack.increment_pc().unwrap();
    assert_eq!(stack.pc().unwrap(), 2);
    stack.set_pc(40).unwrap();
    assert_eq!(stack.pc().unwrap(), 40);
    assert_eq!(stack.get_local(1).unwrap(), RuntimeValue::I64(6));
}

#[test]
fn activation_stack_works_on_the_innermost_frame() {
    let mut stack = ActivationStack::init(0, vec![RuntimeValue::I32(5)]);
    stack.push(Activation::new(1, std::collections::HashMap::new()));
    assert_eq!(stack.last().unwrap().function_index, 1);
    assert!(stack.get_local(0).is_err());
    stack.set_pc(3).unwrap();
    let inner = stack.pop().unwrap();
    assert_eq!(inner.pc, 3);
    assert_eq!(inner.function_index, 1);
    assert_eq!(stack.pc().unwrap(), 0);
    assert_eq!(stack.get_local(0).unwrap(), RuntimeValue::I32(5));
    assert!(stack.pop().is_some());
    assert!(stack.pop().is_none());
}

#[test]
fn empty_activation_stack_is_an_error() {
    let mut stack = ActivationStack::new();
    assert_eq!(kind_of(&stack.pc().unwrap_err()), "ExpectActivationStack");
    assert_eq!(kind_of(&stack.set_pc(1).unwrap_err()), "ExpectActivationStack");
    assert_eq!(kind_of(&stack.increment_pc().unwrap_err()), "ExpectActivationStack");
    assert_eq!(kind_of(&stack.get_local(0).unwrap_err()), "ExpectActivationStack");
    assert_eq!(
        kind_of(&stack.set_local(0, RuntimeValue::I32(0)).unwrap_err()),
        "ExpectActivationStack"
    );
    assert!(stack.last().is_none());
    assert!(stack.pop().is_none());
}

#[test]
fn messages_of_runtime_errors() {
    assert_eq!(RuntimeError::NotFound("add".to_string()).message(), "'add'' is not found");
    assert_eq!(
        RuntimeError::ExpectCodeSection.message(),
        "not found code section. wai is expected code section"
    );
    assert_eq!(RuntimeError::ExpectValueStack.message(), "expect value stack, but nothing");
    assert_eq!(RuntimeError::ExpectLabelStack.message(), "expect label stack, but nothing");
    assert_eq!(
        RuntimeError::ExpectActivationStack.message(),
        "expect activation stack, but nothing"
    );
    assert_eq!(RuntimeError::Unimplemented.message(), "unimplemented");
    assert_eq!(
        RuntimeError::InvalidArgs(vec![ValueType::I32, ValueType::I64], vec![ValueType::F32]).message(),
        "Invalid argument: expect [I32, I64],but got [F32]"
    );
    assert_eq!(
        RuntimeError::InvalidArgs(vec![], vec![ValueType::F64, ValueType::Unknown, ValueType::I32]).message(),
        "Invalid argument: expect [],but got [F64, Unknown, I32]"
    );
    assert_eq!(
        RuntimeError::InvalidArgs(vec![ValueType::I32], vec![]).message(),
        format!("Invalid argument: expect {:?},but got {:?}", vec![ValueType::I32], Vec::<ValueType>::new())
    );
    assert_eq!(RuntimeError::DivisionByZero.message(), "division by zero");
    assert_eq!(RuntimeError::MemoryOutOfBounds.message(), "memory access out of bounds");
    assert_eq!(
        RuntimeError::InconsistentModule.message(),
        "type, function and code sections do not fit together"
    );
    assert_eq!(RuntimeError::Custom("as it is".to_string()).message(), "as it is");
}

#[test]
fn runtime_errors_are_equal_by_kind_and_content() {
    assert_eq!(RuntimeError::Unimplemented, RuntimeError::Unimplemented);
    assert_eq!(RuntimeError::DivisionByZero, RuntimeError::DivisionByZero);
    assert_ne!(RuntimeError::DivisionByZero, RuntimeError::Unimplemented);
    assert_ne!(RuntimeError::ExpectValueStack, RuntimeError::ExpectLabelStack);
    assert_eq!(RuntimeError::NotFound("a".to_string()), RuntimeError::NotFound("a".to_string()));
    assert_ne!(RuntimeError::NotFound("a".to_string()), RuntimeError::NotFound("b".to_string()));
    assert_ne!(RuntimeError::NotFound("a".to_string()), RuntimeError::Custom("a".to_string()));
    assert_eq!(RuntimeError::Custom("a".to_string()), RuntimeError::Custom("a".to_string()));
    assert_eq!(
        RuntimeError::InvalidArgs(vec![ValueType::I32], vec![]),
        RuntimeError::InvalidArgs(vec![ValueType::I32], vec![])
    );
    assert_ne!(
        RuntimeError::InvalidArgs(vec![ValueType::I32], vec![]),
        RuntimeError::InvalidArgs(vec![ValueType::I64], vec![])
    );
    assert_ne!(
        RuntimeError::InvalidArgs(vec![ValueType::I32], vec![]),
        RuntimeError::InvalidArgs(vec![ValueType::I32], vec![ValueType::I32])
    );
    assert_ne!(
        RuntimeError::InvalidArgs(vec![ValueType::I32, ValueType::I32], vec![]),
        RuntimeError::InvalidArgs(vec![ValueType::I32], vec![])
    );
    assert_eq!(
        run(vec![Instruction::Return], vec![]),
        Err(RuntimeError::Unimplemented)
    );
    assert_eq!(
        run(vec![Instruction::Drop], vec![]),
        Err(RuntimeError::ExpectValueStack)
    );
}
