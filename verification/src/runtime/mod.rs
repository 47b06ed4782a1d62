pub mod activation_stack;
pub mod error;
pub mod function_table;
pub mod label_stack;
pub mod machine;
pub mod memory;
pub mod numeric;
pub mod runtime_value;

pub use error::RuntimeError;
pub use function_table::FunctionTable;
pub use memory::Memory;
pub use runtime_value::RuntimeValue;

use crate::from_le::FromLe;
use crate::instruction::{lemma_tag, Instruction};
use crate::runtime::activation_stack::ActivationStack;
use crate::runtime::error::RuntimeErrorView;
use crate::runtime::label_stack::{Label, LabelStack, LabelType};
use crate::runtime::machine::{is_load, lemma_step_keeps_shallow, Outcome, RuntimeView};
use crate::runtime::numeric::{apply_integer, NumericOp};
use crate::runtime::runtime_value::{fit, types_of};
use crate::types::{BlockType, ValueType};
use vstd::prelude::*;
use vstd::slice::slice_to_vec;
use vstd::string::StringExecFns;

verus! {

pub type ValueStack = Vec<RuntimeValue>;

/// How one step of the machine ends.
#[derive(Clone, Copy, Debug, PartialEq, Eq, Structural)]
pub enum Step {
    /// An instruction is done; the next may follow.
    Continue,
    /// The program counter has run off the end of the function: the value
    /// stack is the result.
    Halt,
    /// The instruction needs floating-point arithmetic, which is not done
    /// here. Its operands are off the stack, the first of them the one that
    /// was on top. Who goes on stepping pushes the result first.
    Defer(ValueType, NumericOp, RuntimeValue, RuntimeValue),
}

/// The stack machine: a table of functions, a value stack, labels, call
/// frames and a memory.
pub struct Runtime {
    pub function_table: FunctionTable,
    pub value_stack: ValueStack,
    pub label_stack: LabelStack,
    pub activation_stack: ActivationStack,
    pub memory: Memory,
    /// `None` while instructions are carried out. While they are passed
    /// over: how many blocks, loops and conditionals have been opened in what
    /// was passed over and are not closed yet.
    pub skipping: Option<usize>,
}

impl View for Runtime {
    type V = RuntimeView;

    open spec fn view(&self) -> RuntimeView {
        RuntimeView {
            functions: self.function_table@,
            frames: self.activation_stack@,
            stack: self.value_stack@,
            labels: self.label_stack@,
            memory: self.memory@,
            skip: depth_of(self.skipping),
        }
    }
}

/// The depth that a machine holds, as a number without bound.
pub open spec fn depth_of(skipping: Option<usize>) -> Option<nat> {
    match skipping {
        Some(depth) => Some(depth as nat),
        None => None,
    }
}

/// The step from `before` that gave `r` and left `after` ended as `o` says.
pub open spec fn performed(
    before: RuntimeView,
    after: RuntimeView,
    r: Result<Step, RuntimeError>,
    o: Outcome,
) -> bool {
    match o {
        Outcome::Next(m) => r is Ok && r->Ok_0 == Step::Continue && after =~= before.with(m),
        Outcome::Defer(m, ty, op, a, b) => r is Ok && r->Ok_0 == Step::Defer(ty, op, a, b)
            && after =~= before.with(m),
        Outcome::Fault(e) => r is Err && r->Err_0@ == e && after =~= before,
    }
}

/// Checks that the arguments have the types that a function declares, one
/// for one. Where a declared type is `Unknown`, no arguments do.
pub fn validate(func_type: &[ValueType], args: &[RuntimeValue]) -> (r: Result<(), RuntimeError>)
    ensures
        fit(func_type@, args@) ==> r is Ok,
        !fit(func_type@, args@) ==> r is Err && r->Err_0@ == RuntimeErrorView::InvalidArgs(
            func_type@,
            types_of(args@),
        ),
{
    let mut args_types: Vec<ValueType> = Vec::new();
    let mut i: usize = 0;
    while i < args.len()
        invariant
            i <= args.len(),
            args_types@ == types_of(args@).take(i as int),
        decreases args.len() - i,
    {
        args_types.push(args[i].to_type());
        i += 1;
        assert(args_types@ =~= types_of(args@).take(i as int));
    }
    assert(args_types@ =~= types_of(args@));
    let mut same = func_type.len() == args_types.len();
    let mut j: usize = 0;
    while same && j < func_type.len()
        invariant
            args_types@ == types_of(args@),
            same ==> j <= func_type.len() && func_type.len() == args_types.len(),
            same ==> forall|k: int|
                0 <= k < j ==> #[trigger] func_type@[k] == args_types@[k] && func_type@[k]
                    != ValueType::Unknown,
            !same ==> !fit(func_type@, args@),
        decreases func_type.len() - j + (if same { 1nat } else { 0nat }),
    {
        if func_type[j] != args_types[j] || func_type[j] == ValueType::Unknown {
            same = false;
        } else {
            j += 1;
        }
    }
    if same {
        assert(func_type@ =~= args_types@);
        Ok(())
    } else {
        Err(RuntimeError::InvalidArgs(slice_to_vec(func_type), args_types))
    }
}

impl Runtime {
    /// A machine that has run nothing yet.
    pub fn new(function_table: FunctionTable, memory: Memory) -> (r: Self)
        ensures
            r@ == (RuntimeView {
                functions: function_table@,
                frames: Seq::empty(),
                stack: Seq::empty(),
                labels: Seq::empty(),
                memory: memory@,
                skip: None,
            }),
    {
        let activation_stack = ActivationStack::new();
        Self {
            function_table,
            activation_stack,
            value_stack: Vec::new(),
            label_stack: Vec::new(),
            memory,
            skipping: None,
        }
    }

    /// Carries out the instruction at the program counter.
    ///
    /// The program counter moves past the instruction before the instruction
    /// takes effect. An instruction that cannot be carried out changes
    /// nothing else. While instructions are passed over, the count of the
    /// constructs that are open must leave room for one more; it does in
    /// every state that stepping reaches from `enter`.
    pub fn step(&mut self) -> (r: Result<Step, RuntimeError>)
        requires
            old(self)@.skip matches Some(depth) ==> depth < usize::MAX,
        ensures
            match old(self)@.blocked() {
                Some(e) => r is Err && r->Err_0@ == e && final(self)@ == old(self)@,
                None => if old(self)@.halted() {
                    r is Ok && r->Ok_0 == Step::Halt && final(self)@ == old(self)@
                } else {
                    performed(old(self)@.advance(), final(self)@, r, old(self)@.outcome())
                },
            },
    {
        let (function_index, pc) = match self.activation_stack.last() {
            None => return Err(RuntimeError::ExpectActivationStack),
            Some(activation) => (activation.function_index, activation.pc),
        };
        let instruction = match self.function_table.get(function_index) {
            None => return Err(RuntimeError::NotFound(String::from_str("function"))),
            Some(function) => {
                if pc >= function.code.len() {
                    return Ok(Step::Halt);
                }
                function.code[pc].clone()
            },
        };
        let _ = self.activation_stack.set_pc(pc + 1);
        assert(self@ =~= old(self)@.advance());
        if let Some(depth) = self.skipping {
            proof {
                lemma_tag(instruction);
            }
            match instruction {
                Instruction::Block(_) => {
                    self.skipping = Some(depth + 1);
                },
                Instruction::Loop(_) => {
                    self.skipping = Some(depth + 1);
                },
                Instruction::If(_) => {
                    self.skipping = Some(depth + 1);
                },
                Instruction::End => {
                    if depth == 0 {
                        self.skipping = None;
                    } else {
                        self.skipping = Some(depth - 1);
                    }
                },
                Instruction::Else => {
                    if depth == 0 {
                        self.skipping = None;
                    }
                },
                _ => {},
            }
            return Ok(Step::Continue);
        }
        match instruction.opcode().numeric() {
            Some((ty, op)) => self.numeric(ty, op),
            None => self.perform(instruction),
        }
    }

    /// Makes ready to run the function `func_index` on `args`: the call gets
    /// the only frame, with the arguments as its locals.
    ///
    /// The arguments must have the types that the function declares, one for
    /// one; where they have not, or the table holds no such function, nothing
    /// changes.
    pub fn enter(&mut self, func_index: usize, args: &[RuntimeValue]) -> (r: Result<
        (),
        RuntimeError,
    >)
        ensures
            func_index >= old(self)@.functions.len() ==> r is Err && r->Err_0@
                == RuntimeErrorView::NotFound("function"@) && final(self)@ == old(self)@,
            old(self)@.mismatched(func_index, args@) ==> r is Err && r->Err_0@
                == RuntimeErrorView::InvalidArgs(
                old(self)@.functions[func_index as int].params,
                types_of(args@),
            ) && final(self)@ == old(self)@,
            old(self)@.accepts(func_index, args@) ==> r is Ok && final(self)@ == old(self)@.entered(func_index, args@),
    {
        match self.function_table.get(func_index) {
            None => {
                return Err(RuntimeError::NotFound(String::from_str("function")));
            },
            Some(function) => {
                validate(function.params.as_slice(), args)?;
            },
        }
        self.activation_stack = ActivationStack::init(func_index, slice_to_vec(args));
        self.skipping = None;
        assert(self@ =~= old(self)@.entered(func_index, args@));
        Ok(())
    }

    /// Runs the function `func_index` on `args` to its end.
    ///
    /// The arguments must have the types that the function declares, one for
    /// one; where they have not, no instruction is carried out and nothing
    /// changes. The result is the value stack as the run leaves it. An
    /// instruction that needs floating-point arithmetic ends the run as
    /// `Unimplemented`.
    #[verifier::loop_isolation(false)]
    pub fn execute(&mut self, func_index: usize, args: &[RuntimeValue]) -> (r: Result<
        ValueStack,
        RuntimeError,
    >)
        ensures
            func_index >= old(self)@.functions.len() ==> r is Err && r->Err_0@
                == RuntimeErrorView::NotFound("function"@) && final(self)@ == old(self)@,
            old(self)@.mismatched(func_index, args@) ==> r is Err && r->Err_0@
                == RuntimeErrorView::InvalidArgs(
                old(self)@.functions[func_index as int].params,
                types_of(args@),
            ) && final(self)@ == old(self)@,
            old(self)@.accepts(func_index, args@) ==> {
                let fin = old(self)@.entered(func_index, args@).run();
                &&& final(self)@ == fin.state
                &&& match fin.fault {
                    None => r is Ok && r->Ok_0@ == fin.state.stack,
                    Some(e) => r is Err && r->Err_0@ == e,
                }
            },
    {
        self.enter(func_index, args)?;
        let ghost start = self@;
        loop
            invariant
                self@.run() == start.run(),
                self@.shallow(),
            decreases self@.remaining(),
        {
            proof {
                if self@.blocked() is None && !self@.halted() {
                    lemma_step_keeps_shallow(self@);
                }
            }
            match self.step() {
                Ok(Step::Continue) => {},
                Ok(Step::Halt) => {
                    return Ok(self.value_stack.clone());
                },
                Ok(Step::Defer(_, _, _, _)) => {
                    return Err(RuntimeError::Unimplemented);
                },
                Err(e) => {
                    return Err(e);
                },
            }
        }
    }

    /// An operation on the two values on top of the stack.
    fn numeric(&mut self, ty: ValueType, op: NumericOp) -> (r: Result<Step, RuntimeError>)
        requires
            old(self)@.frames.len() > 0,
        ensures
            performed(old(self)@, final(self)@, r, old(self)@.machine().numeric(ty, op)),
    {
        let n = self.value_stack.len();
        if n < 2 {
            return Err(RuntimeError::ExpectValueStack);
        }
        let a = self.value_stack[n - 1];
        let b = self.value_stack[n - 2];
        let float = match ty {
            ValueType::F32 => true,
            ValueType::F64 => true,
            _ => a.is_float() || b.is_float(),
        };
        if float {
            self.value_stack.pop();
            self.value_stack.pop();
            return Ok(Step::Defer(ty, op, a, b));
        }
        let v = apply_integer(ty, op, a, b)?;
        self.value_stack.pop();
        self.value_stack.pop();
        self.value_stack.push(v);
        Ok(Step::Continue)
    }

    /// Takes an address off the stack and reads a value at it, the offset
    /// added.
    fn load<T>(&mut self, offset: u32) -> (r: Result<T, RuntimeError>) where T: FromLe
        requires
            old(self)@.frames.len() > 0,
        ensures
            match old(self)@.machine().access(offset, T::width()) {
                Ok((addr, bytes)) => r is Ok && r->Ok_0 == T::of_bytes(
                    bytes.subrange(addr as int, addr as int + T::width() as int),
                ) && final(self)@ =~= (RuntimeView {
                    stack: old(self)@.stack.drop_last(),
                    memory: bytes,
                    ..old(self)@
                }),
                Err(e) => r is Err && r->Err_0@ == e && final(self)@ =~= old(self)@,
            },
    {
        let n = self.value_stack.len();
        if n == 0 {
            return Err(RuntimeError::ExpectValueStack);
        }
        let base_addr = match self.value_stack[n - 1].to_u32() {
            None => return Err(RuntimeError::Unimplemented),
            Some(base_addr) => base_addr,
        };
        let addr = base_addr.wrapping_add(offset);
        let result = self.memory.load::<T>(addr as usize)?;
        self.value_stack.pop();
        Ok(result)
    }

    fn vpop(&mut self) -> (r: Result<RuntimeValue, RuntimeError>)
        ensures
            old(self)@.stack.len() == 0 ==> r is Err && r->Err_0@
                == RuntimeErrorView::ExpectValueStack && final(self)@ == old(self)@,
            old(self)@.stack.len() > 0 ==> r is Ok && r->Ok_0 == old(self)@.stack.last() && final(self)@ == (RuntimeView { stack: old(self)@.stack.drop_last(), ..old(self)@ }),
    {
        match self.value_stack.pop() {
            Some(v) => Ok(v),
            None => Err(RuntimeError::ExpectValueStack),
        }
    }

    /// Puts a value on top of the value stack.
    pub fn vpush(&mut self, v: RuntimeValue)
        ensures
            final(self)@ == (RuntimeView { stack: old(self)@.stack.push(v), ..old(self)@ }),
    {
        self.value_stack.push(v)
    }

    fn block(&mut self, result_type: BlockType)
        requires
            old(self)@.frames.len() > 0,
        ensures
            final(self)@ == (RuntimeView {
                labels: old(self)@.labels.push(
                    Label {
                        pc: old(self)@.frame().pc as usize,
                        label_type: LabelType::Block,
                        result_type,
                    },
                ),
                ..old(self)@
            }),
    {
        let pc = self.pc();
        self.label_stack.push(Label::new(pc, LabelType::Block, result_type));
    }

    fn _loop(&mut self, result_type: BlockType)
        requires
            old(self)@.frames.len() > 0,
        ensures
            final(self)@ == (RuntimeView {
                labels: old(self)@.labels.push(
                    Label {
                        pc: old(self)@.frame().pc as usize,
                        label_type: LabelType::Loop,
                        result_type,
                    },
                ),
                ..old(self)@
            }),
    {
        let pc = self.pc();
        self.label_stack.push(Label::new(pc, LabelType::Loop, result_type));
    }

    /// Puts one of two values in the place of both and of the condition on
    /// top of them: the lower where the condition holds, the upper where it
    /// does not.
    fn select(&mut self) -> (r: Result<(), RuntimeError>)
        ensures
            old(self)@.stack.len() < 3 ==> r is Err && r->Err_0@
                == RuntimeErrorView::ExpectValueStack && final(self)@ == old(self)@,
            old(self)@.stack.len() >= 3 ==> r is Ok && final(self)@ == (RuntimeView {
                stack: old(self)@.stack.drop_last().drop_last().drop_last().push(
                    if old(self)@.stack[old(self)@.stack.len() - 1].truthy() {
                        old(self)@.stack[old(self)@.stack.len() - 3]
                    } else {
                        old(self)@.stack[old(self)@.stack.len() - 2]
                    },
                ),
                ..old(self)@
            }),
    {
        if self.value_stack.len() < 3 {
            return Err(RuntimeError::ExpectValueStack);
        }
        let condition = self.vpop()?;
        let v1 = self.vpop()?;
        let v2 = self.vpop()?;
        if bool::from(condition) {
            self.vpush(v2);
        } else {
            self.vpush(v1);
        }
        Ok(())
    }

    fn pc(&self) -> (r: usize)
        requires
            self@.frames.len() > 0,
        ensures
            r == self@.frame().pc,
    {
        match self.activation_stack.pc() {
            Ok(pc) => pc,
            Err(_) => 0,
        }
    }

    /// Enters a conditional: the condition comes off the stack, and where it
    /// does not hold the instructions up to the `Else` or `End` of this
    /// conditional are passed over.
    fn branch(&mut self, result_type: BlockType) -> (r: Result<(), RuntimeError>)
        requires
            old(self)@.frames.len() > 0,
        ensures
            old(self)@.stack.len() == 0 ==> r is Err && r->Err_0@
                == RuntimeErrorView::ExpectValueStack && final(self)@ == old(self)@,
            old(self)@.stack.len() > 0 ==> r is Ok && final(self)@ == (RuntimeView {
                stack: old(self)@.stack.drop_last(),
                labels: old(self)@.labels.push(
                    Label {
                        pc: old(self)@.frame().pc as usize,
                        label_type: LabelType::If(old(self)@.stack.last().truthy()),
                        result_type,
                    },
                ),
                skip: if old(self)@.stack.last().truthy() {
                    None
                } else {
                    Some(0)
                },
                ..old(self)@
            }),
    {
        if self.value_stack.len() == 0 {
            return Err(RuntimeError::ExpectValueStack);
        }
        let condition = bool::from(self.vpop()?);
        let pc = self.pc();
        self.label_stack.push(Label::new_if(pc, result_type, condition));
        self.skipping = if condition {
            None
        } else {
            Some(0)
        };
        Ok(())
    }

    /// Carries out an instruction that is not an operation on two numbers.
    fn perform(&mut self, instruction: Instruction) -> (r: Result<Step, RuntimeError>)
        requires
            old(self)@.frames.len() > 0,
        ensures
            performed(old(self)@, final(self)@, r, old(self)@.machine().plain(instruction@)),
    {
        proof {
            lemma_tag(instruction);
        }
        match instruction {
            Instruction::Nop => {},
            Instruction::End => {},
            Instruction::Call(_) => {},
            Instruction::Block(result_type) => self.block(result_type),
            Instruction::Loop(result_type) => self._loop(result_type),
            Instruction::If(result_type) => self.branch(result_type)?,
            Instruction::Else => {
                self.skipping = Some(0);
            },
            Instruction::Drop => {
                self.vpop()?;
            },
            Instruction::Select => self.select()?,
            Instruction::GetLocal(i) => {
                let v = self.activation_stack.get_local(i.0 as usize)?;
                self.vpush(v);
            },
            Instruction::SetLocal(i) => {
                let v = self.vpop()?;
                let _ = self.activation_stack.set_local(i.0 as usize, v);
            },
            Instruction::I32Const(v) => self.vpush(RuntimeValue::I32(v)),
            Instruction::I64Const(v) => self.vpush(RuntimeValue::I64(v)),
            Instruction::F32Const(v) => self.vpush(RuntimeValue::F32(v)),
            Instruction::F64Const(v) => self.vpush(RuntimeValue::F64(v)),
            Instruction::I32Eqz => {
                let flag: i32 = if self.vpop()? == RuntimeValue::I32(0) {
                    1
                } else {
                    0
                };
                self.vpush(RuntimeValue::I32(flag));
            },
            Instruction::I64Eqz => {
                let flag: i64 = if self.vpop()? == RuntimeValue::I64(0) {
                    1
                } else {
                    0
                };
                self.vpush(RuntimeValue::I64(flag));
            },
            other => {
                return self.perform_load(other);
            },
        }
        Ok(Step::Continue)
    }

    /// Carries out a load; any other instruction is not carried out.
    fn perform_load(&mut self, instruction: Instruction) -> (r: Result<Step, RuntimeError>)
        requires
            old(self)@.frames.len() > 0,
        ensures
            performed(
                old(self)@,
                final(self)@,
                r,
                if is_load(instruction@.opcode) {
                    old(self)@.machine().load(
                        instruction@.opcode,
                        instruction@.immediate->Memory_1,
                    )
                } else {
                    Outcome::Fault(RuntimeErrorView::Unimplemented)
                },
            ),
    {
        proof {
            lemma_tag(instruction);
        }
        match instruction {
            Instruction::I32Load(_, offset) => {
                let v = self.load::<i32>(offset)?;
                self.vpush(RuntimeValue::I32(v));
            },
            Instruction::I64Load(_, offset) => {
                let v = self.load::<i64>(offset)?;
                self.vpush(RuntimeValue::I64(v));
            },
            Instruction::F32Load(_, offset) => {
                let v = self.load::<u32>(offset)?;
                self.vpush(RuntimeValue::F32(v));
            },
            Instruction::F64Load(_, offset) => {
                let v = self.load::<u64>(offset)?;
                self.vpush(RuntimeValue::F64(v));
            },
            Instruction::I32Load8S(_, offset) => {
                let v = self.load::<u8>(offset)?;
                self.vpush(RuntimeValue::I32((v as i8) as i32));
            },
            Instruction::I32Load8U(_, offset) => {
                let v = self.load::<u8>(offset)?;
                self.vpush(RuntimeValue::I32(v as i32));
            },
            Instruction::I32Load16S(_, offset) => {
                let v = self.load::<u16>(offset)?;
                self.vpush(RuntimeValue::I32((v as i16) as i32));
            },
            Instruction::I32Load16U(_, offset) => {
                let v = self.load::<u16>(offset)?;
                self.vpush(RuntimeValue::I32(v as i32));
            },
            Instruction::I64Load8S(_, offset) => {
                let v = self.load::<u8>(offset)?;
                self.vpush(RuntimeValue::I64((v as i8) as i64));
            },
            Instruction::I64Load8U(_, offset) => {
                let v = self.load::<u8>(offset)?;
                self.vpush(RuntimeValue::I64(v as i64));
            },
            Instruction::I64Load16S(_, offset) => {
                let v = self.load::<u16>(offset)?;
                self.vpush(RuntimeValue::I64((v as i16) as i64));
            },
            Instruction::I64Load16U(_, offset) => {
                let v = self.load::<u16>(offset)?;
                self.vpush(RuntimeValue::I64(v as i64));
            },
            Instruction::I64Load32S(_, offset) => {
                let v = self.load::<u32>(offset)?;
                self.vpush(RuntimeValue::I64((v as i32) as i64));
            },
            Instruction::I64Load32U(_, offset) => {
                let v = self.load::<u32>(offset)?;
                self.vpush(RuntimeValue::I64(v as i64));
            },
            _ => {
                return Err(RuntimeError::Unimplemented);
            },
        }
        Ok(Step::Continue)
    }
}

} // verus!
