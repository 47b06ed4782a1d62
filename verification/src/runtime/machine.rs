//! What the instructions do, as functions on the state of the machine.

use crate::from_le::{le_u16, le_u32, le_u64};
use crate::instruction::InstructionView;
use crate::opcode::Opcode;
use crate::runtime::activation_stack::{locals_of, with_last, ActivationView};
use crate::runtime::error::RuntimeErrorView;
use crate::runtime::function_table::FunctionView;
use crate::runtime::label_stack::{Label, LabelType};
use crate::runtime::memory::grown;
use crate::runtime::numeric::{flag, integer_result, NumericOp};
use crate::runtime::runtime_value::{fit, RuntimeValue};
use crate::types::ValueType;
use vstd::prelude::*;

verus! {

/// What one instruction sees and changes: the locals of the innermost frame,
/// the value stack, the labels, the memory, and whether instructions are
/// being passed over. `pc` is the place after the instruction.
///
/// `skip` is `None` while instructions are carried out. While they are
/// passed over it holds how many blocks, loops and conditionals have been
/// opened in what was passed over and are not closed yet.
#[verifier::ext_equal]
pub struct Machine {
    pub pc: nat,
    pub locals: Map<usize, RuntimeValue>,
    pub stack: Seq<RuntimeValue>,
    pub labels: Seq<Label>,
    pub memory: Seq<u8>,
    pub skip: Option<nat>,
}

/// How one instruction ends.
pub enum Outcome {
    /// The instruction is done and has left this machine.
    Next(Machine),
    /// The instruction needs floating-point arithmetic: its operands are
    /// taken off the stack, the first of them the one that was on top, and
    /// its result is still to be pushed.
    Defer(Machine, ValueType, NumericOp, RuntimeValue, RuntimeValue),
    /// The instruction cannot be carried out; nothing has changed.
    Fault(RuntimeErrorView),
}

/// How many bytes the load of the tag `op` reads.
pub open spec fn load_width(op: Opcode) -> nat {
    match op {
        Opcode::I32Load8S | Opcode::I32Load8U | Opcode::I64Load8S | Opcode::I64Load8U => 1,
        Opcode::I32Load16S | Opcode::I32Load16U | Opcode::I64Load16S | Opcode::I64Load16U => 2,
        Opcode::I32Load | Opcode::F32Load | Opcode::I64Load32S | Opcode::I64Load32U => 4,
        _ => 8,
    }
}

/// The value that the load of the tag `op` makes of the bytes it reads: a
/// narrow load widens what it reads, keeping the sign where the tag ends in
/// `S`.
pub open spec fn loaded(op: Opcode, b: Seq<u8>) -> RuntimeValue {
    match op {
        Opcode::I32Load => RuntimeValue::I32(le_u32(b) as i32),
        Opcode::I64Load => RuntimeValue::I64(le_u64(b) as i64),
        Opcode::F32Load => RuntimeValue::F32(le_u32(b)),
        Opcode::F64Load => RuntimeValue::F64(le_u64(b)),
        Opcode::I32Load8S => RuntimeValue::I32((b[0] as i8) as i32),
        Opcode::I32Load8U => RuntimeValue::I32(b[0] as i32),
        Opcode::I32Load16S => RuntimeValue::I32((le_u16(b) as i16) as i32),
        Opcode::I32Load16U => RuntimeValue::I32(le_u16(b) as i32),
        Opcode::I64Load8S => RuntimeValue::I64((b[0] as i8) as i64),
        Opcode::I64Load8U => RuntimeValue::I64(b[0] as i64),
        Opcode::I64Load16S => RuntimeValue::I64((le_u16(b) as i16) as i64),
        Opcode::I64Load16U => RuntimeValue::I64(le_u16(b) as i64),
        Opcode::I64Load32S => RuntimeValue::I64((le_u32(b) as i32) as i64),
        _ => RuntimeValue::I64(le_u32(b) as i64),
    }
}

/// The tag opens a construct that an `End` closes: a block, a loop or a
/// conditional.
pub open spec fn opens(op: Opcode) -> bool {
    op is Block || op is Loop || op is If
}

/// The tag is one of the loads.
pub open spec fn is_load(op: Opcode) -> bool {
    op is I32Load || op is I64Load || op is F32Load || op is F64Load || op is I32Load8S
        || op is I32Load8U || op is I32Load16S || op is I32Load16U || op is I64Load8S
        || op is I64Load8U || op is I64Load16S || op is I64Load16U || op is I64Load32S
        || op is I64Load32U
}

impl Machine {
    /// This machine with `v` on top of its stack.
    pub open spec fn push(self, v: RuntimeValue) -> Machine {
        Machine { stack: self.stack.push(v), ..self }
    }

    /// This machine without the top of its stack.
    pub open spec fn pop(self) -> Machine {
        Machine { stack: self.stack.drop_last(), ..self }
    }

    /// This machine with the label of a construct that is entered here.
    pub open spec fn enter(self, label_type: LabelType, i: InstructionView) -> Machine {
        Machine {
            labels: self.labels.push(
                Label { pc: self.pc as usize, label_type, result_type: i.immediate->Block_0 },
            ),
            ..self
        }
    }

    /// An operation on two numbers. The operand on top of the stack is the
    /// first, the one below it the second. An operation on integers puts its
    /// result in their place. One of a floating-point type, or with a
    /// floating-point operand, is deferred.
    pub open spec fn numeric(self, ty: ValueType, op: NumericOp) -> Outcome {
        if self.stack.len() < 2 {
            Outcome::Fault(RuntimeErrorView::ExpectValueStack)
        } else {
            let a = self.stack[self.stack.len() - 1];
            let b = self.stack[self.stack.len() - 2];
            let rest = self.pop().pop();
            if ty == ValueType::F32 || ty == ValueType::F64 || a.is_float() || b.is_float() {
                Outcome::Defer(rest, ty, op, a, b)
            } else {
                match integer_result(ty, op, a, b) {
                    Ok(v) => Outcome::Next(rest.push(v)),
                    Err(e) => Outcome::Fault(e),
                }
            }
        }
    }

    /// The address that a load with the offset `offset` reads at, and the
    /// memory as it is once it holds `width` bytes there. The address is
    /// the top of the stack, cut to 32 bits, plus the offset, wrapping at 32
    /// bits.
    pub open spec fn access(self, offset: u32, width: nat) -> Result<
        (nat, Seq<u8>),
        RuntimeErrorView,
    > {
        if self.stack.len() == 0 {
            Err(RuntimeErrorView::ExpectValueStack)
        } else {
            match self.stack.last().to_u32() {
                None => Err(RuntimeErrorView::Unimplemented),
                Some(base) => {
                    let addr = base.wrapping_add(offset) as nat;
                    match grown(self.memory, addr + width) {
                        None => Err(RuntimeErrorView::MemoryOutOfBounds),
                        Some(bytes) => Ok((addr, bytes)),
                    }
                },
            }
        }
    }

    /// A load: the value read takes the place of the address on the stack,
    /// and the memory has grown to hold the bytes read.
    pub open spec fn load(self, op: Opcode, offset: u32) -> Outcome {
        match self.access(offset, load_width(op)) {
            Ok((addr, bytes)) => Outcome::Next(
                Machine {
                    stack: self.stack.drop_last().push(
                        loaded(op, bytes.subrange(addr as int, addr as int + load_width(op) as int)),
                    ),
                    memory: bytes,
                    ..self
                },
            ),
            Err(e) => Outcome::Fault(e),
        }
    }

    /// What an instruction that is neither an operation on two numbers nor
    /// passed over does.
    pub open spec fn plain(self, i: InstructionView) -> Outcome {
        if is_load(i.opcode) {
            self.load(i.opcode, i.immediate->Memory_1)
        } else {
            match i.opcode {
                Opcode::Nop | Opcode::End | Opcode::Call => Outcome::Next(self),
                Opcode::Block => Outcome::Next(self.enter(LabelType::Block, i)),
                Opcode::Loop => Outcome::Next(self.enter(LabelType::Loop, i)),
                Opcode::If => if self.stack.len() == 0 {
                    Outcome::Fault(RuntimeErrorView::ExpectValueStack)
                } else {
                    Outcome::Next(
                        Machine {
                            skip: if self.stack.last().truthy() {
                                None
                            } else {
                                Some(0)
                            },
                            ..self.pop().enter(LabelType::If(self.stack.last().truthy()), i)
                        },
                    )
                },
                Opcode::Else => Outcome::Next(Machine { skip: Some(0), ..self }),
                Opcode::Drop => if self.stack.len() == 0 {
                    Outcome::Fault(RuntimeErrorView::ExpectValueStack)
                } else {
                    Outcome::Next(self.pop())
                },
                Opcode::Select => if self.stack.len() < 3 {
                    Outcome::Fault(RuntimeErrorView::ExpectValueStack)
                } else {
                    let condition = self.stack[self.stack.len() - 1];
                    let v1 = self.stack[self.stack.len() - 2];
                    let v2 = self.stack[self.stack.len() - 3];
                    Outcome::Next(
                        self.pop().pop().pop().push(
                            if condition.truthy() {
                                v2
                            } else {
                                v1
                            },
                        ),
                    )
                },
                Opcode::GetLocal => {
                    let index = i.immediate->Index_0.0 as usize;
                    if self.locals.contains_key(index) {
                        Outcome::Next(self.push(self.locals[index]))
                    } else {
                        Outcome::Fault(RuntimeErrorView::NotFound("local"@))
                    }
                },
                Opcode::SetLocal => if self.stack.len() == 0 {
                    Outcome::Fault(RuntimeErrorView::ExpectValueStack)
                } else {
                    Outcome::Next(
                        Machine {
                            locals: self.locals.insert(
                                i.immediate->Index_0.0 as usize,
                                self.stack.last(),
                            ),
                            ..self.pop()
                        },
                    )
                },
                Opcode::I32Const => Outcome::Next(self.push(RuntimeValue::I32(i.immediate->I32_0))),
                Opcode::I64Const => Outcome::Next(self.push(RuntimeValue::I64(i.immediate->I64_0))),
                Opcode::F32Const => Outcome::Next(self.push(RuntimeValue::F32(i.immediate->F32_0))),
                Opcode::F64Const => Outcome::Next(self.push(RuntimeValue::F64(i.immediate->F64_0))),
                Opcode::I32Eqz => if self.stack.len() == 0 {
                    Outcome::Fault(RuntimeErrorView::ExpectValueStack)
                } else {
                    Outcome::Next(self.pop().push(flag(self.stack.last() == RuntimeValue::I32(0))))
                },
                Opcode::I64Eqz => if self.stack.len() == 0 {
                    Outcome::Fault(RuntimeErrorView::ExpectValueStack)
                } else {
                    Outcome::Next(
                        self.pop().push(
                            if self.stack.last() == RuntimeValue::I64(0) {
                                RuntimeValue::I64(1)
                            } else {
                                RuntimeValue::I64(0)
                            },
                        ),
                    )
                },
                _ => Outcome::Fault(RuntimeErrorView::Unimplemented),
            }
        }
    }

    /// What an instruction does that is passed over, `depth` constructs being
    /// open in what was passed over before it.
    ///
    /// A block, a loop or a conditional opens one more. An `End` closes one,
    /// and where none is open it is the end of the construct whose branch is
    /// passed over: the passing over ends. An `Else` where none is open
    /// starts the other branch of that construct: the passing over ends. No
    /// other instruction counts, and none has any other effect.
    pub open spec fn passed(self, i: InstructionView, depth: nat) -> Machine {
        if opens(i.opcode) {
            Machine { skip: Some(depth + 1), ..self }
        } else if i.opcode == Opcode::End {
            if depth == 0 {
                Machine { skip: None, ..self }
            } else {
                Machine { skip: Some((depth - 1) as nat), ..self }
            }
        } else if i.opcode == Opcode::Else && depth == 0 {
            Machine { skip: None, ..self }
        } else {
            self
        }
    }

    /// What one instruction does.
    pub open spec fn effect(self, i: InstructionView) -> Outcome {
        match self.skip {
            Some(depth) => Outcome::Next(self.passed(i, depth)),
            None => match i.opcode.numeric() {
                Some((ty, op)) => self.numeric(ty, op),
                None => self.plain(i),
            },
        }
    }
}

/// The whole state of a runtime.
#[verifier::ext_equal]
pub struct RuntimeView {
    pub functions: Seq<FunctionView>,
    pub frames: Seq<ActivationView>,
    pub stack: Seq<RuntimeValue>,
    pub labels: Seq<Label>,
    pub memory: Seq<u8>,
    pub skip: Option<nat>,
}

/// Where a run ends, and the error that ended it, if one did.
pub struct Finish {
    pub state: RuntimeView,
    pub fault: Option<RuntimeErrorView>,
}

impl RuntimeView {
    /// The innermost frame.
    pub open spec fn frame(self) -> ActivationView {
        self.frames.last()
    }

    /// The instructions of the function that the innermost frame runs.
    pub open spec fn code(self) -> Seq<InstructionView> {
        self.functions[self.frame().function_index as int].code
    }

    /// Why no instruction can be fetched: there is no frame, or the
    /// innermost frame runs a function that the table does not hold.
    pub open spec fn blocked(self) -> Option<RuntimeErrorView> {
        if self.frames.len() == 0 {
            Some(RuntimeErrorView::ExpectActivationStack)
        } else if self.frame().function_index >= self.functions.len() {
            Some(RuntimeErrorView::NotFound("function"@))
        } else {
            None
        }
    }

    /// The program counter has run off the end of the instructions.
    pub open spec fn halted(self) -> bool {
        self.frame().pc >= self.code().len()
    }

    /// How many instructions are still in front of the program counter.
    pub open spec fn remaining(self) -> nat {
        if self.blocked() is None && !self.halted() {
            (self.code().len() - self.frame().pc) as nat
        } else {
            0
        }
    }

    /// This state with the program counter one instruction on.
    pub open spec fn advance(self) -> RuntimeView {
        RuntimeView {
            frames: with_last(
                self.frames,
                ActivationView { pc: self.frame().pc + 1, ..self.frame() },
            ),
            ..self
        }
    }

    /// What an instruction sees of this state.
    pub open spec fn machine(self) -> Machine {
        Machine {
            pc: self.frame().pc,
            locals: self.frame().locals,
            stack: self.stack,
            labels: self.labels,
            memory: self.memory,
            skip: self.skip,
        }
    }

    /// This state with what an instruction has left in `m`.
    pub open spec fn with(self, m: Machine) -> RuntimeView {
        RuntimeView {
            functions: self.functions,
            frames: with_last(self.frames, ActivationView { locals: m.locals, ..self.frame() }),
            stack: m.stack,
            labels: m.labels,
            memory: m.memory,
            skip: m.skip,
        }
    }

    /// How the instruction at the program counter ends, the program counter
    /// moved past it first.
    pub open spec fn outcome(self) -> Outcome {
        self.advance().machine().effect(self.code()[self.frame().pc as int])
    }

    /// The table holds the function `func_index`, and `args` have the types
    /// that it declares, one for one.
    pub open spec fn accepts(self, func_index: usize, args: Seq<RuntimeValue>) -> bool {
        &&& func_index < self.functions.len()
        &&& fit(self.functions[func_index as int].params, args)
    }

    /// The table holds the function `func_index`, and `args` do not have the
    /// types that it declares.
    pub open spec fn mismatched(self, func_index: usize, args: Seq<RuntimeValue>) -> bool {
        &&& func_index < self.functions.len()
        &&& !fit(self.functions[func_index as int].params, args)
    }

    /// While instructions are passed over, fewer constructs are open than
    /// instructions have been fetched.
    pub open spec fn shallow(self) -> bool {
        self.skip matches Some(depth) ==> self.frames.len() > 0 && depth < self.frame().pc
    }

    /// This state as a call of the function `func_index` starts in it: one
    /// frame, the arguments as its locals, nothing passed over.
    pub open spec fn entered(self, func_index: usize, args: Seq<RuntimeValue>) -> RuntimeView {
        RuntimeView {
            frames: seq![
                ActivationView { pc: 0, function_index: func_index, locals: locals_of(args) },
            ],
            skip: None,
            ..self
        }
    }

    /// Where the run from this state ends: it goes on instruction by
    /// instruction until the program counter runs off the end or an
    /// instruction cannot be carried out. An instruction that needs
    /// floating-point arithmetic ends the run as `Unimplemented`, its
    /// operands taken off the stack.
    pub open spec fn run(self) -> Finish
        decreases self.remaining(),
    {
        match self.blocked() {
            Some(e) => Finish { state: self, fault: Some(e) },
            None => if self.halted() {
                Finish { state: self, fault: None }
            } else {
                match self.outcome() {
                    Outcome::Next(m) => self.advance().with(m).run(),
                    Outcome::Defer(m, _, _, _, _) => Finish {
                        state: self.advance().with(m),
                        fault: Some(RuntimeErrorView::Unimplemented),
                    },
                    Outcome::Fault(e) => Finish { state: self.advance(), fault: Some(e) },
                }
            },
        }
    }
}

/// A step from a state in which fewer constructs are open than instructions
/// have been fetched leads to such a state again. The state that a call
/// starts in is one, so the count of open constructs stays below the
/// program counter through a whole run.
pub proof fn lemma_step_keeps_shallow(v: RuntimeView)
    requires
        v.shallow(),
        v.blocked() is None,
        !v.halted(),
    ensures
        match v.outcome() {
            Outcome::Next(m) => v.advance().with(m).shallow(),
            Outcome::Defer(m, _, _, _, _) => v.advance().with(m).shallow(),
            Outcome::Fault(_) => v.advance().shallow(),
        },
{
}

} // verus!
