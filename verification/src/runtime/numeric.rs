use crate::opcode::Opcode;
use crate::runtime::error::{RuntimeError, RuntimeErrorView};
use crate::runtime::runtime_value::RuntimeValue;
use crate::types::ValueType;
use vstd::arithmetic::div_mod::{
    lemma_div_is_ordered_by_denominator, lemma_div_nonincreasing, lemma_div_pos_is_pos,
    lemma_mod_pos_bound,
};
use vstd::prelude::*;

verus! {

/// What an instruction does with two numbers: it tells them apart or makes a
/// third of them. The forms that end in `U` read their operands as unsigned.
#[derive(Clone, Copy, Debug, PartialEq, Eq, Structural)]
pub enum NumericOp {
    Eq,
    Ne,
    Lt,
    LtU,
    Gt,
    GtU,
    Le,
    LeU,
    Ge,
    GeU,
    Add,
    Sub,
    Mul,
    Div,
    DivU,
    Rem,
    RemU,
    And,
    Or,
    Xor,
}

impl Opcode {
    /// The operation on two numbers that this tag stands for, with the type
    /// of its operands; `None` for every other tag.
    pub open spec fn spec_numeric(self) -> Option<(ValueType, NumericOp)> {
        match self {
            Opcode::I32Eq => Some((ValueType::I32, NumericOp::Eq)),
            Opcode::I32Ne => Some((ValueType::I32, NumericOp::Ne)),
            Opcode::I32LtS => Some((ValueType::I32, NumericOp::Lt)),
            Opcode::I32LtU => Some((ValueType::I32, NumericOp::LtU)),
            Opcode::I32GtS => Some((ValueType::I32, NumericOp::Gt)),
            Opcode::I32GtU => Some((ValueType::I32, NumericOp::GtU)),
            Opcode::I32LeS => Some((ValueType::I32, NumericOp::Le)),
            Opcode::I32LeU => Some((ValueType::I32, NumericOp::LeU)),
            Opcode::I32GeS => Some((ValueType::I32, NumericOp::Ge)),
            Opcode::I32GeU => Some((ValueType::I32, NumericOp::GeU)),
            Opcode::I32Add => Some((ValueType::I32, NumericOp::Add)),
            Opcode::I32Sub => Some((ValueType::I32, NumericOp::Sub)),
            Opcode::I32Mul => Some((ValueType::I32, NumericOp::Mul)),
            Opcode::I32DivS => Some((ValueType::I32, NumericOp::Div)),
            Opcode::I32DivU => Some((ValueType::I32, NumericOp::DivU)),
            Opcode::I32RemS => Some((ValueType::I32, NumericOp::Rem)),
            Opcode::I32RemU => Some((ValueType::I32, NumericOp::RemU)),
            Opcode::I32And => Some((ValueType::I32, NumericOp::And)),
            Opcode::I32Or => Some((ValueType::I32, NumericOp::Or)),
            Opcode::I32Xor => Some((ValueType::I32, NumericOp::Xor)),
            Opcode::I64Eq => Some((ValueType::I64, NumericOp::Eq)),
            Opcode::I64Ne => Some((ValueType::I64, NumericOp::Ne)),
            Opcode::I64LtS => Some((ValueType::I64, NumericOp::Lt)),
            Opcode::I64LtU => Some((ValueType::I64, NumericOp::LtU)),
            Opcode::I64GtS => Some((ValueType::I64, NumericOp::Gt)),
            Opcode::I64GtU => Some((ValueType::I64, NumericOp::GtU)),
            Opcode::I64LeS => Some((ValueType::I64, NumericOp::Le)),
            Opcode::I64LeU => Some((ValueType::I64, NumericOp::LeU)),
            Opcode::I64GeS => Some((ValueType::I64, NumericOp::Ge)),
            Opcode::I64GeU => Some((ValueType::I64, NumericOp::GeU)),
            Opcode::I64Add => Some((ValueType::I64, NumericOp::Add)),
            Opcode::I64Sub => Some((ValueType::I64, NumericOp::Sub)),
            Opcode::I64Mul => Some((ValueType::I64, NumericOp::Mul)),
            Opcode::I64DivS => Some((ValueType::I64, NumericOp::Div)),
            Opcode::I64DivU => Some((ValueType::I64, NumericOp::DivU)),
            Opcode::I64RemS => Some((ValueType::I64, NumericOp::Rem)),
            Opcode::I64RemU => Some((ValueType::I64, NumericOp::RemU)),
            Opcode::I64And => Some((ValueType::I64, NumericOp::And)),
            Opcode::I64Or => Some((ValueType::I64, NumericOp::Or)),
            Opcode::I64Xor => Some((ValueType::I64, NumericOp::Xor)),
            Opcode::F32Eq => Some((ValueType::F32, NumericOp::Eq)),
            Opcode::F32Ne => Some((ValueType::F32, NumericOp::Ne)),
            Opcode::F32Lt => Some((ValueType::F32, NumericOp::Lt)),
            Opcode::F32Gt => Some((ValueType::F32, NumericOp::Gt)),
            Opcode::F32Le => Some((ValueType::F32, NumericOp::Le)),
            Opcode::F32Ge => Some((ValueType::F32, NumericOp::Ge)),
            Opcode::F32Add => Some((ValueType::F32, NumericOp::Add)),
            Opcode::F32Sub => Some((ValueType::F32, NumericOp::Sub)),
            Opcode::F32Mul => Some((ValueType::F32, NumericOp::Mul)),
            Opcode::F32Div => Some((ValueType::F32, NumericOp::Div)),
            Opcode::F64Eq => Some((ValueType::F64, NumericOp::Eq)),
            Opcode::F64Ne => Some((ValueType::F64, NumericOp::Ne)),
            Opcode::F64Lt => Some((ValueType::F64, NumericOp::Lt)),
            Opcode::F64Gt => Some((ValueType::F64, NumericOp::Gt)),
            Opcode::F64Le => Some((ValueType::F64, NumericOp::Le)),
            Opcode::F64Ge => Some((ValueType::F64, NumericOp::Ge)),
            Opcode::F64Add => Some((ValueType::F64, NumericOp::Add)),
            Opcode::F64Sub => Some((ValueType::F64, NumericOp::Sub)),
            Opcode::F64Mul => Some((ValueType::F64, NumericOp::Mul)),
            Opcode::F64Div => Some((ValueType::F64, NumericOp::Div)),
            _ => None,
        }
    }

    /// The operation on two numbers that this tag stands for, with the type
    /// of its operands; `None` for every other tag.
    #[verifier::when_used_as_spec(spec_numeric)]
    pub fn numeric(self) -> (r: Option<(ValueType, NumericOp)>)
        ensures
            r == self.spec_numeric(),
    {
        match self {
            Opcode::I32Eq => Some((ValueType::I32, NumericOp::Eq)),
            Opcode::I32Ne => Some((ValueType::I32, NumericOp::Ne)),
            Opcode::I32LtS => Some((ValueType::I32, NumericOp::Lt)),
            Opcode::I32LtU => Some((ValueType::I32, NumericOp::LtU)),
            Opcode::I32GtS => Some((ValueType::I32, NumericOp::Gt)),
            Opcode::I32GtU => Some((ValueType::I32, NumericOp::GtU)),
            Opcode::I32LeS => Some((ValueType::I32, NumericOp::Le)),
            Opcode::I32LeU => Some((ValueType::I32, NumericOp::LeU)),
            Opcode::I32GeS => Some((ValueType::I32, NumericOp::Ge)),
            Opcode::I32GeU => Some((ValueType::I32, NumericOp::GeU)),
            Opcode::I32Add => Some((ValueType::I32, NumericOp::Add)),
            Opcode::I32Sub => Some((ValueType::I32, NumericOp::Sub)),
            Opcode::I32Mul => Some((ValueType::I32, NumericOp::Mul)),
            Opcode::I32DivS => Some((ValueType::I32, NumericOp::Div)),
            Opcode::I32DivU => Some((ValueType::I32, NumericOp::DivU)),
            Opcode::I32RemS => Some((ValueType::I32, NumericOp::Rem)),
            Opcode::I32RemU => Some((ValueType::I32, NumericOp::RemU)),
            Opcode::I32And => Some((ValueType::I32, NumericOp::And)),
            Opcode::I32Or => Some((ValueType::I32, NumericOp::Or)),
            Opcode::I32Xor => Some((ValueType::I32, NumericOp::Xor)),
            Opcode::I64Eq => Some((ValueType::I64, NumericOp::Eq)),
            Opcode::I64Ne => Some((ValueType::I64, NumericOp::Ne)),
            Opcode::I64LtS => Some((ValueType::I64, NumericOp::Lt)),
            Opcode::I64LtU => Some((ValueType::I64, NumericOp::LtU)),
            Opcode::I64GtS => Some((ValueType::I64, NumericOp::Gt)),
            Opcode::I64GtU => Some((ValueType::I64, NumericOp::GtU)),
            Opcode::I64LeS => Some((ValueType::I64, NumericOp::Le)),
            Opcode::I64LeU => Some((ValueType::I64, NumericOp::LeU)),
            Opcode::I64GeS => Some((ValueType::I64, NumericOp::Ge)),
            Opcode::I64GeU => Some((ValueType::I64, NumericOp::GeU)),
            Opcode::I64Add => Some((ValueType::I64, NumericOp::Add)),
            Opcode::I64Sub => Some((ValueType::I64, NumericOp::Sub)),
            Opcode::I64Mul => Some((ValueType::I64, NumericOp::Mul)),
            Opcode::I64DivS => Some((ValueType::I64, NumericOp::Div)),
            Opcode::I64DivU => Some((ValueType::I64, NumericOp::DivU)),
            Opcode::I64RemS => Some((ValueType::I64, NumericOp::Rem)),
            Opcode::I64RemU => Some((ValueType::I64, NumericOp::RemU)),
            Opcode::I64And => Some((ValueType::I64, NumericOp::And)),
            Opcode::I64Or => Some((ValueType::I64, NumericOp::Or)),
            Opcode::I64Xor => Some((ValueType::I64, NumericOp::Xor)),
            Opcode::F32Eq => Some((ValueType::F32, NumericOp::Eq)),
            Opcode::F32Ne => Some((ValueType::F32, NumericOp::Ne)),
            Opcode::F32Lt => Some((ValueType::F32, NumericOp::Lt)),
            Opcode::F32Gt => Some((ValueType::F32, NumericOp::Gt)),
            Opcode::F32Le => Some((ValueType::F32, NumericOp::Le)),
            Opcode::F32Ge => Some((ValueType::F32, NumericOp::Ge)),
            Opcode::F32Add => Some((ValueType::F32, NumericOp::Add)),
            Opcode::F32Sub => Some((ValueType::F32, NumericOp::Sub)),
            Opcode::F32Mul => Some((ValueType::F32, NumericOp::Mul)),
            Opcode::F32Div => Some((ValueType::F32, NumericOp::Div)),
            Opcode::F64Eq => Some((ValueType::F64, NumericOp::Eq)),
            Opcode::F64Ne => Some((ValueType::F64, NumericOp::Ne)),
            Opcode::F64Lt => Some((ValueType::F64, NumericOp::Lt)),
            Opcode::F64Gt => Some((ValueType::F64, NumericOp::Gt)),
            Opcode::F64Le => Some((ValueType::F64, NumericOp::Le)),
            Opcode::F64Ge => Some((ValueType::F64, NumericOp::Ge)),
            Opcode::F64Add => Some((ValueType::F64, NumericOp::Add)),
            Opcode::F64Sub => Some((ValueType::F64, NumericOp::Sub)),
            Opcode::F64Mul => Some((ValueType::F64, NumericOp::Mul)),
            Opcode::F64Div => Some((ValueType::F64, NumericOp::Div)),
            _ => None,
        }
    }
}

/// 1 for true and 0 for false, as a number of 32 bits.
pub open spec fn flag(b: bool) -> RuntimeValue {
    if b {
        RuntimeValue::I32(1)
    } else {
        RuntimeValue::I32(0)
    }
}

fn truth(b: bool) -> (r: RuntimeValue)
    ensures
        r == flag(b),
{
    if b {
        RuntimeValue::I32(1)
    } else {
        RuntimeValue::I32(0)
    }
}

/// The quotient of `a` by `b`, rounded toward zero.
pub open spec fn quotient(a: int, b: int) -> int {
    if a == 0 {
        0
    } else if a > 0 && b > 0 {
        a / b
    } else if a < 0 && b < 0 {
        (a * -1) / (b * -1)
    } else if a < 0 {
        ((a * -1) / b) * -1
    } else {
        (a / (b * -1)) * -1
    }
}

/// What is left of `a` after the quotient by `b`: it has the sign of `a`.
pub open spec fn remainder(a: int, b: int) -> int {
    if a == 0 {
        0
    } else if a > 0 && b > 0 {
        a % b
    } else if a < 0 && b < 0 {
        ((a * -1) % (b * -1)) * -1
    } else if a < 0 {
        ((a * -1) % b) * -1
    } else {
        a % (b * -1)
    }
}

/// The quotient of two numbers of one width has that width, but for the
/// least number divided by -1. `min` is the least number of the width.
proof fn lemma_quotient_range(a: int, b: int, min: int)
    requires
        b != 0,
        min < -1,
        min <= a <= -min - 1,
        min <= b <= -min - 1,
        !(a == min && b == -1),
    ensures
        min <= quotient(a, b) <= -min - 1,
{
    if a == 0 {
    } else if a > 0 && b > 0 {
        lemma_div_pos_is_pos(a, b);
        lemma_div_nonincreasing(a, b);
    } else if a < 0 && b < 0 {
        lemma_div_pos_is_pos(-a, -b);
        lemma_div_nonincreasing(-a, -b);
        if a == min {
            lemma_div_is_ordered_by_denominator(-a, 2, -b);
        }
    } else if a < 0 {
        lemma_div_pos_is_pos(-a, b);
        lemma_div_nonincreasing(-a, b);
    } else {
        lemma_div_pos_is_pos(a, -b);
        lemma_div_nonincreasing(a, -b);
    }
}

/// The remainder of two numbers of one width has that width. `min` is the
/// least number of the width.
proof fn lemma_remainder_range(a: int, b: int, min: int)
    requires
        b != 0,
        min < -1,
        min <= a <= -min - 1,
        min <= b <= -min - 1,
    ensures
        min <= remainder(a, b) <= -min - 1,
{
    if a == 0 {
    } else if a > 0 && b > 0 {
        lemma_mod_pos_bound(a, b);
    } else if a < 0 && b < 0 {
        lemma_mod_pos_bound(-a, -b);
    } else if a < 0 {
        lemma_mod_pos_bound(-a, b);
    } else {
        lemma_mod_pos_bound(a, -b);
    }
}

/// What `op` makes of two numbers of 32 bits: a comparison gives 1 or 0 as
/// a number of 32 bits, the other operations a number of 32 bits, cut to
/// that width. There is none where the divisor is zero.
pub open spec fn apply_i32(op: NumericOp, a: i32, b: i32) -> Option<RuntimeValue> {
    match op {
        NumericOp::Eq => Some(flag(a == b)),
        NumericOp::Ne => Some(flag(a != b)),
        NumericOp::Lt => Some(flag(a < b)),
        NumericOp::LtU => Some(flag((a as u32) < (b as u32))),
        NumericOp::Gt => Some(flag(a > b)),
        NumericOp::GtU => Some(flag((a as u32) > (b as u32))),
        NumericOp::Le => Some(flag(a <= b)),
        NumericOp::LeU => Some(flag((a as u32) <= (b as u32))),
        NumericOp::Ge => Some(flag(a >= b)),
        NumericOp::GeU => Some(flag((a as u32) >= (b as u32))),
        NumericOp::Add => Some(RuntimeValue::I32(a.wrapping_add(b))),
        NumericOp::Sub => Some(RuntimeValue::I32(a.wrapping_sub(b))),
        NumericOp::Mul => Some(RuntimeValue::I32(a.wrapping_mul(b))),
        NumericOp::Div => if b == 0 {
            None
        } else if a == i32::MIN && b == -1 {
            Some(RuntimeValue::I32(i32::MIN))
        } else {
            Some(RuntimeValue::I32(quotient(a as int, b as int) as i32))
        },
        NumericOp::DivU => if b == 0 {
            None
        } else {
            Some(RuntimeValue::I32(((a as u32) / (b as u32)) as i32))
        },
        NumericOp::Rem => if b == 0 {
            None
        } else if a == i32::MIN && b == -1 {
            Some(RuntimeValue::I32(0))
        } else {
            Some(RuntimeValue::I32(remainder(a as int, b as int) as i32))
        },
        NumericOp::RemU => if b == 0 {
            None
        } else {
            Some(RuntimeValue::I32(((a as u32) % (b as u32)) as i32))
        },
        NumericOp::And => Some(RuntimeValue::I32(a & b)),
        NumericOp::Or => Some(RuntimeValue::I32(a | b)),
        NumericOp::Xor => Some(RuntimeValue::I32(a ^ b)),
    }
}

fn compute_i32(op: NumericOp, a: i32, b: i32) -> (r: Option<RuntimeValue>)
    ensures
        r == apply_i32(op, a, b),
{
    match op {
        NumericOp::Eq => Some(truth(a == b)),
        NumericOp::Ne => Some(truth(a != b)),
        NumericOp::Lt => Some(truth(a < b)),
        NumericOp::LtU => Some(truth((a as u32) < (b as u32))),
        NumericOp::Gt => Some(truth(a > b)),
        NumericOp::GtU => Some(truth((a as u32) > (b as u32))),
        NumericOp::Le => Some(truth(a <= b)),
        NumericOp::LeU => Some(truth((a as u32) <= (b as u32))),
        NumericOp::Ge => Some(truth(a >= b)),
        NumericOp::GeU => Some(truth((a as u32) >= (b as u32))),
        NumericOp::Add => Some(RuntimeValue::I32(a.wrapping_add(b))),
        NumericOp::Sub => Some(RuntimeValue::I32(a.wrapping_sub(b))),
        NumericOp::Mul => Some(RuntimeValue::I32(a.wrapping_mul(b))),
        NumericOp::Div => if b == 0 {
            None
        } else {
            proof {
                if !(a == i32::MIN && b == -1) {
                    lemma_quotient_range(a as int, b as int, i32::MIN as int);
                }
            }
            match a.checked_div(b) {
                Some(q) => Some(RuntimeValue::I32(q)),
                None => Some(RuntimeValue::I32(i32::MIN)),
            }
        },
        NumericOp::DivU => if b == 0 {
            None
        } else {
            assert(b != 0 ==> (b as u32) != 0) by (bit_vector);
            Some(RuntimeValue::I32(((a as u32) / (b as u32)) as i32))
        },
        NumericOp::Rem => if b == 0 {
            None
        } else {
            proof {
                lemma_remainder_range(a as int, b as int, i32::MIN as int);
            }
            match a.checked_rem(b) {
                Some(q) => Some(RuntimeValue::I32(q)),
                None => Some(RuntimeValue::I32(0)),
            }
        },
        NumericOp::RemU => if b == 0 {
            None
        } else {
            assert(b != 0 ==> (b as u32) != 0) by (bit_vector);
            Some(RuntimeValue::I32(((a as u32) % (b as u32)) as i32))
        },
        NumericOp::And => Some(RuntimeValue::I32(a & b)),
        NumericOp::Or => Some(RuntimeValue::I32(a | b)),
        NumericOp::Xor => Some(RuntimeValue::I32(a ^ b)),
    }
}

/// What `op` makes of two numbers of 64 bits: a comparison gives 1 or 0 as
/// a number of 32 bits, the other operations a number of 64 bits, cut to
/// that width. There is none where the divisor is zero.
pub open spec fn apply_i64(op: NumericOp, a: i64, b: i64) -> Option<RuntimeValue> {
    match op {
        NumericOp::Eq => Some(flag(a == b)),
        NumericOp::Ne => Some(flag(a != b)),
        NumericOp::Lt => Some(flag(a < b)),
        NumericOp::LtU => Some(flag((a as u64) < (b as u64))),
        NumericOp::Gt => Some(flag(a > b)),
        NumericOp::GtU => Some(flag((a as u64) > (b as u64))),
        NumericOp::Le => Some(flag(a <= b)),
        NumericOp::LeU => Some(flag((a as u64) <= (b as u64))),
        NumericOp::Ge => Some(flag(a >= b)),
        NumericOp::GeU => Some(flag((a as u64) >= (b as u64))),
        NumericOp::Add => Some(RuntimeValue::I64(a.wrapping_add(b))),
        NumericOp::Sub => Some(RuntimeValue::I64(a.wrapping_sub(b))),
        NumericOp::Mul => Some(RuntimeValue::I64(a.wrapping_mul(b))),
        NumericOp::Div => if b == 0 {
            None
        } else if a == i64::MIN && b == -1 {
            Some(RuntimeValue::I64(i64::MIN))
        } else {
            Some(RuntimeValue::I64(quotient(a as int, b as int) as i64))
        },
        NumericOp::DivU => if b == 0 {
            None
        } else {
            Some(RuntimeValue::I64(((a as u64) / (b as u64)) as i64))
        },
        NumericOp::Rem => if b == 0 {
            None
        } else if a == i64::MIN && b == -1 {
            Some(RuntimeValue::I64(0))
        } else {
            Some(RuntimeValue::I64(remainder(a as int, b as int) as i64))
        },
        NumericOp::RemU => if b == 0 {
            None
        } else {
            Some(RuntimeValue::I64(((a as u64) % (b as u64)) as i64))
        },
        NumericOp::And => Some(RuntimeValue::I64(a & b)),
        NumericOp::Or => Some(RuntimeValue::I64(a | b)),
        NumericOp::Xor => Some(RuntimeValue::I64(a ^ b)),
    }
}

fn compute_i64(op: NumericOp, a: i64, b: i64) -> (r: Option<RuntimeValue>)
    ensures
        r == apply_i64(op, a, b),
{
    match op {
        NumericOp::Eq => Some(truth(a == b)),
        NumericOp::Ne => Some(truth(a != b)),
        NumericOp::Lt => Some(truth(a < b)),
        NumericOp::LtU => Some(truth((a as u64) < (b as u64))),
        NumericOp::Gt => Some(truth(a > b)),
        NumericOp::GtU => Some(truth((a as u64) > (b as u64))),
        NumericOp::Le => Some(truth(a <= b)),
        NumericOp::LeU => Some(truth((a as u64) <= (b as u64))),
        NumericOp::Ge => Some(truth(a >= b)),
        NumericOp::GeU => Some(truth((a as u64) >= (b as u64))),
        NumericOp::Add => Some(RuntimeValue::I64(a.wrapping_add(b))),
        NumericOp::Sub => Some(RuntimeValue::I64(a.wrapping_sub(b))),
        NumericOp::Mul => Some(RuntimeValue::I64(a.wrapping_mul(b))),
        NumericOp::Div => if b == 0 {
            None
        } else {
            proof {
                if !(a == i64::MIN && b == -1) {
                    lemma_quotient_range(a as int, b as int, i64::MIN as int);
                }
            }
            match a.checked_div(b) {
                Some(q) => Some(RuntimeValue::I64(q)),
                None => Some(RuntimeValue::I64(i64::MIN)),
            }
        },
        NumericOp::DivU => if b == 0 {
            None
        } else {
            assert(b != 0 ==> (b as u64) != 0) by (bit_vector);
            Some(RuntimeValue::I64(((a as u64) / (b as u64)) as i64))
        },
        NumericOp::Rem => if b == 0 {
            None
        } else {
            proof {
                lemma_remainder_range(a as int, b as int, i64::MIN as int);
            }
            match a.checked_rem(b) {
                Some(q) => Some(RuntimeValue::I64(q)),
                None => Some(RuntimeValue::I64(0)),
            }
        },
        NumericOp::RemU => if b == 0 {
            None
        } else {
            assert(b != 0 ==> (b as u64) != 0) by (bit_vector);
            Some(RuntimeValue::I64(((a as u64) % (b as u64)) as i64))
        },
        NumericOp::And => Some(RuntimeValue::I64(a & b)),
        NumericOp::Or => Some(RuntimeValue::I64(a | b)),
        NumericOp::Xor => Some(RuntimeValue::I64(a ^ b)),
    }
}

/// What `op` at the type `ty` makes of `a` and `b` in integer arithmetic.
///
/// Both operands are first brought to the width of `ty`. A floating-point
/// type or operand is `Unimplemented` here: that arithmetic is not done in
/// integers. A divisor of zero is `DivisionByZero`.
pub open spec fn integer_result(ty: ValueType, op: NumericOp, a: RuntimeValue, b: RuntimeValue)
    -> Result<RuntimeValue, RuntimeErrorView> {
    if a.is_float() || b.is_float() {
        Err(RuntimeErrorView::Unimplemented)
    } else if ty == ValueType::I32 {
        match apply_i32(op, a.to_i32()->Some_0, b.to_i32()->Some_0) {
            Some(v) => Ok(v),
            None => Err(RuntimeErrorView::DivisionByZero),
        }
    } else if ty == ValueType::I64 {
        match apply_i64(op, a.to_i64()->Some_0, b.to_i64()->Some_0) {
            Some(v) => Ok(v),
            None => Err(RuntimeErrorView::DivisionByZero),
        }
    } else {
        Err(RuntimeErrorView::Unimplemented)
    }
}

/// Carries out `op` at the type `ty` on `a` and `b` in integer arithmetic.
pub fn apply_integer(ty: ValueType, op: NumericOp, a: RuntimeValue, b: RuntimeValue) -> (r: Result<
    RuntimeValue,
    RuntimeError,
>)
    ensures
        crate::runtime::error::yields(r, integer_result(ty, op, a, b)),
{
    match ty {
        ValueType::I32 => match (a.to_i32(), b.to_i32()) {
            (Some(x), Some(y)) => match compute_i32(op, x, y) {
                Some(v) => Ok(v),
                None => Err(RuntimeError::DivisionByZero),
            },
            _ => Err(RuntimeError::Unimplemented),
        },
        ValueType::I64 => match (a.to_i64(), b.to_i64()) {
            (Some(x), Some(y)) => match compute_i64(op, x, y) {
                Some(v) => Ok(v),
                None => Err(RuntimeError::DivisionByZero),
            },
            _ => Err(RuntimeError::Unimplemented),
        },
        _ => Err(RuntimeError::Unimplemented),
    }
}

} // verus!
