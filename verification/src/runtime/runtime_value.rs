use crate::types::ValueType;
use vstd::prelude::*;
use vstd::std_specs::convert::FromSpecImpl;

verus! {

/// A value on the stack or in a local. A floating-point value is held as its
/// bit pattern.
#[derive(Clone, Copy, Debug, PartialEq, Eq, Structural)]
pub enum RuntimeValue {
    I32(i32),
    I64(i64),
    /// The bits of a single-precision number.
    F32(u32),
    /// The bits of a double-precision number.
    F64(u64),
    V128(u128),
}

impl RuntimeValue {
    /// The type of this value; a vector has `Unknown`.
    pub open spec fn spec_to_type(&self) -> ValueType {
        match self {
            RuntimeValue::I32(_) => ValueType::I32,
            RuntimeValue::I64(_) => ValueType::I64,
            RuntimeValue::F32(_) => ValueType::F32,
            RuntimeValue::F64(_) => ValueType::F64,
            RuntimeValue::V128(_) => ValueType::Unknown,
        }
    }

    /// The type of this value; a vector has `Unknown`.
    #[verifier::when_used_as_spec(spec_to_type)]
    pub fn to_type(&self) -> (r: ValueType)
        ensures
            r == self.spec_to_type(),
    {
        match self {
            RuntimeValue::I32(_) => ValueType::I32,
            RuntimeValue::I64(_) => ValueType::I64,
            RuntimeValue::F32(_) => ValueType::F32,
            RuntimeValue::F64(_) => ValueType::F64,
            RuntimeValue::V128(_) => ValueType::Unknown,
        }
    }

    /// This value is a floating-point number.
    pub open spec fn spec_is_float(&self) -> bool {
        self is F32 || self is F64
    }

    /// This value is a floating-point number.
    #[verifier::when_used_as_spec(spec_is_float)]
    pub fn is_float(&self) -> (r: bool)
        ensures
            r == self.spec_is_float(),
    {
        match self {
            RuntimeValue::F32(_) => true,
            RuntimeValue::F64(_) => true,
            _ => false,
        }
    }

    /// This value cut to 32 bits and read as signed; a floating-point value
    /// has none.
    pub open spec fn spec_to_i32(&self) -> Option<i32> {
        match self {
            RuntimeValue::I32(x) => Some(*x),
            RuntimeValue::I64(x) => Some(*x as i32),
            RuntimeValue::V128(x) => Some(*x as i32),
            _ => None,
        }
    }

    /// This value cut to 32 bits and read as signed; a floating-point value
    /// has none.
    #[verifier::when_used_as_spec(spec_to_i32)]
    pub fn to_i32(&self) -> (r: Option<i32>)
        ensures
            r == self.spec_to_i32(),
    {
        match self {
            RuntimeValue::I32(x) => Some(*x),
            RuntimeValue::I64(x) => Some(*x as i32),
            RuntimeValue::V128(x) => Some(*x as i32),
            _ => None,
        }
    }

    /// This value cut to 32 bits and read as unsigned; a floating-point
    /// value has none.
    pub open spec fn spec_to_u32(&self) -> Option<u32> {
        match self {
            RuntimeValue::I32(x) => Some(*x as u32),
            RuntimeValue::I64(x) => Some(*x as u32),
            RuntimeValue::V128(x) => Some(*x as u32),
            _ => None,
        }
    }

    /// This value cut to 32 bits and read as unsigned; a floating-point
    /// value has none.
    #[verifier::when_used_as_spec(spec_to_u32)]
    pub fn to_u32(&self) -> (r: Option<u32>)
        ensures
            r == self.spec_to_u32(),
    {
        match self {
            RuntimeValue::I32(x) => Some(*x as u32),
            RuntimeValue::I64(x) => Some(*x as u32),
            RuntimeValue::V128(x) => Some(*x as u32),
            _ => None,
        }
    }

    /// This value as a signed number of 64 bits, a shorter one keeping its
    /// sign and a longer one cut; a floating-point value has none.
    pub open spec fn spec_to_i64(&self) -> Option<i64> {
        match self {
            RuntimeValue::I32(x) => Some(*x as i64),
            RuntimeValue::I64(x) => Some(*x),
            RuntimeValue::V128(x) => Some(*x as i64),
            _ => None,
        }
    }

    /// This value as a signed number of 64 bits, a shorter one keeping its
    /// sign and a longer one cut; a floating-point value has none.
    #[verifier::when_used_as_spec(spec_to_i64)]
    pub fn to_i64(&self) -> (r: Option<i64>)
        ensures
            r == self.spec_to_i64(),
    {
        match self {
            RuntimeValue::I32(x) => Some(*x as i64),
            RuntimeValue::I64(x) => Some(*x),
            RuntimeValue::V128(x) => Some(*x as i64),
            _ => None,
        }
    }

    /// The low 32 bits of this value are not all zero.
    pub open spec fn truthy(&self) -> bool {
        match self {
            RuntimeValue::I32(x) => *x as u32 != 0,
            RuntimeValue::I64(x) => *x as u32 != 0,
            RuntimeValue::F32(x) => *x != 0,
            RuntimeValue::F64(x) => *x as u32 != 0,
            RuntimeValue::V128(x) => *x as u32 != 0,
        }
    }
}

impl From<RuntimeValue> for bool {
    fn from(v: RuntimeValue) -> (r: bool) {
        match v {
            RuntimeValue::I32(x) => x as u32 != 0,
            RuntimeValue::I64(x) => x as u32 != 0,
            RuntimeValue::F32(x) => x != 0,
            RuntimeValue::F64(x) => x as u32 != 0,
            RuntimeValue::V128(x) => x as u32 != 0,
        }
    }
}

impl FromSpecImpl<RuntimeValue> for bool {
    open spec fn obeys_from_spec() -> bool {
        true
    }

    open spec fn from_spec(v: RuntimeValue) -> bool {
        v.truthy()
    }
}

impl From<i32> for RuntimeValue {
    fn from(x: i32) -> (r: Self) {
        RuntimeValue::I32(x)
    }
}

impl FromSpecImpl<i32> for RuntimeValue {
    open spec fn obeys_from_spec() -> bool {
        true
    }

    open spec fn from_spec(x: i32) -> RuntimeValue {
        RuntimeValue::I32(x)
    }
}

impl From<u8> for RuntimeValue {
    fn from(x: u8) -> (r: Self) {
        RuntimeValue::I32(x as i32)
    }
}

impl FromSpecImpl<u8> for RuntimeValue {
    open spec fn obeys_from_spec() -> bool {
        true
    }

    open spec fn from_spec(x: u8) -> RuntimeValue {
        RuntimeValue::I32(x as i32)
    }
}

impl From<i64> for RuntimeValue {
    fn from(x: i64) -> (r: Self) {
        RuntimeValue::I64(x)
    }
}

impl FromSpecImpl<i64> for RuntimeValue {
    open spec fn obeys_from_spec() -> bool {
        true
    }

    open spec fn from_spec(x: i64) -> RuntimeValue {
        RuntimeValue::I64(x)
    }
}

/// The types of the values of `values`, in order.
pub open spec fn types_of(values: Seq<RuntimeValue>) -> Seq<ValueType> {
    values.map_values(|v: RuntimeValue| v.to_type())
}

/// The arguments have the declared types, one for one. A declared type that
/// is `Unknown` is had by no argument.
pub open spec fn fit(params: Seq<ValueType>, args: Seq<RuntimeValue>) -> bool {
    &&& types_of(args) == params
    &&& forall|i: int| 0 <= i < params.len() ==> #[trigger] params[i] != ValueType::Unknown
}

} // verus!
