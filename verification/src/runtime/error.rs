use crate::types::ValueType;
use vstd::prelude::*;
use vstd::std_specs::cmp::PartialEqSpecImpl;
use vstd::string::StringExecFns;

verus! {

/// Why an invocation stopped short.
#[derive(Debug)]
pub enum RuntimeError {
    /// What the text names is not there: an export, a function, a local.
    NotFound(String),
    ExpectCodeSection,
    /// An instruction needs more operands than the value stack holds.
    ExpectValueStack,
    ExpectLabelStack,
    /// There is no call frame to run in.
    ExpectActivationStack,
    /// The instruction is not one that this interpreter carries out.
    Unimplemented,
    /// The types that the function declares, then those of the arguments.
    InvalidArgs(Vec<ValueType>, Vec<ValueType>),
    /// An integer division or remainder with a divisor of zero.
    DivisionByZero,
    /// An access that the memory cannot grow to hold.
    MemoryOutOfBounds,
    /// The type, function and code sections of a module do not fit
    /// together.
    InconsistentModule,
    Custom(String),
}

/// An error as sequences.
pub enum RuntimeErrorView {
    NotFound(Seq<char>),
    ExpectCodeSection,
    ExpectValueStack,
    ExpectLabelStack,
    ExpectActivationStack,
    Unimplemented,
    InvalidArgs(Seq<ValueType>, Seq<ValueType>),
    DivisionByZero,
    MemoryOutOfBounds,
    InconsistentModule,
    Custom(Seq<char>),
}

impl View for RuntimeError {
    type V = RuntimeErrorView;

    open spec fn view(&self) -> RuntimeErrorView {
        match self {
            RuntimeError::NotFound(name) => RuntimeErrorView::NotFound(name@),
            RuntimeError::ExpectCodeSection => RuntimeErrorView::ExpectCodeSection,
            RuntimeError::ExpectValueStack => RuntimeErrorView::ExpectValueStack,
            RuntimeError::ExpectLabelStack => RuntimeErrorView::ExpectLabelStack,
            RuntimeError::ExpectActivationStack => RuntimeErrorView::ExpectActivationStack,
            RuntimeError::Unimplemented => RuntimeErrorView::Unimplemented,
            RuntimeError::InvalidArgs(expect, actual) => RuntimeErrorView::InvalidArgs(
                expect@,
                actual@,
            ),
            RuntimeError::DivisionByZero => RuntimeErrorView::DivisionByZero,
            RuntimeError::MemoryOutOfBounds => RuntimeErrorView::MemoryOutOfBounds,
            RuntimeError::InconsistentModule => RuntimeErrorView::InconsistentModule,
            RuntimeError::Custom(s) => RuntimeErrorView::Custom(s@),
        }
    }
}

/// The name of a value type, as it is written.
pub open spec fn written(t: ValueType) -> Seq<char> {
    match t {
        ValueType::I32 => "I32"@,
        ValueType::I64 => "I64"@,
        ValueType::F32 => "F32"@,
        ValueType::F64 => "F64"@,
        ValueType::Unknown => "Unknown"@,
    }
}

/// The names of the types of `ts`, with a comma and a blank between two.
pub open spec fn names_of_types(ts: Seq<ValueType>) -> Seq<char>
    decreases ts.len(),
{
    if ts.len() == 0 {
        Seq::empty()
    } else if ts.len() == 1 {
        written(ts[0])
    } else {
        names_of_types(ts.drop_last()) + ", "@ + written(ts.last())
    }
}

/// A list of types as text: their names in square brackets.
pub open spec fn type_list(ts: Seq<ValueType>) -> Seq<char> {
    "["@ + names_of_types(ts) + "]"@
}

impl RuntimeErrorView {
    /// The text of the message.
    pub open spec fn text(self) -> Seq<char> {
        match self {
            RuntimeErrorView::NotFound(name) => "'"@ + name + "'' is not found"@,
            RuntimeErrorView::ExpectCodeSection =>
                "not found code section. wai is expected code section"@,
            RuntimeErrorView::ExpectValueStack => "expect value stack, but nothing"@,
            RuntimeErrorView::ExpectLabelStack => "expect label stack, but nothing"@,
            RuntimeErrorView::ExpectActivationStack => "expect activation stack, but nothing"@,
            RuntimeErrorView::Unimplemented => "unimplemented"@,
            RuntimeErrorView::InvalidArgs(expect, actual) => "Invalid argument: expect "@
                + type_list(expect) + ",but got "@ + type_list(actual),
            RuntimeErrorView::DivisionByZero => "division by zero"@,
            RuntimeErrorView::MemoryOutOfBounds => "memory access out of bounds"@,
            RuntimeErrorView::InconsistentModule =>
                "type, function and code sections do not fit together"@,
            RuntimeErrorView::Custom(s) => s,
        }
    }
}

fn name_of(t: ValueType) -> (r: &'static str)
    ensures
        r@ == written(t),
{
    match t {
        ValueType::I32 => "I32",
        ValueType::I64 => "I64",
        ValueType::F32 => "F32",
        ValueType::F64 => "F64",
        ValueType::Unknown => "Unknown",
    }
}

/// Writes a list of types behind `out`.
fn append_type_list(out: &mut String, ts: &Vec<ValueType>)
    ensures
        final(out)@ == old(out)@ + type_list(ts@),
{
    out.append("[");
    let mut i: usize = 0;
    while i < ts.len()
        invariant
            i <= ts.len(),
            out@ == old(out)@ + "["@ + names_of_types(ts@.take(i as int)),
        decreases ts.len() - i,
    {
        if i > 0 {
            out.append(", ");
        }
        out.append(name_of(ts[i]));
        proof {
            let now = ts@.take(i + 1);
            assert(now.drop_last() =~= ts@.take(i as int));
            assert(now.last() == ts@[i as int]);
            if i == 0 {
                assert(names_of_types(ts@.take(0)) =~= Seq::<char>::empty());
                assert(out@ =~= old(out)@ + "["@ + names_of_types(now));
            } else {
                assert(out@ =~= old(out)@ + "["@ + names_of_types(now));
            }
        }
        i += 1;
    }
    out.append("]");
    assert(ts@.take(ts@.len() as int) =~= ts@);
    assert(out@ =~= old(out)@ + type_list(ts@));
}

impl RuntimeError {
    /// A message for people.
    pub fn message(&self) -> (r: String)
        ensures
            r@ == self@.text(),
    {
        match self {
            RuntimeError::NotFound(name) => {
                let mut out = String::from_str("'");
                out.append(name.as_str());
                out.append("'' is not found");
                out
            },
            RuntimeError::ExpectCodeSection => String::from_str(
                "not found code section. wai is expected code section",
            ),
            RuntimeError::ExpectValueStack => String::from_str("expect value stack, but nothing"),
            RuntimeError::ExpectLabelStack => String::from_str("expect label stack, but nothing"),
            RuntimeError::ExpectActivationStack => String::from_str(
                "expect activation stack, but nothing",
            ),
            RuntimeError::Unimplemented => String::from_str("unimplemented"),
            RuntimeError::InvalidArgs(expect, actual) => {
                let mut out = String::from_str("Invalid argument: expect ");
                append_type_list(&mut out, expect);
                out.append(",but got ");
                append_type_list(&mut out, actual);
                assert(out@ =~= self@.text());
                out
            },
            RuntimeError::DivisionByZero => String::from_str("division by zero"),
            RuntimeError::MemoryOutOfBounds => String::from_str("memory access out of bounds"),
            RuntimeError::InconsistentModule => String::from_str(
                "type, function and code sections do not fit together",
            ),
            RuntimeError::Custom(s) => s.clone(),
        }
    }
}

/// Whether two lists of types hold the same types in the same order.
fn same_types(a: &Vec<ValueType>, b: &Vec<ValueType>) -> (r: bool)
    ensures
        r == (a@ == b@),
{
    if a.len() != b.len() {
        return false;
    }
    let mut i: usize = 0;
    while i < a.len()
        invariant
            i <= a.len(),
            a.len() == b.len(),
            a@.take(i as int) == b@.take(i as int),
        decreases a.len() - i,
    {
        if a[i] != b[i] {
            assert(a@[i as int] != b@[i as int]);
            return false;
        }
        i += 1;
        assert(a@.take(i as int) =~= a@.take(i - 1).push(a@[i - 1]));
        assert(b@.take(i as int) =~= b@.take(i - 1).push(b@[i - 1]));
    }
    assert(a@ =~= a@.take(i as int));
    assert(b@ =~= b@.take(i as int));
    true
}

impl PartialEq for RuntimeError {
    /// Two errors are equal where they are of one kind and carry the same
    /// text or the same types.
    fn eq(&self, other: &Self) -> (r: bool) {
        match (self, other) {
            (RuntimeError::NotFound(a), RuntimeError::NotFound(b)) => *a == *b,
            (RuntimeError::ExpectCodeSection, RuntimeError::ExpectCodeSection) => true,
            (RuntimeError::ExpectValueStack, RuntimeError::ExpectValueStack) => true,
            (RuntimeError::ExpectLabelStack, RuntimeError::ExpectLabelStack) => true,
            (RuntimeError::ExpectActivationStack, RuntimeError::ExpectActivationStack) => true,
            (RuntimeError::Unimplemented, RuntimeError::Unimplemented) => true,
            (RuntimeError::InvalidArgs(a, b), RuntimeError::InvalidArgs(c, d)) => same_types(a, c)
                && same_types(b, d),
            (RuntimeError::DivisionByZero, RuntimeError::DivisionByZero) => true,
            (RuntimeError::MemoryOutOfBounds, RuntimeError::MemoryOutOfBounds) => true,
            (RuntimeError::InconsistentModule, RuntimeError::InconsistentModule) => true,
            (RuntimeError::Custom(a), RuntimeError::Custom(b)) => *a == *b,
            _ => false,
        }
    }
}

impl PartialEqSpecImpl for RuntimeError {
    open spec fn obeys_eq_spec() -> bool {
        true
    }

    open spec fn eq_spec(&self, other: &RuntimeError) -> bool {
        self@ == other@
    }
}

/// `r` is the value `v`, or an error whose view is `e`.
pub open spec fn yields<T>(r: Result<T, RuntimeError>, p: Result<T, RuntimeErrorView>) -> bool {
    match p {
        Ok(v) => r is Ok && r->Ok_0 == v,
        Err(e) => r is Err && r->Err_0@ == e,
    }
}

} // verus!
