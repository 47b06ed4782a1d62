use crate::instruction::{views, Instruction, InstructionView};
use crate::module::{Module, ModuleView};
use crate::runtime::error::{RuntimeError, RuntimeErrorView};
use crate::types::ValueType;
use vstd::prelude::*;

verus! {

/// A function that can be called: its signature and its instructions.
pub struct Function {
    pub params: Vec<ValueType>,
    pub returns: Vec<ValueType>,
    pub code: Vec<Instruction>,
}

/// A function as sequences.
pub struct FunctionView {
    pub params: Seq<ValueType>,
    pub returns: Seq<ValueType>,
    pub code: Seq<InstructionView>,
}

impl View for Function {
    type V = FunctionView;

    open spec fn view(&self) -> FunctionView {
        FunctionView { params: self.params@, returns: self.returns@, code: views(self.code@) }
    }
}

impl Function {
    pub fn new(params: Vec<ValueType>, results: Vec<ValueType>, code: Vec<Instruction>) -> (r:
        Self)
        ensures
            r.params == params,
            r.returns == results,
            r.code == code,
    {
        Self { params, returns: results, code }
    }
}

/// The functions of a module, by index.
pub struct FunctionTable(pub Vec<Function>);

impl View for FunctionTable {
    type V = Seq<FunctionView>;

    open spec fn view(&self) -> Seq<FunctionView> {
        self.0@.map_values(|f: Function| f@)
    }
}

/// The module has the three sections that functions are made of.
pub open spec fn complete(m: ModuleView) -> bool {
    &&& m.function_section is Some
    &&& m.type_section is Some
    &&& m.code_section is Some
}

/// The type section holds the signature that the function section names for
/// the function of index `i`.
pub open spec fn has_signature(m: ModuleView, i: int) -> bool {
    m.function_section->Some_0[i] < m.type_section->Some_0.len()
}

/// The three sections fit together: there are as many bodies as function
/// indices, and a signature for every function index.
pub open spec fn consistent(m: ModuleView) -> bool {
    &&& m.function_section->Some_0.len() == m.code_section->Some_0.len()
    &&& forall|i: int|
        0 <= i < m.function_section->Some_0.len() ==> #[trigger] has_signature(m, i)
}

/// The function of index `i` of a module whose sections fit together: the
/// signature that the function section names for it, with the instructions
/// of its body.
pub open spec fn function_of(m: ModuleView, i: int) -> FunctionView {
    let t = m.type_section->Some_0[m.function_section->Some_0[i] as int];
    FunctionView { params: t.params, returns: t.returns, code: m.code_section->Some_0[i].code }
}

/// The functions of a module: one for each body where the module has the
/// three sections and they fit together, none else.
pub open spec fn functions_of(m: ModuleView) -> Seq<FunctionView> {
    if complete(m) && consistent(m) {
        Seq::new(m.code_section->Some_0.len(), |i: int| function_of(m, i))
    } else {
        Seq::empty()
    }
}

impl FunctionTable {
    fn empty() -> (r: Self)
        ensures
            r@ == Seq::<FunctionView>::empty(),
    {
        let r = Self(Vec::new());
        assert(r@ =~= Seq::<FunctionView>::empty());
        r
    }

    /// Makes the table of the functions of a module.
    ///
    /// A module that lacks a section of the three has no functions: its
    /// table is empty. A module that has the three, but not as many bodies as
    /// function indices, or a function index without a signature, is
    /// refused as `InconsistentModule`.
    pub fn from_module(m: &Module) -> (r: Result<Self, RuntimeError>)
        ensures
            !complete(m@) ==> r is Ok && r->Ok_0@ == Seq::<FunctionView>::empty(),
            complete(m@) && !consistent(m@) ==> r is Err && r->Err_0@
                == RuntimeErrorView::InconsistentModule,
            complete(m@) && consistent(m@) ==> r is Ok && r->Ok_0@ == functions_of(m@),
    {
        let funcs = match m.function_section.as_ref() {
            Some(c) => c,
            None => return Ok(Self::empty()),
        };
        let types = match m.type_section.as_ref() {
            Some(c) => c,
            None => return Ok(Self::empty()),
        };
        let codes = match m.code_section.as_ref() {
            Some(c) => c,
            None => return Ok(Self::empty()),
        };
        if funcs.types.len() != codes.bodies.len() {
            return Err(RuntimeError::InconsistentModule);
        }
        let mut f: Vec<Function> = Vec::new();
        let mut i: usize = 0;
        while i < codes.bodies.len()
            invariant
                i <= codes.bodies.len(),
                funcs.types.len() == codes.bodies.len(),
                m@.function_section == Some(funcs@),
                m@.type_section == Some(types@),
                m@.code_section == Some(codes@),
                f@.len() == i,
                forall|j: int| 0 <= j < i ==> #[trigger] has_signature(m@, j),
                forall|j: int| 0 <= j < i ==> (#[trigger] f@[j])@ == function_of(m@, j),
            decreases codes.bodies.len() - i,
        {
            let type_index = funcs.types[i] as usize;
            if type_index >= types.entries.len() {
                assert(!has_signature(m@, i as int));
                return Err(RuntimeError::InconsistentModule);
            }
            let t = &types.entries[type_index];
            let func_body = &codes.bodies[i];
            let function = Function::new(t.params.clone(), t.returns.clone(), func_body.code.clone());
            assert(function.code@.len() == func_body.code@.len());
            assert(views(function.code@) =~= views(func_body.code@));
            f.push(function);
            i += 1;
        }
        let r = Self(f);
        assert(r@ =~= functions_of(m@));
        Ok(r)
    }

    pub fn get(&self, i: usize) -> (r: Option<&Function>)
        ensures
            i < self.0@.len() ==> r == Some(&self.0@[i as int]),
            i >= self.0@.len() ==> r is None,
    {
        if i < self.0.len() {
            Some(&self.0[i])
        } else {
            None
        }
    }
}

} // verus!
