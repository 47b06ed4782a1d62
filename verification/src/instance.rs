use crate::module::{Module, ModuleView};
use crate::runtime::error::RuntimeErrorView;
use crate::runtime::function_table::{complete, consistent, functions_of};
use crate::runtime::machine::RuntimeView;
use crate::runtime::runtime_value::{fit, types_of};
use crate::runtime::{FunctionTable, Memory, Runtime, RuntimeError, RuntimeValue, ValueStack};
use crate::types::{ExportEntryView, ValueType};
use vstd::prelude::*;
use vstd::string::StringExecFns;

verus! {

/// A module that is ready to run, with the memory that its invocations
/// share.
#[derive(Debug)]
pub struct Instance {
    pub module: Module,
    pub memory: Memory,
}

/// The index that the first export of the name `name` carries.
pub open spec fn resolve(exports: Seq<ExportEntryView>, name: Seq<char>) -> Option<usize>
    decreases exports.len(),
{
    if exports.len() == 0 {
        None
    } else if exports[0].field_str == name {
        Some(exports[0].index as usize)
    } else {
        resolve(exports.drop_first(), name)
    }
}

/// The index that a module exports under `name`: that of the first export of
/// that name, none where the module has no export section.
pub open spec fn exported(m: ModuleView, name: Seq<char>) -> Option<usize> {
    match m.export_section {
        None => None,
        Some(exports) => resolve(exports, name),
    }
}

/// The state in which an invocation starts: the functions of the module,
/// the memory of the instance, and nothing on any stack.
pub open spec fn fresh(m: ModuleView, memory: Seq<u8>) -> RuntimeView {
    RuntimeView {
        functions: functions_of(m),
        frames: Seq::empty(),
        stack: Seq::empty(),
        labels: Seq::empty(),
        memory,
        skip: None,
    }
}

/// The module exports a function under `name`, and `args` do not have the
/// types that the function declares, one for one.
pub open spec fn mismatched(m: ModuleView, name: Seq<char>, args: Seq<RuntimeValue>) -> bool {
    &&& exported(m, name) is Some
    &&& exported(m, name)->Some_0 < functions_of(m).len()
    &&& !fit(functions_of(m)[exported(m, name)->Some_0 as int].params, args)
}

/// What an invocation gives, and the memory that it leaves.
pub struct Invoked {
    pub result: Result<Seq<RuntimeValue>, RuntimeErrorView>,
    pub memory: Seq<u8>,
}

/// What invoking the export `name` of a module on `args` gives, the instance
/// having the memory `memory`.
///
/// A name that the module does not export is not found. A module whose
/// type, function and code sections do not fit together is refused as
/// inconsistent. A name that stands for no function of the module is not
/// found. Arguments that do not have the declared types, one for one, are
/// refused. In all these cases nothing runs and the memory stays as it is.
/// Else the function runs with empty stacks on the memory of the instance:
/// the value stack at the end of the run is the result, and the memory is as
/// the run leaves it.
pub open spec fn invoked(
    m: ModuleView,
    memory: Seq<u8>,
    name: Seq<char>,
    args: Seq<RuntimeValue>,
) -> Invoked {
    match exported(m, name) {
        None => Invoked { result: Err(RuntimeErrorView::NotFound(name)), memory },
        Some(index) => if complete(m) && !consistent(m) {
            Invoked { result: Err(RuntimeErrorView::InconsistentModule), memory }
        } else if index >= functions_of(m).len() {
            Invoked { result: Err(RuntimeErrorView::NotFound(name)), memory }
        } else if !fit(functions_of(m)[index as int].params, args) {
            Invoked {
                result: Err(
                    RuntimeErrorView::InvalidArgs(
                        functions_of(m)[index as int].params,
                        types_of(args),
                    ),
                ),
                memory,
            }
        } else {
            let fin = fresh(m, memory).entered(index, args).run();
            Invoked {
                result: match fin.fault {
                    None => Ok(fin.state.stack),
                    Some(e) => Err(e),
                },
                memory: fin.state.memory,
            }
        },
    }
}

impl Instance {
    /// An instance of a module, its memory as the module starts it.
    pub fn new(module: Module) -> (r: Self)
        ensures
            r.module == module,
            r.memory@ == Seq::<u8>::empty(),
    {
        let memory = Memory::new(Instance::init_memory(&module));
        Self { module, memory }
    }

    /// Runs the function that the module exports under `name` on `args`.
    ///
    /// A name that the module does not export is not found. A module whose
    /// sections do not fit together is refused as inconsistent. Arguments
    /// whose types are not those that the function declares, one for one,
    /// are refused. In these cases nothing runs, and the memory is not
    /// touched.
    pub fn invoke(&mut self, name: &str, args: Vec<RuntimeValue>) -> (r: Result<
        ValueStack,
        RuntimeError,
    >)
        ensures
            final(self).module == old(self).module,
            final(self).memory@ == invoked(
                old(self).module@,
                old(self).memory@,
                name@,
                args@,
            ).memory,
            match invoked(old(self).module@, old(self).memory@, name@, args@).result {
                Ok(values) => r is Ok && r->Ok_0@ == values,
                Err(e) => r is Err && r->Err_0@ == e,
            },
            exported(old(self).module@, name@) is None ==> r is Err && r->Err_0@
                == RuntimeErrorView::NotFound(name@) && final(self).memory@ == old(self).memory@,
            exported(old(self).module@, name@) is Some && complete(old(self).module@)
                && !consistent(old(self).module@) ==> r is Err && r->Err_0@
                == RuntimeErrorView::InconsistentModule && final(self).memory@ == old(self).memory@,
            mismatched(old(self).module@, name@, args@) ==> r is Err && r->Err_0@
                == RuntimeErrorView::InvalidArgs(
                functions_of(old(self).module@)[exported(old(self).module@, name@)->Some_0 as int].params,
                types_of(args@),
            ) && final(self).memory@ == old(self).memory@,
    {
        let index = self.resolve_function_name(name);
        let index = match index {
            None => return Err(RuntimeError::NotFound(String::from_str(name))),
            Some(i) => i,
        };
        let function_table = FunctionTable::from_module(&self.module)?;
        match function_table.get(index) {
            None => {
                return Err(RuntimeError::NotFound(String::from_str(name)));
            },
            Some(func) => {
                Instance::validate(func.params.as_slice(), args.as_slice())?;
            },
        }
        let mut memory = Memory::new(Vec::new());
        core::mem::swap(&mut self.memory, &mut memory);
        let mut runtime = Runtime::new(function_table, memory);
        assert(runtime@ =~= fresh(self.module@, old(self).memory@));
        let result = runtime.execute(index, args.as_slice());
        let Runtime { memory, .. } = runtime;
        self.memory = memory;
        result
    }

    /// The index that the module exports under `name`.
    #[verifier::loop_isolation(false)]
    pub fn resolve_function_name(&self, name: &str) -> (r: Option<usize>)
        ensures
            r == exported(self.module@, name@),
    {
        let exports = match &self.module.export_section {
            None => return None,
            Some(e) => e,
        };
        let wanted = String::from_str(name);
        let mut i: usize = 0;
        assert(exports@.skip(0) =~= exports@);
        while i < exports.entries.len()
            invariant
                i <= exports.entries.len(),
                wanted@ == name@,
                resolve(exports@.skip(i as int), name@) == resolve(exports@, name@),
            decreases exports.entries.len() - i,
        {
            assert(exports@.skip(i as int)[0] == exports.entries@[i as int]@);
            if exports.entries[i].field_str == wanted {
                return Some(exports.entries[i].index as usize);
            }
            assert(exports@.skip(i as int).drop_first() =~= exports@.skip(i + 1));
            i += 1;
        }
        None
    }

    /// The bytes that the memory of an instance starts with: none, as the
    /// data section of a module is not taken apart.
    fn init_memory(module: &Module) -> (r: Vec<u8>)
        ensures
            r@ == Seq::<u8>::empty(),
    {
        Vec::new()
    }

    /// Checks that the arguments have the types that a function declares, one
    /// for one. Where a declared type is `Unknown`, no arguments do.
    pub fn validate(func_type: &[ValueType], args: &[RuntimeValue]) -> (r: Result<
        (),
        RuntimeError,
    >)
        ensures
            fit(func_type@, args@) ==> r is Ok,
            !fit(func_type@, args@) ==> r is Err && r->Err_0@ == RuntimeErrorView::InvalidArgs(
                func_type@,
                types_of(args@),
            ),
    {
        crate::runtime::validate(func_type, args)
    }
}

} // verus!
