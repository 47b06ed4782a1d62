use crate::runtime::error::{yields, RuntimeError, RuntimeErrorView};
use crate::runtime::runtime_value::RuntimeValue;
use std::collections::HashMap;
use vstd::prelude::*;
use vstd::string::StringExecFns;

verus! {

broadcast use vstd::std_specs::hash::group_hash_axioms;

pub type Locals = HashMap<usize, RuntimeValue>;

/// The locals that a call starts with: the arguments, by position.
pub open spec fn locals_of(args: Seq<RuntimeValue>) -> Map<usize, RuntimeValue> {
    Map::new(|i: usize| i < args.len(), |i: usize| args[i as int])
}

/// The frame of one call in progress.
#[derive(Debug)]
pub struct Activation {
    pub pc: usize,
    pub function_index: usize,
    pub locals: Locals,
}

/// A frame, its locals as a map.
#[verifier::ext_equal]
pub struct ActivationView {
    pub pc: nat,
    pub function_index: usize,
    pub locals: Map<usize, RuntimeValue>,
}

impl View for Activation {
    type V = ActivationView;

    open spec fn view(&self) -> ActivationView {
        ActivationView {
            pc: self.pc as nat,
            function_index: self.function_index,
            locals: self.locals@,
        }
    }
}

impl Activation {
    /// The frame of a call that has not run yet.
    pub fn new(function_index: usize, locals: Locals) -> (r: Self)
        ensures
            r@ == (ActivationView { pc: 0, function_index, locals: locals@ }),
    {
        Self { function_index, locals, pc: 0 }
    }
}

/// The frames of the calls in progress, the innermost last.
#[derive(Debug)]
pub struct ActivationStack(pub Vec<Activation>);

impl View for ActivationStack {
    type V = Seq<ActivationView>;

    open spec fn view(&self) -> Seq<ActivationView> {
        self.0@.map_values(|a: Activation| a@)
    }
}

/// `frames` with `f` in the place of its last frame.
pub open spec fn with_last(frames: Seq<ActivationView>, f: ActivationView) -> Seq<ActivationView> {
    frames.update(frames.len() - 1, f)
}

impl ActivationStack {
    pub fn new() -> (r: Self)
        ensures
            r@ == Seq::<ActivationView>::empty(),
    {
        let r = Self(Vec::new());
        assert(r@ =~= Seq::<ActivationView>::empty());
        r
    }

    /// The stack of one call: the function `function_index` with
    /// `locals_vec` as its first locals.
    pub fn init(function_index: usize, locals_vec: Vec<RuntimeValue>) -> (r: Self)
        ensures
            r@ == seq![
                ActivationView { pc: 0, function_index, locals: locals_of(locals_vec@) },
            ],
    {
        let mut locals: Locals = HashMap::new();
        let mut i: usize = 0;
        while i < locals_vec.len()
            invariant
                i <= locals_vec.len(),
                locals@ == Map::new(|k: usize| k < i, |k: usize| locals_vec@[k as int]),
            decreases locals_vec.len() - i,
        {
            locals.insert(i, locals_vec[i]);
            i += 1;
            assert(locals@ =~= Map::new(|k: usize| k < i, |k: usize| locals_vec@[k as int]));
        }
        assert(locals@ =~= locals_of(locals_vec@));
        let mut frames: Vec<Activation> = Vec::new();
        frames.push(Activation::new(function_index, locals));
        let r = Self(frames);
        assert(r@ =~= seq![
            ActivationView { pc: 0, function_index, locals: locals_of(locals_vec@) },
        ]);
        r
    }

    /// The program counter of the innermost frame.
    pub fn pc(&self) -> (r: Result<usize, RuntimeError>)
        ensures
            self@.len() == 0 ==> r is Err && r->Err_0@ == RuntimeErrorView::ExpectActivationStack,
            self@.len() > 0 ==> r is Ok && r->Ok_0 == self@.last().pc,
    {
        match self.last() {
            None => Err(RuntimeError::ExpectActivationStack),
            Some(v) => Ok(v.pc),
        }
    }

    pub fn pop(&mut self) -> (r: Option<Activation>)
        ensures
            old(self)@.len() == 0 ==> r is None && final(self)@ == old(self)@,
            old(self)@.len() > 0 ==> r is Some && r->Some_0@ == old(self)@.last() && final(self)@
                == old(self)@.drop_last(),
    {
        let r = self.0.pop();
        assert(self@ =~= if old(self)@.len() == 0 {
            old(self)@
        } else {
            old(self)@.drop_last()
        });
        r
    }

    pub fn push(&mut self, activation: Activation)
        ensures
            final(self)@ == old(self)@.push(activation@),
    {
        self.0.push(activation);
        assert(self@ =~= old(self)@.push(activation@));
    }

    /// Sets the program counter of the innermost frame.
    pub fn set_pc(&mut self, pc: usize) -> (r: Result<(), RuntimeError>)
        ensures
            old(self)@.len() == 0 ==> r is Err && r->Err_0@
                == RuntimeErrorView::ExpectActivationStack && final(self)@ == old(self)@,
            old(self)@.len() > 0 ==> r is Ok && final(self)@ == with_last(
                old(self)@,
                ActivationView { pc: pc as nat, ..old(self)@.last() },
            ),
    {
        match self.0.pop() {
            None => Err(RuntimeError::ExpectActivationStack),
            Some(activation) => {
                let mut activation = activation;
                activation.pc = pc;
                self.0.push(activation);
                assert(self@ =~= with_last(
                    old(self)@,
                    ActivationView { pc: pc as nat, ..old(self)@.last() },
                ));
                Ok(())
            },
        }
    }

    /// Moves the program counter of the innermost frame one instruction on.
    pub fn increment_pc(&mut self) -> (r: Result<(), RuntimeError>)
        requires
            old(self)@.len() > 0 ==> old(self)@.last().pc < usize::MAX,
        ensures
            old(self)@.len() == 0 ==> r is Err && r->Err_0@
                == RuntimeErrorView::ExpectActivationStack && final(self)@ == old(self)@,
            old(self)@.len() > 0 ==> r is Ok && final(self)@ == with_last(
                old(self)@,
                ActivationView { pc: old(self)@.last().pc + 1, ..old(self)@.last() },
            ),
    {
        match self.last() {
            None => Err(RuntimeError::ExpectActivationStack),
            Some(activation) => {
                let pc = activation.pc;
                self.set_pc(pc + 1)
            },
        }
    }

    /// The local `i` of the innermost frame.
    pub fn get_local(&self, i: usize) -> (r: Result<RuntimeValue, RuntimeError>)
        ensures
            yields(
                r,
                if self@.len() == 0 {
                    Err(RuntimeErrorView::ExpectActivationStack)
                } else if self@.last().locals.contains_key(i) {
                    Ok(self@.last().locals[i])
                } else {
                    Err(RuntimeErrorView::NotFound("local"@))
                },
            ),
    {
        let activation = match self.last() {
            None => return Err(RuntimeError::ExpectActivationStack),
            Some(v) => v,
        };
        match activation.locals.get(&i) {
            None => Err(RuntimeError::NotFound(String::from_str("local"))),
            Some(v) => Ok(*v),
        }
    }

    /// Gives the local `index` of the innermost frame the value `v`, whether
    /// it had one or not.
    pub fn set_local(&mut self, index: usize, v: RuntimeValue) -> (r: Result<(), RuntimeError>)
        ensures
            old(self)@.len() == 0 ==> r is Err && r->Err_0@
                == RuntimeErrorView::ExpectActivationStack && final(self)@ == old(self)@,
            old(self)@.len() > 0 ==> r is Ok && final(self)@ == with_last(
                old(self)@,
                ActivationView {
                    locals: old(self)@.last().locals.insert(index, v),
                    ..old(self)@.last()
                },
            ),
    {
        match self.0.pop() {
            None => Err(RuntimeError::ExpectActivationStack),
            Some(activation) => {
                let mut activation = activation;
                activation.locals.insert(index, v);
                self.0.push(activation);
                assert(self@ =~= with_last(
                    old(self)@,
                    ActivationView {
                        locals: old(self)@.last().locals.insert(index, v),
                        ..old(self)@.last()
                    },
                ));
                Ok(())
            },
        }
    }

    /// The innermost frame.
    pub fn last(&self) -> (r: Option<&Activation>)
        ensures
            self@.len() == 0 ==> r is None,
            self@.len() > 0 ==> r is Some && r->Some_0@ == self@.last(),
    {
        if self.0.len() == 0 {
            None
        } else {
            Some(&self.0[self.0.len() - 1])
        }
    }
}

} // verus!
