//! What one generation works on: the test's program, the options it is
//! generated with, and the names that the backend has given to its types.

use crate::abis::CallingConvention;
use crate::types::{definition_in_range, Definition, FuncIdx, TyIdx, TypedProgram};
use vstd::prelude::*;

verus! {

/// The side of a call that a source file implements.
#[derive(Debug, Clone, Copy, PartialEq, Eq, Structural, Hash)]
pub enum CallSide {
    Caller,
    Callee,
}

impl CallSide {
    /// The name of the side in file names.
    pub open spec fn name_text(self) -> Seq<char> {
        match self {
            CallSide::Caller => "caller"@,
            CallSide::Callee => "callee"@,
        }
    }

    /// The name of the side in file names.
    pub fn name(&self) -> (name: &'static str)
        ensures
            name@ == self.name_text(),
    {
        match self {
            CallSide::Caller => "caller",
            CallSide::Callee => "callee",
        }
    }
}

/// How the values that a test passes around are chosen.
#[derive(Debug, Clone, Copy, PartialEq, Eq, Structural, Hash)]
pub enum ValueGeneratorKind {
    /// Every byte tells which value and which byte of it it is.
    Graffiti,
    /// Values drawn from a generator started with `seed`.
    Random { seed: u64 },
}

/// The options a test is generated with.
#[derive(Debug, Clone, Copy, PartialEq, Eq, Structural, Hash)]
pub struct TestOptions {
    pub convention: CallingConvention,
    pub val_generator: ValueGeneratorKind,
}

/// The name of a type, split where the name of the declared thing goes.
///
/// C writes part of a type behind the name: an array of three integers named
/// `x` is `int32_t x[3]`, with prefix `int32_t ` and suffix `[3]`.
#[derive(Debug, Clone)]
pub struct NameFragment {
    pub prefix: String,
    pub suffix: String,
}

/// A [`NameFragment`] as sequences of characters.
pub ghost struct Fragment {
    pub prefix: Seq<char>,
    pub suffix: Seq<char>,
}

impl View for NameFragment {
    type V = Fragment;

    open spec fn view(&self) -> Fragment {
        Fragment { prefix: self.prefix@, suffix: self.suffix@ }
    }
}

/// The names given so far, by type index; `None` for a type without one.
pub open spec fn names_of(tynames: Seq<Option<NameFragment>>) -> Seq<Option<Fragment>> {
    Seq::new(
        tynames.len(),
        |i: int|
            match tynames[i] {
                Some(name) => Some(name@),
                None => None,
            },
    )
}

/// The state of one generation.
#[derive(Debug, Clone)]
pub struct TestState {
    /// The test's types and functions.
    pub types: TypedProgram,
    /// The order in which the types and functions are to be introduced.
    pub defs: Vec<Definition>,
    /// The functions to generate.
    pub desired_funcs: Vec<FuncIdx>,
    /// The options of this generation.
    pub options: TestOptions,
    /// The name of each type that has one, by type index.
    pub tynames: Vec<Option<NameFragment>>,
}

impl TestState {
    /// The names given so far.
    pub open spec fn names(&self) -> Seq<Option<Fragment>> {
        names_of(self.tynames@)
    }

    /// The program is well formed, there is a slot for the name of each of its
    /// types, and the order and the desired functions name what it has.
    pub open spec fn wf(&self) -> bool {
        &&& self.types.wf()
        &&& self.tynames@.len() == self.types.tys().len()
        &&& forall|i: int|
            0 <= i < self.defs@.len() ==> definition_in_range(
                #[trigger] self.defs@[i],
                self.types.tys().len(),
                self.types.funcs().len(),
            )
        &&& forall|i: int|
            0 <= i < self.desired_funcs@.len() ==> (#[trigger] self.desired_funcs@[i])
                < self.types.funcs().len()
    }

    /// Whether this state differs from `before` in its names at most.
    pub open spec fn same_test(&self, before: &TestState) -> bool {
        &&& self.types == before.types
        &&& self.defs == before.defs
        &&& self.desired_funcs == before.desired_funcs
        &&& self.options == before.options
    }

    /// The state in which no type has a name yet, or `None` where the order or
    /// the desired functions name something that the program does not have.
    pub fn new(
        types: TypedProgram,
        defs: Vec<Definition>,
        desired_funcs: Vec<FuncIdx>,
        options: TestOptions,
    ) -> (state: Option<TestState>)
        requires
            types.wf(),
        ensures
            state is Some <==> {
                &&& forall|i: int|
                    0 <= i < defs@.len() ==> definition_in_range(
                        #[trigger] defs@[i],
                        types.tys().len(),
                        types.funcs().len(),
                    )
                &&& forall|i: int|
                    0 <= i < desired_funcs@.len() ==> (#[trigger] desired_funcs@[i])
                        < types.funcs().len()
            },
            state matches Some(s) ==> {
                &&& s.wf()
                &&& s.types == types
                &&& s.defs == defs
                &&& s.desired_funcs == desired_funcs
                &&& s.options == options
                &&& forall|ty: int| 0 <= ty < s.names().len() ==> s.names()[ty] is None
            },
    {
        let ty_count: usize = types.ty_count();
        let func_count: usize = types.func_count();
        let mut i: usize = 0;
        while i < defs.len()
            invariant
                i <= defs.len(),
                ty_count == types.tys().len(),
                func_count == types.funcs().len(),
                forall|j: int|
                    0 <= j < i ==> definition_in_range(
                        #[trigger] defs@[j],
                        ty_count as nat,
                        func_count as nat,
                    ),
            decreases defs.len() - i,
        {
            let ok = match defs[i] {
                Definition::DeclareTy(ty) => ty < ty_count,
                Definition::DefineTy(ty) => ty < ty_count,
                Definition::DeclareFunc(func) => func < func_count,
                Definition::DefineFunc(func) => func < func_count,
            };
            if !ok {
                return None;
            }
            i = i + 1;
        }
        let mut k: usize = 0;
        while k < desired_funcs.len()
            invariant
                k <= desired_funcs.len(),
                func_count == types.funcs().len(),
                forall|j: int| 0 <= j < k ==> (#[trigger] desired_funcs@[j]) < func_count,
            decreases desired_funcs.len() - k,
        {
            if desired_funcs[k] >= func_count {
                return None;
            }
            k = k + 1;
        }
        let mut tynames: Vec<Option<NameFragment>> = Vec::new();
        let mut n: usize = 0;
        while n < ty_count
            invariant
                n <= ty_count,
                tynames@.len() == n,
                forall|j: int| 0 <= j < n ==> (#[trigger] tynames@[j]) is None,
            decreases ty_count - n,
        {
            tynames.push(None);
            n = n + 1;
        }
        Some(TestState { types, defs, desired_funcs, options, tynames })
    }

    /// Whether type `ty` has a name.
    pub fn is_interned(&self, ty: TyIdx) -> (interned: bool)
        requires
            ty < self.tynames@.len(),
        ensures
            interned == self.names()[ty as int] is Some,
    {
        self.tynames[ty].is_some()
    }

    /// The name of type `ty`.
    pub fn tyname(&self, ty: TyIdx) -> (name: &NameFragment)
        requires
            ty < self.tynames@.len(),
            self.names()[ty as int] is Some,
        ensures
            Some(name@) == self.names()[ty as int],
    {
        self.tynames[ty].as_ref().unwrap()
    }

    /// Gives type `ty` the name `name`.
    pub fn set_tyname(&mut self, ty: TyIdx, name: NameFragment)
        requires
            ty < old(self).tynames@.len(),
        ensures
            final(self).same_test(old(self)),
            final(self).names() == old(self).names().update(ty as int, Some(name@)),
            final(self).tynames@.len() == old(self).tynames@.len(),
    {
        self.tynames.set(ty, Some(name));
        assert(self.names() =~= old(self).names().update(ty as int, Some(name@)));
    }
}

} // verus!
