//! The model of a test: its types and functions, held in two tables and
//! referred to by index, and the order in which a backend must introduce them.

use vstd::prelude::*;

verus! {

/// The index of a type in its program.
pub type TyIdx = usize;

/// The index of a function in its program.
pub type FuncIdx = usize;

/// The types that need no definition.
#[derive(Debug, Clone, Copy, PartialEq, Eq, Structural, Hash)]
pub enum PrimitiveTy {
    I8,
    I16,
    I32,
    I64,
    I128,
    I256,
    U8,
    U16,
    U32,
    U64,
    U128,
    U256,
    F16,
    F32,
    F64,
    F128,
    Bool,
    Ptr,
}

/// A language whose default layout a type may ask for.
#[derive(Debug, Clone, Copy, PartialEq, Eq, Structural, Hash)]
pub enum LangRepr {
    Rust,
    C,
}

/// One representation that a type may ask for.
#[derive(Debug, Clone, Copy, PartialEq, Eq, Structural, Hash)]
pub enum Repr {
    Primitive(PrimitiveTy),
    Lang(LangRepr),
    Transparent,
}

/// An attribute on a type that changes its layout.
#[derive(Debug, Clone)]
pub enum Attr {
    /// The minimum alignment, in bytes.
    Align(u64),
    /// No padding between fields.
    Packed,
    /// The representations asked for.
    Repr(Vec<Repr>),
    /// Text to be handed to the backend as it is.
    Passthrough(String),
}

/// A fixed number of elements of one type.
#[derive(Debug, Clone)]
pub struct ArrayTy {
    pub elem_ty: TyIdx,
    pub len: u64,
}

/// A reference to a value of another type.
#[derive(Debug, Clone)]
pub struct RefTy {
    pub pointee_ty: TyIdx,
}

/// A named field. The order of fields decides the layout.
#[derive(Debug, Clone)]
pub struct FieldTy {
    pub ident: String,
    pub ty: TyIdx,
}

#[derive(Debug, Clone)]
pub struct StructTy {
    pub name: String,
    pub fields: Vec<FieldTy>,
    pub attrs: Vec<Attr>,
}

#[derive(Debug, Clone)]
pub struct UnionTy {
    pub name: String,
    pub fields: Vec<FieldTy>,
    pub attrs: Vec<Attr>,
}

/// A variant of an enum. The order of variants decides their values.
#[derive(Debug, Clone)]
pub struct EnumVariantTy {
    pub name: String,
}

#[derive(Debug, Clone)]
pub struct EnumTy {
    pub name: String,
    pub variants: Vec<EnumVariantTy>,
    pub attrs: Vec<Attr>,
}

/// A variant of a tagged union, with the fields it carries, if any.
#[derive(Debug, Clone)]
pub struct TaggedVariantTy {
    pub name: String,
    pub fields: Option<Vec<FieldTy>>,
}

#[derive(Debug, Clone)]
pub struct TaggedTy {
    pub name: String,
    pub variants: Vec<TaggedVariantTy>,
    pub attrs: Vec<Attr>,
}

/// Another name for a type.
#[derive(Debug, Clone)]
pub struct AliasTy {
    pub name: String,
    pub real: TyIdx,
    pub attrs: Vec<Attr>,
}

/// A name that stands for a different type in each language. `real` is the
/// type it stands for in the language that is being generated.
#[derive(Debug, Clone)]
pub struct PunTy {
    pub name: String,
    pub real: TyIdx,
}

/// A type of the program.
#[derive(Debug, Clone)]
pub enum Ty {
    Primitive(PrimitiveTy),
    Array(ArrayTy),
    Ref(RefTy),
    Struct(StructTy),
    Union(UnionTy),
    Enum(EnumTy),
    Tagged(TaggedTy),
    Alias(AliasTy),
    Pun(PunTy),
    Empty,
}

/// A named argument or result of a function.
#[derive(Debug, Clone)]
pub struct Arg {
    pub name: String,
    pub ty: TyIdx,
}

/// A function of the program. One without outputs returns nothing.
#[derive(Debug, Clone)]
pub struct Func {
    pub name: String,
    pub inputs: Vec<Arg>,
    pub outputs: Vec<Arg>,
}

/// One step of the order in which a backend introduces types and functions.
#[derive(Debug, Clone, Copy, PartialEq, Eq, Structural, Hash)]
pub enum Definition {
    /// Make the type's name known.
    DeclareTy(TyIdx),
    /// Give the type's full layout.
    DefineTy(TyIdx),
    /// Make the function's signature known.
    DeclareFunc(FuncIdx),
    /// Give the function's body.
    DefineFunc(FuncIdx),
}

/// Whether every field has a type among the first `count` types.
pub open spec fn fields_in_range(fields: Seq<FieldTy>, count: nat) -> bool {
    forall|i: int| 0 <= i < fields.len() ==> (#[trigger] fields[i]).ty < count
}

/// Whether every argument has a type among the first `count` types.
pub open spec fn args_in_range(args: Seq<Arg>, count: nat) -> bool {
    forall|i: int| 0 <= i < args.len() ==> (#[trigger] args[i]).ty < count
}

/// Whether every payload field of every variant has a type among the first
/// `count` types.
pub open spec fn variants_in_range(variants: Seq<TaggedVariantTy>, count: nat) -> bool {
    forall|i: int|
        0 <= i < variants.len() ==> ((#[trigger] variants[i]).fields matches Some(fields)
            ==> fields_in_range(fields@, count))
}

/// Whether every type that `ty` mentions is among the first `count` types.
pub open spec fn ty_in_range(ty: Ty, count: nat) -> bool {
    match ty {
        Ty::Primitive(_) | Ty::Enum(_) | Ty::Empty => true,
        Ty::Array(array) => array.elem_ty < count,
        Ty::Ref(reference) => reference.pointee_ty < count,
        Ty::Struct(record) => fields_in_range(record.fields@, count),
        Ty::Union(union) => fields_in_range(union.fields@, count),
        Ty::Tagged(tagged) => variants_in_range(tagged.variants@, count),
        Ty::Alias(alias) => alias.real < count,
        Ty::Pun(pun) => pun.real < count,
    }
}

/// Whether every argument and result of `func` has a type among the first
/// `count` types.
pub open spec fn func_in_range(func: Func, count: nat) -> bool {
    args_in_range(func.inputs@, count) && args_in_range(func.outputs@, count)
}

/// Whether the two tables refer to existing types only.
pub open spec fn program_in_range(tys: Seq<Ty>, funcs: Seq<Func>) -> bool {
    &&& forall|i: int| 0 <= i < tys.len() ==> ty_in_range(#[trigger] tys[i], tys.len())
    &&& forall|i: int| 0 <= i < funcs.len() ==> func_in_range(#[trigger] funcs[i], tys.len())
}

/// Whether the step names a type or a function that the program has.
pub open spec fn definition_in_range(def: Definition, ty_count: nat, func_count: nat) -> bool {
    match def {
        Definition::DeclareTy(ty) | Definition::DefineTy(ty) => ty < ty_count,
        Definition::DeclareFunc(func) | Definition::DefineFunc(func) => func < func_count,
    }
}

fn check_fields(fields: &Vec<FieldTy>, count: usize) -> (ok: bool)
    ensures
        ok == fields_in_range(fields@, count as nat),
{
    let mut i: usize = 0;
    while i < fields.len()
        invariant
            i <= fields.len(),
            forall|j: int| 0 <= j < i ==> (#[trigger] fields@[j]).ty < count,
        decreases fields.len() - i,
    {
        if fields[i].ty >= count {
            return false;
        }
        i = i + 1;
    }
    true
}

fn check_args(args: &Vec<Arg>, count: usize) -> (ok: bool)
    ensures
        ok == args_in_range(args@, count as nat),
{
    let mut i: usize = 0;
    while i < args.len()
        invariant
            i <= args.len(),
            forall|j: int| 0 <= j < i ==> (#[trigger] args@[j]).ty < count,
        decreases args.len() - i,
    {
        if args[i].ty >= count {
            return false;
        }
        i = i + 1;
    }
    true
}

fn check_variants(variants: &Vec<TaggedVariantTy>, count: usize) -> (ok: bool)
    ensures
        ok == variants_in_range(variants@, count as nat),
{
    let mut i: usize = 0;
    while i < variants.len()
        invariant
            i <= variants.len(),
            forall|j: int|
                0 <= j < i ==> ((#[trigger] variants@[j]).fields matches Some(fields)
                    ==> fields_in_range(fields@, count as nat)),
        decreases variants.len() - i,
    {
        match &variants[i].fields {
            Some(fields) => {
                if !check_fields(fields, count) {
                    return false;
                }
            },
            None => {},
        }
        i = i + 1;
    }
    true
}

fn check_ty(ty: &Ty, count: usize) -> (ok: bool)
    ensures
        ok == ty_in_range(*ty, count as nat),
{
    match ty {
        Ty::Primitive(_) => true,
        Ty::Enum(_) => true,
        Ty::Empty => true,
        Ty::Array(array) => array.elem_ty < count,
        Ty::Ref(reference) => reference.pointee_ty < count,
        Ty::Struct(record) => check_fields(&record.fields, count),
        Ty::Union(union) => check_fields(&union.fields, count),
        Ty::Tagged(tagged) => check_variants(&tagged.variants, count),
        Ty::Alias(alias) => alias.real < count,
        Ty::Pun(pun) => pun.real < count,
    }
}

/// The types and functions of one test.
#[derive(Debug, Clone)]
pub struct TypedProgram {
    tys: Vec<Ty>,
    funcs: Vec<Func>,
}

impl TypedProgram {
    /// The table of types.
    pub closed spec fn tys(&self) -> Seq<Ty> {
        self.tys@
    }

    /// The table of functions.
    pub closed spec fn funcs(&self) -> Seq<Func> {
        self.funcs@
    }

    /// Every type and function refers to types of the program only.
    pub open spec fn wf(&self) -> bool {
        program_in_range(self.tys(), self.funcs())
    }

    /// The program with the given tables, or `None` where one of them refers
    /// to a type that the program does not have.
    pub fn new(tys: Vec<Ty>, funcs: Vec<Func>) -> (program: Option<TypedProgram>)
        ensures
            program is Some <==> program_in_range(tys@, funcs@),
            program matches Some(p) ==> p.wf() && p.tys() == tys@ && p.funcs() == funcs@,
    {
        let count: usize = tys.len();
        let mut i: usize = 0;
        while i < tys.len()
            invariant
                i <= tys.len(),
                count == tys.len(),
                forall|j: int| 0 <= j < i ==> ty_in_range(#[trigger] tys@[j], count as nat),
            decreases tys.len() - i,
        {
            if !check_ty(&tys[i], count) {
                return None;
            }
            i = i + 1;
        }
        let mut k: usize = 0;
        while k < funcs.len()
            invariant
                k <= funcs.len(),
                count == tys.len(),
                forall|j: int| 0 <= j < tys.len() ==> ty_in_range(#[trigger] tys@[j], count as nat),
                forall|j: int| 0 <= j < k ==> func_in_range(#[trigger] funcs@[j], count as nat),
            decreases funcs.len() - k,
        {
            if !check_args(&funcs[k].inputs, count) || !check_args(&funcs[k].outputs, count) {
                return None;
            }
            k = k + 1;
        }
        Some(TypedProgram { tys, funcs })
    }

    /// The number of types.
    pub fn ty_count(&self) -> (count: usize)
        ensures
            count == self.tys().len(),
    {
        self.tys.len()
    }

    /// The number of functions.
    pub fn func_count(&self) -> (count: usize)
        ensures
            count == self.funcs().len(),
    {
        self.funcs.len()
    }

    /// The type at index `ty`.
    pub fn realize_ty(&self, ty: TyIdx) -> (found: &Ty)
        requires
            ty < self.tys().len(),
        ensures
            *found == self.tys()[ty as int],
    {
        &self.tys[ty]
    }

    /// The function at index `func`.
    pub fn realize_func(&self, func: FuncIdx) -> (found: &Func)
        requires
            func < self.funcs().len(),
        ensures
            *found == self.funcs()[func as int],
    {
        &self.funcs[func]
    }

    /// The type that `pun` stands for in the language that is being generated.
    pub fn resolve_pun(&self, pun: &PunTy) -> (resolved: TyIdx)
        ensures
            resolved == pun.real,
    {
        pun.real
    }
}

} // verus!
