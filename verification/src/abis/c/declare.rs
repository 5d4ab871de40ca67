//! Declarations for the C-family backend: type names, forward declarations,
//! definitions, signatures and calling-convention decorations.

use crate::abis::c::{CCFlavor, CcAbiImpl};
use crate::abis::{CallingConvention, Platform};
use crate::error::{GenerateError, GenerateErrorView, UnsupportedError};
use crate::fivemat::{
    lemma_write_appends, lemma_write_at_depth_zero, lemma_write_concat, lemma_write_keeps_depth,
    Fivemat, FivematView,
};
use crate::harness::test::{Fragment, NameFragment, TestState};
use crate::text::{decimal, push_decimal};
use crate::types::{
    args_in_range, Arg, Attr, Definition, EnumVariantTy, FieldTy, Func, FuncIdx, PrimitiveTy, Ty,
    TyIdx,
};
use vstd::prelude::*;
use vstd::string::*;

verus! {

/// The decoration that selects `convention` in a declaration, or `None` where
/// the backend has none for it.
///
/// The default C convention needs no decoration. The x86 conventions exist on
/// Windows only, where MSVC spells them as keywords and the other compilers as
/// attributes. The remaining conventions are not offered by this backend.
pub open spec fn convention_text(
    convention: CallingConvention,
    platform: Platform,
    cc_flavor: CCFlavor,
) -> Option<Seq<char>> {
    match convention {
        CallingConvention::System
        | CallingConvention::Win64
        | CallingConvention::Sysv64
        | CallingConvention::Aapcs => None,
        CallingConvention::C => Some(""@),
        CallingConvention::Cdecl => if platform == Platform::Windows {
            Some(
                match cc_flavor {
                    CCFlavor::Msvc => "__cdecl "@,
                    CCFlavor::Gcc | CCFlavor::Clang => "__attribute__((cdecl)) "@,
                },
            )
        } else {
            None
        },
        CallingConvention::Stdcall => if platform == Platform::Windows {
            Some(
                match cc_flavor {
                    CCFlavor::Msvc => "__stdcall "@,
                    CCFlavor::Gcc | CCFlavor::Clang => "__attribute__((stdcall)) "@,
                },
            )
        } else {
            None
        },
        CallingConvention::Fastcall => if platform == Platform::Windows {
            Some(
                match cc_flavor {
                    CCFlavor::Msvc => "__fastcall "@,
                    CCFlavor::Gcc | CCFlavor::Clang => "__attribute__((fastcall)) "@,
                },
            )
        } else {
            None
        },
        CallingConvention::Vectorcall => if platform == Platform::Windows {
            Some(
                match cc_flavor {
                    CCFlavor::Msvc => "__vectorcall "@,
                    CCFlavor::Gcc | CCFlavor::Clang => "__attribute__((vectorcall)) "@,
                },
            )
        } else {
            None
        },
    }
}

/// The message of the error for a convention that the backend does not offer.
pub open spec fn unsupported_convention_text(convention: CallingConvention) -> Seq<char> {
    "unsupported convention "@ + convention.name_text()
}

/// Whether `res` is what resolving `convention` for the given platform and
/// compiler comes to: the decoration, or the capability gap that names the
/// convention.
pub open spec fn resolves(
    res: Result<&'static str, GenerateError>,
    convention: CallingConvention,
    platform: Platform,
    cc_flavor: CCFlavor,
) -> bool {
    match res {
        Ok(text) => convention_text(convention, platform, cc_flavor) == Some(text@),
        Err(error) => convention_text(convention, platform, cc_flavor) is None && error@
            == GenerateErrorView::Unsupported(unsupported_convention_text(convention)),
    }
}

/// Resolving is a function of the convention, the platform and the compiler:
/// two answers for the same three agree, in the decoration or in the error.
pub proof fn lemma_resolution_is_determined(
    first: Result<&'static str, GenerateError>,
    second: Result<&'static str, GenerateError>,
    convention: CallingConvention,
    platform: Platform,
    cc_flavor: CCFlavor,
)
    requires
        resolves(first, convention, platform, cc_flavor),
        resolves(second, convention, platform, cc_flavor),
    ensures
        match (first, second) {
            (Ok(first_text), Ok(second_text)) => first_text@ == second_text@,
            (Err(first_error), Err(second_error)) => first_error@ == second_error@,
            _ => false,
        },
{
}

/// The spelling of a primitive type, with the space that parts it from the
/// declared name, or `None` where C has no such type.
pub open spec fn primitive_text(prim: PrimitiveTy) -> Option<Seq<char>> {
    match prim {
        PrimitiveTy::I8 => Some("int8_t "@),
        PrimitiveTy::I16 => Some("int16_t "@),
        PrimitiveTy::I32 => Some("int32_t "@),
        PrimitiveTy::I64 => Some("int64_t "@),
        PrimitiveTy::I128 => Some("__int128_t "@),
        PrimitiveTy::U8 => Some("uint8_t "@),
        PrimitiveTy::U16 => Some("uint16_t "@),
        PrimitiveTy::U32 => Some("uint32_t "@),
        PrimitiveTy::U64 => Some("uint64_t "@),
        PrimitiveTy::U128 => Some("__uint128_t "@),
        PrimitiveTy::F32 => Some("float "@),
        PrimitiveTy::F64 => Some("double "@),
        PrimitiveTy::Bool => Some("bool "@),
        PrimitiveTy::Ptr => Some("void *"@),
        PrimitiveTy::I256 | PrimitiveTy::U256 | PrimitiveTy::F16 | PrimitiveTy::F128 => None,
    }
}

/// The message of the error for a primitive type that C does not have.
pub open spec fn missing_primitive_text(prim: PrimitiveTy) -> Seq<char> {
    match prim {
        PrimitiveTy::I256 => "c doesn't have i256?"@,
        PrimitiveTy::U256 => "c doesn't have u256?"@,
        PrimitiveTy::F16 => "c doesn't have f16?"@,
        _ => "c doesn't have f128?"@,
    }
}

/// The message of the error for the empty type.
pub open spec fn empty_type_text() -> Seq<char> {
    "c doesn't have empty tuples"@
}

/// The message of the error for a tagged union.
pub open spec fn tagged_union_text() -> Seq<char> {
    "c doesn't have tagged unions impled yet"@
}

/// The message of the error for an alias with attributes.
pub open spec fn alias_attrs_text() -> Seq<char> {
    "don't yet know how to apply attrs to aliases"@
}

/// The message of the error for a type with attributes.
pub open spec fn attrs_text() -> Seq<char> {
    "c doesn't support attrs yet"@
}

/// The name of an array of `len` elements whose type is named `elem`: the
/// length goes in brackets before what the element's type writes behind the
/// declared name.
pub open spec fn array_name(elem: Fragment, len: nat) -> Fragment {
    Fragment { prefix: elem.prefix, suffix: "["@ + decimal(len) + "]"@ + elem.suffix }
}

/// The name of a pointer to a type named `pointee`. Where the pointee is an
/// array the star goes in parentheses, so that it binds before the brackets.
pub open spec fn pointer_name(pointee: Fragment, to_array: bool) -> Fragment {
    if to_array {
        Fragment { prefix: pointee.prefix + "(*"@, suffix: ")"@ + pointee.suffix }
    } else {
        Fragment { prefix: pointee.prefix + "*"@, suffix: pointee.suffix }
    }
}

/// The name of a type that is declared under `name`.
pub open spec fn nominal_name(name: Seq<char>) -> Fragment {
    Fragment { prefix: name, suffix: Seq::empty() }
}

/// The name that the backend gives to the type at index `ty`, from the names
/// of the types it is built from, or the message of the capability gap where
/// it has none.
///
/// A pun takes the name of the type it stands for.
pub open spec fn tyname_of(tys: Seq<Ty>, names: Seq<Option<Fragment>>, ty: int) -> Result<
    Fragment,
    Seq<char>,
> {
    match tys[ty] {
        Ty::Primitive(prim) => match primitive_text(prim) {
            Some(text) => Ok(nominal_name(text)),
            None => Err(missing_primitive_text(prim)),
        },
        Ty::Array(array) => Ok(array_name(names[array.elem_ty as int]->0, array.len as nat)),
        Ty::Ref(reference) => Ok(
            pointer_name(
                names[reference.pointee_ty as int]->0,
                tys[reference.pointee_ty as int] is Array,
            ),
        ),
        Ty::Struct(record) => Ok(nominal_name(record.name@)),
        Ty::Union(union) => Ok(nominal_name(union.name@)),
        Ty::Enum(enumeration) => Ok(nominal_name(enumeration.name@)),
        Ty::Tagged(tagged) => Ok(nominal_name(tagged.name@)),
        Ty::Alias(alias) => Ok(nominal_name(alias.name@)),
        Ty::Pun(pun) => Ok(names[pun.real as int]->0),
        Ty::Empty => Err(empty_type_text()),
    }
}

/// Whether the type at index `ty` can be given its name: it has one already,
/// or the types that its name is built from have theirs.
pub open spec fn intern_ready(tys: Seq<Ty>, names: Seq<Option<Fragment>>, ty: int) -> bool {
    names[ty] is Some || match tys[ty] {
        Ty::Array(array) => names[array.elem_ty as int] is Some,
        Ty::Ref(reference) => names[reference.pointee_ty as int] is Some,
        Ty::Pun(pun) => names[pun.real as int] is Some,
        _ => true,
    }
}

/// The names after the type at index `ty` was given its name, and the message
/// of the capability gap where it could not be.
///
/// A type that has a name keeps it.
pub open spec fn interned(tys: Seq<Ty>, names: Seq<Option<Fragment>>, ty: int) -> (
    Seq<Option<Fragment>>,
    Option<Seq<char>>,
) {
    if names[ty] is Some {
        (names, None)
    } else {
        match tyname_of(tys, names, ty) {
            Ok(name) => (names.update(ty, Some(name)), None),
            Err(message) => (names, Some(message)),
        }
    }
}

/// Whether `res` reports the outcome `error`: success where there is none,
/// else the capability gap with that message.
pub open spec fn reports(res: Result<(), GenerateError>, error: Option<Seq<char>>) -> bool {
    match res {
        Ok(_) => error is None,
        Err(e) => error == Some(e@->Unsupported_0) && e@ is Unsupported,
    }
}

/// Giving a type its name twice is giving it once: the second time changes
/// nothing and succeeds.
pub proof fn lemma_intern_idempotent(tys: Seq<Ty>, names: Seq<Option<Fragment>>, ty: int)
    requires
        0 <= ty < names.len(),
        interned(tys, names, ty).1 is None,
    ensures
        interned(tys, interned(tys, names, ty).0, ty) == (interned(tys, names, ty).0, None::<
            Seq<char>,
        >),
{
}

/// Giving a type its name leaves the names of all other types as they were.
pub proof fn lemma_intern_keeps_others(
    tys: Seq<Ty>,
    names: Seq<Option<Fragment>>,
    ty: int,
    other: int,
)
    requires
        0 <= ty < names.len(),
        0 <= other < names.len(),
        other != ty || names[ty] is Some,
    ensures
        interned(tys, names, ty).0.len() == names.len(),
        interned(tys, names, ty).0[other] == names[other],
{
}

/// What an emitter has done: the names it has given, the text it has written
/// and, where a capability gap stopped it, the gap's message.
pub ghost struct Emission {
    pub names: Seq<Option<Fragment>>,
    pub out: FivematView,
    pub error: Option<Seq<char>>,
}

/// The declaration of `name` as a type of the kind `keyword`, without layout.
pub open spec fn typedef_text(keyword: Seq<char>, name: Seq<char>) -> Seq<char> {
    "typedef "@ + keyword + " "@ + name + " "@ + name + ";\n"@
}

/// The declaration of `name` as another name for the type named `aliased`.
pub open spec fn alias_text(aliased: Fragment, name: Seq<char>) -> Seq<char> {
    "typedef "@ + aliased.prefix + name + aliased.suffix + ";\n\n"@
}

/// The text that forward-declares the type at index `ty`, or the message of
/// the capability gap.
///
/// Structs, unions and enums are declared by name. An alias is declared in
/// full, and only without attributes. Tagged unions are not offered. Types
/// that are built in need no declaration, and a pun is never declared.
pub open spec fn forward_text(tys: Seq<Ty>, names: Seq<Option<Fragment>>, ty: int) -> Result<
    Seq<char>,
    Seq<char>,
> {
    match tys[ty] {
        Ty::Struct(record) => Ok(typedef_text("struct"@, record.name@)),
        Ty::Union(union) => Ok(typedef_text("union"@, union.name@)),
        Ty::Enum(enumeration) => Ok(typedef_text("enum"@, enumeration.name@)),
        Ty::Tagged(_) => Err(tagged_union_text()),
        Ty::Alias(alias) => if alias.attrs@.len() > 0 {
            Err(alias_attrs_text())
        } else {
            Ok(alias_text(names[alias.real as int]->0, alias.name@))
        },
        Ty::Pun(_) | Ty::Primitive(_) | Ty::Array(_) | Ty::Ref(_) => Ok(Seq::empty()),
        Ty::Empty => Err(empty_type_text()),
    }
}

/// Whether the forward declaration of the type at index `ty` finds the names
/// it writes: an alias without attributes needs the name of its type.
pub open spec fn forward_ready(tys: Seq<Ty>, names: Seq<Option<Fragment>>, ty: int) -> bool {
    tys[ty] matches Ty::Alias(alias) ==> (alias.attrs@.len() == 0 ==> names[alias.real as int]
        is Some)
}

/// Whether the type at index `ty` can be forward-declared without missing a
/// name.
pub open spec fn declare_ready(tys: Seq<Ty>, names: Seq<Option<Fragment>>, ty: int) -> bool {
    &&& intern_ready(tys, names, ty)
    &&& interned(tys, names, ty).1 is None ==> forward_ready(tys, interned(tys, names, ty).0, ty)
}

/// The forward declaration of the type at index `ty`: the type gets its name,
/// then the declaration is written. A capability gap leaves the text as it
/// was.
pub open spec fn declared(
    tys: Seq<Ty>,
    names: Seq<Option<Fragment>>,
    out: FivematView,
    ty: int,
) -> Emission {
    let (named, gap) = interned(tys, names, ty);
    if gap is Some {
        Emission { names: named, out, error: gap }
    } else {
        match forward_text(tys, named, ty) {
            Ok(text) => Emission { names: named, out: out.write(text), error: None },
            Err(message) => Emission { names: named, out, error: Some(message) },
        }
    }
}

/// The line that declares `field` in a struct or union.
pub open spec fn field_text(names: Seq<Option<Fragment>>, field: FieldTy) -> Seq<char> {
    names[field.ty as int]->0.prefix + field.ident@ + names[field.ty as int]->0.suffix + ";\n"@
}

/// The lines of the first `count` fields, in their order.
pub open spec fn fields_text(names: Seq<Option<Fragment>>, fields: Seq<FieldTy>, count: nat) -> Seq<
    char,
>
    decreases count,
{
    if count == 0 {
        Seq::empty()
    } else {
        fields_text(names, fields, (count - 1) as nat) + field_text(names, fields[count - 1])
    }
}

/// The line that declares `variant` in an enum.
pub open spec fn variant_text(variant: EnumVariantTy) -> Seq<char> {
    variant.name@ + ";\n"@
}

/// The lines of the first `count` variants, in their order.
pub open spec fn variants_text(variants: Seq<EnumVariantTy>, count: nat) -> Seq<char>
    decreases count,
{
    if count == 0 {
        Seq::empty()
    } else {
        variants_text(variants, (count - 1) as nat) + variant_text(variants[count - 1])
    }
}

/// The line that opens the definition of `name` as a type of the kind
/// `keyword`.
pub open spec fn open_text(keyword: Seq<char>, name: Seq<char>) -> Seq<char> {
    "typedef "@ + keyword + " "@ + name + " {\n"@
}

/// The lines that close the definition of `name`.
pub open spec fn close_text(name: Seq<char>) -> Seq<char> {
    "} "@ + name + ";\n\n"@
}

/// The buffer after a block was written: `open`, then `body` one level
/// deeper, then `close`.
pub open spec fn block(out: FivematView, open: Seq<char>, body: Seq<char>, close: Seq<char>)
    -> FivematView {
    out.write(open).add_indent(1).write(body).sub_indent(1).write(close)
}

/// Whether every field's type has a name.
pub open spec fn fields_ready(names: Seq<Option<Fragment>>, fields: Seq<FieldTy>) -> bool {
    forall|i: int| 0 <= i < fields.len() ==> names[(#[trigger] fields[i]).ty as int] is Some
}

/// Whether the definition of the type at index `ty` finds the names it
/// writes: those of the fields of a struct or union, and that of the type of
/// an alias. A type with attributes is not written.
pub open spec fn body_ready(tys: Seq<Ty>, names: Seq<Option<Fragment>>, ty: int) -> bool {
    match tys[ty] {
        Ty::Struct(record) => record.attrs@.len() == 0 ==> fields_ready(names, record.fields@),
        Ty::Union(union) => union.attrs@.len() == 0 ==> fields_ready(names, union.fields@),
        Ty::Alias(alias) => alias.attrs@.len() == 0 ==> names[alias.real as int] is Some,
        _ => true,
    }
}

/// Whether the type at index `ty` can be defined without missing a name.
pub open spec fn define_ready(tys: Seq<Ty>, names: Seq<Option<Fragment>>, ty: int) -> bool {
    &&& intern_ready(tys, names, ty)
    &&& interned(tys, names, ty).1 is None ==> body_ready(tys, interned(tys, names, ty).0, ty)
}

/// The definition of the type at index `ty`: the type gets its name, then its
/// layout is written.
///
/// Structs and unions list their fields, enums their variants, in the order of
/// the model. A type with attributes is refused, since the layout that they
/// ask for cannot be written. An alias is written as its forward declaration.
/// Tagged unions are not offered. Types that are built in need no definition,
/// and a pun is never defined. A capability gap leaves the text as it was.
pub open spec fn defined(
    tys: Seq<Ty>,
    names: Seq<Option<Fragment>>,
    out: FivematView,
    ty: int,
) -> Emission {
    let (named, gap) = interned(tys, names, ty);
    if gap is Some {
        Emission { names: named, out, error: gap }
    } else {
        match tys[ty] {
            Ty::Struct(record) => if record.attrs@.len() > 0 {
                Emission { names: named, out, error: Some(attrs_text()) }
            } else {
                Emission {
                    names: named,
                    out: block(
                        out,
                        open_text("struct"@, record.name@),
                        fields_text(named, record.fields@, record.fields@.len()),
                        close_text(record.name@),
                    ),
                    error: None,
                }
            },
            Ty::Union(union) => if union.attrs@.len() > 0 {
                Emission { names: named, out, error: Some(attrs_text()) }
            } else {
                Emission {
                    names: named,
                    out: block(
                        out,
                        open_text("union"@, union.name@),
                        fields_text(named, union.fields@, union.fields@.len()),
                        close_text(union.name@),
                    ),
                    error: None,
                }
            },
            Ty::Enum(enumeration) => if enumeration.attrs@.len() > 0 {
                Emission { names: named, out, error: Some(attrs_text()) }
            } else {
                Emission {
                    names: named,
                    out: block(
                        out,
                        open_text("enum"@, enumeration.name@),
                        variants_text(enumeration.variants@, enumeration.variants@.len()),
                        close_text(enumeration.name@),
                    ),
                    error: None,
                }
            },
            Ty::Tagged(_) => Emission { names: named, out, error: Some(tagged_union_text()) },
            Ty::Alias(_) => declared(tys, named, out, ty),
            Ty::Pun(_) | Ty::Primitive(_) | Ty::Array(_) | Ty::Ref(_) => Emission {
                names: named,
                out,
                error: None,
            },
            Ty::Empty => Emission { names: named, out, error: Some(empty_type_text()) },
        }
    }
}

/// The declaration of `arg`: its type's name around its own.
pub open spec fn arg_text(names: Seq<Option<Fragment>>, arg: Arg) -> Seq<char> {
    names[arg.ty as int]->0.prefix + arg.name@ + names[arg.ty as int]->0.suffix
}

/// The declarations of the first `count` arguments, separated by commas.
pub open spec fn args_text(names: Seq<Option<Fragment>>, args: Seq<Arg>, count: nat) -> Seq<char>
    decreases count,
{
    if count == 0 {
        Seq::empty()
    } else if count == 1 {
        arg_text(names, args[0])
    } else {
        args_text(names, args, (count - 1) as nat) + ", "@ + arg_text(names, args[count - 1])
    }
}

/// The start of the declaration of `func`, up to and without the closing
/// parenthesis: the type of the first output around the function's name, or
/// `void` for a function without outputs, then the arguments.
pub open spec fn signature_text(names: Seq<Option<Fragment>>, func: Func) -> Seq<char> {
    (if func.outputs@.len() > 0 {
        names[func.outputs@[0].ty as int]->0.prefix + func.name@ + names[func.outputs@[0].ty as int]->0.suffix
            + "("@
    } else {
        "void "@ + func.name@ + "("@
    }) + args_text(names, func.inputs@, func.inputs@.len())
}

/// Whether the signature of `func` finds the names it writes: that of the
/// type of the first output and those of the types of all inputs.
pub open spec fn signature_ready(names: Seq<Option<Fragment>>, func: Func) -> bool {
    &&& func.outputs@.len() > 0 ==> names[func.outputs@[0].ty as int] is Some
    &&& forall|i: int|
        0 <= i < func.inputs@.len() ==> names[(#[trigger] func.inputs@[i]).ty as int] is Some
}

/// The declarations of the first `count` of the functions `desired`, one to a
/// line, each closed by its parenthesis and a semicolon.
pub open spec fn externs_text(
    names: Seq<Option<Fragment>>,
    funcs: Seq<Func>,
    desired: Seq<FuncIdx>,
    count: nat,
) -> Seq<char>
    decreases count,
{
    if count == 0 {
        Seq::empty()
    } else {
        externs_text(names, funcs, desired, (count - 1) as nat) + signature_text(
            names,
            funcs[desired[count - 1] as int],
        ) + ");\n"@
    }
}

/// The line that opens the block of the caller's declarations.
pub open spec fn externs_open_text(convention: Seq<char>) -> Seq<char> {
    "extern \""@ + convention + "\" {\n"@
}

/// The lines that close the block of the caller's declarations.
pub open spec fn externs_close_text() -> Seq<char> {
    "}\n\n"@
}

/// What one step of the generation order does: a type is forward-declared or
/// defined. Functions need nothing at this point.
pub open spec fn emitted_one(
    tys: Seq<Ty>,
    names: Seq<Option<Fragment>>,
    out: FivematView,
    def: Definition,
) -> Emission {
    match def {
        Definition::DeclareTy(ty) => declared(tys, names, out, ty as int),
        Definition::DefineTy(ty) => defined(tys, names, out, ty as int),
        Definition::DeclareFunc(_) | Definition::DefineFunc(_) => Emission {
            names,
            out,
            error: None,
        },
    }
}

/// What the first `count` steps of the order `defs` do, one after the other,
/// up to the first capability gap.
pub open spec fn emitted(
    tys: Seq<Ty>,
    names: Seq<Option<Fragment>>,
    out: FivematView,
    defs: Seq<Definition>,
    count: nat,
) -> Emission
    decreases count,
{
    if count == 0 {
        Emission { names, out, error: None }
    } else {
        let before = emitted(tys, names, out, defs, (count - 1) as nat);
        if before.error is Some {
            before
        } else {
            emitted_one(tys, before.names, before.out, defs[count - 1])
        }
    }
}

/// Whether the step `def` can be taken without missing a name.
pub open spec fn one_ready(tys: Seq<Ty>, names: Seq<Option<Fragment>>, def: Definition) -> bool {
    match def {
        Definition::DeclareTy(ty) => declare_ready(tys, names, ty as int),
        Definition::DefineTy(ty) => define_ready(tys, names, ty as int),
        Definition::DeclareFunc(_) | Definition::DefineFunc(_) => true,
    }
}

/// Whether the definition of the type at index `ty` writes a block, one
/// level deeper than the text around it: the type is a struct, a union or an
/// enum without attributes.
pub open spec fn opens_block(tys: Seq<Ty>, ty: int) -> bool {
    match tys[ty] {
        Ty::Struct(record) => record.attrs@.len() == 0,
        Ty::Union(union) => union.attrs@.len() == 0,
        Ty::Enum(enumeration) => enumeration.attrs@.len() == 0,
        _ => false,
    }
}

/// Whether one of the first `count` steps of the order `defs` defines a type
/// whose definition writes a block.
pub open spec fn any_block(tys: Seq<Ty>, defs: Seq<Definition>, count: nat) -> bool {
    exists|at: int|
        0 <= at < count && (#[trigger] defs[at] matches Definition::DefineTy(ty) && opens_block(
            tys,
            ty as int,
        ))
}

/// A type with attributes is refused and nothing of it is written: no header,
/// no field, no part of a layout.
pub proof fn lemma_attributes_write_nothing(
    tys: Seq<Ty>,
    names: Seq<Option<Fragment>>,
    out: FivematView,
    ty: int,
)
    requires
        match tys[ty] {
            Ty::Struct(record) => record.attrs@.len() > 0,
            Ty::Union(union) => union.attrs@.len() > 0,
            Ty::Enum(enumeration) => enumeration.attrs@.len() > 0,
            _ => false,
        },
    ensures
        defined(tys, names, out, ty).out == out,
        defined(tys, names, out, ty).error == Some(attrs_text()),
{
}

/// A buffer to which nothing was written.
pub open spec fn blank() -> FivematView {
    FivematView {
        out: Seq::empty(),
        indent_text: Seq::empty(),
        indent: 0,
        indent_pending: true,
    }
}

/// Whether the first `count` steps of the order `defs` can be taken without
/// missing a name: each step finds the names it writes among those that were
/// there at the start and those that the steps before it have given.
pub open spec fn all_ready(
    tys: Seq<Ty>,
    names: Seq<Option<Fragment>>,
    defs: Seq<Definition>,
    count: nat,
) -> bool
    decreases count,
{
    count == 0 || {
        let before = emitted(tys, names, blank(), defs, (count - 1) as nat);
        &&& all_ready(tys, names, defs, (count - 1) as nat)
        &&& before.error is None ==> one_ready(tys, before.names, defs[count - 1])
    }
}

/// The names that the steps give, and the capability gap that stops them, do
/// not depend on the text that was written before.
pub proof fn lemma_names_without_text(
    tys: Seq<Ty>,
    names: Seq<Option<Fragment>>,
    out: FivematView,
    other: FivematView,
    defs: Seq<Definition>,
    count: nat,
)
    ensures
        emitted(tys, names, out, defs, count).names == emitted(
            tys,
            names,
            other,
            defs,
            count,
        ).names,
        emitted(tys, names, out, defs, count).error == emitted(
            tys,
            names,
            other,
            defs,
            count,
        ).error,
    decreases count,
{
    if count > 0 {
        lemma_names_without_text(tys, names, out, other, defs, (count - 1) as nat);
    }
}

/// A forward declaration leaves the depth of the text as it was.
pub proof fn lemma_declared_keeps_depth(
    tys: Seq<Ty>,
    names: Seq<Option<Fragment>>,
    out: FivematView,
    ty: int,
)
    ensures
        declared(tys, names, out, ty).out.indent == out.indent,
        declared(tys, names, out, ty).out.indent_text == out.indent_text,
{
    let (named, gap) = interned(tys, names, ty);
    if gap is None {
        if let Ok(text) = forward_text(tys, named, ty) {
            lemma_write_keeps_depth(out, text);
        }
    }
}

/// A block leaves the depth of the text as it was.
pub proof fn lemma_block_keeps_depth(
    out: FivematView,
    open: Seq<char>,
    body: Seq<char>,
    close: Seq<char>,
)
    ensures
        block(out, open, body, close).indent == out.indent,
        block(out, open, body, close).indent_text == out.indent_text,
{
    lemma_write_keeps_depth(out, open);
    lemma_write_keeps_depth(out.write(open).add_indent(1), body);
    lemma_write_keeps_depth(out.write(open).add_indent(1).write(body).sub_indent(1), close);
}

/// A definition leaves the depth of the text as it was.
pub proof fn lemma_defined_keeps_depth(
    tys: Seq<Ty>,
    names: Seq<Option<Fragment>>,
    out: FivematView,
    ty: int,
)
    ensures
        defined(tys, names, out, ty).out.indent == out.indent,
        defined(tys, names, out, ty).out.indent_text == out.indent_text,
{
    let (named, gap) = interned(tys, names, ty);
    if gap is None {
        match tys[ty] {
            Ty::Struct(record) => {
                lemma_block_keeps_depth(
                    out,
                    open_text("struct"@, record.name@),
                    fields_text(named, record.fields@, record.fields@.len()),
                    close_text(record.name@),
                );
            },
            Ty::Union(union) => {
                lemma_block_keeps_depth(
                    out,
                    open_text("union"@, union.name@),
                    fields_text(named, union.fields@, union.fields@.len()),
                    close_text(union.name@),
                );
            },
            Ty::Enum(enumeration) => {
                lemma_block_keeps_depth(
                    out,
                    open_text("enum"@, enumeration.name@),
                    variants_text(enumeration.variants@, enumeration.variants@.len()),
                    close_text(enumeration.name@),
                );
            },
            Ty::Alias(_) => {
                lemma_declared_keeps_depth(tys, named, out, ty);
            },
            _ => {},
        }
    }
}

/// An order that is ready as a whole is ready up to each of its steps.
pub proof fn lemma_all_ready_prefix(
    tys: Seq<Ty>,
    names: Seq<Option<Fragment>>,
    defs: Seq<Definition>,
    count: nat,
    shorter: nat,
)
    requires
        shorter <= count,
        all_ready(tys, names, defs, count),
    ensures
        all_ready(tys, names, defs, shorter),
    decreases count,
{
    if shorter < count {
        lemma_all_ready_prefix(tys, names, defs, (count - 1) as nat, shorter);
    }
}

/// After a capability gap nothing more is emitted.
pub proof fn lemma_emitted_stops(
    tys: Seq<Ty>,
    names: Seq<Option<Fragment>>,
    out: FivematView,
    defs: Seq<Definition>,
    count: nat,
    longer: nat,
)
    requires
        count <= longer,
        emitted(tys, names, out, defs, count).error is Some,
    ensures
        emitted(tys, names, out, defs, longer) == emitted(tys, names, out, defs, count),
    decreases longer,
{
    if count < longer {
        lemma_emitted_stops(tys, names, out, defs, count, (longer - 1) as nat);
    }
}

fn write_typedef(f: &mut Fivemat, keyword: &str, name: &str)
    ensures
        final(f)@ == old(f)@.write(typedef_text(keyword@, name@)),
{
    let mut line = String::from_str("typedef ");
    line.append(keyword);
    line.append(" ");
    line.append(name);
    line.append(" ");
    line.append(name);
    line.append(";\n");
    f.write_str(line.as_str());
}

fn write_open(f: &mut Fivemat, keyword: &str, name: &str)
    ensures
        final(f)@ == old(f)@.write(open_text(keyword@, name@)),
        final(f)@.indent == old(f)@.indent,
{
    let mut line = String::from_str("typedef ");
    line.append(keyword);
    line.append(" ");
    line.append(name);
    line.append(" {\n");
    f.write_str(line.as_str());
}

fn write_close(f: &mut Fivemat, name: &str)
    ensures
        final(f)@ == old(f)@.write(close_text(name@)),
        final(f)@.indent == old(f)@.indent,
{
    let mut line = String::from_str("} ");
    line.append(name);
    line.append(";\n\n");
    f.write_str(line.as_str());
}

fn write_fields(f: &mut Fivemat, state: &TestState, fields: &Vec<FieldTy>)
    requires
        forall|i: int|
            0 <= i < fields@.len() ==> (#[trigger] fields@[i]).ty < state.tynames@.len(),
        fields_ready(state.names(), fields@),
    ensures
        final(f)@ == old(f)@.write(fields_text(state.names(), fields@, fields@.len())),
        final(f)@.indent == old(f)@.indent,
{
    let ghost names = state.names();
    let mut i: usize = 0;
    assert(old(f)@.write(Seq::empty()) == old(f)@);
    while i < fields.len()
        invariant
            i <= fields.len(),
            names == state.names(),
            forall|j: int|
                0 <= j < fields@.len() ==> (#[trigger] fields@[j]).ty < state.tynames@.len(),
            fields_ready(names, fields@),
            f@ == old(f)@.write(fields_text(names, fields@, i as nat)),
            f@.indent == old(f)@.indent,
        decreases fields.len() - i,
    {
        let field = &fields[i];
        let name = state.tyname(field.ty);
        let mut line = name.prefix.clone();
        line.append(field.ident.as_str());
        line.append(name.suffix.as_str());
        line.append(";\n");
        f.write_str(line.as_str());
        proof {
            lemma_write_concat(old(f)@, fields_text(names, fields@, i as nat), line@);
        }
        i = i + 1;
    }
}

fn write_variants(f: &mut Fivemat, variants: &Vec<EnumVariantTy>)
    ensures
        final(f)@ == old(f)@.write(variants_text(variants@, variants@.len())),
        final(f)@.indent == old(f)@.indent,
{
    let mut i: usize = 0;
    assert(old(f)@.write(Seq::empty()) == old(f)@);
    while i < variants.len()
        invariant
            i <= variants.len(),
            f@ == old(f)@.write(variants_text(variants@, i as nat)),
            f@.indent == old(f)@.indent,
        decreases variants.len() - i,
    {
        let mut line = variants[i].name.clone();
        line.append(";\n");
        f.write_str(line.as_str());
        proof {
            lemma_write_concat(old(f)@, variants_text(variants@, i as nat), line@);
        }
        i = i + 1;
    }
}

/// Whether the step `def` introduces the type at index `ty`: declares or
/// defines it.
pub open spec fn introduces(def: Definition, ty: int) -> bool {
    match def {
        Definition::DeclareTy(introduced) | Definition::DefineTy(introduced) => introduced == ty,
        Definition::DeclareFunc(_) | Definition::DefineFunc(_) => false,
    }
}

/// Whether the step `def` writes the name of the type at index `ty`: as the
/// type of a field of the struct or union it defines, or as the type that the
/// alias it declares or defines stands for. A type with attributes is not
/// written, so it writes no name.
pub open spec fn writes_name_of(tys: Seq<Ty>, def: Definition, ty: int) -> bool {
    match def {
        Definition::DeclareTy(declared) => tys[declared as int] matches Ty::Alias(alias)
            && alias.attrs@.len() == 0 && alias.real == ty,
        Definition::DefineTy(defined) => match tys[defined as int] {
            Ty::Struct(record) => record.attrs@.len() == 0 && exists|i: int|
                0 <= i < record.fields@.len() && (#[trigger] record.fields@[i]).ty == ty,
            Ty::Union(union) => union.attrs@.len() == 0 && exists|i: int|
                0 <= i < union.fields@.len() && (#[trigger] union.fields@[i]).ty == ty,
            Ty::Alias(alias) => alias.attrs@.len() == 0 && alias.real == ty,
            _ => false,
        },
        Definition::DeclareFunc(_) | Definition::DefineFunc(_) => false,
    }
}

/// Whether every step of the order names a type that the program has.
pub open spec fn steps_in_range(tys: Seq<Ty>, defs: Seq<Definition>) -> bool {
    forall|i: int|
        0 <= i < defs.len() ==> match #[trigger] defs[i] {
            Definition::DeclareTy(ty) | Definition::DefineTy(ty) => ty < tys.len(),
            Definition::DeclareFunc(_) | Definition::DefineFunc(_) => true,
        }
}

/// A step gives a name to the type it introduces and to no other.
pub proof fn lemma_step_names_its_type(
    tys: Seq<Ty>,
    names: Seq<Option<Fragment>>,
    out: FivematView,
    def: Definition,
    ty: int,
)
    requires
        names.len() == tys.len(),
        0 <= ty < names.len(),
        match def {
            Definition::DeclareTy(introduced) | Definition::DefineTy(introduced) => introduced
                < tys.len(),
            Definition::DeclareFunc(_) | Definition::DefineFunc(_) => true,
        },
    ensures
        emitted_one(tys, names, out, def).names.len() == names.len(),
        !introduces(def, ty) ==> emitted_one(tys, names, out, def).names[ty] == names[ty],
        names[ty] is Some ==> emitted_one(tys, names, out, def).names[ty] == names[ty],
{
}

/// The steps keep one slot for the name of each type.
pub proof fn lemma_emitted_keeps_slots(
    tys: Seq<Ty>,
    names: Seq<Option<Fragment>>,
    out: FivematView,
    defs: Seq<Definition>,
    count: nat,
)
    requires
        names.len() == tys.len(),
        steps_in_range(tys, defs),
        count <= defs.len(),
    ensures
        emitted(tys, names, out, defs, count).names.len() == names.len(),
    decreases count,
{
    if count > 0 {
        lemma_emitted_keeps_slots(tys, names, out, defs, (count - 1) as nat);
        let before = emitted(tys, names, out, defs, (count - 1) as nat);
        if before.error is None && tys.len() > 0 {
            lemma_step_names_its_type(tys, before.names, before.out, defs[count - 1], 0);
        }
    }
}

/// A name that was not there at the start was given by a step that
/// introduces its type.
pub proof fn lemma_names_come_from_steps(
    tys: Seq<Ty>,
    names: Seq<Option<Fragment>>,
    out: FivematView,
    defs: Seq<Definition>,
    count: nat,
    ty: int,
)
    requires
        names.len() == tys.len(),
        steps_in_range(tys, defs),
        count <= defs.len(),
        0 <= ty < names.len(),
        names[ty] is None,
        emitted(tys, names, out, defs, count).names[ty] is Some,
    ensures
        exists|j: int| 0 <= j < count && introduces(#[trigger] defs[j], ty),
    decreases count,
{
    if count > 0 {
        let before = emitted(tys, names, out, defs, (count - 1) as nat);
        lemma_emitted_keeps_slots(tys, names, out, defs, (count - 1) as nat);
        if before.error is None {
            lemma_step_names_its_type(tys, before.names, before.out, defs[count - 1], ty);
        }
        if before.names[ty] is Some {
            lemma_names_come_from_steps(tys, names, out, defs, (count - 1) as nat, ty);
        } else {
            assert(introduces(defs[count - 1], ty));
        }
    }
}

/// Every type is introduced before its name is written: where an order can
/// be walked from a state without names, and the step at `at` writes the name
/// of the type at index `ty`, a step up to `at` declares or defines that
/// type. So a type that is mentioned before its definition has a forward
/// declaration, or a definition, before that mention.
pub proof fn lemma_introduced_before_use(
    tys: Seq<Ty>,
    names: Seq<Option<Fragment>>,
    out: FivematView,
    defs: Seq<Definition>,
    at: int,
    ty: int,
)
    requires
        names.len() == tys.len(),
        forall|other: int| 0 <= other < names.len() ==> (#[trigger] names[other]) is None,
        steps_in_range(tys, defs),
        all_ready(tys, names, defs, defs.len()),
        0 <= at < defs.len(),
        0 <= ty < tys.len(),
        emitted(tys, names, out, defs, (at + 1) as nat).error is None,
        writes_name_of(tys, defs[at], ty),
    ensures
        exists|j: int| 0 <= j <= at && introduces(#[trigger] defs[j], ty),
{
    let before = emitted(tys, names, out, defs, at as nat);
    lemma_all_ready_prefix(tys, names, defs, defs.len(), (at + 1) as nat);
    lemma_names_without_text(tys, names, out, blank(), defs, at as nat);
    lemma_emitted_keeps_slots(tys, names, out, defs, at as nat);
    assert(before.error is None);
    assert(one_ready(tys, before.names, defs[at]));
    if introduces(defs[at], ty) {
    } else {
        let introduced = match defs[at] {
            Definition::DeclareTy(introduced) | Definition::DefineTy(introduced) => introduced as int,
            _ => 0,
        };
        let named = interned(tys, before.names, introduced).0;
        assert(named[ty] == before.names[ty]);
        assert(named[ty] is Some) by {
            match defs[at] {
                Definition::DefineTy(_) => {
                    match tys[introduced] {
                        Ty::Struct(record) => {
                            let i = choose|i: int|
                                0 <= i < record.fields@.len() && (#[trigger] record.fields@[i]).ty
                                    == ty;
                            assert(named[record.fields@[i].ty as int] is Some);
                        },
                        Ty::Union(union) => {
                            let i = choose|i: int|
                                0 <= i < union.fields@.len() && (#[trigger] union.fields@[i]).ty
                                    == ty;
                            assert(named[union.fields@[i].ty as int] is Some);
                        },
                        _ => {},
                    }
                },
                _ => {},
            }
        }
        lemma_names_come_from_steps(tys, names, out, defs, at as nat, ty);
    }
}

/// Whether the order declares no type twice and defines no type twice.
pub open spec fn introduced_once(defs: Seq<Definition>) -> bool {
    forall|i: int, j: int|
        0 <= i < j < defs.len() && ((#[trigger] defs[i]) is DeclareTy || defs[i] is DefineTy)
            ==> defs[i] != #[trigger] defs[j]
}

/// A type that is mentioned before it is defined was forward-declared, once,
/// before that mention: where an order that introduces no type twice can be
/// walked from a state without names, and the step at `at` writes the name of
/// another type that no step up to `at` defines, one step before `at`
/// declares that type, and no other step of the order does. The type is
/// defined once at most.
pub proof fn lemma_declared_once_before_use(
    tys: Seq<Ty>,
    names: Seq<Option<Fragment>>,
    out: FivematView,
    defs: Seq<Definition>,
    at: int,
    ty: int,
)
    requires
        names.len() == tys.len(),
        forall|other: int| 0 <= other < names.len() ==> (#[trigger] names[other]) is None,
        steps_in_range(tys, defs),
        all_ready(tys, names, defs, defs.len()),
        introduced_once(defs),
        0 <= at < defs.len(),
        0 <= ty < tys.len(),
        emitted(tys, names, out, defs, (at + 1) as nat).error is None,
        writes_name_of(tys, defs[at], ty),
        !introduces(defs[at], ty),
        forall|j: int| 0 <= j < at ==> #[trigger] defs[j] != Definition::DefineTy(ty as usize),
    ensures
        exists|j: int|
            0 <= j < at && #[trigger] defs[j] == Definition::DeclareTy(ty as usize) && forall|
                k: int,
            |
                0 <= k < defs.len() && #[trigger] defs[k] == Definition::DeclareTy(ty as usize)
                    ==> k == j,
        forall|j: int, k: int|
            0 <= j < defs.len() && 0 <= k < defs.len() && #[trigger] defs[j]
                == Definition::DefineTy(ty as usize) && #[trigger] defs[k] == Definition::DefineTy(
                ty as usize,
            ) ==> j == k,
{
    lemma_introduced_before_use(tys, names, out, defs, at, ty);
    let j = choose|j: int| 0 <= j <= at && introduces(#[trigger] defs[j], ty);
    assert(defs[j] == Definition::DeclareTy(ty as usize));
    assert forall|k: int|
        0 <= k < defs.len() && #[trigger] defs[k] == Definition::DeclareTy(
            ty as usize,
        ) implies k == j by {
        if k < j {
            assert(defs[k] != defs[j]);
        } else if j < k {
            assert(defs[j] != defs[k]);
        }
    }
    assert forall|j: int, k: int|
        0 <= j < defs.len() && 0 <= k < defs.len() && #[trigger] defs[j] == Definition::DefineTy(
            ty as usize,
        ) && #[trigger] defs[k] == Definition::DefineTy(ty as usize) implies j == k by {
        if j < k {
            assert(defs[j] != defs[k]);
        } else if k < j {
            assert(defs[k] != defs[j]);
        }
    }
}

/// The line that declares a struct, a union or an enum by name, without
/// layout; empty for any other type.
pub open spec fn opaque_declaration(ty: Ty) -> Seq<char> {
    match ty {
        Ty::Struct(record) => typedef_text("struct"@, record.name@),
        Ty::Union(union) => typedef_text("union"@, union.name@),
        Ty::Enum(enumeration) => typedef_text("enum"@, enumeration.name@),
        _ => Seq::empty(),
    }
}

/// The line that opens the definition of a struct, a union or an enum; empty
/// for any other type.
pub open spec fn definition_head(ty: Ty) -> Seq<char> {
    match ty {
        Ty::Struct(record) => open_text("struct"@, record.name@),
        Ty::Union(union) => open_text("union"@, union.name@),
        Ty::Enum(enumeration) => open_text("enum"@, enumeration.name@),
        _ => Seq::empty(),
    }
}

/// The lines that close the definition of a struct, a union or an enum; empty
/// for any other type.
pub open spec fn definition_foot(ty: Ty) -> Seq<char> {
    match ty {
        Ty::Struct(record) => close_text(record.name@),
        Ty::Union(union) => close_text(union.name@),
        Ty::Enum(enumeration) => close_text(enumeration.name@),
        _ => Seq::empty(),
    }
}

/// The lines between the head and the foot of the definition of a struct, a
/// union or an enum, before they are indented: its fields or its variants.
pub open spec fn definition_body(names: Seq<Option<Fragment>>, ty: Ty) -> Seq<char> {
    match ty {
        Ty::Struct(record) => fields_text(names, record.fields@, record.fields@.len()),
        Ty::Union(union) => fields_text(names, union.fields@, union.fields@.len()),
        Ty::Enum(enumeration) => variants_text(enumeration.variants@, enumeration.variants@.len()),
        _ => Seq::empty(),
    }
}

/// A block written at depth zero is its opening line as it is, then its body
/// as the buffer shows it one level deeper, then its closing lines as they
/// are, behind what the buffer held.
pub proof fn lemma_block_text(out: FivematView, open: Seq<char>, body: Seq<char>, close: Seq<char>)
    requires
        out.indent == 0,
    ensures
        block(out, open, body, close).out == out.out + open + out.write(open).add_indent(1).shown(
            body,
        ) + close,
{
    let opened = out.write(open);
    let inner = opened.add_indent(1);
    let filled = inner.write(body);
    let outer = filled.sub_indent(1);
    lemma_write_at_depth_zero(out, open);
    lemma_write_appends(inner, body);
    lemma_write_keeps_depth(out, open);
    lemma_write_keeps_depth(inner, body);
    lemma_write_at_depth_zero(outer, close);
}

/// The forward declaration of a struct, a union or an enum, written at depth
/// zero, adds its one line to the text: `typedef`, the kind, and the name
/// twice.
pub proof fn lemma_declaration_text(
    tys: Seq<Ty>,
    names: Seq<Option<Fragment>>,
    out: FivematView,
    ty: int,
)
    requires
        out.indent == 0,
        tys[ty] is Struct || tys[ty] is Union || tys[ty] is Enum,
    ensures
        declared(tys, names, out, ty).error is None,
        declared(tys, names, out, ty).out.out == out.out + opaque_declaration(tys[ty]),
{
    lemma_write_at_depth_zero(out, opaque_declaration(tys[ty]));
}

/// The definition of a struct, a union or an enum without attributes, written
/// at depth zero, adds its one block to the text: the head that names the
/// type, its fields or variants one level deeper, and the foot that names the
/// type again.
pub proof fn lemma_definition_text(
    tys: Seq<Ty>,
    names: Seq<Option<Fragment>>,
    out: FivematView,
    ty: int,
)
    requires
        out.indent == 0,
        opens_block(tys, ty),
    ensures
        defined(tys, names, out, ty).error is None,
        defined(tys, names, out, ty).out.out == out.out + definition_head(tys[ty]) + out.write(
            definition_head(tys[ty]),
        ).add_indent(1).shown(definition_body(interned(tys, names, ty).0, tys[ty]))
            + definition_foot(tys[ty]),
{
    lemma_block_text(
        out,
        definition_head(tys[ty]),
        definition_body(interned(tys, names, ty).0, tys[ty]),
        definition_foot(tys[ty]),
    );
}

/// A step adds to the end of the text and leaves what was written as it is;
/// the depth after it is the depth before it.
pub proof fn lemma_step_appends(
    tys: Seq<Ty>,
    names: Seq<Option<Fragment>>,
    out: FivematView,
    def: Definition,
)
    ensures
        out.out.is_prefix_of(emitted_one(tys, names, out, def).out.out),
        emitted_one(tys, names, out, def).out.indent == out.indent,
{
    match def {
        Definition::DeclareTy(ty) => {
            lemma_declared_appends(tys, names, out, ty as int);
        },
        Definition::DefineTy(ty) => {
            let (named, gap) = interned(tys, names, ty as int);
            lemma_defined_keeps_depth(tys, names, out, ty as int);
            if gap is None {
                if opens_block(tys, ty as int) {
                    let open = definition_head(tys[ty as int]);
                    let body = definition_body(named, tys[ty as int]);
                    let close = definition_foot(tys[ty as int]);
                    let opened = out.write(open);
                    let inner = opened.add_indent(1);
                    let outer = inner.write(body).sub_indent(1);
                    lemma_write_appends(out, open);
                    lemma_write_appends(inner, body);
                    lemma_write_appends(outer, close);
                } else if tys[ty as int] is Alias {
                    lemma_declared_appends(tys, named, out, ty as int);
                }
            }
        },
        _ => {},
    }
}

/// A forward declaration adds to the end of the text and keeps the depth.
pub proof fn lemma_declared_appends(
    tys: Seq<Ty>,
    names: Seq<Option<Fragment>>,
    out: FivematView,
    ty: int,
)
    ensures
        out.out.is_prefix_of(declared(tys, names, out, ty).out.out),
        declared(tys, names, out, ty).out.indent == out.indent,
{
    let (named, gap) = interned(tys, names, ty);
    lemma_declared_keeps_depth(tys, names, out, ty);
    if gap is None {
        if let Ok(text) = forward_text(tys, named, ty) {
            lemma_write_appends(out, text);
        }
    }
}

/// The steps write one behind the other: what the first `count` steps have
/// written stands unchanged at the start of what `longer` steps have written,
/// and the depth stays what it was.
pub proof fn lemma_text_only_grows(
    tys: Seq<Ty>,
    names: Seq<Option<Fragment>>,
    out: FivematView,
    defs: Seq<Definition>,
    count: nat,
    longer: nat,
)
    requires
        count <= longer,
    ensures
        emitted(tys, names, out, defs, count).out.out.is_prefix_of(
            emitted(tys, names, out, defs, longer).out.out,
        ),
        emitted(tys, names, out, defs, longer).out.indent == out.indent,
    decreases longer,
{
    if longer == 0 {
    } else if count == longer {
        lemma_text_only_grows(tys, names, out, defs, (longer - 1) as nat, (longer - 1) as nat);
        let before = emitted(tys, names, out, defs, (longer - 1) as nat);
        if before.error is None {
            lemma_step_appends(tys, before.names, before.out, defs[longer - 1]);
        }
    } else {
        lemma_text_only_grows(tys, names, out, defs, count, (longer - 1) as nat);
        let before = emitted(tys, names, out, defs, (longer - 1) as nat);
        if before.error is None {
            lemma_step_appends(tys, before.names, before.out, defs[longer - 1]);
        }
    }
}

/// The forward declaration of a type stands in the text before whatever a
/// later step writes: where the order is walked from depth zero and the step
/// at `declared_at` declares a struct, a union or an enum, that step adds the
/// type's one line of declaration to the text, and the text that the step at
/// `used_at` finds holds that line where it was written; what the later step
/// writes comes behind it.
pub proof fn lemma_declaration_stands_before_use(
    tys: Seq<Ty>,
    names: Seq<Option<Fragment>>,
    out: FivematView,
    defs: Seq<Definition>,
    declared_at: int,
    used_at: int,
    ty: int,
)
    requires
        out.indent == 0,
        0 <= declared_at < used_at < defs.len(),
        defs[declared_at] == Definition::DeclareTy(ty as usize),
        0 <= ty <= usize::MAX,
        tys[ty] is Struct || tys[ty] is Union || tys[ty] is Enum,
        emitted(tys, names, out, defs, declared_at as nat).error is None,
    ensures
        emitted(tys, names, out, defs, (declared_at + 1) as nat).error is None,
        emitted(tys, names, out, defs, (declared_at + 1) as nat).out.out == emitted(
            tys,
            names,
            out,
            defs,
            declared_at as nat,
        ).out.out + opaque_declaration(tys[ty]),
        emitted(tys, names, out, defs, (declared_at + 1) as nat).out.out.is_prefix_of(
            emitted(tys, names, out, defs, used_at as nat).out.out,
        ),
        emitted(tys, names, out, defs, used_at as nat).out.out.is_prefix_of(
            emitted(tys, names, out, defs, (used_at + 1) as nat).out.out,
        ),
{
    let before = emitted(tys, names, out, defs, declared_at as nat);
    lemma_text_only_grows(tys, names, out, defs, declared_at as nat, declared_at as nat);
    lemma_declaration_text(tys, before.names, before.out, ty);
    lemma_text_only_grows(tys, names, out, defs, (declared_at + 1) as nat, used_at as nat);
    lemma_text_only_grows(tys, names, out, defs, used_at as nat, (used_at + 1) as nat);
}

/// Each definition is one block of the text, and the blocks stand in the
/// order of their steps: where the order is walked from depth zero and the
/// step at `at` defines a struct, a union or an enum without attributes, that
/// step adds the type's block behind all that the steps before it have
/// written, and every later step writes behind the block.
pub proof fn lemma_definition_stands_in_its_place(
    tys: Seq<Ty>,
    names: Seq<Option<Fragment>>,
    out: FivematView,
    defs: Seq<Definition>,
    at: int,
    later: int,
    ty: int,
)
    requires
        out.indent == 0,
        0 <= at < later <= defs.len(),
        defs[at] == Definition::DefineTy(ty as usize),
        0 <= ty <= usize::MAX,
        opens_block(tys, ty),
        emitted(tys, names, out, defs, at as nat).error is None,
    ensures
        emitted(tys, names, out, defs, (at + 1) as nat).error is None,
        emitted(tys, names, out, defs, (at + 1) as nat).out.out == ({
            let before = emitted(tys, names, out, defs, at as nat);
            before.out.out + definition_head(tys[ty]) + before.out.write(
                definition_head(tys[ty]),
            ).add_indent(1).shown(definition_body(interned(tys, before.names, ty).0, tys[ty]))
                + definition_foot(tys[ty])
        }),
        emitted(tys, names, out, defs, (at + 1) as nat).out.out.is_prefix_of(
            emitted(tys, names, out, defs, later as nat).out.out,
        ),
{
    let before = emitted(tys, names, out, defs, at as nat);
    lemma_text_only_grows(tys, names, out, defs, at as nat, at as nat);
    lemma_definition_text(tys, before.names, before.out, ty);
    lemma_text_only_grows(tys, names, out, defs, (at + 1) as nat, later as nat);
}

/// Each step of the order is taken once and in its place: what the first
/// `count + 1` steps emit is what the first `count` emit, followed by the one
/// forward declaration or definition that the step at `count` asks for.
pub proof fn lemma_one_emission_per_step(
    tys: Seq<Ty>,
    names: Seq<Option<Fragment>>,
    out: FivematView,
    defs: Seq<Definition>,
    count: nat,
)
    requires
        emitted(tys, names, out, defs, count).error is None,
    ensures
        emitted(tys, names, out, defs, count + 1) == emitted_one(
            tys,
            emitted(tys, names, out, defs, count).names,
            emitted(tys, names, out, defs, count).out,
            defs[count as int],
        ),
{
}

/// Whether `known` tells of each type whether it has a name in `names`.
pub open spec fn tells_known(known: Seq<bool>, names: Seq<Option<Fragment>>) -> bool {
    &&& known.len() == names.len()
    &&& forall|ty: int| 0 <= ty < names.len() ==> known[ty] == (#[trigger] names[ty]) is Some
}

/// Once a capability gap has stopped the emission, the steps that are left
/// need no names.
pub proof fn lemma_ready_after_gap(
    tys: Seq<Ty>,
    names: Seq<Option<Fragment>>,
    defs: Seq<Definition>,
    count: nat,
    longer: nat,
)
    requires
        count <= longer,
        all_ready(tys, names, defs, count),
        emitted(tys, names, blank(), defs, count).error is Some,
    ensures
        all_ready(tys, names, defs, longer),
    decreases longer,
{
    if count < longer {
        lemma_ready_after_gap(tys, names, defs, count, (longer - 1) as nat);
        lemma_emitted_stops(tys, names, blank(), defs, count, (longer - 1) as nat);
    }
}

fn fields_known(known: &Vec<bool>, fields: &Vec<FieldTy>, Ghost(names): Ghost<
    Seq<Option<Fragment>>,
>) -> (ready: bool)
    requires
        tells_known(known@, names),
        forall|i: int| 0 <= i < fields@.len() ==> (#[trigger] fields@[i]).ty < names.len(),
    ensures
        ready == fields_ready(names, fields@),
{
    let mut i: usize = 0;
    while i < fields.len()
        invariant
            i <= fields.len(),
            tells_known(known@, names),
            forall|j: int| 0 <= j < fields@.len() ==> (#[trigger] fields@[j]).ty < names.len(),
            forall|j: int| 0 <= j < i ==> names[(#[trigger] fields@[j]).ty as int] is Some,
        decreases fields.len() - i,
    {
        if !known[fields[i].ty] {
            return false;
        }
        i = i + 1;
    }
    true
}

/// What a dry run of one step comes to.
enum Dry {
    /// The step would miss a name.
    Unready,
    /// The step finds its names and meets a capability gap.
    Gap,
    /// The step finds its names and succeeds.
    Done,
}

/// Whether the type at index `ty` could be given its name, and whether that
/// would meet a capability gap; where it would not, the type is marked as
/// known.
fn dry_intern(state: &TestState, known: &mut Vec<bool>, ty: TyIdx, Ghost(names): Ghost<
    Seq<Option<Fragment>>,
>) -> (dry: Dry)
    requires
        state.wf(),
        ty < state.types.tys().len(),
        names.len() == state.types.tys().len(),
        tells_known(old(known)@, names),
    ensures
        dry is Unready <==> !intern_ready(state.types.tys(), names, ty as int),
        dry is Gap <==> intern_ready(state.types.tys(), names, ty as int) && interned(
            state.types.tys(),
            names,
            ty as int,
        ).1 is Some,
        dry is Done ==> tells_known(final(known)@, interned(state.types.tys(), names, ty as int).0),
        !(dry is Done) ==> final(known)@ == old(known)@,
{
    if known[ty] {
        return Dry::Done;
    }
    let outcome = match state.types.realize_ty(ty) {
        Ty::Primitive(prim) => match prim {
            PrimitiveTy::I256 | PrimitiveTy::U256 | PrimitiveTy::F16 | PrimitiveTy::F128 => Dry::Gap,
            _ => Dry::Done,
        },
        Ty::Array(array) => if known[array.elem_ty] {
            Dry::Done
        } else {
            Dry::Unready
        },
        Ty::Ref(reference) => if known[reference.pointee_ty] {
            Dry::Done
        } else {
            Dry::Unready
        },
        Ty::Pun(pun) => if known[pun.real] {
            Dry::Done
        } else {
            Dry::Unready
        },
        Ty::Empty => Dry::Gap,
        _ => Dry::Done,
    };
    match outcome {
        Dry::Done => {
            known.set(ty, true);
        },
        _ => {},
    }
    outcome
}

/// What the forward declaration of the type at index `ty` would come to once
/// the type has its name.
fn dry_forward(state: &TestState, known: &Vec<bool>, ty: TyIdx, Ghost(names): Ghost<
    Seq<Option<Fragment>>,
>) -> (dry: Dry)
    requires
        state.wf(),
        ty < state.types.tys().len(),
        names.len() == state.types.tys().len(),
        tells_known(known@, names),
    ensures
        dry is Unready <==> !forward_ready(state.types.tys(), names, ty as int),
        dry is Gap <==> forward_ready(state.types.tys(), names, ty as int) && forward_text(
            state.types.tys(),
            names,
            ty as int,
        ) is Err,
{
    match state.types.realize_ty(ty) {
        Ty::Tagged(_) => Dry::Gap,
        Ty::Empty => Dry::Gap,
        Ty::Alias(alias) => if alias.attrs.len() != 0 {
            Dry::Gap
        } else if known[alias.real] {
            Dry::Done
        } else {
            Dry::Unready
        },
        _ => Dry::Done,
    }
}

/// What the definition of the type at index `ty` would come to once the type
/// has its name.
fn dry_body(state: &TestState, known: &Vec<bool>, ty: TyIdx, Ghost(names): Ghost<
    Seq<Option<Fragment>>,
>, Ghost(out): Ghost<FivematView>) -> (dry: Dry)
    requires
        state.wf(),
        ty < state.types.tys().len(),
        names.len() == state.types.tys().len(),
        tells_known(known@, names),
        names[ty as int] is Some,
    ensures
        dry is Unready <==> !body_ready(state.types.tys(), names, ty as int),
        dry is Gap <==> body_ready(state.types.tys(), names, ty as int) && defined(
            state.types.tys(),
            names,
            out,
            ty as int,
        ).error is Some,
        defined(state.types.tys(), names, out, ty as int).names == names,
{
    match state.types.realize_ty(ty) {
        Ty::Struct(record) => if record.attrs.len() != 0 {
            Dry::Gap
        } else if fields_known(known, &record.fields, Ghost(names)) {
            Dry::Done
        } else {
            Dry::Unready
        },
        Ty::Union(union) => if union.attrs.len() != 0 {
            Dry::Gap
        } else if fields_known(known, &union.fields, Ghost(names)) {
            Dry::Done
        } else {
            Dry::Unready
        },
        Ty::Enum(enumeration) => if enumeration.attrs.len() != 0 {
            Dry::Gap
        } else {
            Dry::Done
        },
        Ty::Tagged(_) => Dry::Gap,
        Ty::Empty => Dry::Gap,
        Ty::Alias(alias) => if alias.attrs.len() != 0 {
            Dry::Gap
        } else if known[alias.real] {
            Dry::Done
        } else {
            Dry::Unready
        },
        _ => Dry::Done,
    }
}

impl CcAbiImpl {
    /// Writes the block of declarations through which the caller reaches the
    /// functions of the test, under the convention of the test's options.
    ///
    /// Fails with a capability gap, and writes nothing, where the toolchain has
    /// no decoration for the convention.
    pub fn generate_caller_externs(&self, f: &mut Fivemat, state: &TestState) -> (res: Result<
        (),
        GenerateError,
    >)
        requires
            state.wf(),
            convention_text(state.options.convention, self.platform, self.cc_flavor) is Some
                ==> forall|i: int|
                0 <= i < state.desired_funcs@.len() ==> signature_ready(
                    state.names(),
                    state.types.funcs()[(#[trigger] state.desired_funcs@[i]) as int],
                ),
            convention_text(state.options.convention, self.platform, self.cc_flavor) is Some
                ==> old(f)@.indent < usize::MAX,
        ensures
            match convention_text(state.options.convention, self.platform, self.cc_flavor) {
                Some(convention) => res is Ok && final(f)@ == block(
                    old(f)@,
                    externs_open_text(convention),
                    externs_text(
                        state.names(),
                        state.types.funcs(),
                        state.desired_funcs@,
                        state.desired_funcs@.len(),
                    ),
                    externs_close_text(),
                ),
                None => final(f)@ == old(f)@ && reports(
                    res,
                    Some(unsupported_convention_text(state.options.convention)),
                ),
            },
    {
        let convention_decl = match self.convention_decl(state.options.convention) {
            Ok(text) => text,
            Err(gap) => {
                return Err(gap);
            },
        };
        let mut line = String::from_str("extern \"");
        line.append(convention_decl);
        line.append("\" {\n");
        f.write_str(line.as_str());
        f.add_indent(1);
        let ghost names = state.names();
        let ghost funcs = state.types.funcs();
        let ghost inner = f@;
        assert(inner.write(Seq::empty()) == inner);
        let mut i: usize = 0;
        while i < state.desired_funcs.len()
            invariant
                i <= state.desired_funcs.len(),
                state.wf(),
                names == state.names(),
                funcs == state.types.funcs(),
                forall|j: int|
                    0 <= j < state.desired_funcs@.len() ==> signature_ready(
                        names,
                        funcs[(#[trigger] state.desired_funcs@[j]) as int],
                    ),
                f@ == inner.write(externs_text(names, funcs, state.desired_funcs@, i as nat)),
                f@.indent == inner.indent,
            decreases state.desired_funcs.len() - i,
        {
            let func = state.desired_funcs[i];
            let ghost before = externs_text(names, funcs, state.desired_funcs@, i as nat);
            let ghost signature = signature_text(names, funcs[func as int]);
            let _ = self.generate_signature(f, state, func);
            f.write_str(");\n");
            proof {
                lemma_write_concat(inner, before, signature);
                lemma_write_concat(inner, before + signature, ");\n"@);
            }
            i = i + 1;
        }
        f.sub_indent(1);
        f.write_str("}\n");
        f.newline();
        proof {
            let body = externs_text(names, funcs, state.desired_funcs@, state.desired_funcs@.len());
            let unindented = inner.write(body).sub_indent(1);
            reveal_strlit("}\n\n");
            reveal_strlit("}\n");
            assert("}\n\n"@.drop_last() =~= "}\n"@);
            assert("}\n\n"@.last() == '\n');
            assert(unindented.write("}\n\n"@) == unindented.write("}\n"@).put('\n'));
        }
        Ok(())
    }

    /// Introduces the types of the test in the order that its program gives:
    /// each entry of the order forward-declares or defines one type.
    ///
    /// Stops at the first capability gap and reports it.
    pub fn generate_definitions(&self, f: &mut Fivemat, state: &mut TestState) -> (res: Result<
        (),
        GenerateError,
    >)
        requires
            old(state).wf(),
            all_ready(
                old(state).types.tys(),
                old(state).names(),
                old(state).defs@,
                old(state).defs@.len(),
            ),
            any_block(old(state).types.tys(), old(state).defs@, old(state).defs@.len())
                ==> old(f)@.indent < usize::MAX,
        ensures
            final(state).wf(),
            final(state).same_test(old(state)),
            final(state).names() == emitted(
                old(state).types.tys(),
                old(state).names(),
                old(f)@,
                old(state).defs@,
                old(state).defs@.len(),
            ).names,
            final(f)@ == emitted(
                old(state).types.tys(),
                old(state).names(),
                old(f)@,
                old(state).defs@,
                old(state).defs@.len(),
            ).out,
            reports(
                res,
                emitted(
                    old(state).types.tys(),
                    old(state).names(),
                    old(f)@,
                    old(state).defs@,
                    old(state).defs@.len(),
                ).error,
            ),
    {
        let ghost tys = state.types.tys();
        let ghost names = state.names();
        let ghost defs = state.defs@;
        let mut i: usize = 0;
        while i < state.defs.len()
            invariant
                i <= state.defs.len(),
                state.wf(),
                state.same_test(old(state)),
                tys == old(state).types.tys(),
                names == old(state).names(),
                defs == old(state).defs@,
                all_ready(tys, names, defs, defs.len()),
                emitted(tys, names, old(f)@, defs, i as nat).error is None,
                state.names() == emitted(tys, names, old(f)@, defs, i as nat).names,
                f@ == emitted(tys, names, old(f)@, defs, i as nat).out,
                f@.indent == old(f)@.indent,
                any_block(tys, defs, defs.len()) ==> old(f)@.indent < usize::MAX,
            decreases state.defs.len() - i,
        {
            proof {
                lemma_all_ready_prefix(tys, names, defs, defs.len(), (i + 1) as nat);
                lemma_names_without_text(tys, names, old(f)@, blank(), defs, i as nat);
            }
            let ghost before = f@;
            let ghost named = state.names();
            let step = match state.defs[i] {
                Definition::DeclareTy(ty) => {
                    proof {
                        lemma_declared_keeps_depth(tys, named, before, ty as int);
                    }
                    self.generate_forward_decl(f, state, ty)
                },
                Definition::DefineTy(ty) => {
                    proof {
                        lemma_defined_keeps_depth(tys, named, before, ty as int);
                    }
                    self.generate_tydef(f, state, ty)
                },
                Definition::DefineFunc(_) => {
                    // The functions' bodies are written elsewhere
                    Ok(())
                },
                Definition::DeclareFunc(_) => {
                    // Nothing to do: a signature is written where it is used
                    Ok(())
                },
            };
            i = i + 1;
            match step {
                Ok(_) => {},
                Err(gap) => {
                    proof {
                        lemma_emitted_stops(tys, names, old(f)@, defs, i as nat, defs.len());
                    }
                    return Err(gap);
                },
            }
        }
        Ok(())
    }

    /// Whether [`CcAbiImpl::generate_caller_externs`] finds the names it
    /// writes: those of the types in the signatures of the desired functions.
    pub fn externs_ready(&self, state: &TestState) -> (ready: bool)
        requires
            state.wf(),
        ensures
            ready == forall|i: int|
                0 <= i < state.desired_funcs@.len() ==> signature_ready(
                    state.names(),
                    state.types.funcs()[(#[trigger] state.desired_funcs@[i]) as int],
                ),
    {
        let ghost names = state.names();
        let ghost funcs = state.types.funcs();
        let mut i: usize = 0;
        while i < state.desired_funcs.len()
            invariant
                i <= state.desired_funcs.len(),
                state.wf(),
                names == state.names(),
                funcs == state.types.funcs(),
                forall|j: int|
                    0 <= j < i ==> signature_ready(
                        names,
                        funcs[(#[trigger] state.desired_funcs@[j]) as int],
                    ),
            decreases state.desired_funcs.len() - i,
        {
            let function = state.types.realize_func(state.desired_funcs[i]);
            if function.outputs.len() > 0 && !state.is_interned(function.outputs[0].ty) {
                return false;
            }
            let mut k: usize = 0;
            while k < function.inputs.len()
                invariant
                    k <= function.inputs.len(),
                    i < state.desired_funcs.len(),
                    state.wf(),
                    names == state.names(),
                    funcs == state.types.funcs(),
                    *function == funcs[state.desired_funcs@[i as int] as int],
                    args_in_range(function.inputs@, state.types.tys().len()),
                    forall|j: int|
                        0 <= j < k ==> names[(#[trigger] function.inputs@[j]).ty as int] is Some,
                decreases function.inputs.len() - k,
            {
                if !state.is_interned(function.inputs[k].ty) {
                    assert(!signature_ready(names, funcs[state.desired_funcs@[i as int] as int]));
                    return false;
                }
                k = k + 1;
            }
            i = i + 1;
        }
        true
    }

    /// Whether [`CcAbiImpl::generate_definitions`] finds the names it writes:
    /// whether each step of the order comes after the steps that give the
    /// names it needs.
    pub fn definitions_ready(&self, state: &TestState) -> (ready: bool)
        requires
            state.wf(),
        ensures
            ready == all_ready(
                state.types.tys(),
                state.names(),
                state.defs@,
                state.defs@.len(),
            ),
    {
        let ghost tys = state.types.tys();
        let ghost names = state.names();
        let ghost defs = state.defs@;
        let mut known: Vec<bool> = Vec::new();
        let mut n: usize = 0;
        while n < state.tynames.len()
            invariant
                n <= state.tynames.len(),
                state.wf(),
                names == state.names(),
                known@.len() == n,
                forall|ty: int| 0 <= ty < n ==> known@[ty] == (#[trigger] names[ty]) is Some,
            decreases state.tynames.len() - n,
        {
            known.push(state.is_interned(n));
            n = n + 1;
        }
        let mut i: usize = 0;
        while i < state.defs.len()
            invariant
                i <= state.defs.len(),
                state.wf(),
                tys == state.types.tys(),
                names == state.names(),
                defs == state.defs@,
                all_ready(tys, names, defs, i as nat),
                emitted(tys, names, blank(), defs, i as nat).error is None,
                tells_known(known@, emitted(tys, names, blank(), defs, i as nat).names),
                emitted(tys, names, blank(), defs, i as nat).names.len() == tys.len(),
            decreases state.defs.len() - i,
        {
            let ghost before = emitted(tys, names, blank(), defs, i as nat);
            let (ty, define) = match state.defs[i] {
                Definition::DeclareTy(ty) => (ty, false),
                Definition::DefineTy(ty) => (ty, true),
                _ => {
                    i = i + 1;
                    continue ;
                },
            };
            let mut dry = dry_intern(state, &mut known, ty, Ghost(before.names));
            let ghost named = interned(tys, before.names, ty as int).0;
            match dry {
                Dry::Done => {
                    dry = if define {
                        dry_body(state, &known, ty, Ghost(named), Ghost(before.out))
                    } else {
                        dry_forward(state, &known, ty, Ghost(named))
                    };
                },
                _ => {},
            }
            i = i + 1;
            match dry {
                Dry::Unready => {
                    proof {
                        if all_ready(tys, names, defs, defs.len()) {
                            lemma_all_ready_prefix(tys, names, defs, defs.len(), i as nat);
                        }
                    }
                    return false;
                },
                Dry::Gap => {
                    proof {
                        lemma_ready_after_gap(tys, names, defs, i as nat, defs.len());
                    }
                    return true;
                },
                Dry::Done => {},
            }
        }
        true
    }

    /// Gives the type at index `ty` its name, unless it has one.
    ///
    /// Fails with a capability gap, and changes nothing, where C has no such
    /// type.
    pub fn intern_tyname(&self, state: &mut TestState, ty: TyIdx) -> (res: Result<
        (),
        GenerateError,
    >)
        requires
            old(state).wf(),
            ty < old(state).types.tys().len(),
            intern_ready(old(state).types.tys(), old(state).names(), ty as int),
        ensures
            final(state).wf(),
            final(state).same_test(old(state)),
            final(state).names() == interned(
                old(state).types.tys(),
                old(state).names(),
                ty as int,
            ).0,
            reports(res, interned(old(state).types.tys(), old(state).names(), ty as int).1),
    {
        // Don't double-intern
        if state.is_interned(ty) {
            return Ok(());
        }
        let ghost tys = state.types.tys();
        let ghost names = state.names();
        let name = match state.types.realize_ty(ty) {
            // Structural types that need no definition
            Ty::Primitive(prim) => {
                let text = match prim {
                    PrimitiveTy::I8 => "int8_t ",
                    PrimitiveTy::I16 => "int16_t ",
                    PrimitiveTy::I32 => "int32_t ",
                    PrimitiveTy::I64 => "int64_t ",
                    PrimitiveTy::I128 => "__int128_t ",
                    PrimitiveTy::U8 => "uint8_t ",
                    PrimitiveTy::U16 => "uint16_t ",
                    PrimitiveTy::U32 => "uint32_t ",
                    PrimitiveTy::U64 => "uint64_t ",
                    PrimitiveTy::U128 => "__uint128_t ",
                    PrimitiveTy::F32 => "float ",
                    PrimitiveTy::F64 => "double ",
                    PrimitiveTy::Bool => "bool ",
                    PrimitiveTy::Ptr => "void *",
                    PrimitiveTy::I256 => {
                        return Err(GenerateError::unsupported("c doesn't have i256?"));
                    },
                    PrimitiveTy::U256 => {
                        return Err(GenerateError::unsupported("c doesn't have u256?"));
                    },
                    PrimitiveTy::F16 => {
                        return Err(GenerateError::unsupported("c doesn't have f16?"));
                    },
                    PrimitiveTy::F128 => {
                        return Err(GenerateError::unsupported("c doesn't have f128?"));
                    },
                };
                NameFragment { prefix: String::from_str(text), suffix: String::new() }
            },
            Ty::Array(array) => {
                let elem = state.tyname(array.elem_ty);
                let mut suffix = String::from_str("[");
                push_decimal(&mut suffix, array.len);
                suffix.append("]");
                suffix.append(elem.suffix.as_str());
                NameFragment { prefix: elem.prefix.clone(), suffix }
            },
            Ty::Ref(reference) => {
                let pointee = state.tyname(reference.pointee_ty);
                // If the last type modifier was postfix (an array dimension)
                // then the pointer needs parentheses to bind more tightly
                let was_postfix = match state.types.realize_ty(reference.pointee_ty) {
                    Ty::Array(_) => true,
                    _ => false,
                };
                let mut prefix = pointee.prefix.clone();
                if was_postfix {
                    prefix.append("(*");
                    let mut suffix = String::from_str(")");
                    suffix.append(pointee.suffix.as_str());
                    NameFragment { prefix, suffix }
                } else {
                    prefix.append("*");
                    NameFragment { prefix, suffix: pointee.suffix.clone() }
                }
            },
            // Nominal types go by their declared name
            Ty::Struct(record) => NameFragment {
                prefix: record.name.clone(),
                suffix: String::new(),
            },
            Ty::Union(union) => NameFragment { prefix: union.name.clone(), suffix: String::new() },
            Ty::Enum(enumeration) => NameFragment {
                prefix: enumeration.name.clone(),
                suffix: String::new(),
            },
            Ty::Tagged(tagged) => NameFragment {
                prefix: tagged.name.clone(),
                suffix: String::new(),
            },
            Ty::Alias(alias) => NameFragment { prefix: alias.name.clone(), suffix: String::new() },
            // Puns evaporate into the type they stand for
            Ty::Pun(pun) => {
                let real_ty = state.types.resolve_pun(pun);
                let stands_for = state.tyname(real_ty);
                NameFragment {
                    prefix: stands_for.prefix.clone(),
                    suffix: stands_for.suffix.clone(),
                }
            },
            Ty::Empty => {
                return Err(GenerateError::unsupported("c doesn't have empty tuples"));
            },
        };
        assert(tyname_of(tys, names, ty as int) == Ok::<Fragment, Seq<char>>(name@));
        state.set_tyname(ty, name);
        Ok(())
    }


    /// Forward-declares the type at index `ty`, so that types which refer to
    /// each other can be defined in any order.
    pub fn generate_forward_decl(&self, f: &mut Fivemat, state: &mut TestState, ty: TyIdx) -> (res:
        Result<(), GenerateError>)
        requires
            old(state).wf(),
            ty < old(state).types.tys().len(),
            declare_ready(old(state).types.tys(), old(state).names(), ty as int),
        ensures
            final(state).wf(),
            final(state).same_test(old(state)),
            final(state).names() == declared(
                old(state).types.tys(),
                old(state).names(),
                old(f)@,
                ty as int,
            ).names,
            final(f)@ == declared(
                old(state).types.tys(),
                old(state).names(),
                old(f)@,
                ty as int,
            ).out,
            reports(
                res,
                declared(old(state).types.tys(), old(state).names(), old(f)@, ty as int).error,
            ),
    {
        // Make sure our own name is interned
        match self.intern_tyname(state, ty) {
            Ok(_) => {},
            Err(gap) => {
                return Err(gap);
            },
        }
        match state.types.realize_ty(ty) {
            // Nominal types we need to emit a decl for
            Ty::Struct(record) => {
                write_typedef(f, "struct", record.name.as_str());
            },
            Ty::Union(union) => {
                write_typedef(f, "union", union.name.as_str());
            },
            Ty::Enum(enumeration) => {
                write_typedef(f, "enum", enumeration.name.as_str());
            },
            Ty::Tagged(_) => {
                return Err(GenerateError::unsupported("c doesn't have tagged unions impled yet"));
            },
            Ty::Alias(alias) => {
                if alias.attrs.len() != 0 {
                    return Err(
                        GenerateError::unsupported("don't yet know how to apply attrs to aliases"),
                    );
                }
                let aliased = state.tyname(alias.real);
                let mut line = String::from_str("typedef ");
                line.append(aliased.prefix.as_str());
                line.append(alias.name.as_str());
                line.append(aliased.suffix.as_str());
                line.append(";\n\n");
                f.write_str(line.as_str());
            },
            Ty::Pun(_) => {
                // Puns are evaporated by the type name interner
                assert(old(f)@.write(Seq::empty()) == old(f)@);
            },
            Ty::Primitive(_) => {
                // Builtin
                assert(old(f)@.write(Seq::empty()) == old(f)@);
            },
            Ty::Array(_) => {
                // Builtin
                assert(old(f)@.write(Seq::empty()) == old(f)@);
            },
            Ty::Ref(_) => {
                // Builtin
                assert(old(f)@.write(Seq::empty()) == old(f)@);
            },
            Ty::Empty => {
                return Err(GenerateError::unsupported("c doesn't have empty tuples"));
            },
        }
        Ok(())
    }

    /// Defines the type at index `ty` in full.
    pub fn generate_tydef(&self, f: &mut Fivemat, state: &mut TestState, ty: TyIdx) -> (res:
        Result<(), GenerateError>)
        requires
            old(state).wf(),
            ty < old(state).types.tys().len(),
            define_ready(old(state).types.tys(), old(state).names(), ty as int),
            opens_block(old(state).types.tys(), ty as int) ==> old(f)@.indent < usize::MAX,
        ensures
            final(state).wf(),
            final(state).same_test(old(state)),
            final(state).names() == defined(
                old(state).types.tys(),
                old(state).names(),
                old(f)@,
                ty as int,
            ).names,
            final(f)@ == defined(
                old(state).types.tys(),
                old(state).names(),
                old(f)@,
                ty as int,
            ).out,
            reports(
                res,
                defined(old(state).types.tys(), old(state).names(), old(f)@, ty as int).error,
            ),
    {
        // Make sure our own name is interned
        match self.intern_tyname(state, ty) {
            Ok(_) => {},
            Err(gap) => {
                return Err(gap);
            },
        }
        let ghost names = state.names();
        match state.types.realize_ty(ty) {
            // Nominal types we need to emit a decl for
            Ty::Struct(record) => {
                match self.generate_repr_attr(f, record.attrs.as_slice(), "struct") {
                    Ok(_) => {},
                    Err(gap) => {
                        return Err(gap);
                    },
                }
                write_open(f, "struct", record.name.as_str());
                f.add_indent(1);
                write_fields(f, state, &record.fields);
                f.sub_indent(1);
                write_close(f, record.name.as_str());
            },
            Ty::Union(union) => {
                match self.generate_repr_attr(f, union.attrs.as_slice(), "union") {
                    Ok(_) => {},
                    Err(gap) => {
                        return Err(gap);
                    },
                }
                write_open(f, "union", union.name.as_str());
                f.add_indent(1);
                write_fields(f, state, &union.fields);
                f.sub_indent(1);
                write_close(f, union.name.as_str());
            },
            Ty::Enum(enumeration) => {
                match self.generate_repr_attr(f, enumeration.attrs.as_slice(), "enum") {
                    Ok(_) => {},
                    Err(gap) => {
                        return Err(gap);
                    },
                }
                write_open(f, "enum", enumeration.name.as_str());
                f.add_indent(1);
                write_variants(f, &enumeration.variants);
                f.sub_indent(1);
                write_close(f, enumeration.name.as_str());
            },
            Ty::Tagged(_) => {
                return Err(GenerateError::unsupported("c doesn't have tagged unions impled yet"));
            },
            Ty::Alias(_) => {
                // Just reuse the other impl
                return self.generate_forward_decl(f, state, ty);
            },
            Ty::Pun(_) => {
                // Puns are evaporated by the type name interner
            },
            Ty::Primitive(_) => {
                // Builtin
            },
            Ty::Array(_) => {
                // Builtin
            },
            Ty::Ref(_) => {
                // Builtin
            },
            Ty::Empty => {
                return Err(GenerateError::unsupported("c doesn't have empty tuples"));
            },
        }
        Ok(())
    }

    /// Writes the attributes of a type of the kind `_ty_style`.
    ///
    /// The backend writes none: a type with attributes is refused, so that no
    /// layout is written that differs from the one asked for.
    pub fn generate_repr_attr(&self, f: &mut Fivemat, attrs: &[Attr], _ty_style: &str) -> (res:
        Result<(), GenerateError>)
        ensures
            final(f)@ == old(f)@,
            reports(res, if attrs@.len() > 0 { Some(attrs_text()) } else { None }),
    {
        if attrs.len() != 0 {
            return Err(GenerateError::unsupported("c doesn't support attrs yet"));
        }
        Ok(())
    }

    /// Writes the declaration of the function at index `func`, up to and
    /// without the closing parenthesis.
    ///
    /// Only the first output of the function is declared.
    pub fn generate_signature(&self, f: &mut Fivemat, state: &TestState, func: FuncIdx) -> (res:
        Result<(), GenerateError>)
        requires
            state.wf(),
            func < state.types.funcs().len(),
            signature_ready(state.names(), state.types.funcs()[func as int]),
        ensures
            res is Ok,
            final(f)@ == old(f)@.write(
                signature_text(state.names(), state.types.funcs()[func as int]),
            ),
            final(f)@.indent == old(f)@.indent,
    {
        let function = state.types.realize_func(func);
        let ghost names = state.names();
        let mut text = String::new();
        if function.outputs.len() > 0 {
            let output = state.tyname(function.outputs[0].ty);
            text.append(output.prefix.as_str());
            text.append(function.name.as_str());
            text.append(output.suffix.as_str());
            text.append("(");
        } else {
            text.append("void ");
            text.append(function.name.as_str());
            text.append("(");
        }
        let ghost head = text@;
        // Add inputs
        let mut i: usize = 0;
        while i < function.inputs.len()
            invariant
                i <= function.inputs.len(),
                state.wf(),
                names == state.names(),
                func < state.types.funcs().len(),
                *function == state.types.funcs()[func as int],
                signature_ready(names, *function),
                text@ == head + args_text(names, function.inputs@, i as nat),
            decreases function.inputs.len() - i,
        {
            if i > 0 {
                text.append(", ");
            }
            let arg = &function.inputs[i];
            let name = state.tyname(arg.ty);
            text.append(name.prefix.as_str());
            text.append(arg.name.as_str());
            text.append(name.suffix.as_str());
            i = i + 1;
            assert(text@ =~= head + args_text(names, function.inputs@, i as nat));
        }
        assert(text@ =~= signature_text(names, *function));
        f.write_str(text.as_str());
        Ok(())
    }

    /// The decoration that selects `convention` on this toolchain.
    ///
    /// Fails with a capability gap that names the convention where the
    /// toolchain has no decoration for it.
    pub fn convention_decl(&self, convention: CallingConvention) -> (res: Result<
        &'static str,
        GenerateError,
    >)
        ensures
            resolves(res, convention, self.platform, self.cc_flavor),
    {
        let on_windows = match self.platform {
            Platform::Windows => true,
            _ => false,
        };
        let keyword = match self.cc_flavor {
            CCFlavor::Msvc => true,
            _ => false,
        };
        let text = match convention {
            CallingConvention::System
            | CallingConvention::Win64
            | CallingConvention::Sysv64
            | CallingConvention::Aapcs => {
                return Err(GenerateError::Unsupported(self.unsupported_convention(&convention)));
            },
            CallingConvention::C => "",
            CallingConvention::Cdecl => {
                if !on_windows {
                    return Err(
                        GenerateError::Unsupported(self.unsupported_convention(&convention)),
                    );
                }
                if keyword {
                    "__cdecl "
                } else {
                    "__attribute__((cdecl)) "
                }
            },
            CallingConvention::Stdcall => {
                if !on_windows {
                    return Err(
                        GenerateError::Unsupported(self.unsupported_convention(&convention)),
                    );
                }
                if keyword {
                    "__stdcall "
                } else {
                    "__attribute__((stdcall)) "
                }
            },
            CallingConvention::Fastcall => {
                if !on_windows {
                    return Err(
                        GenerateError::Unsupported(self.unsupported_convention(&convention)),
                    );
                }
                if keyword {
                    "__fastcall "
                } else {
                    "__attribute__((fastcall)) "
                }
            },
            CallingConvention::Vectorcall => {
                if !on_windows {
                    return Err(
                        GenerateError::Unsupported(self.unsupported_convention(&convention)),
                    );
                }
                if keyword {
                    "__vectorcall "
                } else {
                    "__attribute__((vectorcall)) "
                }
            },
        };
        Ok(text)
    }

    /// The capability gap for a convention that the backend does not offer.
    pub fn unsupported_convention(&self, convention: &CallingConvention) -> (error:
        UnsupportedError)
        ensures
            error@ == unsupported_convention_text(*convention),
    {
        let mut message = String::from_str("unsupported convention ");
        message.append(convention.name());
        UnsupportedError::Other(message)
    }
}

} // verus!
