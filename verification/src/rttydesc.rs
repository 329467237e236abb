//! The runtime type-descriptor synthesizer.
//!
//! For each concrete source type that takes part in a polymorphic
//! operation, the generated code refers to one constant descriptor global:
//! a type-name record, a numeric type discriminant, and a pointer to an
//! auxiliary type-info record whose shape the discriminant selects
//! (primitive: none; vector: the element's descriptor; struct: the field
//! descriptor list; reference: the referent's descriptor).
//!
//! Descriptors are memoized by a global name derived from the type's
//! structural identity: a second request for the same type returns the
//! global the first request emitted and leaves the module untouched. A
//! self-referential struct type is handled by declaring its descriptor
//! global first and attaching the constant body only afterwards, so the
//! recursion for its fields finds the declared global and stops.

use vstd::prelude::*;

use crate::context::{Context, StructType};
use crate::errors::TranslateError;
use crate::ir::{ArrayValue, Constant, Type, clone_string};
use crate::module::{Global, Module};

verus! {

/// A concrete source type, as the descriptor synthesizer sees it.
pub enum MoveType {
    Primitive(PrimitiveType),
    /// A vector of the given element type.
    Vector(Box<MoveType>),
    /// The struct with the given index in the struct environment.
    Struct(usize),
    /// A reference (mutable or not) to the given type.
    Reference(bool, Box<MoveType>),
}

/// A primitive source type.
#[derive(Clone, Copy, PartialEq, Eq, Structural, Debug)]
pub enum PrimitiveType {
    Bool,
    U8,
    U32,
    U64,
    U128,
}

/// One struct of the source module, as the synthesizer sees it: its name
/// and its field types in declaration order.
pub struct MoveStructDef {
    pub name: String,
    pub fields: Vec<MoveType>,
}

/// Whether every struct index in the type resolves in the environment.
pub open spec fn mty_wf(t: MoveType, env: Seq<MoveStructDef>) -> bool
    decreases t,
{
    match t {
        MoveType::Primitive(_) => true,
        MoveType::Vector(el) => mty_wf(*el, env),
        MoveType::Struct(i) => i < env.len(),
        MoveType::Reference(_, el) => mty_wf(*el, env),
    }
}

/// The canonical name of a type: the key descriptors are memoized by.
pub open spec fn type_name_chars(t: MoveType, env: Seq<MoveStructDef>) -> Seq<char>
    decreases t,
{
    match t {
        MoveType::Primitive(PrimitiveType::Bool) => "bool"@,
        MoveType::Primitive(PrimitiveType::U8) => "u8"@,
        MoveType::Primitive(PrimitiveType::U32) => "u32"@,
        MoveType::Primitive(PrimitiveType::U64) => "u64"@,
        MoveType::Primitive(PrimitiveType::U128) => "u128"@,
        MoveType::Vector(el) => "vector<"@ + type_name_chars(*el, env) + ">"@,
        MoveType::Struct(i) => if i < env.len() {
            env[i as int].name@
        } else {
            Seq::empty()
        },
        MoveType::Reference(_, el) => "&"@ + type_name_chars(*el, env),
    }
}

/// The symbol name of a type's descriptor global.
pub open spec fn tydesc_name_chars(t: MoveType, env: Seq<MoveStructDef>) -> Seq<char> {
    "__move_rttydesc_"@ + type_name_chars(t, env)
}

/// The symbol name of the static string holding a type's name.
pub open spec fn tydesc_name_name_chars(t: MoveType, env: Seq<MoveStructDef>) -> Seq<char> {
    tydesc_name_chars(t, env) + "_name"@
}

/// The symbol name of a type's auxiliary type-info global.
pub open spec fn tydesc_info_name_chars(t: MoveType, env: Seq<MoveStructDef>) -> Seq<char> {
    tydesc_name_chars(t, env) + "_info"@
}

/// The symbol name of the descriptor global of struct `i` of the
/// environment.
pub open spec fn struct_desc_name(env: Seq<MoveStructDef>, i: int) -> Seq<char> {
    "__move_rttydesc_"@ + env[i].name@
}

/// The canonical (presentation) name of a type, as a string.
pub fn rt_type_name(t: &MoveType, env: &Vec<MoveStructDef>) -> (r: Result<String, TranslateError>)
    ensures
        match r {
            Ok(s) => mty_wf(*t, env@) && s@ == type_name_chars(*t, env@),
            Err(e) => !mty_wf(*t, env@) && e matches TranslateError::InvalidStructIndex { .. },
        },
    decreases t,
{
    match t {
        MoveType::Primitive(PrimitiveType::Bool) => Ok("bool".to_owned()),
        MoveType::Primitive(PrimitiveType::U8) => Ok("u8".to_owned()),
        MoveType::Primitive(PrimitiveType::U32) => Ok("u32".to_owned()),
        MoveType::Primitive(PrimitiveType::U64) => Ok("u64".to_owned()),
        MoveType::Primitive(PrimitiveType::U128) => Ok("u128".to_owned()),
        MoveType::Vector(el) => {
            let inner = rt_type_name(el, env)?;
            let mut s: String = "vector<".to_owned();
            s.append(inner.as_str());
            s.append(">");
            Ok(s)
        },
        MoveType::Struct(i) => {
            if *i < env.len() {
                Ok(clone_string(&env[*i].name))
            } else {
                Err(TranslateError::InvalidStructIndex { index: *i })
            }
        },
        MoveType::Reference(_, el) => {
            let inner = rt_type_name(el, env)?;
            let mut s: String = "&".to_owned();
            s.append(inner.as_str());
            Ok(s)
        },
    }
}

/// The symbol name of a type's descriptor global, as a string.
pub fn global_tydesc_name(t: &MoveType, env: &Vec<MoveStructDef>) -> (r: Result<
    String,
    TranslateError,
>)
    ensures
        match r {
            Ok(s) => mty_wf(*t, env@) && s@ == tydesc_name_chars(*t, env@),
            Err(e) => !mty_wf(*t, env@) && e matches TranslateError::InvalidStructIndex { .. },
        },
{
    let inner = rt_type_name(t, env)?;
    let mut s: String = "__move_rttydesc_".to_owned();
    s.append(inner.as_str());
    Ok(s)
}

/// The symbol name of the static string holding a type's name.
pub fn global_tydesc_name_name(t: &MoveType, env: &Vec<MoveStructDef>) -> (r: Result<
    String,
    TranslateError,
>)
    ensures
        match r {
            Ok(s) => mty_wf(*t, env@) && s@ == tydesc_name_name_chars(*t, env@),
            Err(e) => !mty_wf(*t, env@) && e matches TranslateError::InvalidStructIndex { .. },
        },
{
    let mut s = global_tydesc_name(t, env)?;
    s.append("_name");
    Ok(s)
}

/// The symbol name of a type's auxiliary type-info global.
pub fn global_tydesc_info_name(t: &MoveType, env: &Vec<MoveStructDef>) -> (r: Result<
    String,
    TranslateError,
>)
    ensures
        match r {
            Ok(s) => mty_wf(*t, env@) && s@ == tydesc_info_name_chars(*t, env@),
            Err(e) => !mty_wf(*t, env@) && e matches TranslateError::InvalidStructIndex { .. },
        },
{
    let mut s = global_tydesc_name(t, env)?;
    s.append("_info");
    Ok(s)
}

/// The numeric discriminant of a type: which variant of the runtime's
/// fixed type enumeration it is, selecting the shape of the type-info
/// record that follows the descriptor's common header.
pub open spec fn type_descrim_spec(t: MoveType) -> u64 {
    match t {
        MoveType::Primitive(PrimitiveType::Bool) => 0,
        MoveType::Primitive(PrimitiveType::U8) => 1,
        MoveType::Primitive(PrimitiveType::U32) => 2,
        MoveType::Primitive(PrimitiveType::U64) => 3,
        MoveType::Primitive(PrimitiveType::U128) => 4,
        MoveType::Vector(_) => 5,
        MoveType::Struct(_) => 6,
        MoveType::Reference(_, _) => 7,
    }
}

/// The numeric discriminant of a type.
pub fn type_descrim(t: &MoveType) -> (r: u64)
    ensures
        r == type_descrim_spec(*t),
{
    match t {
        MoveType::Primitive(PrimitiveType::Bool) => 0,
        MoveType::Primitive(PrimitiveType::U8) => 1,
        MoveType::Primitive(PrimitiveType::U32) => 2,
        MoveType::Primitive(PrimitiveType::U64) => 3,
        MoveType::Primitive(PrimitiveType::U128) => 4,
        MoveType::Vector(_) => 5,
        MoveType::Struct(_) => 6,
        MoveType::Reference(_, _) => 7,
    }
}

/// The context `b` extends `a`: every named struct type of `a` is in `b`,
/// unchanged, at its index.
pub open spec fn context_extended(a: Context, b: Context) -> bool {
    &&& b.struct_types@.len() >= a.struct_types@.len()
    &&& forall|i: int| 0 <= i < a.struct_types@.len() ==> b.struct_types@[i] == a.struct_types@[i]
}

/// The module `b` extends `a` in its globals only: everything else is
/// unchanged, and every global of `a` is in `b`, unchanged, at its index.
pub open spec fn globals_extended(a: Module, b: Module) -> bool {
    &&& b.functions == a.functions
    &&& b.name == a.name
    &&& b.triple == a.triple
    &&& b.data_layout == a.data_layout
    &&& b.source_file_name == a.source_file_name
    &&& b.globals@.len() >= a.globals@.len()
    &&& forall|i: int| 0 <= i < a.globals@.len() ==> b.globals@[i] == a.globals@[i]
}

/// Extension keeps every global name present.
proof fn lemma_extended_has(a: Module, b: Module, nm: Seq<char>)
    requires
        globals_extended(a, b),
        a.has_global_named(nm),
    ensures
        b.has_global_named(nm),
{
    let j = choose|j: int| 0 <= j < a.globals@.len() && a.globals@[j].name@ == nm;
    assert(b.globals@[j].name@ == nm);
}

/// How many of the first `k` structs of the environment have no descriptor
/// global in the module yet.
pub open spec fn undeclared_upto(env: Seq<MoveStructDef>, m: Module, k: int) -> nat
    decreases k,
{
    if k <= 0 {
        0
    } else {
        undeclared_upto(env, m, k - 1) + if !m.has_global_named(struct_desc_name(env, k - 1)) {
            1nat
        } else {
            0nat
        }
    }
}

/// How many structs of the environment have no descriptor global yet: the
/// part of the termination measure that declaring a struct's descriptor
/// strictly shrinks.
pub open spec fn undeclared_structs(env: Seq<MoveStructDef>, m: Module) -> nat {
    undeclared_upto(env, m, env.len() as int)
}

/// Adding globals never raises the count of undeclared structs.
proof fn lemma_undeclared_monotone(env: Seq<MoveStructDef>, a: Module, b: Module, k: int)
    requires
        globals_extended(a, b),
    ensures
        undeclared_upto(env, b, k) <= undeclared_upto(env, a, k),
    decreases k,
{
    if k > 0 {
        lemma_undeclared_monotone(env, a, b, k - 1);
        if a.has_global_named(struct_desc_name(env, k - 1)) {
            lemma_extended_has(a, b, struct_desc_name(env, k - 1));
        }
    }
}

/// Declaring the descriptor global of a struct that had none strictly
/// shrinks the count of undeclared structs.
proof fn lemma_undeclared_strict(
    env: Seq<MoveStructDef>,
    a: Module,
    b: Module,
    k: int,
    idx: int,
)
    requires
        globals_extended(a, b),
        0 <= idx < k,
        !a.has_global_named(struct_desc_name(env, idx)),
        b.has_global_named(struct_desc_name(env, idx)),
    ensures
        undeclared_upto(env, b, k) < undeclared_upto(env, a, k),
    decreases k,
{
    if idx == k - 1 {
        lemma_undeclared_monotone(env, a, b, k - 1);
    } else {
        lemma_undeclared_strict(env, a, b, k - 1, idx);
        if a.has_global_named(struct_desc_name(env, k - 1)) {
            lemma_extended_has(a, b, struct_desc_name(env, k - 1));
        }
    }
}

/// Extension of a module's globals is transitive.
proof fn lemma_extended_trans(a: Module, b: Module, c: Module)
    requires
        globals_extended(a, b),
        globals_extended(b, c),
    ensures
        globals_extended(a, c),
{
}

/// Extension of a context's struct-type table is transitive.
proof fn lemma_cx_extended_trans(a: Context, b: Context, c: Context)
    requires
        context_extended(a, b),
        context_extended(b, c),
    ensures
        context_extended(a, c),
{
}

/// How many nested descriptor globals a type's info record refers to: none
/// for a primitive, the element's for a vector, one per field for a
/// struct, the referent's for a reference.
pub open spec fn nested_count(t: MoveType, env: Seq<MoveStructDef>) -> nat {
    match t {
        MoveType::Primitive(_) => 0,
        MoveType::Vector(_) => 1,
        MoveType::Struct(i) => if i < env.len() {
            env[i as int].fields@.len()
        } else {
            0
        },
        MoveType::Reference(_, _) => 1,
    }
}

/// The shape of a descriptor's type-name record in module `m`: a pointer
/// to the name-string global (which holds exactly the type's canonical
/// name) and the name's character count at 64 bits.
pub open spec fn name_record_ok(c: Constant, m: Module, t: MoveType, env: Seq<MoveStructDef>) -> bool {
    c matches Constant::Struct(f) && f@.len() == 2 && (exists|gi: usize|
        {
            &&& f@[0] == Constant::GlobalPtr(gi)
            &&& gi < m.globals@.len()
            &&& m.globals@[gi as int].name@ == tydesc_name_name_chars(t, env)
            &&& (m.globals@[gi as int].init matches Some(Constant::Str { chars }) && chars@
                == type_name_chars(t, env))
        }) && f@[1] == (Constant::Int {
        ty: Type::Int64,
        value: type_name_chars(t, env).len() as u64,
    })
}

/// The shape of a descriptor's type-info pointer in module `m`: null for a
/// primitive (no info record), else the address of the defined info global.
pub open spec fn info_ptr_ok(c: Constant, m: Module, t: MoveType, env: Seq<MoveStructDef>) -> bool {
    &&& (t is Primitive ==> c == Constant::NullPtr(Type::Ptr(Box::new(Type::Int8))))
    &&& (!(t is Primitive) ==> exists|gi: usize|
        {
            &&& c == Constant::GlobalPtr(gi)
            &&& gi < m.globals@.len()
            &&& m.globals@[gi as int].name@ == tydesc_info_name_chars(t, env)
            &&& m.globals@[gi as int].init is Some
        })
}

/// The shape of a descriptor's whole constant body in module `m`: the
/// type-name record, the 32-bit discriminant, and the type-info pointer.
pub open spec fn tydesc_body_ok(c: Constant, m: Module, t: MoveType, env: Seq<MoveStructDef>) -> bool {
    c matches Constant::Struct(f) && f@.len() == 3 && name_record_ok(f@[0], m, t, env) && f@[1]
        == (Constant::Int { ty: Type::Int32, value: type_descrim_spec(t) }) && info_ptr_ok(
        f@[2],
        m,
        t,
        env,
    )
}

/// The record shapes survive adding globals and defining other globals:
/// their witnesses live at indices the extension leaves unchanged.
proof fn lemma_body_ok_extended(c: Constant, a: Module, b: Module, t: MoveType, env: Seq<MoveStructDef>)
    requires
        globals_extended(a, b),
        tydesc_body_ok(c, a, t, env),
    ensures
        tydesc_body_ok(c, b, t, env),
{
    lemma_record_ok_extended(c->Struct_0@[0], a, b, t, env);
    lemma_info_ok_extended(c->Struct_0@[2], a, b, t, env);
}

/// `name_record_ok` survives extension of the module's globals.
proof fn lemma_record_ok_extended(c: Constant, a: Module, b: Module, t: MoveType, env: Seq<MoveStructDef>)
    requires
        globals_extended(a, b),
        name_record_ok(c, a, t, env),
    ensures
        name_record_ok(c, b, t, env),
{
}

/// `info_ptr_ok` survives extension of the module's globals.
proof fn lemma_info_ok_extended(c: Constant, a: Module, b: Module, t: MoveType, env: Seq<MoveStructDef>)
    requires
        globals_extended(a, b),
        info_ptr_ok(c, a, t, env),
    ensures
        info_ptr_ok(c, b, t, env),
{
}

/// Builds the type-name record of a type's descriptor: a static string
/// global holding the type's canonical name, and a constant record of a
/// pointer to it and the name's character count. Success is owed whenever
/// the type is well-formed and no global has taken the name-string's
/// symbol name.
fn type_name_constant(
    llcx: &mut Context,
    llmod: &mut Module,
    mty: &MoveType,
    env: &Vec<MoveStructDef>,
) -> (r: Result<Constant, TranslateError>)
    requires
        old(llcx).wf(),
        old(llmod).wf(),
    ensures
        final(llcx).wf(),
        final(llmod).wf(),
        context_extended(*old(llcx), *final(llcx)),
        globals_extended(*old(llmod), *final(llmod)),
        forall|i: int|
            old(llmod).globals@.len() <= i < final(llmod).globals@.len()
                ==> final(llmod).globals@[i].name@ == tydesc_name_name_chars(*mty, env@),
        match r {
            Ok(c) => mty_wf(*mty, env@) && name_record_ok(c, *final(llmod), *mty, env@),
            Err(_) => !mty_wf(*mty, env@) || old(llmod).has_global_named(
                tydesc_name_name_chars(*mty, env@),
            ),
        },
{
    let name = rt_type_name(mty, env)?;
    let len = name.as_str().unicode_len();

    // Create a static string and take a constant pointer to it.
    let ll_const_string = llcx.const_string(name.as_str());
    let global_name = global_tydesc_name_name(mty, env)?;
    let ll_array_ty = ll_const_string.llvm_type();
    let pre_len = llmod.globals.len();
    let ll_global = match llmod.get_or_add_global(global_name.as_str(), ll_array_ty) {
        Ok(g) => g,
        Err(e) => {
            return Err(e);
        },
    };
    if ll_global.idx < pre_len {
        // the name collides with an unrelated, already declared global
        return Err(TranslateError::InconsistentRedeclaration);
    }
    ll_global.set_initializer(llmod, ll_const_string.as_const());
    let ll_static_bytes_ptr = ll_global.ptr();

    let ll_ty_u64 = llcx.int64_type();
    let ll_const_len = Constant::const_int(ll_ty_u64, len as u64);

    let mut fields: Vec<Constant> = Vec::new();
    fields.push(ll_static_bytes_ptr);
    fields.push(ll_const_len);
    Ok(llcx.const_struct(fields))
}

/// Builds the auxiliary type-info record of a type's descriptor and
/// returns the pointer the descriptor stores: the null pointer for a
/// primitive (no record), else the address of an info global whose
/// contents refer to the already-declared nested descriptors in `nested`.
fn define_type_info_global(
    llcx: &mut Context,
    llmod: &mut Module,
    mty: &MoveType,
    env: &Vec<MoveStructDef>,
    nested: &Vec<Global>,
) -> (r: Result<Constant, TranslateError>)
    requires
        old(llcx).wf(),
        old(llmod).wf(),
        nested@.len() == nested_count(*mty, env@),
    ensures
        final(llcx).wf(),
        final(llmod).wf(),
        context_extended(*old(llcx), *final(llcx)),
        globals_extended(*old(llmod), *final(llmod)),
        forall|i: int|
            old(llmod).globals@.len() <= i < final(llmod).globals@.len()
                ==> final(llmod).globals@[i].name@ == tydesc_info_name_chars(*mty, env@),
        match r {
            Ok(c) => info_ptr_ok(c, *final(llmod), *mty, env@),
            Err(_) => !mty_wf(*mty, env@) || (!(mty is Primitive)
                && old(llmod).has_global_named(tydesc_info_name_chars(*mty, env@))),
        },
{
    match mty {
        MoveType::Primitive(_) => Ok(Constant::NullPtr(llcx.int8_type().ptr_type())),
        MoveType::Vector(_) | MoveType::Reference(_, _) => {
            let gname = global_tydesc_info_name(mty, env)?;
            let ptr_ty = llcx.int8_type().ptr_type();
            let pre_len = llmod.globals.len();
            let g = match llmod.get_or_add_global(gname.as_str(), ptr_ty) {
                Ok(g) => g,
                Err(e) => {
                    return Err(e);
                },
            };
            if g.idx < pre_len {
                return Err(TranslateError::InconsistentRedeclaration);
            }
            g.set_initializer(llmod, nested[0].ptr());
            Ok(g.ptr())
        },
        MoveType::Struct(_) => {
            let gname = global_tydesc_info_name(mty, env)?;
            let n = nested.len();
            // the field descriptor list: the field count, then one pointer
            // per field descriptor, in declaration order
            let mut ptr_tys: Vec<Type> = Vec::new();
            let mut ptrs: Vec<Constant> = Vec::new();
            let mut k: usize = 0;
            while k < n
                invariant
                    k <= n,
                    n == nested@.len(),
                    ptr_tys@.len() == k,
                    ptrs@.len() == k,
                decreases n - k,
            {
                ptr_tys.push(llcx.int8_type().ptr_type());
                ptrs.push(nested[k].ptr());
                k = k + 1;
            }
            let ptr_list_ty = llcx.anonymous_struct_type(&ptr_tys);
            let mut info_field_tys: Vec<Type> = Vec::new();
            info_field_tys.push(llcx.int64_type());
            info_field_tys.push(ptr_list_ty);
            let info_ty = llcx.anonymous_struct_type(&info_field_tys);
            let pre_len = llmod.globals.len();
            let g = match llmod.get_or_add_global(gname.as_str(), info_ty) {
                Ok(g) => g,
                Err(e) => {
                    return Err(e);
                },
            };
            if g.idx < pre_len {
                return Err(TranslateError::InconsistentRedeclaration);
            }
            let mut info_fields: Vec<Constant> = Vec::new();
            info_fields.push(Constant::const_int(llcx.int64_type(), n as u64));
            info_fields.push(llcx.const_struct(ptrs));
            let info_const = llcx.const_struct(info_fields);
            g.set_initializer(llmod, info_const);
            Ok(g.ptr())
        },
    }
}

/// Builds the constant body of a type's descriptor: the type-name record,
/// the numeric type discriminant, and the pointer to the type-info record.
fn tydesc_constant(
    llcx: &mut Context,
    llmod: &mut Module,
    mty: &MoveType,
    env: &Vec<MoveStructDef>,
    nested: &Vec<Global>,
) -> (r: Result<Constant, TranslateError>)
    requires
        old(llcx).wf(),
        old(llmod).wf(),
        nested@.len() == nested_count(*mty, env@),
    ensures
        final(llcx).wf(),
        final(llmod).wf(),
        context_extended(*old(llcx), *final(llcx)),
        globals_extended(*old(llmod), *final(llmod)),
        forall|i: int|
            old(llmod).globals@.len() <= i < final(llmod).globals@.len()
                ==> (final(llmod).globals@[i].name@ == tydesc_name_name_chars(*mty, env@)
                || final(llmod).globals@[i].name@ == tydesc_info_name_chars(*mty, env@)),
        match r {
            Ok(c) => mty_wf(*mty, env@) && tydesc_body_ok(c, *final(llmod), *mty, env@),
            Err(_) => !mty_wf(*mty, env@) || old(llmod).has_global_named(
                tydesc_name_name_chars(*mty, env@),
            ) || (!(mty is Primitive) && old(llmod).has_global_named(
                tydesc_info_name_chars(*mty, env@),
            )),
        },
{
    let ghost m0 = *llmod;
    let ll_const_type_name = type_name_constant(llcx, llmod, mty, env)?;
    let ghost m1 = *llmod;
    let ll_const_type_descrim = Constant::const_int(llcx.int32_type(), type_descrim(mty));
    let ll_const_type_info_ptr = match define_type_info_global(llcx, llmod, mty, env, nested) {
        Ok(c) => c,
        Err(e) => {
            proof {
                lemma_extended_trans(m0, m1, *llmod);
                // the info name cannot have appeared while the name-string
                // global was added: the two differ in their suffix
                if !(mty is Primitive) && m1.has_global_named(
                    tydesc_info_name_chars(*mty, env@),
                ) && !m0.has_global_named(tydesc_info_name_chars(*mty, env@)) {
                    let j = choose|j: int|
                        0 <= j < m1.globals@.len() && m1.globals@[j].name@
                            == tydesc_info_name_chars(*mty, env@);
                    assert(j >= m0.globals@.len());
                    assert(m1.globals@[j].name@ == tydesc_name_name_chars(*mty, env@));
                    lemma_name_info_names_differ(*mty, env@);
                }
            }
            return Err(e);
        },
    };
    proof {
        lemma_extended_trans(m0, m1, *llmod);
        lemma_record_ok_extended(ll_const_type_name, m1, *llmod, *mty, env@);
    }
    let mut fields: Vec<Constant> = Vec::new();
    fields.push(ll_const_type_name);
    fields.push(ll_const_type_descrim);
    fields.push(ll_const_type_info_ptr);
    Ok(llcx.const_struct(fields))
}

/// A type's name-string symbol and its info symbol are never the same
/// name: they share their stem and differ in the suffix.
proof fn lemma_name_info_names_differ(t: MoveType, env: Seq<MoveStructDef>)
    ensures
        tydesc_name_name_chars(t, env) != tydesc_info_name_chars(t, env),
{
    reveal_strlit("_name");
    reveal_strlit("_info");
    let stem = tydesc_name_chars(t, env);
    assert(tydesc_name_name_chars(t, env)[stem.len() as int + 1] == 'n');
    assert(tydesc_info_name_chars(t, env)[stem.len() as int + 1] == 'i');
}

/// Equal name-string symbols come from types with equal canonical names
/// (and so equal descriptor symbols): the shared suffix cancels.
proof fn lemma_nn_injective(t1: MoveType, t2: MoveType, env: Seq<MoveStructDef>)
    requires
        tydesc_name_name_chars(t1, env) == tydesc_name_name_chars(t2, env),
    ensures
        tydesc_name_chars(t1, env) == tydesc_name_chars(t2, env),
{
    reveal_strlit("_name");
    let a = tydesc_name_chars(t1, env);
    let b = tydesc_name_chars(t2, env);
    assert((a + "_name"@).len() == (b + "_name"@).len());
    assert(a.len() == b.len());
    assert forall|i: int| 0 <= i < a.len() implies a[i] == b[i] by {
        assert((a + "_name"@)[i] == a[i]);
        assert((b + "_name"@)[i] == b[i]);
    }
    assert(a =~= b);
}

/// Equal info symbols come from types with equal canonical names too.
proof fn lemma_info_injective(t1: MoveType, t2: MoveType, env: Seq<MoveStructDef>)
    requires
        tydesc_info_name_chars(t1, env) == tydesc_info_name_chars(t2, env),
    ensures
        tydesc_name_chars(t1, env) == tydesc_name_chars(t2, env),
{
    reveal_strlit("_info");
    let a = tydesc_name_chars(t1, env);
    let b = tydesc_name_chars(t2, env);
    assert((a + "_info"@).len() == (b + "_info"@).len());
    assert(a.len() == b.len());
    assert forall|i: int| 0 <= i < a.len() implies a[i] == b[i] by {
        assert((a + "_info"@)[i] == a[i]);
        assert((b + "_info"@)[i] == b[i]);
    }
    assert(a =~= b);
}

/// A name-string symbol never equals an info symbol, of any two types:
/// equal lengths would force the suffixes to agree, and they differ.
proof fn lemma_nn_never_info(t1: MoveType, t2: MoveType, env: Seq<MoveStructDef>)
    ensures
        tydesc_name_name_chars(t1, env) != tydesc_info_name_chars(t2, env),
{
    reveal_strlit("_name");
    reveal_strlit("_info");
    let a = tydesc_name_chars(t1, env);
    let b = tydesc_name_chars(t2, env);
    if tydesc_name_name_chars(t1, env) == tydesc_info_name_chars(t2, env) {
        assert((a + "_name"@).len() == (b + "_info"@).len());
        assert(a.len() == b.len());
        assert((a + "_name"@)[a.len() as int + 1] == 'n');
        assert((b + "_info"@)[b.len() as int + 1] == 'i');
        assert(false);
    }
}

/// Whether some well-formed type's canonical name is another's with an
/// auxiliary suffix attached. Under such aliasing a descriptor symbol of
/// one type can collide with an auxiliary symbol of another (a struct
/// literally named `u64_name` aliases the name-string of `u64`), and the
/// synthesizer may then fail on names its own recursion took.
pub open spec fn name_aliasing(env: Seq<MoveStructDef>) -> bool {
    exists|t1: MoveType, t2: MoveType|
        mty_wf(t1, env) && mty_wf(t2, env) && (type_name_chars(t2, env) == type_name_chars(t1, env)
            + "_name"@ || type_name_chars(t2, env) == type_name_chars(t1, env) + "_info"@)
}

/// Well-formed environment: every struct's field types resolve in it, so
/// the synthesizer's recursion only ever meets well-formed types.
pub open spec fn env_wf(env: Seq<MoveStructDef>) -> bool {
    forall|i: int, j: int|
        0 <= i < env.len() && 0 <= j < env[i].fields@.len() ==> mty_wf(
            #[trigger] env[i].fields@[j],
            env,
        )
}

/// No stray auxiliary symbols: wherever a type's name-string or info
/// symbol is taken, its descriptor symbol is taken too. A fresh module
/// satisfies this, every completed definition preserves it, and under it
/// (with no aliasing in the environment) a definition is owed success.
pub open spec fn aux_ok(m: Module, env: Seq<MoveStructDef>) -> bool {
    forall|t: MoveType|
        mty_wf(t, env) && (m.has_global_named(#[trigger] tydesc_name_name_chars(t, env))
            || m.has_global_named(tydesc_info_name_chars(t, env))) ==> m.has_global_named(
            tydesc_name_chars(t, env),
        )
}

/// Replacing globals' contents while keeping their names keeps every
/// symbol lookup.
proof fn lemma_has_same_names(a: Module, b: Module)
    requires
        a.globals@.len() == b.globals@.len(),
        forall|i: int| 0 <= i < a.globals@.len() ==> b.globals@[i].name@ == a.globals@[i].name@,
    ensures
        forall|nm: Seq<char>| #[trigger] b.has_global_named(nm) == a.has_global_named(nm),
{
    assert forall|nm: Seq<char>| #[trigger] b.has_global_named(nm) == a.has_global_named(nm) by {
        if a.has_global_named(nm) {
            let j = choose|j: int| 0 <= j < a.globals@.len() && a.globals@[j].name@ == nm;
            assert(b.globals@[j].name@ == nm);
        }
        if b.has_global_named(nm) {
            let j = choose|j: int| 0 <= j < b.globals@.len() && b.globals@[j].name@ == nm;
            assert(a.globals@[j].name@ == nm);
        }
    }
}

/// The auxiliary-symbol discipline between two module states: any
/// auxiliary symbol present in `b` but not in `a` belongs to a type whose
/// descriptor symbol was absent in `a` (the definition in flight) and is
/// present in `b` (its definition declared it first).
pub open spec fn aux_disciplined(a: Module, b: Module, env: Seq<MoveStructDef>) -> bool {
    &&& forall|t: MoveType|
        mty_wf(t, env) && b.has_global_named(#[trigger] tydesc_name_name_chars(t, env))
            ==> a.has_global_named(tydesc_name_name_chars(t, env)) || (!a.has_global_named(
            tydesc_name_chars(t, env),
        ) && b.has_global_named(tydesc_name_chars(t, env)))
    &&& forall|t: MoveType|
        mty_wf(t, env) && b.has_global_named(#[trigger] tydesc_info_name_chars(t, env))
            ==> a.has_global_named(tydesc_info_name_chars(t, env)) || (!a.has_global_named(
            tydesc_name_chars(t, env),
        ) && b.has_global_named(tydesc_name_chars(t, env)))
}

/// The discipline composes along extensions.
proof fn lemma_aux_disc_trans(a: Module, b: Module, c: Module, env: Seq<MoveStructDef>)
    requires
        globals_extended(a, b),
        globals_extended(b, c),
        aux_disciplined(a, b, env),
        aux_disciplined(b, c, env),
    ensures
        aux_disciplined(a, c, env),
{
    assert forall|t: MoveType|
        mty_wf(t, env) && c.has_global_named(
            #[trigger] tydesc_name_name_chars(t, env),
        ) implies a.has_global_named(tydesc_name_name_chars(t, env)) || (!a.has_global_named(
        tydesc_name_chars(t, env),
    ) && c.has_global_named(tydesc_name_chars(t, env))) by {
        if b.has_global_named(tydesc_name_name_chars(t, env)) {
            if !a.has_global_named(tydesc_name_name_chars(t, env)) {
                lemma_extended_has(b, c, tydesc_name_chars(t, env));
            }
        } else {
            if a.has_global_named(tydesc_name_chars(t, env)) {
                lemma_extended_has(a, b, tydesc_name_chars(t, env));
            }
        }
    }
    assert forall|t: MoveType|
        mty_wf(t, env) && c.has_global_named(
            #[trigger] tydesc_info_name_chars(t, env),
        ) implies a.has_global_named(tydesc_info_name_chars(t, env)) || (!a.has_global_named(
        tydesc_name_chars(t, env),
    ) && c.has_global_named(tydesc_name_chars(t, env))) by {
        if b.has_global_named(tydesc_info_name_chars(t, env)) {
            if !a.has_global_named(tydesc_info_name_chars(t, env)) {
                lemma_extended_has(b, c, tydesc_name_chars(t, env));
            }
        } else {
            if a.has_global_named(tydesc_name_chars(t, env)) {
                lemma_extended_has(a, b, tydesc_name_chars(t, env));
            }
        }
    }
}

/// A disciplined extension keeps the no-stray-auxiliary invariant.
proof fn lemma_aux_ok_carries(a: Module, b: Module, env: Seq<MoveStructDef>)
    requires
        globals_extended(a, b),
        aux_disciplined(a, b, env),
        aux_ok(a, env),
    ensures
        aux_ok(b, env),
{
    assert forall|t: MoveType|
        mty_wf(t, env) && (b.has_global_named(#[trigger] tydesc_name_name_chars(t, env))
            || b.has_global_named(tydesc_info_name_chars(t, env))) implies b.has_global_named(
        tydesc_name_chars(t, env),
    ) by {
        if a.has_global_named(tydesc_name_name_chars(t, env)) || a.has_global_named(
            tydesc_info_name_chars(t, env),
        ) {
            lemma_extended_has(a, b, tydesc_name_chars(t, env));
        }
    }
}

/// Extending a disciplined extension by the two auxiliary symbols of the
/// definition in flight (whose descriptor symbol was absent at the start
/// and is present at the end) stays disciplined.
proof fn lemma_disc_with_aux_adds(
    o: Module,
    n: Module,
    c: Module,
    t_def: MoveType,
    env: Seq<MoveStructDef>,
)
    requires
        globals_extended(o, n),
        globals_extended(n, c),
        aux_disciplined(o, n, env),
        forall|i: int|
            n.globals@.len() <= i < c.globals@.len() ==> (c.globals@[i].name@
                == tydesc_name_name_chars(t_def, env) || c.globals@[i].name@
                == tydesc_info_name_chars(t_def, env)),
        !o.has_global_named(tydesc_name_chars(t_def, env)),
        c.has_global_named(tydesc_name_chars(t_def, env)),
    ensures
        aux_disciplined(o, c, env),
{
    assert forall|t: MoveType|
        mty_wf(t, env) && c.has_global_named(
            #[trigger] tydesc_name_name_chars(t, env),
        ) implies o.has_global_named(tydesc_name_name_chars(t, env)) || (!o.has_global_named(
        tydesc_name_chars(t, env),
    ) && c.has_global_named(tydesc_name_chars(t, env))) by {
        if n.has_global_named(tydesc_name_name_chars(t, env)) {
            if !o.has_global_named(tydesc_name_name_chars(t, env)) {
                lemma_extended_has(n, c, tydesc_name_chars(t, env));
            }
        } else {
            let j = choose|j: int|
                0 <= j < c.globals@.len() && c.globals@[j].name@ == tydesc_name_name_chars(t, env);
            assert(j >= n.globals@.len());
            if c.globals@[j].name@ == tydesc_info_name_chars(t_def, env) {
                lemma_nn_never_info(t, t_def, env);
            }
            lemma_nn_injective(t, t_def, env);
            lemma_same_stem_same_main(t, t_def, env);
        }
    }
    assert forall|t: MoveType|
        mty_wf(t, env) && c.has_global_named(
            #[trigger] tydesc_info_name_chars(t, env),
        ) implies o.has_global_named(tydesc_info_name_chars(t, env)) || (!o.has_global_named(
        tydesc_name_chars(t, env),
    ) && c.has_global_named(tydesc_name_chars(t, env))) by {
        if n.has_global_named(tydesc_info_name_chars(t, env)) {
            if !o.has_global_named(tydesc_info_name_chars(t, env)) {
                lemma_extended_has(n, c, tydesc_name_chars(t, env));
            }
        } else {
            let j = choose|j: int|
                0 <= j < c.globals@.len() && c.globals@[j].name@ == tydesc_info_name_chars(t, env);
            assert(j >= n.globals@.len());
            if c.globals@[j].name@ == tydesc_name_name_chars(t_def, env) {
                lemma_nn_never_info(t_def, t, env);
            }
            lemma_info_injective(t, t_def, env);
            lemma_same_stem_same_main(t, t_def, env);
        }
    }
}

/// A descriptor symbol that equals another type's name-string symbol
/// witnesses aliasing.
proof fn lemma_main_eq_nn_aliases(t1: MoveType, t2: MoveType, env: Seq<MoveStructDef>)
    requires
        mty_wf(t1, env),
        mty_wf(t2, env),
        tydesc_name_chars(t2, env) == tydesc_name_name_chars(t1, env),
    ensures
        name_aliasing(env),
{
    let x = type_name_chars(t1, env) + "_name"@;
    let y = type_name_chars(t2, env);
    assert(("__move_rttydesc_"@ + y).len() == ("__move_rttydesc_"@ + type_name_chars(t1, env)
        + "_name"@).len());
    assert(("__move_rttydesc_"@ + type_name_chars(t1, env)) + "_name"@ =~= "__move_rttydesc_"@ + (
    type_name_chars(t1, env) + "_name"@));
    assert forall|i: int| 0 <= i < y.len() implies y[i] == x[i] by {
        assert(("__move_rttydesc_"@ + y)["__move_rttydesc_"@.len() + i] == y[i]);
        assert(("__move_rttydesc_"@ + x)["__move_rttydesc_"@.len() + i] == x[i]);
    }
    assert(y =~= x);
}

/// A descriptor symbol that equals another type's info symbol witnesses
/// aliasing too.
proof fn lemma_main_eq_info_aliases(t1: MoveType, t2: MoveType, env: Seq<MoveStructDef>)
    requires
        mty_wf(t1, env),
        mty_wf(t2, env),
        tydesc_name_chars(t2, env) == tydesc_info_name_chars(t1, env),
    ensures
        name_aliasing(env),
{
    let x = type_name_chars(t1, env) + "_info"@;
    let y = type_name_chars(t2, env);
    assert(("__move_rttydesc_"@ + y).len() == ("__move_rttydesc_"@ + type_name_chars(t1, env)
        + "_info"@).len());
    assert(("__move_rttydesc_"@ + type_name_chars(t1, env)) + "_info"@ =~= "__move_rttydesc_"@ + (
    type_name_chars(t1, env) + "_info"@));
    assert forall|i: int| 0 <= i < y.len() implies y[i] == x[i] by {
        assert(("__move_rttydesc_"@ + y)["__move_rttydesc_"@.len() + i] == y[i]);
        assert(("__move_rttydesc_"@ + x)["__move_rttydesc_"@.len() + i] == x[i]);
    }
    assert(y =~= x);
}

/// Equal canonical names give equal descriptor symbols.
proof fn lemma_same_stem_same_main(t1: MoveType, t2: MoveType, env: Seq<MoveStructDef>)
    requires
        tydesc_name_chars(t1, env) == tydesc_name_chars(t2, env),
    ensures
        tydesc_name_name_chars(t1, env) == tydesc_name_name_chars(t2, env),
        tydesc_info_name_chars(t1, env) == tydesc_info_name_chars(t2, env),
{
}

/// A type's descriptor symbol differs from both of its auxiliary symbols:
/// the auxiliary names are five characters longer.
proof fn lemma_main_name_differs(t: MoveType, env: Seq<MoveStructDef>)
    ensures
        tydesc_name_chars(t, env) != tydesc_name_name_chars(t, env),
        tydesc_name_chars(t, env) != tydesc_info_name_chars(t, env),
{
    reveal_strlit("_name");
    reveal_strlit("_info");
    assert(tydesc_name_name_chars(t, env).len() == tydesc_name_chars(t, env).len() + 5);
    assert(tydesc_info_name_chars(t, env).len() == tydesc_name_chars(t, env).len() + 5);
}

/// The descriptor body shape survives defining the descriptor global
/// itself: the shape's witnesses are the auxiliary globals, whose names
/// differ from the descriptor's.
proof fn lemma_body_ok_after_set(
    c: Constant,
    a: Module,
    b: Module,
    t: MoveType,
    env: Seq<MoveStructDef>,
    idx: int,
)
    requires
        tydesc_body_ok(c, a, t, env),
        b.globals@.len() == a.globals@.len(),
        0 <= idx < a.globals@.len(),
        forall|i: int| 0 <= i < a.globals@.len() && i != idx ==> b.globals@[i] == a.globals@[i],
        a.globals@[idx].name@ == tydesc_name_chars(t, env),
    ensures
        tydesc_body_ok(c, b, t, env),
{
    lemma_main_name_differs(t, env);
    let f = c->Struct_0@;
    let gi = choose|gi: usize|
        {
            &&& f[0]->Struct_0@[0] == Constant::GlobalPtr(gi)
            &&& gi < a.globals@.len()
            &&& a.globals@[gi as int].name@ == tydesc_name_name_chars(t, env)
            &&& (a.globals@[gi as int].init matches Some(Constant::Str { chars }) && chars@
                == type_name_chars(t, env))
        };
    assert(gi as int != idx);
    assert(b.globals@[gi as int] == a.globals@[gi as int]);
    if !(t is Primitive) {
        let hi = choose|hi: usize|
            {
                &&& f[2] == Constant::GlobalPtr(hi)
                &&& hi < a.globals@.len()
                &&& a.globals@[hi as int].name@ == tydesc_info_name_chars(t, env)
                &&& a.globals@[hi as int].init is Some
            };
        assert(hi as int != idx);
        assert(b.globals@[hi as int] == a.globals@[hi as int]);
    }
}

/// Returns the descriptor global of a type, defining it first if this
/// module does not hold it yet.
///
/// Descriptors are memoized by name: when the global already exists —
/// because the same type was requested before, or because the request is a
/// recursive one for a type whose body is still being computed — it is
/// returned as it is and nothing is emitted, so requesting the same type
/// twice returns the identical global and never emits a duplicate symbol.
/// On a first request the global is declared *before* the constant body is
/// computed, so a self-referential struct type (directly, or through any
/// chain of vectors, references and structs) ends its recursion at the
/// declared global instead of recursing forever.
///
/// Success is owed on a repeated request for any well-formed type, and on
/// a first request whenever the environment resolves every struct field
/// (`env_wf`), no two of its types generate clashing symbols
/// (`name_aliasing`), and no auxiliary symbol stands in the module without
/// its descriptor (`aux_ok` — true of a fresh module and preserved by
/// every definition). A failure outside those conditions is a symbol
/// collision with an unrelated global, reported fatally.
#[verifier::loop_isolation(false)]
pub fn define_llvm_tydesc(
    llcx: &mut Context,
    llmod: &mut Module,
    mty: &MoveType,
    env: &Vec<MoveStructDef>,
) -> (r: Result<Global, TranslateError>)
    requires
        old(llcx).wf(),
        old(llmod).wf(),
    ensures
        final(llcx).wf(),
        final(llmod).wf(),
        context_extended(*old(llcx), *final(llcx)),
        globals_extended(*old(llmod), *final(llmod)),
        match r {
            Ok(g) => {
                &&& g.idx < final(llmod).globals@.len()
                &&& final(llmod).globals@[g.idx as int].name@ == tydesc_name_chars(*mty, env@)
                &&& final(llmod).has_global_named(tydesc_name_chars(*mty, env@))
                &&& (old(llmod).has_global_named(tydesc_name_chars(*mty, env@)) ==> *final(llmod)
                    == *old(llmod) && *final(llcx) == *old(llcx))
                &&& (!old(llmod).has_global_named(tydesc_name_chars(*mty, env@)) ==> {
                    &&& (final(llmod).globals@[g.idx as int].ty matches Type::Struct(tid)
                        && tid < final(llcx).struct_types@.len()
                        && final(llcx).struct_types@[tid as int].name@ == "__move_rt_type"@)
                    &&& (final(llmod).globals@[g.idx as int].init matches Some(c)
                        && tydesc_body_ok(c, *final(llmod), *mty, env@))
                })
            },
            Err(_) => true,
        },
        !mty_wf(*mty, env@) ==> r is Err,
        mty_wf(*mty, env@) && old(llmod).has_global_named(tydesc_name_chars(*mty, env@)) ==> r
            is Ok,
        mty is Primitive && !old(llmod).has_global_named(tydesc_name_name_chars(*mty, env@))
            ==> r is Ok,
        env_wf(env@) && !name_aliasing(env@) ==> aux_disciplined(
            *old(llmod),
            *final(llmod),
            env@,
        ),
        env_wf(env@) && !name_aliasing(env@) && mty_wf(*mty, env@) && aux_ok(*old(llmod), env@)
            ==> r is Ok,
    decreases undeclared_structs(env@, *old(llmod)), *mty,
{
    let name = global_tydesc_name(mty, env)?;
    match llmod.get_global(name.as_str()) {
        Some(g) => Ok(g),
        None => {
            let ll_tydesc_st = get_llvm_tydesc_type(llcx);
            let ghost cx1 = *llcx;
            let ll_tydesc_ty = ll_tydesc_st.as_any_type();
            let ll_global = llmod.add_global(ll_tydesc_ty, name.as_str());
            let ghost m_add = *llmod;
            proof {
                if env_wf(env@) && !name_aliasing(env@) {
                    assert forall|t: MoveType|
                        mty_wf(t, env@) && m_add.has_global_named(
                            #[trigger] tydesc_name_name_chars(t, env@),
                        ) implies old(llmod).has_global_named(tydesc_name_name_chars(t, env@)) || (
                    !old(llmod).has_global_named(tydesc_name_chars(t, env@))
                        && m_add.has_global_named(tydesc_name_chars(t, env@))) by {
                        if !old(llmod).has_global_named(tydesc_name_name_chars(t, env@)) {
                            let j = choose|j: int|
                                0 <= j < m_add.globals@.len() && m_add.globals@[j].name@
                                    == tydesc_name_name_chars(t, env@);
                            assert(j == old(llmod).globals@.len());
                            lemma_main_eq_nn_aliases(t, *mty, env@);
                        }
                    }
                    assert forall|t: MoveType|
                        mty_wf(t, env@) && m_add.has_global_named(
                            #[trigger] tydesc_info_name_chars(t, env@),
                        ) implies old(llmod).has_global_named(tydesc_info_name_chars(t, env@)) || (
                    !old(llmod).has_global_named(tydesc_name_chars(t, env@))
                        && m_add.has_global_named(tydesc_name_chars(t, env@))) by {
                        if !old(llmod).has_global_named(tydesc_info_name_chars(t, env@)) {
                            let j = choose|j: int|
                                0 <= j < m_add.globals@.len() && m_add.globals@[j].name@
                                    == tydesc_info_name_chars(t, env@);
                            assert(j == old(llmod).globals@.len());
                            lemma_main_eq_info_aliases(t, *mty, env@);
                        }
                    }
                    assert(aux_disciplined(*old(llmod), m_add, env@));
                }
            }
            let mut nested: Vec<Global> = Vec::new();
            match mty {
                MoveType::Primitive(_) => {},
                MoveType::Vector(el) | MoveType::Reference(_, el) => {
                    proof {
                        lemma_undeclared_monotone(env@, *old(llmod), *llmod, env@.len() as int);
                    }
                    let g = match define_llvm_tydesc(llcx, llmod, el, env) {
                        Ok(g) => g,
                        Err(e) => {
                            proof {
                                lemma_extended_trans(*old(llmod), m_add, *llmod);
                                if env_wf(env@) && !name_aliasing(env@) {
                                    lemma_aux_disc_trans(*old(llmod), m_add, *llmod, env@);
                                    if mty_wf(*mty, env@) && aux_ok(*old(llmod), env@) {
                                        lemma_aux_ok_carries(*old(llmod), m_add, env@);
                                        assert(false);
                                    }
                                }
                            }
                            return Err(e);
                        },
                    };
                    nested.push(g);
                    proof {
                        lemma_extended_trans(*old(llmod), m_add, *llmod);
                    }
                },
                MoveType::Struct(si) => {
                    let si = *si;
                    proof {
                        assert(mty_wf(*mty, env@));
                        assert(tydesc_name_chars(*mty, env@) == struct_desc_name(env@, si as int));
                        lemma_undeclared_strict(
                            env@,
                            *old(llmod),
                            *llmod,
                            env@.len() as int,
                            si as int,
                        );
                    }
                    let nfields = env[si].fields.len();
                    let mut k: usize = 0;
                    while k < nfields
                        invariant
                            k <= nfields,
                            si < env@.len(),
                            nfields == env@[si as int].fields@.len(),
                            nested@.len() == k,
                            llcx.wf(),
                            llmod.wf(),
                            context_extended(*old(llcx), *llcx),
                            context_extended(cx1, *llcx),
                            globals_extended(m_add, *llmod),
                            env_wf(env@) && !name_aliasing(env@) ==> aux_disciplined(
                                m_add,
                                *llmod,
                                env@,
                            ),
                            undeclared_structs(env@, *llmod) < undeclared_structs(
                                env@,
                                *old(llmod),
                            ),
                        decreases nfields - k,
                    {
                        let ghost m_pre = *llmod;
                        let ghost cx_pre = *llcx;
                        let g = match define_llvm_tydesc(llcx, llmod, &env[si].fields[k], env) {
                            Ok(g) => g,
                            Err(e) => {
                                proof {
                                    lemma_extended_trans(*old(llmod), m_add, m_pre);
                                    lemma_extended_trans(*old(llmod), m_pre, *llmod);
                                    if env_wf(env@) && !name_aliasing(env@) {
                                        lemma_aux_disc_trans(m_add, m_pre, *llmod, env@);
                                        lemma_aux_disc_trans(*old(llmod), m_add, *llmod, env@);
                                        if mty_wf(*mty, env@) && aux_ok(*old(llmod), env@) {
                                            lemma_aux_disc_trans(*old(llmod), m_add, m_pre, env@);
                                            lemma_aux_ok_carries(*old(llmod), m_pre, env@);
                                            assert(mty_wf(env@[si as int].fields@[k as int], env@));
                                            assert(false);
                                        }
                                    }
                                }
                                return Err(e);
                            },
                        };
                        nested.push(g);
                        proof {
                            lemma_extended_trans(m_add, m_pre, *llmod);
                            lemma_cx_extended_trans(cx1, cx_pre, *llcx);
                            lemma_undeclared_monotone(env@, m_pre, *llmod, env@.len() as int);
                            if env_wf(env@) && !name_aliasing(env@) {
                                lemma_aux_disc_trans(m_add, m_pre, *llmod, env@);
                            }
                        }
                        k = k + 1;
                    }
                    proof {
                        lemma_extended_trans(*old(llmod), m_add, *llmod);
                    }
                },
            }
            proof {
                assert(nested@.len() == nested_count(*mty, env@));
            }
            let ghost m_nested = *llmod;
            proof {
                if mty is Primitive {
                    assert(m_nested == m_add);
                }
            }
            let ll_constant = match tydesc_constant(llcx, llmod, mty, env, &nested) {
                Ok(c) => c,
                Err(e) => {
                    proof {
                        lemma_extended_trans(*old(llmod), m_nested, *llmod);
                        // a primitive with a fresh name-string symbol cannot
                        // fail here: the only global added so far is the
                        // descriptor itself, whose name is shorter
                        if mty is Primitive && !old(llmod).has_global_named(
                            tydesc_name_name_chars(*mty, env@),
                        ) {
                            if m_add.has_global_named(tydesc_name_name_chars(*mty, env@)) {
                                let j = choose|j: int|
                                    0 <= j < m_add.globals@.len() && m_add.globals@[j].name@
                                        == tydesc_name_name_chars(*mty, env@);
                                assert(j == old(llmod).globals@.len());
                                lemma_main_name_differs(*mty, env@);
                                assert(false);
                            }
                            assert(false);
                        }
                        if env_wf(env@) && !name_aliasing(env@) {
                            lemma_extended_trans(*old(llmod), m_add, m_nested);
                            lemma_extended_trans(m_add, m_nested, *llmod);
                            lemma_extended_has(m_add, *llmod, tydesc_name_chars(*mty, env@));
                            lemma_aux_disc_trans(*old(llmod), m_add, m_nested, env@);
                            lemma_disc_with_aux_adds(*old(llmod), m_nested, *llmod, *mty, env@);
                            if mty_wf(*mty, env@) && aux_ok(*old(llmod), env@) {
                                // under the owed-success premise this failure
                                // is impossible: the constant build fails only
                                // on a taken auxiliary symbol, and the
                                // discipline rules every source of one out —
                                // it was not in the entry module (aux_ok with
                                // the descriptor absent), it is not the
                                // descriptor just added (length), and no
                                // nested definition takes it while the
                                // descriptor stands (its definer would have
                                // memoized away)
                                lemma_main_name_differs(*mty, env@);
                                if m_nested.has_global_named(tydesc_name_name_chars(*mty, env@)) {
                                    if m_add.has_global_named(
                                        tydesc_name_name_chars(*mty, env@),
                                    ) {
                                        let j = choose|j: int|
                                            0 <= j < m_add.globals@.len() && m_add.globals@[
                                                j
                                            ].name@ == tydesc_name_name_chars(*mty, env@);
                                        assert(j == old(llmod).globals@.len());
                                        assert(false);
                                    }
                                    assert(false);
                                }
                                if m_nested.has_global_named(tydesc_info_name_chars(*mty, env@)) {
                                    if m_add.has_global_named(
                                        tydesc_info_name_chars(*mty, env@),
                                    ) {
                                        let j = choose|j: int|
                                            0 <= j < m_add.globals@.len() && m_add.globals@[
                                                j
                                            ].name@ == tydesc_info_name_chars(*mty, env@);
                                        assert(j == old(llmod).globals@.len());
                                        assert(false);
                                    }
                                    assert(false);
                                }
                                assert(false);
                            }
                        }
                    }
                    return Err(e);
                },
            };
            let ghost m_const = *llmod;
            proof {
                lemma_extended_trans(m_add, m_nested, *llmod);
                lemma_extended_trans(*old(llmod), m_add, *llmod);
                assert(llmod.globals@[ll_global.idx as int] == m_add.globals@[
                    ll_global.idx as int
                ]);
            }
            let ghost cx_const = *llcx;
            proof {
                if env_wf(env@) && !name_aliasing(env@) {
                    lemma_extended_trans(*old(llmod), m_add, m_nested);
                    lemma_extended_trans(m_add, m_nested, m_const);
                    lemma_extended_has(m_add, m_const, tydesc_name_chars(*mty, env@));
                    lemma_aux_disc_trans(*old(llmod), m_add, m_nested, env@);
                    lemma_disc_with_aux_adds(*old(llmod), m_nested, m_const, *mty, env@);
                }
            }
            ll_global.set_initializer(llmod, ll_constant);
            proof {
                lemma_body_ok_after_set(
                    ll_constant,
                    m_const,
                    *llmod,
                    *mty,
                    env@,
                    ll_global.idx as int,
                );
                assert(context_extended(cx1, cx_const));
                assert(llcx.struct_types@[ll_tydesc_st.id as int].name@ == "__move_rt_type"@);
                assert(llmod.globals@[ll_global.idx as int].ty == Type::Struct(ll_tydesc_st.id));
                if env_wf(env@) && !name_aliasing(env@) {
                    lemma_has_same_names(m_const, *llmod);
                    assert(aux_disciplined(*old(llmod), *llmod, env@));
                }
            }
            Ok(ll_global)
        },
    }
}

/// Looks up the IR struct type of the runtime type descriptor, declaring
/// it first if this context has not seen it yet. Requesting it twice
/// returns the same named type and leaves the context unchanged the second
/// time.
pub fn get_llvm_tydesc_type(llcx: &mut Context) -> (r: StructType)
    requires
        old(llcx).wf(),
    ensures
        final(llcx).wf(),
        context_extended(*old(llcx), *final(llcx)),
        r.id < final(llcx).struct_types@.len(),
        final(llcx).struct_types@[r.id as int].name@ == "__move_rt_type"@,
        old(llcx).has_struct_named("__move_rt_type"@) ==> *final(llcx) == *old(llcx),
        !old(llcx).has_struct_named("__move_rt_type"@) ==> tydesc_type_body_ok(
            final(llcx).struct_types@[r.id as int].body,
        ),
{
    match llcx.named_struct_type("__move_rt_type") {
        Some(t) => t,
        None => {
            declare_llvm_tydesc_type(llcx);
            match llcx.named_struct_type("__move_rt_type") {
                Some(t) => {
                    proof {
                        if t.id < old(llcx).struct_types@.len() {
                            assert(old(llcx).struct_types@[t.id as int].name@
                                == "__move_rt_type"@);
                            assert(false);
                        }
                    }
                    t
                },
                None => {
                    proof {
                        assert(false);
                    }
                    StructType { id: 0 }
                },
            }
        },
    }
}

/// The body of the runtime type descriptor's IR struct type: a type-name
/// record (a pointer to the name's characters and their 64-bit count), the
/// 32-bit type discriminant, and a pointer to the discriminant-selected
/// type-info record.
pub open spec fn tydesc_type_body_ok(body: Option<Vec<Type>>) -> bool {
    body matches Some(b) && b@.len() == 3 && (b@[0] matches Type::Anon(l) && l.seq() == seq![
        Type::Ptr(Box::new(Type::Int8)),
        Type::Int64,
    ]) && b@[1] == Type::Int32 && b@[2] == Type::Ptr(Box::new(Type::Int8))
}

/// Declares the IR struct type of the runtime type descriptor and sets its
/// body: a type-name record (a pointer to the name's characters and their
/// count), the 32-bit type discriminant, and a pointer to the
/// discriminant-selected type-info record.
pub fn declare_llvm_tydesc_type(llcx: &mut Context)
    requires
        old(llcx).wf(),
        !old(llcx).has_struct_named("__move_rt_type"@),
    ensures
        final(llcx).wf(),
        context_extended(*old(llcx), *final(llcx)),
        final(llcx).has_struct_named("__move_rt_type"@),
        final(llcx).struct_types@.len() == old(llcx).struct_types@.len() + 1,
        final(llcx).struct_types@[old(llcx).struct_types@.len() as int].name@
            == "__move_rt_type"@,
        tydesc_type_body_ok(
            final(llcx).struct_types@[old(llcx).struct_types@.len() as int].body,
        ),
{
    let td_llty = llcx.create_opaque_named_struct("__move_rt_type");
    let mut name_record_fields: Vec<Type> = Vec::new();
    name_record_fields.push(llcx.int8_type().ptr_type());
    name_record_fields.push(llcx.int64_type());
    let type_name_ty = llcx.anonymous_struct_type(&name_record_fields);
    let type_descrim_ty = llcx.int32_type();
    // a pointer to a statically-defined union of type infos
    let type_info_ptr_ty = llcx.int8_type().ptr_type();
    let mut field_tys: Vec<Type> = Vec::new();
    field_tys.push(type_name_ty);
    field_tys.push(type_descrim_ty);
    field_tys.push(type_info_ptr_ty);
    td_llty.set_struct_body(llcx, field_tys);
    proof {
        let b = llcx.struct_types@[old(llcx).struct_types@.len() as int].body->Some_0;
        assert(b@[0] matches Type::Anon(l) && l.seq() =~= seq![
            Type::Ptr(Box::new(Type::Int8)),
            Type::Int64,
        ]);
    }
}

} // verus!
