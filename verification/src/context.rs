//! The root ownership scope of one compilation unit.
//!
//! A context owns the table of named struct types. A named struct type is
//! created opaque (declared, body pending) and its body is set exactly once
//! afterwards — the two-phase protocol that lets struct types refer to each
//! other and to themselves.

use vstd::prelude::*;

use crate::ir::{ArrayValue, Constant, Type, TypeList, clone_string};

verus! {

/// One named struct type of a context: its name and, once set, its field
/// types in declaration order. A body of `None` means the type is still
/// opaque: declared, valid to be referenced, its fields not yet laid out.
pub struct NamedStructData {
    pub name: String,
    pub body: Option<Vec<Type>>,
}

/// A handle to a named struct type: an index into the owning context's
/// struct-type table.
#[derive(Clone, Copy, PartialEq, Eq, Structural, Debug)]
pub struct StructType {
    pub id: usize,
}

/// The root ownership scope: owns every named struct type created in it.
pub struct Context {
    pub struct_types: Vec<NamedStructData>,
}

impl Context {
    /// Whether some named struct type of this context has the given name.
    pub open spec fn has_struct_named(self, name: Seq<char>) -> bool {
        exists|i: int| 0 <= i < self.struct_types@.len() && self.struct_types@[i].name@ == name
    }

    /// Well-formed: no two named struct types share a name.
    pub open spec fn wf(self) -> bool {
        forall|i: int, j: int|
            0 <= i < j < self.struct_types@.len() ==> self.struct_types@[i].name@
                != self.struct_types@[j].name@
    }

    /// A fresh context with no named struct types.
    pub fn new() -> (r: Context)
        ensures
            r.struct_types@.len() == 0,
            r.wf(),
    {
        Context { struct_types: Vec::new() }
    }

    /// The void type.
    pub fn void_type(&self) -> (r: Type)
        ensures
            r == Type::Void,
    {
        Type::Void
    }

    /// The 1-bit integer type.
    pub fn int1_type(&self) -> (r: Type)
        ensures
            r == Type::Int1,
    {
        Type::Int1
    }

    /// The 8-bit integer type.
    pub fn int8_type(&self) -> (r: Type)
        ensures
            r == Type::Int8,
    {
        Type::Int8
    }

    /// The 32-bit integer type.
    pub fn int32_type(&self) -> (r: Type)
        ensures
            r == Type::Int32,
    {
        Type::Int32
    }

    /// The 64-bit integer type.
    pub fn int64_type(&self) -> (r: Type)
        ensures
            r == Type::Int64,
    {
        Type::Int64
    }

    /// The 128-bit integer type.
    pub fn int128_type(&self) -> (r: Type)
        ensures
            r == Type::Int128,
    {
        Type::Int128
    }

    /// Looks up a named struct type. Returns the handle of the (unique)
    /// entry with that name, or nothing if the name was never declared.
    pub fn named_struct_type(&self, name: &str) -> (r: Option<StructType>)
        ensures
            match r {
                Some(st) => st.id < self.struct_types@.len() && self.struct_types@[st.id as int].name@
                    == name@,
                None => !self.has_struct_named(name@),
            },
    {
        let query: String = name.to_owned();
        let n = self.struct_types.len();
        let mut i: usize = 0;
        while i < n
            invariant
                i <= n,
                n == self.struct_types@.len(),
                query@ == name@,
                forall|j: int| 0 <= j < i ==> self.struct_types@[j].name@ != name@,
            decreases n - i,
        {
            if self.struct_types[i].name == query {
                return Some(StructType { id: i });
            }
            i = i + 1;
        }
        None
    }

    /// Declares a new opaque named struct type: valid to be referenced from
    /// this point on, its body still pending.
    pub fn create_opaque_named_struct(&mut self, name: &str) -> (r: StructType)
        requires
            old(self).wf(),
            !old(self).has_struct_named(name@),
        ensures
            final(self).wf(),
            final(self).struct_types@.len() == old(self).struct_types@.len() + 1,
            forall|i: int|
                0 <= i < old(self).struct_types@.len() ==> final(self).struct_types@[i] == old(
                    self,
                ).struct_types@[i],
            final(self).struct_types@[old(self).struct_types@.len() as int].name@ == name@,
            final(self).struct_types@[old(self).struct_types@.len() as int].body is None,
            r.id == old(self).struct_types@.len(),
            final(self).has_struct_named(name@),
    {
        let id = self.struct_types.len();
        self.struct_types.push(NamedStructData { name: name.to_owned(), body: None });
        StructType { id }
    }

    /// An anonymous (literal) struct type with the given field types.
    pub fn anonymous_struct_type(&self, field_tys: &Vec<Type>) -> (r: Type)
        ensures
            (r matches Type::Anon(l) && l.seq() == field_tys@),
    {
        Type::Anon(Box::new(TypeList::from_vec(field_tys)))
    }

    /// A constant character array holding the given characters
    /// (not null-terminated).
    pub fn const_string(&self, v: &str) -> (r: ArrayValue)
        ensures
            r.chars@ == v@,
    {
        ArrayValue { chars: v.to_owned() }
    }

    /// A constant struct with the given constant fields, in order.
    pub fn const_struct(&self, fields: Vec<Constant>) -> (r: Constant)
        ensures
            (r matches Constant::Struct(f) && f@ == fields@),
    {
        Constant::Struct(fields)
    }
}

impl StructType {
    /// This named struct type, as a type.
    pub fn as_any_type(&self) -> (r: Type)
        ensures
            r == Type::Struct(self.id),
    {
        Type::Struct(self.id)
    }

    /// The pointer form of this named struct type.
    pub fn ptr_type(&self) -> (r: Type)
        ensures
            r == Type::Ptr(Box::new(Type::Struct(self.id))),
    {
        Type::Ptr(Box::new(Type::Struct(self.id)))
    }

    /// Sets the body of this (until now opaque) named struct type to the
    /// given field types, in declaration order. A body is set exactly once.
    pub fn set_struct_body(&self, cx: &mut Context, field_tys: Vec<Type>)
        requires
            old(cx).wf(),
            self.id < old(cx).struct_types@.len(),
            old(cx).struct_types@[self.id as int].body is None,
        ensures
            final(cx).wf(),
            final(cx).struct_types@.len() == old(cx).struct_types@.len(),
            forall|i: int|
                0 <= i < old(cx).struct_types@.len() && i != self.id ==> final(cx).struct_types@[i]
                    == old(cx).struct_types@[i],
            final(cx).struct_types@[self.id as int].name@ == old(cx).struct_types@[self.id as int].name@,
            (final(cx).struct_types@[self.id as int].body matches Some(b) && b@ == field_tys@),
    {
        let name_keep = clone_string(&cx.struct_types[self.id].name);
        cx.struct_types.set(self.id, NamedStructData { name: name_keep, body: Some(field_tys) });
    }
}

} // verus!
