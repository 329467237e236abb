//! Source-bytecode type tokens and their mapping onto IR types.
//!
//! The translation maps the boolean token to a 1-bit integer type, each
//! supported fixed-width unsigned integer token to the integer type of its
//! width, struct tokens to the previously declared named struct type,
//! reference tokens to the pointer form of the referent's type, and vector
//! tokens to the opaque pointer-sized handle of the runtime's vector
//! representation. A token kind the translator does not handle is a fatal
//! error naming the kind — never a silent approximation.

use vstd::prelude::*;

use crate::context::StructType;
use crate::errors::{TranslateError, TypeKindName};
use crate::ir::{Type, TypeList};

verus! {

/// A type token of the source bytecode's signature table.
pub enum SignatureToken {
    Bool,
    U8,
    U16,
    U32,
    U64,
    U128,
    U256,
    Address,
    Signer,
    /// A vector of the given element type.
    Vector(Box<SignatureToken>),
    /// The struct with the given index among the source module's struct
    /// definitions.
    Struct(usize),
    /// An immutable reference to the given type.
    Reference(Box<SignatureToken>),
    /// A mutable reference to the given type.
    MutableReference(Box<SignatureToken>),
    /// The type parameter with the given index (generic code).
    TypeParameter(u16),
}

/// What the type lowering returns for a token, given the lookup table from
/// source struct indices to declared named struct types.
pub open spec fn lower_type_spec(tok: SignatureToken, struct_map: Seq<StructType>) -> Result<
    Type,
    TranslateError,
>
    decreases tok,
{
    match tok {
        SignatureToken::Bool => Ok(Type::Int1),
        SignatureToken::U8 => Ok(Type::Int8),
        SignatureToken::U32 => Ok(Type::Int32),
        SignatureToken::U64 => Ok(Type::Int64),
        SignatureToken::U128 => Ok(Type::Int128),
        SignatureToken::U16 => Err(TranslateError::UnsupportedType { kind: TypeKindName::U16 }),
        SignatureToken::U256 => Err(TranslateError::UnsupportedType { kind: TypeKindName::U256 }),
        SignatureToken::Address => Err(
            TranslateError::UnsupportedType { kind: TypeKindName::Address },
        ),
        SignatureToken::Signer => Err(
            TranslateError::UnsupportedType { kind: TypeKindName::Signer },
        ),
        SignatureToken::TypeParameter(_) => Err(
            TranslateError::UnsupportedType { kind: TypeKindName::TypeParameter },
        ),
        SignatureToken::Vector(_) => Ok(Type::Ptr(Box::new(Type::Int8))),
        SignatureToken::Struct(i) => if i < struct_map.len() {
            Ok(Type::Struct(struct_map[i as int].id))
        } else {
            Err(TranslateError::UndeclaredStruct { index: i })
        },
        SignatureToken::Reference(t) => match lower_type_spec(*t, struct_map) {
            Ok(inner) => Ok(Type::Ptr(Box::new(inner))),
            Err(e) => Err(e),
        },
        SignatureToken::MutableReference(t) => match lower_type_spec(*t, struct_map) {
            Ok(inner) => Ok(Type::Ptr(Box::new(inner))),
            Err(e) => Err(e),
        },
    }
}

/// Lowers one type token against the given struct lookup table.
pub fn lower_sig_token(tok: &SignatureToken, struct_map: &Vec<StructType>) -> (r: Result<
    Type,
    TranslateError,
>)
    ensures
        r == lower_type_spec(*tok, struct_map@),
    decreases tok,
{
    match tok {
        SignatureToken::Bool => Ok(Type::Int1),
        SignatureToken::U8 => Ok(Type::Int8),
        SignatureToken::U32 => Ok(Type::Int32),
        SignatureToken::U64 => Ok(Type::Int64),
        SignatureToken::U128 => Ok(Type::Int128),
        SignatureToken::U16 => Err(TranslateError::UnsupportedType { kind: TypeKindName::U16 }),
        SignatureToken::U256 => Err(TranslateError::UnsupportedType { kind: TypeKindName::U256 }),
        SignatureToken::Address => Err(
            TranslateError::UnsupportedType { kind: TypeKindName::Address },
        ),
        SignatureToken::Signer => Err(
            TranslateError::UnsupportedType { kind: TypeKindName::Signer },
        ),
        SignatureToken::TypeParameter(_) => Err(
            TranslateError::UnsupportedType { kind: TypeKindName::TypeParameter },
        ),
        SignatureToken::Vector(_) => Ok(Type::Ptr(Box::new(Type::Int8))),
        SignatureToken::Struct(i) => if *i < struct_map.len() {
            Ok(Type::Struct(struct_map[*i].id))
        } else {
            Err(TranslateError::UndeclaredStruct { index: *i })
        },
        SignatureToken::Reference(t) => match lower_sig_token(t, struct_map) {
            Ok(inner) => Ok(Type::Ptr(Box::new(inner))),
            Err(e) => Err(e),
        },
        SignatureToken::MutableReference(t) => match lower_sig_token(t, struct_map) {
            Ok(inner) => Ok(Type::Ptr(Box::new(inner))),
            Err(e) => Err(e),
        },
    }
}

/// Whether every token of `toks` lowers without error.
pub open spec fn all_tokens_lower(toks: Seq<SignatureToken>, struct_map: Seq<StructType>) -> bool {
    forall|i: int| 0 <= i < toks.len() ==> lower_type_spec(toks[i], struct_map) is Ok
}

/// The lowering of every token of `toks`, assuming all lower.
pub open spec fn lowered_types(toks: Seq<SignatureToken>, struct_map: Seq<StructType>) -> Seq<
    Type,
> {
    Seq::new(toks.len(), |i: int| lower_type_spec(toks[i], struct_map)->Ok_0)
}

/// Lowers a list of type tokens, in order. The first token that does not
/// lower decides the error; all must lower for the list to lower.
pub fn lower_sig_tokens(toks: &Vec<SignatureToken>, struct_map: &Vec<StructType>) -> (r: Result<
    Vec<Type>,
    TranslateError,
>)
    ensures
        match r {
            Ok(v) => all_tokens_lower(toks@, struct_map@) && v@ == lowered_types(
                toks@,
                struct_map@,
            ),
            Err(e) => exists|i: int|
                {
                    &&& 0 <= i < toks@.len()
                    &&& lower_type_spec(toks@[i], struct_map@) == Err::<Type, TranslateError>(e)
                    &&& forall|j: int|
                        0 <= j < i ==> lower_type_spec(toks@[j], struct_map@) is Ok
                },
        },
{
    let mut out: Vec<Type> = Vec::new();
    let mut i: usize = 0;
    while i < toks.len()
        invariant
            i <= toks@.len(),
            out@.len() == i,
            forall|j: int|
                0 <= j < i ==> lower_type_spec(toks@[j], struct_map@) == Ok::<Type, TranslateError>(
                    out@[j],
                ),
        decreases toks@.len() - i,
    {
        match lower_sig_token(&toks[i], struct_map) {
            Ok(t) => {
                out.push(t);
            },
            Err(e) => {
                return Err(e);
            },
        }
        i = i + 1;
    }
    proof {
        assert(out@ =~= lowered_types(toks@, struct_map@));
    }
    Ok(out)
}

/// The type list that holds the types of the sequence `s`, in order.
pub open spec fn list_of_seq(s: Seq<Type>) -> TypeList
    decreases s.len(),
{
    if s.len() == 0 {
        TypeList::Nil
    } else {
        TypeList::Cons(s[0], Box::new(list_of_seq(s.subrange(1, s.len() as int))))
    }
}

/// `list_of_seq` round-trips: the list's sequence is the sequence it was
/// built from.
pub proof fn lemma_list_of_seq(s: Seq<Type>)
    ensures
        list_of_seq(s).seq() == s,
    decreases s.len(),
{
    if s.len() == 0 {
        assert(list_of_seq(s).seq() =~= s);
    } else {
        lemma_list_of_seq(s.subrange(1, s.len() as int));
        assert(list_of_seq(s).seq() =~= s);
    }
}

/// The single return type that a list of return types collapses to: no
/// types collapse to void, one type stands directly, several types make
/// one anonymous aggregate type of them, in order.
pub open spec fn single_return_type_spec(rets: Seq<Type>) -> Type {
    if rets.len() == 0 {
        Type::Void
    } else if rets.len() == 1 {
        rets[0]
    } else {
        Type::Anon(Box::new(list_of_seq(rets)))
    }
}

/// Collapses a list of return types to one return type.
pub fn make_single_return_type(rets: &Vec<Type>) -> (r: Type)
    ensures
        r == single_return_type_spec(rets@),
{
    if rets.len() == 0 {
        Type::Void
    } else if rets.len() == 1 {
        rets[0].clone_type()
    } else {
        let l = TypeList::from_vec(rets);
        proof {
            lemma_list_of_seq(rets@);
            crate::ir::lemma_type_list_ext(l, list_of_seq(rets@));
        }
        Type::Anon(Box::new(l))
    }
}

/// The round trip of the signature mapping: for every number of return
/// types, the collapsed return type inspects back to exactly what went in —
/// void for none, the one type itself for one, and for several an anonymous
/// aggregate holding exactly those types in that order.
pub proof fn lemma_signature_round_trip(rets: Seq<Type>)
    ensures
        rets.len() == 0 ==> single_return_type_spec(rets) == Type::Void,
        rets.len() == 1 ==> single_return_type_spec(rets) == rets[0],
        rets.len() > 1 ==> (single_return_type_spec(rets) matches Type::Anon(l) && l.seq()
            == rets),
{
    if rets.len() > 1 {
        lemma_list_of_seq(rets);
    }
}

} // verus!
