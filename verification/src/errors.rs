//! The fatal errors a translation can end in.
//!
//! Every error is fatal to the compilation unit that raised it: nothing is
//! retried and nothing is silently downgraded to a partial result. Each
//! variant carries enough context (an index, a name) to identify the
//! offending definition or instruction.

use vstd::prelude::*;

verus! {


/// Why a translation failed.
#[derive(Clone, PartialEq, Eq, Debug)]
pub enum TranslateError {
    /// A function definition index did not resolve in the source module.
    InvalidFunctionIndex { index: usize },
    /// A struct definition index did not resolve in the source module.
    InvalidStructIndex { index: usize },
    /// A type token names a struct that was never declared.
    UndeclaredStruct { index: usize },
    /// A type token kind the translator does not handle yet.
    UnsupportedType { kind: TypeKindName },
    /// An instruction required more operands than the simulated stack held.
    StackUnderflow { offset: usize },
    /// An instruction named a local index outside the function's locals.
    InvalidLocalIndex { offset: usize, index: usize },
    /// The simulated stack depth did not match what a terminator required.
    StackImbalance { offset: usize, depth: usize, needed: usize },
    /// A branch target lay outside the function's instruction range.
    BranchOutOfRange { offset: usize, target: usize },
    /// An operand had a different type than the instruction required.
    OperandTypeMismatch { offset: usize },
    /// A call named a function index outside the function table.
    InvalidCallTarget { offset: usize, callee: usize },
    /// The last instruction of the function was not a terminator, so the
    /// final block would fall off the end of the function.
    MissingTerminator,
    /// A function name was declared twice with two different signatures.
    InconsistentRedeclaration,
    /// An instruction kind the translator does not handle: today the
    /// struct-field borrows, whose lowering needs the struct layout
    /// environment. The named extension point of the lowering table.
    UnsupportedInstruction { offset: usize },
    /// A target triple the backend does not register.
    UnknownTargetTriple,
}

/// The kind of type token an `UnsupportedType` error names.
#[derive(Clone, Copy, PartialEq, Eq, Debug)]
pub enum TypeKindName {
    Address,
    Signer,
    TypeParameter,
    U16,
    U256,
}

impl TypeKindName {
    /// The kind's name, as an error message names it.
    pub fn name(&self) -> (r: &'static str)
        ensures
            r@ == self.name_spec(),
    {
        match self {
            TypeKindName::Address => "address",
            TypeKindName::Signer => "signer",
            TypeKindName::TypeParameter => "type parameter",
            TypeKindName::U16 => "u16",
            TypeKindName::U256 => "u256",
        }
    }

    /// What `name` returns, as a sequence of characters.
    pub open spec fn name_spec(self) -> Seq<char> {
        match self {
            TypeKindName::Address => "address"@,
            TypeKindName::Signer => "signer"@,
            TypeKindName::TypeParameter => "type parameter"@,
            TypeKindName::U16 => "u16"@,
            TypeKindName::U256 => "u256"@,
        }
    }
}

/// What `message` returns for an error, as a sequence of characters.
pub open spec fn message_chars(e: TranslateError) -> Seq<char> {
    match e {
        TranslateError::InvalidFunctionIndex { index } => "invalid function definition index "@
            + crate::render::dec_chars(index as nat),
        TranslateError::InvalidStructIndex { index } => "invalid struct definition index "@
            + crate::render::dec_chars(index as nat),
        TranslateError::UndeclaredStruct { index } => "type token names undeclared struct "@
            + crate::render::dec_chars(index as nat),
        TranslateError::UnsupportedType { kind } => "unsupported type: "@ + kind.name_spec(),
        TranslateError::StackUnderflow { offset } => "operand stack underflow at offset "@
            + crate::render::dec_chars(offset as nat),
        TranslateError::InvalidLocalIndex { offset, index } => "invalid local index "@
            + crate::render::dec_chars(index as nat) + " at offset "@ + crate::render::dec_chars(
            offset as nat,
        ),
        TranslateError::StackImbalance { offset, depth, needed } => "operand stack holds "@
            + crate::render::dec_chars(depth as nat) + " values at offset "@
            + crate::render::dec_chars(offset as nat) + " where "@ + crate::render::dec_chars(
            needed as nat,
        ) + " are needed"@,
        TranslateError::BranchOutOfRange { offset, target } => "branch at offset "@
            + crate::render::dec_chars(offset as nat) + " targets offset "@
            + crate::render::dec_chars(target as nat) + ", outside the function"@,
        TranslateError::OperandTypeMismatch { offset } => "operand type mismatch at offset "@
            + crate::render::dec_chars(offset as nat),
        TranslateError::InvalidCallTarget { offset, callee } => "call at offset "@
            + crate::render::dec_chars(offset as nat) + " names function "@
            + crate::render::dec_chars(callee as nat) + ", outside the function table"@,
        TranslateError::MissingTerminator => "the last instruction must return or branch"@,
        TranslateError::InconsistentRedeclaration =>
            "a name was redeclared with a different type"@,
        TranslateError::UnsupportedInstruction { offset } => "unsupported instruction at offset "@
            + crate::render::dec_chars(offset as nat),
        TranslateError::UnknownTargetTriple => "unknown target triple"@,
    }
}

impl TranslateError {
    /// The error as text, with the context that identifies the offending
    /// definition or instruction.
    pub fn message(&self) -> (r: String)
        ensures
            r@ == message_chars(*self),
    {
        let mut s: String;
        match self {
            TranslateError::InvalidFunctionIndex { index } => {
                s = "invalid function definition index ".to_owned();
                crate::render::push_usize(&mut s, *index);
            },
            TranslateError::InvalidStructIndex { index } => {
                s = "invalid struct definition index ".to_owned();
                crate::render::push_usize(&mut s, *index);
            },
            TranslateError::UndeclaredStruct { index } => {
                s = "type token names undeclared struct ".to_owned();
                crate::render::push_usize(&mut s, *index);
            },
            TranslateError::UnsupportedType { kind } => {
                s = "unsupported type: ".to_owned();
                s.append(kind.name());
            },
            TranslateError::StackUnderflow { offset } => {
                s = "operand stack underflow at offset ".to_owned();
                crate::render::push_usize(&mut s, *offset);
            },
            TranslateError::InvalidLocalIndex { offset, index } => {
                s = "invalid local index ".to_owned();
                crate::render::push_usize(&mut s, *index);
                s.append(" at offset ");
                crate::render::push_usize(&mut s, *offset);
            },
            TranslateError::StackImbalance { offset, depth, needed } => {
                s = "operand stack holds ".to_owned();
                crate::render::push_usize(&mut s, *depth);
                s.append(" values at offset ");
                crate::render::push_usize(&mut s, *offset);
                s.append(" where ");
                crate::render::push_usize(&mut s, *needed);
                s.append(" are needed");
            },
            TranslateError::BranchOutOfRange { offset, target } => {
                s = "branch at offset ".to_owned();
                crate::render::push_usize(&mut s, *offset);
                s.append(" targets offset ");
                crate::render::push_usize(&mut s, *target);
                s.append(", outside the function");
            },
            TranslateError::OperandTypeMismatch { offset } => {
                s = "operand type mismatch at offset ".to_owned();
                crate::render::push_usize(&mut s, *offset);
            },
            TranslateError::InvalidCallTarget { offset, callee } => {
                s = "call at offset ".to_owned();
                crate::render::push_usize(&mut s, *offset);
                s.append(" names function ");
                crate::render::push_usize(&mut s, *callee);
                s.append(", outside the function table");
            },
            TranslateError::MissingTerminator => {
                s = "the last instruction must return or branch".to_owned();
            },
            TranslateError::InconsistentRedeclaration => {
                s = "a name was redeclared with a different type".to_owned();
            },
            TranslateError::UnsupportedInstruction { offset } => {
                s = "unsupported instruction at offset ".to_owned();
                crate::render::push_usize(&mut s, *offset);
            },
            TranslateError::UnknownTargetTriple => {
                s = "unknown target triple".to_owned();
            },
        }
        s
    }
}

} // verus!
