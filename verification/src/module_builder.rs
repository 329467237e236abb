//! The per-unit module builder: one context-scoped module under
//! construction, with the lookup tables from source-bytecode struct and
//! function indices to the IR types and functions already materialized for
//! them (for deduplication and for forward references).

use vstd::prelude::*;

use crate::context::{Context, StructType};
use crate::errors::TranslateError;
use crate::ir::{Constant, Type};
use crate::module::{Function, Module};
use crate::sigs::{
    SignatureToken, all_tokens_lower, lower_sig_token, lower_sig_tokens, lower_type_spec,
    lowered_types, make_single_return_type, single_return_type_spec,
};
use crate::target::{Target, TargetMachine, llvm_features, llvm_target_triple};

verus! {

/// How hard the downstream code generator may optimize. This backend fixes
/// the level to `Off`: it always emits in the most literal style.
#[derive(Clone, Copy, PartialEq, Eq, Structural, Debug)]
pub enum OptimizationLevel {
    Off,
    Less,
    Standard,
    Aggressive,
}

/// One compilation unit's builder state: its context, its module, and the
/// index-to-handle lookup tables.
pub struct MoveBPFModule {
    pub name: String,
    pub context: Context,
    pub module: Module,
    pub opt: OptimizationLevel,
    /// Source struct index to declared named IR struct type.
    pub struct_map: Vec<StructType>,
    /// Source function index to declared IR function.
    pub function_map: Vec<Function>,
}

impl MoveBPFModule {
    /// Well-formed: context and module are, every mapped struct type is a
    /// type of the context, and every mapped function is one of the module.
    pub open spec fn wf(self) -> bool {
        &&& self.context.wf()
        &&& self.module.wf()
        &&& forall|i: int|
            0 <= i < self.struct_map@.len() ==> (#[trigger] self.struct_map@[i]).id
                < self.context.struct_types@.len()
        &&& forall|i: int|
            0 <= i < self.function_map@.len() ==> (#[trigger] self.function_map@[i]).idx
                < self.module.functions@.len()
    }

    /// Begins one compilation unit: takes ownership of its (fresh) context,
    /// creates the module, and records the fixed target triple and the name
    /// of the unit's source file.
    pub fn new(context: Context, name: &str, filename: &str, opt: OptimizationLevel) -> (r:
        MoveBPFModule)
        requires
            context.wf(),
        ensures
            r.wf(),
            r.context == context,
            r.name@ == name@,
            r.module.name@ == name@,
            r.module.triple@ == "bpfel-unknown-unknown"@,
            r.module.source_file_name@ == filename@,
            r.module.functions@.len() == 0,
            r.module.globals@.len() == 0,
            r.struct_map@.len() == 0,
            r.function_map@.len() == 0,
            r.opt == opt,
    {
        let mut module = context.create_module(name);
        module.set_target(llvm_target_triple());
        module.set_source_file_name(filename);
        MoveBPFModule {
            name: name.to_owned(),
            context,
            module,
            opt,
            struct_map: Vec::new(),
            function_map: Vec::new(),
        }
    }

    /// The machine the downstream emitter will consume: the fixed BPF
    /// target at its fixed triple, processor version and (empty) feature
    /// set. Nothing else resolves, so this cannot fail.
    pub fn get_target_machine(&self) -> (r: Option<TargetMachine>)
        ensures
            (r matches Some(tm) && tm.triple@ == "bpfel-unknown-unknown"@ && tm.cpu@ == "v2"@
                && tm.features@ == ""@),
    {
        match Target::from_triple(llvm_target_triple()) {
            Ok(target) => Some(
                target.create_target_machine(llvm_target_triple(), "v2", llvm_features()),
            ),
            Err(_) => None,
        }
    }

    /// Maps one source type token to its IR type, against this unit's
    /// struct lookup table.
    pub fn llvm_type_for_sig_tok(&self, sig_tok: &SignatureToken) -> (r: Result<
        Type,
        TranslateError,
    >)
        ensures
            r == lower_type_spec(*sig_tok, self.struct_map@),
    {
        lower_sig_token(sig_tok, &self.struct_map)
    }

    /// Maps a list of source type tokens to their IR types, in order.
    pub fn llvm_type_for_sig_tokens(&self, sig_tokens: &Vec<SignatureToken>) -> (r: Result<
        Vec<Type>,
        TranslateError,
    >)
        ensures
            match r {
                Ok(v) => all_tokens_lower(sig_tokens@, self.struct_map@) && v@ == lowered_types(
                    sig_tokens@,
                    self.struct_map@,
                ),
                Err(_) => !all_tokens_lower(sig_tokens@, self.struct_map@),
            },
    {
        let r = lower_sig_tokens(sig_tokens, &self.struct_map);
        proof {
            if r is Err {
                let e = r->Err_0;
                let i = choose|i: int|
                    {
                        &&& 0 <= i < sig_tokens@.len()
                        &&& lower_type_spec(sig_tokens@[i], self.struct_map@) == Err::<
                            Type,
                            TranslateError,
                        >(e)
                        &&& forall|j: int|
                            0 <= j < i ==> lower_type_spec(sig_tokens@[j], self.struct_map@) is Ok
                    };
                assert(!all_tokens_lower(sig_tokens@, self.struct_map@));
            }
        }
        r
    }

    /// Collapses a list of return types to the one return type of the IR
    /// function: void for none, the type itself for one, an anonymous
    /// aggregate of all of them for several.
    pub fn llvm_make_single_return_type(&self, types: &Vec<Type>) -> (r: Type)
        ensures
            r == single_return_type_spec(types@),
    {
        make_single_return_type(types)
    }

    /// A constant of the pointer-sized integer type with the given value
    /// (the literal constant a load instruction pushes).
    pub fn llvm_constant(&self, value: u64) -> (r: Constant)
        ensures
            r == (Constant::Int { ty: Type::Int64, value }),
    {
        Constant::const_int(Type::Int64, value)
    }
}

} // verus!
