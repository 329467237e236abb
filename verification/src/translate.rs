//! The translator over one already-verified source module: struct layouts
//! first, then function signatures and bodies.
//!
//! Struct types may refer to each other and to themselves, so translation
//! is two-phase: every struct is first declared as an opaque named type,
//! and only then are the bodies filled in, so any reference found while a
//! body is laid out already has a valid (if still opaque) target. Function
//! declaration likewise precedes body lowering, so calls may refer forward.

use vstd::prelude::*;

use crate::context::{Context, StructType};
use crate::errors::TranslateError;
use crate::bytecode::{Bytecode, lemma_lowerable_same_sigs, lowerable, sigs_agree_on};
use crate::module::Module;
use crate::ir::{FunctionBody, FunctionType, Type, clone_string};
use crate::lowering::{body_blocks_wired, lower_function_body};
use crate::module::Function;
use crate::module_builder::{MoveBPFModule, OptimizationLevel};
use crate::sigs::{
    SignatureToken, all_tokens_lower, lowered_types, single_return_type_spec,
};

verus! {

/// One field of a struct definition: its name and its type token.
pub struct FieldDefinition {
    pub name: String,
    pub signature: SignatureToken,
}

/// How a struct lays out its fields: a native struct declares none (its
/// layout belongs to the runtime, and its type stays opaque), a declared
/// struct lists them in order.
pub enum StructFieldInformation {
    Native,
    Declared(Vec<FieldDefinition>),
}

/// One struct definition of the source module.
pub struct StructDefinition {
    pub name: String,
    pub field_information: StructFieldInformation,
}

/// One function definition of the source module.
pub struct FunctionDefinition {
    pub name: String,
    /// Whether the function is visible outside its module (the
    /// externally-visible-only rendering filter reads this).
    pub is_public: bool,
    pub parameters: Vec<SignatureToken>,
    pub return_: Vec<SignatureToken>,
    /// The declared locals beyond the parameters.
    pub locals: Vec<SignatureToken>,
    /// The instruction sequence, or nothing for a native function.
    pub code: Option<Vec<Bytecode>>,
}

/// One fully parsed, already-verified source module (or script: a script
/// has no name and exposes its body as an ordinary function).
pub struct SourceModule {
    pub name: Option<String>,
    pub structs: Vec<StructDefinition>,
    pub functions: Vec<FunctionDefinition>,
}

/// Whether every function of the module under the given name (there is at
/// most one) is still bodiless, so a body may be attached to it.
pub open spec fn bodiless_or_absent(m: crate::module::Module, name: Seq<char>) -> bool {
    forall|i: int|
        0 <= i < m.functions@.len() && (#[trigger] m.functions@[i]).name@ == name
            ==> m.functions@[i].body is None
}

/// The storage-slot types of one function: its lowered parameter types,
/// then its lowered declared-local types.
pub open spec fn full_locals(f: FunctionDefinition, smap: Seq<StructType>) -> Seq<Type> {
    lowered_types(f.parameters@, smap) + lowered_types(f.locals@, smap)
}

/// The type tokens of a struct's declared fields, in order.
pub open spec fn field_tokens(fields: Seq<FieldDefinition>) -> Seq<SignatureToken> {
    fields.map_values(|f: FieldDefinition| f.signature)
}

/// Well-formed input: no two structs and no two functions share a name,
/// and every body leaves room for one more instruction offset.
pub open spec fn source_wf(sm: SourceModule) -> bool {
    &&& forall|i: int, j: int|
        0 <= i < j < sm.structs@.len() ==> sm.structs@[i].name@ != sm.structs@[j].name@
    &&& forall|i: int, j: int|
        0 <= i < j < sm.functions@.len() ==> sm.functions@[i].name@ != sm.functions@[j].name@
    &&& forall|i: int|
        0 <= i < sm.functions@.len() ==> ((#[trigger] sm.functions@[i].code) matches Some(c)
            ==> c@.len() < usize::MAX)
}

/// The struct lookup table maps source struct `i` to context entry `i`,
/// named after it (what the declaration pass establishes).
pub open spec fn structs_declared(sm: SourceModule, mm: MoveBPFModule) -> bool {
    &&& mm.struct_map@.len() == sm.structs@.len()
    &&& mm.context.struct_types@.len() >= sm.structs@.len()
    &&& forall|i: int|
        0 <= i < sm.structs@.len() ==> (#[trigger] mm.struct_map@[i]).id == i
    &&& forall|i: int|
        0 <= i < sm.structs@.len() ==> (#[trigger] mm.context.struct_types@[i]).name@
            == sm.structs@[i].name@
}

/// Struct `i` of the source was laid out in the context: a native struct
/// stays opaque, a declared struct's body holds its lowered field types in
/// declaration order.
pub open spec fn struct_translated(
    sm: SourceModule,
    cx: Context,
    smap: Seq<StructType>,
    i: int,
) -> bool {
    match sm.structs@[i].field_information {
        StructFieldInformation::Native => cx.struct_types@[i].body is None,
        StructFieldInformation::Declared(fields) => (cx.struct_types@[i].body matches Some(b)
            && b@ == lowered_types(field_tokens(fields@), smap)),
    }
}

/// Function `i` of the source was translated into the module: its IR type
/// is the lowered signature (the return types collapsed to one), and its
/// body, unless the function is native, is attached and came from a
/// `lowerable` instruction sequence.
pub open spec fn function_translated(
    sm: SourceModule,
    m: crate::module::Module,
    smap: Seq<StructType>,
    fmap: Seq<Function>,
    i: int,
) -> bool {
    &&& m.functions@[i].name@ == sm.functions@[i].name@
    &&& m.functions@[i].ty.parameter_types@ == lowered_types(sm.functions@[i].parameters@, smap)
    &&& m.functions@[i].ty.return_type == single_return_type_spec(
        lowered_types(sm.functions@[i].return_@, smap),
    )
    &&& (sm.functions@[i].code is None ==> m.functions@[i].body is None)
    &&& (sm.functions@[i].code matches Some(c) ==> m.functions@[i].body is Some && lowerable(
        c@,
        full_locals(sm.functions@[i], smap),
        lowered_types(sm.functions@[i].return_@, smap),
        m,
        fmap,
    ))
}

/// The struct lookup table every run of the translator builds over a fresh
/// context: source struct `i` maps to context entry `i`.
pub open spec fn canonical_struct_map(n: nat) -> Seq<StructType> {
    Seq::new(n, |i: int| StructType { id: i as usize })
}

/// A module and call table that declare the source's functions: one entry
/// per source function, in order, each typed by the lowered signature.
/// Body lowering reads nothing else of a module, so any such pair serves.
pub open spec fn declared_sigs_ok(m: Module, fmap: Seq<Function>, sm: SourceModule) -> bool {
    let smap = canonical_struct_map(sm.structs@.len());
    &&& fmap.len() == sm.functions@.len()
    &&& forall|i: int| 0 <= i < fmap.len() ==> (#[trigger] fmap[i]).idx < m.functions@.len()
    &&& forall|i: int|
        0 <= i < fmap.len() ==> m.functions@[(#[trigger] fmap[i]).idx as int].ty.parameter_types@
            == lowered_types(sm.functions@[i].parameters@, smap)
    &&& forall|i: int|
        0 <= i < fmap.len() ==> m.functions@[(#[trigger] fmap[i]).idx as int].ty.return_type
            == single_return_type_spec(lowered_types(sm.functions@[i].return_@, smap))
}

/// Whether the whole source module translates: every declared struct's
/// field tokens lower, every function's parameter, return and local tokens
/// lower, and every body is a lowerable instruction sequence against the
/// declared signatures. The translation succeeds exactly on such input.
pub open spec fn source_translatable(sm: SourceModule) -> bool {
    let smap = canonical_struct_map(sm.structs@.len());
    &&& forall|i: int|
        0 <= i < sm.structs@.len() ==> ((#[trigger] sm.structs@[i]).field_information matches
            StructFieldInformation::Declared(fields) ==> all_tokens_lower(
            field_tokens(fields@),
            smap,
        ))
    &&& forall|i: int|
        0 <= i < sm.functions@.len() ==> all_tokens_lower(
            (#[trigger] sm.functions@[i]).parameters@,
            smap,
        ) && all_tokens_lower(sm.functions@[i].return_@, smap)
    &&& forall|i: int|
        0 <= i < sm.functions@.len() ==> ((#[trigger] sm.functions@[i]).code matches Some(c)
            ==> all_tokens_lower(sm.functions@[i].locals@, smap) && (forall|m: Module, fmap: Seq<
            Function,
        >|
            #[trigger] declared_sigs_ok(m, fmap, sm) ==> lowerable(
                c@,
                full_locals(sm.functions@[i], smap),
                lowered_types(sm.functions@[i].return_@, smap),
                m,
                fmap,
            )))
}

/// The translator for one source module: it owns the source and the one
/// IR context of the compilation unit.
pub struct Disassembler {
    pub source_mapper: SourceModule,
    pub llvm_context: Context,
}

impl Disassembler {
    /// A translator over the given source module and (fresh) context.
    pub fn new(source_mapper: SourceModule, llvm_context: Context) -> (r: Disassembler)
        ensures
            r.source_mapper == source_mapper,
            r.llvm_context == llvm_context,
    {
        Disassembler { source_mapper, llvm_context }
    }

    /// The function definition with the given index. An index outside the
    /// source module's function table is a fatal error naming it.
    fn get_function_def(&self, function_definition_index: usize) -> (r: Result<
        &FunctionDefinition,
        TranslateError,
    >)
        ensures
            match r {
                Ok(d) => function_definition_index < self.source_mapper.functions@.len() && *d
                    == self.source_mapper.functions@[function_definition_index as int],
                Err(e) => {
                    &&& function_definition_index >= self.source_mapper.functions@.len()
                    &&& e == (TranslateError::InvalidFunctionIndex {
                        index: function_definition_index,
                    })
                },
            },
    {
        if function_definition_index >= self.source_mapper.functions.len() {
            return Err(
                TranslateError::InvalidFunctionIndex { index: function_definition_index },
            );
        }
        Ok(&self.source_mapper.functions[function_definition_index])
    }

    /// The struct definition with the given index. An index outside the
    /// source module's struct table is a fatal error naming it.
    fn get_struct_def(&self, struct_definition_index: usize) -> (r: Result<
        &StructDefinition,
        TranslateError,
    >)
        ensures
            match r {
                Ok(d) => struct_definition_index < self.source_mapper.structs@.len() && *d
                    == self.source_mapper.structs@[struct_definition_index as int],
                Err(e) => {
                    &&& struct_definition_index >= self.source_mapper.structs@.len()
                    &&& e == (TranslateError::InvalidStructIndex { index: struct_definition_index })
                },
            },
    {
        if struct_definition_index >= self.source_mapper.structs.len() {
            return Err(TranslateError::InvalidStructIndex { index: struct_definition_index });
        }
        Ok(&self.source_mapper.structs[struct_definition_index])
    }

    /// Fills in the body of the (already declared) struct type of one
    /// struct definition: the field types in declaration order. A native
    /// struct keeps its opaque type — valid to be referenced, never to have
    /// its fields accessed. Success is owed whenever the index resolves and
    /// every field type token lowers.
    #[verifier::loop_isolation(false)]
    pub fn process_struct_def(&self, struct_def_idx: usize, move_module: &mut MoveBPFModule) -> (r:
        Result<StructType, TranslateError>)
        requires
            old(move_module).wf(),
            structs_declared(self.source_mapper, *old(move_module)),
            struct_def_idx < self.source_mapper.structs@.len() ==> old(
                move_module,
            ).context.struct_types@[struct_def_idx as int].body is None,
        ensures
            final(move_module).wf(),
            structs_declared(self.source_mapper, *final(move_module)),
            final(move_module).module == old(move_module).module,
            final(move_module).struct_map == old(move_module).struct_map,
            final(move_module).function_map == old(move_module).function_map,
            final(move_module).context.struct_types@.len() == old(
                move_module,
            ).context.struct_types@.len(),
            forall|i: int|
                0 <= i < old(move_module).context.struct_types@.len() && i != struct_def_idx
                    ==> final(move_module).context.struct_types@[i] == old(
                    move_module,
                ).context.struct_types@[i],
            match r {
                Ok(st) => {
                    &&& struct_def_idx < self.source_mapper.structs@.len()
                    &&& st == old(move_module).struct_map@[struct_def_idx as int]
                    &&& match self.source_mapper.structs@[struct_def_idx as int].field_information {
                        StructFieldInformation::Native => *final(move_module) == *old(move_module),
                        StructFieldInformation::Declared(fields) => {
                            &&& all_tokens_lower(field_tokens(fields@), old(move_module).struct_map@)
                            &&& (final(move_module).context.struct_types@[
                                struct_def_idx as int
                            ].body matches Some(b) && b@ == lowered_types(
                                field_tokens(fields@),
                                old(move_module).struct_map@,
                            ))
                        },
                    }
                },
                Err(e) => {
                    ||| struct_def_idx >= self.source_mapper.structs@.len()
                    ||| (self.source_mapper.structs@[struct_def_idx as int].field_information
                        matches StructFieldInformation::Declared(fields) && !all_tokens_lower(
                        field_tokens(fields@),
                        old(move_module).struct_map@,
                    ))
                },
            },
    {
        let struct_def = match self.get_struct_def(struct_def_idx) {
            Ok(d) => d,
            Err(e) => {
                return Err(e);
            },
        };
        let llvm_struct = move_module.struct_map[struct_def_idx];
        match &struct_def.field_information {
            StructFieldInformation::Native => Ok(llvm_struct),
            StructFieldInformation::Declared(fields) => {
                let mut llvm_elem_types: Vec<Type> = Vec::new();
                let nf = fields.len();
                let mut k: usize = 0;
                while k < nf
                    invariant
                        k <= nf,
                        nf == fields@.len(),
                        llvm_elem_types@.len() == k,
                        forall|j: int|
                            0 <= j < k ==> crate::sigs::lower_type_spec(
                                fields@[j].signature,
                                move_module.struct_map@,
                            ) == Ok::<Type, TranslateError>(llvm_elem_types@[j]),
                    decreases nf - k,
                {
                    let x = match move_module.llvm_type_for_sig_tok(&fields[k].signature) {
                        Ok(t) => t,
                        Err(e) => {
                            proof {
                                assert(field_tokens(fields@)[k as int] == fields@[
                                    k as int
                                ].signature);
                            }
                            return Err(e);
                        },
                    };
                    llvm_elem_types.push(x);
                    k = k + 1;
                }
                proof {
                    assert forall|j: int| 0 <= j < field_tokens(fields@).len() implies
                        crate::sigs::lower_type_spec(
                        field_tokens(fields@)[j],
                        move_module.struct_map@,
                    ) is Ok by {
                        assert(field_tokens(fields@)[j] == fields@[j].signature);
                        assert(crate::sigs::lower_type_spec(
                            fields@[j].signature,
                            move_module.struct_map@,
                        ) == Ok::<Type, TranslateError>(llvm_elem_types@[j]));
                    }
                    assert(llvm_elem_types@ =~= lowered_types(
                        field_tokens(fields@),
                        move_module.struct_map@,
                    ));
                }
                llvm_struct.set_struct_body(&mut move_module.context, llvm_elem_types);
                Ok(llvm_struct)
            },
        }
    }

    /// Derives a function's IR signature, declares it (memoized by name),
    /// and, unless the function is native, lowers its body.
    ///
    /// Success is owed whenever every parameter, return and local type
    /// token lowers, any earlier declaration under this name agrees, and
    /// the body (if any) is a `lowerable` instruction sequence.
    pub fn process_function_def(
        &self,
        function: &FunctionDefinition,
        move_module: &mut MoveBPFModule,
    ) -> (r: Result<Function, TranslateError>)
        requires
            old(move_module).wf(),
            bodiless_or_absent(old(move_module).module, function.name@),
            (function.code matches Some(c) ==> c@.len() < usize::MAX),
        ensures
            final(move_module).wf(),
            final(move_module).context == old(move_module).context,
            final(move_module).struct_map == old(move_module).struct_map,
            final(move_module).function_map == old(move_module).function_map,
            final(move_module).module.globals == old(move_module).module.globals,
            final(move_module).module.name == old(move_module).module.name,
            final(move_module).module.triple == old(move_module).module.triple,
            final(move_module).module.source_file_name == old(move_module).module.source_file_name,
            old(move_module).module.functions@.len() <= final(move_module).module.functions@.len()
                <= old(move_module).module.functions@.len() + 1,
            old(move_module).module.has_function_named(function.name@)
                ==> final(move_module).module.functions@.len() == old(
                move_module,
            ).module.functions@.len(),
            match r {
                Ok(f) => {
                    &&& f.idx < final(move_module).module.functions@.len()
                    &&& final(move_module).module.functions@[f.idx as int].name@ == function.name@
                    &&& (old(move_module).module.has_function_named(function.name@) ==> final(move_module).module.functions@[f.idx as int].ty == old(move_module).module.functions@[f.idx as int].ty)
                    &&& forall|i: int|
                        0 <= i < old(move_module).module.functions@.len() && i != f.idx ==> final(move_module).module.functions@[i] == old(move_module).module.functions@[i]
                    &&& all_tokens_lower(function.parameters@, old(move_module).struct_map@)
                    &&& all_tokens_lower(function.return_@, old(move_module).struct_map@)
                    &&& final(move_module).module.functions@[f.idx as int].ty.parameter_types@
                        == lowered_types(function.parameters@, old(move_module).struct_map@)
                    &&& final(move_module).module.functions@[f.idx as int].ty.return_type
                        == single_return_type_spec(
                        lowered_types(function.return_@, old(move_module).struct_map@),
                    )
                    &&& (function.code is None ==> final(move_module).module.functions@[
                        f.idx as int
                    ].body is None)
                    &&& (function.code matches Some(c) ==> {
                        &&& all_tokens_lower(function.locals@, old(move_module).struct_map@)
                        &&& lowerable(
                            c@,
                            full_locals(*function, old(move_module).struct_map@),
                            lowered_types(function.return_@, old(move_module).struct_map@),
                            final(move_module).module,
                            old(move_module).function_map@,
                        )
                        &&& (final(move_module).module.functions@[f.idx as int].body matches Some(
                            b,
                        ) && {
                            &&& body_blocks_wired(
                                c@,
                                function.parameters@.len(),
                                function.return_@.len(),
                                b,
                            )
                            &&& b.slots@.len() >= full_locals(
                                *function,
                                old(move_module).struct_map@,
                            ).len()
                            &&& forall|k: int|
                                0 <= k < full_locals(*function, old(move_module).struct_map@).len()
                                    ==> b.slots@[k].ty == full_locals(
                                    *function,
                                    old(move_module).struct_map@,
                                )[k]
                        })
                    })
                },
                Err(_) => {
                    ||| !all_tokens_lower(function.parameters@, old(move_module).struct_map@)
                    ||| !all_tokens_lower(function.return_@, old(move_module).struct_map@)
                    ||| exists|i: int|
                        {
                            &&& 0 <= i < old(move_module).module.functions@.len()
                            &&& (#[trigger] old(move_module).module.functions@[i]).name@
                                == function.name@
                            &&& (old(move_module).module.functions@[i].ty.parameter_types@
                                != lowered_types(
                                function.parameters@,
                                old(move_module).struct_map@,
                            ) || old(move_module).module.functions@[i].ty.return_type
                                != single_return_type_spec(
                                lowered_types(function.return_@, old(move_module).struct_map@),
                            ))
                        }
                    ||| (function.code matches Some(c) && (!all_tokens_lower(
                        function.locals@,
                        old(move_module).struct_map@,
                    ) || !lowerable(
                        c@,
                        full_locals(*function, old(move_module).struct_map@),
                        lowered_types(function.return_@, old(move_module).struct_map@),
                        old(move_module).module,
                        old(move_module).function_map@,
                    )))
                },
            },
    {
        let param_tys = match move_module.llvm_type_for_sig_tokens(&function.parameters) {
            Ok(v) => v,
            Err(e) => {
                return Err(e);
            },
        };
        let ret_tys = match move_module.llvm_type_for_sig_tokens(&function.return_) {
            Ok(v) => v,
            Err(e) => {
                return Err(e);
            },
        };
        let llvm_type_return = move_module.llvm_make_single_return_type(&ret_tys);
        let fnty = FunctionType::new(llvm_type_return, &param_tys);
        let ghost fnty_snapshot = fnty;
        let fn_value = match move_module.module.declare_function(function.name.as_str(), fnty) {
            Ok(f) => f,
            Err(e) => {
                proof {
                    let i = choose|i: int|
                        0 <= i < old(move_module).module.functions@.len() && old(
                            move_module,
                        ).module.functions@[i].name@ == function.name@ && !crate::ir::fnty_eq(
                            old(move_module).module.functions@[i].ty,
                            fnty_snapshot,
                        );
                    assert(old(move_module).module.functions@[i].name@ == function.name@);
                }
                return Err(e);
            },
        };
        match &function.code {
            None => Ok(fn_value),
            Some(code) => {
                let local_tys = match move_module.llvm_type_for_sig_tokens(&function.locals) {
                    Ok(v) => v,
                    Err(e) => {
                        return Err(e);
                    },
                };
                let nparams = param_tys.len();
                let mut all_locals = param_tys;
                let mut rest = local_tys;
                all_locals.append(&mut rest);
                proof {
                    assert(all_locals@ =~= full_locals(*function, old(move_module).struct_map@));
                }
                let ghost m_low = move_module.module;
                let body = match self.disassemble_bytecode(
                    nparams,
                    &all_locals,
                    &ret_tys,
                    code,
                    move_module,
                ) {
                    Ok(b) => b,
                    Err(e) => {
                        proof {
                            assert(sigs_agree_on(
                                m_low,
                                old(move_module).module,
                                old(move_module).function_map@,
                            ));
                            lemma_lowerable_same_sigs(
                                code@,
                                all_locals@,
                                ret_tys@,
                                m_low,
                                old(move_module).module,
                                old(move_module).function_map@,
                            );
                        }
                        return Err(e);
                    },
                };
                fn_value.attach_body(&mut move_module.module, body);
                proof {
                    assert(sigs_agree_on(
                        m_low,
                        move_module.module,
                        old(move_module).function_map@,
                    ));
                    lemma_lowerable_same_sigs(
                        code@,
                        all_locals@,
                        ret_tys@,
                        m_low,
                        move_module.module,
                        old(move_module).function_map@,
                    );
                }
                Ok(fn_value)
            },
        }
    }

    /// Translates the whole source module: every struct type is declared
    /// up front and its body filled in a second pass (so struct types may
    /// refer to each other and to themselves), then every function is
    /// declared and its body lowered (so calls may refer forward). Returns
    /// the fully constructed compilation unit.
    #[verifier::loop_isolation(false)]
    pub fn disassemble(self) -> (r: Result<MoveBPFModule, TranslateError>)
        requires
            source_wf(self.source_mapper),
            self.llvm_context.wf(),
            self.llvm_context.struct_types@.len() == 0,
        ensures
            match r {
                Ok(mm) => {
                    &&& mm.wf()
                    &&& structs_declared(self.source_mapper, mm)
                    &&& mm.function_map@.len() == self.source_mapper.functions@.len()
                    &&& mm.module.functions@.len() == self.source_mapper.functions@.len()
                    &&& forall|i: int|
                        0 <= i < self.source_mapper.structs@.len() ==> struct_translated(
                            self.source_mapper,
                            mm.context,
                            mm.struct_map@,
                            i,
                        )
                    &&& forall|i: int|
                        0 <= i < self.source_mapper.functions@.len() ==> function_translated(
                            self.source_mapper,
                            mm.module,
                            mm.struct_map@,
                            mm.function_map@,
                            i,
                        )
                    &&& (self.source_mapper.name matches Some(s) ==> mm.module.name@ == "module "@
                        + s@ && mm.module.source_file_name@ == s@ + ".bc"@)
                    &&& (self.source_mapper.name is None ==> mm.module.name@ == "script"@
                        && mm.module.source_file_name@ == "script.bc"@)
                },
                Err(_) => !source_translatable(self.source_mapper),
            },
    {
        let Disassembler { source_mapper, llvm_context } = self;
        let this = Disassembler { source_mapper, llvm_context: Context::new() };
        let cx = llvm_context;

        let header: String;
        let llvm_module_name: String;
        match &this.source_mapper.name {
            Some(s) => {
                let mut h: String = "module ".to_owned();
                h.append(s.as_str());
                header = h;
                let mut n: String = clone_string(s);
                n.append(".bc");
                llvm_module_name = n;
            },
            None => {
                header = "script".to_owned();
                llvm_module_name = "script.bc".to_owned();
            },
        }

        let mut move_module = MoveBPFModule::new(
            cx,
            header.as_str(),
            llvm_module_name.as_str(),
            OptimizationLevel::Off,
        );
        let ghost mname = move_module.module.name;
        let ghost msrc = move_module.module.source_file_name;
        let ghost smtr = this.source_mapper;

        let ns = this.source_mapper.structs.len();
        let mut i: usize = 0;
        while i < ns
            invariant
                i <= ns,
                move_module.wf(),
                move_module.context.struct_types@.len() == i,
                move_module.struct_map@.len() == i,
                forall|j: int| 0 <= j < i ==> (#[trigger] move_module.struct_map@[j]).id == j,
                forall|j: int|
                    0 <= j < i ==> (#[trigger] move_module.context.struct_types@[j]).name@
                        == this.source_mapper.structs@[j].name@,
                forall|j: int|
                    0 <= j < i ==> (#[trigger] move_module.context.struct_types@[j]).body is None,
                move_module.module.functions@.len() == 0,
                move_module.function_map@.len() == 0,
                move_module.module.name == mname,
                move_module.module.source_file_name == msrc,
            decreases ns - i,
        {
            proof {
                assert forall|j: int|
                    0 <= j < move_module.context.struct_types@.len() implies move_module.context.struct_types@[j].name@
                    != this.source_mapper.structs@[i as int].name@ by {
                    assert(move_module.context.struct_types@[j].name@
                        == this.source_mapper.structs@[j].name@);
                }
            }
            let st = move_module.context.create_opaque_named_struct(
                this.source_mapper.structs[i].name.as_str(),
            );
            move_module.struct_map.push(st);
            i = i + 1;
        }

        let mut i: usize = 0;
        while i < ns
            invariant
                i <= ns,
                ns == this.source_mapper.structs@.len(),
                move_module.wf(),
                structs_declared(this.source_mapper, move_module),
                forall|j: int|
                    i <= j < ns ==> (#[trigger] move_module.context.struct_types@[j]).body is None,
                forall|j: int|
                    0 <= j < i ==> struct_translated(
                        this.source_mapper,
                        move_module.context,
                        move_module.struct_map@,
                        j,
                    ),
                move_module.module.functions@.len() == 0,
                move_module.function_map@.len() == 0,
                move_module.module.name == mname,
                move_module.module.source_file_name == msrc,
            decreases ns - i,
        {
            let ghost mm_pre = move_module;
            let _ = match this.process_struct_def(i, &mut move_module) {
                Ok(st) => st,
                Err(e) => {
                    proof {
                        assert(mm_pre.struct_map@ =~= canonical_struct_map(
                            smtr.structs@.len() as nat,
                        ));
                        match smtr.structs@[i as int].field_information {
                            StructFieldInformation::Declared(fields) => {
                                assert(!all_tokens_lower(
                                    field_tokens(fields@),
                                    canonical_struct_map(smtr.structs@.len() as nat),
                                ));
                                assert(!source_translatable(smtr));
                            },
                            StructFieldInformation::Native => {
                                assert(false);
                            },
                        }
                    }
                    return Err(e);
                },
            };
            proof {
                assert forall|j: int|
                    0 <= j < i + 1 implies struct_translated(
                    this.source_mapper,
                    move_module.context,
                    move_module.struct_map@,
                    j,
                ) by {
                    if j < i {
                        assert(struct_translated(
                            this.source_mapper,
                            mm_pre.context,
                            mm_pre.struct_map@,
                            j,
                        ));
                        assert(move_module.context.struct_types@[j]
                            == mm_pre.context.struct_types@[j]);
                    }
                }
            }
            i = i + 1;
        }

        let nf = this.source_mapper.functions.len();
        let mut i: usize = 0;
        while i < nf
            invariant
                i <= nf,
                nf == this.source_mapper.functions@.len(),
                ns == this.source_mapper.structs@.len(),
                move_module.wf(),
                structs_declared(this.source_mapper, move_module),
                forall|j: int|
                    0 <= j < ns ==> struct_translated(
                        this.source_mapper,
                        move_module.context,
                        move_module.struct_map@,
                        j,
                    ),
                move_module.function_map@.len() == i,
                move_module.module.functions@.len() == i,
                forall|j: int| 0 <= j < i ==> (#[trigger] move_module.function_map@[j]).idx == j,
                forall|j: int|
                    0 <= j < i ==> (#[trigger] move_module.module.functions@[j]).name@
                        == this.source_mapper.functions@[j].name@,
                forall|j: int|
                    0 <= j < i ==> (#[trigger] move_module.module.functions@[j]).body is None,
                forall|j: int|
                    0 <= j < i ==> (#[trigger] move_module.module.functions@[j]).ty.parameter_types@
                        == lowered_types(
                        this.source_mapper.functions@[j].parameters@,
                        move_module.struct_map@,
                    ),
                forall|j: int|
                    0 <= j < i ==> (#[trigger] move_module.module.functions@[j]).ty.return_type
                        == single_return_type_spec(
                        lowered_types(
                            this.source_mapper.functions@[j].return_@,
                            move_module.struct_map@,
                        ),
                    ),
                move_module.module.name == mname,
                move_module.module.source_file_name == msrc,
            decreases nf - i,
        {
            let fdef = &this.source_mapper.functions[i];
            proof {
                assert(move_module.struct_map@ =~= canonical_struct_map(
                    smtr.structs@.len() as nat,
                ));
            }
            let param_tys = match move_module.llvm_type_for_sig_tokens(&fdef.parameters) {
                Ok(v) => v,
                Err(e) => {
                    proof {
                        assert(!source_translatable(smtr));
                    }
                    return Err(e);
                },
            };
            let ret_tys = match move_module.llvm_type_for_sig_tokens(&fdef.return_) {
                Ok(v) => v,
                Err(e) => {
                    proof {
                        assert(!source_translatable(smtr));
                    }
                    return Err(e);
                },
            };
            let llvm_type_return = move_module.llvm_make_single_return_type(&ret_tys);
            let fnty = FunctionType::new(llvm_type_return, &param_tys);
            proof {
                assert forall|j: int|
                    0 <= j < move_module.module.functions@.len() implies move_module.module.functions@[j].name@
                    != this.source_mapper.functions@[i as int].name@ by {
                    assert(move_module.module.functions@[j].name@
                        == this.source_mapper.functions@[j].name@);
                }
            }
            let f = match move_module.module.declare_function(fdef.name.as_str(), fnty) {
                Ok(f) => f,
                Err(e) => {
                    proof {
                        assert(false);
                    }
                    return Err(e);
                },
            };
            move_module.function_map.push(f);
            i = i + 1;
        }

        let mut i: usize = 0;
        while i < nf
            invariant
                i <= nf,
                nf == this.source_mapper.functions@.len(),
                ns == this.source_mapper.structs@.len(),
                move_module.wf(),
                structs_declared(this.source_mapper, move_module),
                forall|j: int|
                    0 <= j < ns ==> struct_translated(
                        this.source_mapper,
                        move_module.context,
                        move_module.struct_map@,
                        j,
                    ),
                move_module.function_map@.len() == nf,
                move_module.module.functions@.len() == nf,
                forall|j: int| 0 <= j < nf ==> (#[trigger] move_module.function_map@[j]).idx == j,
                move_module.module.name == mname,
                move_module.module.source_file_name == msrc,
                forall|j: int|
                    0 <= j < nf ==> (#[trigger] move_module.module.functions@[j]).name@
                        == this.source_mapper.functions@[j].name@,
                forall|j: int|
                    i <= j < nf ==> (#[trigger] move_module.module.functions@[j]).body is None,
                forall|j: int|
                    0 <= j < nf ==> (#[trigger] move_module.module.functions@[j]).ty.parameter_types@
                        == lowered_types(
                        this.source_mapper.functions@[j].parameters@,
                        move_module.struct_map@,
                    ),
                forall|j: int|
                    0 <= j < nf ==> (#[trigger] move_module.module.functions@[j]).ty.return_type
                        == single_return_type_spec(
                        lowered_types(
                            this.source_mapper.functions@[j].return_@,
                            move_module.struct_map@,
                        ),
                    ),
                forall|j: int|
                    0 <= j < i ==> function_translated(
                        this.source_mapper,
                        move_module.module,
                        move_module.struct_map@,
                        move_module.function_map@,
                        j,
                    ),
            decreases nf - i,
        {
            let fdef = match this.get_function_def(i) {
                Ok(d) => d,
                Err(e) => {
                    return Err(e);
                },
            };
            proof {
                assert(move_module.module.functions@[i as int].name@ == fdef.name@);
                assert(move_module.module.has_function_named(fdef.name@));
                assert forall|j: int|
                    0 <= j < move_module.module.functions@.len() && (
                    #[trigger] move_module.module.functions@[j]).name@ == fdef.name@ implies
                    move_module.module.functions@[j].body is None by {
                    if j < i {
                        assert(this.source_mapper.functions@[j].name@ == fdef.name@);
                        assert(false);
                    }
                }
            }
            let ghost m_pre = move_module;
            let f = match this.process_function_def(fdef, &mut move_module) {
                Ok(f) => f,
                Err(e) => {
                    proof {
                        let smap = canonical_struct_map(smtr.structs@.len() as nat);
                        assert(m_pre.struct_map@ =~= smap);
                        let fd = smtr.functions@[i as int];
                        if !all_tokens_lower(fd.parameters@, m_pre.struct_map@) || !all_tokens_lower(
                            fd.return_@,
                            m_pre.struct_map@,
                        ) {
                            assert(!source_translatable(smtr));
                        } else if exists|i0: int|
                            {
                                &&& 0 <= i0 < m_pre.module.functions@.len()
                                &&& (#[trigger] m_pre.module.functions@[i0]).name@ == fd.name@
                                &&& (m_pre.module.functions@[i0].ty.parameter_types@
                                    != lowered_types(fd.parameters@, m_pre.struct_map@)
                                    || m_pre.module.functions@[i0].ty.return_type
                                    != single_return_type_spec(
                                    lowered_types(fd.return_@, m_pre.struct_map@),
                                ))
                            } {
                            let i0 = choose|i0: int|
                                {
                                    &&& 0 <= i0 < m_pre.module.functions@.len()
                                    &&& (#[trigger] m_pre.module.functions@[i0]).name@ == fd.name@
                                    &&& (m_pre.module.functions@[i0].ty.parameter_types@
                                        != lowered_types(fd.parameters@, m_pre.struct_map@)
                                        || m_pre.module.functions@[i0].ty.return_type
                                        != single_return_type_spec(
                                        lowered_types(fd.return_@, m_pre.struct_map@),
                                    ))
                                };
                            if i0 != i {
                                assert(smtr.functions@[i0].name@ == fd.name@);
                                assert(false);
                            }
                            assert(false);
                        } else {
                            match fd.code {
                                Some(c) => {
                                    if !all_tokens_lower(fd.locals@, m_pre.struct_map@) {
                                        assert(!source_translatable(smtr));
                                    } else {
                                        assert(!lowerable(
                                            c@,
                                            full_locals(fd, m_pre.struct_map@),
                                            lowered_types(fd.return_@, m_pre.struct_map@),
                                            m_pre.module,
                                            m_pre.function_map@,
                                        ));
                                        assert(declared_sigs_ok(
                                            m_pre.module,
                                            m_pre.function_map@,
                                            smtr,
                                        ));
                                        if source_translatable(smtr) {
                                            assert(lowerable(
                                                c@,
                                                full_locals(fd, smap),
                                                lowered_types(fd.return_@, smap),
                                                m_pre.module,
                                                m_pre.function_map@,
                                            ));
                                            assert(false);
                                        }
                                    }
                                },
                                None => {
                                    assert(false);
                                },
                            }
                        }
                    }
                    return Err(e);
                },
            };
            proof {
                if f.idx != i {
                    assert(move_module.module.functions@[f.idx as int].name@ == fdef.name@);
                    assert(move_module.module.functions@[i as int].name@ == fdef.name@);
                    assert(false);
                }
                assert(sigs_agree_on(
                    m_pre.module,
                    move_module.module,
                    move_module.function_map@,
                ));
                assert forall|j: int|
                    0 <= j < i + 1 implies function_translated(
                    this.source_mapper,
                    move_module.module,
                    move_module.struct_map@,
                    move_module.function_map@,
                    j,
                ) by {
                    if j < i {
                        assert(function_translated(
                            this.source_mapper,
                            m_pre.module,
                            m_pre.struct_map@,
                            m_pre.function_map@,
                            j,
                        ));
                        assert(move_module.module.functions@[j] == m_pre.module.functions@[j]);
                        match this.source_mapper.functions@[j as int].code {
                            Some(c) => {
                                lemma_lowerable_same_sigs(
                                    c@,
                                    full_locals(
                                        this.source_mapper.functions@[j as int],
                                        move_module.struct_map@,
                                    ),
                                    lowered_types(
                                        this.source_mapper.functions@[j as int].return_@,
                                        move_module.struct_map@,
                                    ),
                                    m_pre.module,
                                    move_module.module,
                                    move_module.function_map@,
                                );
                            },
                            None => {},
                        }
                    }
                }
            }
            i = i + 1;
        }
        Ok(move_module)
    }

    /// Lowers one code unit against the module built so far: the heart of
    /// the per-function translation, with the guarantees of the lowering
    /// engine (`lower_function_body`).
    pub fn disassemble_bytecode(
        &self,
        nparams: usize,
        locals: &Vec<Type>,
        rets: &Vec<Type>,
        code: &Vec<Bytecode>,
        move_module: &MoveBPFModule,
    ) -> (r: Result<FunctionBody, TranslateError>)
        requires
            move_module.wf(),
            nparams <= locals@.len(),
            code@.len() < usize::MAX,
        ensures
            match r {
                Ok(body) => {
                    &&& lowerable(
                        code@,
                        locals@,
                        rets@,
                        move_module.module,
                        move_module.function_map@,
                    )
                    &&& body_blocks_wired(code@, nparams as nat, rets@.len(), body)
                    &&& body.slots@.len() >= locals@.len()
                    &&& forall|k: int| 0 <= k < locals@.len() ==> body.slots@[k].ty == locals@[k]
                },
                Err(_) => !lowerable(
                    code@,
                    locals@,
                    rets@,
                    move_module.module,
                    move_module.function_map@,
                ),
            },
    {
        lower_function_body(
            &move_module.module,
            &move_module.function_map,
            nparams,
            locals,
            rets,
            code,
        )
    }
}

} // verus!
