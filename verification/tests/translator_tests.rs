use move_mv_llvm_compiler::bytecode::Bytecode;
use move_mv_llvm_compiler::context::Context;
use move_mv_llvm_compiler::errors::{TranslateError, TypeKindName};
use move_mv_llvm_compiler::ir::{Terminator, Type};
use move_mv_llvm_compiler::module_builder::{MoveBPFModule, OptimizationLevel};
use move_mv_llvm_compiler::options::DisassemblerOptions;
use move_mv_llvm_compiler::render::print_module_to_string;
use move_mv_llvm_compiler::sigs::SignatureToken;
use move_mv_llvm_compiler::target::Target;
use move_mv_llvm_compiler::translate::{
    Disassembler, FieldDefinition, FunctionDefinition, SourceModule, StructDefinition,
    StructFieldInformation,
};

fn fun(
    name: &str,
    parameters: Vec<SignatureToken>,
    return_: Vec<SignatureToken>,
    locals: Vec<SignatureToken>,
    code: Option<Vec<Bytecode>>,
) -> FunctionDefinition {
    FunctionDefinition {
        name: name.to_string(),
        is_public: true,
        parameters,
        return_,
        locals,
        code,
    }
}

fn module_of(structs: Vec<StructDefinition>, functions: Vec<FunctionDefinition>) -> SourceModule {
    SourceModule {
        name: Some("demo".to_string()),
        structs,
        functions,
    }
}

fn translate(sm: SourceModule) -> Result<MoveBPFModule, TranslateError> {
    Disassembler::new(sm, Context::new()).disassemble()
}

fn must_err<T>(r: Result<T, TranslateError>) -> TranslateError {
    match r {
        Err(e) => e,
        Ok(_) => panic!("expected an error"),
    }
}

fn must_ok<T>(r: Result<T, TranslateError>) -> T {
    match r {
        Ok(v) => v,
        Err(e) => panic!("expected success, got {:?}", e),
    }
}

/// The end-to-end scenario: a function with no parameters whose body pushes
/// 2 and 3, adds them, and returns the sum.
#[test]
fn add_two_and_three_end_to_end() {
    let sm = module_of(
        vec![],
        vec![fun(
            "main",
            vec![],
            vec![SignatureToken::U64],
            vec![],
            Some(vec![
                Bytecode::LdU64(2),
                Bytecode::LdU64(3),
                Bytecode::Add,
                Bytecode::Ret,
            ]),
        )],
    );
    let mm = must_ok(translate(sm));
    // the produced module must verify successfully
    assert!(mm.module.verify());
    assert_eq!(mm.module.functions.len(), 1);
    let body = mm.module.functions[0].body.as_ref().expect("body lowered");
    // one entry block plus a single basic block of code
    assert_eq!(body.blocks.len(), 2);
    assert!(matches!(body.blocks[0].term, Terminator::Br { dest: 1 }));
    assert!(matches!(body.blocks[1].term, Terminator::Ret { .. }));

    // the textual IR holds exactly one function definition whose body holds
    // one addition instruction and one return instruction
    let text = print_module_to_string(&mm, &vec![true], &DisassemblerOptions::new());
    assert_eq!(text.matches("\ndefine ").count(), 1);
    assert_eq!(text.matches("= add ").count(), 1);
    assert_eq!(text.matches("\n  ret ").count(), 1);
    assert!(text.contains("target triple = \"bpfel-unknown-unknown\""));
    assert!(text.contains("; ModuleID = 'module demo'"));
}

/// A sequence engineered to pop more operands than are present fails
/// fatally, never wrapping around.
#[test]
fn stack_underflow_fails() {
    let sm = module_of(
        vec![],
        vec![fun(
            "bad",
            vec![],
            vec![SignatureToken::U64],
            vec![],
            Some(vec![Bytecode::LdU64(1), Bytecode::Add, Bytecode::Ret]),
        )],
    );
    let err = must_err(translate(sm));
    assert_eq!(err, TranslateError::StackUnderflow { offset: 1 });
}

/// The simulated stack's depth at the return must be exactly the declared
/// return arity.
#[test]
fn stack_imbalance_at_return_fails() {
    let sm = module_of(
        vec![],
        vec![fun(
            "bad",
            vec![],
            vec![SignatureToken::U64],
            vec![],
            Some(vec![
                Bytecode::LdU64(1),
                Bytecode::LdU64(2),
                Bytecode::Ret,
            ]),
        )],
    );
    let err = must_err(translate(sm));
    assert_eq!(
        err,
        TranslateError::StackImbalance {
            offset: 2,
            depth: 2,
            needed: 1
        }
    );
}

/// A branch outside the function's instruction range is a fatal error.
#[test]
fn branch_out_of_range_fails() {
    let sm = module_of(
        vec![],
        vec![fun(
            "bad",
            vec![],
            vec![],
            vec![],
            Some(vec![Bytecode::Branch(9)]),
        )],
    );
    let err = must_err(translate(sm));
    assert_eq!(err, TranslateError::BranchOutOfRange { offset: 0, target: 9 });
}

/// Adding a boolean to an integer is a fatal operand type mismatch.
#[test]
fn operand_type_mismatch_fails() {
    let sm = module_of(
        vec![],
        vec![fun(
            "bad",
            vec![],
            vec![SignatureToken::U64],
            vec![],
            Some(vec![
                Bytecode::LdTrue,
                Bytecode::LdU64(3),
                Bytecode::Add,
                Bytecode::Ret,
            ]),
        )],
    );
    let err = must_err(translate(sm));
    assert_eq!(err, TranslateError::OperandTypeMismatch { offset: 2 });
}

/// A local index outside the declared locals is a fatal error.
#[test]
fn invalid_local_index_fails() {
    let sm = module_of(
        vec![],
        vec![fun(
            "bad",
            vec![],
            vec![],
            vec![],
            Some(vec![Bytecode::CopyLoc(3), Bytecode::Ret]),
        )],
    );
    let err = must_err(translate(sm));
    assert_eq!(err, TranslateError::InvalidLocalIndex { offset: 0, index: 3 });
}

/// A body whose last instruction falls through past the end is a fatal
/// error: every block must end in a terminator.
#[test]
fn missing_terminator_fails() {
    let sm = module_of(
        vec![],
        vec![fun(
            "bad",
            vec![],
            vec![],
            vec![],
            Some(vec![Bytecode::LdU64(1), Bytecode::Pop]),
        )],
    );
    let err = must_err(translate(sm));
    assert_eq!(err, TranslateError::MissingTerminator);
}

/// A call naming a function index outside the function table is fatal.
#[test]
fn invalid_call_target_fails() {
    let sm = module_of(
        vec![],
        vec![fun(
            "bad",
            vec![],
            vec![],
            vec![],
            Some(vec![Bytecode::Call(7), Bytecode::Ret]),
        )],
    );
    let err = must_err(translate(sm));
    assert_eq!(err, TranslateError::InvalidCallTarget { offset: 0, callee: 7 });
}

/// An unsupported type token is a fatal error naming the kind.
#[test]
fn unsupported_type_fails() {
    let sm = module_of(
        vec![],
        vec![fun("bad", vec![SignatureToken::U256], vec![], vec![], None)],
    );
    let err = must_err(translate(sm));
    assert_eq!(err, TranslateError::UnsupportedType { kind: TypeKindName::U256 });
    assert_eq!(TypeKindName::U256.name(), "u256");
}

/// Control flow: a conditional loop body maps every offset into a block
/// and every block carries exactly one terminator.
#[test]
fn control_flow_blocks() {
    // 0: LdTrue; 1: BrTrue(4); 2: LdU64(1); 3: Pop; 4: Branch(5); 5: Ret
    // starts: 0, 2 (after BrTrue), 4 (target and after), 5 (target, after)
    let sm = module_of(
        vec![],
        vec![fun(
            "flow",
            vec![],
            vec![],
            vec![],
            Some(vec![
                Bytecode::LdTrue,
                Bytecode::BrTrue(4),
                Bytecode::LdU64(1),
                Bytecode::Pop,
                Bytecode::Branch(5),
                Bytecode::Ret,
            ]),
        )],
    );
    let mm = must_ok(translate(sm));
    assert!(mm.module.verify());
    let body = mm.module.functions[0].body.as_ref().expect("body lowered");
    // entry + blocks starting at offsets 0, 2, 4 and 5
    assert_eq!(body.blocks.len(), 5);
    assert!(matches!(body.blocks[1].term, Terminator::CondBr { .. }));
    assert!(matches!(body.blocks[4].term, Terminator::RetVoid));
}

/// Parameters, locals, calls and comparisons all lower together.
#[test]
fn calls_and_locals_lower() {
    let callee = fun(
        "max",
        vec![SignatureToken::U64, SignatureToken::U64],
        vec![SignatureToken::U64],
        vec![],
        Some(vec![
            // 0..2: a < b ?
            Bytecode::CopyLoc(0),
            Bytecode::CopyLoc(1),
            Bytecode::Lt,
            // 3: branch
            Bytecode::BrTrue(6),
            // 4..5: return a
            Bytecode::MoveLoc(0),
            Bytecode::Ret,
            // 6..7: return b
            Bytecode::MoveLoc(1),
            Bytecode::Ret,
        ]),
    );
    let caller = fun(
        "calls_max",
        vec![],
        vec![SignatureToken::U64],
        vec![SignatureToken::U64],
        Some(vec![
            Bytecode::LdU64(10),
            Bytecode::LdU64(32),
            Bytecode::Call(0),
            Bytecode::StLoc(0),
            Bytecode::MoveLoc(0),
            Bytecode::Ret,
        ]),
    );
    let sm = module_of(vec![], vec![callee, caller]);
    let mm = must_ok(translate(sm));
    assert!(mm.module.verify());
    assert_eq!(mm.module.functions.len(), 2);
    assert!(mm.module.functions[0].body.is_some());
    assert!(mm.module.functions[1].body.is_some());
    let text = print_module_to_string(&mm, &vec![true, true], &DisassemblerOptions::new());
    assert_eq!(text.matches("call @max(").count(), 1);
    assert_eq!(text.matches("icmp ult").count(), 1);
}

/// A struct holding a reference to itself translates without infinite
/// recursion: the named type is declared before its body is populated.
#[test]
fn self_referential_struct_translates() {
    let node = StructDefinition {
        name: "Node".to_string(),
        field_information: StructFieldInformation::Declared(vec![
            FieldDefinition {
                name: "value".to_string(),
                signature: SignatureToken::U64,
            },
            FieldDefinition {
                name: "next".to_string(),
                signature: SignatureToken::Reference(Box::new(SignatureToken::Struct(0))),
            },
        ]),
    };
    let sm = module_of(vec![node], vec![]);
    let mm = must_ok(translate(sm));
    assert_eq!(mm.context.struct_types.len(), 1);
    let body = mm.context.struct_types[0].body.as_ref().expect("body set");
    assert_eq!(body.len(), 2);
    assert!(body[0].eq_type(&Type::Int64));
    assert!(body[1].eq_type(&Type::Ptr(Box::new(Type::Struct(0)))));
    let text = print_module_to_string(&mm, &vec![], &DisassemblerOptions::new());
    assert!(text.contains("%Node = type { i64, ptr }"));
}

/// Structs referencing each other through a chain translate too, and a
/// native struct stays opaque.
#[test]
fn mutual_and_native_structs_translate() {
    let a = StructDefinition {
        name: "A".to_string(),
        field_information: StructFieldInformation::Declared(vec![FieldDefinition {
            name: "b".to_string(),
            signature: SignatureToken::Reference(Box::new(SignatureToken::Struct(1))),
        }]),
    };
    let b = StructDefinition {
        name: "B".to_string(),
        field_information: StructFieldInformation::Declared(vec![FieldDefinition {
            name: "a".to_string(),
            signature: SignatureToken::Reference(Box::new(SignatureToken::Struct(0))),
        }]),
    };
    let n = StructDefinition {
        name: "Host".to_string(),
        field_information: StructFieldInformation::Native,
    };
    let sm = module_of(vec![a, b, n], vec![]);
    let mm = must_ok(translate(sm));
    assert!(mm.context.struct_types[0].body.is_some());
    assert!(mm.context.struct_types[1].body.is_some());
    assert!(mm.context.struct_types[2].body.is_none());
    let text = print_module_to_string(&mm, &vec![], &DisassemblerOptions::new());
    assert!(text.contains("%Host = type opaque"));
}

/// Declaring the same function name twice returns the identical handle and
/// leaves the module unchanged; a different signature under the same name
/// is a fatal inconsistency.
#[test]
fn function_declaration_is_memoized() {
    let cx = Context::new();
    let mut mm = MoveBPFModule::new(cx, "m", "m.move", OptimizationLevel::Off);
    let ty1 = move_mv_llvm_compiler::ir::FunctionType::new(Type::Int64, &vec![Type::Int64]);
    let f1 = must_ok(mm.module.declare_function("f", ty1));
    let before = mm.module.functions.len();

    let ty_again = move_mv_llvm_compiler::ir::FunctionType::new(Type::Int64, &vec![Type::Int64]);
    let f2 = must_ok(mm.module.declare_function("f", ty_again));
    assert_eq!(f1, f2);
    assert_eq!(mm.module.functions.len(), before);

    let ty_conflict = move_mv_llvm_compiler::ir::FunctionType::new(Type::Void, &vec![]);
    let err = must_err(mm.module.declare_function("f", ty_conflict));
    assert_eq!(err, TranslateError::InconsistentRedeclaration);
    assert_eq!(mm.module.functions.len(), before);
}

/// Requesting a global twice under one name returns the identical handle;
/// a different type under the same name is a fatal inconsistency.
#[test]
fn global_declaration_is_memoized() {
    let cx = Context::new();
    let mut mm = MoveBPFModule::new(cx, "m", "m.move", OptimizationLevel::Off);
    let g1 = must_ok(mm.module.get_or_add_global("g", Type::Int64));
    let g2 = must_ok(mm.module.get_or_add_global("g", Type::Int64));
    assert_eq!(g1, g2);
    assert_eq!(mm.module.globals.len(), 1);
    let err = must_err(mm.module.get_or_add_global("g", Type::Int8));
    assert_eq!(err, TranslateError::InconsistentRedeclaration);
}

/// The options default to printing everything and filtering nothing.
#[test]
fn disassembler_options_default() {
    let o = DisassemblerOptions::new();
    assert!(!o.only_externally_visible);
    assert!(o.print_code);
    assert!(o.print_basic_blocks);
    assert!(o.print_locals);
}

/// Only the one registered target family resolves.
#[test]
fn target_resolution() {
    assert!(Target::from_triple("bpfel-unknown-unknown").is_ok());
    let err = must_err(Target::from_triple("x86_64-unknown-linux-gnu"));
    assert_eq!(err, TranslateError::UnknownTargetTriple);

    let cx = Context::new();
    let mm = MoveBPFModule::new(cx, "m", "m.move", OptimizationLevel::Off);
    let tm = match mm.get_target_machine() {
        Some(tm) => tm,
        None => panic!("the fixed target always resolves"),
    };
    assert_eq!(tm.triple, "bpfel-unknown-unknown");
    assert_eq!(tm.cpu, "v2");
    assert_eq!(tm.features, "");
}

/// The signature mapping round trip: zero return types collapse to void,
/// one stands directly, several make an aggregate of exactly them in order.
#[test]
fn signature_round_trip() {
    let cx = Context::new();
    let mm = MoveBPFModule::new(cx, "m", "m.move", OptimizationLevel::Off);

    let none: Vec<Type> = vec![];
    assert!(mm.llvm_make_single_return_type(&none).eq_type(&Type::Void));

    let one = vec![Type::Int64];
    assert!(mm.llvm_make_single_return_type(&one).eq_type(&Type::Int64));

    let two = vec![Type::Int64, Type::Int1];
    let agg = mm.llvm_make_single_return_type(&two);
    match &agg {
        Type::Anon(_) => {}
        _ => panic!("two return types must make an aggregate"),
    }
    // inspecting the aggregate yields the exact element types, in order
    let wrong = Type::Anon(Box::new(move_mv_llvm_compiler::ir::TypeList::from_vec(&vec![
        Type::Int1,
        Type::Int64,
    ])));
    let right = Type::Anon(Box::new(move_mv_llvm_compiler::ir::TypeList::from_vec(&vec![
        Type::Int64,
        Type::Int1,
    ])));
    assert!(agg.eq_type(&right));
    assert!(!agg.eq_type(&wrong));
}

/// Lowering of each supported token, and the vector/reference mappings.
#[test]
fn token_lowering() {
    let cx = Context::new();
    let mm = MoveBPFModule::new(cx, "m", "m.move", OptimizationLevel::Off);
    assert!(must_ok(mm.llvm_type_for_sig_tok(&SignatureToken::Bool)).eq_type(&Type::Int1));
    assert!(must_ok(mm.llvm_type_for_sig_tok(&SignatureToken::U8)).eq_type(&Type::Int8));
    assert!(must_ok(mm.llvm_type_for_sig_tok(&SignatureToken::U32)).eq_type(&Type::Int32));
    assert!(must_ok(mm.llvm_type_for_sig_tok(&SignatureToken::U64)).eq_type(&Type::Int64));
    assert!(must_ok(mm.llvm_type_for_sig_tok(&SignatureToken::U128)).eq_type(&Type::Int128));
    // a vector lowers to the runtime's opaque pointer-sized handle
    let v = SignatureToken::Vector(Box::new(SignatureToken::U64));
    assert!(must_ok(mm.llvm_type_for_sig_tok(&v)).eq_type(&Type::Ptr(Box::new(Type::Int8))));
    // a reference lowers to the pointer form of its referent
    let r = SignatureToken::Reference(Box::new(SignatureToken::U8));
    assert!(must_ok(mm.llvm_type_for_sig_tok(&r)).eq_type(&Type::Ptr(Box::new(Type::Int8))));
    // a struct token must have been declared
    let s = SignatureToken::Struct(5);
    assert_eq!(
        must_err(mm.llvm_type_for_sig_tok(&s)),
        TranslateError::UndeclaredStruct { index: 5 }
    );
    // unsupported kinds name the kind
    assert_eq!(
        must_err(mm.llvm_type_for_sig_tok(&SignatureToken::Address)),
        TranslateError::UnsupportedType { kind: TypeKindName::Address }
    );
}

/// The externally-visible-only filter drops private functions from the
/// rendering and nothing else.
#[test]
fn visibility_filter_is_presentation_only() {
    let sm = module_of(
        vec![],
        vec![
            fun("shown", vec![], vec![], vec![], Some(vec![Bytecode::Ret])),
            fun("hidden", vec![], vec![], vec![], Some(vec![Bytecode::Ret])),
        ],
    );
    let mm = must_ok(translate(sm));
    let mut opts = DisassemblerOptions::new();
    opts.only_externally_visible = true;
    let text = print_module_to_string(&mm, &vec![true, false], &opts);
    assert!(text.contains("@shown"));
    assert!(!text.contains("@hidden"));
    // the module itself still holds both
    assert_eq!(mm.module.functions.len(), 2);
}

/// Several return types collapse to one aggregate return: the function's IR
/// type is an anonymous aggregate of exactly those types, and the return
/// loads each pending value.
#[test]
fn multi_return_collapses_to_aggregate() {
    let sm = module_of(
        vec![],
        vec![fun(
            "pair",
            vec![],
            vec![SignatureToken::U64, SignatureToken::Bool],
            vec![],
            Some(vec![
                Bytecode::LdU64(7),
                Bytecode::LdTrue,
                Bytecode::Ret,
            ]),
        )],
    );
    let mm = must_ok(translate(sm));
    assert!(mm.module.verify());
    match &mm.module.functions[0].ty.return_type {
        Type::Anon(_) => {}
        _ => panic!("two return types must collapse to an aggregate"),
    }
    assert!(matches!(
        mm.module.functions[0].body.as_ref().unwrap().blocks[1].term,
        Terminator::RetAgg { n: 2, .. }
    ));
    let text = print_module_to_string(&mm, &vec![true], &DisassemblerOptions::new());
    assert_eq!(text.matches("ret { ").count(), 1);
}

/// References move values through explicit loads and stores: borrowing a
/// local, reading through the reference, writing through it.
#[test]
fn references_lower() {
    let sm = module_of(
        vec![],
        vec![
            fun(
                "read_back",
                vec![],
                vec![],
                vec![SignatureToken::U64],
                Some(vec![
                    Bytecode::LdU64(5),
                    Bytecode::StLoc(0),
                    Bytecode::ImmBorrowLoc(0),
                    Bytecode::ReadRef,
                    Bytecode::LdU64(5),
                    Bytecode::Eq,
                    Bytecode::LdFalse,
                    Bytecode::Or,
                    Bytecode::Not,
                    Bytecode::Pop,
                    Bytecode::Nop,
                    Bytecode::Ret,
                ]),
            ),
            fun(
                "write_through",
                vec![],
                vec![],
                vec![SignatureToken::U64],
                Some(vec![
                    Bytecode::LdU64(1),
                    Bytecode::StLoc(0),
                    Bytecode::LdU64(2),
                    Bytecode::MutBorrowLoc(0),
                    Bytecode::WriteRef,
                    Bytecode::Ret,
                ]),
            ),
        ],
    );
    let mm = must_ok(translate(sm));
    assert!(mm.module.verify());
    assert!(mm.module.functions[0].body.is_some());
    assert!(mm.module.functions[1].body.is_some());
}

/// Wide integers and the remaining arithmetic lower as well.
#[test]
fn u128_arithmetic_lowers() {
    let sm = module_of(
        vec![],
        vec![fun(
            "wide",
            vec![],
            vec![SignatureToken::U128],
            vec![],
            Some(vec![
                Bytecode::LdU128(10),
                Bytecode::LdU128(3),
                Bytecode::Div,
                Bytecode::LdU128(4),
                Bytecode::Mul,
                Bytecode::LdU128(2),
                Bytecode::Mod,
                Bytecode::LdU128(1),
                Bytecode::BitOr,
                Bytecode::LdU128(255),
                Bytecode::BitAnd,
                Bytecode::LdU128(9),
                Bytecode::Xor,
                Bytecode::LdU128(1),
                Bytecode::Sub,
                Bytecode::Ret,
            ]),
        )],
    );
    let mm = must_ok(translate(sm));
    assert!(mm.module.verify());
    let text = print_module_to_string(&mm, &vec![true], &DisassemblerOptions::new());
    assert_eq!(text.matches("= udiv ").count(), 1);
    assert_eq!(text.matches("= urem ").count(), 1);
    assert_eq!(text.matches("= xor ").count(), 1);
}

/// Parameters land in their slots on entry: one store per parameter in the
/// entry block, before the branch to the code.
#[test]
fn parameters_stored_on_entry() {
    let sm = module_of(
        vec![],
        vec![fun(
            "id",
            vec![SignatureToken::U64],
            vec![SignatureToken::U64],
            vec![],
            Some(vec![Bytecode::MoveLoc(0), Bytecode::Ret]),
        )],
    );
    let mm = must_ok(translate(sm));
    assert!(mm.module.verify());
    let body = mm.module.functions[0].body.as_ref().unwrap();
    assert_eq!(body.blocks[0].instrs.len(), 1);
    let text = print_module_to_string(&mm, &vec![true], &DisassemblerOptions::new());
    assert!(text.contains("store %p0, ptr %s0"));
}

/// The per-function verifier agrees with the module-level one.
#[test]
fn function_handles_verify() {
    let sm = module_of(
        vec![],
        vec![fun(
            "main",
            vec![],
            vec![SignatureToken::U64],
            vec![],
            Some(vec![
                Bytecode::LdU64(2),
                Bytecode::LdU64(3),
                Bytecode::Add,
                Bytecode::Ret,
            ]),
        )],
    );
    let mm = must_ok(translate(sm));
    for f in &mm.function_map {
        assert!(f.verify(&mm.module));
    }
    assert!(mm.module.verify());
}

/// Error messages carry the context that identifies the offending
/// definition or instruction.
#[test]
fn error_messages_carry_context() {
    assert_eq!(
        TranslateError::StackUnderflow { offset: 4 }.message(),
        "operand stack underflow at offset 4"
    );
    assert_eq!(
        TranslateError::BranchOutOfRange { offset: 0, target: 9 }.message(),
        "branch at offset 0 targets offset 9, outside the function"
    );
    assert_eq!(
        TranslateError::StackImbalance { offset: 2, depth: 2, needed: 1 }.message(),
        "operand stack holds 2 values at offset 2 where 1 are needed"
    );
    assert_eq!(
        TranslateError::UnsupportedType { kind: TypeKindName::TypeParameter }.message(),
        "unsupported type: type parameter"
    );
    assert_eq!(
        TranslateError::InvalidLocalIndex { offset: 10, index: 255 }.message(),
        "invalid local index 255 at offset 10"
    );
}

/// Struct-field borrows are the translator's named unsupported construct:
/// reported fatally, never guessed at.
#[test]
fn field_borrow_is_unsupported() {
    let sm = module_of(
        vec![],
        vec![fun(
            "bad",
            vec![],
            vec![],
            vec![],
            Some(vec![Bytecode::ImmBorrowField(0), Bytecode::Ret]),
        )],
    );
    let err = must_err(translate(sm));
    assert_eq!(err, TranslateError::UnsupportedInstruction { offset: 0 });
    assert_eq!(err.message(), "unsupported instruction at offset 0");
}

/// The entry block holds exactly one store per parameter and branches to
/// the code; an unterminated block falls through to its textually-next
/// block.
#[test]
fn entry_and_fallthrough_wiring() {
    let sm = module_of(
        vec![],
        vec![fun(
            "two_params",
            vec![SignatureToken::U64, SignatureToken::U64],
            vec![SignatureToken::U64],
            vec![],
            Some(vec![
                // 0..1: a branch target splits the straight-line code
                Bytecode::MoveLoc(0),
                Bytecode::StLoc(0),
                // 2: target of the branch below: falls out of block 1
                Bytecode::MoveLoc(0),
                Bytecode::Pop,
                Bytecode::Branch(5),
                Bytecode::MoveLoc(1),
                Bytecode::Ret,
            ]),
        )],
    );
    // offset 2 is a branch target, so offsets 0..1 end in a fallthrough
    let sm = {
        let mut sm = sm;
        match &mut sm.functions[0].code {
            Some(c) => c[4] = Bytecode::Branch(2),
            None => {}
        }
        sm
    };
    let mm = must_ok(translate(sm));
    assert!(mm.module.verify());
    let body = mm.module.functions[0].body.as_ref().unwrap();
    // entry: one store per parameter, then a branch to block 1
    assert_eq!(body.blocks[0].instrs.len(), 2);
    assert!(matches!(body.blocks[0].term, Terminator::Br { dest: 1 }));
    // the block of offsets 0..1 ends in a fallthrough branch to block 2
    assert!(matches!(body.blocks[1].term, Terminator::Br { dest: 2 }));
}
