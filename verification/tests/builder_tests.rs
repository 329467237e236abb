use move_mv_llvm_compiler::builder::Builder;
use move_mv_llvm_compiler::context::Context;
use move_mv_llvm_compiler::ir::{BasicBlock, Constant, Instr, Parameter, RVal, Terminator, Type};
use move_mv_llvm_compiler::module::{FunctionDecl, Module};
use move_mv_llvm_compiler::module_builder::{MoveBPFModule, OptimizationLevel};
use move_mv_llvm_compiler::render::print_module_to_string;
use move_mv_llvm_compiler::options::DisassemblerOptions;

/// Building a body by hand: slots, a parameter store, the convenience
/// load-add-store, casts, and one terminator per block.
#[test]
fn builder_emits_expected_instructions() {
    let mut b = Builder::new();
    let s0 = b.build_alloca(Type::Int64);
    let s1 = b.build_alloca(Type::Int64);
    let s2 = b.build_alloca(Type::Int64);
    b.store_param_to_alloca(Parameter { idx: 0 }, s0);
    b.store_const(Constant::const_int(Type::Int64, 7), s1);
    b.load_add_store(Type::Int64, s0, s1, s2);
    let wide = b.build_load(Type::Int64, s2);
    let _ext = b.build_zext(wide, Type::Int128);
    let narrow = b.build_load(Type::Int64, s2);
    let _tr = b.build_trunc(narrow, Type::Int8);
    let again = b.build_load(Type::Int64, s2);
    let _cast = b.build_unary_bitcast(again, Type::Int64);
    b.build_br(BasicBlock { idx: 1 });
    b.load_return(Type::Int64, s2);
    let body = b.finish();

    assert_eq!(body.slots.len(), 3);
    assert_eq!(body.blocks.len(), 2);
    // the first block: 2 stores, then load/load/add/store, then three
    // load-and-cast pairs
    assert_eq!(body.blocks[0].instrs.len(), 12);
    assert!(matches!(body.blocks[0].instrs[4], Instr::BinOp { .. }));
    assert!(matches!(body.blocks[0].instrs[7], Instr::ZExt { .. }));
    assert!(matches!(body.blocks[0].instrs[9], Instr::Trunc { .. }));
    assert!(matches!(body.blocks[0].instrs[11], Instr::BitCast { .. }));
    assert!(matches!(body.blocks[0].term, Terminator::Br { dest: 1 }));
    // the second block returns the loaded value
    assert_eq!(body.blocks[1].instrs.len(), 1);
    match &body.blocks[1].term {
        Terminator::Ret { val: RVal::Reg { block: 1, pos: 0 } } => {}
        _ => panic!("the return must hand back the load's register"),
    }
}

/// The module-level verifier rejects a block that branches outside the
/// function and a call outside the function table.
#[test]
fn verify_rejects_wild_references() {
    let cx = Context::new();
    let mut mm = MoveBPFModule::new(cx, "m", "m.move", OptimizationLevel::Off);
    let ty = move_mv_llvm_compiler::ir::FunctionType::new(Type::Void, &vec![]);
    let f = match mm.module.declare_function("f", ty) {
        Ok(f) => f,
        Err(_) => panic!("fresh declaration"),
    };
    let mut b = Builder::new();
    b.build_br(BasicBlock { idx: 9 });
    f.attach_body(&mut mm.module, b.finish());
    assert!(!mm.module.verify());
    assert!(!f.verify(&mm.module));
}

/// An empty module renders with its header and verifies.
#[test]
fn empty_module_renders() {
    let cx = Context::new();
    let mm = MoveBPFModule::new(cx, "empty", "empty.move", OptimizationLevel::Off);
    assert!(mm.module.verify());
    let text = print_module_to_string(&mm, &vec![], &DisassemblerOptions::new());
    assert!(text.contains("; ModuleID = 'empty'"));
    assert!(text.contains("source_filename = \"empty.move\""));
}

/// A fresh module starts with empty symbol tables.
#[test]
fn module_tables_start_empty() {
    let cx = Context::new();
    let m: Module = cx.create_module("t");
    assert_eq!(m.functions.len(), 0);
    assert_eq!(m.globals.len(), 0);
    let d: Vec<FunctionDecl> = m.functions;
    assert!(d.is_empty());
}

/// The module records the machine's data layout and renders it.
#[test]
fn data_layout_recorded() {
    let cx = Context::new();
    let mut mm = MoveBPFModule::new(cx, "m", "m.move", OptimizationLevel::Off);
    let tm = match mm.get_target_machine() {
        Some(tm) => tm,
        None => panic!("the fixed target always resolves"),
    };
    mm.module.set_data_layout(&tm);
    assert_eq!(mm.module.data_layout, "e-m:e-p:64:64-i64:64-n32:64-S128");
    let text = print_module_to_string(&mm, &vec![], &DisassemblerOptions::new());
    assert!(text.contains("target datalayout = \"e-m:e-p:64:64-i64:64-n32:64-S128\""));
}

/// The module-level verifier also rejects a register that names no
/// defining instruction.
#[test]
fn verify_rejects_undefined_register() {
    let cx = Context::new();
    let mut mm = MoveBPFModule::new(cx, "m", "m.move", OptimizationLevel::Off);
    let ty = move_mv_llvm_compiler::ir::FunctionType::new(Type::Void, &vec![]);
    let f = match mm.module.declare_function("g", ty) {
        Ok(f) => f,
        Err(_) => panic!("fresh declaration"),
    };
    let mut b = Builder::new();
    let s0 = b.build_alloca(Type::Int64);
    b.build_store(RVal::Reg { block: 9, pos: 0 }, s0);
    b.build_return_void();
    f.attach_body(&mut mm.module, b.finish());
    assert!(!mm.module.verify());
}
