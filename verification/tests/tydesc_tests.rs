use move_mv_llvm_compiler::context::Context;
use move_mv_llvm_compiler::errors::TranslateError;
use move_mv_llvm_compiler::ir::{Constant, Type};
use move_mv_llvm_compiler::module::Module;
use move_mv_llvm_compiler::rttydesc::{
    MoveStructDef, MoveType, PrimitiveType, define_llvm_tydesc, get_llvm_tydesc_type,
    global_tydesc_name, global_tydesc_name_name, rt_type_name, type_descrim,
};

fn fresh() -> (Context, Module) {
    let cx = Context::new();
    let m = cx.create_module("unit");
    (cx, m)
}

fn must_err<T>(r: Result<T, TranslateError>) -> TranslateError {
    match r {
        Err(e) => e,
        Ok(_) => panic!("expected an error"),
    }
}

fn must_ok<T>(r: Result<T, TranslateError>) -> T {
    match r {
        Ok(v) => v,
        Err(e) => panic!("expected success, got {:?}", e),
    }
}

/// Requesting the descriptor of the same type twice returns the identical
/// global both times, and the second request emits nothing.
#[test]
fn tydesc_is_memoized() {
    let (mut cx, mut m) = fresh();
    let env: Vec<MoveStructDef> = vec![];
    let ty = MoveType::Primitive(PrimitiveType::U64);
    let g1 = must_ok(define_llvm_tydesc(&mut cx, &mut m, &ty, &env));
    let globals_after_first = m.globals.len();
    let structs_after_first = cx.struct_types.len();
    let g2 = must_ok(define_llvm_tydesc(&mut cx, &mut m, &ty, &env));
    assert_eq!(g1, g2);
    assert_eq!(m.globals.len(), globals_after_first);
    assert_eq!(cx.struct_types.len(), structs_after_first);
}

/// The descriptor global of `u64` carries its name, its name record, and a
/// fully defined body.
#[test]
fn tydesc_of_u64_shape() {
    let (mut cx, mut m) = fresh();
    let env: Vec<MoveStructDef> = vec![];
    let ty = MoveType::Primitive(PrimitiveType::U64);
    let g = must_ok(define_llvm_tydesc(&mut cx, &mut m, &ty, &env));
    assert_eq!(m.globals[g.idx].name, "__move_rttydesc_u64");
    let init = m.globals[g.idx].init.as_ref().expect("body attached");
    match init {
        Constant::Struct(fields) => {
            assert_eq!(fields.len(), 3);
            // the discriminant of u64
            match &fields[1] {
                Constant::Int { value, .. } => assert_eq!(*value, 3),
                _ => panic!("descriptor discriminant must be an integer"),
            }
            // a primitive has no type-info record
            assert!(matches!(fields[2], Constant::NullPtr(_)));
        }
        _ => panic!("descriptor body must be a constant struct"),
    }
    // the name-string global holds the characters of "u64"
    let nn = m
        .globals
        .iter()
        .find(|gd| gd.name == "__move_rttydesc_u64_name")
        .expect("name global emitted");
    match nn.init.as_ref().expect("name set") {
        Constant::Str { chars } => assert_eq!(chars, "u64"),
        _ => panic!("name global must hold a string"),
    }
}

/// A struct holding a reference to itself gets a descriptor without
/// infinite recursion: the global is declared before its body is computed,
/// so the recursive request for the referent finds it and stops.
#[test]
fn self_referential_struct_descriptor() {
    let (mut cx, mut m) = fresh();
    let env = vec![MoveStructDef {
        name: "Node".to_string(),
        fields: vec![
            MoveType::Primitive(PrimitiveType::U64),
            MoveType::Reference(false, Box::new(MoveType::Struct(0))),
        ],
    }];
    let ty = MoveType::Struct(0);
    let g = must_ok(define_llvm_tydesc(&mut cx, &mut m, &ty, &env));
    assert_eq!(m.globals[g.idx].name, "__move_rttydesc_Node");
    assert!(m.globals[g.idx].init.is_some());
    // the reference field got its own fully defined descriptor, whose info
    // record points back at the struct's own descriptor
    let refdesc = m
        .globals
        .iter()
        .position(|gd| gd.name == "__move_rttydesc_&Node")
        .expect("referent descriptor emitted");
    assert!(m.globals[refdesc].init.is_some());
    let info = m
        .globals
        .iter()
        .find(|gd| gd.name == "__move_rttydesc_&Node_info")
        .expect("reference info emitted");
    match info.init.as_ref().expect("info set") {
        Constant::GlobalPtr(gi) => assert_eq!(*gi, g.idx),
        _ => panic!("reference info must point at the referent descriptor"),
    }
    // a second request for the same struct returns the same global
    let g2 = must_ok(define_llvm_tydesc(&mut cx, &mut m, &ty, &env));
    assert_eq!(g, g2);
}

/// A vector descriptor refers to its element's descriptor through its info
/// record, and each nested descriptor is memoized once.
#[test]
fn vector_descriptor_nests() {
    let (mut cx, mut m) = fresh();
    let env: Vec<MoveStructDef> = vec![];
    let ty = MoveType::Vector(Box::new(MoveType::Primitive(PrimitiveType::U8)));
    let _ = must_ok(define_llvm_tydesc(&mut cx, &mut m, &ty, &env));
    let names: Vec<&str> = m.globals.iter().map(|g| g.name.as_str()).collect();
    assert!(names.contains(&"__move_rttydesc_vector<u8>"));
    assert!(names.contains(&"__move_rttydesc_vector<u8>_info"));
    assert!(names.contains(&"__move_rttydesc_u8"));
    // requesting vector<u8> again adds nothing
    let before = m.globals.len();
    let _ = must_ok(define_llvm_tydesc(&mut cx, &mut m, &ty, &env));
    assert_eq!(m.globals.len(), before);
}

/// The descriptor's IR struct type is declared once and found afterwards.
#[test]
fn tydesc_type_is_memoized() {
    let mut cx = Context::new();
    let t1 = get_llvm_tydesc_type(&mut cx);
    let n = cx.struct_types.len();
    let t2 = get_llvm_tydesc_type(&mut cx);
    assert_eq!(t1, t2);
    assert_eq!(cx.struct_types.len(), n);
    assert_eq!(cx.struct_types[t1.id].name, "__move_rt_type");
    // declared, then defined: the body was set right away
    assert!(cx.struct_types[t1.id].body.is_some());
}

/// Canonical names and discriminants of the type enumeration.
#[test]
fn names_and_discriminants() {
    let env = vec![MoveStructDef {
        name: "Pair".to_string(),
        fields: vec![],
    }];
    let v = MoveType::Vector(Box::new(MoveType::Struct(0)));
    assert_eq!(must_ok(rt_type_name(&v, &env)), "vector<Pair>");
    assert_eq!(must_ok(global_tydesc_name(&v, &env)), "__move_rttydesc_vector<Pair>");
    assert_eq!(
        must_ok(global_tydesc_name_name(&v, &env)),
        "__move_rttydesc_vector<Pair>_name"
    );
    let r = MoveType::Reference(true, Box::new(MoveType::Primitive(PrimitiveType::Bool)));
    assert_eq!(must_ok(rt_type_name(&r, &env)), "&bool");

    assert_eq!(type_descrim(&MoveType::Primitive(PrimitiveType::Bool)), 0);
    assert_eq!(type_descrim(&MoveType::Primitive(PrimitiveType::U8)), 1);
    assert_eq!(type_descrim(&MoveType::Primitive(PrimitiveType::U32)), 2);
    assert_eq!(type_descrim(&MoveType::Primitive(PrimitiveType::U64)), 3);
    assert_eq!(type_descrim(&MoveType::Primitive(PrimitiveType::U128)), 4);
    assert_eq!(type_descrim(&v), 5);
    assert_eq!(type_descrim(&MoveType::Struct(0)), 6);
    assert_eq!(type_descrim(&r), 7);

    // a struct index outside the environment is a fatal error
    let bad = MoveType::Struct(9);
    assert_eq!(
        must_err(rt_type_name(&bad, &env)),
        TranslateError::InvalidStructIndex { index: 9 }
    );
    let (mut cx, mut m) = fresh();
    assert!(define_llvm_tydesc(&mut cx, &mut m, &bad, &env).is_err());
}

/// A fresh descriptor global is of the descriptor struct type, and a
/// pre-existing global squatting on an auxiliary symbol makes the
/// definition fail fatally rather than overwrite it.
#[test]
fn tydesc_type_and_collision() {
    let (mut cx, mut m) = fresh();
    let env: Vec<MoveStructDef> = vec![];
    let ty = MoveType::Primitive(PrimitiveType::U8);
    let g = must_ok(define_llvm_tydesc(&mut cx, &mut m, &ty, &env));
    match &m.globals[g.idx].ty {
        Type::Struct(tid) => {
            assert_eq!(cx.struct_types[*tid].name, "__move_rt_type");
        }
        _ => panic!("a descriptor global must be of the descriptor struct type"),
    }

    // an unrelated global already holds u64's name-string symbol
    let (mut cx2, mut m2) = fresh();
    let _ = m2.add_global(Type::Int64, "__move_rttydesc_u64_name");
    let bad = MoveType::Primitive(PrimitiveType::U64);
    let err = must_err(define_llvm_tydesc(&mut cx2, &mut m2, &bad, &env));
    assert_eq!(err, TranslateError::InconsistentRedeclaration);
}
