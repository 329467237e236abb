//! The instruction lowering engine.
//!
//! One function's instruction sequence becomes basic blocks of register IR:
//! a block boundary at every branch target and after every branch or
//! return, one storage slot per declared local (parameters first), and a
//! simulated operand stack of typed storage locations. Every block ends in
//! exactly one terminator, by construction. An instruction that would pop
//! more operands than the simulated stack holds, a branch out of range, or
//! an operand of the wrong type is a fatal error — malformed input is never
//! guessed at.

use vstd::prelude::*;

use crate::builder::Builder;
use crate::bytecode::{
    Bytecode, block_of_offset, branch_target, count_starts, is_arith_type, is_block_start,
    is_int_type, is_terminator_instr, lowerable, stack_before, step_types,
};
use crate::errors::TranslateError;
use crate::ir::{
    Alloca, BasicBlock, BlockData, Constant, FunctionBody, Instr, Opcode, Parameter, Predicate,
    PtrVal, RVal, Terminator, Type,
};
use crate::module::{Function, Module};

verus! {

/// The types of a simulated stack of typed storage locations.
pub open spec fn stack_types(s: Seq<(Alloca, Type)>) -> Seq<Type> {
    s.map_values(|e: (Alloca, Type)| e.1)
}

/// The instructions of the entry block: formal parameter `i` stored into
/// storage slot `i`, for every parameter, in order.
pub open spec fn entry_stores(nparams: nat) -> Seq<Instr> {
    Seq::new(
        nparams,
        |i: int| Instr::Store { val: RVal::Param(i as usize), ptr: PtrVal::Slot(i as usize) },
    )
}

/// The terminator a return of `nrets` values lowers to: a void return for
/// none, a single-value return for one, an aggregate return of exactly
/// `nrets` values for several.
pub open spec fn ret_kind_ok(t: Terminator, nrets: nat) -> bool {
    if nrets == 0 {
        t is RetVoid
    } else if nrets == 1 {
        t is Ret
    } else {
        t matches Terminator::RetAgg { n, .. } && n == nrets
    }
}

/// How instruction offset `o` is wired into the blocks: an unconditional
/// branch ends its block with a branch to the target's block; a
/// conditional branch ends it with a conditional branch to the target's
/// block and the textually-next offset's block; a return ends it with the
/// return form of the declared arity; and an offset that does not end its
/// block itself but stands last in it (because the next offset starts a
/// block) falls through — its block ends with an unconditional branch to
/// the textually-next offset's block.
pub open spec fn wire_ok(code: Seq<Bytecode>, blocks: Seq<BlockData>, nrets: nat, o: int) -> bool {
    &&& (code[o] matches Bytecode::Branch(t) ==> block_of_offset(code, o) < blocks.len() && (
    blocks[block_of_offset(code, o)].term matches Terminator::Br { dest } && dest
        == block_of_offset(code, t as int)))
    &&& (code[o] matches Bytecode::BrTrue(t) ==> block_of_offset(code, o) < blocks.len() && (
    blocks[block_of_offset(code, o)].term matches Terminator::CondBr { cond: _, if_true, if_false }
        && if_true == block_of_offset(code, t as int) && if_false == block_of_offset(code, o + 1)))
    &&& (code[o] matches Bytecode::BrFalse(t) ==> block_of_offset(code, o) < blocks.len() && (
    blocks[block_of_offset(code, o)].term matches Terminator::CondBr { cond: _, if_true, if_false }
        && if_true == block_of_offset(code, o + 1) && if_false == block_of_offset(code, t as int)))
    &&& (code[o] is Ret ==> block_of_offset(code, o) < blocks.len() && ret_kind_ok(
        blocks[block_of_offset(code, o)].term,
        nrets,
    ))
    &&& (!is_terminator_instr(code[o]) && is_block_start(code, o + 1) ==> block_of_offset(code, o)
        < blocks.len() && (blocks[block_of_offset(code, o)].term matches Terminator::Br { dest }
        && dest == block_of_offset(code, o + 1)))
}

/// The block structure of a lowered body: the entry block (block 0) stores
/// each formal parameter into its slot and branches to the block of offset
/// 0; there is exactly one further block per block start; every offset's
/// block index is in range; and every offset is wired per `wire_ok`.
/// (Exactly one terminator per block holds by construction: a block
/// carries exactly one.)
pub open spec fn body_blocks_wired(
    code: Seq<Bytecode>,
    nparams: nat,
    nrets: nat,
    body: FunctionBody,
) -> bool {
    &&& body.blocks@.len() == count_starts(code, code.len() as int) + 1
    &&& forall|o: int|
        0 <= o < code.len() ==> 1 <= #[trigger] block_of_offset(code, o) < body.blocks@.len()
    &&& body.blocks@[0].instrs@ == entry_stores(nparams)
    &&& body.blocks@[0].term == (Terminator::Br { dest: 1 })
    &&& forall|o: int| 0 <= o < code.len() ==> #[trigger] wire_ok(code, body.blocks@, nrets, o)
}

/// Wiring facts survive sealing further blocks: they speak of blocks the
/// extension leaves unchanged.
proof fn lemma_wire_ok_append(
    code: Seq<Bytecode>,
    blocks1: Seq<BlockData>,
    blocks2: Seq<BlockData>,
    nrets: nat,
    o: int,
)
    requires
        wire_ok(code, blocks1, nrets, o),
        blocks2.len() >= blocks1.len(),
        forall|b: int| 0 <= b < blocks1.len() ==> blocks2[b] == blocks1[b],
    ensures
        wire_ok(code, blocks2, nrets, o),
{
}

/// Each prefix of offsets a lowerable sequence has is accepted too.
proof fn lemma_stack_before_prefix(
    code: Seq<Bytecode>,
    i: int,
    j: int,
    locals: Seq<Type>,
    rets: Seq<Type>,
    m: Module,
    fmap: Seq<Function>,
)
    requires
        0 <= j <= i,
        stack_before(code, i, locals, rets, m, fmap) is Some,
    ensures
        stack_before(code, j, locals, rets, m, fmap) is Some,
    decreases i - j,
{
    if j < i {
        lemma_stack_before_prefix(code, i - 1, j, locals, rets, m, fmap);
    }
}

/// No more offsets start blocks than there are offsets.
proof fn lemma_count_starts_le(code: Seq<Bytecode>, k: int)
    ensures
        count_starts(code, k) <= k || k < 0,
    decreases k,
{
    if k > 0 {
        lemma_count_starts_le(code, k - 1);
    }
}

/// Counting starts is monotone in the bound.
proof fn lemma_count_starts_monotone(code: Seq<Bytecode>, a: int, b: int)
    requires
        a <= b,
    ensures
        count_starts(code, a) <= count_starts(code, b),
    decreases b - a,
{
    if a < b {
        lemma_count_starts_monotone(code, a, b - 1);
    }
}

/// At least the first offset starts a block.
proof fn lemma_count_starts_pos(code: Seq<Bytecode>, k: int)
    requires
        k >= 1,
        code.len() > 0,
    ensures
        count_starts(code, k) >= 1,
    decreases k,
{
    if k == 1 {
        assert(is_block_start(code, 0));
    } else {
        lemma_count_starts_pos(code, k - 1);
    }
}

/// Whether a type is one the arithmetic and ordering instructions accept.
fn is_arith_exec(t: &Type) -> (r: bool)
    ensures
        r == is_arith_type(*t),
{
    match t {
        Type::Int8 => true,
        Type::Int32 => true,
        Type::Int64 => true,
        Type::Int128 => true,
        _ => false,
    }
}

/// Whether a type is one the equality instructions accept.
fn is_int_exec(t: &Type) -> (r: bool)
    ensures
        r == is_int_type(*t),
{
    match t {
        Type::Int1 => true,
        _ => is_arith_exec(t),
    }
}

/// Marks every offset that starts a basic block: offset 0, every branch
/// target, and the offset after every branch or return. A branch target
/// outside the instruction range is a fatal error.
fn compute_block_starts(code: &Vec<Bytecode>) -> (r: Result<Vec<bool>, TranslateError>)
    requires
        code@.len() > 0,
    ensures
        match r {
            Ok(v) => {
                &&& v@.len() == code@.len()
                &&& forall|i: int| 0 <= i < code@.len() ==> v@[i] == is_block_start(code@, i)
                &&& forall|j: int|
                    0 <= j < code@.len() ==> (#[trigger] branch_target(code@[j]) matches Some(t)
                        ==> 0 <= t < code@.len())
            },
            Err(e) => {
                &&& exists|j: int|
                    0 <= j < code@.len() && (#[trigger] branch_target(code@[j]) matches Some(t)
                        && t >= code@.len())
                &&& e matches TranslateError::BranchOutOfRange { .. }
            },
        },
{
    let n = code.len();
    let mut v: Vec<bool> = Vec::new();
    let mut k: usize = 0;
    while k < n
        invariant
            k <= n,
            v@.len() == k,
            forall|i: int| 0 <= i < k ==> v@[i] == (i == 0),
        decreases n - k,
    {
        v.push(k == 0);
        k = k + 1;
    }
    let mut j: usize = 0;
    while j < n
        invariant
            n == code@.len(),
            j <= n,
            v@.len() == n,
            v@[0] == true,
            forall|i: int| 0 <= i < n && v@[i] ==> is_block_start(code@, i),
            forall|jj: int|
                0 <= jj < j ==> (#[trigger] branch_target(code@[jj]) matches Some(t) ==> 0 <= t < n
                    && v@[t]),
            forall|jj: int|
                0 <= jj < j && is_terminator_instr(code@[jj]) && jj + 1 < n ==> v@[jj + 1],
        decreases n - j,
    {
        let (is_term, target) = match &code[j] {
            Bytecode::Branch(t) => (true, Some(*t)),
            Bytecode::BrTrue(t) => (true, Some(*t)),
            Bytecode::BrFalse(t) => (true, Some(*t)),
            Bytecode::Ret => (true, None),
            _ => (false, None),
        };
        if let Some(t) = target {
            let t = t as usize;
            if t >= n {
                return Err(TranslateError::BranchOutOfRange { offset: j, target: t });
            }
            v.set(t, true);
            proof {
                assert(branch_target(code@[j as int]) == Some(t as int));
                assert(is_block_start(code@, t as int));
            }
        }
        if is_term && j + 1 < n {
            v.set(j + 1, true);
        }
        j = j + 1;
    }
    proof {
        assert forall|i: int| 0 <= i < n implies v@[i] == is_block_start(code@, i) by {
            if is_block_start(code@, i) {
                if i == 0 {
                } else if is_terminator_instr(code@[i - 1]) {
                    assert(v@[i]);
                } else {
                    let jj = choose|jj: int|
                        0 <= jj < code@.len() && branch_target(code@[jj]) == Some(i);
                    assert(v@[i]);
                }
            }
        }
    }
    Ok(v)
}

/// The block index of every offset: one more than the number of earlier
/// block starts (block 0 is the entry block).
fn compute_block_map(code: &Vec<Bytecode>, starts: &Vec<bool>) -> (r: Vec<usize>)
    requires
        starts@.len() == code@.len(),
        code@.len() < usize::MAX,
        forall|i: int| 0 <= i < code@.len() ==> starts@[i] == is_block_start(code@, i),
    ensures
        r@.len() == code@.len(),
        forall|o: int| 0 <= o < code@.len() ==> r@[o] == block_of_offset(code@, o),
{
    let n = code.len();
    let mut map: Vec<usize> = Vec::new();
    let mut cnt: usize = 0;
    let mut o: usize = 0;
    while o < n
        invariant
            n == code@.len() < usize::MAX,
            o <= n,
            map@.len() == o,
            cnt == count_starts(code@, o as int),
            starts@.len() == n,
            forall|i: int| 0 <= i < n ==> starts@[i] == is_block_start(code@, i),
            forall|oo: int| 0 <= oo < o ==> map@[oo] == block_of_offset(code@, oo),
        decreases n - o,
    {
        proof {
            lemma_count_starts_le(code@, o as int);
        }
        if starts[o] {
            cnt = cnt + 1;
        }
        map.push(cnt);
        o = o + 1;
    }
    map
}

/// Lowers one non-terminator instruction at offset `off` against the
/// simulated stack, emitting IR into the block under construction. On
/// success the stack is exactly what the instruction's specified effect
/// says; failure means the instruction accepts no such stack, and the
/// builder's blocks are untouched either way.
#[verifier::rlimit(30)]
#[verifier::loop_isolation(false)]
fn lower_instr(
    b: &Bytecode,
    off: usize,
    bld: &mut Builder,
    stack: &mut Vec<(Alloca, Type)>,
    locals: &Vec<Type>,
    rets: &Vec<Type>,
    m: &Module,
    fmap: &Vec<Function>,
) -> (r: Result<(), TranslateError>)
    requires
        !is_terminator_instr(*b),
        forall|i: int| 0 <= i < fmap@.len() ==> (#[trigger] fmap@[i]).idx < m.functions@.len(),
    ensures
        match r {
            Ok(_) => {
                &&& step_types(*b, stack_types(old(stack)@), locals@, rets@, *m, fmap@) == Some(
                    stack_types(final(stack)@),
                )
                &&& final(bld).blocks == old(bld).blocks
                &&& final(bld).slots@.len() >= old(bld).slots@.len()
                &&& forall|k: int|
                    0 <= k < old(bld).slots@.len() ==> final(bld).slots@[k] == old(bld).slots@[k]
            },
            Err(_) => {
                &&& step_types(*b, stack_types(old(stack)@), locals@, rets@, *m, fmap@) is None
                &&& final(bld).blocks == old(bld).blocks
                &&& final(bld).slots@.len() >= old(bld).slots@.len()
                &&& forall|k: int|
                    0 <= k < old(bld).slots@.len() ==> final(bld).slots@[k] == old(bld).slots@[k]
            },
        },
{
    let ghost s0 = stack_types(stack@);
    match b {
        Bytecode::LdTrue | Bytecode::LdFalse => {
            let value: u64 = if matches!(b, Bytecode::LdTrue) {
                1
            } else {
                0
            };
            let a = bld.build_alloca(Type::Int1);
            bld.store_const(Constant::const_int(Type::Int1, value), a);
            stack.push((a, Type::Int1));
            proof {
                assert(stack_types(stack@) =~= s0.push(Type::Int1));
            }
            Ok(())
        },
        Bytecode::LdU8(value) => {
            let a = bld.build_alloca(Type::Int8);
            bld.store_const(Constant::const_int(Type::Int8, *value as u64), a);
            stack.push((a, Type::Int8));
            proof {
                assert(stack_types(stack@) =~= s0.push(Type::Int8));
            }
            Ok(())
        },
        Bytecode::LdU64(value) => {
            let a = bld.build_alloca(Type::Int64);
            bld.store_const(Constant::const_int(Type::Int64, *value), a);
            stack.push((a, Type::Int64));
            proof {
                assert(stack_types(stack@) =~= s0.push(Type::Int64));
            }
            Ok(())
        },
        Bytecode::LdU128(value) => {
            let a = bld.build_alloca(Type::Int128);
            bld.store_const(Constant::int128(Type::Int128, *value), a);
            stack.push((a, Type::Int128));
            proof {
                assert(stack_types(stack@) =~= s0.push(Type::Int128));
            }
            Ok(())
        },
        Bytecode::Pop => {
            if stack.len() < 1 {
                return Err(TranslateError::StackUnderflow { offset: off });
            }
            let _ = stack.pop().unwrap();
            proof {
                assert(stack_types(stack@) =~= s0.drop_last());
            }
            Ok(())
        },
        Bytecode::Add | Bytecode::Sub | Bytecode::Mul | Bytecode::Div | Bytecode::Mod
        | Bytecode::BitAnd | Bytecode::BitOr | Bytecode::Xor => {
            let op = match b {
                Bytecode::Add => Opcode::Add,
                Bytecode::Sub => Opcode::Sub,
                Bytecode::Mul => Opcode::Mul,
                Bytecode::Div => Opcode::UDiv,
                Bytecode::Mod => Opcode::URem,
                Bytecode::BitAnd => Opcode::And,
                Bytecode::BitOr => Opcode::Or,
                _ => Opcode::Xor,
            };
            if stack.len() < 2 {
                return Err(TranslateError::StackUnderflow { offset: off });
            }
            let (a_r, ty_r) = stack.pop().unwrap();
            let (a_l, ty_l) = stack.pop().unwrap();
            if !ty_l.eq_type(&ty_r) || !is_arith_exec(&ty_l) {
                return Err(TranslateError::OperandTypeMismatch { offset: off });
            }
            let lv = bld.build_load(ty_l.clone_type(), a_l);
            let rv = bld.build_load(ty_r.clone_type(), a_r);
            let res = bld.build_binop(op, lv, rv);
            let dst = bld.build_alloca(ty_l.clone_type());
            bld.build_store(res, dst);
            stack.push((dst, ty_l));
            proof {
                assert(stack_types(stack@) =~= s0.drop_last());
            }
            Ok(())
        },
        Bytecode::And | Bytecode::Or => {
            let op = if matches!(b, Bytecode::And) {
                Opcode::And
            } else {
                Opcode::Or
            };
            if stack.len() < 2 {
                return Err(TranslateError::StackUnderflow { offset: off });
            }
            let (a_r, ty_r) = stack.pop().unwrap();
            let (a_l, ty_l) = stack.pop().unwrap();
            if !ty_l.eq_type(&Type::Int1) || !ty_r.eq_type(&Type::Int1) {
                return Err(TranslateError::OperandTypeMismatch { offset: off });
            }
            let lv = bld.build_load(Type::Int1, a_l);
            let rv = bld.build_load(Type::Int1, a_r);
            let res = bld.build_binop(op, lv, rv);
            let dst = bld.build_alloca(Type::Int1);
            bld.build_store(res, dst);
            stack.push((dst, Type::Int1));
            proof {
                assert(stack_types(stack@) =~= s0.drop_last());
            }
            Ok(())
        },
        Bytecode::Not => {
            if stack.len() < 1 {
                return Err(TranslateError::StackUnderflow { offset: off });
            }
            let (a, ty) = stack.pop().unwrap();
            if !ty.eq_type(&Type::Int1) {
                return Err(TranslateError::OperandTypeMismatch { offset: off });
            }
            let v = bld.build_load(Type::Int1, a);
            let res = bld.build_binop(
                Opcode::Xor,
                v,
                crate::ir::RVal::Konst(Constant::const_int(Type::Int1, 1)),
            );
            let dst = bld.build_alloca(Type::Int1);
            bld.build_store(res, dst);
            stack.push((dst, Type::Int1));
            proof {
                assert(stack_types(stack@) =~= s0);
            }
            Ok(())
        },
        Bytecode::Lt | Bytecode::Gt | Bytecode::Le | Bytecode::Ge | Bytecode::Eq
        | Bytecode::Neq => {
            let pred = match b {
                Bytecode::Lt => Predicate::ULt,
                Bytecode::Gt => Predicate::UGt,
                Bytecode::Le => Predicate::ULe,
                Bytecode::Ge => Predicate::UGe,
                Bytecode::Eq => Predicate::Eq,
                _ => Predicate::Ne,
            };
            if stack.len() < 2 {
                return Err(TranslateError::StackUnderflow { offset: off });
            }
            let (a_r, ty_r) = stack.pop().unwrap();
            let (a_l, ty_l) = stack.pop().unwrap();
            let ok = if matches!(b, Bytecode::Eq) || matches!(b, Bytecode::Neq) {
                ty_l.eq_type(&ty_r) && is_int_exec(&ty_l)
            } else {
                ty_l.eq_type(&ty_r) && is_arith_exec(&ty_l)
            };
            if !ok {
                return Err(TranslateError::OperandTypeMismatch { offset: off });
            }
            let lv = bld.build_load(ty_l.clone_type(), a_l);
            let rv = bld.build_load(ty_r.clone_type(), a_r);
            let res = bld.build_compare(pred, lv, rv);
            let dst = bld.build_alloca(Type::Int1);
            bld.build_store(res, dst);
            stack.push((dst, Type::Int1));
            proof {
                assert(stack_types(stack@) =~= s0.drop_last().drop_last().push(Type::Int1));
            }
            Ok(())
        },
        Bytecode::CopyLoc(li) | Bytecode::MoveLoc(li) => {
            let li = *li as usize;
            if li >= locals.len() {
                return Err(TranslateError::InvalidLocalIndex { offset: off, index: li });
            }
            let ty = locals[li].clone_type();
            let dst = bld.build_alloca(ty.clone_type());
            bld.load_store(ty.clone_type(), Alloca { idx: li }, dst);
            stack.push((dst, ty));
            proof {
                assert(stack_types(stack@) =~= s0.push(locals@[li as int]));
            }
            Ok(())
        },
        Bytecode::StLoc(li) => {
            let li = *li as usize;
            if li >= locals.len() {
                return Err(TranslateError::InvalidLocalIndex { offset: off, index: li });
            }
            if stack.len() < 1 {
                return Err(TranslateError::StackUnderflow { offset: off });
            }
            let (a, ty) = stack.pop().unwrap();
            if !ty.eq_type(&locals[li]) {
                return Err(TranslateError::OperandTypeMismatch { offset: off });
            }
            bld.load_store(ty, a, Alloca { idx: li });
            proof {
                assert(stack_types(stack@) =~= s0.drop_last());
            }
            Ok(())
        },
        Bytecode::ImmBorrowLoc(li) | Bytecode::MutBorrowLoc(li) => {
            let li = *li as usize;
            if li >= locals.len() {
                return Err(TranslateError::InvalidLocalIndex { offset: off, index: li });
            }
            let ty = locals[li].clone_type();
            let pty = ty.ptr_type();
            let dst = bld.build_alloca(pty.clone_type());
            bld.ref_store(Alloca { idx: li }, dst);
            stack.push((dst, pty));
            proof {
                assert(stack_types(stack@) =~= s0.push(
                    Type::Ptr(Box::new(locals@[li as int])),
                ));
            }
            Ok(())
        },
        Bytecode::ImmBorrowField(_) | Bytecode::MutBorrowField(_) => {
            // spec'd to compute a field address with no intervening load;
            // not lowered yet, and never guessed at
            Err(TranslateError::UnsupportedInstruction { offset: off })
        },
        Bytecode::ReadRef => {
            if stack.len() < 1 {
                return Err(TranslateError::StackUnderflow { offset: off });
            }
            let (a, ty) = stack.pop().unwrap();
            match ty {
                Type::Ptr(inner) => {
                    let inner = *inner;
                    let dst = bld.build_alloca(inner.clone_type());
                    bld.load_deref_store(inner.clone_type(), a, dst);
                    stack.push((dst, inner));
                    proof {
                        assert(stack_types(stack@) =~= s0.drop_last().push(
                            stack_types(stack@).last(),
                        ));
                    }
                    Ok(())
                },
                _ => Err(TranslateError::OperandTypeMismatch { offset: off }),
            }
        },
        Bytecode::WriteRef => {
            if stack.len() < 2 {
                return Err(TranslateError::StackUnderflow { offset: off });
            }
            let (a_r, ty_r) = stack.pop().unwrap();
            let (a_v, ty_v) = stack.pop().unwrap();
            match ty_r {
                Type::Ptr(inner) => {
                    if !inner.eq_type(&ty_v) {
                        return Err(TranslateError::OperandTypeMismatch { offset: off });
                    }
                    bld.load_store_ref(ty_v, a_v, a_r);
                    proof {
                        assert(stack_types(stack@) =~= s0.drop_last().drop_last());
                    }
                    Ok(())
                },
                _ => Err(TranslateError::OperandTypeMismatch { offset: off }),
            }
        },
        Bytecode::Call(fi) => {
            let fi = *fi as usize;
            if fi >= fmap.len() {
                return Err(TranslateError::InvalidCallTarget { offset: off, callee: fi });
            }
            let callee = fmap[fi];
            let nargs = m.functions[callee.idx].ty.parameter_types.len();
            if stack.len() < nargs {
                return Err(TranslateError::StackUnderflow { offset: off });
            }
            let base = stack.len() - nargs;
            let mut k: usize = 0;
            let mut args: Vec<(Type, Alloca)> = Vec::new();
            while k < nargs
                invariant
                    k <= nargs,
                    nargs <= stack@.len(),
                    base == stack@.len() - nargs,
                    callee.idx < m.functions@.len(),
                    nargs == m.functions@[callee.idx as int].ty.parameter_types@.len(),
                    args@.len() == k,
                    forall|kk: int|
                        0 <= kk < k ==> stack@[base + kk].1 == m.functions@[
                            callee.idx as int
                        ].ty.parameter_types@[kk],
                    forall|kk: int|
                        0 <= kk < k ==> args@[kk] == (
                            m.functions@[callee.idx as int].ty.parameter_types@[kk],
                            stack@[base + kk].0,
                        ),
                decreases nargs - k,
            {
                let ty = &m.functions[callee.idx].ty.parameter_types[k];
                if !stack[base + k].1.eq_type(ty) {
                    return Err(TranslateError::OperandTypeMismatch { offset: off });
                }
                args.push((ty.clone_type(), stack[base + k].0));
                k = k + 1;
            }
            let is_void = m.functions[callee.idx].ty.return_type.eq_type(&Type::Void);
            stack.truncate(base);
            proof {
                let ft = m.functions@[callee.idx as int].ty;
                assert(stack_types(old(stack)@).subrange(base as int, old(stack)@.len() as int)
                    =~= ft.parameter_types@);
                assert(stack_types(stack@) =~= stack_types(old(stack)@).subrange(0, base as int));
            }
            if is_void {
                bld.load_call(callee, &args);
                Ok(())
            } else {
                let ret_ty = m.functions[callee.idx].ty.return_type.clone_type();
                let dst = bld.build_alloca(ret_ty.clone_type());
                bld.load_call_store(callee, &args, (ret_ty.clone_type(), dst));
                stack.push((dst, ret_ty));
                proof {
                    let ft = m.functions@[callee.idx as int].ty;
                    assert(stack_types(stack@) =~= stack_types(old(stack)@).subrange(
                        0,
                        base as int,
                    ).push(ft.return_type));
                }
                Ok(())
            }
        },
        Bytecode::Nop => {
            Ok(())
        },
        Bytecode::Branch(_) | Bytecode::BrTrue(_) | Bytecode::BrFalse(_) | Bytecode::Ret => {
            // excluded by the precondition
            proof {
                assert(false);
            }
            Err(TranslateError::UnsupportedInstruction { offset: off })
        },
    }
}

/// Lowers one function's instruction sequence to basic blocks of IR.
///
/// The function's declared locals are `locals` (the first `nparams` of them
/// are its parameters), its return types are `rets`, and calls resolve
/// through `fmap` into the module `m`. On success the body holds the entry
/// block (which stores each parameter into its slot and branches to the
/// block of offset 0) and one block per block start, in offset order; every
/// block ends in exactly one terminator, by construction, and every
/// instruction offset belongs to exactly one block, `block_of_offset`.
/// Success is owed exactly on `lowerable` input: an instruction sequence
/// that would pop more operands than the simulated stack holds — or branch
/// out of range, mistype an operand, or fall off the end — is a fatal
/// error, never wrapped around.
#[verifier::rlimit(60)]
#[verifier::loop_isolation(false)]
pub fn lower_function_body(
    m: &Module,
    fmap: &Vec<Function>,
    nparams: usize,
    locals: &Vec<Type>,
    rets: &Vec<Type>,
    code: &Vec<Bytecode>,
) -> (r: Result<FunctionBody, TranslateError>)
    requires
        nparams <= locals@.len(),
        code@.len() < usize::MAX,
        forall|i: int| 0 <= i < fmap@.len() ==> (#[trigger] fmap@[i]).idx < m.functions@.len(),
    ensures
        match r {
            Ok(body) => {
                &&& lowerable(code@, locals@, rets@, *m, fmap@)
                &&& body_blocks_wired(code@, nparams as nat, rets@.len(), body)
                &&& body.slots@.len() >= locals@.len()
                &&& forall|k: int| 0 <= k < locals@.len() ==> body.slots@[k].ty == locals@[k]
            },
            Err(_) => !lowerable(code@, locals@, rets@, *m, fmap@),
        },
{
    let n = code.len();
    if n == 0 {
        return Err(TranslateError::MissingTerminator);
    }
    let starts = match compute_block_starts(code) {
        Ok(v) => v,
        Err(e) => {
            proof {
                let j = choose|j: int|
                    0 <= j < code@.len() && (#[trigger] branch_target(code@[j]) matches Some(t)
                        && t >= code@.len());
            }
            return Err(e);
        },
    };
    let bmap = compute_block_map(code, &starts);

    let mut bld = Builder::new();
    let mut k: usize = 0;
    while k < locals.len()
        invariant
            k <= locals@.len(),
            bld.slots@.len() == k,
            forall|kk: int| 0 <= kk < k ==> bld.slots@[kk].ty == locals@[kk],
            bld.blocks@.len() == 0,
            bld.cur@.len() == 0,
        decreases locals@.len() - k,
    {
        let _ = bld.build_alloca(locals[k].clone_type());
        k = k + 1;
    }
    let mut p: usize = 0;
    while p < nparams
        invariant
            p <= nparams,
            bld.slots@.len() == locals@.len(),
            forall|kk: int| 0 <= kk < locals@.len() ==> bld.slots@[kk].ty == locals@[kk],
            bld.blocks@.len() == 0,
            bld.cur@.len() == p,
            forall|kk: int| 0 <= kk < p ==> bld.cur@[kk] == entry_stores(nparams as nat)[kk],
        decreases nparams - p,
    {
        let ghost cpre = bld.cur@;
        bld.store_param_to_alloca(Parameter { idx: p }, Alloca { idx: p });
        proof {
            assert(bld.cur@[cpre.len() as int + 0] == seq![
                Instr::Store { val: RVal::Param(p), ptr: PtrVal::Slot(p) },
            ][0]);
            assert(bld.cur@[p as int] == entry_stores(nparams as nat)[p as int]);
        }
        p = p + 1;
    }
    bld.build_br(BasicBlock { idx: 1 });
    proof {
        assert(is_block_start(code@, 0));
        assert(count_starts(code@, 0) == 0);
        assert(count_starts(code@, 1) == 1);
        assert(bld.blocks@[0].instrs@ =~= entry_stores(nparams as nat));
    }

    let mut stack: Vec<(Alloca, Type)> = Vec::new();
    proof {
        assert(stack_types(stack@) =~= Seq::<Type>::empty());
    }
    let mut i: usize = 0;
    while i < n
        invariant
            i <= n,
            stack_before(code@, i as int, locals@, rets@, *m, fmap@) == Some(stack_types(stack@)),
            i < n ==> bld.blocks@.len() == block_of_offset(code@, i as int),
            i == n ==> bld.blocks@.len() == count_starts(code@, n as int) + 1,
            i == n ==> bld.cur@.len() == 0,
            i == n ==> (code@[n - 1] is Ret || code@[n - 1] is Branch),
            bld.slots@.len() >= locals@.len(),
            forall|kk: int| 0 <= kk < locals@.len() ==> bld.slots@[kk].ty == locals@[kk],
            bld.blocks@.len() >= 1,
            bld.blocks@[0].instrs@ == entry_stores(nparams as nat),
            bld.blocks@[0].term == (Terminator::Br { dest: 1 }),
            forall|o: int| 0 <= o < i ==> #[trigger] wire_ok(code@, bld.blocks@, rets@.len(), o),
        decreases n - i,
    {
        let ghost s0 = stack_types(stack@);
        let ghost blocks_pre = bld.blocks@;
        match &code[i] {
            Bytecode::Branch(t) => {
                if stack.len() != 0 {
                    proof {
                        assert(stack_before(code@, i + 1, locals@, rets@, *m, fmap@) is None);
                    }
                    return Err(
                        TranslateError::StackImbalance { offset: i, depth: stack.len(), needed: 0 },
                    );
                }
                let t = *t as usize;
                proof {
                    assert(branch_target(code@[i as int]) == Some(t as int));
                }
                bld.build_br(BasicBlock { idx: bmap[t] });
                proof {
                    assert(step_types(code@[i as int], s0, locals@, rets@, *m, fmap@) == Some(s0));
                    if i + 1 < n {
                        assert(is_block_start(code@, i + 1));
                        assert(count_starts(code@, i + 2) == count_starts(code@, i + 1) + 1);
                    }
                }
                proof {
                    assert forall|o: int|
                        0 <= o < i + 1 implies #[trigger] wire_ok(
                        code@,
                        bld.blocks@,
                        rets@.len(),
                        o,
                    ) by {
                        if o < i {
                            lemma_wire_ok_append(code@, blocks_pre, bld.blocks@, rets@.len(), o);
                        }
                    }
                }
            },
            Bytecode::BrTrue(_) | Bytecode::BrFalse(_) => {
                let on_true = matches!(&code[i], Bytecode::BrTrue(_));
                let t = match &code[i] {
                    Bytecode::BrTrue(t) => *t as usize,
                    Bytecode::BrFalse(t) => *t as usize,
                    _ => 0,
                };
                proof {
                    assert(branch_target(code@[i as int]) == Some(t as int));
                }
                if i + 1 >= n {
                    proof {
                        assert(code@.last() == code@[i as int]);
                    }
                    return Err(TranslateError::MissingTerminator);
                }
                if stack.len() != 1 {
                    proof {
                        assert(stack_before(code@, i + 1, locals@, rets@, *m, fmap@) is None);
                    }
                    return Err(
                        TranslateError::StackImbalance { offset: i, depth: stack.len(), needed: 1 },
                    );
                }
                let (a, ty) = stack.pop().unwrap();
                if !ty.eq_type(&Type::Int1) {
                    proof {
                        assert(stack_before(code@, i + 1, locals@, rets@, *m, fmap@) is None);
                    }
                    return Err(TranslateError::OperandTypeMismatch { offset: i });
                }
                let target_bb = BasicBlock { idx: bmap[t] };
                let fall_bb = BasicBlock { idx: bmap[i + 1] };
                if on_true {
                    bld.load_cond_br(Type::Int1, a, target_bb, fall_bb);
                } else {
                    bld.load_cond_br(Type::Int1, a, fall_bb, target_bb);
                }
                proof {
                    assert(stack_types(stack@) =~= s0.drop_last());
                    assert(step_types(code@[i as int], s0, locals@, rets@, *m, fmap@) == Some(
                        s0.drop_last(),
                    ));
                    assert(is_block_start(code@, i + 1));
                    assert(count_starts(code@, i + 2) == count_starts(code@, i + 1) + 1);
                }
                proof {
                    assert forall|o: int|
                        0 <= o < i + 1 implies #[trigger] wire_ok(
                        code@,
                        bld.blocks@,
                        rets@.len(),
                        o,
                    ) by {
                        if o < i {
                            lemma_wire_ok_append(code@, blocks_pre, bld.blocks@, rets@.len(), o);
                        }
                    }
                }
            },
            Bytecode::Ret => {
                if stack.len() != rets.len() {
                    proof {
                        assert(s0.len() != rets@.len());
                        assert(stack_before(code@, i + 1, locals@, rets@, *m, fmap@) is None);
                    }
                    return Err(
                        TranslateError::StackImbalance {
                            offset: i,
                            depth: stack.len(),
                            needed: rets.len(),
                        },
                    );
                }
                let nr = rets.len();
                let mut k: usize = 0;
                while k < nr
                    invariant
                        k <= nr,
                        nr == rets@.len() == stack@.len(),
                        forall|kk: int| 0 <= kk < k ==> stack@[kk].1 == rets@[kk],
                        stack_types(stack@) == s0,
                    decreases nr - k,
                {
                    if !stack[k].1.eq_type(&rets[k]) {
                        proof {
                            assert(s0[k as int] == stack@[k as int].1);
                            assert(s0 != rets@);
                            assert(stack_before(code@, i + 1, locals@, rets@, *m, fmap@) is None);
                        }
                        return Err(TranslateError::OperandTypeMismatch { offset: i });
                    }
                    k = k + 1;
                }
                proof {
                    assert(s0 =~= rets@);
                }
                if nr == 0 {
                    bld.build_return_void();
                } else if nr == 1 {
                    let (a, ty) = stack.pop().unwrap();
                    bld.load_return(ty, a);
                } else {
                    let mut vals: Vec<(Type, Alloca)> = Vec::new();
                    let mut k: usize = 0;
                    while k < nr
                        invariant
                            k <= nr,
                            nr == stack@.len(),
                            vals@.len() == k,
                        decreases nr - k,
                    {
                        vals.push((stack[k].1.clone_type(), stack[k].0));
                        k = k + 1;
                    }
                    bld.load_return_agg(&vals);
                }
                stack.clear();
                proof {
                    assert(stack_types(stack@) =~= Seq::<Type>::empty());
                    assert(step_types(code@[i as int], s0, locals@, rets@, *m, fmap@) == Some(
                        Seq::<Type>::empty(),
                    ));
                    if i + 1 < n {
                        assert(is_block_start(code@, i + 1));
                        assert(count_starts(code@, i + 2) == count_starts(code@, i + 1) + 1);
                    }
                }
                proof {
                    assert forall|o: int|
                        0 <= o < i + 1 implies #[trigger] wire_ok(
                        code@,
                        bld.blocks@,
                        rets@.len(),
                        o,
                    ) by {
                        if o < i {
                            lemma_wire_ok_append(code@, blocks_pre, bld.blocks@, rets@.len(), o);
                        }
                    }
                }
            },
            _ => {
                proof {
                    assert(!is_terminator_instr(code@[i as int]));
                }
                match lower_instr(&code[i], i, &mut bld, &mut stack, locals, rets, m, fmap) {
                    Ok(_) => {},
                    Err(e) => {
                        proof {
                            assert(stack_before(code@, i + 1, locals@, rets@, *m, fmap@) is None);
                        }
                        return Err(e);
                    },
                }
                if i + 1 == n {
                    proof {
                        assert(code@.last() == code@[i as int]);
                    }
                    return Err(TranslateError::MissingTerminator);
                }
                let next_starts = starts[i + 1];
                if next_starts {
                    if stack.len() != 0 {
                        proof {
                            assert(is_block_start(code@, i + 1));
                            assert(stack_before(code@, i + 1, locals@, rets@, *m, fmap@) is None);
                        }
                        return Err(
                            TranslateError::StackImbalance {
                                offset: i,
                                depth: stack.len(),
                                needed: 0,
                            },
                        );
                    }
                    bld.build_br(BasicBlock { idx: bmap[i + 1] });
                    proof {
                        assert(is_block_start(code@, i + 1));
                        assert(count_starts(code@, i + 2) == count_starts(code@, i + 1) + 1);
                        assert(stack_types(stack@) =~= Seq::<Type>::empty());
                    }
                proof {
                    assert forall|o: int|
                        0 <= o < i + 1 implies #[trigger] wire_ok(
                        code@,
                        bld.blocks@,
                        rets@.len(),
                        o,
                    ) by {
                        if o < i {
                            lemma_wire_ok_append(code@, blocks_pre, bld.blocks@, rets@.len(), o);
                        }
                    }
                }
                } else {
                    proof {
                        assert(!is_block_start(code@, i + 1));
                        assert(count_starts(code@, i + 2) == count_starts(code@, i + 1));
                        assert forall|o: int|
                            0 <= o < i + 1 implies #[trigger] wire_ok(
                            code@,
                            bld.blocks@,
                            rets@.len(),
                            o,
                        ) by {
                            if o < i {
                                lemma_wire_ok_append(
                                    code@,
                                    blocks_pre,
                                    bld.blocks@,
                                    rets@.len(),
                                    o,
                                );
                            }
                        }
                    }
                }
            },
        }
        i = i + 1;
    }
    proof {
        assert forall|ii: int|
            0 <= ii <= code@.len() implies stack_before(
            code@,
            ii,
            locals@,
            rets@,
            *m,
            fmap@,
        ) is Some by {
            lemma_stack_before_prefix(code@, n as int, ii, locals@, rets@, *m, fmap@);
        }
        assert(lowerable(code@, locals@, rets@, *m, fmap@));
        assert forall|o: int| 0 <= o < code@.len() implies 1 <= #[trigger] block_of_offset(
            code@,
            o,
        ) < count_starts(code@, code@.len() as int) + 1 by {
            lemma_count_starts_pos(code@, o + 1);
            lemma_count_starts_monotone(code@, o + 1, code@.len() as int);
        }
    }
    Ok(bld.finish())
}

} // verus!
