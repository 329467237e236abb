//! The stack-machine instructions of the source bytecode, and the
//! specification of their effect on the simulated operand stack.
//!
//! The simulated stack holds operand *types* (each operand lives in a typed
//! storage slot). `step_types` says exactly which stacks an instruction
//! accepts and what it leaves: an instruction that would pop more operands
//! than are present, or operands of the wrong type, accepts no stack — the
//! lowering fails fatally there, never silently.

use vstd::prelude::*;

use crate::ir::Type;
use crate::module::{Function, Module};

verus! {

/// One instruction of the source bytecode.
pub enum Bytecode {
    /// Push the boolean constant true.
    LdTrue,
    /// Push the boolean constant false.
    LdFalse,
    /// Push an 8-bit integer constant.
    LdU8(u8),
    /// Push a 64-bit integer constant.
    LdU64(u64),
    /// Push a 128-bit integer constant.
    LdU128(u128),
    /// Discard the top of the stack.
    Pop,
    Add,
    Sub,
    Mul,
    Div,
    Mod,
    BitAnd,
    BitOr,
    Xor,
    /// Boolean conjunction.
    And,
    /// Boolean disjunction.
    Or,
    /// Boolean negation.
    Not,
    Lt,
    Gt,
    Le,
    Ge,
    Eq,
    Neq,
    /// Push a copy of local `i`.
    CopyLoc(u8),
    /// Push the value of local `i`, which is afterwards dead.
    MoveLoc(u8),
    /// Pop the top of the stack into local `i`.
    StLoc(u8),
    /// Push an immutable reference to local `i`.
    ImmBorrowLoc(u8),
    /// Push a mutable reference to local `i`.
    MutBorrowLoc(u8),
    /// Pop a struct reference, push an immutable reference to the field
    /// named by field handle `i`. The translator does not lower field
    /// borrows yet (they need the struct layout environment at every call
    /// of the simulation): it reports them as the unsupported-construct
    /// error, never guessing an address.
    ImmBorrowField(u16),
    /// Pop a struct reference, push a mutable reference to the field named
    /// by field handle `i`. Unsupported, as `ImmBorrowField` is.
    MutBorrowField(u16),
    /// Pop a reference and push the value it refers to.
    ReadRef,
    /// Pop a reference, pop a value, store the value through the reference.
    WriteRef,
    /// Call the function with index `i` in the translator's function table,
    /// popping its arguments and pushing its result if it has one.
    Call(u16),
    /// Branch unconditionally to the instruction with offset `t`.
    Branch(u16),
    /// Pop a boolean; branch to offset `t` if it is true, else fall through.
    BrTrue(u16),
    /// Pop a boolean; branch to offset `t` if it is false, else fall through.
    BrFalse(u16),
    /// Pop the function's return values and return them.
    Ret,
    /// Do nothing.
    Nop,
}

/// Whether a type is one the arithmetic and ordering instructions operate
/// on: a fixed-width unsigned integer type.
pub open spec fn is_arith_type(t: Type) -> bool {
    t == Type::Int8 || t == Type::Int32 || t == Type::Int64 || t == Type::Int128
}

/// Whether a type is one the equality instructions operate on: any integer
/// type, the boolean 1-bit type included.
pub open spec fn is_int_type(t: Type) -> bool {
    t == Type::Int1 || is_arith_type(t)
}

/// The offset an instruction can branch to, if it is a branch.
pub open spec fn branch_target(b: Bytecode) -> Option<int> {
    match b {
        Bytecode::Branch(t) => Some(t as int),
        Bytecode::BrTrue(t) => Some(t as int),
        Bytecode::BrFalse(t) => Some(t as int),
        _ => None,
    }
}

/// Whether the instruction ends a block: a branch, a conditional branch,
/// or a return. The instruction after one of these starts a new block.
pub open spec fn is_terminator_instr(b: Bytecode) -> bool {
    b is Branch || b is BrTrue || b is BrFalse || b is Ret
}

/// Whether instruction offset `i` starts a basic block: the first offset,
/// every offset following a terminator, and every branch target.
pub open spec fn is_block_start(code: Seq<Bytecode>, i: int) -> bool {
    &&& 0 <= i < code.len()
    &&& {
        ||| i == 0
        ||| is_terminator_instr(code[i - 1])
        ||| exists|j: int| 0 <= j < code.len() && branch_target(code[j]) == Some(i)
    }
}

/// How many offsets in `[0, upto)` start a block.
pub open spec fn count_starts(code: Seq<Bytecode>, upto: int) -> nat
    decreases upto,
{
    if upto <= 0 {
        0
    } else {
        count_starts(code, upto - 1) + if is_block_start(code, upto - 1) {
            1nat
        } else {
            0nat
        }
    }
}

/// The index of the basic block that holds instruction offset `o`. Block 0
/// is the function's entry block (parameter set-up); the block of offset 0
/// is block 1. Every offset belongs to exactly one block, by construction:
/// this is a function of the offset.
pub open spec fn block_of_offset(code: Seq<Bytecode>, o: int) -> int {
    count_starts(code, o + 1) as int
}

/// What one instruction leaves of the simulated operand stack, or nothing
/// if it does not accept this stack. `locals` are the types of the declared
/// locals (parameters first), `rets` the function's return types, `m` and
/// `fmap` resolve call targets to their IR function types.
pub open spec fn step_types(
    b: Bytecode,
    stack: Seq<Type>,
    locals: Seq<Type>,
    rets: Seq<Type>,
    m: Module,
    fmap: Seq<Function>,
) -> Option<Seq<Type>> {
    match b {
        Bytecode::LdTrue => Some(stack.push(Type::Int1)),
        Bytecode::LdFalse => Some(stack.push(Type::Int1)),
        Bytecode::LdU8(_) => Some(stack.push(Type::Int8)),
        Bytecode::LdU64(_) => Some(stack.push(Type::Int64)),
        Bytecode::LdU128(_) => Some(stack.push(Type::Int128)),
        Bytecode::Pop => if stack.len() >= 1 {
            Some(stack.drop_last())
        } else {
            None
        },
        Bytecode::Add | Bytecode::Sub | Bytecode::Mul | Bytecode::Div | Bytecode::Mod
        | Bytecode::BitAnd | Bytecode::BitOr | Bytecode::Xor => if stack.len() >= 2 && stack.last()
            == stack[stack.len() - 2] && is_arith_type(stack.last()) {
            Some(stack.drop_last())
        } else {
            None
        },
        Bytecode::And | Bytecode::Or => if stack.len() >= 2 && stack.last() == Type::Int1
            && stack[stack.len() - 2] == Type::Int1 {
            Some(stack.drop_last())
        } else {
            None
        },
        Bytecode::Not => if stack.len() >= 1 && stack.last() == Type::Int1 {
            Some(stack)
        } else {
            None
        },
        Bytecode::Lt | Bytecode::Gt | Bytecode::Le | Bytecode::Ge => if stack.len() >= 2
            && stack.last() == stack[stack.len() - 2] && is_arith_type(stack.last()) {
            Some(stack.drop_last().drop_last().push(Type::Int1))
        } else {
            None
        },
        Bytecode::Eq | Bytecode::Neq => if stack.len() >= 2 && stack.last() == stack[stack.len()
            - 2] && is_int_type(stack.last()) {
            Some(stack.drop_last().drop_last().push(Type::Int1))
        } else {
            None
        },
        Bytecode::CopyLoc(i) => if i < locals.len() {
            Some(stack.push(locals[i as int]))
        } else {
            None
        },
        Bytecode::MoveLoc(i) => if i < locals.len() {
            Some(stack.push(locals[i as int]))
        } else {
            None
        },
        Bytecode::StLoc(i) => if i < locals.len() && stack.len() >= 1 && stack.last() == locals[
            i as int
        ] {
            Some(stack.drop_last())
        } else {
            None
        },
        Bytecode::ImmBorrowLoc(i) => if i < locals.len() {
            Some(stack.push(Type::Ptr(Box::new(locals[i as int]))))
        } else {
            None
        },
        Bytecode::MutBorrowLoc(i) => if i < locals.len() {
            Some(stack.push(Type::Ptr(Box::new(locals[i as int]))))
        } else {
            None
        },
        Bytecode::ImmBorrowField(_) => None,
        Bytecode::MutBorrowField(_) => None,
        Bytecode::ReadRef => if stack.len() >= 1 {
            match stack.last() {
                Type::Ptr(t) => Some(stack.drop_last().push(*t)),
                _ => None,
            }
        } else {
            None
        },
        Bytecode::WriteRef => if stack.len() >= 2 {
            match stack.last() {
                Type::Ptr(t) => if *t == stack[stack.len() - 2] {
                    Some(stack.drop_last().drop_last())
                } else {
                    None
                },
                _ => None,
            }
        } else {
            None
        },
        Bytecode::Call(fi) => if fi < fmap.len() && fmap[fi as int].idx < m.functions@.len() {
            call_step(m.functions@[fmap[fi as int].idx as int].ty, stack)
        } else {
            None
        },
        Bytecode::Branch(_) => if stack.len() == 0 {
            Some(stack)
        } else {
            None
        },
        Bytecode::BrTrue(_) | Bytecode::BrFalse(_) => if stack.len() == 1 && stack.last()
            == Type::Int1 {
            Some(stack.drop_last())
        } else {
            None
        },
        Bytecode::Ret => if stack == rets {
            Some(Seq::empty())
        } else {
            None
        },
        Bytecode::Nop => Some(stack),
    }
}

/// What a call of a function with IR type `ft` leaves of the stack: its
/// parameter types popped (they must lie on top, in order, the first
/// parameter deepest), its return type pushed unless void.
pub open spec fn call_step(ft: crate::ir::FunctionType, stack: Seq<Type>) -> Option<Seq<Type>> {
    let n = ft.parameter_types@.len();
    if stack.len() >= n && stack.subrange(stack.len() - n, stack.len() as int)
        == ft.parameter_types@ {
        let rest = stack.subrange(0, stack.len() - n);
        if ft.return_type == Type::Void {
            Some(rest)
        } else {
            Some(rest.push(ft.return_type))
        }
    } else {
        None
    }
}

/// The simulated stack of operand types before instruction offset `i`, or
/// nothing if some earlier instruction failed a check. The stack is empty
/// at every block boundary: a value never crosses blocks on the stack.
pub open spec fn stack_before(
    code: Seq<Bytecode>,
    i: int,
    locals: Seq<Type>,
    rets: Seq<Type>,
    m: Module,
    fmap: Seq<Function>,
) -> Option<Seq<Type>>
    decreases i,
{
    if i <= 0 {
        Some(Seq::empty())
    } else {
        match stack_before(code, i - 1, locals, rets, m, fmap) {
            None => None,
            Some(s) => match step_types(code[i - 1], s, locals, rets, m, fmap) {
                None => None,
                Some(s2) => if is_block_start(code, i) && s2.len() != 0 {
                    None
                } else {
                    Some(s2)
                },
            },
        }
    }
}

/// Whether the whole instruction sequence lowers: it is nonempty, it cannot
/// fall off the end (the last instruction returns or branches away), every
/// branch target lies in range, and the simulated stack accepts every
/// instruction, block boundaries included.
pub open spec fn lowerable(
    code: Seq<Bytecode>,
    locals: Seq<Type>,
    rets: Seq<Type>,
    m: Module,
    fmap: Seq<Function>,
) -> bool {
    &&& code.len() > 0
    &&& (code.last() is Ret || code.last() is Branch)
    &&& forall|j: int|
        0 <= j < code.len() ==> (#[trigger] branch_target(code[j]) matches Some(t) ==> 0 <= t
            < code.len())
    &&& forall|i: int| 0 <= i <= code.len() ==> stack_before(code, i, locals, rets, m, fmap) is Some
}

/// The stack-balance invariant: in a sequence that lowers, the simulated
/// stack at every return holds exactly the function's return types — its
/// depth is exactly the declared return arity — and every instruction finds
/// at least the operands it pops.
pub proof fn lemma_stack_balance(
    code: Seq<Bytecode>,
    locals: Seq<Type>,
    rets: Seq<Type>,
    m: Module,
    fmap: Seq<Function>,
)
    requires
        lowerable(code, locals, rets, m, fmap),
    ensures
        forall|i: int|
            0 <= i < code.len() && code[i] is Ret ==> stack_before(code, i, locals, rets, m, fmap)
                == Some(rets),
        forall|i: int|
            0 <= i < code.len() ==> stack_before(code, i, locals, rets, m, fmap)->Some_0.len()
                >= instr_pops(code[i], locals, rets, m, fmap),
{
    assert forall|i: int| 0 <= i < code.len() && code[i] is Ret implies stack_before(
        code,
        i,
        locals,
        rets,
        m,
        fmap,
    ) == Some(rets) by {
        let s = stack_before(code, i, locals, rets, m, fmap)->Some_0;
        assert(stack_before(code, i + 1, locals, rets, m, fmap) is Some);
        assert(step_types(code[i], s, locals, rets, m, fmap) is Some);
    }
    assert forall|i: int| 0 <= i < code.len() implies stack_before(
        code,
        i,
        locals,
        rets,
        m,
        fmap,
    )->Some_0.len() >= instr_pops(code[i], locals, rets, m, fmap) by {
        let s = stack_before(code, i, locals, rets, m, fmap)->Some_0;
        assert(stack_before(code, i + 1, locals, rets, m, fmap) is Some);
        assert(step_types(code[i], s, locals, rets, m, fmap) is Some);
    }
}

/// The control-flow partition is complete in both directions: every offset
/// belongs to exactly one block — `block_of_offset` is a function of the
/// offset — and, conversely, every block index up to the number of starts
/// is the block of some offset: no block stands for no instruction.
pub proof fn lemma_every_block_holds_an_offset(code: Seq<Bytecode>, k: int, b: int)
    requires
        0 < k <= code.len(),
        1 <= b <= count_starts(code, k),
    ensures
        exists|o: int| 0 <= o < k && #[trigger] block_of_offset(code, o) == b,
    decreases k,
{
    if b == count_starts(code, k) && is_block_start(code, k - 1) {
        assert(block_of_offset(code, k - 1) == b);
    } else {
        assert(count_starts(code, k) <= count_starts(code, k - 1) + 1);
        if k == 1 {
            assert(is_block_start(code, 0));
            assert(block_of_offset(code, 0) == 1);
        } else {
            if b > count_starts(code, k - 1) {
                assert(b == count_starts(code, k) && is_block_start(code, k - 1));
            }
            lemma_every_block_holds_an_offset(code, k - 1, b);
            let o = choose|o: int| 0 <= o < k - 1 && #[trigger] block_of_offset(code, o) == b;
            assert(block_of_offset(code, o) == b);
        }
    }
}

/// Whether two modules declare the same function types, in the same order.
/// The simulated stack reads nothing else of a module.
pub open spec fn same_function_sigs(m1: Module, m2: Module) -> bool {
    &&& m1.functions@.len() == m2.functions@.len()
    &&& forall|i: int|
        0 <= i < m1.functions@.len() ==> (#[trigger] m1.functions@[i]).ty == m2.functions@[i].ty
}

/// Whether two modules agree on everything the simulated stack can reach
/// through the call table `fmap`: each mapped function exists in both and
/// has the same type. Weaker than `same_function_sigs`: the modules may
/// hold other functions.
pub open spec fn sigs_agree_on(m1: Module, m2: Module, fmap: Seq<Function>) -> bool {
    forall|i: int|
        0 <= i < fmap.len() ==> {
            &&& (#[trigger] fmap[i]).idx < m1.functions@.len()
            &&& fmap[i].idx < m2.functions@.len()
            &&& m1.functions@[fmap[i].idx as int].ty == m2.functions@[fmap[i].idx as int].ty
        }
}

/// One step of the simulation agrees between modules with the same
/// function types.
proof fn lemma_step_same_sigs(
    b: Bytecode,
    stack: Seq<Type>,
    locals: Seq<Type>,
    rets: Seq<Type>,
    m1: Module,
    m2: Module,
    fmap: Seq<Function>,
)
    requires
        sigs_agree_on(m1, m2, fmap),
    ensures
        step_types(b, stack, locals, rets, m1, fmap) == step_types(b, stack, locals, rets, m2, fmap),
{
}

/// The whole simulation agrees between modules with the same function
/// types.
proof fn lemma_stack_before_same_sigs(
    code: Seq<Bytecode>,
    i: int,
    locals: Seq<Type>,
    rets: Seq<Type>,
    m1: Module,
    m2: Module,
    fmap: Seq<Function>,
)
    requires
        sigs_agree_on(m1, m2, fmap),
    ensures
        stack_before(code, i, locals, rets, m1, fmap) == stack_before(code, i, locals, rets, m2, fmap),
    decreases i,
{
    if i > 0 {
        lemma_stack_before_same_sigs(code, i - 1, locals, rets, m1, m2, fmap);
        match stack_before(code, i - 1, locals, rets, m1, fmap) {
            Some(s) => {
                lemma_step_same_sigs(code[i - 1], s, locals, rets, m1, m2, fmap);
            },
            None => {},
        }
    }
}

/// Whether a sequence lowers depends only on the function types a module
/// declares, not on the bodies or globals attached to it afterwards.
pub proof fn lemma_lowerable_same_sigs(
    code: Seq<Bytecode>,
    locals: Seq<Type>,
    rets: Seq<Type>,
    m1: Module,
    m2: Module,
    fmap: Seq<Function>,
)
    requires
        sigs_agree_on(m1, m2, fmap),
    ensures
        lowerable(code, locals, rets, m1, fmap) == lowerable(code, locals, rets, m2, fmap),
{
    assert forall|i: int| 0 <= i <= code.len() implies stack_before(
        code,
        i,
        locals,
        rets,
        m1,
        fmap,
    ) == stack_before(code, i, locals, rets, m2, fmap) by {
        lemma_stack_before_same_sigs(code, i, locals, rets, m1, m2, fmap);
    }
}

/// How many operands an instruction pops from the simulated stack.
pub open spec fn instr_pops(
    b: Bytecode,
    locals: Seq<Type>,
    rets: Seq<Type>,
    m: Module,
    fmap: Seq<Function>,
) -> nat {
    match b {
        Bytecode::LdTrue | Bytecode::LdFalse | Bytecode::LdU8(_) | Bytecode::LdU64(_)
        | Bytecode::LdU128(_) => 0,
        Bytecode::Pop => 1,
        Bytecode::Add | Bytecode::Sub | Bytecode::Mul | Bytecode::Div | Bytecode::Mod
        | Bytecode::BitAnd | Bytecode::BitOr | Bytecode::Xor => 2,
        Bytecode::And | Bytecode::Or => 2,
        Bytecode::Not => 1,
        Bytecode::Lt | Bytecode::Gt | Bytecode::Le | Bytecode::Ge => 2,
        Bytecode::Eq | Bytecode::Neq => 2,
        Bytecode::CopyLoc(_) | Bytecode::MoveLoc(_) => 0,
        Bytecode::StLoc(_) => 1,
        Bytecode::ImmBorrowLoc(_) | Bytecode::MutBorrowLoc(_) => 0,
        Bytecode::ImmBorrowField(_) | Bytecode::MutBorrowField(_) => 1,
        Bytecode::ReadRef => 1,
        Bytecode::WriteRef => 2,
        Bytecode::Call(fi) => if fi < fmap.len() && fmap[fi as int].idx < m.functions@.len() {
            m.functions@[fmap[fi as int].idx as int].ty.parameter_types@.len()
        } else {
            0
        },
        Bytecode::Branch(_) => 0,
        Bytecode::BrTrue(_) | Bytecode::BrFalse(_) => 1,
        Bytecode::Ret => rets.len(),
        Bytecode::Nop => 0,
    }
}

} // verus!
