//! The instruction builder: a cursor that fills one function body, one
//! basic block at a time.
//!
//! The builder is positioned at one block — the block with index
//! `blocks.len()`, whose instructions are gathered in `cur`. Emitting a
//! terminator seals the block: exactly one terminator ends every block, by
//! construction. High-level operations mirror the stack-machine model:
//! values move between storage slots through explicit loads and stores.

use vstd::prelude::*;

use crate::ir::{
    Alloca, BasicBlock, BlockData, Constant, Instr, Opcode, Parameter, Predicate, PtrVal, RVal,
    SlotData, Terminator, Type, FunctionBody,
};
use crate::module::Function;

verus! {

/// A builder for one function body.
pub struct Builder {
    /// The storage slots of the function, one per local and temporary.
    pub slots: Vec<SlotData>,
    /// The blocks sealed so far, in block-index order.
    pub blocks: Vec<BlockData>,
    /// The instructions of the block under construction, whose index will
    /// be `blocks.len()`.
    pub cur: Vec<Instr>,
}

/// The register that the next instruction the builder emits will define.
pub open spec fn next_reg(b: Builder) -> RVal {
    RVal::Reg { block: b.blocks@.len() as usize, pos: b.cur@.len() as usize }
}

/// The builder `new` equals `old` with `extra` appended to the block under
/// construction and nothing else changed.
pub open spec fn emitted(old: Builder, new: Builder, extra: Seq<Instr>) -> bool {
    &&& new.cur@.len() == old.cur@.len() + extra.len()
    &&& forall|i: int| 0 <= i < old.cur@.len() ==> new.cur@[i] == old.cur@[i]
    &&& forall|i: int| 0 <= i < extra.len() ==> new.cur@[old.cur@.len() + i] == extra[i]
    &&& new.blocks == old.blocks
    &&& new.slots == old.slots
}

/// The builder `new` equals `old` with the block under construction sealed
/// by terminator `t` (after appending `extra` to it) and a fresh empty block
/// under construction.
pub open spec fn sealed(old: Builder, new: Builder, extra: Seq<Instr>, t: Terminator) -> bool {
    &&& new.blocks@.len() == old.blocks@.len() + 1
    &&& forall|i: int| 0 <= i < old.blocks@.len() ==> new.blocks@[i] == old.blocks@[i]
    &&& new.blocks@[old.blocks@.len() as int].instrs@ == old.cur@ + extra
    &&& new.blocks@[old.blocks@.len() as int].term == t
    &&& new.cur@.len() == 0
    &&& new.slots == old.slots
}

impl Builder {
    /// A fresh builder: no slots, no blocks, positioned at block 0.
    pub fn new() -> (r: Builder)
        ensures
            r.slots@.len() == 0,
            r.blocks@.len() == 0,
            r.cur@.len() == 0,
    {
        Builder { slots: Vec::new(), blocks: Vec::new(), cur: Vec::new() }
    }

    /// Allocates a storage slot for a value of the given type.
    pub fn build_alloca(&mut self, ty: Type) -> (r: Alloca)
        ensures
            final(self).slots@.len() == old(self).slots@.len() + 1,
            forall|i: int|
                0 <= i < old(self).slots@.len() ==> final(self).slots@[i] == old(self).slots@[i],
            final(self).slots@[old(self).slots@.len() as int].ty == ty,
            r.idx == old(self).slots@.len(),
            final(self).blocks == old(self).blocks,
            final(self).cur == old(self).cur,
    {
        let idx = self.slots.len();
        self.slots.push(SlotData { ty });
        Alloca { idx }
    }

    /// Stores a formal parameter's value into a slot.
    pub fn store_param_to_alloca(&mut self, param: Parameter, dst: Alloca)
        ensures
            emitted(
                *old(self),
                *final(self),
                seq![Instr::Store { val: RVal::Param(param.idx), ptr: PtrVal::Slot(dst.idx) }],
            ),
    {
        self.cur.push(Instr::Store { val: RVal::Param(param.idx), ptr: PtrVal::Slot(dst.idx) });
    }

    /// Loads a slot of the given type and stores the value in another slot.
    pub fn load_store(&mut self, ty: Type, src: Alloca, dst: Alloca)
        ensures
            emitted(
                *old(self),
                *final(self),
                seq![
                    Instr::Load { ty, ptr: PtrVal::Slot(src.idx) },
                    Instr::Store { val: next_reg(*old(self)), ptr: PtrVal::Slot(dst.idx) },
                ],
            ),
    {
        let reg = RVal::Reg { block: self.blocks.len(), pos: self.cur.len() };
        self.cur.push(Instr::Load { ty, ptr: PtrVal::Slot(src.idx) });
        self.cur.push(Instr::Store { val: reg, ptr: PtrVal::Slot(dst.idx) });
    }

    /// Stores the address of one slot into another slot (slots are
    /// pointers, so this takes a reference).
    pub fn ref_store(&mut self, src: Alloca, dst: Alloca)
        ensures
            emitted(
                *old(self),
                *final(self),
                seq![Instr::Store { val: RVal::SlotAddr(src.idx), ptr: PtrVal::Slot(dst.idx) }],
            ),
    {
        self.cur.push(Instr::Store { val: RVal::SlotAddr(src.idx), ptr: PtrVal::Slot(dst.idx) });
    }

    /// Loads a pointer from `src`, dereferences it, and stores the value it
    /// points to into `dst`.
    pub fn load_deref_store(&mut self, ty: Type, src: Alloca, dst: Alloca)
        ensures
            emitted(
                *old(self),
                *final(self),
                seq![
                    Instr::Load {
                        ty: Type::Ptr(Box::new(ty)),
                        ptr: PtrVal::Slot(src.idx),
                    },
                    Instr::Load {
                        ty,
                        ptr: PtrVal::Reg {
                            block: old(self).blocks@.len() as usize,
                            pos: old(self).cur@.len() as usize,
                        },
                    },
                    Instr::Store {
                        val: RVal::Reg {
                            block: old(self).blocks@.len() as usize,
                            pos: (old(self).cur@.len() + 1) as usize,
                        },
                        ptr: PtrVal::Slot(dst.idx),
                    },
                ],
            ),
    {
        let b = self.blocks.len();
        let p = self.cur.len();
        self.cur.push(Instr::Load { ty: ty.ptr_type(), ptr: PtrVal::Slot(src.idx) });
        let p1 = self.cur.len();
        self.cur.push(Instr::Load { ty, ptr: PtrVal::Reg { block: b, pos: p } });
        self.cur.push(
            Instr::Store { val: RVal::Reg { block: b, pos: p1 }, ptr: PtrVal::Slot(dst.idx) },
        );
    }

    /// Loads a value from `src` and stores it to the location that the
    /// pointer held in `dst` points to.
    pub fn load_store_ref(&mut self, ty: Type, src: Alloca, dst: Alloca)
        ensures
            emitted(
                *old(self),
                *final(self),
                seq![
                    Instr::Load { ty, ptr: PtrVal::Slot(src.idx) },
                    Instr::Load {
                        ty: Type::Ptr(Box::new(ty)),
                        ptr: PtrVal::Slot(dst.idx),
                    },
                    Instr::Store {
                        val: RVal::Reg {
                            block: old(self).blocks@.len() as usize,
                            pos: old(self).cur@.len() as usize,
                        },
                        ptr: PtrVal::Reg {
                            block: old(self).blocks@.len() as usize,
                            pos: (old(self).cur@.len() + 1) as usize,
                        },
                    },
                ],
            ),
    {
        let b = self.blocks.len();
        let p = self.cur.len();
        self.cur.push(Instr::Load { ty: ty.clone_type(), ptr: PtrVal::Slot(src.idx) });
        let p1 = self.cur.len();
        self.cur.push(Instr::Load { ty: ty.ptr_type(), ptr: PtrVal::Slot(dst.idx) });
        self.cur.push(
            Instr::Store {
                val: RVal::Reg { block: b, pos: p },
                ptr: PtrVal::Reg { block: b, pos: p1 },
            },
        );
    }

    /// Stores a constant into a slot.
    pub fn store_const(&mut self, src: Constant, dst: Alloca)
        ensures
            emitted(
                *old(self),
                *final(self),
                seq![Instr::Store { val: RVal::Konst(src), ptr: PtrVal::Slot(dst.idx) }],
            ),
    {
        self.cur.push(Instr::Store { val: RVal::Konst(src), ptr: PtrVal::Slot(dst.idx) });
    }

    /// Loads from a slot; the load's register holds the value.
    pub fn build_load(&mut self, ty: Type, src: Alloca) -> (r: RVal)
        ensures
            emitted(*old(self), *final(self), seq![Instr::Load { ty, ptr: PtrVal::Slot(src.idx) }]),
            r == next_reg(*old(self)),
    {
        let reg = RVal::Reg { block: self.blocks.len(), pos: self.cur.len() };
        self.cur.push(Instr::Load { ty, ptr: PtrVal::Slot(src.idx) });
        reg
    }

    /// Stores a value into a slot.
    pub fn build_store(&mut self, val: RVal, dst: Alloca)
        ensures
            emitted(
                *old(self),
                *final(self),
                seq![Instr::Store { val, ptr: PtrVal::Slot(dst.idx) }],
            ),
    {
        self.cur.push(Instr::Store { val, ptr: PtrVal::Slot(dst.idx) });
    }

    /// Loads two slots of the given type, adds the values, and stores the
    /// sum into a third slot.
    pub fn load_add_store(&mut self, ty: Type, src0: Alloca, src1: Alloca, dst: Alloca)
        ensures
            emitted(
                *old(self),
                *final(self),
                seq![
                    Instr::Load { ty, ptr: PtrVal::Slot(src0.idx) },
                    Instr::Load { ty, ptr: PtrVal::Slot(src1.idx) },
                    Instr::BinOp {
                        op: Opcode::Add,
                        lhs: RVal::Reg {
                            block: old(self).blocks@.len() as usize,
                            pos: old(self).cur@.len() as usize,
                        },
                        rhs: RVal::Reg {
                            block: old(self).blocks@.len() as usize,
                            pos: (old(self).cur@.len() + 1) as usize,
                        },
                    },
                    Instr::Store {
                        val: RVal::Reg {
                            block: old(self).blocks@.len() as usize,
                            pos: (old(self).cur@.len() + 2) as usize,
                        },
                        ptr: PtrVal::Slot(dst.idx),
                    },
                ],
            ),
    {
        let b = self.blocks.len();
        let p0 = self.cur.len();
        self.cur.push(Instr::Load { ty: ty.clone_type(), ptr: PtrVal::Slot(src0.idx) });
        let p1 = self.cur.len();
        self.cur.push(Instr::Load { ty, ptr: PtrVal::Slot(src1.idx) });
        let p2 = self.cur.len();
        self.cur.push(
            Instr::BinOp {
                op: Opcode::Add,
                lhs: RVal::Reg { block: b, pos: p0 },
                rhs: RVal::Reg { block: b, pos: p1 },
            },
        );
        self.cur.push(
            Instr::Store { val: RVal::Reg { block: b, pos: p2 }, ptr: PtrVal::Slot(dst.idx) },
        );
    }

    /// A binary integer operation of two values; the operation's register
    /// holds the result.
    pub fn build_binop(&mut self, op: Opcode, lhs: RVal, rhs: RVal) -> (r: RVal)
        ensures
            emitted(*old(self), *final(self), seq![Instr::BinOp { op, lhs, rhs }]),
            r == next_reg(*old(self)),
    {
        let reg = RVal::Reg { block: self.blocks.len(), pos: self.cur.len() };
        self.cur.push(Instr::BinOp { op, lhs, rhs });
        reg
    }

    /// An integer comparison of two values; the comparison's register holds
    /// the 1-bit result.
    pub fn build_compare(&mut self, pred: Predicate, lhs: RVal, rhs: RVal) -> (r: RVal)
        ensures
            emitted(*old(self), *final(self), seq![Instr::ICmp { pred, lhs, rhs }]),
            r == next_reg(*old(self)),
    {
        let reg = RVal::Reg { block: self.blocks.len(), pos: self.cur.len() };
        self.cur.push(Instr::ICmp { pred, lhs, rhs });
        reg
    }

    /// Zero-extends a value to a wider integer type.
    pub fn build_zext(&mut self, val: RVal, to_ty: Type) -> (r: RVal)
        ensures
            emitted(*old(self), *final(self), seq![Instr::ZExt { val, to_ty }]),
            r == next_reg(*old(self)),
    {
        let reg = RVal::Reg { block: self.blocks.len(), pos: self.cur.len() };
        self.cur.push(Instr::ZExt { val, to_ty });
        reg
    }

    /// Truncates a value to a narrower integer type.
    pub fn build_trunc(&mut self, val: RVal, to_ty: Type) -> (r: RVal)
        ensures
            emitted(*old(self), *final(self), seq![Instr::Trunc { val, to_ty }]),
            r == next_reg(*old(self)),
    {
        let reg = RVal::Reg { block: self.blocks.len(), pos: self.cur.len() };
        self.cur.push(Instr::Trunc { val, to_ty });
        reg
    }

    /// Reinterprets a value at another type of the same width.
    pub fn build_unary_bitcast(&mut self, val: RVal, to_ty: Type) -> (r: RVal)
        ensures
            emitted(*old(self), *final(self), seq![Instr::BitCast { val, to_ty }]),
            r == next_reg(*old(self)),
    {
        let reg = RVal::Reg { block: self.blocks.len(), pos: self.cur.len() };
        self.cur.push(Instr::BitCast { val, to_ty });
        reg
    }

    /// Seals the current block with an unconditional branch.
    pub fn build_br(&mut self, bb: BasicBlock)
        ensures
            sealed(*old(self), *final(self), Seq::empty(), Terminator::Br { dest: bb.idx }),
    {
        self.seal(Terminator::Br { dest: bb.idx });
    }

    /// Loads a 1-bit condition from a slot and seals the current block with
    /// a conditional branch on it.
    pub fn load_cond_br(&mut self, ty: Type, val: Alloca, bb0: BasicBlock, bb1: BasicBlock)
        ensures
            sealed(
                *old(self),
                *final(self),
                seq![Instr::Load { ty, ptr: PtrVal::Slot(val.idx) }],
                Terminator::CondBr {
                    cond: next_reg(*old(self)),
                    if_true: bb0.idx,
                    if_false: bb1.idx,
                },
            ),
    {
        let reg = RVal::Reg { block: self.blocks.len(), pos: self.cur.len() };
        self.cur.push(Instr::Load { ty, ptr: PtrVal::Slot(val.idx) });
        self.seal(Terminator::CondBr { cond: reg, if_true: bb0.idx, if_false: bb1.idx });
        proof {
            assert(self.blocks@[old(self).blocks@.len() as int].instrs@ =~= old(self).cur@
                + seq![Instr::Load { ty, ptr: PtrVal::Slot(val.idx) }]);
        }
    }

    /// Seals the current block with a void return.
    pub fn build_return_void(&mut self)
        ensures
            sealed(*old(self), *final(self), Seq::empty(), Terminator::RetVoid),
    {
        self.seal(Terminator::RetVoid);
    }

    /// Loads the return value from a slot and seals the current block with
    /// a return of it.
    pub fn load_return(&mut self, ty: Type, val: Alloca)
        ensures
            sealed(
                *old(self),
                *final(self),
                seq![Instr::Load { ty, ptr: PtrVal::Slot(val.idx) }],
                Terminator::Ret { val: next_reg(*old(self)) },
            ),
    {
        let reg = RVal::Reg { block: self.blocks.len(), pos: self.cur.len() };
        self.cur.push(Instr::Load { ty, ptr: PtrVal::Slot(val.idx) });
        self.seal(Terminator::Ret { val: reg });
        proof {
            assert(self.blocks@[old(self).blocks@.len() as int].instrs@ =~= old(self).cur@
                + seq![Instr::Load { ty, ptr: PtrVal::Slot(val.idx) }]);
        }
    }

    /// Loads each pending return value from its slot and seals the current
    /// block with a return of all of them, collapsed into one aggregate.
    pub fn load_return_agg(&mut self, vals: &Vec<(Type, Alloca)>)
        ensures
            sealed(
                *old(self),
                *final(self),
                arg_load_instrs(vals@),
                Terminator::RetAgg {
                    vals_block: old(self).blocks@.len() as usize,
                    vals_pos: old(self).cur@.len() as usize,
                    n: vals@.len() as usize,
                },
            ),
    {
        let blk = self.blocks.len();
        let pos = self.cur.len();
        let n = vals.len();
        self.load_args(vals);
        self.seal(Terminator::RetAgg { vals_block: blk, vals_pos: pos, n });
        proof {
            assert(self.blocks@[old(self).blocks@.len() as int].instrs@ =~= old(self).cur@
                + arg_load_instrs(vals@));
        }
    }

    /// Seals the current block as unreachable.
    pub fn build_unreachable(&mut self)
        ensures
            sealed(*old(self), *final(self), Seq::empty(), Terminator::Unreachable),
    {
        self.seal(Terminator::Unreachable);
    }

    /// Loads each argument from its slot and calls a function, discarding
    /// any result.
    pub fn load_call(&mut self, fnval: Function, args: &Vec<(Type, Alloca)>)
        ensures
            emitted(
                *old(self),
                *final(self),
                arg_load_instrs(args@) + seq![
                    Instr::Call {
                        callee: fnval.idx,
                        args_block: old(self).blocks@.len() as usize,
                        args_pos: old(self).cur@.len() as usize,
                        nargs: args@.len() as usize,
                    },
                ],
            ),
            final(self).cur@.len() == old(self).cur@.len() + args@.len() + 1,
    {
        let pos = self.cur.len();
        let blk = self.blocks.len();
        self.load_args(args);
        self.cur.push(Instr::Call { callee: fnval.idx, args_block: blk, args_pos: pos, nargs: args.len() });
    }

    /// Loads each argument from its slot, calls a function, and stores the
    /// result into the destination slot.
    pub fn load_call_store(&mut self, fnval: Function, args: &Vec<(Type, Alloca)>, dst: (Type, Alloca))
        ensures
            emitted(
                *old(self),
                *final(self),
                arg_load_instrs(args@) + seq![
                    Instr::Call {
                        callee: fnval.idx,
                        args_block: old(self).blocks@.len() as usize,
                        args_pos: old(self).cur@.len() as usize,
                        nargs: args@.len() as usize,
                    },
                    Instr::Store {
                        val: RVal::Reg {
                            block: old(self).blocks@.len() as usize,
                            pos: (old(self).cur@.len() + args@.len()) as usize,
                        },
                        ptr: PtrVal::Slot(dst.1.idx),
                    },
                ],
            ),
    {
        let pos = self.cur.len();
        let blk = self.blocks.len();
        self.load_args(args);
        let call_reg = RVal::Reg { block: self.blocks.len(), pos: self.cur.len() };
        self.cur.push(Instr::Call { callee: fnval.idx, args_block: blk, args_pos: pos, nargs: args.len() });
        self.cur.push(Instr::Store { val: call_reg, ptr: PtrVal::Slot(dst.1.idx) });
    }

    /// Finishes the body: every block sealed, nothing pending.
    pub fn finish(self) -> (r: FunctionBody)
        requires
            self.cur@.len() == 0,
        ensures
            r.slots == self.slots,
            r.blocks == self.blocks,
    {
        FunctionBody { slots: self.slots, blocks: self.blocks }
    }

    /// Emits one load per argument slot, in order.
    fn load_args(&mut self, args: &Vec<(Type, Alloca)>)
        ensures
            emitted(*old(self), *final(self), arg_load_instrs(args@)),
            final(self).cur@.len() == old(self).cur@.len() + args@.len(),
    {
        let mut i: usize = 0;
        while i < args.len()
            invariant
                i <= args@.len(),
                emitted(*old(self), *self, arg_load_instrs(args@.subrange(0, i as int))),
                self.cur@.len() == old(self).cur@.len() + i,
            decreases args@.len() - i,
        {
            let (ty, a) = (&args[i].0, &args[i].1);
            self.cur.push(Instr::Load { ty: ty.clone_type(), ptr: PtrVal::Slot(a.idx) });
            proof {
                assert(arg_load_instrs(args@.subrange(0, i + 1 as int)) =~= arg_load_instrs(
                    args@.subrange(0, i as int),
                ) + seq![
                    Instr::Load { ty: args@[i as int].0, ptr: PtrVal::Slot(args@[i as int].1.idx) },
                ]);
                assert(self.cur@ =~= old(self).cur@ + arg_load_instrs(
                    args@.subrange(0, i + 1 as int),
                ));
            }
            i = i + 1;
        }
        proof {
            assert(args@.subrange(0, args@.len() as int) =~= args@);
        }
    }

    /// Seals the block under construction with the given terminator and
    /// positions the builder at a fresh block.
    fn seal(&mut self, t: Terminator)
        ensures
            sealed(*old(self), *final(self), Seq::empty(), t),
    {
        let mut instrs: Vec<Instr> = Vec::new();
        core::mem::swap(&mut instrs, &mut self.cur);
        self.blocks.push(BlockData { instrs, term: t });
        proof {
            assert(self.blocks@[old(self).blocks@.len() as int].instrs@ =~= old(self).cur@
                + Seq::<Instr>::empty());
        }
    }
}

/// The loads that `load_args` emits for the given argument slots: one load
/// per argument, in order.
pub open spec fn arg_load_instrs(args: Seq<(Type, Alloca)>) -> Seq<Instr> {
    Seq::new(args.len(), |i: int| Instr::Load { ty: args[i].0, ptr: PtrVal::Slot(args[i].1.idx) })
}

} // verus!
