//! One IR module: the function and global symbol table of one compilation
//! unit.
//!
//! Functions and globals are declared once per name. Requesting a name a
//! second time returns the handle that the first request returned and
//! leaves the module unchanged; a second request under the same name with
//! a different type is a fatal inconsistency, never silently resolved.

use vstd::prelude::*;

use crate::context::Context;
use crate::errors::TranslateError;
use crate::ir::{BlockData, Constant, FunctionBody, FunctionType, Instr, PtrVal, RVal, Terminator, Type, fnty_eq};

verus! {

/// One function of a module: its symbol name, its IR function type, and,
/// once lowered, its body.
pub struct FunctionDecl {
    pub name: String,
    pub ty: FunctionType,
    pub body: Option<FunctionBody>,
}

/// One global of a module: its symbol name, its value type, and, once
/// defined, its constant initializer.
pub struct GlobalData {
    pub name: String,
    pub ty: Type,
    pub init: Option<Constant>,
}

/// A handle to a function: an index into the owning module's function table.
#[derive(Clone, Copy, PartialEq, Eq, Structural, Debug)]
pub struct Function {
    pub idx: usize,
}

/// A handle to a global: an index into the owning module's global table.
#[derive(Clone, Copy, PartialEq, Eq, Structural, Debug)]
pub struct Global {
    pub idx: usize,
}

/// One IR module under construction.
pub struct Module {
    pub name: String,
    /// The target triple the module is emitted for.
    pub triple: String,
    /// The data layout of the machine the module is emitted for.
    pub data_layout: String,
    pub source_file_name: String,
    pub functions: Vec<FunctionDecl>,
    pub globals: Vec<GlobalData>,
}

impl Module {
    /// Whether some function of this module has the given symbol name.
    pub open spec fn has_function_named(self, name: Seq<char>) -> bool {
        exists|i: int| 0 <= i < self.functions@.len() && self.functions@[i].name@ == name
    }

    /// Whether some global of this module has the given symbol name.
    pub open spec fn has_global_named(self, name: Seq<char>) -> bool {
        exists|i: int| 0 <= i < self.globals@.len() && self.globals@[i].name@ == name
    }

    /// Well-formed: no two functions and no two globals share a name, so a
    /// handle obtained by name lookup is the one the declaration returned.
    pub open spec fn wf(self) -> bool {
        &&& forall|i: int, j: int|
            0 <= i < j < self.functions@.len() ==> self.functions@[i].name@
                != self.functions@[j].name@
        &&& forall|i: int, j: int|
            0 <= i < j < self.globals@.len() ==> self.globals@[i].name@ != self.globals@[j].name@
    }

    /// Sets the target triple of the module.
    pub fn set_target(&mut self, triple: &str)
        ensures
            final(self).triple@ == triple@,
            final(self).name == old(self).name,
            final(self).data_layout == old(self).data_layout,
            final(self).source_file_name == old(self).source_file_name,
            final(self).functions == old(self).functions,
            final(self).globals == old(self).globals,
    {
        self.triple = triple.to_owned();
    }

    /// Sets the name of the module's source file.
    pub fn set_source_file_name(&mut self, name: &str)
        ensures
            final(self).source_file_name@ == name@,
            final(self).name == old(self).name,
            final(self).triple == old(self).triple,
            final(self).data_layout == old(self).data_layout,
            final(self).functions == old(self).functions,
            final(self).globals == old(self).globals,
    {
        self.source_file_name = name.to_owned();
    }

    /// Records the data layout of the machine the module is emitted for.
    pub fn set_data_layout(&mut self, machine: &crate::target::TargetMachine)
        ensures
            final(self).data_layout@ == crate::target::spec_data_layout(),
            final(self).name == old(self).name,
            final(self).triple == old(self).triple,
            final(self).source_file_name == old(self).source_file_name,
            final(self).functions == old(self).functions,
            final(self).globals == old(self).globals,
    {
        self.data_layout = machine.data_layout();
    }

    /// Adds a function with an empty body under a name that no function of
    /// the module has yet. (`declare_function` is the memoized form.)
    pub fn add_function(&mut self, name: &str, ty: FunctionType) -> (r: Function)
        requires
            old(self).wf(),
            !old(self).has_function_named(name@),
        ensures
            final(self).wf(),
            final(self).functions@.len() == old(self).functions@.len() + 1,
            forall|i: int|
                0 <= i < old(self).functions@.len() ==> final(self).functions@[i] == old(
                    self,
                ).functions@[i],
            final(self).functions@[old(self).functions@.len() as int].name@ == name@,
            final(self).functions@[old(self).functions@.len() as int].ty == ty,
            final(self).functions@[old(self).functions@.len() as int].body is None,
            r.idx == old(self).functions@.len(),
            final(self).has_function_named(name@),
            final(self).globals == old(self).globals,
            final(self).name == old(self).name,
            final(self).triple == old(self).triple,
            final(self).data_layout == old(self).data_layout,
            final(self).source_file_name == old(self).source_file_name,
    {
        let idx = self.functions.len();
        self.functions.push(FunctionDecl { name: name.to_owned(), ty, body: None });
        Function { idx }
    }

    /// Looks up a function by symbol name. Returns the handle of the
    /// (unique) function with that name, or nothing.
    pub fn get_named_function(&self, name: &str) -> (r: Option<Function>)
        ensures
            match r {
                Some(f) => f.idx < self.functions@.len() && self.functions@[f.idx as int].name@
                    == name@,
                None => !self.has_function_named(name@),
            },
    {
        let query: String = name.to_owned();
        let n = self.functions.len();
        let mut i: usize = 0;
        while i < n
            invariant
                i <= n,
                n == self.functions@.len(),
                query@ == name@,
                forall|j: int| 0 <= j < i ==> self.functions@[j].name@ != name@,
            decreases n - i,
        {
            if self.functions[i].name == query {
                return Some(Function { idx: i });
            }
            i = i + 1;
        }
        None
    }

    /// Declares a function, memoized by symbol name.
    ///
    /// If no function has this name yet, one is added with an empty body.
    /// If one does and its type agrees, its handle is returned and the
    /// module is left unchanged, so declaring the same name twice returns
    /// the identical handle both times and never emits a duplicate symbol.
    /// If one does and its type differs, that is a fatal inconsistency in
    /// the caller and the module is left unchanged.
    pub fn declare_function(&mut self, name: &str, ty: FunctionType) -> (r: Result<
        Function,
        TranslateError,
    >)
        requires
            old(self).wf(),
        ensures
            final(self).wf(),
            match r {
                Ok(f) => {
                    &&& f.idx < final(self).functions@.len()
                    &&& final(self).functions@[f.idx as int].name@ == name@
                    &&& fnty_eq(final(self).functions@[f.idx as int].ty, ty)
                    &&& if old(self).has_function_named(name@) {
                        *final(self) == *old(self)
                    } else {
                        &&& f.idx == old(self).functions@.len()
                        &&& final(self).functions@.len() == old(self).functions@.len() + 1
                        &&& forall|i: int|
                            0 <= i < old(self).functions@.len() ==> final(self).functions@[i]
                                == old(self).functions@[i]
                        &&& final(self).functions@[f.idx as int].ty == ty
                        &&& final(self).functions@[f.idx as int].body is None
                        &&& final(self).globals == old(self).globals
                        &&& final(self).name == old(self).name
                        &&& final(self).triple == old(self).triple
                        &&& final(self).data_layout == old(self).data_layout
                        &&& final(self).source_file_name == old(self).source_file_name
                    }
                },
                Err(e) => {
                    &&& e == TranslateError::InconsistentRedeclaration
                    &&& *final(self) == *old(self)
                    &&& old(self).has_function_named(name@)
                    &&& exists|i: int|
                        0 <= i < old(self).functions@.len() && old(self).functions@[i].name@
                            == name@ && !fnty_eq(old(self).functions@[i].ty, ty)
                },
            },
    {
        match self.get_named_function(name) {
            Some(f) => {
                if self.functions[f.idx].ty.eq_fnty(&ty) {
                    Ok(f)
                } else {
                    Err(TranslateError::InconsistentRedeclaration)
                }
            },
            None => Ok(self.add_function(name, ty)),
        }
    }

    /// Looks up a global by symbol name. Returns the handle of the (unique)
    /// global with that name, or nothing.
    pub fn get_global(&self, name: &str) -> (r: Option<Global>)
        ensures
            match r {
                Some(g) => g.idx < self.globals@.len() && self.globals@[g.idx as int].name@
                    == name@,
                None => !self.has_global_named(name@),
            },
    {
        let query: String = name.to_owned();
        let n = self.globals.len();
        let mut i: usize = 0;
        while i < n
            invariant
                i <= n,
                n == self.globals@.len(),
                query@ == name@,
                forall|j: int| 0 <= j < i ==> self.globals@[j].name@ != name@,
            decreases n - i,
        {
            if self.globals[i].name == query {
                return Some(Global { idx: i });
            }
            i = i + 1;
        }
        None
    }

    /// Adds a global of the given value type under a name that no global of
    /// the module has yet, its initializer still pending.
    pub fn add_global(&mut self, ty: Type, name: &str) -> (r: Global)
        requires
            old(self).wf(),
            !old(self).has_global_named(name@),
        ensures
            final(self).wf(),
            final(self).globals@.len() == old(self).globals@.len() + 1,
            forall|i: int|
                0 <= i < old(self).globals@.len() ==> final(self).globals@[i] == old(
                    self,
                ).globals@[i],
            final(self).globals@[old(self).globals@.len() as int].name@ == name@,
            final(self).globals@[old(self).globals@.len() as int].ty == ty,
            final(self).globals@[old(self).globals@.len() as int].init is None,
            r.idx == old(self).globals@.len(),
            final(self).has_global_named(name@),
            final(self).functions == old(self).functions,
            final(self).name == old(self).name,
            final(self).triple == old(self).triple,
            final(self).data_layout == old(self).data_layout,
            final(self).source_file_name == old(self).source_file_name,
    {
        let idx = self.globals.len();
        self.globals.push(GlobalData { name: name.to_owned(), ty, init: None });
        Global { idx }
    }

    /// Declares a global, memoized by symbol name, as `declare_function`
    /// does for functions: an existing global of an agreeing type is
    /// returned unchanged; one of a different type is a fatal inconsistency.
    pub fn get_or_add_global(&mut self, name: &str, ty: Type) -> (r: Result<
        Global,
        TranslateError,
    >)
        requires
            old(self).wf(),
        ensures
            final(self).wf(),
            match r {
                Ok(g) => {
                    &&& g.idx < final(self).globals@.len()
                    &&& final(self).globals@[g.idx as int].name@ == name@
                    &&& final(self).globals@[g.idx as int].ty == ty
                    &&& if old(self).has_global_named(name@) {
                        *final(self) == *old(self)
                    } else {
                        &&& g.idx == old(self).globals@.len()
                        &&& final(self).globals@.len() == old(self).globals@.len() + 1
                        &&& forall|i: int|
                            0 <= i < old(self).globals@.len() ==> final(self).globals@[i] == old(
                                self,
                            ).globals@[i]
                        &&& final(self).globals@[g.idx as int].init is None
                        &&& final(self).functions == old(self).functions
                        &&& final(self).name == old(self).name
                        &&& final(self).triple == old(self).triple
                        &&& final(self).data_layout == old(self).data_layout
                        &&& final(self).source_file_name == old(self).source_file_name
                    }
                },
                Err(e) => {
                    &&& e == TranslateError::InconsistentRedeclaration
                    &&& *final(self) == *old(self)
                    &&& old(self).has_global_named(name@)
                    &&& exists|i: int|
                        0 <= i < old(self).globals@.len() && old(self).globals@[i].name@ == name@
                            && old(self).globals@[i].ty != ty
                },
            },
    {
        match self.get_global(name) {
            Some(g) => {
                if self.globals[g.idx].ty.eq_type(&ty) {
                    Ok(g)
                } else {
                    Err(TranslateError::InconsistentRedeclaration)
                }
            },
            None => Ok(self.add_global(ty, name)),
        }
    }
}

/// The bounds one function body's references are checked against: its
/// blocks (and, per block, the defining instruction positions), its storage
/// slots, the function's formal parameters, and the module's function and
/// global tables.
pub open spec fn reg_defined(blk: usize, pos: usize, blocks: Seq<BlockData>) -> bool {
    blk < blocks.len() && pos < blocks[blk as int].instrs@.len()
}

/// Whether a value an instruction reads resolves: a register names a
/// defining instruction position, a parameter is one the function has, a
/// slot or global address lies in its table. Constants resolve by
/// themselves.
pub open spec fn rval_refs_ok(
    v: RVal,
    blocks: Seq<BlockData>,
    nslots: nat,
    nparams: nat,
    nglobals: nat,
) -> bool {
    match v {
        RVal::Reg { block, pos } => reg_defined(block, pos, blocks),
        RVal::Param(i) => i < nparams,
        RVal::Konst(_) => true,
        RVal::SlotAddr(i) => i < nslots,
        RVal::GlobalAddr(g) => g < nglobals,
    }
}

/// Whether a pointer an instruction loads from or stores to resolves.
pub open spec fn ptr_refs_ok(
    p: PtrVal,
    blocks: Seq<BlockData>,
    nslots: nat,
    nglobals: nat,
) -> bool {
    match p {
        PtrVal::Slot(i) => i < nslots,
        PtrVal::Reg { block, pos } => reg_defined(block, pos, blocks),
        PtrVal::Global(g) => g < nglobals,
    }
}

/// Whether one instruction's references resolve.
pub open spec fn instr_refs_ok(
    ins: Instr,
    blocks: Seq<BlockData>,
    nslots: nat,
    nparams: nat,
    nfuncs: nat,
    nglobals: nat,
) -> bool {
    match ins {
        Instr::Load { ty: _, ptr } => ptr_refs_ok(ptr, blocks, nslots, nglobals),
        Instr::Store { val, ptr } => rval_refs_ok(val, blocks, nslots, nparams, nglobals)
            && ptr_refs_ok(ptr, blocks, nslots, nglobals),
        Instr::BinOp { op: _, lhs, rhs } => rval_refs_ok(lhs, blocks, nslots, nparams, nglobals)
            && rval_refs_ok(rhs, blocks, nslots, nparams, nglobals),
        Instr::ICmp { pred: _, lhs, rhs } => rval_refs_ok(lhs, blocks, nslots, nparams, nglobals)
            && rval_refs_ok(rhs, blocks, nslots, nparams, nglobals),
        Instr::Call { callee, args_block, args_pos, nargs } => callee < nfuncs && (nargs > 0
            ==> args_block < blocks.len() && args_pos + nargs <= blocks[
            args_block as int
        ].instrs@.len()),
        Instr::ZExt { val, to_ty: _ } => rval_refs_ok(val, blocks, nslots, nparams, nglobals),
        Instr::Trunc { val, to_ty: _ } => rval_refs_ok(val, blocks, nslots, nparams, nglobals),
        Instr::BitCast { val, to_ty: _ } => rval_refs_ok(val, blocks, nslots, nparams, nglobals),
    }
}

/// Whether one terminator's references resolve.
pub open spec fn term_refs_ok(
    t: Terminator,
    blocks: Seq<BlockData>,
    nslots: nat,
    nparams: nat,
    nglobals: nat,
) -> bool {
    match t {
        Terminator::Br { dest } => dest < blocks.len(),
        Terminator::CondBr { cond, if_true, if_false } => rval_refs_ok(
            cond,
            blocks,
            nslots,
            nparams,
            nglobals,
        ) && if_true < blocks.len() && if_false < blocks.len(),
        Terminator::RetVoid => true,
        Terminator::Ret { val } => rval_refs_ok(val, blocks, nslots, nparams, nglobals),
        Terminator::RetAgg { vals_block, vals_pos, n } => n > 0 ==> vals_block < blocks.len()
            && vals_pos + n <= blocks[vals_block as int].instrs@.len(),
        Terminator::Unreachable => true,
    }
}

/// Whether one basic block's references all resolve: every value its
/// instructions and its terminator read names an existing defining
/// position, slot, parameter, function or global.
pub open spec fn block_refs_ok(
    b: BlockData,
    blocks: Seq<BlockData>,
    nslots: nat,
    nparams: nat,
    nfuncs: nat,
    nglobals: nat,
) -> bool {
    &&& forall|i: int|
        0 <= i < b.instrs@.len() ==> instr_refs_ok(
            #[trigger] b.instrs@[i],
            blocks,
            nslots,
            nparams,
            nfuncs,
            nglobals,
        )
    &&& term_refs_ok(b.term, blocks, nslots, nparams, nglobals)
}

/// Whether every reference in every attached function body resolves: what
/// the module-level verifier checks before the module is handed on for
/// emission. (That every block ends in exactly one terminator holds by
/// construction: a block carries exactly one.)
pub open spec fn module_verified(m: Module) -> bool {
    &&& m.wf()
    &&& forall|f: int|
        0 <= f < m.functions@.len() ==> function_verified(
            #[trigger] m.functions@[f],
            m.functions@.len() as nat,
            m.globals@.len() as nat,
        )
}

impl Module {
    /// Checks that the module is ready to be handed on: names are unique
    /// and every reference of every lowered body — registers, slots,
    /// parameters, branch targets, call targets and globals — resolves.
    #[verifier::loop_isolation(false)]
    pub fn verify(&self) -> (r: bool)
        requires
            self.wf(),
        ensures
            r == module_verified(*self),
    {
        let nfuncs = self.functions.len();
        let nglobals = self.globals.len();
        let mut f: usize = 0;
        while f < nfuncs
            invariant
                f <= nfuncs,
                forall|ff: int|
                    0 <= ff < f ==> function_verified(
                        #[trigger] self.functions@[ff],
                        self.functions@.len() as nat,
                        self.globals@.len() as nat,
                    ),
            decreases nfuncs - f,
        {
            let fun = Function { idx: f };
            if !fun.verify(self) {
                return false;
            }
            f = f + 1;
        }
        true
    }

    /// Checks one block's references (see `block_refs_ok`).
    #[verifier::loop_isolation(false)]
    fn check_block(
        blocks: &Vec<BlockData>,
        bidx: usize,
        nslots: usize,
        nparams: usize,
        nfuncs: usize,
        nglobals: usize,
    ) -> (r: bool)
        requires
            bidx < blocks@.len(),
        ensures
            r == block_refs_ok(
                blocks@[bidx as int],
                blocks@,
                nslots as nat,
                nparams as nat,
                nfuncs as nat,
                nglobals as nat,
            ),
    {
        let b = &blocks[bidx];
        let n = b.instrs.len();
        let mut i: usize = 0;
        while i < n
            invariant
                i <= n,
                forall|j: int|
                    0 <= j < i ==> instr_refs_ok(
                        #[trigger] b.instrs@[j],
                        blocks@,
                        nslots as nat,
                        nparams as nat,
                        nfuncs as nat,
                        nglobals as nat,
                    ),
            decreases n - i,
        {
            let ok = match &b.instrs[i] {
                Instr::Load { ty: _, ptr } => Self::check_ptr(ptr, blocks, nslots, nglobals),
                Instr::Store { val, ptr } => Self::check_rval(val, blocks, nslots, nparams, nglobals)
                    && Self::check_ptr(ptr, blocks, nslots, nglobals),
                Instr::BinOp { op: _, lhs, rhs } => Self::check_rval(
                    lhs,
                    blocks,
                    nslots,
                    nparams,
                    nglobals,
                ) && Self::check_rval(rhs, blocks, nslots, nparams, nglobals),
                Instr::ICmp { pred: _, lhs, rhs } => Self::check_rval(
                    lhs,
                    blocks,
                    nslots,
                    nparams,
                    nglobals,
                ) && Self::check_rval(rhs, blocks, nslots, nparams, nglobals),
                Instr::Call { callee, args_block, args_pos, nargs } => *callee < nfuncs && (*nargs
                    == 0 || (*args_block < blocks.len() && *args_pos <= blocks[
                    *args_block
                ].instrs.len() && *nargs <= blocks[*args_block].instrs.len() - *args_pos)),
                Instr::ZExt { val, to_ty: _ } => Self::check_rval(
                    val,
                    blocks,
                    nslots,
                    nparams,
                    nglobals,
                ),
                Instr::Trunc { val, to_ty: _ } => Self::check_rval(
                    val,
                    blocks,
                    nslots,
                    nparams,
                    nglobals,
                ),
                Instr::BitCast { val, to_ty: _ } => Self::check_rval(
                    val,
                    blocks,
                    nslots,
                    nparams,
                    nglobals,
                ),
            };
            if !ok {
                return false;
            }
            i = i + 1;
        }
        match &b.term {
            Terminator::Br { dest } => *dest < blocks.len(),
            Terminator::CondBr { cond, if_true, if_false } => Self::check_rval(
                cond,
                blocks,
                nslots,
                nparams,
                nglobals,
            ) && *if_true < blocks.len() && *if_false < blocks.len(),
            Terminator::RetVoid => true,
            Terminator::Ret { val } => Self::check_rval(val, blocks, nslots, nparams, nglobals),
            Terminator::RetAgg { vals_block, vals_pos, n } => *n == 0 || (*vals_block
                < blocks.len() && *vals_pos <= blocks[*vals_block].instrs.len() && *n <= blocks[
                *vals_block
            ].instrs.len() - *vals_pos),
            Terminator::Unreachable => true,
        }
    }

    /// Checks one value reference (see `rval_refs_ok`).
    fn check_rval(
        v: &RVal,
        blocks: &Vec<BlockData>,
        nslots: usize,
        nparams: usize,
        nglobals: usize,
    ) -> (r: bool)
        ensures
            r == rval_refs_ok(*v, blocks@, nslots as nat, nparams as nat, nglobals as nat),
    {
        match v {
            RVal::Reg { block, pos } => *block < blocks.len() && *pos < blocks[*block].instrs.len(),
            RVal::Param(i) => *i < nparams,
            RVal::Konst(_) => true,
            RVal::SlotAddr(i) => *i < nslots,
            RVal::GlobalAddr(g) => *g < nglobals,
        }
    }

    /// Checks one pointer reference (see `ptr_refs_ok`).
    fn check_ptr(p: &PtrVal, blocks: &Vec<BlockData>, nslots: usize, nglobals: usize) -> (r: bool)
        ensures
            r == ptr_refs_ok(*p, blocks@, nslots as nat, nglobals as nat),
    {
        match p {
            PtrVal::Slot(i) => *i < nslots,
            PtrVal::Reg { block, pos } => *block < blocks.len() && *pos < blocks[*block].instrs.len(),
            PtrVal::Global(g) => *g < nglobals,
        }
    }
}

impl Context {
    /// Creates an empty module associated with this context.
    pub fn create_module(&self, name: &str) -> (r: Module)
        ensures
            r.name@ == name@,
            r.functions@.len() == 0,
            r.globals@.len() == 0,
            r.triple@ == Seq::<char>::empty(),
            r.data_layout@ == Seq::<char>::empty(),
            r.source_file_name@ == Seq::<char>::empty(),
            r.wf(),
    {
        Module {
            name: name.to_owned(),
            triple: String::new(),
            data_layout: String::new(),
            source_file_name: String::new(),
            functions: Vec::new(),
            globals: Vec::new(),
        }
    }
}

impl Global {
    /// The address of this global, as a constant.
    pub fn ptr(&self) -> (r: Constant)
        ensures
            r == Constant::GlobalPtr(self.idx),
    {
        Constant::GlobalPtr(self.idx)
    }

    /// Sets the constant initializer of this (until now only declared)
    /// global. An initializer is set exactly once.
    pub fn set_initializer(&self, m: &mut Module, v: Constant)
        requires
            old(m).wf(),
            self.idx < old(m).globals@.len(),
            old(m).globals@[self.idx as int].init is None,
        ensures
            final(m).wf(),
            final(m).globals@.len() == old(m).globals@.len(),
            forall|i: int|
                0 <= i < old(m).globals@.len() && i != self.idx ==> final(m).globals@[i] == old(
                    m,
                ).globals@[i],
            final(m).globals@[self.idx as int].name == old(m).globals@[self.idx as int].name,
            final(m).globals@[self.idx as int].ty == old(m).globals@[self.idx as int].ty,
            (final(m).globals@[self.idx as int].init matches Some(c) && c == v),
            final(m).functions == old(m).functions,
            final(m).name == old(m).name,
            final(m).triple == old(m).triple,
            final(m).data_layout == old(m).data_layout,
            final(m).source_file_name == old(m).source_file_name,
    {
        m.globals[self.idx].init = Some(v);
    }
}

/// Whether every reference of one function's body (if it has one)
/// resolves within the function's own blocks, slots and parameters and the
/// module's function and global tables.
pub open spec fn function_verified(fd: FunctionDecl, nfuncs: nat, nglobals: nat) -> bool {
    fd.body matches Some(body) ==> forall|b: int|
        0 <= b < body.blocks@.len() ==> block_refs_ok(
            #[trigger] body.blocks@[b],
            body.blocks@,
            body.slots@.len(),
            fd.ty.parameter_types@.len(),
            nfuncs,
            nglobals,
        )
}

impl Function {
    /// Checks that every reference of this function's body (if attached)
    /// resolves, as the module-level verifier does for every function.
    #[verifier::loop_isolation(false)]
    pub fn verify(&self, m: &Module) -> (r: bool)
        requires
            self.idx < m.functions@.len(),
        ensures
            r == function_verified(
                m.functions@[self.idx as int],
                m.functions@.len() as nat,
                m.globals@.len() as nat,
            ),
    {
        let nfuncs = m.functions.len();
        let nglobals = m.globals.len();
        let nparams = m.functions[self.idx].ty.parameter_types.len();
        match &m.functions[self.idx].body {
            None => true,
            Some(body) => {
                let nblocks = body.blocks.len();
                let nslots = body.slots.len();
                let mut b: usize = 0;
                while b < nblocks
                    invariant
                        b <= nblocks,
                        forall|bb: int|
                            0 <= bb < b ==> block_refs_ok(
                                #[trigger] body.blocks@[bb],
                                body.blocks@,
                                body.slots@.len(),
                                m.functions@[self.idx as int].ty.parameter_types@.len(),
                                m.functions@.len() as nat,
                                m.globals@.len() as nat,
                            ),
                    decreases nblocks - b,
                {
                    if !Module::check_block(&body.blocks, b, nslots, nparams, nfuncs, nglobals) {
                        return false;
                    }
                    b = b + 1;
                }
                true
            },
        }
    }

    /// The IR type of this function in the given module.
    pub fn llvm_type<'a>(&self, m: &'a Module) -> (r: &'a FunctionType)
        requires
            self.idx < m.functions@.len(),
        ensures
            *r == m.functions@[self.idx as int].ty,
    {
        &m.functions[self.idx].ty
    }

    /// Attaches the lowered body to this (until now bodiless) function.
    /// A body is attached exactly once.
    pub fn attach_body(&self, m: &mut Module, body: FunctionBody)
        requires
            old(m).wf(),
            self.idx < old(m).functions@.len(),
            old(m).functions@[self.idx as int].body is None,
        ensures
            final(m).wf(),
            final(m).functions@.len() == old(m).functions@.len(),
            forall|i: int|
                0 <= i < old(m).functions@.len() && i != self.idx ==> final(m).functions@[i]
                    == old(m).functions@[i],
            final(m).functions@[self.idx as int].name == old(m).functions@[self.idx as int].name,
            final(m).functions@[self.idx as int].ty == old(m).functions@[self.idx as int].ty,
            (final(m).functions@[self.idx as int].body matches Some(b) && b == body),
            final(m).globals == old(m).globals,
            final(m).name == old(m).name,
            final(m).triple == old(m).triple,
            final(m).data_layout == old(m).data_layout,
            final(m).source_file_name == old(m).source_file_name,
    {
        m.functions[self.idx].body = Some(body);
    }
}

} // verus!
