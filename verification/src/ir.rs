//! The register-style IR held as plain data.
//!
//! Every handle of the native IR-construction API that the translation
//! manipulates — types, constants, virtual registers, storage slots,
//! basic blocks, terminators — is mirrored here by a value of one of this
//! module's types. A type or constant is its own structural identity, so
//! contracts can speak of IR values directly.

use vstd::prelude::*;

verus! {

/// An IR type.
///
/// Integer types are identified by bit width; a named (possibly opaque)
/// struct type is identified by its index in the owning context's table of
/// named struct types; an anonymous struct type carries its field types
/// inline, as a list, so that equal field types make equal anonymous types.
pub enum Type {
    Void,
    Int1,
    Int8,
    Int32,
    Int64,
    Int128,
    /// The pointer form of a type.
    Ptr(Box<Type>),
    /// A named struct type: an index into the context's struct-type table.
    Struct(usize),
    /// An anonymous (literal) struct type with the given fields, in order.
    Anon(Box<TypeList>),
    /// A constant-length array type.
    Array(Box<Type>, usize),
}

/// A list of IR types (the fields of an anonymous struct type).
pub enum TypeList {
    Nil,
    Cons(Type, Box<TypeList>),
}

impl TypeList {
    /// The types of this list, in order, as a sequence.
    pub open spec fn seq(self) -> Seq<Type>
        decreases self,
    {
        match self {
            TypeList::Nil => Seq::empty(),
            TypeList::Cons(t, rest) => seq![t] + rest.seq(),
        }
    }

    /// Builds a list holding the types of `v`, in order.
    pub fn from_vec(v: &Vec<Type>) -> (r: TypeList)
        ensures
            r.seq() == v@,
    {
        let mut r = TypeList::Nil;
        let mut i: usize = v.len();
        while i > 0
            invariant
                i <= v@.len(),
                r.seq() == v@.subrange(i as int, v@.len() as int),
            decreases i,
        {
            i = i - 1;
            r = TypeList::Cons(v[i].clone_type(), Box::new(r));
            assert(r.seq() =~= v@.subrange(i as int, v@.len() as int));
        }
        assert(r.seq() =~= v@);
        r
    }

    /// A structurally equal copy of this list.
    pub fn clone_list(&self) -> (r: TypeList)
        ensures
            r == *self,
        decreases self,
    {
        match self {
            TypeList::Nil => TypeList::Nil,
            TypeList::Cons(t, rest) => TypeList::Cons(t.clone_type(), Box::new(rest.clone_list())),
        }
    }

    /// Whether this list structurally equals another.
    pub fn eq_list(&self, other: &TypeList) -> (r: bool)
        ensures
            r == (*self == *other),
        decreases self,
    {
        match (self, other) {
            (TypeList::Nil, TypeList::Nil) => true,
            (TypeList::Cons(a, ar), TypeList::Cons(b, br)) => a.eq_type(b) && ar.eq_list(br),
            _ => false,
        }
    }
}

/// Two type lists with the same type sequence are the same list.
pub proof fn lemma_type_list_ext(l1: TypeList, l2: TypeList)
    requires
        l1.seq() == l2.seq(),
    ensures
        l1 == l2,
    decreases l1,
{
    match (l1, l2) {
        (TypeList::Nil, TypeList::Nil) => {},
        (TypeList::Cons(a, ar), TypeList::Cons(b, br)) => {
            assert(l1.seq()[0] == a);
            assert(l2.seq()[0] == b);
            assert(ar.seq() =~= l1.seq().subrange(1, l1.seq().len() as int));
            assert(br.seq() =~= l2.seq().subrange(1, l2.seq().len() as int));
            lemma_type_list_ext(*ar, *br);
        },
        (TypeList::Nil, TypeList::Cons(b, br)) => {
            assert(l2.seq().len() > 0);
        },
        (TypeList::Cons(a, ar), TypeList::Nil) => {
            assert(l1.seq().len() > 0);
        },
    }
}

impl Type {
    /// The pointer form of this type.
    pub fn ptr_type(&self) -> (r: Type)
        ensures
            r == Type::Ptr(Box::new(*self)),
    {
        Type::Ptr(Box::new(self.clone_type()))
    }

    /// A structurally equal copy of this type.
    pub fn clone_type(&self) -> (r: Type)
        ensures
            r == *self,
        decreases self,
    {
        match self {
            Type::Void => Type::Void,
            Type::Int1 => Type::Int1,
            Type::Int8 => Type::Int8,
            Type::Int32 => Type::Int32,
            Type::Int64 => Type::Int64,
            Type::Int128 => Type::Int128,
            Type::Ptr(t) => Type::Ptr(Box::new(t.clone_type())),
            Type::Struct(id) => Type::Struct(*id),
            Type::Anon(fields) => Type::Anon(Box::new(fields.clone_list())),
            Type::Array(t, n) => Type::Array(Box::new(t.clone_type()), *n),
        }
    }

    /// Whether this type structurally equals another.
    pub fn eq_type(&self, other: &Type) -> (r: bool)
        ensures
            r == (*self == *other),
        decreases self,
    {
        match (self, other) {
            (Type::Void, Type::Void) => true,
            (Type::Int1, Type::Int1) => true,
            (Type::Int8, Type::Int8) => true,
            (Type::Int32, Type::Int32) => true,
            (Type::Int64, Type::Int64) => true,
            (Type::Int128, Type::Int128) => true,
            (Type::Ptr(a), Type::Ptr(b)) => a.eq_type(b),
            (Type::Struct(a), Type::Struct(b)) => *a == *b,
            (Type::Anon(a), Type::Anon(b)) => a.eq_list(b),
            (Type::Array(a, n), Type::Array(b, m)) => *n == *m && a.eq_type(b),
            _ => false,
        }
    }
}

/// A structurally equal copy of a list of types.
pub fn clone_types(v: &Vec<Type>) -> (r: Vec<Type>)
    ensures
        r@ == v@,
{
    let mut r: Vec<Type> = Vec::new();
    let mut i: usize = 0;
    while i < v.len()
        invariant
            i <= v@.len(),
            r@ == v@.subrange(0, i as int),
        decreases v@.len() - i,
    {
        r.push(v[i].clone_type());
        assert(r@ =~= v@.subrange(0, i + 1 as int));
        i = i + 1;
    }
    assert(r@ =~= v@);
    r
}

/// Whether two lists of types are equal, element for element.
pub fn types_eq(a: &Vec<Type>, b: &Vec<Type>) -> (r: bool)
    ensures
        r == (a@ == b@),
{
    if a.len() != b.len() {
        assert(a@ !~= b@);
        return false;
    }
    let mut i: usize = 0;
    while i < a.len()
        invariant
            i <= a@.len(),
            a@.len() == b@.len(),
            forall|j: int| 0 <= j < i ==> a@[j] == b@[j],
        decreases a@.len() - i,
    {
        if !a[i].eq_type(&b[i]) {
            return false;
        }
        i = i + 1;
    }
    assert(a@ =~= b@);
    true
}

/// The type of an IR function: its parameter types in order, and one
/// (possibly void, possibly aggregate) return type.
pub struct FunctionType {
    pub return_type: Type,
    pub parameter_types: Vec<Type>,
}

/// Whether two function types agree: same return type and the same
/// parameter types in the same order.
pub open spec fn fnty_eq(a: FunctionType, b: FunctionType) -> bool {
    a.return_type == b.return_type && a.parameter_types@ == b.parameter_types@
}

impl FunctionType {
    /// Builds a function type from a return type and parameter types.
    pub fn new(return_type: Type, parameter_types: &Vec<Type>) -> (r: FunctionType)
        ensures
            r.return_type == return_type,
            r.parameter_types@ == parameter_types@,
    {
        FunctionType { return_type, parameter_types: clone_types(parameter_types) }
    }

    /// A copy of this function type that `fnty_eq` relates to it.
    pub fn clone_fnty(&self) -> (r: FunctionType)
        ensures
            fnty_eq(r, *self),
    {
        FunctionType {
            return_type: self.return_type.clone_type(),
            parameter_types: clone_types(&self.parameter_types),
        }
    }

    /// Whether this function type agrees with another.
    pub fn eq_fnty(&self, other: &FunctionType) -> (r: bool)
        ensures
            r == fnty_eq(*self, *other),
    {
        self.return_type.eq_type(&other.return_type) && types_eq(
            &self.parameter_types,
            &other.parameter_types,
        )
    }
}

/// An IR constant.
pub enum Constant {
    /// An integer constant of an integer type, up to 64 bits.
    Int { ty: Type, value: u64 },
    /// A 128-bit integer constant.
    Int128 { ty: Type, value: u128 },
    /// A constant struct with the given constant fields, in order.
    Struct(Vec<Constant>),
    /// A constant character array (a static string, not null-terminated).
    Str { chars: String },
    /// The address of a module global, by its index in the module's table.
    GlobalPtr(usize),
    /// The null pointer, at the given pointer type.
    NullPtr(Type),
}

impl Constant {
    /// An integer constant of the given type.
    pub fn const_int(ty: Type, v: u64) -> (r: Constant)
        ensures
            r == (Constant::Int { ty, value: v }),
    {
        Constant::Int { ty, value: v }
    }

    /// A 128-bit integer constant of the given type.
    pub fn int128(ty: Type, v: u128) -> (r: Constant)
        ensures
            r == (Constant::Int128 { ty, value: v }),
    {
        Constant::Int128 { ty, value: v }
    }
}

/// A constant character array together with its character contents
/// (what a constant-string request returns).
pub struct ArrayValue {
    pub chars: String,
}

impl ArrayValue {
    /// This array value as a constant.
    pub fn as_const(&self) -> (r: Constant)
        ensures
            (r matches Constant::Str { chars } && chars@ == self.chars@),
    {
        Constant::Str { chars: clone_string(&self.chars) }
    }

    /// The IR type of this array value: an array of 8-bit integers, one per
    /// character.
    pub fn llvm_type(&self) -> (r: Type)
        ensures
            r == Type::Array(Box::new(Type::Int8), self.chars@.len() as usize),
            self.chars@.len() <= usize::MAX,
    {
        let n = self.chars.as_str().unicode_len();
        Type::Array(Box::new(Type::Int8), n)
    }
}

/// A copy of a string with the same characters.
pub fn clone_string(s: &String) -> (r: String)
    ensures
        r@ == s@,
{
    s.as_str().to_owned()
}

/// A value an instruction reads: a virtual register, a formal parameter,
/// a constant, or the address of a storage slot or global.
pub enum RVal {
    /// The value defined by the instruction at position `pos` of the block
    /// with index `block` (registers are identified by the position of the
    /// instruction that defines them).
    Reg { block: usize, pos: usize },
    /// The value of the function's formal parameter with the given index.
    Param(usize),
    /// An inline constant.
    Konst(Constant),
    /// The address of a storage slot (slots are themselves pointers).
    SlotAddr(usize),
    /// The address of a module global.
    GlobalAddr(usize),
}

/// A handle to a storage slot of the function under construction.
#[derive(Clone, Copy, PartialEq, Eq, Structural, Debug)]
pub struct Alloca {
    pub idx: usize,
}

/// A handle to a formal parameter of the function under construction.
#[derive(Clone, Copy, PartialEq, Eq, Structural, Debug)]
pub struct Parameter {
    pub idx: usize,
}

/// A handle to a basic block of the function under construction, by its
/// index in the function's block order.
#[derive(Clone, Copy, PartialEq, Eq, Structural, Debug)]
pub struct BasicBlock {
    pub idx: usize,
}

/// A pointer an instruction loads from or stores to.
pub enum PtrVal {
    /// A storage slot of the current function.
    Slot(usize),
    /// A virtual register holding a pointer.
    Reg { block: usize, pos: usize },
    /// A module global.
    Global(usize),
}

/// A binary integer operation.
#[derive(Clone, Copy, PartialEq, Eq, Structural, Debug)]
pub enum Opcode {
    Add,
    Sub,
    Mul,
    UDiv,
    URem,
    And,
    Or,
    Xor,
}

/// An unsigned integer comparison predicate.
#[derive(Clone, Copy, PartialEq, Eq, Structural, Debug)]
pub enum Predicate {
    Eq,
    Ne,
    ULt,
    ULe,
    UGt,
    UGe,
}

/// One non-terminator IR instruction.
///
/// An instruction that defines a value defines the register identified by
/// the instruction's own position (block index, position in block).
/// Register and block names are presentation-only and are derived from
/// positions when a module is rendered, so instructions do not carry them.
pub enum Instr {
    /// Load a value of type `ty` from `ptr`.
    Load { ty: Type, ptr: PtrVal },
    /// Store `val` to `ptr`.
    Store { val: RVal, ptr: PtrVal },
    /// A binary integer operation on two operands of the same integer type.
    BinOp { op: Opcode, lhs: RVal, rhs: RVal },
    /// An integer comparison, producing a 1-bit integer.
    ICmp { pred: Predicate, lhs: RVal, rhs: RVal },
    /// Call the function with index `callee` in the module's function table,
    /// passing the `nargs` consecutive registers of block `args_block`
    /// starting at position `args_pos` (the argument loads emitted just
    /// before the call). For a non-void callee the call defines its register.
    Call { callee: usize, args_block: usize, args_pos: usize, nargs: usize },
    /// Zero-extend `val` to `to_ty`.
    ZExt { val: RVal, to_ty: Type },
    /// Truncate `val` to `to_ty`.
    Trunc { val: RVal, to_ty: Type },
    /// Reinterpret `val` as `to_ty`.
    BitCast { val: RVal, to_ty: Type },
}

/// The single terminator of a basic block.
pub enum Terminator {
    /// An unconditional branch to the block with the given index.
    Br { dest: usize },
    /// A conditional branch on a 1-bit condition.
    CondBr { cond: RVal, if_true: usize, if_false: usize },
    /// Return no value.
    RetVoid,
    /// Return one value.
    Ret { val: RVal },
    /// Return several values at once, collapsed into one aggregate: the `n`
    /// consecutive registers of block `vals_block` starting at position
    /// `vals_pos` (the loads emitted just before the return).
    RetAgg { vals_block: usize, vals_pos: usize, n: usize },
    /// The block is statically known never to be reached.
    Unreachable,
}

/// One basic block: its instructions in order, then exactly one terminator.
pub struct BlockData {
    pub instrs: Vec<Instr>,
    pub term: Terminator,
}

/// One stack-allocated storage slot of a function under translation.
/// The slot holds a value of type `ty`; the slot itself is a pointer.
pub struct SlotData {
    pub ty: Type,
}

/// The lowered body of a function: its storage slots and its basic blocks.
pub struct FunctionBody {
    pub slots: Vec<SlotData>,
    pub blocks: Vec<BlockData>,
}

} // verus!
