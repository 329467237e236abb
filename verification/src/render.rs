//! Rendering a module as textual IR.
//!
//! This is the compute half of writing a module to disk: it turns the IR
//! data into the textual form; the caller owns the file handling. All of
//! it is presentation: the disassembler options choose what is shown and
//! how verbose the text is, and never change the module. Register, slot
//! and block names are derived from positions (`%b1_2`, `%s0`, `bb3`);
//! symbol names are the module's own.

use vstd::prelude::*;

use crate::context::Context;
use crate::ir::{Constant, Instr, Opcode, Predicate, PtrVal, RVal, Terminator, Type};
use crate::module::Module;
use crate::module_builder::MoveBPFModule;
use crate::options::DisassemblerOptions;

verus! {

broadcast use vstd::std_specs::vec::axiom_vec_index_decreases;

/// The text `b` extends the text `a`: `a` is a prefix of `b`. Every
/// rendering step only appends, so whatever was rendered stays rendered.
pub open spec fn appends_to(a: Seq<char>, b: Seq<char>) -> bool {
    b.len() >= a.len() && forall|j: int| 0 <= j < a.len() ==> b[j] == a[j]
}

/// The decimal digits of `v`, most significant first.
pub open spec fn dec_chars(v: nat) -> Seq<char>
    decreases v,
{
    if v < 10 {
        seq![digit_char(v)]
    } else {
        dec_chars(v / 10).push(digit_char(v % 10))
    }
}

/// The character of one decimal digit.
pub open spec fn digit_char(d: nat) -> char {
    if d == 0 {
        '0'
    } else if d == 1 {
        '1'
    } else if d == 2 {
        '2'
    } else if d == 3 {
        '3'
    } else if d == 4 {
        '4'
    } else if d == 5 {
        '5'
    } else if d == 6 {
        '6'
    } else if d == 7 {
        '7'
    } else if d == 8 {
        '8'
    } else {
        '9'
    }
}

/// One decimal digit, as text.
fn digit_str(d: u128) -> (r: &'static str)
    requires
        d < 10,
    ensures
        r@ == seq![digit_char(d as nat)],
{
    let r = if d == 0 {
        "0"
    } else if d == 1 {
        "1"
    } else if d == 2 {
        "2"
    } else if d == 3 {
        "3"
    } else if d == 4 {
        "4"
    } else if d == 5 {
        "5"
    } else if d == 6 {
        "6"
    } else if d == 7 {
        "7"
    } else if d == 8 {
        "8"
    } else {
        "9"
    };
    proof {
        reveal_strlit("0");
        reveal_strlit("1");
        reveal_strlit("2");
        reveal_strlit("3");
        reveal_strlit("4");
        reveal_strlit("5");
        reveal_strlit("6");
        reveal_strlit("7");
        reveal_strlit("8");
        reveal_strlit("9");
    }
    r
}

/// Appends the decimal rendering of `v` to `out`.
pub fn push_u128(out: &mut String, v: u128)
    ensures
        final(out)@ == old(out)@ + dec_chars(v as nat),
    decreases v,
{
    if v < 10 {
        out.append(digit_str(v));
    } else {
        push_u128(out, v / 10);
        out.append(digit_str(v % 10));
    }
}

/// Appends the decimal rendering of `v` to `out`.
pub fn push_usize(out: &mut String, v: usize)
    ensures
        final(out)@ == old(out)@ + dec_chars(v as nat),
{
    push_u128(out, v as u128);
}

/// Appends the decimal rendering of `v` to `out`.
pub fn push_u64(out: &mut String, v: u64)
    ensures
        final(out)@ == old(out)@ + dec_chars(v as nat),
{
    push_u128(out, v as u128);
}

/// Appends the rendering of an IR type: integer types by width, every
/// pointer as the opaque `ptr`, a named struct type by its name, an
/// anonymous struct or array structurally.
fn push_type(out: &mut String, t: &Type, cx: &Context)
    ensures
        appends_to(old(out)@, final(out)@),
    decreases t,
{
    match t {
        Type::Void => out.append("void"),
        Type::Int1 => out.append("i1"),
        Type::Int8 => out.append("i8"),
        Type::Int32 => out.append("i32"),
        Type::Int64 => out.append("i64"),
        Type::Int128 => out.append("i128"),
        Type::Ptr(_) => out.append("ptr"),
        Type::Struct(id) => {
            out.append("%");
            if *id < cx.struct_types.len() {
                out.append(cx.struct_types[*id].name.as_str());
            } else {
                out.append("?");
            }
        },
        Type::Anon(fields) => {
            out.append("{ ");
            push_type_list(out, fields, cx, true);
            out.append(" }");
        },
        Type::Array(el, n) => {
            out.append("[");
            push_usize(out, *n);
            out.append(" x ");
            push_type(out, el, cx);
            out.append("]");
        },
    }
}

/// Appends a comma-separated list of the types of a type list.
fn push_type_list(out: &mut String, l: &crate::ir::TypeList, cx: &Context, first: bool)
    ensures
        appends_to(old(out)@, final(out)@),
    decreases l,
{
    match l {
        crate::ir::TypeList::Nil => {},
        crate::ir::TypeList::Cons(t, rest) => {
            if !first {
                out.append(", ");
            }
            push_type(out, t, cx);
            push_type_list(out, rest, cx, false);
        },
    }
}

/// Appends the name of the register defined at block `block`, position
/// `pos`.
fn push_reg(out: &mut String, block: usize, pos: usize)
    ensures
        appends_to(old(out)@, final(out)@),
{
    out.append("%b");
    push_usize(out, block);
    out.append("_");
    push_usize(out, pos);
}

/// Appends the rendering of a constant.
#[verifier::loop_isolation(false)]
fn push_const(out: &mut String, c: &Constant, m: &Module, cx: &Context)
    ensures
        appends_to(old(out)@, final(out)@),
    decreases c,
{
    match c {
        Constant::Int { ty: _, value } => push_u64(out, *value),
        Constant::Int128 { ty: _, value } => push_u128(out, *value),
        Constant::Struct(fields) => {
            out.append("{ ");
            let n = fields.len();
            let mut i: usize = 0;
            while i < n
                invariant
                    n == fields@.len(),
                    appends_to(old(out)@, out@),
                decreases n - i,
            {
                if i > 0 {
                    out.append(", ");
                }
                push_const(out, &fields[i], m, cx);
                i = i + 1;
            }
            out.append(" }");
        },
        Constant::Str { chars } => {
            out.append("c\"");
            out.append(chars.as_str());
            out.append("\"");
        },
        Constant::GlobalPtr(gi) => {
            out.append("@");
            if *gi < m.globals.len() {
                out.append(m.globals[*gi].name.as_str());
            } else {
                out.append("?");
            }
        },
        Constant::NullPtr(_) => out.append("null"),
    }
}

/// Appends the rendering of a value an instruction reads.
fn push_rval(out: &mut String, v: &RVal, m: &Module, cx: &Context)
    ensures
        appends_to(old(out)@, final(out)@),
{
    match v {
        RVal::Reg { block, pos } => push_reg(out, *block, *pos),
        RVal::Param(i) => {
            out.append("%p");
            push_usize(out, *i);
        },
        RVal::Konst(c) => push_const(out, c, m, cx),
        RVal::SlotAddr(i) => {
            out.append("%s");
            push_usize(out, *i);
        },
        RVal::GlobalAddr(gi) => {
            out.append("@");
            if *gi < m.globals.len() {
                out.append(m.globals[*gi].name.as_str());
            } else {
                out.append("?");
            }
        },
    }
}

/// Appends the rendering of a pointer an instruction loads from or stores
/// to.
fn push_ptr(out: &mut String, p: &PtrVal, m: &Module)
    ensures
        appends_to(old(out)@, final(out)@),
{
    match p {
        PtrVal::Slot(i) => {
            out.append("%s");
            push_usize(out, *i);
        },
        PtrVal::Reg { block, pos } => push_reg(out, *block, *pos),
        PtrVal::Global(gi) => {
            out.append("@");
            if *gi < m.globals.len() {
                out.append(m.globals[*gi].name.as_str());
            } else {
                out.append("?");
            }
        },
    }
}

/// The mnemonic of a binary operation.
fn opcode_str(op: &Opcode) -> &'static str {
    match op {
        Opcode::Add => "add",
        Opcode::Sub => "sub",
        Opcode::Mul => "mul",
        Opcode::UDiv => "udiv",
        Opcode::URem => "urem",
        Opcode::And => "and",
        Opcode::Or => "or",
        Opcode::Xor => "xor",
    }
}

/// The mnemonic of a comparison predicate.
fn predicate_str(p: &Predicate) -> &'static str {
    match p {
        Predicate::Eq => "eq",
        Predicate::Ne => "ne",
        Predicate::ULt => "ult",
        Predicate::ULe => "ule",
        Predicate::UGt => "ugt",
        Predicate::UGe => "uge",
    }
}

/// Appends one rendered instruction line.
#[verifier::loop_isolation(false)]
fn push_instr(out: &mut String, ins: &Instr, block: usize, pos: usize, m: &Module, cx: &Context)
    ensures
        appends_to(old(out)@, final(out)@),
{
    out.append("  ");
    match ins {
        Instr::Load { ty, ptr } => {
            push_reg(out, block, pos);
            out.append(" = load ");
            push_type(out, ty, cx);
            out.append(", ptr ");
            push_ptr(out, ptr, m);
        },
        Instr::Store { val, ptr } => {
            out.append("store ");
            push_rval(out, val, m, cx);
            out.append(", ptr ");
            push_ptr(out, ptr, m);
        },
        Instr::BinOp { op, lhs, rhs } => {
            push_reg(out, block, pos);
            out.append(" = ");
            out.append(opcode_str(op));
            out.append(" ");
            push_rval(out, lhs, m, cx);
            out.append(", ");
            push_rval(out, rhs, m, cx);
        },
        Instr::ICmp { pred, lhs, rhs } => {
            push_reg(out, block, pos);
            out.append(" = icmp ");
            out.append(predicate_str(pred));
            out.append(" ");
            push_rval(out, lhs, m, cx);
            out.append(", ");
            push_rval(out, rhs, m, cx);
        },
        Instr::Call { callee, args_block, args_pos, nargs } => {
            push_reg(out, block, pos);
            out.append(" = call @");
            if *callee < m.functions.len() {
                out.append(m.functions[*callee].name.as_str());
            } else {
                out.append("?");
            }
            out.append("(");
            let mut k: usize = 0;
            while k < *nargs
                invariant
                    appends_to(old(out)@, out@),
                decreases *nargs - k,
            {
                if k > 0 {
                    out.append(", ");
                }
                let p = (*args_pos as u128) + (k as u128);
                out.append("%b");
                push_usize(out, *args_block);
                out.append("_");
                push_u128(out, p);
                k = k + 1;
            }
            out.append(")");
        },
        Instr::ZExt { val, to_ty } => {
            push_reg(out, block, pos);
            out.append(" = zext ");
            push_rval(out, val, m, cx);
            out.append(" to ");
            push_type(out, to_ty, cx);
        },
        Instr::Trunc { val, to_ty } => {
            push_reg(out, block, pos);
            out.append(" = trunc ");
            push_rval(out, val, m, cx);
            out.append(" to ");
            push_type(out, to_ty, cx);
        },
        Instr::BitCast { val, to_ty } => {
            push_reg(out, block, pos);
            out.append(" = bitcast ");
            push_rval(out, val, m, cx);
            out.append(" to ");
            push_type(out, to_ty, cx);
        },
    }
    out.append("\n");
}

/// Appends one rendered terminator line.
#[verifier::loop_isolation(false)]
fn push_term(out: &mut String, t: &Terminator, m: &Module, cx: &Context)
    ensures
        appends_to(old(out)@, final(out)@),
{
    out.append("  ");
    match t {
        Terminator::Br { dest } => {
            out.append("br label %bb");
            push_usize(out, *dest);
        },
        Terminator::CondBr { cond, if_true, if_false } => {
            out.append("br i1 ");
            push_rval(out, cond, m, cx);
            out.append(", label %bb");
            push_usize(out, *if_true);
            out.append(", label %bb");
            push_usize(out, *if_false);
        },
        Terminator::RetVoid => out.append("ret void"),
        Terminator::Ret { val } => {
            out.append("ret ");
            push_rval(out, val, m, cx);
        },
        Terminator::RetAgg { vals_block, vals_pos, n } => {
            out.append("ret { ");
            let mut k: usize = 0;
            while k < *n
                invariant
                    appends_to(old(out)@, out@),
                decreases *n - k,
            {
                if k > 0 {
                    out.append(", ");
                }
                let p = (*vals_pos as u128) + (k as u128);
                out.append("%b");
                push_usize(out, *vals_block);
                out.append("_");
                push_u128(out, p);
                k = k + 1;
            }
            out.append(" }");
        },
        Terminator::Unreachable => out.append("unreachable"),
    }
    out.append("\n");
}

/// The fixed head of the rendered text: the module's name, its source file
/// name and its target triple, each on its line.
pub open spec fn module_header_chars(m: Module) -> Seq<char> {
    "; ModuleID = '"@ + m.name@ + "'\nsource_filename = \""@ + m.source_file_name@
        + "\"\ntarget triple = \""@ + m.triple@ + "\"\n"@
}

/// Renders a whole compilation unit as textual IR. Presentation only: the
/// options choose whether private functions, instruction lines, block
/// labels and local slots are shown, and never change the module itself.
/// The text begins with the module header; then, per rendered item, the
/// body emits one type line per named struct type, one line per global,
/// one `define` per rendered function, one label per basic block, one line
/// per instruction and one terminator line per block.
#[verifier::loop_isolation(false)]
pub fn print_module_to_string(
    mm: &MoveBPFModule,
    visibility: &Vec<bool>,
    opts: &DisassemblerOptions,
) -> (r: String)
    requires
        mm.wf(),
    ensures
        r@.len() >= module_header_chars(mm.module).len(),
        r@.subrange(0, module_header_chars(mm.module).len() as int) == module_header_chars(
            mm.module,
        ),
{
    let m = &mm.module;
    let cx = &mm.context;
    let mut out: String = String::new();
    out.append("; ModuleID = '");
    out.append(m.name.as_str());
    out.append("'\nsource_filename = \"");
    out.append(m.source_file_name.as_str());
    out.append("\"\ntarget triple = \"");
    out.append(m.triple.as_str());
    out.append("\"\n");
    proof {
        assert(out@ =~= module_header_chars(mm.module));
    }
    if !m.data_layout.as_str().is_empty() {
        out.append("target datalayout = \"");
        out.append(m.data_layout.as_str());
        out.append("\"\n");
    }
    out.append("\n");

    let nst = cx.struct_types.len();
    let mut i: usize = 0;
    while i < nst
        invariant
            nst == cx.struct_types@.len(),
            appends_to(module_header_chars(mm.module), out@),
        decreases nst - i,
    {
        out.append("%");
        out.append(cx.struct_types[i].name.as_str());
        out.append(" = type ");
        match &cx.struct_types[i].body {
            None => out.append("opaque"),
            Some(fields) => {
                out.append("{ ");
                let nf = fields.len();
                let mut k: usize = 0;
                while k < nf
                    invariant
                        nf == fields@.len(),
                        appends_to(module_header_chars(mm.module), out@),
                    decreases nf - k,
                {
                    if k > 0 {
                        out.append(", ");
                    }
                    push_type(&mut out, &fields[k], cx);
                    k = k + 1;
                }
                out.append(" }");
            },
        }
        out.append("\n");
        i = i + 1;
    }

    let ng = m.globals.len();
    let mut i: usize = 0;
    while i < ng
        invariant
            ng == m.globals@.len(),
            appends_to(module_header_chars(mm.module), out@),
        decreases ng - i,
    {
        out.append("@");
        out.append(m.globals[i].name.as_str());
        out.append(" = global ");
        push_type(&mut out, &m.globals[i].ty, cx);
        match &m.globals[i].init {
            None => out.append(" zeroinitializer"),
            Some(c) => {
                out.append(" ");
                push_const(&mut out, c, m, cx);
            },
        }
        out.append("\n");
        i = i + 1;
    }

    let nf = m.functions.len();
    let mut f: usize = 0;
    while f < nf
        invariant
            nf == m.functions@.len(),
            appends_to(module_header_chars(mm.module), out@),
        decreases nf - f,
    {
        let is_public = if f < visibility.len() {
            visibility[f]
        } else {
            true
        };
        if !opts.only_externally_visible || is_public {
            let fd = &m.functions[f];
            out.append("\ndefine ");
            push_type(&mut out, &fd.ty.return_type, cx);
            out.append(" @");
            out.append(fd.name.as_str());
            out.append("(");
            let np = fd.ty.parameter_types.len();
            let mut k: usize = 0;
            while k < np
                invariant
                    np == fd.ty.parameter_types@.len(),
                    appends_to(module_header_chars(mm.module), out@),
                decreases np - k,
            {
                if k > 0 {
                    out.append(", ");
                }
                push_type(&mut out, &fd.ty.parameter_types[k], cx);
                out.append(" %p");
                push_usize(&mut out, k);
                k = k + 1;
            }
            out.append(")");
            match &fd.body {
                None => out.append("\n"),
                Some(body) => {
                    out.append(" {\n");
                    if opts.print_locals {
                        let nslots = body.slots.len();
                        let mut s: usize = 0;
                        while s < nslots
                            invariant
                                nslots == body.slots@.len(),
                                appends_to(module_header_chars(mm.module), out@),
                            decreases nslots - s,
                        {
                            out.append("  %s");
                            push_usize(&mut out, s);
                            out.append(" = alloca ");
                            push_type(&mut out, &body.slots[s].ty, cx);
                            out.append("\n");
                            s = s + 1;
                        }
                    }
                    if opts.print_code {
                        let nb = body.blocks.len();
                        let mut b: usize = 0;
                        while b < nb
                            invariant
                                nb == body.blocks@.len(),
                                appends_to(module_header_chars(mm.module), out@),
                            decreases nb - b,
                        {
                            if opts.print_basic_blocks {
                                if b == 0 {
                                    out.append("entry:\n");
                                } else {
                                    out.append("bb");
                                    push_usize(&mut out, b);
                                    out.append(":\n");
                                }
                            }
                            let blk = &body.blocks[b];
                            let ni = blk.instrs.len();
                            let mut p: usize = 0;
                            while p < ni
                                invariant
                                    ni == blk.instrs@.len(),
                                    appends_to(module_header_chars(mm.module), out@),
                                decreases ni - p,
                            {
                                push_instr(&mut out, &blk.instrs[p], b, p, m, cx);
                                p = p + 1;
                            }
                            push_term(&mut out, &blk.term, m, cx);
                            b = b + 1;
                        }
                    }
                    out.append("}\n");
                },
            }
        }
        f = f + 1;
    }
    proof {
        assert(out@.subrange(0, module_header_chars(mm.module).len() as int) =~= module_header_chars(
            mm.module,
        ));
    }
    out
}

} // verus!
