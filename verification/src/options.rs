//! The options a caller can set for disassembling a module.
//!
//! All of these are presentation-only: they control which definitions are
//! shown and how verbose the rendered artifact is, and never change the
//! semantics of the emitted code.

use vstd::prelude::*;

verus! {

/// Holds the various options that we support while disassembling code.
#[derive(Clone, Copy, PartialEq, Eq, Structural, Debug)]
pub struct DisassemblerOptions {
    /// Only print non-private functions.
    pub only_externally_visible: bool,
    /// Print the bytecode for the instructions within the function.
    pub print_code: bool,
    /// Print the basic blocks of the bytecode.
    pub print_basic_blocks: bool,
    /// Print the locals inside each function body.
    pub print_locals: bool,
}

impl DisassemblerOptions {
    /// The default disassembly options: everything but private-function
    /// filtering switched on.
    pub fn new() -> (r: DisassemblerOptions)
        ensures
            !r.only_externally_visible,
            r.print_code,
            r.print_basic_blocks,
            r.print_locals,
    {
        DisassemblerOptions {
            only_externally_visible: false,
            print_code: true,
            print_basic_blocks: true,
            print_locals: true,
        }
    }
}

} // verus!
