//! A translator from a stack-based bytecode to a register-style intermediate
//! representation (IR) for a BPF-family virtual-machine target.
//!
//! The IR under construction is held as plain data: contexts, modules,
//! functions, basic blocks, globals and constants are values of this crate's
//! own types, mirroring the handles of a native IR-construction API. The
//! translator lowers struct layouts, function signatures and stack-machine
//! instruction sequences onto that IR, and synthesizes the runtime type
//! descriptors that generated code refers to.

pub mod builder;
pub mod bytecode;
pub mod context;
pub mod errors;
pub mod ir;
pub mod lowering;
pub mod module;
pub mod module_builder;
pub mod options;
pub mod render;
pub mod rttydesc;
pub mod sigs;
pub mod target;
pub mod translate;

pub use errors::TranslateError;
