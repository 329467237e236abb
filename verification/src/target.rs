//! The fixed code-generation target, modeled as plain data.
//!
//! The backend registers exactly one target family. A target lookup
//! succeeds exactly for that family's triple; everything downstream of IR
//! construction (the optimizer and emitter) is outside this library.

use vstd::prelude::*;

use crate::errors::TranslateError;

verus! {

/// The target triple the backend emits for.
pub fn llvm_target_triple() -> (r: &'static str)
    ensures
        r@ == "bpfel-unknown-unknown"@,
{
    "bpfel-unknown-unknown"
}

/// The name of the backend's target: little-endian BPF.
pub fn llvm_target_name() -> (r: &'static str)
    ensures
        r@ == "bpfel"@,
{
    "bpfel"
}

/// The target features the backend asks for: no additional ones.
pub fn llvm_features() -> (r: &'static str)
    ensures
        r@ == ""@,
{
    ""
}

/// A code-generation target that a triple resolved to.
pub struct Target {
    pub triple: String,
}

/// The data layout of the one machine the backend emits for: 64-bit
/// little-endian with 64-bit pointers.
pub open spec fn spec_data_layout() -> Seq<char> {
    "e-m:e-p:64:64-i64:64-n32:64-S128"@
}

/// A configured machine of a target: what the downstream emitter consumes.
pub struct TargetMachine {
    pub triple: String,
    pub cpu: String,
    pub features: String,
}

impl TargetMachine {
    /// The data layout of this machine. The backend emits for one machine
    /// family, so the layout is the one fixed string.
    pub fn data_layout(&self) -> (r: String)
        ensures
            r@ == spec_data_layout(),
    {
        "e-m:e-p:64:64-i64:64-n32:64-S128".to_owned()
    }
}

impl Target {
    /// Resolves a target triple. Exactly the one registered target family
    /// resolves; any other triple is an error carrying the triple asked
    /// for.
    pub fn from_triple(triple: &str) -> (r: Result<Target, TranslateError>)
        ensures
            match r {
                Ok(t) => triple@ == "bpfel-unknown-unknown"@ && t.triple@ == triple@,
                Err(_) => triple@ != "bpfel-unknown-unknown"@,
            },
    {
        let known: String = llvm_target_triple().to_owned();
        let asked: String = triple.to_owned();
        if asked == known {
            Ok(Target { triple: asked })
        } else {
            Err(TranslateError::UnknownTargetTriple)
        }
    }

    /// Configures a machine of this target for the given triple, processor
    /// and feature set. Optimization is fixed to none: the backend always
    /// emits in the most literal style.
    pub fn create_target_machine(&self, triple: &str, cpu: &str, features: &str) -> (r:
        TargetMachine)
        ensures
            r.triple@ == triple@,
            r.cpu@ == cpu@,
            r.features@ == features@,
    {
        TargetMachine { triple: triple.to_owned(), cpu: cpu.to_owned(), features: features.to_owned() }
    }
}

} // verus!
