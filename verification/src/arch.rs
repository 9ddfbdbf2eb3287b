//! CUDA target architectures.

use vstd::prelude::*;

verus! {

/// A concrete CUDA target, by what the toolkit's parser reports of it.
///
/// Two spellings of one target (`sm_86` and `compute_86`) give the same
/// `CudaArch`: both names are recorded in their normalized form.
#[derive(Debug, PartialEq, Eq)]
pub struct CudaArch {
    /// The target's name for nvJitLink, such as `sm_90a`.
    pub sm: String,
    /// The target's name for libNVVM, such as `compute_90a`.
    pub compute: String,
    /// The numeric architecture, such as 90.
    pub capability: u32,
    /// The architecture suffix, such as `a`, if the target has one.
    pub suffix: Option<char>,
    /// Whether libNVVM reads this target's IR in its LLVM 7 dialect.
    pub legacy_llvm: bool,
}

/// What a [`CudaArch`] holds, as mathematical values.
pub struct ArchView {
    pub sm: Seq<char>,
    pub compute: Seq<char>,
    pub capability: u32,
    pub suffix: Option<char>,
    pub legacy_llvm: bool,
}

impl View for CudaArch {
    type V = ArchView;

    open spec fn view(&self) -> ArchView {
        ArchView {
            sm: self.sm@,
            compute: self.compute@,
            capability: self.capability,
            suffix: self.suffix,
            legacy_llvm: self.legacy_llvm,
        }
    }
}

fn same_suffix(a: Option<char>, b: Option<char>) -> (same: bool)
    ensures
        same == (a == b),
{
    match (a, b) {
        (None, None) => true,
        (Some(x), Some(y)) => x == y,
        _ => false,
    }
}

impl CudaArch {
    /// Whether the two are the same target.
    pub fn same_target(&self, other: &CudaArch) -> (same: bool)
        ensures
            same == (self@ == other@),
            same <==> self.sm@ == other.sm@ && self.compute@ == other.compute@ && self.capability
                == other.capability && self.suffix == other.suffix && self.legacy_llvm
                == other.legacy_llvm,
    {
        self.sm == other.sm && self.compute == other.compute && self.capability == other.capability
            && same_suffix(self.suffix, other.suffix) && self.legacy_llvm == other.legacy_llvm
    }
}

} // verus!
