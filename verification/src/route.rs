//! Which artifact is loaded, and in which form it reaches the GPU.

use vstd::prelude::*;
use crate::arch::{ArchView, CudaArch};
use crate::error::{ErrorView, LtoirError};

verus! {

/// A kind of kernel artifact.
#[derive(Clone, Copy, Debug, PartialEq, Eq, Structural)]
pub enum FileArtifact {
    Ptx,
    NvvmIr,
    Ltoir,
    Cubin,
}

/// The artifacts that exist for a kernel.
pub struct Present {
    pub ptx: bool,
    pub nvvm_ir: bool,
    pub ltoir: bool,
    pub cubin: bool,
    pub recorded_target: bool,
}

impl Present {
    /// There is an artifact of this kind.
    pub open spec fn has(self, artifact: FileArtifact) -> bool {
        match artifact {
            FileArtifact::Ptx => self.ptx,
            FileArtifact::NvvmIr => self.nvvm_ir,
            FileArtifact::Ltoir => self.ltoir,
            FileArtifact::Cubin => self.cubin,
        }
    }
}

/// The kinds of artifact in the order in which they are taken. A recorded
/// target identifies NVVM output as the current one: nothing else is taken
/// then. Without one, PTX comes first and a standalone cubin last.
pub open spec fn preference(recorded_target: bool) -> Seq<FileArtifact> {
    if recorded_target {
        seq![FileArtifact::NvvmIr, FileArtifact::Ltoir]
    } else {
        seq![FileArtifact::Ptx, FileArtifact::NvvmIr, FileArtifact::Ltoir, FileArtifact::Cubin]
    }
}

/// The artifact of this kind if it exists, else what comes after it.
pub open spec fn first_of(
    present: Present,
    kind: FileArtifact,
    next: Option<FileArtifact>,
) -> Option<FileArtifact> {
    if present.has(kind) {
        Some(kind)
    } else {
        next
    }
}

/// The artifact that is loaded: the first in the order that exists.
pub open spec fn selected(present: Present) -> Option<FileArtifact> {
    let nvvm_output = |last: Option<FileArtifact>|
        first_of(present, FileArtifact::NvvmIr, first_of(present, FileArtifact::Ltoir, last));
    if present.recorded_target {
        nvvm_output(None)
    } else {
        first_of(
            present,
            FileArtifact::Ptx,
            nvvm_output(first_of(present, FileArtifact::Cubin, None)),
        )
    }
}

/// Select one file artifact. A `.target` file identifies NVVM IR/LTOIR as the
/// current output; without one, PTX takes precedence.
pub fn select_file_artifact(
    has_ptx: bool,
    has_nvvm_ir: bool,
    has_ltoir: bool,
    has_cubin: bool,
    has_recorded_nvvm_target: bool,
) -> (artifact: Option<FileArtifact>)
    ensures
        artifact == selected(
            (Present {
                ptx: has_ptx,
                nvvm_ir: has_nvvm_ir,
                ltoir: has_ltoir,
                cubin: has_cubin,
                recorded_target: has_recorded_nvvm_target,
            }),
        ),
        artifact == Some(FileArtifact::NvvmIr) <==> has_nvvm_ir && (has_recorded_nvvm_target
            || !has_ptx),
        artifact == Some(FileArtifact::Ltoir) <==> has_ltoir && !has_nvvm_ir && (
        has_recorded_nvvm_target || !has_ptx),
        artifact == Some(FileArtifact::Ptx) <==> has_ptx && !has_recorded_nvvm_target,
        artifact == Some(FileArtifact::Cubin) <==> has_cubin && !has_ptx && !has_nvvm_ir
            && !has_ltoir && !has_recorded_nvvm_target,
{
    if has_recorded_nvvm_target {
        if has_nvvm_ir {
            return Some(FileArtifact::NvvmIr);
        }
        if has_ltoir {
            return Some(FileArtifact::Ltoir);
        }
        // The target file identifies NVVM output, but that output is missing.
        // Do not fall back to an older PTX or cubin.
        return None;
    }
    if has_ptx {
        Some(FileArtifact::Ptx)
    } else if has_nvvm_ir {
        Some(FileArtifact::NvvmIr)
    } else if has_ltoir {
        Some(FileArtifact::Ltoir)
    } else if has_cubin {
        Some(FileArtifact::Cubin)
    } else {
        None
    }
}

/// An artifact is selected only if it exists and its kind may be taken. None
/// is selected only if no artifact exists that may be taken.
pub proof fn law_selection_exists(present: Present)
    ensures
        selected(present) matches Some(artifact) ==> present.has(artifact) && preference(
            present.recorded_target,
        ).contains(artifact),
        selected(present) is None <==> forall|kind: FileArtifact|
            #![trigger present.has(kind)]
            preference(present.recorded_target).contains(kind) ==> !present.has(kind),
{
    let kinds = preference(present.recorded_target);
    if present.recorded_target {
        assert(kinds[0] == FileArtifact::NvvmIr && kinds[1] == FileArtifact::Ltoir);
        assert(kinds.contains(FileArtifact::NvvmIr) && kinds.contains(FileArtifact::Ltoir));
    } else {
        assert(kinds[0] == FileArtifact::Ptx && kinds[1] == FileArtifact::NvvmIr);
        assert(kinds[2] == FileArtifact::Ltoir && kinds[3] == FileArtifact::Cubin);
        assert(kinds.contains(FileArtifact::Ptx) && kinds.contains(FileArtifact::NvvmIr));
        assert(kinds.contains(FileArtifact::Ltoir) && kinds.contains(FileArtifact::Cubin));
    }
    assert(present.has(FileArtifact::Ptx) == present.ptx);
    assert(present.has(FileArtifact::NvvmIr) == present.nvvm_ir);
    assert(present.has(FileArtifact::Ltoir) == present.ltoir);
    assert(present.has(FileArtifact::Cubin) == present.cubin);
}

/// No artifact is selected that comes later in the order than one that exists.
pub proof fn law_selection_keeps_order(present: Present, earlier: int, later: int)
    requires
        0 <= earlier < later < preference(present.recorded_target).len(),
        present.has(preference(present.recorded_target)[earlier]),
    ensures
        selected(present) != Some(preference(present.recorded_target)[later]),
{
}

/// Where a target is recorded, the other output does not matter: neither PTX
/// nor a standalone cubin is selected or changes what is.
pub proof fn law_recorded_target_ignores_older_output(present: Present, ptx: bool, cubin: bool)
    requires
        present.recorded_target,
    ensures
        selected(present) != Some(FileArtifact::Ptx),
        selected(present) != Some(FileArtifact::Cubin),
        selected(present) == selected((Present { ptx, cubin, ..present })),
{
}

/// How NVVM output reaches the GPU.
#[derive(Clone, Copy, Debug, PartialEq, Eq, Structural)]
pub enum ExecutionRoute {
    /// Produce native code for the architecture that emitted the IR.
    Cubin,
    /// Keep the original virtual architecture in PTX and let the driver JIT it
    /// for the newer GPU.
    PtxBridge,
}

/// The first numeric architecture of Blackwell.
pub const BLACKWELL: u32 = 100;

/// The same numeric architecture: native code runs.
pub open spec fn runs_natively(emitted: ArchView, execution: ArchView) -> bool {
    emitted.capability == execution.capability
}

/// A standard pre-Blackwell target on a newer GPU of Blackwell or later: PTX
/// carries it over.
pub open spec fn bridges(emitted: ArchView, execution: ArchView) -> bool {
    &&& emitted.capability < execution.capability
    &&& emitted.suffix is None
    &&& emitted.legacy_llvm
    &&& BLACKWELL <= execution.capability
}

/// Why neither native code nor PTX reaches the GPU.
pub open spec fn incompatibility(emitted: ArchView, execution: ArchView) -> Seq<char> {
    if emitted.suffix is Some {
        "targets with an architecture suffix, such as sm_90a, cannot be forwarded to a different GPU"@
    } else if execution.capability < emitted.capability {
        "an artifact built for a newer GPU cannot run on an older GPU"@
    } else {
        "only standard pre-Blackwell targets, such as sm_86, can be converted to PTX for Blackwell"@
    }
}

/// The route of an artifact emitted for one architecture to a GPU of another.
pub open spec fn route(emitted: ArchView, execution: ArchView) -> Result<
    ExecutionRoute,
    ErrorView,
> {
    if runs_natively(emitted, execution) {
        Ok(ExecutionRoute::Cubin)
    } else if bridges(emitted, execution) {
        Ok(ExecutionRoute::PtxBridge)
    } else {
        Err(
            ErrorView::IncompatibleExecutionTarget {
                emitted: emitted.sm,
                execution: execution.sm,
                reason: incompatibility(emitted, execution),
            },
        )
    }
}

/// The view of a route, or of the error in its place.
pub open spec fn route_view(result: Result<ExecutionRoute, LtoirError>) -> Result<
    ExecutionRoute,
    ErrorView,
> {
    match result {
        Ok(route) => Ok(route),
        Err(error) => Err(error@),
    }
}

fn incompatible(emitted: &CudaArch, execution: &CudaArch, reason: &'static str) -> (error:
    LtoirError)
    ensures
        error@ == (ErrorView::IncompatibleExecutionTarget {
            emitted: emitted.sm@,
            execution: execution.sm@,
            reason: reason@,
        }),
{
    LtoirError::IncompatibleExecutionTarget {
        emitted: emitted.sm.clone(),
        execution: execution.sm.clone(),
        reason,
    }
}

/// Select an execution route without changing either architecture.
pub fn execution_route(emitted: &CudaArch, execution: &CudaArch) -> (chosen: Result<
    ExecutionRoute,
    LtoirError,
>)
    ensures
        route_view(chosen) == route(emitted@, execution@),
        chosen matches Ok(ExecutionRoute::Cubin) <==> emitted.capability == execution.capability,
        chosen matches Ok(ExecutionRoute::PtxBridge) <==> emitted.capability < execution.capability
            && 100 <= execution.capability && emitted.suffix is None && emitted.legacy_llvm,
        chosen matches Err(error) ==> {
            &&& error is IncompatibleExecutionTarget
            &&& error->IncompatibleExecutionTarget_emitted@ == emitted.sm@
            &&& error->execution@ == execution.sm@
            &&& error->reason@ == (if emitted.suffix is Some {
                "targets with an architecture suffix, such as sm_90a, cannot be forwarded to a different GPU"@
            } else if emitted.capability > execution.capability {
                "an artifact built for a newer GPU cannot run on an older GPU"@
            } else {
                "only standard pre-Blackwell targets, such as sm_86, can be converted to PTX for Blackwell"@
            })
        },
{
    if emitted.capability == execution.capability {
        return Ok(ExecutionRoute::Cubin);
    }
    if emitted.suffix.is_some() {
        return Err(
            incompatible(
                emitted,
                execution,
                "targets with an architecture suffix, such as sm_90a, cannot be forwarded to a different GPU",
            ),
        );
    }
    if emitted.capability > execution.capability {
        return Err(
            incompatible(
                emitted,
                execution,
                "an artifact built for a newer GPU cannot run on an older GPU",
            ),
        );
    }
    if emitted.legacy_llvm && execution.capability >= BLACKWELL {
        return Ok(ExecutionRoute::PtxBridge);
    }
    Err(
        incompatible(
            emitted,
            execution,
            "only standard pre-Blackwell targets, such as sm_86, can be converted to PTX for Blackwell",
        ),
    )
}

/// The route goes by the number of the GPU and by the number, the suffix and
/// the dialect of the target: equal numbers run natively; a standard target of
/// the LLVM 7 dialect, whatever its number, bridges to every GPU from number
/// 100 on that is newer; nothing else has a route.
pub proof fn law_route_by_fields(emitted: ArchView, execution: ArchView)
    ensures
        emitted.capability == execution.capability ==> route(emitted, execution) == Ok::<
            ExecutionRoute,
            ErrorView,
        >(ExecutionRoute::Cubin),
        emitted.suffix is None && emitted.legacy_llvm && emitted.capability < execution.capability
            && execution.capability >= 100 ==> route(emitted, execution) == Ok::<
            ExecutionRoute,
            ErrorView,
        >(ExecutionRoute::PtxBridge),
        emitted.capability != execution.capability && (emitted.suffix is Some
            || !emitted.legacy_llvm || emitted.capability > execution.capability
            || execution.capability < 100) ==> route(emitted, execution) is Err,
        route(emitted, execution) matches Err(error) ==> {
            &&& error is IncompatibleExecutionTarget
            &&& error->IncompatibleExecutionTarget_emitted == emitted.sm
            &&& error->execution == execution.sm
            &&& emitted.suffix is Some ==> error->reason
                == "targets with an architecture suffix, such as sm_90a, cannot be forwarded to a different GPU"@
            &&& emitted.suffix is None && emitted.capability > execution.capability
                ==> error->reason
                == "an artifact built for a newer GPU cannot run on an older GPU"@
            &&& emitted.suffix is None && emitted.capability < execution.capability
                ==> error->reason
                == "only standard pre-Blackwell targets, such as sm_86, can be converted to PTX for Blackwell"@
        },
{
}

/// What is selected goes by what exists. With a recorded target NVVM IR comes
/// before LTOIR and nothing comes after; without one, PTX comes first and a
/// cubin last.
pub proof fn law_selection_by_existence(present: Present)
    ensures
        selected(present) == Some(FileArtifact::NvvmIr) <==> present.nvvm_ir && (
        present.recorded_target || !present.ptx),
        selected(present) == Some(FileArtifact::Ltoir) <==> present.ltoir && !present.nvvm_ir && (
        present.recorded_target || !present.ptx),
        selected(present) == Some(FileArtifact::Ptx) <==> present.ptx && !present.recorded_target,
        selected(present) == Some(FileArtifact::Cubin) <==> present.cubin && !present.ptx
            && !present.nvvm_ir && !present.ltoir && !present.recorded_target,
{
}

/// No route leads to an older GPU, a target with a suffix reaches only its own
/// numeric architecture, and the same numeric architecture is always reached
/// natively.
pub proof fn law_route(emitted: ArchView, execution: ArchView)
    ensures
        route(emitted, execution) is Ok ==> emitted.capability <= execution.capability,
        route(emitted, execution) is Ok && emitted.suffix is Some ==> emitted.capability
            == execution.capability,
        route(emitted, execution) == Ok::<ExecutionRoute, ErrorView>(ExecutionRoute::Cubin)
            <==> emitted.capability == execution.capability,
        route(emitted, execution) == Ok::<ExecutionRoute, ErrorView>(ExecutionRoute::PtxBridge)
            <==> bridges(emitted, execution),
{
}

/// The suffix and the dialect of the GPU's own architecture do not matter:
/// only its number does.
pub proof fn law_route_goes_by_number(emitted: ArchView, a: ArchView, b: ArchView)
    requires
        a.capability == b.capability,
    ensures
        route(emitted, a) is Ok <==> route(emitted, b) is Ok,
        route(emitted, a) is Ok ==> route(emitted, a) == route(emitted, b),
{
}

/// A target that bridges to a GPU bridges to every newer one.
pub proof fn law_bridge_reaches_newer(emitted: ArchView, execution: ArchView, newer: ArchView)
    requires
        bridges(emitted, execution),
        execution.capability <= newer.capability,
    ensures
        bridges(emitted, newer),
        route(emitted, newer) == Ok::<ExecutionRoute, ErrorView>(ExecutionRoute::PtxBridge),
{
}

} // verus!
