//! What callers get: the results of the public functions, in terms of what
//! they are given.

use vstd::prelude::*;
use crate::arch::CudaArch;
use crate::compile::{
    check_dialect,
    check_ir_version,
    Compile,
    CompileStageView,
    CompileView,
    find_libdevice,
};
use crate::error::{ErrorView, LtoirError};
use crate::link::{Link, LinkStageView, LinkView, Output};
use crate::load::{are_artifacts_of, Load, load_kernel_module, LoadStageView};
use crate::paths::{
    artifact_path,
    emitted_target_path,
    is_artifact_path,
    is_sibling,
    is_target_path,
    manifest_dir,
    sibling_path,
};
use crate::pipeline::{
    are_files_of,
    Build,
    BuildView,
    build_cubin_from_ll,
    build_cubin_from_nvvm_ir,
    build_ptx_from_nvvm_ir,
    FilesView,
    IrFiles,
    link_ltoir_to_cubin,
    link_ltoir_to_ptx,
    SourceView,
};
use crate::request::{Reply, Request};
use crate::route::{execution_route, ExecutionRoute, FileArtifact, select_file_artifact};
use crate::target::{
    artifact_target_sidecar,
    execution_target_text,
    LookupStageView,
    LookupView,
    recorded_target_text,
    resolve_source_target,
    target_arch,
    target_arch_for_artifact,
    TargetLookup,
    validate_ir_target_sidecar,
};
use crate::text::{decimal, decimal_text, signed_decimal, signed_decimal_text, trimmed};
use crate::warp::movmatrix_trans_b16;
use crate::wmma::{
    integer_width,
    MmaM16N8K16F32Bf16Op,
    MovmatrixTransB16Op,
    RegisterType,
    VerifyError,
};

verus! {

/// Builds in memory begin with the very bytes, name and target text that they
/// are given, and want the output that their names say.
pub proof fn law_calls_begin_memory_builds(
    bytes: Vec<u8>,
    name: &str,
    arch: &str,
    build: Build,
)
    ensures
        call_ensures(build_cubin_from_nvvm_ir, (bytes, name, arch), build) ==> build@ == (
        BuildView::ParseTarget {
            text: arch@,
            source: SourceView::Ir {
                nvvm_ir: bytes@,
                module_name: name@,
                output: Output::Cubin,
            },
        }),
        call_ensures(build_ptx_from_nvvm_ir, (bytes, name, arch), build) ==> build@ == (
        BuildView::ParseTarget {
            text: arch@,
            source: SourceView::Ir { nvvm_ir: bytes@, module_name: name@, output: Output::Ptx },
        }),
        call_ensures(link_ltoir_to_cubin, (bytes, name, arch), build) ==> build@ == (
        BuildView::ParseTarget {
            text: arch@,
            source: SourceView::Ltoir {
                ltoir: bytes@,
                module_name: name@,
                output: Output::Cubin,
            },
        }),
        call_ensures(link_ltoir_to_ptx, (bytes, name, arch), build) ==> build@ == (
        BuildView::ParseTarget {
            text: arch@,
            source: SourceView::Ltoir { ltoir: bytes@, module_name: name@, output: Output::Ptx },
        }),
{
}

/// A build of a file begins with the files that belong to the path it is
/// given, and with the target text that it is given.
pub proof fn law_call_begins_file_build(
    ll_path: &str,
    arch: &str,
    build: Build,
    files: IrFiles,
)
    ensures
        call_ensures(build_cubin_from_ll, (ll_path, arch), build) ==> exists|f: FilesView| #[trigger]
            are_files_of(ll_path@, f) && build@ == (BuildView::ParseTarget {
                text: arch@,
                source: SourceView::IrFile { files: f },
            }),
        call_ensures(IrFiles::new, (ll_path,), files) ==> are_files_of(ll_path@, files@),
{
}

/// Lookups and loads begin at their beginning, with what they are given.
pub proof fn law_calls_begin_lookups_and_loads(
    path: &str,
    dir: &str,
    name: &str,
    lookup: TargetLookup,
    load: Load,
)
    ensures
        call_ensures(target_arch, (), lookup) ==> lookup@ == (LookupView {
            target_path: None,
            stage: LookupStageView::ReadVariable,
        }),
        call_ensures(target_arch_for_artifact, (path,), lookup) ==> {
            &&& lookup@.stage == LookupStageView::ReadVariable
            &&& lookup@.target_path is Some
            &&& is_target_path(path@, lookup@.target_path->Some_0)
        },
        call_ensures(load_kernel_module, (dir, name), load) ==> load@.stage
            == LoadStageView::ProbeRecorded && are_artifacts_of(dir@, name@, load@.artifacts),
{
}

/// Compilations and links begin at their beginning, with what they are given.
pub proof fn law_calls_begin_compilations_and_links(
    bytes: Vec<u8>,
    name: String,
    arch: CudaArch,
    output: Output,
    compile: Compile,
    link: Link,
)
    ensures
        call_ensures(Compile::new, (bytes, name, arch), compile) ==> compile@ == (CompileView {
            nvvm_ir: bytes@,
            module_name: name@,
            arch: arch@,
            stage: CompileStageView::FindLibdevice,
        }),
        call_ensures(Link::new, (bytes, name, arch, output), link) ==> link@ == (LinkView {
            ltoir: bytes@,
            module_name: name@,
            arch: arch@,
            output,
            stage: LinkStageView::LoadNvJitLink,
        }),
{
}

/// Jobs ask for and go on as their views do.
pub proof fn law_jobs_go_as_their_views(
    lookup: TargetLookup,
    compile: Compile,
    link: Link,
    build: Build,
    load: Load,
    request: Request<'_>,
    reply: Reply,
)
    ensures
        call_ensures(TargetLookup::request, (&lookup,), Some(request)) ==> lookup@.request()
            == Some(request@),
        call_ensures(TargetLookup::request, (&lookup,), None) ==> lookup@.request() is None,
        call_ensures(Compile::request, (&compile,), Some(request)) ==> compile@.request() == Some(
            request@,
        ),
        call_ensures(Compile::request, (&compile,), None) ==> compile@.request() is None,
        call_ensures(Link::request, (&link,), Some(request)) ==> link@.request() == Some(request@),
        call_ensures(Link::request, (&link,), None) ==> link@.request() is None,
        call_ensures(Build::request, (&build,), Some(request)) ==> build@.request() == Some(
            request@,
        ),
        call_ensures(Build::request, (&build,), None) ==> build@.request() is None,
        call_ensures(Load::request, (&load,), Some(request)) ==> load@.request() == Some(request@),
        call_ensures(Load::request, (&load,), None) ==> load@.request() is None,
        forall|next: TargetLookup| #[trigger]
            call_ensures(TargetLookup::resume, (lookup, reply), next) ==> next@ == lookup@.resume(
                reply@,
            ),
        forall|next: Compile| #[trigger]
            call_ensures(Compile::resume, (compile, reply), next) ==> next@ == compile@.resume(
                reply@,
            ),
        forall|next: Link| #[trigger]
            call_ensures(Link::resume, (link, reply), next) ==> next@ == link@.resume(reply@),
        forall|next: Build| #[trigger]
            call_ensures(Build::resume, (build, reply), next) ==> next@ == build@.resume(reply@),
        forall|next: Load| #[trigger]
            call_ensures(Load::resume, (load, reply), next) ==> next@ == load@.resume(reply@),
{
}

/// A route is chosen by the numbers, the suffix and the dialect alone.
pub proof fn law_call_chooses_route(
    emitted: CudaArch,
    execution: CudaArch,
    chosen: Result<ExecutionRoute, LtoirError>,
)
    requires
        call_ensures(execution_route, (&emitted, &execution), chosen),
    ensures
        emitted.capability == execution.capability ==> chosen matches Ok(ExecutionRoute::Cubin),
        emitted.capability < execution.capability && emitted.suffix is None && emitted.legacy_llvm
            && execution.capability >= 100 ==> chosen matches Ok(ExecutionRoute::PtxBridge),
        emitted.capability > execution.capability ==> chosen is Err,
        emitted.capability < execution.capability && (emitted.suffix is Some
            || !emitted.legacy_llvm || execution.capability < 100) ==> chosen is Err,
        chosen matches Err(error) ==> error@ == (ErrorView::IncompatibleExecutionTarget {
            emitted: emitted.sm@,
            execution: execution.sm@,
            reason: if emitted.suffix is Some {
                "targets with an architecture suffix, such as sm_90a, cannot be forwarded to a different GPU"@
            } else if emitted.capability > execution.capability {
                "an artifact built for a newer GPU cannot run on an older GPU"@
            } else {
                "only standard pre-Blackwell targets, such as sm_86, can be converted to PTX for Blackwell"@
            },
        }),
{
}

/// An artifact is selected by what exists.
pub proof fn law_call_selects_artifact(
    ptx: bool,
    nvvm_ir: bool,
    ltoir: bool,
    cubin: bool,
    recorded: bool,
    artifact: Option<FileArtifact>,
)
    requires
        call_ensures(select_file_artifact, (ptx, nvvm_ir, ltoir, cubin, recorded), artifact),
    ensures
        artifact == (if ptx && !recorded {
            Some(FileArtifact::Ptx)
        } else if nvvm_ir {
            Some(FileArtifact::NvvmIr)
        } else if ltoir {
            Some(FileArtifact::Ltoir)
        } else if cubin && !recorded {
            Some(FileArtifact::Cubin)
        } else {
            None
        }),
{
}

/// A recorded target is taken, else the explicit one if it is a target.
pub proof fn law_call_resolves_target(
    recorded: Option<CudaArch>,
    explicit: Option<Result<CudaArch, String>>,
    target: Result<CudaArch, LtoirError>,
)
    requires
        call_ensures(resolve_source_target, (recorded, explicit), target),
    ensures
        match (recorded, explicit) {
            (Some(arch), _) => target matches Ok(found) && found@ == arch@,
            (None, Some(Ok(arch))) => target matches Ok(found) && found@ == arch@,
            (None, Some(Err(why))) => target matches Err(error) && error@
                == ErrorView::InvalidTarget(why@),
            (None, None) => target matches Err(error) && error@ == ErrorView::TargetNotFound,
        },
{
}

/// IR may be compiled for the very target that it is recorded for, or if none
/// is recorded.
pub proof fn law_call_checks_recorded_target(
    ll_path: &str,
    emitted: Option<CudaArch>,
    requested: CudaArch,
    result: Result<(), LtoirError>,
)
    ensures
        emitted matches Some(arch) ==> call_ensures(
            validate_ir_target_sidecar,
            (ll_path, Some(&arch), &requested),
            result,
        ) ==> {
            &&& result is Ok <==> arch.sm@ == requested.sm@ && arch.compute@ == requested.compute@
                && arch.capability == requested.capability && arch.suffix == requested.suffix
                && arch.legacy_llvm == requested.legacy_llvm
            &&& result matches Err(error) ==> error@ == (ErrorView::TargetMismatch {
                ir_path: ll_path@,
                emitted: arch.sm@,
                requested: requested.sm@,
            })
        },
        call_ensures(validate_ir_target_sidecar, (ll_path, None, &requested), result)
            ==> result is Ok,
{
}

/// NVVM IR 2.0 is accepted; LLVM 7 is accepted for legacy targets and no
/// others, and every other LLVM for the modern ones.
pub proof fn law_calls_check_toolkit(
    major: i32,
    minor: i32,
    arch: CudaArch,
    llvm_major: Option<i32>,
    error: Option<LtoirError>,
)
    ensures
        call_ensures(check_ir_version, (major, minor), error) ==> {
            &&& error is None <==> major == 2 && minor == 0
            &&& error matches Some(wrong) ==> wrong@ == (ErrorView::UnsupportedNvvmIrVersion {
                major: major as int,
                minor: minor as int,
            })
        },
        call_ensures(check_dialect, (&arch, llvm_major), error) ==> match llvm_major {
            None => error is None,
            Some(v) => {
                &&& arch.legacy_llvm ==> (error is None <==> v == 7)
                &&& !arch.legacy_llvm ==> (error is None <==> v != 7)
                &&& error matches Some(wrong) ==> wrong@ == (ErrorView::DialectMismatch {
                    target: arch.compute@,
                    llvm_major: v as int,
                    expected: if arch.legacy_llvm {
                        "legacy LLVM 7"@
                    } else {
                        "modern opaque-pointer"@
                    },
                })
            },
        },
{
}

/// Texts are made of what is given: a target's record, the name of a GPU's
/// target, numbers, and what a record names.
pub proof fn law_calls_make_texts(
    arch: CudaArch,
    major: i32,
    minor: i32,
    n: u64,
    contents: &str,
    text: String,
)
    ensures
        call_ensures(artifact_target_sidecar, (&arch,), text) ==> text@ == arch.sm@ + "\n"@,
        call_ensures(execution_target_text, (major, minor), text) ==> text@ == "sm_"@
            + signed_decimal(major as int) + signed_decimal(minor as int),
        call_ensures(decimal_text, (n,), text) ==> text@ == decimal(n as nat),
        call_ensures(signed_decimal_text, (major,), text) ==> text@ == signed_decimal(major as int),
        call_ensures(recorded_target_text, (contents,), text) ==> text@ == trimmed(contents@),
{
}

/// Paths are found as they are told, and libdevice where it was found.
pub proof fn law_calls_find_paths(
    path: &str,
    name: &str,
    extension: &str,
    variable: Option<String>,
    current: Option<String>,
    found: Result<String, String>,
    text: String,
    libdevice: Result<String, LtoirError>,
)
    ensures
        call_ensures(emitted_target_path, (path,), text) ==> is_target_path(path@, text@),
        call_ensures(sibling_path, (path, extension), text) ==> is_sibling(
            path@,
            extension@,
            text@,
        ),
        call_ensures(artifact_path, (path, name, extension), text) ==> is_artifact_path(
            path@,
            name@,
            extension@,
            text@,
        ),
        call_ensures(manifest_dir, (variable, current), text) ==> match (variable, current) {
            (Some(dir), _) => text@ == dir@,
            (None, Some(dir)) => text@ == dir@,
            (None, None) => text@ == "."@,
        },
        call_ensures(find_libdevice, (found,), libdevice) ==> match found {
            Ok(there) => libdevice matches Ok(file) && file@ == there@,
            Err(tried) => libdevice matches Err(error) && error@ == (ErrorView::LibdeviceNotFound {
                tried: tried@,
            }),
        },
{
}

/// Errors say what their views say.
pub proof fn law_calls_tell_errors(error: LtoirError, wrong: VerifyError, text: String)
    ensures
        call_ensures(LtoirError::message, (&error,), text) ==> text@ == error@.text(),
        call_ensures(VerifyError::message, (&wrong,), text) ==> text@ == wrong.text(),
{
}

/// A transpose takes one 32-bit integer and gives one.
pub proof fn law_call_checks_movmatrix(op: MovmatrixTransB16Op, result: Result<(), VerifyError>)
    requires
        call_ensures(MovmatrixTransB16Op::verify, (&op,), result),
    ensures
        result == (if op.operands@.len() != 1 || op.results@.len() != 1 {
            Err::<(), VerifyError>(VerifyError::MovmatrixArity)
        } else if op.operands@[0] != (RegisterType::Integer { width: 32 }) {
            Err(VerifyError::MovmatrixOperand)
        } else if op.results@[0] != (RegisterType::Integer { width: 32 }) {
            Err(VerifyError::MovmatrixResult)
        } else {
            Ok(())
        }),
{
}

/// A multiplication takes four floats and six 32-bit integers and gives four
/// floats. The first register that is wrong is told.
pub proof fn law_call_checks_mma(op: MmaM16N8K16F32Bf16Op, result: Result<(), VerifyError>, i: int)
    requires
        call_ensures(MmaM16N8K16F32Bf16Op::verify, (&op,), result),
    ensures
        op.operands@.len() != 10 ==> (result matches Err(VerifyError::MmaOperandCount { got })
            && got == op.operands@.len()),
        result is Ok ==> op.operands@.len() == 10 && op.results@.len() == 4,
        result is Ok && 0 <= i < 4 ==> op.operands@[i] == RegisterType::Float32 && op.results@[i]
            == RegisterType::Float32,
        result is Ok && 4 <= i < 10 ==> op.operands@[i] == (RegisterType::Integer { width: 32 }),
        result matches Err(VerifyError::MmaOperandCount { .. }) ==> op.operands@.len() != 10,
        result matches Err(VerifyError::MmaAccumulator { index }) ==> {
            &&& index < 4
            &&& op.operands@[index as int] != RegisterType::Float32
            &&& 0 <= i < index ==> op.operands@[i] == RegisterType::Float32
        },
        result matches Err(VerifyError::MmaPacked { index }) ==> {
            &&& 4 <= index < 10
            &&& op.operands@[index as int] != (RegisterType::Integer { width: 32 })
            &&& 0 <= i < 4 ==> op.operands@[i] == RegisterType::Float32
            &&& 4 <= i < index ==> op.operands@[i] == (RegisterType::Integer { width: 32 })
        },
        result matches Err(VerifyError::MmaResultCount) ==> {
            &&& op.results@.len() != 4
            &&& 0 <= i < 4 ==> op.operands@[i] == RegisterType::Float32
            &&& 4 <= i < 10 ==> op.operands@[i] == (RegisterType::Integer { width: 32 })
        },
        result matches Err(VerifyError::MmaResult { index }) ==> {
            &&& op.results@.len() == 4
            &&& index < 4
            &&& op.results@[index as int] != RegisterType::Float32
            &&& 0 <= i < index ==> op.results@[i] == RegisterType::Float32
            &&& 0 <= i < 4 ==> op.operands@[i] == RegisterType::Float32
            &&& 4 <= i < 10 ==> op.operands@[i] == (RegisterType::Integer { width: 32 })
        },
        result matches Err(error) ==> !(error is MovmatrixArity) && !(error is MovmatrixOperand)
            && !(error is MovmatrixResult),
{
    if result is Ok {
        assert(0 <= i < 10 ==> op.operands[i] == op.operands@[i]);
        assert(0 <= i < 4 ==> op.results[i] == op.results@[i]);
    }
}

/// Operations hold the registers that they are given, and an integer register
/// has the width of its type.
pub proof fn law_calls_make_operations(
    operands: Vec<RegisterType>,
    results: Vec<RegisterType>,
    movmatrix: MovmatrixTransB16Op,
    mma: MmaM16N8K16F32Bf16Op,
    ty: pliron::builtin::types::IntegerType,
    register: RegisterType,
)
    ensures
        call_ensures(MovmatrixTransB16Op::new, (operands, results), movmatrix)
            ==> movmatrix.operands@ == operands@ && movmatrix.results@ == results@,
        call_ensures(MmaM16N8K16F32Bf16Op::new, (operands, results), mma) ==> mma.operands@
            == operands@ && mma.results@ == results@,
        call_ensures(RegisterType::integer, (&ty,), register) ==> register == (
        RegisterType::Integer { width: integer_width(ty) }),
{
}

/// The register of each lane of a transposed matrix packs two halves of the
/// registers that the matrix was in.
pub proof fn law_call_transposes(a: [u32; 32], d: [u32; 32], c: int, k: int)
    requires
        call_ensures(movmatrix_trans_b16, (&a,), d),
        0 <= c < 8,
        0 <= k < 4,
    ensures
        d@[4 * c + k] as int % 0x1_0000 == (if c % 2 == 0 {
            a@[8 * k + c / 2] as int % 0x1_0000
        } else {
            a@[8 * k + c / 2] as int / 0x1_0000
        }),
        d@[4 * c + k] as int / 0x1_0000 == (if c % 2 == 0 {
            a@[8 * k + 4 + c / 2] as int % 0x1_0000
        } else {
            a@[8 * k + 4 + c / 2] as int / 0x1_0000
        }),
{
    crate::warp::law_transposed_registers(a@, d@, c, k);
}

/// Two targets are the same if and only if all that is known of them is.
pub proof fn law_call_compares_targets(a: CudaArch, b: CudaArch, same: bool)
    requires
        call_ensures(CudaArch::same_target, (&a, &b), same),
    ensures
        same <==> a.sm@ == b.sm@ && a.compute@ == b.compute@ && a.capability == b.capability
            && a.suffix == b.suffix && a.legacy_llvm == b.legacy_llvm,
{
}

} // verus!
