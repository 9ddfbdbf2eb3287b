//! For which target builds and loads compile and link, and for which they
//! refuse to.

use vstd::prelude::*;
use crate::arch::ArchView;
use crate::error::ErrorView;
use crate::link::Output;
use crate::load::{ArtifactsView, LoadStageView, LoadView, NvvmArtifact};
use crate::load_runs::load_after;
use crate::pipeline::{BuildView, DestinationView, file_build, FilesView, SourceView};
use crate::request::{is_answer, ReplyView, RequestView};
use crate::runs::{answers_all, build_after};
use crate::target::{LookupStageView, LookupView};
use crate::text::{signed_decimal, trimmed};

verus! {

/// What a request tells of the target that code is compiled or linked for:
/// libNVVM is asked about `arch` and given its `compute` name, nvJitLink is
/// given its `sm` name, and `-ptx` where PTX is wanted.
spec fn is_for(request: RequestView, arch: ArchView, ptx: bool) -> bool {
    match request {
        RequestView::LlvmVersion { arch: asked } => asked == arch,
        RequestView::VerifyProgram { options } => options == seq!["-arch="@ + arch.compute],
        RequestView::CompileProgram { options } => options == seq![
            "-arch="@ + arch.compute,
            "-gen-lto"@,
        ],
        RequestView::NewLinker { options } => options == (if ptx {
            seq!["-arch="@ + arch.sm, "-lto"@, "-ptx"@]
        } else {
            seq!["-arch="@ + arch.sm, "-lto"@]
        }),
        RequestView::FinishCubin => !ptx,
        RequestView::FinishPtx => ptx,
        _ => true,
    }
}

/// What is wanted of a source.
spec fn wants_ptx(source: SourceView) -> bool {
    match source {
        SourceView::IrFile { .. } => false,
        SourceView::Ir { output, .. } => output == Output::Ptx,
        SourceView::Ltoir { output, .. } => output == Output::Ptx,
    }
}

/// The build is for `arch`, or for what `text` is parsed as.
spec fn goes_for(build: BuildView, text: Seq<char>, arch: ArchView, ptx: bool) -> bool {
    match build {
        BuildView::ParseTarget { text: t, source } => t == text && wants_ptx(source) == ptx,
        BuildView::ReadIr { arch: a, .. } => a == arch && !ptx,
        BuildView::ReadRecorded { arch: a, .. } => a == arch && !ptx,
        BuildView::ParseRecorded { arch: a, .. } => a == arch && !ptx,
        BuildView::WriteTarget { arch: a, .. } => a == arch && !ptx,
        BuildView::Compiling { compile, destination } => compile.arch == arch && match destination {
            DestinationView::Files { .. } => !ptx,
            DestinationView::Memory { output, .. } => (output == Output::Ptx) == ptx,
        },
        BuildView::WriteLtoir { arch: a, .. } => a == arch && !ptx,
        BuildView::Linking { link, .. } => link.arch == arch && (link.output == Output::Ptx) == ptx,
        _ => true,
    }
}

proof fn lemma_goes_for(
    build: BuildView,
    text: Seq<char>,
    arch: ArchView,
    ptx: bool,
    reply: ReplyView,
)
    requires
        goes_for(build, text, arch, ptx),
        build.request() == Some(RequestView::ParseTarget { text }) && build is ParseTarget
            ==> reply == ReplyView::Target(Ok(arch)),
    ensures
        goes_for(build.resume(reply), text, arch, ptx),
        build.request() matches Some(request) ==> is_for(request, arch, ptx),
{
}

/// In every run of a build, libNVVM and nvJitLink work for the very target that
/// was requested, and give PTX if and only if PTX is wanted.
pub proof fn law_build_is_for_its_target(
    world: spec_fn(RequestView) -> ReplyView,
    text: Seq<char>,
    source: SourceView,
    arch: ArchView,
    n: nat,
)
    requires
        world(RequestView::ParseTarget { text }) == ReplyView::Target(Ok(arch)),
    ensures
        build_after(BuildView::ParseTarget { text, source }, world, n).request() matches Some(
            request,
        ) ==> {
            let ptx = match source {
                SourceView::IrFile { .. } => false,
                SourceView::Ir { output, .. } => output == Output::Ptx,
                SourceView::Ltoir { output, .. } => output == Output::Ptx,
            };
            &&& request matches RequestView::LlvmVersion { arch: asked } ==> asked == arch
            &&& request matches RequestView::VerifyProgram { options } ==> options == seq![
                "-arch="@ + arch.compute,
            ]
            &&& request matches RequestView::CompileProgram { options } ==> options == seq![
                "-arch="@ + arch.compute,
                "-gen-lto"@,
            ]
            &&& request matches RequestView::NewLinker { options } ==> {
                &&& ptx ==> options == seq!["-arch="@ + arch.sm, "-lto"@, "-ptx"@]
                &&& !ptx ==> options == seq!["-arch="@ + arch.sm, "-lto"@]
            }
            &&& request is FinishCubin ==> !ptx
            &&& request is FinishPtx ==> ptx
        },
{
    lemma_build_goes_for(
        BuildView::ParseTarget { text, source },
        world,
        text,
        arch,
        wants_ptx(source),
        n,
    );
}

proof fn lemma_build_goes_for(
    build: BuildView,
    world: spec_fn(RequestView) -> ReplyView,
    text: Seq<char>,
    arch: ArchView,
    ptx: bool,
    n: nat,
)
    requires
        world(RequestView::ParseTarget { text }) == ReplyView::Target(Ok(arch)),
        goes_for(build, text, arch, ptx),
    ensures
        goes_for(build_after(build, world, n), text, arch, ptx),
        build_after(build, world, n).request() matches Some(request) ==> is_for(request, arch, ptx),
    decreases n,
{
    match build.request() {
        Some(request) if n > 0 => {
            lemma_goes_for(build, text, arch, ptx, world(request));
            lemma_build_goes_for(
                build.resume(world(request)),
                world,
                text,
                arch,
                ptx,
                (n - 1) as nat,
            );
        },
        Some(_) => {
            lemma_goes_for(build, text, arch, ptx, ReplyView::Target(Ok(arch)));
        },
        None => {},
    }
}

/// NVVM IR that is recorded for one target is not built for another, in
/// whatever the two differ: the build ends in an error with the names of both,
/// and writes nothing.
pub proof fn law_other_recorded_target_is_refused(
    world: spec_fn(RequestView) -> ReplyView,
    files: FilesView,
    text: Seq<char>,
    requested: ArchView,
    nvvm_ir: Seq<u8>,
    contents: Seq<char>,
    emitted: ArchView,
    n: nat,
)
    requires
        world(RequestView::ParseTarget { text }) == ReplyView::Target(Ok(requested)),
        world(RequestView::ReadFile { path: files.ll }) == ReplyView::Bytes(Ok(nvvm_ir)),
        world(RequestView::ReadText { path: files.target }) == ReplyView::Text(Ok(Some(contents))),
        world(RequestView::ParseTarget { text: trimmed(contents) }) == ReplyView::Target(
            Ok(emitted),
        ),
        emitted.sm != requested.sm || emitted.compute != requested.compute || emitted.capability
            != requested.capability || emitted.suffix != requested.suffix || emitted.legacy_llvm
            != requested.legacy_llvm,
    ensures
        n >= 4 ==> build_after(file_build(files, text), world, n) == BuildView::Done(
            Err(
                ErrorView::TargetMismatch {
                    ir_path: files.ll,
                    emitted: emitted.sm,
                    requested: requested.sm,
                },
            ),
        ),
        build_after(file_build(files, text), world, n).request() matches Some(request)
            ==> !(request is WriteText) && !(request is WriteFile),
{
    reveal_with_fuel(build_after, 5);
}

/// NVVM IR that is recorded for the requested target, or for none, is built:
/// the requested target is then recorded under its `sm` name.
pub proof fn law_requested_target_is_recorded(
    world: spec_fn(RequestView) -> ReplyView,
    files: FilesView,
    text: Seq<char>,
    requested: ArchView,
    nvvm_ir: Seq<u8>,
)
    requires
        world(RequestView::ParseTarget { text }) == ReplyView::Target(Ok(requested)),
        world(RequestView::ReadFile { path: files.ll }) == ReplyView::Bytes(Ok(nvvm_ir)),
        world(RequestView::ReadText { path: files.target }) matches ReplyView::Text(Ok(recorded))
            && (recorded matches Some(contents) ==> world(
            RequestView::ParseTarget { text: trimmed(contents) },
        ) == ReplyView::Target(Ok(requested))),
    ensures
        exists|n: nat|
            (#[trigger] build_after(file_build(files, text), world, n)).request() == Some(
                RequestView::WriteText { path: files.target, text: requested.sm + "\n"@ },
            ),
{
    let build = file_build(files, text);
    reveal_with_fuel(build_after, 5);
    if world(RequestView::ReadText { path: files.target }) == ReplyView::Text(Ok(None)) {
        assert(build_after(build, world, 3).request() == Some(
            RequestView::WriteText { path: files.target, text: requested.sm + "\n"@ },
        ));
    } else {
        assert(build_after(build, world, 4).request() == Some(
            RequestView::WriteText { path: files.target, text: requested.sm + "\n"@ },
        ));
    }
}

/// The target of an artifact whose record lies at `path`: the one that the
/// record names, or the explicit one if there is no record.
pub open spec fn resolves_to(
    world: spec_fn(RequestView) -> ReplyView,
    path: Seq<char>,
    arch: ArchView,
) -> bool {
    match world(RequestView::ReadText { path }) {
        ReplyView::Text(Ok(Some(contents))) => world(
            RequestView::ParseTarget { text: trimmed(contents) },
        ) == ReplyView::Target(Ok(arch)),
        ReplyView::Text(Ok(None)) => match world(
            RequestView::ReadVariable { name: "CUDA_OXIDE_TARGET"@ },
        ) {
            ReplyView::Variable(Some(text)) => world(RequestView::ParseTarget { text })
                == ReplyView::Target(Ok(arch)),
            _ => false,
        },
        _ => false,
    }
}

/// The record of the artifact that a load takes.
spec fn record_of(artifacts: ArtifactsView, artifact: NvvmArtifact) -> Seq<char> {
    match artifact {
        NvvmArtifact::Ir => artifacts.ir.target,
        NvvmArtifact::Ltoir => artifacts.ltoir_target,
    }
}

/// The lookup is one of the record at `path`, and knows what the world tells.
spec fn looks_up(
    lookup: LookupView,
    world: spec_fn(RequestView) -> ReplyView,
    path: Seq<char>,
) -> bool {
    let variable = world(RequestView::ReadVariable { name: "CUDA_OXIDE_TARGET"@ });
    let record = world(RequestView::ReadText { path });
    &&& lookup.target_path == Some(path)
    &&& match lookup.stage {
        LookupStageView::ReadVariable => true,
        LookupStageView::ReadRecorded { explicit, path: p } => p == path && variable
            == ReplyView::Variable(explicit),
        LookupStageView::ParseRecorded { text } => record matches ReplyView::Text(
            Ok(Some(contents)),
        ) && text == trimmed(contents),
        LookupStageView::ParseExplicit { text } => record == ReplyView::Text(Ok(None)) && variable
            == ReplyView::Variable(Some(text)),
        LookupStageView::Done(Ok(arch)) => resolves_to(world, path, arch),
        LookupStageView::Done(Err(_)) => true,
    }
}

proof fn lemma_looks_up(
    lookup: LookupView,
    world: spec_fn(RequestView) -> ReplyView,
    path: Seq<char>,
)
    requires
        answers_all(world),
        looks_up(lookup, world, path),
        lookup.request() is Some,
    ensures
        looks_up(lookup.resume(world(lookup.request()->Some_0)), world, path),
{
    let request = lookup.request()->Some_0;
    assert(is_answer(request, world(request)));
}

/// What is known of a load in a world where the artifact was emitted for
/// `emitted` and the GPU is `execution`.
spec fn is_for_emitted(
    load: LoadView,
    world: spec_fn(RequestView) -> ReplyView,
    artifact: NvvmArtifact,
    emitted: ArchView,
    execution_text: Seq<char>,
    execution: ArchView,
) -> bool {
    let nvvm_ir = artifact == NvvmArtifact::Ir;
    let path = record_of(load.artifacts, artifact);
    let ptx = emitted.capability != execution.capability;
    match load.stage {
        LoadStageView::ProbeLtoir { nvvm_ir: exists, .. } => exists == nvvm_ir,
        LoadStageView::ProbeCubin { nvvm_ir: exists, .. } => exists == nvvm_ir,
        LoadStageView::FindTarget { artifact: a, lookup } => a == artifact && looks_up(
            lookup,
            world,
            path,
        ),
        LoadStageView::Capability { artifact: a, emitted: e } => a == artifact && e == emitted,
        LoadStageView::ParseExecution { artifact: a, emitted: e, text } => a == artifact && e
            == emitted && text == execution_text,
        LoadStageView::ReadIr { emitted: e } => nvvm_ir && e == emitted && ptx,
        LoadStageView::ReadLtoir { emitted: e, execution: x } => !nvvm_ir && e == emitted && x
            == execution,
        LoadStageView::Building { build } => goes_for(build, emitted.sm, emitted, ptx) && (
        build is ParseTarget ==> nvvm_ir),
        _ => true,
    }
}

proof fn lemma_is_for_emitted(
    load: LoadView,
    world: spec_fn(RequestView) -> ReplyView,
    artifact: NvvmArtifact,
    emitted: ArchView,
    version: (i32, i32),
    execution: ArchView,
)
    requires
        answers_all(world),
        world(RequestView::Exists { path: load.artifacts.ir.ll }) == ReplyView::Exists(
            artifact == NvvmArtifact::Ir,
        ),
        resolves_to(world, record_of(load.artifacts, artifact), emitted),
        artifact == NvvmArtifact::Ir ==> world(RequestView::ParseTarget { text: emitted.sm })
            == ReplyView::Target(Ok(emitted)),
        world(RequestView::ComputeCapability) == ReplyView::Capability(Ok(version)),
        world(
            RequestView::ParseTarget {
                text: "sm_"@ + signed_decimal(version.0 as int) + signed_decimal(version.1 as int),
            },
        ) == ReplyView::Target(Ok(execution)),
        is_for_emitted(
            load,
            world,
            artifact,
            emitted,
            "sm_"@ + signed_decimal(version.0 as int) + signed_decimal(version.1 as int),
            execution,
        ),
        load.request() is Some,
    ensures
        is_for_emitted(
            load.resume(world(load.request()->Some_0)),
            world,
            artifact,
            emitted,
            "sm_"@ + signed_decimal(version.0 as int) + signed_decimal(version.1 as int),
            execution,
        ),
        is_for(load.request()->Some_0, emitted, emitted.capability != execution.capability),
{
    let request = load.request()->Some_0;
    assert(is_answer(request, world(request)));
    match load.stage {
        LoadStageView::FindTarget { lookup, .. } => {
            lemma_looks_up(lookup, world, record_of(load.artifacts, artifact));
        },
        LoadStageView::Building { build } => {
            lemma_goes_for(
                build,
                emitted.sm,
                emitted,
                emitted.capability != execution.capability,
                world(request),
            );
        },
        _ => {},
    }
}

proof fn lemma_load_is_for_emitted(
    load: LoadView,
    world: spec_fn(RequestView) -> ReplyView,
    artifact: NvvmArtifact,
    emitted: ArchView,
    version: (i32, i32),
    execution: ArchView,
    n: nat,
)
    requires
        answers_all(world),
        world(RequestView::Exists { path: load.artifacts.ir.ll }) == ReplyView::Exists(
            artifact == NvvmArtifact::Ir,
        ),
        resolves_to(world, record_of(load.artifacts, artifact), emitted),
        artifact == NvvmArtifact::Ir ==> world(RequestView::ParseTarget { text: emitted.sm })
            == ReplyView::Target(Ok(emitted)),
        world(RequestView::ComputeCapability) == ReplyView::Capability(Ok(version)),
        world(
            RequestView::ParseTarget {
                text: "sm_"@ + signed_decimal(version.0 as int) + signed_decimal(version.1 as int),
            },
        ) == ReplyView::Target(Ok(execution)),
        is_for_emitted(
            load,
            world,
            artifact,
            emitted,
            "sm_"@ + signed_decimal(version.0 as int) + signed_decimal(version.1 as int),
            execution,
        ),
    ensures
        load_after(load, world, n).request() matches Some(request) ==> is_for(
            request,
            emitted,
            emitted.capability != execution.capability,
        ),
    decreases n,
{
    if load.request() is Some {
        lemma_is_for_emitted(load, world, artifact, emitted, version, execution);
        if n > 0 {
            lemma_load_is_for_emitted(
                load.resume(world(load.request()->Some_0)),
                world,
                artifact,
                emitted,
                version,
                execution,
                (n - 1) as nat,
            );
        }
    }
}

/// In every run of a load, libNVVM and nvJitLink work for the target that the
/// artifact was emitted for: the recorded one, or else the explicit one. What
/// the GPU is decides of nothing but whether PTX is linked, which it is if and
/// only if the GPU's number is another than the target's.
pub proof fn law_load_is_for_emitted_target(
    world: spec_fn(RequestView) -> ReplyView,
    artifacts: ArtifactsView,
    nvvm_ir: bool,
    emitted: ArchView,
    version: (i32, i32),
    execution: ArchView,
    n: nat,
)
    requires
        answers_all(world),
        world(RequestView::Exists { path: artifacts.ir.ll }) == ReplyView::Exists(nvvm_ir),
        resolves_to(
            world,
            if nvvm_ir {
                artifacts.ir.target
            } else {
                artifacts.ltoir_target
            },
            emitted,
        ),
        nvvm_ir ==> world(RequestView::ParseTarget { text: emitted.sm }) == ReplyView::Target(
            Ok(emitted),
        ),
        world(RequestView::ComputeCapability) == ReplyView::Capability(Ok(version)),
        world(
            RequestView::ParseTarget {
                text: "sm_"@ + signed_decimal(version.0 as int) + signed_decimal(version.1 as int),
            },
        ) == ReplyView::Target(Ok(execution)),
    ensures
        load_after(
            LoadView { artifacts, stage: LoadStageView::ProbeRecorded },
            world,
            n,
        ).request() matches Some(request) ==> {
            &&& request matches RequestView::LlvmVersion { arch } ==> arch == emitted
            &&& request matches RequestView::VerifyProgram { options } ==> options == seq![
                "-arch="@ + emitted.compute,
            ]
            &&& request matches RequestView::CompileProgram { options } ==> options == seq![
                "-arch="@ + emitted.compute,
                "-gen-lto"@,
            ]
            &&& request matches RequestView::NewLinker { options } ==> {
                &&& options[0] == "-arch="@ + emitted.sm
                &&& emitted.capability == execution.capability ==> options == seq![
                    "-arch="@ + emitted.sm,
                    "-lto"@,
                ]
                &&& emitted.capability != execution.capability ==> options == seq![
                    "-arch="@ + emitted.sm,
                    "-lto"@,
                    "-ptx"@,
                ]
            }
            &&& request is FinishCubin ==> emitted.capability == execution.capability
            &&& request is FinishPtx ==> emitted.capability != execution.capability
        },
{
    let artifact = if nvvm_ir {
        NvvmArtifact::Ir
    } else {
        NvvmArtifact::Ltoir
    };
    lemma_load_is_for_emitted(
        LoadView { artifacts, stage: LoadStageView::ProbeRecorded },
        world,
        artifact,
        emitted,
        version,
        execution,
        n,
    );
}

} // verus!
