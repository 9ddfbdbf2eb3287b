//! Whole runs of lookups and loads: which target an artifact has, what is
//! loaded, and what is not.

use vstd::prelude::*;
use crate::arch::ArchView;
use crate::error::ErrorView;
use crate::link::{LinkView, Output};
use crate::load::{
    after_build,
    ArtifactsView,
    LoadStageView,
    LoadView,
    no_artifact,
    NvvmArtifact,
    open_artifact,
    route_output,
    take_route,
};
use crate::pipeline::{BuildView, BuiltView, SourceView};
use crate::request::{is_answer, ReplyView, RequestView};
use crate::route::{ExecutionRoute, FileArtifact, Present, route, selected};
use crate::runs::{
    answers_all,
    build_after,
    build_outcome,
    build_steps,
    complaint,
    file_bytes,
    image_of,
    law_build_outcome,
    lemma_memory_link,
    link_steps,
    linked,
    recorded_target,
    target_of,
    waits,
};
use crate::target::{
    execution_text,
    law_sidecar_round_trip,
    LookupStageView,
    LookupView,
    sidecar_text,
    source_target,
};
use crate::text::{is_tight, trimmed};

verus! {

/// The lookup after `n` answers.
pub open spec fn lookup_after(
    lookup: LookupView,
    world: spec_fn(RequestView) -> ReplyView,
    n: nat,
) -> LookupView
    decreases n,
{
    match lookup.request() {
        Some(request) if n > 0 => lookup_after(
            lookup.resume(world(request)),
            world,
            (n - 1) as nat,
        ),
        _ => lookup,
    }
}

/// The explicit target and what parsing it gives, if one is set.
pub open spec fn explicit_target(world: spec_fn(RequestView) -> ReplyView) -> Option<
    Result<ArchView, Seq<char>>,
> {
    match world(RequestView::ReadVariable { name: "CUDA_OXIDE_TARGET"@ })->Variable_0 {
        Some(text) => Some(world(RequestView::ParseTarget { text })->Target_0),
        None => None,
    }
}

/// What a lookup comes to: the target that is recorded, or else the explicit
/// one.
pub open spec fn lookup_outcome(
    world: spec_fn(RequestView) -> ReplyView,
    target_path: Option<Seq<char>>,
) -> Result<ArchView, ErrorView> {
    let recorded = match target_path {
        Some(path) => recorded_target(world, path),
        None => Ok(None),
    };
    match recorded {
        Err(error) => Err(error),
        Ok(recorded) => source_target(recorded, explicit_target(world)),
    }
}

/// The number of answers after which every lookup has ended.
pub open spec fn lookup_steps() -> nat {
    3
}

pub(crate) proof fn lemma_lookup_answers(
    world: spec_fn(RequestView) -> ReplyView,
    target_path: Option<Seq<char>>,
)
    requires
        answers_all(world),
    ensures
        world(RequestView::ReadVariable { name: "CUDA_OXIDE_TARGET"@ }) is Variable,
        explicit_target(world) is Some ==> world(
            RequestView::ParseTarget {
                text: world(
                    RequestView::ReadVariable { name: "CUDA_OXIDE_TARGET"@ },
                )->Variable_0->Some_0,
            },
        ) is Target,
        target_path matches Some(path) ==> world(RequestView::ReadText { path }) is Text,
        target_path matches Some(path) ==> (world(RequestView::ReadText { path }) matches ReplyView::Text(
            Ok(Some(contents)),
        ) ==> world(RequestView::ParseTarget { text: trimmed(contents) }) is Target),
{
    let variable = RequestView::ReadVariable { name: "CUDA_OXIDE_TARGET"@ };
    assert(is_answer(variable, world(variable)));
    if let ReplyView::Variable(Some(text)) = world(variable) {
        let parse = RequestView::ParseTarget { text };
        assert(is_answer(parse, world(parse)));
    }
    if let Some(path) = target_path {
        let read = RequestView::ReadText { path };
        assert(is_answer(read, world(read)));
        if let ReplyView::Text(Ok(Some(contents))) = world(read) {
            let parse = RequestView::ParseTarget { text: trimmed(contents) };
            assert(is_answer(parse, world(parse)));
        }
    }
}

/// A lookup comes to the recorded target if there is one, else to the explicit
/// target if that is set and is a target.
pub proof fn law_lookup_outcome(
    world: spec_fn(RequestView) -> ReplyView,
    target_path: Option<Seq<char>>,
    n: nat,
)
    requires
        answers_all(world),
        n >= lookup_steps(),
    ensures
        lookup_after(LookupView::start(target_path), world, n).stage == LookupStageView::Done(
            lookup_outcome(world, target_path),
        ),
{
    lemma_lookup_answers(world, target_path);
    reveal_with_fuel(lookup_after, 4);
}

/// A lookup never asks for the GPU: it reads a variable and a file and parses
/// targets.
pub proof fn law_lookup_ignores_gpu(
    world: spec_fn(RequestView) -> ReplyView,
    lookup: LookupView,
    n: nat,
)
    ensures
        lookup_after(lookup, world, n).request() matches Some(request) ==> request is ReadVariable
            || request is ReadText || request is ParseTarget,
{
}

/// A target that was recorded for an artifact is the one that a later lookup
/// finds, whatever is set explicitly, if the parser knows the target by the
/// name that was recorded.
pub proof fn law_recorded_target_is_found(
    world: spec_fn(RequestView) -> ReplyView,
    target_path: Seq<char>,
    arch: ArchView,
)
    requires
        answers_all(world),
        is_tight(arch.sm),
        world(RequestView::ReadText { path: target_path }) == ReplyView::Text(
            Ok(Some(sidecar_text(arch))),
        ),
        world(RequestView::ParseTarget { text: arch.sm }) == ReplyView::Target(Ok(arch)),
    ensures
        lookup_outcome(world, Some(target_path)) == Ok::<ArchView, ErrorView>(arch),
{
    law_sidecar_round_trip(arch);
}

/// The load after `n` answers.
pub open spec fn load_after(
    load: LoadView,
    world: spec_fn(RequestView) -> ReplyView,
    n: nat,
) -> LoadView
    decreases n,
{
    match load.request() {
        Some(request) if n > 0 => load_after(load.resume(world(request)), world, (n - 1) as nat),
        _ => load,
    }
}

/// The artifacts that exist.
pub open spec fn present_in(
    world: spec_fn(RequestView) -> ReplyView,
    artifacts: ArtifactsView,
    recorded_target: bool,
) -> Present {
    Present {
        ptx: world(RequestView::Exists { path: artifacts.ptx })->Exists_0,
        nvvm_ir: world(RequestView::Exists { path: artifacts.ir.ll })->Exists_0,
        ltoir: world(RequestView::Exists { path: artifacts.ltoir })->Exists_0,
        cubin: world(RequestView::Exists { path: artifacts.cubin })->Exists_0,
        recorded_target,
    }
}

/// The architecture of the GPU.
pub open spec fn execution_target(world: spec_fn(RequestView) -> ReplyView) -> Result<
    ArchView,
    ErrorView,
> {
    match world(RequestView::ComputeCapability)->Capability_0 {
        Err(why) => Err(ErrorView::Driver(why)),
        Ok((major, minor)) => target_of(world, execution_text(major as int, minor as int)),
    }
}

/// What the driver says against loading a file or an image, if anything.
pub open spec fn driver_error(reply: ReplyView) -> Option<ErrorView> {
    match complaint(reply) {
        Some(why) => Some(ErrorView::Driver(why)),
        None => None,
    }
}

/// What loading comes to, of what was built.
pub open spec fn built_loaded(
    world: spec_fn(RequestView) -> ReplyView,
    built: Result<BuiltView, ErrorView>,
) -> Option<ErrorView> {
    match built {
        Err(error) => Some(error),
        Ok(BuiltView::File(path)) => driver_error(world(RequestView::LoadModuleFile { path })),
        Ok(BuiltView::Image(image)) => driver_error(world(RequestView::LoadModuleImage { image })),
    }
}

/// What loading NVVM IR comes to. Native code is built on disk; PTX for a
/// newer GPU is built in memory.
pub open spec fn ir_loaded(
    world: spec_fn(RequestView) -> ReplyView,
    artifacts: ArtifactsView,
    emitted: ArchView,
    execution: ArchView,
) -> Option<ErrorView> {
    match route(emitted, execution) {
        Err(error) => Some(error),
        Ok(ExecutionRoute::Cubin) => built_loaded(
            world,
            build_outcome(world, emitted.sm, SourceView::IrFile { files: artifacts.ir }),
        ),
        Ok(ExecutionRoute::PtxBridge) => match file_bytes(world, artifacts.ir.ll) {
            Err(error) => Some(error),
            Ok(nvvm_ir) => built_loaded(
                world,
                build_outcome(
                    world,
                    emitted.sm,
                    SourceView::Ir {
                        nvvm_ir,
                        module_name: artifacts.ir.ll,
                        output: Output::Ptx,
                    },
                ),
            ),
        },
    }
}

/// What loading LTOIR comes to.
pub open spec fn ltoir_loaded(
    world: spec_fn(RequestView) -> ReplyView,
    artifacts: ArtifactsView,
    emitted: ArchView,
    execution: ArchView,
) -> Option<ErrorView> {
    match file_bytes(world, artifacts.ltoir) {
        Err(error) => Some(error),
        Ok(ltoir) => match route(emitted, execution) {
            Err(error) => Some(error),
            Ok(route) => built_loaded(
                world,
                image_of(linked(world, ltoir, artifacts.ltoir, emitted, route_output(route))),
            ),
        },
    }
}

/// What loading the selected artifact comes to.
pub open spec fn artifact_loaded(
    world: spec_fn(RequestView) -> ReplyView,
    artifacts: ArtifactsView,
    artifact: FileArtifact,
) -> Option<ErrorView> {
    match artifact {
        FileArtifact::Ptx => driver_error(
            world(RequestView::LoadModuleFile { path: artifacts.ptx }),
        ),
        FileArtifact::Cubin => driver_error(
            world(RequestView::LoadModuleFile { path: artifacts.cubin }),
        ),
        FileArtifact::NvvmIr => match lookup_outcome(world, Some(artifacts.ir.target)) {
            Err(error) => Some(error),
            Ok(emitted) => match execution_target(world) {
                Err(error) => Some(error),
                Ok(execution) => ir_loaded(world, artifacts, emitted, execution),
            },
        },
        FileArtifact::Ltoir => match lookup_outcome(world, Some(artifacts.ltoir_target)) {
            Err(error) => Some(error),
            Ok(emitted) => match execution_target(world) {
                Err(error) => Some(error),
                Ok(execution) => ltoir_loaded(world, artifacts, emitted, execution),
            },
        },
    }
}

/// What a load comes to: nothing if the module is loaded, else what went wrong.
pub open spec fn load_outcome(
    world: spec_fn(RequestView) -> ReplyView,
    artifacts: ArtifactsView,
) -> Option<ErrorView> {
    match world(RequestView::TryExists { path: artifacts.ir.target })->Probed_0 {
        Err(source) => Some(ErrorView::Io { path: artifacts.ir.target, source }),
        Ok(recorded) => match selected(present_in(world, artifacts, recorded)) {
            None => Some(no_artifact(artifacts)),
            Some(artifact) => artifact_loaded(world, artifacts, artifact),
        },
    }
}

/// The number of answers after which every load has ended.
pub open spec fn load_steps() -> nat {
    5 + lookup_steps() + 3 + build_steps() + 1
}

/// A load at some stage.
pub open spec fn at(artifacts: ArtifactsView, stage: LoadStageView) -> LoadView {
    LoadView { artifacts, stage }
}

proof fn lemma_load_file(
    world: spec_fn(RequestView) -> ReplyView,
    artifacts: ArtifactsView,
    path: Seq<char>,
    n: nat,
)
    requires
        answers_all(world),
        n >= 1,
    ensures
        load_after(at(artifacts, LoadStageView::LoadFile { path }), world, n).stage
            == LoadStageView::Done(driver_error(world(RequestView::LoadModuleFile { path }))),
{
    let request = RequestView::LoadModuleFile { path };
    assert(is_answer(request, world(request)));
    reveal_with_fuel(load_after, 2);
}

proof fn lemma_load_image(
    world: spec_fn(RequestView) -> ReplyView,
    artifacts: ArtifactsView,
    image: Seq<u8>,
    n: nat,
)
    requires
        answers_all(world),
        n >= 1,
    ensures
        load_after(at(artifacts, LoadStageView::LoadImage { image }), world, n).stage
            == LoadStageView::Done(driver_error(world(RequestView::LoadModuleImage { image }))),
{
    let request = RequestView::LoadModuleImage { image };
    assert(is_answer(request, world(request)));
    reveal_with_fuel(load_after, 2);
}

/// A load that builds goes on as its build does, until that has ended.
proof fn lemma_building(
    world: spec_fn(RequestView) -> ReplyView,
    artifacts: ArtifactsView,
    build: BuildView,
    result: Result<BuiltView, ErrorView>,
    k: nat,
    n: nat,
)
    requires
        answers_all(world),
        !(build is Done),
        waits(build),
        build_after(build, world, k) == BuildView::Done(result),
        n >= k + 1,
    ensures
        load_after(at(artifacts, LoadStageView::Building { build }), world, n).stage
            == LoadStageView::Done(built_loaded(world, result)),
    decreases k,
{
    let request = build.request()->Some_0;
    let next = build.resume(world(request));
    let load = at(artifacts, LoadStageView::Building { build });
    assert(load.resume(world(request)) == at(artifacts, after_build(next)));
    assert(load_after(load, world, n) == load_after(
        at(artifacts, after_build(next)),
        world,
        (n - 1) as nat,
    ));
    if next is Done {
        assert(build_after(next, world, (k - 1) as nat) == next);
        match result {
            Ok(BuiltView::File(path)) => {
                lemma_load_file(world, artifacts, path, (n - 1) as nat);
            },
            Ok(BuiltView::Image(image)) => {
                lemma_load_image(world, artifacts, image, (n - 1) as nat);
            },
            Err(_) => {},
        }
    } else {
        lemma_building(world, artifacts, next, result, (k - 1) as nat, (n - 1) as nat);
    }
}

proof fn lemma_load_built(
    world: spec_fn(RequestView) -> ReplyView,
    artifacts: ArtifactsView,
    text: Seq<char>,
    source: SourceView,
    n: nat,
)
    requires
        answers_all(world),
        n >= build_steps() + 1,
    ensures
        load_after(
            at(
                artifacts,
                LoadStageView::Building { build: BuildView::ParseTarget { text, source } },
            ),
            world,
            n,
        ).stage == LoadStageView::Done(built_loaded(world, build_outcome(world, text, source))),
{
    law_build_outcome(world, text, source, build_steps());
    lemma_building(
        world,
        artifacts,
        BuildView::ParseTarget { text, source },
        build_outcome(world, text, source),
        build_steps(),
        n,
    );
}

/// What loading NVVM output comes to, emitted for a known target.
pub open spec fn nvvm_loaded(
    world: spec_fn(RequestView) -> ReplyView,
    artifacts: ArtifactsView,
    artifact: NvvmArtifact,
    emitted: ArchView,
) -> Option<ErrorView> {
    match execution_target(world) {
        Err(error) => Some(error),
        Ok(execution) => match artifact {
            NvvmArtifact::Ir => ir_loaded(world, artifacts, emitted, execution),
            NvvmArtifact::Ltoir => ltoir_loaded(world, artifacts, emitted, execution),
        },
    }
}

proof fn lemma_load_ir(
    world: spec_fn(RequestView) -> ReplyView,
    artifacts: ArtifactsView,
    emitted: ArchView,
    execution: ArchView,
    n: nat,
)
    requires
        answers_all(world),
        n >= 1 + build_steps() + 1,
    ensures
        load_after(
            at(artifacts, take_route(artifacts, NvvmArtifact::Ir, emitted, execution)),
            world,
            n,
        ).stage == LoadStageView::Done(ir_loaded(world, artifacts, emitted, execution)),
{
    match route(emitted, execution) {
        Err(_) => {},
        Ok(ExecutionRoute::Cubin) => {
            let source = SourceView::IrFile { files: artifacts.ir };
            lemma_load_built(world, artifacts, emitted.sm, source, n);
        },
        Ok(ExecutionRoute::PtxBridge) => {
            let read = RequestView::ReadFile { path: artifacts.ir.ll };
            assert(is_answer(read, world(read)));
            reveal_with_fuel(load_after, 2);
            if let Ok(nvvm_ir) = file_bytes(world, artifacts.ir.ll) {
                let source = SourceView::Ir {
                    nvvm_ir,
                    module_name: artifacts.ir.ll,
                    output: Output::Ptx,
                };
                lemma_load_built(world, artifacts, emitted.sm, source, (n - 1) as nat);
            }
        },
    }
}

proof fn lemma_load_ltoir(
    world: spec_fn(RequestView) -> ReplyView,
    artifacts: ArtifactsView,
    emitted: ArchView,
    execution: ArchView,
    n: nat,
)
    requires
        answers_all(world),
        n >= 1 + build_steps() + 1,
    ensures
        load_after(
            at(artifacts, LoadStageView::ReadLtoir { emitted, execution }),
            world,
            n,
        ).stage == LoadStageView::Done(ltoir_loaded(world, artifacts, emitted, execution)),
{
    let read = RequestView::ReadFile { path: artifacts.ltoir };
    assert(is_answer(read, world(read)));
    reveal_with_fuel(load_after, 2);
    if let Ok(ltoir) = file_bytes(world, artifacts.ltoir) {
        if let Ok(chosen) = route(emitted, execution) {
            let output = route_output(chosen);
            let link = LinkView::start(ltoir, artifacts.ltoir, emitted, output);
            lemma_memory_link(world, ltoir, artifacts.ltoir, emitted, output, link_steps());
            lemma_building(
                world,
                artifacts,
                BuildView::Linking { link, cubin_path: None },
                image_of(linked(world, ltoir, artifacts.ltoir, emitted, output)),
                link_steps(),
                (n - 1) as nat,
            );
        }
    }
}

proof fn lemma_load_nvvm(
    world: spec_fn(RequestView) -> ReplyView,
    artifacts: ArtifactsView,
    artifact: NvvmArtifact,
    emitted: ArchView,
    n: nat,
)
    requires
        answers_all(world),
        n >= 3 + build_steps() + 1,
    ensures
        load_after(
            at(artifacts, LoadStageView::Capability { artifact, emitted }),
            world,
            n,
        ).stage == LoadStageView::Done(nvvm_loaded(world, artifacts, artifact, emitted)),
{
    let capability = RequestView::ComputeCapability;
    assert(is_answer(capability, world(capability)));
    reveal_with_fuel(load_after, 3);
    if let ReplyView::Capability(Ok((major, minor))) = world(capability) {
        let parse = RequestView::ParseTarget { text: execution_text(major as int, minor as int) };
        assert(is_answer(parse, world(parse)));
        if let Ok(execution) = execution_target(world) {
            match artifact {
                NvvmArtifact::Ir => {
                    lemma_load_ir(world, artifacts, emitted, execution, (n - 2) as nat);
                },
                NvvmArtifact::Ltoir => {
                    lemma_load_ltoir(world, artifacts, emitted, execution, (n - 2) as nat);
                },
            }
        }
    }
}

proof fn lemma_load_looked_up(
    world: spec_fn(RequestView) -> ReplyView,
    artifacts: ArtifactsView,
    artifact: NvvmArtifact,
    path: Seq<char>,
    n: nat,
)
    requires
        answers_all(world),
        n >= lookup_steps() + 3 + build_steps() + 1,
    ensures
        load_after(
            at(
                artifacts,
                LoadStageView::FindTarget { artifact, lookup: LookupView::start(Some(path)) },
            ),
            world,
            n,
        ).stage == LoadStageView::Done(
            match lookup_outcome(world, Some(path)) {
                Err(error) => Some(error),
                Ok(emitted) => nvvm_loaded(world, artifacts, artifact, emitted),
            },
        ),
{
    lemma_lookup_answers(world, Some(path));
    reveal_with_fuel(load_after, 4);
    if let Ok(emitted) = lookup_outcome(world, Some(path)) {
        lemma_load_nvvm(world, artifacts, artifact, emitted, (n - 3) as nat);
    }
}

/// A load comes to the module of the artifact that the lookup order selects,
/// or to the first thing that goes wrong, and it does so within a fixed number
/// of answers.
pub proof fn law_load_outcome(
    world: spec_fn(RequestView) -> ReplyView,
    artifacts: ArtifactsView,
    n: nat,
)
    requires
        answers_all(world),
        n >= load_steps(),
    ensures
        load_after(at(artifacts, LoadStageView::ProbeRecorded), world, n).stage
            == LoadStageView::Done(load_outcome(world, artifacts)),
{
    let probe = RequestView::TryExists { path: artifacts.ir.target };
    let ptx = RequestView::Exists { path: artifacts.ptx };
    let nvvm_ir = RequestView::Exists { path: artifacts.ir.ll };
    let ltoir = RequestView::Exists { path: artifacts.ltoir };
    let cubin = RequestView::Exists { path: artifacts.cubin };
    assert(is_answer(probe, world(probe)));
    assert(is_answer(ptx, world(ptx)));
    assert(is_answer(nvvm_ir, world(nvvm_ir)));
    assert(is_answer(ltoir, world(ltoir)));
    assert(is_answer(cubin, world(cubin)));
    let m = (n - 5) as nat;
    if let ReplyView::Probed(Ok(recorded)) = world(probe) {
        let artifact = selected(present_in(world, artifacts, recorded));
        assert(load_after(at(artifacts, LoadStageView::ProbeRecorded), world, n) == load_after(
            at(artifacts, open_artifact(artifacts, artifact)),
            world,
            m,
        )) by {
            reveal_with_fuel(load_after, 6);
        }
        match artifact {
            None => {},
            Some(FileArtifact::Ptx) => lemma_load_file(world, artifacts, artifacts.ptx, m),
            Some(FileArtifact::Cubin) => lemma_load_file(world, artifacts, artifacts.cubin, m),
            Some(FileArtifact::NvvmIr) => lemma_load_looked_up(
                world,
                artifacts,
                NvvmArtifact::Ir,
                artifacts.ir.target,
                m,
            ),
            Some(FileArtifact::Ltoir) => lemma_load_looked_up(
                world,
                artifacts,
                NvvmArtifact::Ltoir,
                artifacts.ltoir_target,
                m,
            ),
        }
    } else {
        reveal_with_fuel(load_after, 2);
    }
}

} // verus!
