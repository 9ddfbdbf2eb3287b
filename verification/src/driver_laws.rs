//! What the driver is asked to load.

use vstd::prelude::*;
use crate::arch::ArchView;
use crate::error::ErrorView;
use crate::link::Output;
use crate::load::{ArtifactsView, LoadStageView, LoadView, no_artifact, open_artifact, route_output};
use crate::load_laws::{
    builds_natively,
    is_driver_load,
    law_driver_has_last_word,
    lemma_driver_load_ends,
    lemma_load_after_sum,
    load_asks,
};
use crate::load_runs::{
    at,
    driver_error,
    execution_target,
    lemma_lookup_answers,
    load_after,
    load_outcome,
    lookup_outcome,
    present_in,
};
use crate::pipeline::{BuildView, BuiltView, file_build, SourceView};
use crate::request::{is_answer, ReplyView, RequestView};
use crate::route::{ExecutionRoute, FileArtifact, route, selected};
use crate::runs::{
    answers_all,
    build_after,
    build_asks,
    build_outcome,
    compiled,
    file_bytes,
    image_of,
    law_build_waits_or_has_ended,
    law_successful_build_writes,
    linked,
    target_of,
    waits,
};
use crate::target::execution_text;

verus! {

/// The request that loads what was built.
pub open spec fn driver_request(built: BuiltView) -> RequestView {
    match built {
        BuiltView::File(path) => RequestView::LoadModuleFile { path },
        BuiltView::Image(image) => RequestView::LoadModuleImage { image },
    }
}

/// The request that loads what was built, or why nothing was.
pub open spec fn built_request(built: Result<BuiltView, ErrorView>) -> Result<
    RequestView,
    ErrorView,
> {
    match built {
        Ok(built) => Ok(driver_request(built)),
        Err(error) => Err(error),
    }
}

/// What NVVM IR emitted for `emitted` is built to, for a GPU of `execution`:
/// a cubin in a file, or PTX in memory.
pub open spec fn ir_built(
    world: spec_fn(RequestView) -> ReplyView,
    artifacts: ArtifactsView,
    emitted: ArchView,
    execution: ArchView,
) -> Result<BuiltView, ErrorView> {
    match route(emitted, execution) {
        Err(error) => Err(error),
        Ok(ExecutionRoute::Cubin) => build_outcome(
            world,
            emitted.sm,
            SourceView::IrFile { files: artifacts.ir },
        ),
        Ok(ExecutionRoute::PtxBridge) => match file_bytes(world, artifacts.ir.ll) {
            Err(error) => Err(error),
            Ok(nvvm_ir) => build_outcome(
                world,
                emitted.sm,
                SourceView::Ir { nvvm_ir, module_name: artifacts.ir.ll, output: Output::Ptx },
            ),
        },
    }
}

/// What LTOIR emitted for `emitted` is linked to, for a GPU of `execution`: a
/// cubin or PTX, in memory.
pub open spec fn ltoir_built(
    world: spec_fn(RequestView) -> ReplyView,
    artifacts: ArtifactsView,
    emitted: ArchView,
    execution: ArchView,
) -> Result<BuiltView, ErrorView> {
    match file_bytes(world, artifacts.ltoir) {
        Err(error) => Err(error),
        Ok(ltoir) => match route(emitted, execution) {
            Err(error) => Err(error),
            Ok(route) => image_of(
                linked(world, ltoir, artifacts.ltoir, emitted, route_output(route)),
            ),
        },
    }
}

/// What the driver is asked for with the selected artifact: PTX and a cubin
/// are loaded as they lie there, NVVM output once it is built.
pub open spec fn artifact_request(
    world: spec_fn(RequestView) -> ReplyView,
    artifacts: ArtifactsView,
    artifact: FileArtifact,
) -> Result<RequestView, ErrorView> {
    match artifact {
        FileArtifact::Ptx => Ok(RequestView::LoadModuleFile { path: artifacts.ptx }),
        FileArtifact::Cubin => Ok(RequestView::LoadModuleFile { path: artifacts.cubin }),
        FileArtifact::NvvmIr => match lookup_outcome(world, Some(artifacts.ir.target)) {
            Err(error) => Err(error),
            Ok(emitted) => match execution_target(world) {
                Err(error) => Err(error),
                Ok(execution) => built_request(ir_built(world, artifacts, emitted, execution)),
            },
        },
        FileArtifact::Ltoir => match lookup_outcome(world, Some(artifacts.ltoir_target)) {
            Err(error) => Err(error),
            Ok(emitted) => match execution_target(world) {
                Err(error) => Err(error),
                Ok(execution) => built_request(ltoir_built(world, artifacts, emitted, execution)),
            },
        },
    }
}

/// What the driver is asked for, or why it is asked for nothing.
pub open spec fn module_request(
    world: spec_fn(RequestView) -> ReplyView,
    artifacts: ArtifactsView,
) -> Result<RequestView, ErrorView> {
    match world(RequestView::TryExists { path: artifacts.ir.target })->Probed_0 {
        Err(source) => Err(ErrorView::Io { path: artifacts.ir.target, source }),
        Ok(recorded) => match selected(present_in(world, artifacts, recorded)) {
            None => Err(no_artifact(artifacts)),
            Some(artifact) => artifact_request(world, artifacts, artifact),
        },
    }
}

/// A load comes to what the driver says of the module that it is asked for, or
/// to why it is asked for none.
pub proof fn law_load_comes_to_module(
    world: spec_fn(RequestView) -> ReplyView,
    artifacts: ArtifactsView,
)
    ensures
        load_outcome(world, artifacts) == (match module_request(world, artifacts) {
            Ok(request) => driver_error(world(request)),
            Err(error) => Some(error),
        }),
        module_request(world, artifacts) matches Ok(request) ==> is_driver_load(request),
{
}

/// Two worlds differ at most in what the driver says.
spec fn differ_in_driver(
    a: spec_fn(RequestView) -> ReplyView,
    b: spec_fn(RequestView) -> ReplyView,
) -> bool {
    forall|request: RequestView| !is_driver_load(request) ==> a(request) == #[trigger] b(request)
}

proof fn lemma_same_build(
    a: spec_fn(RequestView) -> ReplyView,
    b: spec_fn(RequestView) -> ReplyView,
    text: Seq<char>,
    source: SourceView,
)
    requires
        differ_in_driver(a, b),
    ensures
        build_outcome(a, text, source) == build_outcome(b, text, source),
{
    assert forall|nvvm_ir: Seq<u8>, name: Seq<char>, arch: ArchView| #[trigger]
        compiled(a, nvvm_ir, name, arch) == compiled(b, nvvm_ir, name, arch) by {}
    assert forall|ltoir: Seq<u8>, name: Seq<char>, arch: ArchView, output: Output| #[trigger]
        linked(a, ltoir, name, arch, output) == linked(b, ltoir, name, arch, output) by {}
}

proof fn lemma_same_request(
    a: spec_fn(RequestView) -> ReplyView,
    b: spec_fn(RequestView) -> ReplyView,
    artifacts: ArtifactsView,
)
    requires
        differ_in_driver(a, b),
    ensures
        module_request(a, artifacts) == module_request(b, artifacts),
{
    assert(lookup_outcome(a, Some(artifacts.ir.target)) == lookup_outcome(
        b,
        Some(artifacts.ir.target),
    ));
    assert(lookup_outcome(a, Some(artifacts.ltoir_target)) == lookup_outcome(
        b,
        Some(artifacts.ltoir_target),
    ));
    assert(execution_target(a) == execution_target(b));
    assert forall|emitted: ArchView, execution: ArchView| #[trigger]
        ir_built(a, artifacts, emitted, execution) == ir_built(
            b,
            artifacts,
            emitted,
            execution,
        ) by {
        lemma_same_build(a, b, emitted.sm, SourceView::IrFile { files: artifacts.ir });
        if let Ok(nvvm_ir) = file_bytes(a, artifacts.ir.ll) {
            lemma_same_build(
                a,
                b,
                emitted.sm,
                SourceView::Ir { nvvm_ir, module_name: artifacts.ir.ll, output: Output::Ptx },
            );
        }
    }
    assert forall|emitted: ArchView, execution: ArchView| #[trigger]
        ltoir_built(a, artifacts, emitted, execution) == ltoir_built(
            b,
            artifacts,
            emitted,
            execution,
        ) by {}
}

proof fn lemma_same_until_driver(
    load: LoadView,
    a: spec_fn(RequestView) -> ReplyView,
    b: spec_fn(RequestView) -> ReplyView,
    n: nat,
)
    requires
        answers_all(a),
        differ_in_driver(a, b),
        load_after(load, a, n).request() is Some,
    ensures
        load_after(load, b, n) == load_after(load, a, n),
    decreases n,
{
    match load.request() {
        Some(request) if n > 0 => {
            if is_driver_load(request) {
                lemma_driver_load_ends(load, a, request, n);
            } else {
                assert(a(request) == b(request));
                lemma_same_until_driver(load.resume(a(request)), a, b, (n - 1) as nat);
            }
        },
        _ => {},
    }
}

/// What the driver is asked to load is the selected file, or what was just
/// built of the selected artifact; it is asked for nothing else.
pub proof fn law_driver_loads_selected(
    world: spec_fn(RequestView) -> ReplyView,
    artifacts: ArtifactsView,
    request: RequestView,
)
    requires
        answers_all(world),
        load_asks(at(artifacts, LoadStageView::ProbeRecorded), world, request),
        is_driver_load(request),
    ensures
        module_request(world, artifacts) == Ok::<RequestView, ErrorView>(request),
{
    let load = at(artifacts, LoadStageView::ProbeRecorded);
    // A driver that loads this very module and no other.
    let other = |asked: RequestView|
        if !is_driver_load(asked) {
            world(asked)
        } else if asked == request {
            ReplyView::Finished(Ok(()))
        } else {
            ReplyView::Finished(Err(Seq::empty()))
        };
    assert(answers_all(other)) by {
        assert forall|asked: RequestView| is_answer(asked, #[trigger] other(asked)) by {
            assert(is_answer(asked, world(asked)));
        }
    }
    let n = choose|n: nat| #[trigger] load_after(load, world, n).request() == Some(request);
    lemma_same_until_driver(load, world, other, n);
    assert(load_after(load, other, n).request() == Some(request));
    law_driver_has_last_word(other, artifacts, request);
    law_load_comes_to_module(other, artifacts);
    lemma_same_request(world, other, artifacts);
}

/// The module is loaded last, and once: nothing is asked for after it.
pub proof fn law_module_is_loaded_last(
    world: spec_fn(RequestView) -> ReplyView,
    load: LoadView,
    n: nat,
    m: nat,
)
    requires
        answers_all(world),
        load_after(load, world, n).request() matches Some(request) && is_driver_load(request),
        load_after(load, world, m).request() is Some,
    ensures
        m <= n,
{
    if m > n {
        let request = load_after(load, world, n).request()->Some_0;
        lemma_load_after_sum(load, world, n, (m - n) as nat);
        lemma_driver_load_ends(load_after(load, world, n), world, request, (m - n) as nat);
    }
}

/// A load that builds is where its build is, until that has ended.
proof fn lemma_building_follows(
    world: spec_fn(RequestView) -> ReplyView,
    artifacts: ArtifactsView,
    build: BuildView,
    n: nat,
)
    requires
        waits(build),
        !(build is Done),
        !(build_after(build, world, n) is Done),
    ensures
        load_after(at(artifacts, LoadStageView::Building { build }), world, n) == at(
            artifacts,
            LoadStageView::Building { build: build_after(build, world, n) },
        ),
    decreases n,
{
    if n > 0 {
        let request = build.request()->Some_0;
        law_build_waits_or_has_ended(build, world(request));
        let next = build.resume(world(request));
        assert(build_after(build, world, n) == build_after(next, world, (n - 1) as nat));
        lemma_building_follows(world, artifacts, next, (n - 1) as nat);
    }
}

proof fn lemma_reaches_native_build(
    world: spec_fn(RequestView) -> ReplyView,
    artifacts: ArtifactsView,
    emitted: ArchView,
)
    requires
        answers_all(world),
        builds_natively(world, artifacts),
        lookup_outcome(world, Some(artifacts.ir.target)) == Ok::<ArchView, ErrorView>(emitted),
    ensures
        load_after(at(artifacts, LoadStageView::ProbeRecorded), world, 10) == at(
            artifacts,
            LoadStageView::Building { build: file_build(artifacts.ir, emitted.sm) },
        ),
{
    let load = at(artifacts, LoadStageView::ProbeRecorded);
    let probe = RequestView::TryExists { path: artifacts.ir.target };
    let ptx = RequestView::Exists { path: artifacts.ptx };
    let nvvm_ir = RequestView::Exists { path: artifacts.ir.ll };
    let ltoir = RequestView::Exists { path: artifacts.ltoir };
    let cubin = RequestView::Exists { path: artifacts.cubin };
    assert(is_answer(probe, world(probe)));
    assert(is_answer(ptx, world(ptx)));
    assert(is_answer(nvvm_ir, world(nvvm_ir)));
    assert(is_answer(ltoir, world(ltoir)));
    assert(is_answer(cubin, world(cubin)));
    let opened = at(artifacts, open_artifact(artifacts, Some(FileArtifact::NvvmIr)));
    assert(load_after(load, world, 5) == opened) by {
        reveal_with_fuel(load_after, 6);
    }
    lemma_load_after_sum(load, world, 5, 5);
    lemma_lookup_answers(world, Some(artifacts.ir.target));
    let capability = RequestView::ComputeCapability;
    assert(is_answer(capability, world(capability)));
    if let ReplyView::Capability(Ok((major, minor))) = world(capability) {
        let parse = RequestView::ParseTarget { text: execution_text(major as int, minor as int) };
        assert(is_answer(parse, world(parse)));
    }
    reveal_with_fuel(load_after, 6);
}

/// A load that builds native code from NVVM IR asks for all that the build
/// asks for.
pub proof fn law_native_load_asks_for_build(
    world: spec_fn(RequestView) -> ReplyView,
    artifacts: ArtifactsView,
    emitted: ArchView,
    request: RequestView,
)
    requires
        answers_all(world),
        builds_natively(world, artifacts),
        lookup_outcome(world, Some(artifacts.ir.target)) == Ok::<ArchView, ErrorView>(emitted),
        build_asks(file_build(artifacts.ir, emitted.sm), world, request),
    ensures
        load_asks(at(artifacts, LoadStageView::ProbeRecorded), world, request),
{
    let load = at(artifacts, LoadStageView::ProbeRecorded);
    let build = file_build(artifacts.ir, emitted.sm);
    let n = choose|n: nat| #[trigger] build_after(build, world, n).request() == Some(request);
    lemma_reaches_native_build(world, artifacts, emitted);
    lemma_building_follows(world, artifacts, build, n);
    lemma_load_after_sum(load, world, 10, n);
    assert(load_after(load, world, 10 + n).request() == Some(request));
}

/// A native load that asks the driver for anything asks for the cubin next to
/// the NVVM IR, and has asked for that cubin to be written, as it was just
/// linked.
pub proof fn law_native_load_loads_written_cubin(
    world: spec_fn(RequestView) -> ReplyView,
    artifacts: ArtifactsView,
    emitted: ArchView,
    request: RequestView,
)
    requires
        answers_all(world),
        builds_natively(world, artifacts),
        lookup_outcome(world, Some(artifacts.ir.target)) == Ok::<ArchView, ErrorView>(emitted),
        load_asks(at(artifacts, LoadStageView::ProbeRecorded), world, request),
        is_driver_load(request),
    ensures
        request == (RequestView::LoadModuleFile { path: artifacts.ir.cubin }),
        ({
            let arch = target_of(world, emitted.sm)->Ok_0;
            let nvvm_ir = file_bytes(world, artifacts.ir.ll)->Ok_0;
            let ltoir = compiled(world, nvvm_ir, artifacts.ir.ll, arch)->Ok_0;
            let cubin = linked(world, ltoir, artifacts.ir.ltoir, arch, Output::Cubin)->Ok_0;
            load_asks(
                at(artifacts, LoadStageView::ProbeRecorded),
                world,
                RequestView::WriteFile { path: artifacts.ir.cubin, contents: cubin },
            )
        }),
{
    law_driver_loads_selected(world, artifacts, request);
    law_successful_build_writes(world, artifacts.ir, emitted.sm);
    let arch = target_of(world, emitted.sm)->Ok_0;
    let nvvm_ir = file_bytes(world, artifacts.ir.ll)->Ok_0;
    let ltoir = compiled(world, nvvm_ir, artifacts.ir.ll, arch)->Ok_0;
    let cubin = linked(world, ltoir, artifacts.ir.ltoir, arch, Output::Cubin)->Ok_0;
    law_native_load_asks_for_build(
        world,
        artifacts,
        emitted,
        RequestView::WriteFile { path: artifacts.ir.cubin, contents: cubin },
    );
}

} // verus!
