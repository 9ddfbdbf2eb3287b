//! What every load keeps to: which artifacts are not fallen back to, and when
//! the driver is asked to load anything.

use vstd::prelude::*;
use crate::arch::ArchView;
use crate::build_laws::{is_build_of, writes_output};
use crate::error::ErrorView;
use crate::load::{ArtifactsView, LoadStageView, LoadView, no_artifact, NvvmArtifact};
use crate::load_runs::{
    at,
    driver_error,
    execution_target,
    law_load_outcome,
    law_lookup_outcome,
    load_after,
    load_outcome,
    load_steps,
    lookup_after,
    lookup_outcome,
    lookup_steps,
    present_in,
};
use crate::request::{is_answer, ReplyView, RequestView};
use crate::route::{ExecutionRoute, FileArtifact, route, selected};
use crate::runs::{
    answers_all,
    file_bytes,
    is_in_memory,
    is_write,
    law_build_waits_or_has_ended,
    target_of,
    waits,
};
use crate::target::{LookupStageView, LookupView};
use crate::text::trimmed;

verus! {

/// The load asks for `request` at some time.
pub open spec fn load_asks(
    load: LoadView,
    world: spec_fn(RequestView) -> ReplyView,
    request: RequestView,
) -> bool {
    exists|n: nat| #[trigger] load_after(load, world, n).request() == Some(request)
}

/// A request for the driver to load a module.
pub open spec fn is_driver_load(request: RequestView) -> bool {
    request is LoadModuleFile || request is LoadModuleImage
}

/// There is neither NVVM IR nor LTOIR.
pub open spec fn has_no_nvvm_output(
    world: spec_fn(RequestView) -> ReplyView,
    artifacts: ArtifactsView,
) -> bool {
    &&& world(RequestView::Exists { path: artifacts.ir.ll }) == ReplyView::Exists(false)
    &&& world(RequestView::Exists { path: artifacts.ltoir }) == ReplyView::Exists(false)
}

/// A recorded target whose NVVM output is missing is no artifact, whatever
/// older PTX or cubin there is.
pub proof fn law_record_without_output_is_no_artifact(
    world: spec_fn(RequestView) -> ReplyView,
    artifacts: ArtifactsView,
)
    requires
        world(RequestView::TryExists { path: artifacts.ir.target }) == ReplyView::Probed(Ok(true)),
        has_no_nvvm_output(world, artifacts),
    ensures
        load_outcome(world, artifacts) == Some(no_artifact(artifacts)),
{
}

/// Where nothing is found, the load ends in an error that names the kernel and
/// the directory.
pub proof fn law_nothing_found_is_no_artifact(
    world: spec_fn(RequestView) -> ReplyView,
    artifacts: ArtifactsView,
)
    requires
        world(RequestView::TryExists { path: artifacts.ir.target }) is Probed,
        world(RequestView::TryExists { path: artifacts.ir.target })->Probed_0 is Ok,
        has_no_nvvm_output(world, artifacts),
        world(RequestView::Exists { path: artifacts.ptx }) == ReplyView::Exists(false),
        world(RequestView::Exists { path: artifacts.cubin }) == ReplyView::Exists(false),
    ensures
        load_outcome(world, artifacts) == Some(no_artifact(artifacts)),
{
}

/// NVVM output for which no target is recorded, and none is set explicitly, is
/// not loaded: the GPU does not tell which target it was emitted for.
pub proof fn law_unrecorded_output_needs_explicit_target(
    world: spec_fn(RequestView) -> ReplyView,
    artifacts: ArtifactsView,
)
    requires
        world(RequestView::TryExists { path: artifacts.ir.target }) == ReplyView::Probed(Ok(false)),
        world(RequestView::Exists { path: artifacts.ptx }) == ReplyView::Exists(false),
        world(RequestView::Exists { path: artifacts.ir.ll }) == ReplyView::Exists(true) || world(
            RequestView::Exists { path: artifacts.ltoir },
        ) == ReplyView::Exists(true),
        world(RequestView::ReadText { path: artifacts.ir.target }) == ReplyView::Text(Ok(None)),
        world(RequestView::ReadText { path: artifacts.ltoir_target }) == ReplyView::Text(Ok(None)),
        world(RequestView::ReadVariable { name: "CUDA_OXIDE_TARGET"@ }) == ReplyView::Variable(
            None,
        ),
    ensures
        load_outcome(world, artifacts) == Some(ErrorView::TargetNotFound),
{
}

pub(crate) proof fn lemma_load_after_sum(
    load: LoadView,
    world: spec_fn(RequestView) -> ReplyView,
    n: nat,
    m: nat,
)
    ensures
        load_after(load, world, n + m) == load_after(load_after(load, world, n), world, m),
    decreases n,
{
    match load.request() {
        Some(request) if n > 0 => {
            lemma_load_after_sum(load.resume(world(request)), world, (n - 1) as nat, m);
        },
        _ => {},
    }
}

pub(crate) proof fn lemma_driver_load_ends(
    load: LoadView,
    world: spec_fn(RequestView) -> ReplyView,
    request: RequestView,
    n: nat,
)
    requires
        answers_all(world),
        load.request() == Some(request),
        is_driver_load(request),
        n >= 1,
    ensures
        load_after(load, world, n).stage == LoadStageView::Done(driver_error(world(request))),
{
    assert(is_answer(request, world(request)));
    reveal_with_fuel(load_after, 2);
}

/// The driver has the last word: a load that asks it to load a module comes to
/// what the driver says.
pub proof fn law_driver_has_last_word(
    world: spec_fn(RequestView) -> ReplyView,
    artifacts: ArtifactsView,
    request: RequestView,
)
    requires
        answers_all(world),
        load_asks(at(artifacts, LoadStageView::ProbeRecorded), world, request),
        is_driver_load(request),
    ensures
        load_outcome(world, artifacts) == driver_error(world(request)),
{
    let load = at(artifacts, LoadStageView::ProbeRecorded);
    let n = choose|n: nat| #[trigger] load_after(load, world, n).request() == Some(request);
    lemma_driver_load_ends(load_after(load, world, n), world, request, load_steps());
    lemma_load_after_sum(load, world, n, load_steps());
    law_load_outcome(world, artifacts, n + load_steps());
}

/// A load that fails for another reason than the driver never asks the driver
/// to load anything.
pub proof fn law_failed_load_loads_nothing(
    world: spec_fn(RequestView) -> ReplyView,
    artifacts: ArtifactsView,
    error: ErrorView,
    request: RequestView,
)
    requires
        answers_all(world),
        load_outcome(world, artifacts) == Some(error),
        !(error is Driver),
        load_asks(at(artifacts, LoadStageView::ProbeRecorded), world, request),
    ensures
        !is_driver_load(request),
{
    if is_driver_load(request) {
        law_driver_has_last_word(world, artifacts, request);
    }
}

/// NVVM output is not loaded on a GPU that it cannot run on: the load ends in
/// the error of its route.
pub proof fn law_incompatible_output_is_not_loaded(
    world: spec_fn(RequestView) -> ReplyView,
    artifacts: ArtifactsView,
    recorded: bool,
    emitted: ArchView,
    execution: ArchView,
    error: ErrorView,
)
    requires
        world(RequestView::TryExists { path: artifacts.ir.target }) == ReplyView::Probed(
            Ok(recorded),
        ),
        match selected(present_in(world, artifacts, recorded)) {
            Some(FileArtifact::NvvmIr) => lookup_outcome(world, Some(artifacts.ir.target)) == Ok::<
                ArchView,
                ErrorView,
            >(emitted),
            Some(FileArtifact::Ltoir) => lookup_outcome(world, Some(artifacts.ltoir_target)) == Ok::<
                ArchView,
                ErrorView,
            >(emitted) && file_bytes(world, artifacts.ltoir) is Ok,
            _ => false,
        },
        execution_target(world) == Ok::<ArchView, ErrorView>(execution),
        route(emitted, execution) == Err::<ExecutionRoute, ErrorView>(error),
    ensures
        load_outcome(world, artifacts) == Some(error),
{
}

/// The load builds native code from NVVM IR: that is selected, its target is
/// found, and its route on the GPU is native.
pub open spec fn builds_natively(
    world: spec_fn(RequestView) -> ReplyView,
    artifacts: ArtifactsView,
) -> bool {
    &&& world(RequestView::TryExists { path: artifacts.ir.target })->Probed_0 matches Ok(recorded)
    &&& selected(present_in(world, artifacts, recorded)) == Some(FileArtifact::NvvmIr)
    &&& lookup_outcome(world, Some(artifacts.ir.target)) matches Ok(emitted)
    &&& runs_here(world, emitted)
}

/// The GPU runs native code of `emitted`.
pub open spec fn runs_here(world: spec_fn(RequestView) -> ReplyView, emitted: ArchView) -> bool {
    execution_target(world) matches Ok(execution) && route(emitted, execution) == Ok::<
        ExecutionRoute,
        ErrorView,
    >(ExecutionRoute::Cubin)
}

/// The load has written nothing and, as far as it has come, will not: what it
/// was told is what the world tells, and it is not on the way to native code
/// from NVVM IR.
spec fn stays_off_disk(load: LoadView, world: spec_fn(RequestView) -> ReplyView) -> bool {
    let probed = world(RequestView::TryExists { path: load.artifacts.ir.target })->Probed_0;
    let present = present_in(world, load.artifacts, probed->Ok_0);
    match load.stage {
        LoadStageView::ProbeRecorded => true,
        LoadStageView::ProbePtx { recorded } => probed == Ok::<bool, Seq<char>>(recorded),
        LoadStageView::ProbeIr { recorded, ptx } => {
            &&& probed == Ok::<bool, Seq<char>>(recorded)
            &&& ptx == present.ptx
        },
        LoadStageView::ProbeLtoir { recorded, ptx, nvvm_ir } => {
            &&& probed == Ok::<bool, Seq<char>>(recorded)
            &&& ptx == present.ptx
            &&& nvvm_ir == present.nvvm_ir
        },
        LoadStageView::ProbeCubin { recorded, ptx, nvvm_ir, ltoir } => {
            &&& probed == Ok::<bool, Seq<char>>(recorded)
            &&& ptx == present.ptx
            &&& nvvm_ir == present.nvvm_ir
            &&& ltoir == present.ltoir
        },
        LoadStageView::FindTarget { artifact: NvvmArtifact::Ir, lookup } => {
            finds_no_native_target(lookup, world)
        },
        LoadStageView::Capability { artifact: NvvmArtifact::Ir, emitted } => {
            !runs_here(world, emitted)
        },
        LoadStageView::ParseExecution { artifact: NvvmArtifact::Ir, emitted, text } => {
            target_of(world, text) matches Ok(execution) ==> route(emitted, execution) != Ok::<
                ExecutionRoute,
                ErrorView,
            >(ExecutionRoute::Cubin)
        },
        LoadStageView::Building { build } => is_in_memory(build),
        _ => true,
    }
}

/// The lookup has not ended in a target whose native code the GPU runs.
spec fn is_not_native(lookup: LookupView, world: spec_fn(RequestView) -> ReplyView) -> bool {
    lookup.stage matches LookupStageView::Done(Ok(emitted)) ==> !runs_here(world, emitted)
}

/// The lookup does not come to a target whose native code the GPU runs.
spec fn finds_no_native_target(
    lookup: LookupView,
    world: spec_fn(RequestView) -> ReplyView,
) -> bool {
    forall|n: nat| is_not_native(#[trigger] lookup_after(lookup, world, n), world)
}

proof fn lemma_lookup_stays_done(
    lookup: LookupView,
    world: spec_fn(RequestView) -> ReplyView,
    n: nat,
    m: nat,
)
    requires
        lookup_after(lookup, world, n).stage is Done,
    ensures
        lookup_after(lookup, world, n + m) == lookup_after(lookup, world, n),
    decreases n,
{
    match lookup.request() {
        Some(request) if n > 0 => {
            lemma_lookup_stays_done(lookup.resume(world(request)), world, (n - 1) as nat, m);
        },
        _ => {},
    }
}

proof fn lemma_lookup_start(world: spec_fn(RequestView) -> ReplyView, path: Seq<char>)
    requires
        answers_all(world),
        !(lookup_outcome(world, Some(path)) matches Ok(emitted) && runs_here(world, emitted)),
    ensures
        finds_no_native_target(LookupView::start(Some(path)), world),
{
    let lookup = LookupView::start(Some(path));
    assert forall|n: nat| is_not_native(#[trigger] lookup_after(lookup, world, n), world) by {
        if lookup_after(lookup, world, n).stage is Done {
            lemma_lookup_stays_done(lookup, world, n, lookup_steps());
            law_lookup_outcome(world, Some(path), n + lookup_steps());
        }
    }
}

proof fn lemma_stays_off_disk(load: LoadView, world: spec_fn(RequestView) -> ReplyView)
    requires
        answers_all(world),
        load.request() is Some,
        stays_off_disk(load, world),
        !builds_natively(world, load.artifacts),
    ensures
        stays_off_disk(load.resume(world(load.request()->Some_0)), world),
{
    let request = load.request()->Some_0;
    assert(is_answer(request, world(request)));
    match load.stage {
        LoadStageView::ProbeCubin { recorded, .. } => {
            if selected(present_in(world, load.artifacts, recorded)) == Some(FileArtifact::NvvmIr) {
                lemma_lookup_start(world, load.artifacts.ir.target);
            }
        },
        LoadStageView::FindTarget { artifact: NvvmArtifact::Ir, lookup } => {
            let found = lookup.resume(world(request));
            assert forall|n: nat| is_not_native(#[trigger] lookup_after(found, world, n), world) by {
                assert(lookup_after(lookup, world, n + 1) == lookup_after(found, world, n));
            }
            assert(lookup_after(found, world, 0) == found);
        },
        _ => {},
    }
}

proof fn lemma_load_stays_off_disk(
    load: LoadView,
    world: spec_fn(RequestView) -> ReplyView,
    n: nat,
)
    requires
        answers_all(world),
        stays_off_disk(load, world),
        !builds_natively(world, load.artifacts),
    ensures
        stays_off_disk(load_after(load, world, n), world),
    decreases n,
{
    match load.request() {
        Some(request) if n > 0 => {
            lemma_stays_off_disk(load, world);
            lemma_load_stays_off_disk(load.resume(world(request)), world, (n - 1) as nat);
        },
        _ => {},
    }
}

/// Only native code built from NVVM IR is written to disk: every other load
/// writes no file.
pub proof fn law_only_native_ir_is_written(
    world: spec_fn(RequestView) -> ReplyView,
    artifacts: ArtifactsView,
    request: RequestView,
)
    requires
        answers_all(world),
        !builds_natively(world, artifacts),
        load_asks(at(artifacts, LoadStageView::ProbeRecorded), world, request),
    ensures
        !is_write(request),
{
    let load = at(artifacts, LoadStageView::ProbeRecorded);
    let n = choose|n: nat| #[trigger] load_after(load, world, n).request() == Some(request);
    lemma_load_stays_off_disk(load, world, n);
}

/// A load that its route refuses, or that goes over the PTX bridge, writes no
/// file.
pub proof fn law_refused_or_bridged_load_writes_nothing(
    world: spec_fn(RequestView) -> ReplyView,
    artifacts: ArtifactsView,
    recorded: bool,
    emitted: ArchView,
    execution: ArchView,
    request: RequestView,
)
    requires
        answers_all(world),
        world(RequestView::TryExists { path: artifacts.ir.target }) == ReplyView::Probed(
            Ok(recorded),
        ),
        match selected(present_in(world, artifacts, recorded)) {
            Some(FileArtifact::NvvmIr) => lookup_outcome(world, Some(artifacts.ir.target)) == Ok::<
                ArchView,
                ErrorView,
            >(emitted),
            Some(FileArtifact::Ltoir) => lookup_outcome(world, Some(artifacts.ltoir_target)) == Ok::<
                ArchView,
                ErrorView,
            >(emitted),
            _ => false,
        },
        execution_target(world) == Ok::<ArchView, ErrorView>(execution),
        route(emitted, execution) is Err || route(emitted, execution) == Ok::<
            ExecutionRoute,
            ErrorView,
        >(ExecutionRoute::PtxBridge),
        load_asks(at(artifacts, LoadStageView::ProbeRecorded), world, request),
    ensures
        !is_write(request),
{
    law_only_native_ir_is_written(world, artifacts, request);
}

/// The build of the load, if there is one, is in memory or of its own NVVM IR.
pub open spec fn builds_its_files(load: LoadView) -> bool {
    load.stage matches LoadStageView::Building { build } ==> is_in_memory(build) || is_build_of(
        build,
        load.artifacts.ir,
    )
}

/// Whatever it is answered, a load builds in memory or its own NVVM IR, and
/// asks to write nothing but the record, the LTOIR and the cubin of that.
pub proof fn law_step_keeps_load_files(load: LoadView, reply: ReplyView)
    requires
        builds_its_files(load),
    ensures
        builds_its_files(load.resume(reply)),
        load.request() matches Some(request) ==> (is_write(request) ==> writes_output(
            request,
            load.artifacts.ir,
        )),
{
}

/// A load writes no file but the record, the LTOIR and the cubin of its own
/// NVVM IR.
pub proof fn law_load_writes_its_files(
    world: spec_fn(RequestView) -> ReplyView,
    artifacts: ArtifactsView,
    request: RequestView,
)
    requires
        load_asks(at(artifacts, LoadStageView::ProbeRecorded), world, request),
        is_write(request),
    ensures
        writes_output(request, artifacts.ir),
{
    let load = at(artifacts, LoadStageView::ProbeRecorded);
    let n = choose|n: nat| #[trigger] load_after(load, world, n).request() == Some(request);
    lemma_builds_its_files(load, world, n);
}

proof fn lemma_builds_its_files(load: LoadView, world: spec_fn(RequestView) -> ReplyView, n: nat)
    requires
        builds_its_files(load),
    ensures
        builds_its_files(load_after(load, world, n)),
        load_after(load, world, n).artifacts == load.artifacts,
    decreases n,
{
    match load.request() {
        Some(request) if n > 0 => {
            lemma_builds_its_files(load.resume(world(request)), world, (n - 1) as nat);
        },
        _ => {},
    }
}

/// Every target that a text is parsed as is known by its nvJitLink name too.
pub open spec fn knows_targets_by_name(world: spec_fn(RequestView) -> ReplyView) -> bool {
    forall|text: Seq<char>|
        #![trigger world(RequestView::ParseTarget { text })]
        world(RequestView::ParseTarget { text }) matches ReplyView::Target(Ok(arch)) ==> world(
            RequestView::ParseTarget { text: arch.sm },
        ) == ReplyView::Target(Ok(arch))
}

/// A load never takes NVVM IR for that of another target: the target that it
/// looks up is the one that its build then finds recorded.
pub proof fn law_load_has_no_target_mismatch(
    world: spec_fn(RequestView) -> ReplyView,
    artifacts: ArtifactsView,
)
    requires
        answers_all(world),
        knows_targets_by_name(world),
    ensures
        !(load_outcome(world, artifacts) matches Some(error) && error is TargetMismatch),
{
    let record = RequestView::ReadText { path: artifacts.ir.target };
    assert(is_answer(record, world(record)));
    if let ReplyView::Text(Ok(Some(contents))) = world(record) {
        let parse = RequestView::ParseTarget { text: trimmed(contents) };
        assert(is_answer(parse, world(parse)));
    }
    let variable = RequestView::ReadVariable { name: "CUDA_OXIDE_TARGET"@ };
    assert(is_answer(variable, world(variable)));
    if let ReplyView::Variable(Some(text)) = world(variable) {
        let parse = RequestView::ParseTarget { text };
        assert(is_answer(parse, world(parse)));
    }
}

/// The part that a load waits for has not ended.
pub open spec fn load_waits(load: LoadView) -> bool {
    match load.stage {
        LoadStageView::FindTarget { lookup, .. } => lookup.request() is Some,
        LoadStageView::Building { build } => !(build is Done) && waits(build),
        _ => true,
    }
}

/// Every load, from its start on, either has ended or waits for something.
pub proof fn law_load_waits_or_has_ended(load: LoadView, reply: ReplyView)
    ensures
        load.stage is ProbeRecorded ==> load_waits(load),
        load_waits(load) ==> load_waits(load.resume(reply)),
        load_waits(load) ==> (load.request() is None <==> load.stage is Done),
{
    if let LoadStageView::Building { build } = load.stage {
        law_build_waits_or_has_ended(build, reply);
    }
}

/// A reply that does not answer what a lookup waits for changes nothing, and a
/// lookup that has ended waits for nothing more.
pub proof fn law_wrong_reply_keeps_lookup(lookup: LookupView, reply: ReplyView)
    requires
        !(lookup.request() matches Some(request) && is_answer(request, reply)),
    ensures
        lookup.resume(reply) == lookup,
{
}

/// A reply that does not answer what a load waits for changes nothing, and a
/// load that has ended waits for nothing more.
pub proof fn law_wrong_reply_keeps_load(load: LoadView, reply: ReplyView)
    requires
        load_waits(load),
        !(load.request() matches Some(request) && is_answer(request, reply)),
    ensures
        load.resume(reply) == load,
{
}

} // verus!
