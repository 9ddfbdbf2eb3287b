//! What every build of a file keeps to: which files it writes, and which it
//! does not look at.

use vstd::prelude::*;
use crate::arch::ArchView;
use crate::compile::{CompileStageView, CompileView};
use crate::error::ErrorView;
use crate::link::{LinkStageView, LinkView, Output};
use crate::pipeline::{
    BuildView,
    BuiltView,
    DestinationView,
    file_build,
    FilesView,
    SourceView,
};
use crate::request::{is_answer, ReplyView, RequestView};
use crate::runs::{
    answers_all,
    build_after,
    build_asks,
    build_outcome,
    build_steps,
    compile_steps,
    compiled,
    complaint,
    file_bytes,
    is_in_memory,
    is_write,
    law_build_outcome,
    lemma_compiling,
    lemma_linking,
    link_steps,
    linked,
    may_build,
    target_of,
};
use crate::target::sidecar_text;
use crate::text::trimmed;

verus! {

/// A build of the files' NVVM IR, at any time.
pub open spec fn is_build_of(build: BuildView, files: FilesView) -> bool {
    match build {
        BuildView::ParseTarget { source, .. } => source == (SourceView::IrFile { files }),
        BuildView::ReadIr { files: f, .. } => f == files,
        BuildView::ReadRecorded { files: f, .. } => f == files,
        BuildView::ParseRecorded { files: f, .. } => f == files,
        BuildView::WriteTarget { files: f, .. } => f == files,
        BuildView::Compiling { destination, .. } => destination == (DestinationView::Files {
            files,
        }),
        BuildView::WriteLtoir { files: f, .. } => f == files,
        BuildView::Linking { cubin_path, .. } => cubin_path == Some(files.cubin),
        BuildView::WriteCubin { path, .. } => path == files.cubin,
        BuildView::Done(_) => true,
    }
}

/// Whatever it is answered, a build of a file stays one, and asks to write
/// nothing but its record, its LTOIR and its cubin.
pub proof fn law_step_keeps_files(build: BuildView, files: FilesView, reply: ReplyView)
    requires
        is_build_of(build, files),
    ensures
        is_build_of(build.resume(reply), files),
        build.request() matches Some(request) ==> (is_write(request) ==> writes_output(
            request,
            files,
        )),
{
}

/// Whatever it is answered, a build in memory stays one, and asks to write
/// nothing.
pub proof fn law_step_stays_in_memory(build: BuildView, reply: ReplyView)
    requires
        is_in_memory(build),
    ensures
        is_in_memory(build.resume(reply)),
        build.request() matches Some(request) ==> !is_write(request),
{
}

proof fn lemma_is_build_of(
    build: BuildView,
    files: FilesView,
    world: spec_fn(RequestView) -> ReplyView,
    n: nat,
)
    requires
        is_build_of(build, files),
    ensures
        is_build_of(build_after(build, world, n), files),
    decreases n,
{
    match build.request() {
        Some(request) if n > 0 => {
            lemma_is_build_of(build.resume(world(request)), files, world, (n - 1) as nat);
        },
        _ => {},
    }
}

/// A request to write one of the files that a build of NVVM IR gives: the
/// record of the target, the LTOIR or the cubin.
pub open spec fn writes_output(request: RequestView, files: FilesView) -> bool {
    match request {
        RequestView::WriteText { path, .. } => path == files.target,
        RequestView::WriteFile { path, .. } => path == files.ltoir || path == files.cubin,
        _ => false,
    }
}

/// A run of a build of a file writes nothing but its record, its LTOIR and its
/// cubin.
pub proof fn law_file_build_writes_its_files(
    world: spec_fn(RequestView) -> ReplyView,
    files: FilesView,
    text: Seq<char>,
    request: RequestView,
)
    requires
        build_asks(file_build(files, text), world, request),
        is_write(request),
    ensures
        writes_output(request, files),
{
    let build = file_build(files, text);
    let n = choose|n: nat| #[trigger] build_after(build, world, n).request() == Some(request);
    lemma_is_build_of(build, files, world, n);
}

/// A request that asks what the file at `path` holds, or whether it is there.
pub open spec fn asks_about(request: RequestView, path: Seq<char>) -> bool {
    match request {
        RequestView::ReadFile { path: p } => p == path,
        RequestView::ReadText { path: p } => p == path,
        RequestView::Exists { path: p } => p == path,
        RequestView::TryExists { path: p } => p == path,
        _ => false,
    }
}

/// Two worlds differ at most in the LTOIR and the cubin that lie there.
pub open spec fn differ_in_derived_files(
    a: spec_fn(RequestView) -> ReplyView,
    b: spec_fn(RequestView) -> ReplyView,
    files: FilesView,
) -> bool {
    forall|request: RequestView|
        !asks_about(request, files.ltoir) && !asks_about(request, files.cubin) ==> a(request)
            == #[trigger] b(request)
}

/// Two worlds agree on what a build of the files' NVVM IR reads: the NVVM IR,
/// the record of its target, and libdevice.
pub open spec fn agree_on_sources(
    a: spec_fn(RequestView) -> ReplyView,
    b: spec_fn(RequestView) -> ReplyView,
    files: FilesView,
) -> bool {
    &&& a(RequestView::ReadFile { path: files.ll }) == b(RequestView::ReadFile { path: files.ll })
    &&& a(RequestView::ReadText { path: files.target }) == b(
        RequestView::ReadText { path: files.target },
    )
    &&& a(RequestView::FindLibdevice) matches ReplyView::Libdevice(Ok(path)) ==> a(
        RequestView::ReadFile { path },
    ) == b(RequestView::ReadFile { path })
}

/// The libdevice that is being read is the one that was found.
spec fn reads_found_libdevice(
    build: BuildView,
    world: spec_fn(RequestView) -> ReplyView,
) -> bool {
    build matches BuildView::Compiling { compile, .. } ==> (
    compile.stage matches CompileStageView::ReadLibdevice { path } ==> world(
        RequestView::FindLibdevice,
    ) == ReplyView::Libdevice(Ok(path)))
}

proof fn lemma_same_build(
    a: spec_fn(RequestView) -> ReplyView,
    b: spec_fn(RequestView) -> ReplyView,
    build: BuildView,
    files: FilesView,
    n: nat,
)
    requires
        differ_in_derived_files(a, b, files),
        agree_on_sources(a, b, files),
        is_build_of(build, files),
        reads_found_libdevice(build, a),
    ensures
        build_after(build, a, n) == build_after(build, b, n),
    decreases n,
{
    match build.request() {
        Some(request) if n > 0 => {
            assert(a(request) == b(request));
            let next = build.resume(a(request));
            law_step_keeps_files(build, files, a(request));
            assert(reads_found_libdevice(next, a));
            lemma_same_build(a, b, next, files, (n - 1) as nat);
        },
        _ => {},
    }
}

/// A build starts from its sources every time: an LTOIR and a cubin that lie
/// there already change neither what it comes to nor what it asks for.
pub proof fn law_build_ignores_derived_files(
    a: spec_fn(RequestView) -> ReplyView,
    b: spec_fn(RequestView) -> ReplyView,
    files: FilesView,
    text: Seq<char>,
)
    requires
        answers_all(a),
        answers_all(b),
        differ_in_derived_files(a, b, files),
        agree_on_sources(a, b, files),
    ensures
        build_outcome(a, text, SourceView::IrFile { files }) == build_outcome(
            b,
            text,
            SourceView::IrFile { files },
        ),
        forall|request: RequestView|
            build_asks(file_build(files, text), a, request) <==> build_asks(
                file_build(files, text),
                b,
                request,
            ),
{
    let build = file_build(files, text);
    assert forall|n: nat| build_after(build, a, n) == #[trigger] build_after(build, b, n) by {
        lemma_same_build(a, b, build, files, n);
    }
    law_build_outcome(a, text, SourceView::IrFile { files }, build_steps());
    law_build_outcome(b, text, SourceView::IrFile { files }, build_steps());
    assert forall|request: RequestView| build_asks(build, a, request) <==> build_asks(
        build,
        b,
        request,
    ) by {
        if build_asks(build, a, request) {
            let n = choose|n: nat| #[trigger] build_after(build, a, n).request() == Some(request);
            assert(build_after(build, b, n).request() == Some(request));
        }
        if build_asks(build, b, request) {
            let n = choose|n: nat| #[trigger] build_after(build, b, n).request() == Some(request);
            assert(build_after(build, a, n).request() == Some(request));
        }
    }
}

/// What a build asks to be written once LTOIR is compiled: the LTOIR and, if
/// that is written and linked, the cubin.
pub open spec fn derived_writes(
    world: spec_fn(RequestView) -> ReplyView,
    files: FilesView,
    arch: ArchView,
    ltoir: Seq<u8>,
) -> Seq<RequestView> {
    let write = RequestView::WriteFile { path: files.ltoir, contents: ltoir };
    match linked(world, ltoir, files.ltoir, arch, Output::Cubin) {
        Ok(cubin) if complaint(world(write)) is None => seq![
            write,
            RequestView::WriteFile { path: files.cubin, contents: cubin },
        ],
        _ => seq![write],
    }
}

/// What a build of the files' NVVM IR asks to be written, in this order: the
/// record of the target; if that is written and the NVVM IR compiles, the
/// LTOIR; if that is written and links, the cubin.
pub open spec fn file_writes(
    world: spec_fn(RequestView) -> ReplyView,
    files: FilesView,
    text: Seq<char>,
) -> Seq<RequestView> {
    match target_of(world, text) {
        Ok(arch) if may_build(world, files, arch) => {
            let nvvm_ir = file_bytes(world, files.ll)->Ok_0;
            let record = RequestView::WriteText { path: files.target, text: sidecar_text(arch) };
            match compiled(world, nvvm_ir, files.ll, arch) {
                Ok(ltoir) if complaint(world(record)) is None => seq![record] + derived_writes(
                    world,
                    files,
                    arch,
                    ltoir,
                ),
                _ => seq![record],
            }
        },
        _ => Seq::empty(),
    }
}

proof fn lemma_asks_step(
    build: BuildView,
    world: spec_fn(RequestView) -> ReplyView,
    request: RequestView,
)
    ensures
        build.request() is None ==> !build_asks(build, world, request),
        build.request() matches Some(now) ==> (build_asks(build, world, request) <==> now == request
            || build_asks(build.resume(world(now)), world, request)),
{
    match build.request() {
        None => {
            assert forall|n: nat| #[trigger] build_after(build, world, n) == build by {}
        },
        Some(now) => {
            let next = build.resume(world(now));
            if build_asks(build, world, request) && now != request {
                let n = choose|n: nat| #[trigger]
                    build_after(build, world, n).request() == Some(request);
                assert(build_after(next, world, (n - 1) as nat).request() == Some(request));
            }
            if now == request {
                assert(build_after(build, world, 0).request() == Some(request));
            }
            if build_asks(next, world, request) {
                let n = choose|n: nat| #[trigger]
                    build_after(next, world, n).request() == Some(request);
                assert(build_after(build, world, n + 1).request() == Some(request));
            }
        },
    }
}

/// How many of its steps a compilation has taken.
spec fn compile_rank(stage: CompileStageView) -> nat {
    match stage {
        CompileStageView::FindLibdevice => 0,
        CompileStageView::ReadLibdevice { .. } => 1,
        CompileStageView::LoadNvvm { .. } => 2,
        CompileStageView::IrVersion { .. } => 3,
        CompileStageView::LlvmVersion { .. } => 4,
        CompileStageView::NewProgram { .. } => 5,
        CompileStageView::AddLibdevice { .. } => 6,
        CompileStageView::AddModule => 7,
        CompileStageView::Verify => 8,
        CompileStageView::Compile => 9,
        CompileStageView::Done(_) => 10,
    }
}

/// How many of its steps a link has taken.
spec fn link_rank(stage: LinkStageView) -> nat {
    match stage {
        LinkStageView::LoadNvJitLink => 0,
        LinkStageView::NewLinker => 1,
        LinkStageView::AddLtoir => 2,
        LinkStageView::Finish => 3,
        LinkStageView::Done(_) => 4,
    }
}

/// While a compilation runs, nothing is written: what is written from then on
/// is what is written once it has ended.
proof fn lemma_compiling_is_quiet(
    build: BuildView,
    world: spec_fn(RequestView) -> ReplyView,
    request: RequestView,
    n: nat,
)
    requires
        answers_all(world),
        is_write(request),
        build is Compiling || build is Done,
        build is Compiling ==> compile_rank(build->compile.stage) + n <= compile_steps(),
    ensures
        build_asks(build, world, request) <==> build_asks(
            build_after(build, world, n),
            world,
            request,
        ),
    decreases n,
{
    lemma_asks_step(build, world, request);
    if let Some(now) = build.request() {
        if n > 0 {
            assert(is_answer(now, world(now)));
            let next = build.resume(world(now));
            if n == 1 {
                assert(build_after(build, world, 1) == build_after(next, world, 0));
                assert(build_after(next, world, 0) == next);
            } else {
                lemma_compiling_is_quiet(next, world, request, (n - 1) as nat);
            }
        }
    }
}

/// While a link runs, nothing is written: what is written from then on is what
/// is written once it has ended.
proof fn lemma_linking_is_quiet(
    build: BuildView,
    world: spec_fn(RequestView) -> ReplyView,
    request: RequestView,
    n: nat,
)
    requires
        answers_all(world),
        is_write(request),
        build is Linking || build is Done,
        build is Linking ==> link_rank(build->link.stage) + n <= link_steps(),
    ensures
        build_asks(build, world, request) <==> build_asks(
            build_after(build, world, n),
            world,
            request,
        ),
    decreases n,
{
    lemma_asks_step(build, world, request);
    if let Some(now) = build.request() {
        if n > 0 {
            assert(is_answer(now, world(now)));
            let next = build.resume(world(now));
            if n == 1 {
                assert(build_after(build, world, 1) == build_after(next, world, 0));
                assert(build_after(next, world, 0) == next);
            } else {
                lemma_linking_is_quiet(next, world, request, (n - 1) as nat);
            }
        }
    }
}

proof fn lemma_derived_writes(
    world: spec_fn(RequestView) -> ReplyView,
    files: FilesView,
    arch: ArchView,
    ltoir: Seq<u8>,
    request: RequestView,
)
    requires
        answers_all(world),
        is_write(request),
    ensures
        build_asks(BuildView::WriteLtoir { files, arch, ltoir }, world, request)
            <==> derived_writes(world, files, arch, ltoir).contains(request),
{
    let build = BuildView::WriteLtoir { files, arch, ltoir };
    let write = RequestView::WriteFile { path: files.ltoir, contents: ltoir };
    let writes = derived_writes(world, files, arch, ltoir);
    assert(is_answer(write, world(write)));
    assert(writes[0] == write);
    lemma_asks_step(build, world, request);
    if complaint(world(write)) is None {
        let linking = BuildView::Linking {
            link: LinkView::start(ltoir, files.ltoir, arch, Output::Cubin),
            cubin_path: Some(files.cubin),
        };
        lemma_linking_is_quiet(linking, world, request, link_steps());
        lemma_linking(world, ltoir, files.ltoir, arch, Output::Cubin, Some(files.cubin));
        let ended = build_after(linking, world, link_steps());
        lemma_asks_step(ended, world, request);
        if let Ok(cubin) = linked(world, ltoir, files.ltoir, arch, Output::Cubin) {
            let finish = RequestView::WriteFile { path: files.cubin, contents: cubin };
            assert(is_answer(finish, world(finish)));
            assert(writes[1] == finish);
            lemma_asks_step(ended.resume(world(finish)), world, request);
        }
    } else {
        lemma_asks_step(build.resume(world(write)), world, request);
    }
}

proof fn lemma_recorded_writes(
    world: spec_fn(RequestView) -> ReplyView,
    files: FilesView,
    arch: ArchView,
    nvvm_ir: Seq<u8>,
    request: RequestView,
)
    requires
        answers_all(world),
        is_write(request),
    ensures
        build_asks(
            BuildView::WriteTarget { files, arch, nvvm_ir, text: sidecar_text(arch) },
            world,
            request,
        ) <==> {
            let record = RequestView::WriteText { path: files.target, text: sidecar_text(arch) };
            ||| request == record
            ||| complaint(world(record)) is None && (compiled(world, nvvm_ir, files.ll, arch)
                matches Ok(ltoir) && derived_writes(world, files, arch, ltoir).contains(request))
        },
{
    let build = BuildView::WriteTarget { files, arch, nvvm_ir, text: sidecar_text(arch) };
    let record = RequestView::WriteText { path: files.target, text: sidecar_text(arch) };
    assert(is_answer(record, world(record)));
    lemma_asks_step(build, world, request);
    if complaint(world(record)) is None {
        let destination = DestinationView::Files { files };
        let compiling = BuildView::Compiling {
            compile: CompileView::start(nvvm_ir, files.ll, arch),
            destination,
        };
        lemma_compiling_is_quiet(compiling, world, request, compile_steps());
        lemma_compiling(world, nvvm_ir, files.ll, arch, destination);
        match compiled(world, nvvm_ir, files.ll, arch) {
            Ok(ltoir) => lemma_derived_writes(world, files, arch, ltoir, request),
            Err(_) => lemma_asks_step(
                build_after(compiling, world, compile_steps()),
                world,
                request,
            ),
        }
    } else {
        lemma_asks_step(build.resume(world(record)), world, request);
    }
}

/// What a build of a file asks to be written is exactly what it has come to:
/// no more than the record where compiling fails, no more than the record and
/// the LTOIR where linking fails, and nothing where the build is refused.
pub proof fn law_file_build_writes(
    world: spec_fn(RequestView) -> ReplyView,
    files: FilesView,
    text: Seq<char>,
    request: RequestView,
)
    requires
        answers_all(world),
        is_write(request),
    ensures
        build_asks(file_build(files, text), world, request) <==> file_writes(
            world,
            files,
            text,
        ).contains(request),
{
    let build = file_build(files, text);
    let parse = RequestView::ParseTarget { text };
    let read = RequestView::ReadFile { path: files.ll };
    let recorded = RequestView::ReadText { path: files.target };
    assert(is_answer(parse, world(parse)));
    assert(is_answer(read, world(read)));
    assert(is_answer(recorded, world(recorded)));
    lemma_asks_step(build, world, request);
    let parsed = build.resume(world(parse));
    lemma_asks_step(parsed, world, request);
    if let Ok(arch) = target_of(world, text) {
        let after_read = parsed.resume(world(read));
        lemma_asks_step(after_read, world, request);
        if let Ok(nvvm_ir) = file_bytes(world, files.ll) {
            let after_record = after_read.resume(world(recorded));
            lemma_asks_step(after_record, world, request);
            lemma_recorded_writes(world, files, arch, nvvm_ir, request);
            if let ReplyView::Text(Ok(Some(contents))) = world(recorded) {
                let again = RequestView::ParseTarget { text: trimmed(contents) };
                assert(is_answer(again, world(again)));
                lemma_asks_step(after_record.resume(world(again)), world, request);
            }
            let record = RequestView::WriteText { path: files.target, text: sidecar_text(arch) };
            if may_build(world, files, arch) {
                let writes = file_writes(world, files, text);
                assert(writes[0] == record);
                if let Ok(ltoir) = compiled(world, nvvm_ir, files.ll, arch) {
                    let rest = derived_writes(world, files, arch, ltoir);
                    if complaint(world(record)) is None {
                        assert(writes =~= seq![record] + rest);
                        lemma_contains_front(record, rest, request);
                    }
                }
            }
        }
    }
}

proof fn lemma_contains_front(first: RequestView, rest: Seq<RequestView>, request: RequestView)
    ensures
        (seq![first] + rest).contains(request) <==> request == first || rest.contains(request),
{
    let all = seq![first] + rest;
    assert(all[0] == first);
    if rest.contains(request) {
        let i = choose|i: int| 0 <= i < rest.len() && rest[i] == request;
        assert(all[i + 1] == request);
    }
    if all.contains(request) && request != first {
        let i = choose|i: int| 0 <= i < all.len() && all[i] == request;
        assert(rest[i - 1] == request);
    }
}

/// Where compiling fails, the build comes to that error and the record is all
/// that is written.
pub proof fn law_failed_compile_writes_record(
    world: spec_fn(RequestView) -> ReplyView,
    files: FilesView,
    text: Seq<char>,
    arch: ArchView,
    error: ErrorView,
)
    requires
        answers_all(world),
        target_of(world, text) == Ok::<ArchView, ErrorView>(arch),
        may_build(world, files, arch),
        world(RequestView::WriteText { path: files.target, text: sidecar_text(arch) })
            == ReplyView::Finished(Ok(())),
        compiled(world, file_bytes(world, files.ll)->Ok_0, files.ll, arch) == Err::<
            Seq<u8>,
            ErrorView,
        >(error),
    ensures
        build_outcome(world, text, SourceView::IrFile { files }) == Err::<BuiltView, ErrorView>(
            error,
        ),
        file_writes(world, files, text) == seq![
            RequestView::WriteText { path: files.target, text: sidecar_text(arch) },
        ],
{
}

/// Where linking fails, the build comes to that error and the record and the
/// LTOIR are all that is written.
pub proof fn law_failed_link_writes_ltoir(
    world: spec_fn(RequestView) -> ReplyView,
    files: FilesView,
    text: Seq<char>,
    arch: ArchView,
    ltoir: Seq<u8>,
    error: ErrorView,
)
    requires
        answers_all(world),
        target_of(world, text) == Ok::<ArchView, ErrorView>(arch),
        may_build(world, files, arch),
        world(RequestView::WriteText { path: files.target, text: sidecar_text(arch) })
            == ReplyView::Finished(Ok(())),
        compiled(world, file_bytes(world, files.ll)->Ok_0, files.ll, arch) == Ok::<
            Seq<u8>,
            ErrorView,
        >(ltoir),
        world(RequestView::WriteFile { path: files.ltoir, contents: ltoir })
            == ReplyView::Finished(Ok(())),
        linked(world, ltoir, files.ltoir, arch, Output::Cubin) == Err::<Seq<u8>, ErrorView>(error),
    ensures
        build_outcome(world, text, SourceView::IrFile { files }) == Err::<BuiltView, ErrorView>(
            error,
        ),
        file_writes(world, files, text) == seq![
            RequestView::WriteText { path: files.target, text: sidecar_text(arch) },
            RequestView::WriteFile { path: files.ltoir, contents: ltoir },
        ],
{
}

} // verus!
