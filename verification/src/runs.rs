//! Whole runs: what a job comes to when all its requests are answered.
//!
//! A world answers every request. It stands for one state of the file system,
//! the environment, the toolkit and the driver.

use vstd::prelude::*;
use crate::arch::ArchView;
use crate::compile::{
    compile_options,
    CompileStageView,
    CompileView,
    dialect_error,
    ir_version_error,
    libdevice_path,
    verify_options,
};
use crate::error::ErrorView;
use crate::link::{link_options, LinkStageView, LinkView, Output};
use crate::pipeline::{
    BuildView,
    BuiltView,
    DestinationView,
    file_build,
    FilesView,
    SourceView,
};
use crate::request::{is_answer, ReplyView, RequestView};
use crate::target::{parsed_target, sidecar_error, sidecar_text};
use crate::text::trimmed;

verus! {

/// Every request is answered by a reply of its kind.
pub open spec fn answers_all(world: spec_fn(RequestView) -> ReplyView) -> bool {
    forall|request: RequestView| is_answer(request, #[trigger] world(request))
}

/// What nvJitLink or libNVVM says against a piece of work, if anything.
pub open spec fn complaint(reply: ReplyView) -> Option<Seq<char>> {
    match reply {
        ReplyView::Finished(Err(why)) => Some(why),
        _ => None,
    }
}

/// What libNVVM says against a piece of work, as an error.
pub open spec fn nvvm_error(reply: ReplyView) -> Option<ErrorView> {
    match complaint(reply) {
        Some(why) => Some(ErrorView::Nvvm(why)),
        None => None,
    }
}

/// What nvJitLink says against a piece of work, as an error.
pub open spec fn linker_error(reply: ReplyView) -> Option<ErrorView> {
    match complaint(reply) {
        Some(why) => Some(ErrorView::NvJitLink(why)),
        None => None,
    }
}

/// What the file system says against writing the file at `path`, as an error.
pub open spec fn write_error(path: Seq<char>, reply: ReplyView) -> Option<ErrorView> {
    match complaint(reply) {
        Some(source) => Some(ErrorView::Io { path, source }),
        None => None,
    }
}

/// The first of two errors.
pub open spec fn either(first: Option<ErrorView>, second: Option<ErrorView>) -> Option<ErrorView> {
    match first {
        Some(_) => first,
        None => second,
    }
}

/// The bytes of the file at `path`.
pub open spec fn file_bytes(
    world: spec_fn(RequestView) -> ReplyView,
    path: Seq<char>,
) -> Result<Seq<u8>, ErrorView> {
    match world(RequestView::ReadFile { path })->Bytes_0 {
        Ok(bytes) => Ok(bytes),
        Err(source) => Err(ErrorView::Io { path, source }),
    }
}

/// What is wrong with the libNVVM of the world, for code of `arch`.
pub open spec fn toolkit_error(
    world: spec_fn(RequestView) -> ReplyView,
    arch: ArchView,
) -> Option<ErrorView> {
    let ir_error = match world(RequestView::IrVersion)->IrVersion_0 {
        Ok((major, minor)) => ir_version_error(major as int, minor as int),
        Err(why) => Some(ErrorView::Nvvm(why)),
    };
    let llvm_error = match world(RequestView::LlvmVersion { arch })->LlvmVersion_0 {
        Ok(llvm_major) => dialect_error(arch, llvm_major),
        Err(why) => Some(ErrorView::Nvvm(why)),
    };
    either(nvvm_error(world(RequestView::LoadNvvm)), either(ir_error, llvm_error))
}

/// What libNVVM says against a program of libdevice and a module.
pub open spec fn program_error(
    world: spec_fn(RequestView) -> ReplyView,
    libdevice: Seq<u8>,
    nvvm_ir: Seq<u8>,
    module_name: Seq<char>,
    arch: ArchView,
) -> Option<ErrorView> {
    either(
        nvvm_error(world(RequestView::NewProgram)),
        either(
            nvvm_error(
                world(RequestView::AddModule { contents: libdevice, name: "libdevice.10.bc"@ }),
            ),
            either(
                nvvm_error(world(RequestView::AddModule { contents: nvvm_ir, name: module_name })),
                nvvm_error(world(RequestView::VerifyProgram { options: verify_options(arch) })),
            ),
        ),
    )
}

/// What compiling NVVM IR comes to: its LTOIR, or the first thing that goes
/// wrong.
pub open spec fn compiled(
    world: spec_fn(RequestView) -> ReplyView,
    nvvm_ir: Seq<u8>,
    module_name: Seq<char>,
    arch: ArchView,
) -> Result<Seq<u8>, ErrorView> {
    match libdevice_path(world(RequestView::FindLibdevice)->Libdevice_0) {
        Err(error) => Err(error),
        Ok(path) => match file_bytes(world, path) {
            Err(error) => Err(error),
            Ok(libdevice) => match either(
                toolkit_error(world, arch),
                program_error(world, libdevice, nvvm_ir, module_name, arch),
            ) {
                Some(error) => Err(error),
                None => match world(
                    RequestView::CompileProgram { options: compile_options(arch) },
                )->Bytes_0 {
                    Ok(ltoir) => Ok(ltoir),
                    Err(why) => Err(ErrorView::Nvvm(why)),
                },
            },
        },
    }
}

/// What linking LTOIR comes to: its image, or the first thing that goes wrong.
pub open spec fn linked(
    world: spec_fn(RequestView) -> ReplyView,
    ltoir: Seq<u8>,
    module_name: Seq<char>,
    arch: ArchView,
    output: Output,
) -> Result<Seq<u8>, ErrorView> {
    let finish = match output {
        Output::Cubin => RequestView::FinishCubin,
        Output::Ptx => RequestView::FinishPtx,
    };
    match either(
        linker_error(world(RequestView::LoadNvJitLink)),
        either(
            linker_error(world(RequestView::NewLinker { options: link_options(arch, output) })),
            linker_error(world(RequestView::AddLtoir { contents: ltoir, name: module_name })),
        ),
    ) {
        Some(error) => Err(error),
        None => match world(finish)->Bytes_0 {
            Ok(image) => Ok(image),
            Err(why) => Err(ErrorView::NvJitLink(why)),
        },
    }
}

/// The target that `text` is.
pub open spec fn target_of(world: spec_fn(RequestView) -> ReplyView, text: Seq<char>) -> Result<
    ArchView,
    ErrorView,
> {
    parsed_target(world(RequestView::ParseTarget { text })->Target_0)
}

/// The target that the file at `path` records, if it records one.
pub open spec fn recorded_target(
    world: spec_fn(RequestView) -> ReplyView,
    path: Seq<char>,
) -> Result<Option<ArchView>, ErrorView> {
    match world(RequestView::ReadText { path })->Text_0 {
        Err(source) => Err(ErrorView::Io { path, source }),
        Ok(None) => Ok(None),
        Ok(Some(contents)) => match target_of(world, trimmed(contents)) {
            Ok(arch) => Ok(Some(arch)),
            Err(error) => Err(error),
        },
    }
}

/// What building the files' NVVM IR for `arch` comes to, once it is read and
/// its target is recorded.
pub open spec fn file_built(
    world: spec_fn(RequestView) -> ReplyView,
    files: FilesView,
    arch: ArchView,
    nvvm_ir: Seq<u8>,
) -> Result<BuiltView, ErrorView> {
    match compiled(world, nvvm_ir, files.ll, arch) {
        Err(error) => Err(error),
        Ok(ltoir) => match write_error(
            files.ltoir,
            world(RequestView::WriteFile { path: files.ltoir, contents: ltoir }),
        ) {
            Some(error) => Err(error),
            None => match linked(world, ltoir, files.ltoir, arch, Output::Cubin) {
                Err(error) => Err(error),
                Ok(cubin) => match write_error(
                    files.cubin,
                    world(RequestView::WriteFile { path: files.cubin, contents: cubin }),
                ) {
                    Some(error) => Err(error),
                    None => Ok(BuiltView::File(files.cubin)),
                },
            },
        },
    }
}

/// What is wrong with the record of the target of the files' NVVM IR, when it
/// is built for `arch`, or with writing that record.
pub open spec fn record_error(
    world: spec_fn(RequestView) -> ReplyView,
    files: FilesView,
    arch: ArchView,
) -> Option<ErrorView> {
    match recorded_target(world, files.target) {
        Err(error) => Some(error),
        Ok(emitted) => either(
            sidecar_error(files.ll, emitted, arch),
            write_error(
                files.target,
                world(RequestView::WriteText { path: files.target, text: sidecar_text(arch) }),
            ),
        ),
    }
}

/// What a build comes to.
pub open spec fn built(
    world: spec_fn(RequestView) -> ReplyView,
    source: SourceView,
    arch: ArchView,
) -> Result<BuiltView, ErrorView> {
    match source {
        SourceView::IrFile { files } => match file_bytes(world, files.ll) {
            Err(error) => Err(error),
            Ok(nvvm_ir) => match record_error(world, files, arch) {
                Some(error) => Err(error),
                None => file_built(world, files, arch, nvvm_ir),
            },
        },
        SourceView::Ir { nvvm_ir, module_name, output } => {
            match compiled(world, nvvm_ir, module_name, arch) {
                Err(error) => Err(error),
                Ok(ltoir) => image_of(
                    linked(world, ltoir, module_name + ".ltoir"@, arch, output),
                ),
            }
        },
        SourceView::Ltoir { ltoir, module_name, output } => image_of(
            linked(world, ltoir, module_name, arch, output),
        ),
    }
}

/// A linked image as what a build gives.
pub open spec fn image_of(image: Result<Seq<u8>, ErrorView>) -> Result<BuiltView, ErrorView> {
    match image {
        Ok(image) => Ok(BuiltView::Image(image)),
        Err(error) => Err(error),
    }
}

/// The build after `n` answers.
pub open spec fn build_after(
    build: BuildView,
    world: spec_fn(RequestView) -> ReplyView,
    n: nat,
) -> BuildView
    decreases n,
{
    match build.request() {
        Some(request) if n > 0 => build_after(
            build.resume(world(request)),
            world,
            (n - 1) as nat,
        ),
        _ => build,
    }
}

/// The build asks for `request` at some time.
pub open spec fn build_asks(
    build: BuildView,
    world: spec_fn(RequestView) -> ReplyView,
    request: RequestView,
) -> bool {
    exists|n: nat| #[trigger] build_after(build, world, n).request() == Some(request)
}

proof fn lemma_build_after_sum(
    build: BuildView,
    world: spec_fn(RequestView) -> ReplyView,
    n: nat,
    m: nat,
)
    ensures
        build_after(build, world, n + m) == build_after(build_after(build, world, n), world, m),
    decreases n,
{
    match build.request() {
        Some(request) if n > 0 => {
            lemma_build_after_sum(build.resume(world(request)), world, (n - 1) as nat, m);
        },
        _ => {},
    }
}

/// The number of answers after which every compilation has ended.
pub open spec fn compile_steps() -> nat {
    10
}

/// The number of answers after which every link has ended.
pub open spec fn link_steps() -> nat {
    4
}

pub(crate) proof fn lemma_compiling(
    world: spec_fn(RequestView) -> ReplyView,
    nvvm_ir: Seq<u8>,
    module_name: Seq<char>,
    arch: ArchView,
    destination: DestinationView,
)
    requires
        answers_all(world),
    ensures
        build_after(
            BuildView::Compiling {
                compile: CompileView::start(nvvm_ir, module_name, arch),
                destination,
            },
            world,
            compile_steps(),
        ) == BuildView::after_compile(
            CompileView::start(nvvm_ir, module_name, arch).at(
                CompileStageView::Done(compiled(world, nvvm_ir, module_name, arch)),
            ),
            destination,
        ),
{
    reveal_with_fuel(build_after, 11);
}

pub(crate) proof fn lemma_linking(
    world: spec_fn(RequestView) -> ReplyView,
    ltoir: Seq<u8>,
    module_name: Seq<char>,
    arch: ArchView,
    output: Output,
    cubin_path: Option<Seq<char>>,
)
    requires
        answers_all(world),
    ensures
        build_after(
            BuildView::Linking {
                link: LinkView::start(ltoir, module_name, arch, output),
                cubin_path,
            },
            world,
            link_steps(),
        ) == BuildView::after_link(
            LinkView::start(ltoir, module_name, arch, output).at(
                LinkStageView::Done(linked(world, ltoir, module_name, arch, output)),
            ),
            cubin_path,
        ),
{
    reveal_with_fuel(build_after, 5);
}

/// What a build comes to, by the text of its target.
pub open spec fn build_outcome(
    world: spec_fn(RequestView) -> ReplyView,
    text: Seq<char>,
    source: SourceView,
) -> Result<BuiltView, ErrorView> {
    match target_of(world, text) {
        Err(error) => Err(error),
        Ok(arch) => built(world, source, arch),
    }
}

/// The number of answers after which every build has ended.
pub open spec fn build_steps() -> nat {
    21
}

pub(crate) proof fn lemma_memory_link(
    world: spec_fn(RequestView) -> ReplyView,
    ltoir: Seq<u8>,
    module_name: Seq<char>,
    arch: ArchView,
    output: Output,
    n: nat,
)
    requires
        answers_all(world),
        n >= link_steps(),
    ensures
        build_after(
            BuildView::Linking {
                link: LinkView::start(ltoir, module_name, arch, output),
                cubin_path: None,
            },
            world,
            n,
        ) == BuildView::Done(image_of(linked(world, ltoir, module_name, arch, output))),
{
    let build = BuildView::Linking {
        link: LinkView::start(ltoir, module_name, arch, output),
        cubin_path: None,
    };
    lemma_linking(world, ltoir, module_name, arch, output, None);
    lemma_build_after_sum(build, world, link_steps(), (n - link_steps()) as nat);
}

proof fn lemma_memory_build(
    world: spec_fn(RequestView) -> ReplyView,
    nvvm_ir: Seq<u8>,
    module_name: Seq<char>,
    arch: ArchView,
    output: Output,
    n: nat,
)
    requires
        answers_all(world),
        n >= compile_steps() + link_steps(),
    ensures
        build_after(
            BuildView::begin(SourceView::Ir { nvvm_ir, module_name, output }, arch),
            world,
            n,
        ) == BuildView::Done(built(world, SourceView::Ir { nvvm_ir, module_name, output }, arch)),
{
    let ltoir_name = module_name + ".ltoir"@;
    let destination = DestinationView::Memory { ltoir_name, output };
    let build = BuildView::begin(SourceView::Ir { nvvm_ir, module_name, output }, arch);
    lemma_compiling(world, nvvm_ir, module_name, arch, destination);
    lemma_build_after_sum(build, world, compile_steps(), (n - compile_steps()) as nat);
    if let Ok(ltoir) = compiled(world, nvvm_ir, module_name, arch) {
        lemma_memory_link(
            world,
            ltoir,
            ltoir_name,
            arch,
            output,
            (n - compile_steps()) as nat,
        );
    }
}

proof fn lemma_file_tail(
    world: spec_fn(RequestView) -> ReplyView,
    files: FilesView,
    arch: ArchView,
    nvvm_ir: Seq<u8>,
    n: nat,
)
    requires
        answers_all(world),
        n >= compile_steps() + link_steps() + 2,
    ensures
        build_after(
            BuildView::Compiling {
                compile: CompileView::start(nvvm_ir, files.ll, arch),
                destination: DestinationView::Files { files },
            },
            world,
            n,
        ) == BuildView::Done(file_built(world, files, arch, nvvm_ir)),
{
    let destination = DestinationView::Files { files };
    let build = BuildView::Compiling {
        compile: CompileView::start(nvvm_ir, files.ll, arch),
        destination,
    };
    let after_compile = (n - compile_steps()) as nat;
    lemma_compiling(world, nvvm_ir, files.ll, arch, destination);
    lemma_build_after_sum(build, world, compile_steps(), after_compile);
    if let Ok(ltoir) = compiled(world, nvvm_ir, files.ll, arch) {
        let write = RequestView::WriteFile { path: files.ltoir, contents: ltoir };
        assert(is_answer(write, world(write)));
        if complaint(world(write)) is None {
            let linking = BuildView::Linking {
                link: LinkView::start(ltoir, files.ltoir, arch, Output::Cubin),
                cubin_path: Some(files.cubin),
            };
            let after_write = (after_compile - 1) as nat;
            let after_link = (after_write - link_steps()) as nat;
            assert(build_after(
                BuildView::WriteLtoir { files, arch, ltoir },
                world,
                after_compile,
            ) == build_after(linking, world, after_write));
            lemma_linking(world, ltoir, files.ltoir, arch, Output::Cubin, Some(files.cubin));
            lemma_build_after_sum(linking, world, link_steps(), after_link);
            if let Ok(cubin) = linked(world, ltoir, files.ltoir, arch, Output::Cubin) {
                let finish = RequestView::WriteFile { path: files.cubin, contents: cubin };
                assert(is_answer(finish, world(finish)));
                reveal_with_fuel(build_after, 2);
            }
        } else {
            reveal_with_fuel(build_after, 2);
        }
    }
}

proof fn lemma_file_build(
    world: spec_fn(RequestView) -> ReplyView,
    files: FilesView,
    arch: ArchView,
    n: nat,
)
    requires
        answers_all(world),
        n >= 20,
    ensures
        build_after(BuildView::ReadIr { files, arch }, world, n) == BuildView::Done(
            built(world, SourceView::IrFile { files }, arch),
        ),
{
    reveal_with_fuel(build_after, 5);
    let read = RequestView::ReadFile { path: files.ll };
    let record = RequestView::ReadText { path: files.target };
    let write = RequestView::WriteText { path: files.target, text: sidecar_text(arch) };
    assert(is_answer(read, world(read)));
    assert(is_answer(record, world(record)));
    assert(is_answer(write, world(write)));
    if let Ok(nvvm_ir) = file_bytes(world, files.ll) {
        lemma_file_tail(world, files, arch, nvvm_ir, (n - 3) as nat);
        lemma_file_tail(world, files, arch, nvvm_ir, (n - 4) as nat);
        if let ReplyView::Text(Ok(Some(contents))) = world(record) {
            let parse = RequestView::ParseTarget { text: trimmed(contents) };
            assert(is_answer(parse, world(parse)));
        }
    }
}

/// A build comes to the image or the cubin that compiling and linking give, or
/// to the first thing that goes wrong, and it does so within a fixed number of
/// answers.
pub proof fn law_build_outcome(
    world: spec_fn(RequestView) -> ReplyView,
    text: Seq<char>,
    source: SourceView,
    n: nat,
)
    requires
        answers_all(world),
        n >= build_steps(),
    ensures
        build_after(BuildView::ParseTarget { text, source }, world, n) == BuildView::Done(
            build_outcome(world, text, source),
        ),
{
    reveal_with_fuel(build_after, 2);
    let parse = RequestView::ParseTarget { text };
    assert(is_answer(parse, world(parse)));
    if let Ok(arch) = target_of(world, text) {
        match source {
            SourceView::IrFile { files } => {
                lemma_file_build(world, files, arch, (n - 1) as nat);
            },
            SourceView::Ir { nvvm_ir, module_name, output } => {
                lemma_memory_build(world, nvvm_ir, module_name, arch, output, (n - 1) as nat);
            },
            SourceView::Ltoir { ltoir, module_name, output } => {
                lemma_memory_link(world, ltoir, module_name, arch, output, (n - 1) as nat);
            },
        }
    }
}

/// A request that changes the file system.
pub open spec fn is_write(request: RequestView) -> bool {
    request is WriteText || request is WriteFile
}

/// A request for the parsing of a target or for reading a file.
pub open spec fn only_reads(request: RequestView) -> bool {
    request is ParseTarget || request is ReadFile || request is ReadText
}

/// A text that is no target ends every build at once: nothing but the parsing
/// of that text is ever asked for, so no NVIDIA library is loaded.
pub proof fn law_invalid_target_ends_build(
    world: spec_fn(RequestView) -> ReplyView,
    text: Seq<char>,
    source: SourceView,
    why: Seq<char>,
)
    requires
        world(RequestView::ParseTarget { text }) == ReplyView::Target(Err(why)),
    ensures
        forall|n: nat|
            n >= 1 ==> #[trigger] build_after(BuildView::ParseTarget { text, source }, world, n)
                == BuildView::Done(Err(ErrorView::InvalidTarget(why))),
        forall|request: RequestView|
            build_asks(BuildView::ParseTarget { text, source }, world, request) ==> request
                == (RequestView::ParseTarget { text }),
{
    let build = BuildView::ParseTarget { text, source };
    assert forall|n: nat| n >= 1 implies #[trigger] build_after(build, world, n)
        == BuildView::Done(Err(ErrorView::InvalidTarget(why))) by {
        reveal_with_fuel(build_after, 2);
    }
    assert forall|request: RequestView| build_asks(build, world, request) implies request == (
    RequestView::ParseTarget { text }) by {
        let n = choose|n: nat| #[trigger]
            build_after(build, world, n).request() == Some(request);
        assert(n == 0);
    }
}

/// The files' NVVM IR may be built for `arch`: it can be read, and no other
/// target is recorded with it.
pub open spec fn may_build(
    world: spec_fn(RequestView) -> ReplyView,
    files: FilesView,
    arch: ArchView,
) -> bool {
    &&& file_bytes(world, files.ll) is Ok
    &&& recorded_target(world, files.target) matches Ok(emitted) && sidecar_error(
        files.ll,
        emitted,
        arch,
    ) is None
}

proof fn lemma_refused_build(
    world: spec_fn(RequestView) -> ReplyView,
    files: FilesView,
    text: Seq<char>,
    n: nat,
)
    requires
        answers_all(world),
        !(target_of(world, text) matches Ok(arch) && may_build(world, files, arch)),
    ensures
        build_after(file_build(files, text), world, n).request() matches Some(request)
            ==> only_reads(request),
        n >= 4 ==> build_after(file_build(files, text), world, n) == BuildView::Done(
            build_outcome(world, text, SourceView::IrFile { files }),
        ),
{
    reveal_with_fuel(build_after, 5);
    let parse = RequestView::ParseTarget { text };
    let read = RequestView::ReadFile { path: files.ll };
    let record = RequestView::ReadText { path: files.target };
    assert(is_answer(parse, world(parse)));
    assert(is_answer(read, world(read)));
    assert(is_answer(record, world(record)));
    if let ReplyView::Text(Ok(Some(contents))) = world(record) {
        let recorded = RequestView::ParseTarget { text: trimmed(contents) };
        assert(is_answer(recorded, world(recorded)));
    }
}

/// A build whose source cannot be read, or was emitted for another target,
/// changes nothing: it asks for nothing but the parsing of targets and the
/// reading of files, so a missing source gains no target metadata and an old
/// cubin is not reused. Its error says what is wrong.
pub proof fn law_refused_build_changes_nothing(
    world: spec_fn(RequestView) -> ReplyView,
    files: FilesView,
    text: Seq<char>,
    arch: ArchView,
)
    requires
        answers_all(world),
        target_of(world, text) == Ok::<ArchView, ErrorView>(arch),
        !may_build(world, files, arch),
    ensures
        forall|request: RequestView|
            build_asks(file_build(files, text), world, request) ==> only_reads(request),
        build_outcome(world, text, SourceView::IrFile { files }) == Err::<BuiltView, ErrorView>(
            match file_bytes(world, files.ll) {
                Err(error) => error,
                Ok(_) => match recorded_target(world, files.target) {
                    Err(error) => error,
                    Ok(emitted) => ErrorView::TargetMismatch {
                        ir_path: files.ll,
                        emitted: emitted->0.sm,
                        requested: arch.sm,
                    },
                },
            },
        ),
{
    let build = file_build(files, text);
    assert forall|request: RequestView| build_asks(build, world, request) implies only_reads(
        request,
    ) by {
        let n = choose|n: nat| #[trigger]
            build_after(build, world, n).request() == Some(request);
        lemma_refused_build(world, files, text, n);
    }
}

/// A build in memory, at any time. When it has ended well, it gives an image.
pub open spec fn is_in_memory(build: BuildView) -> bool {
    match build {
        BuildView::ParseTarget { source, .. } => !(source is IrFile),
        BuildView::Compiling { destination, .. } => destination is Memory,
        BuildView::Linking { cubin_path, .. } => cubin_path is None,
        BuildView::Done(result) => result matches Ok(built) ==> built is Image,
        _ => false,
    }
}

proof fn lemma_in_memory(build: BuildView, world: spec_fn(RequestView) -> ReplyView, n: nat)
    requires
        is_in_memory(build),
    ensures
        is_in_memory(build_after(build, world, n)),
    decreases n,
{
    match build.request() {
        Some(request) if n > 0 => {
            lemma_in_memory(build.resume(world(request)), world, (n - 1) as nat);
        },
        _ => {},
    }
}

/// A run of a build from memory writes no file, and what it gives is an image.
pub proof fn law_memory_build_writes_nothing(
    world: spec_fn(RequestView) -> ReplyView,
    text: Seq<char>,
    source: SourceView,
)
    requires
        !(source is IrFile),
    ensures
        forall|request: RequestView|
            build_asks(BuildView::ParseTarget { text, source }, world, request) ==> !is_write(
                request,
            ),
        forall|n: nat|
            is_in_memory(#[trigger] build_after(BuildView::ParseTarget { text, source }, world, n)),
{
    let build = BuildView::ParseTarget { text, source };
    assert forall|request: RequestView| build_asks(build, world, request) implies !is_write(
        request,
    ) by {
        let n = choose|n: nat| #[trigger]
            build_after(build, world, n).request() == Some(request);
        lemma_in_memory(build, world, n);
    }
    assert forall|n: nat| is_in_memory(#[trigger] build_after(build, world, n)) by {
        lemma_in_memory(build, world, n);
    }
}

/// What a successful build of a file asks to be written: the record of the
/// target, the LTOIR, and the cubin that is linked from it. What is compiled
/// is what was read of the source, for every call anew.
pub proof fn law_successful_build_writes(
    world: spec_fn(RequestView) -> ReplyView,
    files: FilesView,
    text: Seq<char>,
)
    requires
        answers_all(world),
        build_outcome(world, text, SourceView::IrFile { files }) is Ok,
    ensures
        build_outcome(world, text, SourceView::IrFile { files }) == Ok::<BuiltView, ErrorView>(
            BuiltView::File(files.cubin),
        ),
        ({
            let build = file_build(files, text);
            let arch = target_of(world, text)->Ok_0;
            let nvvm_ir = file_bytes(world, files.ll)->Ok_0;
            let ltoir = compiled(world, nvvm_ir, files.ll, arch)->Ok_0;
            let cubin = linked(world, ltoir, files.ltoir, arch, Output::Cubin)->Ok_0;
            &&& build_asks(
                build,
                world,
                RequestView::WriteText { path: files.target, text: sidecar_text(arch) },
            )
            &&& build_asks(
                build,
                world,
                RequestView::AddModule { contents: nvvm_ir, name: files.ll },
            )
            &&& build_asks(
                build,
                world,
                RequestView::WriteFile { path: files.ltoir, contents: ltoir },
            )
            &&& build_asks(
                build,
                world,
                RequestView::WriteFile { path: files.cubin, contents: cubin },
            )
        }),
{
    let build = file_build(files, text);
    let arch = target_of(world, text)->Ok_0;
    let nvvm_ir = file_bytes(world, files.ll)->Ok_0;
    let ltoir = compiled(world, nvvm_ir, files.ll, arch)->Ok_0;
    let cubin = linked(world, ltoir, files.ltoir, arch, Output::Cubin)->Ok_0;
    let compiling = BuildView::Compiling {
        compile: CompileView::start(nvvm_ir, files.ll, arch),
        destination: DestinationView::Files { files },
    };
    let linking = BuildView::Linking {
        link: LinkView::start(ltoir, files.ltoir, arch, Output::Cubin),
        cubin_path: Some(files.cubin),
    };
    let record = RequestView::ReadText { path: files.target };
    assert(is_answer(record, world(record)));
    let write = RequestView::WriteText { path: files.target, text: sidecar_text(arch) };
    assert(is_answer(write, world(write)));
    let store = RequestView::WriteFile { path: files.ltoir, contents: ltoir };
    assert(is_answer(store, world(store)));
    let parse = RequestView::ParseTarget { text };
    assert(is_answer(parse, world(parse)));
    let read = RequestView::ReadFile { path: files.ll };
    assert(is_answer(read, world(read)));
    let recorded = world(record)->Text_0->Ok_0 is Some;
    if recorded {
        let again = RequestView::ParseTarget {
            text: trimmed(world(record)->Text_0->Ok_0->Some_0),
        };
        assert(is_answer(again, world(again)));
    }
    let k: nat = if recorded { 4 } else { 3 };
    assert(build_after(build, world, k) == (BuildView::WriteTarget {
        files,
        arch,
        nvvm_ir,
        text: sidecar_text(arch),
    })) by {
        reveal_with_fuel(build_after, 5);
    }
    assert(build_after(build, world, k).request() == Some(write));
    lemma_build_after_sum(build, world, k, 1);
    assert(build_after(build, world, k + 1) == compiling) by {
        reveal_with_fuel(build_after, 2);
    }
    lemma_build_after_sum(build, world, k + 1, 7);
    assert(build_after(compiling, world, 7).request() == Some(
        RequestView::AddModule { contents: nvvm_ir, name: files.ll },
    )) by {
        reveal_with_fuel(build_after, 8);
    }
    assert(build_after(build, world, k + 1 + 7).request() == Some(
        RequestView::AddModule { contents: nvvm_ir, name: files.ll },
    ));
    lemma_build_after_sum(build, world, k + 1, 10);
    lemma_compiling(world, nvvm_ir, files.ll, arch, DestinationView::Files { files });
    assert(build_after(build, world, k + 1 + 10).request() == Some(store));
    lemma_build_after_sum(build, world, k + 1 + 10, 1);
    assert(build_after(build, world, k + 1 + 10 + 1) == linking) by {
        reveal_with_fuel(build_after, 2);
    }
    lemma_build_after_sum(build, world, k + 1 + 10 + 1, 4);
    lemma_linking(world, ltoir, files.ltoir, arch, Output::Cubin, Some(files.cubin));
    assert(build_after(build, world, k + 1 + 10 + 1 + 4).request() == Some(
        RequestView::WriteFile { path: files.cubin, contents: cubin },
    ));
}

/// The part that a build waits for has not ended.
pub open spec fn waits(build: BuildView) -> bool {
    match build {
        BuildView::Compiling { compile, .. } => compile.request() is Some,
        BuildView::Linking { link, .. } => link.request() is Some,
        _ => true,
    }
}

/// Every build, from its start on, either has ended or waits for something.
pub proof fn law_build_waits_or_has_ended(build: BuildView, reply: ReplyView)
    ensures
        build is ParseTarget ==> waits(build),
        waits(build) ==> waits(build.resume(reply)),
        waits(build) ==> (build.request() is None <==> build is Done),
{
}

/// A reply that does not answer what a build waits for changes nothing, and a
/// build that has ended waits for nothing more.
pub proof fn law_wrong_reply_changes_nothing(build: BuildView, reply: ReplyView)
    requires
        waits(build),
        !(build.request() matches Some(request) && is_answer(request, reply)),
    ensures
        build.resume(reply) == build,
{
}

} // verus!
