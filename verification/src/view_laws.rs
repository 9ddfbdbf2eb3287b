//! What is seen of a request, a reply, an error and a result is what they hold.

use vstd::prelude::*;
use crate::arch::CudaArch;
use crate::compile::{Compile, CompileStage, CompileStageView};
use crate::error::{ErrorView, LtoirError};
use crate::link::{Link, LinkStage, LinkStageView};
use crate::load::{Load, LoadStage, LoadStageView};
use crate::pipeline::{Build, BuildView, Built, BuiltView, IrFiles};
use crate::request::{Reply, ReplyView, Request, RequestView};
use crate::target::{LookupStage, LookupStageView, TargetLookup};

verus! {

/// A target is seen by its names, its number, its suffix and its dialect, so
/// two that look alike have all of these alike.
pub proof fn law_arch_is_seen(a: CudaArch, b: CudaArch)
    ensures
        a@.sm == a.sm@,
        a@.compute == a.compute@,
        a@.capability == a.capability,
        a@.suffix == a.suffix,
        a@.legacy_llvm == a.legacy_llvm,
        a@ == b@ <==> a.sm@ == b.sm@ && a.compute@ == b.compute@ && a.capability == b.capability
            && a.suffix == b.suffix && a.legacy_llvm == b.legacy_llvm,
{
}

/// A request is seen as what it asks for, with all that it asks it with.
pub proof fn law_request_is_seen(request: Request<'_>)
    ensures
        match request {
            Request::ParseTarget { text } => request@ == (RequestView::ParseTarget {
                text: text@,
            }),
            Request::ReadVariable { name } => request@ == (RequestView::ReadVariable {
                name: name@,
            }),
            Request::TryExists { path } => request@ == (RequestView::TryExists { path: path@ }),
            Request::Exists { path } => request@ == (RequestView::Exists { path: path@ }),
            Request::ReadFile { path } => request@ == (RequestView::ReadFile { path: path@ }),
            Request::ReadText { path } => request@ == (RequestView::ReadText { path: path@ }),
            Request::WriteText { path, text } => request@ == (RequestView::WriteText {
                path: path@,
                text: text@,
            }),
            Request::WriteFile { path, contents } => request@ == (RequestView::WriteFile {
                path: path@,
                contents: contents@,
            }),
            Request::FindLibdevice => request@ == RequestView::FindLibdevice,
            Request::LoadNvvm => request@ == RequestView::LoadNvvm,
            Request::IrVersion => request@ == RequestView::IrVersion,
            Request::LlvmVersion { arch } => request@ == (RequestView::LlvmVersion {
                arch: arch@,
            }),
            Request::NewProgram => request@ == RequestView::NewProgram,
            Request::AddModule { contents, name } => request@ == (RequestView::AddModule {
                contents: contents@,
                name: name@,
            }),
            Request::VerifyProgram { options } => {
                &&& request@ is VerifyProgram
                &&& request@->VerifyProgram_options.len() == options@.len()
                &&& forall|i: int|
                    0 <= i < options@.len() ==> #[trigger] request@->VerifyProgram_options[i]
                        == options@[i]@
            },
            Request::CompileProgram { options } => {
                &&& request@ is CompileProgram
                &&& request@->CompileProgram_options.len() == options@.len()
                &&& forall|i: int|
                    0 <= i < options@.len() ==> #[trigger] request@->CompileProgram_options[i]
                        == options@[i]@
            },
            Request::LoadNvJitLink => request@ == RequestView::LoadNvJitLink,
            Request::NewLinker { options } => {
                &&& request@ is NewLinker
                &&& request@->NewLinker_options.len() == options@.len()
                &&& forall|i: int|
                    0 <= i < options@.len() ==> #[trigger] request@->NewLinker_options[i]
                        == options@[i]@
            },
            Request::AddLtoir { contents, name } => request@ == (RequestView::AddLtoir {
                contents: contents@,
                name: name@,
            }),
            Request::FinishCubin => request@ == RequestView::FinishCubin,
            Request::FinishPtx => request@ == RequestView::FinishPtx,
            Request::ComputeCapability => request@ == RequestView::ComputeCapability,
            Request::LoadModuleFile { path } => request@ == (RequestView::LoadModuleFile {
                path: path@,
            }),
            Request::LoadModuleImage { image } => request@ == (RequestView::LoadModuleImage {
                image: image@,
            }),
        },
{
}

/// A reply is seen as what it tells: a success with what came of it, a failure
/// with its text.
pub proof fn law_reply_is_seen(reply: Reply)
    ensures
        match reply {
            Reply::Target(Ok(arch)) => reply@ == ReplyView::Target(Ok(arch@)),
            Reply::Target(Err(why)) => reply@ == ReplyView::Target(Err(why@)),
            Reply::Variable(Some(text)) => reply@ == ReplyView::Variable(Some(text@)),
            Reply::Variable(None) => reply@ == ReplyView::Variable(None),
            Reply::Probed(Ok(exists)) => reply@ == ReplyView::Probed(Ok(exists)),
            Reply::Probed(Err(why)) => reply@ == ReplyView::Probed(Err(why@)),
            Reply::Exists(exists) => reply@ == ReplyView::Exists(exists),
            Reply::Bytes(Ok(bytes)) => reply@ == ReplyView::Bytes(Ok(bytes@)),
            Reply::Bytes(Err(why)) => reply@ == ReplyView::Bytes(Err(why@)),
            Reply::Text(Ok(Some(text))) => reply@ == ReplyView::Text(Ok(Some(text@))),
            Reply::Text(Ok(None)) => reply@ == ReplyView::Text(Ok(None)),
            Reply::Text(Err(why)) => reply@ == ReplyView::Text(Err(why@)),
            Reply::Finished(Ok(())) => reply@ == ReplyView::Finished(Ok(())),
            Reply::Finished(Err(why)) => reply@ == ReplyView::Finished(Err(why@)),
            Reply::Libdevice(Ok(path)) => reply@ == ReplyView::Libdevice(Ok(path@)),
            Reply::Libdevice(Err(tried)) => reply@ == ReplyView::Libdevice(Err(tried@)),
            Reply::IrVersion(Ok(version)) => reply@ == ReplyView::IrVersion(Ok(version)),
            Reply::IrVersion(Err(why)) => reply@ == ReplyView::IrVersion(Err(why@)),
            Reply::LlvmVersion(Ok(version)) => reply@ == ReplyView::LlvmVersion(Ok(version)),
            Reply::LlvmVersion(Err(why)) => reply@ == ReplyView::LlvmVersion(Err(why@)),
            Reply::Capability(Ok(version)) => reply@ == ReplyView::Capability(Ok(version)),
            Reply::Capability(Err(why)) => reply@ == ReplyView::Capability(Err(why@)),
        },
{
}

/// An error is seen as what went wrong, with all that it tells of it.
pub proof fn law_error_is_seen(error: LtoirError)
    ensures
        match error {
            LtoirError::InvalidTarget(why) => error@ == ErrorView::InvalidTarget(why@),
            LtoirError::TargetNotFound => error@ == ErrorView::TargetNotFound,
            LtoirError::TargetMismatch { ir_path, emitted, requested } => error@ == (
            ErrorView::TargetMismatch {
                ir_path: ir_path@,
                emitted: emitted@,
                requested: requested@,
            }),
            LtoirError::IncompatibleExecutionTarget { emitted, execution, reason } => error@ == (
            ErrorView::IncompatibleExecutionTarget {
                emitted: emitted@,
                execution: execution@,
                reason: reason@,
            }),
            LtoirError::UnsupportedNvvmIrVersion { major, minor } => error@ == (
            ErrorView::UnsupportedNvvmIrVersion { major: major as int, minor: minor as int }),
            LtoirError::DialectMismatch { target, llvm_major, expected } => error@ == (
            ErrorView::DialectMismatch {
                target: target@,
                llvm_major: llvm_major as int,
                expected: expected@,
            }),
            LtoirError::Nvvm(why) => error@ == ErrorView::Nvvm(why@),
            LtoirError::NvJitLink(why) => error@ == ErrorView::NvJitLink(why@),
            LtoirError::LibdeviceNotFound { tried } => error@ == (ErrorView::LibdeviceNotFound {
                tried: tried@,
            }),
            LtoirError::Io { path, source } => error@ == (ErrorView::Io {
                path: path@,
                source: source@,
            }),
            LtoirError::NoArtifact { name, dir } => error@ == (ErrorView::NoArtifact {
                name: name@,
                dir: dir@,
            }),
            LtoirError::Driver(why) => error@ == ErrorView::Driver(why@),
        },
{
}

/// The files of a build are seen by their four paths.
pub proof fn law_files_are_seen(files: IrFiles)
    ensures
        files@.ll == files.ll@,
        files@.target == files.target@,
        files@.ltoir == files.ltoir@,
        files@.cubin == files.cubin@,
{
}

/// Whether a job has ended is seen, and so is what it came to.
pub proof fn law_end_is_seen(
    lookup: TargetLookup,
    compile: Compile,
    link: Link,
    build: Build,
    load: Load,
)
    ensures
        match lookup.stage {
            LookupStage::Done(Ok(arch)) => lookup@.stage == LookupStageView::Done(Ok(arch@)),
            LookupStage::Done(Err(error)) => lookup@.stage == LookupStageView::Done(Err(error@)),
            _ => !(lookup@.stage is Done),
        },
        match compile.stage {
            CompileStage::Done(Ok(ltoir)) => compile@.stage == CompileStageView::Done(Ok(ltoir@)),
            CompileStage::Done(Err(error)) => compile@.stage == CompileStageView::Done(
                Err(error@),
            ),
            _ => !(compile@.stage is Done),
        },
        match link.stage {
            LinkStage::Done(Ok(image)) => link@.stage == LinkStageView::Done(Ok(image@)),
            LinkStage::Done(Err(error)) => link@.stage == LinkStageView::Done(Err(error@)),
            _ => !(link@.stage is Done),
        },
        match build {
            Build::Done(Ok(Built::File(path))) => build@ == BuildView::Done(
                Ok(BuiltView::File(path@)),
            ),
            Build::Done(Ok(Built::Image(image))) => build@ == BuildView::Done(
                Ok(BuiltView::Image(image@)),
            ),
            Build::Done(Err(error)) => build@ == BuildView::Done(Err(error@)),
            _ => !(build@ is Done),
        },
        match load.stage {
            LoadStage::Done(Ok(())) => load@.stage == LoadStageView::Done(None),
            LoadStage::Done(Err(error)) => load@.stage == LoadStageView::Done(Some(error@)),
            _ => !(load@.stage is Done),
        },
{
}

/// The artifacts of a load are seen by their paths and their names.
pub proof fn law_artifacts_are_seen(load: Load)
    ensures
        load@.artifacts.name == load.artifacts.name@,
        load@.artifacts.dir == load.artifacts.dir@,
        load@.artifacts.ptx == load.artifacts.ptx@,
        load@.artifacts.cubin == load.artifacts.cubin@,
        load@.artifacts.ir == load.artifacts.ir@,
        load@.artifacts.ltoir == load.artifacts.ltoir@,
        load@.artifacts.ltoir_target == load.artifacts.ltoir_target@,
{
}

} // verus!
