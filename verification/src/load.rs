//! Picks the right artifact of a kernel, builds what it needs, and loads it.

use vstd::prelude::*;
use crate::arch::{ArchView, CudaArch};
use crate::error::{ErrorView, LtoirError};
use crate::link::{Link, LinkView, Output};
use crate::paths::{
    artifact_path,
    emitted_target_path,
    file_name,
    is_artifact_path,
    is_target_path,
};
use crate::pipeline::{
    are_files_of,
    Build,
    BuildView,
    Built,
    BuiltView,
    build_ptx_from_nvvm_ir,
    file_build,
    FilesView,
    IrFiles,
    Source,
    SourceView,
};
use crate::request::{plain_view, Reply, ReplyView, Request, RequestView};
use crate::route::{
    execution_route,
    ExecutionRoute,
    FileArtifact,
    Present,
    route,
    select_file_artifact,
    selected,
};
use crate::siblings::{
    has_one_record,
    lemma_joined_longer,
    lemma_longer_can_join,
    lemma_one_record,
};
use crate::target::{
    accept_target,
    check_view,
    execution_target_text,
    execution_text,
    LookupStage,
    LookupStageView,
    LookupView,
    parsed_target,
    TargetLookup,
};

verus! {

/// NVVM output, which goes by its recorded or explicit target.
#[derive(Clone, Copy, Debug, PartialEq, Eq, Structural)]
pub enum NvvmArtifact {
    Ir,
    Ltoir,
}

/// How far a load is. Each stage but the last waits for one reply.
#[derive(Debug)]
pub enum LoadStage {
    /// Is there a recorded target?
    ProbeRecorded,
    /// Is there PTX?
    ProbePtx { recorded: bool },
    /// Is there NVVM IR?
    ProbeIr { recorded: bool, ptx: bool },
    /// Is there LTOIR?
    ProbeLtoir { recorded: bool, ptx: bool, nvvm_ir: bool },
    /// Is there a cubin?
    ProbeCubin { recorded: bool, ptx: bool, nvvm_ir: bool, ltoir: bool },
    /// The artifact's target is being looked up.
    FindTarget { artifact: NvvmArtifact, lookup: TargetLookup },
    /// The GPU is being asked for its compute capability.
    Capability { artifact: NvvmArtifact, emitted: CudaArch },
    /// The GPU's target is being parsed.
    ParseExecution { artifact: NvvmArtifact, emitted: CudaArch, text: String },
    /// NVVM IR is being read, to become PTX.
    ReadIr { emitted: CudaArch },
    /// LTOIR is being read.
    ReadLtoir { emitted: CudaArch, execution: CudaArch },
    /// The image is being built.
    Building { build: Build },
    /// The driver is loading a file.
    LoadFile { path: String },
    /// The driver is loading an image.
    LoadImage { image: Vec<u8> },
    /// The module is loaded, or why it is not.
    Done(Result<(), LtoirError>),
}

/// Where a kernel's artifacts lie.
#[derive(Debug)]
pub struct Artifacts {
    /// The kernel's name.
    pub name: String,
    /// The directory that is searched.
    pub dir: String,
    pub ptx: String,
    pub cubin: String,
    /// The NVVM IR, with the files of a build of it.
    pub ir: IrFiles,
    pub ltoir: String,
    /// The record of the LTOIR's target.
    pub ltoir_target: String,
}

/// The load of one kernel's module.
#[derive(Debug)]
pub struct Load {
    pub artifacts: Artifacts,
    pub stage: LoadStage,
}

/// What a [`LoadStage`] holds, as mathematical values.
pub enum LoadStageView {
    ProbeRecorded,
    ProbePtx { recorded: bool },
    ProbeIr { recorded: bool, ptx: bool },
    ProbeLtoir { recorded: bool, ptx: bool, nvvm_ir: bool },
    ProbeCubin { recorded: bool, ptx: bool, nvvm_ir: bool, ltoir: bool },
    FindTarget { artifact: NvvmArtifact, lookup: LookupView },
    Capability { artifact: NvvmArtifact, emitted: ArchView },
    ParseExecution { artifact: NvvmArtifact, emitted: ArchView, text: Seq<char> },
    ReadIr { emitted: ArchView },
    ReadLtoir { emitted: ArchView, execution: ArchView },
    Building { build: BuildView },
    LoadFile { path: Seq<char> },
    LoadImage { image: Seq<u8> },
    Done(Option<ErrorView>),
}

/// What [`Artifacts`] hold, as mathematical values.
pub struct ArtifactsView {
    pub name: Seq<char>,
    pub dir: Seq<char>,
    pub ptx: Seq<char>,
    pub cubin: Seq<char>,
    pub ir: FilesView,
    pub ltoir: Seq<char>,
    pub ltoir_target: Seq<char>,
}

/// What a [`Load`] holds, as mathematical values.
pub struct LoadView {
    pub artifacts: ArtifactsView,
    pub stage: LoadStageView,
}

impl View for LoadStage {
    type V = LoadStageView;

    open spec fn view(&self) -> LoadStageView {
        match self {
            LoadStage::ProbeRecorded => LoadStageView::ProbeRecorded,
            LoadStage::ProbePtx { recorded } => LoadStageView::ProbePtx { recorded: *recorded },
            LoadStage::ProbeIr { recorded, ptx } => {
                LoadStageView::ProbeIr { recorded: *recorded, ptx: *ptx }
            },
            LoadStage::ProbeLtoir { recorded, ptx, nvvm_ir } => LoadStageView::ProbeLtoir {
                recorded: *recorded,
                ptx: *ptx,
                nvvm_ir: *nvvm_ir,
            },
            LoadStage::ProbeCubin { recorded, ptx, nvvm_ir, ltoir } => LoadStageView::ProbeCubin {
                recorded: *recorded,
                ptx: *ptx,
                nvvm_ir: *nvvm_ir,
                ltoir: *ltoir,
            },
            LoadStage::FindTarget { artifact, lookup } => {
                LoadStageView::FindTarget { artifact: *artifact, lookup: lookup@ }
            },
            LoadStage::Capability { artifact, emitted } => {
                LoadStageView::Capability { artifact: *artifact, emitted: emitted@ }
            },
            LoadStage::ParseExecution { artifact, emitted, text } => {
                LoadStageView::ParseExecution {
                    artifact: *artifact,
                    emitted: emitted@,
                    text: text@,
                }
            },
            LoadStage::ReadIr { emitted } => LoadStageView::ReadIr { emitted: emitted@ },
            LoadStage::ReadLtoir { emitted, execution } => {
                LoadStageView::ReadLtoir { emitted: emitted@, execution: execution@ }
            },
            LoadStage::Building { build } => LoadStageView::Building { build: build@ },
            LoadStage::LoadFile { path } => LoadStageView::LoadFile { path: path@ },
            LoadStage::LoadImage { image } => LoadStageView::LoadImage { image: image@ },
            LoadStage::Done(result) => LoadStageView::Done(check_view(*result)),
        }
    }
}

impl View for Artifacts {
    type V = ArtifactsView;

    open spec fn view(&self) -> ArtifactsView {
        ArtifactsView {
            name: self.name@,
            dir: self.dir@,
            ptx: self.ptx@,
            cubin: self.cubin@,
            ir: self.ir@,
            ltoir: self.ltoir@,
            ltoir_target: self.ltoir_target@,
        }
    }
}

impl View for Load {
    type V = LoadView;

    open spec fn view(&self) -> LoadView {
        LoadView { artifacts: self.artifacts@, stage: self.stage@ }
    }
}

/// Why a kernel without a usable artifact is not loaded.
pub open spec fn no_artifact(artifacts: ArtifactsView) -> ErrorView {
    ErrorView::NoArtifact { name: artifacts.name, dir: artifacts.dir }
}

/// The first step with the artifact that was selected, if one was.
pub open spec fn open_artifact(
    artifacts: ArtifactsView,
    artifact: Option<FileArtifact>,
) -> LoadStageView {
    match artifact {
        None => LoadStageView::Done(Some(no_artifact(artifacts))),
        Some(FileArtifact::Ptx) => LoadStageView::LoadFile { path: artifacts.ptx },
        Some(FileArtifact::NvvmIr) => LoadStageView::FindTarget {
            artifact: NvvmArtifact::Ir,
            lookup: LookupView::start(Some(artifacts.ir.target)),
        },
        Some(FileArtifact::Ltoir) => LoadStageView::FindTarget {
            artifact: NvvmArtifact::Ltoir,
            lookup: LookupView::start(Some(artifacts.ltoir_target)),
        },
        Some(FileArtifact::Cubin) => LoadStageView::LoadFile { path: artifacts.cubin },
    }
}

/// The step after a part of the lookup: it goes on until it has ended, and the
/// GPU is then asked.
pub open spec fn after_lookup(artifact: NvvmArtifact, lookup: LookupView) -> LoadStageView {
    match lookup.stage {
        LookupStageView::Done(Err(error)) => LoadStageView::Done(Some(error)),
        LookupStageView::Done(Ok(emitted)) => LoadStageView::Capability { artifact, emitted },
        _ => LoadStageView::FindTarget { artifact, lookup },
    }
}

/// The step with an artifact emitted for `emitted`, on a GPU of `execution`.
/// NVVM IR goes its route at once; LTOIR is read first.
pub open spec fn take_route(
    artifacts: ArtifactsView,
    artifact: NvvmArtifact,
    emitted: ArchView,
    execution: ArchView,
) -> LoadStageView {
    match artifact {
        NvvmArtifact::Ir => match route(emitted, execution) {
            Err(error) => LoadStageView::Done(Some(error)),
            Ok(ExecutionRoute::Cubin) => LoadStageView::Building {
                build: file_build(artifacts.ir, emitted.sm),
            },
            Ok(ExecutionRoute::PtxBridge) => LoadStageView::ReadIr { emitted },
        },
        NvvmArtifact::Ltoir => LoadStageView::ReadLtoir { emitted, execution },
    }
}

/// The step with NVVM IR that goes to a newer GPU as PTX.
pub open spec fn bridge_ir(
    artifacts: ArtifactsView,
    nvvm_ir: Seq<u8>,
    emitted: ArchView,
) -> LoadStageView {
    LoadStageView::Building {
        build: BuildView::ParseTarget {
            text: emitted.sm,
            source: SourceView::Ir {
                nvvm_ir,
                module_name: artifacts.ir.ll,
                output: Output::Ptx,
            },
        },
    }
}

/// What LTOIR is linked to on a route.
pub open spec fn route_output(route: ExecutionRoute) -> Output {
    match route {
        ExecutionRoute::Cubin => Output::Cubin,
        ExecutionRoute::PtxBridge => Output::Ptx,
    }
}

/// The step with LTOIR that was read: it goes its route.
pub open spec fn link_artifact(
    artifacts: ArtifactsView,
    ltoir: Seq<u8>,
    emitted: ArchView,
    execution: ArchView,
) -> LoadStageView {
    match route(emitted, execution) {
        Err(error) => LoadStageView::Done(Some(error)),
        Ok(route) => LoadStageView::Building {
            build: BuildView::Linking {
                link: LinkView::start(ltoir, artifacts.ltoir, emitted, route_output(route)),
                cubin_path: None,
            },
        },
    }
}

/// The step after a part of the build: it goes on until it has ended, and what
/// was built is then loaded.
pub open spec fn after_build(build: BuildView) -> LoadStageView {
    match build {
        BuildView::Done(Err(error)) => LoadStageView::Done(Some(error)),
        BuildView::Done(Ok(BuiltView::File(path))) => LoadStageView::LoadFile { path },
        BuildView::Done(Ok(BuiltView::Image(image))) => LoadStageView::LoadImage { image },
        _ => LoadStageView::Building { build },
    }
}

/// The end of a load, given what the driver says.
pub open spec fn after_driver(loaded: Result<(), Seq<char>>) -> LoadStageView {
    match loaded {
        Ok(_) => LoadStageView::Done(None),
        Err(why) => LoadStageView::Done(Some(ErrorView::Driver(why))),
    }
}

impl LoadView {
    /// What the load waits for.
    pub open spec fn request(self) -> Option<RequestView> {
        match self.stage {
            LoadStageView::ProbeRecorded => Some(
                RequestView::TryExists { path: self.artifacts.ir.target },
            ),
            LoadStageView::ProbePtx { .. } => Some(
                RequestView::Exists { path: self.artifacts.ptx },
            ),
            LoadStageView::ProbeIr { .. } => Some(
                RequestView::Exists { path: self.artifacts.ir.ll },
            ),
            LoadStageView::ProbeLtoir { .. } => Some(
                RequestView::Exists { path: self.artifacts.ltoir },
            ),
            LoadStageView::ProbeCubin { .. } => Some(
                RequestView::Exists { path: self.artifacts.cubin },
            ),
            LoadStageView::FindTarget { lookup, .. } => lookup.request(),
            LoadStageView::Capability { .. } => Some(RequestView::ComputeCapability),
            LoadStageView::ParseExecution { text, .. } => Some(RequestView::ParseTarget { text }),
            LoadStageView::ReadIr { .. } => Some(
                RequestView::ReadFile { path: self.artifacts.ir.ll },
            ),
            LoadStageView::ReadLtoir { .. } => Some(
                RequestView::ReadFile { path: self.artifacts.ltoir },
            ),
            LoadStageView::Building { build } => build.request(),
            LoadStageView::LoadFile { path } => Some(RequestView::LoadModuleFile { path }),
            LoadStageView::LoadImage { image } => Some(RequestView::LoadModuleImage { image }),
            LoadStageView::Done(_) => None,
        }
    }

    /// The stage after `reply`. A reply of the wrong kind changes nothing.
    pub open spec fn next_stage(self, reply: ReplyView) -> LoadStageView {
        match (self.stage, reply) {
            (LoadStageView::ProbeRecorded, ReplyView::Probed(probed)) => match probed {
                Ok(recorded) => LoadStageView::ProbePtx { recorded },
                Err(source) => LoadStageView::Done(
                    Some(ErrorView::Io { path: self.artifacts.ir.target, source }),
                ),
            },
            (LoadStageView::ProbePtx { recorded }, ReplyView::Exists(ptx)) => {
                LoadStageView::ProbeIr { recorded, ptx }
            },
            (LoadStageView::ProbeIr { recorded, ptx }, ReplyView::Exists(nvvm_ir)) => {
                LoadStageView::ProbeLtoir { recorded, ptx, nvvm_ir }
            },
            (LoadStageView::ProbeLtoir { recorded, ptx, nvvm_ir }, ReplyView::Exists(ltoir)) => {
                LoadStageView::ProbeCubin { recorded, ptx, nvvm_ir, ltoir }
            },
            (
                LoadStageView::ProbeCubin { recorded, ptx, nvvm_ir, ltoir },
                ReplyView::Exists(cubin),
            ) => open_artifact(
                self.artifacts,
                selected(Present { ptx, nvvm_ir, ltoir, cubin, recorded_target: recorded }),
            ),
            (LoadStageView::FindTarget { artifact, lookup }, _) => {
                after_lookup(artifact, lookup.resume(reply))
            },
            (LoadStageView::Capability { artifact, emitted }, ReplyView::Capability(told)) => {
                match told {
                    Ok((major, minor)) => LoadStageView::ParseExecution {
                        artifact,
                        emitted,
                        text: execution_text(major as int, minor as int),
                    },
                    Err(why) => LoadStageView::Done(Some(ErrorView::Driver(why))),
                }
            },
            (
                LoadStageView::ParseExecution { artifact, emitted, .. },
                ReplyView::Target(parsed),
            ) => match parsed_target(parsed) {
                Ok(execution) => take_route(self.artifacts, artifact, emitted, execution),
                Err(error) => LoadStageView::Done(Some(error)),
            },
            (LoadStageView::ReadIr { emitted }, ReplyView::Bytes(read)) => match read {
                Ok(nvvm_ir) => bridge_ir(self.artifacts, nvvm_ir, emitted),
                Err(source) => LoadStageView::Done(
                    Some(ErrorView::Io { path: self.artifacts.ir.ll, source }),
                ),
            },
            (LoadStageView::ReadLtoir { emitted, execution }, ReplyView::Bytes(read)) => {
                match read {
                    Ok(ltoir) => link_artifact(self.artifacts, ltoir, emitted, execution),
                    Err(source) => LoadStageView::Done(
                        Some(ErrorView::Io { path: self.artifacts.ltoir, source }),
                    ),
                }
            },
            (LoadStageView::Building { build }, _) => after_build(build.resume(reply)),
            (LoadStageView::LoadFile { .. }, ReplyView::Finished(loaded)) => after_driver(loaded),
            (LoadStageView::LoadImage { .. }, ReplyView::Finished(loaded)) => after_driver(loaded),
            _ => self.stage,
        }
    }

    /// The load after `reply`. A reply of the wrong kind changes nothing.
    pub open spec fn resume(self, reply: ReplyView) -> LoadView {
        LoadView { artifacts: self.artifacts, stage: self.next_stage(reply) }
    }
}

fn opened(artifacts: &Artifacts, artifact: Option<FileArtifact>) -> (stage: LoadStage)
    ensures
        stage@ == open_artifact(artifacts@, artifact),
{
    match artifact {
        None => LoadStage::Done(
            Err(
                LtoirError::NoArtifact {
                    name: artifacts.name.clone(),
                    dir: artifacts.dir.clone(),
                },
            ),
        ),
        Some(FileArtifact::Ptx) => LoadStage::LoadFile { path: artifacts.ptx.clone() },
        Some(FileArtifact::NvvmIr) => LoadStage::FindTarget {
            artifact: NvvmArtifact::Ir,
            lookup: TargetLookup {
                target_path: Some(artifacts.ir.target.clone()),
                stage: LookupStage::ReadVariable,
            },
        },
        Some(FileArtifact::Ltoir) => LoadStage::FindTarget {
            artifact: NvvmArtifact::Ltoir,
            lookup: TargetLookup {
                target_path: Some(artifacts.ltoir_target.clone()),
                stage: LookupStage::ReadVariable,
            },
        },
        Some(FileArtifact::Cubin) => LoadStage::LoadFile { path: artifacts.cubin.clone() },
    }
}

fn looked_up(artifact: NvvmArtifact, lookup: TargetLookup) -> (stage: LoadStage)
    ensures
        stage@ == after_lookup(artifact, lookup@),
{
    let TargetLookup { target_path, stage } = lookup;
    match stage {
        LookupStage::Done(Err(error)) => LoadStage::Done(Err(error)),
        LookupStage::Done(Ok(emitted)) => LoadStage::Capability { artifact, emitted },
        stage => LoadStage::FindTarget { artifact, lookup: TargetLookup { target_path, stage } },
    }
}

fn routed(
    artifacts: &Artifacts,
    artifact: NvvmArtifact,
    emitted: CudaArch,
    execution: CudaArch,
) -> (stage: LoadStage)
    ensures
        stage@ == take_route(artifacts@, artifact, emitted@, execution@),
{
    match artifact {
        NvvmArtifact::Ir => match execution_route(&emitted, &execution) {
            Err(error) => LoadStage::Done(Err(error)),
            Ok(ExecutionRoute::Cubin) => LoadStage::Building {
                build: Build::ParseTarget {
                    text: emitted.sm,
                    source: Source::IrFile { files: artifacts.ir.duplicate() },
                },
            },
            Ok(ExecutionRoute::PtxBridge) => LoadStage::ReadIr { emitted },
        },
        NvvmArtifact::Ltoir => LoadStage::ReadLtoir { emitted, execution },
    }
}

fn linked(
    artifacts: &Artifacts,
    ltoir: Vec<u8>,
    emitted: CudaArch,
    execution: CudaArch,
) -> (stage: LoadStage)
    ensures
        stage@ == link_artifact(artifacts@, ltoir@, emitted@, execution@),
{
    match execution_route(&emitted, &execution) {
        Err(error) => LoadStage::Done(Err(error)),
        Ok(route) => {
            let output = match route {
                ExecutionRoute::Cubin => Output::Cubin,
                ExecutionRoute::PtxBridge => Output::Ptx,
            };
            LoadStage::Building {
                build: Build::Linking {
                    link: Link::new(ltoir, artifacts.ltoir.clone(), emitted, output),
                    cubin_path: None,
                },
            }
        },
    }
}

fn built(build: Build) -> (stage: LoadStage)
    ensures
        stage@ == after_build(build@),
{
    match build {
        Build::Done(Err(error)) => LoadStage::Done(Err(error)),
        Build::Done(Ok(Built::File(path))) => LoadStage::LoadFile { path },
        Build::Done(Ok(Built::Image(image))) => LoadStage::LoadImage { image },
        build => LoadStage::Building { build },
    }
}

fn driven(loaded: Result<(), String>) -> (stage: LoadStage)
    ensures
        stage@ == after_driver(plain_view(loaded)),
{
    match loaded {
        Ok(_) => LoadStage::Done(Ok(())),
        Err(why) => LoadStage::Done(Err(LtoirError::Driver(why))),
    }
}

impl Load {
    /// What the load waits for; nothing once it has ended.
    pub fn request(&self) -> (request: Option<Request<'_>>)
        ensures
            request is Some <==> self@.request() is Some,
            request matches Some(asked) ==> Some(asked@) == self@.request(),
    {
        match &self.stage {
            LoadStage::ProbeRecorded => Some(
                Request::TryExists { path: self.artifacts.ir.target.as_str() },
            ),
            LoadStage::ProbePtx { .. } => Some(
                Request::Exists { path: self.artifacts.ptx.as_str() },
            ),
            LoadStage::ProbeIr { .. } => Some(
                Request::Exists { path: self.artifacts.ir.ll.as_str() },
            ),
            LoadStage::ProbeLtoir { .. } => Some(
                Request::Exists { path: self.artifacts.ltoir.as_str() },
            ),
            LoadStage::ProbeCubin { .. } => Some(
                Request::Exists { path: self.artifacts.cubin.as_str() },
            ),
            LoadStage::FindTarget { lookup, .. } => lookup.request(),
            LoadStage::Capability { .. } => Some(Request::ComputeCapability),
            LoadStage::ParseExecution { text, .. } => Some(
                Request::ParseTarget { text: text.as_str() },
            ),
            LoadStage::ReadIr { .. } => Some(
                Request::ReadFile { path: self.artifacts.ir.ll.as_str() },
            ),
            LoadStage::ReadLtoir { .. } => Some(
                Request::ReadFile { path: self.artifacts.ltoir.as_str() },
            ),
            LoadStage::Building { build } => build.request(),
            LoadStage::LoadFile { path } => Some(Request::LoadModuleFile { path: path.as_str() }),
            LoadStage::LoadImage { image } => Some(Request::LoadModuleImage { image }),
            LoadStage::Done(_) => None,
        }
    }

    /// Goes on with `reply`. A reply of the wrong kind changes nothing.
    pub fn resume(self, reply: Reply) -> (next: Load)
        ensures
            next@ == self@.resume(reply@),
    {
        let Load { artifacts, stage } = self;
        let next_stage = match (stage, reply) {
            (LoadStage::ProbeRecorded, Reply::Probed(probed)) => match probed {
                Ok(recorded) => LoadStage::ProbePtx { recorded },
                Err(source) => LoadStage::Done(
                    Err(LtoirError::Io { path: artifacts.ir.target.clone(), source }),
                ),
            },
            (LoadStage::ProbePtx { recorded }, Reply::Exists(ptx)) => {
                LoadStage::ProbeIr { recorded, ptx }
            },
            (LoadStage::ProbeIr { recorded, ptx }, Reply::Exists(nvvm_ir)) => {
                LoadStage::ProbeLtoir { recorded, ptx, nvvm_ir }
            },
            (LoadStage::ProbeLtoir { recorded, ptx, nvvm_ir }, Reply::Exists(ltoir)) => {
                LoadStage::ProbeCubin { recorded, ptx, nvvm_ir, ltoir }
            },
            (LoadStage::ProbeCubin { recorded, ptx, nvvm_ir, ltoir }, Reply::Exists(cubin)) => {
                opened(&artifacts, select_file_artifact(ptx, nvvm_ir, ltoir, cubin, recorded))
            },
            (LoadStage::FindTarget { artifact, lookup }, reply) => {
                looked_up(artifact, lookup.resume(reply))
            },
            (LoadStage::Capability { artifact, emitted }, Reply::Capability(told)) => match told {
                Ok((major, minor)) => LoadStage::ParseExecution {
                    artifact,
                    emitted,
                    text: execution_target_text(major, minor),
                },
                Err(why) => LoadStage::Done(Err(LtoirError::Driver(why))),
            },
            (LoadStage::ParseExecution { artifact, emitted, .. }, Reply::Target(parsed)) => {
                match accept_target(parsed) {
                    Ok(execution) => routed(&artifacts, artifact, emitted, execution),
                    Err(error) => LoadStage::Done(Err(error)),
                }
            },
            (LoadStage::ReadIr { emitted }, Reply::Bytes(read)) => match read {
                Ok(nvvm_ir) => LoadStage::Building {
                    build: build_ptx_from_nvvm_ir(
                        nvvm_ir,
                        artifacts.ir.ll.as_str(),
                        emitted.sm.as_str(),
                    ),
                },
                Err(source) => LoadStage::Done(
                    Err(LtoirError::Io { path: artifacts.ir.ll.clone(), source }),
                ),
            },
            (LoadStage::ReadLtoir { emitted, execution }, Reply::Bytes(read)) => match read {
                Ok(ltoir) => linked(&artifacts, ltoir, emitted, execution),
                Err(source) => LoadStage::Done(
                    Err(LtoirError::Io { path: artifacts.ltoir.clone(), source }),
                ),
            },
            (LoadStage::Building { build }, reply) => built(build.resume(reply)),
            (LoadStage::LoadFile { .. }, Reply::Finished(loaded)) => driven(loaded),
            (LoadStage::LoadImage { .. }, Reply::Finished(loaded)) => driven(loaded),
            (stage, _) => stage,
        };
        Load { artifacts, stage: next_stage }
    }
}

/// `artifacts` are those of the kernel `name` in `dir`.
pub open spec fn are_artifacts_of(
    dir: Seq<char>,
    name: Seq<char>,
    artifacts: ArtifactsView,
) -> bool {
    &&& artifacts.dir == dir
    &&& artifacts.name == name
    &&& is_artifact_path(dir, name, "ptx"@, artifacts.ptx)
    &&& is_artifact_path(dir, name, "cubin"@, artifacts.cubin)
    &&& is_artifact_path(dir, name, "ll"@, artifacts.ir.ll)
    &&& are_files_of(artifacts.ir.ll, artifacts.ir)
    &&& is_artifact_path(dir, name, "ltoir"@, artifacts.ltoir)
    &&& is_target_path(artifacts.ltoir, artifacts.ltoir_target)
}

/// Begins to load a kernel module by `name` from the directory `dir`, building
/// the cubin on demand if NVVM IR was emitted.
///
/// Lookup order:
///
/// 1. A target-recorded `<name>.ll` or `<name>.ltoir` -- `<name>.target`
///    identifies NVVM output and gives it precedence over older PTX.
/// 2. `<name>.ptx` -- the PTX path when no NVVM target file exists.
/// 3. An unrecorded `<name>.ll` / `<name>.ltoir` -- accepted only when
///    `CUDA_OXIDE_TARGET` explicitly supplies its original source target.
/// 4. `<name>.cubin` -- a standalone cubin when no source artifact exists.
///
/// If none of the four exist, the load ends in [`LtoirError::NoArtifact`].
///
/// The kernel's NVVM IR and its LTOIR have one record of their target.
pub fn load_kernel_module(dir: &str, name: &str) -> (load: Load)
    ensures
        load@.stage == LoadStageView::ProbeRecorded,
        are_artifacts_of(dir@, name@, load@.artifacts),
        has_one_record(dir@, name@) ==> load@.artifacts.ltoir_target == load@.artifacts.ir.target,
{
    // The paths of the NVVM IR and of the LTOIR are alike up to here.
    let front = artifact_path(dir, name, "l");
    let ll = front.clone().concat("l");
    let ltoir = front.clone().concat("toir");
    let ltoir_target = emitted_target_path(ltoir.as_str());
    let ir = IrFiles::new(ll.as_str());
    proof {
        reveal_strlit("l");
        reveal_strlit("ll");
        reveal_strlit("toir");
        reveal_strlit("ltoir");
        reveal_strlit(".");
        let file = file_name(name@, "l"@);
        assert(file + "l"@ =~= file_name(name@, "ll"@));
        assert(file + "toir"@ =~= file_name(name@, "ltoir"@));
        lemma_joined_longer(dir@, file, front@, "l"@);
        lemma_joined_longer(dir@, file, front@, "toir"@);
        if has_one_record(dir@, name@) {
            lemma_longer_can_join(dir@, name@, "l"@);
            lemma_one_record(dir@, name@, front@, ir@.target, ltoir_target@);
        }
    }
    Load {
        artifacts: Artifacts {
            name: String::from_str(name),
            dir: String::from_str(dir),
            ptx: artifact_path(dir, name, "ptx"),
            cubin: artifact_path(dir, name, "cubin"),
            ir,
            ltoir,
            ltoir_target,
        },
        stage: LoadStage::ProbeRecorded,
    }
}

} // verus!
