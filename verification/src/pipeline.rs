//! Builds a loadable image: NVVM IR and libdevice to LTOIR, LTOIR to a cubin or
//! to PTX.
//!
//! Every build starts from the source bytes. A correct cache would also need
//! the source contents and the versions of libNVVM, libdevice, and nvJitLink;
//! file timestamps and a target string are not enough.

use vstd::prelude::*;
use crate::arch::{ArchView, CudaArch};
use crate::compile::{Compile, CompileStage, CompileStageView, CompileView};
use crate::error::{ErrorView, LtoirError};
use crate::link::{Link, LinkStage, LinkStageView, LinkView, Output};
use crate::paths::{emitted_target_path, is_sibling, is_target_path, sibling_path};
use crate::request::{Reply, ReplyView, Request, RequestView};
use crate::target::{
    accept_target,
    artifact_target_sidecar,
    optional_arch,
    parsed_target,
    recorded_target_text,
    sidecar_error,
    sidecar_text,
    validate_ir_target_sidecar,
};
use crate::text::{optional_text, trimmed};

verus! {

/// The files of a build on disk, all next to the NVVM IR.
#[derive(Debug)]
pub struct IrFiles {
    /// The NVVM IR.
    pub ll: String,
    /// The record of its target.
    pub target: String,
    /// The LTOIR, kept for debugging.
    pub ltoir: String,
    /// The cubin.
    pub cubin: String,
}

/// What a build starts from.
#[derive(Debug)]
pub enum Source {
    /// NVVM IR in a file, to a cubin in a file.
    IrFile { files: IrFiles },
    /// NVVM IR in memory.
    Ir { nvvm_ir: Vec<u8>, module_name: String, output: Output },
    /// LTOIR in memory.
    Ltoir { ltoir: Vec<u8>, module_name: String, output: Output },
}

/// Where the LTOIR of a compilation goes.
#[derive(Debug)]
pub enum Destination {
    /// To a file, and from there to a cubin in a file.
    Files { files: IrFiles },
    /// To the linker.
    Memory { ltoir_name: String, output: Output },
}

/// What a build gives.
#[derive(Debug, PartialEq, Eq)]
pub enum Built {
    /// The path of the cubin.
    File(String),
    /// The image itself.
    Image(Vec<u8>),
}

/// How far a build is. Each stage but the last waits for one reply.
#[derive(Debug)]
pub enum Build {
    /// The requested target is being parsed.
    ParseTarget { text: String, source: Source },
    /// The NVVM IR is being read.
    ReadIr { files: IrFiles, arch: CudaArch },
    /// The record of its target is being read.
    ReadRecorded { files: IrFiles, arch: CudaArch, nvvm_ir: Vec<u8> },
    /// The recorded target is being parsed.
    ParseRecorded { files: IrFiles, arch: CudaArch, nvvm_ir: Vec<u8>, text: String },
    /// The target is being recorded.
    WriteTarget { files: IrFiles, arch: CudaArch, nvvm_ir: Vec<u8>, text: String },
    /// The NVVM IR is being compiled.
    Compiling { compile: Compile, destination: Destination },
    /// The LTOIR is being written.
    WriteLtoir { files: IrFiles, arch: CudaArch, ltoir: Vec<u8> },
    /// The LTOIR is being linked: to the path of a cubin, or to memory.
    Linking { link: Link, cubin_path: Option<String> },
    /// The cubin is being written.
    WriteCubin { path: String, cubin: Vec<u8> },
    /// What was built, or why nothing was.
    Done(Result<Built, LtoirError>),
}

/// What [`IrFiles`] hold, as mathematical values.
pub struct FilesView {
    pub ll: Seq<char>,
    pub target: Seq<char>,
    pub ltoir: Seq<char>,
    pub cubin: Seq<char>,
}

/// What a [`Source`] holds, as mathematical values.
pub enum SourceView {
    IrFile { files: FilesView },
    Ir { nvvm_ir: Seq<u8>, module_name: Seq<char>, output: Output },
    Ltoir { ltoir: Seq<u8>, module_name: Seq<char>, output: Output },
}

/// What a [`Destination`] holds, as mathematical values.
pub enum DestinationView {
    Files { files: FilesView },
    Memory { ltoir_name: Seq<char>, output: Output },
}

/// What a [`Built`] holds, as mathematical values.
pub enum BuiltView {
    File(Seq<char>),
    Image(Seq<u8>),
}

/// What a [`Build`] holds, as mathematical values.
pub enum BuildView {
    ParseTarget { text: Seq<char>, source: SourceView },
    ReadIr { files: FilesView, arch: ArchView },
    ReadRecorded { files: FilesView, arch: ArchView, nvvm_ir: Seq<u8> },
    ParseRecorded { files: FilesView, arch: ArchView, nvvm_ir: Seq<u8>, text: Seq<char> },
    WriteTarget { files: FilesView, arch: ArchView, nvvm_ir: Seq<u8>, text: Seq<char> },
    Compiling { compile: CompileView, destination: DestinationView },
    WriteLtoir { files: FilesView, arch: ArchView, ltoir: Seq<u8> },
    Linking { link: LinkView, cubin_path: Option<Seq<char>> },
    WriteCubin { path: Seq<char>, cubin: Seq<u8> },
    Done(Result<BuiltView, ErrorView>),
}

impl View for IrFiles {
    type V = FilesView;

    open spec fn view(&self) -> FilesView {
        FilesView {
            ll: self.ll@,
            target: self.target@,
            ltoir: self.ltoir@,
            cubin: self.cubin@,
        }
    }
}

impl View for Source {
    type V = SourceView;

    open spec fn view(&self) -> SourceView {
        match self {
            Source::IrFile { files } => SourceView::IrFile { files: files@ },
            Source::Ir { nvvm_ir, module_name, output } => SourceView::Ir {
                nvvm_ir: nvvm_ir@,
                module_name: module_name@,
                output: *output,
            },
            Source::Ltoir { ltoir, module_name, output } => SourceView::Ltoir {
                ltoir: ltoir@,
                module_name: module_name@,
                output: *output,
            },
        }
    }
}

impl View for Destination {
    type V = DestinationView;

    open spec fn view(&self) -> DestinationView {
        match self {
            Destination::Files { files } => DestinationView::Files { files: files@ },
            Destination::Memory { ltoir_name, output } => {
                DestinationView::Memory { ltoir_name: ltoir_name@, output: *output }
            },
        }
    }
}

impl View for Built {
    type V = BuiltView;

    open spec fn view(&self) -> BuiltView {
        match self {
            Built::File(path) => BuiltView::File(path@),
            Built::Image(image) => BuiltView::Image(image@),
        }
    }
}

/// The view of what was built, or of the error in its place.
pub open spec fn built_view(result: Result<Built, LtoirError>) -> Result<BuiltView, ErrorView> {
    match result {
        Ok(built) => Ok(built@),
        Err(error) => Err(error@),
    }
}

impl View for Build {
    type V = BuildView;

    open spec fn view(&self) -> BuildView {
        match self {
            Build::ParseTarget { text, source } => {
                BuildView::ParseTarget { text: text@, source: source@ }
            },
            Build::ReadIr { files, arch } => BuildView::ReadIr { files: files@, arch: arch@ },
            Build::ReadRecorded { files, arch, nvvm_ir } => BuildView::ReadRecorded {
                files: files@,
                arch: arch@,
                nvvm_ir: nvvm_ir@,
            },
            Build::ParseRecorded { files, arch, nvvm_ir, text } => BuildView::ParseRecorded {
                files: files@,
                arch: arch@,
                nvvm_ir: nvvm_ir@,
                text: text@,
            },
            Build::WriteTarget { files, arch, nvvm_ir, text } => BuildView::WriteTarget {
                files: files@,
                arch: arch@,
                nvvm_ir: nvvm_ir@,
                text: text@,
            },
            Build::Compiling { compile, destination } => {
                BuildView::Compiling { compile: compile@, destination: destination@ }
            },
            Build::WriteLtoir { files, arch, ltoir } => {
                BuildView::WriteLtoir { files: files@, arch: arch@, ltoir: ltoir@ }
            },
            Build::Linking { link, cubin_path } => BuildView::Linking {
                link: link@,
                cubin_path: optional_text(*cubin_path),
            },
            Build::WriteCubin { path, cubin } => {
                BuildView::WriteCubin { path: path@, cubin: cubin@ }
            },
            Build::Done(result) => BuildView::Done(built_view(*result)),
        }
    }
}

impl BuildView {
    /// A build ended by an error.
    pub open spec fn fail(error: ErrorView) -> BuildView {
        BuildView::Done(Err(error))
    }

    /// What becomes of `source`, whose target is `arch`.
    pub open spec fn begin(source: SourceView, arch: ArchView) -> BuildView {
        match source {
            SourceView::IrFile { files } => BuildView::ReadIr { files, arch },
            SourceView::Ir { nvvm_ir, module_name, output } => BuildView::Compiling {
                compile: CompileView::start(nvvm_ir, module_name, arch),
                destination: DestinationView::Memory {
                    ltoir_name: module_name + ".ltoir"@,
                    output,
                },
            },
            SourceView::Ltoir { ltoir, module_name, output } => BuildView::Linking {
                link: LinkView::start(ltoir, module_name, arch, output),
                cubin_path: None,
            },
        }
    }

    /// What becomes of NVVM IR read from a file, whose recorded target, if
    /// any, is `emitted`: unless that is another target than `arch`, `arch` is
    /// recorded next.
    pub open spec fn check_recorded(
        files: FilesView,
        arch: ArchView,
        nvvm_ir: Seq<u8>,
        emitted: Option<ArchView>,
    ) -> BuildView {
        match sidecar_error(files.ll, emitted, arch) {
            Some(error) => Self::fail(error),
            None => BuildView::WriteTarget { files, arch, nvvm_ir, text: sidecar_text(arch) },
        }
    }

    /// What becomes of a compilation: it goes on until it has ended, and its
    /// LTOIR then goes to its destination.
    pub open spec fn after_compile(compile: CompileView, destination: DestinationView) -> BuildView {
        match compile.stage {
            CompileStageView::Done(Err(error)) => Self::fail(error),
            CompileStageView::Done(Ok(ltoir)) => match destination {
                DestinationView::Files { files } => {
                    BuildView::WriteLtoir { files, arch: compile.arch, ltoir }
                },
                DestinationView::Memory { ltoir_name, output } => BuildView::Linking {
                    link: LinkView::start(ltoir, ltoir_name, compile.arch, output),
                    cubin_path: None,
                },
            },
            _ => BuildView::Compiling { compile, destination },
        }
    }

    /// What becomes of a link: it goes on until it has ended, and its image is
    /// then written, or handed out.
    pub open spec fn after_link(link: LinkView, cubin_path: Option<Seq<char>>) -> BuildView {
        match link.stage {
            LinkStageView::Done(Err(error)) => Self::fail(error),
            LinkStageView::Done(Ok(image)) => match cubin_path {
                Some(path) => BuildView::WriteCubin { path, cubin: image },
                None => BuildView::Done(Ok(BuiltView::Image(image))),
            },
            _ => BuildView::Linking { link, cubin_path },
        }
    }

    /// What the build waits for.
    pub open spec fn request(self) -> Option<RequestView> {
        match self {
            BuildView::ParseTarget { text, .. } => Some(RequestView::ParseTarget { text }),
            BuildView::ReadIr { files, .. } => Some(RequestView::ReadFile { path: files.ll }),
            BuildView::ReadRecorded { files, .. } => Some(
                RequestView::ReadText { path: files.target },
            ),
            BuildView::ParseRecorded { text, .. } => Some(RequestView::ParseTarget { text }),
            BuildView::WriteTarget { files, text, .. } => Some(
                RequestView::WriteText { path: files.target, text },
            ),
            BuildView::Compiling { compile, .. } => compile.request(),
            BuildView::WriteLtoir { files, ltoir, .. } => Some(
                RequestView::WriteFile { path: files.ltoir, contents: ltoir },
            ),
            BuildView::Linking { link, .. } => link.request(),
            BuildView::WriteCubin { path, cubin } => Some(
                RequestView::WriteFile { path, contents: cubin },
            ),
            BuildView::Done(_) => None,
        }
    }

    /// The build after `reply`. A reply of the wrong kind changes nothing.
    pub open spec fn resume(self, reply: ReplyView) -> BuildView {
        match (self, reply) {
            (BuildView::ParseTarget { source, .. }, ReplyView::Target(parsed)) => {
                match parsed_target(parsed) {
                    Ok(arch) => Self::begin(source, arch),
                    Err(error) => Self::fail(error),
                }
            },
            (BuildView::ReadIr { files, arch }, ReplyView::Bytes(read)) => match read {
                Ok(nvvm_ir) => BuildView::ReadRecorded { files, arch, nvvm_ir },
                Err(source) => Self::fail(ErrorView::Io { path: files.ll, source }),
            },
            (BuildView::ReadRecorded { files, arch, nvvm_ir }, ReplyView::Text(read)) => {
                match read {
                    Ok(Some(contents)) => BuildView::ParseRecorded {
                        files,
                        arch,
                        nvvm_ir,
                        text: trimmed(contents),
                    },
                    Ok(None) => Self::check_recorded(files, arch, nvvm_ir, None),
                    Err(source) => Self::fail(ErrorView::Io { path: files.target, source }),
                }
            },
            (
                BuildView::ParseRecorded { files, arch, nvvm_ir, .. },
                ReplyView::Target(parsed),
            ) => match parsed_target(parsed) {
                Ok(emitted) => Self::check_recorded(files, arch, nvvm_ir, Some(emitted)),
                Err(error) => Self::fail(error),
            },
            (
                BuildView::WriteTarget { files, arch, nvvm_ir, .. },
                ReplyView::Finished(done),
            ) => match done {
                Ok(_) => BuildView::Compiling {
                    compile: CompileView::start(nvvm_ir, files.ll, arch),
                    destination: DestinationView::Files { files },
                },
                Err(source) => Self::fail(ErrorView::Io { path: files.target, source }),
            },
            (BuildView::Compiling { compile, destination }, _) => {
                Self::after_compile(compile.resume(reply), destination)
            },
            (BuildView::WriteLtoir { files, arch, ltoir }, ReplyView::Finished(done)) => {
                match done {
                    Ok(_) => BuildView::Linking {
                        link: LinkView::start(ltoir, files.ltoir, arch, Output::Cubin),
                        cubin_path: Some(files.cubin),
                    },
                    Err(source) => Self::fail(ErrorView::Io { path: files.ltoir, source }),
                }
            },
            (BuildView::Linking { link, cubin_path }, _) => {
                Self::after_link(link.resume(reply), cubin_path)
            },
            (BuildView::WriteCubin { path, .. }, ReplyView::Finished(done)) => match done {
                Ok(_) => BuildView::Done(Ok(BuiltView::File(path))),
                Err(source) => Self::fail(ErrorView::Io { path, source }),
            },
            _ => self,
        }
    }
}

fn begin(source: Source, arch: CudaArch) -> (build: Build)
    ensures
        build@ == BuildView::begin(source@, arch@),
{
    match source {
        Source::IrFile { files } => Build::ReadIr { files, arch },
        Source::Ir { nvvm_ir, module_name, output } => {
            let ltoir_name = module_name.clone().concat(".ltoir");
            Build::Compiling {
                compile: Compile::new(nvvm_ir, module_name, arch),
                destination: Destination::Memory { ltoir_name, output },
            }
        },
        Source::Ltoir { ltoir, module_name, output } => Build::Linking {
            link: Link::new(ltoir, module_name, arch, output),
            cubin_path: None,
        },
    }
}

fn check_recorded(
    files: IrFiles,
    arch: CudaArch,
    nvvm_ir: Vec<u8>,
    emitted: Option<CudaArch>,
) -> (build: Build)
    ensures
        build@ == BuildView::check_recorded(
            files@,
            arch@,
            nvvm_ir@,
            optional_arch(emitted),
        ),
{
    match validate_ir_target_sidecar(files.ll.as_str(), emitted.as_ref(), &arch) {
        Err(error) => Build::Done(Err(error)),
        Ok(_) => {
            let text = artifact_target_sidecar(&arch);
            Build::WriteTarget { files, arch, nvvm_ir, text }
        },
    }
}

fn after_compile(compile: Compile, destination: Destination) -> (build: Build)
    ensures
        build@ == BuildView::after_compile(compile@, destination@),
{
    let Compile { nvvm_ir, module_name, arch, stage } = compile;
    match stage {
        CompileStage::Done(Err(error)) => Build::Done(Err(error)),
        CompileStage::Done(Ok(ltoir)) => match destination {
            Destination::Files { files } => Build::WriteLtoir { files, arch, ltoir },
            Destination::Memory { ltoir_name, output } => Build::Linking {
                link: Link::new(ltoir, ltoir_name, arch, output),
                cubin_path: None,
            },
        },
        stage => Build::Compiling {
            compile: Compile { nvvm_ir, module_name, arch, stage },
            destination,
        },
    }
}

fn after_link(link: Link, cubin_path: Option<String>) -> (build: Build)
    ensures
        build@ == BuildView::after_link(link@, optional_text(cubin_path)),
{
    let Link { ltoir, module_name, arch, output, stage } = link;
    match stage {
        LinkStage::Done(Err(error)) => Build::Done(Err(error)),
        LinkStage::Done(Ok(image)) => match cubin_path {
            Some(path) => Build::WriteCubin { path, cubin: image },
            None => Build::Done(Ok(Built::Image(image))),
        },
        stage => Build::Linking {
            link: Link { ltoir, module_name, arch, output, stage },
            cubin_path,
        },
    }
}

impl Build {
    /// What the build waits for; nothing once it has ended.
    pub fn request(&self) -> (request: Option<Request<'_>>)
        ensures
            request is Some <==> self@.request() is Some,
            request matches Some(asked) ==> Some(asked@) == self@.request(),
    {
        match self {
            Build::ParseTarget { text, .. } => Some(Request::ParseTarget { text: text.as_str() }),
            Build::ReadIr { files, .. } => Some(Request::ReadFile { path: files.ll.as_str() }),
            Build::ReadRecorded { files, .. } => Some(
                Request::ReadText { path: files.target.as_str() },
            ),
            Build::ParseRecorded { text, .. } => Some(Request::ParseTarget { text: text.as_str() }),
            Build::WriteTarget { files, text, .. } => Some(
                Request::WriteText { path: files.target.as_str(), text: text.as_str() },
            ),
            Build::Compiling { compile, .. } => compile.request(),
            Build::WriteLtoir { files, ltoir, .. } => Some(
                Request::WriteFile { path: files.ltoir.as_str(), contents: ltoir },
            ),
            Build::Linking { link, .. } => link.request(),
            Build::WriteCubin { path, cubin } => Some(
                Request::WriteFile { path: path.as_str(), contents: cubin },
            ),
            Build::Done(_) => None,
        }
    }

    /// Goes on with `reply`. A reply of the wrong kind changes nothing.
    pub fn resume(self, reply: Reply) -> (next: Build)
        ensures
            next@ == self@.resume(reply@),
    {
        match (self, reply) {
            (Build::ParseTarget { source, .. }, Reply::Target(parsed)) => {
                match accept_target(parsed) {
                    Ok(arch) => begin(source, arch),
                    Err(error) => Build::Done(Err(error)),
                }
            },
            (Build::ReadIr { files, arch }, Reply::Bytes(read)) => match read {
                Ok(nvvm_ir) => Build::ReadRecorded { files, arch, nvvm_ir },
                Err(source) => Build::Done(Err(LtoirError::Io { path: files.ll, source })),
            },
            (Build::ReadRecorded { files, arch, nvvm_ir }, Reply::Text(read)) => match read {
                Ok(Some(contents)) => Build::ParseRecorded {
                    files,
                    arch,
                    nvvm_ir,
                    text: recorded_target_text(contents.as_str()),
                },
                Ok(None) => check_recorded(files, arch, nvvm_ir, None),
                Err(source) => Build::Done(Err(LtoirError::Io { path: files.target, source })),
            },
            (Build::ParseRecorded { files, arch, nvvm_ir, .. }, Reply::Target(parsed)) => {
                match accept_target(parsed) {
                    Ok(emitted) => check_recorded(files, arch, nvvm_ir, Some(emitted)),
                    Err(error) => Build::Done(Err(error)),
                }
            },
            (Build::WriteTarget { files, arch, nvvm_ir, .. }, Reply::Finished(done)) => match done {
                Ok(_) => {
                    let module_name = files.ll.clone();
                    Build::Compiling {
                        compile: Compile::new(nvvm_ir, module_name, arch),
                        destination: Destination::Files { files },
                    }
                },
                Err(source) => Build::Done(Err(LtoirError::Io { path: files.target, source })),
            },
            (Build::Compiling { compile, destination }, reply) => {
                after_compile(compile.resume(reply), destination)
            },
            (Build::WriteLtoir { files, arch, ltoir }, Reply::Finished(done)) => match done {
                Ok(_) => Build::Linking {
                    link: Link::new(ltoir, files.ltoir, arch, Output::Cubin),
                    cubin_path: Some(files.cubin),
                },
                Err(source) => Build::Done(Err(LtoirError::Io { path: files.ltoir, source })),
            },
            (Build::Linking { link, cubin_path }, reply) => {
                after_link(link.resume(reply), cubin_path)
            },
            (Build::WriteCubin { path, .. }, Reply::Finished(done)) => match done {
                Ok(_) => Build::Done(Ok(Built::File(path))),
                Err(source) => Build::Done(Err(LtoirError::Io { path, source })),
            },
            (build, _) => build,
        }
    }
}

/// `files` are those of a build of the NVVM IR at `ll_path`.
pub open spec fn are_files_of(ll_path: Seq<char>, files: FilesView) -> bool {
    &&& files.ll == ll_path
    &&& is_target_path(ll_path, files.target)
    &&& is_sibling(ll_path, "ltoir"@, files.ltoir)
    &&& is_sibling(ll_path, "cubin"@, files.cubin)
}

impl IrFiles {
    /// The files of a build of the NVVM IR at `ll_path`.
    pub fn new(ll_path: &str) -> (files: IrFiles)
        ensures
            are_files_of(ll_path@, files@),
    {
        IrFiles {
            ll: String::from_str(ll_path),
            target: emitted_target_path(ll_path),
            ltoir: sibling_path(ll_path, "ltoir"),
            cubin: sibling_path(ll_path, "cubin"),
        }
    }

    /// A second value for the same files.
    pub fn duplicate(&self) -> (other: IrFiles)
        ensures
            other@ == self@,
    {
        IrFiles {
            ll: self.ll.clone(),
            target: self.target.clone(),
            ltoir: self.ltoir.clone(),
            cubin: self.cubin.clone(),
        }
    }
}

/// The build of the files' NVVM IR to a cubin, before it has begun.
pub open spec fn file_build(files: FilesView, arch: Seq<char>) -> BuildView {
    BuildView::ParseTarget { text: arch, source: SourceView::IrFile { files } }
}

/// Begins to compile NVVM IR at `ll_path` to a cubin, which lies next to it as
/// `<stem>.cubin`.
///
/// `arch` must be a concrete `sm_XX` or `compute_XX` CUDA target. The source is
/// read before target metadata or derived artifacts are written. The supplied
/// target is recorded for older or manually created `.ll` files, and the LTOIR
/// is written as `<stem>.ltoir`, which can then be loaded after the `.ll` is
/// removed.
pub fn build_cubin_from_ll(ll_path: &str, arch: &str) -> (build: Build)
    ensures
        exists|files: FilesView|
            are_files_of(ll_path@, files) && build@ == file_build(files, arch@),
{
    let files = IrFiles::new(ll_path);
    let build = Build::ParseTarget {
        text: String::from_str(arch),
        source: Source::IrFile { files },
    };
    assert(build@ == file_build(files@, arch@));
    build
}

/// Begins to compile NVVM IR bytes to a loadable cubin image in memory.
///
/// This is the embedded-artifact counterpart of [`build_cubin_from_ll`]: no
/// file is created.
pub fn build_cubin_from_nvvm_ir(nvvm_ir: Vec<u8>, module_name: &str, arch: &str) -> (build: Build)
    ensures
        build@ == (BuildView::ParseTarget {
            text: arch@,
            source: SourceView::Ir {
                nvvm_ir: nvvm_ir@,
                module_name: module_name@,
                output: Output::Cubin,
            },
        }),
{
    Build::ParseTarget {
        text: String::from_str(arch),
        source: Source::Ir {
            nvvm_ir,
            module_name: String::from_str(module_name),
            output: Output::Cubin,
        },
    }
}

/// Begins to compile NVVM IR bytes to forward-compatible PTX.
///
/// `arch` is the architecture for which the IR was emitted, not the GPU on
/// which it will execute.
pub fn build_ptx_from_nvvm_ir(nvvm_ir: Vec<u8>, module_name: &str, arch: &str) -> (build: Build)
    ensures
        build@ == (BuildView::ParseTarget {
            text: arch@,
            source: SourceView::Ir {
                nvvm_ir: nvvm_ir@,
                module_name: module_name@,
                output: Output::Ptx,
            },
        }),
{
    Build::ParseTarget {
        text: String::from_str(arch),
        source: Source::Ir {
            nvvm_ir,
            module_name: String::from_str(module_name),
            output: Output::Ptx,
        },
    }
}

/// Begins to link a single LTOIR payload to a loadable cubin image in memory.
pub fn link_ltoir_to_cubin(ltoir: Vec<u8>, module_name: &str, arch: &str) -> (build: Build)
    ensures
        build@ == (BuildView::ParseTarget {
            text: arch@,
            source: SourceView::Ltoir {
                ltoir: ltoir@,
                module_name: module_name@,
                output: Output::Cubin,
            },
        }),
{
    Build::ParseTarget {
        text: String::from_str(arch),
        source: Source::Ltoir {
            ltoir,
            module_name: String::from_str(module_name),
            output: Output::Cubin,
        },
    }
}

/// Begins to link one LTOIR payload to forward-compatible PTX.
///
/// `arch` must be the target recorded with the LTOIR payload. The PTX keeps
/// that target and is JIT-compiled by the CUDA driver for the current GPU.
pub fn link_ltoir_to_ptx(ltoir: Vec<u8>, module_name: &str, arch: &str) -> (build: Build)
    ensures
        build@ == (BuildView::ParseTarget {
            text: arch@,
            source: SourceView::Ltoir {
                ltoir: ltoir@,
                module_name: module_name@,
                output: Output::Ptx,
            },
        }),
{
    Build::ParseTarget {
        text: String::from_str(arch),
        source: Source::Ltoir {
            ltoir,
            module_name: String::from_str(module_name),
            output: Output::Ptx,
        },
    }
}

} // verus!
