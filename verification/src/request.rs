//! What a job asks of the outside, and what the outside answers.
//!
//! A job computes; it reads no file and calls no library. Whenever it needs
//! something of the file system, the CUDA toolkit or the CUDA driver, it names
//! a [`Request`] and waits for the [`Reply`].

use vstd::prelude::*;
use crate::arch::{ArchView, CudaArch};
use crate::text::optional_text;

verus! {

/// One piece of outside work.
pub enum Request<'a> {
    /// Parse `text` as a concrete CUDA target. Answered by [`Reply::Target`].
    ParseTarget { text: &'a str },
    /// Read an environment variable. Answered by [`Reply::Variable`].
    ReadVariable { name: &'a str },
    /// Ask whether a file exists, where failing to find out is an error.
    /// Answered by [`Reply::Probed`].
    TryExists { path: &'a str },
    /// Ask whether a file exists, where failing to find out means no.
    /// Answered by [`Reply::Exists`].
    Exists { path: &'a str },
    /// Read a whole file. Answered by [`Reply::Bytes`].
    ReadFile { path: &'a str },
    /// Read a text file that may be missing. Answered by [`Reply::Text`].
    ReadText { path: &'a str },
    /// Write a text file. Answered by [`Reply::Finished`].
    WriteText { path: &'a str, text: &'a str },
    /// Write a file. Answered by [`Reply::Finished`].
    WriteFile { path: &'a str, contents: &'a Vec<u8> },
    /// Locate `libdevice.10.bc`. Answered by [`Reply::Libdevice`].
    FindLibdevice,
    /// Load libNVVM. Answered by [`Reply::Finished`].
    LoadNvvm,
    /// Ask libNVVM for the NVVM IR version it accepts. Answered by
    /// [`Reply::IrVersion`].
    IrVersion,
    /// Ask libNVVM which LLVM it reads for a target. Answered by
    /// [`Reply::LlvmVersion`].
    LlvmVersion { arch: &'a CudaArch },
    /// Create a libNVVM program. Answered by [`Reply::Finished`].
    NewProgram,
    /// Add a module to the libNVVM program. Answered by [`Reply::Finished`].
    AddModule { contents: &'a Vec<u8>, name: &'a str },
    /// Verify the libNVVM program. Answered by [`Reply::Finished`].
    VerifyProgram { options: Vec<String> },
    /// Compile the libNVVM program. Answered by [`Reply::Bytes`].
    CompileProgram { options: Vec<String> },
    /// Load nvJitLink. Answered by [`Reply::Finished`].
    LoadNvJitLink,
    /// Create an nvJitLink linker. Answered by [`Reply::Finished`].
    NewLinker { options: Vec<String> },
    /// Add an LTOIR input to the linker. Answered by [`Reply::Finished`].
    AddLtoir { contents: &'a Vec<u8>, name: &'a str },
    /// Link to a cubin. Answered by [`Reply::Bytes`].
    FinishCubin,
    /// Link to PTX. Answered by [`Reply::Bytes`].
    FinishPtx,
    /// Ask the CUDA context for its GPU's compute capability. Answered by
    /// [`Reply::Capability`].
    ComputeCapability,
    /// Load a module into the CUDA context from a file. Answered by
    /// [`Reply::Finished`].
    LoadModuleFile { path: &'a str },
    /// Load a module into the CUDA context from memory. Answered by
    /// [`Reply::Finished`].
    LoadModuleImage { image: &'a Vec<u8> },
}

/// What a [`Request`] holds, as mathematical values.
pub enum RequestView {
    ParseTarget { text: Seq<char> },
    ReadVariable { name: Seq<char> },
    TryExists { path: Seq<char> },
    Exists { path: Seq<char> },
    ReadFile { path: Seq<char> },
    ReadText { path: Seq<char> },
    WriteText { path: Seq<char>, text: Seq<char> },
    WriteFile { path: Seq<char>, contents: Seq<u8> },
    FindLibdevice,
    LoadNvvm,
    IrVersion,
    LlvmVersion { arch: ArchView },
    NewProgram,
    AddModule { contents: Seq<u8>, name: Seq<char> },
    VerifyProgram { options: Seq<Seq<char>> },
    CompileProgram { options: Seq<Seq<char>> },
    LoadNvJitLink,
    NewLinker { options: Seq<Seq<char>> },
    AddLtoir { contents: Seq<u8>, name: Seq<char> },
    FinishCubin,
    FinishPtx,
    ComputeCapability,
    LoadModuleFile { path: Seq<char> },
    LoadModuleImage { image: Seq<u8> },
}

/// The texts of a list of strings.
pub open spec fn texts(strings: Seq<String>) -> Seq<Seq<char>> {
    Seq::new(strings.len(), |i: int| strings[i]@)
}

impl<'a> View for Request<'a> {
    type V = RequestView;

    open spec fn view(&self) -> RequestView {
        match self {
            Request::ParseTarget { text } => RequestView::ParseTarget { text: text@ },
            Request::ReadVariable { name } => RequestView::ReadVariable { name: name@ },
            Request::TryExists { path } => RequestView::TryExists { path: path@ },
            Request::Exists { path } => RequestView::Exists { path: path@ },
            Request::ReadFile { path } => RequestView::ReadFile { path: path@ },
            Request::ReadText { path } => RequestView::ReadText { path: path@ },
            Request::WriteText { path, text } => {
                RequestView::WriteText { path: path@, text: text@ }
            },
            Request::WriteFile { path, contents } => {
                RequestView::WriteFile { path: path@, contents: contents@ }
            },
            Request::FindLibdevice => RequestView::FindLibdevice,
            Request::LoadNvvm => RequestView::LoadNvvm,
            Request::IrVersion => RequestView::IrVersion,
            Request::LlvmVersion { arch } => RequestView::LlvmVersion { arch: arch@ },
            Request::NewProgram => RequestView::NewProgram,
            Request::AddModule { contents, name } => {
                RequestView::AddModule { contents: contents@, name: name@ }
            },
            Request::VerifyProgram { options } => {
                RequestView::VerifyProgram { options: texts(options@) }
            },
            Request::CompileProgram { options } => {
                RequestView::CompileProgram { options: texts(options@) }
            },
            Request::LoadNvJitLink => RequestView::LoadNvJitLink,
            Request::NewLinker { options } => RequestView::NewLinker { options: texts(options@) },
            Request::AddLtoir { contents, name } => {
                RequestView::AddLtoir { contents: contents@, name: name@ }
            },
            Request::FinishCubin => RequestView::FinishCubin,
            Request::FinishPtx => RequestView::FinishPtx,
            Request::ComputeCapability => RequestView::ComputeCapability,
            Request::LoadModuleFile { path } => RequestView::LoadModuleFile { path: path@ },
            Request::LoadModuleImage { image } => RequestView::LoadModuleImage { image: image@ },
        }
    }
}

/// What came of a piece of outside work. A failure is told by its text.
#[derive(Debug)]
pub enum Reply {
    /// The target, or what the parser says against the text.
    Target(Result<CudaArch, String>),
    /// The variable's value, if it is set to a text.
    Variable(Option<String>),
    /// Whether the file exists, or why that is not known.
    Probed(Result<bool, String>),
    /// Whether the file exists.
    Exists(bool),
    /// The bytes read or produced.
    Bytes(Result<Vec<u8>, String>),
    /// The text of the file; nothing if there is no such file.
    Text(Result<Option<String>, String>),
    /// The work is done.
    Finished(Result<(), String>),
    /// Where libdevice lies, or the paths that were probed.
    Libdevice(Result<String, String>),
    /// Major and minor version of the NVVM IR.
    IrVersion(Result<(i32, i32), String>),
    /// The LLVM major version, if the library can tell it.
    LlvmVersion(Result<Option<i32>, String>),
    /// Major and minor compute capability.
    Capability(Result<(i32, i32), String>),
}

/// What a [`Reply`] holds, as mathematical values.
pub enum ReplyView {
    Target(Result<ArchView, Seq<char>>),
    Variable(Option<Seq<char>>),
    Probed(Result<bool, Seq<char>>),
    Exists(bool),
    Bytes(Result<Seq<u8>, Seq<char>>),
    Text(Result<Option<Seq<char>>, Seq<char>>),
    Finished(Result<(), Seq<char>>),
    Libdevice(Result<Seq<char>, Seq<char>>),
    IrVersion(Result<(i32, i32), Seq<char>>),
    LlvmVersion(Result<Option<i32>, Seq<char>>),
    Capability(Result<(i32, i32), Seq<char>>),
}

/// The view of a parsed target.
pub open spec fn target_view(parsed: Result<CudaArch, String>) -> Result<ArchView, Seq<char>> {
    match parsed {
        Ok(arch) => Ok(arch@),
        Err(why) => Err(why@),
    }
}

/// A result whose value is its own view.
pub open spec fn plain_view<T>(result: Result<T, String>) -> Result<T, Seq<char>> {
    match result {
        Ok(value) => Ok(value),
        Err(why) => Err(why@),
    }
}

impl View for Reply {
    type V = ReplyView;

    open spec fn view(&self) -> ReplyView {
        match self {
            Reply::Target(parsed) => ReplyView::Target(target_view(*parsed)),
            Reply::Variable(value) => ReplyView::Variable(optional_text(*value)),
            Reply::Probed(result) => ReplyView::Probed(plain_view(*result)),
            Reply::Exists(exists) => ReplyView::Exists(*exists),
            Reply::Bytes(result) => ReplyView::Bytes(
                match result {
                    Ok(bytes) => Ok(bytes@),
                    Err(why) => Err(why@),
                },
            ),
            Reply::Text(result) => ReplyView::Text(
                match result {
                    Ok(text) => Ok(optional_text(*text)),
                    Err(why) => Err(why@),
                },
            ),
            Reply::Finished(result) => ReplyView::Finished(plain_view(*result)),
            Reply::Libdevice(result) => ReplyView::Libdevice(
                match result {
                    Ok(path) => Ok(path@),
                    Err(tried) => Err(tried@),
                },
            ),
            Reply::IrVersion(result) => ReplyView::IrVersion(plain_view(*result)),
            Reply::LlvmVersion(result) => ReplyView::LlvmVersion(plain_view(*result)),
            Reply::Capability(result) => ReplyView::Capability(plain_view(*result)),
        }
    }
}

/// `reply` is of the kind that answers `request`.
pub open spec fn is_answer(request: RequestView, reply: ReplyView) -> bool {
    match request {
        RequestView::ParseTarget { .. } => reply is Target,
        RequestView::ReadVariable { .. } => reply is Variable,
        RequestView::TryExists { .. } => reply is Probed,
        RequestView::Exists { .. } => reply is Exists,
        RequestView::ReadText { .. } => reply is Text,
        RequestView::ReadFile { .. } | RequestView::CompileProgram { .. }
        | RequestView::FinishCubin | RequestView::FinishPtx => reply is Bytes,
        RequestView::FindLibdevice => reply is Libdevice,
        RequestView::IrVersion => reply is IrVersion,
        RequestView::LlvmVersion { .. } => reply is LlvmVersion,
        RequestView::ComputeCapability => reply is Capability,
        _ => reply is Finished,
    }
}

/// Each request has one kind of answer, and the answers tell what the requests
/// ask: a target, a variable, whether a file exists, bytes, a text, versions,
/// a capability, or no more than that the work is done.
pub proof fn law_each_request_has_its_answer(request: RequestView, reply: ReplyView)
    requires
        is_answer(request, reply),
    ensures
        reply is Target <==> request is ParseTarget,
        reply is Variable <==> request is ReadVariable,
        reply is Probed <==> request is TryExists,
        reply is Exists <==> request is Exists,
        reply is Text <==> request is ReadText,
        reply is Bytes <==> request is ReadFile || request is CompileProgram
            || request is FinishCubin || request is FinishPtx,
        reply is Libdevice <==> request is FindLibdevice,
        reply is IrVersion <==> request is IrVersion,
        reply is LlvmVersion <==> request is LlvmVersion,
        reply is Capability <==> request is ComputeCapability,
        reply is Finished <==> request is WriteText || request is WriteFile || request is LoadNvvm
            || request is NewProgram || request is AddModule || request is VerifyProgram
            || request is LoadNvJitLink || request is NewLinker || request is AddLtoir
            || request is LoadModuleFile || request is LoadModuleImage,
{
}

} // verus!
