//! NVVM IR and libdevice to LTOIR, through libNVVM.

use vstd::prelude::*;
use crate::arch::{ArchView, CudaArch};
use crate::error::{ErrorView, LtoirError};
use crate::request::{Reply, ReplyView, Request, RequestView, texts};

verus! {

/// How far a compilation is. Each stage but the last waits for one reply.
#[derive(Debug)]
pub enum CompileStage {
    /// libdevice is being located.
    FindLibdevice,
    /// libdevice is being read.
    ReadLibdevice { path: String },
    /// libNVVM is being loaded.
    LoadNvvm { libdevice: Vec<u8> },
    /// libNVVM is being asked for its NVVM IR version.
    IrVersion { libdevice: Vec<u8> },
    /// libNVVM is being asked for its LLVM version.
    LlvmVersion { libdevice: Vec<u8> },
    /// The program is being created.
    NewProgram { libdevice: Vec<u8> },
    /// libdevice is being added to the program.
    AddLibdevice { libdevice: Vec<u8> },
    /// The NVVM IR is being added to the program.
    AddModule,
    /// The program is being verified.
    Verify,
    /// The program is being compiled.
    Compile,
    /// The LTOIR, or why there is none.
    Done(Result<Vec<u8>, LtoirError>),
}

/// The compilation of one NVVM IR module to LTOIR.
#[derive(Debug)]
pub struct Compile {
    pub nvvm_ir: Vec<u8>,
    pub module_name: String,
    pub arch: CudaArch,
    pub stage: CompileStage,
}

/// What a [`CompileStage`] holds, as mathematical values.
pub enum CompileStageView {
    FindLibdevice,
    ReadLibdevice { path: Seq<char> },
    LoadNvvm { libdevice: Seq<u8> },
    IrVersion { libdevice: Seq<u8> },
    LlvmVersion { libdevice: Seq<u8> },
    NewProgram { libdevice: Seq<u8> },
    AddLibdevice { libdevice: Seq<u8> },
    AddModule,
    Verify,
    Compile,
    Done(Result<Seq<u8>, ErrorView>),
}

/// What a [`Compile`] holds, as mathematical values.
pub struct CompileView {
    pub nvvm_ir: Seq<u8>,
    pub module_name: Seq<char>,
    pub arch: ArchView,
    pub stage: CompileStageView,
}

/// The view of a text, or of the error in its place.
pub open spec fn text_view(result: Result<String, LtoirError>) -> Result<Seq<char>, ErrorView> {
    match result {
        Ok(text) => Ok(text@),
        Err(error) => Err(error@),
    }
}

/// The view of bytes, or of the error in their place.
pub open spec fn bytes_view(result: Result<Vec<u8>, LtoirError>) -> Result<Seq<u8>, ErrorView> {
    match result {
        Ok(bytes) => Ok(bytes@),
        Err(error) => Err(error@),
    }
}

impl View for CompileStage {
    type V = CompileStageView;

    open spec fn view(&self) -> CompileStageView {
        match self {
            CompileStage::FindLibdevice => CompileStageView::FindLibdevice,
            CompileStage::ReadLibdevice { path } => {
                CompileStageView::ReadLibdevice { path: path@ }
            },
            CompileStage::LoadNvvm { libdevice } => {
                CompileStageView::LoadNvvm { libdevice: libdevice@ }
            },
            CompileStage::IrVersion { libdevice } => {
                CompileStageView::IrVersion { libdevice: libdevice@ }
            },
            CompileStage::LlvmVersion { libdevice } => {
                CompileStageView::LlvmVersion { libdevice: libdevice@ }
            },
            CompileStage::NewProgram { libdevice } => {
                CompileStageView::NewProgram { libdevice: libdevice@ }
            },
            CompileStage::AddLibdevice { libdevice } => {
                CompileStageView::AddLibdevice { libdevice: libdevice@ }
            },
            CompileStage::AddModule => CompileStageView::AddModule,
            CompileStage::Verify => CompileStageView::Verify,
            CompileStage::Compile => CompileStageView::Compile,
            CompileStage::Done(result) => CompileStageView::Done(bytes_view(*result)),
        }
    }
}

impl View for Compile {
    type V = CompileView;

    open spec fn view(&self) -> CompileView {
        CompileView {
            nvvm_ir: self.nvvm_ir@,
            module_name: self.module_name@,
            arch: self.arch@,
            stage: self.stage@,
        }
    }
}

/// Where libdevice lies, given what came of the search.
pub open spec fn libdevice_path(found: Result<Seq<char>, Seq<char>>) -> Result<
    Seq<char>,
    ErrorView,
> {
    match found {
        Ok(path) => Ok(path),
        Err(tried) => Err(ErrorView::LibdeviceNotFound { tried }),
    }
}

/// Where `libdevice.10.bc` of the CUDA Toolkit lies, given what came of the
/// search: its path, or every path that was probed, joined by newlines.
pub fn find_libdevice(found: Result<String, String>) -> (path: Result<String, LtoirError>)
    ensures
        text_view(path) == libdevice_path(
            match found {
                Ok(path) => Ok(path@),
                Err(tried) => Err(tried@),
            },
        ),
        found matches Ok(there) ==> (path matches Ok(text) && text@ == there@),
        found matches Err(probed) ==> (path matches Err(LtoirError::LibdeviceNotFound { tried })
            && tried@ == probed@),
{
    match found {
        Ok(path) => Ok(path),
        Err(tried) => Err(LtoirError::LibdeviceNotFound { tried }),
    }
}

/// The toolkit accepts the NVVM IR that is emitted: version 2.0.
pub open spec fn accepts_ir(major: int, minor: int) -> bool {
    major == 2 && minor == 0
}

/// The LLVM that the toolkit reads agrees with the dialect that the target's
/// IR is written in. A toolkit that does not tell its LLVM version is trusted.
pub open spec fn dialect_agrees(arch: ArchView, llvm_major: Option<i32>) -> bool {
    match llvm_major {
        None => true,
        Some(llvm_major) => arch.legacy_llvm == (llvm_major == 7),
    }
}

/// The dialect that a target's IR is written in.
pub open spec fn expected_dialect(arch: ArchView) -> Seq<char> {
    if arch.legacy_llvm {
        "legacy LLVM 7"@
    } else {
        "modern opaque-pointer"@
    }
}

/// What is wrong with an NVVM IR version, if anything.
pub open spec fn ir_version_error(major: int, minor: int) -> Option<ErrorView> {
    if accepts_ir(major, minor) {
        None
    } else {
        Some(ErrorView::UnsupportedNvvmIrVersion { major, minor })
    }
}

/// What is wrong with the toolkit's LLVM version, if anything.
pub open spec fn dialect_error(arch: ArchView, llvm_major: Option<i32>) -> Option<ErrorView> {
    match llvm_major {
        Some(major) if !dialect_agrees(arch, llvm_major) => Some(
            ErrorView::DialectMismatch {
                target: arch.compute,
                llvm_major: major as int,
                expected: expected_dialect(arch),
            },
        ),
        _ => None,
    }
}

/// NVVM IR 2.0 is accepted and no other version.
pub proof fn law_only_ir_two_zero_is_accepted(major: int, minor: int)
    ensures
        ir_version_error(major, minor) is None <==> major == 2 && minor == 0,
        ir_version_error(major, minor) matches Some(error) ==> error == (
        ErrorView::UnsupportedNvvmIrVersion { major, minor }),
{
}

/// For every LLVM version that the toolkit tells, a target of the legacy
/// dialect is accepted if and only if that is 7, and a modern one if and only
/// if it is not. A toolkit that does not tell is trusted.
pub proof fn law_legacy_dialect_is_llvm_seven(arch: ArchView, llvm_major: i32)
    ensures
        dialect_error(arch, None) is None,
        arch.legacy_llvm ==> (dialect_error(arch, Some(llvm_major)) is None <==> llvm_major == 7),
        !arch.legacy_llvm ==> (dialect_error(arch, Some(llvm_major)) is None <==> llvm_major != 7),
        dialect_error(arch, Some(llvm_major)) matches Some(error) ==> {
            &&& error is DialectMismatch
            &&& error->target == arch.compute
            &&& error->llvm_major == llvm_major
            &&& arch.legacy_llvm ==> error->expected == "legacy LLVM 7"@
            &&& !arch.legacy_llvm ==> error->expected == "modern opaque-pointer"@
        },
{
}

/// The view of an error that there may be.
pub open spec fn optional_error(error: Option<LtoirError>) -> Option<ErrorView> {
    match error {
        Some(error) => Some(error@),
        None => None,
    }
}

/// Checks the NVVM IR version that libNVVM reports.
pub fn check_ir_version(major: i32, minor: i32) -> (error: Option<LtoirError>)
    ensures
        optional_error(error) == ir_version_error(major as int, minor as int),
        error is None <==> major == 2 && minor == 0,
        error matches Some(wrong) ==> (wrong matches LtoirError::UnsupportedNvvmIrVersion {
            major: told_major,
            minor: told_minor,
        } && told_major == major && told_minor == minor),
{
    if major != 2 || minor != 0 {
        Some(LtoirError::UnsupportedNvvmIrVersion { major, minor })
    } else {
        None
    }
}

/// Checks the LLVM version that libNVVM reports for `arch`.
pub fn check_dialect(arch: &CudaArch, llvm_major: Option<i32>) -> (error: Option<LtoirError>)
    ensures
        optional_error(error) == dialect_error(arch@, llvm_major),
        error is None <==> (llvm_major matches Some(major) ==> (arch.legacy_llvm <==> major == 7)),
        error matches Some(wrong) ==> {
            &&& wrong is DialectMismatch
            &&& wrong->target@ == arch.compute@
            &&& wrong->llvm_major == llvm_major->Some_0
            &&& wrong->expected@ == (if arch.legacy_llvm {
                "legacy LLVM 7"@
            } else {
                "modern opaque-pointer"@
            })
        },
{
    match llvm_major {
        None => None,
        Some(llvm_major) => {
            let mismatch = if arch.legacy_llvm {
                llvm_major != 7
            } else {
                llvm_major == 7
            };
            if mismatch {
                Some(
                    LtoirError::DialectMismatch {
                        target: arch.compute.clone(),
                        llvm_major,
                        expected: if arch.legacy_llvm {
                            "legacy LLVM 7"
                        } else {
                            "modern opaque-pointer"
                        },
                    },
                )
            } else {
                None
            }
        },
    }
}

/// The options with which libNVVM verifies a program for `arch`.
pub open spec fn verify_options(arch: ArchView) -> Seq<Seq<char>> {
    seq!["-arch="@ + arch.compute]
}

/// The options with which libNVVM compiles a program for `arch` to LTOIR.
pub open spec fn compile_options(arch: ArchView) -> Seq<Seq<char>> {
    seq!["-arch="@ + arch.compute, "-gen-lto"@]
}

fn arch_options(arch: &CudaArch) -> (options: Vec<String>)
    ensures
        texts(options@) == verify_options(arch@),
{
    let mut options: Vec<String> = Vec::new();
    options.push(String::from_str("-arch=").concat(arch.compute.as_str()));
    assert(texts(options@) =~= verify_options(arch@));
    options
}

fn lto_options(arch: &CudaArch) -> (options: Vec<String>)
    ensures
        texts(options@) == compile_options(arch@),
{
    let mut options: Vec<String> = Vec::new();
    options.push(String::from_str("-arch=").concat(arch.compute.as_str()));
    options.push(String::from_str("-gen-lto"));
    assert(texts(options@) =~= compile_options(arch@));
    options
}

impl CompileView {
    /// A compilation that has not begun.
    pub open spec fn start(nvvm_ir: Seq<u8>, module_name: Seq<char>, arch: ArchView) -> CompileView {
        CompileView { nvvm_ir, module_name, arch, stage: CompileStageView::FindLibdevice }
    }

    /// The same compilation at another stage.
    pub open spec fn at(self, stage: CompileStageView) -> CompileView {
        CompileView { stage, ..self }
    }

    /// The same compilation, ended by an error.
    pub open spec fn fail(self, error: ErrorView) -> CompileView {
        self.at(CompileStageView::Done(Err(error)))
    }

    /// What the compilation waits for.
    pub open spec fn request(self) -> Option<RequestView> {
        match self.stage {
            CompileStageView::FindLibdevice => Some(RequestView::FindLibdevice),
            CompileStageView::ReadLibdevice { path } => Some(RequestView::ReadFile { path }),
            CompileStageView::LoadNvvm { .. } => Some(RequestView::LoadNvvm),
            CompileStageView::IrVersion { .. } => Some(RequestView::IrVersion),
            CompileStageView::LlvmVersion { .. } => {
                Some(RequestView::LlvmVersion { arch: self.arch })
            },
            CompileStageView::NewProgram { .. } => Some(RequestView::NewProgram),
            CompileStageView::AddLibdevice { libdevice } => Some(
                RequestView::AddModule { contents: libdevice, name: "libdevice.10.bc"@ },
            ),
            CompileStageView::AddModule => Some(
                RequestView::AddModule { contents: self.nvvm_ir, name: self.module_name },
            ),
            CompileStageView::Verify => Some(
                RequestView::VerifyProgram { options: verify_options(self.arch) },
            ),
            CompileStageView::Compile => Some(
                RequestView::CompileProgram { options: compile_options(self.arch) },
            ),
            CompileStageView::Done(_) => None,
        }
    }

    /// The compilation after `reply`. A reply of the wrong kind changes nothing.
    pub open spec fn resume(self, reply: ReplyView) -> CompileView {
        match (self.stage, reply) {
            (CompileStageView::FindLibdevice, ReplyView::Libdevice(found)) => {
                match libdevice_path(found) {
                    Ok(path) => self.at(CompileStageView::ReadLibdevice { path }),
                    Err(error) => self.fail(error),
                }
            },
            (CompileStageView::ReadLibdevice { path }, ReplyView::Bytes(read)) => match read {
                Ok(libdevice) => self.at(CompileStageView::LoadNvvm { libdevice }),
                Err(source) => self.fail(ErrorView::Io { path, source }),
            },
            (CompileStageView::LoadNvvm { libdevice }, ReplyView::Finished(done)) => match done {
                Ok(_) => self.at(CompileStageView::IrVersion { libdevice }),
                Err(why) => self.fail(ErrorView::Nvvm(why)),
            },
            (CompileStageView::IrVersion { libdevice }, ReplyView::IrVersion(told)) => match told {
                Ok((major, minor)) => match ir_version_error(major as int, minor as int) {
                    None => self.at(CompileStageView::LlvmVersion { libdevice }),
                    Some(error) => self.fail(error),
                },
                Err(why) => self.fail(ErrorView::Nvvm(why)),
            },
            (CompileStageView::LlvmVersion { libdevice }, ReplyView::LlvmVersion(told)) => {
                match told {
                    Ok(llvm_major) => match dialect_error(self.arch, llvm_major) {
                        None => self.at(CompileStageView::NewProgram { libdevice }),
                        Some(error) => self.fail(error),
                    },
                    Err(why) => self.fail(ErrorView::Nvvm(why)),
                }
            },
            (CompileStageView::NewProgram { libdevice }, ReplyView::Finished(done)) => match done {
                Ok(_) => self.at(CompileStageView::AddLibdevice { libdevice }),
                Err(why) => self.fail(ErrorView::Nvvm(why)),
            },
            (CompileStageView::AddLibdevice { .. }, ReplyView::Finished(done)) => match done {
                Ok(_) => self.at(CompileStageView::AddModule),
                Err(why) => self.fail(ErrorView::Nvvm(why)),
            },
            (CompileStageView::AddModule, ReplyView::Finished(done)) => match done {
                Ok(_) => self.at(CompileStageView::Verify),
                Err(why) => self.fail(ErrorView::Nvvm(why)),
            },
            (CompileStageView::Verify, ReplyView::Finished(done)) => match done {
                Ok(_) => self.at(CompileStageView::Compile),
                Err(why) => self.fail(ErrorView::Nvvm(why)),
            },
            (CompileStageView::Compile, ReplyView::Bytes(compiled)) => match compiled {
                Ok(ltoir) => self.at(CompileStageView::Done(Ok(ltoir))),
                Err(why) => self.fail(ErrorView::Nvvm(why)),
            },
            _ => self,
        }
    }
}

impl Compile {
    /// Begins to compile `nvvm_ir` for `arch`. The module is known to libNVVM
    /// as `module_name`.
    pub fn new(nvvm_ir: Vec<u8>, module_name: String, arch: CudaArch) -> (compile: Compile)
        ensures
            compile@ == CompileView::start(nvvm_ir@, module_name@, arch@),
    {
        Compile { nvvm_ir, module_name, arch, stage: CompileStage::FindLibdevice }
    }

    /// What the compilation waits for; nothing once it has ended.
    pub fn request(&self) -> (request: Option<Request<'_>>)
        ensures
            request is Some <==> self@.request() is Some,
            request matches Some(asked) ==> Some(asked@) == self@.request(),
    {
        match &self.stage {
            CompileStage::FindLibdevice => Some(Request::FindLibdevice),
            CompileStage::ReadLibdevice { path } => Some(Request::ReadFile { path: path.as_str() }),
            CompileStage::LoadNvvm { .. } => Some(Request::LoadNvvm),
            CompileStage::IrVersion { .. } => Some(Request::IrVersion),
            CompileStage::LlvmVersion { .. } => Some(Request::LlvmVersion { arch: &self.arch }),
            CompileStage::NewProgram { .. } => Some(Request::NewProgram),
            CompileStage::AddLibdevice { libdevice } => Some(
                Request::AddModule { contents: libdevice, name: "libdevice.10.bc" },
            ),
            CompileStage::AddModule => Some(
                Request::AddModule { contents: &self.nvvm_ir, name: self.module_name.as_str() },
            ),
            CompileStage::Verify => Some(
                Request::VerifyProgram { options: arch_options(&self.arch) },
            ),
            CompileStage::Compile => Some(
                Request::CompileProgram { options: lto_options(&self.arch) },
            ),
            CompileStage::Done(_) => None,
        }
    }

    /// Goes on with `reply`. A reply of the wrong kind changes nothing.
    pub fn resume(self, reply: Reply) -> (next: Compile)
        ensures
            next@ == self@.resume(reply@),
    {
        let Compile { nvvm_ir, module_name, arch, stage } = self;
        let next_stage = match (stage, reply) {
            (CompileStage::FindLibdevice, Reply::Libdevice(found)) => match find_libdevice(found) {
                Ok(path) => CompileStage::ReadLibdevice { path },
                Err(error) => CompileStage::Done(Err(error)),
            },
            (CompileStage::ReadLibdevice { path }, Reply::Bytes(read)) => match read {
                Ok(libdevice) => CompileStage::LoadNvvm { libdevice },
                Err(source) => CompileStage::Done(Err(LtoirError::Io { path, source })),
            },
            (CompileStage::LoadNvvm { libdevice }, Reply::Finished(done)) => match done {
                Ok(_) => CompileStage::IrVersion { libdevice },
                Err(why) => CompileStage::Done(Err(LtoirError::Nvvm(why))),
            },
            (CompileStage::IrVersion { libdevice }, Reply::IrVersion(told)) => match told {
                Ok((major, minor)) => match check_ir_version(major, minor) {
                    None => CompileStage::LlvmVersion { libdevice },
                    Some(error) => CompileStage::Done(Err(error)),
                },
                Err(why) => CompileStage::Done(Err(LtoirError::Nvvm(why))),
            },
            (CompileStage::LlvmVersion { libdevice }, Reply::LlvmVersion(told)) => match told {
                Ok(llvm_major) => match check_dialect(&arch, llvm_major) {
                    None => CompileStage::NewProgram { libdevice },
                    Some(error) => CompileStage::Done(Err(error)),
                },
                Err(why) => CompileStage::Done(Err(LtoirError::Nvvm(why))),
            },
            (CompileStage::NewProgram { libdevice }, Reply::Finished(done)) => match done {
                Ok(_) => CompileStage::AddLibdevice { libdevice },
                Err(why) => CompileStage::Done(Err(LtoirError::Nvvm(why))),
            },
            (CompileStage::AddLibdevice { .. }, Reply::Finished(done)) => match done {
                Ok(_) => CompileStage::AddModule,
                Err(why) => CompileStage::Done(Err(LtoirError::Nvvm(why))),
            },
            (CompileStage::AddModule, Reply::Finished(done)) => match done {
                Ok(_) => CompileStage::Verify,
                Err(why) => CompileStage::Done(Err(LtoirError::Nvvm(why))),
            },
            (CompileStage::Verify, Reply::Finished(done)) => match done {
                Ok(_) => CompileStage::Compile,
                Err(why) => CompileStage::Done(Err(LtoirError::Nvvm(why))),
            },
            (CompileStage::Compile, Reply::Bytes(compiled)) => match compiled {
                Ok(ltoir) => CompileStage::Done(Ok(ltoir)),
                Err(why) => CompileStage::Done(Err(LtoirError::Nvvm(why))),
            },
            (stage, _) => stage,
        };
        Compile { nvvm_ir, module_name, arch, stage: next_stage }
    }
}

} // verus!
