//! Failures while building or loading a module through the LTOIR pipeline.

use vstd::prelude::*;
use crate::text::{signed_decimal, signed_decimal_text};

verus! {

/// Failures while building or loading a module via the LTOIR pipeline.
#[derive(Debug, PartialEq, Eq)]
pub enum LtoirError {
    /// A target string was not a concrete CUDA architecture. Holds what the
    /// target parser said.
    InvalidTarget(String),
    /// NVVM IR/LTOIR was loaded without its original target architecture.
    TargetNotFound,
    /// The caller tried to compile target-specific NVVM IR for another target.
    TargetMismatch { ir_path: String, emitted: String, requested: String },
    /// An artifact is not compatible with the context's GPU.
    IncompatibleExecutionTarget {
        /// Architecture for which the NVVM IR or LTOIR was emitted.
        emitted: String,
        /// Numeric architecture reported by the CUDA context.
        execution: String,
        /// Why the artifact is incompatible.
        reason: &'static str,
    },
    /// The installed toolkit does not accept the NVVM IR version that is emitted.
    UnsupportedNvvmIrVersion { major: i32, minor: i32 },
    /// The toolkit's dialect disagrees with the one expected for the target.
    DialectMismatch { target: String, llvm_major: i32, expected: &'static str },
    /// libNVVM failed (load, symbol resolution, or compile call).
    Nvvm(String),
    /// nvJitLink failed (load, symbol resolution, or link call).
    NvJitLink(String),
    /// `libdevice.10.bc` could not be located. `tried` lists every path that
    /// was probed, in order, joined by newlines.
    LibdeviceNotFound { tried: String },
    /// Reading or writing one of the pipeline artifacts failed.
    Io {
        /// Path of the file that could not be read or written.
        path: String,
        /// What the file system said.
        source: String,
    },
    /// No supported artifact was found in the searched directory.
    NoArtifact {
        /// Kernel artifact stem that was looked up.
        name: String,
        /// Directory that was searched.
        dir: String,
    },
    /// A CUDA driver call failed.
    Driver(String),
}

/// What an [`LtoirError`] holds, as mathematical values.
pub enum ErrorView {
    InvalidTarget(Seq<char>),
    TargetNotFound,
    TargetMismatch { ir_path: Seq<char>, emitted: Seq<char>, requested: Seq<char> },
    IncompatibleExecutionTarget { emitted: Seq<char>, execution: Seq<char>, reason: Seq<char> },
    UnsupportedNvvmIrVersion { major: int, minor: int },
    DialectMismatch { target: Seq<char>, llvm_major: int, expected: Seq<char> },
    Nvvm(Seq<char>),
    NvJitLink(Seq<char>),
    LibdeviceNotFound { tried: Seq<char> },
    Io { path: Seq<char>, source: Seq<char> },
    NoArtifact { name: Seq<char>, dir: Seq<char> },
    Driver(Seq<char>),
}

impl View for LtoirError {
    type V = ErrorView;

    open spec fn view(&self) -> ErrorView {
        match self {
            LtoirError::InvalidTarget(source) => ErrorView::InvalidTarget(source@),
            LtoirError::TargetNotFound => ErrorView::TargetNotFound,
            LtoirError::TargetMismatch { ir_path, emitted, requested } => {
                ErrorView::TargetMismatch {
                    ir_path: ir_path@,
                    emitted: emitted@,
                    requested: requested@,
                }
            },
            LtoirError::IncompatibleExecutionTarget { emitted, execution, reason } => {
                ErrorView::IncompatibleExecutionTarget {
                    emitted: emitted@,
                    execution: execution@,
                    reason: reason@,
                }
            },
            LtoirError::UnsupportedNvvmIrVersion { major, minor } => {
                ErrorView::UnsupportedNvvmIrVersion { major: *major as int, minor: *minor as int }
            },
            LtoirError::DialectMismatch { target, llvm_major, expected } => {
                ErrorView::DialectMismatch {
                    target: target@,
                    llvm_major: *llvm_major as int,
                    expected: expected@,
                }
            },
            LtoirError::Nvvm(source) => ErrorView::Nvvm(source@),
            LtoirError::NvJitLink(source) => ErrorView::NvJitLink(source@),
            LtoirError::LibdeviceNotFound { tried } => {
                ErrorView::LibdeviceNotFound { tried: tried@ }
            },
            LtoirError::Io { path, source } => ErrorView::Io { path: path@, source: source@ },
            LtoirError::NoArtifact { name, dir } => {
                ErrorView::NoArtifact { name: name@, dir: dir@ }
            },
            LtoirError::Driver(source) => ErrorView::Driver(source@),
        }
    }
}

impl ErrorView {
    /// The text that is shown for the error.
    pub open spec fn text(self) -> Seq<char> {
        match self {
            ErrorView::InvalidTarget(source) => source,
            ErrorView::TargetNotFound => {
                "NVVM IR/LTOIR does not record its CUDA target. Keep the generated .target file, rebuild the artifact, or explicitly set CUDA_OXIDE_TARGET to its original target."@
            },
            ErrorView::TargetMismatch { ir_path, emitted, requested } => {
                "NVVM IR target mismatch: "@ + ir_path + " was emitted for "@ + emitted
                    + ", but the loader requested "@ + requested
            },
            ErrorView::IncompatibleExecutionTarget { emitted, execution, reason } => {
                "cannot execute CUDA artifact emitted for "@ + emitted + " on "@ + execution + ": "@
                    + reason
            },
            ErrorView::UnsupportedNvvmIrVersion { major, minor } => {
                "installed libNVVM accepts NVVM IR "@ + signed_decimal(major) + "."@
                    + signed_decimal(minor)
                    + ", but cuda-oxide emits NVVM IR 2.0"@
            },
            ErrorView::DialectMismatch { target, llvm_major, expected } => {
                "libNVVM reports LLVM "@ + signed_decimal(llvm_major) + " for "@
                    + target + ", which disagrees with cuda-oxide's expected "@ + expected
                    + " dialect"@
            },
            ErrorView::Nvvm(source) => "libnvvm: "@ + source,
            ErrorView::NvJitLink(source) => "nvJitLink: "@ + source,
            ErrorView::LibdeviceNotFound { tried } => {
                "Could not locate libdevice.10.bc. Set CUDA_OXIDE_LIBDEVICE, CUDA_TOOLKIT_PATH, or CUDA_HOME, or install the CUDA Toolkit. Tried:\n  "@
                    + tried
            },
            ErrorView::Io { path, source } => "Failed reading "@ + path + ": "@ + source,
            ErrorView::NoArtifact { name, dir } => {
                "Could not find any kernel artifact for "@ + name + " in "@ + dir + ". Looked for "@
                    + name + ".cubin, "@ + name + ".ptx, "@ + name + ".ll, "@ + name
                    + ".ltoir. Did `cargo oxide run` complete successfully?"@
            },
            ErrorView::Driver(source) => "CUDA driver: "@ + source,
        }
    }
}

/// What every error says, with the texts and numbers that it holds.
pub proof fn law_error_texts(a: Seq<char>, b: Seq<char>, c: Seq<char>, m: int, n: int)
    ensures
        ErrorView::InvalidTarget(a).text() == a,
        ErrorView::TargetNotFound.text()
            == "NVVM IR/LTOIR does not record its CUDA target. Keep the generated .target file, rebuild the artifact, or explicitly set CUDA_OXIDE_TARGET to its original target."@,
        (ErrorView::TargetMismatch { ir_path: a, emitted: b, requested: c }).text()
            == "NVVM IR target mismatch: "@ + a + " was emitted for "@ + b
            + ", but the loader requested "@ + c,
        (ErrorView::IncompatibleExecutionTarget { emitted: a, execution: b, reason: c }).text()
            == "cannot execute CUDA artifact emitted for "@ + a + " on "@ + b + ": "@ + c,
        (ErrorView::UnsupportedNvvmIrVersion { major: m, minor: n }).text()
            == "installed libNVVM accepts NVVM IR "@ + signed_decimal(m) + "."@ + signed_decimal(n)
            + ", but cuda-oxide emits NVVM IR 2.0"@,
        (ErrorView::DialectMismatch { target: a, llvm_major: m, expected: b }).text()
            == "libNVVM reports LLVM "@ + signed_decimal(m) + " for "@ + a
            + ", which disagrees with cuda-oxide's expected "@ + b + " dialect"@,
        ErrorView::Nvvm(a).text() == "libnvvm: "@ + a,
        ErrorView::NvJitLink(a).text() == "nvJitLink: "@ + a,
        (ErrorView::LibdeviceNotFound { tried: a }).text()
            == "Could not locate libdevice.10.bc. Set CUDA_OXIDE_LIBDEVICE, CUDA_TOOLKIT_PATH, or CUDA_HOME, or install the CUDA Toolkit. Tried:\n  "@
            + a,
        (ErrorView::Io { path: a, source: b }).text() == "Failed reading "@ + a + ": "@ + b,
        (ErrorView::NoArtifact { name: a, dir: b }).text()
            == "Could not find any kernel artifact for "@ + a + " in "@ + b + ". Looked for "@ + a
            + ".cubin, "@ + a + ".ptx, "@ + a + ".ll, "@ + a
            + ".ltoir. Did `cargo oxide run` complete successfully?"@,
        ErrorView::Driver(a).text() == "CUDA driver: "@ + a,
{
}

impl LtoirError {
    /// The text that is shown for the error.
    pub fn message(&self) -> (text: String)
        ensures
            text@ == self@.text(),
    {
        match self {
            LtoirError::InvalidTarget(source) => source.clone(),
            LtoirError::TargetNotFound => String::from_str(
                "NVVM IR/LTOIR does not record its CUDA target. Keep the generated .target file, rebuild the artifact, or explicitly set CUDA_OXIDE_TARGET to its original target.",
            ),
            LtoirError::TargetMismatch { ir_path, emitted, requested } => {
                String::from_str("NVVM IR target mismatch: ").concat(ir_path.as_str()).concat(
                    " was emitted for ",
                ).concat(emitted.as_str()).concat(", but the loader requested ").concat(
                    requested.as_str(),
                )
            },
            LtoirError::IncompatibleExecutionTarget { emitted, execution, reason } => {
                String::from_str("cannot execute CUDA artifact emitted for ").concat(
                    emitted.as_str(),
                ).concat(" on ").concat(execution.as_str()).concat(": ").concat(reason)
            },
            LtoirError::UnsupportedNvvmIrVersion { major, minor } => {
                let major_text = signed_decimal_text(*major);
                let minor_text = signed_decimal_text(*minor);
                String::from_str("installed libNVVM accepts NVVM IR ").concat(
                    major_text.as_str(),
                ).concat(".").concat(minor_text.as_str()).concat(
                    ", but cuda-oxide emits NVVM IR 2.0",
                )
            },
            LtoirError::DialectMismatch { target, llvm_major, expected } => {
                let major_text = signed_decimal_text(*llvm_major);
                String::from_str("libNVVM reports LLVM ").concat(major_text.as_str()).concat(
                    " for ",
                ).concat(target.as_str()).concat(
                    ", which disagrees with cuda-oxide's expected ",
                ).concat(expected).concat(" dialect")
            },
            LtoirError::Nvvm(source) => String::from_str("libnvvm: ").concat(source.as_str()),
            LtoirError::NvJitLink(source) => String::from_str("nvJitLink: ").concat(
                source.as_str(),
            ),
            LtoirError::LibdeviceNotFound { tried } => String::from_str(
                "Could not locate libdevice.10.bc. Set CUDA_OXIDE_LIBDEVICE, CUDA_TOOLKIT_PATH, or CUDA_HOME, or install the CUDA Toolkit. Tried:\n  ",
            ).concat(tried.as_str()),
            LtoirError::Io { path, source } => String::from_str("Failed reading ").concat(
                path.as_str(),
            ).concat(": ").concat(source.as_str()),
            LtoirError::NoArtifact { name, dir } => {
                String::from_str("Could not find any kernel artifact for ").concat(
                    name.as_str(),
                ).concat(" in ").concat(dir.as_str()).concat(". Looked for ").concat(
                    name.as_str(),
                ).concat(".cubin, ").concat(name.as_str()).concat(".ptx, ").concat(
                    name.as_str(),
                ).concat(".ll, ").concat(name.as_str()).concat(
                    ".ltoir. Did `cargo oxide run` complete successfully?",
                )
            },
            LtoirError::Driver(source) => String::from_str("CUDA driver: ").concat(
                source.as_str(),
            ),
        }
    }
}

} // verus!
