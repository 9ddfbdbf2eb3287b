//! What lookups, compilations, links and builds ask for, one after the other,
//! and what an answer that is a failure makes of them.

use vstd::prelude::*;
use crate::arch::ArchView;
use crate::compile::{CompileStageView, CompileView};
use crate::error::ErrorView;
use crate::link::{LinkStageView, LinkView, Output};
use crate::pipeline::{BuildView, BuiltView, DestinationView, file_build, FilesView, SourceView};
use crate::request::{is_answer, ReplyView, RequestView};
use crate::target::{LookupStageView, LookupView};
use crate::text::trimmed;

verus! {

/// A lookup reads the explicit target, then the record, if there is an
/// artifact. A record that is there decides; only without one is the explicit
/// target parsed, and without either no target is found.
pub proof fn law_lookup_steps(
    path: Seq<char>,
    explicit: Option<Seq<char>>,
    contents: Seq<char>,
    arch: ArchView,
)
    ensures
        ({
            let start = LookupView::start(Some(path));
            let read = start.resume(ReplyView::Variable(explicit));
            let recorded = read.resume(ReplyView::Text(Ok(Some(contents))));
            let unrecorded = read.resume(ReplyView::Text(Ok(None)));
            let alone = LookupView::start(None).resume(ReplyView::Variable(explicit));
            &&& start.request() == Some(
                RequestView::ReadVariable { name: "CUDA_OXIDE_TARGET"@ },
            )
            &&& LookupView::start(None).request() == start.request()
            &&& read.request() == Some(RequestView::ReadText { path })
            &&& recorded.request() == Some(RequestView::ParseTarget { text: trimmed(contents) })
            &&& recorded.resume(ReplyView::Target(Ok(arch))).stage == LookupStageView::Done(
                Ok(arch),
            )
            &&& alone.stage == unrecorded.stage
            &&& explicit is None ==> unrecorded.stage == LookupStageView::Done(
                Err(ErrorView::TargetNotFound),
            )
            &&& explicit matches Some(text) ==> {
                &&& unrecorded.request() == Some(RequestView::ParseTarget { text })
                &&& unrecorded.resume(ReplyView::Target(Ok(arch))).stage == LookupStageView::Done(
                    Ok(arch),
                )
                &&& alone.resume(ReplyView::Target(Ok(arch))).stage == LookupStageView::Done(
                    Ok(arch),
                )
            }
        }),
{
}

/// A failure ends a lookup, whatever it has come to, with what was asked for
/// and what was said of it.
pub proof fn law_failure_ends_lookup(lookup: LookupView, why: Seq<char>)
    ensures
        lookup.request() is None <==> lookup.stage is Done,
        lookup.request() matches Some(RequestView::ParseTarget { .. }) ==> lookup.resume(
            ReplyView::Target(Err(why)),
        ).stage == LookupStageView::Done(Err(ErrorView::InvalidTarget(why))),
        lookup.request() matches Some(RequestView::ReadText { path }) ==> lookup.resume(
            ReplyView::Text(Err(why)),
        ).stage == LookupStageView::Done(Err(ErrorView::Io { path, source: why })),
{
}

/// A compilation finds and reads libdevice, loads libNVVM and asks for its
/// versions, adds libdevice and then the module, verifies for the target's
/// `compute` name and compiles with `-gen-lto` for the same.
pub proof fn law_compile_steps(
    nvvm_ir: Seq<u8>,
    module_name: Seq<char>,
    arch: ArchView,
    path: Seq<char>,
    libdevice: Seq<u8>,
    llvm_major: Option<i32>,
    ltoir: Seq<u8>,
)
    requires
        llvm_major matches Some(major) ==> (arch.legacy_llvm <==> major == 7),
    ensures
        ({
            let done = ReplyView::Finished(Ok(()));
            let c0 = CompileView::start(nvvm_ir, module_name, arch);
            let c1 = c0.resume(ReplyView::Libdevice(Ok(path)));
            let c2 = c1.resume(ReplyView::Bytes(Ok(libdevice)));
            let c3 = c2.resume(done);
            let c4 = c3.resume(ReplyView::IrVersion(Ok((2, 0))));
            let c5 = c4.resume(ReplyView::LlvmVersion(Ok(llvm_major)));
            let c6 = c5.resume(done);
            let c7 = c6.resume(done);
            let c8 = c7.resume(done);
            let c9 = c8.resume(done);
            let c10 = c9.resume(ReplyView::Bytes(Ok(ltoir)));
            &&& c0.request() == Some(RequestView::FindLibdevice)
            &&& c1.request() == Some(RequestView::ReadFile { path })
            &&& c2.request() == Some(RequestView::LoadNvvm)
            &&& c3.request() == Some(RequestView::IrVersion)
            &&& c4.request() == Some(RequestView::LlvmVersion { arch })
            &&& c5.request() == Some(RequestView::NewProgram)
            &&& c6.request() == Some(
                RequestView::AddModule { contents: libdevice, name: "libdevice.10.bc"@ },
            )
            &&& c7.request() == Some(
                RequestView::AddModule { contents: nvvm_ir, name: module_name },
            )
            &&& c8.request() == Some(
                RequestView::VerifyProgram { options: seq!["-arch="@ + arch.compute] },
            )
            &&& c9.request() == Some(
                RequestView::CompileProgram {
                    options: seq!["-arch="@ + arch.compute, "-gen-lto"@],
                },
            )
            &&& c10.stage == CompileStageView::Done(Ok(ltoir))
            &&& c10.arch == arch
        }),
{
}

/// A failure ends a compilation, whatever it has come to: an NVVM IR version
/// other than 2.0, an LLVM version that is 7 for a modern target or is not for
/// a legacy one, and whatever the outside fails at.
pub proof fn law_failure_ends_compile(
    compile: CompileView,
    why: Seq<char>,
    version: (i32, i32),
    llvm_major: i32,
)
    ensures
        compile.request() is None <==> compile.stage is Done,
        compile.request() == Some(RequestView::FindLibdevice) ==> compile.resume(
            ReplyView::Libdevice(Err(why)),
        ).stage == CompileStageView::Done(Err(ErrorView::LibdeviceNotFound { tried: why })),
        compile.request() matches Some(RequestView::ReadFile { path }) ==> compile.resume(
            ReplyView::Bytes(Err(why)),
        ).stage == CompileStageView::Done(Err(ErrorView::Io { path, source: why })),
        compile.request() matches Some(request) ==> (request is LoadNvvm || request is NewProgram
            || request is AddModule || request is VerifyProgram) ==> compile.resume(
            ReplyView::Finished(Err(why)),
        ).stage == CompileStageView::Done(Err(ErrorView::Nvvm(why))),
        compile.request() == Some(RequestView::IrVersion) ==> {
            &&& compile.resume(ReplyView::IrVersion(Err(why))).stage == CompileStageView::Done(
                Err(ErrorView::Nvvm(why)),
            )
            &&& !(version.0 == 2 && version.1 == 0) ==> compile.resume(
                ReplyView::IrVersion(Ok(version)),
            ).stage == CompileStageView::Done(
                Err(
                    ErrorView::UnsupportedNvvmIrVersion {
                        major: version.0 as int,
                        minor: version.1 as int,
                    },
                ),
            )
        },
        compile.request() matches Some(RequestView::LlvmVersion { arch }) ==> {
            &&& compile.resume(ReplyView::LlvmVersion(Err(why))).stage == CompileStageView::Done(
                Err(ErrorView::Nvvm(why)),
            )
            &&& arch.legacy_llvm && llvm_major != 7 ==> compile.resume(
                ReplyView::LlvmVersion(Ok(Some(llvm_major))),
            ).stage == CompileStageView::Done(
                Err(
                    ErrorView::DialectMismatch {
                        target: arch.compute,
                        llvm_major: llvm_major as int,
                        expected: "legacy LLVM 7"@,
                    },
                ),
            )
            &&& !arch.legacy_llvm && llvm_major == 7 ==> compile.resume(
                ReplyView::LlvmVersion(Ok(Some(llvm_major))),
            ).stage == CompileStageView::Done(
                Err(
                    ErrorView::DialectMismatch {
                        target: arch.compute,
                        llvm_major: llvm_major as int,
                        expected: "modern opaque-pointer"@,
                    },
                ),
            )
        },
        compile.request() matches Some(RequestView::CompileProgram { .. }) ==> compile.resume(
            ReplyView::Bytes(Err(why)),
        ).stage == CompileStageView::Done(Err(ErrorView::Nvvm(why))),
{
}

/// A link loads nvJitLink, creates a linker for the target's `sm` name with
/// `-lto`, and with `-ptx` for PTX alone, adds the one payload and finishes.
pub proof fn law_link_steps(
    ltoir: Seq<u8>,
    module_name: Seq<char>,
    arch: ArchView,
    output: Output,
    image: Seq<u8>,
)
    ensures
        ({
            let done = ReplyView::Finished(Ok(()));
            let l0 = LinkView::start(ltoir, module_name, arch, output);
            let l1 = l0.resume(done);
            let l2 = l1.resume(done);
            let l3 = l2.resume(done);
            let l4 = l3.resume(ReplyView::Bytes(Ok(image)));
            &&& l0.request() == Some(RequestView::LoadNvJitLink)
            &&& output == Output::Cubin ==> l1.request() == Some(
                RequestView::NewLinker { options: seq!["-arch="@ + arch.sm, "-lto"@] },
            )
            &&& output == Output::Ptx ==> l1.request() == Some(
                RequestView::NewLinker { options: seq!["-arch="@ + arch.sm, "-lto"@, "-ptx"@] },
            )
            &&& l2.request() == Some(RequestView::AddLtoir { contents: ltoir, name: module_name })
            &&& output == Output::Cubin ==> l3.request() == Some(RequestView::FinishCubin)
            &&& output == Output::Ptx ==> l3.request() == Some(RequestView::FinishPtx)
            &&& l4.stage == LinkStageView::Done(Ok(image))
        }),
{
}

/// A failure ends a link, whatever it has come to.
pub proof fn law_failure_ends_link(link: LinkView, why: Seq<char>)
    ensures
        link.request() is None <==> link.stage is Done,
        link.request() matches Some(request) ==> {
            &&& request is LoadNvJitLink || request is NewLinker || request is AddLtoir
                ==> link.resume(ReplyView::Finished(Err(why))).stage == LinkStageView::Done(
                Err(ErrorView::NvJitLink(why)),
            )
            &&& request is FinishCubin || request is FinishPtx ==> link.resume(
                ReplyView::Bytes(Err(why)),
            ).stage == LinkStageView::Done(Err(ErrorView::NvJitLink(why)))
        },
{
}

/// A reply that is no answer changes neither a compilation nor a link, and
/// nothing changes one that has ended.
pub proof fn law_wrong_reply_keeps_compile_and_link(
    compile: CompileView,
    link: LinkView,
    reply: ReplyView,
)
    ensures
        !(compile.request() matches Some(request) && is_answer(request, reply)) ==> compile.resume(
            reply,
        ) == compile,
        !(link.request() matches Some(request) && is_answer(request, reply)) ==> link.resume(reply)
            == link,
{
}

/// A failure ends a build, whatever it has come to. What went wrong is told by
/// what was asked for: a target is invalid, a file cannot be read or written,
/// libNVVM or nvJitLink fails.
pub proof fn law_failure_ends_build(build: BuildView, why: Seq<char>)
    ensures
        build.request() matches Some(RequestView::ParseTarget { .. }) ==> build.resume(
            ReplyView::Target(Err(why)),
        ) == BuildView::Done(Err(ErrorView::InvalidTarget(why))),
        build.request() matches Some(RequestView::ReadFile { path }) ==> build.resume(
            ReplyView::Bytes(Err(why)),
        ) == BuildView::Done(Err(ErrorView::Io { path, source: why })),
        build.request() matches Some(RequestView::ReadText { path }) ==> build.resume(
            ReplyView::Text(Err(why)),
        ) == BuildView::Done(Err(ErrorView::Io { path, source: why })),
        build.request() matches Some(RequestView::WriteText { path, .. }) ==> build.resume(
            ReplyView::Finished(Err(why)),
        ) == BuildView::Done(Err(ErrorView::Io { path, source: why })),
        build.request() matches Some(RequestView::WriteFile { path, .. }) ==> build.resume(
            ReplyView::Finished(Err(why)),
        ) == BuildView::Done(Err(ErrorView::Io { path, source: why })),
        build.request() == Some(RequestView::FindLibdevice) ==> build.resume(
            ReplyView::Libdevice(Err(why)),
        ) == BuildView::Done(Err(ErrorView::LibdeviceNotFound { tried: why })),
        build.request() matches Some(request) ==> {
            &&& request is LoadNvvm || request is NewProgram || request is AddModule
                || request is VerifyProgram ==> build.resume(ReplyView::Finished(Err(why)))
                == BuildView::Done(Err(ErrorView::Nvvm(why)))
            &&& request is CompileProgram ==> build.resume(ReplyView::Bytes(Err(why)))
                == BuildView::Done(Err(ErrorView::Nvvm(why)))
            &&& request is IrVersion ==> build.resume(ReplyView::IrVersion(Err(why)))
                == BuildView::Done(Err(ErrorView::Nvvm(why)))
            &&& request is LlvmVersion ==> build.resume(ReplyView::LlvmVersion(Err(why)))
                == BuildView::Done(Err(ErrorView::Nvvm(why)))
            &&& request is LoadNvJitLink || request is NewLinker || request is AddLtoir
                ==> build.resume(ReplyView::Finished(Err(why))) == BuildView::Done(
                Err(ErrorView::NvJitLink(why)),
            )
            &&& request is FinishCubin || request is FinishPtx ==> build.resume(
                ReplyView::Bytes(Err(why)),
            ) == BuildView::Done(Err(ErrorView::NvJitLink(why)))
        },
{
}

/// A build of a file parses the target that is requested, reads the NVVM IR,
/// and reads the record of its target. A record of another target, different
/// in its names, its number, its suffix or its dialect, ends the build. One of
/// the same target, or none, lets the requested target be recorded.
pub proof fn law_file_build_begins(
    files: FilesView,
    text: Seq<char>,
    requested: ArchView,
    nvvm_ir: Seq<u8>,
    contents: Seq<char>,
    emitted: ArchView,
)
    ensures
        ({
            let b0 = file_build(files, text);
            let b1 = b0.resume(ReplyView::Target(Ok(requested)));
            let b2 = b1.resume(ReplyView::Bytes(Ok(nvvm_ir)));
            let unrecorded = b2.resume(ReplyView::Text(Ok(None)));
            let recorded = b2.resume(ReplyView::Text(Ok(Some(contents))));
            let parsed = recorded.resume(ReplyView::Target(Ok(emitted)));
            let same = emitted.sm == requested.sm && emitted.compute == requested.compute
                && emitted.capability == requested.capability && emitted.suffix == requested.suffix
                && emitted.legacy_llvm == requested.legacy_llvm;
            &&& b0.request() == Some(RequestView::ParseTarget { text })
            &&& b1.request() == Some(RequestView::ReadFile { path: files.ll })
            &&& b2.request() == Some(RequestView::ReadText { path: files.target })
            &&& recorded.request() == Some(RequestView::ParseTarget { text: trimmed(contents) })
            &&& same ==> parsed == unrecorded
            &&& !same ==> parsed == BuildView::Done(
                Err(
                    ErrorView::TargetMismatch {
                        ir_path: files.ll,
                        emitted: emitted.sm,
                        requested: requested.sm,
                    },
                ),
            )
            &&& unrecorded.request() == Some(
                RequestView::WriteText { path: files.target, text: requested.sm + "\n"@ },
            )
            &&& unrecorded.resume(ReplyView::Finished(Ok(()))) == (BuildView::Compiling {
                compile: CompileView {
                    nvvm_ir,
                    module_name: files.ll,
                    arch: requested,
                    stage: CompileStageView::FindLibdevice,
                },
                destination: DestinationView::Files { files },
            })
        }),
{
}

/// A build that compiles goes as the compilation goes. When that has ended, the
/// LTOIR is written if the build is one of a file, and linked under its path to
/// the cubin that is then written; in memory it is linked under the name and to
/// the output that are wanted.
pub proof fn law_compiling_build_goes_on(
    compile: CompileView,
    destination: DestinationView,
    reply: ReplyView,
)
    ensures
        ({
            let build = BuildView::Compiling { compile, destination };
            let next = build.resume(reply);
            &&& build.request() == compile.request()
            &&& match compile.resume(reply).stage {
                CompileStageView::Done(Err(error)) => next == BuildView::Done(Err(error)),
                CompileStageView::Done(Ok(ltoir)) => match destination {
                    DestinationView::Files { files } => {
                        &&& next.request() == Some(
                            RequestView::WriteFile { path: files.ltoir, contents: ltoir },
                        )
                        &&& next.resume(ReplyView::Finished(Ok(()))) == (BuildView::Linking {
                            link: LinkView {
                                ltoir,
                                module_name: files.ltoir,
                                arch: compile.arch,
                                output: Output::Cubin,
                                stage: LinkStageView::LoadNvJitLink,
                            },
                            cubin_path: Some(files.cubin),
                        })
                    },
                    DestinationView::Memory { ltoir_name, output } => next == (
                    BuildView::Linking {
                        link: LinkView {
                            ltoir,
                            module_name: ltoir_name,
                            arch: compile.arch,
                            output,
                            stage: LinkStageView::LoadNvJitLink,
                        },
                        cubin_path: None,
                    }),
                },
                _ => next == (BuildView::Compiling { compile: compile.resume(reply), destination }),
            }
        }),
{
}

/// A build that links goes as the link goes. When that has ended, the image is
/// written as the cubin, whose path the build then gives, or is given itself.
pub proof fn law_linking_build_goes_on(
    link: LinkView,
    cubin_path: Option<Seq<char>>,
    reply: ReplyView,
)
    ensures
        ({
            let build = BuildView::Linking { link, cubin_path };
            let next = build.resume(reply);
            &&& build.request() == link.request()
            &&& match link.resume(reply).stage {
                LinkStageView::Done(Err(error)) => next == BuildView::Done(Err(error)),
                LinkStageView::Done(Ok(image)) => match cubin_path {
                    Some(path) => {
                        &&& next.request() == Some(
                            RequestView::WriteFile { path, contents: image },
                        )
                        &&& next.resume(ReplyView::Finished(Ok(()))) == BuildView::Done(
                            Ok(BuiltView::File(path)),
                        )
                    },
                    None => next == BuildView::Done(Ok(BuiltView::Image(image))),
                },
                _ => next == (BuildView::Linking { link: link.resume(reply), cubin_path }),
            }
        }),
{
}

/// A build in memory parses its target and then compiles the very module, to
/// LTOIR that is named after it, or links the very payload, to the output that
/// is wanted.
pub proof fn law_memory_build_begins(
    text: Seq<char>,
    arch: ArchView,
    bytes: Seq<u8>,
    module_name: Seq<char>,
    output: Output,
)
    ensures
        ({
            let ir = BuildView::ParseTarget {
                text,
                source: SourceView::Ir { nvvm_ir: bytes, module_name, output },
            };
            let ltoir = BuildView::ParseTarget {
                text,
                source: SourceView::Ltoir { ltoir: bytes, module_name, output },
            };
            &&& ir.request() == Some(RequestView::ParseTarget { text })
            &&& ltoir.request() == Some(RequestView::ParseTarget { text })
            &&& ir.resume(ReplyView::Target(Ok(arch))) == (BuildView::Compiling {
                compile: CompileView {
                    nvvm_ir: bytes,
                    module_name,
                    arch,
                    stage: CompileStageView::FindLibdevice,
                },
                destination: DestinationView::Memory {
                    ltoir_name: module_name + ".ltoir"@,
                    output,
                },
            })
            &&& ltoir.resume(ReplyView::Target(Ok(arch))) == (BuildView::Linking {
                link: LinkView {
                    ltoir: bytes,
                    module_name,
                    arch,
                    output,
                    stage: LinkStageView::LoadNvJitLink,
                },
                cubin_path: None,
            })
        }),
{
}

} // verus!
