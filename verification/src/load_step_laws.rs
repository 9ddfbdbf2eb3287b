//! What loads ask for, one after the other, and for which target they link.

use vstd::prelude::*;
use crate::arch::ArchView;
use crate::error::ErrorView;
use crate::link::Output;
use crate::load::{ArtifactsView, LoadStageView, LoadView, NvvmArtifact};
use crate::pipeline::{BuildView, BuiltView, SourceView};
use crate::request::{ReplyView, RequestView};
use crate::target::{LookupStageView, LookupView};
use crate::text::signed_decimal;

verus! {

/// A load asks for the record of a target, for PTX, for NVVM IR, for LTOIR and
/// for a cubin. With a record, NVVM IR is taken if it is there, else LTOIR, else
/// nothing. Without one, PTX is taken if it is there, else NVVM IR, else LTOIR,
/// else the cubin. PTX and the cubin are loaded as they are; for NVVM output
/// its own record is looked up.
pub proof fn law_load_probes(
    artifacts: ArtifactsView,
    recorded: bool,
    ptx: bool,
    nvvm_ir: bool,
    ltoir: bool,
    cubin: bool,
    explicit: Option<Seq<char>>,
)
    ensures
        ({
            let l0 = LoadView { artifacts, stage: LoadStageView::ProbeRecorded };
            let l1 = l0.resume(ReplyView::Probed(Ok(recorded)));
            let l2 = l1.resume(ReplyView::Exists(ptx));
            let l3 = l2.resume(ReplyView::Exists(nvvm_ir));
            let l4 = l3.resume(ReplyView::Exists(ltoir));
            let l5 = l4.resume(ReplyView::Exists(cubin));
            let l6 = l5.resume(ReplyView::Variable(explicit));
            &&& l0.request() == Some(RequestView::TryExists { path: artifacts.ir.target })
            &&& l1.request() == Some(RequestView::Exists { path: artifacts.ptx })
            &&& l2.request() == Some(RequestView::Exists { path: artifacts.ir.ll })
            &&& l3.request() == Some(RequestView::Exists { path: artifacts.ltoir })
            &&& l4.request() == Some(RequestView::Exists { path: artifacts.cubin })
            &&& l5.artifacts == artifacts
            &&& ptx && !recorded ==> l5.request() == Some(
                RequestView::LoadModuleFile { path: artifacts.ptx },
            )
            &&& nvvm_ir && (recorded || !ptx) ==> {
                &&& l5.request() == Some(RequestView::ReadVariable { name: "CUDA_OXIDE_TARGET"@ })
                &&& l6.request() == Some(RequestView::ReadText { path: artifacts.ir.target })
                &&& l6.stage is FindTarget
                &&& l6.stage->FindTarget_artifact == NvvmArtifact::Ir
            }
            &&& ltoir && !nvvm_ir && (recorded || !ptx) ==> {
                &&& l5.request() == Some(RequestView::ReadVariable { name: "CUDA_OXIDE_TARGET"@ })
                &&& l6.request() == Some(RequestView::ReadText { path: artifacts.ltoir_target })
                &&& l6.stage is FindTarget
                &&& l6.stage->FindTarget_artifact == NvvmArtifact::Ltoir
            }
            &&& cubin && !ptx && !nvvm_ir && !ltoir && !recorded ==> l5.request() == Some(
                RequestView::LoadModuleFile { path: artifacts.cubin },
            )
            &&& !nvvm_ir && !ltoir && (recorded || !ptx && !cubin) ==> l5.stage
                == LoadStageView::Done(
                Some(ErrorView::NoArtifact { name: artifacts.name, dir: artifacts.dir }),
            )
        }),
{
}

/// A load that looks up a target goes as the lookup goes. When that has ended,
/// the GPU is asked for its compute capability, and the text of its number is
/// parsed.
pub proof fn law_load_asks_for_gpu(
    artifacts: ArtifactsView,
    artifact: NvvmArtifact,
    lookup: LookupView,
    reply: ReplyView,
    major: i32,
    minor: i32,
)
    ensures
        ({
            let load = LoadView {
                artifacts,
                stage: LoadStageView::FindTarget { artifact, lookup },
            };
            let next = load.resume(reply);
            &&& load.request() == lookup.request()
            &&& next.artifacts == artifacts
            &&& match lookup.resume(reply).stage {
                LookupStageView::Done(Err(error)) => next.stage == LoadStageView::Done(Some(error)),
                LookupStageView::Done(Ok(emitted)) => {
                    let asked = next.resume(ReplyView::Capability(Ok((major, minor))));
                    &&& next.request() == Some(RequestView::ComputeCapability)
                    &&& asked.request() == Some(
                        RequestView::ParseTarget {
                            text: "sm_"@ + signed_decimal(major as int) + signed_decimal(
                                minor as int,
                            ),
                        },
                    )
                    &&& asked.stage is ParseExecution
                    &&& asked.stage->ParseExecution_artifact == artifact
                    &&& asked.stage->ParseExecution_emitted == emitted
                    &&& asked.artifacts == artifacts
                },
                _ => next.stage == (LoadStageView::FindTarget {
                    artifact,
                    lookup: lookup.resume(reply),
                }),
            }
        }),
{
}

/// NVVM IR is built for the target that it was emitted for, whatever the GPU
/// is: to a cubin on disk where the numbers are equal, to PTX in memory where
/// the target has no suffix, is of the LLVM 7 dialect and is older than a GPU
/// of number 100 or more. Otherwise it is refused.
pub proof fn law_ir_goes_its_route(
    artifacts: ArtifactsView,
    emitted: ArchView,
    text: Seq<char>,
    execution: ArchView,
    nvvm_ir: Seq<u8>,
)
    ensures
        ({
            let load = LoadView {
                artifacts,
                stage: LoadStageView::ParseExecution {
                    artifact: NvvmArtifact::Ir,
                    emitted,
                    text,
                },
            };
            let next = load.resume(ReplyView::Target(Ok(execution)));
            let bridges = emitted.capability < execution.capability && emitted.suffix is None
                && emitted.legacy_llvm && execution.capability >= 100;
            &&& next.artifacts == artifacts
            &&& emitted.capability == execution.capability ==> next.stage == (
            LoadStageView::Building {
                build: BuildView::ParseTarget {
                    text: emitted.sm,
                    source: SourceView::IrFile { files: artifacts.ir },
                },
            })
            &&& bridges ==> {
                &&& next.request() == Some(RequestView::ReadFile { path: artifacts.ir.ll })
                &&& next.resume(ReplyView::Bytes(Ok(nvvm_ir))) == (LoadView {
                    artifacts,
                    stage: LoadStageView::Building {
                        build: BuildView::ParseTarget {
                            text: emitted.sm,
                            source: SourceView::Ir {
                                nvvm_ir,
                                module_name: artifacts.ir.ll,
                                output: Output::Ptx,
                            },
                        },
                    },
                })
            }
            &&& emitted.capability != execution.capability && !bridges ==> {
                &&& next.stage matches LoadStageView::Done(
                    Some(
                        ErrorView::IncompatibleExecutionTarget {
                            emitted: from,
                            execution: to,
                            reason,
                        },
                    ),
                )
                &&& from == emitted.sm
                &&& to == execution.sm
                &&& reason == refusal(emitted, execution)
            }
        }),
{
}

/// Why NVVM output is refused.
pub open spec fn refusal(emitted: ArchView, execution: ArchView) -> Seq<char> {
    if emitted.suffix is Some {
        "targets with an architecture suffix, such as sm_90a, cannot be forwarded to a different GPU"@
    } else if emitted.capability > execution.capability {
        "an artifact built for a newer GPU cannot run on an older GPU"@
    } else {
        "only standard pre-Blackwell targets, such as sm_86, can be converted to PTX for Blackwell"@
    }
}

/// LTOIR is read and then linked, under its path, for the target that it was
/// emitted for, whatever the GPU is: to a cubin where the numbers are equal, to
/// PTX where the target has no suffix, is of the LLVM 7 dialect and is older
/// than a GPU of number 100 or more. Otherwise it is refused.
pub proof fn law_ltoir_goes_its_route(
    artifacts: ArtifactsView,
    emitted: ArchView,
    text: Seq<char>,
    execution: ArchView,
    ltoir: Seq<u8>,
)
    ensures
        ({
            let load = LoadView {
                artifacts,
                stage: LoadStageView::ParseExecution {
                    artifact: NvvmArtifact::Ltoir,
                    emitted,
                    text,
                },
            };
            let done = ReplyView::Finished(Ok(()));
            let next = load.resume(ReplyView::Target(Ok(execution)));
            let read = next.resume(ReplyView::Bytes(Ok(ltoir)));
            let loaded = read.resume(done);
            let created = loaded.resume(done);
            let added = created.resume(done);
            let native = emitted.capability == execution.capability;
            let bridges = emitted.capability < execution.capability && emitted.suffix is None
                && emitted.legacy_llvm && execution.capability >= 100;
            &&& next.request() == Some(RequestView::ReadFile { path: artifacts.ltoir })
            &&& native || bridges ==> {
                &&& read.request() == Some(RequestView::LoadNvJitLink)
                &&& created.request() == Some(
                    RequestView::AddLtoir { contents: ltoir, name: artifacts.ltoir },
                )
            }
            &&& native ==> {
                &&& loaded.request() == Some(
                    RequestView::NewLinker { options: seq!["-arch="@ + emitted.sm, "-lto"@] },
                )
                &&& added.request() == Some(RequestView::FinishCubin)
            }
            &&& bridges ==> {
                &&& loaded.request() == Some(
                    RequestView::NewLinker {
                        options: seq!["-arch="@ + emitted.sm, "-lto"@, "-ptx"@],
                    },
                )
                &&& added.request() == Some(RequestView::FinishPtx)
            }
            &&& !native && !bridges ==> read.stage == LoadStageView::Done(
                Some(
                    ErrorView::IncompatibleExecutionTarget {
                        emitted: emitted.sm,
                        execution: execution.sm,
                        reason: refusal(emitted, execution),
                    },
                ),
            )
        }),
{
}

/// A load that builds goes as the build goes. When that has ended, the driver
/// is asked to load the very file or image, and the load comes to what it says.
pub proof fn law_building_load_goes_on(
    artifacts: ArtifactsView,
    build: BuildView,
    reply: ReplyView,
    why: Seq<char>,
)
    ensures
        ({
            let load = LoadView { artifacts, stage: LoadStageView::Building { build } };
            let next = load.resume(reply);
            let loaded = next.resume(ReplyView::Finished(Ok(())));
            let failed = next.resume(ReplyView::Finished(Err(why)));
            &&& load.request() == build.request()
            &&& match build.resume(reply) {
                BuildView::Done(Err(error)) => next.stage == LoadStageView::Done(Some(error)),
                BuildView::Done(Ok(built)) => {
                    &&& next.request() == Some(
                        match built {
                            BuiltView::File(path) => RequestView::LoadModuleFile { path },
                            BuiltView::Image(image) => RequestView::LoadModuleImage { image },
                        },
                    )
                    &&& loaded.stage == LoadStageView::Done(None)
                    &&& failed.stage == LoadStageView::Done(Some(ErrorView::Driver(why)))
                },
                _ => next == (LoadView {
                    artifacts,
                    stage: LoadStageView::Building { build: build.resume(reply) },
                }),
            }
        }),
{
}

/// A failure ends a load, whatever it has come to. What went wrong is told by
/// what was asked for. What the driver loads is loaded.
pub proof fn law_failure_ends_load(load: LoadView, why: Seq<char>)
    ensures
        load.request() matches Some(RequestView::TryExists { path }) ==> load.resume(
            ReplyView::Probed(Err(why)),
        ).stage == LoadStageView::Done(Some(ErrorView::Io { path, source: why })),
        load.request() matches Some(RequestView::ReadText { path }) ==> load.resume(
            ReplyView::Text(Err(why)),
        ).stage == LoadStageView::Done(Some(ErrorView::Io { path, source: why })),
        load.request() matches Some(RequestView::ReadFile { path }) ==> load.resume(
            ReplyView::Bytes(Err(why)),
        ).stage == LoadStageView::Done(Some(ErrorView::Io { path, source: why })),
        load.request() matches Some(RequestView::ParseTarget { .. }) ==> load.resume(
            ReplyView::Target(Err(why)),
        ).stage == LoadStageView::Done(Some(ErrorView::InvalidTarget(why))),
        load.request() == Some(RequestView::ComputeCapability) ==> load.resume(
            ReplyView::Capability(Err(why)),
        ).stage == LoadStageView::Done(Some(ErrorView::Driver(why))),
        load.request() matches Some(request) ==> {
            request is LoadModuleFile || request is LoadModuleImage ==> {
                &&& load.resume(ReplyView::Finished(Err(why))).stage == LoadStageView::Done(
                    Some(ErrorView::Driver(why)),
                )
                &&& load.resume(ReplyView::Finished(Ok(()))).stage == LoadStageView::Done(None)
            }
        },
{
}

} // verus!
