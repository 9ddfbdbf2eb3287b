//! For which target an artifact was emitted.
//!
//! The target is recorded beside the artifact, in a `.target` file. An older
//! artifact without one needs an explicit target: the GPU at hand does not
//! reveal for which target existing IR was produced, and is never asked.

use vstd::prelude::*;
use crate::arch::{ArchView, CudaArch};
use crate::error::{ErrorView, LtoirError};
use crate::paths::{emitted_target_path, is_target_path};
use crate::request::{Reply, ReplyView, Request, RequestView, target_view};
use crate::text::{
    is_tight,
    law_trim_undoes_line_end,
    optional_text,
    signed_decimal,
    signed_decimal_text,
    trim,
    trimmed,
};

verus! {

/// The view of a target, or of the error in its place.
pub open spec fn arch_view(result: Result<CudaArch, LtoirError>) -> Result<ArchView, ErrorView> {
    match result {
        Ok(arch) => Ok(arch@),
        Err(error) => Err(error@),
    }
}

/// The target that parsing gives, or the error that it is none.
pub open spec fn parsed_target(parsed: Result<ArchView, Seq<char>>) -> Result<
    ArchView,
    ErrorView,
> {
    match parsed {
        Ok(arch) => Ok(arch),
        Err(why) => Err(ErrorView::InvalidTarget(why)),
    }
}

/// The target of an artifact: the recorded one, else the explicit one, if that
/// is a target.
pub open spec fn source_target(
    recorded: Option<ArchView>,
    explicit: Option<Result<ArchView, Seq<char>>>,
) -> Result<ArchView, ErrorView> {
    match (recorded, explicit) {
        (Some(arch), _) => Ok(arch),
        (None, Some(parsed)) => parsed_target(parsed),
        (None, None) => Err(ErrorView::TargetNotFound),
    }
}

/// The view of a target that there may be.
pub open spec fn optional_arch(arch: Option<CudaArch>) -> Option<ArchView> {
    match arch {
        Some(arch) => Some(arch@),
        None => None,
    }
}

/// The view of what parsing an explicit target gave, if there is one.
pub open spec fn optional_target(explicit: Option<Result<CudaArch, String>>) -> Option<
    Result<ArchView, Seq<char>>,
> {
    match explicit {
        Some(parsed) => Some(target_view(parsed)),
        None => None,
    }
}

/// Takes what parsing a target gave.
pub(crate) fn accept_target(parsed: Result<CudaArch, String>) -> (target: Result<
    CudaArch,
    LtoirError,
>)
    ensures
        arch_view(target) == parsed_target(target_view(parsed)),
{
    match parsed {
        Ok(arch) => Ok(arch),
        Err(why) => Err(LtoirError::InvalidTarget(why)),
    }
}

/// Resolve the original target from artifact metadata or an explicit value,
/// which is given by what parsing it gave. The execution GPU is not used to
/// infer the artifact's target.
pub fn resolve_source_target(
    recorded_target: Option<CudaArch>,
    explicit_target: Option<Result<CudaArch, String>>,
) -> (target: Result<CudaArch, LtoirError>)
    ensures
        arch_view(target) == source_target(
            optional_arch(recorded_target),
            optional_target(explicit_target),
        ),
        recorded_target matches Some(recorded) ==> (target matches Ok(arch) && arch@ == recorded@),
        recorded_target is None && explicit_target is None ==> target matches Err(
            LtoirError::TargetNotFound,
        ),
        recorded_target is None ==> (explicit_target matches Some(Ok(explicit)) ==> (
        target matches Ok(arch) && arch@ == explicit@)),
        recorded_target is None ==> (explicit_target matches Some(Err(why)) ==> (
        target matches Err(LtoirError::InvalidTarget(told)) && told@ == why@)),
{
    if let Some(target) = recorded_target {
        return Ok(target);
    }
    match explicit_target {
        None => Err(LtoirError::TargetNotFound),
        Some(parsed) => accept_target(parsed),
    }
}

/// A recorded target takes precedence over every explicit one, a valid one or
/// not.
pub proof fn law_recorded_target_wins(
    recorded: ArchView,
    explicit: Option<Result<ArchView, Seq<char>>>,
)
    ensures
        source_target(Some(recorded), explicit) == Ok::<ArchView, ErrorView>(recorded),
{
}

/// An artifact without a recorded target is refused unless an explicit target
/// is given; that target is then taken as it is.
pub proof fn law_unrecorded_needs_explicit(explicit: Option<Result<ArchView, Seq<char>>>)
    ensures
        source_target(None, explicit) == Err::<ArchView, ErrorView>(ErrorView::TargetNotFound)
            <==> explicit is None,
        source_target(None, explicit) matches Ok(arch) ==> explicit == Some(
            Ok::<ArchView, Seq<char>>(arch),
        ),
{
}

/// What the `.target` file of an artifact holds.
pub open spec fn sidecar_text(arch: ArchView) -> Seq<char> {
    arch.sm + "\n"@
}

/// What is written to the `.target` file of an artifact emitted for `target`.
pub fn artifact_target_sidecar(target: &CudaArch) -> (text: String)
    ensures
        text@ == sidecar_text(target@),
        text@ == target.sm@ + "\n"@,
{
    target.sm.clone().concat("\n")
}

/// The name of the target that a `.target` file holds.
pub fn recorded_target_text(contents: &str) -> (name: String)
    ensures
        name@ == trimmed(contents@),
{
    trim(contents)
}

/// The target that is read from a `.target` file is the one that was written,
/// by the name that nvJitLink knows it by.
pub proof fn law_sidecar_round_trip(arch: ArchView)
    requires
        is_tight(arch.sm),
    ensures
        trimmed(sidecar_text(arch)) == arch.sm,
{
    law_trim_undoes_line_end(arch.sm);
}

/// Only IR that was recorded for the very target that is requested may be
/// compiled for it: a difference in the names, the number, the suffix or the
/// dialect is refused, with the names of both.
pub proof fn law_only_the_recorded_target_is_built(
    ll_path: Seq<char>,
    emitted: ArchView,
    requested: ArchView,
)
    ensures
        sidecar_error(ll_path, None, requested) is None,
        sidecar_error(ll_path, Some(emitted), requested) is None <==> emitted.sm == requested.sm
            && emitted.compute == requested.compute && emitted.capability == requested.capability
            && emitted.suffix == requested.suffix && emitted.legacy_llvm == requested.legacy_llvm,
        sidecar_error(ll_path, Some(emitted), requested) matches Some(error) ==> error == (
        ErrorView::TargetMismatch {
            ir_path: ll_path,
            emitted: emitted.sm,
            requested: requested.sm,
        }),
{
}

/// What is wrong with compiling the IR at `ll_path` for `requested`, if
/// anything: a recorded target must be that same one.
pub open spec fn sidecar_error(
    ll_path: Seq<char>,
    emitted: Option<ArchView>,
    requested: ArchView,
) -> Option<ErrorView> {
    match emitted {
        Some(emitted) if emitted != requested => Some(
            ErrorView::TargetMismatch {
                ir_path: ll_path,
                emitted: emitted.sm,
                requested: requested.sm,
            },
        ),
        _ => None,
    }
}

/// The view of a check's result.
pub open spec fn check_view(result: Result<(), LtoirError>) -> Option<ErrorView> {
    match result {
        Ok(_) => None,
        Err(error) => Some(error@),
    }
}

/// Checks that the IR at `ll_path`, recorded as emitted for `emitted`, may be
/// compiled for `requested`.
pub fn validate_ir_target_sidecar(
    ll_path: &str,
    emitted: Option<&CudaArch>,
    requested: &CudaArch,
) -> (result: Result<(), LtoirError>)
    ensures
        check_view(result) == sidecar_error(
            ll_path@,
            match emitted {
                Some(arch) => Some(arch@),
                None => None,
            },
            requested@,
        ),
        result is Ok <==> (emitted matches Some(arch) ==> arch.sm@ == requested.sm@
            && arch.compute@ == requested.compute@ && arch.capability == requested.capability
            && arch.suffix == requested.suffix && arch.legacy_llvm == requested.legacy_llvm),
        result matches Err(error) ==> {
            &&& error is TargetMismatch
            &&& error->ir_path@ == ll_path@
            &&& error->TargetMismatch_emitted@ == emitted->Some_0.sm@
            &&& error->requested@ == requested.sm@
        },
{
    let emitted = match emitted {
        None => return Ok(()),
        Some(emitted) => emitted,
    };
    if !emitted.same_target(requested) {
        return Err(
            LtoirError::TargetMismatch {
                ir_path: String::from_str(ll_path),
                emitted: emitted.sm.clone(),
                requested: requested.sm.clone(),
            },
        );
    }
    Ok(())
}

/// The name of the target of a GPU with the compute capability
/// `major`.`minor`.
pub open spec fn execution_text(major: int, minor: int) -> Seq<char> {
    "sm_"@ + signed_decimal(major) + signed_decimal(minor)
}

/// The name of the target of a GPU with the compute capability
/// `major`.`minor`.
pub fn execution_target_text(major: i32, minor: i32) -> (text: String)
    ensures
        text@ == execution_text(major as int, minor as int),
        text@ == "sm_"@ + signed_decimal(major as int) + signed_decimal(minor as int),
{
    let major_text = signed_decimal_text(major);
    let minor_text = signed_decimal_text(minor);
    String::from_str("sm_").concat(major_text.as_str()).concat(minor_text.as_str())
}

/// How far a lookup is. Each stage but the last waits for one reply.
#[derive(Debug)]
pub enum LookupStage {
    /// The explicit target is being read.
    ReadVariable,
    /// The recorded target is being read.
    ReadRecorded { explicit: Option<String>, path: String },
    /// The recorded target is being parsed.
    ParseRecorded { text: String },
    /// The explicit target is being parsed.
    ParseExplicit { text: String },
    /// The target, or why there is none.
    Done(Result<CudaArch, LtoirError>),
}

/// The lookup of the target for which an artifact was emitted.
#[derive(Debug)]
pub struct TargetLookup {
    /// The file that may record the target, if there is an artifact.
    pub target_path: Option<String>,
    pub stage: LookupStage,
}

/// What a [`LookupStage`] holds, as mathematical values.
pub enum LookupStageView {
    ReadVariable,
    ReadRecorded { explicit: Option<Seq<char>>, path: Seq<char> },
    ParseRecorded { text: Seq<char> },
    ParseExplicit { text: Seq<char> },
    Done(Result<ArchView, ErrorView>),
}

/// What a [`TargetLookup`] holds, as mathematical values.
pub struct LookupView {
    pub target_path: Option<Seq<char>>,
    pub stage: LookupStageView,
}

impl View for LookupStage {
    type V = LookupStageView;

    open spec fn view(&self) -> LookupStageView {
        match self {
            LookupStage::ReadVariable => LookupStageView::ReadVariable,
            LookupStage::ReadRecorded { explicit, path } => {
                LookupStageView::ReadRecorded { explicit: optional_text(*explicit), path: path@ }
            },
            LookupStage::ParseRecorded { text } => LookupStageView::ParseRecorded { text: text@ },
            LookupStage::ParseExplicit { text } => LookupStageView::ParseExplicit { text: text@ },
            LookupStage::Done(result) => LookupStageView::Done(arch_view(*result)),
        }
    }
}

impl View for TargetLookup {
    type V = LookupView;

    open spec fn view(&self) -> LookupView {
        LookupView { target_path: optional_text(self.target_path), stage: self.stage@ }
    }
}

impl LookupView {
    /// A lookup that has not begun.
    pub open spec fn start(target_path: Option<Seq<char>>) -> LookupView {
        LookupView { target_path, stage: LookupStageView::ReadVariable }
    }

    /// The same lookup at another stage.
    pub open spec fn at(self, stage: LookupStageView) -> LookupView {
        LookupView { stage, ..self }
    }

    /// What the lookup waits for.
    pub open spec fn request(self) -> Option<RequestView> {
        match self.stage {
            LookupStageView::ReadVariable => Some(
                RequestView::ReadVariable { name: "CUDA_OXIDE_TARGET"@ },
            ),
            LookupStageView::ReadRecorded { path, .. } => Some(RequestView::ReadText { path }),
            LookupStageView::ParseRecorded { text } => Some(RequestView::ParseTarget { text }),
            LookupStageView::ParseExplicit { text } => Some(RequestView::ParseTarget { text }),
            LookupStageView::Done(_) => None,
        }
    }

    /// Where the lookup goes when no target is recorded.
    pub open spec fn unrecorded(explicit: Option<Seq<char>>) -> LookupStageView {
        match explicit {
            Some(text) => LookupStageView::ParseExplicit { text },
            None => LookupStageView::Done(source_target(None, None)),
        }
    }

    /// The lookup after `reply`. A reply of the wrong kind changes nothing.
    pub open spec fn resume(self, reply: ReplyView) -> LookupView {
        match (self.stage, reply) {
            (LookupStageView::ReadVariable, ReplyView::Variable(explicit)) => {
                match self.target_path {
                    Some(path) => self.at(LookupStageView::ReadRecorded { explicit, path }),
                    None => self.at(Self::unrecorded(explicit)),
                }
            },
            (LookupStageView::ReadRecorded { explicit, path }, ReplyView::Text(read)) => {
                match read {
                    Ok(Some(contents)) => self.at(
                        LookupStageView::ParseRecorded { text: trimmed(contents) },
                    ),
                    Ok(None) => self.at(Self::unrecorded(explicit)),
                    Err(source) => self.at(
                        LookupStageView::Done(Err(ErrorView::Io { path, source })),
                    ),
                }
            },
            (LookupStageView::ParseRecorded { .. }, ReplyView::Target(parsed)) => {
                self.at(LookupStageView::Done(parsed_target(parsed)))
            },
            (LookupStageView::ParseExplicit { .. }, ReplyView::Target(parsed)) => {
                self.at(LookupStageView::Done(source_target(None, Some(parsed))))
            },
            _ => self,
        }
    }
}

fn unrecorded_stage(explicit: Option<String>) -> (stage: LookupStage)
    ensures
        stage@ == LookupView::unrecorded(optional_text(explicit)),
{
    match explicit {
        Some(text) => LookupStage::ParseExplicit { text },
        None => LookupStage::Done(resolve_source_target(None, None)),
    }
}

impl TargetLookup {
    /// What the lookup waits for; nothing once it has ended.
    pub fn request(&self) -> (request: Option<Request<'_>>)
        ensures
            request is Some <==> self@.request() is Some,
            request matches Some(asked) ==> Some(asked@) == self@.request(),
    {
        match &self.stage {
            LookupStage::ReadVariable => Some(
                Request::ReadVariable { name: "CUDA_OXIDE_TARGET" },
            ),
            LookupStage::ReadRecorded { path, .. } => Some(
                Request::ReadText { path: path.as_str() },
            ),
            LookupStage::ParseRecorded { text } => Some(
                Request::ParseTarget { text: text.as_str() },
            ),
            LookupStage::ParseExplicit { text } => Some(
                Request::ParseTarget { text: text.as_str() },
            ),
            LookupStage::Done(_) => None,
        }
    }

    /// Goes on with `reply`. A reply of the wrong kind changes nothing.
    pub fn resume(self, reply: Reply) -> (next: TargetLookup)
        ensures
            next@ == self@.resume(reply@),
    {
        let TargetLookup { target_path, stage } = self;
        let next_stage = match (stage, reply) {
            (LookupStage::ReadVariable, Reply::Variable(explicit)) => match &target_path {
                Some(path) => LookupStage::ReadRecorded { explicit, path: path.clone() },
                None => unrecorded_stage(explicit),
            },
            (LookupStage::ReadRecorded { explicit, path }, Reply::Text(read)) => match read {
                Ok(Some(contents)) => LookupStage::ParseRecorded {
                    text: recorded_target_text(contents.as_str()),
                },
                Ok(None) => unrecorded_stage(explicit),
                Err(source) => LookupStage::Done(Err(LtoirError::Io { path, source })),
            },
            (LookupStage::ParseRecorded { .. }, Reply::Target(parsed)) => {
                LookupStage::Done(accept_target(parsed))
            },
            (LookupStage::ParseExplicit { .. }, Reply::Target(parsed)) => {
                LookupStage::Done(resolve_source_target(None, Some(parsed)))
            },
            (stage, _) => stage,
        };
        TargetLookup { target_path, stage: next_stage }
    }
}

/// Begins to read and validate an explicit source target from
/// `CUDA_OXIDE_TARGET`.
///
/// Artifact loaders prefer the target recorded with the artifact. Older
/// artifacts without a `.target` file require this explicit value.
pub fn target_arch() -> (lookup: TargetLookup)
    ensures
        lookup@ == LookupView::start(None),
{
    TargetLookup { target_path: None, stage: LookupStage::ReadVariable }
}

/// Begins to look up the target for which the artifact at `artifact_path` was
/// emitted.
pub fn target_arch_for_artifact(artifact_path: &str) -> (lookup: TargetLookup)
    ensures
        exists|target: Seq<char>|
            is_target_path(artifact_path@, target) && lookup@ == LookupView::start(
                Some(target),
            ),
{
    let target_path = emitted_target_path(artifact_path);
    let lookup = TargetLookup {
        target_path: Some(target_path),
        stage: LookupStage::ReadVariable,
    };
    assert(is_target_path(artifact_path@, target_path@));
    assert(lookup@ == LookupView::start(Some(target_path@)));
    lookup
}

} // verus!
