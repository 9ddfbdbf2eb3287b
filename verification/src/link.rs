//! LTOIR to a cubin or to PTX, through nvJitLink.

use vstd::prelude::*;
use crate::arch::{ArchView, CudaArch};
use crate::compile::bytes_view;
use crate::error::{ErrorView, LtoirError};
use crate::request::{Reply, ReplyView, Request, RequestView, texts};

verus! {

/// What LTOIR is linked to.
#[derive(Clone, Copy, Debug, PartialEq, Eq, Structural)]
pub enum Output {
    /// Native code for the architecture of the LTOIR.
    Cubin,
    /// PTX that keeps the architecture of the LTOIR; the driver compiles it
    /// for the GPU at hand.
    Ptx,
}

/// How far a link is. Each stage but the last waits for one reply.
#[derive(Debug)]
pub enum LinkStage {
    /// nvJitLink is being loaded.
    LoadNvJitLink,
    /// The linker is being created.
    NewLinker,
    /// The LTOIR is being added.
    AddLtoir,
    /// The output is being produced.
    Finish,
    /// The output, or why there is none.
    Done(Result<Vec<u8>, LtoirError>),
}

/// The link of one LTOIR payload.
#[derive(Debug)]
pub struct Link {
    pub ltoir: Vec<u8>,
    pub module_name: String,
    pub arch: CudaArch,
    pub output: Output,
    pub stage: LinkStage,
}

/// What a [`LinkStage`] holds, as mathematical values.
pub enum LinkStageView {
    LoadNvJitLink,
    NewLinker,
    AddLtoir,
    Finish,
    Done(Result<Seq<u8>, ErrorView>),
}

/// What a [`Link`] holds, as mathematical values.
pub struct LinkView {
    pub ltoir: Seq<u8>,
    pub module_name: Seq<char>,
    pub arch: ArchView,
    pub output: Output,
    pub stage: LinkStageView,
}

impl View for LinkStage {
    type V = LinkStageView;

    open spec fn view(&self) -> LinkStageView {
        match self {
            LinkStage::LoadNvJitLink => LinkStageView::LoadNvJitLink,
            LinkStage::NewLinker => LinkStageView::NewLinker,
            LinkStage::AddLtoir => LinkStageView::AddLtoir,
            LinkStage::Finish => LinkStageView::Finish,
            LinkStage::Done(result) => LinkStageView::Done(bytes_view(*result)),
        }
    }
}

impl View for Link {
    type V = LinkView;

    open spec fn view(&self) -> LinkView {
        LinkView {
            ltoir: self.ltoir@,
            module_name: self.module_name@,
            arch: self.arch@,
            output: self.output,
            stage: self.stage@,
        }
    }
}

/// The options with which nvJitLink links for `arch`.
pub open spec fn link_options(arch: ArchView, output: Output) -> Seq<Seq<char>> {
    match output {
        Output::Cubin => seq!["-arch="@ + arch.sm, "-lto"@],
        Output::Ptx => seq!["-arch="@ + arch.sm, "-lto"@, "-ptx"@],
    }
}

fn linker_options(arch: &CudaArch, output: Output) -> (options: Vec<String>)
    ensures
        texts(options@) == link_options(arch@, output),
{
    let mut options: Vec<String> = Vec::new();
    options.push(String::from_str("-arch=").concat(arch.sm.as_str()));
    options.push(String::from_str("-lto"));
    match output {
        Output::Cubin => {},
        Output::Ptx => {
            options.push(String::from_str("-ptx"));
        },
    }
    assert(texts(options@) =~= link_options(arch@, output));
    options
}

impl LinkView {
    /// A link that has not begun.
    pub open spec fn start(
        ltoir: Seq<u8>,
        module_name: Seq<char>,
        arch: ArchView,
        output: Output,
    ) -> LinkView {
        LinkView { ltoir, module_name, arch, output, stage: LinkStageView::LoadNvJitLink }
    }

    /// The same link at another stage.
    pub open spec fn at(self, stage: LinkStageView) -> LinkView {
        LinkView { stage, ..self }
    }

    /// The same link, ended by what nvJitLink says.
    pub open spec fn fail(self, why: Seq<char>) -> LinkView {
        self.at(LinkStageView::Done(Err(ErrorView::NvJitLink(why))))
    }

    /// What the link waits for.
    pub open spec fn request(self) -> Option<RequestView> {
        match self.stage {
            LinkStageView::LoadNvJitLink => Some(RequestView::LoadNvJitLink),
            LinkStageView::NewLinker => Some(
                RequestView::NewLinker { options: link_options(self.arch, self.output) },
            ),
            LinkStageView::AddLtoir => Some(
                RequestView::AddLtoir { contents: self.ltoir, name: self.module_name },
            ),
            LinkStageView::Finish => match self.output {
                Output::Cubin => Some(RequestView::FinishCubin),
                Output::Ptx => Some(RequestView::FinishPtx),
            },
            LinkStageView::Done(_) => None,
        }
    }

    /// The link after `reply`. A reply of the wrong kind changes nothing.
    pub open spec fn resume(self, reply: ReplyView) -> LinkView {
        match (self.stage, reply) {
            (LinkStageView::LoadNvJitLink, ReplyView::Finished(done)) => match done {
                Ok(_) => self.at(LinkStageView::NewLinker),
                Err(why) => self.fail(why),
            },
            (LinkStageView::NewLinker, ReplyView::Finished(done)) => match done {
                Ok(_) => self.at(LinkStageView::AddLtoir),
                Err(why) => self.fail(why),
            },
            (LinkStageView::AddLtoir, ReplyView::Finished(done)) => match done {
                Ok(_) => self.at(LinkStageView::Finish),
                Err(why) => self.fail(why),
            },
            (LinkStageView::Finish, ReplyView::Bytes(linked)) => match linked {
                Ok(image) => self.at(LinkStageView::Done(Ok(image))),
                Err(why) => self.fail(why),
            },
            _ => self,
        }
    }
}

impl Link {
    /// Begins to link `ltoir`, which was emitted for `arch`. The payload is
    /// known to nvJitLink as `module_name`.
    pub fn new(ltoir: Vec<u8>, module_name: String, arch: CudaArch, output: Output) -> (link: Link)
        ensures
            link@ == LinkView::start(ltoir@, module_name@, arch@, output),
    {
        Link { ltoir, module_name, arch, output, stage: LinkStage::LoadNvJitLink }
    }

    /// What the link waits for; nothing once it has ended.
    pub fn request(&self) -> (request: Option<Request<'_>>)
        ensures
            request is Some <==> self@.request() is Some,
            request matches Some(asked) ==> Some(asked@) == self@.request(),
    {
        match &self.stage {
            LinkStage::LoadNvJitLink => Some(Request::LoadNvJitLink),
            LinkStage::NewLinker => Some(
                Request::NewLinker { options: linker_options(&self.arch, self.output) },
            ),
            LinkStage::AddLtoir => Some(
                Request::AddLtoir { contents: &self.ltoir, name: self.module_name.as_str() },
            ),
            LinkStage::Finish => match self.output {
                Output::Cubin => Some(Request::FinishCubin),
                Output::Ptx => Some(Request::FinishPtx),
            },
            LinkStage::Done(_) => None,
        }
    }

    /// Goes on with `reply`. A reply of the wrong kind changes nothing.
    pub fn resume(self, reply: Reply) -> (next: Link)
        ensures
            next@ == self@.resume(reply@),
    {
        let Link { ltoir, module_name, arch, output, stage } = self;
        let next_stage = match (stage, reply) {
            (LinkStage::LoadNvJitLink, Reply::Finished(done)) => match done {
                Ok(_) => LinkStage::NewLinker,
                Err(why) => LinkStage::Done(Err(LtoirError::NvJitLink(why))),
            },
            (LinkStage::NewLinker, Reply::Finished(done)) => match done {
                Ok(_) => LinkStage::AddLtoir,
                Err(why) => LinkStage::Done(Err(LtoirError::NvJitLink(why))),
            },
            (LinkStage::AddLtoir, Reply::Finished(done)) => match done {
                Ok(_) => LinkStage::Finish,
                Err(why) => LinkStage::Done(Err(LtoirError::NvJitLink(why))),
            },
            (LinkStage::Finish, Reply::Bytes(linked)) => match linked {
                Ok(image) => LinkStage::Done(Ok(image)),
                Err(why) => LinkStage::Done(Err(LtoirError::NvJitLink(why))),
            },
            (stage, _) => stage,
        };
        Link { ltoir, module_name, arch, output, stage: next_stage }
    }
}

} // verus!
