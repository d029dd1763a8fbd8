//! The pipeline of one conversion, as a state machine.
//!
//! A [`Conversion`] never performs outside work. It names the work that is
//! due ([`Conversion::pending`]) and is told how that work ended
//! ([`Conversion::step`]). Whoever drives it performs the action and reports
//! the event, until the pending action is [`Action::Reply`].

use vstd::prelude::*;
use crate::area::AreaFile;
use crate::failure::{Failure, Fault};
use crate::invocation::{render, InvocationView, RenderInvocation};

verus! {

/// What a caller asks to have converted. Both texts are opaque to the
/// service: neither is inspected or changed.
#[derive(PartialEq, Eq, Debug)]
pub struct ConversionRequest {
    pub body: String,
    pub template: String,
}

/// The mathematical value of a [`ConversionRequest`].
pub ghost struct RequestView {
    pub body: Seq<char>,
    pub template: Seq<char>,
}

impl View for ConversionRequest {
    type V = RequestView;

    open spec fn view(&self) -> RequestView {
        RequestView { body: self.body@, template: self.template@ }
    }
}

/// How a piece of outside work ended.
#[derive(PartialEq, Eq, Debug)]
pub enum Event {
    /// The work was done. `output` holds what was read, where the work was
    /// a read; it is empty and ignored otherwise. A renderer that ran and
    /// exited has completed, whatever its exit status.
    Completed { output: Vec<u8> },
    /// The work could not be done.
    Failed { fault: Fault },
}

/// The mathematical value of an [`Event`].
pub ghost enum EventView {
    Completed { output: Seq<u8> },
    Failed { fault: Fault },
}

impl View for Event {
    type V = EventView;

    open spec fn view(&self) -> EventView {
        match self {
            Event::Completed { output } => EventView::Completed { output: output@ },
            Event::Failed { fault } => EventView::Failed { fault: *fault },
        }
    }
}

/// The outside work that a conversion is waiting for.
#[derive(PartialEq, Eq, Debug)]
pub enum Action {
    /// Allocate a fresh, uniquely named working area.
    OpenArea,
    /// Create or overwrite `file` in the working area with `contents`.
    WriteFile { file: AreaFile, contents: String },
    /// Launch the renderer and wait until it has exited.
    Run { invocation: RenderInvocation },
    /// Read `file` of the working area in full.
    ReadFile { file: AreaFile },
    /// Remove the working area and everything in it.
    CloseArea,
    /// Nothing is left to do: hand the outcome to the caller.
    Reply,
}

/// The mathematical value of an [`Action`].
pub ghost enum ActionView {
    OpenArea,
    WriteFile { file: AreaFile, contents: Seq<char> },
    Run { invocation: InvocationView },
    ReadFile { file: AreaFile },
    CloseArea,
    Reply,
}

impl View for Action {
    type V = ActionView;

    open spec fn view(&self) -> ActionView {
        match self {
            Action::OpenArea => ActionView::OpenArea,
            Action::WriteFile { file, contents } => ActionView::WriteFile {
                file: *file,
                contents: contents@,
            },
            Action::Run { invocation } => ActionView::Run { invocation: invocation@ },
            Action::ReadFile { file } => ActionView::ReadFile { file: *file },
            Action::CloseArea => ActionView::CloseArea,
            Action::Reply => ActionView::Reply,
        }
    }
}

/// The outcome of a conversion: the rendered document, or why there is none.
pub open spec fn outcome_view(outcome: Result<Vec<u8>, Failure>) -> Result<Seq<u8>, Failure> {
    match outcome {
        Ok(bytes) => Ok(bytes@),
        Err(kind) => Err(kind),
    }
}

/// How far a conversion has come.
#[derive(PartialEq, Eq, Debug)]
pub enum Stage {
    /// The request is in; nothing has been done for it.
    Received,
    /// The working area exists and is empty.
    AreaOpened,
    /// The body has been written.
    BodyWritten,
    /// Body and theme have been written.
    InputsWritten,
    /// The renderer has run and exited.
    RendererInvoked,
    /// The renderer's output has been read; the area is still open.
    Succeeded { bytes: Vec<u8> },
    /// Something went wrong; the area is still open.
    Failed { kind: Failure },
    /// The area is gone, or never was. The outcome is settled.
    AreaClosed { outcome: Result<Vec<u8>, Failure> },
}

/// The mathematical value of a [`Stage`].
pub ghost enum StageView {
    Received,
    AreaOpened,
    BodyWritten,
    InputsWritten,
    RendererInvoked,
    Succeeded { bytes: Seq<u8> },
    Failed { kind: Failure },
    AreaClosed { outcome: Result<Seq<u8>, Failure> },
}

impl View for Stage {
    type V = StageView;

    open spec fn view(&self) -> StageView {
        match self {
            Stage::Received => StageView::Received,
            Stage::AreaOpened => StageView::AreaOpened,
            Stage::BodyWritten => StageView::BodyWritten,
            Stage::InputsWritten => StageView::InputsWritten,
            Stage::RendererInvoked => StageView::RendererInvoked,
            Stage::Succeeded { bytes } => StageView::Succeeded { bytes: bytes@ },
            Stage::Failed { kind } => StageView::Failed { kind: *kind },
            Stage::AreaClosed { outcome } => StageView::AreaClosed {
                outcome: outcome_view(*outcome),
            },
        }
    }
}

/// The mathematical value of a [`Conversion`].
pub ghost struct ConversionView {
    pub request: RequestView,
    pub program: Seq<char>,
    pub stage: StageView,
}

/// A conversion for which nothing has been done yet.
pub open spec fn initial(request: RequestView, program: Seq<char>) -> ConversionView {
    ConversionView { request, program, stage: StageView::Received }
}

/// Whether a working area exists at this stage.
pub open spec fn area_open(stage: StageView) -> bool {
    match stage {
        StageView::Received => false,
        StageView::AreaClosed { .. } => false,
        _ => true,
    }
}

/// The failure that a fault amounts to, by the stage at which it struck.
pub open spec fn classify(stage: StageView, fault: Fault) -> Failure {
    match stage {
        StageView::InputsWritten => Failure::Invocation,
        StageView::RendererInvoked => match fault {
            Fault::NotFound => Failure::OutputMissing,
            Fault::Other => Failure::Read,
        },
        _ => Failure::Resource,
    }
}

/// The stage that follows `stage` once the pending work has ended in `event`.
pub open spec fn next_stage(stage: StageView, event: EventView) -> StageView {
    match stage {
        StageView::Succeeded { bytes } => StageView::AreaClosed { outcome: Ok(bytes) },
        StageView::Failed { kind } => StageView::AreaClosed { outcome: Err(kind) },
        StageView::AreaClosed { outcome } => stage,
        _ => match event {
            EventView::Failed { fault } => if stage is Received {
                StageView::AreaClosed { outcome: Err(classify(stage, fault)) }
            } else {
                StageView::Failed { kind: classify(stage, fault) }
            },
            EventView::Completed { output } => match stage {
                StageView::Received => StageView::AreaOpened,
                StageView::AreaOpened => StageView::BodyWritten,
                StageView::BodyWritten => StageView::InputsWritten,
                StageView::InputsWritten => StageView::RendererInvoked,
                _ => StageView::Succeeded { bytes: output },
            },
        },
    }
}

/// The conversion that follows `c` once the pending work has ended in `event`.
pub open spec fn next(c: ConversionView, event: EventView) -> ConversionView {
    ConversionView {
        request: c.request,
        program: c.program,
        stage: next_stage(c.stage, event),
    }
}

/// The work that `c` is waiting for.
pub open spec fn pending(c: ConversionView) -> ActionView {
    match c.stage {
        StageView::Received => ActionView::OpenArea,
        StageView::AreaOpened => ActionView::WriteFile {
            file: AreaFile::Body,
            contents: c.request.body,
        },
        StageView::BodyWritten => ActionView::WriteFile {
            file: AreaFile::Theme,
            contents: c.request.template,
        },
        StageView::InputsWritten => ActionView::Run { invocation: render(c.program) },
        StageView::RendererInvoked => ActionView::ReadFile { file: AreaFile::Output },
        StageView::Succeeded { .. } => ActionView::CloseArea,
        StageView::Failed { .. } => ActionView::CloseArea,
        StageView::AreaClosed { .. } => ActionView::Reply,
    }
}

impl Stage {
    /// The failure that `fault` amounts to when it strikes at this stage: a
    /// launch that fails is an invocation failure; a read that fails is a
    /// missing output where the file is not there, a read failure otherwise;
    /// anything earlier is a resource failure. Once the area is being
    /// closed a fault no longer counts, and the answer is of no consequence.
    pub fn failure_of(&self, fault: Fault) -> (r: Failure)
        ensures
            r == classify(self@, fault),
    {
        match self {
            Stage::InputsWritten => Failure::Invocation,
            Stage::RendererInvoked => match fault {
                Fault::NotFound => Failure::OutputMissing,
                Fault::Other => Failure::Read,
            },
            _ => Failure::Resource,
        }
    }
}

/// The pipeline of one request. It owns the request's texts and shares
/// nothing with any other conversion.
#[derive(PartialEq, Eq, Debug)]
pub struct Conversion {
    request: ConversionRequest,
    program: String,
    stage: Stage,
}

impl View for Conversion {
    type V = ConversionView;

    closed spec fn view(&self) -> ConversionView {
        ConversionView { request: self.request@, program: self.program@, stage: self.stage@ }
    }
}

impl Conversion {
    /// A conversion of `request` by `program`, for which nothing has been
    /// done yet.
    pub fn new(request: ConversionRequest, program: String) -> (r: Conversion)
        ensures
            r@ == initial(request@, program@),
    {
        Conversion { request, program, stage: Stage::Received }
    }

    /// The stage that the conversion has reached.
    pub fn stage(&self) -> (r: &Stage)
        ensures
            r@ == self@.stage,
    {
        &self.stage
    }

    /// The outside work that is due now.
    pub fn pending(&self) -> (r: Action)
        ensures
            r@ == pending(self@),
    {
        match &self.stage {
            Stage::Received => Action::OpenArea,
            Stage::AreaOpened => Action::WriteFile {
                file: AreaFile::Body,
                contents: self.request.body.clone(),
            },
            Stage::BodyWritten => Action::WriteFile {
                file: AreaFile::Theme,
                contents: self.request.template.clone(),
            },
            Stage::InputsWritten => Action::Run {
                invocation: RenderInvocation::new(self.program.clone()),
            },
            Stage::RendererInvoked => Action::ReadFile { file: AreaFile::Output },
            Stage::Succeeded { .. } => Action::CloseArea,
            Stage::Failed { .. } => Action::CloseArea,
            Stage::AreaClosed { .. } => Action::Reply,
        }
    }

    /// Takes note of how the pending work ended, and moves on.
    ///
    /// A fault ends the attempt at once: nothing is retried. While an area is
    /// open, the next stage after a fault or after the read is the one that
    /// closes it. Closing cannot fail the conversion: what `event` says of it
    /// is ignored. A settled conversion stays as it is.
    pub fn step(self, event: Event) -> (r: Conversion)
        ensures
            r@ == next(self@, event@),
    {
        let Conversion { request, program, stage } = self;
        let stage = match stage {
            Stage::Succeeded { bytes } => Stage::AreaClosed { outcome: Ok(bytes) },
            Stage::Failed { kind } => Stage::AreaClosed { outcome: Err(kind) },
            Stage::AreaClosed { outcome } => Stage::AreaClosed { outcome },
            working => match event {
                Event::Failed { fault } => {
                    let kind = working.failure_of(fault);
                    match working {
                        Stage::Received => Stage::AreaClosed { outcome: Err(kind) },
                        _ => Stage::Failed { kind },
                    }
                },
                Event::Completed { output } => match working {
                    Stage::Received => Stage::AreaOpened,
                    Stage::AreaOpened => Stage::BodyWritten,
                    Stage::BodyWritten => Stage::InputsWritten,
                    Stage::InputsWritten => Stage::RendererInvoked,
                    _ => Stage::Succeeded { bytes: output },
                },
            },
        };
        Conversion { request, program, stage }
    }

    /// The outcome, once it is settled: `None` while work is still due.
    pub fn into_reply(self) -> (r: Option<Result<Vec<u8>, Failure>>)
        ensures
            match self@.stage {
                StageView::AreaClosed { outcome } => r is Some && outcome_view(r->Some_0)
                    == outcome,
                _ => r is None,
            },
    {
        match self.stage {
            Stage::AreaClosed { outcome } => Some(outcome),
            _ => None,
        }
    }
}

} // verus!
