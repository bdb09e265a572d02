//! The order of the pipeline and its failure policy.
//!
//! The pipeline is a fixed run of stages, each entered once and in order.
//! The caller does the work of the current stage and reports how it went;
//! [`Status::advance`] says what comes next. The first failure ends the run,
//! with the error of the stage that failed: nothing is retried.

use vstd::prelude::*;
use crate::color::Color;
use crate::error::{MapFault, PipelineError, RenderFault};
use crate::readback::Layout;

verus! {

/// A stage of the pipeline, in the order the stages are run.
#[derive(Clone, Copy, Debug, PartialEq, Eq, Structural)]
pub enum Stage {
    /// Acquire a GPU device and its queue.
    AcquireDevice,
    /// Construct the renderer.
    CreateRenderer,
    /// Work out the size of the target texture and the layout of the
    /// readback buffer.
    LayOut,
    /// Build the scene and rasterize it into the target texture.
    Rasterize,
    /// Copy the texture into the readback buffer, map the buffer for reading
    /// and wait for the mapping to complete.
    ReadBack,
    /// Strip the row padding from the mapped bytes.
    StripPadding,
    /// Create the image file, or empty the one that is there.
    CreateFile,
    /// Encode the packed pixels.
    Encode,
    /// Write the encoded image to its file.
    WriteFile,
}

/// Number of stages.
pub const STAGES: usize = 9;

/// How the work of a stage went.
#[derive(Clone, Copy, Debug, PartialEq, Eq, Structural)]
pub enum Outcome {
    /// The work was done.
    Done,
    /// The work failed.
    Failed,
    /// The work failed because a completion channel was closed before it
    /// signalled.
    ChannelClosed,
    /// The work failed with an error that cannot cross thread boundaries.
    NotThreadSafe,
}

/// Where a run of the pipeline stands.
#[derive(Clone, Copy, Debug, PartialEq, Eq, Structural)]
pub enum Status {
    /// The stage whose work is to be done next.
    Running(Stage),
    /// Every stage was done.
    Finished,
    /// A stage failed.
    Failed(PipelineError),
}

impl Stage {
    /// The place of the stage in the run, from 0.
    pub open spec fn position(self) -> int {
        match self {
            Stage::AcquireDevice => 0,
            Stage::CreateRenderer => 1,
            Stage::LayOut => 2,
            Stage::Rasterize => 3,
            Stage::ReadBack => 4,
            Stage::StripPadding => 5,
            Stage::CreateFile => 6,
            Stage::Encode => 7,
            Stage::WriteFile => 8,
        }
    }

    /// The status once the stage is done: the next stage, or the end of the
    /// run after the last one.
    pub open spec fn successor(self) -> Status {
        match self {
            Stage::AcquireDevice => Status::Running(Stage::CreateRenderer),
            Stage::CreateRenderer => Status::Running(Stage::LayOut),
            Stage::LayOut => Status::Running(Stage::Rasterize),
            Stage::Rasterize => Status::Running(Stage::ReadBack),
            Stage::ReadBack => Status::Running(Stage::StripPadding),
            Stage::StripPadding => Status::Running(Stage::CreateFile),
            Stage::CreateFile => Status::Running(Stage::Encode),
            Stage::Encode => Status::Running(Stage::WriteFile),
            Stage::WriteFile => Status::Finished,
        }
    }

    /// The error of a failure at this stage. The stage decides the kind of
    /// error; the outcome tells two faults of rasterizing apart, and two of
    /// mapping.
    pub open spec fn failure(self, outcome: Outcome) -> PipelineError {
        match self {
            Stage::AcquireDevice => PipelineError::NoDevice,
            Stage::CreateRenderer => PipelineError::RendererInit,
            Stage::LayOut => PipelineError::Conversion,
            Stage::Rasterize => PipelineError::Render(
                if outcome == Outcome::NotThreadSafe {
                    RenderFault::NotThreadSafe
                } else {
                    RenderFault::Rasterization
                },
            ),
            Stage::ReadBack => PipelineError::Mapping(
                if outcome == Outcome::ChannelClosed {
                    MapFault::ChannelClosed
                } else {
                    MapFault::Refused
                },
            ),
            Stage::StripPadding => PipelineError::Conversion,
            Stage::CreateFile => PipelineError::Io,
            Stage::Encode => PipelineError::Encode,
            Stage::WriteFile => PipelineError::Io,
        }
    }

    /// The error of a failure at this stage.
    pub fn error(&self, outcome: Outcome) -> (e: PipelineError)
        ensures
            e == self.failure(outcome),
    {
        match self {
            Stage::AcquireDevice => PipelineError::NoDevice,
            Stage::CreateRenderer => PipelineError::RendererInit,
            Stage::LayOut => PipelineError::Conversion,
            Stage::Rasterize => match outcome {
                Outcome::NotThreadSafe => PipelineError::Render(RenderFault::NotThreadSafe),
                _ => PipelineError::Render(RenderFault::Rasterization),
            },
            Stage::ReadBack => match outcome {
                Outcome::ChannelClosed => PipelineError::Mapping(MapFault::ChannelClosed),
                _ => PipelineError::Mapping(MapFault::Refused),
            },
            Stage::StripPadding => PipelineError::Conversion,
            Stage::CreateFile => PipelineError::Io,
            Stage::Encode => PipelineError::Encode,
            Stage::WriteFile => PipelineError::Io,
        }
    }

    /// The status once the stage is done.
    pub fn next(&self) -> (status: Status)
        ensures
            status == self.successor(),
    {
        match self {
            Stage::AcquireDevice => Status::Running(Stage::CreateRenderer),
            Stage::CreateRenderer => Status::Running(Stage::LayOut),
            Stage::LayOut => Status::Running(Stage::Rasterize),
            Stage::Rasterize => Status::Running(Stage::ReadBack),
            Stage::ReadBack => Status::Running(Stage::StripPadding),
            Stage::StripPadding => Status::Running(Stage::CreateFile),
            Stage::CreateFile => Status::Running(Stage::Encode),
            Stage::Encode => Status::Running(Stage::WriteFile),
            Stage::WriteFile => Status::Finished,
        }
    }
}

impl Status {
    /// The status that follows when the work of the current stage went as
    /// `outcome` says. A run that has ended stays as it ended.
    pub open spec fn after(self, outcome: Outcome) -> Status {
        match self {
            Status::Running(stage) => if outcome == Outcome::Done {
                stage.successor()
            } else {
                Status::Failed(stage.failure(outcome))
            },
            _ => self,
        }
    }

    /// The status after a sequence of outcomes, one per step.
    pub open spec fn after_all(self, outcomes: Seq<Outcome>) -> Status
        decreases outcomes.len(),
    {
        if outcomes.len() == 0 {
            self
        } else {
            self.after_all(outcomes.drop_last()).after(outcomes.last())
        }
    }

    /// How far the run has come: the position of the current stage, or the
    /// number of stages once the run has finished.
    pub open spec fn progress(self) -> int {
        match self {
            Status::Running(stage) => stage.position(),
            _ => STAGES as int,
        }
    }

    /// The start of a run.
    pub fn start() -> (status: Status)
        ensures
            status == Status::Running(Stage::AcquireDevice),
    {
        Status::Running(Stage::AcquireDevice)
    }

    /// The status that follows when the work of the current stage went as
    /// `outcome` says.
    pub fn advance(self, outcome: Outcome) -> (status: Status)
        ensures
            status == self.after(outcome),
    {
        match self {
            Status::Running(stage) => match outcome {
                Outcome::Done => stage.next(),
                _ => Status::Failed(stage.error(outcome)),
            },
            _ => self,
        }
    }

    /// The exit code of the process: 0 for a finished run, 1 for any other.
    pub fn exit_code(&self) -> (code: u8)
        ensures
            code == 0 <==> *self == Status::Finished,
            code == 0 || code == 1,
    {
        match self {
            Status::Finished => 0,
            _ => 1,
        }
    }
}

/// The pipeline runs one way: a stage that is done is followed by the stage
/// one place further, or ends the run if it was the last. No stage is
/// entered twice.
pub proof fn lemma_one_way(stage: Stage)
    ensures
        Status::Running(stage).after(Outcome::Done).progress() == stage.position() + 1,
        Status::Running(stage).after(Outcome::Done) == Status::Finished <==> stage
            == Stage::WriteFile,
        !(Status::Running(stage).after(Outcome::Done) is Failed),
{
}

/// A failure at any stage ends the run with the error of that stage.
pub proof fn lemma_fail_fast(stage: Stage, outcome: Outcome)
    requires
        outcome != Outcome::Done,
    ensures
        Status::Running(stage).after(outcome) == Status::Failed(stage.failure(outcome)),
{
}

/// Each kind of error names its stage: an error of a kind comes from a
/// failure of the stage of that kind and from no other.
pub proof fn lemma_error_names_stage(stage: Stage, outcome: Outcome)
    ensures
        stage.failure(outcome) == PipelineError::NoDevice <==> stage == Stage::AcquireDevice,
        stage.failure(outcome) == PipelineError::RendererInit <==> stage == Stage::CreateRenderer,
        stage.failure(outcome) is Render <==> stage == Stage::Rasterize,
        stage.failure(outcome) is Mapping <==> stage == Stage::ReadBack,
        stage.failure(outcome) == PipelineError::Conversion <==> stage == Stage::LayOut || stage
            == Stage::StripPadding,
        stage.failure(outcome) == PipelineError::Encode <==> stage == Stage::Encode,
        stage.failure(outcome) == PipelineError::Io <==> stage == Stage::CreateFile || stage
            == Stage::WriteFile,
{
}

/// Nothing is retried: once a run has ended, finished or failed, no outcome
/// changes it.
pub proof fn lemma_end_is_final(status: Status, outcomes: Seq<Outcome>)
    requires
        !(status is Running),
    ensures
        status.after_all(outcomes) == status,
    decreases outcomes.len(),
{
    if outcomes.len() > 0 {
        lemma_end_is_final(status, outcomes.drop_last());
    }
}

/// A run finishes exactly when every one of its stages was done: after
/// `n` outcomes that are all `Done` the run has come `n` stages far, and it
/// has finished as soon as `n` reaches the number of stages.
pub proof fn lemma_all_done(outcomes: Seq<Outcome>)
    requires
        forall|i: int| 0 <= i < outcomes.len() ==> outcomes[i] == Outcome::Done,
    ensures
        outcomes.len() <= STAGES ==> Status::Running(Stage::AcquireDevice).after_all(
            outcomes,
        ).progress() == outcomes.len(),
        outcomes.len() >= STAGES ==> Status::Running(Stage::AcquireDevice).after_all(outcomes)
            == Status::Finished,
        !(Status::Running(Stage::AcquireDevice).after_all(outcomes) is Failed),
    decreases outcomes.len(),
{
    if outcomes.len() > 0 {
        lemma_all_done(outcomes.drop_last());
        let before = Status::Running(Stage::AcquireDevice).after_all(outcomes.drop_last());
        assert(outcomes.last() == Outcome::Done);
        match before {
            Status::Running(stage) => {
                lemma_one_way(stage);
            },
            _ => {},
        }
    }
}

/// A run whose first outcome other than `Done` comes at step `n` has failed
/// with the error of the stage at place `n`, whatever follows.
pub proof fn lemma_first_failure_decides(outcomes: Seq<Outcome>, n: int)
    requires
        0 <= n < outcomes.len(),
        n < STAGES,
        forall|i: int| 0 <= i < n ==> outcomes[i] == Outcome::Done,
        outcomes[n] != Outcome::Done,
    ensures
        Status::Running(Stage::AcquireDevice).after_all(outcomes) matches Status::Failed(e)
            && exists|stage: Stage|
            stage.position() == n && e == #[trigger] stage.failure(outcomes[n]),
    decreases outcomes.len(),
{
    let start = Status::Running(Stage::AcquireDevice);
    let before = start.after_all(outcomes.drop_last());
    if n == outcomes.len() - 1 {
        lemma_all_done(outcomes.drop_last());
        assert(before.progress() == n);
        let stage = before->Running_0;
        assert(before == Status::Running(stage));
        lemma_fail_fast(stage, outcomes[n]);
        assert(start.after_all(outcomes) == Status::Failed(stage.failure(outcomes[n])));
    } else {
        lemma_first_failure_decides(outcomes.drop_last(), n);
        assert(outcomes.drop_last()[n] == outcomes[n]);
    }
}

/// How edges are smoothed.
#[derive(Clone, Copy, Debug, PartialEq, Eq, Structural)]
pub enum Antialiasing {
    /// By the area of a pixel that a shape covers.
    Area,
    /// By 8 samples per pixel.
    Msaa8,
    /// By 16 samples per pixel.
    Msaa16,
}

/// How the renderer is constructed: the one antialiasing method it is built
/// for, and the number of threads that initialize it.
#[derive(Clone, Copy, Debug, PartialEq, Eq, Structural)]
pub struct RendererSetup {
    pub antialiasing: Antialiasing,
    pub init_threads: usize,
}

impl RendererSetup {
    /// A renderer for area antialiasing only, initialized by one thread.
    pub fn area_only() -> (setup: RendererSetup)
        ensures
            setup == (RendererSetup { antialiasing: Antialiasing::Area, init_threads: 1 }),
    {
        RendererSetup { antialiasing: Antialiasing::Area, init_threads: 1 }
    }
}

/// What the rasterizer is asked for: the size of the target, the background,
/// a mix of two colours, and the antialiasing method.
#[derive(Clone, Copy, Debug, PartialEq, Eq, Structural)]
pub struct RenderParams {
    pub width: u32,
    pub height: u32,
    /// The background is `mix_percent` hundredths of the way from
    /// `base_from` to `base_to`.
    pub base_from: Color,
    pub base_to: Color,
    pub mix_percent: u8,
    pub antialiasing: Antialiasing,
}

impl RenderParams {
    /// The parameters for a target laid out as `layout`: its size, on a
    /// background half way from gray to white, with area antialiasing.
    pub fn for_layout(layout: &Layout) -> (params: RenderParams)
        ensures
            params == (RenderParams {
                width: layout.width,
                height: layout.height,
                base_from: Color::Gray,
                base_to: Color::White,
                mix_percent: 50,
                antialiasing: Antialiasing::Area,
            }),
    {
        RenderParams {
            width: layout.width,
            height: layout.height,
            base_from: Color::Gray,
            base_to: Color::White,
            mix_percent: 50,
            antialiasing: Antialiasing::Area,
        }
    }
}

} // verus!
