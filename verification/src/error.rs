//! The ways the pipeline can fail. Every failure is fatal: nothing is
//! retried and nothing partial is kept.

use vstd::prelude::*;

verus! {

/// Why rasterizing the scene failed.
#[derive(Clone, Copy, Debug, PartialEq, Eq, Structural)]
pub enum RenderFault {
    /// The renderer could not rasterize the scene.
    Rasterization,
    /// The renderer reported an error that cannot cross thread boundaries.
    NotThreadSafe,
}

/// Why the readback buffer could not be mapped.
#[derive(Clone, Copy, Debug, PartialEq, Eq, Structural)]
pub enum MapFault {
    /// The completion channel was closed before it signalled.
    ChannelClosed,
    /// The mapping itself was refused.
    Refused,
}

/// A fatal failure of the pipeline, by the stage that failed.
#[derive(Clone, Copy, Debug, PartialEq, Eq, Structural)]
pub enum PipelineError {
    /// No usable GPU device.
    NoDevice,
    /// The renderer could not be constructed.
    RendererInit,
    /// The scene could not be rasterized.
    Render(RenderFault),
    /// The readback buffer could not be mapped.
    Mapping(MapFault),
    /// A size or a buffer offset does not fit its integer type or its buffer.
    Conversion,
    /// The pixels could not be encoded as an image.
    Encode,
    /// The image file could not be created or written.
    Io,
}

impl PipelineError {
    /// The text of [`PipelineError::message`].
    pub open spec fn message_text(self) -> Seq<char> {
        match self {
            PipelineError::NoDevice => "no such render context"@,
            PipelineError::RendererInit => "failed to create renderer"@,
            PipelineError::Render(fault) => match fault {
                RenderFault::Rasterization => "failed to render the scene"@,
                RenderFault::NotThreadSafe => "Got non-Send/Sync error from rendering"@,
            },
            PipelineError::Mapping(fault) => match fault {
                MapFault::ChannelClosed => "channel was closed"@,
                MapFault::Refused => "failed to map the readback buffer"@,
            },
            PipelineError::Conversion => "out of range integral type conversion attempted"@,
            PipelineError::Encode => "failed to encode the image"@,
            PipelineError::Io => "failed to write the image file"@,
        }
    }

    /// A message that names the stage that failed.
    pub fn message(&self) -> (text: String)
        ensures
            text@ == self.message_text(),
    {
        let text = match self {
            PipelineError::NoDevice => "no such render context",
            PipelineError::RendererInit => "failed to create renderer",
            PipelineError::Render(fault) => match fault {
                RenderFault::Rasterization => "failed to render the scene",
                RenderFault::NotThreadSafe => "Got non-Send/Sync error from rendering",
            },
            PipelineError::Mapping(fault) => match fault {
                MapFault::ChannelClosed => "channel was closed",
                MapFault::Refused => "failed to map the readback buffer",
            },
            PipelineError::Conversion => "out of range integral type conversion attempted",
            PipelineError::Encode => "failed to encode the image",
            PipelineError::Io => "failed to write the image file",
        };
        text.to_owned()
    }
}

} // verus!
