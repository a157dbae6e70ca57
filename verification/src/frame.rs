//! Per-frame rendering and the acquisition failure policy.
//!
//! A frame is recorded as a short, fixed command stream: one render pass
//! that clears the target to the fixed background color and stores the
//! result, with at most one draw call — three shader-generated vertices,
//! one instance — then one submission and one presentation. The stream is
//! built here as data with an exact contract; the caller replays it against
//! the backend.
//!
//! Acquisition failures are mapped to their handling policy totally: each
//! of the four failure classes has exactly one action.

use vstd::prelude::*;

use crate::format::SurfaceFormat;
use crate::surface::AcquireError;

verus! {

/// An RGBA color with 8-bit channels, as the harness states it; the caller
/// converts to whatever scale the backend wants.
#[derive(Clone, Copy, Debug, PartialEq, Eq, Structural)]
pub struct Color {
    /// Red channel.
    pub r: u8,
    /// Green channel.
    pub g: u8,
    /// Blue channel.
    pub b: u8,
    /// Alpha channel.
    pub a: u8,
}

/// The fixed background the pass clears to: cornflower blue, opaque.
pub open spec fn background_color() -> Color {
    Color { r: 100, g: 149, b: 237, a: 255 }
}

/// The background clear color as an executable value.
pub fn clear_color() -> (c: Color)
    ensures
        c == background_color(),
{
    Color { r: 100, g: 149, b: 237, a: 255 }
}

/// The compiled render pipeline, reduced to what frame recording reads: the
/// format of its single color target. Built once and immutable; the target
/// format must equal the surface's negotiated format, which
/// [`crate::app_loop::AppHarness`] maintains as its well-formedness.
#[derive(Clone, Copy, Debug, PartialEq, Eq, Structural)]
pub struct RenderPipelineState {
    /// The format of the pipeline's single color target.
    pub target_format: SurfaceFormat,
}

impl RenderPipelineState {
    /// Build the pipeline for the given color target format. There is no
    /// recompilation path: the result never changes.
    pub fn build(target_format: SurfaceFormat) -> (p: Self)
        ensures
            p.target_format == target_format,
    {
        RenderPipelineState { target_format }
    }
}

/// One step of the command stream recorded for a frame.
#[derive(Clone, Copy, Debug, PartialEq, Eq, Structural)]
pub enum RenderCommand {
    /// Begin the single render pass: clear the acquired image to `clear`
    /// and store the result.
    BeginPass {
        /// The clear color of the pass's load operation.
        clear: Color,
    },
    /// Bind the pipeline whose color target has the given format.
    SetPipeline {
        /// The bound pipeline's color target format.
        format: SurfaceFormat,
    },
    /// Issue the draw call.
    Draw {
        /// Number of vertices; the shader generates their data.
        vertices: u32,
        /// Number of instances.
        instances: u32,
    },
    /// End the render pass.
    EndPass,
    /// Finish recording and submit the command buffer to the queue.
    Submit,
    /// Present the acquired image; terminal for the frame — the image must
    /// not be used afterwards.
    Present,
}

/// The exact command stream of one frame against a pipeline with color
/// target `format`: clear-only when `draw_triangle` is false, or with the
/// single three-vertex one-instance draw call when it is true.
pub open spec fn frame_trace(format: SurfaceFormat, draw_triangle: bool) -> Seq<RenderCommand> {
    if draw_triangle {
        seq![
            RenderCommand::BeginPass { clear: background_color() },
            RenderCommand::SetPipeline { format },
            RenderCommand::Draw { vertices: 3, instances: 1 },
            RenderCommand::EndPass,
            RenderCommand::Submit,
            RenderCommand::Present,
        ]
    } else {
        seq![
            RenderCommand::BeginPass { clear: background_color() },
            RenderCommand::EndPass,
            RenderCommand::Submit,
            RenderCommand::Present,
        ]
    }
}

/// Record the command stream for one frame: the pass, the optional single
/// draw call, the submission, and the terminal presentation, in order.
pub fn record_frame(pipeline: &RenderPipelineState, draw_triangle: bool) -> (cmds: Vec<
    RenderCommand,
>)
    ensures
        cmds@ == frame_trace(pipeline.target_format, draw_triangle),
{
    let mut cmds: Vec<RenderCommand> = Vec::new();
    cmds.push(RenderCommand::BeginPass { clear: clear_color() });
    if draw_triangle {
        cmds.push(RenderCommand::SetPipeline { format: pipeline.target_format });
        cmds.push(RenderCommand::Draw { vertices: 3, instances: 1 });
    }
    cmds.push(RenderCommand::EndPass);
    cmds.push(RenderCommand::Submit);
    cmds.push(RenderCommand::Present);
    proof {
        assert(cmds@ =~= frame_trace(pipeline.target_format, draw_triangle));
    }
    cmds
}

/// How the loop must handle an acquisition failure.
#[derive(Clone, Copy, Debug, PartialEq, Eq, Structural)]
pub enum FrameAction {
    /// Skip this frame and simply retry on the next one.
    SkipRetry,
    /// Reconfigure the surface from the window's current extent, then skip
    /// this frame; the next acquisition is expected to succeed.
    SkipReconfigureRetry,
    /// Skip this frame and log at error severity; no recovery is attempted.
    SkipLog,
    /// Unrecoverable; terminate the application.
    FatalTerminate,
}

/// The handling policy for each acquisition failure class.
pub open spec fn failure_policy(e: AcquireError) -> FrameAction {
    match e {
        AcquireError::Timeout => FrameAction::SkipRetry,
        AcquireError::Outdated => FrameAction::SkipReconfigureRetry,
        AcquireError::Lost => FrameAction::SkipLog,
        AcquireError::OutOfMemory => FrameAction::FatalTerminate,
    }
}

/// Map an acquisition failure to its handling action.
pub fn acquire_failure_action(e: &AcquireError) -> (a: FrameAction)
    ensures
        a == failure_policy(*e),
{
    match e {
        AcquireError::Timeout => FrameAction::SkipRetry,
        AcquireError::Outdated => FrameAction::SkipReconfigureRetry,
        AcquireError::Lost => FrameAction::SkipLog,
        AcquireError::OutOfMemory => FrameAction::FatalTerminate,
    }
}

/// The failure policy is total and leaves no class unhandled: each of the
/// four failure classes maps to exactly one action, and distinct classes
/// map to distinct actions.
pub proof fn lemma_failure_policy_total()
    ensures
        failure_policy(AcquireError::Timeout) == FrameAction::SkipRetry,
        failure_policy(AcquireError::Outdated) == FrameAction::SkipReconfigureRetry,
        failure_policy(AcquireError::Lost) == FrameAction::SkipLog,
        failure_policy(AcquireError::OutOfMemory) == FrameAction::FatalTerminate,
        forall|e1: AcquireError, e2: AcquireError|
            failure_policy(e1) == failure_policy(e2) ==> e1 == e2,
{
    assert forall|e1: AcquireError, e2: AcquireError|
        failure_policy(e1) == failure_policy(e2) implies e1 == e2 by {
        match e1 {
            AcquireError::Timeout => {},
            AcquireError::Outdated => {},
            AcquireError::Lost => {},
            AcquireError::OutOfMemory => {},
        }
    }
}

/// The shape of every frame's command stream: exactly one render pass,
/// begun with the one clear operation to the fixed background; at most one
/// draw call, and when drawing is on it is exactly the three-vertex,
/// one-instance call; exactly one submission, after the pass ends; and the
/// presentation is the terminal command, after the submission.
pub proof fn lemma_frame_trace_shape(format: SurfaceFormat, draw_triangle: bool)
    ensures
        ({
            let t = frame_trace(format, draw_triangle);
            &&& t.len() >= 4
            &&& t[0] == RenderCommand::BeginPass { clear: background_color() }
            &&& forall|i: int| 0 < i < t.len() ==> !(t[i] is BeginPass)
            &&& forall|i: int, j: int|
                0 <= i < t.len() && 0 <= j < t.len() && t[i] is Draw && t[j] is Draw ==> i == j
            &&& (draw_triangle ==> t[2] == RenderCommand::Draw { vertices: 3, instances: 1 })
            &&& (!draw_triangle ==> forall|i: int| 0 <= i < t.len() ==> !(t[i] is Draw))
            &&& t[t.len() - 2] == RenderCommand::Submit
            &&& forall|i: int| 0 <= i < t.len() - 2 ==> !(t[i] is Submit)
            &&& t.last() == RenderCommand::Present
            &&& forall|i: int| 0 <= i < t.len() - 1 ==> !(t[i] is Present)
        }),
{
}

} // verus!
