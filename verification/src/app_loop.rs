//! The application loop state machine.
//!
//! Each iteration pumps window events, checks the quit conditions, asks the
//! surface for the next image, and on success records and submits one frame
//! before presenting. The same state machine is driven by both execution
//! models: the native one as a blocking loop, the web one as a callback that
//! re-registers itself before every display refresh. The caller performs
//! the outside work — pumping, the real acquisition, replaying the command
//! stream — and hands the results back; every decision in between is made
//! and proved here.

use vstd::prelude::*;

use crate::format::{FormatChoice, SurfaceFormat, chosen_format, has_non_srgb, pick_surface_format};
use crate::frame::{
    FrameAction, RenderCommand, RenderPipelineState, failure_policy, frame_trace, record_frame,
};
use crate::surface::{AcquireError, DeviceCondition, Extent, FrameImage, PresentationSurface};

verus! {

/// The loop's control state.
#[derive(Clone, Copy, Debug, PartialEq, Eq, Structural)]
pub enum LoopState {
    /// The loop keeps iterating.
    Running,
    /// The loop stops; no further frame is drawn or presented.
    Exiting,
}

/// What one pump of window events showed: whether the window is still open,
/// whether the designated quit key was observed, and the window's current
/// extent.
#[derive(Clone, Copy, Debug, PartialEq, Eq, Structural)]
pub struct WindowObservation {
    /// The window reports itself open. Checked after pumping events, since
    /// pumping is what may close it.
    pub open: bool,
    /// The designated quit key was observed pressed.
    pub quit_requested: bool,
    /// The window's current extent.
    pub size: Extent,
}

/// Whether an observation demands leaving the loop.
pub open spec fn should_exit(obs: WindowObservation) -> bool {
    !obs.open || obs.quit_requested
}

/// What the caller must do with the current frame after the acquisition
/// result has been handled.
#[derive(Debug, PartialEq, Eq)]
pub enum FrameDirective {
    /// Replay `commands` against the backend: record the pass, submit, and
    /// present the acquired image.
    Render {
        /// The frame's exact command stream.
        commands: Vec<RenderCommand>,
    },
    /// Skip this frame and retry on the next iteration, logging at error
    /// severity when `log_error` is set (surface lost) and at warning
    /// severity otherwise (acquisition timeout).
    Skip {
        /// Log at error severity rather than warning severity.
        log_error: bool,
    },
    /// The surface model was reconfigured from the window's extent; apply
    /// the same configuration to the backend surface and skip this frame.
    /// The next acquisition is expected to succeed.
    Reconfigure {
        /// The extent the surface was reconfigured to.
        window: Extent,
    },
    /// Out of memory: unrecoverable, terminate the application.
    Abort,
}

/// The directive carries out the policy's action for a failure class.
pub open spec fn directive_follows(d: FrameDirective, a: FrameAction) -> bool {
    match a {
        FrameAction::SkipRetry => d == (FrameDirective::Skip { log_error: false }),
        FrameAction::SkipLog => d == (FrameDirective::Skip { log_error: true }),
        FrameAction::SkipReconfigureRetry => d is Reconfigure,
        FrameAction::FatalTerminate => d is Abort,
    }
}

/// The outcome of one whole iteration of the modeled loop.
#[derive(Debug, PartialEq, Eq)]
pub enum IterationOutcome {
    /// The loop left `Running`; nothing was drawn or presented.
    Stopped,
    /// The frame was rendered: the commands were recorded, submitted and
    /// the image presented.
    Rendered {
        /// The frame's exact command stream.
        commands: Vec<RenderCommand>,
    },
    /// The frame was skipped with a log line and no other action.
    Skipped {
        /// Logged at error severity rather than warning severity.
        log_error: bool,
    },
    /// The frame was skipped after reconfiguring the surface to the
    /// window's extent.
    Reconfigured,
    /// Acquisition ran out of memory; the application terminates.
    Aborted,
}

/// The application harness: the loop state, the surface model, and the
/// pipeline built for the surface's format, with the flag choosing between
/// the triangle-drawing and the clear-only variant.
#[derive(Clone, Copy, Debug, PartialEq, Eq, Structural)]
pub struct AppHarness {
    /// The loop's control state.
    pub state: LoopState,
    /// The surface model: negotiated format and applied configuration.
    pub surface: PresentationSurface,
    /// The pipeline; its color target format equals the surface's format.
    pub pipeline: RenderPipelineState,
    /// Whether frames draw the triangle or only clear.
    pub draw_triangle: bool,
}

impl AppHarness {
    /// Well-formedness: the pipeline's single color target has the
    /// surface's negotiated format. Both are fixed at construction and
    /// neither ever changes, so every operation preserves this.
    pub open spec fn wf(self) -> bool {
        self.pipeline.target_format == self.surface.format
    }

    /// All the set-up decisions in one place: negotiate the format from
    /// the backend's candidates, build the pipeline for exactly that
    /// format, and configure the surface for the window's extent right
    /// away — some backends refuse to acquire before a first
    /// configuration. Returns the harness and whether negotiation fell
    /// back to a gamma-encoding format, which the caller logs as a
    /// warning.
    pub fn new(formats: &Vec<SurfaceFormat>, window: Extent, draw_triangle: bool) -> (r: (
        AppHarness,
        bool,
    ))
        requires
            formats.len() > 0,
            window.is_drawable(),
        ensures
            r.0.wf(),
            r.0.state is Running,
            r.0.surface.format == chosen_format(formats@),
            r.0.surface.config == Some(window),
            r.0.draw_triangle == draw_triangle,
            r.1 == !has_non_srgb(formats@),
    {
        let choice: FormatChoice = pick_surface_format(formats);
        let mut surface = PresentationSurface::new(choice.format);
        surface.configure(window);
        let pipeline = RenderPipelineState::build(choice.format);
        let harness = AppHarness { state: LoopState::Running, surface, pipeline, draw_triangle };
        (harness, choice.fallback)
    }

    /// The pump-phase decision: once the window reports closed or the quit
    /// key is observed — or the loop had already left `Running` — the
    /// state becomes `Exiting` and stays there; the caller must then stop
    /// without drawing or presenting. Nothing else changes.
    pub fn observe(&mut self, obs: WindowObservation) -> (stop: bool)
        ensures
            final(self).surface == old(self).surface,
            final(self).pipeline == old(self).pipeline,
            final(self).draw_triangle == old(self).draw_triangle,
            final(self).state == if old(self).state is Exiting || should_exit(obs) {
                LoopState::Exiting
            } else {
                LoopState::Running
            },
            stop == (final(self).state is Exiting),
    {
        let was_exiting = match self.state {
            LoopState::Exiting => true,
            LoopState::Running => false,
        };
        if was_exiting || !obs.open || obs.quit_requested {
            self.state = LoopState::Exiting;
            true
        } else {
            self.state = LoopState::Running;
            false
        }
    }

    /// The frame-phase decision: given the acquisition result the backend
    /// returned, apply the failure policy — retry on timeout, reconfigure
    /// from the window's extent when outdated, log and skip when lost,
    /// terminate when out of memory — or, on success, hand back the
    /// frame's exact command stream to replay.
    pub fn handle_acquisition(
        &mut self,
        result: &Result<FrameImage, AcquireError>,
        window: Extent,
    ) -> (d: FrameDirective)
        requires
            old(self).state is Running,
            old(self).wf(),
            old(self).surface.is_configured(),
            window.is_drawable(),
        ensures
            final(self).wf(),
            final(self).state is Running,
            final(self).pipeline == old(self).pipeline,
            final(self).draw_triangle == old(self).draw_triangle,
            final(self).surface.format == old(self).surface.format,
            final(self).surface.is_configured(),
            result is Ok ==> final(self).surface == old(self).surface && (
            d matches FrameDirective::Render { commands } && commands@ == frame_trace(
                old(self).pipeline.target_format,
                old(self).draw_triangle,
            )),
            result matches Err(e) ==> directive_follows(d, failure_policy(*e)),
            result == Err::<FrameImage, AcquireError>(AcquireError::Outdated) ==> d == (
            FrameDirective::Reconfigure { window }) && final(self).surface.config == Some(window),
            result matches Err(e) && !(*e is Outdated) ==> final(self).surface == old(self).surface,
    {
        match result {
            Ok(_image) => {
                let commands = record_frame(&self.pipeline, self.draw_triangle);
                FrameDirective::Render { commands }
            },
            Err(e) => {
                let action = crate::frame::acquire_failure_action(e);
                match action {
                    FrameAction::SkipRetry => FrameDirective::Skip { log_error: false },
                    FrameAction::SkipLog => FrameDirective::Skip { log_error: true },
                    FrameAction::SkipReconfigureRetry => {
                        self.surface.configure(window);
                        FrameDirective::Reconfigure { window }
                    },
                    FrameAction::FatalTerminate => FrameDirective::Abort,
                }
            },
        }
    }

    /// One whole iteration of the loop against the modeled backend: the
    /// pump-phase decision on `obs`, then — only while still running —
    /// the modeled acquisition under `cond` and its handling. Both
    /// execution models iterate exactly this; the quit conditions stop the
    /// loop before anything is drawn or presented.
    pub fn advance(&mut self, obs: WindowObservation, cond: DeviceCondition) -> (out:
        IterationOutcome)
        requires
            old(self).wf(),
            old(self).surface.is_configured(),
            obs.size.is_drawable(),
        ensures
            final(self).wf(),
            final(self).surface.is_configured(),
            final(self).pipeline == old(self).pipeline,
            final(self).draw_triangle == old(self).draw_triangle,
            final(self).surface.format == old(self).surface.format,
            old(self).state is Exiting || should_exit(obs) ==> out is Stopped && final(self).state
                is Exiting && final(self).surface == old(self).surface,
            !(old(self).state is Exiting || should_exit(obs)) ==> final(self).state is Running && {
                let r = old(self).surface.acquire_outcome(obs.size, cond);
                match r {
                    Ok(_) => final(self).surface == old(self).surface && (
                    out matches IterationOutcome::Rendered { commands } && commands@ == frame_trace(
                        old(self).pipeline.target_format,
                        old(self).draw_triangle,
                    )),
                    Err(AcquireError::Timeout) => out == (IterationOutcome::Skipped {
                        log_error: false,
                    }) && final(self).surface == old(self).surface,
                    Err(AcquireError::Lost) => out == (IterationOutcome::Skipped {
                        log_error: true,
                    }) && final(self).surface == old(self).surface,
                    Err(AcquireError::Outdated) => out is Reconfigured && final(self).surface.config
                        == Some(obs.size),
                    Err(AcquireError::OutOfMemory) => out is Aborted && final(self).surface
                        == old(self).surface,
                }
            },
    {
        let stop = self.observe(obs);
        if stop {
            return IterationOutcome::Stopped;
        }
        let result = self.surface.acquire_next_image(obs.size, cond);
        let directive = self.handle_acquisition(&result, obs.size);
        match directive {
            FrameDirective::Render { commands } => IterationOutcome::Rendered { commands },
            FrameDirective::Skip { log_error } => IterationOutcome::Skipped { log_error },
            FrameDirective::Reconfigure { window: _ } => IterationOutcome::Reconfigured,
            FrameDirective::Abort => IterationOutcome::Aborted,
        }
    }
}

} // verus!
