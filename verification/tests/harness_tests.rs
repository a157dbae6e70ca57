//! Scenario tests for format negotiation, the surface lifecycle, and the
//! application loop state machine.

use render_harness::app_loop::{AppHarness, FrameDirective, IterationOutcome, WindowObservation};
use render_harness::format::{pick_surface_format, SurfaceFormat};
use render_harness::frame::{
    acquire_failure_action, clear_color, record_frame, Color, FrameAction, RenderCommand,
    RenderPipelineState,
};
use render_harness::surface::{
    AcquireError, DeviceCondition, Extent, FrameImage, PresentationSurface,
};

fn fmt(id: u32, srgb: bool) -> SurfaceFormat {
    SurfaceFormat { id, srgb }
}

#[test]
fn picks_first_non_srgb_format() {
    let formats = vec![fmt(0, true), fmt(1, false), fmt(2, false)];
    let choice = pick_surface_format(&formats);
    assert_eq!(choice.format, fmt(1, false));
    assert!(!choice.fallback);
}

#[test]
fn picks_leading_non_srgb_format() {
    let formats = vec![fmt(7, false), fmt(8, true)];
    let choice = pick_surface_format(&formats);
    assert_eq!(choice.format, fmt(7, false));
    assert!(!choice.fallback);
}

#[test]
fn falls_back_to_first_when_all_srgb() {
    let formats = vec![fmt(3, true), fmt(4, true)];
    let choice = pick_surface_format(&formats);
    assert_eq!(choice.format, fmt(3, true));
    assert!(choice.fallback);
}

#[test]
fn single_candidate_is_chosen() {
    let formats = vec![fmt(0, false)];
    let choice = pick_surface_format(&formats);
    assert_eq!(choice.format, fmt(0, false));
    assert!(!choice.fallback);
}

#[test]
fn configure_then_acquire_is_not_outdated() {
    let mut surface = PresentationSurface::new(fmt(0, false));
    let window = Extent { width: 640, height: 480 };
    surface.configure(window);
    for cond in [
        DeviceCondition::Nominal,
        DeviceCondition::Busy,
        DeviceCondition::Invalidated,
        DeviceCondition::Exhausted,
    ] {
        let r = surface.acquire_next_image(window, cond);
        assert_ne!(r, Err(AcquireError::Outdated));
    }
    assert_eq!(
        surface.acquire_next_image(window, DeviceCondition::Nominal),
        Ok(FrameImage { extent: window })
    );
}

#[test]
fn configure_then_acquire_smallest_window() {
    let mut surface = PresentationSurface::new(fmt(0, false));
    let window = Extent { width: 1, height: 1 };
    surface.configure(window);
    let r = surface.acquire_next_image(window, DeviceCondition::Nominal);
    assert_eq!(r, Ok(FrameImage { extent: window }));
}

#[test]
fn stale_configuration_reports_outdated() {
    let mut surface = PresentationSurface::new(fmt(0, false));
    surface.configure(Extent { width: 640, height: 360 });
    let grown = Extent { width: 1280, height: 720 };
    let r = surface.acquire_next_image(grown, DeviceCondition::Nominal);
    assert_eq!(r, Err(AcquireError::Outdated));
}

#[test]
fn failure_policy_covers_every_class() {
    assert_eq!(
        acquire_failure_action(&AcquireError::Timeout),
        FrameAction::SkipRetry
    );
    assert_eq!(
        acquire_failure_action(&AcquireError::Outdated),
        FrameAction::SkipReconfigureRetry
    );
    assert_eq!(
        acquire_failure_action(&AcquireError::Lost),
        FrameAction::SkipLog
    );
    assert_eq!(
        acquire_failure_action(&AcquireError::OutOfMemory),
        FrameAction::FatalTerminate
    );
}

#[test]
fn resize_outdates_then_reconfigure_succeeds() {
    let formats = vec![fmt(0, false)];
    let (mut harness, warned) =
        AppHarness::new(&formats, Extent { width: 640, height: 360 }, true);
    assert!(!warned);

    let grown = WindowObservation {
        open: true,
        quit_requested: false,
        size: Extent { width: 1280, height: 720 },
    };
    let first = harness.advance(grown, DeviceCondition::Nominal);
    assert_eq!(first, IterationOutcome::Reconfigured);

    let second = harness.advance(grown, DeviceCondition::Nominal);
    assert!(matches!(second, IterationOutcome::Rendered { .. }));
}

#[test]
fn quit_key_stops_the_loop_before_drawing() {
    let formats = vec![fmt(0, false)];
    let window = Extent { width: 640, height: 480 };
    let (mut harness, _) = AppHarness::new(&formats, window, true);

    let quit = WindowObservation { open: true, quit_requested: true, size: window };
    let out = harness.advance(quit, DeviceCondition::Nominal);
    assert_eq!(out, IterationOutcome::Stopped);

    let calm = WindowObservation { open: true, quit_requested: false, size: window };
    let after = harness.advance(calm, DeviceCondition::Nominal);
    assert_eq!(after, IterationOutcome::Stopped);
}

#[test]
fn closed_window_stops_the_loop() {
    let formats = vec![fmt(0, false)];
    let window = Extent { width: 640, height: 480 };
    let (mut harness, _) = AppHarness::new(&formats, window, false);

    let closed = WindowObservation { open: false, quit_requested: false, size: window };
    assert_eq!(
        harness.advance(closed, DeviceCondition::Nominal),
        IterationOutcome::Stopped
    );
}

#[test]
fn timeout_and_lost_skip_one_frame() {
    let formats = vec![fmt(0, false)];
    let window = Extent { width: 640, height: 480 };
    let (mut harness, _) = AppHarness::new(&formats, window, true);
    let obs = WindowObservation { open: true, quit_requested: false, size: window };

    assert_eq!(
        harness.advance(obs, DeviceCondition::Busy),
        IterationOutcome::Skipped { log_error: false }
    );
    assert_eq!(
        harness.advance(obs, DeviceCondition::Invalidated),
        IterationOutcome::Skipped { log_error: true }
    );
    assert!(matches!(
        harness.advance(obs, DeviceCondition::Nominal),
        IterationOutcome::Rendered { .. }
    ));
}

#[test]
fn out_of_memory_aborts() {
    let formats = vec![fmt(0, false)];
    let window = Extent { width: 640, height: 480 };
    let (mut harness, _) = AppHarness::new(&formats, window, true);
    let obs = WindowObservation { open: true, quit_requested: false, size: window };

    assert_eq!(
        harness.advance(obs, DeviceCondition::Exhausted),
        IterationOutcome::Aborted
    );
}

#[test]
fn harness_warns_when_all_formats_srgb() {
    let formats = vec![fmt(0, true), fmt(1, true)];
    let window = Extent { width: 640, height: 480 };
    let (harness, warned) = AppHarness::new(&formats, window, true);
    assert!(warned);
    assert_eq!(harness.surface.format, fmt(0, true));
    assert_eq!(harness.pipeline.target_format, fmt(0, true));
}

#[test]
fn successful_acquisition_renders_one_exact_pass() {
    let formats = vec![fmt(5, false)];
    let window = Extent { width: 640, height: 480 };
    let (mut harness, _) = AppHarness::new(&formats, window, true);
    let result = harness
        .surface
        .acquire_next_image(window, DeviceCondition::Nominal);
    assert!(result.is_ok());

    let directive = harness.handle_acquisition(&result, window);
    let commands = match directive {
        FrameDirective::Render { commands } => commands,
        other => panic!("expected a render directive, got {:?}", other),
    };
    let cornflower = Color { r: 100, g: 149, b: 237, a: 255 };
    assert_eq!(
        commands,
        vec![
            RenderCommand::BeginPass { clear: cornflower },
            RenderCommand::SetPipeline { format: fmt(5, false) },
            RenderCommand::Draw { vertices: 3, instances: 1 },
            RenderCommand::EndPass,
            RenderCommand::Submit,
            RenderCommand::Present,
        ]
    );
    let passes = commands
        .iter()
        .filter(|c| matches!(c, RenderCommand::BeginPass { .. }))
        .count();
    let draws = commands
        .iter()
        .filter(|c| matches!(c, RenderCommand::Draw { .. }))
        .count();
    let submits = commands
        .iter()
        .filter(|c| matches!(c, RenderCommand::Submit))
        .count();
    assert_eq!(passes, 1);
    assert_eq!(draws, 1);
    assert_eq!(submits, 1);
    assert_eq!(commands.last(), Some(&RenderCommand::Present));
}

#[test]
fn clear_only_variant_issues_no_draw_call() {
    let pipeline = RenderPipelineState::build(fmt(2, false));
    let commands = record_frame(&pipeline, false);
    assert_eq!(
        commands,
        vec![
            RenderCommand::BeginPass { clear: clear_color() },
            RenderCommand::EndPass,
            RenderCommand::Submit,
            RenderCommand::Present,
        ]
    );
}

#[test]
fn clear_color_is_cornflower_blue() {
    assert_eq!(clear_color(), Color { r: 100, g: 149, b: 237, a: 255 });
}
