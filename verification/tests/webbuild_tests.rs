//! Tests for the web-build pipeline planning and for the teardown
//! ordering of the window and its surface.

use render_harness::lifecycle::{OwnedResource, ResourceOwner};
use render_harness::webbuild::{
    build_plan, check_tools, missing_tools, required_tools, BuildOptions, BuildStep, BuildTool,
    ToolProbe,
};

fn probe(tool: BuildTool, found: bool) -> ToolProbe {
    ToolProbe { tool, found }
}

#[test]
fn serving_run_needs_both_tools() {
    assert_eq!(
        required_tools(false),
        vec![BuildTool::WasmBindgenCli, BuildTool::SimpleHttpServer]
    );
}

#[test]
fn build_only_run_needs_only_bindgen() {
    assert_eq!(required_tools(true), vec![BuildTool::WasmBindgenCli]);
}

#[test]
fn missing_tools_keep_probe_order() {
    let probes = vec![
        probe(BuildTool::SimpleHttpServer, false),
        probe(BuildTool::WasmBindgenCli, false),
    ];
    assert_eq!(
        missing_tools(&probes),
        vec![BuildTool::SimpleHttpServer, BuildTool::WasmBindgenCli]
    );
}

#[test]
fn all_tools_found_passes_the_check() {
    let probes = vec![
        probe(BuildTool::WasmBindgenCli, true),
        probe(BuildTool::SimpleHttpServer, true),
    ];
    assert_eq!(check_tools(&probes), Ok(()));
}

#[test]
fn one_missing_tool_fails_the_check() {
    let probes = vec![
        probe(BuildTool::WasmBindgenCli, true),
        probe(BuildTool::SimpleHttpServer, false),
    ];
    assert_eq!(check_tools(&probes), Err(vec![BuildTool::SimpleHttpServer]));
}

#[test]
fn no_probes_passes_the_check() {
    assert_eq!(check_tools(&Vec::new()), Ok(()));
}

#[test]
fn default_plan_builds_maps_copies_and_serves() {
    let opts = BuildOptions { release: false, no_serve: false, no_source_map: false };
    assert_eq!(
        build_plan(opts),
        vec![
            BuildStep::CompileWasm { release: false },
            BuildStep::Bindgen { keep_debug: true, release: false },
            BuildStep::WriteSourceMap,
            BuildStep::CopyStaticAssets,
            BuildStep::Serve,
        ]
    );
}

#[test]
fn release_no_serve_plan_stops_after_copying() {
    let opts = BuildOptions { release: true, no_serve: true, no_source_map: false };
    assert_eq!(
        build_plan(opts),
        vec![
            BuildStep::CompileWasm { release: true },
            BuildStep::Bindgen { keep_debug: true, release: true },
            BuildStep::WriteSourceMap,
            BuildStep::CopyStaticAssets,
        ]
    );
}

#[test]
fn no_source_map_plan_strips_debug_data() {
    let opts = BuildOptions { release: false, no_serve: false, no_source_map: true };
    assert_eq!(
        build_plan(opts),
        vec![
            BuildStep::CompileWasm { release: false },
            BuildStep::Bindgen { keep_debug: false, release: false },
            BuildStep::CopyStaticAssets,
            BuildStep::Serve,
        ]
    );
}

#[test]
fn fully_trimmed_plan_only_builds() {
    let opts = BuildOptions { release: true, no_serve: true, no_source_map: true };
    assert_eq!(
        build_plan(opts),
        vec![
            BuildStep::CompileWasm { release: true },
            BuildStep::Bindgen { keep_debug: false, release: true },
            BuildStep::CopyStaticAssets,
        ]
    );
}

#[test]
fn teardown_destroys_surface_before_window() {
    let mut owner = ResourceOwner::with_window();
    owner.bind_surface();
    let order = owner.teardown();
    assert_eq!(order, vec![OwnedResource::Surface, OwnedResource::Window]);
    assert!(!owner.window_alive);
    assert!(!owner.surface_alive);
}

#[test]
fn teardown_without_surface_only_drops_window() {
    let mut owner = ResourceOwner::with_window();
    let order = owner.teardown();
    assert_eq!(order, vec![OwnedResource::Window]);
}

#[test]
fn teardown_is_idempotent() {
    let mut owner = ResourceOwner::with_window();
    owner.bind_surface();
    owner.teardown();
    let again = owner.teardown();
    assert!(again.is_empty());
}

#[test]
fn surface_can_be_rebound_after_release() {
    let mut owner = ResourceOwner::with_window();
    owner.bind_surface();
    owner.release_surface();
    assert!(owner.window_alive);
    assert!(!owner.surface_alive);
    owner.bind_surface();
    assert!(owner.surface_alive);
}
