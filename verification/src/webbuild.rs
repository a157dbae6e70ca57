//! Planning the developer pipeline that builds and serves the web variant.
//!
//! The pipeline compiles the application for the browser, post-processes
//! the binary for loading, optionally writes a debug sourcemap, copies the
//! static assets verbatim, and optionally serves the output locally with
//! the cross-origin isolation headers the in-browser GPU API requires.
//! Which external tools it needs, which of them are missing, and which
//! steps run with which flags are decisions; they are made and proved
//! here, and the caller executes the resulting plan step by step, failing
//! on the first step that fails.

use vstd::prelude::*;

verus! {

/// An external tool the pipeline invokes.
#[derive(Clone, Copy, Debug, PartialEq, Eq, Structural)]
pub enum BuildTool {
    /// Post-processes the compiled binary for browser loading.
    WasmBindgenCli,
    /// Serves the output directory locally.
    SimpleHttpServer,
}

/// The result of probing one tool's availability.
#[derive(Clone, Copy, Debug, PartialEq, Eq, Structural)]
pub struct ToolProbe {
    /// The tool that was probed.
    pub tool: BuildTool,
    /// Whether invoking it succeeded.
    pub found: bool,
}

/// The caller's choices for one pipeline run.
#[derive(Clone, Copy, Debug, PartialEq, Eq, Structural)]
pub struct BuildOptions {
    /// Compile with optimizations.
    pub release: bool,
    /// Only build the output files; do not serve them.
    pub no_serve: bool,
    /// Skip the debug sourcemap, and strip debug data when post-processing.
    pub no_source_map: bool,
}

/// One step of the pipeline, in the order the plan lists them.
#[derive(Clone, Copy, Debug, PartialEq, Eq, Structural)]
pub enum BuildStep {
    /// Compile the application for the browser target.
    CompileWasm {
        /// Compile with optimizations.
        release: bool,
    },
    /// Post-process the compiled binary for browser loading.
    Bindgen {
        /// Keep debug data so a sourcemap can be derived.
        keep_debug: bool,
        /// Take the binary from the optimized output directory.
        release: bool,
    },
    /// Derive and write the debug sourcemap next to the binary.
    WriteSourceMap,
    /// Copy the static assets verbatim into the served output directory.
    CopyStaticAssets,
    /// Serve the output directory locally, with cross-origin isolation
    /// headers; never returns while serving.
    Serve,
}

/// The tools a run with the given choices needs: post-processing always,
/// the local server only when the result is served.
pub open spec fn required_tools_spec(no_serve: bool) -> Seq<BuildTool> {
    if no_serve {
        seq![BuildTool::WasmBindgenCli]
    } else {
        seq![BuildTool::WasmBindgenCli, BuildTool::SimpleHttpServer]
    }
}

/// The tools whose probes failed, in probe order.
pub open spec fn missing_of(probes: Seq<ToolProbe>) -> Seq<BuildTool>
    decreases probes.len(),
{
    if probes.len() == 0 {
        Seq::empty()
    } else {
        missing_of(probes.drop_last()) + if !probes.last().found {
            seq![probes.last().tool]
        } else {
            Seq::empty()
        }
    }
}

/// The exact plan for one run: compile, post-process (keeping debug data
/// exactly when a sourcemap is wanted), the sourcemap step exactly when
/// wanted, the asset copy, and the serve step exactly when serving.
pub open spec fn build_plan_spec(opts: BuildOptions) -> Seq<BuildStep> {
    seq![
        BuildStep::CompileWasm { release: opts.release },
        BuildStep::Bindgen { keep_debug: !opts.no_source_map, release: opts.release },
    ] + if opts.no_source_map {
        Seq::<BuildStep>::empty()
    } else {
        seq![BuildStep::WriteSourceMap]
    } + seq![BuildStep::CopyStaticAssets] + if opts.no_serve {
        Seq::<BuildStep>::empty()
    } else {
        seq![BuildStep::Serve]
    }
}

/// List the tools the run needs.
pub fn required_tools(no_serve: bool) -> (tools: Vec<BuildTool>)
    ensures
        tools@ == required_tools_spec(no_serve),
{
    let mut tools: Vec<BuildTool> = Vec::new();
    tools.push(BuildTool::WasmBindgenCli);
    if !no_serve {
        tools.push(BuildTool::SimpleHttpServer);
    }
    proof {
        assert(tools@ =~= required_tools_spec(no_serve));
    }
    tools
}

/// Collect the tools whose probes failed, keeping probe order.
pub fn missing_tools(probes: &Vec<ToolProbe>) -> (missing: Vec<BuildTool>)
    ensures
        missing@ == missing_of(probes@),
{
    let mut missing: Vec<BuildTool> = Vec::new();
    let mut k: usize = 0;
    while k < probes.len()
        invariant
            0 <= k <= probes.len(),
            missing@ == missing_of(probes@.subrange(0, k as int)),
        decreases probes.len() - k,
    {
        let probe = probes[k];
        if !probe.found {
            missing.push(probe.tool);
        }
        proof {
            let prefix = probes@.subrange(0, k as int + 1);
            assert(prefix.drop_last() =~= probes@.subrange(0, k as int));
            assert(prefix.last() == probes@[k as int]);
        }
        k += 1;
    }
    proof {
        assert(probes@.subrange(0, probes@.len() as int) =~= probes@);
    }
    missing
}

/// Decide whether the run may proceed: it may exactly when no required
/// tool is missing; otherwise the missing tools are reported, in probe
/// order, and the caller fails without running any step.
pub fn check_tools(probes: &Vec<ToolProbe>) -> (r: Result<(), Vec<BuildTool>>)
    ensures
        r is Ok <==> missing_of(probes@).len() == 0,
        r matches Err(missing) ==> missing@ == missing_of(probes@),
{
    let missing = missing_tools(probes);
    if missing.len() == 0 {
        proof {
            assert(missing_of(probes@).len() == 0);
        }
        Ok(())
    } else {
        Err(missing)
    }
}

/// Lay out the steps for one run with the given choices.
pub fn build_plan(opts: BuildOptions) -> (steps: Vec<BuildStep>)
    ensures
        steps@ == build_plan_spec(opts),
{
    let mut steps: Vec<BuildStep> = Vec::new();
    steps.push(BuildStep::CompileWasm { release: opts.release });
    steps.push(BuildStep::Bindgen { keep_debug: !opts.no_source_map, release: opts.release });
    if !opts.no_source_map {
        steps.push(BuildStep::WriteSourceMap);
    }
    steps.push(BuildStep::CopyStaticAssets);
    if !opts.no_serve {
        steps.push(BuildStep::Serve);
    }
    proof {
        assert(steps@ =~= build_plan_spec(opts));
    }
    steps
}

/// A probed tool is reported missing if and only if some probe of it
/// failed; the report never invents a missing tool and never passes over
/// one.
pub proof fn lemma_missing_tools_exact(probes: Seq<ToolProbe>, t: BuildTool)
    ensures
        missing_of(probes).contains(t) <==> exists|i: int|
            0 <= i < probes.len() && probes[i].tool == t && !probes[i].found,
    decreases probes.len(),
{
    if probes.len() > 0 {
        lemma_missing_tools_exact(probes.drop_last(), t);
        let prefix = probes.drop_last();
        if missing_of(probes).contains(t) {
            if missing_of(prefix).contains(t) {
                let i = choose|i: int|
                    0 <= i < prefix.len() && prefix[i].tool == t && !prefix[i].found;
                assert(probes[i].tool == t && !probes[i].found);
            } else {
                assert(probes.last().tool == t && !probes.last().found);
                assert(probes[probes.len() - 1].tool == t && !probes[probes.len() - 1].found);
            }
        }
        if exists|i: int| 0 <= i < probes.len() && probes[i].tool == t && !probes[i].found {
            let i = choose|i: int|
                0 <= i < probes.len() && probes[i].tool == t && !probes[i].found;
            if i < probes.len() - 1 {
                assert(prefix[i].tool == t && !prefix[i].found);
                assert(missing_of(prefix).contains(t));
                let j = choose|j: int| 0 <= j < missing_of(prefix).len() && missing_of(prefix)[j] == t;
                assert(missing_of(probes)[j] == t);
            } else {
                assert(missing_of(probes).last() == t);
            }
        }
    }
}

} // verus!
