//! The plugin: what enabling the effect does to the render world.

use vstd::prelude::*;
use crate::graph::GraphError;
use crate::graph::RenderGraph;
use crate::graph::spec_add_rain_glare;
use crate::graph::Stage;
use crate::pipeline::RainGlarePipeline;
use crate::format::OutputFormat;

verus! {

/// Wires the rain glare effect into a render graph.
#[derive(Clone, Copy, Debug, Default)]
pub struct RainGlarePlugin;

impl RainGlarePlugin {
    /// Places the effect's node in the graph: after tone mapping, before
    /// the end of post-processing. A graph that cannot take it stays as it
    /// was.
    pub fn build(&self, graph: &mut RenderGraph) -> (r: Result<(), GraphError>)
        requires
            old(graph).wf(),
        ensures
            final(graph).wf(),
            match r {
                Ok(()) => spec_add_rain_glare(old(graph)@) == Ok::<Seq<Stage>, GraphError>(
                    final(graph)@,
                ),
                Err(e) => spec_add_rain_glare(old(graph)@) == Err::<Seq<Stage>, GraphError>(e)
                    && final(graph)@ == old(graph)@,
            },
    {
        graph.add_rain_glare()
    }

    /// Builds the pipeline table once the engine has queued one pipeline
    /// per supported format.
    pub fn finish(&self, standard: usize, hdr: usize) -> (p: RainGlarePipeline)
        ensures
            p.wf(),
            p@ == map![OutputFormat::Standard => standard, OutputFormat::Hdr => hdr],
    {
        RainGlarePipeline::from_world(standard, hdr)
    }
}

} // verus!
