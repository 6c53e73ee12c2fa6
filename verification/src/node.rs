//! The render-graph node: what it does for one view in one frame.

use vstd::prelude::*;
use crate::format::OutputFormat;
use crate::frame::angle_for;
use crate::frame::is_frame_update;
use crate::frame::updated;
use crate::frame::CameraView;
use crate::pipeline::RainGlarePipeline;
use crate::registry::SettingsRegistry;
use crate::settings::PACKED_SIZE;
use crate::uniforms::ComponentUniforms;

verus! {

/// Vertices of the one draw: a full-screen triangle.
pub const VERTEX_COUNT: u32 = 3;

/// Instances of the one draw.
pub const INSTANCE_COUNT: u32 = 1;

/// One of the two main textures a view renders into in turn.
#[derive(Clone, Copy, Debug, PartialEq, Eq, Structural)]
pub enum MainTexture {
    A,
    B,
}

impl MainTexture {
    /// The other of the two textures.
    pub open spec fn spec_other(self) -> MainTexture {
        match self {
            MainTexture::A => MainTexture::B,
            MainTexture::B => MainTexture::A,
        }
    }

    /// The other of the two textures.
    #[verifier::when_used_as_spec(spec_other)]
    pub fn other(self) -> (t: MainTexture)
        ensures
            t == self.spec_other(),
    {
        match self {
            MainTexture::A => MainTexture::B,
            MainTexture::B => MainTexture::A,
        }
    }
}

/// The textures of one post-processing write.
#[derive(Clone, Copy, Debug, PartialEq, Eq, Structural)]
pub struct PostProcessWrite {
    /// The texture that holds the image so far.
    pub source: MainTexture,
    /// The texture the pass writes; later stages read it as their source.
    pub destination: MainTexture,
}

/// A view's render target: its color format and which of its two main
/// textures holds the image so far.
#[derive(Clone, Copy, Debug, PartialEq, Eq, Structural)]
pub struct ViewTarget {
    pub format: OutputFormat,
    pub main_texture: MainTexture,
}

impl ViewTarget {
    /// A target of the given format whose image so far is in texture A.
    pub fn new(format: OutputFormat) -> (target: ViewTarget)
        ensures
            target == (ViewTarget { format, main_texture: MainTexture::A }),
    {
        ViewTarget { format, main_texture: MainTexture::A }
    }

    /// The color format of the main textures.
    pub fn main_texture_format(&self) -> (format: OutputFormat)
        ensures
            format == self.format,
    {
        self.format
    }

    /// This target after one post-processing write.
    pub open spec fn flipped(self) -> ViewTarget {
        ViewTarget { format: self.format, main_texture: self.main_texture.spec_other() }
    }

    /// Starts a post-processing write: the current main texture is the
    /// source, the other one the destination, and the destination is the main
    /// texture from now on.
    pub fn post_process_write(&mut self) -> (write: PostProcessWrite)
        ensures
            write.source == old(self).main_texture,
            write.destination == old(self).main_texture.spec_other(),
            *final(self) == old(self).flipped(),
    {
        let source = self.main_texture;
        let destination = source.other();
        self.main_texture = destination;
        PostProcessWrite { source, destination }
    }
}

/// How a render pass loads and stores its color attachment.
#[derive(Clone, Copy, Debug, PartialEq, Eq, Structural)]
pub enum AttachmentOps {
    /// The engine's default operations.
    Default,
}

/// The one draw of a view: a render pass whose only attachment is
/// `destination`, the pipeline, a bind group of `source`, the shared sampler
/// and `uniform_size` bytes of the uniform buffer at `dynamic_offset`, then
/// `vertices` vertices in `instances` instances without a vertex buffer.
#[derive(Clone, Copy, Debug, PartialEq, Eq, Structural)]
pub struct DrawCommand {
    pub pipeline: usize,
    pub source: MainTexture,
    pub destination: MainTexture,
    pub ops: AttachmentOps,
    /// Whether the pass has a depth or stencil attachment.
    pub depth_stencil: bool,
    pub uniform_size: u64,
    pub dynamic_offset: u32,
    pub vertices: u32,
    pub instances: u32,
}

/// What the node does for a view in a frame.
#[derive(Clone, Copy, Debug, PartialEq, Eq, Structural)]
pub enum NodeOutcome {
    /// Nothing is drawn and the view is left as it was.
    Skip,
    /// Exactly this draw is issued.
    Draw(DrawCommand),
}

/// The outcome for camera `view`: a draw where the view's format has a
/// pipeline, the engine has that pipeline ready, and the camera has a slot
/// in this frame's uniforms; otherwise a skip.
pub open spec fn spec_run(
    view: u64,
    target: ViewTarget,
    pipeline: &RainGlarePipeline,
    ready: Seq<usize>,
    uniforms: &ComponentUniforms,
) -> NodeOutcome {
    if pipeline@.contains_key(target.format) && ready.contains(pipeline@[target.format])
        && uniforms.spec_index(view) is Some {
        NodeOutcome::Draw(
            DrawCommand {
                pipeline: pipeline@[target.format],
                source: target.main_texture,
                destination: target.main_texture.spec_other(),
                ops: AttachmentOps::Default,
                depth_stencil: false,
                uniform_size: PACKED_SIZE as u64,
                dynamic_offset: uniforms.spec_index(view).unwrap(),
                vertices: VERTEX_COUNT,
                instances: INSTANCE_COUNT,
            },
        )
    } else {
        NodeOutcome::Skip
    }
}

/// Whether `id` is among `ready`.
fn is_ready(ready: &Vec<usize>, id: usize) -> (found: bool)
    ensures
        found == ready@.contains(id),
{
    let mut i: usize = 0;
    while i < ready.len()
        invariant
            i <= ready@.len(),
            forall|k: int| 0 <= k < i ==> ready@[k] != id,
        decreases ready@.len() - i,
    {
        if ready[i] == id {
            return true;
        }
        i += 1;
    }
    false
}

/// The node that runs the effect once per view per frame.
#[derive(Clone, Copy, Debug, Default)]
pub struct RainGlareNode;

impl RainGlareNode {
    /// Decides what to do for camera `view` this frame. `ready` lists the
    /// pipelines the engine has finished compiling. On a draw the target's
    /// destination texture becomes its main texture; on a skip the target is
    /// untouched.
    pub fn run(
        &self,
        view: u64,
        target: &mut ViewTarget,
        pipeline: &RainGlarePipeline,
        ready: &Vec<usize>,
        uniforms: &ComponentUniforms,
    ) -> (outcome: NodeOutcome)
        requires
            uniforms.wf(),
        ensures
            outcome == spec_run(view, *old(target), pipeline, ready@, uniforms),
            *final(target) == match outcome {
                NodeOutcome::Draw(_) => old(target).flipped(),
                NodeOutcome::Skip => *old(target),
            },
            pipeline.wf() && !old(target).format.is_supported() ==> outcome == NodeOutcome::Skip,
    {
        let pipeline_id = match pipeline.pipeline_for_format(target.main_texture_format()) {
            Some(id) => id,
            None => {
                return NodeOutcome::Skip;
            },
        };
        if !is_ready(ready, pipeline_id) {
            return NodeOutcome::Skip;
        }
        let dynamic_offset = match uniforms.index(view) {
            Some(offset) => offset,
            None => {
                return NodeOutcome::Skip;
            },
        };
        let write = target.post_process_write();
        NodeOutcome::Draw(
            DrawCommand {
                pipeline: pipeline_id,
                source: write.source,
                destination: write.destination,
                ops: AttachmentOps::Default,
                depth_stencil: false,
                uniform_size: PACKED_SIZE as u64,
                dynamic_offset,
                vertices: VERTEX_COUNT,
                instances: INSTANCE_COUNT,
            },
        )
    }
}

/// A view whose format has no pipeline is never drawn to.
pub proof fn lemma_unsupported_format_is_skipped(
    view: u64,
    target: ViewTarget,
    pipeline: &RainGlarePipeline,
    ready: Seq<usize>,
    uniforms: &ComponentUniforms,
)
    requires
        pipeline.wf(),
        !target.format.is_supported(),
    ensures
        !pipeline@.contains_key(target.format),
        spec_run(view, target, pipeline, ready, uniforms) == NodeOutcome::Skip,
{
}

/// Once the engine has every queued pipeline ready, a view of a supported
/// format whose camera has a slot is drawn, with the pipeline of its format
/// and at its own offset.
pub proof fn lemma_ready_view_is_drawn(
    view: u64,
    target: ViewTarget,
    pipeline: &RainGlarePipeline,
    ready: Seq<usize>,
    uniforms: &ComponentUniforms,
)
    requires
        pipeline.wf(),
        target.format.is_supported(),
        forall|f: OutputFormat| pipeline@.contains_key(f) ==> ready.contains(#[trigger] pipeline@[f]),
        uniforms.spec_index(view) is Some,
    ensures
        pipeline@.contains_key(target.format),
        ready.contains(pipeline@[target.format]),
        spec_run(view, target, pipeline, ready, uniforms) matches NodeOutcome::Draw(draw)
            && draw.pipeline == pipeline@[target.format] && draw.dynamic_offset
            == uniforms.spec_index(view).unwrap() && draw.vertices == 3 && draw.instances == 1,
{
}

/// No frame of lag: where the node draws for a camera from the snapshot of
/// a registry, the record bound at the draw's offset is the record the
/// camera had in the registry when the snapshot was taken.
pub proof fn lemma_draw_reads_current_settings(
    view: u64,
    target: ViewTarget,
    pipeline: &RainGlarePipeline,
    ready: Seq<usize>,
    uniforms: &ComponentUniforms,
    registry: &SettingsRegistry,
    alignment: u32,
)
    requires
        registry.wf(),
        uniforms.wf(),
        uniforms.is_snapshot_of(registry, alignment),
        spec_run(view, target, pipeline, ready, uniforms) is Draw,
    ensures
        registry.spec_get(view) is Some,
        uniforms.spec_read(spec_run(view, target, pipeline, ready, uniforms)->Draw_0.dynamic_offset)
            == registry.spec_get(view),
{
    uniforms.lemma_snapshot_is_current(registry, alignment, view);
}

/// Update, snapshot, draw, in that order within one frame: the record bound
/// at a draw's offset is the camera's record with this frame's clock reading
/// and view angle factor already in it.
pub proof fn lemma_draw_reads_this_frames_update(
    view: u64,
    target: ViewTarget,
    pipeline: &RainGlarePipeline,
    ready: Seq<usize>,
    uniforms: &ComponentUniforms,
    before: &SettingsRegistry,
    after: &SettingsRegistry,
    elapsed: u32,
    cameras: Seq<CameraView>,
    alignment: u32,
)
    requires
        before.wf(),
        after.wf(),
        is_frame_update(before, after, elapsed, cameras),
        uniforms.wf(),
        uniforms.is_snapshot_of(after, alignment),
        spec_run(view, target, pipeline, ready, uniforms) is Draw,
    ensures
        before.spec_get(view) is Some,
        uniforms.spec_read(spec_run(view, target, pipeline, ready, uniforms)->Draw_0.dynamic_offset)
            == Some(updated(before.spec_get(view).unwrap(), elapsed, angle_for(cameras, view))),
{
    uniforms.lemma_snapshot_is_current(after, alignment, view);
    let i = after.ids().index_of(view);
    assert(after.ids()[i] == view);
    assert(after.records()[i] == updated(
        before.records()[i],
        elapsed,
        angle_for(cameras, before.ids()[i]),
    ));
}

} // verus!
