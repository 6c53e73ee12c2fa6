//! The per-format pipeline table and the descriptors it is built from.

use vstd::prelude::*;
use crate::format::OutputFormat;
use crate::settings::PACKED_SIZE;

verus! {

/// Identifies the effect's shader program among the engine's assets.
pub const RAIN_GLARE_SHADER_HANDLE: u128 = 0xA6D4_91D1_D6C3_44FD_821D_A4A6_9B0A_9B11;

/// The shader stage a binding is visible to.
#[derive(Clone, Copy, Debug, PartialEq, Eq, Structural)]
pub enum ShaderStage {
    Vertex,
    Fragment,
}

/// What a slot of the bind group holds.
#[derive(Clone, Copy, Debug, PartialEq, Eq, Structural)]
pub enum BindingKind {
    /// A 2D color texture, sampled as floats.
    Texture2d { filterable: bool },
    /// A sampler.
    Sampler { filtering: bool },
    /// A uniform buffer of at least `min_size` bytes.
    UniformBuffer { has_dynamic_offset: bool, min_size: u64 },
}

/// One slot of the bind group layout.
#[derive(Clone, Copy, Debug, PartialEq, Eq, Structural)]
pub struct LayoutEntry {
    pub binding: u32,
    pub visibility: ShaderStage,
    pub kind: BindingKind,
}

/// How the vertex stage gets its vertices.
#[derive(Clone, Copy, Debug, PartialEq, Eq, Structural)]
pub enum VertexStage {
    /// One triangle covering the screen, made from the vertex index alone.
    FullscreenTriangle,
}

/// The single color target a pipeline writes.
#[derive(Clone, Copy, Debug, PartialEq, Eq, Structural)]
pub struct ColorTarget {
    pub format: OutputFormat,
    /// Whether the output is blended with what the target holds.
    pub blend: bool,
    /// Whether all four channels are written.
    pub write_all: bool,
}

/// What is handed to the engine to have one pipeline compiled.
#[derive(Debug)]
pub struct PipelineDescriptor {
    pub layout: Vec<LayoutEntry>,
    pub vertex: VertexStage,
    /// The shader program of the fragment stage.
    pub fragment_shader: u128,
    pub target: ColorTarget,
    pub depth_stencil: bool,
}

/// The three bindings every pipeline of the effect shares: the source color
/// texture, its sampler, and one packed record at a dynamic offset.
pub open spec fn spec_bind_group_layout() -> Seq<LayoutEntry> {
    seq![
        LayoutEntry {
            binding: 0,
            visibility: ShaderStage::Fragment,
            kind: BindingKind::Texture2d { filterable: true },
        },
        LayoutEntry {
            binding: 1,
            visibility: ShaderStage::Fragment,
            kind: BindingKind::Sampler { filtering: true },
        },
        LayoutEntry {
            binding: 2,
            visibility: ShaderStage::Fragment,
            kind: BindingKind::UniformBuffer { has_dynamic_offset: true, min_size: PACKED_SIZE as u64 },
        },
    ]
}

/// The three bindings every pipeline of the effect shares.
pub fn bind_group_layout() -> (entries: Vec<LayoutEntry>)
    ensures
        entries@ == spec_bind_group_layout(),
{
    let mut entries: Vec<LayoutEntry> = Vec::new();
    entries.push(
        LayoutEntry {
            binding: 0,
            visibility: ShaderStage::Fragment,
            kind: BindingKind::Texture2d { filterable: true },
        },
    );
    entries.push(
        LayoutEntry {
            binding: 1,
            visibility: ShaderStage::Fragment,
            kind: BindingKind::Sampler { filtering: true },
        },
    );
    entries.push(
        LayoutEntry {
            binding: 2,
            visibility: ShaderStage::Fragment,
            kind: BindingKind::UniformBuffer { has_dynamic_offset: true, min_size: PACKED_SIZE as u64 },
        },
    );
    assert(entries@ =~= spec_bind_group_layout());
    entries
}

/// The pipeline to queue for `format`: the shared layout, the full-screen
/// triangle, the effect's fragment shader, and one unblended color target of
/// that format, with no depth or stencil.
pub fn pipeline_descriptor(format: OutputFormat) -> (d: PipelineDescriptor)
    ensures
        d.layout@ == spec_bind_group_layout(),
        d.vertex == VertexStage::FullscreenTriangle,
        d.fragment_shader == RAIN_GLARE_SHADER_HANDLE,
        d.target == (ColorTarget { format, blend: false, write_all: true }),
        !d.depth_stencil,
{
    PipelineDescriptor {
        layout: bind_group_layout(),
        vertex: VertexStage::FullscreenTriangle,
        fragment_shader: RAIN_GLARE_SHADER_HANDLE,
        target: ColorTarget { format, blend: false, write_all: true },
        depth_stencil: false,
    }
}

/// A `bevy::utils::HashMap` from format code to pipeline id. The map's type
/// has an allocator parameter that cannot be named from outside its crate,
/// so it is held behind this struct, into which the verifier does not look:
/// `table_entries` names what it holds, and the three functions below state,
/// without proof, what the map's own methods do to it.
#[verifier::external_body]
pub struct FormatTable {
    map: bevy::utils::HashMap<u32, usize>,
}

/// The pairs a table holds.
pub uninterp spec fn table_entries(t: FormatTable) -> Map<u32, usize>;

/// The pairs of a table that holds nothing.
pub open spec fn no_entries() -> Map<u32, usize> {
    Map::empty()
}

/// `bevy::utils::HashMap::new`: a map that holds nothing.
#[verifier::external_body]
fn table_new() -> (table: FormatTable)
    ensures
        table_entries(table) == no_entries(),
{
    FormatTable { map: bevy::utils::HashMap::new() }
}

/// `bevy::utils::HashMap::insert`: afterwards the key maps to the new value
/// and every other key is as before; the value the key had, if any, is
/// returned.
#[verifier::external_body]
fn table_insert(t: &mut FormatTable, code: u32, id: usize) -> (previous: Option<usize>)
    ensures
        table_entries(*final(t)) == table_entries(*old(t)).insert(code, id),
        previous == if table_entries(*old(t)).contains_key(code) {
            Some(table_entries(*old(t))[code])
        } else {
            None
        },
{
    t.map.insert(code, id)
}

/// `bevy::utils::HashMap::get`: the value the key maps to, if the map holds
/// the key.
#[verifier::external_body]
fn table_get(t: &FormatTable, code: u32) -> (found: Option<usize>)
    ensures
        found == if table_entries(*t).contains_key(code) {
            Some(table_entries(*t)[code])
        } else {
            None
        },
{
    t.map.get(&code).copied()
}

/// The shared layout and one queued pipeline per supported format. Built
/// once; nothing changes it afterwards.
pub struct RainGlarePipeline {
    layout: Vec<LayoutEntry>,
    pipelines: FormatTable,
}

impl RainGlarePipeline {
    /// The pipeline id filed under each format.
    pub closed spec fn view(&self) -> Map<OutputFormat, usize> {
        Map::new(
            |f: OutputFormat| table_entries(self.pipelines).contains_key(f.spec_code()),
            |f: OutputFormat| table_entries(self.pipelines)[f.spec_code()],
        )
    }

    /// The bindings the pipelines were queued with.
    pub closed spec fn spec_layout(&self) -> Seq<LayoutEntry> {
        self.layout@
    }

    /// Exactly the supported formats have a pipeline, and the layout is the
    /// shared one.
    pub open spec fn wf(&self) -> bool {
        &&& forall|f: OutputFormat| self@.contains_key(f) <==> f.is_supported()
        &&& self.spec_layout() == spec_bind_group_layout()
    }

    /// Files the ids under which the engine queued the pipeline of the
    /// standard format and that of the HDR format.
    pub fn from_world(standard: usize, hdr: usize) -> (p: RainGlarePipeline)
        ensures
            p.wf(),
            p@ == map![OutputFormat::Standard => standard, OutputFormat::Hdr => hdr],
    {
        let mut pipelines = table_new();
        table_insert(&mut pipelines, OutputFormat::Standard.code(), standard);
        table_insert(&mut pipelines, OutputFormat::Hdr.code(), hdr);
        let p = RainGlarePipeline { layout: bind_group_layout(), pipelines };
        assert(p@ =~= map![OutputFormat::Standard => standard, OutputFormat::Hdr => hdr]);
        p
    }

    /// The id of the pipeline queued for `format`, or `None` for a format no
    /// pipeline was built for. Whether the engine has finished compiling it
    /// is for the caller to ask.
    pub fn pipeline_for_format(&self, format: OutputFormat) -> (id: Option<usize>)
        ensures
            id == if self@.contains_key(format) {
                Some(self@[format])
            } else {
                None
            },
            self.wf() ==> (id.is_some() <==> format.is_supported()),
    {
        table_get(&self.pipelines, format.code())
    }

    /// The bindings the pipelines were queued with.
    pub fn layout(&self) -> (entries: &Vec<LayoutEntry>)
        ensures
            entries@ == self.spec_layout(),
    {
        &self.layout
    }
}

/// Once the engine has compiled every pipeline that was queued, each
/// supported format has a pipeline and that pipeline is compiled.
pub proof fn lemma_supported_format_is_realized(
    pipeline: &RainGlarePipeline,
    ready: Seq<usize>,
    format: OutputFormat,
)
    requires
        pipeline.wf(),
        format.is_supported(),
        forall|f: OutputFormat| pipeline@.contains_key(f) ==> ready.contains(#[trigger] pipeline@[f]),
    ensures
        pipeline@.contains_key(format),
        ready.contains(pipeline@[format]),
{
}

/// A format outside the supported ones has no pipeline.
pub proof fn lemma_unsupported_format_not_found(pipeline: &RainGlarePipeline, format: OutputFormat)
    requires
        pipeline.wf(),
        !format.is_supported(),
    ensures
        !pipeline@.contains_key(format),
{
}

} // verus!
