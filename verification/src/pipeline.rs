//! The specialized upsampling pipeline and its variant cache.
//!
//! `UpsamplingPipeline::specialize` builds the full descriptor of the
//! compositing pipeline: a fullscreen-triangle vertex stage, a fragment
//! stage with entry point `upsample` reading a fixed shader, one color
//! target in the fog intermediate format with additive blending, no
//! depth/stencil, and default primitive and multisample state.
//! `SpecializedRenderPipelines` memoizes the built variants by key, so a
//! pipeline is built at most once per distinct key per cache lifetime and
//! every later request for an equal key returns the cached handle.

use crate::render_resource::{BindGroupLayout, BindingType, ShaderStages};
use vstd::prelude::*;

verus! {

/// The texture formats this pass can name.
#[derive(Clone, Copy, Debug, PartialEq, Eq, Structural)]
pub enum TextureFormat {
    Rgba16Float,
    Rgba8UnormSrgb,
}

/// The format of the low-resolution fog intermediate texture, which the
/// compositing pipeline's single color target must match.
pub const FOG_TEXTURE_FORMAT: TextureFormat = TextureFormat::Rgba16Float;

/// Stable 128-bit content-derived reference to the upsampling shader,
/// resolved by the external shader registry; a lookup key only, never an
/// owned resource.
pub const FOG_UPSCALING_SHADER_HANDLE: u128 = 0x14b0e0d8dbeb82cf729f6cc293554932;

/// A source operand of the blend equation.
#[derive(Clone, Copy, Debug, PartialEq, Eq, Structural)]
pub enum BlendFactor {
    Zero,
    One,
    Constant,
}

/// How the two scaled operands of the blend equation are combined.
#[derive(Clone, Copy, Debug, PartialEq, Eq, Structural)]
pub enum BlendOperation {
    Add,
    Subtract,
}

/// One channel of the blend state: `src * src_factor op dst * dst_factor`.
#[derive(Clone, Copy, Debug, PartialEq, Eq, Structural)]
pub struct BlendComponent {
    pub src_factor: BlendFactor,
    pub dst_factor: BlendFactor,
    pub operation: BlendOperation,
}

/// Blend state of a color target, color and alpha channels separately.
#[derive(Clone, Copy, Debug, PartialEq, Eq, Structural)]
pub struct BlendState {
    pub color: BlendComponent,
    pub alpha: BlendComponent,
}

/// Which channels of a color target a draw may write.
#[derive(Clone, Copy, Debug, PartialEq, Eq, Structural)]
pub enum ColorWrites {
    All,
}

/// One color output of the fragment stage.
#[derive(Clone, Copy, Debug, PartialEq, Eq)]
pub struct ColorTargetState {
    pub format: TextureFormat,
    pub blend: Option<BlendState>,
    pub write_mask: ColorWrites,
}

/// The vertex stage of the pipeline. The compositing draw uses the shared
/// fullscreen-triangle stage, which emits a full-viewport triangle without
/// per-vertex input data.
#[derive(Clone, Copy, Debug, PartialEq, Eq, Structural)]
pub enum VertexState {
    FullscreenTriangle,
}

/// The fragment stage of the pipeline.
#[derive(Debug, PartialEq, Eq)]
pub struct FragmentState {
    pub shader: u128,
    pub shader_defs: Vec<String>,
    pub entry_point: String,
    pub targets: Vec<Option<ColorTargetState>>,
}

/// How vertices are assembled into primitives.
#[derive(Clone, Copy, Debug, PartialEq, Eq, Structural)]
pub enum PrimitiveTopology {
    PointList,
    TriangleList,
    TriangleStrip,
}

/// Primitive assembly and rasterization state.
#[derive(Clone, Copy, Debug, PartialEq, Eq, Structural)]
pub struct PrimitiveState {
    pub topology: PrimitiveTopology,
}

impl Default for PrimitiveState {
    /// The default primitive state: a plain triangle list.
    fn default() -> (r: PrimitiveState)
        ensures
            r == (PrimitiveState { topology: PrimitiveTopology::TriangleList }),
    {
        PrimitiveState { topology: PrimitiveTopology::TriangleList }
    }
}

/// Depth/stencil attachment state; the compositing pipeline has none.
#[derive(Clone, Copy, Debug, PartialEq, Eq, Structural)]
pub struct DepthStencilState {
    pub format: TextureFormat,
    pub depth_write_enabled: bool,
}

/// Multisampling state of the pipeline.
#[derive(Clone, Copy, Debug, PartialEq, Eq, Structural)]
pub struct MultisampleState {
    pub count: u32,
    pub alpha_to_coverage_enabled: bool,
}

impl Default for MultisampleState {
    /// The default multisample state: a single sample, no alpha to
    /// coverage.
    fn default() -> (r: MultisampleState)
        ensures
            r == (MultisampleState { count: 1, alpha_to_coverage_enabled: false }),
    {
        MultisampleState { count: 1, alpha_to_coverage_enabled: false }
    }
}

/// A push-constant range; the compositing pipeline declares none.
#[derive(Clone, Copy, Debug, PartialEq, Eq, Structural)]
pub struct PushConstantRange {
    pub stages: ShaderStages,
    pub start: u32,
    pub end: u32,
}

/// A fully configured pipeline descriptor, ready to be queued on the
/// pipeline cache.
#[derive(Debug, PartialEq, Eq)]
pub struct RenderPipelineDescriptor {
    pub label: Option<String>,
    pub layout: Vec<BindGroupLayout>,
    pub vertex: VertexState,
    pub fragment: Option<FragmentState>,
    pub primitive: PrimitiveState,
    pub depth_stencil: Option<DepthStencilState>,
    pub multisample: MultisampleState,
    pub push_constant_ranges: Vec<PushConstantRange>,
}

/// The additive blend state of the compositing draw: the color channel
/// accumulates `src * constant + dst * 1`, the alpha channel keeps the
/// destination alpha (`src * 0 + dst * 1`).
pub open spec fn additive_blend_state() -> BlendState {
    BlendState {
        color: BlendComponent {
            src_factor: BlendFactor::Constant,
            dst_factor: BlendFactor::One,
            operation: BlendOperation::Add,
        },
        alpha: BlendComponent {
            src_factor: BlendFactor::Zero,
            dst_factor: BlendFactor::One,
            operation: BlendOperation::Add,
        },
    }
}

/// The ordered entries of the upsampling bind group layout: the fog
/// texture, a filtering sampler, and the dynamic-offset uniform buffer.
pub open spec fn upsampling_layout_entries() -> Seq<BindingType> {
    seq![
        BindingType::Texture2d { filterable: true },
        BindingType::Sampler { filtering: true },
        BindingType::UniformBuffer { has_dynamic_offset: true },
    ]
}

/// Everything `specialize` promises of the descriptor it builds for a
/// pipeline whose bind group layout is `layout`.
pub open spec fn is_upsampling_descriptor(
    d: RenderPipelineDescriptor,
    layout: BindGroupLayout,
) -> bool {
    &&& d.label is Some
    &&& d.label.unwrap()@ == "fog_upsampling_pipeline"@
    &&& d.layout@.len() == 1
    &&& crate::render_resource::layout_matches(d.layout@[0], layout)
    &&& d.vertex == VertexState::FullscreenTriangle
    &&& d.fragment is Some
    &&& d.fragment.unwrap().shader == FOG_UPSCALING_SHADER_HANDLE
    &&& d.fragment.unwrap().shader_defs@.len() == 0
    &&& d.fragment.unwrap().entry_point@ == "upsample"@
    &&& d.fragment.unwrap().targets@.len() == 1
    &&& d.fragment.unwrap().targets@[0] == Some((ColorTargetState {
        format: FOG_TEXTURE_FORMAT,
        blend: Some(additive_blend_state()),
        write_mask: ColorWrites::All,
    }))
    &&& d.primitive == (PrimitiveState { topology: PrimitiveTopology::TriangleList })
    &&& d.depth_stencil is None
    &&& d.multisample == (MultisampleState { count: 1, alpha_to_coverage_enabled: false })
    &&& d.push_constant_ranges@.len() == 0
}

/// The shared resources of the upsampling pass: its bind group layout.
#[derive(Debug, PartialEq, Eq)]
pub struct UpsamplingPipeline {
    pub bind_group_layout: BindGroupLayout,
}

/// The key identifying one variant of the compositing pipeline. It has a
/// single inhabitant today, but memoization is by key equality so new
/// variation axes extend it without changing the cache.
#[derive(Clone, Copy, Debug, PartialEq, Eq, Hash, Structural)]
pub struct FogUpsamplingPipelineKeys {}

impl UpsamplingPipeline {
    /// Builds the shared state of the pass: the bind group layout with
    /// fragment-stage visibility and the three upsampling bindings, in
    /// order.
    pub fn from_world(render_device: &mut crate::render_resource::RenderDevice) -> (r:
        UpsamplingPipeline)
        requires
            old(render_device).served < u64::MAX,
        ensures
            r.bind_group_layout.visibility == ShaderStages::Fragment,
            r.bind_group_layout.entries@ == upsampling_layout_entries(),
            r.bind_group_layout.id == old(render_device).served,
            final(render_device).served == old(render_device).served + 1,
    {
        let mut entries: Vec<BindingType> = Vec::new();
        entries.push(BindingType::Texture2d { filterable: true });
        entries.push(BindingType::Sampler { filtering: true });
        entries.push(BindingType::UniformBuffer { has_dynamic_offset: true });
        proof {
            assert(entries@ =~= upsampling_layout_entries());
        }
        let bind_group_layout = render_device.create_bind_group_layout(
            ShaderStages::Fragment,
            entries,
        );
        UpsamplingPipeline { bind_group_layout }
    }

    /// Builds the descriptor of the pipeline variant selected by `key`:
    /// fullscreen-triangle vertex stage, fragment entry point `upsample`
    /// on the fixed upsampling shader, one color target in the fog
    /// intermediate format with additive blending, no depth/stencil, and
    /// default primitive and multisample state.
    pub fn specialize(&self, key: FogUpsamplingPipelineKeys) -> (d: RenderPipelineDescriptor)
        ensures
            is_upsampling_descriptor(d, self.bind_group_layout),
    {
        let mut layout: Vec<BindGroupLayout> = Vec::new();
        layout.push(self.bind_group_layout.clone());
        let mut targets: Vec<Option<ColorTargetState>> = Vec::new();
        targets.push(
            Some(
                ColorTargetState {
                    format: FOG_TEXTURE_FORMAT,
                    blend: Some(
                        BlendState {
                            color: BlendComponent {
                                src_factor: BlendFactor::Constant,
                                dst_factor: BlendFactor::One,
                                operation: BlendOperation::Add,
                            },
                            alpha: BlendComponent {
                                src_factor: BlendFactor::Zero,
                                dst_factor: BlendFactor::One,
                                operation: BlendOperation::Add,
                            },
                        },
                    ),
                    write_mask: ColorWrites::All,
                },
            ),
        );
        RenderPipelineDescriptor {
            label: Some(String::from_str("fog_upsampling_pipeline")),
            layout,
            vertex: VertexState::FullscreenTriangle,
            fragment: Some(
                FragmentState {
                    shader: FOG_UPSCALING_SHADER_HANDLE,
                    shader_defs: Vec::new(),
                    entry_point: String::from_str("upsample"),
                    targets,
                },
            ),
            primitive: PrimitiveState::default(),
            depth_stencil: None,
            multisample: MultisampleState::default(),
            push_constant_ranges: Vec::new(),
        }
    }
}

/// A stable handle into the process-wide pipeline cache, shared by every
/// view that requests the same variant key.
#[derive(Clone, Copy, Debug, PartialEq, Eq, Hash, Structural)]
pub struct CachedRenderPipelineId {
    pub index: usize,
}

/// The per-view record of the pipeline handle chosen for the compositing
/// draw, consumed by the downstream draw executor.
#[derive(Clone, Copy, Debug, PartialEq, Eq, Structural)]
pub struct UpsamplingPipelineIds {
    pub id_final: CachedRenderPipelineId,
}

/// The process-wide pipeline cache: every descriptor ever queued, in
/// order. Its length doubles as the build count, since queuing is the
/// only way a pipeline is ever built.
#[derive(Debug, PartialEq, Eq)]
pub struct PipelineCache {
    pub pipelines: Vec<RenderPipelineDescriptor>,
}

impl PipelineCache {
    /// A cache holding no pipeline yet.
    pub fn new() -> (r: PipelineCache)
        ensures
            r.pipelines@.len() == 0,
    {
        PipelineCache { pipelines: Vec::new() }
    }

    /// How many pipelines have been built so far.
    pub fn build_count(&self) -> (n: usize)
        ensures
            n == self.pipelines@.len(),
    {
        self.pipelines.len()
    }

    /// Queues one freshly built descriptor and returns its stable handle:
    /// the position it will keep in the cache forever.
    pub fn queue_render_pipeline(&mut self, descriptor: RenderPipelineDescriptor) -> (id:
        CachedRenderPipelineId)
        requires
            old(self).pipelines@.len() < usize::MAX,
        ensures
            id.index == old(self).pipelines@.len(),
            final(self).pipelines@ == old(self).pipelines@.push(descriptor),
    {
        let id = CachedRenderPipelineId { index: self.pipelines.len() };
        self.pipelines.push(descriptor);
        id
    }
}

/// The handle the memoization table holds for `key`: the handle of the
/// first entry with that key, or `None` when no entry has it.
pub open spec fn find_entry(
    entries: Seq<(FogUpsamplingPipelineKeys, CachedRenderPipelineId)>,
    key: FogUpsamplingPipelineKeys,
) -> Option<CachedRenderPipelineId>
    decreases entries.len(),
{
    if entries.len() == 0 {
        None
    } else if entries[0].0 == key {
        Some(entries[0].1)
    } else {
        find_entry(entries.drop_first(), key)
    }
}

/// Appending an entry for a key that may or may not be present: a present
/// key keeps its old handle, an absent one gets the appended handle.
pub proof fn lemma_find_entry_push(
    entries: Seq<(FogUpsamplingPipelineKeys, CachedRenderPipelineId)>,
    key: FogUpsamplingPipelineKeys,
    id: CachedRenderPipelineId,
)
    ensures
        find_entry(entries.push((key, id)), key) == match find_entry(entries, key) {
            Some(cached) => Some(cached),
            None => Some(id),
        },
    decreases entries.len(),
{
    if entries.len() == 0 {
        assert(entries.push((key, id))[0] == (key, id));
    } else {
        assert(entries.push((key, id))[0] == entries[0]);
        if entries[0].0 == key {
        } else {
            assert(entries.push((key, id)).drop_first() =~= entries.drop_first().push(
                (key, id),
            ));
            lemma_find_entry_push(entries.drop_first(), key, id);
        }
    }
}

/// The memoization table of built pipeline variants, keyed by the variant
/// key; behind it, the pipeline cache holding the descriptors.
#[derive(Debug, PartialEq, Eq)]
pub struct SpecializedRenderPipelines {
    pub entries: Vec<(FogUpsamplingPipelineKeys, CachedRenderPipelineId)>,
}

/// Every memoized entry points into the cache, at a descriptor that is
/// the upsampling descriptor for `layout`. This is the invariant tying
/// the table to the cache it fills.
pub open spec fn entries_valid(
    table: SpecializedRenderPipelines,
    cache: PipelineCache,
    layout: BindGroupLayout,
) -> bool {
    forall|j: int|
        0 <= j < table.entries@.len() ==> {
            &&& (#[trigger] table.entries@[j]).1.index < cache.pipelines@.len()
            &&& is_upsampling_descriptor(
                cache.pipelines@[table.entries@[j].1.index as int],
                layout,
            )
        }
}

/// Everything one `specialize` call does, relating the table and cache
/// states around it: a key already memoized returns its cached handle and
/// changes nothing; a new key builds exactly one descriptor, appends it to
/// the cache, and memoizes its handle. Either way the key maps to the
/// returned handle afterwards.
pub open spec fn specialize_step(
    pre_table: SpecializedRenderPipelines,
    post_table: SpecializedRenderPipelines,
    pre_cache: PipelineCache,
    post_cache: PipelineCache,
    layout: BindGroupLayout,
    key: FogUpsamplingPipelineKeys,
    id: CachedRenderPipelineId,
) -> bool {
    &&& match find_entry(pre_table.entries@, key) {
        Some(cached) => {
            &&& id == cached
            &&& post_table == pre_table
            &&& post_cache == pre_cache
        },
        None => {
            &&& id.index == pre_cache.pipelines@.len()
            &&& post_cache.pipelines@.len() == pre_cache.pipelines@.len() + 1
            &&& forall|j: int|
                0 <= j < pre_cache.pipelines@.len() ==> post_cache.pipelines@[j]
                    == pre_cache.pipelines@[j]
            &&& is_upsampling_descriptor(post_cache.pipelines@[id.index as int], layout)
            &&& post_table.entries@ == pre_table.entries@.push((key, id))
        },
    }
    &&& find_entry(post_table.entries@, key) == Some(id)
}

impl SpecializedRenderPipelines {
    /// A table with nothing memoized yet.
    pub fn new() -> (r: SpecializedRenderPipelines)
        ensures
            r.entries@.len() == 0,
    {
        SpecializedRenderPipelines { entries: Vec::new() }
    }

    /// Returns the handle of the pipeline variant selected by `key`,
    /// building it exactly once: the first request for a key builds the
    /// descriptor and queues it on the cache, every later request for an
    /// equal key returns the same cached handle without rebuilding.
    #[verifier::loop_isolation(false)]
    pub fn specialize(
        &mut self,
        cache: &mut PipelineCache,
        pipeline: &UpsamplingPipeline,
        key: FogUpsamplingPipelineKeys,
    ) -> (id: CachedRenderPipelineId)
        requires
            entries_valid(*old(self), *old(cache), pipeline.bind_group_layout),
            find_entry(old(self).entries@, key) is None ==> old(cache).pipelines@.len()
                < usize::MAX && old(self).entries@.len() < usize::MAX,
        ensures
            specialize_step(
                *old(self),
                *final(self),
                *old(cache),
                *final(cache),
                pipeline.bind_group_layout,
                key,
                id,
            ),
            entries_valid(*final(self), *final(cache), pipeline.bind_group_layout),
            id.index < final(cache).pipelines@.len(),
            is_upsampling_descriptor(
                final(cache).pipelines@[id.index as int],
                pipeline.bind_group_layout,
            ),
    {
        let n = self.entries.len();
        let mut i: usize = 0;
        while i < n
            invariant
                n == self.entries@.len(),
                i <= n,
                find_entry(self.entries@, key) == find_entry(
                    self.entries@.subrange(i as int, n as int),
                    key,
                ),
            decreases n - i,
        {
            let entry = self.entries[i];
            proof {
                assert(self.entries@.subrange(i as int, n as int)[0] == self.entries@[i as int]);
            }
            if entry.0 == key {
                proof {
                    assert(old(self).entries@[i as int] == entry);
                    assert(old(self).entries@[i as int].1.index < old(cache).pipelines@.len());
                }
                return entry.1;
            }
            proof {
                assert(self.entries@.subrange(i as int, n as int).drop_first()
                    =~= self.entries@.subrange(i + 1 as int, n as int));
            }
            i = i + 1;
        }
        proof {
            assert(self.entries@.subrange(n as int, n as int).len() == 0);
        }
        let descriptor = pipeline.specialize(key);
        let id = cache.queue_render_pipeline(descriptor);
        self.entries.push((key, id));
        proof {
            lemma_find_entry_push(old(self).entries@, key, id);
            assert forall|j: int| 0 <= j < self.entries@.len() implies {
                &&& (#[trigger] self.entries@[j]).1.index < cache.pipelines@.len()
                &&& is_upsampling_descriptor(
                    cache.pipelines@[self.entries@[j].1.index as int],
                    pipeline.bind_group_layout,
                )
            } by {
                if j < old(self).entries@.len() {
                    assert(self.entries@[j] == old(self).entries@[j]);
                } else {
                    assert(self.entries@[j] == (key, id));
                }
            }
        }
        id
    }
}

/// Law: memoization is idempotent. Two consecutive `specialize` requests
/// for the same key return the same handle, and the second changes
/// neither the table nor the cache: the build happened at most once.
pub proof fn lemma_specialize_memoized(
    table0: SpecializedRenderPipelines,
    table1: SpecializedRenderPipelines,
    table2: SpecializedRenderPipelines,
    cache0: PipelineCache,
    cache1: PipelineCache,
    cache2: PipelineCache,
    layout: BindGroupLayout,
    key: FogUpsamplingPipelineKeys,
    id1: CachedRenderPipelineId,
    id2: CachedRenderPipelineId,
)
    requires
        specialize_step(table0, table1, cache0, cache1, layout, key, id1),
        specialize_step(table1, table2, cache1, cache2, layout, key, id2),
    ensures
        id2 == id1,
        table2 == table1,
        cache2 == cache1,
{
}

/// For every view carrying fog settings this frame, requests the pipeline
/// handle for the (single) variant key and records it for the downstream
/// draw step. All views receive the same handle; the variant is built at
/// most once, and only when at least one view needs it and no earlier
/// frame built it already.
#[verifier::loop_isolation(false)]
pub fn prepare_upsampling_pipeline(
    cache: &mut PipelineCache,
    pipelines: &mut SpecializedRenderPipelines,
    pipeline: &UpsamplingPipeline,
    views: &Vec<(u64, crate::view::VolumetricFog)>,
) -> (out: Vec<(u64, UpsamplingPipelineIds)>)
    requires
        entries_valid(*old(pipelines), *old(cache), pipeline.bind_group_layout),
        old(cache).pipelines@.len() < usize::MAX,
        old(pipelines).entries@.len() < usize::MAX,
    ensures
        out@.len() == views@.len(),
        forall|i: int| 0 <= i < out@.len() ==> (#[trigger] out@[i]).0 == views@[i].0,
        forall|i: int, j: int|
            0 <= i < out@.len() && 0 <= j < out@.len() ==> (#[trigger] out@[i]).1.id_final == (
            #[trigger] out@[j]).1.id_final,
        forall|i: int|
            0 <= i < out@.len() ==> {
                &&& (#[trigger] out@[i]).1.id_final.index < final(cache).pipelines@.len()
                &&& is_upsampling_descriptor(
                    final(cache).pipelines@[out@[i].1.id_final.index as int],
                    pipeline.bind_group_layout,
                )
            },
        entries_valid(*final(pipelines), *final(cache), pipeline.bind_group_layout),
        forall|j: int|
            0 <= j < old(cache).pipelines@.len() ==> final(cache).pipelines@[j] == old(
                cache,
            ).pipelines@[j],
        final(cache).pipelines@.len() == old(cache).pipelines@.len() + (
        if views@.len() > 0 && find_entry(
            old(pipelines).entries@,
            (FogUpsamplingPipelineKeys {  }),
        ) is None {
            1int
        } else {
            0int
        }),
        views@.len() == 0 ==> *final(pipelines) == *old(pipelines) && *final(cache) == *old(
            cache,
        ),
{
    let mut out: Vec<(u64, UpsamplingPipelineIds)> = Vec::new();
    let n = views.len();
    let mut i: usize = 0;
    while i < n
        invariant
            n == views@.len(),
            i <= n,
            out@.len() == i,
            entries_valid(*pipelines, *cache, pipeline.bind_group_layout),
            forall|k: int| 0 <= k < i ==> (#[trigger] out@[k]).0 == views@[k].0,
            forall|k: int|
                0 <= k < i ==> (#[trigger] out@[k]).1.id_final == out@[0].1.id_final,
            i > 0 ==> find_entry(
                pipelines.entries@,
                (FogUpsamplingPipelineKeys {  }),
            ) == Some(out@[0].1.id_final),
            forall|k: int|
                0 <= k < i ==> {
                    &&& (#[trigger] out@[k]).1.id_final.index < cache.pipelines@.len()
                    &&& is_upsampling_descriptor(
                        cache.pipelines@[out@[k].1.id_final.index as int],
                        pipeline.bind_group_layout,
                    )
                },
            forall|j: int|
                0 <= j < old(cache).pipelines@.len() ==> cache.pipelines@[j] == old(
                    cache,
                ).pipelines@[j],
            cache.pipelines@.len() == old(cache).pipelines@.len() + (
            if i > 0 && find_entry(
                old(pipelines).entries@,
                (FogUpsamplingPipelineKeys {  }),
            ) is None {
                1int
            } else {
                0int
            }),
            i == 0 ==> *pipelines == *old(pipelines) && *cache == *old(cache),
        decreases n - i,
    {
        proof {
            if i == 0 {
                assert(cache.pipelines@.len() < usize::MAX);
                assert(pipelines.entries@.len() < usize::MAX);
            } else {
                assert(find_entry(pipelines.entries@, (FogUpsamplingPipelineKeys {  })) is Some);
            }
        }
        let id = pipelines.specialize(cache, pipeline, FogUpsamplingPipelineKeys {});
        let entity = views[i].0;
        out.push((entity, UpsamplingPipelineIds { id_final: id }));
        i = i + 1;
    }
    out
}

} // verus!
