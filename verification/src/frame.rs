//! The per-frame preparation passes, over an explicit registry of views.
//!
//! The surrounding engine's entity store is modeled as lists of
//! `(view identity, component)` records. Extraction filters the frame's
//! views down to the eligible ones and computes their uniforms; the
//! bind-group pass then builds, for every view whose fog texture exists
//! this frame, a fresh bind group wiring that texture, one sampler shared
//! across the frame's views, and the uniform binding. Extraction must
//! have run and the uniforms must have been uploaded before the
//! bind-group pass of the same frame.

use crate::render_resource::{
    AddressMode, BindGroup, ComponentUniforms, FilterMode, RenderDevice, Sampler,
    SamplerDescriptor, TextureView,
};
use crate::view::{uniform_of, Camera, UpsamplingUniforms, VolumetricFog};
use vstd::prelude::*;

verus! {

/// The low-resolution fog color buffer of one view, produced by the
/// upstream fog-rendering pass; only its texture-view handle is read
/// here.
#[derive(Clone, Copy, Debug, PartialEq, Eq, Structural)]
pub struct VolumetricFogTexture {
    pub texture_view: TextureView,
}

impl VolumetricFogTexture {
    /// The texture-view handle of the fog buffer.
    pub fn view(&self) -> (r: TextureView)
        ensures
            r == self.texture_view,
    {
        self.texture_view
    }
}

/// The per-view bundle the bind-group pass produces: the bind group for
/// the compositing draw and the frame's shared sampler. Created fresh
/// every frame; never reused across frames.
#[derive(Clone, Copy, Debug, PartialEq, Eq, Structural)]
pub struct UpsamplingBindGroup {
    pub upsampling_bind_group: BindGroup,
    pub sampler: Sampler,
}

/// The sampler every view's bind group shares: bilinear filtering,
/// clamp-to-edge addressing on both axes.
pub open spec fn linear_clamp_sampler() -> SamplerDescriptor {
    SamplerDescriptor {
        min_filter: FilterMode::Linear,
        mag_filter: FilterMode::Linear,
        address_mode_u: AddressMode::ClampToEdge,
        address_mode_v: AddressMode::ClampToEdge,
    }
}

/// What extraction leaves of a frame's views: exactly the eligible ones,
/// in order, each with its fog settings and freshly computed uniform.
pub open spec fn extracted_of(views: Seq<(u64, VolumetricFog, Camera)>) -> Seq<
    (u64, VolumetricFog, UpsamplingUniforms),
>
    decreases views.len(),
{
    if views.len() == 0 {
        Seq::empty()
    } else {
        let rest = extracted_of(views.drop_last());
        if views.last().2.eligible() {
            rest.push((views.last().0, views.last().1, uniform_of(views.last().2)))
        } else {
            rest
        }
    }
}

/// Each extracted record comes from an eligible input view, and every
/// eligible input view is represented among the extracted records.
pub open spec fn extraction_exact(views: Seq<(u64, VolumetricFog, Camera)>) -> bool {
    &&& forall|j: int|
        0 <= j < extracted_of(views).len() ==> exists|i: int|
            0 <= i < views.len() && (#[trigger] views[i]).2.eligible() && (
            #[trigger] extracted_of(views)[j]) == ((
            views[i].0,
            views[i].1,
            uniform_of(views[i].2),
            ))
    &&& forall|i: int|
        0 <= i < views.len() && (#[trigger] views[i]).2.eligible() ==> exists|j: int|
            0 <= j < extracted_of(views).len() && #[trigger] extracted_of(views)[j] == ((
            views[i].0,
            views[i].1,
            uniform_of(views[i].2),
            ))
}

/// Law: the extracted registry holds exactly the eligible views. Every
/// extracted record is an eligible input view's identity, settings and
/// freshly computed uniform, and every eligible input view appears in the
/// extracted registry; later passes produce output only for registered
/// views, so a view gets fog compositing this frame if and only if it
/// passed the eligibility filter.
pub proof fn lemma_extracted_of_exact(views: Seq<(u64, VolumetricFog, Camera)>)
    ensures
        extraction_exact(views),
    decreases views.len(),
{
    if views.len() == 0 {
    } else {
        let prev = views.drop_last();
        lemma_extracted_of_exact(prev);
        let last: int = views.len() - 1;
        assert(forall|i: int| 0 <= i < last ==> prev[i] == #[trigger] views[i]);
        if views.last().2.eligible() {
            assert(extracted_of(views) == extracted_of(prev).push(
                (views[last].0, views[last].1, uniform_of(views[last].2)),
            ));
        } else {
            assert(extracted_of(views) == extracted_of(prev));
        }
        assert forall|j: int| 0 <= j < extracted_of(views).len() implies exists|i: int|
            0 <= i < views.len() && (#[trigger] views[i]).2.eligible() && (
        #[trigger] extracted_of(views)[j]) == ((
        views[i].0,
        views[i].1,
        uniform_of(views[i].2),
        )) by {
            if j < extracted_of(prev).len() {
                assert(extracted_of(views)[j] == extracted_of(prev)[j]);
                let i = choose|i: int|
                    0 <= i < prev.len() && (#[trigger] prev[i]).2.eligible() && (
                    #[trigger] extracted_of(prev)[j]) == ((
                    prev[i].0,
                    prev[i].1,
                    uniform_of(prev[i].2),
                    ));
                assert(views[i].2.eligible());
                assert(extracted_of(views)[j] == ((
                views[i].0,
                views[i].1,
                uniform_of(views[i].2),
                )));
            } else {
                assert(views[last].2.eligible());
                assert(extracted_of(views)[j] == ((
                views[last].0,
                views[last].1,
                uniform_of(views[last].2),
                )));
            }
        }
        assert forall|i: int|
            0 <= i < views.len() && (#[trigger] views[i]).2.eligible() implies exists|j: int|
            0 <= j < extracted_of(views).len() && #[trigger] extracted_of(views)[j] == ((
            views[i].0,
            views[i].1,
            uniform_of(views[i].2),
            )) by {
            if i < last {
                assert(prev[i].2.eligible());
                let j = choose|j: int|
                    0 <= j < extracted_of(prev).len() && #[trigger] extracted_of(prev)[j] == ((
                    prev[i].0,
                    prev[i].1,
                    uniform_of(prev[i].2),
                    ));
                assert(extracted_of(views)[j] == extracted_of(prev)[j]);
                assert(extracted_of(views)[j] == ((
                views[i].0,
                views[i].1,
                uniform_of(views[i].2),
                )));
            } else {
                assert(extracted_of(views)[extracted_of(prev).len() as int] == ((
                views[i].0,
                views[i].1,
                uniform_of(views[i].2),
                )));
            }
        }
    }
}

/// Runs the eligibility filter over every view of the frame that carries
/// fog settings, keeping exactly the eligible views, in order, with their
/// uniforms. Ineligible views are silently excluded: no record of theirs
/// reaches the later passes, so no bind group and no pipeline handle is
/// ever produced for them this frame.
#[verifier::loop_isolation(false)]
pub fn extract_upsampling_views(views: &Vec<(u64, VolumetricFog, Camera)>) -> (out: Vec<
    (u64, VolumetricFog, UpsamplingUniforms),
>)
    ensures
        out@ == extracted_of(views@),
{
    let mut out: Vec<(u64, VolumetricFog, UpsamplingUniforms)> = Vec::new();
    let mut i: usize = 0;
    while i < views.len()
        invariant
            i <= views@.len(),
            out@ == extracted_of(views@.subrange(0, i as int)),
        decreases views@.len() - i,
    {
        let v = views[i];
        match VolumetricFog::extract_component(&v.1, &v.2) {
            Some(pair) => out.push((v.0, pair.0, pair.1)),
            None => (),
        }
        proof {
            assert(views@.subrange(0, i + 1 as int).drop_last() =~= views@.subrange(0, i as int));
            assert(views@.subrange(0, i + 1 as int).last() == views@[i as int]);
        }
        i = i + 1;
    }
    proof {
        assert(views@.subrange(0, views@.len() as int) =~= views@);
    }
    out
}

/// Builds the frame's bind groups: one sampler shared by all views, and
/// for every view whose fog texture exists this frame a fresh bind group
/// wiring that texture, the shared sampler, and the binding into the
/// uploaded uniform buffer. A missing uniform binding while views exist
/// would mean extraction and binding disagree on eligibility; that input
/// is excluded here and treated as fatal by the caller.
#[verifier::loop_isolation(false)]
pub fn prepare_upsampling_bind_groups(
    render_device: &mut RenderDevice,
    upsampling_pipeline: &crate::pipeline::UpsamplingPipeline,
    views: &Vec<(u64, VolumetricFogTexture)>,
    uniforms: &ComponentUniforms,
) -> (out: Vec<(u64, UpsamplingBindGroup)>)
    requires
        views@.len() > 0 ==> uniforms.uniforms is Some,
        old(render_device).served + 1 + views@.len() <= u64::MAX,
    ensures
        out@.len() == views@.len(),
        forall|i: int| 0 <= i < out@.len() ==> (#[trigger] out@[i]).0 == views@[i].0,
        forall|i: int|
            0 <= i < out@.len() ==> (#[trigger] out@[i]).1.sampler == (Sampler {
                id: old(render_device).served,
                descriptor: linear_clamp_sampler(),
            }),
        forall|i: int|
            0 <= i < out@.len() ==> {
                &&& (#[trigger] out@[i]).1.upsampling_bind_group.texture == views@[
                    i].1.texture_view
                &&& out@[i].1.upsampling_bind_group.layout
                    == upsampling_pipeline.bind_group_layout.id
                &&& out@[i].1.upsampling_bind_group.sampler == old(render_device).served
                &&& out@[i].1.upsampling_bind_group.uniforms == uniforms.uniforms.unwrap()
                &&& out@[i].1.upsampling_bind_group.id == old(render_device).served + 1 + i
            },
        forall|i: int, j: int|
            0 <= i < out@.len() && 0 <= j < out@.len() && i != j ==> (
            #[trigger] out@[i]).1.upsampling_bind_group.id != (
            #[trigger] out@[j]).1.upsampling_bind_group.id,
        final(render_device).served == old(render_device).served + 1 + views@.len(),
{
    let sampler = render_device.create_sampler(
        &SamplerDescriptor {
            min_filter: FilterMode::Linear,
            mag_filter: FilterMode::Linear,
            address_mode_u: AddressMode::ClampToEdge,
            address_mode_v: AddressMode::ClampToEdge,
        },
    );
    let mut out: Vec<(u64, UpsamplingBindGroup)> = Vec::new();
    if views.len() == 0 {
        return out;
    }
    let binding = uniforms.binding().unwrap();
    let mut i: usize = 0;
    while i < views.len()
        invariant
            i <= views@.len(),
            out@.len() == i,
            render_device.served == old(render_device).served + 1 + i,
            forall|k: int| 0 <= k < i ==> (#[trigger] out@[k]).0 == views@[k].0,
            forall|k: int|
                0 <= k < i ==> (#[trigger] out@[k]).1.sampler == (Sampler {
                    id: old(render_device).served,
                    descriptor: linear_clamp_sampler(),
                }),
            forall|k: int|
                0 <= k < i ==> {
                    &&& (#[trigger] out@[k]).1.upsampling_bind_group.texture == views@[
                        k].1.texture_view
                    &&& out@[k].1.upsampling_bind_group.layout
                        == upsampling_pipeline.bind_group_layout.id
                    &&& out@[k].1.upsampling_bind_group.sampler == old(render_device).served
                    &&& out@[k].1.upsampling_bind_group.uniforms == uniforms.uniforms.unwrap()
                    &&& out@[k].1.upsampling_bind_group.id == old(render_device).served + 1 + k
                },
        decreases views@.len() - i,
    {
        let entity = views[i].0;
        let volumetric_fog_texture = views[i].1;
        let upsampling_bind_group = render_device.create_bind_group(
            &upsampling_pipeline.bind_group_layout,
            volumetric_fog_texture.view(),
            &sampler,
            binding,
        );
        out.push((entity, UpsamplingBindGroup { upsampling_bind_group, sampler: sampler.clone() }));
        i = i + 1;
    }
    out
}

} // verus!
