use fog_upsampling::frame::{
    extract_upsampling_views, prepare_upsampling_bind_groups, UpsamplingBindGroup,
    VolumetricFogTexture,
};
use fog_upsampling::pipeline::UpsamplingPipeline;
use fog_upsampling::render_resource::{
    AddressMode, ComponentUniforms, FilterMode, RenderDevice, TextureView, UniformBinding,
};
use fog_upsampling::view::{Camera, UVec2, Viewport, VolumetricFog};

fn eligible_camera(width: u32, height: u32) -> Camera {
    Camera {
        viewport: Some(Viewport {
            origin: UVec2 { x: 0, y: 0 },
            size: UVec2 { x: width, y: height },
        }),
        target_size: Some(UVec2 { x: width, y: height }),
        is_active: true,
        hdr: true,
    }
}

#[test]
fn bind_groups_wire_texture_sampler_and_uniforms() {
    let mut device = RenderDevice::new();
    let pipeline = UpsamplingPipeline::from_world(&mut device);
    let uniforms = ComponentUniforms { uniforms: Some(UniformBinding { buffer: 42 }) };
    let views = vec![
        (1u64, VolumetricFogTexture { texture_view: TextureView { id: 100 } }),
        (2u64, VolumetricFogTexture { texture_view: TextureView { id: 200 } }),
    ];
    let out = prepare_upsampling_bind_groups(&mut device, &pipeline, &views, &uniforms);
    assert_eq!(out.len(), 2);
    assert_eq!(out[0].0, 1);
    assert_eq!(out[1].0, 2);
    let first: &UpsamplingBindGroup = &out[0].1;
    let second: &UpsamplingBindGroup = &out[1].1;
    // One sampler, shared by every view of the frame, bilinear and
    // clamping on both axes.
    assert_eq!(first.sampler, second.sampler);
    assert_eq!(first.sampler.descriptor.min_filter, FilterMode::Linear);
    assert_eq!(first.sampler.descriptor.mag_filter, FilterMode::Linear);
    assert_eq!(first.sampler.descriptor.address_mode_u, AddressMode::ClampToEdge);
    assert_eq!(first.sampler.descriptor.address_mode_v, AddressMode::ClampToEdge);
    // Each bind group references its own view's fog texture, the shared
    // sampler, the pipeline's layout and the uniform binding.
    assert_eq!(first.upsampling_bind_group.texture, TextureView { id: 100 });
    assert_eq!(second.upsampling_bind_group.texture, TextureView { id: 200 });
    assert_eq!(first.upsampling_bind_group.sampler, first.sampler.id);
    assert_eq!(first.upsampling_bind_group.layout, pipeline.bind_group_layout.id);
    assert_eq!(first.upsampling_bind_group.uniforms, UniformBinding { buffer: 42 });
    assert_ne!(first.upsampling_bind_group.id, second.upsampling_bind_group.id);
}

#[test]
fn rebuilding_with_a_new_texture_gives_a_fresh_bind_group() {
    let mut device = RenderDevice::new();
    let pipeline = UpsamplingPipeline::from_world(&mut device);
    let uniforms = ComponentUniforms { uniforms: Some(UniformBinding { buffer: 0 }) };
    let first_frame = prepare_upsampling_bind_groups(
        &mut device,
        &pipeline,
        &vec![(1u64, VolumetricFogTexture { texture_view: TextureView { id: 10 } })],
        &uniforms,
    );
    let second_frame = prepare_upsampling_bind_groups(
        &mut device,
        &pipeline,
        &vec![(1u64, VolumetricFogTexture { texture_view: TextureView { id: 11 } })],
        &uniforms,
    );
    let stale = &first_frame[0].1.upsampling_bind_group;
    let fresh = &second_frame[0].1.upsampling_bind_group;
    // The rebuilt group is a different object referencing the texture
    // current at its own build time; the stale record is unchanged.
    assert_ne!(stale.id, fresh.id);
    assert_eq!(stale.texture, TextureView { id: 10 });
    assert_eq!(fresh.texture, TextureView { id: 11 });
}

#[test]
fn no_views_means_no_bind_groups() {
    let mut device = RenderDevice::new();
    let pipeline = UpsamplingPipeline::from_world(&mut device);
    let uniforms = ComponentUniforms { uniforms: None };
    let views: Vec<(u64, VolumetricFogTexture)> = Vec::new();
    let out = prepare_upsampling_bind_groups(&mut device, &pipeline, &views, &uniforms);
    assert!(out.is_empty());
}

#[test]
fn extraction_keeps_exactly_the_eligible_views() {
    let fog = VolumetricFog {};
    let mut inactive = eligible_camera(1920, 1080);
    inactive.is_active = false;
    let mut low_dynamic_range = eligible_camera(1920, 1080);
    low_dynamic_range.hdr = false;
    let views = vec![
        (1u64, fog, eligible_camera(1920, 1080)),
        (2u64, fog, inactive),
        (3u64, fog, eligible_camera(1280, 720)),
        (4u64, fog, low_dynamic_range),
    ];
    let extracted = extract_upsampling_views(&views);
    assert_eq!(extracted.len(), 2);
    assert_eq!(extracted[0].0, 1);
    assert_eq!(extracted[1].0, 3);
    assert_eq!(extracted[0].2.aspect.width, 1920);
    assert_eq!(extracted[1].2.aspect.width, 1280);
}

#[test]
fn scenario_b_ineligible_view_produces_no_records_at_all() {
    let fog = VolumetricFog {};
    let mut inactive = eligible_camera(1920, 1080);
    inactive.is_active = false;
    let extracted = extract_upsampling_views(&vec![(5u64, fog, inactive)]);
    assert!(extracted.is_empty());
    // Nothing was extracted, so the later passes see no views: no bind
    // group and no pipeline handle is produced this frame.
    let mut device = RenderDevice::new();
    let pipeline = UpsamplingPipeline::from_world(&mut device);
    let uniforms = ComponentUniforms { uniforms: None };
    let textures: Vec<(u64, VolumetricFogTexture)> = Vec::new();
    let groups = prepare_upsampling_bind_groups(&mut device, &pipeline, &textures, &uniforms);
    assert!(groups.is_empty());
    let mut cache = fog_upsampling::pipeline::PipelineCache::new();
    let mut table = fog_upsampling::pipeline::SpecializedRenderPipelines::new();
    let fog_views: Vec<(u64, VolumetricFog)> = Vec::new();
    let ids = fog_upsampling::pipeline::prepare_upsampling_pipeline(
        &mut cache,
        &mut table,
        &pipeline,
        &fog_views,
    );
    assert!(ids.is_empty());
    assert_eq!(cache.build_count(), 0);
}
