use fog_upsampling::pipeline::{
    BlendComponent, BlendFactor, BlendOperation, BlendState, ColorTargetState, ColorWrites,
    FogUpsamplingPipelineKeys, MultisampleState, PipelineCache, PrimitiveState,
    PrimitiveTopology, SpecializedRenderPipelines, TextureFormat, UpsamplingPipeline,
    VertexState, FOG_TEXTURE_FORMAT, FOG_UPSCALING_SHADER_HANDLE,
};
use fog_upsampling::render_resource::{BindingType, RenderDevice, ShaderStages};
use fog_upsampling::view::VolumetricFog;

fn pipeline_with_device() -> (RenderDevice, UpsamplingPipeline) {
    let mut device = RenderDevice::new();
    let pipeline = UpsamplingPipeline::from_world(&mut device);
    (device, pipeline)
}

#[test]
fn layout_has_the_three_fragment_bindings() {
    let (_, pipeline) = pipeline_with_device();
    assert_eq!(pipeline.bind_group_layout.visibility, ShaderStages::Fragment);
    assert_eq!(
        pipeline.bind_group_layout.entries,
        vec![
            BindingType::Texture2d { filterable: true },
            BindingType::Sampler { filtering: true },
            BindingType::UniformBuffer { has_dynamic_offset: true },
        ]
    );
}

#[test]
fn specialized_descriptor_matches_the_compositing_draw() {
    let (_, pipeline) = pipeline_with_device();
    let descriptor = pipeline.specialize(FogUpsamplingPipelineKeys {});
    assert_eq!(descriptor.label.as_deref(), Some("fog_upsampling_pipeline"));
    assert_eq!(descriptor.layout.len(), 1);
    assert_eq!(descriptor.layout[0], pipeline.bind_group_layout);
    assert_eq!(descriptor.vertex, VertexState::FullscreenTriangle);
    let fragment = descriptor.fragment.expect("the compositing draw has a fragment stage");
    assert_eq!(fragment.shader, FOG_UPSCALING_SHADER_HANDLE);
    assert!(fragment.shader_defs.is_empty());
    assert_eq!(fragment.entry_point, "upsample");
    assert_eq!(
        fragment.targets,
        vec![Some(ColorTargetState {
            format: FOG_TEXTURE_FORMAT,
            blend: Some(BlendState {
                color: BlendComponent {
                    src_factor: BlendFactor::Constant,
                    dst_factor: BlendFactor::One,
                    operation: BlendOperation::Add,
                },
                alpha: BlendComponent {
                    src_factor: BlendFactor::Zero,
                    dst_factor: BlendFactor::One,
                    operation: BlendOperation::Add,
                },
            }),
            write_mask: ColorWrites::All,
        })]
    );
    assert_eq!(FOG_TEXTURE_FORMAT, TextureFormat::Rgba16Float);
    assert_eq!(descriptor.primitive, PrimitiveState { topology: PrimitiveTopology::TriangleList });
    assert_eq!(descriptor.depth_stencil, None);
    assert_eq!(
        descriptor.multisample,
        MultisampleState { count: 1, alpha_to_coverage_enabled: false }
    );
    assert!(descriptor.push_constant_ranges.is_empty());
}

#[test]
fn default_states_match_the_descriptor() {
    assert_eq!(
        PrimitiveState::default(),
        PrimitiveState { topology: PrimitiveTopology::TriangleList }
    );
    assert_eq!(
        MultisampleState::default(),
        MultisampleState { count: 1, alpha_to_coverage_enabled: false }
    );
}

#[test]
fn repeated_specialization_returns_the_cached_handle() {
    let (_, pipeline) = pipeline_with_device();
    let mut cache = PipelineCache::new();
    let mut table = SpecializedRenderPipelines::new();
    let first = table.specialize(&mut cache, &pipeline, FogUpsamplingPipelineKeys {});
    assert_eq!(cache.build_count(), 1);
    let second = table.specialize(&mut cache, &pipeline, FogUpsamplingPipelineKeys {});
    assert_eq!(first, second);
    assert_eq!(cache.build_count(), 1);
    let third = table.specialize(&mut cache, &pipeline, FogUpsamplingPipelineKeys {});
    assert_eq!(first, third);
    assert_eq!(cache.build_count(), 1);
}

#[test]
fn scenario_d_two_views_share_one_built_pipeline() {
    let (_, pipeline) = pipeline_with_device();
    let mut cache = PipelineCache::new();
    let mut table = SpecializedRenderPipelines::new();
    let views = vec![(7u64, VolumetricFog {}), (9u64, VolumetricFog {})];
    let out = fog_upsampling::pipeline::prepare_upsampling_pipeline(
        &mut cache,
        &mut table,
        &pipeline,
        &views,
    );
    assert_eq!(out.len(), 2);
    assert_eq!(out[0].0, 7);
    assert_eq!(out[1].0, 9);
    assert_eq!(out[0].1.id_final, out[1].1.id_final);
    assert_eq!(cache.build_count(), 1);
}

#[test]
fn prepare_pipeline_without_views_builds_nothing() {
    let (_, pipeline) = pipeline_with_device();
    let mut cache = PipelineCache::new();
    let mut table = SpecializedRenderPipelines::new();
    let views: Vec<(u64, VolumetricFog)> = Vec::new();
    let out = fog_upsampling::pipeline::prepare_upsampling_pipeline(
        &mut cache,
        &mut table,
        &pipeline,
        &views,
    );
    assert!(out.is_empty());
    assert_eq!(cache.build_count(), 0);
}

#[test]
fn later_frames_reuse_the_handle_built_earlier() {
    let (_, pipeline) = pipeline_with_device();
    let mut cache = PipelineCache::new();
    let mut table = SpecializedRenderPipelines::new();
    let first_frame = fog_upsampling::pipeline::prepare_upsampling_pipeline(
        &mut cache,
        &mut table,
        &pipeline,
        &vec![(1u64, VolumetricFog {})],
    );
    let second_frame = fog_upsampling::pipeline::prepare_upsampling_pipeline(
        &mut cache,
        &mut table,
        &pipeline,
        &vec![(1u64, VolumetricFog {}), (2u64, VolumetricFog {})],
    );
    assert_eq!(cache.build_count(), 1);
    assert_eq!(first_frame[0].1.id_final, second_frame[0].1.id_final);
    assert_eq!(first_frame[0].1.id_final, second_frame[1].1.id_final);
}
