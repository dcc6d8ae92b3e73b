use graphics::pipeline::{
    fixed_function_state, pipeline_build_steps, render_pass_config, vertex_layout,
    FixedFunctionState, PipelineBuildStep, RenderPassConfig, VertexAttribute,
    ACCESS_COLOR_ATTACHMENT_WRITE, ACCESS_NONE, CULL_MODE_BACK, FORMAT_R32G32B32_SFLOAT,
    FORMAT_R32G32_SFLOAT, FRONT_FACE_CLOCKWISE, INPUT_RATE_VERTEX, LAYOUT_COLOR_ATTACHMENT_OPTIMAL,
    LAYOUT_PRESENT_SRC, LAYOUT_UNDEFINED, LOAD_OP_CLEAR, LOAD_OP_DONT_CARE, POLYGON_MODE_FILL,
    SAMPLE_COUNT_1, STAGE_COLOR_ATTACHMENT_OUTPUT, STORE_OP_DONT_CARE, STORE_OP_STORE,
    TOPOLOGY_TRIANGLE_LIST,
};

#[test]
fn vertex_layout_uses_natural_field_offsets() {
    let layout = vertex_layout();
    assert_eq!(layout.binding, 0);
    assert_eq!(layout.input_rate, INPUT_RATE_VERTEX);
    // two floats of position, three of color, four bytes each
    assert_eq!(layout.stride, 20);
    assert_eq!(
        layout.attributes,
        vec![
            VertexAttribute {
                location: 0,
                format: FORMAT_R32G32_SFLOAT,
                offset: 0,
            },
            VertexAttribute {
                location: 1,
                format: FORMAT_R32G32B32_SFLOAT,
                offset: 8,
            },
        ]
    );
}

#[test]
fn shader_modules_are_transient_in_the_build_order() {
    let steps = pipeline_build_steps();
    assert_eq!(
        steps,
        vec![
            PipelineBuildStep::CreateVertexModule,
            PipelineBuildStep::CreateFragmentModule,
            PipelineBuildStep::CreatePipelineLayout,
            PipelineBuildStep::CreatePipeline,
            PipelineBuildStep::DestroyVertexModule,
            PipelineBuildStep::DestroyFragmentModule,
        ]
    );
}

#[test]
fn render_pass_clears_stores_and_leaves_the_image_presentable() {
    let cfg = render_pass_config(50);
    assert_eq!(
        cfg,
        RenderPassConfig {
            color_format: 50,
            samples: SAMPLE_COUNT_1,
            load_op: LOAD_OP_CLEAR,
            store_op: STORE_OP_STORE,
            stencil_load_op: LOAD_OP_DONT_CARE,
            stencil_store_op: STORE_OP_DONT_CARE,
            initial_layout: LAYOUT_UNDEFINED,
            final_layout: LAYOUT_PRESENT_SRC,
            color_attachment_layout: LAYOUT_COLOR_ATTACHMENT_OPTIMAL,
            dep_src_stage: STAGE_COLOR_ATTACHMENT_OUTPUT,
            dep_src_access: ACCESS_NONE,
            dep_dst_stage: STAGE_COLOR_ATTACHMENT_OUTPUT,
            dep_dst_access: ACCESS_COLOR_ATTACHMENT_WRITE,
        }
    );
    // the configuration tracks the color format alone
    assert_eq!(render_pass_config(97).color_format, 97);
}

#[test]
fn fixed_function_state_is_the_documented_policy() {
    let ffs = fixed_function_state();
    assert_eq!(
        ffs,
        FixedFunctionState {
            topology: TOPOLOGY_TRIANGLE_LIST,
            primitive_restart: false,
            polygon_mode: POLYGON_MODE_FILL,
            cull_mode: CULL_MODE_BACK,
            front_face: FRONT_FACE_CLOCKWISE,
            blend_enable: false,
            sample_count: SAMPLE_COUNT_1,
            dynamic_viewport: true,
            dynamic_scissor: true,
        }
    );
}
