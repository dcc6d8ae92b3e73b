//! The fixed graphics-pipeline configuration, as plain data: the vertex
//! layout with its natural field offsets, the render-pass and
//! fixed-function state by their numeric codes, and the build order that
//! keeps shader modules transient. Pipeline state that lives in floating
//! point (viewport bounds, line width, blend constants) stays with the
//! front end.

use vstd::prelude::*;

verus! {

/// Bytes of one 32-bit float component.
pub const FLOAT_BYTES: u32 = 4;

/// Numeric code the graphics API assigns to a two-component float format.
pub const FORMAT_R32G32_SFLOAT: u32 = 103;

/// Numeric code the graphics API assigns to a three-component float format.
pub const FORMAT_R32G32B32_SFLOAT: u32 = 106;

/// Numeric code the graphics API assigns to the per-vertex input rate.
pub const INPUT_RATE_VERTEX: u32 = 0;

/// One vertex attribute of the fixed layout.
#[derive(Clone, Copy, PartialEq, Eq, Structural, Debug)]
pub struct VertexAttribute {
    /// Shader input location.
    pub location: u32,
    /// Format code of the attribute's components.
    pub format: u32,
    /// Byte offset within one vertex.
    pub offset: u32,
}

/// The fixed per-vertex input layout: one binding, per-vertex rate.
#[derive(Clone, PartialEq, Eq, Debug)]
pub struct VertexLayout {
    /// The single vertex buffer binding.
    pub binding: u32,
    /// Bytes of one vertex.
    pub stride: u32,
    /// Input rate code: the binding advances per vertex, not per instance.
    pub input_rate: u32,
    /// The attributes, in location order.
    pub attributes: Vec<VertexAttribute>,
}

/// The fixed vertex layout: a two-component float position at the start of
/// the vertex, then a three-component float color at its natural offset,
/// with the stride covering both.
pub fn vertex_layout() -> (r: VertexLayout)
    ensures
        r.binding == 0,
        r.stride == 5 * FLOAT_BYTES,
        r.input_rate == INPUT_RATE_VERTEX,
        r.attributes@.len() == 2,
        r.attributes@[0] == (VertexAttribute {
            location: 0,
            format: FORMAT_R32G32_SFLOAT,
            offset: 0,
        }),
        r.attributes@[1] == (VertexAttribute {
            location: 1,
            format: FORMAT_R32G32B32_SFLOAT,
            offset: (2 * FLOAT_BYTES) as u32,
        }),
{
    let position = VertexAttribute { location: 0, format: FORMAT_R32G32_SFLOAT, offset: 0 };
    let color = VertexAttribute {
        location: 1,
        format: FORMAT_R32G32B32_SFLOAT,
        offset: 2 * FLOAT_BYTES,
    };
    let mut attributes: Vec<VertexAttribute> = Vec::new();
    attributes.push(position);
    attributes.push(color);
    VertexLayout { binding: 0, stride: 5 * FLOAT_BYTES, input_rate: INPUT_RATE_VERTEX, attributes }
}

/// Numeric code the graphics API assigns to single-sample rasterization.
pub const SAMPLE_COUNT_1: u32 = 1;

/// Numeric code the graphics API assigns to the clear attachment load op.
pub const LOAD_OP_CLEAR: u32 = 1;

/// Numeric code the graphics API assigns to the don't-care attachment load op.
pub const LOAD_OP_DONT_CARE: u32 = 2;

/// Numeric code the graphics API assigns to the store attachment store op.
pub const STORE_OP_STORE: u32 = 0;

/// Numeric code the graphics API assigns to the don't-care attachment store op.
pub const STORE_OP_DONT_CARE: u32 = 1;

/// Numeric code the graphics API assigns to the undefined image layout.
pub const LAYOUT_UNDEFINED: u32 = 0;

/// Numeric code the graphics API assigns to the color-attachment-optimal
/// image layout.
pub const LAYOUT_COLOR_ATTACHMENT_OPTIMAL: u32 = 2;

/// Numeric code the graphics API assigns to the presentable image layout.
pub const LAYOUT_PRESENT_SRC: u32 = 1000001002;

/// Numeric code the graphics API assigns to the color-attachment-output
/// pipeline stage.
pub const STAGE_COLOR_ATTACHMENT_OUTPUT: u32 = 1024;

/// Numeric code of an empty access mask.
pub const ACCESS_NONE: u32 = 0;

/// Numeric code the graphics API assigns to color-attachment-write access.
pub const ACCESS_COLOR_ATTACHMENT_WRITE: u32 = 256;

/// The fixed render-pass configuration, by the numeric codes of the
/// graphics API: one color attachment and one subpass with an
/// external-to-subpass dependency.
#[derive(Clone, Copy, PartialEq, Eq, Structural, Debug)]
pub struct RenderPassConfig {
    /// Pixel format code of the color attachment: the swapchain's.
    pub color_format: u32,
    /// Sample count code of the attachment.
    pub samples: u32,
    /// Load op code of the attachment.
    pub load_op: u32,
    /// Store op code of the attachment.
    pub store_op: u32,
    /// Stencil load op code of the attachment.
    pub stencil_load_op: u32,
    /// Stencil store op code of the attachment.
    pub stencil_store_op: u32,
    /// Layout code the attachment is in when the pass begins.
    pub initial_layout: u32,
    /// Layout code the attachment is left in when the pass ends.
    pub final_layout: u32,
    /// Layout code the subpass uses the attachment in.
    pub color_attachment_layout: u32,
    /// Stage mask code the dependency waits on outside the pass.
    pub dep_src_stage: u32,
    /// Access mask code of the dependency's source.
    pub dep_src_access: u32,
    /// Stage mask code the dependency gates inside the pass.
    pub dep_dst_stage: u32,
    /// Access mask code the dependency gates inside the pass.
    pub dep_dst_access: u32,
}

/// The render-pass configuration for a color format: the single color
/// attachment is cleared on load and stored on store, enters undefined and
/// leaves presentable, and the external dependency waits for the
/// color-attachment-output stage before color-attachment writes — so the
/// implicit layout transition cannot race a prior frame's presentation.
/// The configuration depends on the format alone, never on the extent.
pub fn render_pass_config(color_format: u32) -> (r: RenderPassConfig)
    ensures
        r == (RenderPassConfig {
            color_format,
            samples: SAMPLE_COUNT_1,
            load_op: LOAD_OP_CLEAR,
            store_op: STORE_OP_STORE,
            stencil_load_op: LOAD_OP_DONT_CARE,
            stencil_store_op: STORE_OP_DONT_CARE,
            initial_layout: LAYOUT_UNDEFINED,
            final_layout: LAYOUT_PRESENT_SRC,
            color_attachment_layout: LAYOUT_COLOR_ATTACHMENT_OPTIMAL,
            dep_src_stage: STAGE_COLOR_ATTACHMENT_OUTPUT,
            dep_src_access: ACCESS_NONE,
            dep_dst_stage: STAGE_COLOR_ATTACHMENT_OUTPUT,
            dep_dst_access: ACCESS_COLOR_ATTACHMENT_WRITE,
        }),
{
    RenderPassConfig {
        color_format,
        samples: SAMPLE_COUNT_1,
        load_op: LOAD_OP_CLEAR,
        store_op: STORE_OP_STORE,
        stencil_load_op: LOAD_OP_DONT_CARE,
        stencil_store_op: STORE_OP_DONT_CARE,
        initial_layout: LAYOUT_UNDEFINED,
        final_layout: LAYOUT_PRESENT_SRC,
        color_attachment_layout: LAYOUT_COLOR_ATTACHMENT_OPTIMAL,
        dep_src_stage: STAGE_COLOR_ATTACHMENT_OUTPUT,
        dep_src_access: ACCESS_NONE,
        dep_dst_stage: STAGE_COLOR_ATTACHMENT_OUTPUT,
        dep_dst_access: ACCESS_COLOR_ATTACHMENT_WRITE,
    }
}

/// Numeric code the graphics API assigns to triangle-list topology.
pub const TOPOLOGY_TRIANGLE_LIST: u32 = 3;

/// Numeric code the graphics API assigns to fill rasterization.
pub const POLYGON_MODE_FILL: u32 = 0;

/// Numeric code the graphics API assigns to back-face culling.
pub const CULL_MODE_BACK: u32 = 2;

/// Numeric code the graphics API assigns to a clockwise front face.
pub const FRONT_FACE_CLOCKWISE: u32 = 1;

/// The integer-coded fixed-function pipeline state. Float-valued state
/// (viewport bounds, line width) stays with the front end.
#[derive(Clone, Copy, PartialEq, Eq, Structural, Debug)]
pub struct FixedFunctionState {
    /// Primitive topology code.
    pub topology: u32,
    /// Whether primitive restart is enabled.
    pub primitive_restart: bool,
    /// Polygon rasterization mode code.
    pub polygon_mode: u32,
    /// Cull mode code.
    pub cull_mode: u32,
    /// Front-face orientation code.
    pub front_face: u32,
    /// Whether color blending is enabled (writes go to all channels either
    /// way).
    pub blend_enable: bool,
    /// Sample count code of rasterization.
    pub sample_count: u32,
    /// Whether the viewport is a dynamic state, set per draw.
    pub dynamic_viewport: bool,
    /// Whether the scissor is a dynamic state, set per draw.
    pub dynamic_scissor: bool,
}

/// The fixed-function state of the one pipeline: triangle lists, fill
/// rasterization, back-face culling with a clockwise front face, blending
/// off, a single sample, and viewport and scissor dynamic — set per draw
/// from the current extent, so a resize never rebuilds the pipeline.
pub fn fixed_function_state() -> (r: FixedFunctionState)
    ensures
        r == (FixedFunctionState {
            topology: TOPOLOGY_TRIANGLE_LIST,
            primitive_restart: false,
            polygon_mode: POLYGON_MODE_FILL,
            cull_mode: CULL_MODE_BACK,
            front_face: FRONT_FACE_CLOCKWISE,
            blend_enable: false,
            sample_count: SAMPLE_COUNT_1,
            dynamic_viewport: true,
            dynamic_scissor: true,
        }),
{
    FixedFunctionState {
        topology: TOPOLOGY_TRIANGLE_LIST,
        primitive_restart: false,
        polygon_mode: POLYGON_MODE_FILL,
        cull_mode: CULL_MODE_BACK,
        front_face: FRONT_FACE_CLOCKWISE,
        blend_enable: false,
        sample_count: SAMPLE_COUNT_1,
        dynamic_viewport: true,
        dynamic_scissor: true,
    }
}

/// One step of building the fixed pipeline.
#[derive(Clone, Copy, PartialEq, Eq, Structural, Debug)]
pub enum PipelineBuildStep {
    /// Create the vertex shader module from its precompiled binary.
    CreateVertexModule,
    /// Create the fragment shader module from its precompiled binary.
    CreateFragmentModule,
    /// Create the pipeline layout.
    CreatePipelineLayout,
    /// Create the graphics pipeline referencing both modules.
    CreatePipeline,
    /// Destroy the vertex shader module.
    DestroyVertexModule,
    /// Destroy the fragment shader module.
    DestroyFragmentModule,
}

/// The fixed build order: both shader modules and the layout exist before
/// the pipeline is created, and the modules are destroyed as soon as it is.
pub open spec fn spec_build_order() -> Seq<PipelineBuildStep> {
    seq![
        PipelineBuildStep::CreateVertexModule,
        PipelineBuildStep::CreateFragmentModule,
        PipelineBuildStep::CreatePipelineLayout,
        PipelineBuildStep::CreatePipeline,
        PipelineBuildStep::DestroyVertexModule,
        PipelineBuildStep::DestroyFragmentModule,
    ]
}

/// The steps of one pipeline build, in the order they must run. A failing
/// step fails the whole build: the caller destroys what the completed steps
/// created — the modules always, the layout too when the pipeline itself
/// failed — and returns nothing partial.
pub fn pipeline_build_steps() -> (r: Vec<PipelineBuildStep>)
    ensures
        r@ == spec_build_order(),
{
    let mut v: Vec<PipelineBuildStep> = Vec::new();
    v.push(PipelineBuildStep::CreateVertexModule);
    v.push(PipelineBuildStep::CreateFragmentModule);
    v.push(PipelineBuildStep::CreatePipelineLayout);
    v.push(PipelineBuildStep::CreatePipeline);
    v.push(PipelineBuildStep::DestroyVertexModule);
    v.push(PipelineBuildStep::DestroyFragmentModule);
    proof {
        assert(v@ =~= spec_build_order());
    }
    v
}

/// Shader modules are transient: each is created before and destroyed after
/// the pipeline-creation step, within the one build.
pub proof fn lemma_modules_are_transient()
    ensures
        ({
            let order = spec_build_order();
            &&& order.index_of(PipelineBuildStep::CreateVertexModule) < order.index_of(
                PipelineBuildStep::CreatePipeline,
            )
            &&& order.index_of(PipelineBuildStep::CreateFragmentModule) < order.index_of(
                PipelineBuildStep::CreatePipeline,
            )
            &&& order.index_of(PipelineBuildStep::CreatePipeline) < order.index_of(
                PipelineBuildStep::DestroyVertexModule,
            )
            &&& order.index_of(PipelineBuildStep::CreatePipeline) < order.index_of(
                PipelineBuildStep::DestroyFragmentModule,
            )
        }),
{
    let order = spec_build_order();
    assert(order.index_of(PipelineBuildStep::CreateVertexModule) == 0);
    assert(order.index_of(PipelineBuildStep::CreateFragmentModule) == 1);
    assert(order.index_of(PipelineBuildStep::CreatePipelineLayout) == 2);
    assert(order.index_of(PipelineBuildStep::CreatePipeline) == 3);
    assert(order.index_of(PipelineBuildStep::DestroyVertexModule) == 4);
    assert(order.index_of(PipelineBuildStep::DestroyFragmentModule) == 5);
}

} // verus!
