//! What the draw pipeline is built from: an empty root signature, two
//! shaders, a two-element input layout and the fixed-function state.

use vstd::prelude::*;
use crate::error::hr_succeeded;
use crate::error::ShaderStage;
use crate::swap_chain::FORMAT_R8G8B8A8_UNORM;
use crate::swap_chain::FORMAT_UNKNOWN;

verus! {

/// Root signature flag that lets the input assembler use an input layout.
pub const ROOT_SIGNATURE_FLAG_ALLOW_INPUT_LAYOUT: u32 = 0x1;

/// Version 1.0 of the root signature format.
pub const ROOT_SIGNATURE_VERSION_1_0: u32 = 0x1;

/// Compiler flag: keep debug information.
pub const COMPILE_DEBUG: u32 = 0x1;

/// Compiler flag: do not optimize.
pub const COMPILE_SKIP_OPTIMIZATION: u32 = 0x4;

/// Three single-precision numbers per element.
pub const FORMAT_R32G32B32_FLOAT: u32 = 6;

/// The element steps once per vertex.
pub const INPUT_CLASSIFICATION_PER_VERTEX_DATA: u32 = 0;

pub const BLEND_ZERO: u32 = 1;

pub const BLEND_ONE: u32 = 2;

pub const BLEND_OP_ADD: u32 = 1;

pub const LOGIC_OP_NOOP: u32 = 4;

pub const COLOR_WRITE_ENABLE_ALL: u8 = 15;

pub const FILL_MODE_SOLID: u32 = 3;

pub const CULL_MODE_BACK: u32 = 3;

pub const CONSERVATIVE_RASTERIZATION_MODE_OFF: u32 = 0;

pub const DEPTH_WRITE_MASK_ZERO: u32 = 0;

pub const COMPARISON_FUNC_NEVER: u32 = 1;

pub const INDEX_BUFFER_STRIP_CUT_VALUE_DISABLED: u32 = 0;

pub const PRIMITIVE_TOPOLOGY_TYPE_TRIANGLE: u32 = 3;

pub const PIPELINE_STATE_FLAG_NONE: u32 = 0;

/// A root signature: how many parameters and static samplers it declares,
/// and its flags.
#[derive(Clone, Copy, Debug, PartialEq, Eq, Structural)]
pub struct RootSignatureDesc {
    pub num_parameters: u32,
    pub num_static_samplers: u32,
    pub flags: u32,
    pub version: u32,
}

/// The root signature of the triangle pipeline: nothing is bound, the input
/// layout is allowed.
pub fn root_signature_desc() -> (desc: RootSignatureDesc)
    ensures
        desc == (RootSignatureDesc {
            num_parameters: 0,
            num_static_samplers: 0,
            flags: ROOT_SIGNATURE_FLAG_ALLOW_INPUT_LAYOUT,
            version: ROOT_SIGNATURE_VERSION_1_0,
        }),
{
    RootSignatureDesc {
        num_parameters: 0,
        num_static_samplers: 0,
        flags: ROOT_SIGNATURE_FLAG_ALLOW_INPUT_LAYOUT,
        version: ROOT_SIGNATURE_VERSION_1_0,
    }
}

/// How one shader is compiled: the path of the shader source, the entry
/// symbol, the target profile and the compiler flags.
#[derive(Clone, Copy, Debug, PartialEq, Eq)]
pub struct ShaderCompileRequest<'a> {
    pub source_path: &'a str,
    pub stage: ShaderStage,
    pub entry_point: &'static str,
    pub target: &'static str,
    pub flags: u32,
}

/// The compiler flags of a build: a validating build asks for debug
/// information and no optimization, any other build for neither.
pub open spec fn compile_flags(validation_enabled: bool) -> u32 {
    if validation_enabled {
        5
    } else {
        0
    }
}

/// The compiler flags of a build.
pub fn shader_compile_flags(validation_enabled: bool) -> (flags: u32)
    ensures
        flags == compile_flags(validation_enabled),
{
    if validation_enabled {
        assert(COMPILE_DEBUG | COMPILE_SKIP_OPTIMIZATION == 5) by (bit_vector);
        COMPILE_DEBUG | COMPILE_SKIP_OPTIMIZATION
    } else {
        0
    }
}

/// The compile request of `stage`: the shader is compiled from the source
/// at `source_path`, with the entry symbol and the target profile of its
/// stage.
pub fn shader_compile_request<'a>(
    source_path: &'a str,
    stage: ShaderStage,
    validation_enabled: bool,
) -> (request: ShaderCompileRequest<'a>)
    ensures
        request.source_path@ == source_path@,
        request.stage == stage,
        request.flags == compile_flags(validation_enabled),
        stage == ShaderStage::Vertex ==> request.entry_point@ == "VSMain"@ && request.target@
            == "vs_5_0"@,
        stage == ShaderStage::Pixel ==> request.entry_point@ == "PSMain"@ && request.target@
            == "ps_5_0"@,
{
    let flags = shader_compile_flags(validation_enabled);
    match stage {
        ShaderStage::Vertex => ShaderCompileRequest {
            source_path,
            stage,
            entry_point: "VSMain",
            target: "vs_5_0",
            flags,
        },
        ShaderStage::Pixel => ShaderCompileRequest {
            source_path,
            stage,
            entry_point: "PSMain",
            target: "ps_5_0",
            flags,
        },
    }
}

/// Whether a compilation that ended with `code` and `bytecode_size` bytes of
/// bytecode produced a usable shader.
pub open spec fn shader_compiled(code: i32, bytecode_size: u64) -> bool {
    hr_succeeded(code) && bytecode_size > 0
}

/// One element of the input layout.
#[derive(Clone, Copy, Debug, PartialEq, Eq)]
pub struct InputElementDesc {
    pub semantic_name: &'static str,
    pub semantic_index: u32,
    pub format: u32,
    pub input_slot: u32,
    pub aligned_byte_offset: u32,
    pub input_slot_class: u32,
    pub instance_data_step_rate: u32,
}

/// What holds of one element of the triangle's input layout: three
/// single-precision numbers per vertex, read from slot 0 at `offset`.
pub open spec fn is_vertex_element(element: InputElementDesc, name: Seq<char>, offset: u32) -> bool {
    &&& element.semantic_name@ == name
    &&& element.semantic_index == 0
    &&& element.format == FORMAT_R32G32B32_FLOAT
    &&& element.input_slot == 0
    &&& element.aligned_byte_offset == offset
    &&& element.input_slot_class == INPUT_CLASSIFICATION_PER_VERTEX_DATA
    &&& element.instance_data_step_rate == 0
}

/// The input layout: `POSITION` at offset 0 and `COLOR` at offset 12. The
/// colour takes 16 bytes in a vertex; the layout reads its first 12.
pub fn input_layout() -> (layout: Vec<InputElementDesc>)
    ensures
        layout@.len() == 2,
        is_vertex_element(layout@[0], "POSITION"@, 0),
        is_vertex_element(layout@[1], "COLOR"@, 12),
{
    let mut layout: Vec<InputElementDesc> = Vec::new();
    layout.push(
        InputElementDesc {
            semantic_name: "POSITION",
            semantic_index: 0,
            format: FORMAT_R32G32B32_FLOAT,
            input_slot: 0,
            aligned_byte_offset: 0,
            input_slot_class: INPUT_CLASSIFICATION_PER_VERTEX_DATA,
            instance_data_step_rate: 0,
        },
    );
    layout.push(
        InputElementDesc {
            semantic_name: "COLOR",
            semantic_index: 0,
            format: FORMAT_R32G32B32_FLOAT,
            input_slot: 0,
            aligned_byte_offset: 12,
            input_slot_class: INPUT_CLASSIFICATION_PER_VERTEX_DATA,
            instance_data_step_rate: 0,
        },
    );
    layout
}

/// Blending of one render target.
#[derive(Clone, Copy, Debug, PartialEq, Eq, Structural)]
pub struct RenderTargetBlendDesc {
    pub blend_enable: bool,
    pub logic_op_enable: bool,
    pub src_blend: u32,
    pub dest_blend: u32,
    pub blend_op: u32,
    pub src_blend_alpha: u32,
    pub dest_blend_alpha: u32,
    pub blend_op_alpha: u32,
    pub logic_op: u32,
    pub render_target_write_mask: u8,
}

/// Blending of the pipeline. `render_target` holds for each of its slots.
#[derive(Clone, Copy, Debug, PartialEq, Eq, Structural)]
pub struct BlendDesc {
    pub alpha_to_coverage_enable: bool,
    pub independent_blend_enable: bool,
    pub render_target: RenderTargetBlendDesc,
}

/// The rasterizer. The depth bias clamp and the slope-scaled depth bias are
/// bit patterns of single-precision numbers.
#[derive(Clone, Copy, Debug, PartialEq, Eq, Structural)]
pub struct RasterizerDesc {
    pub fill_mode: u32,
    pub cull_mode: u32,
    pub front_counter_clockwise: bool,
    pub depth_bias: i32,
    pub depth_bias_clamp: u32,
    pub slope_scaled_depth_bias: u32,
    pub depth_clip_enable: bool,
    pub multisample_enable: bool,
    pub antialiased_line_enable: bool,
    pub forced_sample_count: u32,
    pub conservative_raster: u32,
}

/// Stencil operations of one face.
#[derive(Clone, Copy, Debug, PartialEq, Eq, Structural)]
pub struct DepthStencilOpDesc {
    pub stencil_fail_op: u32,
    pub stencil_depth_fail_op: u32,
    pub stencil_pass_op: u32,
    pub stencil_func: u32,
}

/// The depth and stencil test.
#[derive(Clone, Copy, Debug, PartialEq, Eq, Structural)]
pub struct DepthStencilDesc {
    pub depth_enable: bool,
    pub depth_write_mask: u32,
    pub depth_func: u32,
    pub stencil_enable: bool,
    pub stencil_read_mask: u8,
    pub stencil_write_mask: u8,
    pub front_face: DepthStencilOpDesc,
    pub back_face: DepthStencilOpDesc,
}

/// The fixed-function part of the graphics pipeline state. Of the render
/// target formats the first `num_render_targets` are `rtv_format`, the others
/// are unknown.
#[derive(Clone, Copy, Debug, PartialEq, Eq, Structural)]
pub struct GraphicsPipelineDesc {
    pub blend_state: BlendDesc,
    pub sample_mask: u32,
    pub rasterizer_state: RasterizerDesc,
    pub depth_stencil_state: DepthStencilDesc,
    pub ib_strip_cut_value: u32,
    pub primitive_topology_type: u32,
    pub num_render_targets: u32,
    pub rtv_format: u32,
    pub dsv_format: u32,
    pub sample_count: u32,
    pub sample_quality: u32,
    pub node_mask: u32,
    pub flags: u32,
}

/// The state of the triangle pipeline: no blending, solid fill, back faces
/// culled, no depth or stencil test, one single-sampled render target in the
/// format of the swap chain, triangles.
pub open spec fn triangle_pipeline() -> GraphicsPipelineDesc {
    GraphicsPipelineDesc {
        blend_state: BlendDesc {
            alpha_to_coverage_enable: false,
            independent_blend_enable: true,
            render_target: RenderTargetBlendDesc {
                blend_enable: false,
                logic_op_enable: false,
                src_blend: BLEND_ONE,
                dest_blend: BLEND_ZERO,
                blend_op: BLEND_OP_ADD,
                src_blend_alpha: BLEND_ONE,
                dest_blend_alpha: BLEND_ZERO,
                blend_op_alpha: BLEND_OP_ADD,
                logic_op: LOGIC_OP_NOOP,
                render_target_write_mask: COLOR_WRITE_ENABLE_ALL,
            },
        },
        sample_mask: u32::MAX,
        rasterizer_state: RasterizerDesc {
            fill_mode: FILL_MODE_SOLID,
            cull_mode: CULL_MODE_BACK,
            front_counter_clockwise: false,
            depth_bias: 0,
            depth_bias_clamp: 0,
            slope_scaled_depth_bias: 0,
            depth_clip_enable: true,
            multisample_enable: false,
            antialiased_line_enable: false,
            forced_sample_count: 0,
            conservative_raster: CONSERVATIVE_RASTERIZATION_MODE_OFF,
        },
        depth_stencil_state: DepthStencilDesc {
            depth_enable: false,
            depth_write_mask: DEPTH_WRITE_MASK_ZERO,
            depth_func: COMPARISON_FUNC_NEVER,
            stencil_enable: false,
            stencil_read_mask: 0,
            stencil_write_mask: 0,
            front_face: DepthStencilOpDesc {
                stencil_fail_op: 0,
                stencil_depth_fail_op: 0,
                stencil_pass_op: 0,
                stencil_func: 0,
            },
            back_face: DepthStencilOpDesc {
                stencil_fail_op: 0,
                stencil_depth_fail_op: 0,
                stencil_pass_op: 0,
                stencil_func: 0,
            },
        },
        ib_strip_cut_value: INDEX_BUFFER_STRIP_CUT_VALUE_DISABLED,
        primitive_topology_type: PRIMITIVE_TOPOLOGY_TYPE_TRIANGLE,
        num_render_targets: 1,
        rtv_format: FORMAT_R8G8B8A8_UNORM,
        dsv_format: FORMAT_UNKNOWN,
        sample_count: 1,
        sample_quality: 0,
        node_mask: 0,
        flags: PIPELINE_STATE_FLAG_NONE,
    }
}

/// The fixed-function state of the triangle pipeline.
pub fn graphics_pipeline_desc() -> (desc: GraphicsPipelineDesc)
    ensures
        desc == triangle_pipeline(),
{
    let no_stencil = DepthStencilOpDesc {
        stencil_fail_op: 0,
        stencil_depth_fail_op: 0,
        stencil_pass_op: 0,
        stencil_func: 0,
    };
    GraphicsPipelineDesc {
        blend_state: BlendDesc {
            alpha_to_coverage_enable: false,
            independent_blend_enable: true,
            render_target: RenderTargetBlendDesc {
                blend_enable: false,
                logic_op_enable: false,
                src_blend: BLEND_ONE,
                dest_blend: BLEND_ZERO,
                blend_op: BLEND_OP_ADD,
                src_blend_alpha: BLEND_ONE,
                dest_blend_alpha: BLEND_ZERO,
                blend_op_alpha: BLEND_OP_ADD,
                logic_op: LOGIC_OP_NOOP,
                render_target_write_mask: COLOR_WRITE_ENABLE_ALL,
            },
        },
        sample_mask: u32::MAX,
        rasterizer_state: RasterizerDesc {
            fill_mode: FILL_MODE_SOLID,
            cull_mode: CULL_MODE_BACK,
            front_counter_clockwise: false,
            depth_bias: 0,
            depth_bias_clamp: 0,
            slope_scaled_depth_bias: 0,
            depth_clip_enable: true,
            multisample_enable: false,
            antialiased_line_enable: false,
            forced_sample_count: 0,
            conservative_raster: CONSERVATIVE_RASTERIZATION_MODE_OFF,
        },
        depth_stencil_state: DepthStencilDesc {
            depth_enable: false,
            depth_write_mask: DEPTH_WRITE_MASK_ZERO,
            depth_func: COMPARISON_FUNC_NEVER,
            stencil_enable: false,
            stencil_read_mask: 0,
            stencil_write_mask: 0,
            front_face: no_stencil,
            back_face: no_stencil,
        },
        ib_strip_cut_value: INDEX_BUFFER_STRIP_CUT_VALUE_DISABLED,
        primitive_topology_type: PRIMITIVE_TOPOLOGY_TYPE_TRIANGLE,
        num_render_targets: 1,
        rtv_format: FORMAT_R8G8B8A8_UNORM,
        dsv_format: FORMAT_UNKNOWN,
        sample_count: 1,
        sample_quality: 0,
        node_mask: 0,
        flags: PIPELINE_STATE_FLAG_NONE,
    }
}

} // verus!
