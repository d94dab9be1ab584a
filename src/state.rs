//! The fixed-function state descriptors of a graphics pipeline. Each is plain
//! value data whose defaults mirror the native API's. Floating-point fields
//! are held as the bits of an `f32`.
use vstd::prelude::*;
use crate::command_buffer::Rect2D;

verus! {

/// The bits of the `f32` value 1.0.
pub const ONE_F32_BITS: u32 = 0x3f80_0000;

/// Whether a vertex binding advances per vertex or per instance.
#[derive(Clone, Copy, Debug, PartialEq, Eq, Structural)]
pub enum VertexInputRate {
    Vertex,
    Instance,
}

#[derive(Clone, Copy, Debug, PartialEq, Eq, Structural)]
pub struct VertexInputBindingDescription {
    pub binding: u32,
    pub stride: u32,
    pub input_rate: VertexInputRate,
}

#[derive(Clone, Copy, Debug, PartialEq, Eq, Structural)]
pub struct VertexInputAttributeDescription {
    pub location: u32,
    pub binding: u32,
    /// The native format code.
    pub format: u32,
    pub offset: u32,
}

/// Vertex input state; empty by default.
#[derive(Clone, Debug)]
pub struct PipelineVertexInputStateCreateInfo {
    pub bindings: Vec<VertexInputBindingDescription>,
    pub attributes: Vec<VertexInputAttributeDescription>,
}

/// `s` holds the default vertex input state.
pub open spec fn is_default_vertex_input(s: PipelineVertexInputStateCreateInfo) -> bool {
    s.bindings@.len() == 0 && s.attributes@.len() == 0
}

impl Default for PipelineVertexInputStateCreateInfo {
    fn default() -> (r: Self)
        ensures
            is_default_vertex_input(r),
    {
        PipelineVertexInputStateCreateInfo { bindings: Vec::new(), attributes: Vec::new() }
    }
}

#[derive(Clone, Copy, Debug, PartialEq, Eq, Structural)]
pub enum PrimitiveTopology {
    PointList,
    LineList,
    LineStrip,
    TriangleList,
    TriangleStrip,
    TriangleFan,
    PatchList,
}

/// Input assembly state; a point list without primitive restart by default.
#[derive(Clone, Copy, Debug, PartialEq, Eq, Structural)]
pub struct PipelineInputAssemblyStateCreateInfo {
    pub topology: PrimitiveTopology,
    pub primitive_restart_enable: bool,
}

/// `s` holds the default input assembly state.
pub open spec fn is_default_input_assembly(s: PipelineInputAssemblyStateCreateInfo) -> bool {
    s.topology == PrimitiveTopology::PointList && !s.primitive_restart_enable
}

impl Default for PipelineInputAssemblyStateCreateInfo {
    fn default() -> (r: Self)
        ensures
            is_default_input_assembly(r),
    {
        PipelineInputAssemblyStateCreateInfo {
            topology: PrimitiveTopology::PointList,
            primitive_restart_enable: false,
        }
    }
}

/// A viewport, each field the bits of an `f32`.
#[derive(Clone, Copy, Debug, PartialEq, Eq, Structural)]
pub struct Viewport {
    pub x_bits: u32,
    pub y_bits: u32,
    pub width_bits: u32,
    pub height_bits: u32,
    pub min_depth_bits: u32,
    pub max_depth_bits: u32,
}

/// Viewport state; no viewport and no scissor by default.
#[derive(Clone, Debug)]
pub struct PipelineViewportStateCreateInfo {
    pub viewports: Vec<Viewport>,
    pub scissors: Vec<Rect2D>,
}

/// `s` holds the default viewport state.
pub open spec fn is_default_viewport(s: PipelineViewportStateCreateInfo) -> bool {
    s.viewports@.len() == 0 && s.scissors@.len() == 0
}

impl Default for PipelineViewportStateCreateInfo {
    fn default() -> (r: Self)
        ensures
            is_default_viewport(r),
    {
        PipelineViewportStateCreateInfo { viewports: Vec::new(), scissors: Vec::new() }
    }
}

#[derive(Clone, Copy, Debug, PartialEq, Eq, Structural)]
pub enum PolygonMode {
    Fill,
    Line,
    Point,
}

#[derive(Clone, Copy, Debug, PartialEq, Eq, Structural)]
pub enum FrontFace {
    CounterClockwise,
    Clockwise,
}

/// Rasterization state; filled polygons, no culling and a line width of 1.0
/// by default.
#[derive(Clone, Copy, Debug, PartialEq, Eq, Structural)]
pub struct PipelineRasterizationStateCreateInfo {
    pub depth_clamp_enable: bool,
    pub rasterizer_discard_enable: bool,
    pub polygon_mode: PolygonMode,
    /// The native cull-mode flags.
    pub cull_mode: u32,
    pub front_face: FrontFace,
    pub depth_bias_enable: bool,
    pub depth_bias_constant_factor_bits: u32,
    pub depth_bias_clamp_bits: u32,
    pub depth_bias_slope_factor_bits: u32,
    pub line_width_bits: u32,
}

/// `s` holds the default rasterization state.
pub open spec fn is_default_rasterization(s: PipelineRasterizationStateCreateInfo) -> bool {
    !s.depth_clamp_enable && !s.rasterizer_discard_enable && !s.depth_bias_enable
        && s.polygon_mode == PolygonMode::Fill && s.cull_mode == 0
        && s.front_face == FrontFace::CounterClockwise
        && s.depth_bias_constant_factor_bits == 0 && s.depth_bias_clamp_bits == 0
        && s.depth_bias_slope_factor_bits == 0 && s.line_width_bits == ONE_F32_BITS
}

impl Default for PipelineRasterizationStateCreateInfo {
    fn default() -> (r: Self)
        ensures
            is_default_rasterization(r),
    {
        PipelineRasterizationStateCreateInfo {
            depth_clamp_enable: false,
            rasterizer_discard_enable: false,
            polygon_mode: PolygonMode::Fill,
            cull_mode: 0,
            front_face: FrontFace::CounterClockwise,
            depth_bias_enable: false,
            depth_bias_constant_factor_bits: 0,
            depth_bias_clamp_bits: 0,
            depth_bias_slope_factor_bits: 0,
            line_width_bits: ONE_F32_BITS,
        }
    }
}

/// Multisample state; one sample per pixel by default.
#[derive(Clone, Copy, Debug, PartialEq, Eq, Structural)]
pub struct PipelineMultisampleStateCreateInfo {
    /// The native sample-count flag.
    pub rasterization_samples: u32,
    pub sample_shading_enable: bool,
    pub min_sample_shading_bits: u32,
    pub alpha_to_coverage_enable: bool,
    pub alpha_to_one_enable: bool,
}

/// `s` holds the default multisample state.
pub open spec fn is_default_multisample(s: PipelineMultisampleStateCreateInfo) -> bool {
    s.rasterization_samples == 1 && !s.sample_shading_enable && !s.alpha_to_coverage_enable
        && !s.alpha_to_one_enable && s.min_sample_shading_bits == 0
}

impl Default for PipelineMultisampleStateCreateInfo {
    fn default() -> (r: Self)
        ensures
            is_default_multisample(r),
    {
        PipelineMultisampleStateCreateInfo {
            rasterization_samples: 1,
            sample_shading_enable: false,
            min_sample_shading_bits: 0,
            alpha_to_coverage_enable: false,
            alpha_to_one_enable: false,
        }
    }
}

/// Depth and stencil state; every test off by default.
#[derive(Clone, Copy, Debug, PartialEq, Eq, Structural)]
pub struct PipelineDepthStencilStateCreateInfo {
    pub depth_test_enable: bool,
    pub depth_write_enable: bool,
    /// The native compare-op code.
    pub depth_compare_op: u32,
    pub depth_bounds_test_enable: bool,
    pub stencil_test_enable: bool,
    pub min_depth_bounds_bits: u32,
    pub max_depth_bounds_bits: u32,
}

/// `s` holds the default depth stencil state.
pub open spec fn is_default_depth_stencil(s: PipelineDepthStencilStateCreateInfo) -> bool {
    !s.depth_test_enable && !s.depth_write_enable && !s.depth_bounds_test_enable
        && !s.stencil_test_enable && s.depth_compare_op == 0 && s.min_depth_bounds_bits == 0
        && s.max_depth_bounds_bits == 0
}

impl Default for PipelineDepthStencilStateCreateInfo {
    fn default() -> (r: Self)
        ensures
            is_default_depth_stencil(r),
    {
        PipelineDepthStencilStateCreateInfo {
            depth_test_enable: false,
            depth_write_enable: false,
            depth_compare_op: 0,
            depth_bounds_test_enable: false,
            stencil_test_enable: false,
            min_depth_bounds_bits: 0,
            max_depth_bounds_bits: 0,
        }
    }
}

/// The blending of one colour attachment; the factors and ops are native codes.
#[derive(Clone, Copy, Debug, PartialEq, Eq, Structural)]
pub struct PipelineColorBlendAttachmentState {
    pub blend_enable: bool,
    pub src_color_blend_factor: u32,
    pub dst_color_blend_factor: u32,
    pub color_blend_op: u32,
    pub src_alpha_blend_factor: u32,
    pub dst_alpha_blend_factor: u32,
    pub alpha_blend_op: u32,
    pub color_write_mask: u32,
}

/// Colour blend state; no attachment and no logic op by default.
#[derive(Clone, Debug)]
pub struct PipelineColorBlendStateCreateInfo {
    pub logic_op_enable: bool,
    pub logic_op: u32,
    pub attachments: Vec<PipelineColorBlendAttachmentState>,
    pub blend_constants_bits: [u32; 4],
}

/// `s` holds the default color blend state.
pub open spec fn is_default_color_blend(s: PipelineColorBlendStateCreateInfo) -> bool {
    !s.logic_op_enable && s.logic_op == 0 && s.attachments@.len() == 0
        && s.blend_constants_bits@ == seq![0u32, 0u32, 0u32, 0u32]
}

impl Default for PipelineColorBlendStateCreateInfo {
    fn default() -> (r: Self)
        ensures
            is_default_color_blend(r),
    {
        PipelineColorBlendStateCreateInfo {
            logic_op_enable: false,
            logic_op: 0,
            attachments: Vec::new(),
            blend_constants_bits: [0, 0, 0, 0],
        }
    }
}

/// Tessellation state.
pub struct PipelineTessellationStateCreateInfo {
    pub patch_control_points: u32,
}

/// `s` holds the default tessellation state.
pub open spec fn is_default_tessellation(s: PipelineTessellationStateCreateInfo) -> bool {
    s.patch_control_points == 0
}

impl Default for PipelineTessellationStateCreateInfo {
    fn default() -> (r: Self)
        ensures
            is_default_tessellation(r),
    {
        PipelineTessellationStateCreateInfo { patch_control_points: 0 }
    }
}

impl PipelineTessellationStateCreateInfo {
    /// A builder that starts from the default state.
    pub fn builder() -> (r: PipelineTessellationStateCreateInfoBuilder)
        ensures
            r.inner.patch_control_points == 0,
    {
        PipelineTessellationStateCreateInfoBuilder {
            inner: PipelineTessellationStateCreateInfo::default(),
        }
    }
}

/// Builds a `PipelineTessellationStateCreateInfo`.
pub struct PipelineTessellationStateCreateInfoBuilder {
    pub inner: PipelineTessellationStateCreateInfo,
}

impl Default for PipelineTessellationStateCreateInfoBuilder {
    fn default() -> (r: Self)
        ensures
            r.inner.patch_control_points == 0,
    {
        PipelineTessellationStateCreateInfoBuilder {
            inner: PipelineTessellationStateCreateInfo::default(),
        }
    }
}

impl PipelineTessellationStateCreateInfoBuilder {
    pub fn patch_control_points(self, patch_control_points: u32) -> (r: Self)
        ensures
            r.inner.patch_control_points == patch_control_points,
    {
        let mut b = self;
        b.inner.patch_control_points = patch_control_points;
        b
    }

    pub fn build(self) -> (r: PipelineTessellationStateCreateInfo)
        ensures
            r == self.inner,
    {
        self.inner
    }
}

} // verus!
