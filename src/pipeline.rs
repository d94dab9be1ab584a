//! Pipeline layouts and graphics pipelines: their builders, the creation
//! requests handed to the device, and the order in which they are torn down.
//!
//! Creating a native object takes two steps. `build` checks the builder and
//! assembles a request of plain values; the device's creation call is made
//! with that request; `complete` turns the call's outcome into the object,
//! which then holds every reference it depends on.
use vstd::prelude::*;
use crate::handle::{DescriptorSetLayout, Device, DriverError, RenderPass, ShaderModule};
use crate::shader_stage::{
    PipelineShaderStageCreateInfo, ShaderStage, StageTable, STAGE_KIND_COUNT, stage_at,
    stage_bits, stage_entries,
};
use crate::state::{
    PipelineColorBlendStateCreateInfo, PipelineDepthStencilStateCreateInfo,
    PipelineInputAssemblyStateCreateInfo, PipelineMultisampleStateCreateInfo,
    PipelineRasterizationStateCreateInfo, PipelineTessellationStateCreateInfo,
    PipelineVertexInputStateCreateInfo, PipelineViewportStateCreateInfo, is_default_color_blend,
    is_default_depth_stencil, is_default_input_assembly, is_default_multisample,
    is_default_rasterization, is_default_tessellation, is_default_vertex_input,
    is_default_viewport,
};
use std::sync::Arc;

verus! {

/// A range of push constants visible to the stages in `stage_flags`.
#[derive(Clone, Copy, Debug, PartialEq, Eq, Structural)]
pub struct PushConstantRange {
    pub stage_flags: u32,
    pub offset: u32,
    pub size: u32,
}

/// One step of tearing an object down.
pub enum Release {
    DestroyPipeline(u64),
    DestroyPipelineLayout(u64),
    RenderPass(Arc<RenderPass>),
    ShaderModule(Arc<ShaderModule>),
    Device(Arc<Device>),
}

/// A teardown step, with the objects it releases by value.
pub enum ReleaseStep {
    DestroyPipeline(u64),
    DestroyPipelineLayout(u64),
    RenderPass(RenderPass),
    ShaderModule(ShaderModule),
    Device(Device),
}

impl View for Release {
    type V = ReleaseStep;

    open spec fn view(&self) -> ReleaseStep {
        match self {
            Release::DestroyPipeline(h) => ReleaseStep::DestroyPipeline(*h),
            Release::DestroyPipelineLayout(h) => ReleaseStep::DestroyPipelineLayout(*h),
            Release::RenderPass(r) => ReleaseStep::RenderPass(**r),
            Release::ShaderModule(m) => ReleaseStep::ShaderModule(**m),
            Release::Device(d) => ReleaseStep::Device(**d),
        }
    }
}

/// The steps in `plan`, by value.
pub open spec fn release_steps(plan: Seq<Release>) -> Seq<ReleaseStep> {
    plan.map_values(|r: Release| r@)
}

// ---------------------------------------------------------------- layouts

/// The abstract state of a pipeline layout.
pub struct PipelineLayoutView {
    pub device: Device,
    pub handle: u64,
}

/// A native pipeline layout and the device that made it.
pub struct PipelineLayout {
    device: Arc<Device>,
    handle: u64,
}

impl View for PipelineLayout {
    type V = PipelineLayoutView;

    closed spec fn view(&self) -> PipelineLayoutView {
        PipelineLayoutView { device: *self.device, handle: self.handle }
    }
}

/// The abstract state of a pipeline layout builder.
pub struct PipelineLayoutBuilderView {
    pub device: Device,
    pub set_layouts: Seq<DescriptorSetLayout>,
    pub push_constant_ranges: Seq<PushConstantRange>,
}

/// Collects the set layouts and push-constant ranges of a pipeline layout.
pub struct PipelineLayoutBuilder {
    device: Arc<Device>,
    set_layouts: Vec<Arc<DescriptorSetLayout>>,
    push_constant_ranges: Vec<PushConstantRange>,
}

/// `layouts` by value.
pub open spec fn set_layout_values(layouts: Seq<Arc<DescriptorSetLayout>>) -> Seq<
    DescriptorSetLayout,
> {
    layouts.map_values(|l: Arc<DescriptorSetLayout>| *l)
}

/// The raw handles of `layouts`, in order.
pub open spec fn raw_set_layouts(layouts: Seq<DescriptorSetLayout>) -> Seq<u64> {
    layouts.map_values(|l: DescriptorSetLayout| l.raw)
}

impl View for PipelineLayoutBuilder {
    type V = PipelineLayoutBuilderView;

    closed spec fn view(&self) -> PipelineLayoutBuilderView {
        PipelineLayoutBuilderView {
            device: *self.device,
            set_layouts: set_layout_values(self.set_layouts@),
            push_constant_ranges: self.push_constant_ranges@,
        }
    }
}

/// The native creation request of a pipeline layout.
pub struct PipelineLayoutRequest {
    pub device: Arc<Device>,
    /// The raw handles of the set layouts, in the order they were added.
    pub set_layouts: Vec<u64>,
    /// The push-constant ranges, in the order they were added.
    pub push_constant_ranges: Vec<PushConstantRange>,
}

/// `req` asks for the layout that `b` describes.
pub open spec fn requests_layout(req: PipelineLayoutRequest, b: PipelineLayoutBuilderView) -> bool {
    &&& *req.device == b.device
    &&& req.set_layouts@ == raw_set_layouts(b.set_layouts)
    &&& req.push_constant_ranges@ == b.push_constant_ranges
}

/// The teardown of a layout: the native layout first, then the device reference.
pub open spec fn layout_teardown(v: PipelineLayoutView) -> Seq<ReleaseStep> {
    seq![ReleaseStep::DestroyPipelineLayout(v.handle), ReleaseStep::Device(v.device)]
}

impl PipelineLayout {
    /// A builder with no set layout and no push-constant range.
    pub fn builder(device: Arc<Device>) -> (r: PipelineLayoutBuilder)
        ensures
            r@.device == *device,
            r@.set_layouts.len() == 0,
            r@.push_constant_ranges.len() == 0,
    {
        let r = PipelineLayoutBuilder {
            device,
            set_layouts: Vec::new(),
            push_constant_ranges: Vec::new(),
        };
        assert(r@.set_layouts =~= Seq::empty());
        r
    }

    /// The native handle.
    pub fn handle(&self) -> (r: u64)
        ensures
            r == self@.handle,
    {
        self.handle
    }

    /// The device that made this layout.
    pub fn device(&self) -> (r: &Arc<Device>)
        ensures
            **r == self@.device,
    {
        &self.device
    }

    /// The steps that release this layout, in the order they must be taken.
    pub fn teardown(self) -> (r: Vec<Release>)
        ensures
            release_steps(r@) == layout_teardown(self@),
    {
        let mut r: Vec<Release> = Vec::new();
        r.push(Release::DestroyPipelineLayout(self.handle));
        r.push(Release::Device(self.device));
        assert(release_steps(r@) =~= layout_teardown(self@));
        r
    }
}

impl PipelineLayoutBuilder {
    /// Appends `set_layout` to the set layouts.
    pub fn add_set_layout(self, set_layout: Arc<DescriptorSetLayout>) -> (r: Self)
        ensures
            r@ == (PipelineLayoutBuilderView {
                set_layouts: self@.set_layouts.push(*set_layout),
                ..self@
            }),
    {
        let mut b = self;
        b.set_layouts.push(set_layout);
        assert(b@.set_layouts =~= self@.set_layouts.push(*set_layout));
        b
    }

    /// Appends `push_constant_range` to the push-constant ranges.
    pub fn add_push_constant_range(self, push_constant_range: PushConstantRange) -> (r: Self)
        ensures
            r@ == (PipelineLayoutBuilderView {
                push_constant_ranges: self@.push_constant_ranges.push(push_constant_range),
                ..self@
            }),
    {
        let mut b = self;
        b.push_constant_ranges.push(push_constant_range);
        b
    }

    /// The creation request of the layout described so far.
    pub fn build(self) -> (r: PipelineLayoutRequest)
        ensures
            requests_layout(r, self@),
    {
        let mut raw: Vec<u64> = Vec::new();
        let mut i: usize = 0;
        while i < self.set_layouts.len()
            invariant
                i <= self.set_layouts@.len(),
                raw@ == raw_set_layouts(set_layout_values(self.set_layouts@.take(i as int))),
            decreases self.set_layouts@.len() - i,
        {
            raw.push(self.set_layouts[i].raw);
            i = i + 1;
            assert(self.set_layouts@.take(i as int).drop_last() =~= self.set_layouts@.take(
                i - 1,
            ));
        }
        assert(self.set_layouts@.take(i as int) =~= self.set_layouts@);
        PipelineLayoutRequest {
            device: self.device,
            set_layouts: raw,
            push_constant_ranges: self.push_constant_ranges,
        }
    }
}

impl PipelineLayoutRequest {
    /// The layout made from this request by a creation call that returned
    /// `created`: on success the layout holds the native handle and the
    /// device; on failure nothing is kept.
    pub fn complete(self, created: Result<u64, DriverError>) -> (r: Result<
        Arc<PipelineLayout>,
        PipelineError,
    >)
        ensures
            match created {
                Ok(h) => r matches Ok(l) && l@ == PipelineLayoutView { device: *self.device, handle: h },
                Err(e) => r == Err::<Arc<PipelineLayout>, PipelineError>(PipelineError::Driver(e)),
            },
    {
        match created {
            Ok(handle) => Ok(Arc::new(PipelineLayout { device: self.device, handle })),
            Err(e) => Err(PipelineError::Driver(e)),
        }
    }
}

// -------------------------------------------------------------- pipelines

/// Why a pipeline could not be made.
#[derive(Clone, Copy, Debug, PartialEq, Eq, Structural)]
pub enum PipelineError {
    /// A second stage of this kind was added to the builder.
    DuplicateStage(ShaderStage),
    /// The device's creation call failed.
    Driver(DriverError),
}

/// A subpass of a render pass, by index.
#[derive(Clone, Copy, Debug, PartialEq, Eq, Structural)]
pub struct SubpassIndex(pub u32);

/// The abstract state of a pipeline.
pub struct PipelineView {
    pub device: Device,
    pub handle: u64,
    pub render_pass: Option<RenderPass>,
    pub shader_modules: Seq<ShaderModule>,
}

/// A compiled graphics pipeline. It holds the render pass it was built
/// against and the modules of all its stages for as long as it lives.
pub struct Pipeline {
    device: Arc<Device>,
    render_pass_holder: Option<Arc<RenderPass>>,
    shader_modules_holder: Vec<Arc<ShaderModule>>,
    handle: u64,
}

/// `o` by value.
pub open spec fn render_pass_value(o: Option<Arc<RenderPass>>) -> Option<RenderPass> {
    match o {
        Some(r) => Some(*r),
        None => None,
    }
}

/// `modules` by value.
pub open spec fn module_values(modules: Seq<Arc<ShaderModule>>) -> Seq<ShaderModule> {
    modules.map_values(|m: Arc<ShaderModule>| *m)
}

/// The modules of `stages`, in order.
pub open spec fn stage_modules(stages: Seq<PipelineShaderStageCreateInfo>) -> Seq<ShaderModule> {
    stages.map_values(|s: PipelineShaderStageCreateInfo| *s.module)
}

impl View for Pipeline {
    type V = PipelineView;

    closed spec fn view(&self) -> PipelineView {
        PipelineView {
            device: *self.device,
            handle: self.handle,
            render_pass: render_pass_value(self.render_pass_holder),
            shader_modules: module_values(self.shader_modules_holder@),
        }
    }
}

/// The teardown of a pipeline: the native pipeline first, then the render
/// pass, the shader modules in order, and last the device reference.
pub open spec fn pipeline_teardown(v: PipelineView) -> Seq<ReleaseStep> {
    seq![ReleaseStep::DestroyPipeline(v.handle)] + match v.render_pass {
        Some(r) => seq![ReleaseStep::RenderPass(r)],
        None => Seq::empty(),
    } + v.shader_modules.map_values(|m: ShaderModule| ReleaseStep::ShaderModule(m)) + seq![
        ReleaseStep::Device(v.device),
    ]
}

/// The abstract state of a pipeline builder.
pub struct PipelineBuilderView {
    pub device: Device,
    pub layout: PipelineLayoutView,
    pub flags: u32,
    /// The registered stages, keyed by their stage bits.
    pub stages: Map<u32, PipelineShaderStageCreateInfo>,
    /// The kind of the first stage that was added twice, if any.
    pub duplicate: Option<ShaderStage>,
    pub vertex_input_state: PipelineVertexInputStateCreateInfo,
    pub input_assembly_state: PipelineInputAssemblyStateCreateInfo,
    pub tessellation_state: PipelineTessellationStateCreateInfo,
    pub viewport_state: PipelineViewportStateCreateInfo,
    pub rasterization_state: PipelineRasterizationStateCreateInfo,
    pub multisample_state: PipelineMultisampleStateCreateInfo,
    pub depth_stencil_state: PipelineDepthStencilStateCreateInfo,
    pub color_blend_state: PipelineColorBlendStateCreateInfo,
    pub render_pass: Option<(RenderPass, SubpassIndex)>,
}

/// Collects the stages and states of a graphics pipeline.
pub struct PipelineBuilder {
    device: Arc<Device>,
    flags: u32,
    vertex_input_state: PipelineVertexInputStateCreateInfo,
    stages: StageTable,
    duplicate: Option<ShaderStage>,
    input_assembly_state: PipelineInputAssemblyStateCreateInfo,
    viewport_state: PipelineViewportStateCreateInfo,
    tessellation_state: PipelineTessellationStateCreateInfo,
    rasterization_state: PipelineRasterizationStateCreateInfo,
    multisample_state: PipelineMultisampleStateCreateInfo,
    depth_stencil_state: PipelineDepthStencilStateCreateInfo,
    color_blend_state: PipelineColorBlendStateCreateInfo,
    layout: Arc<PipelineLayout>,
    render_pass: Option<(Arc<RenderPass>, SubpassIndex)>,
}

/// `o` by value.
pub open spec fn target_value(o: Option<(Arc<RenderPass>, SubpassIndex)>) -> Option<
    (RenderPass, SubpassIndex),
> {
    match o {
        Some((r, s)) => Some((*r, s)),
        None => None,
    }
}

impl View for PipelineBuilder {
    type V = PipelineBuilderView;

    closed spec fn view(&self) -> PipelineBuilderView {
        PipelineBuilderView {
            device: *self.device,
            layout: (*self.layout)@,
            flags: self.flags,
            stages: stage_entries(self.stages),
            duplicate: self.duplicate,
            vertex_input_state: self.vertex_input_state,
            input_assembly_state: self.input_assembly_state,
            tessellation_state: self.tessellation_state,
            viewport_state: self.viewport_state,
            rasterization_state: self.rasterization_state,
            multisample_state: self.multisample_state,
            depth_stencil_state: self.depth_stencil_state,
            color_blend_state: self.color_blend_state,
            render_pass: target_value(self.render_pass),
        }
    }
}

/// `v` after `stage` was added: a stage of a kind already registered is not
/// stored, and the first such kind is remembered.
pub open spec fn stage_added(v: PipelineBuilderView, stage: PipelineShaderStageCreateInfo) -> PipelineBuilderView {
    let key = stage_bits(stage.stage);
    if v.stages.contains_key(key) {
        PipelineBuilderView {
            duplicate: if v.duplicate is None {
                Some(stage.stage)
            } else {
                v.duplicate
            },
            ..v
        }
    } else {
        PipelineBuilderView { stages: v.stages.insert(key, stage), ..v }
    }
}

/// The entries of `m` for the first `n` stage kinds, in pipeline order.
pub open spec fn stages_in_order(m: Map<u32, PipelineShaderStageCreateInfo>, n: nat) -> Seq<
    PipelineShaderStageCreateInfo,
>
    decreases n,
{
    if n == 0 {
        Seq::empty()
    } else {
        let prev = stages_in_order(m, (n - 1) as nat);
        let key = stage_bits(stage_at(n - 1));
        if m.contains_key(key) {
            prev.push(m[key])
        } else {
            prev
        }
    }
}

/// The registered stages of `m`, in pipeline order.
pub open spec fn ordered_stages(m: Map<u32, PipelineShaderStageCreateInfo>) -> Seq<
    PipelineShaderStageCreateInfo,
> {
    stages_in_order(m, STAGE_KIND_COUNT as nat)
}

/// The native creation request of a graphics pipeline.
pub struct GraphicsPipelineRequest {
    pub device: Arc<Device>,
    pub flags: u32,
    /// The stages, one of each registered kind, in pipeline order.
    pub stages: Vec<PipelineShaderStageCreateInfo>,
    pub vertex_input_state: PipelineVertexInputStateCreateInfo,
    pub input_assembly_state: PipelineInputAssemblyStateCreateInfo,
    pub tessellation_state: PipelineTessellationStateCreateInfo,
    pub viewport_state: PipelineViewportStateCreateInfo,
    pub rasterization_state: PipelineRasterizationStateCreateInfo,
    pub multisample_state: PipelineMultisampleStateCreateInfo,
    pub depth_stencil_state: PipelineDepthStencilStateCreateInfo,
    pub color_blend_state: PipelineColorBlendStateCreateInfo,
    /// The raw handle of the layout.
    pub layout: u64,
    pub render_pass: Option<(Arc<RenderPass>, SubpassIndex)>,
}

/// `req` asks for the pipeline that `b` describes.
pub open spec fn requests_pipeline(req: GraphicsPipelineRequest, b: PipelineBuilderView) -> bool {
    &&& *req.device == b.device
    &&& req.flags == b.flags
    &&& req.stages@ == ordered_stages(b.stages)
    &&& req.vertex_input_state == b.vertex_input_state
    &&& req.input_assembly_state == b.input_assembly_state
    &&& req.tessellation_state == b.tessellation_state
    &&& req.viewport_state == b.viewport_state
    &&& req.rasterization_state == b.rasterization_state
    &&& req.multisample_state == b.multisample_state
    &&& req.depth_stencil_state == b.depth_stencil_state
    &&& req.color_blend_state == b.color_blend_state
    &&& req.layout == b.layout.handle
    &&& target_value(req.render_pass) == b.render_pass
}

/// The pipeline that `req` yields when its creation call returned `handle`.
pub open spec fn created_pipeline(req: GraphicsPipelineRequest, handle: u64) -> PipelineView {
    PipelineView {
        device: *req.device,
        handle,
        render_pass: match req.render_pass {
            Some((r, _)) => Some(*r),
            None => None,
        },
        shader_modules: stage_modules(req.stages@),
    }
}

impl Pipeline {
    /// A builder for a pipeline with layout `layout`, no stage, default
    /// states and no render pass.
    pub fn builder(layout: Arc<PipelineLayout>) -> (r: PipelineBuilder)
        ensures
            r@.device == layout@.device,
            r@.layout == layout@,
            r@.flags == 0,
            r@.stages.dom().len() == 0 && r@.stages.dom().finite(),
            r@.duplicate is None,
            r@.render_pass is None,
            is_default_vertex_input(r@.vertex_input_state),
            is_default_input_assembly(r@.input_assembly_state),
            is_default_tessellation(r@.tessellation_state),
            is_default_viewport(r@.viewport_state),
            is_default_rasterization(r@.rasterization_state),
            is_default_multisample(r@.multisample_state),
            is_default_depth_stencil(r@.depth_stencil_state),
            is_default_color_blend(r@.color_blend_state),
    {
        let device = layout.device.clone();
        PipelineBuilder {
            device,
            flags: 0,
            vertex_input_state: PipelineVertexInputStateCreateInfo::default(),
            stages: StageTable::new(),
            duplicate: None,
            input_assembly_state: PipelineInputAssemblyStateCreateInfo::default(),
            viewport_state: PipelineViewportStateCreateInfo::default(),
            tessellation_state: PipelineTessellationStateCreateInfo::default(),
            rasterization_state: PipelineRasterizationStateCreateInfo::default(),
            multisample_state: PipelineMultisampleStateCreateInfo::default(),
            depth_stencil_state: PipelineDepthStencilStateCreateInfo::default(),
            color_blend_state: PipelineColorBlendStateCreateInfo::default(),
            layout,
            render_pass: None,
        }
    }

    /// The native handle.
    pub fn handle(&self) -> (r: u64)
        ensures
            r == self@.handle,
    {
        self.handle
    }

    /// The device that made this pipeline.
    pub fn device(&self) -> (r: &Arc<Device>)
        ensures
            **r == self@.device,
    {
        &self.device
    }

    /// The steps that release this pipeline, in the order they must be taken.
    pub fn teardown(self) -> (r: Vec<Release>)
        ensures
            release_steps(r@) == pipeline_teardown(self@),
    {
        let ghost v = self@;
        let Pipeline { device, render_pass_holder, shader_modules_holder, handle } = self;
        let mut r: Vec<Release> = Vec::new();
        r.push(Release::DestroyPipeline(handle));
        match render_pass_holder {
            Some(rp) => r.push(Release::RenderPass(rp)),
            None => {},
        }
        let ghost head = release_steps(r@);
        assert(head =~= seq![ReleaseStep::DestroyPipeline(v.handle)] + match v.render_pass {
            Some(rp) => seq![ReleaseStep::RenderPass(rp)],
            None => Seq::empty(),
        });
        let mut modules = shader_modules_holder;
        let ghost all = modules@;
        assert(v.shader_modules == module_values(all));
        let n: usize = modules.len();
        let mut i: usize = 0;
        while modules.len() > 0
            invariant
                i + modules@.len() == all.len(),
                all.len() == n,
                modules@ == all.subrange(i as int, all.len() as int),
                release_steps(r@) == head + module_values(all.take(i as int)).map_values(
                    |m: ShaderModule| ReleaseStep::ShaderModule(m),
                ),
            decreases modules@.len(),
        {
            let ghost before = r@;
            let m = modules.remove(0);
            assert(m == all[i as int]);
            r.push(Release::ShaderModule(m));
            assert(release_steps(r@) =~= release_steps(before).push(ReleaseStep::ShaderModule(*m)));
            assert(module_values(all.take(i + 1)) =~= module_values(all.take(i as int)).push(*m));
            i = i + 1;
            assert(release_steps(r@) =~= head + module_values(all.take(i as int)).map_values(
                |m: ShaderModule| ReleaseStep::ShaderModule(m),
            ));
        }
        let ghost before = r@;
        r.push(Release::Device(device));
        assert(all.take(i as int) =~= all);
        assert(release_steps(r@) =~= release_steps(before).push(ReleaseStep::Device(v.device)));
        assert(release_steps(r@) =~= pipeline_teardown(v));
        r
    }
}

/// Every stage in `m` is keyed by the bits of its own kind.
pub open spec fn keyed_by_kind(m: Map<u32, PipelineShaderStageCreateInfo>) -> bool {
    forall|k: u32| #[trigger] m.contains_key(k) ==> stage_bits(m[k].stage) == k
}

/// No two stages of `s` have the same kind.
pub open spec fn distinct_kinds(s: Seq<PipelineShaderStageCreateInfo>) -> bool {
    forall|i: int, j: int| 0 <= i < j < s.len() ==> s[i].stage != s[j].stage
}

/// The position of `s` in pipeline order.
pub open spec fn stage_position(s: ShaderStage) -> int {
    match s {
        ShaderStage::Vertex => 0,
        ShaderStage::TessellationControl => 1,
        ShaderStage::TessellationEvaluation => 2,
        ShaderStage::Geometry => 3,
        ShaderStage::Fragment => 4,
        ShaderStage::Compute => 5,
    }
}

/// The stages taken in order from a map keyed by kind come in strictly
/// increasing pipeline position, so no two have the same kind.
proof fn lemma_stages_in_order_increasing(m: Map<u32, PipelineShaderStageCreateInfo>, n: nat)
    requires
        keyed_by_kind(m),
        n <= STAGE_KIND_COUNT,
    ensures
        forall|i: int|
            0 <= i < stages_in_order(m, n).len() ==> stage_position(
                #[trigger] stages_in_order(m, n)[i].stage,
            ) < n,
        forall|i: int, j: int|
            0 <= i < j < stages_in_order(m, n).len() ==> stage_position(
                #[trigger] stages_in_order(m, n)[i].stage,
            ) < stage_position(#[trigger] stages_in_order(m, n)[j].stage),
        distinct_kinds(stages_in_order(m, n)),
    decreases n,
{
    if n > 0 {
        lemma_stages_in_order_increasing(m, (n - 1) as nat);
        let key = stage_bits(stage_at(n - 1));
        if m.contains_key(key) {
            let s = m[key].stage;
            assert(stage_bits(s) == key);
            assert(stage_position(s) == n - 1);
        }
    }
}

impl PipelineBuilder {
    #[verifier::type_invariant]
    spec fn stages_keyed_by_kind(&self) -> bool {
        &&& keyed_by_kind(stage_entries(self.stages))
        &&& stage_entries(self.stages).dom().finite()
    }

    pub fn flags(self, flags: u32) -> (r: Self)
        ensures
            r@ == (PipelineBuilderView { flags, ..self@ }),
    {
        proof {
            use_type_invariant(&self);
        }
        let mut b = self;
        b.flags = flags;
        b
    }

    /// Registers `stage` under its kind. A kind may be registered once: a
    /// second stage of a registered kind is not stored, and `build` then
    /// fails with `DuplicateStage`.
    pub fn add_stage(self, stage: PipelineShaderStageCreateInfo) -> (r: Self)
        ensures
            r@ == stage_added(self@, stage),
    {
        proof {
            use_type_invariant(&self);
        }
        let key = stage.stage.bits();
        if self.stages.contains(key) {
            let mut b = self;
            if b.duplicate.is_none() {
                b.duplicate = Some(stage.stage);
            }
            return b;
        }
        let PipelineBuilder {
            device,
            flags,
            vertex_input_state,
            mut stages,
            duplicate,
            input_assembly_state,
            viewport_state,
            tessellation_state,
            rasterization_state,
            multisample_state,
            depth_stencil_state,
            color_blend_state,
            layout,
            render_pass,
        } = self;
        stages.insert(key, stage);
        PipelineBuilder {
            device,
            flags,
            vertex_input_state,
            stages,
            duplicate,
            input_assembly_state,
            viewport_state,
            tessellation_state,
            rasterization_state,
            multisample_state,
            depth_stencil_state,
            color_blend_state,
            layout,
            render_pass,
        }
    }

    pub fn vertex_input_state(self, vertex_input_state: PipelineVertexInputStateCreateInfo) -> (r:
        Self)
        ensures
            r@ == (PipelineBuilderView { vertex_input_state, ..self@ }),
    {
        proof {
            use_type_invariant(&self);
        }
        let mut b = self;
        b.vertex_input_state = vertex_input_state;
        b
    }

    pub fn input_assembly_state(
        self,
        input_assembly_state: PipelineInputAssemblyStateCreateInfo,
    ) -> (r: Self)
        ensures
            r@ == (PipelineBuilderView { input_assembly_state, ..self@ }),
    {
        proof {
            use_type_invariant(&self);
        }
        let mut b = self;
        b.input_assembly_state = input_assembly_state;
        b
    }

    pub fn tessellation_state(self, tessellation_state: PipelineTessellationStateCreateInfo) -> (r:
        Self)
        ensures
            r@ == (PipelineBuilderView { tessellation_state, ..self@ }),
    {
        proof {
            use_type_invariant(&self);
        }
        let mut b = self;
        b.tessellation_state = tessellation_state;
        b
    }

    pub fn viewport_state(self, viewport_state: PipelineViewportStateCreateInfo) -> (r: Self)
        ensures
            r@ == (PipelineBuilderView { viewport_state, ..self@ }),
    {
        proof {
            use_type_invariant(&self);
        }
        let mut b = self;
        b.viewport_state = viewport_state;
        b
    }

    pub fn rasterization_state(
        self,
        rasterization_state: PipelineRasterizationStateCreateInfo,
    ) -> (r: Self)
        ensures
            r@ == (PipelineBuilderView { rasterization_state, ..self@ }),
    {
        proof {
            use_type_invariant(&self);
        }
        let mut b = self;
        b.rasterization_state = rasterization_state;
        b
    }

    pub fn multisample_state(self, multisample_state: PipelineMultisampleStateCreateInfo) -> (r:
        Self)
        ensures
            r@ == (PipelineBuilderView { multisample_state, ..self@ }),
    {
        proof {
            use_type_invariant(&self);
        }
        let mut b = self;
        b.multisample_state = multisample_state;
        b
    }

    pub fn depth_stencil_state(
        self,
        depth_stencil_state: PipelineDepthStencilStateCreateInfo,
    ) -> (r: Self)
        ensures
            r@ == (PipelineBuilderView { depth_stencil_state, ..self@ }),
    {
        proof {
            use_type_invariant(&self);
        }
        let mut b = self;
        b.depth_stencil_state = depth_stencil_state;
        b
    }

    pub fn color_blend_state(self, color_blend_state: PipelineColorBlendStateCreateInfo) -> (r:
        Self)
        ensures
            r@ == (PipelineBuilderView { color_blend_state, ..self@ }),
    {
        proof {
            use_type_invariant(&self);
        }
        let mut b = self;
        b.color_blend_state = color_blend_state;
        b
    }

    /// Targets subpass `subpass` of `render_pass`.
    pub fn render_pass(self, render_pass: Arc<RenderPass>, subpass: SubpassIndex) -> (r: Self)
        ensures
            r@ == (PipelineBuilderView { render_pass: Some((*render_pass, subpass)), ..self@ }),
    {
        proof {
            use_type_invariant(&self);
        }
        let mut b = self;
        b.render_pass = Some((render_pass, subpass));
        b
    }

    /// The creation request of the pipeline described so far; fails when a
    /// stage kind was added twice.
    pub fn build(self) -> (r: Result<GraphicsPipelineRequest, PipelineError>)
        ensures
            match self@.duplicate {
                Some(s) => r == Err::<GraphicsPipelineRequest, PipelineError>(
                    PipelineError::DuplicateStage(s),
                ),
                None => r matches Ok(req) && requests_pipeline(req, self@) && distinct_kinds(
                    req.stages@,
                ) && req.stages@.len() == self@.stages.dom().len() && (forall|k: u32|
                    #[trigger] self@.stages.contains_key(k) ==> req.stages@.contains(
                        self@.stages[k],
                    )),
            },
            keyed_by_kind(self@.stages),
            self@.stages.dom().finite(),
    {
        proof {
            use_type_invariant(&self);
            lemma_stages_in_order_increasing(stage_entries(self.stages), STAGE_KIND_COUNT as nat);
        }
        let ghost v = self@;
        let layout_handle = self.layout.handle();
        let PipelineBuilder {
            device,
            flags,
            vertex_input_state,
            stages,
            duplicate,
            input_assembly_state,
            viewport_state,
            tessellation_state,
            rasterization_state,
            multisample_state,
            depth_stencil_state,
            color_blend_state,
            layout,
            render_pass,
        } = self;
        match duplicate {
            Some(s) => {
                return Err(PipelineError::DuplicateStage(s));
            },
            None => {},
        }
        let mut table = stages;
        let ghost m = stage_entries(table);
        let mut ordered: Vec<PipelineShaderStageCreateInfo> = Vec::new();
        let mut i: usize = 0;
        while i < STAGE_KIND_COUNT
            invariant
                i <= STAGE_KIND_COUNT,
                ordered@ == stages_in_order(m, i as nat),
                keyed_by_kind(m),
                m.dom().finite(),
                stage_entries(table).dom().finite(),
                ordered@.len() + stage_entries(table).dom().len() == m.dom().len(),
                forall|k: u32|
                    #[trigger] stage_entries(table).contains_key(k) ==> m.contains_key(k)
                        && stage_entries(table)[k] == m[k] && stage_position(m[k].stage) >= i,
                forall|k: u32|
                    #[trigger] m.contains_key(k) ==> stage_entries(table).contains_key(k)
                        || ordered@.contains(m[k]),
                forall|j: int|
                    i <= j < STAGE_KIND_COUNT ==> {
                        let key = #[trigger] stage_bits(stage_at(j));
                        &&& stage_entries(table).contains_key(key) == m.contains_key(key)
                        &&& m.contains_key(key) ==> stage_entries(table)[key] == m[key]
                    },
            decreases STAGE_KIND_COUNT - i,
        {
            let key = ShaderStage::at(i).bits();
            proof {
                crate::shader_stage::lemma_stage_order_complete(stage_at(i as int));
            }
            let ghost before_table = stage_entries(table);
            let ghost before_ordered = ordered@;
            match table.remove(key) {
                Some(info) => {
                    ordered.push(info);
                    assert(before_table.dom().remove(key) =~= stage_entries(table).dom());
                },
                None => {
                    assert(before_table.dom() =~= stage_entries(table).dom());
                },
            }
            assert forall|k: u32| #[trigger] m.contains_key(k) implies stage_entries(
                table,
            ).contains_key(k) || ordered@.contains(m[k]) by {
                if before_ordered.contains(m[k]) {
                    let w = choose|w: int| 0 <= w < before_ordered.len() && before_ordered[w] == m[k];
                    assert(ordered@[w] == m[k]);
                } else if k == key {
                    assert(ordered@[ordered@.len() - 1] == m[k]);
                }
            }
            assert forall|k: u32| #[trigger] stage_entries(table).contains_key(k) implies stage_position(
                m[k].stage,
            ) >= i + 1 by {
                assert(stage_bits(m[k].stage) == k);
                if stage_position(m[k].stage) == i {
                    assert(stage_bits(m[k].stage) == stage_bits(stage_at(i as int)));
                }
            }
            i = i + 1;
        }
        assert(stage_entries(table).dom() =~= Set::empty()) by {
            assert forall|k: u32| !stage_entries(table).contains_key(k) by {
                if stage_entries(table).contains_key(k) {
                    assert(stage_position(m[k].stage) >= 6);
                }
            }
        }
        Ok(
            GraphicsPipelineRequest {
                device,
                flags,
                stages: ordered,
                vertex_input_state,
                input_assembly_state,
                tessellation_state,
                viewport_state,
                rasterization_state,
                multisample_state,
                depth_stencil_state,
                color_blend_state,
                layout: layout_handle,
                render_pass,
            },
        )
    }
}

impl GraphicsPipelineRequest {
    /// The pipeline made from this request by a creation call that returned
    /// `created`: on success the pipeline holds the native handle, the device,
    /// the render pass and the module of every stage; on failure nothing is
    /// kept.
    pub fn complete(self, created: Result<u64, DriverError>) -> (r: Result<Pipeline, PipelineError>)
        ensures
            match created {
                Ok(h) => r matches Ok(p) && p@ == created_pipeline(self, h),
                Err(e) => r == Err::<Pipeline, PipelineError>(PipelineError::Driver(e)),
            },
    {
        let ghost req = self;
        match created {
            Err(e) => Err(PipelineError::Driver(e)),
            Ok(handle) => {
                let mut holder: Vec<Arc<ShaderModule>> = Vec::new();
                let mut i: usize = 0;
                while i < self.stages.len()
                    invariant
                        i <= self.stages@.len(),
                        module_values(holder@) == stage_modules(self.stages@.take(i as int)),
                    decreases self.stages@.len() - i,
                {
                    let ghost before = holder@;
                    let module = self.stages[i].module.clone();
                    assert(*module == *self.stages@[i as int].module);
                    holder.push(module);
                    assert(module_values(holder@) =~= module_values(before).push(*module));
                    i = i + 1;
                    assert(self.stages@.take(i as int).drop_last() =~= self.stages@.take(i - 1));
                    assert(module_values(holder@) =~= stage_modules(self.stages@.take(i as int)));
                }
                assert(self.stages@.take(i as int) =~= self.stages@);
                let render_pass_holder = match self.render_pass {
                    Some((rp, _)) => Some(rp),
                    None => None,
                };
                Ok(
                    Pipeline {
                        device: self.device,
                        render_pass_holder,
                        shader_modules_holder: holder,
                        handle,
                    },
                )
            },
        }
    }
}

// ------------------------------------------------------------------- laws

/// `v` after each of `stages` was added, in order.
pub open spec fn stages_added(v: PipelineBuilderView, stages: Seq<PipelineShaderStageCreateInfo>) -> PipelineBuilderView
    decreases stages.len(),
{
    if stages.len() == 0 {
        v
    } else {
        stage_added(stages_added(v, stages.drop_last()), stages.last())
    }
}

/// Adding stages never replaces a registered stage, every added kind ends up
/// registered, and once two stages of one kind were added the builder holds
/// a duplicate, so that its `build` fails.
pub proof fn lemma_duplicate_stage_rejected(
    v: PipelineBuilderView,
    stages: Seq<PipelineShaderStageCreateInfo>,
)
    ensures
        forall|k: u32|
            #[trigger] v.stages.contains_key(k) ==> stages_added(v, stages).stages.contains_key(k)
                && stages_added(v, stages).stages[k] == v.stages[k],
        forall|i: int|
            0 <= i < stages.len() ==> stages_added(v, stages).stages.contains_key(
                stage_bits(#[trigger] stages[i].stage),
            ),
        v.duplicate is Some ==> stages_added(v, stages).duplicate == v.duplicate,
        (exists|i: int, j: int|
            0 <= i < j < stages.len() && stages[i].stage == stages[j].stage)
            ==> stages_added(v, stages).duplicate is Some,
    decreases stages.len(),
{
    if stages.len() > 0 {
        let prefix = stages.drop_last();
        lemma_duplicate_stage_rejected(v, prefix);
        let before = stages_added(v, prefix);
        let after = stages_added(v, stages);
        assert forall|k: u32| v.stages.contains_key(k) implies after.stages.contains_key(k)
            && after.stages[k] == v.stages[k] by {
            assert(before.stages.contains_key(k));
            if !before.stages.contains_key(stage_bits(stages.last().stage)) {
                assert(k != stage_bits(stages.last().stage));
            }
        }
        assert forall|i: int| 0 <= i < stages.len() implies stages_added(
            v,
            stages,
        ).stages.contains_key(stage_bits(#[trigger] stages[i].stage)) by {
            if i < stages.len() - 1 {
                assert(stages[i] == prefix[i]);
            }
        }
        if exists|i: int, j: int| 0 <= i < j < stages.len() && stages[i].stage == stages[j].stage {
            let (i, j) = choose|i: int, j: int|
                0 <= i < j < stages.len() && stages[i].stage == stages[j].stage;
            if j < stages.len() - 1 {
                assert(prefix[i].stage == prefix[j].stage);
            } else {
                assert(prefix[i] == stages[i]);
                assert(before.stages.contains_key(stage_bits(prefix[i].stage)));
            }
        }
    }
}

/// Adding stages of distinct kinds, none of them registered yet, to a
/// builder without a duplicate keeps every one of them under its own kind:
/// the table grows by exactly one entry per stage and no duplicate arises.
pub proof fn lemma_distinct_stages_all_kept(
    v: PipelineBuilderView,
    stages: Seq<PipelineShaderStageCreateInfo>,
)
    requires
        v.stages.dom().finite(),
        v.duplicate is None,
        distinct_kinds(stages),
        forall|i: int|
            0 <= i < stages.len() ==> !v.stages.contains_key(stage_bits(#[trigger] stages[i].stage)),
    ensures
        stages_added(v, stages).stages.dom().finite(),
        stages_added(v, stages).stages.dom().len() == v.stages.dom().len() + stages.len(),
        stages_added(v, stages).duplicate is None,
        forall|i: int|
            0 <= i < stages.len() ==> stages_added(v, stages).stages[stage_bits(
                #[trigger] stages[i].stage,
            )] == stages[i],
        forall|k: u32|
            #[trigger] stages_added(v, stages).stages.contains_key(k) ==> v.stages.contains_key(k)
                || exists|i: int| 0 <= i < stages.len() && k == stage_bits(stages[i].stage),
    decreases stages.len(),
{
    if stages.len() > 0 {
        let prefix = stages.drop_last();
        let last = stages.last();
        assert forall|i: int| 0 <= i < prefix.len() implies !v.stages.contains_key(
            stage_bits(#[trigger] prefix[i].stage),
        ) by {
            assert(prefix[i] == stages[i]);
        }
        lemma_distinct_stages_all_kept(v, prefix);
        let before = stages_added(v, prefix);
        let key = stage_bits(last.stage);
        assert(!before.stages.contains_key(key)) by {
            if before.stages.contains_key(key) {
                assert(!v.stages.contains_key(key));
                let i = choose|i: int| 0 <= i < prefix.len() && key == stage_bits(prefix[i].stage);
                assert(prefix[i] == stages[i]);
                assert(stages[i].stage != stages[stages.len() - 1].stage);
            }
        }
        let after = stages_added(v, stages);
        assert(after.stages.dom() =~= before.stages.dom().insert(key));
        assert forall|i: int| 0 <= i < stages.len() implies after.stages[stage_bits(
            #[trigger] stages[i].stage,
        )] == stages[i] by {
            if i < stages.len() - 1 {
                assert(prefix[i] == stages[i]);
                assert(stages[i].stage != last.stage);
            }
        }
        assert forall|k: u32| #[trigger] after.stages.contains_key(k) implies v.stages.contains_key(k)
            || exists|i: int| 0 <= i < stages.len() && k == stage_bits(stages[i].stage) by {
            if k == key {
                assert(k == stage_bits(stages[stages.len() - 1].stage));
            } else {
                assert(before.stages.contains_key(k));
                if !v.stages.contains_key(k) {
                    let i = choose|i: int| 0 <= i < prefix.len() && k == stage_bits(prefix[i].stage);
                    assert(prefix[i] == stages[i]);
                }
            }
        }
    }
}

/// Tearing a pipeline down destroys the native pipeline first, and only
/// then releases the render pass, the shader modules and the device it holds.
pub proof fn lemma_pipeline_destroyed_before_release(v: PipelineView)
    ensures
        pipeline_teardown(v)[0] == ReleaseStep::DestroyPipeline(v.handle),
        forall|i: int|
            0 < i < pipeline_teardown(v).len() ==> !(#[trigger] pipeline_teardown(v)[i] is DestroyPipeline),
        v.render_pass matches Some(rp) ==> pipeline_teardown(v)[1] == ReleaseStep::RenderPass(rp),
        forall|j: int|
            0 <= j < v.shader_modules.len() ==> pipeline_teardown(v).contains(
                ReleaseStep::ShaderModule(#[trigger] v.shader_modules[j]),
            ),
        pipeline_teardown(v).last() == ReleaseStep::Device(v.device),
{
    let plan = pipeline_teardown(v);
    let head = seq![ReleaseStep::DestroyPipeline(v.handle)] + match v.render_pass {
        Some(r) => seq![ReleaseStep::RenderPass(r)],
        None => Seq::empty(),
    };
    let mods = v.shader_modules.map_values(|m: ShaderModule| ReleaseStep::ShaderModule(m));
    assert(plan == head + mods + seq![ReleaseStep::Device(v.device)]);
    assert forall|j: int| 0 <= j < v.shader_modules.len() implies plan.contains(
        ReleaseStep::ShaderModule(#[trigger] v.shader_modules[j]),
    ) by {
        assert(plan[head.len() + j] == ReleaseStep::ShaderModule(v.shader_modules[j]));
    }
}

/// `v` after each of `layouts` was added, in order.
pub open spec fn set_layouts_added(v: PipelineLayoutBuilderView, layouts: Seq<DescriptorSetLayout>) -> PipelineLayoutBuilderView
    decreases layouts.len(),
{
    if layouts.len() == 0 {
        v
    } else {
        let before = set_layouts_added(v, layouts.drop_last());
        PipelineLayoutBuilderView { set_layouts: before.set_layouts.push(layouts.last()), ..before }
    }
}

/// `v` after each of `ranges` was added, in order.
pub open spec fn ranges_added(v: PipelineLayoutBuilderView, ranges: Seq<PushConstantRange>) -> PipelineLayoutBuilderView
    decreases ranges.len(),
{
    if ranges.len() == 0 {
        v
    } else {
        let before = ranges_added(v, ranges.drop_last());
        PipelineLayoutBuilderView {
            push_constant_ranges: before.push_constant_ranges.push(ranges.last()),
            ..before
        }
    }
}

proof fn lemma_set_layouts_added(v: PipelineLayoutBuilderView, layouts: Seq<DescriptorSetLayout>)
    ensures
        set_layouts_added(v, layouts) == (PipelineLayoutBuilderView {
            set_layouts: v.set_layouts + layouts,
            ..v
        }),
    decreases layouts.len(),
{
    if layouts.len() > 0 {
        lemma_set_layouts_added(v, layouts.drop_last());
        assert(v.set_layouts + layouts =~= (v.set_layouts + layouts.drop_last()).push(
            layouts.last(),
        ));
    } else {
        assert(v.set_layouts + layouts =~= v.set_layouts);
    }
}

proof fn lemma_ranges_added(v: PipelineLayoutBuilderView, ranges: Seq<PushConstantRange>)
    ensures
        ranges_added(v, ranges) == (PipelineLayoutBuilderView {
            push_constant_ranges: v.push_constant_ranges + ranges,
            ..v
        }),
    decreases ranges.len(),
{
    if ranges.len() > 0 {
        lemma_ranges_added(v, ranges.drop_last());
        assert(v.push_constant_ranges + ranges =~= (v.push_constant_ranges
            + ranges.drop_last()).push(ranges.last()));
    } else {
        assert(v.push_constant_ranges + ranges =~= v.push_constant_ranges);
    }
}

/// A layout built from a fresh builder by adding the set layouts `layouts`
/// and the push-constant ranges `ranges` is requested with exactly those set
/// layouts and ranges, in the order they were added.
pub proof fn lemma_layout_request_round_trip(
    device: Device,
    layouts: Seq<DescriptorSetLayout>,
    ranges: Seq<PushConstantRange>,
    req: PipelineLayoutRequest,
)
    requires
        requests_layout(
            req,
            ranges_added(
                set_layouts_added(
                    PipelineLayoutBuilderView {
                        device,
                        set_layouts: Seq::empty(),
                        push_constant_ranges: Seq::empty(),
                    },
                    layouts,
                ),
                ranges,
            ),
        ),
    ensures
        *req.device == device,
        req.set_layouts@.len() == layouts.len(),
        forall|i: int| 0 <= i < layouts.len() ==> req.set_layouts@[i] == #[trigger] layouts[i].raw,
        req.push_constant_ranges@ == ranges,
{
    let v0 = PipelineLayoutBuilderView {
        device,
        set_layouts: Seq::empty(),
        push_constant_ranges: Seq::empty(),
    };
    lemma_set_layouts_added(v0, layouts);
    let v1 = set_layouts_added(v0, layouts);
    lemma_ranges_added(v1, ranges);
    assert(Seq::<DescriptorSetLayout>::empty() + layouts =~= layouts);
    assert(Seq::<PushConstantRange>::empty() + ranges =~= ranges);
}

} // verus!
