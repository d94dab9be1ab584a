use std::sync::Arc;
use yarvk::handle::{DescriptorSetLayout, Device, DriverError, RenderPass, ShaderModule};
use yarvk::memory::{find_memory_type_index, MemoryRequirements, MemoryType, PhysicalDeviceMemoryProperties};
use yarvk::pipeline::{
    Pipeline, PipelineError, PipelineLayout, PushConstantRange, Release, SubpassIndex,
};
use yarvk::shader_stage::{PipelineShaderStageCreateInfo, ShaderStage};
use yarvk::state::{
    PipelineInputAssemblyStateCreateInfo, PipelineMultisampleStateCreateInfo,
    PipelineRasterizationStateCreateInfo, PipelineTessellationStateCreateInfo, PrimitiveTopology,
};

fn device() -> Arc<Device> {
    Arc::new(Device { raw: 1 })
}

fn layout(handle: u64) -> Arc<PipelineLayout> {
    PipelineLayout::builder(device()).build().complete(Ok(handle)).unwrap()
}

fn stage(kind: ShaderStage, module: u64) -> PipelineShaderStageCreateInfo {
    PipelineShaderStageCreateInfo::new(kind, Arc::new(ShaderModule { raw: module }), "main".to_string())
}

#[test]
fn empty_layout_builds() {
    let req = PipelineLayout::builder(device()).build();
    assert!(req.set_layouts.is_empty());
    assert!(req.push_constant_ranges.is_empty());
    let l = req.complete(Ok(7)).unwrap();
    assert_eq!(l.handle(), 7);
    assert_eq!(l.device().raw, 1);
}

#[test]
fn layout_request_keeps_insertion_order() {
    let r1 = PushConstantRange { stage_flags: 1, offset: 0, size: 16 };
    let r2 = PushConstantRange { stage_flags: 0x10, offset: 16, size: 8 };
    let req = PipelineLayout::builder(device())
        .add_set_layout(Arc::new(DescriptorSetLayout { raw: 30 }))
        .add_push_constant_range(r1)
        .add_set_layout(Arc::new(DescriptorSetLayout { raw: 10 }))
        .add_set_layout(Arc::new(DescriptorSetLayout { raw: 20 }))
        .add_push_constant_range(r2)
        .build();
    assert_eq!(req.set_layouts, vec![30, 10, 20]);
    assert_eq!(req.push_constant_ranges, vec![r1, r2]);
}

#[test]
fn layout_creation_failure_is_reported() {
    let req = PipelineLayout::builder(device()).build();
    match req.complete(Err(DriverError { code: -2 })) {
        Err(PipelineError::Driver(e)) => assert_eq!(e.code, -2),
        _ => panic!("expected a driver error"),
    }
}

#[test]
fn layout_teardown_destroys_then_releases_device() {
    let l = PipelineLayout::builder(device()).build().complete(Ok(9)).unwrap();
    let l = Arc::try_unwrap(l).ok().unwrap();
    let plan = l.teardown();
    assert_eq!(plan.len(), 2);
    assert!(matches!(plan[0], Release::DestroyPipelineLayout(9)));
    assert!(matches!(&plan[1], Release::Device(d) if d.raw == 1));
}

#[test]
fn two_vertex_stages_are_rejected() {
    let r = Pipeline::builder(layout(5))
        .add_stage(stage(ShaderStage::Vertex, 100))
        .add_stage(stage(ShaderStage::Vertex, 101))
        .build();
    assert!(matches!(r, Err(PipelineError::DuplicateStage(ShaderStage::Vertex))));
}

#[test]
fn duplicate_is_reported_even_after_other_stages() {
    let r = Pipeline::builder(layout(5))
        .add_stage(stage(ShaderStage::Fragment, 100))
        .add_stage(stage(ShaderStage::Vertex, 101))
        .add_stage(stage(ShaderStage::Fragment, 102))
        .add_stage(stage(ShaderStage::Geometry, 103))
        .build();
    assert!(matches!(r, Err(PipelineError::DuplicateStage(ShaderStage::Fragment))));
}

#[test]
fn stages_come_out_in_pipeline_order() {
    let req = Pipeline::builder(layout(5))
        .add_stage(stage(ShaderStage::Fragment, 200))
        .add_stage(stage(ShaderStage::Geometry, 300))
        .add_stage(stage(ShaderStage::Vertex, 100))
        .build()
        .ok()
        .unwrap();
    let kinds: Vec<ShaderStage> = req.stages.iter().map(|s| s.stage).collect();
    assert_eq!(kinds, vec![ShaderStage::Vertex, ShaderStage::Geometry, ShaderStage::Fragment]);
    let modules: Vec<u64> = req.stages.iter().map(|s| s.module.raw).collect();
    assert_eq!(modules, vec![100, 300, 200]);
    assert_eq!(req.layout, 5);
    assert!(req.render_pass.is_none());
}

#[test]
fn states_are_last_write_wins() {
    let req = Pipeline::builder(layout(5))
        .flags(4)
        .input_assembly_state(PipelineInputAssemblyStateCreateInfo {
            topology: PrimitiveTopology::LineList,
            primitive_restart_enable: false,
        })
        .input_assembly_state(PipelineInputAssemblyStateCreateInfo {
            topology: PrimitiveTopology::TriangleList,
            primitive_restart_enable: true,
        })
        .tessellation_state(PipelineTessellationStateCreateInfo::builder().patch_control_points(3).build())
        .render_pass(Arc::new(RenderPass { raw: 77 }), SubpassIndex(1))
        .render_pass(Arc::new(RenderPass { raw: 78 }), SubpassIndex(0))
        .build()
        .ok()
        .unwrap();
    assert_eq!(req.flags, 4);
    assert_eq!(req.input_assembly_state.topology, PrimitiveTopology::TriangleList);
    assert!(req.input_assembly_state.primitive_restart_enable);
    assert_eq!(req.tessellation_state.patch_control_points, 3);
    let (rp, sub) = req.render_pass.as_ref().unwrap();
    assert_eq!(rp.raw, 78);
    assert_eq!(*sub, SubpassIndex(0));
}

#[test]
fn pipeline_holds_render_pass_and_modules() {
    let rp = Arc::new(RenderPass { raw: 77 });
    let vs = Arc::new(ShaderModule { raw: 100 });
    let fs = Arc::new(ShaderModule { raw: 200 });
    let p = Pipeline::builder(layout(5))
        .add_stage(PipelineShaderStageCreateInfo::new(ShaderStage::Fragment, fs.clone(), "main".to_string()))
        .add_stage(PipelineShaderStageCreateInfo::new(ShaderStage::Vertex, vs.clone(), "main".to_string()))
        .render_pass(rp.clone(), SubpassIndex(0))
        .build()
        .ok()
        .unwrap()
        .complete(Ok(42))
        .ok()
        .unwrap();
    assert_eq!(p.handle(), 42);
    assert_eq!(p.device().raw, 1);
    assert_eq!(Arc::strong_count(&rp), 2);
    assert_eq!(Arc::strong_count(&vs), 2);
    assert_eq!(Arc::strong_count(&fs), 2);
}

#[test]
fn pipeline_teardown_destroys_before_releasing() {
    let p = Pipeline::builder(layout(5))
        .add_stage(stage(ShaderStage::Fragment, 200))
        .add_stage(stage(ShaderStage::Vertex, 100))
        .render_pass(Arc::new(RenderPass { raw: 77 }), SubpassIndex(0))
        .build()
        .ok()
        .unwrap()
        .complete(Ok(42))
        .ok()
        .unwrap();
    let plan = p.teardown();
    assert_eq!(plan.len(), 5);
    assert!(matches!(plan[0], Release::DestroyPipeline(42)));
    assert!(matches!(&plan[1], Release::RenderPass(r) if r.raw == 77));
    assert!(matches!(&plan[2], Release::ShaderModule(m) if m.raw == 100));
    assert!(matches!(&plan[3], Release::ShaderModule(m) if m.raw == 200));
    assert!(matches!(&plan[4], Release::Device(d) if d.raw == 1));
}

#[test]
fn pipeline_creation_failure_keeps_nothing() {
    let vs = Arc::new(ShaderModule { raw: 100 });
    let r = Pipeline::builder(layout(5))
        .add_stage(PipelineShaderStageCreateInfo::new(ShaderStage::Vertex, vs.clone(), "main".to_string()))
        .build()
        .ok()
        .unwrap()
        .complete(Err(DriverError { code: -3 }));
    assert!(matches!(r, Err(PipelineError::Driver(DriverError { code: -3 }))));
    assert_eq!(Arc::strong_count(&vs), 1);
}

#[test]
fn tessellation_builder_sets_control_points() {
    let t = PipelineTessellationStateCreateInfo::builder().patch_control_points(4).build();
    assert_eq!(t.patch_control_points, 4);
    let d = PipelineTessellationStateCreateInfo::builder().build();
    assert_eq!(d.patch_control_points, 0);
}

#[test]
fn state_defaults_follow_the_api() {
    let r = PipelineRasterizationStateCreateInfo::default();
    assert_eq!(r.line_width_bits, 1.0f32.to_bits());
    let m = PipelineMultisampleStateCreateInfo::default();
    assert_eq!(m.rasterization_samples, 1);
}

fn memory_props() -> PhysicalDeviceMemoryProperties {
    PhysicalDeviceMemoryProperties {
        memory_types: vec![
            MemoryType { index: 0, property_flags: 0x1, heap_index: 0 },
            MemoryType { index: 1, property_flags: 0x6, heap_index: 1 },
            MemoryType { index: 2, property_flags: 0x7, heap_index: 1 },
            MemoryType { index: 3, property_flags: 0x6, heap_index: 1 },
        ],
    }
}

#[test]
fn memory_type_first_match() {
    let req = MemoryRequirements { size: 256, alignment: 16, memory_type_bits: 0b1110 };
    let t = find_memory_type_index(&req, &memory_props(), 0x6).unwrap();
    assert_eq!(t.index, 1);
}

#[test]
fn memory_type_respects_requirement_bits() {
    let req = MemoryRequirements { size: 256, alignment: 16, memory_type_bits: 0b1000 };
    let t = find_memory_type_index(&req, &memory_props(), 0x2).unwrap();
    assert_eq!(t.index, 3);
    let req = MemoryRequirements { size: 256, alignment: 16, memory_type_bits: 0b0001 };
    assert_eq!(find_memory_type_index(&req, &memory_props(), 0x2), None);
}

#[test]
fn memory_type_none_when_flags_missing() {
    let req = MemoryRequirements { size: 1, alignment: 1, memory_type_bits: 0xffff_ffff };
    assert_eq!(find_memory_type_index(&req, &memory_props(), 0x8), None);
    let empty = PhysicalDeviceMemoryProperties { memory_types: vec![] };
    assert_eq!(find_memory_type_index(&req, &empty, 0), None);
}

#[test]
fn fresh_builder_holds_default_states() {
    let req = Pipeline::builder(layout(5)).build().ok().unwrap();
    assert_eq!(req.flags, 0);
    assert!(req.stages.is_empty());
    assert!(req.vertex_input_state.bindings.is_empty());
    assert!(req.vertex_input_state.attributes.is_empty());
    assert_eq!(req.input_assembly_state, PipelineInputAssemblyStateCreateInfo::default());
    assert_eq!(req.tessellation_state.patch_control_points, 0);
    assert!(req.viewport_state.viewports.is_empty());
    assert_eq!(req.rasterization_state, PipelineRasterizationStateCreateInfo::default());
    assert_eq!(req.multisample_state.rasterization_samples, 1);
    assert!(!req.depth_stencil_state.depth_test_enable);
    assert!(req.color_blend_state.attachments.is_empty());
    assert!(req.render_pass.is_none());
}

#[test]
fn every_registered_stage_reaches_the_pipeline() {
    let kinds = [
        ShaderStage::Compute,
        ShaderStage::TessellationEvaluation,
        ShaderStage::Vertex,
        ShaderStage::Fragment,
        ShaderStage::TessellationControl,
        ShaderStage::Geometry,
    ];
    let mut b = Pipeline::builder(layout(5));
    for (i, k) in kinds.iter().enumerate() {
        b = b.add_stage(stage(*k, 100 + i as u64));
    }
    let req = b.build().ok().unwrap();
    assert_eq!(req.stages.len(), 6);
    let p = req.complete(Ok(1)).ok().unwrap();
    let plan = p.teardown();
    let modules: Vec<u64> = plan
        .iter()
        .filter_map(|r| match r {
            Release::ShaderModule(m) => Some(m.raw),
            _ => None,
        })
        .collect();
    assert_eq!(modules, vec![102, 104, 101, 105, 103, 100]);
}
