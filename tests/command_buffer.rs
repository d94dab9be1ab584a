use std::sync::Arc;
use yarvk::command_buffer::{
    ClearValue, Command, CommandBuffer, CommandBufferUsageFlags, CommandError, IndexType, Level,
    Phase, PipelineBindPoint, Rect2D, RenderPassBeginInfo, RenderPassScope, SubpassContents,
};
use yarvk::handle::{Buffer, DescriptorSet, Device, Framebuffer, RenderPass};
use yarvk::pipeline::{Pipeline, PipelineLayout};

fn begin_info() -> RenderPassBeginInfo {
    RenderPassBeginInfo {
        render_pass: Arc::new(RenderPass { raw: 10 }),
        framebuffer: Arc::new(Framebuffer { raw: 11 }),
        render_area: Rect2D { x: 0, y: 0, width: 640, height: 480 },
        clear_values: vec![ClearValue { words: [0, 0, 0, 0] }],
    }
}

fn layout() -> Arc<PipelineLayout> {
    PipelineLayout::builder(Arc::new(Device { raw: 1 })).build().complete(Ok(5)).unwrap()
}

fn pipeline(handle: u64) -> Pipeline {
    Pipeline::builder(layout()).build().ok().unwrap().complete(Ok(handle)).ok().unwrap()
}

fn executable(cb: &mut CommandBuffer, bind_point: PipelineBindPoint, p: &Pipeline) {
    cb.record(CommandBufferUsageFlags::empty(), |cb| cb.cmd_bind_pipeline(bind_point, p)).unwrap();
    assert_eq!(cb.phase(), Phase::Executable);
}

#[test]
fn new_buffer_is_initial() {
    let cb = CommandBuffer::new(Level::Secondary, 3);
    assert_eq!(cb.phase(), Phase::Initial);
    assert_eq!(cb.scope(), RenderPassScope::Outside);
    assert_eq!(cb.level(), Level::Secondary);
    assert_eq!(cb.handle(), 3);
    assert!(cb.commands().is_empty());
}

#[test]
fn recording_operation_rejected_before_begin() {
    let mut cb = CommandBuffer::new(Level::Primary, 3);
    let p = pipeline(42);
    assert_eq!(
        cb.cmd_bind_pipeline(PipelineBindPoint::Graphics, &p),
        Err(CommandError::WrongPhase { expected: Phase::Recording, found: Phase::Initial })
    );
    assert!(cb.commands().is_empty());
}

#[test]
fn record_inside_record_is_rejected() {
    let mut cb = CommandBuffer::new(Level::Primary, 3);
    let r = cb.record(CommandBufferUsageFlags::empty(), |cb| {
        let inner = cb.record(CommandBufferUsageFlags::empty(), |_cb| Ok(()));
        assert_eq!(
            inner,
            Err(CommandError::WrongPhase { expected: Phase::Initial, found: Phase::Recording })
        );
        assert_eq!(cb.phase(), Phase::Recording);
        Ok(())
    });
    assert_eq!(r, Ok(()));
    assert_eq!(cb.phase(), Phase::Executable);
}

#[test]
fn draw_needs_a_render_pass() {
    let mut cb = CommandBuffer::new(Level::Primary, 3);
    let r = cb.record(CommandBufferUsageFlags::empty(), |cb| {
        assert_eq!(cb.cmd_draw(3, 1, 0, 0), Err(CommandError::OutsideRenderPass));
        assert!(cb.commands().is_empty());
        cb.cmd_begin_render_pass(begin_info(), SubpassContents::Inline, |cb| {
            assert_eq!(cb.cmd_draw(3, 1, 0, 0), Ok(()));
            cb.cmd_draw_indexed(6, 1, 0, 0, 0)
        })?;
        assert_eq!(cb.cmd_draw(3, 1, 0, 0), Err(CommandError::OutsideRenderPass));
        Ok(())
    });
    assert_eq!(r, Ok(()));
    assert_eq!(cb.commands().len(), 4);
    assert_eq!(
        cb.commands()[1],
        Command::Draw { vertex_count: 3, instance_count: 1, first_vertex: 0, first_instance: 0 }
    );
    assert_eq!(cb.commands()[3], Command::EndRenderPass);
}

#[test]
fn barrier_rejected_inside_render_pass() {
    let mut cb = CommandBuffer::new(Level::Primary, 3);
    let r = cb.record(CommandBufferUsageFlags::empty(), |cb| {
        cb.cmd_begin_render_pass(begin_info(), SubpassContents::Inline, |cb| {
            assert_eq!(cb.cmd_pipeline_barrier(1, 2, 0), Err(CommandError::InsideRenderPass));
            Ok(())
        })?;
        cb.cmd_pipeline_barrier(1, 2, 0)
    });
    assert_eq!(r, Ok(()));
    assert_eq!(cb.commands().len(), 3);
}

#[test]
fn render_passes_do_not_nest() {
    let mut cb = CommandBuffer::new(Level::Primary, 3);
    let r = cb.record(CommandBufferUsageFlags::empty(), |cb| {
        cb.cmd_begin_render_pass(begin_info(), SubpassContents::Inline, |cb| {
            cb.cmd_begin_render_pass(begin_info(), SubpassContents::Inline, |_cb| Ok(()))
        })
    });
    assert_eq!(r, Err(CommandError::InsideRenderPass));
    assert_eq!(cb.phase(), Phase::Invalid);
    assert_eq!(cb.commands().len(), 2);
    assert_eq!(cb.commands()[1], Command::EndRenderPass);
}

#[test]
fn recording_ends_only_after_the_render_pass() {
    let mut cb = CommandBuffer::new(Level::Primary, 3);
    let r = cb.record(CommandBufferUsageFlags::empty(), |cb| {
        cb.cmd_begin_render_pass(begin_info(), SubpassContents::Inline, |cb| {
            assert_eq!(cb.scope(), RenderPassScope::Inside);
            assert_eq!(
                cb.record(CommandBufferUsageFlags::empty(), |_cb| Ok(())),
                Err(CommandError::WrongPhase { expected: Phase::Initial, found: Phase::Recording })
            );
            assert_eq!(cb.phase(), Phase::Recording);
            cb.cmd_draw(3, 1, 0, 0)
        })
    });
    assert_eq!(r, Ok(()));
    assert_eq!(cb.phase(), Phase::Executable);
    assert_eq!(cb.scope(), RenderPassScope::Outside);
    assert_eq!(cb.commands().last(), Some(&Command::EndRenderPass));
}

#[test]
fn failing_callback_leaves_buffer_invalid() {
    let mut cb = CommandBuffer::new(Level::Primary, 3);
    let r = cb.record(CommandBufferUsageFlags::one_time_submit(), |_cb| Err(CommandError::ExecutionPending));
    assert_eq!(r, Err(CommandError::ExecutionPending));
    assert_eq!(cb.phase(), Phase::Invalid);
    assert!(cb.commands().is_empty());
}

#[test]
fn failing_draw_inside_record_closes_recording() {
    let mut cb = CommandBuffer::new(Level::Primary, 3);
    let r = cb.record(CommandBufferUsageFlags::empty(), |cb| cb.cmd_draw(3, 1, 0, 0));
    assert_eq!(r, Err(CommandError::OutsideRenderPass));
    assert_eq!(cb.phase(), Phase::Invalid);
}

#[test]
fn record_with_render_pass_ends_executable() {
    let mut cb = CommandBuffer::new(Level::Primary, 3);
    let p = pipeline(42);
    let r = cb.record(CommandBufferUsageFlags::one_time_submit(), |cb| {
        cb.cmd_begin_render_pass(begin_info(), SubpassContents::Inline, |cb| {
            cb.cmd_bind_pipeline(PipelineBindPoint::Graphics, &p)?;
            cb.cmd_draw(3, 1, 0, 0)
        })
    });
    assert_eq!(r, Ok(()));
    assert_eq!(cb.phase(), Phase::Executable);
    assert_eq!(cb.scope(), RenderPassScope::Outside);
    let cmds = cb.commands();
    assert_eq!(cmds.len(), 4);
    assert_eq!(cmds[1], Command::BindPipeline { bind_point: PipelineBindPoint::Graphics, pipeline: 42 });
    assert_eq!(cmds[3], Command::EndRenderPass);
    assert!(cb.usage().one_time_submit);
}

#[test]
fn scoped_render_pass_records_in_order() {
    let mut cb = CommandBuffer::new(Level::Primary, 3);
    let l = layout();
    let r = cb.record(CommandBufferUsageFlags::empty(), |cb| {
        cb.cmd_begin_render_pass(begin_info(), SubpassContents::Inline, |cb| {
            cb.cmd_bind_descriptor_sets(
                PipelineBindPoint::Graphics,
                &l,
                0,
                vec![Arc::new(DescriptorSet { raw: 60 }), Arc::new(DescriptorSet { raw: 61 })],
                vec![],
            )?;
            cb.cmd_bind_vertex_buffers(0, vec![Arc::new(Buffer { raw: 50 })], vec![8])?;
            cb.cmd_bind_index_buffer(Arc::new(Buffer { raw: 51 }), 0, IndexType::Uint32)?;
            cb.cmd_draw_indexed(6, 1, 0, 0, 1)
        })?;
        assert_eq!(cb.scope(), RenderPassScope::Outside);
        cb.cmd_pipeline_barrier(1, 2, 0)
    });
    assert_eq!(r, Ok(()));
    let cmds = cb.commands();
    assert_eq!(cmds.len(), 7);
    assert_eq!(
        cmds[0],
        Command::BeginRenderPass {
            render_pass: 10,
            framebuffer: 11,
            render_area: Rect2D { x: 0, y: 0, width: 640, height: 480 },
            clear_values: vec![ClearValue { words: [0, 0, 0, 0] }],
            contents: SubpassContents::Inline,
        }
    );
    assert_eq!(
        cmds[1],
        Command::BindDescriptorSets {
            bind_point: PipelineBindPoint::Graphics,
            layout: 5,
            first_set: 0,
            descriptor_sets: vec![60, 61],
            dynamic_offsets: vec![],
        }
    );
    assert_eq!(cmds[2], Command::BindVertexBuffers { first_binding: 0, buffers: vec![50], offsets: vec![8] });
    assert_eq!(cmds[3], Command::BindIndexBuffer { buffer: 51, offset: 0, index_type: IndexType::Uint32 });
    assert_eq!(cmds[5], Command::EndRenderPass);
    assert_eq!(cmds[6], Command::PipelineBarrier { src_stage_mask: 1, dst_stage_mask: 2, dependency_flags: 0 });
}

#[test]
fn record_rejected_unless_initial() {
    let mut cb = CommandBuffer::new(Level::Primary, 3);
    cb.record(CommandBufferUsageFlags::empty(), |_cb| Ok(())).unwrap();
    let r = cb.record(CommandBufferUsageFlags::empty(), |_cb| Ok(()));
    assert_eq!(r, Err(CommandError::WrongPhase { expected: Phase::Initial, found: Phase::Executable }));
    assert_eq!(cb.phase(), Phase::Executable);
}

#[test]
fn reset_after_end_without_submit() {
    let p = pipeline(42);
    let mut a = CommandBuffer::new(Level::Primary, 3);
    let mut b = CommandBuffer::new(Level::Primary, 4);
    executable(&mut a, PipelineBindPoint::Graphics, &p);
    executable(&mut b, PipelineBindPoint::Compute, &p);
    assert_eq!(a.reset(), Ok(()));
    assert_eq!(a.phase(), Phase::Initial);
    assert!(a.commands().is_empty());
    assert_eq!(b.phase(), Phase::Executable);
    assert_eq!(b.commands().to_vec(), vec![Command::BindPipeline { bind_point: PipelineBindPoint::Compute, pipeline: 42 }]);
}

#[test]
fn reset_while_pending_is_rejected() {
    let p = pipeline(42);
    let mut a = CommandBuffer::new(Level::Primary, 3);
    let mut b = CommandBuffer::new(Level::Primary, 4);
    executable(&mut a, PipelineBindPoint::Graphics, &p);
    executable(&mut b, PipelineBindPoint::Graphics, &p);
    a.submit(90).unwrap();
    assert_eq!(a.fence(), Some(90));
    assert_eq!(a.reset(), Err(CommandError::ExecutionPending));
    assert_eq!(a.phase(), Phase::Pending);
    assert_eq!(a.commands().len(), 1);
    assert_eq!(b.phase(), Phase::Executable);
    assert_eq!(b.commands().len(), 1);
    assert_eq!(b.fence(), None);
    a.complete_execution(90).unwrap();
    assert_eq!(a.fence(), None);
    assert_eq!(a.phase(), Phase::Executable);
    assert_eq!(a.reset(), Ok(()));
    assert_eq!(a.phase(), Phase::Initial);
}

#[test]
fn one_time_submit_becomes_invalid_after_execution() {
    let mut cb = CommandBuffer::new(Level::Primary, 3);
    cb.record(CommandBufferUsageFlags::one_time_submit(), |_cb| Ok(())).unwrap();
    assert_eq!(cb.submit(8), Ok(()));
    assert_eq!(cb.submit(8), Err(CommandError::WrongPhase { expected: Phase::Executable, found: Phase::Pending }));
    assert_eq!(cb.complete_execution(8), Ok(()));
    assert_eq!(cb.phase(), Phase::Invalid);
    assert_eq!(cb.submit(8), Err(CommandError::WrongPhase { expected: Phase::Executable, found: Phase::Invalid }));
    assert_eq!(cb.complete_execution(8), Err(CommandError::WrongPhase { expected: Phase::Pending, found: Phase::Invalid }));
    assert_eq!(cb.reset(), Ok(()));
    assert_eq!(cb.phase(), Phase::Initial);
}

#[test]
fn completion_needs_the_submitted_fence() {
    let mut cb = CommandBuffer::new(Level::Primary, 3);
    cb.record(CommandBufferUsageFlags::empty(), |_cb| Ok(())).unwrap();
    cb.submit(8).unwrap();
    assert_eq!(cb.complete_execution(9), Err(CommandError::FenceMismatch));
    assert_eq!(cb.phase(), Phase::Pending);
    assert_eq!(cb.fence(), Some(8));
    assert_eq!(cb.complete_execution(8), Ok(()));
    assert_eq!(cb.phase(), Phase::Executable);
    assert_eq!(cb.submit(10), Ok(()));
    assert_eq!(cb.fence(), Some(10));
}
