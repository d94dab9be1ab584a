//! The recording state machine of a command buffer.
//!
//! A buffer is allocated in `Initial`, records between `begin` and `end`,
//! is submitted from `Executable` and awaits completion in `Pending`. Inside a
//! recording, render-pass scope nests one level deep. Every operation checks the
//! phase and scope at run time and rejects an illegal call with an error,
//! leaving the buffer as it was.
use vstd::prelude::*;
use crate::handle::{Buffer, DescriptorSet, Framebuffer, RenderPass};
use crate::pipeline::{Pipeline, PipelineLayout};
use std::sync::Arc;

verus! {

/// Whether a buffer is submitted directly or executed from another buffer.
#[derive(Clone, Copy, Debug, PartialEq, Eq, Structural)]
pub enum Level {
    Primary,
    Secondary,
}

/// The lifecycle stage of a command buffer.
#[derive(Clone, Copy, Debug, PartialEq, Eq, Structural)]
pub enum Phase {
    Initial,
    Recording,
    Executable,
    /// Submitted; its execution has not been seen to complete.
    Pending,
    /// Its contents may not be submitted again until it is reset.
    Invalid,
}

/// Whether a recording buffer is inside a begun render pass.
#[derive(Clone, Copy, Debug, PartialEq, Eq, Structural)]
pub enum RenderPassScope {
    Outside,
    Inside,
}

/// How the commands of a render pass are provided.
#[derive(Clone, Copy, Debug, PartialEq, Eq, Structural)]
pub enum SubpassContents {
    Inline,
    SecondaryCommandBuffers,
}

/// The pipeline slot a bind targets.
#[derive(Clone, Copy, Debug, PartialEq, Eq, Structural)]
pub enum PipelineBindPoint {
    Graphics,
    Compute,
}

/// The width of the indices in an index buffer.
#[derive(Clone, Copy, Debug, PartialEq, Eq, Structural)]
pub enum IndexType {
    Uint16,
    Uint32,
}

/// How a recording will be used.
#[derive(Clone, Copy, Debug, PartialEq, Eq, Structural)]
pub struct CommandBufferUsageFlags {
    /// The buffer is submitted once and must be reset before it is recorded again.
    pub one_time_submit: bool,
    pub render_pass_continue: bool,
    pub simultaneous_use: bool,
}

impl CommandBufferUsageFlags {
    /// No usage flag.
    pub fn empty() -> (r: CommandBufferUsageFlags)
        ensures
            !r.one_time_submit && !r.render_pass_continue && !r.simultaneous_use,
    {
        CommandBufferUsageFlags {
            one_time_submit: false,
            render_pass_continue: false,
            simultaneous_use: false,
        }
    }

    /// Only the one-time-submit flag.
    pub fn one_time_submit() -> (r: CommandBufferUsageFlags)
        ensures
            r.one_time_submit && !r.render_pass_continue && !r.simultaneous_use,
    {
        CommandBufferUsageFlags {
            one_time_submit: true,
            render_pass_continue: false,
            simultaneous_use: false,
        }
    }
}

/// A rectangle of framebuffer pixels.
#[derive(Clone, Copy, Debug, PartialEq, Eq, Structural)]
pub struct Rect2D {
    pub x: i32,
    pub y: i32,
    pub width: u32,
    pub height: u32,
}

/// The clear value of one attachment, as the four 32-bit words of the native
/// union (a colour as four floats, integers or unsigned integers; a depth as
/// a float and a stencil value).
#[derive(Clone, Copy, Debug, PartialEq, Eq)]
pub struct ClearValue {
    pub words: [u32; 4],
}

/// What beginning a render pass needs.
#[derive(Clone, Debug)]
pub struct RenderPassBeginInfo {
    pub render_pass: Arc<RenderPass>,
    pub framebuffer: Arc<Framebuffer>,
    pub render_area: Rect2D,
    pub clear_values: Vec<ClearValue>,
}

/// One recorded instruction, with the raw handles it refers to.
#[derive(Clone, Debug, PartialEq, Eq)]
pub enum Command {
    BeginRenderPass {
        render_pass: u64,
        framebuffer: u64,
        render_area: Rect2D,
        clear_values: Vec<ClearValue>,
        contents: SubpassContents,
    },
    EndRenderPass,
    BindPipeline { bind_point: PipelineBindPoint, pipeline: u64 },
    BindDescriptorSets {
        bind_point: PipelineBindPoint,
        layout: u64,
        first_set: u32,
        descriptor_sets: Vec<u64>,
        dynamic_offsets: Vec<u32>,
    },
    BindVertexBuffers { first_binding: u32, buffers: Vec<u64>, offsets: Vec<u64> },
    BindIndexBuffer { buffer: u64, offset: u64, index_type: IndexType },
    Draw { vertex_count: u32, instance_count: u32, first_vertex: u32, first_instance: u32 },
    DrawIndexed {
        index_count: u32,
        instance_count: u32,
        first_index: u32,
        vertex_offset: i32,
        first_instance: u32,
    },
    PipelineBarrier { src_stage_mask: u32, dst_stage_mask: u32, dependency_flags: u32 },
}

/// Why an operation on a command buffer was rejected.
#[derive(Clone, Copy, Debug, PartialEq, Eq, Structural)]
pub enum CommandError {
    /// The operation is legal only in phase `expected`.
    WrongPhase { expected: Phase, found: Phase },
    /// The operation is legal only outside a render pass.
    InsideRenderPass,
    /// The operation is legal only inside a render pass.
    OutsideRenderPass,
    /// The buffer's last submission has not been seen to complete.
    ExecutionPending,
    /// The fence named is not the one the pending submission signals.
    FenceMismatch,
}

/// The abstract state of a command buffer.
pub struct CommandBufferView {
    pub level: Level,
    pub handle: u64,
    pub phase: Phase,
    pub scope: RenderPassScope,
    pub usage: CommandBufferUsageFlags,
    /// The instructions recorded since the last begin, in order.
    pub commands: Seq<Command>,
    /// The fence that signals the completion of the pending submission.
    pub fence: Option<u64>,
}

/// A command buffer and the instructions recorded into it.
pub struct CommandBuffer {
    level: Level,
    handle: u64,
    phase: Phase,
    scope: RenderPassScope,
    usage: CommandBufferUsageFlags,
    commands: Vec<Command>,
    fence: Option<u64>,
}

impl View for CommandBuffer {
    type V = CommandBufferView;

    closed spec fn view(&self) -> CommandBufferView {
        CommandBufferView {
            level: self.level,
            handle: self.handle,
            phase: self.phase,
            scope: self.scope,
            usage: self.usage,
            commands: self.commands@,
            fence: self.fence,
        }
    }
}

/// The error, if any, of an operation legal anywhere inside a recording.
pub open spec fn check_recording(v: CommandBufferView) -> Result<(), CommandError> {
    if v.phase != Phase::Recording {
        Err(CommandError::WrongPhase { expected: Phase::Recording, found: v.phase })
    } else {
        Ok(())
    }
}

/// The error, if any, of an operation legal only inside a render pass.
pub open spec fn check_inside(v: CommandBufferView) -> Result<(), CommandError> {
    if v.phase != Phase::Recording {
        Err(CommandError::WrongPhase { expected: Phase::Recording, found: v.phase })
    } else if v.scope != RenderPassScope::Inside {
        Err(CommandError::OutsideRenderPass)
    } else {
        Ok(())
    }
}

/// The error, if any, of an operation legal only outside a render pass.
pub open spec fn check_outside(v: CommandBufferView) -> Result<(), CommandError> {
    if v.phase != Phase::Recording {
        Err(CommandError::WrongPhase { expected: Phase::Recording, found: v.phase })
    } else if v.scope != RenderPassScope::Outside {
        Err(CommandError::InsideRenderPass)
    } else {
        Ok(())
    }
}

/// `v` with `c` appended to its recording.
pub open spec fn appended(v: CommandBufferView, c: Command) -> CommandBufferView {
    CommandBufferView { commands: v.commands.push(c), ..v }
}

/// The result of an operation that checked `check` and on success records `c`.
pub open spec fn recorded(
    v: CommandBufferView,
    check: Result<(), CommandError>,
    c: Command,
) -> CommandBufferView {
    if check is Ok {
        appended(v, c)
    } else {
        v
    }
}

/// `v` after a successful `begin` with `usage`.
pub open spec fn began(v: CommandBufferView, usage: CommandBufferUsageFlags) -> CommandBufferView {
    CommandBufferView {
        phase: Phase::Recording,
        scope: RenderPassScope::Outside,
        usage,
        commands: Seq::empty(),
        ..v
    }
}

/// `v` after a successful `end`.
pub open spec fn ended(v: CommandBufferView) -> CommandBufferView {
    CommandBufferView { phase: Phase::Executable, ..v }
}

/// `v` after a render pass that is still open has been ended.
pub open spec fn left_render_pass(v: CommandBufferView) -> CommandBufferView {
    if v.phase == Phase::Recording && v.scope == RenderPassScope::Inside {
        CommandBufferView {
            scope: RenderPassScope::Outside,
            ..appended(v, Command::EndRenderPass)
        }
    } else {
        v
    }
}

/// `v` after the scope of a recording has closed with the callback's result
/// `res`: a recording still open is ended, as `Executable` when the callback
/// succeeded and as `Invalid` when it failed.
pub open spec fn closed_recording(
    v: CommandBufferView,
    res: Result<(), CommandError>,
) -> CommandBufferView {
    if v.phase == Phase::Recording {
        CommandBufferView {
            phase: if res is Ok {
                Phase::Executable
            } else {
                Phase::Invalid
            },
            ..left_render_pass(v)
        }
    } else {
        v
    }
}

/// `v` after a render pass was begun with `info`.
pub open spec fn entered_render_pass(
    v: CommandBufferView,
    info: RenderPassBeginInfo,
    contents: SubpassContents,
) -> CommandBufferView {
    CommandBufferView {
        scope: RenderPassScope::Inside,
        ..appended(
            v,
            Command::BeginRenderPass {
                render_pass: info.render_pass.raw,
                framebuffer: info.framebuffer.raw,
                render_area: info.render_area,
                clear_values: info.clear_values,
                contents,
            },
        )
    }
}

/// The raw handles of `buffers`, in order.
pub open spec fn raw_buffers(buffers: Seq<Arc<Buffer>>) -> Seq<u64> {
    buffers.map_values(|b: Arc<Buffer>| b.raw)
}

/// `c` binds the vertex buffers `buffers` at `offsets` from `first_binding` on.
pub open spec fn binds_vertex_buffers(
    c: Command,
    first_binding: u32,
    buffers: Seq<Arc<Buffer>>,
    offsets: Seq<u64>,
) -> bool {
    match c {
        Command::BindVertexBuffers { first_binding: f, buffers: b, offsets: o } => f
            == first_binding && b@ == raw_buffers(buffers) && o@ == offsets,
        _ => false,
    }
}

/// The raw handles of `sets`, in order.
pub open spec fn raw_descriptor_sets(sets: Seq<Arc<DescriptorSet>>) -> Seq<u64> {
    sets.map_values(|d: Arc<DescriptorSet>| d.raw)
}

/// `c` binds the descriptor sets `sets` from `first_set` on, through `layout`.
pub open spec fn binds_descriptor_sets(
    c: Command,
    bind_point: PipelineBindPoint,
    layout: u64,
    first_set: u32,
    sets: Seq<Arc<DescriptorSet>>,
    dynamic_offsets: Seq<u32>,
) -> bool {
    match c {
        Command::BindDescriptorSets {
            bind_point: p,
            layout: l,
            first_set: f,
            descriptor_sets: d,
            dynamic_offsets: o,
        } => p == bind_point && l == layout && f == first_set && d@ == raw_descriptor_sets(sets)
            && o@ == dynamic_offsets,
        _ => false,
    }
}

/// `v` after it was submitted with `fence`.
pub open spec fn submitted(v: CommandBufferView, fence: u64) -> CommandBufferView {
    CommandBufferView { phase: Phase::Pending, fence: Some(fence), ..v }
}

/// `v` after its execution was seen to complete.
pub open spec fn completed(v: CommandBufferView) -> CommandBufferView {
    CommandBufferView {
        fence: None,
        phase: if v.usage.one_time_submit {
            Phase::Invalid
        } else {
            Phase::Executable
        },
        ..v
    }
}

/// `v` after a reset.
pub open spec fn reset_view(v: CommandBufferView) -> CommandBufferView {
    CommandBufferView {
        phase: Phase::Initial,
        scope: RenderPassScope::Outside,
        commands: Seq::empty(),
        fence: None,
        ..v
    }
}

impl CommandBuffer {
    /// A freshly allocated buffer with the native handle `handle`.
    pub fn new(level: Level, handle: u64) -> (r: CommandBuffer)
        ensures
            r@.level == level,
            r@.handle == handle,
            r@.phase == Phase::Initial,
            r@.scope == RenderPassScope::Outside,
            !r@.usage.one_time_submit && !r@.usage.render_pass_continue
                && !r@.usage.simultaneous_use,
            r@.commands.len() == 0,
            r@.fence is None,
    {
        CommandBuffer {
            level,
            handle,
            phase: Phase::Initial,
            scope: RenderPassScope::Outside,
            usage: CommandBufferUsageFlags::empty(),
            commands: Vec::new(),
            fence: None,
        }
    }

    pub fn level(&self) -> (r: Level)
        ensures
            r == self@.level,
    {
        self.level
    }

    pub fn handle(&self) -> (r: u64)
        ensures
            r == self@.handle,
    {
        self.handle
    }

    pub fn phase(&self) -> (r: Phase)
        ensures
            r == self@.phase,
    {
        self.phase
    }

    pub fn scope(&self) -> (r: RenderPassScope)
        ensures
            r == self@.scope,
    {
        self.scope
    }

    pub fn usage(&self) -> (r: CommandBufferUsageFlags)
        ensures
            r == self@.usage,
    {
        self.usage
    }

    /// The fence that signals the completion of the pending submission.
    pub fn fence(&self) -> (r: Option<u64>)
        ensures
            r == self@.fence,
    {
        self.fence
    }

    /// The instructions recorded since the last begin, in order.
    pub fn commands(&self) -> (r: &Vec<Command>)
        ensures
            r@ == self@.commands,
    {
        &self.commands
    }

    fn check_recording(&self) -> (r: Result<(), CommandError>)
        ensures
            r == check_recording(self@),
    {
        match self.phase {
            Phase::Recording => Ok(()),
            found => Err(CommandError::WrongPhase { expected: Phase::Recording, found }),
        }
    }

    fn check_inside(&self) -> (r: Result<(), CommandError>)
        ensures
            r == check_inside(self@),
    {
        match self.check_recording() {
            Err(e) => Err(e),
            Ok(()) => match self.scope {
                RenderPassScope::Inside => Ok(()),
                RenderPassScope::Outside => Err(CommandError::OutsideRenderPass),
            },
        }
    }

    fn check_outside(&self) -> (r: Result<(), CommandError>)
        ensures
            r == check_outside(self@),
    {
        match self.check_recording() {
            Err(e) => Err(e),
            Ok(()) => match self.scope {
                RenderPassScope::Outside => Ok(()),
                RenderPassScope::Inside => Err(CommandError::InsideRenderPass),
            },
        }
    }

    /// Appends `c` to the recording when `check` passed.
    fn record_checked(&mut self, check: Result<(), CommandError>, c: Command) -> (r: Result<
        (),
        CommandError,
    >)
        ensures
            r == check,
            final(self)@ == recorded(old(self)@, check, c),
    {
        if check.is_ok() {
            self.commands.push(c);
        }
        check
    }

    /// Starts a recording: legal only in `Initial`. Reached through `record`,
    /// which guarantees the matching end.
    pub(crate) fn begin(&mut self, usage: CommandBufferUsageFlags) -> (r: Result<(), CommandError>)
        ensures
            old(self)@.phase == Phase::Initial ==> r is Ok && final(self)@ == began(
                old(self)@,
                usage,
            ),
            old(self)@.phase != Phase::Initial ==> r == Err::<(), CommandError>(
                CommandError::WrongPhase { expected: Phase::Initial, found: old(self)@.phase },
            ) && final(self)@ == old(self)@,
    {
        match self.phase {
            Phase::Initial => {
                self.phase = Phase::Recording;
                self.scope = RenderPassScope::Outside;
                self.usage = usage;
                self.commands = Vec::new();
                Ok(())
            },
            found => Err(CommandError::WrongPhase { expected: Phase::Initial, found }),
        }
    }

    /// Finishes a recording: legal only while recording outside a render pass.
    pub(crate) fn end(&mut self) -> (r: Result<(), CommandError>)
        ensures
            r == check_outside(old(self)@),
            r is Ok ==> final(self)@ == ended(old(self)@),
            r is Err ==> final(self)@ == old(self)@,
    {
        let check = self.check_outside();
        if check.is_ok() {
            self.phase = Phase::Executable;
        }
        check
    }

    /// Starts a render pass: legal only while recording outside one. Reached
    /// through `cmd_begin_render_pass`, which guarantees the matching end.
    pub(crate) fn begin_render_pass(
        &mut self,
        info: RenderPassBeginInfo,
        contents: SubpassContents,
    ) -> (r: Result<(), CommandError>)
        ensures
            r == check_outside(old(self)@),
            r is Ok ==> final(self)@ == entered_render_pass(old(self)@, info, contents),
            r is Err ==> final(self)@ == old(self)@,
    {
        let check = self.check_outside();
        if check.is_ok() {
            let c = Command::BeginRenderPass {
                render_pass: info.render_pass.raw,
                framebuffer: info.framebuffer.raw,
                render_area: info.render_area,
                clear_values: info.clear_values,
                contents,
            };
            self.commands.push(c);
            self.scope = RenderPassScope::Inside;
        }
        check
    }

    /// Ends the current render pass: legal only inside one.
    pub(crate) fn end_render_pass(&mut self) -> (r: Result<(), CommandError>)
        ensures
            r == check_inside(old(self)@),
            r is Ok ==> final(self)@ == left_render_pass(old(self)@),
            r is Err ==> final(self)@ == old(self)@,
    {
        let check = self.check_inside();
        if check.is_ok() {
            self.commands.push(Command::EndRenderPass);
            self.scope = RenderPassScope::Outside;
        }
        check
    }

    /// Runs `f` inside a render pass begun with `info`, and ends the pass
    /// afterwards if `f` left it open, whatever `f` returned. Returns the
    /// result of `f`.
    pub fn cmd_begin_render_pass<F>(
        &mut self,
        info: RenderPassBeginInfo,
        contents: SubpassContents,
        f: F,
    ) -> (r: Result<(), CommandError>) where
        F: FnOnce(&mut CommandBuffer) -> Result<(), CommandError>,

        requires
            forall|x: &mut CommandBuffer| f.requires((x,)),
        ensures
            check_outside(old(self)@) is Err ==> r == check_outside(old(self)@) && final(self)@
                == old(self)@,
            check_outside(old(self)@) is Ok ==> exists|x: &mut CommandBuffer|
                {
                    &&& (*x)@ == entered_render_pass(old(self)@, info, contents)
                    &&& f.ensures((x,), r)
                    &&& final(self)@ == left_render_pass(final(x)@)
                },
    {
        let check = self.begin_render_pass(info, contents);
        match check {
            Err(e) => Err(e),
            Ok(()) => {
                let res = f(self);
                self.close_render_pass();
                res
            },
        }
    }

    /// Ends a render pass that is still open.
    fn close_render_pass(&mut self)
        ensures
            final(self)@ == left_render_pass(old(self)@),
    {
        if self.phase == Phase::Recording && self.scope == RenderPassScope::Inside {
            self.commands.push(Command::EndRenderPass);
            self.scope = RenderPassScope::Outside;
        }
    }

    /// Records with `f` between a begin with `usage` and an end, which is made
    /// on every path: a recording that `f` left open is ended (closing an open
    /// render pass first), as `Executable` when `f` succeeded and as `Invalid`
    /// when it failed. Legal only in `Initial`. Returns the result of `f`.
    pub fn record<F>(&mut self, usage: CommandBufferUsageFlags, f: F) -> (r: Result<
        (),
        CommandError,
    >) where F: FnOnce(&mut CommandBuffer) -> Result<(), CommandError>,

        requires
            forall|x: &mut CommandBuffer| f.requires((x,)),
        ensures
            old(self)@.phase != Phase::Initial ==> r == Err::<(), CommandError>(
                CommandError::WrongPhase { expected: Phase::Initial, found: old(self)@.phase },
            ) && final(self)@ == old(self)@,
            old(self)@.phase == Phase::Initial ==> exists|x: &mut CommandBuffer|
                {
                    &&& (*x)@ == began(old(self)@, usage)
                    &&& f.ensures((x,), r)
                    &&& final(self)@ == closed_recording(final(x)@, r)
                },
    {
        match self.begin(usage) {
            Err(e) => Err(e),
            Ok(()) => {
                let res = f(self);
                if self.phase == Phase::Recording {
                    self.close_render_pass();
                    self.phase = if res.is_ok() {
                        Phase::Executable
                    } else {
                        Phase::Invalid
                    };
                }
                res
            },
        }
    }

    /// Binds `pipeline` at `bind_point`: legal anywhere in a recording. The
    /// buffer records the pipeline's handle and does not keep it alive.
    pub fn cmd_bind_pipeline(&mut self, pipeline_bind_point: PipelineBindPoint, pipeline: &Pipeline) -> (r:
        Result<(), CommandError>)
        ensures
            r == check_recording(old(self)@),
            final(self)@ == recorded(
                old(self)@,
                r,
                Command::BindPipeline { bind_point: pipeline_bind_point, pipeline: pipeline@.handle },
            ),
    {
        let check = self.check_recording();
        self.record_checked(
            check,
            Command::BindPipeline { bind_point: pipeline_bind_point, pipeline: pipeline.handle() },
        )
    }

    /// Binds `descriptor_sets` to the sets from `first_set` on, through
    /// `layout`: legal anywhere in a recording.
    pub fn cmd_bind_descriptor_sets(
        &mut self,
        pipeline_bind_point: PipelineBindPoint,
        layout: &PipelineLayout,
        first_set: u32,
        descriptor_sets: Vec<Arc<DescriptorSet>>,
        dynamic_offsets: Vec<u32>,
    ) -> (r: Result<(), CommandError>)
        ensures
            r == check_recording(old(self)@),
            r is Err ==> final(self)@ == old(self)@,
            r is Ok ==> exists|c: Command|
                final(self)@ == appended(old(self)@, c) && binds_descriptor_sets(
                    c,
                    pipeline_bind_point,
                    layout@.handle,
                    first_set,
                    descriptor_sets@,
                    dynamic_offsets@,
                ),
    {
        let check = self.check_recording();
        let mut raw: Vec<u64> = Vec::new();
        let mut i: usize = 0;
        while i < descriptor_sets.len()
            invariant
                i <= descriptor_sets@.len(),
                raw@ == raw_descriptor_sets(descriptor_sets@.take(i as int)),
            decreases descriptor_sets@.len() - i,
        {
            raw.push(descriptor_sets[i].raw);
            i = i + 1;
            proof {
                assert(descriptor_sets@.take(i as int).drop_last() =~= descriptor_sets@.take(i - 1));
            }
        }
        proof {
            assert(descriptor_sets@.take(descriptor_sets@.len() as int) =~= descriptor_sets@);
        }
        let c = Command::BindDescriptorSets {
            bind_point: pipeline_bind_point,
            layout: layout.handle(),
            first_set,
            descriptor_sets: raw,
            dynamic_offsets,
        };
        assert(binds_descriptor_sets(
            c,
            pipeline_bind_point,
            layout@.handle,
            first_set,
            descriptor_sets@,
            dynamic_offsets@,
        ));
        self.record_checked(check, c)
    }

    /// Binds index buffer `buffer` at `offset`: legal anywhere in a recording.
    pub fn cmd_bind_index_buffer(
        &mut self,
        buffer: Arc<Buffer>,
        offset: u64,
        index_type: IndexType,
    ) -> (r: Result<(), CommandError>)
        ensures
            r == check_recording(old(self)@),
            final(self)@ == recorded(
                old(self)@,
                r,
                Command::BindIndexBuffer { buffer: buffer.raw, offset, index_type },
            ),
    {
        let check = self.check_recording();
        self.record_checked(check, Command::BindIndexBuffer { buffer: buffer.raw, offset, index_type })
    }

    /// Binds `buffers[i]` at `offsets[i]` to binding `first_binding + i`:
    /// legal anywhere in a recording.
    pub fn cmd_bind_vertex_buffers(
        &mut self,
        first_binding: u32,
        buffers: Vec<Arc<Buffer>>,
        offsets: Vec<u64>,
    ) -> (r: Result<(), CommandError>)
        ensures
            r == check_recording(old(self)@),
            r is Err ==> final(self)@ == old(self)@,
            r is Ok ==> exists|c: Command|
                final(self)@ == appended(old(self)@, c) && binds_vertex_buffers(
                    c,
                    first_binding,
                    buffers@,
                    offsets@,
                ),
    {
        let check = self.check_recording();
        let mut raw: Vec<u64> = Vec::new();
        let mut i: usize = 0;
        while i < buffers.len()
            invariant
                i <= buffers@.len(),
                raw@ == raw_buffers(buffers@.take(i as int)),
            decreases buffers@.len() - i,
        {
            raw.push(buffers[i].raw);
            i = i + 1;
            proof {
                assert(buffers@.take(i as int).drop_last() =~= buffers@.take(i - 1));
            }
        }
        proof {
            assert(buffers@.take(buffers@.len() as int) =~= buffers@);
        }
        let c = Command::BindVertexBuffers { first_binding, buffers: raw, offsets };
        assert(binds_vertex_buffers(c, first_binding, buffers@, offsets@));
        self.record_checked(check, c)
    }

    /// Draws `vertex_count` vertices: legal only inside a render pass.
    pub fn cmd_draw(
        &mut self,
        vertex_count: u32,
        instance_count: u32,
        first_vertex: u32,
        first_instance: u32,
    ) -> (r: Result<(), CommandError>)
        ensures
            r == check_inside(old(self)@),
            final(self)@ == recorded(
                old(self)@,
                r,
                Command::Draw { vertex_count, instance_count, first_vertex, first_instance },
            ),
    {
        let check = self.check_inside();
        self.record_checked(
            check,
            Command::Draw { vertex_count, instance_count, first_vertex, first_instance },
        )
    }

    /// Draws `index_count` indexed vertices: legal only inside a render pass.
    pub fn cmd_draw_indexed(
        &mut self,
        index_count: u32,
        instance_count: u32,
        first_index: u32,
        vertex_offset: i32,
        first_instance: u32,
    ) -> (r: Result<(), CommandError>)
        ensures
            r == check_inside(old(self)@),
            final(self)@ == recorded(
                old(self)@,
                r,
                Command::DrawIndexed {
                    index_count,
                    instance_count,
                    first_index,
                    vertex_offset,
                    first_instance,
                },
            ),
    {
        let check = self.check_inside();
        self.record_checked(
            check,
            Command::DrawIndexed {
                index_count,
                instance_count,
                first_index,
                vertex_offset,
                first_instance,
            },
        )
    }

    /// Inserts an execution dependency between the stages `src_stage_mask`
    /// and `dst_stage_mask`: legal only outside a render pass.
    pub fn cmd_pipeline_barrier(
        &mut self,
        src_stage_mask: u32,
        dst_stage_mask: u32,
        dependency_flags: u32,
    ) -> (r: Result<(), CommandError>)
        ensures
            r == check_outside(old(self)@),
            final(self)@ == recorded(
                old(self)@,
                r,
                Command::PipelineBarrier { src_stage_mask, dst_stage_mask, dependency_flags },
            ),
    {
        let check = self.check_outside();
        self.record_checked(
            check,
            Command::PipelineBarrier { src_stage_mask, dst_stage_mask, dependency_flags },
        )
    }

    /// Hands the buffer to a queue whose completion `fence` signals: legal
    /// only in `Executable`.
    pub fn submit(&mut self, fence: u64) -> (r: Result<(), CommandError>)
        ensures
            old(self)@.phase == Phase::Executable ==> r is Ok && final(self)@ == submitted(
                old(self)@,
                fence,
            ),
            old(self)@.phase != Phase::Executable ==> r == Err::<(), CommandError>(
                CommandError::WrongPhase { expected: Phase::Executable, found: old(self)@.phase },
            ) && final(self)@ == old(self)@,
    {
        match self.phase {
            Phase::Executable => {
                self.phase = Phase::Pending;
                self.fence = Some(fence);
                Ok(())
            },
            found => Err(CommandError::WrongPhase { expected: Phase::Executable, found }),
        }
    }

    /// Records that `fence` was seen signalled, so that the pending submission
    /// finished executing: legal only in `Pending`, and only for the fence it
    /// was submitted with. A one-time-submit recording becomes `Invalid`, any
    /// other `Executable` again.
    pub fn complete_execution(&mut self, fence: u64) -> (r: Result<(), CommandError>)
        ensures
            old(self)@.phase != Phase::Pending ==> r == Err::<(), CommandError>(
                CommandError::WrongPhase { expected: Phase::Pending, found: old(self)@.phase },
            ),
            old(self)@.phase == Phase::Pending && old(self)@.fence != Some(fence) ==> r
                == Err::<(), CommandError>(CommandError::FenceMismatch),
            old(self)@.phase == Phase::Pending && old(self)@.fence == Some(fence) ==> r is Ok,
            r is Ok ==> final(self)@ == completed(old(self)@),
            r is Err ==> final(self)@ == old(self)@,
    {
        match self.phase {
            Phase::Pending => {
                let current: Option<u64> = self.fence;
                let matches_fence = match current {
                    Some(f) => f == fence,
                    None => false,
                };
                if !matches_fence {
                    return Err(CommandError::FenceMismatch);
                }
                self.phase = if self.usage.one_time_submit {
                    Phase::Invalid
                } else {
                    Phase::Executable
                };
                self.fence = None;
                Ok(())
            },
            found => Err(CommandError::WrongPhase { expected: Phase::Pending, found }),
        }
    }

    /// Returns the buffer to `Initial` and forgets its recording. Rejected
    /// while a submission is pending.
    pub fn reset(&mut self) -> (r: Result<(), CommandError>)
        ensures
            old(self)@.phase != Phase::Pending ==> r is Ok && final(self)@ == reset_view(
                old(self)@,
            ),
            old(self)@.phase == Phase::Pending ==> r == Err::<(), CommandError>(
                CommandError::ExecutionPending,
            ) && final(self)@ == old(self)@,
    {
        match self.phase {
            Phase::Pending => Err(CommandError::ExecutionPending),
            _ => {
                self.phase = Phase::Initial;
                self.scope = RenderPassScope::Outside;
                self.commands = Vec::new();
                self.fence = None;
                Ok(())
            },
        }
    }
}


/// An operation legal only inside a render pass is rejected while recording
/// outside one, succeeds once a render pass has begun and for as long as
/// commands are recorded in it, and is rejected again once the pass ended;
/// an operation legal only outside a render pass is rejected inside one.
pub proof fn lemma_render_pass_scoped_operations(
    v: CommandBufferView,
    info: RenderPassBeginInfo,
    contents: SubpassContents,
    cmds: Seq<Command>,
)
    requires
        v.phase == Phase::Recording,
        v.scope == RenderPassScope::Outside,
    ensures
        check_inside(v) == Err::<(), CommandError>(CommandError::OutsideRenderPass),
        check_outside(v) is Ok,
        ({
            let inside = entered_render_pass(v, info, contents);
            let recorded_inside = CommandBufferView {
                commands: inside.commands + cmds,
                ..inside
            };
            &&& check_inside(inside) is Ok
            &&& check_inside(recorded_inside) is Ok
            &&& check_outside(recorded_inside) == Err::<(), CommandError>(
                CommandError::InsideRenderPass,
            )
            &&& check_inside(left_render_pass(recorded_inside)) == Err::<(), CommandError>(
                CommandError::OutsideRenderPass,
            )
        }),
{
}

/// However the recording callback ends, the recording is closed afterwards:
/// never left open, `Executable` after a successful callback that left it
/// open, and `Invalid` after a failed one. A callback that fails at once
/// leaves an `Invalid` buffer with nothing recorded.
pub proof fn lemma_recording_always_closed(
    v: CommandBufferView,
    usage: CommandBufferUsageFlags,
    after: CommandBufferView,
    res: Result<(), CommandError>,
    e: CommandError,
)
    ensures
        closed_recording(after, res).phase != Phase::Recording,
        after.phase == Phase::Recording && res is Ok ==> closed_recording(after, res).phase
            == Phase::Executable,
        after.phase == Phase::Recording && res is Err ==> closed_recording(after, res).phase
            == Phase::Invalid,
        after.phase == Phase::Recording ==> closed_recording(after, res).scope
            == RenderPassScope::Outside,
        closed_recording(began(v, usage), Err(e)).phase == Phase::Invalid,
        closed_recording(began(v, usage), Err(e)).commands.len() == 0,
{
}

} // verus!
