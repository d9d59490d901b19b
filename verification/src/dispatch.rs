use crate::command::{
    CreateInfo, CreateInfoView, DeviceCommand, DeviceCommandView, DeviceObject, DeviceReply,
    ObjectKind,
};
use crate::context::VkCtx;
use crate::error::{CopyTarget, KernelError, Phase};
use crate::shader::{ShaderExecutionContext, ShaderExecutionContextView};
use crate::vulkan::{compute_bind_point, compute_stage, timeout_code};
use vstd::prelude::*;

verus! {

/// How far one dispatch has come: which answer it waits for.
#[derive(Clone, Copy, Debug, PartialEq, Eq, Structural)]
pub enum DispatchStage {
    AwaitFence,
    AwaitBegin,
    AwaitBindPipeline,
    AwaitBindSet,
    AwaitPush,
    AwaitDispatch,
    AwaitEnd,
    AwaitSubmit,
    AwaitWait,
}

/// One synchronous dispatch of a built kernel, between two answers of the device: one
/// command buffer, one submission, one wait.
#[derive(Debug, PartialEq, Eq)]
pub struct Dispatch {
    pub stage: DispatchStage,
    /// The completion fence, once it exists.
    pub fence: u64,
    pub command_buffer: u64,
    pub queue: u64,
    pub pipeline: u64,
    pub pipeline_layout: u64,
    pub descriptor_set: u64,
    /// The words of the push-constant block, where the kernel has one.
    pub push_constants: Option<Vec<u32>>,
    /// The work-group counts in x, y and z.
    pub groups: (u32, u32, u32),
    /// Nanoseconds to wait for the fence.
    pub timeout: u64,
}

/// The mathematical content of a `Dispatch`.
pub struct DispatchView {
    pub stage: DispatchStage,
    pub fence: u64,
    pub command_buffer: u64,
    pub queue: u64,
    pub pipeline: u64,
    pub pipeline_layout: u64,
    pub descriptor_set: u64,
    pub push_constants: Option<Seq<u32>>,
    pub groups: (u32, u32, u32),
    pub timeout: u64,
}

impl View for Dispatch {
    type V = DispatchView;

    open spec fn view(&self) -> DispatchView {
        DispatchView {
            stage: self.stage,
            fence: self.fence,
            command_buffer: self.command_buffer,
            queue: self.queue,
            pipeline: self.pipeline,
            pipeline_layout: self.pipeline_layout,
            descriptor_set: self.descriptor_set,
            push_constants: match self.push_constants {
                Some(words) => Some(words@),
                None => None,
            },
            groups: self.groups,
            timeout: self.timeout,
        }
    }
}

/// Where one answer of the device takes a dispatch.
#[derive(Debug, PartialEq, Eq)]
pub enum DispatchProgress {
    /// The driver performs the command and comes back with the device's answer.
    Pending(Dispatch, DeviceCommand),
    /// The fence signalled: the kernel has run. The driver releases `release`.
    Finished { release: Vec<DeviceObject> },
    /// The dispatch failed; the driver releases `release`.
    Failed { error: KernelError, release: Vec<DeviceObject> },
}

/// The mathematical content of a `DispatchProgress`.
pub enum DispatchProgressView {
    Pending(DispatchView, DeviceCommandView),
    Finished { release: Seq<DeviceObject> },
    Failed { error: KernelError, release: Seq<DeviceObject> },
}

impl View for DispatchProgress {
    type V = DispatchProgressView;

    open spec fn view(&self) -> DispatchProgressView {
        match *self {
            DispatchProgress::Pending(dispatch, command) => DispatchProgressView::Pending(
                dispatch@,
                command@,
            ),
            DispatchProgress::Finished { release } => DispatchProgressView::Finished {
                release: release@,
            },
            DispatchProgress::Failed { error, release } => DispatchProgressView::Failed {
                error,
                release: release@,
            },
        }
    }
}

/// The option of sequences behind an option of vectors.
pub open spec fn words_view(words: Option<Vec<u32>>) -> Option<Seq<u32>> {
    match words {
        Some(list) => Some(list@),
        None => None,
    }
}

/// The dispatch of `context` on `ctx` before the device was asked for anything.
pub open spec fn initial_dispatch(
    ctx: &VkCtx,
    context: ShaderExecutionContextView,
    push_constants: Option<Seq<u32>>,
    groups: (u32, u32, u32),
) -> DispatchView {
    DispatchView {
        stage: DispatchStage::AwaitFence,
        fence: 0,
        command_buffer: ctx.command_buffer,
        queue: ctx.queue,
        pipeline: context.pipeline,
        pipeline_layout: context.pipeline_layout,
        descriptor_set: context.descriptor_set,
        push_constants,
        groups,
        timeout: ctx.fence_timeout,
    }
}

/// The bytes that the push-constant block fills, 0 where there is none.
pub open spec fn push_constant_bytes(push_constants: Option<Seq<u32>>) -> nat {
    match push_constants {
        Some(words) => 4 * words.len(),
        None => 0,
    }
}

/// What opening a dispatch comes to: the first state, or a `SizeMismatch` where the
/// push-constant block does not fill exactly the range the context was built with.
pub open spec fn dispatch_outcome(
    ctx: &VkCtx,
    context: ShaderExecutionContextView,
    push_constants: Option<Seq<u32>>,
    groups: (u32, u32, u32),
) -> Result<DispatchView, KernelError> {
    if push_constant_bytes(push_constants) != context.push_constant_size {
        Err(
            KernelError::SizeMismatch {
                target: CopyTarget::PushConstants,
                declared: context.push_constant_size as u64,
            },
        )
    } else {
        Ok(initial_dispatch(ctx, context, push_constants, groups))
    }
}

impl DispatchView {
    /// The fence, once it exists: all that a dispatch has on the device.
    pub open spec fn owned(self) -> Seq<DeviceObject> {
        if self.stage == DispatchStage::AwaitFence {
            seq![]
        } else {
            seq![DeviceObject { kind: ObjectKind::Fence, handle: self.fence }]
        }
    }

    /// The phase that the pending command belongs to.
    pub open spec fn phase(self) -> Phase {
        match self.stage {
            DispatchStage::AwaitFence => Phase::Fence,
            DispatchStage::AwaitBegin => Phase::BeginRecording,
            DispatchStage::AwaitBindPipeline | DispatchStage::AwaitBindSet
            | DispatchStage::AwaitPush | DispatchStage::AwaitDispatch => Phase::Recording,
            DispatchStage::AwaitEnd => Phase::EndRecording,
            DispatchStage::AwaitSubmit => Phase::Submit,
            DispatchStage::AwaitWait => Phase::Wait,
        }
    }

    /// What a reply other than the expected one amounts to: a fence that cannot be made
    /// is a creation failure, a wait that runs out is a timeout, any other refusal is a
    /// submission failure.
    pub open spec fn failure(self, reply: DeviceReply) -> KernelError {
        match reply {
            DeviceReply::Failed(code) => if self.stage == DispatchStage::AwaitFence {
                KernelError::ResourceCreationFailure { phase: Phase::Fence, code }
            } else if self.stage == DispatchStage::AwaitWait && code == 2 {
                KernelError::DeviceTimeout
            } else {
                KernelError::SubmissionFailure { phase: self.phase(), code }
            },
            _ => KernelError::UnexpectedReply { phase: self.phase() },
        }
    }

    /// The command that records the dispatch itself.
    pub open spec fn dispatch_command(self) -> DeviceCommandView {
        DeviceCommandView::Dispatch {
            command_buffer: self.command_buffer,
            x: self.groups.0,
            y: self.groups.1,
            z: self.groups.2,
        }
    }

    /// The state and the command after the device answered `reply` to the pending
    /// command. The order is fixed: fence; begin recording; bind the pipeline; bind the
    /// descriptor set as set 0; push the constants, if the kernel has any, from offset 0;
    /// dispatch; end recording; submit with the fence; wait for the fence.
    pub open spec fn step(self, reply: DeviceReply) -> DispatchProgressView {
        match (self.stage, reply) {
            (DispatchStage::AwaitFence, DeviceReply::Handle(fence)) => DispatchProgressView::Pending(
                DispatchView { stage: DispatchStage::AwaitBegin, fence, ..self },
                DeviceCommandView::BeginCommandBuffer { command_buffer: self.command_buffer },
            ),
            (DispatchStage::AwaitBegin, DeviceReply::Done) => DispatchProgressView::Pending(
                DispatchView { stage: DispatchStage::AwaitBindPipeline, ..self },
                DeviceCommandView::BindPipeline {
                    command_buffer: self.command_buffer,
                    bind_point: 1,
                    pipeline: self.pipeline,
                },
            ),
            (DispatchStage::AwaitBindPipeline, DeviceReply::Done) => DispatchProgressView::Pending(
                DispatchView { stage: DispatchStage::AwaitBindSet, ..self },
                DeviceCommandView::BindDescriptorSet {
                    command_buffer: self.command_buffer,
                    bind_point: 1,
                    layout: self.pipeline_layout,
                    first_set: 0,
                    set: self.descriptor_set,
                },
            ),
            (DispatchStage::AwaitBindSet, DeviceReply::Done) => match self.push_constants {
                Some(words) => DispatchProgressView::Pending(
                    DispatchView { stage: DispatchStage::AwaitPush, ..self },
                    DeviceCommandView::PushConstants {
                        command_buffer: self.command_buffer,
                        layout: self.pipeline_layout,
                        stage_flags: 0x20,
                        offset: 0,
                        words,
                    },
                ),
                None => DispatchProgressView::Pending(
                    DispatchView { stage: DispatchStage::AwaitDispatch, ..self },
                    self.dispatch_command(),
                ),
            },
            (DispatchStage::AwaitPush, DeviceReply::Done) => DispatchProgressView::Pending(
                DispatchView { stage: DispatchStage::AwaitDispatch, ..self },
                self.dispatch_command(),
            ),
            (DispatchStage::AwaitDispatch, DeviceReply::Done) => DispatchProgressView::Pending(
                DispatchView { stage: DispatchStage::AwaitEnd, ..self },
                DeviceCommandView::EndCommandBuffer { command_buffer: self.command_buffer },
            ),
            (DispatchStage::AwaitEnd, DeviceReply::Done) => DispatchProgressView::Pending(
                DispatchView { stage: DispatchStage::AwaitSubmit, ..self },
                DeviceCommandView::QueueSubmit {
                    queue: self.queue,
                    command_buffer: self.command_buffer,
                    fence: self.fence,
                },
            ),
            (DispatchStage::AwaitSubmit, DeviceReply::Done) => DispatchProgressView::Pending(
                DispatchView { stage: DispatchStage::AwaitWait, ..self },
                DeviceCommandView::WaitForFence { fence: self.fence, timeout: self.timeout },
            ),
            (DispatchStage::AwaitWait, DeviceReply::Done) => DispatchProgressView::Finished {
                release: self.owned(),
            },
            _ => DispatchProgressView::Failed {
                error: self.failure(reply),
                release: self.owned(),
            },
        }
    }
}

impl Dispatch {
    /// Opens one dispatch of `context` with these push constants and work-group counts.
    /// Neither the device context nor the execution context is changed by a dispatch. The
    /// first command creates the completion fence.
    pub fn open(
        ctx: &VkCtx,
        context: &ShaderExecutionContext,
        push_constants: Option<Vec<u32>>,
        groups: (u32, u32, u32),
    ) -> (opened: Result<(Dispatch, DeviceCommand), KernelError>)
        ensures
            match dispatch_outcome(ctx, context@, words_view(push_constants), groups) {
                Ok(first) => opened matches Ok((dispatch, command)) && dispatch@ == first
                    && command@ == DeviceCommandView::Create(CreateInfoView::Fence),
                Err(error) => opened matches Err(found) && found == error,
            },
    {
        let fits = match &push_constants {
            Some(words) => words.len() <= 0x3fff_ffff && 4 * words.len()
                == context.push_constant_size as usize,
            None => context.push_constant_size == 0,
        };
        if !fits {
            return Err(
                KernelError::SizeMismatch {
                    target: CopyTarget::PushConstants,
                    declared: context.push_constant_size as u64,
                },
            );
        }
        Ok(
            (
                Dispatch {
                    stage: DispatchStage::AwaitFence,
                    fence: 0,
                    command_buffer: ctx.command_buffer,
                    queue: ctx.queue,
                    pipeline: context.pipeline,
                    pipeline_layout: context.pipeline_layout,
                    descriptor_set: context.descriptor_set,
                    push_constants,
                    groups,
                    timeout: ctx.fence_timeout,
                },
                DeviceCommand::Create(CreateInfo::Fence),
            ),
        )
    }

    /// Computes `owned`.
    fn release_list(&self) -> (release: Vec<DeviceObject>)
        ensures
            release@ == self@.owned(),
    {
        let mut release: Vec<DeviceObject> = Vec::new();
        if self.stage != DispatchStage::AwaitFence {
            release.push(DeviceObject { kind: ObjectKind::Fence, handle: self.fence });
        }
        assert(release@ =~= self@.owned());
        release
    }

    /// Computes `phase`.
    fn current_phase(&self) -> (phase: Phase)
        ensures
            phase == self@.phase(),
    {
        match self.stage {
            DispatchStage::AwaitFence => Phase::Fence,
            DispatchStage::AwaitBegin => Phase::BeginRecording,
            DispatchStage::AwaitBindPipeline | DispatchStage::AwaitBindSet
            | DispatchStage::AwaitPush | DispatchStage::AwaitDispatch => Phase::Recording,
            DispatchStage::AwaitEnd => Phase::EndRecording,
            DispatchStage::AwaitSubmit => Phase::Submit,
            DispatchStage::AwaitWait => Phase::Wait,
        }
    }

    /// Computes `failure`.
    fn fail(&self, reply: DeviceReply) -> (error: KernelError)
        ensures
            error == self@.failure(reply),
    {
        match reply {
            DeviceReply::Failed(code) => {
                if self.stage == DispatchStage::AwaitFence {
                    KernelError::ResourceCreationFailure { phase: Phase::Fence, code }
                } else if self.stage == DispatchStage::AwaitWait && code == timeout_code() {
                    KernelError::DeviceTimeout
                } else {
                    KernelError::SubmissionFailure { phase: self.current_phase(), code }
                }
            },
            _ => KernelError::UnexpectedReply { phase: self.current_phase() },
        }
    }

    /// Computes `dispatch_command`.
    fn record_dispatch(&self) -> (command: DeviceCommand)
        ensures
            command@ == self@.dispatch_command(),
    {
        DeviceCommand::Dispatch {
            command_buffer: self.command_buffer,
            x: self.groups.0,
            y: self.groups.1,
            z: self.groups.2,
        }
    }

    /// Takes the device's answer to the pending command and says how to go on: with the
    /// next command, with the end of the run, or with the error; the last two name the
    /// fence for release.
    pub fn advance(self, reply: DeviceReply) -> (progress: DispatchProgress)
        ensures
            progress@ == self@.step(reply),
    {
        match (self.stage, reply) {
            (DispatchStage::AwaitFence, DeviceReply::Handle(fence)) => {
                let command = DeviceCommand::BeginCommandBuffer {
                    command_buffer: self.command_buffer,
                };
                DispatchProgress::Pending(
                    Dispatch { stage: DispatchStage::AwaitBegin, fence, ..self },
                    command,
                )
            },
            (DispatchStage::AwaitBegin, DeviceReply::Done) => {
                let command = DeviceCommand::BindPipeline {
                    command_buffer: self.command_buffer,
                    bind_point: compute_bind_point(),
                    pipeline: self.pipeline,
                };
                DispatchProgress::Pending(
                    Dispatch { stage: DispatchStage::AwaitBindPipeline, ..self },
                    command,
                )
            },
            (DispatchStage::AwaitBindPipeline, DeviceReply::Done) => {
                let command = DeviceCommand::BindDescriptorSet {
                    command_buffer: self.command_buffer,
                    bind_point: compute_bind_point(),
                    layout: self.pipeline_layout,
                    first_set: 0,
                    set: self.descriptor_set,
                };
                DispatchProgress::Pending(
                    Dispatch { stage: DispatchStage::AwaitBindSet, ..self },
                    command,
                )
            },
            (DispatchStage::AwaitBindSet, DeviceReply::Done) => {
                match &self.push_constants {
                    Some(words) => {
                        let command = DeviceCommand::PushConstants {
                            command_buffer: self.command_buffer,
                            layout: self.pipeline_layout,
                            stage_flags: compute_stage(),
                            offset: 0,
                            words: words.clone(),
                        };
                        DispatchProgress::Pending(
                            Dispatch { stage: DispatchStage::AwaitPush, ..self },
                            command,
                        )
                    },
                    None => {
                        let command = self.record_dispatch();
                        DispatchProgress::Pending(
                            Dispatch { stage: DispatchStage::AwaitDispatch, ..self },
                            command,
                        )
                    },
                }
            },
            (DispatchStage::AwaitPush, DeviceReply::Done) => {
                let command = self.record_dispatch();
                DispatchProgress::Pending(
                    Dispatch { stage: DispatchStage::AwaitDispatch, ..self },
                    command,
                )
            },
            (DispatchStage::AwaitDispatch, DeviceReply::Done) => {
                let command = DeviceCommand::EndCommandBuffer {
                    command_buffer: self.command_buffer,
                };
                DispatchProgress::Pending(
                    Dispatch { stage: DispatchStage::AwaitEnd, ..self },
                    command,
                )
            },
            (DispatchStage::AwaitEnd, DeviceReply::Done) => {
                let command = DeviceCommand::QueueSubmit {
                    queue: self.queue,
                    command_buffer: self.command_buffer,
                    fence: self.fence,
                };
                DispatchProgress::Pending(
                    Dispatch { stage: DispatchStage::AwaitSubmit, ..self },
                    command,
                )
            },
            (DispatchStage::AwaitSubmit, DeviceReply::Done) => {
                let command = DeviceCommand::WaitForFence {
                    fence: self.fence,
                    timeout: self.timeout,
                };
                DispatchProgress::Pending(
                    Dispatch { stage: DispatchStage::AwaitWait, ..self },
                    command,
                )
            },
            (DispatchStage::AwaitWait, DeviceReply::Done) => DispatchProgress::Finished {
                release: self.release_list(),
            },
            _ => DispatchProgress::Failed {
                error: self.fail(reply),
                release: self.release_list(),
            },
        }
    }
}

} // verus!
