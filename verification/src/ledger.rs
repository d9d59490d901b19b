use crate::bootstrap::{BootCommandView, BootProgressView, BootReplyView, BootStage, Bootstrap};
use crate::builder::{open_outcome, BuildProgressView, BuildStage, ContextBuilderView};
use crate::command::{
    ledger_after, ledger_released, CreateInfoView, DeviceCommandView, DeviceObject, DeviceReply,
    ObjectKind,
};
use crate::context::VkCtx;
use crate::data::{LinkedMemory, LinkedProgressView, LinkedStage};
use crate::dispatch::{dispatch_outcome, DispatchProgressView, DispatchStage, DispatchView};
use crate::shader::{LayoutDescription, ShaderExecutionContextView};
use crate::shader::{layout_objects, linked_objects};
use vstd::multiset::Multiset;
use vstd::prelude::*;
use vstd::seq_lib::{to_multiset_insert, to_multiset_remove};

verus! {

/// Releasing what was added to the books gives the books back as they were: for every
/// `ledger` and every list of objects, the ledger with those objects added and then
/// released one by one is the ledger itself.
pub proof fn lemma_release_restores(ledger: Multiset<DeviceObject>, objects: Seq<DeviceObject>)
    ensures
        ledger_released(ledger.add(objects.to_multiset()), objects) == ledger,
    decreases objects.len(),
{
    broadcast use vstd::multiset::group_multiset_axioms;

    objects.to_multiset_ensures();
    if objects.len() == 0 {
        assert(objects.to_multiset() =~= Multiset::<DeviceObject>::empty());
        assert(ledger.add(objects.to_multiset()) =~= ledger);
    } else {
        to_multiset_remove(objects, 0);
        assert(objects.remove(0) =~= objects.drop_first());
        assert(objects.contains(objects[0]));
        assert(objects.to_multiset().count(objects[0]) > 0);
        assert(ledger.add(objects.to_multiset()).remove(objects[0]) =~= ledger.add(
            objects.drop_first().to_multiset(),
        ));
        lemma_release_restores(ledger, objects.drop_first());
    }
}

/// Releasing, one by one, exactly what is on the books leaves the books empty.
pub proof fn lemma_release_clears(objects: Seq<DeviceObject>)
    ensures
        ledger_released(objects.to_multiset(), objects) == Multiset::<DeviceObject>::empty(),
{
    broadcast use vstd::multiset::group_multiset_axioms;

    lemma_release_restores(Multiset::empty(), objects);
    assert(Multiset::<DeviceObject>::empty().add(objects.to_multiset()) =~= objects.to_multiset());
}

/// One more object anywhere in a list is one more object on its books.
proof fn lemma_insert_between(front: Seq<DeviceObject>, back: Seq<DeviceObject>, object: DeviceObject)
    ensures
        (front + seq![object] + back).to_multiset() == (front + back).to_multiset().insert(object),
{
    to_multiset_insert(front + back, front.len() as int, object);
    assert((front + back).insert(front.len() as int, object) =~= front + seq![object] + back);
}

/// The objects of a list of linked memories with one more at its end.
proof fn lemma_linked_push(linked: Seq<LinkedMemory>, last: LinkedMemory)
    ensures
        linked_objects(linked.push(last)) == linked_objects(linked) + last.objects(),
{
    assert(linked.push(last).drop_last() =~= linked);
}

/// The objects of a list of linked memories are those of any front part followed by
/// those of the rest.
proof fn lemma_linked_split(linked: Seq<LinkedMemory>, at: int)
    requires
        0 <= at <= linked.len(),
    ensures
        linked_objects(linked.subrange(0, at)) + linked_objects(
            linked.subrange(at, linked.len() as int),
        ) == linked_objects(linked),
    decreases linked.len(),
{
    let front = linked.subrange(0, at);
    let back = linked.subrange(at, linked.len() as int);
    if at == linked.len() {
        assert(front =~= linked);
        assert(linked_objects(back) =~= seq![]);
        assert(linked_objects(front) + linked_objects(back) =~= linked_objects(linked));
    } else {
        lemma_linked_split(linked.drop_last(), at);
        assert(linked.drop_last().subrange(0, at) =~= front);
        assert(linked.drop_last().subrange(at, linked.len() - 1) =~= back.drop_last());
        assert(back.last() == linked.last());
        assert(linked_objects(front) + (linked_objects(back.drop_last()) + linked.last().objects())
            =~= (linked_objects(front) + linked_objects(back.drop_last()))
            + linked.last().objects());
    }
}

/// The kind of object that `command` creates, if it creates one.
pub open spec fn command_creates(command: DeviceCommandView) -> Option<ObjectKind> {
    match command {
        DeviceCommandView::Create(info) => Some(info.kind()),
        _ => None,
    }
}

/// The kind of object that the command a build waits on creates, if it creates one.
pub open spec fn build_creates(builder: ContextBuilderView) -> Option<ObjectKind> {
    match builder.stage {
        BuildStage::AwaitModule => Some(ObjectKind::ShaderModule),
        BuildStage::AwaitSetLayout => Some(ObjectKind::DescriptorSetLayout),
        BuildStage::AwaitDescriptorSet => Some(
            ObjectKind::DescriptorSet { pool: builder.descriptor_pool },
        ),
        BuildStage::AwaitPipelineLayout => Some(ObjectKind::PipelineLayout),
        BuildStage::AwaitPipeline => Some(ObjectKind::Pipeline),
        BuildStage::Linking => match builder.linking.stage {
            LinkedStage::AwaitBuffer => Some(ObjectKind::Buffer),
            LinkedStage::AwaitMemory => Some(ObjectKind::Memory),
            _ => None,
        },
        BuildStage::AwaitUpdate => None,
    }
}

/// `builder` is a build in progress that waits on the answer to `command`.
pub open spec fn build_pending(builder: ContextBuilderView, command: DeviceCommandView) -> bool {
    builder.wf() && command_creates(command) == build_creates(builder)
}

/// What the harness answers for at a point of a build: what the build holds while it
/// runs, what the context owns once it is built, and what is named for release once the
/// build failed.
pub open spec fn build_books(progress: BuildProgressView) -> Multiset<DeviceObject> {
    match progress {
        BuildProgressView::Pending(builder, _) => builder.owned().to_multiset(),
        BuildProgressView::Built(context) => context.objects().to_multiset(),
        BuildProgressView::Failed { release, .. } => release.to_multiset(),
    }
}

/// Every step of a build keeps the books: whatever the device answers, what the harness
/// answers for after the step is exactly what the device holds after it, and a build that
/// goes on is again a build in progress.
pub proof fn lemma_build_step_keeps_books(
    builder: ContextBuilderView,
    command: DeviceCommandView,
    memory_types: Seq<u32>,
    reply: DeviceReply,
)
    requires
        build_pending(builder, command),
    ensures
        build_books(builder.step(memory_types, reply)) == ledger_after(
            builder.owned().to_multiset(),
            command,
            reply,
        ),
        builder.step(memory_types, reply) matches BuildProgressView::Pending(next, following)
            ==> build_pending(next, following),
{
    let before = builder.owned();
    let linked = linked_objects(builder.linked);
    let fixed = builder.fixed_objects();
    let progress = builder.step(memory_types, reply);
    match (builder.stage, reply) {
        (BuildStage::AwaitModule, DeviceReply::Handle(handle))
        | (BuildStage::AwaitSetLayout, DeviceReply::Handle(handle))
        | (BuildStage::AwaitDescriptorSet, DeviceReply::Handle(handle))
        | (BuildStage::AwaitPipelineLayout, DeviceReply::Handle(handle))
        | (BuildStage::AwaitPipeline, DeviceReply::Handle(handle)) => {
            let object = DeviceObject { kind: build_creates(builder)->0, handle };
            let next = progress->Pending_0;
            assert(builder.linked =~= seq![]);
            assert(linked =~= seq![]);
            assert(next.owned() =~= seq![] + seq![object] + before);
            assert(seq![] + before =~= before);
            lemma_insert_between(seq![], before, object);
        },
        (BuildStage::Linking, _) => {
            match builder.linking.step(memory_types, reply) {
                LinkedProgressView::Pending(linking, following) => {
                    let next = progress->Pending_0;
                    match (builder.linking.stage, reply) {
                        (LinkedStage::AwaitBuffer, DeviceReply::Handle(handle)) => {
                            let object = DeviceObject { kind: ObjectKind::Buffer, handle };
                            assert(next.owned() =~= linked + seq![object] + fixed);
                            assert(before =~= linked + fixed);
                            lemma_insert_between(linked, fixed, object);
                        },
                        (LinkedStage::AwaitMemory, DeviceReply::Handle(handle)) => {
                            let object = DeviceObject { kind: ObjectKind::Memory, handle };
                            let front = linked + builder.linking.owned();
                            assert(next.owned() =~= front + seq![object] + fixed);
                            assert(before =~= front + fixed);
                            lemma_insert_between(front, fixed, object);
                        },
                        _ => {
                            assert(next.owned() =~= before);
                        },
                    }
                },
                LinkedProgressView::Built(complete) => {
                    let next = progress->Pending_0;
                    lemma_linked_push(builder.linked, complete);
                    assert(next.owned() =~= before);
                },
                LinkedProgressView::Failed { .. } => {},
            }
        },
        (BuildStage::AwaitUpdate, DeviceReply::Done) => {
            let context = builder.context();
            lemma_linked_split(builder.linked, builder.write_count as int);
            assert(layout_objects(context.descriptor_set_layouts) =~= seq![
                DeviceObject {
                    kind: ObjectKind::DescriptorSetLayout,
                    handle: builder.set_layout,
                },
            ]);
            assert(context.objects() =~= before);
        },
        _ => {},
    }
}

/// Where a build stands after the device answered with `replies`, one per command, for as
/// long as the build went on.
pub open spec fn build_end(
    progress: BuildProgressView,
    memory_types: Seq<u32>,
    replies: Seq<DeviceReply>,
) -> BuildProgressView
    decreases replies.len(),
{
    match progress {
        BuildProgressView::Pending(builder, _) if replies.len() > 0 => build_end(
            builder.step(memory_types, replies[0]),
            memory_types,
            replies.drop_first(),
        ),
        _ => progress,
    }
}

/// What the device holds after it answered the commands of a build with `replies`, one per
/// command, for as long as the build went on.
pub open spec fn build_ledger(
    ledger: Multiset<DeviceObject>,
    progress: BuildProgressView,
    memory_types: Seq<u32>,
    replies: Seq<DeviceReply>,
) -> Multiset<DeviceObject>
    decreases replies.len(),
{
    match progress {
        BuildProgressView::Pending(builder, command) if replies.len() > 0 => build_ledger(
            ledger_after(ledger, command, replies[0]),
            builder.step(memory_types, replies[0]),
            memory_types,
            replies.drop_first(),
        ),
        _ => ledger,
    }
}

/// The books are kept from any point of a build on.
proof fn lemma_books_kept_from(
    progress: BuildProgressView,
    memory_types: Seq<u32>,
    replies: Seq<DeviceReply>,
)
    requires
        progress matches BuildProgressView::Pending(builder, command) ==> build_pending(
            builder,
            command,
        ),
    ensures
        build_ledger(build_books(progress), progress, memory_types, replies) == build_books(
            build_end(progress, memory_types, replies),
        ),
    decreases replies.len(),
{
    match progress {
        BuildProgressView::Pending(builder, command) => {
            if replies.len() > 0 {
                lemma_build_step_keeps_books(builder, command, memory_types, replies[0]);
                lemma_books_kept_from(
                    builder.step(memory_types, replies[0]),
                    memory_types,
                    replies.drop_first(),
                );
            }
        },
        _ => {},
    }
}

/// Whatever the device answers, a build keeps the books to its end: what the device holds
/// is what the build holds while it runs, what the context owns once built, and what is
/// named for release once failed.
pub proof fn lemma_build_keeps_books(
    builder: ContextBuilderView,
    command: DeviceCommandView,
    memory_types: Seq<u32>,
    replies: Seq<DeviceReply>,
)
    requires
        build_pending(builder, command),
    ensures
        build_ledger(
            builder.owned().to_multiset(),
            BuildProgressView::Pending(builder, command),
            memory_types,
            replies,
        ) == build_books(
            build_end(BuildProgressView::Pending(builder, command), memory_types, replies),
        ),
{
    lemma_books_kept_from(BuildProgressView::Pending(builder, command), memory_types, replies);
}

/// A build followed by the context's teardown leaves nothing on the device, and so does a
/// build that fails: start from a device that holds nothing for the harness, let it
/// answer the commands of a build in any way, and release what the teardown of the built
/// context names, or what the failure names; then the device again holds nothing.
pub proof fn lemma_build_and_teardown_leave_nothing(
    builder: ContextBuilderView,
    command: DeviceCommandView,
    memory_types: Seq<u32>,
    replies: Seq<DeviceReply>,
)
    requires
        build_pending(builder, command),
        builder.owned() == Seq::<DeviceObject>::empty(),
    ensures
        match build_end(BuildProgressView::Pending(builder, command), memory_types, replies) {
            BuildProgressView::Built(context) => ledger_released(
                build_ledger(
                    Multiset::empty(),
                    BuildProgressView::Pending(builder, command),
                    memory_types,
                    replies,
                ),
                context.objects(),
            ) == Multiset::<DeviceObject>::empty(),
            BuildProgressView::Failed { release, .. } => ledger_released(
                build_ledger(
                    Multiset::empty(),
                    BuildProgressView::Pending(builder, command),
                    memory_types,
                    replies,
                ),
                release,
            ) == Multiset::<DeviceObject>::empty(),
            BuildProgressView::Pending(..) => true,
        },
{
    builder.owned().to_multiset_ensures();
    assert(builder.owned().to_multiset() =~= Multiset::<DeviceObject>::empty()) by {
        broadcast use vstd::multiset::group_multiset_axioms;

    }
    lemma_build_keeps_books(builder, command, memory_types, replies);
    match build_end(BuildProgressView::Pending(builder, command), memory_types, replies) {
        BuildProgressView::Built(context) => {
            lemma_release_clears(context.objects());
        },
        BuildProgressView::Failed { release, .. } => {
            lemma_release_clears(release);
        },
        BuildProgressView::Pending(..) => {},
    }
}

/// The same of every build that opens: whatever the kernel declares and whatever the
/// device answers, once the build has ended and what its end names is released (all that
/// the built context owns, or all that the failure names), the device holds nothing.
pub proof fn lemma_opened_build_leaves_nothing(
    descriptors: Seq<LayoutDescription>,
    writables: usize,
    readables: usize,
    push_constant_words: Option<usize>,
    descriptor_pool: u64,
    code: Seq<u32>,
    memory_types: Seq<u32>,
    replies: Seq<DeviceReply>,
)
    requires
        open_outcome(descriptors, writables, readables, push_constant_words, descriptor_pool)
            is Ok,
    ensures
        ({
            let first = open_outcome(
                descriptors,
                writables,
                readables,
                push_constant_words,
                descriptor_pool,
            )->Ok_0;
            let start = BuildProgressView::Pending(
                first,
                DeviceCommandView::Create(CreateInfoView::ShaderModule { code }),
            );
            let held = build_ledger(Multiset::empty(), start, memory_types, replies);
            match build_end(start, memory_types, replies) {
                BuildProgressView::Built(context) => ledger_released(held, context.objects())
                    == Multiset::<DeviceObject>::empty(),
                BuildProgressView::Failed { release, .. } => ledger_released(held, release)
                    == Multiset::<DeviceObject>::empty(),
                BuildProgressView::Pending(..) => true,
            }
        }),
{
    let first = open_outcome(
        descriptors,
        writables,
        readables,
        push_constant_words,
        descriptor_pool,
    )->Ok_0;
    assert(first.owned() =~= Seq::<DeviceObject>::empty());
    lemma_build_and_teardown_leave_nothing(
        first,
        DeviceCommandView::Create(CreateInfoView::ShaderModule { code }),
        memory_types,
        replies,
    );
}

/// `dispatch` is a dispatch that waits on the answer to `command`.
pub open spec fn dispatch_pending(dispatch: DispatchView, command: DeviceCommandView) -> bool {
    command_creates(command) == if dispatch.stage == DispatchStage::AwaitFence {
        Some(ObjectKind::Fence)
    } else {
        None
    }
}

/// What the harness answers for at a point of a dispatch: the fence while it runs, and
/// what is named for release at its end.
pub open spec fn dispatch_books(progress: DispatchProgressView) -> Seq<DeviceObject> {
    match progress {
        DispatchProgressView::Pending(dispatch, _) => dispatch.owned(),
        DispatchProgressView::Finished { release } => release,
        DispatchProgressView::Failed { release, .. } => release,
    }
}

/// Where a dispatch stands after the device answered with `replies`, one per command, for
/// as long as the dispatch went on.
pub open spec fn dispatch_end(progress: DispatchProgressView, replies: Seq<DeviceReply>) -> DispatchProgressView
    decreases replies.len(),
{
    match progress {
        DispatchProgressView::Pending(dispatch, _) if replies.len() > 0 => dispatch_end(
            dispatch.step(replies[0]),
            replies.drop_first(),
        ),
        _ => progress,
    }
}

/// What the device holds after it answered the commands of a dispatch with `replies`, one
/// per command, for as long as the dispatch went on.
pub open spec fn dispatch_ledger(
    ledger: Multiset<DeviceObject>,
    progress: DispatchProgressView,
    replies: Seq<DeviceReply>,
) -> Multiset<DeviceObject>
    decreases replies.len(),
{
    match progress {
        DispatchProgressView::Pending(dispatch, command) if replies.len() > 0 => dispatch_ledger(
            ledger_after(ledger, command, replies[0]),
            dispatch.step(replies[0]),
            replies.drop_first(),
        ),
        _ => ledger,
    }
}

/// The books are kept from any point of a dispatch on, over whatever else the device
/// holds.
proof fn lemma_dispatch_books_kept_from(
    others: Multiset<DeviceObject>,
    progress: DispatchProgressView,
    replies: Seq<DeviceReply>,
)
    requires
        progress matches DispatchProgressView::Pending(dispatch, command) ==> dispatch_pending(
            dispatch,
            command,
        ),
    ensures
        dispatch_ledger(others.add(dispatch_books(progress).to_multiset()), progress, replies)
            == others.add(dispatch_books(dispatch_end(progress, replies)).to_multiset()),
    decreases replies.len(),
{
    broadcast use vstd::multiset::group_multiset_axioms;

    match progress {
        DispatchProgressView::Pending(dispatch, command) => {
            if replies.len() > 0 {
                let next = dispatch.step(replies[0]);
                match (dispatch.stage, replies[0]) {
                    (DispatchStage::AwaitFence, DeviceReply::Handle(handle)) => {
                        let fence = DeviceObject { kind: ObjectKind::Fence, handle };
                        assert(dispatch_books(next) =~= seq![] + seq![fence] + dispatch.owned());
                        assert(seq![] + dispatch.owned() =~= dispatch.owned());
                        lemma_insert_between(seq![], dispatch.owned(), fence);
                        assert(others.add(dispatch.owned().to_multiset()).insert(fence)
                            =~= others.add(dispatch.owned().to_multiset().insert(fence)));
                    },
                    _ => {
                        assert(dispatch_books(next) =~= dispatch.owned());
                    },
                }
                lemma_dispatch_books_kept_from(others, next, replies.drop_first());
            }
        },
        _ => {},
    }
}

/// A dispatch leaves the device as it found it: whatever the device holds before and
/// however it answers, once the run has ended, in success or in failure, and what it names
/// for release is released, the device holds what it held before.
pub proof fn lemma_dispatch_leaves_device_as_found(
    before: Multiset<DeviceObject>,
    dispatch: DispatchView,
    command: DeviceCommandView,
    replies: Seq<DeviceReply>,
)
    requires
        dispatch.stage == DispatchStage::AwaitFence,
        command_creates(command) == Some(ObjectKind::Fence),
    ensures
        match dispatch_end(DispatchProgressView::Pending(dispatch, command), replies) {
            DispatchProgressView::Finished { release } => ledger_released(
                dispatch_ledger(before, DispatchProgressView::Pending(dispatch, command), replies),
                release,
            ) == before,
            DispatchProgressView::Failed { release, .. } => ledger_released(
                dispatch_ledger(before, DispatchProgressView::Pending(dispatch, command), replies),
                release,
            ) == before,
            DispatchProgressView::Pending(..) => true,
        },
{
    broadcast use vstd::multiset::group_multiset_axioms;

    let start = DispatchProgressView::Pending(dispatch, command);
    dispatch.owned().to_multiset_ensures();
    assert(before.add(dispatch_books(start).to_multiset()) =~= before);
    lemma_dispatch_books_kept_from(before, start, replies);
    lemma_release_restores(before, dispatch_books(dispatch_end(start, replies)));
}

/// The kind of object that a command of the bootstrap creates, if it creates one.
pub open spec fn boot_creates(command: BootCommandView) -> Option<ObjectKind> {
    match command {
        BootCommandView::CreateInstance { .. } => Some(ObjectKind::Instance),
        BootCommandView::CreateDevice { .. } => Some(ObjectKind::Device),
        BootCommandView::CreateCommandPool { .. } => Some(ObjectKind::CommandPool),
        BootCommandView::AllocateCommandBuffer { pool, .. } => Some(
            ObjectKind::CommandBuffer { pool },
        ),
        BootCommandView::CreateDescriptorPool { .. } => Some(ObjectKind::DescriptorPool),
        _ => None,
    }
}

/// The device's books after it answered a command of the bootstrap: a creation that
/// handed out a handle adds that object, and nothing else changes them.
pub open spec fn boot_ledger_after(
    ledger: Multiset<DeviceObject>,
    command: BootCommandView,
    reply: BootReplyView,
) -> Multiset<DeviceObject> {
    match (boot_creates(command), reply) {
        (Some(kind), BootReplyView::Handle(handle)) => ledger.insert(
            DeviceObject { kind, handle },
        ),
        _ => ledger,
    }
}

/// `bootstrap` waits on the answer to `command`.
pub open spec fn boot_pending(bootstrap: Bootstrap, command: BootCommandView) -> bool {
    boot_creates(command) == match bootstrap.stage {
        BootStage::AwaitInstance => Some(ObjectKind::Instance),
        BootStage::AwaitDevice => Some(ObjectKind::Device),
        BootStage::AwaitCommandPool => Some(ObjectKind::CommandPool),
        BootStage::AwaitCommandBuffer => Some(
            ObjectKind::CommandBuffer { pool: bootstrap.command_pool },
        ),
        BootStage::AwaitDescriptorPool => Some(ObjectKind::DescriptorPool),
        _ => None,
    }
}

/// What the harness answers for at a point of the bootstrap.
pub open spec fn boot_books(progress: BootProgressView) -> Seq<DeviceObject> {
    match progress {
        BootProgressView::Pending(bootstrap, _) => bootstrap.owned(),
        BootProgressView::Ready(ctx) => ctx.objects(),
        BootProgressView::Failed { release, .. } => release,
    }
}

/// Where the bootstrap stands after the device answered with `replies`, one per command,
/// for as long as the bootstrap went on.
pub open spec fn boot_end(progress: BootProgressView, replies: Seq<BootReplyView>) -> BootProgressView
    decreases replies.len(),
{
    match progress {
        BootProgressView::Pending(bootstrap, _) if replies.len() > 0 => boot_end(
            bootstrap.step(replies[0]),
            replies.drop_first(),
        ),
        _ => progress,
    }
}

/// What the device holds after it answered the commands of the bootstrap with `replies`,
/// one per command, for as long as the bootstrap went on.
pub open spec fn boot_ledger(
    ledger: Multiset<DeviceObject>,
    progress: BootProgressView,
    replies: Seq<BootReplyView>,
) -> Multiset<DeviceObject>
    decreases replies.len(),
{
    match progress {
        BootProgressView::Pending(bootstrap, command) if replies.len() > 0 => boot_ledger(
            boot_ledger_after(ledger, command, replies[0]),
            bootstrap.step(replies[0]),
            replies.drop_first(),
        ),
        _ => ledger,
    }
}

/// The books are kept from any point of the bootstrap on.
proof fn lemma_boot_books_kept_from(progress: BootProgressView, replies: Seq<BootReplyView>)
    requires
        progress matches BootProgressView::Pending(bootstrap, command) ==> boot_pending(
            bootstrap,
            command,
        ),
    ensures
        boot_ledger(boot_books(progress).to_multiset(), progress, replies) == boot_books(
            boot_end(progress, replies),
        ).to_multiset(),
    decreases replies.len(),
{
    match progress {
        BootProgressView::Pending(bootstrap, command) => {
            if replies.len() > 0 {
                let next = bootstrap.step(replies[0]);
                let before = bootstrap.owned();
                match (boot_creates(command), replies[0]) {
                    (Some(kind), BootReplyView::Handle(handle)) => {
                        let object = DeviceObject { kind, handle };
                        assert(boot_books(next) =~= seq![] + seq![object] + before);
                        assert(seq![] + before =~= before);
                        lemma_insert_between(seq![], before, object);
                    },
                    _ => {
                        assert(boot_books(next) =~= before);
                    },
                }
                lemma_boot_books_kept_from(next, replies.drop_first());
            }
        },
        _ => {},
    }
}

/// The creation of a device context followed by its teardown leaves nothing on the device,
/// and so does a creation that fails: start from a device that holds nothing, let it
/// answer the commands of the bootstrap in any way, and release what the teardown of the
/// context names, or what the failure names; then the device again holds nothing.
pub proof fn lemma_bootstrap_and_teardown_leave_nothing(
    fence_timeout: u64,
    replies: Seq<BootReplyView>,
)
    ensures
        ({
            let start = BootProgressView::Pending(
                Bootstrap::start(fence_timeout),
                BootCommandView::EnumerateInstanceLayers,
            );
            let held = boot_ledger(Multiset::empty(), start, replies);
            match boot_end(start, replies) {
                BootProgressView::Ready(ctx) => ledger_released(held, ctx.objects())
                    == Multiset::<DeviceObject>::empty(),
                BootProgressView::Failed { release, .. } => ledger_released(held, release)
                    == Multiset::<DeviceObject>::empty(),
                BootProgressView::Pending(..) => true,
            }
        }),
{
    broadcast use vstd::multiset::group_multiset_axioms;

    let start = BootProgressView::Pending(
        Bootstrap::start(fence_timeout),
        BootCommandView::EnumerateInstanceLayers,
    );
    boot_books(start).to_multiset_ensures();
    assert(boot_books(start).to_multiset() =~= Multiset::<DeviceObject>::empty());
    lemma_boot_books_kept_from(start, replies);
    lemma_release_clears(boot_books(boot_end(start, replies)));
}

/// The same of every dispatch that opens: whatever the kernel pushes and however the
/// device answers, once the run has ended and the fence it names is released, the device
/// holds what it held before, and the built context is what it was.
pub proof fn lemma_opened_dispatch_leaves_device_as_found(
    ctx: &VkCtx,
    context: ShaderExecutionContextView,
    push_constants: Option<Seq<u32>>,
    groups: (u32, u32, u32),
    before: Multiset<DeviceObject>,
    replies: Seq<DeviceReply>,
)
    requires
        dispatch_outcome(ctx, context, push_constants, groups) is Ok,
    ensures
        ({
            let start = DispatchProgressView::Pending(
                dispatch_outcome(ctx, context, push_constants, groups)->Ok_0,
                DeviceCommandView::Create(CreateInfoView::Fence),
            );
            let held = dispatch_ledger(before, start, replies);
            match dispatch_end(start, replies) {
                DispatchProgressView::Finished { release } => ledger_released(held, release)
                    == before,
                DispatchProgressView::Failed { release, .. } => ledger_released(held, release)
                    == before,
                DispatchProgressView::Pending(..) => true,
            }
        }),
{
    lemma_dispatch_leaves_device_as_found(
        before,
        dispatch_outcome(ctx, context, push_constants, groups)->Ok_0,
        DeviceCommandView::Create(CreateInfoView::Fence),
        replies,
    );
}

} // verus!
