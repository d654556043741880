//! The lifetime of the transient buffers: which of them a run of operations
//! leaves alive, and what releases them when a frame is given up half way.

use vstd::prelude::*;
use crate::frame::{total_elements, DrawCommand, DrawList, FrameDrawData};
use crate::ops::GpuOp;
use crate::plan::{
    command_ops, commands_ops, frame_plan, frame_space, list_ops, lists_ops, setup_ops,
    teardown_ops, FrameSpace, RendererView,
};
use crate::projection::{projection_of, Projection};
use crate::registry::TextureObjects;

verus! {

/// A buffer that lives for the drawing of one draw list.
#[derive(Clone, Copy, Debug, PartialEq, Eq)]
pub enum TransientBuffer {
    Vertices { list: usize },
    Indices { list: usize },
}

/// The buffers of `live` but for `gone`, in their order.
pub open spec fn without(live: Seq<TransientBuffer>, gone: TransientBuffer) -> Seq<
    TransientBuffer,
>
    decreases live.len(),
{
    if live.len() == 0 {
        live
    } else if live.last() == gone {
        without(live.drop_last(), gone)
    } else {
        without(live.drop_last(), gone).push(live.last())
    }
}

/// The buffers alive after one operation: an upload adds its buffer, a
/// release takes its buffer away, and nothing else touches them.
pub open spec fn after_op(live: Seq<TransientBuffer>, op: GpuOp) -> Seq<TransientBuffer> {
    match op {
        GpuOp::UploadVertices { list } => live.push(TransientBuffer::Vertices { list }),
        GpuOp::UploadIndices { list } => live.push(TransientBuffer::Indices { list }),
        GpuOp::ReleaseVertices { list } => without(live, TransientBuffer::Vertices { list }),
        GpuOp::ReleaseIndices { list } => without(live, TransientBuffer::Indices { list }),
        _ => live,
    }
}

/// The buffers alive after a run of operations that began with `start`
/// alive, in the order of their making.
pub open spec fn live_from(start: Seq<TransientBuffer>, ops: Seq<GpuOp>) -> Seq<TransientBuffer>
    decreases ops.len(),
{
    if ops.len() == 0 {
        start
    } else {
        after_op(live_from(start, ops.drop_last()), ops.last())
    }
}

/// The buffers alive after a run of operations that began with none.
pub open spec fn live_buffers(ops: Seq<GpuOp>) -> Seq<TransientBuffer> {
    live_from(Seq::empty(), ops)
}

/// The operation that releases a buffer.
pub open spec fn release_of(buffer: TransientBuffer) -> GpuOp {
    match buffer {
        TransientBuffer::Vertices { list } => GpuOp::ReleaseVertices { list },
        TransientBuffer::Indices { list } => GpuOp::ReleaseIndices { list },
    }
}

/// The operations that release the given buffers, one for each, in order.
pub open spec fn releases(live: Seq<TransientBuffer>) -> Seq<GpuOp> {
    Seq::new(live.len(), |i: int| release_of(live[i]))
}

/// The first `done` operations of a plan, or all of them where it has fewer.
pub open spec fn carried_out(ops: Seq<GpuOp>, done: nat) -> Seq<GpuOp> {
    if done <= ops.len() {
        ops.take(done as int)
    } else {
        ops
    }
}

fn same_buffer(a: TransientBuffer, b: TransientBuffer) -> (same: bool)
    ensures
        same == (a == b),
{
    match (a, b) {
        (TransientBuffer::Vertices { list: x }, TransientBuffer::Vertices { list: y }) => x == y,
        (TransientBuffer::Indices { list: x }, TransientBuffer::Indices { list: y }) => x == y,
        _ => false,
    }
}

fn remove_buffer(live: &Vec<TransientBuffer>, gone: TransientBuffer) -> (rest: Vec<TransientBuffer>)
    ensures
        rest@ == without(live@, gone),
{
    let mut rest: Vec<TransientBuffer> = Vec::new();
    let mut i: usize = 0;
    while i < live.len()
        invariant
            i <= live.len(),
            rest@ == without(live@.take(i as int), gone),
        decreases live.len() - i,
    {
        assert(live@.take(i + 1).drop_last() == live@.take(i as int));
        if !same_buffer(live[i], gone) {
            rest.push(live[i]);
        }
        i = i + 1;
    }
    assert(live@.take(i as int) == live@);
    rest
}

/// The buffers that are alive once the first `done` operations of a plan
/// have been carried out.
pub fn live_after(ops: &Vec<GpuOp>, done: usize) -> (live: Vec<TransientBuffer>)
    ensures
        live@ == live_buffers(carried_out(ops@, done as nat)),
{
    let n: usize = if done <= ops.len() { done } else { ops.len() };
    let mut live: Vec<TransientBuffer> = Vec::new();
    let mut i: usize = 0;
    while i < n
        invariant
            i <= n <= ops.len(),
            live@ == live_buffers(ops@.take(i as int)),
        decreases n - i,
    {
        assert(ops@.take(i + 1).drop_last() == ops@.take(i as int));
        match ops[i] {
            GpuOp::UploadVertices { list } => {
                live.push(TransientBuffer::Vertices { list });
            },
            GpuOp::UploadIndices { list } => {
                live.push(TransientBuffer::Indices { list });
            },
            GpuOp::ReleaseVertices { list } => {
                live = remove_buffer(&live, TransientBuffer::Vertices { list });
            },
            GpuOp::ReleaseIndices { list } => {
                live = remove_buffer(&live, TransientBuffer::Indices { list });
            },
            _ => {},
        }
        i = i + 1;
    }
    assert(ops@.take(n as int) == carried_out(ops@, done as nat));
    live
}

/// The operations that give back what a frame holds after its first `done`
/// operations: one release for each buffer then alive. They are what is left
/// to do when operation `done` has failed and the frame is given up.
pub fn release_ops(ops: &Vec<GpuOp>, done: usize) -> (release: Vec<GpuOp>)
    ensures
        release@ == releases(live_buffers(carried_out(ops@, done as nat))),
{
    let live = live_after(ops, done);
    let mut release: Vec<GpuOp> = Vec::new();
    let mut i: usize = 0;
    while i < live.len()
        invariant
            i <= live.len(),
            release@ == releases(live@.take(i as int)),
        decreases live.len() - i,
    {
        let op = match live[i] {
            TransientBuffer::Vertices { list } => GpuOp::ReleaseVertices { list },
            TransientBuffer::Indices { list } => GpuOp::ReleaseIndices { list },
        };
        release.push(op);
        assert(release@ == releases(live@.take(i + 1)));
        i = i + 1;
    }
    assert(live@.take(i as int) == live@);
    release
}

/// A buffer is left by `without` exactly if it was there and is not the one
/// that went.
pub proof fn without_keeps_the_rest(
    live: Seq<TransientBuffer>,
    gone: TransientBuffer,
    buffer: TransientBuffer,
)
    ensures
        without(live, gone).contains(buffer) <==> live.contains(buffer) && buffer != gone,
    decreases live.len(),
{
    if live.len() > 0 {
        let rest = live.drop_last();
        without_keeps_the_rest(rest, gone, buffer);
        if live.contains(buffer) {
            let i = choose|i: int| 0 <= i < live.len() && live[i] == buffer;
            if i < live.len() - 1 {
                assert(rest[i] == buffer);
            }
        }
        if rest.contains(buffer) {
            let i = choose|i: int| 0 <= i < rest.len() && rest[i] == buffer;
            assert(live[i] == buffer);
        }
        let kept = without(rest, gone);
        if live.last() != gone {
            assert(kept.push(live.last()).last() == live.last());
            if kept.contains(buffer) {
                let i = choose|i: int| 0 <= i < kept.len() && kept[i] == buffer;
                assert(kept.push(live.last())[i] == buffer);
            }
            if kept.push(live.last()).contains(buffer) {
                let i = choose|i: int|
                    0 <= i < kept.push(live.last()).len() && kept.push(live.last())[i] == buffer;
                if i < kept.len() {
                    assert(kept[i] == buffer);
                }
            }
        }
    }
}

/// Carrying out one run of operations and then another is carrying out both.
pub proof fn live_from_concat(start: Seq<TransientBuffer>, first: Seq<GpuOp>, second: Seq<GpuOp>)
    ensures
        live_from(start, first + second) == live_from(live_from(start, first), second),
    decreases second.len(),
{
    if second.len() == 0 {
        assert(first + second == first);
    } else {
        assert((first + second).drop_last() == first + second.drop_last());
        live_from_concat(start, first, second.drop_last());
    }
}

/// After the first `n` releases of the buffers of `live`, a buffer is alive
/// only if it was in `live` and is none of the first `n`.
proof fn releases_take_away(live: Seq<TransientBuffer>, n: int, buffer: TransientBuffer)
    requires
        0 <= n <= live.len(),
        live_from(live, releases(live).take(n)).contains(buffer),
    ensures
        live.contains(buffer),
        forall|k: int| 0 <= k < n ==> live[k] != buffer,
    decreases n,
{
    if n > 0 {
        let ops = releases(live).take(n);
        assert(ops.drop_last() == releases(live).take(n - 1));
        assert(ops.last() == release_of(live[n - 1]));
        let before = live_from(live, ops.drop_last());
        assert(live_from(live, ops) == without(before, live[n - 1]));
        without_keeps_the_rest(before, live[n - 1], buffer);
        releases_take_away(live, n - 1, buffer);
    }
}

/// Releasing every buffer that is alive leaves none alive.
pub proof fn releases_leave_nothing(live: Seq<TransientBuffer>)
    ensures
        live_from(live, releases(live)) == Seq::<TransientBuffer>::empty(),
{
    let left = live_from(live, releases(live));
    assert(releases(live).take(live.len() as int) == releases(live));
    if left.len() > 0 {
        let buffer = left[0];
        assert(left.contains(buffer));
        releases_take_away(live, live.len() as int, buffer);
        let k = choose|k: int| 0 <= k < live.len() && live[k] == buffer;
        assert(false);
    }
    assert(left =~= Seq::<TransientBuffer>::empty());
}

/// A frame that is given up leaks nothing: whatever operations a plan holds
/// and however many of them were carried out, the releases that
/// `release_ops` hands out for that point leave no transient buffer alive.
pub proof fn given_up_frame_leaks_nothing(ops: Seq<GpuOp>, done: nat)
    ensures
        live_buffers(carried_out(ops, done) + releases(live_buffers(carried_out(ops, done))))
            == Seq::<TransientBuffer>::empty(),
{
    let run = carried_out(ops, done);
    live_from_concat(Seq::empty(), run, releases(live_buffers(run)));
    releases_leave_nothing(live_buffers(run));
}

/// The operations of commands neither make nor release a buffer.
pub proof fn commands_keep_buffers(
    start: Seq<TransientBuffer>,
    textures: Map<usize, TextureObjects>,
    commands: Seq<DrawCommand>,
    space: FrameSpace,
)
    ensures
        live_from(start, commands_ops(textures, commands, space)) == start,
    decreases commands.len(),
{
    if commands.len() > 0 {
        let before = commands_ops(textures, commands.drop_last(), space);
        let last = command_ops(
            textures,
            commands.last(),
            total_elements(commands.drop_last()),
            space,
        );
        commands_keep_buffers(start, textures, commands.drop_last(), space);
        live_from_concat(start, before, last);
        if last.len() > 0 {
            assert(last.len() == 4);
            reveal_with_fuel(live_from, 5);
            assert(last.drop_last().drop_last().drop_last().drop_last().len() == 0);
        }
    }
}

/// A draw list that is drawn to its end leaves alive what was alive before.
pub proof fn drawn_list_keeps_buffers(
    renderer: RendererView,
    list: usize,
    commands: Seq<DrawCommand>,
    projection: Projection,
    space: FrameSpace,
)
    ensures
        live_buffers(list_ops(renderer, list, commands, projection, space)) == Seq::<
            TransientBuffer,
        >::empty(),
{
    let setup = setup_ops(renderer, list, projection, space.framebuffer);
    let middle = commands_ops(renderer.textures, commands, space);
    let teardown = teardown_ops(list);
    let vertices = TransientBuffer::Vertices { list };
    let indices = TransientBuffer::Indices { list };
    let both = seq![vertices, indices];
    assert(live_buffers(setup) == both) by {
        reveal_with_fuel(live_from, 10);
        let s8 = setup.drop_last();
        let s7 = s8.drop_last();
        let s6 = s7.drop_last();
        let s5 = s6.drop_last();
        let s4 = s5.drop_last();
        let s3 = s4.drop_last();
        let s2 = s3.drop_last();
        let s1 = s2.drop_last();
        let s0 = s1.drop_last();
        assert(s0.len() == 0);
        assert(s1.last() == GpuOp::UploadVertices { list });
        assert(s2.last() == GpuOp::UploadIndices { list });
        assert(live_from(Seq::empty(), s2) =~= both);
    }
    live_from_concat(Seq::empty(), setup, middle);
    commands_keep_buffers(both, renderer.textures, commands, space);
    live_from_concat(Seq::empty(), setup + middle, teardown);
    assert(live_from(both, teardown) == Seq::<TransientBuffer>::empty()) by {
        reveal_with_fuel(live_from, 3);
        reveal_with_fuel(without, 3);
        let t1 = teardown.drop_last();
        assert(t1.drop_last().len() == 0);
        assert(t1.last() == GpuOp::ReleaseVertices { list });
        assert(teardown.last() == GpuOp::ReleaseIndices { list });
        assert(both.drop_last() =~= seq![vertices]);
        assert(both.drop_last().drop_last() =~= Seq::<TransientBuffer>::empty());
        assert(without(both, vertices) =~= seq![indices]);
        assert(seq![indices].drop_last() =~= Seq::<TransientBuffer>::empty());
        assert(without(seq![indices], indices) =~= Seq::<TransientBuffer>::empty());
    }
}

/// The operations of whole draw lists leave no buffer alive.
pub proof fn drawn_lists_leak_nothing(
    renderer: RendererView,
    lists: Seq<DrawList>,
    projection: Projection,
    space: FrameSpace,
)
    ensures
        live_buffers(lists_ops(renderer, lists, projection, space)) == Seq::<
            TransientBuffer,
        >::empty(),
    decreases lists.len(),
{
    if lists.len() > 0 {
        let before = lists_ops(renderer, lists.drop_last(), projection, space);
        let last = list_ops(
            renderer,
            (lists.len() - 1) as usize,
            lists.last()@.commands,
            projection,
            space,
        );
        drawn_lists_leak_nothing(renderer, lists.drop_last(), projection, space);
        drawn_list_keeps_buffers(
            renderer,
            (lists.len() - 1) as usize,
            lists.last()@.commands,
            projection,
            space,
        );
        live_from_concat(Seq::empty(), before, last);
    }
}

/// A frame that is drawn to its end leaks nothing: the plan of a frame
/// leaves no transient buffer alive.
pub proof fn drawn_frame_leaks_nothing(renderer: RendererView, frame: FrameDrawData)
    requires
        frame_plan(renderer, frame) is Ok,
    ensures
        live_buffers(frame_plan(renderer, frame)->Ok_0) == Seq::<TransientBuffer>::empty(),
{
    drawn_lists_leak_nothing(
        renderer,
        frame.draw_lists@,
        projection_of(frame.display_pos, frame.display_size),
        frame_space(frame),
    );
}

} // verus!
