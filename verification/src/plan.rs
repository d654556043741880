//! What drawing a frame comes to: the sequence of operations for a frame, or
//! the reason why there is none.

use vstd::prelude::*;
use crate::clip::{culled, degenerate, framebuffer_size_of, pixel_rect_of, scissor_of, FramebufferSize};
use crate::frame::{
    element_count, total_elements, total_elements_of_prefix, DrawCommand, DrawList, FrameDrawData,
    Position, Scale,
};
use crate::ops::{GpuOp, IndexType, Primitive, VERTEX_STRIDE};
use crate::projection::{projection_of, Projection};
use crate::registry::TextureObjects;
use crate::state::alpha_blend;

verus! {

/// Why a frame cannot be drawn. Both are faults of whoever made the draw
/// data, and neither can be recovered from.
#[derive(Clone, Copy, Debug, PartialEq, Eq)]
pub enum RenderError {
    /// A draw list holds a command other than `Elements`.
    UnsupportedCommand,
    /// A command that is to be drawn names a texture that was never
    /// registered.
    UnregisteredTexture { texture: usize },
}

/// What planning reads of a renderer.
pub struct RendererView {
    pub pipeline: u32,
    pub vertex_array: u32,
    pub textures: Map<usize, TextureObjects>,
    pub font_texture: usize,
}

/// Where a frame's logical coordinates lie in the framebuffer.
#[derive(Clone, Copy, Debug, PartialEq, Eq)]
pub struct FrameSpace {
    pub origin: Position,
    pub scale: Scale,
    pub framebuffer: FramebufferSize,
}

/// A command that gets a draw call: an `Elements` command whose clip
/// rectangle meets the framebuffer.
pub open spec fn drawn(command: DrawCommand, space: FrameSpace) -> bool {
    command matches DrawCommand::Elements { clip_rect, .. } && !culled(
        pixel_rect_of(clip_rect, space.origin, space.scale),
        space.framebuffer,
    )
}

/// What is wrong with a command, if anything.
pub open spec fn command_error(
    textures: Map<usize, TextureObjects>,
    command: DrawCommand,
    space: FrameSpace,
) -> Option<RenderError> {
    match command {
        DrawCommand::Elements { texture, .. } => {
            if drawn(command, space) && !textures.contains_key(texture) {
                Some(RenderError::UnregisteredTexture { texture })
            } else {
                None
            }
        },
        _ => Some(RenderError::UnsupportedCommand),
    }
}

/// The operations of one command whose indices begin at `start`: none where
/// it is culled, else its texture's view and sampler on unit 0, its scissor
/// region, and one draw of its slice of the index buffer.
pub open spec fn command_ops(
    textures: Map<usize, TextureObjects>,
    command: DrawCommand,
    start: nat,
    space: FrameSpace,
) -> Seq<GpuOp> {
    match command {
        DrawCommand::Elements { count, clip_rect, texture } => {
            if drawn(command, space) {
                seq![
                    GpuOp::BindImageView { unit: 0, view: textures[texture].view },
                    GpuOp::BindSampler { unit: 0, sampler: textures[texture].sampler },
                    GpuOp::SetScissor {
                        index: 0,
                        region: scissor_of(
                            pixel_rect_of(clip_rect, space.origin, space.scale),
                            space.framebuffer,
                        ),
                    },
                    GpuOp::DrawIndexed {
                        primitive: Primitive::Triangles,
                        index_type: IndexType::U16,
                        start: start as u32,
                        end: (start + count) as u32,
                        instances: 1,
                        base_vertex: 0,
                    },
                ]
            } else {
                Seq::empty()
            }
        },
        _ => Seq::empty(),
    }
}

/// The operations of a sequence of commands. Each command's indices begin
/// where those of the commands before it end, whether those were drawn or
/// culled.
pub open spec fn commands_ops(
    textures: Map<usize, TextureObjects>,
    commands: Seq<DrawCommand>,
    space: FrameSpace,
) -> Seq<GpuOp>
    decreases commands.len(),
{
    if commands.len() == 0 {
        Seq::empty()
    } else {
        commands_ops(textures, commands.drop_last(), space) + command_ops(
            textures,
            commands.last(),
            total_elements(commands.drop_last()),
            space,
        )
    }
}

/// What is wrong with the first faulty command of a sequence, if any is.
pub open spec fn commands_error(
    textures: Map<usize, TextureObjects>,
    commands: Seq<DrawCommand>,
    space: FrameSpace,
) -> Option<RenderError>
    decreases commands.len(),
{
    if commands.len() == 0 {
        None
    } else {
        match commands_error(textures, commands.drop_last(), space) {
            Some(e) => Some(e),
            None => command_error(textures, commands.last(), space),
        }
    }
}

/// The operations that open a draw list: both uploads, then pipeline, vertex
/// array, index buffer, the vertex buffer on binding 0, blend state,
/// projection and the viewport over the whole framebuffer.
pub open spec fn setup_ops(
    renderer: RendererView,
    list: usize,
    projection: Projection,
    framebuffer: FramebufferSize,
) -> Seq<GpuOp> {
    seq![
        GpuOp::UploadVertices { list },
        GpuOp::UploadIndices { list },
        GpuOp::BindPipeline { pipeline: renderer.pipeline },
        GpuOp::BindVertexArray { vertex_array: renderer.vertex_array },
        GpuOp::BindIndexBuffer { vertex_array: renderer.vertex_array, list },
        GpuOp::BindVertexBuffer {
            vertex_array: renderer.vertex_array,
            binding: 0,
            list,
            offset: 0,
            stride: VERTEX_STRIDE,
        },
        GpuOp::BindColorBlend { blend: alpha_blend() },
        GpuOp::BindProjection { pipeline: renderer.pipeline, location: 0, projection },
        GpuOp::SetViewport { index: 0, width: framebuffer.width, height: framebuffer.height },
    ]
}

/// The operations that close a draw list: both transient buffers go.
pub open spec fn teardown_ops(list: usize) -> Seq<GpuOp> {
    seq![GpuOp::ReleaseVertices { list }, GpuOp::ReleaseIndices { list }]
}

/// The operations of the draw list at position `list` of its frame.
pub open spec fn list_ops(
    renderer: RendererView,
    list: usize,
    commands: Seq<DrawCommand>,
    projection: Projection,
    space: FrameSpace,
) -> Seq<GpuOp> {
    setup_ops(renderer, list, projection, space.framebuffer) + commands_ops(
        renderer.textures,
        commands,
        space,
    ) + teardown_ops(list)
}

/// The operations of a sequence of draw lists, list after list.
pub open spec fn lists_ops(
    renderer: RendererView,
    lists: Seq<DrawList>,
    projection: Projection,
    space: FrameSpace,
) -> Seq<GpuOp>
    decreases lists.len(),
{
    if lists.len() == 0 {
        Seq::empty()
    } else {
        lists_ops(renderer, lists.drop_last(), projection, space) + list_ops(
            renderer,
            (lists.len() - 1) as usize,
            lists.last()@.commands,
            projection,
            space,
        )
    }
}

/// What is wrong with the first faulty command of a sequence of draw lists,
/// if any is.
pub open spec fn lists_error(
    textures: Map<usize, TextureObjects>,
    lists: Seq<DrawList>,
    space: FrameSpace,
) -> Option<RenderError>
    decreases lists.len(),
{
    if lists.len() == 0 {
        None
    } else {
        match lists_error(textures, lists.drop_last(), space) {
            Some(e) => Some(e),
            None => commands_error(textures, lists.last()@.commands, space),
        }
    }
}

/// Where a frame's coordinates lie in its framebuffer.
pub open spec fn frame_space(frame: FrameDrawData) -> FrameSpace {
    FrameSpace {
        origin: frame.display_pos,
        scale: frame.framebuffer_scale,
        framebuffer: framebuffer_size_of(frame.display_size, frame.framebuffer_scale),
    }
}

/// What drawing a frame comes to. A frame whose framebuffer has no width or
/// no height is drawn with no operation at all, whatever its lists hold.
/// Otherwise the first faulty command fails the frame, and a frame without
/// one is drawn list after list.
pub open spec fn frame_plan(renderer: RendererView, frame: FrameDrawData) -> Result<
    Seq<GpuOp>,
    RenderError,
> {
    let space = frame_space(frame);
    if degenerate(space.framebuffer) {
        Ok(Seq::empty())
    } else {
        match lists_error(renderer.textures, frame.draw_lists@, space) {
            Some(e) => Err(e),
            None => Ok(
                lists_ops(
                    renderer,
                    frame.draw_lists@,
                    projection_of(frame.display_pos, frame.display_size),
                    space,
                ),
            ),
        }
    }
}

/// A fault among the first commands of a sequence is the fault of the whole
/// sequence.
pub proof fn commands_error_of_prefix(
    textures: Map<usize, TextureObjects>,
    commands: Seq<DrawCommand>,
    n: int,
    space: FrameSpace,
)
    requires
        0 <= n <= commands.len(),
        commands_error(textures, commands.take(n), space) is Some,
    ensures
        commands_error(textures, commands, space) == commands_error(
            textures,
            commands.take(n),
            space,
        ),
    decreases commands.len(),
{
    if n == commands.len() {
        assert(commands.take(n) == commands);
    } else {
        assert(commands.drop_last().take(n) == commands.take(n));
        commands_error_of_prefix(textures, commands.drop_last(), n, space);
    }
}

/// A fault among the first lists of a frame is the fault of the whole frame.
pub proof fn lists_error_of_prefix(
    textures: Map<usize, TextureObjects>,
    lists: Seq<DrawList>,
    n: int,
    space: FrameSpace,
)
    requires
        0 <= n <= lists.len(),
        lists_error(textures, lists.take(n), space) is Some,
    ensures
        lists_error(textures, lists, space) == lists_error(textures, lists.take(n), space),
    decreases lists.len(),
{
    if n == lists.len() {
        assert(lists.take(n) == lists);
    } else {
        assert(lists.drop_last().take(n) == lists.take(n));
        lists_error_of_prefix(textures, lists.drop_last(), n, space);
    }
}

/// The operations of the first commands of a sequence open the operations of
/// the whole sequence.
pub proof fn commands_ops_of_prefix(
    textures: Map<usize, TextureObjects>,
    commands: Seq<DrawCommand>,
    n: int,
    space: FrameSpace,
)
    requires
        0 <= n <= commands.len(),
    ensures
        commands_ops(textures, commands.take(n), space).is_prefix_of(
            commands_ops(textures, commands, space),
        ),
    decreases commands.len(),
{
    if n == commands.len() {
        assert(commands.take(n) == commands);
    } else {
        assert(commands.drop_last().take(n) == commands.take(n));
        commands_ops_of_prefix(textures, commands.drop_last(), n, space);
    }
}

/// A frame whose framebuffer has no width or no height is drawn without a
/// single operation, whatever its draw lists hold and whatever is registered.
pub proof fn degenerate_frame_draws_nothing(renderer: RendererView, frame: FrameDrawData)
    requires
        degenerate(framebuffer_size_of(frame.display_size, frame.framebuffer_scale)),
    ensures
        frame_plan(renderer, frame) == Ok::<Seq<GpuOp>, RenderError>(Seq::empty()),
{
}

/// Index slices are counted through: the draw call of a drawn command stands
/// right behind the operations of the commands before it, and it covers the
/// indices from the sum of the element counts of all those commands, culled
/// ones included, up to that sum plus its own count. The view and sampler
/// bound for it are those registered under the command's texture.
pub proof fn draw_call_covers_slice(
    textures: Map<usize, TextureObjects>,
    commands: Seq<DrawCommand>,
    i: int,
    space: FrameSpace,
)
    requires
        0 <= i < commands.len(),
        drawn(commands[i], space),
        total_elements(commands) <= u32::MAX,
    ensures
        ({
            let before = commands_ops(textures, commands.take(i), space);
            let ops = commands_ops(textures, commands, space);
            let at = before.len() as int;
            let first = total_elements(commands.take(i));
            let texture = commands[i]->texture;
            &&& before.is_prefix_of(ops)
            &&& at + 4 <= ops.len()
            &&& ops[at] == GpuOp::BindImageView { unit: 0, view: textures[texture].view }
            &&& ops[at + 1] == GpuOp::BindSampler { unit: 0, sampler: textures[texture].sampler }
            &&& ops[at + 3] matches GpuOp::DrawIndexed { start, end, .. }
            &&& start == first
            &&& end == first + element_count(commands[i])
            &&& end == total_elements(commands.take(i + 1))
        }),
{
    let before = commands_ops(textures, commands.take(i), space);
    let upto = commands_ops(textures, commands.take(i + 1), space);
    let ops = commands_ops(textures, commands, space);
    assert(commands.take(i + 1).drop_last() == commands.take(i));
    assert(commands.take(i + 1).last() == commands[i]);
    total_elements_of_prefix(commands, i + 1);
    commands_ops_of_prefix(textures, commands, i + 1, space);
    assert(upto.len() == before.len() + 4);
    assert(forall|k: int| 0 <= k < upto.len() ==> upto[k] == ops[k]);
    assert(before == ops.subrange(0, before.len() as int));
}

/// A command with a fault makes its whole sequence faulty.
pub proof fn faulty_command_fails_list(
    textures: Map<usize, TextureObjects>,
    commands: Seq<DrawCommand>,
    i: int,
    space: FrameSpace,
)
    requires
        0 <= i < commands.len(),
        command_error(textures, commands[i], space) is Some,
    ensures
        commands_error(textures, commands, space) is Some,
{
    assert(commands.take(i + 1).drop_last() == commands.take(i));
    assert(commands.take(i + 1).last() == commands[i]);
    commands_error_of_prefix(textures, commands, i + 1, space);
}

/// A frame that is to draw a command whose texture was never registered has
/// no plan: drawing it fails, and no operation is handed out. The same holds
/// of a frame that holds a command other than `Elements`.
pub proof fn faulty_command_fails_frame(
    renderer: RendererView,
    frame: FrameDrawData,
    list: int,
    i: int,
)
    requires
        !degenerate(framebuffer_size_of(frame.display_size, frame.framebuffer_scale)),
        0 <= list < frame.draw_lists@.len(),
        0 <= i < frame.draw_lists@[list]@.commands.len(),
        ({
            let command = frame.draw_lists@[list]@.commands[i];
            ||| command !is Elements
            ||| drawn(command, frame_space(frame)) && !renderer.textures.contains_key(
                command->texture,
            )
        }),
    ensures
        frame_plan(renderer, frame) is Err,
{
    let space = frame_space(frame);
    let lists = frame.draw_lists@;
    faulty_command_fails_list(renderer.textures, lists[list]@.commands, i, space);
    assert(lists.take(list + 1).drop_last() == lists.take(list));
    assert(lists.take(list + 1).last() == lists[list]);
    lists_error_of_prefix(renderer.textures, lists, list + 1, space);
}

} // verus!
