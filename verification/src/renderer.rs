//! The renderer: the objects made once at start-up, and the planning of each
//! frame.

use vstd::prelude::*;
use crate::clip::{
    degenerate, framebuffer_size, is_culled, is_degenerate, scissor, to_pixel_rect,
};
use crate::frame::{
    total_elements, total_elements_of_prefix, total_elements_step, well_formed, DrawCommand,
    DrawList, FrameDrawData,
};
use crate::ops::{GpuOp, IndexType, Primitive, VERTEX_STRIDE};
use crate::plan::{
    command_ops, commands_error, commands_error_of_prefix, commands_ops, frame_plan, frame_space,
    list_ops, lists_error, lists_error_of_prefix, lists_ops, setup_ops, teardown_ops, FrameSpace,
    RenderError, RendererView,
};
use crate::projection::{projection, projection_of, Projection};
use crate::registry::{entries, registry_get, registry_insert, registry_new, TextureObjects};
use crate::state::alpha_blend_state;

verus! {

/// Draws the frames of one GUI context. It owns the pipeline, the vertex
/// layout and the texture registry for as long as it lives.
#[derive(Debug)]
pub struct Renderer {
    pipeline: u32,
    vertex_array: u32,
    textures: imgui::Textures<TextureObjects>,
    font_texture: usize,
}

impl View for Renderer {
    type V = RendererView;

    closed spec fn view(&self) -> RendererView {
        RendererView {
            pipeline: self.pipeline,
            vertex_array: self.vertex_array,
            textures: entries(self.textures),
            font_texture: self.font_texture,
        }
    }
}

impl Renderer {
    /// Makes the renderer from the objects that start-up created: the linked
    /// pipeline, the vertex array, and the font atlas with its view and
    /// sampler. The atlas is registered as the one texture of the new
    /// registry; `font_texture` tells under which handle.
    pub fn new(pipeline: u32, vertex_array: u32, font_atlas: TextureObjects) -> (renderer: Renderer)
        ensures
            renderer@.pipeline == pipeline,
            renderer@.vertex_array == vertex_array,
            renderer@.font_texture == 0,
            renderer@.textures == Map::<usize, TextureObjects>::empty().insert(0, font_atlas),
    {
        let mut textures = registry_new();
        let font_texture = registry_insert(&mut textures, font_atlas);
        Renderer { pipeline, vertex_array, textures, font_texture }
    }

    /// The handle under which the font atlas is registered. The GUI engine
    /// has to be told, so that the glyphs it draws name this texture.
    pub fn font_texture(&self) -> (handle: usize)
        ensures
            handle == self@.font_texture,
    {
        self.font_texture
    }

    /// The objects registered under a texture handle, if any are.
    pub fn texture(&self, handle: usize) -> (objects: Option<TextureObjects>)
        ensures
            objects == (if self@.textures.contains_key(handle) {
                Some(self@.textures[handle])
            } else {
                None
            }),
    {
        registry_get(&self.textures, handle)
    }

    /// Plans the drawing of one frame: the operations to carry out, in order,
    /// or the fault that forbids drawing it.
    pub fn render(&self, draw_data: &FrameDrawData) -> (result: Result<Vec<GpuOp>, RenderError>)
        ensures
            result matches Ok(ops) ==> frame_plan(self@, *draw_data) == Ok::<
                Seq<GpuOp>,
                RenderError,
            >(ops@),
            result matches Err(e) ==> frame_plan(self@, *draw_data) == Err::<
                Seq<GpuOp>,
                RenderError,
            >(e),
            degenerate(frame_space(*draw_data).framebuffer) ==> (result matches Ok(ops)
                && ops@.len() == 0),
            result is Err <==> !degenerate(frame_space(*draw_data).framebuffer) && lists_error(
                self@.textures,
                draw_data.draw_lists@,
                frame_space(*draw_data),
            ) is Some,
    {
        let mut ops: Vec<GpuOp> = Vec::new();
        let framebuffer = framebuffer_size(draw_data.display_size, draw_data.framebuffer_scale);
        if is_degenerate(framebuffer) {
            return Ok(ops);
        }
        let transform = projection(draw_data.display_pos, draw_data.display_size);
        let space = FrameSpace {
            origin: draw_data.display_pos,
            scale: draw_data.framebuffer_scale,
            framebuffer,
        };
        assert(space == frame_space(*draw_data));
        let mut i: usize = 0;
        while i < draw_data.draw_lists.len()
            invariant
                i <= draw_data.draw_lists.len(),
                space == frame_space(*draw_data),
                !degenerate(space.framebuffer),
                transform == projection_of(draw_data.display_pos, draw_data.display_size),
                lists_error(self@.textures, draw_data.draw_lists@.take(i as int), space) is None,
                ops@ == lists_ops(self@, draw_data.draw_lists@.take(i as int), transform, space),
            decreases draw_data.draw_lists.len() - i,
        {
            let ghost lists = draw_data.draw_lists@;
            assert(lists.take(i + 1).drop_last() == lists.take(i as int));
            assert(lists.take(i + 1).last() == lists[i as int]);
            match self.render_draw_list(i, &draw_data.draw_lists[i], transform, space, &mut ops) {
                Ok(()) => {},
                Err(e) => {
                    proof {
                        assert(lists_error(self@.textures, lists.take(i + 1), space) == Some(e));
                        lists_error_of_prefix(self@.textures, lists, i + 1, space);
                    }
                    return Err(e);
                },
            }
            i = i + 1;
        }
        assert(draw_data.draw_lists@.take(i as int) == draw_data.draw_lists@);
        Ok(ops)
    }

    /// Appends the operations of one draw list to `ops`, or reports the
    /// list's first faulty command.
    fn render_draw_list(
        &self,
        list: usize,
        draw_list: &DrawList,
        transform: Projection,
        space: FrameSpace,
        ops: &mut Vec<GpuOp>,
    ) -> (result: Result<(), RenderError>)
        ensures
            result is Ok ==> commands_error(self@.textures, draw_list@.commands, space) is None
                && final(ops)@ == old(ops)@ + list_ops(
                self@,
                list,
                draw_list@.commands,
                transform,
                space,
            ),
            result matches Err(e) ==> commands_error(self@.textures, draw_list@.commands, space)
                == Some(e),
    {
        let ghost before = ops@;
        let commands = draw_list.commands();
        ops.push(GpuOp::UploadVertices { list });
        ops.push(GpuOp::UploadIndices { list });
        ops.push(GpuOp::BindPipeline { pipeline: self.pipeline });
        ops.push(GpuOp::BindVertexArray { vertex_array: self.vertex_array });
        ops.push(GpuOp::BindIndexBuffer { vertex_array: self.vertex_array, list });
        ops.push(
            GpuOp::BindVertexBuffer {
                vertex_array: self.vertex_array,
                binding: 0,
                list,
                offset: 0,
                stride: VERTEX_STRIDE,
            },
        );
        ops.push(GpuOp::BindColorBlend { blend: alpha_blend_state() });
        ops.push(
            GpuOp::BindProjection { pipeline: self.pipeline, location: 0, projection: transform },
        );
        ops.push(
            GpuOp::SetViewport {
                index: 0,
                width: space.framebuffer.width,
                height: space.framebuffer.height,
            },
        );
        let ghost setup = setup_ops(self@, list, transform, space.framebuffer);
        assert(ops@ == before + setup);

        let mut index_start: u32 = 0;
        let mut j: usize = 0;
        while j < commands.len()
            invariant
                j <= commands.len(),
                commands@ == draw_list@.commands,
                well_formed(commands@, draw_list@.index_count),
                index_start == total_elements(commands@.take(j as int)),
                commands_error(self@.textures, commands@.take(j as int), space) is None,
                ops@ == before + setup + commands_ops(
                    self@.textures,
                    commands@.take(j as int),
                    space,
                ),
            decreases commands.len() - j,
        {
            let ghost so_far = commands_ops(self@.textures, commands@.take(j as int), space);
            proof {
                total_elements_step(commands@, j as int);
                total_elements_of_prefix(commands@, j + 1);
                assert(commands@.take(j + 1).drop_last() == commands@.take(j as int));
                assert(commands@.take(j + 1).last() == commands@[j as int]);
            }
            match commands[j] {
                DrawCommand::Elements { count, clip_rect, texture } => {
                    let end: u32 = index_start + count as u32;
                    let rect = to_pixel_rect(clip_rect, space.origin, space.scale);
                    if !is_culled(rect, space.framebuffer) {
                        match registry_get(&self.textures, texture) {
                            Some(objects) => {
                                ops.push(GpuOp::BindImageView { unit: 0, view: objects.view });
                                ops.push(GpuOp::BindSampler { unit: 0, sampler: objects.sampler });
                                ops.push(
                                    GpuOp::SetScissor {
                                        index: 0,
                                        region: scissor(rect, space.framebuffer),
                                    },
                                );
                                ops.push(
                                    GpuOp::DrawIndexed {
                                        primitive: Primitive::Triangles,
                                        index_type: IndexType::U16,
                                        start: index_start,
                                        end,
                                        instances: 1,
                                        base_vertex: 0,
                                    },
                                );
                            },
                            None => {
                                proof {
                                    commands_error_of_prefix(
                                        self@.textures,
                                        commands@,
                                        j + 1,
                                        space,
                                    );
                                }
                                return Err(RenderError::UnregisteredTexture { texture });
                            },
                        }
                    }
                    index_start = end;
                },
                _ => {
                    proof {
                        commands_error_of_prefix(self@.textures, commands@, j + 1, space);
                    }
                    return Err(RenderError::UnsupportedCommand);
                },
            }
            assert(ops@ == before + setup + (so_far + command_ops(
                self@.textures,
                commands@[j as int],
                total_elements(commands@.take(j as int)),
                space,
            )));
            j = j + 1;
        }
        assert(commands@.take(j as int) == commands@);
        ops.push(GpuOp::ReleaseVertices { list });
        ops.push(GpuOp::ReleaseIndices { list });
        assert(ops@ == before + (setup + commands_ops(self@.textures, commands@, space)
            + teardown_ops(list)));
        Ok(())
    }
}

} // verus!
