use grr_imgui::frame::{ClipRect, DrawCommand, DrawList, Extent, FrameDrawData, Position, Scale};
use grr_imgui::init::{
    atlas_image, atlas_sampler, atlas_upload, atlas_view, init_plan, vertex_layout, BaseFormat,
    Filter, Format, FormatLayout, HostImageCopy, ImageDesc, ImageViewDesc, ImageViewType, InitOp,
    MemoryLayout, SamplerAddress, SamplerDesc, VertexAttribute, VertexFormat, VertexLayout,
    FRAGMENT_SHADER, VERTEX_SHADER,
};
use grr_imgui::ops::{GpuOp, VERTEX_STRIDE};
use grr_imgui::registry::TextureObjects;
use grr_imgui::release::{live_after, release_ops, TransientBuffer};
use grr_imgui::renderer::Renderer;
use grr_imgui::state::{alpha_blend_state, BlendFactor, BlendOp};

fn plan_of_two_lists() -> Vec<GpuOp> {
    let command = DrawCommand::Elements {
        count: 6,
        clip_rect: ClipRect { left: 0, top: 0, right: 65536, bottom: 65536 },
        texture: 0,
    };
    let data = FrameDrawData {
        display_pos: Position { x: 0, y: 0 },
        display_size: Extent { width: 800 * 65536, height: 600 * 65536 },
        framebuffer_scale: Scale { x: 65536, y: 65536 },
        draw_lists: vec![
            DrawList::new(vec![command], 6).unwrap(),
            DrawList::new(vec![command, command], 12).unwrap(),
        ],
    };
    Renderer::new(1, 2, TextureObjects { image: 3, view: 4, sampler: 5 }).render(&data).unwrap()
}

#[test]
fn nothing_is_alive_before_the_first_operation() {
    let ops = plan_of_two_lists();
    assert_eq!(live_after(&ops, 0), vec![]);
    assert_eq!(release_ops(&ops, 0), vec![]);
}

#[test]
fn failed_index_upload_releases_the_vertex_buffer() {
    let ops = plan_of_two_lists();
    assert_eq!(ops[1], GpuOp::UploadIndices { list: 0 });
    assert_eq!(live_after(&ops, 1), vec![TransientBuffer::Vertices { list: 0 }]);
    assert_eq!(release_ops(&ops, 1), vec![GpuOp::ReleaseVertices { list: 0 }]);
}

#[test]
fn frame_given_up_within_a_list_releases_both_buffers() {
    let ops = plan_of_two_lists();
    for done in 2..14 {
        assert_eq!(
            release_ops(&ops, done),
            vec![GpuOp::ReleaseVertices { list: 0 }, GpuOp::ReleaseIndices { list: 0 }]
        );
    }
    assert_eq!(ops[13], GpuOp::ReleaseVertices { list: 0 });
    assert_eq!(release_ops(&ops, 14), vec![GpuOp::ReleaseIndices { list: 0 }]);
    assert_eq!(release_ops(&ops, 15), vec![]);
}

#[test]
fn frame_given_up_in_the_second_list_releases_only_its_buffers() {
    let ops = plan_of_two_lists();
    assert_eq!(ops[15], GpuOp::UploadVertices { list: 1 });
    assert_eq!(ops[16], GpuOp::UploadIndices { list: 1 });
    assert_eq!(release_ops(&ops, 16), vec![GpuOp::ReleaseVertices { list: 1 }]);
    assert_eq!(
        release_ops(&ops, 20),
        vec![GpuOp::ReleaseVertices { list: 1 }, GpuOp::ReleaseIndices { list: 1 }]
    );
}

#[test]
fn finished_frame_leaves_nothing_alive() {
    let ops = plan_of_two_lists();
    assert_eq!(ops.len(), 34);
    assert_eq!(live_after(&ops, ops.len()), vec![]);
    assert_eq!(release_ops(&ops, ops.len()), vec![]);
    assert_eq!(release_ops(&ops, usize::MAX), vec![]);
}

#[test]
fn given_up_frame_leaves_nothing_alive_after_its_releases() {
    let ops = plan_of_two_lists();
    for done in 0..=ops.len() {
        let mut run: Vec<GpuOp> = ops[..done].to_vec();
        run.extend(release_ops(&ops, done));
        assert_eq!(live_after(&run, run.len()), vec![]);
    }
}

#[test]
fn release_removes_every_copy_of_a_buffer() {
    let ops = vec![
        GpuOp::UploadIndices { list: 3 },
        GpuOp::UploadVertices { list: 3 },
        GpuOp::UploadIndices { list: 3 },
        GpuOp::UploadIndices { list: 4 },
        GpuOp::BindPipeline { pipeline: 0 },
        GpuOp::ReleaseIndices { list: 3 },
    ];
    assert_eq!(
        live_after(&ops, 5),
        vec![
            TransientBuffer::Indices { list: 3 },
            TransientBuffer::Vertices { list: 3 },
            TransientBuffer::Indices { list: 3 },
            TransientBuffer::Indices { list: 4 },
        ]
    );
    assert_eq!(
        live_after(&ops, 6),
        vec![TransientBuffer::Vertices { list: 3 }, TransientBuffer::Indices { list: 4 }]
    );
    assert_eq!(
        release_ops(&ops, 6),
        vec![GpuOp::ReleaseVertices { list: 3 }, GpuOp::ReleaseIndices { list: 4 }]
    );
}

#[test]
fn start_up_runs_its_steps_in_order() {
    let layout = MemoryLayout {
        base_format: BaseFormat::Rgba,
        format_layout: FormatLayout::U8,
        row_length: 512,
        image_height: 64,
        alignment: 4,
    };
    let expected = vec![
        InitOp::CorrectStyleColors,
        InitOp::CompileVertexShader,
        InitOp::CompileFragmentShader,
        InitOp::LinkPipeline,
        InitOp::CreateAtlasImage {
            image: ImageDesc {
                width: 512,
                height: 64,
                layers: 1,
                samples: 1,
                format: Format::Rgba8Srgb,
                levels: 1,
            },
        },
        InitOp::UploadAtlas {
            copy: HostImageCopy {
                host_layout: layout,
                level: 0,
                first_layer: 0,
                end_layer: 1,
                offset_x: 0,
                offset_y: 0,
                offset_z: 0,
                width: 512,
                height: 64,
                depth: 1,
            },
        },
        InitOp::CreateAtlasView {
            view: ImageViewDesc {
                view_type: ImageViewType::D2,
                format: Format::Rgba8Srgb,
                first_level: 0,
                end_level: 1,
                first_layer: 0,
                end_layer: 1,
            },
        },
        InitOp::CreateAtlasSampler {
            sampler: SamplerDesc {
                min_filter: Filter::Linear,
                mag_filter: Filter::Linear,
                mip_map: None,
                address_u: SamplerAddress::ClampEdge,
                address_v: SamplerAddress::ClampEdge,
                address_w: SamplerAddress::ClampEdge,
            },
        },
        InitOp::CreateVertexArray {
            layout: VertexLayout {
                position: VertexAttribute {
                    location: 0,
                    binding: 0,
                    format: VertexFormat::Xy32Float,
                    offset: 0,
                },
                texture_coordinate: VertexAttribute {
                    location: 1,
                    binding: 0,
                    format: VertexFormat::Xy32Float,
                    offset: 8,
                },
                color: VertexAttribute {
                    location: 2,
                    binding: 0,
                    format: VertexFormat::Xyzw8Unorm,
                    offset: 16,
                },
            },
        },
    ];
    assert_eq!(init_plan(512, 64), expected);
}

#[test]
fn style_colors_are_corrected_exactly_once_and_first() {
    let plan = init_plan(1, 1);
    assert_eq!(plan[0], InitOp::CorrectStyleColors);
    assert_eq!(plan.iter().filter(|op| **op == InitOp::CorrectStyleColors).count(), 1);
}

#[test]
fn start_up_steps_agree_with_their_descriptions() {
    let plan = init_plan(256, 128);
    assert_eq!(plan[4], InitOp::CreateAtlasImage { image: atlas_image(256, 128) });
    assert_eq!(plan[5], InitOp::UploadAtlas { copy: atlas_upload(256, 128) });
    assert_eq!(plan[6], InitOp::CreateAtlasView { view: atlas_view() });
    assert_eq!(plan[7], InitOp::CreateAtlasSampler { sampler: atlas_sampler() });
    assert_eq!(plan[8], InitOp::CreateVertexArray { layout: vertex_layout() });
}

#[test]
fn atlas_of_no_size_is_described_as_it_is() {
    assert_eq!(atlas_image(0, 0).width, 0);
    assert_eq!(atlas_upload(0, 7).host_layout.row_length, 0);
    assert_eq!(atlas_upload(0, 7).host_layout.image_height, 7);
    assert_eq!(atlas_upload(u32::MAX, u32::MAX).width, u32::MAX);
}

#[test]
fn vertex_attributes_tile_the_vertex() {
    let layout = vertex_layout();
    assert_eq!(layout.position.offset, 0);
    assert_eq!(layout.texture_coordinate.offset, 8);
    assert_eq!(layout.color.offset, 16);
    assert_eq!(VERTEX_STRIDE, 20);
    assert_eq!(layout.color.offset + 4, VERTEX_STRIDE);
}

#[test]
fn blend_weighs_colour_by_source_alpha_and_adds_alpha() {
    let blend = alpha_blend_state();
    assert!(blend.blend_enable);
    assert_eq!(blend.color.src_factor, BlendFactor::SrcAlpha);
    assert_eq!(blend.color.dst_factor, BlendFactor::OneMinusSrcAlpha);
    assert_eq!(blend.color.blend_op, BlendOp::Add);
    assert_eq!(blend.alpha.src_factor, BlendFactor::One);
    assert_eq!(blend.alpha.dst_factor, BlendFactor::One);
    assert_eq!(blend.alpha.blend_op, BlendOp::Add);
}

#[test]
fn shaders_declare_what_the_pipeline_binds() {
    assert!(VERTEX_SHADER.contains("#version 450 core"));
    assert!(VERTEX_SHADER.contains("layout (location = 0) in vec2 v_pos;"));
    assert!(VERTEX_SHADER.contains("layout (location = 1) in vec2 v_uv;"));
    assert!(VERTEX_SHADER.contains("layout (location = 2) in vec4 v_color;"));
    assert!(VERTEX_SHADER.contains("layout (location = 0) uniform mat4 u_transform;"));
    assert!(VERTEX_SHADER.contains("gl_Position = u_transform * vec4(v_pos, 0.0, 1.0);"));
    assert!(FRAGMENT_SHADER.contains("#version 450 core"));
    assert!(FRAGMENT_SHADER.contains("layout (binding = 0) uniform sampler2D u_texture;"));
    assert!(FRAGMENT_SHADER.contains("f_color = a_color * texture(u_texture, a_uv);"));
}
