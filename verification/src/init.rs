//! What start-up asks of the graphics API: the two shaders and their
//! pipeline, the font atlas with its view and sampler, and the vertex layout.

use vstd::prelude::*;
use crate::ops::VERTEX_STRIDE;

verus! {

/// The source of the vertex shader: it hands texture coordinate and colour
/// on and multiplies the position with the transform at uniform location 0.
pub const VERTEX_SHADER: &'static str =
    "\n    #version 450 core\n    layout (location = 0) in vec2 v_pos;\n    layout (location = 1) in vec2 v_uv;\n    layout (location = 2) in vec4 v_color;\n\n    layout (location = 0) out vec2 a_uv;\n    layout (location = 1) out vec4 a_color;\n\n    layout (location = 0) uniform mat4 u_transform;\n\n    void main() {\n        a_uv = v_uv;\n        a_color = v_color;\n        gl_Position = u_transform * vec4(v_pos, 0.0, 1.0);\n    }\n";

/// The source of the fragment shader: the colour times the texture at
/// binding 0.
pub const FRAGMENT_SHADER: &'static str =
    "\n    #version 450 core\n    layout (location = 0) in vec2 a_uv;\n    layout (location = 1) in vec4 a_color;\n\n    layout (location = 0) out vec4 f_color;\n\n    layout (binding = 0) uniform sampler2D u_texture;\n\n    void main() {\n       f_color = a_color * texture(u_texture, a_uv);\n    }\n";

/// The format of an image's texels.
#[derive(Clone, Copy, Debug, PartialEq, Eq)]
pub enum Format {
    /// Four 8-bit channels, stored linearly.
    Rgba8Unorm,
    /// Four 8-bit channels, the colours sRGB-encoded.
    Rgba8Srgb,
}

/// The channels of host texel data.
#[derive(Clone, Copy, Debug, PartialEq, Eq)]
pub enum BaseFormat {
    R,
    Rg,
    Rgb,
    Rgba,
}

/// The type of one channel of host texel data.
#[derive(Clone, Copy, Debug, PartialEq, Eq)]
pub enum FormatLayout {
    U8,
    U16,
    U32,
    I8,
    I16,
    I32,
}

/// A two-dimensional image to create.
#[derive(Clone, Copy, Debug, PartialEq, Eq)]
pub struct ImageDesc {
    pub width: u32,
    pub height: u32,
    pub layers: u32,
    pub samples: u32,
    pub format: Format,
    pub levels: u32,
}

/// How texel data lies in host memory.
#[derive(Clone, Copy, Debug, PartialEq, Eq)]
pub struct MemoryLayout {
    pub base_format: BaseFormat,
    pub format_layout: FormatLayout,
    /// Texels in one row.
    pub row_length: u32,
    /// Rows in one image.
    pub image_height: u32,
    /// The alignment of each row, in bytes.
    pub alignment: u32,
}

/// A copy of texel data from host memory into an image.
#[derive(Clone, Copy, Debug, PartialEq, Eq)]
pub struct HostImageCopy {
    pub host_layout: MemoryLayout,
    /// The mip level written to.
    pub level: u32,
    /// The layers written to, from `first_layer` up to `end_layer`.
    pub first_layer: u32,
    pub end_layer: u32,
    /// The texel at which the written region begins.
    pub offset_x: i32,
    pub offset_y: i32,
    pub offset_z: i32,
    /// The size of the written region.
    pub width: u32,
    pub height: u32,
    pub depth: u32,
}

/// The dimensionality of an image view.
#[derive(Clone, Copy, Debug, PartialEq, Eq)]
pub enum ImageViewType {
    D1,
    D2,
    D3,
}

/// A view of an image: the levels from `first_level` up to `end_level` of
/// the layers from `first_layer` up to `end_layer`.
#[derive(Clone, Copy, Debug, PartialEq, Eq)]
pub struct ImageViewDesc {
    pub view_type: ImageViewType,
    pub format: Format,
    pub first_level: u32,
    pub end_level: u32,
    pub first_layer: u32,
    pub end_layer: u32,
}

/// How a texel is computed where the texture is scaled.
#[derive(Clone, Copy, Debug, PartialEq, Eq)]
pub enum Filter {
    Nearest,
    Linear,
}

/// What a sampler does with coordinates outside the texture.
#[derive(Clone, Copy, Debug, PartialEq, Eq)]
pub enum SamplerAddress {
    Repeat,
    MirrorRepeat,
    ClampEdge,
    ClampBorder,
    MirrorClampEdge,
}

/// A sampler to create.
#[derive(Clone, Copy, Debug, PartialEq, Eq)]
pub struct SamplerDesc {
    pub min_filter: Filter,
    pub mag_filter: Filter,
    /// The filter between mip levels, or none where mip maps are not used.
    pub mip_map: Option<Filter>,
    pub address_u: SamplerAddress,
    pub address_v: SamplerAddress,
    pub address_w: SamplerAddress,
}

/// The size and type of a vertex attribute.
#[derive(Clone, Copy, Debug, PartialEq, Eq)]
pub enum VertexFormat {
    X32Float,
    Xy32Float,
    Xyz32Float,
    Xyzw32Float,
    Xyzw8Unorm,
    Xyzw8Uint,
}

/// One attribute of the vertex layout.
#[derive(Clone, Copy, Debug, PartialEq, Eq)]
pub struct VertexAttribute {
    /// The location that the shader reads it at.
    pub location: u32,
    /// The vertex buffer binding that it is fetched from.
    pub binding: u32,
    pub format: VertexFormat,
    /// Its byte offset within a vertex.
    pub offset: u32,
}

/// The three attributes of a vertex.
#[derive(Clone, Copy, Debug, PartialEq, Eq)]
pub struct VertexLayout {
    pub position: VertexAttribute,
    pub texture_coordinate: VertexAttribute,
    pub color: VertexAttribute,
}

/// One step of start-up. The steps that compile, link or create make an
/// object and can fail; a failure ends start-up, and no renderer comes to be.
#[derive(Clone, Copy, Debug, PartialEq, Eq)]
pub enum InitOp {
    /// Correct every colour of the GUI's style for an sRGB framebuffer. The
    /// correction is not idempotent: it is planned once, before anything is
    /// drawn.
    CorrectStyleColors,
    /// Compile [`VERTEX_SHADER`].
    CompileVertexShader,
    /// Compile [`FRAGMENT_SHADER`].
    CompileFragmentShader,
    /// Link the pipeline of the two shaders and no other stage.
    LinkPipeline,
    /// Create the image of the font atlas.
    CreateAtlasImage { image: ImageDesc },
    /// Copy the atlas's texels into its image.
    UploadAtlas { copy: HostImageCopy },
    /// Create the view of the atlas image.
    CreateAtlasView { view: ImageViewDesc },
    /// Create the sampler of the atlas.
    CreateAtlasSampler { sampler: SamplerDesc },
    /// Create the vertex array with the layout of a vertex.
    CreateVertexArray { layout: VertexLayout },
}

/// The image of a font atlas of the given size: one layer, one sample, one
/// level, sRGB-encoded RGBA.
pub open spec fn atlas_image_of(width: u32, height: u32) -> ImageDesc {
    ImageDesc { width, height, layers: 1, samples: 1, format: Format::Rgba8Srgb, levels: 1 }
}

/// The copy that fills the atlas image: rows of `width` RGBA texels of one
/// byte a channel, each row aligned to four bytes, written to the whole of
/// level 0 of the one layer.
pub open spec fn atlas_upload_of(width: u32, height: u32) -> HostImageCopy {
    HostImageCopy {
        host_layout: MemoryLayout {
            base_format: BaseFormat::Rgba,
            format_layout: FormatLayout::U8,
            row_length: width,
            image_height: height,
            alignment: 4,
        },
        level: 0,
        first_layer: 0,
        end_layer: 1,
        offset_x: 0,
        offset_y: 0,
        offset_z: 0,
        width,
        height,
        depth: 1,
    }
}

/// The view of the atlas image: all of it, as a two-dimensional sRGB image.
pub open spec fn atlas_view_of() -> ImageViewDesc {
    ImageViewDesc {
        view_type: ImageViewType::D2,
        format: Format::Rgba8Srgb,
        first_level: 0,
        end_level: 1,
        first_layer: 0,
        end_layer: 1,
    }
}

/// The sampler of the atlas: linear filtering both ways, no mip maps, and
/// coordinates clamped to the edge on every axis.
pub open spec fn atlas_sampler_of() -> SamplerDesc {
    SamplerDesc {
        min_filter: Filter::Linear,
        mag_filter: Filter::Linear,
        mip_map: None,
        address_u: SamplerAddress::ClampEdge,
        address_v: SamplerAddress::ClampEdge,
        address_w: SamplerAddress::ClampEdge,
    }
}

/// The layout of a vertex: the position at offset 0 and the texture
/// coordinate at offset 8, two floats each, and the colour at offset 16, four
/// normalized bytes; all from binding 0, at locations 0, 1 and 2.
pub open spec fn vertex_layout_of() -> VertexLayout {
    VertexLayout {
        position: VertexAttribute {
            location: 0,
            binding: 0,
            format: VertexFormat::Xy32Float,
            offset: 0,
        },
        texture_coordinate: VertexAttribute {
            location: 1,
            binding: 0,
            format: VertexFormat::Xy32Float,
            offset: 8,
        },
        color: VertexAttribute {
            location: 2,
            binding: 0,
            format: VertexFormat::Xyzw8Unorm,
            offset: 16,
        },
    }
}

/// The bytes that an attribute of a format takes.
pub open spec fn format_bytes(format: VertexFormat) -> nat {
    match format {
        VertexFormat::X32Float => 4,
        VertexFormat::Xy32Float => 8,
        VertexFormat::Xyz32Float => 12,
        VertexFormat::Xyzw32Float => 16,
        VertexFormat::Xyzw8Unorm => 4,
        VertexFormat::Xyzw8Uint => 4,
    }
}

/// The attributes tile the vertex: the position begins it, each of the
/// others begins where the one before it ends, and the colour ends where the
/// vertex ends.
pub proof fn vertex_layout_tiles_vertex()
    ensures
        ({
            let layout = vertex_layout_of();
            &&& layout.position.offset == 0
            &&& layout.texture_coordinate.offset == layout.position.offset + format_bytes(
                layout.position.format,
            )
            &&& layout.color.offset == layout.texture_coordinate.offset + format_bytes(
                layout.texture_coordinate.format,
            )
            &&& layout.color.offset + format_bytes(layout.color.format) == VERTEX_STRIDE
        }),
{
}

/// The steps of start-up for a font atlas of the given size, in their order.
pub open spec fn init_ops(atlas_width: u32, atlas_height: u32) -> Seq<InitOp> {
    seq![
        InitOp::CorrectStyleColors,
        InitOp::CompileVertexShader,
        InitOp::CompileFragmentShader,
        InitOp::LinkPipeline,
        InitOp::CreateAtlasImage { image: atlas_image_of(atlas_width, atlas_height) },
        InitOp::UploadAtlas { copy: atlas_upload_of(atlas_width, atlas_height) },
        InitOp::CreateAtlasView { view: atlas_view_of() },
        InitOp::CreateAtlasSampler { sampler: atlas_sampler_of() },
        InitOp::CreateVertexArray { layout: vertex_layout_of() },
    ]
}

/// Describes the image of a font atlas.
pub fn atlas_image(width: u32, height: u32) -> (image: ImageDesc)
    ensures
        image == atlas_image_of(width, height),
{
    ImageDesc { width, height, layers: 1, samples: 1, format: Format::Rgba8Srgb, levels: 1 }
}

/// Describes the copy that fills the image of a font atlas.
pub fn atlas_upload(width: u32, height: u32) -> (copy: HostImageCopy)
    ensures
        copy == atlas_upload_of(width, height),
{
    HostImageCopy {
        host_layout: MemoryLayout {
            base_format: BaseFormat::Rgba,
            format_layout: FormatLayout::U8,
            row_length: width,
            image_height: height,
            alignment: 4,
        },
        level: 0,
        first_layer: 0,
        end_layer: 1,
        offset_x: 0,
        offset_y: 0,
        offset_z: 0,
        width,
        height,
        depth: 1,
    }
}

/// Describes the view of the atlas image.
pub fn atlas_view() -> (view: ImageViewDesc)
    ensures
        view == atlas_view_of(),
{
    ImageViewDesc {
        view_type: ImageViewType::D2,
        format: Format::Rgba8Srgb,
        first_level: 0,
        end_level: 1,
        first_layer: 0,
        end_layer: 1,
    }
}

/// Describes the sampler of the atlas.
pub fn atlas_sampler() -> (sampler: SamplerDesc)
    ensures
        sampler == atlas_sampler_of(),
{
    SamplerDesc {
        min_filter: Filter::Linear,
        mag_filter: Filter::Linear,
        mip_map: None,
        address_u: SamplerAddress::ClampEdge,
        address_v: SamplerAddress::ClampEdge,
        address_w: SamplerAddress::ClampEdge,
    }
}

/// Describes the layout of a vertex.
pub fn vertex_layout() -> (layout: VertexLayout)
    ensures
        layout == vertex_layout_of(),
{
    VertexLayout {
        position: VertexAttribute {
            location: 0,
            binding: 0,
            format: VertexFormat::Xy32Float,
            offset: 0,
        },
        texture_coordinate: VertexAttribute {
            location: 1,
            binding: 0,
            format: VertexFormat::Xy32Float,
            offset: 8,
        },
        color: VertexAttribute {
            location: 2,
            binding: 0,
            format: VertexFormat::Xyzw8Unorm,
            offset: 16,
        },
    }
}

/// Plans start-up for a font atlas of the given size.
pub fn init_plan(atlas_width: u32, atlas_height: u32) -> (plan: Vec<InitOp>)
    ensures
        plan@ == init_ops(atlas_width, atlas_height),
{
    let mut plan: Vec<InitOp> = Vec::new();
    plan.push(InitOp::CorrectStyleColors);
    plan.push(InitOp::CompileVertexShader);
    plan.push(InitOp::CompileFragmentShader);
    plan.push(InitOp::LinkPipeline);
    plan.push(InitOp::CreateAtlasImage { image: atlas_image(atlas_width, atlas_height) });
    plan.push(InitOp::UploadAtlas { copy: atlas_upload(atlas_width, atlas_height) });
    plan.push(InitOp::CreateAtlasView { view: atlas_view() });
    plan.push(InitOp::CreateAtlasSampler { sampler: atlas_sampler() });
    plan.push(InitOp::CreateVertexArray { layout: vertex_layout() });
    plan
}

} // verus!
