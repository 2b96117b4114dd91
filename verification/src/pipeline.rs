//! The pipeline factory: the complete render-pipeline configuration for the
//! cube pass, as plain descriptor values.
//!
//! The factory fixes every choice the GPU pipeline needs — shader entry
//! points, vertex layout, primitive state, the reversed-Z depth convention,
//! multisampling, and the two bind-group layouts — as a pure function of the
//! surface color format. The unverified shell translates each descriptor
//! field one-for-one into the GPU API's own types.

use vstd::prelude::*;

verus! {

/// A shader entry point of the externally supplied shader module.
#[derive(Clone, Copy, Debug, PartialEq, Eq, Structural)]
pub enum ShaderEntry {
    VsMain,
    FsMain,
}

/// The name under which the shader module exposes an entry point.
pub fn entry_point_name(e: ShaderEntry) -> (r: &'static str)
    ensures
        e == ShaderEntry::VsMain ==> r@ == "vs_main"@,
        e == ShaderEntry::FsMain ==> r@ == "fs_main"@,
{
    match e {
        ShaderEntry::VsMain => "vs_main",
        ShaderEntry::FsMain => "fs_main",
    }
}

/// The format of one vertex attribute as the shader reads it.
#[derive(Clone, Copy, Debug, PartialEq, Eq, Structural)]
pub enum VertexFormat {
    Float32x2,
    Float32x4,
}

/// How the vertex buffer is stepped through.
#[derive(Clone, Copy, Debug, PartialEq, Eq, Structural)]
pub enum VertexStepMode {
    Vertex,
    Instance,
}

/// One vertex attribute: format, byte offset within the stride, and the
/// shader location it binds to.
#[derive(Clone, Copy, Debug, PartialEq, Eq, Structural)]
pub struct VertexAttributeDesc {
    pub format: VertexFormat,
    pub offset: u64,
    pub shader_location: u32,
}

/// One vertex buffer layout: stride, step mode and attribute list.
#[derive(Clone, Debug)]
pub struct VertexBufferLayoutDesc {
    pub array_stride: u64,
    pub step_mode: VertexStepMode,
    pub attributes: Vec<VertexAttributeDesc>,
}

/// The byte stride of one GPU vertex: four `f32` position components and two
/// `f32` texture coordinates.
pub const GPU_VERTEX_STRIDE: u64 = 24;

/// The byte offset of the texture coordinate within a GPU vertex.
pub const GPU_TEX_COORD_OFFSET: u64 = 16;

/// The index format of an index buffer.
#[derive(Clone, Copy, Debug, PartialEq, Eq, Structural)]
pub enum IndexFormat {
    Uint16,
    Uint32,
}

/// The primitive topology the pipeline assembles.
#[derive(Clone, Copy, Debug, PartialEq, Eq, Structural)]
pub enum PrimitiveTopology {
    PointList,
    LineList,
    TriangleList,
}

/// Which winding counts as the front of a triangle.
#[derive(Clone, Copy, Debug, PartialEq, Eq, Structural)]
pub enum FrontFace {
    Ccw,
    Cw,
}

/// A triangle side, for culling.
#[derive(Clone, Copy, Debug, PartialEq, Eq, Structural)]
pub enum Face {
    Front,
    Back,
}

/// How triangles are rasterized.
#[derive(Clone, Copy, Debug, PartialEq, Eq, Structural)]
pub enum PolygonMode {
    Fill,
    Line,
    Point,
}

/// The fixed-function primitive state.
#[derive(Clone, Copy, Debug, PartialEq, Eq, Structural)]
pub struct PrimitiveStateDesc {
    pub topology: PrimitiveTopology,
    pub strip_index_format: Option<IndexFormat>,
    pub front_face: FrontFace,
    pub cull_mode: Option<Face>,
    pub unclipped_depth: bool,
    pub polygon_mode: PolygonMode,
    pub conservative: bool,
}

/// A depth buffer format.
#[derive(Clone, Copy, Debug, PartialEq, Eq, Structural)]
pub enum DepthFormat {
    Depth32Float,
    Depth24Plus,
}

/// A depth/stencil comparison function.
#[derive(Clone, Copy, Debug, PartialEq, Eq, Structural)]
pub enum CompareFunction {
    Never,
    Less,
    Equal,
    LessEqual,
    Greater,
    NotEqual,
    GreaterEqual,
    Always,
}

/// The depth-testing convention, as one named policy so that the pass's
/// clear value and the pipeline's compare function cannot drift apart.
///
/// Under `ReversedZ` larger depth values are nearer: the depth target is
/// cleared to `0.0` and a fragment wins when its depth compares `Greater`.
/// Under `ConventionalZ` the pair is `1.0` and `Less`.
#[derive(Clone, Copy, Debug, PartialEq, Eq, Structural)]
pub enum DepthPolicy {
    ReversedZ,
    ConventionalZ,
}

/// The depth clear value a policy pairs with its compare function, as the
/// IEEE-754 bit pattern of the `f32` clear value: `0.0` for reversed-Z,
/// `1.0` for conventional depth.
pub open spec fn clear_bits_spec(p: DepthPolicy) -> u32 {
    match p {
        DepthPolicy::ReversedZ => 0,
        DepthPolicy::ConventionalZ => crate::uniform::F32_ONE_BITS,
    }
}

/// The compare function a policy prescribes.
pub open spec fn compare_spec(p: DepthPolicy) -> CompareFunction {
    match p {
        DepthPolicy::ReversedZ => CompareFunction::Greater,
        DepthPolicy::ConventionalZ => CompareFunction::Less,
    }
}

impl DepthPolicy {
    /// The `f32` bit pattern of the depth clear value this policy pairs with
    /// its compare function.
    pub fn clear_value_bits(&self) -> (r: u32)
        ensures
            r == clear_bits_spec(*self),
    {
        match self {
            DepthPolicy::ReversedZ => 0,
            DepthPolicy::ConventionalZ => crate::uniform::F32_ONE_BITS,
        }
    }

    /// The depth compare function this policy prescribes.
    pub fn compare_function(&self) -> (r: CompareFunction)
        ensures
            r == compare_spec(*self),
    {
        match self {
            DepthPolicy::ReversedZ => CompareFunction::Greater,
            DepthPolicy::ConventionalZ => CompareFunction::Less,
        }
    }
}

/// The depth policy of the cube scene: reversed-Z.
pub open spec fn scene_depth_policy() -> DepthPolicy {
    DepthPolicy::ReversedZ
}

/// Whether a fragment with depth bits `new_bits` passes the depth test
/// against the stored bits `old_bits` under `cmp`.
///
/// Depth values lie in `[0.0, 1.0]`, and for non-negative `f32` values the
/// IEEE-754 ordering coincides with the unsigned ordering of the bit
/// patterns, so the comparison is stated directly over the bits.
pub open spec fn depth_test_spec(cmp: CompareFunction, new_bits: u32, old_bits: u32) -> bool {
    match cmp {
        CompareFunction::Never => false,
        CompareFunction::Less => new_bits < old_bits,
        CompareFunction::Equal => new_bits == old_bits,
        CompareFunction::LessEqual => new_bits <= old_bits,
        CompareFunction::Greater => new_bits > old_bits,
        CompareFunction::NotEqual => new_bits != old_bits,
        CompareFunction::GreaterEqual => new_bits >= old_bits,
        CompareFunction::Always => true,
    }
}

/// Decides the depth test for two depth values in `[0.0, 1.0]`, given as
/// their `f32` bit patterns (for which the sign bit is clear, so unsigned
/// comparison of the patterns is exactly the floating-point comparison).
pub fn depth_test_passes(cmp: CompareFunction, new_bits: u32, old_bits: u32) -> (r: bool)
    requires
        new_bits < 0x8000_0000,
        old_bits < 0x8000_0000,
    ensures
        r == depth_test_spec(cmp, new_bits, old_bits),
{
    match cmp {
        CompareFunction::Never => false,
        CompareFunction::Less => new_bits < old_bits,
        CompareFunction::Equal => new_bits == old_bits,
        CompareFunction::LessEqual => new_bits <= old_bits,
        CompareFunction::Greater => new_bits > old_bits,
        CompareFunction::NotEqual => new_bits != old_bits,
        CompareFunction::GreaterEqual => new_bits >= old_bits,
        CompareFunction::Always => true,
    }
}

/// Under reversed-Z, every strictly positive depth value beats the cleared
/// target: the clear value loses to any fragment actually drawn.
pub proof fn lemma_reversed_z_clear_loses(new_bits: u32)
    requires
        0 < new_bits < 0x8000_0000,
    ensures
        depth_test_spec(compare_spec(DepthPolicy::ReversedZ), new_bits, clear_bits_spec(DepthPolicy::ReversedZ)),
{
}

/// The depth/stencil state of the pipeline. Stencil state and depth bias
/// take the API's all-default values and are not configured here.
#[derive(Clone, Copy, Debug, PartialEq, Eq, Structural)]
pub struct DepthStencilDesc {
    pub format: DepthFormat,
    pub depth_write_enabled: bool,
    pub depth_compare: CompareFunction,
}

/// The multisample state of the pipeline.
#[derive(Clone, Copy, Debug, PartialEq, Eq, Structural)]
pub struct MultisampleDesc {
    pub count: u32,
    pub mask: u64,
    pub alpha_to_coverage_enabled: bool,
}

/// The surface color format the pipeline renders to, carried as the opaque
/// format code under which the shell registered it. The factory never
/// inspects it; it only passes it through to the color target.
#[derive(Clone, Copy, Debug, PartialEq, Eq, Structural)]
pub struct SurfaceFormat {
    pub code: u32,
}

/// The shader stage a binding is visible to.
#[derive(Clone, Copy, Debug, PartialEq, Eq, Structural)]
pub enum ShaderStage {
    Vertex,
    Fragment,
}

/// The type of one bound resource.
#[derive(Clone, Copy, Debug, PartialEq, Eq, Structural)]
pub enum BindingTypeDesc {
    UniformBuffer { has_dynamic_offset: bool },
    Texture2dFloat { multisampled: bool, filterable: bool },
    FilteringSampler,
}

/// One entry of a bind-group layout.
#[derive(Clone, Copy, Debug, PartialEq, Eq, Structural)]
pub struct BindGroupLayoutEntryDesc {
    pub binding: u32,
    pub visibility: ShaderStage,
    pub ty: BindingTypeDesc,
}

/// A bind-group layout: its entries in binding order.
#[derive(Clone, Debug)]
pub struct BindGroupLayoutDesc {
    pub entries: Vec<BindGroupLayoutEntryDesc>,
}

/// The complete render-pipeline configuration. The color target's blend
/// state is off and its write mask covers all four channels.
#[derive(Clone, Debug)]
pub struct PipelineDesc {
    pub vertex_entry: ShaderEntry,
    pub fragment_entry: ShaderEntry,
    pub vertex_buffers: Vec<VertexBufferLayoutDesc>,
    pub primitive: PrimitiveStateDesc,
    pub depth_stencil: Option<DepthStencilDesc>,
    pub multisample: MultisampleDesc,
    pub color_format: SurfaceFormat,
    pub color_has_blend: bool,
    pub color_write_mask: u32,
}

/// The cube's vertex buffer layout: 24-byte stride, per-vertex stepping, a
/// four-float position at offset 0 (location 0) and a two-float texture
/// coordinate at offset 16 (location 1).
pub open spec fn is_cube_vertex_layout(l: VertexBufferLayoutDesc) -> bool {
    &&& l.array_stride == GPU_VERTEX_STRIDE
    &&& l.step_mode == VertexStepMode::Vertex
    &&& l.attributes@.len() == 2
    &&& l.attributes@[0] == (VertexAttributeDesc {
        format: VertexFormat::Float32x4,
        offset: 0,
        shader_location: 0,
    })
    &&& l.attributes@[1] == (VertexAttributeDesc {
        format: VertexFormat::Float32x2,
        offset: GPU_TEX_COORD_OFFSET,
        shader_location: 1,
    })
}

/// Bind group 0: a filterable 2D float texture and a filtering sampler, both
/// visible to the fragment stage.
pub open spec fn is_texture_bind_group_layout(d: BindGroupLayoutDesc) -> bool {
    &&& d.entries@.len() == 2
    &&& d.entries@[0] == (BindGroupLayoutEntryDesc {
        binding: 0,
        visibility: ShaderStage::Fragment,
        ty: BindingTypeDesc::Texture2dFloat { multisampled: false, filterable: true },
    })
    &&& d.entries@[1] == (BindGroupLayoutEntryDesc {
        binding: 1,
        visibility: ShaderStage::Fragment,
        ty: BindingTypeDesc::FilteringSampler,
    })
}

/// Bind group 1: the camera uniform buffer, visible to the vertex stage.
pub open spec fn is_camera_bind_group_layout(d: BindGroupLayoutDesc) -> bool {
    &&& d.entries@.len() == 1
    &&& d.entries@[0] == (BindGroupLayoutEntryDesc {
        binding: 0,
        visibility: ShaderStage::Vertex,
        ty: BindingTypeDesc::UniformBuffer { has_dynamic_offset: false },
    })
}

/// The exact pipeline configuration of the cube pass for a given surface
/// color format: `vs_main`/`fs_main` entry points, the cube vertex layout,
/// back-face culling of clockwise-wound triangles over a triangle list,
/// depth writes through the reversed-Z compare function into a 32-bit float
/// depth buffer, no multisampling, no blending.
pub open spec fn is_cube_pipeline(p: PipelineDesc, format: SurfaceFormat) -> bool {
    &&& p.vertex_entry == ShaderEntry::VsMain
    &&& p.fragment_entry == ShaderEntry::FsMain
    &&& p.vertex_buffers@.len() == 1
    &&& is_cube_vertex_layout(p.vertex_buffers@[0])
    &&& p.primitive == (PrimitiveStateDesc {
        topology: PrimitiveTopology::TriangleList,
        strip_index_format: None,
        front_face: FrontFace::Ccw,
        cull_mode: Some(Face::Back),
        unclipped_depth: false,
        polygon_mode: PolygonMode::Fill,
        conservative: false,
    })
    &&& p.depth_stencil == Some(
        DepthStencilDesc {
            format: DepthFormat::Depth32Float,
            depth_write_enabled: true,
            depth_compare: compare_spec(scene_depth_policy()),
        },
    )
    &&& p.multisample == (MultisampleDesc {
        count: 1,
        mask: 0xFFFF_FFFF_FFFF_FFFF,
        alpha_to_coverage_enabled: false,
    })
    &&& p.color_format == format
    &&& !p.color_has_blend
    &&& p.color_write_mask == 0xF
}

/// Builds the cube's vertex buffer layout.
pub fn build_vertex_layout() -> (l: VertexBufferLayoutDesc)
    ensures
        is_cube_vertex_layout(l),
{
    let mut attributes: Vec<VertexAttributeDesc> = Vec::new();
    attributes.push(VertexAttributeDesc {
        format: VertexFormat::Float32x4,
        offset: 0,
        shader_location: 0,
    });
    attributes.push(VertexAttributeDesc {
        format: VertexFormat::Float32x2,
        offset: GPU_TEX_COORD_OFFSET,
        shader_location: 1,
    });
    VertexBufferLayoutDesc { array_stride: GPU_VERTEX_STRIDE, step_mode: VertexStepMode::Vertex, attributes }
}

/// Builds the layout of bind group 0 (texture and sampler).
pub fn build_texture_bind_group_layout() -> (d: BindGroupLayoutDesc)
    ensures
        is_texture_bind_group_layout(d),
{
    let mut entries: Vec<BindGroupLayoutEntryDesc> = Vec::new();
    entries.push(BindGroupLayoutEntryDesc {
        binding: 0,
        visibility: ShaderStage::Fragment,
        ty: BindingTypeDesc::Texture2dFloat { multisampled: false, filterable: true },
    });
    entries.push(BindGroupLayoutEntryDesc {
        binding: 1,
        visibility: ShaderStage::Fragment,
        ty: BindingTypeDesc::FilteringSampler,
    });
    BindGroupLayoutDesc { entries }
}

/// Builds the layout of bind group 1 (camera uniform buffer).
pub fn build_camera_bind_group_layout() -> (d: BindGroupLayoutDesc)
    ensures
        is_camera_bind_group_layout(d),
{
    let mut entries: Vec<BindGroupLayoutEntryDesc> = Vec::new();
    entries.push(BindGroupLayoutEntryDesc {
        binding: 0,
        visibility: ShaderStage::Vertex,
        ty: BindingTypeDesc::UniformBuffer { has_dynamic_offset: false },
    });
    BindGroupLayoutDesc { entries }
}

/// Builds the complete pipeline configuration for the given surface color
/// format, in one atomic construction: every field of the result is pinned,
/// so the construction cannot be observed partially done, and identical
/// inputs yield identical configurations.
pub fn build_pipeline(format: SurfaceFormat) -> (p: PipelineDesc)
    ensures
        is_cube_pipeline(p, format),
{
    let layout = build_vertex_layout();
    let mut vertex_buffers: Vec<VertexBufferLayoutDesc> = Vec::new();
    vertex_buffers.push(layout);
    let policy = DepthPolicy::ReversedZ;
    PipelineDesc {
        vertex_entry: ShaderEntry::VsMain,
        fragment_entry: ShaderEntry::FsMain,
        vertex_buffers,
        primitive: PrimitiveStateDesc {
            topology: PrimitiveTopology::TriangleList,
            strip_index_format: None,
            front_face: FrontFace::Ccw,
            cull_mode: Some(Face::Back),
            unclipped_depth: false,
            polygon_mode: PolygonMode::Fill,
            conservative: false,
        },
        depth_stencil: Some(
            DepthStencilDesc {
                format: DepthFormat::Depth32Float,
                depth_write_enabled: true,
                depth_compare: policy.compare_function(),
            },
        ),
        multisample: MultisampleDesc {
            count: 1,
            mask: 0xFFFF_FFFF_FFFF_FFFF,
            alpha_to_coverage_enabled: false,
        },
        color_format: format,
        color_has_blend: false,
        color_write_mask: 0xF,
    }
}

/// Functional identity of two pipeline configurations: every fixed-function
/// field agrees and the vertex buffer layouts hold the same data.
pub open spec fn pipeline_functionally_eq(p1: PipelineDesc, p2: PipelineDesc) -> bool {
    &&& p1.vertex_entry == p2.vertex_entry
    &&& p1.fragment_entry == p2.fragment_entry
    &&& p1.vertex_buffers@.len() == p2.vertex_buffers@.len()
    &&& forall|i: int|
        0 <= i < p1.vertex_buffers@.len() ==> {
            &&& (#[trigger] p1.vertex_buffers@[i]).array_stride == p2.vertex_buffers@[i].array_stride
            &&& p1.vertex_buffers@[i].step_mode == p2.vertex_buffers@[i].step_mode
            &&& p1.vertex_buffers@[i].attributes@ == p2.vertex_buffers@[i].attributes@
        }
    &&& p1.primitive == p2.primitive
    &&& p1.depth_stencil == p2.depth_stencil
    &&& p1.multisample == p2.multisample
    &&& p1.color_format == p2.color_format
    &&& p1.color_has_blend == p2.color_has_blend
    &&& p1.color_write_mask == p2.color_write_mask
}

/// Pipeline construction is deterministic: any two configurations built for
/// the same surface format are functionally identical — there is no hidden
/// state a second construction could pick up.
pub proof fn lemma_pipeline_construction_deterministic(
    p1: PipelineDesc,
    p2: PipelineDesc,
    format: SurfaceFormat,
)
    requires
        is_cube_pipeline(p1, format),
        is_cube_pipeline(p2, format),
    ensures
        pipeline_functionally_eq(p1, p2),
{
    assert(p1.vertex_buffers@[0].attributes@ =~= p2.vertex_buffers@[0].attributes@);
}

/// Bind-group-layout construction is deterministic in the same way: two
/// texture layouts, or two camera layouts, hold exactly the same entries.
pub proof fn lemma_bind_group_layouts_deterministic(
    t1: BindGroupLayoutDesc,
    t2: BindGroupLayoutDesc,
    c1: BindGroupLayoutDesc,
    c2: BindGroupLayoutDesc,
)
    requires
        is_texture_bind_group_layout(t1),
        is_texture_bind_group_layout(t2),
        is_camera_bind_group_layout(c1),
        is_camera_bind_group_layout(c2),
    ensures
        t1.entries@ == t2.entries@,
        c1.entries@ == c2.entries@,
{
    assert(t1.entries@ =~= t2.entries@);
    assert(c1.entries@ =~= c2.entries@);
}

} // verus!
