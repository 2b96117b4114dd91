//! Scene setup: everything the one-time initialization decides, gathered
//! into a single owned value.
//!
//! This is the compute core of startup: the default camera, the packed
//! camera uniform and its upload bytes, the cube geometry and its index
//! bytes, the pipeline configuration with both bind-group layouts, the solid
//! texture color and the initial screen rectangle. The unverified shell
//! feeds in the surface format, the view-projection matrix it computed in
//! floating point, and the drawable size, then creates the GPU objects from
//! the returned descriptors. Construction is atomic: the value exists only
//! with every field filled as specified.

use crate::camera::{camera_well_formed, default_camera, Camera};
use crate::mesh::{build_cube, index_bytes, index_bytes_spec, is_cube_indices, is_cube_vertices, Vertex};
use crate::pipeline::{
    build_camera_bind_group_layout, build_pipeline, build_texture_bind_group_layout,
    is_camera_bind_group_layout, is_cube_pipeline, is_texture_bind_group_layout,
    BindGroupLayoutDesc, PipelineDesc, SurfaceFormat,
};
use crate::screen::ScreenCoords;
use crate::uniform::{
    uniform_bytes, uniform_bytes_spec, uniform_matches, CameraUniform, Mat4Bits,
};
use vstd::prelude::*;

verus! {

/// The solid color of the 1x1 texture the cube samples, as 8-bit channels.
#[derive(Clone, Copy, Debug, PartialEq, Eq, Structural)]
pub struct TextureColor {
    pub r: u8,
    pub g: u8,
    pub b: u8,
}

/// The fixed blue of the cube's texture.
pub open spec fn cube_texture_color() -> TextureColor {
    TextureColor { r: 0x20, g: 0xA0, b: 0xC0 }
}

/// The one-time scene setup, owned by the frame composer's driver for the
/// life of the program.
pub struct SceneSetup {
    pub camera: Camera,
    pub uniform: CameraUniform,
    pub uniform_data: Vec<u8>,
    pub vertices: Vec<Vertex>,
    pub indices: Vec<u32>,
    pub index_data: Vec<u8>,
    pub pipeline: PipelineDesc,
    pub texture_layout: BindGroupLayoutDesc,
    pub camera_layout: BindGroupLayoutDesc,
    pub texture_color: TextureColor,
    pub screen: ScreenCoords,
}

/// What a finished setup holds for a given surface format, view-projection
/// matrix and drawable size (width and height as `f32` bit patterns).
pub open spec fn scene_well_formed(
    s: SceneSetup,
    format: SurfaceFormat,
    view_proj: Mat4Bits,
    drawable_w: u32,
    drawable_h: u32,
) -> bool {
    &&& s.camera == default_camera()
    &&& camera_well_formed(s.camera)
    &&& uniform_matches(s.uniform, view_proj)
    &&& s.uniform_data@ == uniform_bytes_spec(s.uniform)
    &&& is_cube_vertices(s.vertices@)
    &&& is_cube_indices(s.indices@)
    &&& s.index_data@ == index_bytes_spec(s.indices@)
    &&& is_cube_pipeline(s.pipeline, format)
    &&& is_texture_bind_group_layout(s.texture_layout)
    &&& is_camera_bind_group_layout(s.camera_layout)
    &&& s.texture_color == cube_texture_color()
    &&& s.screen == (ScreenCoords { x: 0, y: 0, w: drawable_w, h: drawable_h })
}

/// Builds the whole scene setup in one atomic construction. `view_proj` is
/// the view-projection matrix the shell computed from
/// [`Camera::view_projection_inputs`](crate::camera::Camera::view_projection_inputs);
/// `drawable_w` and `drawable_h` are the drawable size as `f32` bit
/// patterns.
pub fn build_scene(
    format: SurfaceFormat,
    view_proj: &Mat4Bits,
    drawable_w: u32,
    drawable_h: u32,
) -> (s: SceneSetup)
    ensures
        scene_well_formed(s, format, *view_proj, drawable_w, drawable_h),
{
    let camera = Camera::default();
    let mut uniform = CameraUniform::new();
    uniform.update_view_proj(view_proj);
    let uniform_data = uniform_bytes(&uniform);
    let (vertices, indices) = build_cube();
    let index_data = index_bytes(&indices);
    let pipeline = build_pipeline(format);
    let texture_layout = build_texture_bind_group_layout();
    let camera_layout = build_camera_bind_group_layout();
    SceneSetup {
        camera,
        uniform,
        uniform_data,
        vertices,
        indices,
        index_data,
        pipeline,
        texture_layout,
        camera_layout,
        texture_color: TextureColor { r: 0x20, g: 0xA0, b: 0xC0 },
        screen: ScreenCoords { x: 0, y: 0, w: drawable_w, h: drawable_h },
    }
}

} // verus!
