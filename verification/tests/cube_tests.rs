use cube::camera::Camera;
use cube::frame::{compose_frame, FrameComposer, FrameStage, OverlayText, RenderCommand};
use cube::frame::overlay_text_content;
use cube::mesh::{build_cube, index_bytes, Vertex};
use cube::pipeline::{
    build_camera_bind_group_layout, build_pipeline, build_texture_bind_group_layout,
    depth_test_passes, entry_point_name, BindingTypeDesc, CompareFunction, DepthFormat,
    DepthPolicy, Face, FrontFace, IndexFormat, PolygonMode, PrimitiveTopology, ShaderEntry,
    ShaderStage, SurfaceFormat, VertexFormat, VertexStepMode,
};
use cube::scene::build_scene;
use cube::screen::ScreenCoords;
use cube::uniform::{uniform_bytes, CameraUniform, Mat4Bits, Vec4Bits, F32_ONE_BITS};

fn sample_matrix() -> Mat4Bits {
    // An asymmetric matrix of exact f32 values, one distinct entry per cell.
    let e = |v: f32| v.to_bits();
    Mat4Bits {
        x_axis: Vec4Bits { x: e(0.5), y: e(-3.25), z: e(7.0), w: e(0.125) },
        y_axis: Vec4Bits { x: e(1.0), y: e(2.5), z: e(-0.75), w: e(42.0) },
        z_axis: Vec4Bits { x: e(-1.5), y: e(0.0), z: e(9.625), w: e(-2.0) },
        w_axis: Vec4Bits { x: e(100.0), y: e(0.0625), z: e(-8.5), w: e(1.0) },
    }
}

#[test]
fn mesh_has_24_vertices_and_36_indices() {
    let (verts, inds) = build_cube();
    assert_eq!(verts.len(), 24);
    assert_eq!(inds.len(), 36);
    for &i in &inds {
        assert!(i < 24);
    }
}

#[test]
fn mesh_matches_reference_data() {
    let (verts, inds) = build_cube();
    let expected: [([i8; 3], [i8; 2]); 24] = [
        // top (0, 0, 1)
        ([-1, -1, 1], [0, 0]),
        ([1, -1, 1], [1, 0]),
        ([1, 1, 1], [1, 1]),
        ([-1, 1, 1], [0, 1]),
        // bottom (0, 0, -1)
        ([-1, 1, -1], [1, 0]),
        ([1, 1, -1], [0, 0]),
        ([1, -1, -1], [0, 1]),
        ([-1, -1, -1], [1, 1]),
        // right (1, 0, 0)
        ([1, -1, -1], [0, 0]),
        ([1, 1, -1], [1, 0]),
        ([1, 1, 1], [1, 1]),
        ([1, -1, 1], [0, 1]),
        // left (-1, 0, 0)
        ([-1, -1, 1], [1, 0]),
        ([-1, 1, 1], [0, 0]),
        ([-1, 1, -1], [0, 1]),
        ([-1, -1, -1], [1, 1]),
        // front (0, 1, 0)
        ([1, 1, -1], [1, 0]),
        ([-1, 1, -1], [0, 0]),
        ([-1, 1, 1], [0, 1]),
        ([1, 1, 1], [1, 1]),
        // back (0, -1, 0)
        ([1, -1, 1], [0, 0]),
        ([-1, -1, 1], [1, 0]),
        ([-1, -1, -1], [1, 1]),
        ([1, -1, -1], [0, 1]),
    ];
    for (v, (p, t)) in verts.iter().zip(expected.iter()) {
        assert_eq!(v.pos, *p);
        assert_eq!(v.tex_coord, *t);
    }
    let expected_indices: [u32; 36] = [
        0, 1, 2, 2, 3, 0, // top
        4, 5, 6, 6, 7, 4, // bottom
        8, 9, 10, 10, 11, 8, // right
        12, 13, 14, 14, 15, 12, // left
        16, 17, 18, 18, 19, 16, // front
        20, 21, 22, 22, 23, 20, // back
    ];
    assert_eq!(inds.as_slice(), expected_indices.as_slice());
}

#[test]
fn mesh_indices_stay_on_their_face() {
    let (_, inds) = build_cube();
    for (k, &i) in inds.iter().enumerate() {
        let face = (k / 6) as u32;
        assert!(4 * face <= i && i < 4 * face + 4);
    }
}

#[test]
fn mesh_face_corners_are_distinct_within_each_face() {
    let (verts, _) = build_cube();
    for f in 0..6 {
        for a in 0..4 {
            for b in 0..4 {
                if a != b {
                    let va: &Vertex = &verts[4 * f + a];
                    let vb: &Vertex = &verts[4 * f + b];
                    assert_ne!(va.pos, vb.pos);
                }
            }
        }
    }
}

#[test]
fn vertex_new_keeps_its_data() {
    let v = Vertex::new([1, -1, 1], [0, 1]);
    assert_eq!(v.pos, [1, -1, 1]);
    assert_eq!(v.tex_coord, [0, 1]);
}

#[test]
fn index_bytes_are_little_endian() {
    let (_, inds) = build_cube();
    let bytes = index_bytes(&inds);
    let mut expected: Vec<u8> = Vec::new();
    for &i in &inds {
        expected.extend_from_slice(&i.to_le_bytes());
    }
    assert_eq!(bytes, expected);
}

#[test]
fn uniform_new_holds_identity() {
    let u = CameraUniform::new();
    for r in 0..4 {
        for c in 0..4 {
            let expect = if r == c { 1.0f32 } else { 0.0f32 };
            assert_eq!(u.view_proj[r][c], expect.to_bits());
        }
    }
    assert_eq!(F32_ONE_BITS, 1.0f32.to_bits());
}

#[test]
fn uniform_round_trips_exactly() {
    let m = sample_matrix();
    let mut u = CameraUniform::new();
    u.update_view_proj(&m);
    let back = u.to_matrix();
    assert_eq!(back, m);
}

#[test]
fn uniform_bytes_match_f32_le_layout() {
    let m = sample_matrix();
    let mut u = CameraUniform::new();
    u.update_view_proj(&m);
    let bytes = uniform_bytes(&u);
    assert_eq!(bytes.len(), 64);
    let cols = [m.x_axis, m.y_axis, m.z_axis, m.w_axis];
    let mut expected: Vec<u8> = Vec::new();
    for col in cols {
        for w in [col.x, col.y, col.z, col.w] {
            expected.extend_from_slice(&f32::from_bits(w).to_le_bytes());
        }
    }
    assert_eq!(bytes, expected);
}

#[test]
fn uniform_bytes_deterministic() {
    let m = sample_matrix();
    let mut u1 = CameraUniform::new();
    u1.update_view_proj(&m);
    let mut u2 = CameraUniform::new();
    u2.update_view_proj(&m);
    assert_eq!(uniform_bytes(&u1), uniform_bytes(&u2));
}

#[test]
fn default_camera_holds_the_reference_values() {
    let c = Camera::default();
    assert_eq!(f32::from_bits(c.eye.x), 0.0);
    assert_eq!(f32::from_bits(c.eye.y), 1.0);
    assert_eq!(f32::from_bits(c.eye.z), 2.0);
    assert_eq!(f32::from_bits(c.target.x), 0.0);
    assert_eq!(f32::from_bits(c.target.y), 0.0);
    assert_eq!(f32::from_bits(c.target.z), 0.0);
    assert_eq!(f32::from_bits(c.up.x), 0.0);
    assert_eq!(f32::from_bits(c.up.y), 1.0);
    assert_eq!(f32::from_bits(c.up.z), 0.0);
    assert_eq!(f32::from_bits(c.aspect), 16.0 / 9.0);
    assert_eq!(f32::from_bits(c.fovy), 45.0);
    assert_eq!(f32::from_bits(c.znear), 0.1);
    assert_eq!(f32::from_bits(c.zfar), 100.0);
}

#[test]
fn view_projection_inputs_hold_the_scene_constants() {
    let c = Camera::default();
    let (la, pp) = c.view_projection_inputs();
    assert_eq!(f32::from_bits(la.eye.x), 1.5);
    assert_eq!(f32::from_bits(la.eye.y), -5.0);
    assert_eq!(f32::from_bits(la.eye.z), 3.0);
    assert_eq!(f32::from_bits(la.target.x), 0.0);
    assert_eq!(f32::from_bits(la.target.y), 0.0);
    assert_eq!(f32::from_bits(la.target.z), 0.0);
    assert_eq!(f32::from_bits(la.up.x), 0.0);
    assert_eq!(f32::from_bits(la.up.y), 0.0);
    assert_eq!(f32::from_bits(la.up.z), 1.0);
    assert_eq!(f32::from_bits(pp.fovy), std::f32::consts::PI / 4.0);
    assert_eq!(f32::from_bits(pp.aspect), 4.0 / 3.0);
    assert_eq!(f32::from_bits(pp.znear), 1.0);
    assert_eq!(f32::from_bits(pp.zfar), 10.0);
}

#[test]
fn depth_policy_pairs_clear_value_with_compare_function() {
    let reversed = DepthPolicy::ReversedZ;
    assert_eq!(reversed.clear_value_bits(), 0.0f32.to_bits());
    assert_eq!(reversed.compare_function(), CompareFunction::Greater);
    let conventional = DepthPolicy::ConventionalZ;
    assert_eq!(conventional.clear_value_bits(), 1.0f32.to_bits());
    assert_eq!(conventional.compare_function(), CompareFunction::Less);
}

#[test]
fn reversed_depth_test_lets_the_larger_depth_win() {
    let half = 0.5f32.to_bits();
    let third = 0.3f32.to_bits();
    // A fragment at 0.5 drawn after a fragment at 0.3 at the same pixel wins.
    assert!(depth_test_passes(CompareFunction::Greater, half, third));
    // The opposite order loses, and conventional "less" would invert both.
    assert!(!depth_test_passes(CompareFunction::Greater, third, half));
    assert!(!depth_test_passes(CompareFunction::Less, half, third));
    assert!(depth_test_passes(CompareFunction::Less, third, half));
    // Against the reversed-Z clear value of 0.0, any drawn fragment wins.
    assert!(depth_test_passes(
        CompareFunction::Greater,
        third,
        DepthPolicy::ReversedZ.clear_value_bits(),
    ));
}

#[test]
fn pipeline_configuration_holds_the_reference_values() {
    let format = SurfaceFormat { code: 7 };
    let p = build_pipeline(format);
    assert_eq!(entry_point_name(p.vertex_entry), "vs_main");
    assert_eq!(entry_point_name(p.fragment_entry), "fs_main");
    assert_eq!(p.vertex_buffers.len(), 1);
    let layout = &p.vertex_buffers[0];
    assert_eq!(layout.array_stride, 24);
    assert_eq!(layout.step_mode, VertexStepMode::Vertex);
    assert_eq!(layout.attributes.len(), 2);
    assert_eq!(layout.attributes[0].format, VertexFormat::Float32x4);
    assert_eq!(layout.attributes[0].offset, 0);
    assert_eq!(layout.attributes[0].shader_location, 0);
    assert_eq!(layout.attributes[1].format, VertexFormat::Float32x2);
    assert_eq!(layout.attributes[1].offset, 16);
    assert_eq!(layout.attributes[1].shader_location, 1);
    assert_eq!(p.primitive.topology, PrimitiveTopology::TriangleList);
    assert_eq!(p.primitive.strip_index_format, None);
    assert_eq!(p.primitive.front_face, FrontFace::Ccw);
    assert_eq!(p.primitive.cull_mode, Some(Face::Back));
    assert!(!p.primitive.unclipped_depth);
    assert_eq!(p.primitive.polygon_mode, PolygonMode::Fill);
    assert!(!p.primitive.conservative);
    let ds = p.depth_stencil.unwrap();
    assert_eq!(ds.format, DepthFormat::Depth32Float);
    assert!(ds.depth_write_enabled);
    assert_eq!(ds.depth_compare, CompareFunction::Greater);
    assert_eq!(p.multisample.count, 1);
    assert_eq!(p.multisample.mask, !0u64);
    assert!(!p.multisample.alpha_to_coverage_enabled);
    assert_eq!(p.color_format, format);
    assert!(!p.color_has_blend);
    assert_eq!(p.color_write_mask, 0xF);
}

#[test]
fn pipeline_construction_is_idempotent() {
    let format = SurfaceFormat { code: 3 };
    let p1 = build_pipeline(format);
    let p2 = build_pipeline(format);
    assert_eq!(p1.vertex_entry, p2.vertex_entry);
    assert_eq!(p1.fragment_entry, p2.fragment_entry);
    assert_eq!(p1.vertex_buffers.len(), p2.vertex_buffers.len());
    assert_eq!(p1.vertex_buffers[0].array_stride, p2.vertex_buffers[0].array_stride);
    assert_eq!(p1.vertex_buffers[0].step_mode, p2.vertex_buffers[0].step_mode);
    assert_eq!(p1.vertex_buffers[0].attributes, p2.vertex_buffers[0].attributes);
    assert_eq!(p1.primitive, p2.primitive);
    assert_eq!(p1.depth_stencil, p2.depth_stencil);
    assert_eq!(p1.multisample, p2.multisample);
    assert_eq!(p1.color_format, p2.color_format);
    assert_eq!(p1.color_has_blend, p2.color_has_blend);
    assert_eq!(p1.color_write_mask, p2.color_write_mask);
    let t1 = build_texture_bind_group_layout();
    let t2 = build_texture_bind_group_layout();
    assert_eq!(t1.entries, t2.entries);
    let c1 = build_camera_bind_group_layout();
    let c2 = build_camera_bind_group_layout();
    assert_eq!(c1.entries, c2.entries);
}

#[test]
fn bind_group_layouts_hold_the_reference_entries() {
    let t = build_texture_bind_group_layout();
    assert_eq!(t.entries.len(), 2);
    assert_eq!(t.entries[0].binding, 0);
    assert_eq!(t.entries[0].visibility, ShaderStage::Fragment);
    assert_eq!(
        t.entries[0].ty,
        BindingTypeDesc::Texture2dFloat { multisampled: false, filterable: true }
    );
    assert_eq!(t.entries[1].binding, 1);
    assert_eq!(t.entries[1].visibility, ShaderStage::Fragment);
    assert_eq!(t.entries[1].ty, BindingTypeDesc::FilteringSampler);
    let c = build_camera_bind_group_layout();
    assert_eq!(c.entries.len(), 1);
    assert_eq!(c.entries[0].binding, 0);
    assert_eq!(c.entries[0].visibility, ShaderStage::Vertex);
    assert_eq!(c.entries[0].ty, BindingTypeDesc::UniformBuffer { has_dynamic_offset: false });
}

#[test]
fn resize_sets_and_keeps_screen_coords() {
    let mut s = ScreenCoords { x: 0, y: 0, w: 1.0f32.to_bits(), h: 1.0f32.to_bits() };
    let w = 800.0f32.to_bits();
    let h = 600.0f32.to_bits();
    let req1 = s.on_resize(w, h);
    let after_first = s;
    let req2 = s.on_resize(w, h);
    // ScreenCoords stays at (0, 0, 800, 600)...
    assert_eq!(f32::from_bits(s.x), 0.0);
    assert_eq!(f32::from_bits(s.y), 0.0);
    assert_eq!(f32::from_bits(s.w), 800.0);
    assert_eq!(f32::from_bits(s.h), 600.0);
    // ...the second call changed nothing and asked for nothing new.
    assert_eq!(s.x, after_first.x);
    assert_eq!(s.y, after_first.y);
    assert_eq!(s.w, after_first.w);
    assert_eq!(s.h, after_first.h);
    assert_eq!(req1.w, req2.w);
    assert_eq!(req1.h, req2.h);
}

#[test]
fn frame_has_one_draw_then_two_texts() {
    let cmds = compose_frame();
    assert_eq!(cmds.len(), 12);
    let draws: Vec<usize> = cmds
        .iter()
        .enumerate()
        .filter_map(|(i, c)| match c {
            RenderCommand::DrawIndexed { .. } => Some(i),
            _ => None,
        })
        .collect();
    assert_eq!(draws, vec![6]);
    assert_eq!(
        cmds[6],
        RenderCommand::DrawIndexed { index_count: 36, instance_count: 1, first_index: 0, base_vertex: 0 }
    );
    let texts: Vec<usize> = cmds
        .iter()
        .enumerate()
        .filter_map(|(i, c)| match c {
            RenderCommand::DrawText { .. } => Some(i),
            _ => None,
        })
        .collect();
    assert_eq!(texts, vec![9, 10]);
    assert!(draws[0] < texts[0]);
    assert_eq!(cmds[9], RenderCommand::DrawText { line: OverlayText::MixNote, x: 10, y: 210 });
    assert_eq!(cmds[10], RenderCommand::DrawText { line: OverlayText::OrderNote, x: 10, y: 250 });
    assert_eq!(cmds[11], RenderCommand::Submit);
}

#[test]
fn frame_clears_depth_to_zero_and_overlay_preserves_pixels() {
    let cmds = compose_frame();
    match cmds[0] {
        RenderCommand::BeginCubePass { clear_color, color_store, depth_clear_bits, depth_store } => {
            assert_eq!(f32::from_bits(clear_color.r), 0.1);
            assert_eq!(f32::from_bits(clear_color.g), 0.1);
            assert_eq!(f32::from_bits(clear_color.b), 0.1);
            assert_eq!(f32::from_bits(clear_color.a), 1.0);
            assert!(color_store);
            assert_eq!(depth_clear_bits, 0.0f32.to_bits());
            assert!(!depth_store);
        }
        _ => panic!("the frame must open with the cube pass"),
    }
    assert_eq!(cmds[8], RenderCommand::BeginOverlay { clear: None });
    match cmds[5] {
        RenderCommand::SetIndexBuffer { format } => assert_eq!(format, IndexFormat::Uint32),
        _ => panic!("the index buffer must be bound before the draw"),
    }
}

#[test]
fn composer_walks_every_stage_in_order() {
    let mut c = FrameComposer::new();
    assert_eq!(c.stage, FrameStage::Idle);
    c.acquire();
    assert_eq!(c.stage, FrameStage::Acquired);
    c.begin_cube_pass();
    assert_eq!(c.stage, FrameStage::ThreeDPassActive);
    c.draw_cube();
    assert_eq!(c.stage, FrameStage::ThreeDPassActive);
    c.end_cube_pass();
    assert_eq!(c.stage, FrameStage::ThreeDPassEnded);
    c.begin_overlay();
    assert_eq!(c.stage, FrameStage::TwoDPassActive);
    c.draw_overlay_text();
    c.submit();
    assert_eq!(c.stage, FrameStage::Submitted);
    let cmds = c.finish_frame();
    assert_eq!(c.stage, FrameStage::Idle);
    assert_eq!(cmds.len(), 12);
    assert_eq!(cmds, compose_frame());
}

#[test]
fn successive_frames_record_the_same_sequence() {
    let mut c = FrameComposer::new();
    let first = c.run_frame();
    assert_eq!(c.stage, FrameStage::Idle);
    let second = c.run_frame();
    assert_eq!(c.stage, FrameStage::Idle);
    assert_eq!(first, second);
    assert_eq!(first.len(), 12);
}

#[test]
fn overlay_text_holds_the_fixed_strings() {
    assert_eq!(overlay_text_content(OverlayText::MixNote), "You can mix ggez and wgpu drawing;");
    assert_eq!(
        overlay_text_content(OverlayText::OrderNote),
        "it basically draws wgpu stuff first, then ggez"
    );
}

#[test]
fn entry_points_hold_the_shader_names() {
    assert_eq!(entry_point_name(ShaderEntry::VsMain), "vs_main");
    assert_eq!(entry_point_name(ShaderEntry::FsMain), "fs_main");
}

#[test]
fn scene_setup_gathers_every_piece() {
    let format = SurfaceFormat { code: 1 };
    let m = sample_matrix();
    let w = 1024.0f32.to_bits();
    let h = 768.0f32.to_bits();
    let s = build_scene(format, &m, w, h);
    assert_eq!(s.camera, Camera::default());
    assert_eq!(s.uniform.view_proj[0][0], m.x_axis.x);
    assert_eq!(s.uniform.view_proj[3][3], m.w_axis.w);
    assert_eq!(s.uniform_data, uniform_bytes(&s.uniform));
    assert_eq!(s.vertices.len(), 24);
    assert_eq!(s.indices.len(), 36);
    assert_eq!(s.index_data, index_bytes(&s.indices));
    assert_eq!(s.pipeline.color_format, format);
    assert_eq!(s.texture_layout.entries.len(), 2);
    assert_eq!(s.camera_layout.entries.len(), 1);
    assert_eq!((s.texture_color.r, s.texture_color.g, s.texture_color.b), (0x20, 0xA0, 0xC0));
    assert_eq!(s.screen.w, w);
    assert_eq!(s.screen.h, h);
}
