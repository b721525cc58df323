use triangle_renderer::pipeline::{
    render_pipeline, select_backend, select_format, BackendChoice, BackendSet, Blend, CullMode,
    FrontFace, LimitsChoice, PolygonMode, TargetCapabilities, Topology,
};
use triangle_renderer::vertex::{
    triangle, triangle_bytes, vertex_bytes, StepMode, Vertex, VertexAttribute, VertexFormat,
    COLOR_OFFSET, VERTEX_STRIDE,
};

fn floats(bytes: &[u8]) -> Vec<f32> {
    bytes
        .chunks(4)
        .map(|c| f32::from_le_bytes([c[0], c[1], c[2], c[3]]))
        .collect()
}

#[test]
fn geometry_bytes_read_back_as_triangle() {
    let bytes = triangle_bytes();
    assert_eq!(bytes.len(), 72);
    assert_eq!(
        floats(&bytes),
        vec![
            0.0, 0.5, 0.0, 1.0, 0.0, 0.0, //
            -0.5, -0.5, 0.0, 0.0, 1.0, 0.0, //
            0.5, -0.5, 0.0, 0.0, 0.0, 1.0,
        ]
    );
    assert_eq!(triangle_bytes(), bytes);
}

#[test]
fn vertex_words_are_float_bits() {
    let vs = triangle();
    assert_eq!(vs.len(), 3);
    assert_eq!(vs[0].position.map(f32::from_bits), [0.0, 0.5, 0.0]);
    assert_eq!(vs[0].color.map(f32::from_bits), [1.0, 0.0, 0.0]);
    assert_eq!(vs[1].position.map(f32::from_bits), [-0.5, -0.5, 0.0]);
    assert_eq!(vs[1].color.map(f32::from_bits), [0.0, 1.0, 0.0]);
    assert_eq!(vs[2].position.map(f32::from_bits), [0.5, -0.5, 0.0]);
    assert_eq!(vs[2].color.map(f32::from_bits), [0.0, 0.0, 1.0]);
}

#[test]
fn vertex_bytes_are_little_endian() {
    let v = Vertex { position: [0x0403_0201, 0, 0xFFFF_FFFF], color: [0x1000_0000, 7, 0x0000_ff00] };
    let b = vertex_bytes(&vec![v]);
    assert_eq!(
        b,
        vec![1, 2, 3, 4, 0, 0, 0, 0, 255, 255, 255, 255, 0, 0, 0, 16, 7, 0, 0, 0, 0, 255, 0, 0]
    );
    assert!(vertex_bytes(&vec![]).is_empty());
}

#[test]
fn vertex_layout_is_tightly_packed() {
    let l = Vertex::desc();
    assert_eq!(l.array_stride, 24);
    assert_eq!(VERTEX_STRIDE, 24);
    assert_eq!(COLOR_OFFSET, 12);
    assert_eq!(l.step_mode, StepMode::Vertex);
    assert_eq!(
        l.attributes,
        vec![
            VertexAttribute { offset: 0, shader_location: 0, format: VertexFormat::Float32x3 },
            VertexAttribute { offset: 12, shader_location: 1, format: VertexFormat::Float32x3 },
        ]
    );
}

#[test]
fn pipeline_fixed_state() {
    let p = render_pipeline(2);
    assert_eq!(p.vertex_entry, "vs_main");
    assert_eq!(p.fragment_entry, "fs_main");
    assert_eq!(p.vertex_buffers.len(), 1);
    assert_eq!(p.vertex_buffers[0].array_stride, 24);
    assert_eq!(p.target_format, 2);
    assert_eq!(p.topology, Topology::TriangleList);
    assert_eq!(p.front_face, FrontFace::Ccw);
    assert_eq!(p.cull_mode, Some(CullMode::Back));
    assert_eq!(p.polygon_mode, PolygonMode::Fill);
    assert_eq!(p.blend, Blend::Replace);
    assert!(p.write_all_channels);
    assert!(!p.depth_stencil);
    assert!(!p.unclipped_depth);
    assert!(!p.conservative);
    assert_eq!(p.sample_count, 1);
    assert_eq!(p.sample_mask, !0u64);
    assert!(!p.alpha_to_coverage);
}

#[test]
fn format_prefers_first_srgb() {
    assert_eq!(select_format(&vec![false, true, true]), Some(1));
    assert_eq!(select_format(&vec![true, false]), Some(0));
    assert_eq!(select_format(&vec![false, false, false]), Some(0));
    assert_eq!(select_format(&vec![false, false, true]), Some(2));
    assert_eq!(select_format(&vec![]), None);
}

#[test]
fn backend_per_target() {
    assert_eq!(
        select_backend(TargetCapabilities::Native),
        BackendChoice { backends: BackendSet::Primary, limits: LimitsChoice::Default }
    );
    assert_eq!(
        select_backend(TargetCapabilities::Web),
        BackendChoice { backends: BackendSet::Gl, limits: LimitsChoice::DownlevelWebgl2 }
    );
}
