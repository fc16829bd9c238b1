//! The renderer: construction, setup state, command sequences, grow-only
//! buffers.

use crank::CenteredView;
use crank::Color;
use crank::GeometryBuffer;
use crank::GpuCommand;
use crank::PrimitiveKind;
use crank::Rectangle;
use crank::RenderBatch;
use crank::RenderError;
use crank::Renderer;
use crank::Scalar;
use crank::TextureId;
use crank::UniformLocations;
use crank::UniformName;
use crank::Vec2;
use crank::Vec3;
use crank::Vertex;

fn locations() -> UniformLocations {
    UniformLocations { translation: 0, scale: 1, layers: 2 }
}

fn dummy_vertices(n: usize) -> Vec<Vertex> {
    let zero = Scalar { num: 0, den: 1 };
    let v = Vertex {
        position: Vec3 { x: zero, y: zero, z: zero },
        color: Color { r: zero, g: zero, b: zero, a: zero },
        tex_coord: Vec2 { x: zero, y: zero },
    };
    let mut out = Vec::new();
    for _ in 0..n {
        out.push(v);
    }
    out
}

#[test]
fn construction_reports_first_missing_uniform() {
    let r = Renderer::new(UniformLocations { translation: -1, scale: 1, layers: 2 });
    assert_eq!(r.unwrap_err(), RenderError::MissingUniform(UniformName::Translation));
    let r = Renderer::new(UniformLocations { translation: 0, scale: -1, layers: 2 });
    assert_eq!(r.unwrap_err(), RenderError::MissingUniform(UniformName::Scale));
    let r = Renderer::new(UniformLocations { translation: 0, scale: 1, layers: -1 });
    assert_eq!(r.unwrap_err(), RenderError::MissingUniform(UniformName::Layers));
}

#[test]
fn construction_succeeds_with_valid_locations() {
    let renderer = Renderer::new(locations()).unwrap();
    assert_eq!(renderer.uniforms, locations());
    assert_eq!(renderer.buffer.vertex_capacity, 0);
    assert_eq!(renderer.buffer.index_capacity, 0);
}

#[test]
fn setup_commands_bind_the_vertex_layout() {
    let renderer = Renderer::new(locations()).unwrap();
    let cmds = renderer.setup_commands();
    assert_eq!(cmds.len(), 5);
    assert!(matches!(cmds[0], GpuCommand::EnableDepthTest));
    assert!(matches!(cmds[1], GpuCommand::EnableAlphaBlend));
    // position: slot 0, 3 floats at offset 0; color: slot 1, 4 floats at
    // offset 12; texCoord: slot 2, 2 floats at offset 28; stride 36 bytes.
    match cmds[2] {
        GpuCommand::ConfigureAttribute { slot, components, stride, offset } => {
            assert_eq!((slot, components, stride, offset), (0, 3, 36, 0));
        }
        _ => panic!("expected the position attribute"),
    }
    match cmds[3] {
        GpuCommand::ConfigureAttribute { slot, components, stride, offset } => {
            assert_eq!((slot, components, stride, offset), (1, 4, 36, 12));
        }
        _ => panic!("expected the color attribute"),
    }
    match cmds[4] {
        GpuCommand::ConfigureAttribute { slot, components, stride, offset } => {
            assert_eq!((slot, components, stride, offset), (2, 2, 36, 28));
        }
        _ => panic!("expected the texture-coordinate attribute"),
    }
}

#[test]
fn submit_uploads_exact_uniforms() {
    // View centered on the origin with size 512 x 512: translation [0, 0]
    // and scale [2/512, 2/512], exactly.
    let mut batch = RenderBatch::new();
    batch.set_view(CenteredView::new(Vec2::from_ints(0, 0), Vec2::from_ints(512, 512)));
    let mut renderer = Renderer::new(locations()).unwrap();
    let cmds = renderer.submit_batch(&batch);
    assert_eq!(cmds.len(), 2);
    assert!(matches!(cmds[0], GpuCommand::UseProgram));
    match &cmds[1] {
        GpuCommand::SetUniforms { translation, scale, layers } => {
            assert_eq!(scale.x.num, 2);
            assert_eq!(scale.x.den, 512);
            assert_eq!(scale.y.num, 2);
            assert_eq!(scale.y.den, 512);
            assert!(translation.x.same_ratio(Scalar::from_int(0)));
            assert!(translation.y.same_ratio(Scalar::from_int(0)));
            assert_eq!(*layers, 0);
        }
        _ => panic!("expected the uniform upload"),
    }
}

#[test]
fn submit_emits_four_commands_per_entry_in_draw_order() {
    let rect = Rectangle::new(Vec2::from_ints(0, 0), Vec2::from_ints(2, 2));
    let mut batch = RenderBatch::new();
    batch.set_texture(TextureId { id: 7 });
    batch.fill_rectangle(&rect);
    batch.set_texture(TextureId { id: 9 });
    batch.fill_rectangle(&rect);
    let mut renderer = Renderer::new(locations()).unwrap();
    let cmds = renderer.submit_batch(&batch);
    assert_eq!(cmds.len(), 2 + 4 * 2);
    for (entry, base) in [(7u64, 2usize), (9u64, 6usize)] {
        match &cmds[base] {
            GpuCommand::BindTexture { texture } => assert_eq!(texture.id, entry),
            _ => panic!("expected a texture bind"),
        }
        match &cmds[base + 1] {
            GpuCommand::UploadVertices { vertices, capacity } => {
                assert_eq!(vertices.len(), 4);
                assert_eq!(*capacity, 4);
            }
            _ => panic!("expected a vertex upload"),
        }
        match &cmds[base + 2] {
            GpuCommand::UploadIndices { indices, capacity } => {
                assert_eq!(indices, &vec![0, 1, 2, 2, 3, 0]);
                assert_eq!(*capacity, 6);
            }
            _ => panic!("expected an index upload"),
        }
        match &cmds[base + 3] {
            GpuCommand::DrawIndices { first, count, primitive } => {
                assert_eq!(*first, 0);
                assert_eq!(*count, 6);
                assert_eq!(*primitive, PrimitiveKind::Triangles);
            }
            _ => panic!("expected an indexed draw"),
        }
    }
    assert_eq!(renderer.buffer.vertex_capacity, 4);
    assert_eq!(renderer.buffer.index_capacity, 6);
}

#[test]
fn buffer_capacity_never_shrinks_below_historical_max() {
    let mut buffer = GeometryBuffer::new();
    buffer.upload_vertices(&dummy_vertices(10));
    assert_eq!(buffer.vertex_capacity, 10);
    // Shrinking uploads keep the capacity at the historical maximum.
    buffer.upload_vertices(&dummy_vertices(3));
    assert_eq!(buffer.vertex_capacity, 10);
    assert_eq!(buffer.vertex_len, 3);
    buffer.upload_vertices(&dummy_vertices(7));
    assert_eq!(buffer.vertex_capacity, 10);
    // A larger upload grows it.
    buffer.upload_vertices(&dummy_vertices(12));
    assert_eq!(buffer.vertex_capacity, 12);
    // The upload command carries the grown capacity.
    match buffer.upload_vertices(&dummy_vertices(1)) {
        GpuCommand::UploadVertices { vertices, capacity } => {
            assert_eq!(vertices.len(), 1);
            assert_eq!(capacity, 12);
        }
        _ => panic!("expected a vertex upload"),
    }
}

#[test]
fn index_capacity_grows_independently() {
    let mut buffer = GeometryBuffer::new();
    buffer.upload_indices(&vec![0, 1, 2]);
    assert_eq!(buffer.index_capacity, 3);
    buffer.upload_indices(&vec![0]);
    assert_eq!(buffer.index_capacity, 3);
    assert_eq!(buffer.index_len, 1);
    assert_eq!(buffer.vertex_capacity, 0);
}

#[test]
fn clear_commands_and_clear_color() {
    let mut renderer = Renderer::new(locations()).unwrap();
    assert!(matches!(renderer.clear(), GpuCommand::ClearAll));
    assert!(matches!(renderer.clear_depth(), GpuCommand::ClearDepth));
    let one = Scalar { num: 1, den: 1 };
    let gray = Color { r: Scalar { num: 1, den: 2 }, g: Scalar { num: 1, den: 2 }, b: Scalar { num: 1, den: 2 }, a: one };
    match renderer.set_clear_color(gray) {
        GpuCommand::SetClearColor { color } => assert_eq!(color, gray),
        _ => panic!("expected the clear color store"),
    }
    assert_eq!(renderer.clear_color, gray);
}

#[test]
fn submit_uploads_layer_count_as_uniform() {
    let rect = Rectangle::new(Vec2::from_ints(0, 0), Vec2::from_ints(2, 2));
    let mut batch = RenderBatch::new();
    batch.new_layer();
    batch.new_layer();
    batch.fill_rectangle(&rect);
    let mut renderer = Renderer::new(locations()).unwrap();
    let cmds = renderer.submit_batch(&batch);
    match &cmds[1] {
        GpuCommand::SetUniforms { layers, .. } => assert_eq!(*layers, 2),
        _ => panic!("expected the uniform upload"),
    }
}
