//! The render batch: clearing, paint state, rectangle fills, draw order.

use crank::Color;
use crank::DrawEntry;
use crank::Rectangle;
use crank::RenderBatch;
use crank::Scalar;
use crank::TextureId;
use crank::Vec2;

fn int_scalar(n: i64) -> Scalar {
    Scalar::from_int(n)
}

#[test]
fn new_batch_is_empty() {
    let batch = RenderBatch::new();
    assert_eq!(batch.meshes.len(), 0);
    assert_eq!(batch.mesh_indices.len(), 0);
    assert_eq!(batch.layer_count, 0);
}

#[test]
fn clear_empties_both_collections() {
    let mut batch = RenderBatch::new();
    batch.fill_rectangle(&Rectangle::new(Vec2::from_ints(0, 0), Vec2::from_ints(2, 2)));
    batch.fill_rectangle(&Rectangle::new(Vec2::from_ints(5, 5), Vec2::from_ints(2, 2)));
    assert_eq!(batch.meshes.len(), 2);
    assert_eq!(batch.mesh_indices.len(), 2);
    batch.clear();
    assert_eq!(batch.meshes.len(), 0);
    assert_eq!(batch.mesh_indices.len(), 0);
    // Idempotent, and the rest of the batch state is untouched.
    batch.clear();
    assert_eq!(batch.meshes.len(), 0);
    assert_eq!(batch.mesh_indices.len(), 0);
    assert_eq!(batch.layer_count, 0);
}

#[test]
fn rectangle_fill_produces_two_triangles_over_the_rectangle() {
    // Center [10, 20], size [4, 6]: the rectangle spans [8, 12] x [17, 23].
    let mut batch = RenderBatch::new();
    batch.fill_rectangle(&Rectangle::new(Vec2::from_ints(10, 20), Vec2::from_ints(4, 6)));
    assert_eq!(batch.meshes.len(), 1);
    let mesh = &batch.meshes[0];
    assert_eq!(mesh.vertices.len(), 4);
    assert_eq!(mesh.indices.len(), 6);
    assert_eq!(mesh.indices, vec![0, 1, 2, 2, 3, 0]);

    let left = int_scalar(8);
    let right = int_scalar(12);
    let bottom = int_scalar(17);
    let top = int_scalar(23);
    // Bottom-left, bottom-right, top-right, top-left.
    assert!(mesh.vertices[0].position.x.same_ratio(left));
    assert!(mesh.vertices[0].position.y.same_ratio(bottom));
    assert!(mesh.vertices[1].position.x.same_ratio(right));
    assert!(mesh.vertices[1].position.y.same_ratio(bottom));
    assert!(mesh.vertices[2].position.x.same_ratio(right));
    assert!(mesh.vertices[2].position.y.same_ratio(top));
    assert!(mesh.vertices[3].position.x.same_ratio(left));
    assert!(mesh.vertices[3].position.y.same_ratio(top));
    // Texture coordinates cover the unit square.
    assert!(mesh.vertices[0].tex_coord.x.same_ratio(int_scalar(0)));
    assert!(mesh.vertices[0].tex_coord.y.same_ratio(int_scalar(0)));
    assert!(mesh.vertices[2].tex_coord.x.same_ratio(int_scalar(1)));
    assert!(mesh.vertices[2].tex_coord.y.same_ratio(int_scalar(1)));
    // Every index points into the vertex list.
    for &i in mesh.indices.iter() {
        assert!((i as usize) < mesh.vertices.len());
    }
}

#[test]
fn draw_order_is_insertion_order_not_grouped_by_texture() {
    let texture_a = TextureId { id: 1 };
    let texture_b = TextureId { id: 2 };
    let rect = Rectangle::new(Vec2::from_ints(0, 0), Vec2::from_ints(2, 2));
    let mut batch = RenderBatch::new();
    batch.set_texture(texture_a);
    batch.fill_rectangle(&rect);
    batch.set_texture(texture_b);
    batch.fill_rectangle(&rect);
    batch.set_texture(texture_a);
    batch.fill_rectangle(&rect);
    assert_eq!(batch.mesh_indices.len(), 3);
    assert_eq!(batch.mesh_indices[0], DrawEntry { texture: texture_a, mesh: 0 });
    assert_eq!(batch.mesh_indices[1], DrawEntry { texture: texture_b, mesh: 1 });
    assert_eq!(batch.mesh_indices[2], DrawEntry { texture: texture_a, mesh: 2 });
}

#[test]
fn set_color_affects_only_subsequent_fills() {
    let red = Color {
        r: int_scalar(1),
        g: int_scalar(0),
        b: int_scalar(0),
        a: int_scalar(1),
    };
    let rect = Rectangle::new(Vec2::from_ints(0, 0), Vec2::from_ints(2, 2));
    let mut batch = RenderBatch::new();
    batch.fill_rectangle(&rect);
    batch.set_color(red);
    batch.fill_rectangle(&rect);
    // The first mesh keeps the default white paint.
    assert!(batch.meshes[0].vertices[0].color.r.same_ratio(int_scalar(1)));
    assert!(batch.meshes[0].vertices[0].color.g.same_ratio(int_scalar(1)));
    // The second mesh is painted red.
    assert!(batch.meshes[1].vertices[0].color.r.same_ratio(int_scalar(1)));
    assert!(batch.meshes[1].vertices[0].color.g.same_ratio(int_scalar(0)));
    assert!(batch.meshes[1].vertices[0].color.b.same_ratio(int_scalar(0)));
}

#[test]
fn new_layer_bakes_layer_into_vertex_z() {
    let rect = Rectangle::new(Vec2::from_ints(0, 0), Vec2::from_ints(2, 2));
    let mut batch = RenderBatch::new();
    batch.fill_rectangle(&rect);
    batch.new_layer();
    assert_eq!(batch.layer_count, 1);
    batch.fill_rectangle(&rect);
    assert!(batch.meshes[0].vertices[0].position.z.same_ratio(int_scalar(0)));
    assert!(batch.meshes[1].vertices[0].position.z.same_ratio(int_scalar(1)));
}

#[test]
fn set_view_does_not_touch_geometry() {
    let rect = Rectangle::new(Vec2::from_ints(3, 3), Vec2::from_ints(2, 2));
    let mut batch = RenderBatch::new();
    batch.fill_rectangle(&rect);
    let before = batch.meshes[0].vertices[0].position.x;
    batch.set_view(crank::CenteredView::new(
        Vec2::from_ints(100, 100),
        Vec2::from_ints(50, 50),
    ));
    assert_eq!(batch.meshes.len(), 1);
    assert_eq!(batch.meshes[0].vertices[0].position.x, before);
}
