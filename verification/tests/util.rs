use rimecraft::client::render::{FixedColorVertexConsumer, VertexFormatDrawMode};
use rimecraft::util::VarInt;

#[test]
fn var_int_lengths() {
    assert_eq!(VarInt(0).len(), 1);
    assert_eq!(VarInt(127).len(), 1);
    assert_eq!(VarInt(128).len(), 2);
    assert_eq!(VarInt(16383).len(), 2);
    assert_eq!(VarInt(16384).len(), 3);
    assert_eq!(VarInt(2097151).len(), 3);
    assert_eq!(VarInt(2097152).len(), 4);
    assert_eq!(VarInt(268435455).len(), 4);
    assert_eq!(VarInt(268435456).len(), 5);
    assert_eq!(VarInt(i32::MAX).len(), 5);
    assert_eq!(VarInt(-1).len(), 5);
    assert_eq!(VarInt(i32::MIN).len(), 5);
}

#[test]
fn draw_mode_vertex_counts() {
    assert_eq!(VertexFormatDrawMode::Lines.first_vertex_count(), 2);
    assert_eq!(VertexFormatDrawMode::Triangles.first_vertex_count(), 3);
    assert_eq!(VertexFormatDrawMode::Quads.first_vertex_count(), 4);
    assert_eq!(VertexFormatDrawMode::Lines.additional_vertex_count(), 2);
    assert_eq!(VertexFormatDrawMode::LineStrip.additional_vertex_count(), 1);
    assert_eq!(VertexFormatDrawMode::Triangles.additional_vertex_count(), 3);
    assert_eq!(VertexFormatDrawMode::Quads.additional_vertex_count(), 4);
}

#[test]
fn draw_mode_shared_vertices() {
    assert!(VertexFormatDrawMode::TriangleStrip.share_vertices());
    assert!(VertexFormatDrawMode::TriangleFan.share_vertices());
    assert!(VertexFormatDrawMode::LineStrip.share_vertices());
    assert!(!VertexFormatDrawMode::Lines.share_vertices());
    assert!(!VertexFormatDrawMode::Quads.share_vertices());
}

#[test]
fn draw_mode_index_counts() {
    assert_eq!(VertexFormatDrawMode::Quads.index_count(8), 12);
    assert_eq!(VertexFormatDrawMode::Lines.index_count(8), 12);
    assert_eq!(VertexFormatDrawMode::Triangles.index_count(9), 9);
    assert_eq!(VertexFormatDrawMode::TriangleFan.index_count(7), 7);
}

#[test]
fn fixed_color_state() {
    let mut consumer = FixedColorVertexConsumer {
        color_fixed: false,
        fixed_red: 0,
        fixed_green: 0,
        fixed_blue: 0,
        fixed_alpha: 0,
    };
    consumer.fixed_color(1, 2, 3, 4);
    assert!(consumer.color_fixed);
    assert_eq!(
        (
            consumer.fixed_red,
            consumer.fixed_green,
            consumer.fixed_blue,
            consumer.fixed_alpha
        ),
        (1, 2, 3, 4)
    );
    consumer.unfix_color();
    assert!(!consumer.color_fixed);
    assert_eq!(consumer.fixed_red, 1);
}
