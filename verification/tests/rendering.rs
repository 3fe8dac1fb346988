use std::rc::Rc;
use tiefring::geometry::{Ratio, Rect, Size};
use tiefring::pipeline::IndexFormat;
use tiefring::render::{
    Batch, BoundResources, DrawCall, DrawTextureOperation, RenderCommand, TextureRenderer,
};
use tiefring::sprite::{Sprite, TileSet};
use tiefring::texture::{TextureId, TextureIds};
use tiefring::vertex::{depth, quad_vertices, TextureVertex};

fn ratio(num: u64, den: u32) -> Ratio {
    Ratio { num, den }
}

fn rect(left: f32, top: f32, right: f32, bottom: f32) -> Rect<f32> {
    Rect { left, top, right, bottom }
}

fn whole_sprite(ids: &mut TextureIds) -> Sprite {
    Sprite::load_data(ids, &[255u8; 16], Size::new(2, 2)).unwrap()
}

fn vertex(x: f32, y: f32, index: u16, u: Ratio, v: Ratio) -> TextureVertex<f32> {
    TextureVertex { position: (x, y), depth: ratio(index as u64, 65535), tex_coords: (u, v) }
}

#[test]
fn depth_is_the_index_over_the_largest_index() {
    assert_eq!(depth(0), ratio(0, 65535));
    assert_eq!(depth(1), ratio(1, 65535));
    assert_eq!(depth(300), ratio(300, 65535));
    assert_eq!(depth(u16::MAX), ratio(65535, 65535));
}

#[test]
fn depth_grows_with_the_index() {
    let mut last = depth(0);
    for index in 1..=u16::MAX {
        let next = depth(index);
        assert!(last.num * (next.den as u64) < next.num * (last.den as u64));
        assert!(next.num <= next.den as u64);
        last = next;
    }
}

#[test]
fn quad_corners_come_in_a_fixed_order() {
    let quad = quad_vertices(
        &rect(1.0, 2.0, 3.0, 4.0),
        &Rect { left: ratio(1, 8), top: ratio(2, 8), right: ratio(3, 8), bottom: ratio(4, 8) },
        ratio(5, 65535),
    );
    assert_eq!(
        quad,
        [
            vertex(1.0, 2.0, 5, ratio(1, 8), ratio(2, 8)),
            vertex(1.0, 4.0, 5, ratio(1, 8), ratio(4, 8)),
            vertex(3.0, 4.0, 5, ratio(3, 8), ratio(4, 8)),
            vertex(3.0, 2.0, 5, ratio(3, 8), ratio(2, 8)),
        ]
    );
}

#[test]
fn an_operation_takes_the_texture_coordinates_of_its_sprite() {
    let mut ids = TextureIds::new();
    let tiles =
        TileSet::load_data(&mut ids, &[0u8; 4 * 8 * 8], Size::new(8, 8), Size::new(4, 4)).unwrap();
    let sprite = tiles.sprite(1, 0);
    let operation = DrawTextureOperation::new(9, &sprite, rect(0.0, 0.0, 4.0, 4.0));
    assert_eq!(operation.index, 9);
    assert_eq!(operation.destination, rect(0.0, 0.0, 4.0, 4.0));
    assert_eq!(operation.tex_coords, sprite.tex_coords);
    assert!(Rc::ptr_eq(&operation.texture, &sprite.texture));
}

#[test]
fn rendering_nothing_draws_nothing() {
    let mut renderer = TextureRenderer::<f32>::new();
    let calls = renderer.render(&Vec::new());
    assert_eq!(calls, Vec::<DrawCall>::new());
    assert!(renderer.batches().is_empty());
}

#[test]
fn a_new_renderer_holds_no_batches() {
    let renderer = TextureRenderer::<f32>::new();
    assert!(renderer.batches().is_empty());
}

#[test]
fn rendering_nothing_drops_the_last_frame() {
    let mut ids = TextureIds::new();
    let sprite = whole_sprite(&mut ids);
    let mut renderer = TextureRenderer::new();
    let calls = renderer.render(&vec![DrawTextureOperation::new(
        1,
        &sprite,
        rect(0.0, 0.0, 1.0, 1.0),
    )]);
    assert_eq!(calls.len(), 1);
    assert_eq!(renderer.batches().len(), 1);
    assert_eq!(Rc::strong_count(&sprite.texture), 2);
    let calls = renderer.render(&Vec::new());
    assert!(calls.is_empty());
    assert!(renderer.batches().is_empty());
    assert_eq!(Rc::strong_count(&sprite.texture), 1);
}

#[test]
fn operations_of_one_index_make_one_draw_call() {
    let mut ids = TextureIds::new();
    let sprite = whole_sprite(&mut ids);
    for count in 1..=5usize {
        let operations: Vec<_> = (0..count)
            .map(|i| DrawTextureOperation::new(7, &sprite, rect(i as f32, 0.0, i as f32 + 1.0, 1.0)))
            .collect();
        let mut renderer = TextureRenderer::new();
        let calls = renderer.render(&operations);
        assert_eq!(
            calls,
            vec![DrawCall { batch: 0, texture: TextureId(0), index_count: 6 * count as u32 }]
        );
        let batches = renderer.batches();
        assert_eq!(batches.len(), 1);
        assert_eq!(batches[0].index, 7);
        assert_eq!(batches[0].vertices.len(), 4 * count);
        assert_eq!(batches[0].indices.len(), 6 * count);
    }
}

#[test]
fn indices_form_two_triangles_for_each_quad() {
    let mut ids = TextureIds::new();
    let sprite = whole_sprite(&mut ids);
    let operations: Vec<_> = (0..3)
        .map(|_| DrawTextureOperation::new(0, &sprite, rect(0.0, 0.0, 1.0, 1.0)))
        .collect();
    let mut renderer = TextureRenderer::new();
    renderer.render(&operations);
    assert_eq!(
        renderer.batches()[0].indices,
        vec![0, 1, 2, 2, 3, 0, 4, 5, 6, 6, 7, 4, 8, 9, 10, 10, 11, 8]
    );
}

#[test]
fn draw_calls_come_in_ascending_order_of_index() {
    let mut ids = TextureIds::new();
    let sprite = whole_sprite(&mut ids);
    let operations: Vec<_> = [5u16, 1, 3]
        .iter()
        .map(|index| DrawTextureOperation::new(*index, &sprite, rect(0.0, 0.0, 1.0, 1.0)))
        .collect();
    let mut renderer = TextureRenderer::new();
    let calls = renderer.render(&operations);
    let order: Vec<u16> = renderer.batches().iter().map(|batch| batch.index).collect();
    assert_eq!(order, vec![1, 3, 5]);
    assert_eq!(
        calls,
        vec![
            DrawCall { batch: 0, texture: TextureId(0), index_count: 6 },
            DrawCall { batch: 1, texture: TextureId(0), index_count: 6 },
            DrawCall { batch: 2, texture: TextureId(0), index_count: 6 },
        ]
    );
}

#[test]
fn the_order_of_submission_does_not_change_the_order_of_drawing() {
    let mut ids = TextureIds::new();
    let sprite = whole_sprite(&mut ids);
    for submitted in [[1u16, 3, 5], [1, 5, 3], [3, 1, 5], [3, 5, 1], [5, 1, 3], [5, 3, 1]] {
        let operations: Vec<_> = submitted
            .iter()
            .map(|index| DrawTextureOperation::new(*index, &sprite, rect(0.0, 0.0, 1.0, 1.0)))
            .collect();
        let mut renderer = TextureRenderer::new();
        renderer.render(&operations);
        let order: Vec<u16> = renderer.batches().iter().map(|batch| batch.index).collect();
        assert_eq!(order, vec![1, 3, 5]);
    }
}

#[test]
fn a_group_keeps_the_order_of_submission() {
    let mut ids = TextureIds::new();
    let sprite = whole_sprite(&mut ids);
    let operations = vec![
        DrawTextureOperation::new(2, &sprite, rect(10.0, 0.0, 11.0, 1.0)),
        DrawTextureOperation::new(1, &sprite, rect(20.0, 0.0, 21.0, 1.0)),
        DrawTextureOperation::new(2, &sprite, rect(30.0, 0.0, 31.0, 1.0)),
        DrawTextureOperation::new(1, &sprite, rect(40.0, 0.0, 41.0, 1.0)),
        DrawTextureOperation::new(2, &sprite, rect(50.0, 0.0, 51.0, 1.0)),
    ];
    let mut renderer = TextureRenderer::new();
    let calls = renderer.render(&operations);
    assert_eq!(
        calls,
        vec![
            DrawCall { batch: 0, texture: TextureId(0), index_count: 12 },
            DrawCall { batch: 1, texture: TextureId(0), index_count: 18 },
        ]
    );
    let batches = renderer.batches();
    let lefts = |batch: &Batch<f32>| -> Vec<f32> {
        batch.vertices.iter().step_by(4).map(|vertex| vertex.position.0).collect()
    };
    assert_eq!(batches[0].index, 1);
    assert_eq!(lefts(&batches[0]), vec![20.0, 40.0]);
    assert_eq!(batches[1].index, 2);
    assert_eq!(lefts(&batches[1]), vec![10.0, 30.0, 50.0]);
}

#[test]
fn a_whole_texture_is_drawn_with_its_coordinates_as_they_are() {
    let mut ids = TextureIds::new();
    let sprite = whole_sprite(&mut ids);
    let operations = vec![DrawTextureOperation::new(4, &sprite, rect(-1.0, 2.0, 3.5, -4.0))];
    let mut renderer = TextureRenderer::new();
    renderer.render(&operations);
    let (zero, one) = (ratio(0, 1), ratio(1, 1));
    assert_eq!(
        renderer.batches()[0].vertices,
        vec![
            vertex(-1.0, 2.0, 4, zero, zero),
            vertex(-1.0, -4.0, 4, zero, one),
            vertex(3.5, -4.0, 4, one, one),
            vertex(3.5, 2.0, 4, one, zero),
        ]
    );
    assert_eq!(renderer.batches()[0].indices, vec![0, 1, 2, 2, 3, 0]);
}

#[test]
fn a_tile_is_drawn_with_its_part_of_the_texture() {
    let mut ids = TextureIds::new();
    let tiles =
        TileSet::load_data(&mut ids, &[0u8; 4 * 8 * 8], Size::new(8, 8), Size::new(4, 2)).unwrap();
    let sprite = tiles.sprite(1, 2);
    let operations = vec![DrawTextureOperation::new(0, &sprite, rect(0.0, 0.0, 4.0, 2.0))];
    let mut renderer = TextureRenderer::new();
    renderer.render(&operations);
    assert_eq!(
        renderer.batches()[0].vertices,
        vec![
            vertex(0.0, 0.0, 0, ratio(4, 8), ratio(4, 8)),
            vertex(0.0, 2.0, 0, ratio(4, 8), ratio(6, 8)),
            vertex(4.0, 2.0, 0, ratio(8, 8), ratio(6, 8)),
            vertex(4.0, 0.0, 0, ratio(8, 8), ratio(4, 8)),
        ]
    );
}

#[test]
fn a_batch_is_drawn_with_the_texture_of_its_first_operation() {
    let mut ids = TextureIds::new();
    let first = whole_sprite(&mut ids);
    let second = whole_sprite(&mut ids);
    assert_eq!(second.texture.id, TextureId(1));
    let operations = vec![
        DrawTextureOperation::new(3, &second, rect(0.0, 0.0, 1.0, 1.0)),
        DrawTextureOperation::new(3, &first, rect(1.0, 0.0, 2.0, 1.0)),
        DrawTextureOperation::new(2, &first, rect(2.0, 0.0, 3.0, 1.0)),
    ];
    let mut renderer = TextureRenderer::new();
    let calls = renderer.render(&operations);
    // Two textures share index 3: both quads are drawn, with the texture of the first.
    assert_eq!(
        calls,
        vec![
            DrawCall { batch: 0, texture: TextureId(0), index_count: 6 },
            DrawCall { batch: 1, texture: TextureId(1), index_count: 12 },
        ]
    );
    let batches = renderer.batches();
    assert!(Rc::ptr_eq(&batches[0].texture, &first.texture));
    assert!(Rc::ptr_eq(&batches[1].texture, &second.texture));
    assert_eq!(batches[1].vertices.len(), 8);
}

#[test]
fn each_frame_replaces_the_batches_of_the_last() {
    let mut ids = TextureIds::new();
    let sprite = whole_sprite(&mut ids);
    let mut renderer = TextureRenderer::new();
    let first: Vec<_> = [1u16, 2, 3]
        .iter()
        .map(|index| DrawTextureOperation::new(*index, &sprite, rect(0.0, 0.0, 1.0, 1.0)))
        .collect();
    assert_eq!(renderer.render(&first).len(), 3);
    let second = vec![DrawTextureOperation::new(9, &sprite, rect(0.0, 0.0, 1.0, 1.0))];
    assert_eq!(renderer.render(&second).len(), 1);
    assert_eq!(renderer.batches().len(), 1);
    assert_eq!(renderer.batches()[0].index, 9);
}

#[test]
fn the_extreme_indices_are_drawn_first_and_last() {
    let mut ids = TextureIds::new();
    let sprite = whole_sprite(&mut ids);
    let operations = vec![
        DrawTextureOperation::new(u16::MAX, &sprite, rect(0.0, 0.0, 1.0, 1.0)),
        DrawTextureOperation::new(0, &sprite, rect(0.0, 0.0, 1.0, 1.0)),
    ];
    let mut renderer = TextureRenderer::new();
    renderer.render(&operations);
    let batches = renderer.batches();
    assert_eq!(batches[0].index, 0);
    assert_eq!(batches[0].vertices[0].depth, ratio(0, 65535));
    assert_eq!(batches[1].index, u16::MAX);
    assert_eq!(batches[1].vertices[0].depth, ratio(65535, 65535));
}

#[test]
fn index_bytes_are_the_indices_as_they_lie_in_memory() {
    let mut ids = TextureIds::new();
    let sprite = whole_sprite(&mut ids);
    let operations: Vec<_> = (0..70)
        .map(|_| DrawTextureOperation::new(0, &sprite, rect(0.0, 0.0, 1.0, 1.0)))
        .collect();
    let mut renderer = TextureRenderer::new();
    renderer.render(&operations);
    let batch = &renderer.batches()[0];
    let bytes = batch.index_bytes();
    assert_eq!(bytes.len(), 2 * batch.indices.len());
    let expected: Vec<u8> = batch.indices.iter().flat_map(|index| index.to_ne_bytes()).collect();
    assert_eq!(bytes, expected);
    // Index 277 is 0x0115: both of its bytes differ.
    assert_eq!(batch.indices[6 * 69 + 1], 277);
    let at = 2 * (6 * 69 + 1);
    assert!(bytes[at..at + 2] == [0x15, 0x01] || bytes[at..at + 2] == [0x01, 0x15]);
}

#[test]
fn a_full_batch_can_be_rendered() {
    let mut ids = TextureIds::new();
    let sprite = whole_sprite(&mut ids);
    let operations: Vec<_> = (0..16384)
        .map(|_| DrawTextureOperation::new(1, &sprite, rect(0.0, 0.0, 1.0, 1.0)))
        .collect();
    assert!(TextureRenderer::can_render(&operations));
    let mut renderer = TextureRenderer::new();
    let calls = renderer.render(&operations);
    assert_eq!(calls, vec![DrawCall { batch: 0, texture: TextureId(0), index_count: 98304 }]);
    let batch = &renderer.batches()[0];
    assert_eq!(batch.vertices.len(), 65536);
    assert_eq!(batch.indices[98304 - 6..], [65532, 65533, 65534, 65534, 65535, 65532]);
}

#[test]
fn an_overfull_batch_cannot_be_rendered() {
    let mut ids = TextureIds::new();
    let sprite = whole_sprite(&mut ids);
    let mut operations: Vec<_> = (0..16384)
        .map(|_| DrawTextureOperation::new(1, &sprite, rect(0.0, 0.0, 1.0, 1.0)))
        .collect();
    operations.push(DrawTextureOperation::new(2, &sprite, rect(0.0, 0.0, 1.0, 1.0)));
    assert!(TextureRenderer::can_render(&operations));
    operations.push(DrawTextureOperation::new(1, &sprite, rect(0.0, 0.0, 1.0, 1.0)));
    assert!(!TextureRenderer::can_render(&operations));
}

#[test]
fn nothing_can_always_be_rendered() {
    assert!(TextureRenderer::<f32>::can_render(&Vec::new()));
}

#[test]
fn a_draw_call_binds_and_then_draws() {
    let call = DrawCall { batch: 3, texture: TextureId(8), index_count: 24 };
    assert_eq!(
        call.commands(),
        vec![
            RenderCommand::SetPipeline { texture: TextureId(8) },
            RenderCommand::SetBindGroup { group: 0, resources: BoundResources::Camera },
            RenderCommand::SetBindGroup {
                group: 1,
                resources: BoundResources::Texture(TextureId(8)),
            },
            RenderCommand::SetVertexBuffer { slot: 0, batch: 3 },
            RenderCommand::SetIndexBuffer { batch: 3, format: IndexFormat::Uint16 },
            RenderCommand::DrawIndexed { index_count: 24, base_vertex: 0, instance_count: 1 },
        ]
    );
}
